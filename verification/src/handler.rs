//! Handler results and their translation into replies.
//!
//! Whatever a handler returns is turned into an optional outbound message
//! by [`IntoResponse`]: nothing for `()`, the value itself for a message, a
//! text message for a string, a binary message for bytes, and for an error
//! a text message that reports it.

use crate::error::{Error, Result};
use crate::message::{json_message, json_text, Message, MessageType};
use crate::router::error_reply_text;
use core::marker::PhantomData;
use vstd::prelude::*;
use vstd::string::StringExecFns;
use vstd::utf8::encode_utf8;

verus! {

/// A value that a handler may return.
pub trait IntoResponse: Sized {
    /// Turns the value into the message to reply with, if any.
    fn into_response(self) -> (response: Result<Option<Message>>);
}

impl IntoResponse for () {
    /// No reply.
    fn into_response(self) -> (response: Result<Option<Message>>)
        ensures
            response matches Ok(None),
    {
        Ok(None)
    }
}

impl IntoResponse for Message {
    /// The message itself.
    fn into_response(self) -> (response: Result<Option<Message>>)
        ensures
            response matches Ok(Some(m)) && m@ == self@,
    {
        Ok(Some(self))
    }
}

impl IntoResponse for String {
    /// A text message with this text.
    fn into_response(self) -> (response: Result<Option<Message>>)
        ensures
            response matches Ok(Some(m)) && m@.kind == MessageType::Text && m@.payload
                == encode_utf8(self@),
    {
        Ok(Some(Message::text(self.as_str())))
    }
}

impl<'a> IntoResponse for &'a str {
    /// A text message with this text.
    fn into_response(self) -> (response: Result<Option<Message>>)
        ensures
            response matches Ok(Some(m)) && m@.kind == MessageType::Text && m@.payload
                == encode_utf8(self@),
    {
        Ok(Some(Message::text(self)))
    }
}

impl IntoResponse for Vec<u8> {
    /// A binary message with these bytes.
    fn into_response(self) -> (response: Result<Option<Message>>)
        ensures
            response matches Ok(Some(m)) && m@.kind == MessageType::Binary && m@.payload == self@,
    {
        Ok(Some(Message::binary(self)))
    }
}

impl<T: IntoResponse> IntoResponse for Result<T> {
    /// The response of the value, or for an error a text message that
    /// holds `Error: ` and the display form of the error.
    fn into_response(self) -> (response: Result<Option<Message>>)
        ensures
            self matches Err(e) ==> (response matches Ok(Some(m)) && m@.kind == MessageType::Text
                && m@.payload == encode_utf8(error_reply_text(e))),
            self matches Ok(value) ==> call_ensures(T::into_response, (value,), response),
    {
        match self {
            Ok(value) => value.into_response(),
            Err(e) => {
                let text = String::from_str("Error: ").concat(e.to_string().as_str());
                Ok(Some(Message::text(text.as_str())))
            },
        }
    }
}

/// A value that is sent as JSON text.
pub struct JsonResponse<T>(pub T);

impl<T> JsonResponse<T> {
    /// A text message with the JSON form of the value. Whether the value
    /// can be serialized is decided by the JSON library; its failure is a
    /// `Json` error.
    pub fn into_response(self) -> (response: Result<Option<Message>>) where T: serde::Serialize
        ensures
            response matches Ok(reply) ==> (reply matches Some(m) && m@.kind == MessageType::Text
                && m@.text() is Some),
            response is Ok || response matches Err(Error::Json(_)),
    {
        match json_message(json_text(&self.0)) {
            Ok(message) => Ok(Some(message)),
            Err(e) => Err(e),
        }
    }
}

/// A handler function together with the types of its arguments.
pub struct HandlerService<F, T> {
    handler: F,
    _marker: PhantomData<T>,
}

impl<F, T> HandlerService<F, T> {
    /// The wrapped function.
    pub closed spec fn function(&self) -> F {
        self.handler
    }

    /// Wraps a handler function.
    pub fn new(handler: F) -> (service: HandlerService<F, T>)
        ensures
            service.function() == handler,
    {
        HandlerService { handler, _marker: PhantomData }
    }

    /// The wrapped function.
    pub fn get(&self) -> (handler: &F)
        ensures
            *handler == self.function(),
    {
        &self.handler
    }
}

} // verus!
