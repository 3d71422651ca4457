//! WebSocket messages.
//!
//! A [`Message`] is a tagged payload: one of five kinds plus raw bytes. Its
//! mathematical model is a [`MessageView`]; the contracts of this module are
//! stated over that model and over vstd's model of UTF-8.

use crate::error::{json_error_message, Error, Result};
use tokio_tungstenite::tungstenite::Message as TungsteniteMessage;
use vstd::prelude::*;
use vstd::string::StrSliceExecFns;
use vstd::string::StringSliceAdditionalSpecFns;
use vstd::utf8::{decode_utf8, encode_utf8, valid_utf8};

verus! {

/// The kind of a WebSocket message.
#[derive(Debug, Clone, Copy, PartialEq, Eq, Structural)]
pub enum MessageType {
    /// UTF-8 text.
    Text,
    /// Raw bytes.
    Binary,
    /// A keep-alive request.
    Ping,
    /// The answer to a ping.
    Pong,
    /// The end of the session.
    Close,
}

/// A WebSocket message: a kind and the payload bytes.
#[derive(Debug)]
pub struct Message {
    /// The payload. For a text message built from a string this is its
    /// UTF-8 encoding.
    pub data: Vec<u8>,
    /// The kind of the message.
    pub msg_type: MessageType,
}

/// The mathematical model of a [`Message`].
pub struct MessageView {
    /// The kind of the message.
    pub kind: MessageType,
    /// The payload bytes.
    pub payload: Seq<u8>,
}

impl View for Message {
    type V = MessageView;

    open spec fn view(&self) -> MessageView {
        MessageView { kind: self.msg_type, payload: self.data@ }
    }
}

impl MessageView {
    /// A message as the constructors build it: text is valid UTF-8 and a
    /// close message carries no payload.
    pub open spec fn well_formed(self) -> bool {
        &&& self.kind == MessageType::Text ==> valid_utf8(self.payload)
        &&& self.kind == MessageType::Close ==> self.payload.len() == 0
    }

    /// The text of the message: present for a text message whose payload is
    /// valid UTF-8.
    pub open spec fn text(self) -> Option<Seq<char>> {
        if self.kind == MessageType::Text && valid_utf8(self.payload) {
            Some(decode_utf8(self.payload))
        } else {
            None
        }
    }
}

impl Clone for Message {
    fn clone(&self) -> (copy: Self)
        ensures
            copy@ == self@,
    {
        Message { data: self.data.clone(), msg_type: self.msg_type }
    }
}

/// Decodes bytes as UTF-8 with `core::str::from_utf8`: the text is returned
/// exactly when the bytes are valid UTF-8, and then encodes to those bytes.
#[verifier::external_body]
pub(crate) fn utf8_text(bytes: &[u8]) -> (text: Option<&str>)
    ensures
        text is Some <==> valid_utf8(bytes@),
        text matches Some(s) ==> s.spec_bytes() == bytes@,
{
    match core::str::from_utf8(bytes) {
        Ok(s) => Some(s),
        Err(_) => None,
    }
}

/// A frame as the framing layer exchanges it: text travels as a string,
/// everything else as bytes, and a close frame exposes no payload.
#[derive(Debug)]
pub enum WireFrame {
    /// A text frame.
    Text(String),
    /// A binary frame.
    Binary(Vec<u8>),
    /// A ping frame.
    Ping(Vec<u8>),
    /// A pong frame.
    Pong(Vec<u8>),
    /// A close frame.
    Close,
}

/// The mathematical model of a frame of the framing layer. `Raw` stands for
/// a frame that the framing layer hands out unparsed.
pub enum FrameView {
    /// A text frame and its characters.
    Text(Seq<char>),
    /// A binary frame and its bytes.
    Binary(Seq<u8>),
    /// A ping frame and its payload.
    Ping(Seq<u8>),
    /// A pong frame and its payload.
    Pong(Seq<u8>),
    /// A close frame.
    Close,
    /// An unparsed frame.
    Raw,
}

impl View for WireFrame {
    type V = FrameView;

    open spec fn view(&self) -> FrameView {
        match self {
            WireFrame::Text(text) => FrameView::Text(text@),
            WireFrame::Binary(data) => FrameView::Binary(data@),
            WireFrame::Ping(data) => FrameView::Ping(data@),
            WireFrame::Pong(data) => FrameView::Pong(data@),
            WireFrame::Close => FrameView::Close,
        }
    }
}

/// The text that `String::from_utf8_lossy` makes of a byte sequence.
pub uninterp spec fn utf8_lossy(bytes: Seq<u8>) -> Seq<char>;

/// The text that a payload is sent as: its decoding where it is valid
/// UTF-8, else its lossy decoding.
pub open spec fn wire_text(payload: Seq<u8>) -> Seq<char> {
    if valid_utf8(payload) {
        decode_utf8(payload)
    } else {
        utf8_lossy(payload)
    }
}

impl MessageView {
    /// The frame that carries this message to the client.
    pub open spec fn frame(self) -> FrameView {
        match self.kind {
            MessageType::Text => FrameView::Text(wire_text(self.payload)),
            MessageType::Binary => FrameView::Binary(self.payload),
            MessageType::Ping => FrameView::Ping(self.payload),
            MessageType::Pong => FrameView::Pong(self.payload),
            MessageType::Close => FrameView::Close,
        }
    }
}

impl FrameView {
    /// The message that an inbound frame is delivered as. An unparsed frame
    /// is delivered as an empty binary message.
    pub open spec fn message(self) -> MessageView {
        match self {
            FrameView::Text(text) => MessageView {
                kind: MessageType::Text,
                payload: encode_utf8(text),
            },
            FrameView::Binary(data) => MessageView { kind: MessageType::Binary, payload: data },
            FrameView::Ping(data) => MessageView { kind: MessageType::Ping, payload: data },
            FrameView::Pong(data) => MessageView { kind: MessageType::Pong, payload: data },
            FrameView::Close => MessageView { kind: MessageType::Close, payload: Seq::empty() },
            FrameView::Raw => MessageView { kind: MessageType::Binary, payload: Seq::empty() },
        }
    }
}

/// The message type of the framing library, carried through as an opaque
/// value.
#[verifier::external_type_specification]
#[verifier::external_body]
pub struct ExTungsteniteMessage(TungsteniteMessage);

/// The frame that a message of the framing library holds: its variant and
/// the string or bytes in it; the payload of a close frame is left out.
pub uninterp spec fn frame_of(message: TungsteniteMessage) -> FrameView;

/// Decodes bytes with `String::from_utf8_lossy`, which replaces every
/// invalid sequence and leaves valid UTF-8 as it is.
#[verifier::external_body]
pub(crate) fn lossy_text(bytes: &[u8]) -> (text: String)
    ensures
        text@ == utf8_lossy(bytes@),
        valid_utf8(bytes@) ==> text@ == decode_utf8(bytes@),
{
    String::from_utf8_lossy(bytes).into_owned()
}

/// Builds the `tungstenite::Message` variant that corresponds to the frame,
/// moving the string or bytes into it; a close frame is built without a
/// close reason.
#[verifier::external_body]
fn tungstenite_from_frame(frame: WireFrame) -> (message: TungsteniteMessage)
    ensures
        frame_of(message) == frame@,
{
    match frame {
        WireFrame::Text(text) => TungsteniteMessage::Text(text),
        WireFrame::Binary(data) => TungsteniteMessage::Binary(data),
        WireFrame::Ping(data) => TungsteniteMessage::Ping(data),
        WireFrame::Pong(data) => TungsteniteMessage::Pong(data),
        WireFrame::Close => TungsteniteMessage::Close(None),
    }
}

/// Takes a `tungstenite::Message` apart by its variant, moving the string or
/// bytes out; `None` stands for the variant `Frame`.
#[verifier::external_body]
fn frame_from_tungstenite(message: TungsteniteMessage) -> (frame: Option<WireFrame>)
    ensures
        match frame {
            Some(f) => frame_of(message) == f@,
            None => frame_of(message) is Raw,
        },
{
    match message {
        TungsteniteMessage::Text(text) => Some(WireFrame::Text(text)),
        TungsteniteMessage::Binary(data) => Some(WireFrame::Binary(data)),
        TungsteniteMessage::Ping(data) => Some(WireFrame::Ping(data)),
        TungsteniteMessage::Pong(data) => Some(WireFrame::Pong(data)),
        TungsteniteMessage::Close(_) => Some(WireFrame::Close),
        TungsteniteMessage::Frame(_) => None,
    }
}

/// Parses JSON text into a `T` with `serde_json::from_str`. Whether it
/// succeeds is decided by the JSON library and by `T`.
#[verifier::external_body]
fn parse_json<T: serde::de::DeserializeOwned>(text: &str) -> (parsed: std::result::Result<
    T,
    serde_json::Error,
>) {
    serde_json::from_str(text)
}

/// Sending a message and receiving it again gives the same message, for
/// every message whose text is valid UTF-8 and whose close carries no
/// payload.
pub proof fn lemma_frame_round_trip(m: MessageView)
    requires
        m.well_formed(),
    ensures
        m.frame().message() == m,
{
    if m.kind == MessageType::Text {
        vstd::utf8::decode_utf8_encode_utf8(m.payload);
    }
    if m.kind == MessageType::Close {
        assert(m.payload =~= Seq::<u8>::empty());
    }
}

/// Every inbound frame is delivered as a well-formed message.
pub proof fn lemma_inbound_well_formed(f: FrameView)
    ensures
        f.message().well_formed(),
{
    if let FrameView::Text(text) = f {
        vstd::utf8::encode_utf8_valid_utf8(text);
    }
}

/// Renders a value as JSON text with `serde_json::to_string`. Whether it
/// succeeds is decided by the JSON library and by `T`.
#[verifier::external_body]
pub(crate) fn json_text<T: serde::Serialize>(value: &T) -> (text: std::result::Result<
    String,
    serde_json::Error,
>) {
    serde_json::to_string(value)
}

/// The message that carries serialized JSON: a text message with that
/// text, or the JSON library's failure as a `Json` error.
pub fn json_message(serialized: std::result::Result<String, serde_json::Error>) -> (out: Result<
    Message,
>)
    ensures
        serialized matches Ok(text) ==> (out matches Ok(m) && m@.kind == MessageType::Text
            && m@.payload == encode_utf8(text@) && m@.text() == Some(text@)),
        serialized matches Err(e) ==> (out matches Err(failure) && failure is Json
            && failure.detail() == json_error_message(e)),
{
    match serialized {
        Ok(text) => Ok(Message::text(text.as_str())),
        Err(e) => Err(Error::from(e)),
    }
}

/// What parsing hands back to the caller: the parsed value, or the JSON
/// library's failure as a `Json` error.
pub fn json_outcome<T>(parsed: std::result::Result<T, serde_json::Error>) -> (out: Result<T>)
    ensures
        parsed matches Ok(value) ==> (out matches Ok(v) && v == value),
        parsed matches Err(e) ==> (out matches Err(failure) && failure is Json && failure.detail()
            == json_error_message(e)),
{
    match parsed {
        Ok(value) => Ok(value),
        Err(e) => Err(Error::from(e)),
    }
}

impl Message {
    /// Creates a text message holding the UTF-8 encoding of `text`.
    pub fn text(text: &str) -> (m: Message)
        ensures
            m@.kind == MessageType::Text,
            m@.payload == encode_utf8(text@),
            m@.text() == Some(text@),
            m@.well_formed(),
    {
        proof {
            vstd::utf8::encode_utf8_valid_utf8(text@);
            vstd::utf8::encode_utf8_decode_utf8(text@);
        }
        Message { data: text.as_bytes_vec(), msg_type: MessageType::Text }
    }

    /// Creates a binary message holding `data` unchanged.
    pub fn binary(data: Vec<u8>) -> (m: Message)
        ensures
            m@ == (MessageView { kind: MessageType::Binary, payload: data@ }),
    {
        Message { data, msg_type: MessageType::Binary }
    }

    /// Creates a ping message with the given payload.
    pub fn ping(data: Vec<u8>) -> (m: Message)
        ensures
            m@ == (MessageView { kind: MessageType::Ping, payload: data@ }),
    {
        Message { data, msg_type: MessageType::Ping }
    }

    /// Creates a pong message with the given payload.
    pub fn pong(data: Vec<u8>) -> (m: Message)
        ensures
            m@ == (MessageView { kind: MessageType::Pong, payload: data@ }),
    {
        Message { data, msg_type: MessageType::Pong }
    }

    /// Creates a close message; it carries no payload.
    pub fn close() -> (m: Message)
        ensures
            m@ == (MessageView { kind: MessageType::Close, payload: Seq::<u8>::empty() }),
    {
        Message { data: Vec::new(), msg_type: MessageType::Close }
    }

    /// The kind of this message.
    pub fn message_type(&self) -> (kind: MessageType)
        ensures
            kind == self@.kind,
    {
        self.msg_type
    }

    /// Whether this is a text message.
    pub fn is_text(&self) -> (b: bool)
        ensures
            b == (self@.kind == MessageType::Text),
    {
        self.msg_type == MessageType::Text
    }

    /// Whether this is a binary message.
    pub fn is_binary(&self) -> (b: bool)
        ensures
            b == (self@.kind == MessageType::Binary),
    {
        self.msg_type == MessageType::Binary
    }

    /// Whether this is a ping message.
    pub fn is_ping(&self) -> (b: bool)
        ensures
            b == (self@.kind == MessageType::Ping),
    {
        self.msg_type == MessageType::Ping
    }

    /// Whether this is a pong message.
    pub fn is_pong(&self) -> (b: bool)
        ensures
            b == (self@.kind == MessageType::Pong),
    {
        self.msg_type == MessageType::Pong
    }

    /// Whether this is a close message.
    pub fn is_close(&self) -> (b: bool)
        ensures
            b == (self@.kind == MessageType::Close),
    {
        self.msg_type == MessageType::Close
    }

    /// The payload as text: present exactly for a text message whose payload
    /// is valid UTF-8, and then the decoding of the payload.
    pub fn as_text(&self) -> (text: Option<&str>)
        ensures
            text is Some <==> self@.text() is Some,
            text matches Some(s) ==> Some(s@) == self@.text() && encode_utf8(s@) == self@.payload,
    {
        if self.is_text() {
            let text = utf8_text(self.data.as_slice());
            proof {
                if let Some(s) = text {
                    vstd::utf8::encode_utf8_decode_utf8(s@);
                }
            }
            text
        } else {
            None
        }
    }

    /// The payload bytes, whatever the kind.
    pub fn as_bytes(&self) -> (bytes: &[u8])
        ensures
            bytes@ == self@.payload,
    {
        self.data.as_slice()
    }

    /// The frame that carries this message to the client. Text that is not
    /// valid UTF-8 is sent in its lossy decoding.
    pub fn to_wire(self) -> (frame: WireFrame)
        ensures
            frame@ == self@.frame(),
    {
        match self.msg_type {
            MessageType::Text => WireFrame::Text(lossy_text(self.data.as_slice())),
            MessageType::Binary => WireFrame::Binary(self.data),
            MessageType::Ping => WireFrame::Ping(self.data),
            MessageType::Pong => WireFrame::Pong(self.data),
            MessageType::Close => WireFrame::Close,
        }
    }

    /// The message that an inbound frame is delivered as.
    pub fn from_wire(frame: WireFrame) -> (m: Message)
        ensures
            m@ == frame@.message(),
            m@.well_formed(),
    {
        proof {
            lemma_inbound_well_formed(frame@);
        }
        match frame {
            WireFrame::Text(text) => Message::text(text.as_str()),
            WireFrame::Binary(data) => Message::binary(data),
            WireFrame::Ping(data) => Message::ping(data),
            WireFrame::Pong(data) => Message::pong(data),
            WireFrame::Close => Message::close(),
        }
    }

    /// Converts this message to the framing library's message type.
    pub fn into_tungstenite(self) -> (out: TungsteniteMessage)
        ensures
            frame_of(out) == self@.frame(),
    {
        tungstenite_from_frame(self.to_wire())
    }

    /// Converts a message of the framing library to a message of this
    /// library. An unparsed frame becomes an empty binary message.
    pub fn from_tungstenite(msg: TungsteniteMessage) -> (m: Message)
        ensures
            m@ == frame_of(msg).message(),
            m@.well_formed(),
    {
        proof {
            lemma_inbound_well_formed(frame_of(msg));
        }
        match frame_from_tungstenite(msg) {
            Some(frame) => Message::from_wire(frame),
            None => Message::binary(Vec::new()),
        }
    }

    /// Parses the text of this message as JSON.
    ///
    /// Fails with `InvalidMessage` exactly when the message has no text.
    /// Otherwise the JSON library decides: its value is returned, or its
    /// failure as a `Json` error.
    pub fn json<T: serde::de::DeserializeOwned>(&self) -> (parsed: Result<T>)
        ensures
            self@.text() is None ==> parsed matches Err(Error::InvalidMessage),
            self@.text() is Some ==> parsed is Ok || parsed matches Err(Error::Json(_)),
    {
        match self.as_text() {
            None => Err(Error::InvalidMessage),
            Some(text) => json_outcome(parse_json(text)),
        }
    }
}

} // verus!
