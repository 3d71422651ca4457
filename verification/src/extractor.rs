//! Extractors: typed projections of a dispatch to the arguments of a
//! handler, and the per-dispatch [`Extensions`].
//!
//! Each extractor is a tuple struct around the value it extracts. A value
//! that is looked up by type is found by the caller and handed over as an
//! `Option`; the extractor decides what an absent value means.

use crate::connection::{Connection, ConnectionInfo};
use crate::error::{Error, Result};
use crate::message::{json_message, json_text, Message, MessageType};
use crate::text::same_bytes;
use std::sync::Arc;
use vstd::prelude::*;
use vstd::string::StringExecFns;
use vstd::string::StringSliceAdditionalSpecFns;
use vstd::utf8::encode_utf8;

verus! {

/// The key under which path parameters are held in the extensions.
pub const PATH_PARAMS_KEY: &'static str = "path_params";

/// The key under which query parameters are held in the extensions.
pub const QUERY_PARAMS_KEY: &'static str = "query_params";

/// The entries of extensions as a map. A later entry under the same key
/// replaces the earlier one.
pub open spec fn entries_of<V>(entries: Seq<(String, V)>) -> Map<Seq<char>, V>
    decreases entries.len(),
{
    if entries.len() == 0 {
        Map::empty()
    } else {
        entries_of(entries.drop_last()).insert(entries.last().0@, entries.last().1)
    }
}

/// Texts with the same UTF-8 encoding are the same text.
pub proof fn lemma_encoding_tells_texts_apart(a: Seq<char>, b: Seq<char>)
    requires
        encode_utf8(a) == encode_utf8(b),
    ensures
        a == b,
{
    vstd::utf8::encode_utf8_decode_utf8(a);
    vstd::utf8::encode_utf8_decode_utf8(b);
}

/// Values that middleware attaches to one dispatch, by string key.
pub struct Extensions<V> {
    entries: Vec<(String, V)>,
}

impl<V> View for Extensions<V> {
    type V = Map<Seq<char>, V>;

    closed spec fn view(&self) -> Map<Seq<char>, V> {
        entries_of(self.entries@)
    }
}

impl<V> Extensions<V> {
    /// Creates empty extensions.
    pub fn new() -> (extensions: Extensions<V>)
        ensures
            extensions@ == (Map::<Seq<char>, V>::empty()),
    {
        Extensions { entries: Vec::new() }
    }

    /// Stores a value under a key and replaces the value that was stored
    /// under that key before.
    pub fn insert(&mut self, key: &str, value: V)
        ensures
            final(self)@ == old(self)@.insert(key@, value),
    {
        self.entries.push((String::from_str(key), value));
        assert(self.entries@.drop_last() =~= old(self).entries@);
    }

    /// The value stored under a key, if there is one.
    pub fn get(&self, key: &str) -> (found: Option<&V>)
        ensures
            match found {
                Some(value) => self@.dom().contains(key@) && self@[key@] == *value,
                None => !self@.dom().contains(key@),
            },
    {
        let mut i: usize = self.entries.len();
        assert(self.entries@.take(i as int) =~= self.entries@);
        while i > 0
            invariant
                i <= self.entries@.len(),
                entries_of(self.entries@).dom().contains(key@) <==> entries_of(
                    self.entries@.take(i as int),
                ).dom().contains(key@),
                entries_of(self.entries@).dom().contains(key@) ==> entries_of(self.entries@)[key@]
                    == entries_of(self.entries@.take(i as int))[key@],
            decreases i,
        {
            assert(self.entries@.take(i as int).drop_last() =~= self.entries@.take(i - 1));
            if same_bytes(self.entries[i - 1].0.as_str().as_bytes(), key.as_bytes()) {
                proof {
                    lemma_encoding_tells_texts_apart(self.entries@[i - 1].0@, key@);
                }
                return Some(&self.entries[i - 1].1);
            }
            i -= 1;
        }
        None
    }
}

impl<V> Default for Extensions<V> {
    fn default() -> (extensions: Extensions<V>)
        ensures
            extensions@ == (Map::<Seq<char>, V>::empty()),
    {
        Extensions::new()
    }
}

/// Extracts the shared state of type `T`.
pub struct State<T>(pub Arc<T>);

/// Extracts the JSON payload of a text message as a `T`.
pub struct Json<T>(pub T);

/// Extracts the metadata of the connection.
pub struct ConnectInfo(pub ConnectionInfo);

/// Extracts the raw payload bytes.
pub struct Data(pub Vec<u8>);

/// Extracts the path parameters that routing middleware stored.
pub struct Path<T>(pub T);

/// Extracts the query parameters that routing middleware stored.
pub struct Query<T>(pub T);

/// Extracts a value that middleware stored by its type.
pub struct Extension<T>(pub Arc<T>);

/// The extractor error with the given detail, when a looked-up value is
/// absent.
fn absent<T>(found: Option<T>, detail: &str) -> (out: Result<T>)
    ensures
        match found {
            Some(value) => out matches Ok(v) && v == value,
            None => out matches Err(Error::Extractor(text)) && text@ == detail@,
        },
{
    match found {
        Some(value) => Ok(value),
        None => Err(Error::extractor(detail)),
    }
}

impl<T> State<T> {
    /// Extracts the state that was found for `T`. An absent value is an
    /// extractor error `State not found`.
    pub fn from_lookup(found: Option<Arc<T>>) -> (out: Result<State<T>>)
        ensures
            match found {
                Some(value) => out matches Ok(state) && state.0 == value,
                None => out matches Err(Error::Extractor(text)) && text@ == "State not found"@,
            },
    {
        match absent(found, "State not found") {
            Ok(value) => Ok(State(value)),
            Err(e) => Err(e),
        }
    }
}

impl<T> Extension<T> {
    /// Extracts the extension that was found for `T`. An absent value is an
    /// extractor error `Extension not found`.
    pub fn from_lookup(found: Option<Arc<T>>) -> (out: Result<Extension<T>>)
        ensures
            match found {
                Some(value) => out matches Ok(extension) && extension.0 == value,
                None => out matches Err(Error::Extractor(text)) && text@ == "Extension not found"@,
            },
    {
        match absent(found, "Extension not found") {
            Ok(value) => Ok(Extension(value)),
            Err(e) => Err(e),
        }
    }
}

impl<T> Path<T> {
    /// Extracts the path parameters that were found. An absent value is an
    /// extractor error `Path parameters not found`.
    pub fn from_lookup(found: Option<T>) -> (out: Result<Path<T>>)
        ensures
            match found {
                Some(value) => out matches Ok(path) && path.0 == value,
                None => out matches Err(Error::Extractor(text)) && text@
                    == "Path parameters not found"@,
            },
    {
        match absent(found, "Path parameters not found") {
            Ok(value) => Ok(Path(value)),
            Err(e) => Err(e),
        }
    }

    /// Extracts the path parameters from the extensions, where they are
    /// held under the key `path_params`.
    pub fn from_extensions<'a>(extensions: &'a Extensions<T>) -> (out: Result<Path<&'a T>>)
        ensures
            extensions@.dom().contains("path_params"@) ==> (out matches Ok(path) && *path.0
                == extensions@["path_params"@]),
            !extensions@.dom().contains("path_params"@) ==> (out matches Err(
                Error::Extractor(text),
            ) && text@ == "Path parameters not found"@),
    {
        Path::from_lookup(extensions.get(PATH_PARAMS_KEY))
    }
}

impl<T> Query<T> {
    /// Extracts the query parameters that were found. An absent value is an
    /// extractor error `Query parameters not found`.
    pub fn from_lookup(found: Option<T>) -> (out: Result<Query<T>>)
        ensures
            match found {
                Some(value) => out matches Ok(query) && query.0 == value,
                None => out matches Err(Error::Extractor(text)) && text@
                    == "Query parameters not found"@,
            },
    {
        match absent(found, "Query parameters not found") {
            Ok(value) => Ok(Query(value)),
            Err(e) => Err(e),
        }
    }

    /// Extracts the query parameters from the extensions, where they are
    /// held under the key `query_params`.
    pub fn from_extensions<'a>(extensions: &'a Extensions<T>) -> (out: Result<Query<&'a T>>)
        ensures
            extensions@.dom().contains("query_params"@) ==> (out matches Ok(query) && *query.0
                == extensions@["query_params"@]),
            !extensions@.dom().contains("query_params"@) ==> (out matches Err(
                Error::Extractor(text),
            ) && text@ == "Query parameters not found"@),
    {
        Query::from_lookup(extensions.get(QUERY_PARAMS_KEY))
    }
}

impl<T> Json<T> {
    /// Extracts the JSON payload of a message. Fails with `InvalidMessage`
    /// exactly when the message has no text; otherwise the JSON library
    /// decides.
    pub fn from_message(message: &Message) -> (out: Result<Json<T>>) where
        T: serde::de::DeserializeOwned,

        ensures
            message@.text() is None ==> out matches Err(Error::InvalidMessage),
            message@.text() is Some ==> out is Ok || out matches Err(Error::Json(_)),
    {
        match message.json::<T>() {
            Ok(value) => Ok(Json(value)),
            Err(e) => Err(e),
        }
    }

    /// Renders the value as a JSON text message. Whether the value can be
    /// serialized is decided by the JSON library; its failure is a `Json`
    /// error.
    pub fn into_message(self) -> (out: Result<Message>) where T: serde::Serialize
        ensures
            out matches Ok(m) ==> m@.kind == MessageType::Text && m@.text() is Some,
            out is Ok || out matches Err(Error::Json(_)),
    {
        json_message(json_text(&self.0))
    }
}

impl Data {
    /// Extracts the payload bytes of a message.
    pub fn from_message(message: &Message) -> (out: Result<Data>)
        ensures
            out matches Ok(data) && data.0@ == message@.payload,
    {
        Ok(Data(message.data.clone()))
    }
}

impl ConnectInfo {
    /// Extracts a copy of the metadata of a connection.
    pub fn from_message(conn: &Connection) -> (out: Result<ConnectInfo>)
        ensures
            out matches Ok(info) && info.0@ == conn@.info,
    {
        Ok(ConnectInfo(conn.info().clone()))
    }
}

impl Message {
    /// Extracts a copy of the inbound message.
    pub fn from_message(message: &Message) -> (out: Result<Message>)
        ensures
            out matches Ok(m) && m@ == message@,
    {
        Ok(message.clone())
    }
}

impl Connection {
    /// Extracts another handle of the connection.
    pub fn from_message(conn: &Connection) -> (out: Result<Connection>)
        ensures
            out matches Ok(c) && c@ == conn@,
    {
        Ok(conn.clone())
    }
}

} // verus!
