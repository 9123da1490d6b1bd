//! Encodings: how a message becomes bytes, and bytes a message.

use crate::communication::channel::protocol::json::{json_document, json_text, refusal, Json};
use crate::communication::channel::protocol::message::Message;
use vstd::prelude::*;

verus! {

/// Why bytes could not be written for a message, or no message read from a
/// text.
#[derive(Debug)]
pub enum EncodingError {
    ParseError(serde_json::Error),
}

impl From<serde_json::Error> for EncodingError {
    fn from(err: serde_json::Error) -> (error: Self) {
        Self::ParseError(err)
    }
}

impl vstd::std_specs::convert::FromSpecImpl<serde_json::Error> for EncodingError {
    open spec fn obeys_from_spec() -> bool {
        true
    }

    open spec fn from_spec(err: serde_json::Error) -> Self {
        Self::ParseError(err)
    }
}

/// A mapping between messages and bytes, in both directions.
pub trait Encoding {
    /// The bytes that stand for the message.
    fn encode<T: Message>(&self, object: T) -> Result<Vec<u8>, EncodingError>;

    /// The message that the text stands for.
    fn decode<T: Message>(&self, data: &str) -> Result<T, EncodingError>;
}

/// The bytes of a message on the wire: the JSON text of its document. `None`
/// where that text cannot be written.
pub open spec fn wire_bytes<T: Message>(message: T::V) -> Option<Seq<u8>> {
    json_text(T::document(message))
}

/// The message that a text holds: the one that its JSON document stands for.
/// `None` where the text is no JSON, or its document no message of the
/// variant asked for.
pub open spec fn message_in<T: Message>(text: Seq<char>) -> Option<T::V> {
    match json_document(text) {
        Some(document) => T::decoded(document),
        None => None,
    }
}

/// Messages as JSON text.
pub struct JSONEncoding {}

impl Encoding for JSONEncoding {
    /// The bytes of the message on the wire. It fails only where the text of
    /// the message's document cannot be written.
    fn encode<T: Message>(&self, object: T) -> (encoded: Result<Vec<u8>, EncodingError>)
        ensures
            match encoded {
                Ok(bytes) => wire_bytes::<T>(object@) == Some(bytes@),
                Err(_) => wire_bytes::<T>(object@) is None,
            },
    {
        object.to_document().write()
    }

    /// The message that the text holds. It fails where the text is no JSON,
    /// and where its document is no message of the variant asked for.
    fn decode<T: Message>(&self, data: &str) -> (decoded: Result<T, EncodingError>)
        ensures
            match decoded {
                Ok(message) => message_in::<T>(data@) == Some(message@),
                Err(_) => message_in::<T>(data@) is None,
            },
    {
        match Json::read(data) {
            Ok(document) => match T::from_document(&document) {
                Some(message) => Ok(message),
                None => Err(
                    EncodingError::from(refusal("the document is no message of the expected type")),
                ),
            },
            Err(error) => Err(error),
        }
    }
}

} // verus!
