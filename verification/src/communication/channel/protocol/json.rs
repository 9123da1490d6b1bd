//! JSON documents. A message goes over the wire as the text of a document;
//! writing and reading that text is `serde_json`'s work, and what a document
//! must hold to be a message is decided here, on [`Json`].

use crate::communication::channel::protocol::message::encoding::EncodingError;
use crate::text::same_text;
use vstd::prelude::*;
use vstd::string::*;

verus! {

/// `serde_json::Error`: why a text could not be written or read. Nothing is
/// known of what is inside.
#[verifier::external_type_specification]
#[verifier::external_body]
pub struct ExJsonError(serde_json::Error);

/// `serde_json::Value`: a document as `serde_json` holds it. Nothing is known
/// of what is inside; the library works on [`Json`].
#[verifier::external_type_specification]
#[verifier::external_body]
pub struct ExJsonValue(serde_json::Value);

/// A JSON document. A number is held as the text that stands for it. The
/// members of an object are in the order of the text; where a name occurs
/// more than once, its last member is the one that counts.
#[derive(Debug)]
pub enum Json {
    Null,
    Bool(bool),
    Number(String),
    String(String),
    Array(Vec<Json>),
    Object(Vec<(String, Json)>),
}

/// The mathematical value of a [`Json`].
pub enum JsonView {
    Null,
    Bool(bool),
    Number(Seq<char>),
    String(Seq<char>),
    Array(Seq<JsonView>),
    Object(Seq<(Seq<char>, JsonView)>),
}

impl View for Json {
    type V = JsonView;

    open spec fn view(&self) -> JsonView
        decreases self,
    {
        match self {
            Json::Null => JsonView::Null,
            Json::Bool(b) => JsonView::Bool(*b),
            Json::Number(n) => JsonView::Number(n@),
            Json::String(s) => JsonView::String(s@),
            Json::Array(items) => JsonView::Array(
                Seq::new(
                    items@.len(),
                    |i: int|
                        if 0 <= i < items@.len() {
                            items@[i].view()
                        } else {
                            JsonView::Null
                        },
                ),
            ),
            Json::Object(members) => JsonView::Object(
                Seq::new(
                    members@.len(),
                    |i: int|
                        if 0 <= i < members@.len() {
                            (members@[i].0@, members@[i].1.view())
                        } else {
                            (Seq::empty(), JsonView::Null)
                        },
                ),
            ),
        }
    }
}

/// The value of the last of `members` that is named `name`.
pub open spec fn last_named(members: Seq<(Seq<char>, JsonView)>, name: Seq<char>) -> Option<
    JsonView,
>
    decreases members.len(),
{
    if members.len() == 0 {
        None
    } else if members.last().0 == name {
        Some(members.last().1)
    } else {
        last_named(members.drop_last(), name)
    }
}

/// Among members with one more at their end, that one is found under its own
/// name, and under any other name what was found before.
pub proof fn lemma_last_named_push(
    members: Seq<(Seq<char>, JsonView)>,
    last: (Seq<char>, JsonView),
    name: Seq<char>,
)
    ensures
        last_named(members.push(last), name) == if last.0 == name {
            Some(last.1)
        } else {
            last_named(members, name)
        },
{
    assert(members.push(last).drop_last() =~= members);
}

impl JsonView {
    /// The member of an object that is named `name`.
    pub open spec fn member(self, name: Seq<char>) -> Option<JsonView> {
        match self {
            JsonView::Object(members) => last_named(members, name),
            _ => None,
        }
    }

    /// The text of a string.
    pub open spec fn text(self) -> Option<Seq<char>> {
        match self {
            JsonView::String(text) => Some(text),
            _ => None,
        }
    }

    /// The text of the member named `name`, where that member is a string.
    pub open spec fn text_member(self, name: Seq<char>) -> Option<Seq<char>> {
        match self.member(name) {
            Some(value) => value.text(),
            None => None,
        }
    }
}

/// The members of an object's value are the values of its members.
pub proof fn lemma_object_view(members: Vec<(String, Json)>)
    ensures
        Json::Object(members)@ is Object,
        Json::Object(members)@->Object_0.len() == members@.len(),
        forall|j: int|
            0 <= j < members@.len() ==> Json::Object(members)@->Object_0[j] == (
                #[trigger] members@[j].0@,
                members@[j].1@,
            ),
{
    reveal_with_fuel(<Json as View>::view, 2);
}

/// The values of the members of an object, in their order.
pub open spec fn members_view(members: Seq<(String, Json)>) -> Seq<(Seq<char>, JsonView)> {
    Seq::new(members.len(), |i: int| (members[i].0@, members[i].1@))
}

impl Json {
    /// The string that holds `text`.
    pub fn string(text: &str) -> (document: Json)
        ensures
            document@ == JsonView::String(text@),
    {
        Json::String(String::from_str(text))
    }

    /// The object of the given members.
    pub fn object(members: Vec<(String, Json)>) -> (document: Json)
        ensures
            document@ == JsonView::Object(members_view(members@)),
    {
        proof {
            lemma_object_view(members);
            assert(Json::Object(members)@->Object_0 =~= members_view(members@));
        }
        Json::Object(members)
    }

    /// Whether the document is an object.
    pub fn is_object(&self) -> (object: bool)
        ensures
            object == (self@ is Object),
    {
        match self {
            Json::Object(members) => {
                proof {
                    lemma_object_view(*members);
                }
                true
            },
            _ => false,
        }
    }

    /// The member of an object that is named `name`: the last one, where
    /// several are. `None` for what is no object or has no such member.
    pub fn member(&self, name: &str) -> (found: Option<&Json>)
        ensures
            match found {
                Some(value) => self@.member(name@) == Some(value@),
                None => self@.member(name@) is None,
            },
    {
        match self {
            Json::Object(members) => {
                let ghost all = self@->Object_0;
                let mut i: usize = members.len();
                proof {
                    lemma_object_view(*members);
                }
                assert(all.take(i as int) =~= all);
                while i > 0
                    invariant
                        i <= members@.len(),
                        all.len() == members@.len(),
                        self@.member(name@) == last_named(all, name@),
                        forall|j: int|
                            0 <= j < all.len() ==> all[j] == (
                                #[trigger] members@[j].0@,
                                members@[j].1@,
                            ),
                        last_named(all, name@) == last_named(all.take(i as int), name@),
                    decreases i,
                {
                    i = i - 1;
                    proof {
                        let upto = all.take(i + 1);
                        assert(upto.last() == (members@[i as int].0@, members@[i as int].1@));
                        assert(upto.drop_last() =~= all.take(i as int));
                    }
                    if same_text(members[i].0.as_str(), name) {
                        return Some(&members[i].1);
                    }
                }
                None
            },
            _ => None,
        }
    }

    /// The text of a string. `None` for what is no string.
    pub fn text(&self) -> (found: Option<&str>)
        ensures
            match found {
                Some(text) => self@.text() == Some(text@),
                None => self@.text() is None,
            },
    {
        match self {
            Json::String(text) => Some(text.as_str()),
            _ => None,
        }
    }

    /// The text of the member named `name`. `None` for what is no object, has
    /// no such member, or has one that is no string.
    pub fn text_member(&self, name: &str) -> (found: Option<&str>)
        ensures
            match found {
                Some(text) => self@.text_member(name@) == Some(text@),
                None => self@.text_member(name@) is None,
            },
    {
        match self.member(name) {
            Some(value) => value.text(),
            None => None,
        }
    }
}

/// Adds a member named `name` at the end of the members of an object.
pub fn push_member(members: &mut Vec<(String, Json)>, name: &str, value: Json)
    ensures
        members_view(final(members)@) == members_view(old(members)@).push((name@, value@)),
{
    members.push((String::from_str(name), value));
    assert(members_view(members@) =~= members_view(old(members)@).push((name@, value@)));
}

/// The bytes that `serde_json::to_vec` writes for a document, once
/// `serde_json::from_str` has read the text of each of its numbers: the
/// document's JSON text in UTF-8. `None` where either fails.
pub uninterp spec fn json_text(document: JsonView) -> Option<Seq<u8>>;

/// The document that `serde_json::from_str` reads from a text. `None` where
/// the text is not one JSON value.
pub uninterp spec fn json_document(text: Seq<char>) -> Option<JsonView>;

/// The `serde_json::Value` of a document, variant by variant. The text of a
/// number is read by `serde_json::from_str`, which may refuse it.
#[verifier::external_body]
fn value_of(document: &Json) -> Result<serde_json::Value, serde_json::Error> {
    Ok(match document {
        Json::Null => serde_json::Value::Null,
        Json::Bool(b) => serde_json::Value::Bool(*b),
        Json::Number(n) => serde_json::Value::Number(serde_json::from_str(n)?),
        Json::String(s) => serde_json::Value::String(s.clone()),
        Json::Array(items) => serde_json::Value::Array(
            items.iter().map(value_of).collect::<Result<_, _>>()?,
        ),
        Json::Object(members) => serde_json::Value::Object(
            members.iter().map(|m| Ok((m.0.clone(), value_of(&m.1)?))).collect::<Result<_, serde_json::Error>>()?,
        ),
    })
}

/// The document of a `serde_json::Value`, variant by variant. A number is
/// kept as the text that `serde_json` writes for it.
#[verifier::external_body]
fn document_of(value: serde_json::Value) -> Json {
    match value {
        serde_json::Value::Null => Json::Null,
        serde_json::Value::Bool(b) => Json::Bool(b),
        serde_json::Value::Number(n) => Json::Number(n.to_string()),
        serde_json::Value::String(s) => Json::String(s),
        serde_json::Value::Array(items) => Json::Array(items.into_iter().map(document_of).collect()),
        serde_json::Value::Object(members) => Json::Object(
            members.into_iter().map(|m| (m.0, document_of(m.1))).collect(),
        ),
    }
}

/// `serde_json::to_vec` on the value of a document: the bytes of its text, a
/// function of the document alone. The members of an object are written in
/// the order in which the value holds them, which is that of the document.
#[verifier::external_body]
fn write_document(document: &Json) -> (written: Result<Vec<u8>, serde_json::Error>)
    ensures
        json_text(document@) == match written {
            Ok(bytes) => Some(bytes@),
            Err(_) => None,
        },
{
    serde_json::to_vec(&value_of(document)?)
}

/// `serde_json::from_str` for a `serde_json::Value`: the document that the
/// text holds, a function of the text alone.
#[verifier::external_body]
fn read_document(text: &str) -> (read: Result<Json, serde_json::Error>)
    ensures
        json_document(text@) == match read {
            Ok(document) => Some(document@),
            Err(_) => None,
        },
{
    serde_json::from_str::<serde_json::Value>(text).map(document_of)
}

/// `serde::de::Error::custom` for `serde_json::Error`: an error with the given
/// message, for a document that `serde_json` could read and that is not what
/// was asked for.
#[verifier::external_body]
pub(crate) fn refusal(message: &str) -> serde_json::Error {
    <serde_json::Error as serde::de::Error>::custom(message)
}

impl Json {
    /// Writes the document as JSON text. It fails where `serde_json` cannot
    /// write it: where the text of one of its numbers is no number.
    pub fn write(&self) -> (written: Result<Vec<u8>, EncodingError>)
        ensures
            match written {
                Ok(bytes) => json_text(self@) == Some(bytes@),
                Err(_) => json_text(self@) is None,
            },
    {
        match write_document(self) {
            Ok(bytes) => Ok(bytes),
            Err(error) => Err(EncodingError::from(error)),
        }
    }

    /// Reads the document that a JSON text holds. It fails where the text is
    /// not one JSON value.
    pub fn read(text: &str) -> (read: Result<Json, EncodingError>)
        ensures
            match read {
                Ok(document) => json_document(text@) == Some(document@),
                Err(_) => json_document(text@) is None,
            },
    {
        match read_document(text) {
            Ok(document) => Ok(document),
            Err(error) => Err(EncodingError::from(error)),
        }
    }
}

} // verus!
