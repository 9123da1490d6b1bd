//! The messages that go over a channel, and the documents that stand for
//! them on the wire.

pub mod encoding;

use crate::communication::channel::protocol::json::{
    lemma_last_named_push, push_member, Json, JsonView,
};
use crate::text::same_text;
use vstd::prelude::*;
use vstd::string::*;

verus! {

/// The variants of messages. A message carries its variant in a field of its
/// own, and the wire has it as the member `type`.
#[derive(Debug, Clone, Copy, PartialEq, Eq, Structural)]
pub enum MessageType {
    Method,
    Reply,
    Signal,
    Exception,
}

impl MessageType {
    /// The text that stands for the variant on the wire.
    pub open spec fn tag(self) -> Seq<char> {
        match self {
            MessageType::Method => "Method"@,
            MessageType::Reply => "Reply"@,
            MessageType::Signal => "Signal"@,
            MessageType::Exception => "Exception"@,
        }
    }

    /// The text that stands for the variant on the wire.
    pub fn name(&self) -> (name: &'static str)
        ensures
            name@ == self.tag(),
    {
        match self {
            MessageType::Method => "Method",
            MessageType::Reply => "Reply",
            MessageType::Signal => "Signal",
            MessageType::Exception => "Exception",
        }
    }
}

/// No two variants have the same text on the wire.
pub proof fn lemma_tags_differ(a: MessageType, b: MessageType)
    ensures
        a.tag() == b.tag() <==> a == b,
{
    reveal_strlit("Method");
    reveal_strlit("Reply");
    reveal_strlit("Signal");
    reveal_strlit("Exception");
    if a != b {
        assert(a.tag()[0] != b.tag()[0]);
    }
}

/// What can go wrong with a message. Nothing can yet: the type has no value.
#[derive(Debug)]
pub enum MessageError {
    Never(std::convert::Infallible),
}

/// A message: a value that has a document, and that can be read back from
/// it.
pub trait Message: View + Sized {
    /// The document that stands for a message on the wire.
    spec fn document(message: Self::V) -> JsonView;

    /// The message that a document stands for; `None` where it stands for no
    /// message of this variant.
    spec fn decoded(document: JsonView) -> Option<Self::V>;

    /// The document that stands for the message on the wire.
    fn to_document(&self) -> (document: Json)
        ensures
            document@ == Self::document(self@),
    ;

    /// Reads a message of this variant from a document. The member `type`
    /// must hold this variant's text and every field must be there; members
    /// that the variant does not know are passed over.
    fn from_document(document: &Json) -> (message: Option<Self>)
        ensures
            match message {
                Some(m) => Self::decoded(document@) == Some(m@),
                None => Self::decoded(document@) is None,
            },
    ;
}

/// The document of a message without fields of its own: its variant and what
/// it carries.
pub open spec fn framed(message_type: MessageType, data: JsonView) -> JsonView {
    JsonView::Object(seq![("type"@, JsonView::String(message_type.tag())), ("data"@, data)])
}

/// Whether a document is of the given variant: its member `type` holds the
/// variant's text, and its member `data` is an object.
pub open spec fn is_framed(document: JsonView, message_type: MessageType) -> bool {
    &&& document.text_member("type"@) == Some(message_type.tag())
    &&& document.member("data"@) is Some
    &&& document.member("data"@)->0 is Object
}

/// What a method call carries.
#[derive(Debug, Clone)]
pub struct MethodData {
    pub name: String,
}

/// The mathematical value of a [`MethodData`].
pub struct MethodDataView {
    pub name: Seq<char>,
}

impl View for MethodData {
    type V = MethodDataView;

    open spec fn view(&self) -> MethodDataView {
        MethodDataView { name: self.name@ }
    }
}

/// A request to call a method.
#[derive(Debug, Clone)]
pub struct Method {
    pub message_type: MessageType,
    pub method: String,
    pub data: MethodData,
}

/// The mathematical value of a [`Method`].
pub struct MethodView {
    pub message_type: MessageType,
    pub method: Seq<char>,
    pub data: MethodDataView,
}

impl View for Method {
    type V = MethodView;

    open spec fn view(&self) -> MethodView {
        MethodView { message_type: self.message_type, method: self.method@, data: self.data@ }
    }
}

/// What a reply carries: nothing.
#[derive(Debug, Clone, Copy, PartialEq, Eq, Structural)]
pub struct ReplyData {}

/// The answer to a method call.
#[derive(Debug, Clone, Copy, PartialEq, Eq, Structural)]
pub struct Reply {
    pub message_type: MessageType,
    pub data: ReplyData,
}

impl View for Reply {
    type V = Reply;

    open spec fn view(&self) -> Reply {
        *self
    }
}

/// What a signal carries: nothing.
#[derive(Debug, Clone, Copy, PartialEq, Eq, Structural)]
pub struct SignalData {}

/// A notification that expects no answer.
#[derive(Debug, Clone, Copy, PartialEq, Eq, Structural)]
pub struct Signal {
    pub message_type: MessageType,
    pub data: SignalData,
}

impl View for Signal {
    type V = Signal;

    open spec fn view(&self) -> Signal {
        *self
    }
}

/// What an exception carries.
#[derive(Debug, Clone)]
pub struct ExceptionData {
    pub name: String,
    pub value: String,
    pub backtrace: String,
}

/// The mathematical value of an [`ExceptionData`].
pub struct ExceptionDataView {
    pub name: Seq<char>,
    pub value: Seq<char>,
    pub backtrace: Seq<char>,
}

impl View for ExceptionData {
    type V = ExceptionDataView;

    open spec fn view(&self) -> ExceptionDataView {
        ExceptionDataView { name: self.name@, value: self.value@, backtrace: self.backtrace@ }
    }
}

/// The report of an error.
#[derive(Debug, Clone)]
pub struct Exception {
    pub message_type: MessageType,
    pub data: ExceptionData,
}

/// The mathematical value of an [`Exception`].
pub struct ExceptionView {
    pub message_type: MessageType,
    pub data: ExceptionDataView,
}

impl View for Exception {
    type V = ExceptionView;

    open spec fn view(&self) -> ExceptionView {
        ExceptionView { message_type: self.message_type, data: self.data@ }
    }
}

/// The document of a message without fields of its own.
fn frame(message_type: &MessageType, data: Json) -> (document: Json)
    ensures
        document@ == framed(*message_type, data@),
{
    let mut members: Vec<(String, Json)> = Vec::new();
    push_member(&mut members, "type", Json::string(message_type.name()));
    push_member(&mut members, "data", data);
    let document = Json::object(members);
    assert(document@->Object_0 =~= framed(*message_type, data@)->Object_0);
    document
}

/// What a document of the given variant carries: its member `data`. `None`
/// where the document is not of that variant.
fn framed_data<'a>(document: &'a Json, message_type: &MessageType) -> (data: Option<&'a Json>)
    ensures
        match data {
            Some(d) => is_framed(document@, *message_type) && document@.member("data"@) == Some(d@),
            None => !is_framed(document@, *message_type),
        },
{
    match document.text_member("type") {
        Some(tag) => {
            if !same_text(tag, message_type.name()) {
                return None;
            }
        },
        None => {
            return None;
        },
    }
    match document.member("data") {
        Some(data) => {
            if data.is_object() {
                Some(data)
            } else {
                None
            }
        },
        None => None,
    }
}

impl Message for Method {
    open spec fn document(message: MethodView) -> JsonView {
        JsonView::Object(
            seq![
                ("type"@, JsonView::String(message.message_type.tag())),
                ("method"@, JsonView::String(message.method)),
                ("data"@, JsonView::Object(seq![("name"@, JsonView::String(message.data.name))])),
            ],
        )
    }

    open spec fn decoded(document: JsonView) -> Option<MethodView> {
        if is_framed(document, MessageType::Method) && document.text_member("method"@) is Some
            && document.member("data"@)->0.text_member("name"@) is Some {
            Some(
                MethodView {
                    message_type: MessageType::Method,
                    method: document.text_member("method"@)->0,
                    data: MethodDataView {
                        name: document.member("data"@)->0.text_member("name"@)->0,
                    },
                },
            )
        } else {
            None
        }
    }

    fn to_document(&self) -> (document: Json) {
        let mut data: Vec<(String, Json)> = Vec::new();
        push_member(&mut data, "name", Json::string(self.data.name.as_str()));
        let data = Json::object(data);
        assert(data@->Object_0 =~= seq![("name"@, JsonView::String(self.data.name@))]);
        let mut members: Vec<(String, Json)> = Vec::new();
        push_member(&mut members, "type", Json::string(self.message_type.name()));
        push_member(&mut members, "method", Json::string(self.method.as_str()));
        push_member(&mut members, "data", data);
        let document = Json::object(members);
        assert(document@->Object_0 =~= Self::document(self@)->Object_0);
        document
    }

    fn from_document(document: &Json) -> (message: Option<Self>) {
        let data = match framed_data(document, &MessageType::Method) {
            Some(data) => data,
            None => {
                return None;
            },
        };
        let method = match document.text_member("method") {
            Some(method) => method,
            None => {
                return None;
            },
        };
        let name = match data.text_member("name") {
            Some(name) => name,
            None => {
                return None;
            },
        };
        Some(
            Method {
                message_type: MessageType::Method,
                method: String::from_str(method),
                data: MethodData { name: String::from_str(name) },
            },
        )
    }
}

impl Message for Reply {
    open spec fn document(message: Reply) -> JsonView {
        framed(message.message_type, JsonView::Object(Seq::empty()))
    }

    open spec fn decoded(document: JsonView) -> Option<Reply> {
        if is_framed(document, MessageType::Reply) {
            Some(Reply { message_type: MessageType::Reply, data: ReplyData {  } })
        } else {
            None
        }
    }

    fn to_document(&self) -> (document: Json) {
        let data = Json::object(Vec::new());
        assert(data@->Object_0 =~= Seq::empty());
        frame(&self.message_type, data)
    }

    fn from_document(document: &Json) -> (message: Option<Self>) {
        match framed_data(document, &MessageType::Reply) {
            Some(_) => Some(Reply { message_type: MessageType::Reply, data: ReplyData {  } }),
            None => None,
        }
    }
}

impl Message for Signal {
    open spec fn document(message: Signal) -> JsonView {
        framed(message.message_type, JsonView::Object(Seq::empty()))
    }

    open spec fn decoded(document: JsonView) -> Option<Signal> {
        if is_framed(document, MessageType::Signal) {
            Some(Signal { message_type: MessageType::Signal, data: SignalData {  } })
        } else {
            None
        }
    }

    fn to_document(&self) -> (document: Json) {
        let data = Json::object(Vec::new());
        assert(data@->Object_0 =~= Seq::empty());
        frame(&self.message_type, data)
    }

    fn from_document(document: &Json) -> (message: Option<Self>) {
        match framed_data(document, &MessageType::Signal) {
            Some(_) => Some(Signal { message_type: MessageType::Signal, data: SignalData {  } }),
            None => None,
        }
    }
}

/// The document of what an exception carries.
pub open spec fn exception_data(data: ExceptionDataView) -> JsonView {
    JsonView::Object(
        seq![
            ("name"@, JsonView::String(data.name)),
            ("value"@, JsonView::String(data.value)),
            ("backtrace"@, JsonView::String(data.backtrace)),
        ],
    )
}

impl Message for Exception {
    open spec fn document(message: ExceptionView) -> JsonView {
        framed(message.message_type, exception_data(message.data))
    }

    open spec fn decoded(document: JsonView) -> Option<ExceptionView> {
        let data = document.member("data"@)->0;
        if is_framed(document, MessageType::Exception) && data.text_member("name"@) is Some
            && data.text_member("value"@) is Some && data.text_member("backtrace"@) is Some {
            Some(
                ExceptionView {
                    message_type: MessageType::Exception,
                    data: ExceptionDataView {
                        name: data.text_member("name"@)->0,
                        value: data.text_member("value"@)->0,
                        backtrace: data.text_member("backtrace"@)->0,
                    },
                },
            )
        } else {
            None
        }
    }

    fn to_document(&self) -> (document: Json) {
        let mut data: Vec<(String, Json)> = Vec::new();
        push_member(&mut data, "name", Json::string(self.data.name.as_str()));
        push_member(&mut data, "value", Json::string(self.data.value.as_str()));
        push_member(&mut data, "backtrace", Json::string(self.data.backtrace.as_str()));
        let data = Json::object(data);
        assert(data@->Object_0 =~= exception_data(self.data@)->Object_0);
        frame(&self.message_type, data)
    }

    fn from_document(document: &Json) -> (message: Option<Self>) {
        let data = match framed_data(document, &MessageType::Exception) {
            Some(data) => data,
            None => {
                return None;
            },
        };
        let name = match data.text_member("name") {
            Some(name) => name,
            None => {
                return None;
            },
        };
        let value = match data.text_member("value") {
            Some(value) => value,
            None => {
                return None;
            },
        };
        let backtrace = match data.text_member("backtrace") {
            Some(backtrace) => backtrace,
            None => {
                return None;
            },
        };
        Some(
            Exception {
                message_type: MessageType::Exception,
                data: ExceptionData {
                    name: String::from_str(name),
                    value: String::from_str(value),
                    backtrace: String::from_str(backtrace),
                },
            },
        )
    }
}

/// The names of the members of messages differ from each other.
proof fn lemma_names_differ()
    ensures
        "type"@ != "data"@,
        "type"@ != "method"@,
        "method"@ != "data"@,
        "name"@ != "value"@,
        "name"@ != "backtrace"@,
        "value"@ != "backtrace"@,
{
    reveal_strlit("type");
    reveal_strlit("data");
    reveal_strlit("method");
    reveal_strlit("name");
    reveal_strlit("value");
    reveal_strlit("backtrace");
    assert("type"@[0] != "data"@[0]);
    assert("type"@.len() != "method"@.len());
    assert("method"@.len() != "data"@.len());
    assert("name"@.len() != "value"@.len());
    assert("name"@.len() != "backtrace"@.len());
    assert("value"@.len() != "backtrace"@.len());
}

/// A framed document is of the variant it was framed with, and carries what
/// was put into it.
proof fn lemma_framed(message_type: MessageType, data: JsonView)
    ensures
        framed(message_type, data).text_member("type"@) == Some(message_type.tag()),
        framed(message_type, data).member("data"@) == Some(data),
{
    lemma_names_differ();
    let first = ("type"@, JsonView::String(message_type.tag()));
    let second = ("data"@, data);
    let none = Seq::<(Seq<char>, JsonView)>::empty();
    assert(framed(message_type, data)->Object_0 =~= none.push(first).push(second));
    lemma_last_named_push(none.push(first), second, "data"@);
    lemma_last_named_push(none.push(first), second, "type"@);
    lemma_last_named_push(none, first, "type"@);
}

/// Reading the document of a method call gives the method call back: its
/// method and the name it carries.
pub proof fn lemma_method_round_trip(message: MethodView)
    requires
        message.message_type == MessageType::Method,
    ensures
        Method::decoded(Method::document(message)) == Some(message),
{
    lemma_names_differ();
    let first = ("type"@, JsonView::String(message.message_type.tag()));
    let second = ("method"@, JsonView::String(message.method));
    let inner = ("name"@, JsonView::String(message.data.name));
    let none = Seq::<(Seq<char>, JsonView)>::empty();
    let data = JsonView::Object(seq![inner]);
    let third = ("data"@, data);
    let document = Method::document(message);
    assert(document->Object_0 =~= none.push(first).push(second).push(third));
    lemma_last_named_push(none.push(first).push(second), third, "data"@);
    lemma_last_named_push(none.push(first).push(second), third, "method"@);
    lemma_last_named_push(none.push(first).push(second), third, "type"@);
    lemma_last_named_push(none.push(first), second, "method"@);
    lemma_last_named_push(none.push(first), second, "type"@);
    lemma_last_named_push(none, first, "type"@);
    assert(data->Object_0 =~= none.push(inner));
    lemma_last_named_push(none, inner, "name"@);
    assert(document.text_member("type"@) == Some(MessageType::Method.tag()));
    assert(document.member("data"@) == Some(data));
    assert(document.text_member("method"@) == Some(message.method));
    assert(data.text_member("name"@) == Some(message.data.name));
}

/// Reading the document of a reply gives the reply back.
pub proof fn lemma_reply_round_trip(message: Reply)
    requires
        message.message_type == MessageType::Reply,
    ensures
        Reply::decoded(Reply::document(message)) == Some(message),
{
    lemma_framed(message.message_type, JsonView::Object(Seq::empty()));
}

/// Reading the document of a signal gives the signal back.
pub proof fn lemma_signal_round_trip(message: Signal)
    requires
        message.message_type == MessageType::Signal,
    ensures
        Signal::decoded(Signal::document(message)) == Some(message),
{
    lemma_framed(message.message_type, JsonView::Object(Seq::empty()));
}

/// Reading the document of an exception gives the exception back: its name,
/// its value and its backtrace.
pub proof fn lemma_exception_round_trip(message: ExceptionView)
    requires
        message.message_type == MessageType::Exception,
    ensures
        Exception::decoded(Exception::document(message)) == Some(message),
{
    lemma_names_differ();
    let data = exception_data(message.data);
    lemma_framed(message.message_type, data);
    let first = ("name"@, JsonView::String(message.data.name));
    let second = ("value"@, JsonView::String(message.data.value));
    let third = ("backtrace"@, JsonView::String(message.data.backtrace));
    let none = Seq::<(Seq<char>, JsonView)>::empty();
    assert(data->Object_0 =~= none.push(first).push(second).push(third));
    lemma_last_named_push(none.push(first).push(second), third, "backtrace"@);
    lemma_last_named_push(none.push(first).push(second), third, "value"@);
    lemma_last_named_push(none.push(first).push(second), third, "name"@);
    lemma_last_named_push(none.push(first), second, "value"@);
    lemma_last_named_push(none.push(first), second, "name"@);
    lemma_last_named_push(none, first, "name"@);
    assert(data.text_member("name"@) == Some(message.data.name));
    assert(data.text_member("value"@) == Some(message.data.value));
    assert(data.text_member("backtrace"@) == Some(message.data.backtrace));
}

/// A document whose member `type` holds the text of one variant is read as a
/// message of no other variant.
pub proof fn lemma_other_variant_refused(document: JsonView, found: MessageType)
    requires
        document.text_member("type"@) == Some(found.tag()),
    ensures
        found != MessageType::Method ==> Method::decoded(document) is None,
        found != MessageType::Reply ==> Reply::decoded(document) is None,
        found != MessageType::Signal ==> Signal::decoded(document) is None,
        found != MessageType::Exception ==> Exception::decoded(document) is None,
{
    lemma_tags_differ(found, MessageType::Method);
    lemma_tags_differ(found, MessageType::Reply);
    lemma_tags_differ(found, MessageType::Signal);
    lemma_tags_differ(found, MessageType::Exception);
}

} // verus!
