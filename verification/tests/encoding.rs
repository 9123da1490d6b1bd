use libosbuild::communication::channel::protocol::json::Json;
use libosbuild::communication::channel::protocol::message::encoding::{
    Encoding, EncodingError, JSONEncoding,
};
use libosbuild::communication::channel::protocol::message::{
    Exception, ExceptionData, Message, MessageType, Method, MethodData, Reply, ReplyData, Signal,
    SignalData,
};
use std::str;

fn method(method: &str, name: &str) -> Method {
    Method {
        message_type: MessageType::Method,
        method: method.to_string(),
        data: MethodData {
            name: name.to_string(),
        },
    }
}

fn exception(name: &str, value: &str, backtrace: &str) -> Exception {
    Exception {
        message_type: MessageType::Exception,
        data: ExceptionData {
            name: name.to_string(),
            value: value.to_string(),
            backtrace: backtrace.to_string(),
        },
    }
}

#[test]
fn test_encode_reply() {
    let encoding = JSONEncoding {};
    let reply = Reply {
        message_type: MessageType::Reply,
        data: ReplyData {},
    };

    assert!(encoding
        .decode::<Reply>(str::from_utf8(&encoding.encode(reply).unwrap()).unwrap())
        .is_ok());
}

#[test]
fn test_encode_method() {
    let encoding = JSONEncoding {};
    let method = Method {
        message_type: MessageType::Method,
        method: "test".to_string(),
        data: MethodData {
            name: "name".to_string(),
        },
    };

    assert!(encoding
        .decode::<Method>(str::from_utf8(&encoding.encode(method).unwrap()).unwrap())
        .is_ok());
}

#[test]
fn test_encode_signal() {
    let encoding = JSONEncoding {};
    let signal = Signal {
        message_type: MessageType::Signal,
        data: SignalData {},
    };

    assert!(encoding
        .decode::<Signal>(str::from_utf8(&encoding.encode(signal).unwrap()).unwrap())
        .is_ok());
}

#[test]
fn test_encode_exception() {
    let encoding = JSONEncoding {};
    let exception = Exception {
        message_type: MessageType::Exception,
        data: ExceptionData {
            name: "foo".to_string(),
            value: "foo".to_string(),
            backtrace: "foo".to_string(),
        },
    };

    assert!(encoding
        .decode::<Exception>(str::from_utf8(&encoding.encode(exception).unwrap()).unwrap())
        .is_ok());
}

#[test]
fn lib_test_encode_reply() {
    let encoding = JSONEncoding {};
    let reply = Reply {
        message_type: MessageType::Reply,
        data: ReplyData {},
    };

    assert!(encoding
        .decode::<Reply>(str::from_utf8(&encoding.encode(reply).unwrap()).unwrap())
        .is_ok());
}

#[test]
fn lib_test_encode_method() {
    let encoding = JSONEncoding {};
    let method = Method {
        message_type: MessageType::Method,
        method: "test".to_string(),
        data: MethodData {
            name: "name".to_string(),
        },
    };

    assert!(encoding
        .decode::<Method>(str::from_utf8(&encoding.encode(method).unwrap()).unwrap())
        .is_ok());
}

#[test]
fn lib_test_encode_signal() {
    let encoding = JSONEncoding {};
    let signal = Signal {
        message_type: MessageType::Signal,
        data: SignalData {},
    };

    assert!(encoding
        .decode::<Signal>(str::from_utf8(&encoding.encode(signal).unwrap()).unwrap())
        .is_ok());
}

#[test]
fn lib_test_encode_exception() {
    let encoding = JSONEncoding {};
    let exception = Exception {
        message_type: MessageType::Exception,
        data: ExceptionData {
            name: "foo".to_string(),
            value: "foo".to_string(),
            backtrace: "foo".to_string(),
        },
    };

    assert!(encoding
        .decode::<Exception>(str::from_utf8(&encoding.encode(exception).unwrap()).unwrap())
        .is_ok());
}

#[test]
fn protocol_test_encode_reply() {
    let encoding = JSONEncoding {};
    let reply = Reply {
        message_type: MessageType::Reply,
        data: ReplyData {},
    };

    assert!(encoding
        .decode::<Reply>(str::from_utf8(&encoding.encode(reply).unwrap()).unwrap())
        .is_ok());
}

#[test]
fn protocol_test_encode_method() {
    let encoding = JSONEncoding {};
    let method = Method {
        message_type: MessageType::Method,
        method: "test".to_string(),
        data: MethodData {
            name: "name".to_string(),
        },
    };

    assert!(encoding
        .decode::<Method>(str::from_utf8(&encoding.encode(method).unwrap()).unwrap())
        .is_ok());
}

#[test]
fn protocol_test_encode_signal() {
    let encoding = JSONEncoding {};
    let signal = Signal {
        message_type: MessageType::Signal,
        data: SignalData {},
    };

    assert!(encoding
        .decode::<Signal>(str::from_utf8(&encoding.encode(signal).unwrap()).unwrap())
        .is_ok());
}

#[test]
fn protocol_test_encode_exception() {
    let encoding = JSONEncoding {};
    let exception = Exception {
        message_type: MessageType::Exception,
        data: ExceptionData {
            name: "foo".to_string(),
            value: "foo".to_string(),
            backtrace: "foo".to_string(),
        },
    };

    assert!(encoding
        .decode::<Exception>(str::from_utf8(&encoding.encode(exception).unwrap()).unwrap())
        .is_ok());
}

#[test]
fn method_is_encoded_literally() {
    let encoding = JSONEncoding {};
    let bytes = encoding.encode(method("test", "name")).unwrap();
    assert_eq!(
        bytes,
        b"{\"type\":\"Method\",\"method\":\"test\",\"data\":{\"name\":\"name\"}}"
    );
}

#[test]
fn the_other_variants_are_encoded_literally() {
    let encoding = JSONEncoding {};
    let reply = Reply {
        message_type: MessageType::Reply,
        data: ReplyData {},
    };
    assert_eq!(encoding.encode(reply).unwrap(), b"{\"type\":\"Reply\",\"data\":{}}");

    let signal = Signal {
        message_type: MessageType::Signal,
        data: SignalData {},
    };
    assert_eq!(encoding.encode(signal).unwrap(), b"{\"type\":\"Signal\",\"data\":{}}");

    assert_eq!(
        encoding.encode(exception("foo", "bar", "baz")).unwrap(),
        b"{\"type\":\"Exception\",\"data\":{\"name\":\"foo\",\"value\":\"bar\",\"backtrace\":\"baz\"}}"
    );
}

#[test]
fn texts_are_escaped_as_json() {
    let encoding = JSONEncoding {};
    let bytes = encoding.encode(method("say \"hi\"", "a\\b\nc")).unwrap();
    assert_eq!(
        str::from_utf8(&bytes).unwrap(),
        "{\"type\":\"Method\",\"method\":\"say \\\"hi\\\"\",\"data\":{\"name\":\"a\\\\b\\nc\"}}"
    );
}

#[test]
fn the_tag_is_written_as_the_field_holds_it() {
    let encoding = JSONEncoding {};
    let odd = Reply {
        message_type: MessageType::Signal,
        data: ReplyData {},
    };
    let bytes = encoding.encode(odd).unwrap();
    assert_eq!(bytes, b"{\"type\":\"Signal\",\"data\":{}}");
    let text = str::from_utf8(&bytes).unwrap();
    assert!(encoding.decode::<Reply>(text).is_err());
    assert!(encoding.decode::<Signal>(text).is_ok());
}

#[test]
fn method_round_trip() {
    let encoding = JSONEncoding {};
    let bytes = encoding.encode(method("org.osbuild.log", "stage \"rpm\"\n\u{e9}\u{1f600}")).unwrap();
    let back = encoding.decode::<Method>(str::from_utf8(&bytes).unwrap()).unwrap();
    assert_eq!(back.message_type, MessageType::Method);
    assert_eq!(back.method, "org.osbuild.log");
    assert_eq!(back.data.name, "stage \"rpm\"\n\u{e9}\u{1f600}");
}

#[test]
fn reply_round_trip() {
    let encoding = JSONEncoding {};
    let reply = Reply {
        message_type: MessageType::Reply,
        data: ReplyData {},
    };
    let bytes = encoding.encode(reply).unwrap();
    let back = encoding.decode::<Reply>(str::from_utf8(&bytes).unwrap()).unwrap();
    assert_eq!(back, reply);
}

#[test]
fn signal_round_trip() {
    let encoding = JSONEncoding {};
    let signal = Signal {
        message_type: MessageType::Signal,
        data: SignalData {},
    };
    let bytes = encoding.encode(signal).unwrap();
    let back = encoding.decode::<Signal>(str::from_utf8(&bytes).unwrap()).unwrap();
    assert_eq!(back, signal);
}

#[test]
fn exception_round_trip() {
    let encoding = JSONEncoding {};
    let bytes = encoding
        .encode(exception("ValueError", "bad \\ value", "line 1\n\tline 2"))
        .unwrap();
    let back = encoding.decode::<Exception>(str::from_utf8(&bytes).unwrap()).unwrap();
    assert_eq!(back.message_type, MessageType::Exception);
    assert_eq!(back.data.name, "ValueError");
    assert_eq!(back.data.value, "bad \\ value");
    assert_eq!(back.data.backtrace, "line 1\n\tline 2");
}

#[test]
fn an_exception_is_no_reply() {
    let encoding = JSONEncoding {};
    let text = "{\"type\":\"Exception\",\"data\":{\"name\":\"foo\",\"value\":\"foo\",\"backtrace\":\"foo\"}}";
    assert!(matches!(
        encoding.decode::<Reply>(text),
        Err(EncodingError::ParseError(_))
    ));
    assert!(encoding.decode::<Signal>(text).is_err());
    assert!(encoding.decode::<Method>(text).is_err());
    assert!(encoding.decode::<Exception>(text).is_ok());
}

#[test]
fn a_refused_document_says_why() {
    let encoding = JSONEncoding {};
    match encoding.decode::<Reply>("{\"type\":\"Signal\",\"data\":{}}") {
        Err(EncodingError::ParseError(error)) => {
            assert_eq!(error.to_string(), "the document is no message of the expected type")
        }
        other => panic!("{:?}", other),
    }
    match encoding.decode::<Reply>("{\"type\":") {
        Err(EncodingError::ParseError(error)) => assert!(error.is_eof()),
        other => panic!("{:?}", other),
    }
}

#[test]
fn no_variant_is_read_as_another() {
    let encoding = JSONEncoding {};
    let reply = "{\"type\":\"Reply\",\"data\":{}}";
    assert!(encoding.decode::<Reply>(reply).is_ok());
    assert!(encoding.decode::<Signal>(reply).is_err());
    assert!(encoding.decode::<Method>(reply).is_err());
    assert!(encoding.decode::<Exception>(reply).is_err());

    let method = "{\"type\":\"Method\",\"method\":\"test\",\"data\":{\"name\":\"name\"}}";
    assert!(encoding.decode::<Method>(method).is_ok());
    assert!(encoding.decode::<Reply>(method).is_err());
    assert!(encoding.decode::<Signal>(method).is_err());
    assert!(encoding.decode::<Exception>(method).is_err());
}

#[test]
fn text_that_is_no_json_is_refused() {
    let encoding = JSONEncoding {};
    for text in [
        "",
        "{",
        "{\"type\":\"Reply\",\"data\":{}",
        "{\"type\":\"Reply\",\"data\":{}}}",
        "{\"type\":\"Reply\",\"data\":{}}\u{0}",
        "{'type':'Reply','data':{}}",
        "Reply",
    ] {
        assert!(
            matches!(encoding.decode::<Reply>(text), Err(EncodingError::ParseError(_))),
            "{}",
            text
        );
    }
}

#[test]
fn documents_of_another_shape_are_refused() {
    let encoding = JSONEncoding {};
    for text in [
        "null",
        "true",
        "12",
        "\"Reply\"",
        "[\"Reply\",{}]",
        "{}",
        "{\"type\":\"Reply\"}",
        "{\"data\":{}}",
        "{\"type\":\"reply\",\"data\":{}}",
        "{\"type\":{\"Reply\":null},\"data\":{}}",
        "{\"type\":\"Reply\",\"data\":[]}",
        "{\"type\":\"Reply\",\"data\":null}",
        "{\"type\":\"Reply\",\"data\":\"\"}",
        "{\"Type\":\"Reply\",\"data\":{}}",
    ] {
        assert!(encoding.decode::<Reply>(text).is_err(), "{}", text);
    }
    for text in [
        "{\"type\":\"Method\",\"data\":{\"name\":\"name\"}}",
        "{\"type\":\"Method\",\"method\":\"test\",\"data\":{}}",
        "{\"type\":\"Method\",\"method\":\"test\"}",
        "{\"type\":\"Method\",\"method\":1,\"data\":{\"name\":\"name\"}}",
        "{\"type\":\"Method\",\"method\":\"test\",\"data\":{\"name\":null}}",
        "{\"type\":\"Method\",\"method\":\"test\",\"data\":{\"name\":[\"name\"]}}",
    ] {
        assert!(encoding.decode::<Method>(text).is_err(), "{}", text);
    }
    for text in [
        "{\"type\":\"Exception\",\"data\":{\"name\":\"a\",\"value\":\"b\"}}",
        "{\"type\":\"Exception\",\"data\":{\"name\":\"a\",\"backtrace\":\"c\"}}",
        "{\"type\":\"Exception\",\"data\":{\"value\":\"b\",\"backtrace\":\"c\"}}",
        "{\"type\":\"Exception\",\"data\":{\"name\":\"a\",\"value\":2,\"backtrace\":\"c\"}}",
    ] {
        assert!(encoding.decode::<Exception>(text).is_err(), "{}", text);
    }
}

#[test]
fn white_space_order_and_unknown_members_do_not_matter() {
    let encoding = JSONEncoding {};
    let text = " {\n  \"data\" : { \"extra\" : [1, 2.5, -3e2, null], \"name\" : \"n\" },\n  \"id\" : 7,\n  \"method\" : \"m\",\n  \"type\" : \"Method\"\n}\n";
    let back = encoding.decode::<Method>(text).unwrap();
    assert_eq!(back.method, "m");
    assert_eq!(back.data.name, "n");

    let reply = encoding
        .decode::<Reply>("{\"type\":\"Reply\",\"data\":{\"anything\":true}}")
        .unwrap();
    assert_eq!(reply.message_type, MessageType::Reply);
}

#[test]
fn escapes_are_read() {
    let encoding = JSONEncoding {};
    let text = "{\"type\":\"Method\",\"method\":\"\\u0041\\n\\\"\",\"data\":{\"name\":\"\\ud83d\\ude00\"}}";
    let back = encoding.decode::<Method>(text).unwrap();
    assert_eq!(back.method, "A\n\"");
    assert_eq!(back.data.name, "\u{1f600}");
}

#[test]
fn the_last_of_members_with_one_name_counts() {
    let encoding = JSONEncoding {};
    let text = "{\"type\":\"Signal\",\"type\":\"Reply\",\"data\":{}}";
    assert!(encoding.decode::<Reply>(text).is_ok());
    assert!(encoding.decode::<Signal>(text).is_err());

    let document = Json::Object(vec![
        ("type".to_string(), Json::String("Signal".to_string())),
        ("data".to_string(), Json::Object(vec![])),
        ("type".to_string(), Json::String("Reply".to_string())),
    ]);
    assert_eq!(document.text_member("type"), Some("Reply"));
    assert!(Reply::from_document(&document).is_some());
    assert!(Signal::from_document(&document).is_none());
}

#[test]
fn documents_of_messages() {
    let document = method("test", "name").to_document();
    match &document {
        Json::Object(members) => {
            assert_eq!(members.len(), 3);
            assert_eq!(members[0].0, "type");
            assert!(matches!(&members[0].1, Json::String(tag) if tag == "Method"));
            assert_eq!(members[1].0, "method");
            assert!(matches!(&members[1].1, Json::String(text) if text == "test"));
            assert_eq!(members[2].0, "data");
            match &members[2].1 {
                Json::Object(data) => {
                    assert_eq!(data.len(), 1);
                    assert_eq!(data[0].0, "name");
                    assert!(matches!(&data[0].1, Json::String(text) if text == "name"));
                }
                other => panic!("{:?}", other),
            }
        }
        other => panic!("{:?}", other),
    }
    let back = Method::from_document(&document).unwrap();
    assert_eq!(back.method, "test");
    assert_eq!(back.data.name, "name");
    assert!(Reply::from_document(&document).is_none());

    let document = exception("a", "b", "c").to_document();
    assert_eq!(document.text_member("type"), Some("Exception"));
    let data = document.member("data").unwrap();
    assert!(data.is_object());
    assert_eq!(data.text_member("name"), Some("a"));
    assert_eq!(data.text_member("value"), Some("b"));
    assert_eq!(data.text_member("backtrace"), Some("c"));
    assert_eq!(data.text_member("type"), None);
    assert!(document.member("method").is_none());
}

#[test]
fn members_and_texts_of_documents() {
    let text = Json::string("plain");
    assert_eq!(text.text(), Some("plain"));
    assert!(!text.is_object());
    assert!(text.member("plain").is_none());
    assert_eq!(text.text_member("plain"), None);

    for other in [
        Json::Null,
        Json::Bool(true),
        Json::Number("1".to_string()),
        Json::Array(vec![Json::string("a")]),
    ] {
        assert_eq!(other.text(), None);
        assert!(!other.is_object());
        assert!(other.member("a").is_none());
    }

    let object = Json::object(vec![
        ("a".to_string(), Json::Number("1".to_string())),
        ("b".to_string(), Json::string("two")),
        ("".to_string(), Json::Null),
    ]);
    assert!(object.is_object());
    assert_eq!(object.text(), None);
    assert!(matches!(object.member("a"), Some(Json::Number(n)) if n == "1"));
    assert_eq!(object.text_member("a"), None);
    assert_eq!(object.text_member("b"), Some("two"));
    assert!(matches!(object.member(""), Some(Json::Null)));
    assert!(object.member("c").is_none());
    assert!(object.member("A").is_none());
}

#[test]
fn names_of_message_types() {
    assert_eq!(MessageType::Method.name(), "Method");
    assert_eq!(MessageType::Reply.name(), "Reply");
    assert_eq!(MessageType::Signal.name(), "Signal");
    assert_eq!(MessageType::Exception.name(), "Exception");
}
