use mml::backend::{Flags, Id, RemoveFlags};
use mml::interpreter::Interpreter;
use mml::message::MimeInterpreter;
use mml::mime::{ContentType, Header, Message, Part, PartBody};
use mml::search::Flag;
use mml::session::render;
use mml::value::{Addr, Attribute, DateTime, Group, HeaderValue, TypeValue};
use std::cell::RefCell;

fn part(main: &str, sub: &str, body: PartBody) -> Part {
    Part {
        content_type: Some(ContentType { ctype: main.to_string(), subtype: Some(sub.to_string()) }),
        attachment_name: Some("name.bin".to_string()),
        content_id: Some("cid".to_string()),
        body,
    }
}

fn addr(name: &str) -> Addr {
    Addr { name: Some(name.to_string()), address: Some(format!("{name}@localhost")) }
}

fn rich() -> Message {
    let inner = Message {
        headers: vec![Header { name: "Subject".to_string(), value: HeaderValue::Text("inner".to_string()) }],
        parts: vec![part("text", "plain", PartBody::Text("inner text".to_string()))],
        raw: b"inner raw".to_vec(),
    };
    Message {
        headers: vec![
            Header { name: "From".to_string(), value: HeaderValue::Address(addr("alice")) },
            Header {
                name: "To".to_string(),
                value: HeaderValue::AddressList(vec![addr("bob"), addr("carol")]),
            },
            Header {
                name: "Cc".to_string(),
                value: HeaderValue::Group(Group {
                    name: Some("team".to_string()),
                    addresses: vec![addr("dan")],
                }),
            },
            Header {
                name: "Bcc".to_string(),
                value: HeaderValue::GroupList(vec![
                    Group { name: None, addresses: vec![addr("eve")] },
                    Group { name: Some("ops".to_string()), addresses: Vec::new() },
                ]),
            },
            Header {
                name: "References".to_string(),
                value: HeaderValue::TextList(vec!["a@x".to_string(), "b@x".to_string()]),
            },
            Header {
                name: "Date".to_string(),
                value: HeaderValue::DateTime(DateTime {
                    year: 2001,
                    month: 2,
                    day: 3,
                    hour: 4,
                    minute: 5,
                    second: 6,
                    tz_before_gmt: true,
                    tz_hour: 7,
                    tz_minute: 8,
                }),
            },
            Header {
                name: "Content-Type".to_string(),
                value: HeaderValue::ContentType(TypeValue {
                    ctype: "multipart".to_string(),
                    subtype: Some("mixed".to_string()),
                    attributes: vec![Attribute {
                        name: "boundary".to_string(),
                        value: "xyz".to_string(),
                    }],
                }),
            },
            Header { name: "X-Empty".to_string(), value: HeaderValue::Empty },
        ],
        parts: vec![
            part("multipart", "mixed", PartBody::Multipart(vec![1, 2, 3, 4, 5])),
            part("text", "plain", PartBody::Text("plain text".to_string())),
            part("text", "html", PartBody::Html("<p>html</p>".to_string())),
            part("application", "pdf", PartBody::Binary(vec![1, 2, 3])),
            part("image", "png", PartBody::InlineBinary(vec![4, 5])),
            part("message", "rfc822", PartBody::Message(Box::new(inner))),
        ],
        raw: b"raw bytes".to_vec(),
    }
}

#[test]
fn copy_of_a_message_is_the_same_message() {
    let msg = rich();
    let copy = msg.clone();
    assert_eq!(copy, msg);
    assert_eq!(copy.headers.len(), 8);
    assert_eq!(copy.parts.len(), 6);
    assert_eq!(copy.raw, b"raw bytes".to_vec());
}

#[test]
fn copy_of_a_part_and_of_a_body_are_the_same() {
    let msg = rich();
    for part in &msg.parts {
        assert_eq!(&part.clone(), part);
        assert_eq!(&part.body.clone(), &part.body);
    }
    match &msg.parts[5].body.clone() {
        PartBody::Message(inner) => {
            assert_eq!(inner.raw, b"inner raw".to_vec());
            assert_eq!(inner.parts[0].body, PartBody::Text("inner text".to_string()));
        }
        other => panic!("not a message: {other:?}"),
    }
}

#[test]
fn copy_of_a_message_is_interpreted_as_the_message() {
    let msg = rich();
    let copy = msg.clone();
    let body = Interpreter::new().show_multiparts(true).save_attachments(true);
    assert_eq!(body.interpret_msg(&copy), body.interpret_msg(&msg));
    let whole = render(&MimeInterpreter::new().interpret_msg(&msg));
    assert_eq!(render(&MimeInterpreter::new().interpret_msg(&copy)), whole);
    assert!(whole.starts_with("From: alice <alice@localhost>\nTo: bob <bob@localhost>, carol <carol@localhost>\n"));
}

struct Recorder {
    calls: RefCell<Vec<(String, Id, Flags)>>,
    fail: bool,
}

impl RemoveFlags for Recorder {
    type Error = String;

    fn remove_flags(&self, folder: &str, id: &Id, flags: &Flags) -> Result<(), String> {
        self.calls.borrow_mut().push((folder.to_string(), id.clone(), flags.clone()));
        if self.fail {
            Err(format!("cannot remove flags in {folder}"))
        } else {
            Ok(())
        }
    }
}

#[test]
fn removing_one_flag_removes_the_set_that_holds_it() {
    let backend = Recorder { calls: RefCell::new(Vec::new()), fail: false };
    let id = Id::Multiple(vec!["1".to_string(), "2".to_string()]);
    assert_eq!(backend.remove_flag("INBOX", &id, Flag::Seen), Ok(()));
    assert_eq!(
        backend.remove_flag("Sent", &Id::Single("7".to_string()), Flag::Custom("todo".to_string())),
        Ok(())
    );
    assert_eq!(
        *backend.calls.borrow(),
        vec![
            ("INBOX".to_string(), id, Flags(vec![Flag::Seen])),
            (
                "Sent".to_string(),
                Id::Single("7".to_string()),
                Flags(vec![Flag::Custom("todo".to_string())])
            ),
        ]
    );
}

#[test]
fn removing_one_flag_hands_the_failure_on() {
    let backend = Recorder { calls: RefCell::new(Vec::new()), fail: true };
    let id = Id::Single("1".to_string());
    assert_eq!(
        backend.remove_flag("INBOX", &id, Flag::Draft),
        Err("cannot remove flags in INBOX".to_string())
    );
    assert_eq!(backend.calls.borrow().len(), 1);
}
