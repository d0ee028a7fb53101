use mml::header::{render_headers, ShowHeadersStrategy};
use mml::message::{MimeInterpreter, Pgp};
use mml::mime::{ContentType, Header, Message, Part, PartBody};
use mml::piece::Piece;
use mml::session::{render, Action, Event};
use mml::value::{display_value, Addr, Attribute, DateTime, Group, HeaderValue, TypeValue};

fn header(name: &str, value: HeaderValue) -> Header {
    Header { name: name.to_string(), value }
}

fn text(value: &str) -> HeaderValue {
    HeaderValue::Text(value.to_string())
}

fn address(name: Option<&str>, address: Option<&str>) -> Addr {
    Addr { name: name.map(|n| n.to_string()), address: address.map(|a| a.to_string()) }
}

fn mailbox(addr: &str) -> HeaderValue {
    HeaderValue::Address(address(None, Some(addr)))
}

fn epoch() -> DateTime {
    DateTime {
        year: 1970,
        month: 1,
        day: 1,
        hour: 0,
        minute: 0,
        second: 0,
        tz_before_gmt: false,
        tz_hour: 0,
        tz_minute: 0,
    }
}

fn plain_utf8() -> HeaderValue {
    HeaderValue::ContentType(TypeValue {
        ctype: "text".to_string(),
        subtype: Some("plain".to_string()),
        attributes: vec![Attribute { name: "charset".to_string(), value: "utf-8".to_string() }],
    })
}

fn plain(content: &str) -> Part {
    Part {
        content_type: Some(ContentType {
            ctype: "text".to_string(),
            subtype: Some("plain".to_string()),
        }),
        attachment_name: None,
        content_id: None,
        body: PartBody::Text(content.to_string()),
    }
}

fn msg_with_body(body: &str) -> Message {
    Message {
        headers: vec![
            header("Message-ID", text("id@localhost")),
            header("In-Reply-To", text("reply-id@localhost")),
            header("Date", HeaderValue::DateTime(epoch())),
            header("From", mailbox("from@localhost")),
            header("To", mailbox("to@localhost")),
            header("Subject", text("subject")),
            header("Content-Type", plain_utf8()),
            header("Content-Transfer-Encoding", text("7bit")),
        ],
        parts: vec![plain(body)],
        raw: Vec::new(),
    }
}

fn msg() -> Message {
    msg_with_body("Hello, world!")
}

fn names(list: &[&str]) -> Vec<String> {
    list.iter().map(|s| s.to_string()).collect()
}

#[test]
fn all_headers() {
    let mml = render(&MimeInterpreter::new().with_show_all_headers().interpret_msg(&msg()));
    let expected = [
        "Message-ID: <id@localhost>",
        "In-Reply-To: <reply-id@localhost>",
        "Date: Thu, 1 Jan 1970 00:00:00 +0000",
        "From: from@localhost",
        "To: to@localhost",
        "Subject: subject",
        "Content-Type: text/plain; charset=utf-8",
        "Content-Transfer-Encoding: 7bit",
        "",
        "Hello, world!",
        "",
    ]
    .join("\n");
    assert_eq!(mml, expected);
}

#[test]
fn model_only_headers() {
    let mml = render(
        &MimeInterpreter::new().with_show_only_headers(names(&["From", "Subject"])).interpret_msg(
            &msg(),
        ),
    );
    assert_eq!(mml, "From: from@localhost\nSubject: subject\n\nHello, world!\n");
}

#[test]
fn model_only_headers_duplicated() {
    let mml = render(
        &MimeInterpreter::new()
            .with_show_only_headers(names(&["From", "Subject", "From"]))
            .interpret_msg(&msg()),
    );
    assert_eq!(mml, "From: from@localhost\nSubject: subject\n\nHello, world!\n");
}

#[test]
fn model_no_headers() {
    let mml = render(&MimeInterpreter::new().with_hide_all_headers().interpret_msg(&msg()));
    assert_eq!(mml, "Hello, world!\n");
}

#[test]
fn markup_in_text_is_left_as_it_is() {
    let mml = render(
        &MimeInterpreter::new()
            .with_show_only_headers(names(&["From", "Subject"]))
            .interpret_msg(&msg_with_body("<#part>Should stay.<#/part>")),
    );
    assert_eq!(mml, "From: from@localhost\nSubject: subject\n\n<#part>Should stay.<#/part>\n");
}

#[test]
fn new_shows_all_headers() {
    let a = render(&MimeInterpreter::new().interpret_msg(&msg()));
    let b = render(&MimeInterpreter::new().with_show_all_headers().interpret_msg(&msg()));
    let c = render(
        &MimeInterpreter::new().with_show_headers(ShowHeadersStrategy::All).interpret_msg(&msg()),
    );
    assert_eq!(a, b);
    assert_eq!(a, c);
    assert!(a.starts_with("Message-ID: <id@localhost>\n"));
}

#[test]
fn only_headers_follow_the_order_asked_for() {
    let mml = render(
        &MimeInterpreter::new().with_show_only_headers(names(&["Subject", "From"])).interpret_msg(
            &msg(),
        ),
    );
    assert_eq!(mml, "Subject: subject\nFrom: from@localhost\n\nHello, world!\n");
}

#[test]
fn absent_headers_are_passed_over() {
    let mml = render(
        &MimeInterpreter::new()
            .with_show_only_headers(names(&["Cc", "From", "X-Nothing"]))
            .interpret_msg(&msg()),
    );
    assert_eq!(mml, "From: from@localhost\n\nHello, world!\n");
}

#[test]
fn header_lookup_ignores_ascii_case_and_takes_the_last() {
    let mut m = msg();
    m.headers.push(header("SUBJECT", text("second subject")));
    assert_eq!(m.get_header("subject").unwrap().value, text("second subject"));
    assert_eq!(m.get_header("Message-id").unwrap().value, text("id@localhost"));
    assert!(m.get_header("Subjec").is_none());
    assert!(m.get_header("Subject ").is_none());
    let mml = render(
        &MimeInterpreter::new().with_show_only_headers(names(&["subject"])).interpret_msg(&m),
    );
    assert_eq!(mml, "subject: second subject\n\nHello, world!\n");
}

#[test]
fn additional_headers_after_all_show_only_those() {
    let mml = render(
        &MimeInterpreter::new()
            .with_show_additional_headers(names(&["To", "To", "From"]))
            .interpret_msg(&msg()),
    );
    assert_eq!(mml, "To: to@localhost\nFrom: from@localhost\n\nHello, world!\n");
}

#[test]
fn additional_headers_follow_those_listed() {
    let mml = render(
        &MimeInterpreter::new()
            .with_show_only_headers(names(&["From", "Subject"]))
            .with_show_additional_headers(names(&["To", "From", "Date", "To"]))
            .interpret_msg(&msg()),
    );
    assert_eq!(
        mml,
        "From: from@localhost\nSubject: subject\nTo: to@localhost\nDate: Thu, 1 Jan 1970 00:00:00 +0000\n\nHello, world!\n"
    );
}

#[test]
fn strategy_contains() {
    assert!(!ShowHeadersStrategy::All.contains(&"From".to_string()));
    let only = ShowHeadersStrategy::Only(names(&["From", "To"]));
    assert!(only.contains(&"From".to_string()));
    assert!(only.contains(&"To".to_string()));
    assert!(!only.contains(&"from".to_string()));
    assert!(!only.contains(&"Subject".to_string()));
}

#[test]
fn header_block_ends_with_an_empty_line() {
    let block = render_headers(&ShowHeadersStrategy::Only(names(&["From"])), &msg());
    assert_eq!(block, "From: from@localhost\n\n");
    let none = render_headers(&ShowHeadersStrategy::Only(Vec::new()), &msg());
    assert_eq!(none, "");
}

#[test]
fn body_is_trimmed_and_ends_with_one_line_break() {
    let mml = render(
        &MimeInterpreter::new().with_hide_all_headers().interpret_msg(&msg_with_body(
            "Hello, world!  \r\n\r\n\n",
        )),
    );
    assert_eq!(mml, "Hello, world!\n");
}

#[test]
fn document_of_an_empty_body_is_a_line_break() {
    let m = Message { headers: Vec::new(), parts: Vec::new(), raw: Vec::new() };
    let plan = MimeInterpreter::new().with_hide_all_headers().interpret_msg(&m);
    assert_eq!(plan, vec![Piece::Open, Piece::Close]);
    assert_eq!(render(&plan), "\n");
}

#[test]
fn plan_of_a_document() {
    let plan = MimeInterpreter::new()
        .with_show_only_headers(names(&["From"]))
        .interpret_msg(&msg());
    assert_eq!(
        plan,
        vec![
            Piece::Text("From: from@localhost\n\n".to_string()),
            Piece::Open,
            Piece::Text("Hello, world!\n\n".to_string()),
            Piece::Close,
        ]
    );
}

fn carrying(inner: Message) -> Message {
    Message {
        headers: vec![header("From", mailbox("outer@localhost"))],
        parts: vec![
            Part {
                content_type: Some(ContentType {
                    ctype: "multipart".to_string(),
                    subtype: Some("mixed".to_string()),
                }),
                attachment_name: None,
                content_id: None,
                body: PartBody::Multipart(vec![1, 2]),
            },
            plain("See the message below.  "),
            Part {
                content_type: Some(ContentType {
                    ctype: "message".to_string(),
                    subtype: Some("rfc822".to_string()),
                }),
                attachment_name: None,
                content_id: None,
                body: PartBody::Message(Box::new(inner)),
            },
        ],
        raw: Vec::new(),
    }
}

#[test]
fn carried_message_is_a_document_of_its_own() {
    let m = carrying(msg_with_body("Hello, world!\n\n\n"));
    let mml = render(
        &MimeInterpreter::new().with_show_only_headers(names(&["From"])).interpret_msg(&m),
    );
    assert_eq!(
        mml,
        "From: outer@localhost\n\nSee the message below.\n\nFrom: from@localhost\n\nHello, world!\n"
    );
}

#[test]
fn settings_of_the_body_are_handed_on() {
    let m = carrying(msg());
    let mml = render(
        &MimeInterpreter::new()
            .with_hide_all_headers()
            .with_show_multiparts(true)
            .interpret_msg(&m),
    );
    assert_eq!(
        mml,
        "<#multipart type=mixed>\n\nSee the message below.\n\nHello, world!\n<#/multipart>\n"
    );
}

#[test]
fn begin_gives_the_document_at_once_where_no_work_is_asked() {
    let session = MimeInterpreter::new().with_show_only_headers(names(&["From"])).begin(&msg());
    let (session, action) = session.step(Event::Start);
    assert_eq!(action, Ok(Action::Done("From: from@localhost\n\nHello, world!\n".to_string())));
    let (_, again) = session.step(Event::Start);
    assert_eq!(again, Ok(Action::Done("From: from@localhost\n\nHello, world!\n".to_string())));
}

#[test]
fn with_pgp_sets_both_commands() {
    let signed = Message {
        headers: Vec::new(),
        parts: vec![
            Part {
                content_type: Some(ContentType {
                    ctype: "multipart".to_string(),
                    subtype: Some("signed".to_string()),
                }),
                attachment_name: None,
                content_id: None,
                body: PartBody::Multipart(vec![1, 2]),
            },
            plain("signed text"),
            Part {
                content_type: Some(ContentType {
                    ctype: "application".to_string(),
                    subtype: Some("pgp-signature".to_string()),
                }),
                attachment_name: None,
                content_id: None,
                body: PartBody::Binary(vec![1, 2, 3]),
            },
        ],
        raw: Vec::new(),
    };
    let pgp = Pgp { decrypt_cmd: "decrypt-it".to_string(), verify_cmd: "verify-it".to_string() };
    let plan = MimeInterpreter::new().with_hide_all_headers().with_pgp(pgp).interpret_msg(&signed);
    assert_eq!(
        plan,
        vec![
            Piece::Open,
            Piece::Verify { command: "verify-it".to_string(), signature: vec![1, 2, 3] },
            Piece::Text("signed text\n\n".to_string()),
            Piece::Close,
        ]
    );
}

#[test]
fn values_are_shown_by_kind() {
    let alice = address(Some("Alice"), Some("alice@localhost"));
    let bob = address(None, Some("bob@localhost"));
    let carol = address(Some("Carol"), None);
    assert_eq!(display_value("From", &HeaderValue::Address(alice.clone())), "Alice <alice@localhost>");
    assert_eq!(display_value("From", &HeaderValue::Address(carol.clone())), "Carol");
    assert_eq!(display_value("From", &HeaderValue::Address(address(None, None))), "");
    assert_eq!(
        display_value("To", &HeaderValue::AddressList(vec![alice.clone(), bob.clone(), carol.clone()])),
        "Alice <alice@localhost>, bob@localhost, Carol"
    );
    assert_eq!(display_value("To", &HeaderValue::AddressList(Vec::new())), "");
    let team = Group { name: Some("team".to_string()), addresses: vec![alice.clone(), bob.clone()] };
    let unnamed = Group { name: None, addresses: vec![carol.clone()] };
    assert_eq!(
        display_value("To", &HeaderValue::Group(team.clone())),
        "team:Alice <alice@localhost>, bob@localhost;"
    );
    assert_eq!(
        display_value("To", &HeaderValue::GroupList(vec![team, unnamed])),
        "team:Alice <alice@localhost>, bob@localhost;, Carol"
    );
    assert_eq!(display_value("Subject", &text("Hello")), "Hello");
    assert_eq!(display_value("message-id", &text("id@localhost")), "<id@localhost>");
    assert_eq!(display_value("Content-ID", &text("cid")), "<cid>");
    assert_eq!(display_value("Return-Path", &text("a@b")), "<a@b>");
    assert_eq!(display_value("Resent-Message-ID", &text("r")), "<r>");
    let list = HeaderValue::TextList(vec!["a@x".to_string(), "b@x".to_string()]);
    assert_eq!(display_value("References", &list), "<a@x> <b@x>");
    assert_eq!(display_value("Keywords", &list), "a@x b@x");
    assert_eq!(display_value("Keywords", &HeaderValue::TextList(Vec::new())), "");
    assert_eq!(display_value("X-Empty", &HeaderValue::Empty), "");
    let bare = HeaderValue::ContentType(TypeValue {
        ctype: "attachment".to_string(),
        subtype: None,
        attributes: vec![
            Attribute { name: "filename".to_string(), value: "a.txt".to_string() },
            Attribute { name: "size".to_string(), value: "3".to_string() },
        ],
    });
    assert_eq!(display_value("Content-Disposition", &bare), "attachment; filename=a.txt; size=3");
}

#[test]
fn dates_are_shown_as_the_parser_writes_them() {
    assert_eq!(
        display_value("Date", &HeaderValue::DateTime(epoch())),
        "Thu, 1 Jan 1970 00:00:00 +0000"
    );
    let date = DateTime {
        year: 2024,
        month: 2,
        day: 29,
        hour: 23,
        minute: 5,
        second: 9,
        tz_before_gmt: true,
        tz_hour: 5,
        tz_minute: 30,
    };
    assert_eq!(display_value("Date", &HeaderValue::DateTime(date)), "Thu, 29 Feb 2024 23:05:09 -0530");
}
