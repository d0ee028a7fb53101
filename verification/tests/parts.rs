use mml::filter::FilterParts;
use mml::interpreter::{frame_html, path_in, Interpreter};
use mml::mime::{get_ctype, is_plain, ContentType, Message, Part, PartBody};
use mml::piece::Piece;
use mml::session::render;

fn part(main: &str, sub: &str, body: PartBody) -> Part {
    Part {
        content_type: Some(ContentType { ctype: main.to_string(), subtype: Some(sub.to_string()) }),
        attachment_name: None,
        content_id: None,
        body,
    }
}

fn text(sub: &str, content: &str) -> Part {
    part("text", sub, PartBody::Text(content.to_string()))
}

fn html(content: &str) -> Part {
    part("text", "html", PartBody::Html(content.to_string()))
}

fn multipart(sub: &str, children: Vec<usize>) -> Part {
    part("multipart", sub, PartBody::Multipart(children))
}

fn message(parts: Vec<Part>) -> Message {
    Message { headers: Vec::new(), parts, raw: Vec::new() }
}

fn untyped(body: PartBody) -> Part {
    Part { content_type: None, attachment_name: None, content_id: None, body }
}

fn body_of(interpreter: &Interpreter, msg: &Message) -> String {
    render(&interpreter.interpret_msg(msg))
}

#[test]
fn ctype_falls_back_to_octet_stream() {
    assert_eq!(get_ctype(&text("plain", "")), "text/plain");
    assert_eq!(get_ctype(&untyped(PartBody::Binary(vec![]))), "application/octet-stream");
    let no_subtype = Part {
        content_type: Some(ContentType { ctype: "text".to_string(), subtype: None }),
        attachment_name: None,
        content_id: None,
        body: PartBody::Text(String::new()),
    };
    assert_eq!(get_ctype(&no_subtype), "application/octet-stream");
    assert!(is_plain(&text("plain", "x")));
    assert!(!is_plain(&text("json", "x")));
    assert!(!is_plain(&no_subtype));
}

#[test]
fn filter_predicates() {
    let all = FilterParts::All;
    assert!(all.contains("text/plain"));
    assert!(!all.only("text/plain"));
    let only = FilterParts::Only("text/html".to_string());
    assert!(only.contains("text/html"));
    assert!(only.only("text/html"));
    assert!(!only.contains("text/plain"));
    assert!(!only.only("text/plain"));
    assert!(!only.only("text/htm"));
    let listed = FilterParts::Include(vec!["text/plain".to_string(), "text/json".to_string()]);
    assert!(listed.contains("text/plain"));
    assert!(listed.contains("text/json"));
    assert!(!listed.contains("text/html"));
    assert!(!listed.only("text/plain"));
    let exclude = FilterParts::Exclude(vec!["text/plain".to_string()]);
    assert!(!exclude.contains("text/plain"));
    assert!(exclude.contains("text/html"));
    assert!(!exclude.only("text/html"));
    assert_eq!(FilterParts::default(), FilterParts::All);
}

#[test]
fn plain_text_loses_carriage_returns_and_trailing_whitespace() {
    let i = Interpreter::new();
    assert_eq!(i.interpret_text_plain("a\r\nb\r\n\r\n \t"), "a\nb\n\n");
    assert_eq!(i.interpret_text_plain(""), "\n\n");
    assert_eq!(i.interpret_text_plain("  x\u{a0}\u{2003}"), "  x\n\n");
    assert_eq!(i.interpret_text_plain("a\rb"), "ab\n\n");
}

#[test]
fn signature_is_kept_by_default_and_cut_at_the_last_delimiter() {
    let text = "Hello\r\n-- \r\nfirst\n-- \nsecond\n";
    assert_eq!(Interpreter::new().interpret_text_plain(text), "Hello\n-- \nfirst\n-- \nsecond\n\n");
    let cut = Interpreter::new().show_plain_texts_signature(false);
    assert_eq!(cut.interpret_text_plain(text), "Hello\n-- \nfirst\n\n");
    assert_eq!(cut.interpret_text_plain("No signature --\nhere"), "No signature --\nhere\n\n");
    assert_eq!(cut.interpret_text_plain("-- \nonly signature"), "\n\n");
    assert_eq!(cut.interpret_text_plain("x-- \ny"), "x\n\n");
    assert_eq!(cut.interpret_text_plain("-- "), "--\n\n");
}

#[test]
fn plain_text_is_hidden_by_the_filter() {
    let i = Interpreter::new().filter_parts(FilterParts::Exclude(vec!["text/plain".to_string()]));
    assert_eq!(i.interpret_text_plain("hello"), "");
    let msg = message(vec![text("plain", "hello")]);
    assert!(i.interpret_msg(&msg).is_empty());
}

#[test]
fn other_text_is_framed_unless_it_is_the_only_type_shown() {
    let i = Interpreter::new();
    assert_eq!(
        i.interpret_text("text/json", "{}\r\n  "),
        "<#part type=text/json>\n{}\n<#/part>\n\n"
    );
    let listed = Interpreter::new().filter_parts(FilterParts::Include(vec!["text/json".into()]));
    assert_eq!(listed.interpret_text("text/json", "{}"), "<#part type=text/json>\n{}\n<#/part>\n\n");
    assert_eq!(listed.interpret_text("text/csv", "a,b"), "");
    let only = Interpreter::new().filter_parts(FilterParts::Only("text/json".into()));
    assert_eq!(only.interpret_text("text/json", "{}\r\n"), "{}\n\n");
    assert_eq!(only.interpret_text("text/csv", "a,b"), "");
}

#[test]
fn html_is_converted_unless_it_is_the_only_type_shown() {
    let i = Interpreter::new();
    assert_eq!(
        i.interpret_text_html("<p>Hello <b>world</b></p>"),
        "<#part type=text/html>\nHello world\n<#/part>\n\n"
    );
    let only = Interpreter::new().filter_parts(FilterParts::Only("text/html".into()));
    assert_eq!(only.interpret_text_html("<p>Hello</p>\r\n\r\n"), "<p>Hello</p>\n\n");
    let hidden = Interpreter::new().filter_parts(FilterParts::Only("text/plain".into()));
    assert_eq!(hidden.interpret_text_html("<p>Hello</p>"), "");
}

#[test]
fn paths_are_joined_as_the_file_system_reads_them() {
    assert_eq!(path_in("~/Downloads", "attachment.txt"), "~/Downloads/attachment.txt");
    assert_eq!(path_in("/tmp/", "a"), "/tmp/a");
    assert_eq!(path_in("", "a"), "a");
    assert_eq!(path_in("/tmp", "/etc/passwd"), "/etc/passwd");
    assert_eq!(path_in("/tmp", ""), "/tmp/");
}

fn inline(name: Option<&str>, id: Option<&str>) -> Part {
    let mut inline = part("image", "png", PartBody::InlineBinary(vec![1, 2]));
    inline.attachment_name = name.map(|n| n.to_string());
    inline.content_id = id.map(|n| n.to_string());
    inline
}

#[test]
fn inline_attachment_is_named_by_its_content_id() {
    let i = Interpreter::new().save_attachments_dir("/tmp").save_attachments(true);
    assert_eq!(
        i.interpret_msg(&message(vec![inline(None, Some("logo@localhost"))])),
        vec![
            Piece::Save { path: "/tmp/logo@localhost".to_string(), data: vec![1, 2] },
            Piece::Text(
                "<#part type=image/png disposition=inline filename=\"/tmp/logo@localhost\">\n\n"
                    .to_string()
            ),
        ]
    );
    let shown = Interpreter::new().save_attachments_dir("/tmp");
    assert_eq!(
        body_of(&shown, &message(vec![inline(Some("logo.png"), Some("logo@localhost"))])),
        "<#part type=image/png disposition=inline filename=\"/tmp/logo.png\">\n\n"
    );
    assert_eq!(
        body_of(&shown, &message(vec![inline(None, None)])),
        "<#part type=image/png disposition=inline filename=\"/tmp/noname\">\n\n"
    );
    let hidden = Interpreter::new().show_inline_attachments(false).save_attachments(true);
    assert!(hidden.interpret_msg(&message(vec![inline(None, None)])).is_empty());
}

#[test]
fn inline_attachment_goes_by_the_type_given_and_names_its_own() {
    let inline = part("image", "png", PartBody::InlineBinary(vec![1]));
    let only = Interpreter::new()
        .save_attachments_dir("/tmp")
        .filter_parts(FilterParts::Only("image/jpeg".into()));
    assert_eq!(
        only.interpret_inline_attachment("image/jpeg", &inline, &vec![1]),
        vec![Piece::Text(
            "<#part type=image/png disposition=inline filename=\"/tmp/noname\">\n\n".to_string()
        )]
    );
    assert!(only.interpret_inline_attachment("image/png", &inline, &vec![1]).is_empty());
    assert_eq!(
        only.interpret_attachment("image/jpeg", &inline, &vec![1]),
        vec![Piece::Text("<#part type=image/jpeg filename=\"/tmp/noname\">\n\n".to_string())]
    );
}

#[test]
fn default_directory_for_attachments() {
    let msg = message(vec![untyped(PartBody::Binary(vec![0]))]);
    assert_eq!(
        body_of(&Interpreter::new(), &msg),
        "<#part type=application/octet-stream filename=\"/tmp/noname\">\n\n"
    );
    assert_eq!(Interpreter::default(), Interpreter::new());
}

#[test]
fn children_that_are_not_in_the_table_are_passed_over() {
    let msg = message(vec![multipart("mixed", vec![1, 9, 2]), text("plain", "a"), text("plain", "b")]);
    assert_eq!(body_of(&Interpreter::new(), &msg), "a\n\nb\n\n");
}

#[test]
fn children_that_do_not_follow_their_container_are_passed_over() {
    let msg = message(vec![
        multipart("mixed", vec![0, 1, 2]),
        multipart("related", vec![1, 0, 2]),
        text("plain", "leaf"),
    ]);
    assert_eq!(body_of(&Interpreter::new(), &msg), "leaf\n\nleaf\n\n");
}

#[test]
fn container_without_subtype_is_shown_as_mixed() {
    let container = Part {
        content_type: Some(ContentType { ctype: "multipart".to_string(), subtype: None }),
        attachment_name: None,
        content_id: None,
        body: PartBody::Multipart(vec![1]),
    };
    let msg = message(vec![container, text("plain", "a")]);
    assert_eq!(
        body_of(&Interpreter::new().show_multiparts(true), &msg),
        "<#multipart type=mixed>\n\na\n\n<#/multipart>\n\n"
    );
    let report = message(vec![multipart("report", vec![]), text("plain", "a")]);
    assert_eq!(
        body_of(&Interpreter::new().show_multiparts(true), &report),
        "<#multipart type=report>\n\n<#/multipart>\n\n"
    );
    assert_eq!(body_of(&Interpreter::new(), &report), "");
}

#[test]
fn control_parts_of_pgp_give_nothing() {
    let msg = message(vec![
        multipart("mixed", vec![1, 2, 3]),
        part("application", "pgp-encrypted", PartBody::Multipart(vec![3])),
        part("application", "pgp-signature", PartBody::Multipart(vec![3])),
        text("plain", "a"),
    ]);
    assert_eq!(body_of(&Interpreter::new().show_multiparts(true), &msg), "<#multipart type=mixed>\n\na\n\n<#/multipart>\n\n");
}

#[test]
fn alternative_falls_back_to_its_first_child() {
    let msg = message(vec![
        multipart("alternative", vec![7, 1, 2]),
        part("application", "pdf", PartBody::Binary(vec![1])),
        part("image", "png", PartBody::Binary(vec![2])),
    ]);
    assert_eq!(
        body_of(&Interpreter::new(), &msg),
        "<#part type=application/pdf filename=\"/tmp/noname\">\n\n"
    );
    let blank_first = message(vec![
        multipart("alternative", vec![1, 2]),
        text("plain", " \n"),
        part("image", "png", PartBody::Binary(vec![2])),
    ]);
    assert_eq!(body_of(&Interpreter::new(), &blank_first), "\n\n");
    let empty = message(vec![multipart("alternative", vec![])]);
    assert_eq!(body_of(&Interpreter::new(), &empty), "");
}

#[test]
fn alternative_goes_by_priority_wherever_the_parts_stand() {
    let a = message(vec![
        multipart("alternative", vec![1, 2, 3]),
        text("json", "{}"),
        html("<p>html</p>"),
        text("plain", "plain"),
    ]);
    assert_eq!(body_of(&Interpreter::new(), &a), "plain\n\n");
    let b = message(vec![
        multipart("alternative", vec![1, 2, 3]),
        text("json", "{}"),
        text("plain", "\n"),
        html("<p>html</p>"),
    ]);
    assert_eq!(body_of(&Interpreter::new(), &b), "<#part type=text/html>\nhtml\n<#/part>\n\n");
    let c = message(vec![
        multipart("alternative", vec![1, 2, 3]),
        html("  "),
        text("plain", "\n"),
        text("json", "{}"),
    ]);
    assert_eq!(body_of(&Interpreter::new(), &c), "<#part type=text/json>\n{}\n<#/part>\n\n");
    let d = message(vec![
        multipart("alternative", vec![1, 2]),
        text("plain", "first"),
        text("plain", "second"),
    ]);
    assert_eq!(body_of(&Interpreter::new(), &d), "first\n\n");
}

#[test]
fn alternative_under_a_filter_takes_the_first_part_shown() {
    let msg = message(vec![
        multipart("alternative", vec![1, 2, 3]),
        text("plain", "plain"),
        html("<p>html</p>"),
        text("json", "{}"),
    ]);
    let listed =
        Interpreter::new().filter_parts(FilterParts::Include(vec!["text/json".into(), "text/html".into()]));
    assert_eq!(body_of(&listed, &msg), "<#part type=text/html>\nhtml\n<#/part>\n\n");
    let exclude = Interpreter::new().filter_parts(FilterParts::Exclude(vec!["text/plain".into(), "text/html".into()]));
    assert_eq!(body_of(&exclude, &msg), "<#part type=text/json>\n{}\n<#/part>\n\n");
    let none = Interpreter::new().filter_parts(FilterParts::Only("text/csv".into()));
    assert_eq!(body_of(&none, &msg), "");
    assert!(none.interpret_msg(&msg).is_empty());
}

#[test]
fn single_type_that_nothing_has_gives_an_empty_body() {
    let msg = message(vec![
        multipart("mixed", vec![1, 2, 3]),
        text("plain", "plain"),
        html("<p>html</p>"),
        multipart("related", vec![4]),
        part("image", "png", PartBody::Binary(vec![2])),
    ]);
    let only = Interpreter::new().filter_parts(FilterParts::Only("text/csv".into()));
    assert!(only.interpret_msg(&msg).is_empty());
    assert_eq!(body_of(&only, &msg), "");
}

#[test]
fn carried_message_gives_its_body_in_place() {
    let inner = message(vec![multipart("mixed", vec![1, 2]), text("plain", "inner"), html("<p>x</p>")]);
    let msg = message(vec![
        multipart("mixed", vec![1, 2]),
        text("plain", "outer"),
        part("message", "rfc822", PartBody::Message(Box::new(inner))),
    ]);
    assert_eq!(
        body_of(&Interpreter::new(), &msg),
        "outer\n\ninner\n\n<#part type=text/html>\nx\n<#/part>\n\n"
    );
}

#[test]
fn message_without_parts_gives_nothing() {
    assert!(Interpreter::new().interpret_msg(&message(Vec::new())).is_empty());
}

#[test]
fn converted_html_is_trimmed_and_framed() {
    assert_eq!(frame_html("Hello \r\n\r\n"), "<#part type=text/html>\nHello\n<#/part>\n\n");
    assert_eq!(frame_html("a\r\nb"), "<#part type=text/html>\na\r\nb\n<#/part>\n\n");
    assert_eq!(frame_html(""), "<#part type=text/html>\n\n<#/part>\n\n");
}
