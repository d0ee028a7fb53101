use mml::filter::FilterParts;
use mml::interpreter::{frame_html, path_in, Interpreter};
use mml::text::{chars_of, text_is_blank};
use std::path::Path;

fn samples() -> Vec<String> {
    let pieces = [
        "", " ", "a", "\r", "\n", "\r\n", "-- \n", "-- ", "--", " \t", "text", "\u{a0}", "\u{2003}",
        "\u{200b}", "é", "-- \r\n", "sig", "\u{3000}", "x-- \ny",
    ];
    let mut all = Vec::new();
    for a in pieces {
        for b in pieces {
            for c in pieces {
                all.push(format!("{a}{b}{c}"));
            }
        }
    }
    all
}

#[test]
fn plain_text_is_cleaned_as_the_standard_library_does() {
    let keep = Interpreter::new();
    let cut = Interpreter::new().show_plain_texts_signature(false);
    for text in samples() {
        let clean = text.replace('\r', "");
        assert_eq!(keep.interpret_text_plain(&text), format!("{}\n\n", clean.trim_end()), "{text:?}");
        let body = match clean.rsplit_once("-- \n") {
            Some((body, _)) => body.to_string(),
            None => clean.clone(),
        };
        assert_eq!(cut.interpret_text_plain(&text), format!("{}\n\n", body.trim_end()), "{text:?}");
    }
}

#[test]
fn other_text_is_cleaned_as_the_standard_library_does() {
    let all = Interpreter::new();
    let only = Interpreter::new().filter_parts(FilterParts::Only("text/x".to_string()));
    for text in samples() {
        let clean = text.replace('\r', "");
        let clean = clean.trim_end();
        assert_eq!(
            all.interpret_text("text/x", &text),
            format!("<#part type=text/x>\n{clean}\n<#/part>\n\n"),
            "{text:?}"
        );
        assert_eq!(only.interpret_text("text/x", &text), format!("{clean}\n\n"), "{text:?}");
    }
}

#[test]
fn blank_is_what_trims_to_nothing() {
    for text in samples() {
        assert_eq!(text_is_blank(&chars_of(&text)), text.trim().is_empty(), "{text:?}");
    }
}

#[test]
fn framing_trims_as_the_standard_library_does() {
    for text in samples() {
        assert_eq!(
            frame_html(&text),
            format!("<#part type=text/html>\n{}\n<#/part>\n\n", text.trim_end()),
            "{text:?}"
        );
    }
}

#[test]
fn paths_are_joined_as_the_standard_library_does() {
    let dirs = ["", "/", "/tmp", "/tmp/", "~/Downloads", "a/b", "a//", ".", "é"];
    let names = ["", "a", "a.txt", "/abs", "/", "sub/a", "é.txt", "noname", "a/"];
    for dir in dirs {
        for name in names {
            assert_eq!(
                path_in(dir, name),
                Path::new(dir).join(name).to_string_lossy(),
                "{dir:?} {name:?}"
            );
        }
    }
}

#[test]
fn html_of_any_shape_is_converted() {
    let pieces = [
        "", "<", ">", "<a", "<a href=", "<a href=\"x\">", "</a>", "&", "&amp;", "&#x;", "&#65;",
        "<!--", "-->", "<script>", "</script", "<é>", "é", " ", "<br/>", "<p>", "&nbsp", "<a href='j'>é</a>",
    ];
    let i = Interpreter::new();
    for a in pieces {
        for b in pieces {
            for c in pieces {
                let html = format!("{a}{b}{c}");
                let out = i.interpret_text_html(&html);
                assert!(out.starts_with("<#part type=text/html>\n"), "{html:?}");
                assert!(out.ends_with("\n<#/part>\n\n"), "{html:?}");
            }
        }
    }
}
