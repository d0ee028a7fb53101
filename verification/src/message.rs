//! The interpreter of whole messages: a header block, then the body.

use crate::filter::{list_contains, FilterParts};
use crate::header::{lemma_has_text_names, names_of, HeadersView, ShowHeadersStrategy};
use crate::interpreter::{default_settings, Interpreter, Settings};
use crate::plan::plan_msg;
use crate::mime::Message;
use crate::piece::{pieces_view, Piece};
use crate::session::{blank, Session, SessionView};
use vstd::prelude::*;

verus! {

/// The commands that decrypt and verify parts.
#[derive(Clone, Debug, PartialEq, Eq)]
pub struct Pgp {
    pub decrypt_cmd: String,
    pub verify_cmd: String,
}

/// Interprets a message as a template that starts with a header block. It is set up first,
/// each setter taking the interpreter and giving it back.
#[derive(Clone, Debug, PartialEq, Eq)]
pub struct MimeInterpreter {
    show_headers: ShowHeadersStrategy,
    mime_body_interpreter: Interpreter,
}

/// The settings of a message interpreter.
pub struct MimeSettings {
    /// Which headers are shown.
    pub show_headers: ShowHeadersStrategy,
    /// The settings of the body interpreter.
    pub body: Settings,
}

impl View for MimeInterpreter {
    type V = MimeSettings;

    closed spec fn view(&self) -> MimeSettings {
        MimeSettings { show_headers: self.show_headers, body: self.mime_body_interpreter@ }
    }
}

/// The names of a list without those that occurred before in it.
pub open spec fn dedup(names: Seq<Seq<char>>) -> Seq<Seq<char>> {
    additional(Seq::empty(), names)
}

/// The names of `names` that are neither in `shown` nor earlier in `names`, in order.
pub open spec fn additional(shown: Seq<Seq<char>>, names: Seq<Seq<char>>) -> Seq<Seq<char>>
    decreases names.len(),
{
    if names.len() == 0 {
        Seq::empty()
    } else {
        let before = additional(shown, names.drop_last());
        if before.contains(names.last()) || shown.contains(names.last()) {
            before
        } else {
            before.push(names.last())
        }
    }
}

/// The names that a strategy lists; none where it shows every header.
pub open spec fn listed(strategy: HeadersView) -> Seq<Seq<char>> {
    match strategy {
        HeadersView::All => Seq::empty(),
        HeadersView::Only(names) => names,
    }
}

/// Collects the names of `headers` that are neither in `shown` nor earlier in `headers`.
fn collect_new(shown: &ShowHeadersStrategy, headers: &Vec<String>) -> (res: Vec<String>)
    ensures
        names_of(res@) == additional(listed(shown@), names_of(headers@)),
{
    let mut out: Vec<String> = Vec::new();
    let mut i: usize = 0;
    assert(names_of(out@) =~= Seq::empty());
    assert(names_of(headers@.take(0)) =~= Seq::empty());
    while i < headers.len()
        invariant
            i <= headers.len(),
            names_of(out@) == additional(listed(shown@), names_of(headers@.take(i as int))),
        decreases headers.len() - i,
    {
        let ghost before = names_of(out@);
        let ghost name = headers@[i as int]@;
        proof {
            assert(names_of(headers@.take(i + 1)).drop_last() =~= names_of(
                headers@.take(i as int),
            ));
            assert(names_of(headers@.take(i + 1)).last() == name);
            lemma_has_text_names(out@, name);
            match shown {
                ShowHeadersStrategy::All => {},
                ShowHeadersStrategy::Only(list) => {
                    lemma_has_text_names(list@, name);
                },
            }
        }
        if !list_contains(&out, headers[i].as_str()) && !shown.contains(&headers[i]) {
            out.push(headers[i].clone());
            assert(names_of(out@) =~= before.push(name));
        }
        i += 1;
    }
    assert(headers@.take(headers.len() as int) == headers@);
    out
}

impl MimeInterpreter {
    /// An interpreter that shows every header, with the default settings for the body.
    pub fn new() -> (res: Self)
        ensures
            res@.show_headers@ == HeadersView::All,
            res@.body == default_settings(),
    {
        MimeInterpreter {
            show_headers: ShowHeadersStrategy::All,
            mime_body_interpreter: Interpreter::new(),
        }
    }

    /// Sets which headers are shown.
    pub fn with_show_headers(self, s: ShowHeadersStrategy) -> (res: Self)
        ensures
            res@ == (MimeSettings { show_headers: s, ..self@ }),
    {
        MimeInterpreter { show_headers: s, ..self }
    }

    /// Shows every header.
    pub fn with_show_all_headers(self) -> (res: Self)
        ensures
            res@ == (MimeSettings { show_headers: ShowHeadersStrategy::All, ..self@ }),
    {
        MimeInterpreter { show_headers: ShowHeadersStrategy::All, ..self }
    }

    /// Shows only the headers named, in the order given; a name given twice counts once.
    pub fn with_show_only_headers(self, headers: Vec<String>) -> (res: Self)
        ensures
            res@.show_headers@ == HeadersView::Only(dedup(names_of(headers@))),
            res@.body == self@.body,
    {
        let list = collect_new(&ShowHeadersStrategy::All, &headers);
        MimeInterpreter { show_headers: ShowHeadersStrategy::Only(list), ..self }
    }

    /// Shows the headers named besides those already listed: the new names follow the list, in
    /// the order given, each once. An interpreter that showed every header shows only the
    /// headers named from then on.
    pub fn with_show_additional_headers(self, headers: Vec<String>) -> (res: Self)
        ensures
            res@.show_headers@ == HeadersView::Only(
                listed(self@.show_headers@) + additional(
                    listed(self@.show_headers@),
                    names_of(headers@),
                ),
            ),
            res@.body == self@.body,
    {
        let mut next = collect_new(&self.show_headers, &headers);
        let MimeInterpreter { show_headers, mime_body_interpreter } = self;
        match show_headers {
            ShowHeadersStrategy::All => {
                assert(Seq::<Seq<char>>::empty() + names_of(next@) =~= names_of(next@));
                MimeInterpreter {
                    show_headers: ShowHeadersStrategy::Only(next),
                    mime_body_interpreter,
                }
            },
            ShowHeadersStrategy::Only(list) => {
                let mut list = list;
                let ghost old_list = list@;
                let ghost new_list = next@;
                list.append(&mut next);
                assert(names_of(list@) =~= names_of(old_list) + names_of(new_list));
                MimeInterpreter {
                    show_headers: ShowHeadersStrategy::Only(list),
                    mime_body_interpreter,
                }
            },
        }
    }

    /// Shows no header.
    pub fn with_hide_all_headers(self) -> (res: Self)
        ensures
            res@.show_headers@ == HeadersView::Only(Seq::empty()),
            res@.body == self@.body,
    {
        let list: Vec<String> = Vec::new();
        assert(names_of(list@) =~= Seq::empty());
        MimeInterpreter { show_headers: ShowHeadersStrategy::Only(list), ..self }
    }

    /// Sets whether containers are framed by markup.
    pub fn with_show_multiparts(self, b: bool) -> (res: Self)
        ensures
            res@ == (MimeSettings {
                body: (Settings { show_multiparts: b, ..self@.body }),
                ..self@
            }),
    {
        let MimeInterpreter { show_headers, mime_body_interpreter } = self;
        MimeInterpreter {
            show_headers,
            mime_body_interpreter: mime_body_interpreter.show_multiparts(b),
        }
    }

    /// Sets which parts are shown.
    pub fn with_filter_parts(self, f: FilterParts) -> (res: Self)
        ensures
            res@ == (MimeSettings { body: (Settings { filter_parts: f, ..self@.body }), ..self@ }),
    {
        let MimeInterpreter { show_headers, mime_body_interpreter } = self;
        MimeInterpreter {
            show_headers,
            mime_body_interpreter: mime_body_interpreter.filter_parts(f),
        }
    }

    /// Sets whether plain text keeps its signature.
    pub fn with_show_plain_texts_signature(self, b: bool) -> (res: Self)
        ensures
            res@ == (MimeSettings {
                body: (Settings { show_plain_texts_signature: b, ..self@.body }),
                ..self@
            }),
    {
        let MimeInterpreter { show_headers, mime_body_interpreter } = self;
        MimeInterpreter {
            show_headers,
            mime_body_interpreter: mime_body_interpreter.show_plain_texts_signature(b),
        }
    }

    /// Sets whether attachments are shown.
    pub fn with_show_attachments(self, b: bool) -> (res: Self)
        ensures
            res@ == (MimeSettings {
                body: (Settings { show_attachments: b, ..self@.body }),
                ..self@
            }),
    {
        let MimeInterpreter { show_headers, mime_body_interpreter } = self;
        MimeInterpreter {
            show_headers,
            mime_body_interpreter: mime_body_interpreter.show_attachments(b),
        }
    }

    /// Sets whether inline attachments are shown.
    pub fn with_show_inline_attachments(self, b: bool) -> (res: Self)
        ensures
            res@ == (MimeSettings {
                body: (Settings { show_inline_attachments: b, ..self@.body }),
                ..self@
            }),
    {
        let MimeInterpreter { show_headers, mime_body_interpreter } = self;
        MimeInterpreter {
            show_headers,
            mime_body_interpreter: mime_body_interpreter.show_inline_attachments(b),
        }
    }

    /// Sets whether the attachments that are shown are written to disk.
    pub fn with_save_attachments(self, b: bool) -> (res: Self)
        ensures
            res@ == (MimeSettings {
                body: (Settings { save_attachments: b, ..self@.body }),
                ..self@
            }),
    {
        let MimeInterpreter { show_headers, mime_body_interpreter } = self;
        MimeInterpreter {
            show_headers,
            mime_body_interpreter: mime_body_interpreter.save_attachments(b),
        }
    }

    /// Sets the directory that attachments are written to.
    pub fn with_save_attachments_dir(self, dir: &str) -> (res: Self)
        ensures
            res@ == (MimeSettings {
                body: (Settings { save_attachments_dir: dir@, ..self@.body }),
                ..self@
            }),
    {
        let MimeInterpreter { show_headers, mime_body_interpreter } = self;
        MimeInterpreter {
            show_headers,
            mime_body_interpreter: mime_body_interpreter.save_attachments_dir(dir),
        }
    }

    /// Sets the commands that decrypt and verify parts.
    pub fn with_pgp(self, pgp: Pgp) -> (res: Self)
        ensures
            res@ == (MimeSettings {
                body: (Settings {
                    pgp_decrypt_cmd: pgp.decrypt_cmd@,
                    pgp_verify_cmd: pgp.verify_cmd@,
                    ..self@.body
                }),
                ..self@
            }),
    {
        let MimeInterpreter { show_headers, mime_body_interpreter } = self;
        MimeInterpreter {
            show_headers,
            mime_body_interpreter: mime_body_interpreter.pgp_decrypt_cmd(
                pgp.decrypt_cmd.as_str(),
            ).pgp_verify_cmd(pgp.verify_cmd.as_str()),
        }
    }

    /// Interprets `msg` as a document: the steps that write its header block and its body and
    /// name the work to do on the way, in order. A message carried as a part is a document of
    /// its own, with the same headers shown.
    pub fn interpret_msg(self, msg: &Message) -> (res: Vec<Piece>)
        ensures
            pieces_view(res@) == plan_msg(self@.body, Some(self@.show_headers), *msg),
    {
        let MimeInterpreter { show_headers, mime_body_interpreter } = self;
        mime_body_interpreter.interpret_with_headers(&Some(show_headers), msg)
    }

    /// Starts the interpretation of `msg` as a document.
    pub fn begin(self, msg: &Message) -> (res: Session)
        ensures
            res@ == (SessionView {
                settings: self@.body,
                head: Some(self@.show_headers),
                canvas: blank(),
                pending: plan_msg(self@.body, Some(self@.show_headers), *msg),
                waiting: None,
            }),
    {
        let MimeInterpreter { show_headers, mime_body_interpreter } = self;
        Session::new(mime_body_interpreter, Some(show_headers), msg)
    }
}

impl Default for MimeInterpreter {
    fn default() -> (res: Self)
        ensures
            res@.show_headers@ == HeadersView::All,
            res@.body == default_settings(),
    {
        MimeInterpreter::new()
    }
}

} // verus!
