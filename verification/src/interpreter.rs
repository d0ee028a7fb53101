//! The interpreter of message bodies: its settings, and the functions that interpret.

use crate::filter::FilterParts;
use crate::html::html2text;
use crate::header::{render_headers, ShowHeadersStrategy};
use crate::mime::{get_ctype, is_plain, Message, Part, PartBody};
use crate::piece::{lemma_pieces_add, lemma_pieces_push, pieces_view, Piece, PieceView};
use crate::plan::{
    attachment_pieces, clean, first_pick, framed_html, html_text, inline_attachment_pieces, is_child,
    join_path, opening, other_text, picks, plain_text, plan_children, plan_msg, plan_part, saving,
    text_alternative, text_pieces, Pick,
};
use crate::text::{
    chars_of, same_text, string_from_chars, strip_cr, strip_signature, text_is_blank, trimmed_len,
};
use vstd::prelude::*;
use vstd::string::*;

verus! {

broadcast use vstd::std_specs::vec::axiom_vec_index_decreases;

/// Interprets the body of a message as a template. It is set up first, each setter taking the
/// interpreter and giving it back; the functions that interpret borrow it and leave it as it is.
#[derive(Clone, Debug, PartialEq, Eq)]
pub struct Interpreter {
    show_multiparts: bool,
    filter_parts: FilterParts,
    show_plain_texts_signature: bool,
    show_attachments: bool,
    show_inline_attachments: bool,
    save_attachments: bool,
    save_attachments_dir: String,
    pgp_decrypt_cmd: String,
    pgp_verify_cmd: String,
}

/// The settings of an interpreter.
pub struct Settings {
    /// Whether containers are framed by markup. Without it their parts follow one another at
    /// the top level.
    pub show_multiparts: bool,
    /// Which parts are shown, by content type.
    pub filter_parts: FilterParts,
    /// Whether plain text keeps the signature that follows the line `-- `.
    pub show_plain_texts_signature: bool,
    /// Whether attachments are shown.
    pub show_attachments: bool,
    /// Whether inline attachments are shown.
    pub show_inline_attachments: bool,
    /// Whether the attachments that are shown are written to disk.
    pub save_attachments: bool,
    /// The directory that attachments are written to.
    pub save_attachments_dir: Seq<char>,
    /// The command that decrypts an encrypted part.
    pub pgp_decrypt_cmd: Seq<char>,
    /// The command that checks the signature of a signed part.
    pub pgp_verify_cmd: Seq<char>,
}

/// The settings of a new interpreter.
pub open spec fn default_settings() -> Settings {
    Settings {
        show_multiparts: false,
        filter_parts: FilterParts::All,
        show_plain_texts_signature: true,
        show_attachments: true,
        show_inline_attachments: true,
        save_attachments: false,
        save_attachments_dir: "/tmp"@,
        pgp_decrypt_cmd: "gpg --decrypt --quiet"@,
        pgp_verify_cmd: "gpg --verify --quiet --recipient <recipient>"@,
    }
}

impl View for Interpreter {
    type V = Settings;

    closed spec fn view(&self) -> Settings {
        Settings {
            show_multiparts: self.show_multiparts,
            filter_parts: self.filter_parts,
            show_plain_texts_signature: self.show_plain_texts_signature,
            show_attachments: self.show_attachments,
            show_inline_attachments: self.show_inline_attachments,
            save_attachments: self.save_attachments,
            save_attachments_dir: self.save_attachments_dir@,
            pgp_decrypt_cmd: self.pgp_decrypt_cmd@,
            pgp_verify_cmd: self.pgp_verify_cmd@,
        }
    }
}

/// Cleans a text: drops its carriage returns and the whitespace it ends with.
fn cleaned(text: &str) -> (res: String)
    ensures
        res@ == clean(text@),
{
    let mut chars = strip_cr(&chars_of(text));
    let k = trimmed_len(&chars, 0);
    assert(chars@.subrange(0, chars.len() as int) == chars@);
    chars.truncate(k);
    string_from_chars(&chars)
}

/// Frames an HTML document that was converted to plain text: trims it, and puts it between
/// the markup that names its type.
pub fn frame_html(converted: &str) -> (res: String)
    ensures
        res@ == framed_html(converted@),
{
    let mut chars = chars_of(converted);
    let k = trimmed_len(&chars, 0);
    assert(chars@.subrange(0, chars.len() as int) == chars@);
    chars.truncate(k);
    let body = string_from_chars(&chars);
    let mut out = String::from_str("<#part type=text/html>\n");
    out.append(body.as_str());
    out.append("\n<#/part>");
    out.append("\n\n");
    assert(out@ =~= framed_html(converted@));
    out
}

/// Joins a directory and a file name.
pub fn path_in(dir: &str, name: &str) -> (res: String)
    ensures
        res@ == join_path(dir@, name@),
{
    let n = chars_of(name);
    if n.len() > 0 && n[0] == '/' {
        return String::from_str(name);
    }
    let d = chars_of(dir);
    let mut out = String::from_str(dir);
    if d.len() > 0 && d[d.len() - 1] != '/' {
        out.append("/");
    }
    out.append(name);
    out
}

impl Interpreter {
    /// An interpreter with the default settings.
    pub fn new() -> (res: Self)
        ensures
            res@ == default_settings(),
    {
        Interpreter {
            show_multiparts: false,
            filter_parts: FilterParts::All,
            show_plain_texts_signature: true,
            show_attachments: true,
            show_inline_attachments: true,
            save_attachments: false,
            save_attachments_dir: String::from_str("/tmp"),
            pgp_decrypt_cmd: String::from_str("gpg --decrypt --quiet"),
            pgp_verify_cmd: String::from_str("gpg --verify --quiet --recipient <recipient>"),
        }
    }

    /// Sets whether containers are framed by markup.
    pub fn show_multiparts(self, b: bool) -> (res: Self)
        ensures
            res@ == (Settings { show_multiparts: b, ..self@ }),
    {
        Interpreter { show_multiparts: b, ..self }
    }

    /// Sets which parts are shown.
    pub fn filter_parts(self, f: FilterParts) -> (res: Self)
        ensures
            res@ == (Settings { filter_parts: f, ..self@ }),
    {
        Interpreter { filter_parts: f, ..self }
    }

    /// Sets whether plain text keeps its signature.
    pub fn show_plain_texts_signature(self, b: bool) -> (res: Self)
        ensures
            res@ == (Settings { show_plain_texts_signature: b, ..self@ }),
    {
        Interpreter { show_plain_texts_signature: b, ..self }
    }

    /// Sets whether attachments are shown.
    pub fn show_attachments(self, b: bool) -> (res: Self)
        ensures
            res@ == (Settings { show_attachments: b, ..self@ }),
    {
        Interpreter { show_attachments: b, ..self }
    }

    /// Sets whether inline attachments are shown.
    pub fn show_inline_attachments(self, b: bool) -> (res: Self)
        ensures
            res@ == (Settings { show_inline_attachments: b, ..self@ }),
    {
        Interpreter { show_inline_attachments: b, ..self }
    }

    /// Sets whether the attachments that are shown are written to disk.
    pub fn save_attachments(self, b: bool) -> (res: Self)
        ensures
            res@ == (Settings { save_attachments: b, ..self@ }),
    {
        Interpreter { save_attachments: b, ..self }
    }

    /// Sets the directory that attachments are written to.
    pub fn save_attachments_dir(self, dir: &str) -> (res: Self)
        ensures
            res@ == (Settings { save_attachments_dir: dir@, ..self@ }),
    {
        Interpreter { save_attachments_dir: String::from_str(dir), ..self }
    }

    /// Sets the command that decrypts an encrypted part.
    pub fn pgp_decrypt_cmd(self, cmd: &str) -> (res: Self)
        ensures
            res@ == (Settings { pgp_decrypt_cmd: cmd@, ..self@ }),
    {
        Interpreter { pgp_decrypt_cmd: String::from_str(cmd), ..self }
    }

    /// Sets the command that decrypts an encrypted part, where one is given.
    pub fn some_pgp_decrypt_cmd(self, cmd: Option<&str>) -> (res: Self)
        ensures
            res@ == match cmd {
                Some(c) => (Settings { pgp_decrypt_cmd: c@, ..self@ }),
                None => self@,
            },
    {
        match cmd {
            Some(c) => self.pgp_decrypt_cmd(c),
            None => self,
        }
    }

    /// Sets the command that checks the signature of a signed part.
    pub fn pgp_verify_cmd(self, cmd: &str) -> (res: Self)
        ensures
            res@ == (Settings { pgp_verify_cmd: cmd@, ..self@ }),
    {
        Interpreter { pgp_verify_cmd: String::from_str(cmd), ..self }
    }

    /// Sets the command that checks the signature of a signed part, where one is given.
    pub fn some_pgp_verify_cmd(self, cmd: Option<&str>) -> (res: Self)
        ensures
            res@ == match cmd {
                Some(c) => (Settings { pgp_verify_cmd: c@, ..self@ }),
                None => self@,
            },
    {
        match cmd {
            Some(c) => self.pgp_verify_cmd(c),
            None => self,
        }
    }

    /// Renders a plain text.
    pub fn interpret_text_plain(&self, plain: &str) -> (res: String)
        ensures
            res@ == plain_text(self@, plain@),
    {
        if self.filter_parts.contains("text/plain") {
            let mut chars = strip_cr(&chars_of(plain));
            if !self.show_plain_texts_signature {
                chars = strip_signature(chars);
            }
            let k = trimmed_len(&chars, 0);
            assert(chars@.subrange(0, chars.len() as int) == chars@);
            chars.truncate(k);
            let mut out = string_from_chars(&chars);
            out.append("\n\n");
            out
        } else {
            String::new()
        }
    }

    /// Renders a text of the type `ctype`.
    pub fn interpret_text(&self, ctype: &str, text: &str) -> (res: String)
        ensures
            res@ == other_text(self@, ctype@, text@),
    {
        if self.filter_parts.contains(ctype) {
            let body = cleaned(text);
            let mut out = String::new();
            if self.filter_parts.only(ctype) {
                out.append(body.as_str());
            } else {
                out.append("<#part type=");
                out.append(ctype);
                out.append(">\n");
                out.append(body.as_str());
                out.append("\n<#/part>");
            }
            out.append("\n\n");
            assert(out@ =~= other_text(self@, ctype@, text@));
            out
        } else {
            String::new()
        }
    }

    /// Renders an HTML document.
    pub fn interpret_text_html(&self, html: &str) -> (res: String)
        ensures
            res@ == html_text(self@, html@),
    {
        if self.filter_parts.contains("text/html") {
            if self.filter_parts.only("text/html") {
                let mut out = cleaned(html);
                out.append("\n\n");
                out
            } else {
                frame_html(html2text(html).as_str())
            }
        } else {
            String::new()
        }
    }

    /// The step that saves an attachment, where the settings ask for it.
    fn save_step(&self, path: &String, data: &Vec<u8>) -> (res: Vec<Piece>)
        ensures
            pieces_view(res@) == saving(self@, path@, data@),
    {
        let mut out: Vec<Piece> = Vec::new();
        if self.save_attachments {
            out.push(Piece::Save { path: path.clone(), data: vstd::slice::slice_to_vec(data.as_slice()) });
        }
        assert(pieces_view(out@) =~= saving(self@, path@, data@));
        out
    }

    /// Renders an attachment of the type `ctype`.
    pub fn interpret_attachment(&self, ctype: &str, part: &Part, data: &Vec<u8>) -> (res: Vec<Piece>)
        ensures
            pieces_view(res@) == attachment_pieces(self@, ctype@, *part, data@),
    {
        if self.show_attachments && self.filter_parts.contains(ctype) {
            let path = match &part.attachment_name {
                Some(name) => path_in(self.save_attachments_dir.as_str(), name.as_str()),
                None => path_in(self.save_attachments_dir.as_str(), "noname"),
            };
            let mut out = self.save_step(&path, data);
            let mut line = String::from_str("<#part type=");
            line.append(ctype);
            line.append(" filename=\"");
            line.append(path.as_str());
            line.append("\">\n\n");
            proof {
                crate::piece::lemma_pieces_push(out@, Piece::Text(line));
                assert(line@ =~= "<#part type="@ + ctype@ + " filename=\""@ + path@ + "\">\n\n"@);
            }
            out.push(Piece::Text(line));
            out
        } else {
            let out: Vec<Piece> = Vec::new();
            assert(pieces_view(out@) =~= Seq::<PieceView>::empty());
            out
        }
    }

    /// Renders an inline attachment. Whether it is shown goes by `ctype`; the markup names the
    /// type of the part.
    pub fn interpret_inline_attachment(&self, ctype: &str, part: &Part, data: &Vec<u8>) -> (res:
        Vec<Piece>)
        ensures
            pieces_view(res@) == inline_attachment_pieces(self@, ctype@, *part, data@),
    {
        if self.show_inline_attachments && self.filter_parts.contains(ctype) {
            let own = crate::mime::get_ctype(part);
            let path = match &part.attachment_name {
                Some(name) => path_in(self.save_attachments_dir.as_str(), name.as_str()),
                None => match &part.content_id {
                    Some(id) => path_in(self.save_attachments_dir.as_str(), id.as_str()),
                    None => path_in(self.save_attachments_dir.as_str(), "noname"),
                },
            };
            let mut out = self.save_step(&path, data);
            let mut line = String::from_str("<#part type=");
            line.append(own.as_str());
            line.append(" disposition=inline filename=\"");
            line.append(path.as_str());
            line.append("\">\n\n");
            proof {
                crate::piece::lemma_pieces_push(out@, Piece::Text(line));
                assert(line@ =~= "<#part type="@ + part.ctype() + " disposition=inline filename=\""@
                    + path@ + "\">\n\n"@);
            }
            out.push(Piece::Text(line));
            out
        } else {
            let out: Vec<Piece> = Vec::new();
            assert(pieces_view(out@) =~= Seq::<PieceView>::empty());
            out
        }
    }
}

/// Appends the step that writes `s`, where there is anything to write.
fn push_text(out: &mut Vec<Piece>, s: String)
    ensures
        pieces_view(final(out)@) == pieces_view(old(out)@) + text_pieces(s@),
{
    if !s.as_str().is_empty() {
        proof {
            lemma_pieces_push(out@, Piece::Text(s));
        }
        out.push(Piece::Text(s));
        assert(pieces_view(out@) =~= pieces_view(old(out)@) + text_pieces(s@));
    } else {
        assert(pieces_view(out@) =~= pieces_view(old(out)@) + text_pieces(s@));
    }
}

/// Appends the steps of `more`.
fn push_pieces(out: &mut Vec<Piece>, more: Vec<Piece>)
    ensures
        pieces_view(final(out)@) == pieces_view(old(out)@) + pieces_view(more@),
{
    let mut more = more;
    proof {
        lemma_pieces_add(out@, more@);
    }
    out.append(&mut more);
}

impl Interpreter {
    /// Decides whether `part` is what `pick` looks for.
    fn part_picks(&self, pick: Pick, part: &Part) -> (res: bool)
        ensures
            res == picks(self@, pick, *part),
    {
        match pick {
            Pick::Plain => match &part.body {
                PartBody::Text(t) => is_plain(part) && !text_is_blank(&chars_of(t.as_str())),
                _ => false,
            },
            Pick::Html => match &part.body {
                PartBody::Html(t) => !text_is_blank(&chars_of(t.as_str())),
                _ => false,
            },
            Pick::Text => match &part.body {
                PartBody::Text(t) => !text_is_blank(&chars_of(t.as_str())),
                _ => false,
            },
            Pick::Shown => {
                let ctype = get_ctype(part);
                self.filter_parts.contains(ctype.as_str())
            },
        }
    }

    /// Finds the first child of the part at `id` that `pick` looks for.
    fn find_child(&self, pick: Pick, msg: &Message, id: usize, ids: &Vec<usize>) -> (res: Option<
        usize,
    >)
        ensures
            match res {
                Some(c) => first_pick(self@, pick, *msg, id as int, ids@, 0) == Some(c as int)
                    && is_child(*msg, id as int, c as int) && picks(
                    self@,
                    pick,
                    msg.parts[c as int],
                ),
                None => first_pick(self@, pick, *msg, id as int, ids@, 0) is None,
            },
    {
        let mut k: usize = 0;
        while k < ids.len()
            invariant
                k <= ids.len(),
                first_pick(self@, pick, *msg, id as int, ids@, 0) == first_pick(
                    self@,
                    pick,
                    *msg,
                    id as int,
                    ids@,
                    k as int,
                ),
            decreases ids.len() - k,
        {
            let c = ids[k];
            if id < c && c < msg.parts.len() && self.part_picks(pick, &msg.parts[c]) {
                return Some(c);
            }
            k += 1;
        }
        None
    }

    /// Renders the text alternative of a container, where it has one.
    fn interpret_text_alternative(&self, msg: &Message, id: usize, ids: &Vec<usize>) -> (res:
        Option<String>)
        ensures
            match res {
                Some(s) => text_alternative(self@, *msg, id as int, ids@) == Some(s@),
                None => text_alternative(self@, *msg, id as int, ids@) is None,
            },
    {
        if let Some(c) = self.find_child(Pick::Plain, msg, id, ids) {
            if let PartBody::Text(t) = &msg.parts[c].body {
                return Some(self.interpret_text_plain(t.as_str()));
            }
        }
        if let Some(c) = self.find_child(Pick::Html, msg, id, ids) {
            if let PartBody::Html(t) = &msg.parts[c].body {
                return Some(self.interpret_text_html(t.as_str()));
            }
        }
        if let Some(c) = self.find_child(Pick::Text, msg, id, ids) {
            if let PartBody::Text(t) = &msg.parts[c].body {
                let ctype = get_ctype(&msg.parts[c]);
                return Some(self.interpret_text(ctype.as_str(), t.as_str()));
            }
        }
        None
    }

    /// Appends to `out` the steps that interpret the part at `id` of `msg`.
    fn interpret_part(
        &self,
        head: &Option<ShowHeadersStrategy>,
        msg: &Message,
        id: usize,
        out: &mut Vec<Piece>,
    )
        requires
            id < msg.parts.len(),
        ensures
            pieces_view(final(out)@) == pieces_view(old(out)@) + plan_part(
                self@,
                *head,
                *msg,
                id as int,
            ),
        decreases msg, msg.parts.len() - id,
    {
        let part = &msg.parts[id];
        let ctype = get_ctype(part);
        match &part.body {
            PartBody::Text(t) => {
                if same_text(ctype.as_str(), "text/plain") {
                    push_text(out, self.interpret_text_plain(t.as_str()));
                } else {
                    push_text(out, self.interpret_text(ctype.as_str(), t.as_str()));
                }
            },
            PartBody::Html(h) => {
                push_text(out, self.interpret_text_html(h.as_str()));
            },
            PartBody::Binary(d) => {
                push_pieces(out, self.interpret_attachment(ctype.as_str(), part, d));
            },
            PartBody::InlineBinary(d) => {
                push_pieces(out, self.interpret_inline_attachment(ctype.as_str(), part, d));
            },
            PartBody::Message(m) => {
                self.interpret_document(head, m, out);
            },
            PartBody::Multipart(ids) => {
                if same_text(ctype.as_str(), "multipart/alternative") {
                    let text = match &self.filter_parts {
                        FilterParts::All => self.interpret_text_alternative(msg, id, ids),
                        _ => None,
                    };
                    match text {
                        Some(s) => {
                            push_text(out, s);
                        },
                        None => match self.find_child(Pick::Shown, msg, id, ids) {
                            Some(c) => {
                                self.interpret_part(head, msg, c, out);
                            },
                            None => {
                                assert(pieces_view(out@) + Seq::<PieceView>::empty() =~= pieces_view(
                                    out@,
                                ));
                            },
                        },
                    }
                } else if same_text(ctype.as_str(), "multipart/encrypted") {
                    if ids.len() >= 2 && id < ids[1] && ids[1] < msg.parts.len() {
                        let step = Piece::Decrypt {
                            command: self.pgp_decrypt_cmd.clone(),
                            payload: msg.parts[ids[1]].get_contents(),
                        };
                        proof {
                            lemma_pieces_push(out@, step);
                        }
                        out.push(step);
                        assert(pieces_view(out@) =~= pieces_view(old(out)@) + plan_part(
                            self@,
                            *head,
                            *msg,
                            id as int,
                        ));
                    } else {
                        assert(pieces_view(out@) + Seq::<PieceView>::empty() =~= pieces_view(out@));
                    }
                } else if same_text(ctype.as_str(), "multipart/signed") {
                    if ids.len() >= 2 && id < ids[0] && ids[0] < msg.parts.len() && id < ids[1]
                        && ids[1] < msg.parts.len() {
                        let step = Piece::Verify {
                            command: self.pgp_verify_cmd.clone(),
                            signature: msg.parts[ids[1]].get_contents(),
                        };
                        proof {
                            lemma_pieces_push(out@, step);
                        }
                        out.push(step);
                        self.interpret_part(head, msg, ids[0], out);
                        assert(pieces_view(out@) =~= pieces_view(old(out)@) + plan_part(
                            self@,
                            *head,
                            *msg,
                            id as int,
                        ));
                    } else {
                        assert(pieces_view(out@) + Seq::<PieceView>::empty() =~= pieces_view(out@));
                    }
                } else if same_text(ctype.as_str(), "application/pgp-encrypted") || same_text(
                    ctype.as_str(),
                    "application/pgp-signature",
                ) {
                    assert(pieces_view(out@) + Seq::<PieceView>::empty() =~= pieces_view(out@));
                } else {
                    if self.show_multiparts {
                        let mut line = String::from_str("<#multipart type=");
                        line.append(part.get_subtype_or_mixed().as_str());
                        line.append(">\n\n");
                        proof {
                            lemma_pieces_push(out@, Piece::Text(line));
                        }
                        out.push(Piece::Text(line));
                    }
                    assert(pieces_view(out@) =~= pieces_view(old(out)@) + opening(self@, *part));
                    let ghost base = pieces_view(out@);
                    let mut k: usize = 0;
                    while k < ids.len()
                        invariant
                            k <= ids.len(),
                            id < msg.parts.len(),
                            pieces_view(out@) + plan_children(
                                self@,
                                *head,
                                *msg,
                                id as int,
                                ids@,
                                k as int,
                            ) == base + plan_children(self@, *head, *msg, id as int, ids@, 0),
                        decreases ids.len() - k,
                    {
                        let c = ids[k];
                        let ghost before = pieces_view(out@);
                        let ghost rest = plan_children(
                            self@,
                            *head,
                            *msg,
                            id as int,
                            ids@,
                            k + 1,
                        );
                        if id < c && c < msg.parts.len() {
                            self.interpret_part(head, msg, c, out);
                            assert(pieces_view(out@) + rest =~= before + (plan_part(
                                self@,
                                *head,
                                *msg,
                                c as int,
                            ) + rest));
                        } else {
                            assert(pieces_view(out@) + rest =~= before + (Seq::<PieceView>::empty()
                                + rest));
                        }
                        k += 1;
                    }
                    assert(pieces_view(out@) =~= base + plan_children(
                        self@,
                        *head,
                        *msg,
                        id as int,
                        ids@,
                        0,
                    ));
                    if self.show_multiparts {
                        let line = String::from_str("<#/multipart>\n\n");
                        proof {
                            lemma_pieces_push(out@, Piece::Text(line));
                        }
                        out.push(Piece::Text(line));
                    }
                    assert(pieces_view(out@) =~= pieces_view(old(out)@) + plan_part(
                        self@,
                        *head,
                        *msg,
                        id as int,
                    ));
                }
            },
        }
    }

    /// Appends to `out` the steps that interpret `msg`: those of its body, framed as a document
    /// where `head` says which headers to show.
    fn interpret_document(
        &self,
        head: &Option<ShowHeadersStrategy>,
        msg: &Message,
        out: &mut Vec<Piece>,
    )
        ensures
            pieces_view(final(out)@) == pieces_view(old(out)@) + plan_msg(self@, *head, *msg),
        decreases msg, msg.parts.len() + 1,
    {
        match head {
            None => {
                if msg.parts.len() > 0 {
                    self.interpret_part(head, msg, 0, out);
                } else {
                    assert(pieces_view(out@) + Seq::<PieceView>::empty() =~= pieces_view(out@));
                }
            },
            Some(strategy) => {
                push_text(out, render_headers(strategy, msg));
                proof {
                    lemma_pieces_push(out@, Piece::Open);
                }
                out.push(Piece::Open);
                if msg.parts.len() > 0 {
                    self.interpret_part(head, msg, 0, out);
                }
                proof {
                    lemma_pieces_push(out@, Piece::Close);
                }
                out.push(Piece::Close);
                assert(pieces_view(out@) =~= pieces_view(old(out)@) + plan_msg(
                    self@,
                    *head,
                    *msg,
                ));
            },
        }
    }

    /// Interprets `msg` as `plan_msg` says: as a document with its header block where `head`
    /// names the headers to show, else as a body.
    pub fn interpret_with_headers(&self, head: &Option<ShowHeadersStrategy>, msg: &Message) -> (res:
        Vec<Piece>)
        ensures
            pieces_view(res@) == plan_msg(self@, *head, *msg),
    {
        let mut out: Vec<Piece> = Vec::new();
        assert(pieces_view(out@) =~= Seq::<PieceView>::empty());
        self.interpret_document(head, msg, &mut out);
        assert(Seq::<PieceView>::empty() + plan_msg(self@, *head, *msg) =~= plan_msg(
            self@,
            *head,
            *msg,
        ));
        out
    }

    /// Interprets the body of `msg`, the messages that it carries as `head` says.
    pub fn interpret_body(&self, head: &Option<ShowHeadersStrategy>, msg: &Message) -> (res: Vec<
        Piece,
    >)
        ensures
            pieces_view(res@) == plan_part(self@, *head, *msg, 0),
    {
        let mut out: Vec<Piece> = Vec::new();
        assert(pieces_view(out@) =~= Seq::<PieceView>::empty());
        if msg.parts.len() > 0 {
            self.interpret_part(head, msg, 0, &mut out);
        }
        assert(Seq::<PieceView>::empty() + plan_part(self@, *head, *msg, 0) =~= plan_part(
            self@,
            *head,
            *msg,
            0,
        ));
        out
    }

    /// Interprets the body of `msg`: the steps that write the template and name the work to
    /// do on the way, in order. A message carried as a part gives the steps of its own body.
    pub fn interpret_msg(&self, msg: &Message) -> (res: Vec<Piece>)
        ensures
            pieces_view(res@) == plan_msg(self@, None, *msg),
    {
        let mut out: Vec<Piece> = Vec::new();
        assert(pieces_view(out@) =~= Seq::<PieceView>::empty());
        self.interpret_document(&None, msg, &mut out);
        assert(Seq::<PieceView>::empty() + plan_msg(self@, None, *msg) =~= plan_msg(
            self@,
            None,
            *msg,
        ));
        out
    }
}

impl Default for Interpreter {
    fn default() -> (res: Self)
        ensures
            res@ == default_settings(),
    {
        Interpreter::new()
    }
}

} // verus!
