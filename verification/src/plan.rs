//! What an interpretation is: the text that each kind of part gives, which alternative is
//! taken, and the steps that interpret a part, a container and a message.

use crate::header::{header_block, ShowHeadersStrategy};
use crate::html::html_to_text;
use crate::interpreter::Settings;
use crate::mime::{Message, Part, PartBody};
use crate::piece::PieceView;
use crate::text::{is_blank, trim_end, without_cr, without_signature};
use vstd::prelude::*;

verus! {

broadcast use vstd::std_specs::vec::axiom_vec_index_decreases;

/// A text without its carriage returns and the whitespace it ends with.
pub open spec fn clean(text: Seq<char>) -> Seq<char> {
    trim_end(without_cr(text))
}

/// How plain text is rendered: without carriage returns, without its signature where the
/// settings hide signatures, trimmed, and followed by an empty line. Never inside markup.
pub open spec fn plain_text(cfg: Settings, text: Seq<char>) -> Seq<char> {
    if cfg.filter_parts.is_visible("text/plain"@) {
        let body = without_cr(text);
        let body = if cfg.show_plain_texts_signature {
            body
        } else {
            without_signature(body)
        };
        trim_end(body) + "\n\n"@
    } else {
        Seq::empty()
    }
}

/// How text of another type than plain or HTML is rendered: bare where its type is the only
/// one shown, else framed by markup that names the type.
pub open spec fn other_text(cfg: Settings, ctype: Seq<char>, text: Seq<char>) -> Seq<char> {
    if cfg.filter_parts.is_visible(ctype) {
        if cfg.filter_parts.is_sole_focus(ctype) {
            clean(text) + "\n\n"@
        } else {
            "<#part type="@ + ctype + ">\n"@ + clean(text) + "\n<#/part>"@ + "\n\n"@
        }
    } else {
        Seq::empty()
    }
}

/// An HTML document that was converted to plain text, as it is rendered: trimmed, and framed
/// by markup that names its type.
pub open spec fn framed_html(converted: Seq<char>) -> Seq<char> {
    "<#part type=text/html>\n"@ + trim_end(converted) + "\n<#/part>"@ + "\n\n"@
}

/// How HTML is rendered: as it is where HTML is the only type shown, else converted to plain
/// text and framed by markup.
pub open spec fn html_text(cfg: Settings, html: Seq<char>) -> Seq<char> {
    if cfg.filter_parts.is_visible("text/html"@) {
        if cfg.filter_parts.is_sole_focus("text/html"@) {
            clean(html) + "\n\n"@
        } else {
            framed_html(html_to_text(html))
        }
    } else {
        Seq::empty()
    }
}

/// The path of `name` inside `dir`: `name` itself where it starts at the root, else `dir`, a
/// separator unless `dir` is empty or ends with one, and `name`.
pub open spec fn join_path(dir: Seq<char>, name: Seq<char>) -> Seq<char> {
    if name.len() > 0 && name[0] == '/' {
        name
    } else if dir.len() == 0 || dir.last() == '/' {
        dir + name
    } else {
        dir + "/"@ + name
    }
}

/// The file name of an attachment: the name it declares, else `noname`.
pub open spec fn attachment_name(part: Part) -> Seq<char> {
    match part.attachment_name {
        Some(name) => name@,
        None => "noname"@,
    }
}

/// The file name of an inline attachment: the name it declares, else its content id, else
/// `noname`.
pub open spec fn inline_attachment_name(part: Part) -> Seq<char> {
    match part.attachment_name {
        Some(name) => name@,
        None => match part.content_id {
            Some(id) => id@,
            None => "noname"@,
        },
    }
}

/// The step that writes an attachment, where the settings ask for it.
pub open spec fn saving(cfg: Settings, path: Seq<char>, data: Seq<u8>) -> Seq<PieceView> {
    if cfg.save_attachments {
        seq![PieceView::Save { path, data }]
    } else {
        Seq::empty()
    }
}

/// How an attachment is rendered: one line of markup that names its type and where it is
/// saved, after the step that saves it.
pub open spec fn attachment_pieces(cfg: Settings, ctype: Seq<char>, part: Part, data: Seq<u8>) -> Seq<
    PieceView,
> {
    if cfg.show_attachments && cfg.filter_parts.is_visible(ctype) {
        let path = join_path(cfg.save_attachments_dir, attachment_name(part));
        saving(cfg, path, data).push(
            PieceView::Text("<#part type="@ + ctype + " filename=\""@ + path + "\">\n\n"@),
        )
    } else {
        Seq::empty()
    }
}

/// How an inline attachment is rendered: as an attachment, with its disposition in the markup.
pub open spec fn inline_attachment_pieces(
    cfg: Settings,
    ctype: Seq<char>,
    part: Part,
    data: Seq<u8>,
) -> Seq<PieceView> {
    if cfg.show_inline_attachments && cfg.filter_parts.is_visible(ctype) {
        let path = join_path(cfg.save_attachments_dir, inline_attachment_name(part));
        saving(cfg, path, data).push(
            PieceView::Text(
                "<#part type="@ + part.ctype() + " disposition=inline filename=\""@ + path
                    + "\">\n\n"@,
            ),
        )
    } else {
        Seq::empty()
    }
}

/// What the interpreter looks for among the alternatives of a container.
#[derive(Clone, Copy, Debug, PartialEq, Eq)]
pub enum Pick {
    /// A plain text that is not blank.
    Plain,
    /// An HTML document that is not blank.
    Html,
    /// A text of any type that is not blank.
    Text,
    /// A part whose type the filter shows.
    Shown,
}

/// The text that a part carries; nothing where it carries no text.
pub open spec fn body_text(part: Part) -> Seq<char> {
    match part.body {
        PartBody::Text(t) => t@,
        PartBody::Html(t) => t@,
        _ => Seq::empty(),
    }
}

/// Whether `part` is what `pick` looks for.
pub open spec fn picks(cfg: Settings, pick: Pick, part: Part) -> bool {
    match pick {
        Pick::Plain => part.body is Text && part.ctype() == "text/plain"@ && !is_blank(
            body_text(part),
        ),
        Pick::Html => part.body is Html && !is_blank(body_text(part)),
        Pick::Text => part.body is Text && !is_blank(body_text(part)),
        Pick::Shown => cfg.filter_parts.is_visible(part.ctype()),
    }
}

/// Whether `c` is the position of a child of the part at `id`: it is in the table, after `id`.
pub open spec fn is_child(msg: Message, id: int, c: int) -> bool {
    0 <= id < c < msg.parts.len()
}

/// The first child among `ids[k..]` of the part at `id` that `pick` looks for.
pub open spec fn first_pick(
    cfg: Settings,
    pick: Pick,
    msg: Message,
    id: int,
    ids: Seq<usize>,
    k: int,
) -> Option<int>
    decreases ids.len() - k,
{
    if k < 0 || k >= ids.len() {
        None
    } else if is_child(msg, id, ids[k] as int) && picks(cfg, pick, msg.parts[ids[k] as int]) {
        Some(ids[k] as int)
    } else {
        first_pick(cfg, pick, msg, id, ids, k + 1)
    }
}

/// What is rendered for a container of alternatives.
pub enum Choice {
    /// This text, rendered from one of the alternatives.
    Leaf(Seq<char>),
    /// The interpretation of the child at this position.
    Child(int),
    /// Nothing.
    Nothing,
}

/// The text alternative that is rendered when every part is shown: the first plain text that
/// is not blank; else the first HTML document that is not blank; else the first text of any
/// type that is not blank.
pub open spec fn text_alternative(cfg: Settings, msg: Message, id: int, ids: Seq<usize>) -> Option<
    Seq<char>,
> {
    match first_pick(cfg, Pick::Plain, msg, id, ids, 0) {
        Some(c) => Some(plain_text(cfg, body_text(msg.parts[c]))),
        None => match first_pick(cfg, Pick::Html, msg, id, ids, 0) {
            Some(c) => Some(html_text(cfg, body_text(msg.parts[c]))),
            None => match first_pick(cfg, Pick::Text, msg, id, ids, 0) {
                Some(c) => Some(other_text(cfg, msg.parts[c].ctype(), body_text(msg.parts[c]))),
                None => None,
            },
        },
    }
}

/// The one alternative that is rendered. When every part is shown, a text alternative where
/// there is one, else the first child. Under any other filter, the first child whose type the
/// filter shows.
pub open spec fn alternative(cfg: Settings, msg: Message, id: int, ids: Seq<usize>) -> Choice {
    let text = if cfg.filter_parts is All {
        text_alternative(cfg, msg, id, ids)
    } else {
        None
    };
    match text {
        Some(s) => Choice::Leaf(s),
        None => match first_pick(cfg, Pick::Shown, msg, id, ids, 0) {
            Some(c) => Choice::Child(c),
            None => Choice::Nothing,
        },
    }
}

/// The step that writes `s`; no step where there is nothing to write.
pub open spec fn text_pieces(s: Seq<char>) -> Seq<PieceView> {
    if s.len() == 0 {
        Seq::empty()
    } else {
        seq![PieceView::Text(s)]
    }
}

/// The markup that opens a container, where the settings show containers.
pub open spec fn opening(cfg: Settings, part: Part) -> Seq<PieceView> {
    if cfg.show_multiparts {
        seq![PieceView::Text("<#multipart type="@ + part.subtype_or_mixed() + ">\n\n"@)]
    } else {
        Seq::empty()
    }
}

/// The markup that closes a container, where the settings show containers.
pub open spec fn closing(cfg: Settings) -> Seq<PieceView> {
    if cfg.show_multiparts {
        seq![PieceView::Text("<#/multipart>\n\n"@)]
    } else {
        Seq::empty()
    }
}

/// The steps that interpret the part at `id` of `msg`. With `head`, a message carried as a
/// part is rendered as a document of its own, with its header block; without, its body
/// takes the part's place.
pub open spec fn plan_part(
    cfg: Settings,
    head: Option<ShowHeadersStrategy>,
    msg: Message,
    id: int,
) -> Seq<PieceView>
    decreases msg, msg.parts.len() - id, msg.parts[id].children().len() + 1,
{
    if 0 <= id < msg.parts.len() {
        let part = msg.parts[id];
        let ctype = part.ctype();
        match part.body {
            PartBody::Text(t) => if ctype == "text/plain"@ {
                text_pieces(plain_text(cfg, t@))
            } else {
                text_pieces(other_text(cfg, ctype, t@))
            },
            PartBody::Html(h) => text_pieces(html_text(cfg, h@)),
            PartBody::Binary(d) => attachment_pieces(cfg, ctype, part, d@),
            PartBody::InlineBinary(d) => inline_attachment_pieces(cfg, ctype, part, d@),
            PartBody::Message(m) => plan_msg(cfg, head, *m),
            PartBody::Multipart(ids) => if ctype == "multipart/alternative"@ {
                match alternative(cfg, msg, id, ids@) {
                    Choice::Leaf(s) => text_pieces(s),
                    Choice::Child(c) => if is_child(msg, id, c) {
                        plan_part(cfg, head, msg, c)
                    } else {
                        Seq::empty()
                    },
                    Choice::Nothing => Seq::empty(),
                }
            } else if ctype == "multipart/encrypted"@ {
                if ids.len() >= 2 && is_child(msg, id, ids[1] as int) {
                    seq![
                        PieceView::Decrypt {
                            command: cfg.pgp_decrypt_cmd,
                            payload: msg.parts[ids[1] as int].contents(),
                        },
                    ]
                } else {
                    Seq::empty()
                }
            } else if ctype == "multipart/signed"@ {
                if ids.len() >= 2 && is_child(msg, id, ids[0] as int) && is_child(
                    msg,
                    id,
                    ids[1] as int,
                ) {
                    seq![
                        PieceView::Verify {
                            command: cfg.pgp_verify_cmd,
                            signature: msg.parts[ids[1] as int].contents(),
                        },
                    ] + plan_part(cfg, head, msg, ids[0] as int)
                } else {
                    Seq::empty()
                }
            } else if ctype == "application/pgp-encrypted"@ || ctype
                == "application/pgp-signature"@ {
                Seq::empty()
            } else {
                opening(cfg, part) + plan_children(cfg, head, msg, id, ids@, 0) + closing(cfg)
            },
        }
    } else {
        Seq::empty()
    }
}

/// The steps that interpret the children `ids[k..]` of the part at `id`, one after the other.
/// A child that is not in the table, or not after `id`, is passed over.
pub open spec fn plan_children(
    cfg: Settings,
    head: Option<ShowHeadersStrategy>,
    msg: Message,
    id: int,
    ids: Seq<usize>,
    k: int,
) -> Seq<PieceView>
    decreases msg, msg.parts.len() - id, ids.len() - k,
{
    if 0 <= k < ids.len() && 0 <= id < msg.parts.len() {
        (if is_child(msg, id, ids[k] as int) {
            plan_part(cfg, head, msg, ids[k] as int)
        } else {
            Seq::empty()
        }) + plan_children(cfg, head, msg, id, ids, k + 1)
    } else {
        Seq::empty()
    }
}

/// The steps that interpret a message. Without `head`, those of its root part. With `head`, a
/// document: the header block, then the body between `Open` and `Close`.
pub open spec fn plan_msg(cfg: Settings, head: Option<ShowHeadersStrategy>, msg: Message) -> Seq<
    PieceView,
>
    decreases msg, msg.parts.len() + 1, 0nat,
{
    match head {
        None => plan_part(cfg, head, msg, 0),
        Some(strategy) => text_pieces(header_block(strategy, msg)) + seq![PieceView::Open]
            + plan_part(cfg, head, msg, 0) + seq![PieceView::Close],
    }
}

} // verus!
