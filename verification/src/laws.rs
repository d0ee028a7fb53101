//! What holds of every interpretation.

use crate::html::html_to_text;
use crate::interpreter::Settings;
use crate::plan::{
    alternative, attachment_name, body_text, clean, closing, first_pick, html_text,
    inline_attachment_name, is_child, join_path, opening, other_text, picks, plain_text,
    plan_children, plan_msg, plan_part, text_alternative, text_pieces, Choice, Pick, };
use crate::header::{header_block, ShowHeadersStrategy};
use crate::mime::{Message, Part, PartBody};
use crate::piece::PieceView;
use crate::session::{
    answers, blank, draw, is_effect, outcome, render_onto, rendered, settle, step_spec,
    ActionView, Canvas, Event, SessionView,
};
use crate::text::{is_blank, trim_end, without_cr, without_signature};
use vstd::prelude::*;

verus! {

/// Whether the part at `id` of `msg` is a container of no special kind.
pub open spec fn is_generic_multipart(msg: Message, id: int) -> bool {
    &&& 0 <= id < msg.parts.len()
    &&& msg.parts[id].body is Multipart
    &&& msg.parts[id].ctype() != "multipart/alternative"@
    &&& msg.parts[id].ctype() != "multipart/encrypted"@
    &&& msg.parts[id].ctype() != "multipart/signed"@
    &&& msg.parts[id].ctype() != "application/pgp-encrypted"@
    &&& msg.parts[id].ctype() != "application/pgp-signature"@
}

/// When every part is shown, plain text is rendered bare: without its carriage returns, and
/// its signature where signatures are hidden, trimmed, and followed by an empty line.
pub proof fn law_plain_text_is_bare(cfg: Settings, text: Seq<char>)
    requires
        cfg.filter_parts is All,
    ensures
        cfg.show_plain_texts_signature ==> plain_text(cfg, text) == clean(text) + "\n\n"@,
        !cfg.show_plain_texts_signature ==> plain_text(cfg, text) == trim_end(
            without_signature(without_cr(text)),
        ) + "\n\n"@,
{
}

/// When every part is shown, text of another type than plain is framed by markup that opens
/// with its type and closes.
pub proof fn law_other_text_is_framed(cfg: Settings, ctype: Seq<char>, text: Seq<char>)
    requires
        cfg.filter_parts is All,
    ensures
        other_text(cfg, ctype, text) == "<#part type="@ + ctype + ">\n"@ + clean(text)
            + "\n<#/part>"@ + "\n\n"@,
        html_text(cfg, text) == "<#part type=text/html>\n"@ + trim_end(html_to_text(text))
            + "\n<#/part>"@ + "\n\n"@,
{
}

/// When every part is shown, a part that carries text gives one step: its text, bare where
/// its type is plain text, framed by markup that names its type otherwise.
pub proof fn law_text_parts_under_all(
    cfg: Settings,
    head: Option<ShowHeadersStrategy>,
    msg: Message,
    id: int,
)
    requires
        cfg.filter_parts is All,
        0 <= id < msg.parts.len(),
    ensures
        match msg.parts[id].body {
            PartBody::Text(t) => plan_part(cfg, head, msg, id) == seq![
                PieceView::Text(
                    if msg.parts[id].ctype() == "text/plain"@ {
                        plain_text(cfg, t@)
                    } else {
                        "<#part type="@ + msg.parts[id].ctype() + ">\n"@ + clean(t@) + "\n<#/part>"@
                            + "\n\n"@
                    },
                ),
            ],
            PartBody::Html(h) => plan_part(cfg, head, msg, id) == seq![
                PieceView::Text(
                    "<#part type=text/html>\n"@ + trim_end(html_to_text(h@)) + "\n<#/part>"@
                        + "\n\n"@,
                ),
            ],
            _ => true,
        },
{
    reveal_strlit("\n\n");
    match msg.parts[id].body {
        PartBody::Text(t) => {
            if msg.parts[id].ctype() == "text/plain"@ {
                assert(plain_text(cfg, t@).len() > 0);
            } else {
                assert(other_text(cfg, msg.parts[id].ctype(), t@).len() > 0);
            }
        },
        PartBody::Html(h) => {
            assert(html_text(cfg, h@).len() > 0);
        },
        _ => {},
    }
}

/// When a single type is shown, a text is rendered bare or not at all: a text of that type
/// gives its content without carriage returns, trimmed, and an empty line after it; a text
/// of another type gives nothing.
pub proof fn law_only_is_bare(cfg: Settings, ctype: Seq<char>, text: Seq<char>)
    requires
        cfg.filter_parts is Only,
    ensures
        other_text(cfg, ctype, text) == if cfg.filter_parts.is_sole_focus(ctype) {
            clean(text) + "\n\n"@
        } else {
            Seq::<char>::empty()
        },
        html_text(cfg, text) == if cfg.filter_parts.is_sole_focus("text/html"@) {
            clean(text) + "\n\n"@
        } else {
            Seq::<char>::empty()
        },
        plain_text(cfg, text) == if cfg.filter_parts.is_sole_focus("text/plain"@) {
            trim_end(
                if cfg.show_plain_texts_signature {
                    without_cr(text)
                } else {
                    without_signature(without_cr(text))
                },
            ) + "\n\n"@
        } else {
            Seq::<char>::empty()
        },
{
}

/// A container of no special kind whose markup is hidden gives the steps of its children,
/// one after the other, and nothing else.
pub proof fn law_hidden_multipart_is_flat(
    cfg: Settings,
    head: Option<ShowHeadersStrategy>,
    msg: Message,
    id: int,
)
    requires
        !cfg.show_multiparts,
        is_generic_multipart(msg, id),
    ensures
        plan_part(cfg, head, msg, id) == plan_children(
            cfg,
            head,
            msg,
            id,
            msg.parts[id].children(),
            0,
        ),
{
    let inner = plan_children(cfg, head, msg, id, msg.parts[id].children(), 0);
    assert(Seq::<PieceView>::empty() + inner + Seq::<PieceView>::empty() =~= inner);
}

/// A container of no special kind whose markup is shown gives the markup that opens it, with
/// its subtype, then the steps of its children, then the markup that closes it: the markup
/// nests as the containers do.
pub proof fn law_shown_multipart_is_framed(
    cfg: Settings,
    head: Option<ShowHeadersStrategy>,
    msg: Message,
    id: int,
)
    requires
        cfg.show_multiparts,
        is_generic_multipart(msg, id),
    ensures
        plan_part(cfg, head, msg, id) == seq![
            PieceView::Text("<#multipart type="@ + msg.parts[id].subtype_or_mixed() + ">\n\n"@),
        ] + plan_children(cfg, head, msg, id, msg.parts[id].children(), 0) + seq![
            PieceView::Text("<#/multipart>\n\n"@),
        ],
{
}

/// Whether the child listed at position `j` is one that `pick` looks for.
pub open spec fn wanted(
    cfg: Settings,
    pick: Pick,
    msg: Message,
    id: int,
    ids: Seq<usize>,
    j: int,
) -> bool {
    0 <= j < ids.len() && is_child(msg, id, ids[j] as int) && picks(
        cfg,
        pick,
        msg.parts[ids[j] as int],
    )
}

/// Whether some child is one that `pick` looks for.
pub open spec fn offered(cfg: Settings, pick: Pick, msg: Message, id: int, ids: Seq<usize>) -> bool {
    exists|j: int| wanted(cfg, pick, msg, id, ids, j)
}

/// The search finds the first child from position `k` on that `pick` looks for, and finds
/// none only where there is none.
pub proof fn lemma_first_pick(
    cfg: Settings,
    pick: Pick,
    msg: Message,
    id: int,
    ids: Seq<usize>,
    k: int,
)
    requires
        0 <= k,
    ensures
        match first_pick(cfg, pick, msg, id, ids, k) {
            Some(c) => exists|j: int|
                k <= j && wanted(cfg, pick, msg, id, ids, j) && ids[j] == c && forall|i: int|
                    k <= i < j ==> !wanted(cfg, pick, msg, id, ids, i),
            None => forall|j: int| k <= j ==> !wanted(cfg, pick, msg, id, ids, j),
        },
    decreases ids.len() - k,
{
    if k < ids.len() {
        if wanted(cfg, pick, msg, id, ids, k) {
            assert(k <= k && wanted(cfg, pick, msg, id, ids, k) && ids[k] == ids[k] as int
                && forall|i: int| k <= i < k ==> !wanted(cfg, pick, msg, id, ids, i));
        } else {
            lemma_first_pick(cfg, pick, msg, id, ids, k + 1);
            match first_pick(cfg, pick, msg, id, ids, k + 1) {
                Some(c) => {
                    let j = choose|j: int|
                        k + 1 <= j && wanted(cfg, pick, msg, id, ids, j) && ids[j] == c
                            && forall|i: int|
                            k + 1 <= i < j ==> !wanted(cfg, pick, msg, id, ids, i);
                    assert(k <= j && wanted(cfg, pick, msg, id, ids, j) && ids[j] == c
                        && forall|i: int| k <= i < j ==> !wanted(cfg, pick, msg, id, ids, i));
                },
                None => {},
            }
        }
    }
}

/// The search finds a child exactly where one is offered.
pub proof fn lemma_first_pick_offered(
    cfg: Settings,
    pick: Pick,
    msg: Message,
    id: int,
    ids: Seq<usize>,
)
    ensures
        first_pick(cfg, pick, msg, id, ids, 0) is Some == offered(cfg, pick, msg, id, ids),
{
    lemma_first_pick(cfg, pick, msg, id, ids, 0);
}

/// Which alternative is rendered when every part is shown goes by what is offered, in this
/// order, wherever the alternatives stand among one another: a plain text that is not blank;
/// else an HTML document that is not blank; else a text of another type that is not blank;
/// else the first child. Of several of one kind the first is taken.
pub proof fn law_alternative_priority(cfg: Settings, msg: Message, id: int, ids: Seq<usize>)
    requires
        cfg.filter_parts is All,
    ensures
        offered(cfg, Pick::Plain, msg, id, ids) ==> alternative(cfg, msg, id, ids) == Choice::Leaf(
            plain_text(
                cfg,
                body_text(msg.parts[first_pick(cfg, Pick::Plain, msg, id, ids, 0)->0]),
            ),
        ),
        !offered(cfg, Pick::Plain, msg, id, ids) && offered(cfg, Pick::Html, msg, id, ids)
            ==> alternative(cfg, msg, id, ids) == Choice::Leaf(
            html_text(cfg, body_text(msg.parts[first_pick(cfg, Pick::Html, msg, id, ids, 0)->0])),
        ),
        !offered(cfg, Pick::Plain, msg, id, ids) && !offered(cfg, Pick::Html, msg, id, ids)
            && offered(cfg, Pick::Text, msg, id, ids) ==> alternative(cfg, msg, id, ids)
            == Choice::Leaf(
            other_text(
                cfg,
                msg.parts[first_pick(cfg, Pick::Text, msg, id, ids, 0)->0].ctype(),
                body_text(msg.parts[first_pick(cfg, Pick::Text, msg, id, ids, 0)->0]),
            ),
        ),
        !offered(cfg, Pick::Plain, msg, id, ids) && !offered(cfg, Pick::Html, msg, id, ids)
            && !offered(cfg, Pick::Text, msg, id, ids) ==> alternative(cfg, msg, id, ids)
            == match first_pick(cfg, Pick::Shown, msg, id, ids, 0) {
            Some(c) => Choice::Child(c),
            None => Choice::Nothing,
        },
        first_pick(cfg, Pick::Shown, msg, id, ids, 0) is None <==> forall|j: int|
            0 <= j < ids.len() ==> !is_child(msg, id, #[trigger] ids[j] as int),
{
    lemma_first_pick_offered(cfg, Pick::Plain, msg, id, ids);
    lemma_first_pick_offered(cfg, Pick::Html, msg, id, ids);
    lemma_first_pick_offered(cfg, Pick::Text, msg, id, ids);
    lemma_first_pick(cfg, Pick::Shown, msg, id, ids, 0);
    if first_pick(cfg, Pick::Shown, msg, id, ids, 0) is None {
        assert forall|j: int| 0 <= j < ids.len() implies !is_child(
            msg,
            id,
            #[trigger] ids[j] as int,
        ) by {
            assert(!wanted(cfg, Pick::Shown, msg, id, ids, j));
        }
    }
}

/// Leaving out a child that `pick` does not look for changes nothing of what the search
/// finds.
pub proof fn lemma_first_pick_remove(
    cfg: Settings,
    pick: Pick,
    msg: Message,
    id: int,
    ids: Seq<usize>,
    j: int,
    k: int,
)
    requires
        0 <= j < ids.len(),
        0 <= k,
        !wanted(cfg, pick, msg, id, ids, j),
    ensures
        k <= j ==> first_pick(cfg, pick, msg, id, ids, k) == first_pick(
            cfg,
            pick,
            msg,
            id,
            ids.remove(j),
            k,
        ),
        k > j ==> first_pick(cfg, pick, msg, id, ids, k) == first_pick(
            cfg,
            pick,
            msg,
            id,
            ids.remove(j),
            k - 1,
        ),
    decreases ids.len() - k,
{
    let less = ids.remove(j);
    if k < ids.len() {
        lemma_first_pick_remove(cfg, pick, msg, id, ids, j, k + 1);
        if k < j {
            assert(less[k] == ids[k]);
        } else if k > j {
            assert(less[k - 1] == ids[k]);
        }
    }
}

/// A text alternative that holds nothing but whitespace, plain text or not, counts as
/// absent: the text alternative that is rendered is the same without it.
pub proof fn law_blank_text_is_absent(
    cfg: Settings,
    msg: Message,
    id: int,
    ids: Seq<usize>,
    j: int,
)
    requires
        0 <= j < ids.len(),
        is_child(msg, id, ids[j] as int),
        msg.parts[ids[j] as int].body is Text,
        is_blank(body_text(msg.parts[ids[j] as int])),
    ensures
        text_alternative(cfg, msg, id, ids) == text_alternative(cfg, msg, id, ids.remove(j)),
{
    lemma_first_pick_remove(cfg, Pick::Plain, msg, id, ids, j, 0);
    lemma_first_pick_remove(cfg, Pick::Html, msg, id, ids, j, 0);
    lemma_first_pick_remove(cfg, Pick::Text, msg, id, ids, j, 0);
}

/// When every part is shown and some text alternative is rendered, the choice among the
/// alternatives is the same without a text alternative that holds nothing but whitespace.
pub proof fn law_blank_text_is_absent_from_the_choice(
    cfg: Settings,
    msg: Message,
    id: int,
    ids: Seq<usize>,
    j: int,
)
    requires
        cfg.filter_parts is All,
        0 <= j < ids.len(),
        is_child(msg, id, ids[j] as int),
        msg.parts[ids[j] as int].body is Text,
        is_blank(body_text(msg.parts[ids[j] as int])),
        text_alternative(cfg, msg, id, ids) is Some,
    ensures
        alternative(cfg, msg, id, ids) == alternative(cfg, msg, id, ids.remove(j)),
{
    law_blank_text_is_absent(cfg, msg, id, ids, j);
}

/// Whether a text is some trimmed text and an empty line after it.
pub open spec fn is_bare(s: Seq<char>) -> bool {
    exists|x: Seq<char>| s == trim_end(x) + "\n\n"@
}

/// Whether a text is the markup that opens or closes a container.
pub open spec fn is_container_markup(s: Seq<char>) -> bool {
    s == "<#/multipart>\n\n"@ || exists|subtype: Seq<char>|
        s == "<#multipart type="@ + subtype + ">\n\n"@
}

/// Whether a text is the line of markup that stands for an attachment.
pub open spec fn is_attachment_markup(s: Seq<char>) -> bool {
    exists|ctype: Seq<char>, path: Seq<char>|
        s == "<#part type="@ + ctype + " filename=\""@ + path + "\">\n\n"@ || s
            == "<#part type="@ + ctype + " disposition=inline filename=\""@ + path
            + "\">\n\n"@
}

/// What a step of a body can be when a single type is shown: work outside, or text that is
/// bare; markup only for a container where containers are shown, and for an attachment where
/// attachments are shown.
pub open spec fn fits_single_type(cfg: Settings, p: PieceView) -> bool {
    match p {
        PieceView::Text(s) => is_bare(s) || (cfg.show_multiparts && is_container_markup(s)) || ((
        cfg.show_attachments || cfg.show_inline_attachments) && is_attachment_markup(s)),
        PieceView::Open => false,
        PieceView::Close => false,
        _ => true,
    }
}

/// Whether every step of a plan is as `fits_single_type` says.
pub open spec fn all_fit(cfg: Settings, plan: Seq<PieceView>) -> bool {
    forall|i: int| 0 <= i < plan.len() ==> fits_single_type(cfg, #[trigger] plan[i])
}

/// Two plans that fit make a plan that fits.
proof fn lemma_all_fit_add(cfg: Settings, a: Seq<PieceView>, b: Seq<PieceView>)
    requires
        all_fit(cfg, a),
        all_fit(cfg, b),
    ensures
        all_fit(cfg, a + b),
{
    assert forall|i: int| 0 <= i < (a + b).len() implies fits_single_type(
        cfg,
        #[trigger] (a + b)[i],
    ) by {
        if i < a.len() {
            assert((a + b)[i] == a[i]);
        } else {
            assert((a + b)[i] == b[i - a.len()]);
        }
    }
}

/// When a single type is shown, the body of a message is written without markup around its
/// texts: every step of the plan of a part is work outside or a bare text, but for the markup
/// of containers where the settings show containers, and the lines of attachments where they
/// show attachments.
pub proof fn law_single_type_is_bare(cfg: Settings, msg: Message, id: int)
    requires
        cfg.filter_parts is Only,
    ensures
        all_fit(cfg, plan_part(cfg, None, msg, id)),
    decreases msg, msg.parts.len() - id, msg.parts[id].children().len() + 1,
{
    if 0 <= id < msg.parts.len() {
        let part = msg.parts[id];
        let ctype = part.ctype();
        match part.body {
            PartBody::Text(t) => {
                if ctype == "text/plain"@ {
                    let body = if cfg.show_plain_texts_signature {
                        without_cr(t@)
                    } else {
                        without_signature(without_cr(t@))
                    };
                    assert(plain_text(cfg, t@).len() > 0 ==> plain_text(cfg, t@) == trim_end(body)
                        + "\n\n"@);
                } else {
                    assert(other_text(cfg, ctype, t@).len() > 0 ==> other_text(cfg, ctype, t@)
                        == trim_end(without_cr(t@)) + "\n\n"@);
                }
            },
            PartBody::Html(h) => {
                assert(html_text(cfg, h@).len() > 0 ==> html_text(cfg, h@) == trim_end(
                    without_cr(h@),
                ) + "\n\n"@);
            },
            PartBody::Binary(d) => {
                let path = join_path(cfg.save_attachments_dir, attachment_name(part));
                let line = "<#part type="@ + ctype + " filename=\""@ + path + "\">\n\n"@;
                assert(is_attachment_markup(line));
            },
            PartBody::InlineBinary(d) => {
                let path = join_path(cfg.save_attachments_dir, inline_attachment_name(part));
                let line = "<#part type="@ + part.ctype() + " disposition=inline filename=\""@
                    + path + "\">\n\n"@;
                assert(is_attachment_markup(line));
            },
            PartBody::Message(m) => {
                law_single_type_is_bare(cfg, *m, 0);
                assert(plan_msg(cfg, None, *m) == plan_part(cfg, None, *m, 0));
            },
            PartBody::Multipart(ids) => {
                if ctype == "multipart/alternative"@ {
                    match alternative(cfg, msg, id, ids@) {
                        Choice::Child(c) => {
                            if is_child(msg, id, c) {
                                law_single_type_is_bare(cfg, msg, c);
                            }
                        },
                        _ => {},
                    }
                } else if ctype == "multipart/encrypted"@ {
                } else if ctype == "multipart/signed"@ {
                    if ids.len() >= 2 && is_child(msg, id, ids[1] as int) && is_child(
                        msg,
                        id,
                        ids[0] as int,
                    ) {
                        law_single_type_is_bare(cfg, msg, ids[0] as int);
                        lemma_all_fit_add(
                            cfg,
                            seq![
                                PieceView::Verify {
                                    command: cfg.pgp_verify_cmd,
                                    signature: msg.parts[ids[1] as int].contents(),
                                },
                            ],
                            plan_part(cfg, None, msg, ids[0] as int),
                        );
                    }
                } else if ctype == "application/pgp-encrypted"@ || ctype
                    == "application/pgp-signature"@ {
                } else {
                    lemma_children_single_type(cfg, msg, id, ids@, 0);
                    assert(is_container_markup("<#/multipart>\n\n"@));
                    assert(is_container_markup(
                        "<#multipart type="@ + part.subtype_or_mixed() + ">\n\n"@,
                    ));
                    lemma_all_fit_add(
                        cfg,
                        opening(cfg, part),
                        plan_children(cfg, None, msg, id, ids@, 0),
                    );
                    lemma_all_fit_add(
                        cfg,
                        opening(cfg, part) + plan_children(cfg, None, msg, id, ids@, 0),
                        closing(cfg),
                    );
                }
            },
        }
    }
}

/// The steps of the children of a container fit, when a single type is shown.
proof fn lemma_children_single_type(cfg: Settings, msg: Message, id: int, ids: Seq<usize>, k: int)
    requires
        cfg.filter_parts is Only,
    ensures
        all_fit(cfg, plan_children(cfg, None, msg, id, ids, k)),
    decreases msg, msg.parts.len() - id, ids.len() - k,
{
    if 0 <= k < ids.len() && 0 <= id < msg.parts.len() {
        lemma_children_single_type(cfg, msg, id, ids, k + 1);
        if is_child(msg, id, ids[k] as int) {
            law_single_type_is_bare(cfg, msg, ids[k] as int);
            lemma_all_fit_add(
                cfg,
                plan_part(cfg, None, msg, ids[k] as int),
                plan_children(cfg, None, msg, id, ids, k + 1),
            );
        } else {
            lemma_all_fit_add(
                cfg,
                Seq::empty(),
                plan_children(cfg, None, msg, id, ids, k + 1),
            );
        }
    }
}

/// The type under which the filter looks at a part: HTML for an HTML document, whatever it
/// declares, else the part's own type.
pub open spec fn shown_type(part: Part) -> Seq<char> {
    if part.body is Html {
        "text/html"@
    } else {
        part.ctype()
    }
}

/// Whether no part of the message, nor of a message that it carries, is of the type `t`.
pub open spec fn lacks_type(msg: Message, t: Seq<char>) -> bool
    decreases msg,
{
    forall|i: int|
        0 <= i < msg.parts.len() ==> {
            &&& shown_type(#[trigger] msg.parts[i]) != t
            &&& match msg.parts[i].body {
                PartBody::Message(m) => lacks_type(*m, t),
                _ => true,
            }
        }
}

/// Whether a step is a signature to check or a part to decrypt, or else, where containers
/// are shown, the markup of a container.
pub open spec fn is_work_or_frame(cfg: Settings, p: PieceView) -> bool {
    p is Verify || p is Decrypt || (cfg.show_multiparts && p is Text && is_container_markup(
        p->Text_0,
    ))
}

/// Whether every step of a plan is as `is_work_or_frame` says.
pub open spec fn only_work(cfg: Settings, plan: Seq<PieceView>) -> bool {
    forall|i: int| 0 <= i < plan.len() ==> is_work_or_frame(cfg, #[trigger] plan[i])
}

/// Two plans that hold only work make a plan that holds only work.
proof fn lemma_only_work_add(cfg: Settings, a: Seq<PieceView>, b: Seq<PieceView>)
    requires
        only_work(cfg, a),
        only_work(cfg, b),
    ensures
        only_work(cfg, a + b),
{
    assert forall|i: int| 0 <= i < (a + b).len() implies is_work_or_frame(
        cfg,
        #[trigger] (a + b)[i],
    ) by {
        if i < a.len() {
            assert((a + b)[i] == a[i]);
        } else {
            assert((a + b)[i] == b[i - a.len()]);
        }
    }
}

/// When a single type is shown that no part has, no text of the message is written: the plan
/// of a part holds no step but signatures to check and parts to decrypt, and the markup of
/// containers where containers are shown.
pub proof fn law_no_match_writes_nothing(cfg: Settings, msg: Message, id: int)
    requires
        cfg.filter_parts is Only,
        lacks_type(msg, cfg.filter_parts->Only_0@),
    ensures
        only_work(cfg, plan_part(cfg, None, msg, id)),
    decreases msg, msg.parts.len() - id, msg.parts[id].children().len() + 1,
{
    if 0 <= id < msg.parts.len() {
        let part = msg.parts[id];
        let ctype = part.ctype();
        assert(shown_type(part) != cfg.filter_parts->Only_0@);
        match part.body {
            PartBody::Message(m) => {
                law_no_match_writes_nothing(cfg, *m, 0);
                assert(plan_msg(cfg, None, *m) == plan_part(cfg, None, *m, 0));
            },
            PartBody::Multipart(ids) => {
                if ctype == "multipart/alternative"@ {
                    match alternative(cfg, msg, id, ids@) {
                        Choice::Child(c) => {
                            if is_child(msg, id, c) {
                                law_no_match_writes_nothing(cfg, msg, c);
                            }
                        },
                        _ => {},
                    }
                } else if ctype == "multipart/encrypted"@ {
                } else if ctype == "multipart/signed"@ {
                    if ids.len() >= 2 && is_child(msg, id, ids[1] as int) && is_child(
                        msg,
                        id,
                        ids[0] as int,
                    ) {
                        law_no_match_writes_nothing(cfg, msg, ids[0] as int);
                        lemma_only_work_add(
                            cfg,
                            seq![
                                PieceView::Verify {
                                    command: cfg.pgp_verify_cmd,
                                    signature: msg.parts[ids[1] as int].contents(),
                                },
                            ],
                            plan_part(cfg, None, msg, ids[0] as int),
                        );
                    }
                } else if ctype == "application/pgp-encrypted"@ || ctype
                    == "application/pgp-signature"@ {
                } else {
                    lemma_children_write_nothing(cfg, msg, id, ids@, 0);
                    assert(is_container_markup("<#/multipart>\n\n"@));
                    assert(is_container_markup(
                        "<#multipart type="@ + part.subtype_or_mixed() + ">\n\n"@,
                    ));
                    lemma_only_work_add(
                        cfg,
                        opening(cfg, part),
                        plan_children(cfg, None, msg, id, ids@, 0),
                    );
                    lemma_only_work_add(
                        cfg,
                        opening(cfg, part) + plan_children(cfg, None, msg, id, ids@, 0),
                        closing(cfg),
                    );
                }
            },
            _ => {},
        }
    }
}

/// The steps of the children of a container hold only work, where no part has the type shown.
proof fn lemma_children_write_nothing(cfg: Settings, msg: Message, id: int, ids: Seq<usize>, k: int)
    requires
        cfg.filter_parts is Only,
        lacks_type(msg, cfg.filter_parts->Only_0@),
    ensures
        only_work(cfg, plan_children(cfg, None, msg, id, ids, k)),
    decreases msg, msg.parts.len() - id, ids.len() - k,
{
    if 0 <= k < ids.len() && 0 <= id < msg.parts.len() {
        lemma_children_write_nothing(cfg, msg, id, ids, k + 1);
        if is_child(msg, id, ids[k] as int) {
            law_no_match_writes_nothing(cfg, msg, ids[k] as int);
            lemma_only_work_add(
                cfg,
                plan_part(cfg, None, msg, ids[k] as int),
                plan_children(cfg, None, msg, id, ids, k + 1),
            );
        } else {
            lemma_only_work_add(cfg, Seq::empty(), plan_children(cfg, None, msg, id, ids, k + 1));
        }
    }
}

/// A plan that holds nothing but work outside writes nothing.
pub proof fn lemma_work_writes_nothing(c: Canvas, plan: Seq<PieceView>)
    requires
        forall|i: int| 0 <= i < plan.len() ==> is_effect(#[trigger] plan[i]),
    ensures
        render_onto(c, plan) == c,
    decreases plan.len(),
{
    if plan.len() > 0 {
        assert(is_effect(plan[0]));
        assert forall|i: int| 0 <= i < plan.skip(1).len() implies is_effect(
            #[trigger] plan.skip(1)[i],
        ) by {
            assert(plan.skip(1)[i] == plan[i + 1]);
        }
        lemma_work_writes_nothing(c, plan.skip(1));
    }
}

/// When a single type is shown that no part has, and containers are not shown, the body of
/// the message is empty.
pub proof fn law_no_match_empty_body(cfg: Settings, msg: Message)
    requires
        cfg.filter_parts is Only,
        lacks_type(msg, cfg.filter_parts->Only_0@),
        !cfg.show_multiparts,
    ensures
        rendered(plan_msg(cfg, None, msg)) == Seq::<char>::empty(),
{
    law_no_match_writes_nothing(cfg, msg, 0);
    let plan = plan_msg(cfg, None, msg);
    assert forall|i: int| 0 <= i < plan.len() implies is_effect(#[trigger] plan[i]) by {}
    lemma_work_writes_nothing(blank(), plan);
}

/// A document whose header block and body are empty is a single line break.
pub proof fn law_empty_document(body: Seq<PieceView>)
    requires
        forall|i: int| 0 <= i < body.len() ==> is_effect(#[trigger] body[i]),
    ensures
        rendered(seq![PieceView::Open] + body + seq![PieceView::Close]) == "\n"@,
{
    let plan = seq![PieceView::Open] + body + seq![PieceView::Close];
    let opened = draw(blank(), PieceView::Open);
    assert(plan[0] == PieceView::Open);
    assert(plan.skip(1) =~= body + seq![PieceView::Close]);
    lemma_render_add(opened, body, seq![PieceView::Close]);
    lemma_work_writes_nothing(opened, body);
    let last = seq![PieceView::Close];
    assert(last.skip(1) =~= Seq::<PieceView>::empty());
    assert(render_onto(opened, last) == render_onto(draw(opened, last[0]), last.skip(1)));
    assert(opened.marks.last() == 0);
    assert(trim_end(opened.out.skip(0)) =~= Seq::<char>::empty());
    assert(draw(opened, PieceView::Close).out =~= "\n"@);
}

/// Writing two plans in a row is writing the first, then the second.
pub proof fn lemma_render_add(c: Canvas, a: Seq<PieceView>, b: Seq<PieceView>)
    ensures
        render_onto(c, a + b) == render_onto(render_onto(c, a), b),
    decreases a.len(),
{
    if a.len() == 0 {
        assert(a + b =~= b);
    } else {
        assert((a + b)[0] == a[0]);
        assert((a + b).skip(1) =~= a.skip(1) + b);
        lemma_render_add(draw(c, a[0]), a.skip(1), b);
    }
}

/// The text that an interpretation in progress will end with if the work that is still to
/// ask for succeeds and no part is left to decrypt.
pub open spec fn promised(s: SessionView) -> Seq<char> {
    render_onto(s.canvas, s.pending).out
}

/// Taking the steps up to the first work outside is the beginning of writing the whole plan.
pub proof fn lemma_settle_then_render(c: Canvas, plan: Seq<PieceView>)
    ensures
        render_onto(settle(c, plan).0, settle(c, plan).1) == render_onto(c, plan),
        settle(c, plan).1.len() > 0 ==> is_effect(settle(c, plan).1[0]),
    decreases plan.len(),
{
    if plan.len() > 0 && !is_effect(plan[0]) {
        lemma_settle_then_render(draw(c, plan[0]), plan.skip(1));
    }
}

/// While an interpretation goes on without a failure and without a part decrypted, the text
/// that it will end with stays the same, and it is the text that it ends with.
pub proof fn law_session_keeps_its_promise(s: SessionView, event: Event)
    requires
        match s.waiting {
            Some(p) => answers(p, event) && !(p is Decrypt),
            None => true,
        },
    ensures
        promised(step_spec(s, event).0) == promised(s),
        step_spec(s, event).1 is Ok,
        match step_spec(s, event).1 {
            Ok(ActionView::Done(text)) => text == promised(s),
            _ => true,
        },
{
    if s.waiting is Some {
        assert(outcome(s, event) + s.pending =~= s.pending);
    }
    lemma_settle_then_render(s.canvas, s.pending);
    let (canvas, rest) = settle(s.canvas, s.pending);
    if rest.len() > 0 {
        assert(render_onto(canvas, rest) == render_onto(draw(canvas, rest[0]), rest.skip(1)));
    }
}

/// After a part is decrypted, the interpretation goes on with the body of the message that
/// came out in the place of the part.
pub proof fn law_session_after_decryption(s: SessionView, msg: Message)
    requires
        s.waiting is Some,
        s.waiting->Some_0 is Decrypt,
    ensures
        promised(step_spec(s, Event::Decrypted(msg)).0) == render_onto(
            s.canvas,
            plan_part(s.settings, s.head, msg, 0) + s.pending,
        ).out,
{
    let event = Event::Decrypted(msg);
    let pending = plan_part(s.settings, s.head, msg, 0) + s.pending;
    lemma_settle_then_render(s.canvas, pending);
    let (canvas, rest) = settle(s.canvas, pending);
    if rest.len() > 0 {
        assert(render_onto(canvas, rest) == render_onto(draw(canvas, rest[0]), rest.skip(1)));
    }
}

/// Whether a plan writes attachments to disk only under settings that both show and save
/// attachments.
pub open spec fn saves_as_asked(cfg: Settings, plan: Seq<PieceView>) -> bool {
    forall|i: int|
        0 <= i < plan.len() && (#[trigger] plan[i]) is Save ==> cfg.save_attachments && (
        cfg.show_attachments || cfg.show_inline_attachments)
}

/// Two plans that save as asked make a plan that saves as asked.
proof fn lemma_saves_add(cfg: Settings, a: Seq<PieceView>, b: Seq<PieceView>)
    requires
        saves_as_asked(cfg, a),
        saves_as_asked(cfg, b),
    ensures
        saves_as_asked(cfg, a + b),
{
    assert forall|i: int| 0 <= i < (a + b).len() && (#[trigger] (a + b)[i]) is Save implies cfg.save_attachments
        && (cfg.show_attachments || cfg.show_inline_attachments) by {
        if i < a.len() {
            assert((a + b)[i] == a[i]);
        } else {
            assert((a + b)[i] == b[i - a.len()]);
        }
    }
}

/// An attachment is written to disk only where the settings ask both to show and to save
/// attachments: no plan holds a step that saves otherwise.
pub proof fn law_saves_only_as_asked(
    cfg: Settings,
    head: Option<ShowHeadersStrategy>,
    msg: Message,
    id: int,
)
    ensures
        saves_as_asked(cfg, plan_part(cfg, head, msg, id)),
    decreases msg, msg.parts.len() - id, msg.parts[id].children().len() + 1,
{
    if 0 <= id < msg.parts.len() {
        let part = msg.parts[id];
        let ctype = part.ctype();
        match part.body {
            PartBody::Message(m) => {
                lemma_msg_saves_as_asked(cfg, head, *m);
            },
            PartBody::Multipart(ids) => {
                if ctype == "multipart/alternative"@ {
                    match alternative(cfg, msg, id, ids@) {
                        Choice::Child(c) => {
                            if is_child(msg, id, c) {
                                law_saves_only_as_asked(cfg, head, msg, c);
                            }
                        },
                        _ => {},
                    }
                } else if ctype == "multipart/encrypted"@ {
                } else if ctype == "multipart/signed"@ {
                    if ids.len() >= 2 && is_child(msg, id, ids[1] as int) && is_child(
                        msg,
                        id,
                        ids[0] as int,
                    ) {
                        law_saves_only_as_asked(cfg, head, msg, ids[0] as int);
                        lemma_saves_add(
                            cfg,
                            seq![
                                PieceView::Verify {
                                    command: cfg.pgp_verify_cmd,
                                    signature: msg.parts[ids[1] as int].contents(),
                                },
                            ],
                            plan_part(cfg, head, msg, ids[0] as int),
                        );
                    }
                } else if ctype == "application/pgp-encrypted"@ || ctype
                    == "application/pgp-signature"@ {
                } else {
                    lemma_children_save_as_asked(cfg, head, msg, id, ids@, 0);
                    lemma_saves_add(
                        cfg,
                        opening(cfg, part),
                        plan_children(cfg, head, msg, id, ids@, 0),
                    );
                    lemma_saves_add(
                        cfg,
                        opening(cfg, part) + plan_children(cfg, head, msg, id, ids@, 0),
                        closing(cfg),
                    );
                }
            },
            _ => {},
        }
    }
}

/// The steps of the children of a container save as asked.
proof fn lemma_children_save_as_asked(
    cfg: Settings,
    head: Option<ShowHeadersStrategy>,
    msg: Message,
    id: int,
    ids: Seq<usize>,
    k: int,
)
    ensures
        saves_as_asked(cfg, plan_children(cfg, head, msg, id, ids, k)),
    decreases msg, msg.parts.len() - id, ids.len() - k,
{
    if 0 <= k < ids.len() && 0 <= id < msg.parts.len() {
        lemma_children_save_as_asked(cfg, head, msg, id, ids, k + 1);
        if is_child(msg, id, ids[k] as int) {
            law_saves_only_as_asked(cfg, head, msg, ids[k] as int);
            lemma_saves_add(
                cfg,
                plan_part(cfg, head, msg, ids[k] as int),
                plan_children(cfg, head, msg, id, ids, k + 1),
            );
        } else {
            lemma_saves_add(cfg, Seq::empty(), plan_children(cfg, head, msg, id, ids, k + 1));
        }
    }
}

/// The steps that interpret a message save as asked.
proof fn lemma_msg_saves_as_asked(cfg: Settings, head: Option<ShowHeadersStrategy>, msg: Message)
    ensures
        saves_as_asked(cfg, plan_msg(cfg, head, msg)),
    decreases msg, msg.parts.len() + 1, 0nat,
{
    law_saves_only_as_asked(cfg, head, msg, 0);
    match head {
        None => {},
        Some(strategy) => {
            let top = text_pieces(header_block(strategy, msg)) + seq![PieceView::Open];
            lemma_saves_add(cfg, top, plan_part(cfg, head, msg, 0));
            lemma_saves_add(cfg, top + plan_part(cfg, head, msg, 0), seq![PieceView::Close]);
        },
    }
}

} // verus!
