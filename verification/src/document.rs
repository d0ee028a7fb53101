//! What holds of the text of a document: the header block, then the body without the
//! whitespace it ends with, then one line break.

use crate::header::{header_block, ShowHeadersStrategy};
use crate::interpreter::Settings;
use crate::plan::{
    alternative, closing, is_child, opening, plan_children, plan_msg, plan_part, text_pieces,
    Choice, };
use crate::mime::{Message, PartBody};
use crate::piece::PieceView;
use crate::session::{blank, canvas_wf, close_body, draw, render_onto, rendered, Canvas};
use crate::text::{lemma_trim_end, trim_end};
use vstd::prelude::*;

verus! {

/// How many bodies are open after the steps of `plan`, `depth` being open before them; `-1`
/// where a step closes a body that is not open.
pub open spec fn level(plan: Seq<PieceView>, depth: int) -> int
    decreases plan.len(),
{
    if depth < 0 {
        -1
    } else if plan.len() == 0 {
        depth
    } else {
        match plan[0] {
            PieceView::Open => level(plan.skip(1), depth + 1),
            PieceView::Close => level(plan.skip(1), depth - 1),
            _ => level(plan.skip(1), depth),
        }
    }
}

/// Whether a plan closes every body that it opens, and no other.
pub open spec fn balanced(plan: Seq<PieceView>) -> bool {
    level(plan, 0) == 0
}

/// The marks moved by `by`.
pub open spec fn shifted(marks: Seq<int>, by: int) -> Seq<int> {
    marks.map_values(|m: int| m + by)
}

/// A step leaves the marks of a canvas positions in its text, in rising order.
pub proof fn lemma_draw_wf(c: Canvas, p: PieceView)
    requires
        canvas_wf(c),
    ensures
        canvas_wf(draw(c, p)),
{
    match p {
        PieceView::Close => {
            let d = close_body(c);
            if c.marks.len() > 0 {
                let m = c.marks.last();
                assert(c.marks[c.marks.len() - 1] == m);
                assert forall|i: int| 0 <= i < d.marks.len() implies 0 <= #[trigger] d.marks[i]
                    <= d.out.len() by {
                    assert(d.marks[i] == c.marks[i]);
                    assert(c.marks[i] <= c.marks[c.marks.len() - 1]);
                }
                assert forall|i: int, j: int| 0 <= i <= j < d.marks.len() implies d.marks[i]
                    <= d.marks[j] by {
                    assert(d.marks[i] == c.marks[i]);
                    assert(d.marks[j] == c.marks[j]);
                }
            }
        },
        PieceView::Open => {
            let d = draw(c, p);
            assert forall|i: int, j: int| 0 <= i <= j < d.marks.len() implies d.marks[i]
                <= d.marks[j] by {
                if j < c.marks.len() {
                    assert(d.marks[i] == c.marks[i]);
                    assert(d.marks[j] == c.marks[j]);
                } else if i < c.marks.len() {
                    assert(d.marks[i] == c.marks[i]);
                }
            }
        },
        _ => {},
    }
}

/// The levels of two plans in a row: the second starts where the first ends.
pub proof fn lemma_level_add(a: Seq<PieceView>, b: Seq<PieceView>, depth: int)
    ensures
        level(a + b, depth) == level(b, level(a, depth)),
    decreases a.len(),
{
    if depth < 0 {
        lemma_level_stuck(b);
    } else if a.len() == 0 {
        assert(a + b =~= b);
    } else {
        assert((a + b)[0] == a[0]);
        assert((a + b).skip(1) =~= a.skip(1) + b);
        match a[0] {
            PieceView::Open => lemma_level_add(a.skip(1), b, depth + 1),
            PieceView::Close => lemma_level_add(a.skip(1), b, depth - 1),
            _ => lemma_level_add(a.skip(1), b, depth),
        }
    }
}

/// Once a body was closed that was not open, the level stays where it is.
proof fn lemma_level_stuck(b: Seq<PieceView>)
    ensures
        level(b, -1) == -1,
{
}

/// A balanced plan leaves open what was open before it.
pub proof fn lemma_level_balanced(plan: Seq<PieceView>, depth: int, extra: int)
    requires
        level(plan, depth) >= 0,
        extra >= 0,
    ensures
        level(plan, depth + extra) == level(plan, depth) + extra,
    decreases plan.len(),
{
    if plan.len() > 0 {
        match plan[0] {
            PieceView::Open => lemma_level_balanced(plan.skip(1), depth + 1, extra),
            PieceView::Close => {
                if depth - 1 >= 0 {
                    lemma_level_balanced(plan.skip(1), depth - 1, extra);
                }
            },
            _ => lemma_level_balanced(plan.skip(1), depth, extra),
        }
    }
}

/// Two balanced plans in a row are balanced.
pub proof fn lemma_balanced_add(a: Seq<PieceView>, b: Seq<PieceView>)
    requires
        balanced(a),
        balanced(b),
    ensures
        balanced(a + b),
{
    lemma_level_add(a, b, 0);
}

/// What a plan writes after a text is that text, then what the plan writes by itself, as long
/// as the plan closes no body that was open before it. Here `inner` is the canvas that the
/// plan starts from by itself, with `depth` bodies open, and `before` the text and `base` the
/// marks that stand before it.
pub proof fn lemma_render_after(
    before: Seq<char>,
    base: Seq<int>,
    inner: Canvas,
    plan: Seq<PieceView>,
    depth: int,
)
    requires
        canvas_wf(inner),
        inner.marks.len() == depth,
        level(plan, depth) >= 0,
    ensures
        render_onto(
            Canvas { out: before + inner.out, marks: base + shifted(inner.marks, before.len() as int) },
            plan,
        ) == (Canvas {
            out: before + render_onto(inner, plan).out,
            marks: base + shifted(render_onto(inner, plan).marks, before.len() as int),
        }),
        render_onto(inner, plan).marks.len() == level(plan, depth),
        canvas_wf(render_onto(inner, plan)),
    decreases plan.len(),
{
    let by = before.len() as int;
    let outer = Canvas { out: before + inner.out, marks: base + shifted(inner.marks, by) };
    if plan.len() > 0 {
        let p = plan[0];
        let inner2 = draw(inner, p);
        let outer2 = draw(outer, p);
        lemma_draw_wf(inner, p);
        let depth2 = match p {
            PieceView::Open => depth + 1,
            PieceView::Close => depth - 1,
            _ => depth,
        };
        assert(level(plan, depth) == level(plan.skip(1), depth2));
        assert(depth2 >= 0) by {
            if depth2 < 0 {
                assert(level(plan.skip(1), depth2) == -1);
            }
        }
        match p {
            PieceView::Text(s) => {
                assert(outer2.out =~= before + inner2.out);
            },
            PieceView::Open => {
                assert(outer2.marks =~= base + shifted(inner2.marks, by));
            },
            PieceView::Close => {
                assert(inner.marks.len() > 0);
                let m = inner.marks.last();
                assert(inner.marks[inner.marks.len() - 1] == m);
                assert(0 <= m <= inner.out.len());
                assert(outer.marks.last() == m + by);
                assert(outer.out.take(m + by) =~= before + inner.out.take(m));
                assert(outer.out.skip(m + by) =~= inner.out.skip(m));
                assert(outer2.out =~= before + inner2.out);
                assert(outer2.marks =~= base + shifted(inner2.marks, by));
            },
            _ => {},
        }
        assert(outer2 == (Canvas {
            out: before + inner2.out,
            marks: base + shifted(inner2.marks, by),
        }));
        lemma_render_after(before, base, inner2, plan.skip(1), depth2);
    }
}

/// The steps that interpret a part close every body that they open, and no other.
pub proof fn lemma_part_balanced(
    cfg: Settings,
    head: Option<ShowHeadersStrategy>,
    msg: Message,
    id: int,
)
    ensures
        balanced(plan_part(cfg, head, msg, id)),
    decreases msg, msg.parts.len() - id, msg.parts[id].children().len() + 1,
{
    if 0 <= id < msg.parts.len() {
        let part = msg.parts[id];
        let ctype = part.ctype();
        match part.body {
            PartBody::Message(m) => {
                lemma_msg_balanced(cfg, head, *m);
            },
            PartBody::Multipart(ids) => {
                if ctype == "multipart/alternative"@ {
                    match alternative(cfg, msg, id, ids@) {
                        Choice::Child(c) => {
                            if is_child(msg, id, c) {
                                lemma_part_balanced(cfg, head, msg, c);
                            }
                        },
                        Choice::Leaf(s) => {
                            lemma_texts_balanced(text_pieces(s));
                        },
                        _ => {},
                    }
                } else if ctype == "multipart/encrypted"@ {
                    lemma_texts_balanced(plan_part(cfg, head, msg, id));
                } else if ctype == "multipart/signed"@ {
                    if ids.len() >= 2 && is_child(msg, id, ids[1] as int) && is_child(
                        msg,
                        id,
                        ids[0] as int,
                    ) {
                        lemma_part_balanced(cfg, head, msg, ids[0] as int);
                        let first = seq![
                            PieceView::Verify {
                                command: cfg.pgp_verify_cmd,
                                signature: msg.parts[ids[1] as int].contents(),
                            },
                        ];
                        lemma_texts_balanced(first);
                        lemma_balanced_add(first, plan_part(cfg, head, msg, ids[0] as int));
                    }
                } else if ctype == "application/pgp-encrypted"@ || ctype
                    == "application/pgp-signature"@ {
                } else {
                    lemma_children_balanced(cfg, head, msg, id, ids@, 0);
                    lemma_texts_balanced(opening(cfg, part));
                    lemma_texts_balanced(closing(cfg));
                    lemma_balanced_add(
                        opening(cfg, part),
                        plan_children(cfg, head, msg, id, ids@, 0),
                    );
                    lemma_balanced_add(
                        opening(cfg, part) + plan_children(cfg, head, msg, id, ids@, 0),
                        closing(cfg),
                    );
                }
            },
            _ => {
                lemma_texts_balanced(plan_part(cfg, head, msg, id));
            },
        }
    }
}

/// The steps that interpret the children of a container are balanced.
proof fn lemma_children_balanced(
    cfg: Settings,
    head: Option<ShowHeadersStrategy>,
    msg: Message,
    id: int,
    ids: Seq<usize>,
    k: int,
)
    ensures
        balanced(plan_children(cfg, head, msg, id, ids, k)),
    decreases msg, msg.parts.len() - id, ids.len() - k,
{
    if 0 <= k < ids.len() && 0 <= id < msg.parts.len() {
        lemma_children_balanced(cfg, head, msg, id, ids, k + 1);
        if is_child(msg, id, ids[k] as int) {
            lemma_part_balanced(cfg, head, msg, ids[k] as int);
            lemma_balanced_add(
                plan_part(cfg, head, msg, ids[k] as int),
                plan_children(cfg, head, msg, id, ids, k + 1),
            );
        } else {
            lemma_balanced_add(Seq::empty(), plan_children(cfg, head, msg, id, ids, k + 1));
        }
    }
}

/// The steps that interpret a message close every body that they open, and no other.
pub proof fn lemma_msg_balanced(cfg: Settings, head: Option<ShowHeadersStrategy>, msg: Message)
    ensures
        balanced(plan_msg(cfg, head, msg)),
    decreases msg, msg.parts.len() + 1, 0nat,
{
    lemma_part_balanced(cfg, head, msg, 0);
    match head {
        None => {},
        Some(strategy) => {
            let top = text_pieces(header_block(strategy, msg));
            let body = plan_part(cfg, head, msg, 0);
            lemma_texts_balanced(top);
            lemma_framed_balanced(body);
            lemma_balanced_add(top, seq![PieceView::Open] + body + seq![PieceView::Close]);
            assert(plan_msg(cfg, head, msg) =~= top + (seq![PieceView::Open] + body
                + seq![PieceView::Close]));
        },
    }
}

/// A plan that neither opens nor closes a body is balanced.
pub proof fn lemma_texts_balanced(plan: Seq<PieceView>)
    requires
        forall|i: int| 0 <= i < plan.len() ==> !((#[trigger] plan[i]) is Open) && !(plan[i] is Close),
    ensures
        balanced(plan),
    decreases plan.len(),
{
    if plan.len() > 0 {
        assert(!(plan[0] is Open) && !(plan[0] is Close));
        assert forall|i: int| 0 <= i < plan.skip(1).len() implies !((#[trigger] plan.skip(1)[i])
            is Open) && !(plan.skip(1)[i] is Close) by {
            assert(plan.skip(1)[i] == plan[i + 1]);
        }
        lemma_texts_balanced(plan.skip(1));
    }
}

/// A balanced plan between `Open` and `Close` is balanced.
pub proof fn lemma_framed_balanced(body: Seq<PieceView>)
    requires
        balanced(body),
    ensures
        balanced(seq![PieceView::Open] + body + seq![PieceView::Close]),
{
    let open = seq![PieceView::Open];
    let close = seq![PieceView::Close];
    lemma_level_add(open + body, close, 0);
    lemma_level_add(open, body, 0);
    assert(open.skip(1) =~= Seq::<PieceView>::empty());
    assert(level(open, 0) == level(open.skip(1), 1));
    lemma_level_balanced(body, 0, 1);
    assert(close.skip(1) =~= Seq::<PieceView>::empty());
    assert(level(close, 1) == level(close.skip(1), 0));
}

/// The text of a framed body after a head: the head, then the body's own text without the
/// whitespace it ends with, then one line break.
pub proof fn lemma_framed_text(head: Seq<char>, body: Seq<PieceView>)
    requires
        balanced(body),
    ensures
        rendered(text_pieces(head) + seq![PieceView::Open] + body + seq![PieceView::Close])
            == head + trim_end(rendered(body)) + "\n"@,
{
    let top = text_pieces(head);
    let open = seq![PieceView::Open];
    let close = seq![PieceView::Close];
    let plan = top + open + body + close;
    crate::laws::lemma_render_add(blank(), top + open + body, close);
    crate::laws::lemma_render_add(blank(), top + open, body);
    crate::laws::lemma_render_add(blank(), top, open);
    let after_top = render_onto(blank(), top);
    assert(after_top == (Canvas { out: head, marks: Seq::<int>::empty() })) by {
        if head.len() > 0 {
            assert(top.skip(1) =~= Seq::<PieceView>::empty());
            assert(render_onto(blank(), top) == render_onto(draw(blank(), top[0]), top.skip(1)));
            assert(draw(blank(), top[0]).out =~= head);
        } else {
            assert(head =~= Seq::<char>::empty());
        }
    }
    let opened = render_onto(after_top, open);
    assert(opened == (Canvas { out: head, marks: seq![head.len() as int] })) by {
        assert(open.skip(1) =~= Seq::<PieceView>::empty());
        assert(render_onto(after_top, open) == render_onto(draw(after_top, open[0]), open.skip(1)));
        assert(draw(after_top, open[0]).marks =~= seq![head.len() as int]);
    }
    let base = seq![head.len() as int];
    lemma_render_after(head, base, blank(), body, 0);
    assert(head + blank().out =~= head);
    assert(base + shifted(blank().marks, head.len() as int) =~= base);
    let inner = render_onto(blank(), body);
    assert(inner.marks.len() == 0);
    let filled = render_onto(opened, body);
    assert(filled == (Canvas { out: head + inner.out, marks: base }));
    assert(base + shifted(inner.marks, head.len() as int) =~= base);
    assert(close.skip(1) =~= Seq::<PieceView>::empty());
    assert(render_onto(filled, close) == render_onto(draw(filled, close[0]), close.skip(1)));
    assert(filled.marks.last() == head.len());
    assert(filled.out.take(head.len() as int) =~= head);
    assert(filled.out.skip(head.len() as int) =~= inner.out);
}

/// The text of a document is its header block, then the text of its body without the
/// whitespace that it ends with, then one line break. Work outside is passed over on both
/// sides.
pub proof fn law_document_text(cfg: Settings, strategy: ShowHeadersStrategy, msg: Message)
    ensures
        rendered(plan_msg(cfg, Some(strategy), msg)) == header_block(strategy, msg) + trim_end(
            rendered(plan_part(cfg, Some(strategy), msg, 0)),
        ) + "\n"@,
{
    lemma_part_balanced(cfg, Some(strategy), msg, 0);
    lemma_framed_text(header_block(strategy, msg), plan_part(cfg, Some(strategy), msg, 0));
}

/// A document ends with a line break, and where its body holds more than whitespace, with
/// no more than one.
pub proof fn law_document_ends_with_one_line_break(
    cfg: Settings,
    strategy: ShowHeadersStrategy,
    msg: Message,
)
    ensures
        ({
            let text = rendered(plan_msg(cfg, Some(strategy), msg));
            let body = trim_end(rendered(plan_part(cfg, Some(strategy), msg, 0)));
            &&& text.len() > 0
            &&& text.last() == '\n'
            &&& body.len() > 0 ==> text.len() >= 2 && !crate::text::is_whitespace(
                text[text.len() - 2],
            )
        }),
{
    law_document_text(cfg, strategy, msg);
    reveal_strlit("\n");
    let body = trim_end(rendered(plan_part(cfg, Some(strategy), msg, 0)));
    lemma_trim_end(rendered(plan_part(cfg, Some(strategy), msg, 0)));
    let text = header_block(strategy, msg) + body + "\n"@;
    if body.len() > 0 {
        assert(text[text.len() - 2] == body.last());
    }
}

} // verus!
