//! Messages that are the same are interpreted the same: what the library writes for a message
//! goes by what the message holds, not by where it is kept.

use crate::header::{all_lines, header_block, header_lines, only_lines, ShowHeadersStrategy};
use crate::interpreter::Settings;
use crate::mime::{last_header, same_headers, same_message, same_part, Header, Message, PartBody};
use crate::plan::{
    alternative, first_pick, is_child, picks, plan_children, plan_msg, plan_part, text_alternative,
    Choice, Pick,
};
use crate::value::{same_groups, same_value, shown_groups, shown_value, Group, HeaderValue};
use vstd::prelude::*;

verus! {

/// The same groups are shown the same.
pub proof fn lemma_same_groups_shown(a: Seq<Group>, b: Seq<Group>, n: int)
    requires
        same_groups(a, b),
    ensures
        shown_groups(a, n) == shown_groups(b, n),
    decreases n,
{
    if 0 < n <= a.len() {
        assert(crate::value::same_group(a[n - 1], b[n - 1]));
        assert(crate::value::same_group(a[0], b[0]));
        if n > 1 {
            lemma_same_groups_shown(a, b, n - 1);
        }
    }
}

/// The same values are shown the same under one name.
pub proof fn lemma_same_value_shown(key: Seq<char>, a: HeaderValue, b: HeaderValue)
    requires
        same_value(a, b),
    ensures
        shown_value(key, a) == shown_value(key, b),
{
    match (a, b) {
        (HeaderValue::GroupList(x), HeaderValue::GroupList(y)) => {
            lemma_same_groups_shown(x@, y@, x.len() as int);
        },
        _ => {},
    }
}

/// A lookup finds a header at the same position in the same headers.
pub proof fn lemma_same_headers_lookup(a: Seq<Header>, b: Seq<Header>, name: Seq<char>, n: int)
    requires
        same_headers(a, b),
    ensures
        last_header(a, name, n) == last_header(b, name, n),
    decreases n,
{
    if 0 < n <= a.len() {
        assert(crate::mime::same_header(a[n - 1], b[n - 1]));
        lemma_same_headers_lookup(a, b, name, n - 1);
    }
}

/// The lines of all headers are the same for the same headers.
pub proof fn lemma_same_all_lines(a: Seq<Header>, b: Seq<Header>, n: int)
    requires
        same_headers(a, b),
    ensures
        all_lines(a, n) == all_lines(b, n),
    decreases n,
{
    if 0 < n <= a.len() {
        assert(crate::mime::same_header(a[n - 1], b[n - 1]));
        lemma_same_value_shown(a[n - 1].name@, a[n - 1].value, b[n - 1].value);
        lemma_same_all_lines(a, b, n - 1);
    }
}

/// The lines of the headers listed are the same for the same messages.
pub proof fn lemma_same_only_lines(a: Message, b: Message, keys: Seq<String>, n: int)
    requires
        same_message(a, b),
    ensures
        only_lines(a, keys, n) == only_lines(b, keys, n),
    decreases n,
{
    if 0 < n <= keys.len() {
        lemma_same_only_lines(a, b, keys, n - 1);
        let key = keys[n - 1]@;
        lemma_same_headers_lookup(a.headers@, b.headers@, key, a.headers.len() as int);
        match last_header(a.headers@, key, a.headers.len() as int) {
            Some(i) => {
                crate::mime::lemma_last_header_in_range(a.headers@, key, a.headers.len() as int);
                assert(crate::mime::same_header(a.headers@[i], b.headers@[i]));
                lemma_same_value_shown(key, a.headers[i].value, b.headers[i].value);
            },
            None => {},
        }
    }
}

/// The header block is the same for the same messages.
pub proof fn lemma_same_header_block(strategy: ShowHeadersStrategy, a: Message, b: Message)
    requires
        same_message(a, b),
    ensures
        header_block(strategy, a) == header_block(strategy, b),
{
    match strategy {
        ShowHeadersStrategy::All => {
            lemma_same_all_lines(a.headers@, b.headers@, a.headers.len() as int);
        },
        ShowHeadersStrategy::Only(keys) => {
            lemma_same_only_lines(a, b, keys@, keys.len() as int);
        },
    }
    assert(header_lines(strategy, a) == header_lines(strategy, b));
}

/// A search among the children finds the same child in the same messages.
pub proof fn lemma_same_first_pick(
    cfg: Settings,
    pick: Pick,
    a: Message,
    b: Message,
    id: int,
    ids: Seq<usize>,
    k: int,
)
    requires
        same_message(a, b),
    ensures
        first_pick(cfg, pick, a, id, ids, k) == first_pick(cfg, pick, b, id, ids, k),
    decreases ids.len() - k,
{
    if 0 <= k < ids.len() {
        let c = ids[k] as int;
        if is_child(a, id, c) {
            assert(same_part(a.parts[c], b.parts[c]));
            assert(picks(cfg, pick, a.parts[c]) == picks(cfg, pick, b.parts[c]));
        }
        lemma_same_first_pick(cfg, pick, a, b, id, ids, k + 1);
    }
}

/// The same alternative is taken in the same messages.
pub proof fn lemma_same_alternative(cfg: Settings, a: Message, b: Message, id: int, ids: Seq<usize>)
    requires
        same_message(a, b),
    ensures
        alternative(cfg, a, id, ids) == alternative(cfg, b, id, ids),
        text_alternative(cfg, a, id, ids) == text_alternative(cfg, b, id, ids),
{
    lemma_same_first_pick(cfg, Pick::Plain, a, b, id, ids, 0);
    lemma_same_first_pick(cfg, Pick::Html, a, b, id, ids, 0);
    lemma_same_first_pick(cfg, Pick::Text, a, b, id, ids, 0);
    lemma_same_first_pick(cfg, Pick::Shown, a, b, id, ids, 0);
    crate::laws::lemma_first_pick(cfg, Pick::Plain, a, id, ids, 0);
    crate::laws::lemma_first_pick(cfg, Pick::Html, a, id, ids, 0);
    crate::laws::lemma_first_pick(cfg, Pick::Text, a, id, ids, 0);
    match first_pick(cfg, Pick::Plain, a, id, ids, 0) {
        Some(c) => {
            assert(same_part(a.parts[c], b.parts[c]));
        },
        None => {},
    }
    match first_pick(cfg, Pick::Html, a, id, ids, 0) {
        Some(c) => {
            assert(same_part(a.parts[c], b.parts[c]));
        },
        None => {},
    }
    match first_pick(cfg, Pick::Text, a, id, ids, 0) {
        Some(c) => {
            assert(same_part(a.parts[c], b.parts[c]));
        },
        None => {},
    }
}

/// The same messages are interpreted the same, part by part.
pub proof fn law_same_part_same_plan(
    cfg: Settings,
    head: Option<ShowHeadersStrategy>,
    a: Message,
    b: Message,
    id: int,
)
    requires
        same_message(a, b),
    ensures
        plan_part(cfg, head, a, id) == plan_part(cfg, head, b, id),
    decreases a, a.parts.len() - id, a.parts[id].children().len() + 1,
{
    if 0 <= id < a.parts.len() {
        let p = a.parts[id];
        let q = b.parts[id];
        assert(same_part(p, q));
        assert(p.ctype() == q.ctype());
        let ctype = p.ctype();
        match (p.body, q.body) {
            (PartBody::Message(m), PartBody::Message(n)) => {
                law_same_message_same_plan(cfg, head, *m, *n);
            },
            (PartBody::Multipart(x), PartBody::Multipart(y)) => {
                let ids = x@;
                if ctype == "multipart/alternative"@ {
                    lemma_same_alternative(cfg, a, b, id, ids);
                    match alternative(cfg, a, id, ids) {
                        Choice::Child(c) => {
                            if is_child(a, id, c) {
                                law_same_part_same_plan(cfg, head, a, b, c);
                            }
                        },
                        _ => {},
                    }
                } else if ctype == "multipart/encrypted"@ {
                    if ids.len() >= 2 && is_child(a, id, ids[1] as int) {
                        assert(same_part(a.parts[ids[1] as int], b.parts[ids[1] as int]));
                    }
                } else if ctype == "multipart/signed"@ {
                    if ids.len() >= 2 && is_child(a, id, ids[1] as int) && is_child(
                        a,
                        id,
                        ids[0] as int,
                    ) {
                        assert(same_part(a.parts[ids[1] as int], b.parts[ids[1] as int]));
                        law_same_part_same_plan(cfg, head, a, b, ids[0] as int);
                    }
                } else if ctype == "application/pgp-encrypted"@ || ctype
                    == "application/pgp-signature"@ {
                } else {
                    lemma_same_children_same_plan(cfg, head, a, b, id, ids, 0);
                }
            },
            _ => {},
        }
    }
}

/// The children of a container are interpreted the same in the same messages.
proof fn lemma_same_children_same_plan(
    cfg: Settings,
    head: Option<ShowHeadersStrategy>,
    a: Message,
    b: Message,
    id: int,
    ids: Seq<usize>,
    k: int,
)
    requires
        same_message(a, b),
    ensures
        plan_children(cfg, head, a, id, ids, k) == plan_children(cfg, head, b, id, ids, k),
    decreases a, a.parts.len() - id, ids.len() - k,
{
    if 0 <= k < ids.len() && 0 <= id < a.parts.len() {
        lemma_same_children_same_plan(cfg, head, a, b, id, ids, k + 1);
        if is_child(a, id, ids[k] as int) {
            law_same_part_same_plan(cfg, head, a, b, ids[k] as int);
        }
    }
}

/// The same messages are interpreted the same: a copy of a message gives the plan of the
/// message.
pub proof fn law_same_message_same_plan(
    cfg: Settings,
    head: Option<ShowHeadersStrategy>,
    a: Message,
    b: Message,
)
    requires
        same_message(a, b),
    ensures
        plan_msg(cfg, head, a) == plan_msg(cfg, head, b),
    decreases a, a.parts.len() + 1, 0nat,
{
    law_same_part_same_plan(cfg, head, a, b, 0);
    match head {
        Some(strategy) => {
            lemma_same_header_block(strategy, a, b);
        },
        None => {},
    }
}

} // verus!
