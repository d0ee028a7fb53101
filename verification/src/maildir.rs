//! Listing the envelopes of a Maildir folder: which are kept, in what order, and which of them
//! make a page.

use crate::account::AccountConfig;
use crate::search::{query_matches, Envelope, SearchEmailsQuery};
use vstd::prelude::*;
use vstd::string::*;

verus! {

/// Why a page cannot be listed.
#[derive(Clone, Debug, PartialEq, Eq)]
pub enum Error {
    /// In this folder no page starts at this envelope, counted from one.
    GetEnvelopesOutOfBoundsError(String, usize),
}

/// Whether an envelope is kept: there is no query, or the query keeps it.
pub open spec fn keeps(query: Option<SearchEmailsQuery>, envelope: Envelope) -> bool {
    match query {
        Some(query) => query_matches(query, envelope),
        None => true,
    }
}

/// The envelopes that are kept, in their order.
pub open spec fn kept(envelopes: Seq<Envelope>, query: Option<SearchEmailsQuery>) -> Seq<Envelope>
    decreases envelopes.len(),
{
    if envelopes.len() == 0 {
        Seq::empty()
    } else if keeps(query, envelopes.last()) {
        kept(envelopes.drop_last(), query).push(envelopes.last())
    } else {
        kept(envelopes.drop_last(), query)
    }
}

/// Where an envelope of the date `date` goes among the first `n` of `sorted`, which go from
/// the newest to the oldest: before the first that is older.
pub open spec fn place(sorted: Seq<Envelope>, date: i64, n: int) -> int
    decreases n,
{
    if n <= 0 || n > sorted.len() {
        0
    } else if sorted[n - 1].date >= date {
        n
    } else {
        place(sorted, date, n - 1)
    }
}

/// The envelopes from the newest to the oldest, those of one date in the order they had.
pub open spec fn newest_first(envelopes: Seq<Envelope>) -> Seq<Envelope>
    decreases envelopes.len(),
{
    if envelopes.len() == 0 {
        Seq::empty()
    } else {
        let before = newest_first(envelopes.drop_last());
        before.insert(
            place(before, envelopes.last().date, before.len() as int),
            envelopes.last(),
        )
    }
}

/// Whether the dates never rise along the sequence.
pub open spec fn descending(envelopes: Seq<Envelope>) -> bool {
    forall|i: int, j: int| 0 <= i <= j < envelopes.len() ==> envelopes[i].date >= envelopes[j].date
}

/// Where the page ends among `len` envelopes: after `page_size` envelopes, or at the end
/// where that comes first or pages have no size.
pub open spec fn page_end(page: nat, page_size: nat, len: nat) -> nat {
    if page_size == 0 || page * page_size + page_size > len {
        len
    } else {
        page * page_size + page_size
    }
}

/// The envelopes of a page: of those that the query keeps, from the newest to the oldest, the
/// ones from position `page * page_size` up to the end of the page.
pub open spec fn page_of(
    envelopes: Seq<Envelope>,
    query: Option<SearchEmailsQuery>,
    page: nat,
    page_size: nat,
) -> Seq<Envelope> {
    let all = newest_first(kept(envelopes, query));
    all.subrange(page * page_size as int, page_end(page, page_size, all.len()) as int)
}

/// The place of an envelope is a position among the first `n`, after everything that is not
/// older and before everything that is.
pub proof fn lemma_place(sorted: Seq<Envelope>, date: i64, n: int)
    requires
        0 <= n <= sorted.len(),
        descending(sorted),
    ensures
        0 <= place(sorted, date, n) <= n,
        forall|i: int| 0 <= i < place(sorted, date, n) ==> sorted[i].date >= date,
        forall|i: int| place(sorted, date, n) <= i < n ==> sorted[i].date < date,
    decreases n,
{
    if n > 0 && sorted[n - 1].date < date {
        lemma_place(sorted, date, n - 1);
    } else if n > 0 {
        assert forall|i: int| 0 <= i < n implies sorted[i].date >= date by {
            assert(sorted[i].date >= sorted[n - 1].date);
        }
    }
}

/// From the newest to the oldest, the envelopes are the same, each as often as before, and
/// their dates never rise.
pub proof fn lemma_newest_first(envelopes: Seq<Envelope>)
    ensures
        descending(newest_first(envelopes)),
        newest_first(envelopes).len() == envelopes.len(),
        newest_first(envelopes).to_multiset() == envelopes.to_multiset(),
    decreases envelopes.len(),
{
    if envelopes.len() == 0 {
        assert(newest_first(envelopes) =~= envelopes);
    } else {
        let rest = envelopes.drop_last();
        let last = envelopes.last();
        lemma_newest_first(rest);
        let before = newest_first(rest);
        let at = place(before, last.date, before.len() as int);
        lemma_place(before, last.date, before.len() as int);
        let after = before.insert(at, last);
        assert forall|i: int, j: int| 0 <= i <= j < after.len() implies after[i].date
            >= after[j].date by {
            if i < at && j > at {
                assert(before[i].date >= before[j - 1].date);
            } else if i > at {
                assert(before[i - 1].date >= before[j - 1].date);
            } else if j < at {
                assert(before[i].date >= before[j].date);
            }
        }
        assert(envelopes =~= rest.push(last));
        vstd::seq_lib::to_multiset_insert(before, at, last);
        vstd::seq_lib::to_multiset_build(rest, last);
    }
}

/// Keeps the envelopes that the query keeps.
fn keep(envelopes: Vec<Envelope>, query: Option<&SearchEmailsQuery>) -> (res: Vec<Envelope>)
    ensures
        res@ == kept(
            envelopes@,
            match query {
                Some(q) => Some(*q),
                None => None,
            },
        ),
{
    let ghost q = match query {
        Some(q) => Some(*q),
        None => None,
    };
    let mut rest = envelopes;
    let mut back: Vec<Envelope> = Vec::new();
    // `back` holds, from its end, the envelopes kept so far from the end of the list.
    while rest.len() > 0
        invariant
            rest.len() <= envelopes.len(),
            rest@ == envelopes@.take(rest.len() as int),
            q == (match query {
                Some(q) => Some(*q),
                None => None,
            }),
            kept(envelopes@, q) == kept(rest@, q) + back@.reverse(),
        decreases rest.len(),
    {
        let ghost before = rest@;
        let e = rest.pop().unwrap();
        assert(rest@ == before.drop_last());
        assert(rest@ =~= envelopes@.take(rest.len() as int));
        let keep = match query {
            Some(query) => query.matches_maildir_search_query(&e),
            None => true,
        };
        if keep {
            let ghost old_back = back@;
            back.push(e);
            assert(back@.reverse() =~= seq![e] + old_back.reverse());
            assert(kept(before, q) + old_back.reverse() =~= kept(rest@, q) + back@.reverse());
        }
    }
    assert(envelopes@.take(envelopes.len() as int) == envelopes@);
    let mut out: Vec<Envelope> = Vec::new();
    let ghost all = back@;
    while back.len() > 0
        invariant
            back@ == all.take(back.len() as int),
            back.len() <= all.len(),
            out@ == all.skip(back.len() as int).reverse(),
        decreases back.len(),
    {
        let ghost n = back.len() as int;
        let e = back.pop().unwrap();
        out.push(e);
        assert(back@ =~= all.take(back.len() as int));
        assert(out@ =~= all.skip(back.len() as int).reverse());
    }
    assert(all.skip(0) == all);
    assert(kept(rest@, q) + all.reverse() =~= all.reverse());
    out
}

/// Orders the envelopes from the newest to the oldest, those of one date as they were.
fn sort_newest_first(envelopes: Vec<Envelope>) -> (res: Vec<Envelope>)
    ensures
        res@ == newest_first(envelopes@),
{
    let mut rest = envelopes;
    let mut back: Vec<Envelope> = Vec::new();
    while rest.len() > 0
        invariant
            rest@ == envelopes@.take(rest.len() as int),
            rest.len() <= envelopes.len(),
            back@ == envelopes@.skip(rest.len() as int).reverse(),
        decreases rest.len(),
    {
        let e = rest.pop().unwrap();
        back.push(e);
        assert(rest@ =~= envelopes@.take(rest.len() as int));
        assert(back@ =~= envelopes@.skip(rest.len() as int).reverse());
    }
    assert(envelopes@.skip(0) == envelopes@);
    // `back` is the list from its end; its last envelope is the first of the list.
    let mut out: Vec<Envelope> = Vec::new();
    let ghost n = envelopes@.len() as int;
    assert(envelopes@.take(0) =~= Seq::<Envelope>::empty());
    while back.len() > 0
        invariant
            back.len() <= n,
            n == envelopes@.len(),
            back@ == envelopes@.reverse().take(back.len() as int),
            out@ == newest_first(envelopes@.take(n - back.len())),
        decreases back.len(),
    {
        let ghost done = n - back.len();
        let e = back.pop().unwrap();
        assert(e == envelopes@[done]);
        assert(envelopes@.take(done + 1).drop_last() =~= envelopes@.take(done));
        assert(envelopes@.take(done + 1).last() == e);
        let mut at: usize = out.len();
        while at > 0 && out[at - 1].date < e.date
            invariant
                at <= out.len(),
                place(out@, e.date, out.len() as int) == place(out@, e.date, at as int),
            decreases at,
        {
            at -= 1;
        }
        out.insert(at, e);
        assert(back@ =~= envelopes@.reverse().take(back.len() as int));
    }
    assert(envelopes@.take(n) == envelopes@);
    out
}

/// Lists a page of the envelopes of `folder`: of those that the query keeps, from the newest
/// to the oldest, the ones of the page. A page that starts after the last envelope is
/// refused, with the position it starts at, counted from one.
pub fn list_page(
    envelopes: Vec<Envelope>,
    query: Option<&SearchEmailsQuery>,
    folder: &str,
    page: usize,
    page_size: usize,
) -> (res: Result<Vec<Envelope>, Error>)
    requires
        page * page_size < usize::MAX,
    ensures
        ({
            let q = match query {
                Some(q) => Some(*q),
                None => None,
            };
            match res {
                Ok(list) => page * page_size <= kept(envelopes@, q).len() && list@ == page_of(
                    envelopes@,
                    q,
                    page as nat,
                    page_size as nat,
                ),
                Err(Error::GetEnvelopesOutOfBoundsError(name, position)) => page * page_size > kept(
                    envelopes@,
                    q,
                ).len() && name@ == folder@ && position == page * page_size + 1,
            }
        }),
{
    let ghost q = match query {
        Some(q) => Some(*q),
        None => None,
    };
    let list = keep(envelopes, query);
    proof {
        lemma_newest_first(list@);
    }
    let page_begin: usize = page * page_size;
    if page_begin > list.len() {
        return Err(Error::GetEnvelopesOutOfBoundsError(String::from_str(folder), page_begin + 1));
    }
    let page_end: usize = if page_size == 0 || page_size > list.len() - page_begin {
        list.len()
    } else {
        page_begin + page_size
    };
    let mut list = sort_newest_first(list);
    list.truncate(page_end);
    let listed = list.split_off(page_begin);
    assert(listed@ =~= page_of(envelopes@, q, page as nat, page_size as nat));
    Ok(listed)
}

/// What is configured for a Maildir.
#[derive(Clone, Debug, PartialEq, Eq)]
pub struct MaildirConfig {
    /// The directory that holds the folders.
    pub root_dir: String,
}

/// What the features of the Maildir backend work with.
#[derive(Clone, Debug, PartialEq, Eq)]
pub struct MaildirContextSync {
    /// The account configuration.
    pub account_config: AccountConfig,
    /// The Maildir configuration.
    pub maildir_config: MaildirConfig,
}

/// Which envelopes of a folder to list.
#[derive(Debug, PartialEq, Eq)]
pub struct ListEnvelopesOptions {
    /// How many envelopes a page holds; zero for all of them on one page.
    pub page_size: usize,
    /// The page, counted from zero.
    pub page: usize,
    /// The query that the envelopes must match, where there is one.
    pub query: Option<SearchEmailsQuery>,
}

/// Lists the envelopes of the folders of a Maildir.
#[derive(Debug, PartialEq, Eq)]
pub struct ListMaildirEnvelopes<'a> {
    ctx: &'a MaildirContextSync,
}

impl<'a> ListMaildirEnvelopes<'a> {
    /// The context that the feature works with.
    pub closed spec fn context(&self) -> MaildirContextSync {
        *self.ctx
    }

    /// The feature for a context.
    pub fn new(ctx: &'a MaildirContextSync) -> (res: Self)
        ensures
            res.context() == *ctx,
    {
        ListMaildirEnvelopes { ctx }
    }

    /// Lists the page that `opts` asks for of the envelopes read from `folder`: see
    /// `list_page`.
    pub fn list_envelopes(&self, folder: &str, envelopes: Vec<Envelope>, opts: &ListEnvelopesOptions) -> (res:
        Result<Vec<Envelope>, Error>)
        requires
            opts.page * opts.page_size < usize::MAX,
        ensures
            match res {
                Ok(list) => opts.page * opts.page_size <= kept(envelopes@, opts.query).len()
                    && list@ == page_of(
                    envelopes@,
                    opts.query,
                    opts.page as nat,
                    opts.page_size as nat,
                ),
                Err(Error::GetEnvelopesOutOfBoundsError(name, position)) => opts.page
                    * opts.page_size > kept(envelopes@, opts.query).len() && name@ == folder@
                    && position == opts.page * opts.page_size + 1,
            },
    {
        list_page(envelopes, opts.query.as_ref(), folder, opts.page, opts.page_size)
    }
}

} // verus!
