//! Pages of a folder's envelopes, as IMAP sequence sets.

use crate::text::{decimal, string_from_chars, to_decimal};
use vstd::prelude::*;
use vstd::string::*;

verus! {

/// Why a page cannot be listed.
#[derive(Clone, Debug, PartialEq, Eq)]
pub enum Error {
    /// The page, counted from one, starts after the last envelope.
    BuildPageRangeOutOfBoundsError(usize),
}

/// The sequence set of `n` numbers that go down from `first`: their decimal notations with
/// commas between them.
pub open spec fn descending(first: nat, n: nat) -> Seq<char>
    decreases n,
{
    if n <= 1 || first < n {
        decimal(first)
    } else {
        descending(first, (n - 1) as nat) + ","@ + decimal((first + 1 - n) as nat)
    }
}

/// The sequence set of a page: everything where pages have no size, else the numbers of the
/// page's envelopes, the newest first. Envelopes are numbered from one, the oldest first, and
/// pages are counted from zero, the newest envelopes first.
pub open spec fn page_range(page: nat, page_size: nat, size: nat) -> Seq<char> {
    if page_size == 0 {
        "1:*"@
    } else {
        let first = (size - page * page_size) as nat;
        descending(
            first,
            if page_size < first {
                page_size
            } else {
                first
            },
        )
    }
}

/// Builds the IMAP sequence set for the given page, page size and number of envelopes. A page
/// that starts after the last envelope is refused, with its number counted from one.
pub fn build_page_range(page: usize, page_size: usize, size: usize) -> (res: Result<String, Error>)
    requires
        page < usize::MAX,
    ensures
        page * page_size >= size ==> res == Err::<String, Error>(
            Error::BuildPageRangeOutOfBoundsError((page + 1) as usize),
        ),
        page * page_size < size ==> res is Ok && res->Ok_0@ == page_range(
            page as nat,
            page_size as nat,
            size as nat,
        ),
{
    let page_cursor: usize = match page.checked_mul(page_size) {
        Some(c) => c,
        None => {
            return Err(Error::BuildPageRangeOutOfBoundsError(page + 1));
        },
    };
    if page_cursor >= size {
        return Err(Error::BuildPageRangeOutOfBoundsError(page + 1));
    }
    if page_size == 0 {
        return Ok(String::from_str("1:*"));
    }
    let first: usize = size - page_cursor;
    let n: usize = if page_size < first {
        page_size
    } else {
        first
    };
    let mut count: usize = 1;
    let mut cursor: usize = first;
    let mut range: Vec<char> = to_decimal(cursor);
    while cursor > 1 && count < n
        invariant
            1 <= count <= n <= first,
            cursor + count == first + 1,
            range@ == descending(first as nat, count as nat),
        decreases cursor,
    {
        count += 1;
        cursor -= 1;
        range.push(',');
        let mut digits = to_decimal(cursor);
        range.append(&mut digits);
        proof {
            reveal_strlit(",");
            assert(","@ =~= seq![',']);
            assert(range@ =~= descending(first as nat, (count - 1) as nat) + ","@ + decimal(
                cursor as nat,
            ));
        }
    }
    Ok(string_from_chars(&range))
}

/// The sequence set of the first `n` of the given numbers: their decimal notations with commas
/// between them.
pub open spec fn listed(uids: Seq<u32>, n: int) -> Seq<char>
    decreases n,
{
    if n <= 0 || n > uids.len() {
        Seq::empty()
    } else if n == 1 {
        decimal(uids[0] as nat)
    } else {
        listed(uids, n - 1) + ","@ + decimal(uids[n - 1] as nat)
    }
}

/// Builds the IMAP sequence set of the given message numbers, in their order.
pub fn build_uid_range(uids: &Vec<u32>) -> (res: String)
    ensures
        res@ == listed(uids@, uids.len() as int),
{
    let mut range: Vec<char> = Vec::new();
    let mut i: usize = 0;
    while i < uids.len()
        invariant
            i <= uids.len(),
            range@ == listed(uids@, i as int),
        decreases uids.len() - i,
    {
        if i > 0 {
            range.push(',');
        }
        let mut digits = to_decimal(uids[i] as usize);
        range.append(&mut digits);
        i += 1;
        proof {
            reveal_strlit(",");
            assert(","@ =~= seq![',']);
            assert(range@ =~= listed(uids@, i as int));
        }
    }
    string_from_chars(&range)
}

} // verus!
