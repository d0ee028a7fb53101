//! Folders, and the order in which a listing shows them.

use crate::account::FolderAlias;
use crate::text::chars_of;
use vstd::prelude::*;

verus! {

/// What a folder is for.
#[derive(Clone, Copy, Debug, PartialEq, Eq)]
pub enum FolderKind {
    Inbox,
    Sent,
    Drafts,
    Trash,
}

/// A folder: its kind where it has one, its name and its description.
#[derive(Clone, Debug, PartialEq, Eq)]
pub struct Folder {
    pub kind: Option<FolderKind>,
    pub name: String,
    pub desc: String,
}

/// Whether `a` comes before `b` in the order of texts, seen from position `i` on: the texts
/// are compared character by character, by the numbers of the characters, and a text comes
/// before those that it starts.
pub open spec fn before_from(a: Seq<char>, b: Seq<char>, i: int) -> bool
    decreases a.len() - i,
{
    if i < 0 || i >= b.len() {
        false
    } else if i >= a.len() {
        true
    } else if (a[i] as u32) != (b[i] as u32) {
        (a[i] as u32) < (b[i] as u32)
    } else {
        before_from(a, b, i + 1)
    }
}

/// Whether `a` comes before `b` in the order of texts.
pub open spec fn text_before(a: Seq<char>, b: Seq<char>) -> bool {
    before_from(a, b, 0)
}

/// Of two texts, one at most comes before the other.
pub proof fn lemma_before_asymmetric(a: Seq<char>, b: Seq<char>, i: int)
    requires
        0 <= i,
        before_from(a, b, i),
    ensures
        !before_from(b, a, i),
    decreases a.len() - i,
{
    if i < a.len() && i < b.len() && (a[i] as u32) == (b[i] as u32) {
        lemma_before_asymmetric(a, b, i + 1);
    }
}

/// Where `a` does not come before `b`, nor `b` before `c`, `a` does not come before `c`.
pub proof fn lemma_not_before_transitive(a: Seq<char>, b: Seq<char>, c: Seq<char>, i: int)
    requires
        0 <= i,
        !before_from(a, b, i),
        !before_from(b, c, i),
    ensures
        !before_from(a, c, i),
    decreases a.len() - i,
{
    if i < a.len() && i < b.len() && i < c.len() && (a[i] as u32) == (b[i] as u32) && (b[i] as u32)
        == (c[i] as u32) {
        lemma_not_before_transitive(a, b, c, i + 1);
    }
}

/// The folder that an alias stands for in a listing: the alias is its description.
pub open spec fn folder_of(alias: FolderAlias) -> Folder {
    Folder { kind: None, name: alias.name, desc: alias.alias }
}

/// Where a folder of the name `name` goes among the first `n` of `sorted`, whose names go
/// down: before the first whose name comes before `name`.
pub open spec fn place(sorted: Seq<Folder>, name: Seq<char>, n: int) -> int
    decreases n,
{
    if n <= 0 || n > sorted.len() {
        0
    } else if !text_before(sorted[n - 1].name@, name) {
        n
    } else {
        place(sorted, name, n - 1)
    }
}

/// The folders of the first `n` aliases, from the last name in the order of texts to the
/// first; folders of one name in the order of their aliases.
pub open spec fn listing(aliases: Seq<FolderAlias>, n: int) -> Seq<Folder>
    decreases n,
{
    if n <= 0 || n > aliases.len() {
        Seq::empty()
    } else {
        let before = listing(aliases, n - 1);
        before.insert(
            place(before, aliases[n - 1].name@, before.len() as int),
            folder_of(aliases[n - 1]),
        )
    }
}

/// Whether the names never rise along the sequence.
pub open spec fn descending(folders: Seq<Folder>) -> bool {
    forall|i: int, j: int|
        0 <= i <= j < folders.len() ==> !text_before(folders[i].name@, folders[j].name@)
}

/// The place of a folder is a position among the first `n`, after every name that does not
/// come before its own and before every name that does.
pub proof fn lemma_place(sorted: Seq<Folder>, name: Seq<char>, n: int)
    requires
        0 <= n <= sorted.len(),
        descending(sorted),
    ensures
        0 <= place(sorted, name, n) <= n,
        forall|i: int| 0 <= i < place(sorted, name, n) ==> !text_before(sorted[i].name@, name),
        forall|i: int| place(sorted, name, n) <= i < n ==> text_before(sorted[i].name@, name),
    decreases n,
{
    if n > 0 && text_before(sorted[n - 1].name@, name) {
        lemma_place(sorted, name, n - 1);
    } else if n > 0 {
        assert forall|i: int| 0 <= i < n implies !text_before(sorted[i].name@, name) by {
            assert(!text_before(sorted[i].name@, sorted[n - 1].name@));
            lemma_not_before_transitive(sorted[i].name@, sorted[n - 1].name@, name, 0);
        }
    }
}

/// A listing holds one folder for each alias, and its names never rise.
pub proof fn law_listing(aliases: Seq<FolderAlias>, n: int)
    requires
        0 <= n <= aliases.len(),
    ensures
        descending(listing(aliases, n)),
        listing(aliases, n).len() == n,
        listing(aliases, n).to_multiset() == aliases.take(n).map_values(
            |a: FolderAlias| folder_of(a),
        ).to_multiset(),
    decreases n,
{
    let folders = aliases.take(n).map_values(|a: FolderAlias| folder_of(a));
    if n == 0 {
        assert(listing(aliases, n) =~= folders);
    } else {
        law_listing(aliases, n - 1);
        let before = listing(aliases, n - 1);
        let new = folder_of(aliases[n - 1]);
        let at = place(before, new.name@, before.len() as int);
        lemma_place(before, new.name@, before.len() as int);
        let after = before.insert(at, new);
        assert forall|i: int, j: int| 0 <= i <= j < after.len() implies !text_before(
            after[i].name@,
            after[j].name@,
        ) by {
            if i < at && j > at {
                assert(!text_before(before[i].name@, before[j - 1].name@));
            } else if i > at {
                assert(!text_before(before[i - 1].name@, before[j - 1].name@));
            } else if j < at {
                assert(!text_before(before[i].name@, before[j].name@));
            } else if i == at && j > at {
                lemma_before_asymmetric(before[j - 1].name@, new.name@, 0);
            } else if i == at && j == at {
                if text_before(new.name@, new.name@) {
                    lemma_before_asymmetric(new.name@, new.name@, 0);
                }
            }
        }
        let earlier = aliases.take(n - 1).map_values(|a: FolderAlias| folder_of(a));
        assert(folders =~= earlier.push(new));
        vstd::seq_lib::to_multiset_insert(before, at, new);
        vstd::seq_lib::to_multiset_build(earlier, new);
    }
}

/// Decides whether `a` comes before `b` in the order of texts.
pub fn comes_before(a: &str, b: &str) -> (res: bool)
    ensures
        res == text_before(a@, b@),
{
    let x = chars_of(a);
    let y = chars_of(b);
    let mut i: usize = 0;
    while i < x.len() && i < y.len()
        invariant
            x@ == a@,
            y@ == b@,
            i <= x.len(),
            i <= y.len(),
            text_before(a@, b@) == before_from(a@, b@, i as int),
        decreases x.len() - i,
    {
        if (x[i] as u32) != (y[i] as u32) {
            return (x[i] as u32) < (y[i] as u32);
        }
        i += 1;
    }
    i < y.len()
}

/// Lists the folders that the aliases stand for, from the last name to the first.
pub fn list_aliases(aliases: &Vec<FolderAlias>) -> (res: Vec<Folder>)
    ensures
        res@ == listing(aliases@, aliases.len() as int),
{
    let mut out: Vec<Folder> = Vec::new();
    let mut n: usize = 0;
    while n < aliases.len()
        invariant
            n <= aliases.len(),
            out@ == listing(aliases@, n as int),
        decreases aliases.len() - n,
    {
        let folder = Folder {
            kind: None,
            name: aliases[n].name.clone(),
            desc: aliases[n].alias.clone(),
        };
        let mut at: usize = out.len();
        while at > 0 && comes_before(out[at - 1].name.as_str(), folder.name.as_str())
            invariant
                at <= out.len(),
                place(out@, folder.name@, out.len() as int) == place(out@, folder.name@, at as int),
            decreases at,
        {
            at -= 1;
        }
        out.insert(at, folder);
        n += 1;
    }
    out
}

} // verus!
