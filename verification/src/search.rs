//! Queries over envelopes: how a filter reads as an IMAP search, and which envelopes a query
//! matches.

use crate::text::chars_of;
use vstd::prelude::*;
use vstd::string::*;

verus! {

/// A mailbox of an envelope: a display name, where there is one, and an address.
#[derive(Clone, Debug, PartialEq, Eq)]
pub struct Address {
    pub name: Option<String>,
    pub addr: String,
}

/// A flag of an envelope.
#[derive(Clone, Debug, PartialEq, Eq)]
pub enum Flag {
    Seen,
    Answered,
    Flagged,
    Deleted,
    Draft,
    Custom(String),
}

/// What a listing shows of a message. The date counts seconds, so that a later message has
/// the greater date.
#[derive(Clone, Debug, PartialEq, Eq)]
pub struct Envelope {
    pub id: String,
    pub flags: Vec<Flag>,
    pub subject: String,
    pub from: Address,
    pub to: Address,
    pub date: i64,
}

/// A filter on the envelopes to list. Dates are held as they are written in a search.
#[derive(Debug, PartialEq, Eq)]
pub enum ListEnvelopesFilter {
    And(Box<ListEnvelopesFilter>, Box<ListEnvelopesFilter>),
    Or(Box<ListEnvelopesFilter>, Box<ListEnvelopesFilter>),
    Not(Box<ListEnvelopesFilter>),
    Folder(String),
    Before(String),
    After(String),
    From(String),
    To(String),
    Subject(String),
    Body(String),
    Keyword(String),
}

/// A condition on an envelope.
#[derive(Debug, PartialEq, Eq)]
pub enum SearchEmailsQueryFilter {
    And(Box<SearchEmailsQueryFilter>, Box<SearchEmailsQueryFilter>),
    Or(Box<SearchEmailsQueryFilter>, Box<SearchEmailsQueryFilter>),
    Not(Box<SearchEmailsQueryFilter>),
    Before(i64),
    After(i64),
    From(String),
    To(String),
    Subject(String),
    Body(String),
    Keyword(String),
}

/// What envelopes are ordered by.
#[derive(Clone, Copy, Debug, PartialEq, Eq)]
pub enum SearchEmailsQuerySorter {
    DateAscending,
    DateDescending,
    FromAscending,
    FromDescending,
    ToAscending,
    ToDescending,
    SubjectAscending,
    SubjectDescending,
}

/// A query on the envelopes of a folder: which to keep, and in what order.
#[derive(Debug, PartialEq, Eq)]
pub struct SearchEmailsQuery {
    pub filters: Option<SearchEmailsQueryFilter>,
    pub sorters: Option<Vec<SearchEmailsQuerySorter>>,
}

/// Whether `pattern` occurs in `s` at position `i`.
pub open spec fn occurs_at(s: Seq<char>, pattern: Seq<char>, i: int) -> bool {
    0 <= i && i + pattern.len() <= s.len() && s.subrange(i, i + pattern.len()) == pattern
}

/// Whether `pattern` occurs in `s`.
pub open spec fn has_substring(s: Seq<char>, pattern: Seq<char>) -> bool {
    exists|i: int| occurs_at(s, pattern, i)
}

/// The name of a flag.
pub open spec fn flag_name(flag: Flag) -> Seq<char> {
    match flag {
        Flag::Seen => "seen"@,
        Flag::Answered => "answered"@,
        Flag::Flagged => "flagged"@,
        Flag::Deleted => "deleted"@,
        Flag::Draft => "draft"@,
        Flag::Custom(name) => name@,
    }
}

/// Whether `pattern` occurs in the display name or in the address.
pub open spec fn address_has(address: Address, pattern: Seq<char>) -> bool {
    (match address.name {
        Some(name) => has_substring(name@, pattern),
        None => false,
    }) || has_substring(address.addr@, pattern)
}

/// Whether `pattern` occurs in the name of one of the flags.
pub open spec fn flags_have(flags: Seq<Flag>, pattern: Seq<char>) -> bool {
    exists|i: int| 0 <= i < flags.len() && has_substring(flag_name(#[trigger] flags[i]), pattern)
}

/// Whether a query keeps an envelope: its condition holds of it, or it has none.
pub open spec fn query_matches(query: SearchEmailsQuery, envelope: Envelope) -> bool {
    match query.filters {
        Some(filter) => filter_matches(filter, envelope),
        None => true,
    }
}

/// Whether a condition holds of an envelope. `Before` holds up to the date itself, `After` only
/// of later dates. A condition on the body holds of every envelope, which has no body.
pub open spec fn filter_matches(query: SearchEmailsQueryFilter, envelope: Envelope) -> bool
    decreases query,
{
    match query {
        SearchEmailsQueryFilter::And(left, right) => filter_matches(*left, envelope) && filter_matches(*right,
            envelope,
        ),
        SearchEmailsQueryFilter::Or(left, right) => filter_matches(*left, envelope) || filter_matches(*right,
            envelope,
        ),
        SearchEmailsQueryFilter::Not(query) => !filter_matches(*query, envelope),
        SearchEmailsQueryFilter::Before(date) => envelope.date <= date,
        SearchEmailsQueryFilter::After(date) => envelope.date > date,
        SearchEmailsQueryFilter::From(pattern) => address_has(envelope.from, pattern@),
        SearchEmailsQueryFilter::To(pattern) => address_has(envelope.to, pattern@),
        SearchEmailsQueryFilter::Subject(pattern) => has_substring(envelope.subject@, pattern@),
        SearchEmailsQueryFilter::Body(_) => true,
        SearchEmailsQueryFilter::Keyword(pattern) => flags_have(envelope.flags@, pattern@),
    }
}

/// How a filter reads as an IMAP search.
pub open spec fn imap_search_query(filter: ListEnvelopesFilter) -> Seq<char>
    decreases filter,
{
    match filter {
        ListEnvelopesFilter::And(left, right) => imap_search_query(*left) + " "@
            + imap_search_query(*right),
        ListEnvelopesFilter::Or(left, right) => "OR ("@ + imap_search_query(*left) + ") ("@
            + imap_search_query(*right) + ")"@,
        ListEnvelopesFilter::Not(filter) => "NOT ("@ + imap_search_query(*filter) + ")"@,
        ListEnvelopesFilter::Folder(_) => Seq::empty(),
        ListEnvelopesFilter::Before(date) => "BEFORE "@ + date@,
        ListEnvelopesFilter::After(date) => "SINCE "@ + date@,
        ListEnvelopesFilter::From(addr) => "FROM "@ + addr@,
        ListEnvelopesFilter::To(addr) => "TO "@ + addr@,
        ListEnvelopesFilter::Subject(subject) => "SUBJECT "@ + subject@,
        ListEnvelopesFilter::Body(body) => "BODY "@ + body@,
        ListEnvelopesFilter::Keyword(keyword) => "KEYWORD "@ + keyword@,
    }
}

/// Decides whether `pattern` occurs in `s` at position `i`.
fn matches_at(s: &Vec<char>, pattern: &Vec<char>, i: usize) -> (res: bool)
    requires
        i + pattern.len() <= s.len(),
    ensures
        res == occurs_at(s@, pattern@, i as int),
{
    let mut k: usize = 0;
    while k < pattern.len()
        invariant
            k <= pattern.len(),
            i + pattern.len() <= s.len(),
            forall|j: int| 0 <= j < k ==> s@[i + j] == pattern@[j],
        decreases pattern.len() - k,
    {
        if s[i + k] != pattern[k] {
            assert(s@.subrange(i as int, i + pattern.len())[k as int] != pattern@[k as int]);
            return false;
        }
        k += 1;
    }
    assert(s@.subrange(i as int, i + pattern.len()) =~= pattern@);
    true
}

/// Decides whether `pattern` occurs in `s`.
pub fn contains_text(s: &str, pattern: &str) -> (res: bool)
    ensures
        res == has_substring(s@, pattern@),
{
    let text = chars_of(s);
    let wanted = chars_of(pattern);
    if wanted.len() > text.len() {
        assert forall|i: int| !occurs_at(s@, pattern@, i) by {}
        return false;
    }
    let last: usize = text.len() - wanted.len();
    let mut i: usize = 0;
    while i < last
        invariant
            text@ == s@,
            wanted@ == pattern@,
            last + wanted.len() == text.len(),
            i <= last,
            forall|j: int| 0 <= j < i ==> !occurs_at(s@, pattern@, j),
        decreases last - i,
    {
        if matches_at(&text, &wanted, i) {
            return true;
        }
        i += 1;
    }
    let res = matches_at(&text, &wanted, last);
    assert(!res ==> forall|j: int| !occurs_at(s@, pattern@, j));
    res
}

impl Flag {
    /// The name of the flag.
    pub fn name(&self) -> (res: String)
        ensures
            res@ == flag_name(*self),
    {
        match self {
            Flag::Seen => String::from_str("seen"),
            Flag::Answered => String::from_str("answered"),
            Flag::Flagged => String::from_str("flagged"),
            Flag::Deleted => String::from_str("deleted"),
            Flag::Draft => String::from_str("draft"),
            Flag::Custom(name) => name.clone(),
        }
    }
}

/// Decides whether `pattern` occurs in the display name or in the address.
fn address_contains(address: &Address, pattern: &str) -> (res: bool)
    ensures
        res == address_has(*address, pattern@),
{
    match &address.name {
        Some(name) => {
            if contains_text(name.as_str(), pattern) {
                return true;
            }
        },
        None => {},
    }
    contains_text(address.addr.as_str(), pattern)
}

/// Decides whether `pattern` occurs in the name of one of the flags.
fn flags_contain(flags: &Vec<Flag>, pattern: &str) -> (res: bool)
    ensures
        res == flags_have(flags@, pattern@),
{
    let mut i: usize = 0;
    while i < flags.len()
        invariant
            i <= flags.len(),
            forall|j: int|
                0 <= j < i ==> !has_substring(flag_name(#[trigger] flags@[j]), pattern@),
        decreases flags.len() - i,
    {
        let name = flags[i].name();
        if contains_text(name.as_str(), pattern) {
            assert(has_substring(flag_name(flags@[i as int]), pattern@));
            return true;
        }
        i += 1;
    }
    false
}

impl SearchEmailsQueryFilter {
    /// Decides whether the condition holds of `envelope`.
    pub fn matches_maildir_search_query(&self, envelope: &Envelope) -> (res: bool)
        ensures
            res == filter_matches(*self, *envelope),
        decreases self,
    {
        match self {
            SearchEmailsQueryFilter::And(left, right) => {
                let left = left.matches_maildir_search_query(envelope);
                let right = right.matches_maildir_search_query(envelope);
                left && right
            },
            SearchEmailsQueryFilter::Or(left, right) => {
                let left = left.matches_maildir_search_query(envelope);
                let right = right.matches_maildir_search_query(envelope);
                left || right
            },
            SearchEmailsQueryFilter::Not(query) => !query.matches_maildir_search_query(envelope),
            SearchEmailsQueryFilter::Before(date) => envelope.date <= *date,
            SearchEmailsQueryFilter::After(date) => envelope.date > *date,
            SearchEmailsQueryFilter::From(pattern) => address_contains(&envelope.from, pattern.as_str()),
            SearchEmailsQueryFilter::To(pattern) => address_contains(&envelope.to, pattern.as_str()),
            SearchEmailsQueryFilter::Subject(pattern) => contains_text(
                envelope.subject.as_str(),
                pattern.as_str(),
            ),
            SearchEmailsQueryFilter::Body(_) => true,
            SearchEmailsQueryFilter::Keyword(pattern) => flags_contain(
                &envelope.flags,
                pattern.as_str(),
            ),
        }
    }
}

impl SearchEmailsQuery {
    /// Decides whether the query keeps `envelope`.
    pub fn matches_maildir_search_query(&self, envelope: &Envelope) -> (res: bool)
        ensures
            res == query_matches(*self, *envelope),
    {
        match &self.filters {
            Some(filter) => filter.matches_maildir_search_query(envelope),
            None => true,
        }
    }
}

impl ListEnvelopesFilter {
    /// Writes the filter as an IMAP search.
    pub fn to_imap_search_query(&self) -> (res: String)
        ensures
            res@ == imap_search_query(*self),
        decreases self,
    {
        match self {
            ListEnvelopesFilter::And(left, right) => {
                let mut out = left.to_imap_search_query();
                let right = right.to_imap_search_query();
                out.append(" ");
                out.append(right.as_str());
                out
            },
            ListEnvelopesFilter::Or(left, right) => {
                let left = left.to_imap_search_query();
                let right = right.to_imap_search_query();
                let mut out = String::from_str("OR (");
                out.append(left.as_str());
                out.append(") (");
                out.append(right.as_str());
                out.append(")");
                out
            },
            ListEnvelopesFilter::Not(filter) => {
                let filter = filter.to_imap_search_query();
                let mut out = String::from_str("NOT (");
                out.append(filter.as_str());
                out.append(")");
                out
            },
            ListEnvelopesFilter::Folder(_) => String::new(),
            ListEnvelopesFilter::Before(date) => keyed("BEFORE ", date),
            ListEnvelopesFilter::After(date) => keyed("SINCE ", date),
            ListEnvelopesFilter::From(addr) => keyed("FROM ", addr),
            ListEnvelopesFilter::To(addr) => keyed("TO ", addr),
            ListEnvelopesFilter::Subject(subject) => keyed("SUBJECT ", subject),
            ListEnvelopesFilter::Body(body) => keyed("BODY ", body),
            ListEnvelopesFilter::Keyword(keyword) => keyed("KEYWORD ", keyword),
        }
    }
}

/// A search key and its argument.
fn keyed(key: &str, value: &String) -> (res: String)
    ensures
        res@ == key@ + value@,
{
    let mut out = String::from_str(key);
    out.append(value.as_str());
    out
}

} // verus!
