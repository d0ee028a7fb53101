//! The filter that decides which content types are shown.

use crate::text::same_text;
use vstd::prelude::*;

verus! {

/// Whether some entry of `list` holds the text `s`.
pub open spec fn has_text(list: Seq<String>, s: Seq<char>) -> bool {
    exists|i: int| 0 <= i < list.len() && (#[trigger] list[i])@ == s
}

/// Decides whether some entry of `list` holds the text `s`.
pub fn list_contains(list: &Vec<String>, s: &str) -> (res: bool)
    ensures
        res == has_text(list@, s@),
{
    let mut i: usize = 0;
    while i < list.len()
        invariant
            i <= list.len(),
            forall|j: int| 0 <= j < i ==> (#[trigger] list@[j])@ != s@,
        decreases list.len() - i,
    {
        if same_text(list[i].as_str(), s) {
            return true;
        }
        i += 1;
    }
    false
}

/// Filters the parts to show by content type.
#[derive(Clone, Debug, PartialEq, Eq)]
pub enum FilterParts {
    /// Shows every part, each type but plain text inside markup.
    All,
    /// Shows only the parts of the given type, without markup.
    Only(String),
    /// Shows only the parts whose type is listed.
    Include(Vec<String>),
    /// Shows every part but those whose type is listed.
    Exclude(Vec<String>),
}

impl FilterParts {
    /// Whether `ctype` is the single type that this filter shows.
    pub open spec fn is_sole_focus(&self, ctype: Seq<char>) -> bool {
        match self {
            FilterParts::Only(t) => t@ == ctype,
            _ => false,
        }
    }

    /// Whether parts of type `ctype` are shown.
    pub open spec fn is_visible(&self, ctype: Seq<char>) -> bool {
        match self {
            FilterParts::All => true,
            FilterParts::Only(t) => t@ == ctype,
            FilterParts::Include(ts) => has_text(ts@, ctype),
            FilterParts::Exclude(ts) => !has_text(ts@, ctype),
        }
    }

    /// Whether `ctype` is the single type that this filter shows, in which case it is shown
    /// without markup.
    pub fn only(&self, ctype: &str) -> (res: bool)
        ensures
            res == self.is_sole_focus(ctype@),
    {
        match self {
            FilterParts::Only(t) => same_text(t.as_str(), ctype),
            _ => false,
        }
    }

    /// Whether parts of type `ctype` are shown.
    pub fn contains(&self, ctype: &str) -> (res: bool)
        ensures
            res == self.is_visible(ctype@),
    {
        match self {
            FilterParts::All => true,
            FilterParts::Only(t) => same_text(t.as_str(), ctype),
            FilterParts::Include(ts) => list_contains(ts, ctype),
            FilterParts::Exclude(ts) => !list_contains(ts, ctype),
        }
    }
}

impl Default for FilterParts {
    fn default() -> (res: Self)
        ensures
            res == FilterParts::All,
    {
        FilterParts::All
    }
}

/// A type that is the sole focus of a filter is shown by it, and only the filter that shows a
/// single type has a sole focus.
pub proof fn law_sole_focus_is_visible(filter: FilterParts, ctype: Seq<char>)
    requires
        filter.is_sole_focus(ctype),
    ensures
        filter.is_visible(ctype),
        filter is Only,
{
}

} // verus!
