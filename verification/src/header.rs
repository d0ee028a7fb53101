//! The header block of a document.

use crate::filter::{has_text, list_contains};
use crate::mime::{Header, Message};
use crate::value::{display_value, shown_value};
use vstd::prelude::*;
use vstd::string::*;

verus! {

/// Which headers a document shows.
#[derive(Clone, Debug, PartialEq, Eq)]
pub enum ShowHeadersStrategy {
    /// Every header of the message, in the order in which the message declares them.
    All,
    /// The listed headers that the message has, in the order of the list.
    Only(Vec<String>),
}

/// The texts of a list of strings.
pub open spec fn names_of(list: Seq<String>) -> Seq<Seq<char>> {
    list.map_values(|s: String| s@)
}

/// A strategy as a mathematical value.
pub enum HeadersView {
    All,
    Only(Seq<Seq<char>>),
}

impl View for ShowHeadersStrategy {
    type V = HeadersView;

    open spec fn view(&self) -> HeadersView {
        match self {
            ShowHeadersStrategy::All => HeadersView::All,
            ShowHeadersStrategy::Only(headers) => HeadersView::Only(names_of(headers@)),
        }
    }
}

/// A list holds a text exactly when the texts of the list do.
pub proof fn lemma_has_text_names(list: Seq<String>, s: Seq<char>)
    ensures
        has_text(list, s) == names_of(list).contains(s),
{
    if has_text(list, s) {
        let i = choose|i: int| 0 <= i < list.len() && (#[trigger] list[i])@ == s;
        assert(names_of(list)[i] == s);
    }
    if names_of(list).contains(s) {
        let i = choose|i: int| 0 <= i < names_of(list).len() && names_of(list)[i] == s;
        assert(list[i]@ == s);
    }
}

impl Default for ShowHeadersStrategy {
    fn default() -> (res: Self)
        ensures
            res == ShowHeadersStrategy::All,
    {
        ShowHeadersStrategy::All
    }
}

impl ShowHeadersStrategy {
    /// Whether the strategy lists `header`.
    pub open spec fn lists(&self, header: Seq<char>) -> bool {
        match self {
            ShowHeadersStrategy::All => false,
            ShowHeadersStrategy::Only(headers) => has_text(headers@, header),
        }
    }

    /// Whether the strategy lists `header` by name. `All` lists nothing.
    pub fn contains(&self, header: &String) -> (res: bool)
        ensures
            res == self.lists(header@),
    {
        match self {
            ShowHeadersStrategy::All => false,
            ShowHeadersStrategy::Only(headers) => list_contains(headers, header.as_str()),
        }
    }
}

/// The line that shows one header: its name, and its value as it is shown.
pub open spec fn header_line(name: Seq<char>, value: Seq<char>) -> Seq<char> {
    name + ": "@ + value + "\n"@
}

/// The lines of the first `n` headers.
pub open spec fn all_lines(headers: Seq<Header>, n: int) -> Seq<char>
    decreases n,
{
    if n <= 0 || n > headers.len() {
        Seq::empty()
    } else {
        all_lines(headers, n - 1) + header_line(
            headers[n - 1].name@,
            shown_value(headers[n - 1].name@, headers[n - 1].value),
        )
    }
}

/// The lines of those of the first `n` listed names that the message has a header for. A line
/// shows the name as listed, and the value as it is shown under that name.
pub open spec fn only_lines(msg: Message, keys: Seq<String>, n: int) -> Seq<char>
    decreases n,
{
    if n <= 0 || n > keys.len() {
        Seq::empty()
    } else {
        only_lines(msg, keys, n - 1) + match msg.header(keys[n - 1]@) {
            Some(h) => header_line(keys[n - 1]@, shown_value(keys[n - 1]@, h.value)),
            None => Seq::empty(),
        }
    }
}

/// The header lines of a message under a strategy.
pub open spec fn header_lines(strategy: ShowHeadersStrategy, msg: Message) -> Seq<char> {
    match strategy {
        ShowHeadersStrategy::All => all_lines(msg.headers@, msg.headers.len() as int),
        ShowHeadersStrategy::Only(keys) => only_lines(msg, keys@, keys.len() as int),
    }
}

/// The header block of a document: the header lines, and an empty line after them where there
/// are any.
pub open spec fn header_block(strategy: ShowHeadersStrategy, msg: Message) -> Seq<char> {
    let lines = header_lines(strategy, msg);
    if lines.len() > 0 {
        lines + "\n"@
    } else {
        lines
    }
}

/// Appends the line that shows one header.
fn push_line(out: &mut String, name: &str, value: &str)
    ensures
        final(out)@ == old(out)@ + header_line(name@, value@),
{
    out.append(name);
    out.append(": ");
    out.append(value);
    out.append("\n");
    assert(final(out)@ =~= old(out)@ + header_line(name@, value@));
}

/// Renders the header block of `msg`.
pub fn render_headers(strategy: &ShowHeadersStrategy, msg: &Message) -> (res: String)
    ensures
        res@ == header_block(*strategy, *msg),
{
    let mut out = String::new();
    match strategy {
        ShowHeadersStrategy::All => {
            let mut i: usize = 0;
            while i < msg.headers.len()
                invariant
                    i <= msg.headers.len(),
                    out@ == all_lines(msg.headers@, i as int),
                decreases msg.headers.len() - i,
            {
                let value = display_value(msg.headers[i].name.as_str(), &msg.headers[i].value);
                push_line(&mut out, msg.headers[i].name.as_str(), value.as_str());
                i += 1;
            }
        },
        ShowHeadersStrategy::Only(keys) => {
            let mut i: usize = 0;
            while i < keys.len()
                invariant
                    i <= keys.len(),
                    out@ == only_lines(*msg, keys@, i as int),
                decreases keys.len() - i,
            {
                match msg.get_header(keys[i].as_str()) {
                    Some(h) => {
                        let value = display_value(keys[i].as_str(), &h.value);
                        push_line(&mut out, keys[i].as_str(), value.as_str());
                    },
                    None => {
                        assert(out@ + Seq::<char>::empty() =~= out@);
                    },
                }
                i += 1;
            }
        },
    }
    if out.as_str().unicode_len() > 0 {
        out.append("\n");
    }
    out
}

} // verus!
