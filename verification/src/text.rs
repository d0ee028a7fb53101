//! Character-level text operations used when rendering message parts.

use vstd::prelude::*;
use vstd::string::*;

verus! {

/// Whether `c` has the Unicode `White_Space` property.
pub open spec fn is_whitespace(c: char) -> bool {
    let n = c as u32;
    (0x9 <= n && n <= 0xd) || n == 0x20 || n == 0x85 || n == 0xa0 || n == 0x1680 || (0x2000 <= n
        && n <= 0x200a) || n == 0x2028 || n == 0x2029 || n == 0x202f || n == 0x205f || n
        == 0x3000
}

/// The text without its carriage returns.
pub open spec fn without_cr(s: Seq<char>) -> Seq<char>
    decreases s.len(),
{
    if s.len() == 0 {
        s
    } else if s.last() == '\r' {
        without_cr(s.drop_last())
    } else {
        without_cr(s.drop_last()).push(s.last())
    }
}

/// The text without the whitespace it ends with.
pub open spec fn trim_end(s: Seq<char>) -> Seq<char>
    decreases s.len(),
{
    if s.len() > 0 && is_whitespace(s.last()) {
        trim_end(s.drop_last())
    } else {
        s
    }
}

/// Whether the text holds nothing but whitespace.
pub open spec fn is_blank(s: Seq<char>) -> bool {
    forall|i: int| 0 <= i < s.len() ==> is_whitespace(#[trigger] s[i])
}

/// Whether the signature delimiter, the line `-- `, stands at position `i` of `s`.
pub open spec fn delimiter_at(s: Seq<char>, i: int) -> bool {
    0 <= i && i + 4 <= s.len() && s[i] == '-' && s[i + 1] == '-' && s[i + 2] == ' ' && s[i + 3]
        == '\n'
}

/// The position of the last signature delimiter of `s` that starts at `i` or before it.
pub open spec fn last_delimiter(s: Seq<char>, i: int) -> Option<int>
    decreases i + 1,
{
    if i < 0 {
        None
    } else if delimiter_at(s, i) {
        Some(i)
    } else {
        last_delimiter(s, i - 1)
    }
}

/// The text before its last signature delimiter, or the whole text where it has none.
pub open spec fn without_signature(s: Seq<char>) -> Seq<char> {
    match last_delimiter(s, s.len() - 4) {
        Some(i) => s.take(i),
        None => s,
    }
}

/// The decimal digit that stands for `d`.
pub open spec fn digit(d: nat) -> char {
    if d == 0 {
        '0'
    } else if d == 1 {
        '1'
    } else if d == 2 {
        '2'
    } else if d == 3 {
        '3'
    } else if d == 4 {
        '4'
    } else if d == 5 {
        '5'
    } else if d == 6 {
        '6'
    } else if d == 7 {
        '7'
    } else if d == 8 {
        '8'
    } else {
        '9'
    }
}

/// The decimal notation of `n`, without leading zeros.
pub open spec fn decimal(n: nat) -> Seq<char>
    decreases n,
{
    if n < 10 {
        seq![digit(n)]
    } else {
        decimal(n / 10).push(digit(n % 10))
    }
}

/// `last_delimiter` finds a delimiter, the last one at or before its bound, exactly when there is
/// one.
pub proof fn lemma_last_delimiter(s: Seq<char>, i: int)
    ensures
        match last_delimiter(s, i) {
            Some(k) => k <= i && delimiter_at(s, k) && forall|j: int|
                k < j <= i ==> !delimiter_at(s, j),
            None => forall|j: int| j <= i ==> !delimiter_at(s, j),
        },
    decreases i + 1,
{
    if i >= 0 && !delimiter_at(s, i) {
        lemma_last_delimiter(s, i - 1);
    }
}

/// The signature is cut at its last delimiter: a text without delimiter stays whole, and a
/// text whose last delimiter stands at `k` keeps what stands before `k`.
pub proof fn law_signature_is_cut_at_the_last_delimiter(s: Seq<char>)
    ensures
        (forall|j: int| !delimiter_at(s, j)) ==> without_signature(s) == s,
        forall|k: int|
            delimiter_at(s, k) && (forall|j: int| k < j ==> !delimiter_at(s, j))
                ==> without_signature(s) == s.take(k),
{
    lemma_last_delimiter(s, s.len() - 4);
    assert forall|k: int|
        delimiter_at(s, k) && (forall|j: int| k < j ==> !delimiter_at(s, j)) implies without_signature(
        s,
    ) == s.take(k) by {
        match last_delimiter(s, s.len() - 4) {
            Some(found) => {
                if found < k {
                    assert(!delimiter_at(s, k));
                } else if k < found {
                    assert(!delimiter_at(s, found));
                }
            },
            None => {
                assert(!delimiter_at(s, k));
            },
        }
    }
    if forall|j: int| !delimiter_at(s, j) {
        match last_delimiter(s, s.len() - 4) {
            Some(found) => {
                assert(delimiter_at(s, found));
            },
            None => {},
        }
    }
}

/// Trimming leaves a prefix of the text that does not end with whitespace, and cuts off
/// whitespace only.
pub proof fn lemma_trim_end(s: Seq<char>)
    ensures
        trim_end(s).len() <= s.len(),
        trim_end(s) == s.take(trim_end(s).len() as int),
        trim_end(s).len() > 0 ==> !is_whitespace(trim_end(s).last()),
        forall|i: int| trim_end(s).len() <= i < s.len() ==> is_whitespace(#[trigger] s[i]),
    decreases s.len(),
{
    if s.len() > 0 && is_whitespace(s.last()) {
        let t = s.drop_last();
        lemma_trim_end(t);
        assert(t.take(trim_end(t).len() as int) == s.take(trim_end(t).len() as int));
        assert forall|i: int| trim_end(s).len() <= i < s.len() implies is_whitespace(
            #[trigger] s[i],
        ) by {
            if i < t.len() {
                assert(s[i] == t[i]);
            }
        }
    } else {
        assert(s.take(s.len() as int) == s);
    }
}

/// Decides whether `c` is a whitespace character.
pub fn char_is_whitespace(c: char) -> (res: bool)
    ensures
        res == is_whitespace(c),
{
    let n: u32 = c as u32;
    (0x9 <= n && n <= 0xd) || n == 0x20 || n == 0x85 || n == 0xa0 || n == 0x1680 || (0x2000 <= n
        && n <= 0x200a) || n == 0x2028 || n == 0x2029 || n == 0x202f || n == 0x205f || n
        == 0x3000
}

/// The characters of `s`, in order.
pub fn chars_of(s: &str) -> (res: Vec<char>)
    ensures
        res@ == s@,
{
    let mut out: Vec<char> = Vec::new();
    for c in iter: s.chars()
        invariant
            iter.seq() == s@,
            out@ == s@.take(iter.index() as int),
    {
        out.push(c);
    }
    out
}

/// Builds the string made of the characters of `chars`, by `String::from_iter`: the result holds
/// exactly those characters, in order.
#[verifier::external_body]
pub(crate) fn string_from_chars(chars: &Vec<char>) -> (res: String)
    ensures
        res@ == chars@,
{
    String::from_iter(chars.iter())
}

/// Whether two texts hold the same characters.
pub fn same_text(a: &str, b: &str) -> (res: bool)
    ensures
        res == (a@ == b@),
{
    let x = chars_of(a);
    let y = chars_of(b);
    if x.len() != y.len() {
        return false;
    }
    let mut i: usize = 0;
    while i < x.len()
        invariant
            x@ == a@,
            y@ == b@,
            x.len() == y.len(),
            i <= x.len(),
            x@.take(i as int) == y@.take(i as int),
        decreases x.len() - i,
    {
        if x[i] != y[i] {
            assert(a@[i as int] != b@[i as int]);
            return false;
        }
        assert(x@.take(i + 1) == x@.take(i as int).push(x@[i as int]));
        assert(y@.take(i + 1) == y@.take(i as int).push(y@[i as int]));
        i += 1;
    }
    assert(x@.take(x.len() as int) == x@);
    assert(y@.take(y.len() as int) == y@);
    true
}

/// Removes the carriage returns.
pub fn strip_cr(text: &Vec<char>) -> (res: Vec<char>)
    ensures
        res@ == without_cr(text@),
{
    let mut out: Vec<char> = Vec::new();
    let mut i: usize = 0;
    while i < text.len()
        invariant
            i <= text.len(),
            out@ == without_cr(text@.take(i as int)),
        decreases text.len() - i,
    {
        assert(text@.take(i + 1).drop_last() == text@.take(i as int));
        if text[i] != '\r' {
            out.push(text[i]);
        }
        i += 1;
    }
    assert(text@.take(text.len() as int) == text@);
    out
}

/// The length of what trimming leaves of the text from `floor` on, counted from the start of
/// `text`.
pub fn trimmed_len(text: &Vec<char>, floor: usize) -> (res: usize)
    requires
        floor <= text.len(),
    ensures
        floor <= res <= text.len(),
        text@.subrange(floor as int, res as int) == trim_end(
            text@.subrange(floor as int, text.len() as int),
        ),
{
    let mut k: usize = text.len();
    while k > floor && char_is_whitespace(text[k - 1])
        invariant
            floor <= k <= text.len(),
            trim_end(text@.subrange(floor as int, k as int)) == trim_end(
                text@.subrange(floor as int, text.len() as int),
            ),
        decreases k,
    {
        assert(text@.subrange(floor as int, k as int).drop_last() == text@.subrange(
            floor as int,
            k - 1,
        ));
        k -= 1;
    }
    k
}

/// Decides whether the text holds nothing but whitespace.
pub fn text_is_blank(text: &Vec<char>) -> (res: bool)
    ensures
        res == is_blank(text@),
{
    let mut i: usize = 0;
    while i < text.len()
        invariant
            i <= text.len(),
            forall|j: int| 0 <= j < i ==> is_whitespace(#[trigger] text@[j]),
        decreases text.len() - i,
    {
        if !char_is_whitespace(text[i]) {
            return false;
        }
        i += 1;
    }
    true
}

/// Cuts the text at its last signature delimiter.
pub fn strip_signature(text: Vec<char>) -> (res: Vec<char>)
    ensures
        res@ == without_signature(text@),
{
    let n: usize = text.len();
    if n < 4 {
        assert(last_delimiter(text@, n - 4) is None);
        return text;
    }
    let mut i: usize = n - 3;
    while i > 0
        invariant
            n == text.len(),
            i <= n - 3,
            last_delimiter(text@, n - 4) == last_delimiter(text@, i - 1),
        decreases i,
    {
        i -= 1;
        if text[i] == '-' && text[i + 1] == '-' && text[i + 2] == ' ' && text[i + 3] == '\n' {
            let mut text = text;
            text.truncate(i);
            return text;
        }
    }
    text
}

/// The digit that stands for `d`.
fn digit_char(d: usize) -> (res: char)
    requires
        d < 10,
    ensures
        res == digit(d as nat),
{
    if d == 0 {
        '0'
    } else if d == 1 {
        '1'
    } else if d == 2 {
        '2'
    } else if d == 3 {
        '3'
    } else if d == 4 {
        '4'
    } else if d == 5 {
        '5'
    } else if d == 6 {
        '6'
    } else if d == 7 {
        '7'
    } else if d == 8 {
        '8'
    } else {
        '9'
    }
}

/// Writes `n` in decimal notation.
pub fn to_decimal(n: usize) -> (res: Vec<char>)
    ensures
        res@ == decimal(n as nat),
    decreases n,
{
    if n < 10 {
        let mut out: Vec<char> = Vec::new();
        out.push(digit_char(n));
        out
    } else {
        let mut out = to_decimal(n / 10);
        out.push(digit_char(n % 10));
        out
    }
}

} // verus!
