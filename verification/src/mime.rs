//! The message model: a table of parts, each with its content type and body.

use crate::text::{chars_of, same_text};
use crate::value::{copy_value, same_value, HeaderValue};
use vstd::prelude::*;
use vstd::slice::slice_to_vec;
use vstd::string::*;
use vstd::utf8::encode_utf8;

verus! {

broadcast use vstd::std_specs::vec::axiom_vec_index_decreases;

/// A declared content type: the main type, and the subtype where one is given.
#[derive(Clone, Debug, PartialEq, Eq)]
pub struct ContentType {
    pub ctype: String,
    pub subtype: Option<String>,
}

/// A header: its name and its value.
#[derive(Clone, Debug, PartialEq, Eq)]
pub struct Header {
    pub name: String,
    pub value: HeaderValue,
}

/// What a part carries.
#[derive(Debug, PartialEq, Eq)]
pub enum PartBody {
    /// Text of any `text/*` type but HTML.
    Text(String),
    /// An HTML document.
    Html(String),
    /// Binary data meant to be saved.
    Binary(Vec<u8>),
    /// Binary data meant to be shown in place.
    InlineBinary(Vec<u8>),
    /// A whole message carried as a part.
    Message(Box<Message>),
    /// A container: the positions of its children in the part table, in order.
    Multipart(Vec<usize>),
}

/// One node of a message's content tree.
#[derive(Debug, PartialEq, Eq)]
pub struct Part {
    pub content_type: Option<ContentType>,
    pub attachment_name: Option<String>,
    pub content_id: Option<String>,
    pub body: PartBody,
}

/// A parsed message: its headers in declaration order, its part table, whose first entry is the
/// root, and the bytes it was parsed from. A container lists its children by their positions in
/// the table; a child comes after its container.
#[derive(Debug, PartialEq, Eq)]
pub struct Message {
    pub headers: Vec<Header>,
    pub parts: Vec<Part>,
    pub raw: Vec<u8>,
}

/// The content type of parts that declare none.
pub open spec fn default_ctype() -> Seq<char> {
    "application/octet-stream"@
}

impl Part {
    /// The canonical `type/subtype` of the part.
    pub open spec fn ctype(&self) -> Seq<char> {
        match self.content_type {
            Some(ct) => match ct.subtype {
                Some(st) => ct.ctype@ + "/"@ + st@,
                None => default_ctype(),
            },
            None => default_ctype(),
        }
    }

    /// The subtype that the part declares, `mixed` where it declares none.
    pub open spec fn subtype_or_mixed(&self) -> Seq<char> {
        match self.content_type {
            Some(ct) => match ct.subtype {
                Some(st) => st@,
                None => "mixed"@,
            },
            None => "mixed"@,
        }
    }

    /// The children that the part lists; none where it is no container.
    pub open spec fn children(&self) -> Seq<usize> {
        match self.body {
            PartBody::Multipart(ids) => ids@,
            _ => Seq::empty(),
        }
    }

    /// The bytes of the part's body: the UTF-8 form of a text, the data of an attachment, the
    /// raw form of a carried message, nothing for a container.
    pub open spec fn contents(&self) -> Seq<u8> {
        match self.body {
            PartBody::Text(t) => encode_utf8(t@),
            PartBody::Html(t) => encode_utf8(t@),
            PartBody::Binary(d) => d@,
            PartBody::InlineBinary(d) => d@,
            PartBody::Message(m) => m.raw@,
            PartBody::Multipart(_) => Seq::empty(),
        }
    }

    /// The bytes of the part's body.
    pub fn get_contents(&self) -> (res: Vec<u8>)
        ensures
            res@ == self.contents(),
    {
        match &self.body {
            PartBody::Text(t) => slice_to_vec(t.as_str().as_bytes()),
            PartBody::Html(t) => slice_to_vec(t.as_str().as_bytes()),
            PartBody::Binary(d) => slice_to_vec(d.as_slice()),
            PartBody::InlineBinary(d) => slice_to_vec(d.as_slice()),
            PartBody::Message(m) => slice_to_vec(m.raw.as_slice()),
            PartBody::Multipart(_) => Vec::new(),
        }
    }

    /// The subtype that the part declares, `mixed` where it declares none.
    pub fn get_subtype_or_mixed(&self) -> (res: String)
        ensures
            res@ == self.subtype_or_mixed(),
    {
        match &self.content_type {
            Some(ct) => match &ct.subtype {
                Some(st) => st.clone(),
                None => String::from_str("mixed"),
            },
            None => String::from_str("mixed"),
        }
    }
}

/// The canonical `type/subtype` of a part: what it declares, or `application/octet-stream`
/// where it declares no type or no subtype.
pub fn get_ctype(part: &Part) -> (res: String)
    ensures
        res@ == part.ctype(),
{
    match &part.content_type {
        Some(ct) => match &ct.subtype {
            Some(st) => {
                let mut out = ct.ctype.clone();
                out.append("/");
                out.append(st.as_str());
                out
            },
            None => String::from_str("application/octet-stream"),
        },
        None => String::from_str("application/octet-stream"),
    }
}

/// Whether the part's type is `text/plain`.
pub fn is_plain(part: &Part) -> (res: bool)
    ensures
        res == (part.ctype() == "text/plain"@),
{
    let ctype = get_ctype(part);
    same_text(ctype.as_str(), "text/plain")
}

/// The letter's code with ASCII upper case folded to lower case.
pub open spec fn fold_case(c: char) -> u32 {
    let n = c as u32;
    if 0x41 <= n && n <= 0x5a {
        (n + 0x20) as u32
    } else {
        n
    }
}

/// Whether two header names are the same but for the case of their ASCII letters.
pub open spec fn same_name(a: Seq<char>, b: Seq<char>) -> bool {
    a.len() == b.len() && forall|i: int| 0 <= i < a.len() ==> fold_case(#[trigger] a[i])
        == fold_case(b[i])
}

/// The position of the last header among the first `n` whose name is `name` but for case.
pub open spec fn last_header(headers: Seq<Header>, name: Seq<char>, n: int) -> Option<int>
    decreases n,
{
    if n <= 0 || n > headers.len() {
        None
    } else if same_name(headers[n - 1].name@, name) {
        Some(n - 1)
    } else {
        last_header(headers, name, n - 1)
    }
}

/// The number of a character, with ASCII upper case folded to lower case.
fn fold_code(c: char) -> (res: u32)
    ensures
        res == fold_case(c),
{
    let n: u32 = c as u32;
    if 0x41 <= n && n <= 0x5a {
        n + 0x20
    } else {
        n
    }
}

/// Decides whether two header names are the same but for the case of their ASCII letters.
pub fn names_match(a: &str, b: &str) -> (res: bool)
    ensures
        res == same_name(a@, b@),
{
    let x = chars_of(a);
    let y = chars_of(b);
    if x.len() != y.len() {
        return false;
    }
    let mut i: usize = 0;
    while i < x.len()
        invariant
            x@ == a@,
            y@ == b@,
            x.len() == y.len(),
            i <= x.len(),
            forall|j: int| 0 <= j < i ==> fold_case(#[trigger] x@[j]) == fold_case(y@[j]),
        decreases x.len() - i,
    {
        if fold_code(x[i]) != fold_code(y[i]) {
            return false;
        }
        i += 1;
    }
    true
}

impl Message {
    /// The header that a lookup by `name` finds: the last one of that name, whatever the case
    /// of its ASCII letters.
    pub open spec fn header(&self, name: Seq<char>) -> Option<Header> {
        match last_header(self.headers@, name, self.headers.len() as int) {
            Some(i) => Some(self.headers[i]),
            None => None,
        }
    }

    /// Looks a header up by name.
    pub fn get_header(&self, name: &str) -> (res: Option<&Header>)
        ensures
            match res {
                Some(h) => self.header(name@) == Some(*h),
                None => self.header(name@) is None,
            },
    {
        let mut n: usize = self.headers.len();
        while n > 0
            invariant
                n <= self.headers.len(),
                last_header(self.headers@, name@, self.headers.len() as int) == last_header(
                    self.headers@,
                    name@,
                    n as int,
                ),
            decreases n,
        {
            if names_match(self.headers[n - 1].name.as_str(), name) {
                return Some(&self.headers[n - 1]);
            }
            n -= 1;
        }
        None
    }
}

/// Copies a text.
fn copy_text(s: &Option<String>) -> (res: Option<String>)
    ensures
        res == *s,
{
    match s {
        Some(s) => Some(s.clone()),
        None => None,
    }
}

/// Copies a body, the message that it carries included.
fn copy_body(body: &PartBody) -> (res: PartBody)
    ensures
        same_body(*body, res),
    decreases body,
{
    match body {
        PartBody::Text(t) => PartBody::Text(t.clone()),
        PartBody::Html(t) => PartBody::Html(t.clone()),
        PartBody::Binary(d) => PartBody::Binary(slice_to_vec(d.as_slice())),
        PartBody::InlineBinary(d) => PartBody::InlineBinary(slice_to_vec(d.as_slice())),
        PartBody::Message(m) => PartBody::Message(Box::new(copy_message(m))),
        PartBody::Multipart(ids) => PartBody::Multipart(slice_to_vec(ids.as_slice())),
    }
}

/// Copies a part.
fn copy_part(part: &Part) -> (res: Part)
    ensures
        same_part(*part, res),
    decreases part,
{
    Part {
        content_type: match &part.content_type {
            Some(ct) => Some(
                ContentType { ctype: ct.ctype.clone(), subtype: copy_text(&ct.subtype) },
            ),
            None => None,
        },
        attachment_name: copy_text(&part.attachment_name),
        content_id: copy_text(&part.content_id),
        body: copy_body(&part.body),
    }
}

/// Copies a message, part by part.
fn copy_message(msg: &Message) -> (res: Message)
    ensures
        same_message(*msg, res),
    decreases msg,
{
    let mut parts: Vec<Part> = Vec::new();
    let mut i: usize = 0;
    while i < msg.parts.len()
        invariant
            i <= msg.parts.len(),
            parts.len() == i,
            forall|j: int| 0 <= j < i ==> same_part(#[trigger] msg.parts[j], parts[j]),
        decreases msg.parts.len() - i,
    {
        parts.push(copy_part(&msg.parts[i]));
        i += 1;
    }
    Message { headers: copy_headers(&msg.headers), parts, raw: slice_to_vec(msg.raw.as_slice()) }
}

/// Copies the headers of a message.
fn copy_headers(headers: &Vec<Header>) -> (res: Vec<Header>)
    ensures
        same_headers(headers@, res@),
{
    let mut out: Vec<Header> = Vec::new();
    let mut i: usize = 0;
    while i < headers.len()
        invariant
            i <= headers.len(),
            out.len() == i,
            forall|j: int| 0 <= j < i ==> same_header(#[trigger] headers@[j], out@[j]),
        decreases headers.len() - i,
    {
        out.push(Header { name: headers[i].name.clone(), value: copy_value(&headers[i].value) });
        i += 1;
    }
    out
}

/// Whether two headers are the same: the same name and the same value.
pub open spec fn same_header(a: Header, b: Header) -> bool {
    a.name == b.name && same_value(a.value, b.value)
}

/// Whether two lists hold the same headers in the same order.
pub open spec fn same_headers(a: Seq<Header>, b: Seq<Header>) -> bool {
    a.len() == b.len() && forall|i: int| 0 <= i < a.len() ==> same_header(#[trigger] a[i], b[i])
}

/// Whether two bodies are the same: of the same kind, with the same text, the same bytes, the
/// same children in the same order, or the same message carried.
pub open spec fn same_body(a: PartBody, b: PartBody) -> bool
    decreases a,
{
    match (a, b) {
        (PartBody::Text(x), PartBody::Text(y)) => x == y,
        (PartBody::Html(x), PartBody::Html(y)) => x == y,
        (PartBody::Binary(x), PartBody::Binary(y)) => x@ == y@,
        (PartBody::InlineBinary(x), PartBody::InlineBinary(y)) => x@ == y@,
        (PartBody::Message(x), PartBody::Message(y)) => same_message(*x, *y),
        (PartBody::Multipart(x), PartBody::Multipart(y)) => x@ == y@,
        _ => false,
    }
}

/// Whether two parts are the same: the same content type, attachment name and content id, and
/// the same body.
pub open spec fn same_part(a: Part, b: Part) -> bool
    decreases a,
{
    a.content_type == b.content_type && a.attachment_name == b.attachment_name && a.content_id
        == b.content_id && same_body(a.body, b.body)
}

/// Whether two messages are the same: the same headers, the same parts at the same positions
/// of the table, and the same bytes.
pub open spec fn same_message(a: Message, b: Message) -> bool
    decreases a,
{
    &&& same_headers(a.headers@, b.headers@)
    &&& a.parts.len() == b.parts.len()
    &&& forall|i: int| 0 <= i < a.parts.len() ==> same_part(#[trigger] a.parts[i], b.parts[i])
    &&& a.raw@ == b.raw@
}

/// What a lookup finds is a position among the headers that it looked at.
pub proof fn lemma_last_header_in_range(headers: Seq<Header>, name: Seq<char>, n: int)
    ensures
        match last_header(headers, name, n) {
            Some(i) => 0 <= i < n && i < headers.len(),
            None => true,
        },
    decreases n,
{
    if 0 < n <= headers.len() && !same_name(headers[n - 1].name@, name) {
        lemma_last_header_in_range(headers, name, n - 1);
    }
}

impl Clone for PartBody {
    fn clone(&self) -> (res: Self) {
        copy_body(self)
    }
}

impl Clone for Part {
    fn clone(&self) -> (res: Self) {
        copy_part(self)
    }
}

impl Clone for Message {
    fn clone(&self) -> (res: Self) {
        copy_message(self)
    }
}

} // verus!
