//! The values of headers, and how each kind is shown.

use crate::mime::{names_match, same_name};
use vstd::prelude::*;
use vstd::string::*;

verus! {

/// A mailbox: a display name and an address, either of which may be missing.
#[derive(Clone, Debug, PartialEq, Eq)]
pub struct Addr {
    pub name: Option<String>,
    pub address: Option<String>,
}

/// A named group of mailboxes.
#[derive(Clone, Debug, PartialEq, Eq)]
pub struct Group {
    pub name: Option<String>,
    pub addresses: Vec<Addr>,
}

/// A date and time of day, with the offset of its time zone. `tz_before_gmt` says that the
/// zone is behind Greenwich.
#[derive(Clone, Copy, Debug, PartialEq, Eq)]
pub struct DateTime {
    pub year: u16,
    pub month: u8,
    pub day: u8,
    pub hour: u8,
    pub minute: u8,
    pub second: u8,
    pub tz_before_gmt: bool,
    pub tz_hour: u8,
    pub tz_minute: u8,
}

/// An attribute of a content type: its name and its value.
#[derive(Clone, Debug, PartialEq, Eq)]
pub struct Attribute {
    pub name: String,
    pub value: String,
}

/// The value of a `Content-Type` or `Content-Disposition` header.
#[derive(Clone, Debug, PartialEq, Eq)]
pub struct TypeValue {
    pub ctype: String,
    pub subtype: Option<String>,
    pub attributes: Vec<Attribute>,
}

/// The value of a header, by kind.
#[derive(Clone, Debug, PartialEq, Eq)]
pub enum HeaderValue {
    Address(Addr),
    AddressList(Vec<Addr>),
    Group(Group),
    GroupList(Vec<Group>),
    Text(String),
    TextList(Vec<String>),
    DateTime(DateTime),
    ContentType(TypeValue),
    Empty,
}

/// The date in the form of RFC 822, as the message parser writes it.
pub uninterp spec fn rfc822_date(
    year: u16,
    month: u8,
    day: u8,
    hour: u8,
    minute: u8,
    second: u8,
    tz_before_gmt: bool,
    tz_hour: u8,
    tz_minute: u8,
) -> Seq<char>;

/// Writes a date in the form of RFC 822 with `mail_parser::DateTime::to_rfc822`, which reads
/// the nine fields and nothing else, and returns for all of their values.
#[verifier::external_body]
fn to_rfc822(date: &DateTime) -> (res: String)
    ensures
        res@ == rfc822_date(
            date.year,
            date.month,
            date.day,
            date.hour,
            date.minute,
            date.second,
            date.tz_before_gmt,
            date.tz_hour,
            date.tz_minute,
        ),
{
    mail_parser::DateTime {
        year: date.year,
        month: date.month,
        day: date.day,
        hour: date.hour,
        minute: date.minute,
        second: date.second,
        tz_before_gmt: date.tz_before_gmt,
        tz_hour: date.tz_hour,
        tz_minute: date.tz_minute,
    }.to_rfc822()
}

/// Whether the header of this name holds message ids, which are shown between angle brackets.
pub open spec fn holds_ids(key: Seq<char>) -> bool {
    same_name(key, "Message-ID"@) || same_name(key, "In-Reply-To"@) || same_name(
        key,
        "References"@,
    ) || same_name(key, "Return-Path"@) || same_name(key, "Content-ID"@) || same_name(
        key,
        "Resent-Message-ID"@,
    )
}

/// How a mailbox is shown: the name, then the address between angle brackets; the one that
/// there is where the other is missing.
pub open spec fn shown_addr(addr: Addr) -> Seq<char> {
    match (addr.name, addr.address) {
        (Some(name), Some(address)) => name@ + " <"@ + address@ + ">"@,
        (Some(name), None) => name@,
        (None, Some(address)) => address@,
        (None, None) => Seq::empty(),
    }
}

/// The first `n` mailboxes, with `, ` between them.
pub open spec fn shown_addrs(addrs: Seq<Addr>, n: int) -> Seq<char>
    decreases n,
{
    if n <= 0 || n > addrs.len() {
        Seq::empty()
    } else if n == 1 {
        shown_addr(addrs[0])
    } else {
        shown_addrs(addrs, n - 1) + ", "@ + shown_addr(addrs[n - 1])
    }
}

/// How a group is shown: its name and a colon, its mailboxes, and a semicolon; the mailboxes
/// alone where it has no name.
pub open spec fn shown_group(group: Group) -> Seq<char> {
    let addrs = shown_addrs(group.addresses@, group.addresses.len() as int);
    match group.name {
        Some(name) => name@ + ":"@ + addrs + ";"@,
        None => addrs,
    }
}

/// The first `n` groups, with `, ` between them.
pub open spec fn shown_groups(groups: Seq<Group>, n: int) -> Seq<char>
    decreases n,
{
    if n <= 0 || n > groups.len() {
        Seq::empty()
    } else if n == 1 {
        shown_group(groups[0])
    } else {
        shown_groups(groups, n - 1) + ", "@ + shown_group(groups[n - 1])
    }
}

/// How one text of a header is shown: between angle brackets where it is an id.
pub open spec fn shown_text(ids: bool, text: Seq<char>) -> Seq<char> {
    if ids {
        "<"@ + text + ">"@
    } else {
        text
    }
}

/// The first `n` texts, with a space between them.
pub open spec fn shown_texts(ids: bool, texts: Seq<String>, n: int) -> Seq<char>
    decreases n,
{
    if n <= 0 || n > texts.len() {
        Seq::empty()
    } else if n == 1 {
        shown_text(ids, texts[0]@)
    } else {
        shown_texts(ids, texts, n - 1) + " "@ + shown_text(ids, texts[n - 1]@)
    }
}

/// The first `n` attributes, each as `; name=value`.
pub open spec fn shown_attributes(attributes: Seq<Attribute>, n: int) -> Seq<char>
    decreases n,
{
    if n <= 0 || n > attributes.len() {
        Seq::empty()
    } else {
        shown_attributes(attributes, n - 1) + "; "@ + attributes[n - 1].name@ + "="@
            + attributes[n - 1].value@
    }
}

/// How a content type is shown: the type, the subtype after a slash where there is one, then
/// the attributes.
pub open spec fn shown_content_type(value: TypeValue) -> Seq<char> {
    value.ctype@ + (match value.subtype {
        Some(subtype) => "/"@ + subtype@,
        None => Seq::empty(),
    }) + shown_attributes(value.attributes@, value.attributes.len() as int)
}

/// How the value of the header `key` is shown.
pub open spec fn shown_value(key: Seq<char>, value: HeaderValue) -> Seq<char> {
    match value {
        HeaderValue::Address(addr) => shown_addr(addr),
        HeaderValue::AddressList(addrs) => shown_addrs(addrs@, addrs.len() as int),
        HeaderValue::Group(group) => shown_group(group),
        HeaderValue::GroupList(groups) => shown_groups(groups@, groups.len() as int),
        HeaderValue::Text(text) => shown_text(holds_ids(key), text@),
        HeaderValue::TextList(texts) => shown_texts(holds_ids(key), texts@, texts.len() as int),
        HeaderValue::DateTime(date) => rfc822_date(
            date.year,
            date.month,
            date.day,
            date.hour,
            date.minute,
            date.second,
            date.tz_before_gmt,
            date.tz_hour,
            date.tz_minute,
        ),
        HeaderValue::ContentType(value) => shown_content_type(value),
        HeaderValue::Empty => Seq::empty(),
    }
}

/// Decides whether the header of this name holds message ids.
fn key_holds_ids(key: &str) -> (res: bool)
    ensures
        res == holds_ids(key@),
{
    names_match(key, "Message-ID") || names_match(key, "In-Reply-To") || names_match(
        key,
        "References",
    ) || names_match(key, "Return-Path") || names_match(key, "Content-ID") || names_match(
        key,
        "Resent-Message-ID",
    )
}

/// Appends a mailbox as it is shown.
fn push_addr(out: &mut String, addr: &Addr)
    ensures
        final(out)@ == old(out)@ + shown_addr(*addr),
{
    match (&addr.name, &addr.address) {
        (Some(name), Some(address)) => {
            out.append(name.as_str());
            out.append(" <");
            out.append(address.as_str());
            out.append(">");
        },
        (Some(name), None) => {
            out.append(name.as_str());
        },
        (None, Some(address)) => {
            out.append(address.as_str());
        },
        (None, None) => {},
    }
    assert(final(out)@ =~= old(out)@ + shown_addr(*addr));
}

/// Appends mailboxes as they are shown, with `, ` between them.
fn push_addrs(out: &mut String, addrs: &Vec<Addr>)
    ensures
        final(out)@ == old(out)@ + shown_addrs(addrs@, addrs.len() as int),
{
    let mut i: usize = 0;
    assert(out@ =~= old(out)@ + shown_addrs(addrs@, 0));
    while i < addrs.len()
        invariant
            i <= addrs.len(),
            out@ == old(out)@ + shown_addrs(addrs@, i as int),
        decreases addrs.len() - i,
    {
        if i > 0 {
            out.append(", ");
        }
        push_addr(out, &addrs[i]);
        i += 1;
        assert(out@ =~= old(out)@ + shown_addrs(addrs@, i as int));
    }
}

/// Appends a group as it is shown.
fn push_group(out: &mut String, group: &Group)
    ensures
        final(out)@ == old(out)@ + shown_group(*group),
{
    match &group.name {
        Some(name) => {
            out.append(name.as_str());
            out.append(":");
            push_addrs(out, &group.addresses);
            out.append(";");
        },
        None => {
            push_addrs(out, &group.addresses);
        },
    }
    assert(final(out)@ =~= old(out)@ + shown_group(*group));
}

/// Appends one text of a header as it is shown.
fn push_text(out: &mut String, ids: bool, text: &str)
    ensures
        final(out)@ == old(out)@ + shown_text(ids, text@),
{
    if ids {
        out.append("<");
        out.append(text);
        out.append(">");
    } else {
        out.append(text);
    }
    assert(final(out)@ =~= old(out)@ + shown_text(ids, text@));
}

/// Shows the value of the header `key`.
pub fn display_value(key: &str, value: &HeaderValue) -> (res: String)
    ensures
        res@ == shown_value(key@, *value),
{
    let mut out = String::new();
    match value {
        HeaderValue::Address(addr) => {
            push_addr(&mut out, addr);
        },
        HeaderValue::AddressList(addrs) => {
            push_addrs(&mut out, addrs);
        },
        HeaderValue::Group(group) => {
            push_group(&mut out, group);
        },
        HeaderValue::GroupList(groups) => {
            let mut i: usize = 0;
            while i < groups.len()
                invariant
                    i <= groups.len(),
                    out@ == shown_groups(groups@, i as int),
                decreases groups.len() - i,
            {
                if i > 0 {
                    out.append(", ");
                }
                push_group(&mut out, &groups[i]);
                i += 1;
                assert(out@ =~= shown_groups(groups@, i as int));
            }
        },
        HeaderValue::Text(text) => {
            push_text(&mut out, key_holds_ids(key), text.as_str());
        },
        HeaderValue::TextList(texts) => {
            let ids = key_holds_ids(key);
            let mut i: usize = 0;
            while i < texts.len()
                invariant
                    i <= texts.len(),
                    out@ == shown_texts(ids, texts@, i as int),
                decreases texts.len() - i,
            {
                if i > 0 {
                    out.append(" ");
                }
                push_text(&mut out, ids, texts[i].as_str());
                i += 1;
                assert(out@ =~= shown_texts(ids, texts@, i as int));
            }
        },
        HeaderValue::DateTime(date) => {
            return to_rfc822(date);
        },
        HeaderValue::ContentType(value) => {
            out.append(value.ctype.as_str());
            match &value.subtype {
                Some(subtype) => {
                    out.append("/");
                    out.append(subtype.as_str());
                },
                None => {},
            }
            let ghost start = out@;
            assert(start =~= value.ctype@ + (match value.subtype {
                Some(subtype) => "/"@ + subtype@,
                None => Seq::empty(),
            }));
            let mut i: usize = 0;
            assert(out@ =~= start + shown_attributes(value.attributes@, 0));
            while i < value.attributes.len()
                invariant
                    i <= value.attributes.len(),
                    out@ == start + shown_attributes(value.attributes@, i as int),
                decreases value.attributes.len() - i,
            {
                out.append("; ");
                out.append(value.attributes[i].name.as_str());
                out.append("=");
                out.append(value.attributes[i].value.as_str());
                i += 1;
                assert(out@ =~= start + shown_attributes(value.attributes@, i as int));
            }
        },
        HeaderValue::Empty => {},
    }
    assert(out@ =~= shown_value(key@, *value));
    out
}

/// Whether two groups are the same: the same name, and the same mailboxes in the same order.
pub open spec fn same_group(a: Group, b: Group) -> bool {
    a.name == b.name && a.addresses@ == b.addresses@
}

/// Whether two lists hold the same groups in the same order.
pub open spec fn same_groups(a: Seq<Group>, b: Seq<Group>) -> bool {
    a.len() == b.len() && forall|i: int| 0 <= i < a.len() ==> same_group(#[trigger] a[i], b[i])
}

/// Whether two content types are the same: the same type and subtype, and the same
/// attributes in the same order.
pub open spec fn same_type_value(a: TypeValue, b: TypeValue) -> bool {
    a.ctype == b.ctype && a.subtype == b.subtype && a.attributes@ == b.attributes@
}

/// Whether two values are the same: of the same kind, and holding the same, item by item.
pub open spec fn same_value(a: HeaderValue, b: HeaderValue) -> bool {
    match (a, b) {
        (HeaderValue::Address(x), HeaderValue::Address(y)) => x == y,
        (HeaderValue::AddressList(x), HeaderValue::AddressList(y)) => x@ == y@,
        (HeaderValue::Group(x), HeaderValue::Group(y)) => same_group(x, y),
        (HeaderValue::GroupList(x), HeaderValue::GroupList(y)) => same_groups(x@, y@),
        (HeaderValue::Text(x), HeaderValue::Text(y)) => x == y,
        (HeaderValue::TextList(x), HeaderValue::TextList(y)) => x@ == y@,
        (HeaderValue::DateTime(x), HeaderValue::DateTime(y)) => x == y,
        (HeaderValue::ContentType(x), HeaderValue::ContentType(y)) => same_type_value(x, y),
        (HeaderValue::Empty, HeaderValue::Empty) => true,
        _ => false,
    }
}

/// Copies a text that may be missing.
fn copy_optional(text: &Option<String>) -> (res: Option<String>)
    ensures
        res == *text,
{
    match text {
        Some(text) => Some(text.clone()),
        None => None,
    }
}

/// Copies a mailbox.
fn copy_addr(addr: &Addr) -> (res: Addr)
    ensures
        res == *addr,
{
    Addr { name: copy_optional(&addr.name), address: copy_optional(&addr.address) }
}

/// Copies a list of mailboxes.
fn copy_addrs(addrs: &Vec<Addr>) -> (res: Vec<Addr>)
    ensures
        res@ == addrs@,
{
    let mut out: Vec<Addr> = Vec::new();
    let mut i: usize = 0;
    while i < addrs.len()
        invariant
            i <= addrs.len(),
            out@ == addrs@.take(i as int),
        decreases addrs.len() - i,
    {
        out.push(copy_addr(&addrs[i]));
        i += 1;
        assert(out@ =~= addrs@.take(i as int));
    }
    assert(addrs@.take(addrs.len() as int) == addrs@);
    out
}

/// Copies a list of texts.
fn copy_texts(texts: &Vec<String>) -> (res: Vec<String>)
    ensures
        res@ == texts@,
{
    let mut out: Vec<String> = Vec::new();
    let mut i: usize = 0;
    while i < texts.len()
        invariant
            i <= texts.len(),
            out@ == texts@.take(i as int),
        decreases texts.len() - i,
    {
        out.push(texts[i].clone());
        i += 1;
        assert(out@ =~= texts@.take(i as int));
    }
    assert(texts@.take(texts.len() as int) == texts@);
    out
}

/// Copies a group.
fn copy_group(group: &Group) -> (res: Group)
    ensures
        same_group(*group, res),
{
    Group { name: copy_optional(&group.name), addresses: copy_addrs(&group.addresses) }
}

/// Copies a list of groups.
fn copy_groups(groups: &Vec<Group>) -> (res: Vec<Group>)
    ensures
        same_groups(groups@, res@),
{
    let mut out: Vec<Group> = Vec::new();
    let mut i: usize = 0;
    while i < groups.len()
        invariant
            i <= groups.len(),
            out.len() == i,
            forall|j: int| 0 <= j < i ==> same_group(#[trigger] groups@[j], out@[j]),
        decreases groups.len() - i,
    {
        out.push(copy_group(&groups[i]));
        i += 1;
    }
    out
}

/// Copies a content type.
fn copy_type_value(value: &TypeValue) -> (res: TypeValue)
    ensures
        same_type_value(*value, res),
{
    let mut attributes: Vec<Attribute> = Vec::new();
    let mut i: usize = 0;
    while i < value.attributes.len()
        invariant
            i <= value.attributes.len(),
            attributes@ == value.attributes@.take(i as int),
        decreases value.attributes.len() - i,
    {
        attributes.push(
            Attribute {
                name: value.attributes[i].name.clone(),
                value: value.attributes[i].value.clone(),
            },
        );
        i += 1;
        assert(attributes@ =~= value.attributes@.take(i as int));
    }
    assert(value.attributes@.take(value.attributes.len() as int) == value.attributes@);
    TypeValue { ctype: value.ctype.clone(), subtype: copy_optional(&value.subtype), attributes }
}

/// Copies the value of a header.
pub fn copy_value(value: &HeaderValue) -> (res: HeaderValue)
    ensures
        same_value(*value, res),
{
    match value {
        HeaderValue::Address(addr) => HeaderValue::Address(copy_addr(addr)),
        HeaderValue::AddressList(addrs) => HeaderValue::AddressList(copy_addrs(addrs)),
        HeaderValue::Group(group) => HeaderValue::Group(copy_group(group)),
        HeaderValue::GroupList(groups) => HeaderValue::GroupList(copy_groups(groups)),
        HeaderValue::Text(text) => HeaderValue::Text(text.clone()),
        HeaderValue::TextList(texts) => HeaderValue::TextList(copy_texts(texts)),
        HeaderValue::DateTime(date) => HeaderValue::DateTime(*date),
        HeaderValue::ContentType(value) => HeaderValue::ContentType(copy_type_value(value)),
        HeaderValue::Empty => HeaderValue::Empty,
    }
}

} // verus!
