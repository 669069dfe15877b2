//! Selection of the body decoder from the `content-encoding` response header.

use vstd::prelude::*;
use vstd::string::StrSliceExecFns;

verus! {

/// The content-codings this engine decodes; anything else is passed through.
#[derive(Clone, Copy, Debug, PartialEq, Eq, Structural)]
pub enum Encoding {
    Gzip,
    Deflate,
    Brotli,
    Identity,
}

pub open spec fn is_ascii_upper(c: char) -> bool {
    'A' <= c && c <= 'Z'
}

/// Two characters are equal up to ASCII case.
pub open spec fn same_char_ignoring_case(a: char, b: char) -> bool {
    ||| a == b
    ||| is_ascii_upper(a) && a as u32 + 32 == b as u32
    ||| is_ascii_upper(b) && b as u32 + 32 == a as u32
}

/// Two strings are equal up to ASCII case.
pub open spec fn same_ignoring_case(a: Seq<char>, b: Seq<char>) -> bool {
    &&& a.len() == b.len()
    &&& forall|i: int| 0 <= i < a.len() ==> same_char_ignoring_case(#[trigger] a[i], b[i])
}

/// The coding named by a `content-encoding` header value.
pub open spec fn encoding_of(v: Seq<char>) -> Encoding {
    if same_ignoring_case(v, "gzip"@) {
        Encoding::Gzip
    } else if same_ignoring_case(v, "deflate"@) {
        Encoding::Deflate
    } else if same_ignoring_case(v, "br"@) {
        Encoding::Brotli
    } else {
        Encoding::Identity
    }
}

/// The value of the first header in `hs` whose name is `name` up to ASCII case.
pub open spec fn first_value(hs: Seq<(String, String)>, name: Seq<char>) -> Option<Seq<char>>
    decreases hs.len(),
{
    if hs.len() == 0 {
        None
    } else if same_ignoring_case(hs[0].0@, name) {
        Some(hs[0].1@)
    } else {
        first_value(hs.subrange(1, hs.len() as int), name)
    }
}

/// The coding that a response with headers `hs` declares.
pub open spec fn declared_encoding(hs: Seq<(String, String)>) -> Encoding {
    match first_value(hs, "content-encoding"@) {
        Some(v) => encoding_of(v),
        None => Encoding::Identity,
    }
}

fn char_eq_ignoring_case(a: char, b: char) -> (r: bool)
    ensures
        r == same_char_ignoring_case(a, b),
{
    let x: u32 = a as u32;
    let y: u32 = b as u32;
    x == y || ('A' <= a && a <= 'Z' && x + 32 == y) || ('A' <= b && b <= 'Z' && y + 32 == x)
}

/// Compares two strings up to ASCII case.
pub fn eq_ignoring_case(a: &str, b: &str) -> (r: bool)
    ensures
        r == same_ignoring_case(a@, b@),
{
    let n = a.unicode_len();
    if n != b.unicode_len() {
        return false;
    }
    let mut i: usize = 0;
    while i < n
        invariant
            n == a@.len(),
            n == b@.len(),
            i <= n,
            forall|j: int| 0 <= j < i ==> same_char_ignoring_case(#[trigger] a@[j], b@[j]),
        decreases n - i,
    {
        if !char_eq_ignoring_case(a.get_char(i), b.get_char(i)) {
            return false;
        }
        i = i + 1;
    }
    true
}

/// Parses a `content-encoding` header value: `gzip`, `deflate` and `br`,
/// compared without regard to ASCII case; any other value means identity.
pub fn encoding_from_value(v: &str) -> (e: Encoding)
    ensures
        e == encoding_of(v@),
{
    if eq_ignoring_case(v, "gzip") {
        Encoding::Gzip
    } else if eq_ignoring_case(v, "deflate") {
        Encoding::Deflate
    } else if eq_ignoring_case(v, "br") {
        Encoding::Brotli
    } else {
        Encoding::Identity
    }
}

/// The coding declared by the first `content-encoding` header, if any.
pub fn content_encoding(headers: &Vec<(String, String)>) -> (e: Encoding)
    ensures
        e == declared_encoding(headers@),
{
    let n = headers.len();
    let mut i: usize = 0;
    assert(headers@.subrange(0, n as int) =~= headers@);
    while i < n
        invariant
            n == headers@.len(),
            i <= n,
            first_value(headers@, "content-encoding"@) == first_value(
                headers@.subrange(i as int, n as int),
                "content-encoding"@,
            ),
        decreases n - i,
    {
        let ghost rest = headers@.subrange(i as int, n as int);
        assert(rest.subrange(1, rest.len() as int) =~= headers@.subrange(i + 1, n as int));
        if eq_ignoring_case(headers[i].0.as_str(), "content-encoding") {
            return encoding_from_value(headers[i].1.as_str());
        }
        i = i + 1;
    }
    assert(headers@.subrange(n as int, n as int).len() == 0);
    Encoding::Identity
}

} // verus!
