//! Byte encodings used on the wire: percent-encoding of form and query values,
//! Base64 for HTTP Basic credentials, and hexadecimal digits.
use vstd::prelude::*;
use crate::text::{chars_of, extend_str, string_of};

verus! {

/// Bytes that percent-encoding leaves as they are: ASCII letters, digits and `-_.~`.
pub open spec fn is_unreserved(b: u8) -> bool {
    ||| (97 <= b && b <= 122)
    ||| (65 <= b && b <= 90)
    ||| (48 <= b && b <= 57)
    ||| b == 45
    ||| b == 95
    ||| b == 46
    ||| b == 126
}

/// An upper-case hexadecimal digit for `d < 16`.
pub open spec fn hex_upper(d: int) -> char {
    if d < 10 {
        (48 + d) as char
    } else {
        (55 + d) as char
    }
}

/// A lower-case hexadecimal digit for `d < 16`.
pub open spec fn hex_lower(d: int) -> char {
    if d < 10 {
        (48 + d) as char
    } else {
        (87 + d) as char
    }
}

/// One byte, percent-encoded: kept when unreserved, else `%` and two upper-case hex digits.
pub open spec fn percent_byte(b: u8) -> Seq<char> {
    if is_unreserved(b) {
        seq![b as char]
    } else {
        seq!['%', hex_upper((b / 16) as int), hex_upper((b % 16) as int)]
    }
}

/// A byte sequence, percent-encoded byte by byte.
pub open spec fn percent_encode(bs: Seq<u8>) -> Seq<char>
    decreases bs.len(),
{
    if bs.len() == 0 {
        Seq::empty()
    } else {
        percent_encode(bs.drop_last()) + percent_byte(bs.last())
    }
}

/// The Base64 alphabet of RFC 4648 (standard, not URL-safe), for `v < 64`.
pub open spec fn b64_char(v: int) -> char {
    if v < 26 {
        (65 + v) as char
    } else if v < 52 {
        (71 + v) as char
    } else if v < 62 {
        (v - 4) as char
    } else if v == 62 {
        '+'
    } else {
        '/'
    }
}

/// The four characters that encode a group of one to three bytes, padded with `=`.
pub open spec fn b64_group(bs: Seq<u8>) -> Seq<char> {
    let b0 = bs[0] as int;
    let b1 = if bs.len() > 1 { bs[1] as int } else { 0 };
    let b2 = if bs.len() > 2 { bs[2] as int } else { 0 };
    seq![
        b64_char(b0 / 4),
        b64_char((b0 % 4) * 16 + b1 / 16),
        if bs.len() > 1 { b64_char((b1 % 16) * 4 + b2 / 64) } else { '=' },
        if bs.len() > 2 { b64_char(b2 % 64) } else { '=' },
    ]
}

/// Standard padded Base64 (RFC 4648, section 4) of a byte sequence.
pub open spec fn base64_encode(bs: Seq<u8>) -> Seq<char>
    decreases bs.len(),
{
    if bs.len() == 0 {
        Seq::empty()
    } else if bs.len() <= 3 {
        b64_group(bs)
    } else {
        b64_group(bs.take(3)) + base64_encode(bs.skip(3))
    }
}

/// The bytes of `user:password` as HTTP Basic authentication sends them.
pub open spec fn basic_credentials(username: Seq<char>, password: Seq<char>) -> Seq<u8> {
    vstd::utf8::encode_utf8(username + seq![':'] + password)
}

/// A byte below 128 as the ASCII character of the same code.
pub fn ascii_char(b: u8) -> (c: char)
    requires
        b < 128,
    ensures
        c == b as char,
{
    b as char
}

/// Upper-case hexadecimal digit.
pub fn hex_upper_exec(d: u8) -> (c: char)
    requires
        d < 16,
    ensures
        c == hex_upper(d as int),
{
    if d < 10 {
        ascii_char(48 + d)
    } else {
        ascii_char(55 + d)
    }
}

/// Lower-case hexadecimal digit.
pub fn hex_lower_exec(d: u8) -> (c: char)
    requires
        d < 16,
    ensures
        c == hex_lower(d as int),
{
    if d < 10 {
        ascii_char(48 + d)
    } else {
        ascii_char(87 + d)
    }
}

/// Percent-encodes the UTF-8 bytes of `value` for a query string or form body: ASCII
/// letters, digits and `-_.~` stay, every other byte becomes `%XX` (upper-case hex).
pub fn url_encode(value: &str) -> (out: String)
    ensures
        out@ == percent_encode(vstd::utf8::encode_utf8(value@)),
{
    let bytes = value.as_bytes();
    let mut out: Vec<char> = Vec::new();
    let mut i: usize = 0;
    assert(bytes@.take(0) =~= Seq::<u8>::empty());
    while i < bytes.len()
        invariant
            i <= bytes.len(),
            bytes@ == vstd::utf8::encode_utf8(value@),
            out@ == percent_encode(bytes@.take(i as int)),
        decreases bytes.len() - i,
    {
        let b = bytes[i];
        assert(bytes@.take(i + 1).drop_last() =~= bytes@.take(i as int));
        assert(bytes@.take(i + 1).last() == b);
        let ghost before = out@;
        if (97 <= b && b <= 122) || (65 <= b && b <= 90) || (48 <= b && b <= 57) || b == 45 || b == 95
            || b == 46 || b == 126 {
            out.push(ascii_char(b));
            assert(out@ =~= before + percent_byte(b));
        } else {
            out.push('%');
            out.push(hex_upper_exec(b / 16));
            out.push(hex_upper_exec(b % 16));
            assert(out@ =~= before + percent_byte(b));
        }
        i += 1;
    }
    assert(bytes@.take(bytes.len() as int) =~= bytes@);
    string_of(&out)
}

/// The Base64 character for `v < 64`.
pub fn b64_char_exec(v: u8) -> (c: char)
    requires
        v < 64,
    ensures
        c == b64_char(v as int),
{
    if v < 26 {
        ascii_char(65 + v)
    } else if v < 52 {
        ascii_char(71 + v)
    } else if v < 62 {
        ascii_char(v - 4)
    } else if v == 62 {
        '+'
    } else {
        '/'
    }
}

/// Standard padded Base64 of a byte sequence.
pub fn base64_of_bytes(bytes: &[u8]) -> (out: Vec<char>)
    ensures
        out@ == base64_encode(bytes@),
{
    let mut out: Vec<char> = Vec::new();
    let mut index: usize = 0;
    let n = bytes.len();
    assert(bytes@.skip(0) =~= bytes@);
    while index < n
        invariant
            index <= n,
            n == bytes@.len(),
            out@ + base64_encode(bytes@.skip(index as int)) == base64_encode(bytes@),
        decreases n - index,
    {
        let ghost rest = bytes@.skip(index as int);
        let ghost before = out@;
        let b0 = bytes[index];
        let b1: u8 = if n - index > 1 { bytes[index + 1] } else { 0 };
        let b2: u8 = if n - index > 2 { bytes[index + 2] } else { 0 };
        out.push(b64_char_exec(b0 / 4));
        out.push(b64_char_exec((b0 % 4) * 16 + b1 / 16));
        if n - index > 1 {
            out.push(b64_char_exec((b1 % 16) * 4 + b2 / 64));
        } else {
            out.push('=');
        }
        if n - index > 2 {
            out.push(b64_char_exec(b2 % 64));
        } else {
            out.push('=');
        }
        proof {
            let g = if rest.len() <= 3 { rest } else { rest.take(3) };
            assert(g[0] == b0);
            assert(g.len() > 1 ==> g[1] == b1);
            assert(g.len() > 2 ==> g[2] == b2);
            assert(out@ =~= before + b64_group(g));
            if rest.len() <= 3 {
                assert(bytes@.skip(n as int) =~= Seq::<u8>::empty());
            } else {
                assert(rest.skip(3) =~= bytes@.skip(index + 3));
                assert((before + b64_group(g)) + base64_encode(bytes@.skip(index + 3)) =~= before + (
                b64_group(g) + base64_encode(bytes@.skip(index + 3))));
            }
        }
        if n - index > 3 {
            index += 3;
        } else {
            index = n;
        }
    }
    assert(out@ + Seq::<char>::empty() =~= out@);
    out
}

/// Base64 of `username:password`, the credential part of an HTTP Basic
/// `Authorization` header.
pub fn base64_basic(username: &str, password: &str) -> (out: String)
    ensures
        out@ == base64_encode(basic_credentials(username@, password@)),
{
    let mut input: Vec<char> = chars_of(username);
    input.push(':');
    extend_str(&mut input, password);
    let text = string_of(&input);
    assert(text@ =~= username@ + seq![':'] + password@);
    let bytes = text.as_str().as_bytes();
    let out = base64_of_bytes(bytes);
    string_of(&out)
}

} // verus!
