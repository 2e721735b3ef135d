//! Base addresses of the clients' web interfaces, the µTorrent page token, and the
//! display of speed limits.
use vstd::prelude::*;
use crate::text::{
    trim, trim_end_char, ends_with, find, decimal, signed_decimal, chars_of, trim_chars,
    trim_end_char_chars, ends_with_exec, extend_str, string_of, find_exec, slice_chars,
    push_decimal, push_signed_decimal,
};

verus! {

/// `url` trimmed of white space and then of trailing slashes.
pub open spec fn bare_url(url: Seq<char>) -> Seq<char> {
    trim_end_char(trim(url), '/')
}

/// `bare_url(url)`, with `suffix` appended unless it already ends with it.
pub open spec fn with_suffix(url: Seq<char>, suffix: Seq<char>) -> Seq<char> {
    let b = bare_url(url);
    if ends_with(b, suffix) {
        b
    } else {
        b + suffix
    }
}

fn bare_url_chars(url: &str) -> (r: Vec<char>)
    ensures
        r@ == bare_url(url@),
{
    let v = chars_of(url);
    let t = trim_chars(&v);
    trim_end_char_chars(&t, '/')
}

fn normalize_with_suffix(url: &str, suffix: &str) -> (r: String)
    ensures
        r@ == with_suffix(url@, suffix@),
{
    let mut b = bare_url_chars(url);
    let s = chars_of(suffix);
    if !ends_with_exec(&b, &s) {
        extend_str(&mut b, suffix);
    }
    string_of(&b)
}

/// The µTorrent Web UI base address: trimmed, without trailing slashes, ending in `/gui`.
pub fn normalize_utorrent_url(url: &str) -> (r: String)
    ensures
        r@ == with_suffix(url@, "/gui"@),
{
    normalize_with_suffix(url, "/gui")
}

/// The Deluge Web JSON-RPC address: trimmed, without trailing slashes, ending in `/json`.
pub fn normalize_deluge_url(url: &str) -> (r: String)
    ensures
        r@ == with_suffix(url@, "/json"@),
{
    normalize_with_suffix(url, "/json")
}

/// The BitComet WebUI base address: trimmed and without trailing slashes.
pub fn normalize_bitcomet_url(url: &str) -> (r: String)
    ensures
        r@ == bare_url(url@),
{
    let b = bare_url_chars(url);
    string_of(&b)
}

/// The qBittorrent Web UI base address: the configured one without trailing slashes.
pub fn qbee_base_url(url: &str) -> (r: String)
    ensures
        r@ == trim_end_char(url@, '/'),
{
    let v = chars_of(url);
    let t = trim_end_char_chars(&v, '/');
    string_of(&t)
}

/// What looking for the token behind one marker gives.
pub enum TokenStep {
    /// The marker does not occur.
    Absent,
    /// The marker occurs but no `>` follows it, or no `<` follows that: the search stops.
    Abort,
    /// The text between `>` and `<` is blank.
    Blank,
    /// The trimmed text between `>` and `<`.
    Found(Seq<char>),
}

pub open spec fn token_step(text: Seq<char>, marker: Seq<char>) -> TokenStep {
    match find(text, marker) {
        None => TokenStep::Absent,
        Some(mi) => {
            match tag_text(text.skip(mi)) {
                None => TokenStep::Abort,
                Some(t) => if t.len() == 0 {
                    TokenStep::Blank
                } else {
                    TokenStep::Found(t)
                },
            }
        },
    }
}

/// The token in µTorrent's `token.html`: the element marked `id='token'` is tried first,
/// then `id="token"`.
pub open spec fn utorrent_token(text: Seq<char>) -> Option<Seq<char>> {
    match token_step(text, "id='token'"@) {
        TokenStep::Found(t) => Some(t),
        TokenStep::Abort => None,
        _ => match token_step(text, "id=\"token\""@) {
            TokenStep::Found(t) => Some(t),
            _ => None,
        },
    }
}

/// The trimmed text between the first `>` of `after` and the next `<`, if both occur.
pub open spec fn tag_text(after: Seq<char>) -> Option<Seq<char>> {
    match find(after, ">"@) {
        None => None,
        Some(g) => {
            let rest = after.skip(g + 1);
            match find(rest, "<"@) {
                None => None,
                Some(e) => Some(trim(rest.take(e))),
            }
        },
    }
}

fn tag_text_exec(after: &Vec<char>) -> (r: Option<Vec<char>>)
    ensures
        match r {
            Some(t) => tag_text(after@) == Some(t@),
            None => tag_text(after@) is None,
        },
{
    let gt = chars_of(">");
    proof {
        reveal_strlit(">");
    }
    match find_exec(after, &gt) {
        None => None,
        Some(g) => {
            assert(gt@.len() == 1);
            let n = after.len();
            assert(g + gt@.len() <= n);
            let rest = slice_chars(after, g + 1, n);
            assert(rest@ =~= after@.skip(g + 1));
            let lt = chars_of("<");
            match find_exec(&rest, &lt) {
                None => None,
                Some(e) => {
                    let inner = slice_chars(&rest, 0, e);
                    assert(inner@ =~= rest@.take(e as int));
                    Some(trim_chars(&inner))
                },
            }
        },
    }
}

/// One marker's step, with the token when one was found.
fn token_step_exec(text: &Vec<char>, marker: &str) -> (r: (u8, Vec<char>))
    ensures
        match token_step(text@, marker@) {
            TokenStep::Absent => r.0 == 0,
            TokenStep::Abort => r.0 == 1,
            TokenStep::Blank => r.0 == 2,
            TokenStep::Found(t) => r.0 == 3 && r.1@ == t,
        },
{
    let m = chars_of(marker);
    match find_exec(text, &m) {
        None => (0, Vec::new()),
        Some(mi) => {
            let after = slice_chars(text, mi, text.len());
            assert(after@ =~= text@.skip(mi as int));
            match tag_text_exec(&after) {
                None => (1, Vec::new()),
                Some(t) => {
                    if t.len() == 0 {
                        (2, t)
                    } else {
                        (3, t)
                    }
                },
            }
        },
    }
}

/// The token that µTorrent's `token.html` page holds, if any.
pub fn extract_utorrent_token(text: &str) -> (r: Option<String>)
    ensures
        match r {
            Some(t) => utorrent_token(text@) == Some(t@),
            None => utorrent_token(text@) is None,
        },
{
    let v = chars_of(text);
    let (k1, t1) = token_step_exec(&v, "id='token'");
    if k1 == 3 {
        return Some(string_of(&t1));
    }
    if k1 == 1 {
        return None;
    }
    let (k2, t2) = token_step_exec(&v, "id=\"token\"");
    if k2 == 3 {
        Some(string_of(&t2))
    } else {
        None
    }
}

/// The text shown for a µTorrent limit in KiB/s: unlimited when not positive.
pub open spec fn int_limit_text(value: i64) -> Seq<char> {
    if value <= 0 {
        "不限速"@
    } else {
        signed_decimal(value as int) + "K"@
    }
}

/// The text shown for a BitComet limit in bytes/s: unlimited when zero, whole MiB/s as
/// `M`, otherwise whole KiB/s as `K`.
pub open spec fn byte_limit_text(value: u64) -> Seq<char> {
    if value == 0 {
        "不限速"@
    } else if value % 1048576u64 == 0 {
        decimal((value / 1024 / 1024) as nat) + "M"@
    } else {
        decimal((value / 1024) as nat) + "K"@
    }
}

pub fn format_int_limit(value: i64) -> (r: String)
    ensures
        r@ == int_limit_text(value),
{
    if value <= 0 {
        crate::config::owned("不限速")
    } else {
        let mut v: Vec<char> = Vec::new();
        push_signed_decimal(&mut v, value);
        v.push('K');
        assert(v@ =~= signed_decimal(value as int) + "K"@) by {
            reveal_strlit("K");
        }
        string_of(&v)
    }
}

pub fn format_byte_limit(value: u64) -> (r: String)
    ensures
        r@ == byte_limit_text(value),
{
    if value == 0 {
        crate::config::owned("不限速")
    } else if value % (1024 * 1024) == 0 {
        let mut v: Vec<char> = Vec::new();
        push_decimal(&mut v, value / 1024 / 1024);
        v.push('M');
        assert(v@ =~= decimal((value / 1024 / 1024) as nat) + "M"@) by {
            reveal_strlit("M");
        }
        string_of(&v)
    } else {
        let mut v: Vec<char> = Vec::new();
        push_decimal(&mut v, value / 1024);
        v.push('K');
        assert(v@ =~= decimal((value / 1024) as nat) + "K"@) by {
            reveal_strlit("K");
        }
        string_of(&v)
    }
}

} // verus!
