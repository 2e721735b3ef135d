//! The local configuration page's HTTP side: reading a request head, routing it, and
//! framing the responses.
use vstd::prelude::*;
use crate::config::owned;
use crate::text::{
    is_ws, trim_start, trim, decimal, eq_ignore_ascii_case, parse_u64, chars_of, string_of,
    extend_str, push_decimal, trim_chars, eq_ignore_ascii_case_exec, parse_u64_chars,
    slice_chars, is_whitespace, str_eq,
};

verus! {

// ---------------------------------------------------------------------------
// Responses
// ---------------------------------------------------------------------------

/// A complete HTTP/1.1 response: status line, the four headers the page server always
/// sends (the length counts the body's UTF-8 bytes), a blank line and the body.
pub open spec fn http_response(status: Seq<char>, content_type: Seq<char>, body: Seq<char>) -> Seq<char> {
    "HTTP/1.1 "@ + status + "\r\nContent-Type: "@ + content_type + "\r\nContent-Length: "@ + decimal(
        vstd::utf8::encode_utf8(body).len(),
    ) + "\r\nCache-Control: no-store\r\nConnection: close\r\n\r\n"@ + body
}

pub fn response(status: &str, content_type: &str, body: &str) -> (r: String)
    ensures
        r@ == http_response(status@, content_type@, body@),
{
    let n = body.as_bytes().len();
    let mut out = chars_of("HTTP/1.1 ");
    extend_str(&mut out, status);
    extend_str(&mut out, "\r\nContent-Type: ");
    extend_str(&mut out, content_type);
    extend_str(&mut out, "\r\nContent-Length: ");
    push_decimal(&mut out, n as u64);
    extend_str(&mut out, "\r\nCache-Control: no-store\r\nConnection: close\r\n\r\n");
    extend_str(&mut out, body);
    string_of(&out)
}

/// The page itself.
pub fn html_response(body: &str) -> (r: String)
    ensures
        r@ == http_response("200 OK"@, "text/html; charset=utf-8"@, body@),
{
    response("200 OK", "text/html; charset=utf-8", body)
}

/// A JSON answer, given the JSON text of its body.
pub fn json_response(json: &str) -> (r: String)
    ensures
        r@ == http_response("200 OK"@, "application/json; charset=utf-8"@, json@),
{
    response("200 OK", "application/json; charset=utf-8", json)
}

pub fn not_found_response() -> (r: String)
    ensures
        r@ == http_response("404 Not Found"@, "text/plain; charset=utf-8"@, "Not found"@),
{
    response("404 Not Found", "text/plain; charset=utf-8", "Not found")
}

/// The JSON object every API answer has: `{"ok":..,"message":..,"data":..}`, given the
/// JSON texts of the message and the data, in the field order and compact form of the
/// serialised answer.
pub open spec fn api_body_text(ok: bool, message_json: Seq<char>, data_json: Seq<char>) -> Seq<char> {
    "{\"ok\":"@ + (if ok { "true"@ } else { "false"@ }) + ",\"message\":"@ + message_json + ",\"data\":"@
        + data_json + "}"@
}

pub fn api_body(ok: bool, message_json: &str, data_json: &str) -> (r: String)
    ensures
        r@ == api_body_text(ok, message_json@, data_json@),
{
    let mut out = chars_of("{\"ok\":");
    if ok {
        extend_str(&mut out, "true");
    } else {
        extend_str(&mut out, "false");
    }
    extend_str(&mut out, ",\"message\":");
    extend_str(&mut out, message_json);
    extend_str(&mut out, ",\"data\":");
    extend_str(&mut out, data_json);
    extend_str(&mut out, "}");
    string_of(&out)
}

/// An API answer as a complete response.
pub fn api_response(ok: bool, message_json: &str, data_json: &str) -> (r: String)
    ensures
        r@ == http_response(
            "200 OK"@,
            "application/json; charset=utf-8"@,
            api_body_text(ok, message_json@, data_json@),
        ),
{
    let body = api_body(ok, message_json, data_json);
    json_response(body.as_str())
}

/// A failed API answer: the message, and an empty object as data.
pub fn error_response(message_json: &str) -> (r: String)
    ensures
        r@ == http_response(
            "200 OK"@,
            "application/json; charset=utf-8"@,
            api_body_text(false, message_json@, "{}"@),
        ),
{
    api_response(false, message_json, "{}")
}

/// The answer to a body that is not a valid configuration.
pub fn invalid_config_message(error: &str) -> (r: String)
    ensures
        r@ == "配置格式无效："@ + error@,
{
    let mut out = chars_of("配置格式无效：");
    extend_str(&mut out, error);
    string_of(&out)
}

/// The answer to a successful save.
pub fn save_message(auto_start_monitor: bool) -> (r: String)
    ensures
        r@ == (if auto_start_monitor { "配置已保存，后台监控已启动。"@ } else { "配置已保存。"@ }),
{
    if auto_start_monitor {
        owned("配置已保存，后台监控已启动。")
    } else {
        owned("配置已保存。")
    }
}

/// The answer to a created desktop shortcut.
pub fn shortcut_message(path: &str) -> (r: String)
    ensures
        r@ == "桌面入口已创建："@ + path@,
{
    let mut out = chars_of("桌面入口已创建：");
    extend_str(&mut out, path);
    string_of(&out)
}

// ---------------------------------------------------------------------------
// Routing
// ---------------------------------------------------------------------------

/// What a request asks for.
#[derive(PartialEq, Eq, Structural, Debug, Clone, Copy)]
pub enum Route {
    Page,
    Config,
    Status,
    Save,
    Start,
    Stop,
    Test,
    Diagnostics,
    Scan,
    DesktopShortcut,
    Quit,
    NotFound,
}

pub open spec fn route_of(method: Seq<char>, path: Seq<char>) -> Route {
    if method == "GET"@ && path == "/"@ {
        Route::Page
    } else if method == "GET"@ && path == "/api/config"@ {
        Route::Config
    } else if method == "GET"@ && path == "/api/status"@ {
        Route::Status
    } else if method == "POST"@ && path == "/api/save"@ {
        Route::Save
    } else if method == "POST"@ && path == "/api/start"@ {
        Route::Start
    } else if method == "POST"@ && path == "/api/stop"@ {
        Route::Stop
    } else if method == "POST"@ && path == "/api/test"@ {
        Route::Test
    } else if method == "POST"@ && path == "/api/diagnostics"@ {
        Route::Diagnostics
    } else if method == "POST"@ && path == "/api/scan"@ {
        Route::Scan
    } else if method == "POST"@ && path == "/api/desktop-shortcut"@ {
        Route::DesktopShortcut
    } else if method == "POST"@ && path == "/api/quit"@ {
        Route::Quit
    } else {
        Route::NotFound
    }
}

pub fn route(method: &str, path: &str) -> (r: Route)
    ensures
        r == route_of(method@, path@),
{
    let get = str_eq(method, "GET");
    let post = str_eq(method, "POST");
    if get && str_eq(path, "/") {
        Route::Page
    } else if get && str_eq(path, "/api/config") {
        Route::Config
    } else if get && str_eq(path, "/api/status") {
        Route::Status
    } else if post && str_eq(path, "/api/save") {
        Route::Save
    } else if post && str_eq(path, "/api/start") {
        Route::Start
    } else if post && str_eq(path, "/api/stop") {
        Route::Stop
    } else if post && str_eq(path, "/api/test") {
        Route::Test
    } else if post && str_eq(path, "/api/diagnostics") {
        Route::Diagnostics
    } else if post && str_eq(path, "/api/scan") {
        Route::Scan
    } else if post && str_eq(path, "/api/desktop-shortcut") {
        Route::DesktopShortcut
    } else if post && str_eq(path, "/api/quit") {
        Route::Quit
    } else {
        Route::NotFound
    }
}

// ---------------------------------------------------------------------------
// Request heads
// ---------------------------------------------------------------------------

/// The blank line `\r\n\r\n` starts at byte `p`.
pub open spec fn blank_line_at(b: Seq<u8>, p: int) -> bool {
    0 <= p && p + 4 <= b.len() && b[p] == 13u8 && b[p + 1] == 10u8 && b[p + 2] == 13u8 && b[p + 3] == 10u8
}

/// The end of the head (just past the first blank line) at or after byte `i`.
pub open spec fn blank_line_from(b: Seq<u8>, i: int) -> Option<int>
    decreases b.len() - i,
{
    if i < 0 || i + 4 > b.len() {
        None
    } else if blank_line_at(b, i) {
        Some(i + 4)
    } else {
        blank_line_from(b, i + 1)
    }
}

/// Where a request's head ends: just past its first blank line.
pub open spec fn head_end(b: Seq<u8>) -> Option<int> {
    blank_line_from(b, 0)
}

/// Requests whose head has not ended within this many bytes are refused.
pub const MAX_HEAD_BYTES: usize = 1048576;

fn find_head_end(buffer: &[u8]) -> (r: Option<usize>)
    ensures
        match r {
            Some(e) => head_end(buffer@) == Some(e as int) && 4 <= e <= buffer@.len(),
            None => head_end(buffer@) is None,
        },
{
    let n = buffer.len();
    let mut i: usize = 0;
    while i < n && n - i >= 4
        invariant
            n == buffer@.len(),
            i <= n,
            head_end(buffer@) == blank_line_from(buffer@, i as int),
        decreases n - i,
    {
        if buffer[i] == 13u8 && buffer[i + 1] == 10u8 && buffer[i + 2] == 13u8 && buffer[i + 3] == 10u8 {
            return Some(i + 4);
        }
        i += 1;
    }
    None
}

/// How far reading a request head has come.
#[derive(PartialEq, Eq, Structural, Debug, Clone, Copy)]
pub enum HeadScan {
    /// The head is complete and ends at this byte.
    Complete(usize),
    /// No blank line yet, and already more than the limit: the request is refused.
    TooLarge,
    /// No blank line yet: read on.
    Incomplete,
}

pub fn scan_head(buffer: &[u8]) -> (r: HeadScan)
    ensures
        r == (match head_end(buffer@) {
            Some(e) => HeadScan::Complete(e as usize),
            None => if buffer@.len() > MAX_HEAD_BYTES {
                HeadScan::TooLarge
            } else {
                HeadScan::Incomplete
            },
        }),
{
    match find_head_end(buffer) {
        Some(e) => HeadScan::Complete(e),
        None => if buffer.len() > MAX_HEAD_BYTES {
            HeadScan::TooLarge
        } else {
            HeadScan::Incomplete
        },
    }
}

/// The text that `String::from_utf8_lossy` decodes the bytes to.
pub uninterp spec fn utf8_lossy(bytes: Seq<u8>) -> Seq<char>;

/// `String::from_utf8_lossy`: the result depends on the bytes alone, and valid UTF-8 is
/// decoded as it stands (invalid sequences become U+FFFD, which is left unstated here).
#[verifier::external_body]
fn lossy_text(bytes: &[u8]) -> (s: String)
    ensures
        s@ == utf8_lossy(bytes@),
        vstd::utf8::valid_utf8(bytes@) ==> s@ == vstd::utf8::decode_utf8(bytes@),
{
    String::from_utf8_lossy(bytes).into_owned()
}

/// The leading run of `s` without white space.
pub open spec fn word(s: Seq<char>) -> Seq<char>
    decreases s.len(),
{
    if s.len() == 0 || is_ws(s[0]) {
        Seq::empty()
    } else {
        seq![s[0]] + word(s.drop_first())
    }
}

/// The part of `s` before the first `c` (all of `s` when there is none).
pub open spec fn before_char(s: Seq<char>, c: char) -> Seq<char>
    decreases s.len(),
{
    if s.len() == 0 || s[0] == c {
        Seq::empty()
    } else {
        seq![s[0]] + before_char(s.drop_first(), c)
    }
}

/// The method: the first white-space separated word of the request line (empty when
/// there is none).
pub open spec fn request_method(line: Seq<char>) -> Seq<char> {
    word(trim_start(line))
}

/// The second word of the request line, `/` when there is none.
pub open spec fn request_target(line: Seq<char>) -> Seq<char> {
    let t = trim_start(line);
    let rest = trim_start(t.skip(word(t).len() as int));
    if rest.len() == 0 {
        "/"@
    } else {
        word(rest)
    }
}

/// The path: the target without its query string.
pub open spec fn request_path(line: Seq<char>) -> Seq<char> {
    before_char(request_target(line), '?')
}

/// `str::parse::<usize>`.
pub open spec fn parse_usize(s: Seq<char>) -> Option<usize> {
    match parse_u64(s) {
        Some(n) => if n <= usize::MAX {
            Some(n as usize)
        } else {
            None
        },
        None => None,
    }
}

/// The length that a header line gives: a name before its first `:` equal to
/// `Content-Length` in any ASCII case, and a value that parses once trimmed.
pub open spec fn header_length(line: Seq<char>) -> Option<usize> {
    let name = before_char(line, ':');
    if name.len() < line.len() && eq_ignore_ascii_case(name, "content-length"@) {
        parse_usize(trim(line.skip(name.len() as int + 1)))
    } else {
        None
    }
}

/// The first length that a line of the head gives, else 0.
pub open spec fn content_length_in(ls: Seq<Seq<char>>) -> usize
    decreases ls.len(),
{
    if ls.len() == 0 {
        0
    } else {
        match header_length(ls[0]) {
            Some(n) => n,
            None => content_length_in(ls.drop_first()),
        }
    }
}

/// What the page server reads from a request's head.
#[derive(Debug)]
pub struct RequestHead {
    pub method: String,
    pub path: String,
    /// Where the body starts in the bytes read.
    pub body_start: usize,
    pub content_length: usize,
}

/// The bytes of `b` before its first byte `x` (all of `b` when there is none).
pub open spec fn before_byte(b: Seq<u8>, x: u8) -> Seq<u8>
    decreases b.len(),
{
    if b.len() == 0 || b[0] == x {
        Seq::empty()
    } else {
        seq![b[0]] + before_byte(b.drop_first(), x)
    }
}

/// `b` without one trailing carriage return.
pub open spec fn strip_cr_bytes(b: Seq<u8>) -> Seq<u8> {
    if b.len() > 0 && b.last() == 13u8 {
        b.drop_last()
    } else {
        b
    }
}

/// The lines of a head as `str::lines` gives them of its lossy decoding: the bytes are
/// cut at each line feed, a carriage return before the feed is dropped, a last piece
/// without a feed stays as it is, and each line is decoded on its own. Line feeds and
/// carriage returns are ASCII, so they never fall inside a decoded character or a
/// replaced invalid sequence.
pub open spec fn head_lines(b: Seq<u8>) -> Seq<Seq<char>>
    decreases b.len(),
{
    if b.len() == 0 {
        Seq::empty()
    } else {
        let l = before_byte(b, 10u8);
        if l.len() >= b.len() {
            seq![utf8_lossy(b)]
        } else {
            seq![utf8_lossy(strip_cr_bytes(l))] + head_lines(b.skip(l.len() as int + 1))
        }
    }
}

/// The head of `buffer` as the page server reads it: `None` (a bad request) exactly when
/// the head has not ended. A complete head always has a first line, the request line.
pub open spec fn request_head_of(buffer: Seq<u8>) -> Option<(Seq<char>, Seq<char>, int, int)> {
    match head_end(buffer) {
        None => None,
        Some(e) => {
            let ls = head_lines(buffer.take(e));
            Some((request_method(ls[0]), request_path(ls[0]), e, content_length_in(ls) as int))
        },
    }
}

/// The index of the first character at or after `i` that is not white space.
fn skip_ws(v: &Vec<char>, i: usize) -> (r: usize)
    requires
        i <= v.len(),
    ensures
        i <= r <= v.len(),
        v@.skip(r as int) == trim_start(v@.skip(i as int)),
{
    let mut j = i;
    while j < v.len() && is_whitespace(v[j])
        invariant
            i <= j <= v.len(),
            trim_start(v@.skip(i as int)) == trim_start(v@.skip(j as int)),
        decreases v.len() - j,
    {
        assert(v@.skip(j as int).drop_first() =~= v@.skip(j + 1));
        j += 1;
    }
    if j < v.len() {
        assert(v@.skip(j as int)[0] == v@[j as int]);
    } else {
        assert(v@.skip(j as int) =~= Seq::<char>::empty());
    }
    j
}

/// The index just past the word that starts at `i`.
fn word_end(v: &Vec<char>, i: usize) -> (r: usize)
    requires
        i <= v.len(),
    ensures
        i <= r <= v.len(),
        v@.subrange(i as int, r as int) == word(v@.skip(i as int)),
{
    let mut j = i;
    while j < v.len() && !is_whitespace(v[j])
        invariant
            i <= j <= v.len(),
            word(v@.skip(i as int)) == v@.subrange(i as int, j as int) + word(v@.skip(j as int)),
        decreases v.len() - j,
    {
        assert(v@.skip(j as int).drop_first() =~= v@.skip(j + 1));
        assert(v@.skip(j as int)[0] == v@[j as int]);
        assert(v@.subrange(i as int, j as int) + seq![v@[j as int]] =~= v@.subrange(i as int, j + 1));
        j += 1;
    }
    if j < v.len() {
        assert(v@.skip(j as int)[0] == v@[j as int]);
    }
    assert(word(v@.skip(j as int)) =~= Seq::<char>::empty());
    assert(v@.subrange(i as int, j as int) + Seq::<char>::empty() =~= v@.subrange(i as int, j as int));
    j
}

/// The index of the first `c` at or after `i`, or the length.
fn char_end(v: &Vec<char>, i: usize, c: char) -> (r: usize)
    requires
        i <= v.len(),
    ensures
        i <= r <= v.len(),
        v@.subrange(i as int, r as int) == before_char(v@.skip(i as int), c),
        r < v.len() ==> v@[r as int] == c,
{
    let mut j = i;
    while j < v.len() && v[j] != c
        invariant
            i <= j <= v.len(),
            before_char(v@.skip(i as int), c) == v@.subrange(i as int, j as int) + before_char(v@.skip(j as int), c),
        decreases v.len() - j,
    {
        assert(v@.skip(j as int).drop_first() =~= v@.skip(j + 1));
        assert(v@.skip(j as int)[0] == v@[j as int]);
        assert(v@.subrange(i as int, j as int) + seq![v@[j as int]] =~= v@.subrange(i as int, j + 1));
        j += 1;
    }
    if j < v.len() {
        assert(v@.skip(j as int)[0] == v@[j as int]);
    }
    assert(before_char(v@.skip(j as int), c) =~= Seq::<char>::empty());
    assert(v@.subrange(i as int, j as int) + Seq::<char>::empty() =~= v@.subrange(i as int, j as int));
    j
}

/// Method and path of a request line.
fn parse_request_line(line: &Vec<char>) -> (r: (String, String))
    ensures
        r.0@ == request_method(line@),
        r.1@ == request_path(line@),
{
    assert(line@.skip(0) =~= line@);
    let a = skip_ws(line, 0);
    let b = word_end(line, a);
    let method = slice_chars(line, a, b);
    let ghost t = line@.skip(a as int);
    assert(t.skip(word(t).len() as int) =~= line@.skip(b as int));
    let c = skip_ws(line, b);
    let target = if c == line.len() {
        assert(line@.skip(c as int) =~= Seq::<char>::empty());
        proof {
            reveal_strlit("/");
        }
        chars_of("/")
    } else {
        let d = word_end(line, c);
        slice_chars(line, c, d)
    };
    assert(target@ == request_target(line@));
    assert(target@.skip(0) =~= target@);
    let e = char_end(&target, 0, '?');
    let path = slice_chars(&target, 0, e);
    (string_of(&method), string_of(&path))
}

/// The length a header line gives, if any.
fn line_length(line: &Vec<char>) -> (r: Option<usize>)
    ensures
        r == header_length(line@),
{
    assert(line@.skip(0) =~= line@);
    let colon = char_end(line, 0, ':');
    if colon == line.len() {
        return None;
    }
    let name = slice_chars(line, 0, colon);
    let expected = chars_of("content-length");
    if !eq_ignore_ascii_case_exec(&name, &expected) {
        return None;
    }
    let value = slice_chars(line, colon + 1, line.len());
    assert(value@ =~= line@.skip(name@.len() as int + 1));
    let trimmed = trim_chars(&value);
    match parse_u64_chars(&trimmed) {
        Some(n) => {
            if n <= usize::MAX as u64 {
                Some(n as usize)
            } else {
                None
            }
        },
        None => None,
    }
}

/// The first length that a line gives, else 0.
fn content_length_of(ls: &Vec<Vec<char>>) -> (n: usize)
    ensures
        n == content_length_in(ls.deep_view()),
{
    let ghost lv = ls.deep_view();
    let mut k: usize = 0;
    assert(lv.skip(0) =~= lv);
    while k < ls.len()
        invariant
            k <= ls.len(),
            lv == ls.deep_view(),
            content_length_in(lv) == content_length_in(lv.skip(k as int)),
        decreases ls.len() - k,
    {
        assert(lv.skip(k as int)[0] == ls@[k as int]@);
        if let Some(n) = line_length(&ls[k]) {
            return n;
        }
        assert(lv.skip(k as int).drop_first() =~= lv.skip(k + 1));
        k += 1;
    }
    assert(lv.skip(k as int) =~= Seq::<Seq<char>>::empty());
    0
}

/// The index of the first byte `x` in `b[i..end]`, or `end`.
fn byte_end(b: &[u8], i: usize, end: usize, x: u8) -> (r: usize)
    requires
        i <= end <= b@.len(),
    ensures
        i <= r <= end,
        b@.subrange(i as int, r as int) == before_byte(b@.subrange(i as int, end as int), x),
        r < end ==> b@[r as int] == x,
{
    let mut j = i;
    while j < end && b[j] != x
        invariant
            i <= j <= end <= b@.len(),
            before_byte(b@.subrange(i as int, end as int), x) == b@.subrange(i as int, j as int)
                + before_byte(b@.subrange(j as int, end as int), x),
        decreases end - j,
    {
        assert(b@.subrange(j as int, end as int).drop_first() =~= b@.subrange(j + 1, end as int));
        assert(b@.subrange(j as int, end as int)[0] == b@[j as int]);
        assert(b@.subrange(i as int, j as int) + seq![b@[j as int]] =~= b@.subrange(i as int, j + 1));
        j += 1;
    }
    if j < end {
        assert(b@.subrange(j as int, end as int)[0] == b@[j as int]);
    }
    assert(before_byte(b@.subrange(j as int, end as int), x) =~= Seq::<u8>::empty());
    assert(b@.subrange(i as int, j as int) + Seq::<u8>::empty() =~= b@.subrange(i as int, j as int));
    j
}

/// A copy of `b[from..to]`.
fn copy_range(b: &[u8], from: usize, to: usize) -> (r: Vec<u8>)
    requires
        from <= to <= b@.len(),
    ensures
        r@ == b@.subrange(from as int, to as int),
{
    let mut out: Vec<u8> = Vec::new();
    let mut k = from;
    while k < to
        invariant
            from <= k <= to <= b@.len(),
            out@ == b@.subrange(from as int, k as int),
        decreases to - k,
    {
        out.push(b[k]);
        assert(b@.subrange(from as int, k + 1) =~= b@.subrange(from as int, k as int).push(b@[k as int]));
        k += 1;
    }
    out
}

/// The lines of `buffer[..end]`, each decoded as `head_lines` says.
fn split_head_lines(buffer: &[u8], end: usize) -> (ls: Vec<Vec<char>>)
    requires
        end <= buffer@.len(),
    ensures
        ls.deep_view() == head_lines(buffer@.take(end as int)),
{
    let ghost hb = buffer@.take(end as int);
    let mut ls: Vec<Vec<char>> = Vec::new();
    let mut i: usize = 0;
    assert(hb.skip(0) =~= hb);
    assert(ls.deep_view() =~= Seq::<Seq<char>>::empty());
    while i < end
        invariant
            i <= end <= buffer@.len(),
            hb == buffer@.take(end as int),
            ls.deep_view() + head_lines(hb.skip(i as int)) == head_lines(hb),
        decreases end - i,
    {
        let ghost rest = hb.skip(i as int);
        assert(rest =~= buffer@.subrange(i as int, end as int));
        let j = byte_end(buffer, i, end, 10u8);
        let stop = if j < end && j > i && buffer[j - 1] == 13u8 {
            j - 1
        } else {
            j
        };
        let piece = copy_range(buffer, i, stop);
        let text = lossy_text(piece.as_slice());
        let cv = chars_of(text.as_str());
        let ghost before = ls.deep_view();
        let ghost old_ls = ls@;
        ls.push(cv);
        assert(ls@ == old_ls.push(cv));
        assert forall|k: int| 0 <= k < ls.len() implies ls.deep_view()[k] == before.push(cv@)[k] by {
            if k < old_ls.len() {
                assert(ls@[k] == old_ls[k]);
            }
        }
        assert(ls.deep_view() =~= before.push(cv@));
        let ghost l = before_byte(rest, 10u8);
        assert(l == buffer@.subrange(i as int, j as int));
        if j < end {
            assert(strip_cr_bytes(l) =~= buffer@.subrange(i as int, stop as int));
            assert(rest.skip(l.len() as int + 1) =~= hb.skip(j + 1));
            assert(head_lines(rest) == seq![utf8_lossy(strip_cr_bytes(l))] + head_lines(rest.skip(l.len() as int + 1)));
            assert(before.push(cv@) + head_lines(hb.skip(j + 1)) =~= before + head_lines(rest));
            i = j + 1;
        } else {
            assert(piece@ =~= rest);
            assert(hb.skip(end as int) =~= Seq::<u8>::empty());
            assert(head_lines(rest) == seq![utf8_lossy(rest)]);
            assert(before.push(cv@) + head_lines(hb.skip(end as int)) =~= before + head_lines(rest));
            i = end;
        }
    }
    assert(hb.skip(end as int) =~= Seq::<u8>::empty());
    assert(ls.deep_view() + Seq::<Seq<char>>::empty() =~= ls.deep_view());
    ls
}

/// Reads the method, path and body length from the bytes of a request read so far;
/// `Err("bad request")` when its head is not complete.
pub fn parse_request_head(buffer: &[u8]) -> (r: Result<RequestHead, String>)
    ensures
        r is Ok <==> head_end(buffer@) is Some,
        match r {
            Ok(h) => request_head_of(buffer@) == Some(
                (h.method@, h.path@, h.body_start as int, h.content_length as int),
            ),
            Err(e) => request_head_of(buffer@) is None && e@ == "bad request"@,
        },
{
    let end = match find_head_end(buffer) {
        Some(e) => e,
        None => {
            return Err(owned("bad request"));
        },
    };
    let ls = split_head_lines(buffer, end);
    let ghost hb = buffer@.take(end as int);
    assert(hb.len() > 0);
    assert(head_lines(hb).len() > 0);
    assert(ls.deep_view()[0] == ls@[0]@);
    let (method, path) = parse_request_line(&ls[0]);
    let length = content_length_of(&ls);
    Ok(RequestHead { method, path, body_start: end, content_length: length })
}

/// More body bytes are owed: fewer than the head's length have arrived after it.
pub fn needs_more_body(received: usize, head: &RequestHead) -> (b: bool)
    ensures
        b == (received < head.body_start + head.content_length),
{
    received < head.body_start || received - head.body_start < head.content_length
}

/// The body: every byte after the head.
pub fn request_body(buffer: &[u8], body_start: usize) -> (r: Vec<u8>)
    requires
        body_start <= buffer@.len(),
    ensures
        r@ == buffer@.skip(body_start as int),
{
    let mut out: Vec<u8> = Vec::new();
    let mut i = body_start;
    while i < buffer.len()
        invariant
            body_start <= i <= buffer@.len(),
            out@ == buffer@.subrange(body_start as int, i as int),
        decreases buffer.len() - i,
    {
        out.push(buffer[i]);
        assert(buffer@.subrange(body_start as int, i + 1) =~= buffer@.subrange(body_start as int, i as int).push(
            buffer@[i as int],
        ));
        i += 1;
    }
    assert(buffer@.subrange(body_start as int, i as int) =~= buffer@.skip(body_start as int));
    out
}

} // verus!
