//! What the clients' web interfaces are sent and what their answers mean: request
//! addresses and bodies, session handling, and the reading of responses.
use vstd::prelude::*;
use crate::config::owned;
use crate::urls::{utorrent_token, extract_utorrent_token};
use crate::controller::{QbeeClient, TransmissionClient, Aria2Client, UTorrentClient, DelugeClient, BitCometClient};
use crate::encoding::{url_encode, percent_encode, base64_basic, base64_encode, basic_credentials};
use crate::json::{
    JsonValue, JsonNumber, index, member, as_str, as_bool, json_i64_spec, json_u64_spec, get_member,
    get_str, get_bool, is_null, take_member, json_i64, json_u64, parse_json, parsed_json,
};
use crate::text::{
    trim, contains, replace, split, eq_ignore_ascii_case, chars_of, extend_str, string_of, trim_str,
    str_eq, str_contains, replace_chars, split_chars, eq_ignore_ascii_case_exec,
};

verus! {

pub open spec fn is_str(v: JsonValue, s: Seq<char>) -> bool {
    v matches JsonValue::Str(x) && x@ == s
}

/// `v` is an object whose members have exactly the names `keys`, in this order.
pub open spec fn has_keys(v: JsonValue, keys: Seq<Seq<char>>) -> bool {
    v matches JsonValue::Object(es) && es@.len() == keys.len() && forall|i: int|
        0 <= i < keys.len() ==> #[trigger] es@[i].0@ == keys[i]
}

/// The `i`-th member's value of an object.
pub open spec fn member_at(v: JsonValue, i: int) -> JsonValue {
    match v {
        JsonValue::Object(es) => es@[i].1,
        _ => JsonValue::Null,
    }
}

fn str_value(s: &str) -> (v: JsonValue)
    ensures
        is_str(v, s@),
{
    JsonValue::Str(owned(s))
}

fn pair(key: &str, value: JsonValue) -> (p: (String, JsonValue))
    ensures
        p.0@ == key@,
        p.1 == value,
{
    (owned(key), value)
}

fn concat(a: &str, b: &str) -> (r: String)
    ensures
        r@ == a@ + b@,
{
    let mut v = chars_of(a);
    extend_str(&mut v, b);
    string_of(&v)
}

fn concat3(a: &str, b: &str, c: &str) -> (r: String)
    ensures
        r@ == a@ + b@ + c@,
{
    let mut v = chars_of(a);
    extend_str(&mut v, b);
    extend_str(&mut v, c);
    string_of(&v)
}

// ---------------------------------------------------------------------------
// Shared pieces
// ---------------------------------------------------------------------------

/// The cookie that a `Set-Cookie` header sets: the header up to its first `;`.
pub fn cookie_from_header(header: &str) -> (cookie: String)
    ensures
        cookie@ == split(header@, ';')[0],
{
    let v = chars_of(header);
    let parts = split_chars(&v, ';');
    proof {
        crate::text::lemma_split_nonempty(header@, ';');
    }
    assert(parts.deep_view()[0] == parts@[0]@);
    string_of(&parts[0])
}

/// The HTTP Basic `Authorization` header value, sent when a user name or a password is set.
pub open spec fn basic_authorization(username: Seq<char>, password: Seq<char>) -> Option<Seq<char>> {
    if username.len() > 0 || password.len() > 0 {
        Some("Basic "@ + base64_encode(basic_credentials(username, password)))
    } else {
        None
    }
}

pub fn authorization(username: &str, password: &str) -> (r: Option<String>)
    ensures
        match r {
            Some(h) => basic_authorization(username@, password@) == Some(h@),
            None => basic_authorization(username@, password@) is None,
        },
{
    if !username.is_empty() || !password.is_empty() {
        let encoded = base64_basic(username, password);
        Some(concat("Basic ", encoded.as_str()))
    } else {
        None
    }
}

/// A JSON-RPC answer succeeded: its `error` is null or missing.
pub open spec fn rpc_outcome_ok(value: JsonValue) -> bool {
    index(value, "error"@) is Null
}

pub open spec fn rpc_error_text(service: Seq<char>, value: JsonValue) -> Seq<char> {
    service + " RPC 失败："@ + match as_str(index(index(value, "error"@), "message"@)) {
        Some(m) => m,
        None => "unknown"@,
    }
}

/// The `result` of a JSON-RPC answer (`aria2`, `Deluge`), or the error it reports.
pub fn rpc_result(service: &str, value: JsonValue) -> (r: Result<JsonValue, String>)
    ensures
        rpc_outcome_ok(value) ==> r == Ok::<JsonValue, String>(index(value, "result"@)),
        !rpc_outcome_ok(value) ==> (r matches Err(e) && e@ == rpc_error_text(service@, value)),
{
    let error_present = match get_member(&value, "error") {
        Some(e) => !is_null(e),
        None => false,
    };
    if error_present {
        let message = match get_member(&value, "error") {
            Some(e) => match get_member(e, "message") {
                Some(m) => match get_str(m) {
                    Some(s) => s.clone(),
                    None => owned("unknown"),
                },
                None => owned("unknown"),
            },
            None => owned("unknown"),
        };
        return Err(concat3(service, " RPC 失败：", message.as_str()));
    }
    Ok(take_member(value, "result"))
}

// ---------------------------------------------------------------------------
// qBittorrent
// ---------------------------------------------------------------------------

impl QbeeClient {
    /// The address of a Web API path.
    pub fn url(&self, path: &str) -> (r: String)
        ensures
            r@ == self.base_url@ + path@,
    {
        concat(self.base_url.as_str(), path)
    }

    /// Whether the `speedLimitsMode` answer says the alternative limits are on.
    pub fn speed_limits_enabled(text: &str) -> (on: bool)
        ensures
            on == (trim(text@) == "1"@),
    {
        let t = trim_str(text);
        str_eq(t.as_str(), "1")
    }

    /// The form body of the login request.
    pub fn login_body(&self) -> (body: String)
        ensures
            body@ == "username="@ + percent_encode(vstd::utf8::encode_utf8(self.username@))
                + "&password="@ + percent_encode(vstd::utf8::encode_utf8(self.password@)),
    {
        let user = url_encode(self.username.as_str());
        let pass = url_encode(self.password.as_str());
        let mut v = chars_of("username=");
        extend_str(&mut v, user.as_str());
        extend_str(&mut v, "&password=");
        extend_str(&mut v, pass.as_str());
        string_of(&v)
    }

    /// Whether the login answer accepts the credentials.
    pub fn login_accepted(text: &str) -> (ok: bool)
        ensures
            ok == (trim(text@) == "Ok."@),
    {
        let t = trim_str(text);
        str_eq(t.as_str(), "Ok.")
    }

    /// Whether the page at the root address is Steam's CEF debugger, not qBittorrent.
    pub fn is_cef_debugger(root: &str) -> (b: bool)
        ensures
            b == contains(root@, "CEF remote debugging"@),
    {
        str_contains(root, "CEF remote debugging")
    }

    /// The same address on the IPv6 loopback, when it names the IPv4 loopback or
    /// `localhost`.
    pub fn ipv6_loopback_url(&self) -> (r: Option<String>)
        ensures
            match r {
                Some(u) => (contains(self.base_url@, "127.0.0.1"@) || contains(self.base_url@, "localhost"@))
                    && u@ == replace(replace(self.base_url@, "127.0.0.1"@, "[::1]"@), "localhost"@, "[::1]"@),
                None => !(contains(self.base_url@, "127.0.0.1"@) || contains(self.base_url@, "localhost"@)),
            },
    {
        if !(str_contains(self.base_url.as_str(), "127.0.0.1") || str_contains(self.base_url.as_str(), "localhost")) {
            return None;
        }
        let v = chars_of(self.base_url.as_str());
        let a = chars_of("127.0.0.1");
        let b = chars_of("localhost");
        let to = chars_of("[::1]");
        proof {
            reveal_strlit("127.0.0.1");
            reveal_strlit("localhost");
        }
        let once = replace_chars(&v, &a, &to);
        let twice = replace_chars(&once, &b, &to);
        Some(string_of(&twice))
    }

    /// Remembers the cookie of a `Set-Cookie` header.
    pub fn capture_cookie(&mut self, set_cookie: Option<&str>)
        ensures
            match set_cookie {
                Some(h) => final(self).cookie matches Some(c) && c@ == split(h@, ';')[0],
                None => final(self).cookie == old(self).cookie,
            },
            final(self).base_url == old(self).base_url,
            final(self).username == old(self).username,
            final(self).password == old(self).password,
            final(self).logged_in == old(self).logged_in,
    {
        if let Some(h) = set_cookie {
            self.cookie = Some(cookie_from_header(h));
        }
    }
}

/// A request of the qBittorrent login sequence.
pub enum QbRequest {
    /// `GET /`
    Root,
    /// `GET /api/v2/app/version` at the current base address.
    Version,
    /// `GET /api/v2/app/version` at the IPv6 loopback address, which becomes the base
    /// address if it answers.
    VersionAt(String),
    /// `POST /api/v2/auth/login` with this form body.
    Login(String),
}

/// Where the login sequence stands.
pub enum QbLoginStage {
    Start,
    SentRoot,
    /// The version was asked for at this IPv6 loopback address.
    SentIpv6Version(String),
    SentVersion,
    SentLogin,
}

/// What the login sequence does next.
pub enum QbLoginStep {
    Send(QbRequest),
    Done(Result<(), String>),
}

pub open spec fn cef_error() -> Seq<char> {
    "当前地址打开的是 CEF remote debugging，不是 qBittorrent Web UI。请尝试 http://[::1]:8080 或更换 qB Web UI 端口。"@
}

pub open spec fn qb_login_failed() -> Seq<char> {
    "qB 登录失败，请检查 Web UI 用户名和密码。"@
}

impl QbeeClient {
    /// One step of making sure the session is logged in. `answer` is the answer to the
    /// request of the previous step (`None` at the start). The sequence: nothing to do
    /// when logged in; fetch the root page and, when it is Steam's CEF debugger, move to
    /// the IPv6 loopback or fail; then the session counts as logged in when the version
    /// can be read, else log in with the credentials.
    pub fn login_step(&mut self, stage: QbLoginStage, answer: Option<Result<String, String>>) -> (r: (QbLoginStage, QbLoginStep))
        ensures
            final(self).username == old(self).username,
            final(self).password == old(self).password,
            final(self).cookie == old(self).cookie,
            stage is Start && old(self).logged_in ==> r.1 == QbLoginStep::Done(Ok(())) && *final(self) == *old(self),
            stage is Start && !old(self).logged_in ==> r.0 is SentRoot && r.1 == QbLoginStep::Send(QbRequest::Root),
            stage is SentRoot ==> (answer matches Some(Err(e)) ==> r.1 == QbLoginStep::Done(Err::<(), String>(e))),
            stage is SentRoot ==> (answer matches Some(Ok(t)) ==> (!contains(t@, "CEF remote debugging"@)
                ==> r.0 is SentVersion && r.1 == QbLoginStep::Send(QbRequest::Version))),
            stage is SentIpv6Version ==> (!(answer matches Some(Ok(_))) ==> (r.1 matches QbLoginStep::Done(Err(e))
                && e@ == cef_error())),
            stage matches QbLoginStage::SentIpv6Version(u) ==> (answer matches Some(Ok(_)) ==> r.0 is SentVersion
                && r.1 == QbLoginStep::Send(QbRequest::Version) && final(self).base_url == u),
            !(stage is SentIpv6Version && answer matches Some(Ok(_))) ==> final(self).base_url == old(self).base_url,
            stage is SentRoot ==> (answer matches Some(Ok(t)) ==> (contains(t@, "CEF remote debugging"@) ==> match r.1 {
                QbLoginStep::Send(QbRequest::VersionAt(u)) => (r.0 matches QbLoginStage::SentIpv6Version(v) && v == u)
                    && (contains(old(self).base_url@, "127.0.0.1"@) || contains(old(self).base_url@, "localhost"@))
                    && u@ == replace(replace(old(self).base_url@, "127.0.0.1"@, "[::1]"@), "localhost"@, "[::1]"@),
                QbLoginStep::Done(Err(e)) => e@ == cef_error() && !(contains(old(self).base_url@, "127.0.0.1"@)
                    || contains(old(self).base_url@, "localhost"@)),
                _ => false,
            })),
            stage is SentVersion ==> (answer matches Some(Ok(_)) ==> r.1 == QbLoginStep::Done(Ok(()))
                && final(self).logged_in),
            stage is SentVersion && !(answer matches Some(Ok(_))) ==> r.0 is SentLogin && (r.1 matches QbLoginStep::Send(
                QbRequest::Login(b),
            ) && b@ == "username="@ + percent_encode(vstd::utf8::encode_utf8(old(self).username@))
                + "&password="@ + percent_encode(vstd::utf8::encode_utf8(old(self).password@))),
            stage is SentLogin ==> (answer matches Some(Err(e)) ==> r.1 == QbLoginStep::Done(Err::<(), String>(e))),
            stage is SentLogin ==> (answer matches Some(Ok(t)) ==> if trim(t@) == "Ok."@ {
                r.1 == QbLoginStep::Done(Ok(())) && final(self).logged_in
            } else {
                (r.1 matches QbLoginStep::Done(Err(e)) && e@ == qb_login_failed())
            }),
    {
        match stage {
            QbLoginStage::Start => {
                if self.logged_in {
                    (QbLoginStage::Start, QbLoginStep::Done(Ok(())))
                } else {
                    (QbLoginStage::SentRoot, QbLoginStep::Send(QbRequest::Root))
                }
            },
            QbLoginStage::SentRoot => match answer {
                Some(Ok(root)) => {
                    if QbeeClient::is_cef_debugger(root.as_str()) {
                        match self.ipv6_loopback_url() {
                            Some(url) => {
                                let again = url.clone();
                                (QbLoginStage::SentIpv6Version(url), QbLoginStep::Send(QbRequest::VersionAt(again)))
                            },
                            None => (QbLoginStage::SentRoot, QbLoginStep::Done(Err(owned(
                                "当前地址打开的是 CEF remote debugging，不是 qBittorrent Web UI。请尝试 http://[::1]:8080 或更换 qB Web UI 端口。",
                            )))),
                        }
                    } else {
                        (QbLoginStage::SentVersion, QbLoginStep::Send(QbRequest::Version))
                    }
                },
                Some(Err(e)) => (QbLoginStage::SentRoot, QbLoginStep::Done(Err(e))),
                None => (QbLoginStage::SentRoot, QbLoginStep::Send(QbRequest::Root)),
            },
            QbLoginStage::SentIpv6Version(url) => match answer {
                Some(Ok(_)) => {
                    self.base_url = url;
                    (QbLoginStage::SentVersion, QbLoginStep::Send(QbRequest::Version))
                },
                _ => (QbLoginStage::SentIpv6Version(url), QbLoginStep::Done(Err(owned(
                    "当前地址打开的是 CEF remote debugging，不是 qBittorrent Web UI。请尝试 http://[::1]:8080 或更换 qB Web UI 端口。",
                )))),
            },
            QbLoginStage::SentVersion => match answer {
                Some(Ok(_)) => {
                    self.logged_in = true;
                    (QbLoginStage::SentVersion, QbLoginStep::Done(Ok(())))
                },
                _ => {
                    let body = self.login_body();
                    (QbLoginStage::SentLogin, QbLoginStep::Send(QbRequest::Login(body)))
                },
            },
            QbLoginStage::SentLogin => match answer {
                Some(Ok(t)) => {
                    if QbeeClient::login_accepted(t.as_str()) {
                        self.logged_in = true;
                        (QbLoginStage::SentLogin, QbLoginStep::Done(Ok(())))
                    } else {
                        (QbLoginStage::SentLogin, QbLoginStep::Done(Err(owned("qB 登录失败，请检查 Web UI 用户名和密码。"))))
                    }
                },
                Some(Err(e)) => (QbLoginStage::SentLogin, QbLoginStep::Done(Err(e))),
                None => (QbLoginStage::SentLogin, QbLoginStep::Done(Err(owned("qB 登录失败，请检查 Web UI 用户名和密码。")))),
            },
        }
    }
}

// ---------------------------------------------------------------------------
// Replies
// ---------------------------------------------------------------------------

/// A reply's text parsed as JSON; when it is not JSON, the parser's message after
/// `prefix`.
fn json_reply(prefix: &str, text: &str) -> (r: Result<JsonValue, String>)
    ensures
        match parsed_json(text@) {
            Ok(v) => r == Ok::<JsonValue, String>(v),
            Err(m) => r matches Err(e) && e@ == prefix@ + m,
        },
{
    match parse_json(text) {
        Ok(v) => Ok(v),
        Err(m) => Err(concat(prefix, m.as_str())),
    }
}

/// An aria2 JSON-RPC reply: its `result`, the error it reports, or the parser's message
/// when the text is not JSON.
pub fn aria2_reply(text: &str) -> (r: Result<JsonValue, String>)
    ensures
        match parsed_json(text@) {
            Ok(v) => {
                &&& rpc_outcome_ok(v) ==> r == Ok::<JsonValue, String>(index(v, "result"@))
                &&& !rpc_outcome_ok(v) ==> (r matches Err(e) && e@ == rpc_error_text("aria2"@, v))
            },
            Err(m) => r matches Err(e) && e@ == m,
        },
{
    match parse_json(text) {
        Ok(v) => rpc_result("aria2", v),
        Err(m) => Err(m),
    }
}

/// A Deluge JSON-RPC reply: its `result`, the error it reports, or, when the text is not
/// JSON, the parser's message after `Deluge 返回不是有效 JSON：`.
pub fn deluge_reply(text: &str) -> (r: Result<JsonValue, String>)
    ensures
        match parsed_json(text@) {
            Ok(v) => {
                &&& rpc_outcome_ok(v) ==> r == Ok::<JsonValue, String>(index(v, "result"@))
                &&& !rpc_outcome_ok(v) ==> (r matches Err(e) && e@ == rpc_error_text("Deluge"@, v))
            },
            Err(m) => r matches Err(e) && e@ == "Deluge 返回不是有效 JSON："@ + m,
        },
{
    match json_reply("Deluge 返回不是有效 JSON：", text) {
        Ok(v) => rpc_result("Deluge", v),
        Err(e) => Err(e),
    }
}

/// A µTorrent/BitTorrent Web API reply: the parsed value, or, when the text is not JSON,
/// the parser's message after `µTorrent/BitTorrent 返回不是有效 JSON：`.
pub fn utorrent_reply(text: &str) -> (r: Result<JsonValue, String>)
    ensures
        match parsed_json(text@) {
            Ok(v) => r == Ok::<JsonValue, String>(v),
            Err(m) => r matches Err(e) && e@ == "µTorrent/BitTorrent 返回不是有效 JSON："@ + m,
        },
{
    json_reply("µTorrent/BitTorrent 返回不是有效 JSON：", text)
}

/// A BitComet WebUI reply: the parsed value, or, when the text is not JSON, the parser's
/// message after `BitComet 返回不是有效 JSON：`.
pub fn bitcomet_reply(text: &str) -> (r: Result<JsonValue, String>)
    ensures
        match parsed_json(text@) {
            Ok(v) => r == Ok::<JsonValue, String>(v),
            Err(m) => r matches Err(e) && e@ == "BitComet 返回不是有效 JSON："@ + m,
        },
{
    json_reply("BitComet 返回不是有效 JSON：", text)
}

// ---------------------------------------------------------------------------
// Transmission
// ---------------------------------------------------------------------------

pub open spec fn transmission_error(value: JsonValue) -> Seq<char> {
    "Transmission RPC 失败："@ + match as_str(index(value, "result"@)) {
        Some(r) => r,
        None => "unknown"@,
    }
}

/// A Transmission RPC answer: accepted when its `result` is `"success"`.
pub fn parse_transmission_response(value: JsonValue) -> (r: Result<JsonValue, String>)
    ensures
        as_str(index(value, "result"@)) == Some("success"@) ==> r == Ok::<JsonValue, String>(value),
        as_str(index(value, "result"@)) != Some("success"@) ==> (r matches Err(e) && e@ == transmission_error(value)),
{
    let result_text = match get_member(&value, "result") {
        Some(m) => match get_str(m) {
            Some(s) => Some(s.clone()),
            None => None,
        },
        None => None,
    };
    match result_text {
        Some(t) => {
            if str_eq(t.as_str(), "success") {
                Ok(value)
            } else {
                Err(concat("Transmission RPC 失败：", t.as_str()))
            }
        },
        None => Err(concat("Transmission RPC 失败：", "unknown")),
    }
}

/// A Transmission RPC reply: the answer when its `result` is `"success"`, the failure it
/// reports, or the parser's message when the text is not JSON.
pub fn transmission_reply(text: &str) -> (r: Result<JsonValue, String>)
    ensures
        match parsed_json(text@) {
            Ok(v) => {
                &&& as_str(index(v, "result"@)) == Some("success"@) ==> r == Ok::<JsonValue, String>(v)
                &&& as_str(index(v, "result"@)) != Some("success"@) ==> (r matches Err(e) && e@ == transmission_error(v))
            },
            Err(m) => r matches Err(e) && e@ == m,
        },
{
    match parse_json(text) {
        Ok(v) => parse_transmission_response(v),
        Err(m) => Err(m),
    }
}

impl TransmissionClient {
    /// The request body of an RPC call.
    pub fn rpc_body(method: &str, arguments: JsonValue) -> (body: JsonValue)
        ensures
            has_keys(body, seq!["method"@, "arguments"@]),
            is_str(member_at(body, 0), method@),
            member_at(body, 1) == arguments,
    {
        let mut es: Vec<(String, JsonValue)> = Vec::new();
        es.push(pair("method", str_value(method)));
        es.push(pair("arguments", arguments));
        JsonValue::Object(es)
    }

    /// The arguments that ask for the alternative speed switch.
    pub fn alt_speed_query() -> (arguments: JsonValue)
        ensures
            has_keys(arguments, seq!["fields"@]),
            member_at(arguments, 0) matches JsonValue::Array(fields) && fields@.len() == 1 && is_str(
                fields@[0],
                "alt-speed-enabled"@,
            ),
    {
        let mut fields: Vec<JsonValue> = Vec::new();
        fields.push(str_value("alt-speed-enabled"));
        let mut es: Vec<(String, JsonValue)> = Vec::new();
        es.push(pair("fields", JsonValue::Array(fields)));
        JsonValue::Object(es)
    }

    /// The arguments that set the alternative speed switch.
    pub fn alt_speed_setting(enabled: bool) -> (arguments: JsonValue)
        ensures
            has_keys(arguments, seq!["alt-speed-enabled"@]),
            member_at(arguments, 0) == JsonValue::Bool(enabled),
    {
        let mut es: Vec<(String, JsonValue)> = Vec::new();
        es.push(pair("alt-speed-enabled", JsonValue::Bool(enabled)));
        JsonValue::Object(es)
    }

    /// The alternative speed switch in an accepted `session-get` answer.
    pub fn alt_speed_enabled(value: &JsonValue) -> (r: Result<bool, String>)
        ensures
            match as_bool(index(index(*value, "arguments"@), "alt-speed-enabled"@)) {
                Some(b) => r == Ok::<bool, String>(b),
                None => r matches Err(e) && e@ == "Transmission 返回中没有 alt-speed-enabled 字段。"@,
            },
    {
        let found = match get_member(value, "arguments") {
            Some(a) => match get_member(a, "alt-speed-enabled") {
                Some(x) => get_bool(x),
                None => None,
            },
            None => None,
        };
        match found {
            Some(b) => Ok(b),
            None => Err(owned("Transmission 返回中没有 alt-speed-enabled 字段。")),
        }
    }

    /// The `Authorization` header, when credentials are set.
    pub fn authorization(&self) -> (r: Option<String>)
        ensures
            match r {
                Some(h) => basic_authorization(self.username@, self.password@) == Some(h@),
                None => basic_authorization(self.username@, self.password@) is None,
            },
    {
        authorization(self.username.as_str(), self.password.as_str())
    }

    /// After a `409 Conflict` on a first attempt: remember the session id the answer
    /// carries and retry, or fail when it carries none.
    pub fn session_conflict(&mut self, session_id: Option<String>) -> (r: Result<(), String>)
        ensures
            match session_id {
                Some(id) => r is Ok && final(self).session_id == Some(id),
                None => r matches Err(e) && e@ == "Transmission 要求 Session ID，但响应中没有返回。"@
                    && final(self).session_id == old(self).session_id,
            },
            final(self).url == old(self).url,
            final(self).username == old(self).username,
            final(self).password == old(self).password,
    {
        match session_id {
            Some(id) => {
                self.session_id = Some(id);
                Ok(())
            },
            None => Err(owned("Transmission 要求 Session ID，但响应中没有返回。")),
        }
    }
}

// ---------------------------------------------------------------------------
// aria2
// ---------------------------------------------------------------------------

impl Aria2Client {
    /// The parameters of a call: the `token:` secret first, when one is set.
    pub fn rpc_params(&self, params: Vec<JsonValue>) -> (r: Vec<JsonValue>)
        ensures
            self.secret@.len() == 0 ==> r@ == params@,
            self.secret@.len() > 0 ==> r@.len() == params@.len() + 1 && is_str(r@[0], "token:"@ + self.secret@)
                && r@.skip(1) == params@,
    {
        if self.secret.as_str().is_empty() {
            params
        } else {
            let mut r: Vec<JsonValue> = Vec::new();
            r.push(JsonValue::Str(concat("token:", self.secret.as_str())));
            let mut p = params;
            let ghost rest = p@;
            r.append(&mut p);
            assert(r@.skip(1) =~= rest);
            r
        }
    }

    /// The request body of a call.
    pub fn rpc_body(method: &str, params: Vec<JsonValue>) -> (body: JsonValue)
        ensures
            has_keys(body, seq!["jsonrpc"@, "id"@, "method"@, "params"@]),
            is_str(member_at(body, 0), "2.0"@),
            is_str(member_at(body, 1), "download-client-game-limiter"@),
            is_str(member_at(body, 2), method@),
            member_at(body, 3) == JsonValue::Array(params),
    {
        let mut es: Vec<(String, JsonValue)> = Vec::new();
        es.push(pair("jsonrpc", str_value("2.0")));
        es.push(pair("id", str_value("download-client-game-limiter")));
        es.push(pair("method", str_value(method)));
        es.push(pair("params", JsonValue::Array(params)));
        JsonValue::Object(es)
    }

    /// The global options that set both limits.
    pub fn limit_options(download: &str, upload: &str) -> (options: JsonValue)
        ensures
            has_keys(options, seq!["max-overall-download-limit"@, "max-overall-upload-limit"@]),
            is_str(member_at(options, 0), download@),
            is_str(member_at(options, 1), upload@),
    {
        let mut es: Vec<(String, JsonValue)> = Vec::new();
        es.push(pair("max-overall-download-limit", str_value(download)));
        es.push(pair("max-overall-upload-limit", str_value(upload)));
        JsonValue::Object(es)
    }

    /// The current limits in a `getGlobalOption` result; `"0"` where one is missing.
    pub fn current_limits(result: &JsonValue) -> (r: (String, String))
        ensures
            r.0@ == match as_str(index(*result, "max-overall-download-limit"@)) {
                Some(s) => s,
                None => "0"@,
            },
            r.1@ == match as_str(index(*result, "max-overall-upload-limit"@)) {
                Some(s) => s,
                None => "0"@,
            },
    {
        (option_text(result, "max-overall-download-limit"), option_text(result, "max-overall-upload-limit"))
    }
}

fn option_text(v: &JsonValue, key: &str) -> (r: String)
    ensures
        r@ == match as_str(index(*v, key@)) {
            Some(s) => s,
            None => "0"@,
        },
{
    match get_member(v, key) {
        Some(m) => match get_str(m) {
            Some(s) => s.clone(),
            None => owned("0"),
        },
        None => owned("0"),
    }
}

// ---------------------------------------------------------------------------
// µTorrent
// ---------------------------------------------------------------------------

/// A settings row `[name, type, value]`: its value as an integer, when the row names
/// `name` and its value reads as one.
pub open spec fn setting_row_value(row: JsonValue, name: Seq<char>) -> Option<i64> {
    match row {
        JsonValue::Array(items) => if items@.len() > 0 && as_str(items@[0]) == Some(name) && items@.len() > 2 {
            json_i64_spec(items@[2])
        } else {
            None
        },
        _ => None,
    }
}

/// The first row that yields a value for `name`.
pub open spec fn setting_value(rows: Seq<JsonValue>, name: Seq<char>) -> Option<i64>
    decreases rows.len(),
{
    if rows.len() == 0 {
        None
    } else {
        match setting_row_value(rows[0], name) {
            Some(v) => Some(v),
            None => setting_value(rows.drop_first(), name),
        }
    }
}

fn setting_row_value_exec(row: &JsonValue, name: &str) -> (r: Option<i64>)
    ensures
        r == setting_row_value(*row, name@),
{
    match row {
        JsonValue::Array(items) => {
            if items.len() > 2 {
                match get_str(&items[0]) {
                    Some(s) => {
                        if str_eq(s.as_str(), name) {
                            json_i64(&items[2])
                        } else {
                            None
                        }
                    },
                    None => None,
                }
            } else {
                None
            }
        },
        _ => None,
    }
}

/// The value of setting `name` in µTorrent's settings list.
pub fn utorrent_setting_i64(settings: &Vec<JsonValue>, name: &str) -> (r: Option<i64>)
    ensures
        r == setting_value(settings@, name@),
{
    let mut i: usize = 0;
    assert(settings@.skip(0) =~= settings@);
    while i < settings.len()
        invariant
            i <= settings.len(),
            setting_value(settings@, name@) == setting_value(settings@.skip(i as int), name@),
        decreases settings.len() - i,
    {
        assert(settings@.skip(i as int).drop_first() =~= settings@.skip(i + 1));
        assert(settings@.skip(i as int)[0] == settings@[i as int]);
        if let Some(v) = setting_row_value_exec(&settings[i], name) {
            return Some(v);
        }
        i += 1;
    }
    assert(settings@.skip(i as int) =~= Seq::<JsonValue>::empty());
    None
}

impl UTorrentClient {
    /// The address of `token.html`.
    pub fn token_url(&self) -> (r: String)
        ensures
            r@ == self.base_url@ + "/token.html"@,
    {
        concat(self.base_url.as_str(), "/token.html")
    }

    /// Takes the session token from the text of `token.html`; without one the request
    /// cannot go on and the client keeps no token.
    pub fn accept_token_page(&mut self, page: &str) -> (r: Result<(), String>)
        ensures
            final(self).base_url == old(self).base_url,
            final(self).username == old(self).username,
            final(self).password == old(self).password,
            final(self).cookie == old(self).cookie,
            match utorrent_token(page@) {
                Some(t) => r is Ok && (final(self).token matches Some(k) && k@ == t),
                None => r is Err && r->Err_0@
                    == "没有在 token.html 中找到 µTorrent/BitTorrent Token，请检查 Web UI 地址和账号密码。"@
                    && final(self).token == old(self).token,
            },
    {
        match extract_utorrent_token(page) {
            Some(t) => {
                self.token = Some(t);
                Ok(())
            },
            None => Err(owned("没有在 token.html 中找到 µTorrent/BitTorrent Token，请检查 Web UI 地址和账号密码。")),
        }
    }

    /// The address of an API call with the session token.
    pub fn api_url(&self, token: &str, query: &str) -> (r: String)
        ensures
            r@ == self.base_url@ + "/?token="@ + percent_encode(vstd::utf8::encode_utf8(token@)) + "&"@ + query@,
    {
        let enc = url_encode(token);
        let mut v = chars_of(self.base_url.as_str());
        extend_str(&mut v, "/?token=");
        extend_str(&mut v, enc.as_str());
        extend_str(&mut v, "&");
        extend_str(&mut v, query);
        string_of(&v)
    }

    /// The query that changes one setting.
    pub fn setting_query(name: &str, value: &str) -> (r: String)
        ensures
            r@ == "action=setsetting&s="@ + percent_encode(vstd::utf8::encode_utf8(name@)) + "&v="@
                + percent_encode(vstd::utf8::encode_utf8(value@)),
    {
        let n = url_encode(name);
        let val = url_encode(value);
        let mut v = chars_of("action=setsetting&s=");
        extend_str(&mut v, n.as_str());
        extend_str(&mut v, "&v=");
        extend_str(&mut v, val.as_str());
        string_of(&v)
    }

    /// The `Authorization` header, when credentials are set.
    pub fn authorization(&self) -> (r: Option<String>)
        ensures
            match r {
                Some(h) => basic_authorization(self.username@, self.password@) == Some(h@),
                None => basic_authorization(self.username@, self.password@) is None,
            },
    {
        authorization(self.username.as_str(), self.password.as_str())
    }

    /// The global limits in a `getsettings` answer; 0 where one is missing.
    pub fn current_limits(value: &JsonValue) -> (r: Result<(i64, i64), String>)
        ensures
            match index(*value, "settings"@) {
                JsonValue::Array(rows) => r == Ok::<(i64, i64), String>((
                    match setting_value(rows@, "max_dl_rate"@) { Some(v) => v, None => 0 },
                    match setting_value(rows@, "max_ul_rate"@) { Some(v) => v, None => 0 },
                )),
                _ => r matches Err(e) && e@ == "µTorrent/BitTorrent 返回中没有 settings 字段。"@,
            },
    {
        match get_member(value, "settings") {
            Some(JsonValue::Array(rows)) => {
                let down = match utorrent_setting_i64(rows, "max_dl_rate") {
                    Some(v) => v,
                    None => 0,
                };
                let up = match utorrent_setting_i64(rows, "max_ul_rate") {
                    Some(v) => v,
                    None => 0,
                };
                Ok((down, up))
            },
            _ => Err(owned("µTorrent/BitTorrent 返回中没有 settings 字段。")),
        }
    }

    /// Remembers the cookie of a `Set-Cookie` header.
    pub fn capture_cookie(&mut self, set_cookie: Option<&str>)
        ensures
            match set_cookie {
                Some(h) => final(self).cookie matches Some(c) && c@ == split(h@, ';')[0],
                None => final(self).cookie == old(self).cookie,
            },
            final(self).base_url == old(self).base_url,
            final(self).token == old(self).token,
    {
        if let Some(h) = set_cookie {
            self.cookie = Some(cookie_from_header(h));
        }
    }
}

// ---------------------------------------------------------------------------
// Deluge
// ---------------------------------------------------------------------------

impl DelugeClient {
    /// The request body of a call.
    pub fn rpc_body(method: &str, params: JsonValue) -> (body: JsonValue)
        ensures
            has_keys(body, seq!["method"@, "params"@, "id"@]),
            is_str(member_at(body, 0), method@),
            member_at(body, 1) == params,
            member_at(body, 2) == JsonValue::Number(JsonNumber::PosInt(1)),
    {
        let mut es: Vec<(String, JsonValue)> = Vec::new();
        es.push(pair("method", str_value(method)));
        es.push(pair("params", params));
        es.push(pair("id", JsonValue::Number(JsonNumber::PosInt(1))));
        JsonValue::Object(es)
    }

    /// The parameters of the login call: the password.
    pub fn login_params(&self) -> (params: JsonValue)
        ensures
            params matches JsonValue::Array(items) && items@.len() == 1 && is_str(items@[0], self.password@),
    {
        let mut items: Vec<JsonValue> = Vec::new();
        items.push(JsonValue::Str(self.password.clone()));
        JsonValue::Array(items)
    }

    /// The outcome of the login call's result: logged in when it is `true`.
    pub fn login_result(&mut self, result: &JsonValue) -> (r: Result<(), String>)
        ensures
            as_bool(*result) == Some(true) ==> r is Ok && final(self).logged_in,
            as_bool(*result) != Some(true) ==> (r matches Err(e) && e@ == "Deluge Web 登录失败，请检查 Web UI 密码。"@
                && final(self).logged_in == old(self).logged_in),
            final(self).url == old(self).url,
            final(self).password == old(self).password,
            final(self).cookie == old(self).cookie,
    {
        if get_bool(result) == Some(true) {
            self.logged_in = true;
            Ok(())
        } else {
            Err(owned("Deluge Web 登录失败，请检查 Web UI 密码。"))
        }
    }

    /// Remembers the cookie of a `Set-Cookie` header.
    pub fn capture_cookie(&mut self, set_cookie: Option<&str>)
        ensures
            match set_cookie {
                Some(h) => final(self).cookie matches Some(c) && c@ == split(h@, ';')[0],
                None => final(self).cookie == old(self).cookie,
            },
            final(self).url == old(self).url,
            final(self).logged_in == old(self).logged_in,
    {
        if let Some(h) = set_cookie {
            self.cookie = Some(cookie_from_header(h));
        }
    }
}

// ---------------------------------------------------------------------------
// BitComet
// ---------------------------------------------------------------------------

/// The error a BitComet answer reports: none when it has no `error_code` string or the
/// code is `OK` in any case; else its `error_message`, or the code itself.
pub open spec fn bitcomet_error(value: JsonValue) -> Option<Seq<char>> {
    match as_str(index(value, "error_code"@)) {
        None => None,
        Some(code) => if eq_ignore_ascii_case(code, "OK"@) {
            None
        } else {
            Some(
                "BitComet WebUI 返回错误："@ + match as_str(index(value, "error_message"@)) {
                    Some(m) => m,
                    None => code,
                },
            )
        },
    }
}

pub fn bitcomet_error_message(value: &JsonValue) -> (r: Option<String>)
    ensures
        match r {
            Some(e) => bitcomet_error(*value) == Some(e@),
            None => bitcomet_error(*value) is None,
        },
{
    let code = match get_member(value, "error_code") {
        Some(m) => match get_str(m) {
            Some(s) => s,
            None => return None,
        },
        None => return None,
    };
    let cv = chars_of(code.as_str());
    let ok = chars_of("OK");
    if eq_ignore_ascii_case_exec(&cv, &ok) {
        return None;
    }
    let detail = match get_member(value, "error_message") {
        Some(m) => match get_str(m) {
            Some(s) => s.clone(),
            None => code.clone(),
        },
        None => code.clone(),
    };
    Some(concat("BitComet WebUI 返回错误：", detail.as_str()))
}

pub fn ensure_bitcomet_ok(value: &JsonValue) -> (r: Result<(), String>)
    ensures
        match bitcomet_error(*value) {
            Some(e) => r matches Err(x) && x@ == e,
            None => r is Ok,
        },
{
    match bitcomet_error_message(value) {
        Some(error) => Err(error),
        None => Ok(()),
    }
}

pub open spec fn no_connection_config() -> Seq<char> {
    "BitComet 返回中没有 connection_config 字段，请确认使用 2.16 或更新版本并启用 WebUI。"@
}

/// The value of the first member named `k` is that of position `i` when no member
/// before `i` has that name.
pub proof fn lemma_entry_first(s: Seq<(String, JsonValue)>, k: Seq<char>, i: int)
    requires
        0 <= i < s.len(),
        s[i].0@ == k,
        forall|j: int| 0 <= j < i ==> s[j].0@ != k,
    ensures
        crate::json::entry(s, k) == Some(s[i].1),
    decreases i,
{
    if i > 0 {
        assert(s[0].0@ != k);
        lemma_entry_first(s.drop_first(), k, i - 1);
    }
}

/// No member named `k`: no value.
pub proof fn lemma_entry_absent(s: Seq<(String, JsonValue)>, k: Seq<char>)
    requires
        forall|j: int| 0 <= j < s.len() ==> s[j].0@ != k,
    ensures
        crate::json::entry(s, k) is None,
    decreases s.len(),
{
    if s.len() > 0 {
        lemma_entry_absent(s.drop_first(), k);
    }
}

/// Changing the value of a member named other than `k` leaves the value of `k` alone.
pub proof fn lemma_entry_update_other(s: Seq<(String, JsonValue)>, i: int, v: JsonValue, k: Seq<char>)
    requires
        0 <= i < s.len(),
        s[i].0@ != k,
    ensures
        crate::json::entry(s.update(i, (s[i].0, v)), k) == crate::json::entry(s, k),
    decreases s.len(),
{
    let t = s.update(i, (s[i].0, v));
    if i > 0 {
        if s[0].0@ != k {
            assert(t.drop_first() =~= s.drop_first().update(i - 1, (s[i].0, v)));
            lemma_entry_update_other(s.drop_first(), i - 1, v, k);
        }
    } else {
        assert(t.drop_first() =~= s.drop_first());
    }
}

/// Adding a member named other than `k` at the end leaves the value of `k` alone; adding
/// one named `k` when there was none gives it that value.
pub proof fn lemma_entry_push(s: Seq<(String, JsonValue)>, p: (String, JsonValue), k: Seq<char>)
    ensures
        p.0@ != k ==> crate::json::entry(s.push(p), k) == crate::json::entry(s, k),
        p.0@ == k && crate::json::entry(s, k) is None ==> crate::json::entry(s.push(p), k) == Some(p.1),
    decreases s.len(),
{
    if s.len() > 0 {
        assert(s.push(p).drop_first() =~= s.drop_first().push(p));
        assert(s.push(p)[0] == s[0]);
        lemma_entry_push(s.drop_first(), p, k);
    } else {
        assert(s.push(p)[0] == p);
        assert(s.push(p).drop_first() =~= Seq::<(String, JsonValue)>::empty());
        assert(crate::json::entry(s.push(p).drop_first(), k) is None);
        assert(crate::json::entry(s, k) is None);
    }
}

/// Inserts or replaces member `key` of an object.
fn set_member(entries: &mut Vec<(String, JsonValue)>, key: &str, value: JsonValue)
    ensures
        crate::json::entry(final(entries)@, key@) == Some(value),
        forall|k: Seq<char>| k != key@ ==> crate::json::entry(final(entries)@, k) == crate::json::entry(old(entries)@, k),
{
    let mut i: usize = 0;
    while i < entries.len()
        invariant
            i <= entries.len(),
            entries@ == old(entries)@,
            forall|j: int| 0 <= j < i ==> entries@[j].0@ != key@,
        decreases entries.len() - i,
    {
        if str_eq(entries[i].0.as_str(), key) {
            let name = entries[i].0.clone();
            let ghost before = entries@;
            entries.set(i, (name, value));
            proof {
                assert(entries@ == before.update(i as int, (before[i as int].0, value)));
                lemma_entry_first(entries@, key@, i as int);
                assert forall|k: Seq<char>| k != key@ implies crate::json::entry(entries@, k) == crate::json::entry(before, k) by {
                    lemma_entry_update_other(before, i as int, value, k);
                }
            }
            return;
        }
        i += 1;
    }
    let ghost before = entries@;
    proof {
        lemma_entry_absent(before, key@);
    }
    let p = (owned(key), value);
    entries.push(p);
    proof {
        lemma_entry_push(before, p, key@);
        assert forall|k: Seq<char>| k != key@ implies crate::json::entry(entries@, k) == crate::json::entry(before, k) by {
            lemma_entry_push(before, p, k);
        }
    }
}

impl BitCometClient {
    /// The address of an API path.
    pub fn url(&self, path: &str) -> (r: String)
        ensures
            r@ == self.base_url@ + path@,
    {
        concat(self.base_url.as_str(), path)
    }

    /// The `connection_config` of an answer, or the error it reports.
    pub fn connection_config(value: JsonValue) -> (r: Result<JsonValue, String>)
        ensures
            bitcomet_error(value) matches Some(e) ==> (r matches Err(x) && x@ == e),
            bitcomet_error(value) is None && index(value, "connection_config"@) is Null ==> (r matches Err(x) && x@
                == no_connection_config()),
            bitcomet_error(value) is None && !(index(value, "connection_config"@) is Null) ==> r == Ok::<
                JsonValue,
                String,
            >(index(value, "connection_config"@)),
    {
        if let Some(error) = bitcomet_error_message(&value) {
            return Err(error);
        }
        let config = take_member(value, "connection_config");
        if is_null(&config) {
            Err(owned("BitComet 返回中没有 connection_config 字段，请确认使用 2.16 或更新版本并启用 WebUI。"))
        } else {
            Ok(config)
        }
    }

    /// The limits in a connection configuration, in bytes/s; 0 where one is missing.
    pub fn current_limits(config: &JsonValue) -> (r: (u64, u64))
        ensures
            r.0 == match json_u64_spec(index(*config, "max_download_speed"@)) { Some(v) => v, None => 0 },
            r.1 == match json_u64_spec(index(*config, "max_upload_speed"@)) { Some(v) => v, None => 0 },
    {
        (limit_of(config, "max_download_speed"), limit_of(config, "max_upload_speed"))
    }

    /// The body that sets the limits: the configuration read, with both limits replaced
    /// (or a configuration of just the limits when what was read is not an object),
    /// under `connection_config`.
    pub fn set_limits_request(config: JsonValue, download: u64, upload: u64) -> (body: JsonValue)
        ensures
            has_keys(body, seq!["connection_config"@]),
            config matches JsonValue::Object(_) ==> member_at(body, 0) matches JsonValue::Object(es) && {
                let d = JsonValue::Number(JsonNumber::PosInt(download));
                let u = JsonValue::Number(JsonNumber::PosInt(upload));
                crate::json::entry(es@, "max_download_speed"@) == Some(d)
                && crate::json::entry(es@, "max_upload_speed"@) == Some(u)
            },
            config matches JsonValue::Object(orig) ==> member_at(body, 0) matches JsonValue::Object(es)
                && forall|k: Seq<char>| k != "max_download_speed"@ && k != "max_upload_speed"@
                    ==> #[trigger] crate::json::entry(es@, k) == crate::json::entry(orig@, k),
            !(config matches JsonValue::Object(_)) ==> has_keys(member_at(body, 0), seq!["max_download_speed"@, "max_upload_speed"@])
                && member_at(member_at(body, 0), 0) == JsonValue::Number(JsonNumber::PosInt(download))
                && member_at(member_at(body, 0), 1) == JsonValue::Number(JsonNumber::PosInt(upload)),
    {
        let updated = match config {
            JsonValue::Object(mut es) => {
                set_member(&mut es, "max_download_speed", JsonValue::Number(JsonNumber::PosInt(download)));
                set_member(&mut es, "max_upload_speed", JsonValue::Number(JsonNumber::PosInt(upload)));
                proof {
                    reveal_strlit("max_download_speed");
                    reveal_strlit("max_upload_speed");
                    assert("max_download_speed"@ != "max_upload_speed"@) by {
                        assert("max_download_speed"@[4] != "max_upload_speed"@[4]);
                    }
                }
                JsonValue::Object(es)
            },
            _ => {
                let mut es: Vec<(String, JsonValue)> = Vec::new();
                es.push(pair("max_download_speed", JsonValue::Number(JsonNumber::PosInt(download))));
                es.push(pair("max_upload_speed", JsonValue::Number(JsonNumber::PosInt(upload))));
                JsonValue::Object(es)
            },
        };
        let mut outer: Vec<(String, JsonValue)> = Vec::new();
        outer.push(pair("connection_config", updated));
        JsonValue::Object(outer)
    }
}

fn limit_of(v: &JsonValue, key: &str) -> (r: u64)
    ensures
        r == match json_u64_spec(index(*v, key@)) { Some(x) => x, None => 0 },
{
    match get_member(v, key) {
        Some(m) => match json_u64(m) {
            Some(x) => x,
            None => 0,
        },
        None => match json_u64(&JsonValue::Null) {
            Some(x) => x,
            None => 0,
        },
    }
}

/// The Basic `Authorization` header is sent as soon as a user name or a password is
/// set, an empty password with a user name included, and it carries both, joined by a
/// colon, in standard Base64 of their UTF-8 bytes; with neither set nothing is sent.
pub proof fn law_authorization_sent_with_any_credential(username: Seq<char>, password: Seq<char>)
    ensures
        (username.len() > 0 || password.len() > 0) ==> basic_authorization(username, password) == Some(
            "Basic "@ + base64_encode(vstd::utf8::encode_utf8(username + seq![':'] + password)),
        ),
        (basic_authorization(username, password) is None) <==> (username.len() == 0 && password.len() == 0),
{
}

} // verus!
