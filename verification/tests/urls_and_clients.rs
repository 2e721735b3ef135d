use qbee_limiter::clients::{aria2_reply, bitcomet_reply, deluge_reply, transmission_reply, utorrent_reply, authorization, cookie_from_header, parse_transmission_response, rpc_result, utorrent_setting_i64, bitcomet_error_message, ensure_bitcomet_ok};
use qbee_limiter::config::AppConfig;
use qbee_limiter::controller::{Aria2Client, BitCometClient, DelugeClient, QbeeClient, TransmissionClient, UTorrentClient};
use qbee_limiter::clients::{QbLoginStage, QbLoginStep, QbRequest};
use qbee_limiter::json::{get_member, json_i64, json_u64, JsonNumber, JsonValue};
use qbee_limiter::urls::{extract_utorrent_token, format_byte_limit, format_int_limit, normalize_bitcomet_url, normalize_deluge_url, normalize_utorrent_url, qbee_base_url};

fn s(x: &str) -> JsonValue {
    JsonValue::Str(x.into())
}

fn obj(entries: Vec<(&str, JsonValue)>) -> JsonValue {
    JsonValue::Object(entries.into_iter().map(|(k, v)| (k.to_string(), v)).collect())
}

#[test]
fn normalizing_client_addresses() {
    assert_eq!(normalize_utorrent_url("http://127.0.0.1:8080"), "http://127.0.0.1:8080/gui");
    assert_eq!(normalize_utorrent_url(" http://h/gui/ "), "http://h/gui");
    assert_eq!(normalize_deluge_url("http://h:8112"), "http://h:8112/json");
    assert_eq!(normalize_deluge_url("http://h:8112/json//"), "http://h:8112/json");
    assert_eq!(normalize_bitcomet_url(" http://h:80/ "), "http://h:80");
    assert_eq!(qbee_base_url("http://h:8080//"), "http://h:8080");
}

#[test]
fn utorrent_token_from_page() {
    assert_eq!(extract_utorrent_token("<div id='token' style='display:none;'>abc123</div>"), Some("abc123".into()));
    assert_eq!(extract_utorrent_token("<div id=\"token\">  t0k </div>"), Some("t0k".into()));
    assert_eq!(extract_utorrent_token("<div id='token'></div>"), None);
    assert_eq!(extract_utorrent_token("no token here"), None);
}

#[test]
fn limit_texts() {
    assert_eq!(format_int_limit(0), "不限速");
    assert_eq!(format_int_limit(-1), "不限速");
    assert_eq!(format_int_limit(300), "300K");
    assert_eq!(format_byte_limit(0), "不限速");
    assert_eq!(format_byte_limit(3 * 1024 * 1024), "3M");
    assert_eq!(format_byte_limit(1536), "1K");
    assert_eq!(format_byte_limit(1000), "0K");
}

#[test]
fn cookies_and_authorization() {
    assert_eq!(cookie_from_header("SID=abc; HttpOnly; path=/"), "SID=abc");
    assert_eq!(cookie_from_header("SID=abc"), "SID=abc");
    assert_eq!(authorization("", ""), None);
    assert_eq!(authorization("admin", "adminadmin"), Some("Basic YWRtaW46YWRtaW5hZG1pbg==".into()));
}

#[test]
fn json_numbers_as_integers() {
    assert_eq!(json_u64(&JsonValue::Number(JsonNumber::PosInt(5))), Some(5));
    assert_eq!(json_u64(&s("42")), Some(42));
    assert_eq!(json_u64(&JsonValue::Number(JsonNumber::NegInt(-1))), None);
    assert_eq!(json_i64(&JsonValue::Number(JsonNumber::NegInt(-1))), Some(-1));
    assert_eq!(json_i64(&s("-20")), Some(-20));
    assert_eq!(json_i64(&JsonValue::Null), None);
}

#[test]
fn rpc_answers() {
    let ok = obj(vec![("id", s("x")), ("result", s("OK")), ("error", JsonValue::Null)]);
    assert!(matches!(rpc_result("aria2", ok), Ok(JsonValue::Str(r)) if r == "OK"));
    let bad = obj(vec![("error", obj(vec![("message", s("Unauthorized"))]))]);
    assert_eq!(rpc_result("aria2", bad).unwrap_err(), "aria2 RPC 失败：Unauthorized");
    let bad = obj(vec![("error", JsonValue::Number(JsonNumber::PosInt(1)))]);
    assert_eq!(rpc_result("Deluge", bad).unwrap_err(), "Deluge RPC 失败：unknown");
    let t = obj(vec![("result", s("success")), ("arguments", obj(vec![("alt-speed-enabled", JsonValue::Bool(true))]))]);
    let t = parse_transmission_response(t).unwrap();
    assert_eq!(TransmissionClient::alt_speed_enabled(&t), Ok(true));
    let t = obj(vec![("result", s("no method"))]);
    assert_eq!(parse_transmission_response(t).unwrap_err(), "Transmission RPC 失败：no method");
    assert_eq!(
        TransmissionClient::alt_speed_enabled(&obj(vec![])).unwrap_err(),
        "Transmission 返回中没有 alt-speed-enabled 字段。"
    );
}

#[test]
fn transmission_session_conflict() {
    let mut t = TransmissionClient::new(&AppConfig::default());
    assert!(t.session_conflict(Some("abc".into())).is_ok());
    assert_eq!(t.session_id, Some("abc".into()));
    assert_eq!(t.session_conflict(None).unwrap_err(), "Transmission 要求 Session ID，但响应中没有返回。");
    assert_eq!(t.session_id, Some("abc".into()));
}

#[test]
fn aria2_parameters_and_limits() {
    let mut c = AppConfig::default();
    c.aria2_secret = "s3".into();
    let a = Aria2Client::new(&c);
    let p = a.rpc_params(vec![s("x")]);
    assert_eq!(p.len(), 2);
    assert!(matches!(&p[0], JsonValue::Str(t) if t == "token:s3"));
    let none = Aria2Client::new(&AppConfig::default()).rpc_params(vec![s("x")]);
    assert_eq!(none.len(), 1);
    let r = obj(vec![("max-overall-download-limit", s("0")), ("max-overall-upload-limit", s("100K"))]);
    assert_eq!(Aria2Client::current_limits(&r), ("0".to_string(), "100K".to_string()));
    assert_eq!(Aria2Client::current_limits(&obj(vec![])), ("0".to_string(), "0".to_string()));
}

#[test]
fn utorrent_settings() {
    let rows = vec![
        JsonValue::Array(vec![s("max_ul_rate"), JsonValue::Number(JsonNumber::PosInt(0)), s("15")]),
        JsonValue::Array(vec![s("max_dl_rate"), JsonValue::Number(JsonNumber::PosInt(0)), JsonValue::Number(JsonNumber::NegInt(-1))]),
    ];
    assert_eq!(utorrent_setting_i64(&rows, "max_dl_rate"), Some(-1));
    assert_eq!(utorrent_setting_i64(&rows, "max_ul_rate"), Some(15));
    assert_eq!(utorrent_setting_i64(&rows, "other"), None);
    let value = obj(vec![("settings", JsonValue::Array(rows))]);
    assert_eq!(UTorrentClient::current_limits(&value), Ok((-1, 15)));
    assert_eq!(
        UTorrentClient::current_limits(&obj(vec![])).unwrap_err(),
        "µTorrent/BitTorrent 返回中没有 settings 字段。"
    );
}

#[test]
fn utorrent_token_page_and_urls() {
    let mut c = AppConfig::default();
    c.utorrent_url = "http://h:8080".into();
    let mut u = UTorrentClient::new(&c);
    assert_eq!(u.token_url(), "http://h:8080/gui/token.html");
    assert!(u.accept_token_page("<html><div id='token'>T1</div></html>").is_ok());
    assert_eq!(u.token, Some("T1".into()));
    let mut u2 = UTorrentClient::new(&c);
    assert_eq!(
        u2.accept_token_page("<html></html>").unwrap_err(),
        "没有在 token.html 中找到 µTorrent/BitTorrent Token，请检查 Web UI 地址和账号密码。"
    );
    assert_eq!(u2.token, None);
    assert_eq!(u.api_url("a b", "action=getsettings"), "http://h:8080/gui/?token=a%20b&action=getsettings");
    assert_eq!(UTorrentClient::setting_query("max_dl_rate", "300"), "action=setsetting&s=max_dl_rate&v=300");
}

#[test]
fn deluge_login() {
    let mut c = AppConfig::default();
    c.password = "deluge".into();
    let mut d = DelugeClient::new(&c);
    assert!(matches!(d.login_params(), JsonValue::Array(items) if matches!(&items[0], JsonValue::Str(p) if p == "deluge")));
    assert_eq!(d.login_result(&JsonValue::Bool(false)).unwrap_err(), "Deluge Web 登录失败，请检查 Web UI 密码。");
    assert!(!d.logged_in);
    assert!(d.login_result(&JsonValue::Bool(true)).is_ok());
    assert!(d.logged_in);
    d.capture_cookie(Some("_session_id=xyz; Path=/json"));
    assert_eq!(d.cookie, Some("_session_id=xyz".into()));
}

#[test]
fn qbittorrent_login_sequence() {
    let mut c = AppConfig::default();
    c.username = "admin".into();
    c.password = "p w".into();
    let mut q = QbeeClient::new(&c);
    let (stage, step) = q.login_step(QbLoginStage::Start, None);
    assert!(matches!(step, QbLoginStep::Send(QbRequest::Root)));
    let (stage, step) = q.login_step(stage, Some(Ok("<html>qBittorrent</html>".into())));
    assert!(matches!(step, QbLoginStep::Send(QbRequest::Version)));
    let (stage, step) = q.login_step(stage, Some(Err("403 Forbidden".into())));
    match step {
        QbLoginStep::Send(QbRequest::Login(body)) => assert_eq!(body, "username=admin&password=p%20w"),
        _ => panic!("expected login"),
    }
    let (_, step) = q.login_step(stage, Some(Ok("Fails.".into())));
    assert!(matches!(step, QbLoginStep::Done(Err(e)) if e == "qB 登录失败，请检查 Web UI 用户名和密码。"));
    let (_, step) = q.login_step(QbLoginStage::SentLogin, Some(Ok("Ok.".into())));
    assert!(matches!(step, QbLoginStep::Done(Ok(()))));
    assert!(q.logged_in);
    let (_, step) = q.login_step(QbLoginStage::Start, None);
    assert!(matches!(step, QbLoginStep::Done(Ok(()))));
}

#[test]
fn qbittorrent_behind_steam_debugger_moves_to_ipv6() {
    let mut q = QbeeClient::new(&AppConfig::default());
    let (stage, _) = q.login_step(QbLoginStage::Start, None);
    let (stage, step) = q.login_step(stage, Some(Ok("CEF remote debugging".into())));
    match step {
        QbLoginStep::Send(QbRequest::VersionAt(url)) => assert_eq!(url, "http://[::1]:8080"),
        _ => panic!("expected the IPv6 address"),
    }
    let mut q2 = QbeeClient::new(&AppConfig::default());
    let (_, step) = q2.login_step(QbLoginStage::SentIpv6Version("http://[::1]:8080".into()), Some(Err("refused".into())));
    assert!(matches!(step, QbLoginStep::Done(Err(e)) if e.starts_with("当前地址打开的是 CEF remote debugging")));
    assert_eq!(q2.base_url, "http://127.0.0.1:8080");
    let (stage, step) = q.login_step(stage, Some(Ok("2.9.3".into())));
    assert!(matches!(step, QbLoginStep::Send(QbRequest::Version)));
    assert!(matches!(stage, QbLoginStage::SentVersion));
    assert_eq!(q.base_url, "http://[::1]:8080");
    let mut c = AppConfig::default();
    c.qbee_url = "http://192.168.1.2:8080".into();
    let mut q3 = QbeeClient::new(&c);
    let (_, step) = q3.login_step(QbLoginStage::SentRoot, Some(Ok("CEF remote debugging".into())));
    assert!(matches!(step, QbLoginStep::Done(Err(e)) if e.starts_with("当前地址打开的是 CEF remote debugging")));
    assert!(QbeeClient::speed_limits_enabled(" 1\n"));
    assert!(!QbeeClient::speed_limits_enabled("0"));
}

#[test]
fn bitcomet_answers() {
    let ok = obj(vec![("error_code", s("ok"))]);
    assert_eq!(bitcomet_error_message(&ok), None);
    assert!(ensure_bitcomet_ok(&obj(vec![])).is_ok());
    let bad = obj(vec![("error_code", s("AUTH")), ("error_message", s("denied"))]);
    assert_eq!(ensure_bitcomet_ok(&bad).unwrap_err(), "BitComet WebUI 返回错误：denied");
    let bad = obj(vec![("error_code", s("AUTH"))]);
    assert_eq!(bitcomet_error_message(&bad), Some("BitComet WebUI 返回错误：AUTH".into()));
    let cfg = obj(vec![("connection_config", obj(vec![("max_download_speed", JsonValue::Number(JsonNumber::PosInt(1024))), ("other", JsonValue::Bool(true))]))]);
    let cfg = BitCometClient::connection_config(cfg).unwrap();
    assert_eq!(BitCometClient::current_limits(&cfg), (1024, 0));
    let body = BitCometClient::set_limits_request(cfg, 10, 20);
    let inner = get_member(&body, "connection_config").unwrap();
    assert!(matches!(get_member(inner, "max_download_speed"), Some(JsonValue::Number(JsonNumber::PosInt(10)))));
    assert!(matches!(get_member(inner, "max_upload_speed"), Some(JsonValue::Number(JsonNumber::PosInt(20)))));
    assert!(matches!(get_member(inner, "other"), Some(JsonValue::Bool(true))));
    assert!(BitCometClient::connection_config(obj(vec![])).unwrap_err().starts_with("BitComet 返回中没有 connection_config 字段"));
}

#[test]
fn replies_that_are_not_json() {
    let parser = "expected value at line 1 column 1";
    assert_eq!(transmission_reply("<html>").unwrap_err(), parser);
    assert_eq!(aria2_reply("<html>").unwrap_err(), parser);
    assert_eq!(deluge_reply("<html>").unwrap_err(), format!("Deluge 返回不是有效 JSON：{parser}"));
    assert_eq!(utorrent_reply("<html>").unwrap_err(), format!("µTorrent/BitTorrent 返回不是有效 JSON：{parser}"));
    assert_eq!(bitcomet_reply("<html>").unwrap_err(), format!("BitComet 返回不是有效 JSON：{parser}"));
}

#[test]
fn replies_are_read_from_their_text() {
    let v = transmission_reply(r#"{"result":"success","arguments":{"alt-speed-enabled":true}}"#).unwrap();
    assert!(get_member(&v, "arguments").is_some());
    assert_eq!(
        transmission_reply(r#"{"result":"no such method"}"#).unwrap_err(),
        "Transmission RPC 失败：no such method"
    );

    let v = aria2_reply(r#"{"jsonrpc":"2.0","id":"x","result":{"max-overall-download-limit":"0"}}"#).unwrap();
    assert!(get_member(&v, "max-overall-download-limit").is_some());
    assert_eq!(aria2_reply(r#"{"error":{"code":1,"message":"Unauthorized"}}"#).unwrap_err(), "aria2 RPC 失败：Unauthorized");
    assert_eq!(deluge_reply(r#"{"result":null,"error":{"code":2}}"#).unwrap_err(), "Deluge RPC 失败：unknown");
    assert!(matches!(deluge_reply(r#"{"result":true,"error":null,"id":1}"#).unwrap(), JsonValue::Bool(true)));

    let v = utorrent_reply(r#"{"build":1,"settings":[["max_dl_rate",0,"-5"]],"neg":-7,"ratio":1.5}"#).unwrap();
    assert_eq!(json_u64(get_member(&v, "build").unwrap()), Some(1));
    assert_eq!(json_i64(get_member(&v, "neg").unwrap()), Some(-7));
    assert!(matches!(get_member(&v, "ratio").unwrap(), JsonValue::Number(JsonNumber::Float(b)) if *b == 1.5f64.to_bits()));
    match get_member(&v, "settings").unwrap() {
        JsonValue::Array(rows) => assert_eq!(rows.len(), 1),
        _ => panic!("settings is not an array"),
    }

    let v = bitcomet_reply(r#"{"error_code":"ok","invite_token":"t"}"#).unwrap();
    assert!(matches!(get_member(&v, "invite_token").unwrap(), JsonValue::Str(t) if t == "t"));
}
