use qbee_limiter::server::{
    api_body, error_response, html_response, invalid_config_message, json_response, needs_more_body, not_found_response,
    parse_request_head, request_body, response, route, save_message, scan_head, shortcut_message, HeadScan, Route,
};

#[test]
fn responses_count_body_bytes() {
    assert_eq!(
        response("200 OK", "text/plain", "hi"),
        "HTTP/1.1 200 OK\r\nContent-Type: text/plain\r\nContent-Length: 2\r\nCache-Control: no-store\r\nConnection: close\r\n\r\nhi"
    );
    assert_eq!(
        html_response("游戏"),
        "HTTP/1.1 200 OK\r\nContent-Type: text/html; charset=utf-8\r\nContent-Length: 6\r\nCache-Control: no-store\r\nConnection: close\r\n\r\n游戏"
    );
    assert_eq!(
        not_found_response(),
        "HTTP/1.1 404 Not Found\r\nContent-Type: text/plain; charset=utf-8\r\nContent-Length: 9\r\nCache-Control: no-store\r\nConnection: close\r\n\r\nNot found"
    );
    assert!(json_response("{}").starts_with("HTTP/1.1 200 OK\r\nContent-Type: application/json; charset=utf-8\r\nContent-Length: 2\r\n"));
}

#[test]
fn api_bodies() {
    assert_eq!(api_body(true, "\"ok\"", "{\"a\":1}"), "{\"ok\":true,\"message\":\"ok\",\"data\":{\"a\":1}}");
    let e = error_response("\"bad\"");
    assert!(e.ends_with("\r\n\r\n{\"ok\":false,\"message\":\"bad\",\"data\":{}}"));
    assert!(e.contains("Content-Length: 38\r\n"));
    assert_eq!(invalid_config_message("EOF"), "配置格式无效：EOF");
    assert_eq!(save_message(true), "配置已保存，后台监控已启动。");
    assert_eq!(save_message(false), "配置已保存。");
    assert_eq!(shortcut_message("C:\\x.url"), "桌面入口已创建：C:\\x.url");
}

#[test]
fn routes() {
    assert_eq!(route("GET", "/"), Route::Page);
    assert_eq!(route("GET", "/api/config"), Route::Config);
    assert_eq!(route("GET", "/api/status"), Route::Status);
    assert_eq!(route("POST", "/api/save"), Route::Save);
    assert_eq!(route("POST", "/api/start"), Route::Start);
    assert_eq!(route("POST", "/api/stop"), Route::Stop);
    assert_eq!(route("POST", "/api/test"), Route::Test);
    assert_eq!(route("POST", "/api/diagnostics"), Route::Diagnostics);
    assert_eq!(route("POST", "/api/scan"), Route::Scan);
    assert_eq!(route("POST", "/api/desktop-shortcut"), Route::DesktopShortcut);
    assert_eq!(route("POST", "/api/quit"), Route::Quit);
    assert_eq!(route("GET", "/api/save"), Route::NotFound);
    assert_eq!(route("POST", "/"), Route::NotFound);
    assert_eq!(route("get", "/"), Route::NotFound);
}

#[test]
fn request_heads() {
    let raw = b"POST /api/save?x=1 HTTP/1.1\r\nHost: 127.0.0.1\r\ncontent-LENGTH:  5 \r\n\r\nhello";
    let head = parse_request_head(raw).unwrap();
    assert_eq!(head.method, "POST");
    assert_eq!(head.path, "/api/save");
    assert_eq!(head.body_start, raw.len() - 5);
    assert_eq!(head.content_length, 5);
    assert!(!needs_more_body(raw.len(), &head));
    assert!(needs_more_body(raw.len() - 1, &head));
    assert_eq!(request_body(raw, head.body_start), b"hello".to_vec());

    let head = parse_request_head(b"GET\r\n\r\n").unwrap();
    assert_eq!(head.method, "GET");
    assert_eq!(head.path, "/");
    assert_eq!(head.content_length, 0);

    let head = parse_request_head(b"  GET   /api/status   HTTP/1.1\r\nContent-Length: x\r\nContent-Length: 7\r\n\r\n").unwrap();
    assert_eq!(head.method, "GET");
    assert_eq!(head.path, "/api/status");
    assert_eq!(head.content_length, 7);

    assert_eq!(parse_request_head(b"GET / HTTP/1.1\r\n").unwrap_err(), "bad request");
}

#[test]
fn request_heads_with_invalid_utf8() {
    let head = parse_request_head(b"GET /a\xff\xfeb?q HTTP/1.1\r\nX: \xc3\r\nContent-Length: 3\r\n\r\nabc").unwrap();
    assert_eq!(head.method, "GET");
    assert_eq!(head.path, "/a\u{FFFD}\u{FFFD}b");
    assert_eq!(head.content_length, 3);
    assert_eq!(head.body_start, 49);

    let head = parse_request_head(b"\r\n\r\n").unwrap();
    assert_eq!(head.method, "");
    assert_eq!(head.path, "/");
    assert_eq!(head.content_length, 0);
}

#[test]
fn reading_the_head() {
    assert_eq!(scan_head(b"GET / HTTP/1.1\r\n\r\nrest"), HeadScan::Complete(18));
    assert_eq!(scan_head(b"GET / HTTP/1.1\r\n"), HeadScan::Incomplete);
    let big = vec![b'a'; 1024 * 1024 + 1];
    assert_eq!(scan_head(&big), HeadScan::TooLarge);
    let limit = vec![b'a'; 1024 * 1024];
    assert_eq!(scan_head(&limit), HeadScan::Incomplete);
}
