use rust_service::config::parse_port;
use rust_service::{
    dispatch, health_check, welcome, Body, Config, ConfigError, HttpResponse, Method,
};

const WELCOME: &str = "Welcome from the Rust Axum service!";

fn message_of(r: &HttpResponse) -> Option<&str> {
    match &r.body {
        Body::Message(m) => Some(m.message.as_str()),
        _ => None,
    }
}

fn status_of(r: &HttpResponse) -> Option<&str> {
    match &r.body {
        Body::Status(s) => Some(s.status.as_str()),
        _ => None,
    }
}

fn is_empty(r: &HttpResponse) -> bool {
    matches!(r.body, Body::Empty)
}

fn port_of(port_var: Option<&str>) -> Option<u16> {
    match Config::from_env(port_var) {
        Ok(c) => {
            assert_eq!(c.socket_addr.ip, [0, 0, 0, 0]);
            Some(c.socket_addr.port)
        }
        Err(ConfigError::InvalidListenAddress) => None,
    }
}

#[test]
fn welcome_handler_answers_200_with_message() {
    let (status, body) = welcome();
    assert_eq!(status, 200);
    assert_eq!(body.message, WELCOME);
}

#[test]
fn health_handler_answers_200_with_ok() {
    let (status, body) = health_check();
    assert_eq!(status, 200);
    assert_eq!(body.status, "ok");
}

#[test]
fn get_root_gives_welcome() {
    let r = dispatch(&Method::Get, "/");
    assert_eq!(r.status, 200);
    assert_eq!(message_of(&r), Some(WELCOME));
    assert!(r.allow.is_none());
}

#[test]
fn get_root_ignores_query() {
    let r = dispatch(&Method::Get, "/?name=x&y=%3F");
    assert_eq!(r.status, 200);
    assert_eq!(message_of(&r), Some(WELCOME));
    let r = dispatch(&Method::Get, "/?");
    assert_eq!(r.status, 200);
    assert_eq!(message_of(&r), Some(WELCOME));
}

#[test]
fn get_health_gives_ok() {
    let r = dispatch(&Method::Get, "/health");
    assert_eq!(r.status, 200);
    assert_eq!(status_of(&r), Some("ok"));
    assert!(r.allow.is_none());
}

#[test]
fn get_health_ignores_query() {
    let r = dispatch(&Method::Get, "/health?verbose=1?x");
    assert_eq!(r.status, 200);
    assert_eq!(status_of(&r), Some("ok"));
}

#[test]
fn head_is_answered_as_get() {
    let r = dispatch(&Method::Head, "/");
    assert_eq!(r.status, 200);
    assert_eq!(message_of(&r), Some(WELCOME));
    let r = dispatch(&Method::Head, "/health");
    assert_eq!(r.status, 200);
    assert_eq!(status_of(&r), Some("ok"));
}

#[test]
fn unknown_path_is_not_found() {
    let r = dispatch(&Method::Get, "/unknown");
    assert_eq!(r.status, 404);
    assert!(is_empty(&r));
    assert!(r.allow.is_none());
}

#[test]
fn unknown_path_is_not_found_for_any_method() {
    for m in [Method::Post, Method::Delete, Method::Other, Method::Head] {
        let r = dispatch(&m, "/unknown");
        assert_eq!(r.status, 404);
        assert!(is_empty(&r));
    }
}

#[test]
fn near_misses_are_not_found() {
    for t in ["", "/health/", "//", "/Health", "/healthz", "health", "?/health", "/welcome"] {
        let r = dispatch(&Method::Get, t);
        assert_eq!(r.status, 404, "target {:?}", t);
        assert!(is_empty(&r));
    }
}

#[test]
fn post_root_is_method_not_allowed() {
    let r = dispatch(&Method::Post, "/");
    assert_eq!(r.status, 405);
    assert!(is_empty(&r));
    assert_eq!(r.allow.as_deref(), Some("GET,HEAD"));
}

#[test]
fn post_health_is_method_not_allowed() {
    let r = dispatch(&Method::Post, "/health");
    assert_eq!(r.status, 405);
    assert!(is_empty(&r));
    assert_eq!(r.allow.as_deref(), Some("GET,HEAD"));
}

#[test]
fn other_methods_are_not_allowed_on_both_paths() {
    let methods = [
        Method::Put,
        Method::Delete,
        Method::Patch,
        Method::Options,
        Method::Trace,
        Method::Connect,
        Method::Other,
    ];
    for m in methods {
        for t in ["/", "/health", "/health?a=b"] {
            let r = dispatch(&m, t);
            assert_eq!(r.status, 405);
            assert!(is_empty(&r));
            assert_eq!(r.allow.as_deref(), Some("GET,HEAD"));
        }
    }
}

#[test]
fn unset_port_defaults_to_8080() {
    assert_eq!(port_of(None), Some(8080));
}

#[test]
fn port_9090_is_used() {
    assert_eq!(port_of(Some("9090")), Some(9090));
}

#[test]
fn port_not_a_number_is_refused() {
    assert_eq!(port_of(Some("not-a-number")), None);
}

#[test]
fn port_bounds() {
    assert_eq!(port_of(Some("0")), Some(0));
    assert_eq!(port_of(Some("65535")), Some(65535));
    assert_eq!(port_of(Some("65536")), None);
    assert_eq!(port_of(Some("99999999999999999999")), None);
}

#[test]
fn port_text_shapes() {
    assert_eq!(port_of(Some("")), None);
    assert_eq!(port_of(Some("00080")), Some(80));
    assert_eq!(port_of(Some("+80")), None);
    assert_eq!(port_of(Some("-1")), None);
    assert_eq!(port_of(Some(" 80")), None);
    assert_eq!(port_of(Some("80 ")), None);
    assert_eq!(port_of(Some("8o")), None);
    assert_eq!(port_of(Some("\u{663}")), None);
}

#[test]
fn parse_port_reads_decimal() {
    assert_eq!(parse_port("1"), Some(1));
    assert_eq!(parse_port("443"), Some(443));
    assert_eq!(parse_port("1a"), None);
    assert_eq!(parse_port("70000"), None);
}
