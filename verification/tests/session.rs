use netease::api::Api;
use netease::error::ApiError;
use netease::request::{Exchange, Method, Reply, SetCookie};
use netease::session::token_from_header;

fn answered(cookie: SetCookie, body: &str) -> Exchange {
    Exchange::Answered(Reply { set_cookie: cookie, body: body.to_string() })
}

fn cookie(text: &str) -> SetCookie {
    SetCookie::Text(text.to_string())
}

#[test]
fn token_is_read_up_to_the_semicolon() {
    assert_eq!(token_from_header("__csrf=abc123; Max-Age=1296010; Path=/"), "abc123");
}

#[test]
fn token_is_read_up_to_the_end() {
    assert_eq!(token_from_header("NMTID=1; __csrf=tail"), "tail");
}

#[test]
fn token_needs_the_marker() {
    assert_eq!(token_from_header("_csrf=abc123; Path=/"), "");
    assert_eq!(token_from_header("NMTID=00O; Path=/"), "");
    assert_eq!(token_from_header(""), "");
}

#[test]
fn token_needs_a_value() {
    assert_eq!(token_from_header("__csrf=; Path=/"), "");
    assert_eq!(token_from_header("__csrf="), "");
    assert_eq!(token_from_header("__csrf"), "");
}

#[test]
fn token_is_the_first_that_has_a_value() {
    assert_eq!(token_from_header("__csrf=;__csrf=second;__csrf=third"), "second");
    assert_eq!(token_from_header("_csrf=one; __csrf=two"), "one");
}

#[test]
fn token_ends_only_at_a_semicolon() {
    assert_eq!(token_from_header("__csrf=a(b|c)$d e;x"), "a(b|c)$d e");
    assert_eq!(token_from_header("__csrf=line\nbreak;x"), "line\nbreak");
}

#[test]
fn new_client_has_no_token() {
    assert_eq!(Api::new().csrf(), "");
}

#[test]
fn first_matching_reply_sets_the_token() {
    let mut api = Api::new();
    let body = api.receive(Method::Post, answered(cookie("__csrf=first; Path=/"), "one"));
    assert_eq!(body, Ok("one".to_string()));
    assert_eq!(api.csrf(), "first");
}

#[test]
fn later_reply_does_not_replace_the_token() {
    let mut api = Api::new();
    api.receive(Method::Post, answered(cookie("__csrf=first; Path=/"), "one")).unwrap();
    let body = api.receive(Method::Post, answered(cookie("__csrf=second; Path=/"), "two"));
    assert_eq!(body, Ok("two".to_string()));
    assert_eq!(api.csrf(), "first");
    api.receive(Method::Post, answered(SetCookie::Absent, "three")).unwrap();
    api.receive(Method::Post, answered(SetCookie::Unreadable, "four")).unwrap();
    api.receive(Method::Post, Exchange::Failed).unwrap_err();
    assert_eq!(api.csrf(), "first");
}

#[test]
fn reply_without_a_token_leaves_the_session_empty() {
    let mut api = Api::new();
    api.receive(Method::Post, answered(SetCookie::Absent, "one")).unwrap();
    assert_eq!(api.csrf(), "");
    api.receive(Method::Post, answered(cookie("NMTID=1; Path=/"), "two")).unwrap();
    assert_eq!(api.csrf(), "");
    api.receive(Method::Post, answered(cookie("__csrf=late"), "three")).unwrap();
    assert_eq!(api.csrf(), "late");
}

#[test]
fn read_style_reply_never_sets_the_token() {
    let mut api = Api::new();
    let body = api.receive(Method::Get, answered(cookie("__csrf=abc"), "page"));
    assert_eq!(body, Ok("page".to_string()));
    assert_eq!(api.csrf(), "");
    let body = api.receive(Method::Get, answered(SetCookie::Unreadable, "page"));
    assert_eq!(body, Ok("page".to_string()));
}

#[test]
fn failed_transport_fails_the_call() {
    let mut api = Api::new();
    assert_eq!(api.receive(Method::Post, Exchange::Failed), Err(ApiError::Transport));
    assert_eq!(api.receive(Method::Get, Exchange::Failed), Err(ApiError::Transport));
    assert_eq!(api.csrf(), "");
}

#[test]
fn unreadable_header_fails_the_call_while_no_token_is_held() {
    let mut api = Api::new();
    let r = api.receive(Method::Post, answered(SetCookie::Unreadable, "body"));
    assert_eq!(r, Err(ApiError::Protocol));
    assert_eq!(api.csrf(), "");
}

#[test]
fn body_is_returned_whatever_it_holds() {
    let mut api = Api::new();
    let r = api.receive(Method::Post, answered(SetCookie::Absent, "<html>502 Bad Gateway</html>"));
    assert_eq!(r, Ok("<html>502 Bad Gateway</html>".to_string()));
}

#[test]
fn error_messages_tell_the_kinds_apart() {
    let all = [
        ApiError::Transport,
        ApiError::Signing,
        ApiError::Protocol,
        ApiError::NoData,
        ApiError::Input,
    ];
    for (i, a) in all.iter().enumerate() {
        assert!(!a.message().is_empty());
        for b in &all[i + 1..] {
            assert_ne!(a, b);
            assert_ne!(a.message(), b.message());
        }
    }
    assert_eq!(ApiError::Transport.message(), "network unreachable");
    assert_eq!(ApiError::NoData.message(), "nothing found");
}
