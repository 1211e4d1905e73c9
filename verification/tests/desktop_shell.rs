use pixiv_platform_backend::desktop::{
    backend_url_script, health_request, is_allowed_external_url, is_healthy_response,
    is_pixiv_phpsessid, log_line, main_window_url, startup_error_script, startup_error_window_url,
    LoginAction, LoginEvent, LoginWatch, WindowUrl, LOGIN_RETRY_MS, LOGIN_WAIT_MS,
};

#[test]
fn only_pixiv_session_cookies_are_watched() {
    assert!(is_pixiv_phpsessid("PHPSESSID", Some(".pixiv.net")));
    assert!(is_pixiv_phpsessid("PHPSESSID", Some("www.PIXIV.net")));
    assert!(!is_pixiv_phpsessid("PHPSESSID", Some("example.com")));
    assert!(!is_pixiv_phpsessid("OTHER", Some("pixiv.net")));
    assert!(!is_pixiv_phpsessid("PHPSESSID", None));
}

#[test]
fn login_watch_validates_a_new_cookie_and_returns_the_verified_one() {
    let mut watch = LoginWatch::start(1_000);
    assert!(matches!(watch.step(1_000, LoginEvent::Tick), LoginAction::ReadCookies));
    assert!(matches!(watch.step(1_100, LoginEvent::CookiesRead(Ok(None))), LoginAction::Sleep));
    match watch.step(1_200, LoginEvent::CookiesRead(Ok(Some("abc".to_owned())))) {
        LoginAction::Validate(cookie) => assert_eq!(cookie, "abc"),
        _ => panic!("a new cookie is validated"),
    }
    match watch.step(1_300, LoginEvent::Validated(Ok(("42".to_owned(), Some("Ann".to_owned()))))) {
        LoginAction::Verified { cookie, user_uid, user_name } => {
            assert_eq!(cookie, "abc");
            assert_eq!(user_uid, "42");
            assert_eq!(user_name.as_deref(), Some("Ann"));
        }
        _ => panic!("a confirmed cookie is returned"),
    }
}

#[test]
fn login_watch_waits_before_retrying_a_refused_cookie() {
    let mut watch = LoginWatch::start(0);
    assert!(matches!(watch.step(10, LoginEvent::CookiesRead(Ok(Some("abc".to_owned())))), LoginAction::Validate(_)));
    assert!(matches!(watch.step(20, LoginEvent::Validated(Err("not signed in".to_owned()))), LoginAction::Sleep));
    assert!(matches!(watch.step(30, LoginEvent::CookiesRead(Ok(Some("abc".to_owned())))), LoginAction::Sleep));
    assert!(matches!(watch.step(40, LoginEvent::CookiesRead(Ok(Some("other".to_owned())))), LoginAction::Validate(_)));
    assert!(matches!(watch.step(50, LoginEvent::Validated(Err("not yet".to_owned()))), LoginAction::Sleep));
    let retry_at = 50 + LOGIN_RETRY_MS;
    assert!(matches!(watch.step(retry_at, LoginEvent::CookiesRead(Ok(Some("other".to_owned())))), LoginAction::Validate(_)));
}

#[test]
fn login_watch_gives_up_at_the_deadline() {
    let mut watch = LoginWatch::start(5);
    match watch.step(5 + LOGIN_WAIT_MS, LoginEvent::Tick) {
        LoginAction::TimedOut(message) => assert!(message.starts_with("Timed out waiting for a verified Pixiv login.")),
        _ => panic!("the watch gives up"),
    }
    assert!(matches!(watch.step(4, LoginEvent::CookiesRead(Err("closed".to_owned()))), LoginAction::Sleep));
}

#[test]
fn log_lines_start_with_the_time() {
    assert_eq!(log_line(1700000000, "started"), "1700000000 started");
}

#[test]
fn only_the_releases_page_is_opened_externally() {
    assert!(is_allowed_external_url("https://github.com/2921323707/self_pixiv_downloader/releases"));
    assert!(!is_allowed_external_url("https://example.com/"));
}

#[test]
fn windows_load_the_dev_server_only_in_debug_builds() {
    assert!(matches!(main_window_url(true), WindowUrl::External(url) if url == "http://127.0.0.1:3001"));
    assert!(matches!(main_window_url(false), WindowUrl::App(page) if page == "index.html"));
    assert!(matches!(startup_error_window_url(false), WindowUrl::App(page) if page == "startup-error.html"));
}

#[test]
fn window_scripts_carry_the_backend_and_the_escaped_error() {
    assert_eq!(
        backend_url_script("127.0.0.1:4000"),
        "window.__PIXIV_PLATFORM_BACKEND_URL__ = \"http://127.0.0.1:4000\";"
    );
    assert_eq!(
        startup_error_script("it's broken", None),
        "window.__PIXIV_PLATFORM_STARTUP_ERROR__ = { message: 'it\\'s broken', logPath: 'unavailable' };"
    );
}

#[test]
fn health_probe_sends_a_plain_get_and_accepts_200() {
    assert_eq!(
        health_request("/api/health", "127.0.0.1:4000"),
        "GET /api/health HTTP/1.1\r\nHost: 127.0.0.1:4000\r\nConnection: close\r\n\r\n"
    );
    assert!(is_healthy_response("HTTP/1.1 200 OK\r\n"));
    assert!(is_healthy_response("HTTP/1.0 200 OK"));
    assert!(!is_healthy_response("HTTP/1.1 500 Internal Server Error"));
    assert!(!is_healthy_response(""));
}
