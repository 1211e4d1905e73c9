//! Rules of the desktop shell: which cookies belong to Pixiv, how text is
//! put inside a script string, and where the shell keeps its log.
use vstd::prelude::*;
use vstd::string::{StrSliceExecFns, StringSliceAdditionalSpecFns};

use crate::runtime::path_join;
use crate::storage::ascii_lower_char;
use crate::text::{
    char_range, lower_seq, owned, push_char, push_str, replace, replace_all, str_equals,
};

verus! {

/// The text without its leading `.`s (`trim_start_matches('.')`).
pub open spec fn without_leading_dots(s: Seq<char>) -> Seq<char>
    decreases s.len(),
{
    if s.len() > 0 && s[0] == '.' {
        without_leading_dots(s.drop_first())
    } else {
        s
    }
}

/// A cookie domain of Pixiv: `pixiv.net` or one of its subdomains, in any
/// case, with or without leading dots.
pub open spec fn pixiv_domain(domain: Seq<char>) -> bool {
    let d = lower_seq(without_leading_dots(domain));
    d == "pixiv.net"@ || (d.len() >= 10 && d.subrange(d.len() - 10, d.len() as int)
        == ".pixiv.net"@)
}

pub fn is_pixiv_cookie_domain(domain: &str) -> (r: bool)
    ensures
        r == pixiv_domain(domain@),
{
    let n = domain.unicode_len();
    let mut start: usize = 0;
    assert(domain@.subrange(0, n as int) =~= domain@);
    while start < n && domain.get_char(start) == '.'
        invariant
            n == domain@.len(),
            start <= n,
            without_leading_dots(domain@) == without_leading_dots(domain@.subrange(start as int, n as int)),
        decreases n - start,
    {
        assert(domain@.subrange(start as int, n as int).drop_first() =~= domain@.subrange(
            start + 1,
            n as int,
        ));
        start += 1;
    }
    let ghost rest = domain@.subrange(start as int, n as int);
    assert(without_leading_dots(rest) == rest);
    let mut lowered = String::new();
    let mut i = start;
    while i < n
        invariant
            n == domain@.len(),
            start <= i <= n,
            lowered@ == lower_seq(domain@.subrange(start as int, i as int)),
        decreases n - i,
    {
        push_char(&mut lowered, ascii_lower_char(domain.get_char(i)));
        assert(lower_seq(domain@.subrange(start as int, i + 1)) =~= lower_seq(
            domain@.subrange(start as int, i as int),
        ).push(crate::text::ascii_lower(domain@[i as int])));
        i += 1;
    }
    proof {
        reveal_strlit("pixiv.net");
        reveal_strlit(".pixiv.net");
    }
    let m = lowered.unicode_len();
    if str_equals(lowered.as_str(), "pixiv.net") {
        return true;
    }
    if m < 10 {
        return false;
    }
    let tail = char_range(lowered.as_str(), m - 10, m);
    str_equals(tail.as_str(), ".pixiv.net")
}

/// A text made safe inside a single-quoted script string: backslashes,
/// quotes, carriage returns and line feeds are escaped.
pub open spec fn js_escaped(value: Seq<char>) -> Seq<char> {
    replace_all(
        replace_all(replace_all(replace_all(value, "\\"@, "\\\\"@), "'"@, "\\'"@), "\r"@, "\\r"@),
        "\n"@,
        "\\n"@,
    )
}

pub fn escape_js_string(value: &str) -> (r: String)
    ensures
        r@ == js_escaped(value@),
{
    proof {
        reveal_strlit("\\");
        reveal_strlit("'");
        reveal_strlit("\r");
        reveal_strlit("\n");
    }
    let a = replace(value, "\\", "\\\\");
    let b = replace(a.as_str(), "'", "\\'");
    let c = replace(b.as_str(), "\r", "\\r");
    replace(c.as_str(), "\n", "\\n")
}

/// Where the desktop log is kept below a home directory.
pub fn desktop_log_path(home: Option<&str>) -> (r: Option<String>)
    ensures
        match home {
            Some(h) => r is Some && r->Some_0@ == path_join(
                h@,
                ".local/share/Pixiv Platform/desktop.log"@,
            ),
            None => r is None,
        },
{
    match home {
        Some(h) => Some(crate::runtime::join_path(h, ".local/share/Pixiv Platform/desktop.log")),
        None => None,
    }
}

/// The desktop shell's log: where it is written, if anywhere.
#[derive(Debug, Clone, PartialEq, Eq)]
pub struct DesktopLogger {
    path: Option<String>,
}

impl DesktopLogger {
    pub closed spec fn path_view(self) -> Option<Seq<char>> {
        match self.path {
            Some(p) => Some(p@),
            None => None,
        }
    }

    pub fn new(home: Option<&str>) -> (r: DesktopLogger)
        ensures
            r.path_view() == match home {
                Some(h) => Some(path_join(h@, ".local/share/Pixiv Platform/desktop.log"@)),
                None => None::<Seq<char>>,
            },
    {
        DesktopLogger { path: desktop_log_path(home) }
    }

    pub fn path(&self) -> (r: Option<String>)
        ensures
            match r {
                Some(p) => self.path_view() == Some(p@),
                None => self.path_view() is None,
            },
    {
        match &self.path {
            Some(p) => Some(p.clone()),
            None => None,
        }
    }
}

/// The session cookie the login window is watched for: `PHPSESSID` on a
/// Pixiv domain.
pub fn is_pixiv_phpsessid(name: &str, domain: Option<&str>) -> (r: bool)
    ensures
        r == (name@ == "PHPSESSID"@ && (domain matches Some(d) && pixiv_domain(d@))),
{
    proof {
        reveal_strlit("PHPSESSID");
    }
    if !str_equals(name, "PHPSESSID") {
        return false;
    }
    match domain {
        Some(d) => is_pixiv_cookie_domain(d),
        None => false,
    }
}

/// How long the login window is watched, in milliseconds.
pub const LOGIN_WAIT_MS: u64 = 180000;

/// How long a refused cookie is left alone before it is tried again.
pub const LOGIN_RETRY_MS: u64 = 3000;

/// The pause between two looks at the login window, in milliseconds.
pub const LOGIN_POLL_MS: u64 = 750;

/// What the login watch reports when it gives up.
pub open spec fn login_timeout_text() -> Seq<char> {
    "Timed out waiting for a verified Pixiv login. Please finish signing in to Pixiv in the desktop window and try again."@
}

/// What the login watch was told.
pub enum LoginEvent {
    /// A pause is over (or the watch has just begun).
    Tick,
    /// The login window's cookies were read: the value of its Pixiv session
    /// cookie, if it has one, or why they could not be read.
    CookiesRead(Result<Option<String>, String>),
    /// Pixiv was asked whose cookie the candidate is: the user's uid and
    /// name, or why it is not signed in.
    Validated(Result<(String, Option<String>), String>),
}

/// What the login watch asks for next.
pub enum LoginAction {
    /// Read the login window's cookies.
    ReadCookies,
    /// Pause for `LOGIN_POLL_MS`, then tick.
    Sleep,
    /// Ask Pixiv whose cookie this is.
    Validate(String),
    /// The cookie is signed in as this user: close the window and return it.
    Verified { cookie: String, user_uid: String, user_name: Option<String> },
    /// The watch gave up with this message.
    TimedOut(String),
}

/// The watch over the Pixiv login window: until the deadline, it looks at
/// the window's session cookie and asks Pixiv about each new candidate, and
/// about a refused one again only after `LOGIN_RETRY_MS`.
pub struct LoginWatch {
    deadline_ms: u64,
    last_candidate: Option<String>,
    next_validation_ms: u64,
    pending: Option<String>,
}

impl LoginWatch {
    pub closed spec fn deadline(self) -> u64 {
        self.deadline_ms
    }

    pub closed spec fn last_candidate(self) -> Option<Seq<char>> {
        match self.last_candidate {
            Some(c) => Some(c@),
            None => None,
        }
    }

    pub closed spec fn retry_at(self) -> u64 {
        self.next_validation_ms
    }

    /// The candidate being asked about, if any.
    pub closed spec fn pending(self) -> Option<Seq<char>> {
        match self.pending {
            Some(c) => Some(c@),
            None => None,
        }
    }

    /// Starts watching at `now_ms`; the first step is a tick.
    pub fn start(now_ms: u64) -> (r: LoginWatch)
        ensures
            r.deadline() == if now_ms <= u64::MAX - LOGIN_WAIT_MS {
                (now_ms + LOGIN_WAIT_MS) as u64
            } else {
                u64::MAX
            },
            r.last_candidate() is None,
            r.retry_at() == now_ms,
            r.pending() is None,
    {
        LoginWatch {
            deadline_ms: now_ms.saturating_add(LOGIN_WAIT_MS),
            last_candidate: None,
            next_validation_ms: now_ms,
            pending: None,
        }
    }

    /// One step of the watch at time `now_ms`.
    pub fn step(&mut self, now_ms: u64, event: LoginEvent) -> (r: LoginAction)
        ensures
            final(self).deadline() == old(self).deadline(),
            event is Tick ==> (if now_ms < old(self).deadline() {
                r is ReadCookies
            } else {
                r matches LoginAction::TimedOut(m) && m@ == login_timeout_text()
            }),
            event matches LoginEvent::CookiesRead(Err(_)) ==> r is Sleep,
            event matches LoginEvent::CookiesRead(Ok(None)) ==> r is Sleep,
            event matches LoginEvent::CookiesRead(Ok(Some(c))) ==> (if old(self).last_candidate()
                != Some(c@) || now_ms >= old(self).retry_at() {
                r matches LoginAction::Validate(v) && v@ == c@ && final(self).pending() == Some(c@)
            } else {
                r is Sleep
            }),
            event matches LoginEvent::Validated(Ok((uid, name))) ==> (match old(self).pending() {
                Some(c) => r matches LoginAction::Verified { cookie, user_uid, user_name } && cookie@
                    == c && user_uid@ == uid@ && user_name == name,
                None => r is Sleep,
            }),
            event matches LoginEvent::Validated(Err(_)) ==> r is Sleep && (old(self).pending() matches Some(
                c,
            ) ==> final(self).last_candidate() == Some(c) && final(self).retry_at() == (
            if now_ms <= u64::MAX - LOGIN_RETRY_MS {
                (now_ms + LOGIN_RETRY_MS) as u64
            } else {
                u64::MAX
            })),
            r is Validate ==> event is CookiesRead,
            r is Verified ==> event is Validated && old(self).pending() is Some,
    {
        match event {
            LoginEvent::Tick => {
                if now_ms < self.deadline_ms {
                    LoginAction::ReadCookies
                } else {
                    proof {
                        reveal_strlit(
                            "Timed out waiting for a verified Pixiv login. Please finish signing in to Pixiv in the desktop window and try again.",
                        );
                    }
                    LoginAction::TimedOut(
                        owned(
                            "Timed out waiting for a verified Pixiv login. Please finish signing in to Pixiv in the desktop window and try again.",
                        ),
                    )
                }
            },
            LoginEvent::CookiesRead(Err(_)) => LoginAction::Sleep,
            LoginEvent::CookiesRead(Ok(None)) => LoginAction::Sleep,
            LoginEvent::CookiesRead(Ok(Some(candidate))) => {
                let same = match &self.last_candidate {
                    Some(last) => str_equals(last.as_str(), candidate.as_str()),
                    None => false,
                };
                if !same || now_ms >= self.next_validation_ms {
                    self.pending = Some(candidate.clone());
                    LoginAction::Validate(candidate)
                } else {
                    LoginAction::Sleep
                }
            },
            LoginEvent::Validated(Ok((user_uid, user_name))) => match self.pending.take() {
                Some(cookie) => LoginAction::Verified { cookie, user_uid, user_name },
                None => LoginAction::Sleep,
            },
            LoginEvent::Validated(Err(_)) => {
                match self.pending.take() {
                    Some(cookie) => {
                        self.last_candidate = Some(cookie);
                        self.next_validation_ms = now_ms.saturating_add(LOGIN_RETRY_MS);
                    },
                    None => {},
                }
                LoginAction::Sleep
            },
        }
    }
}

/// A line of the desktop log: the time in seconds, a space, the message.
pub fn log_line(timestamp_secs: u64, message: &str) -> (r: String)
    ensures
        r@ == crate::text::decimal(timestamp_secs as nat) + " "@ + message@,
{
    let mut line = String::new();
    crate::text::push_decimal(&mut line, timestamp_secs as u128);
    push_str(&mut line, " ");
    push_str(&mut line, message);
    line
}

/// The only page the shell opens in the user's browser: the releases page.
pub open spec fn releases_url() -> Seq<char> {
    "https://github.com/2921323707/self_pixiv_downloader/releases"@
}

/// Whether the shell may open this address in the browser.
pub fn is_allowed_external_url(url: &str) -> (r: bool)
    ensures
        r == (url@ == releases_url()),
{
    proof {
        reveal_strlit("https://github.com/2921323707/self_pixiv_downloader/releases");
    }
    str_equals(url, "https://github.com/2921323707/self_pixiv_downloader/releases")
}

/// What a window shows: a page of the bundled app, or an external address
/// (the development server).
pub enum WindowUrl {
    App(String),
    External(String),
}

/// The main window: the development server in a debug build, else the
/// bundled `index.html`.
pub fn main_window_url(debug_build: bool) -> (r: WindowUrl)
    ensures
        debug_build ==> (r matches WindowUrl::External(u) && u@ == "http://127.0.0.1:3001"@),
        !debug_build ==> (r matches WindowUrl::App(p) && p@ == "index.html"@),
{
    if debug_build {
        WindowUrl::External(owned("http://127.0.0.1:3001"))
    } else {
        WindowUrl::App(owned("index.html"))
    }
}

/// The startup-error window: the development server's page in a debug
/// build, else the bundled `startup-error.html`.
pub fn startup_error_window_url(debug_build: bool) -> (r: WindowUrl)
    ensures
        debug_build ==> (r matches WindowUrl::External(u) && u@
            == "http://127.0.0.1:3001/startup-error.html"@),
        !debug_build ==> (r matches WindowUrl::App(p) && p@ == "startup-error.html"@),
{
    if debug_build {
        WindowUrl::External(owned("http://127.0.0.1:3001/startup-error.html"))
    } else {
        WindowUrl::App(owned("startup-error.html"))
    }
}

/// The script that tells the main window where the backend listens.
pub fn backend_url_script(backend_addr: &str) -> (r: String)
    ensures
        r@ == "window.__PIXIV_PLATFORM_BACKEND_URL__ = \"http://"@ + backend_addr@ + "\";"@,
{
    let mut script = owned("window.__PIXIV_PLATFORM_BACKEND_URL__ = \"http://");
    push_str(&mut script, backend_addr);
    push_str(&mut script, "\";");
    script
}

/// The script that hands the startup error and the log's path to the error
/// window, both escaped for a single-quoted string.
pub fn startup_error_script(message: &str, log_path: Option<&str>) -> (r: String)
    ensures
        r@ == "window.__PIXIV_PLATFORM_STARTUP_ERROR__ = { message: '"@ + js_escaped(message@)
            + "', logPath: '"@ + js_escaped(
            match log_path {
                Some(p) => p@,
                None => "unavailable"@,
            },
        ) + "' };"@,
{
    let shown_path = match log_path {
        Some(p) => p,
        None => "unavailable",
    };
    let mut script = owned("window.__PIXIV_PLATFORM_STARTUP_ERROR__ = { message: '");
    push_str(&mut script, escape_js_string(message).as_str());
    push_str(&mut script, "', logPath: '");
    push_str(&mut script, escape_js_string(shown_path).as_str());
    push_str(&mut script, "' };");
    script
}

/// The request the shell sends to learn whether the backend is up.
pub fn health_request(path: &str, backend_addr: &str) -> (r: String)
    ensures
        r@ == "GET "@ + path@ + " HTTP/1.1\r\nHost: "@ + backend_addr@
            + "\r\nConnection: close\r\n\r\n"@,
{
    let mut request = owned("GET ");
    push_str(&mut request, path);
    push_str(&mut request, " HTTP/1.1\r\nHost: ");
    push_str(&mut request, backend_addr);
    push_str(&mut request, "\r\nConnection: close\r\n\r\n");
    request
}

/// A healthy answer: it begins with an HTTP/1.1 or HTTP/1.0 `200` status.
pub open spec fn healthy_response(response: Seq<char>) -> bool {
    (response.len() >= 12 && response.subrange(0, 12) == "HTTP/1.1 200"@) || (response.len() >= 12
        && response.subrange(0, 12) == "HTTP/1.0 200"@)
}

pub fn is_healthy_response(response: &str) -> (r: bool)
    ensures
        r == healthy_response(response@),
{
    proof {
        reveal_strlit("HTTP/1.1 200");
        reveal_strlit("HTTP/1.0 200");
    }
    let n = response.unicode_len();
    if n < 12 {
        return false;
    }
    let head = char_range(response, 0, 12);
    str_equals(head.as_str(), "HTTP/1.1 200") || str_equals(head.as_str(), "HTTP/1.0 200")
}

} // verus!
