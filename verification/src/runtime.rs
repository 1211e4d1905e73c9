//! The settings the running service reads: the download root, the Pixiv
//! cookie, the DeepSeek configuration, counts and the R18 policy, each with
//! its fallback.  Values from the environment are handed in by the caller.
use vstd::prelude::*;
use vstd::string::{StrSliceExecFns, StringSliceAdditionalSpecFns};

use crate::ai::DeepSeekConfig;
use crate::domain::R18Policy;
use crate::errors::{AppError, ErrorCode};
use crate::json::{json_document, parse_json_text, JsonValue};
use crate::settings::SettingsRepository;
use crate::text::{char_range, is_blank, owned, push_str, str_equals, trim, trimmed};

verus! {

pub const DEFAULT_DOWNLOAD_BASE_PATH: &'static str = "~/Downloads/Pixiv Platform";

pub const LEGACY_PROJECT_DOWNLOAD_BASE_PATH: &'static str = "project:output";

pub const LEGACY_DEFAULT_DOWNLOAD_BASE_PATH: &'static str = "~/pixiv_downloads/";

pub const DEFAULT_BATCH_COUNT: u32 = 20;

pub const DEFAULT_MAX_REQUEST_COUNT: u32 = 100;

pub const DEFAULT_DEEPSEEK_BASE_URL: &'static str = "https://api.deepseek.com";

pub const DEFAULT_DEEPSEEK_MODEL: &'static str = "deepseek-v4-flash";

/// The settings a download run needs.
#[derive(Debug, Clone, PartialEq, Eq)]
pub struct RuntimeSettings {
    pub download_root: String,
    pub pixiv_cookie: Option<String>,
}

/// The text a setting's stored JSON holds, when it is a JSON string.
pub open spec fn stored_string(raw_json: Seq<char>) -> Option<Seq<char>> {
    match json_document(raw_json) {
        Some(JsonValue::Text(s)) => Some(s@),
        _ => None,
    }
}

/// A stored setting read as a JSON string.
pub fn setting_string(raw_json: &str, key: &str) -> (r: Result<String, AppError>)
    ensures
        match stored_string(raw_json@) {
            Some(s) => r is Ok && r->Ok_0@ == s,
            None => r is Err && r->Err_0.code == ErrorCode::ValidationError && r->Err_0.message@
                == key@ + " must be stored as a JSON string"@,
        },
{
    match parse_json_text(raw_json) {
        Ok(JsonValue::Text(text)) => Ok(text),
        _ => {
            let mut message = owned(key);
            push_str(&mut message, " must be stored as a JSON string");
            Err(AppError::validation(message.as_str()))
        },
    }
}

/// A stored secret, trimmed; blank or the mask count as unset.
pub open spec fn usable_secret(text: Seq<char>) -> Option<Seq<char>> {
    if trimmed(text).len() == 0 || trimmed(text) == "***"@ {
        None
    } else {
        Some(trimmed(text))
    }
}

fn usable_secret_text(text: &str) -> (r: Option<String>)
    ensures
        match usable_secret(text@) {
            Some(s) => r is Some && r->Some_0@ == s,
            None => r is None,
        },
{
    let t = trim(text);
    if is_blank(t.as_str()) || str_equals(t.as_str(), "***") {
        proof {
            crate::text::lemma_trim_idempotent(text@);
        }
        None
    } else {
        proof {
            crate::text::lemma_trim_idempotent(text@);
        }
        Some(t)
    }
}

/// A secret setting: unset, blank or masked gives `None`; a stored value
/// that is not a JSON string is refused.
pub fn resolve_secret_setting(settings: &SettingsRepository, key: &str) -> (r: Result<
    Option<String>,
    AppError,
>)
    ensures
        r matches Ok(Some(s)) ==> trimmed(s@) == s@ && s@.len() > 0 && s@ != "***"@,
{
    let setting = match settings.get_raw(key)? {
        Some(setting) => setting,
        None => return Ok(None),
    };
    let value = setting_string(setting.value_json.as_str(), key)?;
    let secret = usable_secret_text(value.as_str());
    proof {
        crate::text::lemma_trim_idempotent(value@);
    }
    Ok(secret)
}

/// The Pixiv cookie from the settings.
pub fn resolve_pixiv_cookie(settings: &SettingsRepository) -> (r: Result<Option<String>, AppError>)
    ensures
        r matches Ok(Some(s)) ==> trimmed(s@) == s@ && s@.len() > 0 && s@ != "***"@,
{
    resolve_secret_setting(settings, "pixiv_cookie")
}

/// A text setting, trimmed; unset or blank gives the fallback.
pub fn resolve_string_setting(settings: &SettingsRepository, key: &str, fallback: &str) -> (r:
    Result<String, AppError>)
    ensures
        r matches Ok(s) ==> s@ == fallback@ || (s@.len() > 0 && trimmed(s@) == s@),
        r matches Ok(s) ==> (fallback@.len() > 0 ==> s@.len() > 0),
{
    let setting = match settings.get_raw(key)? {
        Some(setting) => setting,
        None => return Ok(owned(fallback)),
    };
    let value = setting_string(setting.value_json.as_str(), key)?;
    let t = trim(value.as_str());
    proof {
        crate::text::lemma_trim_idempotent(value@);
    }
    if is_blank(t.as_str()) {
        Ok(owned(fallback))
    } else {
        Ok(t)
    }
}

/// The DeepSeek configuration: the key from the settings or else the
/// environment's (`env_api_key`), which must be present; the address and
/// model fall back to DeepSeek's defaults.
pub fn resolve_deepseek_config(settings: &SettingsRepository, env_api_key: Option<String>) -> (r:
    Result<DeepSeekConfig, AppError>)
    ensures
        r matches Ok(config) ==> config.base_url@.len() > 0 && config.model@.len() > 0,
{
    proof {
        reveal_strlit("https://api.deepseek.com");
        reveal_strlit("deepseek-v4-flash");
    }
    let api_key = match resolve_secret_setting(settings, "deepseek_api_key")? {
        Some(key) => key,
        None => match env_api_key {
            Some(key) => key,
            None => return Err(
                AppError::new(
                    ErrorCode::AiConfigMissing,
                    "DeepSeek API key is required in settings or DEEPSEEK_API_KEY",
                ),
            ),
        },
    };
    let base_url = resolve_string_setting(settings, "deepseek_base_url", DEFAULT_DEEPSEEK_BASE_URL)?;
    let model = resolve_string_setting(settings, "deepseek_model", DEFAULT_DEEPSEEK_MODEL)?;
    Ok(DeepSeekConfig { api_key, base_url, model })
}

/// Joins a relative part onto a directory the way `Path::join` does: an
/// absolute part replaces the directory.
pub open spec fn path_join(base: Seq<char>, part: Seq<char>) -> Seq<char> {
    if part.len() > 0 && part[0] == '/' {
        part
    } else if base.len() > 0 && base.last() == '/' {
        base + part
    } else if base.len() == 0 {
        part
    } else {
        base + seq!['/'] + part
    }
}

pub fn join_path(base: &str, part: &str) -> (r: String)
    ensures
        r@ == path_join(base@, part@),
{
    if part.unicode_len() > 0 && part.get_char(0) == '/' {
        return owned(part);
    }
    let n = base.unicode_len();
    if n == 0 {
        return owned(part);
    }
    let mut out = owned(base);
    if base.get_char(n - 1) != '/' {
        crate::text::push_char(&mut out, '/');
    }
    push_str(&mut out, part);
    out
}

/// Where a download directory setting points: `~` and `~/…` expand against
/// the home directory; the result must be absolute.
pub open spec fn expanded_root(value: Seq<char>, home: Option<Seq<char>>) -> Result<
    Seq<char>,
    Seq<char>,
> {
    if value.len() == 0 {
        Err("download_base_path cannot be empty"@)
    } else if value.contains('\0') {
        Err("download_base_path cannot contain NUL bytes"@)
    } else if (value == "~"@ || (value.len() >= 2 && value[0] == '~' && value[1] == '/'))
        && home is None {
        Err("HOME or USERPROFILE is required to expand download_base_path starting with ~"@)
    } else {
        let path = if value == "~"@ {
            home->Some_0
        } else if value.len() >= 2 && value[0] == '~' && value[1] == '/' {
            path_join(home->Some_0, value.subrange(2, value.len() as int))
        } else {
            value
        };
        if path.len() > 0 && path[0] == '/' {
            Ok(path)
        } else {
            Err("download_base_path must be absolute or start with ~"@)
        }
    }
}

/// Expands a download directory setting; `home` is the home directory from
/// the environment, when it is set.
pub fn expand_download_root(value: &str, home: Option<&str>) -> (r: Result<String, AppError>)
    ensures
        match expanded_root(
            value@,
            match home {
                Some(h) => Some(h@),
                None => None,
            },
        ) {
            Ok(p) => r is Ok && r->Ok_0@ == p,
            Err(m) => r is Err && r->Err_0.code == ErrorCode::ValidationError && r->Err_0.message@
                == m,
        },
{
    let n = value.unicode_len();
    if n == 0 {
        return Err(AppError::validation("download_base_path cannot be empty"));
    }
    let mut i: usize = 0;
    while i < n
        invariant
            n == value@.len(),
            i <= n,
            forall|j: int| 0 <= j < i ==> value@[j] != '\0',
        decreases n - i,
    {
        if value.get_char(i) == '\0' {
            assert(value@[i as int] == '\0');
            return Err(AppError::validation("download_base_path cannot contain NUL bytes"));
        }
        i += 1;
    }
    proof {
        reveal_strlit("~");
    }
    let tilde = str_equals(value, "~");
    let tilde_slash = n >= 2 && value.get_char(0) == '~' && value.get_char(1) == '/';
    let path = if tilde || tilde_slash {
        let home_dir = match home {
            Some(h) => h,
            None => return Err(
                AppError::validation(
                    "HOME or USERPROFILE is required to expand download_base_path starting with ~",
                ),
            ),
        };
        if tilde {
            owned(home_dir)
        } else {
            let rest = char_range(value, 2, n);
            join_path(home_dir, rest.as_str())
        }
    } else {
        owned(value)
    };
    if !(path.unicode_len() > 0 && path.get_char(0) == '/') {
        return Err(AppError::validation("download_base_path must be absolute or start with ~"));
    }
    Ok(path)
}

/// A download directory left at a default, current or legacy.
pub open spec fn default_root_value(value: Seq<char>) -> bool {
    value == "~/Downloads/Pixiv Platform"@ || value == "project:output"@ || value
        == "~/pixiv_downloads/"@
}

/// The download root a stored `download_base_path` gives (`None`: never
/// stored): the fallback when unset or left at a default, else the trimmed
/// setting expanded; an error's message otherwise.
pub open spec fn download_root_setting(
    raw_json: Option<Seq<char>>,
    fallback: Seq<char>,
    home: Option<Seq<char>>,
) -> Result<Seq<char>, Seq<char>> {
    match raw_json {
        None => Ok(fallback),
        Some(raw) => match stored_string(raw) {
            None => Err("download_base_path must be stored as a JSON string"@),
            Some(v) => if default_root_value(trimmed(v)) {
                Ok(fallback)
            } else {
                expanded_root(trimmed(v), home)
            },
        },
    }
}

/// The download root from the stored `download_base_path` text, if any.
pub fn download_root_from_setting(raw_json: Option<&str>, fallback_download_root: &str, home: Option<
    &str,
>) -> (r: Result<String, AppError>)
    ensures
        match download_root_setting(
            match raw_json {
                Some(v) => Some(v@),
                None => None,
            },
            fallback_download_root@,
            match home {
                Some(h) => Some(h@),
                None => None,
            },
        ) {
            Ok(p) => r matches Ok(v) && v@ == p,
            Err(m) => r matches Err(e) && e.code == ErrorCode::ValidationError && e.message@ == m,
        },
{
    proof {
        reveal_strlit("download_base_path");
        reveal_strlit(" must be stored as a JSON string");
        reveal_strlit("~/Downloads/Pixiv Platform");
        reveal_strlit("project:output");
        reveal_strlit("~/pixiv_downloads/");
        reveal_strlit("download_base_path must be stored as a JSON string");
        assert("download_base_path"@ + " must be stored as a JSON string"@
            =~= "download_base_path must be stored as a JSON string"@);
    }
    let raw = match raw_json {
        Some(raw) => raw,
        None => return Ok(owned(fallback_download_root)),
    };
    let text = setting_string(raw, "download_base_path")?;
    let value = trim(text.as_str());
    if str_equals(value.as_str(), DEFAULT_DOWNLOAD_BASE_PATH) || str_equals(
        value.as_str(),
        LEGACY_PROJECT_DOWNLOAD_BASE_PATH,
    ) || str_equals(value.as_str(), LEGACY_DEFAULT_DOWNLOAD_BASE_PATH) {
        return Ok(owned(fallback_download_root));
    }
    expand_download_root(value.as_str(), home)
}

/// The download root: the fallback when unset or left at a default (current
/// or legacy), else the expanded setting, which is absolute.
pub fn resolve_download_root(
    settings: &SettingsRepository,
    fallback_download_root: &str,
    home: Option<&str>,
) -> (r: Result<String, AppError>)
    ensures
        r matches Ok(p) ==> p@ == fallback_download_root@ || (p@.len() > 0 && p@[0] == '/'),
{
    let stored = settings.get_raw("download_base_path")?;
    let raw: Option<&str> = match &stored {
        Some(setting) => Some(setting.value_json.as_str()),
        None => None,
    };
    download_root_from_setting(raw, fallback_download_root, home)
}

/// The download root and the Pixiv cookie.
pub fn resolve_runtime_settings(
    conn: &rusqlite::Connection,
    fallback_download_root: &str,
    home: Option<&str>,
) -> (r: Result<RuntimeSettings, AppError>)
    ensures
        r matches Ok(s) ==> (s.download_root@ == fallback_download_root@ || (s.download_root@.len()
            > 0 && s.download_root@[0] == '/')) && (s.pixiv_cookie matches Some(c) ==> trimmed(c@)
            == c@ && c@.len() > 0 && c@ != "***"@),
{
    let settings = SettingsRepository::new(conn);
    let download_root = resolve_download_root(&settings, fallback_download_root, home)?;
    let pixiv_cookie = resolve_pixiv_cookie(&settings)?;
    Ok(RuntimeSettings { download_root, pixiv_cookie })
}

/// The count a stored setting gives (`None`: never stored): the fallback
/// when unset, else a JSON number that fits in 32 bits; an error's message
/// otherwise.
pub open spec fn count_setting(raw_json: Option<Seq<char>>, key: Seq<char>, fallback: u32) -> Result<
    u32,
    Seq<char>,
> {
    match raw_json {
        None => Ok(fallback),
        Some(raw) => match json_document(raw) {
            Some(JsonValue::Number(crate::json::JsonNumber::Unsigned(n))) => if n <= u32::MAX {
                Ok(n as u32)
            } else {
                Err(key + " is too large"@)
            },
            _ => Err(key + " must be stored as a JSON number"@),
        },
    }
}

/// A count from its stored text, if any.
pub fn count_from_setting(raw_json: Option<&str>, key: &str, fallback: u32) -> (r: Result<u32, AppError>)
    ensures
        match count_setting(
            match raw_json {
                Some(v) => Some(v@),
                None => None,
            },
            key@,
            fallback,
        ) {
            Ok(n) => r == Ok::<u32, AppError>(n),
            Err(m) => r matches Err(e) && e.code == ErrorCode::ValidationError && e.message@ == m,
        },
{
    let raw = match raw_json {
        Some(raw) => raw,
        None => return Ok(fallback),
    };
    let stored = match parse_json_text(raw) {
        Ok(JsonValue::Number(crate::json::JsonNumber::Unsigned(n))) => Some(n),
        _ => None,
    };
    let value = match stored {
        Some(value) => value,
        None => {
            let mut message = owned(key);
            push_str(&mut message, " must be stored as a JSON number");
            return Err(AppError::validation(message.as_str()));
        },
    };
    if value > 4294967295u64 {
        let mut message = owned(key);
        push_str(&mut message, " is too large");
        return Err(AppError::validation(message.as_str()));
    }
    Ok(value as u32)
}

/// A stored count; unset gives the fallback.
pub fn setting_u32_or(settings: &SettingsRepository, key: &str, fallback: u32) -> (r: Result<
    u32,
    AppError,
>)
    ensures
        r is Err ==> r->Err_0.code == ErrorCode::ValidationError || r->Err_0.code
            == ErrorCode::SqliteError,
{
    let stored = match settings.get_raw(key) {
        Ok(stored) => stored,
        Err(e) => return Err(storage_error(e)),
    };
    let raw: Option<&str> = match &stored {
        Some(setting) => Some(setting.value_json.as_str()),
        None => None,
    };
    count_from_setting(raw, key, fallback)
}

/// A failure to read the settings table, as a storage error.
fn storage_error(error: AppError) -> (r: AppError)
    ensures
        r.code == ErrorCode::SqliteError,
{
    AppError { code: ErrorCode::SqliteError, message: error.message }
}

/// The policy a stored `r18_policy` gives (`None`: never stored).
pub open spec fn policy_setting(raw_json: Option<Seq<char>>, fallback: R18Policy) -> Result<
    R18Policy,
    Seq<char>,
> {
    match raw_json {
        None => Ok(fallback),
        Some(raw) => match stored_string(raw) {
            None => Err("r18_policy must be stored as a JSON string"@),
            Some(v) => match R18Policy::parse(v) {
                Some(p) => Ok(p),
                None => Err("r18_policy is invalid"@),
            },
        },
    }
}

/// The policy from its stored text, if any.
pub fn policy_from_setting(raw_json: Option<&str>, fallback: R18Policy) -> (r: Result<R18Policy, AppError>)
    ensures
        match policy_setting(
            match raw_json {
                Some(v) => Some(v@),
                None => None,
            },
            fallback,
        ) {
            Ok(p) => r == Ok::<R18Policy, AppError>(p),
            Err(m) => r matches Err(e) && e.code == ErrorCode::ValidationError && e.message@ == m,
        },
{
    proof {
        reveal_strlit("r18_policy");
        reveal_strlit(" must be stored as a JSON string");
        reveal_strlit("r18_policy must be stored as a JSON string");
        assert("r18_policy"@ + " must be stored as a JSON string"@
            =~= "r18_policy must be stored as a JSON string"@);
    }
    let raw = match raw_json {
        Some(raw) => raw,
        None => return Ok(fallback),
    };
    let value = setting_string(raw, "r18_policy")?;
    match R18Policy::from_api(value.as_str()) {
        Some(policy) => Ok(policy),
        None => Err(AppError::validation("r18_policy is invalid")),
    }
}

/// The stored R18 policy; unset gives the fallback.
pub fn setting_r18_policy_or(settings: &SettingsRepository, fallback: R18Policy) -> (r: Result<
    R18Policy,
    AppError,
>)
    ensures
        r is Err ==> r->Err_0.code == ErrorCode::ValidationError || r->Err_0.code
            == ErrorCode::SqliteError,
{
    let stored = match settings.get_raw("r18_policy") {
        Ok(stored) => stored,
        Err(e) => return Err(storage_error(e)),
    };
    let raw: Option<&str> = match &stored {
        Some(setting) => Some(setting.value_json.as_str()),
        None => None,
    };
    policy_from_setting(raw, fallback)
}

/// The default download root below a home directory, or a relative one
/// when there is no home directory.
pub fn default_download_root(home: Option<&str>) -> (r: String)
    ensures
        match home {
            Some(h) => r@ == path_join(h@, "Downloads/Pixiv Platform"@),
            None => r@ == "Pixiv Platform"@,
        },
{
    match home {
        Some(h) => join_path(h, "Downloads/Pixiv Platform"),
        None => owned("Pixiv Platform"),
    }
}

} // verus!
