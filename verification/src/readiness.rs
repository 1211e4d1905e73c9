//! The runtime readiness report: what each check shows for each outcome of
//! its probe (the probes themselves, storage, network and the remote
//! services, are run by the caller).
use vstd::prelude::*;

use crate::accounts::{PixivAccountRecord, PixivAccountRepository};
use crate::ai::DeepSeekConnectionStatus;
use crate::dto::{
    DeepSeekConnectionTestResponse, PixivAccountResponse, RuntimePixivAccountReadinessResponse,
    RuntimeReadinessActionResponse, RuntimeReadinessCheckResponse, RuntimeReadinessResponse,
};
use crate::errors::{AppError, ErrorCode};
use crate::json::{push_quoted, quoted};
use crate::settings::SettingsRepository;
use crate::text::{is_blank, owned, push_str, str_equals, trimmed};

verus! {

fn opt_text(value: Option<&str>) -> (r: Option<String>)
    ensures
        match value {
            Some(v) => r is Some && r->Some_0@ == v@,
            None => r is None,
        },
{
    match value {
        Some(v) => Some(owned(v)),
        None => None,
    }
}

/// A suggested next step: a label with a link or an action name.
pub fn action(label: &str, href: Option<&str>, action_name: Option<&str>) -> (r:
    RuntimeReadinessActionResponse)
    ensures
        r.label@ == label@,
        match href {
            Some(h) => r.href is Some && r.href->Some_0@ == h@,
            None => r.href is None,
        },
        match action_name {
            Some(a) => r.action is Some && r.action->Some_0@ == a@,
            None => r.action is None,
        },
{
    RuntimeReadinessActionResponse {
        label: owned(label),
        href: opt_text(href),
        action: opt_text(action_name),
    }
}

/// A passing check.
pub fn ok_check(status: &str, message: &str) -> (r: RuntimeReadinessCheckResponse)
    ensures
        r.ok,
        r.status@ == status@,
        r.message@ == message@,
        r.recommendation is None,
        r.action is None,
        r.error_code is None,
        r.latency_ms is None,
{
    RuntimeReadinessCheckResponse {
        ok: true,
        status: owned(status),
        message: owned(message),
        recommendation: None,
        action: None,
        error_code: None,
        latency_ms: None,
    }
}

/// A failing check, with the error's code.
pub fn error_check(
    status: &str,
    message: &str,
    recommendation: Option<&str>,
    next_step: Option<RuntimeReadinessActionResponse>,
    error: AppError,
) -> (r: RuntimeReadinessCheckResponse)
    ensures
        !r.ok,
        r.status@ == status@,
        r.message@ == message@,
        match recommendation {
            Some(t) => r.recommendation is Some && r.recommendation->Some_0@ == t@,
            None => r.recommendation is None,
        },
        r.action == next_step,
        r.error_code matches Some(c) && c@ == error.code.name(),
        r.latency_ms is None,
{
    RuntimeReadinessCheckResponse {
        ok: false,
        status: owned(status),
        message: owned(message),
        recommendation: opt_text(recommendation),
        action: next_step,
        error_code: Some(owned(error.code.as_str())),
        latency_ms: None,
    }
}

/// A failing account check, with the error's code and no account.
pub fn account_error_check(
    status: &str,
    message: &str,
    recommendation: Option<&str>,
    next_step: Option<RuntimeReadinessActionResponse>,
    error: AppError,
) -> (r: RuntimePixivAccountReadinessResponse)
    ensures
        !r.ok,
        r.status@ == status@,
        r.message@ == message@,
        match recommendation {
            Some(t) => r.recommendation is Some && r.recommendation->Some_0@ == t@,
            None => r.recommendation is None,
        },
        r.action == next_step,
        r.error_code matches Some(c) && c@ == error.code.name(),
        r.latency_ms is None,
        r.account is None,
{
    RuntimePixivAccountReadinessResponse {
        ok: false,
        status: owned(status),
        message: owned(message),
        recommendation: opt_text(recommendation),
        action: next_step,
        error_code: Some(owned(error.code.as_str())),
        latency_ms: None,
        account: None,
    }
}

/// How an account is named: its name when it is not blank, else its uid.
pub open spec fn label_of(user_name: Option<Seq<char>>, user_uid: Seq<char>) -> Seq<char> {
    match user_name {
        Some(n) if trimmed(n).len() > 0 => n,
        _ => "Pixiv UID "@ + user_uid,
    }
}

pub fn account_label(user_name: Option<&str>, user_uid: &str) -> (r: String)
    ensures
        r@ == label_of(
            match user_name {
                Some(n) => Some(n@),
                None => None,
            },
            user_uid@,
        ),
{
    match user_name {
        Some(n) => {
            proof {
                crate::text::lemma_trimmed_empty_iff(n@);
            }
            if !is_blank(n) {
                return owned(n);
            }
        },
        None => {},
    }
    let mut label = owned("Pixiv UID ");
    push_str(&mut label, user_uid);
    label
}

/// An account as shown.
pub fn pixiv_account_response(account: PixivAccountRecord) -> (r: PixivAccountResponse)
    ensures
        r.user_uid == account.user_uid,
        r.user_name == account.user_name,
        r.is_active == account.is_active,
        r.last_verified_at == account.last_verified_at,
        r.created_at == account.created_at,
        r.updated_at == account.updated_at,
{
    PixivAccountResponse {
        user_uid: account.user_uid,
        user_name: account.user_name,
        is_active: account.is_active,
        last_verified_at: account.last_verified_at,
        created_at: account.created_at,
        updated_at: account.updated_at,
    }
}

/// The DeepSeek connection test as shown.
pub fn deepseek_connection_response(status: DeepSeekConnectionStatus) -> (r:
    DeepSeekConnectionTestResponse)
    ensures
        r.configured == status.configured,
        r.status == status.status,
        r.model == status.model,
{
    DeepSeekConnectionTestResponse {
        configured: status.configured,
        status: status.status,
        model: status.model,
    }
}

/// The backend check: storage prepared and the database opened, or not.
pub fn backend_check(prepared: Result<(), AppError>) -> (r: RuntimeReadinessCheckResponse)
    ensures
        r.ok == prepared is Ok,
        prepared is Ok ==> r.status@ == "ok"@,
        prepared is Err ==> r.status@ == "failed"@,
{
    match prepared {
        Ok(()) => ok_check("ok", "Backend is ready."),
        Err(error) => error_check(
            "failed",
            "Backend storage is not ready.",
            Some("Check the local database path and app logs, then restart Pixiv Platform."),
            Some(action("Open Settings", Some("/settings"), None)),
            error,
        ),
    }
}

/// The network check: Pixiv answered after `latency_ms`, or was unreachable.
pub fn pixiv_network_check(probe: Result<u128, AppError>) -> (r: RuntimeReadinessCheckResponse)
    ensures
        r.ok == probe is Ok,
        probe matches Ok(latency) ==> r.status@ == "ok"@ && r.latency_ms == Some(latency),
        probe is Err ==> r.status@ == "unreachable"@,
{
    match probe {
        Ok(latency) => {
            let mut check = ok_check("ok", "Pixiv network is reachable.");
            check.latency_ms = Some(latency);
            check
        },
        Err(error) => error_check(
            "unreachable",
            "Pixiv network is unreachable.",
            Some("Network unreachable. Please enable TUN mode and retry."),
            Some(action("Retry", None, Some("retry"))),
            error,
        ),
    }
}

/// The account check when no cookie is configured: `missing`, showing the
/// active saved account if there is one.
pub fn account_missing_check(active: Option<PixivAccountRecord>) -> (r:
    RuntimePixivAccountReadinessResponse)
    ensures
        !r.ok,
        r.status@ == "missing"@,
        r.error_code matches Some(c) && c@ == ErrorCode::MissingPixivCookie.name(),
        r.message@ == "Pixiv cookie is not connected."@,
        match active {
            Some(a) => r.account matches Some(x) && x.user_uid == a.user_uid && x.user_name
                == a.user_name && x.is_active == a.is_active,
            None => r.account is None,
        },
{
    RuntimePixivAccountReadinessResponse {
        ok: false,
        status: owned("missing"),
        message: owned("Pixiv cookie is not connected."),
        recommendation: Some(owned("Bind Pixiv from Home or Settings to enable downloads.")),
        action: Some(action("Bind Pixiv", None, Some("bind_pixiv"))),
        error_code: Some(owned(ErrorCode::MissingPixivCookie.as_str())),
        latency_ms: None,
        account: match active {
            Some(account) => Some(pixiv_account_response(account)),
            None => None,
        },
    }
}

/// The account check when the cookie could not make a client.
pub fn account_client_error_check(error: AppError) -> (r: RuntimePixivAccountReadinessResponse)
    ensures
        !r.ok,
        r.status@ == "failed"@,
        r.error_code matches Some(c) && c@ == error.code.name(),
        r.account is None,
        r.message@ == "Pixiv cookie could not be used."@,
{
    account_error_check(
        "failed",
        "Pixiv cookie could not be used.",
        Some("Bind Pixiv again or switch to another saved account."),
        Some(action("Bind Pixiv", None, Some("bind_pixiv"))),
        error,
    )
}

/// The account check when Pixiv refused the cookie.
pub fn account_invalid_check(error: AppError) -> (r: RuntimePixivAccountReadinessResponse)
    ensures
        !r.ok,
        r.status@ == "invalid"@,
        r.error_code matches Some(c) && c@ == error.code.name(),
        r.account is None,
        r.message@ == "Pixiv cookie is not connected."@,
{
    account_error_check(
        "invalid",
        "Pixiv cookie is not connected.",
        Some("Bind Pixiv again; if Pixiv cannot load, enable TUN mode first."),
        Some(action("Bind Pixiv", None, Some("bind_pixiv"))),
        error,
    )
}

/// The account check when the account settings could not be read.
pub fn account_settings_error_check(error: AppError) -> (r: RuntimePixivAccountReadinessResponse)
    ensures
        !r.ok,
        r.status@ == "failed"@,
        r.error_code matches Some(c) && c@ == error.code.name(),
        r.account is None,
{
    account_error_check(
        "failed",
        "Pixiv account settings could not be read.",
        Some("Open Settings and save the Pixiv cookie again."),
        Some(action("Open Settings", Some("/settings"), None)),
        error,
    )
}

/// The account and DeepSeek checks when storage is unavailable.
pub fn storage_unavailable_checks(error: AppError) -> (r: (
    RuntimePixivAccountReadinessResponse,
    RuntimeReadinessCheckResponse,
))
    ensures
        !r.0.ok && r.0.status@ == "unknown"@,
        !r.1.ok && r.1.status@ == "unknown"@,
{
    let account = account_error_check(
        "unknown",
        "Pixiv account status could not be checked.",
        Some("Backend storage is unavailable. Restart the app and check logs."),
        None,
        error.duplicate(),
    );
    let deepseek = error_check(
        "unknown",
        "DeepSeek status could not be checked.",
        Some("Backend storage is unavailable. Restart the app and check logs."),
        None,
        error,
    );
    (account, deepseek)
}

/// The account check once Pixiv confirmed the cookie's user: the account is
/// saved as the active one, its uid and label are recorded in the settings,
/// and the check is `bound`.
pub fn account_bound_check(
    conn: &rusqlite::Connection,
    user_uid: &str,
    user_name: Option<&str>,
    cookie: &str,
) -> (r: RuntimePixivAccountReadinessResponse)
    ensures
        r.ok,
        r.status@ == "bound"@,
        r.error_code is None,
        // The message names the saved account by its label; when saving failed no
        // account is shown.
        match r.account {
            Some(a) => a.user_uid@ == crate::text::trimmed(user_uid@) && r.message@ == "Pixiv account is bound as "@
                + label_of(
                match a.user_name {
                    Some(n) => Some(n@),
                    None => None,
                },
                a.user_uid@,
            ) + "."@,
            None => r.message@ == "Pixiv account is bound."@,
        },
{
    let saved = PixivAccountRepository::new(conn).upsert_active(user_uid, user_name, cookie);
    let account = match saved {
        Ok(account) => {
            let settings = SettingsRepository::new(conn);
            let mut uid_json = String::new();
            push_quoted(&mut uid_json, account.user_uid.as_str());
            let _ = settings.upsert("pixiv_active_account_uid", uid_json.as_str(), false);
            let name: Option<&str> = match &account.user_name {
                Some(n) => Some(n.as_str()),
                None => None,
            };
            let label = account_label(name, account.user_uid.as_str());
            let mut label_json = String::new();
            push_quoted(&mut label_json, label.as_str());
            let _ = settings.upsert("pixiv_active_account_name", label_json.as_str(), false);
            Some(pixiv_account_response(account))
        },
        Err(_) => None,
    };
    let message = match &account {
        Some(shown) => {
            let name: Option<&str> = match &shown.user_name {
                Some(n) => Some(n.as_str()),
                None => None,
            };
            let label = account_label(name, shown.user_uid.as_str());
            let mut text = owned("Pixiv account is bound as ");
            push_str(&mut text, label.as_str());
            push_str(&mut text, ".");
            text
        },
        None => owned("Pixiv account is bound."),
    };
    RuntimePixivAccountReadinessResponse {
        ok: true,
        status: owned("bound"),
        message,
        recommendation: None,
        action: Some(action("Switch Account", Some("/settings"), None)),
        error_code: None,
        latency_ms: None,
        account,
    }
}

/// The DeepSeek check when it is not configured.
pub fn deepseek_missing_check(error: AppError) -> (r: RuntimeReadinessCheckResponse)
    ensures
        !r.ok,
        r.status@ == "missing"@,
        r.error_code matches Some(c) && c@ == error.code.name(),
{
    error_check(
        "missing",
        "DeepSeek is not configured.",
        Some("Add a DeepSeek API key in Settings to enable smart retrieval."),
        Some(action("Open Settings", Some("/settings"), None)),
        error,
    )
}

/// The DeepSeek check after testing the connection with `model`: passing
/// exactly when the model is listed.
pub fn deepseek_tested_check(model: &str, tested: Result<DeepSeekConnectionStatus, AppError>) -> (r:
    RuntimeReadinessCheckResponse)
    ensures
        tested matches Ok(s) ==> r.ok == (s.status@ == "ok"@) && r.status@ == s.status@,
        tested matches Ok(s) ==> r.error_code is None,
        tested matches Err(e) ==> !r.ok && r.status@ == "failed"@ && (r.error_code matches Some(
            c,
        ) && c@ == e.code.name()),
{
    match tested {
        Ok(status) => {
            proof {
                reveal_strlit("ok");
            }
            let ok = str_equals(status.status.as_str(), "ok");
            let mut message = owned(if ok {
                "DeepSeek model "
            } else {
                "DeepSeek responded, but model "
            });
            push_str(&mut message, status.model.as_str());
            push_str(&mut message, if ok {
                " is reachable."
            } else {
                " was not listed."
            });
            RuntimeReadinessCheckResponse {
                ok,
                status: status.status,
                message,
                recommendation: None,
                action: Some(action("Open Settings", Some("/settings"), None)),
                error_code: None,
                latency_ms: None,
            }
        },
        Err(error) => {
            let mut message = owned("DeepSeek model ");
            push_str(&mut message, model);
            push_str(&mut message, " could not be reached.");
            error_check(
                "failed",
                message.as_str(),
                Some("Check the DeepSeek key, base URL, model, and network in Settings."),
                Some(action("Open Settings", Some("/settings"), None)),
                error,
            )
        },
    }
}

/// What probing a configured Pixiv cookie gave.
pub enum AccountProbe {
    /// No Pixiv client could be made from the cookie.
    ClientFailed(AppError),
    /// Pixiv did not confirm whose cookie it is.
    ProfileFailed(AppError),
    /// Pixiv confirmed the cookie belongs to this user.
    Profile { user_uid: String, user_name: Option<String> },
}

/// The status the account check reports for a cookie and its probe
/// (`None`: no cookie is configured).
pub open spec fn account_status(cookie_probe: Option<(String, AccountProbe)>) -> Seq<char> {
    match cookie_probe {
        None => "missing"@,
        Some((_, AccountProbe::ClientFailed(_))) => "failed"@,
        Some((_, AccountProbe::ProfileFailed(_))) => "invalid"@,
        Some((_, AccountProbe::Profile { .. })) => "bound"@,
    }
}

/// The error a failing account check reports, if any.
pub open spec fn account_error(cookie_probe: Option<(String, AccountProbe)>) -> Option<ErrorCode> {
    match cookie_probe {
        None => Some(ErrorCode::MissingPixivCookie),
        Some((_, AccountProbe::ClientFailed(e))) => Some(e.code),
        Some((_, AccountProbe::ProfileFailed(e))) => Some(e.code),
        Some((_, AccountProbe::Profile { .. })) => None,
    }
}

/// The Pixiv account check: `missing` without a cookie, else what the probe
/// of the cookie shows; a confirmed cookie is saved as the active account.
pub fn resolve_pixiv_account_readiness(
    conn: &rusqlite::Connection,
    cookie_probe: Option<(String, AccountProbe)>,
) -> (r: RuntimePixivAccountReadinessResponse)
    ensures
        r.ok == (cookie_probe matches Some((_, AccountProbe::Profile { .. }))),
        r.status@ == account_status(cookie_probe),
        match account_error(cookie_probe) {
            Some(code) => r.error_code matches Some(c) && c@ == code.name(),
            None => r.error_code is None,
        },
        match cookie_probe {
            None => r.message@ == "Pixiv cookie is not connected."@,
            Some((_, AccountProbe::ClientFailed(_))) => r.message@ == "Pixiv cookie could not be used."@
                && r.account is None,
            Some((_, AccountProbe::ProfileFailed(_))) => r.message@ == "Pixiv cookie is not connected."@
                && r.account is None,
            Some((_, AccountProbe::Profile { user_uid, .. })) => r.account matches Some(a) ==> a.user_uid@
                == crate::text::trimmed(user_uid@),
        },
{
    proof {
        reveal_strlit("missing");
        reveal_strlit("failed");
        reveal_strlit("invalid");
        reveal_strlit("bound");
    }
    match cookie_probe {
        None => {
            let active = match PixivAccountRepository::new(conn).get_active_public() {
                Ok(found) => found,
                Err(_) => None,
            };
            account_missing_check(active)
        },
        Some((cookie, probe)) => match probe {
            AccountProbe::ClientFailed(error) => account_client_error_check(error),
            AccountProbe::ProfileFailed(error) => account_invalid_check(error),
            AccountProbe::Profile { user_uid, user_name } => {
                let name: Option<&str> = match &user_name {
                    Some(n) => Some(n.as_str()),
                    None => None,
                };
                account_bound_check(conn, user_uid.as_str(), name, cookie.as_str())
            },
        },
    }
}

/// The DeepSeek check: `missing` when no configuration could be resolved,
/// else what testing the connection with the configured model gave.
pub fn resolve_deepseek_readiness(
    configured: Result<(String, Result<DeepSeekConnectionStatus, AppError>), AppError>,
) -> (r: RuntimeReadinessCheckResponse)
    ensures
        configured matches Err(e) ==> !r.ok && r.status@ == "missing"@ && (r.error_code matches Some(
            c,
        ) && c@ == e.code.name()),
        configured matches Ok((_, Ok(s))) ==> r.ok == (s.status@ == "ok"@) && r.status@ == s.status@
            && r.error_code is None,
        configured matches Ok((_, Err(e))) ==> !r.ok && r.status@ == "failed"@ && (
        r.error_code matches Some(c) && c@ == e.code.name()),
{
    match configured {
        Err(error) => deepseek_missing_check(error),
        Ok((model, tested)) => deepseek_tested_check(model.as_str(), tested),
    }
}

/// The whole readiness report from the outcomes of its probes: the backend
/// storage, the Pixiv network (its latency), and, when the database could be
/// opened, the account and DeepSeek checks made from it.
pub fn runtime_readiness(
    backend_prepared: Result<(), AppError>,
    network: Result<u128, AppError>,
    services: Result<(RuntimePixivAccountReadinessResponse, RuntimeReadinessCheckResponse), AppError>,
) -> (r: RuntimeReadinessResponse)
    ensures
        r.backend.ok == backend_prepared is Ok,
        r.pixiv_network.ok == network is Ok,
        network matches Ok(latency) ==> r.pixiv_network.latency_ms == Some(latency),
        services matches Ok((account, deepseek)) ==> r.pixiv_account == account && r.deepseek
            == deepseek,
        services is Err ==> !r.pixiv_account.ok && r.pixiv_account.status@ == "unknown"@
            && !r.deepseek.ok && r.deepseek.status@ == "unknown"@,
{
    let backend = backend_check(backend_prepared);
    let pixiv_network = pixiv_network_check(network);
    let (pixiv_account, deepseek) = match services {
        Ok(checks) => checks,
        Err(error) => storage_unavailable_checks(error),
    };
    RuntimeReadinessResponse { backend, pixiv_network, pixiv_account, deepseek }
}

} // verus!
