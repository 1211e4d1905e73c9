use pixiv_platform_backend::ai::DeepSeekConnectionStatus;
use pixiv_platform_backend::db::open_in_memory;
use pixiv_platform_backend::errors::{AppError, ErrorCode};
use pixiv_platform_backend::readiness::{
    resolve_deepseek_readiness, resolve_pixiv_account_readiness, runtime_readiness, AccountProbe,
};
use pixiv_platform_backend::settings::SettingsRepository;

fn status(status: &str) -> DeepSeekConnectionStatus {
    DeepSeekConnectionStatus { configured: true, status: status.to_owned(), model: "deepseek-v4-flash".to_owned() }
}

#[test]
fn account_without_cookie_is_missing() {
    let conn = open_in_memory().unwrap();
    let check = resolve_pixiv_account_readiness(&conn, None);
    assert!(!check.ok);
    assert_eq!(check.status, "missing");
    assert_eq!(check.error_code.as_deref(), Some("MISSING_PIXIV_COOKIE"));
}

#[test]
fn account_probe_outcomes_give_their_statuses() {
    let conn = open_in_memory().unwrap();
    let client = resolve_pixiv_account_readiness(
        &conn,
        Some(("cookie".to_owned(), AccountProbe::ClientFailed(AppError::validation("bad header")))),
    );
    assert_eq!(client.status, "failed");
    assert_eq!(client.error_code.as_deref(), Some("VALIDATION_ERROR"));

    let invalid = resolve_pixiv_account_readiness(
        &conn,
        Some((
            "cookie".to_owned(),
            AccountProbe::ProfileFailed(AppError::new(ErrorCode::PixivAuthFailed, "no")),
        )),
    );
    assert_eq!(invalid.status, "invalid");
    assert_eq!(invalid.error_code.as_deref(), Some("PIXIV_AUTH_FAILED"));
}

#[test]
fn confirmed_cookie_binds_the_account() {
    let conn = open_in_memory().unwrap();
    let bound = resolve_pixiv_account_readiness(
        &conn,
        Some((
            "cookie".to_owned(),
            AccountProbe::Profile { user_uid: "4242".to_owned(), user_name: Some("Ann".to_owned()) },
        )),
    );
    assert!(bound.ok);
    assert_eq!(bound.status, "bound");
    assert_eq!(bound.message, "Pixiv account is bound as Ann.");
    assert!(bound.error_code.is_none());
    let settings = SettingsRepository::new(&conn);
    assert_eq!(settings.get_raw("pixiv_active_account_uid").unwrap().unwrap().value_json, "\"4242\"");
}

#[test]
fn deepseek_readiness_follows_configuration_and_test() {
    let missing = resolve_deepseek_readiness(Err(AppError::new(ErrorCode::AiConfigMissing, "no key")));
    assert_eq!(missing.status, "missing");
    assert_eq!(missing.error_code.as_deref(), Some("AI_CONFIG_MISSING"));

    let listed = resolve_deepseek_readiness(Ok(("deepseek-v4-flash".to_owned(), Ok(status("ok")))));
    assert!(listed.ok);
    assert_eq!(listed.message, "DeepSeek model deepseek-v4-flash is reachable.");

    let unlisted = resolve_deepseek_readiness(Ok(("deepseek-v4-flash".to_owned(), Ok(status("model_not_listed")))));
    assert!(!unlisted.ok);
    assert_eq!(unlisted.status, "model_not_listed");

    let failed = resolve_deepseek_readiness(Ok((
        "m1".to_owned(),
        Err(AppError::new(ErrorCode::AiParseFailed, "timeout")),
    )));
    assert_eq!(failed.status, "failed");
    assert_eq!(failed.message, "DeepSeek model m1 could not be reached.");
}

#[test]
fn readiness_report_without_storage_marks_services_unknown() {
    let report = runtime_readiness(
        Err(AppError::new(ErrorCode::SqliteError, "locked")),
        Ok(42),
        Err(AppError::new(ErrorCode::SqliteError, "locked")),
    );
    assert!(!report.backend.ok);
    assert_eq!(report.backend.status, "failed");
    assert!(report.pixiv_network.ok);
    assert_eq!(report.pixiv_network.latency_ms, Some(42));
    assert_eq!(report.pixiv_account.status, "unknown");
    assert_eq!(report.deepseek.status, "unknown");
}

#[test]
fn unreachable_network_is_reported() {
    let conn = open_in_memory().unwrap();
    let account = resolve_pixiv_account_readiness(&conn, None);
    let deepseek = resolve_deepseek_readiness(Ok(("m".to_owned(), Ok(status("ok")))));
    let report = runtime_readiness(Ok(()), Err(AppError::new(ErrorCode::PixivNetworkError, "down")), Ok((account, deepseek)));
    assert!(report.backend.ok);
    assert_eq!(report.pixiv_network.status, "unreachable");
    assert_eq!(report.pixiv_account.status, "missing");
    assert!(report.deepseek.ok);
}
