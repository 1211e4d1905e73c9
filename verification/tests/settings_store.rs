use pixiv_platform_backend::runtime::{count_from_setting, policy_from_setting};
use pixiv_platform_backend::domain::R18Policy;
use pixiv_platform_backend::runtime::download_root_from_setting;
use pixiv_platform_backend::db::open_in_memory;
use pixiv_platform_backend::errors::ErrorCode;
use pixiv_platform_backend::settings::{mask_setting, SettingValue, SettingsRepository};

#[test]
fn req_sec_001_settings_repository_masks_secret_values() {
    let conn = open_in_memory().unwrap();
    let repo = SettingsRepository::new(&conn);

    repo.upsert("pixiv_cookie", "\"placeholder-runtime-value\"", true).unwrap();

    let raw = repo.get_raw("pixiv_cookie").unwrap().unwrap();
    let public = repo.get_public("pixiv_cookie").unwrap().unwrap();

    assert_eq!(raw.value_json, "\"placeholder-runtime-value\"");
    assert_eq!(public.value_json, "\"***\"");
    assert!(public.is_secret);
}

#[test]
fn req_cfg_006_settings_repository_reads_default_theme_publicly() {
    let conn = open_in_memory().unwrap();
    let repo = SettingsRepository::new(&conn);

    let theme = repo.get_public("theme_id").unwrap().unwrap();

    assert_eq!(theme.value_json, "\"cyan-studio\"");
    assert!(!theme.is_secret);
}

#[test]
fn req_cfg_001_settings_repository_upserts_existing_value() {
    let conn = open_in_memory().unwrap();
    let repo = SettingsRepository::new(&conn);

    repo.upsert("download_base_path", "\"/tmp/one\"", false).unwrap();
    repo.upsert("download_base_path", "\"/tmp/two\"", false).unwrap();

    let value = repo.get_raw("download_base_path").unwrap().unwrap();
    assert_eq!(value.value_json, "\"/tmp/two\"");
}

#[test]
fn req_sec_001_settings_repository_masks_secrets_in_public_list() {
    let conn = open_in_memory().unwrap();
    let repo = SettingsRepository::new(&conn);
    repo.upsert("deepseek_api_key", "\"placeholder-runtime-value\"", true).unwrap();

    let public = repo.list_public().unwrap();
    let api_key = public.iter().find(|setting| setting.key == "deepseek_api_key").unwrap();

    assert_eq!(api_key.value_json, "\"***\"");
}

#[test]
fn req_ui_004_settings_repository_lists_missing_known_secret_settings() {
    let conn = open_in_memory().unwrap();
    let repo = SettingsRepository::new(&conn);

    let public = repo.list_public().unwrap();
    let pixiv_cookie = public.iter().find(|setting| setting.key == "pixiv_cookie").unwrap();
    let deepseek_key = public.iter().find(|setting| setting.key == "deepseek_api_key").unwrap();

    assert_eq!(pixiv_cookie.value_json, "\"***\"");
    assert!(pixiv_cookie.is_secret);
    assert_eq!(deepseek_key.value_json, "\"***\"");
    assert!(deepseek_key.is_secret);
}

#[test]
fn req_cfg_003_settings_repository_reads_default_deepseek_model_publicly() {
    let conn = open_in_memory().unwrap();
    let repo = SettingsRepository::new(&conn);

    let settings = repo.list_public().unwrap();
    let model = settings.iter().find(|setting| setting.key == "deepseek_model").unwrap();

    assert_eq!(model.value_json, "\"deepseek-v4-flash\"");
    assert!(!model.is_secret);
}

#[test]
fn req_cfg_001_req_sec_001_settings_repository_saves_known_values_and_masks_secret() {
    let conn = open_in_memory().unwrap();
    let repo = SettingsRepository::new(&conn);

    let theme = repo.upsert_known_json("theme_id", "\"cyan-studio\"").unwrap();
    let cookie = repo.upsert_known_json("pixiv_cookie", "\"placeholder-runtime-value\"").unwrap();
    let retained = repo.upsert_known_json("pixiv_cookie", "\"***\"").unwrap();

    assert_eq!(theme.value_json, "\"cyan-studio\"");
    assert_eq!(cookie.value_json, "\"***\"");
    assert_eq!(retained.value_json, "\"***\"");
    assert_eq!(
        repo.get_raw("pixiv_cookie").unwrap().unwrap().value_json,
        "\"placeholder-runtime-value\""
    );
}

#[test]
fn req_cfg_001_settings_repository_rejects_unknown_or_invalid_values() {
    let conn = open_in_memory().unwrap();
    let repo = SettingsRepository::new(&conn);

    assert!(repo.upsert_known_json("unknown", "\"value\"").is_err());
    assert!(repo.upsert_known_json("r18_policy", "\"bad-policy\"").is_err());
    assert!(repo.upsert_known_json("theme_id", "\"bad-theme\"").is_err());
    assert!(repo.upsert_known_json("theme_id", "\"sakura-light\"").is_ok());
    assert!(repo.upsert_known_json("max_request_count", "0").is_err());
    assert!(repo.upsert_known_json("download_base_path", "\"relative/path\"").is_err());
    assert!(repo.upsert_known_json("download_base_path", "\"~/Downloads/Pixiv Platform\"").is_ok());
}

#[test]
fn public_list_is_sorted_and_complete() {
    let conn = open_in_memory().unwrap();
    let repo = SettingsRepository::new(&conn);
    repo.upsert("zzz_extra", "1", false).unwrap();

    let public = repo.list_public().unwrap();
    let keys: Vec<&str> = public.iter().map(|setting| setting.key.as_str()).collect();
    let mut sorted = keys.clone();
    sorted.sort();
    assert_eq!(keys, sorted);
    for key in [
        "download_base_path",
        "deepseek_base_url",
        "deepseek_model",
        "default_batch_count",
        "max_request_count",
        "r18_policy",
        "theme_id",
        "pixiv_cookie",
        "deepseek_api_key",
        "zzz_extra",
    ] {
        assert!(keys.contains(&key), "{key} missing");
    }
}

#[test]
fn masked_secret_cannot_create_a_setting() {
    let conn = open_in_memory().unwrap();
    let repo = SettingsRepository::new(&conn);
    let error = repo.upsert_known_json("deepseek_api_key", "\"***\"").unwrap_err();
    assert_eq!(error.message, "masked secret cannot create a new setting");
}

#[test]
fn setting_errors_name_the_key() {
    let conn = open_in_memory().unwrap();
    let repo = SettingsRepository::new(&conn);
    let error = repo.upsert_known_json("default_batch_count", "\"ten\"").unwrap_err();
    assert_eq!(error.code, ErrorCode::ValidationError);
    assert_eq!(error.message, "default_batch_count must be a number");
    let error = repo.upsert_known_json("default_batch_count", "501").unwrap_err();
    assert_eq!(error.message, "default_batch_count must be between 1 and 500");
    let error = repo.upsert_known_json("unknown", "1").unwrap_err();
    assert_eq!(error.message, "unknown setting key: unknown");
    let error = repo.upsert_known_json("deepseek_model", "\"  \"").unwrap_err();
    assert_eq!(error.message, "deepseek_model cannot be empty");
    let error = repo.upsert_known_json("download_base_path", "\"/a\\u0000b\"").unwrap_err();
    assert_eq!(error.message, "download_base_path cannot contain NUL bytes");
}

#[test]
fn masking_only_touches_secrets() {
    let plain = mask_setting(SettingValue {
        key: "theme_id".to_owned(),
        value_json: "\"cyan-studio\"".to_owned(),
        is_secret: false,
        updated_at: "t".to_owned(),
    });
    assert_eq!(plain.value_json, "\"cyan-studio\"");
    let secret = mask_setting(SettingValue {
        key: "pixiv_cookie".to_owned(),
        value_json: "\"abc\"".to_owned(),
        is_secret: true,
        updated_at: "t".to_owned(),
    });
    assert_eq!(secret.value_json, "\"***\"");
}

#[test]
fn stored_download_root_expands_or_falls_back() {
    assert_eq!(download_root_from_setting(None, "/fallback", Some("/home/u")).unwrap(), "/fallback");
    assert_eq!(
        download_root_from_setting(Some("\"~/Downloads/Pixiv Platform\""), "/fallback", Some("/home/u")).unwrap(),
        "/fallback"
    );
    assert_eq!(
        download_root_from_setting(Some("\" ~/pics \""), "/fallback", Some("/home/u")).unwrap(),
        "/home/u/pics"
    );
    let relative = download_root_from_setting(Some("\"pics\""), "/fallback", None).unwrap_err();
    assert_eq!(relative.message, "download_base_path must be absolute or start with ~");
    let not_text = download_root_from_setting(Some("42"), "/fallback", None).unwrap_err();
    assert_eq!(not_text.message, "download_base_path must be stored as a JSON string");
}

#[test]
fn stored_counts_and_policies_are_read_or_refused() {
    assert_eq!(count_from_setting(None, "default_batch_count", 20).unwrap(), 20);
    assert_eq!(count_from_setting(Some("7"), "default_batch_count", 20).unwrap(), 7);
    assert_eq!(
        count_from_setting(Some("\"7\""), "default_batch_count", 20).unwrap_err().message,
        "default_batch_count must be stored as a JSON number"
    );
    assert_eq!(
        count_from_setting(Some("4294967296"), "max_request_count", 1).unwrap_err().message,
        "max_request_count is too large"
    );
    assert_eq!(policy_from_setting(Some("\"only_r18\""), R18Policy::Exclude).unwrap(), R18Policy::OnlyR18);
    assert_eq!(policy_from_setting(None, R18Policy::Exclude).unwrap(), R18Policy::Exclude);
    assert_eq!(policy_from_setting(Some("\"sometimes\""), R18Policy::Exclude).unwrap_err().message, "r18_policy is invalid");
}
