use pixiv_platform_backend::db::open_in_memory;
use pixiv_platform_backend::domain::TaskType;
use pixiv_platform_backend::dto::{
    AuthorDownloadApiRequest, BookmarkDownloadApiRequest, SingleDownloadRequest, SmartParseApiRequest,
};
use pixiv_platform_backend::errors::{AppError, ErrorCode};
use pixiv_platform_backend::runtime::resolve_deepseek_config;
use pixiv_platform_backend::services::{list_settings, pixiv_client_cookie, task_details, update_setting};
use pixiv_platform_backend::settings::SettingsRepository;
use pixiv_platform_backend::tasks::{NewTaskItemRecord, NewTaskLogRecord, NewTaskRecord, TaskRepository};
use pixiv_platform_backend::domain::{TaskItemStatus, TaskLogLevel};

#[test]
fn single_download_request_with_a_non_numeric_id_is_a_bad_request() {
    let error = SingleDownloadRequest { pixiv_id: "abc".to_owned(), page_index: None, r18_policy: None }
        .into_domain_request()
        .unwrap_err();
    assert_eq!(error.code.as_str(), "VALIDATION_ERROR");
    assert_eq!(error.code.http_status(), 400);
}

#[test]
fn author_limit_above_max_request_count_is_refused() {
    let conn = open_in_memory().unwrap();
    SettingsRepository::new(&conn).upsert("max_request_count", "1", false).unwrap();
    let error = AuthorDownloadApiRequest {
        author_uid: "9988".to_owned(),
        limit: Some(2),
        r18_policy: Some("exclude".to_owned()),
    }
    .into_author_request(&conn)
    .unwrap_err();
    assert_eq!(error.code, ErrorCode::ValidationError);
    assert!(error.message.contains("max_request_count"));
}

#[test]
fn bookmark_limit_above_max_request_count_is_refused() {
    let conn = open_in_memory().unwrap();
    SettingsRepository::new(&conn).upsert("max_request_count", "1", false).unwrap();
    let error = BookmarkDownloadApiRequest { limit: Some(2), r18_policy: Some("exclude".to_owned()) }
        .into_bookmark_request(&conn)
        .unwrap_err();
    assert_eq!(error.code, ErrorCode::ValidationError);
    assert!(error.message.contains("max_request_count"));
}

#[test]
fn author_request_uses_the_default_batch_count() {
    let conn = open_in_memory().unwrap();
    SettingsRepository::new(&conn).upsert("default_batch_count", "1", false).unwrap();
    let request = AuthorDownloadApiRequest { author_uid: "9988".to_owned(), limit: None, r18_policy: None }
        .into_author_request(&conn)
        .unwrap();
    assert_eq!(request.limit, 1);
    assert_eq!(request.author_uid, "9988");
}

#[test]
fn smart_parse_count_above_max_request_count_is_refused() {
    let conn = open_in_memory().unwrap();
    SettingsRepository::new(&conn).upsert("max_request_count", "5", false).unwrap();
    let error = SmartParseApiRequest { prompt: "blue hair".to_owned(), count: Some(6), r18_policy: None }
        .into_smart_parse_input(&conn)
        .unwrap_err();
    assert_eq!(error.code, ErrorCode::ValidationError);
    assert!(error.message.contains("max_request_count"));
}

#[test]
fn smart_parse_needs_a_deepseek_key() {
    let conn = open_in_memory().unwrap();
    let error = resolve_deepseek_config(&SettingsRepository::new(&conn), None).unwrap_err();
    assert_eq!(error.code.as_str(), "AI_CONFIG_MISSING");
    assert_eq!(error.code.http_status(), 400);
    let configured = resolve_deepseek_config(&SettingsRepository::new(&conn), Some("sk-env".to_owned())).unwrap();
    assert_eq!(configured.api_key, "sk-env");
    assert_eq!(configured.base_url, "https://api.deepseek.com");
    assert_eq!(configured.model, "deepseek-v4-flash");
}

#[test]
fn downloads_need_a_pixiv_cookie_before_they_are_queued() {
    let error: AppError = pixiv_client_cookie(None, None).unwrap_err();
    assert_eq!(error.code.as_str(), "MISSING_PIXIV_COOKIE");
    assert_eq!(error.code.http_status(), 400);
}

#[test]
fn settings_are_listed_masked_and_saved_from_json() {
    let conn = open_in_memory().unwrap();
    SettingsRepository::new(&conn).upsert("deepseek_api_key", "\"placeholder-runtime-value\"", true).unwrap();
    let list = list_settings(&conn).unwrap();
    let key = list.items.iter().find(|setting| setting.key == "deepseek_api_key").unwrap();
    assert_eq!(key.value_json, "\"***\"");

    let saved = update_setting(&conn, "r18_policy", "\"include_blurred\"").unwrap();
    assert_eq!(saved.value_json, "\"include_blurred\"");
    let refused = update_setting(&conn, "r18_policy", "\"sometimes\"").unwrap_err();
    assert_eq!(refused.code, ErrorCode::ValidationError);
}

#[test]
fn task_details_carry_items_and_logs() {
    let conn = open_in_memory().unwrap();
    let repo = TaskRepository::new(&conn);
    repo.insert_task(&NewTaskRecord {
        task_id: "task-1".to_owned(),
        task_type: TaskType::Single,
        request_json: "{}".to_owned(),
        progress_total: Some(1),
    })
    .unwrap();
    repo.insert_item(&NewTaskItemRecord {
        item_id: "task-1:item:0".to_owned(),
        task_id: "task-1".to_owned(),
        pixiv_id: Some("123456".to_owned()),
        page_index: Some(0),
        status: TaskItemStatus::Discovered,
    })
    .unwrap();
    repo.add_log(&NewTaskLogRecord {
        log_id: "log-1".to_owned(),
        task_id: "task-1".to_owned(),
        level: TaskLogLevel::Info,
        phase: "validate_request".to_owned(),
        message: "Task created".to_owned(),
        context_json: Some("{\"page\":0}".to_owned()),
    })
    .unwrap();

    let task = task_details(&conn, "task-1").unwrap();
    assert_eq!(task.task_type, "single");
    assert_eq!(task.items.len(), 1);
    assert_eq!(task.items[0].status, "discovered");
    assert_eq!(task.logs.len(), 1);
    assert_eq!(task.logs[0].phase, "validate_request");
    assert_eq!(task.logs[0].context_json.as_deref(), Some("{\"page\":0}"));
}

#[test]
fn error_display_text_is_code_then_message() {
    let error = AppError::new(ErrorCode::PixivNotFound, "Pixiv work 1 not found");
    assert_eq!(error.to_display_string(), "PIXIV_NOT_FOUND: Pixiv work 1 not found");
}
