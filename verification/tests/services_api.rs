use pixiv_platform_backend::accounts::PixivAccountRepository;
use pixiv_platform_backend::db::open_in_memory;
use pixiv_platform_backend::domain::{DownloadRequest, ImageCategory, ImageSource, R18Policy, TaskType};
use pixiv_platform_backend::dto::{ImageDeleteItemResponse, ImageListParams, TaskListParams};
use pixiv_platform_backend::errors::{AppError, ErrorCode};
use pixiv_platform_backend::images::{ImageRepository, NewImageRecord};
use pixiv_platform_backend::services::{
    activate_pixiv_account, checked_image_id, delete_batch_response, delete_pixiv_account,
    image_details, list_images_page, list_pixiv_accounts, list_settings, list_tasks_page,
    pixiv_client_cookie, pixiv_connection_test_response, remember_verified_profile,
    requested_test_work, task_details, update_setting,
};
use pixiv_platform_backend::settings::SettingsRepository;
use pixiv_platform_backend::task_runs::{create_author_download_task, create_single_download_task};
use pixiv_platform_backend::tasks::{AuthorDownloadRequest, NewTaskRecord, TaskRepository};

fn task(task_id: &str) -> NewTaskRecord {
    NewTaskRecord {
        task_id: task_id.to_owned(),
        task_type: TaskType::Single,
        request_json: "{}".to_owned(),
        progress_total: Some(1),
    }
}

fn image(image_id: &str, pixiv_id: &str) -> NewImageRecord {
    NewImageRecord {
        image_id: image_id.to_owned(),
        pixiv_id: pixiv_id.to_owned(),
        page_index: 0,
        author_uid: Some("999".to_owned()),
        title: Some("title".to_owned()),
        category: ImageCategory::Normal,
        local_path: format!("/srv/{pixiv_id}_p0.png"),
        thumbnail_path: None,
        width: Some(10),
        height: Some(20),
        downloaded_at: "2026-05-21T00:00:00Z".to_owned(),
    }
}

fn deleted_item(image_id: &str, status: &str) -> ImageDeleteItemResponse {
    ImageDeleteItemResponse {
        image_id: image_id.to_owned(),
        status: status.to_owned(),
        pixiv_id: None,
        page_index: None,
        file_deleted: false,
        file_missing: false,
        error_code: None,
        error_message: None,
    }
}

#[test]
fn task_list_pages_and_gives_the_next_cursor() {
    let conn = open_in_memory().unwrap();
    let repo = TaskRepository::new(&conn);
    repo.insert_task(&task("task-1")).unwrap();
    repo.insert_task(&task("task-2")).unwrap();

    let first = list_tasks_page(
        &conn,
        TaskListParams { status: None, task_type: None, limit: Some(1), cursor: None },
    )
    .unwrap();
    assert_eq!(first.items.len(), 1);
    assert_eq!(first.next_cursor.as_deref(), Some("1"));

    let second = list_tasks_page(
        &conn,
        TaskListParams { status: None, task_type: None, limit: Some(1), cursor: first.next_cursor },
    )
    .unwrap();
    assert_eq!(second.items.len(), 1);
    assert_ne!(second.items[0].task_id, first.items[0].task_id);
}

#[test]
fn task_list_refuses_an_unknown_status_filter() {
    let conn = open_in_memory().unwrap();
    let error = list_tasks_page(
        &conn,
        TaskListParams { status: Some("sleeping".to_owned()), task_type: None, limit: None, cursor: None },
    )
    .unwrap_err();
    assert_eq!(error.message, "task status filter is invalid");
}

#[test]
fn task_list_refuses_an_unreadable_cursor() {
    let conn = open_in_memory().unwrap();
    let error = list_tasks_page(
        &conn,
        TaskListParams { status: None, task_type: None, limit: None, cursor: Some("abc".to_owned()) },
    )
    .unwrap_err();
    assert_eq!(error.message, "cursor is invalid");
}

#[test]
fn task_details_show_the_task_or_say_it_is_missing() {
    let conn = open_in_memory().unwrap();
    TaskRepository::new(&conn).insert_task(&task("task-1")).unwrap();

    let shown = task_details(&conn, "task-1").unwrap();
    assert_eq!(shown.task_id, "task-1");
    assert_eq!(shown.status, "pending");

    let missing = task_details(&conn, "task-404").unwrap_err();
    assert_eq!(missing.code, ErrorCode::TaskNotFound);
    assert_eq!(missing.message, "task not found");
}

#[test]
fn image_list_and_details_show_stored_images() {
    let conn = open_in_memory().unwrap();
    let repo = ImageRepository::new(&conn);
    repo.insert(&image("image-1", "111")).unwrap();
    repo.replace_tags("image-1", &vec!["cyan".to_owned()]).unwrap();
    repo.add_source("image-1", ImageSource::Single, None).unwrap();

    let list = list_images_page(
        &conn,
        ImageListParams {
            tag: None,
            category: None,
            author_uid: None,
            source: None,
            r18_visibility: None,
            limit: None,
            cursor: None,
        },
    )
    .unwrap();
    assert_eq!(list.items.len(), 1);
    assert_eq!(list.items[0].tags, vec!["cyan".to_owned()]);
    assert!(list.next_cursor.is_none());

    let detail = image_details(&conn, "image-1").unwrap();
    assert_eq!(detail.image_id, "image-1");
    assert_eq!(detail.sources.len(), 1);
    assert_eq!(detail.sources[0].source, "single");

    let missing = image_details(&conn, "image-404").unwrap_err();
    assert_eq!(missing.code, ErrorCode::PixivNotFound);
    assert_eq!(missing.message, "image not found");
}

#[test]
fn image_id_to_delete_is_trimmed_and_not_empty() {
    assert_eq!(checked_image_id("  image-1 ").unwrap(), "image-1");
    let error = checked_image_id("   ").unwrap_err();
    assert_eq!(error.code, ErrorCode::ValidationError);
    assert_eq!(error.message, "image_id cannot be empty");
}

#[test]
fn batch_delete_counts_deleted_and_failed_entries() {
    let batch = delete_batch_response(vec![
        deleted_item("a", "deleted"),
        deleted_item("b", "not_found"),
        deleted_item("c", "deleted"),
        deleted_item("d", "failed"),
    ]);
    assert_eq!(batch.deleted_count, 2);
    assert_eq!(batch.failed_count, 2);
    assert_eq!(batch.items.len(), 4);
}

#[test]
fn settings_list_masks_secrets_and_lists_known_keys() {
    let conn = open_in_memory().unwrap();
    SettingsRepository::new(&conn).upsert("pixiv_cookie", "\"secret-cookie\"", true).unwrap();

    let list = list_settings(&conn).unwrap();
    let cookie = list.items.iter().find(|item| item.key == "pixiv_cookie").unwrap();
    assert_eq!(cookie.value_json, "\"***\"");
    assert!(list.items.iter().any(|item| item.key == "theme_id"));
    let keys: Vec<&str> = list.items.iter().map(|item| item.key.as_str()).collect();
    let mut sorted = keys.clone();
    sorted.sort();
    assert_eq!(keys, sorted);
}

#[test]
fn setting_update_refuses_unknown_keys_and_masks_secrets() {
    let conn = open_in_memory().unwrap();
    let error = update_setting(&conn, "favourite_colour", "\"blue\"").unwrap_err();
    assert_eq!(error.message, "unknown setting key: favourite_colour");

    let stored = update_setting(&conn, "deepseek_api_key", "\"sk-secret\"").unwrap();
    assert!(stored.is_secret);
    assert_eq!(stored.value_json, "\"***\"");
}

#[test]
fn accounts_can_be_listed_activated_and_deleted() {
    let conn = open_in_memory().unwrap();
    let accounts = PixivAccountRepository::new(&conn);
    accounts.upsert_active("111", Some("first"), "cookie-one").unwrap();
    accounts.upsert_active("222", None, "cookie-two").unwrap();

    let list = list_pixiv_accounts(&conn).unwrap();
    assert_eq!(list.items.len(), 2);
    assert_eq!(list.active.as_ref().map(|a| a.user_uid.as_str()), Some("222"));

    let active = activate_pixiv_account(&conn, "111").unwrap();
    assert_eq!(active.user_uid, "111");
    assert!(active.is_active);
    let settings = SettingsRepository::new(&conn);
    assert_eq!(settings.get_raw("pixiv_cookie").unwrap().unwrap().value_json, "\"cookie-one\"");
    assert_eq!(settings.get_raw("pixiv_active_account_name").unwrap().unwrap().value_json, "\"first\"");

    let deleted = delete_pixiv_account(&conn, "111").unwrap();
    assert!(deleted.deleted);
    assert_eq!(settings.get_raw("pixiv_cookie").unwrap().unwrap().value_json, "\"\"");
    assert!(!delete_pixiv_account(&conn, "111").unwrap().deleted);
}

#[test]
fn verified_profile_becomes_the_active_account() {
    let conn = open_in_memory().unwrap();
    remember_verified_profile(&conn, "cookie", "333", None).unwrap();
    let settings = SettingsRepository::new(&conn);
    assert_eq!(settings.get_raw("pixiv_active_account_uid").unwrap().unwrap().value_json, "\"333\"");
    assert_eq!(
        settings.get_raw("pixiv_active_account_name").unwrap().unwrap().value_json,
        "\"Pixiv UID 333\""
    );
    let error = remember_verified_profile(&conn, "cookie", "abc", None).unwrap_err();
    assert_eq!(error.code, ErrorCode::ValidationError);
}

#[test]
fn connection_test_work_id_must_be_digits() {
    assert_eq!(requested_test_work(None).unwrap(), None);
    assert_eq!(requested_test_work(Some("  ".to_owned())).unwrap(), None);
    assert_eq!(requested_test_work(Some("123".to_owned())).unwrap(), Some("123".to_owned()));
    let error = requested_test_work(Some("12a".to_owned())).unwrap_err();
    assert_eq!(error.message, "pixiv_id must contain only digits");
}

#[test]
fn connection_test_answer_reports_the_work_and_the_user() {
    let fetched = pixiv_connection_test_response(
        Some("123".to_owned()),
        Some("A title".to_owned()),
        Some(("999".to_owned(), None)),
    );
    assert_eq!(fetched.status, "ok");
    assert_eq!(fetched.title.as_deref(), Some("A title"));
    assert_eq!(fetched.user_uid.as_deref(), Some("999"));
    assert!(fetched.bound && fetched.configured);

    let configured = pixiv_connection_test_response(None, Some("ignored".to_owned()), None);
    assert_eq!(configured.status, "configured");
    assert!(configured.title.is_none());
    assert!(configured.user_uid.is_none());
}

#[test]
fn client_cookie_comes_from_settings_then_environment() {
    assert_eq!(pixiv_client_cookie(Some("abc".to_owned()), Some("env".to_owned())).unwrap(), "abc");
    assert_eq!(pixiv_client_cookie(None, Some("env".to_owned())).unwrap(), "env");
    let missing = pixiv_client_cookie(None, None).unwrap_err();
    assert_eq!(missing.code, ErrorCode::MissingPixivCookie);
    assert_eq!(missing.message, "Pixiv cookie is required in settings or PIXIV_PHPSESSID");
    let blank = pixiv_client_cookie(Some("  ".to_owned()), None).unwrap_err();
    assert_eq!(blank.message, "PIXIV_PHPSESSID is required");
}

#[test]
fn fresh_tasks_get_local_ids() {
    let conn = open_in_memory().unwrap();
    let request = DownloadRequest {
        pixiv_id: "123456".to_owned(),
        page_index: Some(0),
        source: ImageSource::Single,
        r18_policy: R18Policy::Exclude,
    };
    let task_id = create_single_download_task(&request, &conn, 77).unwrap();
    assert!(task_id.starts_with("task-77-"));
    assert!(TaskRepository::new(&conn).find_task(&task_id).unwrap().is_some());

    let refused = create_author_download_task(
        &AuthorDownloadRequest { author_uid: " ".to_owned(), limit: 1, r18_policy: R18Policy::Exclude },
        &conn,
        77,
    )
    .unwrap_err();
    assert_eq!(refused.code, ErrorCode::ValidationError);
}

#[test]
fn error_codes_map_to_http_statuses() {
    assert_eq!(ErrorCode::ValidationError.http_status(), 400);
    assert_eq!(ErrorCode::MissingPixivCookie.http_status(), 400);
    assert_eq!(ErrorCode::PixivAuthFailed.http_status(), 401);
    assert_eq!(ErrorCode::PixivForbidden.http_status(), 403);
    assert_eq!(ErrorCode::TaskNotFound.http_status(), 404);
    assert_eq!(ErrorCode::PixivRateLimited.http_status(), 429);
    assert_eq!(ErrorCode::PixivParseError.http_status(), 502);
    assert_eq!(ErrorCode::SqliteError.http_status(), 500);
    let error = AppError::new(ErrorCode::PixivNetworkError, "down");
    assert_eq!(error.code.http_status(), 502);
}

#[test]
fn image_list_filters_are_checked_in_order() {
    let params = |category: Option<&str>, source: Option<&str>, visibility: Option<&str>, cursor: Option<&str>| ImageListParams {
        tag: None,
        category: category.map(|c| c.to_owned()),
        author_uid: None,
        source: source.map(|s| s.to_owned()),
        r18_visibility: visibility.map(|v| v.to_owned()),
        limit: None,
        cursor: cursor.map(|c| c.to_owned()),
    };
    let refused = params(Some("gif"), Some("nowhere"), Some("all"), Some("x")).into_repository_query().unwrap_err();
    assert_eq!(refused.message, "image category filter is invalid");
    let refused = params(Some("r18"), Some("nowhere"), Some("all"), Some("x")).into_repository_query().unwrap_err();
    assert_eq!(refused.message, "image source filter is invalid");
    let refused = params(None, Some("author"), Some("all"), Some("x")).into_repository_query().unwrap_err();
    assert_eq!(refused.message, "r18_visibility filter is invalid");
    let refused = params(None, None, Some("only_r18"), Some("x")).into_repository_query().unwrap_err();
    assert_eq!(refused.code, ErrorCode::ValidationError);
    assert_eq!(refused.message, "cursor is invalid");
    let query = params(Some("nsfw"), Some("smart"), None, Some("48")).into_repository_query().unwrap();
    assert_eq!(query.cursor_offset, 48);
    assert_eq!(query.limit, 24);
}
