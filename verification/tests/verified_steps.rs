use pixiv_platform_backend::db::SqlCell;
use pixiv_platform_backend::domain::{ImageCategory, R18Policy, TaskStatus, TaskType};
use pixiv_platform_backend::errors::ErrorCode;
use pixiv_platform_backend::images::{attach_tags, ImageRecord};
use pixiv_platform_backend::settings::listed_settings;
use pixiv_platform_backend::task_runs::{batch_plan, found_task, BatchKind, Discovery};
use pixiv_platform_backend::tasks::TaskRecord;

fn stored_task(task_type: TaskType) -> TaskRecord {
    TaskRecord {
        task_id: "task-1".to_owned(),
        task_type,
        status: TaskStatus::Pending,
        request_json: "{}".to_owned(),
        progress_total: None,
        progress_done: 0,
        progress_failed: 0,
        current_item: None,
        error_code: None,
        error_message: None,
        created_at: "2024-01-01 00:00:00".to_owned(),
        started_at: None,
        finished_at: None,
        updated_at: "2024-01-01 00:00:00".to_owned(),
    }
}

fn image(image_id: &str) -> ImageRecord {
    ImageRecord {
        image_id: image_id.to_owned(),
        pixiv_id: "123".to_owned(),
        page_index: 0,
        author_uid: None,
        title: None,
        category: ImageCategory::Normal,
        local_path: "/tmp/a.png".to_owned(),
        thumbnail_path: None,
        width: None,
        height: None,
        downloaded_at: "t".to_owned(),
        created_at: "t".to_owned(),
        updated_at: "t".to_owned(),
    }
}

#[test]
fn a_missing_task_is_not_found() {
    let error = found_task(None, TaskType::Author, "task is not an author download task").unwrap_err();
    assert_eq!(error.code, ErrorCode::TaskNotFound);
    assert_eq!(error.message, "task not found");
}

#[test]
fn a_task_of_another_type_is_refused_with_the_given_message() {
    let error = found_task(Some(stored_task(TaskType::Single)), TaskType::Author, "not an author task")
        .unwrap_err();
    assert_eq!(error.code, ErrorCode::ValidationError);
    assert_eq!(error.message, "not an author task");
    let task = found_task(Some(stored_task(TaskType::Author)), TaskType::Author, "not an author task").unwrap();
    assert_eq!(task.task_id, "task-1");
}

#[test]
fn an_author_plan_reads_the_stored_request() {
    let (discovery, policy, current) =
        batch_plan(BatchKind::Author, r#"{"author_uid":"9988","limit":2,"r18_policy":"exclude"}"#).unwrap();
    assert_eq!(policy, R18Policy::Exclude);
    assert_eq!(current, "author:9988");
    match discovery {
        Discovery::Author { author_uid, limit } => {
            assert_eq!(author_uid, "9988");
            assert_eq!(limit, 2);
        },
        _ => panic!("expected an author discovery"),
    }
}

#[test]
fn a_plan_from_text_that_is_not_json_is_refused() {
    let error = batch_plan(BatchKind::Bookmark, "not json").unwrap_err();
    assert_eq!(error.code, ErrorCode::ValidationError);
}

#[test]
fn tags_are_attached_to_their_images_in_order() {
    let items = attach_tags(
        vec![image("img-a"), image("img-b")],
        vec![vec!["blue".to_owned()], vec!["red".to_owned(), "sky".to_owned()]],
    );
    assert_eq!(items.len(), 2);
    assert_eq!(items[0].image.image_id, "img-a");
    assert_eq!(items[0].tags, vec!["blue".to_owned()]);
    assert_eq!(items[1].image.image_id, "img-b");
    assert_eq!(items[1].tags, vec!["red".to_owned(), "sky".to_owned()]);
}

#[test]
fn an_empty_store_lists_every_known_setting_with_its_default() {
    let listed = listed_settings(&Vec::new(), &"2024-01-01 00:00:00".to_owned()).unwrap();
    assert_eq!(listed.len(), 9);
    let keys: Vec<&str> = listed.iter().map(|s| s.key.as_str()).collect();
    let mut sorted = keys.clone();
    sorted.sort();
    assert_eq!(keys, sorted);
    let theme = listed.iter().find(|s| s.key == "theme_id").unwrap();
    assert_eq!(theme.value_json, "\"cyan-studio\"");
    assert_eq!(theme.updated_at, "2024-01-01 00:00:00");
    let cookie = listed.iter().find(|s| s.key == "pixiv_cookie").unwrap();
    assert!(cookie.is_secret);
    assert_eq!(cookie.value_json, "\"***\"");
}

#[test]
fn a_stored_setting_is_listed_in_place_of_its_default() {
    let rows = vec![
        vec![
            SqlCell::Text("theme_id".to_owned()),
            SqlCell::Text("\"sakura-light\"".to_owned()),
            SqlCell::Integer(0),
            SqlCell::Text("2023-05-05 10:00:00".to_owned()),
        ],
        vec![
            SqlCell::Text("pixiv_cookie".to_owned()),
            SqlCell::Text("\"PHPSESSID=secret\"".to_owned()),
            SqlCell::Integer(1),
            SqlCell::Text("2023-05-05 10:00:00".to_owned()),
        ],
    ];
    let listed = listed_settings(&rows, &"2024-01-01 00:00:00".to_owned()).unwrap();
    assert_eq!(listed.len(), 9);
    let theme = listed.iter().find(|s| s.key == "theme_id").unwrap();
    assert_eq!(theme.value_json, "\"sakura-light\"");
    assert_eq!(theme.updated_at, "2023-05-05 10:00:00");
    let cookie = listed.iter().find(|s| s.key == "pixiv_cookie").unwrap();
    assert_eq!(cookie.value_json, "\"***\"");
}

#[test]
fn a_row_that_is_not_a_setting_is_refused() {
    let rows = vec![vec![SqlCell::Integer(1)]];
    let error = listed_settings(&rows, &"2024-01-01 00:00:00".to_owned()).unwrap_err();
    assert_eq!(error.code, ErrorCode::SqliteError);
}
