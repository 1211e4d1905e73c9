use std::cell::RefCell;
use std::collections::HashMap;

use pixiv_platform_backend::domain::{PixivWork, PixivWorkRef, R18Policy};
use pixiv_platform_backend::errors::{AppError, ErrorCode};
use pixiv_platform_backend::pixiv::PixivClient;

#[derive(Default)]
struct MockPixivClient {
    works: HashMap<String, PixivWork>,
    images: HashMap<String, Vec<u8>>,
    author_works: HashMap<String, Vec<PixivWorkRef>>,
    bookmarks: Vec<PixivWorkRef>,
    tag_searches: HashMap<String, Vec<PixivWorkRef>>,
}

#[allow(dead_code)]
impl MockPixivClient {
    fn with_work(mut self, work: PixivWork) -> Self {
        self.works.insert(work.pixiv_id.clone(), work);
        self
    }

    fn with_image(mut self, url: &str, bytes: Vec<u8>) -> Self {
        self.images.insert(url.to_owned(), bytes);
        self
    }

    fn with_author_works(mut self, author_uid: &str, works: Vec<PixivWorkRef>) -> Self {
        self.author_works.insert(author_uid.to_owned(), works);
        self
    }

    fn with_bookmarks(mut self, works: Vec<PixivWorkRef>) -> Self {
        self.bookmarks = works;
        self
    }

    fn with_tag_search(mut self, tags: Vec<String>, works: Vec<PixivWorkRef>) -> Self {
        self.tag_searches.insert(tags.join("\n"), works);
        self
    }
}

impl PixivClient for MockPixivClient {
    fn fetch_work(&self, pixiv_id: &str) -> Result<PixivWork, AppError> {
        self.works.get(pixiv_id).cloned().ok_or_else(|| {
            AppError::new(ErrorCode::PixivNotFound, &format!("Pixiv work {pixiv_id} not found"))
        })
    }

    fn fetch_author_works(&self, author_uid: &str, limit: u32) -> Result<Vec<PixivWorkRef>, AppError> {
        let works = self.author_works.get(author_uid).cloned().ok_or_else(|| {
            AppError::new(ErrorCode::PixivNotFound, &format!("Pixiv author {author_uid} not found"))
        })?;
        Ok(works.into_iter().take(limit as usize).collect())
    }

    fn fetch_bookmarks(&self, limit: u32, _r18_policy: R18Policy) -> Result<Vec<PixivWorkRef>, AppError> {
        Ok(self.bookmarks.iter().take(limit as usize).cloned().collect())
    }

    fn search_works_by_tags(
        &self,
        tags: &Vec<String>,
        _negative_tags: &Vec<String>,
        limit: u32,
        _r18_policy: R18Policy,
    ) -> Result<Vec<PixivWorkRef>, AppError> {
        let works = self.tag_searches.get(&tags.join("\n")).cloned().unwrap_or_default();
        Ok(works.into_iter().take(limit as usize).collect())
    }

    fn download_image(&self, url: &str) -> Result<Vec<u8>, AppError> {
        self.images.get(url).cloned().ok_or_else(|| {
            AppError::new(ErrorCode::PixivNetworkError, &format!("No mock bytes for {url}"))
        })
    }
}

/// An in-memory file system standing in for the disk.
#[derive(Default)]
struct FakeDisk {
    files: RefCell<HashMap<String, Vec<u8>>>,
    writes: RefCell<usize>,
}

#[allow(dead_code)]
impl FakeDisk {
    fn has_path(&self, path: &str) -> bool {
        self.files.borrow().contains_key(path)
    }

    fn write(&self, path: &str, bytes: &[u8]) -> Result<(), AppError> {
        *self.writes.borrow_mut() += 1;
        self.files.borrow_mut().insert(path.to_owned(), bytes.to_vec());
        Ok(())
    }

    fn read(&self, path: &str) -> Option<Vec<u8>> {
        self.files.borrow().get(path).cloned()
    }

    fn writes(&self) -> usize {
        *self.writes.borrow()
    }
}

use pixiv_platform_backend::db::open_in_memory;
use pixiv_platform_backend::domain::{
    DownloadItemStatus, DownloadRequest, ImageCategory, ImageSource, PixivPage, TaskItemStatus,
    TaskLogLevel, TaskStatus, TaskType,
};
use pixiv_platform_backend::downloads::FileEvent;
use pixiv_platform_backend::images::ImageRepository;
use pixiv_platform_backend::storage::StoragePlanner;
use pixiv_platform_backend::task_runs::{
    create_author_download_task_with_id, create_bookmark_download_task_with_id,
    create_smart_download_task_with_id, execute_author_download_task,
    execute_bookmark_download_task, execute_smart_download_task, mark_task_failed,
    run_single_download_task_with_id, TaskAction, TaskOutcome, TaskRun,
};
use pixiv_platform_backend::tasks::{
    AuthorDownloadRequest, BatchDownloadTaskOutcome, BookmarkDownloadRequest, NewTaskItemRecord,
    NewTaskLogRecord, NewTaskRecord, SingleDownloadTaskOutcome, SmartDownloadRequest,
    TaskListQuery, TaskRepository,
};

fn sample_work() -> PixivWork {
    sample_work_with_id("123456")
}

fn sample_work_with_id(pixiv_id: &str) -> PixivWork {
    PixivWork {
        pixiv_id: pixiv_id.to_owned(),
        title: Some(format!("task mock {pixiv_id}")),
        author_uid: Some("9988".to_owned()),
        author_name: Some("mock author".to_owned()),
        tags: vec!["blue hair".to_owned()],
        category: ImageCategory::Normal,
        pages: vec![PixivPage {
            page_index: 0,
            original_url: format!("https://i.pximg.net/img-original/mock/{pixiv_id}_p0.jpg"),
            width: Some(1200),
            height: Some(1800),
            extension: Some("jpg".to_owned()),
        }],
    }
}

fn request() -> DownloadRequest {
    DownloadRequest {
        pixiv_id: "123456".to_owned(),
        page_index: Some(0),
        source: ImageSource::Single,
        r18_policy: R18Policy::Exclude,
    }
}

fn author_request(limit: u32) -> AuthorDownloadRequest {
    AuthorDownloadRequest { author_uid: "9988".to_owned(), limit, r18_policy: R18Policy::Exclude }
}

fn bookmark_request(limit: u32) -> BookmarkDownloadRequest {
    BookmarkDownloadRequest { limit, r18_policy: R18Policy::Exclude }
}

fn smart_request(limit: u32) -> SmartDownloadRequest {
    SmartDownloadRequest {
        prompt: "blue cyberpunk girl".to_owned(),
        tags: vec!["blue hair".to_owned(), "cyberpunk".to_owned()],
        negative_tags: vec!["low quality".to_owned()],
        limit,
        r18_policy: R18Policy::Exclude,
        model: "deepseek-v4-flash".to_owned(),
    }
}

const PROCESS_ID: u32 = 4242;

fn test_root(name: &str) -> String {
    format!("/virtual/pixiv_platform_backend_tasks_{name}")
}

fn planner(root: &str) -> StoragePlanner {
    StoragePlanner::new(root)
}

/// Runs a task to its end, answering its file-system steps from the disk.
fn drive(started: (TaskRun<'_>, TaskAction), client: &MockPixivClient) -> Result<TaskOutcome, AppError> {
    let disk = FakeDisk::default();
    let (mut run, mut action) = started;
    loop {
        action = match action {
            TaskAction::CheckFile(path) => run.resume(client, FileEvent::Exists(disk.has_path(&path))),
            TaskAction::WriteFile { path, bytes } => {
                let written = disk.write(&path, &bytes);
                run.resume(client, FileEvent::Written(written))
            }
            TaskAction::Finished(result) => return result,
        };
    }
}

fn single(outcome: Result<TaskOutcome, AppError>) -> Result<SingleDownloadTaskOutcome, AppError> {
    match outcome? {
        TaskOutcome::Single(single) => Ok(single),
        TaskOutcome::Batch(_) => panic!("expected a single task outcome"),
    }
}

fn batch(outcome: Result<TaskOutcome, AppError>) -> Result<BatchDownloadTaskOutcome, AppError> {
    match outcome? {
        TaskOutcome::Batch(batch) => Ok(batch),
        TaskOutcome::Single(_) => panic!("expected a batch task outcome"),
    }
}

#[test]
fn req_task_002_repository_persists_task_items_and_logs() {
    let conn = open_in_memory().unwrap();
    let repo = TaskRepository::new(&conn);

    repo.insert_task(&NewTaskRecord {
        task_id: "task-1".to_owned(),
        task_type: TaskType::Single,
        request_json: "{}".to_owned(),
        progress_total: Some(1),
    })
    .unwrap();
    repo.insert_item(&NewTaskItemRecord {
        item_id: "item-1".to_owned(),
        task_id: "task-1".to_owned(),
        pixiv_id: Some("123456".to_owned()),
        page_index: Some(0),
        status: TaskItemStatus::Discovered,
    })
    .unwrap();
    repo.add_log(&NewTaskLogRecord {
        log_id: "log-1".to_owned(),
        task_id: "task-1".to_owned(),
        level: TaskLogLevel::Info,
        phase: "validate_request".to_owned(),
        message: "created".to_owned(),
        context_json: None,
    })
    .unwrap();

    let task = repo.find_task("task-1").unwrap().unwrap();
    assert_eq!(task.status, TaskStatus::Pending);
    assert_eq!(task.progress_total, Some(1));
    assert_eq!(repo.items_for_task("task-1").unwrap().len(), 1);
    assert_eq!(repo.logs_for_task("task-1").unwrap()[0].phase, "validate_request");
}

#[test]
fn req_task_002_repository_lists_tasks_with_filters_and_cursor() {
    let conn = open_in_memory().unwrap();
    let repo = TaskRepository::new(&conn);
    repo.insert_task(&NewTaskRecord {
        task_id: "task-1".to_owned(),
        task_type: TaskType::Single,
        request_json: "{}".to_owned(),
        progress_total: Some(1),
    })
    .unwrap();
    repo.insert_task(&NewTaskRecord {
        task_id: "task-2".to_owned(),
        task_type: TaskType::Smart,
        request_json: "{}".to_owned(),
        progress_total: Some(3),
    })
    .unwrap();
    repo.start_task("task-2", Some("smart")).unwrap();

    let running = repo
        .list_tasks(&TaskListQuery { status: Some(TaskStatus::Running), task_type: None, limit: 10, cursor_offset: 0 })
        .unwrap();
    assert_eq!(running.items.len(), 1);
    assert_eq!(running.items[0].task_id, "task-2");

    let first = repo
        .list_tasks(&TaskListQuery { status: None, task_type: None, limit: 1, cursor_offset: 0 })
        .unwrap();
    assert_eq!(first.items.len(), 1);
    assert_eq!(first.next_cursor_offset, Some(1));
}

#[test]
fn req_task_003_req_task_005_enforces_explicit_and_monotonic_task_transitions() {
    let conn = open_in_memory().unwrap();
    let repo = TaskRepository::new(&conn);
    repo.insert_task(&NewTaskRecord {
        task_id: "task-1".to_owned(),
        task_type: TaskType::Single,
        request_json: "{}".to_owned(),
        progress_total: Some(2),
    })
    .unwrap();

    repo.start_task("task-1", Some("123456:0")).unwrap();
    repo.update_progress("task-1", 1, 0, Some("123456:0")).unwrap();
    let regression = repo.update_progress("task-1", 0, 0, Some("123456:0"));
    assert!(regression.is_err());

    repo.complete_task("task-1").unwrap();
    let task = repo.find_task("task-1").unwrap().unwrap();
    assert_eq!(task.status, TaskStatus::Completed);
    assert!(task.started_at.is_some());
    assert!(task.finished_at.is_some());
    assert!(repo.start_task("task-1", None).is_err());
}

#[test]
fn req_task_001_single_download_task_completes_and_links_image() {
    let root = test_root("single_success");
    let conn = open_in_memory().unwrap();
    let client = MockPixivClient::default()
        .with_work(sample_work())
        .with_image("https://i.pximg.net/img-original/mock/123456_p0.jpg", b"fake image bytes".to_vec());
    let storage = planner(&root);

    let outcome = single(drive(
        run_single_download_task_with_id("task-single", &request(), &client, &storage, &conn, PROCESS_ID),
        &client,
    ))
    .unwrap();

    assert_eq!(outcome.download_status, DownloadItemStatus::Saved);
    assert!(outcome.image_id.is_some());
    let repo = TaskRepository::new(&conn);
    let task = repo.find_task("task-single").unwrap().unwrap();
    assert_eq!(task.status, TaskStatus::Completed);
    assert_eq!(task.progress_done, 1);
    assert_eq!(task.progress_failed, 0);
    let item = repo.items_for_task("task-single").unwrap().pop().unwrap();
    assert_eq!(item.status, TaskItemStatus::Saved);
    assert_eq!(item.image_id, outcome.image_id);
    let image_repo = ImageRepository::new(&conn);
    let sources = image_repo.sources_for_image(outcome.image_id.as_deref().unwrap()).unwrap();
    assert_eq!(sources[0].task_id.as_deref(), Some("task-single"));
    let phases: Vec<_> = repo.logs_for_task("task-single").unwrap().into_iter().map(|log| log.phase).collect();
    assert!(phases.contains(&"validate_request".to_owned()));
    assert!(phases.contains(&"finish_task".to_owned()));
}

#[test]
fn req_task_004_single_download_task_records_failure_diagnostics() {
    let root = test_root("single_failure");
    let conn = open_in_memory().unwrap();
    let client = MockPixivClient::default().with_work(sample_work());
    let storage = planner(&root);

    let error = single(drive(
        run_single_download_task_with_id("task-failed", &request(), &client, &storage, &conn, PROCESS_ID),
        &client,
    ))
    .unwrap_err();

    assert_eq!(error.code.as_str(), "PIXIV_NETWORK_ERROR");
    let repo = TaskRepository::new(&conn);
    let task = repo.find_task("task-failed").unwrap().unwrap();
    assert_eq!(task.status, TaskStatus::Failed);
    assert_eq!(task.progress_done, 0);
    assert_eq!(task.progress_failed, 1);
    assert_eq!(task.error_code.as_deref(), Some("PIXIV_NETWORK_ERROR"));
    let item = repo.items_for_task("task-failed").unwrap().pop().unwrap();
    assert_eq!(item.status, TaskItemStatus::ItemFailed);
    assert_eq!(item.error_code.as_deref(), Some("PIXIV_NETWORK_ERROR"));
    assert!(repo.logs_for_task("task-failed").unwrap().iter().any(|log| log.level == TaskLogLevel::Error));
}

#[test]
fn req_dl_003_author_batch_task_completes_multiple_items() {
    let root = test_root("author_success");
    let conn = open_in_memory().unwrap();
    let client = MockPixivClient::default()
        .with_work(sample_work_with_id("123456"))
        .with_work(sample_work_with_id("222222"))
        .with_author_works(
            "9988",
            vec![PixivWorkRef { pixiv_id: "123456".to_owned() }, PixivWorkRef { pixiv_id: "222222".to_owned() }],
        )
        .with_image("https://i.pximg.net/img-original/mock/123456_p0.jpg", b"first image bytes".to_vec())
        .with_image("https://i.pximg.net/img-original/mock/222222_p0.jpg", b"second image bytes".to_vec());
    let storage = planner(&root);

    create_author_download_task_with_id("task-author", &author_request(2), &conn, PROCESS_ID).unwrap();
    let outcome = batch(drive(
        execute_author_download_task("task-author", &client, &storage, &conn, PROCESS_ID),
        &client,
    ))
    .unwrap();

    assert_eq!(outcome.status, TaskStatus::Completed);
    assert_eq!(outcome.total, 2);
    assert_eq!(outcome.completed, 2);
    assert_eq!(outcome.failed, 0);
    let repo = TaskRepository::new(&conn);
    let task = repo.find_task("task-author").unwrap().unwrap();
    assert_eq!(task.status, TaskStatus::Completed);
    assert_eq!(task.progress_total, Some(2));
    assert_eq!(task.progress_done, 2);
    assert_eq!(task.progress_failed, 0);
    let items = repo.items_for_task("task-author").unwrap();
    assert_eq!(items.len(), 2);
    assert!(items.iter().all(|item| item.status == TaskItemStatus::Saved));
    let image_repo = ImageRepository::new(&conn);
    let image = image_repo.find_by_pixiv_page("222222", 0).unwrap().unwrap();
    let sources = image_repo.sources_for_image(&image.image_id).unwrap();
    assert!(sources
        .iter()
        .any(|source| source.source == ImageSource::Author && source.task_id.as_deref() == Some("task-author")));
}

#[test]
fn req_dl_003_author_batch_task_preserves_item_failure_diagnostics() {
    let root = test_root("author_partial_failure");
    let conn = open_in_memory().unwrap();
    let client = MockPixivClient::default()
        .with_work(sample_work_with_id("123456"))
        .with_author_works(
            "9988",
            vec![PixivWorkRef { pixiv_id: "123456".to_owned() }, PixivWorkRef { pixiv_id: "404404".to_owned() }],
        )
        .with_image("https://i.pximg.net/img-original/mock/123456_p0.jpg", b"first image bytes".to_vec());
    let storage = planner(&root);

    create_author_download_task_with_id("task-author-errors", &author_request(2), &conn, PROCESS_ID).unwrap();
    let outcome = batch(drive(
        execute_author_download_task("task-author-errors", &client, &storage, &conn, PROCESS_ID),
        &client,
    ))
    .unwrap();

    assert_eq!(outcome.status, TaskStatus::CompletedWithErrors);
    assert_eq!(outcome.completed, 1);
    assert_eq!(outcome.failed, 1);
    let repo = TaskRepository::new(&conn);
    let task = repo.find_task("task-author-errors").unwrap().unwrap();
    assert_eq!(task.status, TaskStatus::CompletedWithErrors);
    assert_eq!(task.progress_done, 1);
    assert_eq!(task.progress_failed, 1);
    let items = repo.items_for_task("task-author-errors").unwrap();
    assert!(items.iter().any(|item| item.status == TaskItemStatus::ItemFailed
        && item.error_code.as_deref() == Some("PIXIV_NOT_FOUND")));
    assert!(repo
        .logs_for_task("task-author-errors")
        .unwrap()
        .iter()
        .any(|log| log.level == TaskLogLevel::Error && log.phase == "download_file"));
}

#[test]
fn req_dl_002_bookmark_batch_task_completes_multiple_items() {
    let root = test_root("bookmark_success");
    let conn = open_in_memory().unwrap();
    let client = MockPixivClient::default()
        .with_work(sample_work_with_id("123456"))
        .with_work(sample_work_with_id("222222"))
        .with_bookmarks(vec![PixivWorkRef { pixiv_id: "123456".to_owned() }, PixivWorkRef { pixiv_id: "222222".to_owned() }])
        .with_image("https://i.pximg.net/img-original/mock/123456_p0.jpg", b"first image bytes".to_vec())
        .with_image("https://i.pximg.net/img-original/mock/222222_p0.jpg", b"second image bytes".to_vec());
    let storage = planner(&root);

    create_bookmark_download_task_with_id("task-bookmark", &bookmark_request(2), &conn, PROCESS_ID).unwrap();
    let outcome = batch(drive(
        execute_bookmark_download_task("task-bookmark", &client, &storage, &conn, PROCESS_ID),
        &client,
    ))
    .unwrap();

    assert_eq!(outcome.status, TaskStatus::Completed);
    assert_eq!(outcome.total, 2);
    assert_eq!(outcome.completed, 2);
    assert_eq!(outcome.failed, 0);
    let repo = TaskRepository::new(&conn);
    let task = repo.find_task("task-bookmark").unwrap().unwrap();
    assert_eq!(task.status, TaskStatus::Completed);
    assert_eq!(task.progress_total, Some(2));
    assert_eq!(task.progress_done, 2);
    let items = repo.items_for_task("task-bookmark").unwrap();
    assert_eq!(items.len(), 2);
    assert!(items.iter().all(|item| item.status == TaskItemStatus::Saved));
    let image_repo = ImageRepository::new(&conn);
    let image = image_repo.find_by_pixiv_page("222222", 0).unwrap().unwrap();
    let sources = image_repo.sources_for_image(&image.image_id).unwrap();
    assert!(sources
        .iter()
        .any(|source| source.source == ImageSource::Bookmark && source.task_id.as_deref() == Some("task-bookmark")));
}

#[test]
fn req_dl_002_bookmark_batch_task_preserves_item_failure_diagnostics() {
    let root = test_root("bookmark_partial_failure");
    let conn = open_in_memory().unwrap();
    let client = MockPixivClient::default()
        .with_work(sample_work_with_id("123456"))
        .with_bookmarks(vec![PixivWorkRef { pixiv_id: "123456".to_owned() }, PixivWorkRef { pixiv_id: "404404".to_owned() }])
        .with_image("https://i.pximg.net/img-original/mock/123456_p0.jpg", b"first image bytes".to_vec());
    let storage = planner(&root);

    create_bookmark_download_task_with_id("task-bookmark-errors", &bookmark_request(2), &conn, PROCESS_ID)
        .unwrap();
    let outcome = batch(drive(
        execute_bookmark_download_task("task-bookmark-errors", &client, &storage, &conn, PROCESS_ID),
        &client,
    ))
    .unwrap();

    assert_eq!(outcome.status, TaskStatus::CompletedWithErrors);
    assert_eq!(outcome.completed, 1);
    assert_eq!(outcome.failed, 1);
    let repo = TaskRepository::new(&conn);
    let task = repo.find_task("task-bookmark-errors").unwrap().unwrap();
    assert_eq!(task.status, TaskStatus::CompletedWithErrors);
    assert_eq!(task.progress_done, 1);
    assert_eq!(task.progress_failed, 1);
    let items = repo.items_for_task("task-bookmark-errors").unwrap();
    assert!(items.iter().any(|item| item.status == TaskItemStatus::ItemFailed
        && item.error_code.as_deref() == Some("PIXIV_NOT_FOUND")));
    assert!(repo
        .logs_for_task("task-bookmark-errors")
        .unwrap()
        .iter()
        .any(|log| log.level == TaskLogLevel::Error && log.phase == "download_file"));
}

#[test]
fn req_ai_002_smart_batch_task_completes_multiple_items_and_provenance() {
    let root = test_root("smart_success");
    let conn = open_in_memory().unwrap();
    let client = MockPixivClient::default()
        .with_work(sample_work_with_id("123456"))
        .with_work(sample_work_with_id("222222"))
        .with_tag_search(
            vec!["blue hair".to_owned(), "cyberpunk".to_owned()],
            vec![PixivWorkRef { pixiv_id: "123456".to_owned() }, PixivWorkRef { pixiv_id: "222222".to_owned() }],
        )
        .with_image("https://i.pximg.net/img-original/mock/123456_p0.jpg", b"first image bytes".to_vec())
        .with_image("https://i.pximg.net/img-original/mock/222222_p0.jpg", b"second image bytes".to_vec());
    let storage = planner(&root);

    create_smart_download_task_with_id("task-smart", &smart_request(2), &conn, PROCESS_ID).unwrap();
    let outcome = batch(drive(
        execute_smart_download_task("task-smart", &client, &storage, &conn, PROCESS_ID),
        &client,
    ))
    .unwrap();

    assert_eq!(outcome.status, TaskStatus::Completed);
    assert_eq!(outcome.total, 2);
    assert_eq!(outcome.completed, 2);
    let repo = TaskRepository::new(&conn);
    let task = repo.find_task("task-smart").unwrap().unwrap();
    assert_eq!(task.task_type, TaskType::Smart);
    assert_eq!(task.progress_total, Some(2));
    assert_eq!(task.progress_done, 2);
    let items = repo.items_for_task("task-smart").unwrap();
    assert_eq!(items.len(), 2);
    assert!(items.iter().all(|item| item.status == TaskItemStatus::Saved));
    let image_repo = ImageRepository::new(&conn);
    let image = image_repo.find_by_pixiv_page("222222", 0).unwrap().unwrap();
    let sources = image_repo.sources_for_image(&image.image_id).unwrap();
    assert!(sources
        .iter()
        .any(|source| source.source == ImageSource::Smart && source.task_id.as_deref() == Some("task-smart")));
    let retrieval_count: i64 = conn
        .query_row("SELECT COUNT(*) FROM smart_retrievals WHERE task_id = 'task-smart'", [], |row| row.get(0))
        .unwrap();
    assert_eq!(retrieval_count, 1);
}

#[test]
fn empty_author_batch_completes_with_nothing_to_do() {
    let root = test_root("author_empty");
    let conn = open_in_memory().unwrap();
    let client = MockPixivClient::default().with_author_works("9988", vec![]);
    let storage = planner(&root);

    create_author_download_task_with_id("task-empty", &author_request(2), &conn, PROCESS_ID).unwrap();
    let outcome = batch(drive(
        execute_author_download_task("task-empty", &client, &storage, &conn, PROCESS_ID),
        &client,
    ))
    .unwrap();

    assert_eq!(outcome.total, 0);
    assert_eq!(outcome.completed + outcome.failed, outcome.total);
    assert_eq!(outcome.status, TaskStatus::Completed);
}

#[test]
fn author_discovery_failure_fails_the_task() {
    let root = test_root("author_discovery");
    let conn = open_in_memory().unwrap();
    let client = MockPixivClient::default();
    let storage = planner(&root);

    create_author_download_task_with_id("task-missing-author", &author_request(2), &conn, PROCESS_ID).unwrap();
    let error = batch(drive(
        execute_author_download_task("task-missing-author", &client, &storage, &conn, PROCESS_ID),
        &client,
    ))
    .unwrap_err();

    assert_eq!(error.code, ErrorCode::PixivNotFound);
    let task = TaskRepository::new(&conn).find_task("task-missing-author").unwrap().unwrap();
    assert_eq!(task.status, TaskStatus::Failed);
}

#[test]
fn invalid_author_request_is_not_stored() {
    let conn = open_in_memory().unwrap();
    let error = create_author_download_task_with_id("task-bad", &author_request(0), &conn, 1).unwrap_err();
    assert_eq!(error.message, "limit must be at least 1");
    assert!(TaskRepository::new(&conn).find_task("task-bad").unwrap().is_none());
}

#[test]
fn running_a_task_of_another_type_is_refused() {
    let conn = open_in_memory().unwrap();
    let client = MockPixivClient::default();
    let storage = StoragePlanner::new("/tmp/unused");
    create_author_download_task_with_id("task-a", &author_request(1), &conn, 1).unwrap();
    let error = batch(drive(execute_bookmark_download_task("task-a", &client, &storage, &conn, 1), &client)).unwrap_err();
    assert_eq!(error.message, "task is not a bookmark download task");
}

#[test]
fn marking_a_finished_task_failed_changes_nothing() {
    let db = "file:mark_failed_tasks?mode=memory&cache=shared";
    let keeper = pixiv_platform_backend::db::open(db).unwrap();
    {
        let repo = TaskRepository::new(&keeper);
        repo.insert_task(&NewTaskRecord {
            task_id: "done".to_owned(),
            task_type: TaskType::Single,
            request_json: "{}".to_owned(),
            progress_total: Some(1),
        })
        .unwrap();
        repo.complete_task("done").unwrap();
    }
    mark_task_failed(db, "done", "INTERNAL_ERROR", "worker stopped").unwrap();
    let task = TaskRepository::new(&keeper).find_task("done").unwrap().unwrap();
    assert_eq!(task.status, TaskStatus::Completed);
}
