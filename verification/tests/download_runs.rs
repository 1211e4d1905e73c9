use std::cell::RefCell;
use std::collections::HashMap;

use pixiv_platform_backend::domain::{PixivWork, PixivWorkRef, R18Policy};
use pixiv_platform_backend::errors::{AppError, ErrorCode};
use pixiv_platform_backend::pixiv::PixivClient;

#[derive(Default)]
struct MockPixivClient {
    works: HashMap<String, PixivWork>,
    images: HashMap<String, Vec<u8>>,
    author_works: HashMap<String, Vec<PixivWorkRef>>,
    bookmarks: Vec<PixivWorkRef>,
    tag_searches: HashMap<String, Vec<PixivWorkRef>>,
}

#[allow(dead_code)]
impl MockPixivClient {
    fn with_work(mut self, work: PixivWork) -> Self {
        self.works.insert(work.pixiv_id.clone(), work);
        self
    }

    fn with_image(mut self, url: &str, bytes: Vec<u8>) -> Self {
        self.images.insert(url.to_owned(), bytes);
        self
    }

    fn with_author_works(mut self, author_uid: &str, works: Vec<PixivWorkRef>) -> Self {
        self.author_works.insert(author_uid.to_owned(), works);
        self
    }

    fn with_bookmarks(mut self, works: Vec<PixivWorkRef>) -> Self {
        self.bookmarks = works;
        self
    }

    fn with_tag_search(mut self, tags: Vec<String>, works: Vec<PixivWorkRef>) -> Self {
        self.tag_searches.insert(tags.join("\n"), works);
        self
    }
}

impl PixivClient for MockPixivClient {
    fn fetch_work(&self, pixiv_id: &str) -> Result<PixivWork, AppError> {
        self.works.get(pixiv_id).cloned().ok_or_else(|| {
            AppError::new(ErrorCode::PixivNotFound, &format!("Pixiv work {pixiv_id} not found"))
        })
    }

    fn fetch_author_works(&self, author_uid: &str, limit: u32) -> Result<Vec<PixivWorkRef>, AppError> {
        let works = self.author_works.get(author_uid).cloned().ok_or_else(|| {
            AppError::new(ErrorCode::PixivNotFound, &format!("Pixiv author {author_uid} not found"))
        })?;
        Ok(works.into_iter().take(limit as usize).collect())
    }

    fn fetch_bookmarks(&self, limit: u32, _r18_policy: R18Policy) -> Result<Vec<PixivWorkRef>, AppError> {
        Ok(self.bookmarks.iter().take(limit as usize).cloned().collect())
    }

    fn search_works_by_tags(
        &self,
        tags: &Vec<String>,
        _negative_tags: &Vec<String>,
        limit: u32,
        _r18_policy: R18Policy,
    ) -> Result<Vec<PixivWorkRef>, AppError> {
        let works = self.tag_searches.get(&tags.join("\n")).cloned().unwrap_or_default();
        Ok(works.into_iter().take(limit as usize).collect())
    }

    fn download_image(&self, url: &str) -> Result<Vec<u8>, AppError> {
        self.images.get(url).cloned().ok_or_else(|| {
            AppError::new(ErrorCode::PixivNetworkError, &format!("No mock bytes for {url}"))
        })
    }
}

/// An in-memory file system standing in for the disk.
#[derive(Default)]
struct FakeDisk {
    files: RefCell<HashMap<String, Vec<u8>>>,
    writes: RefCell<usize>,
}

#[allow(dead_code)]
impl FakeDisk {
    fn has_path(&self, path: &str) -> bool {
        self.files.borrow().contains_key(path)
    }

    fn write(&self, path: &str, bytes: &[u8]) -> Result<(), AppError> {
        *self.writes.borrow_mut() += 1;
        self.files.borrow_mut().insert(path.to_owned(), bytes.to_vec());
        Ok(())
    }

    fn read(&self, path: &str) -> Option<Vec<u8>> {
        self.files.borrow().get(path).cloned()
    }

    fn writes(&self) -> usize {
        *self.writes.borrow()
    }
}

use pixiv_platform_backend::domain::{
    DownloadItemStatus, DownloadOutcome, DownloadRequest, ImageCategory, ImageSource, PixivPage,
};
use pixiv_platform_backend::downloads::{
    download_single, download_single_with_db, image_id_for_pixiv_page, DownloadAction,
    DownloadRepositoryContext, DownloadRun, FileEvent,
};
use pixiv_platform_backend::images::{ImageRepository, NewImageRecord};
use pixiv_platform_backend::storage::StoragePlanner;

fn test_root(name: &str) -> String {
    format!("/virtual/pixiv_platform_backend_{name}")
}

fn sample_work(category: ImageCategory) -> PixivWork {
    PixivWork {
        pixiv_id: "123456".to_owned(),
        title: Some("mock work".to_owned()),
        author_uid: Some("9988".to_owned()),
        author_name: Some("mock author".to_owned()),
        tags: vec!["blue hair".to_owned()],
        category,
        pages: vec![PixivPage {
            page_index: 0,
            original_url: "https://i.pximg.net/img-original/mock/123456_p0.jpg".to_owned(),
            width: Some(1200),
            height: Some(1800),
            extension: Some("jpg".to_owned()),
        }],
    }
}

fn request(policy: R18Policy) -> DownloadRequest {
    DownloadRequest {
        pixiv_id: "123456".to_owned(),
        page_index: Some(0),
        source: ImageSource::Single,
        r18_policy: policy,
    }
}

fn expected_path(storage: &StoragePlanner) -> String {
    storage.original_path("123456", 0, Some("jpg")).unwrap()
}

fn preindexed_image(local_path: &str) -> NewImageRecord {
    NewImageRecord {
        image_id: "existing-image".to_owned(),
        pixiv_id: "123456".to_owned(),
        page_index: 0,
        author_uid: Some("old-author".to_owned()),
        title: Some("old title".to_owned()),
        category: ImageCategory::Normal,
        local_path: local_path.to_owned(),
        thumbnail_path: None,
        width: Some(100),
        height: Some(200),
        downloaded_at: "2026-05-21T00:00:00Z".to_owned(),
    }
}

/// Runs a download to its end, answering its file-system steps from the disk.
fn drive(
    mut run: DownloadRun<'_>,
    mut action: DownloadAction,
    client: &MockPixivClient,
    disk: &FakeDisk,
) -> Result<DownloadOutcome, AppError> {
    loop {
        action = match action {
            DownloadAction::CheckFile(path) => run.resume(client, FileEvent::Exists(disk.has_path(&path))),
            DownloadAction::WriteFile { path, bytes } => {
                let written = disk.write(&path, &bytes);
                run.resume(client, FileEvent::Written(written))
            }
            DownloadAction::Finished(result) => return result,
        };
    }
}

fn run_plain(
    req: &DownloadRequest,
    client: &MockPixivClient,
    storage: &StoragePlanner,
    disk: &FakeDisk,
) -> Result<DownloadOutcome, AppError> {
    let (run, action) = download_single(req, client, storage);
    drive(run, action, client, disk)
}

fn run_with_db(
    req: &DownloadRequest,
    client: &MockPixivClient,
    storage: &StoragePlanner,
    conn: &rusqlite::Connection,
    disk: &FakeDisk,
) -> Result<DownloadOutcome, AppError> {
    let (run, action) = download_single_with_db(req, client, storage, DownloadRepositoryContext::new(conn));
    drive(run, action, client, disk)
}

#[test]
fn req_dl_001_downloads_single_work_with_mock_pixiv() {
    let root = test_root("single_success");
    let work = sample_work(ImageCategory::Normal);
    let client = MockPixivClient::default()
        .with_work(work)
        .with_image("https://i.pximg.net/img-original/mock/123456_p0.jpg", b"fake image bytes".to_vec());
    let storage = StoragePlanner::new(&root);
    let disk = FakeDisk::default();

    let outcome = run_plain(&request(R18Policy::Exclude), &client, &storage, &disk).unwrap();

    assert_eq!(outcome.status, DownloadItemStatus::Saved);
    let local_path = outcome.local_path.unwrap();
    assert!(disk.has_path(&local_path));
    assert_eq!(disk.read(&local_path).unwrap(), b"fake image bytes");
}

#[test]
fn req_dl_006_skips_existing_file_as_duplicate() {
    let root = test_root("duplicate");
    let work = sample_work(ImageCategory::Normal);
    let client = MockPixivClient::default()
        .with_work(work)
        .with_image("https://i.pximg.net/img-original/mock/123456_p0.jpg", b"fake image bytes".to_vec());
    let storage = StoragePlanner::new(&root);
    let disk = FakeDisk::default();

    let first = run_plain(&request(R18Policy::Exclude), &client, &storage, &disk).unwrap();
    let second = run_plain(&request(R18Policy::Exclude), &client, &storage, &disk).unwrap();

    assert_eq!(first.status, DownloadItemStatus::Saved);
    assert_eq!(second.status, DownloadItemStatus::SkippedDuplicate);
}

#[test]
fn req_dl_001_req_img_001_db_aware_first_download_indexes_file_tags_and_source() {
    let root = test_root("db_first_download");
    let conn = pixiv_platform_backend::db::open_in_memory().unwrap();
    let work = sample_work(ImageCategory::Normal);
    let client = MockPixivClient::default()
        .with_work(work)
        .with_image("https://i.pximg.net/img-original/mock/123456_p0.jpg", b"fake image bytes".to_vec());
    let storage = StoragePlanner::new(&root);

    let disk = FakeDisk::default();
    let outcome = run_with_db(&request(R18Policy::Exclude), &client, &storage, &conn, &disk).unwrap();

    assert_eq!(outcome.status, DownloadItemStatus::Saved);
    let local_path = outcome.local_path.unwrap();
    assert_eq!(disk.read(&local_path).unwrap(), b"fake image bytes");

    let repo = ImageRepository::new(&conn);
    let image = repo.find_by_pixiv_page("123456", 0).unwrap().unwrap();
    assert_eq!(image.local_path, local_path);
    assert_eq!(image.width, Some(1200));
    assert_eq!(image.height, Some(1800));
    assert_eq!(repo.tags_for_image(&image.image_id).unwrap(), vec!["blue hair"]);
    let sources = repo.sources_for_image(&image.image_id).unwrap();
    assert_eq!(sources.len(), 1);
    assert_eq!(sources[0].source, ImageSource::Single);
}

#[test]
fn req_dl_006_db_duplicate_skip_avoids_image_download_and_records_source() {
    let root = test_root("db_duplicate_skip");
    let conn = pixiv_platform_backend::db::open_in_memory().unwrap();
    let storage = StoragePlanner::new(&root);
    let local_path = expected_path(&storage);
    let disk = FakeDisk::default();
    disk.files.borrow_mut().insert(local_path.clone(), b"already here".to_vec());
    let repo = ImageRepository::new(&conn);
    repo.insert(&preindexed_image(&local_path)).unwrap();
    let client = MockPixivClient::default();

    let outcome = run_with_db(&request(R18Policy::Exclude), &client, &storage, &conn, &disk).unwrap();

    assert_eq!(outcome.status, DownloadItemStatus::SkippedDuplicate);
    assert_eq!(outcome.local_path.as_deref(), Some(local_path.as_str()));
    let sources = repo.sources_for_image("existing-image").unwrap();
    assert_eq!(sources.len(), 1);
    assert_eq!(sources[0].source, ImageSource::Single);
    assert_eq!(disk.read(&local_path).unwrap(), b"already here");
    assert_eq!(disk.writes(), 0);
}

#[test]
fn req_dl_006_missing_file_repair_redownloads_and_refreshes_index() {
    let root = test_root("db_missing_file_repair");
    let conn = pixiv_platform_backend::db::open_in_memory().unwrap();
    let storage = StoragePlanner::new(&root);
    let missing_path = expected_path(&storage);
    let repo = ImageRepository::new(&conn);
    repo.insert(&preindexed_image(&missing_path)).unwrap();
    let work = sample_work(ImageCategory::Normal);
    let client = MockPixivClient::default()
        .with_work(work)
        .with_image("https://i.pximg.net/img-original/mock/123456_p0.jpg", b"repaired image bytes".to_vec());

    let disk = FakeDisk::default();
    let outcome = run_with_db(&request(R18Policy::Exclude), &client, &storage, &conn, &disk).unwrap();

    assert_eq!(outcome.status, DownloadItemStatus::Saved);
    assert_eq!(disk.read(&missing_path).unwrap(), b"repaired image bytes");
    let image = repo.find_by_pixiv_page("123456", 0).unwrap().unwrap();
    assert_eq!(image.image_id, "existing-image");
    assert_eq!(image.title.as_deref(), Some("mock work"));
    assert_eq!(image.author_uid.as_deref(), Some("9988"));
    assert_eq!(repo.tags_for_image("existing-image").unwrap(), vec!["blue hair"]);
    assert_eq!(repo.sources_for_image("existing-image").unwrap().len(), 1);
}

#[test]
fn req_dl_006_existing_file_indexing_inserts_db_without_downloading_bytes() {
    let root = test_root("existing_file_indexing");
    let conn = pixiv_platform_backend::db::open_in_memory().unwrap();
    let storage = StoragePlanner::new(&root);
    let local_path = expected_path(&storage);
    let disk = FakeDisk::default();
    disk.files.borrow_mut().insert(local_path.clone(), b"existing file bytes".to_vec());
    let work = sample_work(ImageCategory::Normal);
    let client = MockPixivClient::default().with_work(work);

    let outcome = run_with_db(&request(R18Policy::Exclude), &client, &storage, &conn, &disk).unwrap();

    assert_eq!(outcome.status, DownloadItemStatus::SkippedDuplicate);
    assert_eq!(disk.read(&local_path).unwrap(), b"existing file bytes");
    assert_eq!(disk.writes(), 0);
    let repo = ImageRepository::new(&conn);
    let image = repo.find_by_pixiv_page("123456", 0).unwrap().unwrap();
    assert_eq!(image.local_path, local_path);
    assert_eq!(image.image_id, image_id_for_pixiv_page("123456", 0));
    assert_eq!(repo.tags_for_image(&image.image_id).unwrap(), vec!["blue hair"]);
    assert_eq!(repo.sources_for_image(&image.image_id).unwrap().len(), 1);
}

#[test]
fn req_cfg_005_skips_r18_when_policy_excludes_it() {
    let root = test_root("r18_skip");
    let work = sample_work(ImageCategory::R18);
    let client = MockPixivClient::default().with_work(work);
    let storage = StoragePlanner::new(&root);
    let disk = FakeDisk::default();

    let outcome = run_plain(&request(R18Policy::Exclude), &client, &storage, &disk).unwrap();

    assert_eq!(outcome.status, DownloadItemStatus::SkippedByPolicy);
    assert_eq!(disk.writes(), 0);
    assert!(outcome.local_path.is_none());
}

#[test]
fn req_dl_001_rejects_invalid_pixiv_id() {
    let root = test_root("invalid_id");
    let client = MockPixivClient::default();
    let storage = StoragePlanner::new(&root);
    let bad_request = DownloadRequest {
        pixiv_id: "../123".to_owned(),
        page_index: Some(0),
        source: ImageSource::Single,
        r18_policy: R18Policy::Exclude,
    };

    let error = run_plain(&bad_request, &client, &storage, &FakeDisk::default()).unwrap_err();

    assert_eq!(error.code.as_str(), "VALIDATION_ERROR");
}

#[test]
fn indexed_r18_page_is_skipped_without_fetching() {
    let root = test_root("indexed_r18");
    let conn = pixiv_platform_backend::db::open_in_memory().unwrap();
    let storage = StoragePlanner::new(&root);
    let repo = ImageRepository::new(&conn);
    let mut image = preindexed_image("/tmp/none.jpg");
    image.category = ImageCategory::R18;
    repo.insert(&image).unwrap();
    let client = MockPixivClient::default();

    let disk = FakeDisk::default();
    let outcome = run_with_db(&request(R18Policy::Exclude), &client, &storage, &conn, &disk).unwrap();

    assert_eq!(outcome.status, DownloadItemStatus::SkippedByPolicy);
    assert!(outcome.metadata.is_none());
    assert_eq!(disk.writes(), 0);
}

#[test]
fn missing_page_index_is_reported() {
    let root = test_root("missing_page");
    let client = MockPixivClient::default().with_work(sample_work(ImageCategory::Normal));
    let storage = StoragePlanner::new(&root);
    let mut req = request(R18Policy::Exclude);
    req.page_index = Some(3);

    let error = run_plain(&req, &client, &storage, &FakeDisk::default()).unwrap_err();

    assert_eq!(error.code, ErrorCode::PixivNotFound);
    assert_eq!(error.message, "Pixiv work 123456 has no page index 3");
}

#[test]
fn write_failure_is_the_outcome() {
    let root = test_root("write_failure");
    let client = MockPixivClient::default()
        .with_work(sample_work(ImageCategory::Normal))
        .with_image("https://i.pximg.net/img-original/mock/123456_p0.jpg", b"bytes".to_vec());
    let storage = StoragePlanner::new(&root);
    let (mut run, action) = download_single(&request(R18Policy::Exclude), &client, &storage);
    let path = match action {
        DownloadAction::CheckFile(path) => path,
        _ => panic!("expected a file check"),
    };
    assert_eq!(path, expected_path(&storage));
    let next = run.resume(&client, FileEvent::Exists(false));
    match next {
        DownloadAction::WriteFile { path: target, bytes } => {
            assert_eq!(target, path);
            assert_eq!(bytes, b"bytes".to_vec());
        }
        _ => panic!("expected a write"),
    }
    let failed = run.resume(
        &client,
        FileEvent::Written(Err(AppError::new(ErrorCode::FilesystemWriteFailed, "disk full"))),
    );
    match failed {
        DownloadAction::Finished(Err(error)) => assert_eq!(error.message, "disk full"),
        _ => panic!("expected the write error"),
    }
}
