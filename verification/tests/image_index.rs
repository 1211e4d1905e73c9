use std::cell::RefCell;
use std::collections::{HashMap, HashSet};

use pixiv_platform_backend::db::open_in_memory;
use pixiv_platform_backend::domain::{ImageCategory, ImageSource};
use pixiv_platform_backend::errors::{AppError, ErrorCode};
use pixiv_platform_backend::images::{
    complete_image_delete, image_to_delete, resolve_deletable_image_path, resolve_image_file,
    FileRemoval, ImageDeleteOutcome, ImageFile, ImageListQuery, ImageR18Visibility, ImageRecord,
    ImageRepository, NewImageRecord, ParentProbe, PathProbe,
};
use rusqlite::{Error as SqliteError, ErrorCode as SqliteErrorCode};

fn sample_image(image_id: &str, pixiv_id: &str, page_index: u32) -> NewImageRecord {
    NewImageRecord {
        image_id: image_id.to_owned(),
        pixiv_id: pixiv_id.to_owned(),
        page_index,
        author_uid: Some("999".to_owned()),
        title: Some("おでかけ".to_owned()),
        category: ImageCategory::Normal,
        local_path: format!("/tmp/{pixiv_id}_p{page_index}.png"),
        thumbnail_path: None,
        width: Some(1062),
        height: Some(1500),
        downloaded_at: "2026-05-21T00:00:00Z".to_owned(),
    }
}

/// An in-memory file system: canonical absolute paths of files and directories.
#[derive(Default)]
struct FakeFs {
    files: RefCell<HashMap<String, Vec<u8>>>,
    dirs: HashSet<String>,
}

impl FakeFs {
    fn with_dir(mut self, dir: &str) -> Self {
        let mut current = String::new();
        for part in dir.split('/').filter(|part| !part.is_empty()) {
            current.push('/');
            current.push_str(part);
            self.dirs.insert(current.clone());
        }
        self
    }

    fn with_file(self, path: &str, bytes: &[u8]) -> Self {
        let fs = self.with_dir(parent_of(path).unwrap_or("/"));
        fs.files.borrow_mut().insert(path.to_owned(), bytes.to_vec());
        fs
    }

    fn has_path(&self, path: &str) -> bool {
        self.files.borrow().contains_key(path) || self.dirs.contains(path)
    }

    fn probe(&self, path: &str) -> PathProbe {
        if self.files.borrow().contains_key(path) {
            PathProbe::File(path.to_owned())
        } else if self.dirs.contains(path) {
            PathProbe::NotFile(path.to_owned())
        } else {
            PathProbe::Missing
        }
    }

    fn canonical_roots(&self, roots: &[&str]) -> Vec<String> {
        roots.iter().filter(|root| self.dirs.contains(**root)).map(|root| root.to_string()).collect()
    }

    fn remove(&self, path: &str) -> FileRemoval {
        match self.files.borrow_mut().remove(path) {
            Some(_) => FileRemoval::Removed,
            None => FileRemoval::NotFound,
        }
    }
}

fn parent_of(path: &str) -> Option<&str> {
    path.rfind('/').map(|at| if at == 0 { "/" } else { &path[..at] })
}

fn resolve_on_disk(fs: &FakeFs, image: &ImageRecord, roots: &[&str]) -> Result<ImageFile, AppError> {
    resolve_image_file(image, &fs.probe(&image.local_path), &fs.canonical_roots(roots))
}

fn delete_on_disk(
    fs: &FakeFs,
    repo: &ImageRepository<'_>,
    image_id: &str,
    roots: &[&str],
) -> Result<ImageDeleteOutcome, AppError> {
    let image = image_to_delete(repo, image_id)?;
    let parent = match parent_of(&image.local_path) {
        None => ParentProbe::NoParent,
        Some(dir) if fs.dirs.contains(dir) => ParentProbe::Resolved(dir.to_owned()),
        Some(_) => ParentProbe::Unresolved,
    };
    let target = resolve_deletable_image_path(
        &image.local_path,
        &fs.probe(&image.local_path),
        &parent,
        &fs.canonical_roots(roots),
    )?;
    let removal = target.map(|file| fs.remove(&file));
    complete_image_delete(repo, image, removal)
}

#[test]
fn req_img_001_repository_inserts_and_queries_image_metadata() {
    let conn = open_in_memory().unwrap();
    let repo = ImageRepository::new(&conn);

    repo.insert(&sample_image("image-1", "144920810", 0)).unwrap();
    let image = repo.find_by_pixiv_page("144920810", 0).unwrap().unwrap();

    assert_eq!(image.image_id, "image-1");
    assert_eq!(image.title.as_deref(), Some("おでかけ"));
    assert_eq!(image.category, ImageCategory::Normal);
    assert_eq!(image.width, Some(1062));
    assert_eq!(image.height, Some(1500));
}

#[test]
fn req_dl_006_repository_finds_existing_pixiv_page_for_dedupe() {
    let conn = open_in_memory().unwrap();
    let repo = ImageRepository::new(&conn);

    repo.insert(&sample_image("image-1", "144920810", 0)).unwrap();

    assert!(repo.find_by_pixiv_page("144920810", 0).unwrap().is_some());
    assert!(repo.find_by_pixiv_page("144920810", 1).unwrap().is_none());
}

#[test]
fn req_dl_006_repository_rejects_duplicate_pixiv_page_identity() {
    let conn = open_in_memory().unwrap();
    let repo = ImageRepository::new(&conn);

    repo.insert(&sample_image("image-1", "144920810", 0)).unwrap();
    let duplicate = repo.insert(&sample_image("image-2", "144920810", 0));

    assert!(matches!(duplicate.map_err(|err| err.code), Err(ErrorCode::SqliteError)));
}

#[test]
fn req_img_001_repository_replaces_and_reads_tags() {
    let conn = open_in_memory().unwrap();
    let repo = ImageRepository::new(&conn);
    repo.insert(&sample_image("image-1", "144920810", 0)).unwrap();

    repo.replace_tags("image-1", &vec!["blue hair".to_owned(), "cyberpunk".to_owned()])
        .unwrap();
    repo.replace_tags("image-1", &vec!["おでかけ".to_owned()]).unwrap();

    assert_eq!(repo.tags_for_image("image-1").unwrap(), vec!["おでかけ"]);
}

#[test]
fn req_img_001_repository_rejects_tags_for_missing_image() {
    let conn = open_in_memory().unwrap();
    let repo = ImageRepository::new(&conn);

    let result = repo.replace_tags("missing", &vec!["tag".to_owned()]);

    assert!(matches!(result, Err(AppError { code: ErrorCode::SqliteError, .. })));
}

#[test]
fn req_img_001_repository_records_source_history_once_per_identity() {
    let conn = open_in_memory().unwrap();
    let repo = ImageRepository::new(&conn);
    repo.insert(&sample_image("image-1", "144920810", 0)).unwrap();

    repo.add_source("image-1", ImageSource::Single, None).unwrap();
    repo.add_source("image-1", ImageSource::Single, None).unwrap();
    repo.add_source("image-1", ImageSource::Smart, None).unwrap();

    let sources = repo.sources_for_image("image-1").unwrap();
    assert_eq!(sources.len(), 2);
    assert!(sources.iter().any(|source| source.source == ImageSource::Single));
    assert!(sources.iter().any(|source| source.source == ImageSource::Smart));
}

#[test]
fn req_img_002_req_img_003_repository_lists_images_with_filters_and_cursor() {
    let conn = open_in_memory().unwrap();
    let repo = ImageRepository::new(&conn);
    repo.insert(&sample_image("image-1", "144920810", 0)).unwrap();
    repo.replace_tags("image-1", &vec!["cyan".to_owned(), "girl".to_owned()]).unwrap();
    repo.add_source("image-1", ImageSource::Single, None).unwrap();
    let mut r18 = sample_image("image-2", "144920811", 0);
    r18.category = ImageCategory::R18;
    r18.author_uid = Some("author-r18".to_owned());
    repo.insert(&r18).unwrap();
    repo.replace_tags("image-2", &vec!["cyan".to_owned()]).unwrap();
    repo.add_source("image-2", ImageSource::Smart, None).unwrap();

    let page = repo
        .list_images(&ImageListQuery {
            tag: Some("cyan".to_owned()),
            category: None,
            author_uid: None,
            source: Some(ImageSource::Single),
            r18_visibility: ImageR18Visibility::Exclude,
            limit: 1,
            cursor_offset: 0,
        })
        .unwrap();

    assert_eq!(page.items.len(), 1);
    assert_eq!(page.items[0].image.image_id, "image-1");
    assert_eq!(page.items[0].tags, vec!["cyan", "girl"]);

    let first_page = repo
        .list_images(&ImageListQuery {
            tag: Some("cyan".to_owned()),
            category: None,
            author_uid: None,
            source: None,
            r18_visibility: ImageR18Visibility::Include,
            limit: 1,
            cursor_offset: 0,
        })
        .unwrap();
    assert_eq!(first_page.items.len(), 1);
    assert_eq!(first_page.next_cursor_offset, Some(1));
}

#[test]
fn req_img_001_repository_rejects_source_for_missing_image() {
    let conn = open_in_memory().unwrap();
    let repo = ImageRepository::new(&conn);

    let result = repo.add_source("missing", ImageSource::Single, None);

    assert!(matches!(result, Err(AppError { code: ErrorCode::SqliteError, .. })));
}

#[test]
fn req_img_001_repository_checks_constraints_are_sqlite_backed() {
    let conn = open_in_memory().unwrap();
    let repo = ImageRepository::new(&conn);
    let mut invalid = sample_image("image-1", "144920810", 0);
    invalid.local_path = String::new();

    repo.insert(&invalid).unwrap();
    let duplicate = repo.insert(&sample_image("image-2", "144920810", 0));

    assert!(matches!(duplicate, Err(AppError { code: ErrorCode::SqliteError, .. })));

    let raw_duplicate = conn.execute(
        "INSERT INTO images (
            image_id, pixiv_id, page_index, category, local_path,
            downloaded_at, created_at, updated_at
        ) VALUES (
            'image-3', '144920810', 0, 'normal', '/tmp/other.png',
            '2026-05-21T00:00:00Z', '2026-05-21T00:00:00Z', '2026-05-21T00:00:00Z'
        )",
        [],
    );
    assert!(matches!(
        raw_duplicate,
        Err(SqliteError::SqliteFailure(error, _))
            if error.code == SqliteErrorCode::ConstraintViolation
    ));
}

#[test]
fn req_img_004_req_sec_002_resolves_image_file_inside_allowed_root() {
    let conn = open_in_memory().unwrap();
    let repo = ImageRepository::new(&conn);
    let root = "/srv/pixiv_platform_image_file_ok";
    let image_path = "/srv/pixiv_platform_image_file_ok/originals/144920810/144920810_p0.jpg";
    let fs = FakeFs::default().with_dir(root).with_file(image_path, b"preview bytes");

    let mut image = sample_image("image-1", "144920810", 0);
    image.local_path = image_path.to_owned();
    repo.insert(&image).unwrap();
    let stored = repo.find_by_id("image-1").unwrap().unwrap();

    let file = resolve_on_disk(&fs, &stored, &[root]).unwrap();

    assert_eq!(file.path, image_path);
    assert_eq!(file.content_type, "image/jpeg");
}

#[test]
fn req_img_004_req_sec_002_rejects_image_file_outside_allowed_root() {
    let conn = open_in_memory().unwrap();
    let repo = ImageRepository::new(&conn);
    let root = "/srv/pixiv_platform_image_file_root";
    let outside = "/srv/pixiv_platform_image_file_outside.jpg";
    let fs = FakeFs::default().with_dir(root).with_file(outside, b"outside bytes");

    let mut image = sample_image("image-1", "144920810", 0);
    image.local_path = outside.to_owned();
    repo.insert(&image).unwrap();
    let stored = repo.find_by_id("image-1").unwrap().unwrap();

    let error = resolve_on_disk(&fs, &stored, &[root]).unwrap_err();

    assert_eq!(error.code, ErrorCode::ValidationError);
}

#[test]
fn req_img_007_req_sec_002_delete_image_removes_file_and_index_rows() {
    let conn = open_in_memory().unwrap();
    let repo = ImageRepository::new(&conn);
    let root = "/srv/pixiv_platform_image_delete_ok";
    let image_path = "/srv/pixiv_platform_image_delete_ok/originals/144920810/144920810_p0.jpg";
    let fs = FakeFs::default().with_dir(root).with_file(image_path, b"delete bytes");

    let mut image = sample_image("image-1", "144920810", 0);
    image.local_path = image_path.to_owned();
    repo.insert(&image).unwrap();
    repo.replace_tags("image-1", &vec!["cyan".to_owned()]).unwrap();
    repo.add_source("image-1", ImageSource::Single, None).unwrap();

    let outcome = delete_on_disk(&fs, &repo, "image-1", &[root]).unwrap();

    assert_eq!(outcome.image_id, "image-1");
    assert!(outcome.file_deleted);
    assert!(!outcome.file_missing);
    assert!(!fs.has_path(image_path));
    assert!(repo.find_by_id("image-1").unwrap().is_none());
    assert!(repo.tags_for_image("image-1").unwrap().is_empty());
    assert!(repo.sources_for_image("image-1").unwrap().is_empty());
}

#[test]
fn req_img_007_delete_image_cleans_index_when_file_is_already_missing() {
    let conn = open_in_memory().unwrap();
    let repo = ImageRepository::new(&conn);
    let root = "/srv/pixiv_platform_image_delete_missing";
    let image_path = "/srv/pixiv_platform_image_delete_missing/originals/144920810/144920810_p0.jpg";
    let fs = FakeFs::default().with_dir("/srv/pixiv_platform_image_delete_missing/originals/144920810");

    let mut image = sample_image("image-1", "144920810", 0);
    image.local_path = image_path.to_owned();
    repo.insert(&image).unwrap();

    let outcome = delete_on_disk(&fs, &repo, "image-1", &[root]).unwrap();

    assert!(!outcome.file_deleted);
    assert!(outcome.file_missing);
    assert!(repo.find_by_id("image-1").unwrap().is_none());
}

#[test]
fn req_img_007_req_sec_002_delete_image_rejects_outside_allowed_root() {
    let conn = open_in_memory().unwrap();
    let repo = ImageRepository::new(&conn);
    let root = "/srv/pixiv_platform_image_delete_root";
    let outside = "/srv/pixiv_platform_image_delete_outside.jpg";
    let fs = FakeFs::default().with_dir(root).with_file(outside, b"outside bytes");

    let mut image = sample_image("image-1", "144920810", 0);
    image.local_path = outside.to_owned();
    repo.insert(&image).unwrap();

    let error = delete_on_disk(&fs, &repo, "image-1", &[root]).unwrap_err();

    assert_eq!(error.code, ErrorCode::ValidationError);
    assert!(fs.has_path(outside));
    assert!(repo.find_by_id("image-1").unwrap().is_some());
}

#[test]
fn relative_stored_path_is_refused_before_the_disk_is_consulted() {
    let conn = open_in_memory().unwrap();
    let repo = ImageRepository::new(&conn);
    let mut image = sample_image("image-1", "144920810", 0);
    image.local_path = "relative/file.jpg".to_owned();
    repo.insert(&image).unwrap();
    let stored = repo.find_by_id("image-1").unwrap().unwrap();

    let error = resolve_image_file(&stored, &PathProbe::File("/x/file.jpg".to_owned()), &vec!["/x".to_owned()])
        .unwrap_err();
    assert_eq!(error.code, ErrorCode::ValidationError);
    assert_eq!(error.message, "stored image path must be absolute");
}

#[test]
fn failed_removal_keeps_the_index() {
    let conn = open_in_memory().unwrap();
    let repo = ImageRepository::new(&conn);
    repo.insert(&sample_image("image-1", "144920810", 0)).unwrap();
    let image = image_to_delete(&repo, "image-1").unwrap();

    let error =
        complete_image_delete(&repo, image, Some(FileRemoval::Failed("denied".to_owned()))).unwrap_err();

    assert_eq!(error.code, ErrorCode::FilesystemWriteFailed);
    assert_eq!(error.message, "image file could not be deleted: denied");
    assert!(repo.find_by_id("image-1").unwrap().is_some());
}

#[test]
fn unknown_image_cannot_be_deleted() {
    let conn = open_in_memory().unwrap();
    let repo = ImageRepository::new(&conn);
    let error = image_to_delete(&repo, "nope").unwrap_err();
    assert_eq!(error.code, ErrorCode::PixivNotFound);
    assert_eq!(error.message, "image not found");
}
