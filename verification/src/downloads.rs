//! Downloading one page of a Pixiv work.  The decisions (validation, the
//! R18 policy, deduplication against the index and the disk, the planned
//! path, what gets indexed) are made here; the two file-system steps (does a
//! file exist, write these bytes) are asked of the caller as actions, and
//! their answers come back as events.
use vstd::prelude::*;

use crate::domain::{
    DownloadItemStatus, DownloadOutcome, DownloadRequest, ImageSource, PixivPage, PixivWork,
};
use crate::errors::{AppError, ErrorCode};
use crate::images::{
    ImageRecord, ImageRepository, NewImageRecord, ADD_SOURCE_SQL, INSERT_IMAGE_SQL, UPDATE_IMAGE_SQL,
    insert_image_params, update_image_params,
};
use crate::db::{opt_str, opt_text, opt_text_param, opt_u32_param, param_is, params_are, ParamSpec, SqlWrite};
use crate::pixiv::{extension_from_url, spec_url_extension, PixivClient};
use crate::storage::{clean_extension, planned_path, safe_segment, StoragePlanner};
use crate::text::{all_digit_chars, all_digits, decimal, is_blank, owned, push_decimal, push_str, trimmed};

verus! {

/// Why a download request is refused before anything is fetched.
pub open spec fn request_refusal(pixiv_id: Seq<char>) -> Option<Seq<char>> {
    if trimmed(pixiv_id).len() == 0 {
        Some("pixiv_id cannot be empty"@)
    } else if !all_digits(pixiv_id) {
        Some("pixiv_id must contain only digits"@)
    } else {
        None
    }
}

/// A Pixiv id must be non-blank and all ASCII digits.
pub fn validate_request(request: &DownloadRequest) -> (r: Result<(), AppError>)
    ensures
        match request_refusal(request.pixiv_id@) {
            Some(m) => r is Err && r->Err_0.code == ErrorCode::ValidationError && r->Err_0.message@
                == m,
            None => r is Ok,
        },
{
    if is_blank(request.pixiv_id.as_str()) {
        return Err(AppError::validation("pixiv_id cannot be empty"));
    }
    if !all_digit_chars(request.pixiv_id.as_str()) {
        return Err(AppError::validation("pixiv_id must contain only digits"));
    }
    Ok(())
}

/// A page index, or the first page when none is named.
pub open spec fn index_or_first(page_index: Option<u32>) -> u32 {
    match page_index {
        Some(p) => p,
        None => 0,
    }
}

/// The page a request asks for.
pub open spec fn wanted_page(request: DownloadRequest) -> u32 {
    index_or_first(request.page_index)
}

/// The position of the first page with index `wanted` at or after `from`.
pub open spec fn page_position_from(pages: Seq<PixivPage>, wanted: u32, from: int) -> Option<int>
    decreases pages.len() - from,
{
    if from < 0 || from >= pages.len() {
        None
    } else if pages[from].page_index == wanted {
        Some(from)
    } else {
        page_position_from(pages, wanted, from + 1)
    }
}

pub open spec fn page_position(pages: Seq<PixivPage>, wanted: u32) -> Option<int> {
    page_position_from(pages, wanted, 0)
}

/// Two pages with the same contents.
pub open spec fn same_page(a: PixivPage, b: PixivPage) -> bool {
    &&& a.page_index == b.page_index
    &&& a.original_url@ == b.original_url@
    &&& a.width == b.width
    &&& a.height == b.height
    &&& match (a.extension, b.extension) {
        (Some(x), Some(y)) => x@ == y@,
        (None, None) => true,
        _ => false,
    }
}

fn copy_text(value: &Option<String>) -> (r: Option<String>)
    ensures
        match (*value, r) {
            (Some(x), Some(y)) => x@ == y@,
            (None, None) => true,
            _ => false,
        },
{
    match value {
        Some(v) => Some(v.clone()),
        None => None,
    }
}

fn copy_page(page: &PixivPage) -> (r: PixivPage)
    ensures
        same_page(r, *page),
{
    PixivPage {
        page_index: page.page_index,
        original_url: page.original_url.clone(),
        width: page.width,
        height: page.height,
        extension: copy_text(&page.extension),
    }
}

proof fn lemma_page_position_from(pages: Seq<PixivPage>, wanted: u32, from: int)
    requires
        0 <= from <= pages.len(),
        forall|j: int| 0 <= j < from ==> pages[j].page_index != wanted,
    ensures
        match page_position_from(pages, wanted, from) {
            Some(i) => from <= i < pages.len() && pages[i].page_index == wanted && forall|j: int|
                0 <= j < i ==> pages[j].page_index != wanted,
            None => forall|j: int| 0 <= j < pages.len() ==> pages[j].page_index != wanted,
        },
    decreases pages.len() - from,
{
    if from < pages.len() && pages[from].page_index != wanted {
        lemma_page_position_from(pages, wanted, from + 1);
    }
}

/// The message for a work that lacks the asked page.
pub open spec fn missing_page_message(pixiv_id: Seq<char>, wanted: u32) -> Seq<char> {
    "Pixiv work "@ + pixiv_id + " has no page index "@ + decimal(wanted as nat)
}

/// The first page of the work with the asked index.
pub fn select_page(work: &PixivWork, page_index: Option<u32>) -> (r: Result<PixivPage, AppError>)
    ensures
        match page_position(work.pages@, index_or_first(page_index)) {
            Some(k) => r is Ok && same_page(r->Ok_0, work.pages@[k]),
            None => r is Err && r->Err_0.code == ErrorCode::PixivNotFound && r->Err_0.message@
                == missing_page_message(work.pixiv_id@, index_or_first(page_index)),
        },
{
    let wanted: u32 = match page_index {
        Some(p) => p,
        None => 0,
    };
    let mut i: usize = 0;
    while i < work.pages.len()
        invariant
            wanted == index_or_first(page_index),
            i <= work.pages@.len(),
            forall|j: int| 0 <= j < i ==> work.pages@[j].page_index != wanted,
        decreases work.pages.len() - i,
    {
        if work.pages[i].page_index == wanted {
            proof {
                lemma_page_position_from(work.pages@, wanted, 0);
                let k = page_position(work.pages@, wanted)->Some_0;
                if k < i {
                    assert(work.pages@[k].page_index != wanted);
                }
                if i < k {
                    assert(work.pages@[i as int].page_index != wanted);
                }
            }
            return Ok(copy_page(&work.pages[i]));
        }
        i += 1;
    }
    proof {
        lemma_page_position_from(work.pages@, wanted, 0);
    }
    let mut message = owned("Pixiv work ");
    push_str(&mut message, work.pixiv_id.as_str());
    push_str(&mut message, " has no page index ");
    push_decimal(&mut message, wanted as u128);
    Err(AppError::new(ErrorCode::PixivNotFound, message.as_str()))
}

/// The extension a page is stored under: its own, else the one in its URL
/// (`None` falls back to `bin` when the path is planned).
pub open spec fn page_extension(page: PixivPage) -> Option<Seq<char>> {
    match page.extension {
        Some(e) => Some(e@),
        None => spec_url_extension(page.original_url@),
    }
}

/// Where a page of a work is stored below `root`, if its id and extension are safe.
pub open spec fn planned_page_path(root: Seq<char>, work: PixivWork, page: PixivPage) -> Option<
    Seq<char>,
> {
    if !safe_segment(work.pixiv_id@) {
        None
    } else {
        match clean_extension(
            match page_extension(page) {
                Some(e) => e,
                None => "bin"@,
            },
        ) {
            Some(ext) => Some(planned_path(root, work.pixiv_id@, page.page_index as nat, ext)),
            None => None,
        }
    }
}

/// The path an original is stored at.
pub fn planned_original_path(storage: &StoragePlanner, work: &PixivWork, page: &PixivPage) -> (r:
    Result<String, AppError>)
    ensures
        match planned_page_path(storage.root_view(), *work, *page) {
            Some(p) => r is Ok && r->Ok_0@ == p,
            None => r is Err && r->Err_0.code == ErrorCode::ValidationError,
        },
{
    let from_url = extension_from_url(page.original_url.as_str());
    let extension: Option<&str> = match &page.extension {
        Some(e) => Some(e.as_str()),
        None => match &from_url {
            Some(e) => Some(e.as_str()),
            None => None,
        },
    };
    storage.original_path(work.pixiv_id.as_str(), page.page_index, extension)
}

/// The index id of a Pixiv page: `pixiv:<id>:p<page>`.
pub open spec fn pixiv_page_image_id(pixiv_id: Seq<char>, page_index: nat) -> Seq<char> {
    "pixiv:"@ + pixiv_id + ":p"@ + decimal(page_index)
}

pub fn image_id_for_pixiv_page(pixiv_id: &str, page_index: u32) -> (r: String)
    ensures
        r@ == pixiv_page_image_id(pixiv_id@, page_index as nat),
{
    let mut id = owned("pixiv:");
    push_str(&mut id, pixiv_id);
    push_str(&mut id, ":p");
    push_decimal(&mut id, page_index as u128);
    id
}

/// The index the downloader writes into, and the task it records as the source.
pub struct DownloadRepositoryContext<'conn> {
    pub images: ImageRepository<'conn>,
    pub source_task_id: Option<String>,
}

impl<'conn> DownloadRepositoryContext<'conn> {
    pub fn new(conn: &'conn rusqlite::Connection) -> (r: Self)
        ensures
            r.images.connection() == conn,
            r.source_task_id is None,
    {
        DownloadRepositoryContext { images: ImageRepository::new(conn), source_task_id: None }
    }

    pub fn for_task(conn: &'conn rusqlite::Connection, task_id: &str) -> (r: Self)
        ensures
            r.images.connection() == conn,
            r.source_task_id matches Some(t) && t@ == task_id@,
    {
        DownloadRepositoryContext {
            images: ImageRepository::new(conn),
            source_task_id: Some(owned(task_id)),
        }
    }
}

/// Whether the index gets a new row or refreshes an existing one.
pub enum IndexMode {
    InsertNew,
    UpdateExisting,
}

/// The id a page is indexed under: the existing image's, or the page's own.
pub open spec fn record_image_id(image_id: Option<Seq<char>>, work: PixivWork, page: PixivPage) -> Seq<char> {
    match image_id {
        Some(id) => id,
        None => pixiv_page_image_id(work.pixiv_id@, page.page_index as nat),
    }
}

/// The write putting a downloaded page into the index: a new row (`insert`)
/// or a refresh of the existing one, with the work's author, title and
/// rating, the page's number and size, and the file's path.
pub open spec fn page_record_write(
    w: SqlWrite,
    image_id: Seq<char>,
    work: PixivWork,
    page: PixivPage,
    path: Seq<char>,
    insert: bool,
) -> bool {
    if insert {
        &&& w.sql == INSERT_IMAGE_SQL@
        &&& w.params.len() == 11
        &&& param_is(w.params[0], ParamSpec::Text(image_id))
        &&& param_is(w.params[1], ParamSpec::Text(work.pixiv_id@))
        &&& param_is(w.params[2], ParamSpec::Integer(page.page_index as i64))
        &&& param_is(w.params[3], opt_text_param(opt_text(work.author_uid)))
        &&& param_is(w.params[4], opt_text_param(opt_text(work.title)))
        &&& param_is(w.params[5], ParamSpec::Text(work.category.name()))
        &&& param_is(w.params[6], ParamSpec::Text(path))
        &&& param_is(w.params[7], ParamSpec::Null)
        &&& param_is(w.params[8], opt_u32_param(page.width))
        &&& param_is(w.params[9], opt_u32_param(page.height))
    } else {
        &&& w.sql == UPDATE_IMAGE_SQL@
        &&& w.params.len() == 9
        &&& param_is(w.params[0], ParamSpec::Text(image_id))
        &&& param_is(w.params[1], opt_text_param(opt_text(work.author_uid)))
        &&& param_is(w.params[2], opt_text_param(opt_text(work.title)))
        &&& param_is(w.params[3], ParamSpec::Text(work.category.name()))
        &&& param_is(w.params[4], ParamSpec::Text(path))
        &&& param_is(w.params[5], ParamSpec::Null)
        &&& param_is(w.params[6], opt_u32_param(page.width))
        &&& param_is(w.params[7], opt_u32_param(page.height))
    }
}

/// The write recording where an indexed image came from.
pub open spec fn source_write(w: SqlWrite, image_id: Seq<char>, source: ImageSource, task_id: Option<Seq<char>>) -> bool {
    &&& w.sql == ADD_SOURCE_SQL@
    &&& w.params.len() == 3
    &&& param_is(w.params[0], ParamSpec::Text(image_id))
    &&& param_is(w.params[1], ParamSpec::Text(source.name()))
    &&& param_is(w.params[2], opt_text_param(task_id))
}

/// Whether the writes from `at` on put a downloaded page into the index,
/// under the existing image's id (or the page's own), and record its source.
pub open spec fn indexed_page(
    writes: Seq<SqlWrite>,
    at: int,
    existing: Option<ImageRecord>,
    work: PixivWork,
    page: PixivPage,
    path: Seq<char>,
    source: ImageSource,
    task_id: Option<Seq<char>>,
) -> bool {
    let id = record_image_id(
        match existing {
            Some(image) => Some(image.image_id@),
            None => None,
        },
        work,
        page,
    );
    &&& 0 <= at
    &&& writes.len() >= at + 2
    &&& page_record_write(writes[at], id, work, page, path, existing is None)
    &&& source_write(writes[at + 1], id, source, task_id)
}

/// Whether a provenance write names `source` and the task `task_id`.
pub open spec fn source_of(w: SqlWrite, source: ImageSource, task_id: Option<Seq<char>>) -> bool {
    &&& w.params.len() == 3
    &&& param_is(w.params[1], ParamSpec::Text(source.name()))
    &&& param_is(w.params[2], opt_text_param(task_id))
}

/// Writes a downloaded page into the index: its row (under the existing
/// image id, or the page's own id), its tags and this request's provenance.
/// The row and provenance writes are noted in `log`.
fn index_downloaded_page(
    repositories: &DownloadRepositoryContext,
    image_id: Option<&str>,
    source: ImageSource,
    work: &PixivWork,
    page: &PixivPage,
    final_path: &str,
    mode: IndexMode,
    log: &mut Ghost<Seq<SqlWrite>>,
) -> (r: Result<(), AppError>)
    ensures
        r matches Err(e) ==> e.code == ErrorCode::SqliteError || e.code == ErrorCode::InternalError,
        final(log)@.len() >= old(log)@.len(),
        forall|k: int| 0 <= k < old(log)@.len() ==> final(log)@[k] == old(log)@[k],
        forall|k: int|
            old(log)@.len() <= k < final(log)@.len() && (#[trigger] final(log)@[k]).sql == ADD_SOURCE_SQL@
                && final(log)@[k].params.len() == 3 ==> source_of(
                final(log)@[k],
                source,
                opt_text(repositories.source_task_id),
            ),
        r is Ok ==> final(log)@.len() == old(log)@.len() + 2 && page_record_write(
            final(log)@[old(log)@.len() as int],
            record_image_id(opt_str(image_id), *work, *page),
            *work,
            *page,
            final_path@,
            mode is InsertNew,
        ) && source_write(
            final(log)@[old(log)@.len() + 1int],
            record_image_id(opt_str(image_id), *work, *page),
            source,
            opt_text(repositories.source_task_id),
        ),
{
    let record_id = match image_id {
        Some(id) => owned(id),
        None => image_id_for_pixiv_page(work.pixiv_id.as_str(), page.page_index),
    };
    let downloaded_at = repositories.images.current_timestamp()?;
    let record = NewImageRecord {
        image_id: record_id,
        pixiv_id: work.pixiv_id.clone(),
        page_index: page.page_index,
        author_uid: copy_text(&work.author_uid),
        title: copy_text(&work.title),
        category: work.category,
        local_path: owned(final_path),
        thumbnail_path: None,
        width: page.width,
        height: page.height,
        downloaded_at,
    };
    let ghost start = log@;
    match mode {
        IndexMode::InsertNew => repositories.images.insert_noted(&record, log)?,
        IndexMode::UpdateExisting => repositories.images.update_from_download_noted(&record, log)?,
    }
    let ghost indexed = log@;
    proof {
        let w = log@[start.len() as int];
        assert(w == log@.last());
        if mode is InsertNew {
            assert(params_are(w.params, insert_image_params(record)));
            assert(param_is(w.params[0], insert_image_params(record)[0]));
            assert(param_is(w.params[3], insert_image_params(record)[3]));
            assert(param_is(w.params[4], insert_image_params(record)[4]));
            assert(param_is(w.params[7], insert_image_params(record)[7]));
        } else {
            assert(params_are(w.params, update_image_params(record)));
            assert(param_is(w.params[0], update_image_params(record)[0]));
            assert(param_is(w.params[1], update_image_params(record)[1]));
            assert(param_is(w.params[2], update_image_params(record)[2]));
            assert(param_is(w.params[5], update_image_params(record)[5]));
        }
        assert(page_record_write(
            w,
            record_image_id(opt_str(image_id), *work, *page),
            *work,
            *page,
            final_path@,
            mode is InsertNew,
        ));
    }
    repositories.images.replace_tags(record.image_id.as_str(), &work.tags)?;
    let task_id: Option<&str> = match &repositories.source_task_id {
        Some(t) => Some(t.as_str()),
        None => None,
    };
    let added = repositories.images.add_source_noted(record.image_id.as_str(), source, task_id, log);
    proof {
        let w = log@.last();
        assert(param_is(w.params[1], ParamSpec::Text(source.name())));
        assert(param_is(w.params[2], opt_text_param(opt_str(task_id))));
        assert(log@[start.len() as int] == indexed[start.len() as int]);
    }
    added?;
    proof {
        assert(log@[start.len() as int] == indexed[start.len() as int]);
        let w = log@.last();
        assert(param_is(w.params[2], opt_text_param(opt_str(task_id))));
    }
    Ok(())
}

/// Where a download stands between two file-system steps.
pub enum DownloadPhase {
    /// The page is indexed; waiting to learn whether its file is still there.
    CheckingIndexed { existing: ImageRecord },
    /// The work is fetched and allowed; waiting to learn whether its planned file exists.
    CheckingPlanned { existing: Option<ImageRecord>, work: PixivWork, page: PixivPage, path: String },
    /// The bytes are downloaded; waiting for them to be written.
    Writing { existing: Option<ImageRecord>, work: PixivWork, page: PixivPage, path: String },
    /// Finished.
    Done,
}

/// The answer to a file-system step.
pub enum FileEvent {
    /// Whether the asked file exists.
    Exists(bool),
    /// How writing the bytes went.
    Written(Result<(), AppError>),
}

/// What the downloader needs next.
pub enum DownloadAction {
    /// Report whether this file exists.
    CheckFile(String),
    /// Write these bytes to this path, atomically.
    WriteFile { path: String, bytes: Vec<u8> },
    /// The download is over.
    Finished(Result<DownloadOutcome, AppError>),
}

/// The outcome of a page skipped because the policy excludes its rating.
pub open spec fn is_policy_skip(o: DownloadOutcome, pixiv_id: Seq<char>, page_index: u32) -> bool {
    &&& o.pixiv_id@ == pixiv_id
    &&& o.page_index == page_index
    &&& o.status == DownloadItemStatus::SkippedByPolicy
    &&& o.local_path is None
}

/// The outcome of a page whose file is already on disk.
pub open spec fn is_duplicate(o: DownloadOutcome, pixiv_id: Seq<char>, page_index: u32, path: Seq<
    char,
>) -> bool {
    &&& o.pixiv_id@ == pixiv_id
    &&& o.page_index == page_index
    &&& o.status == DownloadItemStatus::SkippedDuplicate
    &&& o.local_path matches Some(p) && p@ == path
}

/// The outcome of a page saved (written, or repaired in the index).
pub open spec fn is_saved(o: DownloadOutcome, work: PixivWork, page: PixivPage, path: Seq<char>) -> bool {
    &&& o.pixiv_id@ == work.pixiv_id@
    &&& o.page_index == page.page_index
    &&& o.status == DownloadItemStatus::Saved
    &&& o.local_path matches Some(p) && p@ == path
    &&& o.metadata == Some(work)
}

/// A work skipped because the policy excludes its rating.
pub fn outcome_for_policy_skip(work: PixivWork, page_index: u32) -> (o: DownloadOutcome)
    ensures
        is_policy_skip(o, work.pixiv_id@, page_index),
        o.metadata == Some(work),
{
    DownloadOutcome {
        pixiv_id: work.pixiv_id.clone(),
        page_index,
        status: DownloadItemStatus::SkippedByPolicy,
        local_path: None,
        metadata: Some(work),
    }
}

/// An indexed page skipped because the policy excludes its rating.
pub fn outcome_for_indexed_policy_skip(image: ImageRecord) -> (o: DownloadOutcome)
    ensures
        is_policy_skip(o, image.pixiv_id@, image.page_index),
        o.metadata is None,
{
    DownloadOutcome {
        pixiv_id: image.pixiv_id,
        page_index: image.page_index,
        status: DownloadItemStatus::SkippedByPolicy,
        local_path: None,
        metadata: None,
    }
}

/// An indexed page whose file is still on disk.
pub fn outcome_for_indexed_duplicate(image: ImageRecord) -> (o: DownloadOutcome)
    ensures
        is_duplicate(o, image.pixiv_id@, image.page_index, image.local_path@),
        o.metadata is None,
{
    DownloadOutcome {
        pixiv_id: image.pixiv_id,
        page_index: image.page_index,
        status: DownloadItemStatus::SkippedDuplicate,
        local_path: Some(image.local_path),
        metadata: None,
    }
}

/// A page whose planned file is already on disk.
pub fn outcome_for_existing_file(work: PixivWork, page_index: u32, path: String) -> (o:
    DownloadOutcome)
    ensures
        is_duplicate(o, work.pixiv_id@, page_index, path@),
        o.metadata == Some(work),
{
    DownloadOutcome {
        pixiv_id: work.pixiv_id.clone(),
        page_index,
        status: DownloadItemStatus::SkippedDuplicate,
        local_path: Some(path),
        metadata: Some(work),
    }
}

/// One download in progress.
pub struct DownloadRun<'conn> {
    request: DownloadRequest,
    storage: StoragePlanner,
    repositories: Option<DownloadRepositoryContext<'conn>>,
    phase: DownloadPhase,
    /// The index and provenance writes handed to SQLite, in order.
    index_writes: Ghost<Seq<SqlWrite>>,
}

impl<'conn> DownloadRun<'conn> {
    pub closed spec fn request_view(self) -> DownloadRequest {
        self.request
    }

    pub closed spec fn root_view(self) -> Seq<char> {
        self.storage.root_view()
    }

    pub closed spec fn phase_view(self) -> DownloadPhase {
        self.phase
    }

    /// The index and provenance writes handed to SQLite, in order.
    pub closed spec fn index_writes_view(self) -> Seq<SqlWrite> {
        self.index_writes@
    }

    /// The task recorded as the source of what this download indexes.
    pub closed spec fn source_task_view(self) -> Option<Seq<char>> {
        match self.repositories {
            Some(r) => opt_text(r.source_task_id),
            None => None,
        }
    }

    /// Whether this download keeps the image index up to date.
    pub closed spec fn indexed(self) -> bool {
        self.repositories is Some
    }

    /// What every phase guarantees: a file is only ever checked or written
    /// for a work the policy allows, at the page's planned path.
    pub open spec fn inv(self) -> bool {
        &&& self.sources_faithful()
        &&& match self.phase_view() {
            DownloadPhase::CheckingIndexed { existing } => {
                &&& self.indexed()
                &&& existing.pixiv_id@ == self.request_view().pixiv_id@
                &&& existing.page_index == wanted_page(self.request_view())
                &&& self.request_view().r18_policy.spec_allows(existing.category)
            },
            DownloadPhase::CheckingPlanned { existing, work, page, path }
            | DownloadPhase::Writing { existing, work, page, path } => {
                &&& self.request_view().r18_policy.spec_allows(work.category)
                &&& page.page_index == wanted_page(self.request_view())
                &&& planned_page_path(self.root_view(), work, page) == Some(path@)
                &&& (existing is Some ==> self.indexed())
            },
            DownloadPhase::Done => true,
        }
    }

    /// Every provenance this download recorded names the request's source and
    /// the run's task.
    pub open spec fn sources_faithful(self) -> bool {
        forall|k: int|
            0 <= k < self.index_writes_view().len() && (#[trigger] self.index_writes_view()[k]).sql
                == ADD_SOURCE_SQL@ && self.index_writes_view()[k].params.len() == 3 ==> source_of(
                self.index_writes_view()[k],
                self.request_view().source,
                self.source_task_view(),
            )
    }

    /// A download that recorded the same provenances, for the same request and
    /// task, is as faithful.
    proof fn lemma_faithful_kept(a: Self, b: Self)
        requires
            a.sources_faithful(),
            a.index_writes == b.index_writes,
            a.request == b.request,
            a.repositories == b.repositories,
        ensures
            b.sources_faithful(),
    {
        assert forall|k: int|
            0 <= k < b.index_writes_view().len() && (#[trigger] b.index_writes_view()[k]).sql
                == ADD_SOURCE_SQL@ && b.index_writes_view()[k].params.len() == 3 implies source_of(
            b.index_writes_view()[k],
            b.request_view().source,
            b.source_task_view(),
        ) by {
            assert(a.index_writes_view()[k] == b.index_writes_view()[k]);
        }
    }

    /// The action a phase is waiting on.
    pub open spec fn awaits(self, action: DownloadAction) -> bool {
        match (self.phase_view(), action) {
            (DownloadPhase::CheckingIndexed { existing }, DownloadAction::CheckFile(p)) => p@
                == existing.local_path@,
            (DownloadPhase::CheckingPlanned { path, .. }, DownloadAction::CheckFile(p)) => p@
                == path@,
            (DownloadPhase::Writing { path, .. }, DownloadAction::WriteFile { path: p, .. }) => p@
                == path@,
            (DownloadPhase::Done, DownloadAction::Finished(_)) => true,
            _ => false,
        }
    }

    /// Fetches the work and plans its file, or finishes: with the fetch
    /// error, a policy skip, a missing page or an unsafe path.
    fn fetch_and_plan<P: PixivClient>(&mut self, pixiv: &P, existing: Option<ImageRecord>) -> (r:
        DownloadAction)
        requires
            old(self).phase_view() is Done,
            existing is Some ==> old(self).indexed(),
            old(self).sources_faithful(),
        ensures
            final(self).request_view() == old(self).request_view(),
            final(self).root_view() == old(self).root_view(),
            final(self).indexed() == old(self).indexed(),
            final(self).index_writes == old(self).index_writes,
            final(self).source_task_view() == old(self).source_task_view(),
            final(self).inv(),
            final(self).awaits(r),
            r is CheckFile || r is Finished,
            r is CheckFile ==> (final(self).phase_view() matches DownloadPhase::CheckingPlanned {
                existing: e, .. } && e == existing),
            r matches DownloadAction::Finished(Ok(o)) ==> (o.metadata matches Some(w)
                && !old(self).request_view().r18_policy.spec_allows(w.category) && is_policy_skip(
                o,
                w.pixiv_id@,
                wanted_page(old(self).request_view()),
            )),
    {
        let fetched = pixiv.fetch_work(self.request.pixiv_id.as_str());
        self.plan_fetched(fetched, existing)
    }

    /// Goes on from the fetch of the requested work: its error ends the
    /// download; a work whose rating the policy excludes is skipped, with no
    /// file; otherwise the page is selected and its planned file checked.
    pub fn plan_fetched(
        &mut self,
        fetched: Result<PixivWork, AppError>,
        existing: Option<ImageRecord>,
    ) -> (r: DownloadAction)
        requires
            old(self).phase_view() is Done,
            existing is Some ==> old(self).indexed(),
            old(self).sources_faithful(),
        ensures
            final(self).request_view() == old(self).request_view(),
            final(self).root_view() == old(self).root_view(),
            final(self).indexed() == old(self).indexed(),
            final(self).index_writes_view() == old(self).index_writes_view(),
            final(self).source_task_view() == old(self).source_task_view(),
            final(self).inv(),
            final(self).awaits(r),
            r is CheckFile || r is Finished,
            r is CheckFile ==> (final(self).phase_view() matches DownloadPhase::CheckingPlanned {
                existing: e, .. } && e == existing),
            r matches DownloadAction::Finished(Ok(o)) ==> (o.metadata matches Some(w)
                && !old(self).request_view().r18_policy.spec_allows(w.category) && is_policy_skip(
                o,
                w.pixiv_id@,
                wanted_page(old(self).request_view()),
            )),
            fetched matches Err(e) ==> (r matches DownloadAction::Finished(Err(x)) && x == e),
            // The file is planned for the fetched work itself, its metadata untouched.
            fetched matches Ok(w) ==> (r is CheckFile ==> (final(self).phase_view() matches DownloadPhase::CheckingPlanned {
                work, .. } && work == w)),
            fetched matches Ok(w) ==> (!old(self).request_view().r18_policy.spec_allows(w.category)
                ==> (r matches DownloadAction::Finished(Ok(o)) && is_policy_skip(
                o,
                w.pixiv_id@,
                wanted_page(old(self).request_view()),
            ) && o.metadata == Some(w))),
    {
        let work = match fetched {
            Ok(work) => work,
            Err(error) => return DownloadAction::Finished(Err(error)),
        };
        let page_index = match self.request.page_index {
            Some(p) => p,
            None => 0,
        };
        if !self.request.r18_policy.allows(work.category) {
            return DownloadAction::Finished(Ok(outcome_for_policy_skip(work, page_index)));
        }
        let page = match select_page(&work, self.request.page_index) {
            Ok(page) => page,
            Err(error) => return DownloadAction::Finished(Err(error)),
        };
        proof {
            lemma_page_position_from(work.pages@, page_index, 0);
        }
        let path = match planned_original_path(&self.storage, &work, &page) {
            Ok(path) => path,
            Err(error) => return DownloadAction::Finished(Err(error)),
        };
        let check = path.clone();
        let ghost before = *self;
        self.phase = DownloadPhase::CheckingPlanned { existing, work, page, path };
        proof {
            Self::lemma_faithful_kept(before, *self);
        }
        DownloadAction::CheckFile(check)
    }

    /// Indexes a page whose file is in place and reports it.
    fn index_and_report(
        &mut self,
        existing: Option<ImageRecord>,
        work: PixivWork,
        page: PixivPage,
        path: String,
        saved: bool,
    ) -> (r: Result<DownloadOutcome, AppError>)
        requires
            existing is Some ==> old(self).indexed(),
            old(self).sources_faithful(),
        ensures
            final(self).sources_faithful(),
            final(self).request == old(self).request,
            final(self).storage == old(self).storage,
            final(self).repositories == old(self).repositories,
            final(self).phase == old(self).phase,
            final(self).index_writes@.len() >= old(self).index_writes@.len(),
            forall|k: int| 0 <= k < old(self).index_writes@.len() ==> final(self).index_writes@[k]
                == old(self).index_writes@[k],
            // The page is written into the index under the existing image's id (or its own),
            // with the work's metadata and the file's path, and the request's source recorded.
            old(self).indexed() && r is Ok ==> final(self).index_writes@.len()
                == old(self).index_writes@.len() + 2 && page_record_write(
                final(self).index_writes@[old(self).index_writes@.len() as int],
                record_image_id(
                    match existing {
                        Some(image) => Some(image.image_id@),
                        None => None,
                    },
                    work,
                    page,
                ),
                work,
                page,
                path@,
                existing is None,
            ) && source_write(
                final(self).index_writes@[old(self).index_writes@.len() + 1int],
                record_image_id(
                    match existing {
                        Some(image) => Some(image.image_id@),
                        None => None,
                    },
                    work,
                    page,
                ),
                old(self).request.source,
                old(self).source_task_view(),
            ),
            old(self).repositories is None ==> r is Ok,
            r matches Err(e) ==> e.code == ErrorCode::SqliteError || e.code
                == ErrorCode::InternalError,
            r matches Ok(o) ==> if saved {
                is_saved(o, work, page, path@)
            } else {
                is_duplicate(o, work.pixiv_id@, page.page_index, path@) && o.metadata == Some(work)
            },
    {
        if let Some(repositories) = &self.repositories {
            let (image_id, mode): (Option<&str>, IndexMode) = match &existing {
                Some(image) => (Some(image.image_id.as_str()), IndexMode::UpdateExisting),
                None => (None, IndexMode::InsertNew),
            };
            let mut log = Ghost(self.index_writes@);
            let indexed = index_downloaded_page(
                repositories,
                image_id,
                self.request.source,
                &work,
                &page,
                path.as_str(),
                mode,
                &mut log,
            );
            self.index_writes = log;
            proof {
                let ws = self.index_writes@;
                let n = old(self).index_writes@.len();
                assert forall|k: int|
                    0 <= k < ws.len() && (#[trigger] ws[k]).sql == ADD_SOURCE_SQL@ && ws[k].params.len() == 3 implies source_of(
                    ws[k],
                    self.request.source,
                    self.source_task_view(),
                ) by {
                    if k < n {
                        assert(ws[k] == old(self).index_writes@[k]);
                        assert(old(self).index_writes_view()[k] == ws[k]);
                    }
                }
                assert(self.sources_faithful());
            }
            indexed?;
        }
        if saved {
            Ok(
                DownloadOutcome {
                    pixiv_id: work.pixiv_id.clone(),
                    page_index: page.page_index,
                    status: DownloadItemStatus::Saved,
                    local_path: Some(path),
                    metadata: Some(work),
                },
            )
        } else {
            Ok(outcome_for_existing_file(work, page.page_index, path))
        }
    }

    /// Carries the download one step further with the answer to the last action.
    pub fn resume<P: PixivClient>(&mut self, pixiv: &P, event: FileEvent) -> (r: DownloadAction)
        requires
            old(self).inv(),
        ensures
            final(self).request_view() == old(self).request_view(),
            final(self).root_view() == old(self).root_view(),
            final(self).indexed() == old(self).indexed(),
            final(self).source_task_view() == old(self).source_task_view(),
            final(self).inv(),
            final(self).awaits(r),
            // A write is only asked for right after its planned file was reported missing.
            r is WriteFile ==> old(self).phase_view() is CheckingPlanned && event == FileEvent::Exists(
                false,
            ) && final(self).phase_view() is Writing,
            match (old(self).phase_view(), event) {
                (DownloadPhase::CheckingIndexed { existing }, FileEvent::Exists(true)) => r matches DownloadAction::Finished(res) && (res matches Ok(o) ==> is_duplicate(
                    o,
                    existing.pixiv_id@,
                    existing.page_index,
                    existing.local_path@,
                ) && o.metadata is None),
                // An indexed page whose file is gone is fetched again and its file planned
                // anew, the index row kept for repair.
                (DownloadPhase::CheckingIndexed { existing }, FileEvent::Exists(false)) => (r is CheckFile
                    || r is Finished) && (r is CheckFile ==> (final(self).phase_view() matches DownloadPhase::CheckingPlanned {
                    existing: e, .. } && e == Some(existing))),
                (
                    DownloadPhase::CheckingPlanned { existing, work, page, path },
                    FileEvent::Exists(true),
                ) => r matches DownloadAction::Finished(res) && (res matches Ok(o) ==> if existing is Some {
                    is_saved(o, work, page, path@)
                } else {
                    is_duplicate(o, work.pixiv_id@, page.page_index, path@) && o.metadata == Some(
                        work,
                    )
                }),
                (DownloadPhase::CheckingPlanned { path, .. }, FileEvent::Exists(false)) => (r matches DownloadAction::WriteFile { path: p, .. } && p@ == path@) || r matches DownloadAction::Finished(Err(_)),
                (DownloadPhase::Writing { .. }, FileEvent::Written(Err(e))) => r == DownloadAction::Finished(
                    Err(e),
                ),
                (DownloadPhase::Writing { work, page, path, .. }, FileEvent::Written(Ok(()))) => r matches DownloadAction::Finished(res) && (res matches Ok(o) ==> is_saved(o, work, page, path@)),
                _ => r matches DownloadAction::Finished(Err(e)) && e.code == ErrorCode::InternalError,
            },
            // What an indexed download reports as done is in the index: a file found or
            // written gets its row and its provenance, an indexed file found its provenance.
            final(self).index_writes_view().len() >= old(self).index_writes_view().len(),
            forall|k: int|
                0 <= k < old(self).index_writes_view().len() ==> final(self).index_writes_view()[k]
                    == old(self).index_writes_view()[k],
            old(self).indexed() ==> match (old(self).phase_view(), event) {
                (
                    DownloadPhase::CheckingPlanned { existing, work, page, path },
                    FileEvent::Exists(true),
                )
                | (
                    DownloadPhase::Writing { existing, work, page, path },
                    FileEvent::Written(Ok(())),
                ) => r matches DownloadAction::Finished(Ok(_)) ==> indexed_page(
                    final(self).index_writes_view(),
                    old(self).index_writes_view().len() as int,
                    existing,
                    work,
                    page,
                    path@,
                    old(self).request_view().source,
                    old(self).source_task_view(),
                ),
                (DownloadPhase::CheckingIndexed { existing }, FileEvent::Exists(true)) => r matches DownloadAction::Finished(Ok(_)) ==> source_write(
                    final(self).index_writes_view()[old(self).index_writes_view().len() as int],
                    existing.image_id@,
                    old(self).request_view().source,
                    old(self).source_task_view(),
                ) && final(self).index_writes_view().len() > old(self).index_writes_view().len(),
                _ => true,
            },
    {
        let mut phase = DownloadPhase::Done;
        std::mem::swap(&mut phase, &mut self.phase);
        assert(phase == old(self).phase_view());
        assert(self.request_view() == old(self).request_view());
        match (phase, event) {
            (DownloadPhase::CheckingIndexed { existing }, FileEvent::Exists(true)) => {
                if let Some(repositories) = &self.repositories {
                    let task_id: Option<&str> = match &repositories.source_task_id {
                        Some(t) => Some(t.as_str()),
                        None => None,
                    };
                    let mut log = Ghost(self.index_writes@);
                    let added = repositories.images.add_source_noted(
                        existing.image_id.as_str(),
                        self.request.source,
                        task_id,
                        &mut log,
                    );
                    self.index_writes = log;
                    proof {
                        let w = self.index_writes@.last();
                        assert(param_is(w.params[2], opt_text_param(opt_str(task_id))));
                        let ws = self.index_writes@;
                        let n = old(self).index_writes@.len();
                        assert forall|k: int|
                            0 <= k < ws.len() && (#[trigger] ws[k]).sql == ADD_SOURCE_SQL@ && ws[k].params.len() == 3 implies source_of(
                            ws[k],
                            self.request.source,
                            self.source_task_view(),
                        ) by {
                            if k < n {
                                assert(ws[k] == old(self).index_writes@[k]);
                                assert(old(self).index_writes_view()[k] == ws[k]);
                            }
                        }
                    }
                    if let Err(error) = added {
                        return DownloadAction::Finished(Err(error));
                    }
                }
                DownloadAction::Finished(Ok(outcome_for_indexed_duplicate(existing)))
            },
            (DownloadPhase::CheckingIndexed { existing }, FileEvent::Exists(false)) => {
                self.fetch_and_plan(pixiv, Some(existing))
            },
            (
                DownloadPhase::CheckingPlanned { existing, work, page, path },
                FileEvent::Exists(true),
            ) => {
                let saved = existing.is_some();
                DownloadAction::Finished(self.index_and_report(existing, work, page, path, saved))
            },
            (
                DownloadPhase::CheckingPlanned { existing, work, page, path },
                FileEvent::Exists(false),
            ) => {
                let fetched = pixiv.download_image(page.original_url.as_str());
                let action = write_action(fetched, path.clone());
                if let DownloadAction::WriteFile { .. } = &action {
                    self.phase = DownloadPhase::Writing { existing, work, page, path };
                }
                action
            },
            (DownloadPhase::Writing { .. }, FileEvent::Written(Err(error))) => {
                DownloadAction::Finished(Err(error))
            },
            (DownloadPhase::Writing { existing, work, page, path }, FileEvent::Written(Ok(()))) => {
                DownloadAction::Finished(self.index_and_report(existing, work, page, path, true))
            },
            _ => DownloadAction::Finished(
                Err(AppError::new(ErrorCode::InternalError, "download step out of order")),
            ),
        }
    }
}

/// What follows the download of a page's image: writing exactly the bytes
/// received to the planned path, or ending with the download's error.
pub fn write_action(fetched: Result<Vec<u8>, AppError>, path: String) -> (r: DownloadAction)
    ensures
        match fetched {
            Ok(b) => r matches DownloadAction::WriteFile { path: p, bytes: x } && p@ == path@ && x@
                == b@,
            Err(e) => r matches DownloadAction::Finished(Err(x)) && x == e,
        },
{
    match fetched {
        Ok(bytes) => DownloadAction::WriteFile { path, bytes },
        Err(error) => DownloadAction::Finished(Err(error)),
    }
}

/// Starts downloading one page, without an index: validate, fetch, apply the
/// policy, plan the path.  The first action is a check of the planned file
/// or the end.
pub fn download_single<'conn, P: PixivClient>(
    request: &DownloadRequest,
    pixiv: &P,
    storage: &StoragePlanner,
) -> (r: (DownloadRun<'conn>, DownloadAction))
    ensures
        r.0.request_view().pixiv_id@ == request.pixiv_id@,
        r.0.request_view().page_index == request.page_index,
        r.0.request_view().source == request.source,
        r.0.request_view().r18_policy == request.r18_policy,
        r.0.root_view() == storage.root_view(),
        !r.0.indexed(),
        r.0.inv(),
        r.0.awaits(r.1),
        r.1 is CheckFile || r.1 is Finished,
        request_refusal(request.pixiv_id@) matches Some(m) ==> r.1 matches DownloadAction::Finished(Err(e)) && e.code == ErrorCode::ValidationError && e.message@ == m,
        r.1 matches DownloadAction::Finished(Ok(o)) ==> (o.metadata matches Some(w)
            && !request.r18_policy.spec_allows(w.category) && is_policy_skip(
            o,
            w.pixiv_id@,
            wanted_page(*request),
        )),
{
    let mut run = DownloadRun {
        request: copy_request(request),
        storage: StoragePlanner::new(storage.root()),
        repositories: None,
        phase: DownloadPhase::Done,
        index_writes: Ghost(Seq::empty()),
    };
    if let Err(error) = validate_request(request) {
        return (run, DownloadAction::Finished(Err(error)));
    }
    let action = run.fetch_and_plan(pixiv, None);
    (run, action)
}

fn copy_request(request: &DownloadRequest) -> (r: DownloadRequest)
    ensures
        r.pixiv_id@ == request.pixiv_id@,
        r.page_index == request.page_index,
        r.source == request.source,
        r.r18_policy == request.r18_policy,
{
    DownloadRequest {
        pixiv_id: request.pixiv_id.clone(),
        page_index: request.page_index,
        source: request.source,
        r18_policy: request.r18_policy,
    }
}

/// Starts downloading one page against the image index: an indexed page
/// the policy excludes is skipped, an indexed page is checked on disk first,
/// and otherwise the work is fetched and its planned file checked.
pub fn download_single_with_db<'conn, P: PixivClient>(
    request: &DownloadRequest,
    pixiv: &P,
    storage: &StoragePlanner,
    repositories: DownloadRepositoryContext<'conn>,
) -> (r: (DownloadRun<'conn>, DownloadAction))
    ensures
        r.0.request_view().pixiv_id@ == request.pixiv_id@,
        r.0.request_view().page_index == request.page_index,
        r.0.request_view().source == request.source,
        r.0.request_view().r18_policy == request.r18_policy,
        r.0.root_view() == storage.root_view(),
        r.0.indexed(),
        r.0.source_task_view() == opt_text(repositories.source_task_id),
        r.0.inv(),
        r.0.awaits(r.1),
        r.1 is CheckFile || r.1 is Finished,
        request_refusal(request.pixiv_id@) matches Some(m) ==> r.1 matches DownloadAction::Finished(Err(e)) && e.code == ErrorCode::ValidationError && e.message@ == m,
        r.1 matches DownloadAction::Finished(Ok(o)) ==> o.status == DownloadItemStatus::SkippedByPolicy
            && o.local_path is None,
{
    let mut run = DownloadRun {
        request: copy_request(request),
        storage: StoragePlanner::new(storage.root()),
        repositories: None,
        phase: DownloadPhase::Done,
        index_writes: Ghost(Seq::empty()),
    };
    if let Err(error) = validate_request(request) {
        run.repositories = Some(repositories);
        return (run, DownloadAction::Finished(Err(error)));
    }
    let page_index = match request.page_index {
        Some(p) => p,
        None => 0,
    };
    let found = repositories.images.find_by_pixiv_page(request.pixiv_id.as_str(), page_index);
    run.repositories = Some(repositories);
    start_from_lookup(run, found, pixiv)
}

/// Goes on from the index lookup of the requested page: its error ends the
/// download; an indexed page whose rating the policy excludes is skipped,
/// with no file; an indexed page is checked on disk; an unindexed one is
/// fetched.
pub fn start_from_lookup<'conn, P: PixivClient>(
    run: DownloadRun<'conn>,
    found: Result<Option<ImageRecord>, AppError>,
    pixiv: &P,
) -> (r: (DownloadRun<'conn>, DownloadAction))
    requires
        run.phase_view() is Done,
        run.indexed(),
        run.sources_faithful(),
        found matches Ok(Some(image)) ==> image.pixiv_id@ == run.request_view().pixiv_id@
            && image.page_index == wanted_page(run.request_view()),
    ensures
        r.0.request_view() == run.request_view(),
        r.0.root_view() == run.root_view(),
        r.0.source_task_view() == run.source_task_view(),
        r.0.indexed(),
        r.0.inv(),
        r.0.awaits(r.1),
        r.1 is CheckFile || r.1 is Finished,
        r.1 matches DownloadAction::Finished(Ok(o)) ==> o.status == DownloadItemStatus::SkippedByPolicy
            && o.local_path is None,
        found matches Err(e) ==> (r.1 matches DownloadAction::Finished(Err(x)) && x == e),
        found matches Ok(Some(image)) ==> (!run.request_view().r18_policy.spec_allows(image.category)
            ==> (r.1 matches DownloadAction::Finished(Ok(o)) && is_policy_skip(
            o,
            image.pixiv_id@,
            image.page_index,
        ))),
        // An indexed page is not fetched again: its file is checked, and the run waits
        // to learn whether it is still there (then the download is a duplicate).
        found matches Ok(Some(image)) ==> (run.request_view().r18_policy.spec_allows(image.category)
            ==> (r.1 matches DownloadAction::CheckFile(p) && p@ == image.local_path@
            && r.0.phase_view() == (DownloadPhase::CheckingIndexed { existing: image }))),
{
    let mut run = run;
    let existing = match found {
        Ok(existing) => existing,
        Err(error) => return (run, DownloadAction::Finished(Err(error))),
    };
    match existing {
        Some(image) => {
            if !run.request.r18_policy.allows(image.category) {
                return (run, DownloadAction::Finished(Ok(outcome_for_indexed_policy_skip(image))));
            }
            let check = image.local_path.clone();
            let ghost before = run;
            run.phase = DownloadPhase::CheckingIndexed { existing: image };
            proof {
                DownloadRun::lemma_faithful_kept(before, run);
            }
            (run, DownloadAction::CheckFile(check))
        },
        None => {
            let action = run.fetch_and_plan(pixiv, None);
            (run, action)
        },
    }
}

} // verus!
