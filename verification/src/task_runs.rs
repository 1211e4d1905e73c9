//! Creating and running download tasks.  A run walks a task through its
//! life: it is started, its works are discovered and recorded as items, each
//! item is downloaded in turn (failures are recorded and the batch goes on),
//! progress moves forward after every item, and the task ends in a terminal
//! status.  The file-system steps of each download are handed to the caller
//! as actions, like those of a single download.
use vstd::prelude::*;

use crate::db::{appended, execute, opt_u32_param, param_is, params_are, sql_integer, sql_text, ParamSpec, SqlWrite};
use crate::domain::{
    DownloadItemStatus, DownloadOutcome, DownloadRequest, ImageSource, PixivWorkRef, R18Policy, TaskItemStatus,
    TaskLogLevel, TaskStatus, TaskType,
};
use crate::downloads::{source_of,
    download_single_with_db, planned_page_path, DownloadAction, DownloadPhase,
    DownloadRepositoryContext, DownloadRun, FileEvent,
};
use crate::errors::{AppError, ErrorCode};
use crate::images::{ImageRepository, ADD_SOURCE_SQL};
use crate::pixiv::PixivClient;
use crate::storage::{clock_nanos, StoragePlanner};
use crate::task_requests::{
    author_request_json, bookmark_request_json, local_id, new_local_id, parse_author_request_json,
    parse_bookmark_request_json, parse_single_request_json, parse_smart_request_json,
    single_request_json, smart_request_json, string_array_json, string_array_text, task_item_id,
    item_id, request_tags,
    validate_author_request, validate_bookmark_request, validate_smart_request, author_request_refusal,
    limit_field, policy_field, text_field,
};
use crate::tasks::{
    FINISH_TASK_SQL, INSERT_TASK_SQL, UPDATE_ITEM_STATUS_SQL, UPDATE_PROGRESS_SQL, AuthorDownloadRequest, BatchDownloadTaskOutcome, BookmarkDownloadRequest, NewTaskItemRecord,
    NewTaskLogRecord, NewTaskRecord, SingleDownloadTaskOutcome, SmartDownloadRequest, TaskRecord,
    TaskRepository,
};
use crate::json::{json_document, JsonValue};
use crate::pixiv::join_words;
use crate::tags::views;
use crate::text::{owned, push_char, push_decimal, push_str};

verus! {

/// Appends a log line to a task.
pub fn log_phase(
    tasks: &TaskRepository,
    task_id: &str,
    level: TaskLogLevel,
    phase: &str,
    message: &str,
    process_id: u32,
) -> (r: Result<(), AppError>)
    ensures
        r is Err ==> r->Err_0.code == ErrorCode::SqliteError,
{
    let log = NewTaskLogRecord {
        log_id: new_local_id("log", process_id, clock_nanos()),
        task_id: owned(task_id),
        level,
        phase: owned(phase),
        message: owned(message),
        context_json: None,
    };
    tasks.add_log(&log)
}

/// The item status a download outcome gives.
pub open spec fn item_status_for(status: DownloadItemStatus) -> TaskItemStatus {
    match status {
        DownloadItemStatus::Saved => TaskItemStatus::Saved,
        DownloadItemStatus::SkippedDuplicate => TaskItemStatus::DuplicateSkipped,
        DownloadItemStatus::SkippedByPolicy => TaskItemStatus::PolicySkipped,
        DownloadItemStatus::Failed => TaskItemStatus::ItemFailed,
    }
}

pub fn task_item_status(status: DownloadItemStatus) -> (r: TaskItemStatus)
    ensures
        r == item_status_for(status),
{
    match status {
        DownloadItemStatus::Saved => TaskItemStatus::Saved,
        DownloadItemStatus::SkippedDuplicate => TaskItemStatus::DuplicateSkipped,
        DownloadItemStatus::SkippedByPolicy => TaskItemStatus::PolicySkipped,
        DownloadItemStatus::Failed => TaskItemStatus::ItemFailed,
    }
}

/// A task item records what its download did, one status for each outcome:
/// it is `saved` exactly when the download saved a file, `policy_skipped`
/// exactly when the policy skipped the work, `duplicate_skipped` exactly when
/// the file was already there, and failed exactly when the download failed.
/// So two different outcomes never record the same status.
pub proof fn lemma_item_status_follows_download(status: DownloadItemStatus, other: DownloadItemStatus)
    ensures
        item_status_for(status) == TaskItemStatus::Saved <==> status == DownloadItemStatus::Saved,
        item_status_for(status) == TaskItemStatus::PolicySkipped <==> status
            == DownloadItemStatus::SkippedByPolicy,
        item_status_for(status) == TaskItemStatus::DuplicateSkipped <==> status
            == DownloadItemStatus::SkippedDuplicate,
        item_status_for(status) == TaskItemStatus::ItemFailed <==> status == DownloadItemStatus::Failed,
        item_status_for(status) == item_status_for(other) ==> status == other,
{
}

/// The terminal status of a batch: with errors exactly when an item failed.
pub open spec fn batch_status(failed: u32) -> TaskStatus {
    if failed > 0 {
        TaskStatus::CompletedWithErrors
    } else {
        TaskStatus::Completed
    }
}

/// A finished batch is `completed_with_errors` exactly when an item failed,
/// `completed` otherwise, and never `failed` or still running.
pub proof fn lemma_batch_status(failed: u32)
    ensures
        batch_status(failed) == TaskStatus::CompletedWithErrors <==> failed > 0,
        batch_status(failed) == TaskStatus::Completed <==> failed == 0,
        batch_status(failed).spec_is_terminal(),
        batch_status(failed) != TaskStatus::Failed,
{
}

/// A fresh task id: `task-<process id>-<clock nanoseconds>`.
fn fresh_task_id(process_id: u32) -> (r: String)
    ensures
        exists|stamp: nat| r@ == local_id("task"@, process_id as nat, stamp),
{
    let stamp = clock_nanos();
    let id = new_local_id("task", process_id, stamp);
    assert(id@ == local_id("task"@, process_id as nat, stamp as nat));
    id
}

/// Stores a single download task under a fresh id, and returns the id.
pub fn create_single_download_task(
    request: &DownloadRequest,
    conn: &rusqlite::Connection,
    process_id: u32,
) -> (r: Result<String, AppError>)
    ensures
        r matches Ok(id) ==> exists|stamp: nat| id@ == local_id("task"@, process_id as nat, stamp),
{
    let task_id = fresh_task_id(process_id);
    create_single_download_task_with_id(task_id.as_str(), request, conn, process_id)?;
    Ok(task_id)
}

/// Stores an author batch task under a fresh id, and returns the id.
pub fn create_author_download_task(
    request: &AuthorDownloadRequest,
    conn: &rusqlite::Connection,
    process_id: u32,
) -> (r: Result<String, AppError>)
    ensures
        crate::task_requests::author_request_refusal(request.author_uid@, request.limit) matches Some(m) ==> (r matches Err(e) && e.code == ErrorCode::ValidationError && e.message@ == m),
        r matches Ok(id) ==> exists|stamp: nat| id@ == local_id("task"@, process_id as nat, stamp),
{
    let task_id = fresh_task_id(process_id);
    create_author_download_task_with_id(task_id.as_str(), request, conn, process_id)?;
    Ok(task_id)
}

/// Stores a bookmark batch task under a fresh id, and returns the id.
pub fn create_bookmark_download_task(
    request: &BookmarkDownloadRequest,
    conn: &rusqlite::Connection,
    process_id: u32,
) -> (r: Result<String, AppError>)
    ensures
        request.limit == 0 ==> (r matches Err(e) && e.code == ErrorCode::ValidationError
            && e.message@ == "limit must be at least 1"@),
        r matches Ok(id) ==> exists|stamp: nat| id@ == local_id("task"@, process_id as nat, stamp),
{
    let task_id = fresh_task_id(process_id);
    create_bookmark_download_task_with_id(task_id.as_str(), request, conn, process_id)?;
    Ok(task_id)
}

/// Stores a smart batch task under a fresh id, and returns the id.
pub fn create_smart_download_task(
    request: &SmartDownloadRequest,
    conn: &rusqlite::Connection,
    process_id: u32,
) -> (r: Result<String, AppError>)
    ensures
        crate::task_requests::smart_request_refusal(request.prompt@, request.tags@, request.limit) matches Some(m) ==> (r matches Err(e) && e.code == ErrorCode::ValidationError && e.message@ == m),
        r matches Ok(id) ==> exists|stamp: nat| id@ == local_id("task"@, process_id as nat, stamp),
{
    let task_id = fresh_task_id(process_id);
    create_smart_download_task_with_id(task_id.as_str(), request, conn, process_id)?;
    Ok(task_id)
}

/// Stores a single download task (one item, total 1) under `task_id`.
pub fn create_single_download_task_with_id(
    task_id: &str,
    request: &DownloadRequest,
    conn: &rusqlite::Connection,
    process_id: u32,
) -> (r: Result<(), AppError>)
    ensures
        r is Err ==> r->Err_0.code == ErrorCode::SqliteError,
{
    let tasks = TaskRepository::new(conn);
    let page_index = match request.page_index {
        Some(p) => p,
        None => 0,
    };
    tasks.insert_task(
        &NewTaskRecord {
            task_id: owned(task_id),
            task_type: TaskType::Single,
            request_json: single_request_json(request),
            progress_total: Some(1),
        },
    )?;
    tasks.insert_item(
        &NewTaskItemRecord {
            item_id: task_item_id(task_id, 0),
            task_id: owned(task_id),
            pixiv_id: Some(request.pixiv_id.clone()),
            page_index: Some(page_index),
            status: TaskItemStatus::Discovered,
        },
    )?;
    log_phase(&tasks, task_id, TaskLogLevel::Info, "validate_request", "Task created", process_id)
}

/// Stores an author batch task; an invalid request is refused before anything is stored.
pub fn create_author_download_task_with_id(
    task_id: &str,
    request: &AuthorDownloadRequest,
    conn: &rusqlite::Connection,
    process_id: u32,
) -> (r: Result<(), AppError>)
    ensures
        crate::task_requests::author_request_refusal(request.author_uid@, request.limit) matches Some(m) ==> (r matches Err(e) && e.code == ErrorCode::ValidationError && e.message@ == m),
{
    validate_author_request(request)?;
    let tasks = TaskRepository::new(conn);
    tasks.insert_task(
        &NewTaskRecord {
            task_id: owned(task_id),
            task_type: TaskType::Author,
            request_json: author_request_json(request),
            progress_total: Some(0),
        },
    )?;
    log_phase(
        &tasks,
        task_id,
        TaskLogLevel::Info,
        "validate_request",
        "Author batch task created",
        process_id,
    )
}

/// Stores a bookmark batch task; an invalid request is refused before anything is stored.
pub fn create_bookmark_download_task_with_id(
    task_id: &str,
    request: &BookmarkDownloadRequest,
    conn: &rusqlite::Connection,
    process_id: u32,
) -> (r: Result<(), AppError>)
    ensures
        request.limit == 0 ==> (r matches Err(e) && e.code == ErrorCode::ValidationError
            && e.message@ == "limit must be at least 1"@),
{
    validate_bookmark_request(request)?;
    let tasks = TaskRepository::new(conn);
    tasks.insert_task(
        &NewTaskRecord {
            task_id: owned(task_id),
            task_type: TaskType::Bookmark,
            request_json: bookmark_request_json(request),
            progress_total: Some(0),
        },
    )?;
    log_phase(
        &tasks,
        task_id,
        TaskLogLevel::Info,
        "validate_request",
        "Bookmark batch task created",
        process_id,
    )
}

/// Stores the record of a smart retrieval, created now.
pub const INSERT_SMART_RETRIEVAL_SQL: &'static str = "INSERT INTO smart_retrievals (
            retrieval_id, task_id, user_prompt, llm_model, llm_output_json,
            tags_json, negative_tags_json, requested_count, r18_policy, created_at
         ) VALUES (
            ?1, ?2, ?3, ?4, ?5, ?6, ?7, ?8, ?9, datetime('now')
         )";

/// The statement recording a smart retrieval, and its parameters: its id,
/// the task, the prompt and model, the stored request, the tag lists as JSON
/// arrays, the count and the policy's name.
pub fn smart_retrieval_statement(
    retrieval_id: &str,
    task_id: &str,
    request: &SmartDownloadRequest,
    request_json: &str,
) -> (r: (&'static str, Vec<rusqlite::types::Value>))
    ensures
        r.0@ == INSERT_SMART_RETRIEVAL_SQL@,
        params_are(
            r.1@,
            seq![
                ParamSpec::Text(retrieval_id@),
                ParamSpec::Text(task_id@),
                ParamSpec::Text(request.prompt@),
                ParamSpec::Text(request.model@),
                ParamSpec::Text(request_json@),
                ParamSpec::Text(string_array_text(request.tags@)),
                ParamSpec::Text(string_array_text(request.negative_tags@)),
                ParamSpec::Integer(request.limit as i64),
                ParamSpec::Text(request.r18_policy.name()),
            ],
        ),
{
    let mut params = Vec::new();
    params.push(sql_text(retrieval_id));
    params.push(sql_text(task_id));
    params.push(sql_text(request.prompt.as_str()));
    params.push(sql_text(request.model.as_str()));
    params.push(sql_text(request_json));
    params.push(sql_text(string_array_json(&request.tags).as_str()));
    params.push(sql_text(string_array_json(&request.negative_tags).as_str()));
    params.push(sql_integer(request.limit as i64));
    params.push(sql_text(request.r18_policy.as_str()));
    (INSERT_SMART_RETRIEVAL_SQL, params)
}

/// Stores a smart batch task and its retrieval record; an invalid request
/// is refused before anything is stored.
pub fn create_smart_download_task_with_id(
    task_id: &str,
    request: &SmartDownloadRequest,
    conn: &rusqlite::Connection,
    process_id: u32,
) -> (r: Result<(), AppError>)
    ensures
        crate::task_requests::smart_request_refusal(request.prompt@, request.tags@, request.limit) matches Some(m) ==> (r matches Err(e) && e.code == ErrorCode::ValidationError && e.message@ == m),
{
    let mut log = Ghost(Seq::empty());
    create_smart_download_task_with_id_noted(task_id, request, conn, process_id, &mut log)
}

/// `create_smart_download_task_with_id`, noting its task write in `log`: a
/// valid request is stored as a pending smart task under `task_id`, with the
/// request's JSON text and a total of 0; a refused one writes nothing.
pub fn create_smart_download_task_with_id_noted(
    task_id: &str,
    request: &SmartDownloadRequest,
    conn: &rusqlite::Connection,
    process_id: u32,
    log: &mut Ghost<Seq<SqlWrite>>,
) -> (r: Result<(), AppError>)
    ensures
        crate::task_requests::smart_request_refusal(request.prompt@, request.tags@, request.limit) matches Some(m) ==> (r matches Err(e) && e.code == ErrorCode::ValidationError && e.message@ == m) && final(log)@ == old(log)@,
        crate::task_requests::smart_request_refusal(request.prompt@, request.tags@, request.limit) is None ==> appended(
            final(log)@,
            old(log)@,
            INSERT_TASK_SQL@,
            seq![
                ParamSpec::Text(task_id@),
                ParamSpec::Text(TaskType::Smart.name()),
                ParamSpec::Text(crate::task_requests::smart_request_text(*request)),
                opt_u32_param(Some(0u32)),
            ],
        ),
{
    validate_smart_request(request)?;
    let tasks = TaskRepository::new(conn);
    let request_json = smart_request_json(request);
    tasks.insert_task_noted(
        &NewTaskRecord {
            task_id: owned(task_id),
            task_type: TaskType::Smart,
            request_json: request_json.clone(),
            progress_total: Some(0),
        },
        log,
    )?;
    let retrieval_id = new_local_id("smart", process_id, clock_nanos());
    let (sql, params) = smart_retrieval_statement(
        retrieval_id.as_str(),
        task_id,
        request,
        request_json.as_str(),
    );
    execute(conn, sql, &params)?;
    log_phase(
        &tasks,
        task_id,
        TaskLogLevel::Info,
        "validate_request",
        "Smart batch task created",
        process_id,
    )
}

/// The three kinds of batch task.
#[derive(Debug, Clone, Copy, PartialEq, Eq, Structural)]
pub enum BatchKind {
    Author,
    Bookmark,
    Smart,
}

impl BatchKind {
    pub open spec fn spec_task_type(self) -> TaskType {
        match self {
            BatchKind::Author => TaskType::Author,
            BatchKind::Bookmark => TaskType::Bookmark,
            BatchKind::Smart => TaskType::Smart,
        }
    }

    pub fn task_type(self) -> (r: TaskType)
        ensures
            r == self.spec_task_type(),
    {
        match self {
            BatchKind::Author => TaskType::Author,
            BatchKind::Bookmark => TaskType::Bookmark,
            BatchKind::Smart => TaskType::Smart,
        }
    }

    pub open spec fn spec_source(self) -> ImageSource {
        match self {
            BatchKind::Author => ImageSource::Author,
            BatchKind::Bookmark => ImageSource::Bookmark,
            BatchKind::Smart => ImageSource::Smart,
        }
    }

    pub fn source(self) -> (r: ImageSource)
        ensures
            r == self.spec_source(),
    {
        match self {
            BatchKind::Author => ImageSource::Author,
            BatchKind::Bookmark => ImageSource::Bookmark,
            BatchKind::Smart => ImageSource::Smart,
        }
    }

    pub open spec fn wrong_type_text(self) -> Seq<char> {
        match self {
            BatchKind::Author => "task is not an author download task"@,
            BatchKind::Bookmark => "task is not a bookmark download task"@,
            BatchKind::Smart => "task is not a smart download task"@,
        }
    }

    pub fn wrong_type_message(self) -> (r: &'static str)
        ensures
            r@ == self.wrong_type_text(),
    {
        match self {
            BatchKind::Author => "task is not an author download task",
            BatchKind::Bookmark => "task is not a bookmark download task",
            BatchKind::Smart => "task is not a smart download task",
        }
    }

    pub open spec fn discovery_phase_text(self) -> Seq<char> {
        match self {
            BatchKind::Author => "discover_author_works"@,
            BatchKind::Bookmark => "discover_bookmarks"@,
            BatchKind::Smart => "discover_smart_works"@,
        }
    }

    fn discovery_phase(self) -> (r: &'static str)
        ensures
            r@ == self.discovery_phase_text(),
    {
        match self {
            BatchKind::Author => "discover_author_works",
            BatchKind::Bookmark => "discover_bookmarks",
            BatchKind::Smart => "discover_smart_works",
        }
    }

    pub open spec fn discovery_message_text(self) -> Seq<char> {
        match self {
            BatchKind::Author => "Fetching Pixiv works for author"@,
            BatchKind::Bookmark => "Fetching Pixiv bookmarked works"@,
            BatchKind::Smart => "Searching Pixiv works by smart tags"@,
        }
    }

    fn discovery_message(self) -> (r: &'static str)
        ensures
            r@ == self.discovery_message_text(),
    {
        match self {
            BatchKind::Author => "Fetching Pixiv works for author",
            BatchKind::Bookmark => "Fetching Pixiv bookmarked works",
            BatchKind::Smart => "Searching Pixiv works by smart tags",
        }
    }

    pub open spec fn too_large_message_text(self) -> Seq<char> {
        match self {
            BatchKind::Author => "author batch result is too large"@,
            BatchKind::Bookmark => "bookmark batch result is too large"@,
            BatchKind::Smart => "smart batch result is too large"@,
        }
    }

    fn too_large_message(self) -> (r: &'static str)
        ensures
            r@ == self.too_large_message_text(),
    {
        match self {
            BatchKind::Author => "author batch result is too large",
            BatchKind::Bookmark => "bookmark batch result is too large",
            BatchKind::Smart => "smart batch result is too large",
        }
    }

    pub open spec fn empty_message_text(self) -> Seq<char> {
        match self {
            BatchKind::Author => "Author batch completed with no discovered works"@,
            BatchKind::Bookmark => "Bookmark batch completed with no discovered works"@,
            BatchKind::Smart => "Smart batch completed with no discovered works"@,
        }
    }

    fn empty_message(self) -> (r: &'static str)
        ensures
            r@ == self.empty_message_text(),
    {
        match self {
            BatchKind::Author => "Author batch completed with no discovered works",
            BatchKind::Bookmark => "Bookmark batch completed with no discovered works",
            BatchKind::Smart => "Smart batch completed with no discovered works",
        }
    }

    pub open spec fn processing_message_text(self) -> Seq<char> {
        match self {
            BatchKind::Author => "Processing author works sequentially"@,
            BatchKind::Bookmark => "Processing bookmarked works sequentially"@,
            BatchKind::Smart => "Processing smart search works sequentially"@,
        }
    }

    fn processing_message(self) -> (r: &'static str)
        ensures
            r@ == self.processing_message_text(),
    {
        match self {
            BatchKind::Author => "Processing author works sequentially",
            BatchKind::Bookmark => "Processing bookmarked works sequentially",
            BatchKind::Smart => "Processing smart search works sequentially",
        }
    }

    pub open spec fn indexed_message_text(self) -> Seq<char> {
        match self {
            BatchKind::Author => "Author batch image metadata and provenance are indexed"@,
            BatchKind::Bookmark => "Bookmark batch image metadata and provenance are indexed"@,
            BatchKind::Smart => "Smart batch image metadata and provenance are indexed"@,
        }
    }

    fn indexed_message(self) -> (r: &'static str)
        ensures
            r@ == self.indexed_message_text(),
    {
        match self {
            BatchKind::Author => "Author batch image metadata and provenance are indexed",
            BatchKind::Bookmark => "Bookmark batch image metadata and provenance are indexed",
            BatchKind::Smart => "Smart batch image metadata and provenance are indexed",
        }
    }

    pub open spec fn finished_text(self, with_errors: bool) -> Seq<char> {
        match (self, with_errors) {
            (BatchKind::Author, true) => "Author batch completed with item errors"@,
            (BatchKind::Author, false) => "Author batch completed"@,
            (BatchKind::Bookmark, true) => "Bookmark batch completed with item errors"@,
            (BatchKind::Bookmark, false) => "Bookmark batch completed"@,
            (BatchKind::Smart, true) => "Smart batch completed with item errors"@,
            (BatchKind::Smart, false) => "Smart batch completed"@,
        }
    }

    fn finished_message(self, with_errors: bool) -> (r: &'static str)
        ensures
            r@ == self.finished_text(with_errors),
    {
        match (self, with_errors) {
            (BatchKind::Author, true) => "Author batch completed with item errors",
            (BatchKind::Author, false) => "Author batch completed",
            (BatchKind::Bookmark, true) => "Bookmark batch completed with item errors",
            (BatchKind::Bookmark, false) => "Bookmark batch completed",
            (BatchKind::Smart, true) => "Smart batch completed with item errors",
            (BatchKind::Smart, false) => "Smart batch completed",
        }
    }
}

/// What a finished task reports.
#[derive(Debug, Clone, PartialEq, Eq)]
pub enum TaskOutcome {
    Single(SingleDownloadTaskOutcome),
    Batch(BatchDownloadTaskOutcome),
}

/// What a running task needs next.
pub enum TaskAction {
    /// Report whether this file exists.
    CheckFile(String),
    /// Write these bytes to this path, atomically.
    WriteFile { path: String, bytes: Vec<u8> },
    /// The task is over.
    Finished(Result<TaskOutcome, AppError>),
}

/// Whether a run downloads one requested page or a discovered batch.
pub enum RunMode {
    Single { request: DownloadRequest },
    Batch { kind: BatchKind, policy: R18Policy },
}

/// A task being run.
pub struct TaskRun<'conn> {
    conn: &'conn rusqlite::Connection,
    storage: StoragePlanner,
    process_id: u32,
    task_id: String,
    mode: RunMode,
    works: Vec<PixivWorkRef>,
    index: usize,
    completed: u32,
    failed: u32,
    download: Option<DownloadRun<'conn>>,
    /// How each finished batch item ended, in order.
    outcomes: Ghost<Seq<Result<DownloadOutcome, AppError>>>,
    /// The writes that recorded finished batch items, in the order they were
    /// handed to SQLite.
    item_writes: Ghost<Seq<SqlWrite>>,
    /// The index writes of the downloads that finished, in order.
    source_writes: Ghost<Seq<SqlWrite>>,
}

/// Every source row among the writes names `source` and the task `task_id`.
pub open spec fn all_sources_named(writes: Seq<SqlWrite>, source: ImageSource, task_id: Option<Seq<char>>) -> bool {
    forall|k: int|
        0 <= k < writes.len() && (#[trigger] writes[k]).sql == ADD_SOURCE_SQL@ && writes[k].params.len()
            == 3 ==> source_of(writes[k], source, task_id)
}

/// Two runs of writes that each name only `source` and `task_id` do so together.
proof fn lemma_sources_joined(
    writes: Seq<SqlWrite>,
    more: Seq<SqlWrite>,
    source: ImageSource,
    task_id: Option<Seq<char>>,
)
    requires
        all_sources_named(writes, source, task_id),
        all_sources_named(more, source, task_id),
    ensures
        all_sources_named(writes + more, source, task_id),
{
    assert forall|k: int|
        0 <= k < (writes + more).len() && (#[trigger] (writes + more)[k]).sql == ADD_SOURCE_SQL@ && (writes
            + more)[k].params.len() == 3 implies source_of((writes + more)[k], source, task_id) by {
        if k < writes.len() {
            assert((writes + more)[k] == writes[k]);
        } else {
            assert((writes + more)[k] == more[k - writes.len()]);
        }
    }
}

/// How many of the outcomes are downloads that finished.
pub open spec fn ok_count(outcomes: Seq<Result<DownloadOutcome, AppError>>) -> nat
    decreases outcomes.len(),
{
    if outcomes.len() == 0 {
        0
    } else {
        ok_count(outcomes.drop_last()) + if outcomes.last() is Ok {
            1nat
        } else {
            0nat
        }
    }
}

/// How many of the outcomes are failed downloads.
pub open spec fn err_count(outcomes: Seq<Result<DownloadOutcome, AppError>>) -> nat
    decreases outcomes.len(),
{
    if outcomes.len() == 0 {
        0
    } else {
        err_count(outcomes.drop_last()) + if outcomes.last() is Err {
            1nat
        } else {
            0nat
        }
    }
}

/// The write recording how an item ended: the item's status from the
/// download's (with no error) for a download that finished, `Failed` with
/// the error's code and message for one that failed.
pub open spec fn item_update_for(w: SqlWrite, item: Seq<char>, outcome: Result<DownloadOutcome, AppError>) -> bool {
    &&& w.sql == UPDATE_ITEM_STATUS_SQL@
    &&& w.params.len() == 5
    &&& param_is(w.params[0], ParamSpec::Text(item))
    &&& match outcome {
        Ok(o) => param_is(w.params[1], ParamSpec::Text(item_status_for(o.status).name()))
            && param_is(w.params[3], ParamSpec::Null) && param_is(w.params[4], ParamSpec::Null),
        Err(e) => param_is(w.params[1], ParamSpec::Text(TaskItemStatus::ItemFailed.name()))
            && param_is(w.params[3], ParamSpec::Text(e.code.name())) && param_is(
            w.params[4],
            ParamSpec::Text(e.message@),
        ),
    }
}

/// The write setting a task's counters.
pub open spec fn progress_write(w: SqlWrite, task_id: Seq<char>, done: u32, failed: u32) -> bool {
    &&& w.sql == UPDATE_PROGRESS_SQL@
    &&& w.params.len() == 4
    &&& param_is(w.params[0], ParamSpec::Text(task_id))
    &&& param_is(w.params[1], ParamSpec::Integer(done as i64))
    &&& param_is(w.params[2], ParamSpec::Integer(failed as i64))
}

/// The write moving a task into a final status, with the error it failed with.
pub open spec fn finish_write(w: SqlWrite, task_id: Seq<char>, status: TaskStatus, error: Option<AppError>) -> bool {
    &&& w.sql == FINISH_TASK_SQL@
    &&& w.params.len() == 4
    &&& param_is(w.params[0], ParamSpec::Text(task_id))
    &&& param_is(w.params[1], ParamSpec::Text(status.name()))
    &&& match error {
        Some(e) => param_is(w.params[2], ParamSpec::Text(e.code.name())) && param_is(
            w.params[3],
            ParamSpec::Text(e.message@),
        ),
        None => param_is(w.params[2], ParamSpec::Null) && param_is(w.params[3], ParamSpec::Null),
    }
}

/// Whether the writes set a task's counters to `done` and `failed`.
pub open spec fn has_progress(writes: Seq<SqlWrite>, task_id: Seq<char>, done: u32, failed: u32) -> bool {
    exists|k: int| 0 <= k < writes.len() && #[trigger] progress_write(writes[k], task_id, done, failed)
}

/// Whether the writes move a task into `status`, with `error`.
pub open spec fn has_finish(writes: Seq<SqlWrite>, task_id: Seq<char>, status: TaskStatus, error: Option<AppError>) -> bool {
    exists|k: int| 0 <= k < writes.len() && #[trigger] finish_write(writes[k], task_id, status, error)
}

/// Whether the writes record that item `item` ended with `outcome`.
pub open spec fn recorded(writes: Seq<SqlWrite>, item: Seq<char>, outcome: Result<DownloadOutcome, AppError>) -> bool {
    exists|k: int| 0 <= k < writes.len() && #[trigger] item_update_for(writes[k], item, outcome)
}

/// Downloads that finished and downloads that failed make up every outcome.
proof fn lemma_counts(outcomes: Seq<Result<DownloadOutcome, AppError>>)
    ensures
        ok_count(outcomes) + err_count(outcomes) == outcomes.len(),
    decreases outcomes.len(),
{
    if outcomes.len() > 0 {
        lemma_counts(outcomes.drop_last());
    }
}

/// One more outcome counts once, as finished or as failed.
proof fn lemma_counts_push(outcomes: Seq<Result<DownloadOutcome, AppError>>, o: Result<DownloadOutcome, AppError>)
    ensures
        ok_count(outcomes.push(o)) == ok_count(outcomes) + if o is Ok { 1nat } else { 0nat },
        err_count(outcomes.push(o)) == err_count(outcomes) + if o is Err { 1nat } else { 0nat },
{
    assert(outcomes.push(o).drop_last() =~= outcomes);
}

/// When the writes record the next item's ending, every item up to it is recorded.
proof fn lemma_recorded_push(
    writes: Seq<SqlWrite>,
    k: int,
    task_id: Seq<char>,
    outcomes: Seq<Result<DownloadOutcome, AppError>>,
    o: Result<DownloadOutcome, AppError>,
)
    requires
        0 <= k < writes.len(),
        item_update_for(writes[k], item_id(task_id, outcomes.len()), o),
        forall|i: int|
            0 <= i < outcomes.len() ==> recorded(writes, item_id(task_id, i as nat), #[trigger] outcomes[i]),
    ensures
        forall|i: int|
            0 <= i < outcomes.push(o).len() ==> recorded(
                writes,
                item_id(task_id, i as nat),
                #[trigger] outcomes.push(o)[i],
            ),
{
    assert forall|i: int| 0 <= i < outcomes.push(o).len() implies recorded(
        writes,
        item_id(task_id, i as nat),
        #[trigger] outcomes.push(o)[i],
    ) by {
        if i < outcomes.len() {
            assert(outcomes.push(o)[i] == outcomes[i]);
        } else {
            assert(item_update_for(writes[k], item_id(task_id, i as nat), outcomes.push(o)[i]));
        }
    }
}

/// Every item recorded stays recorded when more writes follow.
proof fn lemma_all_recorded_grow(
    old_writes: Seq<SqlWrite>,
    new_writes: Seq<SqlWrite>,
    task_id: Seq<char>,
    outcomes: Seq<Result<DownloadOutcome, AppError>>,
)
    requires
        forall|i: int|
            0 <= i < outcomes.len() ==> recorded(old_writes, item_id(task_id, i as nat), #[trigger] outcomes[i]),
        old_writes.len() <= new_writes.len(),
        new_writes.subrange(0, old_writes.len() as int) == old_writes,
    ensures
        forall|i: int|
            0 <= i < outcomes.len() ==> recorded(new_writes, item_id(task_id, i as nat), #[trigger] outcomes[i]),
{
    assert forall|i: int| 0 <= i < outcomes.len() implies recorded(
        new_writes,
        item_id(task_id, i as nat),
        #[trigger] outcomes[i],
    ) by {
        lemma_recorded_grows(old_writes, new_writes, item_id(task_id, i as nat), outcomes[i]);
    }
}

/// What was recorded stays recorded when more writes follow.
proof fn lemma_recorded_grows(
    old_writes: Seq<SqlWrite>,
    new_writes: Seq<SqlWrite>,
    item: Seq<char>,
    outcome: Result<DownloadOutcome, AppError>,
)
    requires
        recorded(old_writes, item, outcome),
        old_writes.len() <= new_writes.len(),
        new_writes.subrange(0, old_writes.len() as int) == old_writes,
    ensures
        recorded(new_writes, item, outcome),
{
    let k = choose|k: int| 0 <= k < old_writes.len() && #[trigger] item_update_for(old_writes[k], item, outcome);
    assert(new_writes.subrange(0, old_writes.len() as int)[k] == new_writes[k]);
    assert(item_update_for(new_writes[k], item, outcome));
}

impl<'conn> TaskRun<'conn> {
    pub closed spec fn task_id_view(self) -> Seq<char> {
        self.task_id@
    }

    /// The number of works the run has to go through.
    pub closed spec fn total(self) -> nat {
        self.works@.len()
    }

    /// The works the run goes through, in order.
    pub closed spec fn works_view(self) -> Seq<PixivWorkRef> {
        self.works@
    }

    /// How many items were done so far, and how many failed.
    pub closed spec fn completed_view(self) -> nat {
        self.completed as nat
    }

    pub closed spec fn failed_view(self) -> nat {
        self.failed as nat
    }

    /// Whether the run goes through a discovered batch.
    pub closed spec fn is_batch(self) -> bool {
        self.mode is Batch
    }

    /// The download in progress, if any.
    pub closed spec fn download_view(self) -> Option<DownloadRun<'conn>> {
        self.download
    }

    /// The source a run's downloads are filed under: the batch's kind, or the
    /// single task's request.
    pub closed spec fn item_source(self) -> ImageSource {
        match self.mode {
            RunMode::Batch { kind, .. } => kind.spec_source(),
            RunMode::Single { request } => request.source,
        }
    }

    /// The index writes of the downloads the run finished, in order.
    pub closed spec fn source_writes_view(self) -> Seq<SqlWrite> {
        self.source_writes@
    }

    /// Every source row the run's finished downloads wrote names the item
    /// source and the run's task.
    pub open spec fn sources_logged(self) -> bool {
        all_sources_named(self.source_writes_view(), self.item_source(), Some(self.task_id_view()))
    }

    /// The download in progress files its images under the run's task and the
    /// item source: every source row it wrote names both.
    pub open spec fn sources_named(self) -> bool {
        self.download_view() matches Some(d) ==> d.sources_faithful() && d.source_task_view() == Some(
            self.task_id_view(),
        ) && d.request_view().source == self.item_source()
    }

    /// Every item before the current one is counted once, as done or failed,
    /// and a download in progress is one the file system still has to answer.
    pub closed spec fn inv(self) -> bool {
        &&& self.index <= self.works@.len() <= u32::MAX
        &&& self.completed + self.failed == self.index
        &&& self.recording()
        &&& self.sources_named()
        &&& self.sources_logged()
        &&& self.download matches Some(d) ==> {
            &&& d.inv()
            &&& d.indexed()
            &&& !(d.phase_view() is Done)
            &&& self.mode is Batch ==> self.index < self.works@.len()
        }
    }

    /// Every finished item is counted by how it ended, and its ending was
    /// recorded in its item row.
    pub open spec fn recording(self) -> bool {
        &&& self.outcomes_view().len() == self.item_count()
        &&& self.completed_view() == ok_count(self.outcomes_view())
        &&& self.failed_view() == err_count(self.outcomes_view())
        &&& forall|i: int|
            0 <= i < self.outcomes_view().len() ==> recorded(
                self.item_writes_view(),
                item_id(self.task_id_view(), i as nat),
                #[trigger] self.outcomes_view()[i],
            )
    }

    /// How each finished batch item ended, in order.
    pub closed spec fn outcomes_view(self) -> Seq<Result<DownloadOutcome, AppError>> {
        self.outcomes@
    }

    /// The item and progress writes the run handed to SQLite, in order.
    pub closed spec fn item_writes_view(self) -> Seq<SqlWrite> {
        self.item_writes@
    }

    /// How many batch items are finished.
    pub closed spec fn item_count(self) -> nat {
        self.index as nat
    }

    /// The file a run is about to write: the planned path of a page whose
    /// rating the request's policy allows.
    pub open spec fn writing(self, path: Seq<char>) -> bool {
        self.download_view() matches Some(d) && d.phase_view() matches DownloadPhase::Writing {
            work,
            page,
            path: p,
            ..
        } && p@ == path && d.request_view().r18_policy.spec_allows(work.category)
            && planned_page_path(d.root_view(), work, page) == Some(path)
    }

    /// The file a run asked about.
    pub open spec fn checking(self, path: Seq<char>) -> bool {
        self.download_view() matches Some(d) && match d.phase_view() {
            DownloadPhase::CheckingIndexed { existing } => existing.local_path@ == path,
            DownloadPhase::CheckingPlanned { path: p, .. } => p@ == path,
            _ => false,
        }
    }

    /// The download request for an item of this run: the run's own request,
    /// or page 0 of work `pixiv_id` from the batch's source under its policy.
    pub closed spec fn fits_item(self, req: DownloadRequest, pixiv_id: Seq<char>) -> bool {
        match self.mode {
            RunMode::Single { request } => req.pixiv_id@ == request.pixiv_id@ && req.page_index
                == request.page_index && req.source == request.source && req.r18_policy
                == request.r18_policy,
            RunMode::Batch { kind, policy } => req.pixiv_id@ == pixiv_id && req.page_index == Some(
                0u32,
            ) && req.source == kind.spec_source() && req.r18_policy == policy,
        }
    }

    fn item_request(&self, pixiv_id: &str) -> (r: DownloadRequest)
        ensures
            self.fits_item(r, pixiv_id@),
    {
        match &self.mode {
            RunMode::Single { request } => DownloadRequest {
                pixiv_id: request.pixiv_id.clone(),
                page_index: request.page_index,
                source: request.source,
                r18_policy: request.r18_policy,
            },
            RunMode::Batch { kind, policy } => DownloadRequest {
                pixiv_id: owned(pixiv_id),
                page_index: Some(0),
                source: kind.source(),
                r18_policy: *policy,
            },
        }
    }

    /// Keeps the index writes of a download that finished.
    fn keep_sources(&mut self, d: &DownloadRun<'conn>)
        requires
            old(self).inv(),
            d.sources_faithful(),
            d.source_task_view() == Some(old(self).task_id@),
            d.request_view().source == old(self).item_source(),
        ensures
            final(self).inv(),
            final(self).source_writes_view() == old(self).source_writes_view() + d.index_writes_view(),
            final(self).download == old(self).download,
            final(self).works == old(self).works,
            final(self).task_id == old(self).task_id,
            final(self).mode == old(self).mode,
            final(self).index == old(self).index,
            final(self).completed == old(self).completed,
            final(self).failed == old(self).failed,
            final(self).outcomes == old(self).outcomes,
            final(self).item_writes == old(self).item_writes,
            final(self).storage == old(self).storage,
    {
        proof {
            lemma_sources_joined(self.source_writes@, d.index_writes_view(), self.item_source(), Some(self.task_id@));
        }
        self.source_writes = Ghost(self.source_writes@ + d.index_writes_view());
    }

    /// Records the end of the current batch item and moves past it.
    fn record_item(&mut self, result: Result<crate::domain::DownloadOutcome, AppError>) -> (r:
        Result<(), AppError>)
        requires
            old(self).inv(),
            old(self).download is None,
            old(self).index < old(self).works@.len(),
        ensures
            final(self).inv(),
            final(self).download is None,
            final(self).works == old(self).works,
            final(self).task_id == old(self).task_id,
            final(self).mode == old(self).mode,
            r is Ok ==> final(self).index == old(self).index + 1,
            r is Ok && result is Ok ==> final(self).completed == old(self).completed + 1
                && final(self).failed == old(self).failed,
            r is Ok && result is Err ==> final(self).failed == old(self).failed + 1
                && final(self).completed == old(self).completed,
            final(self).completed >= old(self).completed,
            final(self).failed >= old(self).failed,
            // Only the store can fail the recording: an item's own error is counted.
            r matches Err(e) ==> e.code.is_store_error(),
            // The item's row gets the download's status, or `Failed` with the error's code
            // and message; then the task's counters are written.
            r is Ok ==> final(self).outcomes_view() == old(self).outcomes_view().push(result),
            r is Ok ==> item_update_for(
                final(self).item_writes_view()[old(self).item_writes_view().len() as int],
                item_id(old(self).task_id_view(), old(self).index as nat),
                result,
            ),
            r is Ok ==> progress_write(
                final(self).item_writes_view().last(),
                old(self).task_id_view(),
                final(self).completed,
                final(self).failed,
            ),
            final(self).item_writes_view().len() >= old(self).item_writes_view().len(),
            final(self).item_writes_view().subrange(0, old(self).item_writes_view().len() as int)
                == old(self).item_writes_view(),
    {
        let tasks = TaskRepository::new(self.conn);
        let item_id = task_item_id(self.task_id.as_str(), self.index);
        let mut current_item = self.works[self.index].pixiv_id.clone();
        push_str(&mut current_item, ":0");
        let ghost ended = result;
        let ghost before = self.item_writes@;
        proof {
            lemma_counts(self.outcomes@);
        }
        match result {
            Ok(outcome) => {
                let found = ImageRepository::new(self.conn).find_by_pixiv_page(
                    outcome.pixiv_id.as_str(),
                    outcome.page_index,
                )?;
                let image_id: Option<String> = match found {
                    Some(image) => Some(image.image_id),
                    None => None,
                };
                let image_ref: Option<&str> = match &image_id {
                    Some(id) => Some(id.as_str()),
                    None => None,
                };
                let written = tasks.update_item_status_noted(
                    item_id.as_str(),
                    task_item_status(outcome.status),
                    image_ref,
                    None,
                    None,
                    &mut self.item_writes,
                );
                proof {
                    let w = self.item_writes@.last();
                    assert(param_is(w.params[0], ParamSpec::Text(item_id@)));
                    assert(param_is(w.params[1], ParamSpec::Text(item_status_for(outcome.status).name())));
                    assert(param_is(w.params[3], ParamSpec::Null));
                    assert(param_is(w.params[4], ParamSpec::Null));
                    assert(item_update_for(w, item_id@, ended));
                    assert(self.item_writes@.subrange(0, before.len() as int) =~= before);
                    lemma_all_recorded_grow(before, self.item_writes@, self.task_id@, self.outcomes@);
                }
                written?;
                self.completed = self.completed + 1;
                self.index = self.index + 1;
                proof {
                    lemma_recorded_push(self.item_writes@, before.len() as int, self.task_id@, self.outcomes@, ended);
                    lemma_counts_push(self.outcomes@, ended);
                }
                self.outcomes = Ghost(self.outcomes@.push(ended));
            },
            Err(error) => {
                let written = tasks.update_item_status_noted(
                    item_id.as_str(),
                    TaskItemStatus::ItemFailed,
                    None,
                    Some(error.code.as_str()),
                    Some(error.message.as_str()),
                    &mut self.item_writes,
                );
                proof {
                    let w = self.item_writes@.last();
                    assert(param_is(w.params[0], ParamSpec::Text(item_id@)));
                    assert(param_is(w.params[1], ParamSpec::Text(TaskItemStatus::ItemFailed.name())));
                    assert(param_is(w.params[3], ParamSpec::Text(error.code.name())));
                    assert(param_is(w.params[4], ParamSpec::Text(error.message@)));
                    assert(item_update_for(w, item_id@, ended));
                    assert(self.item_writes@.subrange(0, before.len() as int) =~= before);
                    lemma_all_recorded_grow(before, self.item_writes@, self.task_id@, self.outcomes@);
                }
                written?;
                self.failed = self.failed + 1;
                self.index = self.index + 1;
                proof {
                    lemma_recorded_push(self.item_writes@, before.len() as int, self.task_id@, self.outcomes@, ended);
                    lemma_counts_push(self.outcomes@, ended);
                }
                self.outcomes = Ghost(self.outcomes@.push(ended));
                log_phase(
                    &tasks,
                    self.task_id.as_str(),
                    TaskLogLevel::Error,
                    "download_file",
                    error.message.as_str(),
                    self.process_id,
                )?;
            },
        }
        let ghost recorded_writes = self.item_writes@;
        let progressed = tasks.update_progress_noted(
            self.task_id.as_str(),
            self.completed,
            self.failed,
            Some(current_item.as_str()),
            &mut self.item_writes,
        );
        proof {
            assert(self.item_writes@.subrange(0, recorded_writes.len() as int) =~= recorded_writes);
            lemma_all_recorded_grow(recorded_writes, self.item_writes@, self.task_id@, self.outcomes@);
            assert(self.item_writes@.subrange(0, before.len() as int) =~= before);
            assert(self.item_writes@[before.len() as int] == recorded_writes[before.len() as int]);
        }
        progressed?;
        proof {
            let w = self.item_writes@.last();
            assert(param_is(w.params[0], ParamSpec::Text(self.task_id@)));
            assert(param_is(w.params[1], ParamSpec::Integer(self.completed as i64)));
            assert(param_is(w.params[2], ParamSpec::Integer(self.failed as i64)));
        }
        Ok(())
    }

    /// Marks the current batch item as downloading and starts its download.
    fn start_item<P: PixivClient>(&mut self, pixiv: &P) -> (r: Result<
        (DownloadRun<'conn>, DownloadAction),
        AppError,
    >)
        requires
            old(self).inv(),
            old(self).download is None,
            old(self).index < old(self).works@.len(),
        ensures
            *final(self) == *old(self),
            r matches Ok((d, a)) ==> d.inv() && d.indexed() && d.awaits(a) && (a is CheckFile
                || a is Finished) && old(self).fits_item(
                d.request_view(),
                old(self).works@[old(self).index as int].pixiv_id@,
            ) && d.root_view() == old(self).storage.root_view() && d.source_task_view() == Some(
                old(self).task_id@,
            ),
            r matches Err(e) ==> e.code.is_store_error(),
    {
        let tasks = TaskRepository::new(self.conn);
        let item_id = task_item_id(self.task_id.as_str(), self.index);
        let mut current_item = self.works[self.index].pixiv_id.clone();
        push_str(&mut current_item, ":0");
        tasks.update_item_status(item_id.as_str(), TaskItemStatus::Downloading, None, None, None)?;
        tasks.update_progress(
            self.task_id.as_str(),
            self.completed,
            self.failed,
            Some(current_item.as_str()),
        )?;
        let request = self.item_request(self.works[self.index].pixiv_id.as_str());
        let context = DownloadRepositoryContext::for_task(self.conn, self.task_id.as_str());
        Ok(download_single_with_db(&request, pixiv, &self.storage, context))
    }

    /// Goes through the remaining batch items until one needs the file
    /// system, or all are done and the batch is finished.
    fn advance<P: PixivClient>(&mut self, pixiv: &P) -> (r: TaskAction)
        requires
            old(self).inv(),
            old(self).download is None,
            old(self).mode is Batch,
        ensures
            final(self).inv(),
            final(self).works == old(self).works,
            final(self).task_id == old(self).task_id,
            final(self).mode == old(self).mode,
            final(self).completed >= old(self).completed,
            final(self).failed >= old(self).failed,
            r is CheckFile || r is Finished,
            r matches TaskAction::CheckFile(p) ==> final(self).checking(p@),
            r is Finished ==> final(self).download is None,
            r matches TaskAction::Finished(Ok(o)) ==> o matches TaskOutcome::Batch(b) && b.task_id@
                == final(self).task_id@ && b.total == final(self).works@.len() && b.completed
                == final(self).completed && b.failed == final(self).failed && b.completed
                + b.failed == b.total && b.status == batch_status(b.failed),
            // A failed item is counted and the batch goes on: the run ends early only
            // when the store fails.
            r matches TaskAction::Finished(Err(e)) ==> e.code.is_store_error(),
            r is Finished && !(r matches TaskAction::Finished(Err(_))) ==> final(self).index
                == final(self).works@.len(),
    {
        loop
            invariant
                self.inv(),
                self.download is None,
                self.mode is Batch,
                self.works == old(self).works,
                self.task_id == old(self).task_id,
                self.mode == old(self).mode,
                self.completed >= old(self).completed,
                self.failed >= old(self).failed,
            ensures
                self.index >= self.works@.len(),
            decreases self.works@.len() - self.index,
        {
            if self.index >= self.works.len() {
                break;
            }
            let (run, action) = match self.start_item(pixiv) {
                Ok(started) => started,
                Err(error) => return TaskAction::Finished(Err(error)),
            };
            match action {
                DownloadAction::CheckFile(path) => {
                    self.download = Some(run);
                    return TaskAction::CheckFile(path);
                },
                DownloadAction::WriteFile { path, bytes } => {
                    self.download = Some(run);
                    return TaskAction::WriteFile { path, bytes };
                },
                DownloadAction::Finished(result) => {
                    self.keep_sources(&run);
                    if let Err(error) = self.record_item(result) {
                        return TaskAction::Finished(Err(error));
                    }
                },
            }
        }
        self.finish_batch()
    }

    /// Goes on with a batch once its discovery answered. A discovery error is
    /// logged and recorded as the task's failure, and ends the run with that
    /// error. Otherwise the discovered works become the batch's items, in
    /// order: a batch with none completes at once, and a larger one downloads
    /// its first items until one needs the file system.
    pub fn run_discovered<P: PixivClient>(
        &mut self,
        pixiv: &P,
        found: Result<Vec<PixivWorkRef>, AppError>,
    ) -> (r: TaskAction)
        requires
            old(self).inv(),
            old(self).is_batch(),
            old(self).download_view() is None,
            old(self).total() == 0,
        ensures
            final(self).inv(),
            final(self).is_batch(),
            final(self).task_id_view() == old(self).task_id_view(),
            final(self).recording(),
            final(self).sources_named(),
            final(self).sources_logged(),
            final(self).item_source() == old(self).item_source(),
            r is CheckFile || r is Finished,
            r matches TaskAction::CheckFile(p) ==> final(self).checking(p@),
            r matches TaskAction::Finished(Ok(o)) ==> o is Batch,
            // A failed discovery ends the run with its own error, written as the task's
            // failure (unless the store fails on the way).
            found matches Err(e) ==> final(self).total() == 0 && (r matches TaskAction::Finished(
                Err(x),
            ) && (x.code.is_store_error() || (x == e && has_finish(
                final(self).item_writes_view(),
                final(self).task_id_view(),
                TaskStatus::Failed,
                Some(e),
            )))),
            // The discovered works are the batch's items, in order, and from then on
            // only the store can end the run early.
            found matches Ok(w) ==> (w@.len() <= u32::MAX ==> final(self).works_view() == w@ && (
            r matches TaskAction::Finished(Err(x)) ==> x.code.is_store_error())),
            found matches Ok(w) ==> (w@.len() > u32::MAX ==> (r matches TaskAction::Finished(Err(x))
                && x.code == ErrorCode::ValidationError)),
            found matches Ok(w) ==> (w@.len() == 0 ==> (r is Finished && (r matches TaskAction::Finished(
                Ok(o),
            ) ==> o matches TaskOutcome::Batch(b) && b.total == 0 && b.status == TaskStatus::Completed))),
            r matches TaskAction::Finished(Ok(TaskOutcome::Batch(b))) ==> b.task_id@
                == final(self).task_id_view() && b.total == final(self).total() && b.completed
                + b.failed == b.total && b.status == batch_status(b.failed) && final(self).outcomes_view().len() == b.total && b.completed == ok_count(final(self).outcomes_view())
                && b.failed == err_count(final(self).outcomes_view()),
    {
        let kind = match &self.mode {
            RunMode::Batch { kind, .. } => *kind,
            RunMode::Single { .. } => BatchKind::Author,
        };
        let tasks = TaskRepository::new(self.conn);
        let works = match found {
            Ok(works) => works,
            Err(error) => {
                if let Err(e) = log_phase(
                    &tasks,
                    self.task_id.as_str(),
                    TaskLogLevel::Error,
                    kind.discovery_phase(),
                    error.message.as_str(),
                    self.process_id,
                ) {
                    return TaskAction::Finished(Err(e));
                }
                let failed = tasks.finish_task_noted(
                    self.task_id.as_str(),
                    TaskStatus::Failed,
                    Some(error.code.as_str()),
                    Some(error.message.as_str()),
                    &mut self.item_writes,
                );
                if let Err(e) = failed {
                    return TaskAction::Finished(Err(e));
                }
                proof {
                    let k = self.item_writes@.len() - 1;
                    assert(finish_write(self.item_writes@[k], self.task_id@, TaskStatus::Failed, Some(error)));
                }
                return TaskAction::Finished(Err(error));
            },
        };
        if works.len() > 4294967295usize {
            return TaskAction::Finished(Err(AppError::validation(kind.too_large_message())));
        }
        let total = works.len() as u32;
        self.works = works;
        if let Err(error) = tasks.set_progress_total(self.task_id.as_str(), total) {
            return TaskAction::Finished(Err(error));
        }
        if total == 0 {
            if let Err(error) = log_phase(
                &tasks,
                self.task_id.as_str(),
                TaskLogLevel::Info,
                "finish_task",
                kind.empty_message(),
                self.process_id,
            ) {
                return TaskAction::Finished(Err(error));
            }
            if let Err(error) = tasks.complete_task(self.task_id.as_str()) {
                return TaskAction::Finished(Err(error));
            }
            return TaskAction::Finished(
                Ok(
                    TaskOutcome::Batch(
                        BatchDownloadTaskOutcome {
                            task_id: self.task_id.clone(),
                            total: 0,
                            completed: 0,
                            failed: 0,
                            status: TaskStatus::Completed,
                        },
                    ),
                ),
            );
        }
        if let Err(error) = insert_items(&tasks, self.task_id.as_str(), &self.works) {
            return TaskAction::Finished(Err(error));
        }
        if let Err(error) = log_phase(
            &tasks,
            self.task_id.as_str(),
            TaskLogLevel::Info,
            "download_file",
            kind.processing_message(),
            self.process_id,
        ) {
            return TaskAction::Finished(Err(error));
        }
        self.advance(pixiv)
    }

    /// Ends a batch whose items are all done.
    fn finish_batch(&mut self) -> (r: TaskAction)
        requires
            old(self).inv(),
            old(self).download is None,
            old(self).mode is Batch,
            old(self).index >= old(self).works@.len(),
        ensures
            *final(self) == *old(self),
            r matches TaskAction::Finished(Ok(o)) ==> o matches TaskOutcome::Batch(b) && b.task_id@
                == final(self).task_id@ && b.total == final(self).works@.len() && b.completed
                == final(self).completed && b.failed == final(self).failed && b.completed
                + b.failed == b.total && b.status == batch_status(b.failed),
            r is Finished,
            r matches TaskAction::Finished(Err(e)) ==> e.code.is_store_error(),
    {
        let kind = match &self.mode {
            RunMode::Batch { kind, .. } => *kind,
            RunMode::Single { .. } => BatchKind::Author,
        };
        let tasks = TaskRepository::new(self.conn);
        let with_errors = self.failed > 0;
        if let Err(error) = log_phase(
            &tasks,
            self.task_id.as_str(),
            TaskLogLevel::Info,
            "index_image",
            kind.indexed_message(),
            self.process_id,
        ) {
            return TaskAction::Finished(Err(error));
        }
        let status = if with_errors {
            TaskStatus::CompletedWithErrors
        } else {
            TaskStatus::Completed
        };
        let level = if with_errors {
            TaskLogLevel::Warn
        } else {
            TaskLogLevel::Info
        };
        if let Err(error) = log_phase(
            &tasks,
            self.task_id.as_str(),
            level,
            "finish_task",
            kind.finished_message(with_errors),
            self.process_id,
        ) {
            return TaskAction::Finished(Err(error));
        }
        if let Err(error) = tasks.finish_task(self.task_id.as_str(), status, None, None) {
            return TaskAction::Finished(Err(error));
        }
        TaskAction::Finished(
            Ok(
                TaskOutcome::Batch(
                    BatchDownloadTaskOutcome {
                        task_id: self.task_id.clone(),
                        total: self.works.len() as u32,
                        completed: self.completed,
                        failed: self.failed,
                        status,
                    },
                ),
            ),
        )
    }

    /// Ends a single download task with the outcome of its download.
    fn finish_single(&mut self, result: Result<crate::domain::DownloadOutcome, AppError>) -> (r:
        TaskAction)
        requires
            old(self).inv(),
            old(self).download is None,
        ensures
            final(self).inv(),
            final(self).download is None,
            final(self).task_id == old(self).task_id,
            final(self).works == old(self).works,
            final(self).mode == old(self).mode,
            final(self).completed >= old(self).completed,
            final(self).failed >= old(self).failed,
            r is Finished,
            result is Err ==> r matches TaskAction::Finished(Err(_)),
            // The task ends with the download's own error, unless the store fails first.
            r matches TaskAction::Finished(Err(e)) ==> (result matches Err(d) && e == d)
                || e.code.is_store_error(),
            r matches TaskAction::Finished(Ok(o)) ==> (o matches TaskOutcome::Single(s) && s.task_id@
                == final(self).task_id@ && (result matches Ok(d) && s.download_status == d.status)),
            // The item row, the counters and the task's final status follow the download.
            r matches TaskAction::Finished(Ok(_)) ==> recorded(
                final(self).item_writes_view(),
                item_id(final(self).task_id_view(), 0),
                result,
            ) && has_progress(final(self).item_writes_view(), final(self).task_id_view(), 1, 0)
                && has_finish(
                final(self).item_writes_view(),
                final(self).task_id_view(),
                TaskStatus::Completed,
                None,
            ),
            result matches Err(e) ==> (r matches TaskAction::Finished(Err(x)) && x == e
                && !e.code.is_store_error() ==> recorded(
                final(self).item_writes_view(),
                item_id(final(self).task_id_view(), 0),
                result,
            ) && has_progress(final(self).item_writes_view(), final(self).task_id_view(), 0, 1)
                && has_finish(
                final(self).item_writes_view(),
                final(self).task_id_view(),
                TaskStatus::Failed,
                Some(e),
            )),
            final(self).item_writes_view().len() >= old(self).item_writes_view().len(),
    {
        let mut log = Ghost(self.item_writes@);
        let ghost ended = result;
        let action = self.single_steps(result, &mut log);
        proof {
            assert(log@.subrange(0, self.item_writes@.len() as int) =~= self.item_writes@);
            lemma_all_recorded_grow(self.item_writes@, log@, self.task_id@, self.outcomes@);
        }
        let ghost n = self.item_writes@.len();
        self.item_writes = log;
        proof {
            let w = self.item_writes@;
            if w.len() > n {
                assert(item_update_for(w[n as int], item_id(self.task_id@, 0), ended));
            }
            if w.len() == n + 3 {
                assert(progress_write(w[n + 1int], self.task_id@, 1, 0) ==> has_progress(w, self.task_id@, 1, 0));
                assert(progress_write(w[n + 1int], self.task_id@, 0, 1) ==> has_progress(w, self.task_id@, 0, 1));
                assert(finish_write(w[n + 2int], self.task_id@, TaskStatus::Completed, None) ==> has_finish(w, self.task_id@, TaskStatus::Completed, None));
                if ended is Err {
                    let e = ended->Err_0;
                    assert(finish_write(w[n + 2int], self.task_id@, TaskStatus::Failed, Some(e)) ==> has_finish(w, self.task_id@, TaskStatus::Failed, Some(e)));
                }
            }
        }
        action
    }

    /// The writes that end a single task with its download's result, noted in
    /// `log`: the item's row, the counters, and the task's final status (the
    /// download's error for a failed download).
    fn single_steps(&self, result: Result<crate::domain::DownloadOutcome, AppError>, log: &mut Ghost<
        Seq<SqlWrite>,
    >) -> (r: TaskAction)
        ensures
            r is Finished,
            result is Err ==> r matches TaskAction::Finished(Err(_)),
            r matches TaskAction::Finished(Err(e)) ==> (result matches Err(d) && e == d)
                || e.code.is_store_error(),
            r matches TaskAction::Finished(Ok(o)) ==> (o matches TaskOutcome::Single(s) && s.task_id@
                == self.task_id@ && (result matches Ok(d) && s.download_status == d.status)),
            final(log)@.len() >= old(log)@.len(),
            forall|k: int| 0 <= k < old(log)@.len() ==> final(log)@[k] == old(log)@[k],
            final(log)@.len() > old(log)@.len() ==> item_update_for(
                final(log)@[old(log)@.len() as int],
                item_id(self.task_id@, 0),
                result,
            ),
            r matches TaskAction::Finished(Ok(_)) ==> final(log)@.len() == old(log)@.len() + 3
                && progress_write(final(log)@[old(log)@.len() + 1int], self.task_id@, 1, 0)
                && finish_write(final(log)@[old(log)@.len() + 2int], self.task_id@, TaskStatus::Completed, None),
            result matches Err(e) ==> (r matches TaskAction::Finished(Err(x)) && x == e
                && !e.code.is_store_error() ==> final(log)@.len() == old(log)@.len() + 3
                && progress_write(final(log)@[old(log)@.len() + 1int], self.task_id@, 0, 1)
                && finish_write(final(log)@[old(log)@.len() + 2int], self.task_id@, TaskStatus::Failed, Some(e))),
    {
        let tasks = TaskRepository::new(self.conn);
        let item_id = task_item_id(self.task_id.as_str(), 0);
        let (pixiv_id, page_index) = match &self.mode {
            RunMode::Single { request } => (
                request.pixiv_id.clone(),
                match request.page_index {
                    Some(p) => p,
                    None => 0,
                },
            ),
            RunMode::Batch { .. } => (owned(""), 0),
        };
        let mut current_item = pixiv_id;
        push_char(&mut current_item, ':');
        push_decimal(&mut current_item, page_index as u128);
        match result {
            Err(error) => {
                if let Err(e) = tasks.update_item_status_noted(
                    item_id.as_str(),
                    TaskItemStatus::ItemFailed,
                    None,
                    Some(error.code.as_str()),
                    Some(error.message.as_str()),
                    log,
                ) {
                    return TaskAction::Finished(Err(e));
                }
                if let Err(e) = tasks.update_progress_noted(
                    self.task_id.as_str(),
                    0,
                    1,
                    Some(current_item.as_str()),
                    log,
                ) {
                    return TaskAction::Finished(Err(e));
                }
                if let Err(e) = log_phase(
                    &tasks,
                    self.task_id.as_str(),
                    TaskLogLevel::Error,
                    "finish_task",
                    error.message.as_str(),
                    self.process_id,
                ) {
                    return TaskAction::Finished(Err(e));
                }
                if let Err(e) = tasks.finish_task_noted(
                    self.task_id.as_str(),
                    TaskStatus::Failed,
                    Some(error.code.as_str()),
                    Some(error.message.as_str()),
                    log,
                ) {
                    return TaskAction::Finished(Err(e));
                }
                TaskAction::Finished(Err(error))
            },
            Ok(outcome) => {
                if let Err(e) = log_phase(
                    &tasks,
                    self.task_id.as_str(),
                    TaskLogLevel::Info,
                    "write_file",
                    "File state is ready",
                    self.process_id,
                ) {
                    return TaskAction::Finished(Err(e));
                }
                if let Err(e) = log_phase(
                    &tasks,
                    self.task_id.as_str(),
                    TaskLogLevel::Info,
                    "index_image",
                    "Image metadata and provenance are indexed",
                    self.process_id,
                ) {
                    return TaskAction::Finished(Err(e));
                }
                let found = match ImageRepository::new(self.conn).find_by_pixiv_page(
                    outcome.pixiv_id.as_str(),
                    outcome.page_index,
                ) {
                    Ok(found) => found,
                    Err(e) => return TaskAction::Finished(Err(e)),
                };
                let image_id: Option<String> = match found {
                    Some(image) => Some(image.image_id),
                    None => None,
                };
                let image_ref: Option<&str> = match &image_id {
                    Some(id) => Some(id.as_str()),
                    None => None,
                };
                if let Err(e) = tasks.update_item_status_noted(
                    item_id.as_str(),
                    task_item_status(outcome.status),
                    image_ref,
                    None,
                    None,
                    log,
                ) {
                    return TaskAction::Finished(Err(e));
                }
                if let Err(e) = tasks.update_progress_noted(
                    self.task_id.as_str(),
                    1,
                    0,
                    Some(current_item.as_str()),
                    log,
                ) {
                    return TaskAction::Finished(Err(e));
                }
                if let Err(e) = log_phase(
                    &tasks,
                    self.task_id.as_str(),
                    TaskLogLevel::Info,
                    "finish_task",
                    "Task completed",
                    self.process_id,
                ) {
                    return TaskAction::Finished(Err(e));
                }
                if let Err(e) = tasks.finish_task_noted(self.task_id.as_str(), TaskStatus::Completed, None, None, log) {
                    return TaskAction::Finished(Err(e));
                }
                TaskAction::Finished(
                    Ok(
                        TaskOutcome::Single(
                            SingleDownloadTaskOutcome {
                                task_id: self.task_id.clone(),
                                image_id,
                                download_status: outcome.status,
                            },
                        ),
                    ),
                )
            },
        }
    }

    /// Carries the task one step further with the answer to the last action.
    pub fn resume<P: PixivClient>(&mut self, pixiv: &P, event: FileEvent) -> (r: TaskAction)
        requires
            old(self).inv(),
        ensures
            final(self).inv(),
            final(self).task_id_view() == old(self).task_id_view(),
            final(self).total() == old(self).total(),
            // The download in progress files its images under the run's task and the item source.
            final(self).sources_named(),
            final(self).sources_logged(),
            final(self).item_source() == old(self).item_source(),
            // Progress never goes back.
            final(self).completed_view() >= old(self).completed_view(),
            final(self).failed_view() >= old(self).failed_view(),
            r matches TaskAction::CheckFile(p) ==> final(self).checking(p@),
            // A write is asked for only right after its planned file was reported missing,
            // and only for a page the policy allows, at its planned path.
            r matches TaskAction::WriteFile { path: p, .. } ==> event == FileEvent::Exists(false)
                && old(self).checking(p@) && final(self).writing(p@),
            // A finished batch accounts for every work, and has errors exactly when an item failed.
            r matches TaskAction::Finished(Ok(TaskOutcome::Batch(b))) ==> b.task_id@
                == final(self).task_id_view() && b.total == final(self).total() && b.completed
                + b.failed == b.total && b.status == batch_status(b.failed),
            // In a batch a failed item is counted and the batch goes on; the run
            // ends with an error only when the store fails.
            old(self).is_batch() ==> (r matches TaskAction::Finished(Err(e)) ==> e.code.is_store_error()),
            // Every finished item is counted by how it ended and its ending recorded in its row.
            final(self).recording(),
            // A single task ends with its item row, counters and final status written from
            // the download's result: `Completed`, or `Failed` with the download's own error.
            !old(self).is_batch() ==> (r matches TaskAction::Finished(Ok(TaskOutcome::Single(s)))
                ==> (exists|o: DownloadOutcome|
                o.status == s.download_status && #[trigger] recorded(
                    final(self).item_writes_view(),
                    item_id(final(self).task_id_view(), 0),
                    Ok::<DownloadOutcome, AppError>(o),
                )) && has_progress(final(self).item_writes_view(), final(self).task_id_view(), 1, 0)
                && has_finish(
                final(self).item_writes_view(),
                final(self).task_id_view(),
                TaskStatus::Completed,
                None,
            )),
            !old(self).is_batch() ==> (r matches TaskAction::Finished(Err(x)) ==> (!x.code.is_store_error()
                ==> recorded(
                final(self).item_writes_view(),
                item_id(final(self).task_id_view(), 0),
                Err::<DownloadOutcome, AppError>(x),
            ) && has_progress(final(self).item_writes_view(), final(self).task_id_view(), 0, 1)
                && has_finish(
                final(self).item_writes_view(),
                final(self).task_id_view(),
                TaskStatus::Failed,
                Some(x),
            ))),
            r matches TaskAction::Finished(Ok(TaskOutcome::Batch(b))) ==> final(self).outcomes_view().len() == b.total && b.completed == ok_count(final(self).outcomes_view())
                && b.failed == err_count(final(self).outcomes_view()),
    {
        let mut current: Option<DownloadRun<'conn>> = None;
        std::mem::swap(&mut current, &mut self.download);
        let mut run = match current {
            Some(run) => run,
            None => {
                return TaskAction::Finished(
                    Err(AppError::new(ErrorCode::InternalError, "task step out of order")),
                );
            },
        };
        let action = run.resume(pixiv, event);
        match action {
            DownloadAction::CheckFile(path) => {
                self.download = Some(run);
                TaskAction::CheckFile(path)
            },
            DownloadAction::WriteFile { path, bytes } => {
                self.download = Some(run);
                TaskAction::WriteFile { path, bytes }
            },
            DownloadAction::Finished(result) => {
                self.keep_sources(&run);
                let is_batch = match &self.mode {
                    RunMode::Batch { .. } => true,
                    RunMode::Single { .. } => false,
                };
                if is_batch {
                    if let Err(error) = self.record_item(result) {
                        return TaskAction::Finished(Err(error));
                    }
                    self.advance(pixiv)
                } else {
                    self.finish_single(result)
                }
            },
        }
    }
}

/// The stored task, which must exist and be of the expected type.
fn load_task(
    tasks: &TaskRepository,
    task_id: &str,
    expected: TaskType,
    wrong_type: &str,
) -> (r: Result<TaskRecord, AppError>)
    ensures
        r matches Ok(t) ==> t.task_id@ == task_id@ && t.task_type == expected,
        r matches Err(e) ==> e.code == ErrorCode::SqliteError || (e.code == ErrorCode::TaskNotFound
            && e.message@ == "task not found"@) || (e.code == ErrorCode::ValidationError
            && e.message@ == wrong_type@),
{
    let found = tasks.find_task(task_id)?;
    found_task(found, expected, wrong_type)
}

/// What a task lookup gives: the task when it is of the expected type.
pub fn found_task(found: Option<TaskRecord>, expected: TaskType, wrong_type: &str) -> (r: Result<
    TaskRecord,
    AppError,
>)
    ensures
        match found {
            Some(t) => if t.task_type == expected {
                r == Ok::<TaskRecord, AppError>(t)
            } else {
                r matches Err(e) && e.code == ErrorCode::ValidationError && e.message@ == wrong_type@
            },
            None => r matches Err(e) && e.code == ErrorCode::TaskNotFound && e.message@
                == "task not found"@,
        },
{
    let task = match found {
        Some(task) => task,
        None => return Err(AppError::new(ErrorCode::TaskNotFound, "task not found")),
    };
    if task.task_type != expected {
        return Err(AppError::validation(wrong_type));
    }
    Ok(task)
}

fn idle_run<'conn>(
    conn: &'conn rusqlite::Connection,
    storage: &StoragePlanner,
    task_id: &str,
    process_id: u32,
    mode: RunMode,
) -> (r: TaskRun<'conn>)
    ensures
        r.inv(),
        r.task_id@ == task_id@,
        r.works@.len() == 0,
        r.download is None,
        r.mode == mode,
        r.source_writes@ == Seq::<SqlWrite>::empty(),
{
    TaskRun {
        conn,
        storage: StoragePlanner::new(storage.root()),
        process_id,
        task_id: owned(task_id),
        mode,
        works: Vec::new(),
        index: 0,
        completed: 0,
        failed: 0,
        download: None,
        outcomes: Ghost(Seq::empty()),
        item_writes: Ghost(Seq::empty()),
        source_writes: Ghost(Seq::empty()),
    }
}

/// Starts a stored single download task: it is marked running, its item
/// downloading, and its download begins.
pub fn execute_single_download_task<'conn, P: PixivClient>(
    task_id: &str,
    pixiv: &P,
    storage: &StoragePlanner,
    conn: &'conn rusqlite::Connection,
    process_id: u32,
) -> (r: (TaskRun<'conn>, TaskAction))
    ensures
        r.0.inv(),
        r.0.task_id_view() == task_id@,
        r.0.sources_named(),
        // Every source row the run's finished downloads wrote names the same source and task.
        r.0.sources_logged(),
        r.1 is CheckFile || r.1 is Finished,
        r.1 matches TaskAction::CheckFile(p) ==> r.0.checking(p@),
        r.1 matches TaskAction::Finished(Ok(o)) ==> o is Single,
        // A finished single task has its item row, its counters and its final status
        // written from the download's result.
        r.1 matches TaskAction::Finished(Ok(TaskOutcome::Single(s))) ==> (exists|o: DownloadOutcome|
            o.status == s.download_status && #[trigger] recorded(
                r.0.item_writes_view(),
                item_id(r.0.task_id_view(), 0),
                Ok::<DownloadOutcome, AppError>(o),
            )) && has_progress(r.0.item_writes_view(), r.0.task_id_view(), 1, 0) && has_finish(
            r.0.item_writes_view(),
            r.0.task_id_view(),
            TaskStatus::Completed,
            None,
        ),
        // Once its download started, a single task that fails for the download's own
        // reason has its item row, its counters and its final status written from that error.
        r.1 matches TaskAction::Finished(Ok(_)) ==> !r.0.is_batch(),
        !r.0.is_batch() ==> (r.1 matches TaskAction::Finished(Err(x)) ==> (!x.code.is_store_error()
            ==> recorded(
            r.0.item_writes_view(),
            item_id(r.0.task_id_view(), 0),
            Err::<DownloadOutcome, AppError>(x),
        ) && has_progress(r.0.item_writes_view(), r.0.task_id_view(), 0, 1) && has_finish(
            r.0.item_writes_view(),
            r.0.task_id_view(),
            TaskStatus::Failed,
            Some(x),
        ))),
{
    let tasks = TaskRepository::new(conn);
    let placeholder = RunMode::Batch { kind: BatchKind::Author, policy: R18Policy::Exclude };
    let mut run = idle_run(conn, storage, task_id, process_id, placeholder);
    let task = match load_task(&tasks, task_id, TaskType::Single, "task is not a single download task") {
        Ok(task) => task,
        Err(error) => return (run, TaskAction::Finished(Err(error))),
    };
    let request = match parse_single_request_json(task.request_json.as_str()) {
        Ok(request) => request,
        Err(error) => return (run, TaskAction::Finished(Err(error))),
    };
    let item_id = task_item_id(task_id, 0);
    let page_index = match request.page_index {
        Some(p) => p,
        None => 0,
    };
    let mut current_item = request.pixiv_id.clone();
    push_char(&mut current_item, ':');
    push_decimal(&mut current_item, page_index as u128);
    let prepared = start_single(&tasks, task_id, item_id.as_str(), current_item.as_str(), process_id);
    if let Err(error) = prepared {
        return (run, TaskAction::Finished(Err(error)));
    }
    let context = DownloadRepositoryContext::for_task(conn, task_id);
    let (download, action) = download_single_with_db(&request, pixiv, storage, context);
    run.mode = RunMode::Single { request };
    match action {
        DownloadAction::CheckFile(path) => {
            run.download = Some(download);
            (run, TaskAction::CheckFile(path))
        },
        DownloadAction::WriteFile { path, bytes } => {
            run.download = Some(download);
            (run, TaskAction::WriteFile { path, bytes })
        },
        DownloadAction::Finished(result) => {
            run.keep_sources(&download);
            let finished = run.finish_single(result);
            (run, finished)
        },
    }
}

fn start_single(
    tasks: &TaskRepository,
    task_id: &str,
    item_id: &str,
    current_item: &str,
    process_id: u32,
) -> (r: Result<(), AppError>)
    ensures
        r matches Err(e) ==> e.code == ErrorCode::SqliteError || e.code == ErrorCode::ValidationError
            || e.code == ErrorCode::InternalError,
{
    tasks.start_task(task_id, Some(current_item))?;
    tasks.update_item_status(item_id, TaskItemStatus::Downloading, None, None, None)?;
    tasks.update_progress(task_id, 0, 0, Some(current_item))?;
    log_phase(
        tasks,
        task_id,
        TaskLogLevel::Info,
        "fetch_metadata",
        "Fetching Pixiv metadata when needed",
        process_id,
    )?;
    log_phase(
        tasks,
        task_id,
        TaskLogLevel::Info,
        "deduplicate",
        "Checking DB and local file state",
        process_id,
    )?;
    log_phase(
        tasks,
        task_id,
        TaskLogLevel::Info,
        "download_file",
        "Downloading image bytes only if required",
        process_id,
    )
}

/// How a batch discovers its works.
#[derive(Debug)]
pub enum Discovery {
    Author { author_uid: String, limit: u32 },
    Bookmarks { limit: u32, policy: R18Policy },
    Search { tags: Vec<String>, negative_tags: Vec<String>, limit: u32, policy: R18Policy },
}

/// A plan read from a batch request document: the discovery of its kind,
/// with the document's author, limit and policy, and the current-item text
/// (`author:` and the author, `bookmarks`, or `smart:` and the tags joined
/// by spaces).
pub open spec fn planned(kind: BatchKind, d: JsonValue, discovery: Discovery, policy: R18Policy, current: Seq<
    char,
>) -> bool {
    &&& policy_field(d) == Some(policy)
    &&& match (kind, discovery) {
        (BatchKind::Author, Discovery::Author { author_uid, limit }) => text_field(d, "author_uid"@)
            == Some(author_uid@) && limit_field(d) == Some(limit) && current == "author:"@
            + author_uid@,
        (BatchKind::Bookmark, Discovery::Bookmarks { limit, policy: p }) => limit_field(d) == Some(
            limit,
        ) && p == policy && current == "bookmarks"@,
        (BatchKind::Smart, Discovery::Search { tags, negative_tags, limit, policy: p }) => limit_field(
            d,
        ) == Some(limit) && p == policy && current == "smart:"@ + join_words(views(tags@))
            && views(tags@) == request_tags(d, "tags"@) && views(negative_tags@) == request_tags(
            d,
            "negative_tags"@,
        ),
        _ => false,
    }
}

/// Reads the stored request of a batch task: how its works are discovered,
/// the policy its downloads follow, and the current-item text while discovering.
pub fn batch_plan(kind: BatchKind, request_json: &str) -> (r: Result<(Discovery, R18Policy, String), AppError>)
    ensures
        json_document(request_json@) is None ==> r is Err,
        r is Err ==> r->Err_0.code == ErrorCode::ValidationError,
        r matches Ok((discovery, policy, current)) ==> (json_document(request_json@) matches Some(d)
            && planned(kind, d, discovery, policy, current@)),
        kind is Author ==> (r is Ok <==> (json_document(request_json@) matches Some(d) && text_field(
            d,
            "author_uid"@,
        ) matches Some(uid) && limit_field(d) matches Some(limit) && policy_field(d) is Some
            && author_request_refusal(uid, limit) is None)),
        kind is Bookmark ==> (r is Ok <==> (json_document(request_json@) matches Some(d)
            && limit_field(d) matches Some(limit) && limit > 0 && policy_field(d) is Some)),
{
    match kind {
        BatchKind::Author => {
            let request = parse_author_request_json(request_json)?;
            validate_author_request(&request)?;
            let mut current = owned("author:");
            push_str(&mut current, request.author_uid.as_str());
            let policy = request.r18_policy;
            Ok((Discovery::Author { author_uid: request.author_uid, limit: request.limit }, policy, current))
        },
        BatchKind::Bookmark => {
            let request = parse_bookmark_request_json(request_json)?;
            validate_bookmark_request(&request)?;
            let policy = request.r18_policy;
            Ok((Discovery::Bookmarks { limit: request.limit, policy }, policy, owned("bookmarks")))
        },
        BatchKind::Smart => {
            let request = parse_smart_request_json(request_json)?;
            validate_smart_request(&request)?;
            let mut current = owned("smart:");
            let mut i: usize = 0;
            proof {
                assert(views(request.tags@).take(0) =~= Seq::<Seq<char>>::empty());
            }
            while i < request.tags.len()
                invariant
                    i <= request.tags@.len(),
                    current@ == "smart:"@ + join_words(views(request.tags@).take(i as int)),
                decreases request.tags.len() - i,
            {
                let ghost words = views(request.tags@);
                proof {
                    assert(words.take(i + 1).drop_last() =~= words.take(i as int));
                    assert(words.take(i + 1).last() == request.tags@[i as int]@);
                    if i == 0 {
                        assert(words.take(1) =~= seq![request.tags@[0]@]);
                    }
                }
                if i > 0 {
                    push_char(&mut current, ' ');
                }
                push_str(&mut current, request.tags[i].as_str());
                proof {
                    assert(current@ =~= "smart:"@ + join_words(words.take(i + 1)));
                }
                i += 1;
            }
            proof {
                assert(views(request.tags@).take(i as int) =~= views(request.tags@));
            }
            let policy = request.r18_policy;
            Ok(
                (
                    Discovery::Search {
                        tags: request.tags,
                        negative_tags: request.negative_tags,
                        limit: request.limit,
                        policy,
                    },
                    policy,
                    current,
                ),
            )
        },
    }
}

fn discover<P: PixivClient>(pixiv: &P, discovery: &Discovery) -> Result<Vec<PixivWorkRef>, AppError> {
    match discovery {
        Discovery::Author { author_uid, limit } => pixiv.fetch_author_works(author_uid.as_str(), *limit),
        Discovery::Bookmarks { limit, policy } => pixiv.fetch_bookmarks(*limit, *policy),
        Discovery::Search { tags, negative_tags, limit, policy } => pixiv.search_works_by_tags(
            tags,
            negative_tags,
            *limit,
            *policy,
        ),
    }
}

/// Starts a stored batch task: it is marked running, its works are
/// discovered (a discovery failure fails the task), recorded as items, and
/// the first items are downloaded until one needs the file system.
pub fn execute_batch_download_task<'conn, P: PixivClient>(
    kind: BatchKind,
    task_id: &str,
    pixiv: &P,
    storage: &StoragePlanner,
    conn: &'conn rusqlite::Connection,
    process_id: u32,
) -> (r: (TaskRun<'conn>, TaskAction))
    ensures
        r.0.inv(),
        r.0.task_id_view() == task_id@,
        r.1 is CheckFile || r.1 is Finished,
        r.1 matches TaskAction::CheckFile(p) ==> r.0.checking(p@),
        r.1 matches TaskAction::Finished(Ok(TaskOutcome::Batch(b))) ==> b.task_id@ == task_id@
            && b.total == r.0.total() && b.completed + b.failed == b.total && b.status
            == batch_status(b.failed),
        r.1 matches TaskAction::Finished(Ok(o)) ==> o is Batch,
        r.0.is_batch(),
        // Each download of the batch files its images under the task and the batch's source.
        r.0.sources_named(),
        // Every source row the run's finished downloads wrote names the same source and task.
        r.0.sources_logged(),
        r.0.item_source() == kind.spec_source(),
        // Once works are discovered, a failed item never ends the batch: only the store can.
        r.0.total() > 0 ==> (r.1 matches TaskAction::Finished(Err(e)) ==> e.code.is_store_error()),        // Every finished item is counted by how it ended and its ending recorded in its row.
        r.0.recording(),
        r.1 matches TaskAction::Finished(Ok(TaskOutcome::Batch(b))) ==> r.0.outcomes_view().len()
            == b.total && b.completed == ok_count(r.0.outcomes_view()) && b.failed == err_count(
            r.0.outcomes_view(),
        ),
{
    let tasks = TaskRepository::new(conn);
    let mut run = idle_run(
        conn,
        storage,
        task_id,
        process_id,
        RunMode::Batch { kind, policy: R18Policy::Exclude },
    );
    let task = match load_task(&tasks, task_id, kind.task_type(), kind.wrong_type_message()) {
        Ok(task) => task,
        Err(error) => return (run, TaskAction::Finished(Err(error))),
    };
    let (discovery, policy, current) = match batch_plan(kind, task.request_json.as_str()) {
        Ok(plan) => plan,
        Err(error) => return (run, TaskAction::Finished(Err(error))),
    };
    run.mode = RunMode::Batch { kind, policy };
    if let Err(error) = begin_batch(&tasks, kind, task_id, current.as_str(), process_id) {
        return (run, TaskAction::Finished(Err(error)));
    }
    let found = discover(pixiv, &discovery);
    let action = run.run_discovered(pixiv, found);
    (run, action)
}

/// Marks a batch task running, before its discovery.
fn begin_batch(
    tasks: &TaskRepository,
    kind: BatchKind,
    task_id: &str,
    current: &str,
    process_id: u32,
) -> (r: Result<(), AppError>)
    ensures
        r is Err ==> r->Err_0.code.is_store_error(),
{
    tasks.start_task(task_id, Some(current))?;
    tasks.update_progress(task_id, 0, 0, Some(current))?;
    log_phase(
        tasks,
        task_id,
        TaskLogLevel::Info,
        kind.discovery_phase(),
        kind.discovery_message(),
        process_id,
    )
}

/// Records every discovered work as a `discovered` item, in order.
fn insert_items(tasks: &TaskRepository, task_id: &str, works: &Vec<PixivWorkRef>) -> (r: Result<
    (),
    AppError,
>)
    ensures
        r is Err ==> r->Err_0.code == ErrorCode::SqliteError,
{
    let mut i: usize = 0;
    while i < works.len()
        invariant
            i <= works@.len(),
        decreases works.len() - i,
    {
        tasks.insert_item(
            &NewTaskItemRecord {
                item_id: task_item_id(task_id, i),
                task_id: owned(task_id),
                pixiv_id: Some(works[i].pixiv_id.clone()),
                page_index: Some(0),
                status: TaskItemStatus::Discovered,
            },
        )?;
        i += 1;
    }
    Ok(())
}

/// Starts a stored author batch task.
pub fn execute_author_download_task<'conn, P: PixivClient>(
    task_id: &str,
    pixiv: &P,
    storage: &StoragePlanner,
    conn: &'conn rusqlite::Connection,
    process_id: u32,
) -> (r: (TaskRun<'conn>, TaskAction))
    ensures
        r.0.inv(),
        r.0.task_id_view() == task_id@,
        r.1 is CheckFile || r.1 is Finished,
        r.1 matches TaskAction::CheckFile(p) ==> r.0.checking(p@),
        r.1 matches TaskAction::Finished(Ok(TaskOutcome::Batch(b))) ==> b.task_id@ == task_id@
            && b.total == r.0.total() && b.completed + b.failed == b.total && b.status
            == batch_status(b.failed),
        r.1 matches TaskAction::Finished(Ok(o)) ==> o is Batch,
        r.0.is_batch(),
        // Each download of the batch files its images under the task and the batch's source.
        r.0.sources_named(),
        // Every source row the run's finished downloads wrote names the same source and task.
        r.0.sources_logged(),
        r.0.item_source() == ImageSource::Author,
        r.0.total() > 0 ==> (r.1 matches TaskAction::Finished(Err(e)) ==> e.code.is_store_error()),        // Every finished item is counted by how it ended and its ending recorded in its row.
        r.0.recording(),
        r.1 matches TaskAction::Finished(Ok(TaskOutcome::Batch(b))) ==> r.0.outcomes_view().len()
            == b.total && b.completed == ok_count(r.0.outcomes_view()) && b.failed == err_count(
            r.0.outcomes_view(),
        ),
{
    execute_batch_download_task(BatchKind::Author, task_id, pixiv, storage, conn, process_id)
}

/// Starts a stored bookmark batch task.
pub fn execute_bookmark_download_task<'conn, P: PixivClient>(
    task_id: &str,
    pixiv: &P,
    storage: &StoragePlanner,
    conn: &'conn rusqlite::Connection,
    process_id: u32,
) -> (r: (TaskRun<'conn>, TaskAction))
    ensures
        r.0.inv(),
        r.0.task_id_view() == task_id@,
        r.1 is CheckFile || r.1 is Finished,
        r.1 matches TaskAction::CheckFile(p) ==> r.0.checking(p@),
        r.1 matches TaskAction::Finished(Ok(TaskOutcome::Batch(b))) ==> b.task_id@ == task_id@
            && b.total == r.0.total() && b.completed + b.failed == b.total && b.status
            == batch_status(b.failed),
        r.1 matches TaskAction::Finished(Ok(o)) ==> o is Batch,
        r.0.is_batch(),
        // Each download of the batch files its images under the task and the batch's source.
        r.0.sources_named(),
        // Every source row the run's finished downloads wrote names the same source and task.
        r.0.sources_logged(),
        r.0.item_source() == ImageSource::Bookmark,
        r.0.total() > 0 ==> (r.1 matches TaskAction::Finished(Err(e)) ==> e.code.is_store_error()),        // Every finished item is counted by how it ended and its ending recorded in its row.
        r.0.recording(),
        r.1 matches TaskAction::Finished(Ok(TaskOutcome::Batch(b))) ==> r.0.outcomes_view().len()
            == b.total && b.completed == ok_count(r.0.outcomes_view()) && b.failed == err_count(
            r.0.outcomes_view(),
        ),
{
    execute_batch_download_task(BatchKind::Bookmark, task_id, pixiv, storage, conn, process_id)
}

/// Starts a stored smart batch task.
pub fn execute_smart_download_task<'conn, P: PixivClient>(
    task_id: &str,
    pixiv: &P,
    storage: &StoragePlanner,
    conn: &'conn rusqlite::Connection,
    process_id: u32,
) -> (r: (TaskRun<'conn>, TaskAction))
    ensures
        r.0.inv(),
        r.0.task_id_view() == task_id@,
        r.1 is CheckFile || r.1 is Finished,
        r.1 matches TaskAction::CheckFile(p) ==> r.0.checking(p@),
        r.1 matches TaskAction::Finished(Ok(TaskOutcome::Batch(b))) ==> b.task_id@ == task_id@
            && b.total == r.0.total() && b.completed + b.failed == b.total && b.status
            == batch_status(b.failed),
        r.1 matches TaskAction::Finished(Ok(o)) ==> o is Batch,
        r.0.is_batch(),
        // Each download of the batch files its images under the task and the batch's source.
        r.0.sources_named(),
        // Every source row the run's finished downloads wrote names the same source and task.
        r.0.sources_logged(),
        r.0.item_source() == ImageSource::Smart,
        r.0.total() > 0 ==> (r.1 matches TaskAction::Finished(Err(e)) ==> e.code.is_store_error()),        // Every finished item is counted by how it ended and its ending recorded in its row.
        r.0.recording(),
        r.1 matches TaskAction::Finished(Ok(TaskOutcome::Batch(b))) ==> r.0.outcomes_view().len()
            == b.total && b.completed == ok_count(r.0.outcomes_view()) && b.failed == err_count(
            r.0.outcomes_view(),
        ),
{
    execute_batch_download_task(BatchKind::Smart, task_id, pixiv, storage, conn, process_id)
}

/// Starts whatever task is stored under `task_id`, by its type; the types
/// no worker implements are refused.
pub fn execute_queued_task<'conn, P: PixivClient>(
    task_id: &str,
    pixiv: &P,
    storage: &StoragePlanner,
    conn: &'conn rusqlite::Connection,
    process_id: u32,
) -> (r: (TaskRun<'conn>, TaskAction))
    ensures
        r.0.inv(),
        r.1 is CheckFile || r.1 is Finished,
        r.1 matches TaskAction::Finished(Ok(TaskOutcome::Batch(b))) ==> b.completed + b.failed
            == b.total && b.status == batch_status(b.failed),
{
    let tasks = TaskRepository::new(conn);
    let placeholder = RunMode::Batch { kind: BatchKind::Author, policy: R18Policy::Exclude };
    let found = tasks.find_task(task_id);
    let task = match found {
        Ok(Some(task)) => task,
        Ok(None) => {
            let run = idle_run(conn, storage, task_id, process_id, placeholder);
            return (run, TaskAction::Finished(Err(AppError::new(ErrorCode::TaskNotFound, "task not found"))));
        },
        Err(error) => {
            let run = idle_run(conn, storage, task_id, process_id, placeholder);
            return (run, TaskAction::Finished(Err(error)));
        },
    };
    match task.task_type {
        TaskType::Single => execute_single_download_task(task_id, pixiv, storage, conn, process_id),
        TaskType::Author => execute_batch_download_task(BatchKind::Author, task_id, pixiv, storage, conn, process_id),
        TaskType::Bookmark => execute_batch_download_task(BatchKind::Bookmark, task_id, pixiv, storage, conn, process_id),
        TaskType::Smart => execute_batch_download_task(BatchKind::Smart, task_id, pixiv, storage, conn, process_id),
        _ => {
            let run = idle_run(conn, storage, task_id, process_id, placeholder);
            (run, TaskAction::Finished(Err(AppError::validation("task type is not implemented by worker"))))
        },
    }
}

/// Marks a task failed unless it already ended; used when a run is cut short.
pub fn mark_task_failed(db_path: &str, task_id: &str, error_code: &str, error_message: &str) -> (r:
    Result<(), AppError>)
    ensures
        r is Err ==> r->Err_0.code == ErrorCode::SqliteError || (r->Err_0.code
            == ErrorCode::ValidationError && r->Err_0.message@ == "task is already terminal"@),
{
    let conn = crate::db::open(db_path)?;
    let repo = TaskRepository::new(&conn);
    let found = repo.find_task(task_id)?;
    let mut log = Ghost(Seq::empty());
    fail_found_task_noted(&repo, found, task_id, error_code, error_message, &mut log)
}

/// What marking a task failed does once the task was looked up: a task that
/// already ended is left as it is, with nothing written; otherwise (a pending
/// or running task, or none found) the failure is written with the code and
/// message, noted in `log`.
pub fn fail_found_task_noted(
    tasks: &TaskRepository,
    found: Option<TaskRecord>,
    task_id: &str,
    error_code: &str,
    error_message: &str,
    log: &mut Ghost<Seq<SqlWrite>>,
) -> (r: Result<(), AppError>)
    ensures
        (found matches Some(t) && t.status.spec_is_terminal()) ==> r is Ok && final(log)@ == old(log)@,
        !(found matches Some(t) && t.status.spec_is_terminal()) ==> appended(
            final(log)@,
            old(log)@,
            FINISH_TASK_SQL@,
            seq![
                ParamSpec::Text(task_id@),
                ParamSpec::Text(TaskStatus::Failed.name()),
                ParamSpec::Text(error_code@),
                ParamSpec::Text(error_message@),
            ],
        ) && (r is Err ==> r->Err_0.code == ErrorCode::SqliteError || (r->Err_0.code
            == ErrorCode::ValidationError && r->Err_0.message@ == "task is already terminal"@)),
{
    if let Some(task) = found {
        if task.status.is_terminal() {
            return Ok(());
        }
    }
    tasks.finish_task_noted(task_id, TaskStatus::Failed, Some(error_code), Some(error_message), log)
}

/// Stores a single download task under `task_id` and starts it.
pub fn run_single_download_task_with_id<'conn, P: PixivClient>(
    task_id: &str,
    request: &DownloadRequest,
    pixiv: &P,
    storage: &StoragePlanner,
    conn: &'conn rusqlite::Connection,
    process_id: u32,
) -> (r: (TaskRun<'conn>, TaskAction))
    ensures
        r.0.inv(),
        r.0.task_id_view() == task_id@,
        r.1 is CheckFile || r.1 is Finished,
        r.1 matches TaskAction::CheckFile(p) ==> r.0.checking(p@),
        r.1 matches TaskAction::Finished(Ok(o)) ==> o is Single,
{
    if let Err(error) = create_single_download_task_with_id(task_id, request, conn, process_id) {
        let placeholder = RunMode::Batch { kind: BatchKind::Author, policy: R18Policy::Exclude };
        let run = idle_run(conn, storage, task_id, process_id, placeholder);
        return (run, TaskAction::Finished(Err(error)));
    }
    execute_single_download_task(task_id, pixiv, storage, conn, process_id)
}

/// Stores a single download task under a fresh id and starts it.
pub fn run_single_download_task<'conn, P: PixivClient>(
    request: &DownloadRequest,
    pixiv: &P,
    storage: &StoragePlanner,
    conn: &'conn rusqlite::Connection,
    process_id: u32,
) -> (r: (TaskRun<'conn>, TaskAction))
    ensures
        r.0.inv(),
        exists|stamp: nat| r.0.task_id_view() == local_id("task"@, process_id as nat, stamp),
        r.1 is CheckFile || r.1 is Finished,
        r.1 matches TaskAction::CheckFile(p) ==> r.0.checking(p@),
        r.1 matches TaskAction::Finished(Ok(o)) ==> o is Single,
{
    let task_id = fresh_task_id(process_id);
    run_single_download_task_with_id(task_id.as_str(), request, pixiv, storage, conn, process_id)
}

} // verus!
