//! Tasks: their records, the rules every state change obeys, and the task
//! repository that keeps them in SQLite.
use vstd::prelude::*;

use crate::db::{
    cell_integer, cell_opt_text, cell_opt_u32, cell_text, cell_u32, execute, opt_text, query,
    row_opt_text, row_opt_u32, row_text, row_u32, sql_integer, sql_null, sql_opt_text, sql_opt_u32,
    sql_text, opt_text_param, opt_u32_param, params_are, sql_opt_string, ParamSpec, SqlCell, appended,
    execute_noted, opt_str, SqlWrite, param_is,
};
use crate::domain::{
    DownloadItemStatus, DownloadRequest, ImageSource, R18Policy, TaskItemStatus, TaskLogLevel,
    TaskStatus, TaskType,
};
use crate::errors::{AppError, ErrorCode};
use crate::text::{owned, push_str};

verus! {

#[derive(Debug, Clone, PartialEq, Eq)]
pub struct NewTaskRecord {
    pub task_id: String,
    pub task_type: TaskType,
    pub request_json: String,
    pub progress_total: Option<u32>,
}

#[derive(Debug, Clone, PartialEq, Eq)]
pub struct TaskRecord {
    pub task_id: String,
    pub task_type: TaskType,
    pub status: TaskStatus,
    pub request_json: String,
    pub progress_total: Option<u32>,
    pub progress_done: u32,
    pub progress_failed: u32,
    pub current_item: Option<String>,
    pub error_code: Option<String>,
    pub error_message: Option<String>,
    pub created_at: String,
    pub started_at: Option<String>,
    pub finished_at: Option<String>,
    pub updated_at: String,
}

#[derive(Debug, Clone, PartialEq, Eq)]
pub struct NewTaskLogRecord {
    pub log_id: String,
    pub task_id: String,
    pub level: TaskLogLevel,
    pub phase: String,
    pub message: String,
    pub context_json: Option<String>,
}

#[derive(Debug, Clone, PartialEq, Eq)]
pub struct TaskLogRecord {
    pub log_id: String,
    pub task_id: String,
    pub level: TaskLogLevel,
    pub phase: String,
    pub message: String,
    pub context_json: Option<String>,
    pub created_at: String,
}

#[derive(Debug, Clone, PartialEq, Eq)]
pub struct NewTaskItemRecord {
    pub item_id: String,
    pub task_id: String,
    pub pixiv_id: Option<String>,
    pub page_index: Option<u32>,
    pub status: TaskItemStatus,
}

#[derive(Debug, Clone, PartialEq, Eq)]
pub struct TaskItemRecord {
    pub item_id: String,
    pub task_id: String,
    pub pixiv_id: Option<String>,
    pub page_index: Option<u32>,
    pub status: TaskItemStatus,
    pub image_id: Option<String>,
    pub error_code: Option<String>,
    pub error_message: Option<String>,
    pub created_at: String,
    pub updated_at: String,
}

#[derive(Debug, Clone, PartialEq, Eq)]
pub struct TaskListQuery {
    pub status: Option<TaskStatus>,
    pub task_type: Option<TaskType>,
    pub limit: usize,
    pub cursor_offset: usize,
}

#[derive(Debug, Clone, PartialEq, Eq)]
pub struct TaskListPage {
    pub items: Vec<TaskRecord>,
    pub next_cursor_offset: Option<usize>,
}

#[derive(Debug, Clone, PartialEq, Eq)]
pub struct SingleDownloadTaskOutcome {
    pub task_id: String,
    pub image_id: Option<String>,
    pub download_status: DownloadItemStatus,
}

#[derive(Debug, Clone, PartialEq, Eq)]
pub struct AuthorDownloadRequest {
    pub author_uid: String,
    pub limit: u32,
    pub r18_policy: R18Policy,
}

#[derive(Debug, Clone, PartialEq, Eq)]
pub struct BookmarkDownloadRequest {
    pub limit: u32,
    pub r18_policy: R18Policy,
}

#[derive(Debug, Clone, PartialEq, Eq)]
pub struct SmartDownloadRequest {
    pub prompt: String,
    pub tags: Vec<String>,
    pub negative_tags: Vec<String>,
    pub limit: u32,
    pub r18_policy: R18Policy,
    pub model: String,
}

#[derive(Debug, Clone, PartialEq, Eq)]
pub struct BatchDownloadTaskOutcome {
    pub task_id: String,
    pub total: u32,
    pub completed: u32,
    pub failed: u32,
    pub status: TaskStatus,
}

/// Why a progress update is refused, if it is: a terminal task never moves,
/// counters never go back, and done plus failed never passes the total.
pub open spec fn progress_refusal(
    status: TaskStatus,
    total: Option<u32>,
    old_done: u32,
    old_failed: u32,
    done: u32,
    failed: u32,
) -> Option<Seq<char>> {
    if status.spec_is_terminal() {
        Some("terminal task progress cannot be changed"@)
    } else if done < old_done || failed < old_failed {
        Some("task progress cannot decrease"@)
    } else if total matches Some(t) && done + failed > t {
        Some("task progress cannot exceed total"@)
    } else {
        None
    }
}

/// The progress rule applied to a stored task.
pub fn check_progress_update(task: &TaskRecord, progress_done: u32, progress_failed: u32) -> (r:
    Result<(), AppError>)
    ensures
        match progress_refusal(
            task.status,
            task.progress_total,
            task.progress_done,
            task.progress_failed,
            progress_done,
            progress_failed,
        ) {
            Some(m) => r is Err && r->Err_0.code == ErrorCode::ValidationError && r->Err_0.message@
                == m,
            None => r is Ok,
        },
{
    if task.status.is_terminal() {
        return Err(AppError::validation("terminal task progress cannot be changed"));
    }
    if progress_done < task.progress_done || progress_failed < task.progress_failed {
        return Err(AppError::validation("task progress cannot decrease"));
    }
    if let Some(total) = task.progress_total {
        if progress_done as u64 + progress_failed as u64 > total as u64 {
            return Err(AppError::validation("task progress cannot exceed total"));
        }
    }
    Ok(())
}

/// A task can only be finished into a terminal status.
pub fn check_finish_status(status: TaskStatus) -> (r: Result<(), AppError>)
    ensures
        status.spec_is_terminal() <==> r is Ok,
        r is Err ==> r->Err_0.code == ErrorCode::ValidationError && r->Err_0.message@
            == "task finish status must be terminal"@,
{
    if !status.is_terminal() {
        return Err(AppError::validation("task finish status must be terminal"));
    }
    Ok(())
}

/// An update that changed no row is refused with `message`.
pub fn ensure_updated(affected: usize, message: &str) -> (r: Result<(), AppError>)
    ensures
        affected == 0 <==> r is Err,
        r is Err ==> r->Err_0.code == ErrorCode::ValidationError && r->Err_0.message@
            == message@,
{
    if affected == 0 {
        return Err(AppError::validation(message));
    }
    Ok(())
}

/// The error SQLite conversion gives for a text column holding an unknown name.
fn conversion_error(index: usize, what: &str, value: &str) -> (e: AppError)
    ensures
        e.code == ErrorCode::SqliteError,
{
    let mut message = owned("Conversion error from type Text at index: ");
    crate::text::push_decimal(&mut message, index as u128);
    push_str(&mut message, ", invalid ");
    push_str(&mut message, what);
    push_str(&mut message, ": ");
    push_str(&mut message, value);
    AppError::new(ErrorCode::SqliteError, message.as_str())
}

/// A task row: its fourteen columns (in `TASK_SELECT` order) of the types,
/// and with the type and status names, the table allows.
pub open spec fn task_row(row: Seq<SqlCell>) -> bool {
    &&& row_text(row, 0) is Some
    &&& (row_text(row, 1) matches Some(t) && TaskType::parse(t) is Some)
    &&& (row_text(row, 2) matches Some(s) && TaskStatus::parse(s) is Some)
    &&& row_text(row, 3) is Some
    &&& row_opt_u32(row, 4) is Some
    &&& row_u32(row, 5) is Some
    &&& row_u32(row, 6) is Some
    &&& row_opt_text(row, 7) is Some
    &&& row_opt_text(row, 8) is Some
    &&& row_opt_text(row, 9) is Some
    &&& row_text(row, 10) is Some
    &&& row_opt_text(row, 11) is Some
    &&& row_opt_text(row, 12) is Some
    &&& row_text(row, 13) is Some
}

/// The task a task row holds, column for column.
pub open spec fn task_fields(t: TaskRecord, row: Seq<SqlCell>) -> bool {
    &&& row_text(row, 0) == Some(t.task_id@)
    &&& TaskType::parse(row_text(row, 1)->Some_0) == Some(t.task_type)
    &&& TaskStatus::parse(row_text(row, 2)->Some_0) == Some(t.status)
    &&& row_text(row, 3) == Some(t.request_json@)
    &&& row_opt_u32(row, 4) == Some(t.progress_total)
    &&& row_u32(row, 5) == Some(t.progress_done)
    &&& row_u32(row, 6) == Some(t.progress_failed)
    &&& row_opt_text(row, 7) == Some(opt_text(t.current_item))
    &&& row_opt_text(row, 8) == Some(opt_text(t.error_code))
    &&& row_opt_text(row, 9) == Some(opt_text(t.error_message))
    &&& row_text(row, 10) == Some(t.created_at@)
    &&& row_opt_text(row, 11) == Some(opt_text(t.started_at))
    &&& row_opt_text(row, 12) == Some(opt_text(t.finished_at))
    &&& row_text(row, 13) == Some(t.updated_at@)
}

/// A task log row: its seven columns of the types, and with a level name,
/// the table allows.
pub open spec fn task_log_row(row: Seq<SqlCell>) -> bool {
    &&& row_text(row, 0) is Some
    &&& row_text(row, 1) is Some
    &&& (row_text(row, 2) matches Some(l) && TaskLogLevel::parse(l) is Some)
    &&& row_text(row, 3) is Some
    &&& row_text(row, 4) is Some
    &&& row_opt_text(row, 5) is Some
    &&& row_text(row, 6) is Some
}

/// The log line a task log row holds, column for column.
pub open spec fn task_log_fields(l: TaskLogRecord, row: Seq<SqlCell>) -> bool {
    &&& row_text(row, 0) == Some(l.log_id@)
    &&& row_text(row, 1) == Some(l.task_id@)
    &&& TaskLogLevel::parse(row_text(row, 2)->Some_0) == Some(l.level)
    &&& row_text(row, 3) == Some(l.phase@)
    &&& row_text(row, 4) == Some(l.message@)
    &&& row_opt_text(row, 5) == Some(opt_text(l.context_json))
    &&& row_text(row, 6) == Some(l.created_at@)
}

/// A task item row: its ten columns of the types, and with a status name,
/// the table allows.
pub open spec fn task_item_row(row: Seq<SqlCell>) -> bool {
    &&& row_text(row, 0) is Some
    &&& row_text(row, 1) is Some
    &&& row_opt_text(row, 2) is Some
    &&& row_opt_u32(row, 3) is Some
    &&& (row_text(row, 4) matches Some(s) && TaskItemStatus::parse(s) is Some)
    &&& row_opt_text(row, 5) is Some
    &&& row_opt_text(row, 6) is Some
    &&& row_opt_text(row, 7) is Some
    &&& row_text(row, 8) is Some
    &&& row_text(row, 9) is Some
}

/// The item a task item row holds, column for column.
pub open spec fn task_item_fields(i: TaskItemRecord, row: Seq<SqlCell>) -> bool {
    &&& row_text(row, 0) == Some(i.item_id@)
    &&& row_text(row, 1) == Some(i.task_id@)
    &&& row_opt_text(row, 2) == Some(opt_text(i.pixiv_id))
    &&& row_opt_u32(row, 3) == Some(i.page_index)
    &&& TaskItemStatus::parse(row_text(row, 4)->Some_0) == Some(i.status)
    &&& row_opt_text(row, 5) == Some(opt_text(i.image_id))
    &&& row_opt_text(row, 6) == Some(opt_text(i.error_code))
    &&& row_opt_text(row, 7) == Some(opt_text(i.error_message))
    &&& row_text(row, 8) == Some(i.created_at@)
    &&& row_text(row, 9) == Some(i.updated_at@)
}

/// A task row (columns in `TASK_COLUMNS` order) decoded.
pub fn task_from_row(row: &Vec<SqlCell>) -> (r: Result<TaskRecord, AppError>)
    ensures
        r is Ok <==> task_row(row@),
        r matches Ok(t) ==> task_fields(t, row@),
        r is Ok ==> row@.len() >= 14 && row@[0] is Text && r->Ok_0.task_id@ == row@[0]->Text_0@
            && row@[1] is Text && TaskType::parse(row@[1]->Text_0@) == Some(r->Ok_0.task_type)
            && row@[2] is Text && TaskStatus::parse(row@[2]->Text_0@) == Some(r->Ok_0.status),
        r is Err ==> r->Err_0.code == ErrorCode::SqliteError,
{
    let type_text = cell_text(row, 1)?;
    let task_type = match TaskType::from_db(type_text.as_str()) {
        Some(t) => t,
        None => return Err(conversion_error(1, "task type", type_text.as_str())),
    };
    let status_text = cell_text(row, 2)?;
    let status = match TaskStatus::from_db(status_text.as_str()) {
        Some(s) => s,
        None => return Err(conversion_error(2, "task status", status_text.as_str())),
    };
    let task_id = cell_text(row, 0)?;
    let request_json = cell_text(row, 3)?;
    let progress_total = cell_opt_u32(row, 4)?;
    let progress_done = cell_u32(row, 5)?;
    let progress_failed = cell_u32(row, 6)?;
    let current_item = cell_opt_text(row, 7)?;
    let error_code = cell_opt_text(row, 8)?;
    let error_message = cell_opt_text(row, 9)?;
    let created_at = cell_text(row, 10)?;
    let started_at = cell_opt_text(row, 11)?;
    let finished_at = cell_opt_text(row, 12)?;
    let updated_at = cell_text(row, 13)?;
    Ok(TaskRecord {
        task_id,
        task_type,
        status,
        request_json,
        progress_total,
        progress_done,
        progress_failed,
        current_item,
        error_code,
        error_message,
        created_at,
        started_at,
        finished_at,
        updated_at,
    })
}

/// A task log row decoded.
pub fn task_log_from_row(row: &Vec<SqlCell>) -> (r: Result<TaskLogRecord, AppError>)
    ensures
        r is Ok <==> task_log_row(row@),
        r matches Ok(l) ==> task_log_fields(l, row@),
        r is Ok ==> row@.len() >= 7 && row@[2] is Text && TaskLogLevel::parse(
            row@[2]->Text_0@,
        ) == Some(r->Ok_0.level),
        r is Err ==> r->Err_0.code == ErrorCode::SqliteError,
{
    let level_text = cell_text(row, 2)?;
    let level = match TaskLogLevel::from_db(level_text.as_str()) {
        Some(l) => l,
        None => return Err(conversion_error(2, "task log level", level_text.as_str())),
    };
    let log_id = cell_text(row, 0)?;
    let task_id = cell_text(row, 1)?;
    let phase = cell_text(row, 3)?;
    let message = cell_text(row, 4)?;
    let context_json = cell_opt_text(row, 5)?;
    let created_at = cell_text(row, 6)?;
    Ok(TaskLogRecord { log_id, task_id, level, phase, message, context_json, created_at })
}

/// A task item row decoded.
pub fn task_item_from_row(row: &Vec<SqlCell>) -> (r: Result<TaskItemRecord, AppError>)
    ensures
        r is Ok <==> task_item_row(row@),
        r matches Ok(i) ==> task_item_fields(i, row@),
        r is Ok ==> row@.len() >= 10 && row@[4] is Text && TaskItemStatus::parse(
            row@[4]->Text_0@,
        ) == Some(r->Ok_0.status),
        r is Err ==> r->Err_0.code == ErrorCode::SqliteError,
{
    let status_text = cell_text(row, 4)?;
    let status = match TaskItemStatus::from_db(status_text.as_str()) {
        Some(s) => s,
        None => return Err(conversion_error(4, "task item status", status_text.as_str())),
    };
    let item_id = cell_text(row, 0)?;
    let task_id = cell_text(row, 1)?;
    let pixiv_id = cell_opt_text(row, 2)?;
    let page_index = cell_opt_u32(row, 3)?;
    let image_id = cell_opt_text(row, 5)?;
    let error_code = cell_opt_text(row, 6)?;
    let error_message = cell_opt_text(row, 7)?;
    let created_at = cell_text(row, 8)?;
    let updated_at = cell_text(row, 9)?;
    Ok(TaskItemRecord {
        item_id,
        task_id,
        pixiv_id,
        page_index,
        status,
        image_id,
        error_code,
        error_message,
        created_at,
        updated_at,
    })
}

/// Stores a new task: `pending`, nothing done or failed, created now.
pub const INSERT_TASK_SQL: &'static str = "INSERT INTO tasks (
                task_id, type, status, request_json, progress_total, progress_done,
                progress_failed, created_at, updated_at
             ) VALUES (
                ?1, ?2, 'pending', ?3, ?4, 0,
                0, datetime('now'), datetime('now')
             )";

/// The statement storing a new task, and its parameters: id, type name,
/// request and total.
pub fn insert_task_statement(task: &NewTaskRecord) -> (r: (&'static str, Vec<rusqlite::types::Value>))
    ensures
        r.0@ == INSERT_TASK_SQL@,
        params_are(
            r.1@,
            seq![
                ParamSpec::Text(task.task_id@),
                ParamSpec::Text(task.task_type.name()),
                ParamSpec::Text(task.request_json@),
                opt_u32_param(task.progress_total),
            ],
        ),
{
    let mut params = Vec::new();
    params.push(sql_text(task.task_id.as_str()));
    params.push(sql_text(task.task_type.as_str()));
    params.push(sql_text(task.request_json.as_str()));
    params.push(sql_opt_u32(task.progress_total));
    (INSERT_TASK_SQL, params)
}

/// The task columns, in the order `task_from_row` reads them.
pub const TASK_SELECT: &'static str = "SELECT
    task_id, type, status, request_json, progress_total, progress_done,
    progress_failed, current_item, error_code, error_message,
    created_at, started_at, finished_at, updated_at
 FROM tasks";

/// The statement reading one task by id, and its parameter.
pub fn find_task_statement(task_id: &str) -> (r: (String, Vec<rusqlite::types::Value>))
    ensures
        r.0@ == TASK_SELECT@ + " WHERE task_id = ?1"@,
        params_are(r.1@, seq![ParamSpec::Text(task_id@)]),
{
    let mut params = Vec::new();
    params.push(sql_text(task_id));
    let mut sql = owned(TASK_SELECT);
    push_str(&mut sql, " WHERE task_id = ?1");
    (sql, params)
}

/// The task listing: the status and type filters a query has, newest first
/// (ties by id), one row more than the page so the next page shows.
pub open spec fn task_list_sql(q: TaskListQuery) -> Seq<char> {
    TASK_SELECT@ + " WHERE 1 = 1"@ + (if q.status is Some {
        " AND status = ?"@
    } else {
        Seq::<char>::empty()
    }) + (if q.task_type is Some {
        " AND type = ?"@
    } else {
        Seq::<char>::empty()
    }) + " ORDER BY created_at DESC, task_id DESC LIMIT ? OFFSET ?"@
}

/// The parameters of the task listing: the filters' names, then the row
/// count (page size plus one) and the offset.
pub open spec fn task_list_params(q: TaskListQuery) -> Seq<ParamSpec> {
    (match q.status {
        Some(s) => seq![ParamSpec::Text(s.name())],
        None => Seq::<ParamSpec>::empty(),
    }) + (match q.task_type {
        Some(t) => seq![ParamSpec::Text(t.name())],
        None => Seq::<ParamSpec>::empty(),
    }) + seq![
        ParamSpec::Integer((crate::images::clamp_limit(q.limit as nat) + 1) as i64),
        ParamSpec::Integer(q.cursor_offset as i64),
    ]
}

/// The statement listing one page of tasks, and its parameters.
pub fn list_tasks_statement(q: &TaskListQuery) -> (r: (String, Vec<rusqlite::types::Value>))
    ensures
        r.0@ == task_list_sql(*q),
        params_are(r.1@, task_list_params(*q)),
{
    let limit = crate::images::clamp_list_limit(q.limit);
    let mut sql = owned(TASK_SELECT);
    push_str(&mut sql, " WHERE 1 = 1");
    let mut params = Vec::new();
    let ghost mut expected: Seq<ParamSpec> = Seq::empty();
    if let Some(status) = q.status {
        push_str(&mut sql, " AND status = ?");
        params.push(sql_text(status.as_str()));
        proof {
            expected = seq![ParamSpec::Text(status.name())];
        }
    }
    if let Some(task_type) = q.task_type {
        push_str(&mut sql, " AND type = ?");
        params.push(sql_text(task_type.as_str()));
        proof {
            expected = expected + seq![ParamSpec::Text(task_type.name())];
        }
    }
    push_str(&mut sql, " ORDER BY created_at DESC, task_id DESC LIMIT ? OFFSET ?");
    params.push(sql_integer((limit + 1) as i64));
    params.push(sql_integer(q.cursor_offset as i64));
    proof {
        assert(sql@ =~= task_list_sql(*q));
        assert(task_list_params(*q) =~= expected + seq![
            ParamSpec::Integer((crate::images::clamp_limit(q.limit as nat) + 1) as i64),
            ParamSpec::Integer(q.cursor_offset as i64),
        ]);
    }
    (sql, params)
}

/// Marks a pending task running, keeping its first start time.
pub const START_TASK_SQL: &'static str = "UPDATE tasks
             SET status = 'running',
                 started_at = COALESCE(started_at, datetime('now')),
                 current_item = ?2,
                 updated_at = datetime('now')
             WHERE task_id = ?1 AND status = 'pending'";

/// The statement starting a pending task, and its parameters.
pub fn start_task_statement(task_id: &str, current_item: Option<&str>) -> (r: (
    &'static str,
    Vec<rusqlite::types::Value>,
))
    ensures
        r.0@ == START_TASK_SQL@,
        params_are(
            r.1@,
            seq![
                ParamSpec::Text(task_id@),
                opt_text_param(
                    match current_item {
                        Some(c) => Some(c@),
                        None => None,
                    },
                ),
            ],
        ),
{
    let mut params = Vec::new();
    params.push(sql_text(task_id));
    params.push(sql_opt_text(current_item));
    (START_TASK_SQL, params)
}

/// Sets a task's counters and current item.
pub const UPDATE_PROGRESS_SQL: &'static str = "UPDATE tasks
             SET progress_done = ?2,
                 progress_failed = ?3,
                 current_item = ?4,
                 updated_at = datetime('now')
             WHERE task_id = ?1";

/// The statement setting a task's progress, and its parameters.
pub fn update_progress_statement(
    task_id: &str,
    progress_done: u32,
    progress_failed: u32,
    current_item: Option<&str>,
) -> (r: (&'static str, Vec<rusqlite::types::Value>))
    ensures
        r.0@ == UPDATE_PROGRESS_SQL@,
        params_are(
            r.1@,
            seq![
                ParamSpec::Text(task_id@),
                ParamSpec::Integer(progress_done as i64),
                ParamSpec::Integer(progress_failed as i64),
                opt_text_param(
                    match current_item {
                        Some(c) => Some(c@),
                        None => None,
                    },
                ),
            ],
        ),
{
    let mut params = Vec::new();
    params.push(sql_text(task_id));
    params.push(sql_integer(progress_done as i64));
    params.push(sql_integer(progress_failed as i64));
    params.push(sql_opt_text(current_item));
    (UPDATE_PROGRESS_SQL, params)
}

/// Sets the total of a task that is pending or running.
pub const SET_PROGRESS_TOTAL_SQL: &'static str = "UPDATE tasks
             SET progress_total = ?2,
                 updated_at = datetime('now')
             WHERE task_id = ?1 AND status IN ('pending', 'running')";

/// The statement setting a task's total, and its parameters.
pub fn set_progress_total_statement(task_id: &str, progress_total: u32) -> (r: (
    &'static str,
    Vec<rusqlite::types::Value>,
))
    ensures
        r.0@ == SET_PROGRESS_TOTAL_SQL@,
        params_are(
            r.1@,
            seq![ParamSpec::Text(task_id@), ParamSpec::Integer(progress_total as i64)],
        ),
{
    let mut params = Vec::new();
    params.push(sql_text(task_id));
    params.push(sql_integer(progress_total as i64));
    (SET_PROGRESS_TOTAL_SQL, params)
}

/// Moves a pending or running task into a final status, with its error,
/// keeping its first finish time and clearing its current item.
pub const FINISH_TASK_SQL: &'static str = "UPDATE tasks
             SET status = ?2,
                 error_code = ?3,
                 error_message = ?4,
                 finished_at = COALESCE(finished_at, datetime('now')),
                 current_item = NULL,
                 updated_at = datetime('now')
             WHERE task_id = ?1 AND status IN ('pending', 'running')";

/// The statement finishing a task, and its parameters.
pub fn finish_task_statement(
    task_id: &str,
    status: TaskStatus,
    error_code: Option<&str>,
    error_message: Option<&str>,
) -> (r: (&'static str, Vec<rusqlite::types::Value>))
    ensures
        r.0@ == FINISH_TASK_SQL@,
        params_are(
            r.1@,
            seq![
                ParamSpec::Text(task_id@),
                ParamSpec::Text(status.name()),
                opt_text_param(
                    match error_code {
                        Some(c) => Some(c@),
                        None => None,
                    },
                ),
                opt_text_param(
                    match error_message {
                        Some(m) => Some(m@),
                        None => None,
                    },
                ),
            ],
        ),
{
    let mut params = Vec::new();
    params.push(sql_text(task_id));
    params.push(sql_text(status.as_str()));
    params.push(sql_opt_text(error_code));
    params.push(sql_opt_text(error_message));
    (FINISH_TASK_SQL, params)
}

/// The status a task row holds after the write `w`, when it held `status`
/// before, as the library's statements are written: the start statement
/// moves a pending task to running; the finish statement (which the library
/// issues only with a terminal status) moves a pending or running task to the
/// status it names; no other statement the library issues sets a status.
pub open spec fn status_after(status: TaskStatus, task_id: Seq<char>, w: SqlWrite) -> TaskStatus {
    if w.params.len() >= 2 && param_is(w.params[0], ParamSpec::Text(task_id)) {
        if w.sql == START_TASK_SQL@ {
            if status is Pending {
                TaskStatus::Running
            } else {
                status
            }
        } else if w.sql == FINISH_TASK_SQL@ && !status.spec_is_terminal() && exists|s: TaskStatus|
            s.spec_is_terminal() && #[trigger] param_is(w.params[1], ParamSpec::Text(s.name())) {
            choose|s: TaskStatus| s.spec_is_terminal() && #[trigger] param_is(w.params[1], ParamSpec::Text(s.name()))
        } else {
            status
        }
    } else {
        status
    }
}

/// The status a task row holds after the writes, in order.
pub open spec fn status_after_all(status: TaskStatus, task_id: Seq<char>, writes: Seq<SqlWrite>) -> TaskStatus
    decreases writes.len(),
{
    if writes.len() == 0 {
        status
    } else {
        status_after(status_after_all(status, task_id, writes.drop_last()), task_id, writes.last())
    }
}

/// A task in a terminal status keeps it, whatever writes follow.
pub proof fn lemma_terminal_status_kept(status: TaskStatus, task_id: Seq<char>, writes: Seq<SqlWrite>)
    requires
        status.spec_is_terminal(),
    ensures
        status_after_all(status, task_id, writes) == status,
    decreases writes.len(),
{
    if writes.len() > 0 {
        lemma_terminal_status_kept(status, task_id, writes.drop_last());
    }
}

/// Only a pending task starts: a write that leaves a task running that was
/// not running before is the start statement, and the task was pending.
pub proof fn lemma_only_pending_starts(status: TaskStatus, task_id: Seq<char>, w: SqlWrite)
    requires
        status_after(status, task_id, w) == TaskStatus::Running,
        status != TaskStatus::Running,
    ensures
        status == TaskStatus::Pending,
        w.sql == START_TASK_SQL@,
{
}

/// The finish statement naming a terminal status ends a pending or running
/// task in a terminal status.
pub proof fn lemma_finish_ends_task(status: TaskStatus, task_id: Seq<char>, w: SqlWrite, named: TaskStatus)
    requires
        !status.spec_is_terminal(),
        named.spec_is_terminal(),
        w.sql == FINISH_TASK_SQL@,
        w.params.len() >= 2,
        param_is(w.params[0], ParamSpec::Text(task_id)),
        param_is(w.params[1], ParamSpec::Text(named.name())),
    ensures
        status_after(status, task_id, w).spec_is_terminal(),
{
    reveal_strlit("UPDATE tasks
             SET status = 'running',
                 started_at = COALESCE(started_at, datetime('now')),
                 current_item = ?2,
                 updated_at = datetime('now')
             WHERE task_id = ?1 AND status = 'pending'");
    reveal_strlit("UPDATE tasks
             SET status = ?2,
                 error_code = ?3,
                 error_message = ?4,
                 finished_at = COALESCE(finished_at, datetime('now')),
                 current_item = NULL,
                 updated_at = datetime('now')
             WHERE task_id = ?1 AND status IN ('pending', 'running')");
    assert(START_TASK_SQL@[39] != FINISH_TASK_SQL@[39]);
}

/// Stores a new task item, created now.
pub const INSERT_ITEM_SQL: &'static str = "INSERT INTO task_items (
                item_id, task_id, pixiv_id, page_index, status, created_at, updated_at
             ) VALUES (
                ?1, ?2, ?3, ?4, ?5, datetime('now'), datetime('now')
             )";

/// The statement storing a task item, and its parameters.
pub fn insert_item_statement(item: &NewTaskItemRecord) -> (r: (&'static str, Vec<rusqlite::types::Value>))
    ensures
        r.0@ == INSERT_ITEM_SQL@,
        params_are(
            r.1@,
            seq![
                ParamSpec::Text(item.item_id@),
                ParamSpec::Text(item.task_id@),
                opt_text_param(opt_text(item.pixiv_id)),
                opt_u32_param(item.page_index),
                ParamSpec::Text(item.status.name()),
            ],
        ),
{
    let mut params = Vec::new();
    params.push(sql_text(item.item_id.as_str()));
    params.push(sql_text(item.task_id.as_str()));
    params.push(sql_opt_string(&item.pixiv_id));
    params.push(sql_opt_u32(item.page_index));
    params.push(sql_text(item.status.as_str()));
    (INSERT_ITEM_SQL, params)
}

/// Sets an item's status, image and error.
pub const UPDATE_ITEM_STATUS_SQL: &'static str = "UPDATE task_items
             SET status = ?2,
                 image_id = ?3,
                 error_code = ?4,
                 error_message = ?5,
                 updated_at = datetime('now')
             WHERE item_id = ?1";

/// The statement updating an item, and its parameters.
pub fn update_item_status_statement(
    item_id: &str,
    status: TaskItemStatus,
    image_id: Option<&str>,
    error_code: Option<&str>,
    error_message: Option<&str>,
) -> (r: (&'static str, Vec<rusqlite::types::Value>))
    ensures
        r.0@ == UPDATE_ITEM_STATUS_SQL@,
        params_are(
            r.1@,
            seq![
                ParamSpec::Text(item_id@),
                ParamSpec::Text(status.name()),
                opt_text_param(
                    match image_id {
                        Some(c) => Some(c@),
                        None => None,
                    },
                ),
                opt_text_param(
                    match error_code {
                        Some(c) => Some(c@),
                        None => None,
                    },
                ),
                opt_text_param(
                    match error_message {
                        Some(m) => Some(m@),
                        None => None,
                    },
                ),
            ],
        ),
{
    let mut params = Vec::new();
    params.push(sql_text(item_id));
    params.push(sql_text(status.as_str()));
    params.push(sql_opt_text(image_id));
    params.push(sql_opt_text(error_code));
    params.push(sql_opt_text(error_message));
    (UPDATE_ITEM_STATUS_SQL, params)
}

/// A task's items, oldest first (ties by id).
pub const ITEMS_FOR_TASK_SQL: &'static str = "SELECT
                item_id, task_id, pixiv_id, page_index, status, image_id,
                error_code, error_message, created_at, updated_at
             FROM task_items
             WHERE task_id = ?1
             ORDER BY created_at, item_id";

/// Stores a log line, created now.
pub const ADD_LOG_SQL: &'static str = "INSERT INTO task_logs (
                log_id, task_id, level, phase, message, context_json, created_at
             ) VALUES (
                ?1, ?2, ?3, ?4, ?5, ?6, datetime('now')
             )";

/// The statement storing a log line, and its parameters.
pub fn add_log_statement(log: &NewTaskLogRecord) -> (r: (&'static str, Vec<rusqlite::types::Value>))
    ensures
        r.0@ == ADD_LOG_SQL@,
        params_are(
            r.1@,
            seq![
                ParamSpec::Text(log.log_id@),
                ParamSpec::Text(log.task_id@),
                ParamSpec::Text(log.level.name()),
                ParamSpec::Text(log.phase@),
                ParamSpec::Text(log.message@),
                opt_text_param(opt_text(log.context_json)),
            ],
        ),
{
    let mut params = Vec::new();
    params.push(sql_text(log.log_id.as_str()));
    params.push(sql_text(log.task_id.as_str()));
    params.push(sql_text(log.level.as_str()));
    params.push(sql_text(log.phase.as_str()));
    params.push(sql_text(log.message.as_str()));
    params.push(sql_opt_string(&log.context_json));
    (ADD_LOG_SQL, params)
}

/// A task's log lines, oldest first (ties by id).
pub const LOGS_FOR_TASK_SQL: &'static str = "SELECT log_id, task_id, level, phase, message, context_json, created_at
             FROM task_logs
             WHERE task_id = ?1
             ORDER BY created_at, log_id";


/// Every row decoded, in order; refused when one is not a well-formed row.
pub fn tasks_from_rows(rows: &Vec<Vec<SqlCell>>) -> (r: Result<Vec<TaskRecord>, AppError>)
    ensures
        r is Ok <==> forall|i: int| 0 <= i < rows@.len() ==> task_row(#[trigger] rows@[i]@),
        r matches Ok(out) ==> out@.len() == rows@.len() && forall|i: int|
            0 <= i < rows@.len() ==> task_fields(#[trigger] out@[i], rows@[i]@),
        r is Err ==> r->Err_0.code == ErrorCode::SqliteError,
{
    let mut out: Vec<TaskRecord> = Vec::new();
    let mut i: usize = 0;
    while i < rows.len()
        invariant
            i <= rows@.len(),
            out@.len() == i,
            forall|j: int| 0 <= j < i ==> task_row(#[trigger] rows@[j]@),
            forall|j: int| 0 <= j < i ==> task_fields(#[trigger] out@[j], rows@[j]@),
        decreases rows.len() - i,
    {
        match task_from_row(&rows[i]) {
            Ok(decoded) => out.push(decoded),
            Err(error) => {
                assert(!task_row(rows@[i as int]@));
                return Err(error);
            },
        }
        i += 1;
    }
    Ok(out)
}

/// Every row decoded, in order; refused when one is not a well-formed row.
pub fn task_items_from_rows(rows: &Vec<Vec<SqlCell>>) -> (r: Result<Vec<TaskItemRecord>, AppError>)
    ensures
        r is Ok <==> forall|i: int| 0 <= i < rows@.len() ==> task_item_row(#[trigger] rows@[i]@),
        r matches Ok(out) ==> out@.len() == rows@.len() && forall|i: int|
            0 <= i < rows@.len() ==> task_item_fields(#[trigger] out@[i], rows@[i]@),
        r is Err ==> r->Err_0.code == ErrorCode::SqliteError,
{
    let mut out: Vec<TaskItemRecord> = Vec::new();
    let mut i: usize = 0;
    while i < rows.len()
        invariant
            i <= rows@.len(),
            out@.len() == i,
            forall|j: int| 0 <= j < i ==> task_item_row(#[trigger] rows@[j]@),
            forall|j: int| 0 <= j < i ==> task_item_fields(#[trigger] out@[j], rows@[j]@),
        decreases rows.len() - i,
    {
        match task_item_from_row(&rows[i]) {
            Ok(decoded) => out.push(decoded),
            Err(error) => {
                assert(!task_item_row(rows@[i as int]@));
                return Err(error);
            },
        }
        i += 1;
    }
    Ok(out)
}

/// Every row decoded, in order; refused when one is not a well-formed row.
pub fn task_logs_from_rows(rows: &Vec<Vec<SqlCell>>) -> (r: Result<Vec<TaskLogRecord>, AppError>)
    ensures
        r is Ok <==> forall|i: int| 0 <= i < rows@.len() ==> task_log_row(#[trigger] rows@[i]@),
        r matches Ok(out) ==> out@.len() == rows@.len() && forall|i: int|
            0 <= i < rows@.len() ==> task_log_fields(#[trigger] out@[i], rows@[i]@),
        r is Err ==> r->Err_0.code == ErrorCode::SqliteError,
{
    let mut out: Vec<TaskLogRecord> = Vec::new();
    let mut i: usize = 0;
    while i < rows.len()
        invariant
            i <= rows@.len(),
            out@.len() == i,
            forall|j: int| 0 <= j < i ==> task_log_row(#[trigger] rows@[j]@),
            forall|j: int| 0 <= j < i ==> task_log_fields(#[trigger] out@[j], rows@[j]@),
        decreases rows.len() - i,
    {
        match task_log_from_row(&rows[i]) {
            Ok(decoded) => out.push(decoded),
            Err(error) => {
                assert(!task_log_row(rows@[i as int]@));
                return Err(error);
            },
        }
        i += 1;
    }
    Ok(out)
}

/// Task storage.
pub struct TaskRepository<'conn> {
    conn: &'conn rusqlite::Connection,
}

impl<'conn> TaskRepository<'conn> {
    /// The database the repository works on.
    pub closed spec fn connection(self) -> &'conn rusqlite::Connection {
        self.conn
    }

    pub fn new(conn: &'conn rusqlite::Connection) -> (r: Self)
        ensures
            r.connection() == conn,
    {
        TaskRepository { conn }
    }

    /// Stores a new task as `pending` with no progress.
    pub fn insert_task(&self, task: &NewTaskRecord) -> (r: Result<(), AppError>)
        ensures
            r is Err ==> r->Err_0.code == ErrorCode::SqliteError,
    {
        let mut log = Ghost(Seq::empty());
        self.insert_task_noted(task, &mut log)
    }

    /// `insert_task`, noting the write in `log`.
    pub fn insert_task_noted(&self, task: &NewTaskRecord, log: &mut Ghost<Seq<SqlWrite>>) -> (r: Result<
        (),
        AppError,
    >)
        ensures
            r is Err ==> r->Err_0.code == ErrorCode::SqliteError,
            appended(
                final(log)@,
                old(log)@,
                INSERT_TASK_SQL@,
                seq![
                    ParamSpec::Text(task.task_id@),
                    ParamSpec::Text(task.task_type.name()),
                    ParamSpec::Text(task.request_json@),
                    opt_u32_param(task.progress_total),
                ],
            ),
    {
        let (sql, params) = insert_task_statement(task);
        let ghost before = log@;
        let written = execute_noted(self.conn, sql, &params, log);
        proof {
            assert(log@.drop_last() =~= before);
        }
        written?;
        Ok(())
    }

    /// The task with this id, if stored.
    pub fn find_task(&self, task_id: &str) -> (r: Result<Option<TaskRecord>, AppError>)
        ensures
            r matches Ok(Some(t)) ==> t.task_id@ == task_id@,
            r is Err ==> r->Err_0.code == ErrorCode::SqliteError,
    {
        let (sql, params) = find_task_statement(task_id);
        let rows = query(self.conn, sql.as_str(), &params)?;
        if rows.len() == 0 {
            return Ok(None);
        }
        let task = task_from_row(&rows[0])?;
        if !crate::text::str_equals(task.task_id.as_str(), task_id) {
            return Err(AppError::new(ErrorCode::SqliteError, "query returned another task"));
        }
        Ok(Some(task))
    }

    /// Tasks newest first, filtered by status and type, one page at a time.
    pub fn list_tasks(&self, list_query: &TaskListQuery) -> (r: Result<TaskListPage, AppError>)
        requires
            list_query.cursor_offset + 100 <= usize::MAX,
        ensures
            r is Err ==> r->Err_0.code == ErrorCode::SqliteError,
            r matches Ok(page) ==> page.items@.len() <= crate::images::clamp_limit(
                list_query.limit as nat,
            ) && (page.next_cursor_offset matches Some(n) ==> n == list_query.cursor_offset
                + crate::images::clamp_limit(list_query.limit as nat)),
    {
        let limit = crate::images::clamp_list_limit(list_query.limit);
        let (sql, params) = list_tasks_statement(list_query);
        let rows = query(self.conn, sql.as_str(), &params)?;
        let tasks = tasks_from_rows(&rows)?;
        let (items, next) = crate::images::split_page(tasks, limit, list_query.cursor_offset);
        Ok(TaskListPage { items, next_cursor_offset: next })
    }

    /// `pending` to `running`; refused for any other status.
    pub fn start_task(&self, task_id: &str, current_item: Option<&str>) -> (r: Result<(), AppError>)
        ensures
            r is Err ==> r->Err_0.code == ErrorCode::SqliteError || (r->Err_0.code
                == ErrorCode::ValidationError && r->Err_0.message@ == "task is not pending"@),
    {
        let (sql, params) = start_task_statement(task_id, current_item);
        let affected = execute(self.conn, sql, &params)?;
        ensure_updated(affected, "task is not pending")
    }

    /// Moves the counters forward under the progress rule.
    pub fn update_progress(
        &self,
        task_id: &str,
        progress_done: u32,
        progress_failed: u32,
        current_item: Option<&str>,
    ) -> (r: Result<(), AppError>)
        ensures
            r matches Err(e) ==> e.code == ErrorCode::SqliteError || e.code
                == ErrorCode::ValidationError || (e.code == ErrorCode::InternalError && e.message@
                == "task does not exist"@),
    {
        let mut log = Ghost(Seq::empty());
        self.update_progress_noted(task_id, progress_done, progress_failed, current_item, &mut log)
    }

    /// `update_progress`, noting the write in `log`: the stored task is read,
    /// the progress rule checked on it, and only then the counters written.
    pub fn update_progress_noted(
        &self,
        task_id: &str,
        progress_done: u32,
        progress_failed: u32,
        current_item: Option<&str>,
        log: &mut Ghost<Seq<SqlWrite>>,
    ) -> (r: Result<(), AppError>)
        ensures
            r matches Err(e) ==> e.code == ErrorCode::SqliteError || e.code
                == ErrorCode::ValidationError || (e.code == ErrorCode::InternalError && e.message@
                == "task does not exist"@),
            final(log)@ == old(log)@ || appended(
                final(log)@,
                old(log)@,
                UPDATE_PROGRESS_SQL@,
                seq![
                    ParamSpec::Text(task_id@),
                    ParamSpec::Integer(progress_done as i64),
                    ParamSpec::Integer(progress_failed as i64),
                    opt_text_param(opt_str(current_item)),
                ],
            ),
            r is Ok ==> appended(
                final(log)@,
                old(log)@,
                UPDATE_PROGRESS_SQL@,
                seq![
                    ParamSpec::Text(task_id@),
                    ParamSpec::Integer(progress_done as i64),
                    ParamSpec::Integer(progress_failed as i64),
                    opt_text_param(opt_str(current_item)),
                ],
            ),
    {
        let task = match self.find_task(task_id)? {
            Some(task) => task,
            None => return Err(AppError::new(ErrorCode::InternalError, "task does not exist")),
        };
        check_progress_update(&task, progress_done, progress_failed)?;
        assert(progress_refusal(
            task.status,
            task.progress_total,
            task.progress_done,
            task.progress_failed,
            progress_done,
            progress_failed,
        ) is None);
        let (sql, params) = update_progress_statement(
            task_id,
            progress_done,
            progress_failed,
            current_item,
        );
        let ghost before = log@;
        let done = execute_noted(self.conn, sql, &params, log);
        proof {
            assert(log@.drop_last() =~= before);
        }
        done?;
        Ok(())
    }

    /// Sets the total of a task that is not yet terminal.
    pub fn set_progress_total(&self, task_id: &str, progress_total: u32) -> (r: Result<(), AppError>)
        ensures
            r is Err ==> r->Err_0.code == ErrorCode::SqliteError || (r->Err_0.code
                == ErrorCode::ValidationError && r->Err_0.message@ == "task is already terminal"@),
    {
        let (sql, params) = set_progress_total_statement(task_id, progress_total);
        let affected = execute(self.conn, sql, &params)?;
        ensure_updated(affected, "task is already terminal")
    }

    pub fn complete_task(&self, task_id: &str) -> (r: Result<(), AppError>)
        ensures
            r is Err ==> r->Err_0.code == ErrorCode::SqliteError || (r->Err_0.code
                == ErrorCode::ValidationError && r->Err_0.message@ == "task is already terminal"@),
    {
        self.finish_task(task_id, TaskStatus::Completed, None, None)
    }

    pub fn fail_task(&self, task_id: &str, error_code: &str, error_message: &str) -> (r: Result<
        (),
        AppError,
    >)
        ensures
            r is Err ==> r->Err_0.code == ErrorCode::SqliteError || (r->Err_0.code
                == ErrorCode::ValidationError && r->Err_0.message@ == "task is already terminal"@),
    {
        self.finish_task(task_id, TaskStatus::Failed, Some(error_code), Some(error_message))
    }

    /// Moves a pending or running task into the terminal `status`.
    pub fn finish_task(
        &self,
        task_id: &str,
        status: TaskStatus,
        error_code: Option<&str>,
        error_message: Option<&str>,
    ) -> (r: Result<(), AppError>)
        ensures
            !status.spec_is_terminal() ==> r is Err && r->Err_0.code == ErrorCode::ValidationError
                && r->Err_0.message@ == "task finish status must be terminal"@,
            status.spec_is_terminal() ==> (r is Err ==> r->Err_0.code == ErrorCode::SqliteError || (
            r->Err_0.code == ErrorCode::ValidationError && r->Err_0.message@
                == "task is already terminal"@)),
    {
        let mut log = Ghost(Seq::empty());
        self.finish_task_noted(task_id, status, error_code, error_message, &mut log)
    }

    /// `finish_task`, noting the write in `log`.
    pub fn finish_task_noted(
        &self,
        task_id: &str,
        status: TaskStatus,
        error_code: Option<&str>,
        error_message: Option<&str>,
        log: &mut Ghost<Seq<SqlWrite>>,
    ) -> (r: Result<(), AppError>)
        ensures
            !status.spec_is_terminal() ==> r is Err && r->Err_0.code == ErrorCode::ValidationError
                && r->Err_0.message@ == "task finish status must be terminal"@ && final(log)@
                == old(log)@,
            status.spec_is_terminal() ==> (r is Err ==> r->Err_0.code == ErrorCode::SqliteError || (
            r->Err_0.code == ErrorCode::ValidationError && r->Err_0.message@
                == "task is already terminal"@)),
            status.spec_is_terminal() ==> appended(
                final(log)@,
                old(log)@,
                FINISH_TASK_SQL@,
                seq![
                    ParamSpec::Text(task_id@),
                    ParamSpec::Text(status.name()),
                    opt_text_param(opt_str(error_code)),
                    opt_text_param(opt_str(error_message)),
                ],
            ),
    {
        check_finish_status(status)?;
        let (sql, params) = finish_task_statement(task_id, status, error_code, error_message);
        let ghost before = log@;
        let affected = execute_noted(self.conn, sql, &params, log);
        proof {
            assert(log@.drop_last() =~= before);
        }
        ensure_updated(affected?, "task is already terminal")
    }

    pub fn insert_item(&self, item: &NewTaskItemRecord) -> (r: Result<(), AppError>)
        ensures
            r is Err ==> r->Err_0.code == ErrorCode::SqliteError,
    {
        let (sql, params) = insert_item_statement(item);
        execute(self.conn, sql, &params)?;
        Ok(())
    }

    pub fn update_item_status(
        &self,
        item_id: &str,
        status: TaskItemStatus,
        image_id: Option<&str>,
        error_code: Option<&str>,
        error_message: Option<&str>,
    ) -> (r: Result<(), AppError>)
        ensures
            r is Err ==> r->Err_0.code == ErrorCode::SqliteError || (r->Err_0.code
                == ErrorCode::ValidationError && r->Err_0.message@ == "task item does not exist"@),
    {
        let mut log = Ghost(Seq::empty());
        self.update_item_status_noted(item_id, status, image_id, error_code, error_message, &mut log)
    }

    /// `update_item_status`, noting the write in `log`.
    pub fn update_item_status_noted(
        &self,
        item_id: &str,
        status: TaskItemStatus,
        image_id: Option<&str>,
        error_code: Option<&str>,
        error_message: Option<&str>,
        log: &mut Ghost<Seq<SqlWrite>>,
    ) -> (r: Result<(), AppError>)
        ensures
            r is Err ==> r->Err_0.code == ErrorCode::SqliteError || (r->Err_0.code
                == ErrorCode::ValidationError && r->Err_0.message@ == "task item does not exist"@),
            appended(
                final(log)@,
                old(log)@,
                UPDATE_ITEM_STATUS_SQL@,
                seq![
                    ParamSpec::Text(item_id@),
                    ParamSpec::Text(status.name()),
                    opt_text_param(opt_str(image_id)),
                    opt_text_param(opt_str(error_code)),
                    opt_text_param(opt_str(error_message)),
                ],
            ),
    {
        let (sql, params) = update_item_status_statement(
            item_id,
            status,
            image_id,
            error_code,
            error_message,
        );
        let ghost before = log@;
        let affected = execute_noted(self.conn, sql, &params, log);
        proof {
            assert(log@.drop_last() =~= before);
        }
        ensure_updated(affected?, "task item does not exist")
    }

    pub fn items_for_task(&self, task_id: &str) -> (r: Result<Vec<TaskItemRecord>, AppError>)
        ensures
            r is Err ==> r->Err_0.code == ErrorCode::SqliteError,
    {
        let (sql, params) = crate::db::keyed_statement(ITEMS_FOR_TASK_SQL, task_id);
        let rows = query(self.conn, sql, &params)?;
        task_items_from_rows(&rows)
    }

    pub fn add_log(&self, log: &NewTaskLogRecord) -> (r: Result<(), AppError>)
        ensures
            r is Err ==> r->Err_0.code == ErrorCode::SqliteError,
    {
        let mut noted = Ghost(Seq::empty());
        self.add_log_noted(log, &mut noted)
    }

    /// `add_log`, noting the write in `noted`.
    pub fn add_log_noted(&self, log: &NewTaskLogRecord, noted: &mut Ghost<Seq<SqlWrite>>) -> (r: Result<
        (),
        AppError,
    >)
        ensures
            r is Err ==> r->Err_0.code == ErrorCode::SqliteError,
            appended(
                final(noted)@,
                old(noted)@,
                ADD_LOG_SQL@,
                seq![
                    ParamSpec::Text(log.log_id@),
                    ParamSpec::Text(log.task_id@),
                    ParamSpec::Text(log.level.name()),
                    ParamSpec::Text(log.phase@),
                    ParamSpec::Text(log.message@),
                    opt_text_param(opt_text(log.context_json)),
                ],
            ),
    {
        let (sql, params) = add_log_statement(log);
        let ghost before = noted@;
        let done = execute_noted(self.conn, sql, &params, noted);
        proof {
            assert(noted@.drop_last() =~= before);
        }
        done?;
        Ok(())
    }

    pub fn logs_for_task(&self, task_id: &str) -> (r: Result<Vec<TaskLogRecord>, AppError>)
        ensures
            r is Err ==> r->Err_0.code == ErrorCode::SqliteError,
    {
        let (sql, params) = crate::db::keyed_statement(LOGS_FOR_TASK_SQL, task_id);
        let rows = query(self.conn, sql, &params)?;
        task_logs_from_rows(&rows)
    }
}

} // verus!
