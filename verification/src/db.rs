//! SQLite access.  Statements are written here and in the repositories;
//! running them is `rusqlite`'s work, behind the trusted items below.  What a
//! statement returns depends on what is on disk, so those items promise
//! nothing about it.
use vstd::prelude::*;

use crate::errors::{AppError, ErrorCode};
use crate::text::{decimal, owned, push_decimal, push_str};

verus! {

#[verifier::external_type_specification]
#[verifier::external_body]
pub struct ExConnection(rusqlite::Connection);

#[verifier::external_type_specification]
#[verifier::external_body]
pub struct ExSqlValue(rusqlite::types::Value);

/// One column value read from a row.
#[derive(Debug, Clone, PartialEq, Eq)]
pub enum SqlCell {
    Null,
    Integer(i64),
    Real,
    Text(String),
    Blob(Vec<u8>),
}

/// `rusqlite::Connection::open`: opens (or creates) the database file.
#[verifier::external_body]
fn connection_open(path: &str) -> (r: Result<rusqlite::Connection, rusqlite::Error>) {
    rusqlite::Connection::open(path)
}

/// `rusqlite::Connection::open_in_memory`: a fresh private database.
#[verifier::external_body]
fn connection_open_in_memory() -> (r: Result<rusqlite::Connection, rusqlite::Error>) {
    rusqlite::Connection::open_in_memory()
}

/// `rusqlite::Connection::execute_batch`: runs SQL statements without parameters.
#[verifier::external_body]
fn connection_execute_batch(conn: &rusqlite::Connection, sql: &str) -> (r: Result<
    (),
    rusqlite::Error,
>) {
    conn.execute_batch(sql)
}

/// `rusqlite::Connection::execute`: runs one statement with positional
/// parameters and returns the number of rows it changed.
#[verifier::external_body]
fn connection_execute(
    conn: &rusqlite::Connection,
    sql: &str,
    params: &Vec<rusqlite::types::Value>,
) -> (r: Result<usize, rusqlite::Error>) {
    conn.execute(sql, rusqlite::params_from_iter(params.iter()))
}

/// `rusqlite::Statement::query_map` over a prepared statement: every row of
/// the result, each as its column values in order.
#[verifier::external_body]
fn connection_query(
    conn: &rusqlite::Connection,
    sql: &str,
    params: &Vec<rusqlite::types::Value>,
) -> (r: Result<Vec<Vec<rusqlite::types::Value>>, rusqlite::Error>) {
    let mut statement = conn.prepare(sql)?;
    let width = statement.column_count();
    let rows = statement.query_map(
        rusqlite::params_from_iter(params.iter()),
        |row| (0..width).map(|index| row.get::<usize, rusqlite::types::Value>(index)).collect(),
    )?;
    rows.collect()
}

/// The parameter value `rusqlite::types::Value::Text` holds for a text.
pub uninterp spec fn text_param(value: Seq<char>) -> rusqlite::types::Value;

/// The parameter value `rusqlite::types::Value::Integer` holds for a number.
pub uninterp spec fn integer_param(value: i64) -> rusqlite::types::Value;

/// `rusqlite::types::Value::Null`: a variant apart from `Text` and `Integer`,
/// so it equals no text and no integer parameter.
#[verifier::external_body]
pub(crate) fn sql_null() -> (r: rusqlite::types::Value)
    ensures
        forall|s: Seq<char>| r != #[trigger] text_param(s),
        forall|n: i64| r != #[trigger] integer_param(n),
{
    rusqlite::types::Value::Null
}

/// `rusqlite::types::Value::Integer`: the number as an integer parameter.
#[verifier::external_body]
pub(crate) fn sql_integer(value: i64) -> (r: rusqlite::types::Value)
    ensures
        r == integer_param(value),
{
    rusqlite::types::Value::Integer(value)
}

/// `rusqlite::types::Value::Text`: the text as a text parameter.
#[verifier::external_body]
pub(crate) fn sql_text(value: &str) -> (r: rusqlite::types::Value)
    ensures
        r == text_param(value@),
{
    rusqlite::types::Value::Text(value.to_owned())
}

/// The parameter value SQL `NULL` is: neither a text nor an integer parameter.
pub open spec fn is_null_param(v: rusqlite::types::Value) -> bool {
    (forall|s: Seq<char>| v != #[trigger] text_param(s)) && (forall|n: i64| v != #[trigger] integer_param(n))
}

/// The column value in the library's own form, variant for variant (the
/// number of a `Real` is not kept).
#[verifier::external_body]
fn cell_of(value: &rusqlite::types::Value) -> (r: SqlCell) {
    match value {
        rusqlite::types::Value::Null => SqlCell::Null,
        rusqlite::types::Value::Integer(number) => SqlCell::Integer(*number),
        rusqlite::types::Value::Real(_) => SqlCell::Real,
        rusqlite::types::Value::Text(text) => SqlCell::Text(text.clone()),
        rusqlite::types::Value::Blob(bytes) => SqlCell::Blob(bytes.clone()),
    }
}

/// What one statement parameter is: a text, an integer, or `NULL`.
pub enum ParamSpec {
    Text(Seq<char>),
    Integer(i64),
    Null,
}

/// Whether a parameter value is the one described.
pub open spec fn param_is(v: rusqlite::types::Value, p: ParamSpec) -> bool {
    match p {
        ParamSpec::Text(s) => v == text_param(s),
        ParamSpec::Integer(n) => v == integer_param(n),
        ParamSpec::Null => is_null_param(v),
    }
}

/// Whether the parameters are, one for one, those described.
pub open spec fn params_are(vs: Seq<rusqlite::types::Value>, ps: Seq<ParamSpec>) -> bool {
    vs.len() == ps.len() && forall|i: int| 0 <= i < vs.len() ==> param_is(#[trigger] vs[i], ps[i])
}

/// An optional text as a parameter.
pub open spec fn opt_text_param(t: Option<Seq<char>>) -> ParamSpec {
    match t {
        Some(s) => ParamSpec::Text(s),
        None => ParamSpec::Null,
    }
}

/// An optional `u32` as a parameter.
pub open spec fn opt_u32_param(n: Option<u32>) -> ParamSpec {
    match n {
        Some(v) => ParamSpec::Integer(v as i64),
        None => ParamSpec::Null,
    }
}

/// A statement that takes one text (an id or a key), and its parameter.
pub fn keyed_statement(sql: &'static str, key: &str) -> (r: (&'static str, Vec<rusqlite::types::Value>))
    ensures
        r.0 == sql,
        params_are(r.1@, seq![ParamSpec::Text(key@)]),
{
    let mut params = Vec::new();
    params.push(sql_text(key));
    (sql, params)
}

/// An optional text parameter: `NULL` for `None`.
pub fn sql_opt_text(value: Option<&str>) -> (r: rusqlite::types::Value)
    ensures
        match value {
            Some(text) => r == text_param(text@),
            None => is_null_param(r),
        },
{
    match value {
        Some(text) => sql_text(text),
        None => sql_null(),
    }
}

/// An optional owned text parameter: `NULL` for `None`.
pub fn sql_opt_string(value: &Option<String>) -> (r: rusqlite::types::Value)
    ensures
        match value {
            Some(text) => r == text_param(text@),
            None => is_null_param(r),
        },
{
    match value {
        Some(text) => sql_text(text.as_str()),
        None => sql_null(),
    }
}

/// An optional integer parameter: `NULL` for `None`.
pub fn sql_opt_u32(value: Option<u32>) -> (r: rusqlite::types::Value)
    ensures
        match value {
            Some(number) => r == integer_param(number as i64),
            None => is_null_param(r),
        },
{
    match value {
        Some(number) => sql_integer(number as i64),
        None => sql_null(),
    }
}

/// Opens the database at `path` and brings its schema up to date.
pub fn open(path: &str) -> (r: Result<rusqlite::Connection, AppError>)
    ensures
        r is Err ==> r->Err_0.code == ErrorCode::SqliteError,
{
    let conn = match connection_open(path) {
        Ok(conn) => conn,
        Err(error) => return Err(AppError::from_sqlite_error(&error)),
    };
    initialize(&conn)?;
    Ok(conn)
}

/// A fresh in-memory database with the current schema.
pub fn open_in_memory() -> (r: Result<rusqlite::Connection, AppError>)
    ensures
        r is Err ==> r->Err_0.code == ErrorCode::SqliteError,
{
    let conn = match connection_open_in_memory() {
        Ok(conn) => conn,
        Err(error) => return Err(AppError::from_sqlite_error(&error)),
    };
    initialize(&conn)?;
    Ok(conn)
}

/// Turns on foreign keys and applies the migrations.
pub fn initialize(conn: &rusqlite::Connection) -> (r: Result<(), AppError>)
    ensures
        r is Err ==> r->Err_0.code == ErrorCode::SqliteError,
{
    execute_batch(conn, "PRAGMA foreign_keys = ON;")?;
    run_migrations(conn)
}

/// Runs statements without parameters.
pub fn execute_batch(conn: &rusqlite::Connection, sql: &str) -> (r: Result<(), AppError>)
    ensures
        r is Err ==> r->Err_0.code == ErrorCode::SqliteError,
{
    match connection_execute_batch(conn, sql) {
        Ok(()) => Ok(()),
        Err(error) => Err(AppError::from_sqlite_error(&error)),
    }
}

/// Runs one statement; the number of changed rows.
pub fn execute(conn: &rusqlite::Connection, sql: &str, params: &Vec<rusqlite::types::Value>) -> (r:
    Result<usize, AppError>)
    ensures
        r is Err ==> r->Err_0.code == ErrorCode::SqliteError,
{
    match connection_execute(conn, sql, params) {
        Ok(count) => Ok(count),
        Err(error) => Err(AppError::from_sqlite_error(&error)),
    }
}

/// A statement handed to SQLite to change the store, with its parameters.
pub struct SqlWrite {
    pub sql: Seq<char>,
    pub params: Seq<rusqlite::types::Value>,
}

/// Whether a write is `sql` with the parameters described.
pub open spec fn is_write(w: SqlWrite, sql: Seq<char>, ps: Seq<ParamSpec>) -> bool {
    w.sql == sql && params_are(w.params, ps)
}

/// A log that grew by one write: `sql` with the parameters described.
pub open spec fn appended(new: Seq<SqlWrite>, old: Seq<SqlWrite>, sql: Seq<char>, ps: Seq<ParamSpec>) -> bool {
    new.len() == old.len() + 1 && new.drop_last() == old && is_write(new.last(), sql, ps)
}

/// An optional text's view.
pub open spec fn opt_str(t: Option<&str>) -> Option<Seq<char>> {
    match t {
        Some(s) => Some(s@),
        None => None,
    }
}

/// Runs one statement, noting in `log` that it was handed to SQLite; the
/// number of changed rows.
pub fn execute_noted(
    conn: &rusqlite::Connection,
    sql: &str,
    params: &Vec<rusqlite::types::Value>,
    log: &mut Ghost<Seq<SqlWrite>>,
) -> (r: Result<usize, AppError>)
    ensures
        final(log)@ == old(log)@.push(SqlWrite { sql: sql@, params: params@ }),
        r is Err ==> r->Err_0.code == ErrorCode::SqliteError,
{
    *log = Ghost(log@.push(SqlWrite { sql: sql@, params: params@ }));
    execute(conn, sql, params)
}

/// Runs a query; its rows as cells.
pub fn query(conn: &rusqlite::Connection, sql: &str, params: &Vec<rusqlite::types::Value>) -> (r:
    Result<Vec<Vec<SqlCell>>, AppError>)
    ensures
        r is Err ==> r->Err_0.code == ErrorCode::SqliteError,
{
    let rows = match connection_query(conn, sql, params) {
        Ok(rows) => rows,
        Err(error) => return Err(AppError::from_sqlite_error(&error)),
    };
    let mut out: Vec<Vec<SqlCell>> = Vec::new();
    let mut i: usize = 0;
    while i < rows.len()
        invariant
            i <= rows@.len(),
            out@.len() == i,
            forall|k: int| 0 <= k < i ==> #[trigger] out@[k]@.len() == rows@[k]@.len(),
        decreases rows.len() - i,
    {
        let row = &rows[i];
        let mut cells: Vec<SqlCell> = Vec::new();
        let mut j: usize = 0;
        while j < row.len()
            invariant
                j <= row@.len(),
                cells@.len() == j,
            decreases row.len() - j,
        {
            cells.push(cell_of(&row[j]));
            j += 1;
        }
        out.push(cells);
        i += 1;
    }
    Ok(out)
}

/// The one migration of the schema, applied once.
pub const MIGRATION_ID: &'static str = "0001_init";

/// The schema: images with their tags and provenance, tasks with their items
/// and logs, smart retrievals, settings (with the default theme) and Pixiv
/// accounts.
pub const MIGRATION_SQL: &'static str = "
CREATE TABLE IF NOT EXISTS images (
    image_id TEXT PRIMARY KEY,
    pixiv_id TEXT NOT NULL,
    page_index INTEGER NOT NULL CHECK (page_index >= 0),
    author_uid TEXT,
    title TEXT,
    category TEXT NOT NULL CHECK (category IN ('normal', 'r18', 'nsfw')),
    local_path TEXT NOT NULL,
    thumbnail_path TEXT,
    width INTEGER,
    height INTEGER,
    map_x REAL,
    map_y REAL,
    downloaded_at TEXT NOT NULL,
    created_at TEXT NOT NULL,
    updated_at TEXT NOT NULL,
    UNIQUE (pixiv_id, page_index)
);
CREATE TABLE IF NOT EXISTS image_tags (
    image_id TEXT NOT NULL REFERENCES images(image_id) ON DELETE CASCADE,
    tag TEXT NOT NULL,
    created_at TEXT NOT NULL,
    PRIMARY KEY (image_id, tag)
);
CREATE TABLE IF NOT EXISTS image_sources (
    image_id TEXT NOT NULL REFERENCES images(image_id) ON DELETE CASCADE,
    source TEXT NOT NULL CHECK (source IN ('single', 'bookmark', 'author', 'top10', 'random', 'smart')),
    task_id TEXT,
    created_at TEXT NOT NULL
);
CREATE UNIQUE INDEX IF NOT EXISTS image_sources_identity
    ON image_sources (image_id, source, IFNULL(task_id, ''));
CREATE TABLE IF NOT EXISTS tasks (
    task_id TEXT PRIMARY KEY,
    type TEXT NOT NULL CHECK (type IN ('single', 'bookmark', 'author', 'top10', 'random', 'smart')),
    status TEXT NOT NULL CHECK (status IN ('pending', 'running', 'completed', 'completed_with_errors', 'failed', 'cancelled')),
    request_json TEXT NOT NULL,
    progress_total INTEGER,
    progress_done INTEGER NOT NULL DEFAULT 0,
    progress_failed INTEGER NOT NULL DEFAULT 0,
    current_item TEXT,
    error_code TEXT,
    error_message TEXT,
    created_at TEXT NOT NULL,
    started_at TEXT,
    finished_at TEXT,
    updated_at TEXT NOT NULL
);
CREATE TABLE IF NOT EXISTS task_items (
    item_id TEXT PRIMARY KEY,
    task_id TEXT NOT NULL REFERENCES tasks(task_id) ON DELETE CASCADE,
    pixiv_id TEXT,
    page_index INTEGER,
    status TEXT NOT NULL,
    image_id TEXT,
    error_code TEXT,
    error_message TEXT,
    created_at TEXT NOT NULL,
    updated_at TEXT NOT NULL
);
CREATE TABLE IF NOT EXISTS task_logs (
    log_id TEXT PRIMARY KEY,
    task_id TEXT NOT NULL REFERENCES tasks(task_id) ON DELETE CASCADE,
    level TEXT NOT NULL,
    phase TEXT NOT NULL,
    message TEXT NOT NULL,
    context_json TEXT,
    created_at TEXT NOT NULL
);
CREATE TABLE IF NOT EXISTS smart_retrievals (
    retrieval_id TEXT PRIMARY KEY,
    task_id TEXT NOT NULL REFERENCES tasks(task_id) ON DELETE CASCADE,
    user_prompt TEXT NOT NULL,
    llm_model TEXT NOT NULL,
    llm_output_json TEXT NOT NULL,
    tags_json TEXT NOT NULL,
    negative_tags_json TEXT NOT NULL,
    requested_count INTEGER NOT NULL,
    r18_policy TEXT NOT NULL,
    created_at TEXT NOT NULL
);
CREATE TABLE IF NOT EXISTS settings (
    key TEXT PRIMARY KEY,
    value_json TEXT NOT NULL,
    is_secret INTEGER NOT NULL DEFAULT 0,
    updated_at TEXT NOT NULL
);
INSERT OR IGNORE INTO settings (key, value_json, is_secret, updated_at)
    VALUES ('theme_id', '\"cyan-studio\"', 0, datetime('now'));
CREATE TABLE IF NOT EXISTS pixiv_accounts (
    user_uid TEXT PRIMARY KEY,
    user_name TEXT,
    cookie_json TEXT NOT NULL,
    is_active INTEGER NOT NULL DEFAULT 0,
    last_verified_at TEXT NOT NULL,
    created_at TEXT NOT NULL,
    updated_at TEXT NOT NULL
);
";

/// Creates the migration ledger and applies each migration that is not in it,
/// inside a transaction of its own.
pub fn run_migrations(conn: &rusqlite::Connection) -> (r: Result<(), AppError>)
    ensures
        r is Err ==> r->Err_0.code == ErrorCode::SqliteError,
{
    execute_batch(
        conn,
        "CREATE TABLE IF NOT EXISTS schema_migrations (
            migration_id TEXT PRIMARY KEY,
            applied_at TEXT NOT NULL
        );",
    )?;
    if migration_applied(conn, MIGRATION_ID)? {
        return Ok(());
    }
    execute_batch(conn, "BEGIN;")?;
    let mut params = Vec::new();
    params.push(sql_text(MIGRATION_ID));
    let applied = match execute_batch(conn, MIGRATION_SQL) {
        Ok(()) => execute(
            conn,
            "INSERT INTO schema_migrations (migration_id, applied_at)
             VALUES (?1, datetime('now'))",
            &params,
        ),
        Err(error) => Err(error),
    };
    match applied {
        Ok(_) => execute_batch(conn, "COMMIT;"),
        Err(error) => {
            let _ = execute_batch(conn, "ROLLBACK;");
            Err(error)
        },
    }
}

fn migration_applied(conn: &rusqlite::Connection, migration_id: &str) -> (r: Result<bool, AppError>)
    ensures
        r is Err ==> r->Err_0.code == ErrorCode::SqliteError,
{
    let mut params = Vec::new();
    params.push(sql_text(migration_id));
    let rows = query(conn, "SELECT 1 FROM schema_migrations WHERE migration_id = ?1", &params)?;
    Ok(rows.len() > 0)
}

/// SQLite's clock, `datetime('now')`.
pub fn current_timestamp(conn: &rusqlite::Connection) -> (r: Result<String, AppError>)
    ensures
        r is Err ==> r->Err_0.code == ErrorCode::SqliteError,
{
    let params = Vec::new();
    let rows = query(conn, "SELECT datetime('now')", &params)?;
    if rows.len() == 0 || rows[0].len() == 0 {
        return Err(AppError::new(ErrorCode::SqliteError, "Query returned no rows"));
    }
    cell_text(&rows[0], 0)
}

/// The error a column of an unexpected type gives.
pub open spec fn column_type_message(index: nat) -> Seq<char> {
    "Invalid column type at index: "@ + decimal(index)
}

fn column_type_error(index: usize) -> (e: AppError)
    ensures
        e.code == ErrorCode::SqliteError,
        e.message@ == column_type_message(index as nat),
{
    let mut message = owned("Invalid column type at index: ");
    push_decimal(&mut message, index as u128);
    AppError::new(ErrorCode::SqliteError, message.as_str())
}

/// Column `i` of a row when it is text.
pub open spec fn row_text(row: Seq<SqlCell>, i: int) -> Option<Seq<char>> {
    if 0 <= i < row.len() && row[i] is Text {
        Some(row[i]->Text_0@)
    } else {
        None
    }
}

/// Column `i` of a row read as optional text: `Some` of the text or of
/// nothing for `NULL`; `None` when it is neither.
pub open spec fn row_opt_text(row: Seq<SqlCell>, i: int) -> Option<Option<Seq<char>>> {
    if 0 <= i < row.len() && row[i] is Null {
        Some(None)
    } else {
        match row_text(row, i) {
            Some(t) => Some(Some(t)),
            None => None,
        }
    }
}

/// Column `i` of a row when it is an integer that fits a `u32`.
pub open spec fn row_u32(row: Seq<SqlCell>, i: int) -> Option<u32> {
    if 0 <= i < row.len() && row[i] is Integer && 0 <= row[i]->Integer_0 <= u32::MAX {
        Some(row[i]->Integer_0 as u32)
    } else {
        None
    }
}

/// Column `i` of a row read as an optional `u32`.
pub open spec fn row_opt_u32(row: Seq<SqlCell>, i: int) -> Option<Option<u32>> {
    if 0 <= i < row.len() && row[i] is Null {
        Some(None)
    } else {
        match row_u32(row, i) {
            Some(n) => Some(Some(n)),
            None => None,
        }
    }
}

/// The view of an optional text.
pub open spec fn opt_text(t: Option<String>) -> Option<Seq<char>> {
    match t {
        Some(s) => Some(s@),
        None => None,
    }
}

/// Column `index` read as text (`row.get::<_, String>`).
pub fn cell_text(row: &Vec<SqlCell>, index: usize) -> (r: Result<String, AppError>)
    ensures
        (index < row@.len() && row@[index as int] is Text) ==> r is Ok && r->Ok_0@
            == row@[index as int]->Text_0@,
        !(index < row@.len() && row@[index as int] is Text) ==> r is Err && r->Err_0.code
            == ErrorCode::SqliteError,
{
    if index >= row.len() {
        return Err(column_type_error(index));
    }
    match &row[index] {
        SqlCell::Text(text) => Ok(text.clone()),
        _ => Err(column_type_error(index)),
    }
}

/// Column `index` read as optional text (`row.get::<_, Option<String>>`).
pub fn cell_opt_text(row: &Vec<SqlCell>, index: usize) -> (r: Result<Option<String>, AppError>)
    ensures
        (index < row@.len() && row@[index as int] is Text) ==> r is Ok && r->Ok_0 is Some
            && r->Ok_0->Some_0@ == row@[index as int]->Text_0@,
        (index < row@.len() && row@[index as int] is Null) ==> r == Ok::<
            Option<String>,
            AppError,
        >(None),
        !(index < row@.len() && (row@[index as int] is Text || row@[index as int] is Null))
            ==> r is Err && r->Err_0.code == ErrorCode::SqliteError,
{
    if index >= row.len() {
        return Err(column_type_error(index));
    }
    match &row[index] {
        SqlCell::Text(text) => Ok(Some(text.clone())),
        SqlCell::Null => Ok(None),
        _ => Err(column_type_error(index)),
    }
}

/// Column `index` read as an integer (`row.get::<_, i64>`).
pub fn cell_integer(row: &Vec<SqlCell>, index: usize) -> (r: Result<i64, AppError>)
    ensures
        (index < row@.len() && row@[index as int] is Integer) ==> r == Ok::<i64, AppError>(
            row@[index as int]->Integer_0,
        ),
        !(index < row@.len() && row@[index as int] is Integer) ==> r is Err && r->Err_0.code
            == ErrorCode::SqliteError,
{
    if index >= row.len() {
        return Err(column_type_error(index));
    }
    match &row[index] {
        SqlCell::Integer(v) => Ok(*v),
        _ => Err(column_type_error(index)),
    }
}

/// Column `index` read as a `u32` (`row.get::<_, u32>`): an integer in range.
pub fn cell_u32(row: &Vec<SqlCell>, index: usize) -> (r: Result<u32, AppError>)
    ensures
        (index < row@.len() && row@[index as int] is Integer && 0 <= row@[index as int]->Integer_0
            <= u32::MAX) ==> r is Ok && r->Ok_0 as int == row@[index as int]->Integer_0 as int,
        r is Err ==> r->Err_0.code == ErrorCode::SqliteError,
        match row_u32(row@, index as int) {
            Some(n) => r == Ok::<u32, AppError>(n),
            None => r is Err,
        },
{
    let v = cell_integer(row, index)?;
    if v < 0 || v > 4294967295i64 {
        return Err(AppError::new(ErrorCode::SqliteError, "Integral value out of range"));
    }
    Ok(v as u32)
}

/// Column `index` read as an optional `u32`.
pub fn cell_opt_u32(row: &Vec<SqlCell>, index: usize) -> (r: Result<Option<u32>, AppError>)
    ensures
        (index < row@.len() && row@[index as int] is Null) ==> r == Ok::<
            Option<u32>,
            AppError,
        >(None),
        (index < row@.len() && row@[index as int] is Integer && 0 <= row@[index as int]->Integer_0
            <= u32::MAX) ==> r is Ok && r->Ok_0 is Some && r->Ok_0->Some_0 as int
            == row@[index as int]->Integer_0 as int,
        r is Err ==> r->Err_0.code == ErrorCode::SqliteError,
        match row_opt_u32(row@, index as int) {
            Some(n) => r == Ok::<Option<u32>, AppError>(n),
            None => r is Err,
        },
{
    if index < row.len() {
        if let SqlCell::Null = &row[index] {
            return Ok(None);
        }
    }
    let v = cell_u32(row, index)?;
    Ok(Some(v))
}

} // verus!
