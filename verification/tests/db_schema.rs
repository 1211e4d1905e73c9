use pixiv_platform_backend::db::{open_in_memory, sql_opt_string, sql_opt_text, sql_opt_u32};
use rusqlite::types::Value;
use pixiv_platform_backend::domain::TaskType;
use pixiv_platform_backend::tasks::{insert_task_statement, NewTaskRecord, INSERT_TASK_SQL};
use rusqlite::{Error as SqliteError, ErrorCode as SqliteErrorCode, OptionalExtension};

fn table_exists(conn: &rusqlite::Connection, table_name: &str) -> bool {
    conn.query_row(
        "SELECT 1 FROM sqlite_master WHERE type = 'table' AND name = ?1",
        [table_name],
        |_| Ok(()),
    )
    .optional()
    .unwrap()
    .is_some()
}

fn insert_image(conn: &rusqlite::Connection, image_id: &str, pixiv_id: &str, page_index: i64) {
    conn.execute(
        "INSERT INTO images (
            image_id, pixiv_id, page_index, category, local_path,
            downloaded_at, created_at, updated_at
         ) VALUES (?1, ?2, ?3, 'normal', '/tmp/mock.png', ?4, ?4, ?4)",
        (image_id, pixiv_id, page_index, "2026-05-21T00:00:00Z"),
    )
    .unwrap();
}

#[test]
fn req_img_001_migration_creates_core_image_tables() {
    let conn = open_in_memory().unwrap();

    assert!(table_exists(&conn, "images"));
    assert!(table_exists(&conn, "image_tags"));
    assert!(table_exists(&conn, "image_sources"));
}

#[test]
fn req_task_002_migration_creates_task_traceability_tables() {
    let conn = open_in_memory().unwrap();

    assert!(table_exists(&conn, "tasks"));
    assert!(table_exists(&conn, "task_logs"));
    assert!(table_exists(&conn, "task_items"));
}

#[test]
fn req_dl_006_migration_enforces_unique_pixiv_page_identity() {
    let conn = open_in_memory().unwrap();
    insert_image(&conn, "image-1", "144920810", 0);

    let duplicate = conn.execute(
        "INSERT INTO images (
            image_id, pixiv_id, page_index, category, local_path,
            downloaded_at, created_at, updated_at
         ) VALUES (?1, ?2, ?3, 'normal', '/tmp/duplicate.png', ?4, ?4, ?4)",
        ("image-2", "144920810", 0, "2026-05-21T00:00:00Z"),
    );

    assert!(matches!(
        duplicate,
        Err(SqliteError::SqliteFailure(error, _))
            if error.code == SqliteErrorCode::ConstraintViolation
    ));
}

#[test]
fn req_img_001_migration_enforces_tag_foreign_key() {
    let conn = open_in_memory().unwrap();

    let result = conn.execute(
        "INSERT INTO image_tags (image_id, tag, created_at)
         VALUES ('missing-image', 'blue hair', '2026-05-21T00:00:00Z')",
        [],
    );

    assert!(matches!(result, Err(SqliteError::SqliteFailure(_, _))));
}

#[test]
fn req_cfg_006_migration_sets_cyan_studio_default_theme() {
    let conn = open_in_memory().unwrap();

    let theme: String = conn
        .query_row(
            "SELECT value_json FROM settings WHERE key = 'theme_id'",
            [],
            |row| row.get(0),
        )
        .unwrap();

    assert_eq!(theme, "\"cyan-studio\"");
}

#[test]
fn migrations_run_once_per_database() {
    let conn = open_in_memory().unwrap();
    pixiv_platform_backend::db::run_migrations(&conn).unwrap();
    let applied: i64 = conn
        .query_row("SELECT COUNT(*) FROM schema_migrations", [], |row| row.get(0))
        .unwrap();
    assert_eq!(applied, 1);
}

#[test]
fn optional_parameters_become_text_integer_or_null() {
    assert_eq!(sql_opt_text(Some("abc")), Value::Text("abc".to_owned()));
    assert_eq!(sql_opt_text(None), Value::Null);
    assert_eq!(sql_opt_string(&Some("x y".to_owned())), Value::Text("x y".to_owned()));
    assert_eq!(sql_opt_string(&None), Value::Null);
    assert_eq!(sql_opt_u32(Some(7)), Value::Integer(7));
    assert_eq!(sql_opt_u32(None), Value::Null);
}

#[test]
fn a_new_task_is_stored_with_its_fields_as_parameters() {
    let task = NewTaskRecord {
        task_id: "task-7".to_owned(),
        task_type: TaskType::Author,
        request_json: "{}".to_owned(),
        progress_total: None,
    };
    let (sql, params) = insert_task_statement(&task);
    assert_eq!(sql, INSERT_TASK_SQL);
    assert_eq!(
        params,
        vec![
            Value::Text("task-7".to_owned()),
            Value::Text("author".to_owned()),
            Value::Text("{}".to_owned()),
            Value::Null,
        ]
    );
}
