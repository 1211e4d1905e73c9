//! What each API request does with the database once it has been received:
//! reading and shaping tasks, images, settings and saved accounts.  The
//! caller receives the request, opens the database and sends the answer.
use vstd::prelude::*;

use crate::accounts::{stored_name, PixivAccountRecord, PixivAccountRepository, DEACTIVATE_ACCOUNTS_SQL, UPSERT_ACCOUNT_SQL};
use crate::db::{is_write, opt_str, opt_text_param, ParamSpec, SqlWrite};
use crate::domain::TaskStatus;
use crate::dto::{
    clamped_limit, offset_cursor, setting_response, task_response, task_summary_response, ImageDeleteBatchResponse, ImageDeleteItemResponse,
    ImageDetailResponse, ImageListParams, ImageListResponse, ImageSummaryResponse,
    PixivAccountDeleteResponse, PixivAccountResponse, PixivAccountsListResponse,
    PixivConnectionTestResponse, SettingResponse, SettingsListResponse, TaskListParams,
    TaskListResponse, TaskResponse, TaskSummaryResponse,
};
use crate::errors::{AppError, ErrorCode};
use crate::images::ImageRepository;
use crate::json::{json_document, push_quoted, quoted, read_json, JsonValue};
use crate::readiness::{account_label, label_of};
use crate::settings::{is_known_key, masked_json, setting_refusal, SettingsRepository, UPSERT_SETTING_SQL};
use crate::tasks::TaskRepository;
use crate::text::{decimal, decimal_string, is_blank, owned, trim, trimmed};

verus! {

/// The tasks of one page of the task list, newest first, with the cursor of
/// the next page.  An offset so large that the next one would not fit is
/// refused like an unreadable cursor.
pub fn list_tasks_page(conn: &rusqlite::Connection, params: TaskListParams) -> (r: Result<
    TaskListResponse,
    AppError,
>)
    ensures
        params.status matches Some(s) && TaskStatus::parse(s@) is None ==> (r matches Err(e)
            && e.message@ == "task status filter is invalid"@),
        offset_cursor(params.cursor) is None ==> r is Err,
        r matches Ok(page) ==> page.items@.len() <= clamped_limit(params.limit, 20) && (
        page.next_cursor matches Some(c) ==> (offset_cursor(params.cursor) matches Some(start)
            && c@ == decimal((start + clamped_limit(params.limit, 20)) as nat))),
{
    let ghost limit = params.limit;
    let ghost cursor = params.cursor;
    let query = params.into_repository_query()?;
    if query.cursor_offset > usize::MAX - 100 {
        return Err(AppError::validation("cursor is invalid"));
    }
    let page = TaskRepository::new(conn).list_tasks(&query)?;
    assert(crate::images::clamp_limit(query.limit as nat) == clamped_limit(limit, 20));
    let mut items: Vec<TaskSummaryResponse> = Vec::new();
    let mut i: usize = 0;
    while i < page.items.len()
        invariant
            i <= page.items@.len(),
            items@.len() == i,
        decreases page.items.len() - i,
    {
        items.push(task_summary_response(page.items[i].clone()));
        i += 1;
    }
    let next_cursor = match page.next_cursor_offset {
        Some(offset) => Some(decimal_string(offset as u128)),
        None => None,
    };
    Ok(TaskListResponse { items, next_cursor })
}

/// A task with its items and logs; `TASK_NOT_FOUND` when there is no such
/// task.
pub fn task_details(conn: &rusqlite::Connection, task_id: &str) -> (r: Result<
    TaskResponse,
    AppError,
>)
    ensures
        r matches Ok(t) ==> t.task_id@ == task_id@,
        r matches Err(e) ==> (e.code == ErrorCode::TaskNotFound ==> e.message@ == "task not found"@),
{
    let repo = TaskRepository::new(conn);
    let task = match repo.find_task(task_id) {
        Ok(Some(task)) => task,
        Ok(None) => return Err(AppError::new(ErrorCode::TaskNotFound, "task not found")),
        Err(e) => return Err(not_found_free(e, ErrorCode::TaskNotFound)),
    };
    let items = match repo.items_for_task(task.task_id.as_str()) {
        Ok(items) => items,
        Err(e) => return Err(not_found_free(e, ErrorCode::TaskNotFound)),
    };
    let logs = match repo.logs_for_task(task.task_id.as_str()) {
        Ok(logs) => logs,
        Err(e) => return Err(not_found_free(e, ErrorCode::TaskNotFound)),
    };
    Ok(task_response(task, items, logs))
}

/// A storage error as it is passed on, where the code `reserved` is kept
/// for "no such record": such an error becomes an internal one.
fn not_found_free(error: AppError, reserved: ErrorCode) -> (r: AppError)
    requires
        reserved != ErrorCode::InternalError,
    ensures
        r.code != reserved,
        error.code != reserved ==> r == error,
{
    if error.code == reserved {
        AppError { code: ErrorCode::InternalError, message: error.message }
    } else {
        error
    }
}

/// The images of one page of the gallery, with their tags and the cursor of
/// the next page.
pub fn list_images_page(conn: &rusqlite::Connection, params: ImageListParams) -> (r: Result<
    ImageListResponse,
    AppError,
>)
    ensures
        offset_cursor(params.cursor) is None ==> r is Err,
        params.refusal() matches Some(m) ==> (r matches Err(e) && e.code == ErrorCode::ValidationError
            && e.message@ == m),
        r matches Ok(page) ==> page.items@.len() <= clamped_limit(params.limit, 24) && (
        page.next_cursor matches Some(c) ==> (offset_cursor(params.cursor) matches Some(start)
            && c@ == decimal((start + clamped_limit(params.limit, 24)) as nat))),
{
    let ghost limit = params.limit;
    let ghost cursor = params.cursor;
    let query = params.into_repository_query()?;
    if query.cursor_offset > usize::MAX - 100 {
        return Err(AppError::validation("cursor is invalid"));
    }
    let page = ImageRepository::new(conn).list_images(&query)?;
    assert(crate::images::clamp_limit(query.limit as nat) == clamped_limit(limit, 24));
    let mut items: Vec<ImageSummaryResponse> = Vec::new();
    let mut i: usize = 0;
    while i < page.items.len()
        invariant
            i <= page.items@.len(),
            items@.len() == i,
        decreases page.items.len() - i,
    {
        let item = &page.items[i];
        items.push(crate::dto::image_summary_response(item.image.clone(), item.tags.clone()));
        i += 1;
    }
    let next_cursor = match page.next_cursor_offset {
        Some(offset) => Some(decimal_string(offset as u128)),
        None => None,
    };
    Ok(ImageListResponse { items, next_cursor })
}

/// An image with its tags and sources; `PIXIV_NOT_FOUND` ("image not
/// found") when there is no such image.
pub fn image_details(conn: &rusqlite::Connection, image_id: &str) -> (r: Result<
    ImageDetailResponse,
    AppError,
>)
    ensures
        r matches Ok(d) ==> d.image_id@ == image_id@,
        r matches Err(e) ==> (e.code == ErrorCode::PixivNotFound ==> e.message@ == "image not found"@),
{
    let repo = ImageRepository::new(conn);
    let image = match repo.find_by_id(image_id) {
        Ok(Some(image)) => image,
        Ok(None) => return Err(AppError::new(ErrorCode::PixivNotFound, "image not found")),
        Err(e) => return Err(not_found_free(e, ErrorCode::PixivNotFound)),
    };
    let tags = match repo.tags_for_image(image.image_id.as_str()) {
        Ok(tags) => tags,
        Err(e) => return Err(not_found_free(e, ErrorCode::PixivNotFound)),
    };
    let sources = match repo.sources_for_image(image.image_id.as_str()) {
        Ok(sources) => sources,
        Err(e) => return Err(not_found_free(e, ErrorCode::PixivNotFound)),
    };
    Ok(crate::dto::image_detail_response(image, tags, sources))
}

/// The id of an image to delete: trimmed, and not empty.
pub fn checked_image_id(image_id: &str) -> (r: Result<String, AppError>)
    ensures
        trimmed(image_id@).len() == 0 ==> (r matches Err(e) && e.code == ErrorCode::ValidationError
            && e.message@ == "image_id cannot be empty"@),
        trimmed(image_id@).len() > 0 ==> (r matches Ok(id) && id@ == trimmed(image_id@)),
{
    let id = trim(image_id);
    if id.unicode_len() == 0 {
        return Err(AppError::validation("image_id cannot be empty"));
    }
    Ok(id)
}

/// How many entries of a batch delete were deleted.
pub open spec fn deleted_count(items: Seq<ImageDeleteItemResponse>) -> nat
    decreases items.len(),
{
    if items.len() == 0 {
        0
    } else {
        deleted_count(items.drop_last()) + if items.last().status@ == "deleted"@ {
            1nat
        } else {
            0nat
        }
    }
}

proof fn lemma_deleted_count_bounded(items: Seq<ImageDeleteItemResponse>)
    ensures
        deleted_count(items) <= items.len(),
    decreases items.len(),
{
    if items.len() > 0 {
        lemma_deleted_count_bounded(items.drop_last());
    }
}

/// The answer to a batch delete: its entries, how many were deleted and how
/// many were not.
pub fn delete_batch_response(items: Vec<ImageDeleteItemResponse>) -> (r: ImageDeleteBatchResponse)
    requires
        items@.len() <= u32::MAX,
    ensures
        r.items == items,
        r.deleted_count == deleted_count(items@),
        r.failed_count == items@.len() - deleted_count(items@),
{
    proof {
        reveal_strlit("deleted");
    }
    let mut deleted: u32 = 0;
    let mut i: usize = 0;
    while i < items.len()
        invariant
            i <= items@.len(),
            items@.len() <= u32::MAX,
            deleted == deleted_count(items@.subrange(0, i as int)),
            deleted <= i,
        decreases items.len() - i,
    {
        assert(items@.subrange(0, i + 1).drop_last() =~= items@.subrange(0, i as int));
        if crate::text::str_equals(items[i].status.as_str(), "deleted") {
            deleted += 1;
        }
        i += 1;
    }
    assert(items@.subrange(0, items@.len() as int) =~= items@);
    proof {
        lemma_deleted_count_bounded(items@);
    }
    let failed = (items.len() as u32) - deleted;
    ImageDeleteBatchResponse { items, deleted_count: deleted, failed_count: failed }
}

/// Every secret entry of a settings list shows the mask.
pub open spec fn secrets_masked(items: Seq<SettingResponse>) -> bool {
    forall|i: int|
        0 <= i < items.len() && (#[trigger] items[i]).is_secret ==> items[i].value_json@
            == masked_json()
}

/// Every known setting key has an entry in a settings list.
pub open spec fn every_known_key_listed(items: Seq<SettingResponse>) -> bool {
    forall|key: Seq<char>|
        is_known_key(key) ==> exists|i: int| 0 <= i < items.len() && (#[trigger] items[i]).key@ == key
}

/// Every setting as shown: each known key (with its default when it was
/// never stored), sorted by key, secrets masked.
pub fn list_settings(conn: &rusqlite::Connection) -> (r: Result<SettingsListResponse, AppError>)
    ensures
        r matches Ok(list) ==> secrets_masked(list.items@) && every_known_key_listed(list.items@),
{
    let settings = SettingsRepository::new(conn).list_public()?;
    let ghost listed = settings@;
    let mut items: Vec<SettingResponse> = Vec::new();
    let mut i: usize = 0;
    while i < settings.len()
        invariant
            i <= settings@.len(),
            listed == settings@,
            forall|j: int|
                0 <= j < listed.len() && (#[trigger] listed[j]).is_secret ==> listed[j].value_json@
                    == masked_json(),
            forall|key: Seq<char>|
                is_known_key(key) ==> exists|j: int|
                    0 <= j < listed.len() && (#[trigger] listed[j]).key@ == key,
            items@.len() == i,
            forall|j: int|
                0 <= j < i ==> (#[trigger] items@[j]).key == listed[j].key && items@[j].value_json
                    == listed[j].value_json && items@[j].is_secret == listed[j].is_secret,
        decreases settings.len() - i,
    {
        items.push(setting_response(settings[i].clone_setting()));
        i += 1;
    }
    let list = SettingsListResponse { items };
    proof {
        assert forall|j: int|
            0 <= j < list.items@.len() && (#[trigger] list.items@[j]).is_secret implies list.items@[j].value_json@
            == masked_json() by {
            assert(listed[j].is_secret);
        }
        assert forall|key: Seq<char>| is_known_key(key) implies exists|i: int|
            0 <= i < list.items@.len() && (#[trigger] list.items@[i]).key@ == key by {
            let j = choose|j: int| 0 <= j < listed.len() && (#[trigger] listed[j]).key@ == key;
            assert(list.items@[j].key == listed[j].key);
            assert(list.items@[j].key@ == key);
        }
        assert(secrets_masked(list.items@));
        assert(every_known_key_listed(list.items@));
    }
    Ok(list)
}

/// Stores a known setting from its JSON text and shows it.
pub fn update_setting(conn: &rusqlite::Connection, key: &str, value_json: &str) -> (r: Result<
    SettingResponse,
    AppError,
>)
    ensures
        !is_known_key(key@) ==> (r matches Err(e) && e.code == ErrorCode::ValidationError
            && e.message@ == "unknown setting key: "@ + key@),
        is_known_key(key@) ==> (json_document(value_json@) matches Some(v) ==> (setting_refusal(
            key@,
            v,
        ) matches Some(m) ==> (r matches Err(e) && e.code == ErrorCode::ValidationError
            && e.message@ == m))),
        r matches Ok(s) ==> s.key@ == key@ && (s.is_secret ==> s.value_json@ == masked_json()),
{
    let stored = SettingsRepository::new(conn).upsert_known_json(key, value_json)?;
    Ok(setting_response(stored))
}

/// The saved Pixiv accounts, and the active one.
pub fn list_pixiv_accounts(conn: &rusqlite::Connection) -> (r: Result<
    PixivAccountsListResponse,
    AppError,
>)
    ensures
        r matches Ok(list) ==> (list.active matches Some(a) ==> a.is_active),
{
    let repo = PixivAccountRepository::new(conn);
    let active = match repo.get_active_public()? {
        Some(account) => {
            if account.is_active {
                Some(crate::readiness::pixiv_account_response(account))
            } else {
                return Err(AppError::new(ErrorCode::SqliteError, "active account is not active"));
            }
        },
        None => None,
    };
    let accounts = repo.list_public()?;
    let mut items: Vec<PixivAccountResponse> = Vec::new();
    let mut i: usize = 0;
    while i < accounts.len()
        invariant
            i <= accounts@.len(),
            items@.len() == i,
        decreases accounts.len() - i,
    {
        items.push(crate::readiness::pixiv_account_response(accounts[i].clone()));
        i += 1;
    }
    Ok(PixivAccountsListResponse { items, active })
}

/// The JSON text of a string.
fn json_string(value: &str) -> (r: String)
    ensures
        r@ == crate::json::quoted(value@),
{
    let mut text = String::new();
    push_quoted(&mut text, value);
    text
}

/// Makes a saved account the active one: its cookie becomes the Pixiv
/// cookie setting, its uid and label the active-account settings.
pub fn activate_pixiv_account(conn: &rusqlite::Connection, user_uid: &str) -> (r: Result<
    PixivAccountResponse,
    AppError,
>)
    ensures
        r matches Ok(account) ==> account.is_active,
{
    let accounts = PixivAccountRepository::new(conn);
    let account = accounts.set_active(user_uid)?;
    let cookie = match read_json(account.cookie_json.as_str()) {
        Ok(JsonValue::Text(cookie)) => cookie,
        Ok(_) => {
            return Err(
                AppError::new(
                    ErrorCode::InternalError,
                    "pixiv account cookie could not be decoded: the stored cookie is not a string",
                ),
            )
        },
        Err(reason) => {
            let mut message = owned("pixiv account cookie could not be decoded: ");
            crate::text::push_str(&mut message, reason.as_str());
            return Err(AppError::new(ErrorCode::InternalError, message.as_str()));
        },
    };
    let settings = SettingsRepository::new(conn);
    settings.upsert("pixiv_cookie", json_string(cookie.as_str()).as_str(), true)?;
    settings.upsert("pixiv_active_account_uid", json_string(account.user_uid.as_str()).as_str(), false)?;
    let name: Option<&str> = match &account.user_name {
        Some(n) => Some(n.as_str()),
        None => None,
    };
    let label = account_label(name, account.user_uid.as_str());
    settings.upsert("pixiv_active_account_name", json_string(label.as_str()).as_str(), false)?;
    match accounts.get_active_public()? {
        Some(active) => {
            if active.is_active {
                Ok(crate::readiness::pixiv_account_response(active))
            } else {
                Err(AppError::validation("pixiv account was not activated"))
            }
        },
        None => Err(AppError::validation("pixiv account was not activated")),
    }
}

/// Removes a saved account; when it was the active one, the Pixiv cookie
/// and the active-account settings are cleared.
pub fn delete_pixiv_account(conn: &rusqlite::Connection, user_uid: &str) -> (r: Result<
    PixivAccountDeleteResponse,
    AppError,
>)
    ensures
        r is Err ==> r->Err_0.code == ErrorCode::SqliteError,
{
    let accounts = PixivAccountRepository::new(conn);
    let was_active = match accounts.get_public(user_uid)? {
        Some(account) => account.is_active,
        None => false,
    };
    let deleted = accounts.delete(user_uid)?;
    if deleted && was_active {
        let settings = SettingsRepository::new(conn);
        settings.upsert("pixiv_cookie", "\"\"", true)?;
        settings.upsert("pixiv_active_account_uid", "\"\"", false)?;
        settings.upsert("pixiv_active_account_name", "\"\"", false)?;
    }
    Ok(PixivAccountDeleteResponse { deleted })
}

/// Saves the account Pixiv confirmed for the configured cookie as the
/// active one, and records its uid and label in the settings.
pub fn remember_verified_profile(
    conn: &rusqlite::Connection,
    cookie: &str,
    user_uid: &str,
    user_name: Option<&str>,
) -> (r: Result<(), AppError>)
    ensures
        crate::accounts::account_refusal(user_uid@, cookie@) matches Some(m) ==> (r matches Err(e)
            && e.code == ErrorCode::ValidationError && e.message@ == m),
{
    let mut log = Ghost(Seq::empty());
    remember_verified_profile_noted(conn, cookie, user_uid, user_name, &mut log)
}

/// `remember_verified_profile`, noting its writes in `log`: the account is
/// saved as the only active one (every account made inactive, then this one
/// saved active), then its uid and its label are stored as JSON strings in
/// the active-account settings.
pub fn remember_verified_profile_noted(
    conn: &rusqlite::Connection,
    cookie: &str,
    user_uid: &str,
    user_name: Option<&str>,
    log: &mut Ghost<Seq<SqlWrite>>,
) -> (r: Result<(), AppError>)
    ensures
        crate::accounts::account_refusal(user_uid@, cookie@) matches Some(m) ==> (r matches Err(e)
            && e.code == ErrorCode::ValidationError && e.message@ == m) && final(log)@ == old(log)@,
        r is Ok ==> final(log)@.len() == old(log)@.len() + 4 && final(log)@.subrange(
            0,
            old(log)@.len() as int,
        ) == old(log)@ && is_write(
            final(log)@[old(log)@.len() as int],
            DEACTIVATE_ACCOUNTS_SQL@,
            seq![],
        ) && is_write(
            final(log)@[old(log)@.len() + 1int],
            UPSERT_ACCOUNT_SQL@,
            seq![
                ParamSpec::Text(trimmed(user_uid@)),
                opt_text_param(stored_name(opt_str(user_name))),
                ParamSpec::Text(quoted(cookie@)),
            ],
        ) && is_write(
            final(log)@[old(log)@.len() + 2int],
            UPSERT_SETTING_SQL@,
            seq![
                ParamSpec::Text("pixiv_active_account_uid"@),
                ParamSpec::Text(quoted(user_uid@)),
                ParamSpec::Integer(0i64),
            ],
        ) && is_write(
            final(log)@[old(log)@.len() + 3int],
            UPSERT_SETTING_SQL@,
            seq![
                ParamSpec::Text("pixiv_active_account_name"@),
                ParamSpec::Text(quoted(label_of(opt_str(user_name), user_uid@))),
                ParamSpec::Integer(0i64),
            ],
        ),
{
    let ghost start = log@;
    PixivAccountRepository::new(conn).upsert_active_noted(user_uid, user_name, cookie, log)?;
    let ghost saved = log@;
    let settings = SettingsRepository::new(conn);
    settings.upsert_noted("pixiv_active_account_uid", json_string(user_uid).as_str(), false, log)?;
    let ghost uid_written = log@;
    let label = account_label(user_name, user_uid);
    settings.upsert_noted("pixiv_active_account_name", json_string(label.as_str()).as_str(), false, log)?;
    proof {
        assert(uid_written.drop_last() == saved);
        assert(log@.drop_last() == uid_written);
        assert(log@[start.len() as int] == saved[start.len() as int]);
        assert(log@[start.len() + 1int] == saved[start.len() + 1int]);
        assert(log@[start.len() + 2int] == uid_written[start.len() + 2int]);
        assert(log@.subrange(0, start.len() as int) =~= saved.subrange(0, start.len() as int));
    }
    Ok(())
}

/// The work a connection test should fetch: none for a blank or absent id,
/// refused unless the id is all digits.
pub fn requested_test_work(pixiv_id: Option<String>) -> (r: Result<Option<String>, AppError>)
    ensures
        match pixiv_id {
            None => r == Ok::<Option<String>, AppError>(None),
            Some(id) => if trimmed(id@).len() == 0 {
                r == Ok::<Option<String>, AppError>(None)
            } else if crate::text::all_digits(id@) {
                r == Ok::<Option<String>, AppError>(Some(id))
            } else {
                r matches Err(e) && e.code == ErrorCode::ValidationError && e.message@
                    == "pixiv_id must contain only digits"@
            },
        },
{
    match pixiv_id {
        None => Ok(None),
        Some(id) => {
            proof {
                crate::text::lemma_trimmed_empty_iff(id@);
            }
            if is_blank(id.as_str()) {
                Ok(None)
            } else if crate::text::all_digit_chars(id.as_str()) {
                Ok(Some(id))
            } else {
                Err(AppError::validation("pixiv_id must contain only digits"))
            }
        },
    }
}

/// The answer to a Pixiv connection test: `ok` with the work's title when a
/// work was fetched, `configured` otherwise, with the confirmed user if any.
pub fn pixiv_connection_test_response(
    pixiv_id: Option<String>,
    title: Option<String>,
    profile: Option<(String, Option<String>)>,
) -> (r: PixivConnectionTestResponse)
    ensures
        r.configured,
        r.bound,
        r.status@ == if pixiv_id is Some {
            "ok"@
        } else {
            "configured"@
        },
        r.pixiv_id == pixiv_id,
        pixiv_id is Some ==> r.title == title,
        pixiv_id is None ==> r.title is None,
        r.user_uid == match profile {
            Some((uid, _)) => Some(uid),
            None => None::<String>,
        },
        r.user_name == match profile {
            Some((_, name)) => name,
            None => None::<String>,
        },
{
    let (user_uid, user_name) = match profile {
        Some((uid, name)) => (Some(uid), name),
        None => (None, None),
    };
    let fetched = pixiv_id.is_some();
    PixivConnectionTestResponse {
        configured: true,
        status: if fetched {
            owned("ok")
        } else {
            owned("configured")
        },
        pixiv_id,
        title: if fetched {
            title
        } else {
            None
        },
        user_uid,
        user_name,
        bound: true,
    }
}

/// The cookie a Pixiv client is made with: the configured one, else the
/// one from the environment; `MISSING_PIXIV_COOKIE` when there is neither or
/// it is blank.
pub fn pixiv_client_cookie(configured: Option<String>, from_env: Option<String>) -> (r: Result<
    String,
    AppError,
>)
    ensures
        match configured {
            Some(c) => if trimmed(c@).len() > 0 {
                r matches Ok(v) && v@ == c@
            } else {
                r matches Err(e) && e.code == ErrorCode::MissingPixivCookie && e.message@
                    == "PIXIV_PHPSESSID is required"@
            },
            None => match from_env {
                Some(c) => if trimmed(c@).len() > 0 {
                    r matches Ok(v) && v@ == c@
                } else {
                    r matches Err(e) && e.code == ErrorCode::MissingPixivCookie && e.message@
                        == "PIXIV_PHPSESSID is required"@
                },
                None => r matches Err(e) && e.code == ErrorCode::MissingPixivCookie && e.message@
                    == "Pixiv cookie is required in settings or PIXIV_PHPSESSID"@,
            },
        },
{
    let cookie = match configured {
        Some(c) => c,
        None => match from_env {
            Some(c) => c,
            None => {
                return Err(
                    AppError::new(
                        ErrorCode::MissingPixivCookie,
                        "Pixiv cookie is required in settings or PIXIV_PHPSESSID",
                    ),
                )
            },
        },
    };
    proof {
        crate::text::lemma_trimmed_empty_iff(cookie@);
    }
    if is_blank(cookie.as_str()) {
        return Err(AppError::new(ErrorCode::MissingPixivCookie, "PIXIV_PHPSESSID is required"));
    }
    Ok(cookie)
}

} // verus!
