//! Saved Pixiv accounts: at most one is active, and a cookie is only ever
//! read back through `get_secret`.
use vstd::prelude::*;

use crate::db::{
    cell_integer, cell_opt_text, cell_text, execute, keyed_statement, opt_text, opt_text_param, params_are,
    query, sql_opt_string, sql_text, ParamSpec, SqlCell, execute_noted, is_write, opt_str, SqlWrite,
};
use crate::errors::{AppError, ErrorCode};
use crate::json::{push_quoted, quoted};
use crate::pixiv_api::text_view;
use crate::text::{all_digit_chars, all_digits, is_blank, owned, str_equals, trim, trimmed};

verus! {

/// A saved account as it may be shown (no cookie).
#[derive(Debug, Clone, PartialEq, Eq)]
pub struct PixivAccountRecord {
    pub user_uid: String,
    pub user_name: Option<String>,
    pub is_active: bool,
    pub last_verified_at: String,
    pub created_at: String,
    pub updated_at: String,
}

/// A saved account with its cookie (stored as JSON text).
#[derive(Debug, Clone, PartialEq, Eq)]
pub struct PixivAccountSecret {
    pub user_uid: String,
    pub user_name: Option<String>,
    pub cookie_json: String,
    pub is_active: bool,
    pub last_verified_at: String,
    pub created_at: String,
    pub updated_at: String,
}

/// Why an account is refused before it is stored, if it is.
pub open spec fn account_refusal(user_uid: Seq<char>, cookie: Seq<char>) -> Option<Seq<char>> {
    if trimmed(user_uid).len() == 0 {
        Some("user_uid cannot be empty"@)
    } else if !all_digits(trimmed(user_uid)) {
        Some("user_uid must contain only digits"@)
    } else if trimmed(cookie).len() == 0 {
        Some("pixiv account cookie cannot be empty"@)
    } else {
        None
    }
}

/// A cell read as optional text: `Some` of the text or of nothing for
/// `NULL`, `None` for any other value.
pub open spec fn opt_text_cell(cell: SqlCell) -> Option<Option<Seq<char>>> {
    match cell {
        SqlCell::Text(t) => Some(Some(t@)),
        SqlCell::Null => Some(None),
        _ => None,
    }
}

/// An account row: uid, name, active flag and the three times, with a
/// cookie column before the flag when `with_cookie`.
pub open spec fn account_row(row: Seq<SqlCell>, with_cookie: bool) -> bool {
    let flag = if with_cookie { 3int } else { 2int };
    &&& row.len() >= flag + 4
    &&& row[0] is Text
    &&& opt_text_cell(row[1]) is Some
    &&& (with_cookie ==> row[2] is Text)
    &&& row[flag] is Integer
    &&& row[flag + 1] is Text
    &&& row[flag + 2] is Text
    &&& row[flag + 3] is Text
}

/// The shown account an account row holds.
pub open spec fn public_fields(a: PixivAccountRecord, row: Seq<SqlCell>) -> bool {
    &&& a.user_uid@ == row[0]->Text_0@
    &&& opt_text_cell(row[1]) == Some(text_view(a.user_name))
    &&& a.is_active == (row[2]->Integer_0 == 1)
    &&& a.last_verified_at@ == row[3]->Text_0@
    &&& a.created_at@ == row[4]->Text_0@
    &&& a.updated_at@ == row[5]->Text_0@
}

/// The account, with its cookie, that an account row holds.
pub open spec fn secret_fields(a: PixivAccountSecret, row: Seq<SqlCell>) -> bool {
    &&& a.user_uid@ == row[0]->Text_0@
    &&& opt_text_cell(row[1]) == Some(text_view(a.user_name))
    &&& a.cookie_json@ == row[2]->Text_0@
    &&& a.is_active == (row[3]->Integer_0 == 1)
    &&& a.last_verified_at@ == row[4]->Text_0@
    &&& a.created_at@ == row[5]->Text_0@
    &&& a.updated_at@ == row[6]->Text_0@
}

fn public_from_row(row: &Vec<SqlCell>) -> (r: Result<PixivAccountRecord, AppError>)
    ensures
        r is Ok <==> account_row(row@, false),
        r is Ok ==> row@.len() >= 6 && row@[0] is Text && r->Ok_0.user_uid@ == row@[0]->Text_0@,
        r matches Ok(a) ==> public_fields(a, row@),
        r is Err ==> r->Err_0.code == ErrorCode::SqliteError,
{
    let user_uid = cell_text(row, 0)?;
    let user_name = cell_opt_text(row, 1)?;
    let is_active = cell_integer(row, 2)? == 1;
    let last_verified_at = cell_text(row, 3)?;
    let created_at = cell_text(row, 4)?;
    let updated_at = cell_text(row, 5)?;
    Ok(PixivAccountRecord { user_uid, user_name, is_active, last_verified_at, created_at, updated_at })
}

fn secret_from_row(row: &Vec<SqlCell>) -> (r: Result<PixivAccountSecret, AppError>)
    ensures
        r is Ok <==> account_row(row@, true),
        r is Ok ==> row@.len() >= 7 && row@[0] is Text && r->Ok_0.user_uid@ == row@[0]->Text_0@,
        r matches Ok(a) ==> secret_fields(a, row@),
        r is Err ==> r->Err_0.code == ErrorCode::SqliteError,
{
    let user_uid = cell_text(row, 0)?;
    let user_name = cell_opt_text(row, 1)?;
    let cookie_json = cell_text(row, 2)?;
    let is_active = cell_integer(row, 3)? == 1;
    let last_verified_at = cell_text(row, 4)?;
    let created_at = cell_text(row, 5)?;
    let updated_at = cell_text(row, 6)?;
    Ok(
        PixivAccountSecret {
            user_uid,
            user_name,
            cookie_json,
            is_active,
            last_verified_at,
            created_at,
            updated_at,
        },
    )
}

/// What a lookup of `user_uid` gives from the rows it returned: nothing
/// when there is none; else the first row decoded, which must hold that uid.
fn public_in_rows(rows: &Vec<Vec<SqlCell>>, user_uid: &str) -> (r: Result<
    Option<PixivAccountRecord>,
    AppError,
>)
    ensures
        rows@.len() == 0 ==> r matches Ok(None),
        rows@.len() > 0 && !account_row(rows@[0]@, false) ==> (r matches Err(e) && e.code
            == ErrorCode::SqliteError),
        rows@.len() > 0 && account_row(rows@[0]@, false) && rows@[0]@[0]->Text_0@ != user_uid@ ==> (
        r matches Err(e) && e.code == ErrorCode::SqliteError && e.message@
            == "query returned another account"@),
        rows@.len() > 0 && account_row(rows@[0]@, false) && rows@[0]@[0]->Text_0@ == user_uid@ ==> (
        r matches Ok(Some(a)) && public_fields(a, rows@[0]@)),
        r matches Ok(Some(a)) ==> a.user_uid@ == user_uid@,
        r is Err ==> r->Err_0.code == ErrorCode::SqliteError,
{
    if rows.len() == 0 {
        return Ok(None);
    }
    let account = public_from_row(&rows[0])?;
    if !str_equals(account.user_uid.as_str(), user_uid) {
        return Err(AppError::new(ErrorCode::SqliteError, "query returned another account"));
    }
    Ok(Some(account))
}

/// The account in the first row, with its cookie, which must hold `user_uid`.
fn secret_in_rows(rows: &Vec<Vec<SqlCell>>, user_uid: &str) -> (r: Result<
    Option<PixivAccountSecret>,
    AppError,
>)
    ensures
        rows@.len() == 0 ==> r matches Ok(None),
        rows@.len() > 0 && !account_row(rows@[0]@, true) ==> (r matches Err(e) && e.code
            == ErrorCode::SqliteError),
        rows@.len() > 0 && account_row(rows@[0]@, true) && rows@[0]@[0]->Text_0@ != user_uid@ ==> (
        r matches Err(e) && e.code == ErrorCode::SqliteError && e.message@
            == "query returned another account"@),
        rows@.len() > 0 && account_row(rows@[0]@, true) && rows@[0]@[0]->Text_0@ == user_uid@ ==> (
        r matches Ok(Some(a)) && secret_fields(a, rows@[0]@)),
        r matches Ok(Some(a)) ==> a.user_uid@ == user_uid@,
        r is Err ==> r->Err_0.code == ErrorCode::SqliteError,
{
    if rows.len() == 0 {
        return Ok(None);
    }
    let account = secret_from_row(&rows[0])?;
    if !str_equals(account.user_uid.as_str(), user_uid) {
        return Err(AppError::new(ErrorCode::SqliteError, "query returned another account"));
    }
    Ok(Some(account))
}

/// The account in the first row, if there is one.
fn first_public(rows: &Vec<Vec<SqlCell>>) -> (r: Result<Option<PixivAccountRecord>, AppError>)
    ensures
        rows@.len() == 0 ==> r matches Ok(None),
        rows@.len() > 0 && !account_row(rows@[0]@, false) ==> (r matches Err(e) && e.code
            == ErrorCode::SqliteError),
        rows@.len() > 0 && account_row(rows@[0]@, false) ==> (r matches Ok(Some(a)) && public_fields(
            a,
            rows@[0]@,
        )),
        r is Err ==> r->Err_0.code == ErrorCode::SqliteError,
{
    if rows.len() == 0 {
        return Ok(None);
    }
    Ok(Some(public_from_row(&rows[0])?))
}

/// Makes every account inactive: at most one is ever active, and it is set
/// right after this.
pub const DEACTIVATE_ACCOUNTS_SQL: &'static str = "UPDATE pixiv_accounts SET is_active = 0 WHERE is_active = 1";

/// Saves an account as the active one, verified now; an account already
/// saved under the uid gets the new name and cookie.
pub const UPSERT_ACCOUNT_SQL: &'static str = "INSERT INTO pixiv_accounts (
                user_uid, user_name, cookie_json, is_active, last_verified_at, created_at, updated_at
             )
             VALUES (?1, ?2, ?3, 1, datetime('now'), datetime('now'), datetime('now'))
             ON CONFLICT(user_uid) DO UPDATE SET
                user_name = excluded.user_name,
                cookie_json = excluded.cookie_json,
                is_active = 1,
                last_verified_at = excluded.last_verified_at,
                updated_at = excluded.updated_at";

/// Every account without its cookie: the active one first, then the most
/// recently updated (ties by uid).
pub const LIST_ACCOUNTS_SQL: &'static str = "SELECT user_uid, user_name, is_active, last_verified_at, created_at, updated_at
             FROM pixiv_accounts
             ORDER BY is_active DESC, updated_at DESC, user_uid";

/// One account by uid, without its cookie.
pub const PUBLIC_ACCOUNT_SQL: &'static str = "SELECT user_uid, user_name, is_active, last_verified_at, created_at, updated_at
             FROM pixiv_accounts
             WHERE user_uid = ?1";

/// The active account, without its cookie.
pub const ACTIVE_ACCOUNT_SQL: &'static str = "SELECT user_uid, user_name, is_active, last_verified_at, created_at, updated_at
             FROM pixiv_accounts
             WHERE is_active = 1
             LIMIT 1";

/// One account by uid, with its cookie.
pub const SECRET_ACCOUNT_SQL: &'static str = "SELECT user_uid, user_name, cookie_json, is_active, last_verified_at, created_at, updated_at
             FROM pixiv_accounts
             WHERE user_uid = ?1";

/// Makes one account active.
pub const ACTIVATE_ACCOUNT_SQL: &'static str = "UPDATE pixiv_accounts SET is_active = 1, updated_at = datetime('now') WHERE user_uid = ?1";

/// Removes one account.
pub const DELETE_ACCOUNT_SQL: &'static str = "DELETE FROM pixiv_accounts WHERE user_uid = ?1";

/// The statement saving the active account, and its parameters: the uid,
/// the name (or `NULL`) and the cookie's JSON text.
pub fn upsert_account_statement(uid: &str, name: &Option<String>, cookie_json: &str) -> (r: (
    &'static str,
    Vec<rusqlite::types::Value>,
))
    ensures
        r.0@ == UPSERT_ACCOUNT_SQL@,
        params_are(
            r.1@,
            seq![ParamSpec::Text(uid@), opt_text_param(opt_text(*name)), ParamSpec::Text(cookie_json@)],
        ),
{
    let mut params = Vec::new();
    params.push(sql_text(uid));
    params.push(sql_opt_string(name));
    params.push(sql_text(cookie_json));
    (UPSERT_ACCOUNT_SQL, params)
}

/// Every account row decoded (without cookies), in order; refused when one
/// is not an account row.
pub fn publics_from_rows(rows: &Vec<Vec<SqlCell>>) -> (r: Result<Vec<PixivAccountRecord>, AppError>)
    ensures
        r is Ok <==> forall|i: int| 0 <= i < rows@.len() ==> account_row(#[trigger] rows@[i]@, false),
        r matches Ok(out) ==> out@.len() == rows@.len() && forall|i: int|
            0 <= i < rows@.len() ==> public_fields(#[trigger] out@[i], rows@[i]@),
        r is Err ==> r->Err_0.code == ErrorCode::SqliteError,
{
    let mut out: Vec<PixivAccountRecord> = Vec::new();
    let mut i: usize = 0;
    while i < rows.len()
        invariant
            i <= rows@.len(),
            out@.len() == i,
            forall|j: int| 0 <= j < i ==> account_row(#[trigger] rows@[j]@, false),
            forall|j: int| 0 <= j < i ==> public_fields(#[trigger] out@[j], rows@[j]@),
        decreases rows.len() - i,
    {
        match public_from_row(&rows[i]) {
            Ok(decoded) => out.push(decoded),
            Err(error) => {
                assert(!account_row(rows@[i as int]@, false));
                return Err(error);
            },
        }
        i += 1;
    }
    Ok(out)
}

/// The name an account is saved with: none for a blank or absent name,
/// else the name trimmed.
pub open spec fn stored_name(user_name: Option<Seq<char>>) -> Option<Seq<char>> {
    match user_name {
        Some(n) => if trimmed(n).len() == 0 {
            None
        } else {
            Some(trimmed(n))
        },
        None => None,
    }
}

/// Pixiv account storage.
pub struct PixivAccountRepository<'conn> {
    conn: &'conn rusqlite::Connection,
}

impl<'conn> PixivAccountRepository<'conn> {
    /// The database the repository works on.
    pub closed spec fn connection(self) -> &'conn rusqlite::Connection {
        self.conn
    }

    pub fn new(conn: &'conn rusqlite::Connection) -> (r: Self)
        ensures
            r.connection() == conn,
    {
        PixivAccountRepository { conn }
    }

    /// Saves an account and makes it the only active one.  The uid is
    /// trimmed and must be digits, the cookie must not be blank (it is
    /// stored as a JSON string), and a blank name is stored as none.
    pub fn upsert_active(&self, user_uid: &str, user_name: Option<&str>, cookie: &str) -> (r:
        Result<PixivAccountRecord, AppError>)
        ensures
            account_refusal(user_uid@, cookie@) matches Some(m) ==> (r matches Err(e) && e.code
                == ErrorCode::ValidationError && e.message@ == m),
            r matches Ok(account) ==> account.user_uid@ == trimmed(user_uid@),
    {
        let mut log = Ghost(Seq::empty());
        self.upsert_active_noted(user_uid, user_name, cookie, &mut log)
    }

    /// `upsert_active`, noting its writes in `log`: every account is made
    /// inactive, then the account is saved as the active one, under the
    /// trimmed uid, with its stored name and its cookie as a JSON string.
    pub fn upsert_active_noted(
        &self,
        user_uid: &str,
        user_name: Option<&str>,
        cookie: &str,
        log: &mut Ghost<Seq<SqlWrite>>,
    ) -> (r: Result<PixivAccountRecord, AppError>)
        ensures
            account_refusal(user_uid@, cookie@) matches Some(m) ==> (r matches Err(e) && e.code
                == ErrorCode::ValidationError && e.message@ == m) && final(log)@ == old(log)@,
            r matches Ok(account) ==> account.user_uid@ == trimmed(user_uid@),
            account_refusal(user_uid@, cookie@) is None ==> final(log)@.len() > old(log)@.len()
                && final(log)@.subrange(0, old(log)@.len() as int) == old(log)@ && is_write(
                final(log)@[old(log)@.len() as int],
                DEACTIVATE_ACCOUNTS_SQL@,
                seq![],
            ) && (r is Ok ==> final(log)@.len() == old(log)@.len() + 2 && is_write(
                final(log)@[old(log)@.len() + 1int],
                UPSERT_ACCOUNT_SQL@,
                seq![
                    ParamSpec::Text(trimmed(user_uid@)),
                    opt_text_param(stored_name(opt_str(user_name))),
                    ParamSpec::Text(quoted(cookie@)),
                ],
            )),
    {
        let uid = trim(user_uid);
        proof {
            crate::text::lemma_trimmed_empty_iff(uid@);
            crate::text::lemma_trim_idempotent(user_uid@);
            crate::text::lemma_trimmed_empty_iff(cookie@);
        }
        if is_blank(uid.as_str()) {
            return Err(AppError::validation("user_uid cannot be empty"));
        }
        if !all_digit_chars(uid.as_str()) {
            return Err(AppError::validation("user_uid must contain only digits"));
        }
        if is_blank(cookie) {
            return Err(AppError::validation("pixiv account cookie cannot be empty"));
        }
        let name: Option<String> = match user_name {
            Some(n) => {
                if is_blank(n) {
                    None
                } else {
                    Some(trim(n))
                }
            },
            None => None,
        };
        let mut cookie_json = String::new();
        push_quoted(&mut cookie_json, cookie);
        let no_params = Vec::new();
        let ghost before = log@;
        let deactivated = execute_noted(self.conn, DEACTIVATE_ACCOUNTS_SQL, &no_params, log);
        proof {
            assert(log@.subrange(0, before.len() as int) =~= before);
            assert(params_are(no_params@, seq![]));
        }
        deactivated?;
        let (sql, params) = upsert_account_statement(uid.as_str(), &name, cookie_json.as_str());
        proof {
            assert(opt_text(name) == stored_name(opt_str(user_name)));
        }
        let saved = execute_noted(self.conn, sql, &params, log);
        proof {
            assert(log@.subrange(0, before.len() as int) =~= before);
        }
        saved?;
        match self.get_public(uid.as_str())? {
            Some(account) => Ok(account),
            None => Err(AppError::validation("pixiv account was not saved")),
        }
    }

    /// Every saved account, the active one first, then the most recently updated.
    pub fn list_public(&self) -> (r: Result<Vec<PixivAccountRecord>, AppError>)
        ensures
            r is Err ==> r->Err_0.code == ErrorCode::SqliteError,
    {
        let params = Vec::new();
        let rows = query(self.conn, LIST_ACCOUNTS_SQL, &params)?;
        publics_from_rows(&rows)
    }

    /// The saved account with this uid, without its cookie.
    pub fn get_public(&self, user_uid: &str) -> (r: Result<Option<PixivAccountRecord>, AppError>)
        ensures
            r matches Ok(Some(account)) ==> account.user_uid@ == user_uid@,
            r is Err ==> r->Err_0.code == ErrorCode::SqliteError,
    {
        let (sql, params) = keyed_statement(PUBLIC_ACCOUNT_SQL, user_uid);
        let rows = query(self.conn, sql, &params)?;
        public_in_rows(&rows, user_uid)
    }

    /// The active account, if any, without its cookie.
    pub fn get_active_public(&self) -> (r: Result<Option<PixivAccountRecord>, AppError>)
        ensures
            r is Err ==> r->Err_0.code == ErrorCode::SqliteError,
    {
        let params = Vec::new();
        let rows = query(self.conn, ACTIVE_ACCOUNT_SQL, &params)?;
        first_public(&rows)
    }

    /// The saved account with this uid, with its cookie.
    pub fn get_secret(&self, user_uid: &str) -> (r: Result<Option<PixivAccountSecret>, AppError>)
        ensures
            r matches Ok(Some(account)) ==> account.user_uid@ == user_uid@,
            r is Err ==> r->Err_0.code == ErrorCode::SqliteError,
    {
        let (sql, params) = keyed_statement(SECRET_ACCOUNT_SQL, user_uid);
        let rows = query(self.conn, sql, &params)?;
        secret_in_rows(&rows, user_uid)
    }

    /// Makes a saved account the only active one.
    pub fn set_active(&self, user_uid: &str) -> (r: Result<PixivAccountSecret, AppError>)
        ensures
            r matches Ok(account) ==> account.user_uid@ == user_uid@ && account.is_active,
            r matches Err(e) ==> e.code == ErrorCode::SqliteError || (e.code
                == ErrorCode::ValidationError && e.message@ == "pixiv account was not found"@),
    {
        let account = match self.get_secret(user_uid)? {
            Some(account) => account,
            None => return Err(AppError::validation("pixiv account was not found")),
        };
        let no_params = Vec::new();
        execute(self.conn, DEACTIVATE_ACCOUNTS_SQL, &no_params)?;
        let (sql, params) = keyed_statement(ACTIVATE_ACCOUNT_SQL, user_uid);
        execute(self.conn, sql, &params)?;
        Ok(PixivAccountSecret { is_active: true, ..account })
    }

    /// Removes a saved account; whether one was removed.
    pub fn delete(&self, user_uid: &str) -> (r: Result<bool, AppError>)
        ensures
            r is Err ==> r->Err_0.code == ErrorCode::SqliteError,
    {
        let (sql, params) = keyed_statement(DELETE_ACCOUNT_SQL, user_uid);
        let changed = execute(self.conn, sql, &params)?;
        Ok(changed > 0)
    }
}

} // verus!
