//! Settings: the known keys, which of them are secret, what values each
//! accepts, and the repository that stores them.  A secret's value never
//! leaves the repository except through `get_raw`; every public read shows
//! the mask `"***"` in its place.
use vstd::prelude::*;
use vstd::string::{StrSliceExecFns, StringSliceAdditionalSpecFns};

use crate::db::{
    cell_integer, cell_text, execute, keyed_statement, params_are, query, sql_integer, sql_text, ParamSpec,
    SqlCell, appended, execute_noted, SqlWrite,
};
use crate::domain::R18Policy;
use crate::errors::{AppError, ErrorCode};
use crate::json::{json_document, parse_json_text, JsonValue};
use crate::text::{is_blank, owned, push_str, str_equals, trim, trimmed};

verus! {

/// A stored setting, secret or not, as it is in the database.
#[derive(Debug, Clone, PartialEq, Eq)]
pub struct SettingValue {
    pub key: String,
    pub value_json: String,
    pub is_secret: bool,
    pub updated_at: String,
}

/// A setting as it may be shown: a secret's value is masked.
#[derive(Debug, Clone, PartialEq, Eq)]
pub struct PublicSettingValue {
    pub key: String,
    pub value_json: String,
    pub is_secret: bool,
    pub updated_at: String,
}

/// A known setting key and whether its value is secret.
#[derive(Debug, Clone, Copy, PartialEq, Eq)]
pub struct SettingDefinition {
    pub key: &'static str,
    pub is_secret: bool,
}

/// The JSON text shown in place of a secret.
pub open spec fn masked_json() -> Seq<char> {
    "\"***\""@
}

/// The secret keys.
pub open spec fn is_secret_key(key: Seq<char>) -> bool {
    key == "pixiv_cookie"@ || key == "deepseek_api_key"@
}

pub open spec fn is_known_key(key: Seq<char>) -> bool {
    ||| key == "download_base_path"@
    ||| key == "deepseek_base_url"@
    ||| key == "deepseek_model"@
    ||| key == "default_batch_count"@
    ||| key == "max_request_count"@
    ||| key == "r18_policy"@
    ||| key == "theme_id"@
    ||| key == "pixiv_cookie"@
    ||| key == "deepseek_api_key"@
}

/// The definition of a key, if it is known.
pub fn setting_definition(key: &str) -> (r: Option<SettingDefinition>)
    ensures
        is_known_key(key@) <==> r is Some,
        r matches Some(d) ==> d.key@ == key@ && d.is_secret == is_secret_key(key@),
{
    proof {
        reveal_strlit("pixiv_cookie");
        reveal_strlit("deepseek_api_key");
        reveal_strlit("download_base_path");
        reveal_strlit("deepseek_base_url");
        reveal_strlit("deepseek_model");
        reveal_strlit("default_batch_count");
        reveal_strlit("max_request_count");
        reveal_strlit("r18_policy");
        reveal_strlit("theme_id");
    }
    if str_equals(key, "download_base_path") {
        Some(SettingDefinition { key: "download_base_path", is_secret: false })
    } else if str_equals(key, "deepseek_base_url") {
        Some(SettingDefinition { key: "deepseek_base_url", is_secret: false })
    } else if str_equals(key, "deepseek_model") {
        Some(SettingDefinition { key: "deepseek_model", is_secret: false })
    } else if str_equals(key, "default_batch_count") {
        Some(SettingDefinition { key: "default_batch_count", is_secret: false })
    } else if str_equals(key, "max_request_count") {
        Some(SettingDefinition { key: "max_request_count", is_secret: false })
    } else if str_equals(key, "r18_policy") {
        Some(SettingDefinition { key: "r18_policy", is_secret: false })
    } else if str_equals(key, "theme_id") {
        Some(SettingDefinition { key: "theme_id", is_secret: false })
    } else if str_equals(key, "pixiv_cookie") {
        Some(SettingDefinition { key: "pixiv_cookie", is_secret: true })
    } else if str_equals(key, "deepseek_api_key") {
        Some(SettingDefinition { key: "deepseek_api_key", is_secret: true })
    } else {
        None
    }
}

/// The value shown for a known setting that was never stored.
pub open spec fn default_json(key: Seq<char>) -> Seq<char> {
    if key == "download_base_path"@ {
        "\"~/Downloads/Pixiv Platform\""@
    } else if key == "deepseek_base_url"@ {
        "\"https://api.deepseek.com\""@
    } else if key == "deepseek_model"@ {
        "\"deepseek-v4-flash\""@
    } else if key == "default_batch_count"@ {
        "20"@
    } else if key == "max_request_count"@ {
        "100"@
    } else if key == "r18_policy"@ {
        "\"exclude\""@
    } else if key == "theme_id"@ {
        "\"cyan-studio\""@
    } else if key == "pixiv_cookie"@ || key == "deepseek_api_key"@ {
        masked_json()
    } else {
        "null"@
    }
}

pub fn default_public_value_json(definition: SettingDefinition) -> (r: &'static str)
    ensures
        r@ == default_json(definition.key@),
{
    let key = definition.key;
    if str_equals(key, "download_base_path") {
        "\"~/Downloads/Pixiv Platform\""
    } else if str_equals(key, "deepseek_base_url") {
        "\"https://api.deepseek.com\""
    } else if str_equals(key, "deepseek_model") {
        "\"deepseek-v4-flash\""
    } else if str_equals(key, "default_batch_count") {
        "20"
    } else if str_equals(key, "max_request_count") {
        "100"
    } else if str_equals(key, "r18_policy") {
        "\"exclude\""
    } else if str_equals(key, "theme_id") {
        "\"cyan-studio\""
    } else if str_equals(key, "pixiv_cookie") || str_equals(key, "deepseek_api_key") {
        "\"***\""
    } else {
        "null"
    }
}

/// A stored setting as it may be shown.
pub fn mask_setting(setting: SettingValue) -> (r: PublicSettingValue)
    ensures
        r.key@ == setting.key@,
        r.is_secret == setting.is_secret,
        r.updated_at@ == setting.updated_at@,
        r.value_json@ == if setting.is_secret {
            masked_json()
        } else {
            setting.value_json@
        },
{
    PublicSettingValue {
        key: setting.key,
        value_json: if setting.is_secret {
            owned("\"***\"")
        } else {
            setting.value_json
        },
        is_secret: setting.is_secret,
        updated_at: setting.updated_at,
    }
}

/// The value that keeps a stored secret unchanged.
pub open spec fn is_mask_sentinel(value: JsonValue) -> bool {
    value.spec_as_str() == Some("***"@)
}

/// Why a string value is refused: it must be a string that is not blank.
pub open spec fn string_refusal(value: JsonValue, key: Seq<char>) -> Option<Seq<char>> {
    match value.spec_as_str() {
        None => Some(key + " must be a string"@),
        Some(text) => if trimmed(text).len() == 0 {
            Some(key + " cannot be empty"@)
        } else {
            None
        },
    }
}

/// Whether a (trimmed) download directory is absolute or starts at the home directory.
pub open spec fn home_or_absolute(path: Seq<char>) -> bool {
    (path.len() > 0 && path[0] == '/') || path == "~"@ || (path.len() >= 2 && path[0] == '~'
        && path[1] == '/')
}

pub open spec fn path_refusal(value: JsonValue) -> Option<Seq<char>> {
    match string_refusal(value, "download_base_path"@) {
        Some(m) => Some(m),
        None => {
            let path = trimmed(value.spec_as_str()->Some_0);
            if path.contains('\0') {
                Some("download_base_path cannot contain NUL bytes"@)
            } else if !home_or_absolute(path) {
                Some("download_base_path must be absolute or start with ~"@)
            } else {
                None
            }
        },
    }
}

/// Why a value is refused for a key, if it is.
pub open spec fn setting_refusal(key: Seq<char>, value: JsonValue) -> Option<Seq<char>> {
    if key == "download_base_path"@ {
        path_refusal(value)
    } else if key == "deepseek_base_url"@ || key == "deepseek_model"@ {
        string_refusal(value, key)
    } else if key == "theme_id"@ {
        match string_refusal(value, key) {
            Some(m) => Some(m),
            None => if value.spec_as_str() == Some("cyan-studio"@) || value.spec_as_str() == Some(
                "sakura-light"@,
            ) {
                None
            } else {
                Some("theme_id is invalid"@)
            },
        }
    } else if key == "r18_policy"@ {
        match string_refusal(value, key) {
            Some(m) => Some(m),
            None => if R18Policy::parse(value.spec_as_str()->Some_0) is Some {
                None
            } else {
                Some("r18_policy is invalid"@)
            },
        }
    } else if key == "default_batch_count"@ || key == "max_request_count"@ {
        match value.spec_as_u64() {
            None => Some(key + " must be a number"@),
            Some(n) => if n == 0 || n > 500 {
                Some(key + " must be between 1 and 500"@)
            } else {
                None
            },
        }
    } else if key == "pixiv_cookie"@ || key == "deepseek_api_key"@ {
        if is_mask_sentinel(value) {
            None
        } else {
            string_refusal(value, key)
        }
    } else {
        Some("unknown setting key"@)
    }
}

fn non_empty_string<'a>(value: &'a JsonValue, key: &str) -> (r: Result<&'a str, AppError>)
    ensures
        match string_refusal(*value, key@) {
            Some(m) => r is Err && r->Err_0.code == ErrorCode::ValidationError && r->Err_0.message@
                == m,
            None => r is Ok && value.spec_as_str() == Some(r->Ok_0@),
        },
{
    let text = match value.as_str() {
        Some(text) => text,
        None => {
            let mut message = owned(key);
            push_str(&mut message, " must be a string");
            return Err(AppError::validation(message.as_str()));
        },
    };
    if is_blank(text) {
        let mut message = owned(key);
        push_str(&mut message, " cannot be empty");
        return Err(AppError::validation(message.as_str()));
    }
    Ok(text)
}

fn validate_download_base_path(value: &JsonValue) -> (r: Result<(), AppError>)
    ensures
        match path_refusal(*value) {
            Some(m) => r is Err && r->Err_0.code == ErrorCode::ValidationError && r->Err_0.message@
                == m,
            None => r is Ok,
        },
{
    let text = non_empty_string(value, "download_base_path")?;
    let path = trim(text);
    let n = path.unicode_len();
    let mut i: usize = 0;
    while i < n
        invariant
            n == path@.len(),
            i <= n,
            string_refusal(*value, "download_base_path"@) is None,
            path@ == trimmed(value.spec_as_str()->Some_0),
            forall|j: int| 0 <= j < i ==> path@[j] != '\0',
        decreases n - i,
    {
        if path.get_char(i) == '\0' {
            assert(path@[i as int] == '\0');
            return Err(AppError::validation("download_base_path cannot contain NUL bytes"));
        }
        i += 1;
    }
    let absolute = n > 0 && path.get_char(0) == '/';
    let home = str_equals(path.as_str(), "~") || (n >= 2 && path.get_char(0) == '~'
        && path.get_char(1) == '/');
    proof {
        reveal_strlit("~");
    }
    if !(absolute || home) {
        return Err(AppError::validation("download_base_path must be absolute or start with ~"));
    }
    Ok(())
}

fn count_message(key: &str, tail: &str) -> (e: AppError)
    ensures
        e.code == ErrorCode::ValidationError,
        e.message@ == key@ + tail@,
{
    let mut message = owned(key);
    push_str(&mut message, tail);
    AppError::validation(message.as_str())
}

/// Checks a value against the rules of its key.
pub fn validate_setting_value(definition: SettingDefinition, value: &JsonValue) -> (r: Result<
    (),
    AppError,
>)
    ensures
        match setting_refusal(definition.key@, *value) {
            Some(m) => r is Err && r->Err_0.code == ErrorCode::ValidationError && r->Err_0.message@
                == m,
            None => r is Ok,
        },
{
    let key = definition.key;
    if str_equals(key, "download_base_path") {
        validate_download_base_path(value)
    } else if str_equals(key, "deepseek_base_url") || str_equals(key, "deepseek_model") {
        non_empty_string(value, key)?;
        Ok(())
    } else if str_equals(key, "theme_id") {
        let theme = non_empty_string(value, key)?;
        if !(str_equals(theme, "cyan-studio") || str_equals(theme, "sakura-light")) {
            return Err(AppError::validation("theme_id is invalid"));
        }
        Ok(())
    } else if str_equals(key, "r18_policy") {
        let policy = non_empty_string(value, key)?;
        if R18Policy::from_api(policy).is_none() {
            return Err(AppError::validation("r18_policy is invalid"));
        }
        Ok(())
    } else if str_equals(key, "default_batch_count") || str_equals(key, "max_request_count") {
        let count = match value.as_u64() {
            Some(count) => count,
            None => return Err(count_message(key, " must be a number")),
        };
        if count == 0 || count > 500 {
            return Err(count_message(key, " must be between 1 and 500"));
        }
        Ok(())
    } else if str_equals(key, "pixiv_cookie") || str_equals(key, "deepseek_api_key") {
        let sentinel = match value.as_str() {
            Some(text) => str_equals(text, "***"),
            None => false,
        };
        if !sentinel {
            non_empty_string(value, key)?;
        }
        Ok(())
    } else {
        Err(AppError::validation("unknown setting key"))
    }
}

/// Code-point order of texts, which is the byte order of their UTF-8 (`str::cmp`).
pub open spec fn text_less(a: Seq<char>, b: Seq<char>) -> bool
    decreases a.len(),
{
    if a.len() == 0 {
        b.len() > 0
    } else if b.len() == 0 {
        false
    } else if a[0] != b[0] {
        (a[0] as int) < (b[0] as int)
    } else {
        text_less(a.drop_first(), b.drop_first())
    }
}

pub proof fn lemma_text_less_transitive(a: Seq<char>, b: Seq<char>, c: Seq<char>)
    requires
        text_less(a, b),
        text_less(b, c),
    ensures
        text_less(a, c),
    decreases a.len(),
{
    if a.len() > 0 && b.len() > 0 && c.len() > 0 && a[0] == b[0] && b[0] == c[0] {
        lemma_text_less_transitive(a.drop_first(), b.drop_first(), c.drop_first());
    }
}

pub proof fn lemma_text_less_irreflexive(a: Seq<char>)
    ensures
        !text_less(a, a),
    decreases a.len(),
{
    if a.len() > 0 {
        lemma_text_less_irreflexive(a.drop_first());
    }
}

/// `a < b` in code-point order.
pub fn text_precedes(a: &str, b: &str) -> (r: bool)
    ensures
        r == text_less(a@, b@),
{
    let n = a.unicode_len();
    let m = b.unicode_len();
    let mut i: usize = 0;
    assert(a@.skip(0) =~= a@);
    assert(b@.skip(0) =~= b@);
    while i < n && i < m && a.get_char(i) == b.get_char(i)
        invariant
            n == a@.len(),
            m == b@.len(),
            i <= n,
            i <= m,
            text_less(a@, b@) == text_less(a@.skip(i as int), b@.skip(i as int)),
        decreases n - i,
    {
        assert(a@.skip(i as int).drop_first() =~= a@.skip(i + 1));
        assert(b@.skip(i as int).drop_first() =~= b@.skip(i + 1));
        i += 1;
    }
    if i == n {
        return i < m;
    }
    if i == m {
        return false;
    }
    (a.get_char(i) as u32) < (b.get_char(i) as u32)
}

/// Settings in key order, each key's position kept (a stable sort).
pub open spec fn sorted_by_key(s: Seq<PublicSettingValue>) -> bool {
    forall|i: int, j: int| 0 <= i < j < s.len() ==> !text_less(#[trigger] s[j].key@, #[trigger] s[i].key@)
}

/// Sorts settings by key, keeping the relative order of equal keys.
pub fn sort_by_key(items: Vec<PublicSettingValue>) -> (r: Vec<PublicSettingValue>)
    ensures
        sorted_by_key(r@),
        r@.to_multiset() == items@.to_multiset(),
{
    let mut sorted: Vec<PublicSettingValue> = Vec::new();
    let ghost original = items@;
    let mut taken: usize = 0;
    proof {
        assert(original.subrange(0, 0) =~= Seq::<PublicSettingValue>::empty());
    }
    while taken < items.len()
        invariant
            items@ == original,
            taken <= items@.len(),
            sorted_by_key(sorted@),
            sorted@.to_multiset() == original.subrange(0, taken as int).to_multiset(),
        decreases items.len() - taken,
    {
        let item = items[taken].clone_setting();
        let mut p: usize = 0;
        loop
            invariant
                p <= sorted@.len(),
                forall|k: int| 0 <= k < p ==> !text_less(item.key@, #[trigger] sorted@[k].key@),
            ensures
                p <= sorted@.len(),
                forall|k: int| 0 <= k < p ==> !text_less(item.key@, #[trigger] sorted@[k].key@),
                p < sorted@.len() ==> text_less(item.key@, sorted@[p as int].key@),
            decreases sorted.len() - p,
        {
            if p >= sorted.len() {
                break;
            }
            if text_precedes(item.key.as_str(), sorted[p].key.as_str()) {
                break;
            }
            p += 1;
        }
        let ghost before = sorted@;
        sorted.insert(p, item);
        proof {
            broadcast use vstd::seq_lib::group_to_multiset_ensures;

            assert(original.subrange(0, taken + 1) =~= original.subrange(0, taken as int).push(
                original[taken as int],
            ));
            assert forall|i: int, j: int| 0 <= i < j < sorted@.len() implies !text_less(
                #[trigger] sorted@[j].key@,
                #[trigger] sorted@[i].key@,
            ) by {
                if j < p {
                    assert(sorted@[i] == before[i] && sorted@[j] == before[j]);
                    assert(!text_less(before[j].key@, before[i].key@));
                } else if j == p {
                    assert(sorted@[i] == before[i]);
                    assert(!text_less(item.key@, before[i].key@));
                } else if i == p {
                    assert(sorted@[j] == before[j - 1]);
                    if text_less(before[j - 1].key@, item.key@) {
                        lemma_text_less_transitive(before[j - 1].key@, item.key@, before[p as int].key@);
                        if j - 1 == p {
                            lemma_text_less_irreflexive(before[p as int].key@);
                        } else {
                            assert(!text_less(before[j - 1].key@, before[p as int].key@));
                        }
                    }
                } else if i < p {
                    assert(sorted@[i] == before[i] && sorted@[j] == before[j - 1]);
                    assert(!text_less(before[j - 1].key@, before[i].key@));
                } else {
                    assert(sorted@[i] == before[i - 1] && sorted@[j] == before[j - 1]);
                    assert(!text_less(before[j - 1].key@, before[i - 1].key@));
                }
            }
        }
        taken += 1;
    }
    proof {
        assert(original.subrange(0, taken as int) =~= original);
    }
    sorted
}

impl PublicSettingValue {
    /// A field-by-field copy.
    pub fn clone_setting(&self) -> (r: PublicSettingValue)
        ensures
            r == *self,
    {
        PublicSettingValue {
            key: self.key.clone(),
            value_json: self.value_json.clone(),
            is_secret: self.is_secret,
            updated_at: self.updated_at.clone(),
        }
    }
}

/// A settings row: key, value, secret flag and update time, of the column
/// types the table has.
pub open spec fn setting_row(row: Seq<SqlCell>) -> bool {
    row.len() >= 4 && row[0] is Text && row[1] is Text && row[2] is Integer && row[3] is Text
}

fn setting_from_row(row: &Vec<SqlCell>) -> (r: Result<SettingValue, AppError>)
    ensures
        r is Ok <==> setting_row(row@),
        r is Ok ==> row@.len() >= 4 && row@[0] is Text && r->Ok_0.key@ == row@[0]->Text_0@,
        r matches Ok(s) ==> s.value_json@ == row@[1]->Text_0@ && s.is_secret == (row@[2]->Integer_0
            == 1) && s.updated_at@ == row@[3]->Text_0@,
        r is Err ==> r->Err_0.code == ErrorCode::SqliteError,
{
    let key = cell_text(row, 0)?;
    let value_json = cell_text(row, 1)?;
    let is_secret = cell_integer(row, 2)? == 1;
    let updated_at = cell_text(row, 3)?;
    Ok(SettingValue { key, value_json, is_secret, updated_at })
}

/// What a lookup of `key` gives from the rows it returned: nothing when
/// there is none; else the first row decoded, which must be a setting row
/// holding that key.
pub fn setting_in_rows(rows: &Vec<Vec<SqlCell>>, key: &str) -> (r: Result<Option<SettingValue>, AppError>)
    ensures
        rows@.len() == 0 ==> r matches Ok(None),
        rows@.len() > 0 && !setting_row(rows@[0]@) ==> (r matches Err(e) && e.code
            == ErrorCode::SqliteError),
        rows@.len() > 0 && setting_row(rows@[0]@) && rows@[0]@[0]->Text_0@ != key@ ==> (r matches Err(
            e,
        ) && e.code == ErrorCode::SqliteError && e.message@ == "query returned another setting"@),
        rows@.len() > 0 && setting_row(rows@[0]@) && rows@[0]@[0]->Text_0@ == key@ ==> (r matches Ok(
            Some(s),
        ) && s.key@ == key@ && s.value_json@ == rows@[0]@[1]->Text_0@ && s.is_secret == (
        rows@[0]@[2]->Integer_0 == 1) && s.updated_at@ == rows@[0]@[3]->Text_0@),
        r matches Ok(Some(s)) ==> s.key@ == key@,
{
    if rows.len() == 0 {
        return Ok(None);
    }
    let setting = setting_from_row(&rows[0])?;
    if !str_equals(setting.key.as_str(), key) {
        return Err(AppError::new(ErrorCode::SqliteError, "query returned another setting"));
    }
    Ok(Some(setting))
}

/// The setting a settings row holds, as it may be shown: key, secret flag
/// and update time as stored, the value masked when secret.
pub open spec fn shown_fields(p: PublicSettingValue, row: Seq<SqlCell>) -> bool {
    &&& p.key@ == row[0]->Text_0@
    &&& p.is_secret == (row[2]->Integer_0 == 1)
    &&& p.updated_at@ == row[3]->Text_0@
    &&& p.value_json@ == if p.is_secret {
        masked_json()
    } else {
        row[1]->Text_0@
    }
}

/// Every settings row decoded and masked, in order; refused when one is not
/// a settings row.
pub fn shown_settings_from_rows(rows: &Vec<Vec<SqlCell>>) -> (r: Result<Vec<PublicSettingValue>, AppError>)
    ensures
        r is Ok <==> forall|i: int| 0 <= i < rows@.len() ==> setting_row(#[trigger] rows@[i]@),
        r matches Ok(out) ==> out@.len() == rows@.len() && all_masked(out@) && forall|i: int|
            0 <= i < rows@.len() ==> shown_fields(#[trigger] out@[i], rows@[i]@),
        r is Err ==> r->Err_0.code == ErrorCode::SqliteError,
{
    let mut out: Vec<PublicSettingValue> = Vec::new();
    let mut i: usize = 0;
    while i < rows.len()
        invariant
            i <= rows@.len(),
            out@.len() == i,
            forall|j: int| 0 <= j < i ==> setting_row(#[trigger] rows@[j]@),
            forall|j: int| 0 <= j < i ==> shown_fields(#[trigger] out@[j], rows@[j]@),
            all_masked(out@),
        decreases rows.len() - i,
    {
        let setting = match setting_from_row(&rows[i]) {
            Ok(setting) => setting,
            Err(error) => {
                assert(!setting_row(rows@[i as int]@));
                return Err(error);
            },
        };
        let shown = mask_setting(setting);
        let ghost before = out@;
        out.push(shown);
        proof {
            assert forall|j: int| 0 <= j < out@.len() && (#[trigger] out@[j]).is_secret
                implies out@[j].value_json@ == masked_json() by {
                if j < before.len() {
                    assert(out@[j] == before[j]);
                }
            }
            assert forall|j: int| 0 <= j < i + 1 implies shown_fields(#[trigger] out@[j], rows@[j]@) by {
                if j < i {
                    assert(out@[j] == before[j]);
                }
            }
        }
        i += 1;
    }
    Ok(out)
}

/// Every secret in the list shows the mask.
pub open spec fn all_masked(s: Seq<PublicSettingValue>) -> bool {
    forall|j: int| 0 <= j < s.len() && (#[trigger] s[j]).is_secret ==> s[j].value_json@
        == masked_json()
}

/// The entry listed for a known setting that was never stored: its default
/// value (the mask for a secret), stamped with the listing's time.
pub open spec fn listed_default(p: PublicSettingValue, key: Seq<char>, is_secret: bool, timestamp: Seq<char>) -> bool {
    &&& p.key@ == key
    &&& p.is_secret == is_secret
    &&& p.value_json@ == if is_secret {
        masked_json()
    } else {
        default_json(key)
    }
    &&& p.updated_at@ == timestamp
}

/// Every known setting, once each.
fn known_settings() -> (r: Vec<SettingDefinition>)
    ensures
        forall|k: Seq<char>| is_known_key(k) ==> exists|d: int| 0 <= d < r@.len() && (#[trigger] r@[d]).key@ == k,
        forall|d: int| 0 <= d < r@.len() ==> is_known_key((#[trigger] r@[d]).key@) && r@[d].is_secret
            == is_secret_key(r@[d].key@),
        forall|a: int, b: int| 0 <= a < r@.len() && 0 <= b < r@.len() && a != b ==> (#[trigger] r@[a]).key@
            != (#[trigger] r@[b]).key@,
{
    proof {
        reveal_strlit("pixiv_cookie");
        reveal_strlit("deepseek_api_key");
        reveal_strlit("download_base_path");
        reveal_strlit("deepseek_base_url");
        reveal_strlit("deepseek_model");
        reveal_strlit("default_batch_count");
        reveal_strlit("max_request_count");
        reveal_strlit("r18_policy");
        reveal_strlit("theme_id");
    }
    let mut r: Vec<SettingDefinition> = Vec::new();
    r.push(SettingDefinition { key: "download_base_path", is_secret: false });
    r.push(SettingDefinition { key: "deepseek_base_url", is_secret: false });
    r.push(SettingDefinition { key: "deepseek_model", is_secret: false });
    r.push(SettingDefinition { key: "default_batch_count", is_secret: false });
    r.push(SettingDefinition { key: "max_request_count", is_secret: false });
    r.push(SettingDefinition { key: "r18_policy", is_secret: false });
    r.push(SettingDefinition { key: "theme_id", is_secret: false });
    r.push(SettingDefinition { key: "pixiv_cookie", is_secret: true });
    r.push(SettingDefinition { key: "deepseek_api_key", is_secret: true });
    proof {
        assert forall|k: Seq<char>| is_known_key(k) implies exists|d: int| 0 <= d < r@.len() && (#[trigger] r@[d]).key@ == k by {
            if k == "download_base_path"@ { assert(r@[0].key@ == k); }
            else if k == "deepseek_base_url"@ { assert(r@[1].key@ == k); }
            else if k == "deepseek_model"@ { assert(r@[2].key@ == k); }
            else if k == "default_batch_count"@ { assert(r@[3].key@ == k); }
            else if k == "max_request_count"@ { assert(r@[4].key@ == k); }
            else if k == "r18_policy"@ { assert(r@[5].key@ == k); }
            else if k == "theme_id"@ { assert(r@[6].key@ == k); }
            else if k == "pixiv_cookie"@ { assert(r@[7].key@ == k); }
            else { assert(r@[8].key@ == k); }
        }
        assert(r@[1].key@[0] != r@[4].key@[0]);
        assert forall|a: int, b: int| 0 <= a < r@.len() && 0 <= b < r@.len() && a != b implies (#[trigger] r@[a]).key@
            != (#[trigger] r@[b]).key@ by {
            if (a == 1 && b == 4) || (a == 4 && b == 1) {
                assert(r@[a].key@[0] != r@[b].key@[0]);
            } else {
                assert(r@[a].key@.len() != r@[b].key@.len());
            }
        }
        assert forall|d: int| 0 <= d < r@.len() implies is_known_key((#[trigger] r@[d]).key@) && r@[d].is_secret
            == is_secret_key(r@[d].key@) by {
            assert(r@[0].key@ == "download_base_path"@);
            assert(r@[7].key@ == "pixiv_cookie"@);
            assert(r@[8].key@ == "deepseek_api_key"@);
            assert(r@[d].key@.len() != "pixiv_cookie"@.len() || d == 7);
            assert(r@[d].key@.len() != "deepseek_api_key"@.len() || d == 8);
        }
    }
    r
}

/// A reordering keeps the entries: each entry of one is an entry of the other.
proof fn lemma_same_entries(unsorted: Seq<PublicSettingValue>, sorted: Seq<PublicSettingValue>)
    requires
        sorted.to_multiset() == unsorted.to_multiset(),
    ensures
        forall|x: int| 0 <= x < unsorted.len() ==> sorted.contains(#[trigger] unsorted[x]),
        forall|y: int| 0 <= y < sorted.len() ==> unsorted.contains(#[trigger] sorted[y]),
{
    broadcast use vstd::seq_lib::group_to_multiset_ensures;

    assert forall|x: int| 0 <= x < unsorted.len() implies sorted.contains(#[trigger] unsorted[x]) by {
        assert(unsorted.contains(unsorted[x]));
        assert(sorted.to_multiset().count(unsorted[x]) > 0);
    }
    assert forall|y: int| 0 <= y < sorted.len() implies unsorted.contains(#[trigger] sorted[y]) by {
        assert(sorted.contains(sorted[y]));
        assert(unsorted.to_multiset().count(sorted[y]) > 0);
    }
}

/// Whether the listing shows the setting the row holds.
pub open spec fn shows_row(list: Seq<PublicSettingValue>, row: Seq<SqlCell>) -> bool {
    exists|j: int| 0 <= j < list.len() && shown_fields(#[trigger] list[j], row)
}

/// Whether a settings listing shows what the rows hold: each stored setting
/// as it may be shown, an entry for every known key, and the default entry
/// (stamped `timestamp`) for each known key no row holds.
pub open spec fn lists_settings(list: Seq<PublicSettingValue>, rows: Seq<Vec<SqlCell>>, timestamp: Seq<char>) -> bool {
    &&& forall|i: int| 0 <= i < rows.len() ==> #[trigger] shows_row(list, rows[i]@)
    &&& forall|key: Seq<char>|
        is_known_key(key) ==> exists|j: int| 0 <= j < list.len() && (#[trigger] list[j]).key@ == key
    &&& forall|key: Seq<char>|
        is_known_key(key) && (forall|i: int| 0 <= i < rows.len() ==> (#[trigger] rows[i]@)[0]->Text_0@ != key)
            ==> exists|j: int| 0 <= j < list.len() && listed_default(
            #[trigger] list[j],
            key,
            is_secret_key(key),
            timestamp,
        )
}

/// What listing the settings gives from the stored rows: every stored
/// setting as it may be shown, every known setting never stored with its
/// default (stamped `timestamp`), all in key order; refused when a row is
/// not a settings row.
#[verifier::rlimit(40)]
pub fn listed_settings(rows: &Vec<Vec<SqlCell>>, timestamp: &String) -> (r: Result<
    Vec<PublicSettingValue>,
    AppError,
>)
    ensures
        r is Ok <==> forall|i: int| 0 <= i < rows@.len() ==> setting_row(#[trigger] rows@[i]@),
        r is Err ==> r->Err_0.code == ErrorCode::SqliteError,
        r matches Ok(list) ==> sorted_by_key(list@) && all_masked(list@),
        r matches Ok(list) ==> lists_settings(list@, rows@, timestamp@),
{
    let mut public = shown_settings_from_rows(rows)?;
    let ghost shown = public@;
    let defs = known_settings();
    let mut d: usize = 0;
    while d < defs.len()
        invariant
            d <= defs@.len(),
            shown.len() == rows@.len(),
            forall|i: int| 0 <= i < rows@.len() ==> shown_fields(#[trigger] shown[i], rows@[i]@),
            public@.len() >= shown.len(),
            forall|j: int| 0 <= j < shown.len() ==> #[trigger] public@[j] == shown[j],
            all_masked(public@),
            forall|a: int, b: int| 0 <= a < defs@.len() && 0 <= b < defs@.len() && a != b ==> (#[trigger] defs@[a]).key@
                != (#[trigger] defs@[b]).key@,
            forall|x: int| 0 <= x < defs@.len() ==> (#[trigger] defs@[x]).is_secret == is_secret_key(defs@[x].key@),
            forall|j: int| shown.len() <= j < public@.len() ==> exists|x: int| 0 <= x < d && (#[trigger] public@[j]).key@
                == (#[trigger] defs@[x]).key@,
            forall|x: int| 0 <= x < d ==> exists|j: int| 0 <= j < public@.len() && (#[trigger] public@[j]).key@
                == (#[trigger] defs@[x]).key@,
            forall|x: int| 0 <= x < d && (forall|i: int| 0 <= i < rows@.len() ==> (#[trigger] rows@[i]@)[0]->Text_0@ != defs@[x].key@)
                ==> exists|j: int| 0 <= j < public@.len() && listed_default(
                #[trigger] public@[j],
                (#[trigger] defs@[x]).key@,
                defs@[x].is_secret,
                timestamp@,
            ),
        decreases defs.len() - d,
    {
        let ghost before = public@;
        let definition = defs[d];
        ensure_listed(&mut public, definition.key, definition.is_secret, timestamp);
        proof {
            assert forall|j: int| 0 <= j < shown.len() implies #[trigger] public@[j] == shown[j] by {
                assert(public@[j] == before[j]);
            }
            let k = defs@[d as int].key@;
            if forall|i: int| 0 <= i < rows@.len() ==> (#[trigger] rows@[i]@)[0]->Text_0@ != k {
                assert forall|j: int| 0 <= j < before.len() implies (#[trigger] before[j]).key@ != k by {
                    if j < shown.len() {
                        assert(shown_fields(shown[j], rows@[j]@));
                        assert(rows@[j]@[0]->Text_0@ != k);
                    } else {
                        let x = choose|x: int| 0 <= x < d && before[j].key@ == (#[trigger] defs@[x]).key@;
                        assert(defs@[x].key@ != defs@[d as int].key@);
                    }
                }
                assert(listed_default(public@[before.len() as int], k, defs@[d as int].is_secret, timestamp@));
            }
            assert forall|j: int| shown.len() <= j < public@.len() implies exists|x: int| 0 <= x < d + 1 && (#[trigger] public@[j]).key@
                == (#[trigger] defs@[x]).key@ by {
                if j < before.len() {
                    assert(public@[j] == before[j]);
                    let x = choose|x: int| 0 <= x < d && before[j].key@ == (#[trigger] defs@[x]).key@;
                    assert(public@[j].key@ == defs@[x].key@);
                } else {
                    assert(public@[j].key@ == defs@[d as int].key@);
                }
            }
            assert forall|x: int| 0 <= x < d + 1 implies exists|j: int| 0 <= j < public@.len() && (#[trigger] public@[j]).key@
                == (#[trigger] defs@[x]).key@ by {
                if x < d {
                    let j = choose|j: int| 0 <= j < before.len() && (#[trigger] before[j]).key@ == defs@[x].key@;
                    assert(public@[j] == before[j]);
                }
            }
            assert forall|x: int| 0 <= x < d + 1 && (forall|i: int| 0 <= i < rows@.len() ==> (#[trigger] rows@[i]@)[0]->Text_0@ != defs@[x].key@)
                implies exists|j: int| 0 <= j < public@.len() && listed_default(
                #[trigger] public@[j],
                (#[trigger] defs@[x]).key@,
                defs@[x].is_secret,
                timestamp@,
            ) by {
                if x < d {
                    let j = choose|j: int| 0 <= j < before.len() && listed_default(
                        #[trigger] before[j],
                        defs@[x].key@,
                        defs@[x].is_secret,
                        timestamp@,
                    );
                    assert(public@[j] == before[j]);
                } else {
                    assert(listed_default(public@[before.len() as int], defs@[x].key@, defs@[x].is_secret, timestamp@));
                }
            }
        }
        d += 1;
    }
    let ghost unsorted = public@;
    let sorted = sort_by_key(public);
    proof {
        lemma_same_entries(unsorted, sorted@);
        assert forall|i: int| 0 <= i < sorted@.len() && (#[trigger] sorted@[i]).is_secret implies sorted@[i].value_json@ == masked_json() by {
            assert(unsorted.contains(sorted@[i]));
            let x = choose|x: int| 0 <= x < unsorted.len() && unsorted[x] == sorted@[i];
            assert(unsorted[x].is_secret);
        }
        assert forall|i: int| 0 <= i < rows@.len() implies #[trigger] shows_row(sorted@, rows@[i]@) by {
            assert(unsorted[i] == shown[i]);
            assert(sorted@.contains(unsorted[i]));
            let y = choose|y: int| 0 <= y < sorted@.len() && sorted@[y] == unsorted[i];
            assert(shown_fields(sorted@[y], rows@[i]@));
        }
        assert forall|key: Seq<char>| is_known_key(key) implies exists|j: int| 0 <= j < sorted@.len() && (#[trigger] sorted@[j]).key@ == key by {
            let x = choose|x: int| 0 <= x < defs@.len() && (#[trigger] defs@[x]).key@ == key;
            let j = choose|j: int| 0 <= j < unsorted.len() && (#[trigger] unsorted[j]).key@ == defs@[x].key@;
            assert(sorted@.contains(unsorted[j]));
            let y = choose|y: int| 0 <= y < sorted@.len() && sorted@[y] == unsorted[j];
            assert(sorted@[y].key@ == key);
        }
        assert forall|key: Seq<char>| is_known_key(key) && (forall|i: int| 0 <= i < rows@.len() ==> (#[trigger] rows@[i]@)[0]->Text_0@ != key)
            implies exists|j: int| 0 <= j < sorted@.len() && listed_default(#[trigger] sorted@[j], key, is_secret_key(key), timestamp@) by {
            let x = choose|x: int| 0 <= x < defs@.len() && (#[trigger] defs@[x]).key@ == key;
            let j = choose|j: int| 0 <= j < unsorted.len() && listed_default(
                #[trigger] unsorted[j],
                defs@[x].key@,
                defs@[x].is_secret,
                timestamp@,
            );
            assert(sorted@.contains(unsorted[j]));
            let y = choose|y: int| 0 <= y < sorted@.len() && sorted@[y] == unsorted[j];
            assert(listed_default(sorted@[y], key, is_secret_key(key), timestamp@));
        }
    }
    assert(lists_settings(sorted@, rows@, timestamp@));
    Ok(sorted)
}

/// Adds a known setting with its default unless one with its key is listed.
fn ensure_listed(
    public: &mut Vec<PublicSettingValue>,
    key: &'static str,
    is_secret: bool,
    timestamp: &String,
)
    requires
        all_masked(old(public)@),
    ensures
        all_masked(final(public)@),
        final(public)@.len() >= old(public)@.len(),
        forall|j: int| 0 <= j < old(public)@.len() ==> final(public)@[j] == #[trigger] old(public)@[j],
        exists|i: int| 0 <= i < final(public)@.len() && (#[trigger] final(public)@[i]).key@ == key@,
        final(public)@.len() <= old(public)@.len() + 1,
        final(public)@.len() == old(public)@.len() + 1 ==> final(public)@.last().key@ == key@,
        (forall|j: int| 0 <= j < old(public)@.len() ==> (#[trigger] old(public)@[j]).key@ != key@)
            ==> final(public)@.len() == old(public)@.len() + 1 && listed_default(
            final(public)@.last(),
            key@,
            is_secret,
            timestamp@,
        ),
{
    let mut j: usize = 0;
    while j < public.len()
        invariant
            j <= public@.len(),
            public@ == old(public)@,
            all_masked(public@),
            forall|x: int| 0 <= x < j ==> (#[trigger] public@[x]).key@ != key@,
        decreases public.len() - j,
    {
        if str_equals(public[j].key.as_str(), key) {
            assert(public@[j as int].key@ == key@);
            return;
        }
        j += 1;
    }
    let definition = SettingDefinition { key, is_secret };
    let ghost before = public@;
    public.push(
        PublicSettingValue {
            key: owned(key),
            value_json: if is_secret {
                owned("\"***\"")
            } else {
                owned(default_public_value_json(definition))
            },
            is_secret,
            updated_at: timestamp.clone(),
        },
    );
    proof {
        assert(public@[before.len() as int].key@ == key@);
        assert(public@.last() == public@[before.len() as int]);
        assert forall|x: int| 0 <= x < public@.len() && (#[trigger] public@[x]).is_secret implies public@[x].value_json@ == masked_json() by {
            if x < before.len() {
                assert(public@[x] == before[x]);
            }
        }
    }
}

/// Stores a setting, replacing an earlier value under its key.
pub const UPSERT_SETTING_SQL: &'static str = "INSERT INTO settings (key, value_json, is_secret, updated_at)
             VALUES (?1, ?2, ?3, datetime('now'))
             ON CONFLICT(key) DO UPDATE SET
                value_json = excluded.value_json,
                is_secret = excluded.is_secret,
                updated_at = excluded.updated_at";

/// One setting by key.
pub const SETTING_BY_KEY_SQL: &'static str = "SELECT key, value_json, is_secret, updated_at
             FROM settings
             WHERE key = ?1";

/// Every stored setting, by key.
pub const LIST_SETTINGS_SQL: &'static str = "SELECT key, value_json, is_secret, updated_at
             FROM settings
             ORDER BY key";

/// The statement storing a setting, and its parameters: the key, the JSON
/// text, and 1 for a secret (0 otherwise).
pub fn upsert_setting_statement(key: &str, value_json: &str, is_secret: bool) -> (r: (
    &'static str,
    Vec<rusqlite::types::Value>,
))
    ensures
        r.0@ == UPSERT_SETTING_SQL@,
        params_are(
            r.1@,
            seq![
                ParamSpec::Text(key@),
                ParamSpec::Text(value_json@),
                ParamSpec::Integer(if is_secret { 1i64 } else { 0i64 }),
            ],
        ),
{
    let mut params = Vec::new();
    params.push(sql_text(key));
    params.push(sql_text(value_json));
    params.push(sql_integer(if is_secret { 1 } else { 0 }));
    (UPSERT_SETTING_SQL, params)
}

/// Settings storage.
pub struct SettingsRepository<'conn> {
    conn: &'conn rusqlite::Connection,
}

impl<'conn> SettingsRepository<'conn> {
    /// The database the repository works on.
    pub closed spec fn connection(self) -> &'conn rusqlite::Connection {
        self.conn
    }

    pub fn new(conn: &'conn rusqlite::Connection) -> (r: Self)
        ensures
            r.connection() == conn,
    {
        SettingsRepository { conn }
    }

    /// Stores a value under a key, replacing any earlier one.
    pub fn upsert(&self, key: &str, value_json: &str, is_secret: bool) -> (r: Result<(), AppError>)
        ensures
            r is Err ==> r->Err_0.code == ErrorCode::SqliteError,
    {
        let mut log = Ghost(Seq::empty());
        self.upsert_noted(key, value_json, is_secret, &mut log)
    }

    /// `upsert`, noting the write in `log`.
    pub fn upsert_noted(&self, key: &str, value_json: &str, is_secret: bool, log: &mut Ghost<Seq<SqlWrite>>) -> (r:
        Result<(), AppError>)
        ensures
            r is Err ==> r->Err_0.code == ErrorCode::SqliteError,
            appended(
                final(log)@,
                old(log)@,
                UPSERT_SETTING_SQL@,
                seq![
                    ParamSpec::Text(key@),
                    ParamSpec::Text(value_json@),
                    ParamSpec::Integer(if is_secret { 1i64 } else { 0i64 }),
                ],
            ),
    {
        let (sql, params) = upsert_setting_statement(key, value_json, is_secret);
        let ghost before = log@;
        let written = execute_noted(self.conn, sql, &params, log);
        proof {
            assert(log@.drop_last() =~= before);
        }
        written?;
        Ok(())
    }

    /// The stored setting, secret values included.
    pub fn get_raw(&self, key: &str) -> (r: Result<Option<SettingValue>, AppError>)
        ensures
            r matches Ok(Some(s)) ==> s.key@ == key@,
    {
        let (sql, params) = keyed_statement(SETTING_BY_KEY_SQL, key);
        let rows = query(self.conn, sql, &params)?;
        setting_in_rows(&rows, key)
    }

    /// The stored setting as it may be shown.
    pub fn get_public(&self, key: &str) -> (r: Result<Option<PublicSettingValue>, AppError>)
        ensures
            r matches Ok(Some(s)) ==> s.key@ == key@ && (s.is_secret ==> s.value_json@
                == masked_json()),
    {
        match self.get_raw(key)? {
            Some(setting) => Ok(Some(mask_setting(setting))),
            None => Ok(None),
        }
    }

    /// Every stored setting and every known one, masked, in key order; a
    /// known setting that was never stored shows its default.
    pub fn list_public(&self) -> (r: Result<Vec<PublicSettingValue>, AppError>)
        ensures
            r is Err ==> r->Err_0.code == ErrorCode::SqliteError,
            r matches Ok(list) ==> sorted_by_key(list@) && (forall|i: int|
                0 <= i < list@.len() && (#[trigger] list@[i]).is_secret ==> list@[i].value_json@
                    == masked_json()) && (forall|key: Seq<char>|
                is_known_key(key) ==> exists|i: int|
                    0 <= i < list@.len() && (#[trigger] list@[i]).key@ == key),
    {
        let params = Vec::new();
        let rows = query(self.conn, LIST_SETTINGS_SQL, &params)?;
        let timestamp = crate::db::current_timestamp(self.conn)?;
        listed_settings(&rows, &timestamp)
    }

    /// Saves a known setting from its JSON text after checking it: unknown
    /// keys and refused values are errors, and the mask sent for a secret
    /// keeps the stored secret.  The result is the setting as it may be shown.
    pub fn upsert_known_json(&self, key: &str, value_json: &str) -> (r: Result<
        PublicSettingValue,
        AppError,
    >)
        ensures
            !is_known_key(key@) ==> r is Err && r->Err_0.code == ErrorCode::ValidationError
                && r->Err_0.message@ == "unknown setting key: "@ + key@,
            is_known_key(key@) ==> (json_document(value_json@) matches Some(v) ==> (setting_refusal(key@, v) matches Some(m) ==> r is Err && r->Err_0.code == ErrorCode::ValidationError && r->Err_0.message@ == m)),
            r matches Ok(s) ==> s.key@ == key@ && (s.is_secret ==> s.value_json@ == masked_json()),
    {
        let mut log = Ghost(Seq::empty());
        self.upsert_known_json_noted(key, value_json, &mut log)
    }

    /// `upsert_known_json`, noting its write in `log`.
    pub fn upsert_known_json_noted(&self, key: &str, value_json: &str, log: &mut Ghost<Seq<SqlWrite>>) -> (r: Result<
        PublicSettingValue,
        AppError,
    >)
        ensures
            !is_known_key(key@) ==> r is Err && r->Err_0.code == ErrorCode::ValidationError
                && r->Err_0.message@ == "unknown setting key: "@ + key@,
            is_known_key(key@) ==> (json_document(value_json@) matches Some(v) ==> (setting_refusal(key@, v) matches Some(m) ==> r is Err && r->Err_0.code == ErrorCode::ValidationError && r->Err_0.message@ == m)),
            r matches Ok(s) ==> s.key@ == key@ && (s.is_secret ==> s.value_json@ == masked_json()),
            // A valid value is stored under its key, except the mask sent for a secret,
            // which stores nothing and keeps the stored secret; a refused one stores nothing.
            (is_known_key(key@) && json_document(value_json@) is Some && setting_refusal(
                key@,
                json_document(value_json@)->Some_0,
            ) is None) ==> if is_secret_key(key@) && is_mask_sentinel(json_document(value_json@)->Some_0) {
                final(log)@ == old(log)@
            } else {
                appended(
                    final(log)@,
                    old(log)@,
                    UPSERT_SETTING_SQL@,
                    seq![
                        ParamSpec::Text(key@),
                        ParamSpec::Text(value_json@),
                        ParamSpec::Integer(if is_secret_key(key@) { 1i64 } else { 0i64 }),
                    ],
                )
            },
            !(is_known_key(key@) && json_document(value_json@) is Some && setting_refusal(
                key@,
                json_document(value_json@)->Some_0,
            ) is None) ==> final(log)@ == old(log)@,
    {
        let definition = match setting_definition(key) {
            Some(definition) => definition,
            None => {
                let mut message = owned("unknown setting key: ");
                push_str(&mut message, key);
                return Err(AppError::validation(message.as_str()));
            },
        };
        let value = match parse_json_text(value_json) {
            Ok(value) => value,
            Err(reason) => {
                let mut message = owned("setting value is not JSON: ");
                push_str(&mut message, reason.as_str());
                return Err(AppError::validation(message.as_str()));
            },
        };
        validate_setting_value(definition, &value)?;
        let sentinel = match value.as_str() {
            Some(text) => str_equals(text, "***"),
            None => false,
        };
        if definition.is_secret && sentinel {
            return match self.get_public(key)? {
                Some(existing) => Ok(existing),
                None => Err(AppError::validation("masked secret cannot create a new setting")),
            };
        }
        self.upsert_noted(key, value_json, definition.is_secret, log)?;
        match self.get_public(key)? {
            Some(saved) => Ok(saved),
            None => Err(AppError::validation("setting was not saved")),
        }
    }

    /// SQLite's clock.
    pub fn current_timestamp(&self) -> (r: Result<String, AppError>)
        ensures
            r is Err ==> r->Err_0.code == ErrorCode::SqliteError,
    {
        crate::db::current_timestamp(self.conn)
    }
}

} // verus!
