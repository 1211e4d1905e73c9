//! The requests that tasks carry: their validation, the JSON text stored
//! with each task, and reading that text back (once parsed into `JsonValue`).
use vstd::prelude::*;

use crate::domain::{DownloadRequest, ImageSource, R18Policy};
use crate::errors::{AppError, ErrorCode};
use crate::json::{json_document, json_error_text, parse_json_text, push_quoted, quoted, JsonNumber, JsonValue};
use crate::tasks::{AuthorDownloadRequest, BookmarkDownloadRequest, SmartDownloadRequest};
use crate::text::{
    all_digit_chars, all_digits, all_space, decimal, is_blank, owned, push_char, push_decimal,
    push_str, trimmed,
};

verus! {

pub open spec fn author_request_refusal(uid: Seq<char>, limit: u32) -> Option<Seq<char>> {
    if all_space(uid) {
        Some("author_uid cannot be empty"@)
    } else if !all_digits(uid) {
        Some("author_uid must contain only digits"@)
    } else if limit == 0 {
        Some("limit must be at least 1"@)
    } else {
        None
    }
}

pub fn validate_author_request(request: &AuthorDownloadRequest) -> (r: Result<(), AppError>)
    ensures
        match author_request_refusal(request.author_uid@, request.limit) {
            Some(m) => r is Err && r->Err_0.code == ErrorCode::ValidationError && r->Err_0.message@
                == m,
            None => r is Ok,
        },
{
    if is_blank(request.author_uid.as_str()) {
        return Err(AppError::validation("author_uid cannot be empty"));
    }
    if !all_digit_chars(request.author_uid.as_str()) {
        return Err(AppError::validation("author_uid must contain only digits"));
    }
    if request.limit == 0 {
        return Err(AppError::validation("limit must be at least 1"));
    }
    Ok(())
}

pub fn validate_bookmark_request(request: &BookmarkDownloadRequest) -> (r: Result<(), AppError>)
    ensures
        request.limit == 0 <==> r is Err,
        r is Err ==> r->Err_0.code == ErrorCode::ValidationError && r->Err_0.message@
            == "limit must be at least 1"@,
{
    if request.limit == 0 {
        return Err(AppError::validation("limit must be at least 1"));
    }
    Ok(())
}

pub open spec fn all_blank(tags: Seq<String>) -> bool {
    forall|i: int| 0 <= i < tags.len() ==> all_space(#[trigger] tags[i]@)
}

pub open spec fn smart_request_refusal(prompt: Seq<char>, tags: Seq<String>, limit: u32) -> Option<
    Seq<char>,
> {
    if all_space(prompt) {
        Some("prompt cannot be empty"@)
    } else if all_blank(tags) {
        Some("tags cannot be empty"@)
    } else if limit == 0 {
        Some("limit must be at least 1"@)
    } else {
        None
    }
}

pub fn validate_smart_request(request: &SmartDownloadRequest) -> (r: Result<(), AppError>)
    ensures
        match smart_request_refusal(request.prompt@, request.tags@, request.limit) {
            Some(m) => r is Err && r->Err_0.code == ErrorCode::ValidationError && r->Err_0.message@
                == m,
            None => r is Ok,
        },
{
    if is_blank(request.prompt.as_str()) {
        return Err(AppError::validation("prompt cannot be empty"));
    }
    let mut i: usize = 0;
    let mut any = false;
    while i < request.tags.len()
        invariant
            i <= request.tags@.len(),
            !any ==> forall|j: int| 0 <= j < i ==> all_space(#[trigger] request.tags@[j]@),
            any ==> !all_blank(request.tags@),
        decreases request.tags.len() - i,
    {
        if !is_blank(request.tags[i].as_str()) {
            any = true;
        }
        i += 1;
    }
    if !any {
        return Err(AppError::validation("tags cannot be empty"));
    }
    if request.limit == 0 {
        return Err(AppError::validation("limit must be at least 1"));
    }
    Ok(())
}

/// `"key":`
pub open spec fn key_prefix(key: Seq<char>) -> Seq<char> {
    quoted(key) + seq![':']
}

pub open spec fn optional_number(n: Option<u32>) -> Seq<char> {
    match n {
        Some(v) => decimal(v as nat),
        None => "null"@,
    }
}

/// The stored form of a single download request (keys in sorted order).
pub open spec fn single_request_text(request: DownloadRequest) -> Seq<char> {
    seq!['{'] + key_prefix("page_index"@) + optional_number(request.page_index) + seq![',']
        + key_prefix("pixiv_id"@) + quoted(request.pixiv_id@) + seq![','] + key_prefix(
        "r18_policy"@,
    ) + quoted(request.r18_policy.name()) + seq![','] + key_prefix("source"@) + quoted(
        request.source.name(),
    ) + seq!['}']
}

fn push_key(out: &mut String, key: &str)
    ensures
        final(out)@ == old(out)@ + key_prefix(key@),
{
    push_quoted(out, key);
    push_char(out, ':');
}

pub fn single_request_json(request: &DownloadRequest) -> (r: String)
    ensures
        r@ == single_request_text(*request),
{
    let mut out = String::new();
    push_char(&mut out, '{');
    push_key(&mut out, "page_index");
    match request.page_index {
        Some(v) => push_decimal(&mut out, v as u128),
        None => push_str(&mut out, "null"),
    }
    push_char(&mut out, ',');
    push_key(&mut out, "pixiv_id");
    push_quoted(&mut out, request.pixiv_id.as_str());
    push_char(&mut out, ',');
    push_key(&mut out, "r18_policy");
    push_quoted(&mut out, request.r18_policy.as_str());
    push_char(&mut out, ',');
    push_key(&mut out, "source");
    push_quoted(&mut out, request.source.as_str());
    push_char(&mut out, '}');
    assert(out@ =~= single_request_text(*request));
    out
}

pub open spec fn author_request_text(request: AuthorDownloadRequest) -> Seq<char> {
    seq!['{'] + key_prefix("author_uid"@) + quoted(request.author_uid@) + seq![','] + key_prefix(
        "limit"@,
    ) + decimal(request.limit as nat) + seq![','] + key_prefix("r18_policy"@) + quoted(
        request.r18_policy.name(),
    ) + seq![','] + key_prefix("source"@) + quoted("author"@) + seq!['}']
}

pub fn author_request_json(request: &AuthorDownloadRequest) -> (r: String)
    ensures
        r@ == author_request_text(*request),
{
    let mut out = String::new();
    push_char(&mut out, '{');
    push_key(&mut out, "author_uid");
    push_quoted(&mut out, request.author_uid.as_str());
    push_char(&mut out, ',');
    push_key(&mut out, "limit");
    push_decimal(&mut out, request.limit as u128);
    push_char(&mut out, ',');
    push_key(&mut out, "r18_policy");
    push_quoted(&mut out, request.r18_policy.as_str());
    push_char(&mut out, ',');
    push_key(&mut out, "source");
    push_quoted(&mut out, ImageSource::Author.as_str());
    push_char(&mut out, '}');
    assert(out@ =~= author_request_text(*request));
    out
}

pub open spec fn bookmark_request_text(request: BookmarkDownloadRequest) -> Seq<char> {
    seq!['{'] + key_prefix("limit"@) + decimal(request.limit as nat) + seq![','] + key_prefix(
        "r18_policy"@,
    ) + quoted(request.r18_policy.name()) + seq![','] + key_prefix("source"@) + quoted(
        "bookmark"@,
    ) + seq!['}']
}

pub fn bookmark_request_json(request: &BookmarkDownloadRequest) -> (r: String)
    ensures
        r@ == bookmark_request_text(*request),
{
    let mut out = String::new();
    push_char(&mut out, '{');
    push_key(&mut out, "limit");
    push_decimal(&mut out, request.limit as u128);
    push_char(&mut out, ',');
    push_key(&mut out, "r18_policy");
    push_quoted(&mut out, request.r18_policy.as_str());
    push_char(&mut out, ',');
    push_key(&mut out, "source");
    push_quoted(&mut out, ImageSource::Bookmark.as_str());
    push_char(&mut out, '}');
    assert(out@ =~= bookmark_request_text(*request));
    out
}

/// A JSON array of strings.
pub open spec fn string_array_text(items: Seq<String>) -> Seq<char>
    decreases items.len(),
{
    if items.len() == 0 {
        "[]"@
    } else {
        seq!['['] + string_items_text(items) + seq![']']
    }
}

pub open spec fn string_items_text(items: Seq<String>) -> Seq<char>
    decreases items.len(),
{
    if items.len() <= 1 {
        if items.len() == 0 {
            Seq::empty()
        } else {
            quoted(items[0]@)
        }
    } else {
        string_items_text(items.drop_last()) + seq![','] + quoted(items.last()@)
    }
}

/// `serde_json::to_string` of a list of strings.
pub fn string_array_json(items: &Vec<String>) -> (r: String)
    ensures
        r@ == string_array_text(items@),
{
    let mut out = String::new();
    push_char(&mut out, '[');
    let mut i: usize = 0;
    while i < items.len()
        invariant
            i <= items@.len(),
            out@ == seq!['['] + string_items_text(items@.take(i as int)),
        decreases items.len() - i,
    {
        assert(items@.take(i + 1).drop_last() =~= items@.take(i as int));
        if i > 0 {
            push_char(&mut out, ',');
        }
        push_quoted(&mut out, items[i].as_str());
        proof {
            if i == 0 {
                assert(string_items_text(items@.take(1)) == quoted(items@[0]@));
            }
        }
        assert(out@ =~= seq!['['] + string_items_text(items@.take(i + 1)));
        i += 1;
    }
    push_char(&mut out, ']');
    assert(items@.take(items@.len() as int) =~= items@);
    proof {
        if items@.len() == 0 {
            reveal_strlit("[]");
        }
    }
    assert(out@ =~= string_array_text(items@));
    out
}

pub open spec fn smart_request_text(request: SmartDownloadRequest) -> Seq<char> {
    seq!['{'] + key_prefix("limit"@) + decimal(request.limit as nat) + seq![','] + key_prefix(
        "model"@,
    ) + quoted(request.model@) + seq![','] + key_prefix("negative_tags"@) + string_array_text(
        request.negative_tags@,
    ) + seq![','] + key_prefix("prompt"@) + quoted(request.prompt@) + seq![','] + key_prefix(
        "r18_policy"@,
    ) + quoted(request.r18_policy.name()) + seq![','] + key_prefix("source"@) + quoted("smart"@)
        + seq![','] + key_prefix("tags"@) + string_array_text(request.tags@) + seq!['}']
}

pub fn smart_request_json(request: &SmartDownloadRequest) -> (r: String)
    ensures
        r@ == smart_request_text(*request),
{
    let mut out = String::new();
    push_char(&mut out, '{');
    push_key(&mut out, "limit");
    push_decimal(&mut out, request.limit as u128);
    push_char(&mut out, ',');
    push_key(&mut out, "model");
    push_quoted(&mut out, request.model.as_str());
    push_char(&mut out, ',');
    push_key(&mut out, "negative_tags");
    push_str(&mut out, string_array_json(&request.negative_tags).as_str());
    push_char(&mut out, ',');
    push_key(&mut out, "prompt");
    push_quoted(&mut out, request.prompt.as_str());
    push_char(&mut out, ',');
    push_key(&mut out, "r18_policy");
    push_quoted(&mut out, request.r18_policy.as_str());
    push_char(&mut out, ',');
    push_key(&mut out, "source");
    push_quoted(&mut out, ImageSource::Smart.as_str());
    push_char(&mut out, ',');
    push_key(&mut out, "tags");
    push_str(&mut out, string_array_json(&request.tags).as_str());
    push_char(&mut out, '}');
    assert(out@ =~= smart_request_text(*request));
    out
}

/// The text of a field, when it is a string.
pub open spec fn text_field(value: JsonValue, key: Seq<char>) -> Option<Seq<char>> {
    match value.spec_get(key) {
        Some(v) => v.spec_as_str(),
        None => None,
    }
}

/// The `limit` field, when it is a number that fits in `u32`.
pub open spec fn limit_field(value: JsonValue) -> Option<u32> {
    match value.spec_get("limit"@) {
        Some(v) => match v.spec_as_u64() {
            Some(n) => if n <= u32::MAX {
                Some(n as u32)
            } else {
                None
            },
            None => None,
        },
        None => None,
    }
}

/// The `r18_policy` field, when it names a policy.
pub open spec fn policy_field(value: JsonValue) -> Option<R18Policy> {
    match text_field(value, "r18_policy"@) {
        Some(s) => R18Policy::parse(s),
        None => None,
    }
}

/// A `page_index` field that is absent, `null`, or a number that fits in `u32`.
pub open spec fn page_field_ok(value: JsonValue) -> bool {
    match value.spec_get("page_index"@) {
        None => true,
        Some(JsonValue::Null) => true,
        Some(JsonValue::Number(JsonNumber::Unsigned(n))) => n <= u32::MAX,
        _ => false,
    }
}

/// A list whose every entry is a string.
pub open spec fn string_list(value: JsonValue) -> bool {
    value matches JsonValue::Array(items) && forall|i: int|
        0 <= i < items@.len() ==> (#[trigger] items@[i]).spec_as_str() is Some
}

/// The `limit` field: a number that fits in `u32`.
fn read_limit(value: &JsonValue) -> (r: Result<u32, AppError>)
    ensures
        match value.spec_get("limit"@) {
            Some(v) => match v.spec_as_u64() {
                Some(n) => if n <= u32::MAX {
                    r == Ok::<u32, AppError>(n as u32)
                } else {
                    r is Err
                },
                None => r is Err,
            },
            None => r is Err,
        },
        r is Err ==> r->Err_0.code == ErrorCode::ValidationError && r->Err_0.message@
            == "task request_json limit is invalid"@,
{
    let raw = match value.get("limit") {
        Some(v) => v.as_u64(),
        None => None,
    };
    match raw {
        Some(n) => if n <= 4294967295u64 {
            Ok(n as u32)
        } else {
            Err(AppError::validation("task request_json limit is invalid"))
        },
        None => Err(AppError::validation("task request_json limit is invalid")),
    }
}

/// The `r18_policy` field: a known policy name.
fn read_policy(value: &JsonValue) -> (r: Result<R18Policy, AppError>)
    ensures
        match value.spec_get("r18_policy"@) {
            Some(v) => match v.spec_as_str() {
                Some(s) => match R18Policy::parse(s) {
                    Some(p) => r == Ok::<R18Policy, AppError>(p),
                    None => r is Err,
                },
                None => r is Err,
            },
            None => r is Err,
        },
        r is Err ==> r->Err_0.code == ErrorCode::ValidationError && r->Err_0.message@
            == "task request_json r18_policy is invalid"@,
{
    let text = match value.get("r18_policy") {
        Some(v) => v.as_str(),
        None => None,
    };
    let policy = match text {
        Some(t) => R18Policy::from_api(t),
        None => None,
    };
    match policy {
        Some(p) => Ok(p),
        None => Err(AppError::validation("task request_json r18_policy is invalid")),
    }
}

/// A text field, or a validation error with `message`.
fn read_text(value: &JsonValue, key: &str, message: &str) -> (r: Result<String, AppError>)
    ensures
        match value.spec_get(key@) {
            Some(v) => match v.spec_as_str() {
                Some(s) => r is Ok && r->Ok_0@ == s,
                None => r is Err,
            },
            None => r is Err,
        },
        r is Err ==> r->Err_0.code == ErrorCode::ValidationError && r->Err_0.message@
            == message@,
{
    let text = match value.get(key) {
        Some(v) => v.as_str(),
        None => None,
    };
    match text {
        Some(t) => Ok(owned(t)),
        None => Err(AppError::validation(message)),
    }
}

/// Reads back a stored single download request.
pub fn parse_single_request(value: &JsonValue) -> (r: Result<DownloadRequest, AppError>)
    ensures
        r is Ok ==> (value.spec_get("pixiv_id"@) matches Some(v) && v.spec_as_str() == Some(
            r->Ok_0.pixiv_id@,
        )),
        r is Ok ==> (value.spec_get("r18_policy"@) matches Some(v) && v.spec_as_str() matches Some(
            s,
        ) && R18Policy::parse(s) == Some(r->Ok_0.r18_policy)),
        r is Ok ==> (value.spec_get("source"@) matches Some(v) && v.spec_as_str() matches Some(s)
            && ImageSource::parse(s) == Some(r->Ok_0.source)),
        r is Ok ==> match value.spec_get("page_index"@) {
            None => r->Ok_0.page_index is None,
            Some(JsonValue::Null) => r->Ok_0.page_index is None,
            Some(v) => v.spec_as_u64() matches Some(n) && r->Ok_0.page_index == Some(n as u32)
                && n <= u32::MAX,
        },
        r is Err ==> r->Err_0.code == ErrorCode::ValidationError,
        r is Ok <==> text_field(*value, "pixiv_id"@) is Some && page_field_ok(*value) && (match text_field(
            *value,
            "source"@,
        ) {
            Some(t) => ImageSource::parse(t) is Some,
            None => false,
        }) && policy_field(*value) is Some,
{
    let pixiv_id = read_text(value, "pixiv_id", "task request_json missing pixiv_id")?;
    let page_index = match value.get("page_index") {
        None => None,
        Some(JsonValue::Null) => None,
        Some(JsonValue::Number(JsonNumber::Unsigned(n))) => {
            if *n > 4294967295u64 {
                return Err(AppError::validation("task request_json page_index is invalid"));
            }
            Some(*n as u32)
        },
        Some(_) => {
            return Err(AppError::validation("task request_json page_index is invalid"));
        },
    };
    let source_text = match value.get("source") {
        Some(v) => v.as_str(),
        None => None,
    };
    let source = match source_text {
        Some(t) => ImageSource::from_db(t),
        None => None,
    };
    let source = match source {
        Some(s) => s,
        None => return Err(AppError::validation("task request_json source is invalid")),
    };
    let r18_policy = read_policy(value)?;
    Ok(DownloadRequest { pixiv_id, page_index, source, r18_policy })
}

/// Reads back a stored author request.
pub fn parse_author_request(value: &JsonValue) -> (r: Result<AuthorDownloadRequest, AppError>)
    ensures
        r is Ok ==> (value.spec_get("author_uid"@) matches Some(v) && v.spec_as_str() == Some(
            r->Ok_0.author_uid@,
        )),
        r is Ok ==> (value.spec_get("limit"@) matches Some(v) && v.spec_as_u64() == Some(
            r->Ok_0.limit as u64,
        )),
        r is Ok ==> (value.spec_get("r18_policy"@) matches Some(v) && v.spec_as_str() matches Some(
            s,
        ) && R18Policy::parse(s) == Some(r->Ok_0.r18_policy)),
        r is Err ==> r->Err_0.code == ErrorCode::ValidationError,
        r is Ok <==> text_field(*value, "author_uid"@) is Some && limit_field(*value) is Some
            && policy_field(*value) is Some,
{
    let author_uid = read_text(value, "author_uid", "task request_json missing author_uid")?;
    let limit = read_limit(value)?;
    let r18_policy = read_policy(value)?;
    Ok(AuthorDownloadRequest { author_uid, limit, r18_policy })
}

/// Reads back a stored bookmark request.
pub fn parse_bookmark_request(value: &JsonValue) -> (r: Result<BookmarkDownloadRequest, AppError>)
    ensures
        r is Ok ==> (value.spec_get("limit"@) matches Some(v) && v.spec_as_u64() == Some(
            r->Ok_0.limit as u64,
        )),
        r is Ok ==> (value.spec_get("r18_policy"@) matches Some(v) && v.spec_as_str() matches Some(
            s,
        ) && R18Policy::parse(s) == Some(r->Ok_0.r18_policy)),
        r is Err ==> r->Err_0.code == ErrorCode::ValidationError,
        r is Ok <==> limit_field(*value) is Some && policy_field(*value) is Some,
{
    let limit = read_limit(value)?;
    let r18_policy = read_policy(value)?;
    Ok(BookmarkDownloadRequest { limit, r18_policy })
}

/// A list of strings, or a validation error.
/// The strings of a list, in order.
pub open spec fn string_values(value: JsonValue) -> Seq<Seq<char>> {
    match value {
        JsonValue::Array(items) => items@.map_values(|v: JsonValue| v.spec_as_str()->Some_0),
        _ => Seq::empty(),
    }
}

/// The tags a smart request lists under `key` (none when it has no such member).
pub open spec fn request_tags(value: JsonValue, key: Seq<char>) -> Seq<Seq<char>> {
    match value.spec_get(key) {
        Some(t) => string_values(t),
        None => Seq::empty(),
    }
}

fn read_string_list(value: &JsonValue) -> (r: Result<Vec<String>, AppError>)
    ensures
        r matches Ok(out) ==> crate::tags::views(out@) == string_values(*value),
        r is Ok <==> string_list(*value),
        r is Ok ==> (value matches JsonValue::Array(items) && r->Ok_0@.len() == items@.len()
            && forall|i: int|
            0 <= i < items@.len() ==> items@[i].spec_as_str() == Some(#[trigger] r->Ok_0@[i]@)),
        r is Err ==> r->Err_0.code == ErrorCode::ValidationError && r->Err_0.message@
            == "task request_json tags are invalid"@,
{
    match value {
        JsonValue::Array(items) => {
            let mut out: Vec<String> = Vec::new();
            let mut i: usize = 0;
            while i < items.len()
                invariant
                    *value == JsonValue::Array(*items),
                    i <= items@.len(),
                    out@.len() == i,
                    forall|k: int| 0 <= k < i ==> items@[k].spec_as_str() == Some(#[trigger] out@[k]@),
                decreases items.len() - i,
            {
                match items[i].as_str() {
                    Some(t) => out.push(owned(t)),
                    None => {
                        assert(items@[i as int].spec_as_str() is None);
                        return Err(AppError::validation("task request_json tags are invalid"));
                    },
                }
                i += 1;
            }
            assert forall|k: int| 0 <= k < items@.len() implies (#[trigger] items@[k]).spec_as_str() is Some by {
                assert(items@[k].spec_as_str() == Some(out@[k]@));
            }
            Ok(out)
        },
        _ => Err(AppError::validation("task request_json tags are invalid")),
    }
}

/// Reads back a stored smart request (`negative_tags` may be missing; the
/// model defaults to `manual-tags`).
pub fn parse_smart_request(value: &JsonValue) -> (r: Result<SmartDownloadRequest, AppError>)
    ensures
        r is Ok ==> (value.spec_get("prompt"@) matches Some(v) && v.spec_as_str() == Some(
            r->Ok_0.prompt@,
        )),
        r is Ok ==> (value.spec_get("limit"@) matches Some(v) && v.spec_as_u64() == Some(
            r->Ok_0.limit as u64,
        )),
        r is Ok ==> (value.spec_get("r18_policy"@) matches Some(v) && v.spec_as_str() matches Some(
            s,
        ) && R18Policy::parse(s) == Some(r->Ok_0.r18_policy)),
        r is Ok ==> match value.spec_get("model"@) {
            Some(v) => match v.spec_as_str() {
                Some(m) => r->Ok_0.model@ == m,
                None => r->Ok_0.model@ == "manual-tags"@,
            },
            None => r->Ok_0.model@ == "manual-tags"@,
        },
        r is Err ==> r->Err_0.code == ErrorCode::ValidationError,
        // The search tags and the excluded tags are the request's own, in order.
        r matches Ok(q) ==> crate::tags::views(q.tags@) == request_tags(*value, "tags"@)
            && crate::tags::views(q.negative_tags@) == request_tags(*value, "negative_tags"@),
        r is Ok <==> text_field(*value, "prompt"@) is Some && (value.spec_get("tags"@) matches Some(
            t,
        ) && string_list(t)) && (match value.spec_get("negative_tags"@) {
            Some(n) => string_list(n),
            None => true,
        }) && limit_field(*value) is Some && policy_field(*value) is Some,
{
    let prompt = read_text(value, "prompt", "task request_json missing prompt")?;
    let tags = match value.get("tags") {
        Some(v) => read_string_list(v)?,
        None => return Err(AppError::validation("task request_json missing tags")),
    };
    let negative_tags = match value.get("negative_tags") {
        Some(v) => read_string_list(v)?,
        None => Vec::new(),
    };
    let limit = read_limit(value)?;
    let r18_policy = read_policy(value)?;
    let model_text = match value.get("model") {
        Some(v) => v.as_str(),
        None => None,
    };
    let model = match model_text {
        Some(m) => owned(m),
        None => owned("manual-tags"),
    };
    Ok(SmartDownloadRequest { prompt, tags, negative_tags, limit, r18_policy, model })
}

/// A local id: `<prefix>-<process id>-<nanoseconds>`.
pub open spec fn local_id(prefix: Seq<char>, process: nat, stamp: nat) -> Seq<char> {
    prefix + seq!['-'] + decimal(process) + seq!['-'] + decimal(stamp)
}

pub fn new_local_id(prefix: &str, process: u32, stamp: u128) -> (r: String)
    ensures
        r@ == local_id(prefix@, process as nat, stamp as nat),
{
    let mut out = owned(prefix);
    push_char(&mut out, '-');
    push_decimal(&mut out, process as u128);
    push_char(&mut out, '-');
    push_decimal(&mut out, stamp);
    out
}

/// The id of item `index` of a task: `<task_id>:item:<index>`.
pub open spec fn item_id(task_id: Seq<char>, index: nat) -> Seq<char> {
    task_id + ":item:"@ + decimal(index)
}

pub fn task_item_id(task_id: &str, index: usize) -> (r: String)
    ensures
        r@ == item_id(task_id@, index as nat),
{
    let mut out = owned(task_id);
    push_str(&mut out, ":item:");
    push_decimal(&mut out, index as u128);
    out
}


/// The error for a stored request that is not JSON.
pub open spec fn invalid_request_message(raw: Seq<char>) -> Seq<char> {
    "task request_json is invalid: "@ + json_error_text(raw)
}

fn request_document(raw: &str) -> (r: Result<JsonValue, AppError>)
    ensures
        match json_document(raw@) {
            Some(document) => r == Ok::<JsonValue, AppError>(document),
            None => r is Err && r->Err_0.code == ErrorCode::ValidationError && r->Err_0.message@
                == invalid_request_message(raw@),
        },
{
    match parse_json_text(raw) {
        Ok(document) => Ok(document),
        Err(reason) => {
            let mut message = owned("task request_json is invalid: ");
            push_str(&mut message, reason.as_str());
            Err(AppError::validation(message.as_str()))
        },
    }
}

/// A stored single download request, read back from its JSON text.
pub fn parse_single_request_json(raw: &str) -> (r: Result<DownloadRequest, AppError>)
    ensures
        json_document(raw@) is None ==> r is Err && r->Err_0.message@ == invalid_request_message(
            raw@,
        ),
        json_document(raw@) matches Some(d) ==> (r is Ok <==> text_field(d, "pixiv_id"@) is Some
            && page_field_ok(d) && (match text_field(d, "source"@) {
            Some(t) => ImageSource::parse(t) is Some,
            None => false,
        }) && policy_field(d) is Some),
        r matches Ok(q) ==> (json_document(raw@) matches Some(d) && text_field(d, "pixiv_id"@) == Some(
            q.pixiv_id@,
        ) && policy_field(d) == Some(q.r18_policy) && (match text_field(d, "source"@) {
            Some(t) => ImageSource::parse(t) == Some(q.source),
            None => false,
        })),
        r is Err ==> r->Err_0.code == ErrorCode::ValidationError,
{
    let document = request_document(raw)?;
    parse_single_request(&document)
}

/// A stored author request, read back from its JSON text.
pub fn parse_author_request_json(raw: &str) -> (r: Result<AuthorDownloadRequest, AppError>)
    ensures
        json_document(raw@) is None ==> r is Err && r->Err_0.message@ == invalid_request_message(
            raw@,
        ),
        json_document(raw@) matches Some(d) ==> (r is Ok <==> text_field(d, "author_uid"@) is Some
            && limit_field(d) is Some && policy_field(d) is Some),
        r matches Ok(a) ==> (json_document(raw@) matches Some(d) && text_field(d, "author_uid"@)
            == Some(a.author_uid@) && limit_field(d) == Some(a.limit) && policy_field(d) == Some(
            a.r18_policy,
        )),
        r is Err ==> r->Err_0.code == ErrorCode::ValidationError,
{
    let document = request_document(raw)?;
    parse_author_request(&document)
}

/// A stored bookmark request, read back from its JSON text.
pub fn parse_bookmark_request_json(raw: &str) -> (r: Result<BookmarkDownloadRequest, AppError>)
    ensures
        json_document(raw@) is None ==> r is Err && r->Err_0.message@ == invalid_request_message(
            raw@,
        ),
        json_document(raw@) matches Some(d) ==> (r is Ok <==> limit_field(d) is Some && policy_field(
            d,
        ) is Some),
        r matches Ok(b) ==> (json_document(raw@) matches Some(d) && limit_field(d) == Some(b.limit)
            && policy_field(d) == Some(b.r18_policy)),
        r is Err ==> r->Err_0.code == ErrorCode::ValidationError,
{
    let document = request_document(raw)?;
    parse_bookmark_request(&document)
}

/// A stored smart request, read back from its JSON text.
pub fn parse_smart_request_json(raw: &str) -> (r: Result<SmartDownloadRequest, AppError>)
    ensures
        json_document(raw@) is None ==> r is Err && r->Err_0.message@ == invalid_request_message(
            raw@,
        ),
        json_document(raw@) matches Some(d) ==> (r is Ok <==> text_field(d, "prompt"@) is Some && (
        d.spec_get("tags"@) matches Some(t) && string_list(t)) && (match d.spec_get(
            "negative_tags"@,
        ) {
            Some(n) => string_list(n),
            None => true,
        }) && limit_field(d) is Some && policy_field(d) is Some),
        r matches Ok(q) ==> (json_document(raw@) matches Some(d) && text_field(d, "prompt"@) == Some(
            q.prompt@,
        ) && limit_field(d) == Some(q.limit) && policy_field(d) == Some(q.r18_policy)
            && crate::tags::views(q.tags@) == request_tags(d, "tags"@) && crate::tags::views(
            q.negative_tags@,
        ) == request_tags(d, "negative_tags"@)),
        r is Err ==> r->Err_0.code == ErrorCode::ValidationError,
{
    let document = request_document(raw)?;
    parse_smart_request(&document)
}

} // verus!
