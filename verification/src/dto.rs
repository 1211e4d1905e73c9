//! The HTTP API's requests and responses, the checks that turn a request
//! into the domain's, and the builders that turn records into responses.
//! (Their wire forms are attached where the service is served.)
use vstd::prelude::*;

use crate::ai::SmartParseInput;
use crate::domain::{
    DownloadRequest, ImageCategory, ImageSource, R18Policy, TaskItemStatus, TaskStatus, TaskType,
};
use crate::errors::{AppError, ErrorCode};
use crate::images::{
    preview_url_for, ImageDeleteOutcome, ImageListQuery, ImageR18Visibility, ImageRecord,
    ImageSourceRecord,
};
use crate::runtime::{
    setting_r18_policy_or, setting_u32_or, DEFAULT_BATCH_COUNT, DEFAULT_DEEPSEEK_MODEL,
    DEFAULT_MAX_REQUEST_COUNT,
};
use crate::settings::SettingsRepository;
use crate::tags::{normalize_tag_list, normalized, views};
use crate::tasks::{
    AuthorDownloadRequest, BookmarkDownloadRequest, SmartDownloadRequest, TaskItemRecord,
    TaskListQuery, TaskLogRecord, TaskRecord,
};
use crate::text::{
    all_digit_chars, all_digits, is_blank, owned, parse_unsigned, parse_unsigned_str, str_equals,
    trim, trimmed,
};

verus! {

#[derive(Debug, Clone, PartialEq, Eq)]
pub struct SingleDownloadRequest {
    pub pixiv_id: String,
    pub page_index: Option<u32>,
    pub r18_policy: Option<String>,
}

#[derive(Debug, Clone, PartialEq, Eq)]
pub struct SingleDownloadResponse {
    pub task_id: String,
    pub image_id: Option<String>,
    pub download_status: String,
}

#[derive(Debug, Clone, PartialEq, Eq)]
pub struct AuthorDownloadApiRequest {
    pub author_uid: String,
    pub limit: Option<u32>,
    pub r18_policy: Option<String>,
}

#[derive(Debug, Clone, PartialEq, Eq)]
pub struct BookmarkDownloadApiRequest {
    pub limit: Option<u32>,
    pub r18_policy: Option<String>,
}

#[derive(Debug, Clone, PartialEq, Eq)]
pub struct SmartParseApiRequest {
    pub prompt: String,
    pub count: Option<u32>,
    pub r18_policy: Option<String>,
}

#[derive(Debug, Clone, PartialEq, Eq)]
pub struct SmartDownloadApiRequest {
    pub prompt: String,
    pub tags: Vec<String>,
    pub negative_tags: Option<Vec<String>>,
    pub count: Option<u32>,
    pub r18_policy: Option<String>,
    pub model: Option<String>,
}

#[derive(Debug, Clone, PartialEq, Eq)]
pub struct BatchDownloadResponse {
    pub task_id: String,
    pub download_status: String,
}

#[derive(Debug, Clone, PartialEq, Eq)]
pub struct TaskItemResponse {
    pub item_id: String,
    pub pixiv_id: Option<String>,
    pub page_index: Option<u32>,
    pub status: String,
    pub image_id: Option<String>,
    pub error_code: Option<String>,
    pub error_message: Option<String>,
    pub created_at: String,
    pub updated_at: String,
}

/// A log line; `context_json` is the stored context text, shown as JSON
/// when it is JSON and as a string otherwise.
#[derive(Debug, Clone, PartialEq, Eq)]
pub struct TaskLogResponse {
    pub log_id: String,
    pub level: String,
    pub phase: String,
    pub message: String,
    pub context_json: Option<String>,
    pub created_at: String,
}

#[derive(Debug, Clone, PartialEq, Eq)]
pub struct TaskResponse {
    pub task_id: String,
    pub task_type: String,
    pub status: String,
    pub progress_total: Option<u32>,
    pub progress_done: u32,
    pub progress_failed: u32,
    pub current_item: Option<String>,
    pub error_code: Option<String>,
    pub error_message: Option<String>,
    pub created_at: String,
    pub started_at: Option<String>,
    pub finished_at: Option<String>,
    pub updated_at: String,
    pub items: Vec<TaskItemResponse>,
    pub logs: Vec<TaskLogResponse>,
}

#[derive(Debug, Clone, PartialEq, Eq)]
pub struct TaskSummaryResponse {
    pub task_id: String,
    pub task_type: String,
    pub status: String,
    pub progress_total: Option<u32>,
    pub progress_done: u32,
    pub progress_failed: u32,
    pub current_item: Option<String>,
    pub error_code: Option<String>,
    pub error_message: Option<String>,
    pub created_at: String,
    pub started_at: Option<String>,
    pub finished_at: Option<String>,
    pub updated_at: String,
}

#[derive(Debug, Clone, PartialEq, Eq)]
pub struct TaskListResponse {
    pub items: Vec<TaskSummaryResponse>,
    pub next_cursor: Option<String>,
}

#[derive(Debug, Clone, PartialEq, Eq)]
pub struct TaskListParams {
    pub status: Option<String>,
    pub task_type: Option<String>,
    pub limit: Option<usize>,
    pub cursor: Option<String>,
}

#[derive(Debug, Clone, PartialEq, Eq)]
pub struct ImageListParams {
    pub tag: Option<String>,
    pub category: Option<String>,
    pub author_uid: Option<String>,
    pub source: Option<String>,
    pub r18_visibility: Option<String>,
    pub limit: Option<usize>,
    pub cursor: Option<String>,
}

#[derive(Debug, Clone, PartialEq, Eq)]
pub struct ImageSummaryResponse {
    pub image_id: String,
    pub pixiv_id: String,
    pub page_index: u32,
    pub title: Option<String>,
    pub author_uid: Option<String>,
    pub tags: Vec<String>,
    pub category: String,
    pub thumbnail_url: Option<String>,
    pub preview_url: Option<String>,
    pub width: Option<u32>,
    pub height: Option<u32>,
    pub downloaded_at: String,
    pub created_at: String,
}

#[derive(Debug, Clone, PartialEq, Eq)]
pub struct ImageListResponse {
    pub items: Vec<ImageSummaryResponse>,
    pub next_cursor: Option<String>,
}

#[derive(Debug, Clone, PartialEq, Eq)]
pub struct ImageSourceResponse {
    pub source: String,
    pub task_id: Option<String>,
    pub created_at: String,
}

#[derive(Debug, Clone, PartialEq, Eq)]
pub struct ImageDetailResponse {
    pub image_id: String,
    pub pixiv_id: String,
    pub page_index: u32,
    pub title: Option<String>,
    pub author_uid: Option<String>,
    pub tags: Vec<String>,
    pub sources: Vec<ImageSourceResponse>,
    pub category: String,
    pub thumbnail_url: Option<String>,
    pub preview_url: Option<String>,
    pub width: Option<u32>,
    pub height: Option<u32>,
    pub downloaded_at: String,
    pub created_at: String,
    pub updated_at: String,
}

#[derive(Debug, Clone, PartialEq, Eq)]
pub struct ImageDeleteBatchRequest {
    pub image_ids: Vec<String>,
}

#[derive(Debug, Clone, PartialEq, Eq)]
pub struct ImageDeleteItemResponse {
    pub image_id: String,
    pub status: String,
    pub pixiv_id: Option<String>,
    pub page_index: Option<u32>,
    pub file_deleted: bool,
    pub file_missing: bool,
    pub error_code: Option<String>,
    pub error_message: Option<String>,
}

#[derive(Debug, Clone, PartialEq, Eq)]
pub struct ImageDeleteBatchResponse {
    pub items: Vec<ImageDeleteItemResponse>,
    pub deleted_count: u32,
    pub failed_count: u32,
}

/// A setting on the wire; `value_json` is the stored JSON text (a secret's is the mask).
#[derive(Debug, Clone, PartialEq, Eq)]
pub struct SettingResponse {
    pub key: String,
    pub value_json: String,
    pub is_secret: bool,
    pub updated_at: String,
}

#[derive(Debug, Clone, PartialEq, Eq)]
pub struct SettingsListResponse {
    pub items: Vec<SettingResponse>,
}

#[derive(Debug, Clone, PartialEq, Eq)]
pub struct PixivConnectionTestRequest {
    pub pixiv_id: Option<String>,
}

#[derive(Debug, Clone, PartialEq, Eq)]
pub struct PixivConnectionTestResponse {
    pub configured: bool,
    pub status: String,
    pub pixiv_id: Option<String>,
    pub title: Option<String>,
    pub user_uid: Option<String>,
    pub user_name: Option<String>,
    pub bound: bool,
}

#[derive(Debug, Clone, PartialEq, Eq)]
pub struct DeepSeekConnectionTestResponse {
    pub configured: bool,
    pub status: String,
    pub model: String,
}

#[derive(Debug, Clone, PartialEq, Eq)]
pub struct HealthResponse {
    pub status: String,
}

#[derive(Debug, Clone, PartialEq, Eq)]
pub struct RuntimeReadinessActionResponse {
    pub label: String,
    pub href: Option<String>,
    pub action: Option<String>,
}

#[derive(Debug, Clone, PartialEq, Eq)]
pub struct RuntimeReadinessCheckResponse {
    pub ok: bool,
    pub status: String,
    pub message: String,
    pub recommendation: Option<String>,
    pub action: Option<RuntimeReadinessActionResponse>,
    pub error_code: Option<String>,
    pub latency_ms: Option<u128>,
}

#[derive(Debug, Clone, PartialEq, Eq)]
pub struct PixivAccountResponse {
    pub user_uid: String,
    pub user_name: Option<String>,
    pub is_active: bool,
    pub last_verified_at: String,
    pub created_at: String,
    pub updated_at: String,
}

#[derive(Debug, Clone, PartialEq, Eq)]
pub struct RuntimePixivAccountReadinessResponse {
    pub ok: bool,
    pub status: String,
    pub message: String,
    pub recommendation: Option<String>,
    pub action: Option<RuntimeReadinessActionResponse>,
    pub error_code: Option<String>,
    pub latency_ms: Option<u128>,
    pub account: Option<PixivAccountResponse>,
}

#[derive(Debug, Clone, PartialEq, Eq)]
pub struct RuntimeReadinessResponse {
    pub backend: RuntimeReadinessCheckResponse,
    pub pixiv_network: RuntimeReadinessCheckResponse,
    pub pixiv_account: RuntimePixivAccountReadinessResponse,
    pub deepseek: RuntimeReadinessCheckResponse,
}

#[derive(Debug, Clone, PartialEq, Eq)]
pub struct PixivAccountsListResponse {
    pub items: Vec<PixivAccountResponse>,
    pub active: Option<PixivAccountResponse>,
}

#[derive(Debug, Clone, PartialEq, Eq)]
pub struct PixivAccountActivateRequest {
    pub user_uid: String,
}

#[derive(Debug, Clone, PartialEq, Eq)]
pub struct PixivAccountDeleteResponse {
    pub deleted: bool,
}

/// The policy a request names, or `Exclude` when it names none.
pub open spec fn requested_policy(value: Option<String>) -> Option<R18Policy> {
    match value {
        Some(v) => R18Policy::parse(v@),
        None => Some(R18Policy::Exclude),
    }
}

fn policy_or_exclude(value: &Option<String>) -> (r: Result<R18Policy, AppError>)
    ensures
        match requested_policy(*value) {
            Some(p) => r == Ok::<R18Policy, AppError>(p),
            None => r is Err && r->Err_0.code == ErrorCode::ValidationError && r->Err_0.message@
                == "r18_policy is invalid"@,
        },
{
    match value {
        Some(v) => match R18Policy::from_api(v.as_str()) {
            Some(p) => Ok(p),
            None => Err(AppError::validation("r18_policy is invalid")),
        },
        None => Ok(R18Policy::Exclude),
    }
}

/// Why a single download request is refused, if it is.
pub open spec fn single_request_refusal(request: SingleDownloadRequest) -> Option<Seq<char>> {
    let id = trimmed(request.pixiv_id@);
    if id.len() == 0 {
        Some("pixiv_id cannot be empty"@)
    } else if !all_digits(id) {
        Some("pixiv_id must contain only digits"@)
    } else if requested_policy(request.r18_policy) is None {
        Some("r18_policy is invalid"@)
    } else {
        None
    }
}

impl SingleDownloadRequest {
    /// The domain request: the id trimmed and all digits, the policy named
    /// or `Exclude`, the source `single`.
    pub fn into_domain_request(self) -> (r: Result<DownloadRequest, AppError>)
        ensures
            match single_request_refusal(self) {
                Some(m) => r is Err && r->Err_0.code == ErrorCode::ValidationError
                    && r->Err_0.message@ == m,
                None => r is Ok && r->Ok_0.pixiv_id@ == trimmed(self.pixiv_id@)
                    && r->Ok_0.page_index == self.page_index && r->Ok_0.source
                    == ImageSource::Single && Some(r->Ok_0.r18_policy) == requested_policy(
                    self.r18_policy,
                ),
            },
    {
        let pixiv_id = trim(self.pixiv_id.as_str());
        proof {
            crate::text::lemma_trimmed_empty_iff(pixiv_id@);
            crate::text::lemma_trim_idempotent(self.pixiv_id@);
        }
        if is_blank(pixiv_id.as_str()) {
            return Err(AppError::validation("pixiv_id cannot be empty"));
        }
        if !all_digit_chars(pixiv_id.as_str()) {
            return Err(AppError::validation("pixiv_id must contain only digits"));
        }
        let r18_policy = policy_or_exclude(&self.r18_policy)?;
        Ok(
            DownloadRequest {
                pixiv_id,
                page_index: self.page_index,
                source: ImageSource::Single,
                r18_policy,
            },
        )
    }
}

/// The batch size a request gets: the asked count (or the default) capped
/// at the maximum; refused when the maximum is 0, the result is 0, or more
/// than the maximum was asked.  `noun` is how the request calls the count.
pub open spec fn batch_size(requested: Option<u32>, default_count: u32, max_count: u32, noun: Seq<
    char,
>) -> Result<u32, Seq<char>> {
    let wanted = match requested {
        Some(r) => r,
        None => default_count,
    };
    let size = if wanted < max_count {
        wanted
    } else {
        max_count
    };
    if max_count == 0 {
        Err("max_request_count must be at least 1"@)
    } else if size == 0 {
        Err(noun + " must be at least 1"@)
    } else if requested matches Some(r) && r > max_count {
        Err(noun + " cannot exceed max_request_count"@)
    } else {
        Ok(size)
    }
}

pub fn resolve_batch_size(requested: Option<u32>, default_count: u32, max_count: u32, noun: &str) -> (r:
    Result<u32, AppError>)
    ensures
        match batch_size(requested, default_count, max_count, noun@) {
            Ok(n) => r == Ok::<u32, AppError>(n),
            Err(m) => r is Err && r->Err_0.code == ErrorCode::ValidationError && r->Err_0.message@
                == m,
        },
{
    if max_count == 0 {
        return Err(AppError::validation("max_request_count must be at least 1"));
    }
    let wanted = match requested {
        Some(r) => r,
        None => default_count,
    };
    let size = if wanted < max_count {
        wanted
    } else {
        max_count
    };
    if size == 0 {
        let mut message = owned(noun);
        crate::text::push_str(&mut message, " must be at least 1");
        return Err(AppError::validation(message.as_str()));
    }
    if let Some(r) = requested {
        if r > max_count {
            let mut message = owned(noun);
            crate::text::push_str(&mut message, " cannot exceed max_request_count");
            return Err(AppError::validation(message.as_str()));
        }
    }
    Ok(size)
}

/// The batch size from the settings' default and maximum.
fn size_from_settings(settings: &SettingsRepository, requested: Option<u32>, noun: &str) -> (r:
    Result<u32, AppError>)
    ensures
        r matches Ok(n) ==> n > 0 && (requested matches Some(q) ==> n == q),
        r matches Ok(n) ==> exists|default_count: u32, max_count: u32|
            #[trigger] batch_size(requested, default_count, max_count, noun@) == Ok::<u32, Seq<char>>(n),
{
    let max_count = setting_u32_or(settings, "max_request_count", DEFAULT_MAX_REQUEST_COUNT)?;
    if max_count == 0 {
        return Err(AppError::validation("max_request_count must be at least 1"));
    }
    let default_count = setting_u32_or(settings, "default_batch_count", DEFAULT_BATCH_COUNT)?;
    resolve_batch_size(requested, default_count, max_count, noun)
}

/// The policy a request names, or the stored default.
fn policy_or_setting(settings: &SettingsRepository, value: &Option<String>) -> (r: Result<
    R18Policy,
    AppError,
>)
    ensures
        value matches Some(v) ==> match R18Policy::parse(v@) {
            Some(p) => r == Ok::<R18Policy, AppError>(p),
            None => r is Err && r->Err_0.message@ == "r18_policy is invalid"@,
        },
{
    match value {
        Some(v) => match R18Policy::from_api(v.as_str()) {
            Some(p) => Ok(p),
            None => Err(AppError::validation("r18_policy is invalid")),
        },
        None => setting_r18_policy_or(settings, R18Policy::Exclude),
    }
}

impl AuthorDownloadApiRequest {
    /// The author request: the uid trimmed and all digits, the limit from
    /// the request or the settings, the policy named or the stored one.
    pub fn into_author_request(self, conn: &rusqlite::Connection) -> (r: Result<
        AuthorDownloadRequest,
        AppError,
    >)
        ensures
            trimmed(self.author_uid@).len() == 0 ==> r is Err && r->Err_0.message@
                == "author_uid cannot be empty"@,
            trimmed(self.author_uid@).len() > 0 && !all_digits(trimmed(self.author_uid@)) ==> r is Err
                && r->Err_0.message@ == "author_uid must contain only digits"@,
            r matches Ok(a) ==> a.author_uid@ == trimmed(self.author_uid@) && a.limit > 0 && (
            self.limit matches Some(q) ==> a.limit == q),
            r matches Ok(a) ==> exists|default_count: u32, max_count: u32|
                #[trigger] batch_size(self.limit, default_count, max_count, "limit"@) == Ok::<
                    u32,
                    Seq<char>,
                >(a.limit),
    {
        let author_uid = trim(self.author_uid.as_str());
        proof {
            crate::text::lemma_trimmed_empty_iff(author_uid@);
            crate::text::lemma_trim_idempotent(self.author_uid@);
        }
        if is_blank(author_uid.as_str()) {
            return Err(AppError::validation("author_uid cannot be empty"));
        }
        if !all_digit_chars(author_uid.as_str()) {
            return Err(AppError::validation("author_uid must contain only digits"));
        }
        let settings = SettingsRepository::new(conn);
        let limit = size_from_settings(&settings, self.limit, "limit")?;
        let r18_policy = policy_or_setting(&settings, &self.r18_policy)?;
        Ok(AuthorDownloadRequest { author_uid, limit, r18_policy })
    }
}

impl BookmarkDownloadApiRequest {
    /// The bookmark request: the limit from the request or the settings, the
    /// policy named or the stored one.
    pub fn into_bookmark_request(self, conn: &rusqlite::Connection) -> (r: Result<
        BookmarkDownloadRequest,
        AppError,
    >)
        ensures
            r matches Ok(b) ==> b.limit > 0 && (self.limit matches Some(q) ==> b.limit == q),
            r matches Ok(b) ==> exists|default_count: u32, max_count: u32|
                #[trigger] batch_size(self.limit, default_count, max_count, "limit"@) == Ok::<
                    u32,
                    Seq<char>,
                >(b.limit),
    {
        let settings = SettingsRepository::new(conn);
        let limit = size_from_settings(&settings, self.limit, "limit")?;
        let r18_policy = policy_or_setting(&settings, &self.r18_policy)?;
        Ok(BookmarkDownloadRequest { limit, r18_policy })
    }
}

/// Why a prompt is refused: blank, or longer than 2000 characters once trimmed.
pub open spec fn prompt_refusal(prompt: Seq<char>) -> Option<Seq<char>> {
    if trimmed(prompt).len() == 0 {
        Some("prompt cannot be empty"@)
    } else if trimmed(prompt).len() > 2000 {
        Some("prompt cannot exceed 2000 characters"@)
    } else {
        None
    }
}

fn checked_prompt(prompt: &str) -> (r: Result<String, AppError>)
    ensures
        match prompt_refusal(prompt@) {
            Some(m) => r is Err && r->Err_0.code == ErrorCode::ValidationError && r->Err_0.message@
                == m,
            None => r is Ok && r->Ok_0@ == trimmed(prompt@),
        },
{
    let text = trim(prompt);
    proof {
        crate::text::lemma_trimmed_empty_iff(text@);
        crate::text::lemma_trim_idempotent(prompt@);
    }
    if is_blank(text.as_str()) {
        return Err(AppError::validation("prompt cannot be empty"));
    }
    if text.unicode_len() > 2000 {
        return Err(AppError::validation("prompt cannot exceed 2000 characters"));
    }
    Ok(text)
}

impl SmartParseApiRequest {
    /// The parser's input: the prompt trimmed (1 to 2000 characters), the
    /// count hint from the request or the settings, the policy named or stored.
    pub fn into_smart_parse_input(self, conn: &rusqlite::Connection) -> (r: Result<
        SmartParseInput,
        AppError,
    >)
        ensures
            prompt_refusal(self.prompt@) matches Some(m) ==> (r matches Err(e) && e.message@ == m),
            r matches Ok(i) ==> i.prompt@ == trimmed(self.prompt@) && i.count_hint > 0
                && i.count_hint <= i.max_count && (self.count matches Some(q) ==> i.count_hint
                == q),
    {
        let prompt = checked_prompt(self.prompt.as_str())?;
        let settings = SettingsRepository::new(conn);
        let max_count = setting_u32_or(&settings, "max_request_count", DEFAULT_MAX_REQUEST_COUNT)?;
        if max_count == 0 {
            return Err(AppError::validation("max_request_count must be at least 1"));
        }
        let default_count = setting_u32_or(&settings, "default_batch_count", DEFAULT_BATCH_COUNT)?;
        let count_hint = resolve_batch_size(self.count, default_count, max_count, "count")?;
        let r18_policy = policy_or_setting(&settings, &self.r18_policy)?;
        Ok(SmartParseInput { prompt, count_hint, max_count, r18_policy })
    }
}

/// Tags from the API: trimmed, without blanks or repeats, at most twelve.
pub fn normalize_api_tags(tags: Vec<String>) -> (r: Vec<String>)
    ensures
        views(r@) == normalized(views(tags@)),
{
    normalize_tag_list(&tags)
}

impl SmartDownloadApiRequest {
    /// The smart request: the prompt trimmed (1 to 2000 characters), the tags
    /// normalised (at least one), the count from the request or the
    /// settings, the policy named or stored, the model named or the default.
    pub fn into_smart_download_request(self, conn: &rusqlite::Connection) -> (r: Result<
        SmartDownloadRequest,
        AppError,
    >)
        ensures
            prompt_refusal(self.prompt@) matches Some(m) ==> (r matches Err(e) && e.message@ == m),
            prompt_refusal(self.prompt@) is None && normalized(views(self.tags@)).len() == 0 ==> (r matches Err(e) && e.message@ == "tags cannot be empty"@),
            r matches Ok(s) ==> s.prompt@ == trimmed(self.prompt@) && views(s.tags@) == normalized(
                views(self.tags@),
            ) && s.limit > 0 && (self.count matches Some(q) ==> s.limit == q),
            // The count is the batch size the stored default and maximum give it.
            r matches Ok(s) ==> exists|default_count: u32, max_count: u32|
                #[trigger] batch_size(self.count, default_count, max_count, "count"@) == Ok::<
                    u32,
                    Seq<char>,
                >(s.limit),
            r matches Ok(s) ==> views(s.negative_tags@) == match self.negative_tags {
                Some(n) => normalized(views(n@)),
                None => Seq::<Seq<char>>::empty(),
            } && s.model@ == match self.model {
                Some(m) => if trimmed(m@).len() > 0 {
                    trimmed(m@)
                } else {
                    DEFAULT_DEEPSEEK_MODEL@
                },
                None => DEFAULT_DEEPSEEK_MODEL@,
            },
    {
        let prompt = checked_prompt(self.prompt.as_str())?;
        let tags = normalize_api_tags(self.tags);
        if tags.len() == 0 {
            return Err(AppError::validation("tags cannot be empty"));
        }
        let negative_tags = match self.negative_tags {
            Some(list) => normalize_api_tags(list),
            None => Vec::new(),
        };
        let settings = SettingsRepository::new(conn);
        let limit = size_from_settings(&settings, self.count, "count")?;
        let r18_policy = policy_or_setting(&settings, &self.r18_policy)?;
        let model = match self.model {
            Some(value) => {
                if is_blank(value.as_str()) {
                    owned(DEFAULT_DEEPSEEK_MODEL)
                } else {
                    trim(value.as_str())
                }
            },
            None => owned(DEFAULT_DEEPSEEK_MODEL),
        };
        Ok(SmartDownloadRequest { prompt, tags, negative_tags, limit, r18_policy, model })
    }
}

/// A list cursor: blank or absent is the start; otherwise an offset as
/// `str::parse::<usize>` reads it.
pub open spec fn offset_cursor(cursor: Option<String>) -> Option<nat> {
    match cursor {
        Some(c) if trimmed(c@).len() > 0 => parse_unsigned(c@, usize::MAX as nat),
        _ => Some(0),
    }
}

pub fn parse_offset_cursor(cursor: Option<String>) -> (r: Result<usize, AppError>)
    ensures
        match offset_cursor(cursor) {
            Some(n) => r is Ok && r->Ok_0 as nat == n,
            None => r is Err && r->Err_0.code == ErrorCode::ValidationError && r->Err_0.message@
                == "cursor is invalid"@,
        },
{
    match cursor {
        Some(c) => {
            proof {
                crate::text::lemma_trimmed_empty_iff(c@);
            }
            if is_blank(c.as_str()) {
                return Ok(0);
            }
            match parse_unsigned_str(c.as_str(), usize::MAX as u64) {
                Some(n) => Ok(n as usize),
                None => Err(AppError::validation("cursor is invalid")),
            }
        },
        None => Ok(0),
    }
}

/// A requested list size clamped to `1..=100`, with a default when absent.
pub open spec fn clamped_limit(limit: Option<usize>, default_limit: usize) -> usize {
    let l = match limit {
        Some(l) => l,
        None => default_limit,
    };
    if l < 1 {
        1
    } else if l > 100 {
        100
    } else {
        l
    }
}

fn clamp_requested(limit: Option<usize>, default_limit: usize) -> (r: usize)
    ensures
        r == clamped_limit(limit, default_limit),
{
    let l = match limit {
        Some(l) => l,
        None => default_limit,
    };
    if l < 1 {
        1
    } else if l > 100 {
        100
    } else {
        l
    }
}

impl TaskListParams {
    /// The repository query: known status and type filters, limit 1 to 100
    /// (20 by default), the cursor as an offset.
    pub fn into_repository_query(self) -> (r: Result<TaskListQuery, AppError>)
        ensures
            self.status matches Some(s) && TaskStatus::parse(s@) is None ==> (r matches Err(e)
                && e.message@ == "task status filter is invalid"@),
            r matches Ok(q) ==> q.limit == clamped_limit(self.limit, 20) && (match self.status {
                Some(s) => q.status == TaskStatus::parse(s@),
                None => q.status is None,
            }) && (match self.task_type {
                Some(t) => q.task_type == TaskType::parse(t@),
                None => q.task_type is None,
            }) && offset_cursor(self.cursor) == Some(q.cursor_offset as nat),
    {
        let status = match &self.status {
            Some(value) => match TaskStatus::from_db(value.as_str()) {
                Some(s) => Some(s),
                None => return Err(AppError::validation("task status filter is invalid")),
            },
            None => None,
        };
        let task_type = match &self.task_type {
            Some(value) => match TaskType::from_db(value.as_str()) {
                Some(t) => Some(t),
                None => return Err(AppError::validation("task type filter is invalid")),
            },
            None => None,
        };
        let limit = clamp_requested(self.limit, 20);
        let cursor_offset = parse_offset_cursor(self.cursor)?;
        Ok(TaskListQuery { status, task_type, limit, cursor_offset })
    }
}

/// The gallery visibility a filter names (`exclude` when absent).
pub open spec fn visibility_named(value: Option<String>) -> Option<ImageR18Visibility> {
    let v = match value {
        Some(v) => v@,
        None => "exclude"@,
    };
    if v == "include"@ {
        Some(ImageR18Visibility::Include)
    } else if v == "exclude"@ {
        Some(ImageR18Visibility::Exclude)
    } else if v == "only_r18"@ {
        Some(ImageR18Visibility::OnlyR18)
    } else {
        None
    }
}

impl ImageListParams {
    /// Why these filters are refused, if they are: an unknown category,
    /// source or visibility, or a cursor that is not an offset.
    pub open spec fn refusal(self) -> Option<Seq<char>> {
        if self.category matches Some(c) && ImageCategory::parse(c@) is None {
            Some("image category filter is invalid"@)
        } else if self.source matches Some(s) && ImageSource::parse(s@) is None {
            Some("image source filter is invalid"@)
        } else if visibility_named(self.r18_visibility) is None {
            Some("r18_visibility filter is invalid"@)
        } else if offset_cursor(self.cursor) is None {
            Some("cursor is invalid"@)
        } else {
            None
        }
    }

    /// The repository query: known category, source and visibility filters,
    /// limit 1 to 100 (24 by default), the cursor as an offset.
    pub fn into_repository_query(self) -> (r: Result<ImageListQuery, AppError>)
        ensures
            match self.refusal() {
                Some(m) => r is Err && r->Err_0.code == ErrorCode::ValidationError
                    && r->Err_0.message@ == m,
                None => r is Ok,
            },
            r matches Ok(q) ==> q.limit == clamped_limit(self.limit, 24) && Some(q.r18_visibility)
                == visibility_named(self.r18_visibility) && (match self.category {
                Some(c) => q.category == ImageCategory::parse(c@),
                None => q.category is None,
            }) && (match self.source {
                Some(s) => q.source == ImageSource::parse(s@),
                None => q.source is None,
            }) && q.tag == self.tag && q.author_uid == self.author_uid && offset_cursor(
                self.cursor,
            ) == Some(q.cursor_offset as nat),
    {
        let category = match &self.category {
            Some(value) => match ImageCategory::from_db(value.as_str()) {
                Some(c) => Some(c),
                None => return Err(AppError::validation("image category filter is invalid")),
            },
            None => None,
        };
        let source = match &self.source {
            Some(value) => match ImageSource::from_db(value.as_str()) {
                Some(s) => Some(s),
                None => return Err(AppError::validation("image source filter is invalid")),
            },
            None => None,
        };
        let named: &str = match &self.r18_visibility {
            Some(v) => v.as_str(),
            None => "exclude",
        };
        let r18_visibility = if str_equals(named, "include") {
            ImageR18Visibility::Include
        } else if str_equals(named, "exclude") {
            ImageR18Visibility::Exclude
        } else if str_equals(named, "only_r18") {
            ImageR18Visibility::OnlyR18
        } else {
            return Err(AppError::validation("r18_visibility filter is invalid"));
        };
        let limit = clamp_requested(self.limit, 24);
        let cursor_offset = parse_offset_cursor(self.cursor)?;
        Ok(
            ImageListQuery {
                tag: self.tag,
                category,
                author_uid: self.author_uid,
                source,
                r18_visibility,
                limit,
                cursor_offset,
            },
        )
    }
}

/// The ids of a delete request: trimmed, first occurrences in order.
pub open spec fn distinct_trimmed(ids: Seq<Seq<char>>) -> Seq<Seq<char>>
    decreases ids.len(),
{
    if ids.len() == 0 {
        Seq::empty()
    } else {
        let acc = distinct_trimmed(ids.drop_last());
        let t = trimmed(ids.last());
        if acc.contains(t) {
            acc
        } else {
            acc.push(t)
        }
    }
}

/// Why a delete request's ids are refused, if they are.
pub open spec fn delete_ids_refusal(ids: Seq<Seq<char>>) -> Option<Seq<char>> {
    if exists|i: int| 0 <= i < ids.len() && trimmed(#[trigger] ids[i]).len() == 0 {
        Some("image_ids cannot contain empty values"@)
    } else if distinct_trimmed(ids).len() == 0 {
        Some("image_ids cannot be empty"@)
    } else if distinct_trimmed(ids).len() > 100 {
        Some("image_ids cannot contain more than 100 items"@)
    } else {
        None
    }
}

/// The ids a batch delete works on.
pub fn normalize_image_delete_ids(image_ids: Vec<String>) -> (r: Result<Vec<String>, AppError>)
    ensures
        match delete_ids_refusal(views(image_ids@)) {
            Some(m) => r is Err && r->Err_0.code == ErrorCode::ValidationError && r->Err_0.message@
                == m,
            None => r is Ok && views(r->Ok_0@) == distinct_trimmed(views(image_ids@)),
        },
{
    let mut normalized_ids: Vec<String> = Vec::new();
    let mut i: usize = 0;
    while i < image_ids.len()
        invariant
            i <= image_ids@.len(),
            views(normalized_ids@) == distinct_trimmed(views(image_ids@).take(i as int)),
            forall|j: int| 0 <= j < i ==> trimmed(#[trigger] image_ids@[j]@).len() > 0,
        decreases image_ids.len() - i,
    {
        let t = trim(image_ids[i].as_str());
        proof {
            crate::text::lemma_trimmed_empty_iff(t@);
            crate::text::lemma_trim_idempotent(image_ids@[i as int]@);
            assert(views(image_ids@)[i as int] == image_ids@[i as int]@);
        }
        if is_blank(t.as_str()) {
            assert(trimmed(views(image_ids@)[i as int]).len() == 0);
            return Err(AppError::validation("image_ids cannot contain empty values"));
        }
        let mut present = false;
        let mut k: usize = 0;
        while k < normalized_ids.len()
            invariant
                k <= normalized_ids@.len(),
                present <==> exists|x: int| 0 <= x < k && normalized_ids@[x]@ == t@,
            decreases normalized_ids.len() - k,
        {
            if str_equals(normalized_ids[k].as_str(), t.as_str()) {
                present = true;
            }
            k += 1;
        }
        let ghost prefix = views(image_ids@).take(i as int);
        assert(views(image_ids@).take(i + 1) =~= prefix.push(image_ids@[i as int]@));
        assert(views(image_ids@).take(i + 1).drop_last() =~= prefix);
        proof {
            if present {
                let x = choose|x: int| 0 <= x < k && normalized_ids@[x]@ == t@;
                assert(views(normalized_ids@)[x] == t@);
            } else {
                assert forall|x: int| 0 <= x < views(normalized_ids@).len() implies views(
                    normalized_ids@,
                )[x] != t@ by {
                    assert(views(normalized_ids@)[x] == normalized_ids@[x]@);
                }
            }
        }
        if !present {
            normalized_ids.push(t);
            assert(views(normalized_ids@) =~= distinct_trimmed(prefix).push(trimmed(image_ids@[i as int]@)));
        }
        i += 1;
    }
    assert(views(image_ids@).take(i as int) =~= views(image_ids@));
    if normalized_ids.len() == 0 {
        return Err(AppError::validation("image_ids cannot be empty"));
    }
    if normalized_ids.len() > 100 {
        return Err(AppError::validation("image_ids cannot contain more than 100 items"));
    }
    Ok(normalized_ids)
}

/// A task as listed.
pub fn task_summary_response(task: TaskRecord) -> (r: TaskSummaryResponse)
    ensures
        r.task_id == task.task_id,
        r.task_type@ == task.task_type.name(),
        r.status@ == task.status.name(),
        r.progress_total == task.progress_total,
        r.progress_done == task.progress_done,
        r.progress_failed == task.progress_failed,
        r.current_item == task.current_item,
        r.error_code == task.error_code,
        r.error_message == task.error_message,
        r.created_at == task.created_at,
        r.started_at == task.started_at,
        r.finished_at == task.finished_at,
        r.updated_at == task.updated_at,
{
    TaskSummaryResponse {
        task_id: task.task_id,
        task_type: owned(task.task_type.as_str()),
        status: owned(task.status.as_str()),
        progress_total: task.progress_total,
        progress_done: task.progress_done,
        progress_failed: task.progress_failed,
        current_item: task.current_item,
        error_code: task.error_code,
        error_message: task.error_message,
        created_at: task.created_at,
        started_at: task.started_at,
        finished_at: task.finished_at,
        updated_at: task.updated_at,
    }
}

/// A task item as shown.
pub fn task_item_response(item: TaskItemRecord) -> (r: TaskItemResponse)
    ensures
        r.item_id == item.item_id,
        r.pixiv_id == item.pixiv_id,
        r.page_index == item.page_index,
        r.status@ == item.status.name(),
        r.image_id == item.image_id,
        r.error_code == item.error_code,
        r.error_message == item.error_message,
        r.created_at == item.created_at,
        r.updated_at == item.updated_at,
{
    TaskItemResponse {
        item_id: item.item_id,
        pixiv_id: item.pixiv_id,
        page_index: item.page_index,
        status: owned(item.status.as_str()),
        image_id: item.image_id,
        error_code: item.error_code,
        error_message: item.error_message,
        created_at: item.created_at,
        updated_at: item.updated_at,
    }
}

/// A task log line as shown.
pub fn task_log_response(log: TaskLogRecord) -> (r: TaskLogResponse)
    ensures
        r.log_id == log.log_id,
        r.level@ == log.level.name(),
        r.phase == log.phase,
        r.message == log.message,
        r.context_json == log.context_json,
        r.created_at == log.created_at,
{
    TaskLogResponse {
        log_id: log.log_id,
        level: owned(log.level.as_str()),
        phase: log.phase,
        message: log.message,
        context_json: log.context_json,
        created_at: log.created_at,
    }
}

/// A task with its items and logs, in order.
pub fn task_response(task: TaskRecord, items: Vec<TaskItemRecord>, logs: Vec<TaskLogRecord>) -> (r:
    TaskResponse)
    ensures
        r.task_id == task.task_id,
        r.status@ == task.status.name(),
        r.items@.len() == items@.len(),
        forall|i: int| 0 <= i < items@.len() ==> (#[trigger] r.items@[i]).item_id == items@[i].item_id
            && r.items@[i].status@ == items@[i].status.name(),
        r.logs@.len() == logs@.len(),
{
    let summary = task_summary_response(task);
    let mut item_responses: Vec<TaskItemResponse> = Vec::new();
    let mut items = items;
    let ghost all_items = items@;
    let mut i: usize = 0;
    while i < items.len()
        invariant
            items@ == all_items,
            i <= items@.len(),
            item_responses@.len() == i,
            forall|j: int| 0 <= j < i ==> (#[trigger] item_responses@[j]).item_id == all_items[j].item_id
                && item_responses@[j].status@ == all_items[j].status.name(),
        decreases items.len() - i,
    {
        let item = items[i].clone_item();
        item_responses.push(task_item_response(item));
        i += 1;
    }
    let mut log_responses: Vec<TaskLogResponse> = Vec::new();
    let mut k: usize = 0;
    while k < logs.len()
        invariant
            k <= logs@.len(),
            log_responses@.len() == k,
        decreases logs.len() - k,
    {
        log_responses.push(task_log_response(logs[k].clone_log()));
        k += 1;
    }
    TaskResponse {
        task_id: summary.task_id,
        task_type: summary.task_type,
        status: summary.status,
        progress_total: summary.progress_total,
        progress_done: summary.progress_done,
        progress_failed: summary.progress_failed,
        current_item: summary.current_item,
        error_code: summary.error_code,
        error_message: summary.error_message,
        created_at: summary.created_at,
        started_at: summary.started_at,
        finished_at: summary.finished_at,
        updated_at: summary.updated_at,
        items: item_responses,
        logs: log_responses,
    }
}

/// An image as the gallery lists it: its preview (and thumbnail) is the
/// file URL of its id, never its local path.
pub fn image_summary_response(image: ImageRecord, tags: Vec<String>) -> (r: ImageSummaryResponse)
    ensures
        r.image_id == image.image_id,
        r.pixiv_id == image.pixiv_id,
        r.page_index == image.page_index,
        r.tags == tags,
        r.category@ == image.category.name(),
        r.preview_url matches Some(u) && u@ == crate::images::preview_url(image.image_id@),
        r.thumbnail_url matches Some(u) && u@ == crate::images::preview_url(image.image_id@),
{
    let image_url = preview_url_for(image.image_id.as_str());
    ImageSummaryResponse {
        image_id: image.image_id,
        preview_url: Some(image_url.clone()),
        thumbnail_url: Some(image_url),
        pixiv_id: image.pixiv_id,
        page_index: image.page_index,
        title: image.title,
        author_uid: image.author_uid,
        tags,
        category: owned(image.category.as_str()),
        width: image.width,
        height: image.height,
        downloaded_at: image.downloaded_at,
        created_at: image.created_at,
    }
}

/// An image with its tags and provenance.
pub fn image_detail_response(image: ImageRecord, tags: Vec<String>, sources: Vec<ImageSourceRecord>) -> (r:
    ImageDetailResponse)
    ensures
        r.image_id == image.image_id,
        r.tags == tags,
        r.sources@.len() == sources@.len(),
        forall|i: int| 0 <= i < sources@.len() ==> (#[trigger] r.sources@[i]).source@
            == sources@[i].source.name(),
        r.preview_url matches Some(u) && u@ == crate::images::preview_url(image.image_id@),
{
    let image_url = preview_url_for(image.image_id.as_str());
    let mut source_responses: Vec<ImageSourceResponse> = Vec::new();
    let mut i: usize = 0;
    while i < sources.len()
        invariant
            i <= sources@.len(),
            source_responses@.len() == i,
            forall|j: int| 0 <= j < i ==> (#[trigger] source_responses@[j]).source@
                == sources@[j].source.name(),
        decreases sources.len() - i,
    {
        let source = &sources[i];
        source_responses.push(
            ImageSourceResponse {
                source: owned(source.source.as_str()),
                task_id: source.task_id.clone(),
                created_at: source.created_at.clone(),
            },
        );
        i += 1;
    }
    ImageDetailResponse {
        image_id: image.image_id,
        preview_url: Some(image_url.clone()),
        thumbnail_url: Some(image_url),
        pixiv_id: image.pixiv_id,
        page_index: image.page_index,
        title: image.title,
        author_uid: image.author_uid,
        tags,
        sources: source_responses,
        category: owned(image.category.as_str()),
        width: image.width,
        height: image.height,
        downloaded_at: image.downloaded_at,
        created_at: image.created_at,
        updated_at: image.updated_at,
    }
}

/// The entry of a deleted image in a batch delete.
pub fn image_delete_success_response(outcome: ImageDeleteOutcome) -> (r: ImageDeleteItemResponse)
    ensures
        r.image_id == outcome.image_id,
        r.status@ == "deleted"@,
        r.pixiv_id == Some(outcome.pixiv_id),
        r.page_index == Some(outcome.page_index),
        r.file_deleted == outcome.file_deleted,
        r.file_missing == outcome.file_missing,
        r.error_code is None,
        r.error_message is None,
{
    ImageDeleteItemResponse {
        image_id: outcome.image_id,
        status: owned("deleted"),
        pixiv_id: Some(outcome.pixiv_id),
        page_index: Some(outcome.page_index),
        file_deleted: outcome.file_deleted,
        file_missing: outcome.file_missing,
        error_code: None,
        error_message: None,
    }
}

/// The entry of an image that could not be deleted: `not_found` for a
/// missing image, `failed` otherwise, with the error.
pub fn image_delete_error_response(image_id: &str, error: AppError) -> (r: ImageDeleteItemResponse)
    ensures
        r.image_id@ == image_id@,
        r.status@ == if error.code == ErrorCode::PixivNotFound {
            "not_found"@
        } else {
            "failed"@
        },
        r.pixiv_id is None,
        r.page_index is None,
        !r.file_deleted,
        !r.file_missing,
        r.error_code matches Some(c) && c@ == error.code.name(),
        r.error_message == Some(error.message),
{
    ImageDeleteItemResponse {
        image_id: owned(image_id),
        status: if error.code == ErrorCode::PixivNotFound {
            owned("not_found")
        } else {
            owned("failed")
        },
        pixiv_id: None,
        page_index: None,
        file_deleted: false,
        file_missing: false,
        error_code: Some(owned(error.code.as_str())),
        error_message: Some(error.message),
    }
}

/// A setting on the wire.
pub fn setting_response(setting: crate::settings::PublicSettingValue) -> (r: SettingResponse)
    ensures
        r.key == setting.key,
        r.value_json == setting.value_json,
        r.is_secret == setting.is_secret,
        r.updated_at == setting.updated_at,
{
    SettingResponse {
        key: setting.key,
        value_json: setting.value_json,
        is_secret: setting.is_secret,
        updated_at: setting.updated_at,
    }
}

impl TaskItemRecord {
    /// A field-by-field copy.
    pub fn clone_item(&self) -> (r: TaskItemRecord)
        ensures
            r == *self,
    {
        TaskItemRecord {
            item_id: self.item_id.clone(),
            task_id: self.task_id.clone(),
            pixiv_id: clone_text(&self.pixiv_id),
            page_index: self.page_index,
            status: self.status,
            image_id: clone_text(&self.image_id),
            error_code: clone_text(&self.error_code),
            error_message: clone_text(&self.error_message),
            created_at: self.created_at.clone(),
            updated_at: self.updated_at.clone(),
        }
    }
}

impl TaskLogRecord {
    /// A field-by-field copy.
    pub fn clone_log(&self) -> (r: TaskLogRecord)
        ensures
            r == *self,
    {
        TaskLogRecord {
            log_id: self.log_id.clone(),
            task_id: self.task_id.clone(),
            level: self.level,
            phase: self.phase.clone(),
            message: self.message.clone(),
            context_json: clone_text(&self.context_json),
            created_at: self.created_at.clone(),
        }
    }
}

fn clone_text(value: &Option<String>) -> (r: Option<String>)
    ensures
        r == *value,
{
    match value {
        Some(v) => Some(v.clone()),
        None => None,
    }
}

} // verus!
