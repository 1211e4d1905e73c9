//! Smart retrieval's use of DeepSeek: the prompts sent, the endpoint
//! addresses, and reading back the plan (tags, negative tags, a count) and
//! the model list.  The plan's confidence, a fraction, is read where the
//! reply is received.
use vstd::prelude::*;
use vstd::string::{StrSliceExecFns, StringSliceAdditionalSpecFns};

use crate::domain::R18Policy;
use crate::errors::{AppError, ErrorCode};
use crate::json::{json_document, json_error_text, parse_json_text, push_quoted, quoted, JsonNumber, JsonValue};
use crate::tags::{normalize_tag_list, normalized, views};
use crate::text::{decimal, is_blank, owned, push_decimal, push_str, str_equals, trimmed};

verus! {

/// How to reach DeepSeek.
#[derive(Debug, Clone, PartialEq, Eq)]
pub struct DeepSeekConfig {
    pub api_key: String,
    pub base_url: String,
    pub model: String,
}

/// What the smart parser is asked to do.
#[derive(Debug, Clone, PartialEq, Eq)]
pub struct SmartParseInput {
    pub prompt: String,
    pub count_hint: u32,
    pub max_count: u32,
    pub r18_policy: R18Policy,
}

/// A search plan read from DeepSeek's reply.
#[derive(Debug, Clone, PartialEq, Eq)]
pub struct SmartParsePlan {
    pub tags: Vec<String>,
    pub negative_tags: Vec<String>,
    pub count_recommend: u32,
    pub r18_policy: R18Policy,
    pub model: String,
}

/// Whether DeepSeek answered and lists the configured model.
#[derive(Debug, Clone, PartialEq, Eq)]
pub struct DeepSeekConnectionStatus {
    pub configured: bool,
    pub status: String,
    pub model: String,
}

/// The plan as DeepSeek wrote it, before normalisation.
#[derive(Debug, Clone, PartialEq, Eq)]
pub struct RawSmartParsePlan {
    pub tags: Vec<String>,
    pub negative_tags: Option<Vec<String>>,
    pub count_recommend: Option<u32>,
}

/// Tags written either as one string or as a list of strings.
pub open spec fn flexible_tags(value: JsonValue) -> Option<Seq<Seq<char>>> {
    match value {
        JsonValue::Text(s) => Some(seq![s@]),
        JsonValue::Array(items) => if forall|i: int|
            0 <= i < items@.len() ==> (#[trigger] items@[i]) is Text {
            Some(items@.map_values(|v: JsonValue| v->Text_0@))
        } else {
            None
        },
        _ => None,
    }
}

fn read_flexible_tags(value: &JsonValue) -> (r: Option<Vec<String>>)
    ensures
        match flexible_tags(*value) {
            Some(tags) => r is Some && views(r->Some_0@) == tags,
            None => r is None,
        },
{
    match value {
        JsonValue::Text(s) => {
            let mut tags = Vec::new();
            tags.push(s.clone());
            assert(views(tags@) =~= seq![s@]);
            Some(tags)
        },
        JsonValue::Array(items) => {
            let mut tags: Vec<String> = Vec::new();
            let mut i: usize = 0;
            while i < items.len()
                invariant
                    *value == JsonValue::Array(*items),
                    i <= items@.len(),
                    forall|j: int| 0 <= j < i ==> (#[trigger] items@[j]) is Text,
                    views(tags@) == items@.take(i as int).map_values(|v: JsonValue| v->Text_0@),
                decreases items.len() - i,
            {
                match &items[i] {
                    JsonValue::Text(s) => {
                        tags.push(s.clone());
                        assert(items@.take(i + 1).map_values(|v: JsonValue| v->Text_0@)
                            =~= items@.take(i as int).map_values(|v: JsonValue| v->Text_0@).push(s@));
                        assert(views(tags@) =~= items@.take(i + 1).map_values(|v: JsonValue| v->Text_0@));
                    },
                    _ => {
                        assert(!(items@[i as int] is Text));
                        return None;
                    },
                }
                i += 1;
            }
            assert(items@.take(i as int) =~= items@);
            Some(tags)
        },
        _ => None,
    }
}

/// A member that is absent or `null`.
pub open spec fn missing(value: Option<JsonValue>) -> bool {
    value is None || value == Some(JsonValue::Null)
}

fn plan_error(message: &str) -> (e: AppError)
    ensures
        e.code == ErrorCode::AiParseFailed,
        e.message@ == message@,
{
    AppError::new(ErrorCode::AiParseFailed, message)
}

/// The negative tags a plan object lists, when it lists some.
pub open spec fn plan_negative(d: JsonValue) -> Option<Seq<Seq<char>>> {
    match d.spec_get("negative_tags"@) {
        Some(v) => if v == JsonValue::Null {
            None
        } else {
            flexible_tags(v)
        },
        None => None,
    }
}

/// The count a plan object recommends, when it gives one.
pub open spec fn plan_count(d: JsonValue) -> Option<u32> {
    match d.spec_get("count_recommend"@) {
        Some(JsonValue::Number(JsonNumber::Unsigned(n))) => if n <= u32::MAX {
            Some(n as u32)
        } else {
            None
        },
        _ => None,
    }
}

/// Why a plan object is refused, if it is: it is not an object; its `tags`
/// are missing or not a string or strings; its `negative_tags` are present
/// and not a string or strings; its `count_recommend` is present and not an
/// unsigned number within `u32`; its `r18_policy` is present and not a
/// string; its `confidence` is present and not a number.
pub open spec fn raw_plan_refusal(d: JsonValue) -> Option<Seq<char>> {
    if !(d is Object) {
        Some("DeepSeek plan is not a JSON object"@)
    } else if d.spec_get("tags"@) is None {
        Some("DeepSeek plan is missing tags"@)
    } else if flexible_tags(d.spec_get("tags"@)->Some_0) is None {
        Some("DeepSeek plan tags must be a string or a list of strings"@)
    } else if !missing(d.spec_get("negative_tags"@)) && flexible_tags(
        d.spec_get("negative_tags"@)->Some_0,
    ) is None {
        Some("DeepSeek plan negative_tags must be a string or a list of strings"@)
    } else if d.spec_get("count_recommend"@) matches Some(JsonValue::Number(JsonNumber::Unsigned(n)))
        && n > u32::MAX {
        Some("DeepSeek plan count_recommend is out of range"@)
    } else if !missing(d.spec_get("count_recommend"@)) && !(d.spec_get("count_recommend"@) matches Some(
        JsonValue::Number(JsonNumber::Unsigned(_)),
    )) {
        Some("DeepSeek plan count_recommend must be a whole number"@)
    } else if !missing(d.spec_get("r18_policy"@)) && !(d.spec_get("r18_policy"@) matches Some(
        JsonValue::Text(_),
    )) {
        Some("DeepSeek plan r18_policy must be a string"@)
    } else if !missing(d.spec_get("confidence"@)) && !(d.spec_get("confidence"@) matches Some(
        JsonValue::Number(_),
    )) {
        Some("DeepSeek plan confidence must be a number"@)
    } else {
        None
    }
}

/// The tags of a plan object, normalised.
pub open spec fn plan_tags(d: JsonValue) -> Seq<Seq<char>> {
    match d.spec_get("tags"@) {
        Some(t) => match flexible_tags(t) {
            Some(tags) => normalized(tags),
            None => Seq::empty(),
        },
        None => Seq::empty(),
    }
}

/// The negative tags of a plan object, normalised (none when it lists none).
pub open spec fn plan_negative_tags(d: JsonValue) -> Seq<Seq<char>> {
    match plan_negative(d) {
        Some(n) => normalized(n),
        None => Seq::empty(),
    }
}

/// The count a plan object gives: its recommendation or else the hint,
/// clamped to `1..=max_count`.
pub open spec fn plan_count_for(d: JsonValue, input: SmartParseInput) -> u32 {
    clamp_count(
        match plan_count(d) {
            Some(c) => c,
            None => input.count_hint,
        },
        input.max_count,
    )
}

/// Reads DeepSeek's plan object: `tags` (a string or strings) is required;
/// `negative_tags` likewise when present; `count_recommend` must fit a
/// `u32`; `r18_policy` must be a string and `confidence` a number when present.
pub fn decode_raw_plan(document: &JsonValue) -> (r: Result<RawSmartParsePlan, AppError>)
    ensures
        match raw_plan_refusal(*document) {
            Some(m) => r matches Err(e) && e.code == ErrorCode::AiParseFailed && e.message@ == m,
            None => r matches Ok(raw) && flexible_tags(document.spec_get("tags"@)->Some_0) == Some(
                views(raw.tags@),
            ) && match raw.negative_tags {
                Some(n) => plan_negative(*document) == Some(views(n@)),
                None => plan_negative(*document) is None,
            } && raw.count_recommend == plan_count(*document),
        },
        r is Err ==> r->Err_0.code == ErrorCode::AiParseFailed,
        r matches Ok(raw) ==> (document.spec_get("tags"@) matches Some(t) && flexible_tags(t)
            == Some(views(raw.tags@))),
        r matches Ok(raw) ==> match raw.count_recommend {
            Some(n) => document.spec_get("count_recommend"@) matches Some(v) && v.spec_as_u64()
                == Some(n as u64),
            None => missing(document.spec_get("count_recommend"@)),
        },
{
    let is_object = match document {
        JsonValue::Object(_) => true,
        _ => false,
    };
    if !is_object {
        return Err(plan_error("DeepSeek plan is not a JSON object"));
    }
    let tags = match document.get("tags") {
        Some(value) => match read_flexible_tags(value) {
            Some(tags) => tags,
            None => return Err(plan_error("DeepSeek plan tags must be a string or a list of strings")),
        },
        None => return Err(plan_error("DeepSeek plan is missing tags")),
    };
    let negative_tags = match document.get("negative_tags") {
        None => None,
        Some(JsonValue::Null) => None,
        Some(value) => match read_flexible_tags(value) {
            Some(list) => Some(list),
            None => return Err(
                plan_error("DeepSeek plan negative_tags must be a string or a list of strings"),
            ),
        },
    };
    let count_recommend = match document.get("count_recommend") {
        None => None,
        Some(JsonValue::Null) => None,
        Some(JsonValue::Number(JsonNumber::Unsigned(n))) => {
            if *n > 4294967295u64 {
                return Err(plan_error("DeepSeek plan count_recommend is out of range"));
            }
            Some(*n as u32)
        },
        Some(_) => return Err(plan_error("DeepSeek plan count_recommend must be a whole number")),
    };
    match document.get("r18_policy") {
        None => {},
        Some(JsonValue::Null) => {},
        Some(JsonValue::Text(_)) => {},
        Some(_) => return Err(plan_error("DeepSeek plan r18_policy must be a string")),
    }
    match document.get("confidence") {
        None => {},
        Some(JsonValue::Null) => {},
        Some(JsonValue::Number(_)) => {},
        Some(_) => return Err(plan_error("DeepSeek plan confidence must be a number")),
    }
    Ok(RawSmartParsePlan { tags, negative_tags, count_recommend })
}

/// A count clamped to `1..=max`.
pub open spec fn clamp_count(count: u32, max: u32) -> u32 {
    if count < 1 {
        1
    } else if count > max {
        max
    } else {
        count
    }
}

/// The plan a raw reply gives: tags normalised (at least one), negative tags
/// normalised, the count (or the hint) clamped to `1..=max_count`, the
/// request's own policy kept, and the model named.
pub fn normalize_raw_plan(raw: RawSmartParsePlan, input: &SmartParseInput, model: &str) -> (r: Result<
    SmartParsePlan,
    AppError,
>)
    requires
        input.max_count >= 1,
    ensures
        normalized(views(raw.tags@)).len() == 0 ==> r is Err && r->Err_0.code
            == ErrorCode::AiParseFailed && r->Err_0.message@ == "DeepSeek returned no tags"@,
        normalized(views(raw.tags@)).len() > 0 ==> r is Ok && views(r->Ok_0.tags@) == normalized(
            views(raw.tags@),
        ) && views(r->Ok_0.negative_tags@) == match raw.negative_tags {
            Some(n) => normalized(views(n@)),
            None => Seq::<Seq<char>>::empty(),
        } && r->Ok_0.count_recommend == clamp_count(
            match raw.count_recommend {
                Some(c) => c,
                None => input.count_hint,
            },
            input.max_count,
        ) && r->Ok_0.r18_policy == input.r18_policy && r->Ok_0.model@ == model@,
{
    let tags = normalize_tags(raw.tags);
    if tags.len() == 0 {
        return Err(plan_error("DeepSeek returned no tags"));
    }
    let negative_tags = match raw.negative_tags {
        Some(list) => normalize_tags(list),
        None => {
            let empty: Vec<String> = Vec::new();
            assert(views(empty@) =~= Seq::<Seq<char>>::empty());
            assert(normalized(views(empty@)) =~= Seq::<Seq<char>>::empty());
            normalize_tags(empty)
        },
    };
    let wanted = match raw.count_recommend {
        Some(c) => c,
        None => input.count_hint,
    };
    let count_recommend = if wanted < 1 {
        1
    } else if wanted > input.max_count {
        input.max_count
    } else {
        wanted
    };
    Ok(
        SmartParsePlan {
            tags,
            negative_tags,
            count_recommend,
            r18_policy: input.r18_policy,
            model: owned(model),
        },
    )
}

/// Tags trimmed, without blanks or repeats, at most twelve.
pub fn normalize_tags(tags: Vec<String>) -> (r: Vec<String>)
    ensures
        views(r@) == normalized(views(tags@)),
{
    normalize_tag_list(&tags)
}

/// Reads DeepSeek's reply text as a plan.
pub fn parse_smart_plan_json(content: &str, input: &SmartParseInput, model: &str) -> (r: Result<
    SmartParsePlan,
    AppError,
>)
    requires
        input.max_count >= 1,
    ensures
        json_document(content@) is None ==> r is Err && r->Err_0.code == ErrorCode::AiParseFailed
            && r->Err_0.message@ == json_error_text(content@),
        r is Err ==> r->Err_0.code == ErrorCode::AiParseFailed,
        r matches Ok(plan) ==> plan.r18_policy == input.r18_policy && plan.model@ == model@
            && 1 <= plan.count_recommend <= input.max_count && plan.tags@.len() > 0,
        json_document(content@) matches Some(d) ==> match raw_plan_refusal(d) {
            Some(m) => r matches Err(e) && e.code == ErrorCode::AiParseFailed && e.message@ == m,
            None => if plan_tags(d).len() == 0 {
                r matches Err(e) && e.code == ErrorCode::AiParseFailed && e.message@
                    == "DeepSeek returned no tags"@
            } else {
                r matches Ok(plan) && views(plan.tags@) == plan_tags(d) && views(
                    plan.negative_tags@,
                ) == plan_negative_tags(d) && plan.count_recommend == plan_count_for(d, *input)
                    && plan.r18_policy == input.r18_policy && plan.model@ == model@
            },
        },
{
    let document = match parse_json_text(content) {
        Ok(document) => document,
        Err(reason) => return Err(AppError::new(ErrorCode::AiParseFailed, reason.as_str())),
    };
    let raw = decode_raw_plan(&document)?;
    normalize_raw_plan(raw, input, model)
}

/// The system prompt of the parse request.
pub open spec fn system_prompt_text() -> Seq<char> {
    "You convert natural-language Pixiv download requests into strict JSON.\n"@
        + "Return only JSON with keys: tags, negative_tags, count_recommend, r18_policy, confidence.\n"@
        + "tags and negative_tags must be short Pixiv-searchable tags.\n"@
        + "Prefer Japanese Pixiv tags first. Use English only when it is more likely to match Pixiv search. Avoid Chinese generic terms unless no Japanese or English tag is suitable.\n"@
        + "Keep the user's R18 policy unchanged. Return the provided default r18_policy exactly.\n"@
        + "Do not include markdown or explanations."@
}

pub fn smart_parse_system_prompt() -> (r: String)
    ensures
        r@ == system_prompt_text(),
{
    let mut prompt = owned("You convert natural-language Pixiv download requests into strict JSON.\n");
    push_str(
        &mut prompt,
        "Return only JSON with keys: tags, negative_tags, count_recommend, r18_policy, confidence.\n",
    );
    push_str(&mut prompt, "tags and negative_tags must be short Pixiv-searchable tags.\n");
    push_str(
        &mut prompt,
        "Prefer Japanese Pixiv tags first. Use English only when it is more likely to match Pixiv search. Avoid Chinese generic terms unless no Japanese or English tag is suitable.\n",
    );
    push_str(
        &mut prompt,
        "Keep the user's R18 policy unchanged. Return the provided default r18_policy exactly.\n",
    );
    push_str(&mut prompt, "Do not include markdown or explanations.");
    prompt
}

/// The user prompt of the parse request.
pub open spec fn user_prompt_text(input: SmartParseInput) -> Seq<char> {
    "Prompt: "@ + input.prompt@ + "\nDefault count: "@ + decimal(input.count_hint as nat)
        + "\nMax count: "@ + decimal(input.max_count as nat) + "\nDefault r18_policy: "@
        + input.r18_policy.name() + "\nReturn strict JSON."@
}

pub fn smart_parse_user_prompt(input: &SmartParseInput) -> (r: String)
    ensures
        r@ == user_prompt_text(*input),
{
    let mut prompt = owned("Prompt: ");
    push_str(&mut prompt, input.prompt.as_str());
    push_str(&mut prompt, "\nDefault count: ");
    push_decimal(&mut prompt, input.count_hint as u128);
    push_str(&mut prompt, "\nMax count: ");
    push_decimal(&mut prompt, input.max_count as u128);
    push_str(&mut prompt, "\nDefault r18_policy: ");
    push_str(&mut prompt, input.r18_policy.as_str());
    push_str(&mut prompt, "\nReturn strict JSON.");
    prompt
}

/// A DeepSeek client needs a key that is not blank.
pub fn check_deepseek_config(config: &DeepSeekConfig) -> (r: Result<(), AppError>)
    ensures
        (trimmed(config.api_key@).len() == 0) == r is Err,
        r is Err ==> r->Err_0.code == ErrorCode::AiConfigMissing && r->Err_0.message@
            == "DeepSeek API key is required in settings or DEEPSEEK_API_KEY"@,
{
    proof {
        crate::text::lemma_trimmed_empty_iff(config.api_key@);
    }
    if is_blank(config.api_key.as_str()) {
        return Err(
            AppError::new(
                ErrorCode::AiConfigMissing,
                "DeepSeek API key is required in settings or DEEPSEEK_API_KEY",
            ),
        );
    }
    Ok(())
}

/// The text without its trailing `/`s (`trim_end_matches('/')`).
pub open spec fn without_trailing_slashes(s: Seq<char>) -> Seq<char>
    decreases s.len(),
{
    if s.len() > 0 && s.last() == '/' {
        without_trailing_slashes(s.drop_last())
    } else {
        s
    }
}

/// A DeepSeek endpoint: the base address without trailing `/`s, then the path.
pub fn deepseek_url(base_url: &str, path: &str) -> (r: String)
    ensures
        r@ == without_trailing_slashes(base_url@) + path@,
{
    let mut end = base_url.unicode_len();
    assert(base_url@.subrange(0, end as int) =~= base_url@);
    while end > 0 && base_url.get_char(end - 1) == '/'
        invariant
            end <= base_url@.len(),
            without_trailing_slashes(base_url@) == without_trailing_slashes(
                base_url@.subrange(0, end as int),
            ),
        decreases end,
    {
        assert(base_url@.subrange(0, end as int).drop_last() =~= base_url@.subrange(0, end - 1));
        end -= 1;
    }
    let mut url = crate::text::char_range(base_url, 0, end);
    push_str(&mut url, path);
    url
}

/// The body of a parse request: the model, a low temperature, a JSON reply
/// and the two prompts.
pub fn chat_request_json(model: &str, input: &SmartParseInput) -> (r: String)
    ensures
        r@ == "{\"model\":"@ + quoted(model@) + ",\"messages\":[{\"role\":\"system\",\"content\":"@
            + quoted(system_prompt_text()) + "},{\"role\":\"user\",\"content\":"@ + quoted(
            user_prompt_text(*input),
        ) + "}],\"temperature\":0.2,\"response_format\":{\"type\":\"json_object\"}}"@,
{
    let system = smart_parse_system_prompt();
    let user = smart_parse_user_prompt(input);
    let mut body = owned("{\"model\":");
    push_quoted(&mut body, model);
    push_str(&mut body, ",\"messages\":[{\"role\":\"system\",\"content\":");
    push_quoted(&mut body, system.as_str());
    push_str(&mut body, "},{\"role\":\"user\",\"content\":");
    push_quoted(&mut body, user.as_str());
    push_str(&mut body, "}],\"temperature\":0.2,\"response_format\":{\"type\":\"json_object\"}}");
    body
}

/// The content of the first choice of a chat reply, when it has one.
pub open spec fn reply_content(body: JsonValue) -> Option<Seq<char>> {
    match body.spec_get("choices"@) {
        Some(JsonValue::Array(choices)) => if choices@.len() > 0 {
            match choices@[0].spec_get("message"@) {
                Some(message) => match message.spec_get("content"@) {
                    Some(JsonValue::Text(content)) => Some(content@),
                    _ => None,
                },
                None => None,
            }
        } else {
            None
        },
        _ => None,
    }
}

/// The content of the first choice of a chat reply.
pub fn chat_reply_content(body: &JsonValue) -> (r: Result<String, AppError>)
    ensures
        match reply_content(*body) {
            Some(content) => r matches Ok(c) && c@ == content,
            None => r matches Err(e) && e.code == ErrorCode::AiParseFailed,
        },
{
    let choices = match body.get("choices") {
        Some(JsonValue::Array(choices)) => choices,
        _ => return Err(plan_error("DeepSeek reply has no choices list")),
    };
    if choices.len() == 0 {
        return Err(plan_error("DeepSeek returned no choices"));
    }
    let content = match choices[0].get("message") {
        Some(message) => match message.get("content") {
            Some(JsonValue::Text(content)) => content,
            _ => return Err(plan_error("DeepSeek reply message has no content")),
        },
        None => return Err(plan_error("DeepSeek reply choice has no message")),
    };
    Ok(content.clone())
}

/// The entries of a model-list reply, when it has a `data` list.
pub open spec fn model_entries(body: JsonValue) -> Option<Seq<JsonValue>> {
    match body.spec_get("data"@) {
        Some(JsonValue::Array(data)) => Some(data@),
        _ => None,
    }
}

/// The id of a model entry, when it is a string.
pub open spec fn entry_id(entry: JsonValue) -> Option<Seq<char>> {
    match entry.spec_get("id"@) {
        Some(JsonValue::Text(id)) => Some(id@),
        _ => None,
    }
}

/// A model list whose every entry has a string id.
pub open spec fn readable_model_list(body: JsonValue) -> bool {
    model_entries(body) matches Some(data) && forall|i: int|
        0 <= i < data.len() ==> (#[trigger] entry_id(data[i])) is Some
}

/// The model ids of a model-list reply, in order.
pub fn listed_models(body: &JsonValue) -> (r: Result<Vec<String>, AppError>)
    ensures
        r is Ok <==> readable_model_list(*body),
        r is Err ==> r->Err_0.code == ErrorCode::AiParseFailed,
        r matches Ok(ids) ==> (model_entries(*body) matches Some(data) && ids@.len() == data.len()
            && forall|i: int| 0 <= i < data.len() ==> entry_id(data[i]) == Some((#[trigger] ids@[i])@)),
{
    let data = match body.get("data") {
        Some(JsonValue::Array(data)) => data,
        _ => return Err(plan_error("DeepSeek model list has no data")),
    };
    let mut ids: Vec<String> = Vec::new();
    let mut i: usize = 0;
    while i < data.len()
        invariant
            i <= data@.len(),
            model_entries(*body) == Some(data@),
            ids@.len() == i,
            forall|j: int| 0 <= j < i ==> entry_id(data@[j]) == Some((#[trigger] ids@[j])@),
        decreases data.len() - i,
    {
        match data[i].get("id") {
            Some(JsonValue::Text(id)) => ids.push(id.clone()),
            _ => {
                assert(entry_id(data@[i as int]) is None);
                return Err(plan_error("DeepSeek model entry has no id"));
            },
        }
        i += 1;
    }
    proof {
        assert forall|j: int| 0 <= j < data@.len() implies (#[trigger] entry_id(data@[j])) is Some by {
            assert(entry_id(data@[j]) == Some(ids@[j]@));
        }
    }
    Ok(ids)
}

/// The connection status: `ok` when the configured model is listed,
/// `model_not_listed` otherwise.
pub fn connection_status(model_ids: &Vec<String>, model: &str) -> (r: DeepSeekConnectionStatus)
    ensures
        r.configured,
        r.model@ == model@,
        r.status@ == if exists|i: int| 0 <= i < model_ids@.len() && (#[trigger] model_ids@[i])@
            == model@ {
            "ok"@
        } else {
            "model_not_listed"@
        },
{
    let mut found = false;
    let mut i: usize = 0;
    while i < model_ids.len()
        invariant
            i <= model_ids@.len(),
            found <==> exists|j: int| 0 <= j < i && (#[trigger] model_ids@[j])@ == model@,
        decreases model_ids.len() - i,
    {
        if str_equals(model_ids[i].as_str(), model) {
            found = true;
        }
        i += 1;
    }
    DeepSeekConnectionStatus {
        configured: true,
        status: if found {
            owned("ok")
        } else {
            owned("model_not_listed")
        },
        model: owned(model),
    }
}

/// A successful HTTP status.
pub open spec fn is_success_status(status: u16) -> bool {
    200 <= status <= 299
}

/// Reads DeepSeek's answer to a parse request: a failing status is refused
/// with the status's text; otherwise the reply is read as JSON, its first
/// choice's content as the plan.
pub fn smart_plan_from_reply(
    status: u16,
    status_text: &str,
    body: &str,
    input: &SmartParseInput,
    model: &str,
) -> (r: Result<SmartParsePlan, AppError>)
    requires
        input.max_count >= 1,
    ensures
        r is Err ==> r->Err_0.code == ErrorCode::AiParseFailed,
        !is_success_status(status) ==> (r matches Err(e) && e.message@
            == "DeepSeek parse failed with status "@ + status_text@),
        is_success_status(status) && json_document(body@) is None ==> (r matches Err(e)
            && e.message@ == json_error_text(body@)),
        is_success_status(status) && (json_document(body@) matches Some(d) && reply_content(d) is None)
            ==> r is Err,
        r matches Ok(plan) ==> plan.r18_policy == input.r18_policy && plan.model@ == model@ && 1
            <= plan.count_recommend <= input.max_count && plan.tags@.len() > 0,
{
    if status < 200 || status > 299 {
        let mut message = owned("DeepSeek parse failed with status ");
        push_str(&mut message, status_text);
        return Err(plan_error(message.as_str()));
    }
    let document = match parse_json_text(body) {
        Ok(document) => document,
        Err(reason) => return Err(plan_error(reason.as_str())),
    };
    let content = chat_reply_content(&document)?;
    parse_smart_plan_json(content.as_str(), input, model)
}

/// Reads DeepSeek's answer to a model-list request: a failing status means
/// the configuration is wrong; otherwise the model ids are read and the
/// configured model looked for among them.
pub fn connection_status_from_reply(status: u16, status_text: &str, body: &str, model: &str) -> (r:
    Result<DeepSeekConnectionStatus, AppError>)
    ensures
        !is_success_status(status) ==> (r matches Err(e) && e.code == ErrorCode::AiConfigMissing
            && e.message@ == "DeepSeek connection failed with status "@ + status_text@),
        is_success_status(status) && json_document(body@) is None ==> (r matches Err(e) && e.code
            == ErrorCode::AiParseFailed && e.message@ == json_error_text(body@)),
        is_success_status(status) ==> (json_document(body@) matches Some(d) ==> (r is Ok
            <==> readable_model_list(d))),
        r matches Ok(s) ==> s.configured && s.model@ == model@ && (s.status@ == "ok"@ || s.status@
            == "model_not_listed"@),
        r matches Ok(s) ==> (json_document(body@) matches Some(d) && model_entries(d) matches Some(
            data,
        ) && (s.status@ == "ok"@ <==> exists|i: int|
            0 <= i < data.len() && entry_id(#[trigger] data[i]) == Some(model@))),
{
    if status < 200 || status > 299 {
        let mut message = owned("DeepSeek connection failed with status ");
        push_str(&mut message, status_text);
        return Err(AppError::new(ErrorCode::AiConfigMissing, message.as_str()));
    }
    let document = match parse_json_text(body) {
        Ok(document) => document,
        Err(reason) => return Err(plan_error(reason.as_str())),
    };
    let ids = listed_models(&document)?;
    let status = connection_status(&ids, model);
    proof {
        let data = model_entries(document)->0;
        reveal_strlit("ok");
        reveal_strlit("model_not_listed");
        let found = exists|i: int| 0 <= i < ids@.len() && (#[trigger] ids@[i])@ == model@;
        assert(data.len() == ids@.len());
        if found {
            let i = choose|i: int| 0 <= i < ids@.len() && (#[trigger] ids@[i])@ == model@;
            assert(entry_id(data[i]) == Some(ids@[i]@));
            assert(status.status@ == "ok"@);
        } else {
            assert(status.status@ == "model_not_listed"@);
            assert("ok"@ != "model_not_listed"@) by {
                assert("ok"@.len() != "model_not_listed"@.len());
            }
            assert forall|i: int| 0 <= i < data.len() implies entry_id(#[trigger] data[i]) != Some(model@) by {
                assert(entry_id(data[i]) == Some(ids@[i]@));
            }
        }
    }
    Ok(status)
}

} // verus!
