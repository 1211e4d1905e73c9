//! Reading Pixiv's JSON replies: a work's metadata and pages, and the work
//! ids of an author's profile, of the bookmarks and of a tag search.  The
//! replies are fetched by the Pixiv client; the addresses it asks are built
//! here too.
use vstd::prelude::*;
use vstd::string::{StrSliceExecFns, StringSliceAdditionalSpecFns};

use crate::domain::{ImageCategory, PixivPage, PixivWork, PixivWorkRef, R18Policy};
use crate::errors::{AppError, ErrorCode};
use crate::json::{json_document, json_error_text, member, read_json, JsonNumber, JsonValue};
use crate::pixiv::{
    extension_from_url, page_original_url, parse_category, regular_to_original, spec_category,
    spec_url_extension,
};
use crate::tags::views;
use crate::text::{
    all_digit_chars, all_digits, decimal, decimal_string, owned, parse_unsigned, parse_unsigned_str,
    push_decimal, push_str, str_equals,
};

verus! {

/// The error a reply flags, if it does: `error: true`, with its `message`
/// or a generic text.
pub fn reply_error(value: &JsonValue) -> (r: Option<AppError>)
    ensures
        (value.spec_get("error"@) matches Some(e) && e.spec_as_bool() == Some(true)) <==> r is Some,
        r matches Some(e) ==> e.code == ErrorCode::PixivParseError,
{
    let flagged = match value.get("error") {
        Some(e) => match e.as_bool() {
            Some(b) => b,
            None => false,
        },
        None => false,
    };
    if !flagged {
        return None;
    }
    let message: &str = match value.get("message") {
        Some(m) => match m.as_str() {
            Some(text) => text,
            None => "Pixiv returned an error",
        },
        None => "Pixiv returned an error",
    };
    Some(AppError::new(ErrorCode::PixivParseError, message))
}

/// Whether a reply flags an error (`error: true`).
pub open spec fn flags_error(value: JsonValue) -> bool {
    value.spec_get("error"@) matches Some(e) && e.spec_as_bool() == Some(true)
}

/// The `body` of a reply, unless it flags an error.
pub open spec fn reply_ok_body(value: JsonValue) -> Option<JsonValue> {
    if flags_error(value) {
        None
    } else {
        value.spec_get("body"@)
    }
}

/// The `body` of a reply that flags no error.
pub fn reply_body(value: &JsonValue) -> (r: Result<&JsonValue, AppError>)
    ensures
        r is Err ==> r->Err_0.code == ErrorCode::PixivParseError,
        r matches Ok(body) ==> value.spec_get("body"@) == Some(*body),
        match reply_ok_body(*value) {
            Some(b) => r is Ok && *r->Ok_0 == b,
            None => r is Err,
        },
{
    if let Some(error) = reply_error(value) {
        return Err(error);
    }
    match value.get("body") {
        Some(body) => Ok(body),
        None => Err(AppError::new(ErrorCode::PixivParseError, "Pixiv response missing body")),
    }
}

/// A number that fits in 32 bits, when the value is one.
pub open spec fn small_number(value: Option<JsonValue>) -> Option<u32> {
    match value {
        Some(v) => match v.spec_as_u64() {
            Some(n) => if n <= u32::MAX {
                Some(n as u32)
            } else {
                None
            },
            None => None,
        },
        None => None,
    }
}

fn optional_u32(value: Option<&JsonValue>) -> (r: Option<u32>)
    ensures
        r matches Some(n) ==> value matches Some(v) && v.spec_as_u64() == Some(n as u64),
        r == small_number(
            match value {
                Some(v) => Some(*v),
                None => None,
            },
        ),
{
    match value {
        Some(v) => match v.as_u64() {
            Some(n) => if n <= 4294967295u64 {
                Some(n as u32)
            } else {
                None
            },
            None => None,
        },
        None => None,
    }
}

/// The view of an optional text.
pub open spec fn text_view(t: Option<String>) -> Option<Seq<char>> {
    match t {
        Some(s) => Some(s@),
        None => None,
    }
}

/// The text of a member, when it is a string.
pub open spec fn text_member(body: JsonValue, key: Seq<char>) -> Option<Seq<char>> {
    match body.spec_get(key) {
        Some(v) => v.spec_as_str(),
        None => None,
    }
}

fn optional_text(value: Option<&JsonValue>) -> (r: Option<String>)
    ensures
        text_view(r) == match value {
            Some(v) => v.spec_as_str(),
            None => None,
        },
{
    match value {
        Some(v) => match v.as_str() {
            Some(s) => Some(owned(s)),
            None => None,
        },
        None => None,
    }
}

/// The text at `/urls/<key>` of a work's body.
pub open spec fn url_member(body: JsonValue, key: Seq<char>) -> Option<Seq<char>> {
    match body.spec_get("urls"@) {
        Some(u) => text_member(u, key),
        None => None,
    }
}

/// A page's extension is the one its original URL ends with, if any.
pub open spec fn extension_fits(page: PixivPage) -> bool {
    match crate::pixiv::spec_url_extension(page.original_url@) {
        Some(e) => page.extension matches Some(x) && x@ == e,
        None => page.extension is None,
    }
}

/// The pages of a work: the one original when its URL is given, otherwise
/// `pageCount` pages (1 when absent) derived from the first preview URL.
pub fn parse_pages(body: &JsonValue) -> (r: Result<Vec<PixivPage>, AppError>)
    ensures
        r is Err ==> r->Err_0.code == ErrorCode::PixivParseError,
        r is Err <==> url_member(*body, "original"@) is None && url_member(*body, "regular"@) is None,
        url_member(*body, "original"@) matches Some(o) ==> (r matches Ok(pages) && pages@.len() == 1
            && pages@[0].original_url@ == o && pages@[0].width == small_number(body.spec_get(
            "width"@,
        )) && pages@[0].height == small_number(body.spec_get("height"@))),
        url_member(*body, "original"@) is None ==> (url_member(*body, "regular"@) matches Some(g) ==> (
        r matches Ok(pages) && pages@.len() == match small_number(body.spec_get("pageCount"@)) {
            Some(n) => n as nat,
            None => 1,
        } && forall|i: int|
            0 <= i < pages@.len() ==> (#[trigger] pages@[i]).original_url@ == crate::pixiv::spec_page_url(
                crate::pixiv::spec_regular_to_original(g),
                i as nat,
            ))),
        r matches Ok(pages) ==> pages@.len() >= 1 || (body.spec_get("pageCount"@) matches Some(c)
            && c.spec_as_u64() == Some(0u64)),
        r matches Ok(pages) ==> forall|i: int| 0 <= i < pages@.len() ==> (#[trigger] pages@[i]).page_index
            == i,
        // Each page's extension is taken from its original URL; pages derived from a
        // preview URL carry no size.
        r matches Ok(pages) ==> forall|i: int| 0 <= i < pages@.len() ==> extension_fits(#[trigger] pages@[i]),
        url_member(*body, "original"@) is None ==> (r matches Ok(pages) ==> forall|i: int|
            0 <= i < pages@.len() ==> (#[trigger] pages@[i]).width is None && pages@[i].height is None),
{
    let urls = body.get("urls");
    let original = match urls {
        Some(u) => match u.get("original") {
            Some(o) => o.as_str(),
            None => None,
        },
        None => None,
    };
    if let Some(original) = original {
        let mut pages = Vec::new();
        let extension = extension_from_url(original);
        pages.push(
            PixivPage {
                page_index: 0,
                original_url: owned(original),
                width: optional_u32(body.get("width")),
                height: optional_u32(body.get("height")),
                extension,
            },
        );
        return Ok(pages);
    }
    let page_count: u32 = match optional_u32(body.get("pageCount")) {
        Some(n) => n,
        None => 1,
    };
    let regular = match urls {
        Some(u) => match u.get("regular") {
            Some(r) => r.as_str(),
            None => None,
        },
        None => None,
    };
    let first_regular = match regular {
        Some(r) => r,
        None => return Err(
            AppError::new(
                ErrorCode::PixivParseError,
                "Pixiv response missing original or regular image URL",
            ),
        ),
    };
    let first_original = regular_to_original(first_regular);
    let mut pages: Vec<PixivPage> = Vec::new();
    let mut page_index: u32 = 0;
    while page_index < page_count
        invariant
            page_index <= page_count,
            pages@.len() == page_index,
            forall|i: int| 0 <= i < pages@.len() ==> (#[trigger] pages@[i]).page_index == i,
            forall|i: int| 0 <= i < pages@.len() ==> (#[trigger] pages@[i]).original_url@
                == crate::pixiv::spec_page_url(first_original@, i as nat),
            page_count == 0 ==> (body.spec_get("pageCount"@) matches Some(c) && c.spec_as_u64()
                == Some(0u64)),
            forall|i: int| 0 <= i < pages@.len() ==> extension_fits(#[trigger] pages@[i]),
            forall|i: int| 0 <= i < pages@.len() ==> (#[trigger] pages@[i]).width is None && pages@[i].height is None,
        decreases page_count - page_index,
    {
        let original_url = page_original_url(first_original.as_str(), page_index);
        let extension = extension_from_url(original_url.as_str());
        pages.push(PixivPage { page_index, extension, original_url, width: None, height: None });
        page_index += 1;
    }
    Ok(pages)
}

/// The `tag` texts of a tag list, in order; entries without one are skipped.
pub open spec fn tag_texts(list: Seq<JsonValue>) -> Seq<Seq<char>>
    decreases list.len(),
{
    if list.len() == 0 {
        Seq::empty()
    } else {
        let rest = tag_texts(list.drop_last());
        match list.last().spec_get("tag"@) {
            Some(JsonValue::Text(t)) => rest.push(t@),
            _ => rest,
        }
    }
}

/// The tags of a work's body: the texts of `/tags/tags/*/tag`.
pub open spec fn work_tags(body: JsonValue) -> Seq<Seq<char>> {
    match body.spec_get("tags"@) {
        Some(t) => match t.spec_get("tags"@) {
            Some(JsonValue::Array(list)) => tag_texts(list@),
            _ => Seq::empty(),
        },
        None => Seq::empty(),
    }
}

/// The tags of a work (`/tags/tags/*/tag`), in order.
pub fn parse_tags(body: &JsonValue) -> (r: Vec<String>)
    ensures
        crate::tags::views(r@) == work_tags(*body),
{
    let list = match body.get("tags") {
        Some(t) => match t.get("tags") {
            Some(JsonValue::Array(list)) => list,
            _ => return Vec::new(),
        },
        None => return Vec::new(),
    };
    let mut tags: Vec<String> = Vec::new();
    let mut i: usize = 0;
    while i < list.len()
        invariant
            i <= list@.len(),
            work_tags(*body) == tag_texts(list@),
            crate::tags::views(tags@) == tag_texts(list@.subrange(0, i as int)),
        decreases list.len() - i,
    {
        assert(list@.subrange(0, i + 1).drop_last() =~= list@.subrange(0, i as int));
        match list[i].get("tag") {
            Some(JsonValue::Text(tag)) => {
                tags.push(tag.clone());
                assert(crate::tags::views(tags@) =~= crate::tags::views(tags@.drop_last()).push(
                    tag@,
                ));
            },
            _ => {},
        }
        i += 1;
    }
    assert(list@.subrange(0, list@.len() as int) =~= list@);
    tags
}

/// A work's metadata from the `illust` reply.
pub fn parse_work(pixiv_id: &str, value: &JsonValue) -> (r: Result<PixivWork, AppError>)
    ensures
        r is Err ==> r->Err_0.code == ErrorCode::PixivParseError,
        r matches Ok(work) ==> work.pixiv_id@ == pixiv_id@ && (value.spec_get("body"@) matches Some(
            body,
        ) && work.category == spec_category(
            match body.spec_get("xRestrict"@) {
                Some(v) => v.spec_as_i64(),
                None => None,
            },
            match body.spec_get("sl"@) {
                Some(v) => v.spec_as_i64(),
                None => None,
            },
        ) && crate::tags::views(work.tags@) == work_tags(body) && text_view(work.title)
            == text_member(body, "title"@) && text_view(work.author_name) == text_member(
            body,
            "userName"@,
        )),
{
    let body = reply_body(value)?;
    let title = optional_text(body.get("title"));
    let author_uid = match body.get("userId") {
        Some(v) => match v.as_str() {
            Some(s) => Some(owned(s)),
            None => match v.as_u64() {
                Some(n) => Some(decimal_string(n as u128)),
                None => None,
            },
        },
        None => None,
    };
    let author_name = optional_text(body.get("userName"));
    let x_restrict = match body.get("xRestrict") {
        Some(v) => v.as_i64(),
        None => None,
    };
    let sl = match body.get("sl") {
        Some(v) => v.as_i64(),
        None => None,
    };
    let category = parse_category(x_restrict, sl);
    let tags = parse_tags(body);
    let pages = parse_pages(body)?;
    Ok(
        PixivWork {
            pixiv_id: owned(pixiv_id),
            title,
            author_uid,
            author_name,
            tags,
            category,
            pages,
        },
    )
}

/// A numeric id: a non-empty all-digit string, or an unsigned number.
pub open spec fn numeric_id(value: JsonValue) -> Option<Seq<char>> {
    match value {
        JsonValue::Text(s) if s@.len() > 0 && all_digits(s@) => Some(s@),
        JsonValue::Number(JsonNumber::Unsigned(n)) => Some(decimal(n as nat)),
        _ => None,
    }
}

pub fn value_to_numeric_string(value: &JsonValue) -> (r: Option<String>)
    ensures
        match numeric_id(*value) {
            Some(s) => r is Some && r->Some_0@ == s,
            None => r is None,
        },
{
    match value {
        JsonValue::Text(s) => {
            if s.unicode_len() > 0 && all_digit_chars(s.as_str()) {
                Some(s.clone())
            } else {
                None
            }
        },
        JsonValue::Number(JsonNumber::Unsigned(n)) => Some(decimal_string(*n as u128)),
        _ => None,
    }
}

/// A non-empty run of digits.
pub open spec fn is_numeric(s: Seq<char>) -> bool {
    s.len() > 0 && all_digits(s)
}

proof fn lemma_decimal_numeric(n: nat)
    ensures
        is_numeric(decimal(n)),
{
    crate::text::lemma_decimal_digits(n);
}

fn has_member(members: &Vec<(String, JsonValue)>, key: &str) -> (r: bool)
    ensures
        r == (member(members@, key@) is Some),
{
    let mut i: usize = 0;
    assert(members@.skip(0) =~= members@);
    while i < members.len()
        invariant
            i <= members@.len(),
            member(members@, key@) == member(members@.skip(i as int), key@),
        decreases members.len() - i,
    {
        assert(members@.skip(i as int).drop_first() =~= members@.skip(i + 1));
        assert(members@.skip(i as int)[0] == members@[i as int]);
        if str_equals(members[i].0.as_str(), key) {
            return true;
        }
        i += 1;
    }
    false
}

fn member_value<'a>(members: &'a Vec<(String, JsonValue)>, key: &str) -> (r: Option<&'a JsonValue>)
    ensures
        match member(members@, key@) {
            Some(v) => r is Some && *r->Some_0 == v,
            None => r is None,
        },
{
    let mut i: usize = 0;
    assert(members@.skip(0) =~= members@);
    while i < members.len()
        invariant
            i <= members@.len(),
            member(members@, key@) == member(members@.skip(i as int), key@),
        decreases members.len() - i,
    {
        assert(members@.skip(i as int).drop_first() =~= members@.skip(i + 1));
        assert(members@.skip(i as int)[0] == members@[i as int]);
        if str_equals(members[i].0.as_str(), key) {
            return Some(&members[i].1);
        }
        i += 1;
    }
    None
}

/// The id under `key`, when that member is a numeric id.
pub open spec fn keyed_id(members: Seq<(String, JsonValue)>, key: Seq<char>) -> Option<Seq<char>> {
    match member(members, key) {
        Some(v) => numeric_id(v),
        None => None,
    }
}

/// Whether an object carries the fields of a work (in a search, its
/// `illustType` counts too).
pub open spec fn looks_like_work(members: Seq<(String, JsonValue)>, for_search: bool) -> bool {
    ||| member(members, "title"@) is Some
    ||| member(members, "illustTitle"@) is Some
    ||| member(members, "pageCount"@) is Some
    ||| member(members, "url"@) is Some
    ||| member(members, "urls"@) is Some
    ||| (for_search && member(members, "illustType"@) is Some)
}

/// The id of an object that stands for a work: the first numeric one of its
/// `illustId`, `illust_id` and `workId`, else its `id` when it carries work
/// fields.
pub open spec fn object_work_id(members: Seq<(String, JsonValue)>, for_search: bool) -> Option<
    Seq<char>,
> {
    if keyed_id(members, "illustId"@) is Some {
        keyed_id(members, "illustId"@)
    } else if keyed_id(members, "illust_id"@) is Some {
        keyed_id(members, "illust_id"@)
    } else if keyed_id(members, "workId"@) is Some {
        keyed_id(members, "workId"@)
    } else if looks_like_work(members, for_search) {
        keyed_id(members, "id"@)
    } else {
        None
    }
}

/// The members the search for works does not enter.
pub open spec fn skipped(key: Seq<char>, for_search: bool) -> bool {
    key == "bookmarkData"@ || key == "user"@ || key == "profileImageUrl"@ || (for_search && key
        == "tags"@)
}

/// The ids of the works found depth first in a value.
pub open spec fn found_ids(value: JsonValue, for_search: bool) -> Seq<Seq<char>>
    decreases value,
{
    match value {
        JsonValue::Object(members) => match object_work_id(members@, for_search) {
            Some(id) => seq![id],
            None => member_ids(members@, for_search),
        },
        JsonValue::Array(items) => item_ids(items@, for_search),
        _ => Seq::empty(),
    }
}

/// The ids found in the members of an object, in order, past the skipped ones.
pub open spec fn member_ids(members: Seq<(String, JsonValue)>, for_search: bool) -> Seq<Seq<char>>
    decreases members,
{
    if members.len() == 0 {
        Seq::empty()
    } else {
        let last = members[members.len() - 1];
        member_ids(members.drop_last(), for_search) + if skipped(last.0@, for_search) {
            Seq::<Seq<char>>::empty()
        } else {
            found_ids(last.1, for_search)
        }
    }
}

/// The ids found in the items of a list, in order.
pub open spec fn item_ids(items: Seq<JsonValue>, for_search: bool) -> Seq<Seq<char>>
    decreases items,
{
    if items.len() == 0 {
        Seq::empty()
    } else {
        item_ids(items.drop_last(), for_search) + found_ids(items[items.len() - 1], for_search)
    }
}

/// A numeric id is a non-empty run of digits.
proof fn lemma_numeric_id(v: JsonValue)
    ensures
        numeric_id(v) matches Some(s) ==> is_numeric(s),
{
    if let JsonValue::Number(JsonNumber::Unsigned(n)) = v {
        lemma_decimal_numeric(n as nat);
    }
}

/// `keyed_id`, computed.
fn keyed_numeric_id(members: &Vec<(String, JsonValue)>, key: &str) -> (r: Option<String>)
    ensures
        text_view(r) == keyed_id(members@, key@),
        r matches Some(id) ==> is_numeric(id@),
{
    match member_value(members, key) {
        Some(v) => {
            proof {
                lemma_numeric_id(*v);
            }
            value_to_numeric_string(v)
        },
        None => None,
    }
}

/// The id of an object that stands for a work: its `illustId`,
/// `illust_id` or `workId`, or its `id` when it carries work fields.
fn work_id(members: &Vec<(String, JsonValue)>, for_search: bool) -> (r: Option<String>)
    ensures
        text_view(r) == object_work_id(members@, for_search),
        r matches Some(id) ==> is_numeric(id@),
{
    let by_illust_id = keyed_numeric_id(members, "illustId");
    if by_illust_id.is_some() {
        return by_illust_id;
    }
    let by_snake_id = keyed_numeric_id(members, "illust_id");
    if by_snake_id.is_some() {
        return by_snake_id;
    }
    let by_work_id = keyed_numeric_id(members, "workId");
    if by_work_id.is_some() {
        return by_work_id;
    }
    let looks_like_work = has_member(members, "title") || has_member(members, "illustTitle")
        || has_member(members, "pageCount") || has_member(members, "url") || has_member(
        members,
        "urls",
    ) || (for_search && has_member(members, "illustType"));
    if looks_like_work {
        return keyed_numeric_id(members, "id");
    }
    None
}

fn skipped_key(key: &str, for_search: bool) -> (r: bool)
    ensures
        r == skipped(key@, for_search),
{
    str_equals(key, "bookmarkData") || str_equals(key, "user") || str_equals(key, "profileImageUrl")
        || (for_search && str_equals(key, "tags"))
}

/// Collects, depth first, the id of every object that stands for a work
/// (not looking inside it, nor inside bookmark records, users or avatars,
/// nor, in a search, inside tag lists).
pub fn collect_work_object_ids(value: &JsonValue, for_search: bool, ids: &mut Vec<String>)
    ensures
        views(final(ids)@) == views(old(ids)@) + found_ids(*value, for_search),
        final(ids)@.len() >= old(ids)@.len(),
        forall|i: int| 0 <= i < old(ids)@.len() ==> final(ids)@[i] == old(ids)@[i],
        forall|i: int| old(ids)@.len() <= i < final(ids)@.len() ==> is_numeric(
            (#[trigger] final(ids)@[i])@,
        ),
    decreases value,
{
    match value {
        JsonValue::Object(members) => {
            if let Some(id) = work_id(members, for_search) {
                ids.push(id);
                proof {
                    assert(views(ids@) =~= views(old(ids)@) + found_ids(*value, for_search));
                }
                return;
            }
            let mut i: usize = 0;
            proof {
                assert(members@.take(0) =~= Seq::<(String, JsonValue)>::empty());
                assert(views(ids@) =~= views(old(ids)@) + member_ids(members@.take(0), for_search));
            }
            while i < members.len()
                invariant
                    *value == JsonValue::Object(*members),
                    i <= members@.len(),
                    views(ids@) == views(old(ids)@) + member_ids(members@.take(i as int), for_search),
                    ids@.len() >= old(ids)@.len(),
                    forall|j: int| 0 <= j < old(ids)@.len() ==> ids@[j] == old(ids)@[j],
                    forall|j: int| old(ids)@.len() <= j < ids@.len() ==> is_numeric(
                        (#[trigger] ids@[j])@,
                    ),
                decreases members.len() - i,
            {
                let ghost before = views(ids@);
                proof {
                    assert(members@.take(i + 1).drop_last() =~= members@.take(i as int));
                    assert(members@.take(i + 1)[i as int] == members@[i as int]);
                }
                if !skipped_key(members[i].0.as_str(), for_search) {
                    proof {
                        assert(decreases_to!(*value => value->Object_0));
                        assert(value->Object_0 == *members);
                        assert(decreases_to!(*members => members@));
                        assert(decreases_to!(members@ => members@[i as int]));
                        assert(decreases_to!(members@[i as int] => members@[i as int].1));
                        assert(decreases_to!(*value => members@[i as int].1));
                    }
                    collect_work_object_ids(&members[i].1, for_search, ids);
                    proof {
                        assert(views(ids@) =~= views(old(ids)@) + member_ids(
                            members@.take(i + 1),
                            for_search,
                        ));
                    }
                } else {
                    proof {
                        assert(views(ids@) =~= views(old(ids)@) + member_ids(
                            members@.take(i + 1),
                            for_search,
                        ));
                    }
                }
                i += 1;
            }
            proof {
                assert(members@.take(i as int) =~= members@);
            }
        },
        JsonValue::Array(items) => {
            let mut i: usize = 0;
            proof {
                assert(items@.take(0) =~= Seq::<JsonValue>::empty());
                assert(views(ids@) =~= views(old(ids)@) + item_ids(items@.take(0), for_search));
            }
            while i < items.len()
                invariant
                    *value == JsonValue::Array(*items),
                    i <= items@.len(),
                    views(ids@) == views(old(ids)@) + item_ids(items@.take(i as int), for_search),
                    ids@.len() >= old(ids)@.len(),
                    forall|j: int| 0 <= j < old(ids)@.len() ==> ids@[j] == old(ids)@[j],
                    forall|j: int| old(ids)@.len() <= j < ids@.len() ==> is_numeric(
                        (#[trigger] ids@[j])@,
                    ),
                decreases items.len() - i,
            {
                proof {
                    assert(decreases_to!(*value => value->Array_0));
                    assert(value->Array_0 == *items);
                    assert(decreases_to!(*items => items@));
                    assert(decreases_to!(items@ => items@[i as int]));
                    assert(decreases_to!(*value => items@[i as int]));
                    assert(items@.take(i + 1).drop_last() =~= items@.take(i as int));
                    assert(items@.take(i + 1)[i as int] == items@[i as int]);
                }
                collect_work_object_ids(&items[i], for_search, ids);
                proof {
                    assert(views(ids@) =~= views(old(ids)@) + item_ids(items@.take(i + 1), for_search));
                }
                i += 1;
            }
            proof {
                assert(items@.take(i as int) =~= items@);
            }
        },
        _ => {
            proof {
                assert(views(ids@) =~= views(old(ids)@) + found_ids(*value, for_search));
            }
        },
    }
}

/// The all-digit keys of an object's members, in order.
pub open spec fn digit_keys(members: Seq<(String, JsonValue)>) -> Seq<Seq<char>>
    decreases members.len(),
{
    if members.len() == 0 {
        Seq::empty()
    } else {
        let key = members[members.len() - 1].0@;
        digit_keys(members.drop_last()) + if all_digits(key) {
            seq![key]
        } else {
            Seq::<Seq<char>>::empty()
        }
    }
}

/// The non-empty all-digit strings of a list, in order.
pub open spec fn digit_texts(items: Seq<JsonValue>) -> Seq<Seq<char>>
    decreases items.len(),
{
    if items.len() == 0 {
        Seq::empty()
    } else {
        digit_texts(items.drop_last()) + match items[items.len() - 1] {
            JsonValue::Text(t) => if t@.len() > 0 && all_digits(t@) {
                seq![t@]
            } else {
                Seq::<Seq<char>>::empty()
            },
            _ => Seq::<Seq<char>>::empty(),
        }
    }
}

/// The ids a profile section lists: the all-digit keys of an object, or the
/// numeric strings of a list.
pub open spec fn section_work_ids(value: Option<JsonValue>) -> Seq<Seq<char>> {
    match value {
        Some(JsonValue::Object(members)) => digit_keys(members@),
        Some(JsonValue::Array(items)) => digit_texts(items@),
        _ => Seq::empty(),
    }
}

/// The ids an author's profile lists under one section: the all-digit keys
/// of an object, or the numeric strings of a list.
pub fn collect_work_ids(value: Option<&JsonValue>, ids: &mut Vec<String>)
    ensures
        views(final(ids)@) == views(old(ids)@) + section_work_ids(
            match value {
                Some(v) => Some(*v),
                None => None,
            },
        ),
        final(ids)@.len() >= old(ids)@.len(),
        forall|i: int| 0 <= i < old(ids)@.len() ==> final(ids)@[i] == old(ids)@[i],
        forall|i: int| old(ids)@.len() <= i < final(ids)@.len() ==> all_digits(
            (#[trigger] final(ids)@[i])@,
        ),
{
    match value {
        Some(JsonValue::Object(members)) => {
            let mut i: usize = 0;
            proof {
                assert(members@.take(0) =~= Seq::<(String, JsonValue)>::empty());
                assert(views(ids@) =~= views(old(ids)@) + digit_keys(members@.take(0)));
            }
            while i < members.len()
                invariant
                    i <= members@.len(),
                    views(ids@) == views(old(ids)@) + digit_keys(members@.take(i as int)),
                    ids@.len() >= old(ids)@.len(),
                    forall|j: int| 0 <= j < old(ids)@.len() ==> ids@[j] == old(ids)@[j],
                    forall|j: int| old(ids)@.len() <= j < ids@.len() ==> all_digits(
                        (#[trigger] ids@[j])@,
                    ),
                decreases members.len() - i,
            {
                proof {
                    assert(members@.take(i + 1).drop_last() =~= members@.take(i as int));
                    assert(members@.take(i + 1)[i as int] == members@[i as int]);
                }
                let ghost before = ids@;
                let ghost key = members@[i as int].0@;
                proof {
                    assert(digit_keys(members@.take(i + 1)) == digit_keys(members@.take(i as int))
                        + if all_digits(key) {
                        seq![key]
                    } else {
                        Seq::<Seq<char>>::empty()
                    });
                }
                if all_digit_chars(members[i].0.as_str()) {
                    let k = members[i].0.clone();
                    ids.push(k);
                    proof {
                        assert(views(ids@) =~= views(before).push(key));
                    }
                }
                proof {
                    assert(views(ids@) =~= views(old(ids)@) + digit_keys(members@.take(i + 1)));
                }
                i += 1;
            }
            proof {
                assert(members@.take(i as int) =~= members@);
            }
        },
        Some(JsonValue::Array(items)) => {
            let mut i: usize = 0;
            proof {
                assert(items@.take(0) =~= Seq::<JsonValue>::empty());
                assert(views(ids@) =~= views(old(ids)@) + digit_texts(items@.take(0)));
            }
            while i < items.len()
                invariant
                    i <= items@.len(),
                    views(ids@) == views(old(ids)@) + digit_texts(items@.take(i as int)),
                    ids@.len() >= old(ids)@.len(),
                    forall|j: int| 0 <= j < old(ids)@.len() ==> ids@[j] == old(ids)@[j],
                    forall|j: int| old(ids)@.len() <= j < ids@.len() ==> all_digits(
                        (#[trigger] ids@[j])@,
                    ),
                decreases items.len() - i,
            {
                proof {
                    assert(items@.take(i + 1).drop_last() =~= items@.take(i as int));
                    assert(items@.take(i + 1)[i as int] == items@[i as int]);
                }
                let ghost before = ids@;
                if let JsonValue::Text(id) = &items[i] {
                    if id.unicode_len() > 0 && all_digit_chars(id.as_str()) {
                        let t = id.clone();
                        ids.push(t);
                        proof {
                            assert(views(ids@) =~= views(before).push(id@));
                        }
                    }
                }
                proof {
                    assert(views(ids@) =~= views(old(ids)@) + digit_texts(items@.take(i + 1)));
                }
                i += 1;
            }
            proof {
                assert(items@.take(i as int) =~= items@);
            }
        },
        _ => {
            proof {
                assert(views(ids@) =~= views(old(ids)@) + Seq::<Seq<char>>::empty());
            }
        },
    }
}

/// The number an id is ordered by (`parse::<u64>`, 0 when it does not parse).
pub open spec fn id_number(id: Seq<char>) -> nat {
    match parse_unsigned(id, u64::MAX as nat) {
        Some(n) => n,
        None => 0,
    }
}

fn id_value(id: &str) -> (r: u64)
    ensures
        r as nat == id_number(id@),
{
    match parse_unsigned_str(id, u64::MAX) {
        Some(n) => n,
        None => 0,
    }
}

/// Newest (largest) id first; equal ids keep their order.
pub open spec fn newest_first(s: Seq<String>) -> bool {
    forall|i: int, j: int| 0 <= i < j < s.len() ==> id_number(#[trigger] s[i]@) >= id_number(
        #[trigger] s[j]@,
    )
}

/// Sorts ids newest first, stably.
pub fn sort_newest_first(ids: Vec<String>) -> (r: Vec<String>)
    ensures
        newest_first(r@),
        r@.to_multiset() == ids@.to_multiset(),
{
    let mut sorted: Vec<String> = Vec::new();
    let ghost original = ids@;
    let mut taken: usize = 0;
    proof {
        assert(original.subrange(0, 0) =~= Seq::<String>::empty());
    }
    while taken < ids.len()
        invariant
            ids@ == original,
            taken <= ids@.len(),
            newest_first(sorted@),
            sorted@.to_multiset() == original.subrange(0, taken as int).to_multiset(),
        decreases ids.len() - taken,
    {
        let item = ids[taken].clone();
        let key = id_value(item.as_str());
        let mut p: usize = 0;
        loop
            invariant
                p <= sorted@.len(),
                key as nat == id_number(item@),
                forall|k: int| 0 <= k < p ==> id_number(#[trigger] sorted@[k]@) >= key,
            ensures
                p <= sorted@.len(),
                forall|k: int| 0 <= k < p ==> id_number(#[trigger] sorted@[k]@) >= key,
                p < sorted@.len() ==> id_number(sorted@[p as int]@) < key,
            decreases sorted.len() - p,
        {
            if p >= sorted.len() {
                break;
            }
            if id_value(sorted[p].as_str()) < key {
                break;
            }
            p += 1;
        }
        let ghost before = sorted@;
        sorted.insert(p, item);
        proof {
            broadcast use vstd::seq_lib::group_to_multiset_ensures;

            assert(original.subrange(0, taken + 1) =~= original.subrange(0, taken as int).push(
                original[taken as int],
            ));
            assert forall|i: int, j: int| 0 <= i < j < sorted@.len() implies id_number(
                #[trigger] sorted@[i]@,
            ) >= id_number(#[trigger] sorted@[j]@) by {
                if j < p {
                    assert(sorted@[i] == before[i] && sorted@[j] == before[j]);
                    assert(id_number(before[i]@) >= id_number(before[j]@));
                } else if j == p {
                    assert(sorted@[i] == before[i]);
                } else if i == p {
                    assert(sorted@[j] == before[j - 1]);
                    if j - 1 > p {
                        assert(id_number(before[p as int]@) >= id_number(before[j - 1]@));
                    }
                } else if i < p {
                    assert(sorted@[i] == before[i] && sorted@[j] == before[j - 1]);
                    assert(id_number(before[i]@) >= id_number(before[j - 1]@));
                } else {
                    assert(sorted@[i] == before[i - 1] && sorted@[j] == before[j - 1]);
                    assert(id_number(before[i - 1]@) >= id_number(before[j - 1]@));
                }
            }
        }
        taken += 1;
    }
    proof {
        assert(original.subrange(0, taken as int) =~= original);
    }
    sorted
}

/// The ids with each run of equal neighbours kept once (`Vec::dedup`).
pub open spec fn dedup_adjacent(s: Seq<Seq<char>>) -> Seq<Seq<char>>
    decreases s.len(),
{
    if s.len() == 0 {
        Seq::empty()
    } else {
        let d = dedup_adjacent(s.drop_last());
        if d.len() > 0 && d.last() == s.last() {
            d
        } else {
            d.push(s.last())
        }
    }
}

proof fn lemma_dedup_last(s: Seq<Seq<char>>)
    ensures
        s.len() > 0 ==> dedup_adjacent(s).len() > 0 && dedup_adjacent(s).last() == s.last(),
        s.len() == 0 ==> dedup_adjacent(s).len() == 0,
    decreases s.len(),
{
}

/// Ids ordered newest first: each id's number is at least every later one's.
pub open spec fn ordered_ids(s: Seq<Seq<char>>) -> bool {
    forall|i: int, j: int| 0 <= i < j < s.len() ==> id_number(#[trigger] s[i]) >= id_number(
        #[trigger] s[j],
    )
}

/// No id equals the one right after it.
pub open spec fn adjacent_distinct(s: Seq<Seq<char>>) -> bool {
    forall|i: int, j: int| 0 <= i && j == i + 1 && j < s.len() ==> #[trigger] s[i] != #[trigger] s[j]
}

/// Collapsing runs keeps only ids of the input, keeps their order, and
/// leaves no two equal neighbours.
proof fn lemma_dedup_props(s: Seq<Seq<char>>)
    ensures
        forall|k: int| 0 <= k < dedup_adjacent(s).len() ==> s.contains(#[trigger] dedup_adjacent(s)[k]),
        ordered_ids(s) ==> ordered_ids(dedup_adjacent(s)),
        adjacent_distinct(dedup_adjacent(s)),
        dedup_adjacent(s).len() <= s.len(),
    decreases s.len(),
{
    if s.len() > 0 {
        let t = s.drop_last();
        lemma_dedup_props(t);
        lemma_dedup_last(t);
        let dt = dedup_adjacent(t);
        let d = dedup_adjacent(s);
        assert forall|k: int| 0 <= k < d.len() implies s.contains(#[trigger] d[k]) by {
            if k < dt.len() {
                assert(t.contains(dt[k]));
                let m = choose|m: int| 0 <= m < t.len() && t[m] == dt[k];
                assert(s[m] == t[m]);
            } else {
                assert(d[k] == s[s.len() - 1]);
            }
        }
        if ordered_ids(s) {
            assert(ordered_ids(t)) by {
                assert forall|i: int, j: int| 0 <= i < j < t.len() implies id_number(
                    #[trigger] t[i],
                ) >= id_number(#[trigger] t[j]) by {
                    assert(t[i] == s[i] && t[j] == s[j]);
                }
            }
            assert forall|i: int, j: int| 0 <= i < j < d.len() implies id_number(
                #[trigger] d[i],
            ) >= id_number(#[trigger] d[j]) by {
                if j < dt.len() {
                    assert(d[i] == dt[i] && d[j] == dt[j]);
                } else {
                    assert(d[i] == dt[i]);
                    assert(t.contains(dt[i]));
                    let m = choose|m: int| 0 <= m < t.len() && t[m] == dt[i];
                    assert(s[m] == t[m]);
                    assert(d[j] == s[s.len() - 1]);
                }
            }
        }
        assert forall|i: int, j: int| 0 <= i && j == i + 1 && j < d.len() implies #[trigger] d[i]
            != #[trigger] d[j] by {
            if j < dt.len() {
                assert(d[i] == dt[i] && d[j] == dt[j]);
            } else {
                assert(d[i] == dt.last());
            }
        }
    }
}

/// Keeps the first of each run of equal adjacent ids, then at most `limit`
/// of them, as work references.
pub fn dedup_and_take(ids: Vec<String>, limit: u32) -> (r: Vec<PixivWorkRef>)
    ensures
        r@.len() == if dedup_adjacent(crate::tags::views(ids@)).len() < limit {
            dedup_adjacent(crate::tags::views(ids@)).len()
        } else {
            limit as nat
        },
        forall|i: int| 0 <= i < r@.len() ==> (#[trigger] r@[i]).pixiv_id@ == dedup_adjacent(
            crate::tags::views(ids@),
        )[i],
        adjacent_distinct(ref_ids(r@)),
        ordered_ids(crate::tags::views(ids@)) ==> ordered_ids(ref_ids(r@)),
        forall|k: int| 0 <= k < r@.len() ==> crate::tags::views(ids@).contains(#[trigger] ref_ids(r@)[k]),
        ref_ids(r@) == first_ids(dedup_adjacent(views(ids@)), limit),
{
    let ghost all = crate::tags::views(ids@);
    let mut kept: Vec<String> = Vec::new();
    let mut i: usize = 0;
    while i < ids.len()
        invariant
            i <= ids@.len(),
            all == crate::tags::views(ids@),
            crate::tags::views(kept@) == dedup_adjacent(all.take(i as int)),
        decreases ids.len() - i,
    {
        proof {
            lemma_dedup_last(all.take(i as int));
            assert(all.take(i + 1).drop_last() =~= all.take(i as int));
            assert(all.take(i + 1).last() == ids@[i as int]@);
        }
        let n = kept.len();
        let same = n > 0 && str_equals(kept[n - 1].as_str(), ids[i].as_str());
        if !same {
            kept.push(ids[i].clone());
        }
        proof {
            assert(crate::tags::views(kept@) =~= dedup_adjacent(all.take(i + 1)));
        }
        i += 1;
    }
    proof {
        assert(all.take(i as int) =~= all);
    }
    let mut refs: Vec<PixivWorkRef> = Vec::new();
    let mut k: usize = 0;
    while k < kept.len() && k < limit as usize
        invariant
            k <= kept@.len(),
            k <= limit,
            refs@.len() == k,
            all == crate::tags::views(ids@),
            crate::tags::views(kept@) == dedup_adjacent(all),
            forall|j: int| 0 <= j < k ==> (#[trigger] refs@[j]).pixiv_id@ == kept@[j]@,
        decreases kept.len() - k,
    {
        refs.push(PixivWorkRef { pixiv_id: kept[k].clone() });
        k += 1;
    }
    proof {
        assert(crate::tags::views(kept@).len() == kept@.len());
        assert forall|j: int| 0 <= j < refs@.len() implies (#[trigger] refs@[j]).pixiv_id@
            == dedup_adjacent(all)[j] by {
            assert(crate::tags::views(kept@)[j] == kept@[j]@);
        }
        lemma_dedup_props(all);
        let d = dedup_adjacent(all);
        let ids_of = ref_ids(refs@);
        assert forall|j: int| 0 <= j < refs@.len() implies #[trigger] ids_of[j] == d[j] by {
            assert(refs@[j].pixiv_id@ == d[j]);
        }
        assert forall|i: int, j: int| 0 <= i && j == i + 1 && j < ids_of.len() implies #[trigger] ids_of[i]
            != #[trigger] ids_of[j] by {
            assert(ids_of[i] == d[i] && ids_of[j] == d[j]);
        }
        if ordered_ids(all) {
            assert forall|i: int, j: int| 0 <= i < j < ids_of.len() implies id_number(
                #[trigger] ids_of[i],
            ) >= id_number(#[trigger] ids_of[j]) by {
                assert(ids_of[i] == d[i] && ids_of[j] == d[j]);
            }
        }
        assert forall|k: int| 0 <= k < refs@.len() implies all.contains(#[trigger] ids_of[k]) by {
            assert(ids_of[k] == d[k]);
        }
        assert(ids_of =~= first_ids(d, limit));
    }
    refs
}

/// The first `limit` ids (all of them when there are fewer).
pub open spec fn first_ids(ids: Seq<Seq<char>>, limit: u32) -> Seq<Seq<char>> {
    if ids.len() < limit {
        ids
    } else {
        ids.take(limit as int)
    }
}

/// The ids of work references.
pub open spec fn ref_ids(refs: Seq<PixivWorkRef>) -> Seq<Seq<char>> {
    refs.map_values(|r: PixivWorkRef| r.pixiv_id@)
}

/// The ids an author's profile lists, illustrations then manga.
pub open spec fn profile_ids(body: JsonValue) -> Seq<Seq<char>> {
    section_work_ids(body.spec_get("illusts"@)) + section_work_ids(body.spec_get("manga"@))
}

/// `ids` is `listed` put newest first, each run collapsed, cut to `limit`.
pub open spec fn sorted_pick(ids: Seq<Seq<char>>, listed: Seq<Seq<char>>, limit: u32) -> bool {
    exists|c: Seq<String>, s: Seq<String>|
        #![trigger views(c), newest_first(s)]
        views(c) == listed && newest_first(s) && s.to_multiset() == c.to_multiset() && ids
            == first_ids(dedup_adjacent(views(s)), limit)
}

/// The works of an author's profile reply: illustrations and manga, newest
/// first, each once, at most `limit`.
pub fn parse_author_work_refs(value: &JsonValue, limit: u32) -> (r: Result<Vec<PixivWorkRef>, AppError>)
    ensures
        r is Err ==> r->Err_0.code == ErrorCode::PixivParseError,
        r matches Ok(refs) ==> refs@.len() <= limit && ordered_ids(ref_ids(refs@))
            && adjacent_distinct(ref_ids(refs@)) && forall|k: int|
            0 <= k < refs@.len() ==> all_digits(#[trigger] ref_ids(refs@)[k]),
        match reply_ok_body(*value) {
            Some(body) => r matches Ok(refs) && sorted_pick(ref_ids(refs@), profile_ids(body), limit),
            None => r is Err,
        },
{
    let body = reply_body(value)?;
    let mut ids: Vec<String> = Vec::new();
    proof {
        assert(views(ids@) =~= Seq::<Seq<char>>::empty());
    }
    collect_work_ids(body.get("illusts"), &mut ids);
    collect_work_ids(body.get("manga"), &mut ids);
    let ghost collected = ids@;
    proof {
        assert(views(collected) =~= profile_ids(*body));
    }
    let sorted = sort_newest_first(ids);
    let ghost ordered = sorted@;
    let refs = dedup_and_take(sorted, limit);
    proof {
        assert(views(collected) == profile_ids(*body) && newest_first(ordered));
        assert(sorted_pick(ref_ids(refs@), profile_ids(*body), limit));
        broadcast use vstd::seq_lib::group_to_multiset_ensures;

        let v = crate::tags::views(ordered);
        assert(ordered_ids(v)) by {
            assert forall|i: int, j: int| 0 <= i < j < v.len() implies id_number(#[trigger] v[i])
                >= id_number(#[trigger] v[j]) by {
                assert(v[i] == ordered[i]@ && v[j] == ordered[j]@);
            }
        }
        assert forall|k: int| 0 <= k < refs@.len() implies all_digits(#[trigger] ref_ids(refs@)[k]) by {
            let x = ref_ids(refs@)[k];
            assert(v.contains(x));
            let m = choose|m: int| 0 <= m < v.len() && v[m] == x;
            assert(ordered.contains(ordered[m]));
            assert(ordered.to_multiset().count(ordered[m]) > 0);
            assert(collected.to_multiset().count(ordered[m]) > 0);
            assert(collected.contains(ordered[m]));
            let n = choose|n: int| 0 <= n < collected.len() && collected[n] == ordered[m];
            assert(all_digits(collected[n]@));
        }
    }
    Ok(refs)
}

/// The ids a bookmarks reply lists: those of its `works` list, or of the
/// whole body when it has none.
pub open spec fn bookmark_ids(body: JsonValue) -> Seq<Seq<char>> {
    match body.spec_get("works"@) {
        Some(JsonValue::Array(works)) => item_ids(works@, false),
        _ => found_ids(body, false),
    }
}

/// The works of a bookmarks reply, in the reply's order, each run once, at most `limit`.
pub fn parse_bookmark_work_refs(value: &JsonValue, limit: u32) -> (r: Result<
    Vec<PixivWorkRef>,
    AppError,
>)
    ensures
        r is Err ==> r->Err_0.code == ErrorCode::PixivParseError,
        r matches Ok(refs) ==> refs@.len() <= limit && adjacent_distinct(ref_ids(refs@)) && forall|
            k: int,
        | 0 <= k < refs@.len() ==> is_numeric(#[trigger] ref_ids(refs@)[k]),
        match reply_ok_body(*value) {
            Some(body) => r matches Ok(refs) && ref_ids(refs@) == first_ids(
                dedup_adjacent(bookmark_ids(body)),
                limit,
            ),
            None => r is Err,
        },
{
    let body = reply_body(value)?;
    let mut ids: Vec<String> = Vec::new();
    proof {
        assert(views(ids@) =~= Seq::<Seq<char>>::empty());
    }
    match body.get("works") {
        Some(JsonValue::Array(works)) => {
            let mut i: usize = 0;
            proof {
                assert(works@.take(0) =~= Seq::<JsonValue>::empty());
                assert(views(ids@) =~= item_ids(works@.take(0), false));
            }
            while i < works.len()
                invariant
                    i <= works@.len(),
                    views(ids@) == item_ids(works@.take(i as int), false),
                    forall|j: int| 0 <= j < ids@.len() ==> is_numeric((#[trigger] ids@[j])@),
                decreases works.len() - i,
            {
                proof {
                    assert(works@.take(i + 1).drop_last() =~= works@.take(i as int));
                    assert(works@.take(i + 1)[i as int] == works@[i as int]);
                }
                collect_work_object_ids(&works[i], false, &mut ids);
                proof {
                    assert(views(ids@) =~= item_ids(works@.take(i + 1), false));
                }
                i += 1;
            }
            proof {
                assert(works@.take(i as int) =~= works@);
            }
        },
        _ => collect_work_object_ids(body, false, &mut ids),
    }
    let ghost found = ids@;
    proof {
        assert(views(found) =~= bookmark_ids(*body));
    }
    let refs = dedup_and_take(ids, limit);
    proof {
        lemma_numeric_refs(found, refs@);
    }
    Ok(refs)
}

/// References taken from numeric ids are numeric.
proof fn lemma_numeric_refs(ids: Seq<String>, refs: Seq<PixivWorkRef>)
    requires
        forall|j: int| 0 <= j < ids.len() ==> is_numeric((#[trigger] ids[j])@),
        forall|k: int| 0 <= k < refs.len() ==> crate::tags::views(ids).contains(#[trigger] ref_ids(refs)[k]),
    ensures
        forall|k: int| 0 <= k < refs.len() ==> is_numeric(#[trigger] ref_ids(refs)[k]),
{
    assert forall|k: int| 0 <= k < refs.len() implies is_numeric(#[trigger] ref_ids(refs)[k]) by {
        let v = crate::tags::views(ids);
        let x = ref_ids(refs)[k];
        assert(v.contains(x));
        let m = choose|m: int| 0 <= m < v.len() && v[m] == x;
        assert(v[m] == ids[m]@);
    }
}

/// The ids found under `data` in one result section of a search reply.
pub open spec fn section_data_ids(body: JsonValue, section: Seq<char>) -> Seq<Seq<char>> {
    match body.spec_get(section) {
        Some(found) => match found.spec_get("data"@) {
            Some(data) => found_ids(data, true),
            None => Seq::empty(),
        },
        None => Seq::empty(),
    }
}

/// The ids found under one member of a search reply's body.
pub open spec fn member_found_ids(body: JsonValue, key: Seq<char>) -> Seq<Seq<char>> {
    match body.spec_get(key) {
        Some(data) => found_ids(data, true),
        None => Seq::empty(),
    }
}

/// The ids a search reply lists: those of its result sections, its `data`
/// and its `works`, or, when these have none, those of the whole body.
pub open spec fn search_ids(body: JsonValue) -> Seq<Seq<char>> {
    let listed = section_data_ids(body, "illustManga"@) + section_data_ids(body, "illust"@)
        + section_data_ids(body, "manga"@) + member_found_ids(body, "data"@) + member_found_ids(
        body,
        "works"@,
    );
    if listed.len() == 0 {
        found_ids(body, true)
    } else {
        listed
    }
}

/// Collects the ids under `data` in one result section.
fn collect_section_ids(body: &JsonValue, section: &str, ids: &mut Vec<String>)
    ensures
        views(final(ids)@) == views(old(ids)@) + section_data_ids(*body, section@),
        (forall|j: int| 0 <= j < old(ids)@.len() ==> is_numeric((#[trigger] old(ids)@[j])@))
            ==> forall|j: int| 0 <= j < final(ids)@.len() ==> is_numeric((#[trigger] final(ids)@[j])@),
{
    if let Some(found) = body.get(section) {
        if let Some(data) = found.get("data") {
            collect_work_object_ids(data, true, ids);
            return;
        }
    }
    proof {
        assert(views(ids@) =~= views(old(ids)@) + section_data_ids(*body, section@));
    }
}

/// Collects the ids under one member of a search reply's body.
fn collect_member_ids(body: &JsonValue, key: &str, ids: &mut Vec<String>)
    ensures
        views(final(ids)@) == views(old(ids)@) + member_found_ids(*body, key@),
        (forall|j: int| 0 <= j < old(ids)@.len() ==> is_numeric((#[trigger] old(ids)@[j])@))
            ==> forall|j: int| 0 <= j < final(ids)@.len() ==> is_numeric((#[trigger] final(ids)@[j])@),
{
    if let Some(data) = body.get(key) {
        collect_work_object_ids(data, true, ids);
        return;
    }
    proof {
        assert(views(ids@) =~= views(old(ids)@) + member_found_ids(*body, key@));
    }
}

/// The works of a tag-search reply, from its result sections (or anywhere
/// in the body when they have none), each run once, at most `limit`.
pub fn parse_search_work_refs(value: &JsonValue, limit: u32) -> (r: Result<Vec<PixivWorkRef>, AppError>)
    ensures
        r is Err ==> r->Err_0.code == ErrorCode::PixivParseError,
        r matches Ok(refs) ==> refs@.len() <= limit && adjacent_distinct(ref_ids(refs@)) && forall|
            k: int,
        | 0 <= k < refs@.len() ==> is_numeric(#[trigger] ref_ids(refs@)[k]),
        match reply_ok_body(*value) {
            Some(body) => r matches Ok(refs) && ref_ids(refs@) == first_ids(
                dedup_adjacent(search_ids(body)),
                limit,
            ),
            None => r is Err,
        },
{
    let body = reply_body(value)?;
    let mut ids: Vec<String> = Vec::new();
    proof {
        assert(views(ids@) =~= Seq::<Seq<char>>::empty());
    }
    collect_section_ids(body, "illustManga", &mut ids);
    collect_section_ids(body, "illust", &mut ids);
    collect_section_ids(body, "manga", &mut ids);
    collect_member_ids(body, "data", &mut ids);
    collect_member_ids(body, "works", &mut ids);
    proof {
        let listed = section_data_ids(*body, "illustManga"@) + section_data_ids(*body, "illust"@)
            + section_data_ids(*body, "manga"@) + member_found_ids(*body, "data"@)
            + member_found_ids(*body, "works"@);
        assert(views(ids@) =~= listed);
    }
    if ids.len() == 0 {
        proof {
            assert(views(ids@) =~= Seq::<Seq<char>>::empty());
        }
        collect_work_object_ids(body, true, &mut ids);
    }
    let ghost found = ids@;
    proof {
        assert(views(found) =~= search_ids(*body));
    }
    let refs = dedup_and_take(ids, limit);
    proof {
        lemma_numeric_refs(found, refs@);
    }
    Ok(refs)
}

/// The bookmarks of both visibilities, merged: newest first, each once, at most `limit`.
pub fn merge_bookmark_refs(refs: Vec<PixivWorkRef>, limit: u32) -> (r: Vec<PixivWorkRef>)
    ensures
        r@.len() <= limit,
        ordered_ids(ref_ids(r@)),
        adjacent_distinct(ref_ids(r@)),
        forall|k: int| 0 <= k < r@.len() ==> ref_ids(refs@).contains(#[trigger] ref_ids(r@)[k]),
        sorted_pick(ref_ids(r@), ref_ids(refs@), limit),
{
    let mut ids: Vec<String> = Vec::new();
    let mut i: usize = 0;
    while i < refs.len()
        invariant
            i <= refs@.len(),
            ids@.len() == i,
            forall|j: int| 0 <= j < i ==> (#[trigger] ids@[j])@ == refs@[j].pixiv_id@,
        decreases refs.len() - i,
    {
        ids.push(refs[i].pixiv_id.clone());
        i += 1;
    }
    let ghost collected = ids@;
    proof {
        assert(views(collected) =~= ref_ids(refs@));
    }
    let sorted = sort_newest_first(ids);
    let ghost ordered = sorted@;
    let merged = dedup_and_take(sorted, limit);
    proof {
        assert(views(collected) == ref_ids(refs@) && newest_first(ordered));
        assert(sorted_pick(ref_ids(merged@), ref_ids(refs@), limit));
        broadcast use vstd::seq_lib::group_to_multiset_ensures;

        let v = crate::tags::views(ordered);
        assert(ordered_ids(v)) by {
            assert forall|i: int, j: int| 0 <= i < j < v.len() implies id_number(#[trigger] v[i])
                >= id_number(#[trigger] v[j]) by {
                assert(v[i] == ordered[i]@ && v[j] == ordered[j]@);
            }
        }
        assert forall|k: int| 0 <= k < merged@.len() implies ref_ids(refs@).contains(
            #[trigger] ref_ids(merged@)[k],
        ) by {
            let x = ref_ids(merged@)[k];
            assert(v.contains(x));
            let m = choose|m: int| 0 <= m < v.len() && v[m] == x;
            assert(ordered.contains(ordered[m]));
            assert(ordered.to_multiset().count(ordered[m]) > 0);
            assert(collected.to_multiset().count(ordered[m]) > 0);
            assert(collected.contains(ordered[m]));
            let n = choose|n: int| 0 <= n < collected.len() && collected[n] == ordered[m];
            assert(ref_ids(refs@)[n] == refs@[n].pixiv_id@);
        }
    }
    merged
}

/// The `illust` reply address of a work and its artwork page.
pub fn work_urls(pixiv_id: &str) -> (r: (String, String))
    ensures
        r.0@ == "https://www.pixiv.net/ajax/illust/"@ + pixiv_id@,
        r.1@ == "https://www.pixiv.net/artworks/"@ + pixiv_id@,
{
    let mut url = owned("https://www.pixiv.net/ajax/illust/");
    push_str(&mut url, pixiv_id);
    let mut referer = owned("https://www.pixiv.net/artworks/");
    push_str(&mut referer, pixiv_id);
    (url, referer)
}

/// The profile reply address of an author and its page.
pub fn author_urls(author_uid: &str) -> (r: (String, String))
    ensures
        r.0@ == "https://www.pixiv.net/ajax/user/"@ + author_uid@ + "/profile/all"@,
        r.1@ == "https://www.pixiv.net/users/"@ + author_uid@,
{
    let mut url = owned("https://www.pixiv.net/ajax/user/");
    push_str(&mut url, author_uid);
    push_str(&mut url, "/profile/all");
    let mut referer = owned("https://www.pixiv.net/users/");
    push_str(&mut referer, author_uid);
    (url, referer)
}

/// The bookmarks reply address for one visibility (`show` or `hide`) and its page.
pub fn bookmark_urls(user_uid: &str, remaining: u32, rest: &str) -> (r: (String, String))
    ensures
        r.0@ == "https://www.pixiv.net/ajax/user/"@ + user_uid@
            + "/illusts/bookmarks?tag=&offset=0&limit="@ + decimal(remaining as nat) + "&rest="@
            + rest@,
        r.1@ == "https://www.pixiv.net/users/"@ + user_uid@ + "/bookmarks/artworks"@,
{
    let mut url = owned("https://www.pixiv.net/ajax/user/");
    push_str(&mut url, user_uid);
    push_str(&mut url, "/illusts/bookmarks?tag=&offset=0&limit=");
    push_decimal(&mut url, remaining as u128);
    push_str(&mut url, "&rest=");
    push_str(&mut url, rest);
    let mut referer = owned("https://www.pixiv.net/users/");
    push_str(&mut referer, user_uid);
    push_str(&mut referer, "/bookmarks/artworks");
    (url, referer)
}

/// The checks the Pixiv client makes before asking for a listing.
pub fn check_listing_request(author_uid: Option<&str>, limit: u32) -> (r: Result<(), AppError>)
    ensures
        r is Err ==> r->Err_0.code == ErrorCode::ValidationError,
        limit == 0 && author_uid is None ==> r is Err,
{
    if let Some(uid) = author_uid {
        if crate::text::is_blank(uid) {
            return Err(AppError::validation("author_uid cannot be empty"));
        }
    }
    if limit == 0 {
        return Err(AppError::validation("limit must be at least 1"));
    }
    Ok(())
}

/// A client needs a session cookie that is not blank.
pub fn check_session_cookie(cookie: &str) -> (r: Result<(), AppError>)
    ensures
        r is Err <==> crate::text::trimmed(cookie@).len() == 0,
        r is Err ==> r->Err_0.code == ErrorCode::MissingPixivCookie && r->Err_0.message@
            == "PIXIV_PHPSESSID is required"@,
{
    proof {
        crate::text::lemma_trimmed_empty_iff(cookie@);
    }
    if crate::text::is_blank(cookie) {
        return Err(AppError::new(ErrorCode::MissingPixivCookie, "PIXIV_PHPSESSID is required"));
    }
    Ok(())
}

/// The JSON document of a reply's text; a text that is not JSON is a
/// network error carrying the reason.
pub fn reply_document(text: &str) -> (r: Result<JsonValue, AppError>)
    ensures
        match json_document(text@) {
            Some(document) => r == Ok::<JsonValue, AppError>(document),
            None => r matches Err(e) && e.code == ErrorCode::PixivNetworkError && e.message@
                == json_error_text(text@),
        },
{
    match read_json(text) {
        Ok(document) => Ok(document),
        Err(reason) => Err(AppError::new(ErrorCode::PixivNetworkError, reason.as_str())),
    }
}

/// The next bookmarks page to ask for, after `collected` works were
/// gathered by the earlier passes: the public bookmarks first, then the
/// private ones, each asked for what is still missing; none once `limit`
/// works are gathered or both were asked.
pub fn next_bookmark_page(collected: usize, limit: u32, pass: usize) -> (r: Option<(u32, &'static str)>)
    ensures
        pass >= 2 || collected >= limit ==> r is None,
        pass < 2 && collected < limit ==> (r matches Some((remaining, rest)) && remaining == limit
            - collected && rest@ == if pass == 0 {
            "show"@
        } else {
            "hide"@
        }),
{
    if pass >= 2 || collected >= limit as usize {
        return None;
    }
    proof {
        reveal_strlit("show");
        reveal_strlit("hide");
    }
    let remaining = limit - (collected as u32);
    Some((remaining, if pass == 0 {
        "show"
    } else {
        "hide"
    }))
}

} // verus!
