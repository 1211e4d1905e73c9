//! Pixiv-specific rules: image URLs, categories, the current-user marker in
//! the home page, search URLs and the ordering of discovered work ids.
use vstd::prelude::*;
use vstd::string::{StrSliceExecFns, StringSliceAdditionalSpecFns};

use crate::domain::{ImageCategory, PixivWork, PixivWorkRef, R18Policy};
use crate::errors::AppError;
use crate::images::{encode_bytes, encode_path_segment};
use crate::tags::{normalize_tag_list, normalized, views};
use crate::text::{
    all_digits, char_range, decimal, find, first_occurrence, is_digit, is_digit_char, owned,
    parse_unsigned, parse_unsigned_str, push_char, push_decimal, push_str, replace, replace_all,
};

verus! {

/// The client side of Pixiv that the download logic relies on.  Its
/// implementations talk to Pixiv (or stand in for it in tests).
pub trait PixivClient {
    fn fetch_work(&self, pixiv_id: &str) -> Result<PixivWork, AppError>;

    fn fetch_author_works(&self, author_uid: &str, limit: u32) -> Result<
        Vec<PixivWorkRef>,
        AppError,
    >;

    fn fetch_bookmarks(&self, limit: u32, r18_policy: R18Policy) -> Result<
        Vec<PixivWorkRef>,
        AppError,
    >;

    fn search_works_by_tags(
        &self,
        tags: &Vec<String>,
        negative_tags: &Vec<String>,
        limit: u32,
        r18_policy: R18Policy,
    ) -> Result<Vec<PixivWorkRef>, AppError>;

    fn download_image(&self, url: &str) -> Result<Vec<u8>, AppError>;
}

/// Percent-encoding of a query or path component (unreserved bytes stay).
pub fn percent_encode(value: &str) -> (r: String)
    ensures
        r@ == encode_bytes(value.spec_bytes()),
{
    encode_path_segment(value)
}

/// The original-size URL behind a `img-master` preview URL.
pub open spec fn spec_regular_to_original(url: Seq<char>) -> Seq<char> {
    replace_all(replace_all(url, "/img-master/"@, "/img-original/"@), "_master1200"@, ""@)
}

pub fn regular_to_original(url: &str) -> (r: String)
    ensures
        r@ == spec_regular_to_original(url@),
{
    proof {
        reveal_strlit("/img-master/");
        reveal_strlit("_master1200");
    }
    let first = replace(url, "/img-master/", "/img-original/");
    replace(first.as_str(), "_master1200", "")
}

/// The URL of page `page` derived from the URL of page 0.
pub open spec fn spec_page_url(first: Seq<char>, page: nat) -> Seq<char> {
    replace_all(
        replace_all(first, "_p0."@, "_p"@ + decimal(page) + "."@),
        "_p0_"@,
        "_p"@ + decimal(page) + "_"@,
    )
}

pub fn page_original_url(first_original: &str, page_index: u32) -> (r: String)
    ensures
        r@ == spec_page_url(first_original@, page_index as nat),
{
    proof {
        reveal_strlit("_p0.");
        reveal_strlit("_p0_");
    }
    let mut dot = owned("_p");
    push_decimal(&mut dot, page_index as u128);
    push_char(&mut dot, '.');
    let mut under = owned("_p");
    push_decimal(&mut under, page_index as u128);
    push_char(&mut under, '_');
    proof {
        reveal_strlit(".");
        reveal_strlit("_");
    }
    assert(dot@ =~= "_p"@ + decimal(page_index as nat) + "."@);
    assert(under@ =~= "_p"@ + decimal(page_index as nat) + "_"@);
    let first = replace(first_original, "_p0.", dot.as_str());
    replace(first.as_str(), "_p0_", under.as_str())
}

/// Position just past the last `c` in `s`, if `s` holds one.
pub open spec fn after_last(s: Seq<char>, c: char) -> Option<int>
    decreases s.len(),
{
    if s.len() == 0 {
        None
    } else if s.last() == c {
        Some(s.len() as int)
    } else {
        after_last(s.drop_last(), c)
    }
}

/// Length of the part of `s` before its first `c` (all of `s` without one).
pub open spec fn before_first(s: Seq<char>, c: char) -> int
    decreases s.len(),
{
    if s.len() == 0 {
        0
    } else if s[0] == c {
        0
    } else {
        1 + before_first(s.drop_first(), c)
    }
}

/// The extension of an image URL: after its last `.`, up to a `?`; `None`
/// when there is no `.` or nothing is left.
pub open spec fn spec_url_extension(url: Seq<char>) -> Option<Seq<char>> {
    match after_last(url, '.') {
        Some(k) => {
            let tail = url.subrange(k, url.len() as int);
            let ext = tail.subrange(0, before_first(tail, '?'));
            if ext.len() > 0 {
                Some(ext)
            } else {
                None
            }
        },
        None => None,
    }
}

proof fn lemma_after_last(s: Seq<char>, c: char)
    ensures
        after_last(s, c) matches Some(k) ==> 1 <= k <= s.len() && s[k - 1] == c && forall|i: int|
            k <= i < s.len() ==> s[i] != c,
        after_last(s, c) is None ==> forall|i: int| 0 <= i < s.len() ==> s[i] != c,
    decreases s.len(),
{
    if s.len() > 0 && s.last() != c {
        lemma_after_last(s.drop_last(), c);
        assert forall|i: int| 0 <= i < s.len() - 1 implies s.drop_last()[i] == s[i] by {}
    }
}

proof fn lemma_after_last_exact(s: Seq<char>, c: char, k: int)
    requires
        0 <= k <= s.len(),
        k > 0 ==> s[k - 1] == c,
        forall|i: int| k <= i < s.len() ==> s[i] != c,
    ensures
        after_last(s, c) == (if k == 0 {
            None
        } else {
            Some(k)
        }),
    decreases s.len(),
{
    if s.len() > 0 {
        if s.last() != c {
            lemma_after_last_exact(s.drop_last(), c, k);
        } else if k < s.len() {
            assert(s[s.len() - 1] != c);
        }
    }
}

proof fn lemma_before_first_exact(s: Seq<char>, c: char, k: int)
    requires
        0 <= k <= s.len(),
        k < s.len() ==> s[k] == c,
        forall|i: int| 0 <= i < k ==> s[i] != c,
    ensures
        before_first(s, c) == k,
    decreases s.len(),
{
    if s.len() > 0 && s[0] != c {
        assert forall|i: int| 0 <= i < k - 1 implies s.drop_first()[i] != c by {
            assert(s.drop_first()[i] == s[i + 1]);
        }
        if k - 1 < s.len() - 1 {
            assert(s.drop_first()[k - 1] == s[k]);
        }
        lemma_before_first_exact(s.drop_first(), c, k - 1);
    } else if s.len() > 0 {
        if k > 0 {
            assert(s[0] != c);
        }
    }
}

pub fn extension_from_url(url: &str) -> (r: Option<String>)
    ensures
        match spec_url_extension(url@) {
            Some(e) => r is Some && r->Some_0@ == e,
            None => r is None,
        },
{
    let n = url.unicode_len();
    let mut k: usize = n;
    while k > 0 && url.get_char(k - 1) != '.'
        invariant
            n == url@.len(),
            k <= n,
            forall|i: int| k <= i < n ==> url@[i] != '.',
        decreases k,
    {
        k -= 1;
    }
    proof {
        lemma_after_last_exact(url@, '.', k as int);
    }
    if k == 0 {
        return None;
    }
    let mut q = k;
    while q < n && url.get_char(q) != '?'
        invariant
            n == url@.len(),
            k <= q <= n,
            forall|i: int| k <= i < q ==> url@[i] != '?',
        decreases n - q,
    {
        q += 1;
    }
    let ghost tail = url@.subrange(k as int, n as int);
    proof {
        assert forall|i: int| 0 <= i < q - k implies tail[i] != '?' by {
            assert(tail[i] == url@[k + i]);
        }
        if q < n {
            assert(tail[q - k] == url@[q as int]);
        }
        lemma_before_first_exact(tail, '?', q - k);
        assert(tail.subrange(0, q - k) =~= url@.subrange(k as int, q as int));
    }
    if q == k {
        return None;
    }
    Some(char_range(url, k, q))
}

/// How Pixiv's rating fields read, for every pair of values: a positive
/// `xRestrict` makes a work R18; otherwise (zero, negative or missing) the
/// work is Nsfw exactly when `sl` is at least 6, and Normal when `sl` is
/// below 6 or missing.
pub proof fn lemma_category_rules(x_restrict: Option<i64>, sl: Option<i64>)
    ensures
        spec_category(x_restrict, sl) == ImageCategory::R18 <==> (x_restrict matches Some(x) && x > 0),
        spec_category(x_restrict, sl) == ImageCategory::Nsfw <==> (!(x_restrict matches Some(x) && x > 0)
            && (sl matches Some(s) && s >= 6)),
        spec_category(x_restrict, sl) == ImageCategory::Normal <==> (!(x_restrict matches Some(x) && x > 0)
            && !(sl matches Some(s) && s >= 6)),
{
}

/// The rating Pixiv's `xRestrict` and `sl` fields give (missing fields count as 0).
pub open spec fn spec_category(x_restrict: Option<i64>, sl: Option<i64>) -> ImageCategory {
    let x = match x_restrict {
        Some(v) => v as int,
        None => 0,
    };
    let s = match sl {
        Some(v) => v as int,
        None => 0,
    };
    if x > 0 {
        ImageCategory::R18
    } else if s >= 6 {
        ImageCategory::Nsfw
    } else {
        ImageCategory::Normal
    }
}

pub fn parse_category(x_restrict: Option<i64>, sl: Option<i64>) -> (r: ImageCategory)
    ensures
        r == spec_category(x_restrict, sl),
{
    let x = match x_restrict {
        Some(v) => v,
        None => 0,
    };
    let s = match sl {
        Some(v) => v,
        None => 0,
    };
    if x > 0 {
        ImageCategory::R18
    } else if s >= 6 {
        ImageCategory::Nsfw
    } else {
        ImageCategory::Normal
    }
}

/// Length of the run of ASCII digits at the start of `s`.
pub open spec fn digit_run(s: Seq<char>) -> int
    decreases s.len(),
{
    if s.len() > 0 && is_digit(s[0]) {
        1 + digit_run(s.drop_first())
    } else {
        0
    }
}

/// The digits right after the first occurrence of `marker` in `html`
/// (empty when the marker is missing).
pub open spec fn uid_after(html: Seq<char>, marker: Seq<char>) -> Seq<char> {
    match first_occurrence(html, marker) {
        Some(i) => {
            let after = html.subrange(i + marker.len(), html.len() as int);
            after.subrange(0, digit_run(after))
        },
        None => Seq::empty(),
    }
}

pub open spec fn uid_markers() -> Seq<Seq<char>> {
    seq![
        "\"userData\":{\"id\":\""@,
        "\"userData\":{\"id\":"@,
        "\"userId\":\""@,
        "\"userId\":"@,
        "pixiv.user.id = \""@,
    ]
}

/// The current user's id in Pixiv's home page: the first marker (in order)
/// whose first occurrence is followed by digits gives them.
pub open spec fn spec_current_user_uid(html: Seq<char>) -> Option<Seq<char>> {
    uid_from_markers(html, uid_markers())
}

pub open spec fn uid_from_markers(html: Seq<char>, markers: Seq<Seq<char>>) -> Option<Seq<char>>
    decreases markers.len(),
{
    if markers.len() == 0 {
        None
    } else if uid_after(html, markers[0]).len() > 0 {
        Some(uid_after(html, markers[0]))
    } else {
        uid_from_markers(html, markers.drop_first())
    }
}

proof fn lemma_digit_run_exact(s: Seq<char>, k: int)
    requires
        0 <= k <= s.len(),
        forall|i: int| 0 <= i < k ==> is_digit(s[i]),
        k < s.len() ==> !is_digit(s[k]),
    ensures
        digit_run(s) == k,
    decreases s.len(),
{
    if k > 0 {
        assert forall|i: int| 0 <= i < k - 1 implies is_digit(s.drop_first()[i]) by {
            assert(s.drop_first()[i] == s[i + 1]);
        }
        if k < s.len() {
            assert(s.drop_first()[k - 1] == s[k]);
        }
        lemma_digit_run_exact(s.drop_first(), k - 1);
    }
}

proof fn lemma_first_occurrence_occurs(s: Seq<char>, pat: Seq<char>)
    ensures
        first_occurrence(s, pat) matches Some(i) ==> 0 <= i && crate::text::occurs_at(s, pat, i),
{
    crate::text::lemma_first_from(s, pat, 0);
}

fn digits_after_marker(html: &str, marker: &str) -> (r: String)
    ensures
        r@ == uid_after(html@, marker@),
{
    match find(html, marker) {
        Some(start) => {
            proof {
                lemma_first_occurrence_occurs(html@, marker@);
            }
            let n = html.unicode_len();
            let from = start + marker.unicode_len();
            let mut end = from;
            while end < n && is_digit_char(html.get_char(end))
                invariant
                    n == html@.len(),
                    from <= end <= n,
                    forall|i: int| from <= i < end ==> is_digit(html@[i]),
                decreases n - end,
            {
                end += 1;
            }
            let ghost after = html@.subrange(from as int, n as int);
            proof {
                assert forall|i: int| 0 <= i < end - from implies is_digit(after[i]) by {
                    assert(after[i] == html@[from + i]);
                }
                if end < n {
                    assert(after[end - from] == html@[end as int]);
                }
                lemma_digit_run_exact(after, end - from);
                assert(after.subrange(0, end - from) =~= html@.subrange(from as int, end as int));
            }
            char_range(html, from, end)
        },
        None => String::new(),
    }
}

pub fn extract_current_user_uid(html: &str) -> (r: Option<String>)
    ensures
        match spec_current_user_uid(html@) {
            Some(id) => r is Some && r->Some_0@ == id,
            None => r is None,
        },
{
    let markers = ["\"userData\":{\"id\":\"", "\"userData\":{\"id\":", "\"userId\":\"", "\"userId\":", "pixiv.user.id = \""];
    let ghost ms = uid_markers();
    assert(markers@.map_values(|m: &str| m@) =~= ms);
    assert(ms.subrange(0, 5) =~= ms);
    let mut i: usize = 0;
    while i < 5
        invariant
            i <= 5,
            markers@.map_values(|m: &str| m@) == ms,
            ms == uid_markers(),
            uid_from_markers(html@, ms) == uid_from_markers(html@, ms.subrange(i as int, 5)),
        decreases 5 - i,
    {
        let ghost rest = ms.subrange(i as int, 5);
        assert(rest[0] == markers@[i as int]@);
        assert(rest.drop_first() =~= ms.subrange(i + 1, 5));
        let id = digits_after_marker(html, markers[i]);
        if !id.as_str().is_empty() {
            return Some(id);
        }
        i += 1;
    }
    None
}

/// The search mode Pixiv is asked for under each policy.
pub open spec fn spec_search_mode(policy: R18Policy) -> Seq<char> {
    match policy {
        R18Policy::Exclude => "safe"@,
        R18Policy::OnlyR18 => "r18"@,
        _ => "all"@,
    }
}

pub fn search_mode(policy: R18Policy) -> (r: &'static str)
    ensures
        r@ == spec_search_mode(policy),
{
    match policy {
        R18Policy::Exclude => "safe",
        R18Policy::OnlyR18 => "r18",
        R18Policy::IncludeBlurred | R18Policy::IncludeVisible => "all",
    }
}

/// The search asks Pixiv for R18 works exactly under `OnlyR18`, for safe
/// works exactly under `Exclude`, and for all works exactly under the two
/// policies that include R18 works beside the others.
pub proof fn lemma_search_mode_by_policy(policy: R18Policy)
    ensures
        spec_search_mode(policy) == "r18"@ <==> policy == R18Policy::OnlyR18,
        spec_search_mode(policy) == "safe"@ <==> policy == R18Policy::Exclude,
        spec_search_mode(policy) == "all"@ <==> (policy == R18Policy::IncludeBlurred || policy
            == R18Policy::IncludeVisible),
{
    reveal_strlit("r18");
    reveal_strlit("safe");
    reveal_strlit("all");
    assert("r18"@ != "all"@) by {
        assert("r18"@[0] != "all"@[0]);
    }
    assert("safe"@.len() != "all"@.len());
    assert("safe"@.len() != "r18"@.len());
}

/// The normalised search tags (see `tags::normalized`).
pub fn normalize_search_tags(tags: &Vec<String>) -> (r: Vec<String>)
    ensures
        views(r@) == normalized(views(tags@)),
{
    normalize_tag_list(tags)
}

/// The search words: the tags, then each negative tag prefixed with `-`,
/// joined by single spaces.
pub open spec fn search_words(tags: Seq<Seq<char>>, negative: Seq<Seq<char>>) -> Seq<char> {
    join_words(tags + negative.map_values(|t: Seq<char>| seq!['-'] + t))
}

pub open spec fn join_words(words: Seq<Seq<char>>) -> Seq<char>
    decreases words.len(),
{
    if words.len() == 0 {
        Seq::empty()
    } else if words.len() == 1 {
        words[0]
    } else {
        join_words(words.drop_last()) + seq![' '] + words.last()
    }
}

/// The tag-search request for Pixiv: the search URL and the referer page.
pub struct SearchRequest {
    pub url: String,
    pub referer: String,
}

pub open spec fn search_url_for(primary: Seq<char>, words: Seq<char>, mode: Seq<char>) -> Seq<
    char,
> {
    "https://www.pixiv.net/ajax/search/artworks/"@ + encode_utf8_pct(primary) + "?word="@
        + encode_utf8_pct(words) + "&order=date_d&mode="@ + mode
        + "&p=1&s_mode=s_tag&type=all&lang=zh"@
}

/// Percent-encoding of the UTF-8 encoding of a text.
pub open spec fn encode_utf8_pct(s: Seq<char>) -> Seq<char> {
    encode_bytes(vstd::utf8::encode_utf8(s))
}

/// Builds the tag search: at least one tag must survive normalisation and
/// the limit must be positive; otherwise a validation error.
pub fn search_request(
    tags: &Vec<String>,
    negative_tags: &Vec<String>,
    limit: u32,
    r18_policy: R18Policy,
) -> (r: Result<SearchRequest, AppError>)
    ensures
        limit == 0 ==> r is Err && r->Err_0.message@ == "limit must be at least 1"@,
        limit > 0 && normalized(views(tags@)).len() == 0 ==> r is Err && r->Err_0.message@
            == "tags cannot be empty"@,
        r is Err ==> r->Err_0.code == crate::errors::ErrorCode::ValidationError,
        limit > 0 && normalized(views(tags@)).len() > 0 ==> r is Ok && ({
            let t = normalized(views(tags@));
            let words = search_words(t, normalized(views(negative_tags@)));
            &&& r->Ok_0.url@ == search_url_for(t[0], words, spec_search_mode(r18_policy))
            &&& r->Ok_0.referer@ == "https://www.pixiv.net/tags/"@ + encode_utf8_pct(t[0])
                + "/artworks"@
        }),
{
    if limit == 0 {
        return Err(AppError::validation("limit must be at least 1"));
    }
    let ghost original = views(tags@);
    let tags = normalize_search_tags(tags);
    if tags.len() == 0 {
        return Err(AppError::validation("tags cannot be empty"));
    }
    let negative = normalize_search_tags(negative_tags);
    let ghost t = views(tags@);
    let ghost neg = views(negative@);
    let ghost all = t + neg.map_values(|x: Seq<char>| seq!['-'] + x);
    let mut word = String::new();
    let mut i: usize = 0;
    while i < tags.len()
        invariant
            i <= tags@.len(),
            t == views(tags@),
            all == t + neg.map_values(|x: Seq<char>| seq!['-'] + x),
            tags@.len() > 0,
            i > 0 ==> word@ == join_words(all.take(i as int)),
            i == 0 ==> word@.len() == 0,
        decreases tags.len() - i,
    {
        assert(all.take(i + 1).drop_last() =~= all.take(i as int));
        assert(all[i as int] == tags@[i as int]@);
        if i > 0 {
            push_char(&mut word, ' ');
        }
        push_str(&mut word, tags[i].as_str());
        proof {
            if i == 0 {
                assert(word@ =~= all.take(1)[0]);
            }
        }
        i += 1;
    }
    let mut j: usize = 0;
    while j < negative.len()
        invariant
            j <= negative@.len(),
            t == views(tags@),
            neg == views(negative@),
            t.len() > 0,
            all == t + neg.map_values(|x: Seq<char>| seq!['-'] + x),
            word@ == join_words(all.take(t.len() + j)),
        decreases negative.len() - j,
    {
        assert(all.take(t.len() + j + 1).drop_last() =~= all.take(t.len() + j));
        assert(all[t.len() + j] =~= seq!['-'] + negative@[j as int]@);
        push_char(&mut word, ' ');
        push_char(&mut word, '-');
        push_str(&mut word, negative[j].as_str());
        assert(word@ =~= join_words(all.take(t.len() + j)) + seq![' '] + all[t.len() + j]);
        j += 1;
    }
    assert(all.take(all.len() as int) =~= all);
    assert(t == normalized(original));
    let primary = tags[0].as_str();
    let mut url = owned("https://www.pixiv.net/ajax/search/artworks/");
    push_str(&mut url, percent_encode(primary).as_str());
    push_str(&mut url, "?word=");
    push_str(&mut url, percent_encode(word.as_str()).as_str());
    push_str(&mut url, "&order=date_d&mode=");
    push_str(&mut url, search_mode(r18_policy));
    push_str(&mut url, "&p=1&s_mode=s_tag&type=all&lang=zh");
    let mut referer = owned("https://www.pixiv.net/tags/");
    push_str(&mut referer, percent_encode(primary).as_str());
    push_str(&mut referer, "/artworks");
    proof {
        assert(url@ =~= search_url_for(t[0], word@, spec_search_mode(r18_policy)));
    }
    Ok(SearchRequest { url, referer })
}

} // verus!
