//! The image index's vocabulary and the pure rules around it: preview URLs,
//! content types, the allowed-root check and list paging.
use vstd::prelude::*;
use vstd::string::{StrSliceExecFns, StringSliceAdditionalSpecFns};

use crate::db::{
    cell_opt_text, cell_opt_u32, cell_text, cell_u32, execute, execute_batch, params_are, query,
    sql_integer, sql_opt_string, sql_opt_text, sql_text, opt_text, opt_text_param, opt_u32_param,
    ParamSpec, SqlCell, appended, execute_noted, opt_str, SqlWrite,
};
use crate::domain::{ImageCategory, ImageSource};
use crate::errors::{AppError, ErrorCode};
use crate::text::{is_blank, owned, trim, trimmed};
use crate::storage::{ascii_lower_char, file_name_start};
use crate::text::{ascii_lower, is_ascii_alnum, percent_escape, push_char, push_percent_escape, push_str};

verus! {

/// A row to write into the image index.
#[derive(Debug, Clone, PartialEq, Eq)]
pub struct NewImageRecord {
    pub image_id: String,
    pub pixiv_id: String,
    pub page_index: u32,
    pub author_uid: Option<String>,
    pub title: Option<String>,
    pub category: ImageCategory,
    pub local_path: String,
    pub thumbnail_path: Option<String>,
    pub width: Option<u32>,
    pub height: Option<u32>,
    pub downloaded_at: String,
}

/// A row of the image index.
#[derive(Debug, Clone, PartialEq, Eq)]
pub struct ImageRecord {
    pub image_id: String,
    pub pixiv_id: String,
    pub page_index: u32,
    pub author_uid: Option<String>,
    pub title: Option<String>,
    pub category: ImageCategory,
    pub local_path: String,
    pub thumbnail_path: Option<String>,
    pub width: Option<u32>,
    pub height: Option<u32>,
    pub downloaded_at: String,
    pub created_at: String,
    pub updated_at: String,
}

/// One provenance entry of an image.
#[derive(Debug, Clone, PartialEq, Eq)]
pub struct ImageSourceRecord {
    pub image_id: String,
    pub source: ImageSource,
    pub task_id: Option<String>,
    pub created_at: String,
}

/// Filters and paging of the gallery listing.
#[derive(Debug, Clone, PartialEq, Eq)]
pub struct ImageListQuery {
    pub tag: Option<String>,
    pub category: Option<ImageCategory>,
    pub author_uid: Option<String>,
    pub source: Option<ImageSource>,
    pub r18_visibility: ImageR18Visibility,
    pub limit: usize,
    pub cursor_offset: usize,
}

/// Which ratings the gallery shows.
#[derive(Debug, Clone, Copy, PartialEq, Eq, Structural)]
pub enum ImageR18Visibility {
    Include,
    Exclude,
    OnlyR18,
}

/// A gallery entry: an image and its tags.
#[derive(Debug, Clone, PartialEq, Eq)]
pub struct ImageListItem {
    pub image: ImageRecord,
    pub tags: Vec<String>,
}

/// One page of the gallery.
#[derive(Debug, Clone, PartialEq, Eq)]
pub struct ImageListPage {
    pub items: Vec<ImageListItem>,
    pub next_cursor_offset: Option<usize>,
}

/// A file ready to be served.
#[derive(Debug, Clone, PartialEq, Eq)]
pub struct ImageFile {
    pub path: String,
    pub content_type: &'static str,
}

/// What deleting an image did.
#[derive(Debug, Clone, PartialEq, Eq)]
pub struct ImageDeleteOutcome {
    pub image_id: String,
    pub pixiv_id: String,
    pub page_index: u32,
    pub file_deleted: bool,
    pub file_missing: bool,
}

/// Bytes that stay as they are in a URL path segment.
pub open spec fn is_unreserved(b: u8) -> bool {
    (48 <= b <= 57) || (65 <= b <= 90) || (97 <= b <= 122) || b == 45 || b == 46 || b == 95
        || b == 126
}

/// Percent-encoding of a byte string: unreserved bytes stay, others become `%XX`.
pub open spec fn encode_bytes(bytes: Seq<u8>) -> Seq<char>
    decreases bytes.len(),
{
    if bytes.len() == 0 {
        Seq::empty()
    } else {
        encode_bytes(bytes.drop_last()) + (if is_unreserved(bytes.last()) {
            seq![bytes.last() as char]
        } else {
            percent_escape(bytes.last())
        })
    }
}

/// The URL path segment for a text: its UTF-8 bytes, percent-encoded.
pub fn encode_path_segment(value: &str) -> (r: String)
    ensures
        r@ == encode_bytes(value.spec_bytes()),
{
    let bytes = value.as_bytes();
    let mut r = String::new();
    let mut i: usize = 0;
    while i < bytes.len()
        invariant
            bytes@ == value.spec_bytes(),
            i <= bytes@.len(),
            r@ == encode_bytes(bytes@.subrange(0, i as int)),
        decreases bytes.len() - i,
    {
        let b = bytes[i];
        assert(bytes@.subrange(0, i + 1).drop_last() == bytes@.subrange(0, i as int));
        if (48 <= b && b <= 57) || (65 <= b && b <= 90) || (97 <= b && b <= 122) || b == 45 || b
            == 46 || b == 95 || b == 126 {
            push_char(&mut r, b as char);
        } else {
            push_percent_escape(&mut r, b);
        }
        i += 1;
    }
    assert(bytes@.subrange(0, bytes@.len() as int) == bytes@);
    r
}

/// The URL that serves the file of the image with this id.
pub open spec fn preview_url(image_id: Seq<char>) -> Seq<char> {
    "/api/images/"@ + encode_bytes(vstd::utf8::encode_utf8(image_id)) + "/file"@
}

/// The URL that serves an image's file; it names the image, never its path.
pub fn preview_url_for(image_id: &str) -> (r: String)
    ensures
        r@ == "/api/images/"@ + encode_bytes(image_id.spec_bytes()) + "/file"@,
        r@ == preview_url(image_id@),
{
    let mut r = crate::text::owned("/api/images/");
    let seg = encode_path_segment(image_id);
    push_str(&mut r, seg.as_str());
    push_str(&mut r, "/file");
    r
}

/// Where the extension of a file name starts: one past its last `.`, or
/// `None` when there is no `.` past the first character (`Path::extension`).
pub open spec fn extension_start(name: Seq<char>) -> Option<int>
    decreases name.len(),
{
    if name.len() <= 1 {
        None
    } else if name.last() == '.' {
        Some(name.len() as int)
    } else {
        extension_start(name.drop_last())
    }
}

/// The extension of the last component of a path.
pub open spec fn path_extension(p: Seq<char>) -> Option<Seq<char>> {
    let name = p.subrange(file_name_start(p), p.len() as int);
    match extension_start(name) {
        Some(k) => Some(name.subrange(k, name.len() as int)),
        None => None,
    }
}

/// The MIME type served for a lower-cased extension.
pub open spec fn content_type_of(ext: Option<Seq<char>>) -> Seq<char> {
    match ext {
        Some(e) => if e == "jpg"@ || e == "jpeg"@ {
            "image/jpeg"@
        } else if e == "png"@ {
            "image/png"@
        } else if e == "gif"@ {
            "image/gif"@
        } else if e == "webp"@ {
            "image/webp"@
        } else if e == "bmp"@ {
            "image/bmp"@
        } else if e == "avif"@ {
            "image/avif"@
        } else {
            "application/octet-stream"@
        },
        None => "application/octet-stream"@,
    }
}

proof fn lemma_extension_start_bound(name: Seq<char>)
    ensures
        extension_start(name) matches Some(k) ==> 2 <= k <= name.len() && name[k - 1] == '.'
            && forall|i: int| k <= i < name.len() ==> name[i] != '.',
    decreases name.len(),
{
    if name.len() > 1 && name.last() != '.' {
        lemma_extension_start_bound(name.drop_last());
        if let Some(k) = extension_start(name) {
            assert(name[k - 1] == name.drop_last()[k - 1]);
            assert forall|i: int| k <= i < name.len() implies name[i] != '.' by {
                if i < name.len() - 1 {
                    assert(name[i] == name.drop_last()[i]);
                }
            }
        }
    }
}

proof fn lemma_extension_start_exact(name: Seq<char>, k: int)
    requires
        2 <= k <= name.len(),
        name[k - 1] == '.',
        forall|i: int| k <= i < name.len() ==> name[i] != '.',
    ensures
        extension_start(name) == Some(k),
    decreases name.len(),
{
    if name.last() != '.' {
        lemma_extension_start_exact(name.drop_last(), k);
    } else {
        if k < name.len() {
            assert(name[name.len() - 1] != '.');
        }
    }
}

proof fn lemma_extension_start_none(name: Seq<char>)
    requires
        forall|i: int| 1 <= i < name.len() ==> name[i] != '.',
    ensures
        extension_start(name) is None,
    decreases name.len(),
{
    if name.len() > 1 {
        assert(name.last() != '.');
        lemma_extension_start_none(name.drop_last());
    }
}

/// The content type served for a file, chosen by its extension, ignoring case.
pub fn content_type_for_path(path: &str) -> (r: &'static str)
    ensures
        r@ == content_type_of(
            match path_extension(path@) {
                Some(e) => Some(e.map_values(|c: char| ascii_lower(c))),
                None => None,
            },
        ),
{
    let n = path.unicode_len();
    let mut start: usize = n;
    while start > 0 && path.get_char(start - 1) != '/'
        invariant
            n == path@.len(),
            start <= n,
            forall|i: int| start <= i < n ==> path@[i] != '/',
        decreases start,
    {
        start -= 1;
    }
    proof {
        crate::storage::lemma_file_name_start_exact(path@, start as int);
    }
    let ghost name = path@.subrange(start as int, n as int);
    let mut dot: usize = n;
    while dot - start > 1 && path.get_char(dot - 1) != '.'
        invariant
            n == path@.len(),
            start <= dot <= n,
            forall|i: int| dot <= i < n ==> path@[i] != '.',
        decreases dot,
    {
        dot -= 1;
    }
    if dot - start <= 1 {
        proof {
            assert forall|i: int| 1 <= i < name.len() implies name[i] != '.' by {
                assert(name[i] == path@[start + i]);
            }
            lemma_extension_start_none(name);
        }
        return "application/octet-stream";
    }
    proof {
        assert(name[dot - start - 1] == '.');
        assert forall|i: int| dot - start <= i < name.len() implies name[i] != '.' by {
            assert(name[i] == path@[start + i]);
        }
        lemma_extension_start_exact(name, dot - start);
    }
    let mut ext = String::new();
    let mut i = dot;
    while i < n
        invariant
            n == path@.len(),
            dot <= i <= n,
            ext@ == path@.subrange(dot as int, i as int).map_values(|c: char| ascii_lower(c)),
        decreases n - i,
    {
        let c = ascii_lower_char(path.get_char(i));
        push_char(&mut ext, c);
        assert(path@.subrange(dot as int, i + 1).map_values(|c: char| ascii_lower(c))
            =~= path@.subrange(dot as int, i as int).map_values(|c: char| ascii_lower(c)).push(c));
        i += 1;
    }
    assert(name.subrange(dot - start, name.len() as int) =~= path@.subrange(dot as int, n as int));
    let e = ext.as_str();
    if crate::text::str_equals(e, "jpg") || crate::text::str_equals(e, "jpeg") {
        "image/jpeg"
    } else if crate::text::str_equals(e, "png") {
        "image/png"
    } else if crate::text::str_equals(e, "gif") {
        "image/gif"
    } else if crate::text::str_equals(e, "webp") {
        "image/webp"
    } else if crate::text::str_equals(e, "bmp") {
        "image/bmp"
    } else if crate::text::str_equals(e, "avif") {
        "image/avif"
    } else {
        "application/octet-stream"
    }
}

/// Whether `path` lies at or below `root`, component by component; both are
/// canonical paths (absolute, no `.`/`..`, no repeated or trailing `/`).
pub open spec fn path_within(path: Seq<char>, root: Seq<char>) -> bool {
    path == root || (root.len() < path.len() && path.subrange(0, root.len() as int) == root && (
    (root.len() > 0 && root.last() == '/') || path[root.len() as int] == '/'))
}

/// `Path::starts_with` for canonical paths.
pub fn path_starts_with(path: &str, root: &str) -> (r: bool)
    ensures
        r == path_within(path@, root@),
{
    let n = path.unicode_len();
    let m = root.unicode_len();
    if m > n {
        return false;
    }
    let mut i: usize = 0;
    while i < m
        invariant
            n == path@.len(),
            m == root@.len(),
            m <= n,
            i <= m,
            path@.subrange(0, i as int) == root@.subrange(0, i as int),
        decreases m - i,
    {
        if path.get_char(i) != root.get_char(i) {
            assert(path@.subrange(0, m as int)[i as int] != root@[i as int]);
            return false;
        }
        assert(path@.subrange(0, i + 1) =~= path@.subrange(0, i as int).push(path@[i as int]));
        assert(root@.subrange(0, i + 1) =~= root@.subrange(0, i as int).push(root@[i as int]));
        i += 1;
    }
    assert(root@.subrange(0, m as int) =~= root@);
    if m == n {
        assert(path@ =~= root@);
        return true;
    }
    (m > 0 && root.get_char(m - 1) == '/') || path.get_char(m) == '/'
}

/// Succeeds when the path lies inside one of the (canonical) roots; otherwise
/// a validation error.
pub fn ensure_path_inside_roots(path: &str, canonical_roots: &Vec<String>) -> (r: Result<
    (),
    crate::errors::AppError,
>)
    ensures
        r is Ok <==> exists|i: int|
            0 <= i < canonical_roots@.len() && path_within(path@, #[trigger] canonical_roots@[i]@),
        r is Err ==> r->Err_0.code == crate::errors::ErrorCode::ValidationError
            && r->Err_0.message@ == "stored image path is outside allowed download roots"@,
{
    let mut i: usize = 0;
    while i < canonical_roots.len()
        invariant
            i <= canonical_roots@.len(),
            forall|j: int| 0 <= j < i ==> !path_within(path@, #[trigger] canonical_roots@[j]@),
        decreases canonical_roots.len() - i,
    {
        if path_starts_with(path, canonical_roots[i].as_str()) {
            return Ok(());
        }
        i += 1;
    }
    Err(crate::errors::AppError::validation("stored image path is outside allowed download roots"))
}

/// A list limit clamped to `1..=100`.
pub open spec fn clamp_limit(limit: nat) -> nat {
    if limit < 1 {
        1
    } else if limit > 100 {
        100
    } else {
        limit
    }
}

/// A page size is always between 1 and 100, a requested size in that range
/// is kept as it is, and a larger request never gives a smaller page.
pub proof fn lemma_clamp_limit(limit: nat, other: nat)
    ensures
        1 <= clamp_limit(limit) <= 100,
        1 <= limit <= 100 ==> clamp_limit(limit) == limit,
        limit <= other ==> clamp_limit(limit) <= clamp_limit(other),
{
}

pub fn clamp_list_limit(limit: usize) -> (r: usize)
    ensures
        r as nat == clamp_limit(limit as nat),
{
    if limit < 1 {
        1
    } else if limit > 100 {
        100
    } else {
        limit
    }
}

/// Cuts one over-fetched page: at most `limit` rows are kept, and the next
/// cursor is `offset + limit` exactly when more rows were fetched than kept.
pub fn split_page<T>(rows: Vec<T>, limit: usize, offset: usize) -> (r: (Vec<T>, Option<usize>))
    requires
        offset + limit <= usize::MAX,
    ensures
        r.0@ == rows@.take(if rows@.len() > limit { limit as int } else { rows@.len() as int }),
        r.1 == (if rows@.len() > limit {
            Some((offset + limit) as usize)
        } else {
            None
        }),
{
    let has_next = rows.len() > limit;
    let mut rows = rows;
    if has_next {
        rows.truncate(limit);
    }
    let next = if has_next {
        Some(offset + limit)
    } else {
        None
    };
    (rows, next)
}


/// The image columns, in the order `image_from_row` reads them.
pub const IMAGE_COLUMNS: &'static str = "image_id, pixiv_id, page_index, author_uid, title, category,
    local_path, thumbnail_path, width, height, downloaded_at, created_at, updated_at";

/// The error SQLite conversion gives for a text column holding an unknown name.
fn unknown_name_error(index: usize, what: &str, value: &str) -> (e: AppError)
    ensures
        e.code == ErrorCode::SqliteError,
{
    let mut message = owned("Conversion error from type Text at index: ");
    crate::text::push_decimal(&mut message, index as u128);
    push_str(&mut message, ", invalid ");
    push_str(&mut message, what);
    push_str(&mut message, ": ");
    push_str(&mut message, value);
    AppError::new(ErrorCode::SqliteError, message.as_str())
}

/// An image row decoded.
/// An image row: its thirteen columns of the types, and with a category
/// name, the table allows.
pub open spec fn image_row(row: Seq<SqlCell>) -> bool {
    &&& crate::db::row_text(row, 0) is Some
    &&& crate::db::row_text(row, 1) is Some
    &&& crate::db::row_u32(row, 2) is Some
    &&& crate::db::row_opt_text(row, 3) is Some
    &&& crate::db::row_opt_text(row, 4) is Some
    &&& (crate::db::row_text(row, 5) matches Some(c) && ImageCategory::parse(c) is Some)
    &&& crate::db::row_text(row, 6) is Some
    &&& crate::db::row_opt_text(row, 7) is Some
    &&& crate::db::row_opt_u32(row, 8) is Some
    &&& crate::db::row_opt_u32(row, 9) is Some
    &&& crate::db::row_text(row, 10) is Some
    &&& crate::db::row_text(row, 11) is Some
    &&& crate::db::row_text(row, 12) is Some
}

/// The image an image row holds, column for column.
pub open spec fn image_fields(i: ImageRecord, row: Seq<SqlCell>) -> bool {
    &&& crate::db::row_text(row, 0) == Some(i.image_id@)
    &&& crate::db::row_text(row, 1) == Some(i.pixiv_id@)
    &&& crate::db::row_u32(row, 2) == Some(i.page_index)
    &&& crate::db::row_opt_text(row, 3) == Some(crate::db::opt_text(i.author_uid))
    &&& crate::db::row_opt_text(row, 4) == Some(crate::db::opt_text(i.title))
    &&& ImageCategory::parse(crate::db::row_text(row, 5)->Some_0) == Some(i.category)
    &&& crate::db::row_text(row, 6) == Some(i.local_path@)
    &&& crate::db::row_opt_text(row, 7) == Some(crate::db::opt_text(i.thumbnail_path))
    &&& crate::db::row_opt_u32(row, 8) == Some(i.width)
    &&& crate::db::row_opt_u32(row, 9) == Some(i.height)
    &&& crate::db::row_text(row, 10) == Some(i.downloaded_at@)
    &&& crate::db::row_text(row, 11) == Some(i.created_at@)
    &&& crate::db::row_text(row, 12) == Some(i.updated_at@)
}

pub fn image_from_row(row: &Vec<SqlCell>) -> (r: Result<ImageRecord, AppError>)
    ensures
        r is Ok <==> image_row(row@),
        r matches Ok(i) ==> image_fields(i, row@),
        r is Ok ==> row@.len() >= 13 && row@[0] is Text && r->Ok_0.image_id@ == row@[0]->Text_0@
            && row@[1] is Text && r->Ok_0.pixiv_id@ == row@[1]->Text_0@ && row@[5] is Text
            && ImageCategory::parse(row@[5]->Text_0@) == Some(r->Ok_0.category) && row@[6] is Text
            && r->Ok_0.local_path@ == row@[6]->Text_0@,
        r is Err ==> r->Err_0.code == ErrorCode::SqliteError,
{
    let category_text = cell_text(row, 5)?;
    let category = match ImageCategory::from_db(category_text.as_str()) {
        Some(c) => c,
        None => return Err(unknown_name_error(5, "image category", category_text.as_str())),
    };
    let image_id = cell_text(row, 0)?;
    let pixiv_id = cell_text(row, 1)?;
    let page_index = cell_u32(row, 2)?;
    let author_uid = cell_opt_text(row, 3)?;
    let title = cell_opt_text(row, 4)?;
    let local_path = cell_text(row, 6)?;
    let thumbnail_path = cell_opt_text(row, 7)?;
    let width = cell_opt_u32(row, 8)?;
    let height = cell_opt_u32(row, 9)?;
    let downloaded_at = cell_text(row, 10)?;
    let created_at = cell_text(row, 11)?;
    let updated_at = cell_text(row, 12)?;
    Ok(ImageRecord {
        image_id,
        pixiv_id,
        page_index,
        author_uid,
        title,
        category,
        local_path,
        thumbnail_path,
        width,
        height,
        downloaded_at,
        created_at,
        updated_at,
    })
}

/// A provenance row decoded.
pub fn image_source_from_row(row: &Vec<SqlCell>) -> (r: Result<ImageSourceRecord, AppError>)
    ensures
        r is Ok ==> row@.len() >= 4 && row@[1] is Text && ImageSource::parse(row@[1]->Text_0@)
            == Some(r->Ok_0.source),
        r is Err ==> r->Err_0.code == ErrorCode::SqliteError,
{
    let source_text = cell_text(row, 1)?;
    let source = match ImageSource::from_db(source_text.as_str()) {
        Some(s) => s,
        None => return Err(unknown_name_error(1, "image source", source_text.as_str())),
    };
    let image_id = cell_text(row, 0)?;
    let task_id = cell_opt_text(row, 2)?;
    let created_at = cell_text(row, 3)?;
    Ok(ImageSourceRecord { image_id, source, task_id, created_at })
}

/// The SQL condition that a visibility adds to the gallery query.
pub open spec fn visibility_clause(visibility: ImageR18Visibility) -> Seq<char> {
    match visibility {
        ImageR18Visibility::Include => ""@,
        ImageR18Visibility::Exclude => " AND i.category = 'normal'"@,
        ImageR18Visibility::OnlyR18 => " AND i.category IN ('r18', 'nsfw')"@,
    }
}

fn visibility_sql(visibility: ImageR18Visibility) -> (r: &'static str)
    ensures
        r@ == visibility_clause(visibility),
{
    match visibility {
        ImageR18Visibility::Include => "",
        ImageR18Visibility::Exclude => " AND i.category = 'normal'",
        ImageR18Visibility::OnlyR18 => " AND i.category IN ('r18', 'nsfw')",
    }
}

/// What each gallery visibility keeps, in terms of the category names the
/// index stores: only `Include` leaves the listing unrestricted; `Exclude`
/// keeps the normal images alone; `OnlyR18` keeps exactly the r18 and nsfw
/// images.  The condition is the one the listing statement carries.
pub proof fn lemma_visibility_filters(visibility: ImageR18Visibility, q: ImageListQuery)
    ensures
        visibility_clause(visibility).len() == 0 <==> visibility == ImageR18Visibility::Include,
        visibility == ImageR18Visibility::Exclude ==> visibility_clause(visibility) == " AND i.category = '"@
            + ImageCategory::Normal.name() + "'"@,
        visibility == ImageR18Visibility::OnlyR18 ==> visibility_clause(visibility)
            == " AND i.category IN ('"@ + ImageCategory::R18.name() + "', '"@ + ImageCategory::Nsfw.name()
            + "')"@,
        exists|head: Seq<char>| image_list_sql(q) == head + visibility_clause(q.r18_visibility)
            + IMAGE_LIST_ORDER_SQL@,
{
    reveal_strlit("");
    reveal_strlit(" AND i.category = 'normal'");
    reveal_strlit(" AND i.category IN ('r18', 'nsfw')");
    reveal_strlit(" AND i.category = '");
    reveal_strlit("'");
    reveal_strlit(" AND i.category IN ('");
    reveal_strlit("', '");
    reveal_strlit("')");
    reveal_strlit("normal");
    reveal_strlit("r18");
    reveal_strlit("nsfw");
    assert(" AND i.category = 'normal'"@ =~= " AND i.category = '"@ + "normal"@ + "'"@);
    assert(" AND i.category IN ('r18', 'nsfw')"@ =~= " AND i.category IN ('"@ + "r18"@ + "', '"@ + "nsfw"@
        + "')"@);
    let head = IMAGE_LIST_SELECT@ + (if effective_filter(q.tag) is Some {
        TAG_FILTER_SQL@
    } else {
        Seq::<char>::empty()
    }) + (if q.category is Some {
        CATEGORY_FILTER_SQL@
    } else {
        Seq::<char>::empty()
    }) + (if effective_filter(q.author_uid) is Some {
        AUTHOR_FILTER_SQL@
    } else {
        Seq::<char>::empty()
    }) + (if q.source is Some {
        SOURCE_FILTER_SQL@
    } else {
        Seq::<char>::empty()
    });
    assert(image_list_sql(q) == head + visibility_clause(q.r18_visibility) + IMAGE_LIST_ORDER_SQL@);
}

/// A text filter counts when it is present and not blank; it is matched trimmed.
pub open spec fn effective_filter(value: Option<String>) -> Option<Seq<char>> {
    match value {
        Some(v) if trimmed(v@).len() > 0 => Some(trimmed(v@)),
        _ => None,
    }
}

fn filter_value(value: &Option<String>) -> (r: Option<String>)
    ensures
        match r {
            Some(v) => effective_filter(*value) == Some(v@),
            None => effective_filter(*value) is None,
        },
{
    match value {
        Some(v) => {
            if is_blank(v.as_str()) {
                None
            } else {
                Some(trim(v.as_str()))
            }
        },
        None => None,
    }
}

/// The gallery listing's columns, from every image.
pub const IMAGE_LIST_SELECT: &'static str = "SELECT i.image_id, i.pixiv_id, i.page_index, i.author_uid, i.title, i.category,
                i.local_path, i.thumbnail_path, i.width, i.height,
                i.downloaded_at, i.created_at, i.updated_at
             FROM images i
             WHERE 1 = 1";

/// Only images that carry the tag.
pub const TAG_FILTER_SQL: &'static str = " AND EXISTS (
                    SELECT 1 FROM image_tags t
                    WHERE t.image_id = i.image_id AND t.tag = ?
                 )";

/// Only images of the category.
pub const CATEGORY_FILTER_SQL: &'static str = " AND i.category = ?";

/// Only images of the author.
pub const AUTHOR_FILTER_SQL: &'static str = " AND i.author_uid = ?";

/// Only images that came from the source.
pub const SOURCE_FILTER_SQL: &'static str = " AND EXISTS (
                    SELECT 1 FROM image_sources s
                    WHERE s.image_id = i.image_id AND s.source = ?
                 )";

/// Newest first (ties by id), a window of rows.
pub const IMAGE_LIST_ORDER_SQL: &'static str = " ORDER BY i.created_at DESC, i.image_id DESC LIMIT ? OFFSET ?";

/// The gallery listing for a query: the filters it has (tag and author only
/// when not blank), its visibility, newest first, one row more than the page.
pub open spec fn image_list_sql(q: ImageListQuery) -> Seq<char> {
    IMAGE_LIST_SELECT@ + (if effective_filter(q.tag) is Some {
        TAG_FILTER_SQL@
    } else {
        Seq::<char>::empty()
    }) + (if q.category is Some {
        CATEGORY_FILTER_SQL@
    } else {
        Seq::<char>::empty()
    }) + (if effective_filter(q.author_uid) is Some {
        AUTHOR_FILTER_SQL@
    } else {
        Seq::<char>::empty()
    }) + (if q.source is Some {
        SOURCE_FILTER_SQL@
    } else {
        Seq::<char>::empty()
    }) + visibility_clause(q.r18_visibility) + IMAGE_LIST_ORDER_SQL@
}

/// The parameters of the gallery listing: the trimmed tag, the category
/// name, the trimmed author and the source name, each when filtered on, then
/// the row count (page size plus one) and the offset.
pub open spec fn image_list_params(q: ImageListQuery) -> Seq<ParamSpec> {
    (match effective_filter(q.tag) {
        Some(t) => seq![ParamSpec::Text(t)],
        None => Seq::<ParamSpec>::empty(),
    }) + (match q.category {
        Some(c) => seq![ParamSpec::Text(c.name())],
        None => Seq::<ParamSpec>::empty(),
    }) + (match effective_filter(q.author_uid) {
        Some(a) => seq![ParamSpec::Text(a)],
        None => Seq::<ParamSpec>::empty(),
    }) + (match q.source {
        Some(s) => seq![ParamSpec::Text(s.name())],
        None => Seq::<ParamSpec>::empty(),
    }) + seq![
        ParamSpec::Integer((clamp_limit(q.limit as nat) + 1) as i64),
        ParamSpec::Integer(q.cursor_offset as i64),
    ]
}

/// The statement listing one page of the gallery, and its parameters.
#[verifier::rlimit(60)]
pub fn list_images_statement(q: &ImageListQuery) -> (r: (String, Vec<rusqlite::types::Value>))
    ensures
        r.0@ == image_list_sql(*q),
        params_are(r.1@, image_list_params(*q)),
{
    let limit = clamp_list_limit(q.limit);
    let mut sql = owned(IMAGE_LIST_SELECT);
    let mut params = Vec::new();
    let ghost mut expected: Seq<ParamSpec> = Seq::empty();
    if let Some(tag) = filter_value(&q.tag) {
        push_str(&mut sql, TAG_FILTER_SQL);
        params.push(sql_text(tag.as_str()));
        proof {
            expected = seq![ParamSpec::Text(tag@)];
        }
    }
    if let Some(category) = q.category {
        push_str(&mut sql, CATEGORY_FILTER_SQL);
        params.push(sql_text(category.as_str()));
        proof {
            expected = expected + seq![ParamSpec::Text(category.name())];
        }
    }
    if let Some(author_uid) = filter_value(&q.author_uid) {
        push_str(&mut sql, AUTHOR_FILTER_SQL);
        params.push(sql_text(author_uid.as_str()));
        proof {
            expected = expected + seq![ParamSpec::Text(author_uid@)];
        }
    }
    if let Some(source) = q.source {
        push_str(&mut sql, SOURCE_FILTER_SQL);
        params.push(sql_text(source.as_str()));
        proof {
            expected = expected + seq![ParamSpec::Text(source.name())];
        }
    }
    push_str(&mut sql, visibility_sql(q.r18_visibility));
    push_str(&mut sql, IMAGE_LIST_ORDER_SQL);
    params.push(sql_integer((limit + 1) as i64));
    params.push(sql_integer(q.cursor_offset as i64));
    proof {
        assert(sql@ =~= image_list_sql(*q));
        assert(image_list_params(*q) =~= expected + seq![
            ParamSpec::Integer((clamp_limit(q.limit as nat) + 1) as i64),
            ParamSpec::Integer(q.cursor_offset as i64),
        ]);
    }
    (sql, params)
}

/// Every image row decoded, in order; refused when one is not a well-formed row.
pub fn images_from_rows(rows: &Vec<Vec<SqlCell>>) -> (r: Result<Vec<ImageRecord>, AppError>)
    ensures
        r is Ok <==> forall|i: int| 0 <= i < rows@.len() ==> image_row(#[trigger] rows@[i]@),
        r matches Ok(out) ==> out@.len() == rows@.len() && forall|i: int|
            0 <= i < rows@.len() ==> image_fields(#[trigger] out@[i], rows@[i]@),
        r is Err ==> r->Err_0.code == ErrorCode::SqliteError,
{
    let mut out: Vec<ImageRecord> = Vec::new();
    let mut i: usize = 0;
    while i < rows.len()
        invariant
            i <= rows@.len(),
            out@.len() == i,
            forall|j: int| 0 <= j < i ==> image_row(#[trigger] rows@[j]@),
            forall|j: int| 0 <= j < i ==> image_fields(#[trigger] out@[j], rows@[j]@),
        decreases rows.len() - i,
    {
        match image_from_row(&rows[i]) {
            Ok(decoded) => out.push(decoded),
            Err(error) => {
                assert(!image_row(rows@[i as int]@));
                return Err(error);
            },
        }
        i += 1;
    }
    Ok(out)
}

/// Stores a new image row, created and updated now (no map position yet).
pub const INSERT_IMAGE_SQL: &'static str = "INSERT INTO images (
                image_id, pixiv_id, page_index, author_uid, title, category,
                local_path, thumbnail_path, width, height, map_x, map_y,
                downloaded_at, created_at, updated_at
            ) VALUES (
                ?1, ?2, ?3, ?4, ?5, ?6,
                ?7, ?8, ?9, ?10, NULL, NULL,
                ?11, datetime('now'), datetime('now')
            )";

/// The parameters storing a new image: its fields in column order.
pub open spec fn insert_image_params(image: NewImageRecord) -> Seq<ParamSpec> {
    seq![
        ParamSpec::Text(image.image_id@),
        ParamSpec::Text(image.pixiv_id@),
        ParamSpec::Integer(image.page_index as i64),
        opt_text_param(opt_text(image.author_uid)),
        opt_text_param(opt_text(image.title)),
        ParamSpec::Text(image.category.name()),
        ParamSpec::Text(image.local_path@),
        opt_text_param(opt_text(image.thumbnail_path)),
        opt_u32_param(image.width),
        opt_u32_param(image.height),
        ParamSpec::Text(image.downloaded_at@),
    ]
}

/// The parameters refreshing an image: its id, then its metadata.
pub open spec fn update_image_params(image: NewImageRecord) -> Seq<ParamSpec> {
    seq![
        ParamSpec::Text(image.image_id@),
        opt_text_param(opt_text(image.author_uid)),
        opt_text_param(opt_text(image.title)),
        ParamSpec::Text(image.category.name()),
        ParamSpec::Text(image.local_path@),
        opt_text_param(opt_text(image.thumbnail_path)),
        opt_u32_param(image.width),
        opt_u32_param(image.height),
        ParamSpec::Text(image.downloaded_at@),
    ]
}

/// The statement storing a new image, and its parameters.
pub fn insert_image_statement(image: &NewImageRecord) -> (r: (&'static str, Vec<rusqlite::types::Value>))
    ensures
        r.0@ == INSERT_IMAGE_SQL@,
        params_are(
            r.1@,
            seq![
                ParamSpec::Text(image.image_id@),
                ParamSpec::Text(image.pixiv_id@),
                ParamSpec::Integer(image.page_index as i64),
                opt_text_param(opt_text(image.author_uid)),
                opt_text_param(opt_text(image.title)),
                ParamSpec::Text(image.category.name()),
                ParamSpec::Text(image.local_path@),
                opt_text_param(opt_text(image.thumbnail_path)),
                opt_u32_param(image.width),
                opt_u32_param(image.height),
                ParamSpec::Text(image.downloaded_at@),
            ],
        ),
{
    let mut params = Vec::new();
    params.push(sql_text(image.image_id.as_str()));
    params.push(sql_text(image.pixiv_id.as_str()));
    params.push(sql_integer(image.page_index as i64));
    params.push(sql_opt_string(&image.author_uid));
    params.push(sql_opt_string(&image.title));
    params.push(sql_text(image.category.as_str()));
    params.push(sql_text(image.local_path.as_str()));
    params.push(sql_opt_string(&image.thumbnail_path));
    params.push(crate::db::sql_opt_u32(image.width));
    params.push(crate::db::sql_opt_u32(image.height));
    params.push(sql_text(image.downloaded_at.as_str()));
    (INSERT_IMAGE_SQL, params)
}

/// Refreshes an image row's metadata, updated now.
pub const UPDATE_IMAGE_SQL: &'static str = "UPDATE images
             SET author_uid = ?2,
                 title = ?3,
                 category = ?4,
                 local_path = ?5,
                 thumbnail_path = ?6,
                 width = ?7,
                 height = ?8,
                 downloaded_at = ?9,
                 updated_at = datetime('now')
             WHERE image_id = ?1";

/// The statement refreshing an image, and its parameters.
pub fn update_image_statement(image: &NewImageRecord) -> (r: (&'static str, Vec<rusqlite::types::Value>))
    ensures
        r.0@ == UPDATE_IMAGE_SQL@,
        params_are(
            r.1@,
            seq![
                ParamSpec::Text(image.image_id@),
                opt_text_param(opt_text(image.author_uid)),
                opt_text_param(opt_text(image.title)),
                ParamSpec::Text(image.category.name()),
                ParamSpec::Text(image.local_path@),
                opt_text_param(opt_text(image.thumbnail_path)),
                opt_u32_param(image.width),
                opt_u32_param(image.height),
                ParamSpec::Text(image.downloaded_at@),
            ],
        ),
{
    let mut params = Vec::new();
    params.push(sql_text(image.image_id.as_str()));
    params.push(sql_opt_string(&image.author_uid));
    params.push(sql_opt_string(&image.title));
    params.push(sql_text(image.category.as_str()));
    params.push(sql_text(image.local_path.as_str()));
    params.push(sql_opt_string(&image.thumbnail_path));
    params.push(crate::db::sql_opt_u32(image.width));
    params.push(crate::db::sql_opt_u32(image.height));
    params.push(sql_text(image.downloaded_at.as_str()));
    (UPDATE_IMAGE_SQL, params)
}

/// An image row by id.
pub open spec fn find_image_sql() -> Seq<char> {
    "SELECT "@ + IMAGE_COLUMNS@ + " FROM images WHERE image_id = ?1"@
}

/// The statement reading an image by id, and its parameter.
pub fn find_image_statement(image_id: &str) -> (r: (String, Vec<rusqlite::types::Value>))
    ensures
        r.0@ == find_image_sql(),
        params_are(r.1@, seq![ParamSpec::Text(image_id@)]),
{
    let mut params = Vec::new();
    params.push(sql_text(image_id));
    let mut sql = owned("SELECT ");
    push_str(&mut sql, IMAGE_COLUMNS);
    push_str(&mut sql, " FROM images WHERE image_id = ?1");
    (sql, params)
}

/// The image row of a Pixiv page.
pub open spec fn find_page_sql() -> Seq<char> {
    "SELECT "@ + IMAGE_COLUMNS@ + " FROM images WHERE pixiv_id = ?1 AND page_index = ?2"@
}

/// The statement reading the image of a Pixiv page, and its parameters.
pub fn find_page_statement(pixiv_id: &str, page_index: u32) -> (r: (String, Vec<rusqlite::types::Value>))
    ensures
        r.0@ == find_page_sql(),
        params_are(r.1@, seq![ParamSpec::Text(pixiv_id@), ParamSpec::Integer(page_index as i64)]),
{
    let mut params = Vec::new();
    params.push(sql_text(pixiv_id));
    params.push(sql_integer(page_index as i64));
    let mut sql = owned("SELECT ");
    push_str(&mut sql, IMAGE_COLUMNS);
    push_str(&mut sql, " FROM images WHERE pixiv_id = ?1 AND page_index = ?2");
    (sql, params)
}

/// Removes every tag of an image.
pub const DELETE_TAGS_SQL: &'static str = "DELETE FROM image_tags WHERE image_id = ?1";

/// Adds one tag to an image, created now.
pub const INSERT_TAG_SQL: &'static str = "INSERT INTO image_tags (image_id, tag, created_at)
                 VALUES (?1, ?2, datetime('now'))";

/// An image's tags, alphabetically.
pub const TAGS_FOR_IMAGE_SQL: &'static str = "SELECT tag FROM image_tags WHERE image_id = ?1 ORDER BY tag";

/// Records a provenance once per (image, source, task), created now.
pub const ADD_SOURCE_SQL: &'static str = "INSERT OR IGNORE INTO image_sources (image_id, source, task_id, created_at)
             VALUES (?1, ?2, ?3, datetime('now'))";

/// An image's provenance, oldest first (ties by source).
pub const SOURCES_FOR_IMAGE_SQL: &'static str = "SELECT image_id, source, task_id, created_at
             FROM image_sources
             WHERE image_id = ?1
             ORDER BY created_at, source";

/// Removes an image row (its tags and sources go with it).
pub const DELETE_IMAGE_SQL: &'static str = "DELETE FROM images WHERE image_id = ?1";


/// The statement adding one tag to an image, and its parameters.
pub fn insert_tag_statement(image_id: &str, tag: &str) -> (r: (&'static str, Vec<rusqlite::types::Value>))
    ensures
        r.0@ == INSERT_TAG_SQL@,
        params_are(r.1@, seq![ParamSpec::Text(image_id@), ParamSpec::Text(tag@)]),
{
    let mut params = Vec::new();
    params.push(sql_text(image_id));
    params.push(sql_text(tag));
    (INSERT_TAG_SQL, params)
}

/// The statement recording a provenance, and its parameters.
pub fn add_source_statement(image_id: &str, source: ImageSource, task_id: Option<&str>) -> (r: (
    &'static str,
    Vec<rusqlite::types::Value>,
))
    ensures
        r.0@ == ADD_SOURCE_SQL@,
        params_are(
            r.1@,
            seq![
                ParamSpec::Text(image_id@),
                ParamSpec::Text(source.name()),
                opt_text_param(
                    match task_id {
                        Some(t) => Some(t@),
                        None => None,
                    },
                ),
            ],
        ),
{
    let mut params = Vec::new();
    params.push(sql_text(image_id));
    params.push(sql_text(source.as_str()));
    params.push(sql_opt_text(task_id));
    (ADD_SOURCE_SQL, params)
}

/// The images of a page's items, in order.
pub open spec fn page_images(items: Seq<ImageListItem>) -> Seq<ImageRecord> {
    items.map_values(|item: ImageListItem| item.image)
}

/// Whether a page of images and its next cursor come from the rows: the
/// rows' images in order, at most `limit` of them, and the next cursor (the
/// offset moved by `limit`) exactly when more rows than `limit` came back.
pub open spec fn page_fits(
    images: Seq<ImageRecord>,
    next: Option<usize>,
    rows: Seq<Vec<SqlCell>>,
    limit: usize,
    offset: usize,
) -> bool {
    &&& forall|i: int| 0 <= i < rows.len() ==> image_row(#[trigger] rows[i]@)
    &&& images.len() == if rows.len() > limit {
        limit as nat
    } else {
        rows.len()
    }
    &&& forall|j: int| 0 <= j < images.len() ==> image_fields(#[trigger] images[j], rows[j]@)
    &&& next == if rows.len() > limit {
        Some((offset + limit) as usize)
    } else {
        None
    }
}

/// A page assembled from the rows a listing returned: the decoded images,
/// at most `limit`, and the next cursor when rows are left over.
pub fn assemble_page(rows: &Vec<Vec<SqlCell>>, limit: usize, offset: usize) -> (r: Result<
    (Vec<ImageRecord>, Option<usize>),
    AppError,
>)
    requires
        offset + limit <= usize::MAX,
    ensures
        r is Ok <==> forall|i: int| 0 <= i < rows@.len() ==> image_row(#[trigger] rows@[i]@),
        r matches Ok((images, next)) ==> page_fits(images@, next, rows@, limit, offset),
        r is Err ==> r->Err_0.code == ErrorCode::SqliteError,
{
    let images = images_from_rows(rows)?;
    let ghost all = images@;
    let (kept, next) = split_page(images, limit, offset);
    proof {
        assert forall|j: int| 0 <= j < kept@.len() implies image_fields(#[trigger] kept@[j], rows@[j]@) by {
            assert(kept@[j] == all[j]);
        }
    }
    Ok((kept, next))
}

/// The items of a page: each kept image, in order, with the tags looked up
/// for it.
pub fn attach_tags(kept: Vec<ImageRecord>, tags: Vec<Vec<String>>) -> (r: Vec<ImageListItem>)
    requires
        kept@.len() == tags@.len(),
    ensures
        r@.len() == kept@.len(),
        forall|j: int| 0 <= j < r@.len() ==> (#[trigger] r@[j]).image == kept@[j] && r@[j].tags@ == tags@[j]@,
{
    let mut items: Vec<ImageListItem> = Vec::new();
    let mut j: usize = 0;
    while j < kept.len()
        invariant
            j <= kept@.len(),
            kept@.len() == tags@.len(),
            items@.len() == j,
            forall|k: int| 0 <= k < j ==> (#[trigger] items@[k]).image == kept@[k] && items@[k].tags@ == tags@[k]@,
        decreases kept.len() - j,
    {
        let image = copy_image(&kept[j]);
        let image_tags = tags[j].clone();
        items.push(ImageListItem { image, tags: image_tags });
        j += 1;
    }
    items
}

/// A field-for-field copy of an image record.
pub fn copy_image(image: &ImageRecord) -> (r: ImageRecord)
    ensures
        r == *image,
{
    ImageRecord {
        image_id: image.image_id.clone(),
        pixiv_id: image.pixiv_id.clone(),
        page_index: image.page_index,
        author_uid: copy_opt_text(&image.author_uid),
        title: copy_opt_text(&image.title),
        category: image.category,
        local_path: image.local_path.clone(),
        thumbnail_path: copy_opt_text(&image.thumbnail_path),
        width: image.width,
        height: image.height,
        downloaded_at: image.downloaded_at.clone(),
        created_at: image.created_at.clone(),
        updated_at: image.updated_at.clone(),
    }
}

fn copy_opt_text(value: &Option<String>) -> (r: Option<String>)
    ensures
        r == *value,
{
    match value {
        Some(v) => Some(v.clone()),
        None => None,
    }
}

/// The image index.
pub struct ImageRepository<'conn> {
    conn: &'conn rusqlite::Connection,
}

impl<'conn> ImageRepository<'conn> {
    /// The database the repository works on.
    pub closed spec fn connection(self) -> &'conn rusqlite::Connection {
        self.conn
    }

    pub fn new(conn: &'conn rusqlite::Connection) -> (r: Self)
        ensures
            r.connection() == conn,
    {
        ImageRepository { conn }
    }

    /// Adds an image; a second image for the same Pixiv page is refused by the schema.
    pub fn insert(&self, image: &NewImageRecord) -> (r: Result<(), AppError>)
        ensures
            r is Err ==> r->Err_0.code == ErrorCode::SqliteError,
    {
        let mut log = Ghost(Seq::empty());
        self.insert_noted(image, &mut log)
    }

    /// `insert`, noting the write in `log`.
    pub fn insert_noted(&self, image: &NewImageRecord, log: &mut Ghost<Seq<SqlWrite>>) -> (r: Result<
        (),
        AppError,
    >)
        ensures
            r is Err ==> r->Err_0.code == ErrorCode::SqliteError,
            appended(final(log)@, old(log)@, INSERT_IMAGE_SQL@, insert_image_params(*image)),
    {
        let (sql, params) = insert_image_statement(image);
        let ghost before = log@;
        let done = execute_noted(self.conn, sql, &params, log);
        proof {
            assert(log@.drop_last() =~= before);
        }
        done?;
        Ok(())
    }

    /// Refreshes the metadata of an indexed image after it was downloaded again.
    pub fn update_from_download(&self, image: &NewImageRecord) -> (r: Result<(), AppError>)
        ensures
            r matches Err(e) ==> e.code == ErrorCode::SqliteError || (e.code
                == ErrorCode::InternalError && e.message@ == "image "@ + image.image_id@
                + " does not exist"@),
    {
        let mut log = Ghost(Seq::empty());
        self.update_from_download_noted(image, &mut log)
    }

    /// `update_from_download`, noting the write in `log`.
    pub fn update_from_download_noted(&self, image: &NewImageRecord, log: &mut Ghost<Seq<SqlWrite>>) -> (r:
        Result<(), AppError>)
        ensures
            r matches Err(e) ==> e.code == ErrorCode::SqliteError || (e.code
                == ErrorCode::InternalError && e.message@ == "image "@ + image.image_id@
                + " does not exist"@),
            appended(final(log)@, old(log)@, UPDATE_IMAGE_SQL@, update_image_params(*image)),
    {
        let (sql, params) = update_image_statement(image);
        let ghost before = log@;
        let done = execute_noted(self.conn, sql, &params, log);
        proof {
            assert(log@.drop_last() =~= before);
        }
        let affected = done?;
        if affected == 0 {
            let mut message = owned("image ");
            push_str(&mut message, image.image_id.as_str());
            push_str(&mut message, " does not exist");
            return Err(AppError::new(ErrorCode::InternalError, message.as_str()));
        }
        Ok(())
    }

    fn first_image(&self, sql: &str, params: &Vec<rusqlite::types::Value>) -> (r: Result<
        Option<ImageRecord>,
        AppError,
    >)
        ensures
            r is Err ==> r->Err_0.code == ErrorCode::SqliteError,
    {
        let rows = query(self.conn, sql, params)?;
        if rows.len() == 0 {
            return Ok(None);
        }
        let image = image_from_row(&rows[0])?;
        Ok(Some(image))
    }

    /// The image with this id, if indexed.
    pub fn find_by_id(&self, image_id: &str) -> (r: Result<Option<ImageRecord>, AppError>)
        ensures
            r is Err ==> r->Err_0.code == ErrorCode::SqliteError,
            r matches Ok(Some(image)) ==> image.image_id@ == image_id@,
    {
        let (sql, params) = find_image_statement(image_id);
        let found = self.first_image(sql.as_str(), &params)?;
        match found {
            Some(image) => {
                if !crate::text::str_equals(image.image_id.as_str(), image_id) {
                    return Err(AppError::new(ErrorCode::SqliteError, "query returned another image"));
                }
                Ok(Some(image))
            },
            None => Ok(None),
        }
    }

    /// The image indexed for this Pixiv page, if any.
    pub fn find_by_pixiv_page(&self, pixiv_id: &str, page_index: u32) -> (r: Result<
        Option<ImageRecord>,
        AppError,
    >)
        ensures
            r is Err ==> r->Err_0.code == ErrorCode::SqliteError,
            r matches Ok(Some(image)) ==> image.pixiv_id@ == pixiv_id@ && image.page_index
                == page_index,
    {
        let (sql, params) = find_page_statement(pixiv_id, page_index);
        let found = self.first_image(sql.as_str(), &params)?;
        match found {
            Some(image) => {
                if !crate::text::str_equals(image.pixiv_id.as_str(), pixiv_id) || image.page_index
                    != page_index {
                    return Err(AppError::new(ErrorCode::SqliteError, "query returned another image"));
                }
                Ok(Some(image))
            },
            None => Ok(None),
        }
    }

    /// Replaces every tag of an image, all or nothing.
    pub fn replace_tags(&self, image_id: &str, tags: &Vec<String>) -> (r: Result<(), AppError>)
        ensures
            r is Err ==> r->Err_0.code == ErrorCode::SqliteError,
    {
        execute_batch(self.conn, "BEGIN;")?;
        let written = self.write_tags(image_id, tags);
        match written {
            Ok(()) => execute_batch(self.conn, "COMMIT;"),
            Err(error) => {
                let _ = execute_batch(self.conn, "ROLLBACK;");
                Err(error)
            },
        }
    }

    fn write_tags(&self, image_id: &str, tags: &Vec<String>) -> (r: Result<(), AppError>)
        ensures
            r is Err ==> r->Err_0.code == ErrorCode::SqliteError,
    {
        let (sql, params) = crate::db::keyed_statement(DELETE_TAGS_SQL, image_id);
        execute(self.conn, sql, &params)?;
        let mut i: usize = 0;
        while i < tags.len()
            invariant
                i <= tags@.len(),
            decreases tags.len() - i,
        {
            let (tag_sql, tag_params) = insert_tag_statement(image_id, tags[i].as_str());
            execute(self.conn, tag_sql, &tag_params)?;
            i += 1;
        }
        Ok(())
    }

    /// The tags of an image, in order.
    pub fn tags_for_image(&self, image_id: &str) -> (r: Result<Vec<String>, AppError>)
        ensures
            r is Err ==> r->Err_0.code == ErrorCode::SqliteError,
    {
        let (sql, params) = crate::db::keyed_statement(TAGS_FOR_IMAGE_SQL, image_id);
        let rows = query(self.conn, sql, &params)?;
        let mut tags: Vec<String> = Vec::new();
        let mut i: usize = 0;
        while i < rows.len()
            invariant
                i <= rows@.len(),
            decreases rows.len() - i,
        {
            tags.push(cell_text(&rows[i], 0)?);
            i += 1;
        }
        Ok(tags)
    }

    /// Records where an image came from; the same (image, source, task) is kept once.
    pub fn add_source(&self, image_id: &str, source: ImageSource, task_id: Option<&str>) -> (r: Result<
        (),
        AppError,
    >)
        ensures
            r is Err ==> r->Err_0.code == ErrorCode::SqliteError,
    {
        let mut log = Ghost(Seq::empty());
        self.add_source_noted(image_id, source, task_id, &mut log)
    }

    /// `add_source`, noting the write in `log`.
    pub fn add_source_noted(
        &self,
        image_id: &str,
        source: ImageSource,
        task_id: Option<&str>,
        log: &mut Ghost<Seq<SqlWrite>>,
    ) -> (r: Result<(), AppError>)
        ensures
            r is Err ==> r->Err_0.code == ErrorCode::SqliteError,
            appended(
                final(log)@,
                old(log)@,
                ADD_SOURCE_SQL@,
                seq![
                    ParamSpec::Text(image_id@),
                    ParamSpec::Text(source.name()),
                    opt_text_param(opt_str(task_id)),
                ],
            ),
    {
        let (sql, params) = add_source_statement(image_id, source, task_id);
        let ghost before = log@;
        let done = execute_noted(self.conn, sql, &params, log);
        proof {
            assert(log@.drop_last() =~= before);
        }
        done?;
        Ok(())
    }

    /// The provenance of an image, oldest first.
    pub fn sources_for_image(&self, image_id: &str) -> (r: Result<Vec<ImageSourceRecord>, AppError>)
        ensures
            r is Err ==> r->Err_0.code == ErrorCode::SqliteError,
    {
        let (sql, params) = crate::db::keyed_statement(SOURCES_FOR_IMAGE_SQL, image_id);
        let rows = query(self.conn, sql, &params)?;
        let mut sources: Vec<ImageSourceRecord> = Vec::new();
        let mut i: usize = 0;
        while i < rows.len()
            invariant
                i <= rows@.len(),
            decreases rows.len() - i,
        {
            sources.push(image_source_from_row(&rows[i])?);
            i += 1;
        }
        Ok(sources)
    }

    /// One page of the gallery, newest first, under the query's filters.
    pub fn list_images(&self, list_query: &ImageListQuery) -> (r: Result<ImageListPage, AppError>)
        requires
            list_query.cursor_offset + 100 <= usize::MAX,
        ensures
            r is Err ==> r->Err_0.code == ErrorCode::SqliteError,
            r matches Ok(page) ==> page.items@.len() <= clamp_limit(list_query.limit as nat) && (
            page.next_cursor_offset matches Some(n) ==> n == list_query.cursor_offset
                + clamp_limit(list_query.limit as nat)),
            // The page is assembled from the rows the listing returned: their images, in
            // order, cut to the page size, and a next cursor exactly when rows are left.
            r matches Ok(page) ==> exists|rows: Seq<Vec<SqlCell>>|
                #[trigger] page_fits(
                    page_images(page.items@),
                    page.next_cursor_offset,
                    rows,
                    clamp_limit(list_query.limit as nat) as usize,
                    list_query.cursor_offset,
                ),
    {
        let limit = clamp_list_limit(list_query.limit);
        let (sql, params) = list_images_statement(list_query);
        let rows = query(self.conn, sql.as_str(), &params)?;
        let (kept, next) = assemble_page(&rows, limit, list_query.cursor_offset)?;
        let mut tags: Vec<Vec<String>> = Vec::new();
        let mut j: usize = 0;
        while j < kept.len()
            invariant
                j <= kept@.len(),
                tags@.len() == j,
            decreases kept.len() - j,
        {
            tags.push(self.tags_for_image(kept[j].image_id.as_str())?);
            j += 1;
        }
        let ghost kept_images = kept@;
        let items = attach_tags(kept, tags);
        proof {
            assert(page_images(items@) =~= kept_images);
            assert(clamp_limit(list_query.limit as nat) as usize == limit);
        }
        let page = ImageListPage { items, next_cursor_offset: next };
        proof {
            assert(page_fits(
                page_images(page.items@),
                page.next_cursor_offset,
                rows@,
                clamp_limit(list_query.limit as nat) as usize,
                list_query.cursor_offset,
            ));
        }
        Ok(page)
    }

    /// SQLite's clock.
    pub fn current_timestamp(&self) -> (r: Result<String, AppError>)
        ensures
            r is Err ==> r->Err_0.code == ErrorCode::SqliteError,
    {
        crate::db::current_timestamp(self.conn)
    }

    /// Removes an image (its tags and sources go with it); whether a row was removed.
    pub fn delete_index(&self, image_id: &str) -> (r: Result<bool, AppError>)
        ensures
            r is Err ==> r->Err_0.code == ErrorCode::SqliteError,
    {
        let mut log = Ghost(Seq::empty());
        self.delete_index_noted(image_id, &mut log)
    }

    /// `delete_index`, noting the write in `log`.
    pub fn delete_index_noted(&self, image_id: &str, log: &mut Ghost<Seq<SqlWrite>>) -> (r: Result<
        bool,
        AppError,
    >)
        ensures
            r is Err ==> r->Err_0.code == ErrorCode::SqliteError,
            appended(final(log)@, old(log)@, DELETE_IMAGE_SQL@, seq![ParamSpec::Text(image_id@)]),
    {
        let (sql, params) = crate::db::keyed_statement(DELETE_IMAGE_SQL, image_id);
        let ghost before = log@;
        let affected = execute_noted(self.conn, sql, &params, log);
        proof {
            assert(log@.drop_last() =~= before);
        }
        Ok(affected? > 0)
    }
}


/// What the file system reports for a stored image path.
#[derive(Debug, Clone, PartialEq, Eq)]
pub enum PathProbe {
    /// Nothing is there.
    Missing,
    /// Something is there but its canonical form or metadata could not be read.
    Unresolved,
    /// A regular file, by its canonical path.
    File(String),
    /// Something other than a regular file, by its canonical path.
    NotFile(String),
}

/// What the file system reports for the directory of a missing image.
#[derive(Debug, Clone, PartialEq, Eq)]
pub enum ParentProbe {
    /// The path has no parent directory.
    NoParent,
    /// The parent could not be resolved.
    Unresolved,
    /// The parent's canonical path.
    Resolved(String),
}

/// An absolute path (Unix form): it begins at the root.
pub open spec fn is_absolute(path: Seq<char>) -> bool {
    path.len() > 0 && path[0] == '/'
}

pub fn is_absolute_path(path: &str) -> (r: bool)
    ensures
        r == is_absolute(path@),
{
    path.unicode_len() > 0 && path.get_char(0) == '/'
}

/// Whether a canonical path lies inside one of the canonical roots.
pub open spec fn inside_some_root(path: Seq<char>, roots: Seq<String>) -> bool {
    exists|i: int| 0 <= i < roots.len() && path_within(path, #[trigger] roots[i]@)
}

pub open spec fn outside_roots_message() -> Seq<char> {
    "stored image path is outside allowed download roots"@
}

/// The file to serve for an indexed image: the stored path must be absolute,
/// name a regular file, and lie inside one of the allowed (canonical) roots.
pub fn resolve_image_file(image: &ImageRecord, probe: &PathProbe, canonical_roots: &Vec<String>) -> (r:
    Result<ImageFile, AppError>)
    ensures
        !is_absolute(image.local_path@) ==> r is Err && r->Err_0.code == ErrorCode::ValidationError
            && r->Err_0.message@ == "stored image path must be absolute"@,
        is_absolute(image.local_path@) && !(probe is File) ==> r is Err && r->Err_0.code
            == ErrorCode::PixivNotFound && r->Err_0.message@ == "image file not found"@,
        is_absolute(image.local_path@) ==> (*probe matches PathProbe::File(canonical) ==> (
        if inside_some_root(canonical@, canonical_roots@) {
            r is Ok && r->Ok_0.path@ == canonical@ && r->Ok_0.content_type@ == content_type_of(
                match path_extension(canonical@) {
                    Some(e) => Some(e.map_values(|c: char| ascii_lower(c))),
                    None => None,
                },
            )
        } else {
            r is Err && r->Err_0.code == ErrorCode::ValidationError && r->Err_0.message@
                == outside_roots_message()
        })),
{
    if !is_absolute_path(image.local_path.as_str()) {
        return Err(AppError::validation("stored image path must be absolute"));
    }
    let canonical = match probe {
        PathProbe::File(canonical) => canonical,
        _ => return Err(AppError::new(ErrorCode::PixivNotFound, "image file not found")),
    };
    ensure_path_inside_roots(canonical.as_str(), canonical_roots)?;
    Ok(ImageFile { content_type: content_type_for_path(canonical.as_str()), path: canonical.clone() })
}

/// Which file deleting an image removes: the canonical file when it is there
/// (it must be a regular file inside an allowed root), or nothing when it is
/// already gone (its directory must then lie inside an allowed root).
pub fn resolve_deletable_image_path(
    local_path: &str,
    probe: &PathProbe,
    parent: &ParentProbe,
    canonical_roots: &Vec<String>,
) -> (r: Result<Option<String>, AppError>)
    ensures
        !is_absolute(local_path@) ==> r is Err && r->Err_0.code == ErrorCode::ValidationError
            && r->Err_0.message@ == "stored image path must be absolute"@,
        is_absolute(local_path@) && canonical_roots@.len() == 0 ==> r is Err && r->Err_0.code
            == ErrorCode::ValidationError && r->Err_0.message@ == outside_roots_message(),
        is_absolute(local_path@) && canonical_roots@.len() > 0 ==> match *probe {
            PathProbe::Unresolved => r is Err && r->Err_0.code == ErrorCode::PixivNotFound
                && r->Err_0.message@ == "image file could not be resolved"@,
            PathProbe::NotFile(_) => r is Err && r->Err_0.code == ErrorCode::ValidationError
                && r->Err_0.message@ == "stored image path is not a file"@,
            PathProbe::File(canonical) => if inside_some_root(canonical@, canonical_roots@) {
                r matches Ok(Some(p)) && p@ == canonical@
            } else {
                r is Err && r->Err_0.code == ErrorCode::ValidationError && r->Err_0.message@
                    == outside_roots_message()
            },
            PathProbe::Missing => match *parent {
                ParentProbe::NoParent => r is Err && r->Err_0.code == ErrorCode::ValidationError
                    && r->Err_0.message@ == "stored image path is invalid"@,
                ParentProbe::Unresolved => r is Err && r->Err_0.code == ErrorCode::PixivNotFound
                    && r->Err_0.message@ == "image file and parent directory were not found"@,
                ParentProbe::Resolved(dir) => if inside_some_root(dir@, canonical_roots@) {
                    r == Ok::<Option<String>, AppError>(None)
                } else {
                    r is Err && r->Err_0.code == ErrorCode::ValidationError && r->Err_0.message@
                        == outside_roots_message()
                },
            },
        },
{
    if !is_absolute_path(local_path) {
        return Err(AppError::validation("stored image path must be absolute"));
    }
    if canonical_roots.len() == 0 {
        return Err(AppError::validation("stored image path is outside allowed download roots"));
    }
    match probe {
        PathProbe::Unresolved => Err(
            AppError::new(ErrorCode::PixivNotFound, "image file could not be resolved"),
        ),
        PathProbe::NotFile(_) => Err(AppError::validation("stored image path is not a file")),
        PathProbe::File(canonical) => {
            ensure_path_inside_roots(canonical.as_str(), canonical_roots)?;
            Ok(Some(canonical.clone()))
        },
        PathProbe::Missing => match parent {
            ParentProbe::NoParent => Err(AppError::validation("stored image path is invalid")),
            ParentProbe::Unresolved => Err(
                AppError::new(
                    ErrorCode::PixivNotFound,
                    "image file and parent directory were not found",
                ),
            ),
            ParentProbe::Resolved(dir) => {
                ensure_path_inside_roots(dir.as_str(), canonical_roots)?;
                Ok(None)
            },
        },
    }
}

/// How removing an image file went.
#[derive(Debug, Clone, PartialEq, Eq)]
pub enum FileRemoval {
    Removed,
    NotFound,
    Failed(String),
}

/// The indexed image that a delete request names.
pub fn image_to_delete(repo: &ImageRepository, image_id: &str) -> (r: Result<ImageRecord, AppError>)
    ensures
        r matches Err(e) ==> e.code == ErrorCode::SqliteError || (e.code == ErrorCode::PixivNotFound
            && e.message@ == "image not found"@),
        r matches Ok(image) ==> image.image_id@ == image_id@,
{
    let found = repo.find_by_id(image_id)?;
    found_image(found)
}

/// What an image lookup gives: the image, or `image not found`.
fn found_image(found: Option<ImageRecord>) -> (r: Result<ImageRecord, AppError>)
    ensures
        match found {
            Some(image) => r == Ok::<ImageRecord, AppError>(image),
            None => r matches Err(e) && e.code == ErrorCode::PixivNotFound && e.message@
                == "image not found"@,
        },
{
    match found {
        Some(image) => Ok(image),
        None => Err(AppError::new(ErrorCode::PixivNotFound, "image not found")),
    }
}

/// Finishes deleting an image once its file was dealt with: a failed removal
/// keeps the index; otherwise the index rows go, and the outcome says whether
/// a file was removed or was already missing (`removal` is `None` when there
/// was no file to remove).
pub fn complete_image_delete(
    repo: &ImageRepository,
    image: ImageRecord,
    removal: Option<FileRemoval>,
) -> (r: Result<ImageDeleteOutcome, AppError>)
    ensures
        removal matches Some(FileRemoval::Failed(m)) ==> r is Err && r->Err_0.code
            == ErrorCode::FilesystemWriteFailed && r->Err_0.message@
            == "image file could not be deleted: "@ + m@,
        r matches Ok(outcome) ==> outcome.image_id@ == image.image_id@ && outcome.pixiv_id@
            == image.pixiv_id@ && outcome.page_index == image.page_index && outcome.file_deleted
            == (removal == Some(FileRemoval::Removed)) && outcome.file_missing == (removal
            != Some(FileRemoval::Removed)),
{
    let mut log = Ghost(Seq::empty());
    complete_image_delete_noted(repo, image, removal, &mut log)
}

/// `complete_image_delete`, noting its write in `log`: the index row of the
/// image is deleted exactly when the file is gone (removed, missing, or never
/// there), and a reported deletion follows that write.
pub fn complete_image_delete_noted(
    repo: &ImageRepository,
    image: ImageRecord,
    removal: Option<FileRemoval>,
    log: &mut Ghost<Seq<SqlWrite>>,
) -> (r: Result<ImageDeleteOutcome, AppError>)
    ensures
        removal matches Some(FileRemoval::Failed(m)) ==> r is Err && r->Err_0.code
            == ErrorCode::FilesystemWriteFailed && r->Err_0.message@
            == "image file could not be deleted: "@ + m@ && final(log)@ == old(log)@,
        !(removal matches Some(FileRemoval::Failed(_))) ==> appended(
            final(log)@,
            old(log)@,
            DELETE_IMAGE_SQL@,
            seq![ParamSpec::Text(image.image_id@)],
        ) && (r is Err ==> r->Err_0.code == ErrorCode::SqliteError),
        r matches Ok(outcome) ==> outcome.image_id@ == image.image_id@ && outcome.pixiv_id@
            == image.pixiv_id@ && outcome.page_index == image.page_index && outcome.file_deleted
            == (removal == Some(FileRemoval::Removed)) && outcome.file_missing == (removal
            != Some(FileRemoval::Removed)),
{
    let mut file_deleted = false;
    let mut file_missing = false;
    match removal {
        Some(FileRemoval::Removed) => {
            file_deleted = true;
        },
        Some(FileRemoval::NotFound) => {
            file_missing = true;
        },
        Some(FileRemoval::Failed(reason)) => {
            let mut message = owned("image file could not be deleted: ");
            push_str(&mut message, reason.as_str());
            return Err(AppError::new(ErrorCode::FilesystemWriteFailed, message.as_str()));
        },
        None => {
            file_missing = true;
        },
    }
    repo.delete_index_noted(image.image_id.as_str(), log)?;
    Ok(
        ImageDeleteOutcome {
            image_id: image.image_id,
            pixiv_id: image.pixiv_id,
            page_index: image.page_index,
            file_deleted,
            file_missing,
        },
    )
}

} // verus!
