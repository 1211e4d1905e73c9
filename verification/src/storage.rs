//! Where downloaded originals live: `<root>/originals/<pixiv_id>/<pixiv_id>_p<page>.<ext>`.
//! Paths are text with `/` separators, joined the way `PathBuf::join` joins
//! relative components.
use vstd::prelude::*;
use vstd::string::StrSliceExecFns;

use crate::errors::{AppError, ErrorCode};
use crate::text::{
    ascii_lower, decimal, is_ascii_alnum, is_ascii_alnum_char, owned, push_char, push_decimal,
    push_str,
};

verus! {

/// Plans file locations below a download root.
#[derive(Debug, Clone)]
pub struct StoragePlanner {
    root: String,
}

/// `base` joined with the relative component `seg`.
pub open spec fn join_path(base: Seq<char>, seg: Seq<char>) -> Seq<char> {
    if base.len() == 0 || base.last() == '/' {
        base + seg
    } else {
        base + seq!['/'] + seg
    }
}

pub open spec fn is_segment_char(c: char) -> bool {
    is_ascii_alnum(c) || c == '_' || c == '-'
}

/// What `sanitize_segment` accepts: a non-empty run of `[A-Za-z0-9_-]`.
pub open spec fn safe_segment(s: Seq<char>) -> bool {
    s.len() > 0 && forall|i: int| 0 <= i < s.len() ==> is_segment_char(#[trigger] s[i])
}

/// `s` without its leading dots (`trim_start_matches('.')`).
pub open spec fn strip_leading_dots(s: Seq<char>) -> Seq<char>
    decreases s.len(),
{
    if s.len() > 0 && s[0] == '.' {
        strip_leading_dots(s.drop_first())
    } else {
        s
    }
}

/// The extension an extension text becomes, or `None` when it is unsafe.
pub open spec fn clean_extension(s: Seq<char>) -> Option<Seq<char>> {
    let lower = strip_leading_dots(s).map_values(|c: char| ascii_lower(c));
    if lower.len() == 0 {
        Some("bin"@)
    } else if forall|i: int| 0 <= i < lower.len() ==> is_ascii_alnum(#[trigger] lower[i]) {
        Some(lower)
    } else {
        None
    }
}

/// The file name of page `page` of work `id` with extension `ext`.
pub open spec fn page_file_name(id: Seq<char>, page: nat, ext: Seq<char>) -> Seq<char> {
    id + "_p"@ + decimal(page) + "."@ + ext
}

/// Where page `page` of work `id` is stored below `root`.
pub open spec fn planned_path(root: Seq<char>, id: Seq<char>, page: nat, ext: Seq<char>) -> Seq<
    char,
> {
    join_path(join_path(join_path(root, "originals"@), id), page_file_name(id, page, ext))
}

/// No `..` step: no dot is followed by another dot.
pub open spec fn no_parent_step(s: Seq<char>) -> bool {
    forall|i: int, j: int| 0 <= i && j == i + 1 && j < s.len() ==> !(#[trigger] s[i] == '.' && #[trigger] s[j] == '.')
}

/// What a planned path adds below the root.
pub open spec fn planned_rest(id: Seq<char>, page: nat, ext: Seq<char>) -> Seq<char> {
    "originals/"@ + id + "/"@ + page_file_name(id, page, ext)
}

proof fn lemma_join_twice(b: Seq<char>, x: Seq<char>, y: Seq<char>)
    requires
        x.len() > 0,
        x.last() != '/',
    ensures
        join_path(join_path(b, x), y) == join_path(b, x + "/"@ + y),
{
    reveal_strlit("/");
    let bx = join_path(b, x);
    assert(bx.last() == x.last());
    assert(join_path(bx, y) == bx + seq!['/'] + y);
    if b.len() == 0 || b.last() == '/' {
        assert(bx + seq!['/'] + y =~= b + (x + "/"@ + y));
    } else {
        assert(bx + seq!['/'] + y =~= b + seq!['/'] + (x + "/"@ + y));
    }
}

/// A download never leaves its root: every path the planner gives for a
/// safe id and a clean extension is the root joined with
/// `originals/<id>/<id>_p<page>.<ext>`, which has no `..` step.
pub proof fn lemma_planned_path_stays_below_root(root: Seq<char>, id: Seq<char>, page: nat, ext: Seq<char>)
    requires
        safe_segment(id),
        ext.len() > 0,
        forall|i: int| 0 <= i < ext.len() ==> is_ascii_alnum(#[trigger] ext[i]),
    ensures
        planned_path(root, id, page, ext) == join_path(root, planned_rest(id, page, ext)),
        no_parent_step(planned_rest(id, page, ext)),
{
    reveal_strlit("originals");
    reveal_strlit("originals/");
    reveal_strlit("/");
    reveal_strlit("_p");
    reveal_strlit(".");
    assert("originals"@.last() != '/');
    lemma_join_twice(root, "originals"@, id);
    assert(("originals"@ + "/"@ + id).last() == id.last());
    assert(is_segment_char(id[id.len() - 1]));
    lemma_join_twice(root, "originals"@ + "/"@ + id, page_file_name(id, page, ext));
    assert("originals"@ + "/"@ + id + "/"@ + page_file_name(id, page, ext) =~= planned_rest(id, page, ext));
    crate::text::lemma_decimal_digits(page);
    let head = "originals/"@ + id + "/"@ + id + "_p"@ + decimal(page);
    let rest = planned_rest(id, page, ext);
    assert(rest =~= head + "."@ + ext);
    assert forall|k: int| 0 <= k < head.len() implies head[k] != '.' by {
        let a = "originals/"@;
        if k < a.len() {
        } else if k < a.len() + id.len() {
            assert(head[k] == id[k - a.len()]);
            assert(is_segment_char(id[k - a.len()]));
        } else if k == a.len() + id.len() {
        } else if k < a.len() + id.len() + 1 + id.len() {
            assert(head[k] == id[k - a.len() - id.len() - 1]);
            assert(is_segment_char(id[k - a.len() - id.len() - 1]));
        } else if k < a.len() + id.len() + 1 + id.len() + 2 {
        } else {
            let off = a.len() + id.len() + 1 + id.len() + 2;
            assert(head[k] == decimal(page)[k - off]);
            assert(crate::text::is_digit(decimal(page)[k - off]));
        }
    }
    assert forall|i: int, j: int| 0 <= i && j == i + 1 && j < rest.len() implies !(#[trigger] rest[i] == '.'
        && #[trigger] rest[j] == '.') by {
        if j < head.len() {
            assert(rest[i] == head[i]);
        } else if j == head.len() {
            assert(rest[i] == head[i]);
        } else {
            assert(rest[j] == ext[j - head.len() - 1]);
            assert(is_ascii_alnum(ext[j - head.len() - 1]));
        }
    }
}

impl StoragePlanner {
    pub closed spec fn root_view(&self) -> Seq<char> {
        self.root@
    }

    pub fn new(root: &str) -> (p: StoragePlanner)
        ensures
            p.root_view() == root@,
    {
        StoragePlanner { root: owned(root) }
    }

    pub fn root(&self) -> (r: &str)
        ensures
            r@ == self.root_view(),
    {
        self.root.as_str()
    }

    /// The path of an original, or a validation error when the id is empty
    /// or unsafe, or the extension (default `bin`) is unsafe.
    pub fn original_path(&self, pixiv_id: &str, page_index: u32, extension: Option<&str>) -> (r:
        Result<String, AppError>)
        ensures
            !safe_segment(pixiv_id@) ==> r is Err && r->Err_0.code == ErrorCode::ValidationError,
            pixiv_id@.len() == 0 ==> r->Err_0.message@ == "path segment cannot be empty"@,
            pixiv_id@.len() > 0 && !safe_segment(pixiv_id@) ==> r->Err_0.message@
                == "path segment contains unsafe characters"@,
            safe_segment(pixiv_id@) ==> match clean_extension(
                match extension {
                    Some(e) => e@,
                    None => "bin"@,
                },
            ) {
                Some(ext) => r is Ok && r->Ok_0@ == planned_path(
                    self.root_view(),
                    pixiv_id@,
                    page_index as nat,
                    ext,
                ),
                None => r is Err && r->Err_0.code == ErrorCode::ValidationError
                    && r->Err_0.message@ == "extension contains unsafe characters"@,
            },
    {
        let safe_id = sanitize_segment(pixiv_id)?;
        let ext_text = match extension {
            Some(e) => e,
            None => "bin",
        };
        let safe_ext = sanitize_extension(ext_text)?;
        let mut path = self.root.clone();
        push_component(&mut path, "originals");
        push_component(&mut path, safe_id.as_str());
        let mut file = safe_id.clone();
        push_str(&mut file, "_p");
        push_decimal(&mut file, page_index as u128);
        push_char(&mut file, '.');
        push_str(&mut file, safe_ext.as_str());
        proof {
            reveal_strlit(".");
        }
        assert(file@ =~= page_file_name(pixiv_id@, page_index as nat, safe_ext@));
        push_component(&mut path, file.as_str());
        Ok(path)
    }
}

/// `path.push(seg)` for a relative component.
pub fn push_component(path: &mut String, seg: &str)
    ensures
        final(path)@ == join_path(old(path)@, seg@),
{
    let n = path.unicode_len();
    if n > 0 && path.get_char(n - 1) != '/' {
        push_char(path, '/');
    }
    push_str(path, seg);
}

/// The segment itself when it is a non-empty run of `[A-Za-z0-9_-]`.
pub fn sanitize_segment(value: &str) -> (r: Result<String, AppError>)
    ensures
        safe_segment(value@) ==> r is Ok && r->Ok_0@ == value@,
        !safe_segment(value@) ==> r is Err && r->Err_0.code == ErrorCode::ValidationError,
        value@.len() == 0 ==> r->Err_0.message@ == "path segment cannot be empty"@,
        value@.len() > 0 && !safe_segment(value@) ==> r->Err_0.message@
            == "path segment contains unsafe characters"@,
{
    let n = value.unicode_len();
    if n == 0 {
        return Err(AppError::validation("path segment cannot be empty"));
    }
    let mut i: usize = 0;
    while i < n
        invariant
            n == value@.len(),
            i <= n,
            forall|j: int| 0 <= j < i ==> is_segment_char(#[trigger] value@[j]),
        decreases n - i,
    {
        let c = value.get_char(i);
        if !(is_ascii_alnum_char(c) || c == '_' || c == '-') {
            return Err(AppError::validation("path segment contains unsafe characters"));
        }
        i += 1;
    }
    Ok(owned(value))
}

/// The lower-cased extension without leading dots, `bin` when nothing is
/// left, or a validation error when a character is not ASCII alphanumeric.
pub fn sanitize_extension(value: &str) -> (r: Result<String, AppError>)
    ensures
        match clean_extension(value@) {
            Some(ext) => r is Ok && r->Ok_0@ == ext,
            None => r is Err && r->Err_0.code == ErrorCode::ValidationError
                && r->Err_0.message@ == "extension contains unsafe characters"@,
        },
{
    let n = value.unicode_len();
    let mut start: usize = 0;
    assert(value@.subrange(0, n as int) == value@);
    while start < n && value.get_char(start) == '.'
        invariant
            n == value@.len(),
            start <= n,
            strip_leading_dots(value@) == strip_leading_dots(value@.subrange(start as int, n as int)),
        decreases n - start,
    {
        assert(value@.subrange(start as int, n as int).drop_first() == value@.subrange(
            start + 1,
            n as int,
        ));
        start += 1;
    }
    let ghost rest = value@.subrange(start as int, n as int);
    assert(strip_leading_dots(rest) == rest);
    let ghost lower = rest.map_values(|c: char| ascii_lower(c));
    if start == n {
        assert(lower.len() == 0);
        return Ok(owned("bin"));
    }
    let mut out = String::new();
    let mut i = start;
    while i < n
        invariant
            n == value@.len(),
            start <= i <= n,
            rest == value@.subrange(start as int, n as int),
            strip_leading_dots(value@) == rest,
            lower == rest.map_values(|c: char| ascii_lower(c)),
            out@ == lower.subrange(0, i - start),
            forall|j: int| 0 <= j < i - start ==> is_ascii_alnum(#[trigger] lower[j]),
        decreases n - i,
    {
        let c = value.get_char(i);
        let l = ascii_lower_char(c);
        assert(lower[i - start] == l);
        if !is_ascii_alnum_char(l) {
            assert(!(forall|j: int| 0 <= j < lower.len() ==> is_ascii_alnum(#[trigger] lower[j])));
            return Err(AppError::validation("extension contains unsafe characters"));
        }
        push_char(&mut out, l);
        assert(lower.subrange(0, i + 1 - start) == lower.subrange(0, i - start).push(l));
        i += 1;
    }
    assert(lower.subrange(0, n - start) == lower);
    Ok(out)
}

pub fn ascii_lower_char(c: char) -> (r: char)
    ensures
        r == ascii_lower(c),
{
    if 'A' <= c && c <= 'Z' {
        ((c as u32) + 32) as u8 as char
    } else {
        c
    }
}

/// Where a path's file name starts: one past its last `/`, or 0.
pub open spec fn file_name_start(p: Seq<char>) -> int
    decreases p.len(),
{
    if p.len() == 0 {
        0
    } else if p.last() == '/' {
        p.len() as int
    } else {
        file_name_start(p.drop_last())
    }
}

/// A path that names a file: its last component is neither empty, `.` nor `..`.
pub open spec fn names_file(p: Seq<char>) -> bool {
    let name = p.subrange(file_name_start(p), p.len() as int);
    name.len() > 0 && name != "."@ && name != ".."@
}

/// The hidden temporary sibling a write goes through before its rename:
/// `.<file name>.<stamp>.tmp` in the same directory.
pub open spec fn temp_path(p: Seq<char>, stamp: nat) -> Seq<char> {
    let start = file_name_start(p);
    p.subrange(0, start) + "."@ + p.subrange(start, p.len() as int) + "."@ + decimal(stamp)
        + ".tmp"@
}

proof fn lemma_file_name_start_bound(p: Seq<char>)
    ensures
        0 <= file_name_start(p) <= p.len(),
        forall|i: int| file_name_start(p) <= i < p.len() ==> p[i] != '/',
        file_name_start(p) > 0 ==> p[file_name_start(p) - 1] == '/',
    decreases p.len(),
{
    if p.len() > 0 && p.last() != '/' {
        lemma_file_name_start_bound(p.drop_last());
        assert forall|i: int| file_name_start(p) <= i < p.len() implies p[i] != '/' by {
            if i < p.len() - 1 {
                assert(p[i] == p.drop_last()[i]);
            }
        }
        if file_name_start(p) > 0 {
            assert(p[file_name_start(p) - 1] == p.drop_last()[file_name_start(p) - 1]);
        }
    }
}

pub proof fn lemma_file_name_start_exact(p: Seq<char>, k: int)
    requires
        0 <= k <= p.len(),
        forall|i: int| k <= i < p.len() ==> p[i] != '/',
        k > 0 ==> p[k - 1] == '/',
    ensures
        file_name_start(p) == k,
    decreases p.len(),
{
    if p.len() > 0 && p.last() != '/' {
        if k < p.len() {
            lemma_file_name_start_exact(p.drop_last(), k);
        } else {
            assert(false);
        }
    } else if p.len() > 0 {
        if k < p.len() {
            assert(p[p.len() - 1] != '/');
        }
    }
}

/// The temporary path for `final_path` with time stamp `stamp`.
pub fn temp_path_with_stamp(final_path: &str, stamp: u128) -> (r: String)
    requires
        names_file(final_path@),
    ensures
        r@ == temp_path(final_path@, stamp as nat),
{
    let n = final_path.unicode_len();
    let mut start: usize = n;
    while start > 0 && final_path.get_char(start - 1) != '/'
        invariant
            n == final_path@.len(),
            start <= n,
            forall|i: int| start <= i < n ==> final_path@[i] != '/',
        decreases start,
    {
        start -= 1;
    }
    proof {
        lemma_file_name_start_exact(final_path@, start as int);
    }
    let mut r = crate::text::char_range(final_path, 0, start);
    push_char(&mut r, '.');
    let name = crate::text::char_range(final_path, start, n);
    push_str(&mut r, name.as_str());
    push_char(&mut r, '.');
    push_decimal(&mut r, stamp);
    push_str(&mut r, ".tmp");
    proof {
        reveal_strlit(".");
    }
    assert(r@ =~= final_path@.subrange(0, start as int) + "."@ + final_path@.subrange(
        start as int,
        n as int,
    ) + "."@ + decimal(stamp as nat) + ".tmp"@);
    r
}

/// Nanoseconds since the Unix epoch from the system clock, or 0 when the
/// clock is before the epoch.  Nothing is promised of the value.
#[verifier::external_body]
pub(crate) fn clock_nanos() -> (r: u128) {
    std::time::SystemTime::now().duration_since(std::time::UNIX_EPOCH).map(
        |duration| duration.as_nanos(),
    ).unwrap_or(0)
}

/// The temporary path for `final_path`, stamped with the current time.
pub fn temp_path_for(final_path: &str) -> (r: String)
    requires
        names_file(final_path@),
    ensures
        exists|stamp: nat| r@ == temp_path(final_path@, stamp),
{
    let stamp = clock_nanos();
    let r = temp_path_with_stamp(final_path, stamp);
    assert(r@ == temp_path(final_path@, stamp as nat));
    r
}

/// Whether a path names a file (the condition for a temporary sibling).
pub fn names_file_path(path: &str) -> (r: bool)
    ensures
        r == names_file(path@),
{
    let n = path.unicode_len();
    let mut start: usize = n;
    while start > 0 && path.get_char(start - 1) != '/'
        invariant
            n == path@.len(),
            start <= n,
            forall|i: int| start <= i < n ==> path@[i] != '/',
        decreases start,
    {
        start -= 1;
    }
    proof {
        lemma_file_name_start_exact(path@, start as int);
        reveal_strlit(".");
        reveal_strlit("..");
    }
    let name = crate::text::char_range(path, start, n);
    name.unicode_len() > 0 && !crate::text::str_equals(name.as_str(), ".")
        && !crate::text::str_equals(name.as_str(), "..")
}

} // verus!
