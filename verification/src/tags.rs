//! Tag lists as the user, DeepSeek and the Pixiv search see them: trimmed,
//! without blanks or repeats, and at most twelve.
use vstd::prelude::*;

use crate::text::{str_equals, trim, trimmed};

verus! {

/// The most tags a list keeps.
pub const MAX_TAGS: usize = 12;

/// The normalised tag list of `tags`: each tag trimmed, blank tags and
/// repeats dropped, first occurrences kept in order, and nothing taken once
/// twelve tags are collected.
pub open spec fn normalized(tags: Seq<Seq<char>>) -> Seq<Seq<char>>
    decreases tags.len(),
{
    if tags.len() == 0 {
        Seq::empty()
    } else {
        let acc = normalized(tags.drop_last());
        let t = trimmed(tags.last());
        if acc.len() >= 12 || t.len() == 0 || acc.contains(t) {
            acc
        } else {
            acc.push(t)
        }
    }
}

pub open spec fn views(v: Seq<String>) -> Seq<Seq<char>> {
    v.map_values(|s: String| s@)
}

/// Every normalised list has at most twelve tags, none blank, none repeated,
/// each the trimmed form of an input tag.
pub proof fn lemma_normalized_shape(tags: Seq<Seq<char>>)
    ensures
        normalized(tags).len() <= 12,
        normalized(tags).no_duplicates(),
        forall|i: int| 0 <= i < normalized(tags).len() ==> #[trigger] normalized(tags)[i].len() > 0,
        forall|i: int|
            0 <= i < normalized(tags).len() ==> exists|j: int|
                0 <= j < tags.len() && #[trigger] normalized(tags)[i] == trimmed(tags[j]),
    decreases tags.len(),
{
    if tags.len() > 0 {
        let rest = tags.drop_last();
        lemma_normalized_shape(rest);
        let acc = normalized(rest);
        assert forall|i: int| 0 <= i < normalized(tags).len() implies exists|j: int|
            0 <= j < tags.len() && #[trigger] normalized(tags)[i] == trimmed(tags[j]) by {
            if i < acc.len() {
                let j = choose|j: int| 0 <= j < rest.len() && acc[i] == trimmed(rest[j]);
                assert(tags[j] == rest[j]);
            } else {
                assert(normalized(tags)[i] == trimmed(tags[tags.len() - 1]));
            }
        }
    }
}

/// Normalising a normalised list changes nothing.
pub proof fn lemma_normalized_idempotent(tags: Seq<Seq<char>>)
    ensures
        normalized(normalized(tags)) == normalized(tags),
{
    lemma_normalized_shape(tags);
    let n = normalized(tags);
    assert forall|i: int| 0 <= i < n.len() implies trimmed(#[trigger] n[i]) == n[i] by {
        let j = choose|j: int| 0 <= j < tags.len() && n[i] == trimmed(tags[j]);
        crate::text::lemma_trim_idempotent(tags[j]);
    }
    lemma_normalized_fixed(n);
}

proof fn lemma_normalized_fixed(tags: Seq<Seq<char>>)
    requires
        tags.len() <= 12,
        tags.no_duplicates(),
        forall|i: int| 0 <= i < tags.len() ==> #[trigger] tags[i].len() > 0,
        forall|i: int| 0 <= i < tags.len() ==> trimmed(#[trigger] tags[i]) == tags[i],
    ensures
        normalized(tags) == tags,
    decreases tags.len(),
{
    if tags.len() > 0 {
        let rest = tags.drop_last();
        assert forall|i: int| 0 <= i < rest.len() implies trimmed(#[trigger] rest[i]) == rest[i] by {
            assert(rest[i] == tags[i]);
        }
        assert forall|i: int| 0 <= i < rest.len() implies #[trigger] rest[i].len() > 0 by {
            assert(rest[i] == tags[i]);
        }
        lemma_normalized_fixed(rest);
        assert(trimmed(tags.last()) == tags.last());
        if rest.contains(tags.last()) {
            let k = choose|k: int| 0 <= k < rest.len() && rest[k] == tags.last();
            assert(tags[k] == tags[tags.len() - 1]);
        }
        assert(tags =~= rest.push(tags.last()));
    }
}

/// Whether the list holds a tag equal to `t`.
fn contains_tag(list: &Vec<String>, t: &str) -> (r: bool)
    ensures
        r == views(list@).contains(t@),
{
    let mut i: usize = 0;
    while i < list.len()
        invariant
            i <= list@.len(),
            forall|j: int| 0 <= j < i ==> list@[j]@ != t@,
        decreases list.len() - i,
    {
        if str_equals(list[i].as_str(), t) {
            assert(views(list@)[i as int] == t@);
            return true;
        }
        i += 1;
    }
    assert forall|j: int| 0 <= j < views(list@).len() implies views(list@)[j] != t@ by {
        assert(views(list@)[j] == list@[j]@);
    }
    false
}

/// The normalised form of a tag list.
pub fn normalize_tag_list(tags: &Vec<String>) -> (r: Vec<String>)
    ensures
        views(r@) == normalized(views(tags@)),
{
    let mut out: Vec<String> = Vec::new();
    let mut i: usize = 0;
    while i < tags.len()
        invariant
            i <= tags@.len(),
            views(out@) == normalized(views(tags@).take(i as int)),
        decreases tags.len() - i,
    {
        let ghost prefix = views(tags@).take(i as int);
        let ghost next = views(tags@).take(i + 1);
        assert(next.drop_last() =~= prefix);
        assert(next.last() == tags@[i as int]@);
        if out.len() < MAX_TAGS {
            let t = trim(tags[i].as_str());
            if !t.as_str().is_empty() && !contains_tag(&out, t.as_str()) {
                out.push(t);
                assert(views(out@) =~= normalized(prefix).push(trimmed(next.last())));
            }
        }
        i += 1;
    }
    assert(views(tags@).take(tags@.len() as int) =~= views(tags@));
    out
}

} // verus!
