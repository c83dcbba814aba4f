//! The content-anchored edit: a replacement that goes ahead only where the
//! anchor occurs exactly once in the text.
use crate::text::{from_chars, to_chars};
use vstd::prelude::*;

verus! {

/// Why an edit was refused: the anchor was found `count` times, not once.
/// A count that no `usize` holds is given as `usize::MAX`.
#[derive(Debug)]
pub struct AmbiguousMatch {
    pub count: usize,
}

/// Whether `anchor` stands in `text` at position `i`.
pub open spec fn occurs_at(text: Seq<char>, anchor: Seq<char>, i: int) -> bool {
    0 <= i && i + anchor.len() <= text.len() && text.subrange(i, i + anchor.len()) == anchor
}

/// How far the search moves on after an occurrence: past it, and by one
/// position where the anchor is empty.
pub open spec fn stride(anchor: Seq<char>) -> int {
    if anchor.len() == 0 {
        1
    } else {
        anchor.len() as int
    }
}

/// The number of occurrences found from `i` on, reading from left to right
/// and going on behind each occurrence, so that no two overlap.
pub open spec fn count_from(text: Seq<char>, anchor: Seq<char>, i: int) -> nat
    decreases text.len() + 1 - i,
{
    if i < 0 || i + anchor.len() > text.len() {
        0
    } else if occurs_at(text, anchor, i) {
        1 + count_from(text, anchor, i + stride(anchor))
    } else {
        count_from(text, anchor, i + 1)
    }
}

/// The number of non-overlapping occurrences of `anchor` in `text`. The
/// empty anchor occurs before each character and at the end.
pub open spec fn count_matches(text: Seq<char>, anchor: Seq<char>) -> nat {
    count_from(text, anchor, 0)
}

/// The first position at or after `i` where `anchor` stands, or -1.
pub open spec fn first_match_from(text: Seq<char>, anchor: Seq<char>, i: int) -> int
    decreases text.len() + 1 - i,
{
    if i < 0 || i + anchor.len() > text.len() {
        -1
    } else if occurs_at(text, anchor, i) {
        i
    } else {
        first_match_from(text, anchor, i + 1)
    }
}

/// The first position where `anchor` stands in `text`, or -1.
pub open spec fn first_match(text: Seq<char>, anchor: Seq<char>) -> int {
    first_match_from(text, anchor, 0)
}

/// `text` with the `len` characters at `at` replaced by `replacement`.
pub open spec fn replace_at(text: Seq<char>, at: int, len: int, replacement: Seq<char>) -> Seq<
    char,
> {
    text.take(at) + replacement + text.skip(at + len)
}

/// `text` with the first occurrence of `anchor` replaced by `replacement`.
pub open spec fn edited(text: Seq<char>, anchor: Seq<char>, replacement: Seq<char>) -> Seq<char> {
    replace_at(text, first_match(text, anchor), anchor.len() as int, replacement)
}

/// A count as a `usize` holds it.
pub open spec fn clip(n: nat) -> usize {
    if n > usize::MAX {
        usize::MAX
    } else {
        n as usize
    }
}

/// Whether `anchor` stands in `text` at `i`.
fn stands_at(text: &Vec<char>, anchor: &Vec<char>, i: usize) -> (r: bool)
    requires
        i + anchor.len() <= text.len(),
    ensures
        r == occurs_at(text@, anchor@, i as int),
{
    let mut k: usize = 0;
    while k < anchor.len()
        invariant
            k <= anchor.len(),
            i + anchor.len() <= text.len(),
            text@.subrange(i as int, i + k) == anchor@.take(k as int),
        decreases anchor.len() - k,
    {
        if text[i + k] != anchor[k] {
            assert(text@.subrange(i as int, i + anchor.len())[k as int] != anchor@[k as int]);
            return false;
        }
        assert(text@.subrange(i as int, i + k + 1) == text@.subrange(i as int, i + k).push(
            text@[i + k],
        ));
        assert(anchor@.take(k + 1) == anchor@.take(k as int).push(anchor@[k as int]));
        k += 1;
    }
    assert(anchor@.take(k as int) == anchor@);
    true
}

/// The number of non-overlapping occurrences of `anchor` in `text`.
fn count_in(text: &Vec<char>, anchor: &Vec<char>) -> (count: usize)
    ensures
        count == clip(count_matches(text@, anchor@)),
{
    let n: usize = text.len();
    let m: usize = anchor.len();
    if m > n {
        return 0;
    }
    let last: usize = n - m;
    let step: usize = if m == 0 {
        1
    } else {
        m
    };
    let mut count: usize = 0;
    let ghost mut seen: nat = 0;
    let mut i: usize = 0;
    loop
        invariant_except_break
            i <= last,
            count_matches(text@, anchor@) == seen + count_from(text@, anchor@, i as int),
        invariant
            n == text.len(),
            m == anchor.len(),
            m <= n,
            last == n - m,
            step == stride(anchor@),
            count == clip(seen),
        ensures
            count_matches(text@, anchor@) == seen,
        decreases last - i,
    {
        let here = stands_at(text, anchor, i);
        if here {
            if count < usize::MAX {
                count += 1;
            }
            proof {
                seen = seen + 1;
            }
            assert(count_from(text@, anchor@, i as int) == 1 + count_from(
                text@,
                anchor@,
                i + step,
            ));
            if step > last - i {
                assert(count_from(text@, anchor@, i + step) == 0);
                break;
            }
            i += step;
        } else {
            assert(count_from(text@, anchor@, i as int) == count_from(text@, anchor@, i + 1));
            if i == last {
                assert(count_from(text@, anchor@, i + 1) == 0);
                break;
            }
            i += 1;
        }
    }
    count
}

/// The first position where `anchor` stands in `text`.
fn find_first(text: &Vec<char>, anchor: &Vec<char>) -> (at: usize)
    requires
        count_matches(text@, anchor@) >= 1,
    ensures
        at == first_match(text@, anchor@),
        occurs_at(text@, anchor@, at as int),
{
    let n: usize = text.len();
    let m: usize = anchor.len();
    assert(m <= n);
    let mut i: usize = 0;
    loop
        invariant
            m == anchor.len(),
            n == text.len(),
            i + m <= n,
            first_match(text@, anchor@) == first_match_from(text@, anchor@, i as int),
            count_from(text@, anchor@, i as int) >= 1,
        decreases n - i,
    {
        if stands_at(text, anchor, i) {
            return i;
        }
        assert(count_from(text@, anchor@, i as int) == count_from(text@, anchor@, i + 1));
        assert(first_match_from(text@, anchor@, i as int) == first_match_from(
            text@,
            anchor@,
            i + 1,
        ));
        i += 1;
    }
}

/// Replace the one occurrence of `anchor` in `original_text` by
/// `replacement`.
///
/// The edit is made where `anchor` is found exactly once; found any other
/// number of times, it is refused with that number.
pub fn apply_edit(original_text: &str, anchor: &str, replacement: &str) -> (r: Result<
    String,
    AmbiguousMatch,
>)
    ensures
        match r {
            Ok(new_text) => count_matches(original_text@, anchor@) == 1 && new_text@ == edited(
                original_text@,
                anchor@,
                replacement@,
            ),
            Err(e) => count_matches(original_text@, anchor@) != 1 && e.count == clip(
                count_matches(original_text@, anchor@),
            ),
        },
{
    let text = to_chars(original_text);
    let old = to_chars(anchor);
    let new = to_chars(replacement);
    let count = count_in(&text, &old);
    if count != 1 {
        return Err(AmbiguousMatch { count });
    }
    let at = find_first(&text, &old);
    let mut out: Vec<char> = Vec::new();
    let mut k: usize = 0;
    while k < at
        invariant
            k <= at <= text.len(),
            out@ == text@.take(k as int),
        decreases at - k,
    {
        out.push(text[k]);
        k += 1;
    }
    let mut j: usize = 0;
    while j < new.len()
        invariant
            j <= new.len(),
            out@ == text@.take(at as int) + new@.take(j as int),
        decreases new.len() - j,
    {
        out.push(new[j]);
        j += 1;
    }
    assert(new@.take(j as int) == new@);
    let from: usize = at + old.len();
    let mut t: usize = from;
    while t < text.len()
        invariant
            from <= t <= text.len(),
            out@ == text@.take(at as int) + new@ + text@.subrange(from as int, t as int),
        decreases text.len() - t,
    {
        out.push(text[t]);
        t += 1;
    }
    assert(text@.subrange(from as int, t as int) == text@.skip(from as int));
    Ok(from_chars(&out))
}

/// Where the count from `i` on is not zero, the first occurrence from `i`
/// on is one, and none stands before it.
pub proof fn lemma_first_match_from(text: Seq<char>, anchor: Seq<char>, i: int)
    requires
        0 <= i,
        count_from(text, anchor, i) >= 1,
    ensures
        i <= first_match_from(text, anchor, i),
        occurs_at(text, anchor, first_match_from(text, anchor, i)),
        forall|k: int|
            i <= k < first_match_from(text, anchor, i) ==> !occurs_at(text, anchor, k),
        count_from(text, anchor, i) == 1 + count_from(
            text,
            anchor,
            first_match_from(text, anchor, i) + stride(anchor),
        ),
    decreases text.len() + 1 - i,
{
    if i + anchor.len() <= text.len() && !occurs_at(text, anchor, i) {
        lemma_first_match_from(text, anchor, i + 1);
    }
}

/// Where the anchor stands nowhere from `i` on, the count from `i` on is
/// zero; and the other way round.
pub proof fn lemma_count_zero_from(text: Seq<char>, anchor: Seq<char>, i: int)
    requires
        0 <= i,
    ensures
        count_from(text, anchor, i) == 0 <==> forall|k: int| i <= k ==> !occurs_at(text, anchor, k),
    decreases text.len() + 1 - i,
{
    if i + anchor.len() <= text.len() {
        if occurs_at(text, anchor, i) {
        } else {
            lemma_count_zero_from(text, anchor, i + 1);
            if count_from(text, anchor, i) == 0 {
                assert forall|k: int| i <= k implies !occurs_at(text, anchor, k) by {
                    if k > i {
                        assert(i + 1 <= k);
                    }
                }
            }
        }
    } else {
        assert forall|k: int| i <= k implies !occurs_at(text, anchor, k) by {}
    }
}

/// A count of zero says that the anchor stands nowhere in the text.
pub proof fn lemma_count_zero(text: Seq<char>, anchor: Seq<char>)
    ensures
        count_matches(text, anchor) == 0 <==> forall|k: int| !occurs_at(text, anchor, k),
{
    lemma_count_zero_from(text, anchor, 0);
}

/// An edit that goes ahead replaces one occurrence of the anchor, the first,
/// and leaves the text before and behind it as it was. The length changes by
/// the length of the replacement less the length of the anchor.
pub proof fn lemma_edit_replaces_one(text: Seq<char>, anchor: Seq<char>, replacement: Seq<char>)
    requires
        count_matches(text, anchor) == 1,
    ensures
        occurs_at(text, anchor, first_match(text, anchor)),
        edited(text, anchor, replacement).len() == text.len() + replacement.len() - anchor.len(),
        edited(text, anchor, replacement).take(first_match(text, anchor)) == text.take(
            first_match(text, anchor),
        ),
        occurs_at(edited(text, anchor, replacement), replacement, first_match(text, anchor)),
        edited(text, anchor, replacement).skip(first_match(text, anchor) + replacement.len())
            == text.skip(first_match(text, anchor) + anchor.len()),
{
    lemma_first_match_from(text, anchor, 0);
    let at = first_match(text, anchor);
    let out = edited(text, anchor, replacement);
    assert(out.take(at) =~= text.take(at));
    assert(out.subrange(at, at + replacement.len()) =~= replacement);
    assert(out.skip(at + replacement.len()) =~= text.skip(at + anchor.len()));
}

/// A text in which the anchor stands at one position and at no other is
/// edited, and at that position.
pub proof fn lemma_single_occurrence_is_edited(text: Seq<char>, anchor: Seq<char>, at: int)
    requires
        occurs_at(text, anchor, at),
        forall|k: int| k != at ==> !occurs_at(text, anchor, k),
    ensures
        count_matches(text, anchor) == 1,
        first_match(text, anchor) == at,
{
    lemma_count_zero_from(text, anchor, 0);
    lemma_first_match_from(text, anchor, 0);
    lemma_count_zero_from(text, anchor, at + stride(anchor));
}

/// Replacing the anchor by itself leaves the text as it was.
pub proof fn lemma_edit_by_anchor_is_identity(text: Seq<char>, anchor: Seq<char>)
    requires
        count_matches(text, anchor) == 1,
    ensures
        edited(text, anchor, anchor) == text,
{
    lemma_first_match_from(text, anchor, 0);
    let at = first_match(text, anchor);
    assert(edited(text, anchor, anchor) =~= text);
}

} // verus!
