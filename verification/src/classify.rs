use vstd::prelude::*;

verus! {

/// `needle` occurs in `haystack` starting at position `i`.
pub open spec fn matches_at(haystack: Seq<char>, needle: Seq<char>, i: int) -> bool {
    &&& 0 <= i
    &&& i + needle.len() <= haystack.len()
    &&& haystack.subrange(i, i + needle.len()) == needle
}

/// `needle` occurs somewhere in `haystack` as a contiguous substring.
pub open spec fn contains_seq(haystack: Seq<char>, needle: Seq<char>) -> bool {
    exists|i: int| matches_at(haystack, needle, i)
}

/// ASCII lower-casing of one character; anything outside 'A'..'Z' is unchanged.
pub open spec fn lower_char(c: char) -> char {
    if 'A' <= c && c <= 'Z' {
        ((c as u8) + 32) as char
    } else {
        c
    }
}

/// Character-wise ASCII lower-casing of a whole string.
pub open spec fn lower_seq(s: Seq<char>) -> Seq<char> {
    s.map_values(|c: char| lower_char(c))
}

/// One frame name carries a known-bad driver or toolkit signature: the
/// open-source GPU kick function or the toolkit frame-drawing function as
/// case-sensitive substrings, or the GPU vendor name in any letter case.
pub open spec fn frame_matches(f: Seq<char>) -> bool {
    ||| contains_seq(f, "nouveau_pushbuf_kick"@)
    ||| contains_seq(lower_seq(f), "nvidia"@)
    ||| contains_seq(f, "gdk_window_end_draw_frame"@)
}

/// Some frame in the captured list carries a known-bad signature.
pub open spec fn frames_match(frames: Seq<Seq<char>>) -> bool {
    exists|i: int| 0 <= i < frames.len() && frame_matches(frames[i])
}

/// Executable ASCII lower-casing of one character.
fn char_lower(c: char) -> (r: char)
    ensures
        r == lower_char(c),
{
    if 'A' <= c && c <= 'Z' {
        ((c as u8) + 32) as char
    } else {
        c
    }
}

/// The haystack to match against: the string itself, or its lower-cased form.
pub open spec fn fold_target(h: Seq<char>, fold: bool) -> Seq<char> {
    if fold {
        lower_seq(h)
    } else {
        h
    }
}

/// Whether `needle` occurs at position `i` of `haystack` (lower-cased first
/// when `fold` is set).
fn matches_at_exec(haystack: &str, needle: &str, i: usize, fold: bool) -> (r: bool)
    requires
        i + needle@.len() <= haystack@.len(),
        haystack@.len() <= usize::MAX,
    ensures
        r == matches_at(fold_target(haystack@, fold), needle@, i as int),
{
    proof {
        assert(lower_seq(haystack@).len() == haystack@.len());
    }
    let n_len: usize = needle.unicode_len();
    let mut j: usize = 0;
    while j < n_len
        invariant
            n_len == needle@.len(),
            i + n_len <= haystack@.len(),
            haystack@.len() <= usize::MAX,
            0 <= j <= n_len,
            fold_target(haystack@, fold).len() == haystack@.len(),
            forall|k: int|
                0 <= k < j ==> fold_target(haystack@, fold)[i + k] == needle@[k],
        decreases n_len - j,
    {
        let hc: char = haystack.get_char(i + j);
        let hc: char = if fold {
            char_lower(hc)
        } else {
            hc
        };
        let nc: char = needle.get_char(j);
        if hc != nc {
            proof {
                let target = fold_target(haystack@, fold);
                if matches_at(target, needle@, i as int) {
                    assert(target.subrange(i as int, i + needle@.len())[j as int]
                        == needle@[j as int]);
                }
            }
            return false;
        }
        j += 1;
    }
    proof {
        let target = fold_target(haystack@, fold);
        assert(target.subrange(i as int, i + needle@.len()) =~= needle@);
    }
    true
}

/// Whether `needle` occurs anywhere in `haystack` (lower-cased first when
/// `fold` is set).
fn contains_substr(haystack: &str, needle: &str, fold: bool) -> (r: bool)
    ensures
        r == contains_seq(fold_target(haystack@, fold), needle@),
{
    proof {
        assert(lower_seq(haystack@).len() == haystack@.len());
    }
    let h_len: usize = haystack.unicode_len();
    let n_len: usize = needle.unicode_len();
    if n_len > h_len {
        return false;
    }
    if n_len == 0 {
        proof {
            let target = fold_target(haystack@, fold);
            assert(target.subrange(0, 0) =~= needle@);
            assert(matches_at(target, needle@, 0));
        }
        return true;
    }
    let mut i: usize = 0;
    while i <= h_len - n_len
        invariant
            h_len == haystack@.len(),
            n_len == needle@.len(),
            0 < n_len <= h_len,
            0 <= i <= h_len - n_len + 1,
            forall|k: int|
                0 <= k < i ==> !matches_at(fold_target(haystack@, fold), needle@, k),
        decreases h_len - n_len + 1 - i,
    {
        if matches_at_exec(haystack, needle, i, fold) {
            return true;
        }
        i += 1;
    }
    proof {
        let target = fold_target(haystack@, fold);
        assert forall|k: int| !matches_at(target, needle@, k) by {
            if 0 <= k && k + needle@.len() <= target.len() {
                assert(k < i);
            }
        }
    }
    false
}

/// One captured frame name carries a known-bad driver or toolkit signature.
pub fn frame_is_suspect(frame: &str) -> (r: bool)
    ensures
        r == frame_matches(frame@),
{
    contains_substr(frame, "nouveau_pushbuf_kick", false)
        || contains_substr(frame, "nvidia", true)
        || contains_substr(frame, "gdk_window_end_draw_frame", false)
}

/// Heuristic classification of a captured frame list: true exactly when some
/// frame carries one of the known-bad signatures.
pub fn classify(frames: &Vec<String>) -> (r: bool)
    ensures
        r == frames_match(frames.deep_view()),
{
    let mut i: usize = 0;
    while i < frames.len()
        invariant
            0 <= i <= frames@.len(),
            frames.deep_view().len() == frames@.len(),
            forall|k: int| 0 <= k < i ==> !frame_matches(frames.deep_view()[k]),
        decreases frames@.len() - i,
    {
        proof {
            assert(frames.deep_view()[i as int] == frames@[i as int]@);
        }
        if frame_is_suspect(frames[i].as_str()) {
            return true;
        }
        i += 1;
    }
    false
}

} // verus!
