//! Picking the window a route's input goes to: the first window whose title or process name
//! contains the route's match string, ignoring case.

use vstd::prelude::*;
use crate::telem::{utf8_len, utf8_width, lemma_utf8_len_take_step, lemma_utf8_len_take_mono};
use crate::text::{push_char, chars_of};

verus! {

/// The lowercase form of a string, as `str::to_lowercase` computes it.
pub uninterp spec fn lowercase(s: Seq<char>) -> Seq<char>;

/// Lowercase a string (`str::to_lowercase`).
#[verifier::external_body]
fn to_lowercase(s: &str) -> (r: String)
    ensures
        r@ == lowercase(s@),
{
    s.to_lowercase()
}

/// Whether `needle` occurs in `hay` at index `i`.
pub open spec fn occurs_at(hay: Seq<char>, needle: Seq<char>, i: int) -> bool {
    0 <= i && i + needle.len() <= hay.len() && hay.subrange(i, i + needle.len()) == needle
}

/// Whether `needle` occurs in `hay`.
pub open spec fn contains(hay: Seq<char>, needle: Seq<char>) -> bool {
    exists|i: int| occurs_at(hay, needle, i)
}

/// Whether a window (title, process name) matches `needle`, ignoring case.
pub open spec fn window_matches(title: Seq<char>, process: Seq<char>, needle: Seq<char>) -> bool {
    contains(lowercase(title), lowercase(needle)) || contains(lowercase(process), lowercase(needle))
}

/// Whether `needle` occurs in `hay` at index `i`.
fn occurs(hay: &Vec<char>, needle: &Vec<char>, i: usize) -> (r: bool)
    requires
        i + needle@.len() <= hay@.len(),
    ensures
        r == occurs_at(hay@, needle@, i as int),
{
    let hay_len = hay.len();
    let mut k: usize = 0;
    while k < needle.len()
        invariant
            i + needle@.len() <= hay@.len(),
            hay_len == hay@.len(),
            k <= needle@.len(),
            forall|j: int| 0 <= j < k ==> hay@[i + j] == needle@[j],
        decreases needle@.len() - k,
    {
        if hay[i + k] != needle[k] {
            assert(hay@.subrange(i as int, i + needle@.len())[k as int] != needle@[k as int]);
            return false;
        }
        k = k + 1;
    }
    assert(hay@.subrange(i as int, i + needle@.len()) =~= needle@);
    true
}

/// Whether `needle` occurs in `hay`.
fn contains_chars(hay: &Vec<char>, needle: &Vec<char>) -> (r: bool)
    ensures
        r == contains(hay@, needle@),
{
    if needle.len() > hay.len() {
        assert(!contains(hay@, needle@));
        return false;
    }
    let last = hay.len() - needle.len();
    let mut i: usize = 0;
    while i <= last
        invariant
            last == hay@.len() - needle@.len(),
            i <= last,
            forall|j: int| 0 <= j < i ==> !occurs_at(hay@, needle@, j),
        ensures
            forall|j: int| 0 <= j <= last ==> !occurs_at(hay@, needle@, j),
        decreases last - i,
    {
        if occurs(hay, needle, i) {
            return true;
        }
        if i == last {
            break;
        }
        i = i + 1;
    }
    false
}

/// Whether a window whose lowercased title and process name are `title` and `process`
/// matches the lowercased `needle`: the needle occurs in one of them.
pub fn lowered_match(title: &str, process: &str, needle: &str) -> (r: bool)
    ensures
        r == (contains(title@, needle@) || contains(process@, needle@)),
{
    let needle = chars_of(needle);
    let title = chars_of(title);
    if contains_chars(&title, &needle) {
        return true;
    }
    let process = chars_of(process);
    contains_chars(&process, &needle)
}

/// The index of the first window (title, process name) whose title or process name
/// contains `window_match`, ignoring case.
pub fn find_window(windows: &Vec<(String, String)>, window_match: &str) -> (r: Option<usize>)
    ensures
        match r {
            Some(i) => i < windows@.len() && window_matches(windows@[i as int].0@, windows@[i as int].1@, window_match@)
                && forall|j: int| 0 <= j < i ==> !window_matches(#[trigger] windows@[j].0@, windows@[j].1@, window_match@),
            None => forall|j: int| 0 <= j < windows@.len() ==> !window_matches(#[trigger] windows@[j].0@, windows@[j].1@, window_match@),
        },
{
    let needle = to_lowercase(window_match);
    let mut i: usize = 0;
    while i < windows.len()
        invariant
            i <= windows@.len(),
            needle@ == lowercase(window_match@),
            forall|j: int| 0 <= j < i ==> !window_matches(#[trigger] windows@[j].0@, windows@[j].1@, window_match@),
        decreases windows@.len() - i,
    {
        let title = to_lowercase(windows[i].0.as_str());
        let process = to_lowercase(windows[i].1.as_str());
        if lowered_match(title.as_str(), process.as_str(), needle.as_str()) {
            return Some(i);
        }
        i = i + 1;
    }
    None
}

/// Byte length of a window title above which the label shortens it.
pub const LABEL_TITLE_MAX_BYTES: usize = 50;

/// Bytes of the title kept in a shortened label.
pub const LABEL_TITLE_KEPT_BYTES: usize = 47;

/// The first `k` characters of `cs` take exactly `bytes` bytes in UTF-8.
pub open spec fn boundary_at(cs: Seq<char>, bytes: nat, k: int) -> bool {
    0 <= k <= cs.len() && utf8_len(cs.take(k)) == bytes
}

/// The label a window is listed under: the process name when the title is empty; else
/// `title - process`, with a title over [`LABEL_TITLE_MAX_BYTES`] bytes cut to its first
/// [`LABEL_TITLE_KEPT_BYTES`] bytes and marked with `...`.
pub open spec fn window_label(title: Seq<char>, process: Seq<char>) -> Seq<char> {
    if title.len() == 0 {
        process
    } else if utf8_len(title) > LABEL_TITLE_MAX_BYTES {
        title.take(choose|k: int| boundary_at(title, LABEL_TITLE_KEPT_BYTES as nat, k)) + "... - "@
            + process
    } else {
        title + " - "@ + process
    }
}

proof fn lemma_boundary_unique(cs: Seq<char>, b: nat, i: int, j: int)
    requires
        boundary_at(cs, b, i),
        boundary_at(cs, b, j),
    ensures
        i == j,
{
    if i < j {
        lemma_utf8_len_take_step(cs, i);
        lemma_utf8_len_take_mono(cs, i + 1, j);
    } else if j < i {
        lemma_utf8_len_take_step(cs, j);
        lemma_utf8_len_take_mono(cs, j + 1, i);
    }
}

/// The label a window is listed under (see [`window_label`]). A long title must have a
/// character boundary at byte [`LABEL_TITLE_KEPT_BYTES`], where it is cut.
pub fn display_name(title: &str, process: &str) -> (r: String)
    requires
        utf8_len(title@) > LABEL_TITLE_MAX_BYTES ==> exists|k: int|
            boundary_at(title@, LABEL_TITLE_KEPT_BYTES as nat, k),
    ensures
        r@ == window_label(title@, process@),
{
    broadcast use vstd::string::group_string_axioms;

    proof {
        reveal_strlit("... - ");
        reveal_strlit(" - ");
    }
    if title.unicode_len() == 0 {
        return String::from_str(process);
    }
    if title.as_bytes().len() <= LABEL_TITLE_MAX_BYTES {
        let mut r = String::from_str(title);
        r.append(" - ");
        r.append(process);
        return r;
    }
    let ghost cs = title@;
    let ghost k = choose|k: int| boundary_at(cs, LABEL_TITLE_KEPT_BYTES as nat, k);
    let mut out = String::new();
    let mut used: usize = 0;
    let mut i: usize = 0;
    let mut chars = title.chars();
    while used < LABEL_TITLE_KEPT_BYTES
        invariant
            vstd::std_specs::iter::IteratorSpec::remaining(&chars) == cs.skip(i as int),
            vstd::std_specs::iter::IteratorSpec::obeys_prophetic_iter_laws(&chars),
            boundary_at(cs, LABEL_TITLE_KEPT_BYTES as nat, k),
            0 <= i <= k,
            out@ == cs.take(i as int),
            used == utf8_len(cs.take(i as int)),
            used <= LABEL_TITLE_KEPT_BYTES,
            i <= used,
            cs == title@,
        decreases k - i,
    {
        assert(i < k);
        match chars.next() {
            None => {
                assert(cs.skip(i as int).len() == 0);
                assert(false);
            },
            Some(c) => {
                assert(c == cs[i as int]);
                proof {
                    lemma_utf8_len_take_step(cs, i as int);
                    lemma_utf8_len_take_mono(cs, i + 1, k);
                }
                push_char(&mut out, c);
                used = used + utf8_width(c);
                assert(cs.take(i + 1) =~= cs.take(i as int).push(c));
                assert(vstd::std_specs::iter::IteratorSpec::remaining(&chars) =~= cs.skip(i + 1));
                i = i + 1;
            },
        }
    }
    proof {
        lemma_boundary_unique(cs, LABEL_TITLE_KEPT_BYTES as nat, i as int, k);
    }
    out.append("... - ");
    out.append(process);
    out
}

} // verus!
