//! Plain values of the telemetry channel (router to display) and the free-text cap.

use vstd::prelude::*;
use vstd::utf8::{encode_utf8, encode_scalar, has_width_1_encoding, has_width_2_encoding,
    has_width_3_encoding, has_width_4_encoding, char_is_scalar};
use crate::text::push_char;

verus! {

/// Telemetry protocol version (independent of the key-tap wire version).
pub const TELEM_VERSION: u32 = 1;

/// Default UDP port of the telemetry channel.
pub const TELEM_PORT: u16 = 44556;

/// Maximum length in bytes of a free-text field, so one event fits one datagram.
pub const TELEM_TEXT_CAP: usize = 600;

/// A logical route the router can send input to.
#[derive(Debug, Clone, PartialEq, Eq)]
pub struct RouteInfo {
    /// Stable id, e.g. `"trophy"` or `"game"`.
    pub id: String,
    /// Human label for the display.
    pub label: String,
    /// The instance behind the route is working (not accepting input).
    pub busy: bool,
    /// The destination reports it is ready to accept input.
    pub ready: bool,
}

/// How a single received keystroke was handled.
#[derive(Debug, Clone, Copy, PartialEq, Eq, Structural)]
pub enum Disposition {
    /// Accepted into the input buffer / streamed live.
    Accepted,
    /// Rejected by the allowlist.
    Blocked,
    /// Duplicate of a packet already seen.
    Dup,
}

/// Why a keystroke or packet was dropped rather than buffered.
#[derive(Debug, Clone, Copy, PartialEq, Eq, Structural)]
pub enum DropReason {
    Disarmed,
    NoRoute,
    Blocked,
    Dedup,
    TargetNotForeground,
}

/// Number of bytes of the UTF-8 encoding of `cs`.
pub open spec fn utf8_len(cs: Seq<char>) -> nat {
    encode_utf8(cs).len()
}

/// Number of bytes of the UTF-8 encoding of one character.
pub open spec fn char_width(c: char) -> nat {
    if (c as u32) < 0x80 {
        1
    } else if (c as u32) < 0x800 {
        2
    } else if (c as u32) < 0x10000 {
        3
    } else {
        4
    }
}

/// Length of the longest prefix of `cs` whose encoding takes at most `cap` bytes: characters
/// are dropped from the end until the rest fits.
pub open spec fn fitting_prefix_len(cs: Seq<char>, cap: nat) -> nat
    decreases cs.len(),
{
    if cs.len() == 0 || utf8_len(cs) <= cap {
        cs.len()
    } else {
        fitting_prefix_len(cs.drop_last(), cap)
    }
}

/// Free text capped to [`TELEM_TEXT_CAP`] bytes: unchanged when it fits, else its longest
/// fitting prefix followed by `…`.
pub open spec fn capped(cs: Seq<char>) -> Seq<char> {
    if utf8_len(cs) <= TELEM_TEXT_CAP {
        cs
    } else {
        cs.take(fitting_prefix_len(cs, TELEM_TEXT_CAP as nat) as int).push('…')
    }
}

proof fn lemma_encode_push(cs: Seq<char>, c: char)
    ensures
        encode_utf8(cs.push(c)) == encode_utf8(cs) + encode_scalar(c as u32),
    decreases cs.len(),
{
    if cs.len() == 0 {
        assert(cs.push(c).drop_first() =~= Seq::<char>::empty());
        assert(encode_utf8(Seq::<char>::empty()) =~= Seq::<u8>::empty());
        assert(encode_utf8(cs.push(c)) =~= encode_utf8(cs) + encode_scalar(c as u32));
    } else {
        assert(cs.push(c).drop_first() =~= cs.drop_first().push(c));
        lemma_encode_push(cs.drop_first(), c);
        assert(encode_utf8(cs.push(c)) =~= encode_utf8(cs) + encode_scalar(c as u32));
    }
}

proof fn lemma_scalar_width(c: char)
    ensures
        encode_scalar(c as u32).len() == char_width(c),
{
    broadcast use char_is_scalar;

    let v = c as u32;
    assert(has_width_1_encoding(v) || has_width_2_encoding(v) || has_width_3_encoding(v)
        || has_width_4_encoding(v));
}

proof fn lemma_utf8_len_push(cs: Seq<char>, c: char)
    ensures
        utf8_len(cs.push(c)) == utf8_len(cs) + char_width(c),
{
    lemma_encode_push(cs, c);
    lemma_scalar_width(c);
}

pub(crate) proof fn lemma_utf8_len_take_step(cs: Seq<char>, i: int)
    requires
        0 <= i < cs.len(),
    ensures
        utf8_len(cs.take(i + 1)) == utf8_len(cs.take(i)) + char_width(cs[i]),
{
    assert(cs.take(i + 1) =~= cs.take(i).push(cs[i]));
    lemma_utf8_len_push(cs.take(i), cs[i]);
}

pub(crate) proof fn lemma_utf8_len_take_mono(cs: Seq<char>, a: int, b: int)
    requires
        0 <= a <= b <= cs.len(),
    ensures
        utf8_len(cs.take(a)) <= utf8_len(cs.take(b)),
    decreases b - a,
{
    if a < b {
        lemma_utf8_len_take_step(cs, b - 1);
        lemma_utf8_len_take_mono(cs, a, b - 1);
    }
}

/// When the first `i` characters fit in `cap` bytes and the first `i + 1` do not, the longest
/// fitting prefix has `i` characters.
proof fn lemma_fitting_prefix_len(cs: Seq<char>, cap: nat, i: int, j: int)
    requires
        0 <= i < j <= cs.len(),
        utf8_len(cs.take(i)) <= cap,
        utf8_len(cs.take(i + 1)) > cap,
    ensures
        fitting_prefix_len(cs.take(j), cap) == i,
    decreases j,
{
    lemma_utf8_len_take_mono(cs, i + 1, j);
    let t = cs.take(j);
    assert(t.drop_last() =~= cs.take(j - 1));
    assert(t.len() == j);
    assert(utf8_len(t) > cap);
    assert(fitting_prefix_len(t, cap) == fitting_prefix_len(t.drop_last(), cap));
    if j == i + 1 {
        assert(cs.take(j - 1) =~= cs.take(i));
        let u = cs.take(i);
        assert(u.len() == i);
    } else {
        lemma_fitting_prefix_len(cs, cap, i, j - 1);
    }
}

proof fn lemma_fitting_prefix_fits(cs: Seq<char>, cap: nat)
    ensures
        fitting_prefix_len(cs, cap) <= cs.len(),
        utf8_len(cs.take(fitting_prefix_len(cs, cap) as int)) <= cap,
    decreases cs.len(),
{
    if cs.len() == 0 {
        assert(cs.take(0) =~= Seq::<char>::empty());
        assert(encode_utf8(Seq::<char>::empty()) =~= Seq::<u8>::empty());
    } else if utf8_len(cs) <= cap {
        assert(cs.take(cs.len() as int) =~= cs);
    } else {
        lemma_fitting_prefix_fits(cs.drop_last(), cap);
        let k = fitting_prefix_len(cs, cap) as int;
        assert(cs.drop_last().take(k) =~= cs.take(k));
    }
}

/// Capped text always fits one datagram's text budget: at most [`TELEM_TEXT_CAP`] bytes plus
/// the three bytes of the `…` marker, and it is never longer than the original in characters
/// plus the marker.
pub proof fn lemma_capped_fits(cs: Seq<char>)
    ensures
        utf8_len(capped(cs)) <= TELEM_TEXT_CAP + 3,
        utf8_len(cs) <= TELEM_TEXT_CAP ==> capped(cs) == cs,
        utf8_len(cs) > TELEM_TEXT_CAP ==> capped(cs).last() == '…' && capped(cs).drop_last()
            =~= cs.take(capped(cs).len() - 1),
{
    if utf8_len(cs) > TELEM_TEXT_CAP {
        let k = fitting_prefix_len(cs, TELEM_TEXT_CAP as nat);
        lemma_fitting_prefix_fits(cs, TELEM_TEXT_CAP as nat);
        lemma_utf8_len_push(cs.take(k as int), '…');
        assert(capped(cs).drop_last() =~= cs.take(k as int));
    }
}

/// Number of UTF-8 bytes of a character.
pub(crate) fn utf8_width(c: char) -> (w: usize)
    ensures
        w == char_width(c),
{
    let v = c as u32;
    if v < 0x80 {
        1
    } else if v < 0x800 {
        2
    } else if v < 0x10000 {
        3
    } else {
        4
    }
}

/// Truncate free text to [`TELEM_TEXT_CAP`] bytes on a character boundary, marking the cut
/// with `…`, so a single event always fits one UDP datagram.
pub fn cap_text(s: &str) -> (r: String)
    ensures
        r@ == capped(s@),
{
    broadcast use vstd::string::group_string_axioms;

    if s.as_bytes().len() <= TELEM_TEXT_CAP {
        let r = String::from_str(s);
        return r;
    }
    let ghost cs = s@;
    let mut out = String::new();
    let mut used: usize = 0;
    let mut i: usize = 0;
    let mut chars = s.chars();
    loop
        invariant
            vstd::std_specs::iter::IteratorSpec::remaining(&chars) == cs.skip(i as int),
            vstd::std_specs::iter::IteratorSpec::obeys_prophetic_iter_laws(&chars),
            i <= cs.len(),
            out@ == cs.take(i as int),
            used == utf8_len(cs.take(i as int)),
            used <= TELEM_TEXT_CAP,
            i <= used,
            utf8_len(cs) > TELEM_TEXT_CAP,
            cs == s@,
        decreases cs.len() - i,
    {
        let ghost before = chars;
        let next = chars.next();
        match next {
            None => {
                assert(cs.take(i as int) =~= cs) by {
                    assert(cs.skip(i as int).len() == 0);
                }
                assert(false);
                return out;
            },
            Some(c) => {
                assert(c == cs[i as int]);
                proof {
                    lemma_utf8_len_take_step(cs, i as int);
                }
                let w = utf8_width(c);
                if used + w > TELEM_TEXT_CAP {
                    proof {
                        lemma_fitting_prefix_len(cs, TELEM_TEXT_CAP as nat, i as int, cs.len() as int);
                        assert(cs.take(cs.len() as int) =~= cs);
                    }
                    push_char(&mut out, '…');
                    return out;
                }
                push_char(&mut out, c);
                used = used + w;
                assert(cs.take(i + 1) =~= cs.take(i as int).push(c));
                assert(vstd::std_specs::iter::IteratorSpec::remaining(&chars) =~= cs.skip(i + 1));
                i = i + 1;
            },
        }
    }
}

} // verus!
