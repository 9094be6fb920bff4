//! Building text: decimal and hexadecimal renderings of numbers, and appending to strings.

use vstd::prelude::*;

verus! {

/// The ASCII character for a decimal digit `d` (0..=9).
pub open spec fn digit_char(d: int) -> char {
    (d + 48) as char
}

/// The ASCII character for a lowercase hexadecimal digit `d` (0..=15).
pub open spec fn hex_digit_char(d: int) -> char {
    if d < 10 {
        (d + 48) as char
    } else {
        (d + 87) as char
    }
}

/// Decimal rendering of `n`, without leading zeros.
pub open spec fn decimal(n: nat) -> Seq<char>
    decreases n,
{
    if n < 10 {
        seq![digit_char(n as int)]
    } else {
        decimal(n / 10).push(digit_char((n % 10) as int))
    }
}

/// Lowercase hexadecimal rendering of `n`, without prefix or leading zeros.
pub open spec fn hex(n: nat) -> Seq<char>
    decreases n,
{
    if n < 16 {
        seq![hex_digit_char(n as int)]
    } else {
        hex(n / 16).push(hex_digit_char((n % 16) as int))
    }
}

/// Appends one character to a string (`String::push`).
#[verifier::external_body]
pub(crate) fn push_char(s: &mut String, c: char)
    ensures
        final(s)@ == old(s)@.push(c),
{
    s.push(c);
}

/// Removes the last character of a string, if any (`String::pop`).
#[verifier::external_body]
pub(crate) fn pop_char(s: &mut String) -> (c: Option<char>)
    ensures
        old(s)@.len() == 0 ==> c is None && final(s)@ == old(s)@,
        old(s)@.len() > 0 ==> c == Some(old(s)@.last()) && final(s)@ == old(s)@.drop_last(),
{
    s.pop()
}

/// Appends the decimal rendering of `n` to `s`.
pub fn push_decimal(s: &mut String, n: u64)
    ensures
        final(s)@ == old(s)@ + decimal(n as nat),
    decreases n,
{
    let ghost s0 = s@;
    if n >= 10 {
        push_decimal(s, n / 10);
    }
    let d: u8 = (n % 10) as u8;
    push_char(s, (d + 48) as char);
    proof {
        if n >= 10 {
            assert(s@ =~= s0 + decimal((n / 10) as nat).push(digit_char((n % 10) as int)));
        } else {
            assert(s@ =~= s0 + decimal(n as nat));
        }
    }
}

/// Appends the lowercase hexadecimal rendering of `n` to `s`.
pub fn push_hex(s: &mut String, n: u64)
    ensures
        final(s)@ == old(s)@ + hex(n as nat),
    decreases n,
{
    let ghost s0 = s@;
    if n >= 16 {
        push_hex(s, n / 16);
    }
    let d: u8 = (n % 16) as u8;
    let c = if d < 10 { (d + 48) as char } else { (d + 87) as char };
    push_char(s, c);
    proof {
        if n >= 16 {
            assert(s@ =~= s0 + hex((n / 16) as nat).push(hex_digit_char((n % 16) as int)));
        } else {
            assert(s@ =~= s0 + hex(n as nat));
        }
    }
}

/// The decimal rendering of `n` as a new string.
pub fn decimal_string(n: u64) -> (s: String)
    ensures
        s@ == decimal(n as nat),
{
    let mut s = String::new();
    push_decimal(&mut s, n);
    assert(s@ =~= decimal(n as nat));
    s
}

/// The characters of a string, in order.
pub(crate) fn chars_of(s: &str) -> (v: Vec<char>)
    ensures
        v@ == s@,
{
    broadcast use vstd::string::group_string_axioms;

    let ghost cs = s@;
    let mut v: Vec<char> = Vec::new();
    let mut chars = s.chars();
    loop
        invariant
            vstd::std_specs::iter::IteratorSpec::remaining(&chars) == cs.skip(v@.len() as int),
            vstd::std_specs::iter::IteratorSpec::obeys_prophetic_iter_laws(&chars),
            v@.len() <= cs.len(),
            v@ == cs.take(v@.len() as int),
            cs == s@,
        ensures
            v@ == cs,
        decreases cs.len() - v@.len(),
    {
        match chars.next() {
            None => {
                assert(cs.skip(v@.len() as int).len() == 0);
                assert(cs.take(v@.len() as int) =~= cs);
                break;
            },
            Some(c) => {
                let ghost n = v@.len() as int;
                v.push(c);
                assert(v@ =~= cs.take(n + 1));
                assert(vstd::std_specs::iter::IteratorSpec::remaining(&chars) =~= cs.skip(n + 1));
            },
        }
    }
    v
}

/// Whether two string slices hold the same characters.
pub(crate) fn str_eq(a: &str, b: &str) -> (r: bool)
    ensures
        r == (a@ == b@),
{
    let ca = chars_of(a);
    let cb = chars_of(b);
    if ca.len() != cb.len() {
        return false;
    }
    let mut i: usize = 0;
    while i < ca.len()
        invariant
            ca@ == a@,
            cb@ == b@,
            ca@.len() == cb@.len(),
            i <= ca@.len(),
            forall|j: int| 0 <= j < i ==> ca@[j] == cb@[j],
        decreases ca@.len() - i,
    {
        if ca[i] != cb[i] {
            return false;
        }
        i = i + 1;
    }
    assert(a@ =~= b@);
    true
}

/// A string holding the single character `c`.
pub fn char_string(c: char) -> (s: String)
    ensures
        s@ == seq![c],
{
    let mut s = String::new();
    push_char(&mut s, c);
    assert(s@ =~= seq![c]);
    s
}

/// Whether `c` has the Unicode `White_Space` property (what `char::is_whitespace` tests).
pub open spec fn is_whitespace(c: char) -> bool {
    let v = c as u32;
    ||| 0x09 <= v <= 0x0d
    ||| v == 0x20
    ||| v == 0x85
    ||| v == 0xa0
    ||| v == 0x1680
    ||| 0x2000 <= v <= 0x200a
    ||| v == 0x2028
    ||| v == 0x2029
    ||| v == 0x202f
    ||| v == 0x205f
    ||| v == 0x3000
}

/// Whether the last line of `cs` (the text after its last `'\n'`) holds a character that is
/// not whitespace.
pub open spec fn last_line_nonblank(cs: Seq<char>) -> bool
    decreases cs.len(),
{
    if cs.len() == 0 || cs.last() == '\n' {
        false
    } else {
        !is_whitespace(cs.last()) || last_line_nonblank(cs.drop_last())
    }
}

/// Number of `'\n'`-terminated lines of `cs` that hold a character that is not whitespace.
pub open spec fn closed_nonblank_lines(cs: Seq<char>) -> nat
    decreases cs.len(),
{
    if cs.len() == 0 {
        0
    } else if cs.last() == '\n' {
        closed_nonblank_lines(cs.drop_last()) + if last_line_nonblank(cs.drop_last()) {
            1nat
        } else {
            0nat
        }
    } else {
        closed_nonblank_lines(cs.drop_last())
    }
}

/// Number of lines of `cs` that are not blank (hold a character that is not whitespace).
pub open spec fn nonblank_line_count(cs: Seq<char>) -> nat {
    closed_nonblank_lines(cs) + if last_line_nonblank(cs) {
        1nat
    } else {
        0nat
    }
}

fn is_whitespace_char(c: char) -> (r: bool)
    ensures
        r == is_whitespace(c),
{
    let v = c as u32;
    (0x09 <= v && v <= 0x0d) || v == 0x20 || v == 0x85 || v == 0xa0 || v == 0x1680 || (0x2000 <= v
        && v <= 0x200a) || v == 0x2028 || v == 0x2029 || v == 0x202f || v == 0x205f || v == 0x3000
}

proof fn lemma_chars_le_bytes(cs: Seq<char>, i: int)
    requires
        0 <= i <= cs.len(),
    ensures
        i <= crate::telem::utf8_len(cs.take(i)),
    decreases i,
{
    if i > 0 {
        lemma_chars_le_bytes(cs, i - 1);
        crate::telem::lemma_utf8_len_take_step(cs, i - 1);
    }
}

/// Count the lines of `text` that are not blank.
pub fn count_nonblank_lines(text: &str) -> (n: u64)
    ensures
        n == nonblank_line_count(text@),
{
    broadcast use vstd::string::group_string_axioms;

    let ghost cs = text@;
    let total = text.as_bytes().len();
    let mut count: u64 = 0;
    let mut current = false;
    let ghost mut i: int = 0;
    let mut chars = text.chars();
    proof {
        assert(cs.take(0) =~= Seq::<char>::empty());
    }
    loop
        invariant
            vstd::std_specs::iter::IteratorSpec::remaining(&chars) == cs.skip(i),
            vstd::std_specs::iter::IteratorSpec::obeys_prophetic_iter_laws(&chars),
            0 <= i <= cs.len(),
            cs == text@,
            total == crate::telem::utf8_len(cs),
            count == closed_nonblank_lines(cs.take(i)),
            count <= i,
            current == last_line_nonblank(cs.take(i)),
            current ==> count < i,
            i <= total,
        ensures
            i == cs.len(),
            cs.take(i) == cs,
            count == closed_nonblank_lines(cs),
            current == last_line_nonblank(cs),
            current ==> count < i,
            i <= total,
        decreases cs.len() - i,
    {
        match chars.next() {
            None => {
                assert(cs.take(i) =~= cs) by {
                    assert(cs.skip(i).len() == 0);
                }
                break;
            },
            Some(c) => {
                proof {
                    lemma_chars_le_bytes(cs, i + 1);
                    crate::telem::lemma_utf8_len_take_mono(cs, i + 1, cs.len() as int);
                    assert(cs.take(cs.len() as int) =~= cs);
                    assert(cs.take(i + 1).drop_last() =~= cs.take(i));
                    assert(cs.take(i + 1).last() == c);
                }
                if c == '\n' {
                    if current {
                        count = count + 1;
                    }
                    current = false;
                } else if !is_whitespace_char(c) {
                    current = true;
                }
                proof {
                    assert(vstd::std_specs::iter::IteratorSpec::remaining(&chars) =~= cs.skip(i + 1));
                    i = i + 1;
                }
            },
        }
    }
    if current {
        count + 1
    } else {
        count
    }
}

} // verus!
