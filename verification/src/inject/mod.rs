//! Keystroke injection: which key codes to send for a tap.

use vstd::prelude::*;
use crate::proto::{us_ansi_char, HID_ENTER, HID_BACKSPACE};

pub mod linux;
pub mod windows;

verus! {

/// The Linux input key code of an HID usage code, for the keys the receiver can inject.
pub open spec fn linux_key_code(hid: u8) -> Option<u16> {
    if hid == 0x04 {
        Some(30)
    } else if hid == 0x05 {
        Some(48)
    } else if hid == 0x06 {
        Some(46)
    } else if hid == 0x07 {
        Some(32)
    } else if hid == 0x08 {
        Some(18)
    } else if hid == 0x09 {
        Some(33)
    } else if hid == 0x0a {
        Some(34)
    } else if hid == 0x0b {
        Some(35)
    } else if hid == 0x0c {
        Some(23)
    } else if hid == 0x0d {
        Some(36)
    } else if hid == 0x0e {
        Some(37)
    } else if hid == 0x0f {
        Some(38)
    } else if hid == 0x10 {
        Some(50)
    } else if hid == 0x11 {
        Some(49)
    } else if hid == 0x12 {
        Some(24)
    } else if hid == 0x13 {
        Some(25)
    } else if hid == 0x14 {
        Some(16)
    } else if hid == 0x15 {
        Some(19)
    } else if hid == 0x16 {
        Some(31)
    } else if hid == 0x17 {
        Some(20)
    } else if hid == 0x18 {
        Some(22)
    } else if hid == 0x19 {
        Some(47)
    } else if hid == 0x1a {
        Some(17)
    } else if hid == 0x1b {
        Some(45)
    } else if hid == 0x1c {
        Some(21)
    } else if hid == 0x1d {
        Some(44)
    } else if hid == 0x1e {
        Some(2)
    } else if hid == 0x1f {
        Some(3)
    } else if hid == 0x20 {
        Some(4)
    } else if hid == 0x21 {
        Some(5)
    } else if hid == 0x22 {
        Some(6)
    } else if hid == 0x23 {
        Some(7)
    } else if hid == 0x24 {
        Some(8)
    } else if hid == 0x25 {
        Some(9)
    } else if hid == 0x26 {
        Some(10)
    } else if hid == 0x27 {
        Some(11)
    } else if hid == 0x28 {
        Some(28)
    } else if hid == 0x2a {
        Some(14)
    } else if hid == 0x2c {
        Some(57)
    } else if hid == 0x2d {
        Some(12)
    } else if hid == 0x2e {
        Some(13)
    } else if hid == 0x2f {
        Some(26)
    } else if hid == 0x30 {
        Some(27)
    } else if hid == 0x31 {
        Some(43)
    } else if hid == 0x33 {
        Some(39)
    } else if hid == 0x34 {
        Some(40)
    } else if hid == 0x35 {
        Some(41)
    } else if hid == 0x36 {
        Some(51)
    } else if hid == 0x37 {
        Some(52)
    } else if hid == 0x38 {
        Some(53)
    } else {
        None
    }
}

/// The key on a US keyboard that types `c` without Shift, by its Linux input key code (which
/// for these keys is also its set-1 scan code): `KEY_A` (30) for `a`, `KEY_B` (48) for `b`,
/// ..., `KEY_1` (2) to `KEY_0` (11) for the digits, `KEY_SPACE` (57) for a blank, and the
/// punctuation keys. Characters without such a key have none.
pub open spec fn us_key_code(c: char) -> Option<u16> {
    if c == 'a' {
        Some(30)
    } else if c == 'b' {
        Some(48)
    } else if c == 'c' {
        Some(46)
    } else if c == 'd' {
        Some(32)
    } else if c == 'e' {
        Some(18)
    } else if c == 'f' {
        Some(33)
    } else if c == 'g' {
        Some(34)
    } else if c == 'h' {
        Some(35)
    } else if c == 'i' {
        Some(23)
    } else if c == 'j' {
        Some(36)
    } else if c == 'k' {
        Some(37)
    } else if c == 'l' {
        Some(38)
    } else if c == 'm' {
        Some(50)
    } else if c == 'n' {
        Some(49)
    } else if c == 'o' {
        Some(24)
    } else if c == 'p' {
        Some(25)
    } else if c == 'q' {
        Some(16)
    } else if c == 'r' {
        Some(19)
    } else if c == 's' {
        Some(31)
    } else if c == 't' {
        Some(20)
    } else if c == 'u' {
        Some(22)
    } else if c == 'v' {
        Some(47)
    } else if c == 'w' {
        Some(17)
    } else if c == 'x' {
        Some(45)
    } else if c == 'y' {
        Some(21)
    } else if c == 'z' {
        Some(44)
    } else if c == '1' {
        Some(2)
    } else if c == '2' {
        Some(3)
    } else if c == '3' {
        Some(4)
    } else if c == '4' {
        Some(5)
    } else if c == '5' {
        Some(6)
    } else if c == '6' {
        Some(7)
    } else if c == '7' {
        Some(8)
    } else if c == '8' {
        Some(9)
    } else if c == '9' {
        Some(10)
    } else if c == '0' {
        Some(11)
    } else if c == ' ' {
        Some(57)
    } else if c == '-' {
        Some(12)
    } else if c == '=' {
        Some(13)
    } else if c == '[' {
        Some(26)
    } else if c == ']' {
        Some(27)
    } else if c == '\\' {
        Some(43)
    } else if c == ';' {
        Some(39)
    } else if c == '\'' {
        Some(40)
    } else if c == '`' {
        Some(41)
    } else if c == ',' {
        Some(51)
    } else if c == '.' {
        Some(52)
    } else if c == '/' {
        Some(53)
    } else {
        None
    }
}

/// Every key is injected as the key that types what it stands for: a key that prints a
/// character without Shift is sent as the US keyboard key of that character (so HID B, which
/// prints `b`, is sent as `KEY_B`), Enter as `KEY_ENTER` (28), Backspace as `KEY_BACKSPACE`
/// (14); the non-US `#` key and every key that prints nothing else has no key code.
pub proof fn lemma_key_codes_type_their_characters(hid: u8)
    ensures
        linux_key_code(hid) == if hid == HID_ENTER {
            Some(28u16)
        } else if hid == HID_BACKSPACE {
            Some(14u16)
        } else if hid == 0x32 {
            None
        } else {
            match us_ansi_char(hid, false) {
                Some(c) => us_key_code(c),
                None => None,
            }
        },
{
}

/// The answer to an injection request on a platform without injection.
pub fn inject_unsupported() -> (r: Result<(), String>)
    ensures
        r is Err && r->Err_0@ == "Injection not supported on this platform"@,
{
    Err(String::from_str("Injection not supported on this platform"))
}

} // verus!
