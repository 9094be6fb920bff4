//! The 16-byte key-tap packet (little-endian) and the HID allowlist.
//!
//! | Offset | Size | Field               |
//! |--------|------|---------------------|
//! | 0      | 4    | `DOGK` magic        |
//! | 4      | 1    | version (1)         |
//! | 5      | 1    | msg_type (1=KeyTap) |
//! | 6      | 4    | device_id           |
//! | 10     | 4    | seq                 |
//! | 14     | 1    | mods (bit0=shift)   |
//! | 15     | 1    | HID usage code      |

use vstd::prelude::*;
use crate::text::{decimal, push_decimal, char_string};

verus! {

/// Magic bytes `DOGK` that open every packet.
pub const MAGIC: [u8; 4] = [68, 79, 71, 75];

/// Wire version.
pub const VERSION: u8 = 1;

/// Message type of a key tap.
pub const MSG_TYPE_KEYTAP: u8 = 1;

/// Size of a packet in bytes.
pub const PACKET_SIZE: usize = 16;

/// Modifier bit for Shift.
pub const MOD_SHIFT: u8 = 0x01;

/// HID usage code of Enter.
pub const HID_ENTER: u8 = 0x28;

/// HID usage code of Backspace.
pub const HID_BACKSPACE: u8 = 0x2a;

/// HID usage code of Space.
pub const HID_SPACE: u8 = 0x2c;

/// A key tap event (press + release).
#[derive(Debug, Clone, Copy, PartialEq, Eq, Structural)]
pub struct KeyTap {
    pub device_id: u32,
    pub seq: u32,
    pub mods: u8,
    pub hid_code: u8,
}

/// Why a packet could not be decoded.
#[derive(Debug, Clone, Copy, PartialEq, Eq, Structural)]
pub enum DecodeError {
    WrongSize(usize),
    InvalidMagic,
    InvalidVersion(u8),
    InvalidMsgType(u8),
}

/// The magic bytes as a sequence.
pub open spec fn magic_seq() -> Seq<u8> {
    seq![68u8, 79u8, 71u8, 75u8]
}

/// Little-endian bytes of a 32-bit value.
pub open spec fn le_bytes(x: u32) -> Seq<u8> {
    seq![
        (x % 256) as u8,
        ((x / 256) % 256) as u8,
        ((x / 65536) % 256) as u8,
        (x / 16777216) as u8,
    ]
}

/// The 32-bit value whose little-endian bytes start at `at` in `b`.
pub open spec fn le_u32_at(b: Seq<u8>, at: int) -> u32 {
    (b[at] + 256 * b[at + 1] + 65536 * b[at + 2] + 16777216 * b[at + 3]) as u32
}

/// The packet that encodes `t`.
pub open spec fn packet_of(t: KeyTap) -> Seq<u8> {
    magic_seq() + seq![VERSION, MSG_TYPE_KEYTAP] + le_bytes(t.device_id) + le_bytes(t.seq) + seq![
        t.mods,
        t.hid_code,
    ]
}

/// What decoding `data` yields: the first failing check in the order size, magic,
/// version, message type; otherwise the tap whose fields the packet carries.
pub open spec fn decode_result(data: Seq<u8>) -> Result<KeyTap, DecodeError> {
    if data.len() != PACKET_SIZE {
        Err(DecodeError::WrongSize(data.len() as usize))
    } else if data.subrange(0, 4) != magic_seq() {
        Err(DecodeError::InvalidMagic)
    } else if data[4] != VERSION {
        Err(DecodeError::InvalidVersion(data[4]))
    } else if data[5] != MSG_TYPE_KEYTAP {
        Err(DecodeError::InvalidMsgType(data[5]))
    } else {
        Ok(
            KeyTap {
                device_id: le_u32_at(data, 6),
                seq: le_u32_at(data, 10),
                mods: data[14],
                hid_code: data[15],
            },
        )
    }
}

/// Whether Shift is held in a modifier byte.
pub open spec fn shift_held(mods: u8) -> bool {
    mods & MOD_SHIFT != 0
}

impl KeyTap {
    /// Create a new key tap.
    pub fn new(device_id: u32, seq: u32, mods: u8, hid_code: u8) -> (t: Self)
        ensures
            t == (KeyTap { device_id, seq, mods, hid_code }),
    {
        KeyTap { device_id, seq, mods, hid_code }
    }

    /// Whether the Shift modifier is active.
    pub fn shift(&self) -> (r: bool)
        ensures
            r == shift_held(self.mods),
    {
        self.mods & MOD_SHIFT != 0
    }

    /// Encode to a 16-byte packet.
    pub fn encode(&self) -> (buf: [u8; PACKET_SIZE])
        ensures
            buf@ == packet_of(*self),
    {
        let d = self.device_id;
        let s = self.seq;
        let buf = [
            68,
            79,
            71,
            75,
            VERSION,
            MSG_TYPE_KEYTAP,
            (d % 256) as u8,
            ((d / 256) % 256) as u8,
            ((d / 65536) % 256) as u8,
            (d / 16777216) as u8,
            (s % 256) as u8,
            ((s / 256) % 256) as u8,
            ((s / 65536) % 256) as u8,
            (s / 16777216) as u8,
            self.mods,
            self.hid_code,
        ];
        assert(buf@ =~= packet_of(*self));
        buf
    }

    /// Decode from bytes.
    pub fn decode(data: &[u8]) -> (res: Result<Self, DecodeError>)
        ensures
            res == decode_result(data@),
    {
        if data.len() != PACKET_SIZE {
            return Err(DecodeError::WrongSize(data.len()));
        }
        if data[0] != 68 || data[1] != 79 || data[2] != 71 || data[3] != 75 {
            assert(data@.subrange(0, 4) != magic_seq()) by {
                if data@.subrange(0, 4) == magic_seq() {
                    assert(data@.subrange(0, 4)[0] == data@[0]);
                    assert(data@.subrange(0, 4)[1] == data@[1]);
                    assert(data@.subrange(0, 4)[2] == data@[2]);
                    assert(data@.subrange(0, 4)[3] == data@[3]);
                }
            }
            return Err(DecodeError::InvalidMagic);
        }
        assert(data@.subrange(0, 4) =~= magic_seq());
        if data[4] != VERSION {
            return Err(DecodeError::InvalidVersion(data[4]));
        }
        if data[5] != MSG_TYPE_KEYTAP {
            return Err(DecodeError::InvalidMsgType(data[5]));
        }
        Ok(
            KeyTap {
                device_id: read_le_u32(data, 6),
                seq: read_le_u32(data, 10),
                mods: data[14],
                hid_code: data[15],
            },
        )
    }
}

/// The 32-bit value stored little-endian at `at`.
fn read_le_u32(data: &[u8], at: usize) -> (v: u32)
    requires
        at + 4 <= data@.len(),
    ensures
        v == le_u32_at(data@, at as int),
{
    data[at] as u32 + 256 * (data[at + 1] as u32) + 65536 * (data[at + 2] as u32) + 16777216 * (
    data[at + 3] as u32)
}

/// The human-readable message for a decode error.
pub open spec fn decode_error_message(e: DecodeError) -> Seq<char> {
    match e {
        DecodeError::WrongSize(size) => "wrong packet size: expected "@ + decimal(PACKET_SIZE as nat)
            + ", got "@ + decimal(size as nat),
        DecodeError::InvalidMagic => "invalid magic bytes"@,
        DecodeError::InvalidVersion(v) => "invalid version: "@ + decimal(v as nat),
        DecodeError::InvalidMsgType(t) => "invalid message type: "@ + decimal(t as nat),
    }
}

impl DecodeError {
    /// The human-readable message for this error.
    pub fn to_string(&self) -> (s: String)
        ensures
            s@ == decode_error_message(*self),
    {
        match self {
            DecodeError::WrongSize(size) => {
                let mut s = String::from_str("wrong packet size: expected ");
                push_decimal(&mut s, PACKET_SIZE as u64);
                s.append(", got ");
                push_decimal(&mut s, *size as u64);
                s
            },
            DecodeError::InvalidMagic => String::from_str("invalid magic bytes"),
            DecodeError::InvalidVersion(v) => {
                let mut s = String::from_str("invalid version: ");
                push_decimal(&mut s, *v as u64);
                s
            },
            DecodeError::InvalidMsgType(t) => {
                let mut s = String::from_str("invalid message type: ");
                push_decimal(&mut s, *t as u64);
                s
            },
        }
    }
}

/// Whether an HID usage code is on the allowlist: A-Z (0x04-0x1d), 1-0 (0x1e-0x27),
/// Enter (0x28), Space (0x2c) and punctuation (0x2d-0x37; no slash).
pub open spec fn allowed(code: u8) -> bool {
    ||| 0x04 <= code <= 0x1d
    ||| 0x1e <= code <= 0x27
    ||| code == 0x28
    ||| code == 0x2c
    ||| 0x2d <= code <= 0x37
}

/// Check whether an HID usage code is on the allowlist.
pub fn hid_allowed(code: u8) -> (r: bool)
    ensures
        r == allowed(code),
{
    (0x04 <= code && code <= 0x1d) || (0x1e <= code && code <= 0x27) || code == 0x28 || code
        == 0x2c || (0x2d <= code && code <= 0x37)
}

/// The character a shifted digit key (0x1e-0x27) produces on a US ANSI layout.
pub open spec fn shifted_digit(code: u8) -> char {
    if code == 0x1e {
        '!'
    } else if code == 0x1f {
        '@'
    } else if code == 0x20 {
        '#'
    } else if code == 0x21 {
        '$'
    } else if code == 0x22 {
        '%'
    } else if code == 0x23 {
        '^'
    } else if code == 0x24 {
        '&'
    } else if code == 0x25 {
        '*'
    } else if code == 0x26 {
        '('
    } else {
        ')'
    }
}

/// The (unshifted, shifted) characters of a punctuation key (0x2d-0x38), if it is one.
pub open spec fn punctuation(code: u8) -> Option<(char, char)> {
    if code == 0x2d {
        Some(('-', '_'))
    } else if code == 0x2e {
        Some(('=', '+'))
    } else if code == 0x2f {
        Some(('[', '{'))
    } else if code == 0x30 {
        Some((']', '}'))
    } else if code == 0x31 {
        Some(('\\', '|'))
    } else if code == 0x32 {
        Some(('#', '~'))
    } else if code == 0x33 {
        Some((';', ':'))
    } else if code == 0x34 {
        Some(('\'', '"'))
    } else if code == 0x35 {
        Some(('`', '~'))
    } else if code == 0x36 {
        Some((',', '<'))
    } else if code == 0x37 {
        Some(('.', '>'))
    } else if code == 0x38 {
        Some(('/', '?'))
    } else {
        None
    }
}

/// The US ANSI character an HID usage code produces, `None` for keys that print nothing.
/// Letters are lowercase unless shifted; digits 1-9 then 0; shifted digits give `!@#$%^&*()`.
pub open spec fn us_ansi_char(code: u8, shift: bool) -> Option<char> {
    if 0x04 <= code <= 0x1d {
        Some((if shift { code - 0x04 + 65 } else { code - 0x04 + 97 }) as char)
    } else if 0x1e <= code <= 0x27 {
        if shift {
            Some(shifted_digit(code))
        } else if code == 0x27 {
            Some('0')
        } else {
            Some((code - 0x1e + 49) as char)
        }
    } else if code == 0x2c {
        Some(' ')
    } else {
        match punctuation(code) {
            Some(p) => Some(if shift { p.1 } else { p.0 }),
            None => None,
        }
    }
}

/// Convert an HID usage code to its US ANSI character.
/// Returns `None` for non-printable keys (Enter, Backspace, etc.).
pub fn hid_to_us_ansi_char(code: u8, shift: bool) -> (c: Option<char>)
    ensures
        c == us_ansi_char(code, shift),
{
    if 0x04 <= code && code <= 0x1d {
        let base: u8 = (code - 0x04) + 97;
        return Some(if shift { (base - 32) as char } else { base as char });
    }
    if 0x1e <= code && code <= 0x27 {
        if shift {
            let shifted = if code == 0x1e {
                '!'
            } else if code == 0x1f {
                '@'
            } else if code == 0x20 {
                '#'
            } else if code == 0x21 {
                '$'
            } else if code == 0x22 {
                '%'
            } else if code == 0x23 {
                '^'
            } else if code == 0x24 {
                '&'
            } else if code == 0x25 {
                '*'
            } else if code == 0x26 {
                '('
            } else {
                ')'
            };
            return Some(shifted);
        } else {
            let digit: u8 = if code == 0x27 { 48 } else { (code - 0x1e) + 49 };
            return Some(digit as char);
        }
    }
    if code == 0x2c {
        return Some(' ');
    }
    let pair = if code == 0x2d {
        ('-', '_')
    } else if code == 0x2e {
        ('=', '+')
    } else if code == 0x2f {
        ('[', '{')
    } else if code == 0x30 {
        (']', '}')
    } else if code == 0x31 {
        ('\\', '|')
    } else if code == 0x32 {
        ('#', '~')
    } else if code == 0x33 {
        (';', ':')
    } else if code == 0x34 {
        ('\'', '"')
    } else if code == 0x35 {
        ('`', '~')
    } else if code == 0x36 {
        (',', '<')
    } else if code == 0x37 {
        ('.', '>')
    } else if code == 0x38 {
        ('/', '?')
    } else {
        return None;
    };
    Some(if shift { pair.1 } else { pair.0 })
}

/// The decoded form of a key for telemetry: `"SPACE"`, `"ENTER"` and `"BACKSPACE"` by name,
/// other keys by the character they print, and nothing for keys that print none.
pub open spec fn decoded_text(code: u8, shift: bool) -> Option<Seq<char>> {
    if code == HID_SPACE {
        Some("SPACE"@)
    } else if code == HID_ENTER {
        Some("ENTER"@)
    } else if code == HID_BACKSPACE {
        Some("BACKSPACE"@)
    } else {
        match us_ansi_char(code, shift) {
            Some(c) => Some(seq![c]),
            None => None,
        }
    }
}

/// Decoded form of a key for telemetry: a printable character, or `"SPACE"`, `"ENTER"`,
/// `"BACKSPACE"`.
pub fn hid_to_decoded(code: u8, shift: bool) -> (r: Option<String>)
    ensures
        r is Some <==> decoded_text(code, shift) is Some,
        r is Some ==> r->Some_0@ == decoded_text(code, shift)->Some_0,
{
    if code == HID_SPACE {
        Some(String::from_str("SPACE"))
    } else if code == HID_ENTER {
        Some(String::from_str("ENTER"))
    } else if code == HID_BACKSPACE {
        Some(String::from_str("BACKSPACE"))
    } else {
        match hid_to_us_ansi_char(code, shift) {
            Some(c) => Some(char_string(c)),
            None => None,
        }
    }
}

/// The safety allowlist: exactly the letters A-Z (0x04-0x1d), the digits (0x1e-0x27), Enter
/// (0x28), Space (0x2c) and the punctuation keys `- = [ ] \ # ; ' ` , .` (0x2d-0x37) pass;
/// Escape, Backspace, Tab, slash, modifiers, F-keys and every other code are blocked. Put
/// another way: a key passes exactly when it is Enter, or it prints a character without
/// Shift and that character is not `/`.
pub proof fn lemma_allowlist(code: u8)
    ensures
        allowed(code) <==> (0x04 <= code <= 0x27 || code == 0x28 || code == 0x2c || 0x2d <= code
            <= 0x37),
        allowed(code) <==> (code == HID_ENTER || (us_ansi_char(code, false) is Some
            && us_ansi_char(code, false) != Some('/'))),
        0x2d <= code <= 0x37 ==> allowed(code),
        code == HID_BACKSPACE || code == 0x29 || code == 0x2b || code == 0x38 || code >= 0x39
            || code < 0x04 ==> !allowed(code),
{
}

/// Every allowlisted key other than Enter prints a character, shifted or not.
pub proof fn lemma_allowed_keys_print(code: u8, shift: bool)
    requires
        allowed(code),
        code != 0x28,
    ensures
        us_ansi_char(code, shift) is Some,
{
}

/// Letters and digits follow the keyboard's order: HID 0x04 is `a`, each next code the next
/// letter up to `z` at 0x1d (uppercase with Shift); 0x1e-0x26 are `1`-`9` and 0x27 is `0`.
pub proof fn lemma_letters_and_digits_in_order(code: u8)
    ensures
        0x04 <= code <= 0x1d ==> us_ansi_char(code, false) == Some(((code - 0x04) + 'a' as int) as char)
            && us_ansi_char(code, true) == Some(((code - 0x04) + 'A' as int) as char),
        0x1e <= code <= 0x26 ==> us_ansi_char(code, false) == Some(((code - 0x1e) + '1' as int) as char),
        code == 0x27 ==> us_ansi_char(code, false) == Some('0'),
{
}

/// Letters follow case: with Shift a letter key gives the uppercase form of what it gives
/// without Shift.
pub proof fn lemma_letter_case(code: u8)
    requires
        0x04 <= code <= 0x1d,
    ensures
        us_ansi_char(code, false) is Some,
        us_ansi_char(code, true) is Some,
        'a' <= us_ansi_char(code, false)->Some_0 <= 'z',
        us_ansi_char(code, true)->Some_0 as int == us_ansi_char(code, false)->Some_0 as int - 32,
{
}

/// Decoding an encoded tap gives the tap back.
pub proof fn lemma_decode_encode(t: KeyTap)
    ensures
        decode_result(packet_of(t)) == Ok::<KeyTap, DecodeError>(t),
{
    let p = packet_of(t);
    assert(p.len() == 16);
    assert(p.subrange(0, 4) =~= magic_seq());
    lemma_le_roundtrip(t.device_id);
    lemma_le_roundtrip(t.seq);
    assert(le_u32_at(p, 6) == le_u32_at(le_bytes(t.device_id), 0));
    assert(le_u32_at(p, 10) == le_u32_at(le_bytes(t.seq), 0));
}

/// Encoding a tap that decoding produced gives the original bytes back.
pub proof fn lemma_encode_decode(data: Seq<u8>)
    requires
        decode_result(data) is Ok,
    ensures
        packet_of(decode_result(data)->Ok_0) == data,
{
    let t = decode_result(data)->Ok_0;
    assert(data.subrange(0, 4) =~= magic_seq());
    lemma_le_from_bytes(data[6], data[7], data[8], data[9]);
    lemma_le_from_bytes(data[10], data[11], data[12], data[13]);
    assert(data[0] == data.subrange(0, 4)[0]);
    assert(data[1] == data.subrange(0, 4)[1]);
    assert(data[2] == data.subrange(0, 4)[2]);
    assert(data[3] == data.subrange(0, 4)[3]);
    assert(packet_of(t) =~= data);
}

proof fn lemma_le_roundtrip(x: u32)
    ensures
        le_u32_at(le_bytes(x), 0) == x,
{
    let b = le_bytes(x);
    assert((x % 256) + 256 * ((x / 256) % 256) + 65536 * ((x / 65536) % 256) + 16777216 * (x
        / 16777216) == x) by (bit_vector);
}

proof fn lemma_le_from_bytes(b0: u8, b1: u8, b2: u8, b3: u8)
    ensures
        le_bytes((b0 + 256 * b1 + 65536 * b2 + 16777216 * b3) as u32) == seq![b0, b1, b2, b3],
{
    let x = (b0 + 256 * b1 + 65536 * b2 + 16777216 * b3) as u32;
    assert(x % 256 == b0 && (x / 256) % 256 == b1 && (x / 65536) % 256 == b2 && x / 16777216
        == b3) by (bit_vector)
        requires
            x == (b0 + 256 * b1 + 65536 * b2 + 16777216 * b3) as u32,
    ;
    assert(le_bytes(x) =~= seq![b0, b1, b2, b3]);
}

} // verus!
