//! The sender's keyboard side: Linux key codes to HID usage codes, Shift tracking, and the
//! packet each key press becomes.

use vstd::prelude::*;
use crate::inject::linux_key_code;
use crate::proto::{KeyTap, allowed, hid_allowed, packet_of, decode_result, MOD_SHIFT, PACKET_SIZE,
    lemma_decode_encode};

verus! {

/// Linux key code of the left Shift key.
pub const KEY_LEFTSHIFT: u16 = 42;

/// Linux key code of the right Shift key.
pub const KEY_RIGHTSHIFT: u16 = 54;

/// Convert a Linux (evdev) key code to an HID usage code: exactly the inverse of the
/// receiver's HID-to-key-code table.
pub fn evdev_to_hid(code: u16) -> (r: Option<u8>)
    ensures
        r matches Some(h) ==> linux_key_code(h) == Some(code),
        r is None ==> forall|h: u8| linux_key_code(h) != Some(code),
{
    let hid: u8 = match code {
        30 => 0x04, // KEY_A
        48 => 0x05, // KEY_B
        46 => 0x06, // KEY_C
        32 => 0x07, // KEY_D
        18 => 0x08, // KEY_E
        33 => 0x09, // KEY_F
        34 => 0x0a, // KEY_G
        35 => 0x0b, // KEY_H
        23 => 0x0c, // KEY_I
        36 => 0x0d, // KEY_J
        37 => 0x0e, // KEY_K
        38 => 0x0f, // KEY_L
        50 => 0x10, // KEY_M
        49 => 0x11, // KEY_N
        24 => 0x12, // KEY_O
        25 => 0x13, // KEY_P
        16 => 0x14, // KEY_Q
        19 => 0x15, // KEY_R
        31 => 0x16, // KEY_S
        20 => 0x17, // KEY_T
        22 => 0x18, // KEY_U
        47 => 0x19, // KEY_V
        17 => 0x1a, // KEY_W
        45 => 0x1b, // KEY_X
        21 => 0x1c, // KEY_Y
        44 => 0x1d, // KEY_Z
        2 => 0x1e, // KEY_1
        3 => 0x1f, // KEY_2
        4 => 0x20, // KEY_3
        5 => 0x21, // KEY_4
        6 => 0x22, // KEY_5
        7 => 0x23, // KEY_6
        8 => 0x24, // KEY_7
        9 => 0x25, // KEY_8
        10 => 0x26, // KEY_9
        11 => 0x27, // KEY_0
        28 => 0x28, // KEY_ENTER
        14 => 0x2a, // KEY_BACKSPACE
        57 => 0x2c, // KEY_SPACE
        12 => 0x2d, // KEY_MINUS
        13 => 0x2e, // KEY_EQUAL
        26 => 0x2f, // KEY_LEFTBRACE
        27 => 0x30, // KEY_RIGHTBRACE
        43 => 0x31, // KEY_BACKSLASH
        39 => 0x33, // KEY_SEMICOLON
        40 => 0x34, // KEY_APOSTROPHE
        41 => 0x35, // KEY_GRAVE
        51 => 0x36, // KEY_COMMA
        52 => 0x37, // KEY_DOT
        53 => 0x38, // KEY_SLASH
        _ => return None,
    };
    Some(hid)
}

/// The sender's session state.
pub struct SenderState {
    /// Random per session, so the receiver's de-duplication restarts cleanly.
    pub device_id: u32,
    /// Sequence number of the next packet.
    pub seq: u32,
    /// Whether a Shift key is down.
    pub shift_held: bool,
}

/// What one key event from the keyboard becomes.
#[derive(Debug, Clone, Copy, PartialEq, Eq)]
pub enum KeyEventOutcome {
    /// A Shift key went down or up; nothing is sent.
    ShiftChanged,
    /// A release or auto-repeat; nothing is sent.
    NotPress,
    /// A key with no HID usage code.
    Unmapped,
    /// A key outside the allowlist.
    Blocked(u8),
    /// A key tap to broadcast, with its packet.
    Send(KeyTap, [u8; PACKET_SIZE]),
}

impl SenderState {
    /// A fresh session: sequence numbers start at 0, Shift up.
    pub fn new(device_id: u32) -> (s: Self)
        ensures
            s.device_id == device_id,
            s.seq == 0,
            !s.shift_held,
    {
        SenderState { device_id, seq: 0, shift_held: false }
    }

    /// Handle one key event (`value`: 1 press, 0 release, 2 repeat). Shift keys only update
    /// the Shift state; other keys send on press alone, when mapped and allowlisted, as a tap
    /// carrying the session's device id, the next sequence number and the Shift state.
    pub fn on_key(&mut self, code: u16, value: i32) -> (out: KeyEventOutcome)
        ensures
            final(self).device_id == old(self).device_id,
            code == KEY_LEFTSHIFT || code == KEY_RIGHTSHIFT ==> out == KeyEventOutcome::ShiftChanged
                && final(self).shift_held == (value != 0) && final(self).seq == old(self).seq,
            code != KEY_LEFTSHIFT && code != KEY_RIGHTSHIFT ==> final(self).shift_held == old(
                self,
            ).shift_held,
            code != KEY_LEFTSHIFT && code != KEY_RIGHTSHIFT && value != 1 ==> out
                == KeyEventOutcome::NotPress && final(self).seq == old(self).seq,
            code != KEY_LEFTSHIFT && code != KEY_RIGHTSHIFT && value == 1 ==> match out {
                KeyEventOutcome::Unmapped => final(self).seq == old(self).seq && forall|h: u8|
                    linux_key_code(h) != Some(code),
                KeyEventOutcome::Blocked(h) => final(self).seq == old(self).seq && linux_key_code(h)
                    == Some(code) && !allowed(h),
                KeyEventOutcome::Send(tap, packet) => {
                    &&& linux_key_code(tap.hid_code) == Some(code)
                    &&& allowed(tap.hid_code)
                    &&& tap.device_id == old(self).device_id
                    &&& tap.seq == old(self).seq
                    &&& tap.mods == if old(self).shift_held {
                        MOD_SHIFT
                    } else {
                        0u8
                    }
                    &&& packet@ == packet_of(tap)
                    &&& final(self).seq as int == (old(self).seq as int + 1) % 0x1_0000_0000
                },
                _ => false,
            },
    {
        if code == KEY_LEFTSHIFT || code == KEY_RIGHTSHIFT {
            self.shift_held = value != 0;
            return KeyEventOutcome::ShiftChanged;
        }
        if value != 1 {
            return KeyEventOutcome::NotPress;
        }
        let hid = match evdev_to_hid(code) {
            Some(h) => h,
            None => {
                return KeyEventOutcome::Unmapped;
            },
        };
        if !hid_allowed(hid) {
            return KeyEventOutcome::Blocked(hid);
        }
        let mods = if self.shift_held { MOD_SHIFT } else { 0 };
        let tap = KeyTap::new(self.device_id, self.seq, mods, hid);
        let packet = tap.encode();
        self.seq = self.seq.wrapping_add(1);
        KeyEventOutcome::Send(tap, packet)
    }
}

/// Every packet the sender broadcasts decodes, at the receiver, to the tap it was made from,
/// and that tap passes the receiver's allowlist.
pub proof fn lemma_sent_packets_accepted(tap: KeyTap)
    requires
        allowed(tap.hid_code),
    ensures
        decode_result(packet_of(tap)) == Ok::<KeyTap, crate::proto::DecodeError>(tap),
        allowed(decode_result(packet_of(tap))->Ok_0.hid_code),
{
    lemma_decode_encode(tap);
}

} // verus!
