//! Windows keystroke injection (SendInput with scan codes).

use vstd::prelude::*;
use crate::inject::linux_key_code;
use crate::proto::{KeyTap, shift_held};
use crate::text::{decimal, hex, push_decimal, push_hex};

verus! {

/// Scan code of the left Shift key.
pub const SCAN_LEFT_SHIFT: u16 = 0x2a;

/// Convert an HID usage code to a Windows scan code (set 1). For every key the receiver can
/// inject, the scan code is the Linux input key code.
pub fn hid_to_scancode(hid: u8) -> (r: Option<u16>)
    ensures
        r == linux_key_code(hid),
{
    let sc: u16 = match hid {
        0x04 => 0x1e, // A
        0x05 => 0x30, // B
        0x06 => 0x2e, // C
        0x07 => 0x20, // D
        0x08 => 0x12, // E
        0x09 => 0x21, // F
        0x0a => 0x22, // G
        0x0b => 0x23, // H
        0x0c => 0x17, // I
        0x0d => 0x24, // J
        0x0e => 0x25, // K
        0x0f => 0x26, // L
        0x10 => 0x32, // M
        0x11 => 0x31, // N
        0x12 => 0x18, // O
        0x13 => 0x19, // P
        0x14 => 0x10, // Q
        0x15 => 0x13, // R
        0x16 => 0x1f, // S
        0x17 => 0x14, // T
        0x18 => 0x16, // U
        0x19 => 0x2f, // V
        0x1a => 0x11, // W
        0x1b => 0x2d, // X
        0x1c => 0x15, // Y
        0x1d => 0x2c, // Z
        0x1e => 0x02, // 1
        0x1f => 0x03, // 2
        0x20 => 0x04, // 3
        0x21 => 0x05, // 4
        0x22 => 0x06, // 5
        0x23 => 0x07, // 6
        0x24 => 0x08, // 7
        0x25 => 0x09, // 8
        0x26 => 0x0a, // 9
        0x27 => 0x0b, // 0
        0x28 => 0x1c, // Enter
        0x2a => 0x0e, // Backspace
        0x2c => 0x39, // Space
        0x2d => 0x0c, // -
        0x2e => 0x0d, // =
        0x2f => 0x1a, // [
        0x30 => 0x1b, // ]
        0x31 => 0x2b, // \
        0x33 => 0x27, // ;
        0x34 => 0x28, // '
        0x35 => 0x29, // `
        0x36 => 0x33, // ,
        0x37 => 0x34, // .
        0x38 => 0x35, // /
        _ => return None,
    };
    Some(sc)
}

/// The keyboard inputs that tap a key with scan code `sc`: press and release, wrapped in a
/// left-Shift press and release when Shift is held. Each input is a scan code and whether
/// it is a key-up.
pub open spec fn key_inputs(sc: u16, shift: bool) -> Seq<(u16, bool)> {
    if shift {
        seq![(SCAN_LEFT_SHIFT, false), (sc, false), (sc, true), (SCAN_LEFT_SHIFT, true)]
    } else {
        seq![(sc, false), (sc, true)]
    }
}

/// The inputs to send for a tap, or the unknown-code message for a key without a scan code.
pub fn tap_inputs(tap: &KeyTap) -> (r: Result<Vec<(u16, bool)>, String>)
    ensures
        match linux_key_code(tap.hid_code) {
            Some(sc) => r is Ok && r->Ok_0@ == key_inputs(sc, shift_held(tap.mods)),
            None => r is Err && r->Err_0@ == "Unknown HID code: 0x"@ + hex(tap.hid_code as nat),
        },
{
    let sc = match hid_to_scancode(tap.hid_code) {
        Some(sc) => sc,
        None => {
            let mut msg = String::from_str("Unknown HID code: 0x");
            push_hex(&mut msg, tap.hid_code as u64);
            return Err(msg);
        },
    };
    let shift = tap.shift();
    let mut inputs: Vec<(u16, bool)> = Vec::new();
    if shift {
        inputs.push((SCAN_LEFT_SHIFT, false));
    }
    inputs.push((sc, false));
    inputs.push((sc, true));
    if shift {
        inputs.push((SCAN_LEFT_SHIFT, true));
    }
    assert(inputs@ =~= key_inputs(sc, shift));
    Ok(inputs)
}

/// The result of sending `expected` inputs of which `sent` went through: an error naming both
/// counts unless all were sent.
pub fn send_result(sent: u32, expected: usize) -> (r: Result<(), String>)
    ensures
        sent as int == expected as int ==> r is Ok,
        sent as int != expected as int ==> r is Err && r->Err_0@ == "SendInput failed: sent "@
            + decimal(sent as nat) + " of "@ + decimal(expected as nat) + " inputs"@,
{
    if sent as usize == expected && sent as u64 == expected as u64 {
        Ok(())
    } else {
        let mut msg = String::from_str("SendInput failed: sent ");
        push_decimal(&mut msg, sent as u64);
        msg.append(" of ");
        push_decimal(&mut msg, expected as u64);
        msg.append(" inputs");
        Err(msg)
    }
}

} // verus!
