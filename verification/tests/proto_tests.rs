use dogkbd::proto::{hid_allowed, hid_to_decoded, hid_to_us_ansi_char, DecodeError, KeyTap, MOD_SHIFT, PACKET_SIZE};

#[test]
fn test_encode_decode_roundtrip() {
    let original = KeyTap::new(0x12345678, 42, MOD_SHIFT, 0x04);
    let encoded = original.encode();
    let decoded = KeyTap::decode(&encoded).unwrap();
    assert_eq!(original, decoded);
}

#[test]
fn test_decode_invalid_magic() {
    let mut packet = KeyTap::new(1, 1, 0, 0x04).encode();
    packet[0] = b'X';
    assert_eq!(KeyTap::decode(&packet), Err(DecodeError::InvalidMagic));
}

#[test]
fn test_decode_invalid_version() {
    let mut packet = KeyTap::new(1, 1, 0, 0x04).encode();
    packet[4] = 99;
    assert_eq!(KeyTap::decode(&packet), Err(DecodeError::InvalidVersion(99)));
}

#[test]
fn test_decode_wrong_size() {
    let short = [0u8; 10];
    assert_eq!(KeyTap::decode(&short), Err(DecodeError::WrongSize(10)));

    let long = [0u8; 20];
    assert_eq!(KeyTap::decode(&long), Err(DecodeError::WrongSize(20)));
}

#[test]
fn test_hid_allowed_letters() {
    for code in 0x04..=0x1d {
        assert!(hid_allowed(code), "HID code {:#x} should be allowed", code);
    }
}

#[test]
fn test_hid_allowed_digits() {
    for code in 0x1e..=0x27 {
        assert!(hid_allowed(code), "HID code {:#x} should be allowed", code);
    }
}

#[test]
fn test_hid_allowed_special() {
    assert!(hid_allowed(0x28), "Enter should be allowed");
    assert!(!hid_allowed(0x2a), "Backspace should be blocked");
    assert!(hid_allowed(0x2c), "Space should be allowed");
}

#[test]
fn test_hid_blocked_danger_keys() {
    assert!(!hid_allowed(0x29), "Escape should be blocked");
    assert!(!hid_allowed(0x2b), "Tab should be blocked");
    assert!(!hid_allowed(0x38), "Slash should be blocked");
    assert!(!hid_allowed(0x39), "CapsLock should be blocked");
    assert!(!hid_allowed(0xe0), "Left Ctrl should be blocked");
    assert!(!hid_allowed(0xe1), "Left Shift should be blocked");
    assert!(!hid_allowed(0xe2), "Left Alt should be blocked");
    assert!(!hid_allowed(0xe3), "Left Meta should be blocked");
    for code in 0x3a..=0x45 {
        assert!(!hid_allowed(code), "F-key {:#x} should be blocked", code);
    }
}

#[test]
fn test_hid_to_char_letters() {
    assert_eq!(hid_to_us_ansi_char(0x04, false), Some('a'));
    assert_eq!(hid_to_us_ansi_char(0x1d, false), Some('z'));

    assert_eq!(hid_to_us_ansi_char(0x04, true), Some('A'));
    assert_eq!(hid_to_us_ansi_char(0x1d, true), Some('Z'));
}

#[test]
fn test_hid_to_char_shifted_digits() {
    assert_eq!(hid_to_us_ansi_char(0x1e, true), Some('!'));
    assert_eq!(hid_to_us_ansi_char(0x1f, true), Some('@'));
    assert_eq!(hid_to_us_ansi_char(0x20, true), Some('#'));
    assert_eq!(hid_to_us_ansi_char(0x21, true), Some('$'));
    assert_eq!(hid_to_us_ansi_char(0x22, true), Some('%'));
    assert_eq!(hid_to_us_ansi_char(0x23, true), Some('^'));
    assert_eq!(hid_to_us_ansi_char(0x24, true), Some('&'));
    assert_eq!(hid_to_us_ansi_char(0x25, true), Some('*'));
    assert_eq!(hid_to_us_ansi_char(0x26, true), Some('('));
    assert_eq!(hid_to_us_ansi_char(0x27, true), Some(')'));
}

#[test]
fn test_hid_to_char_punctuation() {
    assert_eq!(hid_to_us_ansi_char(0x2d, false), Some('-'));
    assert_eq!(hid_to_us_ansi_char(0x2e, false), Some('='));
    assert_eq!(hid_to_us_ansi_char(0x2f, false), Some('['));
    assert_eq!(hid_to_us_ansi_char(0x30, false), Some(']'));
    assert_eq!(hid_to_us_ansi_char(0x31, false), Some('\\'));
    assert_eq!(hid_to_us_ansi_char(0x33, false), Some(';'));
    assert_eq!(hid_to_us_ansi_char(0x34, false), Some('\''));
    assert_eq!(hid_to_us_ansi_char(0x35, false), Some('`'));
    assert_eq!(hid_to_us_ansi_char(0x36, false), Some(','));
    assert_eq!(hid_to_us_ansi_char(0x37, false), Some('.'));

    assert_eq!(hid_to_us_ansi_char(0x2d, true), Some('_'));
    assert_eq!(hid_to_us_ansi_char(0x2e, true), Some('+'));
    assert_eq!(hid_to_us_ansi_char(0x2f, true), Some('{'));
    assert_eq!(hid_to_us_ansi_char(0x30, true), Some('}'));
    assert_eq!(hid_to_us_ansi_char(0x31, true), Some('|'));
    assert_eq!(hid_to_us_ansi_char(0x33, true), Some(':'));
    assert_eq!(hid_to_us_ansi_char(0x34, true), Some('"'));
    assert_eq!(hid_to_us_ansi_char(0x35, true), Some('~'));
    assert_eq!(hid_to_us_ansi_char(0x36, true), Some('<'));
    assert_eq!(hid_to_us_ansi_char(0x37, true), Some('>'));
}

#[test]
fn test_hid_to_char_non_printable() {
    assert_eq!(hid_to_us_ansi_char(0x28, false), None);
    assert_eq!(hid_to_us_ansi_char(0x2a, false), None);
}

#[test]
fn test_shift_modifier() {
    let tap = KeyTap::new(1, 1, MOD_SHIFT, 0x04);
    assert!(tap.shift());

    let tap_no_shift = KeyTap::new(1, 1, 0, 0x04);
    assert!(!tap_no_shift.shift());
}

// --- beyond the original suite ---

#[test]
fn encode_layout_is_little_endian() {
    let p = KeyTap::new(0x12345678, 0x0a0b0c0d, MOD_SHIFT, 0x2c).encode();
    assert_eq!(p.len(), PACKET_SIZE);
    assert_eq!(&p[0..4], b"DOGK");
    assert_eq!(p[4], 1);
    assert_eq!(p[5], 1);
    assert_eq!(&p[6..10], &[0x78, 0x56, 0x34, 0x12]);
    assert_eq!(&p[10..14], &[0x0d, 0x0c, 0x0b, 0x0a]);
    assert_eq!(p[14], MOD_SHIFT);
    assert_eq!(p[15], 0x2c);
}

#[test]
fn decode_invalid_msg_type() {
    let mut packet = KeyTap::new(7, 8, 0, 0x05).encode();
    packet[5] = 3;
    assert_eq!(KeyTap::decode(&packet), Err(DecodeError::InvalidMsgType(3)));
}

#[test]
fn decode_checks_size_before_magic() {
    let junk = [0xffu8; 15];
    assert_eq!(KeyTap::decode(&junk), Err(DecodeError::WrongSize(15)));
    assert_eq!(KeyTap::decode(&[]), Err(DecodeError::WrongSize(0)));
}

#[test]
fn roundtrip_extreme_values() {
    for &(d, s) in &[(0u32, 0u32), (u32::MAX, u32::MAX), (1, u32::MAX - 1)] {
        let t = KeyTap::new(d, s, 0xff, 0xe3);
        assert_eq!(KeyTap::decode(&t.encode()), Ok(t));
    }
}

#[test]
fn decode_error_messages() {
    assert_eq!(DecodeError::WrongSize(10).to_string(), "wrong packet size: expected 16, got 10");
    assert_eq!(DecodeError::InvalidMagic.to_string(), "invalid magic bytes");
    assert_eq!(DecodeError::InvalidVersion(99).to_string(), "invalid version: 99");
    assert_eq!(DecodeError::InvalidMsgType(0).to_string(), "invalid message type: 0");
    assert_eq!(DecodeError::InvalidMsgType(255).to_string(), "invalid message type: 255");
}

#[test]
fn digits_unshifted_and_non_us_hash() {
    assert_eq!(hid_to_us_ansi_char(0x1e, false), Some('1'));
    assert_eq!(hid_to_us_ansi_char(0x26, false), Some('9'));
    assert_eq!(hid_to_us_ansi_char(0x27, false), Some('0'));
    assert_eq!(hid_to_us_ansi_char(0x32, false), Some('#'));
    assert_eq!(hid_to_us_ansi_char(0x32, true), Some('~'));
    assert_eq!(hid_to_us_ansi_char(0x38, false), Some('/'));
    assert_eq!(hid_to_us_ansi_char(0x38, true), Some('?'));
    assert_eq!(hid_to_us_ansi_char(0x2c, true), Some(' '));
    assert_eq!(hid_to_us_ansi_char(0x39, false), None);
    assert_eq!(hid_to_us_ansi_char(0x00, true), None);
}

#[test]
fn every_allowed_key_but_enter_prints() {
    for code in 0u8..=255 {
        if hid_allowed(code) && code != 0x28 {
            assert!(hid_to_us_ansi_char(code, false).is_some());
            assert!(hid_to_us_ansi_char(code, true).is_some());
        }
    }
}

#[test]
fn decoded_forms() {
    assert_eq!(hid_to_decoded(0x2c, false).as_deref(), Some("SPACE"));
    assert_eq!(hid_to_decoded(0x28, true).as_deref(), Some("ENTER"));
    assert_eq!(hid_to_decoded(0x2a, false).as_deref(), Some("BACKSPACE"));
    assert_eq!(hid_to_decoded(0x04, true).as_deref(), Some("A"));
    assert_eq!(hid_to_decoded(0x1f, true).as_deref(), Some("@"));
    assert_eq!(hid_to_decoded(0x29, false), None);
}
