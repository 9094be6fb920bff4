use dogkbd::inject::inject_unsupported;
use dogkbd::inject::linux::{hid_to_linux_key, inject};
use dogkbd::inject::windows::{hid_to_scancode, send_result, tap_inputs};
use dogkbd::proto::{KeyTap, MOD_SHIFT};
use dogkbd::sender::{evdev_to_hid, KeyEventOutcome, SenderState};

#[test]
fn key_tables() {
    assert_eq!(hid_to_linux_key(0x04), Some(30));
    assert_eq!(hid_to_linux_key(0x28), Some(28));
    assert_eq!(hid_to_linux_key(0x38), Some(53));
    assert_eq!(hid_to_linux_key(0x32), None);
    assert_eq!(hid_to_scancode(0x04), Some(0x1e));
    assert_eq!(hid_to_scancode(0x2c), Some(0x39));
    assert_eq!(hid_to_scancode(0x29), None);
    for h in 0u8..=255 {
        assert_eq!(hid_to_scancode(h).map(|s| s as i32), hid_to_linux_key(h));
        if let Some(k) = hid_to_linux_key(h) {
            assert_eq!(evdev_to_hid(k as u16), Some(h));
        }
    }
    assert_eq!(evdev_to_hid(1), None);
}

#[test]
fn injection_inputs() {
    let plain = tap_inputs(&KeyTap::new(0, 0, 0, 0x04)).unwrap();
    assert_eq!(plain, vec![(0x1e, false), (0x1e, true)]);
    let shifted = tap_inputs(&KeyTap::new(0, 0, MOD_SHIFT, 0x1e)).unwrap();
    assert_eq!(shifted, vec![(0x2a, false), (0x02, false), (0x02, true), (0x2a, true)]);
    assert_eq!(tap_inputs(&KeyTap::new(0, 0, 0, 0xe0)), Err("Unknown HID code: 0xe0".to_string()));
    assert_eq!(send_result(4, 4), Ok(()));
    assert_eq!(send_result(1, 4), Err("SendInput failed: sent 1 of 4 inputs".to_string()));
}

#[test]
fn linux_and_unsupported_injection() {
    assert_eq!(inject(&KeyTap::new(0, 0, 0, 0x29)), Err("Unknown HID code: 0x29".to_string()));
    assert_eq!(inject(&KeyTap::new(0, 0, 0, 0x04)), Err("Linux uinput injection not yet implemented".to_string()));
    assert_eq!(inject_unsupported(), Err("Injection not supported on this platform".to_string()));
}

#[test]
fn sender_session() {
    let mut s = SenderState::new(0xabcd);
    assert_eq!(s.on_key(42, 1), KeyEventOutcome::ShiftChanged);
    assert!(s.shift_held);
    match s.on_key(30, 1) {
        KeyEventOutcome::Send(tap, packet) => {
            assert_eq!(tap, KeyTap::new(0xabcd, 0, MOD_SHIFT, 0x04));
            assert_eq!(KeyTap::decode(&packet), Ok(tap));
        }
        other => panic!("unexpected {:?}", other),
    }
    assert_eq!(s.on_key(30, 0), KeyEventOutcome::NotPress);
    assert_eq!(s.on_key(30, 2), KeyEventOutcome::NotPress);
    assert_eq!(s.on_key(54, 0), KeyEventOutcome::ShiftChanged);
    assert!(!s.shift_held);
    assert_eq!(s.on_key(53, 1), KeyEventOutcome::Blocked(0x38));
    assert_eq!(s.on_key(1, 1), KeyEventOutcome::Unmapped);
    match s.on_key(57, 1) {
        KeyEventOutcome::Send(tap, _) => assert_eq!(tap, KeyTap::new(0xabcd, 1, 0, 0x2c)),
        other => panic!("unexpected {:?}", other),
    }
    assert_eq!(s.seq, 2);
    s.seq = u32::MAX;
    s.on_key(28, 1);
    assert_eq!(s.seq, 0);
}
