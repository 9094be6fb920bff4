use dogkbd::keys::KeyPreview;
use dogkbd::overlay::{claude_status, tap_to_msg, KeystrokeMsg};
use dogkbd::proto::KeyTap;
use dogkbd::receiver::DogkbdApp;

#[test]
fn test_key_preview_char() {
    let tap = KeyTap::new(1, 1, 0, 0x04);
    assert_eq!(KeyPreview::from_tap(&tap), Some(KeyPreview::Char('a')));

    let tap_shift = KeyTap::new(1, 1, 0x01, 0x04);
    assert_eq!(KeyPreview::from_tap(&tap_shift), Some(KeyPreview::Char('A')));
}

#[test]
fn test_key_preview_digits() {
    let tap_1 = KeyTap::new(1, 1, 0, 0x1e);
    assert_eq!(KeyPreview::from_tap(&tap_1), Some(KeyPreview::Char('1')));

    let tap_0 = KeyTap::new(1, 1, 0, 0x27);
    assert_eq!(KeyPreview::from_tap(&tap_0), Some(KeyPreview::Char('0')));

    let tap_exclaim = KeyTap::new(1, 1, 0x01, 0x1e);
    assert_eq!(KeyPreview::from_tap(&tap_exclaim), Some(KeyPreview::Char('!')));
}

#[test]
fn test_key_preview_punctuation() {
    let tap_dash = KeyTap::new(1, 1, 0, 0x2d);
    assert_eq!(KeyPreview::from_tap(&tap_dash), Some(KeyPreview::Char('-')));

    let tap_period = KeyTap::new(1, 1, 0, 0x37);
    assert_eq!(KeyPreview::from_tap(&tap_period), Some(KeyPreview::Char('.')));

    let tap_comma = KeyTap::new(1, 1, 0, 0x36);
    assert_eq!(KeyPreview::from_tap(&tap_comma), Some(KeyPreview::Char(',')));
}

#[test]
fn test_key_preview_enter() {
    let tap = KeyTap::new(1, 1, 0, 0x28);
    assert_eq!(KeyPreview::from_tap(&tap), Some(KeyPreview::Enter));
}

#[test]
fn test_key_preview_backspace() {
    let tap = KeyTap::new(1, 1, 0, 0x2a);
    assert_eq!(KeyPreview::from_tap(&tap), Some(KeyPreview::Backspace));
}

#[test]
fn test_key_preview_space() {
    let tap = KeyTap::new(1, 1, 0, 0x2c);
    assert_eq!(KeyPreview::from_tap(&tap), Some(KeyPreview::Space));
}

#[test]
fn test_key_preview_display() {
    assert_eq!(KeyPreview::Char('a').display(), "a");
    assert_eq!(KeyPreview::Char('!').display(), "!");
    assert_eq!(KeyPreview::Enter.display(), "[Enter]");
    assert_eq!(KeyPreview::AutoEnter.display(), "[Auto-Enter]");
    assert_eq!(KeyPreview::Backspace.display(), "[Backspace]");
    assert_eq!(KeyPreview::Space.display(), " ");
}

#[test]
fn test_auto_enter_distinct_from_enter() {
    assert_ne!(KeyPreview::Enter.display(), KeyPreview::AutoEnter.display());
    assert!(KeyPreview::AutoEnter.display().contains("Auto"));
}

#[test]
fn test_is_text_char_letters() {
    assert!(DogkbdApp::is_text_char(&KeyPreview::Char('a')));
    assert!(DogkbdApp::is_text_char(&KeyPreview::Char('Z')));
}

#[test]
fn test_is_text_char_digits() {
    assert!(DogkbdApp::is_text_char(&KeyPreview::Char('0')));
    assert!(DogkbdApp::is_text_char(&KeyPreview::Char('9')));
}

#[test]
fn test_is_text_char_punctuation() {
    assert!(DogkbdApp::is_text_char(&KeyPreview::Char('!')));
    assert!(DogkbdApp::is_text_char(&KeyPreview::Char('.')));
    assert!(DogkbdApp::is_text_char(&KeyPreview::Char('-')));
}

#[test]
fn test_is_text_char_space() {
    assert!(DogkbdApp::is_text_char(&KeyPreview::Space));
}

#[test]
fn test_is_text_char_special_keys() {
    assert!(!DogkbdApp::is_text_char(&KeyPreview::Enter));
    assert!(!DogkbdApp::is_text_char(&KeyPreview::AutoEnter));
    assert!(!DogkbdApp::is_text_char(&KeyPreview::Backspace));
}

// --- beyond the original suite ---

#[test]
fn preview_of_unprintable_key_is_none() {
    assert_eq!(KeyPreview::from_tap(&KeyTap::new(1, 1, 0, 0x29)), None);
}

#[test]
fn overlay_messages() {
    assert_eq!(tap_to_msg(&KeyTap::new(1, 1, 0, 0x28)), Some(KeystrokeMsg::Enter));
    assert_eq!(tap_to_msg(&KeyTap::new(1, 1, 0, 0x2a)), Some(KeystrokeMsg::Backspace));
    assert_eq!(tap_to_msg(&KeyTap::new(1, 1, 0, 0x2c)), Some(KeystrokeMsg::Space));
    assert_eq!(
        tap_to_msg(&KeyTap::new(1, 1, 1, 0x05)),
        Some(KeystrokeMsg::Char { ch: "B".to_string() })
    );
    assert_eq!(tap_to_msg(&KeyTap::new(1, 1, 0, 0x3a)), None);
}

#[test]
fn claude_status_values() {
    assert_eq!(claude_status("busy"), Some(true));
    assert_eq!(claude_status("idle"), Some(false));
    assert_eq!(claude_status("unknown"), None);
    assert_eq!(claude_status("Busy"), None);
}
