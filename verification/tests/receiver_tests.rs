use dogkbd::keys::KeyPreview;
use dogkbd::proto::KeyTap;
use dogkbd::receiver::{
    save_hint, AppMode, DogkbdApp, EnterReason, SaveError, COLLECT_IDLE_LONG_SECS, COLLECT_IDLE_SHORT_SECS,
    COLLECT_LONG_CHARS, COLLECT_MIN_CHARS, IDLE_TIMEOUT_SECS, MAX_PREVIEW_KEYS, VALIDATION_CHAR_THRESHOLD,
};

#[test]
fn test_validation_char_threshold() {
    assert_eq!(VALIDATION_CHAR_THRESHOLD, 16);
}

#[test]
fn test_idle_timeout_secs() {
    assert_eq!(IDLE_TIMEOUT_SECS, 5);
}

#[test]
fn test_max_preview_keys() {
    assert_eq!(MAX_PREVIEW_KEYS, 50);
}

#[test]
fn test_collect_thresholds() {
    assert!(COLLECT_LONG_CHARS > COLLECT_MIN_CHARS);
    assert!(COLLECT_IDLE_SHORT_SECS < COLLECT_IDLE_LONG_SECS);
    assert_eq!(COLLECT_MIN_CHARS, 9);
    assert_eq!(COLLECT_LONG_CHARS, 16);
}

// --- beyond the original suite ---

fn key(hid: u8) -> KeyTap {
    KeyTap::new(1, 0, 0, hid)
}

fn armed_app() -> DogkbdApp {
    let mut app = DogkbdApp::new(true, "out.jsonl".to_string(), 0);
    app.toggle_arm();
    app
}

#[test]
fn start_up_state() {
    let app = DogkbdApp::new(false, "p.jsonl".to_string(), 7);
    assert_eq!(app.status, "Ready (audio unavailable)");
    assert!(!app.settings.armed);
    assert_eq!(app.settings.input_delay_ms, 100);
    assert_eq!(app.settings.periodic_enter_interval, 15);
    assert_eq!(app.typing.last_periodic_enter_ms, 7);
    assert_eq!(DogkbdApp::new(true, String::new(), 0).status, "Ready");
}

#[test]
fn disarmed_panel_ignores_keys() {
    let mut app = DogkbdApp::new(true, String::new(), 0);
    assert_eq!(app.process_single_tap(&key(0x04), 10, Some(true)), None);
    assert_eq!(app.typing.text_char_count, 0);
    assert!(app.key_preview.is_empty());
}

#[test]
fn armed_keys_are_counted_and_injected() {
    let mut app = armed_app();
    assert_eq!(app.status, "Armed - keys will be injected");
    assert_eq!(app.process_single_tap(&key(0x04), 10, Some(true)), Some(key(0x04)));
    app.record_injection(Ok(()));
    assert_eq!(app.inject_count, 1);
    assert_eq!(app.typing.text_char_count, 1);
    assert_eq!(app.typing.idle_char_count, 1);
    assert_eq!(app.key_preview, vec![KeyPreview::Char('a')]);
    assert_eq!(app.process_single_tap(&key(0x2a), 20, Some(false)), None);
    assert_eq!(app.status, "Target not foreground");
    assert_eq!(app.typing.text_char_count, 0);
    app.process_single_tap(&key(0x2a), 30, None);
    assert_eq!(app.typing.text_char_count, 0);
    // Keyboard Enter is never processed.
    assert_eq!(app.process_single_tap(&key(0x28), 40, Some(true)), None);
    app.record_injection(Err("boom".to_string()));
    assert_eq!(app.error.as_deref(), Some("boom"));
}

#[test]
fn preview_is_bounded() {
    let mut app = armed_app();
    for i in 0..(MAX_PREVIEW_KEYS as u64 + 5) {
        app.process_single_tap(&key(0x05), i, None);
    }
    assert_eq!(app.key_preview.len(), MAX_PREVIEW_KEYS);
}

#[test]
fn treat_scheduled_once_thresholds_met() {
    let mut app = armed_app();
    for i in 0..15 {
        app.process_single_tap(&key(0x04), i, None);
    }
    assert!(app.typing.treat_dispense_at.is_none());
    app.process_single_tap(&key(0x2c), 100, None);
    assert_eq!(app.typing.treat_dispense_at, Some(2100));
    assert!(!app.check_treat(2099));
    assert!(app.check_treat(2100));
    assert!(app.typing.treat_dispensed_this_idle);
    app.process_single_tap(&key(0x04), 2200, None);
    assert!(app.typing.treat_dispense_at.is_none());
}

#[test]
fn idle_auto_enter() {
    let mut app = armed_app();
    for i in 0..16 {
        app.process_single_tap(&key(0x04), i, None);
    }
    app.begin_frame(4000, false);
    assert!(!app.check_idle_timeout(4000, Some(true)));
    assert!(app.check_idle_timeout(15 + 5000, Some(true)));
    assert_eq!(app.typing.text_char_count, 0);
    assert!(app.typing.last_input_ms.is_none());
    app.on_enter_result(Ok(()), EnterReason::Idle);
    assert_eq!(app.status, "Auto-enter injected (idle timeout)");
    assert!(app.typing.chime_pending);
    assert_eq!(app.key_preview.last(), Some(&KeyPreview::AutoEnter));
    assert!(!app.typing.has_input_since_enter);
}

#[test]
fn short_sequence_is_not_submitted() {
    let mut app = armed_app();
    app.process_single_tap(&key(0x04), 0, None);
    assert!(!app.check_idle_timeout(10_000, Some(true)));
    assert!(app.typing.last_input_ms.is_none());
    assert_eq!(app.typing.text_char_count, 1);
}

#[test]
fn busy_transitions_and_backspace() {
    let mut app = armed_app();
    app.process_single_tap(&key(0x04), 0, None);
    app.process_single_tap(&key(0x05), 1, None);
    let a = app.begin_frame(100, true);
    assert!(!a.play_chime && !a.focus_target);
    assert_eq!(app.typing.idle_char_count, 0);
    assert_eq!(app.typing.busy_backspace_at, Some(20_100));
    assert_eq!(app.check_busy_backspace(20_099, Some(true)), None);
    assert_eq!(app.check_busy_backspace(20_100, Some(true)), Some(2));
    assert_eq!(app.typing.text_char_count, 0);
    app.on_backspaces_done(2, None);
    assert_eq!(app.status, "Backspaced 2 chars (busy timeout)");
    assert_eq!(app.inject_count, 2);
    // Busy, nothing buffered: the periodic Enter is due after the interval.
    assert!(!app.check_periodic_enter(14_000, Some(true)));
    assert!(app.check_periodic_enter(15_000, Some(true)));
    app.on_enter_result(Ok(()), EnterReason::Periodic);
    assert_eq!(app.status, "Periodic auto-enter injected (busy)");
    // Busy to idle: grace period, then confirmation.
    app.begin_frame(30_000, false);
    assert_eq!(app.typing.idle_transition_at, Some(32_000));
    assert!(app.is_effectively_busy());
    let a = app.begin_frame(32_000, false);
    assert!(a.play_chime && a.focus_target);
    assert!(!app.is_effectively_busy());
    assert_eq!(app.typing.last_periodic_enter_ms, 32_000);
}

#[test]
fn busy_again_during_grace_period() {
    let mut app = armed_app();
    app.begin_frame(0, true);
    app.begin_frame(10, false);
    assert!(app.typing.idle_transition_at.is_some());
    let a = app.begin_frame(20, true);
    assert!(!a.play_chime);
    assert!(app.typing.idle_transition_at.is_none());
    assert!(app.typing.claude_was_busy);
}

#[test]
fn delay_queue() {
    let mut app = armed_app();
    app.enqueue(key(0x04), 1000);
    app.enqueue(key(0x05), 1050);
    assert_eq!(app.packet_count, 2);
    assert_eq!(app.next_ready(1099), None);
    assert_eq!(app.next_ready(1100), Some(key(0x04)));
    assert_eq!(app.next_ready(1100), None);
    assert_eq!(app.next_ready(1150), Some(key(0x05)));
}

#[test]
fn collect_mode_records_prompts() {
    let mut app = DogkbdApp::new(true, "p.jsonl".to_string(), 0);
    app.set_mode(AppMode::Collect, Some("{\"a\":1}\n\n{\"a\":2}\n"));
    assert_eq!(app.collected_count, 2);
    assert_eq!(app.status, "Collect mode — 2 prompt(s) already in p.jsonl");
    for (i, h) in [0x0a, 0x12, 0x12, 0x07, 0x2c, 0x07, 0x12, 0x0a, 0x2a, 0x0a].iter().enumerate() {
        assert_eq!(app.process_single_tap(&key(*h), i as u64, Some(true)), None);
    }
    assert_eq!(app.current_prompt, "good dog");
    // 8 characters: never saved on idle.
    assert_eq!(app.check_collect_timeout(100_000), None);
    app.process_single_tap(&key(0x1e), 200_000, None);
    assert_eq!(app.check_collect_timeout(204_999), None);
    let (seq, text) = app.check_collect_timeout(205_000).expect("save");
    assert_eq!(seq, 3);
    assert_eq!(text, "good dog1");
    app.on_prompt_saved(Err(SaveError::Write("disk full".to_string())));
    assert_eq!(app.error.as_deref(), Some("Save failed (p.jsonl): disk full"));
    assert_eq!(app.current_prompt, "good dog1");
    app.on_prompt_saved(Ok(()));
    assert_eq!(app.collected_count, 3);
    assert_eq!(app.current_prompt, "");
    assert_eq!(app.recent_prompts.back().map(|s| s.as_str()), Some("good dog1"));
    assert_eq!(app.status, "Collected 3 prompt(s)");
    app.set_mode(AppMode::Normal, None);
    assert_eq!(app.status, "Normal mode");
}

#[test]
fn collect_mode_never_asks_for_injection() {
    let mut app = armed_app();
    app.set_mode(AppMode::Collect, None);
    assert_eq!(app.collected_count, 0);
    app.begin_frame(0, true);
    assert_eq!(app.process_single_tap(&key(0x04), 0, Some(true)), None);
    assert!(!app.check_idle_timeout(100_000, Some(true)));
    assert!(!app.check_periodic_enter(100_000, Some(true)));
    assert_eq!(app.check_busy_backspace(100_000, Some(true)), None);
}

#[test]
fn reset_and_settings() {
    let mut app = armed_app();
    app.process_single_tap(&key(0x04), 0, None);
    app.reset(50);
    assert_eq!(app.status, "State reset");
    assert!(app.key_preview.is_empty());
    assert_eq!(app.typing.text_char_count, 0);
    app.set_validation_tone_enabled(false);
    app.process_single_tap(&key(0x04), 60, None);
    app.set_validation_tone_enabled(true);
    assert_eq!(app.typing.text_char_count, 0);
    app.set_periodic_enter_interval(30, 70);
    assert_eq!(app.typing.last_periodic_enter_ms, 70);
    app.set_periodic_enter_enabled(false, 80);
    app.set_periodic_enter_enabled(true, 90);
    assert_eq!(app.typing.last_periodic_enter_ms, 90);
    app.toggle_arm();
    assert_eq!(app.status, "Disarmed - keys will not be injected");
}

#[test]
fn save_hints() {
    assert_eq!(save_hint(3), "needs 9+ chars to save");
    assert_eq!(save_hint(9), "saves after 5s idle");
    assert_eq!(save_hint(16), "saves after 2s idle");
}
