//! The receiver control panel's decisions: arming, the input delay, text counting for the
//! treat dispenser, auto-enter on idle, periodic auto-enter while busy, clearing text typed
//! while busy, and the prompt-collection mode. Time is in milliseconds; the caller performs
//! injections, sounds, treats and file writes, and reports back.

use vstd::prelude::*;
use std::collections::VecDeque;
use crate::keys::{KeyPreview, preview_of, is_text};
use crate::proto::{KeyTap, HID_ENTER};
use crate::text::{decimal, push_decimal, count_nonblank_lines, nonblank_line_count};

verus! {

/// Maximum number of key previews kept.
pub const MAX_PREVIEW_KEYS: usize = 50;

/// Idle time before auto-enter and sequence reset (seconds).
pub const IDLE_TIMEOUT_SECS: u64 = 5;

/// Delay between thresholds being met and the treat being dispensed (seconds).
pub const TREAT_DELAY_SECS: u64 = 2;

/// Time spent busy before buffered text is backspaced out (seconds).
pub const BUSY_BACKSPACE_TIMEOUT_SECS: u64 = 20;

/// Grace period before a busy-to-idle transition is confirmed (seconds).
pub const IDLE_TRANSITION_DELAY_SECS: u64 = 2;

/// Minimum total text characters to submit (auto-enter) and dispense a treat.
pub const VALIDATION_CHAR_THRESHOLD: usize = 16;

/// Minimum text characters typed while the assistant is idle.
pub const IDLE_CHAR_THRESHOLD: usize = 4;

/// Minimum characters before a collected prompt is saved on idle.
pub const COLLECT_MIN_CHARS: usize = 9;

/// Characters at which a collected prompt counts as long and is saved after a short gap.
pub const COLLECT_LONG_CHARS: usize = 16;

/// Idle seconds before saving a long prompt.
pub const COLLECT_IDLE_SHORT_SECS: u64 = 2;

/// Idle seconds before saving a normal prompt.
pub const COLLECT_IDLE_LONG_SECS: u64 = 5;

/// Default collection target shown in the panel.
pub const COLLECT_DEFAULT_TARGET: u64 = 100;

/// Number of recently saved prompts kept for the panel.
pub const RECENT_PROMPTS_SHOWN: usize = 10;

/// Operating mode: Normal injects into the target window with the auto-enter and treat
/// machinery; Collect only records the prompts typed.
#[derive(Debug, Clone, Copy, PartialEq, Eq, Structural)]
pub enum AppMode {
    Normal,
    Collect,
}

/// Why an automatic Enter is injected.
#[derive(Debug, Clone, Copy, PartialEq, Eq, Structural)]
pub enum EnterReason {
    /// The keyboard went idle after enough text.
    Idle,
    /// The periodic timer fired while the assistant was busy.
    Periodic,
}

/// Why saving a collected prompt failed.
#[derive(Debug, Clone, PartialEq, Eq)]
pub enum SaveError {
    /// The record could not be serialized.
    Serialize(String),
    /// The file could not be written.
    Write(String),
}

/// Operator settings.
#[derive(Debug, Clone, Copy, PartialEq, Eq, Structural)]
pub struct Settings {
    /// Whether injection is armed.
    pub armed: bool,
    pub auto_enter_on_idle: bool,
    /// Chime on submit.
    pub validation_tone_enabled: bool,
    pub periodic_enter_enabled: bool,
    /// Periodic auto-enter interval in seconds.
    pub periodic_enter_interval: u64,
    /// Delay before received keys are processed, in milliseconds.
    pub input_delay_ms: u64,
    pub mode: AppMode,
    pub audio_available: bool,
}

/// Typing progress, the assistant's state, and the timers (milliseconds).
#[derive(Debug, Clone, Copy, PartialEq, Eq, Structural)]
pub struct Typing {
    /// Input received since the last Enter.
    pub has_input_since_enter: bool,
    pub last_input_ms: Option<u64>,
    /// Text characters in the current sequence.
    pub text_char_count: usize,
    /// Text characters typed while the assistant was idle.
    pub idle_char_count: usize,
    /// A treat was dispensed for this sequence.
    pub validation_tone_played: bool,
    /// A chime is due at the next busy-to-idle transition.
    pub chime_pending: bool,
    pub treat_dispense_at: Option<u64>,
    /// A treat was dispensed in the current idle period.
    pub treat_dispensed_this_idle: bool,
    pub busy_backspace_at: Option<u64>,
    pub idle_transition_at: Option<u64>,
    /// The assistant reported busy (latest report).
    pub claude_busy: bool,
    pub claude_was_busy: bool,
    pub last_periodic_enter_ms: u64,
    pub enter_injected_this_frame: bool,
}

/// The control panel state.
pub struct DogkbdApp {
    pub settings: Settings,
    pub typing: Typing,
    /// Packets received.
    pub packet_count: u64,
    /// Keys injected.
    pub inject_count: u64,
    /// Recent key previews (at most [`MAX_PREVIEW_KEYS`]).
    pub key_preview: Vec<KeyPreview>,
    pub status: String,
    pub error: Option<String>,
    /// Received taps waiting for the input delay: (ready at, tap).
    pub delay_buffer: VecDeque<(u64, KeyTap)>,
    /// The prompt being typed (Collect mode).
    pub current_prompt: String,
    pub collect_path: String,
    /// Prompts in the output file.
    pub collected_count: u64,
    /// Display-only goal.
    pub collect_target: u64,
    /// Recently saved prompts (at most [`RECENT_PROMPTS_SHOWN`]).
    pub recent_prompts: VecDeque<String>,
}

/// What the caller does at the start of a frame.
#[derive(Debug, Clone, Copy, PartialEq, Eq, Structural)]
pub struct FrameActions {
    /// Play the chime.
    pub play_chime: bool,
    /// Bring the target window to the foreground.
    pub focus_target: bool,
}

/// `ms` milliseconds after `now`, saturating at the end of the clock.
pub open spec fn later(now: u64, ms: int) -> u64 {
    if now + ms > u64::MAX {
        u64::MAX
    } else {
        (now + ms) as u64
    }
}

/// Milliseconds from `since` to `now` (zero if `now` is earlier).
pub open spec fn elapsed(now: u64, since: u64) -> int {
    if now >= since {
        now - since
    } else {
        0
    }
}

/// `x + 1`, saturating.
pub open spec fn inc(x: usize) -> usize {
    if x == usize::MAX {
        x
    } else {
        (x + 1) as usize
    }
}

/// `x - 1`, saturating at zero.
pub open spec fn dec(x: usize) -> usize {
    if x == 0 {
        0
    } else {
        (x - 1) as usize
    }
}

/// `x + n`, saturating.
pub open spec fn add64(x: u64, n: int) -> u64 {
    if x + n > u64::MAX {
        u64::MAX
    } else {
        (x + n) as u64
    }
}

/// The preview list after showing `k`, dropping the oldest entry beyond the limit.
pub open spec fn with_preview(p: Seq<KeyPreview>, k: KeyPreview) -> Seq<KeyPreview> {
    if p.len() + 1 > MAX_PREVIEW_KEYS {
        p.push(k).drop_first()
    } else {
        p.push(k)
    }
}

/// The preview list after showing `k` `n` times.
pub open spec fn with_previews(p: Seq<KeyPreview>, k: KeyPreview, n: nat) -> Seq<KeyPreview>
    decreases n,
{
    if n == 0 {
        p
    } else {
        with_preview(with_previews(p, k, (n - 1) as nat), k)
    }
}

/// The assistant counts as busy while it reports busy and during the grace period before a
/// busy-to-idle transition is confirmed.
pub open spec fn effectively_busy(t: Typing) -> bool {
    t.claude_busy || t.idle_transition_at is Some
}

/// The state invariant: the preview and recent-prompt lists stay within their limits.
pub open spec fn wf(app: DogkbdApp) -> bool {
    &&& app.key_preview@.len() <= MAX_PREVIEW_KEYS
    &&& app.recent_prompts@.len() <= RECENT_PROMPTS_SHOWN
}

/// Everything of Collect mode is unchanged from `a` to `b`.
pub open spec fn collect_same(a: DogkbdApp, b: DogkbdApp) -> bool {
    &&& b.current_prompt == a.current_prompt
    &&& b.collect_path == a.collect_path
    &&& b.collected_count == a.collected_count
    &&& b.collect_target == a.collect_target
    &&& b.recent_prompts == a.recent_prompts
}

/// The received-key queue and the counters are unchanged from `a` to `b`.
pub open spec fn queue_same(a: DogkbdApp, b: DogkbdApp) -> bool {
    &&& b.delay_buffer == a.delay_buffer
    &&& b.packet_count == a.packet_count
    &&& b.inject_count == a.inject_count
}

/// The panel's preview, status and error are unchanged from `a` to `b`.
pub open spec fn panel_same(a: DogkbdApp, b: DogkbdApp) -> bool {
    &&& b.key_preview == a.key_preview
    &&& b.status == a.status
    &&& b.error == a.error
}

/// Typing progress after one previewed key in Normal mode: Backspace takes a character back
/// (not below zero); text characters count towards the thresholds (idle characters only while
/// the assistant is idle), and a treat is scheduled when both thresholds are met, the panel
/// is armed, the assistant is idle, and no treat is pending or was given in this idle period
/// or sequence; typing while busy schedules the busy backspace.
pub open spec fn counted(t: Typing, armed: bool, p: KeyPreview, now: u64) -> Typing {
    let idle = !effectively_busy(t);
    let t1 = Typing { has_input_since_enter: true, ..t };
    let t2 = if p is Backspace {
        Typing {
            text_char_count: dec(t.text_char_count),
            idle_char_count: if idle {
                dec(t.idle_char_count)
            } else {
                t.idle_char_count
            },
            ..t1
        }
    } else if is_text(p) {
        let text = inc(t.text_char_count);
        let idle_chars = if idle {
            inc(t.idle_char_count)
        } else {
            t.idle_char_count
        };
        let schedule = text >= VALIDATION_CHAR_THRESHOLD && idle_chars >= IDLE_CHAR_THRESHOLD
            && !t.validation_tone_played && !t.treat_dispensed_this_idle && t.treat_dispense_at is None
            && armed && idle;
        Typing {
            text_char_count: text,
            idle_char_count: idle_chars,
            treat_dispense_at: if schedule {
                Some(later(now, TREAT_DELAY_SECS * 1000))
            } else {
                t.treat_dispense_at
            },
            ..t1
        }
    } else {
        t1
    };
    if effectively_busy(t2) && t2.busy_backspace_at is None {
        Typing { busy_backspace_at: Some(later(now, BUSY_BACKSPACE_TIMEOUT_SECS * 1000)), ..t2 }
    } else {
        t2
    }
}

/// The prompt after one previewed key in Collect mode: Backspace removes the last character,
/// Space and characters are appended.
pub open spec fn edited_prompt(prompt: Seq<char>, p: KeyPreview) -> Seq<char> {
    match p {
        KeyPreview::Backspace => if prompt.len() > 0 {
            prompt.drop_last()
        } else {
            prompt
        },
        KeyPreview::Space => prompt.push(' '),
        KeyPreview::Char(c) => prompt.push(c),
        _ => prompt,
    }
}

/// Whether an automatic Enter can be injected now: not already injected this frame, armed,
/// and the target window selected and in the foreground.
pub open spec fn can_inject_enter(t: Typing, s: Settings, target_fg: Option<bool>) -> bool {
    !t.enter_injected_this_frame && s.armed && target_fg == Some(true)
}

impl DogkbdApp {
    /// The panel state at start-up, writing collected prompts to `collect_path`.
    pub fn new(audio_available: bool, collect_path: String, now_ms: u64) -> (app: Self)
        ensures
            wf(app),
            app.settings == (Settings {
                armed: false,
                auto_enter_on_idle: true,
                validation_tone_enabled: true,
                periodic_enter_enabled: true,
                periodic_enter_interval: 15,
                input_delay_ms: 100,
                mode: AppMode::Normal,
                audio_available,
            }),
            app.typing == (Typing {
                has_input_since_enter: false,
                last_input_ms: None,
                text_char_count: 0,
                idle_char_count: 0,
                validation_tone_played: false,
                chime_pending: false,
                treat_dispense_at: None,
                treat_dispensed_this_idle: false,
                busy_backspace_at: None,
                idle_transition_at: None,
                claude_busy: false,
                claude_was_busy: false,
                last_periodic_enter_ms: now_ms,
                enter_injected_this_frame: false,
            }),
            app.packet_count == 0,
            app.inject_count == 0,
            app.key_preview@ == Seq::<KeyPreview>::empty(),
            app.status@ == if audio_available {
                "Ready"@
            } else {
                "Ready (audio unavailable)"@
            },
            app.error is None,
            app.delay_buffer@ == Seq::<(u64, KeyTap)>::empty(),
            app.current_prompt@ == Seq::<char>::empty(),
            app.collect_path == collect_path,
            app.collected_count == 0,
            app.collect_target == COLLECT_DEFAULT_TARGET,
            app.recent_prompts@ == Seq::<String>::empty(),
    {
        DogkbdApp {
            settings: Settings {
                armed: false,
                auto_enter_on_idle: true,
                validation_tone_enabled: true,
                periodic_enter_enabled: true,
                periodic_enter_interval: 15,
                input_delay_ms: 100,
                mode: AppMode::Normal,
                audio_available,
            },
            typing: Typing {
                has_input_since_enter: false,
                last_input_ms: None,
                text_char_count: 0,
                idle_char_count: 0,
                validation_tone_played: false,
                chime_pending: false,
                treat_dispense_at: None,
                treat_dispensed_this_idle: false,
                busy_backspace_at: None,
                idle_transition_at: None,
                claude_busy: false,
                claude_was_busy: false,
                last_periodic_enter_ms: now_ms,
                enter_injected_this_frame: false,
            },
            packet_count: 0,
            inject_count: 0,
            key_preview: Vec::new(),
            status: if audio_available {
                String::from_str("Ready")
            } else {
                String::from_str("Ready (audio unavailable)")
            },
            error: None,
            delay_buffer: VecDeque::new(),
            current_prompt: String::new(),
            collect_path,
            collected_count: 0,
            collect_target: COLLECT_DEFAULT_TARGET,
            recent_prompts: VecDeque::new(),
        }
    }

    /// Whether the assistant is effectively busy (busy, or in the idle-transition grace period).
    pub fn is_effectively_busy(&self) -> (r: bool)
        ensures
            r == effectively_busy(self.typing),
    {
        self.typing.claude_busy || self.typing.idle_transition_at.is_some()
    }

    /// Whether a key preview is a text character (for the treat thresholds).
    pub fn is_text_char(preview: &KeyPreview) -> (r: bool)
        ensures
            r == is_text(*preview),
    {
        match preview {
            KeyPreview::Char(_) | KeyPreview::Space => true,
            _ => false,
        }
    }

    fn push_preview(&mut self, k: KeyPreview)
        requires
            old(self).key_preview@.len() <= MAX_PREVIEW_KEYS,
        ensures
            final(self).key_preview@ == with_preview(old(self).key_preview@, k),
            final(self).key_preview@.len() <= MAX_PREVIEW_KEYS,
            final(self).settings == old(self).settings,
            final(self).typing == old(self).typing,
            collect_same(*old(self), *final(self)),
            queue_same(*old(self), *final(self)),
            final(self).status == old(self).status,
            final(self).error == old(self).error,
    {
        self.key_preview.push(k);
        if self.key_preview.len() > MAX_PREVIEW_KEYS {
            self.key_preview.remove(0);
            assert(self.key_preview@ =~= with_preview(old(self).key_preview@, k));
        }
    }

    fn count_tap(typing: &mut Typing, armed: bool, p: KeyPreview, now_ms: u64)
        ensures
            *final(typing) == counted(*old(typing), armed, p, now_ms),
    {
        let claude_idle = !(typing.claude_busy || typing.idle_transition_at.is_some());
        typing.has_input_since_enter = true;
        match p {
            KeyPreview::Backspace => {
                typing.text_char_count = typing.text_char_count.saturating_sub(1);
                if claude_idle {
                    typing.idle_char_count = typing.idle_char_count.saturating_sub(1);
                }
            },
            KeyPreview::Char(_) | KeyPreview::Space => {
                typing.text_char_count = typing.text_char_count.saturating_add(1);
                if claude_idle {
                    typing.idle_char_count = typing.idle_char_count.saturating_add(1);
                }
                if typing.text_char_count >= VALIDATION_CHAR_THRESHOLD && typing.idle_char_count
                    >= IDLE_CHAR_THRESHOLD && !typing.validation_tone_played
                    && !typing.treat_dispensed_this_idle && typing.treat_dispense_at.is_none()
                    && armed && claude_idle {
                    typing.treat_dispense_at = Some(
                        now_ms.saturating_add(TREAT_DELAY_SECS * 1000),
                    );
                }
            },
            _ => {},
        }
        if (typing.claude_busy || typing.idle_transition_at.is_some())
            && typing.busy_backspace_at.is_none() {
            typing.busy_backspace_at = Some(
                now_ms.saturating_add(BUSY_BACKSPACE_TIMEOUT_SECS * 1000),
            );
        }
    }

    /// Process one tap whose input delay has elapsed, `target_fg` telling whether a target
    /// window is selected and in the foreground. Enter is ignored. In Collect mode the tap
    /// edits the prompt and is previewed, and nothing is injected. In Normal mode nothing
    /// happens unless armed; an armed tap is counted and previewed, and returned for injection
    /// when the target is in the foreground (the caller reports the outcome with
    /// [`DogkbdApp::record_injection`]).
    pub fn process_single_tap(&mut self, tap: &KeyTap, now_ms: u64, target_fg: Option<bool>) -> (inject: Option<KeyTap>)
        requires
            wf(*old(self)),
        ensures
            wf(*final(self)),
            final(self).settings == old(self).settings,
            queue_same(*old(self), *final(self)),
            final(self).error == old(self).error,
            tap.hid_code == HID_ENTER ==> inject is None && final(self).typing == old(self).typing
                && collect_same(*old(self), *final(self)) && final(self).key_preview
                == old(self).key_preview && final(self).status == old(self).status,
            tap.hid_code != HID_ENTER && old(self).settings.mode == AppMode::Collect ==> {
                &&& inject is None
                &&& final(self).typing == (Typing { last_input_ms: Some(now_ms), ..old(self).typing })
                &&& final(self).status == old(self).status
                &&& final(self).collect_path == old(self).collect_path
                &&& final(self).collected_count == old(self).collected_count
                &&& final(self).collect_target == old(self).collect_target
                &&& final(self).recent_prompts == old(self).recent_prompts
                &&& match preview_of(*tap) {
                    Some(p) => final(self).current_prompt@ == edited_prompt(
                        old(self).current_prompt@,
                        p,
                    ) && final(self).key_preview@ == with_preview(old(self).key_preview@, p),
                    None => final(self).current_prompt == old(self).current_prompt
                        && final(self).key_preview == old(self).key_preview,
                }
            },
            tap.hid_code != HID_ENTER && old(self).settings.mode == AppMode::Normal ==> {
                &&& collect_same(*old(self), *final(self))
                &&& if !old(self).settings.armed {
                    &&& inject is None
                    &&& final(self).typing == old(self).typing
                    &&& final(self).key_preview == old(self).key_preview
                    &&& final(self).status == old(self).status
                } else {
                    let t1 = Typing { last_input_ms: Some(now_ms), ..old(self).typing };
                    &&& match preview_of(*tap) {
                        Some(p) => final(self).typing == counted(t1, true, p, now_ms)
                            && final(self).key_preview@ == with_preview(old(self).key_preview@, p),
                        None => final(self).typing == t1 && final(self).key_preview
                            == old(self).key_preview,
                    }
                    &&& inject == if target_fg == Some(true) {
                        Some(*tap)
                    } else {
                        None
                    }
                    &&& if target_fg == Some(false) {
                        final(self).status@ == "Target not foreground"@
                    } else {
                        final(self).status == old(self).status
                    }
                }
            },
    {
        if tap.hid_code == HID_ENTER {
            return None;
        }
        if self.settings.mode == AppMode::Collect {
            self.typing.last_input_ms = Some(now_ms);
            if let Some(preview) = KeyPreview::from_tap(tap) {
                match preview {
                    KeyPreview::Backspace => {
                        crate::text::pop_char(&mut self.current_prompt);
                    },
                    KeyPreview::Space => crate::text::push_char(&mut self.current_prompt, ' '),
                    KeyPreview::Char(c) => crate::text::push_char(&mut self.current_prompt, c),
                    KeyPreview::Enter | KeyPreview::AutoEnter => {},
                }
                assert(self.current_prompt@ =~= edited_prompt(old(self).current_prompt@, preview));
                self.push_preview(preview);
            }
            return None;
        }
        if !self.settings.armed {
            return None;
        }
        self.typing.last_input_ms = Some(now_ms);
        if let Some(preview) = KeyPreview::from_tap(tap) {
            Self::count_tap(&mut self.typing, true, preview, now_ms);
            self.push_preview(preview);
        }
        match target_fg {
            Some(true) => Some(*tap),
            Some(false) => {
                self.status = String::from_str("Target not foreground");
                None
            },
            None => None,
        }
    }

    /// Record the outcome of an injection: a success is counted and clears the error, a
    /// failure's message becomes the error.
    pub fn record_injection(&mut self, result: Result<(), String>)
        ensures
            final(self).settings == old(self).settings,
            final(self).typing == old(self).typing,
            collect_same(*old(self), *final(self)),
            final(self).delay_buffer == old(self).delay_buffer,
            final(self).packet_count == old(self).packet_count,
            final(self).key_preview == old(self).key_preview,
            final(self).status == old(self).status,
            match result {
                Ok(()) => final(self).inject_count == add64(old(self).inject_count, 1)
                    && final(self).error is None,
                Err(e) => final(self).inject_count == old(self).inject_count && final(self).error
                    == Some(e),
            },
    {
        match result {
            Ok(()) => {
                self.inject_count = self.inject_count.saturating_add(1);
                self.error = None;
            },
            Err(e) => {
                self.error = Some(e);
            },
        }
    }

    /// A tap arrived at `now_ms`: counted, and queued until the input delay has passed.
    pub fn enqueue(&mut self, tap: KeyTap, now_ms: u64)
        ensures
            final(self).packet_count == add64(old(self).packet_count, 1),
            final(self).delay_buffer@ == old(self).delay_buffer@.push(
                (later(now_ms, old(self).settings.input_delay_ms as int), tap),
            ),
            final(self).settings == old(self).settings,
            final(self).typing == old(self).typing,
            collect_same(*old(self), *final(self)),
            panel_same(*old(self), *final(self)),
            final(self).inject_count == old(self).inject_count,
    {
        self.packet_count = self.packet_count.saturating_add(1);
        let ready_at = now_ms.saturating_add(self.settings.input_delay_ms);
        self.delay_buffer.push_back((ready_at, tap));
    }

    /// The oldest queued tap, if its delay has passed by `now_ms`.
    pub fn next_ready(&mut self, now_ms: u64) -> (tap: Option<KeyTap>)
        ensures
            final(self).settings == old(self).settings,
            final(self).typing == old(self).typing,
            collect_same(*old(self), *final(self)),
            panel_same(*old(self), *final(self)),
            final(self).packet_count == old(self).packet_count,
            final(self).inject_count == old(self).inject_count,
            if old(self).delay_buffer@.len() > 0 && old(self).delay_buffer@[0].0 <= now_ms {
                tap == Some(old(self).delay_buffer@[0].1) && final(self).delay_buffer@ == old(
                    self,
                ).delay_buffer@.drop_first()
            } else {
                tap is None && final(self).delay_buffer == old(self).delay_buffer
            },
    {
        if self.delay_buffer.len() == 0 {
            return None;
        }
        let (ready_at, _) = self.delay_buffer[0];
        if now_ms < ready_at {
            return None;
        }
        match self.delay_buffer.pop_front() {
            Some((_, tap)) => Some(tap),
            None => None,
        }
    }
}

/// The typing state and actions at the start of a frame, given the assistant's latest busy
/// report. In Normal mode a busy-to-idle change starts a grace period; busy again during it
/// cancels it; once it ends the transition is confirmed (treat flag and busy backspace
/// cleared, periodic timer restarted, chime when enabled, target focused). An idle-to-busy
/// change resets the idle character count and schedules the busy backspace if text is
/// buffered.
pub open spec fn framed(t: Typing, s: Settings, now: u64, busy: bool) -> (Typing, FrameActions) {
    let t0 = Typing { enter_injected_this_frame: false, claude_busy: busy, ..t };
    let none = FrameActions { play_chime: false, focus_target: false };
    if s.mode != AppMode::Normal {
        (t0, none)
    } else {
        match t.idle_transition_at {
            Some(at) => if busy {
                (Typing { idle_transition_at: None, ..t0 }, none)
            } else if now >= at {
                (
                    Typing {
                        last_periodic_enter_ms: now,
                        treat_dispensed_this_idle: false,
                        busy_backspace_at: None,
                        chime_pending: false,
                        idle_transition_at: None,
                        claude_was_busy: false,
                        ..t0
                    },
                    FrameActions { play_chime: s.validation_tone_enabled, focus_target: true },
                )
            } else {
                (t0, none)
            },
            None => if !busy && t.claude_was_busy {
                (
                    Typing {
                        idle_transition_at: Some(later(now, IDLE_TRANSITION_DELAY_SECS * 1000)),
                        ..t0
                    },
                    none,
                )
            } else if busy && !t.claude_was_busy {
                (
                    Typing {
                        idle_char_count: 0,
                        busy_backspace_at: if t.has_input_since_enter && t.busy_backspace_at is None {
                            Some(later(now, BUSY_BACKSPACE_TIMEOUT_SECS * 1000))
                        } else {
                            t.busy_backspace_at
                        },
                        claude_was_busy: true,
                        ..t0
                    },
                    none,
                )
            } else {
                (t0, none)
            },
        }
    }
}

/// The typing state after a sequence is cleared by the busy backspace.
pub open spec fn cleared(t: Typing) -> Typing {
    Typing {
        text_char_count: 0,
        idle_char_count: 0,
        has_input_since_enter: false,
        validation_tone_played: false,
        treat_dispense_at: None,
        busy_backspace_at: None,
        ..t
    }
}

/// Whether the keyboard has been idle long enough for the auto-enter check.
pub open spec fn idle_timeout_due(t: Typing, s: Settings, now: u64) -> bool {
    &&& s.mode == AppMode::Normal
    &&& !effectively_busy(t)
    &&& t.last_input_ms is Some
    &&& elapsed(now, t.last_input_ms->Some_0) >= IDLE_TIMEOUT_SECS * 1000
}

/// Whether the buffered sequence is long enough to submit: auto-enter is enabled, there was
/// input since the last Enter, and both character thresholds are met.
pub open spec fn submit_ready(t: Typing, s: Settings) -> bool {
    &&& s.auto_enter_on_idle
    &&& t.has_input_since_enter
    &&& t.text_char_count >= VALIDATION_CHAR_THRESHOLD
    &&& t.idle_char_count >= IDLE_CHAR_THRESHOLD
}

/// Whether the periodic auto-enter is due: Normal mode, the assistant busy, no buffered
/// text, enabled, and the interval elapsed since the last one.
pub open spec fn periodic_due(t: Typing, s: Settings, now: u64) -> bool {
    &&& s.mode == AppMode::Normal
    &&& effectively_busy(t)
    &&& !t.has_input_since_enter
    &&& s.periodic_enter_enabled
    &&& elapsed(now, t.last_periodic_enter_ms) >= s.periodic_enter_interval * 1000
}

/// Whether a collected prompt of `len` characters, idle for `idle` milliseconds, is saved:
/// long prompts after the short gap, normal ones after the long gap, shorter ones never.
pub open spec fn collect_save_due(len: int, idle: int) -> bool {
    ||| len >= COLLECT_LONG_CHARS && idle >= COLLECT_IDLE_SHORT_SECS * 1000
    ||| len >= COLLECT_MIN_CHARS && idle >= COLLECT_IDLE_LONG_SECS * 1000
}

proof fn lemma_div_threshold(e: u64, n: u64)
    ensures
        (e / 1000 >= n) <==> (e >= n * 1000),
{
    assert((e / 1000 >= n) <==> (e >= n * 1000)) by (nonlinear_arith);
}

impl DogkbdApp {
    /// Start a frame at `now_ms` with the assistant's latest busy report; see [`framed`].
    pub fn begin_frame(&mut self, now_ms: u64, claude_busy_now: bool) -> (actions: FrameActions)
        ensures
            (final(self).typing, actions) == framed(
                old(self).typing,
                old(self).settings,
                now_ms,
                claude_busy_now,
            ),
            final(self).settings == old(self).settings,
            collect_same(*old(self), *final(self)),
            queue_same(*old(self), *final(self)),
            panel_same(*old(self), *final(self)),
    {
        let mut actions = FrameActions { play_chime: false, focus_target: false };
        let t = &mut self.typing;
        let was = *t;
        t.enter_injected_this_frame = false;
        t.claude_busy = claude_busy_now;
        if self.settings.mode == AppMode::Normal {
            match was.idle_transition_at {
                Some(at) => {
                    if claude_busy_now {
                        t.idle_transition_at = None;
                    } else if now_ms >= at {
                        t.last_periodic_enter_ms = now_ms;
                        t.treat_dispensed_this_idle = false;
                        t.busy_backspace_at = None;
                        actions.play_chime = self.settings.validation_tone_enabled;
                        t.chime_pending = false;
                        actions.focus_target = true;
                        t.idle_transition_at = None;
                        t.claude_was_busy = false;
                    }
                },
                None => {
                    if !claude_busy_now && was.claude_was_busy {
                        t.idle_transition_at = Some(
                            now_ms.saturating_add(IDLE_TRANSITION_DELAY_SECS * 1000),
                        );
                    } else if claude_busy_now && !was.claude_was_busy {
                        t.idle_char_count = 0;
                        if was.has_input_since_enter && was.busy_backspace_at.is_none() {
                            t.busy_backspace_at = Some(
                                now_ms.saturating_add(BUSY_BACKSPACE_TIMEOUT_SECS * 1000),
                            );
                        }
                        t.claude_was_busy = true;
                    }
                },
            }
        }
        actions
    }

    /// Dispense the scheduled treat once its time has come: returns true when the caller is
    /// to dispense it now; the sequence and the idle period are then marked as rewarded.
    pub fn check_treat(&mut self, now_ms: u64) -> (dispense: bool)
        ensures
            dispense == (old(self).typing.treat_dispense_at is Some && now_ms
                >= old(self).typing.treat_dispense_at->Some_0),
            final(self).typing == if dispense {
                Typing {
                    validation_tone_played: true,
                    treat_dispensed_this_idle: true,
                    treat_dispense_at: None,
                    ..old(self).typing
                }
            } else {
                old(self).typing
            },
            final(self).settings == old(self).settings,
            collect_same(*old(self), *final(self)),
            queue_same(*old(self), *final(self)),
            panel_same(*old(self), *final(self)),
    {
        match self.typing.treat_dispense_at {
            Some(at) => {
                if now_ms >= at {
                    self.typing.validation_tone_played = true;
                    self.typing.treat_dispensed_this_idle = true;
                    self.typing.treat_dispense_at = None;
                    return true;
                }
                false
            },
            None => false,
        }
    }

    /// Clear text typed while busy once the busy backspace is due (Normal mode, assistant
    /// busy): the sequence is reset, and when it held text the result is the number of
    /// backspaces to inject (zero unless armed with the target in the foreground); the caller
    /// then reports with [`DogkbdApp::on_backspaces_done`].
    pub fn check_busy_backspace(&mut self, now_ms: u64, target_fg: Option<bool>) -> (request: Option<usize>)
        ensures
            final(self).settings == old(self).settings,
            collect_same(*old(self), *final(self)),
            queue_same(*old(self), *final(self)),
            panel_same(*old(self), *final(self)),
            ({
                let t = old(self).typing;
                let due = old(self).settings.mode == AppMode::Normal && effectively_busy(t)
                    && (t.busy_backspace_at matches Some(at) && now_ms >= at);
                if due {
                    &&& final(self).typing == cleared(t)
                    &&& request == if t.text_char_count > 0 {
                        Some(
                            if old(self).settings.armed && target_fg == Some(true) {
                                t.text_char_count
                            } else {
                                0usize
                            },
                        )
                    } else {
                        None
                    }
                } else {
                    request is None && final(self).typing == t
                }
            }),
    {
        if self.settings.mode != AppMode::Normal || !self.is_effectively_busy() {
            return None;
        }
        match self.typing.busy_backspace_at {
            Some(at) => {
                if now_ms < at {
                    return None;
                }
                let count = self.typing.text_char_count;
                let request = if count > 0 {
                    Some(
                        if self.settings.armed && target_fg == Some(true) {
                            count
                        } else {
                            0
                        },
                    )
                } else {
                    None
                };
                self.typing.text_char_count = 0;
                self.typing.idle_char_count = 0;
                self.typing.has_input_since_enter = false;
                self.typing.validation_tone_played = false;
                self.typing.treat_dispense_at = None;
                self.typing.busy_backspace_at = None;
                request
            },
            None => None,
        }
    }

    /// Report the busy backspaces: `injected` went through, and `failure` is the error that
    /// stopped the rest, if any. Each injected backspace is counted and previewed.
    pub fn on_backspaces_done(&mut self, injected: usize, failure: Option<String>)
        requires
            wf(*old(self)),
        ensures
            wf(*final(self)),
            final(self).inject_count == add64(old(self).inject_count, injected as int),
            final(self).key_preview@ == with_previews(
                old(self).key_preview@,
                KeyPreview::Backspace,
                injected as nat,
            ),
            final(self).error == match failure {
                Some(e) => Some(e),
                None => old(self).error,
            },
            final(self).status@ == "Backspaced "@ + decimal(injected as nat)
                + " chars (busy timeout)"@,
            final(self).settings == old(self).settings,
            final(self).typing == old(self).typing,
            collect_same(*old(self), *final(self)),
            final(self).delay_buffer == old(self).delay_buffer,
            final(self).packet_count == old(self).packet_count,
    {
        let mut i: usize = 0;
        while i < injected
            invariant
                i <= injected,
                self.key_preview@.len() <= MAX_PREVIEW_KEYS,
                self.recent_prompts@.len() <= RECENT_PROMPTS_SHOWN,
                self.key_preview@ == with_previews(
                    old(self).key_preview@,
                    KeyPreview::Backspace,
                    i as nat,
                ),
                self.inject_count == add64(old(self).inject_count, i as int),
                self.settings == old(self).settings,
                self.typing == old(self).typing,
                collect_same(*old(self), *self),
                self.delay_buffer == old(self).delay_buffer,
                self.packet_count == old(self).packet_count,
                self.error == old(self).error,
            decreases injected - i,
        {
            self.inject_count = self.inject_count.saturating_add(1);
            self.push_preview(KeyPreview::Backspace);
            i = i + 1;
        }
        if let Some(e) = failure {
            self.error = Some(e);
        }
        let mut status = String::from_str("Backspaced ");
        push_decimal(&mut status, injected as u64);
        status.append(" chars (busy timeout)");
        self.status = status;
    }

    /// The idle check: after [`IDLE_TIMEOUT_SECS`] without input (Normal mode, assistant
    /// idle), a sequence ready to submit has its counters reset and asks for an automatic
    /// Enter when one can be injected; either way the idle timer is cleared. The caller
    /// injects the Enter and reports with [`DogkbdApp::on_enter_result`].
    pub fn check_idle_timeout(&mut self, now_ms: u64, target_fg: Option<bool>) -> (enter: bool)
        ensures
            final(self).settings == old(self).settings,
            collect_same(*old(self), *final(self)),
            queue_same(*old(self), *final(self)),
            panel_same(*old(self), *final(self)),
            ({
                let t = old(self).typing;
                let s = old(self).settings;
                if idle_timeout_due(t, s, now_ms) {
                    let t1 = if submit_ready(t, s) {
                        Typing {
                            text_char_count: 0,
                            idle_char_count: 0,
                            validation_tone_played: false,
                            ..t
                        }
                    } else {
                        t
                    };
                    &&& final(self).typing == (Typing { last_input_ms: None, ..t1 })
                    &&& enter == (submit_ready(t, s) && can_inject_enter(t, s, target_fg))
                } else {
                    !enter && final(self).typing == t
                }
            }),
    {
        if self.settings.mode != AppMode::Normal || self.is_effectively_busy() {
            return false;
        }
        let last = match self.typing.last_input_ms {
            Some(t) => t,
            None => {
                return false;
            },
        };
        if now_ms.saturating_sub(last) < IDLE_TIMEOUT_SECS * 1000 {
            return false;
        }
        let mut enter = false;
        if self.settings.auto_enter_on_idle && self.typing.has_input_since_enter
            && self.typing.text_char_count >= VALIDATION_CHAR_THRESHOLD
            && self.typing.idle_char_count >= IDLE_CHAR_THRESHOLD {
            enter = !self.typing.enter_injected_this_frame && self.settings.armed && target_fg
                == Some(true);
            self.typing.text_char_count = 0;
            self.typing.idle_char_count = 0;
            self.typing.validation_tone_played = false;
        }
        self.typing.last_input_ms = None;
        enter
    }

    /// The periodic check: while the assistant is busy and no text is buffered, an
    /// automatic Enter is due every interval; the timer restarts and an Enter is asked for
    /// when one can be injected. The caller reports with [`DogkbdApp::on_enter_result`].
    pub fn check_periodic_enter(&mut self, now_ms: u64, target_fg: Option<bool>) -> (enter: bool)
        ensures
            final(self).settings == old(self).settings,
            collect_same(*old(self), *final(self)),
            queue_same(*old(self), *final(self)),
            panel_same(*old(self), *final(self)),
            ({
                let t = old(self).typing;
                let s = old(self).settings;
                if periodic_due(t, s, now_ms) {
                    &&& final(self).typing == (Typing { last_periodic_enter_ms: now_ms, ..t })
                    &&& enter == can_inject_enter(t, s, target_fg)
                } else {
                    !enter && final(self).typing == t
                }
            }),
    {
        if self.settings.mode != AppMode::Normal || !self.is_effectively_busy()
            || self.typing.has_input_since_enter || !self.settings.periodic_enter_enabled {
            return false;
        }
        let since = now_ms.saturating_sub(self.typing.last_periodic_enter_ms);
        proof {
            lemma_div_threshold(since, self.settings.periodic_enter_interval);
        }
        if since / 1000 < self.settings.periodic_enter_interval {
            return false;
        }
        let enter = !self.typing.enter_injected_this_frame && self.settings.armed && target_fg
            == Some(true);
        self.typing.last_periodic_enter_ms = now_ms;
        enter
    }

    /// Report an automatic Enter. On success it is counted and previewed, clears the error,
    /// ends the input since Enter, and blocks a second Enter in the same frame; an idle Enter
    /// also makes the chime pending when chimes are enabled.
    pub fn on_enter_result(&mut self, result: Result<(), String>, reason: EnterReason)
        requires
            wf(*old(self)),
        ensures
            wf(*final(self)),
            final(self).settings == old(self).settings,
            collect_same(*old(self), *final(self)),
            final(self).delay_buffer == old(self).delay_buffer,
            final(self).packet_count == old(self).packet_count,
            match result {
                Ok(()) => {
                    &&& final(self).inject_count == add64(old(self).inject_count, 1)
                    &&& final(self).error is None
                    &&& final(self).key_preview@ == with_preview(
                        old(self).key_preview@,
                        KeyPreview::AutoEnter,
                    )
                    &&& final(self).typing == (Typing {
                        enter_injected_this_frame: true,
                        has_input_since_enter: false,
                        chime_pending: old(self).typing.chime_pending || (reason == EnterReason::Idle
                            && old(self).settings.validation_tone_enabled),
                        ..old(self).typing
                    })
                    &&& final(self).status@ == if reason == EnterReason::Idle {
                        "Auto-enter injected (idle timeout)"@
                    } else {
                        "Periodic auto-enter injected (busy)"@
                    }
                },
                Err(e) => {
                    &&& final(self).error == Some(e)
                    &&& final(self).inject_count == old(self).inject_count
                    &&& final(self).key_preview == old(self).key_preview
                    &&& final(self).typing == old(self).typing
                    &&& final(self).status == old(self).status
                },
            },
    {
        match result {
            Ok(()) => {
                self.inject_count = self.inject_count.saturating_add(1);
                self.error = None;
                self.typing.enter_injected_this_frame = true;
                self.push_preview(KeyPreview::AutoEnter);
                self.typing.has_input_since_enter = false;
                match reason {
                    EnterReason::Idle => {
                        self.status = String::from_str("Auto-enter injected (idle timeout)");
                        if self.settings.validation_tone_enabled {
                            self.typing.chime_pending = true;
                        }
                    },
                    EnterReason::Periodic => {
                        self.status = String::from_str("Periodic auto-enter injected (busy)");
                    },
                }
            },
            Err(e) => {
                self.error = Some(e);
            },
        }
    }
}

/// The state reset shared by a mode change and a manual reset: the sequence, its timers and
/// the idle-transition grace period are cleared.
pub open spec fn sequence_reset(t: Typing) -> Typing {
    Typing {
        last_input_ms: None,
        has_input_since_enter: false,
        text_char_count: 0,
        idle_char_count: 0,
        treat_dispense_at: None,
        busy_backspace_at: None,
        idle_transition_at: None,
        validation_tone_played: false,
        chime_pending: false,
        ..t
    }
}

/// The recent-prompt list after saving `p`, dropping the oldest beyond the limit.
pub open spec fn with_recent(r: Seq<String>, p: String) -> Seq<String> {
    if r.len() + 1 > RECENT_PROMPTS_SHOWN {
        r.push(p).drop_first()
    } else {
        r.push(p)
    }
}

impl DogkbdApp {
    /// The save check of Collect mode: a non-empty prompt idle long enough (see
    /// [`collect_save_due`]) is handed out for saving, as its sequence number in the file and
    /// its text, and the idle timer is cleared. The caller appends it to the file and
    /// reports with [`DogkbdApp::on_prompt_saved`]. Shorter prompts keep accumulating.
    pub fn check_collect_timeout(&mut self, now_ms: u64) -> (save: Option<(u64, String)>)
        ensures
            final(self).settings == old(self).settings,
            collect_same(*old(self), *final(self)),
            queue_same(*old(self), *final(self)),
            panel_same(*old(self), *final(self)),
            ({
                let t = old(self).typing;
                let due = old(self).settings.mode == AppMode::Collect && t.last_input_ms is Some
                    && old(self).current_prompt@.len() > 0 && collect_save_due(
                    old(self).current_prompt@.len() as int,
                    elapsed(now_ms, t.last_input_ms->Some_0),
                );
                if due {
                    &&& save is Some
                    &&& save->Some_0.0 == add64(old(self).collected_count, 1)
                    &&& save->Some_0.1@ == old(self).current_prompt@
                    &&& final(self).typing == (Typing { last_input_ms: None, ..t })
                } else {
                    save is None && final(self).typing == t
                }
            }),
    {
        if self.settings.mode != AppMode::Collect {
            return None;
        }
        let last = match self.typing.last_input_ms {
            Some(t) => t,
            None => {
                return None;
            },
        };
        let len = self.current_prompt.as_str().unicode_len();
        if len == 0 {
            return None;
        }
        let idle = now_ms.saturating_sub(last);
        let save = (len >= COLLECT_LONG_CHARS && idle >= COLLECT_IDLE_SHORT_SECS * 1000) || (len
            >= COLLECT_MIN_CHARS && idle >= COLLECT_IDLE_LONG_SECS * 1000);
        if !save {
            return None;
        }
        self.typing.last_input_ms = None;
        Some((self.collected_count.saturating_add(1), self.current_prompt.clone()))
    }

    /// Report saving the prompt handed out by [`DogkbdApp::check_collect_timeout`]. On
    /// success it is counted, moved to the recent list, and the prompt restarts empty; on
    /// failure the prompt is kept so nothing is lost, and the error says why.
    pub fn on_prompt_saved(&mut self, result: Result<(), SaveError>)
        requires
            wf(*old(self)),
        ensures
            wf(*final(self)),
            final(self).settings == old(self).settings,
            final(self).typing == old(self).typing,
            queue_same(*old(self), *final(self)),
            final(self).key_preview == old(self).key_preview,
            final(self).collect_path == old(self).collect_path,
            final(self).collect_target == old(self).collect_target,
            match result {
                Ok(()) => {
                    &&& final(self).collected_count == add64(old(self).collected_count, 1)
                    &&& final(self).error is None
                    &&& final(self).current_prompt@ == Seq::<char>::empty()
                    &&& final(self).recent_prompts@ == with_recent(
                        old(self).recent_prompts@,
                        old(self).current_prompt,
                    )
                    &&& final(self).status@ == "Collected "@ + decimal(
                        final(self).collected_count as nat,
                    ) + " prompt(s)"@
                },
                Err(e) => {
                    &&& final(self).collected_count == old(self).collected_count
                    &&& final(self).current_prompt == old(self).current_prompt
                    &&& final(self).recent_prompts == old(self).recent_prompts
                    &&& final(self).status == old(self).status
                    &&& final(self).error is Some
                    &&& final(self).error->Some_0@ == match e {
                        SaveError::Serialize(m) => "Prompt serialize failed: "@ + m@,
                        SaveError::Write(m) => "Save failed ("@ + old(self).collect_path@ + "): "@
                            + m@,
                    }
                },
            },
    {
        match result {
            Ok(()) => {
                self.collected_count = self.collected_count.saturating_add(1);
                self.error = None;
                let mut text = String::new();
                std::mem::swap(&mut text, &mut self.current_prompt);
                self.recent_prompts.push_back(text);
                if self.recent_prompts.len() > RECENT_PROMPTS_SHOWN {
                    self.recent_prompts.pop_front();
                }
                assert(self.recent_prompts@ =~= with_recent(
                    old(self).recent_prompts@,
                    old(self).current_prompt,
                ));
                let mut status = String::from_str("Collected ");
                push_decimal(&mut status, self.collected_count);
                status.append(" prompt(s)");
                self.status = status;
            },
            Err(SaveError::Serialize(m)) => {
                let mut msg = String::from_str("Prompt serialize failed: ");
                msg.append(m.as_str());
                self.error = Some(msg);
            },
            Err(SaveError::Write(m)) => {
                let mut msg = String::from_str("Save failed (");
                msg.append(self.collect_path.as_str());
                msg.append("): ");
                msg.append(m.as_str());
                self.error = Some(msg);
            },
        }
    }

    /// Arm or disarm injection.
    pub fn toggle_arm(&mut self)
        ensures
            final(self).settings == (Settings { armed: !old(self).settings.armed, ..old(self).settings }),
            final(self).status@ == if final(self).settings.armed {
                "Armed - keys will be injected"@
            } else {
                "Disarmed - keys will not be injected"@
            },
            final(self).typing == old(self).typing,
            collect_same(*old(self), *final(self)),
            queue_same(*old(self), *final(self)),
            final(self).key_preview == old(self).key_preview,
            final(self).error == old(self).error,
    {
        self.settings.armed = !self.settings.armed;
        self.status = if self.settings.armed {
            String::from_str("Armed - keys will be injected")
        } else {
            String::from_str("Disarmed - keys will not be injected")
        };
    }

    /// Manual reset: the sequence, the treat flags, the timers and the preview are cleared.
    pub fn reset(&mut self, now_ms: u64)
        ensures
            final(self).typing == (Typing {
                treat_dispensed_this_idle: false,
                last_periodic_enter_ms: now_ms,
                ..sequence_reset(old(self).typing)
            }),
            final(self).key_preview@ == Seq::<KeyPreview>::empty(),
            final(self).status@ == "State reset"@,
            final(self).settings == old(self).settings,
            collect_same(*old(self), *final(self)),
            queue_same(*old(self), *final(self)),
            final(self).error == old(self).error,
    {
        self.typing.text_char_count = 0;
        self.typing.idle_char_count = 0;
        self.typing.validation_tone_played = false;
        self.typing.treat_dispensed_this_idle = false;
        self.typing.chime_pending = false;
        self.typing.has_input_since_enter = false;
        self.typing.last_input_ms = None;
        self.typing.last_periodic_enter_ms = now_ms;
        self.typing.treat_dispense_at = None;
        self.typing.busy_backspace_at = None;
        self.typing.idle_transition_at = None;
        self.key_preview.clear();
        self.status = String::from_str("State reset");
    }

    /// Switch mode. A change clears the prompt, the preview and the sequence; entering
    /// Collect mode counts the prompts already in the output file (`existing` is its
    /// contents, `None` when it cannot be read) and clears the recent list.
    pub fn set_mode(&mut self, mode: AppMode, existing: Option<&str>)
        ensures
            final(self).settings == (Settings { mode, ..old(self).settings }),
            queue_same(*old(self), *final(self)),
            final(self).error == old(self).error,
            final(self).collect_path == old(self).collect_path,
            final(self).collect_target == old(self).collect_target,
            mode == old(self).settings.mode ==> final(self).typing == old(self).typing
                && collect_same(*old(self), *final(self)) && final(self).key_preview == old(
                self,
            ).key_preview && final(self).status == old(self).status,
            mode != old(self).settings.mode ==> {
                &&& final(self).typing == sequence_reset(old(self).typing)
                &&& final(self).current_prompt@ == Seq::<char>::empty()
                &&& final(self).key_preview@ == Seq::<KeyPreview>::empty()
                &&& if mode == AppMode::Collect {
                    let n: nat = match existing {
                        Some(text) => nonblank_line_count(text@),
                        None => 0,
                    };
                    &&& final(self).collected_count == n
                    &&& final(self).recent_prompts@ == Seq::<String>::empty()
                    &&& final(self).status@ == "Collect mode — "@ + decimal(n) + " prompt(s) already in "@
                        + old(self).collect_path@
                } else {
                    &&& final(self).collected_count == old(self).collected_count
                    &&& final(self).recent_prompts == old(self).recent_prompts
                    &&& final(self).status@ == "Normal mode"@
                }
            },
    {
        if mode == self.settings.mode {
            return;
        }
        self.settings.mode = mode;
        self.current_prompt = String::new();
        self.key_preview.clear();
        self.typing.last_input_ms = None;
        self.typing.has_input_since_enter = false;
        self.typing.text_char_count = 0;
        self.typing.idle_char_count = 0;
        self.typing.treat_dispense_at = None;
        self.typing.busy_backspace_at = None;
        self.typing.idle_transition_at = None;
        self.typing.validation_tone_played = false;
        self.typing.chime_pending = false;
        match mode {
            AppMode::Collect => {
                self.collected_count = match existing {
                    Some(text) => count_nonblank_lines(text),
                    None => 0,
                };
                self.recent_prompts.clear();
                let mut status = String::from_str("Collect mode — ");
                push_decimal(&mut status, self.collected_count);
                status.append(" prompt(s) already in ");
                status.append(self.collect_path.as_str());
                self.status = status;
            },
            AppMode::Normal => {
                self.status = String::from_str("Normal mode");
            },
        }
    }

    /// Change the output file; the count is re-read from its contents (`None` when it cannot
    /// be read counts as empty).
    pub fn set_collect_path(&mut self, path: String, existing: Option<&str>)
        ensures
            final(self).collect_path == path,
            final(self).collected_count == match existing {
                Some(text) => nonblank_line_count(text@),
                None => 0,
            },
            final(self).settings == old(self).settings,
            final(self).typing == old(self).typing,
            queue_same(*old(self), *final(self)),
            panel_same(*old(self), *final(self)),
            final(self).current_prompt == old(self).current_prompt,
            final(self).collect_target == old(self).collect_target,
            final(self).recent_prompts == old(self).recent_prompts,
    {
        self.collect_path = path;
        self.collected_count = match existing {
            Some(text) => count_nonblank_lines(text),
            None => 0,
        };
    }

    /// Turn the chime on or off; turning it on restarts the sequence counting.
    pub fn set_validation_tone_enabled(&mut self, enabled: bool)
        ensures
            final(self).settings == (Settings { validation_tone_enabled: enabled, ..old(self).settings }),
            final(self).typing == if enabled && !old(self).settings.validation_tone_enabled {
                Typing {
                    text_char_count: 0,
                    idle_char_count: 0,
                    validation_tone_played: false,
                    chime_pending: false,
                    ..old(self).typing
                }
            } else {
                old(self).typing
            },
            collect_same(*old(self), *final(self)),
            queue_same(*old(self), *final(self)),
            panel_same(*old(self), *final(self)),
    {
        if enabled && !self.settings.validation_tone_enabled {
            self.typing.text_char_count = 0;
            self.typing.idle_char_count = 0;
            self.typing.validation_tone_played = false;
            self.typing.chime_pending = false;
        }
        self.settings.validation_tone_enabled = enabled;
    }

    /// Turn the periodic auto-enter on or off; turning it on restarts its timer.
    pub fn set_periodic_enter_enabled(&mut self, enabled: bool, now_ms: u64)
        ensures
            final(self).settings == (Settings { periodic_enter_enabled: enabled, ..old(self).settings }),
            final(self).typing == if enabled && !old(self).settings.periodic_enter_enabled {
                Typing { last_periodic_enter_ms: now_ms, ..old(self).typing }
            } else {
                old(self).typing
            },
            collect_same(*old(self), *final(self)),
            queue_same(*old(self), *final(self)),
            panel_same(*old(self), *final(self)),
    {
        if enabled && !self.settings.periodic_enter_enabled {
            self.typing.last_periodic_enter_ms = now_ms;
        }
        self.settings.periodic_enter_enabled = enabled;
    }

    /// Change the periodic interval (seconds); a change restarts the timer.
    pub fn set_periodic_enter_interval(&mut self, secs: u64, now_ms: u64)
        ensures
            final(self).settings == (Settings { periodic_enter_interval: secs, ..old(self).settings }),
            final(self).typing == if secs != old(self).settings.periodic_enter_interval {
                Typing { last_periodic_enter_ms: now_ms, ..old(self).typing }
            } else {
                old(self).typing
            },
            collect_same(*old(self), *final(self)),
            queue_same(*old(self), *final(self)),
            panel_same(*old(self), *final(self)),
    {
        if secs != self.settings.periodic_enter_interval {
            self.typing.last_periodic_enter_ms = now_ms;
        }
        self.settings.periodic_enter_interval = secs;
    }
}

/// When a prompt of `len` characters will be saved, as shown in the panel.
pub open spec fn save_hint_text(len: int) -> Seq<char> {
    if len >= COLLECT_LONG_CHARS {
        "saves after "@ + decimal(COLLECT_IDLE_SHORT_SECS as nat) + "s idle"@
    } else if len >= COLLECT_MIN_CHARS {
        "saves after "@ + decimal(COLLECT_IDLE_LONG_SECS as nat) + "s idle"@
    } else {
        "needs "@ + decimal(COLLECT_MIN_CHARS as nat) + "+ chars to save"@
    }
}

/// When a prompt of `len` characters will be saved, as shown in the panel.
pub fn save_hint(len: usize) -> (s: String)
    ensures
        s@ == save_hint_text(len as int),
{
    if len >= COLLECT_LONG_CHARS {
        let mut s = String::from_str("saves after ");
        push_decimal(&mut s, COLLECT_IDLE_SHORT_SECS);
        s.append("s idle");
        s
    } else if len >= COLLECT_MIN_CHARS {
        let mut s = String::from_str("saves after ");
        push_decimal(&mut s, COLLECT_IDLE_LONG_SECS);
        s.append("s idle");
        s
    } else {
        let mut s = String::from_str("needs ");
        push_decimal(&mut s, COLLECT_MIN_CHARS as u64);
        s.append("+ chars to save");
        s
    }
}

/// Collect mode only records: neither the idle auto-enter, the periodic auto-enter nor the
/// busy backspace is ever due in it.
pub proof fn lemma_collect_never_injects(t: Typing, s: Settings, now: u64)
    requires
        s.mode == AppMode::Collect,
    ensures
        !idle_timeout_due(t, s, now),
        !periodic_due(t, s, now),
{
}

/// A disarmed panel never asks for an automatic Enter.
pub proof fn lemma_disarmed_no_enter(t: Typing, s: Settings, target_fg: Option<bool>)
    requires
        !s.armed,
    ensures
        !can_inject_enter(t, s, target_fg),
{
}

/// A treat is only scheduled by typing when the sequence has at least
/// [`VALIDATION_CHAR_THRESHOLD`] text characters, at least [`IDLE_CHAR_THRESHOLD`] of them
/// typed while the assistant was idle, the panel is armed and the assistant is idle; and
/// once a treat was dispensed in an idle period, typing schedules no other.
pub proof fn lemma_treat_rules(t: Typing, armed: bool, p: KeyPreview, now: u64)
    ensures
        counted(t, armed, p, now).treat_dispense_at != t.treat_dispense_at ==> {
            &&& counted(t, armed, p, now).text_char_count >= VALIDATION_CHAR_THRESHOLD
            &&& counted(t, armed, p, now).idle_char_count >= IDLE_CHAR_THRESHOLD
            &&& armed
            &&& !effectively_busy(t)
        },
        t.treat_dispensed_this_idle ==> counted(t, armed, p, now).treat_dispense_at
            == t.treat_dispense_at && counted(t, armed, p, now).treat_dispensed_this_idle,
{
}

/// The idle auto-enter submits only sequences with at least [`VALIDATION_CHAR_THRESHOLD`]
/// text characters of which at least [`IDLE_CHAR_THRESHOLD`] were typed while the assistant
/// was idle.
pub proof fn lemma_auto_enter_thresholds(t: Typing, s: Settings)
    requires
        submit_ready(t, s),
    ensures
        t.text_char_count >= VALIDATION_CHAR_THRESHOLD,
        t.idle_char_count >= IDLE_CHAR_THRESHOLD,
{
}

/// Collected prompts under [`COLLECT_MIN_CHARS`] characters are never saved on idle, however
/// long the pause: they keep accumulating.
pub proof fn lemma_short_prompts_kept(len: int, idle: int)
    requires
        len < COLLECT_MIN_CHARS,
    ensures
        !collect_save_due(len, idle),
{
}

/// A confirmed busy-to-idle transition (Normal mode, the grace period over, the assistant
/// still idle) starts a fresh idle period: treat tracking is reset so a treat can be earned
/// again, the busy backspace and the grace period are cleared, the periodic timer restarts
/// at `now`, the target is focused, and the chime plays when chimes are enabled.
pub proof fn lemma_confirmed_idle_resets_treat(t: Typing, s: Settings, now: u64)
    requires
        s.mode == AppMode::Normal,
        t.idle_transition_at is Some,
        now >= t.idle_transition_at->Some_0,
    ensures
        !framed(t, s, now, false).0.treat_dispensed_this_idle,
        framed(t, s, now, false).0.busy_backspace_at is None,
        framed(t, s, now, false).0.idle_transition_at is None,
        !effectively_busy(framed(t, s, now, false).0),
        framed(t, s, now, false).0.last_periodic_enter_ms == now,
        framed(t, s, now, false).1.focus_target,
        framed(t, s, now, false).1.play_chime == s.validation_tone_enabled,
        framed(t, s, now, false).0.treat_dispense_at == t.treat_dispense_at,
        framed(t, s, now, false).0.text_char_count == t.text_char_count,
        framed(t, s, now, false).0.idle_char_count == t.idle_char_count,
{
}

/// The periodic Enter never submits buffered text: while there has been input since the
/// last Enter it is never due (so the check asks for no Enter and changes nothing), and it
/// is only ever due in Normal mode while the assistant is effectively busy.
pub proof fn lemma_no_periodic_enter_over_text(t: Typing, s: Settings, now: u64)
    ensures
        t.has_input_since_enter ==> !periodic_due(t, s, now),
        periodic_due(t, s, now) ==> s.mode == AppMode::Normal && effectively_busy(t)
            && s.periodic_enter_enabled,
{
}

/// Characters typed while the assistant is effectively busy (busy, or in the grace period
/// after it) never count as typed while idle, and schedule no treat; while it is idle, a
/// text character adds one to both counts and Backspace takes one from both (not below
/// zero). Keys that are neither leave both counts alone.
pub proof fn lemma_idle_chars_only_while_idle(t: Typing, armed: bool, p: KeyPreview, now: u64)
    ensures
        effectively_busy(t) ==> counted(t, armed, p, now).idle_char_count == t.idle_char_count
            && counted(t, armed, p, now).treat_dispense_at == t.treat_dispense_at,
        !effectively_busy(t) && is_text(p) && t.idle_char_count < usize::MAX ==> counted(
            t,
            armed,
            p,
            now,
        ).idle_char_count == t.idle_char_count + 1,
        !effectively_busy(t) && p is Backspace && t.idle_char_count > 0 ==> counted(
            t,
            armed,
            p,
            now,
        ).idle_char_count == t.idle_char_count - 1,
        is_text(p) && t.text_char_count < usize::MAX ==> counted(t, armed, p, now).text_char_count
            == t.text_char_count + 1,
        !is_text(p) && !(p is Backspace) ==> counted(t, armed, p, now).idle_char_count
            == t.idle_char_count && counted(t, armed, p, now).text_char_count
            == t.text_char_count,
{
}

} // verus!
