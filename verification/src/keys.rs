//! What the receiver shows for each received key.

use vstd::prelude::*;
use crate::proto::{hid_to_us_ansi_char, us_ansi_char, shift_held, KeyTap, HID_ENTER,
    HID_BACKSPACE, HID_SPACE};
use crate::text::char_string;

verus! {

/// Preview representation of a key event for display.
#[derive(Debug, Clone, Copy, PartialEq, Eq, Structural)]
pub enum KeyPreview {
    /// A printable character.
    Char(char),
    /// Enter key (from the keyboard).
    Enter,
    /// Enter injected automatically (idle timeout or periodic timer).
    AutoEnter,
    /// Backspace key.
    Backspace,
    /// Space key (separate for visibility in the preview).
    Space,
}

/// The preview of a key tap: Enter, Backspace and Space by name, other keys by the
/// character they print, and nothing for keys that print none.
pub open spec fn preview_of(tap: KeyTap) -> Option<KeyPreview> {
    if tap.hid_code == HID_ENTER {
        Some(KeyPreview::Enter)
    } else if tap.hid_code == HID_BACKSPACE {
        Some(KeyPreview::Backspace)
    } else if tap.hid_code == HID_SPACE {
        Some(KeyPreview::Space)
    } else {
        match us_ansi_char(tap.hid_code, shift_held(tap.mods)) {
            Some(c) => Some(KeyPreview::Char(c)),
            None => None,
        }
    }
}

/// The text shown for a preview.
pub open spec fn preview_text(p: KeyPreview) -> Seq<char> {
    match p {
        KeyPreview::Char(c) => seq![c],
        KeyPreview::Enter => "[Enter]"@,
        KeyPreview::AutoEnter => "[Auto-Enter]"@,
        KeyPreview::Backspace => "[Backspace]"@,
        KeyPreview::Space => " "@,
    }
}

/// Whether a preview counts as typed text (a character or a space).
pub open spec fn is_text(p: KeyPreview) -> bool {
    p is Char || p is Space
}

impl KeyPreview {
    /// Convert a key tap to a preview.
    pub fn from_tap(tap: &KeyTap) -> (p: Option<Self>)
        ensures
            p == preview_of(*tap),
    {
        if tap.hid_code == HID_ENTER {
            Some(KeyPreview::Enter)
        } else if tap.hid_code == HID_BACKSPACE {
            Some(KeyPreview::Backspace)
        } else if tap.hid_code == HID_SPACE {
            Some(KeyPreview::Space)
        } else {
            match hid_to_us_ansi_char(tap.hid_code, tap.shift()) {
                Some(c) => Some(KeyPreview::Char(c)),
                None => None,
            }
        }
    }

    /// The display string of the key.
    pub fn display(&self) -> (s: String)
        ensures
            s@ == preview_text(*self),
    {
        match self {
            KeyPreview::Char(c) => char_string(*c),
            KeyPreview::Enter => String::from_str("[Enter]"),
            KeyPreview::AutoEnter => String::from_str("[Auto-Enter]"),
            KeyPreview::Backspace => String::from_str("[Backspace]"),
            KeyPreview::Space => String::from_str(" "),
        }
    }
}

/// An automatically injected Enter is shown differently from a typed one.
pub proof fn lemma_auto_enter_distinct()
    ensures
        preview_text(KeyPreview::AutoEnter) != preview_text(KeyPreview::Enter),
{
    reveal_strlit("[Auto-Enter]");
    reveal_strlit("[Enter]");
    assert(preview_text(KeyPreview::AutoEnter).len() != preview_text(KeyPreview::Enter).len());
}

} // verus!
