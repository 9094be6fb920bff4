//! What the receiver does with each UDP datagram: decode, re-check the allowlist,
//! de-duplicate by sequence number per device, and decide where the key goes.

use vstd::prelude::*;
use std::collections::HashMap;
use crate::proto::{KeyTap, DecodeError, decode_result, allowed, hid_allowed, HID_ENTER};
use crate::overlay::{KeystrokeMsg, tap_to_msg, is_msg_for};
use crate::telem::{Disposition, DropReason};

verus! {

/// A packet is a duplicate (or a replay) when its device already has an accepted sequence
/// number and the new number is not greater than it.
pub open spec fn is_duplicate(seen: Map<u32, u32>, tap: KeyTap) -> bool {
    seen.contains_key(tap.device_id) && tap.seq <= seen[tap.device_id]
}

/// Per-device record of the last accepted sequence number.
pub struct SeqDedup {
    seen: HashMap<u32, u32>,
}

impl View for SeqDedup {
    type V = Map<u32, u32>;

    closed spec fn view(&self) -> Map<u32, u32> {
        self.seen@
    }
}

impl SeqDedup {
    /// No device seen yet.
    pub fn new() -> (d: Self)
        ensures
            d@ == Map::<u32, u32>::empty(),
    {
        SeqDedup { seen: HashMap::new() }
    }

    /// Accept `tap` unless it duplicates an earlier packet; an accepted tap becomes its
    /// device's last sequence number.
    pub fn accept(&mut self, tap: &KeyTap) -> (accepted: bool)
        ensures
            accepted == !is_duplicate(old(self)@, *tap),
            final(self)@ == if accepted {
                old(self)@.insert(tap.device_id, tap.seq)
            } else {
                old(self)@
            },
    {
        broadcast use vstd::std_specs::hash::group_hash_axioms;

        match self.seen.get(&tap.device_id) {
            Some(last) => {
                if tap.seq <= *last {
                    return false;
                }
            },
            None => {},
        }
        self.seen.insert(tap.device_id, tap.seq);
        true
    }
}

/// The verdict on one datagram.
#[derive(Debug, Clone, Copy, PartialEq, Eq, Structural)]
pub enum Verdict {
    /// Not a key-tap packet.
    Malformed(DecodeError),
    /// A key outside the allowlist.
    Blocked(KeyTap),
    /// A packet already seen.
    Duplicate(KeyTap),
    /// A new, allowed key.
    Accepted(KeyTap),
}

/// The verdict on `data` given the sequence numbers seen so far.
pub open spec fn verdict_of(data: Seq<u8>, seen: Map<u32, u32>) -> Verdict {
    match decode_result(data) {
        Err(e) => Verdict::Malformed(e),
        Ok(tap) => if !allowed(tap.hid_code) {
            Verdict::Blocked(tap)
        } else if is_duplicate(seen, tap) {
            Verdict::Duplicate(tap)
        } else {
            Verdict::Accepted(tap)
        },
    }
}

/// Decode a datagram, re-check the allowlist, then de-duplicate.
pub fn classify(data: &[u8], dedup: &mut SeqDedup) -> (v: Verdict)
    ensures
        v == verdict_of(data@, old(dedup)@),
        final(dedup)@ == match v {
            Verdict::Accepted(tap) => old(dedup)@.insert(tap.device_id, tap.seq),
            _ => old(dedup)@,
        },
{
    match KeyTap::decode(data) {
        Err(e) => Verdict::Malformed(e),
        Ok(tap) => {
            if !hid_allowed(tap.hid_code) {
                Verdict::Blocked(tap)
            } else if !dedup.accept(&tap) {
                Verdict::Duplicate(tap)
            } else {
                Verdict::Accepted(tap)
            }
        },
    }
}

/// Everything the receiver does with one datagram.
pub struct Delivery {
    pub verdict: Verdict,
    /// Live keystroke telemetry: the disposition and the tap.
    pub keystroke: Option<(Disposition, KeyTap)>,
    /// A drop to report: the reason and the HID code.
    pub dropped: Option<(DropReason, Option<u8>)>,
    /// The tap for the router (Enter included: it marks a burst boundary).
    pub to_router: Option<KeyTap>,
    /// The message for overlay clients.
    pub overlay: Option<KeystrokeMsg>,
    /// The tap for the control panel.
    pub to_panel: Option<KeyTap>,
}

/// Handle one datagram: malformed packets are skipped; blocked keys are reported as blocked
/// and dropped; duplicates are reported as duplicates; accepted keys are reported, go to the
/// router, and (Enter excepted) to the overlay and the control panel.
pub fn deliver(data: &[u8], dedup: &mut SeqDedup) -> (d: Delivery)
    ensures
        d.verdict == verdict_of(data@, old(dedup)@),
        final(dedup)@ == match d.verdict {
            Verdict::Accepted(tap) => old(dedup)@.insert(tap.device_id, tap.seq),
            _ => old(dedup)@,
        },
        match d.verdict {
            Verdict::Malformed(_) => d.keystroke is None && d.dropped is None && d.to_router is None
                && d.overlay is None && d.to_panel is None,
            Verdict::Blocked(tap) => d.keystroke == Some((Disposition::Blocked, tap)) && d.dropped
                == Some((DropReason::Blocked, Some(tap.hid_code))) && d.to_router is None
                && d.overlay is None && d.to_panel is None,
            Verdict::Duplicate(tap) => d.keystroke == Some((Disposition::Dup, tap)) && d.dropped is None
                && d.to_router is None && d.overlay is None && d.to_panel is None,
            Verdict::Accepted(tap) => {
                &&& d.keystroke == Some((Disposition::Accepted, tap))
                &&& d.dropped is None
                &&& d.to_router == Some(tap)
                &&& if tap.hid_code == HID_ENTER {
                    d.overlay is None && d.to_panel is None
                } else {
                    is_msg_for(d.overlay, tap) && d.to_panel == Some(tap)
                }
            },
        },
{
    let verdict = classify(data, dedup);
    match verdict {
        Verdict::Malformed(_) => Delivery {
            verdict,
            keystroke: None,
            dropped: None,
            to_router: None,
            overlay: None,
            to_panel: None,
        },
        Verdict::Blocked(tap) => Delivery {
            verdict,
            keystroke: Some((Disposition::Blocked, tap)),
            dropped: Some((DropReason::Blocked, Some(tap.hid_code))),
            to_router: None,
            overlay: None,
            to_panel: None,
        },
        Verdict::Duplicate(tap) => Delivery {
            verdict,
            keystroke: Some((Disposition::Dup, tap)),
            dropped: None,
            to_router: None,
            overlay: None,
            to_panel: None,
        },
        Verdict::Accepted(tap) => {
            if tap.hid_code == HID_ENTER {
                Delivery {
                    verdict,
                    keystroke: Some((Disposition::Accepted, tap)),
                    dropped: None,
                    to_router: Some(tap),
                    overlay: None,
                    to_panel: None,
                }
            } else {
                Delivery {
                    verdict,
                    keystroke: Some((Disposition::Accepted, tap)),
                    dropped: None,
                    to_router: Some(tap),
                    overlay: tap_to_msg(&tap),
                    to_panel: Some(tap),
                }
            }
        },
    }
}

/// A packet sent twice (duplicate-send) is accepted once: right after a tap is accepted, the
/// same tap is a duplicate.
pub proof fn lemma_duplicate_send_accepted_once(seen: Map<u32, u32>, tap: KeyTap)
    ensures
        is_duplicate(seen.insert(tap.device_id, tap.seq), tap),
{
}

/// A device's packets are accepted exactly when their sequence numbers increase: a number
/// greater than the device's last accepted one is accepted, one at or below it is dropped,
/// and a device never seen is accepted whatever its number.
pub proof fn lemma_newer_accepted(seen: Map<u32, u32>, tap: KeyTap)
    ensures
        !seen.contains_key(tap.device_id) ==> !is_duplicate(seen, tap),
        seen.contains_key(tap.device_id) ==> (is_duplicate(seen, tap) <==> tap.seq
            <= seen[tap.device_id]),
{
}

/// Once a tap is accepted, every later packet of its device at or below its sequence number
/// is dropped, however far behind.
pub proof fn lemma_replays_dropped(seen: Map<u32, u32>, tap: KeyTap, later: KeyTap)
    requires
        later.device_id == tap.device_id,
        later.seq <= tap.seq,
    ensures
        is_duplicate(seen.insert(tap.device_id, tap.seq), later),
{
}

/// Devices are de-duplicated independently: accepting a tap of one device does not change
/// whether a tap of another device is a duplicate.
pub proof fn lemma_devices_independent(seen: Map<u32, u32>, a: KeyTap, b: KeyTap)
    requires
        a.device_id != b.device_id,
    ensures
        is_duplicate(seen.insert(a.device_id, a.seq), b) == is_duplicate(seen, b),
{
    assert(seen.insert(a.device_id, a.seq).contains_key(b.device_id) == seen.contains_key(
        b.device_id,
    ));
}

/// Only allowlisted keys get through the receiver, whatever the sender put on the wire.
pub proof fn lemma_accepted_allowed(data: Seq<u8>, seen: Map<u32, u32>)
    ensures
        verdict_of(data, seen) matches Verdict::Accepted(tap) ==> allowed(tap.hid_code),
{
}

} // verus!
