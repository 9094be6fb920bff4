use dogkbd::display::{EventDedup, EventKind, Snapshot};
use dogkbd::listener::{classify, deliver, SeqDedup, Verdict};
use dogkbd::overlay::KeystrokeMsg;
use dogkbd::proto::{DecodeError, KeyTap};
use dogkbd::telem::{Disposition, DropReason};

#[test]
fn duplicate_send_is_accepted_once() {
    let mut d = SeqDedup::new();
    let t = KeyTap::new(5, 10, 0, 0x04);
    let p = t.encode();
    assert_eq!(classify(&p, &mut d), Verdict::Accepted(t));
    assert_eq!(classify(&p, &mut d), Verdict::Duplicate(t));
}

#[test]
fn dedup_drops_every_seq_at_or_below_last() {
    let mut d = SeqDedup::new();
    // The first packet of a device is accepted whatever its number, 0 included.
    assert!(d.accept(&KeyTap::new(1, 0, 0, 4)));
    assert!(d.accept(&KeyTap::new(1, 500, 0, 4)));
    assert!(!d.accept(&KeyTap::new(1, 500, 0, 4)));
    assert!(!d.accept(&KeyTap::new(1, 400, 0, 4)));
    assert!(!d.accept(&KeyTap::new(1, 399, 0, 4)));
    assert!(!d.accept(&KeyTap::new(1, 0, 0, 4)));
    assert!(d.accept(&KeyTap::new(1, 501, 0, 4)));
    let mut d = SeqDedup::new();
    assert!(d.accept(&KeyTap::new(2, u32::MAX, 0, 4)));
    assert!(!d.accept(&KeyTap::new(2, 0, 0, 4)));
    assert!(!d.accept(&KeyTap::new(2, u32::MAX, 0, 4)));
    // Devices are independent.
    assert!(d.accept(&KeyTap::new(3, u32::MAX, 0, 4)));
    assert!(d.accept(&KeyTap::new(4, 0, 0, 4)));
}

#[test]
fn replay_far_behind_is_not_delivered() {
    let mut d = SeqDedup::new();
    let newer = KeyTap::new(9, 300, 0, 0x04);
    let older = KeyTap::new(9, 100, 0, 0x05);
    assert_eq!(deliver(&newer.encode(), &mut d).to_router, Some(newer));
    let r = deliver(&older.encode(), &mut d);
    assert_eq!(r.verdict, Verdict::Duplicate(older));
    assert!(r.to_router.is_none() && r.to_panel.is_none() && r.overlay.is_none());
}

#[test]
fn blocked_and_malformed() {
    let mut d = SeqDedup::new();
    let esc = KeyTap::new(1, 1, 0, 0x29);
    let r = deliver(&esc.encode(), &mut d);
    assert_eq!(r.verdict, Verdict::Blocked(esc));
    assert_eq!(r.keystroke, Some((Disposition::Blocked, esc)));
    assert_eq!(r.dropped, Some((DropReason::Blocked, Some(0x29))));
    assert!(r.to_router.is_none() && r.to_panel.is_none() && r.overlay.is_none());
    // A blocked key does not advance the device's sequence.
    assert_eq!(classify(&KeyTap::new(1, 1, 0, 4).encode(), &mut d), Verdict::Accepted(KeyTap::new(1, 1, 0, 4)));
    let r = deliver(&[1, 2, 3], &mut d);
    assert_eq!(r.verdict, Verdict::Malformed(DecodeError::WrongSize(3)));
    assert!(r.keystroke.is_none());
}

#[test]
fn accepted_enter_goes_only_to_router() {
    let mut d = SeqDedup::new();
    let enter = KeyTap::new(1, 1, 0, 0x28);
    let r = deliver(&enter.encode(), &mut d);
    assert_eq!(r.keystroke, Some((Disposition::Accepted, enter)));
    assert_eq!(r.to_router, Some(enter));
    assert!(r.overlay.is_none() && r.to_panel.is_none());
    let a = KeyTap::new(1, 2, 0, 0x04);
    let r = deliver(&a.encode(), &mut d);
    assert_eq!(r.to_router, Some(a));
    assert_eq!(r.to_panel, Some(a));
    assert_eq!(r.overlay, Some(KeystrokeMsg::Char { ch: "a".to_string() }));
    let r = deliver(&a.encode(), &mut d);
    assert_eq!(r.keystroke, Some((Disposition::Dup, a)));
    assert!(r.to_router.is_none());
}

#[test]
fn display_event_dedup() {
    let mut d = EventDedup::new();
    assert!(d.accept(7, 1));
    assert!(!d.accept(7, 1));
    assert!(!d.accept(7, 0));
    assert!(d.accept(7, 2));
    assert!(d.accept(8, 0));
}

#[test]
fn snapshot_replays_in_order() {
    let mut s = Snapshot::new();
    assert!(s.replay().is_empty());
    s.update(EventKind::Buffer, "b1");
    s.update(EventKind::Hello, "h1");
    s.update(EventKind::Keystroke, "k1");
    s.update(EventKind::Buffer, "b2");
    s.update(EventKind::RouteDecision, "d1");
    assert_eq!(s.replay(), vec!["h1".to_string(), "b2".to_string(), "d1".to_string()]);
    s.update(EventKind::Game, "g1");
    s.update(EventKind::Trophy, "t1");
    assert_eq!(s.replay(), vec!["h1", "g1", "t1", "b2", "d1"]);
}
