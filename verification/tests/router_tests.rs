use dogkbd::burst::{Burst, BURST_IDLE_MS, BURST_MAX};
use dogkbd::proto::KeyTap;
use dogkbd::router::{decode_buffer, RouteTable};

fn tap(hid: u8) -> KeyTap {
    KeyTap::new(1, 0, 0, hid)
}

#[test]
fn auto_prefers_higher_priority_eligible() {
    let t = RouteTable::default_exhibit();
    let (choice, _) = t.choose_route();
    assert_eq!(choice.as_deref(), Some("trophy"));
}

#[test]
fn game_wins_once_ready() {
    let mut t = RouteTable::default_exhibit();
    t.set_status("game", Some(false), Some(true));
    let (choice, _) = t.choose_route();
    assert_eq!(choice.as_deref(), Some("game"));
}

#[test]
fn busy_routes_are_skipped() {
    let mut t = RouteTable::default_exhibit();
    t.set_status("game", Some(true), Some(true));
    t.set_status("trophy", Some(true), None);
    let (choice, reason) = t.choose_route();
    assert!(choice.is_none());
    assert!(reason.contains("no eligible"));
}

#[test]
fn pin_overrides_priority() {
    let mut t = RouteTable::default_exhibit();
    t.set_status("game", Some(false), Some(true));
    t.override_active = Some("trophy".into());
    let (choice, _) = t.choose_route();
    assert_eq!(choice.as_deref(), Some("trophy"));
}

#[test]
fn pinned_busy_route_holds() {
    let mut t = RouteTable::default_exhibit();
    t.override_active = Some("trophy".into());
    t.set_status("trophy", Some(true), None);
    let (choice, reason) = t.choose_route();
    assert!(choice.is_none());
    assert!(reason.contains("busy"));
}

#[test]
fn disabled_holds_everything() {
    let mut t = RouteTable::default_exhibit();
    t.enabled = false;
    let (choice, _) = t.choose_route();
    assert!(choice.is_none());
}

#[test]
fn decode_buffer_builds_text() {
    let taps = vec![tap(0x04), tap(0x2c), tap(0x05), tap(0x28)];
    assert_eq!(decode_buffer(&taps), "a b");
}

#[test]
fn unknown_status_route_is_ignored() {
    let mut t = RouteTable::default_exhibit();
    assert!(!t.set_status("nope", Some(true), None));
}

// --- beyond the original suite ---

#[test]
fn reasons_are_exact() {
    let mut t = RouteTable::default_exhibit();
    assert_eq!(t.choose_route().1, "auto: trophy eligible");
    t.override_active = Some("trophy".into());
    assert_eq!(t.choose_route().1, "pinned to trophy");
    t.override_active = Some("game".into());
    assert_eq!(t.choose_route(), (None, "waiting: pinned game is busy/not-ready".to_string()));
    t.override_active = Some("nope".into());
    assert_eq!(t.choose_route(), (None, "pinned route nope unknown".to_string()));
    t.enabled = false;
    assert_eq!(t.choose_route(), (None, "routing disabled".to_string()));
    let mut t = RouteTable::default_exhibit();
    t.set_status("trophy", Some(true), None);
    assert_eq!(t.choose_route(), (None, "waiting: no eligible route".to_string()));
}

#[test]
fn equal_priorities_pick_the_last() {
    let mut t = RouteTable::default_exhibit();
    t.routes[0].priority = 10;
    t.set_status("game", None, Some(true));
    assert_eq!(t.choose_route().0.as_deref(), Some("trophy"));
    t.routes.swap(0, 1);
    assert_eq!(t.choose_route().0.as_deref(), Some("game"));
}

#[test]
fn set_status_touches_only_given_flags() {
    let mut t = RouteTable::default_exhibit();
    assert!(t.set_status("game", None, Some(true)));
    assert!(!t.routes[0].busy);
    assert!(t.routes[0].ready);
    assert!(t.set_status("game", Some(true), None));
    assert!(t.routes[0].busy);
    assert!(t.routes[0].ready);
    assert!(!t.routes[1].busy);
}

#[test]
fn lookups_and_infos() {
    let t = RouteTable::default_exhibit();
    assert_eq!(t.window_match_for("trophy").as_deref(), Some("trophy_factory"));
    assert_eq!(t.window_match_for("nope"), None);
    assert_eq!(t.get("game").map(|r| r.priority), Some(20));
    let infos = t.info_list();
    assert_eq!(infos.len(), 2);
    assert_eq!(infos[0].id, "game");
    assert_eq!(infos[0].label, "Tea Leaves (game)");
    assert!(!infos[0].ready);
    assert_eq!(infos[1].id, "trophy");
    assert!(infos[1].ready);
}

#[test]
fn decode_buffer_skips_unprintable_and_shifts() {
    let taps = vec![KeyTap::new(1, 0, 1, 0x0b), tap(0x08), tap(0x29), tap(0x2c), KeyTap::new(1, 0, 1, 0x1e)];
    assert_eq!(decode_buffer(&taps), "He !");
    assert_eq!(decode_buffer(&[]), "");
}

#[test]
fn burst_dispatches_on_enter() {
    let table = RouteTable::default_exhibit();
    let mut b = Burst::new();
    let s1 = b.on_tap(tap(0x04), 1000, &table);
    assert_eq!(s1.buffer_changed.as_ref().map(|(t, n)| (t.as_str(), *n)), Some(("a", 1)));
    assert!(s1.decision.is_none() && s1.dispatch.is_none());
    let s2 = b.on_tap(tap(0x28), 1100, &table);
    assert!(s2.buffer_changed.is_none());
    let d = s2.decision.expect("decision");
    assert_eq!(d.route.as_deref(), Some("trophy"));
    assert_eq!(d.reason, "auto: trophy eligible");
    assert_eq!(d.candidates.len(), 2);
    let (route, taps) = s2.dispatch.expect("dispatch");
    assert_eq!(route, "trophy");
    assert_eq!(taps, vec![tap(0x04)]);
    // Nothing left to send: a later idle tick does nothing.
    let s3 = b.on_idle(1100 + BURST_IDLE_MS * 2, &table);
    assert!(s3.decision.is_none() && s3.dispatch.is_none());
}

#[test]
fn burst_holds_when_no_route_and_announces_once() {
    let mut table = RouteTable::default_exhibit();
    table.set_status("trophy", Some(true), None);
    let mut b = Burst::new();
    b.on_tap(tap(0x04), 0, &table);
    let s = b.on_tap(tap(0x28), 10, &table);
    let d = s.decision.expect("waiting is announced");
    assert!(d.route.is_none());
    assert_eq!(d.reason, "waiting: no eligible route");
    assert!(s.dispatch.is_none());
    // Second boundary while still waiting: held silently.
    let s = b.on_tap(tap(0x28), 20, &table);
    assert!(s.decision.is_none() && s.dispatch.is_none());
    // The route frees up: the held burst goes out on the idle tick.
    table.set_status("trophy", Some(false), None);
    let s = b.on_idle(10 + BURST_IDLE_MS, &table);
    assert_eq!(s.dispatch.map(|(r, t)| (r, t.len())), Some(("trophy".to_string(), 1)));
}

#[test]
fn burst_idle_gap_and_max() {
    let table = RouteTable::default_exhibit();
    let mut b = Burst::new();
    b.on_tap(tap(0x05), 100, &table);
    assert!(b.on_idle(100 + BURST_IDLE_MS - 1, &table).dispatch.is_none());
    assert!(b.on_idle(100 + BURST_IDLE_MS, &table).dispatch.is_some());

    let mut b = Burst::new();
    for i in 0..BURST_MAX - 1 {
        assert!(b.on_tap(tap(0x06), i as u64, &table).dispatch.is_none());
    }
    let s = b.on_tap(tap(0x06), 999, &table);
    assert_eq!(s.dispatch.map(|(_, t)| t.len()), Some(BURST_MAX));
}

#[test]
fn burst_run_loses_and_reorders_nothing() {
    let mut table = RouteTable::default_exhibit();
    table.set_status("trophy", Some(true), None);
    let mut b = Burst::new();
    let mut sent: Vec<KeyTap> = Vec::new();
    let input = [0x04u8, 0x05, 0x28, 0x06, 0x28, 0x2c, 0x07];
    for (i, &h) in input.iter().enumerate() {
        if i == 4 {
            // The route frees up before the second Enter.
            table.set_status("trophy", Some(false), None);
        }
        let t = KeyTap::new(1, i as u32, 0, h);
        if let Some((_, taps)) = b.on_tap(t, 10 * i as u64, &table).dispatch {
            assert!(taps.iter().all(|t| t.hid_code != 0x28));
            sent.extend(taps);
        }
    }
    if let Some((_, taps)) = b.on_idle(60 + BURST_IDLE_MS, &table).dispatch {
        sent.extend(taps);
    }
    let expected: Vec<KeyTap> = input
        .iter()
        .enumerate()
        .filter(|(_, &h)| h != 0x28)
        .map(|(i, &h)| KeyTap::new(1, i as u32, 0, h))
        .collect();
    assert_eq!(sent, expected);
}
