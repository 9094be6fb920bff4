//! The exhibit display's side of the telemetry channel: de-duplicating the duplicate-sent
//! events, and the snapshot replayed to a freshly connected screen.

use vstd::prelude::*;
use std::collections::HashMap;

verus! {

/// An event is new when its router run has no earlier event, or its sequence number is
/// strictly greater than the highest one seen for that run.
pub open spec fn is_new_event(last: Map<u32, u64>, run_id: u32, seq: u64) -> bool {
    !last.contains_key(run_id) || seq > last[run_id]
}

/// Highest sequence number seen per router run.
pub struct EventDedup {
    last_seq: HashMap<u32, u64>,
}

impl View for EventDedup {
    type V = Map<u32, u64>;

    closed spec fn view(&self) -> Map<u32, u64> {
        self.last_seq@
    }
}

impl EventDedup {
    /// No run seen yet.
    pub fn new() -> (d: Self)
        ensures
            d@ == Map::<u32, u64>::empty(),
    {
        EventDedup { last_seq: HashMap::new() }
    }

    /// Accept an event only when it is newer than everything seen for its run; an accepted
    /// event's sequence number becomes the run's highest.
    pub fn accept(&mut self, run_id: u32, seq: u64) -> (accepted: bool)
        ensures
            accepted == is_new_event(old(self)@, run_id, seq),
            final(self)@ == if accepted {
                old(self)@.insert(run_id, seq)
            } else {
                old(self)@
            },
    {
        broadcast use vstd::std_specs::hash::group_hash_axioms;

        match self.last_seq.get(&run_id) {
            Some(prev) => {
                if seq <= *prev {
                    return false;
                }
            },
            None => {},
        }
        self.last_seq.insert(run_id, seq);
        true
    }
}

/// An event accepted once is never accepted again: the same `(run_id, seq)` is refused
/// right after it is accepted, as is any older event of that run.
pub proof fn lemma_event_once(last: Map<u32, u64>, run_id: u32, seq: u64, older: u64)
    requires
        is_new_event(last, run_id, seq),
        older <= seq,
    ensures
        !is_new_event(last.insert(run_id, seq), run_id, older),
{
}

/// The kind of a telemetry event, as far as the display's snapshot cares.
#[derive(Debug, Clone, Copy, PartialEq, Eq, Structural)]
pub enum EventKind {
    Hello,
    Keystroke,
    Buffer,
    Drop,
    RouteDecision,
    Dispatch,
    RouteStatus,
    Trophy,
    Game,
}

/// Latest-known event lines, replayed to a screen the moment it connects.
pub struct Snapshot {
    pub hello: Option<String>,
    pub game: Option<String>,
    pub trophy: Option<String>,
    pub buffer: Option<String>,
    pub decision: Option<String>,
}

/// The snapshot slots, in replay order.
pub open spec fn slots(s: Snapshot) -> Seq<Option<String>> {
    seq![s.hello, s.game, s.trophy, s.buffer, s.decision]
}

/// The slot an event kind is kept in: hello, game, trophy, buffer and route-decision events
/// each have one; other kinds are not kept.
pub open spec fn slot_of(kind: EventKind) -> Option<int> {
    match kind {
        EventKind::Hello => Some(0),
        EventKind::Game => Some(1),
        EventKind::Trophy => Some(2),
        EventKind::Buffer => Some(3),
        EventKind::RouteDecision => Some(4),
        _ => None,
    }
}

/// The lines held in `slots`, in order, skipping empty slots.
pub open spec fn held_lines(slots: Seq<Option<String>>) -> Seq<Seq<char>>
    decreases slots.len(),
{
    if slots.len() == 0 {
        Seq::empty()
    } else {
        let rest = held_lines(slots.drop_last());
        match slots.last() {
            Some(l) => rest.push(l@),
            None => rest,
        }
    }
}

impl Snapshot {
    /// An empty snapshot.
    pub fn new() -> (s: Self)
        ensures
            forall|i: int| 0 <= i < 5 ==> (#[trigger] slots(s)[i]) is None,
    {
        Snapshot { hello: None, game: None, trophy: None, buffer: None, decision: None }
    }

    /// Keep `line` as the latest event of its kind, if the kind is kept.
    pub fn update(&mut self, kind: EventKind, line: &str)
        ensures
            match slot_of(kind) {
                Some(k) => {
                    &&& slots(*final(self))[k] is Some
                    &&& slots(*final(self))[k]->Some_0@ == line@
                    &&& forall|i: int| 0 <= i < 5 && i != k ==> slots(*final(self))[i] == slots(
                        *old(self),
                    )[i]
                },
                None => slots(*final(self)) == slots(*old(self)),
            },
    {
        match kind {
            EventKind::Hello => self.hello = Some(String::from_str(line)),
            EventKind::Game => self.game = Some(String::from_str(line)),
            EventKind::Trophy => self.trophy = Some(String::from_str(line)),
            EventKind::Buffer => self.buffer = Some(String::from_str(line)),
            EventKind::RouteDecision => self.decision = Some(String::from_str(line)),
            _ => {},
        }
    }

    /// The lines to replay to a new screen: hello, game, trophy, buffer, decision, skipping
    /// the ones not yet seen.
    pub fn replay(&self) -> (lines: Vec<String>)
        ensures
            lines@.len() == held_lines(slots(*self)).len(),
            forall|i: int| 0 <= i < lines@.len() ==> (#[trigger] lines@[i])@ == held_lines(slots(*self))[i],
    {
        let mut lines: Vec<String> = Vec::new();
        let ghost s = slots(*self);
        proof {
            assert(s.take(0) =~= Seq::<Option<String>>::empty());
        }
        push_slot(&mut lines, &self.hello, Ghost(s), Ghost(0));
        push_slot(&mut lines, &self.game, Ghost(s), Ghost(1));
        push_slot(&mut lines, &self.trophy, Ghost(s), Ghost(2));
        push_slot(&mut lines, &self.buffer, Ghost(s), Ghost(3));
        push_slot(&mut lines, &self.decision, Ghost(s), Ghost(4));
        proof {
            assert(s.take(5) =~= s);
        }
        lines
    }
}

fn push_slot(
    lines: &mut Vec<String>,
    slot: &Option<String>,
    Ghost(s): Ghost<Seq<Option<String>>>,
    Ghost(k): Ghost<int>,
)
    requires
        0 <= k < s.len(),
        s[k] == *slot,
        old(lines)@.len() == held_lines(s.take(k)).len(),
        forall|i: int| 0 <= i < old(lines)@.len() ==> (#[trigger] old(lines)@[i])@ == held_lines(s.take(k))[i],
    ensures
        final(lines)@.len() == held_lines(s.take(k + 1)).len(),
        forall|i: int| 0 <= i < final(lines)@.len() ==> (#[trigger] final(lines)@[i])@ == held_lines(s.take(k + 1))[i],
{
    assert(s.take(k + 1).drop_last() =~= s.take(k));
    assert(s.take(k + 1).last() == s[k]);
    match slot {
        Some(l) => {
            lines.push(l.clone());
        },
        None => {},
    }
}

} // verus!
