//! Burst buffering: accumulate accepted keys and, at each burst boundary (Enter, a full
//! buffer, or an idle gap), ask the routing policy where the burst goes.

use vstd::prelude::*;
use vstd::string::StrSliceExecFns;
use crate::proto::{KeyTap, HID_ENTER};
use crate::router::{RouteTable, chosen, choice_reason, info_matches, decode_buffer, decoded_taps};
use crate::telem::{RouteInfo, cap_text, capped};

verus! {

/// Idle gap (milliseconds) that ends a burst.
pub const BURST_IDLE_MS: u64 = 2500;

/// Buffered taps at which a dispatch is forced.
pub const BURST_MAX: usize = 280;

/// A routing decision, reported to the display.
pub struct RouteDecision {
    /// Chosen route id, or `None` when holding.
    pub route: Option<String>,
    pub reason: String,
    /// All routes with their state at decision time.
    pub candidates: Vec<RouteInfo>,
}

/// What one step of the burst buffer asks the caller to do.
pub struct BurstStep {
    /// The buffer changed: its decoded text (capped) and the decoded length in characters.
    pub buffer_changed: Option<(String, usize)>,
    /// A routing decision to report.
    pub decision: Option<RouteDecision>,
    /// A burst to inject: the route id and the taps, in order.
    pub dispatch: Option<(String, Vec<KeyTap>)>,
}

/// The burst buffer and its timers.
pub struct Burst {
    buffer: Vec<KeyTap>,
    last_input_ms: Option<u64>,
    announced_wait: bool,
}

/// The abstract state of a burst buffer.
pub ghost struct BurstView {
    pub buffer: Seq<KeyTap>,
    pub last_input_ms: Option<u64>,
    pub announced_wait: bool,
}

impl View for Burst {
    type V = BurstView;

    closed spec fn view(&self) -> BurstView {
        BurstView {
            buffer: self.buffer@,
            last_input_ms: self.last_input_ms,
            announced_wait: self.announced_wait,
        }
    }
}

/// No Enter is ever buffered: Enter only marks a burst boundary.
pub open spec fn no_enter(buffer: Seq<KeyTap>) -> bool {
    forall|i: int| 0 <= i < buffer.len() ==> (#[trigger] buffer[i]).hid_code != HID_ENTER
}

/// `d` reports the policy's decision on table `t`.
pub open spec fn reports(d: RouteDecision, t: RouteTable) -> bool {
    &&& match chosen(t) {
        Some(i) => d.route is Some && d.route->Some_0@ == t.routes@[i].id@,
        None => d.route is None,
    }
    &&& d.reason@ == choice_reason(t)
    &&& d.candidates@.len() == t.routes@.len()
    &&& forall|k: int|
        0 <= k < d.candidates@.len() ==> info_matches(#[trigger] d.candidates@[k], t.routes@[k])
}

/// The outcome of trying to dispatch `pending` (with `announced` the one-shot waiting flag)
/// on table `t`: when the policy chooses a route the whole buffer goes there and the buffer
/// empties; otherwise the buffer is held, and the waiting decision is reported only once.
pub open spec fn attempt(
    pending: Seq<KeyTap>,
    announced: bool,
    t: RouteTable,
    step: BurstStep,
    post: BurstView,
) -> bool {
    match chosen(t) {
        Some(i) => {
            &&& step.decision is Some && reports(step.decision->Some_0, t)
            &&& step.dispatch is Some
            &&& step.dispatch->Some_0.0@ == t.routes@[i].id@
            &&& step.dispatch->Some_0.1@ == pending
            &&& post.buffer == Seq::<KeyTap>::empty()
            &&& !post.announced_wait
        },
        None => {
            &&& step.dispatch is None
            &&& post.buffer == pending
            &&& post.announced_wait
            &&& if announced {
                step.decision is None
            } else {
                step.decision is Some && reports(step.decision->Some_0, t)
            }
        },
    }
}

/// One step of the burst buffer on a tap at time `now` (see [`Burst::on_tap`]): a non-Enter
/// tap joins the buffer and the buffer change is reported; at a boundary (Enter, or a full
/// buffer) a non-empty buffer is offered to the policy on `table`; otherwise the buffer waits.
pub open spec fn tap_step(
    pre: BurstView,
    tap: KeyTap,
    now: u64,
    table: RouteTable,
    step: BurstStep,
    post: BurstView,
) -> bool {
    let is_enter = tap.hid_code == HID_ENTER;
    let pending = if is_enter {
        pre.buffer
    } else {
        pre.buffer.push(tap)
    };
    let announced = is_enter && pre.announced_wait;
    let last = if is_enter {
        pre.last_input_ms
    } else {
        Some(now)
    };
    &&& no_enter(post.buffer)
    &&& step.dispatch matches Some(d) ==> no_enter(d.1@)
    &&& if is_enter {
        step.buffer_changed is None
    } else {
        &&& step.buffer_changed is Some
        &&& step.buffer_changed->Some_0.0@ == capped(decoded_taps(pending))
        &&& step.buffer_changed->Some_0.1 == decoded_taps(pending).len()
    }
    &&& if (is_enter || pending.len() >= BURST_MAX) && pending.len() > 0 {
        &&& attempt(pending, announced, table, step, post)
        &&& post.last_input_ms == if post.buffer.len() == 0 {
            None
        } else {
            last
        }
    } else {
        &&& step.decision is None
        &&& step.dispatch is None
        &&& post.buffer == pending
        &&& post.announced_wait == announced
        &&& post.last_input_ms == last
    }
}

/// Milliseconds the buffer has been idle at `now` (a buffer with no input time counts as
/// idle long enough).
pub open spec fn idle_for(last_input_ms: Option<u64>, now: u64) -> int {
    match last_input_ms {
        Some(last) => if now >= last {
            now - last
        } else {
            0
        },
        None => BURST_IDLE_MS as int,
    }
}

/// One step of the burst buffer on a timer tick at `now` (see [`Burst::on_idle`]): a
/// non-empty buffer idle for at least [`BURST_IDLE_MS`] is offered to the policy on `table`;
/// otherwise nothing changes.
pub open spec fn idle_step(
    pre: BurstView,
    now: u64,
    table: RouteTable,
    step: BurstStep,
    post: BurstView,
) -> bool {
    &&& no_enter(post.buffer)
    &&& step.buffer_changed is None
    &&& step.dispatch matches Some(d) ==> no_enter(d.1@)
    &&& if pre.buffer.len() > 0 && idle_for(pre.last_input_ms, now) >= BURST_IDLE_MS {
        &&& attempt(pre.buffer, pre.announced_wait, table, step, post)
        &&& post.last_input_ms == if post.buffer.len() == 0 {
            None
        } else {
            pre.last_input_ms
        }
    } else {
        &&& step.decision is None
        &&& step.dispatch is None
        &&& post == pre
    }
}

/// One step of the burst buffer on an input: a tap (`Some`) or a timer tick (`None`), at
/// the given time.
pub open spec fn burst_step(
    pre: BurstView,
    input: (Option<KeyTap>, u64),
    table: RouteTable,
    step: BurstStep,
    post: BurstView,
) -> bool {
    match input.0 {
        Some(tap) => tap_step(pre, tap, input.1, table, step, post),
        None => idle_step(pre, input.1, table, step, post),
    }
}

/// The taps a step hands out for injection.
pub open spec fn step_taps(step: BurstStep) -> Seq<KeyTap> {
    match step.dispatch {
        Some(d) => d.1@,
        None => Seq::empty(),
    }
}

/// The taps handed out for injection over a run of steps, in order.
pub open spec fn dispatched(steps: Seq<BurstStep>) -> Seq<KeyTap>
    decreases steps.len(),
{
    if steps.len() == 0 {
        Seq::empty()
    } else {
        dispatched(steps.drop_last()) + step_taps(steps.last())
    }
}

/// The taps of a run of inputs that carry text to buffer: every tap but Enter, in order.
pub open spec fn typed(inputs: Seq<(Option<KeyTap>, u64)>) -> Seq<KeyTap>
    decreases inputs.len(),
{
    if inputs.len() == 0 {
        Seq::empty()
    } else {
        let rest = typed(inputs.drop_last());
        match inputs.last().0 {
            Some(tap) => if tap.hid_code == HID_ENTER {
                rest
            } else {
                rest.push(tap)
            },
            None => rest,
        }
    }
}

impl Burst {
    /// An empty burst buffer.
    pub fn new() -> (b: Self)
        ensures
            b@.buffer == Seq::<KeyTap>::empty(),
            no_enter(b@.buffer),
            b@.last_input_ms is None,
            !b@.announced_wait,
    {
        Burst { buffer: Vec::new(), last_input_ms: None, announced_wait: false }
    }

    fn try_dispatch(&mut self, table: &RouteTable) -> (step: BurstStep)
        requires
            old(self).buffer@.len() > 0,
            no_enter(old(self)@.buffer),
        ensures
            attempt(old(self)@.buffer, old(self)@.announced_wait, *table, step, final(self)@),
            step.buffer_changed is None,
            final(self)@.last_input_ms == old(self)@.last_input_ms,
            step.dispatch matches Some(d) ==> no_enter(d.1@),
            no_enter(final(self)@.buffer),
    {
        let (choice, reason) = table.choose_route();
        let candidates = table.info_list();
        match choice {
            Some(route_id) => {
                let mut taps: Vec<KeyTap> = Vec::new();
                std::mem::swap(&mut taps, &mut self.buffer);
                self.announced_wait = false;
                let decision = RouteDecision { route: Some(route_id.clone()), reason, candidates };
                BurstStep {
                    buffer_changed: None,
                    decision: Some(decision),
                    dispatch: Some((route_id, taps)),
                }
            },
            None => {
                if !self.announced_wait {
                    self.announced_wait = true;
                    BurstStep {
                        buffer_changed: None,
                        decision: Some(RouteDecision { route: None, reason, candidates }),
                        dispatch: None,
                    }
                } else {
                    BurstStep { buffer_changed: None, decision: None, dispatch: None }
                }
            },
        }
    }

    /// Take one accepted tap at time `now_ms`. Non-Enter taps are buffered (and the buffer
    /// change reported); Enter, or a buffer of [`BURST_MAX`] taps, is a boundary at which a
    /// non-empty buffer is offered to the routing policy.
    pub fn on_tap(&mut self, tap: KeyTap, now_ms: u64, table: &RouteTable) -> (step: BurstStep)
        requires
            no_enter(old(self)@.buffer),
        ensures
            tap_step(old(self)@, tap, now_ms, *table, step, final(self)@),
    {
        let is_enter = tap.hid_code == HID_ENTER;
        let mut buffer_changed: Option<(String, usize)> = None;
        if !is_enter {
            self.buffer.push(tap);
            self.last_input_ms = Some(now_ms);
            self.announced_wait = false;
            let decoded = decode_buffer(self.buffer.as_slice());
            let n = decoded.as_str().unicode_len();
            buffer_changed = Some((cap_text(decoded.as_str()), n));
        }
        let boundary = is_enter || self.buffer.len() >= BURST_MAX;
        if boundary && self.buffer.len() > 0 {
            let step = self.try_dispatch(table);
            if self.buffer.len() == 0 {
                self.last_input_ms = None;
            }
            BurstStep { buffer_changed, decision: step.decision, dispatch: step.dispatch }
        } else {
            BurstStep { buffer_changed, decision: None, dispatch: None }
        }
    }

    /// A timer tick at `now_ms` with no new input: a non-empty buffer idle for at least
    /// [`BURST_IDLE_MS`] is offered to the routing policy.
    pub fn on_idle(&mut self, now_ms: u64, table: &RouteTable) -> (step: BurstStep)
        requires
            no_enter(old(self)@.buffer),
        ensures
            idle_step(old(self)@, now_ms, *table, step, final(self)@),
    {
        if self.buffer.len() > 0 {
            let idle = match self.last_input_ms {
                Some(t) => now_ms.saturating_sub(t),
                None => BURST_IDLE_MS,
            };
            if idle >= BURST_IDLE_MS {
                let step = self.try_dispatch(table);
                if self.buffer.len() == 0 {
                    self.last_input_ms = None;
                }
                return step;
            }
        }
        BurstStep { buffer_changed: None, decision: None, dispatch: None }
    }
}

proof fn lemma_step_keeps_taps(
    pre: BurstView,
    input: (Option<KeyTap>, u64),
    table: RouteTable,
    step: BurstStep,
    post: BurstView,
)
    requires
        burst_step(pre, input, table, step, post),
    ensures
        step_taps(step) + post.buffer == pre.buffer + typed(seq![input]),
{
    let one = seq![input];
    assert(one.drop_last() =~= Seq::<(Option<KeyTap>, u64)>::empty());
    assert(one.last() == input);
    assert(typed(Seq::<(Option<KeyTap>, u64)>::empty()) == Seq::<KeyTap>::empty());
    match input.0 {
        Some(tap) => {
            if tap.hid_code == HID_ENTER {
                assert(typed(one) =~= Seq::<KeyTap>::empty());
            } else {
                assert(typed(one) =~= seq![tap]);
            }
        },
        None => {
            assert(typed(one) =~= Seq::<KeyTap>::empty());
        },
    }
    assert(step_taps(step) + post.buffer =~= pre.buffer + typed(one));
}

proof fn lemma_run_prefix(
    states: Seq<BurstView>,
    inputs: Seq<(Option<KeyTap>, u64)>,
    tables: Seq<RouteTable>,
    steps: Seq<BurstStep>,
    k: int,
)
    requires
        0 <= k <= inputs.len(),
        states.len() == inputs.len() + 1,
        tables.len() == inputs.len(),
        steps.len() == inputs.len(),
        forall|i: int|
            0 <= i < inputs.len() ==> #[trigger] burst_step(
                states[i],
                inputs[i],
                tables[i],
                steps[i],
                states[i + 1],
            ),
    ensures
        dispatched(steps.take(k)) + states[k].buffer == states[0].buffer + typed(inputs.take(k)),
    decreases k,
{
    if k == 0 {
        assert(steps.take(0) =~= Seq::<BurstStep>::empty());
        assert(inputs.take(0) =~= Seq::<(Option<KeyTap>, u64)>::empty());
        assert(dispatched(steps.take(0)) + states[0].buffer =~= states[0].buffer + typed(
            inputs.take(0),
        ));
    } else {
        lemma_run_prefix(states, inputs, tables, steps, k - 1);
        let j = k - 1;
        assert(burst_step(states[j], inputs[j], tables[j], steps[j], states[j + 1]));
        lemma_step_keeps_taps(states[j], inputs[j], tables[j], steps[j], states[k]);
        assert(steps.take(k).drop_last() =~= steps.take(j));
        assert(steps.take(k).last() == steps[j]);
        assert(inputs.take(k).drop_last() =~= inputs.take(j));
        assert(inputs.take(k).last() == inputs[j]);
        let one = seq![inputs[j]];
        assert(one.drop_last() =~= Seq::<(Option<KeyTap>, u64)>::empty());
        assert(typed(inputs.take(k)) =~= typed(inputs.take(j)) + typed(one)) by {
            match inputs[j].0 {
                Some(tap) => {
                    if tap.hid_code == HID_ENTER {
                        assert(typed(one) =~= Seq::<KeyTap>::empty());
                    } else {
                        assert(typed(one) =~= seq![tap]);
                    }
                },
                None => {
                    assert(typed(one) =~= Seq::<KeyTap>::empty());
                },
            }
        }
        let d = dispatched(steps.take(j));
        let sj = step_taps(steps[j]);
        assert(dispatched(steps.take(k)) == d + sj);
        assert(d + sj + states[k].buffer =~= d + (sj + states[k].buffer));
        assert(states[0].buffer + typed(inputs.take(j)) + typed(one) =~= states[0].buffer + (
        typed(inputs.take(j)) + typed(one)));
        assert(d + states[j].buffer + typed(one) =~= d + (states[j].buffer + typed(one)));
    }
}

proof fn lemma_typed_no_enter(inputs: Seq<(Option<KeyTap>, u64)>)
    ensures
        no_enter(typed(inputs)),
    decreases inputs.len(),
{
    if inputs.len() > 0 {
        lemma_typed_no_enter(inputs.drop_last());
    }
}

/// Over any run of the burst buffer, no tap is lost, repeated or reordered, and Enter is
/// never buffered: the taps handed out for injection, in the order of the steps, followed by
/// what is still buffered, are exactly what was buffered at the start followed by every
/// non-Enter tap of the run, in order; and no buffer or dispatched burst ever holds an Enter.
/// Each step is one call of [`Burst::on_tap`] (a `Some` input) or [`Burst::on_idle`] (a
/// `None` input) with the table as it stood then, and its contract is the step relation.
pub proof fn lemma_burst_run_keeps_taps(
    states: Seq<BurstView>,
    inputs: Seq<(Option<KeyTap>, u64)>,
    tables: Seq<RouteTable>,
    steps: Seq<BurstStep>,
)
    requires
        states.len() == inputs.len() + 1,
        tables.len() == inputs.len(),
        steps.len() == inputs.len(),
        no_enter(states[0].buffer),
        forall|i: int|
            0 <= i < inputs.len() ==> #[trigger] burst_step(
                states[i],
                inputs[i],
                tables[i],
                steps[i],
                states[i + 1],
            ),
    ensures
        dispatched(steps) + states.last().buffer == states[0].buffer + typed(inputs),
        no_enter(dispatched(steps)),
        forall|i: int| 0 <= i < states.len() ==> no_enter(#[trigger] states[i].buffer),
{
    let n = inputs.len() as int;
    lemma_run_prefix(states, inputs, tables, steps, n);
    assert(steps.take(n) =~= steps);
    assert(inputs.take(n) =~= inputs);
    lemma_typed_no_enter(inputs);
    let all = states[0].buffer + typed(inputs);
    assert(no_enter(all)) by {
        assert forall|i: int| 0 <= i < all.len() implies (#[trigger] all[i]).hid_code
            != HID_ENTER by {
            if i < states[0].buffer.len() {
                assert(all[i] == states[0].buffer[i]);
            } else {
                assert(all[i] == typed(inputs)[i - states[0].buffer.len()]);
            }
        }
    }
    let d = dispatched(steps);
    assert forall|i: int| 0 <= i < d.len() implies (#[trigger] d[i]).hid_code != HID_ENTER by {
        assert((d + states.last().buffer)[i] == d[i]);
    }
    assert forall|i: int| 0 <= i < states.len() implies no_enter(#[trigger] states[i].buffer) by {
        if i > 0 {
            let j = i - 1;
            assert(burst_step(states[j], inputs[j], tables[j], steps[j], states[j + 1]));
            assert(j + 1 == i);
        }
    }
}

} // verus!
