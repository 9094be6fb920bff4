//! The multiplexer: a route table, a routing policy, and the burst buffer that decides when
//! buffered input is dispatched and where.

use vstd::prelude::*;
use crate::proto::{hid_to_us_ansi_char, us_ansi_char, shift_held, KeyTap, HID_ENTER, HID_SPACE};
use crate::telem::RouteInfo;
use crate::text::{push_char, str_eq};

verus! {

/// One routable destination.
#[derive(Debug, Clone)]
pub struct Route {
    pub id: String,
    pub label: String,
    /// Case-insensitive substring matched against window title or process name.
    pub window_match: String,
    /// Higher wins when multiple routes are eligible.
    pub priority: i32,
    /// Only eligible when `ready` is true.
    pub gated_on_ready: bool,
    pub busy: bool,
    pub ready: bool,
}

/// Shared, mutable routing state.
pub struct RouteTable {
    pub routes: Vec<Route>,
    /// Pinned route id, or `None` for automatic selection.
    pub override_active: Option<String>,
    /// Master switch; when false the router buffers but never injects.
    pub enabled: bool,
}

/// A route can take input: it is not busy, and if it waits for readiness it is ready.
pub open spec fn eligible(r: Route) -> bool {
    !r.busy && (!r.gated_on_ready || r.ready)
}

/// `i` is the first route whose id is `id`.
pub open spec fn is_first_with_id(rs: Seq<Route>, id: Seq<char>, i: int) -> bool {
    &&& 0 <= i < rs.len()
    &&& rs[i].id@ == id
    &&& forall|j: int| 0 <= j < i ==> rs[j].id@ != id
}

/// The index of the first route whose id is `id`, if any.
pub open spec fn find_route(rs: Seq<Route>, id: Seq<char>) -> Option<int> {
    if exists|i: int| is_first_with_id(rs, id, i) {
        Some(choose|i: int| is_first_with_id(rs, id, i))
    } else {
        None
    }
}

/// `i` is the route automatic selection picks: an eligible route of the highest priority
/// among the eligible ones, the last such route when several share that priority.
pub open spec fn is_best(rs: Seq<Route>, i: int) -> bool {
    &&& 0 <= i < rs.len()
    &&& eligible(rs[i])
    &&& forall|j: int| 0 <= j < rs.len() && eligible(rs[j]) ==> rs[j].priority <= rs[i].priority
    &&& forall|j: int| i < j < rs.len() && eligible(rs[j]) ==> rs[j].priority < rs[i].priority
}

/// The route automatic selection picks, if any.
pub open spec fn best_route(rs: Seq<Route>) -> Option<int> {
    if exists|i: int| is_best(rs, i) {
        Some(choose|i: int| is_best(rs, i))
    } else {
        None
    }
}

/// The route the policy chooses: none while routing is disabled; the pinned route when one
/// is pinned and it is eligible (none otherwise); else the automatic pick.
pub open spec fn chosen(t: RouteTable) -> Option<int> {
    if !t.enabled {
        None
    } else {
        match t.override_active {
            Some(pin) => match find_route(t.routes@, pin@) {
                Some(i) => if eligible(t.routes@[i]) {
                    Some(i)
                } else {
                    None
                },
                None => None,
            },
            None => best_route(t.routes@),
        }
    }
}

/// The human-readable reason that goes with the policy's choice.
pub open spec fn choice_reason(t: RouteTable) -> Seq<char> {
    if !t.enabled {
        "routing disabled"@
    } else {
        match t.override_active {
            Some(pin) => match find_route(t.routes@, pin@) {
                Some(i) => if eligible(t.routes@[i]) {
                    "pinned to "@ + pin@
                } else {
                    "waiting: pinned "@ + pin@ + " is busy/not-ready"@
                },
                None => "pinned route "@ + pin@ + " unknown"@,
            },
            None => match best_route(t.routes@) {
                Some(i) => "auto: "@ + t.routes@[i].id@ + " eligible"@,
                None => "waiting: no eligible route"@,
            },
        }
    }
}

/// The route info the display gets for a route.
pub open spec fn info_matches(info: RouteInfo, r: Route) -> bool {
    &&& info.id@ == r.id@
    &&& info.label@ == r.label@
    &&& info.busy == r.busy
    &&& info.ready == r.ready
}

proof fn lemma_first_unique(rs: Seq<Route>, id: Seq<char>, i: int)
    requires
        is_first_with_id(rs, id, i),
    ensures
        find_route(rs, id) == Some(i),
{
    let k = choose|k: int| is_first_with_id(rs, id, k);
    assert(is_first_with_id(rs, id, k));
    if k < i {
        assert(rs[k].id@ != id);
    } else if k > i {
        assert(rs[i].id@ != id);
    }
}

proof fn lemma_best_unique(rs: Seq<Route>, i: int)
    requires
        is_best(rs, i),
    ensures
        best_route(rs) == Some(i),
{
    let k = choose|k: int| is_best(rs, k);
    assert(is_best(rs, k));
    if k < i {
        assert(rs[i].priority < rs[k].priority);
        assert(rs[i].priority <= rs[k].priority);
        assert(rs[k].priority <= rs[i].priority);
    } else if k > i {
        assert(rs[k].priority < rs[i].priority);
        assert(rs[i].priority <= rs[k].priority);
    }
}

impl Route {
    /// The route info the display gets for this route.
    pub fn info(&self) -> (info: RouteInfo)
        ensures
            info_matches(info, *self),
    {
        RouteInfo {
            id: self.id.clone(),
            label: self.label.clone(),
            busy: self.busy,
            ready: self.ready,
        }
    }

    /// Whether the route can take input now.
    pub fn eligible(&self) -> (r: bool)
        ensures
            r == eligible(*self),
    {
        !self.busy && (!self.gated_on_ready || self.ready)
    }
}

impl RouteTable {
    /// Index of the first route with the given id.
    fn position(&self, id: &str) -> (r: Option<usize>)
        ensures
            match r {
                Some(k) => find_route(self.routes@, id@) == Some(k as int) && k < self.routes@.len(),
                None => find_route(self.routes@, id@) is None,
            },
    {
        let mut i: usize = 0;
        while i < self.routes.len()
            invariant
                i <= self.routes@.len(),
                forall|j: int| 0 <= j < i ==> self.routes@[j].id@ != id@,
            decreases self.routes@.len() - i,
        {
            if str_eq(self.routes[i].id.as_str(), id) {
                proof {
                    lemma_first_unique(self.routes@, id@, i as int);
                }
                return Some(i);
            }
            i = i + 1;
        }
        proof {
            if exists|k: int| is_first_with_id(self.routes@, id@, k) {
                let k = choose|k: int| is_first_with_id(self.routes@, id@, k);
                assert(self.routes@[k].id@ != id@);
            }
        }
        None
    }

    /// The first route with the given id.
    pub fn get(&self, id: &str) -> (r: Option<&Route>)
        ensures
            match find_route(self.routes@, id@) {
                Some(i) => r is Some && *r->Some_0 == self.routes@[i],
                None => r is None,
            },
    {
        match self.position(id) {
            Some(i) => {
                Some(&self.routes[i])
            },
            None => None,
        }
    }

    /// Route infos of all routes, in table order.
    pub fn info_list(&self) -> (infos: Vec<RouteInfo>)
        ensures
            infos@.len() == self.routes@.len(),
            forall|i: int| 0 <= i < infos@.len() ==> info_matches(#[trigger] infos@[i], self.routes@[i]),
    {
        let mut infos: Vec<RouteInfo> = Vec::new();
        let mut i: usize = 0;
        while i < self.routes.len()
            invariant
                i <= self.routes@.len(),
                infos@.len() == i,
                forall|k: int| 0 <= k < i ==> info_matches(#[trigger] infos@[k], self.routes@[k]),
            decreases self.routes@.len() - i,
        {
            infos.push(self.routes[i].info());
            i = i + 1;
        }
        infos
    }

    /// Update a route's status. Returns true if the route exists; only the first route with
    /// the id changes, and only in the flags that were given.
    pub fn set_status(&mut self, id: &str, busy: Option<bool>, ready: Option<bool>) -> (found: bool)
        ensures
            found == (find_route(old(self).routes@, id@) is Some),
            final(self).enabled == old(self).enabled,
            final(self).override_active == old(self).override_active,
            final(self).routes@.len() == old(self).routes@.len(),
            match find_route(old(self).routes@, id@) {
                Some(i) => {
                    &&& forall|j: int|
                        0 <= j < old(self).routes@.len() && j != i ==> final(self).routes@[j]
                            == old(self).routes@[j]
                    &&& final(self).routes@[i] == (Route {
                        busy: match busy {
                            Some(b) => b,
                            None => old(self).routes@[i].busy,
                        },
                        ready: match ready {
                            Some(rd) => rd,
                            None => old(self).routes@[i].ready,
                        },
                        ..old(self).routes@[i]
                    })
                },
                None => final(self).routes@ == old(self).routes@,
            },
    {
        match self.position(id) {
            Some(i) => {
                if let Some(b) = busy {
                    self.routes[i].busy = b;
                }
                if let Some(rd) = ready {
                    self.routes[i].ready = rd;
                }
                true
            },
            None => false,
        }
    }

    /// Index of the route automatic selection picks.
    fn best(&self) -> (r: Option<usize>)
        ensures
            match r {
                Some(k) => best_route(self.routes@) == Some(k as int) && k < self.routes@.len(),
                None => best_route(self.routes@) is None,
            },
            r is None ==> forall|j: int| 0 <= j < self.routes@.len() ==> !eligible(
                #[trigger] self.routes@[j],
            ),
    {
        let mut best: Option<usize> = None;
        let mut i: usize = 0;
        while i < self.routes.len()
            invariant
                i <= self.routes@.len(),
                match best {
                    Some(b) => {
                        &&& b < i
                        &&& eligible(self.routes@[b as int])
                        &&& forall|j: int|
                            0 <= j < i && eligible(#[trigger] self.routes@[j])
                                ==> self.routes@[j].priority <= self.routes@[b as int].priority
                        &&& forall|j: int|
                            b < j < i && eligible(#[trigger] self.routes@[j])
                                ==> self.routes@[j].priority < self.routes@[b as int].priority
                    },
                    None => forall|j: int| 0 <= j < i ==> !eligible(#[trigger] self.routes@[j]),
                },
            decreases self.routes@.len() - i,
        {
            let r = &self.routes[i];
            if r.eligible() {
                match best {
                    Some(b) => {
                        if r.priority >= self.routes[b].priority {
                            best = Some(i);
                        }
                    },
                    None => {
                        best = Some(i);
                    },
                }
            }
            i = i + 1;
        }
        proof {
            match best {
                Some(b) => {
                    lemma_best_unique(self.routes@, b as int);
                },
                None => {
                    if exists|k: int| is_best(self.routes@, k) {
                        let k = choose|k: int| is_best(self.routes@, k);
                        assert(!eligible(self.routes@[k]));
                    }
                },
            }
        }
        best
    }

    /// Apply the routing policy. Returns the chosen route id (or `None` to hold) and a
    /// human-readable reason.
    pub fn choose_route(&self) -> (r: (Option<String>, String))
        ensures
            match chosen(*self) {
                Some(i) => r.0 is Some && r.0->Some_0@ == self.routes@[i].id@,
                None => r.0 is None,
            },
            r.1@ == choice_reason(*self),
    {
        if !self.enabled {
            return (None, String::from_str("routing disabled"));
        }
        match &self.override_active {
            Some(pin) => {
                match self.get(pin.as_str()) {
                    Some(r) => {
                        if r.eligible() {
                            let mut reason = String::from_str("pinned to ");
                            reason.append(pin.as_str());
                            (Some(r.id.clone()), reason)
                        } else {
                            let mut reason = String::from_str("waiting: pinned ");
                            reason.append(pin.as_str());
                            reason.append(" is busy/not-ready");
                            (None, reason)
                        }
                    },
                    None => {
                        let mut reason = String::from_str("pinned route ");
                        reason.append(pin.as_str());
                        reason.append(" unknown");
                        (None, reason)
                    },
                }
            },
            None => {
                match self.best() {
                    Some(i) => {
                        let id = self.routes[i].id.clone();
                        let mut reason = String::from_str("auto: ");
                        reason.append(id.as_str());
                        reason.append(" eligible");
                        (Some(id), reason)
                    },
                    None => (None, String::from_str("waiting: no eligible route")),
                }
            },
        }
    }

    /// The window match string of the first route with the given id.
    pub fn window_match_for(&self, id: &str) -> (r: Option<String>)
        ensures
            match find_route(self.routes@, id@) {
                Some(i) => r is Some && r->Some_0@ == self.routes@[i].window_match@,
                None => r is None,
            },
    {
        match self.get(id) {
            Some(r) => Some(r.window_match.clone()),
            None => None,
        }
    }
}

proof fn lemma_best_exists(rs: Seq<Route>)
    requires
        exists|j: int| 0 <= j < rs.len() && eligible(#[trigger] rs[j]),
    ensures
        exists|i: int| is_best(rs, i),
    decreases rs.len(),
{
    let n = rs.len() as int;
    let pre = rs.drop_last();
    let last = rs[n - 1];
    if exists|j: int| 0 <= j < pre.len() && eligible(#[trigger] pre[j]) {
        lemma_best_exists(pre);
        let b = choose|i: int| is_best(pre, i);
        assert(pre[b] == rs[b]);
        if eligible(last) && last.priority >= rs[b].priority {
            assert forall|j: int| 0 <= j < rs.len() && eligible(#[trigger] rs[j]) implies rs[j].priority
                <= last.priority by {
                if j < n - 1 {
                    assert(pre[j] == rs[j]);
                }
            }
            assert(is_best(rs, n - 1));
        } else {
            assert forall|j: int| 0 <= j < rs.len() && eligible(#[trigger] rs[j]) implies rs[j].priority
                <= rs[b].priority by {
                if j < n - 1 {
                    assert(pre[j] == rs[j]);
                }
            }
            assert forall|j: int| b < j < rs.len() && eligible(#[trigger] rs[j]) implies rs[j].priority
                < rs[b].priority by {
                if j < n - 1 {
                    assert(pre[j] == rs[j]);
                }
            }
            assert(is_best(rs, b));
        }
    } else {
        let w = choose|j: int| 0 <= j < rs.len() && eligible(#[trigger] rs[j]);
        if w < n - 1 {
            assert(pre[w] == rs[w]);
        }
        assert(eligible(last));
        assert forall|j: int| 0 <= j < rs.len() && eligible(#[trigger] rs[j]) implies rs[j].priority
            <= last.priority by {
            if j < n - 1 {
                assert(pre[j] == rs[j]);
            }
        }
        assert(is_best(rs, n - 1));
    }
}

/// The policy never chooses a route that cannot take input, and it holds input only when it
/// must: with routing enabled and nothing pinned, input is held exactly when no route is
/// eligible, and otherwise the chosen route has the highest priority among the eligible ones.
pub proof fn lemma_choice_is_eligible(t: RouteTable)
    ensures
        chosen(t) matches Some(i) ==> 0 <= i < t.routes@.len() && eligible(t.routes@[i]),
        t.enabled && t.override_active is None ==> (chosen(t) is None <==> forall|j: int|
            0 <= j < t.routes@.len() ==> !eligible(#[trigger] t.routes@[j])),
        t.enabled && t.override_active is None && chosen(t) is Some ==> forall|j: int|
            0 <= j < t.routes@.len() && eligible(#[trigger] t.routes@[j]) ==> t.routes@[j].priority
                <= t.routes@[chosen(t)->Some_0].priority,
{
    if t.enabled && t.override_active is None {
        if exists|j: int| 0 <= j < t.routes@.len() && eligible(#[trigger] t.routes@[j]) {
            lemma_best_exists(t.routes@);
        }
    }
}

/// Routing disabled holds everything.
pub proof fn lemma_disabled_holds(t: RouteTable)
    requires
        !t.enabled,
    ensures
        chosen(t) is None,
{
}

/// A pin overrides priority: an enabled table with an eligible pinned route chooses the
/// pinned route, whatever the priorities of the others; a pinned route that is busy or not
/// ready holds the input even when other routes are eligible.
pub proof fn lemma_pin_overrides(t: RouteTable, i: int)
    requires
        t.enabled,
        t.override_active is Some,
        is_first_with_id(t.routes@, t.override_active->Some_0@, i),
    ensures
        eligible(t.routes@[i]) ==> chosen(t) == Some(i),
        !eligible(t.routes@[i]) ==> chosen(t) is None,
{
    lemma_first_unique(t.routes@, t.override_active->Some_0@, i);
}

/// The piece of text one buffered tap adds: Space a blank, Enter nothing, other keys the
/// character they print, if any.
pub open spec fn tap_text(t: KeyTap) -> Seq<char> {
    if t.hid_code == HID_SPACE {
        seq![' ']
    } else if t.hid_code == HID_ENTER {
        Seq::empty()
    } else {
        match us_ansi_char(t.hid_code, shift_held(t.mods)) {
            Some(c) => seq![c],
            None => Seq::empty(),
        }
    }
}

/// Decoded display form of buffered taps.
pub open spec fn decoded_taps(taps: Seq<KeyTap>) -> Seq<char>
    decreases taps.len(),
{
    if taps.len() == 0 {
        Seq::empty()
    } else {
        decoded_taps(taps.drop_last()) + tap_text(taps.last())
    }
}

/// Decoded display form of the buffered taps (Enter excluded: it ends the burst).
pub fn decode_buffer(taps: &[KeyTap]) -> (s: String)
    ensures
        s@ == decoded_taps(taps@),
{
    let mut s = String::new();
    let mut i: usize = 0;
    while i < taps.len()
        invariant
            i <= taps@.len(),
            s@ == decoded_taps(taps@.take(i as int)),
        decreases taps@.len() - i,
    {
        let t = taps[i];
        let ghost before = s@;
        assert(taps@.take(i + 1).drop_last() =~= taps@.take(i as int));
        assert(taps@.take(i + 1).last() == t);
        if t.hid_code == HID_SPACE {
            push_char(&mut s, ' ');
            assert(s@ =~= before + tap_text(t));
        } else if t.hid_code == HID_ENTER {
            assert(s@ =~= before + tap_text(t));
        } else {
            match hid_to_us_ansi_char(t.hid_code, t.shift()) {
                Some(c) => {
                    push_char(&mut s, c);
                    assert(s@ =~= before + tap_text(t));
                },
                None => {
                    assert(s@ =~= before + tap_text(t));
                },
            }
        }
        i = i + 1;
    }
    assert(taps@.take(taps@.len() as int) =~= taps@);
    s
}

impl RouteTable {
    /// Default exhibit table: the game when it is ready, else the trophy factory.
    pub fn default_exhibit() -> (t: Self)
        ensures
            t.enabled,
            t.override_active is None,
            t.routes@.len() == 2,
            t.routes@[0].id@ == "game"@,
            t.routes@[0].label@ == "Tea Leaves (game)"@,
            t.routes@[0].window_match@ == "tea-leaves"@,
            t.routes@[0].priority == 20,
            t.routes@[0].gated_on_ready,
            !t.routes@[0].busy,
            !t.routes@[0].ready,
            t.routes@[1].id@ == "trophy"@,
            t.routes@[1].label@ == "Trophy Factory"@,
            t.routes@[1].window_match@ == "trophy_factory"@,
            t.routes@[1].priority == 10,
            !t.routes@[1].gated_on_ready,
            !t.routes@[1].busy,
            t.routes@[1].ready,
    {
        let game = Route {
            id: String::from_str("game"),
            label: String::from_str("Tea Leaves (game)"),
            window_match: String::from_str("tea-leaves"),
            priority: 20,
            gated_on_ready: true,
            busy: false,
            ready: false,
        };
        let trophy = Route {
            id: String::from_str("trophy"),
            label: String::from_str("Trophy Factory"),
            window_match: String::from_str("trophy_factory"),
            priority: 10,
            gated_on_ready: false,
            busy: false,
            ready: true,
        };
        let mut routes: Vec<Route> = Vec::new();
        routes.push(game);
        routes.push(trophy);
        RouteTable { routes, override_active: None, enabled: true }
    }
}

} // verus!
