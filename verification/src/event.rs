//! The event scheduler: a queue of timestamped, tagged events.
//!
//! Events are ordered by `(time, priority)`, ascending, with insertion order
//! as the final tie-break. The queue supports push, pop-minimum, bulk removal
//! of enemy actions (used when an enemy dies) and the stun splice (delay the
//! one pending enemy action with the lowest time).

use vstd::prelude::*;
use crate::fixed::{CAP, cap_add, add_cap};

verus! {

/// What a scheduled event does when it is popped.
#[derive(Clone, Copy, Debug, PartialEq, Eq, Structural)]
pub enum EventKind {
    /// Apply a pending stun to the enemy's next action.
    Stun,
    /// The player attacks.
    HunterAction,
    /// The enemy's primary attack.
    EnemyAction,
    /// The enemy's secondary attack (bosses only).
    EnemySecondaryAction,
    /// The once-per-second regeneration tick.
    RegenTick,
}

/// One scheduled event. Time is in micro-seconds; a lower priority number
/// wins among events with equal time.
#[derive(Clone, Copy, Debug, PartialEq, Eq, Structural)]
pub struct Event {
    pub time: u64,
    pub priority: u32,
    pub kind: EventKind,
}

/// `a` comes no later than `b` in the scheduler's `(time, priority)` order.
pub open spec fn lex_le(a: Event, b: Event) -> bool {
    a.time < b.time || (a.time == b.time && a.priority <= b.priority)
}

/// The index popped next: the first index holding the minimum `(time, priority)`.
pub open spec fn min_index(s: Seq<Event>) -> int
    decreases s.len(),
{
    if s.len() <= 1 {
        0
    } else {
        let m = min_index(s.drop_last());
        if lex_le(s[m], s.last()) { m } else { s.len() - 1 }
    }
}

/// The popped index is in range, minimal, and first among its equals.
pub proof fn lemma_min_index(s: Seq<Event>)
    requires
        s.len() > 0,
    ensures
        0 <= min_index(s) < s.len(),
        forall|j: int| 0 <= j < s.len() ==> lex_le(s[min_index(s)], s[j]),
        forall|j: int| 0 <= j < min_index(s) ==> !lex_le(s[j], s[min_index(s)]),
    decreases s.len(),
{
    if s.len() > 1 {
        let t = s.drop_last();
        lemma_min_index(t);
        let m = min_index(t);
        assert(forall|j: int| 0 <= j < s.len() - 1 ==> s[j] == t[j]);
        assert forall|j: int| 0 <= j < s.len() implies lex_le(s[min_index(s)], s[j]) by {
            if j < s.len() - 1 {
                assert(lex_le(t[m], t[j]));
            }
        }
        assert forall|j: int| 0 <= j < min_index(s) implies !lex_le(s[j], s[min_index(s)]) by {
            if min_index(s) == s.len() - 1 {
                assert(lex_le(t[m], t[j]));
            }
        }
    }
}

/// Scheduler ordering law: among two pending events with equal time and
/// differing priority, the one with the lower priority number is popped
/// first, wherever the two stand in the queue.
pub proof fn lemma_pop_prefers_lower_priority(s: Seq<Event>, i: int, j: int)
    requires
        0 <= i < s.len(),
        0 <= j < s.len(),
        s[i].time == s[j].time,
        s[i].priority < s[j].priority,
    ensures
        min_index(s) != j,
        lex_le(s[min_index(s)], s[i]),
{
    lemma_min_index(s);
    if min_index(s) == j {
        assert(lex_le(s[j], s[i]));
        assert(false);
    }
}

/// `true` for the event kinds that an enemy's death invalidates.
pub open spec fn is_enemy_event(e: Event) -> bool {
    e.kind == EventKind::EnemyAction || e.kind == EventKind::EnemySecondaryAction
}

/// The queue without any enemy-action events, order preserved.
pub open spec fn without_enemy_events(s: Seq<Event>) -> Seq<Event>
    decreases s.len(),
{
    if s.len() == 0 {
        Seq::empty()
    } else {
        let rest = without_enemy_events(s.drop_last());
        if is_enemy_event(s.last()) { rest } else { rest.push(s.last()) }
    }
}

/// No enemy-action event survives the bulk removal.
pub proof fn lemma_without_enemy_events(s: Seq<Event>)
    ensures
        forall|j: int| 0 <= j < without_enemy_events(s).len()
            ==> !is_enemy_event(#[trigger] without_enemy_events(s)[j]),
    decreases s.len(),
{
    if s.len() > 0 {
        let t = s.drop_last();
        lemma_without_enemy_events(t);
        if !is_enemy_event(s.last()) {
            let w = without_enemy_events(t);
            assert(without_enemy_events(s) == w.push(s.last()));
            assert forall|j: int| 0 <= j < without_enemy_events(s).len()
                implies !is_enemy_event(#[trigger] without_enemy_events(s)[j]) by {
                if j < w.len() {
                    assert(without_enemy_events(s)[j] == w[j]);
                } else {
                    assert(without_enemy_events(s)[j] == s.last());
                }
            }
        } else {
            assert(without_enemy_events(s) == without_enemy_events(t));
        }
    }
}

/// The index of the pending primary enemy action with the lowest
/// `(time, priority)` (first among equals), or `-1` if none is pending.
pub open spec fn enemy_min_index(s: Seq<Event>) -> int
    decreases s.len(),
{
    if s.len() == 0 {
        -1
    } else {
        let m = enemy_min_index(s.drop_last());
        if s.last().kind != EventKind::EnemyAction {
            m
        } else if m == -1 {
            s.len() - 1
        } else if lex_le(s[m], s.last()) {
            m
        } else {
            s.len() - 1
        }
    }
}

/// Direct instantiation of the minimality clause of `lemma_enemy_min_index`.
proof fn lemma_emi_min(t: Seq<Event>, j: int)
    requires
        enemy_min_index(t) >= 0,
        0 <= j < t.len(),
        t[j].kind == EventKind::EnemyAction,
    ensures
        lex_le(t[enemy_min_index(t)], t[j]),
    decreases t.len(), 1nat,
{
    lemma_enemy_min_index(t);
}

/// What `enemy_min_index` finds: a pending primary enemy action of minimal
/// time, or the guarantee that none is pending.
pub proof fn lemma_enemy_min_index(s: Seq<Event>)
    ensures
        enemy_min_index(s) == -1 || 0 <= enemy_min_index(s) < s.len(),
        enemy_min_index(s) == -1 ==> forall|j: int|
            0 <= j < s.len() ==> (#[trigger] s[j]).kind != EventKind::EnemyAction,
        enemy_min_index(s) >= 0 ==> 0 <= enemy_min_index(s) < s.len(),
        enemy_min_index(s) >= 0 ==> s[enemy_min_index(s)].kind == EventKind::EnemyAction,
        enemy_min_index(s) >= 0 ==> forall|j: int|
            0 <= j < s.len() && (#[trigger] s[j]).kind == EventKind::EnemyAction
                ==> lex_le(s[enemy_min_index(s)], s[j]),
    decreases s.len(), 0nat,
{
    if s.len() > 0 {
        let t = s.drop_last();
        lemma_enemy_min_index(t);
        let m = enemy_min_index(t);
        assert(forall|j: int| 0 <= j < s.len() - 1 ==> s[j] == t[j]);
        if s.last().kind != EventKind::EnemyAction {
            assert(enemy_min_index(s) == m);
            if m >= 0 {
                assert forall|j: int|
                    0 <= j < s.len() && (#[trigger] s[j]).kind == EventKind::EnemyAction
                    implies lex_le(s[enemy_min_index(s)], s[j]) by {
                    if j < s.len() - 1 {
                        assert(t[j].kind == EventKind::EnemyAction);
                        lemma_emi_min(t, j);
                        assert(lex_le(t[m], t[j]));
                    }
                }
            }
        } else if m == -1 {
            assert(enemy_min_index(s) == s.len() - 1);
            assert forall|j: int|
                0 <= j < s.len() && (#[trigger] s[j]).kind == EventKind::EnemyAction
                implies lex_le(s[enemy_min_index(s)], s[j]) by {
                if j < s.len() - 1 {
                    assert(t[j].kind != EventKind::EnemyAction);
                }
            }
        } else if lex_le(s[m], s.last()) {
            assert(enemy_min_index(s) == m);
            assert forall|j: int|
                0 <= j < s.len() && (#[trigger] s[j]).kind == EventKind::EnemyAction
                implies lex_le(s[enemy_min_index(s)], s[j]) by {
                if j < s.len() - 1 {
                    assert(t[j].kind == EventKind::EnemyAction);
                    lemma_emi_min(t, j);
                    assert(lex_le(t[m], t[j]));
                }
            }
        } else {
            assert(enemy_min_index(s) == s.len() - 1);
            assert forall|j: int|
                0 <= j < s.len() && (#[trigger] s[j]).kind == EventKind::EnemyAction
                implies lex_le(s[enemy_min_index(s)], s[j]) by {
                if j < s.len() - 1 {
                    assert(t[j].kind == EventKind::EnemyAction);
                    lemma_emi_min(t, j);
                    assert(lex_le(t[m], t[j]));
                    assert(!lex_le(s[m], s.last()));
                }
            }
        }
    }
}

/// The queue after a stun splice of duration `d`: the pending primary enemy
/// action with the lowest time is removed and re-inserted with `time + d`;
/// if none is pending the splice is a no-op.
pub open spec fn spliced(s: Seq<Event>, d: u64) -> Seq<Event> {
    if enemy_min_index(s) == -1 {
        s
    } else {
        let i = enemy_min_index(s);
        s.remove(i).push(Event {
            time: cap_add(s[i].time, d),
            priority: s[i].priority,
            kind: s[i].kind,
        })
    }
}

/// Stun splice law: when a primary enemy action is pending, the splice keeps
/// the queue's length, moves exactly one event — a pending enemy action of
/// minimal time — delays it by exactly `d`, and leaves every other event
/// unchanged (the events before it keep their index; the ones after it shift
/// down by one).
pub proof fn lemma_stun_splice(s: Seq<Event>, d: u64)
    requires
        enemy_min_index(s) >= 0,
        s[enemy_min_index(s)].time + d <= CAP,
    ensures
        spliced(s, d).len() == s.len(),
        spliced(s, d).last().kind == EventKind::EnemyAction,
        spliced(s, d).last().time == s[enemy_min_index(s)].time + d,
        spliced(s, d).last().priority == s[enemy_min_index(s)].priority,
        forall|j: int| 0 <= j < s.len() && j != enemy_min_index(s)
            ==> lex_le(s[enemy_min_index(s)], #[trigger] s[j])
                || s[j].kind != EventKind::EnemyAction,
        forall|j: int| 0 <= j < enemy_min_index(s) ==> spliced(s, d)[j] == s[j],
        forall|j: int| enemy_min_index(s) <= j < s.len() - 1
            ==> spliced(s, d)[j] == s[j + 1],
{
    lemma_enemy_min_index(s);
}

/// The pending-event queue of one run.
pub struct EventQueue {
    events: Vec<Event>,
}

impl View for EventQueue {
    type V = Seq<Event>;

    closed spec fn view(&self) -> Seq<Event> {
        self.events@
    }
}

impl EventQueue {
    /// An empty queue.
    pub fn empty() -> (r: Self)
        ensures
            r@ == Seq::<Event>::empty(),
    {
        let r = EventQueue { events: Vec::new() };
        proof {
            assert(r@ =~= Seq::<Event>::empty());
        }
        r
    }

    /// Schedule one event.
    pub fn push(&mut self, e: Event)
        ensures
            final(self)@ == old(self)@.push(e),
    {
        self.events.push(e);
    }

    /// Pop the next event: the minimum by `(time, priority)`, insertion order
    /// breaking ties. Returns nothing exactly when the queue is empty.
    pub fn pop(&mut self) -> (r: Option<Event>)
        ensures
            old(self)@.len() == 0 ==> r is None && final(self)@ == old(self)@,
            old(self)@.len() > 0 ==> r == Some(old(self)@[min_index(old(self)@)]),
            old(self)@.len() > 0 ==> final(self)@ == old(self)@.remove(min_index(old(self)@)),
    {
        if self.events.len() == 0 {
            return None;
        }
        let ghost s = self.events@;
        let mut best: usize = 0;
        let mut i: usize = 1;
        while i < self.events.len()
            invariant
                1 <= i <= s.len(),
                s == self.events@,
                best < i,
                best == min_index(s.take(i as int)),
            decreases s.len() - i,
        {
            proof {
                assert(s.take(i + 1).drop_last() =~= s.take(i as int));
                assert(s.take(i + 1).last() == s[i as int]);
                lemma_min_index(s.take(i as int));
            }
            let cand = self.events[i];
            let cur = self.events[best];
            if cand.time < cur.time || (cand.time == cur.time && cand.priority < cur.priority) {
                best = i;
            }
            i = i + 1;
        }
        proof {
            assert(s.take(s.len() as int) =~= s);
        }
        let e = self.events.remove(best);
        Some(e)
    }

    /// Bulk removal: drop every pending enemy action (primary and secondary),
    /// keeping all other events in order. Used when an enemy dies, so that
    /// its stale attacks never fire against the next enemy.
    pub fn purge_enemy_events(&mut self)
        ensures
            final(self)@ == without_enemy_events(old(self)@),
    {
        let ghost s = self.events@;
        let mut kept: Vec<Event> = Vec::new();
        let mut i: usize = 0;
        while i < self.events.len()
            invariant
                i <= s.len(),
                s == self.events@,
                kept@ == without_enemy_events(s.take(i as int)),
            decreases s.len() - i,
        {
            proof {
                assert(s.take(i + 1).drop_last() =~= s.take(i as int));
                assert(s.take(i + 1).last() == s[i as int]);
            }
            let e = self.events[i];
            if !(e.kind == EventKind::EnemyAction || e.kind == EventKind::EnemySecondaryAction) {
                kept.push(e);
            }
            i = i + 1;
        }
        proof {
            assert(s.take(s.len() as int) =~= s);
        }
        self.events = kept;
    }

    /// Stun splice: delay the pending primary enemy action with the lowest
    /// time by `d` micro-seconds. A no-op when none is pending.
    pub fn splice_enemy_action(&mut self, d: u64)
        ensures
            final(self)@ == spliced(old(self)@, d),
    {
        let ghost s = self.events@;
        let mut best: usize = 0;
        let mut found = false;
        let mut i: usize = 0;
        while i < self.events.len()
            invariant
                i <= s.len(),
                s == self.events@,
                !found ==> enemy_min_index(s.take(i as int)) == -1,
                found ==> best < i && best == enemy_min_index(s.take(i as int)),
            decreases s.len() - i,
        {
            proof {
                assert(s.take(i + 1).drop_last() =~= s.take(i as int));
                assert(s.take(i + 1).last() == s[i as int]);
                if found {
                    lemma_enemy_min_index(s.take(i as int));
                }
            }
            let e = self.events[i];
            if e.kind == EventKind::EnemyAction {
                if !found {
                    best = i;
                    found = true;
                } else {
                    let cur = self.events[best];
                    if !(cur.time < e.time || (cur.time == e.time && cur.priority <= e.priority)) {
                        best = i;
                    }
                }
            }
            i = i + 1;
        }
        proof {
            assert(s.take(s.len() as int) =~= s);
        }
        if found {
            proof {
                lemma_enemy_min_index(s);
            }
            let e = self.events.remove(best);
            let delayed = Event { time: add_cap(e.time, d), priority: e.priority, kind: e.kind };
            self.events.push(delayed);
        }
    }

    /// How many events are pending.
    pub fn len(&self) -> (r: usize)
        ensures
            r == self@.len(),
    {
        self.events.len()
    }
}

} // verus!
