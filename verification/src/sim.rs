//! The run controller: one full simulated run, and batches of runs.
//!
//! A run drives stage progression, enemy spawning, the per-enemy event loop
//! and the terminal conditions, then computes final loot from the stage
//! count. Every step is an exact function of the combat state and the
//! generator's seed and draw count, so a whole run is a deterministic
//! function of the player's stats and the seed: `run_simulation_with_seed`
//! returns exactly `spec_run(stats, seed, 0)`.

use vstd::prelude::*;
use crate::fixed::{SCALE, cap_add, add_cap, sat_sub, sub_floor, cap_mul_frac, mul_frac,
    cap_mul_int, mul_int, cap_div_frac, div_frac, pow_frac, pow_frac_exec, milli_round,
    round_to_milli, bump};
use crate::hunter::{Hunter, HunterType, PlayerStats, spec_is_boss_stage, is_boss_stage};
use crate::enemy::Enemy;
use crate::event::{Event, EventKind, EventQueue, min_index, without_enemy_events, spliced};
use crate::combat::{spec_hunter_attack, hunter_attack, spec_enemy_attack, enemy_attack,
    spec_enemy_attack_special, enemy_attack_special, spec_on_kill, on_kill,
    spec_on_stage_complete, on_stage_complete, spec_spawn_effects, apply_spawn_effects};
use crate::rng::FastRng;
use crate::stats::SimResult;

verus! {

/// The event budget of one run: when this many events have been processed
/// the run finalizes where it stands. A backstop against stalemates, like
/// the stage safety cap.
pub const RUN_EVENT_BUDGET: u64 = 5_000_000;

/// The stage safety cap: no run goes past this stage index.
pub const STAGE_SAFETY_CAP: u32 = 1000;

/// The mutable state of one run between events.
pub struct Sim {
    pub hunter: Hunter,
    pub enemies: Vec<Enemy>,
    pub enemy_idx: usize,
    pub queue: EventQueue,
    /// Whole in-simulation seconds, advanced by the regeneration tick.
    pub elapsed: u64,
    /// Remaining event budget.
    pub fuel: u64,
    /// Trample kills reported by the last player attack.
    pub pending_trample: u32,
}

/// The ghost image of a run's state, including the generator's draw count.
#[verifier::ext_equal]
pub ghost struct SimS {
    pub hunter: Hunter,
    pub enemies: Seq<Enemy>,
    pub enemy_idx: int,
    pub queue: Seq<Event>,
    pub elapsed: u64,
    pub fuel: u64,
    pub pending_trample: u32,
    pub idx: u64,
}

/// The ghost image of an executable run state and its generator.
pub open spec fn sim_state(s: Sim, rng: FastRng) -> SimS {
    SimS {
        hunter: s.hunter,
        enemies: s.enemies@,
        enemy_idx: s.enemy_idx as int,
        queue: s.queue@,
        elapsed: s.elapsed,
        fuel: s.fuel,
        pending_trample: s.pending_trample,
        idx: rng.draws(),
    }
}

/// A state is coherent when its enemy index points into its enemy list.
pub open spec fn sim_inv(st: SimS) -> bool {
    0 <= st.enemy_idx < st.enemies.len()
}

/// What processing one popped event does to the state; `ev.time` is the
/// popped event's timestamp, from which follow-up events are scheduled
/// (rounded to whole milli-seconds).
pub open spec fn spec_dispatch(st: SimS, ev: Event, seed: u64) -> SimS {
    let e = st.enemies[st.enemy_idx];
    match ev.kind {
        EventKind::HunterAction => {
            let (h1, e1, tramples, idx1) = spec_hunter_attack(st.hunter, e, seed, st.idx);
            let sp = h1.spec_speed_value();
            let h2 = Hunter { fires_of_war_buff: 0, ..h1 };
            let q1 = st.queue.push(Event {
                time: milli_round(cap_add(ev.time, sp)),
                priority: 1,
                kind: EventKind::HunterAction,
            });
            let q2 = if h2.pending_stun_duration > 0 {
                q1.push(Event { time: 0, priority: 0, kind: EventKind::Stun })
            } else {
                q1
            };
            SimS {
                hunter: h2,
                enemies: st.enemies.update(st.enemy_idx, e1),
                queue: q2,
                pending_trample: tramples,
                idx: idx1,
                ..st
            }
        }
        EventKind::Stun => {
            if st.hunter.pending_stun_duration > 0 {
                let d = st.hunter.pending_stun_duration;
                let h1 = Hunter {
                    pending_stun_duration: 0,
                    result: SimResult {
                        stun_duration_inflicted:
                            cap_add(st.hunter.result.stun_duration_inflicted, d),
                        ..st.hunter.result
                    },
                    ..st.hunter
                };
                SimS { hunter: h1, queue: spliced(st.queue, d), ..st }
            } else {
                st
            }
        }
        EventKind::EnemyAction => {
            let (h1, e1, idx1) = spec_enemy_attack(st.hunter, e, seed, st.idx);
            let q1 = if e1.hp != 0 {
                st.queue.push(Event {
                    time: milli_round(cap_add(ev.time, e1.speed)),
                    priority: 2,
                    kind: EventKind::EnemyAction,
                })
            } else {
                st.queue
            };
            SimS {
                hunter: h1,
                enemies: st.enemies.update(st.enemy_idx, e1),
                queue: q1,
                idx: idx1,
                ..st
            }
        }
        EventKind::EnemySecondaryAction => {
            let (h1, e1, idx1) = spec_enemy_attack_special(st.hunter, e, seed, st.idx);
            let q1 = if e1.hp != 0 {
                st.queue.push(Event {
                    time: milli_round(cap_add(ev.time, e1.speed2)),
                    priority: 2,
                    kind: EventKind::EnemySecondaryAction,
                })
            } else {
                st.queue
            };
            SimS {
                hunter: h1,
                enemies: st.enemies.update(st.enemy_idx, e1),
                queue: q1,
                idx: idx1,
                ..st
            }
        }
        EventKind::RegenTick => {
            let h1 = st.hunter.spec_regen_tick();
            let e1 = e.spec_regen_tick();
            let el = if st.elapsed < u64::MAX { (st.elapsed + 1) as u64 } else { st.elapsed };
            let q1 = st.queue.push(Event {
                time: cap_mul_int(el, SCALE as u64),
                priority: 3,
                kind: EventKind::RegenTick,
            });
            SimS {
                hunter: h1,
                enemies: st.enemies.update(st.enemy_idx, e1),
                queue: q1,
                elapsed: el,
                idx: st.idx,
                ..st
            }
        }
    }
}

/// Process one popped event.
#[verifier::rlimit(60)]
pub fn dispatch(s: &mut Sim, ev: Event, rng: &mut FastRng)
    requires
        old(s).enemy_idx < old(s).enemies.len(),
    ensures
        sim_state(*final(s), *final(rng))
            == spec_dispatch(sim_state(*old(s), *old(rng)), ev, old(rng).seed()),
        final(rng).seed() == old(rng).seed(),
        final(s).enemies.len() == old(s).enemies.len(),
        final(s).enemy_idx == old(s).enemy_idx,
        final(s).elapsed >= old(s).elapsed,
        final(s).fuel == old(s).fuel,
{
    match ev.kind {
        EventKind::HunterAction => {
            let mut e = s.enemies[s.enemy_idx];
            let tramples = hunter_attack(&mut s.hunter, &mut e, rng);
            s.enemies.set(s.enemy_idx, e);
            s.pending_trample = tramples;
            let sp = s.hunter.get_speed();
            s.queue.push(Event {
                time: round_to_milli(add_cap(ev.time, sp)),
                priority: 1,
                kind: EventKind::HunterAction,
            });
            if s.hunter.pending_stun_duration > 0 {
                s.queue.push(Event { time: 0, priority: 0, kind: EventKind::Stun });
            }
        }
        EventKind::Stun => {
            if s.hunter.pending_stun_duration > 0 {
                let d = s.hunter.pending_stun_duration;
                s.hunter.pending_stun_duration = 0;
                s.hunter.result.stun_duration_inflicted =
                    add_cap(s.hunter.result.stun_duration_inflicted, d);
                s.queue.splice_enemy_action(d);
            }
        }
        EventKind::EnemyAction => {
            let mut e = s.enemies[s.enemy_idx];
            enemy_attack(&mut s.hunter, &mut e, rng);
            s.enemies.set(s.enemy_idx, e);
            if e.hp != 0 {
                s.queue.push(Event {
                    time: round_to_milli(add_cap(ev.time, e.speed)),
                    priority: 2,
                    kind: EventKind::EnemyAction,
                });
            }
        }
        EventKind::EnemySecondaryAction => {
            let mut e = s.enemies[s.enemy_idx];
            enemy_attack_special(&mut s.hunter, &mut e, rng);
            s.enemies.set(s.enemy_idx, e);
            if e.hp != 0 {
                s.queue.push(Event {
                    time: round_to_milli(add_cap(ev.time, e.speed2)),
                    priority: 2,
                    kind: EventKind::EnemySecondaryAction,
                });
            }
        }
        EventKind::RegenTick => {
            s.hunter.regen_hp();
            let mut e = s.enemies[s.enemy_idx];
            e.regen_hp();
            s.enemies.set(s.enemy_idx, e);
            if s.elapsed < u64::MAX {
                s.elapsed = s.elapsed + 1;
            }
            s.queue.push(Event {
                time: mul_int(s.elapsed, SCALE),
                priority: 3,
                kind: EventKind::RegenTick,
            });
        }
    }
}

/// The per-enemy event loop: pop and dispatch until the enemy or the
/// player is dead, the queue is empty, or the event budget runs out. Each
/// processed event costs one unit of budget.
pub open spec fn spec_combat_events(st: SimS, seed: u64) -> SimS
    decreases st.fuel,
{
    if !sim_inv(st) || st.fuel == 0 || st.enemies[st.enemy_idx].hp == 0
        || st.hunter.hp == 0 || st.queue.len() == 0 {
        st
    } else {
        let i = min_index(st.queue);
        let ev = st.queue[i];
        let st1 = SimS { queue: st.queue.remove(i), ..st };
        let st2 = spec_dispatch(st1, ev, seed);
        spec_combat_events(SimS { fuel: (st.fuel - 1) as u64, ..st2 }, seed)
    }
}

/// Run the per-enemy event loop.
#[verifier::rlimit(60)]
pub fn combat_events(s: &mut Sim, rng: &mut FastRng)
    requires
        old(s).enemy_idx < old(s).enemies.len(),
    ensures
        sim_state(*final(s), *final(rng))
            == spec_combat_events(sim_state(*old(s), *old(rng)), old(rng).seed()),
        final(rng).seed() == old(rng).seed(),
        final(s).enemies.len() == old(s).enemies.len(),
        final(s).enemy_idx == old(s).enemy_idx,
        final(s).fuel <= old(s).fuel,
{
    let ghost init = sim_state(*s, *rng);
    let ghost seed = rng.seed();
    loop
        invariant_except_break
            s.enemy_idx < s.enemies.len(),
            s.enemies@.len() == init.enemies.len(),
            s.enemy_idx == init.enemy_idx,
            rng.seed() == seed,
            s.fuel <= init.fuel,
            s.fuel == init.fuel ==> sim_state(*s, *rng) == init,
            spec_combat_events(sim_state(*s, *rng), seed) == spec_combat_events(init, seed),
        ensures
            s.enemy_idx < s.enemies.len(),
            s.enemies@.len() == init.enemies.len(),
            s.enemy_idx == init.enemy_idx,
            rng.seed() == seed,
            s.fuel <= init.fuel,
            s.fuel == init.fuel ==> sim_state(*s, *rng) == init,
            sim_state(*s, *rng) == spec_combat_events(init, seed),
        decreases s.fuel,
    {
        if s.fuel == 0 {
            break;
        }
        let e = s.enemies[s.enemy_idx];
        if e.hp == 0 || s.hunter.hp == 0 {
            break;
        }
        let ghost prev = sim_state(*s, *rng);
        let popped = s.queue.pop();
        match popped {
            Option::None => {
                break;
            }
            Option::Some(ev) => {
                proof {
                    assert(sim_state(*s, *rng)
                        =~= (SimS { queue: prev.queue.remove(min_index(prev.queue)), ..prev }));
                }
                let ghost st1 = sim_state(*s, *rng);
                dispatch(s, ev, rng);
                s.fuel = s.fuel - 1;
                proof {
                    let st2 = spec_dispatch(st1, ev, seed);
                    assert(sim_state(*s, *rng) =~= (SimS { fuel: (prev.fuel - 1) as u64, ..st2 }));
                    assert(spec_combat_events(prev, seed)
                        == spec_combat_events(SimS { fuel: (prev.fuel - 1) as u64, ..st2 }, seed));
                }
            }
        }
    }
}

/// Mark the trample's additional kills: each queued enemy within reach is
/// set dead, counted as a kill, and runs the on-kill hook (never as a
/// boss kill).
pub open spec fn spec_mark_tramples(st: SimS, i: int, seed: u64) -> SimS
    decreases st.pending_trample - i + 1 when i >= 1
{
    if i > st.pending_trample {
        st
    } else {
        let st1 = if st.enemy_idx + i < st.enemies.len() {
            let em = st.enemies[st.enemy_idx + i];
            let h1 = Hunter {
                result: SimResult {
                    kills: cap_add(st.hunter.result.kills, 1),
                    ..st.hunter.result
                },
                ..st.hunter
            };
            let (h2, idx2) = spec_on_kill(h1, false, seed, st.idx);
            SimS {
                enemies: st.enemies.update(st.enemy_idx + i, Enemy { hp: 0, ..em }),
                hunter: h2,
                idx: idx2,
                ..st
            }
        } else {
            st
        };
        spec_mark_tramples(st1, i + 1, seed)
    }
}

/// Trample law, run level: marking the pending trample kills touches
/// nothing but the enemy list, the kill counter and the on-kill hook's
/// accumulators. Exactly the queued enemies within the trample's reach —
/// the `min(pending, enemies left) ` entries after the cursor — are set
/// dead, each is counted as one kill, every other enemy is untouched, and
/// the event queue is untouched (their action events were never queued;
/// the fight's later purge removes the current target's).
pub proof fn lemma_trample_marking(st: SimS, i: int, seed: u64)
    requires
        sim_inv(st),
        1 <= i,
    ensures
        spec_mark_tramples(st, i, seed).enemies.len() == st.enemies.len(),
        spec_mark_tramples(st, i, seed).enemy_idx == st.enemy_idx,
        spec_mark_tramples(st, i, seed).queue == st.queue,
        spec_mark_tramples(st, i, seed).fuel == st.fuel,
        spec_mark_tramples(st, i, seed).elapsed == st.elapsed,
        spec_mark_tramples(st, i, seed).pending_trample == st.pending_trample,
        forall|j: int| st.enemy_idx + i <= j < st.enemies.len()
            && j <= st.enemy_idx + st.pending_trample
            ==> #[trigger] spec_mark_tramples(st, i, seed).enemies[j].hp == 0,
        forall|j: int| 0 <= j < st.enemies.len()
            && (j < st.enemy_idx + i || j > st.enemy_idx + st.pending_trample)
            ==> #[trigger] spec_mark_tramples(st, i, seed).enemies[j] == st.enemies[j],
        st.hunter.result.kills + marked_count(st, i) <= crate::fixed::CAP
            ==> spec_mark_tramples(st, i, seed).hunter.result.kills
                == st.hunter.result.kills + marked_count(st, i),
    decreases st.pending_trample + 1 - i,
{
    if i <= st.pending_trample {
        let st1 = if st.enemy_idx + i < st.enemies.len() {
            let em = st.enemies[st.enemy_idx + i];
            let h1 = Hunter {
                result: SimResult {
                    kills: cap_add(st.hunter.result.kills, 1),
                    ..st.hunter.result
                },
                ..st.hunter
            };
            let (h2, idx2) = spec_on_kill(h1, false, seed, st.idx);
            SimS {
                enemies: st.enemies.update(st.enemy_idx + i, Enemy { hp: 0, ..em }),
                hunter: h2,
                idx: idx2,
                ..st
            }
        } else {
            st
        };
        lemma_trample_marking(st1, i + 1, seed);
        assert(st1.hunter.result.kills == if st.enemy_idx + i < st.enemies.len() {
            cap_add(st.hunter.result.kills, 1)
        } else {
            st.hunter.result.kills
        });
        assert(marked_count(st1, i + 1) == if st.enemy_idx + i < st.enemies.len() {
            marked_count(st, i) - 1
        } else {
            marked_count(st, i)
        });
    }
}

/// How many queued enemies the marking pass from offset `i` reaches: the
/// entries from the cursor plus `i` through the cursor plus the pending
/// trample count, clipped to the enemy list.
pub open spec fn marked_count(st: SimS, i: int) -> int {
    let lo = st.enemy_idx + i;
    let hi = if st.enemy_idx + st.pending_trample < st.enemies.len() - 1 {
        st.enemy_idx + st.pending_trample
    } else {
        st.enemies.len() - 1
    };
    if hi >= lo { hi - lo + 1 } else { 0 }
}

/// A queued enemy already dead when its turn comes — a trampled one — is
/// skipped outright: the cursor advances and nothing else changes; in
/// particular none of its action events is ever queued.
pub proof fn lemma_dead_enemy_skipped(st: SimS, seed: u64)
    requires
        sim_inv(st),
        st.enemies[st.enemy_idx].hp == 0,
    ensures
        spec_fight_one(st, seed) == (SimS { enemy_idx: st.enemy_idx + 1, ..st }),
{
}

/// Apply the pending trample kills.
#[verifier::rlimit(60)]
pub fn mark_tramples(s: &mut Sim, rng: &mut FastRng)
    ensures
        sim_state(*final(s), *final(rng))
            == spec_mark_tramples(sim_state(*old(s), *old(rng)), 1, old(rng).seed()),
        final(rng).seed() == old(rng).seed(),
        final(s).enemies.len() == old(s).enemies.len(),
        final(s).enemy_idx == old(s).enemy_idx,
        final(s).fuel == old(s).fuel,
        final(s).pending_trample == old(s).pending_trample,
{
    let ghost init = sim_state(*s, *rng);
    let ghost seed = rng.seed();
    let pending: u64 = s.pending_trample as u64;
    let mut i: u64 = 1;
    while i <= pending
        invariant
            1 <= i <= pending + 1,
            pending == s.pending_trample,
            pending == init.pending_trample,
            s.enemies@.len() == init.enemies.len(),
            s.enemy_idx == init.enemy_idx,
            s.fuel == init.fuel,
            s.elapsed == init.elapsed,
            rng.seed() == seed,
            spec_mark_tramples(sim_state(*s, *rng), i as int, seed)
                == spec_mark_tramples(init, 1, seed),
        decreases pending + 1 - i,
    {
        let ghost prev = sim_state(*s, *rng);
        if s.enemy_idx < s.enemies.len() && i < (s.enemies.len() - s.enemy_idx) as u64 {
            let at = s.enemy_idx + i as usize;
            let mut em = s.enemies[at];
            em.hp = 0;
            s.enemies.set(at, em);
            s.hunter.result.kills = add_cap(s.hunter.result.kills, 1);
            on_kill(&mut s.hunter, false, rng);
        }
        proof {
            assert(spec_mark_tramples(sim_state(*s, *rng), i + 1, seed)
                == spec_mark_tramples(prev, i as int, seed));
        }
        i = i + 1;
    }
}

/// One enemy's whole fight: dead enemies are skipped outright; otherwise
/// the enemy's action events are queued, the event loop runs, trample
/// kills are marked, and — unless the player died or the budget ran out —
/// the enemy's stale events are purged, the on-kill hook runs, the kill is
/// counted, and the cursor advances past the trampled enemies.
pub open spec fn spec_fight_one(st: SimS, seed: u64) -> SimS {
    if !sim_inv(st) {
        st
    } else {
        let e0 = st.enemies[st.enemy_idx];
        if e0.hp == 0 {
            SimS { enemy_idx: st.enemy_idx + 1, ..st }
        } else {
            let q1 = st.queue.push(Event {
                time: milli_round(cap_add(cap_mul_int(st.elapsed, SCALE as u64), e0.speed)),
                priority: 2,
                kind: EventKind::EnemyAction,
            });
            let q2 = if e0.has_secondary {
                q1.push(Event {
                    time: milli_round(cap_add(cap_mul_int(st.elapsed, SCALE as u64), e0.speed2)),
                    priority: 2,
                    kind: EventKind::EnemySecondaryAction,
                })
            } else {
                q1
            };
            let st1 = SimS { queue: q2, pending_trample: 0, ..st };
            let st2 = spec_combat_events(st1, seed);
            let st3 = spec_mark_tramples(st2, 1, seed);
            if st3.hunter.hp == 0 {
                st3
            } else if st3.fuel == 0 {
                st3
            } else {
                let st4 = SimS { queue: without_enemy_events(st3.queue), ..st3 };
                let is_boss = st4.enemies[st4.enemy_idx].is_boss;
                let (h1, idx1) = spec_on_kill(st4.hunter, is_boss, seed, st4.idx);
                let h2 = Hunter {
                    result: SimResult { kills: cap_add(h1.result.kills, 1), ..h1.result },
                    ..h1
                };
                SimS {
                    hunter: h2,
                    idx: idx1,
                    enemy_idx: if st4.enemy_idx + 1 + st4.pending_trample > usize::MAX {
                        usize::MAX as int
                    } else {
                        st4.enemy_idx + 1 + st4.pending_trample
                    },
                    ..st4
                }
            }
        }
    }
}

/// Fight the enemy under the cursor.
#[verifier::rlimit(100)]
pub fn fight_one(s: &mut Sim, rng: &mut FastRng)
    requires
        old(s).enemy_idx < old(s).enemies.len(),
    ensures
        sim_state(*final(s), *final(rng))
            == spec_fight_one(sim_state(*old(s), *old(rng)), old(rng).seed()),
        final(rng).seed() == old(rng).seed(),
        final(s).enemies.len() == old(s).enemies.len(),
        final(s).fuel <= old(s).fuel,
        old(s).fuel > 0 && final(s).hunter.hp != 0 && final(s).fuel == old(s).fuel
            ==> final(s).enemy_idx > old(s).enemy_idx,
{
    let e0 = s.enemies[s.enemy_idx];
    if e0.hp == 0 {
        s.enemy_idx = s.enemy_idx + 1;
        return;
    }
    s.queue.push(Event {
        time: round_to_milli(add_cap(mul_int(s.elapsed, SCALE), e0.speed)),
        priority: 2,
        kind: EventKind::EnemyAction,
    });
    if e0.has_secondary {
        s.queue.push(Event {
            time: round_to_milli(add_cap(mul_int(s.elapsed, SCALE), e0.speed2)),
            priority: 2,
            kind: EventKind::EnemySecondaryAction,
        });
    }
    s.pending_trample = 0;
    combat_events(s, rng);
    mark_tramples(s, rng);
    if s.hunter.hp == 0 {
        return;
    }
    if s.fuel == 0 {
        return;
    }
    s.queue.purge_enemy_events();
    let is_boss = s.enemies[s.enemy_idx].is_boss;
    on_kill(&mut s.hunter, is_boss, rng);
    s.hunter.result.kills = add_cap(s.hunter.result.kills, 1);
    let adv: u128 = s.enemy_idx as u128 + 1 + s.pending_trample as u128;
    s.enemy_idx = if adv > usize::MAX as u128 { usize::MAX } else { adv as usize };
}

/// The freshly spawned enemy list of a stage: one boss at a boss stage,
/// otherwise a group of ten regular enemies, each passed through the
/// player's spawn modifiers.
pub open spec fn spec_spawned_enemies(h: Hunter) -> Seq<Enemy> {
    let stage = h.current_stage;
    let ht = h.stats.hunter_type;
    let raw = if spec_is_boss_stage(stage) {
        seq![Enemy::spec_new_boss(stage, ht)]
    } else {
        Seq::new(10, |i: int| Enemy::spec_new(stage, ht))
    };
    Seq::new(raw.len(), |i: int| spec_spawn_effects(h, raw[i]))
}

/// Spawn the stage's enemies and point the cursor at the first.
pub fn spawn_enemies(s: &mut Sim)
    ensures
        *final(s) == (Sim { enemies: final(s).enemies, enemy_idx: 0, ..*old(s) }),
        final(s).enemies@ == spec_spawned_enemies(old(s).hunter),
        final(s).enemies.len() > 0,
{
    let stage = s.hunter.current_stage;
    let ht = s.hunter.stats.hunter_type;
    let mut v: Vec<Enemy> = Vec::new();
    if is_boss_stage(stage) {
        v.push(Enemy::new_boss(stage, ht));
    } else {
        let mut k: usize = 0;
        while k < 10
            invariant
                k <= 10,
                v@.len() == k,
                forall|i: int| 0 <= i < k ==> v@[i] == Enemy::spec_new(stage, ht),
            decreases 10 - k,
        {
            v.push(Enemy::new(stage, ht));
            k = k + 1;
        }
    }
    let ghost raw = v@;
    let mut j: usize = 0;
    while j < v.len()
        invariant
            j <= v@.len(),
            v@.len() == raw.len(),
            forall|i: int| 0 <= i < j ==> v@[i] == spec_spawn_effects(s.hunter, raw[i]),
            forall|i: int| j <= i < raw.len() ==> v@[i] == raw[i],
            s.hunter == old(s).hunter,
        decreases v@.len() - j,
    {
        let mut e = v[j];
        apply_spawn_effects(&s.hunter, &mut e);
        v.set(j, e);
        j = j + 1;
    }
    proof {
        let stage0 = old(s).hunter.current_stage;
        let ht0 = old(s).hunter.stats.hunter_type;
        let raw0 = if spec_is_boss_stage(stage0) {
            seq![Enemy::spec_new_boss(stage0, ht0)]
        } else {
            Seq::new(10, |i: int| Enemy::spec_new(stage0, ht0))
        };
        assert(raw =~= raw0);
        assert(v@ =~= spec_spawned_enemies(old(s).hunter));
    }
    s.enemies = v;
    s.enemy_idx = 0;
}

/// The per-stage enemy loop: fight enemies in spawn order until all are
/// done, the player is dead, or the event budget (or the loop's own
/// iteration budget) runs out.
pub open spec fn spec_enemy_loop(st: SimS, seed: u64, budget: u64) -> SimS
    decreases budget,
{
    if budget == 0 || !(st.enemy_idx < st.enemies.len()) || st.hunter.hp == 0
        || st.fuel == 0 {
        st
    } else {
        spec_enemy_loop(spec_fight_one(st, seed), seed, (budget - 1) as u64)
    }
}

/// The iteration budget of the enemy loop: every iteration either advances
/// the cursor or consumes an event, so this bound is never the binding one.
pub open spec fn spec_loop_budget(st: SimS) -> u64 {
    if st.enemies.len() + st.fuel + 1 > u64::MAX {
        u64::MAX
    } else {
        (st.enemies.len() + st.fuel + 1) as u64
    }
}

/// Run the per-stage enemy loop.
pub fn enemy_loop(s: &mut Sim, rng: &mut FastRng)
    ensures
        sim_state(*final(s), *final(rng))
            == spec_enemy_loop(sim_state(*old(s), *old(rng)), old(rng).seed(),
                spec_loop_budget(sim_state(*old(s), *old(rng)))),
        final(rng).seed() == old(rng).seed(),
        final(s).fuel <= old(s).fuel,
{
    let ghost init = sim_state(*s, *rng);
    let ghost seed = rng.seed();
    let b128: u128 = s.enemies.len() as u128 + s.fuel as u128 + 1;
    let mut b: u64 = if b128 > u64::MAX as u128 { u64::MAX } else { b128 as u64 };
    let ghost b0 = b;
    loop
        invariant_except_break
            rng.seed() == seed,
            s.fuel <= init.fuel,
            spec_enemy_loop(sim_state(*s, *rng), seed, b)
                == spec_enemy_loop(init, seed, b0),
            b0 == spec_loop_budget(init),
        ensures
            rng.seed() == seed,
            s.fuel <= init.fuel,
            sim_state(*s, *rng) == spec_enemy_loop(init, seed, b0),
            b0 == spec_loop_budget(init),
        decreases b,
    {
        if b == 0 || !(s.enemy_idx < s.enemies.len()) || s.hunter.hp == 0 || s.fuel == 0 {
            break;
        }
        fight_one(s, rng);
        b = b - 1;
    }
}

/// The early-termination condition: the player is permanently dead, or has
/// no revives and the remaining in-simulation time cannot plausibly reach
/// the minimum stage threshold even at an optimistic advancement rate.
pub open spec fn spec_can_terminate(h: Hunter, elapsed: u64) -> bool {
    h.hp == 0 || (h.stats.max_revives == 0 && 6 * h.current_stage + 3000 < elapsed)
}

/// Decide the early-termination condition.
pub fn can_terminate(h: &Hunter, elapsed: u64) -> (r: bool)
    ensures
        r == spec_can_terminate(*h, elapsed),
{
    h.hp == 0 || (h.stats.max_revives == 0 && 6 * h.current_stage as u64 + 3000 < elapsed)
}

/// One full stage: spawn, fight the group, then — if the player survived —
/// run the stage-clear hook, advance the stage index, and at the
/// archetype's hard cap end the run by zeroing health with revives spent.
pub open spec fn spec_do_stage(st: SimS, seed: u64) -> SimS {
    let is_boss = spec_is_boss_stage(st.hunter.current_stage);
    let st1 = SimS { enemies: spec_spawned_enemies(st.hunter), enemy_idx: 0, ..st };
    let st2 = spec_enemy_loop(st1, seed, spec_loop_budget(st1));
    if st2.hunter.hp == 0 {
        st2
    } else {
        let (h1, idx1) = spec_on_stage_complete(st2.hunter, is_boss, seed, st2.idx);
        let h2 = Hunter {
            current_stage: if h1.current_stage < u32::MAX {
                (h1.current_stage + 1) as u32
            } else {
                h1.current_stage
            },
            ..h1
        };
        let h3 = if h2.current_stage >= h2.stats.max_stage {
            Hunter { hp: 0, revive_count: h2.stats.max_revives, ..h2 }
        } else {
            h2
        };
        SimS { hunter: h3, idx: idx1, ..st2 }
    }
}

/// Play one full stage.
pub fn do_stage(s: &mut Sim, rng: &mut FastRng)
    ensures
        sim_state(*final(s), *final(rng))
            == spec_do_stage(sim_state(*old(s), *old(rng)), old(rng).seed()),
        final(rng).seed() == old(rng).seed(),
        final(s).fuel <= old(s).fuel,
{
    let ghost init = sim_state(*s, *rng);
    let is_boss = is_boss_stage(s.hunter.current_stage);
    spawn_enemies(s);
    proof {
        assert(sim_state(*s, *rng)
            =~= (SimS { enemies: spec_spawned_enemies(init.hunter), enemy_idx: 0, ..init }));
    }
    enemy_loop(s, rng);
    if s.hunter.hp != 0 {
        on_stage_complete(&mut s.hunter, is_boss, rng);
        if s.hunter.current_stage < u32::MAX {
            s.hunter.current_stage = s.hunter.current_stage + 1;
        }
        if s.hunter.current_stage >= s.hunter.stats.max_stage {
            s.hunter.hp = 0;
            s.hunter.revive_count = s.hunter.stats.max_revives;
        }
    }
}

/// The stage loop: stages play out one after another until the
/// early-termination condition, the stage safety cap, or the event budget
/// ends the run. The stage budget only bounds the recursion; the safety
/// cap is reached first.
pub open spec fn spec_run_stages(st: SimS, seed: u64, budget: u32) -> SimS
    decreases budget,
{
    if budget == 0 || st.fuel == 0 || spec_can_terminate(st.hunter, st.elapsed)
        || st.hunter.current_stage > STAGE_SAFETY_CAP {
        st
    } else {
        let st1 = spec_do_stage(st, seed);
        if st1.hunter.hp == 0 {
            st1
        } else {
            spec_run_stages(st1, seed, (budget - 1) as u32)
        }
    }
}

/// Run the stage loop.
pub fn run_stages(s: &mut Sim, rng: &mut FastRng)
    ensures
        sim_state(*final(s), *final(rng))
            == spec_run_stages(sim_state(*old(s), *old(rng)), old(rng).seed(), 1002),
        final(rng).seed() == old(rng).seed(),
{
    let ghost init = sim_state(*s, *rng);
    let ghost seed = rng.seed();
    let mut b: u32 = 1002;
    loop
        invariant_except_break
            rng.seed() == seed,
            spec_run_stages(sim_state(*s, *rng), seed, b)
                == spec_run_stages(init, seed, 1002),
        ensures
            rng.seed() == seed,
            sim_state(*s, *rng) == spec_run_stages(init, seed, 1002),
        decreases b,
    {
        if b == 0 || s.fuel == 0 || can_terminate(&s.hunter, s.elapsed)
            || s.hunter.current_stage > STAGE_SAFETY_CAP {
            break;
        }
        do_stage(s, rng);
        if s.hunter.hp == 0 {
            break;
        }
        b = b - 1;
    }
}

/// Death with the allowance spent ends the run where it stands: a dead
/// player terminates the stage loop at once, no later stage is entered,
/// and the final record carries exactly the stage of death and the
/// revives consumed.
pub proof fn lemma_dead_state_ends_run(st: SimS, seed: u64, budget: u32)
    requires
        st.hunter.hp == 0,
    ensures
        spec_can_terminate(st.hunter, st.elapsed),
        spec_run_stages(st, seed, budget) == st,
        spec_finalize(st).final_stage == st.hunter.current_stage,
        spec_finalize(st).revive_count == st.hunter.revive_count,
        spec_finalize(st).elapsed_time == st.elapsed,
{
}

/// The per-stage multiplicative loot growth rate of an archetype.
pub open spec fn spec_stage_loot_mult(ht: HunterType) -> u64 {
    match ht {
        HunterType::Borge => 1_051_000,
        HunterType::Ozzy => 1_059_000,
        HunterType::Knox => 1_074_000,
    }
}

/// The per-enemy per-stage base loot of the three tiers and the base
/// experience of an archetype, micro-units.
pub open spec fn spec_loot_bases(ht: HunterType) -> (u64, u64, u64, u64) {
    match ht {
        HunterType::Borge => (30_740_000, 26_440_000, 19_920_000, 1_640_000_000_000_000_000),
        HunterType::Ozzy => (11_100_000, 9_560_000, 7_200_000, 96_600_000_000_000_000),
        HunterType::Knox => (3_480, 3_020, 2_280, 728_000_000),
    }
}

/// The final record of a finished run: loot from the closed-form geometric
/// sum over completed stages times enemies-per-stage and the loot
/// multiplier; experience linear in stages; and the final stage, elapsed
/// time and revive count copied out of the state.
pub open spec fn spec_finalize(st: SimS) -> SimResult {
    let h = st.hunter;
    let stage = h.current_stage;
    let m = spec_stage_loot_mult(h.stats.hunter_type);
    let geom = cap_div_frac(sat_sub(pow_frac(m, stage as nat), SCALE as u64),
        sat_sub(m, SCALE as u64));
    let factor = cap_mul_int(geom, 10);
    let bases = spec_loot_bases(h.stats.hunter_type);
    let lc = cap_mul_frac(cap_mul_frac(bases.0, factor), h.stats.loot_mult);
    let lu = cap_mul_frac(cap_mul_frac(bases.1, factor), h.stats.loot_mult);
    let lr = cap_mul_frac(cap_mul_frac(bases.2, factor), h.stats.loot_mult);
    let xp = cap_mul_frac(cap_mul_int(bases.3, stage as u64), h.stats.xp_mult);
    SimResult {
        loot_common: lc,
        loot_uncommon: lu,
        loot_rare: lr,
        total_loot: cap_add(lc, cap_add(lu, lr)),
        total_xp: xp,
        final_stage: stage,
        elapsed_time: st.elapsed,
        revive_count: h.revive_count,
        ..h.result
    }
}

/// Compute the final record of a finished run.
pub fn finalize(s: &Sim, rng: &FastRng) -> (r: SimResult)
    ensures
        r == spec_finalize(sim_state(*s, *rng)),
{
    let h = &s.hunter;
    let stage = h.current_stage;
    let m = match h.stats.hunter_type {
        HunterType::Borge => 1_051_000,
        HunterType::Ozzy => 1_059_000,
        HunterType::Knox => 1_074_000,
    };
    let geom = div_frac(sub_floor(pow_frac_exec(m, stage), SCALE), sub_floor(m, SCALE));
    let factor = mul_int(geom, 10);
    let (bc, bu, br, bx) = match h.stats.hunter_type {
        HunterType::Borge => (30_740_000, 26_440_000, 19_920_000,
            1_640_000_000_000_000_000),
        HunterType::Ozzy => (11_100_000, 9_560_000, 7_200_000, 96_600_000_000_000_000),
        HunterType::Knox => (3_480, 3_020, 2_280, 728_000_000),
    };
    let lc = mul_frac(mul_frac(bc, factor), h.stats.loot_mult);
    let lu = mul_frac(mul_frac(bu, factor), h.stats.loot_mult);
    let lr = mul_frac(mul_frac(br, factor), h.stats.loot_mult);
    let xp = mul_frac(mul_int(bx, stage as u64), h.stats.xp_mult);
    SimResult {
        loot_common: lc,
        loot_uncommon: lu,
        loot_rare: lr,
        total_loot: add_cap(lc, add_cap(lu, lr)),
        total_xp: xp,
        final_stage: stage,
        elapsed_time: s.elapsed,
        revive_count: h.revive_count,
        ..h.result
    }
}

/// One full run as a function of the player's stats, the generator's seed
/// and its starting draw count: initial state, the two persistent seed
/// events, the stage loop, then the loot finalization. Returns the record
/// and the generator's draw count after the run.
pub open spec fn spec_run(stats: PlayerStats, seed: u64, idx: u64) -> (SimResult, u64) {
    let h0 = Hunter::spec_from_stats(stats);
    let sp = h0.spec_speed_value();
    let h1 = Hunter { fires_of_war_buff: 0, ..h0 };
    let q = Seq::<Event>::empty()
        .push(Event { time: milli_round(sp), priority: 1, kind: EventKind::HunterAction })
        .push(Event { time: 0, priority: 3, kind: EventKind::RegenTick });
    let st0 = SimS {
        hunter: h1,
        enemies: Seq::empty(),
        enemy_idx: 0,
        queue: q,
        elapsed: 0,
        fuel: RUN_EVENT_BUDGET as u64,
        pending_trample: 0,
        idx: idx,
    };
    let st1 = spec_run_stages(st0, seed, 1002);
    (spec_finalize(st1), st1.idx)
}

/// Run one full simulation on a caller-supplied generator. The result and
/// the generator's advance are exactly `spec_run` of the stats, the
/// generator's seed and its draw count: a replayed generator replays the
/// run.
pub fn run_simulation_with_rng(stats: &PlayerStats, rng: &mut FastRng) -> (r: SimResult)
    ensures
        (r, final(rng).draws()) == spec_run(*stats, old(rng).seed(), old(rng).draws()),
        final(rng).seed() == old(rng).seed(),
{
    let mut s = Sim {
        hunter: Hunter::from_stats(stats),
        enemies: Vec::new(),
        enemy_idx: 0,
        queue: EventQueue::empty(),
        elapsed: 0,
        fuel: RUN_EVENT_BUDGET,
        pending_trample: 0,
    };
    let sp = s.hunter.get_speed();
    s.queue.push(Event { time: round_to_milli(sp), priority: 1, kind: EventKind::HunterAction });
    s.queue.push(Event { time: 0, priority: 3, kind: EventKind::RegenTick });
    run_stages(&mut s, rng);
    finalize(&s, rng)
}

/// Run one simulation from a seed. The result is a pure function of the
/// stats and the seed, so repeated invocations with the same seed and
/// stats return identical records.
pub fn run_simulation_with_seed(stats: &PlayerStats, seed: u64) -> (r: SimResult)
    ensures
        r == spec_run(*stats, seed, 0).0,
{
    let mut rng = FastRng::new(seed);
    run_simulation_with_rng(stats, &mut rng)
}

/// Run one simulation on a seed drawn from the host's entropy. The result
/// is some seed's `spec_run` record; which seed is not reproducible.
pub fn run_simulation(stats: &PlayerStats) -> (r: SimResult)
    ensures
        exists|seed: u64| r == #[trigger] spec_run(*stats, seed, 0).0,
{
    let seed = crate::rng::random_seed();
    let r = run_simulation_with_seed(stats, seed);
    proof {
        assert(r == spec_run(*stats, seed, 0).0);
    }
    r
}

/// The records of `count` runs taken one after another from a single
/// generator: each run starts at the draw count where the previous one
/// stopped.
pub open spec fn spec_run_seq(stats: PlayerStats, seed: u64, idx: u64, count: nat)
    -> Seq<SimResult>
    decreases count,
{
    if count == 0 {
        Seq::empty()
    } else {
        let (r, idx1) = spec_run(stats, seed, idx);
        seq![r] + spec_run_seq(stats, seed, idx1, (count - 1) as nat)
    }
}

/// Run `count` simulations sequentially off one entropy-seeded generator.
/// The batch is some seed's `spec_run_seq`.
pub fn run_simulations_sequential(stats: &PlayerStats, count: usize) -> (r: Vec<SimResult>)
    ensures
        r@.len() == count,
        exists|seed: u64| r@ == #[trigger] spec_run_seq(*stats, seed, 0, count as nat),
{
    let seed = crate::rng::random_seed();
    let r = run_simulations_sequential_seeded(stats, count, seed);
    proof {
        assert(r@ == spec_run_seq(*stats, seed, 0, count as nat));
    }
    r
}

/// Run `count` simulations sequentially off one generator with a given
/// seed: the whole batch is a pure function of the stats and the seed.
#[verifier::rlimit(100)]
pub fn run_simulations_sequential_seeded(stats: &PlayerStats, count: usize, seed: u64)
    -> (r: Vec<SimResult>)
    ensures
        r@.len() == count,
        r@ == spec_run_seq(*stats, seed, 0, count as nat),
{
    let mut rng = FastRng::new(seed);
    let mut out: Vec<SimResult> = Vec::new();
    let mut i: usize = 0;
    while i < count
        invariant
            i <= count,
            out@.len() == i,
            rng.seed() == seed,
            out@ + spec_run_seq(*stats, seed, rng.draws(), (count - i) as nat)
                == spec_run_seq(*stats, seed, 0, count as nat),
        decreases count - i,
    {
        let ghost before = out@;
        let ghost idx0 = rng.draws();
        let r = run_simulation_with_rng(stats, &mut rng);
        out.push(r);
        proof {
            assert(spec_run_seq(*stats, seed, idx0, (count - i) as nat)
                =~= seq![r] + spec_run_seq(*stats, seed, rng.draws(), (count - i - 1) as nat));
            assert(out@ + spec_run_seq(*stats, seed, rng.draws(), (count - i - 1) as nat)
                =~= before + spec_run_seq(*stats, seed, idx0, (count - i) as nat));
        }
        i = i + 1;
    }
    proof {
        assert(spec_run_seq(*stats, seed, rng.draws(), 0) =~= Seq::<SimResult>::empty());
        assert(out@ =~= out@ + Seq::<SimResult>::empty());
    }
    out
}

/// Run `count` independent simulations across a worker pool, run `i`
/// seeded with `i`. Relies on `rayon`'s parallel iterator only to run the
/// verified per-seed simulation once per index and collect the records in
/// index order.
#[verifier::external_body]
pub fn run_simulations_parallel(stats: &PlayerStats, count: usize) -> (r: Vec<SimResult>)
    ensures
        r@.len() == count,
        forall|i: int| 0 <= i < count
            ==> r@[i] == #[trigger] spec_run(*stats, i as u64, 0).0,
{
    rayon::iter::ParallelIterator::collect(
        rayon::iter::ParallelIterator::map(
            rayon::iter::IntoParallelIterator::into_par_iter(0..count),
            |i| run_simulation_with_seed(stats, i as u64),
        ),
    )
}

/// The parallel batch of `count` runs: run `i` is seeded with `i`.
pub open spec fn spec_indexed_batch(stats: PlayerStats, count: nat) -> Seq<SimResult> {
    Seq::new(count, |i: int| spec_run(stats, i as u64, 0).0)
}

/// Run a batch and reduce it to aggregated statistics. The result stands
/// in `from_results`' relation to a genuine batch: the fully determined
/// index-seeded batch when the runs are distributed, or some seed's
/// sequential batch otherwise. Either way a non-empty batch's aggregate is
/// sane: the mean stage lies between the extrema and the survival shares
/// lie between zero and one.
pub fn run_and_aggregate(stats: &PlayerStats, count: usize, parallel: bool)
    -> (r: crate::stats::AggregatedStats)
    ensures
        parallel ==> crate::stats::spec_aggregates(
            spec_indexed_batch(*stats, count as nat), r),
        !parallel ==> exists|seed: u64| crate::stats::spec_aggregates(
            #[trigger] spec_run_seq(*stats, seed, 0, count as nat), r),
        count > 0 ==> (r.min_stage as int) * (SCALE as int) <= r.avg_stage
            <= (r.max_stage as int) * (SCALE as int),
        count > 0 ==> r.survival_rate <= SCALE,
        count > 0 ==> r.boss1_survival <= SCALE && r.boss2_survival <= SCALE
            && r.boss3_survival <= SCALE && r.boss4_survival <= SCALE
            && r.boss5_survival <= SCALE,
{
    let results = if parallel {
        let rs = run_simulations_parallel(stats, count);
        proof {
            assert(rs@ =~= spec_indexed_batch(*stats, count as nat));
        }
        rs
    } else {
        run_simulations_sequential(stats, count)
    };
    let r = crate::stats::AggregatedStats::from_results(&results);
    proof {
        if !parallel {
            let seed = choose|seed: u64|
                results@ == #[trigger] spec_run_seq(*stats, seed, 0, count as nat);
            assert(crate::stats::spec_aggregates(
                spec_run_seq(*stats, seed, 0, count as nat), r));
        }
    }
    r
}

} // verus!
