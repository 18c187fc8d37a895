//! Per-run result records and batch statistics.
//!
//! A [`SimResult`] is created fresh for each run, accumulates throughout it,
//! and is read-only once the run terminates. Amount fields are micro-units;
//! the other fields are plain counts.

use vstd::prelude::*;
use crate::fixed::{SCALE, CAP, cap_add, add_cap, sat_sub, isqrt, lemma_mul_bound};

verus! {

/// The per-run accumulators: damage dealt, mitigated and taken, kills,
/// critical/evade/multistrike counts, healing by source, stage reached,
/// elapsed in-simulation time, and loot/XP totals.
#[derive(Clone, Copy, Debug, PartialEq, Eq, Structural, Default)]
pub struct SimResult {
    /// Total damage dealt by the player, in micro-units.
    pub damage: u64,
    /// Damage taken by the player after mitigation, in micro-units.
    pub damage_taken: u64,
    /// Damage removed by the player's mitigation layers, in micro-units.
    pub mitigated_damage: u64,
    /// Healing from lifesteal, capped at missing health, in micro-units.
    pub lifesteal: u64,
    /// Healing from the life-of-the-hunt effect, in micro-units.
    pub life_of_the_hunt_healing: u64,
    /// Healing from the unfair-advantage on-kill effect, in micro-units.
    pub unfair_advantage_healing: u64,
    /// Health restored by regeneration ticks, in micro-units.
    pub regenerated_hp: u64,
    /// Damage reflected by the helltouch barrier, in micro-units.
    pub helltouch_barrier: u64,
    /// Extra damage from critical hits (and crippling stacks), in micro-units.
    pub extra_damage_from_crits: u64,
    /// Extra damage from multistrikes, in micro-units.
    pub extra_damage_from_ms: u64,
    /// Extra damage from bonus salvo projectiles, in micro-units.
    pub extra_salvo_damage: u64,
    /// Total stun time inflicted on enemies, in micro-seconds.
    pub stun_duration_inflicted: u64,
    /// Common-tier loot, in micro-units.
    pub loot_common: u64,
    /// Uncommon-tier loot, in micro-units.
    pub loot_uncommon: u64,
    /// Rare-tier loot, in micro-units.
    pub loot_rare: u64,
    /// Sum of the three loot tiers, in micro-units.
    pub total_loot: u64,
    /// Experience earned, in micro-units.
    pub total_xp: u64,
    /// Player attacks resolved.
    pub attacks: u64,
    /// Critical hits (charge procs for the salvo archetype).
    pub crits: u64,
    /// Enemies killed.
    pub kills: u64,
    /// Incoming attacks evaded by the evade-chance roll.
    pub evades: u64,
    /// Incoming attacks evaded by consuming a trickster charge.
    pub trickster_evades: u64,
    /// Multistrike procs.
    pub multistrikes: u64,
    /// Echo-bullet procs.
    pub echo_bullets: u64,
    /// Ghost-bullet (extra projectile) procs.
    pub ghost_bullets: u64,
    /// Enemy attacks that reached the defense resolution.
    pub enemy_attacks: u64,
    /// Chance-gated effect procs of all kinds.
    pub effect_procs: u64,
    /// Enemies finished off by reflected damage.
    pub helltouch_kills: u64,
    /// How many times the on-kill hook ran.
    pub on_kill_calls: u64,
    /// Lucky-loot procs on kills.
    pub lucky_loot_procs: u64,
    /// Additional enemies killed by trample.
    pub trample_kills: u64,
    /// The stage index at which the run ended.
    pub final_stage: u32,
    /// Whole in-simulation seconds elapsed when the run ended.
    pub elapsed_time: u64,
    /// How many revives the player consumed during the run.
    pub revive_count: u32,
}

impl SimResult {
    /// A fresh record with every accumulator at zero.
    pub fn new() -> (r: SimResult)
        ensures
            r == SimResult::zero(),
    {
        SimResult {
            damage: 0,
            damage_taken: 0,
            mitigated_damage: 0,
            lifesteal: 0,
            life_of_the_hunt_healing: 0,
            unfair_advantage_healing: 0,
            regenerated_hp: 0,
            helltouch_barrier: 0,
            extra_damage_from_crits: 0,
            extra_damage_from_ms: 0,
            extra_salvo_damage: 0,
            stun_duration_inflicted: 0,
            loot_common: 0,
            loot_uncommon: 0,
            loot_rare: 0,
            total_loot: 0,
            total_xp: 0,
            attacks: 0,
            crits: 0,
            kills: 0,
            evades: 0,
            trickster_evades: 0,
            multistrikes: 0,
            echo_bullets: 0,
            ghost_bullets: 0,
            enemy_attacks: 0,
            effect_procs: 0,
            helltouch_kills: 0,
            on_kill_calls: 0,
            lucky_loot_procs: 0,
            trample_kills: 0,
            final_stage: 0,
            elapsed_time: 0,
            revive_count: 0,
        }
    }

    /// The all-zero record.
    pub open spec fn zero() -> SimResult {
        SimResult {
            damage: 0,
            damage_taken: 0,
            mitigated_damage: 0,
            lifesteal: 0,
            life_of_the_hunt_healing: 0,
            unfair_advantage_healing: 0,
            regenerated_hp: 0,
            helltouch_barrier: 0,
            extra_damage_from_crits: 0,
            extra_damage_from_ms: 0,
            extra_salvo_damage: 0,
            stun_duration_inflicted: 0,
            loot_common: 0,
            loot_uncommon: 0,
            loot_rare: 0,
            total_loot: 0,
            total_xp: 0,
            attacks: 0,
            crits: 0,
            kills: 0,
            evades: 0,
            trickster_evades: 0,
            multistrikes: 0,
            echo_bullets: 0,
            ghost_bullets: 0,
            enemy_attacks: 0,
            effect_procs: 0,
            helltouch_kills: 0,
            on_kill_calls: 0,
            lucky_loot_procs: 0,
            trample_kills: 0,
            final_stage: 0,
            elapsed_time: 0,
            revive_count: 0,
        }
    }
}

/// Running totals of a batch of result records.
#[derive(Clone, Copy, Debug, PartialEq, Eq, Structural)]
pub struct SumAcc {
    /// Exact sum of final stages (saturating only past `u128`).
    pub stage_total: u128,
    pub min_stage: u32,
    pub max_stage: u32,
    /// Runs whose final stage passed each of the five boss checkpoints.
    pub past_b1: u64,
    pub past_b2: u64,
    pub past_b3: u64,
    pub past_b4: u64,
    pub past_b5: u64,
    /// Runs that reached the first boss checkpoint at all.
    pub reached: u64,
    pub time: u64,
    pub loot: u64,
    pub loot_common: u64,
    pub loot_uncommon: u64,
    pub loot_rare: u64,
    pub xp: u64,
    pub damage: u64,
    pub damage_taken: u64,
    pub mitigated: u64,
    pub lifesteal: u64,
    pub attacks: u64,
    pub crits: u64,
    pub kills: u64,
    pub evades: u64,
    pub trickster_evades: u64,
    pub enemy_attacks: u64,
    pub effect_procs: u64,
    pub stun_duration: u64,
    pub regen: u64,
    pub loth_healing: u64,
    pub ua_healing: u64,
    pub trample_kills: u64,
    pub on_kill_calls: u64,
}

/// The neutral totals of an empty batch.
pub open spec fn spec_sums_zero() -> SumAcc {
    SumAcc {
        stage_total: 0, min_stage: u32::MAX, max_stage: 0,
        past_b1: 0, past_b2: 0, past_b3: 0, past_b4: 0, past_b5: 0, reached: 0,
        time: 0, loot: 0, loot_common: 0, loot_uncommon: 0, loot_rare: 0, xp: 0,
        damage: 0, damage_taken: 0, mitigated: 0, lifesteal: 0, attacks: 0, crits: 0,
        kills: 0, evades: 0, trickster_evades: 0, enemy_attacks: 0, effect_procs: 0,
        stun_duration: 0, regen: 0, loth_healing: 0, ua_healing: 0, trample_kills: 0,
        on_kill_calls: 0,
    }
}

/// Fold one record into the running totals: exact stage sum, extrema,
/// checkpoint counts, and saturating sums of every amount field.
pub open spec fn spec_accum(a: SumAcc, r: SimResult) -> SumAcc {
    SumAcc {
        stage_total: if a.stage_total + r.final_stage > u128::MAX {
            u128::MAX
        } else {
            (a.stage_total + r.final_stage) as u128
        },
        min_stage: if r.final_stage < a.min_stage { r.final_stage } else { a.min_stage },
        max_stage: if r.final_stage > a.max_stage { r.final_stage } else { a.max_stage },
        past_b1: if r.final_stage > 100 { cap_add(a.past_b1, 1) } else { a.past_b1 },
        past_b2: if r.final_stage > 200 { cap_add(a.past_b2, 1) } else { a.past_b2 },
        past_b3: if r.final_stage > 300 { cap_add(a.past_b3, 1) } else { a.past_b3 },
        past_b4: if r.final_stage > 400 { cap_add(a.past_b4, 1) } else { a.past_b4 },
        past_b5: if r.final_stage > 500 { cap_add(a.past_b5, 1) } else { a.past_b5 },
        reached: if r.final_stage >= 100 { cap_add(a.reached, 1) } else { a.reached },
        time: cap_add(a.time, r.elapsed_time),
        loot: cap_add(a.loot, r.total_loot),
        loot_common: cap_add(a.loot_common, r.loot_common),
        loot_uncommon: cap_add(a.loot_uncommon, r.loot_uncommon),
        loot_rare: cap_add(a.loot_rare, r.loot_rare),
        xp: cap_add(a.xp, r.total_xp),
        damage: cap_add(a.damage, r.damage),
        damage_taken: cap_add(a.damage_taken, r.damage_taken),
        mitigated: cap_add(a.mitigated, r.mitigated_damage),
        lifesteal: cap_add(a.lifesteal, r.lifesteal),
        attacks: cap_add(a.attacks, r.attacks),
        crits: cap_add(a.crits, r.crits),
        kills: cap_add(a.kills, r.kills),
        evades: cap_add(a.evades, r.evades),
        trickster_evades: cap_add(a.trickster_evades, r.trickster_evades),
        enemy_attacks: cap_add(a.enemy_attacks, r.enemy_attacks),
        effect_procs: cap_add(a.effect_procs, r.effect_procs),
        stun_duration: cap_add(a.stun_duration, r.stun_duration_inflicted),
        regen: cap_add(a.regen, r.regenerated_hp),
        loth_healing: cap_add(a.loth_healing, r.life_of_the_hunt_healing),
        ua_healing: cap_add(a.ua_healing, r.unfair_advantage_healing),
        trample_kills: cap_add(a.trample_kills, r.trample_kills),
        on_kill_calls: cap_add(a.on_kill_calls, r.on_kill_calls),
    }
}

/// The running totals of a whole batch.
pub open spec fn spec_sums(s: Seq<SimResult>) -> SumAcc
    decreases s.len(),
{
    if s.len() == 0 {
        spec_sums_zero()
    } else {
        spec_accum(spec_sums(s.drop_last()), s.last())
    }
}

/// Fold one record into the running totals.
fn accum(a: &SumAcc, r: &SimResult) -> (out: SumAcc)
    ensures
        out == spec_accum(*a, *r),
{
    SumAcc {
        stage_total: if a.stage_total <= u128::MAX - r.final_stage as u128 {
            a.stage_total + r.final_stage as u128
        } else {
            u128::MAX
        },
        min_stage: if r.final_stage < a.min_stage { r.final_stage } else { a.min_stage },
        max_stage: if r.final_stage > a.max_stage { r.final_stage } else { a.max_stage },
        past_b1: if r.final_stage > 100 { add_cap(a.past_b1, 1) } else { a.past_b1 },
        past_b2: if r.final_stage > 200 { add_cap(a.past_b2, 1) } else { a.past_b2 },
        past_b3: if r.final_stage > 300 { add_cap(a.past_b3, 1) } else { a.past_b3 },
        past_b4: if r.final_stage > 400 { add_cap(a.past_b4, 1) } else { a.past_b4 },
        past_b5: if r.final_stage > 500 { add_cap(a.past_b5, 1) } else { a.past_b5 },
        reached: if r.final_stage >= 100 { add_cap(a.reached, 1) } else { a.reached },
        time: add_cap(a.time, r.elapsed_time),
        loot: add_cap(a.loot, r.total_loot),
        loot_common: add_cap(a.loot_common, r.loot_common),
        loot_uncommon: add_cap(a.loot_uncommon, r.loot_uncommon),
        loot_rare: add_cap(a.loot_rare, r.loot_rare),
        xp: add_cap(a.xp, r.total_xp),
        damage: add_cap(a.damage, r.damage),
        damage_taken: add_cap(a.damage_taken, r.damage_taken),
        mitigated: add_cap(a.mitigated, r.mitigated_damage),
        lifesteal: add_cap(a.lifesteal, r.lifesteal),
        attacks: add_cap(a.attacks, r.attacks),
        crits: add_cap(a.crits, r.crits),
        kills: add_cap(a.kills, r.kills),
        evades: add_cap(a.evades, r.evades),
        trickster_evades: add_cap(a.trickster_evades, r.trickster_evades),
        enemy_attacks: add_cap(a.enemy_attacks, r.enemy_attacks),
        effect_procs: add_cap(a.effect_procs, r.effect_procs),
        stun_duration: add_cap(a.stun_duration, r.stun_duration_inflicted),
        regen: add_cap(a.regen, r.regenerated_hp),
        loth_healing: add_cap(a.loth_healing, r.life_of_the_hunt_healing),
        ua_healing: add_cap(a.ua_healing, r.unfair_advantage_healing),
        trample_kills: add_cap(a.trample_kills, r.trample_kills),
        on_kill_calls: add_cap(a.on_kill_calls, r.on_kill_calls),
    }
}

/// The saturating mean of a summed amount over `n` records.
pub open spec fn spec_mean(total: u64, n: nat) -> u64 {
    if n == 0 { 0 } else { (total as int / n as int) as u64 }
}

/// The micro-scaled mean stage of a batch.
pub open spec fn spec_avg_stage(s: Seq<SimResult>) -> int {
    if s.len() == 0 {
        0
    } else {
        spec_sums(s).stage_total * SCALE / s.len() as int
    }
}

/// A micro-scaled share: `count` out of `n`, in micro-units.
pub open spec fn spec_rate(count: u64, n: nat) -> int {
    if n == 0 { 0 } else { count * SCALE / n as int }
}

/// Flat batch statistics: means, extrema and standard deviation of the
/// stage reached, survival shares at the five fixed boss checkpoints, and
/// the mean of every record field. Amount fields are micro-units; rates
/// are micro-fractions.
#[derive(Clone, Copy, Debug, PartialEq, Eq, Structural)]
pub struct AggregatedStats {
    pub avg_stage: u64,
    pub std_stage: u64,
    pub min_stage: u32,
    pub max_stage: u32,
    pub avg_time: u64,
    pub avg_loot: u64,
    pub avg_loot_per_hour: u64,
    pub avg_loot_common: u64,
    pub avg_loot_uncommon: u64,
    pub avg_loot_rare: u64,
    pub avg_xp: u64,
    pub avg_damage: u64,
    pub avg_damage_taken: u64,
    pub avg_mitigated: u64,
    pub avg_lifesteal: u64,
    pub avg_attacks: u64,
    pub avg_crits: u64,
    pub avg_kills: u64,
    pub avg_evades: u64,
    pub avg_trickster_evades: u64,
    pub avg_enemy_attacks: u64,
    pub avg_effect_procs: u64,
    pub avg_stun_duration: u64,
    pub avg_regen: u64,
    pub avg_loth_healing: u64,
    pub avg_ua_healing: u64,
    pub avg_trample_kills: u64,
    pub avg_on_kill_calls: u64,
    /// Share of runs that reached the first boss checkpoint.
    pub survival_rate: u64,
    pub boss1_survival: u64,
    pub boss2_survival: u64,
    pub boss3_survival: u64,
    pub boss4_survival: u64,
    pub boss5_survival: u64,
}

/// Bounds of the fold: the stage total is bracketed by the extrema times
/// the count, and no checkpoint count exceeds the record count.
pub proof fn lemma_sums_bounds(s: Seq<SimResult>)
    requires
        s.len() <= u64::MAX,
    ensures
        spec_sums(s).stage_total <= s.len() * (u32::MAX as int),
        s.len() > 0 ==> s.len() * (spec_sums(s).min_stage as int) <= spec_sums(s).stage_total,
        s.len() > 0 ==> spec_sums(s).stage_total <= s.len() * (spec_sums(s).max_stage as int),
        spec_sums(s).past_b1 <= s.len(),
        spec_sums(s).past_b2 <= s.len(),
        spec_sums(s).past_b3 <= s.len(),
        spec_sums(s).past_b4 <= s.len(),
        spec_sums(s).past_b5 <= s.len(),
        spec_sums(s).reached <= s.len(),
        s.len() > 0 ==> spec_sums(s).min_stage <= spec_sums(s).max_stage,
    decreases s.len(),
{
    if s.len() > 0 {
        let t = s.drop_last();
        lemma_sums_bounds(t);
        let a = spec_sums(t);
        let b = spec_sums(s);
        let last = s.last();
        vstd::arithmetic::mul::lemma_mul_is_distributive_add_other_way(
            u32::MAX as int, t.len() as int, 1);
        lemma_mul_bound(s.len() as int, u32::MAX as int, u64::MAX as int, u32::MAX as int);
        if t.len() == 0 {
            assert(1 * (b.min_stage as int) == b.min_stage as int) by (nonlinear_arith);
            assert(1 * (b.max_stage as int) == b.max_stage as int) by (nonlinear_arith);
        }
        if t.len() > 0 {
            vstd::arithmetic::mul::lemma_mul_inequality(
                b.min_stage as int, a.min_stage as int, t.len() as int);
            vstd::arithmetic::mul::lemma_mul_is_commutative(a.min_stage as int, t.len() as int);
            vstd::arithmetic::mul::lemma_mul_inequality(
                a.max_stage as int, b.max_stage as int, t.len() as int);
            vstd::arithmetic::mul::lemma_mul_is_distributive_add_other_way(
                b.min_stage as int, t.len() as int, 1);
            vstd::arithmetic::mul::lemma_mul_is_distributive_add_other_way(
                b.max_stage as int, t.len() as int, 1);
            vstd::arithmetic::mul::lemma_mul_is_commutative(b.min_stage as int, t.len() as int);
            vstd::arithmetic::mul::lemma_mul_is_commutative(b.max_stage as int, t.len() as int);
            vstd::arithmetic::mul::lemma_mul_is_commutative(a.max_stage as int, t.len() as int);
        }
    }
}

/// The mean of a micro-scaled sum, and proof that it keeps the sum's
/// bracket: used for the stage mean and the checkpoint shares.
fn scaled_share(total: u128, n: usize, bound: u64) -> (r: u64)
    requires
        n > 0,
        total <= (n as int) * (bound as int),
        bound <= u32::MAX as u64 || bound == SCALE,
    ensures
        r == total * SCALE / (n as int),
        r <= (bound as int) * (SCALE as int),
{
    proof {
        lemma_mul_bound(n as int, bound as int, u64::MAX as int, u32::MAX as int + SCALE);
        vstd::arithmetic::mul::lemma_mul_inequality(
            total as int, (n as int) * (bound as int), SCALE as int);
        assert((n as int) * (bound as int) * (SCALE as int)
            == (n as int) * ((bound as int) * (SCALE as int))) by (nonlinear_arith);
        vstd::arithmetic::div_mod::lemma_div_is_ordered(
            total * (SCALE as int),
            (n as int) * ((bound as int) * (SCALE as int)),
            n as int);
        vstd::arithmetic::div_mod::lemma_div_multiples_vanish(
            (bound as int) * (SCALE as int), n as int);
        lemma_mul_bound(total as int, SCALE as int,
            (u64::MAX as int) * (u32::MAX as int + SCALE), SCALE as int);
        assert(total * (SCALE as int) / (n as int) >= 0) by {
            vstd::arithmetic::div_mod::lemma_div_is_ordered(0, total * (SCALE as int), n as int);
        }
    }
    ((total * SCALE as u128) / n as u128) as u64
}

/// The plain mean of a saturating amount sum.
fn mean_of(total: u64, n: usize) -> (r: u64)
    requires
        n > 0,
    ensures
        r == spec_mean(total, n as nat),
{
    total / n as u64
}

/// The deviation of one record's stage from the batch mean, micro-scaled.
pub open spec fn spec_stage_dev(r: SimResult, avg: u64) -> u64 {
    let sm = (r.final_stage * SCALE) as u64;
    if sm >= avg { (sm - avg) as u64 } else { (avg - sm) as u64 }
}

/// The saturating sum of squared stage deviations of a batch.
pub open spec fn spec_devsum(s: Seq<SimResult>, avg: u64) -> u128
    decreases s.len(),
{
    if s.len() == 0 {
        0
    } else {
        let prev = spec_devsum(s.drop_last(), avg);
        let d = spec_stage_dev(s.last(), avg) as int;
        if prev + d * d > u128::MAX { u128::MAX } else { (prev + d * d) as u128 }
    }
}

/// The batch's stage variance, micro-squared, clamped into `u64`.
pub open spec fn spec_stage_variance(s: Seq<SimResult>, avg: u64) -> u64 {
    if s.len() == 0 {
        0
    } else if spec_devsum(s, avg) as int / (s.len() as int) > u64::MAX {
        u64::MAX
    } else {
        (spec_devsum(s, avg) as int / (s.len() as int)) as u64
    }
}

/// The saturating mean loot per in-simulation hour.
pub open spec fn spec_loot_per_hour(avg_loot: u64, avg_time: u64) -> u64 {
    if avg_time == 0 {
        0
    } else if avg_loot * 3_600_000_000 / (avg_time as int) > CAP {
        CAP
    } else {
        (avg_loot * 3_600_000_000 / (avg_time as int)) as u64
    }
}

/// The exact relation `from_results` establishes between a batch and its
/// statistics: an empty batch gives the all-zero aggregate; a non-empty
/// batch pins every mean, extremum and rate to the batch's fold, with the
/// mean stage bracketed by the extrema and every survival share at most
/// one.
pub open spec fn spec_aggregates(rs: Seq<SimResult>, r: AggregatedStats) -> bool {
    &&& rs.len() == 0 ==> r == AggregatedStats::spec_empty()
    &&& rs.len() > 0 ==> {
        let a = spec_sums(rs);
        let n = rs.len() as nat;
        &&& r.avg_stage == spec_avg_stage(rs)
        &&& r.min_stage == a.min_stage
        &&& r.max_stage == a.max_stage
        &&& (r.min_stage as int) * (SCALE as int) <= r.avg_stage
        &&& r.avg_stage <= (r.max_stage as int) * (SCALE as int)
        &&& r.std_stage * r.std_stage <= spec_stage_variance(rs, r.avg_stage)
        &&& (r.std_stage + 1) * (r.std_stage + 1) > spec_stage_variance(rs, r.avg_stage)
        &&& r.survival_rate == spec_rate(a.reached, n) && r.survival_rate <= SCALE
        &&& r.boss1_survival == spec_rate(a.past_b1, n) && r.boss1_survival <= SCALE
        &&& r.boss2_survival == spec_rate(a.past_b2, n) && r.boss2_survival <= SCALE
        &&& r.boss3_survival == spec_rate(a.past_b3, n) && r.boss3_survival <= SCALE
        &&& r.boss4_survival == spec_rate(a.past_b4, n) && r.boss4_survival <= SCALE
        &&& r.boss5_survival == spec_rate(a.past_b5, n) && r.boss5_survival <= SCALE
        &&& r.avg_time == spec_mean(a.time, n)
        &&& r.avg_loot == spec_mean(a.loot, n)
        &&& r.avg_loot_per_hour == spec_loot_per_hour(r.avg_loot, r.avg_time)
        &&& r.avg_loot_common == spec_mean(a.loot_common, n)
        &&& r.avg_loot_uncommon == spec_mean(a.loot_uncommon, n)
        &&& r.avg_loot_rare == spec_mean(a.loot_rare, n)
        &&& r.avg_xp == spec_mean(a.xp, n)
        &&& r.avg_damage == spec_mean(a.damage, n)
        &&& r.avg_damage_taken == spec_mean(a.damage_taken, n)
        &&& r.avg_mitigated == spec_mean(a.mitigated, n)
        &&& r.avg_lifesteal == spec_mean(a.lifesteal, n)
        &&& r.avg_attacks == spec_mean(a.attacks, n)
        &&& r.avg_crits == spec_mean(a.crits, n)
        &&& r.avg_kills == spec_mean(a.kills, n)
        &&& r.avg_evades == spec_mean(a.evades, n)
        &&& r.avg_trickster_evades == spec_mean(a.trickster_evades, n)
        &&& r.avg_enemy_attacks == spec_mean(a.enemy_attacks, n)
        &&& r.avg_effect_procs == spec_mean(a.effect_procs, n)
        &&& r.avg_stun_duration == spec_mean(a.stun_duration, n)
        &&& r.avg_regen == spec_mean(a.regen, n)
        &&& r.avg_loth_healing == spec_mean(a.loth_healing, n)
        &&& r.avg_ua_healing == spec_mean(a.ua_healing, n)
        &&& r.avg_trample_kills == spec_mean(a.trample_kills, n)
        &&& r.avg_on_kill_calls == spec_mean(a.on_kill_calls, n)
    }
}

impl AggregatedStats {
    /// The statistics of an empty batch: all zero.
    pub open spec fn spec_empty() -> AggregatedStats {
        AggregatedStats {
            avg_stage: 0, std_stage: 0, min_stage: 0, max_stage: 0, avg_time: 0,
            avg_loot: 0, avg_loot_per_hour: 0, avg_loot_common: 0, avg_loot_uncommon: 0,
            avg_loot_rare: 0, avg_xp: 0, avg_damage: 0, avg_damage_taken: 0,
            avg_mitigated: 0, avg_lifesteal: 0, avg_attacks: 0, avg_crits: 0,
            avg_kills: 0, avg_evades: 0, avg_trickster_evades: 0, avg_enemy_attacks: 0,
            avg_effect_procs: 0, avg_stun_duration: 0, avg_regen: 0, avg_loth_healing: 0,
            avg_ua_healing: 0, avg_trample_kills: 0, avg_on_kill_calls: 0,
            survival_rate: 0, boss1_survival: 0, boss2_survival: 0, boss3_survival: 0,
            boss4_survival: 0, boss5_survival: 0,
        }
    }

    /// Reduce a batch of records into its statistics; the result stands in
    /// [`spec_aggregates`] to the batch.
    #[verifier::rlimit(100)]
    pub fn from_results(rs: &Vec<SimResult>) -> (r: AggregatedStats)
        ensures
            spec_aggregates(rs@, r),
    {
        let r = Self::from_results_inner(rs);
        proof {
            assert(spec_aggregates(rs@, r));
        }
        r
    }

    /// Reduce a batch of records into its statistics. For a non-empty
    /// batch, every mean, extremum and rate is pinned to the fold of the
    /// batch, and the aggregate is sane: the mean stage lies between the
    /// extrema, and every survival share lies between zero and one.
    #[verifier::rlimit(100)]
    fn from_results_inner(rs: &Vec<SimResult>) -> (r: AggregatedStats)
        ensures
            rs@.len() == 0 ==> r == AggregatedStats::spec_empty(),
            rs@.len() > 0 ==> {
                let a = spec_sums(rs@);
                let n = rs@.len() as nat;
                &&& r.avg_stage == spec_avg_stage(rs@)
                &&& r.min_stage == a.min_stage
                &&& r.max_stage == a.max_stage
                &&& (r.min_stage as int) * (SCALE as int) <= r.avg_stage
                &&& r.avg_stage <= (r.max_stage as int) * (SCALE as int)
                &&& r.std_stage * r.std_stage <= spec_stage_variance(rs@, r.avg_stage)
                &&& (r.std_stage + 1) * (r.std_stage + 1)
                    > spec_stage_variance(rs@, r.avg_stage)
                &&& r.survival_rate == spec_rate(a.reached, n) && r.survival_rate <= SCALE
                &&& r.boss1_survival == spec_rate(a.past_b1, n) && r.boss1_survival <= SCALE
                &&& r.boss2_survival == spec_rate(a.past_b2, n) && r.boss2_survival <= SCALE
                &&& r.boss3_survival == spec_rate(a.past_b3, n) && r.boss3_survival <= SCALE
                &&& r.boss4_survival == spec_rate(a.past_b4, n) && r.boss4_survival <= SCALE
                &&& r.boss5_survival == spec_rate(a.past_b5, n) && r.boss5_survival <= SCALE
                &&& r.avg_time == spec_mean(a.time, n)
                &&& r.avg_loot == spec_mean(a.loot, n)
                &&& r.avg_loot_per_hour == spec_loot_per_hour(r.avg_loot, r.avg_time)
                &&& r.avg_loot_common == spec_mean(a.loot_common, n)
                &&& r.avg_loot_uncommon == spec_mean(a.loot_uncommon, n)
                &&& r.avg_loot_rare == spec_mean(a.loot_rare, n)
                &&& r.avg_xp == spec_mean(a.xp, n)
                &&& r.avg_damage == spec_mean(a.damage, n)
                &&& r.avg_damage_taken == spec_mean(a.damage_taken, n)
                &&& r.avg_mitigated == spec_mean(a.mitigated, n)
                &&& r.avg_lifesteal == spec_mean(a.lifesteal, n)
                &&& r.avg_attacks == spec_mean(a.attacks, n)
                &&& r.avg_crits == spec_mean(a.crits, n)
                &&& r.avg_kills == spec_mean(a.kills, n)
                &&& r.avg_evades == spec_mean(a.evades, n)
                &&& r.avg_trickster_evades == spec_mean(a.trickster_evades, n)
                &&& r.avg_enemy_attacks == spec_mean(a.enemy_attacks, n)
                &&& r.avg_effect_procs == spec_mean(a.effect_procs, n)
                &&& r.avg_stun_duration == spec_mean(a.stun_duration, n)
                &&& r.avg_regen == spec_mean(a.regen, n)
                &&& r.avg_loth_healing == spec_mean(a.loth_healing, n)
                &&& r.avg_ua_healing == spec_mean(a.ua_healing, n)
                &&& r.avg_trample_kills == spec_mean(a.trample_kills, n)
                &&& r.avg_on_kill_calls == spec_mean(a.on_kill_calls, n)
            },
    {
        let n = rs.len();
        if n == 0 {
            return AggregatedStats {
                avg_stage: 0, std_stage: 0, min_stage: 0, max_stage: 0, avg_time: 0,
                avg_loot: 0, avg_loot_per_hour: 0, avg_loot_common: 0, avg_loot_uncommon: 0,
                avg_loot_rare: 0, avg_xp: 0, avg_damage: 0, avg_damage_taken: 0,
                avg_mitigated: 0, avg_lifesteal: 0, avg_attacks: 0, avg_crits: 0,
                avg_kills: 0, avg_evades: 0, avg_trickster_evades: 0, avg_enemy_attacks: 0,
                avg_effect_procs: 0, avg_stun_duration: 0, avg_regen: 0, avg_loth_healing: 0,
                avg_ua_healing: 0, avg_trample_kills: 0, avg_on_kill_calls: 0,
                survival_rate: 0, boss1_survival: 0, boss2_survival: 0, boss3_survival: 0,
                boss4_survival: 0, boss5_survival: 0,
            };
        }
        let mut acc = SumAcc {
            stage_total: 0, min_stage: u32::MAX, max_stage: 0,
            past_b1: 0, past_b2: 0, past_b3: 0, past_b4: 0, past_b5: 0, reached: 0,
            time: 0, loot: 0, loot_common: 0, loot_uncommon: 0, loot_rare: 0, xp: 0,
            damage: 0, damage_taken: 0, mitigated: 0, lifesteal: 0, attacks: 0, crits: 0,
            kills: 0, evades: 0, trickster_evades: 0, enemy_attacks: 0, effect_procs: 0,
            stun_duration: 0, regen: 0, loth_healing: 0, ua_healing: 0, trample_kills: 0,
            on_kill_calls: 0,
        };
        let mut i: usize = 0;
        while i < n
            invariant
                i <= n,
                n == rs@.len(),
                acc == spec_sums(rs@.take(i as int)),
            decreases n - i,
        {
            proof {
                assert(rs@.take(i + 1).drop_last() =~= rs@.take(i as int));
                assert(rs@.take(i + 1).last() == rs@[i as int]);
            }
            acc = accum(&acc, &rs[i]);
            i = i + 1;
        }
        proof {
            assert(rs@.take(n as int) =~= rs@);
            lemma_sums_bounds(rs@);
        }
        let avg_stage = scaled_share(acc.stage_total, n, acc.max_stage as u64);
        proof {
            vstd::arithmetic::mul::lemma_mul_is_commutative(
                acc.min_stage as int, n as int);
            vstd::arithmetic::mul::lemma_mul_inequality(
                (n as int) * (acc.min_stage as int), acc.stage_total as int, SCALE as int);
            assert((n as int) * (acc.min_stage as int) * (SCALE as int)
                == (n as int) * ((acc.min_stage as int) * (SCALE as int)))
                by (nonlinear_arith);
            vstd::arithmetic::div_mod::lemma_div_is_ordered(
                (n as int) * ((acc.min_stage as int) * (SCALE as int)),
                (acc.stage_total as int) * (SCALE as int),
                n as int);
            vstd::arithmetic::div_mod::lemma_div_multiples_vanish(
                (acc.min_stage as int) * (SCALE as int), n as int);
        }
        let mut devsum: u128 = 0;
        let mut j: usize = 0;
        while j < n
            invariant
                j <= n,
                n == rs@.len(),
                devsum == spec_devsum(rs@.take(j as int), avg_stage),
            decreases n - j,
        {
            proof {
                assert(rs@.take(j + 1).drop_last() =~= rs@.take(j as int));
                assert(rs@.take(j + 1).last() == rs@[j as int]);
            }
            let sm: u64 = rs[j].final_stage as u64 * SCALE;
            let d: u64 = if sm >= avg_stage { sm - avg_stage } else { avg_stage - sm };
            proof {
                lemma_mul_bound(d as int, d as int, u64::MAX as int, u64::MAX as int);
            }
            let sq: u128 = d as u128 * d as u128;
            devsum = if devsum <= u128::MAX - sq { devsum + sq } else { u128::MAX };
            j = j + 1;
        }
        proof {
            assert(rs@.take(n as int) =~= rs@);
        }
        let var128: u128 = devsum / n as u128;
        let variance: u64 = if var128 > u64::MAX as u128 { u64::MAX } else { var128 as u64 };
        let std_stage = crate::fixed::isqrt(variance);
        let avg_time = mean_of(acc.time, n);
        let avg_loot = mean_of(acc.loot, n);
        proof {
            lemma_mul_bound(avg_loot as int, 3_600_000_000,
                u64::MAX as int, 3_600_000_000);
        }
        let lph128: u128 = if avg_time == 0 {
            0
        } else {
            avg_loot as u128 * 3_600_000_000 / avg_time as u128
        };
        let avg_loot_per_hour: u64 = if avg_time == 0 {
            0
        } else if lph128 > CAP as u128 {
            CAP
        } else {
            lph128 as u64
        };
        AggregatedStats {
            avg_stage,
            std_stage,
            min_stage: acc.min_stage,
            max_stage: acc.max_stage,
            avg_time,
            avg_loot,
            avg_loot_per_hour,
            avg_loot_common: mean_of(acc.loot_common, n),
            avg_loot_uncommon: mean_of(acc.loot_uncommon, n),
            avg_loot_rare: mean_of(acc.loot_rare, n),
            avg_xp: mean_of(acc.xp, n),
            avg_damage: mean_of(acc.damage, n),
            avg_damage_taken: mean_of(acc.damage_taken, n),
            avg_mitigated: mean_of(acc.mitigated, n),
            avg_lifesteal: mean_of(acc.lifesteal, n),
            avg_attacks: mean_of(acc.attacks, n),
            avg_crits: mean_of(acc.crits, n),
            avg_kills: mean_of(acc.kills, n),
            avg_evades: mean_of(acc.evades, n),
            avg_trickster_evades: mean_of(acc.trickster_evades, n),
            avg_enemy_attacks: mean_of(acc.enemy_attacks, n),
            avg_effect_procs: mean_of(acc.effect_procs, n),
            avg_stun_duration: mean_of(acc.stun_duration, n),
            avg_regen: mean_of(acc.regen, n),
            avg_loth_healing: mean_of(acc.loth_healing, n),
            avg_ua_healing: mean_of(acc.ua_healing, n),
            avg_trample_kills: mean_of(acc.trample_kills, n),
            avg_on_kill_calls: mean_of(acc.on_kill_calls, n),
            survival_rate: scaled_share(acc.reached as u128, n, 1),
            boss1_survival: scaled_share(acc.past_b1 as u128, n, 1),
            boss2_survival: scaled_share(acc.past_b2 as u128, n, 1),
            boss3_survival: scaled_share(acc.past_b3 as u128, n, 1),
            boss4_survival: scaled_share(acc.past_b4 as u128, n, 1),
            boss5_survival: scaled_share(acc.past_b5 as u128, n, 1),
        }
    }
}

} // verus!
