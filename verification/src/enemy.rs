//! Enemies and bosses: derived stats, damage intake, regeneration, and the
//! boss sub-state machine (rage escalation and the timed hardening window).

use vstd::prelude::*;
use crate::fixed::{SCALE, CAP, cap_add, add_cap, sat_sub, sub_floor, cap_mul_frac, mul_frac,
    cap_mul_int, mul_int, pow_frac, pow_frac_exec, lemma_mul_bound};
use crate::hunter::HunterType;
use crate::rng::{FastRng, spec_roll};

verus! {

/// Which secondary attack a boss carries, if any.
#[derive(Clone, Copy, Debug, PartialEq, Eq, Structural)]
pub enum SecondaryAttackType {
    /// No secondary attack.
    Absent,
    /// Deals damage and gains a rage stack.
    Gothmorgor,
    /// Starts the hardening window: pinned damage reduction and tripled
    /// regeneration for a fixed number of ticks, ending in a rage grant.
    Exoscarab,
}

/// One enemy's combat state. Amounts and fractions are micro-units; attack
/// intervals are micro-seconds.
#[derive(Clone, Copy, Debug, PartialEq, Eq, Structural)]
pub struct Enemy {
    pub hp: u64,
    pub max_hp: u64,
    pub power: u64,
    /// Base power, kept for the rage damage rule.
    pub base_power: u64,
    pub regen: u64,
    pub damage_reduction: u64,
    /// Baseline damage reduction, restored when hardening ends.
    pub base_dr: u64,
    pub evade_chance: u64,
    pub effect_chance: u64,
    pub special_chance: u64,
    pub special_damage: u64,
    pub speed: u64,
    /// Base primary attack interval, for the rage speed-up rule.
    pub base_speed: u64,
    pub is_boss: bool,
    /// Rage stacks accumulated; each speeds the boss up.
    pub enrage_stacks: u32,
    /// One-way latch: set once stacks exceed the rage threshold.
    pub max_enrage: bool,
    pub has_secondary: bool,
    pub secondary_type: SecondaryAttackType,
    pub speed2: u64,
    pub base_speed2: u64,
    /// Remaining regeneration ticks of the hardening window.
    pub harden_ticks_left: u32,
}

/// The rage threshold: the latch closes strictly above this many stacks.
pub const MAX_ENRAGE_THRESHOLD: u32 = 200;

/// The additive stage-scaling multiplier used by two of the archetypes:
/// one plus a sum of per-breakpoint linear terms, floored at one, then
/// scaled exponentially past stage 350.
pub open spec fn spec_multi_wasm(stage: u32) -> u64 {
    let base = (SCALE
        + ramp(stage, 149, 6000) + ramp(stage, 199, 6000) + ramp(stage, 249, 6000)
        + ramp(stage, 299, 6000) + ramp(stage, 309, 3000) + ramp(stage, 319, 3000)
        + ramp(stage, 329, 4000) + ramp(stage, 339, 4000) + ramp(stage, 349, 5000)
        + ramp(stage, 359, 5000) + ramp(stage, 369, 6000) + ramp(stage, 379, 6000)
        + ramp(stage, 389, 7000)) as u64;
    cap_mul_frac(base, pow_frac(1_010_000, past(stage, 350)))
}

/// `max(0, stage - cut) * slope`, one linear breakpoint term.
pub open spec fn ramp(stage: u32, cut: u32, slope: u64) -> int {
    if stage > cut { (stage - cut) * slope } else { 0 }
}

/// How far a stage is past a cutoff.
pub open spec fn past(stage: u32, cut: u32) -> nat {
    if stage > cut { (stage - cut) as nat } else { 0 }
}

/// One linear breakpoint term of the stage-scaling curve.
fn ramp_exec(stage: u32, cut: u32, slope: u64) -> (r: u64)
    requires
        slope <= 10000,
    ensures
        r == ramp(stage, cut, slope),
{
    if stage > cut {
        proof {
            lemma_mul_bound((stage - cut) as int, slope as int, u32::MAX as int, 10000);
        }
        (stage - cut) as u64 * slope
    } else {
        0
    }
}

/// Compute the additive stage-scaling multiplier.
pub fn multi_wasm(stage: u32) -> (r: u64)
    ensures
        r == spec_multi_wasm(stage),
{
    let base: u64 = SCALE
        + ramp_exec(stage, 149, 6000) + ramp_exec(stage, 199, 6000)
        + ramp_exec(stage, 249, 6000) + ramp_exec(stage, 299, 6000)
        + ramp_exec(stage, 309, 3000) + ramp_exec(stage, 319, 3000)
        + ramp_exec(stage, 329, 4000) + ramp_exec(stage, 339, 4000)
        + ramp_exec(stage, 349, 5000) + ramp_exec(stage, 359, 5000)
        + ramp_exec(stage, 369, 6000) + ramp_exec(stage, 379, 6000)
        + ramp_exec(stage, 389, 7000);
    let e: u32 = if stage > 350 { stage - 350 } else { 0 };
    mul_frac(base, pow_frac_exec(1_010_000, e))
}

/// `1 + max(0, stage - cut) * slope`, a multiplicative breakpoint factor.
pub open spec fn mult_ramp(stage: u32, cut: u32, slope: u64) -> u64 {
    (SCALE + ramp(stage, cut, slope)) as u64
}

/// The multiplicative stage-scaling curve used by the salvo archetype:
/// one below stage 150, then a product of per-breakpoint factors, scaled
/// exponentially past stage 400.
pub open spec fn spec_knox_scaling(stage: u32) -> u64 {
    if stage < 150 {
        SCALE
    } else {
        let f = cap_mul_frac(cap_mul_frac(cap_mul_frac(cap_mul_frac(cap_mul_frac(
                cap_mul_frac(cap_mul_frac(cap_mul_frac(cap_mul_frac(
            SCALE,
            mult_ramp(stage, 149, 7000)), mult_ramp(stage, 199, 7000)),
            mult_ramp(stage, 249, 7000)), mult_ramp(stage, 299, 7000)),
            mult_ramp(stage, 349, 7000)), mult_ramp(stage, 369, 7000)),
            mult_ramp(stage, 389, 7000)), mult_ramp(stage, 409, 7000)),
            mult_ramp(stage, 429, 7000));
        cap_mul_frac(f, pow_frac(1_010_000, past(stage, 400)))
    }
}

/// Compute the multiplicative stage-scaling curve.
pub fn knox_scaling(stage: u32) -> (r: u64)
    ensures
        r == spec_knox_scaling(stage),
{
    if stage < 150 {
        return SCALE;
    }
    let mut f: u64 = SCALE;
    f = mul_frac(f, SCALE + ramp_exec(stage, 149, 7000));
    f = mul_frac(f, SCALE + ramp_exec(stage, 199, 7000));
    f = mul_frac(f, SCALE + ramp_exec(stage, 249, 7000));
    f = mul_frac(f, SCALE + ramp_exec(stage, 299, 7000));
    f = mul_frac(f, SCALE + ramp_exec(stage, 349, 7000));
    f = mul_frac(f, SCALE + ramp_exec(stage, 369, 7000));
    f = mul_frac(f, SCALE + ramp_exec(stage, 389, 7000));
    f = mul_frac(f, SCALE + ramp_exec(stage, 409, 7000));
    f = mul_frac(f, SCALE + ramp_exec(stage, 429, 7000));
    let e: u32 = if stage > 400 { stage - 400 } else { 0 };
    mul_frac(f, pow_frac_exec(1_010_000, e))
}

/// The nine derived base stats of an enemy, before boss-specific wiring:
/// health, power, regeneration, crit chance, crit damage, damage reduction,
/// evade chance, effect chance and attack interval.
#[derive(Clone, Copy, Debug, PartialEq, Eq, Structural)]
pub struct EnemyBase {
    pub hp: u64,
    pub power: u64,
    pub regen: u64,
    pub special_chance: u64,
    pub special_damage: u64,
    pub dr: u64,
    pub evade_chance: u64,
    pub effect_chance: u64,
    pub speed: u64,
}

/// The boss-cycle index of a stage: how many boss checkpoints lie strictly
/// below it.
pub open spec fn spec_tier(stage: u32) -> u32 {
    if stage >= 1 { ((stage - 1) / 100) as u32 } else { 0 }
}

/// Derived stats for an enemy of the given stage, facing the given
/// archetype. Mirrors the per-archetype scaling formulas exactly, in
/// micro-units with saturating arithmetic.
pub open spec fn spec_enemy_base(stage: u32, ht: HunterType, is_boss: bool) -> EnemyBase {
    let s = stage as u64;
    match ht {
        HunterType::Borge => {
            let f = spec_multi_wasm(stage);
            let tier_mult: u64 = if stage > 100 { 2_850_000 } else { SCALE };
            let s300: u64 = if stage == 300 { 900_000 } else { SCALE };
            let boss_hp: u64 = if is_boss { 90 } else { 1 };
            let hp = cap_mul_frac(cap_mul_int(cap_mul_frac(cap_mul_frac(
                cap_add(cap_mul_int(SCALE, (4 * s) as u64), (9 * SCALE) as u64),
                f), tier_mult), boss_hp), s300);
            let boss_pw: u64 = if is_boss { 3_630_000 } else { SCALE };
            let power = cap_mul_frac(cap_mul_frac(cap_mul_frac(cap_mul_frac(
                cap_add((s * 700_000) as u64, 2_500_000),
                f), tier_mult), boss_pw), s300);
            let sc0 = (s * 400 + 32_200 + if is_boss { 40_000 as int } else { 0 }) as u64;
            let special_chance: u64 = if sc0 > 250_000 { 250_000 } else { sc0 };
            let sd0 = (s * 8000 + 1_212_000 + if is_boss { 250_000 as int } else { 0 }) as u64;
            let special_damage: u64 = if sd0 > 2_500_000 { 2_500_000 } else { sd0 };
            let dr: u64 = if is_boss {
                if 50_000 + s * 400 > 250_000 { 250_000 } else { (50_000 + s * 400) as u64 }
            } else { 0 };
            let evade: u64 = if stage > 100 { 4000 } else { 0 };
            let rt: u64 = if stage > 100 { 1_052_000 } else { SCALE };
            let rb: u64 = if is_boss { 1_920_000 } else { SCALE };
            let regen0: u64 = if stage > 1 { ((s - 1) * 80_000) as u64 } else { 0 };
            let regen = cap_mul_frac(cap_mul_frac(cap_mul_frac(regen0, rt), f), rb);
            let sp0 = sat_sub(4_530_000, (s * 6000) as u64);
            let speed = if is_boss { cap_mul_frac(sp0, 2_420_000) } else { sp0 };
            EnemyBase {
                hp, power, regen, special_chance, special_damage, dr,
                evade_chance: evade, effect_chance: 0, speed,
            }
        }
        HunterType::Ozzy => {
            let f = spec_multi_wasm(stage);
            let d = spec_tier(stage);
            let s300: u64 = if stage == 300 { 940_000 } else { SCALE };
            let hp = cap_mul_frac(cap_mul_int(cap_mul_frac(cap_mul_frac(
                cap_add((s * 6 * SCALE) as u64, (11 * SCALE) as u64),
                f), pow_frac(2_900_000, d as nat)), if is_boss { 48 } else { 1 }), s300);
            let power = cap_mul_frac(cap_mul_int(cap_mul_frac(cap_mul_frac(
                cap_add((s * 750_000) as u64, 1_350_000),
                f), pow_frac(2_700_000, d as nat)), if is_boss { 3 } else { 1 }), s300);
            let sc0 = (s * 600 + 99_400 + if is_boss { 130_000 as int } else { 0 }) as u64;
            let special_chance: u64 = if sc0 > 250_000 { 250_000 } else { sc0 };
            let sd0 = (s * 8000 + 1_030_000) as u64;
            let special_damage: u64 = if sd0 > 2_500_000 { 2_500_000 } else { sd0 };
            let dr: u64 = if is_boss {
                if 50_000 + s * 400 > 250_000 { 250_000 } else { (50_000 + s * 400) as u64 }
            } else { 0 };
            let evade: u64 = if stage >= 100 { (d * 10_000) as u64 } else { 0 };
            let regen0: u64 = if stage > 0 { ((s - 1) * 100_000) as u64 } else { 0 };
            let regen = cap_mul_frac(cap_mul_frac(cap_mul_frac(
                regen0, pow_frac(1_250_000, d as nat)), f),
                if is_boss { 6_000_000 } else { SCALE });
            let sp0 = sat_sub(3_200_000, (s * 4000) as u64);
            let speed = if is_boss { cap_mul_frac(sp0, 2_450_000) } else { sp0 };
            EnemyBase {
                hp, power, regen, special_chance, special_damage, dr,
                evade_chance: evade, effect_chance: 0, speed,
            }
        }
        HunterType::Knox => {
            let f = spec_knox_scaling(stage);
            let m100: u64 = if stage > 100 { 2_800_000 } else { SCALE };
            let p100: u64 = if stage > 100 { 2_600_000 } else { SCALE };
            let hp = cap_mul_int(cap_mul_frac(cap_mul_frac(
                cap_add((s * 5 * SCALE) as u64, (10 * SCALE) as u64),
                m100), f), if is_boss { 120 } else { 1 });
            let power = cap_mul_int(cap_mul_frac(cap_mul_frac(
                cap_add((s * 650_000) as u64, 1_500_000),
                p100), f), if is_boss { 4 } else { 1 });
            let sc0 = (s * 550 + 75_000 + if is_boss { 130_000 as int } else { 0 }) as u64;
            let special_chance: u64 = if sc0 > 250_000 { 250_000 } else { sc0 };
            let sd0 = (s * 7500 + 1_150_000) as u64;
            let special_damage: u64 = if sd0 > 2_500_000 { 2_500_000 } else { sd0 };
            let dr: u64 = if is_boss { 50_000 } else { 0 };
            let evade: u64 = if stage > 100 { 6000 } else { 0 };
            let effect: u64 = (s * 300 + 30_000) as u64;
            let r100: u64 = if stage > 100 { 1_150_000 } else { SCALE };
            let regen0: u64 = if stage > 0 { ((s - 1) * 90_000) as u64 } else { 0 };
            let regen = cap_mul_int(cap_mul_frac(cap_mul_frac(regen0, r100), f),
                if is_boss { 2 } else { 1 });
            let sp0 = sat_sub(3_800_000, (s * 5000) as u64);
            let speed = if is_boss { cap_mul_frac(sp0, 2_850_000) } else { sp0 };
            EnemyBase {
                hp, power, regen, special_chance, special_damage, dr,
                evade_chance: evade, effect_chance: effect, speed,
            }
        }
    }
}

/// Compute the derived base stats of an enemy.
pub fn enemy_base(stage: u32, ht: HunterType, is_boss: bool) -> (r: EnemyBase)
    ensures
        r == spec_enemy_base(stage, ht, is_boss),
{
    let s = stage as u64;
    match ht {
        HunterType::Borge => {
            let f = multi_wasm(stage);
            let tier_mult: u64 = if stage > 100 { 2_850_000 } else { SCALE };
            let s300: u64 = if stage == 300 { 900_000 } else { SCALE };
            let hp = mul_frac(mul_int(mul_frac(mul_frac(
                add_cap(mul_int(SCALE, 4 * s), 9 * SCALE),
                f), tier_mult), if is_boss { 90 } else { 1 }), s300);
            let power = mul_frac(mul_frac(mul_frac(mul_frac(
                add_cap(s * 700_000, 2_500_000),
                f), tier_mult), if is_boss { 3_630_000 } else { SCALE }), s300);
            let sc0 = s * 400 + 32_200 + if is_boss { 40_000 } else { 0 };
            let sd0 = s * 8000 + 1_212_000 + if is_boss { 250_000 } else { 0 };
            let drv = 50_000 + s * 400;
            let regen0: u64 = if stage > 1 { (s - 1) * 80_000 } else { 0 };
            let regen = mul_frac(mul_frac(mul_frac(regen0,
                if stage > 100 { 1_052_000 } else { SCALE }), f),
                if is_boss { 1_920_000 } else { SCALE });
            let sp0 = sub_floor(4_530_000, s * 6000);
            EnemyBase {
                hp,
                power,
                regen,
                special_chance: if sc0 > 250_000 { 250_000 } else { sc0 },
                special_damage: if sd0 > 2_500_000 { 2_500_000 } else { sd0 },
                dr: if is_boss { if drv > 250_000 { 250_000 } else { drv } } else { 0 },
                evade_chance: if stage > 100 { 4000 } else { 0 },
                effect_chance: 0,
                speed: if is_boss { mul_frac(sp0, 2_420_000) } else { sp0 },
            }
        }
        HunterType::Ozzy => {
            let f = multi_wasm(stage);
            let d: u32 = if stage >= 1 { (stage - 1) / 100 } else { 0 };
            let s300: u64 = if stage == 300 { 940_000 } else { SCALE };
            let hp = mul_frac(mul_int(mul_frac(mul_frac(
                add_cap(s * 6 * SCALE, 11 * SCALE),
                f), pow_frac_exec(2_900_000, d)), if is_boss { 48 } else { 1 }), s300);
            let power = mul_frac(mul_int(mul_frac(mul_frac(
                add_cap(s * 750_000, 1_350_000),
                f), pow_frac_exec(2_700_000, d)), if is_boss { 3 } else { 1 }), s300);
            let sc0 = s * 600 + 99_400 + if is_boss { 130_000 } else { 0 };
            let sd0 = s * 8000 + 1_030_000;
            let drv = 50_000 + s * 400;
            let regen0: u64 = if stage > 0 { (s - 1) * 100_000 } else { 0 };
            let regen = mul_frac(mul_frac(mul_frac(
                regen0, pow_frac_exec(1_250_000, d)), f),
                if is_boss { 6_000_000 } else { SCALE });
            let sp0 = sub_floor(3_200_000, s * 4000);
            EnemyBase {
                hp,
                power,
                regen,
                special_chance: if sc0 > 250_000 { 250_000 } else { sc0 },
                special_damage: if sd0 > 2_500_000 { 2_500_000 } else { sd0 },
                dr: if is_boss { if drv > 250_000 { 250_000 } else { drv } } else { 0 },
                evade_chance: if stage >= 100 { d as u64 * 10_000 } else { 0 },
                effect_chance: 0,
                speed: if is_boss { mul_frac(sp0, 2_450_000) } else { sp0 },
            }
        }
        HunterType::Knox => {
            let f = knox_scaling(stage);
            let hp = mul_int(mul_frac(mul_frac(
                add_cap(s * 5 * SCALE, 10 * SCALE),
                if stage > 100 { 2_800_000 } else { SCALE }), f), if is_boss { 120 } else { 1 });
            let power = mul_int(mul_frac(mul_frac(
                add_cap(s * 650_000, 1_500_000),
                if stage > 100 { 2_600_000 } else { SCALE }), f), if is_boss { 4 } else { 1 });
            let sc0 = s * 550 + 75_000 + if is_boss { 130_000 } else { 0 };
            let sd0 = s * 7500 + 1_150_000;
            let regen0: u64 = if stage > 0 { (s - 1) * 90_000 } else { 0 };
            let regen = mul_int(mul_frac(mul_frac(regen0,
                if stage > 100 { 1_150_000 } else { SCALE }), f),
                if is_boss { 2 } else { 1 });
            let sp0 = sub_floor(3_800_000, s * 5000);
            EnemyBase {
                hp,
                power,
                regen,
                special_chance: if sc0 > 250_000 { 250_000 } else { sc0 },
                special_damage: if sd0 > 2_500_000 { 2_500_000 } else { sd0 },
                dr: if is_boss { 50_000 } else { 0 },
                evade_chance: if stage > 100 { 6000 } else { 0 },
                effect_chance: s * 300 + 30_000,
                speed: if is_boss { mul_frac(sp0, 2_850_000) } else { sp0 },
            }
        }
    }
}

impl Enemy {
    /// A regular enemy of the given stage, facing the given archetype.
    pub open spec fn spec_new(stage: u32, ht: HunterType) -> Enemy {
        let b = spec_enemy_base(stage, ht, false);
        Enemy {
            hp: b.hp,
            max_hp: b.hp,
            power: b.power,
            base_power: b.power,
            regen: b.regen,
            damage_reduction: b.dr,
            base_dr: b.dr,
            evade_chance: b.evade_chance,
            effect_chance: b.effect_chance,
            special_chance: b.special_chance,
            special_damage: b.special_damage,
            speed: b.speed,
            base_speed: b.speed,
            is_boss: false,
            enrage_stacks: 0,
            max_enrage: false,
            has_secondary: false,
            secondary_type: SecondaryAttackType::Absent,
            speed2: 0,
            base_speed2: 0,
            harden_ticks_left: 0,
        }
    }

    /// Create a regular enemy for a stage.
    pub fn new(stage: u32, ht: HunterType) -> (r: Enemy)
        ensures
            r == Enemy::spec_new(stage, ht),
    {
        let b = enemy_base(stage, ht, false);
        Enemy {
            hp: b.hp,
            max_hp: b.hp,
            power: b.power,
            base_power: b.power,
            regen: b.regen,
            damage_reduction: b.dr,
            base_dr: b.dr,
            evade_chance: b.evade_chance,
            effect_chance: b.effect_chance,
            special_chance: b.special_chance,
            special_damage: b.special_damage,
            speed: b.speed,
            base_speed: b.speed,
            is_boss: false,
            enrage_stacks: 0,
            max_enrage: false,
            has_secondary: false,
            secondary_type: SecondaryAttackType::Absent,
            speed2: 0,
            base_speed2: 0,
            harden_ticks_left: 0,
        }
    }

    /// A boss of the given stage: empowered stats, and from stage 200 on a
    /// secondary attack whose kind depends on the archetype faced.
    pub open spec fn spec_new_boss(stage: u32, ht: HunterType) -> Enemy {
        let b = spec_enemy_base(stage, ht, true);
        let sec = if stage >= 200 {
            match ht {
                HunterType::Ozzy => ((60 * SCALE) as u64, SecondaryAttackType::Exoscarab),
                HunterType::Borge => (cap_mul_frac(b.speed, 1_800_000),
                    SecondaryAttackType::Gothmorgor),
                HunterType::Knox => (0, SecondaryAttackType::Absent),
            }
        } else {
            (0, SecondaryAttackType::Absent)
        };
        Enemy {
            hp: b.hp,
            max_hp: b.hp,
            power: b.power,
            base_power: b.power,
            regen: b.regen,
            damage_reduction: b.dr,
            base_dr: b.dr,
            evade_chance: b.evade_chance,
            effect_chance: b.effect_chance,
            special_chance: b.special_chance,
            special_damage: b.special_damage,
            speed: b.speed,
            base_speed: b.speed,
            is_boss: true,
            enrage_stacks: 0,
            max_enrage: false,
            has_secondary: stage >= 200 && ht != HunterType::Knox,
            secondary_type: sec.1,
            speed2: sec.0,
            base_speed2: sec.0,
            harden_ticks_left: 0,
        }
    }

    /// Create a boss for a stage.
    pub fn new_boss(stage: u32, ht: HunterType) -> (r: Enemy)
        ensures
            r == Enemy::spec_new_boss(stage, ht),
    {
        let b = enemy_base(stage, ht, true);
        let (speed2, secondary_type) = if stage >= 200 {
            match ht {
                HunterType::Ozzy => (60 * SCALE, SecondaryAttackType::Exoscarab),
                HunterType::Borge => (mul_frac(b.speed, 1_800_000),
                    SecondaryAttackType::Gothmorgor),
                HunterType::Knox => (0, SecondaryAttackType::Absent),
            }
        } else {
            (0, SecondaryAttackType::Absent)
        };
        Enemy {
            hp: b.hp,
            max_hp: b.hp,
            power: b.power,
            base_power: b.power,
            regen: b.regen,
            damage_reduction: b.dr,
            base_dr: b.dr,
            evade_chance: b.evade_chance,
            effect_chance: b.effect_chance,
            special_chance: b.special_chance,
            special_damage: b.special_damage,
            speed: b.speed,
            base_speed: b.speed,
            is_boss: true,
            enrage_stacks: 0,
            max_enrage: false,
            has_secondary: stage >= 200 && !matches!(ht, HunterType::Knox),
            secondary_type,
            speed2,
            base_speed2: speed2,
            harden_ticks_left: 0,
        }
    }

    /// The enemy is dead exactly when health has reached zero.
    pub fn is_dead(&self) -> (r: bool)
        ensures
            r == (self.hp == 0),
    {
        self.hp == 0
    }

    /// The post-mitigation damage of a hit: scaled down by the current
    /// damage-reduction fraction.
    pub open spec fn spec_mitigated(self, damage: u64) -> u64 {
        cap_mul_frac(damage, sat_sub(SCALE, self.damage_reduction))
    }

    /// Apply a hit: health drops by the post-mitigation damage, floored at
    /// zero; returns the post-mitigation damage.
    pub fn take_damage(&mut self, damage: u64) -> (r: u64)
        ensures
            r == old(self).spec_mitigated(damage),
            *final(self) == (Enemy { hp: sat_sub(old(self).hp, r), ..*old(self) }),
    {
        let actual = mul_frac(damage, sub_floor(SCALE, self.damage_reduction));
        self.hp = sub_floor(self.hp, actual);
        actual
    }

    /// One rage stack: the attack intervals shrink linearly with the stack
    /// count (floored at half a second), and crossing the threshold latches
    /// the max-rage state once: power fixed at three times base, critical
    /// hits certain.
    pub open spec fn spec_add_enrage(self) -> Enemy {
        if !self.is_boss {
            self
        } else {
            let stacks: u32 = if self.enrage_stacks < u32::MAX {
                (self.enrage_stacks + 1) as u32
            } else {
                self.enrage_stacks
            };
            let slow = Enemy {
                enrage_stacks: stacks,
                speed: rage_speed(self.base_speed, stacks),
                speed2: if self.has_secondary && self.base_speed2 > 0 {
                    rage_speed(self.base_speed2, stacks)
                } else {
                    self.speed2
                },
                ..self
            };
            if stacks > MAX_ENRAGE_THRESHOLD && !self.max_enrage {
                Enemy {
                    max_enrage: true,
                    power: cap_mul_int(self.base_power, 3),
                    special_chance: SCALE,
                    ..slow
                }
            } else {
                slow
            }
        }
    }

    /// Grant one rage stack.
    pub fn add_enrage(&mut self)
        ensures
            *final(self) == old(self).spec_add_enrage(),
    {
        if self.is_boss {
            if self.enrage_stacks < u32::MAX {
                self.enrage_stacks = self.enrage_stacks + 1;
            }
            self.speed = rage_speed_exec(self.base_speed, self.enrage_stacks);
            if self.has_secondary && self.base_speed2 > 0 {
                self.speed2 = rage_speed_exec(self.base_speed2, self.enrage_stacks);
            }
            if self.enrage_stacks > MAX_ENRAGE_THRESHOLD && !self.max_enrage {
                self.max_enrage = true;
                self.power = mul_int(self.base_power, 3);
                self.special_chance = SCALE;
            }
        }
    }

    /// Start the hardening window: damage reduction pinned high for a fixed
    /// number of regeneration ticks.
    pub fn start_harden(&mut self)
        ensures
            *final(self) == (Enemy { harden_ticks_left: 5, damage_reduction: 950_000, ..*old(self) }),
    {
        self.harden_ticks_left = 5;
        self.damage_reduction = 950_000;
    }

    /// The state after the hardening window ends: baseline damage reduction
    /// restored, and a batch of five rage stacks granted atomically.
    pub open spec fn spec_end_harden(self) -> Enemy {
        let restored = Enemy { damage_reduction: self.base_dr, ..self };
        restored.spec_add_enrage().spec_add_enrage().spec_add_enrage()
            .spec_add_enrage().spec_add_enrage()
    }

    /// End the hardening window: restore baseline damage reduction and
    /// grant five rage stacks.
    pub fn end_harden(&mut self)
        ensures
            *final(self) == old(self).spec_end_harden(),
    {
        self.damage_reduction = self.base_dr;
        self.add_enrage();
        self.add_enrage();
        self.add_enrage();
        self.add_enrage();
        self.add_enrage();
    }

    /// One regeneration tick: heals when alive and hurt, tripled during the
    /// hardening window, whose countdown ends by restoring baseline damage
    /// reduction and granting rage.
    pub open spec fn spec_regen_tick(self) -> Enemy {
        if self.hp < self.max_hp && self.hp > 0 {
            if self.harden_ticks_left > 0 {
                let healed = Enemy {
                    hp: min_u64(cap_add(self.hp, cap_mul_int(self.regen, 3)), self.max_hp),
                    harden_ticks_left: (self.harden_ticks_left - 1) as u32,
                    ..self
                };
                if healed.harden_ticks_left == 0 {
                    healed.spec_end_harden()
                } else {
                    healed
                }
            } else {
                Enemy { hp: min_u64(cap_add(self.hp, self.regen), self.max_hp), ..self }
            }
        } else {
            self
        }
    }

    /// Apply one regeneration tick.
    pub fn regen_hp(&mut self)
        ensures
            *final(self) == old(self).spec_regen_tick(),
    {
        if self.hp < self.max_hp && self.hp > 0 {
            if self.harden_ticks_left > 0 {
                let h = add_cap(self.hp, mul_int(self.regen, 3));
                self.hp = if h < self.max_hp { h } else { self.max_hp };
                self.harden_ticks_left = self.harden_ticks_left - 1;
                if self.harden_ticks_left == 0 {
                    self.end_harden();
                }
            } else {
                let h = add_cap(self.hp, self.regen);
                self.hp = if h < self.max_hp { h } else { self.max_hp };
            }
        }
    }

    /// The damage and crit flag of one enemy attack, as a function of the
    /// state and the draw taken: past the rage threshold the hit is based
    /// on three times base power and crits with certainty; otherwise base
    /// power with the enemy's crit chance.
    pub open spec fn spec_attack_damage(self, seed: u64, idx: u64) -> (u64, bool) {
        let power = if self.enrage_stacks > MAX_ENRAGE_THRESHOLD {
            cap_mul_int(self.base_power, 3)
        } else {
            self.base_power
        };
        let crit_chance = if self.enrage_stacks > MAX_ENRAGE_THRESHOLD {
            SCALE as u64
        } else {
            self.special_chance
        };
        if spec_roll(seed, idx, crit_chance) {
            (cap_mul_frac(power, self.special_damage), true)
        } else {
            (power, false)
        }
    }

    /// Roll one enemy attack: its damage and whether it crit.
    pub fn get_attack_damage(&self, rng: &mut FastRng) -> (r: (u64, bool))
        ensures
            r == self.spec_attack_damage(old(rng).seed(), old(rng).draws()),
            final(rng).seed() == old(rng).seed(),
            final(rng).draws() == crate::fixed::bump(old(rng).draws()),
    {
        let power = if self.enrage_stacks > MAX_ENRAGE_THRESHOLD {
            mul_int(self.base_power, 3)
        } else {
            self.base_power
        };
        let crit_chance = if self.enrage_stacks > MAX_ENRAGE_THRESHOLD {
            SCALE
        } else {
            self.special_chance
        };
        if rng.roll(crit_chance) {
            (mul_frac(power, self.special_damage), true)
        } else {
            (power, false)
        }
    }

    /// Current primary attack interval.
    pub fn get_speed(&self) -> (r: u64)
        ensures
            r == self.speed,
    {
        self.speed
    }

    /// Current secondary attack interval.
    pub fn get_speed2(&self) -> (r: u64)
        ensures
            r == self.speed2,
    {
        self.speed2
    }
}

/// The smaller of two values.
pub open spec fn min_u64(a: u64, b: u64) -> u64 {
    if a < b { a } else { b }
}

/// The rage-adjusted attack interval: the base interval shrunk by the stack
/// count's share of it, floored at half a second.
pub open spec fn rage_speed(base: u64, stacks: u32) -> u64 {
    let cut = base * stacks / 200;
    let s = sat_sub(base, if cut > CAP { CAP } else { cut as u64 });
    if s < 500_000 { 500_000 } else { s }
}

/// Compute the rage-adjusted attack interval.
fn rage_speed_exec(base: u64, stacks: u32) -> (r: u64)
    ensures
        r == rage_speed(base, stacks),
{
    proof {
        lemma_mul_bound(base as int, stacks as int, u64::MAX as int, u32::MAX as int);
    }
    let cut: u128 = base as u128 * stacks as u128 / 200;
    let cut64: u64 = if cut > CAP as u128 { CAP } else { cut as u64 };
    let s = sub_floor(base, cut64);
    if s < 500_000 { 500_000 } else { s }
}

/// The max-rage latch is one-way: granting rage never clears it, stacks
/// never decrease, and once the threshold has been crossed the attack roll
/// always crits and always deals three-times-base-power damage (scaled by
/// the crit multiplier), whatever the stacks later become.
pub proof fn lemma_max_rage_latch(e: Enemy, seed: u64, idx: u64)
    ensures
        e.spec_add_enrage().enrage_stacks >= e.enrage_stacks,
        e.max_enrage ==> e.spec_add_enrage().max_enrage,
        e.max_enrage ==> e.spec_add_enrage().power == e.power,
        e.enrage_stacks > MAX_ENRAGE_THRESHOLD && idx < u64::MAX
            ==> e.spec_attack_damage(seed, idx)
                == (cap_mul_frac(cap_mul_int(e.base_power, 3), e.special_damage), true),
{
    if e.enrage_stacks > MAX_ENRAGE_THRESHOLD && idx < u64::MAX {
        assert(spec_roll(seed, idx, SCALE)) by {
            let d = crate::rng::rng_stream(seed, idx);
            assert((d / 2048) * (SCALE as int) < (SCALE as int) * 9007199254740992);
        }
    }
}

/// The latch closes exactly once: a non-latched boss strictly above the
/// threshold after one more stack latches with power fixed at three times
/// base and certain crits.
pub proof fn lemma_max_rage_transition(e: Enemy)
    requires
        e.is_boss,
        !e.max_enrage,
        e.enrage_stacks >= MAX_ENRAGE_THRESHOLD,
        e.enrage_stacks < u32::MAX,
    ensures
        e.spec_add_enrage().max_enrage,
        e.spec_add_enrage().power == cap_mul_int(e.base_power, 3),
        e.spec_add_enrage().special_chance == SCALE,
{
}

} // verus!
