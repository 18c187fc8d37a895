//! Archetype attack and defense resolution.
//!
//! Each resolution is a fixed sequence of independent Bernoulli-gated
//! modifiers; every chance has its own draw, and draws are consumed in a
//! fixed order, so each function is an exact function of the combat state,
//! the generator's seed and its draw count. The spec mirror of each
//! function states that function exactly.

use vstd::prelude::*;
use crate::fixed::{SCALE, cap_add, add_cap, sat_sub, sub_floor, cap_mul_frac, mul_frac,
    cap_mul_int, mul_int, bump};
use crate::hunter::{Hunter, HunterType};
use crate::enemy::{Enemy, SecondaryAttackType};
use crate::rng::{FastRng, spec_roll};
use crate::stats::SimResult;

verus! {

/// Saturating add on a stack counter.
pub open spec fn stack_add(a: u32, b: u32) -> u32 {
    if a + b > u32::MAX { u32::MAX } else { (a + b) as u32 }
}

/// Saturating add on a stack counter.
fn stack_add_exec(a: u32, b: u32) -> (r: u32)
    ensures
        r == stack_add(a, b),
{
    if a <= u32::MAX - b { a + b } else { u32::MAX }
}

/// Lifesteal applied to a damage number: the heal is the lifesteal fraction
/// of pre-mitigation damage; health rises by it, capped at maximum, and the
/// record logs the part that fit below maximum.
pub open spec fn spec_lifesteal(h: Hunter, dmg: u64) -> Hunter {
    if h.stats.lifesteal > 0 {
        let heal = cap_mul_frac(dmg, h.stats.lifesteal);
        let effective = min64(heal, sat_sub(h.stats.max_hp, h.hp));
        Hunter {
            hp: min64(cap_add(h.hp, heal), h.stats.max_hp),
            result: SimResult { lifesteal: cap_add(h.result.lifesteal, effective), ..h.result },
            ..h
        }
    } else {
        h
    }
}

/// Apply plain lifesteal for a damage number.
fn apply_lifesteal(h: &mut Hunter, dmg: u64)
    ensures
        *final(h) == spec_lifesteal(*old(h), dmg),
{
    if h.stats.lifesteal > 0 {
        let heal = mul_frac(dmg, h.stats.lifesteal);
        let missing = sub_floor(h.stats.max_hp, h.hp);
        let effective = if heal < missing { heal } else { missing };
        let grown = add_cap(h.hp, heal);
        h.hp = if grown < h.stats.max_hp { grown } else { h.stats.max_hp };
        h.result.lifesteal = add_cap(h.result.lifesteal, effective);
    }
}

/// The empowered lifesteal heal: raised while a vectid window is active.
pub open spec fn spec_empowered_heal(h: Hunter, dmg: u64) -> u64 {
    let heal = cap_mul_frac(dmg, h.stats.lifesteal);
    if h.empowered_regen > 0 {
        cap_mul_frac(heal, cap_add(SCALE, (h.stats.soul_of_snek * 150000) as u64))
    } else {
        heal
    }
}

/// Empowered lifesteal, logging the part that fit below maximum health
/// before health rises.
pub open spec fn spec_lifesteal_main(h: Hunter, dmg: u64) -> Hunter {
    if h.stats.lifesteal > 0 {
        let heal = spec_empowered_heal(h, dmg);
        let effective = min64(heal, sat_sub(h.stats.max_hp, h.hp));
        Hunter {
            hp: min64(cap_add(h.hp, heal), h.stats.max_hp),
            result: SimResult { lifesteal: cap_add(h.result.lifesteal, effective), ..h.result },
            ..h
        }
    } else {
        h
    }
}

/// Apply empowered lifesteal for a main attack.
fn apply_lifesteal_main(h: &mut Hunter, dmg: u64)
    ensures
        *final(h) == spec_lifesteal_main(*old(h), dmg),
{
    if h.stats.lifesteal > 0 {
        let mut heal = mul_frac(dmg, h.stats.lifesteal);
        if h.empowered_regen > 0 {
            heal = mul_frac(heal, add_cap(SCALE, h.stats.soul_of_snek as u64 * 150000));
        }
        let missing = sub_floor(h.stats.max_hp, h.hp);
        let effective = if heal < missing { heal } else { missing };
        let grown = add_cap(h.hp, heal);
        h.hp = if grown < h.stats.max_hp { grown } else { h.stats.max_hp };
        h.result.lifesteal = add_cap(h.result.lifesteal, effective);
    }
}

/// Empowered lifesteal for a follow-up hit, logging the part below maximum
/// health measured after health has already risen.
pub open spec fn spec_lifesteal_extra(h: Hunter, dmg: u64) -> Hunter {
    if h.stats.lifesteal > 0 {
        let heal = spec_empowered_heal(h, dmg);
        let hp2 = min64(cap_add(h.hp, heal), h.stats.max_hp);
        let effective = min64(heal, sat_sub(h.stats.max_hp, hp2));
        Hunter {
            hp: hp2,
            result: SimResult { lifesteal: cap_add(h.result.lifesteal, effective), ..h.result },
            ..h
        }
    } else {
        h
    }
}

/// Apply empowered lifesteal for a follow-up hit.
fn apply_lifesteal_extra(h: &mut Hunter, dmg: u64)
    ensures
        *final(h) == spec_lifesteal_extra(*old(h), dmg),
{
    if h.stats.lifesteal > 0 {
        let mut heal = mul_frac(dmg, h.stats.lifesteal);
        if h.empowered_regen > 0 {
            heal = mul_frac(heal, add_cap(SCALE, h.stats.soul_of_snek as u64 * 150000));
        }
        let grown = add_cap(h.hp, heal);
        h.hp = if grown < h.stats.max_hp { grown } else { h.stats.max_hp };
        let missing = sub_floor(h.stats.max_hp, h.hp);
        let effective = if heal < missing { heal } else { missing };
        h.result.lifesteal = add_cap(h.result.lifesteal, effective);
    }
}

/// The smaller of two values.
pub open spec fn min64(a: u64, b: u64) -> u64 {
    if a < b { a } else { b }
}

/// A crippling-shot proc roll: on success the pending decay stacks grow by
/// the talent level. Consumes one draw exactly when the talent is owned.
pub open spec fn spec_cripple_proc(h: Hunter, eff: u64, seed: u64, idx: u64) -> (Hunter, u64) {
    if h.stats.crippling_shots > 0 {
        if spec_roll(seed, idx, eff) {
            (Hunter {
                decay_stacks: stack_add(h.decay_stacks, h.stats.crippling_shots),
                result: SimResult {
                    effect_procs: cap_add(h.result.effect_procs, 1),
                    ..h.result
                },
                ..h
            }, bump(idx))
        } else {
            (h, bump(idx))
        }
    } else {
        (h, idx)
    }
}

/// Roll a crippling-shot proc.
fn cripple_proc(h: &mut Hunter, eff: u64, rng: &mut FastRng)
    ensures
        (*final(h), final(rng).draws())
            == spec_cripple_proc(*old(h), eff, old(rng).seed(), old(rng).draws()),
        final(rng).seed() == old(rng).seed(),
    {
    if h.stats.crippling_shots > 0 {
        if rng.roll(eff) {
            h.decay_stacks = stack_add_exec(h.decay_stacks, h.stats.crippling_shots);
            h.result.effect_procs = add_cap(h.result.effect_procs, 1);
        }
    }
}

/// One single-target attack with a critical roll: crit scales damage by the
/// crit multiplier; trample marks the target dead outright when the hit
/// overshoots the target's full health, and reports how many further
/// queued enemies die with it: `min(damage / max_health, 10) - 1`.
/// Returns the new states, the damage dealt, the extra kills, and the
/// advanced draw count.
pub open spec fn spec_borge_attack(h: Hunter, e: Enemy, power: u64, is_boss: bool,
    seed: u64, idx: u64) -> (Hunter, Enemy, u64, u32, u64) {
    let crit = spec_roll(seed, idx, h.stats.special_chance);
    let idx1 = bump(idx);
    let damage = if crit { cap_mul_frac(power, h.stats.special_damage) } else { power };
    let res1 = if crit {
        SimResult {
            crits: cap_add(h.result.crits, 1),
            extra_damage_from_crits:
                cap_add(h.result.extra_damage_from_crits, sat_sub(damage, power)),
            ..h.result
        }
    } else {
        h.result
    };
    let res2 = SimResult {
        damage: cap_add(res1.damage, damage),
        attacks: cap_add(res1.attacks, 1),
        ..res1
    };
    if h.stats.has_trample && !is_boss && damage > e.max_hp {
        let tp = trample_power(damage, e.max_hp);
        if tp > 1 {
            let h2 = Hunter {
                result: SimResult {
                    trample_kills: cap_add(res2.trample_kills, (tp - 1) as u64),
                    ..res2
                },
                ..h
            };
            (h2, Enemy { hp: 0, ..e }, damage, (tp - 1) as u32, idx1)
        } else {
            (Hunter { result: res2, ..h }, Enemy { hp: sat_sub(e.hp, e.spec_mitigated(damage)), ..e },
                damage, 0, idx1)
        }
    } else {
        (Hunter { result: res2, ..h }, Enemy { hp: sat_sub(e.hp, e.spec_mitigated(damage)), ..e },
            damage, 0, idx1)
    }
}

/// How many same-tier enemies one overshooting hit can kill, capped at ten.
pub open spec fn trample_power(damage: u64, max_hp: u64) -> u64 {
    if max_hp == 0 {
        10
    } else if damage as int / (max_hp as int) > 10 {
        10
    } else {
        (damage as int / (max_hp as int)) as u64
    }
}

/// Compute the trample power of a hit.
fn trample_power_exec(damage: u64, max_hp: u64) -> (r: u64)
    ensures
        r == trample_power(damage, max_hp),
{
    if max_hp == 0 {
        10
    } else {
        let q = damage / max_hp;
        if q > 10 { 10 } else { q }
    }
}

/// Resolve one single-target attack with a critical roll and trample.
/// Returns the damage dealt and the number of additional queued enemies
/// the trample kills.
pub fn borge_attack(h: &mut Hunter, e: &mut Enemy, power: u64, is_boss: bool,
    rng: &mut FastRng) -> (r: (u64, u32))
    ensures
        (*final(h), *final(e), r.0, r.1, final(rng).draws())
            == spec_borge_attack(*old(h), *old(e), power, is_boss,
                old(rng).seed(), old(rng).draws()),
        final(rng).seed() == old(rng).seed(),
{
    let crit = rng.roll(h.stats.special_chance);
    let damage = if crit { mul_frac(power, h.stats.special_damage) } else { power };
    if crit {
        h.result.crits = add_cap(h.result.crits, 1);
        h.result.extra_damage_from_crits =
            add_cap(h.result.extra_damage_from_crits, sub_floor(damage, power));
    }
    h.result.damage = add_cap(h.result.damage, damage);
    h.result.attacks = add_cap(h.result.attacks, 1);
    let mut trample_kills: u32 = 0;
    if h.stats.has_trample && !is_boss && damage > e.max_hp {
        let tp = trample_power_exec(damage, e.max_hp);
        if tp > 1 {
            e.hp = 0;
            trample_kills = (tp - 1) as u32;
            h.result.trample_kills = add_cap(h.result.trample_kills, tp - 1);
        } else {
            e.take_damage(damage);
        }
    } else {
        e.take_damage(damage);
    }
    (damage, trample_kills)
}

/// The stun duration a stun talent inflicts, halved against bosses.
pub open spec fn stun_duration(level: u32, per_level: u64, is_boss: bool) -> u64 {
    if is_boss { (level * per_level / 2) as u64 } else { (level * per_level) as u64 }
}

/// Compute a stun duration.
fn stun_duration_exec(level: u32, per_level: u64, is_boss: bool) -> (r: u64)
    requires
        per_level <= 100_000,
    ensures
        r == stun_duration(level, per_level, is_boss),
{
    proof {
        crate::fixed::lemma_mul_bound(level as int, per_level as int, u32::MAX as int, 100_000);
    }
    if is_boss { level as u64 * per_level / 2 } else { level as u64 * per_level }
}

/// The common post-attack effects of the single-target archetype:
/// lifesteal, a chance-gated heal, a chance-gated stun, and a chance-gated
/// temporary attack-speed buff, in that order.
pub open spec fn spec_borge_after(h: Hunter, damage: u64, eff: u64, is_boss: bool,
    seed: u64, idx: u64) -> (Hunter, u64) {
    let h1 = spec_lifesteal(h, damage);
    let (h2, idx2) = if h1.stats.life_of_the_hunt > 0 {
        if spec_roll(seed, idx, eff) {
            let heal = cap_mul_frac(damage, (h1.stats.life_of_the_hunt * 60_000) as u64);
            (Hunter {
                hp: min64(cap_add(h1.hp, heal), h1.stats.max_hp),
                result: SimResult {
                    life_of_the_hunt_healing:
                        cap_add(h1.result.life_of_the_hunt_healing, heal),
                    effect_procs: cap_add(h1.result.effect_procs, 1),
                    ..h1.result
                },
                ..h1
            }, bump(idx))
        } else {
            (h1, bump(idx))
        }
    } else {
        (h1, idx)
    };
    let (h3, idx3) = if h2.stats.impeccable_impacts > 0 {
        if spec_roll(seed, idx2, eff) {
            (Hunter {
                pending_stun_duration:
                    stun_duration(h2.stats.impeccable_impacts, 100_000, is_boss),
                result: SimResult {
                    effect_procs: cap_add(h2.result.effect_procs, 1),
                    ..h2.result
                },
                ..h2
            }, bump(idx2))
        } else {
            (h2, bump(idx2))
        }
    } else {
        (h2, idx2)
    };
    if h3.stats.fires_of_war > 0 {
        if spec_roll(seed, idx3, eff) {
            (Hunter {
                fires_of_war_buff: (h3.stats.fires_of_war * 100_000) as u64,
                result: SimResult {
                    effect_procs: cap_add(h3.result.effect_procs, 1),
                    ..h3.result
                },
                ..h3
            }, bump(idx3))
        } else {
            (h3, bump(idx3))
        }
    } else {
        (h3, idx3)
    }
}

/// Apply the common post-attack effects of the single-target archetype.
fn borge_after(h: &mut Hunter, damage: u64, eff: u64, is_boss: bool, rng: &mut FastRng)
    ensures
        (*final(h), final(rng).draws())
            == spec_borge_after(*old(h), damage, eff, is_boss,
                old(rng).seed(), old(rng).draws()),
        final(rng).seed() == old(rng).seed(),
{
    apply_lifesteal(h, damage);
    if h.stats.life_of_the_hunt > 0 {
        if rng.roll(eff) {
            let heal = mul_frac(damage, h.stats.life_of_the_hunt as u64 * 60_000);
            let grown = add_cap(h.hp, heal);
            h.hp = if grown < h.stats.max_hp { grown } else { h.stats.max_hp };
            h.result.life_of_the_hunt_healing =
                add_cap(h.result.life_of_the_hunt_healing, heal);
            h.result.effect_procs = add_cap(h.result.effect_procs, 1);
        }
    }
    if h.stats.impeccable_impacts > 0 {
        if rng.roll(eff) {
            h.pending_stun_duration =
                stun_duration_exec(h.stats.impeccable_impacts, 100_000, is_boss);
            h.result.effect_procs = add_cap(h.result.effect_procs, 1);
        }
    }
    if h.stats.fires_of_war > 0 {
        if rng.roll(eff) {
            h.fires_of_war_buff = h.stats.fires_of_war as u64 * 100_000;
            h.result.effect_procs = add_cap(h.result.effect_procs, 1);
        }
    }
}

/// The first half of the multistrike/echo attack: the boon, multistrike,
/// stun and echo rolls, crippling bonus damage (consumed on use), the
/// chance-gated omen, the main hit, lifesteal and one crippling re-proc.
/// Returns the new states, the multistrike and echo flags, the main hit's
/// damage, and the advanced draw count.
pub open spec fn spec_ozzy_main(h: Hunter, e: Enemy, power: u64, eff: u64, is_boss: bool,
    seed: u64, idx: u64) -> (Hunter, Enemy, bool, bool, u64, u64) {
    let h0 = Hunter {
        result: SimResult { attacks: cap_add(h.result.attacks, 1), ..h.result },
        ..h
    };
    let (h1, idx1) = if h0.stats.tricksters_boon > 0 {
        if spec_roll(seed, idx, (eff / 2) as u64) {
            (Hunter {
                trickster_charges: stack_add(h0.trickster_charges, 1),
                result: SimResult {
                    effect_procs: cap_add(h0.result.effect_procs, 1), ..h0.result },
                ..h0
            }, bump(idx))
        } else {
            (h0, bump(idx))
        }
    } else {
        (h0, idx)
    };
    let multistrike = spec_roll(seed, idx1, h1.stats.special_chance);
    let idx2 = bump(idx1);
    let (h2, idx3) = if h1.stats.thousand_needles > 0 {
        if spec_roll(seed, idx2, eff) {
            (Hunter {
                pending_stun_duration:
                    stun_duration(h1.stats.thousand_needles, 50_000, is_boss),
                result: SimResult {
                    effect_procs: cap_add(h1.result.effect_procs, 1), ..h1.result },
                ..h1
            }, bump(idx2))
        } else {
            (h1, bump(idx2))
        }
    } else {
        (h1, idx2)
    };
    let (echo, h3, idx4) = if h2.stats.echo_bullets > 0 {
        if spec_roll(seed, idx3, (eff / 2) as u64) {
            (true, Hunter {
                result: SimResult {
                    effect_procs: cap_add(h2.result.effect_procs, 1), ..h2.result },
                ..h2
            }, bump(idx3))
        } else {
            (false, h2, bump(idx3))
        }
    } else {
        (false, h2, idx3)
    };
    let cripple = cap_mul_frac(cap_mul_frac(e.hp, (h3.decay_stacks * 8000) as u64),
        if is_boss { 100_000 } else { SCALE });
    let h4 = Hunter { decay_stacks: 0, ..h3 };
    let (omen_mult, h5, idx5) = if h4.stats.omen_of_decay > 0 {
        if spec_roll(seed, idx4, (eff / 2) as u64) {
            (cap_add(SCALE, (h4.stats.omen_of_decay * 30_000) as u64),
             Hunter {
                result: SimResult {
                    effect_procs: cap_add(h4.result.effect_procs, 1), ..h4.result },
                ..h4
             }, bump(idx4))
        } else {
            (SCALE as u64, h4, bump(idx4))
        }
    } else {
        (SCALE as u64, h4, idx4)
    };
    let main_damage = cap_mul_frac(cap_add(power, cripple), omen_mult);
    let e1 = Enemy { hp: sat_sub(e.hp, e.spec_mitigated(main_damage)), ..e };
    let h6 = Hunter {
        result: SimResult {
            damage: cap_add(h5.result.damage, power),
            extra_damage_from_crits: cap_add(h5.result.extra_damage_from_crits, cripple),
            ..h5.result
        },
        ..h5
    };
    let h7 = spec_lifesteal_main(h6, power);
    let (h8, idx6) = spec_cripple_proc(h7, eff, seed, idx5);
    (h8, e1, multistrike, echo, main_damage, idx6)
}

/// Resolve the first half of a multistrike/echo attack; returns the
/// multistrike and echo flags and the main hit's damage.
#[verifier::rlimit(60)]
fn ozzy_main(h: &mut Hunter, e: &mut Enemy, power: u64, eff: u64, is_boss: bool,
    rng: &mut FastRng) -> (r: (bool, bool, u64))
    ensures
        (*final(h), *final(e), r.0, r.1, r.2, final(rng).draws())
            == spec_ozzy_main(*old(h), *old(e), power, eff, is_boss,
                old(rng).seed(), old(rng).draws()),
        final(rng).seed() == old(rng).seed(),
{
    h.result.attacks = add_cap(h.result.attacks, 1);
    if h.stats.tricksters_boon > 0 {
        if rng.roll(eff / 2) {
            h.trickster_charges = stack_add_exec(h.trickster_charges, 1);
            h.result.effect_procs = add_cap(h.result.effect_procs, 1);
        }
    }
    let multistrike = rng.roll(h.stats.special_chance);
    if h.stats.thousand_needles > 0 {
        if rng.roll(eff) {
            h.pending_stun_duration =
                stun_duration_exec(h.stats.thousand_needles, 50_000, is_boss);
            h.result.effect_procs = add_cap(h.result.effect_procs, 1);
        }
    }
    let mut echo = false;
    if h.stats.echo_bullets > 0 {
        if rng.roll(eff / 2) {
            echo = true;
            h.result.effect_procs = add_cap(h.result.effect_procs, 1);
        }
    }
    proof {
        crate::fixed::lemma_mul_bound(h.decay_stacks as int, 8000, u32::MAX as int, 8000);
    }
    let cripple = mul_frac(mul_frac(e.hp, h.decay_stacks as u64 * 8000),
        if is_boss { 100_000 } else { SCALE });
    h.decay_stacks = 0;
    let mut omen_mult: u64 = SCALE;
    if h.stats.omen_of_decay > 0 {
        if rng.roll(eff / 2) {
            omen_mult = add_cap(SCALE, h.stats.omen_of_decay as u64 * 30_000);
            h.result.effect_procs = add_cap(h.result.effect_procs, 1);
        }
    }
    let main_damage = mul_frac(add_cap(power, cripple), omen_mult);
    e.take_damage(main_damage);
    h.result.damage = add_cap(h.result.damage, power);
    h.result.extra_damage_from_crits = add_cap(h.result.extra_damage_from_crits, cripple);
    apply_lifesteal_main(h, power);
    cripple_proc(h, eff, rng);
    (multistrike, echo, main_damage)
}

/// The second half of the multistrike/echo attack: the independently
/// triggered multistrike and echo follow-up hits, each with lifesteal and
/// a crippling re-proc roll. Returns the new states, the follow-up damage
/// total, and the advanced draw count.
pub open spec fn spec_ozzy_extras(h: Hunter, e: Enemy, power: u64, eff: u64,
    multistrike: bool, echo: bool, seed: u64, idx: u64) -> (Hunter, Enemy, u64, u64) {
    let (h9, e2, ms_dmg, idx7) = if multistrike {
        let d = cap_mul_frac(power, h.stats.special_damage);
        let ea = Enemy { hp: sat_sub(e.hp, e.spec_mitigated(d)), ..e };
        let ha = Hunter {
            result: SimResult {
                multistrikes: cap_add(h.result.multistrikes, 1),
                extra_damage_from_ms: cap_add(h.result.extra_damage_from_ms, d),
                ..h.result
            },
            ..h
        };
        let hb = spec_lifesteal_extra(ha, d);
        let (hc, idxa) = spec_cripple_proc(hb, eff, seed, idx);
        (hc, ea, d, idxa)
    } else {
        (h, e, 0 as u64, idx)
    };
    let (h12, e3, echo_dmg, idx8) = if echo {
        let d = cap_mul_frac(power, (h9.stats.echo_bullets * 50_000) as u64);
        let ea = Enemy { hp: sat_sub(e2.hp, e2.spec_mitigated(d)), ..e2 };
        let ha = Hunter {
            result: SimResult {
                echo_bullets: cap_add(h9.result.echo_bullets, 1),
                ..h9.result
            },
            ..h9
        };
        let hb = spec_lifesteal_extra(ha, d);
        let (hc, idxa) = spec_cripple_proc(hb, eff, seed, idx7);
        (hc, ea, d, idxa)
    } else {
        (h9, e2, 0 as u64, idx7)
    };
    (h12, e3, cap_add(ms_dmg, echo_dmg), idx8)
}

/// Resolve the follow-up hits of a multistrike/echo attack; returns their
/// damage total.
#[verifier::rlimit(60)]
fn ozzy_extras(h: &mut Hunter, e: &mut Enemy, power: u64, eff: u64,
    multistrike: bool, echo: bool, rng: &mut FastRng) -> (r: u64)
    ensures
        (*final(h), *final(e), r, final(rng).draws())
            == spec_ozzy_extras(*old(h), *old(e), power, eff, multistrike, echo,
                old(rng).seed(), old(rng).draws()),
        final(rng).seed() == old(rng).seed(),
{
    let mut ms_dmg: u64 = 0;
    if multistrike {
        ms_dmg = mul_frac(power, h.stats.special_damage);
        e.take_damage(ms_dmg);
        h.result.multistrikes = add_cap(h.result.multistrikes, 1);
        h.result.extra_damage_from_ms = add_cap(h.result.extra_damage_from_ms, ms_dmg);
        apply_lifesteal_extra(h, ms_dmg);
        cripple_proc(h, eff, rng);
    }
    let mut echo_dmg: u64 = 0;
    if echo {
        proof {
            crate::fixed::lemma_mul_bound(h.stats.echo_bullets as int, 50_000,
                u32::MAX as int, 50_000);
        }
        echo_dmg = mul_frac(power, h.stats.echo_bullets as u64 * 50_000);
        e.take_damage(echo_dmg);
        h.result.echo_bullets = add_cap(h.result.echo_bullets, 1);
        apply_lifesteal_extra(h, echo_dmg);
        cripple_proc(h, eff, rng);
    }
    add_cap(ms_dmg, echo_dmg)
}

/// The multistrike/echo archetype's full attack resolution: the main hit
/// with all its gated modifiers, then the independently rolled follow-up
/// hits. Returns the new states, the total damage dealt and the advanced
/// draw count.
pub open spec fn spec_ozzy_attack(h: Hunter, e: Enemy, power: u64, eff: u64, is_boss: bool,
    seed: u64, idx: u64) -> (Hunter, Enemy, u64, u64) {
    let (h1, e1, multistrike, echo, main_damage, idx1) =
        spec_ozzy_main(h, e, power, eff, is_boss, seed, idx);
    let (h2, e2, extra, idx2) =
        spec_ozzy_extras(h1, e1, power, eff, multistrike, echo, seed, idx1);
    (h2, e2, cap_add(main_damage, extra), idx2)
}

/// Resolve one multistrike/echo-archetype attack; returns total damage.
pub fn ozzy_attack(h: &mut Hunter, e: &mut Enemy, power: u64, eff: u64, is_boss: bool,
    rng: &mut FastRng) -> (r: u64)
    ensures
        (*final(h), *final(e), r, final(rng).draws())
            == spec_ozzy_attack(*old(h), *old(e), power, eff, is_boss,
                old(rng).seed(), old(rng).draws()),
        final(rng).seed() == old(rng).seed(),
{
    let (multistrike, echo, main_damage) = ozzy_main(h, e, power, eff, is_boss, rng);
    let extra = ozzy_extras(h, e, power, eff, multistrike, echo, rng);
    add_cap(main_damage, extra)
}

/// One bullet after another: each rolls its own charge, and only the last
/// one may roll the guaranteed-bonus finishing move. Accumulates total
/// damage and the record's charge/proc counters.
pub open spec fn spec_salvo(h: Hunter, power: u64, eff2: u64, num: u32, i: u32,
    total: u64, seed: u64, idx: u64) -> (Hunter, u64, u64)
    decreases num - i when i <= num
{
    if i >= num {
        (h, total, idx)
    } else {
        let charged = spec_roll(seed, idx, h.stats.charge_chance);
        let idx1 = bump(idx);
        let b1 = if charged {
            cap_mul_frac(power, cap_add(SCALE, h.stats.charge_gained))
        } else {
            power
        };
        let h1 = if charged {
            Hunter {
                result: SimResult { crits: cap_add(h.result.crits, 1), ..h.result },
                ..h
            }
        } else {
            h
        };
        let (b2, h2, idx2) = if i == num - 1 && h1.stats.finishing_move > 0 {
            if spec_roll(seed, idx1, eff2) {
                (cap_mul_frac(b1, h1.stats.special_damage),
                 Hunter {
                    result: SimResult {
                        effect_procs: cap_add(h1.result.effect_procs, 1), ..h1.result },
                    ..h1
                 }, bump(idx1))
            } else {
                (b1, h1, bump(idx1))
            }
        } else {
            (b1, h1, idx1)
        };
        spec_salvo(h2, power, eff2, num, (i + 1) as u32, cap_add(total, b2), seed, idx2)
    }
}

/// The salvo archetype's full attack resolution: a chance-gated extra
/// projectile, then one charge roll per projectile with the finishing-move
/// roll on the last, the whole salvo's damage applied at once, the extra
/// projectile's share logged, and lifesteal.
pub open spec fn spec_knox_attack(h: Hunter, e: Enemy, power: u64, eff: u64,
    seed: u64, idx: u64) -> (Hunter, Enemy, u64, u64) {
    let base = h.stats.salvo_projectiles;
    let (num, h1, idx1) = if h.stats.ghost_bullets > 0 {
        if spec_roll(seed, idx, (h.stats.ghost_bullets * 66_700) as u64) {
            (stack_add(base, 1), Hunter {
                result: SimResult {
                    ghost_bullets: cap_add(h.result.ghost_bullets, 1), ..h.result },
                ..h
            }, bump(idx))
        } else {
            (base, h, bump(idx))
        }
    } else {
        (base, h, idx)
    };
    let eff2 = cap_mul_int(eff, 2);
    let (h2, total, idx2) = spec_salvo(h1, power, eff2, num, 0, 0, seed, idx1);
    let e1 = Enemy { hp: sat_sub(e.hp, e.spec_mitigated(total)), ..e };
    let h3 = Hunter {
        result: SimResult {
            damage: cap_add(h2.result.damage, total),
            attacks: cap_add(h2.result.attacks, 1),
            ..h2.result
        },
        ..h2
    };
    let h4 = if num > base {
        let dpp = (total as int / (num as int)) as u64;
        Hunter {
            result: SimResult {
                extra_salvo_damage: cap_add(h3.result.extra_salvo_damage,
                    cap_mul_int(dpp, (num - base) as u64)),
                ..h3.result
            },
            ..h3
        }
    } else {
        h3
    };
    (spec_lifesteal(h4, total), e1, total, idx2)
}

/// Resolve one salvo-archetype attack; returns total damage.
pub fn knox_attack(h: &mut Hunter, e: &mut Enemy, power: u64, eff: u64,
    rng: &mut FastRng) -> (r: u64)
    ensures
        (*final(h), *final(e), r, final(rng).draws())
            == spec_knox_attack(*old(h), *old(e), power, eff,
                old(rng).seed(), old(rng).draws()),
        final(rng).seed() == old(rng).seed(),
{
    let base = h.stats.salvo_projectiles;
    let mut num = base;
    if h.stats.ghost_bullets > 0 {
        proof {
            crate::fixed::lemma_mul_bound(h.stats.ghost_bullets as int, 66_700,
                u32::MAX as int, 66_700);
        }
        if rng.roll(h.stats.ghost_bullets as u64 * 66_700) {
            num = stack_add_exec(base, 1);
            h.result.ghost_bullets = add_cap(h.result.ghost_bullets, 1);
        }
    }
    let eff2 = mul_int(eff, 2);
    let ghost seed = rng.seed();
    let ghost h1 = *h;
    let ghost idx1 = rng.draws();
    let mut total: u64 = 0;
    let mut i: u32 = 0;
    while i < num
        invariant
            i <= num,
            rng.seed() == seed,
            spec_salvo(*h, power, eff2, num, i, total, seed, rng.draws())
                == spec_salvo(h1, power, eff2, num, 0, 0, seed, idx1),
            h.stats == h1.stats,
        decreases num - i,
    {
        let mut bullet = power;
        if rng.roll(h.stats.charge_chance) {
            bullet = mul_frac(power, add_cap(SCALE, h.stats.charge_gained));
            h.result.crits = add_cap(h.result.crits, 1);
        }
        if i == num - 1 && h.stats.finishing_move > 0 {
            if rng.roll(eff2) {
                bullet = mul_frac(bullet, h.stats.special_damage);
                h.result.effect_procs = add_cap(h.result.effect_procs, 1);
            }
        }
        total = add_cap(total, bullet);
        i = i + 1;
    }
    e.take_damage(total);
    h.result.damage = add_cap(h.result.damage, total);
    h.result.attacks = add_cap(h.result.attacks, 1);
    if num > base {
        let dpp = total / (num as u64);
        h.result.extra_salvo_damage = add_cap(h.result.extra_salvo_damage,
            mul_int(dpp, (num - base) as u64));
    }
    apply_lifesteal(h, total);
    total
}

/// One full player attack: pick the archetype's resolution, then (for the
/// single-target archetype) the common post-attack effects. Returns the
/// number of additional queued enemies killed by trample.
pub open spec fn spec_hunter_attack(h: Hunter, e: Enemy, seed: u64, idx: u64)
    -> (Hunter, Enemy, u32, u64) {
    let power = h.stats.power;
    let eff = h.spec_effective_effect_chance(e.is_boss);
    match h.stats.hunter_type {
        HunterType::Borge => {
            let (h1, e1, damage, tramples, idx1) =
                spec_borge_attack(h, e, power, e.is_boss, seed, idx);
            let (h2, idx2) = spec_borge_after(h1, damage, eff, e.is_boss, seed, idx1);
            (h2, e1, tramples, idx2)
        }
        HunterType::Ozzy => {
            let (h1, e1, _total, idx1) =
                spec_ozzy_attack(h, e, power, eff, e.is_boss, seed, idx);
            (h1, e1, 0 as u32, idx1)
        }
        HunterType::Knox => {
            let (h1, e1, _total, idx1) = spec_knox_attack(h, e, power, eff, seed, idx);
            (h1, e1, 0 as u32, idx1)
        }
    }
}

/// Resolve one player attack; returns the trample kill count.
pub fn hunter_attack(h: &mut Hunter, e: &mut Enemy, rng: &mut FastRng) -> (r: u32)
    ensures
        (*final(h), *final(e), r, final(rng).draws())
            == spec_hunter_attack(*old(h), *old(e), old(rng).seed(), old(rng).draws()),
        final(rng).seed() == old(rng).seed(),
{
    let power = h.stats.power;
    let is_boss = e.is_boss;
    let eff = h.get_effective_effect_chance(is_boss);
    match h.stats.hunter_type {
        HunterType::Borge => {
            let (damage, tramples) = borge_attack(h, e, power, is_boss, rng);
            borge_after(h, damage, eff, is_boss, rng);
            tramples
        }
        HunterType::Ozzy => {
            let _total = ozzy_attack(h, e, power, eff, is_boss, rng);
            0
        }
        HunterType::Knox => {
            let _total = knox_attack(h, e, power, eff, rng);
            0
        }
    }
}

/// Defense resolution of the single-target archetype: an evade roll first;
/// then the separate multiplicative reduction, the conditional critical
/// reduction, and the main additive reduction, in that order; then health
/// drops, the barrier reflects a fraction back at the attacker (weakened
/// against bosses), and death triggers a revive attempt.
pub open spec fn spec_borge_receive(h: Hunter, e: Enemy, damage: u64, is_crit: bool,
    seed: u64, idx: u64) -> (Hunter, Enemy, u64) {
    if spec_roll(seed, idx, h.stats.evade_chance) {
        (Hunter {
            result: SimResult { evades: cap_add(h.result.evades, 1), ..h.result },
            ..h
        }, e, bump(idx))
    } else {
        let f1 = if h.stats.minotaur_dr > 0 {
            cap_mul_frac(damage, sat_sub(SCALE, h.stats.minotaur_dr))
        } else {
            damage
        };
        let f2 = if is_crit && h.stats.weakspot_analysis > 0 {
            cap_mul_frac(f1, sat_sub(SCALE, (h.stats.weakspot_analysis * 110_000) as u64))
        } else {
            f1
        };
        let mitigated = cap_mul_frac(f2, sat_sub(SCALE, h.stats.damage_reduction));
        let h1 = Hunter {
            hp: sat_sub(h.hp, mitigated),
            result: SimResult {
                damage_taken: cap_add(h.result.damage_taken, mitigated),
                enemy_attacks: cap_add(h.result.enemy_attacks, 1),
                mitigated_damage: cap_add(h.result.mitigated_damage, sat_sub(f2, mitigated)),
                ..h.result
            },
            ..h
        };
        let (h2, e1) = if h1.stats.helltouch_barrier_level > 0 && mitigated > 0 {
            let reflected = cap_mul_frac(
                cap_mul_frac(mitigated, (h1.stats.helltouch_barrier_level * 80_000) as u64),
                if e.is_boss { 100_000 } else { SCALE });
            let ea = Enemy { hp: sat_sub(e.hp, reflected), ..e };
            let hh = Hunter {
                result: SimResult {
                    helltouch_barrier: cap_add(h1.result.helltouch_barrier, reflected),
                    ..h1.result
                },
                ..h1
            };
            if ea.hp == 0 {
                (Hunter {
                    result: SimResult {
                        helltouch_kills: cap_add(hh.result.helltouch_kills, 1),
                        ..hh.result
                    },
                    ..hh
                }, ea)
            } else {
                (hh, ea)
            }
        } else {
            (h1, e)
        };
        if h2.hp == 0 {
            (h2.spec_try_revive(), e1, bump(idx))
        } else {
            (h2, e1, bump(idx))
        }
    }
}

/// Apply incoming damage through the single-target archetype's defenses.
#[verifier::rlimit(60)]
pub fn borge_receive_damage(h: &mut Hunter, e: &mut Enemy, damage: u64, is_crit: bool,
    rng: &mut FastRng)
    ensures
        (*final(h), *final(e), final(rng).draws())
            == spec_borge_receive(*old(h), *old(e), damage, is_crit,
                old(rng).seed(), old(rng).draws()),
        final(rng).seed() == old(rng).seed(),
{
    if rng.roll(h.stats.evade_chance) {
        h.result.evades = add_cap(h.result.evades, 1);
        return;
    }
    let mut fd = damage;
    if h.stats.minotaur_dr > 0 {
        fd = mul_frac(fd, sub_floor(SCALE, h.stats.minotaur_dr));
    }
    if is_crit && h.stats.weakspot_analysis > 0 {
        proof {
            crate::fixed::lemma_mul_bound(h.stats.weakspot_analysis as int, 110_000,
                u32::MAX as int, 110_000);
        }
        fd = mul_frac(fd, sub_floor(SCALE, h.stats.weakspot_analysis as u64 * 110_000));
    }
    let mitigated = mul_frac(fd, sub_floor(SCALE, h.stats.damage_reduction));
    h.hp = sub_floor(h.hp, mitigated);
    h.result.damage_taken = add_cap(h.result.damage_taken, mitigated);
    h.result.enemy_attacks = add_cap(h.result.enemy_attacks, 1);
    h.result.mitigated_damage = add_cap(h.result.mitigated_damage, sub_floor(fd, mitigated));
    if h.stats.helltouch_barrier_level > 0 && mitigated > 0 {
        proof {
            crate::fixed::lemma_mul_bound(h.stats.helltouch_barrier_level as int, 80_000,
                u32::MAX as int, 80_000);
        }
        let reflected = mul_frac(
            mul_frac(mitigated, h.stats.helltouch_barrier_level as u64 * 80_000),
            if e.is_boss { 100_000 } else { SCALE });
        e.hp = sub_floor(e.hp, reflected);
        h.result.helltouch_barrier = add_cap(h.result.helltouch_barrier, reflected);
        if e.hp == 0 {
            h.result.helltouch_kills = add_cap(h.result.helltouch_kills, 1);
        }
    }
    if h.hp == 0 {
        h.try_revive();
    }
}

/// Defense resolution of the multistrike/echo archetype: a free evade
/// charge is consumed before the evade roll; on a hit, the separate scarab
/// layer then the main reduction apply; a crit may grant a new charge; and
/// death triggers a revive attempt.
pub open spec fn spec_ozzy_receive(h: Hunter, damage: u64, is_crit: bool,
    seed: u64, idx: u64) -> (Hunter, u64) {
    if h.trickster_charges > 0 {
        (Hunter {
            trickster_charges: (h.trickster_charges - 1) as u32,
            result: SimResult {
                trickster_evades: cap_add(h.result.trickster_evades, 1), ..h.result },
            ..h
        }, idx)
    } else if spec_roll(seed, idx, h.stats.evade_chance) {
        (Hunter {
            result: SimResult { evades: cap_add(h.result.evades, 1), ..h.result },
            ..h
        }, bump(idx))
    } else {
        let sr = cap_mul_frac(damage, sat_sub(SCALE, h.stats.scarab_dr));
        let mitigated = cap_mul_frac(sr, sat_sub(SCALE, h.stats.damage_reduction));
        let h1 = Hunter {
            hp: sat_sub(h.hp, mitigated),
            result: SimResult {
                damage_taken: cap_add(h.result.damage_taken, mitigated),
                enemy_attacks: cap_add(h.result.enemy_attacks, 1),
                mitigated_damage: cap_add(h.result.mitigated_damage, sat_sub(sr, mitigated)),
                ..h.result
            },
            ..h
        };
        let (h2, idx2) = if is_crit && h1.stats.dance_of_dashes > 0 {
            if spec_roll(seed, bump(idx), (h1.stats.dance_of_dashes * 50_000) as u64) {
                (Hunter {
                    trickster_charges: stack_add(h1.trickster_charges, 1),
                    result: SimResult {
                        effect_procs: cap_add(h1.result.effect_procs, 1), ..h1.result },
                    ..h1
                }, bump(bump(idx)))
            } else {
                (h1, bump(bump(idx)))
            }
        } else {
            (h1, bump(idx))
        };
        if h2.hp == 0 {
            (h2.spec_try_revive(), idx2)
        } else {
            (h2, idx2)
        }
    }
}

/// Apply incoming damage through the multistrike/echo archetype's defenses.
#[verifier::rlimit(60)]
pub fn ozzy_receive_damage(h: &mut Hunter, damage: u64, is_crit: bool, rng: &mut FastRng)
    ensures
        (*final(h), final(rng).draws())
            == spec_ozzy_receive(*old(h), damage, is_crit,
                old(rng).seed(), old(rng).draws()),
        final(rng).seed() == old(rng).seed(),
{
    if h.trickster_charges > 0 {
        h.trickster_charges = h.trickster_charges - 1;
        h.result.trickster_evades = add_cap(h.result.trickster_evades, 1);
        return;
    }
    if rng.roll(h.stats.evade_chance) {
        h.result.evades = add_cap(h.result.evades, 1);
        return;
    }
    let sr = mul_frac(damage, sub_floor(SCALE, h.stats.scarab_dr));
    let mitigated = mul_frac(sr, sub_floor(SCALE, h.stats.damage_reduction));
    h.hp = sub_floor(h.hp, mitigated);
    h.result.damage_taken = add_cap(h.result.damage_taken, mitigated);
    h.result.enemy_attacks = add_cap(h.result.enemy_attacks, 1);
    h.result.mitigated_damage = add_cap(h.result.mitigated_damage, sub_floor(sr, mitigated));
    if is_crit && h.stats.dance_of_dashes > 0 {
        proof {
            crate::fixed::lemma_mul_bound(h.stats.dance_of_dashes as int, 50_000,
                u32::MAX as int, 50_000);
        }
        if rng.roll(h.stats.dance_of_dashes as u64 * 50_000) {
            h.trickster_charges = stack_add_exec(h.trickster_charges, 1);
            h.result.effect_procs = add_cap(h.result.effect_procs, 1);
        }
    }
    if h.hp == 0 {
        h.try_revive();
    }
}

/// Defense resolution of the salvo archetype: a block roll halves the hit
/// before the main reduction applies (independently of it); then health
/// drops and death triggers a revive attempt.
pub open spec fn spec_knox_receive(h: Hunter, damage: u64, seed: u64, idx: u64)
    -> (Hunter, u64) {
    let blocked = spec_roll(seed, idx, h.stats.block_chance);
    let fd = if blocked { (damage - damage / 2) as u64 } else { damage };
    if fd > 0 {
        let mitigated = cap_mul_frac(fd, sat_sub(SCALE, h.stats.damage_reduction));
        let h1 = Hunter {
            hp: sat_sub(h.hp, mitigated),
            result: SimResult {
                damage_taken: cap_add(h.result.damage_taken, mitigated),
                enemy_attacks: cap_add(h.result.enemy_attacks, 1),
                mitigated_damage: cap_add(h.result.mitigated_damage, sat_sub(fd, mitigated)),
                ..h.result
            },
            ..h
        };
        if h1.hp == 0 {
            (h1.spec_try_revive(), bump(idx))
        } else {
            (h1, bump(idx))
        }
    } else {
        (h, bump(idx))
    }
}

/// Apply incoming damage through the salvo archetype's defenses.
pub fn knox_receive_damage(h: &mut Hunter, damage: u64, rng: &mut FastRng)
    ensures
        (*final(h), final(rng).draws())
            == spec_knox_receive(*old(h), damage, old(rng).seed(), old(rng).draws()),
        final(rng).seed() == old(rng).seed(),
{
    let mut fd = damage;
    if rng.roll(h.stats.block_chance) {
        let blocked = damage / 2;
        fd = damage - blocked;
    }
    if fd > 0 {
        let mitigated = mul_frac(fd, sub_floor(SCALE, h.stats.damage_reduction));
        h.hp = sub_floor(h.hp, mitigated);
        h.result.damage_taken = add_cap(h.result.damage_taken, mitigated);
        h.result.enemy_attacks = add_cap(h.result.enemy_attacks, 1);
        h.result.mitigated_damage = add_cap(h.result.mitigated_damage, sub_floor(fd, mitigated));
        if h.hp == 0 {
            h.try_revive();
        }
    }
}

/// Incoming damage routed to the archetype's defense resolution.
pub open spec fn spec_hunter_receive(h: Hunter, e: Enemy, damage: u64, is_crit: bool,
    seed: u64, idx: u64) -> (Hunter, Enemy, u64) {
    match h.stats.hunter_type {
        HunterType::Borge => spec_borge_receive(h, e, damage, is_crit, seed, idx),
        HunterType::Ozzy => {
            let (h1, idx1) = spec_ozzy_receive(h, damage, is_crit, seed, idx);
            (h1, e, idx1)
        }
        HunterType::Knox => {
            let (h1, idx1) = spec_knox_receive(h, damage, seed, idx);
            (h1, e, idx1)
        }
    }
}

/// Route incoming damage to the archetype's defense resolution.
pub fn hunter_receive_damage(h: &mut Hunter, e: &mut Enemy, damage: u64, is_crit: bool,
    rng: &mut FastRng)
    ensures
        (*final(h), *final(e), final(rng).draws())
            == spec_hunter_receive(*old(h), *old(e), damage, is_crit,
                old(rng).seed(), old(rng).draws()),
        final(rng).seed() == old(rng).seed(),
{
    match h.stats.hunter_type {
        HunterType::Borge => borge_receive_damage(h, e, damage, is_crit, rng),
        HunterType::Ozzy => ozzy_receive_damage(h, damage, is_crit, rng),
        HunterType::Knox => knox_receive_damage(h, damage, rng),
    }
}

/// One enemy attack: roll the hit (tripled and certain-crit past the rage
/// threshold), then resolve the player's defense.
pub open spec fn spec_enemy_attack(h: Hunter, e: Enemy, seed: u64, idx: u64)
    -> (Hunter, Enemy, u64) {
    let (damage, is_crit) = e.spec_attack_damage(seed, idx);
    spec_hunter_receive(h, e, damage, is_crit, seed, bump(idx))
}

/// Resolve one enemy attack against the player.
pub fn enemy_attack(h: &mut Hunter, e: &mut Enemy, rng: &mut FastRng)
    ensures
        (*final(h), *final(e), final(rng).draws())
            == spec_enemy_attack(*old(h), *old(e), old(rng).seed(), old(rng).draws()),
        final(rng).seed() == old(rng).seed(),
{
    let (damage, is_crit) = e.get_attack_damage(rng);
    hunter_receive_damage(h, e, damage, is_crit, rng);
}

/// One boss secondary action: the damaging kind attacks and gains a rage
/// stack; the hardening kind starts the hardening window; absent, nothing.
pub open spec fn spec_enemy_attack_special(h: Hunter, e: Enemy, seed: u64, idx: u64)
    -> (Hunter, Enemy, u64) {
    match e.secondary_type {
        SecondaryAttackType::Gothmorgor => {
            let (h1, e1, idx1) = spec_enemy_attack(h, e, seed, idx);
            (h1, e1.spec_add_enrage(), idx1)
        }
        SecondaryAttackType::Exoscarab => {
            (h, Enemy { harden_ticks_left: 5, damage_reduction: 950_000, ..e }, idx)
        }
        SecondaryAttackType::Absent => (h, e, idx),
    }
}

/// Resolve one boss secondary action.
pub fn enemy_attack_special(h: &mut Hunter, e: &mut Enemy, rng: &mut FastRng)
    ensures
        (*final(h), *final(e), final(rng).draws())
            == spec_enemy_attack_special(*old(h), *old(e), old(rng).seed(), old(rng).draws()),
        final(rng).seed() == old(rng).seed(),
{
    match e.secondary_type {
        SecondaryAttackType::Gothmorgor => {
            enemy_attack(h, e, rng);
            e.add_enrage();
        }
        SecondaryAttackType::Exoscarab => {
            e.start_harden();
        }
        SecondaryAttackType::Absent => {}
    }
}

/// The on-kill hook: a lucky-loot proc roll (never against bosses), then a
/// chance-gated heal of a fraction of maximum health which may also open
/// an empowered-regeneration window.
pub open spec fn spec_on_kill(h: Hunter, is_boss: bool, seed: u64, idx: u64)
    -> (Hunter, u64) {
    let eff = h.spec_effective_effect_chance(is_boss);
    let h0 = Hunter {
        result: SimResult { on_kill_calls: cap_add(h.result.on_kill_calls, 1), ..h.result },
        ..h
    };
    let (h1, idx1) = if !is_boss && h0.stats.call_me_lucky_loot > 0 {
        if spec_roll(seed, idx, eff) {
            (Hunter {
                result: SimResult {
                    lucky_loot_procs: cap_add(h0.result.lucky_loot_procs, 1), ..h0.result },
                ..h0
            }, bump(idx))
        } else {
            (h0, bump(idx))
        }
    } else {
        (h0, idx)
    };
    if h1.stats.unfair_advantage > 0 {
        if spec_roll(seed, idx1, eff) {
            let heal = cap_mul_frac(h1.stats.max_hp, (h1.stats.unfair_advantage * 20_000) as u64);
            let h2 = Hunter {
                hp: min64(cap_add(h1.hp, heal), h1.stats.max_hp),
                empowered_regen: if h1.stats.vectid_elixir > 0 {
                    stack_add(h1.empowered_regen, 5)
                } else {
                    h1.empowered_regen
                },
                result: SimResult {
                    unfair_advantage_healing:
                        cap_add(h1.result.unfair_advantage_healing, heal),
                    effect_procs: cap_add(h1.result.effect_procs, 1),
                    ..h1.result
                },
                ..h1
            };
            (h2, bump(idx1))
        } else {
            (h1, bump(idx1))
        }
    } else {
        (h1, idx1)
    }
}

/// Run the on-kill hook.
pub fn on_kill(h: &mut Hunter, is_boss: bool, rng: &mut FastRng)
    ensures
        (*final(h), final(rng).draws())
            == spec_on_kill(*old(h), is_boss, old(rng).seed(), old(rng).draws()),
        final(rng).seed() == old(rng).seed(),
{
    let eff = h.get_effective_effect_chance(is_boss);
    h.result.on_kill_calls = add_cap(h.result.on_kill_calls, 1);
    if !is_boss && h.stats.call_me_lucky_loot > 0 {
        if rng.roll(eff) {
            h.result.lucky_loot_procs = add_cap(h.result.lucky_loot_procs, 1);
        }
    }
    if h.stats.unfair_advantage > 0 {
        if rng.roll(eff) {
            proof {
                crate::fixed::lemma_mul_bound(h.stats.unfair_advantage as int, 20_000,
                    u32::MAX as int, 20_000);
            }
            let heal = mul_frac(h.stats.max_hp, h.stats.unfair_advantage as u64 * 20_000);
            let grown = add_cap(h.hp, heal);
            h.hp = if grown < h.stats.max_hp { grown } else { h.stats.max_hp };
            if h.stats.vectid_elixir > 0 {
                h.empowered_regen = stack_add_exec(h.empowered_regen, 5);
            }
            h.result.unfair_advantage_healing =
                add_cap(h.result.unfair_advantage_healing, heal);
            h.result.effect_procs = add_cap(h.result.effect_procs, 1);
        }
    }
}

/// The stage-clear hook: a chance-gated souls-stack gain (at two and a half
/// times the effect chance), bounded by a cap that the soul-amplification
/// attribute raises.
pub open spec fn spec_on_stage_complete(h: Hunter, is_boss: bool, seed: u64, idx: u64)
    -> (Hunter, u64) {
    let eff = h.spec_effective_effect_chance(is_boss);
    if h.stats.calypsos_advantage > 0 {
        if spec_roll(seed, idx, cap_mul_frac(eff, 2_500_000)) {
            let max_stacks = 100 + (h.stats.soul_amplification * 10) as u64;
            if (h.hundred_souls_stacks as u64) < max_stacks {
                (Hunter {
                    hundred_souls_stacks: stack_add(h.hundred_souls_stacks, 1),
                    result: SimResult {
                        effect_procs: cap_add(h.result.effect_procs, 1), ..h.result },
                    ..h
                }, bump(idx))
            } else {
                (h, bump(idx))
            }
        } else {
            (h, bump(idx))
        }
    } else {
        (h, idx)
    }
}

/// Run the stage-clear hook.
pub fn on_stage_complete(h: &mut Hunter, is_boss: bool, rng: &mut FastRng)
    ensures
        (*final(h), final(rng).draws())
            == spec_on_stage_complete(*old(h), is_boss, old(rng).seed(), old(rng).draws()),
        final(rng).seed() == old(rng).seed(),
{
    let eff = h.get_effective_effect_chance(is_boss);
    if h.stats.calypsos_advantage > 0 {
        if rng.roll(mul_frac(eff, 2_500_000)) {
            let max_stacks: u64 = 100 + h.stats.soul_amplification as u64 * 10;
            if (h.hundred_souls_stacks as u64) < max_stacks {
                h.hundred_souls_stacks = stack_add_exec(h.hundred_souls_stacks, 1);
                h.result.effect_procs = add_cap(h.result.effect_procs, 1);
            }
        }
    }
}

/// Enemy-spawn modifiers applied before a fight: starting-health reduction,
/// and three regeneration reductions, each halved against bosses where the
/// original rule says so. Reads the player, rewrites the enemy.
pub open spec fn spec_spawn_effects(h: Hunter, e: Enemy) -> Enemy {
    let se: u64 = if e.is_boss { 500_000 } else { SCALE };
    let e1 = if h.stats.presence_of_god > 0 {
        let pog = cap_mul_frac((h.stats.presence_of_god * 40_000) as u64, se);
        Enemy { hp: cap_mul_frac(e.max_hp, sat_sub(SCALE, pog)), ..e }
    } else {
        e
    };
    let e2 = if h.stats.omen_of_defeat > 0 {
        let ood = cap_mul_frac((h.stats.omen_of_defeat * 80_000) as u64, se);
        Enemy { regen: cap_mul_frac(e1.regen, sat_sub(SCALE, ood)), ..e1 }
    } else {
        e1
    };
    let e3 = if h.stats.soul_of_snek > 0 {
        Enemy {
            regen: cap_mul_frac(e2.regen,
                sat_sub(SCALE, (h.stats.soul_of_snek * 88_000) as u64)),
            ..e2
        }
    } else {
        e2
    };
    if h.stats.gift_of_medusa > 0 {
        let anti = cap_mul_frac(h.stats.regen, (h.stats.gift_of_medusa * 60_000) as u64);
        Enemy { regen: sat_sub(e3.regen, anti), ..e3 }
    } else {
        e3
    }
}

/// Apply the player's enemy-spawn modifiers to a freshly spawned enemy.
pub fn apply_spawn_effects(h: &Hunter, e: &mut Enemy)
    ensures
        *final(e) == spec_spawn_effects(*h, *old(e)),
{
    let se: u64 = if e.is_boss { 500_000 } else { SCALE };
    if h.stats.presence_of_god > 0 {
        proof {
            crate::fixed::lemma_mul_bound(h.stats.presence_of_god as int, 40_000,
                u32::MAX as int, 40_000);
        }
        let pog = mul_frac(h.stats.presence_of_god as u64 * 40_000, se);
        e.hp = mul_frac(e.max_hp, sub_floor(SCALE, pog));
    }
    if h.stats.omen_of_defeat > 0 {
        proof {
            crate::fixed::lemma_mul_bound(h.stats.omen_of_defeat as int, 80_000,
                u32::MAX as int, 80_000);
        }
        let ood = mul_frac(h.stats.omen_of_defeat as u64 * 80_000, se);
        e.regen = mul_frac(e.regen, sub_floor(SCALE, ood));
    }
    if h.stats.soul_of_snek > 0 {
        proof {
            crate::fixed::lemma_mul_bound(h.stats.soul_of_snek as int, 88_000,
                u32::MAX as int, 88_000);
        }
        e.regen = mul_frac(e.regen, sub_floor(SCALE, h.stats.soul_of_snek as u64 * 88_000));
    }
    if h.stats.gift_of_medusa > 0 {
        proof {
            crate::fixed::lemma_mul_bound(h.stats.gift_of_medusa as int, 60_000,
                u32::MAX as int, 60_000);
        }
        let anti = mul_frac(h.stats.regen, h.stats.gift_of_medusa as u64 * 60_000);
        e.regen = sub_floor(e.regen, anti);
    }
}

} // verus!
