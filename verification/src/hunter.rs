//! The player's combat state: derived stats plus runtime counters.
//!
//! Stat derivation from a raw build file is an external collaborator; the
//! engine consumes the resulting attribute struct ([`PlayerStats`]) and only
//! needs a few mutator operations on the state built from it.

use vstd::prelude::*;
use crate::fixed::{SCALE, cap_add, add_cap, sat_sub, sub_floor, cap_mul_frac, mul_frac,
    cap_div_frac, div_frac, pow_frac, pow_frac_exec};
use crate::stats::SimResult;

verus! {

/// The three playable character classes.
#[derive(Clone, Copy, Debug, PartialEq, Eq, Structural)]
pub enum HunterType {
    Borge,
    Ozzy,
    Knox,
}

/// Metadata of a build: which class it is for, and its level.
#[derive(Clone, Copy, Debug, PartialEq, Eq, Structural)]
pub struct Meta {
    pub hunter: HunterType,
    pub level: i32,
}

/// The derived attribute struct handed to the engine by the external
/// stat-derivation collaborator. Amounts and fractions are micro-units.
#[derive(Clone, Copy, Debug, PartialEq, Eq, Structural)]
pub struct PlayerStats {
    pub hunter_type: HunterType,
    /// Maximum health, micro-units.
    pub max_hp: u64,
    /// Base attack power, micro-units.
    pub power: u64,
    /// Health regenerated per tick, micro-units.
    pub regen: u64,
    /// Main additive damage-reduction fraction, micro-units.
    pub damage_reduction: u64,
    /// Chance to evade an incoming attack, micro-units.
    pub evade_chance: u64,
    /// Chance for chance-gated effects, micro-units.
    pub effect_chance: u64,
    /// Chance of a critical hit (or multistrike), micro-units.
    pub special_chance: u64,
    /// Critical (or multistrike) damage multiplier, micro-units.
    pub special_damage: u64,
    /// Base attack interval, micro-seconds.
    pub speed: u64,
    /// Fraction of pre-mitigation damage healed back, micro-units.
    pub lifesteal: u64,
    /// Chance to block half of an incoming hit, micro-units.
    pub block_chance: u64,
    /// Chance for a projectile to charge, micro-units.
    pub charge_chance: u64,
    /// Extra damage fraction of a charged projectile, micro-units.
    pub charge_gained: u64,
    /// Projectiles per salvo.
    pub salvo_projectiles: u32,
    // Talent levels.
    pub life_of_the_hunt: u32,
    pub unfair_advantage: u32,
    pub call_me_lucky_loot: u32,
    pub omen_of_defeat: u32,
    pub presence_of_god: u32,
    pub fires_of_war: u32,
    pub impeccable_impacts: u32,
    pub tricksters_boon: u32,
    pub crippling_shots: u32,
    pub omen_of_decay: u32,
    pub echo_bullets: u32,
    pub thousand_needles: u32,
    pub calypsos_advantage: u32,
    pub ghost_bullets: u32,
    pub finishing_move: u32,
    // Attribute levels.
    pub dance_of_dashes: u32,
    pub vectid_elixir: u32,
    pub helltouch_barrier_level: u32,
    pub atlas_protocol: u32,
    pub born_for_battle: u32,
    pub lifedrain_inhalers: u32,
    pub weakspot_analysis: u32,
    pub soul_of_snek: u32,
    pub gift_of_medusa: u32,
    pub soul_amplification: u32,
    pub fortification_elixir: u32,
    /// Separate multiplicative damage-reduction layer, micro-units.
    pub minotaur_dr: u64,
    /// Separate multiplicative damage-reduction layer, micro-units.
    pub scarab_dr: u64,
    /// Whether the trample mechanic is enabled.
    pub has_trample: bool,
    /// Catch-up gem levels for the early-stage speed/power bonus.
    pub attraction_catchup: u32,
    pub attraction_gem: u32,
    /// Static loot multiplier, micro-units.
    pub loot_mult: u64,
    /// Static experience multiplier, micro-units.
    pub xp_mult: u64,
    /// Revives the build allows per run.
    pub max_revives: u32,
    /// The archetype's hard stage cap.
    pub max_stage: u32,
}

/// The player's full runtime state during one run.
#[derive(Clone, Copy, Debug, PartialEq, Eq, Structural)]
pub struct Hunter {
    pub stats: PlayerStats,
    /// Current health, micro-units; zero means dead.
    pub hp: u64,
    /// Remaining attack-interval reduction from the fires-of-war buff,
    /// micro-seconds; consumed the next time speed is read.
    pub fires_of_war_buff: u64,
    /// Stun duration rolled by the last attack, waiting to be spliced.
    pub pending_stun_duration: u64,
    /// Evade charges that grant a guaranteed free evade.
    pub trickster_charges: u32,
    /// Remaining empowered-regeneration ticks.
    pub empowered_regen: u32,
    /// Remaining empowered-regeneration ticks granted by blocking.
    pub empowered_block_regen: u32,
    /// Pending crippling-shot stacks, consumed by the next attack.
    pub decay_stacks: u32,
    /// Souls stacks gained from stage-clear procs.
    pub hundred_souls_stacks: u32,
    /// Whether the early-stage catch-up bonus still applies.
    pub catching_up: bool,
    /// The stage the run is currently on.
    pub current_stage: u32,
    /// Revives consumed so far.
    pub revive_count: u32,
    /// The run's accumulating result record.
    pub result: SimResult,
}

/// Whether a stage index spawns a boss: a fixed periodic checkpoint.
pub open spec fn spec_is_boss_stage(stage: u32) -> bool {
    stage % 100 == 0 && stage > 0
}

/// Whether a stage index spawns a boss.
pub fn is_boss_stage(stage: u32) -> (r: bool)
    ensures
        r == spec_is_boss_stage(stage),
{
    stage % 100 == 0 && stage > 0
}

/// A hunter is well-formed when health never exceeds its maximum.
pub open spec fn hunter_wf(h: Hunter) -> bool {
    h.hp <= h.stats.max_hp
}

impl Hunter {
    /// Fresh combat state for one run, built from derived stats: full
    /// health, no counters, stage zero, an empty result record.
    pub open spec fn spec_from_stats(s: PlayerStats) -> Hunter {
        Hunter {
            stats: s,
            hp: s.max_hp,
            fires_of_war_buff: 0,
            pending_stun_duration: 0,
            trickster_charges: 0,
            empowered_regen: 0,
            empowered_block_regen: 0,
            decay_stacks: 0,
            hundred_souls_stacks: 0,
            catching_up: true,
            current_stage: 0,
            revive_count: 0,
            result: SimResult::zero(),
        }
    }

    /// Build the combat state for a new run from derived stats.
    pub fn from_stats(s: &PlayerStats) -> (r: Hunter)
        ensures
            r == Hunter::spec_from_stats(*s),
            hunter_wf(r),
    {
        Hunter {
            stats: *s,
            hp: s.max_hp,
            fires_of_war_buff: 0,
            pending_stun_duration: 0,
            trickster_charges: 0,
            empowered_regen: 0,
            empowered_block_regen: 0,
            decay_stacks: 0,
            hundred_souls_stacks: 0,
            catching_up: true,
            current_stage: 0,
            revive_count: 0,
            result: SimResult::new(),
        }
    }

    /// Reset the state for a fresh run, keeping the derived stats.
    pub fn reset(&mut self)
        ensures
            *final(self) == Hunter::spec_from_stats(old(self).stats),
    {
        let s = self.stats;
        *self = Hunter::from_stats(&s);
    }

    /// The player is dead exactly when health has reached zero.
    pub fn is_dead(&self) -> (r: bool)
        ensures
            r == (self.hp == 0),
    {
        self.hp == 0
    }

    /// Effect chance, raised by the atlas-protocol attribute on boss stages.
    pub open spec fn spec_effective_effect_chance(self, is_boss: bool) -> u64 {
        if is_boss && self.stats.atlas_protocol > 0 {
            cap_add(self.stats.effect_chance, (self.stats.atlas_protocol * 14000) as u64)
        } else {
            self.stats.effect_chance
        }
    }

    /// Effect chance, raised by the atlas-protocol attribute on boss stages.
    pub fn get_effective_effect_chance(&self, is_boss: bool) -> (r: u64)
        ensures
            r == self.spec_effective_effect_chance(is_boss),
    {
        if is_boss && self.stats.atlas_protocol > 0 {
            add_cap(self.stats.effect_chance, self.stats.atlas_protocol as u64 * 14000)
        } else {
            self.stats.effect_chance
        }
    }

    /// Special chance, raised by the atlas-protocol attribute on boss stages.
    pub open spec fn spec_effective_special_chance(self, is_boss: bool) -> u64 {
        if is_boss && self.stats.atlas_protocol > 0 {
            cap_add(self.stats.special_chance, (self.stats.atlas_protocol * 25000) as u64)
        } else {
            self.stats.special_chance
        }
    }

    /// Special chance, raised by the atlas-protocol attribute on boss stages.
    pub fn get_effective_special_chance(&self, is_boss: bool) -> (r: u64)
        ensures
            r == self.spec_effective_special_chance(is_boss),
    {
        if is_boss && self.stats.atlas_protocol > 0 {
            add_cap(self.stats.special_chance, self.stats.atlas_protocol as u64 * 25000)
        } else {
            self.stats.special_chance
        }
    }

    /// The catch-up multiplier: `1.08` to the power
    /// `floor(catchup_level * (9 + gem_level) / 10)`, or one when the bonus
    /// does not apply.
    pub open spec fn spec_catchup_mult(self) -> u64 {
        if !self.catching_up || self.stats.attraction_catchup == 0 {
            SCALE
        } else {
            pow_frac(1_080_000, Hunter::spec_catchup_exponent(self.stats) as nat)
        }
    }

    /// The integer exponent of the catch-up multiplier, clamped.
    pub open spec fn spec_catchup_exponent(s: PlayerStats) -> u64 {
        if s.attraction_catchup * (9 + s.attraction_gem) / 10 > 100_000 {
            100_000
        } else {
            (s.attraction_catchup * (9 + s.attraction_gem) / 10) as u64
        }
    }

    /// Compute the catch-up power/speed multiplier.
    pub fn get_catchup_mult(&self) -> (r: u64)
        ensures
            r == self.spec_catchup_mult(),
    {
        if !self.catching_up || self.stats.attraction_catchup == 0 {
            SCALE
        } else {
            proof {
                crate::fixed::lemma_mul_bound(self.stats.attraction_catchup as int,
                    9 + self.stats.attraction_gem as int,
                    u32::MAX as int, 9 + u32::MAX as int);
            }
            let e: u128 = self.stats.attraction_catchup as u128
                * (9 + self.stats.attraction_gem as u128) / 10;
            let e_clamped: u128 = if e > 100_000 { 100_000 } else { e };
            pow_frac_exec(1_080_000, e_clamped as u32)
        }
    }

    /// Missing health as a micro-scaled percentage (zero to one hundred).
    pub open spec fn spec_missing_pct(self) -> u64 {
        if self.stats.max_hp == 0 {
            0
        } else if sat_sub(self.stats.max_hp, self.hp) * 100_000_000 / (self.stats.max_hp as int)
            > 100_000_000 {
            100_000_000
        } else {
            (sat_sub(self.stats.max_hp, self.hp) * 100_000_000 / (self.stats.max_hp as int)) as u64
        }
    }

    /// Effective power: base power raised by the born-for-battle bonus
    /// (per missing-health percent) and by the catch-up multiplier.
    pub open spec fn spec_power(self) -> u64 {
        cap_mul_frac(
            cap_mul_frac(
                self.stats.power,
                cap_add(SCALE, cap_mul_frac(self.spec_missing_pct(),
                    (self.stats.born_for_battle * 1000) as u64)),
            ),
            self.spec_catchup_mult(),
        )
    }

    /// Effective power, from missing health and the catch-up bonus.
    pub fn get_power(&self) -> (r: u64)
        ensures
            r == self.spec_power(),
    {
        let missing_pct: u64 = if self.stats.max_hp == 0 {
            0
        } else {
            let m: u128 = (sub_floor(self.stats.max_hp, self.hp) as u128) * 100_000_000
                / (self.stats.max_hp as u128);
            if m > 100_000_000 { 100_000_000 } else { m as u64 }
        };
        let bonus = mul_frac(missing_pct, self.stats.born_for_battle as u64 * 1000);
        let factor = add_cap(SCALE, bonus);
        mul_frac(mul_frac(self.stats.power, factor), self.get_catchup_mult())
    }

    /// The attack interval the scheduler will see next, before it is
    /// floored and before the fires-of-war buff is consumed.
    pub open spec fn spec_speed_value(self) -> u64 {
        let base = if spec_is_boss_stage(self.current_stage) && self.stats.atlas_protocol > 0 {
            cap_mul_frac(self.stats.speed,
                sat_sub(SCALE, (self.stats.atlas_protocol * 40000) as u64))
        } else {
            self.stats.speed
        };
        let after_catchup = if self.spec_catchup_mult() > SCALE {
            cap_div_frac(base, self.spec_catchup_mult())
        } else {
            base
        };
        let after_fow = sat_sub(after_catchup, self.fires_of_war_buff);
        if after_fow < 100_000 { 100_000 } else { after_fow }
    }

    /// Read the next attack interval and consume the fires-of-war buff.
    /// The result is floored at the minimum tick interval, so the scheduler
    /// always makes progress.
    pub fn get_speed(&mut self) -> (r: u64)
        ensures
            r == old(self).spec_speed_value(),
            *final(self) == (Hunter { fires_of_war_buff: 0, ..*old(self) }),
            r >= 100_000,
    {
        let is_boss = is_boss_stage(self.current_stage);
        let mut speed = if is_boss && self.stats.atlas_protocol > 0 {
            mul_frac(self.stats.speed,
                sub_floor(SCALE, self.stats.atlas_protocol as u64 * 40000))
        } else {
            self.stats.speed
        };
        let catchup = self.get_catchup_mult();
        if catchup > SCALE {
            speed = div_frac(speed, catchup);
        }
        speed = sub_floor(speed, self.fires_of_war_buff);
        self.fires_of_war_buff = 0;
        if speed < 100_000 { 100_000 } else { speed }
    }

    /// The attack interval against a given target kind, without the
    /// catch-up bonus; consumes the fires-of-war buff.
    pub open spec fn spec_effective_speed_value(self, is_boss: bool) -> u64 {
        let base = if is_boss && self.stats.atlas_protocol > 0 {
            cap_mul_frac(self.stats.speed,
                sat_sub(SCALE, (self.stats.atlas_protocol * 40000) as u64))
        } else {
            self.stats.speed
        };
        let after_fow = sat_sub(base, self.fires_of_war_buff);
        if after_fow < 100_000 { 100_000 } else { after_fow }
    }

    /// Read the attack interval for a target kind and consume the
    /// fires-of-war buff; floored at the minimum tick interval.
    pub fn get_effective_speed(&mut self, is_boss: bool) -> (r: u64)
        ensures
            r == old(self).spec_effective_speed_value(is_boss),
            *final(self) == (Hunter { fires_of_war_buff: 0, ..*old(self) }),
            r >= 100_000,
    {
        let mut speed = if is_boss && self.stats.atlas_protocol > 0 {
            mul_frac(self.stats.speed,
                sub_floor(SCALE, self.stats.atlas_protocol as u64 * 40000))
        } else {
            self.stats.speed
        };
        speed = sub_floor(speed, self.fires_of_war_buff);
        self.fires_of_war_buff = 0;
        if speed < 100_000 { 100_000 } else { speed }
    }

    /// One regeneration tick: base regeneration, tripled-strength windows
    /// while empowered, plus the lifedrain bonus on missing health; healing
    /// is capped at missing health. A tick at full health does nothing and
    /// consumes no empowered window.
    pub open spec fn spec_regen_tick(self) -> Hunter {
        if self.hp >= self.stats.max_hp {
            self
        } else {
            let (base, emp) = if self.empowered_regen > 0 {
                (cap_mul_frac(self.stats.regen,
                    cap_add(SCALE, (self.stats.soul_of_snek * 150000) as u64)),
                 (self.empowered_regen - 1) as u32)
            } else {
                (self.stats.regen, self.empowered_regen)
            };
            let (val, blk) = if self.empowered_block_regen > 0 {
                (cap_mul_frac(base,
                    cap_add(SCALE, (self.stats.fortification_elixir * 100000) as u64)),
                 (self.empowered_block_regen - 1) as u32)
            } else {
                (base, self.empowered_block_regen)
            };
            let missing = sat_sub(self.stats.max_hp, self.hp);
            let lifedrain = if self.stats.lifedrain_inhalers > 0 {
                cap_mul_frac(missing, (self.stats.lifedrain_inhalers * 800) as u64)
            } else {
                0
            };
            let total = cap_add(val, lifedrain);
            let healed = if total > missing { missing } else { total };
            Hunter {
                hp: (self.hp + healed) as u64,
                empowered_regen: emp,
                empowered_block_regen: blk,
                result: SimResult {
                    regenerated_hp: cap_add(self.result.regenerated_hp, healed),
                    ..self.result
                },
                ..self
            }
        }
    }

    /// Apply one regeneration tick.
    pub fn regen_hp(&mut self)
        ensures
            *final(self) == old(self).spec_regen_tick(),
    {
        if self.hp < self.stats.max_hp {
            let val0 = if self.empowered_regen > 0 {
                self.empowered_regen = self.empowered_regen - 1;
                mul_frac(self.stats.regen,
                    add_cap(SCALE, self.stats.soul_of_snek as u64 * 150000))
            } else {
                self.stats.regen
            };
            let val = if self.empowered_block_regen > 0 {
                self.empowered_block_regen = self.empowered_block_regen - 1;
                mul_frac(val0, add_cap(SCALE, self.stats.fortification_elixir as u64 * 100000))
            } else {
                val0
            };
            let missing = sub_floor(self.stats.max_hp, self.hp);
            let lifedrain = if self.stats.lifedrain_inhalers > 0 {
                mul_frac(missing, self.stats.lifedrain_inhalers as u64 * 800)
            } else {
                0
            };
            let total = add_cap(val, lifedrain);
            let healed = if total > missing { missing } else { total };
            self.hp = self.hp + healed;
            self.result.regenerated_hp = add_cap(self.result.regenerated_hp, healed);
        }
    }

    /// The state after a revive attempt: when the allowance is not
    /// exhausted, health resets to eighty percent of maximum and the revive
    /// counter goes up by one; otherwise nothing changes.
    pub open spec fn spec_try_revive(self) -> Hunter {
        if self.revive_count < self.stats.max_revives {
            Hunter {
                revive_count: (self.revive_count + 1) as u32,
                hp: cap_mul_frac(self.stats.max_hp, 800_000),
                ..self
            }
        } else {
            self
        }
    }

    /// Revive law: while the allowance lasts, each death resets health to
    /// exactly eighty percent of maximum and consumes exactly one revive;
    /// once the allowance is exhausted — in particular whenever the build
    /// allows none — the attempt changes nothing at all.
    pub proof fn lemma_revive_restores_eighty_percent(h: Hunter)
        ensures
            h.revive_count < h.stats.max_revives ==> h.spec_try_revive()
                == (Hunter {
                    revive_count: (h.revive_count + 1) as u32,
                    hp: cap_mul_frac(h.stats.max_hp, 800_000),
                    ..h
                }),
            h.revive_count >= h.stats.max_revives ==> h.spec_try_revive() == h,
            h.stats.max_revives == 0 ==> h.spec_try_revive() == h,
    {
    }

    /// Attempt a revive; succeeds exactly when the allowance is not
    /// exhausted, and then resets health to eighty percent of maximum.
    pub fn try_revive(&mut self) -> (r: bool)
        ensures
            *final(self) == old(self).spec_try_revive(),
            r == (old(self).revive_count < old(self).stats.max_revives),
            r ==> final(self).hp == cap_mul_frac(old(self).stats.max_hp, 800_000),
            r ==> final(self).revive_count == old(self).revive_count + 1,
    {
        if self.revive_count < self.stats.max_revives {
            self.revive_count = self.revive_count + 1;
            self.hp = mul_frac(self.stats.max_hp, 800_000);
            true
        } else {
            false
        }
    }
}

} // verus!
