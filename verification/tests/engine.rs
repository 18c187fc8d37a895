use hunter_sim::event::{Event, EventKind, EventQueue};
use hunter_sim::enemy::Enemy;
use hunter_sim::fixed::{SCALE, div_frac, sub_floor, pow_frac_exec, add_cap, mul_frac, mul_int, isqrt};
use hunter_sim::hunter::{Hunter, HunterType, PlayerStats};
use hunter_sim::rng::FastRng;
use hunter_sim::combat::borge_attack;
use hunter_sim::sim::{run_simulation_with_seed, run_simulations_sequential_seeded, run_and_aggregate};
use hunter_sim::stats::AggregatedStats;

fn base_stats(ht: HunterType) -> PlayerStats {
    PlayerStats {
        hunter_type: ht,
        max_hp: 50 * SCALE,
        power: 3 * SCALE,
        regen: SCALE / 10,
        damage_reduction: 0,
        evade_chance: 0,
        effect_chance: 40_000,
        special_chance: 50_000,
        special_damage: 1_300_000,
        speed: 5 * SCALE,
        lifesteal: 0,
        block_chance: 0,
        charge_chance: 50_000,
        charge_gained: SCALE,
        salvo_projectiles: 3,
        life_of_the_hunt: 0,
        unfair_advantage: 0,
        call_me_lucky_loot: 0,
        omen_of_defeat: 0,
        presence_of_god: 0,
        fires_of_war: 0,
        impeccable_impacts: 0,
        tricksters_boon: 0,
        crippling_shots: 0,
        omen_of_decay: 0,
        echo_bullets: 0,
        thousand_needles: 0,
        calypsos_advantage: 0,
        ghost_bullets: 0,
        finishing_move: 0,
        dance_of_dashes: 0,
        vectid_elixir: 0,
        helltouch_barrier_level: 0,
        atlas_protocol: 0,
        born_for_battle: 0,
        lifedrain_inhalers: 0,
        weakspot_analysis: 0,
        soul_of_snek: 0,
        gift_of_medusa: 0,
        soul_amplification: 0,
        fortification_elixir: 0,
        minotaur_dr: 0,
        scarab_dr: 0,
        has_trample: false,
        attraction_catchup: 0,
        attraction_gem: 0,
        loot_mult: SCALE,
        xp_mult: SCALE,
        max_revives: 0,
        max_stage: 300,
    }
}

#[test]
fn same_seed_same_record() {
    let s = base_stats(HunterType::Borge);
    let a = run_simulation_with_seed(&s, 12345);
    let b = run_simulation_with_seed(&s, 12345);
    assert_eq!(a, b);
    let c = run_simulation_with_seed(&s, 54321);
    let d = run_simulation_with_seed(&s, 54321);
    assert_eq!(c, d);
}

#[test]
fn same_seed_same_batch() {
    let s = base_stats(HunterType::Ozzy);
    let a = run_simulations_sequential_seeded(&s, 3, 7);
    let b = run_simulations_sequential_seeded(&s, 3, 7);
    assert_eq!(a, b);
}

#[test]
fn pop_prefers_lower_priority_regardless_of_order() {
    let early = Event { time: 4000, priority: 1, kind: EventKind::HunterAction };
    let late = Event { time: 4000, priority: 2, kind: EventKind::EnemyAction };
    let mut q = EventQueue::empty();
    q.push(early);
    q.push(late);
    assert_eq!(q.pop(), Some(early));
    let mut q2 = EventQueue::empty();
    q2.push(late);
    q2.push(early);
    assert_eq!(q2.pop(), Some(early));
}

#[test]
fn pop_orders_by_time_first() {
    let a = Event { time: 9000, priority: 0, kind: EventKind::Stun };
    let b = Event { time: 1000, priority: 3, kind: EventKind::RegenTick };
    let mut q = EventQueue::empty();
    q.push(a);
    q.push(b);
    assert_eq!(q.pop(), Some(b));
    assert_eq!(q.pop(), Some(a));
    assert_eq!(q.pop(), None);
}

#[test]
fn stun_splice_delays_next_enemy_action_exactly() {
    let mut q = EventQueue::empty();
    q.push(Event { time: 5000, priority: 2, kind: EventKind::EnemyAction });
    q.push(Event { time: 9000, priority: 2, kind: EventKind::EnemyAction });
    q.push(Event { time: 100, priority: 1, kind: EventKind::HunterAction });
    q.push(Event { time: 200, priority: 3, kind: EventKind::RegenTick });
    q.splice_enemy_action(700);
    assert_eq!(q.pop(), Some(Event { time: 100, priority: 1, kind: EventKind::HunterAction }));
    assert_eq!(q.pop(), Some(Event { time: 200, priority: 3, kind: EventKind::RegenTick }));
    // The nearest enemy action moved from 5000 to exactly 5700; the other kept its time.
    assert_eq!(q.pop(), Some(Event { time: 5700, priority: 2, kind: EventKind::EnemyAction }));
    assert_eq!(q.pop(), Some(Event { time: 9000, priority: 2, kind: EventKind::EnemyAction }));
}

#[test]
fn stun_splice_without_target_is_noop() {
    let mut q = EventQueue::empty();
    q.push(Event { time: 100, priority: 1, kind: EventKind::HunterAction });
    q.splice_enemy_action(700);
    assert_eq!(q.pop(), Some(Event { time: 100, priority: 1, kind: EventKind::HunterAction }));
    assert_eq!(q.pop(), None);
}

#[test]
fn trample_kills_additional_enemies() {
    let mut st = base_stats(HunterType::Borge);
    st.has_trample = true;
    st.special_chance = 0; // no crit roll passes, damage is exactly base power
    st.power = 47 * SCALE;
    let mut h = Hunter::from_stats(&st);
    let mut e = Enemy::new(0, HunterType::Borge);
    e.max_hp = 10 * SCALE;
    e.hp = 10 * SCALE;
    let mut rng = FastRng::new(1);
    // damage / max_hp = 4, capped at 10: the target dies and 3 more fall.
    let (damage, extra) = borge_attack(&mut h, &mut e, st.power, false, &mut rng);
    assert_eq!(damage, 47 * SCALE);
    assert_eq!(extra, 3);
    assert_eq!(e.hp, 0);
    assert_eq!(h.result.trample_kills, 3);
}

#[test]
fn trample_caps_at_ten() {
    let mut st = base_stats(HunterType::Borge);
    st.has_trample = true;
    st.special_chance = 0;
    st.power = 5000 * SCALE;
    let mut h = Hunter::from_stats(&st);
    let mut e = Enemy::new(0, HunterType::Borge);
    e.max_hp = 10 * SCALE;
    e.hp = 10 * SCALE;
    let mut rng = FastRng::new(1);
    let (_damage, extra) = borge_attack(&mut h, &mut e, st.power, false, &mut rng);
    assert_eq!(extra, 9); // min(k, 10) - 1
}

#[test]
fn max_rage_always_crits_at_triple_power() {
    let mut e = Enemy::new_boss(200, HunterType::Borge);
    let base = e.base_power;
    for _ in 0..201 {
        e.add_enrage();
    }
    assert!(e.enrage_stacks > 200);
    assert!(e.max_enrage);
    let mut rng = FastRng::new(99);
    for _ in 0..20 {
        let (dmg, crit) = e.get_attack_damage(&mut rng);
        assert!(crit);
        assert_eq!(dmg, mul_frac(mul_int(base, 3), e.special_damage));
    }
    // The latch holds as stacks keep changing.
    e.add_enrage();
    let (dmg, crit) = e.get_attack_damage(&mut rng);
    assert!(crit);
    assert_eq!(dmg, mul_frac(mul_int(base, 3), e.special_damage));
}

#[test]
fn max_rage_latch_transitions_once() {
    let mut e = Enemy::new_boss(200, HunterType::Borge);
    for _ in 0..200 {
        e.add_enrage();
    }
    assert!(!e.max_enrage);
    e.add_enrage();
    assert!(e.max_enrage);
    let power_at_latch = e.power;
    e.add_enrage();
    assert!(e.max_enrage);
    assert_eq!(e.power, power_at_latch);
}

#[test]
fn hardening_pins_reduction_and_grants_rage() {
    let mut e = Enemy::new_boss(200, HunterType::Ozzy);
    let base_dr = e.damage_reduction;
    e.start_harden();
    assert_eq!(e.damage_reduction, 950_000);
    assert_eq!(e.harden_ticks_left, 5);
    e.hp = e.max_hp / 2;
    for _ in 0..5 {
        e.regen_hp();
    }
    assert_eq!(e.harden_ticks_left, 0);
    assert_eq!(e.damage_reduction, base_dr);
    assert_eq!(e.enrage_stacks, 5);
}

#[test]
fn aggregate_sanity() {
    let s = base_stats(HunterType::Knox);
    let agg = run_and_aggregate(&s, 5, false);
    assert!(agg.min_stage as u64 * SCALE <= agg.avg_stage);
    assert!(agg.avg_stage <= agg.max_stage as u64 * SCALE);
    assert!(agg.survival_rate <= SCALE);
    assert!(agg.boss1_survival <= SCALE);
    assert!(agg.boss5_survival <= SCALE);
}

#[test]
fn aggregate_of_empty_batch_is_zero() {
    let agg = AggregatedStats::from_results(&Vec::new());
    assert_eq!(agg.avg_stage, 0);
    assert_eq!(agg.min_stage, 0);
    assert_eq!(agg.max_stage, 0);
    assert_eq!(agg.survival_rate, 0);
}

#[test]
fn loot_closed_form_matches_incremental_sum() {
    for (m, stages) in [(1_051_000u64, 25u32), (1_059_000, 40), (1_074_000, 12)] {
        let closed = div_frac(sub_floor(pow_frac_exec(m, stages), SCALE), sub_floor(m, SCALE));
        let mut incremental: u64 = 0;
        for i in 0..stages {
            incremental = add_cap(incremental, pow_frac_exec(m, i));
        }
        let diff = if closed >= incremental { closed - incremental } else { incremental - closed };
        // Within one part in ten thousand of each other.
        assert!(diff <= incremental / 10_000 + 1, "m={m} closed={closed} inc={incremental}");
    }
}

#[test]
fn one_shot_enemy_ends_run_at_first_stage() {
    let mut st = base_stats(HunterType::Borge);
    st.max_hp = 2; // two micro-units of health: any hit is lethal
    st.power = 1;
    st.evade_chance = 0;
    st.max_revives = 0;
    let r = run_simulation_with_seed(&st, 42);
    assert_eq!(r.final_stage, 0);
    assert_eq!(r.revive_count, 0);
}

#[test]
fn three_revives_are_all_consumed() {
    let mut st = base_stats(HunterType::Borge);
    st.max_hp = 2;
    st.power = 1;
    st.evade_chance = 0;
    st.max_revives = 3;
    let r = run_simulation_with_seed(&st, 42);
    assert_eq!(r.revive_count, 3);
}

#[test]
fn revive_resets_health_to_eighty_percent() {
    let mut st = base_stats(HunterType::Ozzy);
    st.max_revives = 3;
    let mut h = Hunter::from_stats(&st);
    for used in 1..=3u32 {
        h.hp = 0;
        assert!(h.try_revive());
        assert_eq!(h.hp, mul_frac(st.max_hp, 800_000));
        assert_eq!(h.revive_count, used);
    }
    h.hp = 0;
    assert!(!h.try_revive());
    assert_eq!(h.hp, 0);
}

#[test]
fn isqrt_is_exact() {
    assert_eq!(isqrt(0), 0);
    assert_eq!(isqrt(1), 1);
    assert_eq!(isqrt(24), 4);
    assert_eq!(isqrt(25), 5);
    assert_eq!(isqrt(u64::MAX), 4_294_967_295);
}

#[test]
fn boss_stats_exceed_regular_stats() {
    for ht in [HunterType::Borge, HunterType::Ozzy, HunterType::Knox] {
        let e = Enemy::new(100, ht);
        let b = Enemy::new_boss(100, ht);
        assert!(b.max_hp > e.max_hp);
        assert!(b.power > e.power);
        assert!(b.is_boss && !e.is_boss);
    }
}

#[test]
fn secondary_attacks_start_at_stage_two_hundred() {
    let b100 = Enemy::new_boss(100, HunterType::Borge);
    assert!(!b100.has_secondary);
    let b200 = Enemy::new_boss(200, HunterType::Borge);
    assert!(b200.has_secondary);
    let k200 = Enemy::new_boss(200, HunterType::Knox);
    assert!(!k200.has_secondary);
}
