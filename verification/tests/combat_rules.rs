use battle_core::combat::{
    base_damage, calculate_damage, check_battle_end, enemy_turn, outcome_state, physical_blow,
    raise_to_one, strike, BattleOutcome, ExpReward, GameState, PendingReward,
};
use battle_core::stats::BattlerStats;

fn hero() -> BattlerStats {
    BattlerStats {
        hp: 100,
        max_hp: 100,
        mp: 50,
        max_mp: 50,
        attack: 10,
        defense: 5,
        magic_attack: 5,
        magic_defense: 3,
        speed: 5,
        level: 1,
        exp: 0,
    }
}

fn mako_guard() -> BattlerStats {
    BattlerStats {
        hp: 30,
        max_hp: 30,
        mp: 0,
        max_mp: 0,
        attack: 5,
        defense: 2,
        magic_attack: 0,
        magic_defense: 0,
        speed: 3,
        level: 1,
        exp: 0,
    }
}

#[test]
fn base_damage_is_the_margin_of_attack_over_defense() {
    assert_eq!(base_damage(10, 2), 8);
    assert_eq!(base_damage(5, 10), 1);
    assert_eq!(base_damage(5, 5), 1);
    assert_eq!(base_damage(u32::MAX, 0), u32::MAX);
}

#[test]
fn raise_to_one_floors_at_one() {
    assert_eq!(raise_to_one(0), 1);
    assert_eq!(raise_to_one(1), 1);
    assert_eq!(raise_to_one(17), 17);
}

#[test]
fn calculate_damage_spreads_the_base_and_keeps_it_at_least_one() {
    assert_eq!(calculate_damage(10, 2, &|b: u32| b), 8);
    assert_eq!(calculate_damage(10, 2, &|b: u32| b + 1), 9);
    assert_eq!(calculate_damage(10, 2, &|_b: u32| 0), 1);
    assert_eq!(calculate_damage(1, 9, &|b: u32| b * 3), 3);
}

#[test]
fn strike_lowers_hp_and_stops_at_zero() {
    let h = strike(mako_guard(), 8);
    assert_eq!(h.damage, 8);
    assert_eq!(h.target.hp, 22);
    assert_eq!(h.target.max_hp, 30);
    let h = strike(mako_guard(), 31);
    assert_eq!(h.target.hp, 0);
    let h = strike(mako_guard(), 30);
    assert_eq!(h.target.hp, 0);
}

#[test]
fn physical_blow_uses_attack_against_defense() {
    let h = physical_blow(hero(), mako_guard(), &|b: u32| b);
    assert_eq!(h.damage, 8);
    assert_eq!(h.target.hp, 22);
}

#[test]
fn enemy_turn_strikes_the_hero_only_when_both_stand() {
    let h = enemy_turn(false, Some(mako_guard()), Some(hero()), &|b: u32| b).unwrap();
    assert_eq!(h.damage, 1);
    assert_eq!(h.target.hp, 99);
    assert!(enemy_turn(true, Some(mako_guard()), Some(hero()), &|b: u32| b).is_none());
    assert!(enemy_turn(false, None, Some(hero()), &|b: u32| b).is_none());
    assert!(enemy_turn(false, Some(mako_guard()), None, &|b: u32| b).is_none());
}

#[test]
fn enemy_turn_spread_that_rounds_to_zero_still_hurts() {
    let h = enemy_turn(false, Some(mako_guard()), Some(hero()), &|_b: u32| 0).unwrap();
    assert_eq!(h.damage, 1);
    assert_eq!(h.target.hp, 99);
}

#[test]
fn battle_ends_in_game_over_before_victory() {
    let mut pending = PendingReward::default();
    let mut p = hero();
    p.hp = 0;
    let mut e = mako_guard();
    e.hp = 0;
    let outcome = check_battle_end(false, Some(p), Some((e, ExpReward(25))), &mut pending);
    assert_eq!(outcome, Some(BattleOutcome::GameOver));
    assert_eq!(pending.exp, 0);
}

#[test]
fn battle_ends_in_victory_and_keeps_the_reward() {
    let mut pending = PendingReward { exp: 3 };
    let mut e = mako_guard();
    e.hp = 0;
    let outcome = check_battle_end(false, Some(hero()), Some((e, ExpReward(25))), &mut pending);
    assert_eq!(outcome, Some(BattleOutcome::Victory));
    assert_eq!(pending.exp, 25);
}

#[test]
fn battle_goes_on_while_both_stand_or_an_end_is_under_way() {
    let mut pending = PendingReward { exp: 3 };
    let outcome =
        check_battle_end(false, Some(hero()), Some((mako_guard(), ExpReward(25))), &mut pending);
    assert_eq!(outcome, None);
    let mut e = mako_guard();
    e.hp = 0;
    let outcome = check_battle_end(true, Some(hero()), Some((e, ExpReward(25))), &mut pending);
    assert_eq!(outcome, None);
    assert_eq!(pending.exp, 3);
    let outcome = check_battle_end(false, None, None, &mut pending);
    assert_eq!(outcome, None);
}

#[test]
fn victory_without_a_hero_on_the_field() {
    let mut pending = PendingReward::default();
    let mut e = mako_guard();
    e.hp = 0;
    let outcome = check_battle_end(false, None, Some((e, ExpReward(7))), &mut pending);
    assert_eq!(outcome, Some(BattleOutcome::Victory));
    assert_eq!(pending.exp, 7);
}

#[test]
fn outcomes_lead_to_their_screens() {
    assert_eq!(outcome_state(BattleOutcome::Victory), GameState::Victory);
    assert_eq!(outcome_state(BattleOutcome::GameOver), GameState::GameOver);
}
