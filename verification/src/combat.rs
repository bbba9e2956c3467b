use vstd::prelude::*;

use crate::stats::BattlerStats;

verus! {

/// The damage of a physical blow before its random spread: the margin of
/// the attack over the defense, or 1 where there is no margin.
pub open spec fn spec_base_damage(attack: u32, defense: u32) -> u32 {
    if attack > defense {
        (attack - defense) as u32
    } else {
        1
    }
}

/// `x`, raised to 1 where it is 0: no blow or spell that lands deals less.
pub open spec fn at_least_one(x: u32) -> u32 {
    if x >= 1 {
        x
    } else {
        1
    }
}

/// What is left of `hp` after `damage`: it drops by the damage, to no less
/// than 0.
pub open spec fn hp_after(hp: u32, damage: u32) -> u32 {
    if hp > damage {
        (hp - damage) as u32
    } else {
        0
    }
}

/// What a blow or a spell did: the damage it dealt, and its target as it
/// stands afterwards.
#[derive(Clone, Copy, PartialEq, Eq, Debug)]
pub struct Hit {
    pub damage: u32,
    pub target: BattlerStats,
}

/// `target` struck for `damage`: only its hp changes.
pub open spec fn spec_strike(target: BattlerStats, damage: u32) -> Hit {
    Hit { damage, target: BattlerStats { hp: hp_after(target.hp, damage), ..target } }
}

/// A physical blow of `attacker` on `target`, where `spread` (the random
/// spread of the damage, drawn by the caller) turned the base damage into
/// `rolled`: the blow deals `rolled`, raised to at least 1.
pub open spec fn is_blow<F: Fn(u32) -> u32>(
    spread: F,
    attacker: BattlerStats,
    target: BattlerStats,
    hit: Hit,
) -> bool {
    exists|rolled: u32|
        #[trigger] spread.ensures((spec_base_damage(attacker.attack, target.defense),), rolled)
            && hit == spec_strike(target, at_least_one(rolled))
}

/// The damage of a physical blow before its random spread.
pub fn base_damage(attack: u32, defense: u32) -> (damage: u32)
    ensures
        damage == spec_base_damage(attack, defense),
        damage >= 1,
        attack > defense ==> damage + defense == attack,
        attack <= defense ==> damage == 1,
{
    if attack > defense {
        attack - defense
    } else {
        1
    }
}

/// Raises a damage figure to at least 1.
pub fn raise_to_one(x: u32) -> (r: u32)
    ensures
        r == at_least_one(x),
        r >= 1,
{
    if x >= 1 {
        x
    } else {
        1
    }
}

/// Strikes `target` for `damage`: its hp drops by the damage, to no less
/// than 0; nothing else of it changes.
pub fn strike(target: BattlerStats, damage: u32) -> (hit: Hit)
    ensures
        hit == spec_strike(target, damage),
        hit.target.hp <= target.hp,
        hit.damage == damage,
        target.hp > damage ==> hit.target.hp + damage == target.hp,
        target.hp <= damage ==> hit.target.hp == 0,
{
    let mut after = target;
    after.hp = target.hp.saturating_sub(damage);
    Hit { damage, target: after }
}

/// The damage of a physical blow: the base damage of the attack against the
/// defense, spread by `spread` (a random factor in the game, applied by the
/// caller), and raised to at least 1.
pub fn calculate_damage<F: Fn(u32) -> u32>(attack: u32, defense: u32, spread: &F) -> (damage:
    u32)
    requires
        forall|b: u32| spread.requires((b,)),
    ensures
        exists|rolled: u32|
            #[trigger] spread.ensures((spec_base_damage(attack, defense),), rolled) && damage
                == at_least_one(rolled),
        damage >= 1,
{
    let base = base_damage(attack, defense);
    let rolled = spread(base);
    raise_to_one(rolled)
}

/// One blow of `attacker` on `target`.
pub fn physical_blow<F: Fn(u32) -> u32>(
    attacker: BattlerStats,
    target: BattlerStats,
    spread: &F,
) -> (hit: Hit)
    requires
        forall|b: u32| spread.requires((b,)),
    ensures
        is_blow(*spread, attacker, target, hit),
        hit.damage >= 1,
        hit.target.hp <= target.hp,
{
    let damage = calculate_damage(attacker.attack, target.defense, spread);
    strike(target, damage)
}

/// The enemy's turn. When no battle end is under way and an enemy is ready
/// to act while a hero stands against it, the enemy strikes the hero with a
/// physical blow; otherwise nothing happens. The caller then lets the enemy
/// wait for its next turn.
pub fn enemy_turn<F: Fn(u32) -> u32>(
    battle_over: bool,
    ready_enemy: Option<BattlerStats>,
    player: Option<BattlerStats>,
    spread: &F,
) -> (hit: Option<Hit>)
    requires
        forall|b: u32| spread.requires((b,)),
    ensures
        match (battle_over, ready_enemy, player) {
            (false, Some(e), Some(p)) => hit matches Some(h) && is_blow(*spread, e, p, h),
            _ => hit is None,
        },
{
    if battle_over {
        return None;
    }
    match (ready_enemy, player) {
        (Some(e), Some(p)) => Some(physical_blow(e, p, spread)),
        _ => None,
    }
}

/// How a battle ended.
#[derive(Clone, Copy, PartialEq, Eq, Debug)]
pub enum BattleOutcome {
    Victory,
    GameOver,
}

/// The game's top-level modes.
#[derive(Clone, Copy, PartialEq, Eq, Debug)]
pub enum GameState {
    Field,
    Battle,
    Victory,
    GameOver,
}

/// The mode that the end of a battle leads to.
pub open spec fn spec_outcome_state(outcome: BattleOutcome) -> GameState {
    match outcome {
        BattleOutcome::Victory => GameState::Victory,
        BattleOutcome::GameOver => GameState::GameOver,
    }
}

/// The mode that the end of a battle leads to, once the screen is black.
pub fn outcome_state(outcome: BattleOutcome) -> (state: GameState)
    ensures
        state == spec_outcome_state(outcome),
{
    match outcome {
        BattleOutcome::Victory => GameState::Victory,
        BattleOutcome::GameOver => GameState::GameOver,
    }
}

/// The experience an enemy is worth.
#[derive(Clone, Copy, PartialEq, Eq, Debug)]
pub struct ExpReward(pub u32);

/// The experience won in the last victory, kept until the victory screen
/// hands it out.
#[derive(Clone, Copy, PartialEq, Eq, Debug)]
pub struct PendingReward {
    pub exp: u32,
}

impl Default for PendingReward {
    fn default() -> (r: Self)
        ensures
            r.exp == 0,
    {
        PendingReward { exp: 0 }
    }
}

/// How the battle ends, if it ends now: a defeated hero ends it in a game
/// over, which comes before a defeated enemy's victory; nothing ends while
/// an end is already under way.
pub open spec fn spec_battle_end(
    overlay_active: bool,
    player: Option<BattlerStats>,
    enemy: Option<(BattlerStats, ExpReward)>,
) -> Option<BattleOutcome> {
    if overlay_active {
        None
    } else if player matches Some(p) && p.hp == 0 {
        Some(BattleOutcome::GameOver)
    } else if enemy matches Some(e) && e.0.hp == 0 {
        Some(BattleOutcome::Victory)
    } else {
        None
    }
}

/// Decides whether the battle ends now. `player` is the hero, `enemy` the
/// enemy with its reward, each where exactly one stands on the field. On a
/// victory the enemy's reward is kept in `pending_reward`.
pub fn check_battle_end(
    overlay_active: bool,
    player: Option<BattlerStats>,
    enemy: Option<(BattlerStats, ExpReward)>,
    pending_reward: &mut PendingReward,
) -> (outcome: Option<BattleOutcome>)
    ensures
        outcome == spec_battle_end(overlay_active, player, enemy),
        final(pending_reward).exp == (match (outcome, enemy) {
            (Some(BattleOutcome::Victory), Some((_, reward))) => reward.0,
            _ => old(pending_reward).exp,
        }),
{
    if overlay_active {
        return None;
    }
    if let Some(p) = player {
        if p.hp == 0 {
            return Some(BattleOutcome::GameOver);
        }
    }
    if let Some((e, reward)) = enemy {
        if e.hp == 0 {
            pending_reward.exp = reward.0;
            return Some(BattleOutcome::Victory);
        }
    }
    None
}

} // verus!
