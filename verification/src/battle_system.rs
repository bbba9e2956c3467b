use vstd::hash_map::StringHashMap;
use vstd::prelude::*;

use crate::combat::ExpReward;
use crate::party::PartyState;
use crate::stats::BattlerStats;
use crate::text::{gauge_string, gauge_text};

verus! {

/// An enemy: its name, its picture, its stats and the experience it is
/// worth.
#[derive(Clone, Debug)]
pub struct EnemyDef {
    pub name: String,
    pub sprite: String,
    pub stats: BattlerStats,
    pub exp_reward: u32,
}

/// Every enemy of the game, by its id.
pub struct EnemyLibrary {
    pub enemies: StringHashMap<EnemyDef>,
}

impl EnemyLibrary {
    /// An empty library.
    pub fn new() -> (lib: Self)
        ensures
            lib.enemies@ == Map::<Seq<char>, EnemyDef>::empty(),
    {
        EnemyLibrary { enemies: StringHashMap::new() }
    }

    /// Files `enemy` under `id`, in place of any enemy filed there before.
    pub fn add_enemy(&mut self, id: String, enemy: EnemyDef)
        ensures
            final(self).enemies@ == old(self).enemies@.insert(id@, enemy),
    {
        self.enemies.insert(id, enemy);
    }
}

/// A hero: its name, its picture and its starting stats.
#[derive(Clone, Debug)]
pub struct PlayerDef {
    pub name: String,
    pub sprite: String,
    pub stats: BattlerStats,
}

/// Every hero of the game, by its id.
pub struct PlayerLibrary {
    pub players: StringHashMap<PlayerDef>,
}

impl PlayerLibrary {
    /// An empty library.
    pub fn new() -> (lib: Self)
        ensures
            lib.players@ == Map::<Seq<char>, PlayerDef>::empty(),
    {
        PlayerLibrary { players: StringHashMap::new() }
    }

    /// Files `player` under `id`, in place of any hero filed there before.
    pub fn add_player(&mut self, id: String, player: PlayerDef)
        ensures
            final(self).players@ == old(self).players@.insert(id@, player),
    {
        self.players.insert(id, player);
    }

    /// The hero filed under `id`, if any.
    pub fn get_player(&self, id: String) -> (player: Option<&PlayerDef>)
        ensures
            match player {
                Some(p) => self.players@.contains_key(id@) && *p == self.players@[id@],
                None => !self.players@.contains_key(id@),
            },
    {
        self.players.get(id.as_str())
    }
}

/// Who meets in a battle: the enemy with its reward and picture, and the
/// hero with its picture and its stats as the party kept them.
#[derive(Clone, Debug)]
pub struct BattleSetup {
    pub enemy_stats: BattlerStats,
    pub enemy_reward: ExpReward,
    pub enemy_sprite: String,
    pub player_stats: BattlerStats,
    pub player_sprite: String,
}

/// The id of the enemy that every battle is fought against.
pub open spec fn battle_enemy_id() -> Seq<char> {
    "mako_guard"@
}

/// The id of the hero who fights.
pub open spec fn battle_hero_id() -> Seq<char> {
    "Zane"@
}

/// Sets up a battle: the enemy "mako_guard" of the enemy library against
/// the hero "Zane" of the hero library, who fights with the stats of the
/// first party member.
pub fn setup_battle(
    enemy_lib: &EnemyLibrary,
    player_lib: &PlayerLibrary,
    party_state: &PartyState,
) -> (setup: BattleSetup)
    requires
        enemy_lib.enemies@.contains_key(battle_enemy_id()),
        player_lib.players@.contains_key(battle_hero_id()),
        party_state.members.len() > 0,
    ensures
        ({
            let enemy = enemy_lib.enemies@[battle_enemy_id()];
            let hero = player_lib.players@[battle_hero_id()];
            &&& setup.enemy_stats == enemy.stats
            &&& setup.enemy_reward == ExpReward(enemy.exp_reward)
            &&& setup.enemy_sprite@ == enemy.sprite@
            &&& setup.player_stats == party_state.members@[0]
            &&& setup.player_sprite@ == hero.sprite@
        }),
{
    let enemy = enemy_lib.enemies.get("mako_guard").unwrap();
    let hero = player_lib.get_player(String::from_str("Zane")).unwrap();
    BattleSetup {
        enemy_stats: enemy.stats,
        enemy_reward: ExpReward(enemy.exp_reward),
        enemy_sprite: enemy.sprite.clone(),
        player_stats: party_state.members[0],
        player_sprite: hero.sprite.clone(),
    }
}

/// The hero's hp gauge, as "HP hp/max_hp".
pub fn update_hp_text(stats: &BattlerStats) -> (text: String)
    ensures
        text@ == gauge_text("HP "@, stats.hp, stats.max_hp),
{
    gauge_string("HP ", stats.hp, stats.max_hp)
}

/// The hero's MP gauge, as "MP mp/max_mp".
pub fn update_mp_text(stats: &BattlerStats) -> (text: String)
    ensures
        text@ == gauge_text("MP "@, stats.mp, stats.max_mp),
{
    gauge_string("MP ", stats.mp, stats.max_mp)
}

} // verus!
