//! What holds of the game's rules across calls and for every input.
use vstd::arithmetic::div_mod::{lemma_mod_add_multiples_vanish, lemma_mod_self_0, lemma_small_mod};
use vstd::prelude::*;

use crate::combat::{
    at_least_one, hp_after, is_blow, spec_base_damage, spec_outcome_state, GameState, spec_battle_end, spec_strike, BattleOutcome, ExpReward, Hit,
};
use crate::menu::{command_label, cursor_step, spec_spell_damage};
use crate::spells::SpellDef;
use crate::party::revived;
use crate::rewards::{
    exp_to_climb, grant_exp_fits, lemma_level_up_settles, level_threshold, spec_grant_exp,
    spec_levels_gained,
};
use crate::input::{spec_is_movement_key, Key};
use crate::stats::BattlerStats;
use crate::text::{decimal, digit_char, entry_text};
use vstd::arithmetic::div_mod::lemma_fundamental_div_mod;

verus! {

/// Up moves the cursor one entry back, from the first entry to the last.
pub proof fn law_cursor_up_steps_back(index: int, count: int)
    requires
        0 <= index < count,
    ensures
        cursor_step(index, count, true, false) == if index == 0 {
            count - 1
        } else {
            index - 1
        },
{
    if index == 0 {
        lemma_small_mod((count - 1) as nat, count as nat);
    } else {
        lemma_mod_add_multiples_vanish(index - 1, count);
        lemma_small_mod((index - 1) as nat, count as nat);
    }
}

/// Down moves the cursor one entry on, from the last entry to the first.
pub proof fn law_cursor_down_steps_on(index: int, count: int)
    requires
        0 <= index < count,
    ensures
        cursor_step(index, count, false, true) == if index == count - 1 {
            0
        } else {
            index + 1
        },
{
    if index == count - 1 {
        lemma_mod_self_0(count);
    } else {
        lemma_small_mod((index + 1) as nat, count as nat);
    }
}

/// A menu cursor that stands on an entry stays on an entry, whatever keys
/// are pressed.
pub proof fn law_cursor_stays_in_menu(index: int, count: int, up: bool, down: bool)
    requires
        0 <= index < count,
    ensures
        0 <= cursor_step(index, count, up, down) < count,
{
    law_cursor_up_steps_back(index, count);
    let after_up = cursor_step(index, count, up, false);
    law_cursor_down_steps_on(after_up, count);
}

/// Up and down undo each other: one press of each, in either order or in
/// the same frame, brings the cursor back where it was.
pub proof fn law_cursor_up_undoes_down(index: int, count: int)
    requires
        0 <= index < count,
    ensures
        cursor_step(cursor_step(index, count, false, true), count, true, false) == index,
        cursor_step(cursor_step(index, count, true, false), count, false, true) == index,
        cursor_step(index, count, true, true) == index,
{
    law_cursor_down_steps_on(index, count);
    law_cursor_up_steps_back(cursor_step(index, count, false, true), count);
    law_cursor_up_steps_back(index, count);
    law_cursor_down_steps_on(cursor_step(index, count, true, false), count);
}

/// Every physical blow deals at least 1 damage, however the random spread
/// falls, and takes from its target exactly that much hp, down to no less
/// than 0; nothing else of the target changes.
pub proof fn law_blows_deal_damage<F: Fn(u32) -> u32>(
    spread: F,
    attacker: BattlerStats,
    target: BattlerStats,
    hit: Hit,
)
    requires
        is_blow(spread, attacker, target, hit),
    ensures
        hit.damage >= 1,
        hit.target == (BattlerStats { hp: hp_after(target.hp, hit.damage), ..target }),
        hit.target.hp < target.hp || target.hp == 0,
{
}

/// Every spell that lands deals at least 1 damage, however high the
/// target's magic defense.
pub proof fn law_spells_deal_damage(power: u32, magic_attack: u32, magic_defense: u32)
    requires
        power + magic_attack <= u32::MAX,
    ensures
        spec_spell_damage(power, magic_attack, magic_defense) >= 1,
        magic_defense < power + magic_attack ==> spec_spell_damage(
            power,
            magic_attack,
            magic_defense,
        ) + magic_defense == power + magic_attack,
        magic_defense >= power + magic_attack ==> spec_spell_damage(
            power,
            magic_attack,
            magic_defense,
        ) == 1,
{
}

/// A hit that does not fell its target takes exactly its damage from the
/// target's hp, and one that does leaves exactly 0; nothing else of the
/// target changes; and two hits in a row take as much as one hit of their
/// sum.
pub proof fn law_strike_takes_exactly_the_damage(target: BattlerStats, damage: u32, second: u32)
    ensures
        target.hp > damage ==> spec_strike(target, damage).target.hp + damage == target.hp,
        target.hp <= damage ==> spec_strike(target, damage).target.hp == 0,
        spec_strike(target, damage).damage == damage,
        spec_strike(target, damage).target == (BattlerStats {
            hp: spec_strike(target, damage).target.hp,
            ..target
        }),
        damage + second <= u32::MAX ==> spec_strike(
            spec_strike(target, damage).target,
            second,
        ).target.hp == spec_strike(target, (damage + second) as u32).target.hp,
{
}

/// Raising damage to at least 1 keeps any damage that is already at least
/// 1, and turns no damage into exactly 1.
pub proof fn law_floor_keeps_real_damage(x: u32)
    ensures
        x >= 1 ==> at_least_one(x) == x,
        x == 0 ==> at_least_one(x) == 1,
{
}

/// A victory leads to the victory screen, a game over to the game-over
/// screen, and neither back to the field or into a battle.
pub proof fn law_outcomes_lead_to_their_screens(outcome: BattleOutcome)
    ensures
        (spec_outcome_state(outcome) == GameState::Victory) == (outcome == BattleOutcome::Victory),
        (spec_outcome_state(outcome) == GameState::GameOver) == (outcome
            == BattleOutcome::GameOver),
{
}

/// The command menu reads Attack, Magic, Item, in that order, and nothing
/// past them; the entry under the cursor is its label behind "> ", and the
/// others are their bare labels.
pub proof fn law_command_labels(index: usize, label: Seq<char>, selected: bool)
    ensures
        command_label(0) == "Attack"@,
        command_label(1) == "Magic"@,
        command_label(2) == "Item"@,
        index >= 3 ==> command_label(index) == ""@,
        selected ==> entry_text(label, selected) == "> "@ + label,
        !selected ==> entry_text(label, selected) == label,
{
}

/// The hero walks with the four arrow keys and with W, A, S and D, and with
/// no other key.
pub proof fn law_walking_keys(key: Key)
    ensures
        spec_is_movement_key(key) == (key == Key::ArrowLeft || key == Key::ArrowRight || key
            == Key::ArrowUp || key == Key::ArrowDown || key == Key::KeyA || key == Key::KeyD
            || key == Key::KeyW || key == Key::KeyS),
{
}

/// The base damage of a physical blow is the margin of attack over defense:
/// adding the defense back gives the attack; with no margin it is 1. More
/// attack, or less defense, never lowers it.
pub proof fn law_base_damage_is_the_margin(attack: u32, defense: u32, more_attack: u32, less_defense: u32)
    ensures
        attack > defense ==> spec_base_damage(attack, defense) + defense == attack,
        attack <= defense ==> spec_base_damage(attack, defense) == 1,
        attack <= more_attack ==> spec_base_damage(attack, defense) <= spec_base_damage(
            more_attack,
            defense,
        ),
        less_defense <= defense ==> spec_base_damage(attack, defense) <= spec_base_damage(
            attack,
            less_defense,
        ),
{
}

/// The battle ends only on a fall: while no end is under way and neither
/// the hero nor the enemy is at 0 hp, it goes on; a game over means the
/// hero is at 0 hp; a victory means the enemy is at 0 hp while the hero is
/// not; and a fallen enemy facing a standing hero is always a victory.
pub proof fn law_battle_ends_only_on_a_fall(
    overlay_active: bool,
    player: Option<BattlerStats>,
    enemy: Option<(BattlerStats, ExpReward)>,
)
    ensures
        (player is None || player->0.hp > 0) && (enemy is None || (enemy->0).0.hp > 0)
            ==> spec_battle_end(overlay_active, player, enemy) is None,
        spec_battle_end(overlay_active, player, enemy) == Some(BattleOutcome::GameOver) ==> (
        !overlay_active && player is Some && player->0.hp == 0),
        spec_battle_end(overlay_active, player, enemy) == Some(BattleOutcome::Victory) ==> (
        !overlay_active && enemy is Some && (enemy->0).0.hp == 0 && (player is None || player->0.hp
            > 0)),
        !overlay_active && enemy is Some && (enemy->0).0.hp == 0 && (player is None || player->0.hp
            > 0) ==> spec_battle_end(overlay_active, player, enemy) == Some(
            BattleOutcome::Victory,
        ),
{
}

/// The value of a string of decimal digits, read from the left.
pub open spec fn digits_value(s: Seq<char>) -> int
    decreases s.len(),
{
    if s.len() == 0 {
        0
    } else {
        digits_value(s.drop_last()) * 10 + (s.last() as int - '0' as int)
    }
}

/// Each digit is written as its ASCII character.
pub proof fn law_digit_is_ascii(d: nat)
    requires
        d < 10,
    ensures
        digit_char(d) as int == '0' as int + d,
{
}

/// A number is written in decimal as digits only, reading back to the
/// number itself, with no leading zero.
pub proof fn law_decimal_reads_back(n: nat)
    ensures
        decimal(n).len() >= 1,
        forall|i: int|
            0 <= i < decimal(n).len() ==> '0' as int <= #[trigger] decimal(n)[i] as int <= '9' as int,
        digits_value(decimal(n)) == n,
        n >= 1 ==> decimal(n)[0] != '0',
    decreases n,
{
    if n < 10 {
        law_digit_is_ascii(n);
        let d = seq![digit_char(n)];
        assert(d.drop_last() =~= Seq::<char>::empty());
        assert(digits_value(Seq::<char>::empty()) == 0);
        assert(digits_value(d) == digits_value(d.drop_last()) * 10 + (d.last() as int - '0' as int));
    } else {
        law_decimal_reads_back(n / 10);
        law_digit_is_ascii(n % 10);
        let prefix = decimal(n / 10);
        assert(decimal(n) == prefix.push(digit_char(n % 10)));
        assert(prefix.push(digit_char(n % 10)).drop_last() =~= prefix);
        lemma_fundamental_div_mod(n as int, 10);
        let d = decimal(n);
        assert(d.last() == digit_char(n % 10));
        assert(digits_value(d) == digits_value(d.drop_last()) * 10 + (d.last() as int - '0' as int));
        assert(digits_value(d) == (n / 10) * 10 + n % 10);
        assert forall|i: int|
            0 <= i < decimal(n).len() implies '0' as int <= #[trigger] decimal(n)[i] as int <= '9' as int by {
            if i < prefix.len() {
                assert(decimal(n)[i] == prefix[i]);
            }
        }
        assert(decimal(n)[0] == prefix[0]);
    }
}

/// A cast spell never raises anything it should lower: the caster pays
/// exactly the spell's MP cost and keeps its hp, max hp and max MP; the
/// target loses at least 1 hp unless it is already at 0, and never gains
/// any.
pub proof fn law_casting_spends_and_hurts(caster: BattlerStats, target: BattlerStats, spell: SpellDef)
    requires
        caster.mp >= spell.mp_cost,
        spell.power + caster.magic_attack <= u32::MAX,
    ensures
        ({
            let paid = BattlerStats { mp: (caster.mp - spell.mp_cost) as u32, ..caster };
            let hit = spec_strike(
                target,
                spec_spell_damage(spell.power, caster.magic_attack, target.magic_defense),
            );
            &&& paid.mp <= caster.mp
            &&& paid.mp + spell.mp_cost == caster.mp
            &&& paid.hp == caster.hp && paid.max_hp == caster.max_hp && paid.max_mp == caster.max_mp
            &&& hit.damage >= 1
            &&& hit.target.hp <= target.hp
            &&& (hit.target.hp < target.hp || target.hp == 0)
        }),
{
}

/// A blow at least as strong as the target's hp leaves it at 0 hp, and a
/// weaker one leaves it standing.
pub proof fn law_defeat_is_exact(target: BattlerStats, damage: u32)
    ensures
        (spec_strike(target, damage).target.hp == 0) == (damage >= target.hp),
{
}

/// When hero and enemy fall together, the battle is lost: a game over
/// comes before a victory. While an end is already under way, none
/// begins.
pub proof fn law_defeat_before_victory(
    player: BattlerStats,
    enemy: BattlerStats,
    reward: ExpReward,
)
    ensures
        player.hp == 0 ==> spec_battle_end(false, Some(player), Some((enemy, reward))) == Some(
            BattleOutcome::GameOver,
        ),
        player.hp > 0 && enemy.hp == 0 ==> spec_battle_end(
            false,
            Some(player),
            Some((enemy, reward)),
        ) == Some(BattleOutcome::Victory),
        spec_battle_end(true, Some(player), Some((enemy, reward))) is None,
{
}

/// Leveling after a victory settles and pays exactly: the member ends at
/// level 1 or above with less experience than that level's threshold, the
/// experience spent is exactly the thresholds of the levels passed, and
/// each level gained adds the same to every stat that grows; a member who
/// gained a level is at full hp and MP.
pub proof fn law_victory_levels(m: BattlerStats, reward: u32)
    requires
        grant_exp_fits(m, reward),
    ensures
        ({
            let after = spec_grant_exp(m, reward);
            let gained = spec_levels_gained(m, reward);
            &&& gained >= 0
            &&& after.level == m.level + gained
            &&& after.level >= 1
            &&& after.exp < level_threshold(after.level as int)
            &&& m.exp + reward == after.exp + exp_to_climb(m.level as int, after.level as int)
            &&& after.max_hp == m.max_hp + 20 * gained
            &&& after.attack == m.attack + 3 * gained
            &&& after.defense == m.defense + 2 * gained
            &&& after.max_mp == m.max_mp + 5 * gained
            &&& gained > 0 ==> after.hp == after.max_hp && after.mp == after.max_mp
            &&& gained == 0 ==> after.hp == m.hp && after.mp == m.mp
            &&& after.magic_attack == m.magic_attack && after.magic_defense == m.magic_defense
            &&& after.speed == m.speed
        }),
{
    lemma_level_up_settles(m.exp + reward, m.level as int);
}

/// A revived member is at full hp and MP, and nothing else of it changes.
pub proof fn law_revive_restores(m: BattlerStats)
    ensures
        revived(m).hp == m.max_hp,
        revived(m).mp == m.max_mp,
        revived(m).max_hp == m.max_hp,
        revived(m).max_mp == m.max_mp,
        revived(m).attack == m.attack,
        revived(m).defense == m.defense,
        revived(m).magic_attack == m.magic_attack,
        revived(m).magic_defense == m.magic_defense,
        revived(m).speed == m.speed,
        revived(m).level == m.level,
        revived(m).exp == m.exp,
{
}

/// Climbing from level `from` to level `to` costs 50 times the sum of the
/// levels passed: 25 (to - from) (to + from - 1).
pub proof fn law_climbing_cost(from: int, to: int)
    requires
        0 <= from <= to,
    ensures
        2 * exp_to_climb(from, to) == 50 * (to - from) * (to + from - 1),
    decreases to - from,
{
    if from < to {
        law_climbing_cost(from + 1, to);
        assert(exp_to_climb(from, to) == level_threshold(from) + exp_to_climb(from + 1, to));
        assert(2 * (50 * from) + 50 * (to - (from + 1)) * (to + (from + 1) - 1) == 50 * (to - from) * (
        to + from - 1)) by (nonlinear_arith);
    } else {
        assert(50 * (to - from) * (to + from - 1) == 0) by (nonlinear_arith)
            requires
                to == from,
        ;
    }
}

/// What a battle does to the hero carries over: once the battle's end has
/// saved the hero into the party, the next battle fields the hero with
/// exactly those stats, and the other members are untouched.
pub proof fn law_battle_result_carries_over(members: Seq<BattlerStats>, hero: BattlerStats)
    requires
        members.len() > 0,
    ensures
        members.update(0, hero)[0] == hero,
        members.update(0, hero).len() == members.len(),
        forall|i: int| 1 <= i < members.len() ==> #[trigger] members.update(0, hero)[i] == members[i],
{
}

/// A library gives back what was last filed under an id, and filing under
/// one id leaves every other id as it was.
pub proof fn law_library_read_after_write<V>(
    library: Map<Seq<char>, V>,
    id: Seq<char>,
    entry: V,
    other: Seq<char>,
)
    ensures
        library.insert(id, entry).contains_key(id),
        library.insert(id, entry)[id] == entry,
        other != id ==> (library.insert(id, entry).contains_key(other) == library.contains_key(
            other,
        )),
        other != id && library.contains_key(other) ==> library.insert(id, entry)[other]
            == library[other],
{
}

} // verus!
