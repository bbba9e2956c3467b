use vstd::prelude::*;

use crate::combat::{GameState, PendingReward};
use crate::input::{Key, KeyInput};
use crate::party::PartyState;
use crate::stats::BattlerStats;
use crate::text::{exp_gained_string, exp_gained_text, level_up_string, level_up_text};

verus! {

/// The experience it takes to leave `level` for the next one.
pub open spec fn level_threshold(level: int) -> int {
    level * 50
}

/// Where `exp` experience at `level` settles: while the experience reaches
/// the level's threshold, the threshold is paid and the level goes up by
/// one. The result is the experience left and the level reached.
pub open spec fn level_up(exp: int, level: int) -> (int, int)
    decreases (if level == 0 {
        exp + 1
    } else {
        exp
    }),
    when exp >= 0 && level >= 0
{
    if exp >= level_threshold(level) {
        level_up(exp - level_threshold(level), level + 1)
    } else {
        (exp, level)
    }
}

/// The experience it takes to climb from level `from` to level `to`: the
/// thresholds of every level passed on the way.
pub open spec fn exp_to_climb(from: int, to: int) -> int
    decreases to - from,
{
    if to <= from {
        0
    } else {
        level_threshold(from) + exp_to_climb(from + 1, to)
    }
}

/// Leveling settles, and pays for every level exactly: the level never
/// drops and ends at 1 or above, the experience left is below the
/// threshold of the level reached, and the experience spent is exactly what
/// it takes to climb there.
pub proof fn lemma_level_up_settles(exp: int, level: int)
    requires
        exp >= 0,
        level >= 0,
    ensures
        ({
            let (left, reached) = level_up(exp, level);
            &&& reached >= level
            &&& reached >= 1
            &&& 0 <= left < level_threshold(reached)
            &&& exp == left + exp_to_climb(level, reached)
        }),
    decreases (if level == 0 {
        exp + 1
    } else {
        exp
    }),
{
    if exp >= level_threshold(level) {
        lemma_level_up_settles(exp - level_threshold(level), level + 1);
        let (left, reached) = level_up(exp - level_threshold(level), level + 1);
        lemma_exp_to_climb_step(level, reached);
    }
}

proof fn lemma_exp_to_climb_step(from: int, to: int)
    requires
        from < to,
    ensures
        exp_to_climb(from, to) == level_threshold(from) + exp_to_climb(from + 1, to),
{
}

/// Where leveling is already under way, its end does not change.
proof fn lemma_level_up_step(exp: int, level: int)
    requires
        exp >= 0,
        level >= 0,
        exp >= level_threshold(level),
    ensures
        level_up(exp, level) == level_up(exp - level_threshold(level), level + 1),
        level_up(exp, level).1 >= level + 1,
{
    lemma_level_up_settles(exp - level_threshold(level), level + 1);
}

/// A member's stats after winning `reward` experience: every level gained
/// adds 20 to max hp, 3 to attack, 2 to defense and 5 to max MP; a member
/// who gained a level is healed to full hp and MP.
pub open spec fn spec_grant_exp(m: BattlerStats, reward: u32) -> BattlerStats {
    let (left, reached) = level_up(m.exp + reward, m.level as int);
    let gained = reached - m.level;
    let max_hp = m.max_hp + 20 * gained;
    let max_mp = m.max_mp + 5 * gained;
    BattlerStats {
        exp: left as u32,
        level: reached as u32,
        max_hp: max_hp as u32,
        hp: if gained > 0 {
            max_hp as u32
        } else {
            m.hp
        },
        attack: (m.attack + 3 * gained) as u32,
        defense: (m.defense + 2 * gained) as u32,
        max_mp: max_mp as u32,
        mp: if gained > 0 {
            max_mp as u32
        } else {
            m.mp
        },
        ..m
    }
}

/// The levels a member gains from `reward` experience.
pub open spec fn spec_levels_gained(m: BattlerStats, reward: u32) -> int {
    level_up(m.exp + reward, m.level as int).1 - m.level
}

/// Granting `reward` experience to `m` stays within `u32`: the experience
/// won, the threshold of the level reached, and the stats grown.
pub open spec fn grant_exp_fits(m: BattlerStats, reward: u32) -> bool {
    let (left, reached) = level_up(m.exp + reward, m.level as int);
    let gained = reached - m.level;
    &&& m.exp + reward <= u32::MAX
    &&& level_threshold(reached) <= u32::MAX
    &&& m.max_hp + 20 * gained <= u32::MAX
    &&& m.attack + 3 * gained <= u32::MAX
    &&& m.defense + 2 * gained <= u32::MAX
    &&& m.max_mp + 5 * gained <= u32::MAX
}

/// Grants `reward` experience to a member and levels it up as far as the
/// experience goes. Returns the member and the levels gained.
pub fn grant_exp(m: BattlerStats, reward: u32) -> (r: (BattlerStats, u32))
    requires
        grant_exp_fits(m, reward),
    ensures
        r.0 == spec_grant_exp(m, reward),
        r.1 == spec_levels_gained(m, reward),
{
    let ghost start = m;
    let ghost total = m.exp + reward;
    let ghost reached = level_up(total, m.level as int).1;
    proof {
        lemma_level_up_settles(total, m.level as int);
    }
    let mut member = m;
    member.exp = m.exp + reward;
    let mut gained: u32 = 0;
    while member.exp >= member.level * 50
        invariant
            level_up(member.exp as int, member.level as int) == level_up(total, start.level as int),
            reached == level_up(total, start.level as int).1,
            start.level <= member.level <= reached,
            level_threshold(reached) <= u32::MAX,
            member.level == start.level + gained,
            start.max_hp + 20 * (reached - start.level) <= u32::MAX,
            start.attack + 3 * (reached - start.level) <= u32::MAX,
            start.defense + 2 * (reached - start.level) <= u32::MAX,
            start.max_mp + 5 * (reached - start.level) <= u32::MAX,
            member.max_hp == start.max_hp + 20 * gained,
            member.attack == start.attack + 3 * gained,
            member.defense == start.defense + 2 * gained,
            member.max_mp == start.max_mp + 5 * gained,
            gained > 0 ==> member.hp == member.max_hp && member.mp == member.max_mp,
            gained == 0 ==> member.hp == start.hp && member.mp == start.mp,
            member == (BattlerStats {
                exp: member.exp,
                level: member.level,
                max_hp: member.max_hp,
                hp: member.hp,
                attack: member.attack,
                defense: member.defense,
                max_mp: member.max_mp,
                mp: member.mp,
                ..start
            }),
        decreases (if member.level == 0 {
            member.exp + 1
        } else {
            member.exp as int
        }),
    {
        proof {
            lemma_level_up_step(member.exp as int, member.level as int);
        }
        member.exp = member.exp - member.level * 50;
        member.level = member.level + 1;
        member.max_hp = member.max_hp + 20;
        member.hp = member.max_hp;
        member.attack = member.attack + 3;
        member.defense = member.defense + 2;
        member.max_mp = member.max_mp + 5;
        member.mp = member.max_mp;
        gained = gained + 1;
    }
    (member, gained)
}

/// Whether granting `reward` experience to `m` stays within `u32`, so that
/// `grant_exp` and `setup_victory` may be called.
pub fn grant_exp_fits_check(m: BattlerStats, reward: u32) -> (ok: bool)
    ensures
        ok == grant_exp_fits(m, reward),
{
    let total: u64 = m.exp as u64 + reward as u64;
    if total > u32::MAX as u64 {
        return false;
    }
    let ghost start = level_up(total as int, m.level as int);
    proof {
        lemma_level_up_settles(total as int, m.level as int);
    }
    let mut exp: u64 = total;
    let mut level: u64 = m.level as u64;
    loop
        invariant
            total == m.exp + reward,
            exp <= u32::MAX,
            m.level <= level,
            level <= u32::MAX as u64 + 1,
            level_up(exp as int, level as int) == start,
            start == level_up(total as int, m.level as int),
            start.1 >= m.level,
        ensures
            exp < level * 50,
            level * 50 <= u32::MAX,
            level_up(exp as int, level as int) == start,
            m.level <= level,
        decreases (if level == 0 {
            exp + 1
        } else {
            exp as int
        }),
    {
        proof {
            lemma_level_up_settles(exp as int, level as int);
        }
        if level * 50 > u32::MAX as u64 {
            proof {
                assert(start.1 >= level);
                assert(level_threshold(start.1) > u32::MAX);
            }
            return false;
        }
        if exp < level * 50 {
            break;
        }
        proof {
            lemma_level_up_step(exp as int, level as int);
        }
        exp = exp - level * 50;
        level = level + 1;
    }
    let gained: u64 = level - m.level as u64;
    proof {
        assert(level_up(exp as int, level as int) == (exp as int, level as int));
        assert(start.1 == level);
    }
    m.max_hp as u64 + 20 * gained <= u32::MAX as u64 && m.attack as u64 + 3 * gained
        <= u32::MAX as u64 && m.defense as u64 + 2 * gained <= u32::MAX as u64 && m.max_mp as u64
        + 5 * gained <= u32::MAX as u64
}

/// The lines of the victory screen below its title: the experience won,
/// and, where a level was gained, the level reached.
#[derive(Clone, Debug)]
pub struct VictoryText {
    pub exp_line: String,
    pub level_line: Option<String>,
}

/// The first party member wins the experience kept from the battle, and
/// levels up as far as it goes; the victory screen names the experience
/// won and, where a level was gained, the level reached.
pub fn setup_victory(party: &mut PartyState, pending_reward: &PendingReward) -> (text:
    VictoryText)
    requires
        old(party).members.len() > 0 ==> grant_exp_fits(
            old(party).members@[0],
            pending_reward.exp,
        ),
    ensures
        text.exp_line@ == exp_gained_text(pending_reward.exp),
        if old(party).members.len() > 0 {
            let m = old(party).members@[0];
            let after = spec_grant_exp(m, pending_reward.exp);
            &&& final(party).members@ == old(party).members@.update(0, after)
            &&& match text.level_line {
                Some(line) => spec_levels_gained(m, pending_reward.exp) > 0 && line@
                    == level_up_text(after.level),
                None => spec_levels_gained(m, pending_reward.exp) == 0,
            }
        } else {
            final(party).members@ == old(party).members@ && text.level_line is None
        },
{
    let reward = pending_reward.exp;
    let mut level_line: Option<String> = None;
    if party.members.len() > 0 {
        let (after, gained) = grant_exp(party.members[0], reward);
        party.members.set(0, after);
        if gained > 0 {
            level_line = Some(level_up_string(after.level));
        }
    }
    VictoryText { exp_line: exp_gained_string(reward), level_line }
}

/// On the victory screen, Space sends the game back to the field.
pub fn victory_input(input: &KeyInput) -> (next: Option<GameState>)
    ensures
        next == (if input.is_just_pressed(Key::Space) {
            Some(GameState::Field)
        } else {
            None
        }),
{
    if input.just_pressed(Key::Space) {
        Some(GameState::Field)
    } else {
        None
    }
}

} // verus!
