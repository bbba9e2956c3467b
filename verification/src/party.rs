use vstd::prelude::*;

use crate::combat::GameState;
use crate::input::{Key, KeyInput};
use crate::stats::BattlerStats;

verus! {

/// The heroes' lasting state between battles; the first member is the one
/// who fights.
#[derive(Clone, Debug)]
pub struct PartyState {
    pub members: Vec<BattlerStats>,
}

/// Keeps what the battle did to the hero: the hero's stats as the battle
/// left them replace the first party member. With no hero on the field the
/// party stays as it was.
pub fn cleanup_battle(party: &mut PartyState, hero: Option<BattlerStats>)
    requires
        hero is Some ==> old(party).members.len() > 0,
    ensures
        final(party).members@ == (match hero {
            Some(h) => old(party).members@.update(0, h),
            None => old(party).members@,
        }),
{
    if let Some(h) = hero {
        party.members.set(0, h);
    }
}

/// A member brought back to full hp and MP.
pub open spec fn revived(m: BattlerStats) -> BattlerStats {
    BattlerStats { hp: m.max_hp, mp: m.max_mp, ..m }
}

/// After a game over, Space revives the whole party to full hp and MP and
/// sends the game back to the field.
pub fn game_over_input(input: &KeyInput, party: &mut PartyState) -> (next: Option<GameState>)
    ensures
        if input.is_just_pressed(Key::Space) {
            &&& next == Some(GameState::Field)
            &&& final(party).members@.len() == old(party).members@.len()
            &&& forall|i: int|
                0 <= i < old(party).members@.len() ==> #[trigger] final(party).members@[i]
                    == revived(old(party).members@[i])
        } else {
            next is None && final(party).members@ == old(party).members@
        },
{
    if !input.just_pressed(Key::Space) {
        return None;
    }
    let n = party.members.len();
    let mut i: usize = 0;
    while i < n
        invariant
            n == old(party).members@.len(),
            party.members@.len() == n,
            i <= n,
            forall|j: int| 0 <= j < i ==> #[trigger] party.members@[j] == revived(old(party).members@[j]),
            forall|j: int| i <= j < n ==> #[trigger] party.members@[j] == old(party).members@[j],
        decreases n - i,
    {
        let mut m = party.members[i];
        m.hp = m.max_hp;
        m.mp = m.max_mp;
        party.members.set(i, m);
        i += 1;
    }
    Some(GameState::Field)
}

} // verus!
