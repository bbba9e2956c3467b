use vstd::prelude::*;

use crate::combat::{at_least_one, is_blow, physical_blow, raise_to_one, spec_strike, strike, Hit};
use crate::input::{Key, KeyInput};
use crate::spells::{SpellDef, SpellLibrary};
use crate::stats::BattlerStats;
use crate::text::{
    decimal, entry_string, entry_text, not_enough_mp_string, not_enough_mp_text, push_decimal,
};

verus! {

/// Which menu the hero is choosing from: the commands, or the spells.
#[derive(Clone, Copy, PartialEq, Eq, Structural, Debug)]
pub enum MenuLayer {
    Command,
    Spell,
}

/// The battle menu: the open layer and where the cursor stands in each.
#[derive(Clone, Copy, PartialEq, Eq, Debug)]
pub struct BattleMenu {
    pub layer: MenuLayer,
    pub selected_index: usize,
    pub selected_spell_index: usize,
}

/// The ids of the spells the hero knows, in menu order.
#[derive(Clone, Debug)]
pub struct KnownSpells {
    pub spells: Vec<String>,
}

/// An entry of the spell menu: its place in the list.
#[derive(Clone, Copy, PartialEq, Eq, Debug)]
pub struct SpellOption {
    pub index: usize,
}

/// An entry of the command menu: its place in the list.
#[derive(Clone, Copy, PartialEq, Eq, Debug)]
pub struct MenuOption {
    pub index: usize,
}

/// How many commands the command menu holds: Attack, Magic, Item.
pub const COMMAND_COUNT: usize = 3;

/// Where a cursor over `count` entries stands after the frame's input: up
/// moves it one entry back, wrapping from the first entry to the last;
/// down then moves it one entry on, wrapping from the last to the first.
pub open spec fn cursor_step(index: int, count: int, up: bool, down: bool) -> int {
    let after_up = if up {
        (index + count - 1) % count
    } else {
        index
    };
    if down {
        (after_up + 1) % count
    } else {
        after_up
    }
}

/// The cursor arithmetic stays within `usize`: moving up adds `count` to
/// the index before it wraps, moving down adds 1.
pub open spec fn cursor_step_defined(index: int, count: int, up: bool, down: bool) -> bool {
    &&& up ==> index + count <= usize::MAX
    &&& (down && !up) ==> index + 1 <= usize::MAX
}

fn step_cursor(index: usize, count: usize, up: bool, down: bool) -> (r: usize)
    requires
        count > 0,
        cursor_step_defined(index as int, count as int, up, down),
    ensures
        r as int == cursor_step(index as int, count as int, up, down),
{
    let mut i = index;
    if up {
        i = (i + count - 1) % count;
    }
    if down {
        i = (i + 1) % count;
    }
    i
}

/// The command menu after the frame's input.
pub open spec fn spec_cursor_movement(input: &KeyInput, menu: BattleMenu) -> BattleMenu {
    if menu.layer == MenuLayer::Command {
        BattleMenu {
            selected_index: cursor_step(
                menu.selected_index as int,
                COMMAND_COUNT as int,
                input.is_just_pressed(Key::ArrowUp),
                input.is_just_pressed(Key::ArrowDown),
            ) as usize,
            ..menu
        }
    } else {
        menu
    }
}

/// Moves the cursor of the command menu with the arrow keys, while the
/// command menu is open.
pub fn cursor_movement(input: &KeyInput, menu: &mut BattleMenu)
    requires
        old(menu).layer == MenuLayer::Command ==> cursor_step_defined(
            old(menu).selected_index as int,
            COMMAND_COUNT as int,
            input.is_just_pressed(Key::ArrowUp),
            input.is_just_pressed(Key::ArrowDown),
        ),
    ensures
        *final(menu) == spec_cursor_movement(input, *old(menu)),
{
    if menu.layer != MenuLayer::Command {
        return;
    }
    let up = input.just_pressed(Key::ArrowUp);
    let down = input.just_pressed(Key::ArrowDown);
    menu.selected_index = step_cursor(menu.selected_index, COMMAND_COUNT, up, down);
}

/// The spell menu after the frame's input, over `count` known spells.
pub open spec fn spec_spell_cursor_movement(
    input: &KeyInput,
    menu: BattleMenu,
    count: nat,
) -> BattleMenu {
    if menu.layer == MenuLayer::Spell && count > 0 {
        BattleMenu {
            selected_spell_index: cursor_step(
                menu.selected_spell_index as int,
                count as int,
                input.is_just_pressed(Key::ArrowUp),
                input.is_just_pressed(Key::ArrowDown),
            ) as usize,
            ..menu
        }
    } else {
        menu
    }
}

/// Moves the cursor of the spell menu with the arrow keys, while the spell
/// menu is open and the hero knows a spell.
pub fn spell_cursor_movement(input: &KeyInput, menu: &mut BattleMenu, known: &KnownSpells)
    requires
        old(menu).layer == MenuLayer::Spell && known.spells@.len() > 0 ==> cursor_step_defined(
            old(menu).selected_spell_index as int,
            known.spells@.len() as int,
            input.is_just_pressed(Key::ArrowUp),
            input.is_just_pressed(Key::ArrowDown),
        ),
    ensures
        *final(menu) == spec_spell_cursor_movement(input, *old(menu), known.spells@.len()),
{
    if menu.layer != MenuLayer::Spell {
        return;
    }
    let count = known.spells.len();
    if count == 0 {
        return;
    }
    let up = input.just_pressed(Key::ArrowUp);
    let down = input.just_pressed(Key::ArrowDown);
    menu.selected_spell_index = step_cursor(menu.selected_spell_index, count, up, down);
}

/// Closes the spell menu on Escape, back to the commands.
pub fn spell_cancel(input: &KeyInput, menu: &mut BattleMenu)
    ensures
        *final(menu) == (if old(menu).layer == MenuLayer::Spell && input.is_just_pressed(
            Key::Escape,
        ) {
            BattleMenu { layer: MenuLayer::Command, ..*old(menu) }
        } else {
            *old(menu)
        }),
{
    if menu.layer != MenuLayer::Spell {
        return;
    }
    if input.just_pressed(Key::Escape) {
        menu.layer = MenuLayer::Command;
    }
}

/// The spell under the cursor of the spell menu, if the cursor stands on a
/// known spell that the library holds.
pub open spec fn spec_selected_spell(
    menu: BattleMenu,
    known: &KnownSpells,
    spell_lib: &SpellLibrary,
) -> Option<SpellDef> {
    let i = menu.selected_spell_index as int;
    if i < known.spells@.len() && spell_lib.magics@.contains_key(known.spells@[i]@) {
        Some(spell_lib.magics@[known.spells@[i]@])
    } else {
        None
    }
}

/// The damage of a spell: its power plus the caster's magic attack, less
/// the target's magic defense, and at least 1.
pub open spec fn spec_spell_damage(power: u32, magic_attack: u32, magic_defense: u32) -> u32 {
    let raw = power + magic_attack;
    at_least_one(
        if raw > magic_defense {
            (raw - magic_defense) as u32
        } else {
            0
        },
    )
}

/// What confirming in the spell menu came to.
#[derive(Clone, Debug)]
pub enum SpellOutcome {
    /// Nothing happened.
    Nothing,
    /// The spell costs more MP than the caster has: the menu stays open and
    /// the turn is not spent. The message to show.
    NotEnoughMp(String),
    /// The spell was cast: the caster after paying its MP, and what the
    /// spell did to the enemy. The caster's turn is spent.
    Cast { caster: BattlerStats, hit: Hit },
}

/// Confirming in the spell menu with Space casts the spell under the cursor
/// at the enemy, when no battle end is under way, the spell menu is open,
/// the cursor stands on a spell of the library and the hero is ready to
/// act. A spell that costs more MP than the hero has is refused, and
/// nothing changes; otherwise, with an enemy on the field, the hero pays
/// its MP, the enemy takes its damage, and the menu returns to the
/// commands.
pub fn spell_confirm(
    input: &KeyInput,
    menu: &mut BattleMenu,
    known: &KnownSpells,
    spell_lib: &SpellLibrary,
    battle_over: bool,
    ready_player: Option<BattlerStats>,
    enemy: Option<BattlerStats>,
) -> (outcome: SpellOutcome)
    requires
        ({
            let spell = spec_selected_spell(*old(menu), known, spell_lib);
            &&& !battle_over
            &&& old(menu).layer == MenuLayer::Spell
            &&& input.is_just_pressed(Key::Space)
            &&& spell is Some
            &&& ready_player is Some
            &&& ready_player->0.mp >= spell->0.mp_cost
            &&& enemy is Some
        }) ==> spec_selected_spell(*old(menu), known, spell_lib)->0.power
            + ready_player->0.magic_attack <= u32::MAX,
    ensures
        ({
            let spell = spec_selected_spell(*old(menu), known, spell_lib);
            if battle_over || old(menu).layer != MenuLayer::Spell || !input.is_just_pressed(
                Key::Space,
            ) || spell is None || ready_player is None {
                outcome is Nothing && *final(menu) == *old(menu)
            } else if ready_player->0.mp < spell->0.mp_cost {
                &&& outcome matches SpellOutcome::NotEnoughMp(message)
                &&& message@ == not_enough_mp_text(spell->0.name@)
                &&& *final(menu) == *old(menu)
            } else if enemy is None {
                outcome is Nothing && *final(menu) == *old(menu)
            } else {
                let p = ready_player->0;
                let e = enemy->0;
                let s = spell->0;
                &&& outcome matches SpellOutcome::Cast { caster, hit }
                &&& caster == BattlerStats { mp: (p.mp - s.mp_cost) as u32, ..p }
                &&& hit == spec_strike(e, spec_spell_damage(s.power, p.magic_attack, e.magic_defense))
                &&& *final(menu) == BattleMenu { layer: MenuLayer::Command, ..*old(menu) }
            }
        }),
{
    if battle_over {
        return SpellOutcome::Nothing;
    }
    if menu.layer != MenuLayer::Spell {
        return SpellOutcome::Nothing;
    }
    if !input.just_pressed(Key::Space) {
        return SpellOutcome::Nothing;
    }
    let index = menu.selected_spell_index;
    if index >= known.spells.len() {
        return SpellOutcome::Nothing;
    }
    let spell = match spell_lib.get_spell(known.spells[index].as_str()) {
        Some(s) => s,
        None => return SpellOutcome::Nothing,
    };
    let p = match ready_player {
        Some(p) => p,
        None => return SpellOutcome::Nothing,
    };
    if p.mp < spell.mp_cost {
        return SpellOutcome::NotEnoughMp(not_enough_mp_string(spell.name.as_str()));
    }
    let e = match enemy {
        Some(e) => e,
        None => return SpellOutcome::Nothing,
    };
    let mut caster = p;
    caster.mp = p.mp - spell.mp_cost;
    let raw = spell.power + p.magic_attack;
    let damage = raise_to_one(raw.saturating_sub(e.magic_defense));
    let hit = strike(e, damage);
    menu.layer = MenuLayer::Command;
    SpellOutcome::Cast { caster, hit }
}

/// What confirming in the command menu came to.
#[derive(Clone, Copy, PartialEq, Eq, Debug)]
pub enum CommandOutcome {
    /// Nothing happened.
    Nothing,
    /// The hero struck the enemy; the hero's turn is spent.
    Attack(Hit),
    /// The spell menu opened; the turn is not spent.
    OpenSpells,
    /// The hero reached for an item; the turn is not spent.
    UseItem,
}

/// Confirming in the command menu with Space, when no battle end is under
/// way, the command menu is open and the hero is ready to act: Attack
/// strikes the enemy, if there is one, with a physical blow; Magic opens
/// the spell menu at its first entry and uses up the Space press; Item
/// only announces itself.
pub fn confirm_selection<F: Fn(u32) -> u32>(
    input: &mut KeyInput,
    menu: &mut BattleMenu,
    battle_over: bool,
    ready_player: Option<BattlerStats>,
    enemy: Option<BattlerStats>,
    spread: &F,
) -> (outcome: CommandOutcome)
    requires
        forall|b: u32| spread.requires((b,)),
    ensures
        if battle_over || old(menu).layer != MenuLayer::Command || !old(input).is_just_pressed(
            Key::Space,
        ) || ready_player is None {
            outcome == CommandOutcome::Nothing && *final(menu) == *old(menu) && *final(input)
                == *old(input)
        } else if old(menu).selected_index == 0 {
            &&& match enemy {
                Some(e) => outcome matches CommandOutcome::Attack(h) && is_blow(
                    *spread,
                    ready_player->0,
                    e,
                    h,
                ),
                None => outcome == CommandOutcome::Nothing,
            }
            &&& *final(menu) == *old(menu)
            &&& *final(input) == *old(input)
        } else if old(menu).selected_index == 1 {
            &&& outcome == CommandOutcome::OpenSpells
            &&& *final(menu) == BattleMenu {
                layer: MenuLayer::Spell,
                selected_spell_index: 0,
                ..*old(menu)
            }
            &&& final(input).pressed@ == old(input).pressed@
            &&& !final(input).is_just_pressed(Key::Space)
            &&& forall|k: Key|
                k != Key::Space ==> (final(input).is_just_pressed(k) == old(
                    input,
                ).is_just_pressed(k))
        } else if old(menu).selected_index == 2 {
            outcome == CommandOutcome::UseItem && *final(menu) == *old(menu) && *final(input)
                == *old(input)
        } else {
            outcome == CommandOutcome::Nothing && *final(menu) == *old(menu) && *final(input)
                == *old(input)
        },
{
    if battle_over {
        return CommandOutcome::Nothing;
    }
    if menu.layer != MenuLayer::Command {
        return CommandOutcome::Nothing;
    }
    if !input.just_pressed(Key::Space) {
        return CommandOutcome::Nothing;
    }
    let p = match ready_player {
        Some(p) => p,
        None => return CommandOutcome::Nothing,
    };
    if menu.selected_index == 0 {
        match enemy {
            Some(e) => CommandOutcome::Attack(physical_blow(p, e, spread)),
            None => CommandOutcome::Nothing,
        }
    } else if menu.selected_index == 1 {
        menu.layer = MenuLayer::Spell;
        menu.selected_spell_index = 0;
        input.clear_just_pressed(Key::Space);
        CommandOutcome::OpenSpells
    } else if menu.selected_index == 2 {
        CommandOutcome::UseItem
    } else {
        CommandOutcome::Nothing
    }
}

/// Whether the cursor of the command menu stands on `option`.
pub fn update_menu_cursor(menu: &BattleMenu, option: &MenuOption) -> (visible: bool)
    ensures
        visible == (option.index == menu.selected_index),
{
    option.index == menu.selected_index
}

/// How a menu entry is drawn: its text, and whether it stands out as the
/// one under the cursor.
#[derive(Clone, Debug)]
pub struct OptionLook {
    pub highlighted: bool,
    pub text: String,
}

/// The label of a command: Attack, Magic, Item, or nothing past them.
pub open spec fn command_label(index: usize) -> Seq<char> {
    if index == 0 {
        "Attack"@
    } else if index == 1 {
        "Magic"@
    } else if index == 2 {
        "Item"@
    } else {
        ""@
    }
}

fn command_label_str(index: usize) -> (label: &'static str)
    ensures
        label@ == command_label(index),
{
    if index == 0 {
        "Attack"
    } else if index == 1 {
        "Magic"
    } else if index == 2 {
        "Item"
    } else {
        ""
    }
}

/// Draws an entry of the command menu. The command menu shows only while
/// the hero is ready to act (`None`: hide the entry and leave its text);
/// the entry under the cursor is marked and stands out.
pub fn draw_menu(menu: &BattleMenu, player_ready: bool, option: &MenuOption) -> (look: Option<
    OptionLook,
>)
    ensures
        match look {
            None => !player_ready,
            Some(l) => {
                &&& player_ready
                &&& l.highlighted == (option.index == menu.selected_index)
                &&& l.text@ == entry_text(command_label(option.index), l.highlighted)
            },
        },
{
    if !player_ready {
        return None;
    }
    let highlighted = option.index == menu.selected_index;
    let text = entry_string(command_label_str(option.index), highlighted);
    Some(OptionLook { highlighted, text })
}

/// The label of the spell menu's entry at `index`: the spell's name and its
/// MP cost, or nothing where no spell of the library stands there.
pub open spec fn spell_label(known: &KnownSpells, spell_lib: &SpellLibrary, index: usize) -> Seq<
    char,
> {
    let i = index as int;
    if i < known.spells@.len() && spell_lib.magics@.contains_key(known.spells@[i]@) {
        let s = spell_lib.magics@[known.spells@[i]@];
        s.name@ + " ("@ + decimal(s.mp_cost as nat) + " MP)"@
    } else {
        Seq::empty()
    }
}

/// Writes the label of the spell menu's entry at `index`.
pub fn spell_label_string(known: &KnownSpells, spell_lib: &SpellLibrary, index: usize) -> (s:
    String)
    ensures
        s@ == spell_label(known, spell_lib, index),
{
    if index >= known.spells.len() {
        return String::new();
    }
    match spell_lib.get_spell(known.spells[index].as_str()) {
        Some(spell) => {
            let mut s = spell.name.clone();
            s.append(" (");
            push_decimal(&mut s, spell.mp_cost);
            s.append(" MP)");
            s
        },
        None => String::new(),
    }
}

/// Draws an entry of the spell menu. The spell menu shows only while it is
/// open (`None`: hide the entry and leave its text); the entry under the
/// cursor is marked and stands out.
pub fn draw_spell_menu(
    menu: &BattleMenu,
    known: &KnownSpells,
    spell_lib: &SpellLibrary,
    option: &SpellOption,
) -> (look: Option<OptionLook>)
    ensures
        match look {
            None => menu.layer != MenuLayer::Spell,
            Some(l) => {
                &&& menu.layer == MenuLayer::Spell
                &&& l.highlighted == (option.index == menu.selected_spell_index)
                &&& l.text@ == entry_text(
                    spell_label(known, spell_lib, option.index),
                    l.highlighted,
                )
            },
        },
{
    if menu.layer != MenuLayer::Spell {
        return None;
    }
    let label = spell_label_string(known, spell_lib, option.index);
    let highlighted = option.index == menu.selected_spell_index;
    let text = entry_string(label.as_str(), highlighted);
    Some(OptionLook { highlighted, text })
}

} // verus!
