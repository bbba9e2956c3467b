use battle_core::input::{Key, KeyInput};
use battle_core::menu::{
    confirm_selection, cursor_movement, draw_menu, draw_spell_menu, spell_cancel, spell_confirm,
    spell_cursor_movement, spell_label_string, update_menu_cursor, BattleMenu, CommandOutcome,
    KnownSpells, MenuLayer, MenuOption, SpellOption, SpellOutcome,
};
use battle_core::spells::{SpellDef, SpellLibrary, SpellType};
use battle_core::stats::BattlerStats;

fn hero() -> BattlerStats {
    BattlerStats {
        hp: 100,
        max_hp: 100,
        mp: 50,
        max_mp: 50,
        attack: 10,
        defense: 5,
        magic_attack: 5,
        magic_defense: 3,
        speed: 5,
        level: 1,
        exp: 0,
    }
}

fn guard() -> BattlerStats {
    BattlerStats {
        hp: 30,
        max_hp: 30,
        mp: 0,
        max_mp: 0,
        attack: 5,
        defense: 2,
        magic_attack: 0,
        magic_defense: 4,
        speed: 3,
        level: 1,
        exp: 0,
    }
}

fn keys(just: Vec<Key>) -> KeyInput {
    KeyInput { pressed: just.clone(), just_pressed: just }
}

fn command_menu(index: usize) -> BattleMenu {
    BattleMenu { layer: MenuLayer::Command, selected_index: index, selected_spell_index: 0 }
}

fn spell_menu(index: usize) -> BattleMenu {
    BattleMenu { layer: MenuLayer::Spell, selected_index: 1, selected_spell_index: index }
}

fn library() -> (KnownSpells, SpellLibrary) {
    let mut lib = SpellLibrary::new();
    lib.add_spell(
        "fire".to_string(),
        SpellDef { name: "Fire".to_string(), mp_cost: 4, power: 12, magic_type: SpellType::Fire },
    );
    lib.add_spell(
        "ice".to_string(),
        SpellDef { name: "Ice".to_string(), mp_cost: 60, power: 20, magic_type: SpellType::Ice },
    );
    let known = KnownSpells {
        spells: vec!["fire".to_string(), "ice".to_string(), "quake".to_string()],
    };
    (known, lib)
}

#[test]
fn command_cursor_wraps_both_ways() {
    let mut m = command_menu(0);
    cursor_movement(&keys(vec![Key::ArrowUp]), &mut m);
    assert_eq!(m.selected_index, 2);
    cursor_movement(&keys(vec![Key::ArrowDown]), &mut m);
    assert_eq!(m.selected_index, 0);
    cursor_movement(&keys(vec![Key::ArrowDown]), &mut m);
    assert_eq!(m.selected_index, 1);
    cursor_movement(&keys(vec![Key::ArrowUp, Key::ArrowDown]), &mut m);
    assert_eq!(m.selected_index, 1);
    cursor_movement(&keys(vec![]), &mut m);
    assert_eq!(m.selected_index, 1);
}

#[test]
fn command_cursor_is_still_while_the_spell_menu_is_open() {
    let mut m = spell_menu(0);
    cursor_movement(&keys(vec![Key::ArrowDown]), &mut m);
    assert_eq!(m, spell_menu(0));
}

#[test]
fn spell_cursor_wraps_over_known_spells() {
    let (known, _) = library();
    let mut m = spell_menu(0);
    spell_cursor_movement(&keys(vec![Key::ArrowUp]), &mut m, &known);
    assert_eq!(m.selected_spell_index, 2);
    spell_cursor_movement(&keys(vec![Key::ArrowDown]), &mut m, &known);
    assert_eq!(m.selected_spell_index, 0);
    let none = KnownSpells { spells: vec![] };
    spell_cursor_movement(&keys(vec![Key::ArrowDown]), &mut m, &none);
    assert_eq!(m.selected_spell_index, 0);
    let mut c = command_menu(0);
    spell_cursor_movement(&keys(vec![Key::ArrowDown]), &mut c, &known);
    assert_eq!(c, command_menu(0));
}

#[test]
fn escape_closes_the_spell_menu() {
    let mut m = spell_menu(2);
    spell_cancel(&keys(vec![Key::Space]), &mut m);
    assert_eq!(m.layer, MenuLayer::Spell);
    spell_cancel(&keys(vec![Key::Escape]), &mut m);
    assert_eq!(m.layer, MenuLayer::Command);
    assert_eq!(m.selected_spell_index, 2);
}

#[test]
fn casting_pays_mp_and_hurts_the_enemy() {
    let (known, lib) = library();
    let mut m = spell_menu(0);
    let out = spell_confirm(&keys(vec![Key::Space]), &mut m, &known, &lib, false, Some(hero()), Some(guard()));
    match out {
        SpellOutcome::Cast { caster, hit } => {
            assert_eq!(caster.mp, 46);
            assert_eq!(caster.hp, 100);
            // 12 power + 5 magic attack - 4 magic defense
            assert_eq!(hit.damage, 13);
            assert_eq!(hit.target.hp, 17);
        }
        other => panic!("expected a cast, got {:?}", other),
    }
    assert_eq!(m.layer, MenuLayer::Command);
}

#[test]
fn spell_damage_is_at_least_one() {
    let (known, lib) = library();
    let mut m = spell_menu(0);
    let mut tough = guard();
    tough.magic_defense = 1000;
    let out = spell_confirm(&keys(vec![Key::Space]), &mut m, &known, &lib, false, Some(hero()), Some(tough));
    match out {
        SpellOutcome::Cast { hit, .. } => {
            assert_eq!(hit.damage, 1);
            assert_eq!(hit.target.hp, 29);
        }
        other => panic!("expected a cast, got {:?}", other),
    }
}

#[test]
fn spell_beyond_the_mp_is_refused_and_changes_nothing() {
    let (known, lib) = library();
    let mut m = spell_menu(1);
    let out = spell_confirm(&keys(vec![Key::Space]), &mut m, &known, &lib, false, Some(hero()), Some(guard()));
    match out {
        SpellOutcome::NotEnoughMp(message) => assert_eq!(message, "Not enough MP for Ice!"),
        other => panic!("expected a refusal, got {:?}", other),
    }
    assert_eq!(m, spell_menu(1));
    // refused even with no enemy on the field
    let out = spell_confirm(&keys(vec![Key::Space]), &mut m, &known, &lib, false, Some(hero()), None);
    assert!(matches!(out, SpellOutcome::NotEnoughMp(_)));
}

#[test]
fn spell_confirm_does_nothing_without_its_conditions() {
    let (known, lib) = library();
    let space = keys(vec![Key::Space]);
    let mut m = spell_menu(0);
    assert!(matches!(spell_confirm(&space, &mut m, &known, &lib, true, Some(hero()), Some(guard())), SpellOutcome::Nothing));
    assert!(matches!(spell_confirm(&keys(vec![]), &mut m, &known, &lib, false, Some(hero()), Some(guard())), SpellOutcome::Nothing));
    assert!(matches!(spell_confirm(&space, &mut m, &known, &lib, false, None, Some(guard())), SpellOutcome::Nothing));
    assert!(matches!(spell_confirm(&space, &mut m, &known, &lib, false, Some(hero()), None), SpellOutcome::Nothing));
    assert_eq!(m, spell_menu(0));
    // "quake" is known but not in the library; index 7 is past the list
    let mut q = spell_menu(2);
    assert!(matches!(spell_confirm(&space, &mut q, &known, &lib, false, Some(hero()), Some(guard())), SpellOutcome::Nothing));
    let mut past = spell_menu(7);
    assert!(matches!(spell_confirm(&space, &mut past, &known, &lib, false, Some(hero()), Some(guard())), SpellOutcome::Nothing));
    let mut c = command_menu(1);
    assert!(matches!(spell_confirm(&space, &mut c, &known, &lib, false, Some(hero()), Some(guard())), SpellOutcome::Nothing));
}

#[test]
fn attack_strikes_the_enemy() {
    let mut input = keys(vec![Key::Space]);
    let mut m = command_menu(0);
    let out = confirm_selection(&mut input, &mut m, false, Some(hero()), Some(guard()), &|b: u32| b);
    match out {
        CommandOutcome::Attack(hit) => {
            assert_eq!(hit.damage, 8);
            assert_eq!(hit.target.hp, 22);
        }
        other => panic!("expected an attack, got {:?}", other),
    }
    assert_eq!(m, command_menu(0));
    let out = confirm_selection(&mut input, &mut m, false, Some(hero()), None, &|b: u32| b);
    assert_eq!(out, CommandOutcome::Nothing);
}

#[test]
fn magic_opens_the_spell_menu_and_uses_up_space() {
    let mut input = KeyInput { pressed: vec![Key::Space], just_pressed: vec![Key::Space, Key::ArrowUp, Key::Space] };
    let mut m = BattleMenu { layer: MenuLayer::Command, selected_index: 1, selected_spell_index: 2 };
    let out = confirm_selection(&mut input, &mut m, false, Some(hero()), Some(guard()), &|b: u32| b);
    assert_eq!(out, CommandOutcome::OpenSpells);
    assert_eq!(m, BattleMenu { layer: MenuLayer::Spell, selected_index: 1, selected_spell_index: 0 });
    assert_eq!(input.just_pressed, vec![Key::ArrowUp]);
    assert_eq!(input.pressed, vec![Key::Space]);
    // the spell menu does not see the same Space press
    let (known, lib) = library();
    let out = spell_confirm(&input, &mut m, &known, &lib, false, Some(hero()), Some(guard()));
    assert!(matches!(out, SpellOutcome::Nothing));
}

#[test]
fn item_and_unknown_commands() {
    let mut input = keys(vec![Key::Space]);
    let mut m = command_menu(2);
    assert_eq!(confirm_selection(&mut input, &mut m, false, Some(hero()), Some(guard()), &|b: u32| b), CommandOutcome::UseItem);
    let mut m = command_menu(5);
    assert_eq!(confirm_selection(&mut input, &mut m, false, Some(hero()), Some(guard()), &|b: u32| b), CommandOutcome::Nothing);
    let mut m = command_menu(0);
    assert_eq!(confirm_selection(&mut input, &mut m, true, Some(hero()), Some(guard()), &|b: u32| b), CommandOutcome::Nothing);
    assert_eq!(confirm_selection(&mut input, &mut m, false, None, Some(guard()), &|b: u32| b), CommandOutcome::Nothing);
    assert_eq!(confirm_selection(&mut keys(vec![]), &mut m, false, Some(hero()), Some(guard()), &|b: u32| b), CommandOutcome::Nothing);
}

#[test]
fn command_menu_draws_labels_and_marks_the_cursor() {
    let m = command_menu(1);
    let look = draw_menu(&m, true, &MenuOption { index: 1 }).unwrap();
    assert!(look.highlighted);
    assert_eq!(look.text, "> Magic");
    let look = draw_menu(&m, true, &MenuOption { index: 0 }).unwrap();
    assert!(!look.highlighted);
    assert_eq!(look.text, "Attack");
    assert_eq!(draw_menu(&m, true, &MenuOption { index: 2 }).unwrap().text, "Item");
    assert_eq!(draw_menu(&m, true, &MenuOption { index: 3 }).unwrap().text, "");
    assert!(draw_menu(&m, false, &MenuOption { index: 1 }).is_none());
}

#[test]
fn menu_cursor_shows_on_its_entry_only() {
    let m = command_menu(2);
    assert!(update_menu_cursor(&m, &MenuOption { index: 2 }));
    assert!(!update_menu_cursor(&m, &MenuOption { index: 0 }));
}

#[test]
fn spell_menu_draws_names_and_costs() {
    let (known, lib) = library();
    let m = spell_menu(0);
    let look = draw_spell_menu(&m, &known, &lib, &SpellOption { index: 0 }).unwrap();
    assert!(look.highlighted);
    assert_eq!(look.text, "> Fire (4 MP)");
    let look = draw_spell_menu(&m, &known, &lib, &SpellOption { index: 1 }).unwrap();
    assert_eq!(look.text, "Ice (60 MP)");
    let look = draw_spell_menu(&m, &known, &lib, &SpellOption { index: 2 }).unwrap();
    assert_eq!(look.text, "");
    assert!(draw_spell_menu(&command_menu(0), &known, &lib, &SpellOption { index: 0 }).is_none());
    assert_eq!(spell_label_string(&known, &lib, 9), "");
}
