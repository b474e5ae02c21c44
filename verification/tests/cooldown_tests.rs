//! Tests of the tick-based cooldown engine and the healing rules.
//!
//! Cooldowns are measured in whole ticks, ten per second of the running
//! game, so the standard loadouts use 5/30/50/2 (player) and 10/5 (monster).

use combat_core::compute_attack;
use combat_core::Ability;
use combat_core::AbilitySet;
use combat_core::AbilitySlot;
use combat_core::Character;
use combat_core::Stats;

#[test]
fn test_ability_slot_creation() {
    let slot = AbilitySlot::new(Ability::basic_attack(), 20);

    assert_eq!(slot.ability.name, "Basic Attack");
    assert_eq!(slot.cooldown_max, 20);
    assert_eq!(slot.cooldown_current, 0);
    assert!(slot.is_ready());
}

#[test]
fn test_ability_slot_use_triggers_cooldown() {
    let mut slot = AbilitySlot::new(Ability::powerful_attack(), 30);

    assert!(slot.is_ready());

    slot.use_ability();

    assert!(!slot.is_ready());
    assert_eq!(slot.cooldown_current, 30);
}

#[test]
fn test_ability_slot_tick_decreases_cooldown() {
    let mut slot = AbilitySlot::new(Ability::basic_attack(), 20);
    slot.use_ability();

    assert_eq!(slot.cooldown_current, 20);

    slot.tick(5);
    assert_eq!(slot.cooldown_current, 15);

    slot.tick(10);
    assert_eq!(slot.cooldown_current, 5);

    slot.tick(5);
    assert_eq!(slot.cooldown_current, 0);
    assert!(slot.is_ready());
}

#[test]
fn test_ability_slot_tick_does_not_go_negative() {
    let mut slot = AbilitySlot::new(Ability::quick_strike(), 2);

    assert_eq!(slot.cooldown_current, 0);

    slot.tick(10);
    assert_eq!(slot.cooldown_current, 0);
}

#[test]
fn test_ability_slot_cooldown_progress() {
    let mut slot = AbilitySlot::new(Ability::powerful_attack(), 40);

    assert_eq!(slot.cooldown_progress(), 0);

    slot.use_ability();
    assert_eq!(slot.cooldown_progress(), 100);

    slot.tick(20);
    assert_eq!(slot.cooldown_progress(), 50);

    slot.tick(20);
    assert_eq!(slot.cooldown_progress(), 0);
}

#[test]
fn test_ability_slot_zero_cooldown() {
    let mut slot = AbilitySlot::new(Ability::basic_attack(), 0);

    assert!(slot.is_ready());

    slot.use_ability();
    assert!(slot.is_ready());

    assert_eq!(slot.cooldown_progress(), 0);
}

#[test]
fn test_ability_set_player_default() {
    let ability_set = AbilitySet::player_default();

    assert_eq!(ability_set.abilities.len(), 4);
    assert_eq!(ability_set.abilities[0].ability.name, "Basic Attack");
    assert_eq!(ability_set.abilities[1].ability.name, "Powerful Attack");
    assert_eq!(ability_set.abilities[2].ability.name, "Heal");
    assert_eq!(ability_set.abilities[3].ability.name, "Quick Strike");
}

#[test]
fn test_ability_set_monster_default() {
    let ability_set = AbilitySet::monster_default();

    assert_eq!(ability_set.abilities.len(), 2);
    assert_eq!(ability_set.abilities[0].ability.name, "Basic Attack");
    assert_eq!(ability_set.abilities[1].ability.name, "Quick Strike");
}

#[test]
fn test_ability_set_default_powers() {
    let player_set = AbilitySet::player_default();
    assert_eq!(player_set.abilities[0].ability.power, 5);
    assert_eq!(player_set.abilities[1].ability.power, 12);
    assert_eq!(player_set.abilities[2].ability.power, -8);
    assert_eq!(player_set.abilities[3].ability.power, 3);

    let monster_set = AbilitySet::monster_default();
    assert_eq!(monster_set.abilities[0].ability.power, 5);
    assert_eq!(monster_set.abilities[1].ability.power, 3);
}

#[test]
fn test_ability_set_tick_all() {
    let mut ability_set = AbilitySet::player_default();

    for slot in &mut ability_set.abilities {
        slot.use_ability();
        assert!(!slot.is_ready());
    }

    ability_set.tick_all(3);

    assert!(ability_set.abilities[3].is_ready());
    assert!(!ability_set.abilities[0].is_ready());
    assert!(!ability_set.abilities[1].is_ready());
    assert!(!ability_set.abilities[2].is_ready());
}

#[test]
fn test_ability_set_get_ready_ability() {
    let mut ability_set = AbilitySet::player_default();

    assert!(ability_set.get_ready_ability(0).is_some());
    assert!(ability_set.get_ready_ability(1).is_some());
    assert!(ability_set.get_ready_ability(2).is_some());
    assert!(ability_set.get_ready_ability(3).is_some());

    assert!(ability_set.use_ability_at(0));

    assert!(ability_set.get_ready_ability(0).is_none());
    assert!(ability_set.get_ready_ability(1).is_some());
}

#[test]
fn test_ability_set_get_ready_ability_out_of_bounds() {
    let ability_set = AbilitySet::player_default();

    assert!(ability_set.get_ready_ability(10).is_none());
}

#[test]
fn test_heal_ability_restores_hp() {
    let attacker = Character::new_player("Hero");
    let mut defender = Character::new_player("Wounded Hero");
    defender.hp = 10;

    let heal_ability = Ability::heal();
    let event = compute_attack(&attacker, &defender, &heal_ability);

    assert_eq!(event.damage, -8);
    assert_eq!(event.defender_hp_after, 18);
    assert_eq!(event.ability_used, "Heal");
}

#[test]
fn test_heal_bypasses_defense() {
    let attacker = Character::new_player("Hero");
    let defender = Character {
        name: "Tank".to_string(),
        hp: 20,
        stats: Stats { hp: 50, attack: 5, defense: 100 },
    };

    let heal_ability = Ability::heal();
    let event = compute_attack(&attacker, &defender, &heal_ability);

    assert_eq!(event.damage, -8);
    assert_eq!(event.defender_hp_after, 28);
}

#[test]
fn test_heal_can_exceed_original_hp() {
    let attacker = Character::new_player("Hero");
    let defender = Character::new_player("Full HP Hero");

    let heal_ability = Ability::heal();
    let event = compute_attack(&attacker, &defender, &heal_ability);

    assert_eq!(event.defender_hp_after, 38);
}

#[test]
fn test_basic_attack_ability() {
    let ability = Ability::basic_attack();

    assert_eq!(ability.name, "Basic Attack");
    assert_eq!(ability.power, 5);
}

#[test]
fn test_powerful_attack_ability() {
    let ability = Ability::powerful_attack();

    assert_eq!(ability.name, "Powerful Attack");
    assert_eq!(ability.power, 12);
}

#[test]
fn test_heal_ability() {
    let ability = Ability::heal();

    assert_eq!(ability.name, "Heal");
    assert_eq!(ability.power, -8);
}

#[test]
fn test_quick_strike_ability() {
    let ability = Ability::quick_strike();

    assert_eq!(ability.name, "Quick Strike");
    assert_eq!(ability.power, 3);
}

#[test]
fn test_powerful_attack_vs_basic_attack() {
    let attacker = Character::new_player("Hero");
    let defender = Character::new_monster("Slime");

    let basic = Ability::basic_attack();
    let powerful = Ability::powerful_attack();

    let basic_event = compute_attack(&attacker, &defender, &basic);
    let powerful_event = compute_attack(&attacker, &defender, &powerful);

    assert!(powerful_event.damage > basic_event.damage);
}

#[test]
fn test_quick_strike_vs_basic_attack() {
    let attacker = Character::new_player("Hero");
    let defender = Character::new_monster("Slime");

    let basic = Ability::basic_attack();
    let quick = Ability::quick_strike();

    let basic_event = compute_attack(&attacker, &defender, &basic);
    let quick_event = compute_attack(&attacker, &defender, &quick);

    assert!(quick_event.damage < basic_event.damage);
}

#[test]
fn test_full_combat_sequence_with_cooldowns() {
    let mut ability_set = AbilitySet::player_default();

    if let Some(ability) = ability_set.get_ready_ability(1) {
        assert_eq!(ability.name, "Powerful Attack");
        assert!(ability_set.use_ability_at(1));
    }

    assert!(ability_set.get_ready_ability(1).is_none());

    if let Some(ability) = ability_set.get_ready_ability(0) {
        assert_eq!(ability.name, "Basic Attack");
        assert!(ability_set.use_ability_at(0));
    }

    ability_set.tick_all(6);

    assert!(ability_set.get_ready_ability(0).is_some());

    assert!(ability_set.get_ready_ability(1).is_none());

    ability_set.tick_all(25);

    assert!(ability_set.get_ready_ability(1).is_some());
}

#[test]
fn test_combat_event_includes_ability_name() {
    let attacker = Character::new_player("Hero");
    let defender = Character::new_monster("Slime");
    let ability = Ability::powerful_attack();

    let event = compute_attack(&attacker, &defender, &ability);

    assert_eq!(event.ability_used, "Powerful Attack");
    assert_eq!(event.attacker_name, "Hero");
    assert_eq!(event.defender_name, "Slime");
}

#[test]
fn test_spam_protection() {
    let mut ability_set = AbilitySet::player_default();

    assert!(ability_set.use_ability_at(3));

    assert!(ability_set.get_ready_ability(3).is_none());

    ability_set.tick_all(1);
    assert!(ability_set.get_ready_ability(3).is_none());

    ability_set.tick_all(1);
    assert!(ability_set.get_ready_ability(3).is_some());
}
