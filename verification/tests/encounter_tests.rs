//! Tests of the turn state machine: turn flow, victory conditions, damage
//! application, the combat log, and the monster's cooldown-driven behavior.

use combat_core::compute_attack;
use combat_core::Ability;
use combat_core::Character;
use combat_core::CombatLog;
use combat_core::CombatState;
use combat_core::Encounter;
use combat_core::Stats;

/// Resolves one player basic attack and applies it, the way a driver does:
/// damage to the monster, log lines, then the state transition.
fn simulate_player_attack(
    player: &Character,
    monster: &mut Character,
    state: &mut CombatState,
    log: &mut CombatLog,
) {
    let ability = Ability::basic_attack();
    let event = compute_attack(player, monster, &ability);

    monster.hp = event.defender_hp_after;

    log.add(format!(
        "{} attacks {} for {} damage!",
        event.attacker_name, event.defender_name, event.damage
    ));
    log.add(format!("{} HP: {} / {}", monster.name, monster.hp, monster.stats.hp));

    if monster.hp <= 0 {
        log.add(format!("{} has been defeated!", monster.name));
        *state = CombatState::GameOver { winner: player.name.clone() };
    } else {
        *state = CombatState::MonsterTurn;
    }
}

/// Resolves one monster basic attack and applies it, symmetrically.
fn simulate_monster_attack(
    player: &mut Character,
    monster: &Character,
    state: &mut CombatState,
    log: &mut CombatLog,
) {
    let ability = Ability::basic_attack();
    let event = compute_attack(monster, player, &ability);

    player.hp = event.defender_hp_after;

    log.add(format!(
        "{} attacks {} for {} damage!",
        event.attacker_name, event.defender_name, event.damage
    ));
    log.add(format!("{} HP: {} / {}", player.name, player.hp, player.stats.hp));

    if player.hp <= 0 {
        log.add(format!("{} has been defeated!", player.name));
        *state = CombatState::GameOver { winner: monster.name.clone() };
    } else {
        *state = CombatState::PlayerTurn;
    }
}

#[test]
fn test_initial_combat_state_is_player_turn() {
    let state = CombatState::default();
    assert_eq!(state, CombatState::PlayerTurn);
}

#[test]
fn test_player_attack_transitions_to_monster_turn() {
    let player = Character::new_player("Hero");
    let mut monster = Character::new_monster("Slime");
    let mut state = CombatState::default();
    let mut log = CombatLog::new(10);

    assert_eq!(state, CombatState::PlayerTurn);

    simulate_player_attack(&player, &mut monster, &mut state, &mut log);

    assert_eq!(state, CombatState::MonsterTurn);
}

#[test]
fn test_monster_attack_transitions_to_player_turn() {
    let mut player = Character::new_player("Hero");
    let monster = Character::new_monster("Slime");
    let mut state = CombatState::MonsterTurn;
    let mut log = CombatLog::new(10);

    simulate_monster_attack(&mut player, &monster, &mut state, &mut log);

    assert_eq!(state, CombatState::PlayerTurn);
}

#[test]
fn test_turn_alternation_sequence() {
    let mut player = Character::new_player("Hero");
    let mut monster = Character::new_monster("Slime");
    player.stats.attack = 3;
    monster.stats.attack = 2;
    let mut state = CombatState::default();
    let mut log = CombatLog::new(10);

    assert_eq!(state, CombatState::PlayerTurn);
    simulate_player_attack(&player, &mut monster, &mut state, &mut log);

    assert_eq!(state, CombatState::MonsterTurn);
    simulate_monster_attack(&mut player, &monster, &mut state, &mut log);

    assert_eq!(state, CombatState::PlayerTurn);
    simulate_player_attack(&player, &mut monster, &mut state, &mut log);

    assert_eq!(state, CombatState::MonsterTurn);
}

#[test]
fn test_player_victory_condition() {
    let mut player = Character::new_player("Hero");
    player.stats.attack = 100;
    let mut monster = Character::new_monster("Slime");
    let mut state = CombatState::default();
    let mut log = CombatLog::new(10);

    for _ in 0..10 {
        match state.clone() {
            CombatState::GameOver { ref winner } => {
                assert_eq!(winner, "Hero");
                return;
            }
            CombatState::PlayerTurn => {
                simulate_player_attack(&player, &mut monster, &mut state, &mut log)
            }
            CombatState::MonsterTurn => {
                simulate_monster_attack(&mut player, &monster, &mut state, &mut log)
            }
        }
    }

    panic!("Game should have ended with player victory");
}

#[test]
fn test_monster_victory_condition() {
    let mut player = Character::new_player("Hero");
    let mut monster = Character::new_monster("Slime");
    monster.stats.attack = 100;
    let mut state = CombatState::MonsterTurn;
    let mut log = CombatLog::new(10);

    for _ in 0..10 {
        match state.clone() {
            CombatState::GameOver { ref winner } => {
                assert_eq!(winner, "Slime");
                return;
            }
            CombatState::PlayerTurn => {
                simulate_player_attack(&player, &mut monster, &mut state, &mut log)
            }
            CombatState::MonsterTurn => {
                simulate_monster_attack(&mut player, &monster, &mut state, &mut log)
            }
        }
    }

    panic!("Game should have ended with monster victory");
}

#[test]
fn test_game_over_state_is_permanent() {
    let state = CombatState::GameOver { winner: "Test".to_string() };

    let initial_state = state.clone();
    let final_state = state.clone();

    assert_eq!(initial_state, final_state);
    assert!(matches!(final_state, CombatState::GameOver { .. }));
}

#[test]
fn test_player_attack_applies_correct_damage() {
    let player = Character::new_player("Hero");
    let mut monster = Character::new_monster("Slime");
    let mut state = CombatState::default();
    let mut log = CombatLog::new(10);

    let initial_monster_hp = monster.hp;

    simulate_player_attack(&player, &mut monster, &mut state, &mut log);

    let damage_dealt = initial_monster_hp - monster.hp;

    assert_eq!(damage_dealt, 14);
    assert_eq!(monster.hp, 6);
}

#[test]
fn test_monster_attack_applies_correct_damage() {
    let mut player = Character::new_player("Hero");
    let monster = Character::new_monster("Slime");
    let mut state = CombatState::MonsterTurn;
    let mut log = CombatLog::new(10);

    let initial_player_hp = player.hp;

    simulate_monster_attack(&mut player, &monster, &mut state, &mut log);

    let damage_dealt = initial_player_hp - player.hp;

    assert_eq!(damage_dealt, 9);
    assert_eq!(player.hp, 21);
}

#[test]
fn test_hp_cannot_go_below_zero() {
    let mut player = Character::new_player("Hero");
    player.stats.attack = 1000;
    let mut monster = Character::new_monster("Slime");
    let mut state = CombatState::default();
    let mut log = CombatLog::new(10);

    simulate_player_attack(&player, &mut monster, &mut state, &mut log);

    assert!(monster.hp <= 0, "Monster HP should be 0 or negative");
}

#[test]
fn test_combat_log_records_attacks() {
    let player = Character::new_player("Hero");
    let mut monster = Character::new_monster("Slime");
    let mut state = CombatState::default();
    let mut log = CombatLog::new(10);

    simulate_player_attack(&player, &mut monster, &mut state, &mut log);

    assert!(log.contains("Hero attacks Slime"));
}

#[test]
fn test_combat_log_records_damage() {
    let player = Character::new_player("Hero");
    let mut monster = Character::new_monster("Slime");
    let mut state = CombatState::default();
    let mut log = CombatLog::new(10);

    simulate_player_attack(&player, &mut monster, &mut state, &mut log);

    assert!(log.contains("14 damage"));
}

#[test]
fn test_combat_log_records_hp_status() {
    let player = Character::new_player("Hero");
    let mut monster = Character::new_monster("Slime");
    let mut state = CombatState::default();
    let mut log = CombatLog::new(10);

    simulate_player_attack(&player, &mut monster, &mut state, &mut log);

    assert!(log.contains("Slime HP: 6 / 20"));
}

#[test]
fn test_combat_log_records_defeat() {
    let mut player = Character::new_player("Hero");
    player.stats.attack = 100;
    let mut monster = Character::new_monster("Slime");
    let mut state = CombatState::default();
    let mut log = CombatLog::new(10);

    simulate_player_attack(&player, &mut monster, &mut state, &mut log);

    assert!(log.contains("has been defeated"));
}

#[test]
fn test_combat_log_max_events() {
    let mut log = CombatLog::new(3);

    log.add("Event 1".to_string());
    log.add("Event 2".to_string());
    log.add("Event 3".to_string());
    log.add("Event 4".to_string());

    assert_eq!(log.events.len(), 3);
    assert!(!log.contains("Event 1"));
    assert!(log.contains("Event 4"));
}

#[test]
fn test_multiple_combat_rounds() {
    let mut player = Character::new_player("Hero");
    let mut monster = Character::new_monster("Slime");
    let mut state = CombatState::default();
    let mut log = CombatLog::new(10);

    for round in 0..3 {
        if matches!(state, CombatState::GameOver { .. }) {
            break;
        }

        if matches!(state, CombatState::PlayerTurn) {
            simulate_player_attack(&player, &mut monster, &mut state, &mut log);
        }

        if matches!(state, CombatState::GameOver { .. }) {
            break;
        }

        if matches!(state, CombatState::MonsterTurn) {
            simulate_monster_attack(&mut player, &monster, &mut state, &mut log);
        }

        if round < 2 {
            assert!(player.hp > 0 || monster.hp > 0);
        }
    }

    assert!(
        matches!(state, CombatState::PlayerTurn)
            || matches!(state, CombatState::MonsterTurn)
            || matches!(state, CombatState::GameOver { .. })
    );
}

#[test]
fn test_complete_combat_until_victory() {
    let mut player = Character::new_player("Hero");
    let mut monster = Character::new_monster("Slime");
    let mut state = CombatState::default();
    let mut log = CombatLog::new(10);

    simulate_player_attack(&player, &mut monster, &mut state, &mut log);
    assert_eq!(monster.hp, 6);

    simulate_monster_attack(&mut player, &monster, &mut state, &mut log);
    assert_eq!(player.hp, 21);

    simulate_player_attack(&player, &mut monster, &mut state, &mut log);
    assert!(monster.hp <= 0);

    match state {
        CombatState::GameOver { ref winner } => {
            assert_eq!(winner, "Hero");
        }
        _ => panic!("Game should be over with player victory"),
    }
}

#[test]
fn test_hp_tracking_across_rounds() {
    let mut player = Character::new_player("Hero");
    let mut monster = Character::new_monster("Slime");
    let mut state = CombatState::default();
    let mut log = CombatLog::new(10);

    let mut player_hp_history = vec![player.hp];
    let mut monster_hp_history = vec![monster.hp];

    for _ in 0..3 {
        if matches!(state, CombatState::GameOver { .. }) {
            break;
        }

        if matches!(state, CombatState::PlayerTurn) {
            simulate_player_attack(&player, &mut monster, &mut state, &mut log);
            monster_hp_history.push(monster.hp);
        }

        if matches!(state, CombatState::GameOver { .. }) {
            break;
        }

        if matches!(state, CombatState::MonsterTurn) {
            simulate_monster_attack(&mut player, &monster, &mut state, &mut log);
            player_hp_history.push(player.hp);
        }
    }

    for i in 1..player_hp_history.len() {
        assert!(
            player_hp_history[i] <= player_hp_history[i - 1],
            "Player HP should decrease or stay same"
        );
    }

    for i in 1..monster_hp_history.len() {
        assert!(
            monster_hp_history[i] <= monster_hp_history[i - 1],
            "Monster HP should decrease or stay same"
        );
    }
}

#[test]
fn test_minimum_damage_is_applied() {
    let player = Character::new_player("Hero");
    let mut monster = Character::new_monster("Slime");
    monster.stats.defense = 1000;
    let mut state = CombatState::default();
    let mut log = CombatLog::new(10);

    let initial_hp = monster.hp;
    simulate_player_attack(&player, &mut monster, &mut state, &mut log);
    let final_hp = monster.hp;

    assert_eq!(initial_hp - final_hp, 1);
}

#[test]
fn test_zero_defense_character() {
    let player = Character::new_player("Hero");
    let mut monster = Character::new_monster("Slime");
    monster.stats.defense = 0;
    let mut state = CombatState::default();
    let mut log = CombatLog::new(10);

    simulate_player_attack(&player, &mut monster, &mut state, &mut log);

    assert_eq!(monster.hp, 5);
}

#[test]
fn test_combat_with_equal_strength_opponents() {
    let mut player = Character::new_player("Hero");
    player.hp = 50;
    player.stats.hp = 50;
    player.stats.attack = 10;
    player.stats.defense = 5;
    let mut monster = Character::new_monster("Slime");
    monster.hp = 50;
    monster.stats.hp = 50;
    monster.stats.attack = 10;
    monster.stats.defense = 5;
    let mut state = CombatState::default();
    let mut log = CombatLog::new(10);

    for _ in 0..20 {
        match state.clone() {
            CombatState::GameOver { winner } => {
                assert!(winner == "Hero" || winner == "Slime");
                return;
            }
            CombatState::PlayerTurn => {
                simulate_player_attack(&player, &mut monster, &mut state, &mut log)
            }
            CombatState::MonsterTurn => {
                simulate_monster_attack(&mut player, &monster, &mut state, &mut log)
            }
        }
    }

    assert!(matches!(state, CombatState::GameOver { .. }));
}

#[test]
fn test_player_victory() {
    let player = Character::new_player("Hero");
    let monster = Character::new_monster("Slime");

    assert_eq!(player.stats.attack, 10);
    assert_eq!(monster.stats.defense, 1);
    assert_eq!(monster.hp, 20);

    let ability = Ability::basic_attack();
    let damage_per_hit = (player.stats.attack + ability.power - monster.stats.defense).max(1);

    assert_eq!(damage_per_hit, 14);
}

#[test]
fn test_monster_victory() {
    let player = Character::new_player("Hero");
    let monster = Character::new_monster("Slime");

    assert_eq!(monster.stats.attack, 6);
    assert_eq!(player.stats.defense, 2);
    assert_eq!(player.hp, 30);

    let ability = Ability::basic_attack();
    let damage_per_hit = (monster.stats.attack + ability.power - player.stats.defense).max(1);

    assert_eq!(damage_per_hit, 9);
}

#[test]
fn test_minimum_damage() {
    let weak_attacker = Character {
        name: "Weak".to_string(),
        hp: 10,
        stats: Stats { hp: 10, attack: 1, defense: 0 },
    };

    let strong_defender = Character {
        name: "Tank".to_string(),
        hp: 100,
        stats: Stats { hp: 100, attack: 1, defense: 100 },
    };

    let ability = Ability::basic_attack();
    let event = compute_attack(&weak_attacker, &strong_defender, &ability);

    assert_eq!(event.damage, 1, "Minimum damage should always be 1");
}

#[test]
fn test_turn_alternation() {
    let mut encounter =
        Encounter::new(Character::new_player("Hero"), Character::new_monster("Slime"), 10);

    assert_eq!(encounter.state, CombatState::PlayerTurn);

    encounter.player_attack();
    assert_eq!(encounter.state, CombatState::MonsterTurn);

    encounter.monster_act();
    assert_eq!(encounter.state, CombatState::PlayerTurn);
}

#[test]
fn test_combat_log_events() {
    let mut encounter =
        Encounter::new(Character::new_player("Hero"), Character::new_monster("Slime"), 10);

    encounter.player_attack();
    encounter.monster_act();

    assert!(encounter.log.contains("Hero attacks Slime for 14 damage!"));
    assert!(encounter.log.contains("Slime HP: 6 / 20"));
    assert!(encounter.log.contains("--- Monster's Turn ---"));
    assert!(encounter.log.contains("Slime uses Basic Attack on Hero for 9 damage!"));
    assert!(encounter.log.contains("Hero HP: 21 / 30"));
    assert!(encounter.log.contains("--- Player's Turn ---"));
}

#[test]
fn test_player_input_restriction() {
    let mut encounter =
        Encounter::new(Character::new_player("Hero"), Character::new_monster("Slime"), 10);

    encounter.state = CombatState::MonsterTurn;
    encounter.player_attack();
    assert_eq!(encounter.state, CombatState::MonsterTurn);
    assert_eq!(encounter.monster.hp, 20);
    assert_eq!(encounter.log.events.len(), 0);

    encounter.state = CombatState::GameOver { winner: "Hero".to_string() };
    encounter.player_attack();
    assert_eq!(encounter.monster.hp, 20);
    assert!(matches!(encounter.state, CombatState::GameOver { .. }));
}

#[test]
fn test_monster_auto_attack() {
    let mut encounter =
        Encounter::new(Character::new_player("Hero"), Character::new_monster("Slime"), 10);

    encounter.state = CombatState::MonsterTurn;
    encounter.monster_act();

    assert_eq!(encounter.state, CombatState::PlayerTurn);
    assert!(encounter.player.hp < 30);
}

#[test]
fn test_game_over_is_final() {
    let mut encounter =
        Encounter::new(Character::new_player("Hero"), Character::new_monster("Slime"), 10);
    encounter.player.stats.attack = 100;

    encounter.player_attack();
    assert_eq!(encounter.state, CombatState::GameOver { winner: "Hero".to_string() });

    let player_hp = encounter.player.hp;
    let monster_hp = encounter.monster.hp;
    let log_len = encounter.log.events.len();

    encounter.player_attack();
    encounter.monster_act();

    assert_eq!(encounter.state, CombatState::GameOver { winner: "Hero".to_string() });
    assert_eq!(encounter.player.hp, player_hp);
    assert_eq!(encounter.monster.hp, monster_hp);
    assert_eq!(encounter.log.events.len(), log_len);
}

#[test]
fn test_encounter_full_run_player_wins() {
    let mut encounter =
        Encounter::new(Character::new_player("Hero"), Character::new_monster("Slime"), 10);

    encounter.player_attack();
    assert_eq!(encounter.monster.hp, 6);

    encounter.monster_act();
    assert_eq!(encounter.player.hp, 21);

    encounter.player_attack();
    assert_eq!(encounter.monster.hp, -8);
    assert_eq!(encounter.state, CombatState::GameOver { winner: "Hero".to_string() });

    assert!(encounter.announce_game_over());
    assert!(encounter.log.contains("=== GAME OVER ==="));
    assert!(encounter.log.contains("Hero wins!"));
}

#[test]
fn test_encounter_monster_uses_powerful_at_full_hp() {
    let mut encounter =
        Encounter::new(Character::new_player("Hero"), Character::new_monster("Slime"), 10);
    encounter.state = CombatState::MonsterTurn;

    encounter.monster_act();

    assert_eq!(encounter.player.hp, 14);
    assert!(encounter.log.contains("Slime uses Powerful Attack on Hero for 16 damage!"));
    assert_eq!(encounter.monster_abilities[1].current_cooldown, 3);
}

#[test]
fn test_encounter_monster_heals_when_low() {
    let mut encounter =
        Encounter::new(Character::new_player("Hero"), Character::new_monster("Slime"), 10);
    encounter.state = CombatState::MonsterTurn;
    encounter.monster.hp = 5;

    encounter.monster_act();

    assert_eq!(encounter.monster.hp, 13);
    assert_eq!(encounter.player.hp, 30);
    assert!(encounter.log.contains("Slime uses Heal and heals 8 HP!"));
    assert!(encounter.log.contains("Slime HP: 13 / 20"));
    assert_eq!(encounter.monster_abilities[2].current_cooldown, 4);
    assert_eq!(encounter.state, CombatState::PlayerTurn);
}

#[test]
fn test_encounter_heal_capped_at_max_hp() {
    let monster = Character {
        name: "Imp".to_string(),
        hp: 2,
        stats: Stats { hp: 10, attack: 6, defense: 1 },
    };
    let mut encounter = Encounter::new(Character::new_player("Hero"), monster, 10);
    encounter.state = CombatState::MonsterTurn;

    encounter.monster_act();

    assert_eq!(encounter.monster.hp, 10);
    assert!(encounter.log.contains("Imp HP: 10 / 10"));
}

#[test]
fn test_encounter_powerful_cooldown_cycle() {
    let player = Character {
        name: "Hero".to_string(),
        hp: 1000,
        stats: Stats { hp: 1000, attack: 10, defense: 2 },
    };
    let monster = Character {
        name: "Slime".to_string(),
        hp: 1000,
        stats: Stats { hp: 1000, attack: 6, defense: 1 },
    };
    let mut encounter = Encounter::new(player, monster, 10);

    encounter.player_attack();
    encounter.monster_act();
    assert_eq!(encounter.player.hp, 984);
    assert_eq!(encounter.monster_abilities[1].current_cooldown, 3);

    encounter.player_attack();
    encounter.monster_act();
    assert_eq!(encounter.player.hp, 975);
    assert_eq!(encounter.monster_abilities[1].current_cooldown, 2);

    encounter.player_attack();
    encounter.monster_act();
    assert_eq!(encounter.player.hp, 966);
    assert_eq!(encounter.monster_abilities[1].current_cooldown, 1);

    encounter.player_attack();
    encounter.monster_act();
    assert_eq!(encounter.player.hp, 950);
    assert_eq!(encounter.monster_abilities[1].current_cooldown, 3);
}

#[test]
fn test_encounter_monster_wins() {
    let mut encounter =
        Encounter::new(Character::new_player("Hero"), Character::new_monster("Slime"), 10);
    encounter.monster.stats.attack = 100;
    encounter.state = CombatState::MonsterTurn;

    encounter.monster_act();

    assert_eq!(encounter.state, CombatState::GameOver { winner: "Slime".to_string() });
    assert!(encounter.log.contains("Hero has been defeated!"));
    assert!(encounter.player.hp <= 0);
}

#[test]
fn test_encounter_announce_only_after_game_over() {
    let mut encounter =
        Encounter::new(Character::new_player("Hero"), Character::new_monster("Slime"), 10);

    assert!(!encounter.announce_game_over());
    assert_eq!(encounter.log.events.len(), 0);
}

#[test]
fn test_encounter_turn_safety_guards() {
    let encounter =
        Encounter::new(Character::new_player("Hero"), Character::new_monster("Slime"), 10);
    assert!(encounter.player_turn_safe());
    assert!(encounter.monster_turn_safe());

    let mut extreme =
        Encounter::new(Character::new_player("Hero"), Character::new_monster("Slime"), 10);
    extreme.player.stats.attack = i32::MAX;
    assert!(!extreme.player_turn_safe());
}
