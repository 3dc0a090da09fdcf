//! Damage resolution, attack branching and the combat micro-steps.

use rpg_core::combat::{
    compute_damage, enemy_base_stats, exp_reward, state_after_attack, AttackEffects, AttackTarget,
    CombatMenuOption, CombatMenuSelection, CombatState, CombatStats, EnemyType, MENU_COUNT,
};

#[test]
fn damage_is_attack_minus_defense_floored_at_zero() {
    assert_eq!(compute_damage(10, 1), 9);
    assert_eq!(compute_damage(2, 1), 1);
    assert_eq!(compute_damage(3, 3), 0);
    assert_eq!(compute_damage(1, 100), 0);
    assert_eq!(compute_damage(0, 0), 0);
}

#[test]
fn applying_damage_never_underflows_or_heals() {
    let mut stats = CombatStats { health: 5, max_health: 10, attack: 3, defense: 2 };
    stats.apply_damage(4);
    assert_eq!(stats.health, 3);
    stats.apply_damage(0);
    assert_eq!(stats.health, 3);
    // Overkill clamps to 0 rather than wrapping.
    stats.apply_damage(1000);
    assert_eq!(stats.health, 0);
    // High defense never heals the target.
    let mut tank = CombatStats { health: 4, max_health: 10, attack: 1, defense: 99 };
    tank.apply_damage(5);
    assert_eq!(tank.health, 4);
}

#[test]
fn lethal_hit_on_enemy_overrides_next_state_with_reward() {
    // An enemy at 3/3 with defense 1 takes a 10-point attack:
    // resulting damage 9, health clamps to 0, and the session goes to
    // Reward instead of the attacker's requested state.
    let mut enemy = CombatStats { health: 3, max_health: 3, attack: 2, defense: 1 };
    assert_eq!(compute_damage(10, enemy.defense), 9);
    enemy.apply_damage(10);
    assert_eq!(enemy.health, 0);
    let next = state_after_attack(AttackTarget::Enemy, enemy.health, CombatState::PlayerAttack);
    assert_eq!(next, CombatState::Reward);
}

#[test]
fn lethal_hit_on_player_goes_to_dead() {
    // A player at 2 health with no defense takes a 5-point attack:
    // health reaches 0 and the session goes to Dead.
    let mut player = CombatStats { health: 2, max_health: 10, attack: 2, defense: 0 };
    player.apply_damage(5);
    assert_eq!(player.health, 0);
    let next = state_after_attack(AttackTarget::Player, player.health, CombatState::EnemyAttack);
    assert_eq!(next, CombatState::Dead);
}

#[test]
fn survivable_hit_keeps_requested_next_state() {
    let mut enemy = CombatStats { health: 5, max_health: 5, attack: 3, defense: 2 };
    enemy.apply_damage(3);
    assert_eq!(enemy.health, 4);
    let next = state_after_attack(AttackTarget::Enemy, enemy.health, CombatState::PlayerAttack);
    assert_eq!(next, CombatState::PlayerAttack);
}

#[test]
fn enemy_archetypes_have_fixed_stats_and_payouts() {
    let bat = enemy_base_stats(EnemyType::Bat);
    assert_eq!((bat.health, bat.max_health, bat.attack, bat.defense), (3, 3, 2, 1));
    let phantom = enemy_base_stats(EnemyType::Phantom);
    assert_eq!((phantom.health, phantom.max_health, phantom.attack, phantom.defense), (5, 5, 3, 2));
    // The weak archetype pays less than the strong one.
    assert_eq!(exp_reward(EnemyType::Bat), 10);
    assert_eq!(exp_reward(EnemyType::Phantom), 30);
    assert!(exp_reward(EnemyType::Bat) < exp_reward(EnemyType::Phantom));
}

#[test]
fn menu_selection_toggles_and_wraps() {
    // Stepping by one place in either direction wraps around the
    // two-entry menu.
    assert_eq!(MENU_COUNT, 2);
    let mut menu = CombatMenuSelection { selected: CombatMenuOption::Fight };
    menu.move_selection(false, true);
    assert_eq!(menu.selected, CombatMenuOption::Run);
    menu.move_selection(false, true);
    assert_eq!(menu.selected, CombatMenuOption::Fight);
    menu.move_selection(true, false);
    assert_eq!(menu.selected, CombatMenuOption::Run);
    // Both or neither pressed leaves the selection alone.
    menu.move_selection(true, true);
    assert_eq!(menu.selected, CombatMenuOption::Run);
    menu.move_selection(false, false);
    assert_eq!(menu.selected, CombatMenuOption::Run);
}

#[test]
fn attack_effect_timer_repeats_on_its_duration() {
    let mut timer = AttackEffects::new(400);
    assert!(!timer.tick(150));
    assert_eq!(timer.elapsed_ms, 150);
    assert!(!timer.tick(249));
    assert_eq!(timer.elapsed_ms, 399);
    assert!(timer.tick(1));
    assert_eq!(timer.elapsed_ms, 0);
    // A long tick finishes and wraps the remainder.
    assert!(timer.tick(950));
    assert_eq!(timer.elapsed_ms, 150);
}

#[test]
fn healer_restores_full_health_only_when_hurt() {
    let mut stats = CombatStats { health: 4, max_health: 12, attack: 3, defense: 2 };
    assert!(stats.heal_to_full());
    assert_eq!(stats.health, 12);
    assert!(!stats.heal_to_full());
    assert_eq!(stats.health, 12);
}
