//! The experience curve and level-up resolution.

use rpg_core::combat::CombatStats;
use rpg_core::player::{xp_required, Player, MAX_LEVEL};

fn fresh_player() -> Player {
    Player::default()
}

#[test]
fn xp_curve_compounds_twenty_percent_with_floor() {
    // floor(50 * 1.2^(level-1))
    assert_eq!(xp_required(1), 50);
    assert_eq!(xp_required(2), 60);
    assert_eq!(xp_required(3), 72);
    assert_eq!(xp_required(4), 86);
    assert_eq!(xp_required(5), 103);
    // Level 6 is the first where rounding each step separately would
    // drift from the exact floor: 50 * 1.2^5 = 124.416.
    assert_eq!(xp_required(6), 124);
    // The top supported level, computed through 128-bit arithmetic.
    assert_eq!(xp_required(MAX_LEVEL), 263322);
}

#[test]
fn one_reward_levels_up_at_most_once() {
    // 55 xp at level 1 crosses the 50-xp threshold once: level 2 with
    // 5 left over, even though 55 exceeds the threshold.
    let mut player = fresh_player();
    let mut stats = CombatStats { health: 10, max_health: 10, attack: 2, defense: 1 };
    let leveled = player.level_up(55, &mut stats);
    assert!(leveled);
    assert_eq!(player.level, 2);
    assert_eq!(player.exp, 5);
}

#[test]
fn level_up_grants_flat_stat_bonus() {
    let mut player = fresh_player();
    let mut stats = CombatStats { health: 7, max_health: 10, attack: 2, defense: 1 };
    assert!(player.level_up(50, &mut stats));
    assert_eq!(stats.health, 9);
    assert_eq!(stats.max_health, 12);
    assert_eq!(stats.attack, 3);
    assert_eq!(stats.defense, 2);
    assert_eq!(player.exp, 0);
}

#[test]
fn short_reward_only_accumulates() {
    let mut player = fresh_player();
    let mut stats = CombatStats { health: 10, max_health: 10, attack: 2, defense: 1 };
    assert!(!player.level_up(30, &mut stats));
    assert_eq!(player.level, 1);
    assert_eq!(player.exp, 30);
    assert_eq!(stats.max_health, 10);
    // A second reward crosses the threshold using the pre-increment
    // level's requirement.
    assert!(player.level_up(30, &mut stats));
    assert_eq!(player.level, 2);
    assert_eq!(player.exp, 10);
}

#[test]
fn threshold_is_of_the_level_before_the_gain() {
    // At level 2 the requirement is 60: 59 accumulated is not enough.
    let mut player = fresh_player();
    let mut stats = CombatStats { health: 10, max_health: 10, attack: 2, defense: 1 };
    assert!(player.level_up(50, &mut stats));
    assert!(!player.level_up(59, &mut stats));
    assert_eq!(player.level, 2);
    assert_eq!(player.exp, 59);
    assert!(player.level_up(1, &mut stats));
    assert_eq!(player.level, 3);
    assert_eq!(player.exp, 0);
}

#[test]
fn progression_freezes_at_the_top_level() {
    let mut player = fresh_player();
    player.level = MAX_LEVEL;
    player.exp = 49;
    let mut stats = CombatStats { health: 10, max_health: 104, attack: 49, defense: 48 };
    assert!(!player.level_up(1_000_000, &mut stats));
    assert_eq!(player.level, MAX_LEVEL);
    assert_eq!(player.exp, 49);
    assert_eq!(stats.max_health, 104);
}

#[test]
fn trauma_decays_and_clamps() {
    let mut player = fresh_player();
    player.add_trauma(600);
    assert_eq!(player.trauma, 600);
    // 1.4 full shakes per second: 100 ms removes 140 thousandths.
    player.update_trauma(100);
    assert_eq!(player.trauma, 460);
    // Overshoot above full clamps back down to full on the next tick.
    player.add_trauma(2000);
    assert_eq!(player.trauma, 2460);
    player.update_trauma(100);
    assert_eq!(player.trauma, 1000);
    // Decay floors at zero and stays there.
    player.update_trauma(10_000);
    assert_eq!(player.trauma, 0);
    player.update_trauma(100);
    assert_eq!(player.trauma, 0);
}
