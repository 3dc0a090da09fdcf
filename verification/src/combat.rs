//! Combat stats and damage resolution.

use vstd::prelude::*;

verus! {

/// Health and battle stats of one combat participant (the player or an
/// enemy). Health is always between 0 and `max_health`.
#[derive(Clone, Copy, PartialEq, Eq, Structural, Debug)]
pub struct CombatStats {
    pub health: u32,
    pub max_health: u32,
    pub attack: u32,
    pub defense: u32,
}

/// Damage dealt by an attack of strength `attack` against `defense`:
/// the difference, floored at 0 so that high defense never heals.
pub open spec fn damage_spec(attack: int, defense: int) -> int {
    if attack > defense {
        attack - defense
    } else {
        0
    }
}

/// Health left after `damage` points hit a target at `health`,
/// floored at 0.
pub open spec fn health_after_spec(health: int, damage: int) -> int {
    if damage > health {
        0
    } else {
        health - damage
    }
}

/// Damage dealt by a raw `damage_amount` against `defense`, floored at 0.
pub fn compute_damage(damage_amount: u32, defense: u32) -> (d: u32)
    ensures
        d == damage_spec(damage_amount as int, defense as int),
{
    if damage_amount > defense {
        damage_amount - defense
    } else {
        0
    }
}

impl CombatStats {
    /// Basic well-formedness: alive-or-dead health never exceeds the
    /// maximum, and the maximum is positive.
    pub open spec fn wf(self) -> bool {
        self.health <= self.max_health && self.max_health >= 1
    }

    /// A fresh participant at full health.
    pub fn new(max_health: u32, attack: u32, defense: u32) -> (s: CombatStats)
        requires
            max_health >= 1,
        ensures
            s.wf(),
            s.health == max_health,
            s.max_health == max_health,
            s.attack == attack,
            s.defense == defense,
    {
        CombatStats { health: max_health, max_health, attack, defense }
    }

    /// Applies a raw attack of `damage_amount` to this participant:
    /// the defense is subtracted first (floored at 0) and health drops
    /// by the result, floored at 0. Never heals and never drops health
    /// below 0 or raises it above `max_health`.
    pub fn apply_damage(&mut self, damage_amount: u32)
        requires
            old(self).wf(),
        ensures
            final(self).wf(),
            final(self).health == health_after_spec(
                old(self).health as int,
                damage_spec(damage_amount as int, old(self).defense as int),
            ),
            final(self).health <= old(self).health,
            final(self).max_health == old(self).max_health,
            final(self).attack == old(self).attack,
            final(self).defense == old(self).defense,
    {
        let damage = compute_damage(damage_amount, self.defense);
        if damage > self.health {
            self.health = 0;
        } else {
            self.health = self.health - damage;
        }
    }

    /// Restores health to the maximum; reports whether anything was
    /// missing (the healer has nothing to do for an unhurt visitor).
    pub fn heal_to_full(&mut self) -> (was_hurt: bool)
        requires
            old(self).wf(),
        ensures
            final(self).wf(),
            final(self).health == final(self).max_health,
            final(self).max_health == old(self).max_health,
            final(self).attack == old(self).attack,
            final(self).defense == old(self).defense,
            was_hurt == (old(self).health < old(self).max_health),
    {
        let was_hurt = self.health < self.max_health;
        self.health = self.max_health;
        was_hurt
    }
}

/// The states of one combat session. A turn cycle runs
/// `PlayerTurn -> PlayerAttack -> EnemyDeciding -> EnemyDecided ->
/// EnemyAttack -> PlayerTurn`; resolving an attack branches to `Reward`
/// (enemy defeated) or `Dead` (player defeated) instead of the normal
/// next state. `EnemyDeciding`/`EnemyDecided` mark whether the enemy's
/// one attack decision of the turn has been taken yet.
#[derive(Clone, Copy, PartialEq, Eq, Structural, Debug)]
pub enum CombatState {
    PlayerTurn,
    PlayerAttack,
    EnemyDeciding,
    EnemyDecided,
    EnemyAttack,
    Reward,
    Dead,
}

/// The two enemy archetypes.
#[derive(Clone, Copy, PartialEq, Eq, Structural, Debug)]
pub enum EnemyType {
    Bat,
    Phantom,
}

/// Whose stats an attack hits.
#[derive(Clone, Copy, PartialEq, Eq, Structural, Debug)]
pub enum AttackTarget {
    Player,
    Enemy,
}

/// One pending attack: read-only to observers (audio, effects), applied
/// exactly once by `process_attack`.
#[derive(Clone, Copy, PartialEq, Eq, Structural, Debug)]
pub struct AttackEvent {
    pub target: AttackTarget,
    pub damage_amount: u32,
    pub next_state: CombatState,
}

/// The two entries of the combat menu.
#[derive(Clone, Copy, PartialEq, Eq, Structural, Debug)]
pub enum CombatMenuOption {
    Fight,
    Run,
}

/// Number of combat menu entries.
pub const MENU_COUNT: u32 = 2;

/// The currently highlighted combat menu entry.
#[derive(Clone, Copy, PartialEq, Eq, Structural, Debug)]
pub struct CombatMenuSelection {
    pub selected: CombatMenuOption,
}

/// The entry next to `option` in the two-entry menu.
pub open spec fn other_option_spec(option: CombatMenuOption) -> CombatMenuOption {
    match option {
        CombatMenuOption::Fight => CombatMenuOption::Run,
        CombatMenuOption::Run => CombatMenuOption::Fight,
    }
}

/// Selection after one tick of input. Left and right both step by one
/// place modulo the menu size, so with two entries pressing exactly one
/// of them toggles the selection and pressing both (or neither) leaves
/// it alone.
pub open spec fn selection_after_input_spec(
    current: CombatMenuOption,
    left: bool,
    right: bool,
) -> CombatMenuOption {
    if left != right {
        other_option_spec(current)
    } else {
        current
    }
}

impl CombatMenuSelection {
    /// Moves the highlighted entry for one tick of left/right input,
    /// wrapping around the two-entry menu.
    pub fn move_selection(&mut self, left: bool, right: bool)
        ensures
            final(self).selected == selection_after_input_spec(old(self).selected, left, right),
    {
        if left != right {
            self.selected = match self.selected {
                CombatMenuOption::Fight => CombatMenuOption::Run,
                CombatMenuOption::Run => CombatMenuOption::Fight,
            };
        }
    }
}

/// Repeating timer that paces the attack-effect states, counted in
/// whole milliseconds of scheduler delta time.
#[derive(Clone, Copy, PartialEq, Eq, Structural, Debug)]
pub struct AttackEffects {
    pub elapsed_ms: u32,
    pub duration_ms: u32,
}

/// How long the hit-flash effect of one attack plays.
pub const ATTACK_EFFECT_MS: u32 = 400;

impl AttackEffects {
    pub open spec fn wf(self) -> bool {
        self.elapsed_ms < self.duration_ms && self.duration_ms >= 1
    }

    /// A fresh timer of `duration_ms` milliseconds.
    pub fn new(duration_ms: u32) -> (t: AttackEffects)
        requires
            duration_ms >= 1,
        ensures
            t.wf(),
            t.elapsed_ms == 0,
            t.duration_ms == duration_ms,
    {
        AttackEffects { elapsed_ms: 0, duration_ms }
    }

    /// Advances the timer by `delta_ms`; reports whether the duration
    /// elapsed, in which case the timer wraps around and repeats.
    pub fn tick(&mut self, delta_ms: u32) -> (finished: bool)
        requires
            old(self).wf(),
            old(self).elapsed_ms + delta_ms <= u32::MAX,
        ensures
            final(self).wf(),
            final(self).duration_ms == old(self).duration_ms,
            finished == (old(self).elapsed_ms + delta_ms >= old(self).duration_ms),
            final(self).elapsed_ms == (old(self).elapsed_ms + delta_ms) % (
            old(self).duration_ms as int),
    {
        let total = self.elapsed_ms + delta_ms;
        if total >= self.duration_ms {
            self.elapsed_ms = total % self.duration_ms;
            true
        } else {
            proof {
                vstd::arithmetic::div_mod::lemma_small_mod(total as nat, self.duration_ms as nat);
            }
            self.elapsed_ms = total;
            false
        }
    }
}

/// Base stats of each enemy archetype.
pub open spec fn enemy_base_stats_spec(enemy_type: EnemyType) -> CombatStats {
    match enemy_type {
        EnemyType::Bat => CombatStats { health: 3, max_health: 3, attack: 2, defense: 1 },
        EnemyType::Phantom => CombatStats { health: 5, max_health: 5, attack: 3, defense: 2 },
    }
}

/// Base stats of each enemy archetype: a bat is frail, a phantom tougher.
pub fn enemy_base_stats(enemy_type: EnemyType) -> (s: CombatStats)
    ensures
        s == enemy_base_stats_spec(enemy_type),
        s.wf(),
{
    match enemy_type {
        EnemyType::Bat => CombatStats { health: 3, max_health: 3, attack: 2, defense: 1 },
        EnemyType::Phantom => CombatStats { health: 5, max_health: 5, attack: 3, defense: 2 },
    }
}

/// Experience paid out by each enemy archetype.
pub open spec fn exp_reward_spec(enemy_type: EnemyType) -> int {
    match enemy_type {
        EnemyType::Bat => 10,
        EnemyType::Phantom => 30,
    }
}

/// Experience paid out by each enemy archetype: the weak bat pays less
/// than the strong phantom.
pub fn exp_reward(enemy_type: EnemyType) -> (xp: u64)
    ensures
        xp == exp_reward_spec(enemy_type),
{
    match enemy_type {
        EnemyType::Bat => 10,
        EnemyType::Phantom => 30,
    }
}

/// Archetype picked from one uniform draw: the lower half of the range
/// gives a bat, the upper half a phantom.
pub open spec fn enemy_type_for_roll_spec(roll: u32) -> EnemyType {
    if roll < 0x8000_0000 {
        EnemyType::Bat
    } else {
        EnemyType::Phantom
    }
}

/// Archetype picked from one uniform draw over the full `u32` range.
pub fn enemy_type_for_roll(roll: u32) -> (t: EnemyType)
    ensures
        t == enemy_type_for_roll_spec(roll),
{
    if roll < 0x8000_0000 {
        EnemyType::Bat
    } else {
        EnemyType::Phantom
    }
}

/// State the session moves to after an attack resolves, as an
/// executable decision. A target at 0 health overrides the attacker's
/// requested next state with `Dead` or `Reward`.
pub fn state_after_attack(
    target: AttackTarget,
    health_after: u32,
    requested: CombatState,
) -> (s: CombatState)
    ensures
        s == state_after_attack_spec(target, health_after as int, requested),
{
    if health_after == 0 {
        match target {
            AttackTarget::Player => CombatState::Dead,
            AttackTarget::Enemy => CombatState::Reward,
        }
    } else {
        requested
    }
}

/// State the session moves to after an attack resolves: a target at 0
/// health overrides the attacker's requested next state with `Dead`
/// (player down) or `Reward` (enemy down).
pub open spec fn state_after_attack_spec(
    target: AttackTarget,
    health_after: int,
    requested: CombatState,
) -> CombatState {
    if health_after == 0 {
        match target {
            AttackTarget::Player => CombatState::Dead,
            AttackTarget::Enemy => CombatState::Reward,
        }
    } else {
        requested
    }
}

/// One combat session, alive exactly while the game is in combat mode.
/// It owns the single active enemy, the current combat state, the menu
/// highlight and the attack-effect timer; the player's stats stay with
/// the session controller and are passed in where a step needs them.
#[derive(Clone, Copy, PartialEq, Eq, Structural, Debug)]
pub struct CombatSession {
    pub state: CombatState,
    pub enemy_type: EnemyType,
    pub enemy: CombatStats,
    pub menu: CombatMenuSelection,
    pub attack_effects: AttackEffects,
    pub reward_given: bool,
}

/// The session a freshly triggered combat starts with.
pub open spec fn initial_session_spec(enemy_type: EnemyType) -> CombatSession {
    CombatSession {
        state: CombatState::PlayerTurn,
        enemy_type,
        enemy: enemy_base_stats_spec(enemy_type),
        menu: CombatMenuSelection { selected: CombatMenuOption::Fight },
        attack_effects: AttackEffects { elapsed_ms: 0, duration_ms: ATTACK_EFFECT_MS },
        reward_given: false,
    }
}

impl CombatSession {
    pub open spec fn wf(self) -> bool {
        &&& self.enemy.wf()
        &&& self.attack_effects.wf()
        &&& self.attack_effects.duration_ms == ATTACK_EFFECT_MS
    }

    /// A fresh session against a newly spawned enemy: the player moves
    /// first, the menu starts on Fight, no reward has been granted.
    pub fn new(enemy_type: EnemyType) -> (s: CombatSession)
        ensures
            s == initial_session_spec(enemy_type),
            s.wf(),
    {
        CombatSession {
            state: CombatState::PlayerTurn,
            enemy_type,
            enemy: enemy_base_stats(enemy_type),
            menu: CombatMenuSelection { selected: CombatMenuOption::Fight },
            attack_effects: AttackEffects::new(ATTACK_EFFECT_MS),
            reward_given: false,
        }
    }
}

/// Damage floored at 0 applied to well-formed stats keeps health in
/// `[0, max_health]`, whatever the attack and defense values are.
pub proof fn lemma_damage_keeps_health_in_range(stats: CombatStats, damage_amount: int)
    requires
        stats.wf(),
        damage_amount >= 0,
    ensures
        damage_spec(damage_amount, stats.defense as int) >= 0,
        0 <= health_after_spec(
            stats.health as int,
            damage_spec(damage_amount, stats.defense as int),
        ) <= stats.max_health,
{
}

} // verus!
