//! The top-level session controller: the start-menu / overworld /
//! combat mode switch, ownership of the player's stats and progression
//! across mode boundaries, and the per-tick combat orchestration.

use vstd::prelude::*;
use crate::combat::{
    AttackEvent,
    AttackTarget,
    CombatMenuOption,
    CombatMenuSelection,
    CombatSession,
    CombatState,
    CombatStats,
    compute_damage,
    damage_spec,
    exp_reward,
    exp_reward_spec,
    health_after_spec,
    initial_session_spec,
    selection_after_input_spec,
    state_after_attack,
    state_after_attack_spec,
    ATTACK_EFFECT_MS,
};
use crate::player::{
    encounter_roll_triggers,
    encounter_roll_triggers_spec,
    lemma_xp_required_bounds,
    trauma_for_damage,
    trauma_for_damage_spec,
    xp_required_spec,
    EncounterTracker,
    Player,
    WalkedGroundType,
    ENCOUNTER_AVG_TIME_US,
    MAX_LEVEL,
};
use crate::rng::random_u32;

verus! {

/// The three top-level game modes.
#[derive(Clone, Copy, PartialEq, Eq, Structural, Debug)]
pub enum GameState {
    StartMenu,
    Overworld,
    Combat,
}

/// A level-up announcement for the interface layer.
#[derive(Clone, Copy, PartialEq, Eq, Structural, Debug)]
pub struct LevelupEvent {
    pub new_level: u32,
}

/// Progress toward the next level for the interface layer's
/// experience bar: `exp` out of `xp_required` has been earned.
#[derive(Clone, Copy, PartialEq, Eq, Structural, Debug)]
pub struct ExpReceivedEvent {
    pub exp: u64,
    pub xp_required: u64,
}

/// Everything one combat reward produced, for display.
#[derive(Clone, Copy, PartialEq, Eq, Structural, Debug)]
pub struct RewardOutcome {
    pub exp_gained: u64,
    pub leveled_up: bool,
    pub levelup: Option<LevelupEvent>,
    pub exp_received: ExpReceivedEvent,
}

/// The whole game: current mode, the player actor that persists across
/// modes, and the combat session that exists exactly while the mode is
/// `Combat`.
pub struct GameSession {
    pub mode: GameState,
    pub player: Player,
    pub stats: CombatStats,
    pub tracker: EncounterTracker,
    pub combat: Option<CombatSession>,
}

impl GameSession {
    /// The combat session; meaningful only while the mode is `Combat`.
    pub open spec fn csession(self) -> CombatSession {
        self.combat->Some_0
    }

    /// Session invariant: a combat session exists exactly in combat
    /// mode, player and enemy stats are well formed, and the player's
    /// stats are exactly the starting stats plus the flat per-level
    /// bonus, which also bounds them far away from overflow.
    pub open spec fn wf(self) -> bool {
        &&& (self.mode == GameState::Combat) <==> (self.combat is Some)
        &&& (self.combat is Some ==> self.csession().wf())
        &&& self.stats.wf()
        &&& self.player.wf()
        &&& self.stats.max_health == 8 + 2 * self.player.level
        &&& self.stats.attack == 1 + self.player.level
        &&& self.stats.defense == self.player.level
    }

    /// The game as it stands on the start menu of a fresh run.
    pub open spec fn initial_spec() -> GameSession {
        GameSession {
            mode: GameState::StartMenu,
            player: Player::initial_spec(),
            stats: CombatStats { health: 10, max_health: 10, attack: 2, defense: 1 },
            tracker: EncounterTracker { avg_time_us: ENCOUNTER_AVG_TIME_US },
            combat: None,
        }
    }

    /// A fresh game, sitting on the start menu.
    pub fn new() -> (s: GameSession)
        ensures
            s == GameSession::initial_spec(),
            s.wf(),
    {
        proof {
            lemma_xp_required_bounds(1);
        }
        GameSession {
            mode: GameState::StartMenu,
            player: Player::default(),
            stats: CombatStats { health: 10, max_health: 10, attack: 2, defense: 1 },
            tracker: EncounterTracker { avg_time_us: ENCOUNTER_AVG_TIME_US },
            combat: None,
        }
    }

    /// Leaves the start menu for the overworld. The run starts from
    /// scratch: whatever progression an earlier run left behind, the
    /// player begins at level 1 with no experience and full starting
    /// health.
    pub fn start_game(&mut self)
        requires
            old(self).mode == GameState::StartMenu,
        ensures
            final(self).wf(),
            *final(self) == (GameSession { mode: GameState::Overworld, ..GameSession::initial_spec() }),
    {
        proof {
            lemma_xp_required_bounds(1);
        }
        self.mode = GameState::Overworld;
        self.player = Player::default();
        self.stats = CombatStats { health: 10, max_health: 10, attack: 2, defense: 1 };
        self.tracker = EncounterTracker { avg_time_us: ENCOUNTER_AVG_TIME_US };
        self.combat = None;
    }

    /// Returns to the start menu, allowed from the overworld or from
    /// the terminal `Dead` combat state, and performs the full game
    /// reset: every piece of session and progression state goes back
    /// to its fresh-run value.
    pub fn return_to_menu(&mut self)
        requires
            old(self).mode == GameState::Overworld || (old(self).mode == GameState::Combat
                && old(self).combat is Some && old(self).csession().state == CombatState::Dead),
        ensures
            final(self).wf(),
            *final(self) == GameSession::initial_spec(),
    {
        proof {
            lemma_xp_required_bounds(1);
        }
        self.mode = GameState::StartMenu;
        self.player = Player::default();
        self.stats = CombatStats { health: 10, max_health: 10, attack: 2, defense: 1 };
        self.tracker = EncounterTracker { avg_time_us: ENCOUNTER_AVG_TIME_US };
        self.combat = None;
    }

    /// One overworld tick of encounter checking, after movement. A
    /// player who just moved has the ground classified (encounter
    /// ground reads as grass); on encounter ground one roll decides
    /// whether combat begins, and a triggering roll takes control away
    /// from the player while the transition plays. The roll is a
    /// uniform draw over the full `u32` range.
    pub fn player_encounter_checking(
        &mut self,
        on_encounter_ground: bool,
        roll: u32,
        elapsed_us: u32,
    ) -> (triggered: bool)
        requires
            old(self).wf(),
            old(self).mode == GameState::Overworld,
        ensures
            final(self).wf(),
            triggered == (old(self).player.just_moved && on_encounter_ground
                && encounter_roll_triggers_spec(
                roll as int,
                old(self).tracker.avg_time_us as int,
                elapsed_us as int,
            )),
            *final(self) == (GameSession {
                player: Player {
                    active: old(self).player.active && !triggered,
                    walked_ground_type: if old(self).player.just_moved {
                        if on_encounter_ground {
                            WalkedGroundType::Grass
                        } else {
                            WalkedGroundType::Normal
                        }
                    } else {
                        old(self).player.walked_ground_type
                    },
                    ..old(self).player
                },
                ..*old(self)
            }),
    {
        if self.player.just_moved && on_encounter_ground {
            self.player.walked_ground_type = WalkedGroundType::Grass;
            if encounter_roll_triggers(roll, self.tracker.avg_time_us, elapsed_us) {
                self.player.active = false;
                return true;
            }
        } else if self.player.just_moved {
            self.player.walked_ground_type = WalkedGroundType::Normal;
        }
        false
    }

    /// As `player_encounter_checking`, with the roll drawn from the
    /// crate's random source; everything that does not depend on the
    /// roll is promised of every outcome.
    pub fn player_encounter_checking_random(
        &mut self,
        on_encounter_ground: bool,
        elapsed_us: u32,
    ) -> (triggered: bool)
        requires
            old(self).wf(),
            old(self).mode == GameState::Overworld,
        ensures
            final(self).wf(),
            triggered ==> old(self).player.just_moved && on_encounter_ground,
            *final(self) == (GameSession {
                player: Player {
                    active: old(self).player.active && !triggered,
                    walked_ground_type: if old(self).player.just_moved {
                        if on_encounter_ground {
                            WalkedGroundType::Grass
                        } else {
                            WalkedGroundType::Normal
                        }
                    } else {
                        old(self).player.walked_ground_type
                    },
                    ..old(self).player
                },
                ..*old(self)
            }),
    {
        let roll = random_u32();
        self.player_encounter_checking(on_encounter_ground, roll, elapsed_us)
    }

    /// Enters combat mode: the overworld pauses (the player actor and
    /// its stats stay as they are) and a fresh combat session starts
    /// against the enemy archetype picked by `enemy_roll`, with the
    /// player to move first.
    pub fn start_combat(&mut self, enemy_roll: u32)
        requires
            old(self).wf(),
            old(self).mode == GameState::Overworld,
        ensures
            final(self).wf(),
            *final(self) == (GameSession {
                mode: GameState::Combat,
                combat: Some(
                    initial_session_spec(crate::combat::enemy_type_for_roll_spec(enemy_roll)),
                ),
                ..*old(self)
            }),
    {
        let enemy_type = crate::combat::enemy_type_for_roll(enemy_roll);
        self.mode = GameState::Combat;
        self.combat = Some(CombatSession::new(enemy_type));
    }

    /// As `start_combat`, with the archetype roll drawn from the
    /// crate's random source: whatever the draw, the session starts
    /// fresh against one of the archetypes.
    pub fn start_combat_random(&mut self)
        requires
            old(self).wf(),
            old(self).mode == GameState::Overworld,
        ensures
            final(self).wf(),
            final(self).combat is Some,
            final(self).csession() == initial_session_spec(final(self).csession().enemy_type),
            *final(self) == (GameSession {
                mode: GameState::Combat,
                combat: final(self).combat,
                ..*old(self)
            }),
    {
        let roll = random_u32();
        self.start_combat(roll);
    }

    /// One tick of combat input during the player's turn: left/right
    /// move the two-entry menu, and confirm commits the highlighted
    /// entry. Fight hands back the player's attack as a pending event
    /// (to be applied by `process_attack`); Run flees, tearing the
    /// whole session down immediately and resuming the overworld with
    /// the player back in control.
    pub fn combat_input(&mut self, left: bool, right: bool, confirm: bool) -> (attack: Option<
        AttackEvent,
    >)
        requires
            old(self).wf(),
            old(self).mode == GameState::Combat,
            old(self).csession().state == CombatState::PlayerTurn,
        ensures
            final(self).wf(),
            ({
                let chosen = selection_after_input_spec(
                    old(self).csession().menu.selected,
                    left,
                    right,
                );
                &&& (confirm && chosen == CombatMenuOption::Run) ==> {
                    &&& *final(self) == (GameSession {
                        mode: GameState::Overworld,
                        player: Player { active: true, ..old(self).player },
                        combat: None,
                        ..*old(self)
                    })
                    &&& attack is None
                }
                &&& !(confirm && chosen == CombatMenuOption::Run) ==> *final(self) == (GameSession {
                    combat: Some(
                        CombatSession {
                            menu: CombatMenuSelection { selected: chosen },
                            ..old(self).csession()
                        },
                    ),
                    ..*old(self)
                })
                &&& (confirm && chosen == CombatMenuOption::Fight) ==> attack == Some(
                    AttackEvent {
                        target: AttackTarget::Enemy,
                        damage_amount: old(self).stats.attack,
                        next_state: CombatState::PlayerAttack,
                    },
                )
                &&& !confirm ==> attack is None
            }),
    {
        let mut c = self.combat.unwrap();
        c.menu.move_selection(left, right);
        if confirm {
            match c.menu.selected {
                CombatMenuOption::Fight => {
                    let attack = AttackEvent {
                        target: AttackTarget::Enemy,
                        damage_amount: self.stats.attack,
                        next_state: CombatState::PlayerAttack,
                    };
                    self.combat = Some(c);
                    Some(attack)
                },
                CombatMenuOption::Run => {
                    self.combat = None;
                    self.mode = GameState::Overworld;
                    self.player.active = true;
                    None
                },
            }
        } else {
            self.combat = Some(c);
            None
        }
    }

    /// Applies one pending attack to its target. The raw amount is
    /// reduced by the target's defense (floored at 0, never healing),
    /// health drops with a floor at 0, and the session moves to the
    /// attacker's requested next state unless the target fell, which
    /// overrides it with `Dead` (player) or `Reward` (enemy). A hit on
    /// the player also shakes the camera in proportion to the health
    /// fraction lost.
    pub fn process_attack(&mut self, attack: AttackEvent)
        requires
            old(self).wf(),
            old(self).mode == GameState::Combat,
        ensures
            final(self).wf(),
            attack.target == AttackTarget::Enemy ==> {
                let health_left = health_after_spec(
                    old(self).csession().enemy.health as int,
                    damage_spec(
                        attack.damage_amount as int,
                        old(self).csession().enemy.defense as int,
                    ),
                );
                *final(self) == (GameSession {
                    combat: Some(
                        CombatSession {
                            state: state_after_attack_spec(
                                AttackTarget::Enemy,
                                health_left,
                                attack.next_state,
                            ),
                            enemy: CombatStats {
                                health: health_left as u32,
                                ..old(self).csession().enemy
                            },
                            ..old(self).csession()
                        },
                    ),
                    ..*old(self)
                })
            },
            attack.target == AttackTarget::Player ==> {
                let damage = damage_spec(attack.damage_amount as int, old(self).stats.defense as int);
                let health_left = health_after_spec(old(self).stats.health as int, damage);
                let shake = trauma_for_damage_spec(damage, old(self).stats.health as int);
                *final(self) == (GameSession {
                    stats: CombatStats { health: health_left as u32, ..old(self).stats },
                    player: Player {
                        trauma: if old(self).player.trauma + shake <= u32::MAX {
                            (old(self).player.trauma + shake) as u32
                        } else {
                            u32::MAX
                        },
                        ..old(self).player
                    },
                    combat: Some(
                        CombatSession {
                            state: state_after_attack_spec(
                                AttackTarget::Player,
                                health_left,
                                attack.next_state,
                            ),
                            ..old(self).csession()
                        },
                    ),
                    ..*old(self)
                })
            },
    {
        let mut c = self.combat.unwrap();
        match attack.target {
            AttackTarget::Enemy => {
                c.enemy.apply_damage(attack.damage_amount);
                c.state = state_after_attack(AttackTarget::Enemy, c.enemy.health, attack.next_state);
            },
            AttackTarget::Player => {
                let resulting_damage = compute_damage(attack.damage_amount, self.stats.defense);
                let shake = trauma_for_damage(resulting_damage, self.stats.health);
                self.player.add_trauma(shake);
                self.stats.apply_damage(attack.damage_amount);
                c.state = state_after_attack(
                    AttackTarget::Player,
                    self.stats.health,
                    attack.next_state,
                );
            },
        }
        self.combat = Some(c);
    }

    /// The enemy's one attack decision of the turn: fires exactly once
    /// per cycle, handing back the enemy's attack as a pending event
    /// against the player, and marks the decision as taken so a
    /// repeated tick in the same state cannot fire it twice.
    pub fn process_enemy_turn(&mut self) -> (attack: AttackEvent)
        requires
            old(self).wf(),
            old(self).mode == GameState::Combat,
            old(self).csession().state == CombatState::EnemyDeciding,
        ensures
            final(self).wf(),
            *final(self) == (GameSession {
                combat: Some(
                    CombatSession { state: CombatState::EnemyDecided, ..old(self).csession() },
                ),
                ..*old(self)
            }),
            attack == (AttackEvent {
                target: AttackTarget::Player,
                damage_amount: old(self).csession().enemy.attack,
                next_state: CombatState::EnemyAttack,
            }),
    {
        let mut c = self.combat.unwrap();
        let attack = AttackEvent {
            target: AttackTarget::Player,
            damage_amount: c.enemy.attack,
            next_state: CombatState::EnemyAttack,
        };
        c.state = CombatState::EnemyDecided;
        self.combat = Some(c);
        attack
    }

    /// Paces the transient attack-effect states: the effect timer
    /// accumulates delta time, and when the effect duration elapses
    /// the session leaves `PlayerAttack` for the enemy's turn, or
    /// `EnemyAttack` back to the player's turn.
    pub fn handle_attack_effects(&mut self, delta_ms: u32) -> (finished: bool)
        requires
            old(self).wf(),
            old(self).mode == GameState::Combat,
            old(self).csession().state == CombatState::PlayerAttack || old(
                self,
            ).csession().state == CombatState::EnemyAttack,
            delta_ms + ATTACK_EFFECT_MS <= u32::MAX,
        ensures
            final(self).wf(),
            finished == (old(self).csession().attack_effects.elapsed_ms + delta_ms
                >= ATTACK_EFFECT_MS),
            *final(self) == (GameSession {
                combat: Some(
                    CombatSession {
                        state: if !finished {
                            old(self).csession().state
                        } else if old(self).csession().state == CombatState::PlayerAttack {
                            CombatState::EnemyDeciding
                        } else {
                            CombatState::PlayerTurn
                        },
                        attack_effects: final(self).csession().attack_effects,
                        ..old(self).csession()
                    },
                ),
                ..*old(self)
            }),
            final(self).csession().attack_effects.elapsed_ms == (old(
                self,
            ).csession().attack_effects.elapsed_ms + delta_ms) % (ATTACK_EFFECT_MS as int),
    {
        let mut c = self.combat.unwrap();
        let finished = c.attack_effects.tick(delta_ms);
        if finished {
            c.state = match c.state {
                CombatState::PlayerAttack => CombatState::EnemyDeciding,
                _ => CombatState::PlayerTurn,
            };
        }
        self.combat = Some(c);
        finished
    }

    /// Grants the defeated enemy's experience payout, exactly once per
    /// session, resolving at most one level-up; hands back everything
    /// the interface needs to announce it. The session stays in
    /// `Reward` until the player acknowledges.
    pub fn give_reward(&mut self) -> (outcome: RewardOutcome)
        requires
            old(self).wf(),
            old(self).mode == GameState::Combat,
            old(self).csession().state == CombatState::Reward,
            !old(self).csession().reward_given,
        ensures
            final(self).wf(),
            ({
                let gained = exp_reward_spec(old(self).csession().enemy_type);
                let threshold = xp_required_spec(old(self).player.level as int);
                let leveled = old(self).player.level < MAX_LEVEL && old(self).player.exp + gained
                    >= threshold;
                &&& outcome.exp_gained == gained
                &&& outcome.leveled_up == leveled
                &&& leveled ==> {
                    &&& final(self).player.level == old(self).player.level + 1
                    &&& final(self).player.exp == old(self).player.exp + gained - threshold
                    &&& final(self).stats == (CombatStats {
                        health: (old(self).stats.health + 2) as u32,
                        max_health: (old(self).stats.max_health + 2) as u32,
                        attack: (old(self).stats.attack + 1) as u32,
                        defense: (old(self).stats.defense + 1) as u32,
                    })
                    &&& outcome.levelup == Some(
                        LevelupEvent { new_level: (old(self).player.level + 1) as u32 },
                    )
                }
                &&& (!leveled && old(self).player.level < MAX_LEVEL) ==> {
                    &&& final(self).player.exp == old(self).player.exp + gained
                    &&& final(self).player.level == old(self).player.level
                    &&& final(self).stats == old(self).stats
                    &&& outcome.levelup is None
                }
                &&& old(self).player.level == MAX_LEVEL ==> {
                    &&& final(self).player == old(self).player
                    &&& final(self).stats == old(self).stats
                    &&& outcome.levelup is None
                }
                &&& outcome.exp_received == (ExpReceivedEvent {
                    exp: final(self).player.exp,
                    xp_required: final(self).player.exp_required(),
                })
                &&& *final(self) == (GameSession {
                    player: final(self).player,
                    stats: final(self).stats,
                    combat: Some(CombatSession { reward_given: true, ..old(self).csession() }),
                    ..*old(self)
                })
            }),
    {
        let mut c = self.combat.unwrap();
        let gained = exp_reward(c.enemy_type);
        proof {
            lemma_xp_required_bounds(self.player.level as int);
        }
        let leveled_up = self.player.level_up(gained, &mut self.stats);
        proof {
            if leveled_up {
                lemma_xp_required_bounds(self.player.level as int);
            }
        }
        c.reward_given = true;
        self.combat = Some(c);
        let xp_required = self.player.xp_required_for_current_level();
        RewardOutcome {
            exp_gained: gained,
            leveled_up,
            levelup: if leveled_up {
                Some(LevelupEvent { new_level: self.player.level })
            } else {
                None
            },
            exp_received: ExpReceivedEvent { exp: self.player.exp, xp_required },
        }
    }

    /// The player's acknowledgment of the reward summary: tears the
    /// combat session down and resumes the paused overworld with the
    /// player back in control, progression and stats carried along.
    pub fn acknowledge_reward(&mut self)
        requires
            old(self).wf(),
            old(self).mode == GameState::Combat,
            old(self).csession().state == CombatState::Reward,
            old(self).csession().reward_given,
        ensures
            final(self).wf(),
            *final(self) == (GameSession {
                mode: GameState::Overworld,
                player: Player { active: true, ..old(self).player },
                combat: None,
                ..*old(self)
            }),
    {
        self.combat = None;
        self.mode = GameState::Overworld;
        self.player.active = true;
    }

    /// The healer's offer in the overworld: a hurt player is restored
    /// to full health; an unhurt one is sent away (the report says
    /// which text the healer speaks).
    pub fn heal_player(&mut self) -> (was_hurt: bool)
        requires
            old(self).wf(),
            old(self).mode == GameState::Overworld,
        ensures
            final(self).wf(),
            was_hurt == (old(self).stats.health < old(self).stats.max_health),
            *final(self) == (GameSession {
                stats: CombatStats { health: old(self).stats.max_health, ..old(self).stats },
                ..*old(self)
            }),
    {
        self.stats.heal_to_full()
    }
}

impl Player {
    /// Experience threshold of the player's current level, as a spec
    /// value (what `xp_required_for_current_level` computes).
    pub open spec fn exp_required(self) -> u64 {
        xp_required_spec(self.level as int) as u64
    }
}

/// The full-reset law: `return_to_menu` ensures the session equals
/// `initial_spec()` whatever state the run had reached, and
/// `start_game` from there changes the mode alone, so a fresh run
/// always begins at level 1 with no experience and the full starting
/// health of 10 — this pins those values of the initial state down.
pub proof fn lemma_fresh_run_starting_values()
    ensures
        GameSession::initial_spec().player == Player::initial_spec(),
        GameSession::initial_spec().player.level == 1,
        GameSession::initial_spec().player.exp == 0,
        GameSession::initial_spec().stats.health == 10,
        GameSession::initial_spec().stats.health == GameSession::initial_spec().stats.max_health,
        GameSession::initial_spec().combat is None,
{
}

} // verus!
