//! The player actor: progression (level and experience), the transient
//! camera-shake trauma value, and the overworld encounter state.

use vstd::prelude::*;
use vstd::arithmetic::power::{
    pow,
    lemma_pow_adds,
    lemma_pow_increases,
    lemma_pow_positive,
};
use vstd::arithmetic::div_mod::{
    lemma_div_is_ordered,
    lemma_div_multiples_vanish,
    lemma_multiply_divide_lt,
};
use crate::combat::CombatStats;

verus! {

/// Highest level the progression can reach. The requirement curve is
/// computed exactly as `(50 * 6^(level-1)) / 5^(level-1)`, and at this
/// level the numerator still fits the machine's 128-bit arithmetic.
pub const MAX_LEVEL: u32 = 48;

/// Experience needed to leave `level`: floor(50 * 1.2^(level-1)),
/// written exactly over the integers as `(50 * 6^(level-1)) / 5^(level-1)`
/// with flooring division. A 20%-compounding curve: 50 xp from level 1,
/// 60 from level 2, 72 from level 3, and so on.
pub open spec fn xp_required_spec(level: int) -> int
    recommends
        level >= 1,
{
    50 * pow(6, (level - 1) as nat) / pow(5, (level - 1) as nat)
}

/// `5^e <= 6^e`: raising the larger base never falls behind.
proof fn lemma_pow5_le_pow6(e: nat)
    ensures
        0 < pow(5, e) <= pow(6, e),
    decreases e,
{
    reveal(pow);
    lemma_pow_positive(5, e);
    if e > 0 {
        lemma_pow5_le_pow6((e - 1) as nat);
        assert(pow(5, e) == 5 * pow(5, (e - 1) as nat));
        assert(pow(6, e) == 6 * pow(6, (e - 1) as nat));
    }
}

/// Ground values of the two powers at the top supported exponent.
proof fn lemma_pow_47_values()
    ensures
        pow(6, 47) == 3742042951225759540014535187298779136,
        pow(5, 47) == 710542735760100185871124267578125,
{
    reveal_with_fuel(pow, 48);
}

/// For exponents up to `MAX_LEVEL - 1`, the scaled numerator of the
/// requirement curve stays below `2^32` times its denominator, so the
/// requirement itself fits comfortably in 32 bits.
proof fn lemma_xp_numerator_bound(n: nat)
    requires
        n <= 47,
    ensures
        50 * pow(6, n) < 0x1_0000_0000 * pow(5, n),
{
    let k = (47 - n) as nat;
    lemma_pow_adds(6, n, k);
    lemma_pow_adds(5, n, k);
    lemma_pow5_le_pow6(k);
    lemma_pow5_le_pow6(n);
    lemma_pow_positive(6, n);
    lemma_pow_positive(6, k);
    lemma_pow_47_values();
    assert(50 * pow(6, 47) < 0x1_0000_0000 * pow(5, 47));
    assert(50 * pow(6, n) < 0x1_0000_0000 * pow(5, n)) by (nonlinear_arith)
        requires
            pow(6, (n + k) as nat) == pow(6, n) * pow(6, k),
            pow(5, (n + k) as nat) == pow(5, n) * pow(5, k),
            0 < pow(5, k) <= pow(6, k),
            0 < pow(5, n),
            0 < pow(6, n),
            0 < pow(6, k),
            50 * pow(6, (n + k) as nat) < 0x1_0000_0000 * pow(5, (n + k) as nat),
    {}
}

/// Bounds of the requirement curve on the supported levels: never
/// below the 50 xp of level 1, and small enough for 32 bits.
pub proof fn lemma_xp_required_bounds(level: int)
    requires
        1 <= level <= MAX_LEVEL,
    ensures
        50 <= xp_required_spec(level) < 0x1_0000_0000,
{
    let n = (level - 1) as nat;
    lemma_pow5_le_pow6(n);
    lemma_pow_positive(5, n);
    lemma_pow_positive(6, n);
    lemma_xp_numerator_bound(n);
    assert(50 * pow(5, n) <= 50 * pow(6, n));
    lemma_div_is_ordered(50 * pow(5, n), 50 * pow(6, n), pow(5, n));
    lemma_div_multiples_vanish(50, pow(5, n));
    assert(0x1_0000_0000 * pow(5, n) == pow(5, n) * 0x1_0000_0000);
    lemma_multiply_divide_lt(50 * pow(6, n), pow(5, n), 0x1_0000_0000);
}

/// Experience needed to leave `level`, computed exactly: the power
/// `6^(level-1)` is built up in 128-bit arithmetic and divided by
/// `5^(level-1)` in one flooring division, so no rounding accumulates.
pub fn xp_required(level: u32) -> (xp: u64)
    requires
        1 <= level <= MAX_LEVEL,
    ensures
        xp == xp_required_spec(level as int),
        50 <= xp < 0x1_0000_0000,
{
    let n = level - 1;
    let mut p6: u128 = 1;
    let mut p5: u128 = 1;
    let mut i: u32 = 0;
    proof {
        reveal(pow);
    }
    while i < n
        invariant
            i <= n <= 47,
            p6 == pow(6, i as nat),
            p5 == pow(5, i as nat),
        decreases n - i,
    {
        proof {
            reveal(pow);
            lemma_pow_increases(6, (i + 1) as nat, 47);
            lemma_pow_increases(5, (i + 1) as nat, 47);
            lemma_pow_47_values();
            assert(pow(6, 47) <= u128::MAX && pow(5, 47) <= u128::MAX);
            assert(pow(6, (i + 1) as nat) == 6 * pow(6, i as nat));
            assert(pow(5, (i + 1) as nat) == 5 * pow(5, i as nat));
            lemma_pow_positive(6, i as nat);
            lemma_pow_positive(5, i as nat);
        }
        p6 = p6 * 6;
        p5 = p5 * 5;
        i = i + 1;
    }
    proof {
        lemma_pow_increases(6, n as nat, 47);
        lemma_pow_47_values();
        assert(50 * pow(6, 47) <= u128::MAX);
        lemma_pow_positive(6, n as nat);
        lemma_pow_positive(5, n as nat);
        lemma_xp_required_bounds(level as int);
    }
    let xp = (50 * p6) / p5;
    xp as u64
}

/// Which kind of ground the player last stepped on, driving footstep
/// presentation; only encounter-enabled ground rolls encounters.
#[derive(Clone, Copy, PartialEq, Eq, Structural, Debug)]
pub enum WalkedGroundType {
    Normal,
    Grass,
}

/// Rolls encounters while the player stands on encounter-enabled
/// ground; `avg_time_us` is the mean time between encounters in
/// microseconds of wall-clock time.
#[derive(Clone, Copy, PartialEq, Eq, Structural, Debug)]
pub struct EncounterTracker {
    pub avg_time_us: u32,
}

/// Mean time between encounters while standing on encounter ground.
pub const ENCOUNTER_AVG_TIME_US: u32 = 1_200_000;

/// One encounter roll: `roll` is a uniform draw over the full `u32`
/// range, standing for the real number `roll / 2^32` in `[0, 1)`. The
/// roll triggers when that fraction of the mean time is shorter than
/// the tick that just passed, so denser zones (small mean) and longer
/// ticks both raise the chance, and the mean time to trigger while
/// standing still converges to `avg_time_us`.
pub open spec fn encounter_roll_triggers_spec(roll: int, avg_time_us: int, elapsed_us: int) -> bool {
    roll * avg_time_us < elapsed_us * 0x1_0000_0000
}

/// Decides one encounter roll, exactly: both sides of the comparison
/// are computed in 64-bit arithmetic, which cannot overflow.
pub fn encounter_roll_triggers(roll: u32, avg_time_us: u32, elapsed_us: u32) -> (triggered: bool)
    ensures
        triggered == encounter_roll_triggers_spec(
            roll as int,
            avg_time_us as int,
            elapsed_us as int,
        ),
{
    let roll_w = roll as u64;
    let avg_w = avg_time_us as u64;
    let elapsed_w = elapsed_us as u64;
    proof {
        assert(roll_w * avg_w <= u64::MAX && elapsed_w * 0x1_0000_0000 <= u64::MAX)
            by (nonlinear_arith)
            requires
                roll_w < 0x1_0000_0000,
                avg_w < 0x1_0000_0000,
                elapsed_w < 0x1_0000_0000,
        {}
    }
    roll_w * avg_w < elapsed_w * 0x1_0000_0000u64
}

/// The player actor's persistent state outside of raw combat stats:
/// control and movement flags, progression, and the transient
/// camera-shake trauma, held in thousandths of a full shake.
#[derive(Clone, Copy, PartialEq, Eq, Structural, Debug)]
pub struct Player {
    /// Whether the player currently accepts movement input.
    pub active: bool,
    /// Whether the player moved during the current tick.
    pub just_moved: bool,
    /// Ground kind of the tile most recently stepped on.
    pub walked_ground_type: WalkedGroundType,
    /// Experience accumulated toward the next level.
    pub exp: u64,
    /// Current level, from 1 up to `MAX_LEVEL`.
    pub level: u32,
    /// Camera-shake intensity in thousandths: 1000 is a full shake.
    pub trauma: u32,
}

/// Full camera shake, in the thousandths `trauma` is measured in.
pub const TRAUMA_FULL: u32 = 1000;

/// A hit dealing at least 35% of the target's current health counts as
/// a big hit and causes a full shake.
pub open spec fn trauma_for_damage_spec(damage: int, health: int) -> int
    recommends
        damage >= 0,
        health >= 0,
{
    if 20 * damage < 7 * health {
        20000 * damage / (7 * health)
    } else {
        1000
    }
}

/// Trauma left after one tick of decay: a full shake dies out in just
/// over 0.7 seconds (1.4 full shakes per second), and whatever is left
/// is clamped into `[0, 1000]`.
pub open spec fn trauma_after_decay_spec(trauma: int, delta_ms: int) -> int
    recommends
        trauma >= 0,
        delta_ms >= 0,
{
    if trauma == 0 {
        0
    } else {
        let dec = 1400 * delta_ms / 1000;
        let left = if dec > trauma {
            0
        } else {
            trauma - dec
        };
        if left > 1000 {
            1000
        } else {
            left
        }
    }
}

impl Player {
    /// Progression stays between level 1 and the supported maximum,
    /// with the experience short of the next threshold (a level-up
    /// never banks more than one level's worth).
    pub open spec fn wf(self) -> bool {
        &&& 1 <= self.level <= MAX_LEVEL
        &&& self.exp < xp_required_spec(self.level as int)
    }

    /// The player as every fresh run starts it: in control, level 1,
    /// no experience, no shake.
    pub open spec fn initial_spec() -> Player {
        Player {
            active: true,
            just_moved: false,
            walked_ground_type: WalkedGroundType::Normal,
            exp: 0,
            level: 1,
            trauma: 0,
        }
    }

    /// Experience needed to go from the current level to the next.
    pub fn xp_required_for_current_level(&self) -> (xp: u64)
        requires
            self.wf(),
        ensures
            xp == xp_required_spec(self.level as int),
            50 <= xp < 0x1_0000_0000,
    {
        xp_required(self.level)
    }

    /// Adds `exp` gained from one reward and resolves at most one
    /// level-up: when the total reaches the current level's threshold,
    /// the threshold is subtracted (the pre-gain level's requirement),
    /// the level rises by one and the stats grow by a flat bonus of
    /// 2 max health (healing those 2 as well), 1 attack and 1 defense.
    /// Overflow experience beyond the one threshold is retained for
    /// the next reward, never cascaded into a second level-up. At
    /// `MAX_LEVEL` progression is frozen and the call changes nothing.
    pub fn level_up(&mut self, exp: u64, stats: &mut CombatStats) -> (leveled: bool)
        requires
            1 <= old(self).level <= MAX_LEVEL,
            old(self).exp + exp <= u64::MAX,
            old(stats).wf(),
            old(stats).max_health + 2 <= u32::MAX,
            old(stats).attack + 1 <= u32::MAX,
            old(stats).defense + 1 <= u32::MAX,
        ensures
            leveled == (old(self).level < MAX_LEVEL && old(self).exp + exp >= xp_required_spec(
                old(self).level as int,
            )),
            old(self).level == MAX_LEVEL ==> *final(self) == *old(self) && *final(stats) == *old(
                stats,
            ),
            old(self).level < MAX_LEVEL && !leveled ==> {
                &&& *final(self) == (Player { exp: (old(self).exp + exp) as u64, ..*old(self) })
                &&& *final(stats) == *old(stats)
            },
            leveled ==> {
                &&& final(self).level == old(self).level + 1
                &&& final(self).exp == old(self).exp + exp - xp_required_spec(
                    old(self).level as int,
                )
                &&& *final(self) == (Player {
                    exp: final(self).exp,
                    level: final(self).level,
                    ..*old(self)
                })
                &&& *final(stats) == (CombatStats {
                    health: (old(stats).health + 2) as u32,
                    max_health: (old(stats).max_health + 2) as u32,
                    attack: (old(stats).attack + 1) as u32,
                    defense: (old(stats).defense + 1) as u32,
                })
            },
            final(stats).wf(),
            1 <= final(self).level <= MAX_LEVEL,
    {
        if self.level == MAX_LEVEL {
            return false;
        }
        self.exp = self.exp + exp;
        let exp_needed = self.xp_required_for_level();
        if self.exp >= exp_needed {
            stats.health = stats.health + 2;
            stats.max_health = stats.max_health + 2;
            stats.attack = stats.attack + 1;
            stats.defense = stats.defense + 1;
            self.exp = self.exp - exp_needed;
            self.level = self.level + 1;
            true
        } else {
            false
        }
    }

    /// Experience threshold of the current level, without assuming the
    /// experience field is below it.
    fn xp_required_for_level(&self) -> (xp: u64)
        requires
            1 <= self.level <= MAX_LEVEL,
        ensures
            xp == xp_required_spec(self.level as int),
    {
        xp_required(self.level)
    }

    /// Raises trauma by `amount` thousandths, saturating rather than
    /// overflowing; the decay step clamps it back into range.
    pub fn add_trauma(&mut self, amount: u32)
        ensures
            final(self).trauma == if old(self).trauma + amount <= u32::MAX {
                old(self).trauma + amount
            } else {
                u32::MAX as int
            },
            *final(self) == (Player { trauma: final(self).trauma, ..*old(self) }),
    {
        if u32::MAX - amount < self.trauma {
            self.trauma = u32::MAX;
        } else {
            self.trauma = self.trauma + amount;
        }
    }

    /// One tick of trauma decay: 1.4 full shakes per second of delta
    /// time, then clamped into `[0, 1000]`.
    pub fn update_trauma(&mut self, delta_ms: u32)
        ensures
            final(self).trauma == trauma_after_decay_spec(old(self).trauma as int, delta_ms as int),
            *final(self) == (Player { trauma: final(self).trauma, ..*old(self) }),
    {
        if self.trauma > 0 {
            let dec_wide = (1400u64 * (delta_ms as u64)) / 1000;
            let left = if dec_wide > self.trauma as u64 {
                0u32
            } else {
                self.trauma - (dec_wide as u32)
            };
            self.trauma = if left > TRAUMA_FULL {
                TRAUMA_FULL
            } else {
                left
            };
        }
    }
}

impl Default for Player {
    /// The fresh-run player.
    fn default() -> (p: Player)
        ensures
            p == Player::initial_spec(),
    {
        Player {
            active: true,
            just_moved: false,
            walked_ground_type: WalkedGroundType::Normal,
            exp: 0,
            level: 1,
            trauma: 0,
        }
    }
}

/// Trauma caused by a hit of `damage` on a target at `health`,
/// in thousandths of a full shake: proportional to the fraction of
/// current health lost, reaching a full shake at 35% or more (or when
/// no health was left to compare against).
pub fn trauma_for_damage(damage: u32, health: u32) -> (t: u32)
    ensures
        t == trauma_for_damage_spec(damage as int, health as int),
        t <= TRAUMA_FULL,
{
    let damage_w = damage as u64;
    let health_w = health as u64;
    if 20 * damage_w < 7 * health_w {
        let t = (20000 * damage_w) / (7 * health_w);
        proof {
            lemma_multiply_divide_lt(20000 * damage as int, 7 * health as int, 1000);
        }
        t as u32
    } else {
        TRAUMA_FULL
    }
}

} // verus!
