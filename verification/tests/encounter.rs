//! The stochastic encounter trigger.

use rpg_core::player::{encounter_roll_triggers, ENCOUNTER_AVG_TIME_US};

/// Deterministic pseudo-random rolls for the statistical check.
struct Lcg(u64);

impl Lcg {
    fn next_u32(&mut self) -> u32 {
        self.0 = self
            .0
            .wrapping_mul(6364136223846793005)
            .wrapping_add(1442695040888963407);
        (self.0 >> 32) as u32
    }
}

#[test]
fn trigger_threshold_is_exact() {
    // With the mean at 1.2 s and a 16 ms tick, a roll triggers exactly
    // when roll/2^32 * 1_200_000 < 16_000, i.e. roll < 2^32 / 75.
    let avg = 1_200_000u32;
    let elapsed = 16_000u32;
    // Smallest roll that misses: ceil(2^32 * elapsed / avg).
    let first_miss = (((1u64 << 32) * elapsed as u64 + avg as u64 - 1) / avg as u64) as u32;
    assert_eq!(first_miss, 57_266_231);
    assert!(encounter_roll_triggers(0, avg, elapsed));
    assert!(encounter_roll_triggers(first_miss - 1, avg, elapsed));
    assert!(!encounter_roll_triggers(first_miss, avg, elapsed));
    assert!(!encounter_roll_triggers(u32::MAX, avg, elapsed));
}

#[test]
fn zero_elapsed_time_never_triggers() {
    assert!(!encounter_roll_triggers(0, ENCOUNTER_AVG_TIME_US, 0));
    assert!(!encounter_roll_triggers(u32::MAX, ENCOUNTER_AVG_TIME_US, 0));
}

#[test]
fn zero_mean_time_always_triggers() {
    // A degenerate zone with mean 0 triggers on any positive tick.
    assert!(encounter_roll_triggers(u32::MAX, 0, 1));
}

#[test]
fn mean_time_between_triggers_approaches_the_configured_mean() {
    // Standing on encounter ground with 16 ms ticks and a 1.2 s mean,
    // the per-tick trigger probability is 16 ms / 1.2 s = 1/75, so the
    // mean time between triggers over many seeded draws should come
    // out near 1.2 s.
    let avg = ENCOUNTER_AVG_TIME_US;
    let elapsed = 16_000;
    let ticks = 1_500_000u64;
    let mut rng = Lcg(42);
    let mut triggers = 0u64;
    for _ in 0..ticks {
        if encounter_roll_triggers(rng.next_u32(), avg, elapsed) {
            triggers += 1;
        }
    }
    assert!(triggers > 0);
    let mean_us = (ticks * elapsed as u64) as f64 / triggers as f64;
    // Within 5% of 1.2 s over 1.5 million ticks (about 20k triggers).
    assert!(mean_us > 1_140_000.0, "mean inter-trigger time {} too small", mean_us);
    assert!(mean_us < 1_260_000.0, "mean inter-trigger time {} too large", mean_us);
}
