//! Global difficulty and timing state, advanced once per frame.

use crate::events::GameEvent;
use crate::timer::{Timer, TimerMode};
use vstd::prelude::*;

verus! {

/// Interval of the ambient enemy spawn timer.
pub const ENEMY_SPAWN_INTERVAL_MS: u64 = 5_000;

/// Grace window after a wave during which ambient spawning is suppressed.
pub const PEACE_DURATION_MS: u64 = 30_000;

/// Distance from the origin, in world units, at which enemies appear.
pub const ENEMY_SPAWN_DISTANCE: u64 = 100;

/// Starting value of both difficulty multipliers (tenths, so 1.0).
pub const START_MULT_TENTHS: u32 = 10;

/// Per-cycle increase of the spawn-rate multiplier, in tenths.
pub const SPAWN_RATE_STEP_TENTHS: u32 = 2;

/// Per-cycle increase of the damage multiplier, in tenths.
pub const DAMAGE_STEP_TENTHS: u32 = 1;

/// Cap on either multiplier (tenths); far beyond any reachable cycle, it
/// keeps the scaled timer arithmetic within 64 bits.
pub const MULT_CAP_TENTHS: u32 = 1_000_000;

/// Largest frame delta the tick accepts, in milliseconds.
pub const MAX_FRAME_DELTA_MS: u64 = 1_000_000;

/// Distance at which a replacement asteroid first spawns, in world units.
pub const ASTEROID_SPAWN_DISTANCE_START: u64 = 100;

/// How much farther out each later replacement asteroid spawns.
pub const ASTEROID_SPAWN_DISTANCE_STEP: u64 = 10;

/// Cap on the asteroid spawn distance, in world units, so positions stay
/// within the world's coordinate bound.
pub const ASTEROID_SPAWN_DISTANCE_CAP: u64 = 900_000;

/// Global gameplay state: session and phase clocks, the ambient spawn and
/// peace timers, the difficulty multipliers and the cycle counter.
pub struct GameplayManager {
    pub enemy_spawn_timer: Timer,
    pub peace_timer: Timer,
    pub enemy_spawn_rate_multiplier_tenths: u32,
    pub enemy_damage_multiplier_tenths: u32,
    pub elapsed_time_ms: u64,
    pub current_phase_time_ms: u64,
    pub asteroid_spawn_distance: u64,
    pub cycle: u32,
}

impl GameplayManager {
    pub open spec fn wf(self) -> bool {
        &&& self.enemy_spawn_timer.wf()
        &&& self.enemy_spawn_timer.spec_mode() == TimerMode::Repeating
        &&& self.enemy_spawn_timer.spec_duration() == ENEMY_SPAWN_INTERVAL_MS
        &&& self.peace_timer.wf()
        &&& self.peace_timer.spec_mode() == TimerMode::Once
        &&& self.peace_timer.spec_duration() == PEACE_DURATION_MS
        &&& START_MULT_TENTHS <= self.enemy_spawn_rate_multiplier_tenths <= MULT_CAP_TENTHS
        &&& START_MULT_TENTHS <= self.enemy_damage_multiplier_tenths <= MULT_CAP_TENTHS
        &&& self.asteroid_spawn_distance <= ASTEROID_SPAWN_DISTANCE_CAP
    }

    /// The session-start state: multipliers at 1.0, clocks at zero, the
    /// peace window open (no grace period yet to suppress ambient spawns).
    pub fn new() -> (m: GameplayManager)
        ensures
            m.wf(),
            m.enemy_spawn_rate_multiplier_tenths == START_MULT_TENTHS,
            m.enemy_damage_multiplier_tenths == START_MULT_TENTHS,
            m.elapsed_time_ms == 0,
            m.current_phase_time_ms == 0,
            m.asteroid_spawn_distance == ASTEROID_SPAWN_DISTANCE_START,
            m.cycle == 0,
            m.enemy_spawn_timer.spec_elapsed() == 0,
            m.enemy_spawn_timer.spec_duration() == ENEMY_SPAWN_INTERVAL_MS,
            !m.enemy_spawn_timer.spec_just_finished(),
            m.peace_timer.spec_elapsed() == 0,
            m.peace_timer.spec_duration() == PEACE_DURATION_MS,
            !m.peace_timer.spec_finished(),
    {
        GameplayManager {
            enemy_spawn_timer: Timer::from_ms(ENEMY_SPAWN_INTERVAL_MS, TimerMode::Repeating),
            peace_timer: Timer::from_ms(PEACE_DURATION_MS, TimerMode::Once),
            enemy_spawn_rate_multiplier_tenths: START_MULT_TENTHS,
            enemy_damage_multiplier_tenths: START_MULT_TENTHS,
            elapsed_time_ms: 0,
            current_phase_time_ms: 0,
            asteroid_spawn_distance: ASTEROID_SPAWN_DISTANCE_START,
            cycle: 0,
        }
    }

    /// Restore the session-start state.
    pub fn reset(&mut self)
        ensures
            final(self).wf(),
            final(self).cycle == 0,
            final(self).enemy_spawn_rate_multiplier_tenths == START_MULT_TENTHS,
            final(self).enemy_damage_multiplier_tenths == START_MULT_TENTHS,
            final(self).elapsed_time_ms == 0,
            final(self).current_phase_time_ms == 0,
            final(self).asteroid_spawn_distance == ASTEROID_SPAWN_DISTANCE_START,
            final(self).enemy_spawn_timer.spec_elapsed() == 0,
            final(self).enemy_spawn_timer.spec_duration() == ENEMY_SPAWN_INTERVAL_MS,
            !final(self).enemy_spawn_timer.spec_just_finished(),
            final(self).peace_timer.spec_elapsed() == 0,
            final(self).peace_timer.spec_duration() == PEACE_DURATION_MS,
            !final(self).peace_timer.spec_finished(),
    {
        *self = GameplayManager::new();
    }

    /// A full phase cycle has passed: raise both difficulty multipliers by
    /// their fixed steps (multipliers never decrease), restart the peace
    /// window, and count the cycle.
    pub fn new_cycle(&mut self)
        requires
            old(self).wf(),
        ensures
            final(self).wf(),
            final(self).enemy_spawn_rate_multiplier_tenths == (if old(
                self,
            ).enemy_spawn_rate_multiplier_tenths + SPAWN_RATE_STEP_TENTHS <= MULT_CAP_TENTHS {
                old(self).enemy_spawn_rate_multiplier_tenths + SPAWN_RATE_STEP_TENTHS
            } else {
                MULT_CAP_TENTHS as int
            }),
            final(self).enemy_damage_multiplier_tenths == (if old(
                self,
            ).enemy_damage_multiplier_tenths + DAMAGE_STEP_TENTHS <= MULT_CAP_TENTHS {
                old(self).enemy_damage_multiplier_tenths + DAMAGE_STEP_TENTHS
            } else {
                MULT_CAP_TENTHS as int
            }),
            final(self).enemy_spawn_rate_multiplier_tenths >= old(
                self,
            ).enemy_spawn_rate_multiplier_tenths,
            final(self).enemy_damage_multiplier_tenths >= old(self).enemy_damage_multiplier_tenths,
            final(self).cycle == (if old(self).cycle < u32::MAX {
                old(self).cycle + 1
            } else {
                u32::MAX as int
            }),
            final(self).peace_timer.spec_elapsed() == 0,
            !final(self).peace_timer.spec_finished(),
            final(self).peace_timer.spec_duration() == old(self).peace_timer.spec_duration(),
            final(self).enemy_spawn_timer == old(self).enemy_spawn_timer,
            final(self).elapsed_time_ms == old(self).elapsed_time_ms,
            final(self).current_phase_time_ms == old(self).current_phase_time_ms,
            final(self).asteroid_spawn_distance == old(self).asteroid_spawn_distance,
    {
        if self.enemy_spawn_rate_multiplier_tenths + SPAWN_RATE_STEP_TENTHS <= MULT_CAP_TENTHS {
            self.enemy_spawn_rate_multiplier_tenths = self.enemy_spawn_rate_multiplier_tenths
                + SPAWN_RATE_STEP_TENTHS;
        } else {
            self.enemy_spawn_rate_multiplier_tenths = MULT_CAP_TENTHS;
        }
        if self.enemy_damage_multiplier_tenths + DAMAGE_STEP_TENTHS <= MULT_CAP_TENTHS {
            self.enemy_damage_multiplier_tenths = self.enemy_damage_multiplier_tenths
                + DAMAGE_STEP_TENTHS;
        } else {
            self.enemy_damage_multiplier_tenths = MULT_CAP_TENTHS;
        }
        self.peace_timer.reset();
        if self.cycle < u32::MAX {
            self.cycle = self.cycle + 1;
        }
    }

    /// Open a fresh grace window: ambient spawning stays suppressed until
    /// the peace timer runs out again.
    pub fn stop_spawning(&mut self)
        requires
            old(self).wf(),
        ensures
            final(self).wf(),
            final(self).peace_timer.spec_elapsed() == 0,
            !final(self).peace_timer.spec_finished(),
            final(self).peace_timer.spec_duration() == old(self).peace_timer.spec_duration(),
            final(self).enemy_spawn_timer == old(self).enemy_spawn_timer,
            final(self).enemy_spawn_rate_multiplier_tenths == old(
                self,
            ).enemy_spawn_rate_multiplier_tenths,
            final(self).enemy_damage_multiplier_tenths == old(self).enemy_damage_multiplier_tenths,
            final(self).elapsed_time_ms == old(self).elapsed_time_ms,
            final(self).current_phase_time_ms == old(self).current_phase_time_ms,
            final(self).asteroid_spawn_distance == old(self).asteroid_spawn_distance,
            final(self).cycle == old(self).cycle,
    {
        self.peace_timer.reset();
    }

    /// Advance the clocks by the frame delta. The ambient spawn timer runs
    /// faster as the spawn-rate multiplier grows (its delta is scaled by the
    /// multiplier); the peace timer runs unscaled.
    pub fn tick_time(&mut self, delta_ms: u64)
        requires
            old(self).wf(),
            delta_ms <= MAX_FRAME_DELTA_MS,
            old(self).elapsed_time_ms + delta_ms <= u64::MAX,
            old(self).current_phase_time_ms + delta_ms <= u64::MAX,
        ensures
            final(self).wf(),
            final(self).elapsed_time_ms == old(self).elapsed_time_ms + delta_ms,
            final(self).current_phase_time_ms == old(self).current_phase_time_ms + delta_ms,
            final(self).enemy_spawn_timer.spec_just_finished() == (old(
                self,
            ).enemy_spawn_timer.spec_elapsed() + delta_ms * old(
                self,
            ).enemy_spawn_rate_multiplier_tenths / 10 >= old(self).enemy_spawn_timer.spec_duration()),
            final(self).peace_timer.spec_finished() == (old(self).peace_timer.spec_elapsed()
                + delta_ms >= PEACE_DURATION_MS),
            // The timers accumulate across frames: the spawn timer advances
            // by the multiplier-scaled delta and wraps at its interval; the
            // peace timer advances unscaled and caps at its duration.
            final(self).enemy_spawn_timer.spec_elapsed() == (old(
                self,
            ).enemy_spawn_timer.spec_elapsed() + delta_ms * old(
                self,
            ).enemy_spawn_rate_multiplier_tenths / 10) % (ENEMY_SPAWN_INTERVAL_MS as int),
            final(self).peace_timer.spec_elapsed() == (if old(self).peace_timer.spec_elapsed()
                + delta_ms >= PEACE_DURATION_MS {
                PEACE_DURATION_MS as int
            } else {
                old(self).peace_timer.spec_elapsed() + delta_ms
            }),
            final(self).enemy_spawn_rate_multiplier_tenths == old(
                self,
            ).enemy_spawn_rate_multiplier_tenths,
            final(self).enemy_damage_multiplier_tenths == old(self).enemy_damage_multiplier_tenths,
            final(self).asteroid_spawn_distance == old(self).asteroid_spawn_distance,
            final(self).cycle == old(self).cycle,
    {
        let tenths: u64 = self.enemy_spawn_rate_multiplier_tenths as u64;
        proof {
            assert(delta_ms * tenths <= MAX_FRAME_DELTA_MS * MULT_CAP_TENTHS) by (nonlinear_arith)
                requires
                    delta_ms <= MAX_FRAME_DELTA_MS,
                    tenths <= MULT_CAP_TENTHS,
            ;
        }
        let scaled: u64 = delta_ms * tenths / 10;
        proof {
            vstd::arithmetic::div_mod::lemma_div_is_ordered(
                (delta_ms * tenths) as int,
                1_000_000_000_000,
                10,
            );
        }
        self.elapsed_time_ms = self.elapsed_time_ms + delta_ms;
        self.current_phase_time_ms = self.current_phase_time_ms + delta_ms;
        self.enemy_spawn_timer.tick(scaled);
        self.peace_timer.tick(delta_ms);
    }

    /// How many full cycles the session has survived, in tenths, for the
    /// game-over screen: elapsed time over the length of all three phases.
    pub fn cycles_survived_tenths(&self) -> (c: u64)
        requires
            self.elapsed_time_ms * 10 <= u64::MAX,
        ensures
            c == self.elapsed_time_ms * 10 / (3 * crate::phase::PHASE_DURATION_MS),
    {
        self.elapsed_time_ms * 10 / (3 * crate::phase::PHASE_DURATION_MS)
    }

    /// The ambient spawn decision: an enemy spawns only when the spawn timer
    /// completed this very tick and the peace window has run out.
    pub fn spawn_enemies(&self) -> (e: Option<GameEvent>)
        ensures
            e == (if self.enemy_spawn_timer.spec_just_finished() && self.peace_timer.spec_finished() {
                Option::Some(
                    GameEvent::SpawnEnemy {
                        distance: ENEMY_SPAWN_DISTANCE,
                        damage_mult_tenths: self.enemy_damage_multiplier_tenths,
                    },
                )
            } else {
                Option::<GameEvent>::None
            }),
    {
        if self.enemy_spawn_timer.just_finished() && self.peace_timer.finished() {
            Option::Some(
                GameEvent::SpawnEnemy {
                    distance: ENEMY_SPAWN_DISTANCE,
                    damage_mult_tenths: self.enemy_damage_multiplier_tenths,
                },
            )
        } else {
            Option::None
        }
    }
}

} // verus!
