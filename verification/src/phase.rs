//! The top-level phase scheduler.
//!
//! Gameplay cycles through three phases in a fixed order, Gather, then
//! Combat, then Build, and back to Gather. When the running phase clock
//! exceeds the phase duration the scheduler advances to the next phase,
//! carrying the remainder, and performs the transition's side effects:
//! leaving Gather spawns an enemy wave and opens the peace window; leaving
//! Combat closes a full cycle and escalates the difficulty.

use crate::events::{CameraAnchor, GameEvent, SoundtrackKey};
use crate::gameplay::{GameplayManager, ENEMY_SPAWN_DISTANCE};
use vstd::prelude::*;

verus! {

/// Length of each phase.
pub const PHASE_DURATION_MS: u64 = 24_000;

/// The three gameplay phases; exactly one is active at a time.
#[derive(Clone, Copy, PartialEq, Eq, Structural, Debug)]
pub enum GamePhase {
    Gather,
    Combat,
    Build,
}

impl Default for GamePhase {
    /// A session begins in the Build phase.
    fn default() -> (p: GamePhase)
        ensures
            p == GamePhase::Build,
    {
        GamePhase::Build
    }
}

/// The camera anchor each phase hands focus to on entry.
pub open spec fn spec_camera_anchor(p: GamePhase) -> CameraAnchor {
    match p {
        GamePhase::Gather => CameraAnchor::MiningShip,
        GamePhase::Combat => CameraAnchor::CombatShip,
        GamePhase::Build => CameraAnchor::Station,
    }
}

/// The fixed cycle order: Gather, Combat, Build, and around again.
pub open spec fn spec_next_phase(p: GamePhase) -> GamePhase {
    match p {
        GamePhase::Gather => GamePhase::Combat,
        GamePhase::Combat => GamePhase::Build,
        GamePhase::Build => GamePhase::Gather,
    }
}

impl GamePhase {
    /// The phase that follows this one in the cycle.
    pub fn next_phase(self) -> (n: GamePhase)
        ensures
            n == spec_next_phase(self),
    {
        match self {
            GamePhase::Gather => GamePhase::Combat,
            GamePhase::Combat => GamePhase::Build,
            GamePhase::Build => GamePhase::Gather,
        }
    }

    /// The camera anchor a phase hands focus to on entry.
    pub fn camera_anchor(self) -> (a: CameraAnchor)
        ensures
            a == spec_camera_anchor(self),
    {
        match self {
            GamePhase::Gather => CameraAnchor::MiningShip,
            GamePhase::Combat => CameraAnchor::CombatShip,
            GamePhase::Build => CameraAnchor::Station,
        }
    }

    /// Which ships may move during this phase: the mining ship only while
    /// gathering, the combat ship only during combat, none while building.
    pub fn movement_enabled(self, is_combat_ship: bool) -> (e: bool)
        ensures
            e == (match self {
                GamePhase::Gather => !is_combat_ship,
                GamePhase::Combat => is_combat_ship,
                GamePhase::Build => false,
            }),
    {
        match self {
            GamePhase::Gather => !is_combat_ship,
            GamePhase::Combat => is_combat_ship,
            GamePhase::Build => false,
        }
    }
}

/// Law: the phases cycle in the fixed order Gather, Combat, Build, and
/// back to Gather, so three advances return any phase to itself; the cycle
/// counter advances exactly on the Combat-to-Build transition, which
/// [`update_phase`] states in its contract.
pub proof fn lemma_phase_cycle(p: GamePhase)
    ensures
        spec_next_phase(GamePhase::Gather) == GamePhase::Combat,
        spec_next_phase(GamePhase::Combat) == GamePhase::Build,
        spec_next_phase(GamePhase::Build) == GamePhase::Gather,
        spec_next_phase(spec_next_phase(spec_next_phase(p))) == p,
        spec_next_phase(p) != p,
{
}

/// Number of enemies in the wave launched when Gather gives way to Combat:
/// five plus two and a half per completed cycle, truncated.
pub open spec fn spec_wave_count(cycle: u32) -> int {
    5 + cycle * 5 / 2
}

/// The wave size for a cycle, computed exactly.
pub fn wave_count(cycle: u32) -> (n: u64)
    ensures
        n == spec_wave_count(cycle),
{
    5 + (cycle as u64) * 5 / 2
}

/// Advance the scheduler by one observation of the phase clock.
///
/// While the clock is within the phase duration nothing changes. Once it
/// exceeds the duration, the next phase in the fixed order becomes active
/// and the clock keeps the remainder. Leaving Gather emits the enemy wave
/// (size by [`spec_wave_count`], each enemy at the spawn distance with the
/// current damage multiplier) and suppresses ambient spawning; leaving
/// Combat escalates the difficulty through
/// [`GameplayManager::new_cycle`] and, on even cycles, resyncs the
/// soundtrack defensively.
pub fn update_phase(manager: &mut GameplayManager, phase: GamePhase) -> (r: (
    GamePhase,
    Vec<GameEvent>,
))
    requires
        old(manager).wf(),
    ensures
        final(manager).wf(),
        old(manager).current_phase_time_ms <= PHASE_DURATION_MS ==> {
            &&& r.0 == phase
            &&& *final(manager) == *old(manager)
            &&& r.1@ == Seq::<GameEvent>::empty()
        },
        old(manager).current_phase_time_ms > PHASE_DURATION_MS ==> {
            &&& r.0 == spec_next_phase(phase)
            &&& final(manager).current_phase_time_ms == old(manager).current_phase_time_ms
                - PHASE_DURATION_MS
            &&& final(manager).elapsed_time_ms == old(manager).elapsed_time_ms
            &&& final(manager).asteroid_spawn_distance == old(manager).asteroid_spawn_distance
        },
        // No transition but the one out of Combat closes a cycle or raises
        // the difficulty.
        final(manager).cycle == (if old(manager).current_phase_time_ms > PHASE_DURATION_MS && phase
            == GamePhase::Combat && old(manager).cycle < u32::MAX {
            old(manager).cycle + 1
        } else {
            old(manager).cycle as int
        }),
        final(manager).enemy_spawn_rate_multiplier_tenths >= old(
            manager,
        ).enemy_spawn_rate_multiplier_tenths,
        final(manager).enemy_damage_multiplier_tenths >= old(manager).enemy_damage_multiplier_tenths,
        !(old(manager).current_phase_time_ms > PHASE_DURATION_MS && phase == GamePhase::Combat)
            ==> {
            &&& final(manager).enemy_spawn_rate_multiplier_tenths == old(
                manager,
            ).enemy_spawn_rate_multiplier_tenths
            &&& final(manager).enemy_damage_multiplier_tenths == old(
                manager,
            ).enemy_damage_multiplier_tenths
        },
        old(manager).current_phase_time_ms > PHASE_DURATION_MS && phase == GamePhase::Build ==> {
            &&& r.1@ == Seq::<GameEvent>::empty()
            &&& final(manager).peace_timer == old(manager).peace_timer
            &&& final(manager).enemy_spawn_timer == old(manager).enemy_spawn_timer
        },
        old(manager).current_phase_time_ms > PHASE_DURATION_MS && phase == GamePhase::Gather ==> {
            &&& r.1@.len() == spec_wave_count(old(manager).cycle)
            &&& forall|i: int|
                0 <= i < r.1@.len() ==> r.1@[i] == (GameEvent::SpawnEnemy {
                    distance: ENEMY_SPAWN_DISTANCE,
                    damage_mult_tenths: old(manager).enemy_damage_multiplier_tenths,
                })
            &&& final(manager).peace_timer.spec_elapsed() == 0
            &&& !final(manager).peace_timer.spec_finished()
        },
        old(manager).current_phase_time_ms > PHASE_DURATION_MS && phase == GamePhase::Combat ==> {
            &&& final(manager).peace_timer.spec_elapsed() == 0
            &&& !final(manager).peace_timer.spec_finished()
            &&& final(manager).enemy_spawn_rate_multiplier_tenths == (if old(
                manager,
            ).enemy_spawn_rate_multiplier_tenths + crate::gameplay::SPAWN_RATE_STEP_TENTHS
                <= crate::gameplay::MULT_CAP_TENTHS {
                old(manager).enemy_spawn_rate_multiplier_tenths
                    + crate::gameplay::SPAWN_RATE_STEP_TENTHS
            } else {
                crate::gameplay::MULT_CAP_TENTHS as int
            })
            &&& final(manager).enemy_damage_multiplier_tenths == (if old(
                manager,
            ).enemy_damage_multiplier_tenths + crate::gameplay::DAMAGE_STEP_TENTHS
                <= crate::gameplay::MULT_CAP_TENTHS {
                old(manager).enemy_damage_multiplier_tenths + crate::gameplay::DAMAGE_STEP_TENTHS
            } else {
                crate::gameplay::MULT_CAP_TENTHS as int
            })
            &&& r.1@ == (if final(manager).cycle % 2 == 0 {
                seq![GameEvent::PlaySoundtrack { soundtrack: SoundtrackKey::Gameplay }]
            } else {
                Seq::<GameEvent>::empty()
            })
        },
{
    let mut events: Vec<GameEvent> = Vec::new();
    if manager.current_phase_time_ms > PHASE_DURATION_MS {
        let next = phase.next_phase();
        match phase {
            GamePhase::Build => {},
            GamePhase::Gather => {
                let n = wave_count(manager.cycle);
                let damage_mult_tenths = manager.enemy_damage_multiplier_tenths;
                let mut k: u64 = 0;
                while k < n
                    invariant
                        events@.len() == k <= n,
                        forall|i: int|
                            0 <= i < k ==> events@[i] == (GameEvent::SpawnEnemy {
                                distance: ENEMY_SPAWN_DISTANCE,
                                damage_mult_tenths,
                            }),
                    decreases n - k,
                {
                    events.push(
                        GameEvent::SpawnEnemy { distance: ENEMY_SPAWN_DISTANCE, damage_mult_tenths },
                    );
                    k = k + 1;
                }
                manager.stop_spawning();
            },
            GamePhase::Combat => {
                manager.new_cycle();
                if manager.cycle % 2 == 0 {
                    events.push(GameEvent::PlaySoundtrack { soundtrack: SoundtrackKey::Gameplay });
                }
            },
        }
        manager.current_phase_time_ms = manager.current_phase_time_ms - PHASE_DURATION_MS;
        (next, events)
    } else {
        (phase, events)
    }
}

} // verus!
