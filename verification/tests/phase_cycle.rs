use starbase_core::events::{GameEvent, SoundtrackKey};
use starbase_core::gameplay::{GameplayManager, ENEMY_SPAWN_DISTANCE};
use starbase_core::phase::{update_phase, wave_count, GamePhase, PHASE_DURATION_MS};

fn manager_past_phase_end() -> GameplayManager {
    let mut m = GameplayManager::new();
    m.current_phase_time_ms = PHASE_DURATION_MS + 1;
    m
}

#[test]
fn phases_cycle_in_fixed_order() {
    let mut m = GameplayManager::new();
    let mut phase = GamePhase::default();
    assert_eq!(phase, GamePhase::Build);
    let mut seen = Vec::new();
    for _ in 0..6 {
        m.current_phase_time_ms = PHASE_DURATION_MS + 1;
        let (next, _events) = update_phase(&mut m, phase);
        seen.push(next);
        phase = next;
    }
    assert_eq!(
        seen,
        vec![
            GamePhase::Gather,
            GamePhase::Combat,
            GamePhase::Build,
            GamePhase::Gather,
            GamePhase::Combat,
            GamePhase::Build,
        ]
    );
    // One full loop increments the cycle exactly once, on Combat -> Build.
    assert_eq!(m.cycle, 2);
}

#[test]
fn no_transition_within_phase_duration() {
    let mut m = GameplayManager::new();
    m.current_phase_time_ms = PHASE_DURATION_MS;
    let (next, events) = update_phase(&mut m, GamePhase::Gather);
    assert_eq!(next, GamePhase::Gather);
    assert!(events.is_empty());
    assert_eq!(m.current_phase_time_ms, PHASE_DURATION_MS);
}

#[test]
fn transition_carries_phase_time_remainder() {
    let mut m = GameplayManager::new();
    m.current_phase_time_ms = PHASE_DURATION_MS + 250;
    let (next, _events) = update_phase(&mut m, GamePhase::Build);
    assert_eq!(next, GamePhase::Gather);
    assert_eq!(m.current_phase_time_ms, 250);
}

#[test]
fn wave_count_formula() {
    assert_eq!(wave_count(0), 5);
    assert_eq!(wave_count(1), 7); // 5 + 2.5 truncated
    assert_eq!(wave_count(2), 10); // 5 + 5
    assert_eq!(wave_count(3), 12); // 5 + 7.5 truncated
}

#[test]
fn wave_for_cycle_two_spawns_ten_enemies() {
    let mut m = manager_past_phase_end();
    m.cycle = 2;
    let (next, events) = update_phase(&mut m, GamePhase::Gather);
    assert_eq!(next, GamePhase::Combat);
    assert_eq!(events.len(), 10);
    for e in &events {
        assert_eq!(
            *e,
            GameEvent::SpawnEnemy {
                distance: ENEMY_SPAWN_DISTANCE,
                damage_mult_tenths: m.enemy_damage_multiplier_tenths,
            }
        );
    }
}

#[test]
fn combat_to_build_escalates_difficulty_and_resets_peace() {
    let mut m = manager_past_phase_end();
    m.cycle = 1;
    // Let the peace timer run out first so the reset is observable.
    m.peace_timer.tick(1_000_000);
    assert!(m.peace_timer.finished());
    let damage_before = m.enemy_damage_multiplier_tenths;
    let rate_before = m.enemy_spawn_rate_multiplier_tenths;
    let (next, events) = update_phase(&mut m, GamePhase::Combat);
    assert_eq!(next, GamePhase::Build);
    assert_eq!(m.cycle, 2);
    assert_eq!(m.enemy_damage_multiplier_tenths, damage_before + 1);
    assert_eq!(m.enemy_spawn_rate_multiplier_tenths, rate_before + 2);
    // Peace window restarted: full grace duration ahead.
    assert_eq!(m.peace_timer.elapsed_ms(), 0);
    assert!(!m.peace_timer.finished());
    // Even cycle: defensive soundtrack resync.
    assert_eq!(
        events,
        vec![GameEvent::PlaySoundtrack { soundtrack: SoundtrackKey::Gameplay }]
    );
}

#[test]
fn odd_cycle_transition_emits_no_soundtrack() {
    let mut m = manager_past_phase_end();
    m.cycle = 0;
    let (_, events) = update_phase(&mut m, GamePhase::Combat);
    assert_eq!(m.cycle, 1);
    assert!(events.is_empty());
}

#[test]
fn ambient_spawn_needs_spawn_tick_and_elapsed_peace() {
    let mut m = GameplayManager::new();
    // Peace starts open (no grace period at session start), so the first
    // completed spawn interval fires.
    m.tick_time(1_000_000); // both timers finish
    assert!(m.spawn_enemies().is_some());
    // Right after a wave the peace timer suppresses ambient spawning.
    m.stop_spawning();
    m.tick_time(5_000);
    assert!(m.spawn_enemies().is_none());
}

#[test]
fn spawn_timer_scales_with_rate_multiplier() {
    let mut m = GameplayManager::new();
    m.enemy_spawn_rate_multiplier_tenths = 20; // 2.0x
    m.tick_time(1_000_000); // peace elapses
    m.stop_spawning();
    m.tick_time(1_000_000); // peace elapses again, spawn timer keeps running
    // 2500 ms of wall time is 5000 ms of scaled spawn-timer time.
    m.tick_time(2_500);
    assert!(m.spawn_enemies().is_some());
}
