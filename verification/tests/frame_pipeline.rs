use starbase_core::building::StructureKind;
use starbase_core::events::GameEvent;
use starbase_core::geom::Vec2i;
use starbase_core::phase::{GamePhase, PHASE_DURATION_MS};
use starbase_core::session::{InputSnapshot, Session};

fn idle_input() -> InputSnapshot {
    InputSnapshot {
        interact_pressed: false,
        interact_just_pressed: false,
        interact_just_released: false,
        shoot_pressed: false,
        mouse_world_pos: Vec2i { x: 0, y: 0 },
        build_click_released: false,
    }
}

fn run_frame(s: &mut Session, delta_ms: u64, input: InputSnapshot, events: &mut Vec<GameEvent>) {
    s.record_input(input);
    s.tick_timers(delta_ms);
    s.simulate(
        delta_ms,
        Vec2i { x: 200_000, y: 0 },
        None,
        Vec2i { x: 20_000, y: -10_000 },
        Vec2i { x: 0, y: 1_000 },
        &vec![],
        events,
    );
    s.post_update(events);
}

#[test]
fn session_starts_in_build_with_station_level() {
    let mut s = Session::new();
    assert_eq!(s.phase, GamePhase::Build);
    let mut events = Vec::new();
    let station = s.spawn_level(&mut events);
    let st = s.structures.get(station).unwrap();
    assert_eq!(st.kind, StructureKind::Station);
    assert_eq!(st.position, Vec2i { x: 0, y: 0 });
    // The level request stream names the station and six asteroids.
    let asteroid_spawns = events
        .iter()
        .filter(|e| matches!(e, GameEvent::AsteroidSpawned { .. }))
        .count();
    assert_eq!(asteroid_spawns, 6);
}

#[test]
fn phase_advances_after_its_duration() {
    let mut s = Session::new();
    let mut events = Vec::new();
    s.spawn_level(&mut events);
    // A bit more than one phase duration of frames.
    let frames = PHASE_DURATION_MS / 100 + 1;
    for _ in 0..frames {
        run_frame(&mut s, 100, idle_input(), &mut events);
    }
    assert_eq!(s.phase, GamePhase::Gather);
    // Step up to the Gather -> Combat transition, watching the transition
    // frame: it launches the wave of five enemies (cycle zero) on top of
    // any ambient spawns of earlier frames.
    let mut wave = 0;
    for _ in 0..frames {
        let mut frame_events = Vec::new();
        run_frame(&mut s, 100, idle_input(), &mut frame_events);
        if s.phase == GamePhase::Combat {
            wave = frame_events
                .iter()
                .filter(|e| matches!(e, GameEvent::EnemySpawned { .. }))
                .count();
            break;
        }
    }
    assert_eq!(s.phase, GamePhase::Combat);
    assert_eq!(wave, 5);
    for _ in 0..frames {
        run_frame(&mut s, 100, idle_input(), &mut events);
    }
    assert_eq!(s.phase, GamePhase::Build);
    assert_eq!(s.manager.cycle, 1);
}

#[test]
fn enemies_attack_the_station_over_time() {
    let mut s = Session::new();
    let mut events = Vec::new();
    let station = s.spawn_level(&mut events);
    let full = s.structures.get(station).unwrap().destructable.health_milli;
    // Drop an enemy right next to the station and let the chain run.
    let eid = starbase_core::enemy::spawn_enemy(&mut s.enemies, 1, 10, &mut events);
    let mut e = s.enemies.get(eid).unwrap();
    e.state = starbase_core::enemy::EnemyState::TravelingTo(station);
    s.enemies.replace(eid, e);
    for _ in 0..50 {
        run_frame(&mut s, 100, idle_input(), &mut events);
    }
    let health_now = s.structures.get(station).unwrap().destructable.health_milli;
    assert!(health_now < full, "the station should have taken damage");
}

#[test]
fn session_reset_state_matches_fresh() {
    let mut s = Session::new();
    let mut events = Vec::new();
    s.spawn_level(&mut events);
    for _ in 0..10 {
        run_frame(&mut s, 250, idle_input(), &mut events);
    }
    s.resources.reset();
    s.manager.reset();
    assert_eq!(s.resources.gathered, 0);
    assert_eq!(s.resources.delivered, starbase_core::resources::STARTING_DELIVERED);
    assert_eq!(s.manager.cycle, 0);
    assert_eq!(s.manager.elapsed_time_ms, 0);
}

#[test]
fn leaving_build_mode_by_cancel_refunds() {
    let mut s = Session::new();
    let mut events = Vec::new();
    s.spawn_level(&mut events);
    let before = s.resources.delivered;
    assert!(s.build_action(starbase_core::building::BuildingType::Decoy, &mut events));
    assert_eq!(s.resources.delivered, before - 3);
    assert!(s.cancel_pending_build());
    assert_eq!(s.resources.delivered, before);
    assert!(s.marker.mode.is_none());
}

#[test]
fn leaving_the_build_phase_refunds_the_pending_build() {
    let mut s = Session::new();
    let mut events = Vec::new();
    s.spawn_level(&mut events);
    s.resources.delivered = 20;
    let before = s.resources.delivered;
    assert!(s.build_action(starbase_core::building::BuildingType::Sniper, &mut events));
    assert_eq!(s.resources.delivered, before - 15);
    // The phase clock runs out with the placement still pending.
    s.manager.current_phase_time_ms = PHASE_DURATION_MS + 1;
    let transitioned = s.post_update(&mut events);
    assert!(transitioned);
    assert_eq!(s.phase, GamePhase::Gather);
    assert_eq!(s.resources.delivered, before);
    assert!(s.marker.mode.is_none());
}

#[test]
fn spawn_level_seeds_six_asteroids() {
    let mut s = Session::new();
    let mut events = Vec::new();
    s.spawn_level(&mut events);
    let stored = (0..s.asteroids.slot_count())
        .filter(|i| s.asteroids.get_at(*i).is_some())
        .count();
    assert_eq!(stored, 6);
    let visible = (0..s.asteroids.slot_count())
        .filter(|i| matches!(s.asteroids.get_at(*i), Some((_, a)) if a.visible))
        .count();
    assert_eq!(visible, 2);
}

#[test]
fn a_gather_frame_mines_and_banks_the_tick() {
    let mut s = Session::new();
    let mut events = Vec::new();
    s.spawn_level(&mut events);
    s.phase = GamePhase::Gather;
    // Hold the key over an asteroid far from the base for a full tick.
    let id = starbase_core::asteroid::spawn_asteroid(
        &mut s.asteroids,
        Vec2i { x: 200_000, y: 0 },
        true,
        &mut events,
    );
    s.mining.record_interaction_controller(true, true, false);
    events.clear();
    let before = s.asteroids.get(id).unwrap().contained_resources;
    s.simulate(
        1_000,
        Vec2i { x: 200_000, y: 0 },
        Some(id),
        Vec2i { x: 0, y: 0 },
        Vec2i { x: 0, y: 1_000 },
        &vec![],
        &mut events,
    );
    assert_eq!(s.resources.gathered, 1);
    assert_eq!(s.asteroids.get(id).unwrap().contained_resources, before - 1);
    assert_eq!(
        events[0],
        GameEvent::PlaySfx { sfx: starbase_core::events::SfxKey::Collect }
    );
}

#[test]
fn cycles_survived_counts_full_loops() {
    let mut m = starbase_core::gameplay::GameplayManager::new();
    m.elapsed_time_ms = 3 * PHASE_DURATION_MS; // one full loop
    assert_eq!(m.cycles_survived_tenths(), 10);
    m.elapsed_time_ms = 3 * PHASE_DURATION_MS / 2;
    assert_eq!(m.cycles_survived_tenths(), 5);
}
