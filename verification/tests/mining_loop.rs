use starbase_core::arena::Arena;
use starbase_core::asteroid::{
    destroy_empty_asteroids, spawn_asteroid, Asteroid, ASTEROID_START_RESOURCES,
};
use starbase_core::events::GameEvent;
use starbase_core::gameplay::GameplayManager;
use starbase_core::geom::Vec2i;
use starbase_core::mining::{mine, reveal_nearby_asteroids, MiningController};
use starbase_core::resources::Resources;
use starbase_core::upgrades::{UpgradeType, Upgrades};

#[test]
fn mining_needs_held_key_and_probe_hit() {
    let mut ctrl = MiningController::new(1_000);
    let mut r = Resources::new();
    let mut asteroids: Arena<Asteroid> = Arena::new();
    let mut events = Vec::new();
    let id = spawn_asteroid(&mut asteroids, Vec2i { x: 0, y: 0 }, true, &mut events);

    // Key not held: nothing happens however long the frame.
    mine(&mut ctrl, &mut r, &mut asteroids, Some(id), 5_000, &mut events);
    assert_eq!(r.gathered, 0);

    // Key held but no asteroid beneath: the timer does not advance.
    ctrl.record_interaction_controller(true, true, false);
    mine(&mut ctrl, &mut r, &mut asteroids, None, 5_000, &mut events);
    assert_eq!(ctrl.timer.elapsed_ms(), 0);
    assert_eq!(r.gathered, 0);
}

#[test]
fn completed_tick_banks_one_and_drains_asteroid() {
    let mut ctrl = MiningController::new(1_000);
    let mut r = Resources::new();
    let mut asteroids: Arena<Asteroid> = Arena::new();
    let mut events = Vec::new();
    let id = spawn_asteroid(&mut asteroids, Vec2i { x: 0, y: 0 }, true, &mut events);
    ctrl.record_interaction_controller(true, true, false);
    mine(&mut ctrl, &mut r, &mut asteroids, Some(id), 1_000, &mut events);
    assert_eq!(r.gathered, 1);
    let a = asteroids.get(id).unwrap();
    assert_eq!(a.contained_resources, ASTEROID_START_RESOURCES - 1);
}

#[test]
fn releasing_the_key_loses_partial_progress() {
    let mut ctrl = MiningController::new(1_000);
    let mut r = Resources::new();
    let mut asteroids: Arena<Asteroid> = Arena::new();
    let mut events = Vec::new();
    let id = spawn_asteroid(&mut asteroids, Vec2i { x: 0, y: 0 }, true, &mut events);
    ctrl.record_interaction_controller(true, true, false);
    mine(&mut ctrl, &mut r, &mut asteroids, Some(id), 600, &mut events);
    assert_eq!(ctrl.timer.elapsed_ms(), 600);
    assert_eq!(ctrl.progress_permille(), 600);
    // Release: progress resets to zero, nothing banked.
    ctrl.record_interaction_controller(false, false, true);
    assert_eq!(ctrl.timer.elapsed_ms(), 0);
    assert_eq!(ctrl.progress_permille(), 0);
    assert_eq!(r.gathered, 0);
}

#[test]
fn mining_upgrades_speed_up_the_timer() {
    let mut ctrl = MiningController::new(1_000);
    let mut upgrades = Upgrades::new();
    upgrades.register(UpgradeType::MiningSpeed); // 1.5x
    ctrl.update_mining_speed_mult(&upgrades);
    assert_eq!(ctrl.mining_speed_multiplier_tenths, 15);
    let mut r = Resources::new();
    let mut asteroids: Arena<Asteroid> = Arena::new();
    let mut events = Vec::new();
    let id = spawn_asteroid(&mut asteroids, Vec2i { x: 0, y: 0 }, true, &mut events);
    ctrl.record_interaction_controller(true, true, false);
    // 667 ms at 1.5x covers the 1000 ms tick.
    mine(&mut ctrl, &mut r, &mut asteroids, Some(id), 667, &mut events);
    assert_eq!(r.gathered, 1);
}

#[test]
fn asteroid_never_goes_negative() {
    let mut ctrl = MiningController::new(1_000);
    let mut r = Resources::new();
    let mut asteroids: Arena<Asteroid> = Arena::new();
    let mut events = Vec::new();
    let id = spawn_asteroid(&mut asteroids, Vec2i { x: 0, y: 0 }, true, &mut events);
    ctrl.record_interaction_controller(true, true, false);
    // More completed ticks than the asteroid holds.
    for _ in 0..(ASTEROID_START_RESOURCES + 5) {
        mine(&mut ctrl, &mut r, &mut asteroids, Some(id), 1_000, &mut events);
    }
    assert_eq!(asteroids.get(id).unwrap().contained_resources, 0);
    assert_eq!(r.gathered as u32, ASTEROID_START_RESOURCES + 5);
}

#[test]
fn depleted_asteroid_replaced_exactly_once() {
    let mut manager = GameplayManager::new();
    let mut asteroids: Arena<Asteroid> = Arena::new();
    let mut events = Vec::new();
    let id = spawn_asteroid(&mut asteroids, Vec2i { x: 0, y: 0 }, true, &mut events);
    let keep = spawn_asteroid(&mut asteroids, Vec2i { x: 50_000, y: 0 }, true, &mut events);
    // Deplete the first asteroid by hand.
    let mut a = asteroids.get(id).unwrap();
    a.contained_resources = 0;
    asteroids.replace(id, a);
    events.clear();
    let distance_before = manager.asteroid_spawn_distance;

    destroy_empty_asteroids(&mut manager, &mut asteroids, &mut events);

    // The depleted one is gone for good; the survivor is untouched.
    assert!(asteroids.get(id).is_none());
    assert_eq!(
        asteroids.get(keep).unwrap().contained_resources,
        ASTEROID_START_RESOURCES
    );
    // Exactly one despawn and one replacement spawn.
    let despawns = events
        .iter()
        .filter(|e| matches!(e, GameEvent::AsteroidDespawned { .. }))
        .count();
    let spawns = events
        .iter()
        .filter(|e| matches!(e, GameEvent::AsteroidSpawned { .. }))
        .count();
    assert_eq!(despawns, 1);
    assert_eq!(spawns, 1);
    // The replacement spawns hidden, farther out next time.
    assert!(manager.asteroid_spawn_distance > distance_before);
    for e in &events {
        if let GameEvent::AsteroidSpawned { visible, .. } = e {
            assert!(!visible);
        }
    }
}

#[test]
fn replacement_ring_distance_matches_manager() {
    // The replacement asteroid lands within one unit of the configured
    // ring radius; this exercises the randomness wrapper end to end.
    let mut manager = GameplayManager::new();
    let mut asteroids: Arena<Asteroid> = Arena::new();
    let mut events = Vec::new();
    let r_milli = manager.asteroid_spawn_distance as i64 * 1000;
    let id =
        starbase_core::asteroid::spawn_random_asteroid(&mut manager, &mut asteroids, &mut events);
    let a = asteroids.get(id).unwrap();
    let d2 = (a.position.x as i128) * (a.position.x as i128)
        + (a.position.y as i128) * (a.position.y as i128);
    let r2 = (r_milli as i128) * (r_milli as i128);
    assert!(d2 <= r2);
    assert!(d2 >= r2 - 2 * (r_milli as i128));
    assert!(!a.visible);
}

#[test]
fn hidden_asteroids_revealed_in_sensor_range() {
    let mut asteroids: Arena<Asteroid> = Arena::new();
    let mut events = Vec::new();
    let near = spawn_asteroid(&mut asteroids, Vec2i { x: 10_000, y: 0 }, false, &mut events);
    let far = spawn_asteroid(&mut asteroids, Vec2i { x: 500_000, y: 0 }, false, &mut events);
    events.clear();
    reveal_nearby_asteroids(Vec2i { x: 0, y: 0 }, &mut asteroids, &mut events);
    assert!(asteroids.get(near).unwrap().visible);
    assert!(!asteroids.get(far).unwrap().visible);
    // Exactly the detection notice and the waypoint request, in order.
    assert_eq!(
        events,
        vec![
            GameEvent::Notify { note: starbase_core::events::Notification::AsteroidDetected },
            GameEvent::WaypointAdded { id: near },
        ]
    );
}

#[test]
fn scan_reports_the_nearest_asteroid() {
    let mut asteroids: Arena<Asteroid> = Arena::new();
    let mut events = Vec::new();
    spawn_asteroid(&mut asteroids, Vec2i { x: 30_000, y: 40_000 }, true, &mut events);
    spawn_asteroid(&mut asteroids, Vec2i { x: 200_000, y: 0 }, false, &mut events);
    events.clear();
    let found = starbase_core::mining::scan(Vec2i { x: 0, y: 0 }, &asteroids, &mut events);
    assert!(found);
    assert_eq!(
        events,
        vec![GameEvent::Notify {
            note: starbase_core::events::Notification::NearestAsteroid { dist_milli: 50_000 },
        }]
    );
}

#[test]
fn scan_of_an_empty_field_reports_nothing() {
    let asteroids: Arena<Asteroid> = Arena::new();
    let mut events = Vec::new();
    let found = starbase_core::mining::scan(Vec2i { x: 0, y: 0 }, &asteroids, &mut events);
    assert!(!found);
    assert!(events.is_empty());
}
