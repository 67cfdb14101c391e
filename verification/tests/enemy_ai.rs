use starbase_core::arena::Arena;
use starbase_core::building::{BuildingType, Structure};
use starbase_core::combat::handle_enemy_bullet_collision;
use starbase_core::enemy::{
    attack_target, choose_target, travel_to_target, Enemy, EnemyState, ATTACK_DISTANCE_SQ_MILLI,
    ENEMY_START_HEALTH_MILLI, WANDER_RADIUS_MILLI,
};
use starbase_core::geom::Vec2i;

fn structures_with(positions: &[(i64, i64)]) -> (Arena<Structure>, Vec<starbase_core::arena::EntityId>) {
    let mut arena = Arena::new();
    let mut ids = Vec::new();
    for (x, y) in positions {
        ids.push(arena.insert(Structure::build(BuildingType::Decoy, Vec2i { x: *x, y: *y })));
    }
    (arena, ids)
}

#[test]
fn spawned_enemy_sits_on_its_ring() {
    // The spawn position lands within one milli-unit band of the
    // requested radius around the origin.
    let mut enemies: Arena<Enemy> = Arena::new();
    let mut events = Vec::new();
    let id = starbase_core::enemy::spawn_enemy(&mut enemies, 50, 10, &mut events);
    let e = enemies.get(id).unwrap();
    let r = 50i128 * 1000;
    let d2 = (e.position.x as i128) * (e.position.x as i128)
        + (e.position.y as i128) * (e.position.y as i128);
    assert!(d2 <= r * r);
    assert!(d2 >= r * r - 2 * r);
}

#[test]
fn enemy_spawns_with_scaled_damage() {
    let e = Enemy::new(15, Vec2i { x: 0, y: 0 });
    assert_eq!(e.health_milli, ENEMY_START_HEALTH_MILLI);
    // 5 damage per second at 1.5x, in milli-points per second.
    assert_eq!(e.damage_milli_per_sec, 7_500);
    assert_eq!(e.state, EnemyState::Idle);
}

#[test]
fn idle_enemy_decides_wander_or_nearest() {
    // With structures present, every decision is either a wander point in
    // the wander box or travel to the nearest structure; run it often
    // enough to see both behave.
    let (structures, ids) = structures_with(&[(200_000, 0), (40_000, 0)]);
    let nearest = ids[1];
    let mut wandered = false;
    let mut traveled = false;
    for _ in 0..200 {
        let mut e = Enemy::new(10, Vec2i { x: 0, y: 0 });
        choose_target(&mut e, &structures);
        match e.state {
            EnemyState::Wander(t) => {
                wandered = true;
                // Within Euclidean distance of the wander radius.
                let d2 = (t.x as i128) * (t.x as i128) + (t.y as i128) * (t.y as i128);
                let r = WANDER_RADIUS_MILLI as i128;
                assert!(d2 <= r * r);
            }
            EnemyState::TravelingTo(id) => {
                traveled = true;
                assert_eq!(id, nearest);
            }
            other => panic!("unexpected decision: {:?}", other),
        }
    }
    assert!(wandered && traveled);
}

#[test]
fn idle_enemy_with_no_structures_may_stay_idle() {
    let structures: Arena<Structure> = Arena::new();
    for _ in 0..100 {
        let mut e = Enemy::new(10, Vec2i { x: 0, y: 0 });
        choose_target(&mut e, &structures);
        assert!(matches!(e.state, EnemyState::Idle | EnemyState::Wander(_)));
    }
}

#[test]
fn traveling_switches_to_attacking_within_range() {
    let (structures, ids) = structures_with(&[(5_000, 0)]);
    let mut e = Enemy::new(10, Vec2i { x: 0, y: 0 });
    e.state = EnemyState::TravelingTo(ids[0]);
    // Distance squared 25e6 is under the attack threshold.
    assert!(25_000_000 < ATTACK_DISTANCE_SQ_MILLI);
    travel_to_target(&mut e, &structures, 16);
    assert_eq!(e.state, EnemyState::Attacking(ids[0]));
}

#[test]
fn traveling_moves_straight_toward_the_target() {
    let (structures, ids) = structures_with(&[(500_000, 0)]);
    let mut e = Enemy::new(10, Vec2i { x: 0, y: 0 });
    e.state = EnemyState::TravelingTo(ids[0]);
    travel_to_target(&mut e, &structures, 1_000);
    // One second at 10 units per second, straight along x.
    assert_eq!(e.position, Vec2i { x: 10_000, y: 0 });
    assert_eq!(e.state, EnemyState::TravelingTo(ids[0]));
}

#[test]
fn stale_travel_target_reverts_to_idle() {
    let (mut structures, ids) = structures_with(&[(500_000, 0)]);
    let mut e = Enemy::new(10, Vec2i { x: 0, y: 0 });
    e.state = EnemyState::TravelingTo(ids[0]);
    structures.remove(ids[0]);
    travel_to_target(&mut e, &structures, 1_000);
    assert_eq!(e.state, EnemyState::Idle);
    assert_eq!(e.position, Vec2i { x: 0, y: 0 });
}

#[test]
fn stale_attack_target_reverts_to_idle_without_damage() {
    let (mut structures, ids) = structures_with(&[(5_000, 0)]);
    let mut e = Enemy::new(10, Vec2i { x: 0, y: 0 });
    e.state = EnemyState::Attacking(ids[0]);
    structures.remove(ids[0]);
    attack_target(&mut e, &mut structures, 1_000);
    assert_eq!(e.state, EnemyState::Idle);
}

#[test]
fn attacking_deals_damage_scaled_by_delta() {
    let (mut structures, ids) = structures_with(&[(5_000, 0)]);
    let mut e = Enemy::new(10, Vec2i { x: 0, y: 0 });
    e.state = EnemyState::Attacking(ids[0]);
    let before = structures.get(ids[0]).unwrap().destructable.health_milli;
    attack_target(&mut e, &mut structures, 500);
    let after = structures.get(ids[0]).unwrap().destructable.health_milli;
    // 5 points per second for half a second: 2500 milli-points.
    assert_eq!(before - after, 2_500);
    assert_eq!(e.state, EnemyState::Attacking(ids[0]));
}

#[test]
fn structure_health_floors_at_zero() {
    let (mut structures, ids) = structures_with(&[(5_000, 0)]);
    let mut e = Enemy::new(1_000, Vec2i { x: 0, y: 0 });
    e.state = EnemyState::Attacking(ids[0]);
    attack_target(&mut e, &mut structures, 1_000_000);
    assert_eq!(structures.get(ids[0]).unwrap().destructable.health_milli, 0);
}

#[test]
fn wanderer_arrives_and_goes_idle() {
    let structures: Arena<Structure> = Arena::new();
    let mut e = Enemy::new(10, Vec2i { x: 0, y: 0 });
    e.state = EnemyState::Wander(Vec2i { x: 50, y: 0 });
    travel_to_target(&mut e, &structures, 16);
    assert_eq!(e.state, EnemyState::Idle);
}

#[test]
fn bullet_contact_removes_the_enemy() {
    let mut enemies: Arena<Enemy> = Arena::new();
    let id = enemies.insert(Enemy::new(10, Vec2i { x: 0, y: 0 }));
    let mut events = Vec::new();
    let removed = handle_enemy_bullet_collision(&mut enemies, id, &mut events);
    assert!(removed);
    assert!(enemies.get(id).is_none());
    // The same handle never resolves again, even after new spawns.
    let _newcomer = enemies.insert(Enemy::new(10, Vec2i { x: 1_000, y: 0 }));
    assert!(enemies.get(id).is_none());
    // A second contact with the stale handle is a no-op.
    let removed_again = handle_enemy_bullet_collision(&mut enemies, id, &mut events);
    assert!(!removed_again);
}

#[test]
fn destroyed_target_never_referenced_after_the_next_step() {
    // An enemy attacking a building whose structure is then destroyed must
    // pass through the idle state before acting again; its next decision
    // can only reference structures that still resolve.
    let (mut structures, ids) = structures_with(&[(5_000, 0), (400_000, 0)]);
    let doomed = ids[0];
    let mut e = Enemy::new(10, Vec2i { x: 0, y: 0 });
    e.state = EnemyState::Attacking(doomed);
    structures.remove(doomed);

    // The frame's decision chain, as the session runs it.
    choose_target(&mut e, &structures);
    travel_to_target(&mut e, &structures, 100);
    attack_target(&mut e, &mut structures, 100);
    assert_eq!(e.state, EnemyState::Idle);

    // The following frame decides afresh, and whatever it picks resolves.
    choose_target(&mut e, &structures);
    match e.state {
        EnemyState::TravelingTo(t) | EnemyState::Attacking(t) => {
            assert!(structures.get(t).is_some());
            assert_ne!(t, doomed);
        }
        EnemyState::Idle | EnemyState::Wander(_) => {}
    }
}
