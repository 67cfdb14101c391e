use starbase_core::arena::Arena;
use starbase_core::combat::CombatController;
use starbase_core::enemy::Enemy;
use starbase_core::events::{GameEvent, SfxKey};
use starbase_core::geom::Vec2i;
use starbase_core::turret::{turret_fire, Turret};
use starbase_core::upgrades::{UpgradeType, Upgrades};

#[test]
fn shot_needs_input_and_elapsed_cooldown() {
    let mut c = CombatController::new(1_000, 60);
    let mut events = Vec::new();
    let pos = Vec2i { x: 0, y: 0 };
    let dir = Vec2i { x: 0, y: 1_000 };
    // Cooldown not elapsed yet.
    c.record_combat_controller(Vec2i { x: 5_000, y: 5_000 }, true);
    assert!(!c.shoot(pos, dir, &mut events));
    // Cooldown elapsed but the button is up.
    c.tick_attack_timer(1_000);
    c.record_combat_controller(Vec2i { x: 5_000, y: 5_000 }, false);
    assert!(!c.shoot(pos, dir, &mut events));
    assert!(events.is_empty());
    // Both: the shot goes out and the cooldown restarts.
    c.record_combat_controller(Vec2i { x: 5_000, y: 5_000 }, true);
    assert!(c.shoot(pos, dir, &mut events));
    assert_eq!(
        events,
        vec![
            GameEvent::Shoot { position: pos, direction: dir },
            GameEvent::PlaySfx { sfx: SfxKey::Shoot },
        ]
    );
    // One-shot: holding does not fire again until the cooldown elapses.
    assert!(!c.shoot(pos, dir, &mut events));
    c.tick_attack_timer(999);
    assert!(!c.shoot(pos, dir, &mut events));
    c.tick_attack_timer(1);
    assert!(c.shoot(pos, dir, &mut events));
}

#[test]
fn fire_rate_upgrades_shorten_the_cooldown() {
    let mut c = CombatController::new(1_000, 60);
    let mut u = Upgrades::new();
    assert_eq!(u.attack_time_ms(), 1_000);
    u.register(UpgradeType::FireRate);
    // Half a second plus the flat penalty once any upgrade is owned.
    assert_eq!(u.attack_time_ms(), 700);
    u.register(UpgradeType::FireRate);
    assert_eq!(u.attack_time_ms(), 533);
    c.update_attack_time(&u);
    assert_eq!(c.attack_time_ms, 533);
}

#[test]
fn rotation_takes_the_shorter_way() {
    let c = {
        let mut c = CombatController::new(1_000, 60);
        // Aim point to the left of a north-facing turret.
        c.record_combat_controller(Vec2i { x: -10_000, y: 0 }, false);
        c
    };
    let ship = Vec2i { x: 0, y: 0 };
    let north = Vec2i { x: 0, y: 1_000 };
    // Cross of north with west points up: counter-clockwise.
    assert_eq!(c.rotate_towards_mouse(ship, north), 1);
    let c2 = {
        let mut c2 = CombatController::new(1_000, 60);
        c2.record_combat_controller(Vec2i { x: 10_000, y: 0 }, false);
        c2
    };
    assert_eq!(c2.rotate_towards_mouse(ship, north), -1);
}

#[test]
fn turret_fires_at_first_overlapping_enemy() {
    let mut enemies: Arena<Enemy> = Arena::new();
    let id = enemies.insert(Enemy::new(10, Vec2i { x: 3_000, y: 4_000 }));
    let mut t = Turret::new(1_200);
    let pos = Vec2i { x: 0, y: 0 };
    // Timer not finished: no shot even with an overlap.
    assert!(turret_fire(&t, pos, &vec![id], &enemies).is_none());
    t.tick_timer(1_200);
    // No overlap: no shot.
    assert!(turret_fire(&t, pos, &vec![], &enemies).is_none());
    // Overlap with a live enemy: shot toward it.
    let shot = turret_fire(&t, pos, &vec![id], &enemies).unwrap();
    assert_eq!(
        shot,
        GameEvent::Shoot { position: pos, direction: Vec2i { x: 3_000, y: 4_000 } }
    );
}

#[test]
fn turret_holds_fire_on_stale_overlap() {
    let mut enemies: Arena<Enemy> = Arena::new();
    let id = enemies.insert(Enemy::new(10, Vec2i { x: 3_000, y: 4_000 }));
    enemies.remove(id);
    let mut t = Turret::new(1_200);
    t.tick_timer(1_200);
    assert!(turret_fire(&t, Vec2i { x: 0, y: 0 }, &vec![id], &enemies).is_none());
}
