use starbase_core::arena::Arena;
use starbase_core::building::{
    can_build_at, cancel_build, destroy_buildings, handle_build_action, try_place_building,
    BuildMarker, BuildingType, Structure, StructureKind,
};
use starbase_core::events::{GameEvent, Notification, SfxKey};
use starbase_core::geom::Vec2i;
use starbase_core::resources::Resources;
use starbase_core::turret::{SNIPER_INTERVAL_MS, TURRET_INTERVAL_MS};
use starbase_core::upgrades::{UpgradeType, Upgrades};

#[test]
fn building_costs() {
    assert_eq!(BuildingType::Decoy.cost(), 3);
    assert_eq!(BuildingType::Turret.cost(), 12);
    assert_eq!(BuildingType::Sniper.cost(), 15);
    assert_eq!(BuildingType::FireRateUpgrade.cost(), 9);
    assert_eq!(BuildingType::MiningUpgrade.cost(), 14);
}

#[test]
fn build_action_rejected_without_funds() {
    let mut r = Resources { gathered: 0, delivered: 11 };
    let mut marker = BuildMarker::new();
    let mut events = Vec::new();
    let ok = handle_build_action(&mut r, &mut marker, BuildingType::Turret, &mut events);
    assert!(!ok);
    assert_eq!(r.delivered, 11);
    assert!(marker.mode.is_none());
    assert_eq!(
        events,
        vec![GameEvent::Notify { note: Notification::NotEnoughResources }]
    );
}

#[test]
fn build_action_debits_and_enters_build_mode() {
    let mut r = Resources { gathered: 0, delivered: 20 };
    let mut marker = BuildMarker::new();
    let mut events = Vec::new();
    let ok = handle_build_action(&mut r, &mut marker, BuildingType::Turret, &mut events);
    assert!(ok);
    assert_eq!(r.delivered, 8);
    assert_eq!(marker.mode, Some(BuildingType::Turret));
    assert!(events.is_empty());
}

#[test]
fn placement_rejected_too_close_to_structure() {
    let mut structures: Arena<Structure> = Arena::new();
    structures.insert(Structure::station(Vec2i { x: 0, y: 0 }));
    // Within 10 units of the station.
    assert!(!can_build_at(&structures, Vec2i { x: 9_000, y: 0 }));
    assert!(can_build_at(&structures, Vec2i { x: 10_000, y: 0 }));

    let mut marker = BuildMarker::new();
    let mut upgrades = Upgrades::new();
    let mut events = Vec::new();
    marker.mode = Some(BuildingType::Decoy);
    marker.click_debounce.tick(1_000);
    marker.record_build_input(Vec2i { x: 9_000, y: 0 }, true);
    let placed = try_place_building(&mut marker, &mut structures, &mut upgrades, &mut events);
    assert!(placed.is_none());
    // The pending building stays pending for another try.
    assert_eq!(marker.mode, Some(BuildingType::Decoy));
    assert_eq!(
        events,
        vec![GameEvent::Notify { note: Notification::TooCloseToStructure }]
    );
}

#[test]
fn placement_builds_and_registers_upgrade() {
    let mut structures: Arena<Structure> = Arena::new();
    let mut marker = BuildMarker::new();
    let mut upgrades = Upgrades::new();
    let mut events = Vec::new();
    marker.mode = Some(BuildingType::MiningUpgrade);
    marker.click_debounce.tick(1_000);
    marker.record_build_input(Vec2i { x: 30_000, y: 0 }, true);
    let placed = try_place_building(&mut marker, &mut structures, &mut upgrades, &mut events);
    let id = placed.expect("placement should succeed on empty ground");
    assert!(marker.mode.is_none());
    assert_eq!(upgrades.mining_speed, 1);
    let s = structures.get(id).unwrap();
    assert_eq!(s.kind, StructureKind::MiningUpgrade);
    assert_eq!(s.position, Vec2i { x: 30_000, y: 0 });
    assert!(events.contains(&GameEvent::PlaySfx { sfx: SfxKey::Build }));
}

#[test]
fn turret_kinds_carry_their_fire_loops() {
    let t = Structure::build(BuildingType::Turret, Vec2i { x: 0, y: 0 });
    let s = Structure::build(BuildingType::Sniper, Vec2i { x: 0, y: 0 });
    let d = Structure::build(BuildingType::Decoy, Vec2i { x: 0, y: 0 });
    assert_eq!(t.turret.unwrap().shoot_timer.duration_ms(), TURRET_INTERVAL_MS);
    assert_eq!(s.turret.unwrap().shoot_timer.duration_ms(), SNIPER_INTERVAL_MS);
    assert!(d.turret.is_none());
}

#[test]
fn debounce_blocks_the_purchase_click() {
    let mut marker = BuildMarker::new();
    let mut r = Resources { gathered: 0, delivered: 20 };
    let mut events = Vec::new();
    handle_build_action(&mut r, &mut marker, BuildingType::Decoy, &mut events);
    // Immediately after entering build mode the debounce is running, so a
    // click release does not count as a placement click.
    marker.record_build_input(Vec2i { x: 0, y: 0 }, true);
    assert!(!marker.just_clicked);
    // Once the debounce elapses the click counts.
    marker.tick_debounce(600);
    marker.record_build_input(Vec2i { x: 0, y: 0 }, true);
    assert!(marker.just_clicked);
}

#[test]
fn cancel_refunds_the_pending_cost() {
    let mut marker = BuildMarker::new();
    let mut r = Resources { gathered: 0, delivered: 20 };
    let mut events = Vec::new();
    handle_build_action(&mut r, &mut marker, BuildingType::Sniper, &mut events);
    assert_eq!(r.delivered, 5);
    let refunded = cancel_build(&mut marker, &mut r);
    assert!(refunded);
    assert_eq!(r.delivered, 20);
    assert!(marker.mode.is_none());
    // Cancelling again refunds nothing.
    assert!(!cancel_build(&mut marker, &mut r));
    assert_eq!(r.delivered, 20);
}

#[test]
fn destroyed_structures_swept_with_notices_and_ledger() {
    let mut structures: Arena<Structure> = Arena::new();
    let alive = structures.insert(Structure::station(Vec2i { x: 0, y: 0 }));
    let mut doomed_upgrade = Structure::build(BuildingType::FireRateUpgrade, Vec2i { x: 50_000, y: 0 });
    doomed_upgrade.destructable.health_milli = 0;
    let doomed = structures.insert(doomed_upgrade);
    let mut upgrades = Upgrades::new();
    upgrades.register(UpgradeType::FireRate);
    let mut events = Vec::new();

    destroy_buildings(&mut structures, &mut upgrades, &mut events);

    assert!(structures.get(alive).is_some());
    assert!(structures.get(doomed).is_none());
    assert_eq!(upgrades.fire_rate, 0);
    assert_eq!(
        events,
        vec![
            GameEvent::Notify {
                note: Notification::StructureDestroyed { kind: StructureKind::FireRateUpgrade },
            },
            GameEvent::PlaySfx { sfx: SfxKey::Explode },
            GameEvent::StructureDespawned { id: doomed },
        ]
    );
}
