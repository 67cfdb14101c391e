//! The gameplay session: one context owning every store and controller,
//! stepped through an explicit frame pipeline.
//!
//! A frame is four stages called in order: record the input snapshot,
//! advance the timers, simulate, and finally observe the phase clock.
//! Each stage is a plain function over the context, so the pipeline can be
//! driven by an engine loop or called directly.

use crate::arena::{spec_live_count, Arena, EntityId};
use crate::asteroid::{
    asteroids_wf, destroy_empty_asteroids, spawn_asteroid, spawn_random_asteroid, Asteroid,
};
use crate::building::{
    cancel_build, destroy_buildings, handle_build_action, spec_can_build_at, structures_wf,
    try_place_building, BuildMarker, BuildingType, Structure,
};
use crate::combat::{CombatController, BASE_ATTACK_TIME_MS, BASE_ROTATION_SPEED_TENTHS};
use crate::enemy::{
    attack_target, choose_target, enemies_wf, enemy_frame_step, enemy_slot_stepped, spawn_enemy,
    state_targets_resolve, travel_to_target, Enemy, EnemyState,
};
use crate::events::{GameEvent, Notification, SfxKey, SoundtrackKey};
use crate::gameplay::{GameplayManager, MAX_FRAME_DELTA_MS};
use crate::geom::{dist_sq, Vec2i, MILLI};
use crate::mining::{
    deliver_resources, mine, reveal_nearby_asteroids, MiningController, DELIVERY_DIST_SQ_MILLI,
    MINING_TIME_MS,
};
use crate::phase::{update_phase, GamePhase};
use crate::placement::MAX_RING_DISTANCE;
use crate::resources::Resources;
use crate::turret::turret_fire;
use crate::upgrades::Upgrades;
use vstd::prelude::*;

verus! {

/// The input snapshot recorded once per frame, upstream of every
/// gameplay system.
#[derive(Clone, Copy, PartialEq, Eq, Structural, Debug)]
pub struct InputSnapshot {
    pub interact_pressed: bool,
    pub interact_just_pressed: bool,
    pub interact_just_released: bool,
    pub shoot_pressed: bool,
    pub mouse_world_pos: Vec2i,
    pub build_click_released: bool,
}

/// What one turret's sense volume reported this frame: the first entity
/// overlapping it, if any.
#[derive(Clone, Copy, PartialEq, Eq, Structural, Debug)]
pub struct TurretSense {
    pub turret: EntityId,
    pub first_overlap: Option<EntityId>,
}

/// Whether a sense report makes its turret fire this frame: the turret
/// still stands with its fire-rate timer just completed, and the first
/// overlapping entity still resolves to an enemy.
pub open spec fn sense_fires(
    structures: Arena<Structure>,
    enemies: Arena<Enemy>,
    sense: TurretSense,
) -> bool {
    &&& structures.spec_get(sense.turret) is Some
    &&& structures.spec_get(sense.turret)->Some_0.turret is Some
    &&& structures.spec_get(sense.turret)->Some_0.turret->Some_0.shoot_timer.spec_just_finished()
    &&& sense.first_overlap is Some
    &&& enemies.spec_get(sense.first_overlap->Some_0) is Some
}

/// The shot a firing sense report produces: from the turret's position
/// toward the overlapping enemy.
pub open spec fn spec_turret_shot(
    structures: Arena<Structure>,
    enemies: Arena<Enemy>,
    sense: TurretSense,
) -> GameEvent {
    let st = structures.spec_get(sense.turret)->Some_0;
    let e = enemies.spec_get(sense.first_overlap->Some_0)->Some_0;
    GameEvent::Shoot {
        position: st.position,
        direction: Vec2i {
            x: (e.position.x - st.position.x) as i64,
            y: (e.position.y - st.position.y) as i64,
        },
    }
}

/// The whole simulation state, owned in one place and passed by reference
/// into each stage: no hidden globals.
pub struct Session {
    pub resources: Resources,
    pub upgrades: Upgrades,
    pub manager: GameplayManager,
    pub phase: GamePhase,
    pub asteroids: Arena<Asteroid>,
    pub structures: Arena<Structure>,
    pub enemies: Arena<Enemy>,
    pub mining: MiningController,
    pub combat: CombatController,
    pub marker: BuildMarker,
}

impl Session {
    pub open spec fn wf(self) -> bool {
        &&& self.manager.wf()
        &&& self.mining.wf()
        &&& self.combat.wf()
        &&& self.marker.wf()
        &&& asteroids_wf(self.asteroids)
        &&& structures_wf(self.structures)
        &&& enemies_wf(self.enemies)
    }

    /// A fresh session: empty world, default controllers, the starting
    /// ledger, and the Build phase active.
    pub fn new() -> (s: Session)
        ensures
            s.wf(),
            s.phase == GamePhase::Build,
            s.resources.gathered == 0,
            s.resources.delivered == crate::resources::STARTING_DELIVERED,
            s.manager.cycle == 0,
            s.asteroids.spec_len() == 0,
            s.structures.spec_len() == 0,
            s.enemies.spec_len() == 0,
            s.upgrades.mining_speed == 0,
            s.upgrades.fire_rate == 0,
    {
        Session {
            resources: Resources::new(),
            upgrades: Upgrades::new(),
            manager: GameplayManager::new(),
            phase: GamePhase::default(),
            asteroids: Arena::new(),
            structures: Arena::new(),
            enemies: Arena::new(),
            mining: MiningController::new(MINING_TIME_MS),
            combat: CombatController::new(BASE_ATTACK_TIME_MS, BASE_ROTATION_SPEED_TENTHS),
            marker: BuildMarker::new(),
        }
    }

    /// Populate the starting level: the station at the origin, two known
    /// asteroids, and four hidden ones farther out. The engine layer
    /// receives the spawn requests (and creates the two ships itself).
    pub fn spawn_level(&mut self, events: &mut Vec<GameEvent>) -> (station: EntityId)
        requires
            old(self).wf(),
        ensures
            final(self).wf(),
            final(self).structures.spec_get(station) matches Some(s) && s.kind
                == crate::building::StructureKind::Station && s.position == (Vec2i { x: 0, y: 0 })
                && s.destructable.health_milli == crate::building::STATION_HEALTH_MILLI,
            final(self).phase == old(self).phase,
            final(self).resources == old(self).resources,
            // The level seeds six asteroids: two revealed at the fixed
            // sites, four hidden farther out.
            spec_live_count(final(self).asteroids, final(self).asteroids.spec_len())
                == spec_live_count(old(self).asteroids, old(self).asteroids.spec_len()) + 6,
            exists|a1: EntityId|
                #[trigger] final(self).asteroids.spec_get(a1) == Option::Some(
                    Asteroid::spec_fresh(Vec2i { x: -40_000i64, y: -15_000i64 }, true),
                ),
            exists|a2: EntityId|
                #[trigger] final(self).asteroids.spec_get(a2) == Option::Some(
                    Asteroid::spec_fresh(Vec2i { x: 60_000i64, y: -50_000i64 }, true),
                ),
            // Every newly stored asteroid is fresh, and hidden unless it
            // sits at one of the two fixed sites.
            forall|o: EntityId|
                old(self).asteroids.spec_get(o) is None && (#[trigger] final(self).asteroids.spec_get(o)) is Some ==> ({
                    let a = final(self).asteroids.spec_get(o)->Some_0;
                    a == Asteroid::spec_fresh(a.position, a.visible) && (a.visible ==> a.position
                        == (Vec2i { x: -40_000i64, y: -15_000i64 }) || a.position == (Vec2i {
                        x: 60_000i64,
                        y: -50_000i64,
                    }))
                }),
    {
        let station_value = Structure::station(Vec2i { x: 0, y: 0 });
        let station = self.structures.insert(station_value);
        events.push(
            GameEvent::StructureSpawned {
                id: station,
                kind: station_value.kind,
                position: station_value.position,
            },
        );
        proof {
            assert forall|k: int|
                0 <= k < self.structures.spec_len() && (#[trigger] self.structures
                    .spec_slot_value(k)) is Some implies self.structures.spec_slot_value(
                k,
            )->Some_0.wf() by {
                if k != station.index {
                    assert(self.structures.spec_slot_value(k) == old(
                        self,
                    ).structures.spec_slot_value(k));
                    crate::arena::lemma_slot_in_range(old(self).structures, k);
                } else {
                    assert(self.structures.spec_slot_value(k) == Option::Some(station_value));
                }
            }
        }
        let ghost a_start = self.asteroids;
        let aid1 = spawn_asteroid(
            &mut self.asteroids,
            Vec2i { x: -40 * MILLI, y: -15 * MILLI },
            true,
            events,
        );
        proof {
            crate::arena::lemma_slot_in_range(self.asteroids, aid1.index as int);
            crate::arena::lemma_live_count_insert(a_start, self.asteroids, aid1);
        }
        let ghost a_one = self.asteroids;
        let aid2 = spawn_asteroid(
            &mut self.asteroids,
            Vec2i { x: 60 * MILLI, y: -50 * MILLI },
            true,
            events,
        );
        proof {
            crate::arena::lemma_slot_in_range(self.asteroids, aid2.index as int);
            crate::arena::lemma_live_count_insert(a_one, self.asteroids, aid2);
            assert(aid2 != aid1);
            assert(self.asteroids.spec_get(aid1) == a_one.spec_get(aid1));
        }
        let ghost pre = *self;
        let mut i: u64 = 0;
        while i < 4
            invariant
                i <= 4,
                self.manager.wf(),
                asteroids_wf(self.asteroids),
                self.structures == pre.structures,
                self.phase == pre.phase,
                self.resources == pre.resources,
                self.upgrades == pre.upgrades,
                self.enemies == pre.enemies,
                self.mining == pre.mining,
                self.combat == pre.combat,
                self.marker == pre.marker,
                spec_live_count(self.asteroids, self.asteroids.spec_len()) == spec_live_count(
                    old(self).asteroids,
                    old(self).asteroids.spec_len(),
                ) + 2 + i,
                self.asteroids.spec_get(aid1) == Option::Some(
                    Asteroid::spec_fresh(Vec2i { x: -40_000i64, y: -15_000i64 }, true),
                ),
                self.asteroids.spec_get(aid2) == Option::Some(
                    Asteroid::spec_fresh(Vec2i { x: 60_000i64, y: -50_000i64 }, true),
                ),
                forall|o: EntityId|
                    old(self).asteroids.spec_get(o) is None && (#[trigger] self.asteroids
                        .spec_get(o)) is Some ==> ({
                        let a = self.asteroids.spec_get(o)->Some_0;
                        a == Asteroid::spec_fresh(a.position, a.visible) && (a.visible
                            ==> a.position == (Vec2i { x: -40_000i64, y: -15_000i64 }) || a.position
                            == (Vec2i { x: 60_000i64, y: -50_000i64 }))
                    }),
            decreases 4 - i,
        {
            let ghost a_prev = self.asteroids;
            let rid = spawn_random_asteroid(&mut self.manager, &mut self.asteroids, events);
            proof {
                crate::arena::lemma_slot_in_range(self.asteroids, rid.index as int);
                crate::arena::lemma_live_count_insert(a_prev, self.asteroids, rid);
                assert(rid != aid1 && rid != aid2);
                assert(self.asteroids.spec_get(aid1) == a_prev.spec_get(aid1));
                assert(self.asteroids.spec_get(aid2) == a_prev.spec_get(aid2));
                assert forall|o: EntityId|
                    old(self).asteroids.spec_get(o) is None && (#[trigger] self.asteroids
                        .spec_get(o)) is Some implies ({
                    let a = self.asteroids.spec_get(o)->Some_0;
                    a == Asteroid::spec_fresh(a.position, a.visible) && (a.visible ==> a.position
                        == (Vec2i { x: -40_000i64, y: -15_000i64 }) || a.position == (Vec2i {
                        x: 60_000i64,
                        y: -50_000i64,
                    }))
                }) by {
                    if o != rid {
                        assert(self.asteroids.spec_get(o) == a_prev.spec_get(o));
                    }
                }
            }
            i = i + 1;
        }
        station
    }

    /// Stage one: record the frame's input. The mining controller records
    /// in every phase; the combat controller only during Combat; the build
    /// cursor only during Build.
    pub fn record_input(&mut self, input: InputSnapshot)
        requires
            old(self).wf(),
            input.mouse_world_pos.in_bounds(),
        ensures
            final(self).wf(),
            final(self).phase == old(self).phase,
            final(self).resources == old(self).resources,
            final(self).mining.interacting == input.interact_pressed,
            final(self).mining.just_interacted == input.interact_just_pressed,
            input.interact_just_released ==> final(self).mining.timer.spec_elapsed() == 0,
            old(self).phase == GamePhase::Combat ==> final(self).combat.mouse_world_pos
                == input.mouse_world_pos && final(self).combat.shoot == input.shoot_pressed,
            old(self).phase != GamePhase::Combat ==> final(self).combat == old(self).combat,
            old(self).phase == GamePhase::Build ==> final(self).marker.mouse_world_pos
                == input.mouse_world_pos && final(self).marker.just_clicked == (
            input.build_click_released && old(self).marker.click_debounce.spec_finished()),
            old(self).phase != GamePhase::Build ==> final(self).marker == old(self).marker,
            final(self).asteroids == old(self).asteroids,
            final(self).structures == old(self).structures,
            final(self).enemies == old(self).enemies,
            final(self).manager == old(self).manager,
            final(self).upgrades == old(self).upgrades,
    {
        self.mining.record_interaction_controller(
            input.interact_pressed,
            input.interact_just_pressed,
            input.interact_just_released,
        );
        match self.phase {
            GamePhase::Combat => {
                self.combat.record_combat_controller(input.mouse_world_pos, input.shoot_pressed);
            },
            GamePhase::Build => {
                self.marker.record_build_input(
                    input.mouse_world_pos,
                    input.build_click_released,
                );
            },
            GamePhase::Gather => {},
        }
    }

    /// Stage two: advance every timer exactly once — the global clocks,
    /// the attack cooldown, the build-click debounce and the turret
    /// fire-rate loops.
    pub fn tick_timers(&mut self, delta_ms: u64)
        requires
            old(self).wf(),
            delta_ms <= MAX_FRAME_DELTA_MS,
            old(self).manager.elapsed_time_ms + delta_ms <= u64::MAX,
            old(self).manager.current_phase_time_ms + delta_ms <= u64::MAX,
        ensures
            final(self).wf(),
            final(self).phase == old(self).phase,
            final(self).resources == old(self).resources,
            final(self).upgrades == old(self).upgrades,
            final(self).asteroids == old(self).asteroids,
            final(self).enemies == old(self).enemies,
            final(self).mining == old(self).mining,
            final(self).manager.elapsed_time_ms == old(self).manager.elapsed_time_ms + delta_ms,
            final(self).manager.current_phase_time_ms == old(self).manager.current_phase_time_ms
                + delta_ms,
            final(self).manager.cycle == old(self).manager.cycle,
            final(self).manager.enemy_damage_multiplier_tenths == old(
                self,
            ).manager.enemy_damage_multiplier_tenths,
            final(self).structures.spec_len() == old(self).structures.spec_len(),
    {
        self.manager.tick_time(delta_ms);
        self.combat.tick_attack_timer(delta_ms);
        self.marker.tick_debounce(delta_ms);
        crate::building::tick_turrets(&mut self.structures, delta_ms);
    }

    /// The player pressed a build button: pay for the building and enter
    /// build mode, or reject the purchase with a notification.
    pub fn build_action(&mut self, building_type: BuildingType, events: &mut Vec<GameEvent>) -> (ok:
        bool)
        requires
            old(self).wf(),
        ensures
            final(self).wf(),
            ok == (old(self).resources.delivered >= crate::building::spec_cost(building_type)),
            ok ==> final(self).resources.delivered == old(self).resources.delivered
                - crate::building::spec_cost(building_type) && final(self).marker.mode
                == Option::Some(building_type),
            !ok ==> final(self).resources.delivered == old(self).resources.delivered,
            final(self).resources.gathered == old(self).resources.gathered,
            final(self).phase == old(self).phase,
    {
        handle_build_action(&mut self.resources, &mut self.marker, building_type, events)
    }

    /// Leaving build mode by cancel: refund the pending building.
    pub fn cancel_pending_build(&mut self) -> (refunded: bool)
        requires
            old(self).wf(),
            old(self).marker.mode matches Some(bt) ==> old(self).resources.delivered
                + crate::building::spec_cost(bt) <= u32::MAX,
        ensures
            final(self).wf(),
            final(self).marker.mode is None,
            refunded == (old(self).marker.mode is Some),
            final(self).resources.gathered == old(self).resources.gathered,
            match old(self).marker.mode {
                Option::Some(bt) => final(self).resources.delivered == old(
                    self,
                ).resources.delivered + crate::building::spec_cost(bt),
                Option::None => final(self).resources.delivered == old(self).resources.delivered,
            },
    {
        cancel_build(&mut self.marker, &mut self.resources)
    }

    /// Whether this frame's mining tick completes: gathering, the key
    /// held, the probe reporting a hit, and the scaled timer running out.
    pub open spec fn spec_mined(self, probe_hit: Option<EntityId>, delta: int) -> bool {
        &&& self.phase == GamePhase::Gather
        &&& self.mining.interacting
        &&& probe_hit is Some
        &&& self.mining.timer.spec_elapsed() + delta * self.mining.mining_speed_multiplier_tenths
            / 10 >= self.mining.mining_time_ms
    }

    /// Stage three: simulate the frame. Mining, asteroid upkeep and the
    /// sensor sweep run only while gathering; the combat ship fires only
    /// during combat; building placement happens only while building.
    /// Delivery, the enemy decision chain (choose, travel, attack), the
    /// autonomous turrets and the ambient spawn decision run in every
    /// phase. After this stage no enemy references an entity that fails
    /// to resolve.
    pub fn simulate(
        &mut self,
        delta_ms: u64,
        mining_ship_pos: Vec2i,
        probe_hit: Option<EntityId>,
        combat_turret_pos: Vec2i,
        combat_turret_dir: Vec2i,
        turret_senses: &Vec<TurretSense>,
        events: &mut Vec<GameEvent>,
    )
        requires
            old(self).wf(),
            delta_ms <= MAX_FRAME_DELTA_MS,
            mining_ship_pos.in_bounds(),
            old(self).resources.gathered < u32::MAX,
            old(self).resources.delivered as int + old(self).resources.gathered + 1 <= u32::MAX,
        ensures
            final(self).wf(),
            final(self).phase == old(self).phase,
            // Clocks, timers and difficulty are not this stage's to change.
            final(self).manager.enemy_spawn_timer == old(self).manager.enemy_spawn_timer,
            final(self).manager.peace_timer == old(self).manager.peace_timer,
            final(self).manager.cycle == old(self).manager.cycle,
            final(self).manager.elapsed_time_ms == old(self).manager.elapsed_time_ms,
            final(self).manager.current_phase_time_ms == old(self).manager.current_phase_time_ms,
            final(self).manager.enemy_spawn_rate_multiplier_tenths == old(self).manager.enemy_spawn_rate_multiplier_tenths,
            final(self).manager.enemy_damage_multiplier_tenths == old(self).manager.enemy_damage_multiplier_tenths,
            // The ledger moves exactly by this frame's completed mining
            // tick and the delivery decision.
            ({
                let held = old(self).resources.gathered + (if old(self).spec_mined(
                    probe_hit,
                    delta_ms as int,
                ) {
                    1int
                } else {
                    0int
                });
                let delivering = dist_sq(mining_ship_pos, Vec2i { x: 0, y: 0 })
                    < DELIVERY_DIST_SQ_MILLI && held > 0;
                &&& final(self).resources.gathered == (if delivering {
                    0int
                } else {
                    held
                })
                &&& final(self).resources.delivered == old(self).resources.delivered + (
                if delivering {
                    held
                } else {
                    0int
                })
            }),
            // Mining and asteroid upkeep are gated to the Gather phase.
            old(self).phase != GamePhase::Gather ==> final(self).mining == old(self).mining
                && final(self).asteroids == old(self).asteroids
                && final(self).manager.asteroid_spawn_distance == old(self).manager.asteroid_spawn_distance,
            old(self).phase == GamePhase::Gather ==> {
                &&& final(self).mining.interacting == old(self).mining.interacting
                &&& final(self).mining.just_interacted == old(self).mining.just_interacted
                &&& final(self).mining.mining_time_ms == old(self).mining.mining_time_ms
                &&& final(self).mining.mining_speed_multiplier_tenths == old(self).mining.mining_speed_multiplier_tenths
                &&& (old(self).mining.interacting && probe_hit is Some ==> final(self).mining.timer.spec_elapsed()
                    == (old(self).mining.timer.spec_elapsed() + delta_ms * old(self).mining.mining_speed_multiplier_tenths / 10) % (
                    old(self).mining.mining_time_ms as int))
                &&& (!(old(self).mining.interacting && probe_hit is Some) ==> final(self).mining == old(self).mining)
                // A completed tick banks the resource, cues the collection
                // sound, and draws one from the probed asteroid.
                &&& (old(self).spec_mined(probe_hit, delta_ms as int) ==> {
                    &&& final(events)@.len() > old(events)@.len()
                    &&& final(events)@[old(events)@.len() as int] == (GameEvent::PlaySfx { sfx: SfxKey::Collect })
                    &&& (old(self).asteroids.spec_get(probe_hit->Some_0) matches Some(a) ==> (
                    a.contained_resources >= 2 ==> (final(self).asteroids.spec_get(
                        probe_hit->Some_0,
                    ) matches Some(a2) && a2.contained_resources == a.contained_resources - 1)))
                })
            },
            // A Gather frame never leaves a mined-out asteroid standing:
            // the upkeep sweep replaced each with a fresh one.
            old(self).phase == GamePhase::Gather ==> forall|k: int|
                0 <= k < final(self).asteroids.spec_len() ==> !crate::asteroid::depleted(
                    #[trigger] final(self).asteroids.spec_slot_value(k),
                ),
            // The combat ship fires exactly when the input is held and the
            // cooldown has elapsed; firing restarts the cooldown.
            old(self).phase != GamePhase::Combat ==> final(self).combat == old(self).combat,
            old(self).phase == GamePhase::Combat ==> {
                &&& (old(self).combat.shoot && old(self).combat.attack_timer.spec_finished() ==> {
                    &&& final(self).combat.attack_timer.spec_elapsed() == 0
                    &&& final(self).combat.attack_timer.spec_duration() == old(self).combat.attack_time_ms
                    &&& final(events)@.len() >= old(events)@.len() + 2
                    &&& final(events)@[old(events)@.len() as int] == (GameEvent::Shoot {
                        position: combat_turret_pos,
                        direction: combat_turret_dir,
                    })
                    &&& final(events)@[old(events)@.len() as int + 1] == (GameEvent::PlaySfx { sfx: SfxKey::Shoot })
                })
                &&& (!(old(self).combat.shoot && old(self).combat.attack_timer.spec_finished())
                    ==> final(self).combat == old(self).combat)
            },
            // Building placement happens exactly on a debounced click at a
            // clear site, and only while building.
            old(self).phase != GamePhase::Build ==> final(self).marker == old(self).marker
                && final(self).upgrades == old(self).upgrades,
            spec_live_count(final(self).structures, final(self).structures.spec_len())
                == spec_live_count(old(self).structures, old(self).structures.spec_len()) + (
            if old(self).phase == GamePhase::Build && old(self).marker.just_clicked && old(self).marker.mode is Some
                && spec_can_build_at(old(self).structures, old(self).marker.mouse_world_pos) {
                1int
            } else {
                0int
            }),
            old(self).phase == GamePhase::Build && old(self).marker.just_clicked && old(self).marker.mode is Some ==> {
                &&& (spec_can_build_at(old(self).structures, old(self).marker.mouse_world_pos) ==> {
                    &&& final(self).marker.mode is None
                    &&& final(events)@.len() > old(events)@.len()
                    &&& (final(events)@[old(events)@.len() as int] matches GameEvent::StructureSpawned { id, kind, position })
                })
                &&& (!spec_can_build_at(old(self).structures, old(self).marker.mouse_world_pos) ==> {
                    &&& final(self).marker.mode == old(self).marker.mode
                    &&& final(events)@.len() > old(events)@.len()
                    &&& final(events)@[old(events)@.len() as int] == (GameEvent::Notify {
                        note: Notification::TooCloseToStructure,
                    })
                })
            },
            // Every enemy stored at frame start ran the decision chain
            // against the store's unchanged positions and resolution.
            forall|k: int|
                0 <= k < old(self).enemies.spec_len() && (#[trigger] old(self).enemies.spec_slot_value(k)) is Some
                    ==> enemy_slot_stepped(
                    old(self).enemies.spec_slot_value(k),
                    final(self).enemies.spec_slot_value(k),
                    final(self).structures,
                    delta_ms as int,
                ),
            // No enemy leaves the frame holding a stale handle.
            forall|k: int|
                0 <= k < final(self).enemies.spec_len() && (#[trigger] final(self).enemies.spec_slot_value(k)) is Some ==> state_targets_resolve(
                    final(self).enemies.spec_slot_value(k)->Some_0.state,
                    final(self).structures,
                ),
            // The ambient spawn enters the store exactly when the spawn
            // timer completed this frame with the peace window elapsed.
            ({
                let ambient = old(self).manager.enemy_spawn_timer.spec_just_finished()
                    && old(self).manager.peace_timer.spec_finished();
                &&& spec_live_count(final(self).enemies, final(self).enemies.spec_len())
                    == spec_live_count(old(self).enemies, old(self).enemies.spec_len()) + (
                if ambient {
                    1int
                } else {
                    0int
                })
                &&& (ambient ==> final(events)@.len() > 0 && (final(events)@[final(events)@.len()
                    - 1] matches GameEvent::EnemySpawned { id, position, damage_mult_tenths }))
            }),
            // Each turret whose fire-rate loop completed and whose sense
            // volume reports an enemy stored since frame start put its
            // shot into the stream.
            forall|q: int|
                0 <= q < turret_senses@.len() && sense_fires(
                    final(self).structures,
                    final(self).enemies,
                    #[trigger] turret_senses@[q],
                ) && old(self).enemies.spec_get(turret_senses@[q].first_overlap->Some_0) is Some
                    ==> exists|w: int|
                    old(events)@.len() <= w < final(events)@.len() && final(events)@[w]
                        == spec_turret_shot(
                        final(self).structures,
                        final(self).enemies,
                        turret_senses@[q],
                    ),
            // The event stream is append-only.
            final(events)@.len() >= old(events)@.len(),
            forall|j: int| 0 <= j < old(events)@.len() ==> final(events)@[j] == old(events)@[j],
    {
        let ghost entry = *self;
        match self.phase {
            GamePhase::Gather => {
                mine(
                    &mut self.mining,
                    &mut self.resources,
                    &mut self.asteroids,
                    probe_hit,
                    delta_ms,
                    events,
                );
                let ghost mined_store = self.asteroids;
                destroy_empty_asteroids(&mut self.manager, &mut self.asteroids, events);
                proof {
                    crate::asteroid::lemma_depleted_count_nonneg(
                        mined_store,
                        mined_store.spec_len(),
                    );
                }
                let ghost swept = self.asteroids;
                reveal_nearby_asteroids(mining_ship_pos, &mut self.asteroids, events);
                proof {
                    crate::mining::lemma_revealed_count_nonneg(
                        swept,
                        mining_ship_pos,
                        swept.spec_len(),
                    );
                    assert forall|k: int|
                        0 <= k < self.asteroids.spec_len() implies !crate::asteroid::depleted(
                        #[trigger] self.asteroids.spec_slot_value(k),
                    ) by {
                        assert(!crate::asteroid::depleted(swept.spec_slot_value(k)));
                    }
                }
            },
            GamePhase::Combat => {
                self.combat.shoot(combat_turret_pos, combat_turret_dir, events);
            },
            GamePhase::Build => {
                try_place_building(
                    &mut self.marker,
                    &mut self.structures,
                    &mut self.upgrades,
                    events,
                );
            },
        }
        deliver_resources(&mut self.resources, mining_ship_pos, events);
        let ghost after_arm = *self;
        self.step_enemies(delta_ms);
        proof {
            // The decision chain replaces enemies and structure health in
            // place: both populations are unchanged.
            crate::arena::lemma_live_count_shape(
                self.structures,
                after_arm.structures,
                after_arm.structures.spec_len(),
            );
            crate::arena::lemma_live_count_shape(
                self.enemies,
                after_arm.enemies,
                after_arm.enemies.spec_len(),
            );
            assert forall|k: int|
                0 <= k < after_arm.enemies.spec_len() implies (#[trigger] self.enemies
                .spec_slot_value(k)) is Some == after_arm.enemies.spec_slot_value(k) is Some by {
                assert(enemy_slot_stepped(
                    after_arm.enemies.spec_slot_value(k),
                    self.enemies.spec_slot_value(k),
                    self.structures,
                    delta_ms as int,
                ));
            }
        }
        let ghost ev_before_fire = events@;
        self.fire_turrets(turret_senses, events);
        let ghost ev_after_fire = events@;
        let ghost stepped = *self;
        match self.manager.spawn_enemies() {
            Option::Some(e) => {
                match e {
                    GameEvent::SpawnEnemy { distance, damage_mult_tenths } => {
                        if distance <= MAX_RING_DISTANCE
                            && damage_mult_tenths <= crate::gameplay::MULT_CAP_TENTHS {
                            let ghost enemies_before = self.enemies;
                            let sid = spawn_enemy(
                                &mut self.enemies,
                                distance,
                                damage_mult_tenths,
                                events,
                            );
                            proof {
                                crate::arena::lemma_slot_in_range(self.enemies, sid.index as int);
                                crate::arena::lemma_live_count_insert(
                                    enemies_before,
                                    self.enemies,
                                    sid,
                                );
                                assert forall|k: int|
                                    0 <= k < self.enemies.spec_len() && (#[trigger] self.enemies
                                        .spec_slot_value(k)) is Some implies state_targets_resolve(
                                    self.enemies.spec_slot_value(k)->Some_0.state,
                                    self.structures,
                                ) by {
                                    if k == sid.index {
                                        assert(self.enemies.spec_slot_value(k)
                                            == self.enemies.spec_get(sid));
                                    } else {
                                        assert(self.enemies.spec_slot_value(k)
                                            == stepped.enemies.spec_slot_value(k));
                                        crate::arena::lemma_slot_in_range(stepped.enemies, k);
                                    }
                                }
                                assert forall|k: int|
                                    0 <= k < old(self).enemies.spec_len() && (#[trigger] old(self).enemies.spec_slot_value(k)) is Some
                                        implies enemy_slot_stepped(
                                    old(self).enemies.spec_slot_value(k),
                                    self.enemies.spec_slot_value(k),
                                    self.structures,
                                    delta_ms as int,
                                ) by {
                                    assert(stepped.enemies.spec_slot_value(k) is Some);
                                    assert(k != sid.index);
                                    assert(self.enemies.spec_slot_value(k)
                                        == stepped.enemies.spec_slot_value(k));
                                }
                                assert forall|o: EntityId|
                                    (#[trigger] stepped.enemies.spec_get(o))
                                        is Some implies self.enemies.spec_get(o)
                                    == stepped.enemies.spec_get(o) by {
                                    assert(o != sid);
                                }
                            }
                        }
                    },
                    _ => {},
                }
            },
            Option::None => {},
        }
        proof {
            // The stores the turret stage saw carry to the frame's end:
            // only the ambient spawn's fresh enemy was added after it.
            assert forall|q: int|
                0 <= q < turret_senses@.len() && sense_fires(
                    self.structures,
                    self.enemies,
                    #[trigger] turret_senses@[q],
                ) && old(self).enemies.spec_get(turret_senses@[q].first_overlap->Some_0)
                is Some implies exists|w: int|
                old(events)@.len() <= w < events@.len() && events@[w] == spec_turret_shot(
                    self.structures,
                    self.enemies,
                    turret_senses@[q],
                ) by {
                let sense = turret_senses@[q];
                let h = sense.first_overlap->Some_0;
                assert(stepped.enemies.spec_get(h) == self.enemies.spec_get(h));
                assert(sense_fires(stepped.structures, stepped.enemies, sense));
                let w = choose|w: int|
                    ev_before_fire.len() <= w < ev_after_fire.len() && ev_after_fire[w]
                        == spec_turret_shot(stepped.structures, stepped.enemies, sense);
                assert(events@[w] == ev_after_fire[w]);
                assert(spec_turret_shot(stepped.structures, stepped.enemies, sense)
                    == spec_turret_shot(self.structures, self.enemies, sense));
            }
        }
    }

    /// Run the decision chain for every enemy: choose a target while
    /// idle, move, then attack, all against the current structure store.
    /// Afterwards every stored enemy's state resolves.
    fn step_enemies(&mut self, delta_ms: u64)
        requires
            old(self).wf(),
            delta_ms <= MAX_FRAME_DELTA_MS,
        ensures
            final(self).wf(),
            final(self).phase == old(self).phase,
            final(self).resources == old(self).resources,
            final(self).upgrades == old(self).upgrades,
            final(self).manager == old(self).manager,
            final(self).mining == old(self).mining,
            final(self).combat == old(self).combat,
            final(self).marker == old(self).marker,
            final(self).asteroids == old(self).asteroids,
            final(self).enemies.spec_len() == old(self).enemies.spec_len(),
            final(self).structures.spec_len() == old(self).structures.spec_len(),
            // Every stored enemy ran the frame's decision chain against the
            // structure store's (unchanged) positions and resolution.
            forall|k: int|
                0 <= k < old(self).enemies.spec_len() ==> enemy_slot_stepped(
                    #[trigger] old(self).enemies.spec_slot_value(k),
                    final(self).enemies.spec_slot_value(k),
                    final(self).structures,
                    delta_ms as int,
                ),
            forall|k: int|
                0 <= k < final(self).enemies.spec_len() && (#[trigger] final(self).enemies.spec_slot_value(k)) is Some ==> state_targets_resolve(
                    final(self).enemies.spec_slot_value(k)->Some_0.state,
                    final(self).structures,
                ),
            // Enemies are rewritten in place: every handle resolves
            // exactly as it did.
            forall|o: EntityId|
                (#[trigger] final(self).enemies.spec_get(o)) is Some == old(self).enemies.spec_get(o) is Some,
            // Structures change only by taking damage: resolution and
            // positions are untouched, slot for slot.
            forall|o: EntityId|
                (#[trigger] final(self).structures.spec_get(o)) is Some == old(self).structures.spec_get(o) is Some,
            forall|o: EntityId|
                final(self).structures.spec_get(o) is Some ==> (#[trigger] final(self).structures.spec_get(o))->Some_0.position == old(self).structures.spec_get(o)->Some_0.position
                    && final(self).structures.spec_get(o)->Some_0.kind == old(self).structures.spec_get(o)->Some_0.kind
                    && final(self).structures.spec_get(o)->Some_0.turret == old(self).structures.spec_get(o)->Some_0.turret,
            forall|k: int|
                0 <= k < old(self).structures.spec_len() ==> (#[trigger] final(self).structures.spec_slot_value(k)) is Some == old(self).structures.spec_slot_value(k) is Some,
    {
        let n = self.enemies.slot_count();
        let mut i: usize = 0;
        while i < n
            invariant
                i <= n,
                n == self.enemies.spec_len(),
                self.enemies.spec_len() == old(self).enemies.spec_len(),
                self.structures.spec_len() == old(self).structures.spec_len(),
                delta_ms <= MAX_FRAME_DELTA_MS,
                enemies_wf(self.enemies),
                structures_wf(self.structures),
                forall|k: int|
                    i <= k < n ==> self.enemies.spec_slot_value(k) == old(self).enemies.spec_slot_value(k),
                forall|k: int|
                    0 <= k < i ==> enemy_slot_stepped(
                        #[trigger] old(self).enemies.spec_slot_value(k),
                        self.enemies.spec_slot_value(k),
                        self.structures,
                        delta_ms as int,
                    ),
                forall|k: int|
                    0 <= k < i && (#[trigger] self.enemies.spec_slot_value(k)) is Some
                        ==> state_targets_resolve(
                        self.enemies.spec_slot_value(k)->Some_0.state,
                        self.structures,
                    ),
                forall|o: EntityId|
                    (#[trigger] self.enemies.spec_get(o)) is Some == old(self).enemies.spec_get(o) is Some,
                forall|o: EntityId|
                    (#[trigger] self.structures.spec_get(o)) is Some == old(self).structures.spec_get(o) is Some,
                forall|o: EntityId|
                    self.structures.spec_get(o) is Some ==> (#[trigger] self.structures.spec_get(o))->Some_0.position == old(self).structures.spec_get(o)->Some_0.position
                        && self.structures.spec_get(o)->Some_0.kind == old(self).structures.spec_get(o)->Some_0.kind
                        && self.structures.spec_get(o)->Some_0.turret == old(self).structures.spec_get(o)->Some_0.turret,
                forall|k: int|
                    0 <= k < old(self).structures.spec_len() ==> (#[trigger] self.structures.spec_slot_value(k)) is Some == old(self).structures.spec_slot_value(k) is Some,
                self.resources == old(self).resources,
                self.upgrades == old(self).upgrades,
                self.manager == old(self).manager,
                self.mining == old(self).mining,
                self.combat == old(self).combat,
                self.marker == old(self).marker,
                self.asteroids == old(self).asteroids,
                self.phase == old(self).phase,
            decreases n - i,
        {
            match self.enemies.get_at(i) {
                Option::Some(p) => {
                    let mut e = p.1;
                    let ghost pre = p.1;
                    let ghost structures_entry = self.structures;
                    choose_target(&mut e, &self.structures);
                    let ghost e1 = e;
                    travel_to_target(&mut e, &self.structures, delta_ms);
                    let ghost e2 = e;
                    attack_target(&mut e, &mut self.structures, delta_ms);
                    let ghost enemies_entry = self.enemies;
                    self.enemies.replace(p.0, e);
                    proof {
                        // The attack changed at most one structure's health:
                        // resolution and positions carry over.
                        assert forall|o: EntityId|
                            (#[trigger] self.structures.spec_get(o)) is Some
                                == structures_entry.spec_get(o) is Some by {
                            match e2.state {
                                EnemyState::Attacking(t) => {
                                    if o != t {
                                        assert(self.structures.spec_get(o)
                                            == structures_entry.spec_get(o));
                                    }
                                },
                                _ => {},
                            }
                        }
                        assert forall|o: EntityId|
                            self.structures.spec_get(o) is Some implies (#[trigger] self.structures.spec_get(o))->Some_0.position
                                == structures_entry.spec_get(o)->Some_0.position
                                && self.structures.spec_get(o)->Some_0.kind
                                == structures_entry.spec_get(o)->Some_0.kind
                                && self.structures.spec_get(o)->Some_0.turret
                                == structures_entry.spec_get(o)->Some_0.turret by {
                            match e2.state {
                                EnemyState::Attacking(t) => {
                                    if o != t {
                                        assert(self.structures.spec_get(o)
                                            == structures_entry.spec_get(o));
                                    }
                                },
                                _ => {},
                            }
                        }
                        assert forall|k: int|
                            0 <= k < old(self).structures.spec_len() implies (
                        #[trigger] self.structures.spec_slot_value(k)) is Some
                            == old(self).structures.spec_slot_value(k) is Some by {
                            match e2.state {
                                EnemyState::Attacking(t) => {
                                    if k != t.index {
                                        assert(self.structures.spec_slot_value(k)
                                            == structures_entry.spec_slot_value(k));
                                    } else {
                                        crate::arena::lemma_get_slot(structures_entry, t);
                                        crate::arena::lemma_get_slot(self.structures, t);
                                    }
                                },
                                _ => {},
                            }
                        }
                        // The enemy just written back ran the whole chain.
                        assert(enemy_frame_step(pre, e, structures_entry, delta_ms as int));
                        crate::enemy::lemma_enemy_frame_step_stable(
                            pre,
                            e,
                            structures_entry,
                            self.structures,
                            delta_ms as int,
                        );
                        assert forall|k: int|
                            0 <= k < self.enemies.spec_len() && (#[trigger] self.enemies
                                .spec_slot_value(k)) is Some implies self.enemies.spec_slot_value(
                            k,
                        )->Some_0.wf() by {
                            if k != p.0.index {
                                assert(self.enemies.spec_slot_value(k)
                                    == enemies_entry.spec_slot_value(k));
                                crate::arena::lemma_slot_in_range(enemies_entry, k);
                            } else {
                                assert(self.enemies.spec_slot_value(k) == Option::Some(e));
                            }
                        }
                        assert forall|k: int|
                            0 <= k < i + 1 implies enemy_slot_stepped(
                            #[trigger] old(self).enemies.spec_slot_value(k),
                            self.enemies.spec_slot_value(k),
                            self.structures,
                            delta_ms as int,
                        ) by {
                            if k == p.0.index {
                                assert(self.enemies.spec_slot_value(k) == Option::Some(e));
                                assert(old(self).enemies.spec_slot_value(k) == Option::Some(pre));
                            } else {
                                assert(self.enemies.spec_slot_value(k)
                                    == enemies_entry.spec_slot_value(k));
                                match old(self).enemies.spec_slot_value(k) {
                                    Option::Some(prek) => {
                                        match enemies_entry.spec_slot_value(k) {
                                            Option::Some(postk) => {
                                                crate::enemy::lemma_enemy_frame_step_stable(
                                                    prek,
                                                    postk,
                                                    structures_entry,
                                                    self.structures,
                                                    delta_ms as int,
                                                );
                                            },
                                            Option::None => {},
                                        }
                                    },
                                    Option::None => {},
                                }
                            }
                        }
                        assert(state_targets_resolve(e.state, self.structures));
                        assert forall|k: int|
                            0 <= k < i + 1 && (#[trigger] self.enemies.spec_slot_value(k))
                                is Some implies state_targets_resolve(
                            self.enemies.spec_slot_value(k)->Some_0.state,
                            self.structures,
                        ) by {
                            if k != p.0.index {
                                assert(self.enemies.spec_slot_value(k)
                                    == enemies_entry.spec_slot_value(k));
                            }
                        }
                    }
                },
                Option::None => {
                    proof {
                        assert(old(self).enemies.spec_slot_value(i as int) is None);
                    }
                },
            }
            i = i + 1;
        }
    }

    /// Every turret whose fire-rate timer completed this frame and whose
    /// sense volume reports a still-resolving enemy fires at it.
    fn fire_turrets(&self, turret_senses: &Vec<TurretSense>, events: &mut Vec<GameEvent>)
        requires
            self.wf(),
        ensures
            final(events)@.len() >= old(events)@.len(),
            forall|q: int| 0 <= q < old(events)@.len() ==> final(events)@[q] == old(events)@[q],
            // Each firing sense report put its shot into the stream.
            forall|q: int|
                0 <= q < turret_senses@.len() && sense_fires(
                    self.structures,
                    self.enemies,
                    #[trigger] turret_senses@[q],
                ) ==> exists|w: int|
                    old(events)@.len() <= w < final(events)@.len() && final(events)@[w]
                        == spec_turret_shot(self.structures, self.enemies, turret_senses@[q]),
    {
        let m = turret_senses.len();
        let mut j: usize = 0;
        while j < m
            invariant
                j <= m,
                m == turret_senses@.len(),
                structures_wf(self.structures),
                enemies_wf(self.enemies),
                events@.len() >= old(events)@.len(),
                forall|q: int| 0 <= q < old(events)@.len() ==> events@[q] == old(events)@[q],
                forall|q: int|
                    0 <= q < j && sense_fires(
                        self.structures,
                        self.enemies,
                        #[trigger] turret_senses@[q],
                    ) ==> exists|w: int|
                        old(events)@.len() <= w < events@.len() && events@[w] == spec_turret_shot(
                            self.structures,
                            self.enemies,
                            turret_senses@[q],
                        ),
            decreases m - j,
        {
            let sense = turret_senses[j];
            let ghost ev_pre = events@;
            match self.structures.get(sense.turret) {
                Option::Some(s) => {
                    proof {
                        crate::arena::lemma_get_slot(self.structures, sense.turret);
                    }
                    match s.turret {
                        Option::Some(t) => {
                            let mut overlapping: Vec<EntityId> = Vec::new();
                            match sense.first_overlap {
                                Option::Some(h) => {
                                    overlapping.push(h);
                                },
                                Option::None => {},
                            }
                            match turret_fire(&t, s.position, &overlapping, &self.enemies) {
                                Option::Some(shot) => {
                                    let ghost wpos = events@.len() as int;
                                    events.push(shot);
                                    proof {
                                        if sense_fires(self.structures, self.enemies, sense) {
                                            assert(events@[wpos] == shot);
                                            assert(shot == spec_turret_shot(
                                                self.structures,
                                                self.enemies,
                                                sense,
                                            ));
                                        }
                                    }
                                },
                                Option::None => {
                                    proof {
                                        assert(!sense_fires(
                                            self.structures,
                                            self.enemies,
                                            sense,
                                        ));
                                    }
                                },
                            }
                        },
                        Option::None => {
                            proof {
                                assert(!sense_fires(self.structures, self.enemies, sense));
                            }
                        },
                    }
                },
                Option::None => {
                    proof {
                        assert(!sense_fires(self.structures, self.enemies, sense));
                    }
                },
            }
            proof {
                assert forall|q: int|
                    0 <= q < j + 1 && sense_fires(
                        self.structures,
                        self.enemies,
                        #[trigger] turret_senses@[q],
                    ) implies exists|w: int|
                        old(events)@.len() <= w < events@.len() && events@[w] == spec_turret_shot(
                            self.structures,
                            self.enemies,
                            turret_senses@[q],
                        ) by {
                    if q < j {
                        let w = choose|w: int|
                            old(events)@.len() <= w < ev_pre.len() && ev_pre[w]
                                == spec_turret_shot(
                                self.structures,
                                self.enemies,
                                turret_senses@[q],
                            );
                        assert(events@[w] == ev_pre[w]);
                    }
                }
            }
            j = j + 1;
        }
    }

    /// Stage four: observe the phase clock. On a transition the new phase
    /// takes over, its camera anchor gets focus, leaving Gather launches
    /// the enemy wave (spawned here into the store), leaving Combat closes
    /// the cycle and escalates the difficulty, and leaving Build refunds
    /// any pending placement. Destroyed structures are then swept out.
    pub fn post_update(&mut self, events: &mut Vec<GameEvent>) -> (transitioned: bool)
        requires
            old(self).wf(),
            old(self).marker.mode matches Some(bt) ==> old(self).resources.delivered
                + crate::building::spec_cost(bt) <= u32::MAX,
        ensures
            final(self).wf(),
            transitioned == (old(self).manager.current_phase_time_ms
                > crate::phase::PHASE_DURATION_MS),
            !transitioned ==> final(self).phase == old(self).phase && final(self).manager.cycle
                == old(self).manager.cycle,
            transitioned ==> final(self).phase == crate::phase::spec_next_phase(old(self).phase),
            // The cycle counter advances exactly on the Combat-to-Build
            // transition.
            final(self).manager.cycle == (if transitioned && old(self).phase == GamePhase::Combat
                && old(self).manager.cycle < u32::MAX {
                old(self).manager.cycle + 1
            } else {
                old(self).manager.cycle as int
            }),
            final(self).manager.enemy_damage_multiplier_tenths >= old(
                self,
            ).manager.enemy_damage_multiplier_tenths,
            // Leaving the Build phase clears and refunds exactly a pending
            // build's cost; resources are otherwise untouched here.
            transitioned && old(self).phase == GamePhase::Build ==> final(self).marker.mode
                is None && final(self).resources.gathered == old(self).resources.gathered
                && final(self).resources.delivered == old(self).resources.delivered + (
            match old(self).marker.mode {
                Option::Some(bt) => crate::building::spec_cost(bt) as int,
                Option::None => 0int,
            }),
            !(transitioned && old(self).phase == GamePhase::Build) ==> final(self).resources
                == old(self).resources && final(self).marker.mode == old(self).marker.mode,
            // The Gather-exit wave stands in the enemy store: one stored
            // enemy per wave slot; the store is otherwise untouched.
            transitioned && old(self).phase == GamePhase::Gather ==> spec_live_count(
                final(self).enemies,
                final(self).enemies.spec_len(),
            ) == spec_live_count(old(self).enemies, old(self).enemies.spec_len())
                + crate::phase::spec_wave_count(old(self).manager.cycle),
            !(transitioned && old(self).phase == GamePhase::Gather) ==> final(self).enemies
                == old(self).enemies,
            // The destroyed-structure sweep ran last: every structure
            // whose health ran out is gone, the rest stand untouched, and
            // the upgrade ledger got its entries back.
            final(self).structures.spec_len() == old(self).structures.spec_len(),
            forall|k: int|
                0 <= k < old(self).structures.spec_len() ==> final(self).structures.spec_slot_value(k) == (
                if crate::building::doomed(old(self).structures.spec_slot_value(k)) {
                    Option::<Structure>::None
                } else {
                    old(self).structures.spec_slot_value(k)
                }),
            final(self).upgrades.mining_speed == crate::building::sat_sub(
                old(self).upgrades.mining_speed as int,
                crate::building::doomed_upgrade_count(
                    old(self).structures,
                    crate::upgrades::UpgradeType::MiningSpeed,
                    old(self).structures.spec_len(),
                ),
            ),
            final(self).upgrades.fire_rate == crate::building::sat_sub(
                old(self).upgrades.fire_rate as int,
                crate::building::doomed_upgrade_count(
                    old(self).structures,
                    crate::upgrades::UpgradeType::FireRate,
                    old(self).structures.spec_len(),
                ),
            ),
            // The transition hands camera focus to the new phase's anchor,
            // right after the wave or soundtrack events; the sweep's own
            // events close the frame.
            ({
                let appended = (if transitioned && old(self).phase == GamePhase::Gather {
                    crate::phase::spec_wave_count(old(self).manager.cycle)
                } else if transitioned && old(self).phase == GamePhase::Combat && final(self).manager.cycle % 2 == 0 {
                    1int
                } else {
                    0int
                });
                let pre_destroy = old(events)@.len() + appended + (if transitioned {
                    1int
                } else {
                    0int
                });
                &&& (transitioned ==> final(events)@[old(events)@.len() + appended]
                    == (GameEvent::FocusCamera {
                    anchor: crate::phase::spec_camera_anchor(
                        crate::phase::spec_next_phase(old(self).phase),
                    ),
                }))
                &&& final(events)@.len() == pre_destroy + crate::building::destroy_events(
                    old(self).structures,
                    old(self).structures.spec_len(),
                ).len()
                &&& forall|m: int|
                    0 <= m < crate::building::destroy_events(
                        old(self).structures,
                        old(self).structures.spec_len(),
                    ).len() ==> final(events)@[pre_destroy + m] == crate::building::destroy_events(
                        old(self).structures,
                        old(self).structures.spec_len(),
                    )[m]
            }),
            forall|j: int| 0 <= j < old(events)@.len() ==> final(events)@[j] == old(events)@[j],
            // The controllers end the frame synced to the upgrade ledger.
            final(self).mining.mining_speed_multiplier_tenths == 10 + 5 * final(self).upgrades.mining_speed,
            final(self).combat.attack_time_ms == 1000int / (1 + final(self).upgrades.fire_rate) + (
            if final(self).upgrades.fire_rate > 0 {
                200int
            } else {
                0
            }),
    {
        let transitioned = self.manager.current_phase_time_ms > crate::phase::PHASE_DURATION_MS;
        let (next, phase_events) = update_phase(&mut self.manager, self.phase);
        let leaving = self.phase;
        self.phase = next;
        let ghost mid = *self;
        let ghost wave = transitioned && leaving == GamePhase::Gather;
        let mut idx: usize = 0;
        let pn = phase_events.len();
        while idx < pn
            invariant
                idx <= pn,
                pn == phase_events@.len(),
                enemies_wf(self.enemies),
                self.manager == mid.manager,
                self.phase == mid.phase,
                self.resources == mid.resources,
                self.upgrades == mid.upgrades,
                self.marker == mid.marker,
                self.structures == mid.structures,
                self.asteroids == mid.asteroids,
                self.mining == mid.mining,
                self.combat == mid.combat,
                wave == (transitioned && leaving == GamePhase::Gather),
                !transitioned ==> pn == 0,
                transitioned && leaving == GamePhase::Build ==> pn == 0,
                transitioned && leaving == GamePhase::Combat ==> forall|q: int|
                    0 <= q < pn ==> (#[trigger] phase_events@[q]) matches
                        GameEvent::PlaySoundtrack { soundtrack },
                wave ==> forall|q: int|
                    0 <= q < pn ==> phase_events@[q] == (GameEvent::SpawnEnemy {
                        distance: crate::gameplay::ENEMY_SPAWN_DISTANCE,
                        damage_mult_tenths: mid.manager.enemy_damage_multiplier_tenths,
                    }),
                wave ==> mid.manager.enemy_damage_multiplier_tenths
                    <= crate::gameplay::MULT_CAP_TENTHS,
                wave ==> spec_live_count(self.enemies, self.enemies.spec_len())
                    == spec_live_count(mid.enemies, mid.enemies.spec_len()) + idx,
                !wave ==> self.enemies == mid.enemies,
                events@.len() == old(events)@.len() + idx,
                forall|q: int| 0 <= q < old(events)@.len() ==> events@[q] == old(events)@[q],
            decreases pn - idx,
        {
            let e = phase_events[idx];
            let ghost enemies_prev = self.enemies;
            proof {
                assert(e == phase_events@[idx as int]);
            }
            match e {
                GameEvent::SpawnEnemy { distance, damage_mult_tenths } => {
                    proof {
                        // Only the Gather exit emits spawn requests: without
                        // a wave the transition's event list holds none.
                        if !wave {
                            if !transitioned || leaving == GamePhase::Build
                                || leaving == GamePhase::Gather {
                                assert(pn == 0);
                            } else {
                                assert(phase_events@[idx as int] matches GameEvent::PlaySoundtrack
                                    { soundtrack });
                            }
                            assert(false);
                        }
                    }
                    if distance <= MAX_RING_DISTANCE
                        && damage_mult_tenths <= crate::gameplay::MULT_CAP_TENTHS {
                        let sid = spawn_enemy(
                            &mut self.enemies,
                            distance,
                            damage_mult_tenths,
                            events,
                        );
                        proof {
                            crate::arena::lemma_slot_in_range(self.enemies, sid.index as int);
                            crate::arena::lemma_live_count_insert(
                                enemies_prev,
                                self.enemies,
                                sid,
                            );
                        }
                    }
                },
                GameEvent::PlaySoundtrack { soundtrack } => {
                    proof {
                        assert(!wave);
                    }
                    events.push(GameEvent::PlaySoundtrack { soundtrack });
                },
                _ => {
                    proof {
                        assert(!wave);
                    }
                },
            }
            idx = idx + 1;
        }
        if transitioned {
            events.push(GameEvent::FocusCamera { anchor: self.phase.camera_anchor() });
            match leaving {
                GamePhase::Build => {
                    cancel_build(&mut self.marker, &mut self.resources);
                },
                _ => {},
            }
        }
        destroy_buildings(&mut self.structures, &mut self.upgrades, events);
        self.mining.update_mining_speed_mult(&self.upgrades);
        self.combat.update_attack_time(&self.upgrades);
        transitioned
    }
}

} // verus!
