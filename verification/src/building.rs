//! Buildings and the build flow: choosing a building, paying for it,
//! placing it, and sweeping destroyed structures out of the world.

use crate::arena::{Arena, EntityId};
use crate::events::{GameEvent, Notification, SfxKey};
use crate::geom::{dist_sq, dist_sq_u64, Vec2i};
use crate::resources::Resources;
use crate::timer::{Timer, TimerMode};
use crate::turret::{Turret, SNIPER_INTERVAL_MS, TURRET_INTERVAL_MS};
use crate::upgrades::{UpgradeType, Upgrades};
use vstd::prelude::*;

verus! {

/// Squared distance (milli-units) under which a new building is too close
/// to a standing structure to be placed.
pub const BUILD_EXCLUSION_DIST_SQ_MILLI: u64 = 100_000_000;

/// Debounce after entering build mode before a click places, in ms.
pub const BUILD_CLICK_DEBOUNCE_MS: u64 = 500;

pub const DECOY_HEALTH_MILLI: i64 = 200_000;

pub const TURRET_HEALTH_MILLI: i64 = 50_000;

pub const SNIPER_HEALTH_MILLI: i64 = 50_000;

pub const UPGRADE_HEALTH_MILLI: i64 = 60_000;

pub const STATION_HEALTH_MILLI: i64 = 1_000_000;

/// The buildings the player can buy.
#[derive(Clone, Copy, PartialEq, Eq, Structural, Debug)]
pub enum BuildingType {
    Decoy,
    Turret,
    Sniper,
    MiningUpgrade,
    FireRateUpgrade,
}

/// What a building of each type costs in delivered resources.
pub open spec fn spec_cost(t: BuildingType) -> u32 {
    match t {
        BuildingType::Decoy => 3,
        BuildingType::Turret => 12,
        BuildingType::Sniper => 15,
        BuildingType::FireRateUpgrade => 9,
        BuildingType::MiningUpgrade => 14,
    }
}

impl BuildingType {
    pub fn cost(&self) -> (c: u32)
        ensures
            c == spec_cost(*self),
    {
        match self {
            BuildingType::Decoy => 3,
            BuildingType::Turret => 12,
            BuildingType::Sniper => 15,
            BuildingType::FireRateUpgrade => 9,
            BuildingType::MiningUpgrade => 14,
        }
    }
}

/// Every kind of structure that can stand in the world: the home station
/// and the five buildable kinds.
#[derive(Clone, Copy, PartialEq, Eq, Structural, Debug)]
pub enum StructureKind {
    Station,
    Decoy,
    Turret,
    Sniper,
    MiningUpgrade,
    FireRateUpgrade,
}

/// The upgrade ledger entry a structure kind carries, if any.
pub open spec fn spec_upgrade_of(k: StructureKind) -> Option<UpgradeType> {
    match k {
        StructureKind::MiningUpgrade => Option::Some(UpgradeType::MiningSpeed),
        StructureKind::FireRateUpgrade => Option::Some(UpgradeType::FireRate),
        _ => Option::None,
    }
}

/// Health of anything enemies can destroy. Health stays between zero and
/// the maximum; a structure at zero is swept away.
#[derive(Clone, Copy, PartialEq, Eq, Structural, Debug)]
pub struct Destructable {
    pub health_milli: i64,
    pub max_health_milli: i64,
}

impl Destructable {
    pub open spec fn wf(self) -> bool {
        0 < self.max_health_milli <= 1_000_000_000_000 && 0 <= self.health_milli
            <= self.max_health_milli
    }

    /// A fresh destructable starts at full health; zero or negative initial
    /// health is a construction error and is ruled out.
    pub fn new(health_milli: i64) -> (d: Destructable)
        requires
            0 < health_milli <= 1_000_000_000_000,
        ensures
            d.wf(),
            d.health_milli == health_milli,
            d.max_health_milli == health_milli,
    {
        Destructable { health_milli, max_health_milli: health_milli }
    }

    /// Health as a fraction of the maximum, in permille, for health bars.
    pub fn value_permille(&self) -> (v: u64)
        requires
            self.wf(),
        ensures
            v == self.health_milli as int * 1000 / self.max_health_milli as int,
    {
        proof {
            assert(self.health_milli * 1000 <= 1_000_000_000_000i64 * 1000) by (nonlinear_arith)
                requires
                    self.health_milli <= 1_000_000_000_000,
            ;
            assert(self.health_milli * 1000 >= 0) by (nonlinear_arith)
                requires
                    self.health_milli >= 0,
            ;
        }
        ((self.health_milli * 1000) / self.max_health_milli) as u64
    }
}

/// A standing structure: the station or a placed building, with its
/// health, position, and, for turret kinds, its fire-rate loop.
#[derive(Clone, Copy, Debug)]
pub struct Structure {
    pub kind: StructureKind,
    pub destructable: Destructable,
    pub position: Vec2i,
    pub turret: Option<Turret>,
}

impl Structure {
    pub open spec fn wf(self) -> bool {
        &&& self.destructable.wf()
        &&& self.position.in_bounds()
        &&& (self.turret matches Some(t) ==> t.wf())
    }

    /// The structure a purchased building becomes: type-specific health,
    /// and a turret loop for the turret kinds.
    pub fn build(t: BuildingType, position: Vec2i) -> (s: Structure)
        requires
            position.in_bounds(),
        ensures
            s.wf(),
            s.position == position,
            s.kind == (match t {
                BuildingType::Decoy => StructureKind::Decoy,
                BuildingType::Turret => StructureKind::Turret,
                BuildingType::Sniper => StructureKind::Sniper,
                BuildingType::MiningUpgrade => StructureKind::MiningUpgrade,
                BuildingType::FireRateUpgrade => StructureKind::FireRateUpgrade,
            }),
            s.destructable.health_milli == s.destructable.max_health_milli,
            s.destructable.max_health_milli == (match t {
                BuildingType::Decoy => DECOY_HEALTH_MILLI as int,
                BuildingType::Turret => TURRET_HEALTH_MILLI as int,
                BuildingType::Sniper => SNIPER_HEALTH_MILLI as int,
                BuildingType::MiningUpgrade => UPGRADE_HEALTH_MILLI as int,
                BuildingType::FireRateUpgrade => UPGRADE_HEALTH_MILLI as int,
            }),
            (s.turret matches Some(tr)) == (t == BuildingType::Turret || t == BuildingType::Sniper),
            t == BuildingType::Turret ==> (s.turret matches Some(tr)
                && tr.shoot_timer.spec_duration() == TURRET_INTERVAL_MS),
            t == BuildingType::Sniper ==> (s.turret matches Some(tr)
                && tr.shoot_timer.spec_duration() == SNIPER_INTERVAL_MS),
    {
        match t {
            BuildingType::Decoy => Structure {
                kind: StructureKind::Decoy,
                destructable: Destructable::new(DECOY_HEALTH_MILLI),
                position,
                turret: Option::None,
            },
            BuildingType::Turret => Structure {
                kind: StructureKind::Turret,
                destructable: Destructable::new(TURRET_HEALTH_MILLI),
                position,
                turret: Option::Some(Turret::new(TURRET_INTERVAL_MS)),
            },
            BuildingType::Sniper => Structure {
                kind: StructureKind::Sniper,
                destructable: Destructable::new(SNIPER_HEALTH_MILLI),
                position,
                turret: Option::Some(Turret::new(SNIPER_INTERVAL_MS)),
            },
            BuildingType::MiningUpgrade => Structure {
                kind: StructureKind::MiningUpgrade,
                destructable: Destructable::new(UPGRADE_HEALTH_MILLI),
                position,
                turret: Option::None,
            },
            BuildingType::FireRateUpgrade => Structure {
                kind: StructureKind::FireRateUpgrade,
                destructable: Destructable::new(UPGRADE_HEALTH_MILLI),
                position,
                turret: Option::None,
            },
        }
    }

    /// The home station.
    pub fn station(position: Vec2i) -> (s: Structure)
        requires
            position.in_bounds(),
        ensures
            s.wf(),
            s.kind == StructureKind::Station,
            s.position == position,
            s.destructable.health_milli == STATION_HEALTH_MILLI,
            s.destructable.max_health_milli == STATION_HEALTH_MILLI,
            s.turret is None,
    {
        Structure {
            kind: StructureKind::Station,
            destructable: Destructable::new(STATION_HEALTH_MILLI),
            position,
            turret: Option::None,
        }
    }
}

/// Every stored structure is well formed.
pub open spec fn structures_wf(a: Arena<Structure>) -> bool {
    forall|k: int|
        0 <= k < a.spec_len() && (#[trigger] a.spec_slot_value(k)) is Some
            ==> a.spec_slot_value(k)->Some_0.wf()
}

/// Whether a building may be placed at `pos`: no standing structure within
/// the exclusion distance.
pub open spec fn spec_can_build_at(a: Arena<Structure>, pos: Vec2i) -> bool {
    forall|k: int|
        0 <= k < a.spec_len() && (#[trigger] a.spec_slot_value(k)) is Some ==> dist_sq(
            a.spec_slot_value(k)->Some_0.position,
            pos,
        ) >= BUILD_EXCLUSION_DIST_SQ_MILLI
}

pub fn can_build_at(structures: &Arena<Structure>, pos: Vec2i) -> (ok: bool)
    requires
        structures_wf(*structures),
        pos.in_bounds(),
    ensures
        ok == spec_can_build_at(*structures, pos),
{
    let n = structures.slot_count();
    let mut k: usize = 0;
    while k < n
        invariant
            n == structures.spec_len(),
            structures_wf(*structures),
            pos.in_bounds(),
            forall|j: int|
                0 <= j < k && (#[trigger] structures.spec_slot_value(j)) is Some ==> dist_sq(
                    structures.spec_slot_value(j)->Some_0.position,
                    pos,
                ) >= BUILD_EXCLUSION_DIST_SQ_MILLI,
        decreases n - k,
    {
        match structures.get_at(k) {
            Option::Some(p) => {
                if dist_sq_u64(p.1.position, pos) < BUILD_EXCLUSION_DIST_SQ_MILLI {
                    return false;
                }
            },
            Option::None => {},
        }
        k = k + 1;
    }
    true
}

/// The build-mode cursor: where the player points, which building is
/// pending (already paid for), and the click debounce that keeps the
/// purchase click from also placing.
pub struct BuildMarker {
    pub mouse_world_pos: Vec2i,
    pub mode: Option<BuildingType>,
    pub just_clicked: bool,
    pub click_debounce: Timer,
}

impl BuildMarker {
    pub open spec fn wf(self) -> bool {
        self.click_debounce.wf() && self.click_debounce.spec_duration() <= 1_000_000_000
            && self.mouse_world_pos.in_bounds()
    }

    pub fn new() -> (m: BuildMarker)
        ensures
            m.wf(),
            m.mode is None,
            !m.just_clicked,
    {
        BuildMarker {
            mouse_world_pos: Vec2i { x: 0, y: 0 },
            mode: Option::None,
            just_clicked: false,
            click_debounce: Timer::from_ms(BUILD_CLICK_DEBOUNCE_MS, TimerMode::Once),
        }
    }

    /// Record this frame's pointer state: where the cursor points in the
    /// world and whether a click was released after the debounce ran out.
    pub fn record_build_input(&mut self, mouse_world_pos: Vec2i, click_released: bool)
        requires
            old(self).wf(),
            mouse_world_pos.in_bounds(),
        ensures
            final(self).wf(),
            final(self).mouse_world_pos == mouse_world_pos,
            final(self).just_clicked == (click_released && old(self).click_debounce.spec_finished()),
            final(self).mode == old(self).mode,
            final(self).click_debounce == old(self).click_debounce,
    {
        self.mouse_world_pos = mouse_world_pos;
        self.just_clicked = click_released && self.click_debounce.finished();
    }

    /// Advance the click debounce by the frame delta.
    pub fn tick_debounce(&mut self, delta_ms: u64)
        requires
            old(self).wf(),
            delta_ms <= crate::gameplay::MAX_FRAME_DELTA_MS,
        ensures
            final(self).wf(),
            final(self).mouse_world_pos == old(self).mouse_world_pos,
            final(self).mode == old(self).mode,
            final(self).just_clicked == old(self).just_clicked,
            final(self).click_debounce.spec_duration() == old(self).click_debounce.spec_duration(),
    {
        self.click_debounce.tick(delta_ms);
    }
}

/// The player asked to build: if the delivered stock covers the cost, debit
/// it and enter build mode for that type (with a fresh click debounce);
/// otherwise reject with a notification and change nothing.
pub fn handle_build_action(
    resources: &mut Resources,
    marker: &mut BuildMarker,
    building_type: BuildingType,
    events: &mut Vec<GameEvent>,
) -> (ok: bool)
    requires
        old(marker).wf(),
    ensures
        final(marker).wf(),
        ok == (old(resources).delivered >= spec_cost(building_type)),
        final(resources).gathered == old(resources).gathered,
        ok ==> {
            &&& final(resources).delivered == old(resources).delivered - spec_cost(building_type)
            &&& final(marker).mode == Option::Some(building_type)
            &&& final(marker).click_debounce.spec_elapsed() == 0
            &&& final(marker).click_debounce.spec_duration() == BUILD_CLICK_DEBOUNCE_MS
            &&& final(events)@ == old(events)@
        },
        !ok ==> {
            &&& final(resources).delivered == old(resources).delivered
            &&& *final(marker) == *old(marker)
            &&& final(events)@ == old(events)@.push(
                GameEvent::Notify { note: Notification::NotEnoughResources },
            )
        },
{
    let cost = building_type.cost();
    if resources.spend(cost) {
        enter_build_mode(marker, building_type);
        true
    } else {
        events.push(GameEvent::Notify { note: Notification::NotEnoughResources });
        false
    }
}

/// Enter build mode for a purchased building type.
fn enter_build_mode(marker: &mut BuildMarker, building_type: BuildingType)
    requires
        old(marker).wf(),
    ensures
        final(marker).wf(),
        final(marker).mode == Option::Some(building_type),
        final(marker).click_debounce.spec_elapsed() == 0,
        final(marker).click_debounce.spec_duration() == BUILD_CLICK_DEBOUNCE_MS,
        final(marker).mouse_world_pos == old(marker).mouse_world_pos,
        final(marker).just_clicked == old(marker).just_clicked,
{
    marker.mode = Option::Some(building_type);
    marker.click_debounce.set_duration_ms(BUILD_CLICK_DEBOUNCE_MS);
    marker.click_debounce.reset();
}

/// A debounced click with a pending building tries to place it at the
/// cursor: if no structure stands too close, the building enters the world
/// (registering its upgrade, if it is one) and build mode ends; otherwise
/// the attempt is rejected with a notification and the pending building
/// stays pending.
pub fn try_place_building(
    marker: &mut BuildMarker,
    structures: &mut Arena<Structure>,
    upgrades: &mut Upgrades,
    events: &mut Vec<GameEvent>,
) -> (placed: Option<EntityId>)
    requires
        old(marker).wf(),
        structures_wf(*old(structures)),
    ensures
        final(marker).wf(),
        structures_wf(*final(structures)),
        final(marker).mouse_world_pos == old(marker).mouse_world_pos,
        final(marker).just_clicked == old(marker).just_clicked,
        final(marker).click_debounce == old(marker).click_debounce,
        // The store's population grows exactly when a building is placed.
        crate::arena::spec_live_count(*final(structures), final(structures).spec_len())
            == crate::arena::spec_live_count(*old(structures), old(structures).spec_len()) + (
        if old(marker).just_clicked && old(marker).mode is Some && spec_can_build_at(
            *old(structures),
            old(marker).mouse_world_pos,
        ) {
            1int
        } else {
            0int
        }),
        !(old(marker).just_clicked && old(marker).mode is Some) ==> {
            &&& placed is None
            &&& *final(structures) == *old(structures)
            &&& *final(marker) == *old(marker)
            &&& *final(upgrades) == *old(upgrades)
            &&& final(events)@ == old(events)@
        },
        old(marker).mode matches Some(bt) ==> (old(marker).just_clicked && !spec_can_build_at(
            *old(structures),
            old(marker).mouse_world_pos,
        ) ==> {
            &&& placed is None
            &&& *final(structures) == *old(structures)
            &&& final(marker).mode == old(marker).mode
            &&& *final(upgrades) == *old(upgrades)
            &&& final(events)@ == old(events)@.push(
                GameEvent::Notify { note: Notification::TooCloseToStructure },
            )
        }),
        old(marker).mode matches Some(bt) ==> (old(marker).just_clicked && spec_can_build_at(
            *old(structures),
            old(marker).mouse_world_pos,
        ) ==> (placed matches Some(id) && {
            &&& final(marker).mode is None
            &&& old(structures).spec_get(id) is None
            &&& final(structures).spec_get(id) matches Some(s) && s.wf() && s.position == old(
                marker,
            ).mouse_world_pos && s.kind == (match bt {
                BuildingType::Decoy => StructureKind::Decoy,
                BuildingType::Turret => StructureKind::Turret,
                BuildingType::Sniper => StructureKind::Sniper,
                BuildingType::MiningUpgrade => StructureKind::MiningUpgrade,
                BuildingType::FireRateUpgrade => StructureKind::FireRateUpgrade,
            }) && s.destructable.health_milli == s.destructable.max_health_milli
            &&& forall|o: EntityId|
                o != id ==> final(structures).spec_get(o) == old(structures).spec_get(o)
            &&& final(events)@ == old(events)@.push(
                GameEvent::StructureSpawned {
                    id,
                    kind: final(structures).spec_get(id)->Some_0.kind,
                    position: old(marker).mouse_world_pos,
                },
            ).push(GameEvent::PlaySfx { sfx: SfxKey::Build })
            &&& (match spec_upgrade_of(final(structures).spec_get(id)->Some_0.kind) {
                Option::Some(UpgradeType::MiningSpeed) => final(upgrades).mining_speed == (if old(
                    upgrades,
                ).mining_speed < u8::MAX {
                    old(upgrades).mining_speed + 1
                } else {
                    u8::MAX as int
                }) && final(upgrades).fire_rate == old(upgrades).fire_rate,
                Option::Some(UpgradeType::FireRate) => final(upgrades).fire_rate == (if old(
                    upgrades,
                ).fire_rate < u8::MAX {
                    old(upgrades).fire_rate + 1
                } else {
                    u8::MAX as int
                }) && final(upgrades).mining_speed == old(upgrades).mining_speed,
                Option::None => *final(upgrades) == *old(upgrades),
            })
        })),
{
    if !marker.just_clicked {
        return Option::None;
    }
    let bt = match marker.mode {
        Option::Some(bt) => bt,
        Option::None => {
            return Option::None;
        },
    };
    if can_build_at(structures, marker.mouse_world_pos) {
        let s = Structure::build(bt, marker.mouse_world_pos);
        let ghost structures_before = *structures;
        let id = structures.insert(s);
        proof {
            crate::arena::lemma_slot_in_range(*structures, id.index as int);
            crate::arena::lemma_live_count_insert(structures_before, *structures, id);
        }
        marker.mode = Option::None;
        events.push(GameEvent::StructureSpawned { id, kind: s.kind, position: s.position });
        events.push(GameEvent::PlaySfx { sfx: SfxKey::Build });
        match s.kind {
            StructureKind::MiningUpgrade => upgrades.register(UpgradeType::MiningSpeed),
            StructureKind::FireRateUpgrade => upgrades.register(UpgradeType::FireRate),
            _ => {},
        }
        proof {
            assert forall|k: int|
                0 <= k < structures.spec_len() && (#[trigger] structures.spec_slot_value(k))
                    is Some implies structures.spec_slot_value(k)->Some_0.wf() by {
                if k != id.index {
                    assert(structures.spec_slot_value(k) == old(structures).spec_slot_value(k));
                    crate::arena::lemma_slot_in_range(*old(structures), k);
                } else {
                    assert(structures.spec_slot_value(k) == Option::Some(s));
                }
            }
        }
        Option::Some(id)
    } else {
        events.push(GameEvent::Notify { note: Notification::TooCloseToStructure });
        Option::None
    }
}

/// Leaving build mode (by cancel or by the phase ending) refunds the
/// pending building's cost and clears the pending state.
pub fn cancel_build(marker: &mut BuildMarker, resources: &mut Resources) -> (refunded: bool)
    requires
        old(marker).wf(),
        old(marker).mode matches Some(bt) ==> old(resources).delivered + spec_cost(bt)
            <= u32::MAX,
    ensures
        final(marker).wf(),
        final(marker).mode is None,
        final(marker).mouse_world_pos == old(marker).mouse_world_pos,
        final(resources).gathered == old(resources).gathered,
        refunded == (old(marker).mode is Some),
        match old(marker).mode {
            Option::Some(bt) => final(resources).delivered == old(resources).delivered + spec_cost(
                bt,
            ),
            Option::None => final(resources).delivered == old(resources).delivered,
        },
{
    match marker.mode {
        Option::Some(bt) => {
            let cost = bt.cost();
            resources.refund(cost);
            marker.mode = Option::None;
            true
        },
        Option::None => false,
    }
}

/// A slot holds a structure whose health has run out.
pub open spec fn doomed(v: Option<Structure>) -> bool {
    v matches Some(s) && s.destructable.health_milli <= 0
}

/// The events the destruction sweep emits for the first `n` slots, in slot
/// order: for each doomed structure a destruction notice, an explosion cue
/// and the despawn request.
pub open spec fn destroy_events(a: Arena<Structure>, n: int) -> Seq<GameEvent>
    decreases n,
{
    if n <= 0 {
        Seq::<GameEvent>::empty()
    } else {
        destroy_events(a, n - 1) + (if doomed(a.spec_slot_value(n - 1)) {
            seq![
                GameEvent::Notify {
                    note: Notification::StructureDestroyed {
                        kind: a.spec_slot_value(n - 1)->Some_0.kind,
                    },
                },
                GameEvent::PlaySfx { sfx: SfxKey::Explode },
                GameEvent::StructureDespawned { id: a.spec_id_at(n - 1) },
            ]
        } else {
            Seq::<GameEvent>::empty()
        })
    }
}

/// How many doomed structures among the first `n` slots carry the given
/// upgrade.
pub open spec fn doomed_upgrade_count(a: Arena<Structure>, u: UpgradeType, n: int) -> int
    decreases n,
{
    if n <= 0 {
        0
    } else {
        doomed_upgrade_count(a, u, n - 1) + (if doomed(a.spec_slot_value(n - 1))
            && spec_upgrade_of(a.spec_slot_value(n - 1)->Some_0.kind) == Option::Some(u) {
            1int
        } else {
            0int
        })
    }
}

/// Subtraction floored at zero.
pub open spec fn sat_sub(c: int, d: int) -> int {
    if c > d {
        c - d
    } else {
        0
    }
}

/// Sweep out every structure whose health has run out: each one leaves the
/// world (its handle never resolves again), emits a destruction notice, an
/// explosion cue and a despawn request, and gives back its upgrade ledger
/// entry if it carried one. Surviving structures are untouched.
pub fn destroy_buildings(
    structures: &mut Arena<Structure>,
    upgrades: &mut Upgrades,
    events: &mut Vec<GameEvent>,
)
    requires
        structures_wf(*old(structures)),
    ensures
        structures_wf(*final(structures)),
        final(structures).spec_len() == old(structures).spec_len(),
        forall|k: int|
            0 <= k < old(structures).spec_len() ==> final(structures).spec_slot_value(k) == (
            if doomed(old(structures).spec_slot_value(k)) {
                Option::<Structure>::None
            } else {
                old(structures).spec_slot_value(k)
            }),
        final(events)@ == old(events)@ + destroy_events(
            *old(structures),
            old(structures).spec_len(),
        ),
        final(upgrades).mining_speed == sat_sub(
            old(upgrades).mining_speed as int,
            doomed_upgrade_count(
                *old(structures),
                UpgradeType::MiningSpeed,
                old(structures).spec_len(),
            ),
        ),
        final(upgrades).fire_rate == sat_sub(
            old(upgrades).fire_rate as int,
            doomed_upgrade_count(
                *old(structures),
                UpgradeType::FireRate,
                old(structures).spec_len(),
            ),
        ),
{
    let n = structures.slot_count();
    let mut i: usize = 0;
    proof {
        assert(events@ =~= events@ + destroy_events(*structures, 0));
    }
    while i < n
        invariant
            i <= n,
            n == old(structures).spec_len(),
            structures.spec_len() == n,
            structures_wf(*structures),
            forall|k: int|
                0 <= k < i ==> structures.spec_slot_value(k) == (if doomed(
                    old(structures).spec_slot_value(k),
                ) {
                    Option::<Structure>::None
                } else {
                    old(structures).spec_slot_value(k)
                }),
            forall|k: int|
                i <= k < n ==> structures.spec_slot_value(k) == old(structures).spec_slot_value(k),
            forall|k: int|
                i <= k < n ==> structures.spec_id_at(k) == old(structures).spec_id_at(k),
            events@ == old(events)@ + destroy_events(*old(structures), i as int),
            upgrades.mining_speed == sat_sub(
                old(upgrades).mining_speed as int,
                doomed_upgrade_count(*old(structures), UpgradeType::MiningSpeed, i as int),
            ),
            upgrades.fire_rate == sat_sub(
                old(upgrades).fire_rate as int,
                doomed_upgrade_count(*old(structures), UpgradeType::FireRate, i as int),
            ),
        decreases n - i,
    {
        let ghost events_before = events@;
        match structures.get_at(i) {
            Option::Some(p) => {
                if p.1.destructable.health_milli <= 0 {
                    proof {
                        assert(doomed(old(structures).spec_slot_value(i as int)));
                    }
                    events.push(
                        GameEvent::Notify {
                            note: Notification::StructureDestroyed { kind: p.1.kind },
                        },
                    );
                    events.push(GameEvent::PlaySfx { sfx: SfxKey::Explode });
                    events.push(GameEvent::StructureDespawned { id: p.0 });
                    structures.remove(p.0);
                    match p.1.kind {
                        StructureKind::MiningUpgrade => upgrades.unregister(
                            UpgradeType::MiningSpeed,
                        ),
                        StructureKind::FireRateUpgrade => upgrades.unregister(
                            UpgradeType::FireRate,
                        ),
                        _ => {},
                    }
                    proof {
                        assert(events@ =~= old(events)@ + destroy_events(
                            *old(structures),
                            i as int + 1,
                        ));
                    }
                } else {
                    proof {
                        assert(!doomed(old(structures).spec_slot_value(i as int)));
                        assert(events@ =~= old(events)@ + destroy_events(
                            *old(structures),
                            i as int + 1,
                        ));
                    }
                }
            },
            Option::None => {
                proof {
                    assert(!doomed(old(structures).spec_slot_value(i as int)));
                    assert(events@ =~= old(events)@ + destroy_events(
                        *old(structures),
                        i as int + 1,
                    ));
                }
            },
        }
        i = i + 1;
    }
}

/// How one slot looks after the turret tick: same structure, with a
/// turret's timer advanced by the delta.
pub open spec fn spec_ticked_slot(
    before: Option<Structure>,
    after: Option<Structure>,
    delta: int,
) -> bool {
    match before {
        Option::Some(s) => after matches Some(s2) && (s2.kind == s.kind && s2.destructable
            == s.destructable && s2.position == s.position && (s.turret is None ==> s2.turret
            is None) && (s.turret matches Some(t) ==> s2.turret matches Some(t2)
            && t2.shoot_timer.spec_duration() == t.shoot_timer.spec_duration()
            && t2.shoot_timer.spec_just_finished() == (t.shoot_timer.spec_elapsed() + delta
            >= t.shoot_timer.spec_duration()))),
        Option::None => after is None,
    }
}

/// Advance every standing turret's fire-rate timer by the frame delta.
/// Nothing else about any structure changes.
pub fn tick_turrets(structures: &mut Arena<Structure>, delta_ms: u64)
    requires
        structures_wf(*old(structures)),
        delta_ms <= crate::gameplay::MAX_FRAME_DELTA_MS,
    ensures
        structures_wf(*final(structures)),
        final(structures).spec_len() == old(structures).spec_len(),
        forall|k: int|
            0 <= k < old(structures).spec_len() ==> final(structures).spec_id_at(k) == old(
                structures,
            ).spec_id_at(k),
        forall|k: int|
            0 <= k < old(structures).spec_len() ==> spec_ticked_slot(
                #[trigger] old(structures).spec_slot_value(k),
                final(structures).spec_slot_value(k),
                delta_ms as int,
            ),
{
    let n = structures.slot_count();
    let mut i: usize = 0;
    while i < n
        invariant
            i <= n,
            n == old(structures).spec_len(),
            structures.spec_len() == n,
            delta_ms <= crate::gameplay::MAX_FRAME_DELTA_MS,
            structures_wf(*structures),
            forall|k: int|
                0 <= k < n ==> structures.spec_id_at(k) == old(structures).spec_id_at(k),
            forall|k: int|
                i <= k < n ==> structures.spec_slot_value(k) == old(structures).spec_slot_value(k),
            forall|k: int|
                0 <= k < i ==> spec_ticked_slot(
                    #[trigger] old(structures).spec_slot_value(k),
                    structures.spec_slot_value(k),
                    delta_ms as int,
                ),
        decreases n - i,
    {
        match structures.get_at(i) {
            Option::Some(p) => {
                match p.1.turret {
                    Option::Some(t) => {
                        let mut s2 = p.1;
                        let mut t2 = t;
                        t2.tick_timer(delta_ms);
                        s2.turret = Option::Some(t2);
                        structures.replace(p.0, s2);
                        proof {
                            assert forall|k: int|
                                0 <= k < structures.spec_len() && (#[trigger] structures
                                    .spec_slot_value(k)) is Some implies structures
                                .spec_slot_value(k)->Some_0.wf() by {
                                if k != p.0.index {
                                    assert(structures.spec_slot_value(k) == old(
                                        structures,
                                    ).spec_slot_value(k) || 0 <= k < i);
                                } else {
                                    assert(structures.spec_slot_value(k) == Option::Some(s2));
                                }
                            }
                        }
                    },
                    Option::None => {},
                }
            },
            Option::None => {},
        }
        i = i + 1;
    }
}

} // verus!
