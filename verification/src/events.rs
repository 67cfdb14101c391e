//! Requests the simulation makes of the outside world.
//!
//! The core never touches audio, scenes or UI itself: each frame's systems
//! return a list of [`GameEvent`] values, fire-and-forget requests that an
//! engine layer performs (instantiate a scene, play a cue, show a message).

use crate::arena::EntityId;
use crate::building::StructureKind;
use crate::geom::Vec2i;
use vstd::prelude::*;

verus! {

/// Sound-effect cue keys the core emits.
#[derive(Clone, Copy, PartialEq, Eq, Structural, Debug)]
pub enum SfxKey {
    Shoot,
    Explode,
    Build,
    Collect,
    Ping,
}

/// Soundtrack cue keys the core emits.
#[derive(Clone, Copy, PartialEq, Eq, Structural, Debug)]
pub enum SoundtrackKey {
    Gameplay,
}

/// The camera anchors a phase hands focus to.
#[derive(Clone, Copy, PartialEq, Eq, Structural, Debug)]
pub enum CameraAnchor {
    MiningShip,
    CombatShip,
    Station,
}

/// A user-facing message. The core emits the data; rendering the text and
/// expiring it belong to the UI layer.
#[derive(Clone, Copy, PartialEq, Eq, Structural, Debug)]
pub enum Notification {
    /// Resources moved into the base's stock.
    Delivered { amount: u32 },
    /// A spend request was rejected for lack of delivered resources.
    NotEnoughResources,
    /// A building placement was rejected as overlapping another structure.
    TooCloseToStructure,
    /// A hidden asteroid came into sensor range.
    AsteroidDetected,
    /// Distance to the nearest known asteroid, in milli-units.
    NearestAsteroid { dist_milli: u64 },
    /// Every revealed asteroid has been mined out.
    AllKnownAsteroidsMined,
    /// A structure's health reached zero and it was removed.
    StructureDestroyed { kind: StructureKind },
}

/// A fire-and-forget request to the engine layer.
#[derive(Clone, Copy, PartialEq, Eq, Structural, Debug)]
pub enum GameEvent {
    /// Spawn one enemy at the given distance from the origin, with damage
    /// and visual scale drawn from the current difficulty multiplier.
    SpawnEnemy { distance: u64, damage_mult_tenths: u32 },
    /// An enemy entity entered the simulation at `position`.
    EnemySpawned { id: EntityId, position: Vec2i, damage_mult_tenths: u32 },
    /// An enemy entity left the simulation.
    EnemyDespawned { id: EntityId },
    /// An asteroid entity entered the simulation.
    AsteroidSpawned { id: EntityId, position: Vec2i, visible: bool },
    /// An asteroid entity was mined out and removed.
    AsteroidDespawned { id: EntityId },
    /// A hidden asteroid became visible and should get a waypoint marker.
    WaypointAdded { id: EntityId },
    /// A structure entered the simulation.
    StructureSpawned { id: EntityId, kind: StructureKind, position: Vec2i },
    /// A structure was destroyed and removed.
    StructureDespawned { id: EntityId },
    /// Fire a bullet from `position` along `direction`.
    Shoot { position: Vec2i, direction: Vec2i },
    PlaySfx { sfx: SfxKey },
    PlaySoundtrack { soundtrack: SoundtrackKey },
    Notify { note: Notification },
    /// Hand camera focus to an anchor.
    FocusCamera { anchor: CameraAnchor },
}

} // verus!
