//! The per-enemy decision loop: wander, seek a building, attack it.
//!
//! An enemy decides only in the idle state. It either wanders to a random
//! nearby point or travels to the nearest standing structure; close enough,
//! it attacks. A target that stops resolving — the structure was destroyed
//! — always sends the enemy back to idle before it acts again, so no step
//! ever acts on a stale handle.

use crate::arena::{Arena, EntityId};
use crate::building::{structures_wf, Structure};
use crate::events::GameEvent;
use crate::gameplay::{MAX_FRAME_DELTA_MS, MULT_CAP_TENTHS};
use crate::geom::{abs_i, clamp_coord, dist_sq, dist_sq_u64, isqrt_spec, move_toward, spec_clamp_coord, spec_step_toward, Vec2i};
use crate::placement::{random_disc_offset, random_ring_position, MAX_RING_DISTANCE};
use crate::rng::random_below;
use vstd::prelude::*;

verus! {

/// Chance, in percent, that an idle enemy wanders instead of seeking.
pub const WANDER_PROBABILITY_PERCENT: u64 = 60;

/// How far a wander target may lie from the enemy.
pub const WANDER_RADIUS_MILLI: i64 = 20_000;

/// Squared distance under which a traveling enemy switches to attacking.
pub const ATTACK_DISTANCE_SQ_MILLI: u64 = 100_000_000;

/// Squared distance under which a wandering enemy counts as arrived.
pub const WANDER_ARRIVE_SQ_MILLI: u64 = 10_000;

/// Speed when traveling to a structure, in milli-units per second.
pub const TRAVEL_SPEED_MILLI_PER_SEC: u64 = 10_000;

/// Speed when wandering, in milli-units per second.
pub const WANDER_SPEED_MILLI_PER_SEC: u64 = 7_000;

/// Health every enemy spawns with, in milli-points.
pub const ENEMY_START_HEALTH_MILLI: i64 = 100_000;

/// Damage per second at a difficulty multiplier of one, in milli-points.
pub const ENEMY_BASE_DAMAGE_MILLI_PER_SEC: i64 = 5_000;

/// The enemy decision states. Transitions out of a targeted state happen
/// only by reaching the target or by the target ceasing to resolve.
#[derive(Clone, Copy, PartialEq, Eq, Structural, Debug)]
pub enum EnemyState {
    Idle,
    Wander(Vec2i),
    TravelingTo(EntityId),
    Attacking(EntityId),
}

#[derive(Clone, Copy, Debug)]
pub struct Enemy {
    pub health_milli: i64,
    pub damage_milli_per_sec: i64,
    pub state: EnemyState,
    pub position: Vec2i,
}

impl Enemy {
    pub open spec fn wf(self) -> bool {
        &&& self.position.in_bounds()
        &&& 0 <= self.damage_milli_per_sec <= 1_000_000_000
        &&& (self.state matches EnemyState::Wander(t) ==> t.in_bounds())
    }

    /// A fresh enemy: full health, damage scaled by the difficulty
    /// multiplier, no decision made yet.
    pub fn new(damage_mult_tenths: u32, position: Vec2i) -> (e: Enemy)
        requires
            position.in_bounds(),
            damage_mult_tenths <= MULT_CAP_TENTHS,
        ensures
            e.wf(),
            e.health_milli == ENEMY_START_HEALTH_MILLI,
            e.damage_milli_per_sec == ENEMY_BASE_DAMAGE_MILLI_PER_SEC * damage_mult_tenths / 10,
            e.state == EnemyState::Idle,
            e.position == position,
    {
        proof {
            assert(ENEMY_BASE_DAMAGE_MILLI_PER_SEC * damage_mult_tenths
                <= ENEMY_BASE_DAMAGE_MILLI_PER_SEC * MULT_CAP_TENTHS) by (nonlinear_arith)
                requires
                    damage_mult_tenths <= MULT_CAP_TENTHS,
            ;
        }
        Enemy {
            health_milli: ENEMY_START_HEALTH_MILLI,
            damage_milli_per_sec: ENEMY_BASE_DAMAGE_MILLI_PER_SEC * (damage_mult_tenths as i64)
                / 10,
            state: EnemyState::Idle,
            position,
        }
    }
}

/// Every stored enemy is well formed.
pub open spec fn enemies_wf(a: Arena<Enemy>) -> bool {
    forall|k: int|
        0 <= k < a.spec_len() && (#[trigger] a.spec_slot_value(k)) is Some
            ==> a.spec_slot_value(k)->Some_0.wf()
}

/// The state references no handle that fails to resolve in the given
/// structure store.
pub open spec fn state_targets_resolve(state: EnemyState, structures: Arena<Structure>) -> bool {
    match state {
        EnemyState::TravelingTo(t) => structures.spec_get(t) is Some,
        EnemyState::Attacking(t) => structures.spec_get(t) is Some,
        _ => true,
    }
}

/// How one enemy comes out of a frame's decision chain (choose a target,
/// move, attack) against a structure store whose positions and handle
/// resolution the chain observed. Health and damage are untouched; the
/// targeted states evolve deterministically; a fresh decision out of idle
/// draws randomness and is pinned only to reference resolving handles.
pub open spec fn enemy_frame_step(
    pre: Enemy,
    post: Enemy,
    s: Arena<Structure>,
    delta: int,
) -> bool {
    &&& post.health_milli == pre.health_milli
    &&& post.damage_milli_per_sec == pre.damage_milli_per_sec
    &&& state_targets_resolve(post.state, s)
    &&& match pre.state {
        EnemyState::TravelingTo(t) => match s.spec_get(t) {
            Option::Some(st) => if dist_sq(pre.position, st.position)
                < ATTACK_DISTANCE_SQ_MILLI {
                post.state == EnemyState::Attacking(t) && post.position == pre.position
            } else {
                post.state == pre.state && post.position == moved_position(
                    pre.position,
                    st.position,
                    TRAVEL_SPEED_MILLI_PER_SEC * delta / 1000,
                )
            },
            Option::None => post.state == EnemyState::Idle && post.position == pre.position,
        },
        EnemyState::Wander(t) => if dist_sq(pre.position, t) < WANDER_ARRIVE_SQ_MILLI {
            post.state == EnemyState::Idle && post.position == pre.position
        } else {
            post.state == pre.state && post.position == moved_position(
                pre.position,
                t,
                WANDER_SPEED_MILLI_PER_SEC * delta / 1000,
            )
        },
        EnemyState::Attacking(t) => post.position == pre.position && (match s.spec_get(t) {
            Option::Some(st) => post.state == pre.state,
            Option::None => post.state == EnemyState::Idle,
        }),
        EnemyState::Idle => true,
    }
}

/// [`enemy_frame_step`] only reads which handles resolve and to which
/// positions, so it survives store changes that preserve both — an
/// attack's health write in particular.
pub proof fn lemma_enemy_frame_step_stable(
    pre: Enemy,
    post: Enemy,
    s1: Arena<Structure>,
    s2: Arena<Structure>,
    delta: int,
)
    requires
        enemy_frame_step(pre, post, s1, delta),
        forall|o: EntityId|
            (#[trigger] s2.spec_get(o)) is Some == s1.spec_get(o) is Some,
        forall|o: EntityId|
            s2.spec_get(o) is Some ==> (#[trigger] s2.spec_get(o))->Some_0.position
                == s1.spec_get(o)->Some_0.position,
    ensures
        enemy_frame_step(pre, post, s2, delta),
{
}

/// Slot-wise form of [`enemy_frame_step`]: occupied slots hold a stepped
/// enemy, free slots stay free.
pub open spec fn enemy_slot_stepped(
    before: Option<Enemy>,
    after: Option<Enemy>,
    s: Arena<Structure>,
    delta: int,
) -> bool {
    match before {
        Option::Some(pre) => after matches Some(post) && enemy_frame_step(pre, post, s, delta),
        Option::None => after is None,
    }
}

/// `id` resolves to the structure nearest to `pos`, and to the first such
/// structure in slot order among equals.
pub open spec fn first_nearest(a: Arena<Structure>, pos: Vec2i, id: EntityId) -> bool {
    &&& a.spec_get(id) is Some
    &&& id.index < a.spec_len()
    &&& forall|k: int|
        0 <= k < a.spec_len() && (#[trigger] a.spec_slot_value(k)) is Some ==> dist_sq(
            pos,
            a.spec_get(id)->Some_0.position,
        ) <= dist_sq(pos, a.spec_slot_value(k)->Some_0.position)
    &&& forall|k: int|
        0 <= k < id.index && (#[trigger] a.spec_slot_value(k)) is Some ==> dist_sq(
            pos,
            a.spec_slot_value(k)->Some_0.position,
        ) > dist_sq(pos, a.spec_get(id)->Some_0.position)
}

/// Spawn one enemy on the ring of the given radius around the origin, with
/// damage and visual scale drawn from the difficulty multiplier, and report
/// it to the engine layer.
pub fn spawn_enemy(
    enemies: &mut Arena<Enemy>,
    distance_units: u64,
    damage_mult_tenths: u32,
    events: &mut Vec<GameEvent>,
) -> (id: EntityId)
    requires
        enemies_wf(*old(enemies)),
        distance_units <= MAX_RING_DISTANCE,
        damage_mult_tenths <= MULT_CAP_TENTHS,
    ensures
        enemies_wf(*final(enemies)),
        final(enemies).spec_get(id) matches Some(e) && e.wf() && e.state == EnemyState::Idle
            && e.health_milli == ENEMY_START_HEALTH_MILLI && e.damage_milli_per_sec
            == ENEMY_BASE_DAMAGE_MILLI_PER_SEC * damage_mult_tenths / 10 && ({
            let r = distance_units * crate::geom::MILLI;
            r * r - 2 * r <= dist_sq(e.position, Vec2i { x: 0, y: 0 }) <= r * r
        }),
        old(enemies).spec_get(id) is None,
        forall|o: EntityId| o != id ==> final(enemies).spec_get(o) == old(enemies).spec_get(o),
        old(enemies).spec_slot_value(id.index as int) is None,
        final(enemies).spec_slot_value(id.index as int) == final(enemies).spec_get(id),
        forall|k: int|
            k != id.index ==> final(enemies).spec_slot_value(k) == old(enemies).spec_slot_value(k),
        old(enemies).spec_len() <= final(enemies).spec_len() <= old(enemies).spec_len() + 1,
        final(enemies).spec_len() > old(enemies).spec_len() ==> id.index == old(
            enemies,
        ).spec_len(),
        final(events)@ == old(events)@.push(
            GameEvent::EnemySpawned {
                id,
                position: final(enemies).spec_get(id)->Some_0.position,
                damage_mult_tenths,
            },
        ),
{
    let position = random_ring_position(distance_units);
    let enemy = Enemy::new(damage_mult_tenths, position);
    let id = enemies.insert(enemy);
    events.push(GameEvent::EnemySpawned { id, position, damage_mult_tenths });
    proof {
        assert forall|k: int|
            0 <= k < enemies.spec_len() && (#[trigger] enemies.spec_slot_value(k))
                is Some implies enemies.spec_slot_value(k)->Some_0.wf() by {
            if k != id.index {
                assert(enemies.spec_slot_value(k) == old(enemies).spec_slot_value(k));
                crate::arena::lemma_slot_in_range(*old(enemies), k);
                assert(old(enemies).spec_slot_value(k) is Some ==> old(
                    enemies,
                ).spec_slot_value(k)->Some_0.wf());
            } else {
                assert(enemies.spec_slot_value(k) == Option::Some(enemy));
                assert(enemy.wf());
            }
            assert(enemies.spec_slot_value(k) is Some ==> enemies.spec_slot_value(
                k,
            )->Some_0.wf());
        }
    }
    id
}

/// An idle enemy decides: with the wander probability it picks a random
/// point within the wander radius of itself; otherwise it heads for the
/// nearest standing structure (first in slot order among equals). With no
/// structures standing it stays idle. Non-idle states decide nothing.
pub fn choose_target(enemy: &mut Enemy, structures: &Arena<Structure>)
    requires
        old(enemy).wf(),
        structures_wf(*structures),
    ensures
        final(enemy).wf(),
        final(enemy).health_milli == old(enemy).health_milli,
        final(enemy).damage_milli_per_sec == old(enemy).damage_milli_per_sec,
        final(enemy).position == old(enemy).position,
        !(old(enemy).state matches EnemyState::Idle) ==> final(enemy).state == old(enemy).state,
        old(enemy).state matches EnemyState::Idle ==> match final(enemy).state {
            EnemyState::Idle => forall|k: int|
                0 <= k < structures.spec_len() ==> (#[trigger] structures.spec_slot_value(k))
                    is None,
            EnemyState::Wander(t) => dist_sq(t, old(enemy).position) <= WANDER_RADIUS_MILLI
                * WANDER_RADIUS_MILLI,
            EnemyState::TravelingTo(id) => first_nearest(*structures, old(enemy).position, id),
            EnemyState::Attacking(_) => false,
        },
        state_targets_resolve(old(enemy).state, *structures) ==> state_targets_resolve(
            final(enemy).state,
            *structures,
        ),
{
    match enemy.state {
        EnemyState::Idle => {},
        _ => {
            return ;
        },
    }
    if random_below(100) < WANDER_PROBABILITY_PERCENT {
        let offset = random_disc_offset(WANDER_RADIUS_MILLI as u64);
        let target = Vec2i {
            x: clamp_coord(enemy.position.x + offset.x),
            y: clamp_coord(enemy.position.y + offset.y),
        };
        proof {
            let ghost px = enemy.position.x as int;
            let ghost py = enemy.position.y as int;
            let ghost ox = offset.x as int;
            let ghost oy = offset.y as int;
            let ghost tx = target.x as int;
            let ghost ty = target.y as int;
            let ghost oxa = abs_i(ox);
            let ghost oya = abs_i(oy);
            assert(tx - px <= oxa && px - tx <= oxa);
            assert(ty - py <= oya && py - ty <= oya);
            assert((tx - px) * (tx - px) <= oxa * oxa) by (nonlinear_arith)
                requires
                    tx - px <= oxa,
                    px - tx <= oxa,
                    oxa >= 0,
            ;
            assert((ty - py) * (ty - py) <= oya * oya) by (nonlinear_arith)
                requires
                    ty - py <= oya,
                    py - ty <= oya,
                    oya >= 0,
            ;
            assert(oxa * oxa == ox * ox) by (nonlinear_arith)
                requires
                    oxa == ox || oxa == -ox,
            ;
            assert(oya * oya == oy * oy) by (nonlinear_arith)
                requires
                    oya == oy || oya == -oy,
            ;
            assert(dist_sq(target, enemy.position) == (tx - px) * (tx - px) + (ty - py) * (ty
                - py));
            assert(dist_sq(offset, Vec2i { x: 0, y: 0 }) == ox * ox + oy * oy);
        }
        enemy.state = EnemyState::Wander(target);
    } else {
        let n = structures.slot_count();
        let mut best: Option<(EntityId, u64)> = Option::None;
        let mut k: usize = 0;
        while k < n
            invariant
                k <= n,
                n == structures.spec_len(),
                structures_wf(*structures),
                old(enemy).wf(),
                match best {
                    Option::Some(b) => {
                        &&& structures.spec_get(b.0) is Some
                        &&& b.0.index < k
                        &&& b.1 == dist_sq(
                            old(enemy).position,
                            structures.spec_get(b.0)->Some_0.position,
                        )
                        &&& forall|j: int|
                            0 <= j < k && (#[trigger] structures.spec_slot_value(j)) is Some
                                ==> b.1 <= dist_sq(
                                old(enemy).position,
                                structures.spec_slot_value(j)->Some_0.position,
                            )
                        &&& forall|j: int|
                            0 <= j < b.0.index && (#[trigger] structures.spec_slot_value(j))
                                is Some ==> dist_sq(
                                old(enemy).position,
                                structures.spec_slot_value(j)->Some_0.position,
                            ) > b.1
                    },
                    Option::None => forall|j: int|
                        0 <= j < k ==> (#[trigger] structures.spec_slot_value(j)) is None,
                },
            decreases n - k,
        {
            match structures.get_at(k) {
                Option::Some(p) => {
                    let d = dist_sq_u64(enemy.position, p.1.position);
                    match best {
                        Option::Some(b) => {
                            if d < b.1 {
                                best = Option::Some((p.0, d));
                            }
                        },
                        Option::None => {
                            best = Option::Some((p.0, d));
                        },
                    }
                },
                Option::None => {},
            }
            k = k + 1;
        }
        match best {
            Option::Some(b) => {
                enemy.state = EnemyState::TravelingTo(b.0);
            },
            Option::None => {},
        }
    }
}

/// Move the enemy along its decision: straight toward its travel target,
/// switching to attack within attack distance, or straight toward its
/// wander point, going idle on arrival. A travel target that no longer
/// resolves sends the enemy back to idle. Idle and attacking enemies do
/// not move.
pub fn travel_to_target(enemy: &mut Enemy, structures: &Arena<Structure>, delta_ms: u64)
    requires
        old(enemy).wf(),
        structures_wf(*structures),
        delta_ms <= MAX_FRAME_DELTA_MS,
    ensures
        final(enemy).wf(),
        final(enemy).health_milli == old(enemy).health_milli,
        final(enemy).damage_milli_per_sec == old(enemy).damage_milli_per_sec,
        match old(enemy).state {
            EnemyState::TravelingTo(t) => match structures.spec_get(t) {
                Option::Some(s) => if dist_sq(old(enemy).position, s.position)
                    < ATTACK_DISTANCE_SQ_MILLI {
                    final(enemy).state == EnemyState::Attacking(t) && final(enemy).position == old(
                        enemy,
                    ).position
                } else {
                    final(enemy).state == old(enemy).state && final(enemy).position == moved_position(
                        old(enemy).position,
                        s.position,
                        TRAVEL_SPEED_MILLI_PER_SEC * delta_ms / 1000,
                    )
                },
                Option::None => final(enemy).state == EnemyState::Idle && final(enemy).position
                    == old(enemy).position,
            },
            EnemyState::Wander(t) => if dist_sq(old(enemy).position, t) < WANDER_ARRIVE_SQ_MILLI {
                final(enemy).state == EnemyState::Idle && final(enemy).position == old(
                    enemy,
                ).position
            } else {
                final(enemy).state == old(enemy).state && final(enemy).position == moved_position(
                    old(enemy).position,
                    t,
                    WANDER_SPEED_MILLI_PER_SEC * delta_ms / 1000,
                )
            },
            _ => *final(enemy) == *old(enemy),
        },
        state_targets_resolve(old(enemy).state, *structures) ==> state_targets_resolve(
            final(enemy).state,
            *structures,
        ),
        !(old(enemy).state matches EnemyState::Attacking(_)) ==> state_targets_resolve(
            final(enemy).state,
            *structures,
        ),
{
    match enemy.state {
        EnemyState::TravelingTo(t) => {
            match structures.get(t) {
                Option::Some(s) => {
                    proof {
                        crate::arena::lemma_get_slot(*structures, t);
                    }
                    let dsq = dist_sq_u64(enemy.position, s.position);
                    if dsq < ATTACK_DISTANCE_SQ_MILLI {
                        enemy.state = EnemyState::Attacking(t);
                    } else {
                        let step = TRAVEL_SPEED_MILLI_PER_SEC * delta_ms / 1000;
                        enemy.position = move_toward(enemy.position, s.position, step);
                    }
                },
                Option::None => {
                    enemy.state = EnemyState::Idle;
                },
            }
        },
        EnemyState::Wander(t) => {
            let dsq = dist_sq_u64(enemy.position, t);
            if dsq < WANDER_ARRIVE_SQ_MILLI {
                enemy.state = EnemyState::Idle;
            } else {
                let step = WANDER_SPEED_MILLI_PER_SEC * delta_ms / 1000;
                enemy.position = move_toward(enemy.position, t, step);
            }
        },
        _ => {},
    }
}

/// Where a straight step of `step_milli` milli-units from `pos` toward
/// `target` ends up: each coordinate advances its truncated share of the
/// step, never past the target.
pub open spec fn moved_position(pos: Vec2i, target: Vec2i, step_milli: int) -> Vec2i {
    let d = isqrt_spec(dist_sq(pos, target) as nat) as int;
    Vec2i {
        x: spec_step_toward(pos.x as int, target.x as int, step_milli, d) as i64,
        y: spec_step_toward(pos.y as int, target.y as int, step_milli, d) as i64,
    }
}

/// An attacking enemy deals its damage, scaled by the frame delta, to its
/// target's health (which never drops below zero). A target that no longer
/// resolves sends the enemy back to idle; nothing else changes.
pub fn attack_target(enemy: &mut Enemy, structures: &mut Arena<Structure>, delta_ms: u64)
    requires
        old(enemy).wf(),
        structures_wf(*old(structures)),
        delta_ms <= MAX_FRAME_DELTA_MS,
    ensures
        final(enemy).wf(),
        structures_wf(*final(structures)),
        final(enemy).health_milli == old(enemy).health_milli,
        final(enemy).damage_milli_per_sec == old(enemy).damage_milli_per_sec,
        final(enemy).position == old(enemy).position,
        match old(enemy).state {
            EnemyState::Attacking(t) => match old(structures).spec_get(t) {
                Option::Some(s) => {
                    &&& final(enemy).state == old(enemy).state
                    &&& final(structures).spec_get(t) matches Some(s2) && s2 == (Structure {
                        destructable: crate::building::Destructable {
                            health_milli: damaged_health(
                                s.destructable.health_milli as int,
                                old(enemy).damage_milli_per_sec as int,
                                delta_ms as int,
                            ) as i64,
                            ..s.destructable
                        },
                        ..s
                    })
                    &&& forall|o: EntityId|
                        o != t ==> final(structures).spec_get(o) == old(structures).spec_get(o)
                    &&& final(structures).spec_len() == old(structures).spec_len()
                    &&& forall|k: int|
                        k != t.index ==> final(structures).spec_slot_value(k) == old(
                            structures,
                        ).spec_slot_value(k)
                },
                Option::None => final(enemy).state == EnemyState::Idle && *final(structures)
                    == *old(structures),
            },
            _ => *final(enemy) == *old(enemy) && *final(structures) == *old(structures),
        },
        state_targets_resolve(final(enemy).state, *final(structures)) || (old(enemy).state
            matches EnemyState::TravelingTo(t) && old(structures).spec_get(t) is None),
{
    match enemy.state {
        EnemyState::Attacking(t) => {
            match structures.get(t) {
                Option::Some(s) => {
                    proof {
                        crate::arena::lemma_get_slot(*structures, t);
                    }
                    let dmg: i64 = enemy.damage_milli_per_sec;
                    proof {
                        assert(dmg * delta_ms <= 1_000_000_000i64 * 1_000_000i64) by (
                        nonlinear_arith)
                            requires
                                0 <= dmg <= 1_000_000_000,
                                0 <= delta_ms <= 1_000_000,
                        ;
                        assert(dmg * delta_ms >= 0) by (nonlinear_arith)
                            requires
                                0 <= dmg,
                                0 <= delta_ms,
                        ;
                    }
                    let dealt: i64 = dmg * (delta_ms as i64) / 1000;
                    let new_health: i64 = if s.destructable.health_milli > dealt {
                        s.destructable.health_milli - dealt
                    } else {
                        0
                    };
                    let mut s2 = s;
                    s2.destructable.health_milli = new_health;
                    structures.replace(t, s2);
                    proof {
                        crate::arena::lemma_get_slot(*old(structures), t);
                        assert forall|k: int|
                            0 <= k < structures.spec_len() && (#[trigger] structures
                                .spec_slot_value(k)) is Some implies structures.spec_slot_value(
                            k,
                        )->Some_0.wf() by {
                            if k != t.index {
                                assert(structures.spec_slot_value(k) == old(
                                    structures,
                                ).spec_slot_value(k));
                            } else {
                                assert(structures.spec_slot_value(k) == Option::Some(s2));
                            }
                        }
                    }
                },
                Option::None => {
                    enemy.state = EnemyState::Idle;
                },
            }
        },
        _ => {},
    }
}

/// The health left after one frame of attack: damage per second scaled by
/// the delta, floored at zero.
pub open spec fn damaged_health(health: int, damage_per_sec: int, delta_ms: int) -> int {
    let dealt = damage_per_sec * delta_ms / 1000;
    if health > dealt {
        health - dealt
    } else {
        0
    }
}

} // verus!
