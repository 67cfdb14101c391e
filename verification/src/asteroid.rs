//! Asteroids: the mineable resource deposits.
//!
//! An asteroid holds a stock of resources that mining draws down one per
//! completed tick. A mined-out asteroid is destroyed and immediately
//! replaced by a fresh one spawned farther out on a spiral from the origin,
//! so the field never runs dry.

use crate::arena::{spec_live_count, Arena, EntityId};
use crate::events::{GameEvent, Notification};
use crate::gameplay::{GameplayManager, ASTEROID_SPAWN_DISTANCE_CAP, ASTEROID_SPAWN_DISTANCE_STEP};
use crate::geom::{dist_sq, dist_sq_u64, Vec2i, MILLI};
use crate::placement::random_ring_position;
use vstd::prelude::*;

verus! {

/// Resources a freshly spawned asteroid holds.
pub const ASTEROID_START_RESOURCES: u32 = 12;

/// Squared distance (milli-units) under which a hidden asteroid is
/// revealed by the passing mining ship.
pub const REVEAL_DIST_SQ_MILLI: u64 = 500_000_000;

#[derive(Clone, Copy, PartialEq, Eq, Structural, Debug)]
pub struct Asteroid {
    pub contained_resources: u32,
    pub max_resources: u32,
    pub position: Vec2i,
    pub visible: bool,
}

impl Asteroid {
    pub open spec fn wf(self) -> bool {
        &&& self.position.in_bounds()
        &&& 0 < self.max_resources
        &&& self.contained_resources <= self.max_resources
    }

    /// A fresh asteroid at full stock.
    pub fn new(position: Vec2i, visible: bool) -> (a: Asteroid)
        requires
            position.in_bounds(),
        ensures
            a.wf(),
            a.contained_resources == ASTEROID_START_RESOURCES,
            a.max_resources == ASTEROID_START_RESOURCES,
            a.position == position,
            a.visible == visible,
    {
        Asteroid {
            contained_resources: ASTEROID_START_RESOURCES,
            max_resources: ASTEROID_START_RESOURCES,
            position,
            visible,
        }
    }

    /// Remaining stock as a fraction of the maximum, in permille, for the
    /// deposit bar over the asteroid.
    pub fn value_permille(&self) -> (v: u32)
        requires
            self.wf(),
        ensures
            v == self.contained_resources as int * 1000 / self.max_resources as int,
    {
        let c: u64 = self.contained_resources as u64;
        let m: u64 = self.max_resources as u64;
        proof {
            assert(c * 1000 <= m * 1000) by (nonlinear_arith)
                requires
                    c <= m,
            ;
            vstd::arithmetic::div_mod::lemma_div_is_ordered(
                (c * 1000) as int,
                (m * 1000) as int,
                m as int,
            );
            vstd::arithmetic::div_mod::lemma_div_multiples_vanish(1000, m as int);
        }
        ((c * 1000) / m) as u32
    }
}

/// Every stored asteroid is well formed.
pub open spec fn asteroids_wf(a: Arena<Asteroid>) -> bool {
    forall|k: int|
        0 <= k < a.spec_len() && (#[trigger] a.spec_slot_value(k)) is Some
            ==> a.spec_slot_value(k)->Some_0.wf()
}

/// A slot holds an asteroid whose resources have run out.
pub open spec fn depleted(v: Option<Asteroid>) -> bool {
    v matches Some(a) && a.contained_resources == 0
}

/// How many of the first `n` slots hold mined-out asteroids.
pub open spec fn depleted_count(a: Arena<Asteroid>, n: int) -> int
    decreases n,
{
    if n <= 0 {
        0
    } else {
        depleted_count(a, n - 1) + (if depleted(a.spec_slot_value(n - 1)) {
            1int
        } else {
            0int
        })
    }
}

/// The count of mined-out slots is never negative.
pub proof fn lemma_depleted_count_nonneg(a: Arena<Asteroid>, n: int)
    ensures
        depleted_count(a, n) >= 0,
    decreases n,
{
    if n > 0 {
        lemma_depleted_count_nonneg(a, n - 1);
    }
}

/// The count over a longer prefix is at least the count over a shorter.
pub proof fn lemma_depleted_count_monotone(a: Arena<Asteroid>, m: int, n: int)
    requires
        m <= n,
    ensures
        depleted_count(a, m) <= depleted_count(a, n),
    decreases n - m,
{
    if n > m {
        lemma_depleted_count_monotone(a, m, n - 1);
    }
}

/// The slot index of the `j`-th mined-out asteroid (ascending slot order,
/// counting from zero) among the first `n` slots.
pub open spec fn nth_depleted(a: Arena<Asteroid>, n: int, j: int) -> int
    decreases n,
{
    if n <= 0 {
        -1
    } else if depleted(a.spec_slot_value(n - 1)) && depleted_count(a, n - 1) == j {
        n - 1
    } else {
        nth_depleted(a, n - 1, j)
    }
}

/// A mined-out slot is the `depleted_count`-before-it-th mined-out slot.
pub proof fn lemma_nth_depleted_at(a: Arena<Asteroid>, n: int, i: int)
    requires
        0 <= i < n,
        depleted(a.spec_slot_value(i)),
    ensures
        nth_depleted(a, n, depleted_count(a, i)) == i,
    decreases n,
{
    if n - 1 == i {
    } else {
        if depleted(a.spec_slot_value(n - 1)) && depleted_count(a, n - 1) == depleted_count(a, i) {
            lemma_depleted_count_monotone(a, i + 1, n - 1);
            assert(depleted_count(a, i + 1) == depleted_count(a, i) + 1);
        }
        lemma_nth_depleted_at(a, n - 1, i);
    }
}

/// The record the sweep leaves for the `j`-th mined-out slot: its despawn
/// event, then the spawn event of a hidden replacement that stands in the
/// store at full stock.
pub open spec fn replacement_recorded(
    before: Arena<Asteroid>,
    n: int,
    ev: Seq<GameEvent>,
    base0: int,
    store: Arena<Asteroid>,
    j: int,
) -> bool {
    let base = base0 + 2 * j;
    &&& ev[base] == (GameEvent::AsteroidDespawned {
        id: before.spec_id_at(nth_depleted(before, n, j)),
    })
    &&& (ev[base + 1] matches GameEvent::AsteroidSpawned { id, position, visible } && !visible
        && store.spec_get(id) == Option::Some(Asteroid::spec_fresh(position, false)))
}

/// Whether any of the first `n` slots holds a visible asteroid that still
/// has resources.
pub open spec fn any_visible_survivor(a: Arena<Asteroid>, n: int) -> bool
    decreases n,
{
    if n <= 0 {
        false
    } else {
        any_visible_survivor(a, n - 1) || (a.spec_slot_value(n - 1) matches Some(ast)
            && ast.contained_resources > 0 && ast.visible)
    }
}

/// Place a fresh asteroid into the world at a given position.
pub fn spawn_asteroid(
    asteroids: &mut Arena<Asteroid>,
    position: Vec2i,
    visible: bool,
    events: &mut Vec<GameEvent>,
) -> (id: EntityId)
    requires
        asteroids_wf(*old(asteroids)),
        position.in_bounds(),
    ensures
        asteroids_wf(*final(asteroids)),
        old(asteroids).spec_get(id) is None,
        final(asteroids).spec_get(id) == Option::Some(Asteroid::spec_fresh(position, visible)),
        old(asteroids).spec_slot_value(id.index as int) is None,
        final(asteroids).spec_slot_value(id.index as int) == Option::Some(
            Asteroid::spec_fresh(position, visible),
        ),
        forall|o: EntityId| o != id ==> final(asteroids).spec_get(o) == old(asteroids).spec_get(o),
        forall|k: int|
            k != id.index ==> final(asteroids).spec_slot_value(k) == old(
                asteroids,
            ).spec_slot_value(k),
        forall|k: int|
            0 <= k < old(asteroids).spec_len() && k != id.index ==> final(asteroids).spec_id_at(k)
                == old(asteroids).spec_id_at(k),
        old(asteroids).spec_len() <= final(asteroids).spec_len() <= old(asteroids).spec_len() + 1,
        final(asteroids).spec_len() > old(asteroids).spec_len() ==> id.index == old(
            asteroids,
        ).spec_len(),
        id.generation < u64::MAX,
        id.index < old(asteroids).spec_len() ==> id == old(asteroids).spec_id_at(
            id.index as int,
        ),
        final(events)@ == old(events)@.push(GameEvent::AsteroidSpawned { id, position, visible }),
{
    let a = Asteroid::new(position, visible);
    let id = asteroids.insert(a);
    events.push(GameEvent::AsteroidSpawned { id, position, visible });
    proof {
        assert forall|k: int|
            0 <= k < asteroids.spec_len() && (#[trigger] asteroids.spec_slot_value(k))
                is Some implies asteroids.spec_slot_value(k)->Some_0.wf() by {
            if k != id.index {
                assert(asteroids.spec_slot_value(k) == old(asteroids).spec_slot_value(k));
                crate::arena::lemma_slot_in_range(*old(asteroids), k);
            } else {
                assert(asteroids.spec_slot_value(k) == Option::Some(a));
            }
        }
    }
    id
}

impl Asteroid {
    /// The value [`Asteroid::new`] constructs.
    pub open spec fn spec_fresh(position: Vec2i, visible: bool) -> Asteroid {
        Asteroid {
            contained_resources: ASTEROID_START_RESOURCES,
            max_resources: ASTEROID_START_RESOURCES,
            position,
            visible,
        }
    }
}

/// Spawn a hidden replacement asteroid at the manager's current spawn
/// distance, on a random bearing from the origin, and push the spawn
/// distance outward for the next one (up to its cap).
pub fn spawn_random_asteroid(
    manager: &mut GameplayManager,
    asteroids: &mut Arena<Asteroid>,
    events: &mut Vec<GameEvent>,
) -> (id: EntityId)
    requires
        old(manager).wf(),
        asteroids_wf(*old(asteroids)),
    ensures
        final(manager).wf(),
        asteroids_wf(*final(asteroids)),
        final(manager).asteroid_spawn_distance == (if old(manager).asteroid_spawn_distance
            + ASTEROID_SPAWN_DISTANCE_STEP <= ASTEROID_SPAWN_DISTANCE_CAP {
            old(manager).asteroid_spawn_distance + ASTEROID_SPAWN_DISTANCE_STEP
        } else {
            ASTEROID_SPAWN_DISTANCE_CAP as int
        }),
        final(manager).enemy_spawn_timer == old(manager).enemy_spawn_timer,
        final(manager).peace_timer == old(manager).peace_timer,
        final(manager).enemy_spawn_rate_multiplier_tenths == old(
            manager,
        ).enemy_spawn_rate_multiplier_tenths,
        final(manager).enemy_damage_multiplier_tenths == old(manager).enemy_damage_multiplier_tenths,
        final(manager).elapsed_time_ms == old(manager).elapsed_time_ms,
        final(manager).current_phase_time_ms == old(manager).current_phase_time_ms,
        final(manager).cycle == old(manager).cycle,
        old(asteroids).spec_get(id) is None,
        final(asteroids).spec_get(id) matches Some(a) && a == Asteroid::spec_fresh(a.position, false)
            && ({
            let r = old(manager).asteroid_spawn_distance * MILLI;
            r * r - 2 * r <= dist_sq(a.position, Vec2i { x: 0, y: 0 }) <= r * r
        }),
        old(asteroids).spec_slot_value(id.index as int) is None,
        final(asteroids).spec_slot_value(id.index as int) == final(asteroids).spec_get(id),
        forall|o: EntityId| o != id ==> final(asteroids).spec_get(o) == old(asteroids).spec_get(o),
        forall|k: int|
            k != id.index ==> final(asteroids).spec_slot_value(k) == old(
                asteroids,
            ).spec_slot_value(k),
        forall|k: int|
            0 <= k < old(asteroids).spec_len() && k != id.index ==> final(asteroids).spec_id_at(k)
                == old(asteroids).spec_id_at(k),
        old(asteroids).spec_len() <= final(asteroids).spec_len() <= old(asteroids).spec_len() + 1,
        final(asteroids).spec_len() > old(asteroids).spec_len() ==> id.index == old(
            asteroids,
        ).spec_len(),
        id.generation < u64::MAX,
        id.index < old(asteroids).spec_len() ==> id == old(asteroids).spec_id_at(
            id.index as int,
        ),
        final(events)@.len() == old(events)@.len() + 1,
        forall|j: int| 0 <= j < old(events)@.len() ==> final(events)@[j] == old(events)@[j],
        final(events)@[old(events)@.len() as int] == (GameEvent::AsteroidSpawned {
            id,
            position: final(asteroids).spec_get(id)->Some_0.position,
            visible: false,
        }),
{
    let position = random_ring_position(manager.asteroid_spawn_distance);
    if manager.asteroid_spawn_distance + ASTEROID_SPAWN_DISTANCE_STEP
        <= ASTEROID_SPAWN_DISTANCE_CAP {
        manager.asteroid_spawn_distance = manager.asteroid_spawn_distance
            + ASTEROID_SPAWN_DISTANCE_STEP;
    } else {
        manager.asteroid_spawn_distance = ASTEROID_SPAWN_DISTANCE_CAP;
    }
    spawn_asteroid(asteroids, position, false, events)
}

/// Sweep out every mined-out asteroid and replace each with exactly one
/// fresh hidden asteroid spawned farther out. If anything was mined out
/// and no visible asteroid with resources remains, tell the player to go
/// scanning.
#[verifier::spinoff_prover]
#[verifier::rlimit(100)]
pub fn destroy_empty_asteroids(
    manager: &mut GameplayManager,
    asteroids: &mut Arena<Asteroid>,
    events: &mut Vec<GameEvent>,
)
    requires
        old(manager).wf(),
        asteroids_wf(*old(asteroids)),
    ensures
        final(manager).wf(),
        asteroids_wf(*final(asteroids)),
        // No mined-out asteroid survives the sweep.
        forall|k: int|
            0 <= k < final(asteroids).spec_len() ==> !depleted(
                final(asteroids).spec_slot_value(k),
            ),
        // Asteroids that still held resources are untouched.
        forall|k: int|
            0 <= k < old(asteroids).spec_len() && (old(asteroids).spec_slot_value(k)
                matches Some(a) && a.contained_resources > 0) ==> final(asteroids).spec_slot_value(k) == old(asteroids).spec_slot_value(k),
        // Handle for handle: a surviving asteroid keeps resolving to
        // itself.
        forall|o: EntityId|
            (#[trigger] old(asteroids).spec_get(o)) matches Some(a) && a.contained_resources > 0
                ==> final(asteroids).spec_get(o) == old(asteroids).spec_get(o),
        // Anything else stored now is a fresh hidden replacement.
        forall|k: int|
            0 <= k < final(asteroids).spec_len() && (#[trigger] final(asteroids).spec_slot_value(
                k,
            )) is Some ==> (final(asteroids).spec_slot_value(k) == old(
                asteroids,
            ).spec_slot_value(k) || final(asteroids).spec_slot_value(k)->Some_0
                == Asteroid::spec_fresh(final(asteroids).spec_slot_value(k)->Some_0.position, false)),
        // One replacement enters the store for each mined-out asteroid
        // that leaves it: the population is preserved.
        spec_live_count(*final(asteroids), final(asteroids).spec_len()) == spec_live_count(
            *old(asteroids),
            old(asteroids).spec_len(),
        ),
        // Exactly one despawn and one replacement spawn per mined-out
        // asteroid, and at most one closing notification.
        final(events)@.len() == old(events)@.len() + 2 * depleted_count(
            *old(asteroids),
            old(asteroids).spec_len(),
        ) + (if depleted_count(*old(asteroids), old(asteroids).spec_len()) > 0
            && !any_visible_survivor(*old(asteroids), old(asteroids).spec_len()) {
            1int
        } else {
            0int
        }),
        forall|j: int| 0 <= j < old(events)@.len() ==> final(events)@[j] == old(events)@[j],
        // The appended events name, for the j-th mined-out slot in
        // ascending slot order, its despawn and then the replacement's
        // spawn; each spawned replacement stands in the final store,
        // hidden and at full stock.
        forall|j: int|
            0 <= j < depleted_count(*old(asteroids), old(asteroids).spec_len())
                ==> #[trigger] replacement_recorded(
                *old(asteroids),
                old(asteroids).spec_len(),
                final(events)@,
                old(events)@.len() as int,
                *final(asteroids),
                j,
            ),
        final(manager).cycle == old(manager).cycle,
        final(manager).elapsed_time_ms == old(manager).elapsed_time_ms,
        final(manager).current_phase_time_ms == old(manager).current_phase_time_ms,
        final(manager).enemy_spawn_timer == old(manager).enemy_spawn_timer,
        final(manager).peace_timer == old(manager).peace_timer,
        final(manager).enemy_spawn_rate_multiplier_tenths == old(
            manager,
        ).enemy_spawn_rate_multiplier_tenths,
        final(manager).enemy_damage_multiplier_tenths == old(manager).enemy_damage_multiplier_tenths,
{
    let n = asteroids.slot_count();
    let mut i: usize = 0;
    let mut despawned = false;
    while i < n
        invariant
            i <= n,
            n == old(asteroids).spec_len(),
            asteroids.spec_len() >= n,
            old(manager).wf(),
            manager.wf(),
            asteroids_wf(*asteroids),
            despawned == (depleted_count(*old(asteroids), i as int) > 0),
            // Depleted slots survive only in the unprocessed region.
            forall|k: int|
                0 <= k < asteroids.spec_len() && depleted(asteroids.spec_slot_value(k))
                    ==> i <= k < n,
            forall|k: int|
                i <= k < n && (#[trigger] old(asteroids).spec_slot_value(k)) is Some
                    ==> asteroids.spec_slot_value(k) == old(asteroids).spec_slot_value(k),
            forall|k: int|
                0 <= k < old(asteroids).spec_len() && (old(asteroids).spec_slot_value(k)
                    matches Some(a) && a.contained_resources > 0) ==> asteroids.spec_slot_value(k)
                    == old(asteroids).spec_slot_value(k),
            forall|o: EntityId|
                (#[trigger] old(asteroids).spec_get(o)) matches Some(a) && a.contained_resources
                    > 0 ==> asteroids.spec_get(o) == old(asteroids).spec_get(o),
            forall|k: int|
                0 <= k < asteroids.spec_len() && (#[trigger] asteroids.spec_slot_value(k))
                    is Some ==> (asteroids.spec_slot_value(k) == old(asteroids).spec_slot_value(k)
                    || asteroids.spec_slot_value(k)->Some_0 == Asteroid::spec_fresh(
                    asteroids.spec_slot_value(k)->Some_0.position,
                    false,
                )),
            forall|k: int|
                i <= k < n && (#[trigger] old(asteroids).spec_slot_value(k)) is Some
                    ==> asteroids.spec_id_at(k) == old(asteroids).spec_id_at(k),
            spec_live_count(*asteroids, asteroids.spec_len()) == spec_live_count(
                *old(asteroids),
                n as int,
            ),
            events@.len() == old(events)@.len() + 2 * depleted_count(*old(asteroids), i as int),
            forall|j: int| 0 <= j < old(events)@.len() ==> events@[j] == old(events)@[j],
            forall|j: int|
                0 <= j < depleted_count(*old(asteroids), i as int)
                    ==> #[trigger] replacement_recorded(
                    *old(asteroids),
                    n as int,
                    events@,
                    old(events)@.len() as int,
                    *asteroids,
                    j,
                ),
            manager.cycle == old(manager).cycle,
            manager.elapsed_time_ms == old(manager).elapsed_time_ms,
            manager.current_phase_time_ms == old(manager).current_phase_time_ms,
            manager.enemy_spawn_timer == old(manager).enemy_spawn_timer,
            manager.peace_timer == old(manager).peace_timer,
            manager.enemy_spawn_rate_multiplier_tenths == old(
                manager,
            ).enemy_spawn_rate_multiplier_tenths,
            manager.enemy_damage_multiplier_tenths == old(manager).enemy_damage_multiplier_tenths,
        decreases n - i,
    {
        proof {
            lemma_depleted_count_nonneg(*old(asteroids), i as int);
        }
        let ghost ev0 = events@;
        match asteroids.get_at(i) {
            Option::Some(p) => {
                if p.1.contained_resources == 0 {
                    proof {
                        assert(asteroids.spec_slot_value(i as int) == old(
                            asteroids,
                        ).spec_slot_value(i as int));
                        assert(depleted(old(asteroids).spec_slot_value(i as int)));
                    }
                    let ghost a0 = *asteroids;
                    events.push(GameEvent::AsteroidDespawned { id: p.0 });
                    asteroids.remove(p.0);
                    let ghost a1 = *asteroids;
                    let sid = spawn_random_asteroid(manager, asteroids, events);
                    despawned = true;
                    proof {
                        assert(a1.spec_slot_value(i as int) is None);
                        crate::arena::lemma_live_count_remove(a0, a1, p.0);
                        crate::arena::lemma_slot_in_range(*asteroids, sid.index as int);
                        crate::arena::lemma_live_count_insert(a1, *asteroids, sid);
                        assert forall|k: int|
                            0 <= k < asteroids.spec_len() && (#[trigger] asteroids
                                .spec_slot_value(k)) is Some implies (asteroids.spec_slot_value(
                            k,
                        ) == old(asteroids).spec_slot_value(k) || asteroids.spec_slot_value(
                            k,
                        )->Some_0 == Asteroid::spec_fresh(
                            asteroids.spec_slot_value(k)->Some_0.position,
                            false,
                        )) by {
                            if k == sid.index {
                            } else if k == i {
                                assert(asteroids.spec_slot_value(k) == a1.spec_slot_value(k));
                            } else {
                                assert(asteroids.spec_slot_value(k) == a1.spec_slot_value(k));
                                assert(a1.spec_slot_value(k) == a0.spec_slot_value(k));
                                crate::arena::lemma_slot_in_range(a0, k);
                            }
                        }
                        assert forall|k: int|
                            0 <= k < asteroids.spec_len() && depleted(
                                #[trigger] asteroids.spec_slot_value(k),
                            ) implies i + 1 <= k < n by {
                            if k == sid.index {
                                assert(asteroids.spec_slot_value(k) == asteroids.spec_get(sid));
                                assert(asteroids.spec_get(sid)->Some_0.contained_resources
                                    == ASTEROID_START_RESOURCES);
                                assert(!depleted(asteroids.spec_slot_value(k)));
                            } else if k == i {
                                assert(asteroids.spec_slot_value(k) == a1.spec_slot_value(k));
                            } else {
                                assert(asteroids.spec_slot_value(k) == a1.spec_slot_value(k));
                                assert(a1.spec_slot_value(k) == a0.spec_slot_value(k));
                                assert(depleted(a0.spec_slot_value(k)));
                            }
                        }
                        assert forall|o: EntityId|
                            (#[trigger] old(asteroids).spec_get(o)) matches Some(a)
                                && a.contained_resources > 0 implies asteroids.spec_get(o) == old(
                            asteroids,
                        ).spec_get(o) by {
                            assert(a0.spec_get(o) == old(asteroids).spec_get(o));
                            assert(a0.spec_get(p.0) == Option::Some(p.1));
                            assert(o != p.0);
                            assert(a1.spec_get(o) == a0.spec_get(o));
                            assert(a1.spec_get(sid) is None);
                            assert(o != sid);
                        }
                        lemma_nth_depleted_at(*old(asteroids), n as int, i as int);
                        assert(p.0 == a0.spec_id_at(i as int));
                        assert(p.0 == old(asteroids).spec_id_at(i as int));
                        assert forall|j: int|
                            0 <= j < depleted_count(*old(asteroids), i as int + 1)
                                implies #[trigger] replacement_recorded(
                            *old(asteroids),
                            n as int,
                            events@,
                            old(events)@.len() as int,
                            *asteroids,
                            j,
                        ) by {
                            let base = old(events)@.len() + 2 * j;
                            if j < depleted_count(*old(asteroids), i as int) {
                                assert(replacement_recorded(
                                    *old(asteroids),
                                    n as int,
                                    ev0,
                                    old(events)@.len() as int,
                                    a0,
                                    j,
                                ));
                                assert(base + 1 < ev0.len());
                                assert(events@[base] == ev0[base]);
                                assert(events@[base + 1] == ev0[base + 1]);
                                let ghost ev = ev0[base + 1];
                                match ev {
                                    GameEvent::AsteroidSpawned {
                                        id: rid,
                                        position: rpos,
                                        visible: rvis,
                                    } => {
                                        assert(a0.spec_get(rid) == Option::Some(
                                            Asteroid::spec_fresh(rpos, false),
                                        ));
                                        assert(a0.spec_get(p.0) == Option::Some(p.1));
                                        assert(rid != p.0);
                                        assert(a1.spec_get(rid) == a0.spec_get(rid));
                                        assert(a1.spec_get(sid) is None);
                                        assert(rid != sid);
                                        assert(asteroids.spec_get(rid) == a1.spec_get(rid));
                                    },
                                    _ => {},
                                }
                            } else {
                                assert(j == depleted_count(*old(asteroids), i as int));
                                assert(nth_depleted(*old(asteroids), n as int, j) == i);
                                assert(base == ev0.len());
                                assert(events@[base] == (GameEvent::AsteroidDespawned {
                                    id: p.0,
                                }));
                                assert(events@[base + 1] matches GameEvent::AsteroidSpawned {
                                    id,
                                    position,
                                    visible,
                                } && !visible && asteroids.spec_get(id) == Option::Some(
                                    Asteroid::spec_fresh(position, false),
                                ));
                            }
                        }
                    }
                } else {
                    proof {
                        assert(!depleted(old(asteroids).spec_slot_value(i as int)));
                        assert(depleted_count(*old(asteroids), i as int + 1) == depleted_count(
                            *old(asteroids),
                            i as int,
                        ));
                    }
                }
            },
            Option::None => {
                proof {
                    assert(!depleted(old(asteroids).spec_slot_value(i as int)));
                    assert(depleted_count(*old(asteroids), i as int + 1) == depleted_count(
                        *old(asteroids),
                        i as int,
                    ));
                }
            },
        }
        i = i + 1;
    }
    let ghost ev_end = events@;
    if despawned {
        let mut visible_left = false;
        let mut k: usize = 0;
        let m = asteroids.slot_count();
        while k < m
            invariant
                k <= m,
                m == asteroids.spec_len(),
                visible_left == any_visible_survivor(*asteroids, k as int),
            decreases m - k,
        {
            match asteroids.get_at(k) {
                Option::Some(p) => {
                    if p.1.contained_resources > 0 && p.1.visible {
                        visible_left = true;
                    }
                },
                Option::None => {},
            }
            k = k + 1;
        }
        proof {
            lemma_visible_survivor_fwd(*old(asteroids), *asteroids, n as int);
            lemma_visible_monotone(*asteroids, n as int, asteroids.spec_len());
            lemma_visible_survivor_bwd(
                *old(asteroids),
                *asteroids,
                asteroids.spec_len(),
                n as int,
            );
        }
        if !visible_left {
            events.push(GameEvent::Notify { note: Notification::AllKnownAsteroidsMined });
        }
    }
    proof {
        // The closing notification, if any, was appended after the pairs,
        // so each recorded pair stands where it stood.
        assert forall|j: int|
            0 <= j < depleted_count(*old(asteroids), old(asteroids).spec_len())
                implies #[trigger] replacement_recorded(
            *old(asteroids),
            old(asteroids).spec_len(),
            events@,
            old(events)@.len() as int,
            *asteroids,
            j,
        ) by {
            assert(replacement_recorded(
                *old(asteroids),
                n as int,
                ev_end,
                old(events)@.len() as int,
                *asteroids,
                j,
            ));
            let base = old(events)@.len() + 2 * j;
            assert(base + 1 < ev_end.len());
            assert(events@[base] == ev_end[base]);
            assert(events@[base + 1] == ev_end[base + 1]);
        }
    }
}

/// A visible survivor among the first `n` slots is one among the first
/// `m >= n` slots too.
proof fn lemma_visible_monotone(a: Arena<Asteroid>, n: int, m: int)
    requires
        0 <= n <= m,
    ensures
        any_visible_survivor(a, n) ==> any_visible_survivor(a, m),
    decreases m,
{
    if m > n {
        lemma_visible_monotone(a, n, m - 1);
    }
}

/// A visible surviving asteroid from before the sweep still stands where
/// it stood: the sweep leaves asteroids with resources untouched.
proof fn lemma_visible_survivor_fwd(before: Arena<Asteroid>, after: Arena<Asteroid>, n: int)
    requires
        n <= before.spec_len(),
        n <= after.spec_len(),
        forall|k: int|
            0 <= k < before.spec_len() && (before.spec_slot_value(k) matches Some(a)
                && a.contained_resources > 0) ==> after.spec_slot_value(k) == before.spec_slot_value(
                k,
            ),
    ensures
        any_visible_survivor(before, n) ==> any_visible_survivor(after, n),
    decreases n,
{
    if n > 0 {
        lemma_visible_survivor_fwd(before, after, n - 1);
    }
}

/// A visible survivor after the sweep was one before it: replacements
/// spawn hidden, so only untouched asteroids can be visible.
proof fn lemma_visible_survivor_bwd(before: Arena<Asteroid>, after: Arena<Asteroid>, j: int, n: int)
    requires
        j <= after.spec_len(),
        n == before.spec_len(),
        forall|k: int|
            0 <= k < after.spec_len() && (#[trigger] after.spec_slot_value(k)) is Some ==> (
            after.spec_slot_value(k) == before.spec_slot_value(k) || after.spec_slot_value(
                k,
            )->Some_0 == Asteroid::spec_fresh(after.spec_slot_value(k)->Some_0.position, false)),
    ensures
        any_visible_survivor(after, j) ==> any_visible_survivor(before, n),
    decreases j,
{
    if j > 0 {
        lemma_visible_survivor_bwd(before, after, j - 1, n);
        if after.spec_slot_value(j - 1) matches Some(ast) && ast.contained_resources > 0
            && ast.visible {
            assert(after.spec_slot_value(j - 1) == before.spec_slot_value(j - 1));
            crate::arena::lemma_slot_in_range(before, j - 1);
            lemma_visible_witness(before, j - 1, n);
        }
    }
}

/// A slot known to hold a visible survivor witnesses the prefix predicate.
proof fn lemma_visible_witness(a: Arena<Asteroid>, k: int, n: int)
    requires
        0 <= k < n,
        a.spec_slot_value(k) matches Some(ast) && ast.contained_resources > 0 && ast.visible,
    ensures
        any_visible_survivor(a, n),
    decreases n,
{
    if k < n - 1 {
        lemma_visible_witness(a, k, n - 1);
    }
}

} // verus!
