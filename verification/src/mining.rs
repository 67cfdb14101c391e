//! The mining loop: timer-gated resource extraction over an asteroid,
//! delivery to the base, and the scanner that reveals nearby deposits.

use crate::arena::{Arena, EntityId};
use crate::asteroid::{asteroids_wf, Asteroid, REVEAL_DIST_SQ_MILLI};
use crate::events::{GameEvent, Notification, SfxKey};
use crate::gameplay::MAX_FRAME_DELTA_MS;
use crate::geom::{dist_sq, dist_sq_u64, isqrt, Vec2i};
use crate::resources::Resources;
use crate::timer::{Timer, TimerMode};
use crate::upgrades::Upgrades;
use vstd::prelude::*;

verus! {

/// Base time of one mining tick.
pub const MINING_TIME_MS: u64 = 1_000;

/// Squared distance (milli-units) from the station within which held
/// resources are delivered.
pub const DELIVERY_DIST_SQ_MILLI: u64 = 625_000_000;

/// The per-ship mining state: the held-interact input, its edge signals,
/// and the extraction timer, which runs faster with mining upgrades.
pub struct MiningController {
    pub interacting: bool,
    pub just_interacted: bool,
    pub mining_time_ms: u64,
    pub mining_speed_multiplier_tenths: u32,
    pub timer: Timer,
}

impl MiningController {
    pub open spec fn wf(self) -> bool {
        &&& self.timer.wf()
        &&& self.timer.spec_mode() == TimerMode::Repeating
        &&& self.timer.spec_duration() == self.mining_time_ms
        &&& 0 < self.mining_time_ms <= 1_000_000_000
        &&& 10 <= self.mining_speed_multiplier_tenths <= 2_000
    }

    pub fn new(mining_time_ms: u64) -> (c: MiningController)
        requires
            0 < mining_time_ms <= 1_000_000_000,
        ensures
            c.wf(),
            !c.interacting,
            !c.just_interacted,
            c.mining_time_ms == mining_time_ms,
            c.mining_speed_multiplier_tenths == 10,
            c.timer.spec_elapsed() == 0,
    {
        MiningController {
            interacting: false,
            just_interacted: false,
            mining_time_ms,
            mining_speed_multiplier_tenths: 10,
            timer: Timer::from_ms(mining_time_ms, TimerMode::Repeating),
        }
    }

    /// Record this frame's interact input. Releasing the key throws away
    /// the partial progress: the timer starts over.
    pub fn record_interaction_controller(
        &mut self,
        pressed: bool,
        just_pressed: bool,
        just_released: bool,
    )
        requires
            old(self).wf(),
        ensures
            final(self).wf(),
            final(self).interacting == pressed,
            final(self).just_interacted == just_pressed,
            final(self).mining_time_ms == old(self).mining_time_ms,
            final(self).mining_speed_multiplier_tenths == old(self).mining_speed_multiplier_tenths,
            just_released ==> final(self).timer.spec_elapsed() == 0,
            !just_released ==> final(self).timer == old(self).timer,
    {
        self.interacting = pressed;
        self.just_interacted = just_pressed;
        if just_released {
            self.timer.reset();
        }
    }

    /// Refresh the mining speed from the upgrade ledger: one plus half per
    /// owned mining upgrade.
    pub fn update_mining_speed_mult(&mut self, upgrades: &Upgrades)
        requires
            old(self).wf(),
        ensures
            final(self).wf(),
            final(self).mining_speed_multiplier_tenths == 10 + 5 * upgrades.mining_speed,
            final(self).interacting == old(self).interacting,
            final(self).just_interacted == old(self).just_interacted,
            final(self).mining_time_ms == old(self).mining_time_ms,
            final(self).timer == old(self).timer,
    {
        self.mining_speed_multiplier_tenths = upgrades.mining_speed_multiplier_tenths();
    }

    /// The progress bar value: elapsed over the full mining time, in
    /// permille, and zero whenever the key is not held.
    pub fn progress_permille(&self) -> (v: u64)
        requires
            self.wf(),
        ensures
            v == (if self.interacting {
                self.timer.spec_elapsed() * 1000 / self.mining_time_ms as int
            } else {
                0
            }),
    {
        proof {
            crate::timer::lemma_wf_elapsed_bound(self.timer);
        }
        if self.interacting {
            self.timer.elapsed_ms() * 1000 / self.mining_time_ms
        } else {
            0
        }
    }
}

/// One frame of mining. The timer advances, scaled by the mining speed,
/// only while the interact key is held and the spatial probe reports an
/// asteroid beneath the ship. Each completed tick banks one gathered
/// resource, draws one from the probed asteroid (never below zero), and
/// plays the collection cue.
pub fn mine(
    ctrl: &mut MiningController,
    resources: &mut Resources,
    asteroids: &mut Arena<Asteroid>,
    probe_hit: Option<EntityId>,
    delta_ms: u64,
    events: &mut Vec<GameEvent>,
)
    requires
        old(ctrl).wf(),
        asteroids_wf(*old(asteroids)),
        delta_ms <= MAX_FRAME_DELTA_MS,
        old(resources).gathered < u32::MAX,
    ensures
        final(ctrl).wf(),
        asteroids_wf(*final(asteroids)),
        final(ctrl).interacting == old(ctrl).interacting,
        final(ctrl).just_interacted == old(ctrl).just_interacted,
        final(ctrl).mining_time_ms == old(ctrl).mining_time_ms,
        final(ctrl).mining_speed_multiplier_tenths == old(ctrl).mining_speed_multiplier_tenths,
        final(resources).delivered == old(resources).delivered,
        !(old(ctrl).interacting && probe_hit is Some) ==> {
            &&& *final(ctrl) == *old(ctrl)
            &&& *final(resources) == *old(resources)
            &&& *final(asteroids) == *old(asteroids)
            &&& final(events)@ == old(events)@
        },
        old(ctrl).interacting && probe_hit is Some ==> ({
            let fired = old(ctrl).timer.spec_elapsed() + delta_ms * old(
                ctrl,
            ).mining_speed_multiplier_tenths / 10 >= old(ctrl).mining_time_ms;
            &&& final(ctrl).timer.spec_just_finished() == fired
            &&& final(ctrl).timer.spec_elapsed() == (old(ctrl).timer.spec_elapsed() + delta_ms
                * old(ctrl).mining_speed_multiplier_tenths / 10) % (old(ctrl).mining_time_ms
                as int)
            &&& (fired ==> {
                &&& final(resources).gathered == old(resources).gathered + 1
                &&& final(events)@ == old(events)@.push(GameEvent::PlaySfx { sfx: SfxKey::Collect })
                &&& (match old(asteroids).spec_get(probe_hit->Some_0) {
                    Option::Some(a) => (if a.contained_resources > 0 {
                        final(asteroids).spec_get(probe_hit->Some_0) == Option::Some(
                            Asteroid {
                                contained_resources: (a.contained_resources - 1) as u32,
                                ..a
                            },
                        ) && (forall|o: EntityId|
                            o != probe_hit->Some_0 ==> final(asteroids).spec_get(o) == old(
                                asteroids,
                            ).spec_get(o)) && final(asteroids).spec_len() == old(
                            asteroids,
                        ).spec_len()
                    } else {
                        *final(asteroids) == *old(asteroids)
                    }),
                    Option::None => *final(asteroids) == *old(asteroids),
                })
            })
            &&& (!fired ==> {
                &&& *final(resources) == *old(resources)
                &&& *final(asteroids) == *old(asteroids)
                &&& final(events)@ == old(events)@
            })
        }),
{
    if !ctrl.interacting {
        return ;
    }
    let hit = match probe_hit {
        Option::Some(h) => h,
        Option::None => {
            return ;
        },
    };
    let tenths: u64 = ctrl.mining_speed_multiplier_tenths as u64;
    proof {
        assert(delta_ms * tenths <= 1_000_000u64 * 2_000u64) by (nonlinear_arith)
            requires
                delta_ms <= 1_000_000,
                tenths <= 2_000,
        ;
    }
    let scaled: u64 = delta_ms * tenths / 10;
    ctrl.timer.tick(scaled);
    if ctrl.timer.finished() {
        resources.mine_tick(1);
        match asteroids.get(hit) {
            Option::Some(a) => {
                if a.contained_resources > 0 {
                    proof {
                        crate::arena::lemma_get_slot(*old(asteroids), hit);
                    }
                    let mut a2 = a;
                    a2.contained_resources = a.contained_resources - 1;
                    asteroids.replace(hit, a2);
                    proof {
                        assert forall|k: int|
                            0 <= k < asteroids.spec_len() && (#[trigger] asteroids
                                .spec_slot_value(k)) is Some implies asteroids.spec_slot_value(
                            k,
                        )->Some_0.wf() by {
                            if k != hit.index {
                                assert(asteroids.spec_slot_value(k) == old(
                                    asteroids,
                                ).spec_slot_value(k));
                                crate::arena::lemma_slot_in_range(*old(asteroids), k);
                            } else {
                                assert(asteroids.spec_slot_value(k) == Option::Some(a2));
                            }
                        }
                    }
                }
            },
            Option::None => {},
        }
        events.push(GameEvent::PlaySfx { sfx: SfxKey::Collect });
    }
}

/// Delivery: whenever the mining ship is within the delivery radius of the
/// station at the origin and holds anything gathered, everything gathered
/// moves into the delivered stock, with a notification and the collection
/// cue.
pub fn deliver_resources(
    resources: &mut Resources,
    ship_pos: Vec2i,
    events: &mut Vec<GameEvent>,
)
    requires
        ship_pos.in_bounds(),
        old(resources).delivered + old(resources).gathered <= u32::MAX,
    ensures
        ({
            let delivering = dist_sq(ship_pos, Vec2i { x: 0, y: 0 }) < DELIVERY_DIST_SQ_MILLI
                && old(resources).gathered > 0;
            &&& (delivering ==> {
                &&& final(resources).gathered == 0
                &&& final(resources).delivered == old(resources).delivered + old(
                    resources,
                ).gathered
                &&& final(events)@ == old(events)@.push(
                    GameEvent::Notify {
                        note: Notification::Delivered { amount: old(resources).gathered },
                    },
                ).push(GameEvent::PlaySfx { sfx: SfxKey::Collect })
            })
            &&& (!delivering ==> {
                &&& *final(resources) == *old(resources)
                &&& final(events)@ == old(events)@
            })
        }),
{
    let origin = Vec2i { x: 0, y: 0 };
    if dist_sq_u64(ship_pos, origin) < DELIVERY_DIST_SQ_MILLI && resources.gathered > 0 {
        let amount = resources.gathered;
        resources.deliver();
        events.push(GameEvent::Notify { note: Notification::Delivered { amount } });
        events.push(GameEvent::PlaySfx { sfx: SfxKey::Collect });
    }
}

/// A hidden asteroid within sensor range of the ship.
pub open spec fn newly_revealed(v: Option<Asteroid>, ship: Vec2i) -> bool {
    v matches Some(a) && !a.visible && dist_sq(ship, a.position) < REVEAL_DIST_SQ_MILLI
}

/// How many of the first `n` slots the sensor sweep reveals.
pub open spec fn revealed_count(a: Arena<Asteroid>, ship: Vec2i, n: int) -> int
    decreases n,
{
    if n <= 0 {
        0
    } else {
        revealed_count(a, ship, n - 1) + (if newly_revealed(a.spec_slot_value(n - 1), ship) {
            1int
        } else {
            0int
        })
    }
}

/// The count of revealed slots is never negative.
pub proof fn lemma_revealed_count_nonneg(a: Arena<Asteroid>, ship: Vec2i, n: int)
    ensures
        revealed_count(a, ship, n) >= 0,
    decreases n,
{
    if n > 0 {
        lemma_revealed_count_nonneg(a, ship, n - 1);
    }
}

/// The count over a longer prefix is at least the count over a shorter.
proof fn lemma_revealed_count_monotone(a: Arena<Asteroid>, ship: Vec2i, m: int, n: int)
    requires
        m <= n,
    ensures
        revealed_count(a, ship, m) <= revealed_count(a, ship, n),
    decreases n - m,
{
    if n > m {
        lemma_revealed_count_monotone(a, ship, m, n - 1);
    }
}

/// The slot index of the `j`-th revealed asteroid (ascending slot order,
/// counting from zero) among the first `n` slots.
pub open spec fn nth_revealed(a: Arena<Asteroid>, ship: Vec2i, n: int, j: int) -> int
    decreases n,
{
    if n <= 0 {
        -1
    } else if newly_revealed(a.spec_slot_value(n - 1), ship) && revealed_count(a, ship, n - 1)
        == j {
        n - 1
    } else {
        nth_revealed(a, ship, n - 1, j)
    }
}

/// A revealed slot is the `revealed_count`-before-it-th revealed slot.
proof fn lemma_nth_revealed_at(a: Arena<Asteroid>, ship: Vec2i, n: int, i: int)
    requires
        0 <= i < n,
        newly_revealed(a.spec_slot_value(i), ship),
    ensures
        nth_revealed(a, ship, n, revealed_count(a, ship, i)) == i,
    decreases n,
{
    if n - 1 == i {
    } else {
        if newly_revealed(a.spec_slot_value(n - 1), ship) && revealed_count(a, ship, n - 1)
            == revealed_count(a, ship, i) {
            lemma_revealed_count_monotone(a, ship, i + 1, n - 1);
            assert(revealed_count(a, ship, i + 1) == revealed_count(a, ship, i) + 1);
        }
        lemma_nth_revealed_at(a, ship, n - 1, i);
    }
}

/// The record the sensor sweep leaves for the `j`-th revealed asteroid:
/// the detection notice, then the waypoint request for its handle.
pub open spec fn reveal_recorded(
    before: Arena<Asteroid>,
    ship: Vec2i,
    n: int,
    ev: Seq<GameEvent>,
    base0: int,
    j: int,
) -> bool {
    let base = base0 + 2 * j;
    &&& ev[base] == (GameEvent::Notify { note: Notification::AsteroidDetected })
    &&& ev[base + 1] == (GameEvent::WaypointAdded {
        id: before.spec_id_at(nth_revealed(before, ship, n, j)),
    })
}

/// Reveal every hidden asteroid within sensor range of the mining ship:
/// it becomes visible, gets a waypoint, and the player is told. Each
/// revealed asteroid contributes, in slot order, exactly its detection
/// notice and waypoint request to the event stream.
pub fn reveal_nearby_asteroids(
    ship_pos: Vec2i,
    asteroids: &mut Arena<Asteroid>,
    events: &mut Vec<GameEvent>,
)
    requires
        ship_pos.in_bounds(),
        asteroids_wf(*old(asteroids)),
    ensures
        asteroids_wf(*final(asteroids)),
        final(asteroids).spec_len() == old(asteroids).spec_len(),
        // Every asteroid keeps its place and data; only visibility flips,
        // exactly for the hidden ones within range.
        forall|k: int|
            0 <= k < old(asteroids).spec_len() ==> final(asteroids).spec_slot_value(k) == (
            match old(asteroids).spec_slot_value(k) {
                Option::Some(a) => if !a.visible && dist_sq(ship_pos, a.position)
                    < REVEAL_DIST_SQ_MILLI {
                    Option::Some(Asteroid { visible: true, ..a })
                } else {
                    Option::Some(a)
                },
                Option::None => Option::<Asteroid>::None,
            }),
        // The same, handle for handle.
        forall|o: EntityId|
            (#[trigger] old(asteroids).spec_get(o)) matches Some(a) ==> final(asteroids).spec_get(o) == (if !a.visible && dist_sq(ship_pos, a.position)
                < REVEAL_DIST_SQ_MILLI {
                Option::Some(Asteroid { visible: true, ..a })
            } else {
                Option::Some(a)
            }),
        forall|o: EntityId|
            old(asteroids).spec_get(o) is None ==> (#[trigger] final(asteroids).spec_get(o))
                is None,
        // Exactly a detection notice and a waypoint request per revealed
        // asteroid, in slot order, and nothing else.
        final(events)@.len() == old(events)@.len() + 2 * revealed_count(
            *old(asteroids),
            ship_pos,
            old(asteroids).spec_len(),
        ),
        forall|j: int| 0 <= j < old(events)@.len() ==> final(events)@[j] == old(events)@[j],
        forall|j: int|
            0 <= j < revealed_count(*old(asteroids), ship_pos, old(asteroids).spec_len())
                ==> #[trigger] reveal_recorded(
                *old(asteroids),
                ship_pos,
                old(asteroids).spec_len(),
                final(events)@,
                old(events)@.len() as int,
                j,
            ),
{
    let n = asteroids.slot_count();
    let mut i: usize = 0;
    while i < n
        invariant
            i <= n,
            n == old(asteroids).spec_len(),
            asteroids.spec_len() == n,
            ship_pos.in_bounds(),
            asteroids_wf(*asteroids),
            forall|k: int|
                0 <= k < i ==> asteroids.spec_slot_value(k) == (match old(
                    asteroids,
                ).spec_slot_value(k) {
                    Option::Some(a) => if !a.visible && dist_sq(ship_pos, a.position)
                        < REVEAL_DIST_SQ_MILLI {
                        Option::Some(Asteroid { visible: true, ..a })
                    } else {
                        Option::Some(a)
                    },
                    Option::None => Option::<Asteroid>::None,
                }),
            forall|k: int|
                i <= k < n ==> asteroids.spec_slot_value(k) == old(asteroids).spec_slot_value(k),
            forall|k: int|
                0 <= k < n ==> asteroids.spec_id_at(k) == old(asteroids).spec_id_at(k),
            events@.len() == old(events)@.len() + 2 * revealed_count(
                *old(asteroids),
                ship_pos,
                i as int,
            ),
            forall|j: int| 0 <= j < old(events)@.len() ==> events@[j] == old(events)@[j],
            forall|j: int|
                0 <= j < revealed_count(*old(asteroids), ship_pos, i as int)
                    ==> #[trigger] reveal_recorded(
                    *old(asteroids),
                    ship_pos,
                    n as int,
                    events@,
                    old(events)@.len() as int,
                    j,
                ),
        decreases n - i,
    {
        proof {
            lemma_revealed_count_nonneg(*old(asteroids), ship_pos, i as int);
        }
        let ghost ev0 = events@;
        match asteroids.get_at(i) {
            Option::Some(p) => {
                if !p.1.visible && dist_sq_u64(ship_pos, p.1.position) < REVEAL_DIST_SQ_MILLI {
                    proof {
                        assert(asteroids.spec_slot_value(i as int) == old(
                            asteroids,
                        ).spec_slot_value(i as int));
                        assert(newly_revealed(old(asteroids).spec_slot_value(i as int), ship_pos));
                        lemma_nth_revealed_at(*old(asteroids), ship_pos, n as int, i as int);
                        assert(p.0 == old(asteroids).spec_id_at(i as int));
                    }
                    let mut a2 = p.1;
                    a2.visible = true;
                    asteroids.replace(p.0, a2);
                    events.push(GameEvent::Notify { note: Notification::AsteroidDetected });
                    events.push(GameEvent::WaypointAdded { id: p.0 });
                    proof {
                        assert forall|k: int|
                            0 <= k < asteroids.spec_len() && (#[trigger] asteroids
                                .spec_slot_value(k)) is Some implies asteroids.spec_slot_value(
                            k,
                        )->Some_0.wf() by {
                            if k != p.0.index {
                                assert(asteroids.spec_slot_value(k) == old(
                                    asteroids,
                                ).spec_slot_value(k) || 0 <= k < i);
                            } else {
                                assert(asteroids.spec_slot_value(k) == Option::Some(a2));
                            }
                        }
                        assert forall|j: int|
                            0 <= j < revealed_count(*old(asteroids), ship_pos, i as int + 1)
                                implies #[trigger] reveal_recorded(
                            *old(asteroids),
                            ship_pos,
                            n as int,
                            events@,
                            old(events)@.len() as int,
                            j,
                        ) by {
                            let base = old(events)@.len() + 2 * j;
                            if j < revealed_count(*old(asteroids), ship_pos, i as int) {
                                assert(reveal_recorded(
                                    *old(asteroids),
                                    ship_pos,
                                    n as int,
                                    ev0,
                                    old(events)@.len() as int,
                                    j,
                                ));
                                assert(base + 1 < ev0.len());
                                assert(events@[base] == ev0[base]);
                                assert(events@[base + 1] == ev0[base + 1]);
                            } else {
                                assert(j == revealed_count(*old(asteroids), ship_pos, i as int));
                                assert(nth_revealed(*old(asteroids), ship_pos, n as int, j) == i);
                                assert(base == ev0.len());
                            }
                        }
                    }
                } else {
                    proof {
                        assert(!newly_revealed(old(asteroids).spec_slot_value(i as int), ship_pos));
                    }
                }
            },
            Option::None => {
                proof {
                    assert(!newly_revealed(old(asteroids).spec_slot_value(i as int), ship_pos));
                }
            },
        }
        i = i + 1;
    }
    proof {
        // Bridge the slot-wise statement to handles: generations are
        // untouched, so a handle resolves exactly where it did.
        assert forall|o: EntityId|
            (#[trigger] old(asteroids).spec_get(o)) is Some implies asteroids.spec_get(o) == ({
            let a = old(asteroids).spec_get(o)->Some_0;
            if !a.visible && dist_sq(ship_pos, a.position) < REVEAL_DIST_SQ_MILLI {
                Option::Some(Asteroid { visible: true, ..a })
            } else {
                Option::Some(a)
            }
        }) by {
            crate::arena::lemma_get_slot(*old(asteroids), o);
            assert(asteroids.spec_id_at(o.index as int) == old(asteroids).spec_id_at(
                o.index as int,
            ));
            crate::arena::lemma_id_at_get(*asteroids, o.index as int);
        }
        assert forall|o: EntityId|
            old(asteroids).spec_get(o) is None implies (#[trigger] asteroids.spec_get(o))
            is None by {
            if asteroids.spec_get(o) is Some {
                crate::arena::lemma_get_slot(*asteroids, o);
                assert(asteroids.spec_id_at(o.index as int) == old(asteroids).spec_id_at(
                    o.index as int,
                ));
                crate::arena::lemma_id_at_get(*old(asteroids), o.index as int);
            }
        }
    }
}

/// The right-click scan: report the distance (in milli-units) from the
/// ship to the nearest asteroid, or nothing when none exist.
pub fn scan(
    ship_pos: Vec2i,
    asteroids: &Arena<Asteroid>,
    events: &mut Vec<GameEvent>,
) -> (found: bool)
    requires
        ship_pos.in_bounds(),
        asteroids_wf(*asteroids),
    ensures
        found == (exists|k: int|
            0 <= k < asteroids.spec_len() && (#[trigger] asteroids.spec_slot_value(k)) is Some),
        found ==> final(events)@.len() == old(events)@.len() + 1 && (final(events)@[old(
            events,
        )@.len() as int] matches GameEvent::Notify { note } && note matches
            Notification::NearestAsteroid { dist_milli } && dist_milli * dist_milli <= nearest_dist_sq(
            *asteroids,
            ship_pos,
            asteroids.spec_len(),
        ) < (dist_milli + 1) * (dist_milli + 1)),
        !found ==> final(events)@ == old(events)@,
        forall|j: int| 0 <= j < old(events)@.len() ==> final(events)@[j] == old(events)@[j],
{
    let n = asteroids.slot_count();
    let mut best: Option<u64> = Option::None;
    let mut i: usize = 0;
    while i < n
        invariant
            i <= n,
            n == asteroids.spec_len(),
            ship_pos.in_bounds(),
            asteroids_wf(*asteroids),
            best is Some == (exists|k: int|
                0 <= k < i && (#[trigger] asteroids.spec_slot_value(k)) is Some),
            best matches Some(b) ==> b == nearest_dist_sq(*asteroids, ship_pos, i as int),
            best is None ==> nearest_dist_sq(*asteroids, ship_pos, i as int) == u64::MAX,
        decreases n - i,
    {
        match asteroids.get_at(i) {
            Option::Some(p) => {
                let d = dist_sq_u64(ship_pos, p.1.position);
                match best {
                    Option::Some(b) => {
                        if d < b {
                            best = Option::Some(d);
                        }
                    },
                    Option::None => {
                        best = Option::Some(d);
                    },
                }
            },
            Option::None => {},
        }
        proof {
            lemma_nearest_dist_sq_step(*asteroids, ship_pos, i as int);
        }
        i = i + 1;
    }
    match best {
        Option::Some(b) => {
            let dist_milli = isqrt(b);
            events.push(
                GameEvent::Notify { note: Notification::NearestAsteroid { dist_milli } },
            );
            true
        },
        Option::None => false,
    }
}

/// The smallest squared distance from `pos` to an asteroid among the
/// first `n` slots (or an unreachable bound when there is none).
pub open spec fn nearest_dist_sq(a: Arena<Asteroid>, pos: Vec2i, n: int) -> int
    decreases n,
{
    if n <= 0 {
        u64::MAX as int
    } else {
        let rest = nearest_dist_sq(a, pos, n - 1);
        match a.spec_slot_value(n - 1) {
            Option::Some(ast) => if dist_sq(pos, ast.position) < rest {
                dist_sq(pos, ast.position)
            } else {
                rest
            },
            Option::None => rest,
        }
    }
}

/// One unfolding step of [`nearest_dist_sq`], for the scan loop.
proof fn lemma_nearest_dist_sq_step(a: Arena<Asteroid>, pos: Vec2i, i: int)
    requires
        i >= 0,
    ensures
        nearest_dist_sq(a, pos, i + 1) == (match a.spec_slot_value(i) {
            Option::Some(ast) => if dist_sq(pos, ast.position) < nearest_dist_sq(a, pos, i) {
                dist_sq(pos, ast.position)
            } else {
                nearest_dist_sq(a, pos, i)
            },
            Option::None => nearest_dist_sq(a, pos, i),
        }),
{
}

} // verus!
