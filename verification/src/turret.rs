//! Autonomous turrets mounted on buildings.
//!
//! A turret ticks its fire-rate timer every frame and, on completion, fires
//! at the first enemy its sense volume reports, with no further
//! prioritization.

use crate::arena::{Arena, EntityId};
use crate::enemy::{enemies_wf, Enemy};
use crate::events::GameEvent;
use crate::geom::Vec2i;
use crate::timer::{Timer, TimerMode};
use vstd::prelude::*;

verus! {

/// Fire interval of a standard turret.
pub const TURRET_INTERVAL_MS: u64 = 1_200;

/// Fire interval of a sniper turret.
pub const SNIPER_INTERVAL_MS: u64 = 2_500;

#[derive(Clone, Copy, Debug)]
pub struct Turret {
    pub shoot_timer: Timer,
}

impl Turret {
    pub open spec fn wf(self) -> bool {
        self.shoot_timer.wf() && self.shoot_timer.spec_mode() == TimerMode::Repeating
            && self.shoot_timer.spec_duration() <= 1_000_000_000
    }

    pub fn new(shoot_interval_ms: u64) -> (t: Turret)
        requires
            0 < shoot_interval_ms <= 1_000_000_000,
        ensures
            t.wf(),
            t.shoot_timer.spec_duration() == shoot_interval_ms,
            t.shoot_timer.spec_elapsed() == 0,
            !t.shoot_timer.spec_just_finished(),
    {
        Turret { shoot_timer: Timer::from_ms(shoot_interval_ms, TimerMode::Repeating) }
    }

    /// Advance the fire-rate timer by the frame delta.
    pub fn tick_timer(&mut self, delta_ms: u64)
        requires
            old(self).wf(),
            delta_ms <= crate::gameplay::MAX_FRAME_DELTA_MS,
        ensures
            final(self).wf(),
            final(self).shoot_timer.spec_duration() == old(self).shoot_timer.spec_duration(),
            final(self).shoot_timer.spec_just_finished() == (old(self).shoot_timer.spec_elapsed()
                + delta_ms >= old(self).shoot_timer.spec_duration()),
    {
        self.shoot_timer.tick(delta_ms);
    }
}

/// The turret's firing decision for this frame. It fires exactly when its
/// timer completed this tick and the sense volume reports at least one
/// overlapping entity whose handle still resolves to an enemy; the shot
/// goes from the turret's position toward that first enemy. An overlap
/// whose entity is already gone yields no shot this frame.
pub fn turret_fire(
    turret: &Turret,
    position: Vec2i,
    overlapping: &Vec<EntityId>,
    enemies: &Arena<Enemy>,
) -> (e: Option<GameEvent>)
    requires
        position.in_bounds(),
        enemies_wf(*enemies),
    ensures
        e == (if turret.shoot_timer.spec_just_finished() && overlapping@.len() > 0
            && enemies.spec_get(overlapping@[0]) is Some {
            Option::Some(
                GameEvent::Shoot {
                    position,
                    direction: (Vec2i {
                        x: (enemies.spec_get(overlapping@[0])->Some_0.position.x - position.x) as i64,
                        y: (enemies.spec_get(overlapping@[0])->Some_0.position.y - position.y) as i64,
                    }),
                },
            )
        } else {
            Option::<GameEvent>::None
        }),
{
    if turret.shoot_timer.just_finished() && overlapping.len() > 0 {
        let first: EntityId = overlapping[0];
        match enemies.get(first) {
            Option::Some(enemy) => {
                proof {
                    crate::arena::lemma_get_slot(*enemies, first);
                }
                let direction = Vec2i {
                    x: enemy.position.x - position.x,
                    y: enemy.position.y - position.y,
                };
                Option::Some(GameEvent::Shoot { position, direction })
            },
            Option::None => Option::None,
        }
    } else {
        Option::None
    }
}

} // verus!
