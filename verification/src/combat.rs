//! The combat ship's aim and fire loop.
//!
//! Each frame the controller records the aim point and the shoot input,
//! rotates the turret the shorter way toward the aim point, and fires when
//! the input is held and the cooldown has elapsed; firing restarts the
//! cooldown. A bullet meeting an enemy removes both.

use crate::arena::{Arena, EntityId};
use crate::enemy::{enemies_wf, Enemy};
use crate::events::{GameEvent, SfxKey};
use crate::gameplay::MAX_FRAME_DELTA_MS;
use crate::geom::{cross_z, rotation_sign, Vec2i};
use crate::timer::{Timer, TimerMode};
use crate::upgrades::Upgrades;
use vstd::prelude::*;

verus! {

/// The combat ship's cooldown at no upgrades.
pub const BASE_ATTACK_TIME_MS: u64 = 1_000;

/// Turret angular speed, in tenths of a radian per second, kept for the
/// presentation layer that animates the rotation.
pub const BASE_ROTATION_SPEED_TENTHS: u32 = 60;

pub struct CombatController {
    pub attack_time_ms: u64,
    pub attack_timer: Timer,
    pub rotation_speed_tenths: u32,
    pub mouse_world_pos: Vec2i,
    pub shoot: bool,
}

impl CombatController {
    pub open spec fn wf(self) -> bool {
        &&& self.attack_timer.wf()
        &&& self.attack_timer.spec_mode() == TimerMode::Once
        &&& self.attack_timer.spec_duration() <= 1_000_000_000
        &&& 0 < self.attack_time_ms <= 1_000_000_000
        &&& self.mouse_world_pos.in_bounds()
    }

    pub fn new(attack_time_ms: u64, rotation_speed_tenths: u32) -> (c: CombatController)
        requires
            0 < attack_time_ms <= 1_000_000_000,
        ensures
            c.wf(),
            c.attack_time_ms == attack_time_ms,
            c.attack_timer.spec_duration() == attack_time_ms,
            c.attack_timer.spec_elapsed() == 0,
            c.rotation_speed_tenths == rotation_speed_tenths,
            !c.shoot,
            c.mouse_world_pos == (Vec2i { x: 0, y: 0 }),
    {
        CombatController {
            attack_time_ms,
            attack_timer: Timer::from_ms(attack_time_ms, TimerMode::Once),
            rotation_speed_tenths,
            mouse_world_pos: Vec2i { x: 0, y: 0 },
            shoot: false,
        }
    }

    /// Advance the attack cooldown by the frame delta.
    pub fn tick_attack_timer(&mut self, delta_ms: u64)
        requires
            old(self).wf(),
            delta_ms <= MAX_FRAME_DELTA_MS,
        ensures
            final(self).wf(),
            final(self).attack_time_ms == old(self).attack_time_ms,
            final(self).rotation_speed_tenths == old(self).rotation_speed_tenths,
            final(self).mouse_world_pos == old(self).mouse_world_pos,
            final(self).shoot == old(self).shoot,
            final(self).attack_timer.spec_duration() == old(self).attack_timer.spec_duration(),
            final(self).attack_timer.spec_finished() == (old(self).attack_timer.spec_elapsed()
                + delta_ms >= old(self).attack_timer.spec_duration()),
    {
        self.attack_timer.tick(delta_ms);
    }

    /// Record this frame's aim point and shoot input.
    pub fn record_combat_controller(&mut self, mouse_world_pos: Vec2i, shoot_pressed: bool)
        requires
            old(self).wf(),
            mouse_world_pos.in_bounds(),
        ensures
            final(self).wf(),
            final(self).mouse_world_pos == mouse_world_pos,
            final(self).shoot == shoot_pressed,
            final(self).attack_time_ms == old(self).attack_time_ms,
            final(self).rotation_speed_tenths == old(self).rotation_speed_tenths,
            final(self).attack_timer == old(self).attack_timer,
    {
        self.mouse_world_pos = mouse_world_pos;
        self.shoot = shoot_pressed;
    }

    /// Which way the turret should turn toward the aim point this frame:
    /// the shorter rotational direction, whose sign is the sign of the
    /// cross product's z-component of the current heading against the
    /// direction from the ship to the aim point.
    pub fn rotate_towards_mouse(&self, ship_pos: Vec2i, current_dir: Vec2i) -> (s: i64)
        requires
            self.wf(),
            ship_pos.in_bounds(),
            current_dir.in_bounds(),
        ensures
            s == 1 || s == -1,
            (s == 1) == (cross_z(
                current_dir,
                Vec2i {
                    x: (self.mouse_world_pos.x - ship_pos.x) as i64,
                    y: (self.mouse_world_pos.y - ship_pos.y) as i64,
                },
            ) > 0),
    {
        let target = Vec2i {
            x: self.mouse_world_pos.x - ship_pos.x,
            y: self.mouse_world_pos.y - ship_pos.y,
        };
        rotation_sign(current_dir, target)
    }

    /// Fire if the shoot input is held and the cooldown has elapsed: emit
    /// the shot and its cue from the turret's position along its heading,
    /// and restart the cooldown at the current attack time. One shot per
    /// press of the elapsed cooldown; holding does not auto-repeat faster.
    pub fn shoot(
        &mut self,
        turret_pos: Vec2i,
        turret_dir: Vec2i,
        events: &mut Vec<GameEvent>,
    ) -> (fired: bool)
        requires
            old(self).wf(),
        ensures
            final(self).wf(),
            fired == (old(self).shoot && old(self).attack_timer.spec_finished()),
            final(self).shoot == old(self).shoot,
            final(self).mouse_world_pos == old(self).mouse_world_pos,
            final(self).attack_time_ms == old(self).attack_time_ms,
            final(self).rotation_speed_tenths == old(self).rotation_speed_tenths,
            fired ==> {
                &&& final(self).attack_timer.spec_duration() == old(self).attack_time_ms
                &&& final(self).attack_timer.spec_elapsed() == 0
                &&& !final(self).attack_timer.spec_finished()
                &&& final(events)@ == old(events)@.push(
                    GameEvent::Shoot { position: turret_pos, direction: turret_dir },
                ).push(GameEvent::PlaySfx { sfx: SfxKey::Shoot })
            },
            !fired ==> {
                &&& final(self).attack_timer == old(self).attack_timer
                &&& final(events)@ == old(events)@
            },
    {
        if self.shoot && self.attack_timer.finished() {
            self.attack_timer.set_duration_ms(self.attack_time_ms);
            self.attack_timer.reset();
            events.push(GameEvent::Shoot { position: turret_pos, direction: turret_dir });
            events.push(GameEvent::PlaySfx { sfx: SfxKey::Shoot });
            true
        } else {
            false
        }
    }

    /// Refresh the cooldown length from the upgrade ledger; it takes
    /// effect when the next shot restarts the cooldown.
    pub fn update_attack_time(&mut self, upgrades: &Upgrades)
        requires
            old(self).wf(),
        ensures
            final(self).wf(),
            final(self).attack_time_ms == 1000int / (1 + upgrades.fire_rate) + (
            if upgrades.fire_rate > 0 {
                200int
            } else {
                0
            }),
            final(self).attack_timer == old(self).attack_timer,
            final(self).shoot == old(self).shoot,
            final(self).mouse_world_pos == old(self).mouse_world_pos,
            final(self).rotation_speed_tenths == old(self).rotation_speed_tenths,
    {
        self.attack_time_ms = upgrades.attack_time_ms();
    }
}

/// A bullet collided with an entity: if the handle still resolves to an
/// enemy, the enemy leaves the simulation (the bullet's own despawn is the
/// engine layer's side of the contact).
pub fn handle_enemy_bullet_collision(
    enemies: &mut Arena<Enemy>,
    hit: EntityId,
    events: &mut Vec<GameEvent>,
) -> (removed: bool)
    requires
        enemies_wf(*old(enemies)),
    ensures
        enemies_wf(*final(enemies)),
        removed == old(enemies).contains(hit),
        final(enemies).spec_get(hit) is None,
        forall|o: EntityId| o != hit ==> final(enemies).spec_get(o) == old(enemies).spec_get(o),
        final(enemies).spec_len() == old(enemies).spec_len(),
        removed ==> final(events)@ == old(events)@.push(GameEvent::EnemyDespawned { id: hit }),
        !removed ==> final(events)@ == old(events)@,
{
    match enemies.remove(hit) {
        Option::Some(_) => {
            events.push(GameEvent::EnemyDespawned { id: hit });
            proof {
                assert forall|k: int|
                    0 <= k < enemies.spec_len() && (#[trigger] enemies.spec_slot_value(k))
                        is Some implies enemies.spec_slot_value(k)->Some_0.wf() by {
                    if k != hit.index {
                        assert(enemies.spec_slot_value(k) == old(enemies).spec_slot_value(k));
                        crate::arena::lemma_slot_in_range(*old(enemies), k);
                    }
                }
            }
            true
        },
        Option::None => false,
    }
}

} // verus!
