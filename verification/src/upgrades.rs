//! The upgrade ledger: how many upgrade structures of each kind stand, and
//! the derived multipliers the mining and combat controllers apply.
//!
//! The counts are mutated explicitly where upgrade structures are placed
//! and destroyed, so nothing changes them behind the simulation's back.

use vstd::prelude::*;

verus! {

#[derive(Clone, Copy, PartialEq, Eq, Structural, Debug)]
pub enum UpgradeType {
    MiningSpeed,
    FireRate,
}

/// Counts of standing upgrade structures.
#[derive(Clone, Copy, PartialEq, Eq, Structural, Debug)]
pub struct Upgrades {
    pub mining_speed: u8,
    pub fire_rate: u8,
}

impl Upgrades {
    pub fn new() -> (u: Upgrades)
        ensures
            u.mining_speed == 0,
            u.fire_rate == 0,
    {
        Upgrades { mining_speed: 0, fire_rate: 0 }
    }

    /// An upgrade structure of the given kind was placed; its count grows
    /// by one (saturating at the ledger's width).
    pub fn register(&mut self, kind: UpgradeType)
        ensures
            kind == UpgradeType::MiningSpeed ==> {
                &&& final(self).mining_speed == (if old(self).mining_speed < u8::MAX {
                    old(self).mining_speed + 1
                } else {
                    u8::MAX as int
                })
                &&& final(self).fire_rate == old(self).fire_rate
            },
            kind == UpgradeType::FireRate ==> {
                &&& final(self).fire_rate == (if old(self).fire_rate < u8::MAX {
                    old(self).fire_rate + 1
                } else {
                    u8::MAX as int
                })
                &&& final(self).mining_speed == old(self).mining_speed
            },
    {
        match kind {
            UpgradeType::MiningSpeed => {
                if self.mining_speed < u8::MAX {
                    self.mining_speed = self.mining_speed + 1;
                }
            },
            UpgradeType::FireRate => {
                if self.fire_rate < u8::MAX {
                    self.fire_rate = self.fire_rate + 1;
                }
            },
        }
    }

    /// An upgrade structure of the given kind was destroyed; its count
    /// drops by one (and cannot go below zero).
    pub fn unregister(&mut self, kind: UpgradeType)
        ensures
            kind == UpgradeType::MiningSpeed ==> {
                &&& final(self).mining_speed == (if old(self).mining_speed > 0 {
                    old(self).mining_speed - 1
                } else {
                    0
                })
                &&& final(self).fire_rate == old(self).fire_rate
            },
            kind == UpgradeType::FireRate ==> {
                &&& final(self).fire_rate == (if old(self).fire_rate > 0 {
                    old(self).fire_rate - 1
                } else {
                    0
                })
                &&& final(self).mining_speed == old(self).mining_speed
            },
    {
        match kind {
            UpgradeType::MiningSpeed => {
                if self.mining_speed > 0 {
                    self.mining_speed = self.mining_speed - 1;
                }
            },
            UpgradeType::FireRate => {
                if self.fire_rate > 0 {
                    self.fire_rate = self.fire_rate - 1;
                }
            },
        }
    }

    /// Mining runs at `1 + 0.5 per upgrade` speed, here in tenths.
    pub fn mining_speed_multiplier_tenths(&self) -> (m: u32)
        ensures
            m == 10 + 5 * self.mining_speed,
    {
        10 + 5 * (self.mining_speed as u32)
    }

    /// The combat ship's cooldown: a second divided by one plus the number
    /// of fire-rate upgrades, plus a flat penalty once any upgrade is owned.
    pub fn attack_time_ms(&self) -> (t: u64)
        ensures
            t == 1000int / (1 + self.fire_rate) + (if self.fire_rate > 0 {
                200int
            } else {
                0
            }),
            t > 0,
    {
        let divisor: u64 = 1 + self.fire_rate as u64;
        proof {
            vstd::arithmetic::div_mod::lemma_div_is_ordered_by_denominator(1000, divisor as int, 256);
        }
        let base: u64 = 1000 / divisor;
        if self.fire_rate > 0 {
            base + 200
        } else {
            base
        }
    }
}

} // verus!
