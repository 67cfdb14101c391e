//! The resource ledger: resources gathered by mining versus resources
//! delivered to the base, the only spendable currency.

use vstd::prelude::*;

verus! {

/// Resources the player starts a session with, already delivered.
pub const STARTING_DELIVERED: u32 = 10;

/// Counts of gathered (held on the mining ship) and delivered (spendable)
/// resources. Delivery moves all of `gathered` into `delivered` atomically.
pub struct Resources {
    pub gathered: u32,
    pub delivered: u32,
}

impl Resources {
    /// A fresh ledger: nothing gathered, the starting stock delivered.
    pub fn new() -> (r: Resources)
        ensures
            r.gathered == 0,
            r.delivered == STARTING_DELIVERED,
    {
        Resources { gathered: 0, delivered: STARTING_DELIVERED }
    }

    /// Restore the session-start state.
    pub fn reset(&mut self)
        ensures
            final(self).gathered == 0,
            final(self).delivered == STARTING_DELIVERED,
    {
        self.gathered = 0;
        self.delivered = STARTING_DELIVERED;
    }

    /// A completed mining tick adds to the gathered count; nothing else
    /// changes. `gathered` never decreases here.
    pub fn mine_tick(&mut self, amount: u32)
        requires
            old(self).gathered + amount <= u32::MAX,
        ensures
            final(self).gathered == old(self).gathered + amount,
            final(self).delivered == old(self).delivered,
    {
        self.gathered = self.gathered + amount;
    }

    /// Move everything gathered into the delivered stock, atomically.
    pub fn deliver(&mut self)
        requires
            old(self).delivered + old(self).gathered <= u32::MAX,
        ensures
            final(self).gathered == 0,
            final(self).delivered == old(self).delivered + old(self).gathered,
    {
        self.delivered = self.delivered + self.gathered;
        self.gathered = 0;
    }

    /// Spend delivered resources. Succeeds and debits exactly `cost` iff
    /// enough is delivered; otherwise nothing changes (a soft failure the
    /// caller reports to the player).
    pub fn spend(&mut self, cost: u32) -> (ok: bool)
        ensures
            ok == (old(self).delivered >= cost),
            ok ==> final(self).delivered == old(self).delivered - cost,
            !ok ==> final(self).delivered == old(self).delivered,
            final(self).gathered == old(self).gathered,
    {
        if self.delivered >= cost {
            self.delivered = self.delivered - cost;
            true
        } else {
            false
        }
    }

    /// Return resources from a cancelled pending build.
    pub fn refund(&mut self, amount: u32)
        requires
            old(self).delivered + amount <= u32::MAX,
        ensures
            final(self).delivered == old(self).delivered + amount,
            final(self).gathered == old(self).gathered,
    {
        self.delivered = self.delivered + amount;
    }
}

/// The gathered count after a sequence of mining ticks of the given
/// amounts.
pub open spec fn spec_mine_seq(gathered: int, amounts: Seq<int>) -> int
    decreases amounts.len(),
{
    if amounts.len() == 0 {
        gathered
    } else {
        spec_mine_seq(gathered + amounts[0], amounts.drop_first())
    }
}

/// Law: across any sequence of mining ticks the gathered count never
/// decreases. Only [`Resources::deliver`] takes gathered resources away,
/// and its contract states that it zeroes `gathered` while adding exactly
/// the prior value to `delivered`.
pub proof fn lemma_gathered_never_decreases(gathered: int, amounts: Seq<int>)
    requires
        forall|i: int| 0 <= i < amounts.len() ==> amounts[i] >= 0,
    ensures
        spec_mine_seq(gathered, amounts) >= gathered,
    decreases amounts.len(),
{
    if amounts.len() > 0 {
        lemma_gathered_never_decreases(gathered + amounts[0], amounts.drop_first());
    }
}

/// Law: a spend is atomic. Whatever the outcome, either `delivered` drops
/// by exactly the cost and the action proceeds, or the ledger is exactly
/// what it was and the action is rejected; `gathered` is never involved.
/// This restates what [`Resources::spend`] ensures, over its before and
/// after values.
pub proof fn lemma_spend_atomic(before: Resources, after: Resources, cost: u32, ok: bool)
    requires
        ok == (before.delivered >= cost),
        ok ==> after.delivered == before.delivered - cost,
        !ok ==> after.delivered == before.delivered,
        after.gathered == before.gathered,
    ensures
        ok ==> after.delivered + cost == before.delivered,
        !ok ==> after == (Resources { gathered: before.gathered, delivered: before.delivered }),
{
}

} // verus!
