//! The stat model: a combatant's mutable numeric state and its mutation
//! rules. Health is clamped to `[0, max_health]` after every mutation, and
//! block is fully consumed the instant it is tested against an incoming
//! attack, whether or not it was fully used.

use vstd::prelude::*;

verus! {

/// Mathematical model of a combatant's numeric state.
pub struct StatsView {
    pub max_health: int,
    pub health: int,
    pub block: int,
}

impl StatsView {
    /// Invariant of the stat model: health lies between zero and the
    /// maximum, and block is never negative.
    pub open spec fn wf(self) -> bool {
        &&& 0 <= self.health <= self.max_health
        &&& 0 <= self.block
    }
}

/// What an incoming attack of `dmg` damage does: the current block absorbs
/// up to `dmg` points and is discarded entirely, and the remaining damage is
/// taken out of health, floored at zero.
pub open spec fn spec_receive_attack(s: StatsView, dmg: int) -> StatsView {
    StatsView {
        max_health: s.max_health,
        health: vstd::math::max(0, s.health - vstd::math::max(0, dmg - s.block)),
        block: 0,
    }
}

/// What anticipatory blocking does: the block value is overwritten, never
/// accumulated with any prior block.
pub open spec fn spec_set_block(s: StatsView, amount: int) -> StatsView {
    StatsView { max_health: s.max_health, health: s.health, block: amount }
}

/// What healing does: health rises by `amount`, capped at the maximum.
pub open spec fn spec_heal(s: StatsView, amount: int) -> StatsView {
    StatsView {
        max_health: s.max_health,
        health: vstd::math::min(s.max_health, s.health + amount),
        block: s.block,
    }
}

/// Setting block twice keeps only the second value: `set_block` overwrites
/// rather than accumulates, so the first value leaves no trace.
pub proof fn lemma_set_block_overwrites(s: StatsView, b1: int, b2: int)
    ensures
        spec_set_block(spec_set_block(s, b1), b2) == spec_set_block(s, b2),
        spec_set_block(spec_set_block(s, b1), b2).block == b2,
{
}

/// A combatant's numeric state.
pub struct Stats {
    pub max_health: i32,
    pub health: i32,
    pub block: i32,
}

impl View for Stats {
    type V = StatsView;

    open spec fn view(&self) -> StatsView {
        StatsView {
            max_health: self.max_health as int,
            health: self.health as int,
            block: self.block as int,
        }
    }
}

impl Stats {
    /// Take `dmg` points of attack damage. The current block absorbs the
    /// first `block` points and is spent entirely even if it was not fully
    /// used; the rest is taken out of health, floored at zero.
    pub fn receive_attack(&mut self, dmg: i32)
        requires
            old(self)@.wf(),
            dmg >= 0,
        ensures
            final(self)@ == spec_receive_attack(old(self)@, dmg as int),
            final(self)@.wf(),
            final(self).block == 0,
            final(self).health as int == vstd::math::max(
                0,
                old(self).health - vstd::math::max(0, dmg - old(self).block),
            ),
            final(self).max_health == old(self).max_health,
    {
        let mut apply_dmg = dmg;
        if self.block > 0 {
            apply_dmg = apply_dmg - self.block;
            self.block = 0;
        }
        if apply_dmg < 0 {
            apply_dmg = 0;
        }
        if apply_dmg >= self.health {
            self.health = 0;
        } else {
            self.health = self.health - apply_dmg;
        }
    }

    /// Overwrite the block value with `amount`; any prior block is lost.
    pub fn set_block(&mut self, amount: i32)
        requires
            old(self)@.wf(),
            amount >= 0,
        ensures
            final(self)@ == spec_set_block(old(self)@, amount as int),
            final(self)@.wf(),
            final(self).block == amount,
            final(self).health == old(self).health,
            final(self).max_health == old(self).max_health,
    {
        self.block = amount;
    }

    /// Raise health by `amount`, capped at `max_health`.
    pub fn heal(&mut self, amount: i32)
        requires
            old(self)@.wf(),
            amount >= 0,
        ensures
            final(self)@ == spec_heal(old(self)@, amount as int),
            final(self)@.wf(),
            final(self).health as int == vstd::math::min(
                old(self).max_health as int,
                old(self).health + amount,
            ),
            final(self).health <= final(self).max_health,
            final(self).block == old(self).block,
            final(self).max_health == old(self).max_health,
    {
        if amount >= self.max_health - self.health {
            self.health = self.max_health;
        } else {
            self.health = self.health + amount;
        }
    }
}

} // verus!
