//! A combatant: a name, a status icon reflecting the last action performed
//! (or defeat), and the numeric stats.

use vstd::prelude::*;
use crate::stats::Stats;
use crate::stats::StatsView;

verus! {

/// The icon every combatant starts with, also shown after an `Invalid`
/// action ("does nothing").
pub open spec fn neutral_icon() -> Seq<char> {
    "ヽ(゜～゜o)ノ"@
}

/// The icon shown after performing an attack.
pub open spec fn attack_icon() -> Seq<char> {
    "(ง ͠° ͟ل͜ ͡°)ง"@
}

/// The icon shown after blocking.
pub open spec fn block_icon() -> Seq<char> {
    "ᕙ(⇀ ‸ ↼‶)ᕗ"@
}

/// The icon shown after healing.
pub open spec fn heal_icon() -> Seq<char> {
    "(๑❛ ڡ ❛๑)  "@
}

/// The icon shown once a combatant is defeated.
pub open spec fn defeat_icon() -> Seq<char> {
    "(︶︹︺)    "@
}

pub fn neutral_icon_str() -> (r: &'static str)
    ensures
        r@ == neutral_icon(),
{
    "ヽ(゜～゜o)ノ"
}

pub fn attack_icon_str() -> (r: &'static str)
    ensures
        r@ == attack_icon(),
{
    "(ง ͠° ͟ل͜ ͡°)ง"
}

pub fn block_icon_str() -> (r: &'static str)
    ensures
        r@ == block_icon(),
{
    "ᕙ(⇀ ‸ ↼‶)ᕗ"
}

pub fn heal_icon_str() -> (r: &'static str)
    ensures
        r@ == heal_icon(),
{
    "(๑❛ ڡ ❛๑)  "
}

pub fn defeat_icon_str() -> (r: &'static str)
    ensures
        r@ == defeat_icon(),
{
    "(︶︹︺)    "
}

/// Mathematical model of a combatant.
pub struct EntityView {
    pub name: Seq<char>,
    pub icon: Seq<char>,
    pub stats: StatsView,
}

impl EntityView {
    pub open spec fn wf(self) -> bool {
        self.stats.wf()
    }
}

/// A combatant.
pub struct Entity {
    pub name: String,
    pub icon: String,
    pub stats: Stats,
}

impl View for Entity {
    type V = EntityView;

    open spec fn view(&self) -> EntityView {
        EntityView { name: self.name@, icon: self.icon@, stats: self.stats@ }
    }
}

/// The stats every combatant starts a session with.
pub open spec fn spec_fresh_stats() -> StatsView {
    StatsView { max_health: 20, health: 20, block: 0 }
}

/// A fresh combatant: full health, no block, the neutral icon.
pub fn new_entity(name: String) -> (e: Entity)
    ensures
        e@.name == name@,
        e@.icon == neutral_icon(),
        e@.stats == spec_fresh_stats(),
        e@.wf(),
{
    Entity {
        name,
        icon: neutral_icon_str().to_owned(),
        stats: Stats { max_health: 20, health: 20, block: 0 },
    }
}

} // verus!
