//! The action resolver: the closed set of actions a combatant can take in a
//! round, the mapping from a numeric selector to an action, and what
//! resolving an action with a given roll does to the two combatants.

use vstd::prelude::*;
use vstd::string::StringExecFns;
use crate::entity::attack_icon;
use crate::entity::attack_icon_str;
use crate::entity::block_icon;
use crate::entity::block_icon_str;
use crate::entity::heal_icon;
use crate::entity::heal_icon_str;
use crate::entity::neutral_icon;
use crate::entity::neutral_icon_str;
use crate::entity::Entity;
use crate::entity::EntityView;
use crate::stats::spec_heal;
use crate::stats::spec_receive_attack;
use crate::stats::spec_set_block;
use crate::text::i32_dec;
use crate::text::spec_dec;
use crate::text::spec_trim;
use crate::text::trim_spaces;

verus! {

/// The behaviour a combatant selects for a round. `Invalid` stands for an
/// unrecognized numeric selector; the normal input path never produces it,
/// since reply parsing filters selectors down to 1..=3 first.
#[derive(Clone, Copy, PartialEq, Eq, Structural, Debug)]
pub enum Action {
    Attack,
    Block,
    Heal,
    Invalid,
}

/// The action a numeric selector stands for: 1 attacks, 2 blocks, 3 heals,
/// anything else is invalid.
pub open spec fn spec_action_of(code: int) -> Action {
    if code == 1 {
        Action::Attack
    } else if code == 2 {
        Action::Block
    } else if code == 3 {
        Action::Heal
    } else {
        Action::Invalid
    }
}

/// The narrative line sent for one resolved action, with both names trimmed
/// of surrounding spaces.
pub open spec fn spec_narrative(
    a: Action,
    roll: int,
    actor_name: Seq<char>,
    target_name: Seq<char>,
) -> Seq<char> {
    match a {
        Action::Attack => spec_trim(actor_name) + " hit "@ + spec_trim(target_name) + " for "@
            + spec_dec(roll) + " damage..."@,
        Action::Block => spec_trim(actor_name) + " is blocking from "@ + spec_dec(roll)
            + " damage..."@,
        Action::Heal => spec_trim(actor_name) + " is healing for "@ + spec_dec(roll)
            + " health..."@,
        Action::Invalid => spec_trim(actor_name) + " does nothing... For some reason?"@,
    }
}

/// What resolving `a` with magnitude `roll` does to the actor and the
/// target: an attack deals `roll` damage to the target, a block overwrites
/// the actor's block with `roll`, a heal raises the actor's health by `roll`
/// capped at its maximum, and an invalid action changes no stats. The
/// actor's icon is set to the pose of the action performed.
pub open spec fn spec_perform(
    a: Action,
    roll: int,
    actor: EntityView,
    target: EntityView,
) -> (EntityView, EntityView) {
    match a {
        Action::Attack => (
            EntityView { name: actor.name, icon: attack_icon(), stats: actor.stats },
            EntityView {
                name: target.name,
                icon: target.icon,
                stats: spec_receive_attack(target.stats, roll),
            },
        ),
        Action::Block => (
            EntityView {
                name: actor.name,
                icon: block_icon(),
                stats: spec_set_block(actor.stats, roll),
            },
            target,
        ),
        Action::Heal => (
            EntityView {
                name: actor.name,
                icon: heal_icon(),
                stats: spec_heal(actor.stats, roll),
            },
            target,
        ),
        Action::Invalid => (
            EntityView { name: actor.name, icon: neutral_icon(), stats: actor.stats },
            target,
        ),
    }
}

impl Action {
    /// Map a numeric selector to its action.
    pub fn from(code: u8) -> (a: Action)
        ensures
            a == spec_action_of(code as int),
    {
        match code {
            1 => Action::Attack,
            2 => Action::Block,
            3 => Action::Heal,
            _ => Action::Invalid,
        }
    }

    /// Resolve this action with magnitude `roll`: apply its stat mutation to
    /// the actor or the target, set the actor's icon to the matching pose,
    /// and return the narrative line describing what happened.
    pub fn perform(&self, roll: i32, actor: &mut Entity, target: &mut Entity) -> (narrative:
        String)
        requires
            1 <= roll <= 6,
            old(actor)@.wf(),
            old(target)@.wf(),
        ensures
            final(actor)@ == spec_perform(*self, roll as int, old(actor)@, old(target)@).0,
            final(target)@ == spec_perform(*self, roll as int, old(actor)@, old(target)@).1,
            final(actor)@.wf(),
            final(target)@.wf(),
            narrative@ == spec_narrative(*self, roll as int, old(actor)@.name, old(target)@.name),
    {
        match self {
            Action::Attack => {
                let mut text = trim_spaces(actor.name.as_str());
                text.append(" hit ");
                let target_name = trim_spaces(target.name.as_str());
                text.append(target_name.as_str());
                text.append(" for ");
                let amount = i32_dec(roll);
                text.append(amount.as_str());
                text.append(" damage...");
                target.stats.receive_attack(roll);
                actor.icon = attack_icon_str().to_owned();
                proof {
                    assert(text@ =~= spec_narrative(
                        *self,
                        roll as int,
                        old(actor)@.name,
                        old(target)@.name,
                    ));
                }
                text
            },
            Action::Block => {
                let mut text = trim_spaces(actor.name.as_str());
                text.append(" is blocking from ");
                let amount = i32_dec(roll);
                text.append(amount.as_str());
                text.append(" damage...");
                actor.stats.set_block(roll);
                actor.icon = block_icon_str().to_owned();
                proof {
                    assert(text@ =~= spec_narrative(
                        *self,
                        roll as int,
                        old(actor)@.name,
                        old(target)@.name,
                    ));
                }
                text
            },
            Action::Heal => {
                let mut text = trim_spaces(actor.name.as_str());
                text.append(" is healing for ");
                let amount = i32_dec(roll);
                text.append(amount.as_str());
                text.append(" health...");
                actor.stats.heal(roll);
                actor.icon = heal_icon_str().to_owned();
                proof {
                    assert(text@ =~= spec_narrative(
                        *self,
                        roll as int,
                        old(actor)@.name,
                        old(target)@.name,
                    ));
                }
                text
            },
            Action::Invalid => {
                let mut text = trim_spaces(actor.name.as_str());
                text.append(" does nothing... For some reason?");
                actor.icon = neutral_icon_str().to_owned();
                proof {
                    assert(text@ =~= spec_narrative(
                        *self,
                        roll as int,
                        old(actor)@.name,
                        old(target)@.name,
                    ));
                }
                text
            },
        }
    }
}

} // verus!
