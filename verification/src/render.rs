//! The arena renderer: serialize both combatants' current state into the
//! two-column text panel that is sent after every resolved round, with a
//! static legend of the three selectable actions.

use vstd::prelude::*;
use vstd::string::StringExecFns;
use crate::entity::Entity;
use crate::entity::EntityView;
use crate::text::i32_dec;
use crate::text::spec_dec;

verus! {

/// The panel text: each combatant's name in bold, its icon, its health over
/// its maximum in italics, and the action legend.
pub open spec fn spec_render(p: EntityView, e: EntityView) -> Seq<char> {
    " \n \n**"@ + p.name + "**\t\t\t\t\t\t  **"@ + e.name + "**\n\n"@ + p.icon
        + "\t\t\t\t\t\t  "@ + e.icon + "\n[*"@ + spec_dec(p.stats.health) + "*/*"@ + spec_dec(
        p.stats.max_health,
    ) + "*]\t\t\t\t\t\t\t  [*"@ + spec_dec(e.stats.health) + "*/*"@ + spec_dec(
        e.stats.max_health,
    ) + "*]\n\nActions:\n1 -- Attack\t\t2 -- Block\n3 -- Heal \n \n"@
}

/// Serialize the two combatants into the arena panel.
pub fn render_arena(player: &Entity, enemy: &Entity) -> (r: String)
    requires
        player@.wf(),
        enemy@.wf(),
    ensures
        r@ == spec_render(player@, enemy@),
{
    let mut text = String::from_str(" \n \n**");
    text.append(player.name.as_str());
    text.append("**\t\t\t\t\t\t  **");
    text.append(enemy.name.as_str());
    text.append("**\n\n");
    text.append(player.icon.as_str());
    text.append("\t\t\t\t\t\t  ");
    text.append(enemy.icon.as_str());
    text.append("\n[*");
    let ph = i32_dec(player.stats.health);
    text.append(ph.as_str());
    text.append("*/*");
    let pm = i32_dec(player.stats.max_health);
    text.append(pm.as_str());
    text.append("*]\t\t\t\t\t\t\t  [*");
    let eh = i32_dec(enemy.stats.health);
    text.append(eh.as_str());
    text.append("*/*");
    let em = i32_dec(enemy.stats.max_health);
    text.append(em.as_str());
    text.append("*]\n\nActions:\n1 -- Attack\t\t2 -- Block\n3 -- Heal \n \n");
    proof {
        assert(text@ =~= spec_render(player@, enemy@));
    }
    text
}

} // verus!
