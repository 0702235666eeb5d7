//! The turn orchestrator: one session between the player and a randomly
//! chosen opponent. Each round solicits the player's reply, draws the
//! enemy's intent, resolves both actions under the ordering tie-break,
//! checks termination, and renders the arena.

use vstd::prelude::*;
use crate::action::spec_action_of;
use crate::action::spec_narrative;
use crate::action::spec_perform;
use crate::action::Action;
use crate::entity::defeat_icon;
use crate::entity::defeat_icon_str;
use crate::entity::neutral_icon;
use crate::entity::new_entity;
use crate::entity::spec_fresh_stats;
use crate::entity::Entity;
use crate::entity::EntityView;
use crate::input::parse_reply;
use crate::input::spec_command_code;
use crate::input::ParseFailure;
use crate::render::render_arena;
use crate::render::spec_render;
use crate::rng::intent_roll;
use crate::rng::roll;
use crate::stats::StatsView;
use crate::text::lower_of;

verus! {

/// The six-entry roster an opponent's name is drawn from, padded so that the
/// arena's columns line up.
pub open spec fn spec_roster(i: int) -> Seq<char> {
    if i == 1 {
        "Goblin:"@
    } else if i == 2 {
        "Elf:   "@
    } else if i == 3 {
        "Troll: "@
    } else if i == 4 {
        "Ghoul: "@
    } else if i == 5 {
        "Dwarf: "@
    } else {
        "Ork:   "@
    }
}

/// The roster entry a roll picks.
pub fn roster_name(i: i32) -> (r: &'static str)
    requires
        1 <= i <= 6,
    ensures
        r@ == spec_roster(i as int),
{
    if i == 1 {
        "Goblin:"
    } else if i == 2 {
        "Elf:   "
    } else if i == 3 {
        "Troll: "
    } else if i == 4 {
        "Ghoul: "
    } else if i == 5 {
        "Dwarf: "
    } else {
        "Ork:   "
    }
}

/// Mathematical model of a session.
pub struct SessionView {
    pub player: EntityView,
    pub enemy: EntityView,
}

impl SessionView {
    pub open spec fn wf(self) -> bool {
        self.player.wf() && self.enemy.wf()
    }
}

/// One combat session: the player and the opponent it was matched against.
/// A session lives for the duration of one orchestrated loop and shares no
/// state with any other session.
pub struct Session {
    pub player: Entity,
    pub enemy: Entity,
}

impl View for Session {
    type V = SessionView;

    open spec fn view(&self) -> SessionView {
        SessionView { player: self.player@, enemy: self.enemy@ }
    }
}

/// Start a session: the player at full health with the neutral icon, and an
/// opponent drawn from the roster by a fresh roll, also at full health.
pub fn new_session(player_name: String) -> (s: Session)
    ensures
        s@.wf(),
        s@.player.name == player_name@,
        s@.player.icon == neutral_icon(),
        s@.player.stats == spec_fresh_stats(),
        s@.enemy.icon == neutral_icon(),
        s@.enemy.stats == spec_fresh_stats(),
        exists|i: int| 1 <= i <= 6 && s@.enemy.name == spec_roster(i),
{
    let player = new_entity(player_name);
    let name_roll = roll();
    let enemy = new_entity(roster_name(name_roll).to_owned());
    let s = Session { player, enemy };
    proof {
        assert(1 <= name_roll as int <= 6 && s@.enemy.name == spec_roster(name_roll as int));
    }
    s
}

/// The ordering tie-break: the enemy acts first exactly when it intends to
/// block while the player intends to attack, so that the freshly set block
/// value is in effect when the attack lands.
pub open spec fn enemy_acts_first(player_action: Action, enemy_action: Action) -> bool {
    enemy_action is Block && player_action is Attack
}

/// Both combatants after the two actions of a round resolve in tie-break
/// order, before defeat is checked: `(player, enemy)`.
pub open spec fn spec_round_resolved(
    p: EntityView,
    e: EntityView,
    pa: Action,
    ea: Action,
    pr: int,
    er: int,
) -> (EntityView, EntityView) {
    if enemy_acts_first(pa, ea) {
        let after_enemy = spec_perform(ea, er, e, p);
        let after_player = spec_perform(pa, pr, after_enemy.1, after_enemy.0);
        (after_player.0, after_player.1)
    } else {
        let after_player = spec_perform(pa, pr, p, e);
        let after_enemy = spec_perform(ea, er, after_player.1, after_player.0);
        (after_enemy.1, after_enemy.0)
    }
}

/// A combatant whose health is down to zero after a round is marked
/// defeated: its icon becomes the defeat pose and its health stays floored
/// at zero.
pub open spec fn spec_mark_defeat(x: EntityView) -> EntityView {
    if x.stats.health <= 0 {
        EntityView {
            name: x.name,
            icon: defeat_icon(),
            stats: StatsView { max_health: x.stats.max_health, health: 0, block: x.stats.block },
        }
    } else {
        x
    }
}

/// Both combatants at the end of a round: the two actions resolved in
/// tie-break order, then each side marked defeated if its health is gone.
pub open spec fn spec_round(
    p: EntityView,
    e: EntityView,
    pa: Action,
    ea: Action,
    pr: int,
    er: int,
) -> (EntityView, EntityView) {
    let resolved = spec_round_resolved(p, e, pa, ea, pr, er);
    (spec_mark_defeat(resolved.0), spec_mark_defeat(resolved.1))
}

/// The session terminates exactly when at least one combatant's health is
/// down to zero; both may reach zero in the same round.
pub open spec fn spec_game_over(p: EntityView, e: EntityView) -> bool {
    p.stats.health <= 0 || e.stats.health <= 0
}

/// What one resolved round reports: the two narrative lines in resolution
/// order, and whether the session is over.
pub struct RoundReport {
    pub first_text: String,
    pub second_text: String,
    pub game_over: bool,
}

/// Resolve one full round from validated intents and their rolls: both
/// actions in tie-break order, then the termination check with defeat
/// marking. The narrative lines come back in the order the actions resolved.
pub fn resolve_round(
    player: &mut Entity,
    enemy: &mut Entity,
    player_code: u8,
    enemy_code: u8,
    player_roll: i32,
    enemy_roll: i32,
) -> (r: RoundReport)
    requires
        old(player)@.wf(),
        old(enemy)@.wf(),
        1 <= player_code <= 3,
        1 <= enemy_code <= 3,
        1 <= player_roll <= 6,
        1 <= enemy_roll <= 6,
    ensures
        final(player)@ == spec_round(
            old(player)@,
            old(enemy)@,
            spec_action_of(player_code as int),
            spec_action_of(enemy_code as int),
            player_roll as int,
            enemy_roll as int,
        ).0,
        final(enemy)@ == spec_round(
            old(player)@,
            old(enemy)@,
            spec_action_of(player_code as int),
            spec_action_of(enemy_code as int),
            player_roll as int,
            enemy_roll as int,
        ).1,
        final(player)@.wf(),
        final(enemy)@.wf(),
        r.game_over == spec_game_over(final(player)@, final(enemy)@),
        enemy_acts_first(spec_action_of(player_code as int), spec_action_of(enemy_code as int))
            ==> r.first_text@ == spec_narrative(
            spec_action_of(enemy_code as int),
            enemy_roll as int,
            old(enemy)@.name,
            old(player)@.name,
        ) && r.second_text@ == spec_narrative(
            spec_action_of(player_code as int),
            player_roll as int,
            old(player)@.name,
            old(enemy)@.name,
        ),
        !enemy_acts_first(spec_action_of(player_code as int), spec_action_of(enemy_code as int))
            ==> r.first_text@ == spec_narrative(
            spec_action_of(player_code as int),
            player_roll as int,
            old(player)@.name,
            old(enemy)@.name,
        ) && r.second_text@ == spec_narrative(
            spec_action_of(enemy_code as int),
            enemy_roll as int,
            old(enemy)@.name,
            old(player)@.name,
        ),
{
    let player_action = Action::from(player_code);
    let enemy_action = Action::from(enemy_code);

    let first_text: String;
    let second_text: String;
    if enemy_code == 2 && player_code == 1 {
        first_text = enemy_action.perform(enemy_roll, enemy, player);
        second_text = player_action.perform(player_roll, player, enemy);
    } else {
        first_text = player_action.perform(player_roll, player, enemy);
        second_text = enemy_action.perform(enemy_roll, enemy, player);
    }

    let mut game_over = false;
    if player.stats.health <= 0 {
        player.icon = defeat_icon_str().to_owned();
        player.stats.health = 0;
        game_over = true;
    }
    if enemy.stats.health <= 0 {
        enemy.icon = defeat_icon_str().to_owned();
        enemy.stats.health = 0;
        game_over = true;
    }

    RoundReport { first_text, second_text, game_over }
}

/// Everything one completed round decided: the validated selector, the drawn
/// enemy intent and the two rolls, the narrative lines in resolution order,
/// the rendered arena panel, and whether the session is over.
pub struct RoundSummary {
    pub player_code: u8,
    pub enemy_code: u8,
    pub player_roll: i32,
    pub enemy_roll: i32,
    pub first_text: String,
    pub second_text: String,
    pub panel: String,
    pub game_over: bool,
}

/// What one turn of the orchestrator decided.
pub enum StepOutcome {
    /// The reply was rejected: the notices to send, in order. The session is
    /// unchanged and input is solicited again, with no bound on retries.
    Rejected(Vec<String>),
    /// A full round was resolved.
    Completed(RoundSummary),
}

/// The notice sent when the 60-second deadline passes with no reply.
pub open spec fn timeout_notice() -> Seq<char> {
    "No answer provided in 60 seconds, did you forget about me?"@
}

pub fn timeout_notice_str() -> (r: &'static str)
    ensures
        r@ == timeout_notice(),
{
    "No answer provided in 60 seconds, did you forget about me?"
}

/// The notice sent when a reply could not be parsed into a selector.
pub open spec fn error_notice() -> Seq<char> {
    "That's not an option is it? Why must you make me handle this error!"@
}

pub fn error_notice_str() -> (r: &'static str)
    ensures
        r@ == error_notice(),
{
    "That's not an option is it? Why must you make me handle this error!"
}

/// The notice sent once the session terminates.
pub open spec fn game_over_notice() -> Seq<char> {
    "Game Over..."@
}

pub fn game_over_notice_str() -> (r: &'static str)
    ensures
        r@ == game_over_notice(),
{
    "Game Over..."
}

/// Drive the session through one turn, given the player's reply (or `None`
/// when the deadline passed with no reply).
///
/// An unparseable reply leaves the session untouched and reports the notices
/// to send: the timeout notice (when there was no reply) followed by the
/// error notice. A valid reply resolves one full round: the enemy's intent
/// and both rolls are drawn fresh, both actions resolve in tie-break order,
/// defeat is checked, and the arena is rendered from the new state.
pub fn advance(session: &mut Session, reply: Option<&str>) -> (r: StepOutcome)
    requires
        old(session)@.wf(),
    ensures
        final(session)@.wf(),
        reply is None ==> (r matches StepOutcome::Rejected(notices) && final(session)@ == old(
            session,
        )@ && notices@.len() == 2 && notices@[0]@ == timeout_notice() && notices@[1]@
            == error_notice()),
        reply matches Some(s) && spec_command_code(lower_of(s@)) is None ==> (r matches
            StepOutcome::Rejected(notices) && final(session)@ == old(session)@ && notices@.len()
            == 1 && notices@[0]@ == error_notice()),
        reply matches Some(s) ==> (spec_command_code(lower_of(s@)) matches Some(code) ==> (r
            matches StepOutcome::Completed(sum) && {
            &&& sum.player_code == code
            &&& 1 <= sum.enemy_code <= 3
            &&& 1 <= sum.player_roll <= 6
            &&& 1 <= sum.enemy_roll <= 6
            &&& final(session)@.player == spec_round(
                old(session)@.player,
                old(session)@.enemy,
                spec_action_of(sum.player_code as int),
                spec_action_of(sum.enemy_code as int),
                sum.player_roll as int,
                sum.enemy_roll as int,
            ).0
            &&& final(session)@.enemy == spec_round(
                old(session)@.player,
                old(session)@.enemy,
                spec_action_of(sum.player_code as int),
                spec_action_of(sum.enemy_code as int),
                sum.player_roll as int,
                sum.enemy_roll as int,
            ).1
            &&& sum.game_over == spec_game_over(final(session)@.player, final(session)@.enemy)
            &&& sum.panel@ == spec_render(final(session)@.player, final(session)@.enemy)
            &&& (enemy_acts_first(
                spec_action_of(sum.player_code as int),
                spec_action_of(sum.enemy_code as int),
            )
                ==> sum.first_text@ == spec_narrative(
                spec_action_of(sum.enemy_code as int),
                sum.enemy_roll as int,
                old(session)@.enemy.name,
                old(session)@.player.name,
            ) && sum.second_text@ == spec_narrative(
                spec_action_of(sum.player_code as int),
                sum.player_roll as int,
                old(session)@.player.name,
                old(session)@.enemy.name,
            ))
            &&& (!enemy_acts_first(
                spec_action_of(sum.player_code as int),
                spec_action_of(sum.enemy_code as int),
            )
                ==> sum.first_text@ == spec_narrative(
                spec_action_of(sum.player_code as int),
                sum.player_roll as int,
                old(session)@.player.name,
                old(session)@.enemy.name,
            ) && sum.second_text@ == spec_narrative(
                spec_action_of(sum.enemy_code as int),
                sum.enemy_roll as int,
                old(session)@.enemy.name,
                old(session)@.player.name,
            ))
        })),
{
    match parse_reply(reply) {
        Err(failure) => {
            let mut notices: Vec<String> = Vec::new();
            if matches!(failure, ParseFailure::Timeout) {
                notices.push(timeout_notice_str().to_owned());
            }
            notices.push(error_notice_str().to_owned());
            StepOutcome::Rejected(notices)
        },
        Ok(player_code) => {
            let enemy_intent = intent_roll();
            let enemy_code: u8 = enemy_intent as u8;
            let player_roll = roll();
            let enemy_roll = roll();
            let report = resolve_round(
                &mut session.player,
                &mut session.enemy,
                player_code,
                enemy_code,
                player_roll,
                enemy_roll,
            );
            let panel = render_arena(&session.player, &session.enemy);
            StepOutcome::Completed(
                RoundSummary {
                    player_code,
                    enemy_code,
                    player_roll,
                    enemy_roll,
                    first_text: report.first_text,
                    second_text: report.second_text,
                    panel,
                    game_over: report.game_over,
                },
            )
        },
    }
}

/// The termination law: a round ends the session exactly when at least one
/// combatant's health is down at (or, before clamping, below) zero once both
/// of its actions have resolved — and both combatants may reach that in the
/// same round. Marking defeat never changes health: every mutation already
/// floors health at zero, so the defeated side's health is exactly zero.
pub proof fn lemma_termination(
    p: EntityView,
    e: EntityView,
    pa: Action,
    ea: Action,
    pr: int,
    er: int,
)
    requires
        p.wf(),
        e.wf(),
        1 <= pr <= 6,
        1 <= er <= 6,
    ensures
        spec_game_over(spec_round(p, e, pa, ea, pr, er).0, spec_round(p, e, pa, ea, pr, er).1)
            <==> (spec_round_resolved(p, e, pa, ea, pr, er).0.stats.health <= 0
            || spec_round_resolved(p, e, pa, ea, pr, er).1.stats.health <= 0),
        spec_round(p, e, pa, ea, pr, er).0.stats.health == spec_round_resolved(
            p,
            e,
            pa,
            ea,
            pr,
            er,
        ).0.stats.health,
        spec_round(p, e, pa, ea, pr, er).1.stats.health == spec_round_resolved(
            p,
            e,
            pa,
            ea,
            pr,
            er,
        ).1.stats.health,
{
}

/// The ordering tie-break law. For intents (enemy Block, player Attack) the
/// enemy's fresh block value is already in effect when the player's attack
/// damage is computed against it: the enemy ends the round with the block
/// consumed and health reduced only by the damage exceeding that block. For
/// every other pairing of intents the player's action is applied to the
/// enemy's state before the enemy's own action is.
pub proof fn lemma_round_order(
    p: EntityView,
    e: EntityView,
    pa: Action,
    ea: Action,
    pr: int,
    er: int,
)
    requires
        p.wf(),
        e.wf(),
    ensures
        enemy_acts_first(pa, ea) ==> spec_round_resolved(p, e, pa, ea, pr, er).1.stats.health
            == vstd::math::max(0, e.stats.health - vstd::math::max(0, pr - er)),
        enemy_acts_first(pa, ea) ==> spec_round_resolved(p, e, pa, ea, pr, er).1.stats.block == 0,
        enemy_acts_first(pa, ea) ==> spec_round_resolved(p, e, pa, ea, pr, er) == (
        (
            spec_perform(pa, pr, spec_perform(ea, er, e, p).1, spec_perform(ea, er, e, p).0).0,
            spec_perform(pa, pr, spec_perform(ea, er, e, p).1, spec_perform(ea, er, e, p).0).1,
        )),
        !enemy_acts_first(pa, ea) ==> spec_round_resolved(p, e, pa, ea, pr, er) == (
        (
            spec_perform(ea, er, spec_perform(pa, pr, p, e).1, spec_perform(pa, pr, p, e).0).1,
            spec_perform(ea, er, spec_perform(pa, pr, p, e).1, spec_perform(pa, pr, p, e).0).0,
        )),
{
}

} // verus!
