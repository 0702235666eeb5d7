use combat_engine::engine::new_session;
use combat_engine::engine::resolve_round;
use combat_engine::engine::Session;
use combat_engine::engine::StepOutcome;
use combat_engine::entity::Entity;
use combat_engine::stats::Stats;

fn entity(name: &str, max_health: i32, health: i32, block: i32) -> Entity {
    Entity {
        name: name.to_owned(),
        icon: "ヽ(゜～゜o)ノ".to_owned(),
        stats: Stats { max_health, health, block },
    }
}

fn session(player_health: i32, enemy_health: i32) -> Session {
    Session {
        player: entity("Alice", 20, player_health, 0),
        enemy: entity("Goblin:", 20, enemy_health, 0),
    }
}

#[test]
fn scenario_block_absorbs_fresh_attack() {
    // Player attacks with roll 5, enemy blocks with roll 3: the block is set
    // before the attack resolves, absorbs 3 of the 5 damage, and is spent.
    let mut s = session(20, 20);
    let report = resolve_round(&mut s.player, &mut s.enemy, 1, 2, 5, 3);
    assert_eq!(s.enemy.stats.health, 18);
    assert_eq!(s.enemy.stats.block, 0);
    assert_eq!(s.player.stats.health, 20);
    assert!(!report.game_over);
    // The enemy's block resolves first, so its narrative comes first.
    assert_eq!(report.first_text, "Goblin: is blocking from 3 damage...");
    assert_eq!(report.second_text, "Alice hit Goblin: for 5 damage...");
}

#[test]
fn scenario_player_resolves_before_enemy_heal() {
    // Not the block-versus-attack case: the player's attack lands on the
    // enemy's full 20 health first, then the enemy heals 3.
    let mut s = session(20, 20);
    let report = resolve_round(&mut s.player, &mut s.enemy, 1, 3, 5, 3);
    assert_eq!(s.enemy.stats.health, 18);
    assert!(!report.game_over);
    assert_eq!(report.first_text, "Alice hit Goblin: for 5 damage...");
    assert_eq!(report.second_text, "Goblin: is healing for 3 health...");
}

#[test]
fn scenario_lethal_attack_terminates_session() {
    // Enemy at 6/20 without block takes a 6-damage attack: health reaches
    // zero, the enemy is marked defeated and the session is over. The enemy
    // still acts in the same round (here: a 1-damage attack back), since the
    // termination check runs only after both actions resolve.
    let mut s = session(20, 6);
    let report = resolve_round(&mut s.player, &mut s.enemy, 1, 1, 6, 1);
    assert_eq!(s.enemy.stats.health, 0);
    assert_eq!(s.player.stats.health, 19);
    assert_eq!(s.enemy.icon, "(︶︹︺)    ");
    assert!(report.game_over);
}

#[test]
fn mutual_knockout_defeats_both() {
    let mut s = session(2, 3);
    let report = resolve_round(&mut s.player, &mut s.enemy, 1, 1, 6, 6);
    assert_eq!(s.player.stats.health, 0);
    assert_eq!(s.enemy.stats.health, 0);
    assert_eq!(s.player.icon, "(︶︹︺)    ");
    assert_eq!(s.enemy.icon, "(︶︹︺)    ");
    assert!(report.game_over);
}

#[test]
fn stale_block_is_consumed_next_round() {
    // The enemy blocked while the player healed: the block persists into the
    // next round and absorbs the player's attack then.
    let mut s = session(20, 20);
    let first = resolve_round(&mut s.player, &mut s.enemy, 3, 2, 2, 4);
    assert_eq!(s.enemy.stats.block, 4);
    assert!(!first.game_over);
    let _second = resolve_round(&mut s.player, &mut s.enemy, 1, 1, 6, 1);
    assert_eq!(s.enemy.stats.health, 18);
    assert_eq!(s.enemy.stats.block, 0);
    assert_eq!(s.player.stats.health, 19);
}

#[test]
fn unrecognized_reply_rejects_without_mutation() {
    let mut s = session(20, 20);
    match combat_engine::engine::advance(&mut s, Some("hello")) {
        StepOutcome::Rejected(notices) => {
            assert_eq!(notices.len(), 1);
            assert_eq!(
                notices[0],
                "That's not an option is it? Why must you make me handle this error!"
            );
        }
        StepOutcome::Completed(_) => panic!("an unrecognized reply must be rejected"),
    }
    assert_eq!(s.player.stats.health, 20);
    assert_eq!(s.enemy.stats.health, 20);
    assert_eq!(s.player.stats.block, 0);
    assert_eq!(s.enemy.stats.block, 0);
}

#[test]
fn timeout_sends_both_notices() {
    let mut s = session(20, 20);
    match combat_engine::engine::advance(&mut s, None) {
        StepOutcome::Rejected(notices) => {
            assert_eq!(notices.len(), 2);
            assert_eq!(
                notices[0],
                "No answer provided in 60 seconds, did you forget about me?"
            );
            assert_eq!(
                notices[1],
                "That's not an option is it? Why must you make me handle this error!"
            );
        }
        StepOutcome::Completed(_) => panic!("a timeout must be rejected"),
    }
    assert_eq!(s.player.stats.health, 20);
    assert_eq!(s.enemy.stats.health, 20);
}

#[test]
fn valid_reply_resolves_a_full_round() {
    let mut s = session(20, 20);
    match combat_engine::engine::advance(&mut s, Some("!3")) {
        StepOutcome::Completed(sum) => {
            assert_eq!(sum.player_code, 3);
            assert!((1..=3).contains(&sum.enemy_code));
            assert!((1..=6).contains(&sum.player_roll));
            assert!((1..=6).contains(&sum.enemy_roll));
            // The player healed at full health; only an enemy attack can
            // move its health, by at most 6, so the session cannot end.
            assert!((14..=20).contains(&s.player.stats.health));
            assert_eq!(s.enemy.stats.health, 20);
            assert!(!sum.game_over);
            assert!(!sum.panel.is_empty());
        }
        StepOutcome::Rejected(_) => panic!("a valid reply must resolve a round"),
    }
}

#[test]
fn drawn_values_cover_their_ranges() {
    // The rolls are uniform over 1..=6 and the enemy intent over 1..=3; over
    // a few thousand independent draws every value must appear, and none may
    // fall outside its range.
    let mut roll_seen = [false; 7];
    let mut intent_seen = [false; 4];
    for _ in 0..3000 {
        let mut s = session(20, 20);
        match combat_engine::engine::advance(&mut s, Some("!3")) {
            StepOutcome::Completed(sum) => {
                assert!((1..=6).contains(&sum.player_roll));
                assert!((1..=6).contains(&sum.enemy_roll));
                assert!((1..=3).contains(&sum.enemy_code));
                roll_seen[sum.player_roll as usize] = true;
                roll_seen[sum.enemy_roll as usize] = true;
                intent_seen[sum.enemy_code as usize] = true;
            }
            StepOutcome::Rejected(_) => panic!("a valid reply must resolve a round"),
        }
    }
    assert!(roll_seen[1..=6].iter().all(|&b| b));
    assert!(intent_seen[1..=3].iter().all(|&b| b));
}

#[test]
fn new_session_draws_opponent_from_roster() {
    let roster = ["Goblin:", "Elf:   ", "Troll: ", "Ghoul: ", "Dwarf: ", "Ork:   "];
    let mut seen = [false; 6];
    for _ in 0..2000 {
        let s = new_session("Alice".to_owned());
        assert_eq!(s.player.name, "Alice");
        assert_eq!(s.player.stats.max_health, 20);
        assert_eq!(s.player.stats.health, 20);
        assert_eq!(s.player.stats.block, 0);
        assert_eq!(s.enemy.stats.max_health, 20);
        assert_eq!(s.enemy.stats.health, 20);
        assert_eq!(s.enemy.stats.block, 0);
        assert_eq!(s.player.icon, "ヽ(゜～゜o)ノ");
        assert_eq!(s.enemy.icon, "ヽ(゜～゜o)ノ");
        let idx = roster
            .iter()
            .position(|&n| n == s.enemy.name)
            .expect("the opponent's name must come from the roster");
        seen[idx] = true;
    }
    assert!(seen.iter().all(|&b| b));
}
