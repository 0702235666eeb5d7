use combat_engine::stats::Stats;

#[test]
fn attack_partially_absorbed_by_block() {
    let mut s = Stats { max_health: 20, health: 20, block: 3 };
    s.receive_attack(5);
    assert_eq!(s.health, 18);
    assert_eq!(s.block, 0);
    assert_eq!(s.max_health, 20);
}

#[test]
fn excess_block_is_discarded_not_carried() {
    let mut s = Stats { max_health: 20, health: 20, block: 6 };
    s.receive_attack(2);
    assert_eq!(s.health, 20);
    // The block fully absorbed the hit, yet it is spent entirely.
    assert_eq!(s.block, 0);
}

#[test]
fn attack_without_block_hits_health() {
    let mut s = Stats { max_health: 20, health: 20, block: 0 };
    s.receive_attack(4);
    assert_eq!(s.health, 16);
    assert_eq!(s.block, 0);
}

#[test]
fn overkill_damage_floors_health_at_zero() {
    let mut s = Stats { max_health: 20, health: 3, block: 0 };
    s.receive_attack(6);
    assert_eq!(s.health, 0);
}

#[test]
fn block_then_overkill_still_floors_at_zero() {
    let mut s = Stats { max_health: 20, health: 2, block: 1 };
    s.receive_attack(6);
    assert_eq!(s.health, 0);
    assert_eq!(s.block, 0);
}

#[test]
fn heal_is_clamped_to_max_health() {
    let mut s = Stats { max_health: 20, health: 18, block: 0 };
    s.heal(5);
    assert_eq!(s.health, 20);
}

#[test]
fn heal_below_max_adds_exactly() {
    let mut s = Stats { max_health: 20, health: 10, block: 2 };
    s.heal(3);
    assert_eq!(s.health, 13);
    assert_eq!(s.block, 2);
}

#[test]
fn set_block_overwrites_rather_than_accumulates() {
    let mut s = Stats { max_health: 20, health: 20, block: 0 };
    s.set_block(4);
    s.set_block(2);
    assert_eq!(s.block, 2);
}
