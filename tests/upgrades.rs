use elevator_game::upgrade::{
    AddElevatorCapacityUpgrade, AddFloorCapacityUpgrade, AppendElevatorUpgrade, AppendFloorUpgrade,
    CollectTipsUpgrade, ElevatorGameUpgrade, ElevatorGameUpgrades, Upgrade, SCALE,
};

#[test]
fn catalog_starting_prices() {
    let c = ElevatorGameUpgrades::new();
    assert_eq!(c.append_floor.upgrade.get_cost(), 11_000);
    assert_eq!(c.append_elevator.upgrade.get_cost(), 101_000);
    assert_eq!(c.add_floor_capacity.upgrade.get_cost(), 11_000);
    assert_eq!(c.add_elevator_capacity.upgrade.get_cost(), 11_000);
    assert_eq!(c.collect_tips.get_cost(), 0);
}

#[test]
fn catalog_names_and_descriptions() {
    let c = ElevatorGameUpgrades::new();
    assert_eq!(c.collect_tips.get_name(), "Collect Tips");
    assert_eq!(c.collect_tips.get_description(), "Collect the tips accumulated by your building");
    assert_eq!(c.append_floor.upgrade.get_name(), "Add Floor");
    assert_eq!(c.append_floor.upgrade.get_description(), "Adds a new floor to your building");
    assert_eq!(c.append_elevator.upgrade.get_name(), "Add Elevator");
    assert_eq!(c.append_elevator.upgrade.get_description(), "Adds a new elevator to your building");
    assert_eq!(c.add_floor_capacity.upgrade.get_name(), "Add Floor Capacity");
    assert_eq!(c.add_floor_capacity.upgrade.get_description(), "Adds more capacity to your floors");
    assert_eq!(c.add_elevator_capacity.upgrade.get_name(), "Add Elevator Capacity");
    assert_eq!(c.add_elevator_capacity.upgrade.get_description(), "Adds more capacity to your elevators");
}

#[test]
fn catalog_has_no_ceiling() {
    let c = ElevatorGameUpgrades::new();
    assert_eq!(c.append_floor.upgrade.get_max_buys(), usize::MAX);
    assert_eq!(c.append_elevator.upgrade.get_max_buys(), usize::MAX);
    assert_eq!(c.add_floor_capacity.upgrade.get_max_buys(), usize::MAX);
    assert_eq!(c.add_elevator_capacity.upgrade.get_max_buys(), usize::MAX);
    assert_eq!(c.collect_tips.get_max_buys(), usize::MAX);
}

#[test]
fn buy_returns_price_before_purchase_and_grows_it() {
    let mut u = AppendFloorUpgrade::new(10, 3, 2).upgrade;
    // 10 + 1.5^n tips, each growth step rounded down to a thousandth
    assert_eq!(u.buy(), 11_000);
    assert_eq!(u.get_num_buys(), 1);
    assert_eq!(u.get_cost(), 11_500);
    assert_eq!(u.buy(), 11_500);
    assert_eq!(u.get_cost(), 12_250);
    assert_eq!(u.buy(), 12_250);
    assert_eq!(u.get_cost(), 13_375);
    assert_eq!(u.buy(), 13_375);
    assert_eq!(u.get_cost(), 15_062);
    assert_eq!(u.get_num_buys(), 4);
}

#[test]
fn price_never_decreases_over_purchases() {
    let mut u = AppendElevatorUpgrade::new(100, 19, 10).upgrade;
    let mut last = u.get_cost();
    for _ in 0..40 {
        let paid = u.buy();
        assert_eq!(paid as u128, last);
        let now = u.get_cost();
        assert!(now >= last);
        last = now;
    }
    assert_eq!(u.get_num_buys(), 40);
}

#[test]
fn capacity_upgrade_prices() {
    let mut f = AddFloorCapacityUpgrade::new(10, 11, 10).upgrade;
    assert_eq!(f.buy(), 11_000);
    assert_eq!(f.get_cost(), 11_100);
    let mut e = AddElevatorCapacityUpgrade::new(10, 11, 10).upgrade;
    assert_eq!(e.buy(), 11_000);
    assert_eq!(e.buy(), 11_100);
    assert_eq!(e.get_cost(), 11_210);
}

#[test]
fn is_enough_at_the_price_boundary() {
    let u = AppendFloorUpgrade::new(10, 3, 2).upgrade;
    assert!(!u.is_enough(0));
    assert!(!u.is_enough(10_999));
    assert!(u.is_enough(11_000));
    assert!(u.is_enough(u64::MAX));
}

#[test]
fn collect_tips_is_free_and_always_available() {
    let mut c = CollectTipsUpgrade::new();
    assert!(c.is_enough(0));
    assert_eq!(c.buy(), 0);
    assert_eq!(c.buy(), 0);
    assert_eq!(c.get_cost(), 0);
}

#[test]
fn generic_upgrade_construction() {
    let u = Upgrade::new(5, 2, 1, "Custom".to_string(), "A custom upgrade".to_string());
    assert_eq!(u.get_cost(), 5 * SCALE as u128 + SCALE as u128);
    assert_eq!(u.get_name(), "Custom");
    assert_eq!(u.get_description(), "A custom upgrade");
    assert_eq!(u.get_num_buys(), 0);
}

#[test]
fn buying_collect_tips_leaves_it_unchanged() {
    let mut c = ElevatorGameUpgrades::new().collect_tips;
    c.buy();
    assert_eq!(c.get_name(), "Collect Tips");
    assert_eq!(c.get_description(), "Collect the tips accumulated by your building");
    assert_eq!(c.get_cost(), 0);
}
