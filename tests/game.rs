use elevator_game::game::{BuildingAction, BuildingReading, ElevatorGame};
use elevator_game::input::ElevatorGameInput;
use elevator_game::upgrade::{ElevatorGameUpgrade, ElevatorGameUpgrades};

fn reading(floor: usize, elevator: usize, pool: u64) -> BuildingReading {
    BuildingReading { first_floor_capacity: floor, first_elevator_capacity: elevator, tip_pool: pool }
}

fn movement(step: u64) -> Vec<BuildingAction> {
    vec![
        BuildingAction::GenerateArrivals,
        BuildingAction::GenerateDepartures,
        BuildingAction::FlushAndCollectTips,
        BuildingAction::ExchangeOccupants,
        BuildingAction::RunElevatorControl,
        BuildingAction::IncrementWaitTimes,
        BuildingAction::UpdateAverageEnergy { time_step: step },
        BuildingAction::UpdateDestinationProbabilities,
    ]
}

fn only_collect() -> ElevatorGameInput {
    ElevatorGameInput::new(true, false, false, false, false)
}

/// A fresh game whose player holds `tips` thousandths, collected in one tick.
fn game_with_tips(tips: u64) -> ElevatorGame {
    let mut g = ElevatorGame::from(ElevatorGameUpgrades::new());
    g.update_game_state(only_collect(), reading(100, 10, tips));
    assert_eq!(g.get_tips(), tips);
    g
}

#[test]
fn fresh_game_starts_empty() {
    let g = ElevatorGame::from(ElevatorGameUpgrades::new());
    assert_eq!(g.get_tips(), 0);
    assert_eq!(g.get_time_steps(), 0);
    assert_eq!(g.get_upgrades().append_floor.upgrade.get_num_buys(), 0);
}

#[test]
fn empty_command_runs_only_the_building_phases() {
    let mut g = ElevatorGame::from(ElevatorGameUpgrades::new());
    let acts = g.update_game_state(ElevatorGameInput::new(false, false, false, false, false), reading(100, 10, 5_000));
    assert_eq!(acts, movement(0));
    assert_eq!(g.get_tips(), 0);
    assert_eq!(g.get_time_steps(), 1);
    let acts = g.update_game_state(ElevatorGameInput::new(false, false, false, false, false), reading(100, 10, 5_000));
    assert_eq!(acts, movement(1));
    assert_eq!(g.get_time_steps(), 2);
}

#[test]
fn unaffordable_floor_on_fresh_game_is_ignored() {
    let mut g = ElevatorGame::from(ElevatorGameUpgrades::new());
    let acts = g.update_game_state(ElevatorGameInput::new(false, true, false, false, false), reading(100, 10, 0));
    assert_eq!(g.get_tips(), 0);
    assert_eq!(acts, movement(0));
    assert!(!acts.iter().any(|a| matches!(a, BuildingAction::AppendFloor { .. })));
    assert_eq!(g.get_upgrades().append_floor.upgrade.get_num_buys(), 0);
}

#[test]
fn affordable_floor_is_bought_with_first_floor_capacity() {
    let mut g = game_with_tips(15_000);
    let acts = g.update_game_state(ElevatorGameInput::new(false, true, false, false, false), reading(100, 10, 0));
    assert_eq!(g.get_tips(), 4_000);
    let mut expected = vec![BuildingAction::AppendFloor { capacity: 100 }];
    expected.extend(movement(1));
    assert_eq!(acts, expected);
    assert_eq!(g.get_upgrades().append_floor.upgrade.get_num_buys(), 1);
    assert_eq!(g.get_upgrades().append_floor.upgrade.get_cost(), 11_500);
}

#[test]
fn floor_capacity_raise_applies_to_every_floor() {
    let mut g = game_with_tips(20_000);
    let acts = g.update_game_state(ElevatorGameInput::new(false, false, false, false, true), reading(50, 10, 0));
    let mut expected = vec![BuildingAction::SetFloorCapacities { capacity: 150 }];
    expected.extend(movement(1));
    assert_eq!(acts, expected);
    assert_eq!(g.get_tips(), 9_000);
}

#[test]
fn elevator_capacity_raise_adds_ten() {
    let mut g = game_with_tips(20_000);
    let acts = g.update_game_state(ElevatorGameInput::new(false, false, false, true, false), reading(50, 10, 0));
    assert_eq!(acts[0], BuildingAction::SetElevatorCapacities { capacity: 20 });
    assert_eq!(g.get_tips(), 9_000);
}

#[test]
fn collected_tips_come_from_the_pool_before_movement() {
    let mut g = ElevatorGame::from(ElevatorGameUpgrades::new());
    let acts = g.update_game_state(only_collect(), reading(100, 10, 7_500));
    assert_eq!(g.get_tips(), 7_500);
    let mut expected = vec![BuildingAction::CollectTips];
    expected.extend(movement(0));
    assert_eq!(acts, expected);
    let collect = acts.iter().position(|a| *a == BuildingAction::CollectTips).unwrap();
    let flush = acts.iter().position(|a| *a == BuildingAction::FlushAndCollectTips).unwrap();
    assert!(collect < flush);
}

#[test]
fn collection_funds_a_purchase_in_the_same_tick() {
    let mut g = ElevatorGame::from(ElevatorGameUpgrades::new());
    let acts = g.update_game_state(ElevatorGameInput::new(true, true, false, false, false), reading(80, 10, 15_000));
    assert_eq!(g.get_tips(), 4_000);
    assert_eq!(acts[0], BuildingAction::CollectTips);
    assert_eq!(acts[1], BuildingAction::AppendFloor { capacity: 80 });
}

#[test]
fn purchases_follow_the_fixed_order_and_share_the_funds() {
    // 12 tips buy the floor (11) and leave too little for the floor capacity (11).
    let mut g = game_with_tips(12_000);
    let acts = g.update_game_state(ElevatorGameInput::new(false, true, true, true, true), reading(100, 10, 0));
    assert_eq!(g.get_tips(), 1_000);
    let mut expected = vec![BuildingAction::AppendFloor { capacity: 100 }];
    expected.extend(movement(1));
    assert_eq!(acts, expected);
    let u = g.get_upgrades();
    assert_eq!(u.append_floor.upgrade.get_num_buys(), 1);
    assert_eq!(u.append_elevator.upgrade.get_num_buys(), 0);
    assert_eq!(u.add_floor_capacity.upgrade.get_num_buys(), 0);
    assert_eq!(u.add_elevator_capacity.upgrade.get_num_buys(), 0);
}

#[test]
fn every_upgrade_bought_in_one_tick() {
    let mut g = game_with_tips(200_000);
    let acts = g.update_game_state(ElevatorGameInput::new(false, true, true, true, true), reading(100, 10, 0));
    // 200 - 11 - 101 - 11 - 11
    assert_eq!(g.get_tips(), 66_000);
    let mut expected = vec![
        BuildingAction::AppendFloor { capacity: 100 },
        BuildingAction::AppendElevator { capacity: 10 },
        BuildingAction::SetFloorCapacities { capacity: 200 },
        BuildingAction::SetElevatorCapacities { capacity: 20 },
    ];
    expected.extend(movement(1));
    assert_eq!(acts, expected);
}

#[test]
fn unaffordable_elevator_leaves_funds_alone() {
    let mut g = game_with_tips(100_000);
    let acts = g.update_game_state(ElevatorGameInput::new(false, false, true, false, false), reading(100, 10, 0));
    assert_eq!(g.get_tips(), 100_000);
    assert!(!acts.iter().any(|a| matches!(a, BuildingAction::AppendElevator { .. })));
    assert_eq!(g.get_upgrades().append_elevator.upgrade.get_num_buys(), 0);
}

#[test]
fn game_state_twice_without_tick_agrees() {
    let g = game_with_tips(3_500);
    let a = g.get_game_state();
    let b = g.get_game_state();
    assert_eq!(a.append_floor.name, b.append_floor.name);
    assert_eq!(a.append_floor.description, b.append_floor.description);
    assert_eq!(a.append_floor.cost, b.append_floor.cost);
    assert_eq!(a.append_elevator.name, b.append_elevator.name);
    assert_eq!(a.append_elevator.cost, b.append_elevator.cost);
    assert_eq!(a.collected_tips, b.collected_tips);
}

#[test]
fn game_state_shows_upgrades_and_tips() {
    let mut g = game_with_tips(20_000);
    g.update_game_state(ElevatorGameInput::new(false, true, false, false, false), reading(100, 10, 0));
    let s = g.get_game_state();
    assert_eq!(s.append_floor.name, "Add Floor");
    assert_eq!(s.append_floor.description, "Adds a new floor to your building");
    assert_eq!(s.append_floor.cost, 11_500);
    assert_eq!(s.append_elevator.name, "Add Elevator");
    assert_eq!(s.append_elevator.cost, 101_000);
    assert_eq!(s.collected_tips, 9_000);
}
