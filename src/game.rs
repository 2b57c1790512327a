use vstd::prelude::*;

use crate::input::ElevatorGameInput;
use crate::upgrade::{ElevatorGameUpgrade, ElevatorGameUpgrades, Upgrade};

verus! {

/// Capacity that a floor-capacity upgrade adds to every floor.
pub const FLOOR_CAPACITY_STEP: usize = 100;

/// Capacity that an elevator-capacity upgrade adds to every elevator.
pub const ELEVATOR_CAPACITY_STEP: usize = 10;

/// What the engine reads of the building at the start of a tick, before any
/// of the tick's effects.
#[derive(PartialEq, Eq, Structural, Clone, Copy, Debug)]
pub struct BuildingReading {
    /// Capacity of floor 0.
    pub first_floor_capacity: usize,
    /// Capacity of elevator 0.
    pub first_elevator_capacity: usize,
    /// Tips generated inside the building and not yet collected, in thousandths.
    pub tip_pool: u64,
}

/// One call into the building, in the order in which a tick makes them.
#[derive(PartialEq, Eq, Structural, Clone, Copy, Debug)]
pub enum BuildingAction {
    /// Drain the building's tip pool (its amount is already credited to the player).
    CollectTips,
    /// Append a floor of the given capacity.
    AppendFloor { capacity: usize },
    /// Append an elevator of the given capacity, with elevator 0's energy coefficients.
    AppendElevator { capacity: usize },
    /// Set the capacity of every floor.
    SetFloorCapacities { capacity: usize },
    /// Set the capacity of every elevator.
    SetElevatorCapacities { capacity: usize },
    /// Generate arriving occupants.
    GenerateArrivals,
    /// Generate departing occupants.
    GenerateDepartures,
    /// Move occupants out at the ground floor, adding their tips to the pool.
    FlushAndCollectTips,
    /// Board and alight occupants between floors and elevators.
    ExchangeOccupants,
    /// Let the elevator controller move the elevators once.
    RunElevatorControl,
    /// Add one tick to every waiting occupant's wait time.
    IncrementWaitTimes,
    /// Fold this tick's energy use into the running average at the given step.
    UpdateAverageEnergy { time_step: u64 },
    /// Recompute the per-floor destination probabilities.
    UpdateDestinationProbabilities,
}

impl BuildingAction {
    /// An effect of the player's command, as opposed to the building's own dynamics.
    pub open spec fn is_player_effect(self) -> bool {
        ||| self is CollectTips
        ||| self is AppendFloor
        ||| self is AppendElevator
        ||| self is SetFloorCapacities
        ||| self is SetElevatorCapacities
    }
}

/// `seq![a]` where `b` holds, else the empty sequence.
pub open spec fn when(b: bool, a: BuildingAction) -> Seq<BuildingAction> {
    if b {
        seq![a]
    } else {
        Seq::empty()
    }
}

/// The building's own phases of a tick at the given step: population,
/// movement, elevator control, then the bookkeeping that reads their outcome.
pub open spec fn movement_actions(time_step: u64) -> Seq<BuildingAction> {
    seq![
        BuildingAction::GenerateArrivals,
        BuildingAction::GenerateDepartures,
        BuildingAction::FlushAndCollectTips,
        BuildingAction::ExchangeOccupants,
        BuildingAction::RunElevatorControl,
        BuildingAction::IncrementWaitTimes,
        BuildingAction::UpdateAverageEnergy { time_step },
        BuildingAction::UpdateDestinationProbabilities,
    ]
}

/// A requested upgrade is bought when the funds cover its price (and its
/// purchase counter can still grow).
pub open spec fn buys(flag: bool, u: Upgrade, funds: int) -> bool {
    flag && funds >= u.cost() && u.num_buys() < usize::MAX
}

/// The funds after a purchase request: the price is deducted only when bought.
pub open spec fn pay(flag: bool, u: Upgrade, funds: int) -> int {
    if buys(flag, u, funds) {
        funds - u.cost()
    } else {
        funds
    }
}

/// `new` is `old` after one purchase where `bought`, else `old` unchanged.
pub open spec fn after_request(new: Upgrade, old: Upgrade, bought: bool) -> bool {
    if bought {
        new.purchased_from(old)
    } else {
        new == old
    }
}

/// Offers one purchase to a player holding `tips`: where the request is made
/// and affordable, buys the upgrade, deducts its price and records `action`.
fn offer(
    u: &mut Upgrade,
    flag: bool,
    tips: &mut u64,
    action: BuildingAction,
    actions: &mut Vec<BuildingAction>,
) -> (bought: bool)
    requires
        old(u).wf(),
        old(u).max_buys() == usize::MAX,
    ensures
        bought == buys(flag, *old(u), *old(tips) as int),
        *final(tips) == pay(flag, *old(u), *old(tips) as int),
        after_request(*final(u), *old(u), bought),
        final(u).wf(),
        final(u).max_buys() == usize::MAX,
        final(actions)@ == old(actions)@ + when(bought, action),
{
    if flag && u.is_enough(*tips) && u.get_num_buys() < usize::MAX {
        let cost = u.buy();
        *tips = *tips - cost;
        actions.push(action);
        assert(actions@ =~= old(actions)@ + when(true, action));
        true
    } else {
        assert(actions@ =~= old(actions)@ + when(false, action));
        false
    }
}

/// Phase two of a tick: the requested new floor, then the requested new
/// elevator, each bought where the funds left cover its price.
fn offer_growth(
    upgrades: &mut ElevatorGameUpgrades,
    input: ElevatorGameInput,
    reading: BuildingReading,
    tips: &mut u64,
    actions: &mut Vec<BuildingAction>,
) -> (bought: (bool, bool))
    requires
        old(upgrades).wf(),
    ensures
        final(upgrades).wf(),
        bought.0 == buys(input.append_floor, old(upgrades).append_floor.upgrade, *old(tips) as int),
        bought.1 == buys(
            input.append_elevator,
            old(upgrades).append_elevator.upgrade,
            pay(input.append_floor, old(upgrades).append_floor.upgrade, *old(tips) as int),
        ),
        *final(tips) == pay(
            input.append_elevator,
            old(upgrades).append_elevator.upgrade,
            pay(input.append_floor, old(upgrades).append_floor.upgrade, *old(tips) as int),
        ),
        after_request(final(upgrades).append_floor.upgrade, old(upgrades).append_floor.upgrade, bought.0),
        after_request(final(upgrades).append_elevator.upgrade, old(upgrades).append_elevator.upgrade, bought.1),
        final(upgrades).add_floor_capacity == old(upgrades).add_floor_capacity,
        final(upgrades).add_elevator_capacity == old(upgrades).add_elevator_capacity,
        final(upgrades).collect_tips == old(upgrades).collect_tips,
        final(actions)@ == old(actions)@ + when(
            bought.0,
            BuildingAction::AppendFloor { capacity: reading.first_floor_capacity },
        ) + when(
            bought.1,
            BuildingAction::AppendElevator { capacity: reading.first_elevator_capacity },
        ),
{
    let floor = offer(
        &mut upgrades.append_floor.upgrade,
        input.append_floor,
        tips,
        BuildingAction::AppendFloor { capacity: reading.first_floor_capacity },
        actions,
    );
    let elevator = offer(
        &mut upgrades.append_elevator.upgrade,
        input.append_elevator,
        tips,
        BuildingAction::AppendElevator { capacity: reading.first_elevator_capacity },
        actions,
    );
    (floor, elevator)
}

/// Phase three of a tick: the requested floor capacity raise, then the
/// requested elevator capacity raise, each bought where the funds left cover
/// its price.  A raise adds its step to the capacity of unit 0 and applies
/// the result to every unit.
fn offer_capacity(
    upgrades: &mut ElevatorGameUpgrades,
    input: ElevatorGameInput,
    reading: BuildingReading,
    tips: &mut u64,
    actions: &mut Vec<BuildingAction>,
) -> (bought: (bool, bool))
    requires
        old(upgrades).wf(),
        input.add_floor_capacity ==> reading.first_floor_capacity + FLOOR_CAPACITY_STEP <= usize::MAX,
        input.add_elevator_capacity ==> reading.first_elevator_capacity + ELEVATOR_CAPACITY_STEP <= usize::MAX,
    ensures
        final(upgrades).wf(),
        bought.0 == buys(input.add_floor_capacity, old(upgrades).add_floor_capacity.upgrade, *old(tips) as int),
        bought.1 == buys(
            input.add_elevator_capacity,
            old(upgrades).add_elevator_capacity.upgrade,
            pay(input.add_floor_capacity, old(upgrades).add_floor_capacity.upgrade, *old(tips) as int),
        ),
        *final(tips) == pay(
            input.add_elevator_capacity,
            old(upgrades).add_elevator_capacity.upgrade,
            pay(input.add_floor_capacity, old(upgrades).add_floor_capacity.upgrade, *old(tips) as int),
        ),
        after_request(final(upgrades).add_floor_capacity.upgrade, old(upgrades).add_floor_capacity.upgrade, bought.0),
        after_request(
            final(upgrades).add_elevator_capacity.upgrade,
            old(upgrades).add_elevator_capacity.upgrade,
            bought.1,
        ),
        final(upgrades).append_floor == old(upgrades).append_floor,
        final(upgrades).append_elevator == old(upgrades).append_elevator,
        final(upgrades).collect_tips == old(upgrades).collect_tips,
        final(actions)@ == old(actions)@ + when(
            bought.0,
            BuildingAction::SetFloorCapacities {
                capacity: (reading.first_floor_capacity + FLOOR_CAPACITY_STEP) as usize,
            },
        ) + when(
            bought.1,
            BuildingAction::SetElevatorCapacities {
                capacity: (reading.first_elevator_capacity + ELEVATOR_CAPACITY_STEP) as usize,
            },
        ),
{
    let floor_capacity = if input.add_floor_capacity {
        reading.first_floor_capacity + FLOOR_CAPACITY_STEP
    } else {
        0
    };
    let floors = offer(
        &mut upgrades.add_floor_capacity.upgrade,
        input.add_floor_capacity,
        tips,
        BuildingAction::SetFloorCapacities { capacity: floor_capacity },
        actions,
    );
    let elevator_capacity = if input.add_elevator_capacity {
        reading.first_elevator_capacity + ELEVATOR_CAPACITY_STEP
    } else {
        0
    };
    let elevators = offer(
        &mut upgrades.add_elevator_capacity.upgrade,
        input.add_elevator_capacity,
        tips,
        BuildingAction::SetElevatorCapacities { capacity: elevator_capacity },
        actions,
    );
    (floors, elevators)
}

/// Records the building's own phases of a tick at step `time_step`.
fn push_movement(actions: &mut Vec<BuildingAction>, time_step: u64)
    ensures
        final(actions)@ == old(actions)@ + movement_actions(time_step),
{
    actions.push(BuildingAction::GenerateArrivals);
    actions.push(BuildingAction::GenerateDepartures);
    actions.push(BuildingAction::FlushAndCollectTips);
    actions.push(BuildingAction::ExchangeOccupants);
    actions.push(BuildingAction::RunElevatorControl);
    actions.push(BuildingAction::IncrementWaitTimes);
    actions.push(BuildingAction::UpdateAverageEnergy { time_step });
    actions.push(BuildingAction::UpdateDestinationProbabilities);
    assert(actions@ =~= old(actions)@ + movement_actions(time_step));
}

/// The engine of one game: its upgrades, the tips the player holds (in
/// thousandths) and the number of ticks played.  The building itself is driven
/// through the actions that each tick returns.
pub struct ElevatorGame {
    upgrades: ElevatorGameUpgrades,
    tips: u64,
    time_steps: u64,
}

/// Upgrade data shown to the player.
pub struct UpgradeSummary {
    pub name: String,
    pub description: String,
    /// Current price, in thousandths of a tip.
    pub cost: u128,
}

/// The engine's part of the observable game state.
pub struct GameSummary {
    pub append_floor: UpgradeSummary,
    pub append_elevator: UpgradeSummary,
    /// Tips held by the player, in thousandths.
    pub collected_tips: u64,
}

/// `s` shows upgrade `u` as it stands.
pub open spec fn shows(s: UpgradeSummary, u: Upgrade) -> bool {
    &&& s.name@ == u.name()
    &&& s.description@ == u.description()
    &&& s.cost == u.cost()
}

impl ElevatorGame {
    pub closed spec fn upgrades(&self) -> ElevatorGameUpgrades {
        self.upgrades
    }

    /// Tips held by the player, in thousandths.
    pub closed spec fn tips(&self) -> nat {
        self.tips as nat
    }

    pub closed spec fn time_steps(&self) -> nat {
        self.time_steps as nat
    }

    pub open spec fn wf(&self) -> bool {
        self.upgrades().wf()
    }

    /// Funds after the tips are collected, the first phase of a tick.
    #[verifier::opaque]
    pub open spec fn funds_after_collect(&self, input: ElevatorGameInput, reading: BuildingReading) -> int {
        self.tips() + if input.collect_tips {
            reading.tip_pool as int
        } else {
            0
        }
    }

    #[verifier::opaque]
    pub open spec fn floor_bought(&self, input: ElevatorGameInput, reading: BuildingReading) -> bool {
        buys(input.append_floor, self.upgrades().append_floor.upgrade, self.funds_after_collect(input, reading))
    }

    #[verifier::opaque]
    pub open spec fn funds_after_floor(&self, input: ElevatorGameInput, reading: BuildingReading) -> int {
        pay(input.append_floor, self.upgrades().append_floor.upgrade, self.funds_after_collect(input, reading))
    }

    #[verifier::opaque]
    pub open spec fn elevator_bought(&self, input: ElevatorGameInput, reading: BuildingReading) -> bool {
        buys(input.append_elevator, self.upgrades().append_elevator.upgrade, self.funds_after_floor(input, reading))
    }

    #[verifier::opaque]
    pub open spec fn funds_after_elevator(&self, input: ElevatorGameInput, reading: BuildingReading) -> int {
        pay(input.append_elevator, self.upgrades().append_elevator.upgrade, self.funds_after_floor(input, reading))
    }

    #[verifier::opaque]
    pub open spec fn floor_capacity_bought(&self, input: ElevatorGameInput, reading: BuildingReading) -> bool {
        buys(
            input.add_floor_capacity,
            self.upgrades().add_floor_capacity.upgrade,
            self.funds_after_elevator(input, reading),
        )
    }

    #[verifier::opaque]
    pub open spec fn funds_after_floor_capacity(&self, input: ElevatorGameInput, reading: BuildingReading) -> int {
        pay(
            input.add_floor_capacity,
            self.upgrades().add_floor_capacity.upgrade,
            self.funds_after_elevator(input, reading),
        )
    }

    #[verifier::opaque]
    pub open spec fn elevator_capacity_bought(&self, input: ElevatorGameInput, reading: BuildingReading) -> bool {
        buys(
            input.add_elevator_capacity,
            self.upgrades().add_elevator_capacity.upgrade,
            self.funds_after_floor_capacity(input, reading),
        )
    }

    /// Funds at the end of a tick.
    #[verifier::opaque]
    pub open spec fn funds_after_tick(&self, input: ElevatorGameInput, reading: BuildingReading) -> int {
        pay(
            input.add_elevator_capacity,
            self.upgrades().add_elevator_capacity.upgrade,
            self.funds_after_floor_capacity(input, reading),
        )
    }

    /// The effects of the player's command on the building: collection, then
    /// new floor, new elevator, floor capacity and elevator capacity, each
    /// only where it was requested and bought.
    pub open spec fn player_actions(&self, input: ElevatorGameInput, reading: BuildingReading) -> Seq<BuildingAction> {
        when(input.collect_tips, BuildingAction::CollectTips)
            + when(
                self.floor_bought(input, reading),
                BuildingAction::AppendFloor { capacity: reading.first_floor_capacity },
            )
            + when(
                self.elevator_bought(input, reading),
                BuildingAction::AppendElevator { capacity: reading.first_elevator_capacity },
            )
            + when(
                self.floor_capacity_bought(input, reading),
                BuildingAction::SetFloorCapacities {
                    capacity: (reading.first_floor_capacity + FLOOR_CAPACITY_STEP) as usize,
                },
            )
            + when(
                self.elevator_capacity_bought(input, reading),
                BuildingAction::SetElevatorCapacities {
                    capacity: (reading.first_elevator_capacity + ELEVATOR_CAPACITY_STEP) as usize,
                },
            )
    }

    /// Every building call of one tick, in order.
    pub open spec fn tick_actions(&self, input: ElevatorGameInput, reading: BuildingReading) -> Seq<BuildingAction> {
        self.player_actions(input, reading) + movement_actions(self.time_steps() as u64)
    }

    /// A game that starts with the given upgrades, no tips and no tick played.
    pub fn from(upgrades: ElevatorGameUpgrades) -> (r: ElevatorGame)
        requires
            upgrades.wf(),
        ensures
            r.wf(),
            r.upgrades() == upgrades,
            r.tips() == 0,
            r.time_steps() == 0,
    {
        ElevatorGame { upgrades, tips: 0, time_steps: 0 }
    }

    /// Tips held by the player, in thousandths.
    pub fn get_tips(&self) -> (r: u64)
        ensures
            r == self.tips(),
    {
        self.tips
    }

    pub fn get_time_steps(&self) -> (r: u64)
        ensures
            r == self.time_steps(),
    {
        self.time_steps
    }

    pub fn get_upgrades(&self) -> (r: &ElevatorGameUpgrades)
        ensures
            *r == self.upgrades(),
    {
        &self.upgrades
    }

    /// Plays one tick of the command `input` on a building read as `reading`.
    /// Tips are collected first, from the pool as it stood before the tick; then
    /// each requested upgrade is bought, in the fixed order new floor, new
    /// elevator, floor capacity, elevator capacity, where the funds left cover
    /// its price (a request that cannot be paid is ignored).  Returns the
    /// building calls of the tick in order; the tick counter advances by one.
    pub fn update_game_state(&mut self, input: ElevatorGameInput, reading: BuildingReading) -> (actions: Vec<BuildingAction>)
        requires
            old(self).wf(),
            input.collect_tips ==> old(self).tips() + reading.tip_pool <= u64::MAX,
            input.add_floor_capacity ==> reading.first_floor_capacity + FLOOR_CAPACITY_STEP <= usize::MAX,
            input.add_elevator_capacity ==> reading.first_elevator_capacity + ELEVATOR_CAPACITY_STEP <= usize::MAX,
            old(self).time_steps() < u64::MAX,
        ensures
            final(self).wf(),
            actions@ == old(self).tick_actions(input, reading),
            final(self).tips() == old(self).funds_after_tick(input, reading),
            final(self).time_steps() == old(self).time_steps() + 1,
            final(self).upgrades().collect_tips == old(self).upgrades().collect_tips,
            after_request(
                final(self).upgrades().append_floor.upgrade,
                old(self).upgrades().append_floor.upgrade,
                old(self).floor_bought(input, reading),
            ),
            after_request(
                final(self).upgrades().append_elevator.upgrade,
                old(self).upgrades().append_elevator.upgrade,
                old(self).elevator_bought(input, reading),
            ),
            after_request(
                final(self).upgrades().add_floor_capacity.upgrade,
                old(self).upgrades().add_floor_capacity.upgrade,
                old(self).floor_capacity_bought(input, reading),
            ),
            after_request(
                final(self).upgrades().add_elevator_capacity.upgrade,
                old(self).upgrades().add_elevator_capacity.upgrade,
                old(self).elevator_capacity_bought(input, reading),
            ),
    {
        let ghost g = *old(self);
        let mut actions: Vec<BuildingAction> = Vec::new();
        let mut tips: u64 = self.tips;
        if input.collect_tips {
            tips = tips + reading.tip_pool;
            actions.push(BuildingAction::CollectTips);
        }
        assert(actions@ =~= when(input.collect_tips, BuildingAction::CollectTips));
        assert(tips == g.funds_after_collect(input, reading)) by {
            reveal(ElevatorGame::funds_after_collect);
        }

        let growth = offer_growth(&mut self.upgrades, input, reading, &mut tips, &mut actions);
        assert(tips == g.funds_after_elevator(input, reading) && growth.0 == g.floor_bought(input, reading)
            && growth.1 == g.elevator_bought(input, reading)) by {
            reveal(ElevatorGame::funds_after_floor);
            reveal(ElevatorGame::floor_bought);
            reveal(ElevatorGame::funds_after_elevator);
            reveal(ElevatorGame::elevator_bought);
        }
        let capacity = offer_capacity(&mut self.upgrades, input, reading, &mut tips, &mut actions);
        assert(tips == g.funds_after_tick(input, reading) && capacity.0 == g.floor_capacity_bought(input, reading)
            && capacity.1 == g.elevator_capacity_bought(input, reading)) by {
            reveal(ElevatorGame::funds_after_floor_capacity);
            reveal(ElevatorGame::floor_capacity_bought);
            reveal(ElevatorGame::funds_after_tick);
            reveal(ElevatorGame::elevator_capacity_bought);
        }
        self.tips = tips;
        assert(actions@ =~= g.player_actions(input, reading));

        push_movement(&mut actions, self.time_steps);
        assert(actions@ =~= g.tick_actions(input, reading));

        self.time_steps = self.time_steps + 1;
        actions
    }

    /// The engine's part of the game state: the new-floor and new-elevator
    /// upgrades as the player sees them, and the tips the player holds.  Reads
    /// the state only, so two calls with no tick between them agree.
    pub fn get_game_state(&self) -> (r: GameSummary)
        requires
            self.wf(),
        ensures
            shows(r.append_floor, self.upgrades().append_floor.upgrade),
            shows(r.append_elevator, self.upgrades().append_elevator.upgrade),
            r.collected_tips == self.tips(),
    {
        GameSummary {
            append_floor: summarize(&self.upgrades.append_floor.upgrade),
            append_elevator: summarize(&self.upgrades.append_elevator.upgrade),
            collected_tips: self.tips,
        }
    }
}

fn summarize(u: &Upgrade) -> (r: UpgradeSummary)
    requires
        u.wf(),
    ensures
        shows(r, *u),
{
    UpgradeSummary {
        name: u.get_name().to_owned(),
        description: u.get_description().to_owned(),
        cost: u.get_cost(),
    }
}

/// No `AppendFloor` call in `s`.
pub open spec fn no_floor_append(s: Seq<BuildingAction>) -> bool {
    forall|i: int| 0 <= i < s.len() ==> !(#[trigger] s[i] is AppendFloor)
}

/// No `AppendElevator` call in `s`.
pub open spec fn no_elevator_append(s: Seq<BuildingAction>) -> bool {
    forall|i: int| 0 <= i < s.len() ==> !(#[trigger] s[i] is AppendElevator)
}

/// No `SetFloorCapacities` call in `s`.
pub open spec fn no_floor_capacity_change(s: Seq<BuildingAction>) -> bool {
    forall|i: int| 0 <= i < s.len() ==> !(#[trigger] s[i] is SetFloorCapacities)
}

/// No `SetElevatorCapacities` call in `s`.
pub open spec fn no_elevator_capacity_change(s: Seq<BuildingAction>) -> bool {
    forall|i: int| 0 <= i < s.len() ==> !(#[trigger] s[i] is SetElevatorCapacities)
}

/// Funds are never overdrawn: when an upgrade is requested but the funds held
/// at its turn in the tick are below its price, it is not bought, the funds
/// stay as they were, and the tick makes no building call of that kind.
pub proof fn lemma_unaffordable_request_ignored(
    g: ElevatorGame,
    input: ElevatorGameInput,
    reading: BuildingReading,
)
    requires
        g.wf(),
    ensures
        g.funds_after_collect(input, reading) < g.upgrades().append_floor.upgrade.cost() ==> {
            &&& !g.floor_bought(input, reading)
            &&& g.funds_after_floor(input, reading) == g.funds_after_collect(input, reading)
            &&& no_floor_append(g.tick_actions(input, reading))
        },
        g.funds_after_floor(input, reading) < g.upgrades().append_elevator.upgrade.cost() ==> {
            &&& !g.elevator_bought(input, reading)
            &&& g.funds_after_elevator(input, reading) == g.funds_after_floor(input, reading)
            &&& no_elevator_append(g.tick_actions(input, reading))
        },
        g.funds_after_elevator(input, reading) < g.upgrades().add_floor_capacity.upgrade.cost() ==> {
            &&& !g.floor_capacity_bought(input, reading)
            &&& g.funds_after_floor_capacity(input, reading) == g.funds_after_elevator(input, reading)
            &&& no_floor_capacity_change(g.tick_actions(input, reading))
        },
        g.funds_after_floor_capacity(input, reading) < g.upgrades().add_elevator_capacity.upgrade.cost() ==> {
            &&& !g.elevator_capacity_bought(input, reading)
            &&& g.funds_after_tick(input, reading) == g.funds_after_floor_capacity(input, reading)
            &&& no_elevator_capacity_change(g.tick_actions(input, reading))
        },
{
    reveal(ElevatorGame::floor_bought);
    reveal(ElevatorGame::funds_after_floor);
    reveal(ElevatorGame::elevator_bought);
    reveal(ElevatorGame::funds_after_elevator);
    reveal(ElevatorGame::floor_capacity_bought);
    reveal(ElevatorGame::funds_after_floor_capacity);
    reveal(ElevatorGame::elevator_capacity_bought);
    reveal(ElevatorGame::funds_after_tick);
    let acts = g.tick_actions(input, reading);
    let p = g.player_actions(input, reading);
    let m = movement_actions(g.time_steps() as u64);
    assert(acts == p + m);
    assert forall|i: int| 0 <= i < acts.len() implies {
        &&& (!g.floor_bought(input, reading) ==> !(acts[i] is AppendFloor))
        &&& (!g.elevator_bought(input, reading) ==> !(acts[i] is AppendElevator))
        &&& (!g.floor_capacity_bought(input, reading) ==> !(acts[i] is SetFloorCapacities))
        &&& (!g.elevator_capacity_bought(input, reading) ==> !(acts[i] is SetElevatorCapacities))
    } by {
        lemma_player_actions_shape(g, input, reading);
        if i >= p.len() {
            assert(acts[i] == m[i - p.len()]);
        }
    }
}

/// Where each kind of player effect sits in the player's part of a tick.
proof fn lemma_player_actions_shape(g: ElevatorGame, input: ElevatorGameInput, reading: BuildingReading)
    ensures
        forall|i: int| 0 <= i < g.player_actions(input, reading).len() ==> {
            let a = #[trigger] g.player_actions(input, reading)[i];
            &&& a.is_player_effect()
            &&& (a is CollectTips ==> i == 0 && input.collect_tips)
            &&& (a is AppendFloor ==> g.floor_bought(input, reading))
            &&& (a is AppendElevator ==> g.elevator_bought(input, reading))
            &&& (a is SetFloorCapacities ==> g.floor_capacity_bought(input, reading))
            &&& (a is SetElevatorCapacities ==> g.elevator_capacity_bought(input, reading))
        },
        input.collect_tips ==> g.player_actions(input, reading)[0] == BuildingAction::CollectTips,
        input.collect_tips ==> g.player_actions(input, reading).len() > 0,
{
    let s0 = when(input.collect_tips, BuildingAction::CollectTips);
    let s1 = s0 + when(
        g.floor_bought(input, reading),
        BuildingAction::AppendFloor { capacity: reading.first_floor_capacity },
    );
    let s2 = s1 + when(
        g.elevator_bought(input, reading),
        BuildingAction::AppendElevator { capacity: reading.first_elevator_capacity },
    );
    let s3 = s2 + when(
        g.floor_capacity_bought(input, reading),
        BuildingAction::SetFloorCapacities {
            capacity: (reading.first_floor_capacity + FLOOR_CAPACITY_STEP) as usize,
        },
    );
    let s4 = s3 + when(
        g.elevator_capacity_bought(input, reading),
        BuildingAction::SetElevatorCapacities {
            capacity: (reading.first_elevator_capacity + ELEVATOR_CAPACITY_STEP) as usize,
        },
    );
    assert(g.player_actions(input, reading) == s4);
    assert forall|i: int| 0 <= i < s4.len() implies {
        let a = #[trigger] s4[i];
        &&& a.is_player_effect()
        &&& (a is CollectTips ==> i == 0 && input.collect_tips)
        &&& (a is AppendFloor ==> g.floor_bought(input, reading))
        &&& (a is AppendElevator ==> g.elevator_bought(input, reading))
        &&& (a is SetFloorCapacities ==> g.floor_capacity_bought(input, reading))
        &&& (a is SetElevatorCapacities ==> g.elevator_capacity_bought(input, reading))
    } by {
        if i < s3.len() {
            if i < s2.len() {
                if i < s1.len() {
                    if i < s0.len() {
                        assert(s4[i] == s0[i]);
                    } else {
                        assert(s4[i] == s1[i]);
                    }
                } else {
                    assert(s4[i] == s2[i]);
                }
            } else {
                assert(s4[i] == s3[i]);
            }
        }
    }
    if input.collect_tips {
        assert(s4[0] == s0[0]);
    }
}

/// The player's effects come first in a tick: every one of them precedes
/// every building phase, so tips are collected from the pool as it stood
/// before this tick's movement, which alone adds to the pool.
pub proof fn lemma_player_effects_precede_movement(
    g: ElevatorGame,
    input: ElevatorGameInput,
    reading: BuildingReading,
)
    ensures
        forall|i: int, j: int|
            0 <= i < g.tick_actions(input, reading).len() && 0 <= j < g.tick_actions(input, reading).len()
                && (#[trigger] g.tick_actions(input, reading)[i]).is_player_effect()
                && !(#[trigger] g.tick_actions(input, reading)[j]).is_player_effect() ==> i < j,
        forall|j: int|
            0 <= j < g.tick_actions(input, reading).len()
                && (#[trigger] g.tick_actions(input, reading)[j]) is FlushAndCollectTips
                ==> !g.tick_actions(input, reading)[j].is_player_effect(),
        input.collect_tips ==> g.tick_actions(input, reading)[0] == BuildingAction::CollectTips,
        g.funds_after_collect(input, reading) == g.tips() + if input.collect_tips {
            reading.tip_pool as int
        } else {
            0
        },
{
    reveal(ElevatorGame::funds_after_collect);
    lemma_player_actions_shape(g, input, reading);
    let acts = g.tick_actions(input, reading);
    let p = g.player_actions(input, reading);
    let m = movement_actions(g.time_steps() as u64);
    assert(acts == p + m);
    assert forall|k: int| 0 <= k < acts.len() implies (acts[k].is_player_effect() <==> k < p.len()) by {
        if k >= p.len() {
            assert(acts[k] == m[k - p.len()]);
        } else {
            assert(acts[k] == p[k]);
        }
    }
    if input.collect_tips {
        assert(acts[0] == p[0]);
    }
}

} // verus!
