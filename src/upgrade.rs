use vstd::prelude::*;

verus! {

/// Money is counted in thousandths of a tip: an amount `m` stands for `m / SCALE` tips.
pub const SCALE: u64 = 1000;

/// Largest value the cached growth term of a well-formed upgrade can reach: a
/// term no larger than a money amount, grown once by a factor whose numerator is a `u32`.
pub const TERM_BOUND: u128 = 0xffff_ffff_ffff_ffff * 0xffff_ffff;

/// `growth^n` in thousandths of a tip, where `growth == num / den`.  Each step
/// multiplies by `num` and then divides by `den`, dropping the remainder.
pub open spec fn growth_term(num: nat, den: nat, n: nat) -> nat
    decreases n,
{
    if n == 0 {
        SCALE as nat
    } else {
        growth_term(num, den, (n - 1) as nat) * num / den
    }
}

/// Price of the `n`-th purchase (counting from zero) of an upgrade with base cost
/// `base` whole tips and growth factor `num / den`: `base + growth^n`, in thousandths.
pub open spec fn price_at(base: nat, num: nat, den: nat, n: nat) -> nat {
    base * (SCALE as nat) + growth_term(num, den, n)
}

/// With a growth factor of at least one, the growth term never shrinks from one
/// purchase to the next.
pub proof fn lemma_growth_term_step(num: nat, den: nat, n: nat)
    requires
        0 < den <= num,
    ensures
        growth_term(num, den, n) <= growth_term(num, den, n + 1),
{
    let t = growth_term(num, den, n);
    assert(growth_term(num, den, n + 1) == t * num / den);
    assert(t * den <= t * num) by (nonlinear_arith)
        requires
            den <= num,
    ;
    assert(t * den / den == t) by (nonlinear_arith)
        requires
            den > 0,
    ;
    vstd::arithmetic::div_mod::lemma_div_is_ordered((t * den) as int, (t * num) as int, den as int);
}

/// The price of an upgrade is non-decreasing in the number of purchases made:
/// for any two purchase counts `m <= n`, the `m`-th price is at most the `n`-th.
pub proof fn lemma_price_non_decreasing(base: nat, num: nat, den: nat, m: nat, n: nat)
    requires
        0 < den <= num,
        m <= n,
    ensures
        price_at(base, num, den, m) <= price_at(base, num, den, n),
    decreases n - m,
{
    if m < n {
        lemma_price_non_decreasing(base, num, den, m, (n - 1) as nat);
        lemma_growth_term_step(num, den, (n - 1) as nat);
    }
}

/// What the game can ask of any upgrade.
pub trait ElevatorGameUpgrade {
    /// The upgrade's invariant.
    spec fn ready(&self) -> bool;

    /// Current price, in thousandths of a tip.
    spec fn price(&self) -> nat;

    /// Purchase ceiling.
    spec fn ceiling(&self) -> nat;

    /// Whether one more purchase may be recorded.
    spec fn purchasable(&self) -> bool;

    spec fn title(&self) -> Seq<char>;

    spec fn blurb(&self) -> Seq<char>;

    /// The current price.
    fn get_cost(&self) -> (r: u128)
        requires
            self.ready(),
        ensures
            r == self.price(),
    ;

    /// Whether `money` covers the current price.
    fn is_enough(&self, money: u64) -> (r: bool)
        requires
            self.ready(),
        ensures
            r == (money >= self.price()),
    ;

    fn get_max_buys(&self) -> (r: usize)
        ensures
            r == self.ceiling(),
    ;

    fn get_name(&self) -> (r: &str)
        ensures
            r@ == self.title(),
    ;

    fn get_description(&self) -> (r: &str)
        ensures
            r@ == self.blurb(),
    ;

    /// Records one purchase and returns the price it was bought at.  The
    /// price never falls.
    fn buy(&mut self) -> (cost: u64)
        requires
            old(self).ready(),
            old(self).purchasable(),
        ensures
            cost == old(self).price(),
            final(self).ready(),
            old(self).price() <= final(self).price(),
    ;
}

/// A purchasable effect whose price grows with the number of times it was bought.
pub struct Upgrade {
    base_cost: u64,
    growth_num: u32,
    growth_den: u32,
    num_buys: usize,
    max_buys: usize,
    term: u128,
    name: String,
    description: String,
}

impl Upgrade {
    /// Base cost, in whole tips.
    pub closed spec fn base_cost(&self) -> nat {
        self.base_cost as nat
    }

    /// Numerator of the growth factor.
    pub closed spec fn growth_num(&self) -> nat {
        self.growth_num as nat
    }

    /// Denominator of the growth factor.
    pub closed spec fn growth_den(&self) -> nat {
        self.growth_den as nat
    }

    pub closed spec fn num_buys(&self) -> nat {
        self.num_buys as nat
    }

    pub closed spec fn max_buys(&self) -> nat {
        self.max_buys as nat
    }

    pub closed spec fn name(&self) -> Seq<char> {
        self.name@
    }

    pub closed spec fn description(&self) -> Seq<char> {
        self.description@
    }

    pub closed spec fn wf(&self) -> bool {
        &&& 0 < self.growth_den < self.growth_num
        &&& self.term == growth_term(self.growth_num as nat, self.growth_den as nat, self.num_buys as nat)
        &&& self.term <= TERM_BOUND
    }

    /// The current price, in thousandths of a tip.
    pub open spec fn cost(&self) -> nat {
        price_at(self.base_cost(), self.growth_num(), self.growth_den(), self.num_buys())
    }

    /// A never-bought upgrade with the given price curve and no purchase ceiling.
    pub open spec fn is_fresh(&self, base_cost: nat, growth_num: nat, growth_den: nat) -> bool {
        &&& self.wf()
        &&& self.base_cost() == base_cost
        &&& self.growth_num() == growth_num
        &&& self.growth_den() == growth_den
        &&& self.num_buys() == 0
        &&& self.max_buys() == usize::MAX
    }

    /// `self` is `old` after one more purchase.
    pub open spec fn purchased_from(&self, old: Upgrade) -> bool {
        &&& self.base_cost() == old.base_cost()
        &&& self.growth_num() == old.growth_num()
        &&& self.growth_den() == old.growth_den()
        &&& self.max_buys() == old.max_buys()
        &&& self.name() == old.name()
        &&& self.description() == old.description()
        &&& self.num_buys() == old.num_buys() + 1
        &&& self.wf()
    }

    /// A fresh upgrade with base cost `base_cost` whole tips and growth factor
    /// `growth_num / growth_den`, never bought, with no purchase ceiling.
    pub fn new(
        base_cost: u64,
        growth_num: u32,
        growth_den: u32,
        name: String,
        description: String,
    ) -> (r: Upgrade)
        requires
            0 < growth_den < growth_num,
        ensures
            r.wf(),
            r.base_cost() == base_cost,
            r.growth_num() == growth_num,
            r.growth_den() == growth_den,
            r.num_buys() == 0,
            r.max_buys() == usize::MAX,
            r.name() == name@,
            r.description() == description@,
            r.cost() == base_cost * SCALE + SCALE,
    {
        Upgrade {
            base_cost,
            growth_num,
            growth_den,
            num_buys: 0,
            max_buys: usize::MAX,
            term: SCALE as u128,
            name,
            description,
        }
    }

    pub fn get_num_buys(&self) -> (r: usize)
        ensures
            r == self.num_buys(),
    {
        self.num_buys
    }
}

impl ElevatorGameUpgrade for Upgrade {
    open spec fn ready(&self) -> bool {
        self.wf()
    }

    open spec fn price(&self) -> nat {
        self.cost()
    }

    open spec fn ceiling(&self) -> nat {
        self.max_buys()
    }

    /// Not past the ceiling, with a counter that can grow and a price that is
    /// an amount of money.
    open spec fn purchasable(&self) -> bool {
        &&& self.num_buys() <= self.max_buys()
        &&& self.num_buys() < usize::MAX
        &&& self.cost() <= u64::MAX
    }

    open spec fn title(&self) -> Seq<char> {
        self.name()
    }

    open spec fn blurb(&self) -> Seq<char> {
        self.description()
    }

    /// The current price, `base_cost + growth^num_buys`, in thousandths of a tip.
    fn get_cost(&self) -> u128 {
        let base = self.base_cost as u128;
        assert(base * 1000 <= 0xffff_ffff_ffff_ffffu128 * 1000) by (nonlinear_arith)
            requires
                base <= u64::MAX,
        ;
        base * SCALE as u128 + self.term
    }

    /// Whether `money` covers the current price.
    fn is_enough(&self, money: u64) -> bool {
        money as u128 >= self.get_cost()
    }

    fn get_max_buys(&self) -> usize {
        self.max_buys
    }

    fn get_name(&self) -> &str {
        self.name.as_str()
    }

    fn get_description(&self) -> &str {
        self.description.as_str()
    }

    /// Records one purchase and returns the price it was bought at (the price
    /// before the purchase).  Funds are the caller's business: it checks
    /// `is_enough` first and deducts the returned price itself.  Buying past the
    /// purchase ceiling is a caller defect and is excluded by the precondition.
    fn buy(&mut self) -> (cost: u64)
        ensures
            final(self).purchased_from(*old(self)),
    {
        let cost = self.get_cost();
        let num = self.growth_num as u128;
        let den = self.growth_den as u128;
        let t = self.term;
        proof {
            let ti = t as int;
            let ni = num as int;
            let di = den as int;
            assert(ti <= u64::MAX);
            assert(ti * ni <= 0xffff_ffff_ffff_ffffu128 * 0xffff_ffffu128) by (nonlinear_arith)
                requires
                    ti <= u64::MAX,
                    0 <= ni <= u32::MAX,
                    0 <= ti,
            ;
            assert(ti * ni / di <= ti * ni) by (nonlinear_arith)
                requires
                    di > 0,
                    ti >= 0,
                    ni >= 0,
            ;
            assert(growth_term(num as nat, den as nat, (self.num_buys + 1) as nat) == ti * ni / di);
        }
        self.term = t * num / den;
        self.num_buys = self.num_buys + 1;
        proof {
            lemma_growth_term_step(num as nat, den as nat, old(self).num_buys());
        }
        cost as u64
    }
}

/// Collecting tips: always available, free, and unlimited.
pub struct CollectTipsUpgrade {
    name: String,
    description: String,
}

impl CollectTipsUpgrade {
    pub closed spec fn name(&self) -> Seq<char> {
        self.name@
    }

    pub closed spec fn description(&self) -> Seq<char> {
        self.description@
    }

    pub fn new() -> (r: CollectTipsUpgrade)
        ensures
            r.name() == "Collect Tips"@,
            r.description() == "Collect the tips accumulated by your building"@,
    {
        CollectTipsUpgrade {
            name: "Collect Tips".to_owned(),
            description: "Collect the tips accumulated by your building".to_owned(),
        }
    }
}

impl ElevatorGameUpgrade for CollectTipsUpgrade {
    open spec fn ready(&self) -> bool {
        true
    }

    /// Collecting is free.
    open spec fn price(&self) -> nat {
        0
    }

    open spec fn ceiling(&self) -> nat {
        usize::MAX as nat
    }

    open spec fn purchasable(&self) -> bool {
        true
    }

    open spec fn title(&self) -> Seq<char> {
        self.name()
    }

    open spec fn blurb(&self) -> Seq<char> {
        self.description()
    }

    fn get_cost(&self) -> u128 {
        0
    }

    fn is_enough(&self, _money: u64) -> bool {
        true
    }

    fn get_max_buys(&self) -> usize {
        usize::MAX
    }

    fn get_name(&self) -> &str {
        self.name.as_str()
    }

    fn get_description(&self) -> &str {
        self.description.as_str()
    }

    fn buy(&mut self) -> (cost: u64)
        ensures
            *final(self) == *old(self),
    {
        0
    }
}

/// Adds one floor to the building, configured like its first floor.
pub struct AppendFloorUpgrade {
    pub upgrade: Upgrade,
}

impl AppendFloorUpgrade {
    pub fn new(base_cost: u64, growth_num: u32, growth_den: u32) -> (r: AppendFloorUpgrade)
        requires
            0 < growth_den < growth_num,
        ensures
            r.upgrade.is_fresh(base_cost as nat, growth_num as nat, growth_den as nat),
            r.upgrade.name() == "Add Floor"@,
            r.upgrade.description() == "Adds a new floor to your building"@,
    {
        AppendFloorUpgrade {
            upgrade: Upgrade::new(
                base_cost,
                growth_num,
                growth_den,
                "Add Floor".to_owned(),
                "Adds a new floor to your building".to_owned(),
            ),
        }
    }
}

/// Adds one elevator to the building, configured like its first elevator.
pub struct AppendElevatorUpgrade {
    pub upgrade: Upgrade,
}

impl AppendElevatorUpgrade {
    pub fn new(base_cost: u64, growth_num: u32, growth_den: u32) -> (r: AppendElevatorUpgrade)
        requires
            0 < growth_den < growth_num,
        ensures
            r.upgrade.is_fresh(base_cost as nat, growth_num as nat, growth_den as nat),
            r.upgrade.name() == "Add Elevator"@,
            r.upgrade.description() == "Adds a new elevator to your building"@,
    {
        AppendElevatorUpgrade {
            upgrade: Upgrade::new(
                base_cost,
                growth_num,
                growth_den,
                "Add Elevator".to_owned(),
                "Adds a new elevator to your building".to_owned(),
            ),
        }
    }
}

/// Raises the capacity of every floor.
pub struct AddFloorCapacityUpgrade {
    pub upgrade: Upgrade,
}

impl AddFloorCapacityUpgrade {
    pub fn new(base_cost: u64, growth_num: u32, growth_den: u32) -> (r: AddFloorCapacityUpgrade)
        requires
            0 < growth_den < growth_num,
        ensures
            r.upgrade.is_fresh(base_cost as nat, growth_num as nat, growth_den as nat),
            r.upgrade.name() == "Add Floor Capacity"@,
            r.upgrade.description() == "Adds more capacity to your floors"@,
    {
        AddFloorCapacityUpgrade {
            upgrade: Upgrade::new(
                base_cost,
                growth_num,
                growth_den,
                "Add Floor Capacity".to_owned(),
                "Adds more capacity to your floors".to_owned(),
            ),
        }
    }
}

/// Raises the capacity of every elevator.
pub struct AddElevatorCapacityUpgrade {
    pub upgrade: Upgrade,
}

impl AddElevatorCapacityUpgrade {
    pub fn new(base_cost: u64, growth_num: u32, growth_den: u32) -> (r: AddElevatorCapacityUpgrade)
        requires
            0 < growth_den < growth_num,
        ensures
            r.upgrade.is_fresh(base_cost as nat, growth_num as nat, growth_den as nat),
            r.upgrade.name() == "Add Elevator Capacity"@,
            r.upgrade.description() == "Adds more capacity to your elevators"@,
    {
        AddElevatorCapacityUpgrade {
            upgrade: Upgrade::new(
                base_cost,
                growth_num,
                growth_den,
                "Add Elevator Capacity".to_owned(),
                "Adds more capacity to your elevators".to_owned(),
            ),
        }
    }
}

/// The fixed set of upgrades of one game, one per kind.
pub struct ElevatorGameUpgrades {
    pub collect_tips: CollectTipsUpgrade,
    pub append_floor: AppendFloorUpgrade,
    pub append_elevator: AppendElevatorUpgrade,
    pub add_floor_capacity: AddFloorCapacityUpgrade,
    pub add_elevator_capacity: AddElevatorCapacityUpgrade,
}

impl ElevatorGameUpgrades {
    /// Every priced upgrade is well formed and has no purchase ceiling.
    pub open spec fn wf(&self) -> bool {
        &&& self.append_floor.upgrade.wf()
        &&& self.append_elevator.upgrade.wf()
        &&& self.add_floor_capacity.upgrade.wf()
        &&& self.add_elevator_capacity.upgrade.wf()
        &&& self.append_floor.upgrade.max_buys() == usize::MAX
        &&& self.append_elevator.upgrade.max_buys() == usize::MAX
        &&& self.add_floor_capacity.upgrade.max_buys() == usize::MAX
        &&& self.add_elevator_capacity.upgrade.max_buys() == usize::MAX
    }

    /// The catalog a game starts with: adding a floor costs 10 tips with growth 1.5,
    /// adding an elevator 100 with growth 1.9, and each capacity raise 10 with growth 1.1.
    pub fn new() -> (r: ElevatorGameUpgrades)
        ensures
            r.wf(),
            r.append_floor.upgrade.is_fresh(10, 3, 2),
            r.append_elevator.upgrade.is_fresh(100, 19, 10),
            r.add_floor_capacity.upgrade.is_fresh(10, 11, 10),
            r.add_elevator_capacity.upgrade.is_fresh(10, 11, 10),
            r.collect_tips.name() == "Collect Tips"@,
            r.collect_tips.description() == "Collect the tips accumulated by your building"@,
            r.append_floor.upgrade.name() == "Add Floor"@,
            r.append_floor.upgrade.description() == "Adds a new floor to your building"@,
            r.append_elevator.upgrade.name() == "Add Elevator"@,
            r.append_elevator.upgrade.description() == "Adds a new elevator to your building"@,
            r.add_floor_capacity.upgrade.name() == "Add Floor Capacity"@,
            r.add_floor_capacity.upgrade.description() == "Adds more capacity to your floors"@,
            r.add_elevator_capacity.upgrade.name() == "Add Elevator Capacity"@,
            r.add_elevator_capacity.upgrade.description() == "Adds more capacity to your elevators"@,
    {
        ElevatorGameUpgrades {
            collect_tips: CollectTipsUpgrade::new(),
            append_floor: AppendFloorUpgrade::new(10, 3, 2),
            append_elevator: AppendElevatorUpgrade::new(100, 19, 10),
            add_floor_capacity: AddFloorCapacityUpgrade::new(10, 11, 10),
            add_elevator_capacity: AddElevatorCapacityUpgrade::new(10, 11, 10),
        }
    }
}

/// No upgrade of a well-formed catalog is past its purchase ceiling, so the
/// ceiling precondition of `Upgrade::buy` always holds for them: every catalog
/// upgrade has no ceiling at all.
pub proof fn lemma_catalog_within_ceiling(c: ElevatorGameUpgrades)
    requires
        c.wf(),
    ensures
        c.append_floor.upgrade.num_buys() <= c.append_floor.upgrade.max_buys(),
        c.append_elevator.upgrade.num_buys() <= c.append_elevator.upgrade.max_buys(),
        c.add_floor_capacity.upgrade.num_buys() <= c.add_floor_capacity.upgrade.max_buys(),
        c.add_elevator_capacity.upgrade.num_buys() <= c.add_elevator_capacity.upgrade.max_buys(),
{
}

} // verus!
