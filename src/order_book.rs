use vstd::prelude::*;

verus! {

/// An exact price: `num / den`. A `den` of zero stands for an undefined price
/// (the average over no volume at all).
#[derive(Clone, Copy, Debug, PartialEq, Eq, Structural)]
pub struct Price {
    pub num: u128,
    pub den: u64,
}

impl Price {
    /// The price as a pair of integers (numerator, denominator).
    pub open spec fn ratio(self) -> (int, int) {
        (self.num as int, self.den as int)
    }
}

/// A single level of the order book. A volume of zero marks an absent side.
#[derive(Clone, Copy, Debug, PartialEq, Eq, Structural, Default)]
pub struct OrderBookLevel {
    pub ask_price: u64,
    pub bid_price: u64,
    pub ask_volume: u32,
    pub bid_volume: u32,
}

/// Five levels of depth, best first.
#[derive(Clone, Copy, Debug, PartialEq, Eq, Structural, Default)]
pub struct OrderBook {
    pub level1: OrderBookLevel,
    pub level2: OrderBookLevel,
    pub level3: OrderBookLevel,
    pub level4: OrderBookLevel,
    pub level5: OrderBookLevel,
}

/// Total volume of the first `k` levels of a side, each level a
/// `(price, volume)` pair.
pub open spec fn volume_before(side: Seq<(int, int)>, k: int) -> int
    decreases k,
{
    if k <= 0 || side.len() == 0 {
        0
    } else if k > side.len() {
        volume_before(side, side.len() as int)
    } else {
        volume_before(side, k - 1) + side[k - 1].1
    }
}

/// Total notional (price times volume) of the first `k` levels of a side.
pub open spec fn amount_before(side: Seq<(int, int)>, k: int) -> int
    decreases k,
{
    if k <= 0 || side.len() == 0 {
        0
    } else if k > side.len() {
        amount_before(side, side.len() as int)
    } else {
        amount_before(side, k - 1) + side[k - 1].0 * side[k - 1].1
    }
}

/// The first level at or after `k` whose cumulative volume covers `v`, or the
/// number of levels when none does.
pub open spec fn covering_level(side: Seq<(int, int)>, v: int, k: int) -> int
    decreases side.len() - k,
{
    if k >= side.len() || k < 0 {
        side.len() as int
    } else if v <= volume_before(side, k + 1) {
        k
    } else {
        covering_level(side, v, k + 1)
    }
}

/// The result of filling volume `v` against one side of the book, walking
/// levels best first. `Ok((num, den))` is the volume-weighted price of the
/// fill (the best price itself when the best level covers `v`); `Err` holds
/// the average price over all levels and the total volume available.
pub open spec fn fill_price(side: Seq<(int, int)>, v: int) -> Result<(int, int), ((int, int), int)> {
    let k = covering_level(side, v, 0);
    if k == 0 {
        Ok((side[0].0, 1))
    } else if k < side.len() {
        Ok((amount_before(side, k) + (v - volume_before(side, k)) * side[k].0, v))
    } else {
        let total = volume_before(side, side.len() as int);
        Err(((amount_before(side, side.len() as int), total), total))
    }
}

/// The exact meaning of a fill result in terms of `Price` values.
pub open spec fn fill_matches(
    r: Result<Price, (Price, u64)>,
    s: Result<(int, int), ((int, int), int)>,
) -> bool {
    match (r, s) {
        (Ok(p), Ok(q)) => p.ratio() == q,
        (Err((p, a)), Err((q, b))) => p.ratio() == q && a as int == b,
        _ => false,
    }
}

proof fn lemma_volume_before_step(side: Seq<(int, int)>, k: int)
    requires
        0 <= k < side.len(),
    ensures
        volume_before(side, k + 1) == volume_before(side, k) + side[k].1,
        amount_before(side, k + 1) == amount_before(side, k) + side[k].0 * side[k].1,
{
}

proof fn lemma_volume_before_bounds(side: Seq<(int, int)>, k: int)
    requires
        0 <= k <= side.len(),
        forall|j: int| 0 <= j < side.len() ==> 0 <= #[trigger] side[j].1 <= u32::MAX && 0
            <= side[j].0 <= u64::MAX,
    ensures
        0 <= volume_before(side, k) <= k * u32::MAX,
        0 <= amount_before(side, k) <= k * (u64::MAX * u32::MAX),
    decreases k,
{
    if k > 0 {
        lemma_volume_before_bounds(side, k - 1);
        let p = side[k - 1].0;
        let q = side[k - 1].1;
        assert(0 <= p * q <= u64::MAX * u32::MAX) by (nonlinear_arith)
            requires
                0 <= p <= u64::MAX,
                0 <= q <= u32::MAX,
        ;
    }
}

/// Walks one side of the book, given as five `(price, volume)` pairs.
fn walk_side(levels: [(u64, u32); 5], volume: u64) -> (r: Result<Price, (Price, u64)>)
    ensures
        fill_matches(r, fill_price(side_of(levels@), volume as int)),
{
    let ghost side = side_of(levels@);
    let mut amount: u128 = 0;
    let mut available: u64 = 0;
    let mut i: usize = 0;
    proof {
        assert(side.len() == 5);
        assert forall|j: int| 0 <= j < side.len() implies 0 <= #[trigger] side[j].1 <= u32::MAX
            && 0 <= side[j].0 <= u64::MAX by {
            assert(side[j] == (levels@[j].0 as int, levels@[j].1 as int));
        }
    }
    while i < 5
        invariant
            0 <= i <= 5,
            side == side_of(levels@),
            side.len() == 5,
            forall|j: int| 0 <= j < side.len() ==> 0 <= #[trigger] side[j].1 <= u32::MAX && 0
                <= side[j].0 <= u64::MAX,
            amount as int == amount_before(side, i as int),
            available as int == volume_before(side, i as int),
            i > 0 ==> volume as int > volume_before(side, i as int),
            covering_level(side, volume as int, 0) == covering_level(side, volume as int, i as int),
        decreases 5 - i,
    {
        let (price, vol) = levels[i];
        proof {
            assert(side[i as int] == (price as int, vol as int));
            lemma_volume_before_step(side, i as int);
            lemma_volume_before_bounds(side, i as int);
        }
        let remaining: u64 = volume - available;
        if remaining <= vol as u64 {
            if i == 0 {
                return Ok(Price { num: price as u128, den: 1 });
            }
            proof {
                assert(remaining * price <= u32::MAX * u64::MAX) by (nonlinear_arith)
                    requires
                        remaining <= u32::MAX,
                        price <= u64::MAX,
                ;
            }
            let num: u128 = amount + (remaining as u128) * (price as u128);
            return Ok(Price { num, den: volume });
        }
        proof {
            assert(price * vol <= u64::MAX * u32::MAX) by (nonlinear_arith)
                requires
                    vol <= u32::MAX,
                    price <= u64::MAX,
            ;
        }
        amount = amount + (price as u128) * (vol as u128);
        available = available + vol as u64;
        i = i + 1;
    }
    proof {
        lemma_volume_before_bounds(side, 5);
    }
    Err((Price { num: amount, den: available }, available))
}

/// A side of the book as integer pairs.
pub open spec fn side_of(levels: Seq<(u64, u32)>) -> Seq<(int, int)> {
    Seq::new(levels.len(), |j: int| (levels[j].0 as int, levels[j].1 as int))
}

impl OrderBookLevel {
    /// A level with the given prices and volumes.
    pub fn new(ask_price: u64, bid_price: u64, ask_volume: u32, bid_volume: u32) -> (r: Self)
        ensures
            r == (OrderBookLevel { ask_price, bid_price, ask_volume, bid_volume }),
    {
        OrderBookLevel { ask_price, bid_price, ask_volume, bid_volume }
    }

    /// The notional offered at this level: ask price times ask volume.
    pub fn ask_amt(&self) -> (r: u128)
        ensures
            r == self.ask_price as int * self.ask_volume as int,
    {
        proof {
            assert(self.ask_price * self.ask_volume <= u64::MAX * u32::MAX) by (nonlinear_arith)
                requires
                    self.ask_volume <= u32::MAX,
                    self.ask_price <= u64::MAX,
            ;
        }
        (self.ask_price as u128) * (self.ask_volume as u128)
    }

    /// The notional bid at this level: bid price times bid volume.
    pub fn bid_amt(&self) -> (r: u128)
        ensures
            r == self.bid_price as int * self.bid_volume as int,
    {
        proof {
            assert(self.bid_price * self.bid_volume <= u64::MAX * u32::MAX) by (nonlinear_arith)
                requires
                    self.bid_volume <= u32::MAX,
                    self.bid_price <= u64::MAX,
            ;
        }
        (self.bid_price as u128) * (self.bid_volume as u128)
    }
}

impl OrderBook {
    /// A book from its five levels, best first.
    pub fn new(
        level1: OrderBookLevel,
        level2: OrderBookLevel,
        level3: OrderBookLevel,
        level4: OrderBookLevel,
        level5: OrderBookLevel,
    ) -> (r: Self)
        ensures
            r == (OrderBook { level1, level2, level3, level4, level5 }),
    {
        OrderBook { level1, level2, level3, level4, level5 }
    }

    /// The ask side as `(price, volume)` pairs, best first.
    pub open spec fn ask_side(self) -> Seq<(int, int)> {
        seq![
            (self.level1.ask_price as int, self.level1.ask_volume as int),
            (self.level2.ask_price as int, self.level2.ask_volume as int),
            (self.level3.ask_price as int, self.level3.ask_volume as int),
            (self.level4.ask_price as int, self.level4.ask_volume as int),
            (self.level5.ask_price as int, self.level5.ask_volume as int),
        ]
    }

    /// The bid side as `(price, volume)` pairs, best first.
    pub open spec fn bid_side(self) -> Seq<(int, int)> {
        seq![
            (self.level1.bid_price as int, self.level1.bid_volume as int),
            (self.level2.bid_price as int, self.level2.bid_volume as int),
            (self.level3.bid_price as int, self.level3.bid_volume as int),
            (self.level4.bid_price as int, self.level4.bid_volume as int),
            (self.level5.bid_price as int, self.level5.bid_volume as int),
        ]
    }

    /// The price of buying `volume` against the asks. `Err` carries the average
    /// price over all five levels and the volume they hold, when that volume
    /// falls short of `volume`.
    pub fn get_buy_price(&self, volume: u64) -> (r: Result<Price, (Price, u64)>)
        ensures
            fill_matches(r, fill_price(self.ask_side(), volume as int)),
            volume <= self.level1.ask_volume ==> r == Ok::<Price, (Price, u64)>(
                Price { num: self.level1.ask_price as u128, den: 1 },
            ),
    {
        let levels: [(u64, u32); 5] = [
            (self.level1.ask_price, self.level1.ask_volume),
            (self.level2.ask_price, self.level2.ask_volume),
            (self.level3.ask_price, self.level3.ask_volume),
            (self.level4.ask_price, self.level4.ask_volume),
            (self.level5.ask_price, self.level5.ask_volume),
        ];
        proof {
            assert(side_of(levels@) =~= self.ask_side());
            let ghost side = self.ask_side();
            assert(volume_before(side, 0) == 0);
            assert(side[0] == (self.level1.ask_price as int, self.level1.ask_volume as int));
            assert(volume_before(side, 1) == self.level1.ask_volume);
        }
        walk_side(levels, volume)
    }

    /// The price of selling `volume` against the bids. `Err` carries the
    /// average price over all five levels and the volume they hold, when that
    /// volume falls short of `volume`.
    pub fn get_sell_price(&self, volume: u64) -> (r: Result<Price, (Price, u64)>)
        ensures
            fill_matches(r, fill_price(self.bid_side(), volume as int)),
            volume <= self.level1.bid_volume ==> r == Ok::<Price, (Price, u64)>(
                Price { num: self.level1.bid_price as u128, den: 1 },
            ),
    {
        let levels: [(u64, u32); 5] = [
            (self.level1.bid_price, self.level1.bid_volume),
            (self.level2.bid_price, self.level2.bid_volume),
            (self.level3.bid_price, self.level3.bid_volume),
            (self.level4.bid_price, self.level4.bid_volume),
            (self.level5.bid_price, self.level5.bid_volume),
        ];
        proof {
            assert(side_of(levels@) =~= self.bid_side());
            let ghost side = self.bid_side();
            assert(volume_before(side, 0) == 0);
            assert(side[0] == (self.level1.bid_price as int, self.level1.bid_volume as int));
            assert(volume_before(side, 1) == self.level1.bid_volume);
        }
        walk_side(levels, volume)
    }
}

impl From<(u64, u64, u32, u32)> for OrderBookLevel {
    /// A level from `(ask_price, bid_price, ask_volume, bid_volume)`.
    fn from(v: (u64, u64, u32, u32)) -> (r: OrderBookLevel)
        ensures
            r == (OrderBookLevel { ask_price: v.0, bid_price: v.1, ask_volume: v.2, bid_volume: v.3 }),
    {
        OrderBookLevel { ask_price: v.0, bid_price: v.1, ask_volume: v.2, bid_volume: v.3 }
    }
}

impl vstd::std_specs::convert::FromSpecImpl<(u64, u64, u32, u32)> for OrderBookLevel {
    open spec fn obeys_from_spec() -> bool {
        true
    }

    open spec fn from_spec(v: (u64, u64, u32, u32)) -> OrderBookLevel {
        OrderBookLevel { ask_price: v.0, bid_price: v.1, ask_volume: v.2, bid_volume: v.3 }
    }
}

impl From<(u64, u64)> for OrderBookLevel {
    /// A level from `(ask_price, bid_price)` with no volume on either side.
    fn from(v: (u64, u64)) -> (r: OrderBookLevel)
        ensures
            r == (OrderBookLevel { ask_price: v.0, bid_price: v.1, ask_volume: 0, bid_volume: 0 }),
    {
        OrderBookLevel { ask_price: v.0, bid_price: v.1, ask_volume: 0, bid_volume: 0 }
    }
}

impl vstd::std_specs::convert::FromSpecImpl<(u64, u64)> for OrderBookLevel {
    open spec fn obeys_from_spec() -> bool {
        true
    }

    open spec fn from_spec(v: (u64, u64)) -> OrderBookLevel {
        OrderBookLevel { ask_price: v.0, bid_price: v.1, ask_volume: 0, bid_volume: 0 }
    }
}

pub open spec fn empty_level() -> OrderBookLevel {
    OrderBookLevel { ask_price: 0, bid_price: 0, ask_volume: 0, bid_volume: 0 }
}

fn absent_level() -> (r: OrderBookLevel)
    ensures
        r == empty_level(),
{
    OrderBookLevel { ask_price: 0, bid_price: 0, ask_volume: 0, bid_volume: 0 }
}

impl From<OrderBookLevel> for OrderBook {
    /// A book whose only level is `level`.
    fn from(level: OrderBookLevel) -> (r: OrderBook)
        ensures
            r == (OrderBook {
                level1: level,
                level2: empty_level(),
                level3: empty_level(),
                level4: empty_level(),
                level5: empty_level(),
            }),
    {
        OrderBook {
            level1: level,
            level2: absent_level(),
            level3: absent_level(),
            level4: absent_level(),
            level5: absent_level(),
        }
    }
}

impl vstd::std_specs::convert::FromSpecImpl<OrderBookLevel> for OrderBook {
    open spec fn obeys_from_spec() -> bool {
        true
    }

    open spec fn from_spec(level: OrderBookLevel) -> OrderBook {
        OrderBook {
            level1: level,
            level2: empty_level(),
            level3: empty_level(),
            level4: empty_level(),
            level5: empty_level(),
        }
    }
}

impl From<(OrderBookLevel, OrderBookLevel, OrderBookLevel, OrderBookLevel, OrderBookLevel)> for OrderBook {
    /// A book from its five levels, best first.
    fn from(v: (OrderBookLevel, OrderBookLevel, OrderBookLevel, OrderBookLevel, OrderBookLevel)) -> (r: OrderBook)
        ensures
            r == (OrderBook { level1: v.0, level2: v.1, level3: v.2, level4: v.3, level5: v.4 }),
    {
        OrderBook { level1: v.0, level2: v.1, level3: v.2, level4: v.3, level5: v.4 }
    }
}

impl vstd::std_specs::convert::FromSpecImpl<(OrderBookLevel, OrderBookLevel, OrderBookLevel, OrderBookLevel, OrderBookLevel)> for OrderBook {
    open spec fn obeys_from_spec() -> bool {
        true
    }

    open spec fn from_spec(
        v: (OrderBookLevel, OrderBookLevel, OrderBookLevel, OrderBookLevel, OrderBookLevel),
    ) -> OrderBook {
        OrderBook { level1: v.0, level2: v.1, level3: v.2, level4: v.3, level5: v.4 }
    }
}

} // verus!
