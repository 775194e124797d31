use vstd::prelude::*;

use crate::units::{
    cash_ok, init_money, lemma_mul_bound, lots_ok, CommissionType, HALF_MONEY,
    MAX_INIT_CASH, MAX_LOT_COST, MAX_MULTIPLIER, MAX_PRICE, MAX_RATE, MONEY_SCALE, RATE_TO_MONEY,
};

verus! {

/// The account of one run, as mathematical values.
pub struct Account {
    /// Cash, in money units.
    pub cash: int,
    /// Lot count held after the last accepted target.
    pub lot: int,
    /// The last accepted target (fraction units, or lots).
    pub signal: int,
    /// Twice the last reference price (mid or close); zero before the first.
    pub ref2: int,
    /// Average open price, in money units per lot; `None` when flat.
    pub open_price: Option<int>,
    /// Realized profit net of fees, in money units.
    pub realized: int,
    /// Whether the last processed step was a contract rollover.
    pub rollover: bool,
}

/// The account of one run, owned by that run alone.
pub struct PositionState {
    pub cash: i128,
    pub last_lot: i128,
    pub last_signal: i64,
    pub last_ref2: i128,
    pub open_price: Option<i128>,
    pub realized: i128,
    pub last_rollover: bool,
}

impl View for PositionState {
    type V = Account;

    open spec fn view(&self) -> Account {
        Account {
            cash: self.cash as int,
            lot: self.last_lot as int,
            signal: self.last_signal as int,
            ref2: self.last_ref2 as int,
            open_price: match self.open_price {
                Some(p) => Some(p as int),
                None => None,
            },
            realized: self.realized as int,
            rollover: self.last_rollover,
        }
    }
}

/// The account at the start of a run.
pub open spec fn initial_account(init_cash: u64) -> Account {
    Account {
        cash: init_money(init_cash),
        lot: 0,
        signal: 0,
        ref2: 0,
        open_price: None,
        realized: 0,
        rollover: false,
    }
}

/// The ranges that an account stays within during a run.
pub open spec fn account_ok(a: Account) -> bool {
    &&& cash_ok(a.cash)
    &&& lots_ok(a.lot)
    &&& 0 <= a.ref2 <= 2 * MAX_PRICE
    &&& cash_ok(a.realized)
    &&& lots_ok(a.signal)
    &&& match a.open_price {
        Some(p) => 0 <= p <= MAX_PRICE * MONEY_SCALE,
        None => true,
    }
}

impl PositionState {
    /// A flat account holding `init_cash` currency units.
    pub fn new(init_cash: u64) -> (r: Self)
        requires
            init_cash <= MAX_INIT_CASH,
        ensures
            r@ == initial_account(init_cash),
            account_ok(r@),
    {
        PositionState {
            cash: (init_cash as i128) * MONEY_SCALE,
            last_lot: 0,
            last_signal: 0,
            last_ref2: 0,
            open_price: None,
            realized: 0,
            last_rollover: false,
        }
    }
}

/// Cost of trading one lot at twice-price `price2` when the quote gap
/// (ask minus bid) is `gap`: commission plus half the gap.
pub open spec fn lot_cost(
    commission: CommissionType,
    multiplier: int,
    rate: int,
    price2: int,
    gap: int,
) -> int {
    match commission {
        CommissionType::Percent => multiplier * (price2 * rate * (RATE_TO_MONEY / 2) + gap
            * HALF_MONEY),
        CommissionType::Absolute => rate * RATE_TO_MONEY + gap * multiplier * HALF_MONEY,
    }
}

pub(crate) fn lot_cost_of(
    commission: CommissionType,
    multiplier: i64,
    rate: i64,
    price2: i128,
    gap: i128,
) -> (r: i128)
    requires
        0 < multiplier <= MAX_MULTIPLIER,
        -MAX_RATE <= rate <= MAX_RATE,
        0 <= price2 <= 2 * MAX_PRICE,
        -MAX_PRICE <= gap <= MAX_PRICE,
    ensures
        r == lot_cost(commission, multiplier as int, rate as int, price2 as int, gap as int),
        -MAX_LOT_COST <= r <= MAX_LOT_COST,
{
    proof {
        lemma_mul_bound(price2 as int, rate as int, 2 * MAX_PRICE, MAX_RATE as int);
        lemma_mul_bound(gap as int, HALF_MONEY as int, MAX_PRICE as int, HALF_MONEY as int);
        lemma_mul_bound(gap as int, multiplier as int, MAX_PRICE as int, MAX_MULTIPLIER as int);
        lemma_mul_bound(
            gap * multiplier,
            HALF_MONEY as int,
            MAX_PRICE * MAX_MULTIPLIER,
            HALF_MONEY as int,
        );
        lemma_mul_bound(rate as int, RATE_TO_MONEY as int, MAX_RATE as int, RATE_TO_MONEY as int);
    }
    match commission {
        CommissionType::Percent => {
            let unit: i128 = price2 * (rate as i128) * (RATE_TO_MONEY / 2) + gap * HALF_MONEY;
            proof {
                lemma_mul_bound(
                    multiplier as int,
                    unit as int,
                    MAX_MULTIPLIER as int,
                    2 * MAX_PRICE * MAX_RATE * 5 + MAX_PRICE * HALF_MONEY,
                );
            }
            (multiplier as i128) * unit
        },
        CommissionType::Absolute => (rate as i128) * RATE_TO_MONEY + gap * (multiplier as i128)
            * HALF_MONEY,
    }
}

} // verus!
