use vstd::prelude::*;

use crate::address::Address;

verus! {

/// Lowest price a token may be created at, in lamports.
pub const MIN_INITIAL_PRICE: u64 = 100_000_000;

/// Highest price a token may be created at, in lamports.
pub const MAX_INITIAL_PRICE: u64 = 1_000_000_000;

/// Smallest growth factor per steal, in basis points (1.2x).
pub const MIN_PRICE_MULTIPLIER: u64 = 12000;

/// Largest growth factor per steal, in basis points (2.0x).
pub const MAX_PRICE_MULTIPLIER: u64 = 20000;

/// One whole in basis points.
pub const BASIS_POINTS: u64 = 10000;

/// Share of the price taken as fees on every steal after the first, in basis points (10%).
pub const FEE_BASIS_POINTS: u64 = 1000;

/// Percent of the fee that goes to the operator.
pub const DEV_FEE_PERCENT: u64 = 80;

/// Percent of the fee that goes to the minter.
pub const MINTER_FEE_PERCENT: u64 = 20;

#[derive(Clone, Copy, Debug, PartialEq, Eq, Structural)]
pub enum ErrorCode {
    NameTooLong,
    SymbolTooLong,
    DescriptionTooLong,
    ImageUrlTooLong,
    InvalidInitialPrice,
    InsufficientPayment,
    NumericalOverflow,
    InvalidDevAddress,
    NotCurrentHolder,
    InvalidPriceIncrement,
}

/// The token record: its metadata, who holds it, and where its price stands.
#[derive(Clone, Debug, PartialEq, Eq)]
pub struct CustomToken {
    pub name: String,
    pub symbol: String,
    pub description: String,
    pub image: String,
    pub current_holder: Address,
    pub minter: Address,
    pub dev: Address,
    pub current_price: u64,
    pub next_price: u64,
    pub price_increment: u64,
    pub bump: u8,
    pub first_steal_completed: bool,
    pub previous_price: u64,
}

/// How the price of one steal is shared out.
#[derive(Clone, Copy, Debug, PartialEq, Eq, Structural)]
pub struct StealCalculation {
    pub dev_fee: u64,
    pub minter_fee: u64,
    pub holder_payment: u64,
}

/// `price` grown by `increment` basis points, rounded down.
pub open spec fn grown_price(price: u64, increment: u64) -> int {
    price * increment / (BASIS_POINTS as int)
}

/// The fee taken from `price` on a steal after the first, rounded down.
pub open spec fn total_fee_of(price: u64) -> int {
    price * FEE_BASIS_POINTS / (BASIS_POINTS as int)
}

/// The operator's part of a fee, rounded down.
pub open spec fn dev_share(total_fee: int) -> int {
    total_fee * DEV_FEE_PERCENT / 100
}

/// The minter's part of a fee, rounded down.
pub open spec fn minter_share(total_fee: int) -> int {
    total_fee * MINTER_FEE_PERCENT / 100
}

/// The split of a steal at `price`: the first steal gives half to the operator and half to
/// the minter; later ones take a tenth as fee (80% operator, 20% minter) and pay the rest to
/// the holder.
pub open spec fn calculation_of(price: u64, first_steal_completed: bool) -> StealCalculation {
    if !first_steal_completed {
        StealCalculation { dev_fee: price / 2, minter_fee: price / 2, holder_payment: 0 }
    } else {
        StealCalculation {
            dev_fee: dev_share(total_fee_of(price)) as u64,
            minter_fee: minter_share(total_fee_of(price)) as u64,
            holder_payment: (price - total_fee_of(price)) as u64,
        }
    }
}

/// Sum of what a stealer pays out under `c`.
pub open spec fn cost_of(c: StealCalculation) -> int {
    c.holder_payment + c.dev_fee + c.minter_fee
}

/// A steal of `t` does not fit in 64 bits: either the fee product or the next price overflows.
pub open spec fn steal_overflows(t: CustomToken) -> bool {
    ||| t.first_steal_completed && t.current_price * FEE_BASIS_POINTS > u64::MAX
    ||| t.next_price * t.price_increment > u64::MAX
}

/// The record after `stealer` has taken `t`.
pub open spec fn after_steal(t: CustomToken, stealer: Address) -> CustomToken {
    CustomToken {
        current_holder: stealer,
        previous_price: t.current_price,
        current_price: t.next_price,
        next_price: grown_price(t.next_price, t.price_increment) as u64,
        first_steal_completed: true,
        ..t
    }
}

impl CustomToken {
    /// The record's invariant: the price lies at or above the floor, grows by an allowed
    /// factor, and `next_price` is the grown current price.
    pub open spec fn wf(&self) -> bool {
        &&& MIN_INITIAL_PRICE <= self.current_price
        &&& MIN_PRICE_MULTIPLIER <= self.price_increment <= MAX_PRICE_MULTIPLIER
        &&& self.current_price * self.price_increment <= u64::MAX
        &&& self.next_price == grown_price(self.current_price, self.price_increment)
        &&& self.previous_price < self.current_price
        &&& !self.first_steal_completed ==> self.previous_price == 0
    }

    /// Whether the record satisfies its invariant.
    pub fn is_valid(&self) -> (r: bool)
        ensures
            r == self.wf(),
    {
        MIN_INITIAL_PRICE <= self.current_price && MIN_PRICE_MULTIPLIER <= self.price_increment
            && self.price_increment <= MAX_PRICE_MULTIPLIER && match self.current_price.checked_mul(
            self.price_increment,
        ) {
            Some(p) => self.next_price == p / BASIS_POINTS,
            None => false,
        } && self.previous_price < self.current_price && (self.first_steal_completed
            || self.previous_price == 0)
    }

    /// The price that follows the current one: `current_price * price_increment / 10000`.
    pub fn calculate_next_price(&self) -> (r: Result<u64, ErrorCode>)
        ensures
            match r {
                Ok(p) => self.current_price * self.price_increment <= u64::MAX && p == grown_price(
                    self.current_price,
                    self.price_increment,
                ),
                Err(e) => e == ErrorCode::NumericalOverflow && self.current_price
                    * self.price_increment > u64::MAX,
            },
    {
        grow(self.current_price, self.price_increment)
    }

    /// Shares out the current price and moves the record on to `stealer`: the price advances to
    /// `next_price`, a new `next_price` is computed, and the first steal is marked done. On
    /// overflow nothing changes.
    pub fn process_steal(&mut self, stealer: Address) -> (r: Result<StealCalculation, ErrorCode>)
        ensures
            match r {
                Ok(c) => {
                    &&& !steal_overflows(*old(self))
                    &&& c == calculation_of(old(self).current_price, old(self).first_steal_completed)
                    &&& *final(self) == after_steal(*old(self), stealer)
                },
                Err(e) => {
                    &&& e == ErrorCode::NumericalOverflow
                    &&& steal_overflows(*old(self))
                    &&& *final(self) == *old(self)
                },
            },
    {
        let calc = match split(self.current_price, self.first_steal_completed) {
            Ok(c) => c,
            Err(e) => return Err(e),
        };
        let new_next = match grow(self.next_price, self.price_increment) {
            Ok(p) => p,
            Err(e) => return Err(e),
        };
        self.previous_price = self.current_price;
        self.current_price = self.next_price;
        self.next_price = new_next;
        self.current_holder = stealer;
        self.first_steal_completed = true;
        Ok(calc)
    }
}

/// `price * increment / 10000`, or an overflow error when the product does not fit.
fn grow(price: u64, increment: u64) -> (r: Result<u64, ErrorCode>)
    ensures
        match r {
            Ok(p) => price * increment <= u64::MAX && p == grown_price(price, increment),
            Err(e) => e == ErrorCode::NumericalOverflow && price * increment > u64::MAX,
        },
{
    match price.checked_mul(increment) {
        Some(p) => Ok(p / BASIS_POINTS),
        None => Err(ErrorCode::NumericalOverflow),
    }
}

/// The split of a steal at `price`, or an overflow error when the fee product does not fit.
fn split(price: u64, first_steal_completed: bool) -> (r: Result<StealCalculation, ErrorCode>)
    ensures
        match r {
            Ok(c) => !(first_steal_completed && price * FEE_BASIS_POINTS > u64::MAX) && c
                == calculation_of(price, first_steal_completed),
            Err(e) => e == ErrorCode::NumericalOverflow && first_steal_completed && price
                * FEE_BASIS_POINTS > u64::MAX,
        },
{
    if !first_steal_completed {
        let half = price / 2;
        return Ok(StealCalculation { dev_fee: half, minter_fee: half, holder_payment: 0 });
    }
    let total_fee = match price.checked_mul(FEE_BASIS_POINTS) {
        Some(p) => p / BASIS_POINTS,
        None => return Err(ErrorCode::NumericalOverflow),
    };
    assert(total_fee <= price) by (nonlinear_arith)
        requires
            total_fee == price * 1000 / 10000,
    ;
    assert(total_fee * 80 <= u64::MAX) by (nonlinear_arith)
        requires
            total_fee <= price,
            price * 1000 <= u64::MAX,
    ;
    let dev_fee = total_fee * DEV_FEE_PERCENT / 100;
    let minter_fee = total_fee * MINTER_FEE_PERCENT / 100;
    let holder_payment = price - total_fee;
    Ok(StealCalculation { dev_fee, minter_fee, holder_payment })
}

} // verus!
