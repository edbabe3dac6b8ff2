use vstd::prelude::*;

use crate::address::Address;
use crate::program::{refund_of, steal_event_of};
use crate::token::{
    after_steal, calculation_of, cost_of, dev_share, minter_share, steal_overflows, total_fee_of,
    CustomToken, FEE_BASIS_POINTS,
};

verus! {

/// What a stealer pays out under the split of `price` is at most `price`.
pub proof fn lemma_cost_within_price(price: u64, first_steal_completed: bool)
    requires
        !(first_steal_completed && price * FEE_BASIS_POINTS > u64::MAX),
    ensures
        0 <= cost_of(calculation_of(price, first_steal_completed)) <= price,
{
    if first_steal_completed {
        let total = total_fee_of(price);
        assert(0 <= total <= price) by (nonlinear_arith)
            requires
                total == price * 1000 / 10000,
        ;
        assert(total * 80 / 100 + total * 20 / 100 <= total) by (nonlinear_arith)
            requires
                total >= 0,
        ;
    }
}

/// A steal raises the price: on a well-formed record that a steal does not overflow, the price
/// after the steal is strictly greater, and the record stays well formed.
pub proof fn law_price_rises(t: CustomToken, stealer: Address)
    requires
        t.wf(),
        !steal_overflows(t),
    ensures
        after_steal(t, stealer).current_price > t.current_price,
        after_steal(t, stealer).wf(),
{
    let p = t.current_price as int;
    let k = t.price_increment as int;
    assert(p * k / 10000 > p) by (nonlinear_arith)
        requires
            p >= 100_000_000,
            k >= 12000,
    ;
}

/// The record after `stealers` take `t` in turn, or `None` once one of the steals overflows.
pub open spec fn after_steals(t: CustomToken, stealers: Seq<Address>) -> Option<CustomToken>
    decreases stealers.len(),
{
    if stealers.len() == 0 {
        Some(t)
    } else if steal_overflows(t) {
        None
    } else {
        after_steals(after_steal(t, stealers[0]), stealers.drop_first())
    }
}

/// Over any run of one or more successful steals of a well-formed record, the price ends
/// strictly higher than it started, and the record stays well formed.
pub proof fn law_prices_rise_along(t: CustomToken, stealers: Seq<Address>, u: CustomToken)
    requires
        t.wf(),
        stealers.len() > 0,
        after_steals(t, stealers) == Some(u),
    ensures
        u.current_price > t.current_price,
        u.wf(),
    decreases stealers.len(),
{
    let next = after_steal(t, stealers[0]);
    law_price_rises(t, stealers[0]);
    if stealers.len() > 1 {
        law_prices_rise_along(next, stealers.drop_first(), u);
    }
}

/// The first steal pays the holder nothing and halves the price (rounded down) between the
/// operator and the minter; afterwards the record counts its first steal as done.
pub proof fn law_first_steal_split(t: CustomToken, stealer: Address)
    requires
        !t.first_steal_completed,
    ensures
        calculation_of(t.current_price, t.first_steal_completed).holder_payment == 0,
        calculation_of(t.current_price, t.first_steal_completed).dev_fee == t.current_price / 2,
        calculation_of(t.current_price, t.first_steal_completed).minter_fee == t.current_price / 2,
        after_steal(t, stealer).first_steal_completed,
{
}

/// On every later steal the fee is a tenth of the price (rounded down), it is split 80:20
/// between operator and minter (each rounded down), the two shares add up to no more than the
/// fee, the fee is no more than the price, and the holder gets the price less the fee.
pub proof fn law_later_steal_split(price: u64)
    requires
        price * FEE_BASIS_POINTS <= u64::MAX,
    ensures
        ({
            let c = calculation_of(price, true);
            let total = total_fee_of(price);
            &&& c.dev_fee + c.minter_fee <= total <= price
            &&& c.dev_fee == dev_share(total)
            &&& c.minter_fee == minter_share(total)
            &&& c.holder_payment == price - total
        }),
{
    let total = total_fee_of(price);
    assert(0 <= total <= price) by (nonlinear_arith)
        requires
            total == price * 1000 / 10000,
    ;
    assert(total * 80 / 100 + total * 20 / 100 <= total) by (nonlinear_arith)
        requires
            total >= 0,
    ;
    assert(total * 80 / 100 <= u64::MAX) by (nonlinear_arith)
        requires
            0 <= total <= price,
            price <= u64::MAX,
    ;
}

/// A steal that succeeds refunds exactly what the amount tendered exceeds the cost by: the cost
/// is never more than the amount, and the refund is the difference.
pub proof fn law_refund_is_overpayment(
    t: CustomToken,
    token_key: Address,
    stealer: Address,
    amount: u64,
)
    requires
        t.wf(),
        t.current_price <= amount,
        !steal_overflows(t),
    ensures
        ({
            let c = calculation_of(t.current_price, t.first_steal_completed);
            let ev = steal_event_of(t, token_key, stealer, amount);
            &&& 0 <= cost_of(c) <= amount
            &&& ev.refund_amount == amount - cost_of(c)
            &&& ev.refund_amount == refund_of(amount, cost_of(c))
        }),
{
    lemma_cost_within_price(t.current_price, t.first_steal_completed);
}

} // verus!
