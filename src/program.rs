use vstd::prelude::*;

use vstd::utf8::encode_utf8;

use crate::address::{decoded_pubkey, parse_pubkey, Address};
use crate::events::{InitializeEvent, Payment, StealEvent, TransferEvent};
use crate::laws::{law_price_rises, lemma_cost_within_price};
use crate::token::{
    after_steal, calculation_of, cost_of, grown_price, steal_overflows, CustomToken, ErrorCode,
    BASIS_POINTS, MAX_INITIAL_PRICE, MAX_PRICE_MULTIPLIER, MIN_INITIAL_PRICE,
    MIN_PRICE_MULTIPLIER,
};

verus! {

/// The operator's key, in base58.
pub const DEV_ADDRESS: &'static str = "8BcW6T4Sm3tMtE9LJET1oU1vQec6m9R8LifnauQwshCi";

/// Longest name, in bytes.
pub const MAX_NAME_LEN: usize = 32;

/// Longest symbol, in bytes.
pub const MAX_SYMBOL_LEN: usize = 8;

/// Longest description, in bytes.
pub const MAX_DESCRIPTION_LEN: usize = 200;

/// Longest image reference, in bytes.
pub const MAX_IMAGE_LEN: usize = 200;

/// Length of a text in UTF-8 bytes, as `str::len` reports it.
pub open spec fn byte_len(s: Seq<char>) -> usize {
    encode_utf8(s).len() as usize
}

/// The first rule that the creation parameters break, checked in this order: name, symbol,
/// description, image, initial price, growth factor.
pub open spec fn parameter_error(
    name: Seq<char>,
    symbol: Seq<char>,
    description: Seq<char>,
    image: Seq<char>,
    initial_price: u64,
    price_increment: u64,
) -> Option<ErrorCode> {
    if byte_len(name) > MAX_NAME_LEN {
        Some(ErrorCode::NameTooLong)
    } else if byte_len(symbol) > MAX_SYMBOL_LEN {
        Some(ErrorCode::SymbolTooLong)
    } else if byte_len(description) > MAX_DESCRIPTION_LEN {
        Some(ErrorCode::DescriptionTooLong)
    } else if byte_len(image) > MAX_IMAGE_LEN {
        Some(ErrorCode::ImageUrlTooLong)
    } else if !(MIN_INITIAL_PRICE <= initial_price <= MAX_INITIAL_PRICE) {
        Some(ErrorCode::InvalidInitialPrice)
    } else if !(MIN_PRICE_MULTIPLIER <= price_increment <= MAX_PRICE_MULTIPLIER) {
        Some(ErrorCode::InvalidPriceIncrement)
    } else {
        None
    }
}

/// A fresh record: held by its minter, priced at `initial_price`, not stolen yet.
pub open spec fn initialized(
    minter: Address,
    dev: Address,
    name: String,
    symbol: String,
    description: String,
    image: String,
    initial_price: u64,
    price_increment: u64,
    bump: u8,
) -> CustomToken {
    CustomToken {
        name,
        symbol,
        description,
        image,
        current_holder: minter,
        minter,
        dev,
        current_price: initial_price,
        next_price: grown_price(initial_price, price_increment) as u64,
        price_increment,
        bump,
        first_steal_completed: false,
        previous_price: 0,
    }
}

/// What is reported on creation: the initial price and the record's next price, the initial
/// price grown by `price_increment`.
pub open spec fn initialize_event_of(
    token_key: Address,
    minter: Address,
    dev: Address,
    initial_price: u64,
    price_increment: u64,
) -> InitializeEvent {
    InitializeEvent {
        token: token_key,
        minter,
        dev,
        initial_price,
        initial_next_price: grown_price(initial_price, price_increment) as u64,
    }
}

/// What `amount` leaves over once `cost` is paid.
pub open spec fn refund_of(amount: u64, cost: int) -> int {
    if amount > cost {
        amount - cost
    } else {
        0
    }
}

/// What is reported when `stealer` takes `t` for `amount`. Its `price_increase` and
/// `is_first_steal` are read from the record after the steal: the gap between the new price and
/// the price just paid, and `false`.
pub open spec fn steal_event_of(
    t: CustomToken,
    token_key: Address,
    stealer: Address,
    amount: u64,
) -> StealEvent {
    let c = calculation_of(t.current_price, t.first_steal_completed);
    let next = after_steal(t, stealer);
    StealEvent {
        token: token_key,
        previous_holder: t.current_holder,
        new_holder: stealer,
        price_paid: amount,
        price_increase: (next.current_price - next.previous_price) as u64,
        dev_fee: c.dev_fee,
        minter_fee: c.minter_fee,
        is_first_steal: !next.first_steal_completed,
        holder_payment: c.holder_payment,
        refund_amount: refund_of(amount, cost_of(c)) as u64,
        next_price: next.next_price,
    }
}

/// The record after its holder hands it to `new_holder`.
pub open spec fn after_transfer(t: CustomToken, new_holder: Address) -> CustomToken {
    CustomToken { current_holder: new_holder, ..t }
}

/// A payment of `amount` to `to`, or none when the amount is zero.
pub open spec fn payment_if(to: Address, amount: u64) -> Seq<Payment> {
    if amount > 0 {
        seq![Payment { to, amount }]
    } else {
        seq![]
    }
}

/// The transfers a steal asks for, in order: holder, operator, minter, refund to the stealer;
/// zero amounts are left out.
pub open spec fn settlement_of(dev: Address, minter: Address, ev: StealEvent) -> Seq<Payment> {
    payment_if(ev.previous_holder, ev.holder_payment) + payment_if(dev, ev.dev_fee) + payment_if(
        minter,
        ev.minter_fee,
    ) + payment_if(ev.new_holder, ev.refund_amount)
}

/// The operator's key, decoded from `DEV_ADDRESS`.
pub fn dev_address() -> (r: Option<Address>)
    ensures
        match r {
            Some(a) => decoded_pubkey(DEV_ADDRESS@) == Some(a@),
            None => decoded_pubkey(DEV_ADDRESS@) is None,
        },
{
    parse_pubkey(DEV_ADDRESS)
}

/// Checks the creation parameters and reports the first rule they break.
pub fn validate_parameters(
    name: &str,
    symbol: &str,
    description: &str,
    image: &str,
    initial_price: u64,
    price_increment: u64,
) -> (r: Result<(), ErrorCode>)
    ensures
        match r {
            Ok(()) => parameter_error(
                name@,
                symbol@,
                description@,
                image@,
                initial_price,
                price_increment,
            ) is None,
            Err(e) => parameter_error(
                name@,
                symbol@,
                description@,
                image@,
                initial_price,
                price_increment,
            ) == Some(e),
        },
{
    if name.len() > MAX_NAME_LEN {
        return Err(ErrorCode::NameTooLong);
    }
    if symbol.len() > MAX_SYMBOL_LEN {
        return Err(ErrorCode::SymbolTooLong);
    }
    if description.len() > MAX_DESCRIPTION_LEN {
        return Err(ErrorCode::DescriptionTooLong);
    }
    if image.len() > MAX_IMAGE_LEN {
        return Err(ErrorCode::ImageUrlTooLong);
    }
    if !(MIN_INITIAL_PRICE <= initial_price && initial_price <= MAX_INITIAL_PRICE) {
        return Err(ErrorCode::InvalidInitialPrice);
    }
    if !(MIN_PRICE_MULTIPLIER <= price_increment && price_increment <= MAX_PRICE_MULTIPLIER) {
        return Err(ErrorCode::InvalidPriceIncrement);
    }
    Ok(())
}

/// Creates a record for the operator `operator`: checks the parameters, then that `dev` is that
/// operator, and builds the record held by `minter`.
pub fn initialize_for_operator(
    operator: &Address,
    token_key: Address,
    minter: Address,
    dev: Address,
    name: String,
    symbol: String,
    description: String,
    image: String,
    initial_price: u64,
    price_increment: u64,
    bump: u8,
) -> (r: Result<(CustomToken, InitializeEvent), ErrorCode>)
    ensures
        match r {
            Ok((t, ev)) => {
                &&& parameter_error(
                    name@,
                    symbol@,
                    description@,
                    image@,
                    initial_price,
                    price_increment,
                ) is None
                &&& dev@ == operator@
                &&& t == initialized(
                    minter,
                    dev,
                    name,
                    symbol,
                    description,
                    image,
                    initial_price,
                    price_increment,
                    bump,
                )
                &&& t.next_price == initial_price * price_increment / 10000
                &&& t.wf()
                &&& ev == initialize_event_of(token_key, minter, dev, initial_price, price_increment)
                &&& ev.initial_next_price == t.next_price
            },
            Err(e) => match parameter_error(
                name@,
                symbol@,
                description@,
                image@,
                initial_price,
                price_increment,
            ) {
                Some(p) => e == p,
                None => e == ErrorCode::InvalidDevAddress && dev@ != operator@,
            },
        },
{
    match validate_parameters(
        name.as_str(),
        symbol.as_str(),
        description.as_str(),
        image.as_str(),
        initial_price,
        price_increment,
    ) {
        Ok(()) => {},
        Err(e) => return Err(e),
    }
    if dev != *operator {
        return Err(ErrorCode::InvalidDevAddress);
    }
    assert(initial_price * price_increment <= 1_000_000_000 * 20000) by (nonlinear_arith)
        requires
            initial_price <= 1_000_000_000,
            price_increment <= 20000,
    ;
    let next_price = initial_price * price_increment / BASIS_POINTS;
    let event = InitializeEvent {
        token: token_key,
        minter,
        dev,
        initial_price,
        initial_next_price: next_price,
    };
    let token = CustomToken {
        name,
        symbol,
        description,
        image,
        current_holder: minter,
        minter,
        dev,
        current_price: initial_price,
        next_price,
        price_increment,
        bump,
        first_steal_completed: false,
        previous_price: 0,
    };
    Ok((token, event))
}

/// Creates a record for the operator whose key is `DEV_ADDRESS`.
pub fn initialize(
    token_key: Address,
    minter: Address,
    dev: Address,
    name: String,
    symbol: String,
    description: String,
    image: String,
    initial_price: u64,
    price_increment: u64,
    bump: u8,
) -> (r: Result<(CustomToken, InitializeEvent), ErrorCode>)
    ensures
        match r {
            Ok((t, ev)) => {
                &&& parameter_error(
                    name@,
                    symbol@,
                    description@,
                    image@,
                    initial_price,
                    price_increment,
                ) is None
                &&& decoded_pubkey(DEV_ADDRESS@) == Some(dev@)
                &&& t == initialized(
                    minter,
                    dev,
                    name,
                    symbol,
                    description,
                    image,
                    initial_price,
                    price_increment,
                    bump,
                )
                &&& t.next_price == initial_price * price_increment / 10000
                &&& t.wf()
                &&& ev == initialize_event_of(token_key, minter, dev, initial_price, price_increment)
                &&& ev.initial_next_price == t.next_price
            },
            Err(e) => match parameter_error(
                name@,
                symbol@,
                description@,
                image@,
                initial_price,
                price_increment,
            ) {
                Some(p) => e == p,
                None => e == ErrorCode::InvalidDevAddress && decoded_pubkey(DEV_ADDRESS@) != Some(
                    dev@,
                ),
            },
        },
{
    match dev_address() {
        Some(operator) => initialize_for_operator(
            &operator,
            token_key,
            minter,
            dev,
            name,
            symbol,
            description,
            image,
            initial_price,
            price_increment,
            bump,
        ),
        None => match validate_parameters(
            name.as_str(),
            symbol.as_str(),
            description.as_str(),
            image.as_str(),
            initial_price,
            price_increment,
        ) {
            Ok(()) => Err(ErrorCode::InvalidDevAddress),
            Err(e) => Err(e),
        },
    }
}

/// `stealer` takes the token for `amount`, which must cover the current price. The record
/// moves on as `process_steal` says, and the returned event carries the split and the refund
/// of what `amount` leaves over. On any error the record is left as it was.
pub fn steal(token: &mut CustomToken, token_key: Address, stealer: Address, amount: u64) -> (r:
    Result<StealEvent, ErrorCode>)
    requires
        old(token).wf(),
    ensures
        match r {
            Ok(ev) => {
                &&& old(token).current_price <= amount
                &&& !steal_overflows(*old(token))
                &&& *final(token) == after_steal(*old(token), stealer)
                &&& final(token).wf()
                &&& ev == steal_event_of(*old(token), token_key, stealer, amount)
            },
            Err(e) => {
                &&& *final(token) == *old(token)
                &&& amount < old(token).current_price ==> e == ErrorCode::InsufficientPayment
                &&& old(token).current_price <= amount ==> e == ErrorCode::NumericalOverflow
                    && steal_overflows(*old(token))
            },
        },
{
    if amount < token.current_price {
        return Err(ErrorCode::InsufficientPayment);
    }
    let ghost before = *token;
    let previous_holder = token.current_holder;
    let calc = match token.process_steal(stealer) {
        Ok(c) => c,
        Err(e) => return Err(e),
    };
    proof {
        lemma_cost_within_price(before.current_price, before.first_steal_completed);
        law_price_rises(before, stealer);
    }
    let total_cost = calc.holder_payment + calc.dev_fee + calc.minter_fee;
    let refund_amount = if amount > total_cost {
        amount - total_cost
    } else {
        0
    };
    Ok(
        StealEvent {
            token: token_key,
            previous_holder,
            new_holder: stealer,
            price_paid: amount,
            price_increase: token.current_price - token.previous_price,
            dev_fee: calc.dev_fee,
            minter_fee: calc.minter_fee,
            is_first_steal: !token.first_steal_completed,
            holder_payment: calc.holder_payment,
            refund_amount,
            next_price: token.next_price,
        },
    )
}

/// The holder `current_holder` hands the token to `new_holder`; prices stay as they are.
pub fn transfer(
    token: &mut CustomToken,
    token_key: Address,
    current_holder: Address,
    new_holder: Address,
) -> (r: Result<TransferEvent, ErrorCode>)
    ensures
        match r {
            Ok(ev) => {
                &&& current_holder@ == old(token).current_holder@
                &&& *final(token) == after_transfer(*old(token), new_holder)
                &&& ev == (TransferEvent {
                    token: token_key,
                    from: current_holder,
                    to: new_holder,
                    price: old(token).current_price,
                    next_price: old(token).next_price,
                })
            },
            Err(e) => {
                &&& e == ErrorCode::NotCurrentHolder
                &&& current_holder@ != old(token).current_holder@
                &&& *final(token) == *old(token)
            },
        },
{
    if current_holder != token.current_holder {
        return Err(ErrorCode::NotCurrentHolder);
    }
    token.current_holder = new_holder;
    Ok(
        TransferEvent {
            token: token_key,
            from: current_holder,
            to: new_holder,
            price: token.current_price,
            next_price: token.next_price,
        },
    )
}

/// The transfers that settle the steal reported by `event` on `token`: to the previous holder,
/// the operator, the minter, and the refund back to the stealer, each only when non-zero.
pub fn settlement(token: &CustomToken, event: &StealEvent) -> (r: Vec<Payment>)
    ensures
        r@ == settlement_of(token.dev, token.minter, *event),
{
    let mut payments: Vec<Payment> = Vec::new();
    if event.holder_payment > 0 {
        payments.push(Payment { to: event.previous_holder, amount: event.holder_payment });
    }
    if event.dev_fee > 0 {
        payments.push(Payment { to: token.dev, amount: event.dev_fee });
    }
    if event.minter_fee > 0 {
        payments.push(Payment { to: token.minter, amount: event.minter_fee });
    }
    if event.refund_amount > 0 {
        payments.push(Payment { to: event.new_holder, amount: event.refund_amount });
    }
    assert(payments@ =~= settlement_of(token.dev, token.minter, *event));
    payments
}

} // verus!
