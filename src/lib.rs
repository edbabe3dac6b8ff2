//! A token whose custody anyone can take by paying its asking price: the price then grows by a
//! fixed factor, and each payment is split between the previous holder, the minter and the
//! operator. Every operation is checked for overflow and leaves the record untouched on error.

mod address;
mod events;
mod laws;
mod program;
mod token;

pub use address::{decoded_pubkey, Address};
pub use events::{InitializeEvent, Payment, StealEvent, TransferEvent};
pub use laws::{
    after_steals, law_first_steal_split, law_later_steal_split, law_price_rises,
    law_prices_rise_along, law_refund_is_overpayment, lemma_cost_within_price,
};
pub use program::{
    after_transfer, byte_len, dev_address, initialize, initialize_event_of,
    initialize_for_operator, initialized, parameter_error, payment_if, refund_of, settlement,
    settlement_of, steal, steal_event_of, transfer, validate_parameters, DEV_ADDRESS,
    MAX_DESCRIPTION_LEN, MAX_IMAGE_LEN, MAX_NAME_LEN, MAX_SYMBOL_LEN,
};
pub use token::{
    after_steal, calculation_of, cost_of, dev_share, grown_price, minter_share, steal_overflows,
    total_fee_of, CustomToken, ErrorCode, StealCalculation, BASIS_POINTS, DEV_FEE_PERCENT,
    FEE_BASIS_POINTS, MAX_INITIAL_PRICE, MAX_PRICE_MULTIPLIER, MINTER_FEE_PERCENT,
    MIN_INITIAL_PRICE, MIN_PRICE_MULTIPLIER,
};
