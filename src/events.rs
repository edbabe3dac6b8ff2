use vstd::prelude::*;

use crate::address::Address;

verus! {

/// Reported when a token is created.
#[derive(Clone, Copy, Debug, PartialEq, Eq)]
pub struct InitializeEvent {
    pub token: Address,
    pub minter: Address,
    pub dev: Address,
    pub initial_price: u64,
    pub initial_next_price: u64,
}

/// Reported when a token is stolen; it carries every amount the steal settles.
#[derive(Clone, Copy, Debug, PartialEq, Eq)]
pub struct StealEvent {
    pub token: Address,
    pub previous_holder: Address,
    pub new_holder: Address,
    pub price_paid: u64,
    pub price_increase: u64,
    pub dev_fee: u64,
    pub minter_fee: u64,
    pub is_first_steal: bool,
    pub holder_payment: u64,
    pub refund_amount: u64,
    pub next_price: u64,
}

/// Reported when the holder hands the token on without payment.
#[derive(Clone, Copy, Debug, PartialEq, Eq)]
pub struct TransferEvent {
    pub token: Address,
    pub from: Address,
    pub to: Address,
    pub price: u64,
    pub next_price: u64,
}

/// One transfer of lamports from the stealer to `to`.
#[derive(Clone, Copy, Debug, PartialEq, Eq)]
pub struct Payment {
    pub to: Address,
    pub amount: u64,
}

} // verus!
