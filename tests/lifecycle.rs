use steal_token::{
    dev_address, initialize, initialize_for_operator, settlement, steal, transfer, validate_parameters,
    Address, CustomToken, ErrorCode, Payment, DEV_ADDRESS, MAX_INITIAL_PRICE, MIN_INITIAL_PRICE,
};

const DEV_BYTES: [u8; 32] = [
    106, 185, 194, 37, 129, 142, 149, 227, 129, 47, 97, 139, 135, 107, 23, 255, 67, 132, 151, 56,
    63, 42, 9, 203, 217, 109, 209, 161, 180, 168, 19, 87,
];

fn key(b: u8) -> Address {
    Address::new([b; 32])
}

fn dev() -> Address {
    Address::new(DEV_BYTES)
}

fn create(initial_price: u64, price_increment: u64) -> Result<CustomToken, ErrorCode> {
    initialize(
        key(9),
        key(1),
        dev(),
        "Steal me".to_string(),
        "STL".to_string(),
        "A token anyone can take".to_string(),
        "https://example.org/t.png".to_string(),
        initial_price,
        price_increment,
        254,
    )
    .map(|(t, _)| t)
}

#[test]
fn dev_address_decodes_to_key_bytes() {
    let a = dev_address().expect("the operator key decodes");
    assert_eq!(a.bytes, DEV_BYTES);
    assert_eq!(DEV_ADDRESS.len(), 44);
}

#[test]
fn initialize_sets_up_record() {
    let (t, ev) = initialize(
        key(9),
        key(1),
        dev(),
        "Steal me".to_string(),
        "STL".to_string(),
        "d".to_string(),
        "i".to_string(),
        100_000_000,
        12000,
        7,
    )
    .unwrap();
    assert_eq!(t.current_holder, key(1));
    assert_eq!(t.minter, key(1));
    assert_eq!(t.dev, dev());
    assert_eq!(t.current_price, 100_000_000);
    assert_eq!(t.next_price, 120_000_000);
    assert_eq!(t.price_increment, 12000);
    assert_eq!(t.bump, 7);
    assert!(!t.first_steal_completed);
    assert_eq!(t.previous_price, 0);
    assert!(t.is_valid());
    assert_eq!(ev.token, key(9));
    assert_eq!(ev.initial_price, 100_000_000);
    assert_eq!(ev.initial_next_price, 120_000_000);
}

#[test]
fn initial_next_price_follows_formula() {
    let t = create(1_000_000_000, 20000).unwrap();
    assert_eq!(t.next_price, 2_000_000_000);
    let t = create(123_456_789, 13333).unwrap();
    assert_eq!(t.next_price, 123_456_789u64 * 13333 / 10000);
    assert_eq!(t.next_price, 164_604_936);
}

#[test]
fn initialize_event_reports_next_price() {
    let (t, ev) = initialize(
        key(9),
        key(1),
        dev(),
        "n".to_string(),
        "s".to_string(),
        "d".to_string(),
        "i".to_string(),
        500_000_000,
        20000,
        0,
    )
    .unwrap();
    assert_eq!(t.next_price, 1_000_000_000);
    assert_eq!(ev.initial_next_price, 1_000_000_000);
    assert_eq!(ev.initial_next_price, t.next_price);
}

#[test]
fn initial_price_boundaries() {
    assert!(create(MIN_INITIAL_PRICE, 12000).is_ok());
    assert!(create(MAX_INITIAL_PRICE, 12000).is_ok());
    assert_eq!(create(99_999_999, 12000).unwrap_err(), ErrorCode::InvalidInitialPrice);
    assert_eq!(create(1_000_000_001, 12000).unwrap_err(), ErrorCode::InvalidInitialPrice);
}

#[test]
fn price_increment_boundaries() {
    assert!(create(MIN_INITIAL_PRICE, 12000).is_ok());
    assert!(create(MIN_INITIAL_PRICE, 20000).is_ok());
    assert_eq!(create(MIN_INITIAL_PRICE, 11999).unwrap_err(), ErrorCode::InvalidPriceIncrement);
    assert_eq!(create(MIN_INITIAL_PRICE, 20001).unwrap_err(), ErrorCode::InvalidPriceIncrement);
}

#[test]
fn metadata_length_errors() {
    let long = |n: usize| "x".repeat(n);
    assert_eq!(validate_parameters(&long(32), &long(8), &long(200), &long(200), MIN_INITIAL_PRICE, 12000), Ok(()));
    assert_eq!(validate_parameters(&long(33), "", "", "", MIN_INITIAL_PRICE, 12000), Err(ErrorCode::NameTooLong));
    assert_eq!(validate_parameters("", &long(9), "", "", MIN_INITIAL_PRICE, 12000), Err(ErrorCode::SymbolTooLong));
    assert_eq!(validate_parameters("", "", &long(201), "", MIN_INITIAL_PRICE, 12000), Err(ErrorCode::DescriptionTooLong));
    assert_eq!(validate_parameters("", "", "", &long(201), MIN_INITIAL_PRICE, 12000), Err(ErrorCode::ImageUrlTooLong));
    // lengths are counted in bytes: eleven three-byte characters are too long a name
    assert_eq!(validate_parameters(&"\u{20ac}".repeat(11), "", "", "", MIN_INITIAL_PRICE, 12000), Err(ErrorCode::NameTooLong));
    // the first broken rule is reported
    assert_eq!(validate_parameters(&long(33), &long(9), "", "", 0, 0), Err(ErrorCode::NameTooLong));
    assert_eq!(validate_parameters("", "", "", "", 0, 0), Err(ErrorCode::InvalidInitialPrice));
}

#[test]
fn initialize_rejects_other_operator() {
    let r = initialize(
        key(9),
        key(1),
        key(2),
        "n".to_string(),
        "s".to_string(),
        "d".to_string(),
        "i".to_string(),
        MIN_INITIAL_PRICE,
        12000,
        0,
    );
    assert_eq!(r.unwrap_err(), ErrorCode::InvalidDevAddress);
    // parameter errors come before the operator check
    let r = initialize(
        key(9),
        key(1),
        key(2),
        "n".to_string(),
        "s".to_string(),
        "d".to_string(),
        "i".to_string(),
        MIN_INITIAL_PRICE,
        30000,
        0,
    );
    assert_eq!(r.unwrap_err(), ErrorCode::InvalidPriceIncrement);
}

#[test]
fn initialize_for_injected_operator() {
    let op = key(42);
    let r = initialize_for_operator(
        &op,
        key(9),
        key(1),
        key(42),
        "n".to_string(),
        "s".to_string(),
        "d".to_string(),
        "i".to_string(),
        MIN_INITIAL_PRICE,
        15000,
        0,
    );
    let (t, _) = r.unwrap();
    assert_eq!(t.dev, key(42));
    assert_eq!(t.next_price, 150_000_000);
    let r = initialize_for_operator(
        &op,
        key(9),
        key(1),
        dev(),
        "n".to_string(),
        "s".to_string(),
        "d".to_string(),
        "i".to_string(),
        MIN_INITIAL_PRICE,
        15000,
        0,
    );
    assert_eq!(r.unwrap_err(), ErrorCode::InvalidDevAddress);
}

#[test]
fn transfer_moves_custody_only() {
    let mut t = create(MIN_INITIAL_PRICE, 12000).unwrap();
    let before = t.clone();
    let ev = transfer(&mut t, key(9), key(1), key(5)).unwrap();
    assert_eq!(t.current_holder, key(5));
    assert_eq!(t.current_price, before.current_price);
    assert_eq!(t.next_price, before.next_price);
    assert_eq!(t.first_steal_completed, before.first_steal_completed);
    assert_eq!(ev.from, key(1));
    assert_eq!(ev.to, key(5));
    assert_eq!(ev.price, 100_000_000);
    assert_eq!(ev.next_price, 120_000_000);
}

#[test]
fn transfer_by_non_holder_is_rejected() {
    let mut t = create(MIN_INITIAL_PRICE, 12000).unwrap();
    let before = t.clone();
    assert_eq!(transfer(&mut t, key(9), key(3), key(5)).unwrap_err(), ErrorCode::NotCurrentHolder);
    assert_eq!(t, before);
}

#[test]
fn settlement_lists_nonzero_payments() {
    let mut t = create(MIN_INITIAL_PRICE, 12000).unwrap();
    let ev = steal(&mut t, key(9), key(2), 100_000_001).unwrap();
    assert_eq!(
        settlement(&t, &ev),
        vec![
            Payment { to: dev(), amount: 50_000_000 },
            Payment { to: key(1), amount: 50_000_000 },
            Payment { to: key(2), amount: 1 },
        ]
    );
    let ev = steal(&mut t, key(9), key(3), 120_000_000).unwrap();
    assert_eq!(
        settlement(&t, &ev),
        vec![
            Payment { to: key(2), amount: 108_000_000 },
            Payment { to: dev(), amount: 9_600_000 },
            Payment { to: key(1), amount: 2_400_000 },
        ]
    );
}
