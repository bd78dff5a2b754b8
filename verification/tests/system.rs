use ledger_state::system::{Config, Pallet};

struct TestConfig;

impl Config for TestConfig {
    type BlockNumber = u32;
    type AccountId = u32;
    type Nonce = u32;
}

struct WideConfig;

impl Config for WideConfig {
    type BlockNumber = u128;
    type AccountId = String;
    type Nonce = u64;
}

struct NarrowConfig;

impl Config for NarrowConfig {
    type BlockNumber = u8;
    type AccountId = usize;
    type Nonce = u16;
}

#[test]
fn init_system() {
    let mut system = Pallet::<TestConfig>::new();
    assert_eq!(system.block_number(), 0);
    assert_eq!(system.nonce(&1), 0);

    system.inc_block_number();
    assert_eq!(system.block_number(), 1);

    system.inc_nonce(&1);
    assert_eq!(system.nonce(&1), 1);
}

#[test]
fn init_nonce() {
    let mut system = Pallet::<TestConfig>::new();

    system.inc_nonce(&1);
    assert_eq!(system.nonce(&1), 1);
    system.inc_nonce(&1);
    assert_eq!(system.nonce(&1), 2);
}

#[test]
fn init_inc_block_numb() {
    let mut system = Pallet::<TestConfig>::new();
    system.inc_block_number();
}

#[test]
fn unknown_account_has_nonce_zero() {
    let mut system = Pallet::<TestConfig>::new();
    assert_eq!(system.nonce(&0), 0);
    assert_eq!(system.nonce(&u32::MAX), 0);
    system.inc_nonce(&7);
    assert_eq!(system.nonce(&8), 0);
}

#[test]
fn block_number_counts_increments() {
    let mut system = Pallet::<TestConfig>::new();
    let mut n: u32 = 0;
    while n < 1000 {
        assert_eq!(system.block_number(), n);
        system.inc_block_number();
        n += 1;
    }
    assert_eq!(system.block_number(), 1000);
}

#[test]
fn nonce_counts_increments() {
    let mut system = Pallet::<TestConfig>::new();
    let mut n: u32 = 0;
    while n < 25 {
        assert_eq!(system.nonce(&3), n);
        system.inc_nonce(&3);
        n += 1;
    }
    assert_eq!(system.nonce(&3), 25);
}

#[test]
fn inc_nonce_leaves_other_accounts() {
    let mut system = Pallet::<TestConfig>::new();
    system.inc_nonce(&1);
    system.inc_nonce(&1);
    system.inc_nonce(&2);
    assert_eq!(system.nonce(&1), 2);
    assert_eq!(system.nonce(&2), 1);
    system.inc_nonce(&2);
    system.inc_nonce(&2);
    assert_eq!(system.nonce(&1), 2);
    assert_eq!(system.nonce(&2), 3);
    assert_eq!(system.nonce(&3), 0);
}

#[test]
fn counters_do_not_touch_each_other() {
    let mut system = Pallet::<TestConfig>::new();
    system.inc_nonce(&1);
    assert_eq!(system.block_number(), 0);
    system.inc_block_number();
    system.inc_block_number();
    assert_eq!(system.nonce(&1), 1);
    assert_eq!(system.block_number(), 2);
}

#[test]
fn system_over_other_types() {
    let mut system = Pallet::<WideConfig>::new();
    assert_eq!(system.block_number(), 0u128);
    assert_eq!(system.nonce(&"Alice".to_string()), 0u64);
    system.inc_block_number();
    system.inc_block_number();
    system.inc_block_number();
    system.inc_nonce(&"Alice".to_string());
    system.inc_nonce(&"Bob".to_string());
    system.inc_nonce(&"Alice".to_string());
    assert_eq!(system.block_number(), 3u128);
    assert_eq!(system.nonce(&"Alice".to_string()), 2u64);
    assert_eq!(system.nonce(&"Bob".to_string()), 1u64);
    assert_eq!(system.nonce(&"Carol".to_string()), 0u64);
}

#[test]
fn block_number_reaches_the_largest_value() {
    let mut system = Pallet::<NarrowConfig>::new();
    let mut n: u8 = 0;
    while n < u8::MAX {
        system.inc_block_number();
        n += 1;
    }
    assert_eq!(system.block_number(), u8::MAX);
    system.inc_nonce(&9);
    assert_eq!(system.nonce(&9), 1u16);
    assert_eq!(system.nonce(&8), 0u16);
}
