use anchor_lang::prelude::Pubkey;
use diamondpad::{create_launch, initialize, DiamondPadError, LaunchStatus, Protocol};

fn wallet(n: u8) -> Pubkey {
    Pubkey::new_from_array([n; 32])
}

fn fresh_protocol() -> Protocol {
    initialize(wallet(1), 254)
}

fn attempt(
    protocol: &mut Protocol,
    name: &str,
    symbol: &str,
    dev_allocation_bps: u16,
    dev_vesting_days: u16,
    lp_lock_days: u16,
) -> Result<u64, DiamondPadError> {
    create_launch(
        protocol,
        wallet(2),
        name.to_string(),
        symbol.to_string(),
        1_000_000,
        dev_allocation_bps,
        dev_vesting_days,
        lp_lock_days,
        500,
        1_700_000_000,
        7,
    )
    .map(|(launch, _)| launch.launch_id)
}

#[test]
fn initialize_counts_nothing() {
    let protocol = initialize(wallet(9), 3);
    assert_eq!(protocol.authority, wallet(9));
    assert_eq!(protocol.total_launches, 0);
    assert_eq!(protocol.total_holders, 0);
    assert_eq!(protocol.total_bundlers_caught, 0);
    assert_eq!(protocol.bump, 3);
}

#[test]
fn create_launch_fills_the_record() {
    let mut protocol = fresh_protocol();
    let (launch, event) = create_launch(
        &mut protocol,
        wallet(2),
        "Diamond Hands".to_string(),
        "DMND".to_string(),
        1_000_000_000,
        1000,
        180,
        365,
        750,
        1_700_000_000,
        250,
    )
    .unwrap();
    assert_eq!(launch.creator, wallet(2));
    assert_eq!(launch.name, "Diamond Hands");
    assert_eq!(launch.symbol, "DMND");
    assert_eq!(launch.total_supply, 1_000_000_000);
    assert_eq!(launch.dev_allocation_bps, 1000);
    assert_eq!(launch.dev_vesting_days, 180);
    assert_eq!(launch.lp_lock_days, 365);
    assert_eq!(launch.holder_rewards_bps, 750);
    assert_eq!(launch.created_at, 1_700_000_000);
    assert_eq!(launch.launch_id, 0);
    assert_eq!(launch.status, LaunchStatus::Pending);
    assert_eq!(launch.total_raised, 0);
    assert_eq!(launch.holder_count, 0);
    assert_eq!(launch.bump, 250);
    assert_eq!(event.launch_id, 0);
    assert_eq!(event.creator, wallet(2));
    assert_eq!(event.name, "Diamond Hands");
    assert_eq!(event.symbol, "DMND");
    assert_eq!(event.total_supply, 1_000_000_000);
    assert_eq!(event.dev_allocation_bps, 1000);
    assert_eq!(event.dev_vesting_days, 180);
    assert_eq!(protocol.total_launches, 1);
    assert_eq!(protocol.authority, wallet(1));
    assert_eq!(protocol.total_holders, 0);
    assert_eq!(protocol.total_bundlers_caught, 0);
    assert_eq!(protocol.bump, 254);
}

#[test]
fn allocation_above_ten_percent_is_refused() {
    let mut protocol = fresh_protocol();
    assert_eq!(
        attempt(&mut protocol, "Token", "TKN", 1001, 180, 365),
        Err(DiamondPadError::DevAllocationTooHigh)
    );
    assert_eq!(protocol, fresh_protocol());
    assert_eq!(attempt(&mut protocol, "Token", "TKN", 0, 180, 365), Ok(0));
}

#[test]
fn short_vesting_is_refused() {
    let mut protocol = fresh_protocol();
    assert_eq!(
        attempt(&mut protocol, "Token", "TKN", 1000, 179, 365),
        Err(DiamondPadError::VestingTooShort)
    );
    assert_eq!(protocol, fresh_protocol());
    assert_eq!(attempt(&mut protocol, "Token", "TKN", 1000, u16::MAX, 365), Ok(0));
}

#[test]
fn short_lock_is_refused() {
    let mut protocol = fresh_protocol();
    assert_eq!(
        attempt(&mut protocol, "Token", "TKN", 1000, 180, 364),
        Err(DiamondPadError::LpLockTooShort)
    );
    assert_eq!(protocol, fresh_protocol());
    assert_eq!(attempt(&mut protocol, "Token", "TKN", 1000, 180, u16::MAX), Ok(0));
}

#[test]
fn long_name_is_refused() {
    let mut protocol = fresh_protocol();
    let name = "n".repeat(33);
    assert_eq!(
        attempt(&mut protocol, &name, "TKN", 1000, 180, 365),
        Err(DiamondPadError::NameTooLong)
    );
    assert_eq!(protocol, fresh_protocol());
    let name = "n".repeat(32);
    assert_eq!(attempt(&mut protocol, &name, "TKN", 1000, 180, 365), Ok(0));
}

#[test]
fn long_symbol_is_refused() {
    let mut protocol = fresh_protocol();
    assert_eq!(
        attempt(&mut protocol, "Token", "ELEVENCHARS", 1000, 180, 365),
        Err(DiamondPadError::SymbolTooLong)
    );
    assert_eq!(protocol, fresh_protocol());
    assert_eq!(attempt(&mut protocol, "Token", "TENLETTERS", 1000, 180, 365), Ok(0));
}

#[test]
fn empty_name_and_symbol_pass() {
    let mut protocol = fresh_protocol();
    assert_eq!(attempt(&mut protocol, "", "", 0, 180, 365), Ok(0));
}

#[test]
fn lengths_are_counted_in_bytes() {
    let mut protocol = fresh_protocol();
    let seventeen = "\u{e9}".repeat(17);
    assert_eq!(seventeen.chars().count(), 17);
    assert_eq!(
        attempt(&mut protocol, &seventeen, "TKN", 1000, 180, 365),
        Err(DiamondPadError::NameTooLong)
    );
    let sixteen = "\u{e9}".repeat(16);
    assert_eq!(attempt(&mut protocol, &sixteen, "TKN", 1000, 180, 365), Ok(0));
    let six = "\u{e9}".repeat(6);
    assert_eq!(
        attempt(&mut protocol, "Token", &six, 1000, 180, 365),
        Err(DiamondPadError::SymbolTooLong)
    );
    let five = "\u{e9}".repeat(5);
    assert_eq!(attempt(&mut protocol, "Token", &five, 1000, 180, 365), Ok(1));
}

#[test]
fn first_violation_is_the_one_reported() {
    let mut protocol = fresh_protocol();
    let name = "n".repeat(40);
    let symbol = "s".repeat(20);
    assert_eq!(
        attempt(&mut protocol, &name, &symbol, 2000, 1, 1),
        Err(DiamondPadError::DevAllocationTooHigh)
    );
    assert_eq!(
        attempt(&mut protocol, &name, &symbol, 1000, 1, 1),
        Err(DiamondPadError::VestingTooShort)
    );
    assert_eq!(
        attempt(&mut protocol, &name, &symbol, 1000, 180, 1),
        Err(DiamondPadError::LpLockTooShort)
    );
    assert_eq!(
        attempt(&mut protocol, &name, &symbol, 1000, 180, 365),
        Err(DiamondPadError::NameTooLong)
    );
    assert_eq!(
        attempt(&mut protocol, "Token", &symbol, 1000, 180, 365),
        Err(DiamondPadError::SymbolTooLong)
    );
    assert_eq!(protocol, fresh_protocol());
}

#[test]
fn launch_ids_count_the_successes() {
    let mut protocol = fresh_protocol();
    assert_eq!(attempt(&mut protocol, "First", "ONE", 1000, 180, 365), Ok(0));
    assert_eq!(protocol.total_launches, 1);
    assert_eq!(
        attempt(&mut protocol, "Refused", "NO", 1001, 180, 365),
        Err(DiamondPadError::DevAllocationTooHigh)
    );
    assert_eq!(protocol.total_launches, 1);
    assert_eq!(attempt(&mut protocol, "Second", "TWO", 500, 200, 400), Ok(1));
    assert_eq!(protocol.total_launches, 2);
    assert_eq!(
        attempt(&mut protocol, "Refused", "NO", 0, 0, 0),
        Err(DiamondPadError::VestingTooShort)
    );
    assert_eq!(attempt(&mut protocol, "Third", "THREE", 0, 180, 365), Ok(2));
    assert_eq!(protocol.total_launches, 3);
    let mut n: u64 = 3;
    while n < 50 {
        assert_eq!(attempt(&mut protocol, "More", "MORE", 10, 365, 730), Ok(n));
        n += 1;
        assert_eq!(protocol.total_launches, n);
    }
}

#[test]
fn full_launch_counter_is_an_overflow() {
    let mut protocol = fresh_protocol();
    protocol.total_launches = u64::MAX;
    let before = protocol;
    assert_eq!(
        attempt(&mut protocol, "Token", "TKN", 1000, 180, 365),
        Err(DiamondPadError::ArithmeticOverflow)
    );
    assert_eq!(protocol, before);
    assert_eq!(
        attempt(&mut protocol, "Token", "TKN", 1001, 180, 365),
        Err(DiamondPadError::DevAllocationTooHigh)
    );
    protocol.total_launches = u64::MAX - 1;
    assert_eq!(attempt(&mut protocol, "Token", "TKN", 1000, 180, 365), Ok(u64::MAX - 1));
    assert_eq!(protocol.total_launches, u64::MAX);
}
