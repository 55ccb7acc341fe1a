use kitchen::balances_s::Traitz;
use kitchen::origin::{ensure_signed, BadOrigin, Origin};
use kitchen::shared_balance::{DispatchError, Error, Event, Module, DEFAULT_TOTAL_SUPPLY};

fn initialized(owner: u64) -> Module {
    let mut m = Module::new();
    assert_eq!(m.init(Origin::Signed(owner)), Ok(()));
    m
}

#[test]
fn genesis_state() {
    let m = Module::new();
    assert_eq!(m.total_supply(), 21_000_000);
    assert_eq!(DEFAULT_TOTAL_SUPPLY, 21_000_000);
    assert!(!m.is_init());
    assert_eq!(m.get_balance(0), 0);
    assert_eq!(m.get_balance(42), 0);
    assert!(m.events().is_empty());
}

#[test]
fn ensure_signed_accepts_only_signed() {
    assert_eq!(ensure_signed(Origin::Signed(5)), Ok(5));
    assert_eq!(ensure_signed(Origin::Root), Err(BadOrigin));
    assert_eq!(ensure_signed(Origin::Unsigned), Err(BadOrigin));
}

#[test]
fn init_credits_signer_with_supply() {
    let m = initialized(7);
    assert!(m.is_init());
    assert_eq!(m.get_balance(7), 21_000_000);
    assert_eq!(m.get_balance(8), 0);
    assert!(m.events().is_empty());
}

#[test]
fn init_twice_fails() {
    let mut m = initialized(7);
    assert_eq!(
        m.init(Origin::Signed(8)),
        Err(DispatchError::Module(Error::AlreadyInitialized))
    );
    assert_eq!(
        m.init(Origin::Signed(7)),
        Err(DispatchError::Module(Error::AlreadyInitialized))
    );
    assert_eq!(m.get_balance(7), 21_000_000);
    assert_eq!(m.get_balance(8), 0);
}

#[test]
fn init_unsigned_fails() {
    let mut m = Module::new();
    assert_eq!(m.init(Origin::Root), Err(DispatchError::BadOrigin));
    assert_eq!(m.init(Origin::Unsigned), Err(DispatchError::BadOrigin));
    assert!(!m.is_init());
}

#[test]
fn transfer_moves_value() {
    let mut m = initialized(7);
    assert_eq!(m.transfer(Origin::Signed(7), 8, 100), Ok(()));
    assert_eq!(m.get_balance(7), 21_000_000 - 100);
    assert_eq!(m.get_balance(8), 100);
    assert_eq!(m.events(), &vec![Event::Transfer(7, 8, 100)]);
}

#[test]
fn transfer_insufficient_funds() {
    let mut m = initialized(7);
    assert_eq!(m.transfer(Origin::Signed(7), 8, 100), Ok(()));
    assert_eq!(
        m.transfer(Origin::Signed(8), 9, 101),
        Err(DispatchError::Module(Error::InsufficientFunds))
    );
    assert_eq!(m.get_balance(8), 100);
    assert_eq!(m.get_balance(9), 0);
    assert_eq!(m.events().len(), 1);
}

#[test]
fn transfer_whole_balance() {
    let mut m = initialized(7);
    assert_eq!(m.transfer(Origin::Signed(7), 8, 21_000_000), Ok(()));
    assert_eq!(m.get_balance(7), 0);
    assert_eq!(m.get_balance(8), 21_000_000);
}

#[test]
fn transfer_unsigned_fails() {
    let mut m = initialized(7);
    assert_eq!(m.transfer(Origin::Root, 8, 1), Err(DispatchError::BadOrigin));
    assert_eq!(m.transfer(Origin::Unsigned, 8, 1), Err(DispatchError::BadOrigin));
    assert_eq!(m.get_balance(8), 0);
    assert!(m.events().is_empty());
}

#[test]
fn transfer_before_init() {
    let mut m = Module::new();
    assert_eq!(m.transfer(Origin::Signed(1), 2, 0), Ok(()));
    assert_eq!(
        m.transfer(Origin::Signed(1), 2, 1),
        Err(DispatchError::Module(Error::InsufficientFunds))
    );
    assert_eq!(m.get_balance(1), 0);
    assert_eq!(m.get_balance(2), 0);
    assert_eq!(m.init(Origin::Signed(2)), Ok(()));
    assert_eq!(m.get_balance(2), 21_000_000);
}

#[test]
fn self_transfer_adds_value() {
    let mut m = initialized(7);
    assert_eq!(m.transfer(Origin::Signed(7), 7, 1_000), Ok(()));
    assert_eq!(m.get_balance(7), 21_001_000);
    assert_eq!(m.events(), &vec![Event::Transfer(7, 7, 1_000)]);
}

#[test]
fn transfers_conserve_supply() {
    let mut m = initialized(1);
    assert_eq!(m.transfer(Origin::Signed(1), 2, 5_000), Ok(()));
    assert_eq!(m.transfer(Origin::Signed(2), 3, 1_234), Ok(()));
    assert_eq!(m.transfer(Origin::Signed(1), 3, 66), Ok(()));
    assert_eq!(m.transfer(Origin::Signed(3), 1, 300), Ok(()));
    let total: u64 = (1..=3).map(|a| m.get_balance(a)).sum();
    assert_eq!(total, m.total_supply());
    assert_eq!(m.get_balance(1), 21_000_000 - 5_000 - 66 + 300);
    assert_eq!(m.get_balance(2), 5_000 - 1_234);
    assert_eq!(m.get_balance(3), 1_234 + 66 - 300);
    assert_eq!(
        m.events(),
        &vec![
            Event::Transfer(1, 2, 5_000),
            Event::Transfer(2, 3, 1_234),
            Event::Transfer(1, 3, 66),
            Event::Transfer(3, 1, 300),
        ]
    );
}

#[test]
fn traitz_reports_supply_and_ignores_insert() {
    let mut m = initialized(7);
    assert_eq!(m.bals(), 21_000_000);
    m.insertz(9, 500);
    assert_eq!(m.get_balance(9), 0);
    assert_eq!(m.get_balance(7), 21_000_000);
    assert_eq!(m.bals(), 21_000_000);
}
