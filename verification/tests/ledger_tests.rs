use simchain_wallet::add_funds;
use simchain_wallet::check_balance;
use simchain_wallet::initialize_wallet;
use simchain_wallet::send;
use simchain_wallet::set_alias;
use simchain_wallet::SimchainError;
use simchain_wallet::Wallet;

fn make_wallet(owner_byte: u8, fp_byte: u8, balance: u64) -> Wallet {
    let w = initialize_wallet(0, vec![owner_byte; 32], vec![fp_byte; 32], vec![9u8; 32], 254)
        .expect("creation must succeed");
    let mut w = w;
    if balance > 0 {
        add_funds(&mut w, 0, &vec![owner_byte; 32], balance).expect("deposit must succeed");
    }
    w
}

#[test]
fn create_fresh_record_fields() {
    let auth = vec![1u8; 32];
    let fp = vec![2u8; 32];
    let pin = vec![7u8; 32];
    let w = initialize_wallet(0, auth.clone(), fp.clone(), pin.clone(), 253)
        .expect("creation must succeed");
    assert_eq!(w.balance, 0);
    assert_eq!(w.owner, auth);
    assert_eq!(w.sim_hash, fp);
    assert_eq!(w.pin_hash, pin);
    assert_eq!(w.bump, 253);
    assert_eq!(w.alias, vec![0u8; 32]);
}

#[test]
fn weak_pin_rejected_for_any_fingerprint() {
    let r = initialize_wallet(0, vec![1u8; 32], vec![2u8; 32], vec![0u8; 32], 255);
    assert_eq!(r.err(), Some(SimchainError::WeakPin));
    let r2 = initialize_wallet(0, vec![5u8; 32], vec![200u8; 32], vec![0u8; 32], 251);
    assert_eq!(r2.err(), Some(SimchainError::WeakPin));
}

#[test]
fn deposit_zero_amount_rejected() {
    let mut w = make_wallet(1, 2, 40);
    let r = add_funds(&mut w, 0, &vec![1u8; 32], 0);
    assert_eq!(r, Err(SimchainError::InvalidAmount));
    assert_eq!(w.balance, 40);
}

#[test]
fn deposit_overflow_rejected() {
    let mut w = make_wallet(1, 2, u64::MAX - 5);
    let r = add_funds(&mut w, 0, &vec![1u8; 32], 6);
    assert_eq!(r, Err(SimchainError::ArithmeticOverflow));
    assert_eq!(w.balance, u64::MAX - 5);
    let r2 = add_funds(&mut w, 0, &vec![1u8; 32], 5);
    assert_eq!(r2, Ok(()));
    assert_eq!(w.balance, u64::MAX);
}

#[test]
fn deposit_then_check_balance() {
    let mut w = make_wallet(1, 2, 0);
    add_funds(&mut w, 0, &vec![1u8; 32], 100).expect("deposit must succeed");
    assert_eq!(check_balance(&w), 100);
}

#[test]
fn deposit_by_non_owner_rejected() {
    let mut w = make_wallet(1, 2, 25);
    let r = add_funds(&mut w, 0, &vec![8u8; 32], 10);
    assert_eq!(r, Err(SimchainError::Unauthorized));
    assert_eq!(w.balance, 25);
}

#[test]
fn transfer_moves_funds_and_conserves_total() {
    let mut a = make_wallet(1, 2, 0);
    let mut b = make_wallet(3, 4, 0);
    add_funds(&mut a, 0, &vec![1u8; 32], 50).expect("deposit must succeed");
    let r = send(&mut a, &mut b, 0, &vec![1u8; 32], 30);
    assert_eq!(r, Ok(()));
    assert_eq!(check_balance(&a), 20);
    assert_eq!(check_balance(&b), 30);
    assert_eq!(a.balance + b.balance, 50);
}

#[test]
fn transfer_insufficient_balance_leaves_both_unchanged() {
    let mut a = make_wallet(1, 2, 10);
    let mut b = make_wallet(3, 4, 77);
    let r = send(&mut a, &mut b, 0, &vec![1u8; 32], 11);
    assert_eq!(r, Err(SimchainError::InsufficientBalance));
    assert_eq!(a.balance, 10);
    assert_eq!(b.balance, 77);
}

#[test]
fn transfer_receiver_overflow_leaves_both_unchanged() {
    let mut a = make_wallet(1, 2, 10);
    let mut b = make_wallet(3, 4, u64::MAX - 3);
    let r = send(&mut a, &mut b, 0, &vec![1u8; 32], 4);
    assert_eq!(r, Err(SimchainError::ArithmeticOverflow));
    assert_eq!(a.balance, 10);
    assert_eq!(b.balance, u64::MAX - 3);
}

#[test]
fn transfer_zero_amount_rejected() {
    let mut a = make_wallet(1, 2, 10);
    let mut b = make_wallet(3, 4, 5);
    let r = send(&mut a, &mut b, 0, &vec![1u8; 32], 0);
    assert_eq!(r, Err(SimchainError::InvalidAmount));
    assert_eq!(a.balance, 10);
    assert_eq!(b.balance, 5);
}

#[test]
fn transfer_by_non_owner_rejected() {
    let mut a = make_wallet(1, 2, 10);
    let mut b = make_wallet(3, 4, 5);
    let r = send(&mut a, &mut b, 0, &vec![3u8; 32], 5);
    assert_eq!(r, Err(SimchainError::Unauthorized));
    assert_eq!(a.balance, 10);
    assert_eq!(b.balance, 5);
}

#[test]
fn non_top_level_invocation_rejected_everywhere() {
    let r = initialize_wallet(1, vec![1u8; 32], vec![2u8; 32], vec![7u8; 32], 255);
    assert_eq!(r.err(), Some(SimchainError::CpiNotAllowed));

    let mut w = make_wallet(1, 2, 30);
    let r = add_funds(&mut w, 3, &vec![1u8; 32], 10);
    assert_eq!(r, Err(SimchainError::CpiNotAllowed));
    assert_eq!(w.balance, 30);

    let r = set_alias(&mut w, 2, &vec![1u8; 32], vec![5u8; 32]);
    assert_eq!(r, Err(SimchainError::CpiNotAllowed));
    assert_eq!(w.alias, vec![0u8; 32]);

    let mut b = make_wallet(3, 4, 0);
    let r = send(&mut w, &mut b, 7, &vec![1u8; 32], 10);
    assert_eq!(r, Err(SimchainError::CpiNotAllowed));
    assert_eq!(w.balance, 30);
    assert_eq!(b.balance, 0);
}

#[test]
fn set_alias_by_owner_replaces_alias() {
    let mut w = make_wallet(1, 2, 0);
    let r = set_alias(&mut w, 0, &vec![1u8; 32], vec![42u8; 32]);
    assert_eq!(r, Ok(()));
    assert_eq!(w.alias, vec![42u8; 32]);
}

#[test]
fn set_alias_by_non_owner_rejected() {
    let mut w = make_wallet(1, 2, 0);
    let r = set_alias(&mut w, 0, &vec![6u8; 32], vec![42u8; 32]);
    assert_eq!(r, Err(SimchainError::Unauthorized));
    assert_eq!(w.alias, vec![0u8; 32]);
}
