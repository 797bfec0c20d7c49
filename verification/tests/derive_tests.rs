use anchor_lang::prelude::Pubkey;
use simchain_wallet::derive_wallet_address;
use simchain_wallet::hash_sim_number;
use simchain_wallet::initialize_wallet;
use simchain_wallet::verify_wallet_address;
use simchain_wallet::SimchainError;

#[test]
fn derivation_matches_program_address_derivation() {
    let program_id = vec![3u8; 32];
    let fingerprint = hash_sim_number("+15551234567");
    let (addr, bump) =
        derive_wallet_address(&program_id, &fingerprint).expect("derivation must succeed");

    let pid = Pubkey::try_from(program_id.as_slice()).unwrap();
    let (expected_addr, expected_bump) =
        Pubkey::find_program_address(&[b"wallet", fingerprint.as_slice()], &pid);
    assert_eq!(addr, expected_addr.to_bytes().to_vec());
    assert_eq!(bump, expected_bump);
}

#[test]
fn derivation_is_deterministic_and_32_bytes() {
    let program_id = vec![3u8; 32];
    let fingerprint = hash_sim_number("+447700900123");
    let a = derive_wallet_address(&program_id, &fingerprint).expect("derivation must succeed");
    let b = derive_wallet_address(&program_id, &fingerprint).expect("derivation must succeed");
    assert_eq!(a, b);
    assert_eq!(a.0.len(), 32);
}

#[test]
fn derivation_differs_per_fingerprint() {
    let program_id = vec![3u8; 32];
    let fa = hash_sim_number("+15551234567");
    let fb = hash_sim_number("+15551234568");
    let a = derive_wallet_address(&program_id, &fa).expect("derivation must succeed");
    let b = derive_wallet_address(&program_id, &fb).expect("derivation must succeed");
    assert_ne!(a.0, b.0);
}

#[test]
fn derivation_requires_32_byte_program_id() {
    let fingerprint = hash_sim_number("+15551234567");
    assert!(derive_wallet_address(&vec![3u8; 31], &fingerprint).is_none());
    assert!(derive_wallet_address(&Vec::new(), &fingerprint).is_none());
    assert!(derive_wallet_address(&vec![3u8; 32], &fingerprint).is_some());
}

#[test]
fn address_verification_round_trip() {
    let program_id = vec![3u8; 32];
    let fingerprint = hash_sim_number("+15551234567");
    let (addr, bump) =
        derive_wallet_address(&program_id, &fingerprint).expect("derivation must succeed");
    let w = initialize_wallet(0, vec![1u8; 32], fingerprint, vec![7u8; 32], bump)
        .expect("creation must succeed");
    assert_eq!(verify_wallet_address(&program_id, &w, &addr), Ok(()));
}

#[test]
fn address_verification_rejects_wrong_bump() {
    let program_id = vec![3u8; 32];
    let fingerprint = hash_sim_number("+15551234567");
    let (addr, bump) =
        derive_wallet_address(&program_id, &fingerprint).expect("derivation must succeed");
    let w = initialize_wallet(0, vec![1u8; 32], fingerprint, vec![7u8; 32], bump.wrapping_sub(1))
        .expect("creation must succeed");
    assert_eq!(
        verify_wallet_address(&program_id, &w, &addr),
        Err(SimchainError::Unauthorized)
    );
}

#[test]
fn address_verification_rejects_wrong_address() {
    let program_id = vec![3u8; 32];
    let fingerprint = hash_sim_number("+15551234567");
    let (mut addr, bump) =
        derive_wallet_address(&program_id, &fingerprint).expect("derivation must succeed");
    addr[0] = addr[0].wrapping_add(1);
    let w = initialize_wallet(0, vec![1u8; 32], fingerprint, vec![7u8; 32], bump)
        .expect("creation must succeed");
    assert_eq!(
        verify_wallet_address(&program_id, &w, &addr),
        Err(SimchainError::Unauthorized)
    );
}
