//! Deterministic derivation of a record's storage address from its
//! fingerprint and the domain tag, and the re-verification that binds a
//! record to the address it is accessed through.

use vstd::prelude::*;

use crate::bytes::bytes_eq;
use crate::errors::SimchainError;
use crate::wallet::Wallet;

verus! {

/// The address and disambiguation value that program-address derivation
/// yields for a program id and two seeds. The derivation is a pure function
/// of its inputs; its definition (repeated hashing and a curve check) is too
/// long to state here.
pub uninterp spec fn program_address_of(
    program_id: Seq<u8>,
    seed0: Seq<u8>,
    seed1: Seq<u8>,
) -> (Seq<u8>, u8);

/// Whether program-address derivation succeeds for a 32-byte program id and
/// two seeds. Success, like the address itself, is a pure function of the
/// inputs: it fails only for a seed longer than 32 bytes, or when no bump
/// seed yields a valid address, which is statistically improbable.
pub uninterp spec fn program_address_found(
    program_id: Seq<u8>,
    seed0: Seq<u8>,
    seed1: Seq<u8>,
) -> bool;

/// Relies on Pubkey::try_find_program_address: whether it finds an address,
/// and which address and bump seed it finds, depend on the program id and
/// the seeds alone, and the address is 32 bytes. A program id that is not
/// 32 bytes yields None.
#[verifier::external_body]
fn try_find_program_address(
    program_id: &Vec<u8>,
    seed0: &Vec<u8>,
    seed1: &Vec<u8>,
) -> (r: Option<(Vec<u8>, u8)>)
    ensures
        (r matches Some(_)) <==> (program_id@.len() == 32 && program_address_found(
            program_id@,
            seed0@,
            seed1@,
        )),
        r matches Some(p) ==> (p.0@, p.1) == program_address_of(program_id@, seed0@, seed1@),
        r matches Some(p) ==> p.0@.len() == 32,
{
    let pid = match anchor_lang::prelude::Pubkey::try_from(program_id.as_slice()) {
        Ok(p) => p,
        Err(_) => {
            return None;
        },
    };
    let seeds: [&[u8]; 2] = [seed0.as_slice(), seed1.as_slice()];
    match anchor_lang::prelude::Pubkey::try_find_program_address(&seeds, &pid) {
        Some((addr, bump)) => Some((addr.to_bytes().to_vec(), bump)),
        None => None,
    }
}

/// The domain-separation tag of the ledger: the bytes of "wallet".
pub open spec fn wallet_tag() -> Seq<u8> {
    seq![119u8, 97u8, 108u8, 108u8, 101u8, 116u8]
}

/// Builds the domain tag as a byte vector.
fn wallet_tag_bytes() -> (r: Vec<u8>)
    ensures
        r@ == wallet_tag(),
{
    let mut v: Vec<u8> = Vec::new();
    v.push(119);
    v.push(97);
    v.push(108);
    v.push(108);
    v.push(101);
    v.push(116);
    proof {
        assert(v@ =~= wallet_tag());
    }
    v
}

/// The storage address and disambiguation value of the record for a
/// fingerprint: program-address derivation over the domain tag and the
/// fingerprint.
pub open spec fn wallet_address_of(program_id: Seq<u8>, fingerprint: Seq<u8>) -> (Seq<u8>, u8) {
    program_address_of(program_id, wallet_tag(), fingerprint)
}

/// Derives the storage address and disambiguation value for a fingerprint.
/// Re-supplying the same fingerprint always yields the same pair, and the
/// derivation succeeds exactly when the program id is 32 bytes wide and a
/// valid address exists. None, possible only in the statistically improbable
/// case that no bump seed works, must be surfaced by the caller as a failure.
pub fn derive_wallet_address(program_id: &Vec<u8>, fingerprint: &Vec<u8>) -> (r: Option<
    (Vec<u8>, u8),
>)
    ensures
        r is Some <==> program_id@.len() == 32 && program_address_found(
            program_id@,
            wallet_tag(),
            fingerprint@,
        ),
        r matches Some(p) ==> (p.0@, p.1) == wallet_address_of(program_id@, fingerprint@),
        r matches Some(p) ==> p.0@.len() == 32,
{
    let tag = wallet_tag_bytes();
    try_find_program_address(program_id, &tag, fingerprint)
}

/// Checks that a record really lives at the address it was accessed through:
/// the address and the record's stored disambiguation value must both equal
/// what derivation from the record's fingerprint yields. Every rightly bound
/// record passes; a mismatch is a hard authorization failure, never a silent
/// fallback.
pub fn verify_wallet_address(program_id: &Vec<u8>, wallet: &Wallet, address: &Vec<u8>) -> (r:
    Result<(), SimchainError>)
    ensures
        r is Ok <==> program_id@.len() == 32 && program_address_found(
            program_id@,
            wallet_tag(),
            wallet@.sim_hash,
        ) && (address@, wallet@.bump) == wallet_address_of(program_id@, wallet@.sim_hash),
        r matches Err(e) ==> e == SimchainError::Unauthorized,
{
    match derive_wallet_address(program_id, &wallet.sim_hash) {
        Some((addr, bump)) => {
            if bytes_eq(&addr, address) && bump == wallet.bump {
                Ok(())
            } else {
                Err(SimchainError::Unauthorized)
            }
        },
        None => Err(SimchainError::Unauthorized),
    }
}

} // verus!
