//! The instruction handlers: create, set-alias, deposit, transfer and read.
//!
//! Each state-changing handler takes the position of the invocation within
//! its batch (`current_index`) and the identity that signed it, and either
//! performs exactly the mutation its specification function describes or
//! fails with the named reason and leaves every record untouched.

use vstd::prelude::*;

use crate::bytes::bytes_all_zero;
use crate::bytes::bytes_eq;
use crate::bytes::is_all_zero;
use crate::errors::SimchainError;
use crate::wallet::zero_alias;
use crate::wallet::make_zero_alias;
use crate::wallet::Wallet;
use crate::wallet::WalletModel;
use crate::wallet::FIELD_WIDTH;

verus! {

/// What creating a record returns: the freshly initialized record, or the
/// first reason to refuse, checked in this order: batch position, then PIN
/// strength.
pub open spec fn initialize_wallet_spec(
    current_index: u16,
    authority: Seq<u8>,
    sim_hash: Seq<u8>,
    pin_hash: Seq<u8>,
    bump: u8,
) -> Result<WalletModel, SimchainError> {
    if current_index != 0 {
        Err(SimchainError::CpiNotAllowed)
    } else if is_all_zero(pin_hash) {
        Err(SimchainError::WeakPin)
    } else {
        Ok(
            (WalletModel {
                sim_hash: sim_hash,
                balance: 0,
                owner: authority,
                pin_hash: pin_hash,
                bump: bump,
                alias: zero_alias(),
            }),
        )
    }
}

/// Creates a ledger record for `sim_hash`, owned by `authority`, with a zero
/// balance and an all-zero alias. The disambiguation value `bump` is the one
/// discovered during address derivation.
pub fn initialize_wallet(
    current_index: u16,
    authority: Vec<u8>,
    sim_hash: Vec<u8>,
    pin_hash: Vec<u8>,
    bump: u8,
) -> (r: Result<Wallet, SimchainError>)
    requires
        authority@.len() == FIELD_WIDTH,
        sim_hash@.len() == FIELD_WIDTH,
        pin_hash@.len() == FIELD_WIDTH,
    ensures
        match initialize_wallet_spec(current_index, authority@, sim_hash@, pin_hash@, bump) {
            Ok(m) => r matches Ok(w) && w@ == m && w.wf(),
            Err(e) => r == Err::<Wallet, SimchainError>(e),
        },
{
    if current_index != 0 {
        return Err(SimchainError::CpiNotAllowed);
    }
    if bytes_all_zero(&pin_hash) {
        return Err(SimchainError::WeakPin);
    }
    let w = Wallet {
        sim_hash: sim_hash,
        balance: 0,
        owner: authority,
        pin_hash: pin_hash,
        bump: bump,
        alias: make_zero_alias(),
    };
    Ok(w)
}

/// What setting the alias returns: the record with the new alias, or the
/// first reason to refuse, checked in this order: batch position, then
/// ownership.
pub open spec fn set_alias_spec(
    w: WalletModel,
    current_index: u16,
    signer: Seq<u8>,
    alias: Seq<u8>,
) -> Result<WalletModel, SimchainError> {
    if current_index != 0 {
        Err(SimchainError::CpiNotAllowed)
    } else if signer != w.owner {
        Err(SimchainError::Unauthorized)
    } else {
        Ok((WalletModel { alias: alias, ..w }))
    }
}

/// Replaces the record's alias with `alias`, when the caller owns the record
/// and the call is top-level; otherwise the record is left unchanged.
pub fn set_alias(
    wallet: &mut Wallet,
    current_index: u16,
    signer: &Vec<u8>,
    alias: Vec<u8>,
) -> (r: Result<(), SimchainError>)
    requires
        alias@.len() == FIELD_WIDTH,
    ensures
        match set_alias_spec(old(wallet)@, current_index, signer@, alias@) {
            Ok(m) => r == Ok::<(), SimchainError>(()) && final(wallet)@ == m,
            Err(e) => r == Err::<(), SimchainError>(e) && final(wallet)@ == old(wallet)@,
        },
        old(wallet).wf() ==> final(wallet).wf(),
{
    if current_index != 0 {
        return Err(SimchainError::CpiNotAllowed);
    }
    if !bytes_eq(signer, &wallet.owner) {
        return Err(SimchainError::Unauthorized);
    }
    wallet.alias = alias;
    Ok(())
}

/// What a deposit returns: the record with the balance increased by exactly
/// `amount`, or the first reason to refuse, checked in this order: batch
/// position, ownership, amount, overflow.
pub open spec fn add_funds_spec(
    w: WalletModel,
    current_index: u16,
    signer: Seq<u8>,
    amount: u64,
) -> Result<WalletModel, SimchainError> {
    if current_index != 0 {
        Err(SimchainError::CpiNotAllowed)
    } else if signer != w.owner {
        Err(SimchainError::Unauthorized)
    } else if amount == 0 {
        Err(SimchainError::InvalidAmount)
    } else if w.balance + amount > u64::MAX {
        Err(SimchainError::ArithmeticOverflow)
    } else {
        Ok((WalletModel { balance: (w.balance + amount) as u64, ..w }))
    }
}

/// Deposits `amount` into the record. On any failure the balance, and every
/// other field, is exactly what it was before the call.
pub fn add_funds(
    wallet: &mut Wallet,
    current_index: u16,
    signer: &Vec<u8>,
    amount: u64,
) -> (r: Result<(), SimchainError>)
    ensures
        match add_funds_spec(old(wallet)@, current_index, signer@, amount) {
            Ok(m) => r == Ok::<(), SimchainError>(()) && final(wallet)@ == m,
            Err(e) => r == Err::<(), SimchainError>(e) && final(wallet)@ == old(wallet)@,
        },
        old(wallet).wf() ==> final(wallet).wf(),
{
    if current_index != 0 {
        return Err(SimchainError::CpiNotAllowed);
    }
    if !bytes_eq(signer, &wallet.owner) {
        return Err(SimchainError::Unauthorized);
    }
    if amount == 0 {
        return Err(SimchainError::InvalidAmount);
    }
    match wallet.balance.checked_add(amount) {
        Some(nb) => {
            wallet.balance = nb;
            Ok(())
        },
        None => Err(SimchainError::ArithmeticOverflow),
    }
}

/// What a transfer returns: the pair (sender, receiver) after moving exactly
/// `amount` from the first to the second, or the first reason to refuse,
/// checked in this order: batch position, ownership of the sender, amount,
/// sender funds, receiver overflow.
pub open spec fn send_spec(
    s: WalletModel,
    rcv: WalletModel,
    current_index: u16,
    signer: Seq<u8>,
    amount: u64,
) -> Result<(WalletModel, WalletModel), SimchainError> {
    if current_index != 0 {
        Err(SimchainError::CpiNotAllowed)
    } else if signer != s.owner {
        Err(SimchainError::Unauthorized)
    } else if amount == 0 {
        Err(SimchainError::InvalidAmount)
    } else if s.balance < amount {
        Err(SimchainError::InsufficientBalance)
    } else if rcv.balance + amount > u64::MAX {
        Err(SimchainError::ArithmeticOverflow)
    } else {
        Ok(
            ((WalletModel { balance: (s.balance - amount) as u64, ..s }, WalletModel {
                balance: (rcv.balance + amount) as u64,
                ..rcv
            })),
        )
    }
}

/// Moves `amount` from `sender` to `receiver` atomically: either both
/// balances change by exactly `amount`, conserving their sum, or the
/// operation fails and both records are exactly what they were before.
pub fn send(
    sender: &mut Wallet,
    receiver: &mut Wallet,
    current_index: u16,
    signer: &Vec<u8>,
    amount: u64,
) -> (r: Result<(), SimchainError>)
    ensures
        match send_spec(old(sender)@, old(receiver)@, current_index, signer@, amount) {
            Ok(p) => {
                &&& r == Ok::<(), SimchainError>(())
                &&& final(sender)@ == p.0
                &&& final(receiver)@ == p.1
            },
            Err(e) => {
                &&& r == Err::<(), SimchainError>(e)
                &&& final(sender)@ == old(sender)@
                &&& final(receiver)@ == old(receiver)@
            },
        },
        r matches Ok(()) ==> final(sender).balance + final(receiver).balance == old(sender).balance
            + old(receiver).balance,
        old(sender).wf() ==> final(sender).wf(),
        old(receiver).wf() ==> final(receiver).wf(),
{
    if current_index != 0 {
        return Err(SimchainError::CpiNotAllowed);
    }
    if !bytes_eq(signer, &sender.owner) {
        return Err(SimchainError::Unauthorized);
    }
    if amount == 0 {
        return Err(SimchainError::InvalidAmount);
    }
    if sender.balance < amount {
        return Err(SimchainError::InsufficientBalance);
    }
    match receiver.balance.checked_add(amount) {
        Some(nb) => {
            sender.balance = sender.balance - amount;
            receiver.balance = nb;
            Ok(())
        },
        None => Err(SimchainError::ArithmeticOverflow),
    }
}

/// Reads the record's balance; no mutation, no signer requirement, and so no
/// batch-position guard.
pub fn check_balance(wallet: &Wallet) -> (r: u64)
    ensures
        r == wallet@.balance,
{
    wallet.balance
}

} // verus!
