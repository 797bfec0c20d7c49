//! Laws of the ledger, stated over the handlers' specification functions
//! and proved once for all inputs.

use vstd::prelude::*;

use crate::bytes::is_all_zero;
use crate::errors::SimchainError;
use crate::handlers::add_funds_spec;
use crate::handlers::initialize_wallet_spec;
use crate::handlers::send_spec;
use crate::handlers::set_alias_spec;
use crate::wallet::WalletModel;

verus! {

/// Law: every valid creation yields a record with a zero balance, the
/// creator as its owner, an all-zero alias, and the supplied fingerprint,
/// PIN hash and disambiguation value.
pub proof fn lemma_create_fresh_record(
    current_index: u16,
    authority: Seq<u8>,
    sim_hash: Seq<u8>,
    pin_hash: Seq<u8>,
    bump: u8,
)
    requires
        current_index == 0,
        !is_all_zero(pin_hash),
    ensures
        initialize_wallet_spec(current_index, authority, sim_hash, pin_hash, bump) matches Ok(m)
            && m.balance == 0 && m.owner == authority && is_all_zero(m.alias) && m.sim_hash
            == sim_hash && m.pin_hash == pin_hash && m.bump == bump,
{
}

/// Law: creation is refused as a weak credential whenever the PIN hash is
/// all-zero, for every fingerprint, authority and disambiguation value.
pub proof fn lemma_weak_pin_rejected(
    current_index: u16,
    authority: Seq<u8>,
    sim_hash: Seq<u8>,
    pin_hash: Seq<u8>,
    bump: u8,
)
    requires
        current_index == 0,
        is_all_zero(pin_hash),
    ensures
        initialize_wallet_spec(current_index, authority, sim_hash, pin_hash, bump) == Err::<
            WalletModel,
            SimchainError,
        >(SimchainError::WeakPin),
{
}

/// Law: a top-level deposit signed by anyone but the record's owner is
/// refused as unauthorized, for every amount; by the handler's contract the
/// refusal leaves every field of the record unchanged.
pub proof fn lemma_non_owner_deposit_rejected(
    w: WalletModel,
    current_index: u16,
    signer: Seq<u8>,
    amount: u64,
)
    requires
        current_index == 0,
        signer != w.owner,
    ensures
        add_funds_spec(w, current_index, signer, amount) == Err::<WalletModel, SimchainError>(
            SimchainError::Unauthorized,
        ),
{
}

/// Law: a successful transfer moves exactly the amount and conserves the
/// sum of the two balances.
pub proof fn lemma_send_conserves(
    s: WalletModel,
    rcv: WalletModel,
    current_index: u16,
    signer: Seq<u8>,
    amount: u64,
)
    requires
        send_spec(s, rcv, current_index, signer, amount) matches Ok(_),
    ensures
        ({
            let p = send_spec(s, rcv, current_index, signer, amount)->Ok_0;
            &&& p.0.balance == s.balance - amount
            &&& p.1.balance == rcv.balance + amount
            &&& p.0.balance + p.1.balance == s.balance + rcv.balance
        }),
{
}

/// Law: every operation invoked at a non-zero position within its batch is
/// refused as an invalid invocation, whatever its other arguments.
pub proof fn lemma_top_level_guard(
    w: WalletModel,
    rcv: WalletModel,
    current_index: u16,
    signer: Seq<u8>,
    sim_hash: Seq<u8>,
    pin_hash: Seq<u8>,
    alias: Seq<u8>,
    bump: u8,
    amount: u64,
)
    requires
        current_index != 0,
    ensures
        initialize_wallet_spec(current_index, signer, sim_hash, pin_hash, bump) == Err::<
            WalletModel,
            SimchainError,
        >(SimchainError::CpiNotAllowed),
        set_alias_spec(w, current_index, signer, alias) == Err::<WalletModel, SimchainError>(
            SimchainError::CpiNotAllowed,
        ),
        add_funds_spec(w, current_index, signer, amount) == Err::<WalletModel, SimchainError>(
            SimchainError::CpiNotAllowed,
        ),
        send_spec(w, rcv, current_index, signer, amount) == Err::<
            (WalletModel, WalletModel),
            SimchainError,
        >(SimchainError::CpiNotAllowed),
{
}

} // verus!
