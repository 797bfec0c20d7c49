//! The persistent ledger record and its mathematical model.

use vstd::prelude::*;

use crate::bytes::is_all_zero;

verus! {

/// Width in bytes of the fingerprint, the owner identity, the PIN hash and
/// the alias.
pub const FIELD_WIDTH: usize = 32;

/// The mathematical model of a ledger record: each fixed-width byte field is
/// a sequence of bytes.
#[verifier::ext_equal]
pub ghost struct WalletModel {
    pub sim_hash: Seq<u8>,
    pub balance: u64,
    pub owner: Seq<u8>,
    pub pin_hash: Seq<u8>,
    pub bump: u8,
    pub alias: Seq<u8>,
}

impl WalletModel {
    /// Every byte field has its fixed width.
    pub open spec fn wf(self) -> bool {
        &&& self.sim_hash.len() == FIELD_WIDTH
        &&& self.owner.len() == FIELD_WIDTH
        &&& self.pin_hash.len() == FIELD_WIDTH
        &&& self.alias.len() == FIELD_WIDTH
    }
}

/// One ledger record: the persistent entity addressed by the fingerprint of
/// an identifier.
pub struct Wallet {
    /// Privacy-preserving hash of the identifier; the addressing key,
    /// immutable after creation.
    pub sim_hash: Vec<u8>,
    /// Balance in base currency units; mutated only through checked
    /// arithmetic.
    pub balance: u64,
    /// The identity authorized to mutate this record; set once at creation.
    pub owner: Vec<u8>,
    /// Hash of the owner's chosen PIN; never all-zero.
    pub pin_hash: Vec<u8>,
    /// Disambiguation value discovered during address derivation; re-verified
    /// on every access.
    pub bump: u8,
    /// Caller-settable label; defaults to all-zero.
    pub alias: Vec<u8>,
}

impl View for Wallet {
    type V = WalletModel;

    open spec fn view(&self) -> WalletModel {
        WalletModel {
            sim_hash: self.sim_hash@,
            balance: self.balance,
            owner: self.owner@,
            pin_hash: self.pin_hash@,
            bump: self.bump,
            alias: self.alias@,
        }
    }
}

impl Wallet {
    /// Every byte field has its fixed width.
    pub open spec fn wf(self) -> bool {
        self@.wf()
    }
}

/// The default alias: thirty-two zero bytes.
pub open spec fn zero_alias() -> Seq<u8> {
    Seq::new(FIELD_WIDTH as nat, |i: int| 0u8)
}

/// Builds the default all-zero alias.
pub fn make_zero_alias() -> (r: Vec<u8>)
    ensures
        r@ == zero_alias(),
        is_all_zero(r@),
        r@.len() == FIELD_WIDTH,
{
    let mut v: Vec<u8> = Vec::new();
    let mut i: usize = 0;
    while i < FIELD_WIDTH
        invariant
            i <= FIELD_WIDTH,
            v@.len() == i,
            forall|j: int| 0 <= j < i ==> v@[j] == 0,
        decreases FIELD_WIDTH - i,
    {
        v.push(0);
        i += 1;
    }
    proof {
        assert(v@ =~= zero_alias());
    }
    v
}

} // verus!
