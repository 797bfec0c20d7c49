//! Derivation of the privacy-preserving identifier fingerprint: a salted
//! one-way hash of the human-readable identifier.

use vstd::prelude::*;

use vstd::string::StrSliceExecFns;
use vstd::string::StringSliceAdditionalSpecFns;

verus! {

/// The SHA-256 digest of a byte sequence. The digest itself is too long to
/// state here; contracts only rely on it being a function of the input bytes.
pub uninterp spec fn sha256_of(data: Seq<u8>) -> Seq<u8>;

/// Relies on anchor_lang::solana_program::hash::hash (SHA-256): the digest
/// is 32 bytes and depends on the input bytes alone.
#[verifier::external_body]
fn sha256(data: &Vec<u8>) -> (r: Vec<u8>)
    ensures
        r@ == sha256_of(data@),
        r@.len() == 32,
{
    anchor_lang::solana_program::hash::hash(data.as_slice()).to_bytes().to_vec()
}

/// The salt prepended to every identifier before hashing: the bytes of
/// "SIMChain_v1_secure_salt_2024". In production the salt would be managed
/// off-chain; this core only consumes the fingerprints it produces.
pub open spec fn sim_hash_salt() -> Seq<u8> {
    seq![
        83u8, 73u8, 77u8, 67u8, 104u8, 97u8, 105u8, 110u8, 95u8, 118u8, 49u8, 95u8, 115u8, 101u8,
        99u8, 117u8, 114u8, 101u8, 95u8, 115u8, 97u8, 108u8, 116u8, 95u8, 50u8, 48u8, 50u8, 52u8,
    ]
}

/// Builds the salt as a byte vector.
fn salt_bytes() -> (r: Vec<u8>)
    ensures
        r@ == sim_hash_salt(),
{
    let mut v: Vec<u8> = Vec::new();
    v.push(83);
    v.push(73);
    v.push(77);
    v.push(67);
    v.push(104);
    v.push(97);
    v.push(105);
    v.push(110);
    v.push(95);
    v.push(118);
    v.push(49);
    v.push(95);
    v.push(115);
    v.push(101);
    v.push(99);
    v.push(117);
    v.push(114);
    v.push(101);
    v.push(95);
    v.push(115);
    v.push(97);
    v.push(108);
    v.push(116);
    v.push(95);
    v.push(50);
    v.push(48);
    v.push(50);
    v.push(52);
    proof {
        assert(v@ =~= sim_hash_salt());
    }
    v
}

/// The fingerprint of an identifier: the SHA-256 digest of the salt followed
/// by the identifier's bytes.
pub open spec fn fingerprint_of(sim_bytes: Seq<u8>) -> Seq<u8> {
    sha256_of(sim_hash_salt() + sim_bytes)
}

/// Hashes a human-readable identifier into its 32-byte fingerprint.
pub fn hash_sim_number(sim_number: &str) -> (r: Vec<u8>)
    ensures
        r@ == fingerprint_of(sim_number.spec_bytes()),
        r@.len() == 32,
{
    let mut data = salt_bytes();
    let mut sim_bytes = sim_number.as_bytes_vec();
    data.append(&mut sim_bytes);
    sha256(&data)
}

} // verus!
