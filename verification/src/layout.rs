//! The persisted layout of a ledger record: fingerprint, then the balance
//! as eight little-endian bytes, then owner identity, PIN hash,
//! disambiguation value and alias, in one fixed-size versionless frame.

use vstd::prelude::*;

use vstd::bytes::lemma_auto_spec_u64_to_from_le_bytes;
use vstd::bytes::spec_u64_from_le_bytes;
use vstd::bytes::spec_u64_to_le_bytes;
use vstd::bytes::u64_from_le_bytes;
use vstd::bytes::u64_to_le_bytes;

use crate::wallet::Wallet;
use crate::wallet::WalletModel;

verus! {

/// Size in bytes of a persisted record.
pub const RECORD_SIZE: usize = 137;

/// The persisted form of a record.
pub open spec fn record_bytes(m: WalletModel) -> Seq<u8> {
    m.sim_hash + spec_u64_to_le_bytes(m.balance) + m.owner + m.pin_hash + seq![m.bump] + m.alias
}

/// Appends a copy of `src` to `out`.
fn append_bytes(out: &mut Vec<u8>, src: &Vec<u8>)
    ensures
        final(out)@ == old(out)@ + src@,
{
    let mut i: usize = 0;
    while i < src.len()
        invariant
            i <= src.len(),
            out@ == old(out)@ + src@.subrange(0, i as int),
        decreases src.len() - i,
    {
        out.push(src[i]);
        proof {
            assert(out@ =~= old(out)@ + src@.subrange(0, i + 1 as int));
        }
        i += 1;
    }
    proof {
        assert(out@ =~= old(out)@ + src@);
    }
}

/// Copies the bytes of `v` from `from` (inclusive) to `to` (exclusive).
fn copy_range(v: &Vec<u8>, from: usize, to: usize) -> (r: Vec<u8>)
    requires
        from <= to <= v@.len(),
    ensures
        r@ == v@.subrange(from as int, to as int),
{
    let mut out: Vec<u8> = Vec::new();
    let mut i: usize = from;
    while i < to
        invariant
            from <= i <= to <= v@.len(),
            out@ == v@.subrange(from as int, i as int),
        decreases to - i,
    {
        out.push(v[i]);
        proof {
            assert(out@ =~= v@.subrange(from as int, i + 1 as int));
        }
        i += 1;
    }
    out
}

/// Encodes a record into its persisted form.
pub fn encode_record(w: &Wallet) -> (r: Vec<u8>)
    requires
        w.wf(),
    ensures
        r@ == record_bytes(w@),
        r@.len() == RECORD_SIZE,
{
    let mut out: Vec<u8> = Vec::new();
    append_bytes(&mut out, &w.sim_hash);
    let mut bal = u64_to_le_bytes(w.balance);
    out.append(&mut bal);
    append_bytes(&mut out, &w.owner);
    append_bytes(&mut out, &w.pin_hash);
    out.push(w.bump);
    append_bytes(&mut out, &w.alias);
    proof {
        assert(out@ =~= record_bytes(w@));
    }
    out
}

/// Decodes a persisted frame back into a record. Exactly the frames of the
/// fixed size decode; the decoded record is well formed and re-encodes to
/// the same bytes.
pub fn decode_record(bytes: &Vec<u8>) -> (r: Option<Wallet>)
    ensures
        r matches Some(w) ==> w.wf() && record_bytes(w@) == bytes@,
        r is Some <==> bytes@.len() == RECORD_SIZE,
{
    if bytes.len() != RECORD_SIZE {
        return None;
    }
    let sim_hash = copy_range(bytes, 0, 32);
    let bal_bytes = copy_range(bytes, 32, 40);
    let balance = u64_from_le_bytes(bal_bytes.as_slice());
    let owner = copy_range(bytes, 40, 72);
    let pin_hash = copy_range(bytes, 72, 104);
    let bump = bytes[104];
    let alias = copy_range(bytes, 105, 137);
    let w = Wallet { sim_hash, balance, owner, pin_hash, bump, alias };
    proof {
        lemma_auto_spec_u64_to_from_le_bytes();
        assert(spec_u64_to_le_bytes(spec_u64_from_le_bytes(bytes@.subrange(32, 40)))
            == bytes@.subrange(32, 40));
        assert(record_bytes(w@) =~= bytes@);
    }
    Some(w)
}

/// Law: the persisted form determines the record: two well-formed records
/// with the same persisted bytes are equal. Together with the contracts of
/// `encode_record` and `decode_record` this makes the layout a round trip.
pub proof fn lemma_record_bytes_injective(m1: WalletModel, m2: WalletModel)
    requires
        m1.wf(),
        m2.wf(),
        record_bytes(m1) == record_bytes(m2),
    ensures
        m1 == m2,
{
    lemma_auto_spec_u64_to_from_le_bytes();
    let b1 = record_bytes(m1);
    let b2 = record_bytes(m2);
    assert(m1.sim_hash =~= b1.subrange(0, 32));
    assert(m2.sim_hash =~= b2.subrange(0, 32));
    assert(spec_u64_to_le_bytes(m1.balance) =~= b1.subrange(32, 40));
    assert(spec_u64_to_le_bytes(m2.balance) =~= b2.subrange(32, 40));
    assert(m1.balance == spec_u64_from_le_bytes(spec_u64_to_le_bytes(m1.balance)));
    assert(m2.balance == spec_u64_from_le_bytes(spec_u64_to_le_bytes(m2.balance)));
    assert(m1.owner =~= b1.subrange(40, 72));
    assert(m2.owner =~= b2.subrange(40, 72));
    assert(m1.pin_hash =~= b1.subrange(72, 104));
    assert(m2.pin_hash =~= b2.subrange(72, 104));
    assert(m1.bump == b1[104]);
    assert(m2.bump == b2[104]);
    assert(m1.alias =~= b1.subrange(105, 137));
    assert(m2.alias =~= b2.subrange(105, 137));
    assert(m1 =~= m2);
}

} // verus!
