use vstd::prelude::*;

use crate::deal::{Deal, DealState};
use crate::encode::{
    decode_u64_le, encode_u64_le, lemma_u64_le_bytes_injective, lemma_u64_le_bytes_of_decoded,
    u64_le_bytes,
};
use crate::identity::AccountId;

verus! {

impl Deal {
    /// Width of a persisted record: buyer, seller, amount, identifier, state
    /// byte, bump byte.
    pub const LEN: usize = 32 + 32 + 8 + 8 + 1 + 1;
}

/// The one-byte encoding of a lifecycle state.
pub open spec fn state_byte(s: DealState) -> u8 {
    match s {
        DealState::Created => 0,
        DealState::Funded => 1,
        DealState::Released => 2,
    }
}

/// The persisted image of a record: fixed-width fields in order — buyer,
/// seller, amount, identifier, state byte, bump byte.
pub open spec fn record_bytes(d: Deal) -> Seq<u8> {
    d.buyer@ + d.seller@ + u64_le_bytes(d.amount) + u64_le_bytes(d.deal_id) + seq![
        state_byte(d.state),
    ] + seq![d.bump]
}

fn push_id_bytes(out: &mut Vec<u8>, id: &AccountId)
    ensures
        final(out)@ == old(out)@ + id@,
{
    let mut i: usize = 0;
    while i < 32
        invariant
            0 <= i <= 32,
            out@.len() == old(out)@.len() + i,
            out@ == old(out)@ + id@.subrange(0, i as int),
        decreases 32 - i,
    {
        out.push(id.bytes[i]);
        proof {
            assert(out@ =~= old(out)@ + id@.subrange(0, i + 1));
        }
        i = i + 1;
    }
    proof {
        assert(id@.subrange(0, 32) =~= id@);
    }
}

fn push_bytes(out: &mut Vec<u8>, src: &Vec<u8>)
    ensures
        final(out)@ == old(out)@ + src@,
{
    let n: usize = src.len();
    let mut i: usize = 0;
    while i < n
        invariant
            0 <= i <= n,
            n == src@.len(),
            out@.len() == old(out)@.len() + i,
            out@ == old(out)@ + src@.subrange(0, i as int),
        decreases n - i,
    {
        out.push(src[i]);
        proof {
            assert(out@ =~= old(out)@ + src@.subrange(0, i + 1));
        }
        i = i + 1;
    }
    proof {
        assert(src@.subrange(0, n as int) =~= src@);
    }
}

/// Write a record to its persisted image.
pub fn encode_record(d: &Deal) -> (r: Vec<u8>)
    ensures
        r@ == record_bytes(*d),
        r@.len() == 82,
{
    let mut out: Vec<u8> = Vec::new();
    push_id_bytes(&mut out, &d.buyer);
    push_id_bytes(&mut out, &d.seller);
    let amount_bytes = encode_u64_le(d.amount);
    push_bytes(&mut out, &amount_bytes);
    let id_bytes = encode_u64_le(d.deal_id);
    push_bytes(&mut out, &id_bytes);
    let state_code: u8 = match d.state {
        DealState::Created => 0,
        DealState::Funded => 1,
        DealState::Released => 2,
    };
    out.push(state_code);
    out.push(d.bump);
    proof {
        assert(out@ =~= record_bytes(*d));
    }
    out
}

/// Read a record back from a persisted image. Exactly the images of the
/// right width whose state byte encodes one of the three states decode; what
/// decodes re-encodes to the same bytes.
pub fn decode_record(b: &Vec<u8>) -> (r: Option<Deal>)
    ensures
        r matches Some(d) ==> record_bytes(d) == b@,
        r is Some <==> b@.len() == 82 && (b@[80] == 0 || b@[80] == 1 || b@[80] == 2),
{
    if b.len() != 82 {
        return None;
    }
    let state = if b[80] == 0 {
        DealState::Created
    } else if b[80] == 1 {
        DealState::Funded
    } else if b[80] == 2 {
        DealState::Released
    } else {
        return None;
    };
    let mut buyer = [0u8; 32];
    let mut i: usize = 0;
    while i < 32
        invariant
            0 <= i <= 32,
            b@.len() == 82,
            forall|j: int| 0 <= j < i ==> buyer@[j] == b@[j],
        decreases 32 - i,
    {
        buyer[i] = b[i];
        i = i + 1;
    }
    let mut seller = [0u8; 32];
    let mut k: usize = 0;
    while k < 32
        invariant
            0 <= k <= 32,
            b@.len() == 82,
            forall|j: int| 0 <= j < k ==> seller@[j] == b@[32 + j],
        decreases 32 - k,
    {
        seller[k] = b[32 + k];
        k = k + 1;
    }
    let amount = decode_u64_le(b, 64);
    let deal_id = decode_u64_le(b, 72);
    let d = Deal {
        buyer: AccountId::new(buyer),
        seller: AccountId::new(seller),
        amount,
        deal_id,
        state,
        bump: b[81],
    };
    proof {
        lemma_u64_le_bytes_of_decoded(b@.subrange(64, 72));
        lemma_u64_le_bytes_of_decoded(b@.subrange(72, 80));
        assert(d.buyer@ =~= b@.subrange(0, 32));
        assert(d.seller@ =~= b@.subrange(32, 64));
        assert(record_bytes(d) =~= b@);
    }
    Some(d)
}

/// Two records with the same persisted image agree on every field: the
/// layout loses nothing.
pub proof fn lemma_record_bytes_injective(d1: Deal, d2: Deal)
    requires
        record_bytes(d1) == record_bytes(d2),
    ensures
        d1.buyer@ == d2.buyer@,
        d1.seller@ == d2.seller@,
        d1.amount == d2.amount,
        d1.deal_id == d2.deal_id,
        d1.state == d2.state,
        d1.bump == d2.bump,
{
    assert(record_bytes(d1).subrange(0, 32) =~= d1.buyer@);
    assert(record_bytes(d2).subrange(0, 32) =~= d2.buyer@);
    assert(record_bytes(d1).subrange(32, 64) =~= d1.seller@);
    assert(record_bytes(d2).subrange(32, 64) =~= d2.seller@);
    assert(record_bytes(d1).subrange(64, 72) =~= u64_le_bytes(d1.amount));
    assert(record_bytes(d2).subrange(64, 72) =~= u64_le_bytes(d2.amount));
    assert(record_bytes(d1).subrange(72, 80) =~= u64_le_bytes(d1.deal_id));
    assert(record_bytes(d2).subrange(72, 80) =~= u64_le_bytes(d2.deal_id));
    lemma_u64_le_bytes_injective(d1.amount, d2.amount);
    lemma_u64_le_bytes_injective(d1.deal_id, d2.deal_id);
    assert(record_bytes(d1)[80] == state_byte(d1.state));
    assert(record_bytes(d2)[80] == state_byte(d2.state));
    assert(record_bytes(d1)[81] == d1.bump);
    assert(record_bytes(d2)[81] == d2.bump);
}

} // verus!
