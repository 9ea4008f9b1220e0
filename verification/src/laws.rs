use vstd::prelude::*;

use crate::deal::{same_identity, state_rank, Deal, DealState};
use crate::escrow::{
    fund_derivation_ok, release_derivation_ok, spec_fund, spec_release, EscrowError, FundEscrow,
    ReleaseEscrow,
};
use crate::identity::AccountId;

verus! {

/// One ledger's view of everything a single deal can touch: the record, the
/// two parties' balances, the custody balance, and the record's
/// storage-upkeep reserve.
pub struct EscrowWorld {
    /// The program the record's address is derived under.
    pub program_id: AccountId,
    /// The address the record sits at.
    pub deal_address: AccountId,
    /// The custody record.
    pub deal: Deal,
    /// The buyer's ledger balance.
    pub buyer_balance: u64,
    /// The custody balance held at the record's address.
    pub escrow_balance: u64,
    /// The seller's ledger balance.
    pub seller_balance: u64,
    /// The minimum balance the record must keep for its own storage upkeep.
    pub reserve: u64,
}

/// One submitted operation on the record, with whatever identities and
/// authorization the caller supplied.
pub enum EscrowOp {
    /// A funding request.
    Fund { buyer: AccountId, authorized: bool, seller: AccountId },
    /// A release request.
    Release { buyer: AccountId, authorized: bool, seller: AccountId },
}

/// The funding request that a caller's submission assembles from the world.
pub open spec fn fund_request(
    w: EscrowWorld,
    buyer: AccountId,
    authorized: bool,
    seller: AccountId,
) -> FundEscrow {
    FundEscrow {
        program_id: w.program_id,
        buyer,
        buyer_authorized: authorized,
        seller,
        deal_address: w.deal_address,
        buyer_balance: w.buyer_balance,
        escrow_balance: w.escrow_balance,
        deal: w.deal,
    }
}

/// The release request that a caller's submission assembles from the world.
pub open spec fn release_request(
    w: EscrowWorld,
    buyer: AccountId,
    authorized: bool,
    seller: AccountId,
) -> ReleaseEscrow {
    ReleaseEscrow {
        program_id: w.program_id,
        buyer,
        buyer_authorized: authorized,
        seller,
        deal_address: w.deal_address,
        escrow_balance: w.escrow_balance,
        seller_balance: w.seller_balance,
        reserve: w.reserve,
        deal: w.deal,
    }
}

/// The world after one operation is processed against it.
pub open spec fn apply_op(w: EscrowWorld, op: EscrowOp) -> EscrowWorld {
    match op {
        EscrowOp::Fund { buyer, authorized, seller } => {
            let c = spec_fund(fund_request(w, buyer, authorized, seller)).0;
            EscrowWorld {
                deal: c.deal,
                buyer_balance: c.buyer_balance,
                escrow_balance: c.escrow_balance,
                ..w
            }
        },
        EscrowOp::Release { buyer, authorized, seller } => {
            let c = spec_release(release_request(w, buyer, authorized, seller)).0;
            EscrowWorld {
                deal: c.deal,
                escrow_balance: c.escrow_balance,
                seller_balance: c.seller_balance,
                ..w
            }
        },
    }
}

/// The world after a whole sequence of operations, in order.
pub open spec fn apply_ops(w: EscrowWorld, ops: Seq<EscrowOp>) -> EscrowWorld
    decreases ops.len(),
{
    if ops.len() == 0 {
        w
    } else {
        apply_ops(apply_op(w, ops[0]), ops.drop_first())
    }
}

/// All the value in sight: buyer's balance, custody, and seller's balance.
pub open spec fn world_total(w: EscrowWorld) -> int {
    w.buyer_balance + w.escrow_balance + w.seller_balance
}

/// One operation, whatever it is and however it ends, conserves the total
/// value across buyer, custody and seller, never lowers the record's
/// lifecycle state, and never touches a write-once field.
pub proof fn lemma_op_preserves(w: EscrowWorld, op: EscrowOp)
    requires
        world_total(w) <= u64::MAX,
    ensures
        world_total(apply_op(w, op)) == world_total(w),
        state_rank(apply_op(w, op).deal.state) >= state_rank(w.deal.state),
        same_identity(apply_op(w, op).deal, w.deal),
{
}

/// Fund conservation over any sequence of operations on one record: the
/// total value across buyer, custody and seller after the sequence equals
/// the total before it; the record's lifecycle state never moves backward;
/// and the record's write-once fields never change.
pub proof fn lemma_ops_preserve(w: EscrowWorld, ops: Seq<EscrowOp>)
    requires
        world_total(w) <= u64::MAX,
    ensures
        world_total(apply_ops(w, ops)) == world_total(w),
        state_rank(apply_ops(w, ops).deal.state) >= state_rank(w.deal.state),
        same_identity(apply_ops(w, ops).deal, w.deal),
    decreases ops.len(),
{
    if ops.len() > 0 {
        lemma_op_preserves(w, ops[0]);
        lemma_ops_preserve(apply_op(w, ops[0]), ops.drop_first());
    }
}

/// Authorization for funding: a request whose attested caller is not the
/// record's buyer is refused as `UnauthorizedBuyer`, with balances and state
/// untouched.
pub proof fn lemma_fund_unauthorized(c: FundEscrow)
    ensures
        c.buyer_authorized && fund_derivation_ok(c) && c.buyer@ != c.deal.buyer@ ==> spec_fund(c)
            == (c, Err::<(), EscrowError>(EscrowError::UnauthorizedBuyer)),
{
}

/// Authorization for release: a request whose attested caller is not the
/// record's buyer is refused as `UnauthorizedBuyer`, with balances and state
/// untouched.
pub proof fn lemma_release_unauthorized(c: ReleaseEscrow)
    ensures
        c.buyer_authorized && release_derivation_ok(c) && c.deal.state == DealState::Funded
            && c.buyer@ != c.deal.buyer@ ==> spec_release(c) == (
            c,
            Err::<(), EscrowError>(EscrowError::UnauthorizedBuyer),
        ),
{
}

/// State monotonicity, the refusals: releasing a never-funded record fails
/// with `NotFunded`; funding a record that already left Created fails with
/// `AlreadyFunded`; releasing a released record fails with `AlreadyReleased`.
/// Each refusal leaves the request untouched.
pub proof fn lemma_state_machine_refusals(f: FundEscrow, r: ReleaseEscrow)
    ensures
        r.buyer_authorized && release_derivation_ok(r) && r.deal.state == DealState::Created
            ==> spec_release(r) == (r, Err::<(), EscrowError>(EscrowError::NotFunded)),
        f.buyer_authorized && fund_derivation_ok(f) && f.buyer@ == f.deal.buyer@ && f.deal.state
            != DealState::Created ==> spec_fund(f) == (
            f,
            Err::<(), EscrowError>(EscrowError::AlreadyFunded),
        ),
        r.buyer_authorized && release_derivation_ok(r) && r.deal.state == DealState::Released
            ==> spec_release(r) == (r, Err::<(), EscrowError>(EscrowError::AlreadyReleased)),
{
}

/// Reserve safety: a release that moves any value leaves the custody balance
/// at or above the record's storage-upkeep reserve, even when the amount is
/// the whole original deposit; and a release never changes custody by
/// anything but the deal's amount.
pub proof fn lemma_release_reserve_safe(c: ReleaseEscrow)
    requires
        c.seller_balance + c.deal.amount <= u64::MAX,
    ensures
        spec_release(c).1 is Ok && c.deal.amount > 0 ==> spec_release(c).0.escrow_balance
            >= c.reserve,
        spec_release(c).1 is Ok ==> spec_release(c).0.escrow_balance + c.deal.amount
            == c.escrow_balance,
        spec_release(c).1 is Err ==> spec_release(c).0 == c,
{
}

} // verus!
