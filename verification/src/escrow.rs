use vstd::prelude::*;

use crate::address::{created_program_address, record_seeds_with_bump, verify_record_address};
use crate::deal::{same_identity, state_rank, Deal, DealState};
use crate::identity::AccountId;

verus! {

/// Why an operation was refused. Every error aborts its operation with no
/// effect; none is retryable without a corrected input or a state change.
#[derive(Clone, Copy, Debug, PartialEq, Eq, Structural)]
pub enum EscrowError {
    /// The caller's authorization proof was not verified, or the supplied
    /// parties and derivation proof do not re-derive the record's address.
    Unauthenticated,
    /// Creation collides with an existing record for the same triple.
    DuplicateDeal,
    /// The attested caller is not the record's buyer.
    UnauthorizedBuyer,
    /// The record has already left the Created state.
    AlreadyFunded,
    /// The record was never funded.
    NotFunded,
    /// The record's funds have already been released.
    AlreadyReleased,
    /// The buyer's balance cannot cover the deal's amount.
    InsufficientBuyerBalance,
    /// Releasing would draw the custody balance below its storage-upkeep
    /// reserve.
    InsufficientEscrowBalance,
}

/// Inputs of a creation request, as attested by the host environment.
pub struct CreateDeal {
    /// The funding party, which the request names as buyer.
    pub buyer: AccountId,
    /// Whether the environment verified the buyer's authorization proof.
    pub buyer_authorized: bool,
    /// The receiving party; no authorization is needed to be named.
    pub seller: AccountId,
    /// The bump found when the record's address was derived for this triple.
    pub bump: u8,
    /// Whether the derived address already holds a record.
    pub address_in_use: bool,
}

/// Inputs and affected balances of a funding request. The operation mutates
/// the whole value atomically: on any error nothing changes.
pub struct FundEscrow {
    /// The program the record's address is derived under.
    pub program_id: AccountId,
    /// The identity the caller's authorization proof attests.
    pub buyer: AccountId,
    /// Whether the environment verified that proof.
    pub buyer_authorized: bool,
    /// The seller named by the request, used to re-derive the address.
    pub seller: AccountId,
    /// The address the record sits at.
    pub deal_address: AccountId,
    /// The buyer's ledger balance.
    pub buyer_balance: u64,
    /// The custody balance held at the record's address.
    pub escrow_balance: u64,
    /// The record itself.
    pub deal: Deal,
}

/// Inputs and affected balances of a release request. The operation mutates
/// the whole value atomically: on any error nothing changes.
pub struct ReleaseEscrow {
    /// The program the record's address is derived under.
    pub program_id: AccountId,
    /// The identity the caller's authorization proof attests; only the buyer
    /// may release.
    pub buyer: AccountId,
    /// Whether the environment verified that proof.
    pub buyer_authorized: bool,
    /// The seller named by the request, used to re-derive the address and to
    /// receive the funds.
    pub seller: AccountId,
    /// The address the record sits at.
    pub deal_address: AccountId,
    /// The custody balance held at the record's address.
    pub escrow_balance: u64,
    /// The seller's ledger balance.
    pub seller_balance: u64,
    /// The minimum balance the record must keep for its own storage upkeep.
    pub reserve: u64,
    /// The record itself.
    pub deal: Deal,
}

/// Whether the parties and bump of a funding request re-derive the record's
/// address.
pub open spec fn fund_derivation_ok(c: FundEscrow) -> bool {
    created_program_address(
        record_seeds_with_bump(c.buyer@, c.seller@, c.deal.deal_id, c.deal.bump),
        c.program_id@,
    ) == Some(c.deal_address@)
}

/// Whether the parties and bump of a release request re-derive the record's
/// address.
pub open spec fn release_derivation_ok(c: ReleaseEscrow) -> bool {
    created_program_address(
        record_seeds_with_bump(c.buyer@, c.seller@, c.deal.deal_id, c.deal.bump),
        c.program_id@,
    ) == Some(c.deal_address@)
}

/// What `create_deal` returns: the record in its Created state with every
/// write-once field set, or the exact error owed to the request.
pub open spec fn spec_create(c: CreateDeal, amount: u64, deal_id: u64) -> Result<
    Deal,
    EscrowError,
> {
    if !c.buyer_authorized {
        Err(EscrowError::Unauthenticated)
    } else if c.address_in_use {
        Err(EscrowError::DuplicateDeal)
    } else {
        Ok(
            Deal {
                buyer: c.buyer,
                seller: c.seller,
                amount,
                deal_id,
                state: DealState::Created,
                bump: c.bump,
            },
        )
    }
}

/// What `fund_escrow` does to its request: the checks in order, then the
/// atomic move of the deal's amount from the buyer's balance into custody.
pub open spec fn spec_fund(c: FundEscrow) -> (FundEscrow, Result<(), EscrowError>) {
    if !c.buyer_authorized {
        (c, Err(EscrowError::Unauthenticated))
    } else if !fund_derivation_ok(c) {
        (c, Err(EscrowError::Unauthenticated))
    } else if c.buyer@ != c.deal.buyer@ {
        (c, Err(EscrowError::UnauthorizedBuyer))
    } else if c.deal.state != DealState::Created {
        (c, Err(EscrowError::AlreadyFunded))
    } else if c.buyer_balance < c.deal.amount {
        (c, Err(EscrowError::InsufficientBuyerBalance))
    } else {
        (
            FundEscrow {
                buyer_balance: (c.buyer_balance - c.deal.amount) as u64,
                escrow_balance: (c.escrow_balance + c.deal.amount) as u64,
                deal: Deal { state: DealState::Funded, ..c.deal },
                ..c
            },
            Ok(()),
        )
    }
}

/// The custody balance a release may draw from: what stands above the
/// record's storage-upkeep reserve, floored at zero.
pub open spec fn spec_available(escrow_balance: u64, reserve: u64) -> u64 {
    if escrow_balance > reserve {
        (escrow_balance - reserve) as u64
    } else {
        0
    }
}

/// What `release_escrow` does to its request: the checks in order, then the
/// atomic move of the deal's amount from custody to the seller's balance.
pub open spec fn spec_release(c: ReleaseEscrow) -> (ReleaseEscrow, Result<(), EscrowError>) {
    if !c.buyer_authorized {
        (c, Err(EscrowError::Unauthenticated))
    } else if !release_derivation_ok(c) {
        (c, Err(EscrowError::Unauthenticated))
    } else if c.deal.state == DealState::Created {
        (c, Err(EscrowError::NotFunded))
    } else if c.deal.state == DealState::Released {
        (c, Err(EscrowError::AlreadyReleased))
    } else if c.buyer@ != c.deal.buyer@ {
        (c, Err(EscrowError::UnauthorizedBuyer))
    } else if spec_available(c.escrow_balance, c.reserve) < c.deal.amount {
        (c, Err(EscrowError::InsufficientEscrowBalance))
    } else {
        (
            ReleaseEscrow {
                escrow_balance: (c.escrow_balance - c.deal.amount) as u64,
                seller_balance: (c.seller_balance + c.deal.amount) as u64,
                deal: Deal { state: DealState::Released, ..c.deal },
                ..c
            },
            Ok(()),
        )
    }
}

/// Allocate the record for a new deal. The caller supplies the bump found by
/// `derive_record_address` for `(buyer, seller, deal_id)` and whether that
/// derived address already holds a record; a collision is refused as
/// `DuplicateDeal`, an unverified buyer as `Unauthenticated`.
pub fn create_deal(ctx: &CreateDeal, amount: u64, deal_id: u64) -> (r: Result<Deal, EscrowError>)
    ensures
        r == spec_create(*ctx, amount, deal_id),
        r matches Ok(d) ==> d.buyer@ == ctx.buyer@ && d.seller@ == ctx.seller@ && d.amount
            == amount && d.deal_id == deal_id && d.state == DealState::Created && d.bump
            == ctx.bump,
        r is Err <==> !ctx.buyer_authorized || ctx.address_in_use,
{
    if !ctx.buyer_authorized {
        return Err(EscrowError::Unauthenticated);
    }
    if ctx.address_in_use {
        return Err(EscrowError::DuplicateDeal);
    }
    Ok(
        Deal {
            buyer: ctx.buyer,
            seller: ctx.seller,
            amount,
            deal_id,
            state: DealState::Created,
            bump: ctx.bump,
        },
    )
}

/// Move the deal's amount from the buyer's balance into custody and advance
/// the record to Funded, atomically; or refuse with the exact error owed to
/// the request and change nothing.
pub fn fund_escrow(ctx: &mut FundEscrow) -> (r: Result<(), EscrowError>)
    requires
        old(ctx).escrow_balance + old(ctx).deal.amount <= u64::MAX,
    ensures
        r == spec_fund(*old(ctx)).1,
        *final(ctx) == spec_fund(*old(ctx)).0,
        r is Err ==> *final(ctx) == *old(ctx),
        r is Ok ==> final(ctx).buyer_balance + old(ctx).deal.amount == old(ctx).buyer_balance
            && final(ctx).escrow_balance == old(ctx).escrow_balance + old(ctx).deal.amount
            && final(ctx).deal.state == DealState::Funded,
        final(ctx).buyer_balance + final(ctx).escrow_balance == old(ctx).buyer_balance + old(
            ctx,
        ).escrow_balance,
        same_identity(final(ctx).deal, old(ctx).deal),
        state_rank(final(ctx).deal.state) >= state_rank(old(ctx).deal.state),
{
    if !ctx.buyer_authorized {
        return Err(EscrowError::Unauthenticated);
    }
    let derivation_ok = verify_record_address(
        &ctx.program_id,
        &ctx.buyer,
        &ctx.seller,
        ctx.deal.deal_id,
        ctx.deal.bump,
        &ctx.deal_address,
    );
    if !derivation_ok {
        return Err(EscrowError::Unauthenticated);
    }
    if !ctx.buyer.eq_key(&ctx.deal.buyer) {
        return Err(EscrowError::UnauthorizedBuyer);
    }
    if !(ctx.deal.state == DealState::Created) {
        return Err(EscrowError::AlreadyFunded);
    }
    if ctx.buyer_balance < ctx.deal.amount {
        return Err(EscrowError::InsufficientBuyerBalance);
    }
    ctx.buyer_balance = ctx.buyer_balance - ctx.deal.amount;
    ctx.escrow_balance = ctx.escrow_balance + ctx.deal.amount;
    ctx.deal.state = DealState::Funded;
    Ok(())
}

/// Move the deal's amount from custody to the seller's balance and advance
/// the record to Released, atomically; or refuse with the exact error owed to
/// the request and change nothing. Custody is never drawn below the record's
/// storage-upkeep reserve.
pub fn release_escrow(ctx: &mut ReleaseEscrow) -> (r: Result<(), EscrowError>)
    requires
        old(ctx).seller_balance + old(ctx).deal.amount <= u64::MAX,
    ensures
        r == spec_release(*old(ctx)).1,
        *final(ctx) == spec_release(*old(ctx)).0,
        r is Err ==> *final(ctx) == *old(ctx),
        r is Ok ==> final(ctx).seller_balance == old(ctx).seller_balance + old(ctx).deal.amount
            && final(ctx).escrow_balance + old(ctx).deal.amount == old(ctx).escrow_balance
            && final(ctx).deal.state == DealState::Released,
        r is Ok && old(ctx).deal.amount > 0 ==> final(ctx).escrow_balance >= old(ctx).reserve,
        final(ctx).escrow_balance + final(ctx).seller_balance == old(ctx).escrow_balance + old(
            ctx,
        ).seller_balance,
        same_identity(final(ctx).deal, old(ctx).deal),
        state_rank(final(ctx).deal.state) >= state_rank(old(ctx).deal.state),
{
    if !ctx.buyer_authorized {
        return Err(EscrowError::Unauthenticated);
    }
    let derivation_ok = verify_record_address(
        &ctx.program_id,
        &ctx.buyer,
        &ctx.seller,
        ctx.deal.deal_id,
        ctx.deal.bump,
        &ctx.deal_address,
    );
    if !derivation_ok {
        return Err(EscrowError::Unauthenticated);
    }
    if ctx.deal.state == DealState::Created {
        return Err(EscrowError::NotFunded);
    }
    if ctx.deal.state == DealState::Released {
        return Err(EscrowError::AlreadyReleased);
    }
    if !ctx.buyer.eq_key(&ctx.deal.buyer) {
        return Err(EscrowError::UnauthorizedBuyer);
    }
    let available: u64 = if ctx.escrow_balance > ctx.reserve {
        ctx.escrow_balance - ctx.reserve
    } else {
        0
    };
    if available < ctx.deal.amount {
        return Err(EscrowError::InsufficientEscrowBalance);
    }
    ctx.escrow_balance = ctx.escrow_balance - ctx.deal.amount;
    ctx.seller_balance = ctx.seller_balance + ctx.deal.amount;
    ctx.deal.state = DealState::Released;
    Ok(())
}

} // verus!
