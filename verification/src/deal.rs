use vstd::prelude::*;

use crate::identity::AccountId;

verus! {

/// Lifecycle state of a custody record. It only ever advances
/// Created -> Funded -> Released.
#[derive(Clone, Copy, Debug, PartialEq, Eq, Structural)]
pub enum DealState {
    Created,
    Funded,
    Released,
}

/// How far along its lifecycle a state is; transitions never lower it.
pub open spec fn state_rank(s: DealState) -> int {
    match s {
        DealState::Created => 0,
        DealState::Funded => 1,
        DealState::Released => 2,
    }
}

/// The custody record for one buyer-seller-identifier triple. The parties,
/// the amount, the identifier and the bump are written once at creation and
/// never change; only `state` advances.
#[derive(Clone, Copy, Debug, PartialEq, Eq)]
pub struct Deal {
    /// The funding party; the only identity allowed to fund or release.
    pub buyer: AccountId,
    /// The receiving party.
    pub seller: AccountId,
    /// The quantity of value this deal commits to move.
    pub amount: u64,
    /// Caller-chosen disambiguator, so one pair of parties can run several
    /// deals at once.
    pub deal_id: u64,
    /// Where the record stands in its lifecycle.
    pub state: DealState,
    /// The derivation proof recorded at creation: the bump that makes the
    /// record's address a valid derivation of the triple.
    pub bump: u8,
}

/// The write-once fields of two record values agree.
pub open spec fn same_identity(a: Deal, b: Deal) -> bool {
    &&& a.buyer@ == b.buyer@
    &&& a.seller@ == b.seller@
    &&& a.amount == b.amount
    &&& a.deal_id == b.deal_id
    &&& a.bump == b.bump
}

} // verus!
