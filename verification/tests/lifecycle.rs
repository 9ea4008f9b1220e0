use shopchain_escrow::{
    create_deal, derive_record_address, fund_escrow, release_escrow, AccountId, CreateDeal, Deal,
    DealState, EscrowError, FundEscrow, ReleaseEscrow,
};

const RESERVE: u64 = 100;

fn id(tag: u8) -> AccountId {
    AccountId::new([tag; 32])
}

fn program_id() -> AccountId {
    id(9)
}

/// Create a deal between buyer `b` and seller `s`, deriving its address the
/// way the host runtime would.
fn created_deal(b: AccountId, s: AccountId, amount: u64, deal_id: u64) -> (Deal, AccountId) {
    let (address, bump) = derive_record_address(&program_id(), &b, &s, deal_id)
        .expect("a bump exists for this triple");
    let ctx = CreateDeal {
        buyer: b,
        buyer_authorized: true,
        seller: s,
        bump,
        address_in_use: false,
    };
    let deal = create_deal(&ctx, amount, deal_id).expect("creation succeeds");
    (deal, address)
}

fn funding_request(deal: Deal, address: AccountId, buyer_balance: u64, escrow_balance: u64) -> FundEscrow {
    FundEscrow {
        program_id: program_id(),
        buyer: deal.buyer,
        buyer_authorized: true,
        seller: deal.seller,
        deal_address: address,
        buyer_balance,
        escrow_balance,
        deal,
    }
}

fn release_request(deal: Deal, address: AccountId, escrow_balance: u64, seller_balance: u64) -> ReleaseEscrow {
    ReleaseEscrow {
        program_id: program_id(),
        buyer: deal.buyer,
        buyer_authorized: true,
        seller: deal.seller,
        deal_address: address,
        escrow_balance,
        seller_balance,
        reserve: RESERVE,
        deal,
    }
}

#[test]
fn scenario_create() {
    let (deal, _address) = created_deal(id(1), id(2), 1000, 7);
    assert_eq!(deal.state, DealState::Created);
    assert_eq!(deal.amount, 1000);
    assert_eq!(deal.deal_id, 7);
    assert!(deal.buyer.eq_key(&id(1)));
    assert!(deal.seller.eq_key(&id(2)));
}

#[test]
fn scenario_fund() {
    let (deal, address) = created_deal(id(1), id(2), 1000, 7);
    let mut ctx = funding_request(deal, address, 5000, RESERVE);
    assert_eq!(fund_escrow(&mut ctx), Ok(()));
    assert_eq!(ctx.buyer_balance, 4000);
    assert_eq!(ctx.escrow_balance, 1000 + RESERVE);
    assert_eq!(ctx.deal.state, DealState::Funded);
}

#[test]
fn scenario_release() {
    let (deal, address) = created_deal(id(1), id(2), 1000, 7);
    let mut fund = funding_request(deal, address, 5000, RESERVE);
    assert_eq!(fund_escrow(&mut fund), Ok(()));
    let mut rel = release_request(fund.deal, address, fund.escrow_balance, 300);
    assert_eq!(release_escrow(&mut rel), Ok(()));
    assert_eq!(rel.seller_balance, 1300);
    assert_eq!(rel.escrow_balance, RESERVE);
    assert_eq!(rel.deal.state, DealState::Released);
}

#[test]
fn scenario_fund_twice() {
    let (deal, address) = created_deal(id(1), id(2), 1000, 7);
    let mut ctx = funding_request(deal, address, 5000, RESERVE);
    assert_eq!(fund_escrow(&mut ctx), Ok(()));
    let balance_after_first = ctx.buyer_balance;
    let escrow_after_first = ctx.escrow_balance;
    assert_eq!(fund_escrow(&mut ctx), Err(EscrowError::AlreadyFunded));
    assert_eq!(ctx.buyer_balance, balance_after_first);
    assert_eq!(ctx.escrow_balance, escrow_after_first);
    assert_eq!(ctx.deal.state, DealState::Funded);
}

#[test]
fn scenario_release_wrong_seller() {
    let (deal, address) = created_deal(id(1), id(2), 1000, 7);
    let mut fund = funding_request(deal, address, 5000, RESERVE);
    assert_eq!(fund_escrow(&mut fund), Ok(()));
    let mut rel = release_request(fund.deal, address, fund.escrow_balance, 300);
    rel.seller = id(3);
    assert_eq!(release_escrow(&mut rel), Err(EscrowError::Unauthenticated));
    assert_eq!(rel.escrow_balance, 1000 + RESERVE);
    assert_eq!(rel.seller_balance, 300);
    assert_eq!(rel.deal.state, DealState::Funded);
}

#[test]
fn release_before_funding_fails() {
    let (deal, address) = created_deal(id(1), id(2), 1000, 7);
    let mut rel = release_request(deal, address, RESERVE, 300);
    assert_eq!(release_escrow(&mut rel), Err(EscrowError::NotFunded));
    assert_eq!(rel.escrow_balance, RESERVE);
    assert_eq!(rel.seller_balance, 300);
    assert_eq!(rel.deal.state, DealState::Created);
}

#[test]
fn release_twice_fails() {
    let (deal, address) = created_deal(id(1), id(2), 1000, 7);
    let mut fund = funding_request(deal, address, 5000, RESERVE);
    assert_eq!(fund_escrow(&mut fund), Ok(()));
    let mut rel = release_request(fund.deal, address, fund.escrow_balance, 300);
    assert_eq!(release_escrow(&mut rel), Ok(()));
    let mut again = release_request(rel.deal, address, rel.escrow_balance, rel.seller_balance);
    assert_eq!(release_escrow(&mut again), Err(EscrowError::AlreadyReleased));
    assert_eq!(again.seller_balance, 1300);
    assert_eq!(again.escrow_balance, RESERVE);
}

#[test]
fn unauthorized_buyer_cannot_fund() {
    // A record claiming another buyer, planted at the address the caller's
    // own triple derives: the derivation passes, the buyer check refuses.
    let caller = id(1);
    let (mut deal, address) = created_deal(caller, id(2), 1000, 7);
    deal.buyer = id(4);
    let mut ctx = funding_request(deal, address, 5000, RESERVE);
    ctx.buyer = caller;
    assert_eq!(fund_escrow(&mut ctx), Err(EscrowError::UnauthorizedBuyer));
    assert_eq!(ctx.buyer_balance, 5000);
    assert_eq!(ctx.escrow_balance, RESERVE);
    assert_eq!(ctx.deal.state, DealState::Created);
}

#[test]
fn unauthorized_buyer_cannot_release() {
    let caller = id(1);
    let (deal, address) = created_deal(caller, id(2), 1000, 7);
    let mut fund = funding_request(deal, address, 5000, RESERVE);
    assert_eq!(fund_escrow(&mut fund), Ok(()));
    let mut rel = release_request(fund.deal, address, fund.escrow_balance, 300);
    rel.deal.buyer = id(4);
    assert_eq!(release_escrow(&mut rel), Err(EscrowError::UnauthorizedBuyer));
    assert_eq!(rel.escrow_balance, 1000 + RESERVE);
    assert_eq!(rel.seller_balance, 300);
    assert_eq!(rel.deal.state, DealState::Funded);
}

#[test]
fn unauthenticated_caller_is_refused() {
    let (deal, address) = created_deal(id(1), id(2), 1000, 7);
    let mut ctx = funding_request(deal, address, 5000, RESERVE);
    ctx.buyer_authorized = false;
    assert_eq!(fund_escrow(&mut ctx), Err(EscrowError::Unauthenticated));
    assert_eq!(ctx.buyer_balance, 5000);
    assert_eq!(ctx.deal.state, DealState::Created);
}

#[test]
fn unauthenticated_creation_is_refused() {
    let ctx = CreateDeal {
        buyer: id(1),
        buyer_authorized: false,
        seller: id(2),
        bump: 255,
        address_in_use: false,
    };
    assert_eq!(create_deal(&ctx, 1000, 7), Err(EscrowError::Unauthenticated));
}

#[test]
fn duplicate_deal_is_refused() {
    let ctx = CreateDeal {
        buyer: id(1),
        buyer_authorized: true,
        seller: id(2),
        bump: 255,
        address_in_use: true,
    };
    assert_eq!(create_deal(&ctx, 1000, 7), Err(EscrowError::DuplicateDeal));
}

#[test]
fn insufficient_buyer_balance_is_refused() {
    let (deal, address) = created_deal(id(1), id(2), 1000, 7);
    let mut ctx = funding_request(deal, address, 999, RESERVE);
    assert_eq!(fund_escrow(&mut ctx), Err(EscrowError::InsufficientBuyerBalance));
    assert_eq!(ctx.buyer_balance, 999);
    assert_eq!(ctx.escrow_balance, RESERVE);
    assert_eq!(ctx.deal.state, DealState::Created);
}

#[test]
fn insufficient_escrow_balance_is_refused() {
    let (deal, address) = created_deal(id(1), id(2), 1000, 7);
    let mut fund = funding_request(deal, address, 5000, RESERVE);
    assert_eq!(fund_escrow(&mut fund), Ok(()));
    // Custody one short of reserve plus amount: paying out would cut into
    // the record's storage upkeep.
    let mut rel = release_request(fund.deal, address, 1000 + RESERVE - 1, 300);
    assert_eq!(release_escrow(&mut rel), Err(EscrowError::InsufficientEscrowBalance));
    assert_eq!(rel.escrow_balance, 1000 + RESERVE - 1);
    assert_eq!(rel.seller_balance, 300);
    assert_eq!(rel.deal.state, DealState::Funded);
}

#[test]
fn release_of_entire_deposit_keeps_reserve() {
    let (deal, address) = created_deal(id(1), id(2), 1000, 7);
    let mut fund = funding_request(deal, address, 1000, RESERVE);
    assert_eq!(fund_escrow(&mut fund), Ok(()));
    assert_eq!(fund.buyer_balance, 0);
    let mut rel = release_request(fund.deal, address, fund.escrow_balance, 0);
    assert_eq!(release_escrow(&mut rel), Ok(()));
    assert_eq!(rel.seller_balance, 1000);
    assert_eq!(rel.escrow_balance, RESERVE);
}

#[test]
fn conservation_across_lifecycle() {
    let (deal, address) = created_deal(id(1), id(2), 750, 11);
    let buyer_before: u64 = 2000;
    let seller_before: u64 = 40;
    let mut fund = funding_request(deal, address, buyer_before, RESERVE);
    assert_eq!(fund_escrow(&mut fund), Ok(()));
    assert_eq!(fund.buyer_balance + 750, buyer_before);
    assert_eq!(fund.buyer_balance + fund.escrow_balance, buyer_before + RESERVE);
    let mut rel = release_request(fund.deal, address, fund.escrow_balance, seller_before);
    assert_eq!(release_escrow(&mut rel), Ok(()));
    assert_eq!(rel.seller_balance, seller_before + 750);
    assert_eq!(
        fund.buyer_balance + rel.escrow_balance + rel.seller_balance,
        buyer_before + RESERVE + seller_before
    );
}
