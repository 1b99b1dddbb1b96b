use raffle::address::{Address, AddressKind};
use raffle::raffle_instance::{calculate_tier_prize, Contract, Error};
use raffle::shared::{
    LedgerInfo, RaffleConfig, RaffleStatus, RandomnessSource, Ticket, Transfer, DEFAULT_CLAIM_LOCKUP_SECONDS,
};

fn account(n: u64) -> Address {
    Address { kind: AddressKind::Account, w0: n, w1: 1, w2: 2, w3: 3 }
}

fn contract(n: u64) -> Address {
    Address { kind: AddressKind::Contract, w0: n, w1: 4, w2: 5, w3: 6 }
}

fn at(timestamp: u64) -> LedgerInfo {
    LedgerInfo { timestamp, sequence: 500 }
}

fn config(prizes: Vec<u32>) -> RaffleConfig {
    RaffleConfig {
        description: b"Tiered raffle".to_vec(),
        end_time: 0,
        no_deadline: true,
        max_tickets: 10,
        max_tickets_per_tx: 5,
        min_tickets: 1,
        allow_multiple: true,
        ticket_price: 10_000,
        payment_token: contract(50),
        prize_amount: 1_000_000,
        prizes,
        randomness_source: RandomnessSource::Internal,
        oracle_address: None,
        protocol_fee_bp: 0,
        treasury_address: None,
        swap_router: None,
        tikka_token: None,
        metadata_hash: [9u8; 32],
        claim_lockup_seconds: 0,
        swap_deadline_seconds: 0,
        early_bird_ticket_percentage: 0,
        early_bird_discount_bp: 0,
    }
}

fn created(prizes: Vec<u32>) -> Contract {
    let mut c = Contract::new(contract(1));
    c.init(contract(2), account(3), account(4), config(prizes), true, at(1_000)).unwrap();
    c
}

/// A funded raffle whose draw gave `winners`, finalized at time 1 000.
fn finalized(prizes: Vec<u32>, winners: Vec<Address>) -> Contract {
    let mut c = created(prizes);
    c.deposit_prize().unwrap();
    let n = winners.len();
    let raffle = c.raffle.as_mut().unwrap();
    raffle.status = RaffleStatus::Finalized;
    raffle.winners = winners;
    raffle.claimed_winners = vec![false; n];
    raffle.finalized_at = Some(1_000);
    c
}

#[test]
fn test_tier_prizes_add_up_to_prize() {
    let c = created(vec![3_333, 3_333, 3_334]);
    let raffle = c.get_raffle().unwrap();
    assert_eq!(calculate_tier_prize(raffle, 0), Ok(333_300));
    assert_eq!(calculate_tier_prize(raffle, 1), Ok(333_300));
    assert_eq!(calculate_tier_prize(raffle, 2), Ok(333_400));
    assert_eq!(calculate_tier_prize(raffle, 3), Err(Error::InvalidIndex));

    let mut odd = created(vec![5_000, 5_000]);
    odd.raffle.as_mut().unwrap().prize_amount = 999;
    let raffle = odd.get_raffle().unwrap();
    let first = calculate_tier_prize(raffle, 0).unwrap();
    let last = calculate_tier_prize(raffle, 1).unwrap();
    assert_eq!(first, 499);
    assert_eq!(last, 500);
    assert_eq!(first + last, 999);
}

#[test]
fn test_tier_prize_overflow() {
    let mut c = created(vec![5_000, 5_000]);
    c.raffle.as_mut().unwrap().prize_amount = i128::MAX;
    assert_eq!(calculate_tier_prize(c.get_raffle().unwrap(), 0), Err(Error::ArithmeticOverflow));
}

#[test]
fn test_init_starts_pending_prize() {
    let c = created(vec![10_000]);
    let raffle = c.get_raffle().unwrap();
    assert_eq!(raffle.status, RaffleStatus::PendingPrize);
    assert_eq!(raffle.claim_lockup_seconds, DEFAULT_CLAIM_LOCKUP_SECONDS);
    assert!(!c.is_paused());
    assert!(!c.is_ticket_sales_paused());
    assert_eq!(c.get_accumulated_fees(), 0);
    assert_eq!(c.get_fairness_data().err(), Some(Error::InvalidStatus));
}

#[test]
fn test_init_rejections() {
    let mut c = Contract::new(contract(1));
    assert_eq!(c.init(contract(2), account(3), account(4), config(vec![10_000]), false, at(1_000)), Err(Error::InvalidTokenAddress));
    let mut cfg = config(vec![10_000]);
    cfg.min_tickets = 11;
    assert_eq!(c.init(contract(2), account(3), account(4), cfg, true, at(1_000)), Err(Error::InvalidTicketRange));
    let cfg = config(vec![100; 101]);
    assert_eq!(c.init(contract(2), account(3), account(4), cfg, true, at(1_000)), Err(Error::TooManyPrizes));
    let mut cfg = config(vec![10_000]);
    cfg.oracle_address = Some(account(60));
    assert_eq!(c.init(contract(2), account(3), account(4), cfg, true, at(1_000)), Err(Error::InvalidParameters));
    let mut cfg = config(vec![10_000]);
    cfg.no_deadline = false;
    cfg.end_time = 900;
    assert_eq!(c.init(contract(2), account(3), account(4), cfg, true, at(1_000)), Err(Error::InvalidParameters));
    c.init(contract(2), account(3), account(4), config(vec![10_000]), true, at(1_000)).unwrap();
    assert_eq!(
        c.init(contract(2), account(3), account(4), config(vec![10_000]), true, at(1_000)),
        Err(Error::AlreadyInitialized)
    );
}

#[test]
fn test_deposit_makes_raffle_active_once() {
    let mut c = created(vec![10_000]);
    let payment = c.deposit_prize().unwrap();
    assert_eq!(payment, Transfer { token: contract(50), from: account(4), to: contract(1), amount: 1_000_000 });
    assert_eq!(c.get_raffle().unwrap().status, RaffleStatus::Active);
    assert_eq!(c.deposit_prize(), Err(Error::PrizeAlreadyDeposited));
}

#[test]
fn test_claims_every_tier_once_then_claimed() {
    let first = account(10);
    let second = account(11);
    let mut c = finalized(vec![6_000, 4_000], vec![first, second]);
    let lockup = DEFAULT_CLAIM_LOCKUP_SECONDS;
    assert_eq!(c.claim_prize(first, 0, at(1_000 + lockup - 1)), Err(Error::ClaimTooEarly));
    assert_eq!(c.claim_prize(second, 0, at(1_000 + lockup)), Err(Error::NotWinner));
    assert_eq!(c.claim_prize(first, 2, at(1_000 + lockup)), Err(Error::InvalidParameters));
    let (amount, payout, fee) = c.claim_prize(first, 0, at(1_000 + lockup)).unwrap();
    assert_eq!(fee, None);
    assert_eq!(amount, 600_000);
    assert_eq!(payout, Transfer { token: contract(50), from: contract(1), to: first, amount: 600_000 });
    assert_eq!(c.claim_prize(first, 0, at(1_000 + lockup)), Err(Error::PrizeAlreadyClaimed));
    assert_eq!(c.get_raffle().unwrap().status, RaffleStatus::Finalized);
    let (amount, _, _) = c.claim_prize(second, 1, at(1_000 + lockup)).unwrap();
    assert_eq!(amount, 400_000);
    assert_eq!(c.get_raffle().unwrap().status, RaffleStatus::Claimed);
    assert_eq!(c.claim_prize(second, 1, at(1_000 + lockup)), Err(Error::InvalidStatus));
}

#[test]
fn test_claim_refused_when_not_finalized() {
    let mut c = created(vec![10_000]);
    assert_eq!(c.claim_prize(account(10), 0, at(5_000)), Err(Error::InvalidStatus));
    let mut bare = Contract::new(contract(1));
    assert_eq!(bare.claim_prize(account(10), 0, at(5_000)), Err(Error::NotInitialized));
}

#[test]
fn test_refunds_of_cancelled_raffle_once() {
    let mut c = created(vec![10_000]);
    c.deposit_prize().unwrap();
    assert_eq!(c.refund_prize(), Err(Error::InvalidStatus));
    let holder = account(10);
    c.tickets.insert(1, Ticket { id: 1, owner: holder, purchase_time: 1_100, ticket_number: 1 });
    assert_eq!(c.refund_ticket(1), Err(Error::InvalidStatus));
    c.raffle.as_mut().unwrap().status = RaffleStatus::Cancelled;
    let prize = c.refund_prize().unwrap();
    assert_eq!(prize, Transfer { token: contract(50), from: contract(1), to: account(4), amount: 1_000_000 });
    assert_eq!(c.refund_prize(), Err(Error::PrizeNotDeposited));
    let (amount, refund) = c.refund_ticket(1).unwrap();
    assert_eq!(amount, 10_000);
    assert_eq!(refund, Transfer { token: contract(50), from: contract(1), to: holder, amount: 10_000 });
    assert_eq!(c.refund_ticket(1), Err(Error::PrizeAlreadyClaimed));
    assert_eq!(c.refund_ticket(2), Err(Error::TicketNotFound));
}

#[test]
fn test_error_codes_of_standalone_instance() {
    assert_eq!(Error::RaffleNotFound.code(), 1);
    assert_eq!(Error::RandomnessTooEarly.code(), 64);
    assert_eq!(Error::InvalidAdminAddress.code(), 63);
}

#[test]
fn test_claim_withholds_protocol_fee_for_treasury() {
    let winner = account(10);
    let mut c = finalized(vec![10_000], vec![winner]);
    {
        let raffle = c.raffle.as_mut().unwrap();
        raffle.protocol_fee_bp = 250;
        raffle.treasury_address = Some(account(70));
    }
    let lockup = DEFAULT_CLAIM_LOCKUP_SECONDS;
    // 2.5% of a 1 000 000 tier: 25 000 to the treasury, 975 000 to the winner.
    let (net, payout, fee) = c.claim_prize(winner, 0, at(1_000 + lockup)).unwrap();
    assert_eq!(net, 975_000);
    assert_eq!(payout, Transfer { token: contract(50), from: contract(1), to: winner, amount: 975_000 });
    assert_eq!(fee, Some(Transfer { token: contract(50), from: contract(1), to: account(70), amount: 25_000 }));
    assert_eq!(c.get_accumulated_fees(), 0);
}

#[test]
fn test_claim_fee_without_treasury_accumulates() {
    let winner = account(10);
    let mut c = finalized(vec![10_000], vec![winner]);
    c.raffle.as_mut().unwrap().protocol_fee_bp = 100;
    let (net, _, fee) = c.claim_prize(winner, 0, at(1_000 + DEFAULT_CLAIM_LOCKUP_SECONDS)).unwrap();
    assert_eq!(net, 990_000);
    assert_eq!(fee, None);
    assert_eq!(c.get_accumulated_fees(), 10_000);
}

#[test]
fn test_no_deadline_ignores_end_time() {
    let mut c = Contract::new(contract(1));
    let mut cfg = config(vec![10_000]);
    cfg.end_time = 5_000;
    assert_eq!(c.init(contract(2), account(3), account(4), cfg, true, at(1_000)), Ok(()));
    let raffle = c.get_raffle().unwrap();
    assert!(raffle.no_deadline);
    assert_eq!(raffle.end_time, 0);
}

#[test]
fn test_finished_raffle_cannot_be_funded_again() {
    let mut c = created(vec![10_000]);
    c.deposit_prize().unwrap();
    c.raffle.as_mut().unwrap().status = RaffleStatus::Cancelled;
    c.refund_prize().unwrap();
    assert_eq!(c.deposit_prize(), Err(Error::InvalidStatus));
    assert_eq!(c.get_raffle().unwrap().status, RaffleStatus::Cancelled);
}

#[test]
fn test_standalone_reentrancy_guard() {
    let winner = account(10);
    let mut c = finalized(vec![10_000], vec![winner]);
    c.acquire_guard().unwrap();
    assert_eq!(c.claim_prize(winner, 0, at(1_000 + DEFAULT_CLAIM_LOCKUP_SECONDS)), Err(Error::Reentrancy));
    c.release_guard();
    assert!(c.claim_prize(winner, 0, at(1_000 + DEFAULT_CLAIM_LOCKUP_SECONDS)).is_ok());
}

