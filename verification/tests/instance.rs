use raffle::address::{Address, AddressKind};
use raffle::instance::{
    build_internal_seed_u64, calculate_protocol_fee, randomness_proof_message, CancelReason, Contract, Error, FeeRoute, Finalization, RaffleConfig, RaffleStatus,
    RandomnessSource, WinnerDrawn, CLAIM_DELAY_SECONDS, ORACLE_TIMEOUT_LEDGERS,
};
use raffle::shared::{LedgerInfo, Transfer};
use soroban_sdk::Env;

fn account(n: u64) -> Address {
    Address { kind: AddressKind::Account, w0: n, w1: 0xaaaa, w2: 0xbbbb, w3: 0xcccc }
}

fn contract(n: u64) -> Address {
    Address { kind: AddressKind::Contract, w0: n, w1: 0xdddd, w2: 0xeeee, w3: 0xffff }
}

const XLM: i128 = 10_000_000;

fn at(timestamp: u64, sequence: u32) -> LedgerInfo {
    LedgerInfo { timestamp, sequence }
}

fn config(source: RandomnessSource) -> RaffleConfig {
    RaffleConfig {
        description: b"Weekly raffle".to_vec(),
        end_time: 2_000,
        max_tickets: 5,
        min_tickets: 0,
        allow_multiple: true,
        ticket_price: 100 * XLM,
        payment_token: contract(50),
        prize_amount: 1_000 * XLM,
        prizes: vec![10_000u32],
        randomness_source: source,
        oracle_address: Some(account(60)),
        protocol_fee_bp: 250,
        treasury_address: Some(account(70)),
        swap_router: None,
        tikka_token: None,
        metadata_hash: [7u8; 32],
    }
}

fn instance() -> Address {
    contract(1)
}

fn factory() -> Address {
    contract(2)
}

fn admin() -> Address {
    account(3)
}

fn creator() -> Address {
    account(4)
}

/// An initialized raffle whose prize is deposited.
fn funded(source: RandomnessSource) -> Contract {
    let mut c = Contract::new(instance());
    c.init(factory(), admin(), creator(), config(source), at(1_000, 10)).unwrap();
    c.deposit_prize().unwrap();
    c
}

fn status(c: &Contract) -> RaffleStatus {
    c.get_raffle().unwrap().status
}

#[test]
fn test_protocol_fee_on_ticket_matches_fee_model() {
    // 2.5% of a 100 XLM ticket: 2.5 XLM to the treasury, 97.5 XLM to the contract.
    assert_eq!(calculate_protocol_fee(100 * XLM, 250), Ok((25 * XLM / 10, 975 * XLM / 10)));
    assert_eq!(calculate_protocol_fee(1_000_000_000, 250), Ok((25_000_000, 975_000_000)));
    assert_eq!(calculate_protocol_fee(0, 250), Ok((0, 0)));
    assert_eq!(calculate_protocol_fee(999, 1), Ok((0, 999)));
    assert_eq!(calculate_protocol_fee(10_000, 10_000), Ok((10_000, 0)));
}

#[test]
fn test_effective_total_fee_example() {
    // 2.5% on ten 100 XLM tickets and on an 800 XLM prize: 45 XLM in all.
    let (ticket_fee, _) = calculate_protocol_fee(100 * XLM, 250).unwrap();
    let (prize_fee, net_prize) = calculate_protocol_fee(800 * XLM, 250).unwrap();
    assert_eq!(10 * ticket_fee, 25 * XLM);
    assert_eq!(prize_fee, 20 * XLM);
    assert_eq!(net_prize, 780 * XLM);
    assert_eq!(10 * ticket_fee + prize_fee, 45 * XLM);
}

#[test]
fn test_ticket_transfer_keeps_commitment() {
    let env = Env::default();
    let mut c = funded(RandomnessSource::CommitReveal);
    c.buy_tickets(account(10), 5, at(1_100, 11)).unwrap();
    c.commit_seed(account(10), [5u8; 32]).unwrap();
    c.transfer(account(10), account(11), 1).unwrap();
    assert_eq!(c.commit_hashes.get(&account(10)), Some(&[5u8; 32]));
    assert_eq!(c.commit_count, 1);
    assert_eq!(c.reveal_seed(&env, account(10), b"x".to_vec()), Err(Error::CommitHashMismatch));
}

#[test]
fn test_protocol_fee_errors() {
    assert_eq!(calculate_protocol_fee(100, 10_001), Err(Error::InvalidParameters));
    assert_eq!(calculate_protocol_fee(-1, 250), Err(Error::InvalidParameters));
    assert_eq!(calculate_protocol_fee(i128::MAX, 2), Err(Error::ArithmeticOverflow));
}

#[test]
fn test_error_codes() {
    assert_eq!(Error::RaffleNotFound.code(), 1);
    assert_eq!(Error::FallbackTooEarly.code(), 9);
    assert_eq!(Error::InvalidParameters.code(), 21);
    assert_eq!(Error::TicketAlreadyRefunded.code(), 66);
    assert_eq!(RaffleStatus::Failed.code(), 4);
    assert_eq!(CancelReason::MinTicketsNotMet.code(), 3);
    assert_eq!(RandomnessSource::CommitReveal.code(), 2);
    assert_eq!(Error::RandomnessTooEarly.code(), 67);
    assert_eq!(RaffleStatus::PendingPrize.code(), 6);
    assert_eq!(RaffleStatus::Claimed.code(), 5);
}

#[test]
fn test_randomness_proof_message_is_big_endian_seed() {
    assert_eq!(randomness_proof_message(0x0102_0304_0506_0708), vec![1u8, 2, 3, 4, 5, 6, 7, 8]);
    assert_eq!(randomness_proof_message(9), vec![0u8, 0, 0, 0, 0, 0, 0, 9]);
}

#[test]
fn test_init_validates_configuration() {
    let mut c = Contract::new(instance());
    let mut bad = config(RandomnessSource::Internal);
    bad.metadata_hash = [0u8; 32];
    assert_eq!(c.init(factory(), admin(), creator(), bad, at(1_000, 10)), Err(Error::InvalidParameters));
    let mut bad = config(RandomnessSource::Internal);
    bad.prizes = vec![5_000u32, 4_000u32];
    assert_eq!(c.init(factory(), admin(), creator(), bad, at(1_000, 10)), Err(Error::InvalidParameters));
    let mut bad = config(RandomnessSource::External);
    bad.oracle_address = None;
    assert_eq!(c.init(factory(), admin(), creator(), bad, at(1_000, 10)), Err(Error::InvalidParameters));
    let bad = config(RandomnessSource::Internal);
    assert_eq!(c.init(factory(), admin(), creator(), bad, at(2_000, 10)), Err(Error::InvalidParameters));
    assert!(c.get_raffle().is_err());

    c.init(factory(), admin(), creator(), config(RandomnessSource::Internal), at(1_000, 10)).unwrap();
    let raffle = c.get_raffle().unwrap();
    assert_eq!(raffle.status, RaffleStatus::PendingPrize);
    assert!(!raffle.prize_deposited);
    assert_eq!(raffle.creator, creator());
    assert_eq!(
        c.init(factory(), admin(), creator(), config(RandomnessSource::Internal), at(1_000, 10)),
        Err(Error::AlreadyInitialized)
    );
}

#[test]
fn test_deposit_prize_once() {
    let mut c = Contract::new(instance());
    assert_eq!(c.deposit_prize(), Err(Error::NotInitialized));
    c.init(factory(), admin(), creator(), config(RandomnessSource::Internal), at(1_000, 10)).unwrap();
    let payment = c.deposit_prize().unwrap();
    assert_eq!(payment, Transfer { token: contract(50), from: creator(), to: instance(), amount: 1_000 * XLM });
    assert!(c.get_raffle().unwrap().prize_deposited);
    assert_eq!(c.deposit_prize(), Err(Error::PrizeAlreadyDeposited));
}

#[test]
fn test_buy_tickets_issues_ids_and_reports_volume() {
    let mut c = funded(RandomnessSource::Internal);
    let buyer = account(10);
    let purchase = c.buy_tickets(buyer, 3, at(1_100, 11)).unwrap();
    assert_eq!(purchase.ticket_ids, vec![1u32, 2, 3]);
    assert_eq!(purchase.tickets_sold, 3);
    assert_eq!(purchase.total_price, 300 * XLM);
    assert_eq!(purchase.volume_report, Some((factory(), contract(50), 300 * XLM)));
    // 2.5% of each 100 XLM ticket goes to the treasury: 7.5 XLM for three.
    assert_eq!(purchase.protocol_fee, 75 * XLM / 10);
    assert_eq!(
        purchase.fee_payment,
        Some(Transfer { token: contract(50), from: buyer, to: account(70), amount: 75 * XLM / 10 })
    );
    assert_eq!(purchase.payment, Transfer { token: contract(50), from: buyer, to: instance(), amount: 2925 * XLM / 10 });
    assert_eq!(c.balance(buyer), 3);
    assert_eq!(c.owner_of(2), Ok(buyer));
    assert_eq!(c.owner_of(4), Err(Error::InvalidParameters));
    assert_eq!(c.get_ticket_count(), 3);
    let tickets = c.get_tickets(1, 10);
    assert_eq!(tickets.len(), 2);
    assert_eq!(tickets[0].id, 2);
    assert_eq!(tickets[1].ticket_number, 3);
    assert!(c.get_tickets(3, 10).is_empty());
}

#[test]
fn test_buy_tickets_never_oversells() {
    let mut c = funded(RandomnessSource::Internal);
    c.buy_tickets(account(10), 4, at(1_100, 11)).unwrap();
    assert_eq!(c.buy_tickets(account(11), 2, at(1_100, 11)).err(), Some(Error::TicketsSoldOut));
    let last = c.buy_tickets(account(11), 1, at(1_100, 11)).unwrap();
    assert_eq!(last.tickets_sold, 5);
    let raffle = c.get_raffle().unwrap();
    assert_eq!(raffle.tickets_sold, raffle.max_tickets);
    assert_eq!(raffle.status, RaffleStatus::Drawing);
    assert_eq!(c.buy_tickets(account(12), 1, at(1_100, 11)).err(), Some(Error::RaffleInactive));
}

#[test]
fn test_buy_tickets_errors() {
    let mut c = Contract::new(instance());
    assert_eq!(c.buy_tickets(account(10), 1, at(1_100, 11)).err(), Some(Error::NotInitialized));
    c.init(factory(), admin(), creator(), config(RandomnessSource::Internal), at(1_000, 10)).unwrap();
    assert_eq!(c.buy_tickets(account(10), 1, at(1_100, 11)).err(), Some(Error::RaffleInactive));
    c.deposit_prize().unwrap();
    assert_eq!(c.buy_tickets(account(10), 1, at(2_001, 11)).err(), Some(Error::RaffleExpired));
    c.pause().unwrap();
    assert!(c.is_paused());
    assert_eq!(c.buy_tickets(account(10), 1, at(1_100, 11)).err(), Some(Error::ContractPaused));
    c.unpause().unwrap();
    assert!(c.buy_tickets(account(10), 1, at(1_100, 11)).is_ok());

    let mut single = Contract::new(instance());
    let mut cfg = config(RandomnessSource::Internal);
    cfg.allow_multiple = false;
    single.init(factory(), admin(), creator(), cfg, at(1_000, 10)).unwrap();
    single.deposit_prize().unwrap();
    assert_eq!(single.buy_tickets(account(10), 2, at(1_100, 11)).err(), Some(Error::MultipleTicketsNotAllowed));
    single.buy_tickets(account(10), 1, at(1_100, 11)).unwrap();
    assert_eq!(single.buy_tickets(account(10), 1, at(1_100, 11)).err(), Some(Error::MultipleTicketsNotAllowed));
}

#[test]
fn test_internal_draw_and_claim_with_fee() {
    let env = Env::default();
    let mut c = funded(RandomnessSource::Internal);
    let winner = account(10);
    c.buy_tickets(winner, 1, at(1_100, 11)).unwrap();
    c.buy_tickets(account(11), 1, at(1_100, 11)).unwrap();
    assert!(c.winner_drawn_events().is_empty());
    assert_eq!(c.finalize_raffle(&env, at(1_500, 12), &vec![0u32]), Err(Error::InvalidStateTransition));
    assert_eq!(c.finalize_raffle(&env, at(2_000, 13), &vec![5u32]), Err(Error::TicketNotFound));
    assert_eq!(c.finalize_raffle(&env, at(2_000, 13), &vec![0u32]), Ok(Finalization::Drawn));
    // The internal seed: first eight bytes of the SHA-256 of the XDR of
    // (timestamp, sequence, instance address).
    let seed = build_internal_seed_u64(&env, at(2_000, 13), instance());
    assert_eq!(seed, 3214328562254190331);
    let record = c.get_fairness_data().unwrap();
    assert_eq!(record.seed, seed);
    assert_eq!(record.randomness_source, raffle::shared::RandomnessSource::Internal);
    assert_eq!(record.winning_ticket_indices, vec![0u32]);
    assert_eq!(record.ticket_ids, vec![1u32, 2]);
    assert_eq!(
        c.winner_drawn_events(),
        vec![WinnerDrawn { winner, ticket_id: 1, tier_index: 0, timestamp: 2_000 }]
    );
    let raffle = c.get_raffle().unwrap();
    assert_eq!(raffle.status, RaffleStatus::Finalized);
    assert_eq!(raffle.winners, vec![winner]);
    assert_eq!(raffle.finalized_at, Some(2_000));
    assert_eq!(c.get_finish_time(), Some(2_000));
    assert_eq!(c.finalize_raffle(&env, at(2_100, 14), &vec![0u32]), Err(Error::InvalidStatus));

    assert_eq!(c.claim_prize(winner, 0, at(2_000 + CLAIM_DELAY_SECONDS - 1, 15)).err(), Some(Error::ClaimTooEarly));
    assert_eq!(c.claim_prize(account(11), 0, at(2_000 + CLAIM_DELAY_SECONDS, 15)).err(), Some(Error::NotWinner));
    assert_eq!(c.claim_prize(winner, 1, at(2_000 + CLAIM_DELAY_SECONDS, 15)).err(), Some(Error::InvalidParameters));
    // 2.5% of a 1000 XLM tier: 25 XLM to the treasury, 975 XLM to the winner.
    let claim = c.claim_prize(winner, 0, at(2_000 + CLAIM_DELAY_SECONDS, 15)).unwrap();
    assert_eq!(claim.gross_amount, 1_000 * XLM);
    assert_eq!(claim.platform_fee, 25 * XLM);
    assert_eq!(claim.net_amount, 975 * XLM);
    assert_eq!(claim.payout, Transfer { token: contract(50), from: instance(), to: winner, amount: 975 * XLM });
    assert_eq!(
        claim.fee_route,
        FeeRoute::Treasury {
            transfer: Transfer { token: contract(50), from: instance(), to: account(70), amount: 25 * XLM },
        }
    );
    // The only tier is claimed: the raffle is fully claimed.
    assert_eq!(status(&c), RaffleStatus::Claimed);
    assert_eq!(c.claim_prize(winner, 0, at(2_000 + CLAIM_DELAY_SECONDS + 10, 16)).err(), Some(Error::InvalidStateTransition));
    assert!(c.get_fairness_data().is_ok());
    assert_eq!(c.cancel_raffle(CancelReason::AdminCancelled, at(9_000, 17)).err(), Some(Error::InvalidStateTransition));
}

#[test]
fn test_claims_of_two_tiers_end_claimed() {
    let env = Env::default();
    let mut c = Contract::new(instance());
    let mut cfg = config(RandomnessSource::Internal);
    cfg.prizes = vec![6_000u32, 4_000];
    cfg.protocol_fee_bp = 0;
    c.init(factory(), admin(), creator(), cfg, at(1_000, 10)).unwrap();
    c.deposit_prize().unwrap();
    c.buy_tickets(account(10), 1, at(1_100, 11)).unwrap();
    c.buy_tickets(account(11), 1, at(1_100, 11)).unwrap();
    c.finalize_raffle(&env, at(2_000, 13), &vec![0u32, 1]).unwrap();
    let later = at(2_000 + CLAIM_DELAY_SECONDS, 15);
    assert_eq!(c.claim_prize(account(10), 0, later).unwrap().net_amount, 600 * XLM);
    assert_eq!(status(&c), RaffleStatus::Finalized);
    assert_eq!(c.claim_prize(account(10), 0, later).err(), Some(Error::PrizeAlreadyClaimed));
    assert_eq!(c.claim_prize(account(11), 1, later).unwrap().net_amount, 400 * XLM);
    assert_eq!(status(&c), RaffleStatus::Claimed);
}

#[test]
fn test_no_ticket_sold_fails_the_raffle() {
    let env = Env::default();
    let mut c = funded(RandomnessSource::Internal);
    assert_eq!(c.finalize_raffle(&env, at(2_000, 13), &vec![]), Ok(Finalization::Failed));
    assert_eq!(status(&c), RaffleStatus::Failed);
    assert_eq!(c.deposit_prize(), Err(Error::PrizeAlreadyDeposited));
}

#[test]
fn test_claim_fee_burned_through_router() {
    let env = Env::default();
    let mut c = Contract::new(instance());
    let mut cfg = config(RandomnessSource::Internal);
    cfg.swap_router = Some(contract(80));
    cfg.tikka_token = Some(contract(81));
    c.init(factory(), admin(), creator(), cfg, at(1_000, 10)).unwrap();
    c.deposit_prize().unwrap();
    c.buy_tickets(account(10), 1, at(1_100, 11)).unwrap();
    c.finalize_raffle(&env, at(2_000, 13), &vec![0u32]).unwrap();
    let claim = c.claim_prize(account(10), 0, at(2_000 + CLAIM_DELAY_SECONDS, 15)).unwrap();
    assert_eq!(
        claim.fee_route,
        FeeRoute::SwapAndBurn { router: contract(80), payment_token: contract(50), tikka_token: contract(81), amount: 25 * XLM }
    );
}

#[test]
fn test_minimum_not_met_fails_and_prize_returns_once() {
    let env = Env::default();
    let mut c = Contract::new(instance());
    let mut cfg = config(RandomnessSource::Internal);
    cfg.min_tickets = 3;
    c.init(factory(), admin(), creator(), cfg, at(1_000, 10)).unwrap();
    c.deposit_prize().unwrap();
    c.buy_tickets(account(10), 1, at(1_100, 11)).unwrap();
    assert_eq!(c.finalize_raffle(&env, at(2_000, 13), &vec![0u32]), Ok(Finalization::Failed));
    assert_eq!(status(&c), RaffleStatus::Failed);
    let (amount, _) = c.refund_ticket(1, at(2_100, 14)).unwrap();
    assert_eq!(amount, 100 * XLM);
    assert_eq!(c.refund_ticket(1, at(2_100, 14)).err(), Some(Error::TicketAlreadyRefunded));
    let refund = c.refund_prize().unwrap();
    assert_eq!(refund, Transfer { token: contract(50), from: instance(), to: creator(), amount: 1_000 * XLM });
    assert_eq!(c.refund_prize().err(), Some(Error::PrizeNotDeposited));
    // A failed raffle is not funded again.
    assert_eq!(c.deposit_prize().err(), Some(Error::InvalidStatus));
    assert_eq!(status(&c), RaffleStatus::Failed);
}

#[test]
fn test_cancel_refunds_prize_and_tickets_once() {
    let mut c = funded(RandomnessSource::Internal);
    c.buy_tickets(account(10), 2, at(1_100, 11)).unwrap();
    assert_eq!(c.cancel_authority(CancelReason::CreatorCancelled), Ok(creator()));
    assert_eq!(c.cancel_authority(CancelReason::AdminCancelled), Ok(admin()));
    assert_eq!(c.cancel_authority(CancelReason::OracleTimeout), Ok(factory()));
    assert_eq!(c.refund_ticket(1, at(1_200, 12)).err(), Some(Error::InvalidStateTransition));
    let returned = c.cancel_raffle(CancelReason::CreatorCancelled, at(1_200, 12)).unwrap();
    assert_eq!(returned, Some(Transfer { token: contract(50), from: instance(), to: creator(), amount: 1_000 * XLM }));
    assert_eq!(status(&c), RaffleStatus::Cancelled);
    assert_eq!(c.get_finish_time(), Some(1_200));
    assert_eq!(c.cancel_raffle(CancelReason::AdminCancelled, at(1_300, 13)).err(), Some(Error::InvalidStateTransition));
    // A cancelled raffle is not funded again.
    assert_eq!(c.deposit_prize().err(), Some(Error::InvalidStatus));
    assert_eq!(status(&c), RaffleStatus::Cancelled);

    let (amount, refund) = c.refund_ticket(2, at(1_300, 13)).unwrap();
    assert_eq!(amount, 100 * XLM);
    assert_eq!(refund, Transfer { token: contract(50), from: instance(), to: account(10), amount: 100 * XLM });
    assert_eq!(c.refund_ticket(2, at(1_300, 13)).err(), Some(Error::TicketAlreadyRefunded));
    assert_eq!(c.refund_ticket(9, at(1_300, 13)).err(), Some(Error::TicketNotFound));
    assert!(c.refund_ticket(1, at(1_300, 13)).is_ok());
}

#[test]
fn test_expired_raffle_refunds_tickets() {
    let mut c = funded(RandomnessSource::Internal);
    c.buy_tickets(account(10), 1, at(1_100, 11)).unwrap();
    assert_eq!(c.refund_ticket(1, at(2_000, 12)).err(), Some(Error::InvalidStateTransition));
    assert!(c.refund_ticket(1, at(2_001, 12)).is_ok());
}

#[test]
fn test_oracle_draw() {
    let mut c = funded(RandomnessSource::External);
    c.buy_tickets(account(10), 2, at(1_100, 11)).unwrap();
    assert_eq!(c.provide_randomness(9, &vec![1u32], at(2_000, 20)), Err(Error::InvalidStateTransition));
    assert_eq!(c.request_winner_selection(at(1_500, 20)), Err(Error::InvalidStateTransition));
    assert_eq!(c.request_winner_selection(at(2_000, 20)), Ok(account(60)));
    assert_eq!(status(&c), RaffleStatus::Drawing);
    assert_eq!(c.request_winner_selection(at(2_000, 21)), Err(Error::RandomnessAlreadyRequested));
    assert_eq!(c.provide_randomness(9, &vec![1u32], at(2_000, 20)), Err(Error::RandomnessTooEarly));
    assert_eq!(c.provide_randomness(9, &vec![1u32], at(2_005, 29)), Err(Error::RandomnessTooEarly));
    assert_eq!(status(&c), RaffleStatus::Drawing);
    assert_eq!(c.provide_randomness(9, &vec![1u32], at(2_010, 30)), Ok(account(60)));
    let record = c.get_fairness_data().unwrap();
    assert_eq!(record.seed, 9);
    assert_eq!(record.winning_ticket_indices, vec![1u32]);
    let raffle = c.get_raffle().unwrap();
    assert_eq!(raffle.status, RaffleStatus::Finalized);
    assert_eq!(raffle.winners, vec![account(10)]);
    assert_eq!(c.provide_randomness(9, &vec![1u32], at(2_010, 30)), Err(Error::InvalidStateTransition));
}

#[test]
fn test_finalize_records_oracle_request() {
    let env = Env::default();
    let mut c = funded(RandomnessSource::External);
    c.buy_tickets(account(10), 1, at(1_100, 11)).unwrap();
    assert_eq!(
        c.finalize_raffle(&env, at(2_000, 20), &vec![]),
        Ok(Finalization::RandomnessRequested { oracle: account(60) })
    );
    assert_eq!(status(&c), RaffleStatus::Drawing);
    assert_eq!(c.finalize_raffle(&env, at(2_000, 21), &vec![]), Err(Error::InvalidStatus));
    assert_eq!(c.provide_randomness(3, &vec![0u32], at(2_010, 30)), Ok(account(60)));
    assert_eq!(status(&c), RaffleStatus::Finalized);
}

#[test]
fn test_fallback_waits_for_oracle_timeout() {
    let mut c = funded(RandomnessSource::External);
    c.buy_tickets(account(10), 1, at(1_100, 11)).unwrap();
    c.request_winner_selection(at(2_000, 100)).unwrap();
    assert_eq!(
        c.trigger_randomness_fallback(account(99), at(2_100, 100 + ORACLE_TIMEOUT_LEDGERS), 5, &vec![0u32]),
        Err(Error::NotAuthorized)
    );
    assert_eq!(
        c.trigger_randomness_fallback(creator(), at(2_100, 100 + ORACLE_TIMEOUT_LEDGERS - 1), 5, &vec![0u32]),
        Err(Error::FallbackTooEarly)
    );
    assert_eq!(c.trigger_randomness_fallback(admin(), at(2_100, 100 + ORACLE_TIMEOUT_LEDGERS), 5, &vec![0u32]), Ok(()));
    let raffle = c.get_raffle().unwrap();
    assert_eq!(raffle.status, RaffleStatus::Finalized);
    assert_eq!(raffle.winner_ticket_id, Some(1));
    let data = c.get_fairness_data().unwrap();
    assert_eq!(data.seed, 5);
    assert_eq!(data.winning_ticket_indices, vec![0u32]);
    assert_eq!(data.draw_sequence, 100 + ORACLE_TIMEOUT_LEDGERS);
}

#[test]
fn test_commit_reveal_draw_uses_sha256_of_secrets() {
    let env = Env::default();
    let mut c = funded(RandomnessSource::CommitReveal);
    let player = account(10);
    c.buy_tickets(player, 5, at(1_100, 11)).unwrap();
    assert_eq!(status(&c), RaffleStatus::Drawing);
    // Nobody committed yet: the seed would be the internal one.
    assert_eq!(c.commit_reveal_seed(&env, at(1_200, 12)), build_internal_seed_u64(&env, at(1_200, 12), instance()));
    let secret = b"tikka-secret".to_vec();
    let hash: [u8; 32] = [
        195, 211, 106, 201, 138, 108, 15, 238, 10, 235, 219, 79, 65, 86, 91, 37, 14, 177, 209, 174, 242, 117, 84,
        118, 245, 65, 162, 146, 55, 251, 227, 231,
    ];
    assert_eq!(c.reveal_seed(&env, player, secret.clone()), Err(Error::NotCommitted));
    c.commit_seed(player, hash).unwrap();
    assert_eq!(c.commit_seed(player, hash), Err(Error::AlreadyCommitted));
    assert_eq!(c.reveal_seed(&env, player, b"wrong".to_vec()), Err(Error::CommitHashMismatch));
    assert_eq!(c.reveal_seed(&env, player, secret.clone()), Ok(true));
    assert_eq!(c.reveal_seed(&env, player, secret), Err(Error::AlreadyRevealed));
    let seed = c.commit_reveal_seed(&env, at(1_200, 12));
    assert_eq!(seed, 14110739471325204462);
    assert_eq!(c.finalize_commit_reveal(&env, &vec![3u32], at(1_200, 12)), Ok(seed));
    assert_eq!(status(&c), RaffleStatus::Finalized);
    let data = c.get_fairness_data().unwrap();
    assert_eq!(data.seed, seed);
    assert_eq!(data.randomness_source, raffle::shared::RandomnessSource::CommitReveal);
}

#[test]
fn test_commit_outside_commit_reveal_is_refused() {
    let mut c = funded(RandomnessSource::Internal);
    assert_eq!(c.commit_seed(account(10), [1u8; 32]), Err(Error::InvalidParameters));
    let mut cr = funded(RandomnessSource::CommitReveal);
    assert_eq!(cr.commit_seed(account(10), [1u8; 32]), Err(Error::InvalidStateTransition));
}

#[test]
fn test_ticket_transfers_and_approvals() {
    let mut c = funded(RandomnessSource::Internal);
    let owner = account(10);
    let friend = account(11);
    let operator = account(12);
    c.buy_tickets(owner, 2, at(1_100, 11)).unwrap();
    assert_eq!(c.transfer(friend, operator, 1), Err(Error::NotAuthorized));
    assert_eq!(c.transfer(owner, friend, 9), Err(Error::InvalidParameters));
    c.transfer(owner, friend, 1).unwrap();
    assert_eq!(c.owner_of(1), Ok(friend));
    assert_eq!(c.balance(owner), 1);
    assert_eq!(c.balance(friend), 1);

    assert_eq!(c.transfer_from(operator, owner, friend, 2), Err(Error::NotAuthorized));
    assert_eq!(c.approve(operator, Some(operator), 2), Err(Error::NotAuthorized));
    c.approve(owner, Some(operator), 2).unwrap();
    assert_eq!(c.get_approved(2), Some(operator));
    c.transfer_from(operator, owner, friend, 2).unwrap();
    assert_eq!(c.owner_of(2), Ok(friend));

    c.set_approval_for_all(friend, operator, true).unwrap();
    assert!(c.is_approved_for_all(friend, operator));
    c.transfer_from(operator, friend, owner, 1).unwrap();
    assert_eq!(c.owner_of(1), Ok(owner));
    assert_eq!(c.name(), "Tikka Raffle Ticket");
    assert_eq!(c.symbol(), "TIKKA_TKT");
}

#[test]
fn test_admin_handover_and_factory_controls() {
    let mut c = funded(RandomnessSource::Internal);
    let successor = account(20);
    assert_eq!(c.accept_admin(), Err(Error::NoPendingTransfer));
    c.propose_admin(successor).unwrap();
    assert_eq!(c.propose_admin(account(21)), Err(Error::AdminTransferPending));
    assert_eq!(c.accept_admin(), Ok(successor));
    assert_eq!(c.admin, Some(successor));
    assert_eq!(c.pending_admin, None);
    c.transfer_ownership(account(22)).unwrap();
    assert_eq!(c.accept_ownership(), Ok(account(22)));
    c.set_admin(admin()).unwrap();
    assert_eq!(c.admin, Some(admin()));

    let mut bare = Contract::new(instance());
    assert_eq!(bare.pause(), Err(Error::NotAuthorized));
    assert_eq!(bare.wipe_storage(), Err(Error::NotAuthorized));
}

#[test]
fn test_withdraw_fees_needs_treasury() {
    let mut c = funded(RandomnessSource::Internal);
    assert_eq!(c.withdraw_fees(), Ok((0, None)));
    c.accumulated_fees = 40;
    assert_eq!(
        c.withdraw_fees(),
        Ok((40, Some(Transfer { token: contract(50), from: instance(), to: account(70), amount: 40 })))
    );
    assert_eq!(c.get_accumulated_fees(), 0);
    let mut none = Contract::new(instance());
    let mut cfg = config(RandomnessSource::Internal);
    cfg.treasury_address = None;
    none.init(factory(), admin(), creator(), cfg, at(1_000, 10)).unwrap();
    assert_eq!(none.withdraw_fees(), Err(Error::InvalidParameters));
}

#[test]
fn test_wipe_storage_erases_raffle() {
    let mut c = funded(RandomnessSource::Internal);
    c.buy_tickets(account(10), 2, at(1_100, 11)).unwrap();
    c.wipe_storage().unwrap();
    assert_eq!(c.get_raffle().err(), Some(Error::NotInitialized));
    assert_eq!(c.owner_of(1), Err(Error::InvalidParameters));
    assert_eq!(c.balance(account(10)), 0);
    assert_eq!(c.get_ticket_count(), 0);
    assert_eq!(c.wipe_storage(), Err(Error::NotAuthorized));
}

#[test]
fn test_commit_reveal_without_commits_falls_back_to_internal_seed() {
    let env = Env::default();
    let mut c = funded(RandomnessSource::CommitReveal);
    c.buy_tickets(account(10), 5, at(1_100, 11)).unwrap();
    let seed = c.finalize_commit_reveal(&env, &vec![2u32], at(1_200, 12)).unwrap();
    assert_eq!(seed, build_internal_seed_u64(&env, at(1_200, 12), instance()));
    assert_eq!(status(&c), RaffleStatus::Finalized);
    let data = c.get_fairness_data().unwrap();
    assert_eq!(data.seed, seed);
    assert_eq!(data.randomness_source, raffle::shared::RandomnessSource::Internal);
}

#[test]
fn test_commit_reveal_waits_for_every_reveal() {
    let env = Env::default();
    let mut c = funded(RandomnessSource::CommitReveal);
    c.buy_tickets(account(10), 3, at(1_100, 11)).unwrap();
    c.buy_tickets(account(11), 2, at(1_100, 11)).unwrap();
    c.commit_seed(account(10), [1u8; 32]).unwrap();
    c.commit_seed(account(11), [2u8; 32]).unwrap();
    assert_eq!(c.finalize_commit_reveal(&env, &vec![0u32], at(1_200, 12)), Err(Error::CommitRevealNotReady));
    assert_eq!(status(&c), RaffleStatus::Drawing);
}

#[test]
fn test_fee_above_full_price_is_accepted_and_capped() {
    let mut c = Contract::new(instance());
    let mut cfg = config(RandomnessSource::Internal);
    cfg.protocol_fee_bp = 20_000;
    assert_eq!(c.init(factory(), admin(), creator(), cfg, at(1_000, 10)), Ok(()));
    c.deposit_prize().unwrap();
    let purchase = c.buy_tickets(account(10), 2, at(1_100, 11)).unwrap();
    assert_eq!(purchase.protocol_fee, 200 * XLM);
    assert_eq!(purchase.payment.amount, 0);
    assert_eq!(purchase.fee_payment.unwrap().amount, 200 * XLM);
    // At a 200% rate the claim fee exceeds the share: the net is negative,
    // and the host's payout of it is refused by the token.
    let env = Env::default();
    c.finalize_raffle(&env, at(2_000, 13), &vec![0u32]).unwrap();
    let claim = c.claim_prize(account(10), 0, at(2_000 + CLAIM_DELAY_SECONDS, 14)).unwrap();
    assert_eq!(claim.gross_amount, 1_000 * XLM);
    assert_eq!(claim.platform_fee, 2_000 * XLM);
    assert_eq!(claim.net_amount, -1_000 * XLM);
}

#[test]
fn test_reentrancy_guard_refuses_fund_movements() {
    let mut c = funded(RandomnessSource::Internal);
    assert_eq!(c.acquire_guard(), Ok(()));
    assert_eq!(c.acquire_guard(), Err(Error::Reentrancy));
    assert_eq!(c.buy_tickets(account(10), 1, at(1_100, 11)).err(), Some(Error::Reentrancy));
    c.release_guard();
    assert!(c.buy_tickets(account(10), 1, at(1_100, 11)).is_ok());
}

