use raffle::address::{Address, AddressKind};
use raffle::factory::{ContractError, InstanceCall, RaffleFactory};
use raffle::shared::{
    effective_limit, page_end, LedgerInfo, PaginationParams, RaffleConfig, RandomnessSource, CHECKPOINT_INTERVAL,
    DEFAULT_PAGE_LIMIT, MAX_PAGE_LIMIT, TIMELOCK_DELAY_SECONDS,
};
use soroban_sdk::Env;

fn account(n: u64) -> Address {
    Address { kind: AddressKind::Account, w0: n, w1: 7, w2: 8, w3: 9 }
}

fn contract(n: u64) -> Address {
    Address { kind: AddressKind::Contract, w0: n, w1: 10, w2: 11, w3: 12 }
}

fn at(timestamp: u64) -> LedgerInfo {
    LedgerInfo { timestamp, sequence: 100 }
}

fn initialized() -> RaffleFactory {
    let mut f = RaffleFactory::new(contract(9_000));
    f.init_factory(account(1), [3u8; 32], 100, account(2), true, true).unwrap();
    f
}

fn config() -> RaffleConfig {
    RaffleConfig {
        description: b"Law raffle".to_vec(),
        end_time: 0,
        no_deadline: true,
        max_tickets: 10,
        max_tickets_per_tx: 10,
        min_tickets: 1,
        allow_multiple: true,
        ticket_price: 10_000,
        payment_token: contract(77),
        prize_amount: 10_000,
        prizes: vec![10_000u32],
        randomness_source: RandomnessSource::Internal,
        oracle_address: None,
        protocol_fee_bp: 0,
        treasury_address: None,
        swap_router: None,
        tikka_token: None,
        metadata_hash: [1u8; 32],
        claim_lockup_seconds: 0,
        swap_deadline_seconds: 0,
        early_bird_ticket_percentage: 0,
        early_bird_discount_bp: 0,
    }
}

fn register_n(env: &Env, f: &mut RaffleFactory, n: u64) -> Vec<u32> {
    let mut ids = Vec::new();
    for i in 0..n {
        ids.push(f.register_raffle(env, account(5), contract(1_000 + i), at(1_000)));
    }
    ids
}

#[test]
fn test_config_change_waits_for_timelock() {
    let mut f = initialized();
    let op = f.set_config(500, account(3), true, at(10_000)).unwrap();
    assert_eq!(op, 1);
    assert_eq!(f.get_op_counter(), 1);
    assert_eq!(f.get_pending_op(op).unwrap().effective_timestamp, 10_000 + TIMELOCK_DELAY_SECONDS);
    assert_eq!(
        f.execute_config_change(op, true, at(10_000 + TIMELOCK_DELAY_SECONDS - 1)),
        Err(ContractError::TimelockNotElapsed)
    );
    assert_eq!(f.protocol_fee_bp, Some(100));
    assert_eq!(f.treasury, Some(account(2)));
    assert_eq!(f.execute_config_change(op, true, at(10_000 + TIMELOCK_DELAY_SECONDS)), Ok(()));
    assert_eq!(f.protocol_fee_bp, Some(500));
    assert_eq!(f.treasury, Some(account(3)));
    assert!(f.get_pending_op(op).is_none());
    assert_eq!(f.execute_config_change(op, true, at(10_000 + TIMELOCK_DELAY_SECONDS)), Err(ContractError::NoPendingOp));
}

#[test]
fn test_config_change_rechecks_treasury_and_can_be_cancelled() {
    let mut f = initialized();
    let op = f.set_config(500, account(3), true, at(10_000)).unwrap();
    assert_eq!(
        f.execute_config_change(op, false, at(10_000 + TIMELOCK_DELAY_SECONDS)),
        Err(ContractError::InvalidParameters)
    );
    assert_eq!(f.cancel_config_change(op), Ok(()));
    assert_eq!(f.cancel_config_change(op), Err(ContractError::NoPendingOp));
    assert_eq!(f.protocol_fee_bp, Some(100));
}

#[test]
fn test_factory_admin_handover() {
    let mut f = initialized();
    assert_eq!(f.accept_factory_admin(), Err(ContractError::NoPendingTransfer));
    f.transfer_factory_admin(account(20), true).unwrap();
    assert_eq!(f.transfer_factory_admin(account(21), true), Err(ContractError::AdminTransferPending));
    assert_eq!(f.accept_factory_admin(), Ok(account(20)));
    assert_eq!(f.get_admin(), Ok(account(20)));
    assert_eq!(f.pending_admin, None);

    f.transfer_factory_admin(account(22), true).unwrap();
    f.transfer_factory_admin(account(20), true).unwrap();
    assert_eq!(f.accept_factory_admin(), Err(ContractError::NoPendingTransfer));
    assert_eq!(f.get_admin(), Ok(account(20)));
}

#[test]
fn test_cleaned_id_is_never_reused() {
    let env = Env::default();
    let mut f = initialized();
    assert_eq!(register_n(&env, &mut f, 3), vec![0u32, 1, 2]);
    assert_eq!(f.clean_old_raffle(2), Ok(InstanceCall::WipeStorage { instance: contract(1_002) }));
    assert_eq!(f.get_raffle_count(), 2);
    let next = f.register_raffle(&env, account(5), contract(2_000), at(1_000));
    assert_eq!(next, 3);
    assert_eq!(f.get_raffle_by_id(2), None);
    assert_eq!(f.get_raffle_by_id(1), Some(contract(1_001)));
    assert_eq!(f.get_raffle_by_id(3), Some(contract(2_000)));
    assert_eq!(f.get_next_raffle_id(), 4);
    assert_eq!(f.get_protocol_stats().total_raffles_created, 4);
    assert_eq!(f.clean_old_raffle(2), Err(ContractError::InvalidRaffleId));
}

#[test]
fn test_pages_tile_the_registry() {
    let env = Env::default();
    let mut f = initialized();
    register_n(&env, &mut f, 7);
    f.clean_old_raffle(1).unwrap();
    f.clean_old_raffle(4).unwrap();
    let first = f.get_raffles_page(PaginationParams { offset: 0, limit: 3 });
    assert_eq!(first.items, vec![contract(1_000), contract(1_002)]);
    assert!(first.has_more);
    assert_eq!(first.total, 5);
    let second = f.get_raffles_page(PaginationParams { offset: 3, limit: 3 });
    assert_eq!(second.items, vec![contract(1_003), contract(1_005)]);
    assert!(second.has_more);
    let third = f.get_raffles_page(PaginationParams { offset: 6, limit: 3 });
    assert_eq!(third.items, vec![contract(1_006)]);
    assert!(!third.has_more);
    let whole = f.get_raffles_page(PaginationParams { offset: 0, limit: 100 });
    let mut joined = first.items.clone();
    joined.extend(second.items);
    joined.extend(third.items);
    assert_eq!(joined, whole.items);
    assert_eq!(whole.items.len() as u32, f.get_raffle_count());
    let beyond = f.get_raffles_page(PaginationParams { offset: 9, limit: 3 });
    assert!(beyond.items.is_empty());
    assert!(!beyond.has_more);
}

#[test]
fn test_page_limits() {
    assert_eq!(effective_limit(0), DEFAULT_PAGE_LIMIT);
    assert_eq!(effective_limit(MAX_PAGE_LIMIT + 1), MAX_PAGE_LIMIT);
    assert_eq!(effective_limit(7), 7);
    assert_eq!(page_end(5, 3, 20), 8);
    assert_eq!(page_end(5, 3, 6), 6);
    assert_eq!(page_end(u32::MAX - 1, 3, u32::MAX), u32::MAX);
}

#[test]
fn test_creation_rate_limit_and_pause() {
    let env = Env::default();
    let mut f = initialized();
    let creator = account(5);
    let prepared = f.create_raffle(&env, creator, config(), at(1_000)).unwrap();
    assert_eq!(prepared.config.protocol_fee_bp, 100);
    assert_eq!(prepared.config.treasury_address, Some(account(2)));
    assert_eq!(prepared.admin, account(1));
    assert_eq!(prepared.wasm_hash, [3u8; 32]);
    // SHA-256 of the XDR of (creator, description).
    assert_eq!(
        prepared.salt,
        [
            224, 22, 54, 161, 240, 231, 43, 212, 75, 39, 103, 243, 44, 68, 189, 246, 74, 87, 174, 40, 30, 182, 68, 83,
            198, 20, 205, 76, 184, 61, 69, 32,
        ]
    );
    assert_eq!(f.create_raffle(&env, creator, config(), at(1_299)).err(), Some(ContractError::RateLimitExceeded));
    assert!(f.create_raffle(&env, creator, config(), at(1_300)).is_ok());
    f.set_whitelist_status(creator, true).unwrap();
    assert!(f.create_raffle(&env, creator, config(), at(1_300)).is_ok());
    f.pause_factory().unwrap();
    assert!(f.is_factory_paused());
    assert_eq!(f.create_raffle(&env, creator, config(), at(5_000)).err(), Some(ContractError::ContractPaused));
    f.unpause_factory().unwrap();
    assert!(f.create_raffle(&env, creator, config(), at(5_000)).is_ok());
}

#[test]
fn test_checkpoint_hash_every_interval() {
    let env = Env::default();
    let mut f = initialized();
    register_n(&env, &mut f, (CHECKPOINT_INTERVAL - 1) as u64);
    assert!(f.get_checkpoint(1).is_none());
    f.register_raffle(&env, account(5), contract(99_999), at(1_000));
    assert_eq!(f.get_latest_checkpoint_index(), 1);
    let cp = f.get_checkpoint(1).unwrap();
    assert_eq!(cp.raffle_count, CHECKPOINT_INTERVAL);
    assert_eq!(cp.ledger_timestamp, 1_000);
    // SHA-256 of the raffle count, ledger sequence and timestamp, big-endian.
    assert_eq!(
        cp.aggregate_hash,
        [
            216, 128, 27, 9, 199, 226, 68, 140, 100, 107, 197, 86, 94, 216, 94, 161, 54, 86, 195, 244, 104, 102, 144,
            101, 78, 130, 147, 3, 42, 117, 117, 197,
        ]
    );
}

#[test]
fn test_instance_controls_and_rescue() {
    let mut f = initialized();
    assert_eq!(f.pause_instance(contract(5)), Ok(InstanceCall::Pause { instance: contract(5) }));
    assert_eq!(f.unpause_instance(contract(5)), Ok(InstanceCall::Unpause { instance: contract(5) }));
    assert_eq!(f.sync_admin(contract(5)), Ok(InstanceCall::SetAdmin { instance: contract(5), admin: account(1) }));
    assert_eq!(f.rescue_tokens(contract(77), account(9), 0).err(), Some(ContractError::InvalidParameters));
    let t = f.rescue_tokens(contract(77), account(9), 50).unwrap();
    assert_eq!(t.from, contract(9_000));
    assert_eq!(t.amount, 50);
    f.track_participant(account(30)).unwrap();
    f.track_participant(account(30)).unwrap();
    f.track_participant(account(31)).unwrap();
    assert_eq!(f.get_unique_participants(), 2);
    let bare = RaffleFactory::new(contract(9_000));
    assert_eq!(bare.sync_admin(contract(5)).err(), Some(ContractError::NotAuthorized));
}
