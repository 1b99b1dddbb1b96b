use raffle::address::{Address, AddressKind};
use raffle::factory::{ContractError, RaffleFactory};
use raffle::shared::{
    LedgerInfo, PaginationParams, RaffleConfig, RandomnessSource, DEFAULT_PAGE_LIMIT,
    MAX_PAGE_LIMIT, MAX_PROTOCOL_FEE_BP,
};
use soroban_sdk::Env;

fn account(n: u64) -> Address {
    Address { kind: AddressKind::Account, w0: n, w1: 0x1111, w2: 0x2222, w3: 0x3333 }
}

fn contract(n: u64) -> Address {
    Address { kind: AddressKind::Contract, w0: n, w1: 0x4444, w2: 0x5555, w3: 0x6666 }
}

fn zero_address() -> Address {
    Address::zero_contract()
}

fn ledger() -> LedgerInfo {
    LedgerInfo { timestamp: 1_000, sequence: 100 }
}

const FACTORY_ID: u64 = 9_000;

fn setup_factory() -> (RaffleFactory, Address, Address) {
    let admin = account(1);
    let treasury = account(2);
    let mut factory = RaffleFactory::new(contract(FACTORY_ID));
    factory.init_factory(admin, [0u8; 32], 0, treasury, true, true).unwrap();
    factory.set_creation_delay(0).unwrap();
    (factory, admin, treasury)
}

fn test_raffle_config(payment_token: Address) -> RaffleConfig {
    RaffleConfig {
        description: b"Test Raffle".to_vec(),
        end_time: 0,
        no_deadline: true,
        max_tickets: 10,
        max_tickets_per_tx: 10,
        min_tickets: 1,
        allow_multiple: true,
        ticket_price: 10_000,
        payment_token,
        prize_amount: 10_000,
        prizes: vec![10_000u32],
        randomness_source: RandomnessSource::Internal,
        oracle_address: None,
        protocol_fee_bp: 0,
        treasury_address: None,
        swap_router: None,
        tikka_token: None,
        metadata_hash: [1u8; 32],
        claim_lockup_seconds: 0,
        swap_deadline_seconds: 0,
        early_bird_ticket_percentage: 0,
        early_bird_discount_bp: 0,
    }
}

/// Creates `count` raffles for `creator` through the factory's two creation steps.
fn create_raffles_via_factory(env: &Env, factory: &mut RaffleFactory, creator: Address, count: u32) -> Vec<Address> {
    let payment_token = contract(7_777);
    let mut addrs = Vec::new();
    for i in 0..count {
        let prepared = factory.create_raffle(env, creator, test_raffle_config(payment_token), ledger()).unwrap();
        assert_eq!(prepared.factory, factory.self_address);
        let raffle_address = contract(100_000 + i as u64);
        factory.register_raffle(env, creator, raffle_address, ledger());
        addrs.push(raffle_address);
    }
    addrs
}

/// Seeds the stable map with `n` raffle entries.
fn seed_raffles(factory: &mut RaffleFactory, n: u32) -> Vec<Address> {
    let mut addrs = Vec::new();
    for i in 0..n {
        let addr = contract(500 + i as u64);
        factory.raffle_by_id.insert(i, addr);
        addrs.push(addr);
    }
    factory.next_raffle_id = n;
    factory.raffle_count = n;
    addrs
}

/// Seeds the per-creator index with `addrs`.
fn seed_creator_index(factory: &mut RaffleFactory, creator: Address, addrs: &[Address]) {
    factory.creator_raffles.insert(creator, addrs.to_vec());
}

#[test]
fn test_init_factory() {
    let (factory, admin, _treasury) = setup_factory();
    assert_eq!(factory.get_admin(), Ok(admin));
}

#[test]
fn test_record_volume_overflow() {
    let (mut factory, _admin, _treasury) = setup_factory();
    let asset = contract(42);
    factory.record_volume(asset, i128::MAX - 1).unwrap();
    assert_eq!(factory.get_total_volume(asset), i128::MAX - 1);
    assert!(factory.record_volume(asset, 2).is_err());
    assert_eq!(factory.get_total_volume(asset), i128::MAX - 1);
}

#[test]
fn test_set_config_rejects_excessive_protocol_fee() {
    let (mut factory, _admin, treasury) = setup_factory();
    let excessive_fee = MAX_PROTOCOL_FEE_BP + 1;
    assert_eq!(
        factory.set_config(excessive_fee, treasury, true, ledger()),
        Err(ContractError::InvalidParameters)
    );
}

#[test]
fn test_init_factory_rejects_second_call() {
    let admin = account(1);
    let treasury = account(2);
    let mut factory = RaffleFactory::new(contract(FACTORY_ID));
    factory.init_factory(admin, [0u8; 32], 0, treasury, true, true).unwrap();
    assert_eq!(
        factory.init_factory(admin, [0u8; 32], 0, treasury, true, true),
        Err(ContractError::AlreadyInitialized)
    );
}

#[test]
fn test_init_factory_rejects_zero_admin() {
    let treasury = account(2);
    let mut factory = RaffleFactory::new(contract(FACTORY_ID));
    assert_eq!(
        factory.init_factory(zero_address(), [0u8; 32], 0, treasury, true, true),
        Err(ContractError::InvalidParameters)
    );
}

#[test]
fn test_init_factory_rejects_zero_treasury() {
    let admin = account(1);
    let mut factory = RaffleFactory::new(contract(FACTORY_ID));
    assert_eq!(
        factory.init_factory(admin, [0u8; 32], 0, zero_address(), true, true),
        Err(ContractError::InvalidParameters)
    );
}

#[test]
fn test_init_factory_rejects_self_admin() {
    let treasury = account(2);
    let contract_id = contract(FACTORY_ID);
    let mut factory = RaffleFactory::new(contract_id);
    assert_eq!(
        factory.init_factory(contract_id, [0u8; 32], 0, treasury, true, true),
        Err(ContractError::InvalidParameters)
    );
}

#[test]
fn test_init_factory_rejects_self_treasury() {
    let admin = account(1);
    let contract_id = contract(FACTORY_ID);
    let mut factory = RaffleFactory::new(contract_id);
    assert_eq!(
        factory.init_factory(admin, [0u8; 32], 0, contract_id, true, true),
        Err(ContractError::InvalidParameters)
    );
}

#[test]
fn test_transfer_factory_admin_rejects_zero_admin() {
    let (mut factory, _admin, _treasury) = setup_factory();
    assert_eq!(
        factory.transfer_factory_admin(zero_address(), true),
        Err(ContractError::InvalidParameters)
    );
}

#[test]
fn test_transfer_factory_admin_rejects_self() {
    let (mut factory, _admin, _treasury) = setup_factory();
    let self_address = factory.self_address;
    assert_eq!(
        factory.transfer_factory_admin(self_address, true),
        Err(ContractError::InvalidParameters)
    );
}

#[test]
fn test_set_config_rejects_zero_treasury() {
    let (mut factory, _admin, _treasury) = setup_factory();
    assert_eq!(
        factory.set_config(0, zero_address(), true, ledger()),
        Err(ContractError::InvalidParameters)
    );
}

#[test]
fn test_set_config_rejects_self_treasury() {
    let (mut factory, _admin, _treasury) = setup_factory();
    let self_address = factory.self_address;
    assert_eq!(
        factory.set_config(0, self_address, true, ledger()),
        Err(ContractError::InvalidParameters)
    );
}

#[test]
fn test_upgrade_requires_admin_authorization() {
    let admin = account(1);
    let treasury = account(2);
    let mut factory = RaffleFactory::new(contract(FACTORY_ID));
    factory.init_factory(admin, [0u8; 32], 0, treasury, true, true).unwrap();
    let new_hash = [9u8; 32];
    // The upgrade stands only on the admin's authorization: no other party's.
    assert_eq!(factory.upgrade(new_hash), Ok(admin));
    assert_ne!(factory.upgrade(new_hash), Ok(treasury));
    // Without an admin nobody can authorize it.
    let uninitialized = RaffleFactory::new(contract(FACTORY_ID));
    assert!(uninitialized.upgrade(new_hash).is_err());
}

#[test]
fn test_stable_ids_initial_state() {
    let (factory, _admin, _treasury) = setup_factory();
    assert_eq!(factory.get_next_raffle_id(), 0u32);
    assert_eq!(factory.get_raffle_count(), 0u32);
    assert_eq!(factory.get_raffle_by_id(0), None);
}

#[test]
fn test_stable_ids_seeded_lookup() {
    let (mut factory, _admin, _treasury) = setup_factory();
    let addrs = seed_raffles(&mut factory, 3);
    assert_eq!(factory.get_next_raffle_id(), 3u32);
    assert_eq!(factory.get_raffle_count(), 3u32);
    assert_eq!(factory.get_raffle_by_id(0), Some(addrs[0]));
    assert_eq!(factory.get_raffle_by_id(1), Some(addrs[1]));
    assert_eq!(factory.get_raffle_by_id(2), Some(addrs[2]));
    assert_eq!(factory.get_raffle_by_id(99), None);
}

#[test]
fn test_get_raffles_page_returns_correct_slice() {
    let (mut factory, _admin, _treasury) = setup_factory();
    let addrs = seed_raffles(&mut factory, 5);

    let page = factory.get_raffles_page(PaginationParams { limit: 3, offset: 0 });
    assert_eq!(page.items.len(), 3);
    assert_eq!(page.items[0], addrs[0]);
    assert_eq!(page.items[2], addrs[2]);
    assert!(page.has_more);

    let page2 = factory.get_raffles_page(PaginationParams { limit: 3, offset: 3 });
    assert_eq!(page2.items.len(), 2);
    assert_eq!(page2.items[0], addrs[3]);
    assert_eq!(page2.items[1], addrs[4]);
    assert!(!page2.has_more);

    let page3 = factory.get_raffles_page(PaginationParams { limit: 10, offset: 99 });
    assert_eq!(page3.items.len(), 0);
    assert!(!page3.has_more);
}

#[test]
fn test_get_raffles_page_skips_tombstoned_slots() {
    let (mut factory, _admin, _treasury) = setup_factory();
    let addrs = seed_raffles(&mut factory, 3);

    factory.raffle_by_id.remove(&1u32);
    factory.raffle_count = factory.raffle_count.saturating_sub(1);

    assert_eq!(factory.get_raffle_count(), 2u32);
    assert_eq!(factory.get_next_raffle_id(), 3u32);
    assert_eq!(factory.get_raffle_by_id(1), None);

    let page = factory.get_raffles_page(PaginationParams { limit: 10, offset: 0 });
    assert_eq!(page.items.len(), 2);
    assert_eq!(page.items[0], addrs[0]);
    assert_eq!(page.items[1], addrs[2]);
}

#[test]
fn get_raffles_page_empty_list() {
    let (factory, _admin, _treasury) = setup_factory();
    let page = factory.get_raffles_page(PaginationParams { limit: 10, offset: 0 });
    assert_eq!(page.items.len(), 0);
    assert_eq!(page.total, 0u32);
    assert!(!page.has_more);
}

#[test]
fn get_raffles_page_first_page() {
    let env = Env::default();
    let (mut factory, _admin, _treasury) = setup_factory();
    let creator = account(50);
    create_raffles_via_factory(&env, &mut factory, creator, 15);

    let page = factory.get_raffles_page(PaginationParams { limit: 10, offset: 0 });
    assert_eq!(page.items.len(), 10);
    assert_eq!(page.total, 15u32);
    assert!(page.has_more);
}

#[test]
fn get_raffles_page_last_page() {
    let env = Env::default();
    let (mut factory, _admin, _treasury) = setup_factory();
    let creator = account(50);
    create_raffles_via_factory(&env, &mut factory, creator, 15);

    let page = factory.get_raffles_page(PaginationParams { limit: 10, offset: 10 });
    assert_eq!(page.items.len(), 5);
    assert_eq!(page.total, 15u32);
    assert!(!page.has_more);
}

#[test]
fn get_raffles_page_offset_beyond_total() {
    let env = Env::default();
    let (mut factory, _admin, _treasury) = setup_factory();
    let creator = account(50);
    create_raffles_via_factory(&env, &mut factory, creator, 5);

    let page = factory.get_raffles_page(PaginationParams { limit: 10, offset: 10 });
    assert_eq!(page.items.len(), 0);
    assert_eq!(page.total, 5u32);
    assert!(!page.has_more);
}

#[test]
fn get_raffles_page_limit_zero_uses_default() {
    let env = Env::default();
    let (mut factory, _admin, _treasury) = setup_factory();
    let creator = account(50);
    create_raffles_via_factory(&env, &mut factory, creator, 150);

    let page = factory.get_raffles_page(PaginationParams { limit: 0, offset: 0 });
    assert_eq!(page.items.len() as u32, DEFAULT_PAGE_LIMIT);
    assert_eq!(page.total, 150u32);
    assert!(page.has_more);
}

#[test]
fn get_raffles_page_limit_above_max_is_clamped() {
    let env = Env::default();
    let (mut factory, _admin, _treasury) = setup_factory();
    let creator = account(50);
    create_raffles_via_factory(&env, &mut factory, creator, 250);

    let page = factory.get_raffles_page(PaginationParams { limit: 999, offset: 0 });
    assert_eq!(page.items.len() as u32, MAX_PAGE_LIMIT);
    assert_eq!(page.total, 250u32);
    assert!(page.has_more);
}

#[test]
fn test_clean_old_raffle_invalid_id_rejected() {
    let (mut factory, _admin, _treasury) = setup_factory();
    assert_eq!(factory.clean_old_raffle(0), Err(ContractError::InvalidRaffleId));
}

#[test]
fn test_clean_old_raffle_already_tombstoned_rejected() {
    let (mut factory, _admin, _treasury) = setup_factory();
    seed_raffles(&mut factory, 3);
    factory.raffle_by_id.remove(&1u32);
    assert_eq!(factory.clean_old_raffle(1), Err(ContractError::InvalidRaffleId));
}

#[test]
fn test_get_raffles_by_creator_empty() {
    let (factory, _admin, _treasury) = setup_factory();
    let creator = account(60);
    let page = factory.get_raffles_by_creator(creator, PaginationParams { limit: 10, offset: 0 });
    assert_eq!(page.items.len(), 0);
    assert_eq!(page.total, 0u32);
    assert!(!page.has_more);
}

#[test]
fn test_get_raffles_by_creator_basic() {
    let (mut factory, _admin, _treasury) = setup_factory();
    let creator_a = account(61);
    let creator_b = account(62);
    let a_addrs = [contract(1), contract(2), contract(3), contract(4), contract(5)];
    let b_addrs = [contract(6), contract(7), contract(8)];
    seed_creator_index(&mut factory, creator_a, &a_addrs);
    seed_creator_index(&mut factory, creator_b, &b_addrs);

    let page_a = factory.get_raffles_by_creator(creator_a, PaginationParams { limit: 10, offset: 0 });
    assert_eq!(page_a.total, 5u32);
    assert_eq!(page_a.items.len(), 5);
    assert!(!page_a.has_more);
    for (i, addr) in a_addrs.iter().enumerate() {
        assert_eq!(page_a.items[i], *addr);
    }

    let page_b = factory.get_raffles_by_creator(creator_b, PaginationParams { limit: 10, offset: 0 });
    assert_eq!(page_b.total, 3u32);
    assert_eq!(page_b.items.len(), 3);
    assert!(!page_b.has_more);
    for (i, addr) in b_addrs.iter().enumerate() {
        assert_eq!(page_b.items[i], *addr);
    }
}

#[test]
fn test_get_raffles_by_creator_pagination() {
    let (mut factory, _admin, _treasury) = setup_factory();
    let creator = account(63);
    let addrs = [contract(11), contract(12), contract(13), contract(14), contract(15)];
    seed_creator_index(&mut factory, creator, &addrs);

    let p0 = factory.get_raffles_by_creator(creator, PaginationParams { limit: 3, offset: 0 });
    assert_eq!(p0.items.len(), 3);
    assert_eq!(p0.total, 5u32);
    assert!(p0.has_more);
    assert_eq!(p0.items[0], addrs[0]);
    assert_eq!(p0.items[2], addrs[2]);

    let p1 = factory.get_raffles_by_creator(creator, PaginationParams { limit: 3, offset: 3 });
    assert_eq!(p1.items.len(), 2);
    assert_eq!(p1.total, 5u32);
    assert!(!p1.has_more);
    assert_eq!(p1.items[0], addrs[3]);
    assert_eq!(p1.items[1], addrs[4]);

    let p_oor = factory.get_raffles_by_creator(creator, PaginationParams { limit: 10, offset: 99 });
    assert_eq!(p_oor.items.len(), 0);
    assert!(!p_oor.has_more);

    let p_exact = factory.get_raffles_by_creator(creator, PaginationParams { limit: 10, offset: 5 });
    assert_eq!(p_exact.items.len(), 0);
    assert!(!p_exact.has_more);
}

#[test]
fn test_creator_index_isolates_separate_creators() {
    let (mut factory, _admin, _treasury) = setup_factory();
    let creator_a = account(64);
    let creator_b = account(65);
    let a_addrs = [contract(21), contract(22)];
    let b_addrs = [contract(23)];
    seed_creator_index(&mut factory, creator_a, &a_addrs);
    seed_creator_index(&mut factory, creator_b, &b_addrs);

    let pa = factory.get_raffles_by_creator(creator_a, PaginationParams { limit: 10, offset: 0 });
    assert_eq!(pa.total, 2u32);

    let pb = factory.get_raffles_by_creator(creator_b, PaginationParams { limit: 10, offset: 0 });
    assert_eq!(pb.total, 1u32);
    assert_eq!(pb.items[0], b_addrs[0]);
}
