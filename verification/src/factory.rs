//! The raffle factory: registry of raffle instances, protocol configuration
//! behind a timelock, and the factory's administrative controls.
//!
//! Each entry point is a method on [`RaffleFactory`], the factory's storage.
//! The host supplies what it alone knows (the ledger, whether an address
//! exists, the address a deployment produced) and performs what the method
//! returns (token transfers, calls into instances). Authorization of the
//! admin, of a creator or of a participant is checked by the host before a
//! method runs; a method only reports `NotAuthorized` where no admin is set.
use vstd::prelude::*;
use crate::address::Address;
use crate::crypto::{be_u32, be_u64, creator_description_xdr, encode_creator_description, push_be_u32, sha256, sha256_digest};
use soroban_sdk::Env;
use crate::shared::{
    page_end, spec_page_end, AdminOp, LedgerInfo, PageResultRaffles, PaginationParams,
    RaffleConfig, Transfer, CHECKPOINT_INTERVAL, MAX_PROTOCOL_FEE_BP, TIMELOCK_DELAY_SECONDS,
};
use crate::table::Table;

verus! {

/// A proposed administrative change waiting for its timelock.
#[derive(Clone, Copy, Debug)]
pub struct PendingOp {
    pub op: AdminOp,
    pub effective_timestamp: u64,
    pub proposed_by: Address,
}

/// A periodic snapshot of the number of raffles created.
#[derive(Clone, Copy, Debug)]
pub struct StateCheckpoint {
    pub index: u32,
    pub raffle_count: u32,
    pub ledger_timestamp: u64,
    pub aggregate_hash: [u8; 32],
}

/// Aggregate figures of the protocol.
#[derive(Clone, Copy, PartialEq, Eq, Structural, Debug)]
pub struct ProtocolStats {
    pub total_raffles_created: u32,
    pub protocol_fee_bp: u32,
    pub paused: bool,
    pub total_unique_participants: u32,
}

/// Errors that factory entry points return.
#[derive(Clone, Copy, PartialEq, Eq, Structural, Debug)]
pub enum ContractError {
    AlreadyInitialized,
    NotAuthorized,
    ContractPaused,
    InvalidParameters,
    RaffleNotFound,
    AdminTransferPending,
    NoPendingTransfer,
    RateLimitExceeded,
    NoPendingOp,
    TimelockNotElapsed,
    InvalidRaffleId,
    RaffleNotEligible,
    ArithmeticOverflow,
    TreasuryNotSet,
}

impl ContractError {
    /// The numeric code under which the error is reported to callers.
    pub fn code(&self) -> (c: u32)
        ensures
            c == match *self {
                ContractError::AlreadyInitialized => 1u32,
                ContractError::NotAuthorized => 2u32,
                ContractError::ContractPaused => 3u32,
                ContractError::InvalidParameters => 4u32,
                ContractError::RaffleNotFound => 5u32,
                ContractError::AdminTransferPending => 11u32,
                ContractError::NoPendingTransfer => 12u32,
                ContractError::RateLimitExceeded => 13u32,
                ContractError::NoPendingOp => 14u32,
                ContractError::TimelockNotElapsed => 15u32,
                ContractError::InvalidRaffleId => 16u32,
                ContractError::RaffleNotEligible => 17u32,
                ContractError::ArithmeticOverflow => 18u32,
                ContractError::TreasuryNotSet => 19u32,
            },
    {
        match *self {
            ContractError::AlreadyInitialized => 1,
            ContractError::NotAuthorized => 2,
            ContractError::ContractPaused => 3,
            ContractError::InvalidParameters => 4,
            ContractError::RaffleNotFound => 5,
            ContractError::AdminTransferPending => 11,
            ContractError::NoPendingTransfer => 12,
            ContractError::RateLimitExceeded => 13,
            ContractError::NoPendingOp => 14,
            ContractError::TimelockNotElapsed => 15,
            ContractError::InvalidRaffleId => 16,
            ContractError::RaffleNotEligible => 17,
            ContractError::ArithmeticOverflow => 18,
            ContractError::TreasuryNotSet => 19,
        }
    }
}

/// A call that the factory makes into one of its raffle instances.
#[derive(Clone, Copy, PartialEq, Eq, Structural, Debug)]
pub enum InstanceCall {
    /// `set_admin(admin)` on the instance.
    SetAdmin { instance: Address, admin: Address },
    /// `pause()` on the instance.
    Pause { instance: Address },
    /// `unpause()` on the instance.
    Unpause { instance: Address },
    /// `wipe_storage()` on the instance.
    WipeStorage { instance: Address },
}

/// What a raffle creation needs once the creator passed the checks: the
/// instance code to deploy and the deployment salt (the SHA-256 of the XDR of
/// the creator and the description), then, for the instance's `init`, the
/// configuration with the protocol fee and treasury imposed, the factory
/// admin, and the factory itself.
pub struct PreparedRaffle {
    pub wasm_hash: [u8; 32],
    pub salt: [u8; 32],
    pub config: RaffleConfig,
    pub admin: Address,
    pub factory: Address,
}

/// The raffle factory's storage.
pub struct RaffleFactory {
    /// This factory's own contract address.
    pub self_address: Address,
    pub initialized: bool,
    pub admin: Option<Address>,
    pub instance_wasm_hash: Option<[u8; 32]>,
    pub protocol_fee_bp: Option<u32>,
    pub treasury: Option<Address>,
    pub paused: bool,
    pub pending_admin: Option<Address>,
    pub pending_ops: Table<u32, PendingOp>,
    pub op_counter: u32,
    pub checkpoints: Table<u32, StateCheckpoint>,
    pub latest_checkpoint_index: u32,
    pub total_raffles_created: u32,
    pub unique_participants: Table<Address, bool>,
    pub total_unique_participants: u32,
    pub min_creation_delay: u64,
    pub last_creation_time: Table<Address, u64>,
    pub whitelisted: Table<Address, bool>,
    pub total_volume: Table<Address, i128>,
    /// Stable map: stable id to raffle address. A cleaned-up raffle leaves no entry.
    pub raffle_by_id: Table<u32, Address>,
    /// The stable id that the next raffle receives; never decreases.
    pub next_raffle_id: u32,
    /// Number of live (not cleaned-up) raffles.
    pub raffle_count: u32,
    /// Raffles of each creator, in creation order.
    pub creator_raffles: Table<Address, Vec<Address>>,
}

/// Whether an address may hold a privileged role (admin or treasury): it
/// exists on the ledger, is not the zero contract id and is not the factory.
pub open spec fn valid_role_address(a: Address, on_ledger: bool, factory: Address) -> bool {
    on_ledger && a != Address::spec_zero_contract() && a != factory
}

/// The raffle addresses stored under the stable ids in `[lo, hi)`, in id order.
pub open spec fn live_raffles(m: Map<u32, Address>, lo: int, hi: int) -> Seq<Address>
    decreases hi - lo,
{
    if hi <= lo {
        Seq::empty()
    } else {
        let prev = live_raffles(m, lo, hi - 1);
        if hi - 1 <= u32::MAX && m.contains_key((hi - 1) as u32) {
            prev.push(m[(hi - 1) as u32])
        } else {
            prev
        }
    }
}

/// Ids in use below `hi`.
pub open spec fn ids_below(m: Map<u32, Address>, hi: int) -> Set<u32> {
    m.dom().filter(|k: u32| (k as int) < hi)
}

/// A walk over the ids in `[0, hi)` yields one raffle per id in use below `hi`.
pub proof fn lemma_live_raffles_count(m: Map<u32, Address>, hi: int)
    requires
        m.dom().finite(),
        0 <= hi <= u32::MAX + 1,
    ensures
        ids_below(m, hi).finite(),
        live_raffles(m, 0, hi).len() == ids_below(m, hi).len(),
    decreases hi,
{
    m.dom().lemma_len_filter(|k: u32| (k as int) < hi);
    if hi == 0 {
        assert(ids_below(m, hi) =~= Set::<u32>::empty());
    } else {
        lemma_live_raffles_count(m, hi - 1);
        let k = (hi - 1) as u32;
        if m.contains_key(k) {
            assert(ids_below(m, hi) =~= ids_below(m, hi - 1).insert(k));
        } else {
            assert(ids_below(m, hi) =~= ids_below(m, hi - 1));
        }
    }
}

/// A walk over `[lo, hi)` yields at most one raffle per id.
pub proof fn lemma_live_raffles_len_bound(m: Map<u32, Address>, lo: int, hi: int)
    ensures
        live_raffles(m, lo, hi).len() <= if hi > lo { hi - lo } else { 0 },
    decreases hi - lo,
{
    if hi > lo {
        lemma_live_raffles_len_bound(m, lo, hi - 1);
    }
}

/// Walks over adjacent ranges of ids concatenate.
pub proof fn lemma_live_raffles_split(m: Map<u32, Address>, lo: int, mid: int, hi: int)
    requires
        lo <= mid <= hi,
    ensures
        live_raffles(m, lo, mid) + live_raffles(m, mid, hi) == live_raffles(m, lo, hi),
    decreases hi - mid,
{
    if hi == mid {
        assert(live_raffles(m, lo, mid) + live_raffles(m, mid, hi) =~= live_raffles(m, lo, hi));
    } else {
        lemma_live_raffles_split(m, lo, mid, hi - 1);
        let a = live_raffles(m, lo, mid);
        let b = live_raffles(m, mid, hi - 1);
        if hi - 1 <= u32::MAX && m.contains_key((hi - 1) as u32) {
            assert(a + b.push(m[(hi - 1) as u32]) =~= (a + b).push(m[(hi - 1) as u32]));
        }
    }
}

/// Under the invariant, the live count is the number of raffles that a walk
/// over every id ever assigned yields, and it does not exceed the next id.
pub proof fn lemma_count_is_full_walk(f: RaffleFactory)
    requires
        f.registry_consistent(),
    ensures
        live_raffles(f.raffle_by_id@, 0, f.next_raffle_id as int).len() == f.raffle_count,
        f.raffle_count <= f.next_raffle_id,
{
    let m = f.raffle_by_id@;
    lemma_live_raffles_count(m, f.next_raffle_id as int);
    assert(ids_below(m, f.next_raffle_id as int) =~= m.dom());
    lemma_live_raffles_len_bound(m, 0, f.next_raffle_id as int);
}

/// The bytes over which a checkpoint's aggregate hash is taken.
pub fn checkpoint_preimage(raffle_count: u32, sequence: u32, timestamp: u64) -> (b: Vec<u8>)
    ensures
        b@ == be_u32(raffle_count) + be_u32(sequence) + be_u64(timestamp),
        b@.len() == 16,
{
    let mut out: Vec<u8> = Vec::new();
    push_be_u32(&mut out, raffle_count);
    push_be_u32(&mut out, sequence);
    push_be_u32(&mut out, (timestamp / 0x1_0000_0000) as u32);
    push_be_u32(&mut out, (timestamp % 0x1_0000_0000) as u32);
    assert(out@ =~= be_u32(raffle_count) + be_u32(sequence) + be_u64(timestamp));
    out
}

impl RaffleFactory {
    /// The invariant that every entry point keeps: ids in use lie below the
    /// next id, the live count is the number of ids in use, and the protocol
    /// fee, once set, is within its bound.
    pub open spec fn wf(&self) -> bool {
        &&& self.registry_consistent()
        &&& self.next_raffle_id == self.total_raffles_created
        &&& forall|f: u32| self.protocol_fee_bp == Some(f) ==> f <= MAX_PROTOCOL_FEE_BP
    }

    /// The registry's own consistency: ids in use lie below the next id and
    /// the live count is the number of ids in use.
    pub open spec fn registry_consistent(&self) -> bool {
        &&& forall|id: u32| #[trigger] self.raffle_by_id@.contains_key(id) ==> id < self.next_raffle_id
        &&& self.raffle_by_id@.dom().finite()
        &&& self.raffle_count == self.raffle_by_id@.dom().len()
    }

    /// How `post` follows from `pre` when `set_config(protocol_fee_bp,
    /// treasury, treasury_on_ledger, ledger)` returns `r`.
    pub open spec fn config_proposed(
        pre: RaffleFactory,
        post: RaffleFactory,
        protocol_fee_bp: u32,
        treasury: Address,
        treasury_on_ledger: bool,
        ledger: LedgerInfo,
        r: Result<u32, ContractError>,
    ) -> bool {
        &&& pre.admin is None ==> r == Err::<u32, ContractError>(ContractError::NotAuthorized)
        &&& pre.admin is Some && (protocol_fee_bp > MAX_PROTOCOL_FEE_BP
            || !valid_role_address(treasury, treasury_on_ledger, pre.self_address))
            ==> r == Err::<u32, ContractError>(ContractError::InvalidParameters)
        &&& r is Ok <==> (pre.admin is Some && protocol_fee_bp <= MAX_PROTOCOL_FEE_BP
            && valid_role_address(treasury, treasury_on_ledger, pre.self_address))
        &&& r is Ok ==> ({
            let op_id = if pre.op_counter == u32::MAX { u32::MAX } else { (pre.op_counter + 1) as u32 };
            &&& r == Ok::<u32, ContractError>(op_id)
            &&& post.op_counter == op_id
            &&& post.pending_ops@.contains_key(op_id)
            &&& post.pending_ops@ == pre.pending_ops@.insert(op_id, post.pending_ops@[op_id])
            &&& post.pending_ops@[op_id].effective_timestamp == ledger.timestamp + TIMELOCK_DELAY_SECONDS
            &&& post.pending_ops@[op_id].proposed_by == pre.admin->0
            &&& post.pending_ops@[op_id].op matches AdminOp::SetConfig(fee, t) && fee == protocol_fee_bp && t == treasury
            &&& post == (RaffleFactory { op_counter: op_id, pending_ops: post.pending_ops, ..pre })
        })
        &&& r is Err ==> post == pre
    }

    /// How `post` follows from `pre` when `execute_config_change(op_id,
    /// treasury_on_ledger, ledger)` returns `r`.
    pub open spec fn config_executed(
        pre: RaffleFactory,
        post: RaffleFactory,
        op_id: u32,
        treasury_on_ledger: bool,
        ledger: LedgerInfo,
        r: Result<(), ContractError>,
    ) -> bool {
        &&& pre.admin is None ==> r == Err::<(), ContractError>(ContractError::NotAuthorized)
        &&& pre.admin is Some && !pre.pending_ops@.contains_key(op_id)
            ==> r == Err::<(), ContractError>(ContractError::NoPendingOp)
        &&& pre.admin is Some && pre.pending_ops@.contains_key(op_id)
            && ledger.timestamp < pre.pending_ops@[op_id].effective_timestamp
            ==> r == Err::<(), ContractError>(ContractError::TimelockNotElapsed)
        &&& r is Ok <==> ({
            &&& pre.admin is Some
            &&& pre.pending_ops@.contains_key(op_id)
            &&& ledger.timestamp >= pre.pending_ops@[op_id].effective_timestamp
            &&& match pre.pending_ops@[op_id].op {
                AdminOp::SetConfig(fee, t) => fee <= MAX_PROTOCOL_FEE_BP
                    && valid_role_address(t, treasury_on_ledger, pre.self_address),
                AdminOp::UpdateWasmHash(_) => true,
            }
        })
        &&& r is Err ==> post == pre
        &&& r is Ok ==> match pre.pending_ops@[op_id].op {
            AdminOp::SetConfig(fee, t) => post == (RaffleFactory {
                protocol_fee_bp: Some(fee),
                treasury: Some(t),
                pending_ops: post.pending_ops,
                ..pre
            }),
            AdminOp::UpdateWasmHash(h) => post == (RaffleFactory {
                instance_wasm_hash: Some(h),
                pending_ops: post.pending_ops,
                ..pre
            }),
        }
        &&& r is Ok ==> post.pending_ops@ == pre.pending_ops@.remove(op_id)
    }

    /// How `post` follows from `pre` when `transfer_factory_admin(new_admin,
    /// new_admin_on_ledger)` returns `r`.
    pub open spec fn admin_proposed(
        pre: RaffleFactory,
        post: RaffleFactory,
        new_admin: Address,
        new_admin_on_ledger: bool,
        r: Result<(), ContractError>,
    ) -> bool {
        &&& pre.admin is None ==> r == Err::<(), ContractError>(ContractError::NotAuthorized)
        &&& pre.admin == Some(new_admin) ==> r is Ok && post == (RaffleFactory { pending_admin: None, ..pre })
        &&& pre.admin is Some && pre.admin != Some(new_admin) ==> {
            if !valid_role_address(new_admin, new_admin_on_ledger, pre.self_address) {
                r == Err::<(), ContractError>(ContractError::InvalidParameters)
            } else if pre.pending_admin is Some {
                r == Err::<(), ContractError>(ContractError::AdminTransferPending)
            } else {
                r is Ok && post == (RaffleFactory { pending_admin: Some(new_admin), ..pre })
            }
        }
        &&& r is Err ==> post == pre
    }

    /// How `post` follows from `pre` when `accept_factory_admin()` returns `r`.
    pub open spec fn admin_accepted(pre: RaffleFactory, post: RaffleFactory, r: Result<Address, ContractError>) -> bool {
        &&& pre.pending_admin is None ==> r == Err::<Address, ContractError>(ContractError::NoPendingTransfer)
        &&& pre.pending_admin is Some && pre.admin is None ==> r == Err::<Address, ContractError>(ContractError::NotAuthorized)
        &&& r is Ok <==> pre.pending_admin is Some && pre.admin is Some
        &&& r is Err ==> post == pre
        &&& r is Ok ==> r == Ok::<Address, ContractError>(pre.pending_admin->0)
            && post == (RaffleFactory { admin: pre.pending_admin, pending_admin: None, ..pre })
    }

    /// How `post` follows from `pre` when `create_raffle(creator, config,
    /// ledger)` returns `r`.
    pub open spec fn creation_prepared(
        pre: RaffleFactory,
        post: RaffleFactory,
        creator: Address,
        config: RaffleConfig,
        ledger: LedgerInfo,
        r: Result<PreparedRaffle, ContractError>,
    ) -> bool {
        &&& ({
            let limited = !pre.spec_whitelisted(creator) && ledger.timestamp
                < pre.spec_last_creation(creator) + pre.min_creation_delay;
            &&& pre.paused ==> r == Err::<PreparedRaffle, ContractError>(ContractError::ContractPaused)
            &&& !pre.paused && limited ==> r == Err::<PreparedRaffle, ContractError>(ContractError::RateLimitExceeded)
            &&& !pre.paused && !limited && pre.treasury is None
                ==> r == Err::<PreparedRaffle, ContractError>(ContractError::TreasuryNotSet)
            &&& !pre.paused && !limited && pre.treasury is Some && pre.admin is None
                ==> r == Err::<PreparedRaffle, ContractError>(ContractError::NotAuthorized)
            &&& !pre.paused && !limited && pre.treasury is Some && pre.admin is Some
                && pre.instance_wasm_hash is None
                ==> r == Err::<PreparedRaffle, ContractError>(ContractError::InvalidParameters)
            &&& r is Ok <==> !pre.paused && !limited && pre.treasury is Some
                && pre.admin is Some && pre.instance_wasm_hash is Some
        })
        &&& r is Err ==> post == pre
        &&& r matches Ok(p) ==> {
            &&& p.admin == pre.admin->0
            &&& p.factory == pre.self_address
            &&& p.wasm_hash == pre.instance_wasm_hash->0
            &&& p.salt@ == sha256_digest(creator_description_xdr(creator, config.description@))
            &&& p.config == (RaffleConfig {
                protocol_fee_bp: if pre.protocol_fee_bp is Some { pre.protocol_fee_bp->0 } else { 0 },
                treasury_address: pre.treasury,
                ..config
            })
            &&& if pre.spec_whitelisted(creator) {
                post == pre
            } else {
                &&& post.last_creation_time@ == pre.last_creation_time@.insert(creator, ledger.timestamp)
                &&& post == (RaffleFactory { last_creation_time: post.last_creation_time, ..pre })
            }
        }
    }

    /// How the registry of `post` follows from that of `pre` when
    /// `register_raffle` registers `raffle_address` and returns `r`.
    pub open spec fn registered(pre: RaffleFactory, post: RaffleFactory, creator: Address, raffle_address: Address, r: u32) -> bool {
        &&& r == pre.next_raffle_id
        &&& post.raffle_by_id@ == pre.raffle_by_id@.insert(pre.next_raffle_id, raffle_address)
        &&& post.next_raffle_id == if pre.next_raffle_id == u32::MAX {
            u32::MAX
        } else {
            (pre.next_raffle_id + 1) as u32
        }
        &&& post.raffle_count == if pre.raffle_count == u32::MAX {
            u32::MAX
        } else {
            (pre.raffle_count + 1) as u32
        }
        &&& post.total_raffles_created == pre.total_raffles_created + 1
        &&& post.creator_list(creator) == pre.creator_list(creator).push(raffle_address)
        &&& forall|c: Address| c != creator ==> #[trigger] post.creator_list(c) == pre.creator_list(c)
    }

    /// How `post` follows from `pre` when `clean_old_raffle(raffle_id)` returns `r`.
    pub open spec fn raffle_cleaned(pre: RaffleFactory, post: RaffleFactory, raffle_id: u32, r: Result<InstanceCall, ContractError>) -> bool {
        &&& pre.admin is None ==> r == Err::<InstanceCall, ContractError>(ContractError::NotAuthorized)
        &&& pre.admin is Some && !pre.raffle_by_id@.contains_key(raffle_id)
            ==> r == Err::<InstanceCall, ContractError>(ContractError::InvalidRaffleId)
        &&& r is Ok <==> pre.admin is Some && pre.raffle_by_id@.contains_key(raffle_id)
        &&& r is Err ==> post == pre
        &&& r is Ok ==> {
            &&& r == Ok::<InstanceCall, ContractError>(InstanceCall::WipeStorage { instance: pre.raffle_by_id@[raffle_id] })
            &&& post.raffle_by_id@ == pre.raffle_by_id@.remove(raffle_id)
            &&& post == (RaffleFactory {
                raffle_by_id: post.raffle_by_id,
                raffle_count: if pre.raffle_count == 0 { 0 } else { (pre.raffle_count - 1) as u32 },
                ..pre
            })
        }
    }

    /// Per-creator raffle list as a sequence (empty when none).
    pub open spec fn creator_list(&self, creator: Address) -> Seq<Address> {
        if self.creator_raffles@.contains_key(creator) {
            self.creator_raffles@[creator]@
        } else {
            Seq::empty()
        }
    }

    /// Last creation time of a creator (zero when none).
    pub open spec fn spec_last_creation(&self, creator: Address) -> u64 {
        if self.last_creation_time@.contains_key(creator) {
            self.last_creation_time@[creator]
        } else {
            0
        }
    }

    /// Whether `partner` is exempt from the creation delay.
    pub open spec fn spec_whitelisted(&self, partner: Address) -> bool {
        self.whitelisted@.contains_key(partner) && self.whitelisted@[partner]
    }

    /// Total recorded volume of an asset (zero when none).
    pub open spec fn spec_volume(&self, asset: Address) -> i128 {
        if self.total_volume@.contains_key(asset) {
            self.total_volume@[asset]
        } else {
            0
        }
    }

    /// Fresh, uninitialized factory storage at `self_address`.
    pub fn new(self_address: Address) -> (f: Self)
        ensures
            f.self_address == self_address,
            !f.initialized,
            f.admin is None,
            f.instance_wasm_hash is None,
            f.protocol_fee_bp is None,
            f.treasury is None,
            !f.paused,
            f.pending_admin is None,
            f.pending_ops@ == Map::<u32, PendingOp>::empty(),
            f.op_counter == 0,
            f.checkpoints@ == Map::<u32, StateCheckpoint>::empty(),
            f.latest_checkpoint_index == 0,
            f.total_raffles_created == 0,
            f.unique_participants@ == Map::<Address, bool>::empty(),
            f.total_unique_participants == 0,
            f.min_creation_delay == 300,
            f.last_creation_time@ == Map::<Address, u64>::empty(),
            f.whitelisted@ == Map::<Address, bool>::empty(),
            f.total_volume@ == Map::<Address, i128>::empty(),
            f.raffle_by_id@ == Map::<u32, Address>::empty(),
            f.next_raffle_id == 0,
            f.raffle_count == 0,
            f.creator_raffles@ == Map::<Address, Vec<Address>>::empty(),
            f.wf(),
    {
        RaffleFactory {
            self_address,
            initialized: false,
            admin: None,
            instance_wasm_hash: None,
            protocol_fee_bp: None,
            treasury: None,
            paused: false,
            pending_admin: None,
            pending_ops: Table::new(),
            op_counter: 0,
            checkpoints: Table::new(),
            latest_checkpoint_index: 0,
            total_raffles_created: 0,
            unique_participants: Table::new(),
            total_unique_participants: 0,
            min_creation_delay: 300,
            last_creation_time: Table::new(),
            whitelisted: Table::new(),
            total_volume: Table::new(),
            raffle_by_id: Table::new(),
            next_raffle_id: 0,
            raffle_count: 0,
            creator_raffles: Table::new(),
        }
    }

    /// Rejects an address unfit for the admin or treasury role.
    fn require_valid_role_address(&self, address: &Address, on_ledger: bool) -> (r: Result<(), ContractError>)
        ensures
            r is Ok <==> valid_role_address(*address, on_ledger, self.self_address),
            r is Err ==> r == Err::<(), ContractError>(ContractError::InvalidParameters),
    {
        if !on_ledger || address.is_zero_contract() {
            return Err(ContractError::InvalidParameters);
        }
        if *address == self.self_address {
            return Err(ContractError::InvalidParameters);
        }
        Ok(())
    }

    /// The admin whose authorization the host must check; `NotAuthorized` when none is set.
    pub fn require_admin(&self) -> (r: Result<Address, ContractError>)
        ensures
            match self.admin {
                Some(a) => r == Ok::<Address, ContractError>(a),
                None => r == Err::<Address, ContractError>(ContractError::NotAuthorized),
            },
    {
        match self.admin {
            Some(a) => Ok(a),
            None => Err(ContractError::NotAuthorized),
        }
    }

    /// Sets up the factory: admin, instance code hash, protocol fee and treasury.
    pub fn init_factory(
        &mut self,
        admin: Address,
        wasm_hash: [u8; 32],
        protocol_fee_bp: u32,
        treasury: Address,
        admin_exists: bool,
        treasury_exists: bool,
    ) -> (r: Result<(), ContractError>)
        ensures
            old(self).wf() ==> final(self).wf(),
            old(self).initialized ==> r == Err::<(), ContractError>(ContractError::AlreadyInitialized),
            !old(self).initialized && protocol_fee_bp > MAX_PROTOCOL_FEE_BP ==> r == Err::<(), ContractError>(ContractError::InvalidParameters),
            !old(self).initialized && protocol_fee_bp <= MAX_PROTOCOL_FEE_BP && !(valid_role_address(admin, admin_exists, old(self).self_address)
                && valid_role_address(treasury, treasury_exists, old(self).self_address)) ==> r == Err::<(), ContractError>(ContractError::InvalidParameters),
            r is Ok <==> (!old(self).initialized && protocol_fee_bp <= MAX_PROTOCOL_FEE_BP
                && valid_role_address(admin, admin_exists, old(self).self_address)
                && valid_role_address(treasury, treasury_exists, old(self).self_address)),
            r is Ok ==> *final(self) == (RaffleFactory {
                initialized: true,
                admin: Some(admin),
                instance_wasm_hash: Some(wasm_hash),
                protocol_fee_bp: Some(protocol_fee_bp),
                treasury: Some(treasury),
                ..*old(self)
            }),
            r is Err ==> *final(self) == *old(self),
    {
        if self.initialized {
            return Err(ContractError::AlreadyInitialized);
        }
        if protocol_fee_bp > MAX_PROTOCOL_FEE_BP {
            return Err(ContractError::InvalidParameters);
        }
        self.require_valid_role_address(&admin, admin_exists)?;
        self.require_valid_role_address(&treasury, treasury_exists)?;
        self.admin = Some(admin);
        self.instance_wasm_hash = Some(wasm_hash);
        self.protocol_fee_bp = Some(protocol_fee_bp);
        self.treasury = Some(treasury);
        self.initialized = true;
        Ok(())
    }
    /// Proposes a new protocol fee and treasury; the change takes effect only
    /// through `execute_config_change` once the timelock has passed.
    /// Returns the id of the proposed operation.
    pub fn set_config(
        &mut self,
        protocol_fee_bp: u32,
        treasury: Address,
        treasury_on_ledger: bool,
        ledger: LedgerInfo,
    ) -> (r: Result<u32, ContractError>)
        requires
            ledger.timestamp + TIMELOCK_DELAY_SECONDS <= u64::MAX,
        ensures
            old(self).wf() ==> final(self).wf(),
            RaffleFactory::config_proposed(*old(self), *final(self), protocol_fee_bp, treasury, treasury_on_ledger, ledger, r),
    {
        let admin = self.require_admin()?;
        if protocol_fee_bp > MAX_PROTOCOL_FEE_BP {
            return Err(ContractError::InvalidParameters);
        }
        self.require_valid_role_address(&treasury, treasury_on_ledger)?;
        let op_id = self.op_counter.saturating_add(1);
        self.op_counter = op_id;
        let effective_timestamp = ledger.timestamp + TIMELOCK_DELAY_SECONDS;
        let pending = PendingOp {
            op: AdminOp::SetConfig(protocol_fee_bp, treasury),
            effective_timestamp,
            proposed_by: admin,
        };
        self.pending_ops.insert(op_id, pending);
        Ok(op_id)
    }

    /// Applies a pending operation whose timelock has passed, then forgets it.
    ///
    /// A fee and treasury change is checked again as when proposed
    /// (`treasury_on_ledger` tells whether its treasury exists now).
    pub fn execute_config_change(
        &mut self,
        op_id: u32,
        treasury_on_ledger: bool,
        ledger: LedgerInfo,
    ) -> (r: Result<(), ContractError>)
        ensures
            old(self).wf() ==> final(self).wf(),
            RaffleFactory::config_executed(*old(self), *final(self), op_id, treasury_on_ledger, ledger, r),
    {
        let _admin = self.require_admin()?;
        let pending: PendingOp = match self.pending_ops.get(&op_id) {
            Some(p) => *p,
            None => return Err(ContractError::NoPendingOp),
        };
        if ledger.timestamp < pending.effective_timestamp {
            return Err(ContractError::TimelockNotElapsed);
        }
        match pending.op {
            AdminOp::SetConfig(protocol_fee_bp, treasury) => {
                if protocol_fee_bp > MAX_PROTOCOL_FEE_BP {
                    return Err(ContractError::InvalidParameters);
                }
                self.require_valid_role_address(&treasury, treasury_on_ledger)?;
                self.protocol_fee_bp = Some(protocol_fee_bp);
                self.treasury = Some(treasury);
            },
            AdminOp::UpdateWasmHash(new_hash) => {
                self.instance_wasm_hash = Some(new_hash);
            },
        }
        let _ = self.pending_ops.remove(&op_id);
        Ok(())
    }

    /// Withdraws a pending operation before it is executed.
    pub fn cancel_config_change(&mut self, op_id: u32) -> (r: Result<(), ContractError>)
        ensures
            old(self).wf() ==> final(self).wf(),
            old(self).admin is None ==> r == Err::<(), ContractError>(ContractError::NotAuthorized),
            old(self).admin is Some && !old(self).pending_ops@.contains_key(op_id)
                ==> r == Err::<(), ContractError>(ContractError::NoPendingOp),
            r is Ok <==> old(self).admin is Some && old(self).pending_ops@.contains_key(op_id),
            r is Err ==> *final(self) == *old(self),
            r is Ok ==> final(self).pending_ops@ == old(self).pending_ops@.remove(op_id)
                && *final(self) == (RaffleFactory { pending_ops: final(self).pending_ops, ..*old(self) }),
    {
        let _admin = self.require_admin()?;
        if !self.pending_ops.contains(&op_id) {
            return Err(ContractError::NoPendingOp);
        }
        let _ = self.pending_ops.remove(&op_id);
        Ok(())
    }

    /// The pending operation with id `op_id`, if any.
    pub fn get_pending_op(&self, op_id: u32) -> (r: Option<PendingOp>)
        ensures
            r == (if self.pending_ops@.contains_key(op_id) {
                Some(self.pending_ops@[op_id])
            } else {
                None::<PendingOp>
            }),
    {
        match self.pending_ops.get(&op_id) {
            Some(p) => Some(*p),
            None => None,
        }
    }

    /// Id of the most recently proposed operation (zero when none).
    pub fn get_op_counter(&self) -> (c: u32)
        ensures
            c == self.op_counter,
    {
        self.op_counter
    }

    /// First step of raffle creation: checks that the factory is not paused
    /// and that the creator respects the creation delay (unless whitelisted),
    /// records the creation time, imposes the protocol fee and treasury on the
    /// creator's configuration and derives the deployment salt. The host then
    /// deploys the instance with that code and salt, calls its `init` with the
    /// rest of what this returns, and finishes with `register_raffle`.
    pub fn create_raffle(
        &mut self,
        env: &Env,
        creator: Address,
        config: RaffleConfig,
        ledger: LedgerInfo,
    ) -> (r: Result<PreparedRaffle, ContractError>)
        requires
            !old(self).spec_whitelisted(creator) ==> old(self).spec_last_creation(creator)
                + old(self).min_creation_delay <= u64::MAX,
            config.description@.len() <= u32::MAX,
        ensures
            old(self).wf() ==> final(self).wf(),
            RaffleFactory::creation_prepared(*old(self), *final(self), creator, config, ledger, r),
    {
        if self.paused {
            return Err(ContractError::ContractPaused);
        }
        let is_whitelisted = match self.whitelisted.get(&creator) {
            Some(b) => *b,
            None => false,
        };
        if !is_whitelisted {
            let last_creation: u64 = match self.last_creation_time.get(&creator) {
                Some(t) => *t,
                None => 0,
            };
            if ledger.timestamp < last_creation + self.min_creation_delay {
                return Err(ContractError::RateLimitExceeded);
            }
        }
        let protocol_fee_bp: u32 = match self.protocol_fee_bp {
            Some(f) => f,
            None => 0,
        };
        let treasury = match self.treasury {
            Some(t) => t,
            None => return Err(ContractError::TreasuryNotSet),
        };
        let admin = match self.admin {
            Some(a) => a,
            None => return Err(ContractError::NotAuthorized),
        };
        let wasm_hash = match self.instance_wasm_hash {
            Some(h) => h,
            None => return Err(ContractError::InvalidParameters),
        };
        if !is_whitelisted {
            self.last_creation_time.insert(creator, ledger.timestamp);
        }
        let salt = sha256(env, &encode_creator_description(&creator, &config.description));
        let mut final_config = config;
        final_config.protocol_fee_bp = protocol_fee_bp;
        final_config.treasury_address = Some(treasury);
        Ok(PreparedRaffle { config: final_config, admin, factory: self.self_address, wasm_hash, salt })
    }

    /// Last step of raffle creation: gives the deployed instance the next
    /// stable id, appends it to the creator's list, and counts it. Every
    /// `CHECKPOINT_INTERVAL` raffles it records a checkpoint whose aggregate
    /// hash is the SHA-256 of the raffle count, ledger sequence and ledger
    /// timestamp (big-endian), and makes it the latest. Returns the stable id.
    pub fn register_raffle(
        &mut self,
        env: &Env,
        creator: Address,
        raffle_address: Address,
        ledger: LedgerInfo,
    ) -> (r: u32)
        requires
            old(self).total_raffles_created < u32::MAX,
        ensures
            old(self).wf() ==> final(self).wf(),
            RaffleFactory::registered(*old(self), *final(self), creator, raffle_address, r),
            ({
                let count = final(self).total_raffles_created;
                let index = (count / CHECKPOINT_INTERVAL) as u32;
                if count % CHECKPOINT_INTERVAL == 0 {
                    let cp = final(self).checkpoints@[index];
                    &&& final(self).checkpoints@ == old(self).checkpoints@.insert(index, cp)
                    &&& cp.index == index && cp.raffle_count == count && cp.ledger_timestamp == ledger.timestamp
                    &&& cp.aggregate_hash@ == sha256_digest(be_u32(count) + be_u32(ledger.sequence) + be_u64(ledger.timestamp))
                    &&& final(self).latest_checkpoint_index == index
                } else {
                    &&& final(self).checkpoints == old(self).checkpoints
                    &&& final(self).latest_checkpoint_index == old(self).latest_checkpoint_index
                }
            }),
            *final(self) == (RaffleFactory {
                raffle_by_id: final(self).raffle_by_id,
                next_raffle_id: final(self).next_raffle_id,
                raffle_count: final(self).raffle_count,
                total_raffles_created: final(self).total_raffles_created,
                creator_raffles: final(self).creator_raffles,
                checkpoints: final(self).checkpoints,
                latest_checkpoint_index: final(self).latest_checkpoint_index,
                ..*old(self)
            }),
    {
        proof {
            if old(self).wf() {
                lemma_count_is_full_walk(*old(self));
            }
        }
        let stable_id = self.next_raffle_id;
        self.raffle_by_id.insert(stable_id, raffle_address);
        self.next_raffle_id = stable_id.saturating_add(1);

        let mut list: Vec<Address> = match self.creator_raffles.remove(&creator) {
            Some(v) => v,
            None => Vec::new(),
        };
        list.push(raffle_address);
        let ghost removed = self.creator_raffles@;
        self.creator_raffles.insert(creator, list);
        assert forall|c: Address| c != creator implies #[trigger] self.creator_list(c) == old(self).creator_list(c) by {
            assert(removed.contains_key(c) == old(self).creator_raffles@.contains_key(c));
        }

        self.raffle_count = self.raffle_count.saturating_add(1);
        let count = self.total_raffles_created + 1;
        self.total_raffles_created = count;
        self.maybe_create_checkpoint(env, count, ledger);
        stable_id
    }

    /// Every `CHECKPOINT_INTERVAL` raffles, records a checkpoint of `raffle_count`.
    fn maybe_create_checkpoint(&mut self, env: &Env, raffle_count: u32, ledger: LedgerInfo)
        ensures
            ({
                let index = (raffle_count / CHECKPOINT_INTERVAL) as u32;
                if raffle_count != 0 && raffle_count % CHECKPOINT_INTERVAL == 0 {
                    let cp = final(self).checkpoints@[index];
                    &&& final(self).checkpoints@ == old(self).checkpoints@.insert(index, cp)
                    &&& cp.index == index && cp.raffle_count == raffle_count && cp.ledger_timestamp == ledger.timestamp
                    &&& cp.aggregate_hash@ == sha256_digest(be_u32(raffle_count) + be_u32(ledger.sequence) + be_u64(ledger.timestamp))
                    &&& *final(self) == (RaffleFactory {
                        checkpoints: final(self).checkpoints,
                        latest_checkpoint_index: index,
                        ..*old(self)
                    })
                } else {
                    *final(self) == *old(self)
                }
            }),
    {
        if raffle_count == 0 || raffle_count % CHECKPOINT_INTERVAL != 0 {
            return;
        }
        let index = raffle_count / CHECKPOINT_INTERVAL;
        let input = checkpoint_preimage(raffle_count, ledger.sequence, ledger.timestamp);
        let aggregate_hash = sha256(env, &input);
        let checkpoint = StateCheckpoint {
            index,
            raffle_count,
            ledger_timestamp: ledger.timestamp,
            aggregate_hash,
        };
        self.checkpoints.insert(index, checkpoint);
        self.latest_checkpoint_index = index;
    }

    /// Aggregate protocol figures.
    pub fn get_protocol_stats(&self) -> (s: ProtocolStats)
        ensures
            s == (ProtocolStats {
                total_raffles_created: self.total_raffles_created,
                protocol_fee_bp: if self.protocol_fee_bp is Some { self.protocol_fee_bp->0 } else { 0 },
                paused: self.paused,
                total_unique_participants: self.total_unique_participants,
            }),
    {
        ProtocolStats {
            total_raffles_created: self.total_raffles_created,
            protocol_fee_bp: match self.protocol_fee_bp {
                Some(f) => f,
                None => 0,
            },
            paused: self.paused,
            total_unique_participants: self.total_unique_participants,
        }
    }

    /// The raffle registered under a stable id; `None` if never assigned or cleaned up.
    pub fn get_raffle_by_id(&self, raffle_id: u32) -> (r: Option<Address>)
        ensures
            r == (if self.raffle_by_id@.contains_key(raffle_id) {
                Some(self.raffle_by_id@[raffle_id])
            } else {
                None::<Address>
            }),
    {
        match self.raffle_by_id.get(&raffle_id) {
            Some(a) => Some(*a),
            None => None,
        }
    }

    /// The stable id that the next raffle will receive.
    pub fn get_next_raffle_id(&self) -> (n: u32)
        ensures
            n == self.next_raffle_id,
    {
        self.next_raffle_id
    }

    /// Number of live (not cleaned-up) raffles.
    pub fn get_raffle_count(&self) -> (n: u32)
        ensures
            n == self.raffle_count,
    {
        self.raffle_count
    }

    /// Total recorded ticket volume of an asset.
    pub fn get_total_volume(&self, asset: Address) -> (v: i128)
        ensures
            v == self.spec_volume(asset),
    {
        match self.total_volume.get(&asset) {
            Some(v) => *v,
            None => 0,
        }
    }

    /// Adds `amount` to the recorded volume of `asset`; `ArithmeticOverflow`
    /// (and no change) when the total would leave the `i128` range.
    pub fn record_volume(&mut self, asset: Address, amount: i128) -> (r: Result<(), ContractError>)
        ensures
            old(self).wf() ==> final(self).wf(),
            ({
                let total = old(self).spec_volume(asset) + amount;
                &&& (r is Ok <==> i128::MIN <= total <= i128::MAX)
                &&& r is Err ==> r == Err::<(), ContractError>(ContractError::ArithmeticOverflow)
                    && *final(self) == *old(self)
                &&& r is Ok ==> final(self).total_volume@ == old(self).total_volume@.insert(asset, total as i128)
                    && *final(self) == (RaffleFactory { total_volume: final(self).total_volume, ..*old(self) })
            }),
    {
        let current: i128 = match self.total_volume.get(&asset) {
            Some(v) => *v,
            None => 0,
        };
        match current.checked_add(amount) {
            Some(total) => {
                self.total_volume.insert(asset, total);
                Ok(())
            },
            None => Err(ContractError::ArithmeticOverflow),
        }
    }

    /// The factory admin; `NotAuthorized` when none is set.
    pub fn get_admin(&self) -> (r: Result<Address, ContractError>)
        ensures
            match self.admin {
                Some(a) => r == Ok::<Address, ContractError>(a),
                None => r == Err::<Address, ContractError>(ContractError::NotAuthorized),
            },
    {
        self.require_admin()
    }

    /// A page of the registry, walking stable ids from `params.offset`: the
    /// live raffles among at most `effective_limit(params.limit)` ids, with
    /// cleaned-up ids skipped.
    pub fn get_raffles_page(&self, params: PaginationParams) -> (p: PageResultRaffles)
        ensures
            ({
                let end = spec_page_end(params.offset, params.limit, self.next_raffle_id);
                &&& p.items@ == live_raffles(self.raffle_by_id@, params.offset as int, end as int)
                &&& p.total == self.raffle_count
                &&& p.has_more == (end < self.next_raffle_id)
            }),
    {
        let next_id = self.next_raffle_id;
        let offset = params.offset;
        let total = self.raffle_count;
        if offset >= next_id {
            return PageResultRaffles { items: Vec::new(), total, has_more: false };
        }
        let end = page_end(offset, params.limit, next_id);
        let mut items: Vec<Address> = Vec::new();
        let mut id = offset;
        while id < end
            invariant
                offset <= id <= end,
                items@ == live_raffles(self.raffle_by_id@, offset as int, id as int),
            decreases end - id,
        {
            match self.raffle_by_id.get(&id) {
                Some(a) => items.push(*a),
                None => {},
            }
            id = id + 1;
        }
        PageResultRaffles { items, total, has_more: end < next_id }
    }

    /// A page of one creator's raffles, in creation order; `params.offset`
    /// indexes the creator's own list.
    pub fn get_raffles_by_creator(&self, creator: Address, params: PaginationParams) -> (p: PageResultRaffles)
        requires
            self.creator_list(creator).len() <= u32::MAX,
        ensures
            ({
                let list = self.creator_list(creator);
                let end = spec_page_end(params.offset, params.limit, list.len() as u32);
                &&& p.total == list.len()
                &&& params.offset >= list.len() ==> p.items@ == Seq::<Address>::empty() && !p.has_more
                &&& params.offset < list.len() ==> p.items@ == list.subrange(params.offset as int, end as int)
                    && p.has_more == (end < list.len())
            }),
    {
        let empty: Vec<Address> = Vec::new();
        let list: &Vec<Address> = match self.creator_raffles.get(&creator) {
            Some(v) => v,
            None => &empty,
        };
        let total = list.len() as u32;
        let offset = params.offset;
        if offset >= total {
            return PageResultRaffles { items: Vec::new(), total, has_more: false };
        }
        let end = page_end(offset, params.limit, total);
        let mut items: Vec<Address> = Vec::new();
        let mut i = offset;
        while i < end
            invariant
                offset <= i <= end,
                end <= list@.len(),
                items@ == list@.subrange(offset as int, i as int),
            decreases end - i,
        {
            items.push(list[i as usize]);
            i = i + 1;
            assert(items@ =~= list@.subrange(offset as int, i as int));
        }
        PageResultRaffles { items, total, has_more: end < total }
    }

    /// Stops raffle creation.
    pub fn pause_factory(&mut self) -> (r: Result<(), ContractError>)
        ensures
            old(self).wf() ==> final(self).wf(),
            old(self).admin is None ==> r == Err::<(), ContractError>(ContractError::NotAuthorized) && *final(self) == *old(self),
            old(self).admin is Some ==> r is Ok && *final(self) == (RaffleFactory { paused: true, ..*old(self) }),
    {
        let _admin = self.require_admin()?;
        self.paused = true;
        Ok(())
    }

    /// Resumes raffle creation.
    pub fn unpause_factory(&mut self) -> (r: Result<(), ContractError>)
        ensures
            old(self).wf() ==> final(self).wf(),
            old(self).admin is None ==> r == Err::<(), ContractError>(ContractError::NotAuthorized) && *final(self) == *old(self),
            old(self).admin is Some ==> r is Ok && *final(self) == (RaffleFactory { paused: false, ..*old(self) }),
    {
        let _admin = self.require_admin()?;
        self.paused = false;
        Ok(())
    }

    /// Whether raffle creation is stopped.
    pub fn is_factory_paused(&self) -> (b: bool)
        ensures
            b == self.paused,
    {
        self.paused
    }

    /// First step of an admin handover: proposes `new_admin`, who must accept.
    /// Proposing the current admin withdraws any pending proposal.
    pub fn transfer_factory_admin(&mut self, new_admin: Address, new_admin_on_ledger: bool) -> (r: Result<(), ContractError>)
        ensures
            old(self).wf() ==> final(self).wf(),
            RaffleFactory::admin_proposed(*old(self), *final(self), new_admin, new_admin_on_ledger, r),
    {
        let admin = self.require_admin()?;
        if new_admin == admin {
            self.pending_admin = None;
            return Ok(());
        }
        self.require_valid_role_address(&new_admin, new_admin_on_ledger)?;
        if self.pending_admin.is_some() {
            return Err(ContractError::AdminTransferPending);
        }
        self.pending_admin = Some(new_admin);
        Ok(())
    }

    /// Second step of an admin handover: the proposed admin takes over.
    /// Returns the new admin.
    pub fn accept_factory_admin(&mut self) -> (r: Result<Address, ContractError>)
        ensures
            old(self).wf() ==> final(self).wf(),
            RaffleFactory::admin_accepted(*old(self), *final(self), r),
    {
        let pending = match self.pending_admin {
            Some(p) => p,
            None => return Err(ContractError::NoPendingTransfer),
        };
        let _old_admin = self.require_admin()?;
        self.admin = Some(pending);
        self.pending_admin = None;
        Ok(pending)
    }

    /// Authorizes a replacement of the factory's own code: the admin whose
    /// signature the host must check before updating the code.
    pub fn upgrade(&self, new_wasm_hash: [u8; 32]) -> (r: Result<Address, ContractError>)
        ensures
            match self.admin {
                Some(a) => r == Ok::<Address, ContractError>(a),
                None => r == Err::<Address, ContractError>(ContractError::NotAuthorized),
            },
    {
        let _ = new_wasm_hash;
        self.require_admin()
    }

    /// The checkpoint with the given index, if recorded.
    pub fn get_checkpoint(&self, index: u32) -> (r: Option<StateCheckpoint>)
        ensures
            r == (if self.checkpoints@.contains_key(index) {
                Some(self.checkpoints@[index])
            } else {
                None::<StateCheckpoint>
            }),
    {
        match self.checkpoints.get(&index) {
            Some(c) => Some(*c),
            None => None,
        }
    }

    /// Index of the most recent checkpoint (zero when none).
    pub fn get_latest_checkpoint_index(&self) -> (n: u32)
        ensures
            n == self.latest_checkpoint_index,
    {
        self.latest_checkpoint_index
    }

    /// Pushes the factory admin to an instance: the call to make.
    pub fn sync_admin(&self, instance_address: Address) -> (r: Result<InstanceCall, ContractError>)
        ensures
            match self.admin {
                Some(a) => r == Ok::<InstanceCall, ContractError>(InstanceCall::SetAdmin { instance: instance_address, admin: a }),
                None => r == Err::<InstanceCall, ContractError>(ContractError::NotAuthorized),
            },
    {
        let admin = self.require_admin()?;
        Ok(InstanceCall::SetAdmin { instance: instance_address, admin })
    }

    /// Pauses an instance: the call to make.
    pub fn pause_instance(&self, instance_address: Address) -> (r: Result<InstanceCall, ContractError>)
        ensures
            match self.admin {
                Some(_) => r == Ok::<InstanceCall, ContractError>(InstanceCall::Pause { instance: instance_address }),
                None => r == Err::<InstanceCall, ContractError>(ContractError::NotAuthorized),
            },
    {
        let _admin = self.require_admin()?;
        Ok(InstanceCall::Pause { instance: instance_address })
    }

    /// Unpauses an instance: the call to make.
    pub fn unpause_instance(&self, instance_address: Address) -> (r: Result<InstanceCall, ContractError>)
        ensures
            match self.admin {
                Some(_) => r == Ok::<InstanceCall, ContractError>(InstanceCall::Unpause { instance: instance_address }),
                None => r == Err::<InstanceCall, ContractError>(ContractError::NotAuthorized),
            },
    {
        let _admin = self.require_admin()?;
        Ok(InstanceCall::Unpause { instance: instance_address })
    }

    /// Counts a participant the first time it is seen.
    pub fn track_participant(&mut self, participant: Address) -> (r: Result<(), ContractError>)
        requires
            !old(self).unique_participants@.contains_key(participant) ==> old(self).total_unique_participants < u32::MAX,
        ensures
            old(self).wf() ==> final(self).wf(),
            r is Ok,
            old(self).unique_participants@.contains_key(participant) ==> *final(self) == *old(self),
            !old(self).unique_participants@.contains_key(participant) ==> {
                &&& final(self).unique_participants@ == old(self).unique_participants@.insert(participant, true)
                &&& *final(self) == (RaffleFactory {
                    unique_participants: final(self).unique_participants,
                    total_unique_participants: (old(self).total_unique_participants + 1) as u32,
                    ..*old(self)
                })
            },
    {
        if !self.unique_participants.contains(&participant) {
            self.unique_participants.insert(participant, true);
            self.total_unique_participants = self.total_unique_participants + 1;
        }
        Ok(())
    }

    /// Number of distinct participants seen.
    pub fn get_unique_participants(&self) -> (n: u32)
        ensures
            n == self.total_unique_participants,
    {
        self.total_unique_participants
    }

    /// Sets the delay a creator must wait between two raffle creations.
    pub fn set_creation_delay(&mut self, delay_seconds: u64) -> (r: Result<(), ContractError>)
        ensures
            old(self).wf() ==> final(self).wf(),
            old(self).admin is None ==> r == Err::<(), ContractError>(ContractError::NotAuthorized) && *final(self) == *old(self),
            old(self).admin is Some ==> r is Ok && *final(self) == (RaffleFactory { min_creation_delay: delay_seconds, ..*old(self) }),
    {
        let _admin = self.require_admin()?;
        self.min_creation_delay = delay_seconds;
        Ok(())
    }

    /// Exempts a partner from the creation delay, or ends the exemption.
    pub fn set_whitelist_status(&mut self, partner: Address, status: bool) -> (r: Result<(), ContractError>)
        ensures
            old(self).wf() ==> final(self).wf(),
            old(self).admin is None ==> r == Err::<(), ContractError>(ContractError::NotAuthorized) && *final(self) == *old(self),
            old(self).admin is Some ==> r is Ok
                && final(self).whitelisted@ == old(self).whitelisted@.insert(partner, status)
                && *final(self) == (RaffleFactory { whitelisted: final(self).whitelisted, ..*old(self) }),
    {
        let _admin = self.require_admin()?;
        self.whitelisted.insert(partner, status);
        Ok(())
    }

    /// Sends tokens held by the factory to `recipient`: the transfer to make.
    pub fn rescue_tokens(&self, token: Address, recipient: Address, amount: i128) -> (r: Result<Transfer, ContractError>)
        ensures
            self.admin is None ==> r == Err::<Transfer, ContractError>(ContractError::NotAuthorized),
            self.admin is Some && amount <= 0 ==> r == Err::<Transfer, ContractError>(ContractError::InvalidParameters),
            self.admin is Some && amount > 0 ==> r == Ok::<Transfer, ContractError>(Transfer {
                token,
                from: self.self_address,
                to: recipient,
                amount,
            }),
    {
        let _admin = self.require_admin()?;
        if amount <= 0 {
            return Err(ContractError::InvalidParameters);
        }
        Ok(Transfer { token, from: self.self_address, to: recipient, amount })
    }

    /// Cleans up a finished raffle: frees its stable id (never reused) and
    /// lowers the live count. Returns the storage wipe to run on the instance.
    pub fn clean_old_raffle(&mut self, raffle_id: u32) -> (r: Result<InstanceCall, ContractError>)
        ensures
            old(self).wf() ==> final(self).wf(),
            RaffleFactory::raffle_cleaned(*old(self), *final(self), raffle_id, r),
    {
        let _admin = self.require_admin()?;
        let raffle_address = match self.raffle_by_id.get(&raffle_id) {
            Some(a) => *a,
            None => return Err(ContractError::InvalidRaffleId),
        };
        let _ = self.raffle_by_id.remove(&raffle_id);
        self.raffle_count = self.raffle_count.saturating_sub(1);
        Ok(InstanceCall::WipeStorage { instance: raffle_address })
    }
}

} // verus!
