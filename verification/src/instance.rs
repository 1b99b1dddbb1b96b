//! A raffle instance: ticket sales, the draw, prize claims, refunds, ticket
//! ownership transfers and the instance's administration.
//!
//! Each entry point is a method on [`Contract`], the instance's storage. The
//! host supplies what it alone knows (the ledger; the winning indices that the
//! winner-selection strategy draws from a seed; the fallback seed) and
//! performs what a method returns (token transfers, the volume report to the
//! factory). Authorization of the creator, admin, factory, oracle, buyer or
//! ticket owner is checked by the host before a method runs.
use vstd::prelude::*;
use crate::address::Address;
use crate::shared::{
    all_zero, div_by_basis_points, is_all_zero, same_hash, sum_prizes, sum_u32, trunc_div, LedgerInfo, Transfer,
};
use crate::crypto::{be_u64, encode_ledger_tuple, ledger_tuple_xdr, push_be_u64, sha256, sha256_digest};
use crate::table::Table;
use soroban_sdk::Env;

pub use crate::shared::Ticket;

verus! {

/// Longest accepted raffle description, in bytes.
pub const MAX_DESCRIPTION_LENGTH: u32 = 1000;

/// Most tickets a raffle may offer.
pub const MAX_TICKETS_LIMIT: u32 = 100_000;

/// Lowest accepted ticket price, in token base units.
pub const MIN_TICKET_PRICE: i128 = 10_000;

/// Ledgers after a randomness request before the fallback draw may run.
pub const ORACLE_TIMEOUT_LEDGERS: u32 = 200;

/// Ledgers after a randomness request before the oracle's answer is accepted.
pub const RANDOMNESS_MIN_DELAY_LEDGERS: u32 = 10;

/// Seconds after finalization before a winner may claim.
pub const CLAIM_DELAY_SECONDS: u64 = 3600;

/// Lifecycle state of a raffle.
#[derive(Clone, Copy, PartialEq, Eq, Structural, Debug)]
pub enum RaffleStatus {
    /// Created; the prize is not deposited yet.
    PendingPrize,
    /// Funded; tickets are on sale.
    Active,
    /// Sales are over and the draw is under way.
    Drawing,
    /// Winners are drawn; they can claim.
    Finalized,
    Cancelled,
    /// Too few tickets were sold at draw time.
    Failed,
    /// Every prize tier has been claimed.
    Claimed,
}

impl RaffleStatus {
    /// The numeric value under which the status is stored and published.
    pub fn code(&self) -> (c: u32)
        ensures
            c == match *self {
                RaffleStatus::PendingPrize => 6u32,
                RaffleStatus::Active => 0u32,
                RaffleStatus::Drawing => 1u32,
                RaffleStatus::Finalized => 2u32,
                RaffleStatus::Cancelled => 3u32,
                RaffleStatus::Failed => 4u32,
                RaffleStatus::Claimed => 5u32,
            },
    {
        match *self {
            RaffleStatus::PendingPrize => 6,
            RaffleStatus::Active => 0,
            RaffleStatus::Drawing => 1,
            RaffleStatus::Finalized => 2,
            RaffleStatus::Cancelled => 3,
            RaffleStatus::Failed => 4,
            RaffleStatus::Claimed => 5,
        }
    }
}

/// Why a raffle was cancelled; each reason has its own authority.
#[derive(Clone, Copy, PartialEq, Eq, Structural, Debug)]
pub enum CancelReason {
    CreatorCancelled,
    AdminCancelled,
    OracleTimeout,
    MinTicketsNotMet,
}

impl CancelReason {
    /// The numeric value under which the reason is stored and published.
    pub fn code(&self) -> (c: u32)
        ensures
            c == match *self {
                CancelReason::CreatorCancelled => 0u32,
                CancelReason::AdminCancelled => 1u32,
                CancelReason::OracleTimeout => 2u32,
                CancelReason::MinTicketsNotMet => 3u32,
            },
    {
        match *self {
            CancelReason::CreatorCancelled => 0,
            CancelReason::AdminCancelled => 1,
            CancelReason::OracleTimeout => 2,
            CancelReason::MinTicketsNotMet => 3,
        }
    }
}

/// Where the draw seed comes from.
#[derive(Clone, Copy, PartialEq, Eq, Structural, Debug)]
pub enum RandomnessSource {
    Internal,
    External,
    CommitReveal,
}

impl RandomnessSource {
    /// The numeric value under which the source is stored and published.
    pub fn code(&self) -> (c: u32)
        ensures
            c == match *self {
                RandomnessSource::Internal => 0u32,
                RandomnessSource::External => 1u32,
                RandomnessSource::CommitReveal => 2u32,
            },
    {
        match *self {
            RandomnessSource::Internal => 0,
            RandomnessSource::External => 1,
            RandomnessSource::CommitReveal => 2,
        }
    }
}

/// The stored state of a raffle.
pub struct Raffle {
    pub creator: Address,
    pub description: Vec<u8>,
    pub end_time: u64,
    pub max_tickets: u32,
    /// 0 means no minimum; otherwise a draw below it fails the raffle.
    pub min_tickets: u32,
    pub allow_multiple: bool,
    pub ticket_price: i128,
    pub payment_token: Address,
    pub prize_amount: i128,
    /// Share of the prize of each tier, in basis points.
    pub prizes: Vec<u32>,
    pub tickets_sold: u32,
    pub status: RaffleStatus,
    pub prize_deposited: bool,
    pub winners: Vec<Address>,
    /// Which tiers have been claimed.
    pub claimed_winners: Vec<bool>,
    pub randomness_source: RandomnessSource,
    pub oracle_address: Option<Address>,
    pub protocol_fee_bp: u32,
    pub treasury_address: Option<Address>,
    pub swap_router: Option<Address>,
    pub tikka_token: Option<Address>,
    pub finalized_at: Option<u64>,
    pub winner_ticket_id: Option<u32>,
}

/// Parameters with which a raffle is created.
pub struct RaffleConfig {
    pub description: Vec<u8>,
    pub end_time: u64,
    pub max_tickets: u32,
    pub min_tickets: u32,
    pub allow_multiple: bool,
    pub ticket_price: i128,
    pub payment_token: Address,
    pub prize_amount: i128,
    pub prizes: Vec<u32>,
    pub randomness_source: RandomnessSource,
    pub oracle_address: Option<Address>,
    pub protocol_fee_bp: u32,
    pub treasury_address: Option<Address>,
    pub swap_router: Option<Address>,
    pub tikka_token: Option<Address>,
    /// SHA-256 hash of the off-chain metadata; all zeros is rejected as unset.
    pub metadata_hash: [u8; 32],
}

/// What is kept of a draw so that it can be checked afterwards.
pub struct FairnessMetadata {
    pub seed: u64,
    pub randomness_source: RandomnessSource,
    pub winning_ticket_indices: Vec<u32>,
    pub draw_timestamp: u64,
    pub draw_sequence: u32,
}

/// Errors that instance entry points return.
#[derive(Clone, Copy, PartialEq, Eq, Structural, Debug)]
pub enum Error {
    RaffleNotFound,
    RaffleInactive,
    TicketsSoldOut,
    InsufficientFunds,
    NotAuthorized,
    OracleNotSet,
    RandomnessAlreadyRequested,
    NoRandomnessRequest,
    FallbackTooEarly,
    PrizeNotDeposited,
    PrizeAlreadyClaimed,
    PrizeAlreadyDeposited,
    NotWinner,
    ClaimTooEarly,
    InvalidParameters,
    InvalidStatus,
    ContractPaused,
    InvalidStateTransition,
    RaffleExpired,
    InsufficientTickets,
    MultipleTicketsNotAllowed,
    NoTicketsSold,
    TicketNotFound,
    RaffleEnded,
    ArithmeticOverflow,
    AlreadyInitialized,
    NotInitialized,
    Reentrancy,
    TokenTransferFailed,
    AdminTransferPending,
    NoPendingTransfer,
    AlreadyCommitted,
    NotCommitted,
    CommitHashMismatch,
    AlreadyRevealed,
    CommitRevealNotReady,
    TicketAlreadyRefunded,
    RandomnessTooEarly,
}

impl Error {
    /// The numeric code under which the error is reported to callers.
    pub fn code(&self) -> (c: u32)
        ensures
            c == match *self {
                Error::RaffleNotFound => 1u32,
                Error::RaffleInactive => 2u32,
                Error::TicketsSoldOut => 3u32,
                Error::InsufficientFunds => 4u32,
                Error::NotAuthorized => 5u32,
                Error::OracleNotSet => 6u32,
                Error::RandomnessAlreadyRequested => 7u32,
                Error::NoRandomnessRequest => 8u32,
                Error::FallbackTooEarly => 9u32,
                Error::PrizeNotDeposited => 11u32,
                Error::PrizeAlreadyClaimed => 12u32,
                Error::PrizeAlreadyDeposited => 13u32,
                Error::NotWinner => 14u32,
                Error::ClaimTooEarly => 15u32,
                Error::InvalidParameters => 21u32,
                Error::InvalidStatus => 22u32,
                Error::ContractPaused => 23u32,
                Error::InvalidStateTransition => 24u32,
                Error::RaffleExpired => 25u32,
                Error::InsufficientTickets => 31u32,
                Error::MultipleTicketsNotAllowed => 32u32,
                Error::NoTicketsSold => 33u32,
                Error::TicketNotFound => 34u32,
                Error::RaffleEnded => 35u32,
                Error::ArithmeticOverflow => 41u32,
                Error::AlreadyInitialized => 42u32,
                Error::NotInitialized => 43u32,
                Error::Reentrancy => 44u32,
                Error::TokenTransferFailed => 45u32,
                Error::AdminTransferPending => 51u32,
                Error::NoPendingTransfer => 52u32,
                Error::AlreadyCommitted => 61u32,
                Error::NotCommitted => 62u32,
                Error::CommitHashMismatch => 63u32,
                Error::AlreadyRevealed => 64u32,
                Error::CommitRevealNotReady => 65u32,
                Error::TicketAlreadyRefunded => 66u32,
                Error::RandomnessTooEarly => 67u32,
            },
    {
        match *self {
            Error::RaffleNotFound => 1,
            Error::RaffleInactive => 2,
            Error::TicketsSoldOut => 3,
            Error::InsufficientFunds => 4,
            Error::NotAuthorized => 5,
            Error::OracleNotSet => 6,
            Error::RandomnessAlreadyRequested => 7,
            Error::NoRandomnessRequest => 8,
            Error::FallbackTooEarly => 9,
            Error::PrizeNotDeposited => 11,
            Error::PrizeAlreadyClaimed => 12,
            Error::PrizeAlreadyDeposited => 13,
            Error::NotWinner => 14,
            Error::ClaimTooEarly => 15,
            Error::InvalidParameters => 21,
            Error::InvalidStatus => 22,
            Error::ContractPaused => 23,
            Error::InvalidStateTransition => 24,
            Error::RaffleExpired => 25,
            Error::InsufficientTickets => 31,
            Error::MultipleTicketsNotAllowed => 32,
            Error::NoTicketsSold => 33,
            Error::TicketNotFound => 34,
            Error::RaffleEnded => 35,
            Error::ArithmeticOverflow => 41,
            Error::AlreadyInitialized => 42,
            Error::NotInitialized => 43,
            Error::Reentrancy => 44,
            Error::TokenTransferFailed => 45,
            Error::AdminTransferPending => 51,
            Error::NoPendingTransfer => 52,
            Error::AlreadyCommitted => 61,
            Error::NotCommitted => 62,
            Error::CommitHashMismatch => 63,
            Error::AlreadyRevealed => 64,
            Error::CommitRevealNotReady => 65,
            Error::TicketAlreadyRefunded => 66,
            Error::RandomnessTooEarly => 67,
        }
    }
}

/// Splits `amount` into a protocol fee of `fee_bp` basis points (rounded
/// toward zero) and the remainder.
pub open spec fn spec_protocol_fee(amount: int, fee_bp: int) -> (int, int) {
    let fee = trunc_div(amount * fee_bp, 10_000);
    (fee, amount - fee)
}

/// Splits `amount` into the protocol fee at `fee_bp` basis points and the net
/// remainder. Fees above 100% and negative amounts are rejected.
pub fn calculate_protocol_fee(amount: i128, fee_bp: u32) -> (r: Result<(i128, i128), Error>)
    ensures
        fee_bp > 10_000 ==> r == Err::<(i128, i128), Error>(Error::InvalidParameters),
        fee_bp <= 10_000 && amount < 0 ==> r == Err::<(i128, i128), Error>(Error::InvalidParameters),
        fee_bp <= 10_000 && amount >= 0 && amount * fee_bp > i128::MAX ==> r == Err::<(i128, i128), Error>(Error::ArithmeticOverflow),
        fee_bp <= 10_000 && amount >= 0 && amount * fee_bp <= i128::MAX ==> ({
            let (fee, net) = spec_protocol_fee(amount as int, fee_bp as int);
            r == Ok::<(i128, i128), Error>((fee as i128, net as i128))
        }),
        r matches Ok((fee, net)) ==> 0 <= fee <= amount && fee + net == amount,
{
    if fee_bp > 10_000 {
        return Err(Error::InvalidParameters);
    }
    if amount < 0 {
        return Err(Error::InvalidParameters);
    }
    let product = match amount.checked_mul(fee_bp as i128) {
        Some(p) => p,
        None => return Err(Error::ArithmeticOverflow),
    };
    let fee = div_by_basis_points(product);
    assert(fee <= amount) by (nonlinear_arith)
        requires
            fee == product / 10_000,
            product == amount * fee_bp,
            fee_bp <= 10_000,
            amount >= 0,
    ;
    assert(0 <= fee) by (nonlinear_arith)
        requires
            fee == product / 10_000,
            product == amount * fee_bp,
            amount >= 0,
    ;
    let net = amount - fee;
    Ok((fee, net))
}

/// Whether the status diagram leads from `a` to `b`, over zero or more of
/// its edges: `PendingPrize` to `Active` (or `Cancelled`, for a raffle
/// cancelled before it was funded); `Active` to `Drawing`, `Cancelled` or
/// `Failed`; `Drawing` to `Finalized` or `Cancelled`; `Finalized` to
/// `Claimed` or `Cancelled`. `Cancelled`, `Failed` and `Claimed` are terminal.
pub open spec fn status_step(a: RaffleStatus, b: RaffleStatus) -> bool {
    ||| a == b
    ||| a == RaffleStatus::PendingPrize && (b == RaffleStatus::Active || b == RaffleStatus::Cancelled)
    ||| a == RaffleStatus::Active && b != RaffleStatus::PendingPrize
    ||| a == RaffleStatus::Drawing && (b == RaffleStatus::Finalized || b == RaffleStatus::Claimed
        || b == RaffleStatus::Cancelled)
    ||| a == RaffleStatus::Finalized && (b == RaffleStatus::Claimed || b == RaffleStatus::Cancelled)
}

/// Whether a call that leaves `post` from `pre` moved the raffle's status
/// only as the status diagram allows.
pub open spec fn status_moved(pre: Contract, post: Contract) -> bool {
    pre.raffle is Some && post.raffle is Some ==> status_step(pre.spec_raffle().status, post.spec_raffle().status)
}

/// The instance's storage.
pub struct Contract {
    /// This instance's own contract address.
    pub self_address: Address,
    pub raffle: Option<Raffle>,
    /// Tickets held by each address.
    pub ticket_counts: Table<Address, u32>,
    /// Tickets by id (1-based).
    pub tickets: Table<u32, Ticket>,
    /// Number of tickets issued; the id of the latest ticket.
    pub next_ticket_id: u32,
    pub factory: Option<Address>,
    pub admin: Option<Address>,
    pub pending_admin: Option<Address>,
    /// Tickets whose price was refunded.
    pub refund_status: Table<u32, bool>,
    pub reentrancy_guard: bool,
    /// Per-ticket approved operator.
    pub approved: Table<u32, Address>,
    /// (owner, operator) approvals over all of an owner's tickets.
    pub approved_for_all: Table<(Address, Address), bool>,
    pub paused: bool,
    /// Record of the draw, once there was one; `get_fairness_data` reports it.
    pub fairness_record: Option<FairnessMetadata>,
    pub randomness_requested: bool,
    pub randomness_request_ledger: Option<u32>,
    pub finish_time: Option<u64>,
    /// Commit-reveal: hash committed by each participant.
    pub commit_hashes: Table<Address, [u8; 32]>,
    pub commit_count: u32,
    /// Commit-reveal: secret revealed by each participant.
    pub revealed_secrets: Table<Address, Vec<u8>>,
    pub reveal_count: u32,
    pub accumulated_fees: i128,
}

/// What a ticket purchase asks the host to do.
pub struct Purchase {
    /// Tickets sold so far, including this purchase.
    pub tickets_sold: u32,
    /// Ids of the tickets issued by this purchase.
    pub ticket_ids: Vec<u32>,
    /// Price of the whole batch.
    pub total_price: i128,
    /// Protocol fee of the batch that goes to the treasury.
    pub protocol_fee: i128,
    /// The buyer's payment of that fee to the treasury, when there is one.
    pub fee_payment: Option<Transfer>,
    /// `record_volume(token, amount)` to call on the factory, when one is set.
    pub volume_report: Option<(Address, Address, i128)>,
    /// The buyer's payment to the instance: the batch price less the fee.
    pub payment: Transfer,
}

impl Contract {
    /// Tickets held by `owner` (zero when none).
    pub open spec fn spec_ticket_count(&self, owner: Address) -> u32 {
        if self.ticket_counts@.contains_key(owner) {
            self.ticket_counts@[owner]
        } else {
            0
        }
    }

    /// The raffle, which exists once `init` has run.
    pub open spec fn spec_raffle(&self) -> Raffle {
        self.raffle->0
    }

    /// Fresh, uninitialized instance storage at `self_address`.
    pub fn new(self_address: Address) -> (c: Self)
        ensures
            c.self_address == self_address,
            c.raffle is None,
            c.ticket_counts@ == Map::<Address, u32>::empty(),
            c.tickets@ == Map::<u32, Ticket>::empty(),
            c.next_ticket_id == 0,
            c.factory is None,
            c.admin is None,
            c.pending_admin is None,
            c.refund_status@ == Map::<u32, bool>::empty(),
            !c.reentrancy_guard,
            c.approved@ == Map::<u32, Address>::empty(),
            c.approved_for_all@ == Map::<(Address, Address), bool>::empty(),
            !c.paused,
            c.fairness_record is None,
            !c.randomness_requested,
            c.randomness_request_ledger is None,
            c.finish_time is None,
            c.commit_hashes@ == Map::<Address, [u8; 32]>::empty(),
            c.commit_count == 0,
            c.revealed_secrets@ == Map::<Address, Vec<u8>>::empty(),
            c.reveal_count == 0,
            c.accumulated_fees == 0,
    {
        Contract {
            self_address,
            raffle: None,
            ticket_counts: Table::new(),
            tickets: Table::new(),
            next_ticket_id: 0,
            factory: None,
            admin: None,
            pending_admin: None,
            refund_status: Table::new(),
            reentrancy_guard: false,
            approved: Table::new(),
            approved_for_all: Table::new(),
            paused: false,
            fairness_record: None,
            randomness_requested: false,
            randomness_request_ledger: None,
            finish_time: None,
            commit_hashes: Table::new(),
            commit_count: 0,
            revealed_secrets: Table::new(),
            reveal_count: 0,
            accumulated_fees: 0,
        }
    }

    /// Counts one more ticket issued and returns its id (ids start at 1).
    fn take_next_ticket_id(&mut self) -> (id: u32)
        requires
            old(self).next_ticket_id < u32::MAX,
        ensures
            id == old(self).next_ticket_id + 1,
            *final(self) == (Contract { next_ticket_id: id, ..*old(self) }),
    {
        let next = self.next_ticket_id + 1;
        self.next_ticket_id = next;
        next
    }

    fn read_ticket_count(&self, owner: &Address) -> (n: u32)
        ensures
            n == self.spec_ticket_count(*owner),
    {
        match self.ticket_counts.get(owner) {
            Some(n) => *n,
            None => 0,
        }
    }

    /// Creates the raffle: validates the configuration and records the
    /// factory, admin and creator. The raffle starts in `PendingPrize`, until
    /// the creator deposits the prize.
    pub fn init(
        &mut self,
        factory: Address,
        admin: Address,
        creator: Address,
        config: RaffleConfig,
        ledger: LedgerInfo,
    ) -> (r: Result<(), Error>)
        requires
            sum_u32(config.prizes@) <= u32::MAX,
        ensures
            ({
                let valid = {
                    &&& config.description@.len() <= MAX_DESCRIPTION_LENGTH
                    &&& !(config.end_time <= ledger.timestamp && config.end_time != 0)
                    &&& 0 < config.max_tickets <= MAX_TICKETS_LIMIT
                    &&& config.ticket_price >= MIN_TICKET_PRICE
                    &&& config.prize_amount >= config.ticket_price
                    &&& config.prizes@.len() > 0
                    &&& sum_u32(config.prizes@) == 10_000
                    &&& !(config.randomness_source == RandomnessSource::External && config.oracle_address is None)
                    &&& !all_zero(config.metadata_hash)
                };
                &&& old(self).raffle is Some ==> r == Err::<(), Error>(Error::AlreadyInitialized)
                &&& old(self).raffle is None && !valid ==> r == Err::<(), Error>(Error::InvalidParameters)
                &&& r is Ok <==> old(self).raffle is None && valid
            }),
            r is Err ==> *final(self) == *old(self),
            r is Ok ==> ({
                let raffle = final(self).spec_raffle();
                &&& final(self).raffle is Some
                &&& raffle == (Raffle {
                    creator,
                    description: raffle.description,
                    end_time: config.end_time,
                    max_tickets: config.max_tickets,
                    min_tickets: config.min_tickets,
                    allow_multiple: config.allow_multiple,
                    ticket_price: config.ticket_price,
                    payment_token: config.payment_token,
                    prize_amount: config.prize_amount,
                    prizes: raffle.prizes,
                    tickets_sold: 0,
                    status: RaffleStatus::PendingPrize,
                    prize_deposited: false,
                    winners: raffle.winners,
                    claimed_winners: raffle.claimed_winners,
                    randomness_source: config.randomness_source,
                    oracle_address: config.oracle_address,
                    protocol_fee_bp: config.protocol_fee_bp,
                    treasury_address: config.treasury_address,
                    swap_router: config.swap_router,
                    tikka_token: config.tikka_token,
                    finalized_at: None,
                    winner_ticket_id: None,
                })
                &&& raffle.description@ == config.description@
                &&& raffle.prizes@ == config.prizes@
                &&& raffle.winners@.len() == 0
                &&& raffle.claimed_winners@.len() == 0
                &&& *final(self) == (Contract {
                    raffle: final(self).raffle,
                    factory: Some(factory),
                    admin: Some(admin),
                    ..*old(self)
                })
            }),
    {
        if self.raffle.is_some() {
            return Err(Error::AlreadyInitialized);
        }
        if config.description.len() > MAX_DESCRIPTION_LENGTH as usize {
            return Err(Error::InvalidParameters);
        }
        let now = ledger.timestamp;
        if config.end_time <= now && config.end_time != 0 {
            return Err(Error::InvalidParameters);
        }
        if config.max_tickets == 0 || config.max_tickets > MAX_TICKETS_LIMIT {
            return Err(Error::InvalidParameters);
        }
        if config.ticket_price < MIN_TICKET_PRICE {
            return Err(Error::InvalidParameters);
        }
        if config.prize_amount < config.ticket_price {
            return Err(Error::InvalidParameters);
        }
        if config.prizes.len() == 0 {
            return Err(Error::InvalidParameters);
        }
        let total_prizes_bp = sum_prizes(&config.prizes);
        if total_prizes_bp != 10000 {
            return Err(Error::InvalidParameters);
        }
        match (config.randomness_source, config.oracle_address) {
            (RandomnessSource::External, None) => {
                return Err(Error::InvalidParameters);
            },
            _ => {},
        }
        if is_all_zero(&config.metadata_hash) {
            return Err(Error::InvalidParameters);
        }
        let raffle = Raffle {
            creator,
            description: config.description,
            end_time: config.end_time,
            max_tickets: config.max_tickets,
            min_tickets: config.min_tickets,
            allow_multiple: config.allow_multiple,
            ticket_price: config.ticket_price,
            payment_token: config.payment_token,
            prize_amount: config.prize_amount,
            prizes: config.prizes,
            tickets_sold: 0,
            status: RaffleStatus::PendingPrize,
            prize_deposited: false,
            winners: Vec::new(),
            claimed_winners: Vec::new(),
            randomness_source: config.randomness_source,
            oracle_address: config.oracle_address,
            protocol_fee_bp: config.protocol_fee_bp,
            treasury_address: config.treasury_address,
            swap_router: config.swap_router,
            tikka_token: config.tikka_token,
            finalized_at: None,
            winner_ticket_id: None,
        };
        self.raffle = Some(raffle);
        self.factory = Some(factory);
        self.admin = Some(admin);
        Ok(())
    }
}

/// The protocol fee of a batch of `quantity` tickets: `quantity` times the
/// fee on one ticket ([`ticket_fee`]), when the raffle has a treasury to
/// receive it; zero otherwise.
pub open spec fn batch_fee(raffle: Raffle, quantity: u32) -> int {
    if raffle.treasury_address is Some {
        ticket_fee(raffle.ticket_price as int, raffle.protocol_fee_bp) * quantity
    } else {
        0
    }
}

/// The protocol fee on one ticket of `price`: `price * fee_bp / 10 000`,
/// rounded down, and never more than the price itself (a fee of 100% or
/// more takes the whole price).
pub open spec fn ticket_fee(price: int, fee_bp: u32) -> int {
    if fee_bp >= 10_000 {
        price
    } else {
        price * fee_bp / 10_000
    }
}

/// The fee on one ticket, computed without overflow.
fn compute_ticket_fee(price: i128, fee_bp: u32) -> (f: i128)
    requires
        price >= 0,
    ensures
        f == ticket_fee(price as int, fee_bp),
        0 <= f <= price,
{
    if fee_bp >= 10_000 {
        return price;
    }
    let whole = price / 10_000;
    let rest = price % 10_000;
    let bp = fee_bp as i128;
    assert(0 <= whole * bp <= price) by (nonlinear_arith)
        requires
            whole == price / 10_000,
            price >= 0,
            0 <= bp < 10_000;
    assert(0 <= rest * bp < 100_000_000) by (nonlinear_arith)
        requires
            0 <= rest < 10_000,
            0 <= bp < 10_000;
    let part = rest * bp / 10_000;
    assert(whole * bp + part == price * bp / 10_000) by (nonlinear_arith)
        requires
            whole == price / 10_000,
            rest == price % 10_000,
            part == rest * bp / 10_000,
            price >= 0,
            0 <= bp < 10_000,
            0 <= rest * bp;
    assert(whole * bp + part <= price) by (nonlinear_arith)
        requires
            whole * bp + part == price * bp / 10_000,
            price >= 0,
            0 <= bp < 10_000;
    whole * bp + part
}

/// The announcement that a tier's winner was drawn.
#[derive(Clone, Copy, PartialEq, Eq, Structural, Debug)]
pub struct WinnerDrawn {
    pub winner: Address,
    /// Id of the winning ticket (1-based).
    pub ticket_id: u32,
    pub tier_index: u32,
    pub timestamp: u64,
}

/// The `WinnerDrawn` events of a draw of `winners` at `indices`: tier `i`
/// goes to `winners[i]`, whose ticket is `indices[i] + 1`.
pub open spec fn winner_events(winners: Seq<Address>, indices: Seq<u32>, timestamp: u64) -> Seq<WinnerDrawn> {
    let n = if winners.len() < indices.len() { winners.len() } else { indices.len() };
    Seq::new(n, |i: int| WinnerDrawn {
        winner: winners[i],
        ticket_id: if indices[i] < u32::MAX { (indices[i] + 1) as u32 } else { 0 },
        tier_index: i as u32,
        timestamp,
    })
}

/// Tickets issued by a purchase of `quantity` tickets when `next` tickets had
/// been issued and `sold` sold: ids `next + 1 ..= next + quantity`, numbered on
/// from `sold`.
pub open spec fn issued_tickets(next: u32, sold: u32, buyer: Address, now: u64, quantity: int) -> Map<u32, Ticket> {
    Map::new(
        |id: u32| next < id && id <= next + quantity,
        |id: u32| Ticket { id, owner: buyer, purchase_time: now, ticket_number: (sold + (id - next)) as u32 },
    )
}

impl Contract {
    /// The first check that a prize deposit fails, if any.
    pub open spec fn deposit_error(&self) -> Option<Error> {
        if self.raffle is None {
            Some(Error::NotInitialized)
        } else if self.spec_raffle().prize_deposited {
            Some(Error::PrizeAlreadyDeposited)
        } else if self.spec_raffle().status != RaffleStatus::PendingPrize {
            Some(Error::InvalidStatus)
        } else {
            None
        }
    }

    /// The creator funds the prize of a `PendingPrize` raffle, which becomes
    /// `Active`; a cancelled or failed raffle cannot be funded again.
    /// Returns the creator's payment of the prize amount to the instance.
    pub fn deposit_prize(&mut self) -> (r: Result<Transfer, Error>)
        ensures
            status_moved(*old(self), *final(self)),
            r is Ok ==> final(self).deposit_error() == Some(Error::PrizeAlreadyDeposited),
            r is Err <==> old(self).deposit_error() is Some,
            r is Err ==> r == Err::<Transfer, Error>(old(self).deposit_error()->0) && *final(self) == *old(self),
            r is Ok ==> ({
                let old_raffle = old(self).spec_raffle();
                &&& r == Ok::<Transfer, Error>(Transfer {
                    token: old_raffle.payment_token,
                    from: old_raffle.creator,
                    to: old(self).self_address,
                    amount: old_raffle.prize_amount,
                })
                &&& final(self).raffle == Some(Raffle { status: RaffleStatus::Active, prize_deposited: true, ..old_raffle })
                &&& *final(self) == (Contract { raffle: final(self).raffle, ..*old(self) })
            }),
    {
        let transfer = match &self.raffle {
            None => return Err(Error::NotInitialized),
            Some(raffle) => {
                if raffle.prize_deposited {
                    return Err(Error::PrizeAlreadyDeposited);
                }
                if raffle.status != RaffleStatus::PendingPrize {
                    return Err(Error::InvalidStatus);
                }
                Transfer {
                    token: raffle.payment_token,
                    from: raffle.creator,
                    to: self.self_address,
                    amount: raffle.prize_amount,
                }
            },
        };
        let mut raffle = self.raffle.take().unwrap();
        raffle.status = RaffleStatus::Active;
        raffle.prize_deposited = true;
        self.raffle = Some(raffle);
        Ok(transfer)
    }

    /// The first check that a purchase of `quantity` tickets by `buyer` fails, if any.
    pub open spec fn buy_error(&self, buyer: Address, quantity: u32, now: u64) -> Option<Error> {
        let raffle = self.spec_raffle();
        if self.reentrancy_guard {
            Some(Error::Reentrancy)
        } else if self.raffle is None {
            Some(Error::NotInitialized)
        } else if self.paused {
            Some(Error::ContractPaused)
        } else if raffle.status != RaffleStatus::Active {
            Some(Error::RaffleInactive)
        } else if !raffle.prize_deposited {
            Some(Error::InvalidStateTransition)
        } else if raffle.end_time != 0 && now > raffle.end_time {
            Some(Error::RaffleExpired)
        } else if raffle.ticket_price < MIN_TICKET_PRICE {
            Some(Error::InvalidParameters)
        } else if raffle.tickets_sold + quantity > raffle.max_tickets {
            Some(Error::TicketsSoldOut)
        } else if !raffle.allow_multiple && (self.spec_ticket_count(buyer) > 0 || quantity > 1) {
            Some(Error::MultipleTicketsNotAllowed)
        } else if raffle.ticket_price * quantity > i128::MAX {
            Some(Error::InvalidParameters)
        } else {
            None
        }
    }

    /// `buyer` buys `quantity` tickets in one batch. Tickets get the next ids;
    /// selling the last ticket moves the raffle to `Drawing`. Returns the
    /// issued ids, the batch price, the protocol fee with the buyer's payment
    /// of it to the treasury, the volume report for the factory and the
    /// buyer's payment of the rest to the instance.
    pub fn buy_tickets(&mut self, buyer: Address, quantity: u32, ledger: LedgerInfo) -> (r: Result<Purchase, Error>)
        requires
            old(self).raffle is Some ==> old(self).spec_raffle().tickets_sold + quantity <= u32::MAX,
            old(self).raffle is Some ==> old(self).next_ticket_id + quantity <= u32::MAX,
            old(self).raffle is Some ==> old(self).spec_ticket_count(buyer) + quantity <= u32::MAX,
        ensures
            status_moved(*old(self), *final(self)),
            r is Ok ==> final(self).spec_raffle().tickets_sold <= final(self).spec_raffle().max_tickets,
            r is Err <==> old(self).buy_error(buyer, quantity, ledger.timestamp) is Some,
            r is Err ==> r == Err::<Purchase, Error>(old(self).buy_error(buyer, quantity, ledger.timestamp)->0)
                && *final(self) == *old(self),
            r matches Ok(p) ==> ({
                let old_raffle = old(self).spec_raffle();
                let sold = (old_raffle.tickets_sold + quantity) as u32;
                let total = (old_raffle.ticket_price * quantity) as i128;
                let fee = batch_fee(old_raffle, quantity);
                &&& p.tickets_sold == sold
                &&& p.total_price == total
                &&& p.protocol_fee == fee
                &&& p.fee_payment == if fee > 0 {
                    Some(Transfer { token: old_raffle.payment_token, from: buyer, to: old_raffle.treasury_address->0, amount: fee as i128 })
                } else {
                    None::<Transfer>
                }
                &&& p.ticket_ids@ == Seq::new(quantity as nat, |j: int| (old(self).next_ticket_id + 1 + j) as u32)
                &&& p.payment == (Transfer { token: old_raffle.payment_token, from: buyer, to: old(self).self_address, amount: (total - fee) as i128 })
                &&& p.volume_report == match old(self).factory {
                    Some(f) => Some((f, old_raffle.payment_token, total)),
                    None => None,
                }
                &&& final(self).tickets@ == old(self).tickets@.union_prefer_right(
                    issued_tickets(old(self).next_ticket_id, old_raffle.tickets_sold, buyer, ledger.timestamp, quantity as int))
                &&& final(self).ticket_counts@ == old(self).ticket_counts@.insert(buyer, (old(self).spec_ticket_count(buyer) + quantity) as u32)
                &&& final(self).raffle == Some(Raffle {
                    tickets_sold: sold,
                    status: if sold >= old_raffle.max_tickets { RaffleStatus::Drawing } else { old_raffle.status },
                    ..old_raffle
                })
                &&& *final(self) == (Contract {
                    raffle: final(self).raffle,
                    tickets: final(self).tickets,
                    ticket_counts: final(self).ticket_counts,
                    next_ticket_id: (old(self).next_ticket_id + quantity) as u32,
                    ..*old(self)
                })
            }),
    {
        if self.reentrancy_guard {
            return Err(Error::Reentrancy);
        }
        let current_count = self.read_ticket_count(&buyer);
        let (token, price, sold0, fee_bp, treasury) = match &self.raffle {
            None => return Err(Error::NotInitialized),
            Some(raffle) => {
                if self.paused {
                    return Err(Error::ContractPaused);
                }
                if raffle.status != RaffleStatus::Active {
                    return Err(Error::RaffleInactive);
                }
                if !raffle.prize_deposited {
                    return Err(Error::InvalidStateTransition);
                }
                if raffle.end_time != 0 && ledger.timestamp > raffle.end_time {
                    return Err(Error::RaffleExpired);
                }
                if raffle.ticket_price < MIN_TICKET_PRICE {
                    return Err(Error::InvalidParameters);
                }
                if raffle.tickets_sold + quantity > raffle.max_tickets {
                    return Err(Error::TicketsSoldOut);
                }
                if !raffle.allow_multiple && (current_count > 0 || quantity > 1) {
                    return Err(Error::MultipleTicketsNotAllowed);
                }
                (raffle.payment_token, raffle.ticket_price, raffle.tickets_sold, raffle.protocol_fee_bp, raffle.treasury_address)
            },
        };
        let total_price = match price.checked_mul(quantity as i128) {
            Some(t) => t,
            None => return Err(Error::InvalidParameters),
        };
        let ticket_fee = compute_ticket_fee(price, fee_bp);
        let protocol_fee: i128 = match treasury {
            Some(_) => {
                assert(ticket_fee * quantity <= price * quantity) by (nonlinear_arith)
                    requires
                        0 <= ticket_fee <= price;
                assert(0 <= ticket_fee * quantity) by (nonlinear_arith)
                    requires
                        0 <= ticket_fee;
                ticket_fee * quantity as i128
            },
            None => 0,
        };
        let mut raffle = self.raffle.take().unwrap();
        let ghost raffle0 = raffle;
        let ghost pre = *self;
        let ghost old_tickets = self.tickets@;
        let ghost next0 = self.next_ticket_id;
        let mut ticket_ids: Vec<u32> = Vec::new();
        let mut k: u32 = 0;
        while k < quantity
            invariant
                k <= quantity,
                next0 + quantity <= u32::MAX,
                sold0 + quantity <= u32::MAX,
                self.next_ticket_id == next0 + k,
                raffle.tickets_sold == sold0 + k,
                raffle == (Raffle { tickets_sold: raffle.tickets_sold, ..raffle0 }),
                *self == (Contract { tickets: self.tickets, next_ticket_id: self.next_ticket_id, ..pre }),
                self.tickets@ == old_tickets.union_prefer_right(issued_tickets(next0, sold0, buyer, ledger.timestamp, k as int)),
                ticket_ids@ == Seq::new(k as nat, |j: int| (next0 + 1 + j) as u32),
            decreases quantity - k,
        {
            let ticket_id = self.take_next_ticket_id();
            raffle.tickets_sold = raffle.tickets_sold + 1;
            let ticket = Ticket {
                id: ticket_id,
                owner: buyer,
                purchase_time: ledger.timestamp,
                ticket_number: raffle.tickets_sold,
            };
            self.tickets.insert(ticket_id, ticket);
            ticket_ids.push(ticket_id);
            k = k + 1;
            assert(self.tickets@ =~= old_tickets.union_prefer_right(issued_tickets(next0, sold0, buyer, ledger.timestamp, k as int)));
            assert(ticket_ids@ =~= Seq::new(k as nat, |j: int| (next0 + 1 + j) as u32));
        }
        if raffle.tickets_sold >= raffle.max_tickets {
            raffle.status = RaffleStatus::Drawing;
        }
        self.ticket_counts.insert(buyer, current_count + quantity);
        let tickets_sold = raffle.tickets_sold;
        self.raffle = Some(raffle);
        let volume_report = match self.factory {
            Some(f) => Some((f, token, total_price)),
            None => None,
        };
        let fee_payment = match treasury {
            Some(t) => if protocol_fee > 0 {
                Some(Transfer { token, from: buyer, to: t, amount: protocol_fee })
            } else {
                None
            },
            None => None,
        };
        Ok(Purchase {
            tickets_sold,
            ticket_ids,
            total_price,
            protocol_fee,
            fee_payment,
            volume_report,
            payment: Transfer { token, from: buyer, to: self.self_address, amount: total_price - protocol_fee },
        })
    }
}

/// The message that the oracle signs for a seed: the seed's eight bytes,
/// big-endian.
pub fn randomness_proof_message(seed: u64) -> (m: Vec<u8>)
    ensures
        m@ == be_u64(seed),
{
    let mut m: Vec<u8> = Vec::new();
    push_be_u64(&mut m, seed);
    m
}

/// The seed of an internal draw: the first eight bytes, big-endian, of the
/// SHA-256 of the XDR of `(ledger timestamp, ledger sequence, contract)`.
pub open spec fn internal_seed(ledger: LedgerInfo, contract: Address) -> u64 {
    be_prefix_u64(sha256_digest(ledger_tuple_xdr(ledger.timestamp, ledger.sequence, contract))) as u64
}

/// The seed of an internal draw by `contract` in the ledger `ledger`.
pub fn build_internal_seed_u64(env: &Env, ledger: LedgerInfo, contract: Address) -> (seed: u64)
    ensures
        seed == internal_seed(ledger, contract),
{
    let xdr = encode_ledger_tuple(ledger.timestamp, ledger.sequence, &contract);
    let hash = sha256(env, &xdr);
    be_prefix_u64_of(&hash)
}

/// Owners of the tickets at the drawn indices (index `i` designates ticket `i + 1`).
pub open spec fn drawn_winners(tickets: Map<u32, Ticket>, indices: Seq<u32>) -> Seq<Address> {
    Seq::new(indices.len(), |i: int| tickets[(indices[i] + 1) as u32].owner)
}

/// Whether every drawn index designates an existing ticket.
pub open spec fn drawn_tickets_exist(tickets: Map<u32, Ticket>, indices: Seq<u32>) -> bool {
    forall|i: int| 0 <= i < indices.len() ==> #[trigger] tickets.contains_key((indices[i] + 1) as u32)
}

/// Whether every drawn index has a ticket id above it.
pub open spec fn indices_in_range(indices: Seq<u32>) -> bool {
    forall|i: int| 0 <= i < indices.len() ==> #[trigger] indices[i] < u32::MAX
}

/// How `post` follows from `pre` when a draw concludes with `winners` drawn at
/// `indices` from `seed`: the raffle is finalized with those winners and no
/// tier claimed, the draw is recorded (with the first winning ticket noted
/// on the raffle when `note_winner_ticket`), and the finish time is set if it
/// was not.
pub open spec fn concluded(
    pre: Contract,
    post: Contract,
    seed: u64,
    source: RandomnessSource,
    indices: Seq<u32>,
    ledger: LedgerInfo,
    note_winner_ticket: bool,
) -> bool {
    let r0 = pre.spec_raffle();
    let r1 = post.spec_raffle();
    let record = post.fairness_record;
    &&& post.raffle is Some
    &&& r1 == (Raffle {
        status: RaffleStatus::Finalized,
        winners: r1.winners,
        claimed_winners: r1.claimed_winners,
        finalized_at: Some(ledger.timestamp),
        winner_ticket_id: if note_winner_ticket && indices.len() > 0 { Some((indices[0] + 1) as u32) } else { r0.winner_ticket_id },
        ..r0
    })
    &&& r1.winners@ == drawn_winners(pre.tickets@, indices)
    &&& r1.claimed_winners@ == Seq::new(r0.prizes@.len(), |i: int| false)
    &&& record is Some
    &&& record->0 == (FairnessMetadata {
        seed,
        randomness_source: source,
        winning_ticket_indices: record->0.winning_ticket_indices,
        draw_timestamp: ledger.timestamp,
        draw_sequence: ledger.sequence,
    })
    &&& record->0.winning_ticket_indices@ == indices
    &&& post.finish_time == if pre.finish_time is Some { pre.finish_time } else { Some(ledger.timestamp) }
    &&& post == (Contract {
        raffle: post.raffle,
        fairness_record: post.fairness_record,
        finish_time: post.finish_time,
        ..pre
    })
}

/// A copy of a list of indices.
fn copy_indices(v: &Vec<u32>) -> (r: Vec<u32>)
    ensures
        r@ == v@,
{
    let mut r: Vec<u32> = Vec::new();
    let mut i: usize = 0;
    while i < v.len()
        invariant
            i <= v@.len(),
            r@ == v@.take(i as int),
        decreases v@.len() - i,
    {
        r.push(v[i]);
        i = i + 1;
        assert(r@ =~= v@.take(i as int));
    }
    assert(v@.take(v@.len() as int) =~= v@);
    r
}

/// `n` unclaimed flags.
fn unclaimed_flags(n: usize) -> (r: Vec<bool>)
    ensures
        r@ == Seq::new(n as nat, |i: int| false),
{
    let mut r: Vec<bool> = Vec::new();
    let mut i: usize = 0;
    while i < n
        invariant
            i <= n,
            r@ == Seq::new(i as nat, |j: int| false),
        decreases n - i,
    {
        r.push(false);
        i = i + 1;
        assert(r@ =~= Seq::new(i as nat, |j: int| false));
    }
    r
}

/// How a call to `finalize_raffle` ended.
#[derive(Clone, Copy, PartialEq, Eq, Structural, Debug)]
pub enum Finalization {
    /// Too few tickets were sold: the raffle failed.
    Failed,
    /// An oracle request was recorded; `oracle` is expected to answer.
    RandomnessRequested { oracle: Address },
    /// Winners were drawn.
    Drawn,
}

impl Contract {
    /// Owners of the tickets at the drawn indices; `TicketNotFound` when one is missing.
    fn collect_winners(&self, indices: &Vec<u32>) -> (r: Result<Vec<Address>, Error>)
        requires
            indices_in_range(indices@),
        ensures
            r is Ok <==> drawn_tickets_exist(self.tickets@, indices@),
            r matches Ok(w) ==> w@ == drawn_winners(self.tickets@, indices@),
            r is Err ==> r == Err::<Vec<Address>, Error>(Error::TicketNotFound),
    {
        let mut winners: Vec<Address> = Vec::new();
        let mut i: usize = 0;
        while i < indices.len()
            invariant
                i <= indices@.len(),
                indices_in_range(indices@),
                drawn_tickets_exist(self.tickets@, indices@.take(i as int)),
                winners@ == drawn_winners(self.tickets@, indices@.take(i as int)),
            decreases indices@.len() - i,
        {
            let ticket_id = indices[i] + 1;
            let owner = match self.tickets.get(&ticket_id) {
                Some(t) => t.owner,
                None => {
                    assert(!drawn_tickets_exist(self.tickets@, indices@)) by {
                        assert(!self.tickets@.contains_key((indices@[i as int] + 1) as u32));
                    }
                    return Err(Error::TicketNotFound);
                },
            };
            winners.push(owner);
            i = i + 1;
            assert(drawn_tickets_exist(self.tickets@, indices@.take(i as int))) by {
                assert forall|j: int| 0 <= j < i implies #[trigger] self.tickets@.contains_key((indices@.take(i as int)[j] + 1) as u32) by {
                    if j < i - 1 {
                        assert(indices@.take(i as int)[j] == indices@.take(i - 1)[j]);
                    }
                }
            }
            assert(winners@ =~= drawn_winners(self.tickets@, indices@.take(i as int)));
        }
        assert(indices@.take(indices@.len() as int) =~= indices@);
        Ok(winners)
    }

    /// Concludes a draw whose winners were collected: see [`concluded`].
    fn conclude_draw(
        &mut self,
        seed: u64,
        source: RandomnessSource,
        indices: &Vec<u32>,
        winners: Vec<Address>,
        ledger: LedgerInfo,
        note_winner_ticket: bool,
    )
        requires
            old(self).raffle is Some,
            indices_in_range(indices@),
            winners@ == drawn_winners(old(self).tickets@, indices@),
        ensures
            concluded(*old(self), *final(self), seed, source, indices@, ledger, note_winner_ticket),
    {
        let mut raffle = self.raffle.take().unwrap();
        let record = FairnessMetadata {
            seed,
            randomness_source: source,
            winning_ticket_indices: copy_indices(indices),
            draw_timestamp: ledger.timestamp,
            draw_sequence: ledger.sequence,
        };
        raffle.claimed_winners = unclaimed_flags(raffle.prizes.len());
        raffle.winners = winners;
        raffle.status = RaffleStatus::Finalized;
        raffle.finalized_at = Some(ledger.timestamp);
        if note_winner_ticket && indices.len() > 0 {
            raffle.winner_ticket_id = Some(indices[0] + 1);
        }
        self.fairness_record = Some(record);
        self.raffle = Some(raffle);
        if self.finish_time.is_none() {
            self.finish_time = Some(ledger.timestamp);
        }
    }

    /// The first check that `finalize_raffle` fails before it branches, if any.
    pub open spec fn finalize_error(&self, now: u64) -> Option<Error> {
        let raffle = self.spec_raffle();
        if self.raffle is None {
            Some(Error::NotInitialized)
        } else if raffle.status != RaffleStatus::Active {
            Some(Error::InvalidStatus)
        } else if !(raffle.end_time != 0 && now >= raffle.end_time) && !(raffle.tickets_sold >= raffle.max_tickets) {
            Some(Error::InvalidStateTransition)
        } else {
            None
        }
    }

    /// Ends ticket sales once the end time has passed or every ticket is sold.
    ///
    /// Without any ticket sold, or below the minimum ticket count, the raffle
    /// fails. With an external source the raffle moves to `Drawing` and an
    /// oracle request is recorded. Otherwise winners are drawn at
    /// once from the internal seed (see [`internal_seed`]): `winning_indices`
    /// are the indices that the winner-selection strategy drew from it.
    pub fn finalize_raffle(&mut self, env: &Env, ledger: LedgerInfo, winning_indices: &Vec<u32>) -> (r: Result<Finalization, Error>)
        requires
            indices_in_range(winning_indices@),
        ensures
            status_moved(*old(self), *final(self)),
            old(self).finalize_error(ledger.timestamp) is Some ==> r == Err::<Finalization, Error>(old(self).finalize_error(ledger.timestamp)->0),
            r is Err ==> *final(self) == *old(self),
            old(self).finalize_error(ledger.timestamp) is None ==> ({
                let raffle = old(self).spec_raffle();
                if raffle.tickets_sold < raffle.min_tickets || raffle.tickets_sold == 0 {
                    &&& r == Ok::<Finalization, Error>(Finalization::Failed)
                    &&& final(self).raffle == Some(Raffle { status: RaffleStatus::Failed, ..raffle })
                    &&& *final(self) == (Contract { raffle: final(self).raffle, ..*old(self) })
                } else if raffle.randomness_source == RandomnessSource::External {
                    if old(self).randomness_requested {
                        r == Err::<Finalization, Error>(Error::RandomnessAlreadyRequested)
                    } else {
                        &&& r == Ok::<Finalization, Error>(Finalization::RandomnessRequested {
                            oracle: match raffle.oracle_address { Some(o) => o, None => old(self).self_address },
                        })
                        &&& *final(self) == (Contract {
                            raffle: Some(Raffle { status: RaffleStatus::Drawing, ..raffle }),
                            randomness_requested: true,
                            randomness_request_ledger: Some(ledger.sequence),
                            ..*old(self)
                        })
                    }
                } else if old(self).next_ticket_id == 0 {
                    r == Err::<Finalization, Error>(Error::NoTicketsSold)
                } else if !drawn_tickets_exist(old(self).tickets@, winning_indices@) {
                    r == Err::<Finalization, Error>(Error::TicketNotFound)
                } else {
                    &&& r == Ok::<Finalization, Error>(Finalization::Drawn)
                    &&& concluded(*old(self), *final(self), internal_seed(ledger, old(self).self_address),
                        raffle.randomness_source, winning_indices@, ledger, false)
                }
            }),
    {
        let (failed, source, oracle) = match &self.raffle {
            None => return Err(Error::NotInitialized),
            Some(raffle) => {
                if raffle.status != RaffleStatus::Active {
                    return Err(Error::InvalidStatus);
                }
                let time_ended = raffle.end_time != 0 && ledger.timestamp >= raffle.end_time;
                let tickets_full = raffle.tickets_sold >= raffle.max_tickets;
                if !time_ended && !tickets_full {
                    return Err(Error::InvalidStateTransition);
                }
                (raffle.tickets_sold < raffle.min_tickets || raffle.tickets_sold == 0, raffle.randomness_source,
                    raffle.oracle_address)
            },
        };
        if failed {
            let mut raffle = self.raffle.take().unwrap();
            raffle.status = RaffleStatus::Failed;
            self.raffle = Some(raffle);
            return Ok(Finalization::Failed);
        }
        if source == RandomnessSource::External {
            if self.randomness_requested {
                return Err(Error::RandomnessAlreadyRequested);
            }
            let mut raffle = self.raffle.take().unwrap();
            raffle.status = RaffleStatus::Drawing;
            self.raffle = Some(raffle);
            self.randomness_requested = true;
            self.randomness_request_ledger = Some(ledger.sequence);
            let oracle = match oracle {
                Some(o) => o,
                None => self.self_address,
            };
            return Ok(Finalization::RandomnessRequested { oracle });
        }
        if self.next_ticket_id == 0 {
            return Err(Error::NoTicketsSold);
        }
        let seed = build_internal_seed_u64(env, ledger, self.self_address);
        let winners = self.collect_winners(winning_indices)?;
        self.conclude_draw(seed, source, winning_indices, winners, ledger, false);
        Ok(Finalization::Drawn)
    }

    /// The first check that `request_winner_selection` fails, if any.
    pub open spec fn request_error(&self, now: u64) -> Option<Error> {
        let raffle = self.spec_raffle();
        if self.raffle is None {
            Some(Error::NotInitialized)
        } else if raffle.randomness_source != RandomnessSource::External {
            Some(Error::InvalidParameters)
        } else if raffle.status == RaffleStatus::Active && !(raffle.end_time != 0 && now >= raffle.end_time)
            && !(raffle.tickets_sold >= raffle.max_tickets) {
            Some(Error::InvalidStateTransition)
        } else if raffle.status != RaffleStatus::Active && raffle.status != RaffleStatus::Drawing {
            Some(Error::InvalidStateTransition)
        } else if raffle.tickets_sold == 0 {
            Some(Error::NoTicketsSold)
        } else if raffle.oracle_address is None {
            Some(Error::OracleNotSet)
        } else if self.randomness_requested {
            Some(Error::RandomnessAlreadyRequested)
        } else {
            None
        }
    }

    /// Asks the configured oracle for randomness: an ended `Active` raffle
    /// moves to `Drawing`, and the request is recorded so that only the
    /// oracle's answer can finalize. Returns the oracle.
    pub fn request_winner_selection(&mut self, ledger: LedgerInfo) -> (r: Result<Address, Error>)
        ensures
            status_moved(*old(self), *final(self)),
            r is Err <==> old(self).request_error(ledger.timestamp) is Some,
            r is Err ==> r == Err::<Address, Error>(old(self).request_error(ledger.timestamp)->0)
                && *final(self) == *old(self),
            r is Ok ==> ({
                let raffle = old(self).spec_raffle();
                &&& r == Ok::<Address, Error>(raffle.oracle_address->0)
                &&& *final(self) == (Contract {
                    raffle: Some(Raffle { status: RaffleStatus::Drawing, ..raffle }),
                    randomness_requested: true,
                    randomness_request_ledger: Some(ledger.sequence),
                    ..*old(self)
                })
            }),
    {
        let oracle = match &self.raffle {
            None => return Err(Error::NotInitialized),
            Some(raffle) => {
                if raffle.randomness_source != RandomnessSource::External {
                    return Err(Error::InvalidParameters);
                }
                if raffle.status == RaffleStatus::Active {
                    let time_ended = raffle.end_time != 0 && ledger.timestamp >= raffle.end_time;
                    let tickets_full = raffle.tickets_sold >= raffle.max_tickets;
                    if !time_ended && !tickets_full {
                        return Err(Error::InvalidStateTransition);
                    }
                } else if raffle.status != RaffleStatus::Drawing {
                    return Err(Error::InvalidStateTransition);
                }
                if raffle.tickets_sold == 0 {
                    return Err(Error::NoTicketsSold);
                }
                match raffle.oracle_address {
                    Some(o) => o,
                    None => return Err(Error::OracleNotSet),
                }
            },
        };
        if self.randomness_requested {
            return Err(Error::RandomnessAlreadyRequested);
        }
        let mut raffle = self.raffle.take().unwrap();
        raffle.status = RaffleStatus::Drawing;
        self.raffle = Some(raffle);
        self.randomness_requested = true;
        self.randomness_request_ledger = Some(ledger.sequence);
        Ok(oracle)
    }

    /// The first check that an oracle answer fails before its proof is
    /// examined, if any.
    pub open spec fn answer_error(&self) -> Option<Error> {
        let raffle = self.spec_raffle();
        if self.raffle is None {
            Some(Error::NotInitialized)
        } else if raffle.oracle_address is None {
            Some(Error::OracleNotSet)
        } else if raffle.status != RaffleStatus::Drawing {
            Some(Error::InvalidStateTransition)
        } else if raffle.randomness_source != RandomnessSource::External {
            Some(Error::InvalidStateTransition)
        } else if !self.randomness_requested {
            Some(Error::NoRandomnessRequest)
        } else {
            None
        }
    }

    /// The checks of an oracle answer that come before its proof: the oracle
    /// expected to answer, or the first of those checks that fails. The host
    /// verifies the proof only after these pass.
    pub fn expected_oracle(&self) -> (r: Result<Address, Error>)
        ensures
            match self.answer_error() {
                Some(e) => r == Err::<Address, Error>(e),
                None => r == Ok::<Address, Error>(self.spec_raffle().oracle_address->0),
            },
    {
        match &self.raffle {
            None => Err(Error::NotInitialized),
            Some(raffle) => {
                let oracle = match raffle.oracle_address {
                    Some(o) => o,
                    None => return Err(Error::OracleNotSet),
                };
                if raffle.status != RaffleStatus::Drawing {
                    return Err(Error::InvalidStateTransition);
                }
                if raffle.randomness_source != RandomnessSource::External {
                    return Err(Error::InvalidStateTransition);
                }
                if !self.randomness_requested {
                    return Err(Error::NoRandomnessRequest);
                }
                Ok(oracle)
            },
        }
    }

    /// The first check that an oracle answer fails, if any.
    pub open spec fn provide_error(&self, indices: Seq<u32>, sequence: u32) -> Option<Error> {
        if self.answer_error() is Some {
            self.answer_error()
        } else if self.randomness_request_ledger matches Some(q)
            && sequence < q + RANDOMNESS_MIN_DELAY_LEDGERS {
            Some(Error::RandomnessTooEarly)
        } else if self.next_ticket_id == 0 {
            Some(Error::NoTicketsSold)
        } else if !drawn_tickets_exist(self.tickets@, indices) {
            Some(Error::TicketNotFound)
        } else {
            None
        }
    }

    /// The oracle's answer to a pending request, accepted from
    /// `RANDOMNESS_MIN_DELAY_LEDGERS` ledgers after the request on: clears the request and
    /// draws the winners at `winning_indices`, the indices that the
    /// winner-selection strategy drew from `random_seed`. The host has
    /// checked the oracle's signature over the seed. Returns the oracle.
    pub fn provide_randomness(&mut self, random_seed: u64, winning_indices: &Vec<u32>, ledger: LedgerInfo) -> (r: Result<Address, Error>)
        requires
            indices_in_range(winning_indices@),
        ensures
            status_moved(*old(self), *final(self)),
            old(self).randomness_request_ledger matches Some(q) && ledger.sequence < q + RANDOMNESS_MIN_DELAY_LEDGERS
                ==> r is Err && *final(self) == *old(self),
            r is Err <==> old(self).provide_error(winning_indices@, ledger.sequence) is Some,
            r is Err ==> r == Err::<Address, Error>(old(self).provide_error(winning_indices@, ledger.sequence)->0)
                && *final(self) == *old(self),
            r is Ok ==> ({
                let cleared = Contract { randomness_requested: false, randomness_request_ledger: None, ..*old(self) };
                &&& r == Ok::<Address, Error>(old(self).spec_raffle().oracle_address->0)
                &&& concluded(cleared, *final(self), random_seed, old(self).spec_raffle().randomness_source, winning_indices@, ledger, false)
            }),
    {
        let oracle = match &self.raffle {
            None => return Err(Error::NotInitialized),
            Some(raffle) => {
                let oracle = match raffle.oracle_address {
                    Some(o) => o,
                    None => return Err(Error::OracleNotSet),
                };
                if raffle.status != RaffleStatus::Drawing {
                    return Err(Error::InvalidStateTransition);
                }
                if raffle.randomness_source != RandomnessSource::External {
                    return Err(Error::InvalidStateTransition);
                }
                oracle
            },
        };
        if !self.randomness_requested {
            return Err(Error::NoRandomnessRequest);
        }
        match self.randomness_request_ledger {
            Some(q) => {
                if (ledger.sequence as u64) < q as u64 + RANDOMNESS_MIN_DELAY_LEDGERS as u64 {
                    return Err(Error::RandomnessTooEarly);
                }
            },
            None => {},
        }
        if self.next_ticket_id == 0 {
            return Err(Error::NoTicketsSold);
        }
        let winners = self.collect_winners(winning_indices)?;
        let source = match &self.raffle {
            Some(raffle) => raffle.randomness_source,
            None => RandomnessSource::External,
        };
        self.randomness_requested = false;
        self.randomness_request_ledger = None;
        self.conclude_draw(random_seed, source, winning_indices, winners, ledger, false);
        Ok(oracle)
    }

    /// The first check that a fallback draw by `caller` fails, if any.
    pub open spec fn fallback_error(&self, caller: Address, ledger: LedgerInfo, indices: Seq<u32>) -> Option<Error> {
        let raffle = self.spec_raffle();
        if self.raffle is None {
            Some(Error::NotInitialized)
        } else if self.admin is None {
            Some(Error::NotAuthorized)
        } else if caller != raffle.creator && caller != self.admin->0 {
            Some(Error::NotAuthorized)
        } else if raffle.status != RaffleStatus::Drawing {
            Some(Error::InvalidStateTransition)
        } else if !self.randomness_requested {
            Some(Error::NoRandomnessRequest)
        } else if self.randomness_request_ledger is None {
            Some(Error::NoRandomnessRequest)
        } else if ledger.sequence < (if self.randomness_request_ledger->0 + ORACLE_TIMEOUT_LEDGERS > u32::MAX {
            u32::MAX as int
        } else {
            self.randomness_request_ledger->0 + ORACLE_TIMEOUT_LEDGERS
        }) {
            Some(Error::FallbackTooEarly)
        } else if self.next_ticket_id == 0 {
            Some(Error::NoTicketsSold)
        } else if !drawn_tickets_exist(self.tickets@, indices) {
            Some(Error::TicketNotFound)
        } else {
            None
        }
    }

    /// Draws the winners without the oracle once `ORACLE_TIMEOUT_LEDGERS`
    /// ledgers have passed since the request; the creator or the admin may
    /// call it. `seed_fingerprint` and `winning_indices` are what the
    /// ledger-seeded selection produced. The draw is recorded as internal.
    pub fn trigger_randomness_fallback(
        &mut self,
        caller: Address,
        ledger: LedgerInfo,
        seed_fingerprint: u64,
        winning_indices: &Vec<u32>,
    ) -> (r: Result<(), Error>)
        requires
            indices_in_range(winning_indices@),
        ensures
            status_moved(*old(self), *final(self)),
            old(self).randomness_request_ledger matches Some(q) && q + ORACLE_TIMEOUT_LEDGERS <= u32::MAX
                && ledger.sequence < q + ORACLE_TIMEOUT_LEDGERS ==> r is Err,
            r is Err <==> old(self).fallback_error(caller, ledger, winning_indices@) is Some,
            r is Err ==> r == Err::<(), Error>(old(self).fallback_error(caller, ledger, winning_indices@)->0)
                && *final(self) == *old(self),
            r is Ok ==> concluded(
                Contract { randomness_requested: false, randomness_request_ledger: None, ..*old(self) },
                *final(self),
                seed_fingerprint,
                RandomnessSource::Internal,
                winning_indices@,
                ledger,
                true,
            ),
    {
        match &self.raffle {
            None => return Err(Error::NotInitialized),
            Some(raffle) => {
                let admin = match self.admin {
                    Some(a) => a,
                    None => return Err(Error::NotAuthorized),
                };
                if caller != raffle.creator && caller != admin {
                    return Err(Error::NotAuthorized);
                }
                if raffle.status != RaffleStatus::Drawing {
                    return Err(Error::InvalidStateTransition);
                }
            },
        }
        if !self.randomness_requested {
            return Err(Error::NoRandomnessRequest);
        }
        let request_ledger = match self.randomness_request_ledger {
            Some(l) => l,
            None => return Err(Error::NoRandomnessRequest),
        };
        if ledger.sequence < request_ledger.saturating_add(ORACLE_TIMEOUT_LEDGERS) {
            return Err(Error::FallbackTooEarly);
        }
        if self.next_ticket_id == 0 {
            return Err(Error::NoTicketsSold);
        }
        let winners = self.collect_winners(winning_indices)?;
        self.randomness_requested = false;
        self.randomness_request_ledger = None;
        self.conclude_draw(seed_fingerprint, RandomnessSource::Internal, winning_indices, winners, ledger, true);
        Ok(())
    }
}

/// Whether ticket `id` exists and its owner holds no existing ticket with a lower id.
pub open spec fn first_ticket_of_owner(tickets: Map<u32, Ticket>, id: u32) -> bool {
    &&& tickets.contains_key(id)
    &&& forall|j: u32| 1 <= j < id && #[trigger] tickets.contains_key(j) ==> tickets[j].owner != tickets[id].owner
}

/// The revealed secrets of the owners of tickets `1 ..= n`, each owner once,
/// in the order of their first ticket.
pub open spec fn revealed_stream(tickets: Map<u32, Ticket>, secrets: Map<Address, Vec<u8>>, n: nat) -> Seq<u8>
    decreases n,
{
    if n == 0 {
        Seq::empty()
    } else {
        let id = n as u32;
        let prev = revealed_stream(tickets, secrets, (n - 1) as nat);
        if n <= u32::MAX && first_ticket_of_owner(tickets, id) && secrets.contains_key(tickets[id].owner) {
            prev + secrets[tickets[id].owner]@
        } else {
            prev
        }
    }
}

/// The seed of a commit-reveal draw: [`commit_reveal_seed_of`] over the
/// revealed secrets, or, when nobody committed, the internal seed.
pub open spec fn commit_reveal_draw_seed(c: Contract, ledger: LedgerInfo) -> u64 {
    if c.commit_count == 0 {
        internal_seed(ledger, c.self_address)
    } else {
        commit_reveal_seed_of(c.tickets@, c.revealed_secrets@, c.next_ticket_id as nat)
    }
}

/// The big-endian value of the first eight bytes of `b`.
pub open spec fn be_prefix_u64(b: Seq<u8>) -> int {
    b[0] * 0x0100_0000_0000_0000 + b[1] * 0x0001_0000_0000_0000 + b[2] * 0x0000_0100_0000_0000
        + b[3] * 0x0000_0001_0000_0000 + b[4] * 0x0000_0000_0100_0000 + b[5] * 0x0000_0000_0001_0000
        + b[6] * 0x0000_0000_0000_0100 + b[7]
}

/// The commit-reveal seed over the revealed secrets of ticket holders 1 ..= `n`.
pub open spec fn commit_reveal_seed_of(tickets: Map<u32, Ticket>, secrets: Map<Address, Vec<u8>>, n: nat) -> u64 {
    be_prefix_u64(sha256_digest(revealed_stream(tickets, secrets, n))) as u64
}

fn be_prefix_u64_of(h: &[u8; 32]) -> (x: u64)
    ensures
        x == be_prefix_u64(h@),
{
    (h[0] as u64) * 0x0100_0000_0000_0000 + (h[1] as u64) * 0x0001_0000_0000_0000
        + (h[2] as u64) * 0x0000_0100_0000_0000 + (h[3] as u64) * 0x0000_0001_0000_0000
        + (h[4] as u64) * 0x0000_0000_0100_0000 + (h[5] as u64) * 0x0000_0000_0001_0000
        + (h[6] as u64) * 0x0000_0000_0000_0100 + (h[7] as u64)
}

/// Where the protocol fee withheld from a prize goes.
#[derive(Clone, Copy, PartialEq, Eq, Structural, Debug)]
pub enum FeeRoute {
    /// No fee, or nowhere to send it: it stays with the instance.
    Kept,
    /// Sent to the treasury.
    Treasury { transfer: Transfer },
    /// Swapped for the protocol token through the router, then burned.
    SwapAndBurn { router: Address, payment_token: Address, tikka_token: Address, amount: i128 },
    /// Already in the protocol token: burned.
    Burn { tikka_token: Address, amount: i128 },
}

/// The outcome of a prize claim.
#[derive(Clone, Copy, PartialEq, Eq, Structural, Debug)]
pub struct Claim {
    /// The tier's share of the prize.
    pub gross_amount: i128,
    /// Protocol fee withheld from it.
    pub platform_fee: i128,
    /// What the winner receives.
    pub net_amount: i128,
    /// The payout to the winner.
    pub payout: Transfer,
    /// What becomes of the fee.
    pub fee_route: FeeRoute,
}

/// The prize share of a tier of `tier_bp` basis points.
pub open spec fn tier_amount(prize_amount: i128, tier_bp: u32) -> int {
    trunc_div(prize_amount * tier_bp, 10_000)
}

/// The protocol fee withheld from a tier's share: `gross * fee_bp / 10 000`,
/// rounded toward zero. Above 100% it exceeds the share, and the winner's
/// net amount `gross - fee` is then negative: the host's payout of it fails.
pub open spec fn claim_fee(gross: int, fee_bp: u32) -> int {
    if fee_bp > 0 {
        trunc_div(gross * fee_bp, 10_000)
    } else {
        0
    }
}

/// Where the fee of a claim goes, given the raffle's settings.
pub open spec fn fee_route_of(raffle: Raffle, instance: Address, fee: i128) -> FeeRoute {
    if fee <= 0 {
        FeeRoute::Kept
    } else if raffle.swap_router is Some && raffle.tikka_token is Some {
        if raffle.payment_token != raffle.tikka_token->0 {
            FeeRoute::SwapAndBurn {
                router: raffle.swap_router->0,
                payment_token: raffle.payment_token,
                tikka_token: raffle.tikka_token->0,
                amount: fee,
            }
        } else {
            FeeRoute::Burn { tikka_token: raffle.tikka_token->0, amount: fee }
        }
    } else if raffle.treasury_address is Some {
        FeeRoute::Treasury {
            transfer: Transfer { token: raffle.payment_token, from: instance, to: raffle.treasury_address->0, amount: fee },
        }
    } else {
        FeeRoute::Kept
    }
}

impl Contract {
    /// The first check that a commitment by `participant` fails, if any.
    pub open spec fn commit_error(&self, participant: Address) -> Option<Error> {
        let raffle = self.spec_raffle();
        if self.paused {
            Some(Error::ContractPaused)
        } else if self.raffle is None {
            Some(Error::NotInitialized)
        } else if raffle.randomness_source != RandomnessSource::CommitReveal {
            Some(Error::InvalidParameters)
        } else if raffle.status != RaffleStatus::Drawing {
            Some(Error::InvalidStateTransition)
        } else if self.commit_hashes@.contains_key(participant) {
            Some(Error::AlreadyCommitted)
        } else {
            None
        }
    }

    /// A participant commits to the hash of a secret, once, while drawing.
    pub fn commit_seed(&mut self, participant: Address, hash: [u8; 32]) -> (r: Result<(), Error>)
        requires
            old(self).commit_count < u32::MAX,
        ensures
            status_moved(*old(self), *final(self)),
            r is Ok ==> final(self).commit_error(participant) == Some(Error::AlreadyCommitted),
            r is Err <==> old(self).commit_error(participant) is Some,
            r is Err ==> r == Err::<(), Error>(old(self).commit_error(participant)->0) && *final(self) == *old(self),
            r is Ok ==> final(self).commit_hashes@ == old(self).commit_hashes@.insert(participant, hash)
                && *final(self) == (Contract {
                    commit_hashes: final(self).commit_hashes,
                    commit_count: (old(self).commit_count + 1) as u32,
                    ..*old(self)
                }),
    {
        if self.paused {
            return Err(Error::ContractPaused);
        }
        match &self.raffle {
            None => return Err(Error::NotInitialized),
            Some(raffle) => {
                if raffle.randomness_source != RandomnessSource::CommitReveal {
                    return Err(Error::InvalidParameters);
                }
                if raffle.status != RaffleStatus::Drawing {
                    return Err(Error::InvalidStateTransition);
                }
            },
        }
        if self.commit_hashes.contains(&participant) {
            return Err(Error::AlreadyCommitted);
        }
        self.commit_hashes.insert(participant, hash);
        self.commit_count = self.commit_count + 1;
        Ok(())
    }

    /// The first check that a reveal of `secret` by `participant` fails, if any.
    pub open spec fn reveal_error(&self, participant: Address, secret: Seq<u8>) -> Option<Error> {
        let raffle = self.spec_raffle();
        if self.paused {
            Some(Error::ContractPaused)
        } else if self.raffle is None {
            Some(Error::NotInitialized)
        } else if raffle.randomness_source != RandomnessSource::CommitReveal {
            Some(Error::InvalidParameters)
        } else if raffle.status != RaffleStatus::Drawing {
            Some(Error::InvalidStateTransition)
        } else if !self.commit_hashes@.contains_key(participant) {
            Some(Error::NotCommitted)
        } else if self.revealed_secrets@.contains_key(participant) {
            Some(Error::AlreadyRevealed)
        } else if sha256_digest(secret) != self.commit_hashes@[participant]@ {
            Some(Error::CommitHashMismatch)
        } else {
            None
        }
    }

    /// A participant reveals the secret behind its commitment; the SHA-256
    /// of the secret must equal the committed hash. Returns whether every
    /// commitment is now revealed. This step only records the secret: the
    /// raffle stays `Drawing`. When it returns `true` the draw is due, and the
    /// same contract call goes on with `commit_reveal_seed`, the winner
    /// selection from that seed, and `finalize_commit_reveal`, which moves
    /// the raffle to `Finalized`; should that draw fail, the whole call (this
    /// reveal included) is rejected.
    pub fn reveal_seed(&mut self, env: &Env, participant: Address, secret: Vec<u8>) -> (r: Result<bool, Error>)
        requires
            old(self).reveal_count < u32::MAX,
        ensures
            status_moved(*old(self), *final(self)),
            r is Ok ==> sha256_digest(secret@) == old(self).commit_hashes@[participant]@,
            r is Ok ==> forall|s: Seq<u8>| #[trigger] final(self).reveal_error(participant, s) == Some(Error::AlreadyRevealed),
            r is Err <==> old(self).reveal_error(participant, secret@) is Some,
            r is Err ==> r == Err::<bool, Error>(old(self).reveal_error(participant, secret@)->0) && *final(self) == *old(self),
            r is Ok ==> ({
                let reveals = (old(self).reveal_count + 1) as u32;
                &&& r == Ok::<bool, Error>(old(self).commit_count > 0 && reveals >= old(self).commit_count)
                &&& final(self).revealed_secrets@ == old(self).revealed_secrets@.insert(participant, secret)
                &&& *final(self) == (Contract {
                    revealed_secrets: final(self).revealed_secrets,
                    reveal_count: reveals,
                    ..*old(self)
                })
            }),
    {
        if self.paused {
            return Err(Error::ContractPaused);
        }
        match &self.raffle {
            None => return Err(Error::NotInitialized),
            Some(raffle) => {
                if raffle.randomness_source != RandomnessSource::CommitReveal {
                    return Err(Error::InvalidParameters);
                }
                if raffle.status != RaffleStatus::Drawing {
                    return Err(Error::InvalidStateTransition);
                }
            },
        }
        let committed: [u8; 32] = match self.commit_hashes.get(&participant) {
            Some(h) => *h,
            None => return Err(Error::NotCommitted),
        };
        if self.revealed_secrets.contains(&participant) {
            return Err(Error::AlreadyRevealed);
        }
        let actual = sha256(env, &secret);
        if !same_hash(&actual, &committed) {
            return Err(Error::CommitHashMismatch);
        }
        self.revealed_secrets.insert(participant, secret);
        self.reveal_count = self.reveal_count + 1;
        Ok(self.commit_count > 0 && self.reveal_count >= self.commit_count)
    }

    /// The draw seed of a commit-reveal raffle: the first eight bytes,
    /// big-endian, of the SHA-256 of the secrets revealed by the ticket
    /// holders, each holder once, in the order of their first ticket. When
    /// nobody committed, the draw falls back to the internal seed of the
    /// ledger `ledger`.
    pub fn commit_reveal_seed(&self, env: &Env, ledger: LedgerInfo) -> (seed: u64)
        ensures
            seed == commit_reveal_draw_seed(*self, ledger),
    {
        if self.commit_count == 0 {
            return build_internal_seed_u64(env, ledger, self.self_address);
        }
        let total = self.next_ticket_id;
        let mut seed_bytes: Vec<u8> = Vec::new();
        let mut seen: Table<Address, bool> = Table::new();
        let mut id: u32 = 0;
        while id < total
            invariant
                id <= total,
                total == self.next_ticket_id,
                seed_bytes@ == revealed_stream(self.tickets@, self.revealed_secrets@, id as nat),
                forall|a: Address| #[trigger] seen@.contains_key(a) <==> exists|j: u32|
                    1 <= j <= id && #[trigger] self.tickets@.contains_key(j) && self.tickets@[j].owner == a,
            decreases total - id,
        {
            id = id + 1;
            let ghost before = seen@;
            match self.tickets.get(&id) {
                Some(ticket) => {
                    let owner = ticket.owner;
                    if !seen.contains(&owner) {
                        assert(first_ticket_of_owner(self.tickets@, id)) by {
                            assert forall|j: u32| 1 <= j < id && #[trigger] self.tickets@.contains_key(j)
                                implies self.tickets@[j].owner != self.tickets@[id].owner by {
                                if self.tickets@[j].owner == owner {
                                    assert(before.contains_key(owner));
                                }
                            }
                        }
                        seen.insert(owner, true);
                        match self.revealed_secrets.get(&owner) {
                            Some(secret) => {
                                let mut k: usize = 0;
                                let ghost start = seed_bytes@;
                                while k < secret.len()
                                    invariant
                                        k <= secret@.len(),
                                        seed_bytes@ == start + secret@.take(k as int),
                                    decreases secret@.len() - k,
                                {
                                    seed_bytes.push(secret[k]);
                                    k = k + 1;
                                    assert(seed_bytes@ =~= start + secret@.take(k as int));
                                }
                                assert(secret@.take(secret@.len() as int) =~= secret@);
                            },
                            None => {},
                        }
                    } else {
                        assert(!first_ticket_of_owner(self.tickets@, id)) by {
                            let j = choose|j: u32| 1 <= j <= id - 1 && #[trigger] self.tickets@.contains_key(j)
                                && self.tickets@[j].owner == owner;
                            assert(self.tickets@.contains_key(j));
                        }
                    }
                    assert forall|a: Address| #[trigger] seen@.contains_key(a) <==> exists|j: u32|
                        1 <= j <= id && #[trigger] self.tickets@.contains_key(j) && self.tickets@[j].owner == a by {
                        if seen@.contains_key(a) && a != owner {
                            let j = choose|j: u32| 1 <= j <= id - 1 && #[trigger] self.tickets@.contains_key(j)
                                && self.tickets@[j].owner == a;
                            assert(self.tickets@.contains_key(j));
                        }
                        if seen@.contains_key(a) && a == owner {
                            assert(self.tickets@.contains_key(id));
                        }
                        if exists|j: u32| 1 <= j <= id && #[trigger] self.tickets@.contains_key(j) && self.tickets@[j].owner == a {
                            let j = choose|j: u32| 1 <= j <= id && #[trigger] self.tickets@.contains_key(j)
                                && self.tickets@[j].owner == a;
                            if j < id {
                                assert(before.contains_key(a));
                            }
                        }
                    }
                },
                None => {
                    assert forall|a: Address| #[trigger] seen@.contains_key(a) <==> exists|j: u32|
                        1 <= j <= id && #[trigger] self.tickets@.contains_key(j) && self.tickets@[j].owner == a by {
                        if seen@.contains_key(a) {
                            let j = choose|j: u32| 1 <= j <= id - 1 && #[trigger] self.tickets@.contains_key(j)
                                && self.tickets@[j].owner == a;
                            assert(self.tickets@.contains_key(j));
                        }
                    }
                },
            }
        }
        let hash = sha256(env, &seed_bytes);
        be_prefix_u64_of(&hash)
    }

    /// The first check that the commit-reveal draw fails, if any.
    pub open spec fn commit_reveal_draw_error(&self, indices: Seq<u32>) -> Option<Error> {
        if self.raffle is None {
            Some(Error::NotInitialized)
        } else if self.spec_raffle().status != RaffleStatus::Drawing {
            Some(Error::InvalidStateTransition)
        } else if self.commit_count > 0 && self.reveal_count < self.commit_count {
            Some(Error::CommitRevealNotReady)
        } else if self.next_ticket_id == 0 {
            Some(Error::NoTicketsSold)
        } else if !drawn_tickets_exist(self.tickets@, indices) {
            Some(Error::TicketNotFound)
        } else {
            None
        }
    }

    /// Draws a `Drawing` commit-reveal raffle once every commitment is
    /// revealed, or, when nobody committed, from the internal seed (the draw
    /// is then recorded as internal): `winning_indices` are what the
    /// winner-selection strategy drew from `commit_reveal_seed`. Returns the seed.
    pub fn finalize_commit_reveal(&mut self, env: &Env, winning_indices: &Vec<u32>, ledger: LedgerInfo) -> (r: Result<u64, Error>)
        requires
            indices_in_range(winning_indices@),
        ensures
            status_moved(*old(self), *final(self)),
            r is Err <==> old(self).commit_reveal_draw_error(winning_indices@) is Some,
            r is Err ==> r == Err::<u64, Error>(old(self).commit_reveal_draw_error(winning_indices@)->0)
                && *final(self) == *old(self),
            r is Ok ==> ({
                let seed = commit_reveal_draw_seed(*old(self), ledger);
                let source = if old(self).commit_count == 0 {
                    RandomnessSource::Internal
                } else {
                    old(self).spec_raffle().randomness_source
                };
                &&& r == Ok::<u64, Error>(seed)
                &&& concluded(*old(self), *final(self), seed, source, winning_indices@, ledger, true)
            }),
    {
        let source = match &self.raffle {
            None => return Err(Error::NotInitialized),
            Some(raffle) => {
                if raffle.status != RaffleStatus::Drawing {
                    return Err(Error::InvalidStateTransition);
                }
                raffle.randomness_source
            },
        };
        if self.commit_count > 0 && self.reveal_count < self.commit_count {
            return Err(Error::CommitRevealNotReady);
        }
        if self.next_ticket_id == 0 {
            return Err(Error::NoTicketsSold);
        }
        let seed = self.commit_reveal_seed(env, ledger);
        let source = if self.commit_count == 0 { RandomnessSource::Internal } else { source };
        let winners = self.collect_winners(winning_indices)?;
        self.conclude_draw(seed, source, winning_indices, winners, ledger, true);
        Ok(seed)
    }

    /// The first check that a claim of tier `tier_index` by `winner` fails, if any.
    pub open spec fn claim_error(&self, winner: Address, tier_index: u32, now: u64) -> Option<Error> {
        let raffle = self.spec_raffle();
        let finalized_at: u64 = if raffle.finalized_at is Some { raffle.finalized_at->0 } else { 0 };
        if self.raffle is None {
            Some(Error::NotInitialized)
        } else if raffle.status != RaffleStatus::Finalized {
            Some(Error::InvalidStateTransition)
        } else if tier_index >= raffle.winners@.len() {
            Some(Error::InvalidParameters)
        } else if raffle.winners@[tier_index as int] != winner {
            Some(Error::NotWinner)
        } else if raffle.claimed_winners@[tier_index as int] {
            Some(Error::PrizeAlreadyClaimed)
        } else if !raffle.prize_deposited {
            Some(Error::PrizeNotDeposited)
        } else if now < finalized_at + CLAIM_DELAY_SECONDS {
            Some(Error::ClaimTooEarly)
        } else if self.reentrancy_guard {
            Some(Error::Reentrancy)
        } else {
            None
        }
    }

    /// A winner claims the prize of one tier, `CLAIM_DELAY_SECONDS` after
    /// finalization: the tier's share of the prize, less the protocol fee,
    /// is paid out and the tier is marked claimed; once every tier is claimed
    /// the raffle becomes `Claimed`. Returns the amounts, the
    /// payout and what becomes of the fee.
    pub fn claim_prize(&mut self, winner: Address, tier_index: u32, ledger: LedgerInfo) -> (r: Result<Claim, Error>)
        requires
            old(self).raffle is Some && tier_index < old(self).spec_raffle().winners@.len() ==> {
                let raffle = old(self).spec_raffle();
                let gross = tier_amount(raffle.prize_amount, raffle.prizes@[tier_index as int]);
                &&& tier_index < raffle.claimed_winners@.len()
                &&& tier_index < raffle.prizes@.len()
                &&& (if raffle.finalized_at is Some { raffle.finalized_at->0 } else { 0u64 }) + CLAIM_DELAY_SECONDS <= u64::MAX
                &&& i128::MIN <= raffle.prize_amount * raffle.prizes@[tier_index as int] <= i128::MAX
                &&& i128::MIN <= gross * raffle.protocol_fee_bp <= i128::MAX
                &&& i128::MIN <= gross - claim_fee(gross, raffle.protocol_fee_bp) <= i128::MAX
            },
        ensures
            status_moved(*old(self), *final(self)),
            r is Ok ==> forall|t: u64| #[trigger] final(self).claim_error(winner, tier_index, t) is Some,
            r is Err <==> old(self).claim_error(winner, tier_index, ledger.timestamp) is Some,
            r is Err ==> r == Err::<Claim, Error>(old(self).claim_error(winner, tier_index, ledger.timestamp)->0)
                && *final(self) == *old(self),
            r matches Ok(c) ==> ({
                let raffle = old(self).spec_raffle();
                let gross = tier_amount(raffle.prize_amount, raffle.prizes@[tier_index as int]);
                let fee = claim_fee(gross, raffle.protocol_fee_bp);
                let r1 = final(self).spec_raffle();
                &&& c.gross_amount == gross
                &&& c.platform_fee == fee
                &&& c.net_amount == gross - fee
                &&& c.payout == (Transfer { token: raffle.payment_token, from: old(self).self_address, to: winner, amount: c.net_amount })
                &&& c.fee_route == fee_route_of(raffle, old(self).self_address, c.platform_fee)
                &&& c.platform_fee <= 0 ==> c.fee_route == FeeRoute::Kept
                &&& c.platform_fee > 0 && raffle.swap_router is Some && raffle.tikka_token is Some
                    && raffle.payment_token == raffle.tikka_token->0
                    ==> c.fee_route == (FeeRoute::Burn { tikka_token: raffle.payment_token, amount: c.platform_fee })
                &&& c.platform_fee > 0 && raffle.swap_router is Some && raffle.tikka_token is Some
                    && raffle.payment_token != raffle.tikka_token->0
                    ==> c.fee_route == (FeeRoute::SwapAndBurn {
                        router: raffle.swap_router->0,
                        payment_token: raffle.payment_token,
                        tikka_token: raffle.tikka_token->0,
                        amount: c.platform_fee,
                    })
                &&& c.platform_fee > 0 && !(raffle.swap_router is Some && raffle.tikka_token is Some)
                    && raffle.treasury_address is Some
                    ==> c.fee_route == (FeeRoute::Treasury {
                        transfer: Transfer {
                            token: raffle.payment_token,
                            from: old(self).self_address,
                            to: raffle.treasury_address->0,
                            amount: c.platform_fee,
                        },
                    })
                &&& c.platform_fee > 0 && !(raffle.swap_router is Some && raffle.tikka_token is Some)
                    && raffle.treasury_address is None ==> c.fee_route == FeeRoute::Kept
                &&& final(self).raffle is Some
                &&& r1.claimed_winners@ == raffle.claimed_winners@.update(tier_index as int, true)
                &&& r1 == (Raffle {
                    claimed_winners: r1.claimed_winners,
                    status: if (forall|i: int| 0 <= i < r1.claimed_winners@.len() ==> #[trigger] r1.claimed_winners@[i]) {
                        RaffleStatus::Claimed
                    } else {
                        RaffleStatus::Finalized
                    },
                    ..raffle
                })
                &&& *final(self) == (Contract {
                    raffle: final(self).raffle,
                    finish_time: if old(self).finish_time is Some { old(self).finish_time } else { Some(ledger.timestamp) },
                    ..*old(self)
                })
            }),
    {
        let (gross, fee_bp) = match &self.raffle {
            None => return Err(Error::NotInitialized),
            Some(raffle) => {
                if raffle.status != RaffleStatus::Finalized {
                    return Err(Error::InvalidStateTransition);
                }
                if tier_index as usize >= raffle.winners.len() {
                    return Err(Error::InvalidParameters);
                }
                if raffle.winners[tier_index as usize] != winner {
                    return Err(Error::NotWinner);
                }
                if raffle.claimed_winners[tier_index as usize] {
                    return Err(Error::PrizeAlreadyClaimed);
                }
                if !raffle.prize_deposited {
                    return Err(Error::PrizeNotDeposited);
                }
                let finalized_at = match raffle.finalized_at {
                    Some(t) => t,
                    None => 0,
                };
                if ledger.timestamp < finalized_at + CLAIM_DELAY_SECONDS {
                    return Err(Error::ClaimTooEarly);
                }
                let tier_bp = raffle.prizes[tier_index as usize];
                (div_by_basis_points(raffle.prize_amount * tier_bp as i128), raffle.protocol_fee_bp)
            },
        };
        if self.reentrancy_guard {
            return Err(Error::Reentrancy);
        }
        let platform_fee: i128 = if fee_bp > 0 {
            div_by_basis_points(gross * fee_bp as i128)
        } else {
            0
        };
        let net_amount = gross - platform_fee;
        let mut raffle = self.raffle.take().unwrap();
        let ghost raffle0 = raffle;
        raffle.claimed_winners.set(tier_index as usize, true);
        let mut all_claimed = true;
        let mut i: usize = 0;
        while i < raffle.claimed_winners.len()
            invariant
                i <= raffle.claimed_winners@.len(),
                all_claimed == (forall|j: int| 0 <= j < i ==> #[trigger] raffle.claimed_winners@[j]),
            decreases raffle.claimed_winners@.len() - i,
        {
            if !raffle.claimed_winners[i] {
                all_claimed = false;
            }
            i = i + 1;
        }
        if all_claimed {
            raffle.status = RaffleStatus::Claimed;
        }
        assert(raffle == (Raffle { claimed_winners: raffle.claimed_winners, status: raffle.status, ..raffle0 }));
        let fee_route = if platform_fee <= 0 {
            FeeRoute::Kept
        } else {
            match (raffle.swap_router, raffle.tikka_token) {
                (Some(router), Some(tikka)) => {
                    if raffle.payment_token != tikka {
                        FeeRoute::SwapAndBurn {
                            router,
                            payment_token: raffle.payment_token,
                            tikka_token: tikka,
                            amount: platform_fee,
                        }
                    } else {
                        FeeRoute::Burn { tikka_token: tikka, amount: platform_fee }
                    }
                },
                _ => match raffle.treasury_address {
                    Some(treasury) => FeeRoute::Treasury {
                        transfer: Transfer {
                            token: raffle.payment_token,
                            from: self.self_address,
                            to: treasury,
                            amount: platform_fee,
                        },
                    },
                    None => FeeRoute::Kept,
                },
            }
        };
        let payout = Transfer { token: raffle.payment_token, from: self.self_address, to: winner, amount: net_amount };
        self.raffle = Some(raffle);
        if self.finish_time.is_none() {
            self.finish_time = Some(ledger.timestamp);
        }
        Ok(Claim { gross_amount: gross, platform_fee, net_amount, payout, fee_route })
    }

    /// Whose authorization a cancellation for `reason` needs: the creator,
    /// the admin, or (for oracle timeout and unmet minimum) the factory.
    pub fn cancel_authority(&self, reason: CancelReason) -> (r: Result<Address, Error>)
        ensures
            self.raffle is None ==> r == Err::<Address, Error>(Error::NotInitialized),
            self.raffle is Some ==> r == match reason {
                CancelReason::CreatorCancelled => Ok::<Address, Error>(self.spec_raffle().creator),
                CancelReason::AdminCancelled => match self.admin {
                    Some(a) => Ok::<Address, Error>(a),
                    None => Err::<Address, Error>(Error::NotAuthorized),
                },
                _ => match self.factory {
                    Some(f) => Ok::<Address, Error>(f),
                    None => Err::<Address, Error>(Error::NotAuthorized),
                },
            },
    {
        let creator = match &self.raffle {
            None => return Err(Error::NotInitialized),
            Some(raffle) => raffle.creator,
        };
        match reason {
            CancelReason::CreatorCancelled => Ok(creator),
            CancelReason::AdminCancelled => match self.admin {
                Some(a) => Ok(a),
                None => Err(Error::NotAuthorized),
            },
            _ => match self.factory {
                Some(f) => Ok(f),
                None => Err(Error::NotAuthorized),
            },
        }
    }

    /// Cancels a raffle that has not ended (neither finalized, claimed,
    /// cancelled nor failed); a deposited prize goes back to the creator. Returns that refund.
    pub fn cancel_raffle(&mut self, reason: CancelReason, ledger: LedgerInfo) -> (r: Result<Option<Transfer>, Error>)
        ensures
            status_moved(*old(self), *final(self)),
            ({
                let raffle = old(self).spec_raffle();
                let authority = old(self).cancel_authority_spec(reason);
                &&& old(self).raffle is None ==> r == Err::<Option<Transfer>, Error>(Error::NotInitialized)
                &&& old(self).raffle is Some && authority is None ==> r == Err::<Option<Transfer>, Error>(Error::NotAuthorized)
                &&& old(self).raffle is Some && authority is Some && (raffle.status == RaffleStatus::Finalized
                    || raffle.status == RaffleStatus::Cancelled || raffle.status == RaffleStatus::Failed
                    || raffle.status == RaffleStatus::Claimed)
                    ==> r == Err::<Option<Transfer>, Error>(Error::InvalidStateTransition)
                &&& r is Ok <==> old(self).raffle is Some && authority is Some && !(raffle.status == RaffleStatus::Finalized
                    || raffle.status == RaffleStatus::Cancelled || raffle.status == RaffleStatus::Failed
                    || raffle.status == RaffleStatus::Claimed)
            }),
            r is Err ==> *final(self) == *old(self),
            r is Ok ==> ({
                let raffle = old(self).spec_raffle();
                &&& r == Ok::<Option<Transfer>, Error>(if raffle.prize_deposited {
                    Some(Transfer { token: raffle.payment_token, from: old(self).self_address, to: raffle.creator, amount: raffle.prize_amount })
                } else {
                    None
                })
                &&& *final(self) == (Contract {
                    raffle: Some(Raffle { status: RaffleStatus::Cancelled, prize_deposited: false, ..raffle }),
                    finish_time: if old(self).finish_time is Some { old(self).finish_time } else { Some(ledger.timestamp) },
                    ..*old(self)
                })
            }),
    {
        let _authority = self.cancel_authority(reason)?;
        let refund = match &self.raffle {
            None => return Err(Error::NotInitialized),
            Some(raffle) => {
                if raffle.status == RaffleStatus::Finalized || raffle.status == RaffleStatus::Cancelled
                    || raffle.status == RaffleStatus::Failed || raffle.status == RaffleStatus::Claimed {
                    return Err(Error::InvalidStateTransition);
                }
                if raffle.prize_deposited {
                    Some(Transfer {
                        token: raffle.payment_token,
                        from: self.self_address,
                        to: raffle.creator,
                        amount: raffle.prize_amount,
                    })
                } else {
                    None
                }
            },
        };
        let mut raffle = self.raffle.take().unwrap();
        raffle.status = RaffleStatus::Cancelled;
        raffle.prize_deposited = false;
        self.raffle = Some(raffle);
        if self.finish_time.is_none() {
            self.finish_time = Some(ledger.timestamp);
        }
        Ok(refund)
    }

    /// The authority of `cancel_authority`, as a value (`None` where it reports `NotAuthorized`).
    pub open spec fn cancel_authority_spec(&self, reason: CancelReason) -> Option<Address> {
        match reason {
            CancelReason::CreatorCancelled => Some(self.spec_raffle().creator),
            CancelReason::AdminCancelled => self.admin,
            _ => self.factory,
        }
    }

    /// The first check that a refund of ticket `ticket_id` fails, if any.
    pub open spec fn refund_ticket_error(&self, ticket_id: u32, now: u64) -> Option<Error> {
        let raffle = self.spec_raffle();
        let refundable = raffle.status == RaffleStatus::Cancelled || raffle.status == RaffleStatus::Failed
            || ((raffle.status == RaffleStatus::Active || raffle.status == RaffleStatus::Drawing)
                && raffle.end_time != 0 && now > raffle.end_time);
        if self.raffle is None {
            Some(Error::NotInitialized)
        } else if !refundable {
            Some(Error::InvalidStateTransition)
        } else if !self.tickets@.contains_key(ticket_id) {
            Some(Error::TicketNotFound)
        } else if self.refund_status@.contains_key(ticket_id) && self.refund_status@[ticket_id] {
            Some(Error::TicketAlreadyRefunded)
        } else if self.reentrancy_guard {
            Some(Error::Reentrancy)
        } else {
            None
        }
    }

    /// The owner of a ticket of a cancelled or failed raffle, or of one that expired
    /// without being finalized, gets the ticket price back, once. Returns the
    /// amount and the refund.
    pub fn refund_ticket(&mut self, ticket_id: u32, ledger: LedgerInfo) -> (r: Result<(i128, Transfer), Error>)
        ensures
            status_moved(*old(self), *final(self)),
            r is Ok ==> final(self).refund_ticket_error(ticket_id, ledger.timestamp) == Some(Error::TicketAlreadyRefunded),
            r is Ok ==> forall|t: u64| #[trigger] final(self).refund_ticket_error(ticket_id, t) is Some,
            r is Err <==> old(self).refund_ticket_error(ticket_id, ledger.timestamp) is Some,
            r is Err ==> r == Err::<(i128, Transfer), Error>(old(self).refund_ticket_error(ticket_id, ledger.timestamp)->0)
                && *final(self) == *old(self),
            old(self).raffle is Some && (old(self).spec_raffle().status == RaffleStatus::Failed
                || old(self).spec_raffle().status == RaffleStatus::Cancelled
                || ((old(self).spec_raffle().status == RaffleStatus::Active || old(self).spec_raffle().status == RaffleStatus::Drawing)
                    && old(self).spec_raffle().end_time != 0 && ledger.timestamp > old(self).spec_raffle().end_time))
                && old(self).tickets@.contains_key(ticket_id) && !old(self).refund_status@.contains_key(ticket_id)
                && !old(self).reentrancy_guard
                ==> r == Ok::<(i128, Transfer), Error>((old(self).spec_raffle().ticket_price, Transfer {
                    token: old(self).spec_raffle().payment_token,
                    from: old(self).self_address,
                    to: old(self).tickets@[ticket_id].owner,
                    amount: old(self).spec_raffle().ticket_price,
                })),
            old(self).raffle is Some && (old(self).spec_raffle().status == RaffleStatus::Finalized
                || old(self).spec_raffle().status == RaffleStatus::Claimed
                || old(self).spec_raffle().status == RaffleStatus::PendingPrize)
                ==> r == Err::<(i128, Transfer), Error>(Error::InvalidStateTransition),
            old(self).refund_status@.contains_key(ticket_id) && old(self).refund_status@[ticket_id] ==> r is Err,
            r is Ok ==> ({
                let raffle = old(self).spec_raffle();
                &&& r == Ok::<(i128, Transfer), Error>((raffle.ticket_price, Transfer {
                    token: raffle.payment_token,
                    from: old(self).self_address,
                    to: old(self).tickets@[ticket_id].owner,
                    amount: raffle.ticket_price,
                }))
                &&& final(self).refund_status@ == old(self).refund_status@.insert(ticket_id, true)
                &&& *final(self) == (Contract { refund_status: final(self).refund_status, ..*old(self) })
            }),
    {
        let (price, token) = match &self.raffle {
            None => return Err(Error::NotInitialized),
            Some(raffle) => {
                let is_cancelled = raffle.status == RaffleStatus::Cancelled || raffle.status == RaffleStatus::Failed;
                let is_expired = (raffle.status == RaffleStatus::Active || raffle.status == RaffleStatus::Drawing)
                    && raffle.end_time != 0 && ledger.timestamp > raffle.end_time;
                if !is_cancelled && !is_expired {
                    return Err(Error::InvalidStateTransition);
                }
                (raffle.ticket_price, raffle.payment_token)
            },
        };
        let owner = match self.tickets.get(&ticket_id) {
            Some(t) => t.owner,
            None => return Err(Error::TicketNotFound),
        };
        let refunded = match self.refund_status.get(&ticket_id) {
            Some(b) => *b,
            None => false,
        };
        if refunded {
            return Err(Error::TicketAlreadyRefunded);
        }
        if self.reentrancy_guard {
            return Err(Error::Reentrancy);
        }
        self.refund_status.insert(ticket_id, true);
        Ok((price, Transfer { token, from: self.self_address, to: owner, amount: price }))
    }

    /// Takes the reentrancy guard. The host holds it while it performs the
    /// token transfers that an operation returned and releases it after, so
    /// that a token contract calling back into this instance meanwhile is
    /// refused with `Reentrancy` by every operation that moves funds.
    pub fn acquire_guard(&mut self) -> (r: Result<(), Error>)
        ensures
            old(self).reentrancy_guard ==> r == Err::<(), Error>(Error::Reentrancy) && *final(self) == *old(self),
            !old(self).reentrancy_guard ==> r is Ok && *final(self) == (Contract { reentrancy_guard: true, ..*old(self) }),
    {
        if self.reentrancy_guard {
            return Err(Error::Reentrancy);
        }
        self.reentrancy_guard = true;
        Ok(())
    }

    /// Releases the reentrancy guard.
    pub fn release_guard(&mut self)
        ensures
            *final(self) == (Contract { reentrancy_guard: false, ..*old(self) }),
    {
        self.reentrancy_guard = false;
    }

    /// The first check that a prize refund fails, if any.
    pub open spec fn refund_prize_error(&self) -> Option<Error> {
        let raffle = self.spec_raffle();
        if self.raffle is None {
            Some(Error::NotInitialized)
        } else if raffle.status != RaffleStatus::Cancelled && raffle.status != RaffleStatus::Failed {
            Some(Error::InvalidStatus)
        } else if !raffle.prize_deposited {
            Some(Error::PrizeNotDeposited)
        } else {
            None
        }
    }

    /// The creator takes back the prize of a cancelled or failed raffle.
    /// Returns that transfer.
    pub fn refund_prize(&mut self) -> (r: Result<Transfer, Error>)
        ensures
            status_moved(*old(self), *final(self)),
            r is Ok ==> final(self).refund_prize_error() == Some(Error::PrizeNotDeposited),
            r is Err <==> old(self).refund_prize_error() is Some,
            r is Err ==> r == Err::<Transfer, Error>(old(self).refund_prize_error()->0) && *final(self) == *old(self),
            old(self).raffle is Some && (old(self).spec_raffle().status == RaffleStatus::Failed
                || old(self).spec_raffle().status == RaffleStatus::Cancelled) && old(self).spec_raffle().prize_deposited
                ==> r == Ok::<Transfer, Error>(Transfer {
                    token: old(self).spec_raffle().payment_token,
                    from: old(self).self_address,
                    to: old(self).spec_raffle().creator,
                    amount: old(self).spec_raffle().prize_amount,
                }) && !final(self).spec_raffle().prize_deposited,
            old(self).raffle is Some && old(self).spec_raffle().status != RaffleStatus::Failed
                && old(self).spec_raffle().status != RaffleStatus::Cancelled
                ==> r == Err::<Transfer, Error>(Error::InvalidStatus),
            r is Ok ==> ({
                let raffle = old(self).spec_raffle();
                &&& r == Ok::<Transfer, Error>(Transfer {
                    token: raffle.payment_token,
                    from: old(self).self_address,
                    to: raffle.creator,
                    amount: raffle.prize_amount,
                })
                &&& *final(self) == (Contract { raffle: Some(Raffle { prize_deposited: false, ..raffle }), ..*old(self) })
            }),
    {
        let transfer = match &self.raffle {
            None => return Err(Error::NotInitialized),
            Some(raffle) => {
                if raffle.status != RaffleStatus::Cancelled && raffle.status != RaffleStatus::Failed {
                    return Err(Error::InvalidStatus);
                }
                if !raffle.prize_deposited {
                    return Err(Error::PrizeNotDeposited);
                }
                Transfer { token: raffle.payment_token, from: self.self_address, to: raffle.creator, amount: raffle.prize_amount }
            },
        };
        let mut raffle = self.raffle.take().unwrap();
        raffle.prize_deposited = false;
        self.raffle = Some(raffle);
        Ok(transfer)
    }
}

/// The existing tickets with ids in `(lo, hi]`, in id order.
pub open spec fn tickets_in(tickets: Map<u32, Ticket>, lo: int, hi: int) -> Seq<Ticket>
    decreases hi - lo,
{
    if hi <= lo {
        Seq::empty()
    } else {
        let prev = tickets_in(tickets, lo, hi - 1);
        if hi <= u32::MAX && tickets.contains_key(hi as u32) {
            prev.push(tickets[hi as u32])
        } else {
            prev
        }
    }
}

/// Owners of existing tickets with ids in `[1, n]`.
pub open spec fn ticket_owners(tickets: Map<u32, Ticket>, n: u32) -> Set<Address> {
    Set::new(|a: Address| exists|id: u32| 1 <= id <= n && #[trigger] tickets.contains_key(id) && tickets[id].owner == a)
}

/// The shared form of a randomness source.
pub open spec fn shared_source(s: RandomnessSource) -> crate::shared::RandomnessSource {
    match s {
        RandomnessSource::Internal => crate::shared::RandomnessSource::Internal,
        RandomnessSource::External => crate::shared::RandomnessSource::External,
        RandomnessSource::CommitReveal => crate::shared::RandomnessSource::CommitReveal,
    }
}

fn to_shared_source(s: RandomnessSource) -> (r: crate::shared::RandomnessSource)
    ensures
        r == shared_source(s),
{
    match s {
        RandomnessSource::Internal => crate::shared::RandomnessSource::Internal,
        RandomnessSource::External => crate::shared::RandomnessSource::External,
        RandomnessSource::CommitReveal => crate::shared::RandomnessSource::CommitReveal,
    }
}

impl Contract {
    /// Name of the ticket collection.
    pub fn name(&self) -> (s: &'static str)
        ensures
            s@ == "Tikka Raffle Ticket"@,
    {
        "Tikka Raffle Ticket"
    }

    /// Symbol of the ticket collection.
    pub fn symbol(&self) -> (s: &'static str)
        ensures
            s@ == "TIKKA_TKT"@,
    {
        "TIKKA_TKT"
    }

    /// Metadata location of every ticket.
    pub fn token_uri(&self, _token_id: u32) -> (s: &'static str)
        ensures
            s@ == "https://tikka.app/api/ticket"@,
    {
        "https://tikka.app/api/ticket"
    }

    /// Number of tickets `owner` holds.
    pub fn balance(&self, owner: Address) -> (n: u32)
        ensures
            n == self.spec_ticket_count(owner),
    {
        self.read_ticket_count(&owner)
    }

    /// Owner of ticket `token_id`; `InvalidParameters` when there is no such ticket.
    pub fn owner_of(&self, token_id: u32) -> (r: Result<Address, Error>)
        ensures
            r == (if self.tickets@.contains_key(token_id) {
                Ok::<Address, Error>(self.tickets@[token_id].owner)
            } else {
                Err::<Address, Error>(Error::InvalidParameters)
            }),
    {
        match self.tickets.get(&token_id) {
            Some(t) => Ok(t.owner),
            None => Err(Error::InvalidParameters),
        }
    }

    /// Whether `operator` may move all of `owner`'s tickets.
    pub open spec fn spec_approved_for_all(&self, owner: Address, operator: Address) -> bool {
        self.approved_for_all@.contains_key((owner, operator)) && self.approved_for_all@[(owner, operator)]
    }

    /// The operator approved for ticket `token_id`, if any.
    pub open spec fn spec_approved(&self, token_id: u32) -> Option<Address> {
        if self.approved@.contains_key(token_id) {
            Some(self.approved@[token_id])
        } else {
            None
        }
    }

    /// The ticket's owner, or an operator of the owner, sets (or with `None`
    /// clears) the operator approved for one ticket.
    pub fn approve(&mut self, caller: Address, operator: Option<Address>, token_id: u32) -> (r: Result<(), Error>)
        ensures
            !old(self).tickets@.contains_key(token_id) ==> r == Err::<(), Error>(Error::InvalidParameters),
            old(self).tickets@.contains_key(token_id) && caller != old(self).tickets@[token_id].owner
                && !old(self).spec_approved_for_all(old(self).tickets@[token_id].owner, caller)
                ==> r == Err::<(), Error>(Error::NotAuthorized),
            r is Ok <==> old(self).tickets@.contains_key(token_id) && (caller == old(self).tickets@[token_id].owner
                || old(self).spec_approved_for_all(old(self).tickets@[token_id].owner, caller)),
            r is Err ==> *final(self) == *old(self),
            r is Ok ==> final(self).approved@ == match operator {
                Some(op) => old(self).approved@.insert(token_id, op),
                None => old(self).approved@.remove(token_id),
            } && *final(self) == (Contract { approved: final(self).approved, ..*old(self) }),
    {
        let owner = match self.tickets.get(&token_id) {
            Some(t) => t.owner,
            None => return Err(Error::InvalidParameters),
        };
        let for_all = match self.approved_for_all.get(&(owner, caller)) {
            Some(b) => *b,
            None => false,
        };
        if caller != owner && !for_all {
            return Err(Error::NotAuthorized);
        }
        match operator {
            Some(op) => {
                self.approved.insert(token_id, op);
            },
            None => {
                let _ = self.approved.remove(&token_id);
            },
        }
        Ok(())
    }

    /// `caller` grants or withdraws `operator`'s right over all its tickets.
    pub fn set_approval_for_all(&mut self, caller: Address, operator: Address, approved: bool) -> (r: Result<(), Error>)
        ensures
            r is Ok,
            final(self).approved_for_all@ == old(self).approved_for_all@.insert((caller, operator), approved),
            *final(self) == (Contract { approved_for_all: final(self).approved_for_all, ..*old(self) }),
    {
        self.approved_for_all.insert((caller, operator), approved);
        Ok(())
    }

    /// The operator approved for ticket `token_id`, if any.
    pub fn get_approved(&self, token_id: u32) -> (r: Option<Address>)
        ensures
            r == self.spec_approved(token_id),
    {
        match self.approved.get(&token_id) {
            Some(a) => Some(*a),
            None => None,
        }
    }

    /// Whether `operator` may move all of `owner`'s tickets.
    pub fn is_approved_for_all(&self, owner: Address, operator: Address) -> (b: bool)
        ensures
            b == self.spec_approved_for_all(owner, operator),
    {
        match self.approved_for_all.get(&(owner, operator)) {
            Some(b) => *b,
            None => false,
        }
    }

    /// The first check that moving ticket `token_id` from `from` to `to` fails, if any.
    pub open spec fn move_error(&self, from: Address, to: Address, token_id: u32) -> Option<Error> {
        if !self.tickets@.contains_key(token_id) {
            Some(Error::InvalidParameters)
        } else if self.tickets@[token_id].owner != from {
            Some(Error::NotAuthorized)
        } else if self.raffle is None {
            Some(Error::NotInitialized)
        } else if !self.spec_raffle().allow_multiple && self.spec_ticket_count(to) > 0 {
            Some(Error::MultipleTicketsNotAllowed)
        } else {
            None
        }
    }

    /// The storage after ticket `token_id` moved from `from` to `to`: owner
    /// changed, holdings adjusted (the sender's first, then the receiver's),
    /// and the ticket's approval cleared.
    pub open spec fn moved(pre: Contract, post: Contract, from: Address, to: Address, token_id: u32) -> bool {
        let from_count = pre.spec_ticket_count(from);
        &&& post.tickets@ == pre.tickets@.insert(token_id, Ticket { owner: to, ..pre.tickets@[token_id] })
        &&& post.ticket_counts@ == pre.ticket_counts@
            .insert(from, if from_count == 0 { 0u32 } else { (from_count - 1) as u32 })
            .insert(to, (pre.spec_ticket_count(to) + 1) as u32)
        &&& post.approved@ == pre.approved@.remove(token_id)
        &&& post == (Contract {
            tickets: post.tickets,
            ticket_counts: post.ticket_counts,
            approved: post.approved,
            ..pre
        })
    }

    fn do_transfer(&mut self, from: Address, to: Address, token_id: u32) -> (r: Result<(), Error>)
        requires
            old(self).spec_ticket_count(to) < u32::MAX,
        ensures
            r is Err <==> old(self).move_error(from, to, token_id) is Some,
            r is Err ==> r == Err::<(), Error>(old(self).move_error(from, to, token_id)->0) && *final(self) == *old(self),
            r is Ok ==> Contract::moved(*old(self), *final(self), from, to, token_id),
    {
        let ticket: Ticket = match self.tickets.get(&token_id) {
            Some(t) => *t,
            None => return Err(Error::InvalidParameters),
        };
        if ticket.owner != from {
            return Err(Error::NotAuthorized);
        }
        let allow_multiple = match &self.raffle {
            Some(raffle) => raffle.allow_multiple,
            None => return Err(Error::NotInitialized),
        };
        let to_count = self.read_ticket_count(&to);
        if !allow_multiple && to_count > 0 {
            return Err(Error::MultipleTicketsNotAllowed);
        }
        let from_count = self.read_ticket_count(&from);
        self.ticket_counts.insert(from, from_count.saturating_sub(1));
        self.ticket_counts.insert(to, to_count + 1);
        self.tickets.insert(token_id, Ticket { owner: to, ..ticket });
        let _ = self.approved.remove(&token_id);
        Ok(())
    }

    /// The owner moves one of its tickets to `to`.
    pub fn transfer(&mut self, from: Address, to: Address, token_id: u32) -> (r: Result<(), Error>)
        requires
            old(self).spec_ticket_count(to) < u32::MAX,
        ensures
            r is Err <==> old(self).move_error(from, to, token_id) is Some,
            r is Err ==> r == Err::<(), Error>(old(self).move_error(from, to, token_id)->0) && *final(self) == *old(self),
            r is Ok ==> Contract::moved(*old(self), *final(self), from, to, token_id),
    {
        self.do_transfer(from, to, token_id)
    }

    /// `spender` moves ticket `token_id` of `from` to `to`; it must be `from`,
    /// an operator of `from`, or the ticket's approved operator.
    pub fn transfer_from(&mut self, spender: Address, from: Address, to: Address, token_id: u32) -> (r: Result<(), Error>)
        requires
            old(self).spec_ticket_count(to) < u32::MAX,
        ensures
            ({
                let allowed = spender == from || old(self).spec_approved_for_all(from, spender)
                    || old(self).spec_approved(token_id) == Some(spender);
                &&& !allowed ==> r == Err::<(), Error>(Error::NotAuthorized)
                &&& allowed ==> (r is Err <==> old(self).move_error(from, to, token_id) is Some)
                &&& allowed && r is Err ==> r == Err::<(), Error>(old(self).move_error(from, to, token_id)->0)
                &&& r is Ok ==> allowed && Contract::moved(*old(self), *final(self), from, to, token_id)
            }),
            r is Err ==> *final(self) == *old(self),
    {
        let for_all = self.is_approved_for_all(from, spender);
        let individual = self.get_approved(token_id);
        let individually_approved = match individual {
            Some(a) => a == spender,
            None => false,
        };
        if spender != from && !for_all && !individually_approved {
            return Err(Error::NotAuthorized);
        }
        self.do_transfer(from, to, token_id)
    }

    /// The raffle; `NotInitialized` before `init`.
    pub fn get_raffle(&self) -> (r: Result<&Raffle, Error>)
        ensures
            match self.raffle {
                Some(raffle) => r == Ok::<&Raffle, Error>(&raffle),
                None => r == Err::<&Raffle, Error>(Error::NotInitialized),
            },
    {
        match &self.raffle {
            Some(raffle) => Ok(raffle),
            None => Err(Error::NotInitialized),
        }
    }

    /// Up to `count` tickets starting at position `start` (ticket `start + 1`),
    /// skipping removed tickets.
    pub fn get_tickets(&self, start: u32, count: u32) -> (r: Vec<Ticket>)
        requires
            start < self.next_ticket_id ==> start + count <= u32::MAX,
        ensures
            start >= self.next_ticket_id ==> r@ == Seq::<Ticket>::empty(),
            start < self.next_ticket_id ==> r@ == tickets_in(self.tickets@, start as int,
                if start + count > self.next_ticket_id { self.next_ticket_id as int } else { start + count }),
    {
        let total = self.next_ticket_id;
        if start >= total {
            return Vec::new();
        }
        let end = if start + count > total {
            total
        } else {
            start + count
        };
        let mut result: Vec<Ticket> = Vec::new();
        let mut i = start;
        while i < end
            invariant
                start <= i <= end,
                end <= total,
                total == self.next_ticket_id,
                result@ == tickets_in(self.tickets@, start as int, i as int),
            decreases end - i,
        {
            let ticket_id = i + 1;
            match self.tickets.get(&ticket_id) {
                Some(t) => result.push(*t),
                None => {},
            }
            i = i + 1;
        }
        result
    }

    /// The existing tickets with ids `1 ..= next_ticket_id`, in id order.
    fn read_tickets(&self) -> (r: Vec<Ticket>)
        ensures
            r@ == tickets_in(self.tickets@, 0, self.next_ticket_id as int),
    {
        let total = self.next_ticket_id;
        let mut result: Vec<Ticket> = Vec::new();
        let mut i: u32 = 0;
        while i < total
            invariant
                i <= total,
                total == self.next_ticket_id,
                result@ == tickets_in(self.tickets@, 0, i as int),
            decreases total - i,
        {
            let ticket_id = i + 1;
            match self.tickets.get(&ticket_id) {
                Some(t) => result.push(*t),
                None => {},
            }
            i = i + 1;
        }
        result
    }

    /// Number of tickets issued.
    pub fn get_ticket_count(&self) -> (n: u32)
        ensures
            n == self.next_ticket_id,
    {
        self.next_ticket_id
    }

    /// The `WinnerDrawn` events of the draw, one per prize tier in tier
    /// order: the winner, its (1-based) ticket id, the tier and the draw
    /// time. Empty before any draw.
    pub fn winner_drawn_events(&self) -> (r: Vec<WinnerDrawn>)
        ensures
            r@ == match (self.raffle, self.fairness_record) {
                (Some(raffle), Some(rec)) => winner_events(raffle.winners@, rec.winning_ticket_indices@, rec.draw_timestamp),
                _ => Seq::<WinnerDrawn>::empty(),
            },
    {
        let mut out: Vec<WinnerDrawn> = Vec::new();
        match (&self.raffle, &self.fairness_record) {
            (Some(raffle), Some(rec)) => {
                let winners = &raffle.winners;
                let indices = &rec.winning_ticket_indices;
                let n = if winners.len() < indices.len() { winners.len() } else { indices.len() };
                let mut i: usize = 0;
                while i < n
                    invariant
                        i <= n,
                        n <= winners@.len(),
                        n <= indices@.len(),
                        n == winner_events(winners@, indices@, rec.draw_timestamp).len(),
                        out@ == winner_events(winners@, indices@, rec.draw_timestamp).take(i as int),
                    decreases n - i,
                {
                    let idx = indices[i];
                    let ticket_id: u32 = if idx < u32::MAX { idx + 1 } else { 0 };
                    out.push(WinnerDrawn { winner: winners[i], ticket_id, tier_index: i as u32, timestamp: rec.draw_timestamp });
                    i = i + 1;
                    assert(out@ =~= winner_events(winners@, indices@, rec.draw_timestamp).take(i as int));
                }
                assert(winner_events(winners@, indices@, rec.draw_timestamp).take(n as int)
                    =~= winner_events(winners@, indices@, rec.draw_timestamp));
            },
            _ => {},
        }
        out
    }

    /// The record of the draw of a finalized (or fully claimed) raffle,
    /// whichever way it was drawn, with the ids of all existing tickets.
    pub fn get_fairness_data(&self) -> (r: Result<crate::shared::FairnessData, Error>)
        ensures
            self.raffle is None ==> r matches Err(Error::NotInitialized),
            self.raffle is Some && (!(self.spec_raffle().status == RaffleStatus::Finalized
                || self.spec_raffle().status == RaffleStatus::Claimed) || self.fairness_record is None)
                ==> r matches Err(Error::InvalidStateTransition),
            r is Ok <==> self.raffle is Some && (self.spec_raffle().status == RaffleStatus::Finalized
                || self.spec_raffle().status == RaffleStatus::Claimed) && self.fairness_record is Some,
            r matches Ok(d) ==> ({
                let rec = self.fairness_record->0;
                &&& d.seed == rec.seed
                &&& d.randomness_source == shared_source(rec.randomness_source)
                &&& rec.randomness_source == RandomnessSource::Internal ==> d.randomness_source == crate::shared::RandomnessSource::Internal
                &&& rec.randomness_source == RandomnessSource::External ==> d.randomness_source == crate::shared::RandomnessSource::External
                &&& rec.randomness_source == RandomnessSource::CommitReveal
                    ==> d.randomness_source == crate::shared::RandomnessSource::CommitReveal
                &&& d.ticket_ids@ == tickets_in(self.tickets@, 0, self.next_ticket_id as int).map_values(|t: Ticket| t.id)
                &&& d.winning_ticket_indices@ == rec.winning_ticket_indices@
                &&& d.draw_timestamp == rec.draw_timestamp
                &&& d.draw_sequence == rec.draw_sequence
            }),
    {
        match &self.raffle {
            None => return Err(Error::NotInitialized),
            Some(raffle) => {
                if raffle.status != RaffleStatus::Finalized && raffle.status != RaffleStatus::Claimed {
                    return Err(Error::InvalidStateTransition);
                }
            },
        }
        let rec = match &self.fairness_record {
            Some(rec) => rec,
            None => return Err(Error::InvalidStateTransition),
        };
        let tickets = self.read_tickets();
        let mut ticket_ids: Vec<u32> = Vec::new();
        let mut i: usize = 0;
        while i < tickets.len()
            invariant
                i <= tickets@.len(),
                ticket_ids@ == tickets@.take(i as int).map_values(|t: Ticket| t.id),
            decreases tickets@.len() - i,
        {
            ticket_ids.push(tickets[i].id);
            i = i + 1;
            assert(ticket_ids@ =~= tickets@.take(i as int).map_values(|t: Ticket| t.id));
        }
        assert(tickets@.take(tickets@.len() as int) =~= tickets@);
        Ok(crate::shared::FairnessData {
            seed: rec.seed,
            randomness_source: to_shared_source(rec.randomness_source),
            ticket_ids,
            winning_ticket_indices: copy_indices(&rec.winning_ticket_indices),
            draw_timestamp: rec.draw_timestamp,
            draw_sequence: rec.draw_sequence,
        })
    }

    /// The factory pauses the instance.
    pub fn pause(&mut self) -> (r: Result<(), Error>)
        ensures
            old(self).factory is None ==> r == Err::<(), Error>(Error::NotAuthorized) && *final(self) == *old(self),
            old(self).factory is Some ==> r is Ok && *final(self) == (Contract { paused: true, ..*old(self) }),
    {
        if self.factory.is_none() {
            return Err(Error::NotAuthorized);
        }
        self.paused = true;
        Ok(())
    }

    /// The factory unpauses the instance.
    pub fn unpause(&mut self) -> (r: Result<(), Error>)
        ensures
            old(self).factory is None ==> r == Err::<(), Error>(Error::NotAuthorized) && *final(self) == *old(self),
            old(self).factory is Some ==> r is Ok && *final(self) == (Contract { paused: false, ..*old(self) }),
    {
        if self.factory.is_none() {
            return Err(Error::NotAuthorized);
        }
        self.paused = false;
        Ok(())
    }

    /// Whether the instance is paused.
    pub fn is_paused(&self) -> (b: bool)
        ensures
            b == self.paused,
    {
        self.paused
    }

    /// The admin sends the accumulated fees to the raffle's treasury.
    /// Returns the amount and the transfer (none when nothing accumulated).
    pub fn withdraw_fees(&mut self) -> (r: Result<(i128, Option<Transfer>), Error>)
        ensures
            old(self).paused ==> r == Err::<(i128, Option<Transfer>), Error>(Error::ContractPaused),
            !old(self).paused && old(self).admin is None ==> r == Err::<(i128, Option<Transfer>), Error>(Error::NotAuthorized),
            !old(self).paused && old(self).admin is Some && old(self).raffle is None
                ==> r == Err::<(i128, Option<Transfer>), Error>(Error::NotInitialized),
            !old(self).paused && old(self).admin is Some && old(self).raffle is Some && old(self).spec_raffle().treasury_address is None
                ==> r == Err::<(i128, Option<Transfer>), Error>(Error::InvalidParameters),
            r is Ok <==> !old(self).paused && old(self).admin is Some && old(self).raffle is Some
                && old(self).spec_raffle().treasury_address is Some,
            r is Err ==> *final(self) == *old(self),
            r is Ok && old(self).accumulated_fees <= 0 ==> r == Ok::<(i128, Option<Transfer>), Error>((0, None)) && *final(self) == *old(self),
            r is Ok && old(self).accumulated_fees > 0 ==> ({
                let raffle = old(self).spec_raffle();
                &&& r == Ok::<(i128, Option<Transfer>), Error>((old(self).accumulated_fees, Some(Transfer {
                    token: raffle.payment_token,
                    from: old(self).self_address,
                    to: raffle.treasury_address->0,
                    amount: old(self).accumulated_fees,
                })))
                &&& *final(self) == (Contract { accumulated_fees: 0, ..*old(self) })
            }),
    {
        if self.paused {
            return Err(Error::ContractPaused);
        }
        if self.admin.is_none() {
            return Err(Error::NotAuthorized);
        }
        let (treasury, token) = match &self.raffle {
            None => return Err(Error::NotInitialized),
            Some(raffle) => match raffle.treasury_address {
                Some(t) => (t, raffle.payment_token),
                None => return Err(Error::InvalidParameters),
            },
        };
        let accumulated = self.accumulated_fees;
        if accumulated <= 0 {
            return Ok((0, None));
        }
        self.accumulated_fees = 0;
        Ok((accumulated, Some(Transfer { token, from: self.self_address, to: treasury, amount: accumulated })))
    }

    /// Fees accumulated by the instance.
    pub fn get_accumulated_fees(&self) -> (v: i128)
        ensures
            v == self.accumulated_fees,
    {
        self.accumulated_fees
    }

    /// The factory replaces the admin.
    pub fn set_admin(&mut self, new_admin: Address) -> (r: Result<(), Error>)
        ensures
            old(self).factory is None ==> r == Err::<(), Error>(Error::NotAuthorized) && *final(self) == *old(self),
            old(self).factory is Some ==> r is Ok && *final(self) == (Contract { admin: Some(new_admin), ..*old(self) }),
    {
        if self.factory.is_none() {
            return Err(Error::NotAuthorized);
        }
        self.admin = Some(new_admin);
        Ok(())
    }

    /// When the raffle reached its end (finalized, cancelled or first claim).
    pub fn get_finish_time(&self) -> (t: Option<u64>)
        ensures
            t == self.finish_time,
    {
        self.finish_time
    }

    /// The factory erases the instance's storage: the sold tickets and their
    /// refund marks, the holdings of every ticket holder, the finish time,
    /// the raffle, the ticket counter, the pause flag, the guard, the factory
    /// and the admin.
    pub fn wipe_storage(&mut self) -> (r: Result<(), Error>)
        ensures
            old(self).factory is None ==> r == Err::<(), Error>(Error::NotAuthorized),
            old(self).factory is Some && old(self).raffle is None ==> r == Err::<(), Error>(Error::NotInitialized),
            r is Ok <==> old(self).factory is Some && old(self).raffle is Some,
            r is Err ==> *final(self) == *old(self),
            r is Ok ==> ({
                let sold = old(self).spec_raffle().tickets_sold;
                let sold_ids = Set::new(|id: u32| 1 <= id <= sold);
                &&& final(self).tickets@ == old(self).tickets@.remove_keys(sold_ids)
                &&& final(self).refund_status@ == old(self).refund_status@.remove_keys(sold_ids)
                &&& final(self).ticket_counts@ == old(self).ticket_counts@.remove_keys(
                    ticket_owners(old(self).tickets@, old(self).next_ticket_id))
                &&& *final(self) == (Contract {
                    tickets: final(self).tickets,
                    refund_status: final(self).refund_status,
                    ticket_counts: final(self).ticket_counts,
                    finish_time: None,
                    raffle: None,
                    next_ticket_id: 0,
                    paused: false,
                    reentrancy_guard: false,
                    factory: None,
                    admin: None,
                    ..*old(self)
                })
            }),
    {
        if self.factory.is_none() {
            return Err(Error::NotAuthorized);
        }
        let sold = match &self.raffle {
            None => return Err(Error::NotInitialized),
            Some(raffle) => raffle.tickets_sold,
        };
        let tickets_list = self.read_tickets();
        let ghost pre = *self;
        let mut n: u32 = 0;
        while n < sold
            invariant
                n <= sold,
                self.tickets@ == pre.tickets@.remove_keys(Set::new(|id: u32| 1 <= id <= n)),
                self.refund_status@ == pre.refund_status@.remove_keys(Set::new(|id: u32| 1 <= id <= n)),
                *self == (Contract { tickets: self.tickets, refund_status: self.refund_status, ..pre }),
            decreases sold - n,
        {
            n = n + 1;
            let _ = self.tickets.remove(&n);
            let _ = self.refund_status.remove(&n);
            assert(self.tickets@ =~= pre.tickets@.remove_keys(Set::new(|id: u32| 1 <= id <= n)));
            assert(self.refund_status@ =~= pre.refund_status@.remove_keys(Set::new(|id: u32| 1 <= id <= n)));
        }
        let ghost mid = *self;
        let mut i: usize = 0;
        while i < tickets_list.len()
            invariant
                i <= tickets_list@.len(),
                self.ticket_counts@ == mid.ticket_counts@.remove_keys(listed_owners(tickets_list@, i as int)),
                *self == (Contract { ticket_counts: self.ticket_counts, ..mid }),
            decreases tickets_list@.len() - i,
        {
            let owner = tickets_list[i].owner;
            let _ = self.ticket_counts.remove(&owner);
            proof {
                lemma_listed_owners_step(tickets_list@, i as int);
            }
            i = i + 1;
            assert(self.ticket_counts@ =~= mid.ticket_counts@.remove_keys(listed_owners(tickets_list@, i as int)));
        }
        proof {
            lemma_tickets_in_owners(pre.tickets@, pre.next_ticket_id);
            assert(listed_owners(tickets_list@, tickets_list@.len() as int) =~= ticket_owners(pre.tickets@, pre.next_ticket_id));
        }
        self.finish_time = None;
        self.raffle = None;
        self.next_ticket_id = 0;
        self.paused = false;
        self.reentrancy_guard = false;
        self.factory = None;
        self.admin = None;
        Ok(())
    }

    /// How `post` follows from `pre` when `propose_admin(new_admin)` returns `r`.
    pub open spec fn admin_proposed(pre: Contract, post: Contract, new_admin: Address, r: Result<(), Error>) -> bool {
        &&& pre.admin is None ==> r == Err::<(), Error>(Error::NotAuthorized)
        &&& pre.admin == Some(new_admin) ==> r is Ok && post == (Contract { pending_admin: None, ..pre })
        &&& pre.admin is Some && pre.admin != Some(new_admin) ==> if pre.pending_admin is Some {
            r == Err::<(), Error>(Error::AdminTransferPending)
        } else {
            r is Ok && post == (Contract { pending_admin: Some(new_admin), ..pre })
        }
        &&& r is Err ==> post == pre
    }

    /// How `post` follows from `pre` when `accept_admin()` returns `r`.
    pub open spec fn admin_accepted(pre: Contract, post: Contract, r: Result<Address, Error>) -> bool {
        &&& pre.pending_admin is None ==> r == Err::<Address, Error>(Error::NoPendingTransfer)
        &&& pre.pending_admin is Some && pre.admin is None ==> r == Err::<Address, Error>(Error::NotAuthorized)
        &&& r is Ok <==> pre.pending_admin is Some && pre.admin is Some
        &&& r is Err ==> post == pre
        &&& r is Ok ==> r == Ok::<Address, Error>(pre.pending_admin->0)
            && post == (Contract { admin: pre.pending_admin, pending_admin: None, ..pre })
    }

    /// The admin proposes a successor, who must accept. Proposing the
    /// current admin withdraws any pending proposal.
    pub fn propose_admin(&mut self, new_admin: Address) -> (r: Result<(), Error>)
        ensures
            Contract::admin_proposed(*old(self), *final(self), new_admin, r),
    {
        let admin = match self.admin {
            Some(a) => a,
            None => return Err(Error::NotAuthorized),
        };
        if new_admin == admin {
            self.pending_admin = None;
            return Ok(());
        }
        if self.pending_admin.is_some() {
            return Err(Error::AdminTransferPending);
        }
        self.pending_admin = Some(new_admin);
        Ok(())
    }

    /// Same as `propose_admin`.
    pub fn transfer_ownership(&mut self, new_owner: Address) -> (r: Result<(), Error>)
        ensures
            Contract::admin_proposed(*old(self), *final(self), new_owner, r),
    {
        self.propose_admin(new_owner)
    }

    /// The proposed admin takes over. Returns the new admin.
    pub fn accept_admin(&mut self) -> (r: Result<Address, Error>)
        ensures
            Contract::admin_accepted(*old(self), *final(self), r),
    {
        let pending = match self.pending_admin {
            Some(p) => p,
            None => return Err(Error::NoPendingTransfer),
        };
        if self.admin.is_none() {
            return Err(Error::NotAuthorized);
        }
        self.admin = Some(pending);
        self.pending_admin = None;
        Ok(pending)
    }

    /// Same as `accept_admin`.
    pub fn accept_ownership(&mut self) -> (r: Result<Address, Error>)
        ensures
            Contract::admin_accepted(*old(self), *final(self), r),
    {
        self.accept_admin()
    }
}

/// Owners of the first `i` tickets of a list.
pub open spec fn listed_owners(s: Seq<Ticket>, i: int) -> Set<Address> {
    Set::new(|a: Address| exists|j: int| 0 <= j < i && #[trigger] s[j].owner == a)
}

proof fn lemma_listed_owners_step(s: Seq<Ticket>, i: int)
    requires
        0 <= i < s.len(),
    ensures
        listed_owners(s, i + 1) == listed_owners(s, i).insert(s[i].owner),
{
    assert forall|a: Address| listed_owners(s, i + 1).contains(a) implies listed_owners(s, i).insert(s[i].owner).contains(a) by {
        let j = choose|j: int| 0 <= j < i + 1 && #[trigger] s[j].owner == a;
        if j < i {
            assert(listed_owners(s, i).contains(a));
        }
    }
    assert forall|a: Address| listed_owners(s, i).insert(s[i].owner).contains(a) implies listed_owners(s, i + 1).contains(a) by {
        if a == s[i].owner {
            assert(s[i].owner == a);
        } else {
            let j = choose|j: int| 0 <= j < i && #[trigger] s[j].owner == a;
            assert(s[j].owner == a);
        }
    }
    assert(listed_owners(s, i + 1) =~= listed_owners(s, i).insert(s[i].owner));
}

/// The owners of the listed existing tickets are the owners of tickets `1 ..= n`.
proof fn lemma_tickets_in_owners(tickets: Map<u32, Ticket>, n: u32)
    ensures
        forall|a: Address| #[trigger] listed_owners(tickets_in(tickets, 0, n as int), tickets_in(tickets, 0, n as int).len() as int).contains(a)
            <==> ticket_owners(tickets, n).contains(a),
    decreases n,
{
    if n > 0 {
        let m = (n - 1) as u32;
        lemma_tickets_in_owners(tickets, m);
        let prev = tickets_in(tickets, 0, m as int);
        let cur = tickets_in(tickets, 0, n as int);
        assert forall|a: Address| #[trigger] listed_owners(cur, cur.len() as int).contains(a)
            <==> ticket_owners(tickets, n).contains(a) by {
            if exists|j: int| 0 <= j < cur.len() && #[trigger] cur[j].owner == a {
                let j = choose|j: int| 0 <= j < cur.len() && #[trigger] cur[j].owner == a;
                if j < prev.len() {
                    assert(prev[j] == cur[j]);
                    assert(listed_owners(prev, prev.len() as int).contains(a));
                    assert(ticket_owners(tickets, m).contains(a));
                    let id = choose|id: u32| 1 <= id <= m && #[trigger] tickets.contains_key(id) && tickets[id].owner == a;
                    assert(1 <= id <= n && tickets.contains_key(id));
                } else {
                    assert(tickets.contains_key(n) && tickets[n].owner == a);
                }
            }
            if ticket_owners(tickets, n).contains(a) {
                let id = choose|id: u32| 1 <= id <= n && #[trigger] tickets.contains_key(id) && tickets[id].owner == a;
                if id == n {
                    assert(cur[cur.len() - 1].owner == a);
                } else {
                    assert(ticket_owners(tickets, m).contains(a));
                    assert(listed_owners(prev, prev.len() as int).contains(a));
                    let j = choose|j: int| 0 <= j < prev.len() && #[trigger] prev[j].owner == a;
                    assert(cur[j] == prev[j]);
                }
            }
        }
    }
}

} // verus!
