//! Types and rules shared by the factory and the raffle instances.
use vstd::prelude::*;
use crate::address::Address;

verus! {

/// Default page size when callers request zero items.
pub const DEFAULT_PAGE_LIMIT: u32 = 100;

/// Hard maximum page size accepted by query helpers.
pub const MAX_PAGE_LIMIT: u32 = 200;

/// Claim lockup applied when a configuration leaves it at zero.
pub const DEFAULT_CLAIM_LOCKUP_SECONDS: u64 = 3_600;

/// Swap deadline window applied when a configuration leaves it at zero.
pub const DEFAULT_SWAP_DEADLINE_SECONDS: u64 = 300;

/// Number of raffles between two factory state checkpoints.
pub const CHECKPOINT_INTERVAL: u32 = 1000;

/// Highest protocol fee, in basis points, that the factory accepts.
pub const MAX_PROTOCOL_FEE_BP: u32 = 2_000;

/// Delay between proposing and executing an administrative change (48 hours).
pub const TIMELOCK_DELAY_SECONDS: u64 = 172_800;

/// What a contract call knows of the ledger it runs in.
#[derive(Clone, Copy, PartialEq, Eq, Structural, Debug)]
pub struct LedgerInfo {
    /// Close time of the ledger, in Unix seconds.
    pub timestamp: u64,
    /// Sequence number of the ledger.
    pub sequence: u32,
}

/// A token movement that a contract call asks the payment token to perform.
#[derive(Clone, Copy, PartialEq, Eq, Structural, Debug)]
pub struct Transfer {
    /// Token contract that moves the funds.
    pub token: Address,
    /// Account or contract that pays.
    pub from: Address,
    /// Account or contract that receives.
    pub to: Address,
    /// Amount in the token's base units.
    pub amount: i128,
}

/// Lifecycle state of a raffle instance.
///
/// Transitions are enforced by contract logic and represent the canonical
/// on-chain lifecycle used by indexers and clients.
#[derive(Clone, Copy, PartialEq, Eq, Structural, Debug)]
pub enum RaffleStatus {
    /// Raffle exists in storage but the creator has not yet deposited the prize.
    PendingPrize,
    /// Prize is funded and ticket sales are open.
    Active,
    /// Draw has started and randomness is pending or being processed.
    Drawing,
    /// Winners are selected and claims can be processed.
    Finalized,
    /// Raffle was cancelled before successful completion.
    Cancelled,
    /// Raffle failed terminally (for example, minimum ticket requirements unmet).
    Failed,
    /// Finalized raffle where all winners have completed claims.
    Claimed,
}

impl RaffleStatus {
    /// The numeric value under which the status is stored and published.
    pub fn code(&self) -> (c: u32)
        ensures
            c == match *self {
                RaffleStatus::PendingPrize => 6u32,
                RaffleStatus::Active => 0u32,
                RaffleStatus::Drawing => 1u32,
                RaffleStatus::Finalized => 2u32,
                RaffleStatus::Cancelled => 3u32,
                RaffleStatus::Failed => 4u32,
                RaffleStatus::Claimed => 5u32,
            },
    {
        match *self {
            RaffleStatus::PendingPrize => 6,
            RaffleStatus::Active => 0,
            RaffleStatus::Drawing => 1,
            RaffleStatus::Finalized => 2,
            RaffleStatus::Cancelled => 3,
            RaffleStatus::Failed => 4,
            RaffleStatus::Claimed => 5,
        }
    }
}

/// Canonical reason explaining why a raffle entered `Cancelled`.
#[derive(Clone, Copy, PartialEq, Eq, Structural, Debug)]
pub enum CancelReason {
    /// Cancellation requested by the raffle creator.
    CreatorCancelled,
    /// Administrative cancellation by protocol governance/admin.
    AdminCancelled,
    /// Oracle did not return randomness in time.
    OracleTimeout,
    /// Raffle cancelled because minimum ticket threshold was not met.
    MinTicketsNotMet,
}

impl CancelReason {
    /// The numeric value under which the reason is stored and published.
    pub fn code(&self) -> (c: u32)
        ensures
            c == match *self {
                CancelReason::CreatorCancelled => 0u32,
                CancelReason::AdminCancelled => 1u32,
                CancelReason::OracleTimeout => 2u32,
                CancelReason::MinTicketsNotMet => 3u32,
            },
    {
        match *self {
            CancelReason::CreatorCancelled => 0,
            CancelReason::AdminCancelled => 1,
            CancelReason::OracleTimeout => 2,
            CancelReason::MinTicketsNotMet => 3,
        }
    }
}

/// Canonical reason explaining why a raffle entered `Failed`.
#[derive(Clone, Copy, PartialEq, Eq, Structural, Debug)]
pub enum FailureReason {
    /// No tickets were sold before finalization.
    ZeroTicketsSold,
    /// Tickets sold were below the configured minimum requirement.
    MinTicketsNotMet,
}

impl FailureReason {
    /// The numeric value under which the reason is stored and published.
    pub fn code(&self) -> (c: u32)
        ensures
            c == match *self {
                FailureReason::ZeroTicketsSold => 0u32,
                FailureReason::MinTicketsNotMet => 1u32,
            },
    {
        match *self {
            FailureReason::ZeroTicketsSold => 0,
            FailureReason::MinTicketsNotMet => 1,
        }
    }
}

/// Source used to generate randomness for winner selection.
#[derive(Clone, Copy, PartialEq, Eq, Structural, Debug)]
pub enum RandomnessSource {
    /// Internal pseudo-randomness generated on-chain.
    Internal,
    /// External oracle-provided randomness.
    External,
    /// Commit-reveal based randomness source.
    CommitReveal,
}

impl RandomnessSource {
    /// The numeric value under which the source is stored and published.
    pub fn code(&self) -> (c: u32)
        ensures
            c == match *self {
                RandomnessSource::Internal => 0u32,
                RandomnessSource::External => 1u32,
                RandomnessSource::CommitReveal => 2u32,
            },
    {
        match *self {
            RandomnessSource::Internal => 0,
            RandomnessSource::External => 1,
            RandomnessSource::CommitReveal => 2,
        }
    }
}

/// Type/classification of randomness mechanism requested or received.
#[derive(Clone, Copy, PartialEq, Eq, Structural, Debug)]
pub enum RandomnessType {
    /// Pseudo-random sequence generated deterministically from chain context.
    Prng,
    /// Verifiable random function backed randomness.
    Vrf,
    /// Fallback path used when preferred randomness path is unavailable.
    Fallback,
}

impl RandomnessType {
    /// The numeric value under which the type is stored and published.
    pub fn code(&self) -> (c: u32)
        ensures
            c == match *self {
                RandomnessType::Prng => 0u32,
                RandomnessType::Vrf => 1u32,
                RandomnessType::Fallback => 2u32,
            },
    {
        match *self {
            RandomnessType::Prng => 0,
            RandomnessType::Vrf => 1,
            RandomnessType::Fallback => 2,
        }
    }
}

/// Configuration payload used when creating a new raffle.
///
/// Values are validated by contract initialization before the raffle becomes
/// active and represent the complete raffle policy surface.
pub struct RaffleConfig {
    /// Human-readable raffle description, as bytes.
    pub description: Vec<u8>,
    /// Unix timestamp when ticket sales close (ignored when `no_deadline` is true).
    pub end_time: u64,
    /// If true, raffle can remain open without a hard end timestamp.
    pub no_deadline: bool,
    /// Maximum number of tickets that can ever be sold.
    pub max_tickets: u32,
    /// Maximum tickets a single address may purchase per transaction.
    pub max_tickets_per_tx: u32,
    /// Minimum number of tickets required for a successful draw.
    pub min_tickets: u32,
    /// Whether one address may own multiple tickets.
    pub allow_multiple: bool,
    /// Price per ticket denominated in the payment token's base units.
    pub ticket_price: i128,
    /// Address of the token used to buy tickets.
    pub payment_token: Address,
    /// Total prize amount denominated in the same payment token.
    pub prize_amount: i128,
    /// Prize distribution vector in basis points per tier.
    pub prizes: Vec<u32>,
    /// Randomness source strategy selected for the raffle.
    pub randomness_source: RandomnessSource,
    /// Optional oracle contract address for external randomness flows.
    pub oracle_address: Option<Address>,
    /// Protocol fee in basis points (100 = 1%).
    pub protocol_fee_bp: u32,
    /// Optional treasury recipient address for protocol fees.
    pub treasury_address: Option<Address>,
    /// Optional router contract used when swap-based flows are enabled.
    pub swap_router: Option<Address>,
    /// Optional protocol token used in incentive/swap features.
    pub tikka_token: Option<Address>,
    /// SHA-256 hash of immutable off-chain metadata content.
    pub metadata_hash: [u8; 32],
    /// Seconds after finalization before winners may claim (0 means the default).
    pub claim_lockup_seconds: u64,
    /// Swap deadline window in seconds (0 means the default).
    pub swap_deadline_seconds: u64,
    /// The percentage of max_tickets covered by the early bird discount (0 to disable).
    pub early_bird_ticket_percentage: u32,
    /// The discount amount specified in basis points.
    pub early_bird_discount_bp: u32,
}

impl RaffleConfig {
    /// Fills the lockup and swap-deadline windows left at zero with their defaults.
    pub fn resolve_defaults(self) -> (r: Self)
        ensures
            r.claim_lockup_seconds == if self.claim_lockup_seconds == 0 {
                DEFAULT_CLAIM_LOCKUP_SECONDS
            } else {
                self.claim_lockup_seconds
            },
            r.swap_deadline_seconds == if self.swap_deadline_seconds == 0 {
                DEFAULT_SWAP_DEADLINE_SECONDS
            } else {
                self.swap_deadline_seconds
            },
            r == (RaffleConfig {
                claim_lockup_seconds: r.claim_lockup_seconds,
                swap_deadline_seconds: r.swap_deadline_seconds,
                ..self
            }),
    {
        let mut c = self;
        if c.claim_lockup_seconds == 0 {
            c.claim_lockup_seconds = DEFAULT_CLAIM_LOCKUP_SECONDS;
        }
        if c.swap_deadline_seconds == 0 {
            c.swap_deadline_seconds = DEFAULT_SWAP_DEADLINE_SECONDS;
        }
        c
    }
}

/// A purchased raffle ticket.
#[derive(Clone, Copy, PartialEq, Eq, Structural, Debug)]
pub struct Ticket {
    /// Monotonic ticket identifier scoped to a raffle.
    pub id: u32,
    /// Address that owns this ticket.
    pub owner: Address,
    /// Unix timestamp when the ticket was purchased.
    pub purchase_time: u64,
    /// Human-facing ticket number used in draw/result UX.
    pub ticket_number: u32,
}

/// Audit data proving how a draw outcome was derived.
pub struct FairnessData {
    /// Seed value used to derive final winner indices.
    pub seed: u64,
    /// Source used to generate the randomness seed.
    pub randomness_source: RandomnessSource,
    /// Ordered ticket identifiers considered in the draw.
    pub ticket_ids: Vec<u32>,
    /// Computed winning indices into `ticket_ids`.
    pub winning_ticket_indices: Vec<u32>,
    /// Unix timestamp when draw resolution occurred.
    pub draw_timestamp: u64,
    /// Sequence counter for draws/re-draws within the raffle.
    pub draw_sequence: u32,
}

/// Generic pagination request for list queries.
#[derive(Clone, Copy, PartialEq, Eq, Structural, Debug)]
pub struct PaginationParams {
    /// Maximum number of items requested by caller.
    pub limit: u32,
    /// Number of items to skip from the beginning of result set.
    pub offset: u32,
}

/// Paginated raffle address query result.
pub struct PageResultRaffles {
    /// Returned raffle addresses for the current page.
    pub items: Vec<Address>,
    /// Total number of raffles matching the query.
    pub total: u32,
    /// True when more records are available after this page.
    pub has_more: bool,
}

/// Paginated ticket query result.
pub struct PageResultTickets {
    /// Returned tickets for the current page.
    pub items: Vec<Ticket>,
    /// Total number of tickets matching the query.
    pub total: u32,
    /// True when more records are available after this page.
    pub has_more: bool,
}

/// Administrative operations that can be timelocked or proposed.
#[derive(Clone, Copy, Debug)]
pub enum AdminOp {
    /// Update the protocol fee (basis points) and the treasury address.
    SetConfig(u32, Address),
    /// Rotate target contract WASM hash for upgrades.
    UpdateWasmHash([u8; 32]),
}

/// Oracle randomness request payload sent to an oracle contract.
#[derive(Clone, Copy, PartialEq, Eq, Structural, Debug)]
pub struct RandomnessRequest {
    /// Target raffle contract identifier.
    pub raffle_id: Address,
    /// Unique request id used to correlate callback responses.
    pub request_id: u64,
    /// Callback contract address expected to receive randomness.
    pub callback_address: Address,
}

/// Basis points making up one whole (100%).
pub const BASIS_POINTS: i128 = 10_000;

/// Integer division rounding toward zero, as the machine divides, for a positive divisor.
pub open spec fn trunc_div(x: int, d: int) -> int {
    if x >= 0 {
        x / d
    } else {
        -((-x) / d)
    }
}

/// `x` divided by 10 000, rounding toward zero.
pub fn div_by_basis_points(x: i128) -> (q: i128)
    ensures
        q == trunc_div(x as int, 10_000),
{
    match x.checked_div(BASIS_POINTS) {
        Some(q) => q,
        None => {
            assert(false);
            0
        },
    }
}

/// Sum of a sequence of basis-point values.
pub open spec fn sum_u32(s: Seq<u32>) -> int
    decreases s.len(),
{
    if s.len() == 0 {
        0
    } else {
        sum_u32(s.drop_last()) + s.last()
    }
}

/// A prefix of a list of shares sums to no more than the whole list.
pub proof fn lemma_sum_prefix_le(s: Seq<u32>, n: int)
    requires
        0 <= n <= s.len(),
    ensures
        sum_u32(s.take(n)) <= sum_u32(s),
    decreases s.len(),
{
    if n == s.len() {
        assert(s.take(n) =~= s);
    } else {
        lemma_sum_prefix_le(s.drop_last(), n);
        assert(s.drop_last().take(n) =~= s.take(n));
    }
}

/// The sum of a list of prize shares, in basis points.
pub fn sum_prizes(prizes: &Vec<u32>) -> (t: u32)
    requires
        sum_u32(prizes@) <= u32::MAX,
    ensures
        t == sum_u32(prizes@),
{
    let mut total: u32 = 0;
    let mut i: usize = 0;
    while i < prizes.len()
        invariant
            i <= prizes@.len(),
            total == sum_u32(prizes@.take(i as int)),
            sum_u32(prizes@) <= u32::MAX,
        decreases prizes@.len() - i,
    {
        proof {
            lemma_sum_prefix_le(prizes@, i as int + 1);
            assert(prizes@.take(i as int + 1).drop_last() =~= prizes@.take(i as int));
        }
        total = total + prizes[i];
        i = i + 1;
    }
    assert(prizes@.take(prizes@.len() as int) =~= prizes@);
    total
}

/// Whether every byte of a 32-byte value is zero.
pub open spec fn all_zero(h: [u8; 32]) -> bool {
    forall|i: int| 0 <= i < 32 ==> h@[i] == 0u8
}

/// Whether a 32-byte value is all zeros (the unset sentinel).
pub fn is_all_zero(h: &[u8; 32]) -> (b: bool)
    ensures
        b == all_zero(*h),
{
    let mut i: usize = 0;
    while i < 32
        invariant
            i <= 32,
            forall|j: int| 0 <= j < i ==> h@[j] == 0u8,
        decreases 32 - i,
    {
        if h[i] != 0 {
            return false;
        }
        i = i + 1;
    }
    true
}

/// Whether two 32-byte values are equal.
pub fn same_hash(a: &[u8; 32], b: &[u8; 32]) -> (r: bool)
    ensures
        r == (a@ == b@),
{
    let mut i: usize = 0;
    while i < 32
        invariant
            i <= 32,
            forall|j: int| 0 <= j < i ==> a@[j] == b@[j],
        decreases 32 - i,
    {
        if a[i] != b[i] {
            return false;
        }
        i = i + 1;
    }
    assert(a@ =~= b@);
    true
}

/// The limit that a page request resolves to.
pub open spec fn spec_effective_limit(requested: u32) -> u32 {
    if requested == 0 {
        DEFAULT_PAGE_LIMIT
    } else if requested > MAX_PAGE_LIMIT {
        MAX_PAGE_LIMIT
    } else {
        requested
    }
}

/// Returns a safe pagination limit clamped to supported bounds.
pub fn effective_limit(requested: u32) -> (limit: u32)
    ensures
        limit == spec_effective_limit(requested),
        1 <= limit <= MAX_PAGE_LIMIT,
{
    if requested == 0 {
        DEFAULT_PAGE_LIMIT
    } else if requested > MAX_PAGE_LIMIT {
        MAX_PAGE_LIMIT
    } else {
        requested
    }
}

/// End (exclusive) of the window that a page request covers in a list of `len` slots.
pub open spec fn spec_page_end(offset: u32, limit: u32, len: u32) -> u32 {
    let lim = spec_effective_limit(limit);
    let sum = offset + lim;
    let capped: u32 = if sum > u32::MAX { u32::MAX } else { sum as u32 };
    if capped < len {
        capped
    } else {
        len
    }
}

/// End (exclusive) of the window `[offset, offset + effective_limit(limit))`,
/// saturating and capped at `len`.
pub fn page_end(offset: u32, limit: u32, len: u32) -> (end: u32)
    ensures
        end == spec_page_end(offset, limit, len),
        end <= len,
        offset < len ==> offset < end,
{
    let lim = effective_limit(limit);
    let capped = offset.saturating_add(lim);
    if capped < len {
        capped
    } else {
        len
    }
}

} // verus!
