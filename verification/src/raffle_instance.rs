//! The standalone raffle instance built on the shared configuration: raffle
//! creation with the full validation of a [`RaffleConfig`], prize deposit,
//! tiered prize claims in which the last tier takes the rounding remainder,
//! refunds, and the read-only views.
//!
//! As in the other modules, the host checks authorization, tells whether
//! the payment token answers as a token, and performs the returned transfers.
use vstd::prelude::*;
use crate::address::Address;
use crate::shared::{
    all_zero, is_all_zero, sum_prizes, sum_u32, trunc_div, FairnessData, LedgerInfo, RaffleConfig,
    RaffleStatus, RandomnessSource, Ticket, Transfer, DEFAULT_CLAIM_LOCKUP_SECONDS,
    DEFAULT_SWAP_DEADLINE_SECONDS,
};
use crate::table::Table;

verus! {

/// Longest accepted raffle description, in bytes.
pub const MAX_DESCRIPTION_LENGTH: u32 = 1000;

/// Most tickets a raffle may offer.
pub const MAX_TICKETS_LIMIT: u32 = 100_000;

/// Most prize tiers a raffle may have.
pub const MAX_PRIZES: u32 = 100;

/// Lowest accepted ticket price, in token base units.
pub const MIN_TICKET_PRICE: i128 = 10_000;

/// Largest accepted prize amount.
pub const MAX_PRIZE_AMOUNT: i128 = 1_000_000_000_000_000_000_000;

/// Longest accepted claim lockup (7 days).
pub const MAX_CLAIM_LOCKUP_SECONDS: u64 = 604_800;

/// Longest accepted swap deadline window (1 hour).
pub const MAX_SWAP_DEADLINE_SECONDS: u64 = 3_600;

/// The stored state of a raffle.
pub struct Raffle {
    pub creator: Address,
    pub description: Vec<u8>,
    pub end_time: u64,
    pub no_deadline: bool,
    pub max_tickets: u32,
    pub max_tickets_per_tx: u32,
    pub min_tickets: u32,
    pub allow_multiple: bool,
    pub ticket_price: i128,
    pub payment_token: Address,
    pub prize_amount: i128,
    /// Share of the prize of each tier, in basis points.
    pub prizes: Vec<u32>,
    pub tickets_sold: u32,
    pub status: RaffleStatus,
    pub prize_deposited: bool,
    pub winners: Vec<Address>,
    pub claimed_winners: Vec<bool>,
    pub randomness_source: RandomnessSource,
    pub oracle_address: Option<Address>,
    pub protocol_fee_bp: u32,
    pub treasury_address: Option<Address>,
    pub swap_router: Option<Address>,
    pub tikka_token: Option<Address>,
    pub finalized_at: Option<u64>,
    pub claim_lockup_seconds: u64,
    pub swap_deadline_seconds: u64,
    pub ticket_sales_paused: bool,
    pub early_bird_ticket_percentage: u32,
    pub early_bird_discount_bp: u32,
}

/// What is kept of a draw so that it can be checked afterwards.
pub struct FairnessMetadata {
    pub seed: u64,
    pub randomness_source: RandomnessSource,
    pub winning_ticket_indices: Vec<u32>,
    pub draw_timestamp: u64,
    pub draw_sequence: u32,
}

/// Errors that the standalone instance returns.
#[derive(Clone, Copy, PartialEq, Eq, Structural, Debug)]
pub enum Error {
    RaffleNotFound,
    RaffleInactive,
    TicketsSoldOut,
    InsufficientFunds,
    NotAuthorized,
    OracleNotSet,
    RandomnessAlreadyRequested,
    NoRandomnessRequest,
    FallbackTooEarly,
    PrizeNotDeposited,
    PrizeAlreadyClaimed,
    PrizeAlreadyDeposited,
    NotWinner,
    ClaimTooEarly,
    InvalidParameters,
    InvalidQuantity,
    InvalidStatus,
    ContractPaused,
    InvalidStateTransition,
    RaffleExpired,
    InsufficientTickets,
    MultipleTicketsNotAllowed,
    NoTicketsSold,
    TicketNotFound,
    RaffleEnded,
    ArithmeticOverflow,
    AlreadyInitialized,
    NotInitialized,
    Reentrancy,
    TokenTransferFailed,
    NoActiveTickets,
    DeadlinePassed,
    SlippageExceeded,
    InvalidIndex,
    MorePrizesThanTickets,
    ZeroPrize,
    InvalidTokenAddress,
    TooManyPrizes,
    EmergencyTooEarly,
    InvalidTicketRange,
    InsufficientAccumulatedFees,
    PrizeConfigurationLocked,
    ExceedsMaxTicketsPerTx,
    DrawingAlreadyInProgress,
    InvalidStatusForDrawingTransition,
    DrawingAlreadyComplete,
    InvalidEndTime,
    InvalidAdminAddress,
    RandomnessTooEarly,
}

impl Error {
    /// The numeric code under which the error is reported to callers.
    pub fn code(&self) -> (c: u32)
        ensures
            c == match *self {
                Error::RaffleNotFound => 1u32,
                Error::RaffleInactive => 2u32,
                Error::TicketsSoldOut => 3u32,
                Error::InsufficientFunds => 4u32,
                Error::NotAuthorized => 5u32,
                Error::OracleNotSet => 6u32,
                Error::RandomnessAlreadyRequested => 7u32,
                Error::NoRandomnessRequest => 8u32,
                Error::FallbackTooEarly => 9u32,
                Error::PrizeNotDeposited => 11u32,
                Error::PrizeAlreadyClaimed => 12u32,
                Error::PrizeAlreadyDeposited => 13u32,
                Error::NotWinner => 14u32,
                Error::ClaimTooEarly => 15u32,
                Error::InvalidParameters => 21u32,
                Error::InvalidQuantity => 22u32,
                Error::InvalidStatus => 23u32,
                Error::ContractPaused => 24u32,
                Error::InvalidStateTransition => 25u32,
                Error::RaffleExpired => 26u32,
                Error::InsufficientTickets => 31u32,
                Error::MultipleTicketsNotAllowed => 32u32,
                Error::NoTicketsSold => 33u32,
                Error::TicketNotFound => 34u32,
                Error::RaffleEnded => 35u32,
                Error::ArithmeticOverflow => 41u32,
                Error::AlreadyInitialized => 42u32,
                Error::NotInitialized => 43u32,
                Error::Reentrancy => 44u32,
                Error::TokenTransferFailed => 45u32,
                Error::NoActiveTickets => 46u32,
                Error::DeadlinePassed => 47u32,
                Error::SlippageExceeded => 48u32,
                Error::InvalidIndex => 49u32,
                Error::MorePrizesThanTickets => 50u32,
                Error::ZeroPrize => 51u32,
                Error::InvalidTokenAddress => 52u32,
                Error::TooManyPrizes => 53u32,
                Error::EmergencyTooEarly => 54u32,
                Error::InvalidTicketRange => 55u32,
                Error::InsufficientAccumulatedFees => 56u32,
                Error::PrizeConfigurationLocked => 57u32,
                Error::ExceedsMaxTicketsPerTx => 58u32,
                Error::DrawingAlreadyInProgress => 59u32,
                Error::InvalidStatusForDrawingTransition => 60u32,
                Error::DrawingAlreadyComplete => 61u32,
                Error::InvalidEndTime => 62u32,
                Error::InvalidAdminAddress => 63u32,
                Error::RandomnessTooEarly => 64u32,
            },
    {
        match *self {
            Error::RaffleNotFound => 1,
            Error::RaffleInactive => 2,
            Error::TicketsSoldOut => 3,
            Error::InsufficientFunds => 4,
            Error::NotAuthorized => 5,
            Error::OracleNotSet => 6,
            Error::RandomnessAlreadyRequested => 7,
            Error::NoRandomnessRequest => 8,
            Error::FallbackTooEarly => 9,
            Error::PrizeNotDeposited => 11,
            Error::PrizeAlreadyClaimed => 12,
            Error::PrizeAlreadyDeposited => 13,
            Error::NotWinner => 14,
            Error::ClaimTooEarly => 15,
            Error::InvalidParameters => 21,
            Error::InvalidQuantity => 22,
            Error::InvalidStatus => 23,
            Error::ContractPaused => 24,
            Error::InvalidStateTransition => 25,
            Error::RaffleExpired => 26,
            Error::InsufficientTickets => 31,
            Error::MultipleTicketsNotAllowed => 32,
            Error::NoTicketsSold => 33,
            Error::TicketNotFound => 34,
            Error::RaffleEnded => 35,
            Error::ArithmeticOverflow => 41,
            Error::AlreadyInitialized => 42,
            Error::NotInitialized => 43,
            Error::Reentrancy => 44,
            Error::TokenTransferFailed => 45,
            Error::NoActiveTickets => 46,
            Error::DeadlinePassed => 47,
            Error::SlippageExceeded => 48,
            Error::InvalidIndex => 49,
            Error::MorePrizesThanTickets => 50,
            Error::ZeroPrize => 51,
            Error::InvalidTokenAddress => 52,
            Error::TooManyPrizes => 53,
            Error::EmergencyTooEarly => 54,
            Error::InvalidTicketRange => 55,
            Error::InsufficientAccumulatedFees => 56,
            Error::PrizeConfigurationLocked => 57,
            Error::ExceedsMaxTicketsPerTx => 58,
            Error::DrawingAlreadyInProgress => 59,
            Error::InvalidStatusForDrawingTransition => 60,
            Error::DrawingAlreadyComplete => 61,
            Error::InvalidEndTime => 62,
            Error::InvalidAdminAddress => 63,
            Error::RandomnessTooEarly => 64,
        }
    }
}

/// A tier's share: `prize_amount * bp / 10 000`, rounded toward zero.
pub open spec fn tier_share(prize_amount: int, bp: int) -> int {
    trunc_div(prize_amount * bp, 10_000)
}

/// Sum of the shares of the first `n` tiers.
pub open spec fn shares_before(prize_amount: int, prizes: Seq<u32>, n: int) -> int
    decreases n,
{
    if n <= 0 {
        0
    } else {
        shares_before(prize_amount, prizes, n - 1) + tier_share(prize_amount, prizes[n - 1] as int)
    }
}

/// The prize of tier `tier`: its share, except that the last tier receives
/// whatever the other tiers leave, so that the tiers add up to the prize.
pub open spec fn tier_prize(prize_amount: int, prizes: Seq<u32>, tier: int) -> int {
    if tier == prizes.len() - 1 {
        prize_amount - shares_before(prize_amount, prizes, prizes.len() - 1)
    } else {
        tier_share(prize_amount, prizes[tier] as int)
    }
}

/// Whether every share and partial sum of shares before tier `n` fits in `i128`.
pub open spec fn shares_fit(prize_amount: int, prizes: Seq<u32>, n: int) -> bool {
    forall|i: int| 0 <= i < n ==> {
        &&& i128::MIN <= #[trigger] (prize_amount * prizes[i]) <= i128::MAX
        &&& i128::MIN <= shares_before(prize_amount, prizes, i + 1) <= i128::MAX
    }
}

/// Whether computing the prize of tier `tier` stays within `i128`.
pub open spec fn tier_prize_fits(prize_amount: int, prizes: Seq<u32>, tier: int) -> bool {
    if tier == prizes.len() - 1 {
        &&& shares_fit(prize_amount, prizes, prizes.len() - 1)
        &&& i128::MIN <= prize_amount - shares_before(prize_amount, prizes, prizes.len() - 1) <= i128::MAX
    } else {
        0 <= tier < prizes.len() ==> i128::MIN <= prize_amount * prizes[tier] <= i128::MAX
    }
}

/// The prize of tier `tier_index` of a raffle. `InvalidIndex` for a tier
/// beyond the last; `ArithmeticOverflow` when a product or sum leaves `i128`.
pub fn calculate_tier_prize(raffle: &Raffle, tier_index: u32) -> (r: Result<i128, Error>)
    requires
        raffle.prizes@.len() > 0,
    ensures
        ({
            let p = raffle.prizes@;
            let amount = raffle.prize_amount as int;
            &&& tier_index >= p.len() ==> r == Err::<i128, Error>(Error::InvalidIndex)
            &&& tier_index < p.len() && tier_prize_fits(amount, p, tier_index as int)
                ==> r == Ok::<i128, Error>(tier_prize(amount, p, tier_index as int) as i128)
            &&& tier_index < p.len() && !tier_prize_fits(amount, p, tier_index as int)
                ==> r == Err::<i128, Error>(Error::ArithmeticOverflow)
        }),
{
    let last_tier_index = raffle.prizes.len() - 1;
    if tier_index as usize == last_tier_index {
        let ghost p = raffle.prizes@;
        let ghost amount = raffle.prize_amount as int;
        let mut allocated_before_last: i128 = 0;
        let mut i: usize = 0;
        while i < last_tier_index
            invariant
                i <= last_tier_index,
                last_tier_index == p.len() - 1,
                p == raffle.prizes@,
                amount == raffle.prize_amount,
                allocated_before_last == shares_before(amount, p, i as int),
                shares_fit(amount, p, i as int),
                tier_index as int == p.len() - 1,
            decreases last_tier_index - i,
        {
            let prize_bp = raffle.prizes[i];
            let product = match raffle.prize_amount.checked_mul(prize_bp as i128) {
                Some(x) => x,
                None => {
                    assert(!shares_fit(amount, p, p.len() - 1)) by {
                        assert(!(i128::MIN <= amount * p[i as int] <= i128::MAX));
                        assert(0 <= i < p.len() - 1);
                    }
                    return Err(Error::ArithmeticOverflow);
                },
            };
            let share = crate::shared::div_by_basis_points(product);
            allocated_before_last = match allocated_before_last.checked_add(share) {
                Some(x) => x,
                None => {
                    assert(!shares_fit(amount, p, p.len() - 1)) by {
                        assert(share == tier_share(amount, p[i as int] as int));
                        assert(shares_before(amount, p, i as int + 1) == shares_before(amount, p, i as int) + share);
                        assert(!(i128::MIN <= shares_before(amount, p, i as int + 1) <= i128::MAX));
                        assert(0 <= i < p.len() - 1);
                        assert(i128::MIN <= amount * p[i as int] <= i128::MAX);
                    }
                    return Err(Error::ArithmeticOverflow);
                },
            };
            i = i + 1;
        }
        return match raffle.prize_amount.checked_sub(allocated_before_last) {
            Some(x) => Ok(x),
            None => Err(Error::ArithmeticOverflow),
        };
    }
    if tier_index as usize >= raffle.prizes.len() {
        return Err(Error::InvalidIndex);
    }
    let prize_bp = raffle.prizes[tier_index as usize];
    match raffle.prize_amount.checked_mul(prize_bp as i128) {
        Some(x) => Ok(crate::shared::div_by_basis_points(x)),
        None => Err(Error::ArithmeticOverflow),
    }
}

/// The protocol fee withheld from a prize of `gross` at `fee_bp` basis
/// points: `gross * fee_bp / 10 000`, rounded toward zero.
pub open spec fn prize_fee(gross: int, fee_bp: u32) -> int {
    trunc_div(gross * fee_bp, 10_000)
}

/// Sum of the prizes of the first `n` tiers.
pub open spec fn prizes_before(prize_amount: int, prizes: Seq<u32>, n: int) -> int
    decreases n,
{
    if n <= 0 {
        0
    } else {
        prizes_before(prize_amount, prizes, n - 1) + tier_prize(prize_amount, prizes, n - 1)
    }
}

/// Below the last tier, the prizes are the tiers' shares.
proof fn lemma_prizes_before_are_shares(prize_amount: int, prizes: Seq<u32>, n: int)
    requires
        0 <= n < prizes.len(),
    ensures
        prizes_before(prize_amount, prizes, n) == shares_before(prize_amount, prizes, n),
    decreases n,
{
    if n > 0 {
        lemma_prizes_before_are_shares(prize_amount, prizes, n - 1);
    }
}

/// The prizes of all tiers add up exactly to the prize amount, whatever
/// the rounding of each share: the last tier takes the remainder.
pub proof fn law_tier_prizes_sum_to_prize(prize_amount: int, prizes: Seq<u32>)
    requires
        prizes.len() > 0,
    ensures
        prizes_before(prize_amount, prizes, prizes.len() as int) == prize_amount,
{
    lemma_prizes_before_are_shares(prize_amount, prizes, prizes.len() - 1);
}

/// Whether the status diagram leads from `a` to `b`, over zero or more of
/// its edges: `PendingPrize` to `Active`; `Active` to `Drawing`, `Cancelled`
/// or `Failed`; `Drawing` to `Finalized` or `Cancelled`; `Finalized` to
/// `Claimed` or `Cancelled`.
pub open spec fn status_step(a: RaffleStatus, b: RaffleStatus) -> bool {
    ||| a == b
    ||| a == RaffleStatus::PendingPrize && b != RaffleStatus::PendingPrize
    ||| a == RaffleStatus::Active && b != RaffleStatus::PendingPrize
    ||| a == RaffleStatus::Drawing && (b == RaffleStatus::Finalized || b == RaffleStatus::Claimed || b == RaffleStatus::Cancelled)
    ||| a == RaffleStatus::Finalized && (b == RaffleStatus::Claimed || b == RaffleStatus::Cancelled)
}

/// Whether a call that leaves `post` from `pre` moved the raffle's status
/// only as the status diagram allows.
pub open spec fn status_moved(pre: Contract, post: Contract) -> bool {
    pre.raffle is Some && post.raffle is Some ==> status_step(pre.spec_raffle().status, post.spec_raffle().status)
}

/// The standalone instance's storage.
pub struct Contract {
    /// This instance's own contract address.
    pub self_address: Address,
    pub raffle: Option<Raffle>,
    /// Tickets by id (1-based).
    pub tickets: Table<u32, Ticket>,
    /// Tickets whose price was refunded.
    pub ticket_refunded: Table<u32, bool>,
    pub factory: Option<Address>,
    pub admin: Option<Address>,
    pub paused: bool,
    pub reentrancy_guard: bool,
    /// Record of the draw, once there was one.
    pub fairness_record: Option<FairnessMetadata>,
    pub accumulated_fees: i128,
}

/// The first check that creating a raffle from `config` fails, if any.
pub open spec fn init_error(c: RaffleConfig, self_address: Address, now: u64, token_answers: bool) -> Option<Error> {
    let lockup = if c.claim_lockup_seconds == 0 { DEFAULT_CLAIM_LOCKUP_SECONDS } else { c.claim_lockup_seconds };
    let swap = if c.swap_deadline_seconds == 0 { DEFAULT_SWAP_DEADLINE_SECONDS } else { c.swap_deadline_seconds };
    if c.description@.len() > MAX_DESCRIPTION_LENGTH {
        Some(Error::InvalidParameters)
    } else if !c.no_deadline && c.end_time <= now {
        Some(Error::InvalidParameters)
    } else if c.max_tickets == 0 || c.max_tickets > MAX_TICKETS_LIMIT {
        Some(Error::InvalidParameters)
    } else if c.max_tickets < c.min_tickets {
        Some(Error::InvalidTicketRange)
    } else if c.max_tickets_per_tx == 0 || c.max_tickets_per_tx > c.max_tickets {
        Some(Error::InvalidParameters)
    } else if c.ticket_price < MIN_TICKET_PRICE {
        Some(Error::InvalidParameters)
    } else if c.prize_amount < c.ticket_price {
        Some(Error::InvalidParameters)
    } else if c.prize_amount > MAX_PRIZE_AMOUNT {
        Some(Error::InvalidParameters)
    } else if c.prizes@.len() == 0 {
        Some(Error::InvalidParameters)
    } else if c.prizes@.len() > MAX_PRIZES {
        Some(Error::TooManyPrizes)
    } else if sum_u32(c.prizes@) != 10_000 {
        Some(Error::InvalidParameters)
    } else if c.protocol_fee_bp > 10_000 {
        Some(Error::InvalidParameters)
    } else if c.randomness_source == RandomnessSource::External
        && (c.oracle_address is None || c.oracle_address == Some(self_address)) {
        Some(Error::InvalidParameters)
    } else if c.randomness_source != RandomnessSource::External && c.oracle_address is Some {
        Some(Error::InvalidParameters)
    } else if all_zero(c.metadata_hash) {
        Some(Error::InvalidParameters)
    } else if !token_answers {
        Some(Error::InvalidTokenAddress)
    } else if lockup > MAX_CLAIM_LOCKUP_SECONDS {
        Some(Error::InvalidParameters)
    } else if swap > MAX_SWAP_DEADLINE_SECONDS {
        Some(Error::InvalidParameters)
    } else {
        None
    }
}

impl Contract {
    /// The raffle, which exists once `init` has run.
    pub open spec fn spec_raffle(&self) -> Raffle {
        self.raffle->0
    }

    /// Fresh, uninitialized storage at `self_address`.
    pub fn new(self_address: Address) -> (c: Self)
        ensures
            c.self_address == self_address,
            c.raffle is None,
            c.tickets@ == Map::<u32, Ticket>::empty(),
            c.ticket_refunded@ == Map::<u32, bool>::empty(),
            c.factory is None,
            c.admin is None,
            !c.paused,
            !c.reentrancy_guard,
            c.fairness_record is None,
            c.accumulated_fees == 0,
    {
        Contract {
            self_address,
            raffle: None,
            tickets: Table::new(),
            ticket_refunded: Table::new(),
            factory: None,
            admin: None,
            paused: false,
            reentrancy_guard: false,
            fairness_record: None,
            accumulated_fees: 0,
        }
    }

    /// Creates the raffle from a shared configuration, awaiting its prize.
    /// `token_answers` tells whether the payment token answered the host's
    /// decimals query. Zero lockup and swap windows take their defaults; with
    /// `no_deadline` the end time is ignored (stored as zero).
    pub fn init(
        &mut self,
        factory: Address,
        admin: Address,
        creator: Address,
        config: RaffleConfig,
        token_answers: bool,
        ledger: LedgerInfo,
    ) -> (r: Result<(), Error>)
        requires
            sum_u32(config.prizes@) <= u32::MAX,
        ensures
            old(self).raffle is Some ==> r == Err::<(), Error>(Error::AlreadyInitialized),
            old(self).raffle is None ==> match init_error(config, old(self).self_address, ledger.timestamp, token_answers) {
                Some(e) => r == Err::<(), Error>(e),
                None => r is Ok,
            },
            r is Err ==> *final(self) == *old(self),
            r is Ok ==> ({
                let raffle = final(self).spec_raffle();
                &&& final(self).raffle is Some
                &&& raffle == (Raffle {
                    creator,
                    description: raffle.description,
                    end_time: if config.no_deadline { 0 } else { config.end_time },
                    no_deadline: config.no_deadline,
                    max_tickets: config.max_tickets,
                    max_tickets_per_tx: config.max_tickets_per_tx,
                    min_tickets: config.min_tickets,
                    allow_multiple: config.allow_multiple,
                    ticket_price: config.ticket_price,
                    payment_token: config.payment_token,
                    prize_amount: config.prize_amount,
                    prizes: raffle.prizes,
                    tickets_sold: 0,
                    status: RaffleStatus::PendingPrize,
                    prize_deposited: false,
                    winners: raffle.winners,
                    claimed_winners: raffle.claimed_winners,
                    randomness_source: config.randomness_source,
                    oracle_address: config.oracle_address,
                    protocol_fee_bp: config.protocol_fee_bp,
                    treasury_address: config.treasury_address,
                    swap_router: config.swap_router,
                    tikka_token: config.tikka_token,
                    finalized_at: None,
                    claim_lockup_seconds: if config.claim_lockup_seconds == 0 { DEFAULT_CLAIM_LOCKUP_SECONDS } else { config.claim_lockup_seconds },
                    swap_deadline_seconds: if config.swap_deadline_seconds == 0 { DEFAULT_SWAP_DEADLINE_SECONDS } else { config.swap_deadline_seconds },
                    ticket_sales_paused: false,
                    early_bird_ticket_percentage: config.early_bird_ticket_percentage,
                    early_bird_discount_bp: config.early_bird_discount_bp,
                })
                &&& raffle.description@ == config.description@
                &&& raffle.prizes@ == config.prizes@
                &&& raffle.winners@.len() == 0
                &&& raffle.claimed_winners@.len() == 0
                &&& *final(self) == (Contract { raffle: final(self).raffle, factory: Some(factory), admin: Some(admin), ..*old(self) })
            }),
    {
        if self.raffle.is_some() {
            return Err(Error::AlreadyInitialized);
        }
        if config.description.len() > MAX_DESCRIPTION_LENGTH as usize {
            return Err(Error::InvalidParameters);
        }
        let now = ledger.timestamp;
        if !config.no_deadline && config.end_time <= now {
            return Err(Error::InvalidParameters);
        }
        if config.max_tickets == 0 || config.max_tickets > MAX_TICKETS_LIMIT {
            return Err(Error::InvalidParameters);
        }
        if config.max_tickets < config.min_tickets {
            return Err(Error::InvalidTicketRange);
        }
        if config.max_tickets_per_tx == 0 || config.max_tickets_per_tx > config.max_tickets {
            return Err(Error::InvalidParameters);
        }
        if config.ticket_price < MIN_TICKET_PRICE {
            return Err(Error::InvalidParameters);
        }
        if config.prize_amount < config.ticket_price {
            return Err(Error::InvalidParameters);
        }
        if config.prize_amount > MAX_PRIZE_AMOUNT {
            return Err(Error::InvalidParameters);
        }
        if config.prizes.len() == 0 {
            return Err(Error::InvalidParameters);
        }
        if config.prizes.len() > MAX_PRIZES as usize {
            return Err(Error::TooManyPrizes);
        }
        if sum_prizes(&config.prizes) != 10000 {
            return Err(Error::InvalidParameters);
        }
        if config.protocol_fee_bp > 10000 {
            return Err(Error::InvalidParameters);
        }
        if config.randomness_source == RandomnessSource::External {
            match config.oracle_address {
                None => return Err(Error::InvalidParameters),
                Some(addr) => {
                    if addr == self.self_address {
                        return Err(Error::InvalidParameters);
                    }
                },
            }
        }
        if config.randomness_source != RandomnessSource::External && config.oracle_address.is_some() {
            return Err(Error::InvalidParameters);
        }
        if is_all_zero(&config.metadata_hash) {
            return Err(Error::InvalidParameters);
        }
        if !token_answers {
            return Err(Error::InvalidTokenAddress);
        }
        let config = config.resolve_defaults();
        if config.claim_lockup_seconds > MAX_CLAIM_LOCKUP_SECONDS {
            return Err(Error::InvalidParameters);
        }
        if config.swap_deadline_seconds > MAX_SWAP_DEADLINE_SECONDS {
            return Err(Error::InvalidParameters);
        }
        let raffle = Raffle {
            creator,
            description: config.description,
            end_time: if config.no_deadline { 0 } else { config.end_time },
            no_deadline: config.no_deadline,
            max_tickets: config.max_tickets,
            max_tickets_per_tx: config.max_tickets_per_tx,
            min_tickets: config.min_tickets,
            allow_multiple: config.allow_multiple,
            ticket_price: config.ticket_price,
            payment_token: config.payment_token,
            prize_amount: config.prize_amount,
            prizes: config.prizes,
            tickets_sold: 0,
            status: RaffleStatus::PendingPrize,
            prize_deposited: false,
            winners: Vec::new(),
            claimed_winners: Vec::new(),
            randomness_source: config.randomness_source,
            oracle_address: config.oracle_address,
            protocol_fee_bp: config.protocol_fee_bp,
            treasury_address: config.treasury_address,
            swap_router: config.swap_router,
            tikka_token: config.tikka_token,
            finalized_at: None,
            claim_lockup_seconds: config.claim_lockup_seconds,
            swap_deadline_seconds: config.swap_deadline_seconds,
            ticket_sales_paused: false,
            early_bird_ticket_percentage: config.early_bird_ticket_percentage,
            early_bird_discount_bp: config.early_bird_discount_bp,
        };
        self.raffle = Some(raffle);
        self.factory = Some(factory);
        self.admin = Some(admin);
        Ok(())
    }

    /// The first check that a prize deposit fails, if any.
    pub open spec fn deposit_error(&self) -> Option<Error> {
        if self.paused {
            Some(Error::ContractPaused)
        } else if self.raffle is None {
            Some(Error::NotInitialized)
        } else if self.spec_raffle().prize_deposited {
            Some(Error::PrizeAlreadyDeposited)
        } else if self.spec_raffle().status != RaffleStatus::PendingPrize
            && self.spec_raffle().status != RaffleStatus::Active {
            Some(Error::InvalidStatus)
        } else {
            None
        }
    }

    /// The creator funds the prize of a `PendingPrize` raffle, which becomes
    /// `Active`; a finished raffle (cancelled, failed, drawn or claimed)
    /// cannot be funded again. Returns
    /// the creator's payment, which must succeed for the deposit to stand.
    pub fn deposit_prize(&mut self) -> (r: Result<Transfer, Error>)
        ensures
            status_moved(*old(self), *final(self)),
            r is Ok ==> final(self).deposit_error() == Some(Error::PrizeAlreadyDeposited),
            r is Err <==> old(self).deposit_error() is Some,
            r is Err ==> r == Err::<Transfer, Error>(old(self).deposit_error()->0) && *final(self) == *old(self),
            r is Ok ==> ({
                let raffle = old(self).spec_raffle();
                &&& r == Ok::<Transfer, Error>(Transfer {
                    token: raffle.payment_token,
                    from: raffle.creator,
                    to: old(self).self_address,
                    amount: raffle.prize_amount,
                })
                &&& *final(self) == (Contract {
                    raffle: Some(Raffle { prize_deposited: true, status: RaffleStatus::Active, ..raffle }),
                    ..*old(self)
                })
            }),
    {
        if self.paused {
            return Err(Error::ContractPaused);
        }
        let transfer = match &self.raffle {
            None => return Err(Error::NotInitialized),
            Some(raffle) => {
                if raffle.prize_deposited {
                    return Err(Error::PrizeAlreadyDeposited);
                }
                if raffle.status != RaffleStatus::PendingPrize && raffle.status != RaffleStatus::Active {
                    return Err(Error::InvalidStatus);
                }
                Transfer {
                    token: raffle.payment_token,
                    from: raffle.creator,
                    to: self.self_address,
                    amount: raffle.prize_amount,
                }
            },
        };
        let mut raffle = self.raffle.take().unwrap();
        raffle.prize_deposited = true;
        raffle.status = RaffleStatus::Active;
        self.raffle = Some(raffle);
        Ok(transfer)
    }

    /// The first check that a claim of tier `tier_index` by `winner` fails, if any.
    pub open spec fn claim_error(&self, winner: Address, tier_index: u32, now: u64) -> Option<Error> {
        let raffle = self.spec_raffle();
        let p = raffle.prizes@;
        let amount = raffle.prize_amount as int;
        if self.reentrancy_guard {
            Some(Error::Reentrancy)
        } else if self.raffle is None {
            Some(Error::NotInitialized)
        } else if raffle.status != RaffleStatus::Finalized {
            Some(Error::InvalidStatus)
        } else if raffle.finalized_at is Some && now < raffle.finalized_at->0 + raffle.claim_lockup_seconds {
            Some(Error::ClaimTooEarly)
        } else if tier_index >= raffle.winners@.len() {
            Some(Error::InvalidParameters)
        } else if raffle.winners@[tier_index as int] != winner {
            Some(Error::NotWinner)
        } else if tier_index >= raffle.claimed_winners@.len() {
            Some(Error::InvalidIndex)
        } else if raffle.claimed_winners@[tier_index as int] {
            Some(Error::PrizeAlreadyClaimed)
        } else if tier_index >= p.len() {
            Some(Error::InvalidIndex)
        } else if !tier_prize_fits(amount, p, tier_index as int) {
            Some(Error::ArithmeticOverflow)
        } else if tier_prize(amount, p, tier_index as int) <= 0 {
            Some(Error::ZeroPrize)
        } else if !(i128::MIN <= tier_prize(amount, p, tier_index as int) * raffle.protocol_fee_bp <= i128::MAX) {
            Some(Error::ArithmeticOverflow)
        } else if raffle.treasury_address is None && !(i128::MIN <= self.accumulated_fees
            + prize_fee(tier_prize(amount, p, tier_index as int), raffle.protocol_fee_bp) <= i128::MAX) {
            Some(Error::ArithmeticOverflow)
        } else {
            None
        }
    }

    /// A winner claims tier `tier_index` once the lockup after finalization
    /// has passed. The protocol fee is withheld from the tier's prize and
    /// goes to the treasury (or, without one, to the accumulated fees); the
    /// winner receives the rest. The tier is marked claimed; when every tier
    /// is claimed the raffle becomes `Claimed`. Returns the amount paid to the
    /// winner, that payout, and the fee's transfer to the treasury if any.
    pub fn claim_prize(&mut self, winner: Address, tier_index: u32, ledger: LedgerInfo) -> (r: Result<(i128, Transfer, Option<Transfer>), Error>)
        requires
            old(self).raffle is Some ==> old(self).spec_raffle().prizes@.len() > 0,
            old(self).raffle is Some && old(self).spec_raffle().finalized_at is Some ==>
                old(self).spec_raffle().finalized_at->0 + old(self).spec_raffle().claim_lockup_seconds <= u64::MAX,
        ensures
            status_moved(*old(self), *final(self)),
            r is Ok ==> forall|t: u64| #[trigger] final(self).claim_error(winner, tier_index, t) is Some,
            r is Err <==> old(self).claim_error(winner, tier_index, ledger.timestamp) is Some,
            r is Err ==> r == Err::<(i128, Transfer, Option<Transfer>), Error>(old(self).claim_error(winner, tier_index, ledger.timestamp)->0)
                && *final(self) == *old(self),
            r is Ok ==> ({
                let raffle = old(self).spec_raffle();
                let gross = tier_prize(raffle.prize_amount as int, raffle.prizes@, tier_index as int);
                let fee = prize_fee(gross, raffle.protocol_fee_bp);
                let net = gross - fee;
                let claimed = raffle.claimed_winners@.update(tier_index as int, true);
                let r1 = final(self).spec_raffle();
                &&& r == Ok::<(i128, Transfer, Option<Transfer>), Error>((net as i128, Transfer {
                    token: raffle.payment_token,
                    from: old(self).self_address,
                    to: winner,
                    amount: net as i128,
                }, if fee > 0 && raffle.treasury_address is Some {
                    Some(Transfer {
                        token: raffle.payment_token,
                        from: old(self).self_address,
                        to: raffle.treasury_address->0,
                        amount: fee as i128,
                    })
                } else {
                    None::<Transfer>
                }))
                &&& final(self).accumulated_fees == if fee > 0 && raffle.treasury_address is None {
                    old(self).accumulated_fees + fee
                } else {
                    old(self).accumulated_fees as int
                }
                &&& final(self).raffle is Some
                &&& r1.claimed_winners@ == claimed
                &&& r1 == (Raffle {
                    claimed_winners: r1.claimed_winners,
                    status: if (forall|i: int| 0 <= i < claimed.len() ==> #[trigger] claimed[i]) {
                        RaffleStatus::Claimed
                    } else {
                        raffle.status
                    },
                    ..raffle
                })
                &&& *final(self) == (Contract {
                    raffle: final(self).raffle,
                    accumulated_fees: final(self).accumulated_fees,
                    ..*old(self)
                })
            }),
    {
        if self.reentrancy_guard {
            return Err(Error::Reentrancy);
        }
        let amount = match &self.raffle {
            None => return Err(Error::NotInitialized),
            Some(raffle) => {
                if raffle.status != RaffleStatus::Finalized {
                    return Err(Error::InvalidStatus);
                }
                match raffle.finalized_at {
                    Some(fa) => {
                        if ledger.timestamp < fa + raffle.claim_lockup_seconds {
                            return Err(Error::ClaimTooEarly);
                        }
                    },
                    None => {},
                }
                if tier_index as usize >= raffle.winners.len() {
                    return Err(Error::InvalidParameters);
                }
                if raffle.winners[tier_index as usize] != winner {
                    return Err(Error::NotWinner);
                }
                if tier_index as usize >= raffle.claimed_winners.len() {
                    return Err(Error::InvalidIndex);
                }
                if raffle.claimed_winners[tier_index as usize] {
                    return Err(Error::PrizeAlreadyClaimed);
                }
                let amount = calculate_tier_prize(raffle, tier_index)?;
                if amount <= 0 {
                    return Err(Error::ZeroPrize);
                }
                amount
            },
        };
        let (fee_bp, treasury) = match &self.raffle {
            Some(raffle) => (raffle.protocol_fee_bp, raffle.treasury_address),
            None => (0, None),
        };
        let fee = match amount.checked_mul(fee_bp as i128) {
            Some(x) => crate::shared::div_by_basis_points(x),
            None => return Err(Error::ArithmeticOverflow),
        };
        let new_accumulated = if fee > 0 && treasury.is_none() {
            match self.accumulated_fees.checked_add(fee) {
                Some(x) => x,
                None => return Err(Error::ArithmeticOverflow),
            }
        } else {
            self.accumulated_fees
        };
        assert(amount - fee >= i128::MIN && amount - fee <= i128::MAX) by (nonlinear_arith)
            requires
                amount > 0,
                fee == trunc_div((amount * fee_bp) as int, 10_000),
                fee_bp >= 0;
        let mut raffle = self.raffle.take().unwrap();
        let ghost raffle0 = raffle;
        raffle.claimed_winners.set(tier_index as usize, true);
        let mut all_claimed = true;
        let mut i: usize = 0;
        while i < raffle.claimed_winners.len()
            invariant
                i <= raffle.claimed_winners@.len(),
                all_claimed == (forall|j: int| 0 <= j < i ==> #[trigger] raffle.claimed_winners@[j]),
            decreases raffle.claimed_winners@.len() - i,
        {
            if !raffle.claimed_winners[i] {
                all_claimed = false;
            }
            i = i + 1;
        }
        if all_claimed {
            raffle.status = RaffleStatus::Claimed;
        }
        let net = amount - fee;
        let transfer = Transfer { token: raffle.payment_token, from: self.self_address, to: winner, amount: net };
        let fee_transfer = match treasury {
            Some(t) => if fee > 0 {
                Some(Transfer { token: raffle.payment_token, from: self.self_address, to: t, amount: fee })
            } else {
                None
            },
            None => None,
        };
        assert(raffle == (Raffle {
            claimed_winners: raffle.claimed_winners,
            status: raffle.status,
            ..raffle0
        }));
        self.raffle = Some(raffle);
        self.accumulated_fees = new_accumulated;
        Ok((net, transfer, fee_transfer))
    }

    /// Takes the reentrancy guard. The host holds it while it performs the
    /// token transfers that an operation returned and releases it after, so
    /// that a token contract calling back into this instance meanwhile is
    /// refused with `Reentrancy` by every operation that moves funds.
    pub fn acquire_guard(&mut self) -> (r: Result<(), Error>)
        ensures
            old(self).reentrancy_guard ==> r == Err::<(), Error>(Error::Reentrancy) && *final(self) == *old(self),
            !old(self).reentrancy_guard ==> r is Ok && *final(self) == (Contract { reentrancy_guard: true, ..*old(self) }),
    {
        if self.reentrancy_guard {
            return Err(Error::Reentrancy);
        }
        self.reentrancy_guard = true;
        Ok(())
    }

    /// Releases the reentrancy guard.
    pub fn release_guard(&mut self)
        ensures
            *final(self) == (Contract { reentrancy_guard: false, ..*old(self) }),
    {
        self.reentrancy_guard = false;
    }

    /// The first check that a prize refund fails, if any.
    pub open spec fn refund_prize_error(&self) -> Option<Error> {
        let raffle = self.spec_raffle();
        if self.raffle is None {
            Some(Error::NotInitialized)
        } else if raffle.status != RaffleStatus::Cancelled && raffle.status != RaffleStatus::Failed {
            Some(Error::InvalidStatus)
        } else if !raffle.prize_deposited {
            Some(Error::PrizeNotDeposited)
        } else {
            None
        }
    }

    /// The creator takes back the prize of a cancelled or failed raffle.
    pub fn refund_prize(&mut self) -> (r: Result<Transfer, Error>)
        ensures
            status_moved(*old(self), *final(self)),
            r is Ok ==> final(self).refund_prize_error() == Some(Error::PrizeNotDeposited),
            r is Err <==> old(self).refund_prize_error() is Some,
            r is Err ==> r == Err::<Transfer, Error>(old(self).refund_prize_error()->0) && *final(self) == *old(self),
            old(self).raffle is Some && (old(self).spec_raffle().status == RaffleStatus::Failed
                || old(self).spec_raffle().status == RaffleStatus::Cancelled) && old(self).spec_raffle().prize_deposited
                ==> r == Ok::<Transfer, Error>(Transfer {
                    token: old(self).spec_raffle().payment_token,
                    from: old(self).self_address,
                    to: old(self).spec_raffle().creator,
                    amount: old(self).spec_raffle().prize_amount,
                }) && !final(self).spec_raffle().prize_deposited,
            old(self).raffle is Some && old(self).spec_raffle().status != RaffleStatus::Failed
                && old(self).spec_raffle().status != RaffleStatus::Cancelled
                ==> r == Err::<Transfer, Error>(Error::InvalidStatus),
            r is Ok ==> ({
                let raffle = old(self).spec_raffle();
                &&& r == Ok::<Transfer, Error>(Transfer {
                    token: raffle.payment_token,
                    from: old(self).self_address,
                    to: raffle.creator,
                    amount: raffle.prize_amount,
                })
                &&& *final(self) == (Contract { raffle: Some(Raffle { prize_deposited: false, ..raffle }), ..*old(self) })
            }),
    {
        let transfer = match &self.raffle {
            None => return Err(Error::NotInitialized),
            Some(raffle) => {
                if raffle.status != RaffleStatus::Cancelled && raffle.status != RaffleStatus::Failed {
                    return Err(Error::InvalidStatus);
                }
                if !raffle.prize_deposited {
                    return Err(Error::PrizeNotDeposited);
                }
                Transfer { token: raffle.payment_token, from: self.self_address, to: raffle.creator, amount: raffle.prize_amount }
            },
        };
        let mut raffle = self.raffle.take().unwrap();
        raffle.prize_deposited = false;
        self.raffle = Some(raffle);
        Ok(transfer)
    }

    /// The first check that a refund of ticket `ticket_id` fails, if any.
    pub open spec fn refund_ticket_error(&self, ticket_id: u32) -> Option<Error> {
        let raffle = self.spec_raffle();
        if self.raffle is None {
            Some(Error::NotInitialized)
        } else if raffle.status != RaffleStatus::Cancelled && raffle.status != RaffleStatus::Failed {
            Some(Error::InvalidStatus)
        } else if self.reentrancy_guard {
            Some(Error::Reentrancy)
        } else if !self.tickets@.contains_key(ticket_id) {
            Some(Error::TicketNotFound)
        } else if self.ticket_refunded@.contains_key(ticket_id) {
            Some(Error::PrizeAlreadyClaimed)
        } else {
            None
        }
    }

    /// The owner of a ticket of a cancelled or failed raffle gets the ticket
    /// price back, once. Returns the amount and the refund.
    pub fn refund_ticket(&mut self, ticket_id: u32) -> (r: Result<(i128, Transfer), Error>)
        ensures
            status_moved(*old(self), *final(self)),
            r is Ok ==> final(self).refund_ticket_error(ticket_id) == Some(Error::PrizeAlreadyClaimed),
            r is Err <==> old(self).refund_ticket_error(ticket_id) is Some,
            r is Err ==> r == Err::<(i128, Transfer), Error>(old(self).refund_ticket_error(ticket_id)->0)
                && *final(self) == *old(self),
            old(self).raffle is Some && (old(self).spec_raffle().status == RaffleStatus::Failed
                || old(self).spec_raffle().status == RaffleStatus::Cancelled) && !old(self).reentrancy_guard
                && old(self).tickets@.contains_key(ticket_id) && !old(self).ticket_refunded@.contains_key(ticket_id)
                ==> r == Ok::<(i128, Transfer), Error>((old(self).spec_raffle().ticket_price, Transfer {
                    token: old(self).spec_raffle().payment_token,
                    from: old(self).self_address,
                    to: old(self).tickets@[ticket_id].owner,
                    amount: old(self).spec_raffle().ticket_price,
                })),
            old(self).raffle is Some && old(self).spec_raffle().status != RaffleStatus::Failed
                && old(self).spec_raffle().status != RaffleStatus::Cancelled
                ==> r == Err::<(i128, Transfer), Error>(Error::InvalidStatus),
            old(self).ticket_refunded@.contains_key(ticket_id) ==> r is Err,
            r is Ok ==> ({
                let raffle = old(self).spec_raffle();
                &&& r == Ok::<(i128, Transfer), Error>((raffle.ticket_price, Transfer {
                    token: raffle.payment_token,
                    from: old(self).self_address,
                    to: old(self).tickets@[ticket_id].owner,
                    amount: raffle.ticket_price,
                }))
                &&& final(self).ticket_refunded@ == old(self).ticket_refunded@.insert(ticket_id, true)
                &&& *final(self) == (Contract { ticket_refunded: final(self).ticket_refunded, ..*old(self) })
            }),
    {
        let (price, token) = match &self.raffle {
            None => return Err(Error::NotInitialized),
            Some(raffle) => {
                if raffle.status != RaffleStatus::Cancelled && raffle.status != RaffleStatus::Failed {
                    return Err(Error::InvalidStatus);
                }
                (raffle.ticket_price, raffle.payment_token)
            },
        };
        if self.reentrancy_guard {
            return Err(Error::Reentrancy);
        }
        let owner = match self.tickets.get(&ticket_id) {
            Some(t) => t.owner,
            None => return Err(Error::TicketNotFound),
        };
        if self.ticket_refunded.contains(&ticket_id) {
            return Err(Error::PrizeAlreadyClaimed);
        }
        self.ticket_refunded.insert(ticket_id, true);
        Ok((price, Transfer { token, from: self.self_address, to: owner, amount: price }))
    }

    /// The raffle; `NotInitialized` before `init`.
    pub fn get_raffle(&self) -> (r: Result<&Raffle, Error>)
        ensures
            match self.raffle {
                Some(raffle) => r == Ok::<&Raffle, Error>(&raffle),
                None => r == Err::<&Raffle, Error>(Error::NotInitialized),
            },
    {
        match &self.raffle {
            Some(raffle) => Ok(raffle),
            None => Err(Error::NotInitialized),
        }
    }

    /// The draw record with the ids of all sold tickets (`1 ..= tickets_sold`).
    pub fn get_fairness_data(&self) -> (r: Result<FairnessData, Error>)
        ensures
            self.fairness_record is None ==> r matches Err(Error::InvalidStatus),
            self.fairness_record is Some && self.raffle is None ==> r matches Err(Error::NotInitialized),
            r is Ok <==> self.fairness_record is Some && self.raffle is Some,
            r matches Ok(d) ==> ({
                let rec = self.fairness_record->0;
                &&& d.seed == rec.seed
                &&& d.randomness_source == rec.randomness_source
                &&& d.ticket_ids@ == Seq::new(self.spec_raffle().tickets_sold as nat, |i: int| (i + 1) as u32)
                &&& d.winning_ticket_indices@ == rec.winning_ticket_indices@
                &&& d.draw_timestamp == rec.draw_timestamp
                &&& d.draw_sequence == rec.draw_sequence
            }),
    {
        let rec = match &self.fairness_record {
            Some(rec) => rec,
            None => return Err(Error::InvalidStatus),
        };
        let sold = match &self.raffle {
            Some(raffle) => raffle.tickets_sold,
            None => return Err(Error::NotInitialized),
        };
        let mut ticket_ids: Vec<u32> = Vec::new();
        let mut i: u32 = 0;
        while i < sold
            invariant
                i <= sold,
                ticket_ids@ == Seq::new(i as nat, |k: int| (k + 1) as u32),
            decreases sold - i,
        {
            i = i + 1;
            ticket_ids.push(i);
            assert(ticket_ids@ =~= Seq::new(i as nat, |k: int| (k + 1) as u32));
        }
        let mut indices: Vec<u32> = Vec::new();
        let mut j: usize = 0;
        while j < rec.winning_ticket_indices.len()
            invariant
                j <= rec.winning_ticket_indices@.len(),
                indices@ == rec.winning_ticket_indices@.take(j as int),
            decreases rec.winning_ticket_indices@.len() - j,
        {
            indices.push(rec.winning_ticket_indices[j]);
            j = j + 1;
            assert(indices@ =~= rec.winning_ticket_indices@.take(j as int));
        }
        assert(rec.winning_ticket_indices@.take(rec.winning_ticket_indices@.len() as int) =~= rec.winning_ticket_indices@);
        Ok(FairnessData {
            seed: rec.seed,
            randomness_source: rec.randomness_source,
            ticket_ids,
            winning_ticket_indices: indices,
            draw_timestamp: rec.draw_timestamp,
            draw_sequence: rec.draw_sequence,
        })
    }

    /// Whether the instance is paused.
    pub fn is_paused(&self) -> (b: bool)
        ensures
            b == self.paused,
    {
        self.paused
    }

    /// Whether ticket sales are paused (false before `init`).
    pub fn is_ticket_sales_paused(&self) -> (b: bool)
        ensures
            b == (self.raffle is Some && self.spec_raffle().ticket_sales_paused),
    {
        match &self.raffle {
            Some(raffle) => raffle.ticket_sales_paused,
            None => false,
        }
    }

    /// Fees accumulated by the instance.
    pub fn get_accumulated_fees(&self) -> (v: i128)
        ensures
            v == self.accumulated_fees,
    {
        self.accumulated_fees
    }
}

} // verus!
