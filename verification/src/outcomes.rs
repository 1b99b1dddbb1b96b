//! What the raffle operations are for, stated over their inputs: which
//! requests succeed, where fees and refunds go, and what a draw reports.
//! The laws speak of the inputs directly, and so also pin down the error,
//! fee and routing functions in whose terms the operations' contracts are
//! written.
use vstd::prelude::*;
use crate::address::Address;
use crate::crypto::sha256_digest;
use crate::factory::{ContractError, PreparedRaffle, RaffleFactory};
use crate::instance::{
    batch_fee, claim_fee, concluded, fee_route_of, issued_tickets, shared_source, spec_protocol_fee, status_step,
    tier_amount, ticket_fee, CancelReason, Contract, Error, FeeRoute, Raffle, RaffleStatus, RandomnessSource,
    CLAIM_DELAY_SECONDS, MIN_TICKET_PRICE, ORACLE_TIMEOUT_LEDGERS, RANDOMNESS_MIN_DELAY_LEDGERS,
};
use crate::raffle_instance::{
    init_error, prize_fee, status_step as standalone_step, tier_prize, tier_prize_fits, tier_share,
    Contract as Standalone, Error as StandaloneError, MAX_PRIZES, MIN_TICKET_PRICE as STANDALONE_MIN_PRICE,
};
use crate::shared::{
    all_zero, sum_u32, LedgerInfo, RaffleConfig, RaffleStatus as SharedStatus, RandomnessSource as SharedSource,
    Transfer, MAX_PROTOCOL_FEE_BP,
};

verus! {

/// Where a claim's protocol fee goes. A positive fee is never kept when it
/// has somewhere to go: with a swap router and a protocol token configured it
/// is burned in that token (swapped into it first when the raffle is paid in
/// another token); otherwise, with a treasury, it is sent there. It is kept by
/// the instance only when it is zero or nothing is configured, and whatever
/// route is taken carries exactly the fee.
pub proof fn law_claim_fee_destination(raffle: Raffle, instance: Address, fee: i128)
    ensures
        fee <= 0 ==> fee_route_of(raffle, instance, fee) == FeeRoute::Kept,
        fee > 0 && raffle.swap_router is Some && raffle.tikka_token is Some
            && raffle.payment_token == raffle.tikka_token->0
            ==> fee_route_of(raffle, instance, fee) == (FeeRoute::Burn { tikka_token: raffle.payment_token, amount: fee }),
        fee > 0 && raffle.swap_router is Some && raffle.tikka_token is Some
            && raffle.payment_token != raffle.tikka_token->0
            ==> fee_route_of(raffle, instance, fee) == (FeeRoute::SwapAndBurn {
                router: raffle.swap_router->0,
                payment_token: raffle.payment_token,
                tikka_token: raffle.tikka_token->0,
                amount: fee,
            }),
        fee > 0 && !(raffle.swap_router is Some && raffle.tikka_token is Some) && raffle.treasury_address is Some
            ==> fee_route_of(raffle, instance, fee) == (FeeRoute::Treasury {
                transfer: Transfer { token: raffle.payment_token, from: instance, to: raffle.treasury_address->0, amount: fee },
            }),
        fee > 0 && ((raffle.swap_router is Some && raffle.tikka_token is Some) || raffle.treasury_address is Some)
            ==> fee_route_of(raffle, instance, fee) != FeeRoute::Kept,
{
}

/// A draw's report names the source the draw was recorded with: an oracle
/// draw is reported as external, an internal draw as internal, a
/// commit-reveal draw as commit-reveal, and different sources are never
/// reported alike.
pub proof fn law_reported_source_is_recorded_source(s: RandomnessSource, t: RandomnessSource)
    ensures
        (shared_source(s) == SharedSource::External) <==> (s == RandomnessSource::External),
        (shared_source(s) == SharedSource::Internal) <==> (s == RandomnessSource::Internal),
        (shared_source(s) == SharedSource::CommitReveal) <==> (s == RandomnessSource::CommitReveal),
        shared_source(s) == shared_source(t) ==> s == t,
{
}

/// The holder of a ticket of a failed or cancelled standalone raffle can
/// always have it refunded, once: with the raffle in either state, the ticket
/// existing and not yet refunded and no transfer under way, the refund is
/// granted; a ticket already refunded is refused.
pub proof fn law_standalone_ticket_refund(c: Standalone, ticket_id: u32)
    ensures
        c.raffle is Some && (c.spec_raffle().status == SharedStatus::Failed || c.spec_raffle().status == SharedStatus::Cancelled)
            && c.tickets@.contains_key(ticket_id) && !c.ticket_refunded@.contains_key(ticket_id) && !c.reentrancy_guard
            ==> c.refund_ticket_error(ticket_id) is None,
        c.ticket_refunded@.contains_key(ticket_id) ==> c.refund_ticket_error(ticket_id) is Some,
        c.raffle is Some && c.spec_raffle().status != SharedStatus::Failed && c.spec_raffle().status != SharedStatus::Cancelled
            ==> c.refund_ticket_error(ticket_id) == Some(StandaloneError::InvalidStatus),
{
}

/// The creator of a failed or cancelled standalone raffle can always take
/// back a deposited prize, once: in either state with the prize deposited
/// the refund is granted; once taken back (or never deposited) it is refused,
/// and a raffle in any other state keeps its prize.
pub proof fn law_standalone_prize_refund(c: Standalone)
    ensures
        c.raffle is Some && (c.spec_raffle().status == SharedStatus::Failed || c.spec_raffle().status == SharedStatus::Cancelled)
            && c.spec_raffle().prize_deposited ==> c.refund_prize_error() is None,
        c.raffle is Some && !c.spec_raffle().prize_deposited ==> c.refund_prize_error() is Some,
        c.raffle is Some && c.spec_raffle().status != SharedStatus::Failed && c.spec_raffle().status != SharedStatus::Cancelled
            ==> c.refund_prize_error() == Some(StandaloneError::InvalidStatus),
{
}

/// The holder of a ticket of a cancelled or failed raffle, or of one whose
/// end time has passed without a draw, can have it refunded, once; a drawn
/// raffle's tickets are not refunded.
pub proof fn law_ticket_refund(c: Contract, ticket_id: u32, now: u64)
    ensures
        c.raffle is Some && (c.spec_raffle().status == RaffleStatus::Failed || c.spec_raffle().status == RaffleStatus::Cancelled
            || ((c.spec_raffle().status == RaffleStatus::Active || c.spec_raffle().status == RaffleStatus::Drawing)
                && c.spec_raffle().end_time != 0 && now > c.spec_raffle().end_time))
            && c.tickets@.contains_key(ticket_id) && !c.refund_status@.contains_key(ticket_id) && !c.reentrancy_guard
            ==> c.refund_ticket_error(ticket_id, now) is None,
        c.refund_status@.contains_key(ticket_id) && c.refund_status@[ticket_id] ==> c.refund_ticket_error(ticket_id, now) is Some,
        c.raffle is Some && (c.spec_raffle().status == RaffleStatus::Finalized || c.spec_raffle().status == RaffleStatus::Claimed
            || c.spec_raffle().status == RaffleStatus::PendingPrize) ==> c.refund_ticket_error(ticket_id, now) is Some,
{
}

/// The creator of a cancelled or failed raffle can take back a deposited
/// prize, once; in any other state the prize stays.
pub proof fn law_prize_refund(c: Contract)
    ensures
        c.raffle is Some && (c.spec_raffle().status == RaffleStatus::Failed || c.spec_raffle().status == RaffleStatus::Cancelled)
            && c.spec_raffle().prize_deposited ==> c.refund_prize_error() is None,
        c.raffle is Some && !c.spec_raffle().prize_deposited ==> c.refund_prize_error() is Some,
        c.raffle is Some && c.spec_raffle().status != RaffleStatus::Failed && c.spec_raffle().status != RaffleStatus::Cancelled
            ==> c.refund_prize_error() is Some,
{
}

/// A winner's claim is granted when it is due: on a finalized raffle whose
/// prize was deposited, for the winner of an unclaimed tier, from
/// `CLAIM_DELAY_SECONDS` after finalization on, with no transfer under way.
/// Anyone but the tier's winner, and a tier already claimed, are refused.
pub proof fn law_due_claim_is_granted(c: Contract, winner: Address, tier_index: u32, now: u64)
    ensures
        ({
            let r = c.spec_raffle();
            let since: u64 = if r.finalized_at is Some { r.finalized_at->0 } else { 0 };
            c.raffle is Some && r.status == RaffleStatus::Finalized && tier_index < r.winners@.len()
                && r.winners@[tier_index as int] == winner && !r.claimed_winners@[tier_index as int]
                && r.prize_deposited && now >= since + CLAIM_DELAY_SECONDS && !c.reentrancy_guard
                ==> c.claim_error(winner, tier_index, now) is None
        }),
        c.raffle is Some && tier_index < c.spec_raffle().winners@.len()
            && c.spec_raffle().winners@[tier_index as int] != winner ==> c.claim_error(winner, tier_index, now) is Some,
        c.raffle is Some && tier_index < c.spec_raffle().winners@.len()
            && c.spec_raffle().claimed_winners@[tier_index as int] ==> c.claim_error(winner, tier_index, now) is Some,
        c.raffle is Some && c.spec_raffle().status != RaffleStatus::Finalized ==> c.claim_error(winner, tier_index, now) is Some,
        c.raffle is Some && !c.spec_raffle().prize_deposited ==> c.claim_error(winner, tier_index, now) is Some,
        c.raffle is Some && c.spec_raffle().finalized_at is Some
            && now < c.spec_raffle().finalized_at->0 + CLAIM_DELAY_SECONDS ==> c.claim_error(winner, tier_index, now) is Some,
        c.reentrancy_guard ==> c.claim_error(winner, tier_index, now) is Some,
{
}

/// A tier's share is its basis points of the prize, rounded down: a tier of
/// 10 000 basis points gets the whole prize. The protocol fee on a share is
/// its basis points of the share, rounded down, and nothing at a zero rate.
pub proof fn law_claim_amounts(prize_amount: i128, tier_bp: u32, gross: int, fee_bp: u32)
    requires
        prize_amount >= 0,
        gross >= 0,
    ensures
        tier_amount(prize_amount, tier_bp) * 10_000 <= prize_amount * tier_bp,
        prize_amount * tier_bp < (tier_amount(prize_amount, tier_bp) + 1) * 10_000,
        tier_amount(prize_amount, 10_000) == prize_amount,
        claim_fee(gross, 0) == 0,
        fee_bp > 0 ==> claim_fee(gross, fee_bp) * 10_000 <= gross * fee_bp,
        fee_bp > 0 ==> gross * fee_bp < (claim_fee(gross, fee_bp) + 1) * 10_000,
{
    assert(prize_amount * tier_bp >= 0) by (nonlinear_arith)
        requires
            prize_amount >= 0;
    assert(gross * fee_bp >= 0) by (nonlinear_arith)
        requires
            gross >= 0;
}

/// A pending raffle whose prize is not yet deposited accepts the deposit; a
/// prize is never deposited twice, and a raffle past `PendingPrize` (active,
/// drawn, cancelled or failed) takes no deposit.
pub proof fn law_deposit(c: Contract)
    ensures
        c.raffle is Some && c.spec_raffle().status == RaffleStatus::PendingPrize && !c.spec_raffle().prize_deposited
            ==> c.deposit_error() is None,
        c.raffle is Some && c.spec_raffle().prize_deposited ==> c.deposit_error() == Some(Error::PrizeAlreadyDeposited),
        c.raffle is Some && c.spec_raffle().status != RaffleStatus::PendingPrize ==> c.deposit_error() is Some,
        c.raffle is None ==> c.deposit_error() == Some(Error::NotInitialized),
{
}

/// A purchase is sold when the raffle is active, funded, not paused and not
/// past its end time, the price is at least `MIN_TICKET_PRICE`, the batch
/// fits under the ticket limit (and the one-ticket rule, where it applies)
/// and its price fits in `i128`; a paused instance, an inactive or expired
/// raffle, a batch beyond the limit and a second ticket where only one is
/// allowed are refused.
pub proof fn law_purchase(c: Contract, buyer: Address, quantity: u32, now: u64)
    ensures
        ({
            let r = c.spec_raffle();
            !c.reentrancy_guard && c.raffle is Some && !c.paused && r.status == RaffleStatus::Active && r.prize_deposited
                && (r.end_time == 0 || now <= r.end_time) && r.ticket_price >= MIN_TICKET_PRICE
                && r.tickets_sold + quantity <= r.max_tickets
                && (r.allow_multiple || (c.spec_ticket_count(buyer) == 0 && quantity <= 1))
                && r.ticket_price * quantity <= i128::MAX
                ==> c.buy_error(buyer, quantity, now) is None
        }),
        c.raffle is Some && !c.reentrancy_guard && c.paused ==> c.buy_error(buyer, quantity, now) == Some(Error::ContractPaused),
        c.raffle is Some && c.spec_raffle().status != RaffleStatus::Active ==> c.buy_error(buyer, quantity, now) is Some,
        c.raffle is Some && !c.spec_raffle().prize_deposited ==> c.buy_error(buyer, quantity, now) is Some,
        c.raffle is Some && c.spec_raffle().end_time != 0 && now > c.spec_raffle().end_time
            ==> c.buy_error(buyer, quantity, now) is Some,
        c.raffle is Some && c.spec_raffle().tickets_sold + quantity > c.spec_raffle().max_tickets
            ==> c.buy_error(buyer, quantity, now) is Some,
        c.raffle is Some && !c.spec_raffle().allow_multiple && c.spec_ticket_count(buyer) > 0
            ==> c.buy_error(buyer, quantity, now) is Some,
        c.reentrancy_guard ==> c.buy_error(buyer, quantity, now) == Some(Error::Reentrancy),
{
}

/// The protocol fee on a ticket is its basis points of the price, rounded
/// down, and never more than the price: a rate of 100% or more takes the
/// whole price. A batch pays that fee once per ticket when the raffle has a
/// treasury, and no fee without one.
pub proof fn law_ticket_fee(raffle: Raffle, quantity: u32, price: int, fee_bp: u32)
    requires
        price >= 0,
    ensures
        0 <= ticket_fee(price, fee_bp) <= price,
        fee_bp < 10_000 ==> ticket_fee(price, fee_bp) * 10_000 <= price * fee_bp,
        fee_bp < 10_000 ==> price * fee_bp < (ticket_fee(price, fee_bp) + 1) * 10_000,
        fee_bp >= 10_000 ==> ticket_fee(price, fee_bp) == price,
        ticket_fee(price, 0) == 0,
        raffle.treasury_address is None ==> batch_fee(raffle, quantity) == 0,
        raffle.treasury_address is Some
            ==> batch_fee(raffle, quantity) == quantity * ticket_fee(raffle.ticket_price as int, raffle.protocol_fee_bp),
{
    assert(0 <= price * fee_bp) by (nonlinear_arith)
        requires
            price >= 0;
    assert(fee_bp < 10_000 ==> price * fee_bp / 10_000 <= price) by (nonlinear_arith)
        requires
            price >= 0;
    let f = ticket_fee(raffle.ticket_price as int, raffle.protocol_fee_bp);
    assert(f * quantity == quantity * f) by (nonlinear_arith);
}

/// A purchase of `quantity` tickets issues exactly the ids after the last
/// one issued, each a ticket of the buyer with that id, bought at `now`.
pub proof fn law_issued_tickets(next: u32, sold: u32, buyer: Address, now: u64, quantity: int, id: u32)
    ensures
        issued_tickets(next, sold, buyer, now, quantity).contains_key(id) <==> next < id && id <= next + quantity,
        issued_tickets(next, sold, buyer, now, quantity).contains_key(id) ==> ({
            let t = issued_tickets(next, sold, buyer, now, quantity)[id];
            &&& t.owner == buyer
            &&& t.id == id
            &&& t.purchase_time == now
        }),
{
}

/// An active raffle can be finalized once its end time has come or every
/// ticket is sold, and not before; a raffle that is not active cannot.
pub proof fn law_finalize(c: Contract, now: u64)
    ensures
        ({
            let r = c.spec_raffle();
            c.raffle is Some && r.status == RaffleStatus::Active
                && ((r.end_time != 0 && now >= r.end_time) || r.tickets_sold >= r.max_tickets)
                ==> c.finalize_error(now) is None
        }),
        ({
            let r = c.spec_raffle();
            c.raffle is Some && r.status == RaffleStatus::Active && !(r.end_time != 0 && now >= r.end_time)
                && r.tickets_sold < r.max_tickets ==> c.finalize_error(now) is Some
        }),
        c.raffle is Some && c.spec_raffle().status != RaffleStatus::Active ==> c.finalize_error(now) == Some(Error::InvalidStatus),
{
}

/// An oracle-drawn raffle with tickets sold and an oracle set can ask for
/// randomness once it is ended (or already drawing), and only once; a raffle
/// drawn otherwise never asks.
pub proof fn law_oracle_request(c: Contract, now: u64)
    ensures
        ({
            let r = c.spec_raffle();
            c.raffle is Some && r.randomness_source == RandomnessSource::External
                && (r.status == RaffleStatus::Drawing || (r.status == RaffleStatus::Active
                    && ((r.end_time != 0 && now >= r.end_time) || r.tickets_sold >= r.max_tickets)))
                && r.tickets_sold > 0 && r.oracle_address is Some && !c.randomness_requested
                ==> c.request_error(now) is None
        }),
        c.raffle is Some && c.spec_raffle().randomness_source != RandomnessSource::External
            ==> c.request_error(now) == Some(Error::InvalidParameters),
        c.randomness_requested ==> c.request_error(now) is Some,
        c.raffle is Some && c.spec_raffle().tickets_sold == 0 ==> c.request_error(now) is Some,
{
}

/// The oracle's answer to a pending request is accepted from
/// `RANDOMNESS_MIN_DELAY_LEDGERS` ledgers after the request on, when every
/// drawn index designates a sold ticket; an answer before that, or with no
/// request pending, or to a raffle that is not drawing, is refused.
pub proof fn law_oracle_answer(c: Contract, indices: Seq<u32>, sequence: u32)
    ensures
        ({
            let r = c.spec_raffle();
            c.raffle is Some && r.oracle_address is Some && r.status == RaffleStatus::Drawing
                && r.randomness_source == RandomnessSource::External && c.randomness_requested
                && (c.randomness_request_ledger is None
                    || sequence >= c.randomness_request_ledger->0 + RANDOMNESS_MIN_DELAY_LEDGERS)
                && c.next_ticket_id > 0
                && (forall|i: int| 0 <= i < indices.len() ==> c.tickets@.contains_key(#[trigger] (indices[i] + 1) as u32))
                ==> c.provide_error(indices, sequence) is None
        }),
        ({
            let r = c.spec_raffle();
            c.raffle is Some && r.oracle_address is Some && r.status == RaffleStatus::Drawing
                && r.randomness_source == RandomnessSource::External && c.randomness_requested
                && c.randomness_request_ledger is Some
                && sequence < c.randomness_request_ledger->0 + RANDOMNESS_MIN_DELAY_LEDGERS
                ==> c.provide_error(indices, sequence) == Some(Error::RandomnessTooEarly)
        }),
        !c.randomness_requested ==> c.provide_error(indices, sequence) is Some,
        c.raffle is Some && c.spec_raffle().status != RaffleStatus::Drawing ==> c.provide_error(indices, sequence) is Some,
{
}

/// When the oracle has not answered `ORACLE_TIMEOUT_LEDGERS` ledgers after
/// the request, the creator or the admin can draw without it; nobody else
/// can, and nobody can before the timeout.
pub proof fn law_oracle_fallback(c: Contract, caller: Address, ledger: LedgerInfo, indices: Seq<u32>)
    ensures
        ({
            let r = c.spec_raffle();
            c.raffle is Some && c.admin is Some && (caller == r.creator || caller == c.admin->0)
                && r.status == RaffleStatus::Drawing && c.randomness_requested && c.randomness_request_ledger is Some
                && ledger.sequence >= c.randomness_request_ledger->0 + ORACLE_TIMEOUT_LEDGERS
                && c.next_ticket_id > 0
                && (forall|i: int| 0 <= i < indices.len() ==> c.tickets@.contains_key(#[trigger] (indices[i] + 1) as u32))
                ==> c.fallback_error(caller, ledger, indices) is None
        }),
        c.raffle is Some && caller != c.spec_raffle().creator && (c.admin is None || caller != c.admin->0)
            ==> c.fallback_error(caller, ledger, indices) == Some(Error::NotAuthorized),
        c.randomness_request_ledger is Some && c.randomness_request_ledger->0 + ORACLE_TIMEOUT_LEDGERS <= u32::MAX
            && ledger.sequence < c.randomness_request_ledger->0 + ORACLE_TIMEOUT_LEDGERS
            ==> c.fallback_error(caller, ledger, indices) is Some,
{
}

/// What every draw leaves: the raffle finalized at the draw's time, tier `i`
/// won by the owner of the ticket at drawn index `i` (ticket id index + 1),
/// no tier claimed yet, one claim flag per tier, the draw recorded with its
/// seed, source and indices, and the tickets and the raffle's terms as they
/// were.
pub proof fn law_draw_result(
    pre: Contract,
    post: Contract,
    seed: u64,
    source: RandomnessSource,
    indices: Seq<u32>,
    ledger: LedgerInfo,
    note_winner_ticket: bool,
)
    requires
        concluded(pre, post, seed, source, indices, ledger, note_winner_ticket),
    ensures
        post.raffle is Some,
        post.spec_raffle().status == RaffleStatus::Finalized,
        post.spec_raffle().finalized_at == Some(ledger.timestamp),
        post.spec_raffle().winners@.len() == indices.len(),
        forall|i: int| 0 <= i < indices.len()
            ==> #[trigger] post.spec_raffle().winners@[i] == pre.tickets@[(indices[i] + 1) as u32].owner,
        post.spec_raffle().claimed_winners@.len() == pre.spec_raffle().prizes@.len(),
        forall|i: int| 0 <= i < post.spec_raffle().claimed_winners@.len() ==> !#[trigger] post.spec_raffle().claimed_winners@[i],
        post.fairness_record is Some,
        post.fairness_record->0.seed == seed,
        post.fairness_record->0.randomness_source == source,
        post.fairness_record->0.winning_ticket_indices@ == indices,
        post.fairness_record->0.draw_timestamp == ledger.timestamp,
        post.fairness_record->0.draw_sequence == ledger.sequence,
        post.tickets == pre.tickets,
        post.spec_raffle().prize_amount == pre.spec_raffle().prize_amount,
        post.spec_raffle().creator == pre.spec_raffle().creator,
        post.spec_raffle().payment_token == pre.spec_raffle().payment_token,
        post.spec_raffle().prizes == pre.spec_raffle().prizes,
        post.spec_raffle().prize_deposited == pre.spec_raffle().prize_deposited,
{
}

/// The protocol fee on an amount is its basis points of the amount, rounded
/// down, and the fee and the remainder add up to the amount.
pub proof fn law_protocol_fee(amount: int, fee_bp: int)
    requires
        amount >= 0,
        0 <= fee_bp <= 10_000,
    ensures
        spec_protocol_fee(amount, fee_bp).0 * 10_000 <= amount * fee_bp,
        amount * fee_bp < (spec_protocol_fee(amount, fee_bp).0 + 1) * 10_000,
        spec_protocol_fee(amount, fee_bp).0 + spec_protocol_fee(amount, fee_bp).1 == amount,
{
    assert(0 <= amount * fee_bp) by (nonlinear_arith)
        requires
            amount >= 0,
            fee_bp >= 0;
}

/// A participant of a drawing commit-reveal raffle commits once; a second
/// commitment, a raffle drawn otherwise and a paused instance are refused.
/// A committed participant reveals once, with a secret whose SHA-256 is the
/// committed hash, and any other secret is refused as a mismatch.
pub proof fn law_commit_reveal(c: Contract, participant: Address, secret: Seq<u8>)
    ensures
        ({
            let r = c.spec_raffle();
            !c.paused && c.raffle is Some && r.randomness_source == RandomnessSource::CommitReveal
                && r.status == RaffleStatus::Drawing && !c.commit_hashes@.contains_key(participant)
                ==> c.commit_error(participant) is None
        }),
        c.commit_hashes@.contains_key(participant) ==> c.commit_error(participant) is Some,
        c.raffle is Some && c.spec_raffle().randomness_source != RandomnessSource::CommitReveal
            ==> c.commit_error(participant) is Some && c.reveal_error(participant, secret) is Some,
        c.paused ==> c.commit_error(participant) == Some(Error::ContractPaused)
            && c.reveal_error(participant, secret) == Some(Error::ContractPaused),
        ({
            let r = c.spec_raffle();
            !c.paused && c.raffle is Some && r.randomness_source == RandomnessSource::CommitReveal
                && r.status == RaffleStatus::Drawing && c.commit_hashes@.contains_key(participant)
                && !c.revealed_secrets@.contains_key(participant)
                ==> (c.reveal_error(participant, secret) is None
                    <==> sha256_digest(secret) == c.commit_hashes@[participant]@)
                && (sha256_digest(secret) != c.commit_hashes@[participant]@
                    ==> c.reveal_error(participant, secret) == Some(Error::CommitHashMismatch))
        }),
        !c.commit_hashes@.contains_key(participant) ==> c.reveal_error(participant, secret) is Some,
        c.revealed_secrets@.contains_key(participant) ==> c.reveal_error(participant, secret) is Some,
{
}

/// A commit-reveal raffle is drawn once every commitment is revealed (or
/// nobody committed) and every drawn index designates a sold ticket; while a
/// reveal is outstanding it is not.
pub proof fn law_commit_reveal_draw(c: Contract, indices: Seq<u32>)
    ensures
        c.raffle is Some && c.spec_raffle().status == RaffleStatus::Drawing
            && (c.commit_count == 0 || c.reveal_count >= c.commit_count) && c.next_ticket_id > 0
            && (forall|i: int| 0 <= i < indices.len() ==> c.tickets@.contains_key(#[trigger] (indices[i] + 1) as u32))
            ==> c.commit_reveal_draw_error(indices) is None,
        c.raffle is Some && c.spec_raffle().status == RaffleStatus::Drawing && c.commit_count > 0
            && c.reveal_count < c.commit_count ==> c.commit_reveal_draw_error(indices) == Some(Error::CommitRevealNotReady),
        c.raffle is Some && c.spec_raffle().status != RaffleStatus::Drawing ==> c.commit_reveal_draw_error(indices) is Some,
{
}

/// The owner of a ticket can move it to anyone who may hold it; nobody
/// moves a ticket they do not own. After a move the ticket belongs to the
/// receiver, keeps its id, number and purchase time, loses its approval,
/// the receiver holds one more ticket, and every other ticket is as it was.
pub proof fn law_ticket_move(pre: Contract, post: Contract, from: Address, to: Address, token_id: u32)
    ensures
        pre.raffle is Some && pre.tickets@.contains_key(token_id) && pre.tickets@[token_id].owner == from
            && (pre.spec_raffle().allow_multiple || pre.spec_ticket_count(to) == 0)
            ==> pre.move_error(from, to, token_id) is None,
        pre.tickets@.contains_key(token_id) && pre.tickets@[token_id].owner != from
            ==> pre.move_error(from, to, token_id) == Some(Error::NotAuthorized),
        !pre.tickets@.contains_key(token_id) ==> pre.move_error(from, to, token_id) is Some,
        Contract::moved(pre, post, from, to, token_id) && pre.tickets@.contains_key(token_id) && from != to
            && pre.spec_ticket_count(to) < u32::MAX ==> {
            &&& post.tickets@.contains_key(token_id)
            &&& post.tickets@[token_id].owner == to
            &&& post.tickets@[token_id].id == pre.tickets@[token_id].id
            &&& post.tickets@[token_id].ticket_number == pre.tickets@[token_id].ticket_number
            &&& post.tickets@[token_id].purchase_time == pre.tickets@[token_id].purchase_time
            &&& !post.approved@.contains_key(token_id)
            &&& post.spec_ticket_count(to) == pre.spec_ticket_count(to) + 1
            &&& forall|id: u32| id != token_id ==> post.tickets@.contains_key(id) == pre.tickets@.contains_key(id)
                && (pre.tickets@.contains_key(id) ==> #[trigger] post.tickets@[id] == pre.tickets@[id])
            &&& post.raffle == pre.raffle
        },
{
}

/// Whose cancellation counts: the creator's for a creator cancellation, the
/// admin's for an admin cancellation, and the factory's otherwise.
pub proof fn law_cancel_authority(c: Contract, reason: CancelReason)
    ensures
        reason == CancelReason::CreatorCancelled ==> c.cancel_authority_spec(reason) == Some(c.spec_raffle().creator),
        reason == CancelReason::AdminCancelled ==> c.cancel_authority_spec(reason) == c.admin,
        reason != CancelReason::CreatorCancelled && reason != CancelReason::AdminCancelled
            ==> c.cancel_authority_spec(reason) == c.factory,
{
}

/// The status diagram of a raffle instance: `Cancelled`, `Failed` and
/// `Claimed` are final, nothing returns to `PendingPrize`, a finalized
/// raffle comes from an active or drawing one, and a raffle is only ever
/// claimed after it was drawn.
pub proof fn law_status_diagram(a: RaffleStatus, b: RaffleStatus)
    ensures
        status_step(a, a),
        a == RaffleStatus::Cancelled && status_step(a, b) ==> b == RaffleStatus::Cancelled,
        a == RaffleStatus::Failed && status_step(a, b) ==> b == RaffleStatus::Failed,
        a == RaffleStatus::Claimed && status_step(a, b) ==> b == RaffleStatus::Claimed,
        a != RaffleStatus::PendingPrize && status_step(a, b) ==> b != RaffleStatus::PendingPrize,
        status_step(a, RaffleStatus::Finalized) ==> a == RaffleStatus::Active || a == RaffleStatus::Drawing
            || a == RaffleStatus::Finalized,
        status_step(RaffleStatus::PendingPrize, RaffleStatus::Active),
        status_step(RaffleStatus::Active, RaffleStatus::Drawing),
        status_step(RaffleStatus::Drawing, RaffleStatus::Finalized),
        status_step(RaffleStatus::Finalized, RaffleStatus::Claimed),
        status_step(RaffleStatus::Active, RaffleStatus::Failed),
        !status_step(RaffleStatus::Finalized, RaffleStatus::Active),
        !status_step(RaffleStatus::Drawing, RaffleStatus::Active),
{
}

/// The status diagram of a standalone raffle: `Cancelled`, `Failed` and
/// `Claimed` are final, nothing returns to `PendingPrize`, and a raffle is
/// only ever claimed after it was drawn.
pub proof fn law_standalone_status_diagram(a: SharedStatus, b: SharedStatus)
    ensures
        standalone_step(a, a),
        a == SharedStatus::Cancelled && standalone_step(a, b) ==> b == SharedStatus::Cancelled,
        a == SharedStatus::Failed && standalone_step(a, b) ==> b == SharedStatus::Failed,
        a == SharedStatus::Claimed && standalone_step(a, b) ==> b == SharedStatus::Claimed,
        a != SharedStatus::PendingPrize && standalone_step(a, b) ==> b != SharedStatus::PendingPrize,
        standalone_step(SharedStatus::PendingPrize, SharedStatus::Active),
        standalone_step(SharedStatus::Finalized, SharedStatus::Claimed),
        !standalone_step(SharedStatus::Finalized, SharedStatus::Active),
        !standalone_step(SharedStatus::Drawing, SharedStatus::Active),
{
}

/// A standalone raffle that is not paused, pending or active, and whose
/// prize is not deposited yet, takes the deposit; a prize is never
/// deposited twice, and a finished raffle takes none.
pub proof fn law_standalone_deposit(c: Standalone)
    ensures
        !c.paused && c.raffle is Some && !c.spec_raffle().prize_deposited
            && (c.spec_raffle().status == SharedStatus::PendingPrize || c.spec_raffle().status == SharedStatus::Active)
            ==> c.deposit_error() is None,
        !c.paused && c.raffle is Some && c.spec_raffle().prize_deposited
            ==> c.deposit_error() == Some(StandaloneError::PrizeAlreadyDeposited),
        c.raffle is Some && (c.spec_raffle().status == SharedStatus::Cancelled || c.spec_raffle().status == SharedStatus::Failed
            || c.spec_raffle().status == SharedStatus::Finalized || c.spec_raffle().status == SharedStatus::Claimed)
            ==> c.deposit_error() is Some,
        c.paused ==> c.deposit_error() == Some(StandaloneError::ContractPaused),
{
}

/// A standalone winner's claim is granted once the lockup has passed, for
/// the winner of an unclaimed tier with a positive prize whose amounts fit;
/// anyone but the winner, a claimed tier, a claim before the lockup and a
/// raffle that is not finalized are refused.
pub proof fn law_standalone_claim(c: Standalone, winner: Address, tier_index: u32, now: u64)
    ensures
        ({
            let r = c.spec_raffle();
            let p = r.prizes@;
            let gross = tier_prize(r.prize_amount as int, p, tier_index as int);
            !c.reentrancy_guard && c.raffle is Some && r.status == SharedStatus::Finalized
                && (r.finalized_at is None || now >= r.finalized_at->0 + r.claim_lockup_seconds)
                && tier_index < r.winners@.len() && r.winners@[tier_index as int] == winner
                && tier_index < r.claimed_winners@.len() && !r.claimed_winners@[tier_index as int]
                && tier_index < p.len() && tier_prize_fits(r.prize_amount as int, p, tier_index as int)
                && gross > 0 && i128::MIN <= gross * r.protocol_fee_bp <= i128::MAX
                && (r.treasury_address is Some
                    || i128::MIN <= c.accumulated_fees + prize_fee(gross, r.protocol_fee_bp) <= i128::MAX)
                ==> c.claim_error(winner, tier_index, now) is None
        }),
        c.raffle is Some && tier_index < c.spec_raffle().winners@.len()
            && c.spec_raffle().winners@[tier_index as int] != winner ==> c.claim_error(winner, tier_index, now) is Some,
        c.raffle is Some && tier_index < c.spec_raffle().claimed_winners@.len()
            && c.spec_raffle().claimed_winners@[tier_index as int] ==> c.claim_error(winner, tier_index, now) is Some,
        c.raffle is Some && c.spec_raffle().finalized_at is Some
            && now < c.spec_raffle().finalized_at->0 + c.spec_raffle().claim_lockup_seconds
            ==> c.claim_error(winner, tier_index, now) is Some,
        c.raffle is Some && c.spec_raffle().status != SharedStatus::Finalized ==> c.claim_error(winner, tier_index, now) is Some,
{
}

/// A standalone tier's share is its basis points of the prize, rounded
/// down; every tier but the last gets its share, and the protocol fee on a
/// prize is its basis points of the prize, rounded down.
pub proof fn law_standalone_amounts(prize_amount: int, prizes: Seq<u32>, tier: int, gross: int, fee_bp: u32)
    requires
        prize_amount >= 0,
        gross >= 0,
    ensures
        forall|bp: int| 0 <= bp ==> #[trigger] tier_share(prize_amount, bp) * 10_000 <= prize_amount * bp
            && prize_amount * bp < (tier_share(prize_amount, bp) + 1) * 10_000,
        0 <= tier < prizes.len() - 1 ==> tier_prize(prize_amount, prizes, tier) == tier_share(prize_amount, prizes[tier] as int),
        prize_fee(gross, fee_bp) * 10_000 <= gross * fee_bp,
        gross * fee_bp < (prize_fee(gross, fee_bp) + 1) * 10_000,
        prize_fee(gross, 0) == 0,
{
    assert forall|bp: int| 0 <= bp implies #[trigger] tier_share(prize_amount, bp) * 10_000 <= prize_amount * bp
        && prize_amount * bp < (tier_share(prize_amount, bp) + 1) * 10_000 by {
        assert(prize_amount * bp >= 0) by (nonlinear_arith)
            requires
                prize_amount >= 0,
                bp >= 0;
    }
    assert(gross * fee_bp >= 0) by (nonlinear_arith)
        requires
            gross >= 0;
}

/// A standalone raffle's configuration is accepted when every rule holds:
/// a description within bounds, an end time ahead (unless it has no
/// deadline), a ticket range with the minimum below the maximum, a price of
/// at least `MIN_TICKET_PRICE` covered by the prize, one to `MAX_PRIZES`
/// tiers adding up to the whole prize, a fee rate of at most 100%, an oracle
/// exactly when the draw is external, a metadata hash, a payment token that
/// answers, and lockup and swap windows within bounds; a configuration that
/// breaks any of the central rules is refused.
pub proof fn law_standalone_config(c: RaffleConfig, self_address: Address, now: u64, token_answers: bool)
    ensures
        c.prizes@.len() > 0 && sum_u32(c.prizes@) != 10_000 ==> init_error(c, self_address, now, token_answers) is Some,
        c.ticket_price < STANDALONE_MIN_PRICE ==> init_error(c, self_address, now, token_answers) is Some,
        c.max_tickets < c.min_tickets ==> init_error(c, self_address, now, token_answers) is Some,
        c.protocol_fee_bp > 10_000 ==> init_error(c, self_address, now, token_answers) is Some,
        c.prize_amount < c.ticket_price ==> init_error(c, self_address, now, token_answers) is Some,
        c.prizes@.len() == 0 || c.prizes@.len() > MAX_PRIZES ==> init_error(c, self_address, now, token_answers) is Some,
        c.randomness_source == SharedSource::External && c.oracle_address is None
            ==> init_error(c, self_address, now, token_answers) is Some,
        !c.no_deadline && c.end_time <= now ==> init_error(c, self_address, now, token_answers) is Some,
        all_zero(c.metadata_hash) ==> init_error(c, self_address, now, token_answers) is Some,
        !token_answers ==> init_error(c, self_address, now, token_answers) is Some,
{
}

/// A proposed fee and treasury are refused when the fee is above
/// `MAX_PROTOCOL_FEE_BP` or the treasury is not a valid recipient (not on
/// the ledger, or the factory itself); a valid proposal by an admin is
/// queued, and nothing of it takes effect before it is executed.
pub proof fn law_factory_config_proposal(
    pre: RaffleFactory,
    post: RaffleFactory,
    protocol_fee_bp: u32,
    treasury: Address,
    treasury_on_ledger: bool,
    ledger: LedgerInfo,
    r: Result<u32, ContractError>,
)
    requires
        RaffleFactory::config_proposed(pre, post, protocol_fee_bp, treasury, treasury_on_ledger, ledger, r),
    ensures
        protocol_fee_bp > MAX_PROTOCOL_FEE_BP ==> r is Err,
        treasury == pre.self_address ==> r is Err,
        !treasury_on_ledger ==> r is Err,
        pre.admin is None ==> r is Err,
        pre.admin is Some && protocol_fee_bp <= MAX_PROTOCOL_FEE_BP && treasury_on_ledger
            && treasury != pre.self_address && treasury != Address::spec_zero_contract() ==> r is Ok,
        post.protocol_fee_bp == pre.protocol_fee_bp && post.treasury == pre.treasury,
        r is Err ==> post == pre,
{
}

/// A paused factory creates no raffle. A creation that goes through hands
/// the instance the creator's configuration with the factory's current fee
/// and treasury in place of the creator's, and a whitelisted partner or a
/// creator past the delay, on a configured and running factory, can
/// always create.
pub proof fn law_factory_creation(
    pre: RaffleFactory,
    post: RaffleFactory,
    creator: Address,
    config: RaffleConfig,
    ledger: LedgerInfo,
    r: Result<PreparedRaffle, ContractError>,
)
    requires
        RaffleFactory::creation_prepared(pre, post, creator, config, ledger, r),
    ensures
        pre.paused ==> r == Err::<PreparedRaffle, ContractError>(ContractError::ContractPaused) && post == pre,
        pre.treasury is None ==> r is Err,
        !pre.paused && pre.treasury is Some && pre.admin is Some && pre.instance_wasm_hash is Some
            && (pre.spec_whitelisted(creator) || ledger.timestamp >= pre.spec_last_creation(creator) + pre.min_creation_delay)
            ==> r is Ok,
        r matches Ok(p) ==> {
            &&& p.config.treasury_address == pre.treasury
            &&& pre.protocol_fee_bp is Some ==> p.config.protocol_fee_bp == pre.protocol_fee_bp->0
            &&& pre.protocol_fee_bp is None ==> p.config.protocol_fee_bp == 0
            &&& p.config.prize_amount == config.prize_amount
            &&& p.config.ticket_price == config.ticket_price
            &&& p.config.prizes == config.prizes
            &&& p.config.payment_token == config.payment_token
            &&& p.config.max_tickets == config.max_tickets
            &&& p.config.end_time == config.end_time
            &&& p.config.randomness_source == config.randomness_source
            &&& p.factory == pre.self_address
        },
{
}

/// Approvals: granting or withdrawing an operator's right over all of an
/// owner's tickets sets exactly that right and no other; an operator has
/// that right only where it was granted and not withdrawn since, and a
/// ticket's approved operator is the one last recorded for it.
pub proof fn law_approvals(c0: Contract, c1: Contract, owner: Address, operator: Address, approved: bool, token_id: u32)
    ensures
        c1.approved_for_all@ == c0.approved_for_all@.insert((owner, operator), approved) ==> {
            &&& c1.spec_approved_for_all(owner, operator) == approved
            &&& forall|o: Address, p: Address| (o, p) != (owner, operator)
                ==> #[trigger] c1.spec_approved_for_all(o, p) == c0.spec_approved_for_all(o, p)
        },
        !c0.approved_for_all@.contains_key((owner, operator)) ==> !c0.spec_approved_for_all(owner, operator),
        c0.spec_approved(token_id) is Some <==> c0.approved@.contains_key(token_id),
        c0.approved@.contains_key(token_id) ==> c0.spec_approved(token_id) == Some(c0.approved@[token_id]),
{
}

} // verus!
