//! Properties that span several calls: the factory's configuration
//! timelock, the two-step admin handovers, stable raffle ids and paging.
use vstd::prelude::*;
use crate::address::Address;
use crate::factory::{
    lemma_count_is_full_walk, lemma_live_raffles_len_bound, PreparedRaffle, lemma_live_raffles_split, live_raffles, valid_role_address,
    ContractError, InstanceCall, RaffleFactory,
};
use crate::instance::{claim_fee, concluded, indices_in_range, winner_events, Contract, Error, RaffleStatus, RandomnessSource};
use crate::raffle_instance::{law_tier_prizes_sum_to_prize, prizes_before, Raffle as StandaloneRaffle};
use crate::shared::{RaffleConfig as SharedConfig, spec_effective_limit, spec_page_end, LedgerInfo, TIMELOCK_DELAY_SECONDS};

verus! {

/// A configuration change proposed at time `t` cannot be executed before
/// `t + TIMELOCK_DELAY_SECONDS`: the attempt is refused with
/// `TimelockNotElapsed` and changes nothing. From that moment on it is
/// executed, provided the treasury is still a valid address, and then the
/// proposed fee and treasury are in force and the proposal is gone.
pub proof fn law_config_change_waits_for_timelock(
    s0: RaffleFactory,
    s1: RaffleFactory,
    s2: RaffleFactory,
    protocol_fee_bp: u32,
    treasury: Address,
    treasury_on_ledger: bool,
    proposed_at: LedgerInfo,
    op_id: u32,
    treasury_on_ledger_later: bool,
    executed_at: LedgerInfo,
    r2: Result<(), ContractError>,
)
    requires
        RaffleFactory::config_proposed(s0, s1, protocol_fee_bp, treasury, treasury_on_ledger, proposed_at,
            Ok::<u32, ContractError>(op_id)),
        RaffleFactory::config_executed(s1, s2, op_id, treasury_on_ledger_later, executed_at, r2),
    ensures
        executed_at.timestamp < proposed_at.timestamp + TIMELOCK_DELAY_SECONDS
            ==> r2 == Err::<(), ContractError>(ContractError::TimelockNotElapsed) && s2 == s1,
        executed_at.timestamp >= proposed_at.timestamp + TIMELOCK_DELAY_SECONDS
            && valid_role_address(treasury, treasury_on_ledger_later, s0.self_address) ==> {
            &&& r2 is Ok
            &&& s2.protocol_fee_bp == Some(protocol_fee_bp)
            &&& s2.treasury == Some(treasury)
            &&& !s2.pending_ops@.contains_key(op_id)
        },
{
}

/// An admin handover takes two steps: once the admin has proposed another
/// address, acceptance makes that address the admin and clears the
/// proposal. Proposing the current admin withdraws the proposal, so that an
/// acceptance afterwards finds nothing to accept.
pub proof fn law_admin_handover(
    s0: RaffleFactory,
    s1: RaffleFactory,
    s2: RaffleFactory,
    new_admin: Address,
    new_admin_on_ledger: bool,
    r2: Result<Address, ContractError>,
)
    requires
        RaffleFactory::admin_proposed(s0, s1, new_admin, new_admin_on_ledger, Ok::<(), ContractError>(())),
        RaffleFactory::admin_accepted(s1, s2, r2),
    ensures
        s0.admin != Some(new_admin) ==> {
            &&& r2 == Ok::<Address, ContractError>(new_admin)
            &&& s2.admin == Some(new_admin)
            &&& s2.pending_admin is None
        },
        s0.admin == Some(new_admin) ==> r2 == Err::<Address, ContractError>(ContractError::NoPendingTransfer) && s2 == s1,
{
}

/// The same two-step handover holds for the admin of a raffle instance.
pub proof fn law_instance_admin_handover(
    c0: Contract,
    c1: Contract,
    c2: Contract,
    new_admin: Address,
    r2: Result<Address, Error>,
)
    requires
        Contract::admin_proposed(c0, c1, new_admin, Ok::<(), Error>(())),
        Contract::admin_accepted(c1, c2, r2),
    ensures
        c0.admin != Some(new_admin) ==> {
            &&& r2 == Ok::<Address, Error>(new_admin)
            &&& c2.admin == Some(new_admin)
            &&& c2.pending_admin is None
        },
        c0.admin == Some(new_admin) ==> r2 == Err::<Address, Error>(Error::NoPendingTransfer) && c2 == c1,
{
}

/// After a draw, however it was made, the raffle is finalized and its draw
/// record is present, which is exactly when `get_fairness_data` reports it.
pub proof fn law_every_draw_is_reported(
    pre: Contract,
    post: Contract,
    seed: u64,
    source: RandomnessSource,
    indices: Seq<u32>,
    ledger: LedgerInfo,
    note_winner_ticket: bool,
)
    requires
        concluded(pre, post, seed, source, indices, ledger, note_winner_ticket),
    ensures
        post.raffle is Some,
        post.spec_raffle().status == RaffleStatus::Finalized,
        post.fairness_record is Some,
        post.fairness_record->0.seed == seed,
        post.fairness_record->0.winning_ticket_indices@ == indices,
{
}

/// The `WinnerDrawn` events of a draw announce, for each tier in order, the
/// 1-based id of the drawn ticket and that ticket's holder at draw time.
pub proof fn law_winner_events_name_ticket_holders(
    pre: Contract,
    post: Contract,
    seed: u64,
    source: RandomnessSource,
    indices: Seq<u32>,
    ledger: LedgerInfo,
    note_winner_ticket: bool,
    tier: int,
)
    requires
        concluded(pre, post, seed, source, indices, ledger, note_winner_ticket),
        indices_in_range(indices),
        0 <= tier < indices.len(),
    ensures
        ({
            let events = winner_events(post.spec_raffle().winners@, post.fairness_record->0.winning_ticket_indices@,
                post.fairness_record->0.draw_timestamp);
            &&& events.len() == indices.len()
            &&& events[tier].ticket_id == indices[tier] + 1
            &&& events[tier].winner == pre.tickets@[events[tier].ticket_id].owner
            &&& events[tier].tier_index == tier as u32
            &&& events[tier].timestamp == ledger.timestamp
        }),
{
    assert(indices[tier] < u32::MAX);
    let w = post.spec_raffle().winners@;
    assert(w[tier] == pre.tickets@[(indices[tier] + 1) as u32].owner);
}

/// The fee withheld from a prize share is well defined at every rate: it is
/// never negative, it stays within the share up to a rate of 100%, and above
/// that it is at least the share, leaving the winner a net amount of zero or
/// less.
pub proof fn law_claim_fee_bounds(gross: int, fee_bp: u32)
    requires
        gross >= 0,
    ensures
        claim_fee(gross, fee_bp) >= 0,
        fee_bp <= 10_000 ==> claim_fee(gross, fee_bp) <= gross,
        fee_bp > 10_000 ==> claim_fee(gross, fee_bp) >= gross,
{
    if fee_bp > 0 {
        assert(0 <= gross * fee_bp) by (nonlinear_arith)
            requires
                gross >= 0;
        if fee_bp <= 10_000 {
            assert(gross * fee_bp / 10_000 <= gross) by (nonlinear_arith)
                requires
                    gross >= 0,
                    fee_bp <= 10_000;
        } else {
            assert(gross * fee_bp / 10_000 >= gross) by (nonlinear_arith)
                requires
                    gross >= 0,
                    fee_bp > 10_000;
        }
    }
}

/// A ticket transfer between two different holders moves exactly one
/// ticket: the ticket's owner becomes the receiver, the receiver holds one
/// more ticket, the sender (who held it) one fewer, and every other holding
/// is unchanged.
pub proof fn law_transfer_moves_one_holding(
    c0: Contract,
    c1: Contract,
    from: Address,
    to: Address,
    token_id: u32,
    other: Address,
)
    requires
        Contract::moved(c0, c1, from, to, token_id),
        from != to,
        c0.spec_ticket_count(from) > 0,
        c0.spec_ticket_count(to) < u32::MAX,
        other != from && other != to,
    ensures
        c1.tickets@[token_id].owner == to,
        c1.spec_ticket_count(to) == c0.spec_ticket_count(to) + 1,
        c1.spec_ticket_count(from) == c0.spec_ticket_count(from) - 1,
        c1.spec_ticket_count(from) + c1.spec_ticket_count(to) == c0.spec_ticket_count(from) + c0.spec_ticket_count(to),
        c1.spec_ticket_count(other) == c0.spec_ticket_count(other),
{
}

/// The tier prizes of a standalone raffle (the share of each tier, the last
/// tier taking the rounding remainder) add up exactly to its prize amount.
pub proof fn law_standalone_tier_prizes_sum(raffle: StandaloneRaffle)
    requires
        raffle.prizes@.len() > 0,
    ensures
        prizes_before(raffle.prize_amount as int, raffle.prizes@, raffle.prizes@.len() as int) == raffle.prize_amount,
{
    law_tier_prizes_sum_to_prize(raffle.prize_amount as int, raffle.prizes@);
}

/// Moving a ticket to another holder leaves every commitment and every
/// revealed secret of the commit-reveal draw where it was.
pub proof fn law_ticket_transfer_keeps_commitments(c0: Contract, c1: Contract, from: Address, to: Address, token_id: u32)
    requires
        Contract::moved(c0, c1, from, to, token_id),
    ensures
        c1.commit_hashes@ == c0.commit_hashes@,
        c1.commit_count == c0.commit_count,
        c1.revealed_secrets@ == c0.revealed_secrets@,
        c1.reveal_count == c0.reveal_count,
{
}

/// The creation delay: a creator who is not whitelisted and tries again
/// before the delay since its last creation has passed is refused with
/// `RateLimitExceeded`, and nothing changes; once the delay has passed (and
/// always for a whitelisted creator) that refusal is not given, and a
/// successful creation records the time of this one.
pub proof fn law_creation_rate_limit(
    s0: RaffleFactory,
    s1: RaffleFactory,
    creator: Address,
    config: SharedConfig,
    ledger: LedgerInfo,
    r: Result<PreparedRaffle, ContractError>,
)
    requires
        RaffleFactory::creation_prepared(s0, s1, creator, config, ledger, r),
        !s0.paused,
    ensures
        !s0.spec_whitelisted(creator) && ledger.timestamp < s0.spec_last_creation(creator) + s0.min_creation_delay
            ==> r == Err::<PreparedRaffle, ContractError>(ContractError::RateLimitExceeded) && s1 == s0,
        s0.spec_whitelisted(creator) || ledger.timestamp >= s0.spec_last_creation(creator) + s0.min_creation_delay
            ==> r != Err::<PreparedRaffle, ContractError>(ContractError::RateLimitExceeded),
        !s0.spec_whitelisted(creator) && r is Ok ==> s1.spec_last_creation(creator) == ledger.timestamp,
{
}

/// A registration on a consistent registry gives the next id to the new
/// raffle, leaves every other id as it was, counts one more live raffle and
/// one more creation, appends the raffle to its creator's list only, and
/// keeps the registry consistent.
pub proof fn law_registration_extends_registry(
    s0: RaffleFactory,
    s1: RaffleFactory,
    creator: Address,
    raffle_address: Address,
    id: u32,
)
    requires
        s0.registry_consistent(),
        s0.next_raffle_id < u32::MAX,
        RaffleFactory::registered(s0, s1, creator, raffle_address, id),
    ensures
        id == s0.next_raffle_id,
        s1.next_raffle_id == s0.next_raffle_id + 1,
        s1.raffle_by_id@ == s0.raffle_by_id@.insert(id, raffle_address),
        s1.raffle_count == s0.raffle_count + 1,
        s1.total_raffles_created == s0.total_raffles_created + 1,
        s1.creator_list(creator) == s0.creator_list(creator).push(raffle_address),
        forall|c: Address| c != creator ==> #[trigger] s1.creator_list(c) == s0.creator_list(c),
        s1.registry_consistent(),
{
    lemma_count_is_full_walk(s0);
    assert(!s0.raffle_by_id@.contains_key(id));
}

/// A draw is determined by its seed's outcome and the tickets: two draws
/// from the same state with the same indices give the same winners, the
/// same unclaimed tiers and the same record.
pub proof fn law_draw_is_determined(
    pre: Contract,
    post1: Contract,
    post2: Contract,
    seed: u64,
    source: RandomnessSource,
    indices: Seq<u32>,
    ledger: LedgerInfo,
    note_winner_ticket: bool,
)
    requires
        concluded(pre, post1, seed, source, indices, ledger, note_winner_ticket),
        concluded(pre, post2, seed, source, indices, ledger, note_winner_ticket),
    ensures
        post1.spec_raffle().winners@ == post2.spec_raffle().winners@,
        post1.spec_raffle().claimed_winners@ == post2.spec_raffle().claimed_winners@,
        post1.spec_raffle().status == post2.spec_raffle().status,
        post1.spec_raffle().finalized_at == post2.spec_raffle().finalized_at,
        post1.fairness_record->0.seed == post2.fairness_record->0.seed,
        post1.fairness_record->0.winning_ticket_indices@ == post2.fairness_record->0.winning_ticket_indices@,
{
}

/// A registration gives the raffle an id that no raffle holds and that is
/// above every id ever given out; every other id keeps its raffle.
pub proof fn law_registration_id_is_fresh(s0: RaffleFactory, s1: RaffleFactory, creator: Address, raffle_address: Address, id: u32)
    requires
        s0.wf(),
        RaffleFactory::registered(s0, s1, creator, raffle_address, id),
    ensures
        !s0.raffle_by_id@.contains_key(id),
        forall|other: u32| #[trigger] s0.raffle_by_id@.contains_key(other) ==> other < id,
        s1.raffle_by_id@.contains_key(id) && s1.raffle_by_id@[id] == raffle_address,
        forall|other: u32| other != id ==> #[trigger] s1.raffle_by_id@.contains_key(other) == s0.raffle_by_id@.contains_key(other)
            && (s0.raffle_by_id@.contains_key(other) ==> s1.raffle_by_id@[other] == s0.raffle_by_id@[other]),
{
}

/// An id freed by a cleanup is never given out again: the next
/// registration receives another id, and the freed id stays empty.
pub proof fn law_cleaned_id_never_reused(
    s0: RaffleFactory,
    s1: RaffleFactory,
    s2: RaffleFactory,
    raffle_id: u32,
    wipe: InstanceCall,
    creator: Address,
    raffle_address: Address,
    id: u32,
)
    requires
        s0.wf(),
        RaffleFactory::raffle_cleaned(s0, s1, raffle_id, Ok::<InstanceCall, ContractError>(wipe)),
        RaffleFactory::registered(s1, s2, creator, raffle_address, id),
    ensures
        id != raffle_id,
        !s2.raffle_by_id@.contains_key(raffle_id),
{
}

/// A cleanup removes exactly the raffle under the given id: every other id
/// keeps its raffle, and the live count drops by one.
pub proof fn law_cleanup_is_local(s0: RaffleFactory, s1: RaffleFactory, raffle_id: u32, wipe: InstanceCall, other: u32)
    requires
        s0.wf(),
        RaffleFactory::raffle_cleaned(s0, s1, raffle_id, Ok::<InstanceCall, ContractError>(wipe)),
        other != raffle_id,
    ensures
        !s1.raffle_by_id@.contains_key(raffle_id),
        s1.raffle_by_id@.contains_key(other) == s0.raffle_by_id@.contains_key(other),
        s0.raffle_by_id@.contains_key(other) ==> s1.raffle_by_id@[other] == s0.raffle_by_id@[other],
        s1.raffle_count == s0.raffle_count - 1,
{
    assert(s0.raffle_by_id@.dom().contains(raffle_id));
}

/// Walking the registry over every id ever given out yields each live raffle
/// once: as many raffles as the live count.
pub proof fn law_full_walk_yields_live_count(f: RaffleFactory)
    requires
        f.wf(),
    ensures
        live_raffles(f.raffle_by_id@, 0, f.next_raffle_id as int).len() == f.raffle_count,
{
    lemma_count_is_full_walk(f);
}

/// A page of the registry holds at most the effective limit of raffles.
pub proof fn law_page_size_bounded(m: Map<u32, Address>, offset: u32, limit: u32, next_id: u32)
    ensures
        live_raffles(m, offset as int, spec_page_end(offset, limit, next_id) as int).len() <= spec_effective_limit(limit),
{
    lemma_live_raffles_len_bound(m, offset as int, spec_page_end(offset, limit, next_id) as int);
}

/// Consecutive pages tile the registry: the page that starts where another
/// ends continues it, without gap or overlap.
pub proof fn law_pages_tile(m: Map<u32, Address>, offset: u32, limit: u32, next_limit: u32, next_id: u32)
    requires
        offset < next_id,
    ensures
        ({
            let end = spec_page_end(offset, limit, next_id);
            let next_end = spec_page_end(end, next_limit, next_id);
            live_raffles(m, offset as int, end as int) + live_raffles(m, end as int, next_end as int)
                == live_raffles(m, offset as int, next_end as int)
        }),
{
    let end = spec_page_end(offset, limit, next_id);
    let next_end = spec_page_end(end, next_limit, next_id);
    lemma_live_raffles_split(m, offset as int, end as int, next_end as int);
}

} // verus!
