//! Raffle lifecycle and ticket-purchase accounting.
//!
//! A raffle snapshots the configuration's price, fee rate and treasury at
//! creation; later configuration changes do not affect it. Purchases split a
//! fee off the total price and accumulate per-purchaser allocations; the
//! raffle's `tickets_sold` always equals the sum of all allocation counts.

use vstd::prelude::*;
use crate::addr::Address;
use crate::error::RaffleError;
use crate::state::{Config, Raffle, RaffleStatus, TicketPurchase, BPS_DENOMINATOR};

verus! {

/// The fee split off a purchase: `amount * basis_points / 10000`, with
/// integer truncation toward zero.
pub open spec fn spec_fee(amount: u64, basis_points: u16) -> int {
    amount * basis_points / (BPS_DENOMINATOR as int)
}

/// The fee never exceeds the amount it is taken from.
pub proof fn lemma_fee_le_amount(amount: u64, basis_points: u16)
    requires
        basis_points as u64 <= BPS_DENOMINATOR,
    ensures
        0 <= spec_fee(amount, basis_points) <= amount,
{
    assert(0 <= amount * basis_points / 10000 <= amount) by (nonlinear_arith)
        requires
            0 <= amount,
            0 <= basis_points <= 10000,
    ;
}

/// Fee on an amount at the given rate in basis points.
///
/// The caller must have ruled overflow out; the purchase path does so with a
/// checked multiplication and reports `ArithmeticError` instead.
pub fn calculate_fee(amount: u64, basis_points: u16) -> (fee: u64)
    requires
        amount * basis_points <= u64::MAX,
    ensures
        fee == spec_fee(amount, basis_points),
{
    (amount * basis_points as u64) / 10000
}

/// Number of entries an amount of currency buys, at one entry per tenth of
/// a whole coin of one billion base units.
pub fn calculate_entries(amount_lamports: u64) -> (entries: u64)
    ensures
        entries == amount_lamports / 100_000_000,
{
    amount_lamports / 100_000_000
}

/// Closes a raffle directly, without the oracle. Deprecated in favour of
/// the two-phase randomness protocol: the request is always rejected as
/// malformed, so no raffle can complete without a verified oracle result.
pub fn complete_raffle() -> (r: Result<(), RaffleError>)
    ensures
        r is Err,
        r->Err_0 == RaffleError::ValidationError,
{
    Err(RaffleError::ValidationError)
}

/// The error `initialize_raffle` reports when it fails.
pub open spec fn spec_initialize_raffle_error(
    config: Config,
    authority_signed: bool,
) -> RaffleError {
    if !authority_signed {
        RaffleError::AuthorizationError
    } else if !config.is_initialized {
        RaffleError::StateError
    } else {
        RaffleError::ArithmeticError
    }
}

/// Creates a raffle under the current configuration: the price, fee rate
/// and treasury are snapshotted, the end time is `now + duration`, and the
/// configuration's raffle counter hands out the new raffle's index.
pub fn initialize_raffle(
    config: &mut Config,
    authority: Address,
    authority_signed: bool,
    title: [u8; 32],
    duration: u64,
    nonce: u64,
    now: i64,
) -> (r: Result<Raffle, RaffleError>)
    requires
        old(config).valid(),
    ensures
        r is Ok <==> authority_signed && old(config).is_initialized && now + duration
            <= i64::MAX && old(config).next_raffle_index < u64::MAX,
        r is Ok ==> *final(config) == (Config {
            next_raffle_index: (old(config).next_raffle_index + 1) as u64,
            ..*old(config)
        }),
        r is Ok ==> r->Ok_0 == (Raffle {
            is_initialized: true,
            authority,
            title,
            end_time: (now + duration) as i64,
            ticket_price: old(config).ticket_price,
            status: RaffleStatus::Active,
            winner: r->Ok_0.winner,
            tickets_sold: 0,
            fee_basis_points: old(config).fee_basis_points,
            treasury: old(config).treasury,
            vrf_account: r->Ok_0.vrf_account,
            vrf_request_in_progress: false,
            nonce,
            raffle_index: old(config).next_raffle_index,
        }) && r->Ok_0.winner.is_zero() && r->Ok_0.vrf_account.is_zero(),
        r is Ok ==> r->Ok_0.valid(),
        r is Err ==> *final(config) == *old(config),
        r is Err ==> r->Err_0 == spec_initialize_raffle_error(*old(config), authority_signed),
{
    if !authority_signed {
        return Err(RaffleError::AuthorizationError);
    }
    if !config.is_initialized {
        return Err(RaffleError::StateError);
    }
    let end_time = match now.checked_add_unsigned(duration) {
        Some(t) => t,
        None => {
            return Err(RaffleError::ArithmeticError);
        },
    };
    let raffle_index = config.next_raffle_index;
    let next = match raffle_index.checked_add(1) {
        Some(n) => n,
        None => {
            return Err(RaffleError::ArithmeticError);
        },
    };
    config.next_raffle_index = next;
    Ok(
        Raffle {
            is_initialized: true,
            authority,
            title,
            end_time,
            ticket_price: config.ticket_price,
            status: RaffleStatus::Active,
            winner: Address::zeroed(),
            tickets_sold: 0,
            fee_basis_points: config.fee_basis_points,
            treasury: config.treasury,
            vrf_account: Address::zeroed(),
            vrf_request_in_progress: false,
            nonce,
            raffle_index,
        },
    )
}

/// What one accepted purchase moves: the full price paid, the fee part
/// bound for the treasury, and the pool part bound for the raffle's own
/// balance.
#[derive(Clone, Copy, Debug, PartialEq, Eq, Structural)]
pub struct PurchaseReceipt {
    /// `ticket_count * ticket_price`.
    pub total_price: u64,
    /// The part of `total_price` sent to the treasury.
    pub fee_amount: u64,
    /// The part of `total_price` added to the prize pool.
    pub pool_amount: u64,
}

/// The ticket count an optional existing allocation already holds.
pub open spec fn spec_prior_count(allocation: Option<TicketPurchase>) -> u64 {
    match allocation {
        Some(a) => a.ticket_count,
        None => 0,
    }
}

/// Whether an existing allocation record may be extended by this purchase:
/// it must be initialized and its back-references must match the raffle and
/// the purchaser exactly. A missing record is always acceptable; it is
/// created by the purchase.
pub open spec fn spec_allocation_compatible(
    allocation: Option<TicketPurchase>,
    raffle_addr: Address,
    purchaser: Address,
) -> bool {
    match allocation {
        Some(a) => a.is_initialized && a.raffle@ == raffle_addr@ && a.purchaser@ == purchaser@,
        None => true,
    }
}

/// Whether the raffle accepts this purchase at all: it must be active, the
/// ambient time must be strictly before the end time, and the count must be
/// positive.
pub open spec fn spec_purchase_open(raffle: Raffle, now: i64, ticket_count: u64) -> bool {
    &&& raffle.status == RaffleStatus::Active
    &&& now < raffle.end_time
    &&& ticket_count > 0
}

/// Whether every computation of this purchase fits in 64 bits.
pub open spec fn spec_purchase_fits(
    raffle: Raffle,
    allocation: Option<TicketPurchase>,
    ticket_count: u64,
) -> bool {
    &&& ticket_count * raffle.ticket_price <= u64::MAX
    &&& (ticket_count * raffle.ticket_price) * raffle.fee_basis_points <= u64::MAX
    &&& spec_prior_count(allocation) + ticket_count <= u64::MAX
    &&& raffle.tickets_sold + ticket_count <= u64::MAX
}

/// The error `purchase_tickets` reports when it fails.
pub open spec fn spec_purchase_error(
    raffle: Raffle,
    allocation: Option<TicketPurchase>,
    raffle_addr: Address,
    purchaser: Address,
    purchaser_signed: bool,
    now: i64,
    ticket_count: u64,
) -> RaffleError {
    if !purchaser_signed {
        RaffleError::AuthorizationError
    } else if raffle.status != RaffleStatus::Active {
        RaffleError::StateError
    } else if now >= raffle.end_time {
        RaffleError::StateError
    } else if ticket_count == 0 {
        RaffleError::ValidationError
    } else if ticket_count * raffle.ticket_price > u64::MAX {
        RaffleError::ArithmeticError
    } else if (ticket_count * raffle.ticket_price) * raffle.fee_basis_points > u64::MAX {
        RaffleError::ArithmeticError
    } else if !spec_allocation_compatible(allocation, raffle_addr, purchaser) {
        RaffleError::DataIntegrityError
    } else {
        RaffleError::ArithmeticError
    }
}

/// Buys `ticket_count` tickets from `purchaser` into the raffle.
///
/// On success the returned allocation replaces the purchaser's record (a
/// first purchase creates it, later ones accumulate into it), and the
/// receipt lists the transfers the host must perform: `fee_amount` from the
/// purchaser to the raffle's treasury and `pool_amount` from the purchaser
/// to the raffle's own balance. The fee is `total_price` at the raffle's
/// snapshotted rate, truncated; fee and pool parts always rebuild the total
/// exactly.
pub fn purchase_tickets(
    raffle: &mut Raffle,
    raffle_addr: Address,
    allocation: Option<TicketPurchase>,
    purchaser: Address,
    purchaser_signed: bool,
    now: i64,
    ticket_count: u64,
) -> (r: Result<(TicketPurchase, PurchaseReceipt), RaffleError>)
    requires
        old(raffle).valid(),
    ensures
        r is Ok <==> purchaser_signed && spec_purchase_open(*old(raffle), now, ticket_count)
            && spec_allocation_compatible(allocation, raffle_addr, purchaser)
            && spec_purchase_fits(*old(raffle), allocation, ticket_count),
        r is Ok ==> ({
            let (alloc, receipt) = r->Ok_0;
            &&& receipt.total_price == ticket_count * old(raffle).ticket_price
            &&& receipt.fee_amount == spec_fee(receipt.total_price, old(raffle).fee_basis_points)
            &&& receipt.pool_amount == receipt.total_price - receipt.fee_amount
            &&& receipt.fee_amount + receipt.pool_amount == receipt.total_price
            &&& alloc.is_initialized
            &&& alloc.raffle@ == raffle_addr@
            &&& alloc.purchaser@ == purchaser@
            &&& alloc.ticket_count == spec_prior_count(allocation) + ticket_count
            &&& alloc.purchase_time == now
            &&& *final(raffle) == (Raffle {
                tickets_sold: (old(raffle).tickets_sold + ticket_count) as u64,
                ..*old(raffle)
            })
        }),
        r is Err ==> *final(raffle) == *old(raffle),
        r is Err ==> r->Err_0 == spec_purchase_error(
            *old(raffle),
            allocation,
            raffle_addr,
            purchaser,
            purchaser_signed,
            now,
            ticket_count,
        ),
{
    if !purchaser_signed {
        return Err(RaffleError::AuthorizationError);
    }
    if !matches!(raffle.status, RaffleStatus::Active) {
        return Err(RaffleError::StateError);
    }
    if now >= raffle.end_time {
        return Err(RaffleError::StateError);
    }
    if ticket_count == 0 {
        return Err(RaffleError::ValidationError);
    }
    let total_price = match ticket_count.checked_mul(raffle.ticket_price) {
        Some(t) => t,
        None => {
            return Err(RaffleError::ArithmeticError);
        },
    };
    if total_price.checked_mul(raffle.fee_basis_points as u64).is_none() {
        return Err(RaffleError::ArithmeticError);
    }
    let fee_amount = calculate_fee(total_price, raffle.fee_basis_points);
    proof {
        lemma_fee_le_amount(total_price, raffle.fee_basis_points);
    }
    let pool_amount = total_price - fee_amount;
    let prior = match allocation {
        Some(a) => {
            if !(a.is_initialized && a.raffle.same(&raffle_addr) && a.purchaser.same(&purchaser)) {
                return Err(RaffleError::DataIntegrityError);
            }
            a.ticket_count
        },
        None => 0,
    };
    let new_count = match prior.checked_add(ticket_count) {
        Some(c) => c,
        None => {
            return Err(RaffleError::ArithmeticError);
        },
    };
    let new_sold = match raffle.tickets_sold.checked_add(ticket_count) {
        Some(s) => s,
        None => {
            return Err(RaffleError::ArithmeticError);
        },
    };
    let alloc = match allocation {
        Some(a) => TicketPurchase { ticket_count: new_count, purchase_time: now, ..a },
        None => TicketPurchase {
            is_initialized: true,
            raffle: raffle_addr,
            purchaser,
            ticket_count: new_count,
            purchase_time: now,
        },
    };
    raffle.tickets_sold = new_sold;
    Ok((alloc, PurchaseReceipt { total_price, fee_amount, pool_amount }))
}

/// The sum of a sequence of per-purchaser ticket counts.
pub open spec fn spec_sum_counts(counts: Seq<u64>) -> int
    decreases counts.len(),
{
    if counts.len() == 0 {
        0
    } else {
        spec_sum_counts(counts.drop_last()) + counts.last()
    }
}

/// Replacing one count changes the sum by the difference.
pub proof fn lemma_sum_counts_update(counts: Seq<u64>, i: int, v: u64)
    requires
        0 <= i < counts.len(),
    ensures
        spec_sum_counts(counts.update(i, v)) == spec_sum_counts(counts) - counts[i] + v,
    decreases counts.len(),
{
    if i == counts.len() - 1 {
        assert(counts.update(i, v).drop_last() =~= counts.drop_last());
    } else {
        assert(counts.update(i, v).drop_last() =~= counts.drop_last().update(i, v));
        lemma_sum_counts_update(counts.drop_last(), i, v);
    }
}

/// Appending a count adds it to the sum.
pub proof fn lemma_sum_counts_push(counts: Seq<u64>, v: u64)
    ensures
        spec_sum_counts(counts.push(v)) == spec_sum_counts(counts) + v,
{
    assert(counts.push(v).drop_last() =~= counts);
}

/// The ticket ledger's balance: the allocation counts of a raffle's
/// purchasers sum to its `tickets_sold`.
pub open spec fn spec_ledger_balanced(counts: Seq<u64>, tickets_sold: u64) -> bool {
    spec_sum_counts(counts) == tickets_sold
}

/// Law: a fresh raffle's ledger is balanced. It has no allocations and no
/// tickets sold, and the empty sum is zero.
pub proof fn lemma_new_raffle_ledger_balanced(raffle: Raffle)
    requires
        raffle.tickets_sold == 0,
    ensures
        spec_ledger_balanced(Seq::empty(), raffle.tickets_sold),
{
}

/// Law: the ticket ledger stays balanced. If the allocation counts of a
/// raffle's purchasers sum to its `tickets_sold`, then after a purchase of
/// `ticket_count` tickets — which adds `ticket_count` both to one
/// purchaser's allocation and to `tickets_sold`, as `purchase_tickets`
/// ensures — they still do, whether the purchase extended an existing
/// allocation or appended a new one.
pub proof fn lemma_purchase_preserves_ticket_sum(
    counts: Seq<u64>,
    updated: Seq<u64>,
    i: int,
    ticket_count: u64,
    sold_before: u64,
    sold_after: u64,
)
    requires
        spec_ledger_balanced(counts, sold_before),
        sold_after == sold_before + ticket_count,
        (0 <= i < counts.len() && counts[i] + ticket_count <= u64::MAX && updated == counts.update(
            i,
            (counts[i] + ticket_count) as u64,
        )) || (i == counts.len() && updated == counts.push(ticket_count)),
    ensures
        spec_ledger_balanced(updated, sold_after),
{
    if 0 <= i < counts.len() {
        lemma_sum_counts_update(counts, i, (counts[i] + ticket_count) as u64);
    } else {
        lemma_sum_counts_push(counts, ticket_count);
    }
}

} // verus!
