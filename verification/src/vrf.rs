//! The two-phase randomness protocol and prize settlement.
//!
//! Once a raffle's time has ended, anyone may request randomness from the
//! external oracle; the raffle records the oracle account and a pending
//! flag. When the oracle's verified result is available, the completion
//! operation derives a winner index from it, checks the caller-supplied
//! winning allocation against the index-derived address, marks the raffle
//! complete and reports the settlement the host must perform: the raffle's
//! entire balance moves to the winner.

use vstd::prelude::*;
use vstd::bytes::{spec_u64_from_le_bytes, u64_from_le_bytes};
use vstd::slice::slice_subrange;
use crate::addr::Address;
use crate::error::RaffleError;
use crate::pda::{find_winner_entry_address, spec_program_address, spec_winner_entry_seeds};
use crate::state::{Raffle, RaffleStatus, TicketPurchase};

verus! {

broadcast use vstd::array::group_array_axioms;

/// The winner index a randomness buffer yields: its first eight bytes read
/// as a little-endian integer, reduced modulo the ticket count. Zero when no
/// tickets were sold.
pub open spec fn spec_winner_index(randomness: Seq<u8>, total_tickets: u64) -> u64 {
    if total_tickets == 0 {
        0
    } else {
        ((spec_u64_from_le_bytes(randomness.subrange(0, 8)) as int) % (total_tickets as int)) as u64
    }
}

/// Reduces 32 bytes of verified randomness to a ticket index.
///
/// For a positive ticket count the result lies in `[0, total_tickets)`. The
/// reduction is not perfectly uniform when the count does not divide 2^64,
/// a documented limitation; the bias is negligible for realistic counts.
pub fn get_random_winner_index(vrf_result: [u8; 32], total_tickets: u64) -> (index: u64)
    ensures
        index == spec_winner_index(vrf_result@, total_tickets),
        total_tickets > 0 ==> index < total_tickets,
        total_tickets == 0 ==> index == 0,
{
    if total_tickets == 0 {
        return 0;
    }
    let s = vrf_result.as_slice();
    let sub = slice_subrange(s, 0, 8);
    let random_value = u64_from_le_bytes(sub);
    random_value % total_tickets
}

/// Whether a raffle is ready for a randomness request at the given time:
/// active, past its end time, with tickets sold and no request pending.
pub open spec fn spec_request_allowed(raffle: Raffle, now: i64) -> bool {
    &&& raffle.status == RaffleStatus::Active
    &&& now >= raffle.end_time
    &&& raffle.tickets_sold > 0
    &&& !raffle.vrf_request_in_progress
}

/// The error `request_randomness` reports when it fails.
pub open spec fn spec_request_error(
    raffle: Raffle,
    oracle_program: Address,
    initiator_signed: bool,
    payer_signed: bool,
    now: i64,
) -> RaffleError {
    if !initiator_signed || !payer_signed {
        RaffleError::AuthorizationError
    } else if raffle.status != RaffleStatus::Active {
        RaffleError::StateError
    } else if now < raffle.end_time {
        RaffleError::StateError
    } else if raffle.tickets_sold == 0 {
        RaffleError::StateError
    } else if raffle.vrf_request_in_progress {
        RaffleError::StateError
    } else {
        RaffleError::ValidationError
    }
}

/// Records a randomness request against the raffle: the oracle account is
/// remembered and the pending flag set, so that a second request fails
/// until the first is fulfilled.
///
/// The actual oracle invocation is the host's to perform, against the same
/// oracle account, once this records the request. The all-zero address is
/// the host's value-transfer program and never an oracle.
pub fn request_randomness(
    raffle: &mut Raffle,
    vrf_account: Address,
    oracle_program: Address,
    initiator_signed: bool,
    payer_signed: bool,
    now: i64,
) -> (r: Result<(), RaffleError>)
    ensures
        r is Ok <==> initiator_signed && payer_signed && spec_request_allowed(*old(raffle), now)
            && !oracle_program.is_zero(),
        r is Ok ==> *final(raffle) == (Raffle {
            vrf_account,
            vrf_request_in_progress: true,
            ..*old(raffle)
        }),
        r is Err ==> *final(raffle) == *old(raffle),
        r is Err ==> r->Err_0 == spec_request_error(
            *old(raffle),
            oracle_program,
            initiator_signed,
            payer_signed,
            now,
        ),
{
    if !initiator_signed || !payer_signed {
        return Err(RaffleError::AuthorizationError);
    }
    if !matches!(raffle.status, RaffleStatus::Active) {
        return Err(RaffleError::StateError);
    }
    if now < raffle.end_time {
        return Err(RaffleError::StateError);
    }
    if raffle.tickets_sold == 0 {
        return Err(RaffleError::StateError);
    }
    if raffle.vrf_request_in_progress {
        return Err(RaffleError::StateError);
    }
    if oracle_program.is_zeroed() {
        return Err(RaffleError::ValidationError);
    }
    raffle.vrf_account = vrf_account;
    raffle.vrf_request_in_progress = true;
    Ok(())
}

/// What one accepted completion settles.
#[derive(Clone, Copy, Debug, PartialEq, Eq)]
pub struct Settlement {
    /// The winning ticket index the randomness selected.
    pub winner_index: u64,
    /// The winning allocation's address, now recorded in the raffle.
    pub winner: Address,
    /// The raffle's entire balance, to be moved to the winner by the host.
    pub prize_amount: u64,
}

/// Whether a raffle's pending randomness request may be fulfilled: still
/// active, a request pending against exactly the supplied oracle account,
/// past its end time, with a verified result present and tickets sold.
pub open spec fn spec_complete_allowed(
    raffle: Raffle,
    vrf_account: Address,
    vrf_result: Option<[u8; 32]>,
    now: i64,
) -> bool {
    &&& raffle.status == RaffleStatus::Active
    &&& raffle.vrf_request_in_progress
    &&& raffle.vrf_account@ == vrf_account@
    &&& now >= raffle.end_time
    &&& vrf_result is Some
    &&& raffle.tickets_sold > 0
}

/// Whether the caller-supplied winner stands where the derivation says the
/// winning allocation lives, and is a real allocation of this raffle.
pub open spec fn spec_winner_accepted(
    expected_entry: Option<Seq<u8>>,
    winner_account: Address,
    winner_allocation: TicketPurchase,
    raffle_addr: Address,
) -> bool {
    &&& expected_entry == Some(winner_account@)
    &&& winner_allocation.is_initialized
    &&& winner_allocation.raffle@ == raffle_addr@
    &&& winner_allocation.ticket_count > 0
}

/// The error the completion operation reports when it fails.
pub open spec fn spec_complete_error(
    raffle: Raffle,
    vrf_account: Address,
    vrf_result: Option<[u8; 32]>,
    expected_entry: Option<Seq<u8>>,
    winner_account: Address,
    now: i64,
    initiator_signed: bool,
) -> RaffleError {
    if !initiator_signed {
        RaffleError::AuthorizationError
    } else if raffle.status != RaffleStatus::Active {
        RaffleError::StateError
    } else if !raffle.vrf_request_in_progress {
        RaffleError::StateError
    } else if raffle.vrf_account@ != vrf_account@ {
        RaffleError::ExternalDependencyError
    } else if now < raffle.end_time {
        RaffleError::StateError
    } else if vrf_result is None {
        RaffleError::ExternalDependencyError
    } else if raffle.tickets_sold == 0 {
        RaffleError::StateError
    } else if expected_entry is None {
        RaffleError::ExternalDependencyError
    } else if expected_entry != Some(winner_account@) {
        RaffleError::DataIntegrityError
    } else {
        RaffleError::DataIntegrityError
    }
}

/// Fulfils a pending randomness request against an already-derived expected
/// winner address.
///
/// `expected_entry` must be what the address derivation produced for this
/// raffle and the randomness' winner index; `complete_raffle_with_vrf`
/// derives it and is the operation the host dispatches to. On success the
/// raffle records the winner, becomes complete, clears the pending flag,
/// and the returned settlement moves the raffle's whole balance to the
/// winner.
pub fn complete_raffle_with_entry(
    raffle: &mut Raffle,
    raffle_addr: Address,
    vrf_account: Address,
    vrf_result: Option<[u8; 32]>,
    expected_entry: Option<Address>,
    winner_account: Address,
    winner_allocation: TicketPurchase,
    pool_balance: u64,
    now: i64,
    initiator_signed: bool,
) -> (r: Result<Settlement, RaffleError>)
    ensures
        r is Ok <==> initiator_signed && spec_complete_allowed(
            *old(raffle),
            vrf_account,
            vrf_result,
            now,
        ) && spec_winner_accepted(
            match expected_entry {
                Some(e) => Some(e@),
                None => None,
            },
            winner_account,
            winner_allocation,
            raffle_addr,
        ),
        r is Ok ==> ({
            let s = r->Ok_0;
            &&& s.winner_index == spec_winner_index(vrf_result->0@, old(raffle).tickets_sold)
            &&& s.winner_index < old(raffle).tickets_sold
            &&& s.winner == winner_account
            &&& s.prize_amount == pool_balance
            &&& *final(raffle) == (Raffle {
                winner: winner_account,
                status: RaffleStatus::Complete,
                vrf_request_in_progress: false,
                ..*old(raffle)
            })
        }),
        r is Err ==> *final(raffle) == *old(raffle),
        r is Err ==> r->Err_0 == spec_complete_error(
            *old(raffle),
            vrf_account,
            vrf_result,
            match expected_entry {
                Some(e) => Some(e@),
                None => None,
            },
            winner_account,
            now,
            initiator_signed,
        ),
{
    if !initiator_signed {
        return Err(RaffleError::AuthorizationError);
    }
    if !matches!(raffle.status, RaffleStatus::Active) {
        return Err(RaffleError::StateError);
    }
    if !raffle.vrf_request_in_progress {
        return Err(RaffleError::StateError);
    }
    if !raffle.vrf_account.same(&vrf_account) {
        return Err(RaffleError::ExternalDependencyError);
    }
    if now < raffle.end_time {
        return Err(RaffleError::StateError);
    }
    let result_bytes = match vrf_result {
        Some(b) => b,
        None => {
            return Err(RaffleError::ExternalDependencyError);
        },
    };
    if raffle.tickets_sold == 0 {
        return Err(RaffleError::StateError);
    }
    let winner_index = get_random_winner_index(result_bytes, raffle.tickets_sold);
    let expected = match expected_entry {
        Some(e) => e,
        None => {
            return Err(RaffleError::ExternalDependencyError);
        },
    };
    if !expected.same(&winner_account) {
        return Err(RaffleError::DataIntegrityError);
    }
    if !(winner_allocation.is_initialized && winner_allocation.raffle.same(&raffle_addr)
        && winner_allocation.ticket_count > 0) {
        return Err(RaffleError::DataIntegrityError);
    }
    raffle.winner = winner_account;
    raffle.status = RaffleStatus::Complete;
    raffle.vrf_request_in_progress = false;
    Ok(Settlement { winner_index, winner: winner_account, prize_amount: pool_balance })
}

/// The address the winning allocation must stand at, as the derivation
/// names it for this raffle and randomness.
pub open spec fn spec_derived_winner_entry(
    program_id: Address,
    raffle_addr: Address,
    vrf_result: Option<[u8; 32]>,
    total_tickets: u64,
) -> Option<Seq<u8>> {
    match vrf_result {
        Some(res) => if total_tickets > 0 {
            match spec_program_address(
                spec_winner_entry_seeds(raffle_addr@, spec_winner_index(res@, total_tickets)),
                program_id@,
            ) {
                Some(p) => Some(p.0),
                None => None,
            }
        } else {
            None
        },
        None => None,
    }
}

/// Fulfils a pending randomness request: derives the winner index from the
/// verified result, recomputes the expected winning allocation address,
/// requires the caller-supplied winner to match it exactly, marks the
/// raffle complete and returns the settlement: the raffle's whole balance
/// moves to the winner. Fails with `StateError` once the raffle is
/// complete, so a raffle settles at most once.
pub fn complete_raffle_with_vrf(
    raffle: &mut Raffle,
    program_id: Address,
    raffle_addr: Address,
    vrf_account: Address,
    vrf_result: Option<[u8; 32]>,
    winner_account: Address,
    winner_allocation: TicketPurchase,
    pool_balance: u64,
    now: i64,
    initiator_signed: bool,
) -> (r: Result<Settlement, RaffleError>)
    ensures
        r is Ok <==> initiator_signed && spec_complete_allowed(
            *old(raffle),
            vrf_account,
            vrf_result,
            now,
        ) && spec_winner_accepted(
            spec_derived_winner_entry(program_id, raffle_addr, vrf_result, old(raffle).tickets_sold),
            winner_account,
            winner_allocation,
            raffle_addr,
        ),
        r is Ok ==> ({
            let s = r->Ok_0;
            &&& s.winner_index == spec_winner_index(vrf_result->0@, old(raffle).tickets_sold)
            &&& s.winner_index < old(raffle).tickets_sold
            &&& s.winner == winner_account
            &&& s.prize_amount == pool_balance
            &&& *final(raffle) == (Raffle {
                winner: winner_account,
                status: RaffleStatus::Complete,
                vrf_request_in_progress: false,
                ..*old(raffle)
            })
        }),
        r is Err ==> *final(raffle) == *old(raffle),
        r is Err ==> r->Err_0 == spec_complete_error(
            *old(raffle),
            vrf_account,
            vrf_result,
            spec_derived_winner_entry(program_id, raffle_addr, vrf_result, old(raffle).tickets_sold),
            winner_account,
            now,
            initiator_signed,
        ),
{
    let expected_entry = match vrf_result {
        Some(res) => {
            if raffle.tickets_sold > 0 {
                let winner_index = get_random_winner_index(res, raffle.tickets_sold);
                match find_winner_entry_address(&program_id, &raffle_addr, winner_index) {
                    Some(p) => Some(p.0),
                    None => None,
                }
            } else {
                None
            }
        },
        None => None,
    };
    complete_raffle_with_entry(
        raffle,
        raffle_addr,
        vrf_account,
        vrf_result,
        expected_entry,
        winner_account,
        winner_allocation,
        pool_balance,
        now,
        initiator_signed,
    )
}

/// Law: completion is terminal. A raffle whose status is `Complete` admits
/// no further completion, no purchase and no randomness request, so a
/// raffle settles at most once and its record never regresses.
pub proof fn lemma_complete_is_terminal(
    raffle: Raffle,
    vrf_account: Address,
    vrf_result: Option<[u8; 32]>,
    now: i64,
    ticket_count: u64,
)
    requires
        raffle.status == RaffleStatus::Complete,
    ensures
        !spec_complete_allowed(raffle, vrf_account, vrf_result, now),
        !crate::raffle_ops::spec_purchase_open(raffle, now, ticket_count),
        !spec_request_allowed(raffle, now),
{
}

} // verus!
