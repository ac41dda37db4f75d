//! The persisted state objects of the raffle engine.
//!
//! Three kinds of objects exist: one process-wide `Config`, one `Raffle`
//! record per raffle, and one `TicketPurchase` allocation per purchaser and
//! raffle. Every object carries an `is_initialized` flag in its first byte so
//! that a freshly allocated (all-zero) object reads as uninitialized.

use vstd::prelude::*;
use crate::addr::Address;
use crate::error::RaffleError;

verus! {

/// A fee rate is expressed in basis points out of this denominator.
pub const BPS_DENOMINATOR: u64 = 10000;

/// Status of a raffle. It only ever advances forward.
#[derive(Clone, Copy, Debug, PartialEq, Eq, Structural)]
pub enum RaffleStatus {
    /// The raffle is open for ticket purchases.
    Active,
    /// The raffle's time has ended; randomness may now be requested.
    ReadyForRandomness,
    /// A winner has been chosen and the pool settled; the record is final.
    Complete,
}

impl RaffleStatus {
    /// The byte under which each status is persisted.
    pub open spec fn spec_byte(self) -> u8 {
        match self {
            RaffleStatus::Active => 0,
            RaffleStatus::ReadyForRandomness => 1,
            RaffleStatus::Complete => 2,
        }
    }

    /// The status a persisted byte denotes, if any.
    pub open spec fn spec_of_byte(b: u8) -> Option<RaffleStatus> {
        if b == 0 {
            Some(RaffleStatus::Active)
        } else if b == 1 {
            Some(RaffleStatus::ReadyForRandomness)
        } else if b == 2 {
            Some(RaffleStatus::Complete)
        } else {
            None
        }
    }

    /// Encodes the status as its persisted byte.
    pub fn to_byte(self) -> (b: u8)
        ensures
            b == self.spec_byte(),
            Self::spec_of_byte(b) == Some(self),
    {
        match self {
            RaffleStatus::Active => 0,
            RaffleStatus::ReadyForRandomness => 1,
            RaffleStatus::Complete => 2,
        }
    }

    /// Decodes a persisted byte; any byte above 2 is rejected.
    pub fn from_byte(b: u8) -> (r: Result<RaffleStatus, RaffleError>)
        ensures
            r is Ok <==> Self::spec_of_byte(b) is Some,
            r is Ok ==> Self::spec_of_byte(b) == Some(r->Ok_0),
            r is Err ==> r->Err_0 == RaffleError::ValidationError,
    {
        match b {
            0 => Ok(RaffleStatus::Active),
            1 => Ok(RaffleStatus::ReadyForRandomness),
            2 => Ok(RaffleStatus::Complete),
            _ => Err(RaffleError::ValidationError),
        }
    }
}

/// Preset raffle durations.
#[derive(Clone, Copy, Debug, PartialEq, Eq, Structural)]
pub enum RaffleType {
    /// One hour.
    OneHour,
    /// One day.
    OneDay,
    /// One week.
    OneWeek,
    /// One month of thirty days.
    OneMonth,
}

impl RaffleType {
    /// The type each code denotes; an unknown code falls back to one hour.
    pub open spec fn spec_of_code(code: u8) -> RaffleType {
        if code == 1 {
            RaffleType::OneHour
        } else if code == 2 {
            RaffleType::OneDay
        } else if code == 3 {
            RaffleType::OneWeek
        } else if code == 4 {
            RaffleType::OneMonth
        } else {
            RaffleType::OneHour
        }
    }

    /// The duration of each type, in seconds.
    pub open spec fn spec_duration(self) -> u64 {
        match self {
            RaffleType::OneHour => 3600,
            RaffleType::OneDay => 86400,
            RaffleType::OneWeek => 604800,
            RaffleType::OneMonth => 2592000,
        }
    }

    /// Decodes a duration code; an unknown code falls back to one hour.
    pub fn from_code(code: u8) -> (r: RaffleType)
        ensures
            r == Self::spec_of_code(code),
    {
        match code {
            1 => RaffleType::OneHour,
            2 => RaffleType::OneDay,
            3 => RaffleType::OneWeek,
            4 => RaffleType::OneMonth,
            _ => RaffleType::OneHour,
        }
    }

    /// The duration of this type, in seconds.
    pub fn duration_seconds(self) -> (d: u64)
        ensures
            d == self.spec_duration(),
    {
        match self {
            RaffleType::OneHour => 3600,
            RaffleType::OneDay => 86400,
            RaffleType::OneWeek => 604800,
            RaffleType::OneMonth => 2592000,
        }
    }
}

/// The process-wide configuration object.
#[derive(Clone, Copy, Debug, PartialEq, Eq)]
pub struct Config {
    /// Whether the object has been initialized.
    pub is_initialized: bool,
    /// The only authority allowed to mutate the configuration.
    pub admin: Address,
    /// The address that receives fee proceeds.
    pub treasury: Address,
    /// Price per ticket, in the smallest currency unit.
    pub ticket_price: u64,
    /// Fee rate in basis points, at most 10000.
    pub fee_basis_points: u16,
    /// Counter handing out sequential raffle indexes.
    pub next_raffle_index: u64,
}

impl Config {
    /// The invariant every initialized configuration satisfies.
    pub open spec fn valid(self) -> bool {
        self.fee_basis_points as u64 <= BPS_DENOMINATOR
    }
}

impl Default for Config {
    /// The built-in fallback configuration: admin and treasury both point at
    /// the deployer's address, a ticket costs 25 million currency units, and
    /// the fee rate is 1000 basis points.
    fn default() -> (c: Config)
        ensures
            c.is_initialized,
            c.valid(),
            c.ticket_price == 25_000_000,
            c.fee_basis_points == 1000,
            c.next_raffle_index == 1,
            c.admin == c.treasury,
    {
        let deployer = Address::new(
            [
                138, 182, 136, 21, 23, 151, 163, 26, 122, 255, 174, 159, 169, 142, 30, 115, 28,
                171, 155, 60, 15, 195, 103, 130, 203, 87, 100, 253, 237, 131, 212, 42,
            ],
        );
        Config {
            is_initialized: true,
            admin: deployer,
            treasury: deployer,
            ticket_price: 25_000_000,
            fee_basis_points: 1000,
            next_raffle_index: 1,
        }
    }
}

/// One raffle's persisted record.
#[derive(Clone, Copy, Debug, PartialEq, Eq)]
pub struct Raffle {
    /// Whether the object has been initialized.
    pub is_initialized: bool,
    /// The creator of the raffle. Informational: completion is open to all.
    pub authority: Address,
    /// A fixed-width label, zero-padded.
    pub title: [u8; 32],
    /// Purchases are accepted while the ambient time is before this instant.
    pub end_time: i64,
    /// Price per ticket, snapshotted from the configuration at creation.
    pub ticket_price: u64,
    /// Where the raffle stands in its lifecycle.
    pub status: RaffleStatus,
    /// The winning allocation's address; all-zero until settlement.
    pub winner: Address,
    /// Total tickets sold; only ever increases.
    pub tickets_sold: u64,
    /// Fee rate in basis points, snapshotted from the configuration.
    pub fee_basis_points: u16,
    /// Fee recipient, snapshotted from the configuration.
    pub treasury: Address,
    /// The oracle account recorded by a randomness request; all-zero before.
    pub vrf_account: Address,
    /// Whether a randomness request is pending fulfilment.
    pub vrf_request_in_progress: bool,
    /// Caller-chosen identifier used in the raffle's address derivation.
    pub nonce: u64,
    /// Sequential index handed out by the configuration at creation.
    pub raffle_index: u64,
}

impl Raffle {
    /// The invariant every initialized raffle satisfies.
    pub open spec fn valid(self) -> bool {
        self.fee_basis_points as u64 <= BPS_DENOMINATOR
    }

    /// Whether purchases are closed at the given ambient time.
    pub open spec fn spec_has_ended(self, current_time: i64) -> bool {
        current_time >= self.end_time
    }

    /// Whether purchases are closed at the given ambient time.
    pub fn has_ended(&self, current_time: i64) -> (r: bool)
        ensures
            r == self.spec_has_ended(current_time),
    {
        current_time >= self.end_time
    }
}

/// One purchaser's accumulated allocation in one raffle.
#[derive(Clone, Copy, Debug, PartialEq, Eq)]
pub struct TicketPurchase {
    /// Whether the object has been initialized.
    pub is_initialized: bool,
    /// The raffle this allocation belongs to.
    pub raffle: Address,
    /// The purchaser owning this allocation.
    pub purchaser: Address,
    /// Tickets bought so far; only ever increases.
    pub ticket_count: u64,
    /// The time of the latest contribution.
    pub purchase_time: i64,
}

} // verus!
