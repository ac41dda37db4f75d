//! A settlement engine for time-boxed raffles.
//!
//! Participants buy tickets into a raffle while it is open; a fee in basis
//! points is split off every purchase and the remainder accumulates in the
//! raffle's prize pool. Once the raffle's end time has passed, a two-phase
//! protocol ties an externally supplied source of verifiable randomness to a
//! winner index, and the whole pool is settled to the winning allocation.
//!
//! The engine itself is pure: every operation takes the relevant state
//! objects and ambient values (current time, signature flags, the verified
//! randomness) as plain arguments, mutates the state objects, and reports the
//! value transfers the host must perform. The host commits all mutations
//! atomically on success and discards them on failure.

pub mod addr;
pub mod codec;
pub mod config_ops;
pub mod error;
pub mod instruction;
pub mod pda;
pub mod raffle_ops;
pub mod state;
pub mod vrf;
