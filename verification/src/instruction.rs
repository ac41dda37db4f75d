//! The request payload of the engine: a tagged operation union.
//!
//! A payload's first byte is the operation tag; the remaining bytes are
//! fixed-width little-endian fields specific to the tag. The payload is
//! decoded once at the boundary; the engine never re-inspects raw bytes.

use vstd::prelude::*;
use vstd::bytes::{
    spec_u16_to_le_bytes, spec_u16_from_le_bytes, spec_u64_to_le_bytes, spec_u64_from_le_bytes,
    lemma_auto_spec_u16_to_from_le_bytes, lemma_auto_spec_u64_to_from_le_bytes,
};
use crate::codec::{push_bytes32, push_u16_le, push_u64_le, read_bytes32, read_u16_le, read_u64_le};
use crate::error::RaffleError;

verus! {

broadcast use vstd::array::group_array_axioms;

/// One state-changing request to the raffle engine.
#[derive(Clone, Debug, PartialEq, Eq)]
pub enum RaffleInstruction {
    /// Create the process-wide configuration.
    InitializeConfig {
        /// Price per ticket in the smallest currency unit.
        ticket_price: u64,
        /// Fee rate in basis points.
        fee_basis_points: u16,
    },
    /// Create a new raffle under the current configuration.
    InitializeRaffle {
        /// Fixed-width label, zero-padded.
        title: [u8; 32],
        /// How long the raffle accepts purchases, in seconds.
        duration: u64,
        /// Caller-chosen identifier used in the raffle's address derivation.
        nonce: u64,
    },
    /// Buy tickets into an active raffle.
    PurchaseTickets {
        /// Number of tickets to buy; must be positive.
        ticket_count: u64,
    },
    /// Close a raffle without an oracle. Deprecated: always rejected.
    CompleteRaffle {},
    /// Hand the admin authority to a new address.
    UpdateAdmin {},
    /// Point fee proceeds at a new treasury address.
    UpdateFeeAddress {},
    /// Change the configured ticket price.
    UpdateTicketPrice {
        /// New price per ticket; must be positive.
        new_ticket_price: u64,
    },
    /// Change the configured fee rate.
    UpdateFeePercentage {
        /// New fee rate in basis points; at most 10000.
        new_fee_basis_points: u16,
    },
    /// Ask the oracle for randomness once a raffle's time has ended.
    RequestRandomness {},
    /// Consume the oracle's verified result, pick the winner and settle.
    CompleteRaffleWithVrf {},
    /// Advance a raffle whose time has ended towards randomness.
    PrepareRaffle {},
}

impl RaffleInstruction {
    /// The exact bytes this instruction is transported as.
    pub open spec fn spec_pack(self) -> Seq<u8> {
        match self {
            RaffleInstruction::InitializeConfig { ticket_price, fee_basis_points } => seq![0u8]
                + spec_u64_to_le_bytes(ticket_price) + spec_u16_to_le_bytes(fee_basis_points),
            RaffleInstruction::InitializeRaffle { title, duration, nonce } => seq![1u8] + title@
                + spec_u64_to_le_bytes(duration) + spec_u64_to_le_bytes(nonce),
            RaffleInstruction::PurchaseTickets { ticket_count } => seq![2u8]
                + spec_u64_to_le_bytes(ticket_count),
            RaffleInstruction::CompleteRaffle {  } => seq![3u8],
            RaffleInstruction::UpdateAdmin {  } => seq![4u8],
            RaffleInstruction::UpdateFeeAddress {  } => seq![5u8],
            RaffleInstruction::UpdateTicketPrice { new_ticket_price } => seq![6u8]
                + spec_u64_to_le_bytes(new_ticket_price),
            RaffleInstruction::UpdateFeePercentage { new_fee_basis_points } => seq![7u8]
                + spec_u16_to_le_bytes(new_fee_basis_points),
            RaffleInstruction::RequestRandomness {  } => seq![8u8],
            RaffleInstruction::CompleteRaffleWithVrf {  } => seq![9u8],
            RaffleInstruction::PrepareRaffle {  } => seq![10u8],
        }
    }

    /// Whether a byte sequence carries a well-formed instruction: a known
    /// tag followed by enough bytes for that tag's fields. Trailing bytes
    /// are ignored.
    pub open spec fn spec_well_formed(s: Seq<u8>) -> bool {
        s.len() >= 1 && {
            let tag = s[0];
            if tag == 0 {
                s.len() >= 11
            } else if tag == 1 {
                s.len() >= 49
            } else if tag == 2 {
                s.len() >= 9
            } else if tag == 6 {
                s.len() >= 9
            } else if tag == 7 {
                s.len() >= 3
            } else {
                tag == 3 || tag == 4 || tag == 5 || tag == 8 || tag == 9 || tag == 10
            }
        }
    }

    /// Whether instruction `i` is what the byte sequence `s` denotes.
    pub open spec fn spec_denotes(i: RaffleInstruction, s: Seq<u8>) -> bool {
        match i {
            RaffleInstruction::InitializeConfig { ticket_price, fee_basis_points } => {
                &&& s.len() >= 11
                &&& s[0] == 0
                &&& ticket_price == spec_u64_from_le_bytes(s.subrange(1, 9))
                &&& fee_basis_points == spec_u16_from_le_bytes(s.subrange(9, 11))
            },
            RaffleInstruction::InitializeRaffle { title, duration, nonce } => {
                &&& s.len() >= 49
                &&& s[0] == 1
                &&& title@ == s.subrange(1, 33)
                &&& duration == spec_u64_from_le_bytes(s.subrange(33, 41))
                &&& nonce == spec_u64_from_le_bytes(s.subrange(41, 49))
            },
            RaffleInstruction::PurchaseTickets { ticket_count } => {
                &&& s.len() >= 9
                &&& s[0] == 2
                &&& ticket_count == spec_u64_from_le_bytes(s.subrange(1, 9))
            },
            RaffleInstruction::CompleteRaffle {  } => s.len() >= 1 && s[0] == 3,
            RaffleInstruction::UpdateAdmin {  } => s.len() >= 1 && s[0] == 4,
            RaffleInstruction::UpdateFeeAddress {  } => s.len() >= 1 && s[0] == 5,
            RaffleInstruction::UpdateTicketPrice { new_ticket_price } => {
                &&& s.len() >= 9
                &&& s[0] == 6
                &&& new_ticket_price == spec_u64_from_le_bytes(s.subrange(1, 9))
            },
            RaffleInstruction::UpdateFeePercentage { new_fee_basis_points } => {
                &&& s.len() >= 3
                &&& s[0] == 7
                &&& new_fee_basis_points == spec_u16_from_le_bytes(s.subrange(1, 3))
            },
            RaffleInstruction::RequestRandomness {  } => s.len() >= 1 && s[0] == 8,
            RaffleInstruction::CompleteRaffleWithVrf {  } => s.len() >= 1 && s[0] == 9,
            RaffleInstruction::PrepareRaffle {  } => s.len() >= 1 && s[0] == 10,
        }
    }

    /// Packs the instruction into its transport bytes.
    pub fn pack(&self) -> (out: Vec<u8>)
        ensures
            out@ == self.spec_pack(),
    {
        let mut buf: Vec<u8> = Vec::new();
        match self {
            RaffleInstruction::InitializeConfig { ticket_price, fee_basis_points } => {
                buf.push(0);
                push_u64_le(&mut buf, *ticket_price);
                push_u16_le(&mut buf, *fee_basis_points);
            },
            RaffleInstruction::InitializeRaffle { title, duration, nonce } => {
                buf.push(1);
                push_bytes32(&mut buf, title);
                push_u64_le(&mut buf, *duration);
                push_u64_le(&mut buf, *nonce);
            },
            RaffleInstruction::PurchaseTickets { ticket_count } => {
                buf.push(2);
                push_u64_le(&mut buf, *ticket_count);
            },
            RaffleInstruction::CompleteRaffle {  } => {
                buf.push(3);
            },
            RaffleInstruction::UpdateAdmin {  } => {
                buf.push(4);
            },
            RaffleInstruction::UpdateFeeAddress {  } => {
                buf.push(5);
            },
            RaffleInstruction::UpdateTicketPrice { new_ticket_price } => {
                buf.push(6);
                push_u64_le(&mut buf, *new_ticket_price);
            },
            RaffleInstruction::UpdateFeePercentage { new_fee_basis_points } => {
                buf.push(7);
                push_u16_le(&mut buf, *new_fee_basis_points);
            },
            RaffleInstruction::RequestRandomness {  } => {
                buf.push(8);
            },
            RaffleInstruction::CompleteRaffleWithVrf {  } => {
                buf.push(9);
            },
            RaffleInstruction::PrepareRaffle {  } => {
                buf.push(10);
            },
        }
        proof {
            assert(buf@ =~= self.spec_pack());
        }
        buf
    }

    /// Unpacks an instruction from its transport bytes. Fails on an empty
    /// payload, an unknown tag, or too few bytes for the tag's fields.
    pub fn unpack(input: &[u8]) -> (r: Result<RaffleInstruction, RaffleError>)
        ensures
            r is Ok <==> Self::spec_well_formed(input@),
            r is Ok ==> Self::spec_denotes(r->Ok_0, input@),
            r is Err ==> r->Err_0 == RaffleError::ValidationError,
    {
        if input.len() < 1 {
            return Err(RaffleError::ValidationError);
        }
        let tag = input[0];
        match tag {
            0 => {
                if input.len() < 11 {
                    return Err(RaffleError::ValidationError);
                }
                Ok(
                    RaffleInstruction::InitializeConfig {
                        ticket_price: read_u64_le(input, 1),
                        fee_basis_points: read_u16_le(input, 9),
                    },
                )
            },
            1 => {
                if input.len() < 49 {
                    return Err(RaffleError::ValidationError);
                }
                Ok(
                    RaffleInstruction::InitializeRaffle {
                        title: read_bytes32(input, 1),
                        duration: read_u64_le(input, 33),
                        nonce: read_u64_le(input, 41),
                    },
                )
            },
            2 => {
                if input.len() < 9 {
                    return Err(RaffleError::ValidationError);
                }
                Ok(RaffleInstruction::PurchaseTickets { ticket_count: read_u64_le(input, 1) })
            },
            3 => Ok(RaffleInstruction::CompleteRaffle {  }),
            4 => Ok(RaffleInstruction::UpdateAdmin {  }),
            5 => Ok(RaffleInstruction::UpdateFeeAddress {  }),
            6 => {
                if input.len() < 9 {
                    return Err(RaffleError::ValidationError);
                }
                Ok(
                    RaffleInstruction::UpdateTicketPrice {
                        new_ticket_price: read_u64_le(input, 1),
                    },
                )
            },
            7 => {
                if input.len() < 3 {
                    return Err(RaffleError::ValidationError);
                }
                Ok(
                    RaffleInstruction::UpdateFeePercentage {
                        new_fee_basis_points: read_u16_le(input, 1),
                    },
                )
            },
            8 => Ok(RaffleInstruction::RequestRandomness {  }),
            9 => Ok(RaffleInstruction::CompleteRaffleWithVrf {  }),
            10 => Ok(RaffleInstruction::PrepareRaffle {  }),
            _ => Err(RaffleError::ValidationError),
        }
    }
}

/// Law: packing never loses information. The packed bytes of an instruction
/// are well formed and denote exactly that instruction, so unpacking them
/// gives the instruction back.
pub proof fn lemma_pack_round_trip(i: RaffleInstruction)
    ensures
        RaffleInstruction::spec_well_formed(i.spec_pack()),
        RaffleInstruction::spec_denotes(i, i.spec_pack()),
{
    lemma_auto_spec_u16_to_from_le_bytes();
    lemma_auto_spec_u64_to_from_le_bytes();
    let s = i.spec_pack();
    match i {
        RaffleInstruction::InitializeConfig { ticket_price, fee_basis_points } => {
            assert(s.subrange(1, 9) =~= spec_u64_to_le_bytes(ticket_price));
            assert(s.subrange(9, 11) =~= spec_u16_to_le_bytes(fee_basis_points));
        },
        RaffleInstruction::InitializeRaffle { title, duration, nonce } => {
            assert(s.subrange(1, 33) =~= title@);
            assert(s.subrange(33, 41) =~= spec_u64_to_le_bytes(duration));
            assert(s.subrange(41, 49) =~= spec_u64_to_le_bytes(nonce));
        },
        RaffleInstruction::PurchaseTickets { ticket_count } => {
            assert(s.subrange(1, 9) =~= spec_u64_to_le_bytes(ticket_count));
        },
        RaffleInstruction::UpdateTicketPrice { new_ticket_price } => {
            assert(s.subrange(1, 9) =~= spec_u64_to_le_bytes(new_ticket_price));
        },
        RaffleInstruction::UpdateFeePercentage { new_fee_basis_points } => {
            assert(s.subrange(1, 3) =~= spec_u16_to_le_bytes(new_fee_basis_points));
        },
        _ => {},
    }
}

/// Law: a byte sequence denotes at most one instruction.
pub proof fn lemma_denotation_unique(i1: RaffleInstruction, i2: RaffleInstruction, s: Seq<u8>)
    requires
        RaffleInstruction::spec_denotes(i1, s),
        RaffleInstruction::spec_denotes(i2, s),
    ensures
        i1 == i2,
{
    match (i1, i2) {
        (
            RaffleInstruction::InitializeRaffle { title: t1, .. },
            RaffleInstruction::InitializeRaffle { title: t2, .. },
        ) => {
            assert(t1@ == t2@);
            assert(t1 =~= t2);
        },
        _ => {},
    }
}

} // verus!
