use solcino::error::RaffleError;
use solcino::instruction::RaffleInstruction;

fn round_trip(instruction: RaffleInstruction) {
    let bytes = instruction.pack();
    let back = RaffleInstruction::unpack(&bytes).unwrap();
    assert_eq!(back, instruction);
}

#[test]
fn all_instructions_round_trip() {
    let mut title = [0u8; 32];
    title[..4].copy_from_slice(b"gold");
    round_trip(RaffleInstruction::InitializeConfig {
        ticket_price: 1_000_000_000,
        fee_basis_points: 500,
    });
    round_trip(RaffleInstruction::InitializeRaffle { title, duration: 86400, nonce: 42 });
    round_trip(RaffleInstruction::PurchaseTickets { ticket_count: 3 });
    round_trip(RaffleInstruction::CompleteRaffle {});
    round_trip(RaffleInstruction::UpdateAdmin {});
    round_trip(RaffleInstruction::UpdateFeeAddress {});
    round_trip(RaffleInstruction::UpdateTicketPrice { new_ticket_price: 25_000_000 });
    round_trip(RaffleInstruction::UpdateFeePercentage { new_fee_basis_points: 10000 });
    round_trip(RaffleInstruction::RequestRandomness {});
    round_trip(RaffleInstruction::CompleteRaffleWithVrf {});
    round_trip(RaffleInstruction::PrepareRaffle {});
}

#[test]
fn packed_bytes_are_pinned() {
    let bytes = RaffleInstruction::InitializeConfig {
        ticket_price: 1_000_000_000,
        fee_basis_points: 500,
    }
    .pack();
    assert_eq!(bytes.len(), 11);
    assert_eq!(bytes[0], 0);
    assert_eq!(&bytes[1..9], &1_000_000_000u64.to_le_bytes());
    assert_eq!(&bytes[9..11], &500u16.to_le_bytes());

    let bytes = RaffleInstruction::PurchaseTickets { ticket_count: 3 }.pack();
    assert_eq!(bytes, {
        let mut expected = vec![2u8];
        expected.extend_from_slice(&3u64.to_le_bytes());
        expected
    });

    assert_eq!(RaffleInstruction::CompleteRaffleWithVrf {}.pack(), vec![9u8]);
    assert_eq!(RaffleInstruction::PrepareRaffle {}.pack(), vec![10u8]);
}

#[test]
fn malformed_payloads_are_rejected() {
    // Empty payload.
    assert_eq!(RaffleInstruction::unpack(&[]).unwrap_err(), RaffleError::ValidationError);
    // Unknown tag.
    assert_eq!(RaffleInstruction::unpack(&[11]).unwrap_err(), RaffleError::ValidationError);
    assert_eq!(RaffleInstruction::unpack(&[255]).unwrap_err(), RaffleError::ValidationError);
    // Too few bytes for the tag's fields.
    assert_eq!(RaffleInstruction::unpack(&[0; 10]).unwrap_err(), RaffleError::ValidationError);
    assert_eq!(RaffleInstruction::unpack(&[1; 48]).unwrap_err(), RaffleError::ValidationError);
    assert_eq!(RaffleInstruction::unpack(&[2; 8]).unwrap_err(), RaffleError::ValidationError);
    assert_eq!(RaffleInstruction::unpack(&[6; 5]).unwrap_err(), RaffleError::ValidationError);
    assert_eq!(RaffleInstruction::unpack(&[7; 2]).unwrap_err(), RaffleError::ValidationError);
}

#[test]
fn trailing_payload_bytes_are_ignored() {
    let mut bytes = RaffleInstruction::PurchaseTickets { ticket_count: 9 }.pack();
    bytes.push(0xEE);
    let back = RaffleInstruction::unpack(&bytes).unwrap();
    assert_eq!(back, RaffleInstruction::PurchaseTickets { ticket_count: 9 });
}
