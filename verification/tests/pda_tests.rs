use solana_program::pubkey::Pubkey;
use solcino::addr::Address;
use solcino::pda::{find_entry_address, find_raffle_address, find_winner_entry_address};

fn addr(n: u8) -> Address {
    Address { bytes: [n; 32] }
}

#[test]
fn raffle_address_matches_host_derivation() {
    let program_id = addr(9);
    let raffle_id: u64 = 42;
    let (derived, bump) = find_raffle_address(&program_id, raffle_id).unwrap();
    let (expected, expected_bump) = Pubkey::find_program_address(
        &[b"raffle", &raffle_id.to_le_bytes()],
        &Pubkey::new_from_array(program_id.bytes),
    );
    assert_eq!(derived.bytes, expected.to_bytes());
    assert_eq!(bump, expected_bump);
    // The derivation did not just hand an input back.
    assert_ne!(derived.bytes, program_id.bytes);
}

#[test]
fn entry_address_matches_host_derivation() {
    let program_id = addr(9);
    let user = addr(3);
    let raffle_id: u64 = 42;
    let (derived, bump) = find_entry_address(&program_id, raffle_id, &user).unwrap();
    let (expected, expected_bump) = Pubkey::find_program_address(
        &[b"entry", &raffle_id.to_le_bytes(), &user.bytes],
        &Pubkey::new_from_array(program_id.bytes),
    );
    assert_eq!(derived.bytes, expected.to_bytes());
    assert_eq!(bump, expected_bump);
    assert_ne!(derived.bytes, user.bytes);
    assert_ne!(derived.bytes, program_id.bytes);
}

#[test]
fn winner_entry_address_matches_host_derivation() {
    let program_id = addr(9);
    let raffle_addr = addr(4);
    let winner_index: u64 = 7;
    let (derived, bump) =
        find_winner_entry_address(&program_id, &raffle_addr, winner_index).unwrap();
    let (expected, expected_bump) = Pubkey::find_program_address(
        &[b"entry", &raffle_addr.bytes, &winner_index.to_le_bytes()],
        &Pubkey::new_from_array(program_id.bytes),
    );
    assert_eq!(derived.bytes, expected.to_bytes());
    assert_eq!(bump, expected_bump);
}

#[test]
fn derivation_is_deterministic_and_input_sensitive() {
    let program_id = addr(9);
    let first = find_raffle_address(&program_id, 1).unwrap();
    let again = find_raffle_address(&program_id, 1).unwrap();
    assert_eq!(first.0.bytes, again.0.bytes);
    assert_eq!(first.1, again.1);
    let other_id = find_raffle_address(&program_id, 2).unwrap();
    assert_ne!(first.0.bytes, other_id.0.bytes);
    let other_program = find_raffle_address(&addr(10), 1).unwrap();
    assert_ne!(first.0.bytes, other_program.0.bytes);
}
