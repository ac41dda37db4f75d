use solcino::addr::Address;
use solcino::codec::{CONFIG_LEN, RAFFLE_LEN, TICKET_PURCHASE_LEN};
use solcino::error::RaffleError;
use solcino::state::{Config, Raffle, RaffleStatus, TicketPurchase};

fn addr(n: u8) -> Address {
    Address { bytes: [n; 32] }
}

fn sample_config() -> Config {
    Config {
        is_initialized: true,
        admin: addr(1),
        treasury: addr(2),
        ticket_price: 1_000_000_000,
        fee_basis_points: 500,
        next_raffle_index: 17,
    }
}

fn sample_raffle() -> Raffle {
    let mut title = [0u8; 32];
    title[..5].copy_from_slice(b"prize");
    Raffle {
        is_initialized: true,
        authority: addr(3),
        title,
        end_time: -62_135_596_800, // a negative timestamp survives the codec
        ticket_price: 25_000_000,
        status: RaffleStatus::ReadyForRandomness,
        winner: addr(0),
        tickets_sold: 12,
        fee_basis_points: 10000,
        treasury: addr(2),
        vrf_account: addr(5),
        vrf_request_in_progress: true,
        nonce: 999,
        raffle_index: 3,
    }
}

fn sample_purchase() -> TicketPurchase {
    TicketPurchase {
        is_initialized: true,
        raffle: addr(4),
        purchaser: addr(3),
        ticket_count: 7,
        purchase_time: 1_700_000_123,
    }
}

#[test]
fn config_round_trip() {
    let config = sample_config();
    let mut bytes = Vec::new();
    config.pack_into_slice(&mut bytes);
    assert_eq!(bytes.len(), CONFIG_LEN);
    let back = Config::unpack_from_slice(&bytes).unwrap();
    assert_eq!(back, config);
}

#[test]
fn raffle_round_trip() {
    let raffle = sample_raffle();
    let mut bytes = Vec::new();
    raffle.pack_into_slice(&mut bytes);
    assert_eq!(bytes.len(), RAFFLE_LEN);
    let back = Raffle::unpack_from_slice(&bytes).unwrap();
    assert_eq!(back, raffle);
}

#[test]
fn ticket_purchase_round_trip() {
    let purchase = sample_purchase();
    let mut bytes = Vec::new();
    purchase.pack_into_slice(&mut bytes);
    assert_eq!(bytes.len(), TICKET_PURCHASE_LEN);
    let back = TicketPurchase::unpack_from_slice(&bytes).unwrap();
    assert_eq!(back, purchase);
}

#[test]
fn layout_offsets_are_pinned() {
    let config = sample_config();
    let mut bytes = Vec::new();
    config.pack_into_slice(&mut bytes);
    assert_eq!(bytes[0], 1); // is_initialized
    assert_eq!(&bytes[1..33], &[1u8; 32]); // admin
    assert_eq!(&bytes[33..65], &[2u8; 32]); // treasury
    assert_eq!(&bytes[65..73], &1_000_000_000u64.to_le_bytes()); // ticket_price
    assert_eq!(&bytes[73..75], &500u16.to_le_bytes()); // fee_basis_points
    assert_eq!(&bytes[75..83], &17u64.to_le_bytes()); // next_raffle_index

    let raffle = sample_raffle();
    let mut bytes = Vec::new();
    raffle.pack_into_slice(&mut bytes);
    assert_eq!(bytes[81], 1); // status byte of ReadyForRandomness
    assert_eq!(&bytes[114..122], &12u64.to_le_bytes()); // tickets_sold
    assert_eq!(bytes[188], 1); // vrf_request_in_progress
    assert_eq!(&bytes[65..73], &(-62_135_596_800i64).to_le_bytes()); // end_time
}

#[test]
fn short_buffers_are_rejected() {
    assert_eq!(
        Config::unpack_from_slice(&[0u8; CONFIG_LEN - 1]).unwrap_err(),
        RaffleError::ValidationError
    );
    assert_eq!(
        Raffle::unpack_from_slice(&[0u8; RAFFLE_LEN - 1]).unwrap_err(),
        RaffleError::ValidationError
    );
    assert_eq!(
        TicketPurchase::unpack_from_slice(&[]).unwrap_err(),
        RaffleError::ValidationError
    );
}

#[test]
fn unknown_status_byte_is_rejected() {
    let raffle = sample_raffle();
    let mut bytes = Vec::new();
    raffle.pack_into_slice(&mut bytes);
    bytes[81] = 3;
    assert_eq!(Raffle::unpack_from_slice(&bytes).unwrap_err(), RaffleError::ValidationError);
}

#[test]
fn trailing_bytes_are_ignored() {
    let purchase = sample_purchase();
    let mut bytes = Vec::new();
    purchase.pack_into_slice(&mut bytes);
    bytes.push(0xAB);
    bytes.push(0xCD);
    let back = TicketPurchase::unpack_from_slice(&bytes).unwrap();
    assert_eq!(back, purchase);
}

#[test]
fn nonzero_bool_bytes_read_as_true() {
    let config = sample_config();
    let mut bytes = Vec::new();
    config.pack_into_slice(&mut bytes);
    bytes[0] = 7;
    let back = Config::unpack_from_slice(&bytes).unwrap();
    assert!(back.is_initialized);
}

#[test]
fn status_bytes_round_trip() {
    for status in [RaffleStatus::Active, RaffleStatus::ReadyForRandomness, RaffleStatus::Complete]
    {
        assert_eq!(RaffleStatus::from_byte(status.to_byte()).unwrap(), status);
    }
    assert_eq!(RaffleStatus::from_byte(0).unwrap(), RaffleStatus::Active);
    assert_eq!(RaffleStatus::from_byte(2).unwrap(), RaffleStatus::Complete);
    assert_eq!(RaffleStatus::from_byte(3).unwrap_err(), RaffleError::ValidationError);
    assert_eq!(RaffleStatus::from_byte(255).unwrap_err(), RaffleError::ValidationError);
}
