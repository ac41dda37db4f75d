use solcino::addr::Address;
use solcino::config_ops::{
    initialize_config, update_admin, update_fee_address, update_fee_percentage,
    update_ticket_price,
};
use solcino::error::RaffleError;
use solcino::raffle_ops::{calculate_entries, calculate_fee, initialize_raffle, purchase_tickets};
use solcino::state::{Config, Raffle, RaffleStatus, RaffleType, TicketPurchase};
use solcino::vrf::{
    complete_raffle_with_vrf, get_random_winner_index, request_randomness, Settlement,
};
use solcino::pda::find_winner_entry_address;

fn addr(n: u8) -> Address {
    Address { bytes: [n; 32] }
}

fn blank_config() -> Config {
    Config {
        is_initialized: false,
        admin: addr(0),
        treasury: addr(0),
        ticket_price: 0,
        fee_basis_points: 0,
        next_raffle_index: 0,
    }
}

fn ready_config(price: u64, fee_bps: u16) -> Config {
    let mut config = blank_config();
    initialize_config(&mut config, addr(1), true, addr(2), price, fee_bps).unwrap();
    config
}

const NOW: i64 = 1_700_000_000;

fn active_raffle(config: &mut Config, duration: u64) -> Raffle {
    initialize_raffle(config, addr(1), true, [0u8; 32], duration, 0, NOW).unwrap()
}

#[test]
fn fee_plus_pool_rebuilds_total() {
    // ticket_price = 1 coin, fee 5%: 3 tickets split exactly.
    let mut config = ready_config(1_000_000_000, 500);
    let mut raffle = active_raffle(&mut config, 3600);
    let (_, receipt) =
        purchase_tickets(&mut raffle, addr(4), None, addr(3), true, NOW + 1, 3).unwrap();
    assert_eq!(receipt.total_price, 3_000_000_000);
    assert_eq!(receipt.fee_amount, 150_000_000);
    assert_eq!(receipt.pool_amount, 2_850_000_000);
    assert_eq!(receipt.fee_amount + receipt.pool_amount, receipt.total_price);

    // An odd rate that truncates: 333 bps of 7 tickets at 999 units each.
    let mut config = ready_config(999, 333);
    let mut raffle = active_raffle(&mut config, 3600);
    let (_, receipt) =
        purchase_tickets(&mut raffle, addr(4), None, addr(3), true, NOW + 1, 7).unwrap();
    assert_eq!(receipt.total_price, 6993);
    assert_eq!(receipt.fee_amount, 6993 * 333 / 10000);
    assert_eq!(receipt.fee_amount + receipt.pool_amount, receipt.total_price);
}

#[test]
fn ticket_sum_matches_tickets_sold() {
    let mut config = ready_config(10, 1000);
    let mut raffle = active_raffle(&mut config, 3600);
    let raffle_addr = addr(4);
    let mut allocations: Vec<TicketPurchase> = Vec::new();
    for (purchaser, count) in [(10u8, 2u64), (11, 5), (12, 1)] {
        let (alloc, _) =
            purchase_tickets(&mut raffle, raffle_addr, None, addr(purchaser), true, NOW + 1, count)
                .unwrap();
        allocations.push(alloc);
    }
    // A repeat purchase by the first purchaser accumulates in place.
    let (updated, _) = purchase_tickets(
        &mut raffle,
        raffle_addr,
        Some(allocations[0]),
        addr(10),
        true,
        NOW + 2,
        4,
    )
    .unwrap();
    allocations[0] = updated;
    let total: u64 = allocations.iter().map(|a| a.ticket_count).sum();
    assert_eq!(total, raffle.tickets_sold);
    assert_eq!(total, 12);
}

#[test]
fn repeat_purchase_accumulates() {
    let mut config = ready_config(100, 0);
    let mut raffle = active_raffle(&mut config, 3600);
    let raffle_addr = addr(4);
    let purchaser = addr(3);
    let (first, _) =
        purchase_tickets(&mut raffle, raffle_addr, None, purchaser, true, NOW + 1, 2).unwrap();
    assert_eq!(first.ticket_count, 2);
    let (second, _) =
        purchase_tickets(&mut raffle, raffle_addr, Some(first), purchaser, true, NOW + 2, 3)
            .unwrap();
    assert_eq!(second.ticket_count, 5);
    assert_eq!(raffle.tickets_sold, 5);
    assert_eq!(second.purchase_time, NOW + 2);
}

fn settled_raffle() -> (Raffle, TicketPurchase, Settlement, Address, Address, Address) {
    let mut config = ready_config(1_000_000_000, 500);
    let mut raffle = active_raffle(&mut config, 60);
    let program_id = addr(9);
    let raffle_addr = addr(4);
    let (alloc, receipt) =
        purchase_tickets(&mut raffle, raffle_addr, None, addr(3), true, NOW + 1, 3).unwrap();
    let vrf_account = addr(5);
    request_randomness(&mut raffle, vrf_account, addr(6), true, true, NOW + 61).unwrap();
    let vrf_result = [42u8; 32];
    let index = u64::from_le_bytes([42u8; 8]) % raffle.tickets_sold;
    let (winner, _) = find_winner_entry_address(&program_id, &raffle_addr, index).unwrap();
    let settlement = complete_raffle_with_vrf(
        &mut raffle,
        program_id,
        raffle_addr,
        vrf_account,
        Some(vrf_result),
        winner,
        alloc,
        receipt.pool_amount,
        NOW + 62,
        true,
    )
    .unwrap();
    (raffle, alloc, settlement, program_id, raffle_addr, vrf_account)
}

#[test]
fn complete_twice_fails_with_state_error() {
    let (mut raffle, alloc, settlement, program_id, raffle_addr, vrf_account) = settled_raffle();
    assert_eq!(raffle.status, RaffleStatus::Complete);
    let again = complete_raffle_with_vrf(
        &mut raffle,
        program_id,
        raffle_addr,
        vrf_account,
        Some([42u8; 32]),
        settlement.winner,
        alloc,
        0,
        NOW + 63,
        true,
    );
    assert_eq!(again.unwrap_err(), RaffleError::StateError);
    assert_eq!(raffle.status, RaffleStatus::Complete);
}

#[test]
fn winner_index_stays_in_range() {
    let patterns: [[u8; 32]; 4] = [[0u8; 32], [0xFF; 32], [42; 32], [7; 32]];
    for totals in [1u64, 2, 3, 7, 1000, u64::MAX] {
        for p in patterns {
            let index = get_random_winner_index(p, totals);
            assert!(index < totals);
        }
    }
    // The exact reduction: first eight bytes little-endian, mod the count.
    let mut bytes = [0u8; 32];
    bytes[0] = 0x39;
    bytes[1] = 0x30;
    assert_eq!(get_random_winner_index(bytes, 100), 45); // 12345 % 100
    assert_eq!(get_random_winner_index(bytes, u64::MAX), 12345);
    // No tickets: index degenerates to zero.
    assert_eq!(get_random_winner_index(bytes, 0), 0);
}

#[test]
fn purchase_scenario_splits_exactly() {
    let mut config = ready_config(1_000_000_000, 500);
    let mut raffle = active_raffle(&mut config, 3600);
    let (_, receipt) =
        purchase_tickets(&mut raffle, addr(4), None, addr(3), true, NOW + 1, 3).unwrap();
    assert_eq!(receipt.total_price, 3_000_000_000);
    assert_eq!(receipt.fee_amount, 150_000_000);
    assert_eq!(receipt.pool_amount, 2_850_000_000);
}

#[test]
fn fee_percentage_bounds() {
    let mut config = ready_config(100, 0);
    let err = update_fee_percentage(&mut config, addr(1), true, 10001).unwrap_err();
    assert_eq!(err, RaffleError::ValidationError);
    assert_eq!(config.fee_basis_points, 0);
    update_fee_percentage(&mut config, addr(1), true, 10000).unwrap();
    assert_eq!(config.fee_basis_points, 10000);
}

#[test]
fn purchase_after_end_fails_with_state_error() {
    let mut config = ready_config(100, 500);
    let mut raffle = active_raffle(&mut config, 60);
    let end = raffle.end_time;
    for count in [0u64, 1, 3, u64::MAX] {
        let r = purchase_tickets(&mut raffle, addr(4), None, addr(3), true, end, count);
        assert_eq!(r.unwrap_err(), RaffleError::StateError);
        let r = purchase_tickets(&mut raffle, addr(4), None, addr(3), true, end + 100, count);
        assert_eq!(r.unwrap_err(), RaffleError::StateError);
    }
    assert_eq!(raffle.tickets_sold, 0);
}

#[test]
fn second_randomness_request_fails_with_state_error() {
    let mut config = ready_config(100, 500);
    let mut raffle = active_raffle(&mut config, 60);
    purchase_tickets(&mut raffle, addr(4), None, addr(3), true, NOW + 1, 2).unwrap();
    request_randomness(&mut raffle, addr(5), addr(6), true, true, NOW + 61).unwrap();
    assert!(raffle.vrf_request_in_progress);
    let again = request_randomness(&mut raffle, addr(7), addr(6), true, true, NOW + 62);
    assert_eq!(again.unwrap_err(), RaffleError::StateError);
    // The first request's oracle account stays recorded.
    assert_eq!(raffle.vrf_account, addr(5));
}

#[test]
fn unsigned_callers_are_rejected() {
    let mut config = blank_config();
    let err = initialize_config(&mut config, addr(1), false, addr(2), 100, 500).unwrap_err();
    assert_eq!(err, RaffleError::AuthorizationError);
    let mut config = ready_config(100, 500);
    let err = update_admin(&mut config, addr(1), false, addr(7)).unwrap_err();
    assert_eq!(err, RaffleError::AuthorizationError);
    let mut raffle = active_raffle(&mut config, 60);
    let err = purchase_tickets(&mut raffle, addr(4), None, addr(3), false, NOW + 1, 1)
        .unwrap_err();
    assert_eq!(err, RaffleError::AuthorizationError);
}

#[test]
fn wrong_admin_is_rejected() {
    let mut config = ready_config(100, 500);
    let err = update_admin(&mut config, addr(8), true, addr(7)).unwrap_err();
    assert_eq!(err, RaffleError::AuthorizationError);
    let err = update_fee_address(&mut config, addr(8), true, addr(7)).unwrap_err();
    assert_eq!(err, RaffleError::AuthorizationError);
    assert_eq!(config.admin, addr(1));
}

#[test]
fn admin_handover_and_treasury_update() {
    let mut config = ready_config(100, 500);
    update_admin(&mut config, addr(1), true, addr(7)).unwrap();
    assert_eq!(config.admin, addr(7));
    // The old admin has lost its authority.
    let err = update_fee_address(&mut config, addr(1), true, addr(9)).unwrap_err();
    assert_eq!(err, RaffleError::AuthorizationError);
    update_fee_address(&mut config, addr(7), true, addr(9)).unwrap();
    assert_eq!(config.treasury, addr(9));
}

#[test]
fn zero_ticket_price_is_rejected() {
    let mut config = ready_config(100, 500);
    let err = update_ticket_price(&mut config, addr(1), true, 0).unwrap_err();
    assert_eq!(err, RaffleError::ValidationError);
    update_ticket_price(&mut config, addr(1), true, 25_000_000).unwrap();
    assert_eq!(config.ticket_price, 25_000_000);
}

#[test]
fn double_initialize_config_fails() {
    let mut config = ready_config(100, 500);
    let err = initialize_config(&mut config, addr(1), true, addr(2), 100, 500).unwrap_err();
    assert_eq!(err, RaffleError::StateError);
}

#[test]
fn overflowing_purchase_fails_with_arithmetic_error() {
    let mut config = ready_config(u64::MAX, 500);
    let mut raffle = active_raffle(&mut config, 3600);
    let err =
        purchase_tickets(&mut raffle, addr(4), None, addr(3), true, NOW + 1, 2).unwrap_err();
    assert_eq!(err, RaffleError::ArithmeticError);
    // One ticket at the maximum price overflows the fee computation instead.
    let err =
        purchase_tickets(&mut raffle, addr(4), None, addr(3), true, NOW + 1, 1).unwrap_err();
    assert_eq!(err, RaffleError::ArithmeticError);
}

#[test]
fn mismatched_allocation_fails_with_data_integrity_error() {
    let mut config = ready_config(100, 500);
    let mut raffle = active_raffle(&mut config, 3600);
    let raffle_addr = addr(4);
    let (alloc, _) =
        purchase_tickets(&mut raffle, raffle_addr, None, addr(3), true, NOW + 1, 1).unwrap();
    // Another purchaser may not extend this allocation.
    let err = purchase_tickets(&mut raffle, raffle_addr, Some(alloc), addr(8), true, NOW + 2, 1)
        .unwrap_err();
    assert_eq!(err, RaffleError::DataIntegrityError);
    // Nor may the allocation be replayed against another raffle.
    let err = purchase_tickets(&mut raffle, addr(13), Some(alloc), addr(3), true, NOW + 2, 1)
        .unwrap_err();
    assert_eq!(err, RaffleError::DataIntegrityError);
}

#[test]
fn oracle_mismatch_fails_with_external_dependency_error() {
    let mut config = ready_config(1_000_000_000, 500);
    let mut raffle = active_raffle(&mut config, 60);
    let program_id = addr(9);
    let raffle_addr = addr(4);
    let (alloc, receipt) =
        purchase_tickets(&mut raffle, raffle_addr, None, addr(3), true, NOW + 1, 3).unwrap();
    request_randomness(&mut raffle, addr(5), addr(6), true, true, NOW + 61).unwrap();
    // A different oracle account than the one recorded.
    let err = complete_raffle_with_vrf(
        &mut raffle,
        program_id,
        raffle_addr,
        addr(14),
        Some([42u8; 32]),
        addr(15),
        alloc,
        receipt.pool_amount,
        NOW + 62,
        true,
    )
    .unwrap_err();
    assert_eq!(err, RaffleError::ExternalDependencyError);
    // The right oracle account, but no verified result yet.
    let err = complete_raffle_with_vrf(
        &mut raffle,
        program_id,
        raffle_addr,
        addr(5),
        None,
        addr(15),
        alloc,
        receipt.pool_amount,
        NOW + 62,
        true,
    )
    .unwrap_err();
    assert_eq!(err, RaffleError::ExternalDependencyError);
    assert_eq!(raffle.status, RaffleStatus::Active);
}

#[test]
fn substituted_winner_fails_with_data_integrity_error() {
    let mut config = ready_config(1_000_000_000, 500);
    let mut raffle = active_raffle(&mut config, 60);
    let program_id = addr(9);
    let raffle_addr = addr(4);
    let (alloc, receipt) =
        purchase_tickets(&mut raffle, raffle_addr, None, addr(3), true, NOW + 1, 3).unwrap();
    request_randomness(&mut raffle, addr(5), addr(6), true, true, NOW + 61).unwrap();
    // A caller-chosen account that is not the index-derived address.
    let err = complete_raffle_with_vrf(
        &mut raffle,
        program_id,
        raffle_addr,
        addr(5),
        Some([42u8; 32]),
        addr(15),
        alloc,
        receipt.pool_amount,
        NOW + 62,
        true,
    )
    .unwrap_err();
    assert_eq!(err, RaffleError::DataIntegrityError);
    assert_eq!(raffle.status, RaffleStatus::Active);
    assert!(raffle.vrf_request_in_progress);
}

#[test]
fn end_time_gates_purchases() {
    let mut config = ready_config(100, 500);
    let raffle = active_raffle(&mut config, 60);
    assert!(!raffle.has_ended(NOW));
    assert!(!raffle.has_ended(raffle.end_time - 1));
    assert!(raffle.has_ended(raffle.end_time));
    assert!(raffle.has_ended(raffle.end_time + 1));
}

#[test]
fn new_raffle_starts_empty() {
    let mut config = ready_config(100, 500);
    let raffle = active_raffle(&mut config, 60);
    assert_eq!(raffle.winner, Address { bytes: [0u8; 32] });
    assert_eq!(raffle.vrf_account, Address { bytes: [0u8; 32] });
    assert!(!raffle.vrf_request_in_progress);
    assert_eq!(raffle.tickets_sold, 0);
    // The snapshot of the configuration at creation.
    assert_eq!(raffle.ticket_price, 100);
    assert_eq!(raffle.fee_basis_points, 500);
    assert_eq!(raffle.treasury, addr(2));
}

#[test]
fn direct_completion_is_rejected() {
    assert_eq!(
        solcino::raffle_ops::complete_raffle().unwrap_err(),
        RaffleError::ValidationError
    );
}

#[test]
fn error_codes_are_stable() {
    assert_eq!(RaffleError::AuthorizationError.code(), 0);
    assert_eq!(RaffleError::StateError.code(), 1);
    assert_eq!(RaffleError::ValidationError.code(), 2);
    assert_eq!(RaffleError::ArithmeticError.code(), 3);
    assert_eq!(RaffleError::ExternalDependencyError.code(), 4);
    assert_eq!(RaffleError::DataIntegrityError.code(), 5);
    assert!(!RaffleError::StateError.message().is_empty());
}

#[test]
fn fee_and_entry_helpers() {
    assert_eq!(calculate_fee(3_000_000_000, 500), 150_000_000);
    assert_eq!(calculate_fee(10_000, 10000), 10_000);
    assert_eq!(calculate_fee(9999, 1), 0); // truncates toward zero
    assert_eq!(calculate_entries(1_000_000_000), 10);
    assert_eq!(calculate_entries(99_999_999), 0);
}

#[test]
fn default_config_is_ready() {
    let config = Config::default();
    assert!(config.is_initialized);
    assert_eq!(config.ticket_price, 25_000_000);
    assert_eq!(config.fee_basis_points, 1000);
    assert_eq!(config.next_raffle_index, 1);
    assert_eq!(config.admin, config.treasury);
}

#[test]
fn raffle_type_durations() {
    assert_eq!(RaffleType::from_code(1).duration_seconds(), 3600);
    assert_eq!(RaffleType::from_code(2).duration_seconds(), 86400);
    assert_eq!(RaffleType::from_code(3).duration_seconds(), 604800);
    assert_eq!(RaffleType::from_code(4).duration_seconds(), 2592000);
    // Unknown codes fall back to one hour.
    assert_eq!(RaffleType::from_code(0).duration_seconds(), 3600);
    assert_eq!(RaffleType::from_code(200).duration_seconds(), 3600);
}

#[test]
fn raffle_indexes_are_sequential() {
    let mut config = ready_config(100, 500);
    let first = active_raffle(&mut config, 60);
    let second = active_raffle(&mut config, 60);
    assert_eq!(first.raffle_index, 1);
    assert_eq!(second.raffle_index, 2);
    assert_eq!(config.next_raffle_index, 3);
}
