//! Operations on the process-wide configuration.
//!
//! Every mutator requires the caller's signature to match the current
//! `admin`; failure leaves the configuration untouched. The host is expected
//! to persist the updated object on success and discard it on failure.

use vstd::prelude::*;
use crate::addr::Address;
use crate::error::RaffleError;
use crate::state::{Config, BPS_DENOMINATOR};

verus! {

/// The error `initialize_config` reports when it fails.
pub open spec fn spec_initialize_config_error(
    config: Config,
    admin_signed: bool,
    fee_basis_points: u16,
) -> RaffleError {
    if !admin_signed {
        RaffleError::AuthorizationError
    } else if config.is_initialized {
        RaffleError::StateError
    } else {
        RaffleError::ValidationError
    }
}

/// Creates the process-wide configuration. Fails if the object already
/// reports initialized or the fee rate exceeds 10000 basis points; the
/// ticket price is recorded as given, without validation.
pub fn initialize_config(
    config: &mut Config,
    admin: Address,
    admin_signed: bool,
    treasury: Address,
    ticket_price: u64,
    fee_basis_points: u16,
) -> (r: Result<(), RaffleError>)
    ensures
        r is Ok <==> admin_signed && !old(config).is_initialized && fee_basis_points as u64
            <= BPS_DENOMINATOR,
        r is Ok ==> *final(config) == (Config {
            is_initialized: true,
            admin,
            treasury,
            ticket_price,
            fee_basis_points,
            next_raffle_index: 1,
        }),
        r is Ok ==> final(config).valid(),
        r is Err ==> *final(config) == *old(config),
        r is Err ==> r->Err_0 == spec_initialize_config_error(
            *old(config),
            admin_signed,
            fee_basis_points,
        ),
{
    if !admin_signed {
        return Err(RaffleError::AuthorizationError);
    }
    if config.is_initialized {
        return Err(RaffleError::StateError);
    }
    if fee_basis_points as u64 > BPS_DENOMINATOR {
        return Err(RaffleError::ValidationError);
    }
    *config = Config {
        is_initialized: true,
        admin,
        treasury,
        ticket_price,
        fee_basis_points,
        next_raffle_index: 1,
    };
    Ok(())
}

/// The error the admin-gated config mutators report when they fail.
pub open spec fn spec_admin_gate_error(config: Config, signer: Address, signed: bool) -> RaffleError {
    if !signed {
        RaffleError::AuthorizationError
    } else if !config.is_initialized {
        RaffleError::StateError
    } else {
        RaffleError::AuthorizationError
    }
}

/// Whether the admin gate of the config mutators passes.
pub open spec fn spec_admin_gate(config: Config, signer: Address, signed: bool) -> bool {
    signed && config.is_initialized && config.admin@ == signer@
}

/// Hands the admin authority to `new_admin`. Only the current admin,
/// signing, may do this.
pub fn update_admin(
    config: &mut Config,
    current_admin: Address,
    current_admin_signed: bool,
    new_admin: Address,
) -> (r: Result<(), RaffleError>)
    ensures
        r is Ok <==> spec_admin_gate(*old(config), current_admin, current_admin_signed),
        r is Ok ==> *final(config) == (Config { admin: new_admin, ..*old(config) }),
        r is Err ==> *final(config) == *old(config),
        r is Err ==> r->Err_0 == spec_admin_gate_error(
            *old(config),
            current_admin,
            current_admin_signed,
        ),
{
    if !current_admin_signed {
        return Err(RaffleError::AuthorizationError);
    }
    if !config.is_initialized {
        return Err(RaffleError::StateError);
    }
    if !config.admin.same(&current_admin) {
        return Err(RaffleError::AuthorizationError);
    }
    config.admin = new_admin;
    Ok(())
}

/// Points fee proceeds at `new_treasury`. Only the admin, signing, may do
/// this.
pub fn update_fee_address(
    config: &mut Config,
    admin: Address,
    admin_signed: bool,
    new_treasury: Address,
) -> (r: Result<(), RaffleError>)
    ensures
        r is Ok <==> spec_admin_gate(*old(config), admin, admin_signed),
        r is Ok ==> *final(config) == (Config { treasury: new_treasury, ..*old(config) }),
        r is Err ==> *final(config) == *old(config),
        r is Err ==> r->Err_0 == spec_admin_gate_error(*old(config), admin, admin_signed),
{
    if !admin_signed {
        return Err(RaffleError::AuthorizationError);
    }
    if !config.is_initialized {
        return Err(RaffleError::StateError);
    }
    if !config.admin.same(&admin) {
        return Err(RaffleError::AuthorizationError);
    }
    config.treasury = new_treasury;
    Ok(())
}

/// The error `update_ticket_price` reports when it fails.
pub open spec fn spec_update_ticket_price_error(
    config: Config,
    admin: Address,
    admin_signed: bool,
    new_ticket_price: u64,
) -> RaffleError {
    if new_ticket_price == 0 {
        RaffleError::ValidationError
    } else {
        spec_admin_gate_error(config, admin, admin_signed)
    }
}

/// Changes the configured ticket price. A zero price is rejected; only the
/// admin, signing, may do this.
pub fn update_ticket_price(
    config: &mut Config,
    admin: Address,
    admin_signed: bool,
    new_ticket_price: u64,
) -> (r: Result<(), RaffleError>)
    ensures
        r is Ok <==> new_ticket_price > 0 && spec_admin_gate(*old(config), admin, admin_signed),
        r is Ok ==> *final(config) == (Config { ticket_price: new_ticket_price, ..*old(config) }),
        r is Err ==> *final(config) == *old(config),
        r is Err ==> r->Err_0 == spec_update_ticket_price_error(
            *old(config),
            admin,
            admin_signed,
            new_ticket_price,
        ),
{
    if new_ticket_price == 0 {
        return Err(RaffleError::ValidationError);
    }
    if !admin_signed {
        return Err(RaffleError::AuthorizationError);
    }
    if !config.is_initialized {
        return Err(RaffleError::StateError);
    }
    if !config.admin.same(&admin) {
        return Err(RaffleError::AuthorizationError);
    }
    config.ticket_price = new_ticket_price;
    Ok(())
}

/// The error `update_fee_percentage` reports when it fails.
pub open spec fn spec_update_fee_percentage_error(
    config: Config,
    admin: Address,
    admin_signed: bool,
    new_fee_basis_points: u16,
) -> RaffleError {
    if !spec_admin_gate(config, admin, admin_signed) {
        spec_admin_gate_error(config, admin, admin_signed)
    } else {
        RaffleError::ValidationError
    }
}

/// Changes the configured fee rate. A rate above 10000 basis points is
/// rejected; only the admin, signing, may do this.
pub fn update_fee_percentage(
    config: &mut Config,
    admin: Address,
    admin_signed: bool,
    new_fee_basis_points: u16,
) -> (r: Result<(), RaffleError>)
    ensures
        r is Ok <==> new_fee_basis_points as u64 <= BPS_DENOMINATOR && spec_admin_gate(
            *old(config),
            admin,
            admin_signed,
        ),
        r is Ok ==> *final(config) == (Config {
            fee_basis_points: new_fee_basis_points,
            ..*old(config)
        }),
        r is Ok ==> final(config).valid(),
        r is Err ==> *final(config) == *old(config),
        r is Err ==> r->Err_0 == spec_update_fee_percentage_error(
            *old(config),
            admin,
            admin_signed,
            new_fee_basis_points,
        ),
{
    if !admin_signed {
        return Err(RaffleError::AuthorizationError);
    }
    if !config.is_initialized {
        return Err(RaffleError::StateError);
    }
    if !config.admin.same(&admin) {
        return Err(RaffleError::AuthorizationError);
    }
    if new_fee_basis_points as u64 > BPS_DENOMINATOR {
        return Err(RaffleError::ValidationError);
    }
    config.fee_basis_points = new_fee_basis_points;
    Ok(())
}

} // verus!
