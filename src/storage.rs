use vstd::prelude::*;

use crate::contract::Contract;
use crate::error::ContractError;
use crate::phase::LottoState;
use crate::ticket::Address;

verus! {

/// What a read of the phase yields: the stored phase, or an error when none is stored.
pub open spec fn stored_state(c: Contract) -> Result<LottoState, ContractError> {
    match c.state {
        Some(p) => Ok(p),
        None => Err(ContractError::NoStateFound),
    }
}

/// What a check that the phase is `want` yields.
pub open spec fn gate(c: Contract, want: LottoState) -> Result<bool, ContractError> {
    match c.state {
        None => Err(ContractError::NoStateFound),
        Some(p) => if p == want {
            Ok(true)
        } else {
            Err(ContractError::WrongPhase)
        },
    }
}

/// Succeeds with `true` exactly when the stored phase is `state`.
pub fn check_state(c: &Contract, state: LottoState) -> (r: Result<bool, ContractError>)
    ensures
        r == gate(*c, state),
{
    match c.state {
        None => Err(ContractError::NoStateFound),
        Some(p) => if p == state {
            Ok(true)
        } else {
            Err(ContractError::WrongPhase)
        },
    }
}

/// Writes the phase.
pub fn set_state(c: &mut Contract, state: LottoState) -> (r: Result<(), ContractError>)
    ensures
        *final(c) == (Contract { state: Some(state), ..*old(c) }),
        r is Ok,
{
    c.state = Some(state);
    Ok(())
}

/// Writes the currency reference.
pub fn set_currency(c: &mut Contract, currency: Address) -> (r: Result<(), ContractError>)
    ensures
        *final(c) == (Contract { currency: Some(currency), ..*old(c) }),
        r is Ok,
{
    c.currency = Some(currency);
    Ok(())
}

/// Reads the currency reference.
pub fn get_currency(c: &Contract) -> (r: Result<Address, ContractError>)
    ensures
        r == (match c.currency {
            Some(a) => Ok(a),
            None => Err(ContractError::NoStateFound),
        }),
{
    match c.currency {
        Some(a) => Ok(a),
        None => Err(ContractError::NoStateFound),
    }
}

/// Reads the phase.
pub fn get_state(c: &Contract) -> (r: Result<LottoState, ContractError>)
    ensures
        r == stored_state(*c),
{
    match c.state {
        Some(p) => Ok(p),
        None => Err(ContractError::NoStateFound),
    }
}

/// Records that the phase record's expiry was asked to reach `ledgers` from
/// now; storage that only ever lengthens an expiry may keep it longer.
pub fn extend_state_ttl(c: &mut Contract, ledgers: u32)
    ensures
        *final(c) == (Contract { state_ttl: ledgers, ..*old(c) }),
{
    c.state_ttl = ledgers;
}

/// Stores the admin and puts the phase at `Ended`.
pub fn init(c: &mut Contract, admin: &Address)
    ensures
        *final(c) == (Contract { admin: Some(*admin), state: Some(LottoState::Ended), ..*old(c) }),
{
    c.admin = Some(*admin);
    c.state = Some(LottoState::Ended);
}

/// Whether an admin has been stored.
pub fn admin_exists(c: &Contract) -> (r: bool)
    ensures
        r == c.admin is Some,
{
    c.admin.is_some()
}

} // verus!
