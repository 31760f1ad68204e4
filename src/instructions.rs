//! The operations on lockers, escrows and partial unstaking tickets.
//!
//! Each operation first checks every condition and only then writes: a
//! refused operation leaves every record as it was. The outcome of each is
//! stated by a spec function (`*_result`) that gives either the records after
//! the operation or the error.
use vstd::prelude::*;

use crate::error::ErrorCode;
use crate::key::Pubkey;
use crate::state::{Escrow, Locker, LockerParams, PartialUnstaking};

verus! {

/// `r` is the outcome `expected` of an operation: on success the records are
/// the expected ones, on failure the same error is returned and the records
/// are unchanged.
pub open spec fn committed<T, S>(r: Result<T, ErrorCode>, expected: Result<S, ErrorCode>, before: S, after: S) -> bool {
    match expected {
        Ok(s) => r is Ok && after == s,
        Err(e) => r is Err && r->Err_0 == e && after == before,
    }
}

/// The error of an owner operation on `escrow`: the escrow must belong to the
/// locker `locker_key` and to the signer `owner`.
pub open spec fn access_error(escrow: Escrow, locker_key: Pubkey, owner: Pubkey) -> Option<ErrorCode> {
    if escrow.locker@ != locker_key@ {
        Some(ErrorCode::KeyMismatch)
    } else if escrow.owner@ != owner@ {
        Some(ErrorCode::Unauthorized)
    } else {
        None
    }
}

fn check_access(escrow: &Escrow, locker_key: &Pubkey, owner: &Pubkey) -> (r: Result<(), ErrorCode>)
    ensures
        match access_error(*escrow, *locker_key, *owner) {
            Some(e) => r == Err::<(), ErrorCode>(e),
            None => r is Ok,
        },
{
    if !(escrow.locker == *locker_key) {
        return Err(ErrorCode::KeyMismatch);
    }
    if !(escrow.owner == *owner) {
        return Err(ErrorCode::Unauthorized);
    }
    Ok(())
}

/// A new locker with no escrows and nothing locked.
pub open spec fn new_locker_result(base: Pubkey, bump: u8, token_mint: Pubkey, governor: Pubkey, params: LockerParams) -> Result<Locker, ErrorCode> {
    if !params.valid() {
        Err(ErrorCode::InvalidLockerParams)
    } else {
        Ok(Locker { base, bump, token_mint, locked_supply: 0, total_escrow: 0, governor, params })
    }
}

/// Creates a locker for the token `token_mint`, governed by `governor`.
pub fn new_locker(base: Pubkey, bump: u8, token_mint: Pubkey, governor: Pubkey, params: LockerParams) -> (r: Result<Locker, ErrorCode>)
    ensures
        r == new_locker_result(base, bump, token_mint, governor, params),
{
    if !params.is_valid() {
        return Err(ErrorCode::InvalidLockerParams);
    }
    Ok(Locker { base, bump, token_mint, locked_supply: 0, total_escrow: 0, governor, params })
}

/// The locker with new parameters, set by its governor.
pub open spec fn set_locker_params_result(locker: Locker, governor: Pubkey, params: LockerParams) -> Result<Locker, ErrorCode> {
    if locker.governor@ != governor@ {
        Err(ErrorCode::Unauthorized)
    } else if !params.valid() {
        Err(ErrorCode::InvalidLockerParams)
    } else {
        Ok(Locker { params, ..locker })
    }
}

/// Replaces the locker's parameters; `governor` is the signer.
pub fn set_locker_params(locker: &mut Locker, governor: Pubkey, params: LockerParams) -> (r: Result<(), ErrorCode>)
    ensures
        committed(r, set_locker_params_result(*old(locker), governor, params), *old(locker), *final(locker)),
{
    if !(locker.governor == governor) {
        return Err(ErrorCode::Unauthorized);
    }
    if !params.is_valid() {
        return Err(ErrorCode::InvalidLockerParams);
    }
    locker.params = params;
    Ok(())
}

/// The locker after one more escrow was created in it, and that escrow:
/// empty, with no lock window, voting through its owner.
pub open spec fn new_escrow_result(locker: Locker, locker_key: Pubkey, owner: Pubkey, bump: u8, tokens: Pubkey) -> Result<(Locker, Escrow), ErrorCode> {
    if locker.total_escrow + 1 > u64::MAX {
        Err(ErrorCode::MathOverflow)
    } else {
        Ok((
            Locker { total_escrow: (locker.total_escrow + 1) as u64, ..locker },
            Escrow {
                locker: locker_key,
                owner,
                bump,
                tokens,
                amount: 0,
                escrow_started_at: 0,
                escrow_ends_at: 0,
                vote_delegate: owner,
                is_max_lock: false,
                partial_unstaking_amount: 0,
            },
        ))
    }
}

/// Creates the escrow of `owner` in the locker `locker_key`.
pub fn new_escrow(locker: &mut Locker, locker_key: Pubkey, owner: Pubkey, bump: u8, tokens: Pubkey) -> (r: Result<Escrow, ErrorCode>)
    ensures
        match new_escrow_result(*old(locker), locker_key, owner, bump, tokens) {
            Ok((l, e)) => r == Ok::<Escrow, ErrorCode>(e) && *final(locker) == l,
            Err(e) => r == Err::<Escrow, ErrorCode>(e) && *final(locker) == *old(locker),
        },
{
    let total = match locker.total_escrow.checked_add(1) {
        Some(t) => t,
        None => return Err(ErrorCode::MathOverflow),
    };
    locker.total_escrow = total;
    Ok(Escrow {
        locker: locker_key,
        owner,
        bump,
        tokens,
        amount: 0,
        escrow_started_at: 0,
        escrow_ends_at: 0,
        vote_delegate: owner,
        is_max_lock: false,
        partial_unstaking_amount: 0,
    })
}

/// Locker and escrow after `amount` more tokens were locked.
pub open spec fn increase_locked_amount_result(locker: Locker, locker_key: Pubkey, escrow: Escrow, owner: Pubkey, amount: u64) -> Result<(Locker, Escrow), ErrorCode> {
    if access_error(escrow, locker_key, owner) is Some {
        Err(access_error(escrow, locker_key, owner)->Some_0)
    } else if amount == 0 {
        Err(ErrorCode::AmountIsZero)
    } else if escrow.amount + amount > u64::MAX || locker.locked_supply + amount > u64::MAX {
        Err(ErrorCode::MathOverflow)
    } else {
        Ok((
            Locker { locked_supply: (locker.locked_supply + amount) as u64, ..locker },
            Escrow { amount: (escrow.amount + amount) as u64, ..escrow },
        ))
    }
}

/// Locks `amount` more tokens in the escrow.
pub fn increase_locked_amount(locker: &mut Locker, locker_key: Pubkey, escrow: &mut Escrow, owner: Pubkey, amount: u64) -> (r: Result<(), ErrorCode>)
    ensures
        committed(r, increase_locked_amount_result(*old(locker), locker_key, *old(escrow), owner, amount),
            (*old(locker), *old(escrow)), (*final(locker), *final(escrow))),
{
    check_access(escrow, &locker_key, &owner)?;
    if amount == 0 {
        return Err(ErrorCode::AmountIsZero);
    }
    escrow.record_increase_locked_amount_event(locker, amount)
}

/// The escrow after its lock was set to run `duration` seconds from `now`.
pub open spec fn extend_lock_duration_result(locker: Locker, locker_key: Pubkey, escrow: Escrow, owner: Pubkey, duration: i64, now: i64) -> Result<Escrow, ErrorCode> {
    if access_error(escrow, locker_key, owner) is Some {
        Err(access_error(escrow, locker_key, owner)->Some_0)
    } else if escrow.is_max_lock {
        Err(ErrorCode::MaxLockIsSet)
    } else if duration < locker.params.min_stake_duration {
        Err(ErrorCode::LockupDurationTooShort)
    } else if duration > locker.params.max_stake_duration {
        Err(ErrorCode::LockupDurationTooLong)
    } else if now + duration > i64::MAX {
        Err(ErrorCode::MathOverflow)
    } else if now + duration < escrow.escrow_ends_at {
        Err(ErrorCode::RefreshCannotShorten)
    } else {
        Ok(Escrow { escrow_started_at: now, escrow_ends_at: (now + duration) as i64, ..escrow })
    }
}

/// Restarts the escrow's lock window at `now` with length `duration`; the
/// window may not end earlier than it did.
pub fn extend_lock_duration(locker: &Locker, locker_key: Pubkey, escrow: &mut Escrow, owner: Pubkey, duration: i64, now: i64) -> (r: Result<(), ErrorCode>)
    ensures
        committed(r, extend_lock_duration_result(*locker, locker_key, *old(escrow), owner, duration, now), *old(escrow), *final(escrow)),
{
    check_access(escrow, &locker_key, &owner)?;
    if escrow.is_max_lock {
        return Err(ErrorCode::MaxLockIsSet);
    }
    if duration < 0 || (duration as u64) < locker.params.min_stake_duration {
        return Err(ErrorCode::LockupDurationTooShort);
    }
    if (duration as u64) > locker.params.max_stake_duration {
        return Err(ErrorCode::LockupDurationTooLong);
    }
    let ends_at = match now.checked_add(duration) {
        Some(t) => t,
        None => return Err(ErrorCode::MathOverflow),
    };
    if ends_at < escrow.escrow_ends_at {
        return Err(ErrorCode::RefreshCannotShorten);
    }
    escrow.record_extend_lock_duration_event(now, ends_at)
}

/// The escrow after max lock was switched on, or switched off with a fresh
/// full-length window starting at `now`.
pub open spec fn toggle_max_lock_result(locker: Locker, locker_key: Pubkey, escrow: Escrow, owner: Pubkey, is_max_lock: bool, now: i64) -> Result<Escrow, ErrorCode> {
    if access_error(escrow, locker_key, owner) is Some {
        Err(access_error(escrow, locker_key, owner)->Some_0)
    } else if is_max_lock {
        if escrow.is_max_lock {
            Err(ErrorCode::MaxLockIsSet)
        } else {
            Ok(Escrow { is_max_lock: true, ..escrow })
        }
    } else if !escrow.is_max_lock {
        Err(ErrorCode::MaxLockIsNotSet)
    } else if now + locker.params.max_stake_duration > i64::MAX {
        Err(ErrorCode::MathOverflow)
    } else {
        Ok(Escrow {
            is_max_lock: false,
            escrow_started_at: now,
            escrow_ends_at: (now + locker.params.max_stake_duration) as i64,
            ..escrow
        })
    }
}

/// Switches max lock on or off. Switching it to the state it is already in
/// is refused.
pub fn toggle_max_lock(locker: &Locker, locker_key: Pubkey, escrow: &mut Escrow, owner: Pubkey, is_max_lock: bool, now: i64) -> (r: Result<(), ErrorCode>)
    ensures
        committed(r, toggle_max_lock_result(*locker, locker_key, *old(escrow), owner, is_max_lock, now), *old(escrow), *final(escrow)),
{
    check_access(escrow, &locker_key, &owner)?;
    if is_max_lock {
        if escrow.is_max_lock {
            return Err(ErrorCode::MaxLockIsSet);
        }
        escrow.is_max_lock = true;
        return Ok(());
    }
    if !escrow.is_max_lock {
        return Err(ErrorCode::MaxLockIsNotSet);
    }
    let ends_at = (now as i128) + (locker.params.max_stake_duration as i128);
    if ends_at > i64::MAX as i128 {
        return Err(ErrorCode::MathOverflow);
    }
    let ends_at = ends_at as i64;
    escrow.is_max_lock = false;
    escrow.escrow_started_at = now;
    escrow.escrow_ends_at = ends_at;
    Ok(())
}

/// Locker and escrow after the escrow's whole active amount left, once its
/// lock window is over.
pub open spec fn withdraw_result(locker: Locker, locker_key: Pubkey, escrow: Escrow, owner: Pubkey, now: i64) -> Result<(Locker, Escrow), ErrorCode> {
    if access_error(escrow, locker_key, owner) is Some {
        Err(access_error(escrow, locker_key, owner)->Some_0)
    } else if escrow.is_max_lock {
        Err(ErrorCode::MaxLockIsSet)
    } else if now < escrow.escrow_ends_at {
        Err(ErrorCode::EscrowNotEnded)
    } else if locker.locked_supply < escrow.amount {
        Err(ErrorCode::MathOverflow)
    } else {
        Ok((
            Locker { locked_supply: (locker.locked_supply - escrow.amount) as u64, ..locker },
            Escrow { amount: 0, ..escrow },
        ))
    }
}

/// Withdraws the escrow's whole active amount; returns that amount, which
/// the caller releases from custody. The partial unstaking amount stays.
pub fn withdraw(locker: &mut Locker, locker_key: Pubkey, escrow: &mut Escrow, owner: Pubkey, now: i64) -> (r: Result<u64, ErrorCode>)
    ensures
        committed(r, withdraw_result(*old(locker), locker_key, *old(escrow), owner, now),
            (*old(locker), *old(escrow)), (*final(locker), *final(escrow))),
        r is Ok ==> r->Ok_0 == old(escrow).amount,
{
    check_access(escrow, &locker_key, &owner)?;
    if escrow.is_max_lock {
        return Err(ErrorCode::MaxLockIsSet);
    }
    if now < escrow.escrow_ends_at {
        return Err(ErrorCode::EscrowNotEnded);
    }
    let supply = match locker.locked_supply.checked_sub(escrow.amount) {
        Some(s) => s,
        None => return Err(ErrorCode::MathOverflow),
    };
    let amount = escrow.amount;
    locker.locked_supply = supply;
    escrow.amount = 0;
    Ok(amount)
}

/// The escrow voting through `new_delegate`.
pub open spec fn set_vote_delegate_result(escrow: Escrow, owner: Pubkey, new_delegate: Pubkey) -> Result<Escrow, ErrorCode> {
    if escrow.owner@ != owner@ {
        Err(ErrorCode::Unauthorized)
    } else {
        Ok(Escrow { vote_delegate: new_delegate, ..escrow })
    }
}

/// Lets `new_delegate` vote on behalf of the escrow.
pub fn set_vote_delegate(escrow: &mut Escrow, owner: Pubkey, new_delegate: Pubkey) -> (r: Result<(), ErrorCode>)
    ensures
        committed(r, set_vote_delegate_result(*old(escrow), owner, new_delegate), *old(escrow), *final(escrow)),
{
    if !(escrow.owner == owner) {
        return Err(ErrorCode::Unauthorized);
    }
    escrow.vote_delegate = new_delegate;
    Ok(())
}

/// Locker and escrow after `amount` moved from the active amount into a new
/// partial unstaking ticket.
pub open spec fn open_partial_unstaking_result(locker: Locker, locker_key: Pubkey, escrow: Escrow, owner: Pubkey, amount: u64, now: i64) -> Result<(Locker, Escrow), ErrorCode> {
    if access_error(escrow, locker_key, owner) is Some {
        Err(access_error(escrow, locker_key, owner)->Some_0)
    } else if amount == 0 {
        Err(ErrorCode::AmountIsZero)
    } else if amount > escrow.amount {
        Err(ErrorCode::InvalidAmountForPartialUnstaking)
    } else if escrow.partial_unstaking_amount + amount > u64::MAX || locker.locked_supply < amount
        || now + locker.params.min_stake_duration > i64::MAX {
        Err(ErrorCode::MathOverflow)
    } else {
        Ok((
            Locker { locked_supply: (locker.locked_supply - amount) as u64, ..locker },
            Escrow {
                amount: (escrow.amount - amount) as u64,
                partial_unstaking_amount: (escrow.partial_unstaking_amount + amount) as u64,
                ..escrow
            },
        ))
    }
}

/// Opens a partial unstaking ticket of `amount` for the escrow `escrow_key`;
/// it can be withdrawn `min_stake_duration` seconds after `now`.
pub fn open_partial_unstaking(
    locker: &mut Locker,
    locker_key: Pubkey,
    escrow: &mut Escrow,
    escrow_key: Pubkey,
    owner: Pubkey,
    amount: u64,
    memo: String,
    now: i64,
) -> (r: Result<PartialUnstaking, ErrorCode>)
    ensures
        committed(r, open_partial_unstaking_result(*old(locker), locker_key, *old(escrow), owner, amount, now),
            (*old(locker), *old(escrow)), (*final(locker), *final(escrow))),
        r is Ok ==> r->Ok_0.escrow == escrow_key && r->Ok_0.amount == amount
            && r->Ok_0.expiration == now + old(locker).params.min_stake_duration
            && r->Ok_0.memo@ == memo@,
{
    check_access(escrow, &locker_key, &owner)?;
    if amount == 0 {
        return Err(ErrorCode::AmountIsZero);
    }
    if amount > escrow.amount {
        return Err(ErrorCode::InvalidAmountForPartialUnstaking);
    }
    let expiration = (now as i128) + (locker.params.min_stake_duration as i128);
    if escrow.partial_unstaking_amount > u64::MAX - amount || locker.locked_supply < amount
        || expiration > i64::MAX as i128 {
        return Err(ErrorCode::MathOverflow);
    }
    let expiration = expiration as i64;
    let moved = escrow.accumulate_partial_unstaking_amount(amount);
    assert(moved is Some);
    locker.locked_supply = locker.locked_supply - amount;
    Ok(PartialUnstaking { escrow: escrow_key, amount, expiration, memo })
}

/// The error of an operation on the ticket `ticket` of the escrow
/// `escrow_key`: the escrow must be the owner's one in the locker, and the
/// ticket must be the escrow's.
pub open spec fn ticket_access_error(escrow: Escrow, locker_key: Pubkey, escrow_key: Pubkey, ticket: PartialUnstaking, owner: Pubkey) -> Option<ErrorCode> {
    if access_error(escrow, locker_key, owner) is Some {
        access_error(escrow, locker_key, owner)
    } else if ticket.escrow@ != escrow_key@ {
        Some(ErrorCode::KeyMismatch)
    } else {
        None
    }
}

fn check_ticket_access(escrow: &Escrow, locker_key: &Pubkey, escrow_key: &Pubkey, ticket: &PartialUnstaking, owner: &Pubkey) -> (r: Result<(), ErrorCode>)
    ensures
        match ticket_access_error(*escrow, *locker_key, *escrow_key, *ticket, *owner) {
            Some(e) => r == Err::<(), ErrorCode>(e),
            None => r is Ok,
        },
{
    check_access(escrow, locker_key, owner)?;
    if !(ticket.escrow == *escrow_key) {
        return Err(ErrorCode::KeyMismatch);
    }
    Ok(())
}

/// Locker and escrow after the whole ticket went back into the active amount.
pub open spec fn merge_partial_unstaking_result(locker: Locker, locker_key: Pubkey, escrow: Escrow, escrow_key: Pubkey, ticket: PartialUnstaking, owner: Pubkey) -> Result<(Locker, Escrow), ErrorCode> {
    if ticket_access_error(escrow, locker_key, escrow_key, ticket, owner) is Some {
        Err(ticket_access_error(escrow, locker_key, escrow_key, ticket, owner)->Some_0)
    } else if escrow.amount + ticket.amount > u64::MAX || ticket.amount > escrow.partial_unstaking_amount
        || locker.locked_supply + ticket.amount > u64::MAX {
        Err(ErrorCode::MathOverflow)
    } else {
        Ok((
            Locker { locked_supply: (locker.locked_supply + ticket.amount) as u64, ..locker },
            Escrow {
                amount: (escrow.amount + ticket.amount) as u64,
                partial_unstaking_amount: (escrow.partial_unstaking_amount - ticket.amount) as u64,
                ..escrow
            },
        ))
    }
}

/// Cancels the ticket, returning all it reserved to the escrow's active
/// amount. On success the ticket is closed: the caller discards it.
pub fn merge_partial_unstaking(
    locker: &mut Locker,
    locker_key: Pubkey,
    escrow: &mut Escrow,
    escrow_key: Pubkey,
    ticket: &PartialUnstaking,
    owner: Pubkey,
) -> (r: Result<(), ErrorCode>)
    ensures
        committed(r, merge_partial_unstaking_result(*old(locker), locker_key, *old(escrow), escrow_key, *ticket, owner),
            (*old(locker), *old(escrow)), (*final(locker), *final(escrow))),
{
    check_ticket_access(escrow, &locker_key, &escrow_key, ticket, &owner)?;
    let supply = match locker.locked_supply.checked_add(ticket.amount) {
        Some(s) => s,
        None => return Err(ErrorCode::MathOverflow),
    };
    match escrow.merge_partial_unstaking_amount(ticket.amount) {
        Some(()) => {},
        None => return Err(ErrorCode::MathOverflow),
    }
    locker.locked_supply = supply;
    Ok(())
}

/// The escrow after the ticket's amount left it, once the ticket expired.
pub open spec fn withdraw_partial_unstaking_result(locker_key: Pubkey, escrow: Escrow, escrow_key: Pubkey, ticket: PartialUnstaking, owner: Pubkey, now: i64) -> Result<Escrow, ErrorCode> {
    if ticket_access_error(escrow, locker_key, escrow_key, ticket, owner) is Some {
        Err(ticket_access_error(escrow, locker_key, escrow_key, ticket, owner)->Some_0)
    } else if now < ticket.expiration {
        Err(ErrorCode::PartialUnstakingIsNotEnded)
    } else if ticket.amount > escrow.partial_unstaking_amount {
        Err(ErrorCode::MathOverflow)
    } else {
        Ok(Escrow { partial_unstaking_amount: (escrow.partial_unstaking_amount - ticket.amount) as u64, ..escrow })
    }
}

/// Settles an expired ticket: returns its amount, which the caller releases
/// from custody, and the ticket is closed.
pub fn withdraw_partial_unstaking(
    locker_key: Pubkey,
    escrow: &mut Escrow,
    escrow_key: Pubkey,
    ticket: &PartialUnstaking,
    owner: Pubkey,
    now: i64,
) -> (r: Result<u64, ErrorCode>)
    ensures
        committed(r, withdraw_partial_unstaking_result(locker_key, *old(escrow), escrow_key, *ticket, owner, now),
            *old(escrow), *final(escrow)),
        r is Ok ==> r->Ok_0 == ticket.amount,
{
    check_ticket_access(escrow, &locker_key, &escrow_key, ticket, &owner)?;
    if now < ticket.expiration {
        return Err(ErrorCode::PartialUnstakingIsNotEnded);
    }
    match escrow.withdraw_partial_unstaking_amount(ticket.amount) {
        Some(()) => Ok(ticket.amount),
        None => Err(ErrorCode::MathOverflow),
    }
}

} // verus!
