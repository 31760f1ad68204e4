//! Returning part of a partial unstaking ticket to its escrow.
use vstd::prelude::*;

use crate::error::ErrorCode;
use crate::instructions::{committed, ticket_access_error};
use crate::key::Pubkey;
use crate::state::{remaining_duration, Escrow, Locker, PartialUnstaking};

verus! {

/// The records a partial merge reads and writes, each with its key, and the
/// signer.
#[derive(Debug)]
pub struct PartialMergePartialUnstaking {
    pub locker_key: Pubkey,
    pub locker: Locker,
    pub escrow_key: Pubkey,
    pub escrow: Escrow,
    pub partial_unstake_key: Pubkey,
    /// The ticket that is being merged in part.
    pub partial_unstake: PartialUnstaking,
    /// The signer, who must own the escrow.
    pub owner: Pubkey,
}

/// Notice of a partial merge, for the caller to publish.
#[derive(Clone, Copy, Debug, PartialEq, Eq)]
pub struct PartialMergePartialUnstakingEvent {
    /// The ticket.
    pub partial_unstake: Pubkey,
    /// The escrow.
    pub escrow: Pubkey,
    /// Amount returned to the escrow.
    pub amount: u64,
}

/// Why a partial merge of `amount` at `now` is refused, if it is: the
/// records must belong together, the escrow must still be locked for at least
/// `min_stake_duration`, and `0 < amount < ticket.amount`.
pub open spec fn partial_merge_error(
    locker: Locker,
    locker_key: Pubkey,
    escrow: Escrow,
    escrow_key: Pubkey,
    ticket: PartialUnstaking,
    owner: Pubkey,
    amount: u64,
    now: i64,
) -> Option<ErrorCode> {
    if ticket_access_error(escrow, locker_key, escrow_key, ticket, owner) is Some {
        ticket_access_error(escrow, locker_key, escrow_key, ticket, owner)
    } else if !(escrow.is_max_lock || escrow.escrow_ends_at <= now || escrow.escrow_ends_at - now <= i64::MAX) {
        Some(ErrorCode::MathOverflow)
    } else if remaining_duration(escrow, locker, now) < locker.params.min_stake_duration {
        Some(ErrorCode::LockupDurationTooShort)
    } else if amount == 0 {
        Some(ErrorCode::AmountIsZero)
    } else if amount >= ticket.amount {
        Some(ErrorCode::AmountIsTooLarge)
    } else {
        None
    }
}

/// Locker, escrow and ticket after `amount` of the ticket went back into the
/// escrow's active amount.
pub open spec fn partial_merge_partial_unstaking_result(
    locker: Locker,
    locker_key: Pubkey,
    escrow: Escrow,
    escrow_key: Pubkey,
    ticket: PartialUnstaking,
    owner: Pubkey,
    amount: u64,
    now: i64,
) -> Result<(Locker, Escrow, PartialUnstaking), ErrorCode> {
    if partial_merge_error(locker, locker_key, escrow, escrow_key, ticket, owner, amount, now) is Some {
        Err(partial_merge_error(locker, locker_key, escrow, escrow_key, ticket, owner, amount, now)->Some_0)
    } else if escrow.amount + amount > u64::MAX || amount > escrow.partial_unstaking_amount
        || locker.locked_supply + amount > u64::MAX {
        Err(ErrorCode::MathOverflow)
    } else {
        Ok((
            Locker { locked_supply: (locker.locked_supply + amount) as u64, ..locker },
            Escrow {
                amount: (escrow.amount + amount) as u64,
                partial_unstaking_amount: (escrow.partial_unstaking_amount - amount) as u64,
                ..escrow
            },
            PartialUnstaking { amount: (ticket.amount - amount) as u64, ..ticket },
        ))
    }
}

impl PartialMergePartialUnstaking {
    /// Checks that a partial merge of `amount` at `now` is allowed.
    pub fn validate(&self, amount: u64, now: i64) -> (r: Result<(), ErrorCode>)
        ensures
            match partial_merge_error(self.locker, self.locker_key, self.escrow, self.escrow_key,
                self.partial_unstake, self.owner, amount, now) {
                Some(e) => r == Err::<(), ErrorCode>(e),
                None => r is Ok,
            },
    {
        if !(self.escrow.locker == self.locker_key) {
            return Err(ErrorCode::KeyMismatch);
        }
        if !(self.escrow.owner == self.owner) {
            return Err(ErrorCode::Unauthorized);
        }
        if !(self.partial_unstake.escrow == self.escrow_key) {
            return Err(ErrorCode::KeyMismatch);
        }
        let lock_duration = match self.escrow.get_remaining_duration_until_expiration(now, &self.locker) {
            Some(d) => d,
            None => return Err(ErrorCode::MathOverflow),
        };
        if lock_duration < self.locker.params.min_stake_duration {
            return Err(ErrorCode::LockupDurationTooShort);
        }
        if amount == 0 {
            return Err(ErrorCode::AmountIsZero);
        }
        if amount >= self.partial_unstake.amount {
            return Err(ErrorCode::AmountIsTooLarge);
        }
        Ok(())
    }

    /// Returns `amount` of the ticket to the escrow's active amount and to
    /// the locker's locked supply, and gives the event to publish.
    pub fn partial_merge_partial_unstaking(&mut self, amount: u64, now: i64) -> (r: Result<PartialMergePartialUnstakingEvent, ErrorCode>)
        ensures
            committed(r, partial_merge_partial_unstaking_result(old(self).locker, old(self).locker_key,
                old(self).escrow, old(self).escrow_key, old(self).partial_unstake, old(self).owner, amount, now),
                (old(self).locker, old(self).escrow, old(self).partial_unstake),
                (final(self).locker, final(self).escrow, final(self).partial_unstake)),
            final(self).locker_key == old(self).locker_key,
            final(self).escrow_key == old(self).escrow_key,
            final(self).partial_unstake_key == old(self).partial_unstake_key,
            final(self).owner == old(self).owner,
            r is Ok ==> r->Ok_0 == (PartialMergePartialUnstakingEvent {
                partial_unstake: old(self).partial_unstake_key,
                escrow: old(self).escrow_key,
                amount,
            }),
    {
        self.validate(amount, now)?;
        let supply = match self.locker.locked_supply.checked_add(amount) {
            Some(s) => s,
            None => return Err(ErrorCode::MathOverflow),
        };
        match self.escrow.merge_partial_unstaking_amount(amount) {
            Some(()) => {},
            None => return Err(ErrorCode::MathOverflow),
        }
        let cancelled = self.partial_unstake.cancel_partial_unstaking_amount(amount);
        assert(cancelled is Some);
        self.locker.locked_supply = supply;
        Ok(PartialMergePartialUnstakingEvent {
            partial_unstake: self.partial_unstake_key,
            escrow: self.escrow_key,
            amount,
        })
    }
}

/// Merges `amount` of the ticket in `accounts` back into its escrow at `now`.
pub fn partial_merge_partial_unstaking(accounts: &mut PartialMergePartialUnstaking, amount: u64, now: i64) -> (r: Result<PartialMergePartialUnstakingEvent, ErrorCode>)
    ensures
        committed(r, partial_merge_partial_unstaking_result(old(accounts).locker, old(accounts).locker_key,
            old(accounts).escrow, old(accounts).escrow_key, old(accounts).partial_unstake, old(accounts).owner, amount, now),
            (old(accounts).locker, old(accounts).escrow, old(accounts).partial_unstake),
            (final(accounts).locker, final(accounts).escrow, final(accounts).partial_unstake)),
        r is Ok ==> r->Ok_0 == (PartialMergePartialUnstakingEvent {
            partial_unstake: old(accounts).partial_unstake_key,
            escrow: old(accounts).escrow_key,
            amount,
        }),
{
    accounts.partial_merge_partial_unstaking(amount, now)
}

} // verus!
