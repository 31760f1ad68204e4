//! Administrative transfer of an escrow's whole active amount to another
//! escrow of the same locker, in two steps: the owner files a request, the
//! administrator executes it.
use vstd::prelude::*;

use crate::error::ErrorCode;
use crate::key::Pubkey;
use crate::state::{Escrow, Locker};

verus! {

/// The owner's request to move the active amount of `escrow_source` to
/// `escrow_destination`.
#[derive(Clone, Copy, Debug)]
pub struct TransferRequest {
    /// The owner of the source escrow.
    pub owner: Pubkey,
    /// The source escrow.
    pub escrow_source: Pubkey,
    /// The destination escrow.
    pub escrow_destination: Pubkey,
    /// The source's active amount when the request was filed.
    pub amount: u64,
}

impl Default for TransferRequest {
    fn default() -> (r: TransferRequest)
        ensures
            r.amount == 0,
    {
        TransferRequest {
            owner: Pubkey::zeroed(),
            escrow_source: Pubkey::zeroed(),
            escrow_destination: Pubkey::zeroed(),
            amount: 0,
        }
    }
}

/// The records the filing of a request reads and writes, and the signers.
#[derive(Debug)]
pub struct NewTransferRequest {
    /// Payer of the request record.
    pub payer: Pubkey,
    /// The owner of the source escrow, who signs.
    pub owner: Pubkey,
    /// The request being filed.
    pub request: TransferRequest,
    pub locker_key: Pubkey,
    pub locker: Locker,
    pub escrow_source_key: Pubkey,
    pub escrow_source: Escrow,
    pub escrow_destination_key: Pubkey,
    pub escrow_destination: Escrow,
}

/// Why filing the request is refused, if it is: both escrows must be in the
/// locker and the source must be the signer's.
pub open spec fn new_transfer_request_error(accounts: NewTransferRequest) -> Option<ErrorCode> {
    if accounts.escrow_source.locker@ != accounts.locker_key@ {
        Some(ErrorCode::KeyMismatch)
    } else if accounts.escrow_source.owner@ != accounts.owner@ {
        Some(ErrorCode::Unauthorized)
    } else if accounts.escrow_destination.locker@ != accounts.locker_key@ {
        Some(ErrorCode::KeyMismatch)
    } else {
        None
    }
}

impl NewTransferRequest {
    /// Files the request: owner, source, destination and the source's
    /// current active amount.
    pub fn new_transfer_request(&mut self) -> (r: Result<(), ErrorCode>)
        ensures
            match new_transfer_request_error(*old(self)) {
                Some(e) => r == Err::<(), ErrorCode>(e) && *final(self) == *old(self),
                None => r is Ok && *final(self) == (NewTransferRequest {
                    request: TransferRequest {
                        owner: old(self).owner,
                        escrow_source: old(self).escrow_source_key,
                        escrow_destination: old(self).escrow_destination_key,
                        amount: old(self).escrow_source.amount,
                    },
                    ..*old(self)
                }),
            },
    {
        if !(self.escrow_source.locker == self.locker_key) {
            return Err(ErrorCode::KeyMismatch);
        }
        if !(self.escrow_source.owner == self.owner) {
            return Err(ErrorCode::Unauthorized);
        }
        if !(self.escrow_destination.locker == self.locker_key) {
            return Err(ErrorCode::KeyMismatch);
        }
        self.request = TransferRequest {
            owner: self.owner,
            escrow_source: self.escrow_source_key,
            escrow_destination: self.escrow_destination_key,
            amount: self.escrow_source.amount,
        };
        Ok(())
    }
}

/// The administrator's key: the all-zero key.
pub open spec fn is_admin(key: Pubkey) -> bool {
    key@ == Seq::new(32, |i: int| 0u8)
}

/// The records the execution of a request reads and writes, and the signer.
#[derive(Debug)]
pub struct TransferLockedAmount {
    /// The signer, who must be the administrator.
    pub admin: Pubkey,
    /// The owner of the source escrow.
    pub owner: Pubkey,
    pub locker_key: Pubkey,
    pub locker: Locker,
    pub escrow_source_key: Pubkey,
    pub escrow_source: Escrow,
    pub escrow_destination_key: Pubkey,
    pub escrow_destination: Escrow,
    /// The request being executed.
    pub request: TransferRequest,
}

/// Source and destination escrows after the source's whole active amount
/// moved to the destination.
pub open spec fn transfer_locked_amount_result(accounts: TransferLockedAmount) -> Result<(Escrow, Escrow), ErrorCode> {
    let source = accounts.escrow_source;
    let destination = accounts.escrow_destination;
    if !is_admin(accounts.admin) {
        Err(ErrorCode::Unauthorized)
    } else if source.locker@ != accounts.locker_key@ || destination.locker@ != accounts.locker_key@ {
        Err(ErrorCode::KeyMismatch)
    } else if source.owner@ != accounts.owner@ {
        Err(ErrorCode::Unauthorized)
    } else if accounts.request.owner@ != accounts.owner@
        || accounts.request.escrow_source@ != accounts.escrow_source_key@
        || accounts.request.escrow_destination@ != accounts.escrow_destination_key@
        || accounts.escrow_source_key@ == accounts.escrow_destination_key@ {
        Err(ErrorCode::KeyMismatch)
    } else if source.amount == 0 {
        Err(ErrorCode::AmountIsZero)
    } else if destination.amount + source.amount > u64::MAX {
        Err(ErrorCode::MathOverflow)
    } else {
        Ok((
            Escrow { amount: 0, ..source },
            Escrow { amount: (destination.amount + source.amount) as u64, ..destination },
        ))
    }
}

impl TransferLockedAmount {
    /// Executes the request: the destination is credited with the source's
    /// whole active amount and the source is left with none. Partial
    /// unstaking amounts and the locker stay as they were.
    pub fn transfer_locked_amount(&mut self) -> (r: Result<(), ErrorCode>)
        ensures
            match transfer_locked_amount_result(*old(self)) {
                Ok((source, destination)) => r is Ok && *final(self) == (TransferLockedAmount {
                    escrow_source: source,
                    escrow_destination: destination,
                    ..*old(self)
                }),
                Err(e) => r == Err::<(), ErrorCode>(e) && *final(self) == *old(self),
            },
    {
        if !(self.admin == Pubkey::zeroed()) {
            return Err(ErrorCode::Unauthorized);
        }
        if !(self.escrow_source.locker == self.locker_key) || !(self.escrow_destination.locker == self.locker_key) {
            return Err(ErrorCode::KeyMismatch);
        }
        if !(self.escrow_source.owner == self.owner) {
            return Err(ErrorCode::Unauthorized);
        }
        if !(self.request.owner == self.owner) || !(self.request.escrow_source == self.escrow_source_key)
            || !(self.request.escrow_destination == self.escrow_destination_key)
            || self.escrow_source_key == self.escrow_destination_key {
            return Err(ErrorCode::KeyMismatch);
        }
        if self.escrow_source.amount == 0 {
            return Err(ErrorCode::AmountIsZero);
        }
        let credited = match self.escrow_destination.amount.checked_add(self.escrow_source.amount) {
            Some(a) => a,
            None => return Err(ErrorCode::MathOverflow),
        };
        self.escrow_source.amount = 0;
        self.escrow_destination.amount = credited;
        Ok(())
    }
}

} // verus!
