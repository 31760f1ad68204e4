//! Locker, escrow and partial unstaking records, and the voting power they
//! give.
use vstd::prelude::*;

use crate::error::ErrorCode;
use crate::key::Pubkey;

verus! {

/// Parameters of how a [Locker] behaves.
#[derive(Clone, Copy, Debug, PartialEq, Eq, Structural)]
pub struct LockerParams {
    /// The weight of a maximum vote lock relative to the number of tokens
    /// locked: 1 token locked for `max_stake_duration` gives this many votes.
    pub max_stake_vote_multiplier: u8,
    /// Minimum staking duration, in seconds.
    pub min_stake_duration: u64,
    /// Maximum staking duration, in seconds; also the length of the decay
    /// window.
    pub max_stake_duration: u64,
    /// Minimum number of votes required to activate a proposal.
    pub proposal_activation_min_votes: u64,
}

impl LockerParams {
    /// Parameters a locker may hold: a multiplier of at least one and
    /// `min_stake_duration <= max_stake_duration`.
    pub open spec fn valid(self) -> bool {
        &&& self.max_stake_vote_multiplier >= 1
        &&& self.min_stake_duration <= self.max_stake_duration
    }

    /// Tells whether the parameters are [LockerParams::valid].
    pub fn is_valid(&self) -> (r: bool)
        ensures
            r == self.valid(),
    {
        self.max_stake_vote_multiplier >= 1 && self.min_stake_duration <= self.max_stake_duration
    }
}

impl Default for LockerParams {
    fn default() -> (r: LockerParams)
        ensures
            r.max_stake_vote_multiplier == 0,
            r.min_stake_duration == 0,
            r.max_stake_duration == 0,
            r.proposal_activation_min_votes == 0,
    {
        LockerParams {
            max_stake_vote_multiplier: 0,
            min_stake_duration: 0,
            max_stake_duration: 0,
            proposal_activation_min_votes: 0,
        }
    }
}

/// A group of [Escrow]s locking one token.
#[derive(Clone, Copy, Debug)]
pub struct Locker {
    /// Base key the locker's own address derives from.
    pub base: Pubkey,
    /// Bump seed of the locker's address.
    pub bump: u8,
    /// Mint of the token that must be locked in the locker.
    pub token_mint: Pubkey,
    /// Total number of tokens locked in the active amounts of the escrows.
    pub locked_supply: u64,
    /// Number of escrows created under this locker.
    pub total_escrow: u64,
    /// Governor associated with the locker.
    pub governor: Pubkey,
    /// Mutable parameters of the locker.
    pub params: LockerParams,
}

impl Default for Locker {
    fn default() -> (r: Locker)
        ensures
            r.bump == 0,
            r.locked_supply == 0,
            r.total_escrow == 0,
            r.params.max_stake_vote_multiplier == 0,
            r.params.min_stake_duration == 0,
            r.params.max_stake_duration == 0,
            r.params.proposal_activation_min_votes == 0,
    {
        Locker {
            base: Pubkey::zeroed(),
            bump: 0,
            token_mint: Pubkey::zeroed(),
            locked_supply: 0,
            total_escrow: 0,
            governor: Pubkey::zeroed(),
            params: LockerParams::default(),
        }
    }
}

/// One participant's locked position within a [Locker].
#[derive(Clone, Copy, Debug)]
pub struct Escrow {
    /// The locker this escrow is part of.
    pub locker: Pubkey,
    /// The account authorized to stake into and withdraw from this escrow.
    pub owner: Pubkey,
    /// Bump seed of the escrow's address.
    pub bump: u8,
    /// The token account holding the escrow's tokens.
    pub tokens: Pubkey,
    /// Active locked amount.
    pub amount: u64,
    /// When the current lock window started.
    pub escrow_started_at: i64,
    /// When the lock window ends and the owner may withdraw.
    pub escrow_ends_at: i64,
    /// Account authorized to vote on behalf of this escrow.
    pub vote_delegate: Pubkey,
    /// Whether the escrow is locked permanently at the maximum duration.
    pub is_max_lock: bool,
    /// Amount reserved in open partial unstaking tickets.
    pub partial_unstaking_amount: u64,
}

impl Default for Escrow {
    fn default() -> (r: Escrow)
        ensures
            r.bump == 0,
            r.amount == 0,
            r.escrow_started_at == 0,
            r.escrow_ends_at == 0,
            !r.is_max_lock,
            r.partial_unstaking_amount == 0,
    {
        Escrow {
            locker: Pubkey::zeroed(),
            owner: Pubkey::zeroed(),
            bump: 0,
            tokens: Pubkey::zeroed(),
            amount: 0,
            escrow_started_at: 0,
            escrow_ends_at: 0,
            vote_delegate: Pubkey::zeroed(),
            is_max_lock: false,
            partial_unstaking_amount: 0,
        }
    }
}

/// The seconds of lock left at time `t`: the whole decay window for a max
/// lock, otherwise the time until `escrow_ends_at`, and zero once it passed.
pub open spec fn remaining_duration(escrow: Escrow, locker: Locker, t: i64) -> int {
    if escrow.is_max_lock {
        locker.params.max_stake_duration as int
    } else if escrow.escrow_ends_at <= t {
        0
    } else {
        escrow.escrow_ends_at - t
    }
}

/// The voting power of a fully locked balance: `amount * multiplier`.
pub open spec fn full_power(escrow: Escrow, locker: Locker) -> int {
    escrow.amount * locker.params.max_stake_vote_multiplier
}

/// Voting power at time `t`: `amount * multiplier * remaining / max_stake_duration`,
/// rounded down. `None` where `amount * multiplier` or the result does not
/// fit in a `u64`, or the decay window is empty while time remains.
pub open spec fn voting_power_spec(escrow: Escrow, locker: Locker, t: i64) -> Option<u64> {
    let rem = remaining_duration(escrow, locker, t);
    let full = full_power(escrow, locker);
    let max = locker.params.max_stake_duration as int;
    if rem == 0 {
        Some(0)
    } else if max == 0 || full > u64::MAX {
        None
    } else if full * rem / max > u64::MAX {
        None
    } else {
        Some((full * rem / max) as u64)
    }
}

impl Locker {
    /// Voting power of `escrow` at `timestamp` (see [voting_power_spec]).
    pub fn calculate_voter_power(&self, escrow: &Escrow, timestamp: i64) -> (r: Option<u64>)
        ensures
            r == voting_power_spec(*escrow, *self, timestamp),
    {
        let rem: u64 = if escrow.is_max_lock {
            self.params.max_stake_duration
        } else if escrow.escrow_ends_at <= timestamp {
            0
        } else {
            ((escrow.escrow_ends_at as i128) - (timestamp as i128)) as u64
        };
        assert(rem == remaining_duration(*escrow, *self, timestamp));
        if rem == 0 {
            return Some(0);
        }
        let max = self.params.max_stake_duration;
        if max == 0 {
            return None;
        }
        let full = match escrow.amount.checked_mul(self.params.max_stake_vote_multiplier as u64) {
            Some(f) => f,
            None => return None,
        };
        assert(full == full_power(*escrow, *self));
        assert((full as int) * (rem as int) <= u64::MAX * u64::MAX) by (nonlinear_arith)
            requires
                full <= u64::MAX,
                rem <= u64::MAX,
        ;
        let product: u128 = (full as u128) * (rem as u128);
        let power: u128 = product / (max as u128);
        if power > u64::MAX as u128 {
            None
        } else {
            Some(power as u64)
        }
    }
}

impl Escrow {
    /// Voting power of the escrow at `timestamp` (see [voting_power_spec]).
    pub fn voting_power_at_time(&self, locker: &Locker, timestamp: i64) -> (r: Option<u64>)
        ensures
            r == voting_power_spec(*self, *locker, timestamp),
    {
        locker.calculate_voter_power(self, timestamp)
    }

    /// Voting power of the escrow at `now`, the current time of the caller's
    /// clock; a power that cannot be computed is [ErrorCode::MathOverflow].
    pub fn voting_power(&self, locker: &Locker, now: i64) -> (r: Result<u64, ErrorCode>)
        ensures
            match voting_power_spec(*self, *locker, now) {
                Some(p) => r == Ok::<u64, ErrorCode>(p),
                None => r == Err::<u64, ErrorCode>(ErrorCode::MathOverflow),
            },
    {
        match self.voting_power_at_time(locker, now) {
            Some(p) => Ok(p),
            None => Err(ErrorCode::MathOverflow),
        }
    }

    /// Adds `lock_amount` to the escrow's amount and to the locker's locked
    /// supply, both or neither.
    pub fn record_increase_locked_amount_event(&mut self, locker: &mut Locker, lock_amount: u64) -> (r: Result<(), ErrorCode>)
        ensures
            r is Ok <==> old(self).amount + lock_amount <= u64::MAX
                && old(locker).locked_supply + lock_amount <= u64::MAX,
            r is Ok ==> *final(self) == (Escrow { amount: (old(self).amount + lock_amount) as u64, ..*old(self) })
                && *final(locker) == (Locker { locked_supply: (old(locker).locked_supply + lock_amount) as u64, ..*old(locker) }),
            r is Err ==> r == Err::<(), ErrorCode>(ErrorCode::MathOverflow) && *final(self) == *old(self)
                && *final(locker) == *old(locker),
    {
        let amount = match self.amount.checked_add(lock_amount) {
            Some(a) => a,
            None => return Err(ErrorCode::MathOverflow),
        };
        let supply = match locker.locked_supply.checked_add(lock_amount) {
            Some(s) => s,
            None => return Err(ErrorCode::MathOverflow),
        };
        self.amount = amount;
        locker.locked_supply = supply;
        Ok(())
    }

    /// Sets the escrow's lock window.
    pub fn record_extend_lock_duration_event(&mut self, next_escrow_started_at: i64, next_escrow_ends_at: i64) -> (r: Result<(), ErrorCode>)
        ensures
            r is Ok,
            *final(self) == (Escrow {
                escrow_started_at: next_escrow_started_at,
                escrow_ends_at: next_escrow_ends_at,
                ..*old(self)
            }),
    {
        self.escrow_started_at = next_escrow_started_at;
        self.escrow_ends_at = next_escrow_ends_at;
        Ok(())
    }

    /// Seconds of lock left at `current_time` (see [remaining_duration]);
    /// `None` where `escrow_ends_at - current_time` does not fit in an `i64`.
    pub fn get_remaining_duration_until_expiration(&self, current_time: i64, locker: &Locker) -> (r: Option<u64>)
        ensures
            r is Some <==> (self.is_max_lock || self.escrow_ends_at <= current_time
                || self.escrow_ends_at - current_time <= i64::MAX),
            r is Some ==> r.unwrap() == remaining_duration(*self, *locker, current_time),
    {
        if self.is_max_lock {
            return Some(locker.params.max_stake_duration);
        }
        if self.escrow_ends_at < current_time {
            return Some(0);
        }
        match self.escrow_ends_at.checked_sub(current_time) {
            Some(d) => Some(d as u64),
            None => None,
        }
    }

    /// Moves `amount` from the active amount into the partial unstaking
    /// amount, both or neither.
    pub fn accumulate_partial_unstaking_amount(&mut self, amount: u64) -> (r: Option<()>)
        ensures
            r is Some <==> amount <= old(self).amount
                && old(self).partial_unstaking_amount + amount <= u64::MAX,
            r is Some ==> *final(self) == (Escrow {
                amount: (old(self).amount - amount) as u64,
                partial_unstaking_amount: (old(self).partial_unstaking_amount + amount) as u64,
                ..*old(self)
            }),
            r is None ==> *final(self) == *old(self),
    {
        let active = match self.amount.checked_sub(amount) {
            Some(a) => a,
            None => return None,
        };
        let reserved = match self.partial_unstaking_amount.checked_add(amount) {
            Some(p) => p,
            None => return None,
        };
        self.amount = active;
        self.partial_unstaking_amount = reserved;
        Some(())
    }

    /// Moves `amount` from the partial unstaking amount back into the active
    /// amount, both or neither.
    pub fn merge_partial_unstaking_amount(&mut self, amount: u64) -> (r: Option<()>)
        ensures
            r is Some <==> old(self).amount + amount <= u64::MAX
                && amount <= old(self).partial_unstaking_amount,
            r is Some ==> *final(self) == (Escrow {
                amount: (old(self).amount + amount) as u64,
                partial_unstaking_amount: (old(self).partial_unstaking_amount - amount) as u64,
                ..*old(self)
            }),
            r is None ==> *final(self) == *old(self),
    {
        let active = match self.amount.checked_add(amount) {
            Some(a) => a,
            None => return None,
        };
        let reserved = match self.partial_unstaking_amount.checked_sub(amount) {
            Some(p) => p,
            None => return None,
        };
        self.amount = active;
        self.partial_unstaking_amount = reserved;
        Some(())
    }

    /// Takes `amount` out of the partial unstaking amount.
    pub fn withdraw_partial_unstaking_amount(&mut self, amount: u64) -> (r: Option<()>)
        ensures
            r is Some <==> amount <= old(self).partial_unstaking_amount,
            r is Some ==> *final(self) == (Escrow {
                partial_unstaking_amount: (old(self).partial_unstaking_amount - amount) as u64,
                ..*old(self)
            }),
            r is None ==> *final(self) == *old(self),
    {
        match self.partial_unstaking_amount.checked_sub(amount) {
            Some(p) => {
                self.partial_unstaking_amount = p;
                Some(())
            },
            None => None,
        }
    }
}

/// A pending early-exit ticket reserving part of one escrow's balance.
#[derive(Clone, Debug)]
pub struct PartialUnstaking {
    /// The escrow the ticket belongs to.
    pub escrow: Pubkey,
    /// Amount reserved by this ticket.
    pub amount: u64,
    /// When the owner may withdraw the reserved amount.
    pub expiration: i64,
    /// Free-form memo.
    pub memo: String,
}

impl Default for PartialUnstaking {
    fn default() -> (r: PartialUnstaking)
        ensures
            r.amount == 0,
            r.expiration == 0,
            r.memo@ == Seq::<char>::empty(),
    {
        PartialUnstaking { escrow: Pubkey::zeroed(), amount: 0, expiration: 0, memo: String::new() }
    }
}

impl PartialUnstaking {
    /// Takes `amount` out of the ticket.
    pub fn cancel_partial_unstaking_amount(&mut self, amount: u64) -> (r: Option<()>)
        ensures
            r is Some <==> amount <= old(self).amount,
            r is Some ==> *final(self) == (PartialUnstaking {
                amount: (old(self).amount - amount) as u64,
                ..*old(self)
            }),
            r is None ==> *final(self) == *old(self),
    {
        match self.amount.checked_sub(amount) {
            Some(a) => {
                self.amount = a;
                Some(())
            },
            None => None,
        }
    }
}

} // verus!
