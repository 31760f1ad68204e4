//! Vote-escrow locking: participants lock tokens for a duration, or
//! permanently, in exchange for voting power that decays linearly as the lock
//! approaches its end. Every operation is a checked, all-or-nothing transition
//! on plain records (lockers, escrows, partial unstaking tickets).
pub mod error;
pub mod instructions;
pub mod key;
pub mod laws;
pub mod partial_merge_partial_unstaking;
pub mod state;
pub mod transfer_locked_amount;

pub use error::ErrorCode;
pub use instructions::{
    extend_lock_duration, increase_locked_amount, merge_partial_unstaking, new_escrow, new_locker,
    open_partial_unstaking, set_locker_params, set_vote_delegate, toggle_max_lock, withdraw,
    withdraw_partial_unstaking,
};
pub use key::Pubkey;
pub use partial_merge_partial_unstaking::{
    partial_merge_partial_unstaking, PartialMergePartialUnstaking, PartialMergePartialUnstakingEvent,
};
pub use state::{Escrow, Locker, LockerParams, PartialUnstaking};
pub use transfer_locked_amount::{NewTransferRequest, TransferLockedAmount, TransferRequest};
