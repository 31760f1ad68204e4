use locked_voter::instructions::{
    extend_lock_duration, increase_locked_amount, merge_partial_unstaking, new_escrow, new_locker,
    open_partial_unstaking, set_locker_params, set_vote_delegate, toggle_max_lock, withdraw,
    withdraw_partial_unstaking,
};
use locked_voter::partial_merge_partial_unstaking::{
    partial_merge_partial_unstaking, PartialMergePartialUnstaking, PartialMergePartialUnstakingEvent,
};
use locked_voter::transfer_locked_amount::{NewTransferRequest, TransferLockedAmount, TransferRequest};
use locked_voter::{ErrorCode, Escrow, Locker, LockerParams, Pubkey};

const DAY: i64 = 86_400;
const WEEK: i64 = 7 * DAY;
const MAX_TIME: i64 = 4 * 365 * DAY;
const START: i64 = 1_635_379_200;
const LOCK_AMOUNT: u64 = 1_000_000_000_000_000;

fn key(b: u8) -> Pubkey {
    Pubkey::new_from_array([b; 32])
}

fn params() -> LockerParams {
    LockerParams {
        max_stake_vote_multiplier: 1,
        min_stake_duration: DAY as u64,
        max_stake_duration: MAX_TIME as u64,
        proposal_activation_min_votes: 0,
    }
}

fn setup() -> (Locker, Escrow) {
    let mut locker = new_locker(key(1), 255, key(2), key(3), params()).unwrap();
    let escrow = new_escrow(&mut locker, key(9), key(4), 254, key(5)).unwrap();
    (locker, escrow)
}

#[test]
fn new_locker_and_escrow_start_empty() {
    let (locker, escrow) = setup();
    assert_eq!(locker.locked_supply, 0);
    assert_eq!(locker.total_escrow, 1);
    assert_eq!(escrow.amount, 0);
    assert_eq!(escrow.partial_unstaking_amount, 0);
    assert!(escrow.vote_delegate == key(4));
    assert!(escrow.locker == key(9));
    assert!(!escrow.is_max_lock);
}

#[test]
fn invalid_locker_params_are_refused() {
    let bad = LockerParams { min_stake_duration: 10, max_stake_duration: 5, ..params() };
    assert_eq!(new_locker(key(1), 0, key(2), key(3), bad).unwrap_err(), ErrorCode::InvalidLockerParams);
    let (mut locker, _) = setup();
    assert_eq!(set_locker_params(&mut locker, key(7), params()), Err(ErrorCode::Unauthorized));
    assert_eq!(set_locker_params(&mut locker, key(3), bad), Err(ErrorCode::InvalidLockerParams));
    let longer = LockerParams { max_stake_duration: 2 * MAX_TIME as u64, ..params() };
    assert_eq!(set_locker_params(&mut locker, key(3), longer), Ok(()));
    assert_eq!(locker.params.max_stake_duration, 2 * MAX_TIME as u64);
}

#[test]
fn one_week_lock_then_withdraw() {
    let (mut locker, mut escrow) = setup();
    let t = START;
    increase_locked_amount(&mut locker, key(9), &mut escrow, key(4), LOCK_AMOUNT).unwrap();
    extend_lock_duration(&locker, key(9), &mut escrow, key(4), WEEK, t).unwrap();
    assert_eq!(locker.locked_supply, LOCK_AMOUNT);
    assert_eq!(escrow.escrow_ends_at, t + WEEK);

    let hour = 3600;
    let p = escrow.voting_power_at_time(&locker, t + hour).unwrap();
    assert_eq!(p as u128, LOCK_AMOUNT as u128 * (WEEK - hour) as u128 / MAX_TIME as u128);

    assert_eq!(withdraw(&mut locker, key(9), &mut escrow, key(4), t + WEEK - 1), Err(ErrorCode::EscrowNotEnded));
    assert_eq!(escrow.voting_power_at_time(&locker, t + WEEK + hour), Some(0));
    assert_eq!(withdraw(&mut locker, key(9), &mut escrow, key(4), t + WEEK + hour), Ok(LOCK_AMOUNT));
    assert_eq!(locker.locked_supply, 0);
    assert_eq!(escrow.amount, 0);
}

#[test]
fn two_escrows_midpoint() {
    let (mut locker, mut alice) = setup();
    let mut bob = new_escrow(&mut locker, key(9), key(6), 253, key(8)).unwrap();
    let t = START;
    increase_locked_amount(&mut locker, key(9), &mut alice, key(4), LOCK_AMOUNT).unwrap();
    extend_lock_duration(&locker, key(9), &mut alice, key(4), 2 * WEEK, t).unwrap();
    increase_locked_amount(&mut locker, key(9), &mut bob, key(6), LOCK_AMOUNT).unwrap();
    extend_lock_duration(&locker, key(9), &mut bob, key(6), WEEK, t).unwrap();
    assert_eq!(locker.locked_supply, alice.amount + bob.amount);

    let mid = t + 7 * DAY;
    assert_eq!(bob.voting_power_at_time(&locker, mid), Some(0));
    assert!(alice.voting_power_at_time(&locker, mid).unwrap() > 0);
    assert_eq!(locker.locked_supply, alice.amount + bob.amount);

    withdraw(&mut locker, key(9), &mut bob, key(6), mid).unwrap();
    assert_eq!(locker.locked_supply, alice.amount + bob.amount);
    assert_eq!(locker.locked_supply, LOCK_AMOUNT);
}

#[test]
fn increase_errors() {
    let (mut locker, mut escrow) = setup();
    assert_eq!(increase_locked_amount(&mut locker, key(8), &mut escrow, key(4), 5), Err(ErrorCode::KeyMismatch));
    assert_eq!(increase_locked_amount(&mut locker, key(9), &mut escrow, key(7), 5), Err(ErrorCode::Unauthorized));
    assert_eq!(increase_locked_amount(&mut locker, key(9), &mut escrow, key(4), 0), Err(ErrorCode::AmountIsZero));
    increase_locked_amount(&mut locker, key(9), &mut escrow, key(4), u64::MAX).unwrap();
    assert_eq!(increase_locked_amount(&mut locker, key(9), &mut escrow, key(4), 1), Err(ErrorCode::MathOverflow));
    assert_eq!(escrow.amount, u64::MAX);
    assert_eq!(locker.locked_supply, u64::MAX);
}

#[test]
fn extend_errors() {
    let (mut locker, mut escrow) = setup();
    increase_locked_amount(&mut locker, key(9), &mut escrow, key(4), 100).unwrap();
    assert_eq!(extend_lock_duration(&locker, key(9), &mut escrow, key(4), DAY - 1, START), Err(ErrorCode::LockupDurationTooShort));
    assert_eq!(extend_lock_duration(&locker, key(9), &mut escrow, key(4), -5, START), Err(ErrorCode::LockupDurationTooShort));
    assert_eq!(extend_lock_duration(&locker, key(9), &mut escrow, key(4), MAX_TIME + 1, START), Err(ErrorCode::LockupDurationTooLong));
    extend_lock_duration(&locker, key(9), &mut escrow, key(4), 2 * WEEK, START).unwrap();
    assert_eq!(extend_lock_duration(&locker, key(9), &mut escrow, key(4), WEEK, START), Err(ErrorCode::RefreshCannotShorten));
    assert_eq!(escrow.escrow_ends_at, START + 2 * WEEK);
    assert_eq!(extend_lock_duration(&locker, key(9), &mut escrow, key(4), DAY, i64::MAX - 10), Err(ErrorCode::MathOverflow));
    extend_lock_duration(&locker, key(9), &mut escrow, key(4), WEEK, START + WEEK).unwrap();
    assert_eq!(escrow.escrow_started_at, START + WEEK);
    toggle_max_lock(&locker, key(9), &mut escrow, key(4), true, START).unwrap();
    assert_eq!(extend_lock_duration(&locker, key(9), &mut escrow, key(4), WEEK, START), Err(ErrorCode::MaxLockIsSet));
}

#[test]
fn toggle_max_lock_states() {
    let (mut locker, mut escrow) = setup();
    increase_locked_amount(&mut locker, key(9), &mut escrow, key(4), 100).unwrap();
    assert_eq!(toggle_max_lock(&locker, key(9), &mut escrow, key(4), false, START), Err(ErrorCode::MaxLockIsNotSet));
    toggle_max_lock(&locker, key(9), &mut escrow, key(4), true, START).unwrap();
    assert!(escrow.is_max_lock);
    assert_eq!(escrow.voting_power_at_time(&locker, START + 100 * WEEK), Some(100));
    assert_eq!(toggle_max_lock(&locker, key(9), &mut escrow, key(4), true, START), Err(ErrorCode::MaxLockIsSet));
    assert_eq!(withdraw(&mut locker, key(9), &mut escrow, key(4), START), Err(ErrorCode::MaxLockIsSet));
    toggle_max_lock(&locker, key(9), &mut escrow, key(4), false, START).unwrap();
    assert!(!escrow.is_max_lock);
    assert_eq!(escrow.escrow_started_at, START);
    assert_eq!(escrow.escrow_ends_at, START + MAX_TIME);
}

#[test]
fn vote_delegate_is_set_by_owner() {
    let (_, mut escrow) = setup();
    assert_eq!(set_vote_delegate(&mut escrow, key(7), key(8)), Err(ErrorCode::Unauthorized));
    set_vote_delegate(&mut escrow, key(4), key(8)).unwrap();
    assert!(escrow.vote_delegate == key(8));
}

#[test]
fn open_then_merge_restores_split() {
    let (mut locker, mut escrow) = setup();
    increase_locked_amount(&mut locker, key(9), &mut escrow, key(4), 1000).unwrap();
    let ticket = open_partial_unstaking(&mut locker, key(9), &mut escrow, key(9), key(4), 300, "exit".to_string(), START).unwrap();
    assert_eq!(escrow.amount, 700);
    assert_eq!(escrow.partial_unstaking_amount, 300);
    assert_eq!(locker.locked_supply, 700);
    assert_eq!(ticket.amount, 300);
    assert_eq!(ticket.expiration, START + DAY);
    assert_eq!(ticket.memo, "exit");
    merge_partial_unstaking(&mut locker, key(9), &mut escrow, key(9), &ticket, key(4)).unwrap();
    assert_eq!(escrow.amount, 1000);
    assert_eq!(escrow.partial_unstaking_amount, 0);
    assert_eq!(locker.locked_supply, 1000);
}

#[test]
fn open_partial_unstaking_errors() {
    let (mut locker, mut escrow) = setup();
    increase_locked_amount(&mut locker, key(9), &mut escrow, key(4), 1000).unwrap();
    let open = |l: &mut Locker, e: &mut Escrow, a: u64| open_partial_unstaking(l, key(9), e, key(9), key(4), a, String::new(), START);
    assert_eq!(open(&mut locker, &mut escrow, 0).unwrap_err(), ErrorCode::AmountIsZero);
    assert_eq!(open(&mut locker, &mut escrow, 1001).unwrap_err(), ErrorCode::InvalidAmountForPartialUnstaking);
    let whole = open(&mut locker, &mut escrow, 1000).unwrap();
    assert_eq!(whole.amount, 1000);
    assert_eq!(escrow.amount, 0);
    assert_eq!(locker.locked_supply, 0);
}

#[test]
fn withdraw_partial_unstaking_after_expiration() {
    let (mut locker, mut escrow) = setup();
    increase_locked_amount(&mut locker, key(9), &mut escrow, key(4), 1000).unwrap();
    let ticket = open_partial_unstaking(&mut locker, key(9), &mut escrow, key(9), key(4), 400, String::new(), START).unwrap();
    assert_eq!(
        withdraw_partial_unstaking(key(9), &mut escrow, key(9), &ticket, key(4), START + DAY - 1),
        Err(ErrorCode::PartialUnstakingIsNotEnded)
    );
    assert_eq!(withdraw_partial_unstaking(key(9), &mut escrow, key(8), &ticket, key(4), START + DAY), Err(ErrorCode::KeyMismatch));
    assert_eq!(withdraw_partial_unstaking(key(9), &mut escrow, key(9), &ticket, key(4), START + DAY), Ok(400));
    assert_eq!(escrow.partial_unstaking_amount, 0);
    assert_eq!(escrow.amount, 600);
    assert_eq!(locker.locked_supply, 600);
}

fn merge_accounts(ends_at: i64) -> PartialMergePartialUnstaking {
    let (mut locker, mut escrow) = setup();
    increase_locked_amount(&mut locker, key(9), &mut escrow, key(4), 1000).unwrap();
    extend_lock_duration(&locker, key(9), &mut escrow, key(4), ends_at - START, START).unwrap();
    let ticket = open_partial_unstaking(&mut locker, key(9), &mut escrow, key(10), key(4), 500, String::new(), START).unwrap();
    PartialMergePartialUnstaking {
        locker_key: key(9),
        locker,
        escrow_key: key(10),
        escrow,
        partial_unstake_key: key(11),
        partial_unstake: ticket,
        owner: key(4),
    }
}

#[test]
fn partial_merge_moves_part_of_a_ticket() {
    let mut accounts = merge_accounts(START + WEEK);
    let event = partial_merge_partial_unstaking(&mut accounts, 200, START).unwrap();
    assert_eq!(event, PartialMergePartialUnstakingEvent { partial_unstake: key(11), escrow: key(10), amount: 200 });
    assert_eq!(accounts.escrow.amount, 700);
    assert_eq!(accounts.escrow.partial_unstaking_amount, 300);
    assert_eq!(accounts.partial_unstake.amount, 300);
    assert_eq!(accounts.locker.locked_supply, 700);
}

#[test]
fn partial_merge_errors() {
    let mut accounts = merge_accounts(START + WEEK);
    assert_eq!(accounts.partial_merge_partial_unstaking(0, START), Err(ErrorCode::AmountIsZero));
    assert_eq!(accounts.partial_merge_partial_unstaking(500, START), Err(ErrorCode::AmountIsTooLarge));
    assert_eq!(accounts.partial_merge_partial_unstaking(100, START + WEEK - DAY + 1), Err(ErrorCode::LockupDurationTooShort));
    accounts.owner = key(7);
    assert_eq!(accounts.partial_merge_partial_unstaking(100, START), Err(ErrorCode::Unauthorized));
    assert_eq!(accounts.escrow.amount, 500);
    assert_eq!(accounts.partial_unstake.amount, 500);
}

fn transfer_accounts() -> TransferLockedAmount {
    let (mut locker, mut source) = setup();
    let mut destination = new_escrow(&mut locker, key(9), key(6), 253, key(8)).unwrap();
    increase_locked_amount(&mut locker, key(9), &mut source, key(4), 1000).unwrap();
    increase_locked_amount(&mut locker, key(9), &mut destination, key(6), 50).unwrap();
    let mut filing = NewTransferRequest {
        payer: key(4),
        owner: key(4),
        request: TransferRequest::default(),
        locker_key: key(9),
        locker,
        escrow_source_key: key(20),
        escrow_source: source,
        escrow_destination_key: key(21),
        escrow_destination: destination,
    };
    filing.new_transfer_request().unwrap();
    assert_eq!(filing.request.amount, 1000);
    TransferLockedAmount {
        admin: Pubkey::zeroed(),
        owner: key(4),
        locker_key: key(9),
        locker,
        escrow_source_key: key(20),
        escrow_source: source,
        escrow_destination_key: key(21),
        escrow_destination: destination,
        request: filing.request,
    }
}

#[test]
fn transfer_moves_whole_amount() {
    let mut accounts = transfer_accounts();
    accounts.transfer_locked_amount().unwrap();
    assert_eq!(accounts.escrow_source.amount, 0);
    assert_eq!(accounts.escrow_destination.amount, 1050);
    assert_eq!(accounts.locker.locked_supply, 1050);
    assert_eq!(accounts.transfer_locked_amount(), Err(ErrorCode::AmountIsZero));
}

#[test]
fn transfer_errors() {
    let mut accounts = transfer_accounts();
    accounts.admin = key(1);
    assert_eq!(accounts.transfer_locked_amount(), Err(ErrorCode::Unauthorized));
    let mut accounts = transfer_accounts();
    accounts.escrow_destination_key = key(22);
    assert_eq!(accounts.transfer_locked_amount(), Err(ErrorCode::KeyMismatch));
    assert_eq!(accounts.escrow_source.amount, 1000);
    let mut accounts = transfer_accounts();
    accounts.escrow_destination.amount = u64::MAX;
    assert_eq!(accounts.transfer_locked_amount(), Err(ErrorCode::MathOverflow));
}

#[test]
fn transfer_request_requires_owner() {
    let (mut locker, source) = setup();
    let destination = new_escrow(&mut locker, key(9), key(6), 253, key(8)).unwrap();
    let mut filing = NewTransferRequest {
        payer: key(6),
        owner: key(6),
        request: TransferRequest::default(),
        locker_key: key(9),
        locker,
        escrow_source_key: key(20),
        escrow_source: source,
        escrow_destination_key: key(21),
        escrow_destination: destination,
    };
    assert_eq!(filing.new_transfer_request(), Err(ErrorCode::Unauthorized));
}

#[test]
fn counters_stay_in_step() {
    let mut escrow = Escrow { amount: 10, partial_unstaking_amount: 5, ..Escrow::default() };
    assert_eq!(escrow.accumulate_partial_unstaking_amount(11), None);
    assert_eq!(escrow.merge_partial_unstaking_amount(6), None);
    assert_eq!(escrow.withdraw_partial_unstaking_amount(6), None);
    assert_eq!((escrow.amount, escrow.partial_unstaking_amount), (10, 5));
    assert_eq!(escrow.accumulate_partial_unstaking_amount(4), Some(()));
    assert_eq!((escrow.amount, escrow.partial_unstaking_amount), (6, 9));
    assert_eq!(escrow.merge_partial_unstaking_amount(2), Some(()));
    assert_eq!((escrow.amount, escrow.partial_unstaking_amount), (8, 7));
    assert_eq!(escrow.withdraw_partial_unstaking_amount(7), Some(()));
    assert_eq!((escrow.amount, escrow.partial_unstaking_amount), (8, 0));
    let mut ticket = locked_voter::PartialUnstaking { amount: 3, ..Default::default() };
    assert_eq!(ticket.cancel_partial_unstaking_amount(4), None);
    assert_eq!(ticket.cancel_partial_unstaking_amount(3), Some(()));
    assert_eq!(ticket.amount, 0);
}

#[test]
fn error_messages() {
    assert_eq!(ErrorCode::EscrowNotEnded.message(), "Escrow has not ended");
    assert_eq!(ErrorCode::AmountIsTooLarge.message(), "Amount is too large");
}
