//! Properties of the locker as a whole, proved over the outcomes of its
//! operations.
use vstd::prelude::*;

use crate::instructions::{
    extend_lock_duration_result, increase_locked_amount_result, merge_partial_unstaking_result,
    new_escrow_result, open_partial_unstaking_result, set_locker_params_result, set_vote_delegate_result,
    toggle_max_lock_result, withdraw_partial_unstaking_result, withdraw_result,
};
use crate::key::Pubkey;
use crate::partial_merge_partial_unstaking::partial_merge_partial_unstaking_result;
use crate::state::{full_power, remaining_duration, voting_power_spec, Escrow, Locker, LockerParams, PartialUnstaking};
use crate::transfer_locked_amount::{transfer_locked_amount_result, TransferLockedAmount, TransferRequest};

verus! {

/// Sum of a sequence of integers.
pub open spec fn sum(s: Seq<int>) -> int
    decreases s.len(),
{
    if s.len() == 0 {
        0
    } else {
        sum(s.drop_last()) + s.last()
    }
}

/// Sum of the active amounts of `escrows`.
pub open spec fn total_amount(escrows: Seq<Escrow>) -> int {
    sum(escrows.map_values(|e: Escrow| e.amount as int))
}

/// Sum of the amounts of `tickets`.
pub open spec fn ticket_total(tickets: Seq<PartialUnstaking>) -> int {
    sum(tickets.map_values(|t: PartialUnstaking| t.amount as int))
}

proof fn lemma_sum_push(s: Seq<int>, x: int)
    ensures
        sum(s.push(x)) == sum(s) + x,
{
    assert(s.push(x).drop_last() =~= s);
}

proof fn lemma_sum_update(s: Seq<int>, i: int, x: int)
    requires
        0 <= i < s.len(),
    ensures
        sum(s.update(i, x)) == sum(s) - s[i] + x,
    decreases s.len(),
{
    if i == s.len() - 1 {
        assert(s.update(i, x).drop_last() =~= s.drop_last());
    } else {
        lemma_sum_update(s.drop_last(), i, x);
        assert(s.update(i, x).drop_last() =~= s.drop_last().update(i, x));
    }
}

proof fn lemma_sum_remove(s: Seq<int>, i: int)
    requires
        0 <= i < s.len(),
    ensures
        sum(s.remove(i)) == sum(s) - s[i],
    decreases s.len(),
{
    if i == s.len() - 1 {
        assert(s.remove(i) =~= s.drop_last());
    } else {
        lemma_sum_remove(s.drop_last(), i);
        assert(s.remove(i).drop_last() =~= s.drop_last().remove(i));
    }
}

proof fn lemma_total_amount_update(escrows: Seq<Escrow>, i: int, e: Escrow)
    requires
        0 <= i < escrows.len(),
    ensures
        total_amount(escrows.update(i, e)) == total_amount(escrows) - escrows[i].amount + e.amount,
{
    let f = |x: Escrow| x.amount as int;
    assert(escrows.update(i, e).map_values(f) =~= escrows.map_values(f).update(i, e.amount as int));
    lemma_sum_update(escrows.map_values(f), i, e.amount as int);
}

proof fn lemma_total_amount_push(escrows: Seq<Escrow>, e: Escrow)
    ensures
        total_amount(escrows.push(e)) == total_amount(escrows) + e.amount,
{
    let f = |x: Escrow| x.amount as int;
    assert(escrows.push(e).map_values(f) =~= escrows.map_values(f).push(e.amount as int));
    lemma_sum_push(escrows.map_values(f), e.amount as int);
}

proof fn lemma_ticket_total_update(tickets: Seq<PartialUnstaking>, j: int, t: PartialUnstaking)
    requires
        0 <= j < tickets.len(),
    ensures
        ticket_total(tickets.update(j, t)) == ticket_total(tickets) - tickets[j].amount + t.amount,
{
    let f = |x: PartialUnstaking| x.amount as int;
    assert(tickets.update(j, t).map_values(f) =~= tickets.map_values(f).update(j, t.amount as int));
    lemma_sum_update(tickets.map_values(f), j, t.amount as int);
}

proof fn lemma_ticket_total_push(tickets: Seq<PartialUnstaking>, t: PartialUnstaking)
    ensures
        ticket_total(tickets.push(t)) == ticket_total(tickets) + t.amount,
{
    let f = |x: PartialUnstaking| x.amount as int;
    assert(tickets.push(t).map_values(f) =~= tickets.map_values(f).push(t.amount as int));
    lemma_sum_push(tickets.map_values(f), t.amount as int);
}

proof fn lemma_ticket_total_remove(tickets: Seq<PartialUnstaking>, j: int)
    requires
        0 <= j < tickets.len(),
    ensures
        ticket_total(tickets.remove(j)) == ticket_total(tickets) - tickets[j].amount,
{
    let f = |x: PartialUnstaking| x.amount as int;
    assert(tickets.remove(j).map_values(f) =~= tickets.map_values(f).remove(j));
    lemma_sum_remove(tickets.map_values(f), j);
}

/// A locker with all of its escrows, and for each escrow (same index) its
/// open partial unstaking tickets.
pub struct Ledger {
    pub locker: Locker,
    pub escrows: Seq<Escrow>,
    pub tickets: Seq<Seq<PartialUnstaking>>,
}

/// One operation on a [Ledger]; escrows and tickets are named by index.
pub enum Step {
    NewEscrow { locker_key: Pubkey, owner: Pubkey, bump: u8, tokens: Pubkey },
    SetLockerParams { governor: Pubkey, params: LockerParams },
    IncreaseLockedAmount { escrow: int, locker_key: Pubkey, owner: Pubkey, amount: u64 },
    ExtendLockDuration { escrow: int, locker_key: Pubkey, owner: Pubkey, duration: i64, now: i64 },
    ToggleMaxLock { escrow: int, locker_key: Pubkey, owner: Pubkey, is_max_lock: bool, now: i64 },
    Withdraw { escrow: int, locker_key: Pubkey, owner: Pubkey, now: i64 },
    SetVoteDelegate { escrow: int, owner: Pubkey, new_delegate: Pubkey },
    OpenPartialUnstaking {
        escrow: int,
        locker_key: Pubkey,
        escrow_key: Pubkey,
        owner: Pubkey,
        amount: u64,
        memo: String,
        now: i64,
    },
    MergePartialUnstaking { escrow: int, ticket: int, locker_key: Pubkey, escrow_key: Pubkey, owner: Pubkey },
    PartialMergePartialUnstaking {
        escrow: int,
        ticket: int,
        locker_key: Pubkey,
        escrow_key: Pubkey,
        owner: Pubkey,
        amount: u64,
        now: i64,
    },
    WithdrawPartialUnstaking {
        escrow: int,
        ticket: int,
        locker_key: Pubkey,
        escrow_key: Pubkey,
        owner: Pubkey,
        now: i64,
    },
    TransferLockedAmount {
        source: int,
        destination: int,
        admin: Pubkey,
        owner: Pubkey,
        locker_key: Pubkey,
        source_key: Pubkey,
        destination_key: Pubkey,
        request: TransferRequest,
    },
}

/// The ledger after `step`, as the operations' outcomes give it; a refused
/// step, or one that names a missing escrow or ticket, changes nothing.
pub open spec fn apply(l: Ledger, step: Step) -> Ledger {
    let n = l.escrows.len();
    match step {
        Step::NewEscrow { locker_key, owner, bump, tokens } => {
            match new_escrow_result(l.locker, locker_key, owner, bump, tokens) {
                Ok((locker, e)) => Ledger {
                    locker,
                    escrows: l.escrows.push(e),
                    tickets: l.tickets.push(Seq::empty()),
                },
                Err(_) => l,
            }
        },
        Step::SetLockerParams { governor, params } => {
            match set_locker_params_result(l.locker, governor, params) {
                Ok(locker) => Ledger { locker, ..l },
                Err(_) => l,
            }
        },
        Step::IncreaseLockedAmount { escrow: i, locker_key, owner, amount } => {
            if 0 <= i < n {
                match increase_locked_amount_result(l.locker, locker_key, l.escrows[i], owner, amount) {
                    Ok((locker, e)) => Ledger { locker, escrows: l.escrows.update(i, e), ..l },
                    Err(_) => l,
                }
            } else {
                l
            }
        },
        Step::ExtendLockDuration { escrow: i, locker_key, owner, duration, now } => {
            if 0 <= i < n {
                match extend_lock_duration_result(l.locker, locker_key, l.escrows[i], owner, duration, now) {
                    Ok(e) => Ledger { escrows: l.escrows.update(i, e), ..l },
                    Err(_) => l,
                }
            } else {
                l
            }
        },
        Step::ToggleMaxLock { escrow: i, locker_key, owner, is_max_lock, now } => {
            if 0 <= i < n {
                match toggle_max_lock_result(l.locker, locker_key, l.escrows[i], owner, is_max_lock, now) {
                    Ok(e) => Ledger { escrows: l.escrows.update(i, e), ..l },
                    Err(_) => l,
                }
            } else {
                l
            }
        },
        Step::Withdraw { escrow: i, locker_key, owner, now } => {
            if 0 <= i < n {
                match withdraw_result(l.locker, locker_key, l.escrows[i], owner, now) {
                    Ok((locker, e)) => Ledger { locker, escrows: l.escrows.update(i, e), ..l },
                    Err(_) => l,
                }
            } else {
                l
            }
        },
        Step::SetVoteDelegate { escrow: i, owner, new_delegate } => {
            if 0 <= i < n {
                match set_vote_delegate_result(l.escrows[i], owner, new_delegate) {
                    Ok(e) => Ledger { escrows: l.escrows.update(i, e), ..l },
                    Err(_) => l,
                }
            } else {
                l
            }
        },
        Step::OpenPartialUnstaking { escrow: i, locker_key, escrow_key, owner, amount, memo, now } => {
            if 0 <= i < n && i < l.tickets.len() {
                match open_partial_unstaking_result(l.locker, locker_key, l.escrows[i], owner, amount, now) {
                    Ok((locker, e)) => Ledger {
                        locker,
                        escrows: l.escrows.update(i, e),
                        tickets: l.tickets.update(i, l.tickets[i].push(PartialUnstaking {
                            escrow: escrow_key,
                            amount,
                            expiration: (now + l.locker.params.min_stake_duration) as i64,
                            memo,
                        })),
                    },
                    Err(_) => l,
                }
            } else {
                l
            }
        },
        Step::MergePartialUnstaking { escrow: i, ticket: j, locker_key, escrow_key, owner } => {
            if 0 <= i < n && i < l.tickets.len() && 0 <= j < l.tickets[i].len() {
                match merge_partial_unstaking_result(l.locker, locker_key, l.escrows[i], escrow_key, l.tickets[i][j], owner) {
                    Ok((locker, e)) => Ledger {
                        locker,
                        escrows: l.escrows.update(i, e),
                        tickets: l.tickets.update(i, l.tickets[i].remove(j)),
                    },
                    Err(_) => l,
                }
            } else {
                l
            }
        },
        Step::PartialMergePartialUnstaking { escrow: i, ticket: j, locker_key, escrow_key, owner, amount, now } => {
            if 0 <= i < n && i < l.tickets.len() && 0 <= j < l.tickets[i].len() {
                match partial_merge_partial_unstaking_result(l.locker, locker_key, l.escrows[i], escrow_key, l.tickets[i][j], owner, amount, now) {
                    Ok((locker, e, t)) => Ledger {
                        locker,
                        escrows: l.escrows.update(i, e),
                        tickets: l.tickets.update(i, l.tickets[i].update(j, t)),
                    },
                    Err(_) => l,
                }
            } else {
                l
            }
        },
        Step::WithdrawPartialUnstaking { escrow: i, ticket: j, locker_key, escrow_key, owner, now } => {
            if 0 <= i < n && i < l.tickets.len() && 0 <= j < l.tickets[i].len() {
                match withdraw_partial_unstaking_result(locker_key, l.escrows[i], escrow_key, l.tickets[i][j], owner, now) {
                    Ok(e) => Ledger {
                        escrows: l.escrows.update(i, e),
                        tickets: l.tickets.update(i, l.tickets[i].remove(j)),
                        ..l
                    },
                    Err(_) => l,
                }
            } else {
                l
            }
        },
        Step::TransferLockedAmount { source: i, destination: k, admin, owner, locker_key, source_key, destination_key, request } => {
            if 0 <= i < n && 0 <= k < n && i != k {
                let accounts = TransferLockedAmount {
                    admin,
                    owner,
                    locker_key,
                    locker: l.locker,
                    escrow_source_key: source_key,
                    escrow_source: l.escrows[i],
                    escrow_destination_key: destination_key,
                    escrow_destination: l.escrows[k],
                    request,
                };
                match transfer_locked_amount_result(accounts) {
                    Ok((s, d)) => Ledger { escrows: l.escrows.update(i, s).update(k, d), ..l },
                    Err(_) => l,
                }
            } else {
                l
            }
        },
    }
}

/// The ledger after each of `steps` in turn.
pub open spec fn run(l: Ledger, steps: Seq<Step>) -> Ledger
    decreases steps.len(),
{
    if steps.len() == 0 {
        l
    } else {
        apply(run(l, steps.drop_last()), steps.last())
    }
}

/// The locker's locked supply is the sum of its escrows' active amounts.
pub open spec fn supply_conserved(l: Ledger) -> bool {
    l.locker.locked_supply == total_amount(l.escrows)
}

/// Each escrow's partial unstaking amount is the sum of its open tickets.
pub open spec fn tickets_conserved(l: Ledger) -> bool {
    &&& l.tickets.len() == l.escrows.len()
    &&& forall|i: int| 0 <= i < l.escrows.len() ==> #[trigger] l.escrows[i].partial_unstaking_amount
        == ticket_total(l.tickets[i])
}

proof fn lemma_step_conserves(l: Ledger, step: Step)
    ensures
        supply_conserved(l) ==> supply_conserved(apply(l, step)),
        tickets_conserved(l) ==> tickets_conserved(apply(l, step)),
{
    let n = l.escrows.len();
    let r = apply(l, step);
    match step {
        Step::NewEscrow { locker_key, owner, bump, tokens } => {
            if let Ok((locker, e)) = new_escrow_result(l.locker, locker_key, owner, bump, tokens) {
                lemma_total_amount_push(l.escrows, e);
                assert(ticket_total(Seq::<PartialUnstaking>::empty()) == 0) by {
                    assert(Seq::<PartialUnstaking>::empty().map_values(|t: PartialUnstaking| t.amount as int)
                        =~= Seq::<int>::empty());
                }
                if tickets_conserved(l) {
                    assert forall|x: int| 0 <= x < r.escrows.len() implies #[trigger] r.escrows[x].partial_unstaking_amount
                        == ticket_total(r.tickets[x]) by {
                        if x < n {
                            assert(r.escrows[x] == l.escrows[x]);
                        }
                    }
                }
            }
        },
        Step::SetLockerParams { .. } => {},
        Step::IncreaseLockedAmount { escrow: i, locker_key, owner, amount } => {
            if 0 <= i < n {
                if let Ok((locker, e)) = increase_locked_amount_result(l.locker, locker_key, l.escrows[i], owner, amount) {
                    lemma_total_amount_update(l.escrows, i, e);
                    if tickets_conserved(l) {
                        assert forall|x: int| 0 <= x < r.escrows.len() implies #[trigger] r.escrows[x].partial_unstaking_amount
                            == ticket_total(r.tickets[x]) by {
                            assert(l.escrows[x].partial_unstaking_amount == ticket_total(l.tickets[x]));
                        }
                    }
                }
            }
        },
        Step::ExtendLockDuration { escrow: i, locker_key, owner, duration, now } => {
            if 0 <= i < n {
                if let Ok(e) = extend_lock_duration_result(l.locker, locker_key, l.escrows[i], owner, duration, now) {
                    lemma_total_amount_update(l.escrows, i, e);
                    if tickets_conserved(l) {
                        assert forall|x: int| 0 <= x < r.escrows.len() implies #[trigger] r.escrows[x].partial_unstaking_amount
                            == ticket_total(r.tickets[x]) by {
                            assert(l.escrows[x].partial_unstaking_amount == ticket_total(l.tickets[x]));
                        }
                    }
                }
            }
        },
        Step::ToggleMaxLock { escrow: i, locker_key, owner, is_max_lock, now } => {
            if 0 <= i < n {
                if let Ok(e) = toggle_max_lock_result(l.locker, locker_key, l.escrows[i], owner, is_max_lock, now) {
                    lemma_total_amount_update(l.escrows, i, e);
                    if tickets_conserved(l) {
                        assert forall|x: int| 0 <= x < r.escrows.len() implies #[trigger] r.escrows[x].partial_unstaking_amount
                            == ticket_total(r.tickets[x]) by {
                            assert(l.escrows[x].partial_unstaking_amount == ticket_total(l.tickets[x]));
                        }
                    }
                }
            }
        },
        Step::Withdraw { escrow: i, locker_key, owner, now } => {
            if 0 <= i < n {
                if let Ok((locker, e)) = withdraw_result(l.locker, locker_key, l.escrows[i], owner, now) {
                    lemma_total_amount_update(l.escrows, i, e);
                    if tickets_conserved(l) {
                        assert forall|x: int| 0 <= x < r.escrows.len() implies #[trigger] r.escrows[x].partial_unstaking_amount
                            == ticket_total(r.tickets[x]) by {
                            assert(l.escrows[x].partial_unstaking_amount == ticket_total(l.tickets[x]));
                        }
                    }
                }
            }
        },
        Step::SetVoteDelegate { escrow: i, owner, new_delegate } => {
            if 0 <= i < n {
                if let Ok(e) = set_vote_delegate_result(l.escrows[i], owner, new_delegate) {
                    lemma_total_amount_update(l.escrows, i, e);
                    if tickets_conserved(l) {
                        assert forall|x: int| 0 <= x < r.escrows.len() implies #[trigger] r.escrows[x].partial_unstaking_amount
                            == ticket_total(r.tickets[x]) by {
                            assert(l.escrows[x].partial_unstaking_amount == ticket_total(l.tickets[x]));
                        }
                    }
                }
            }
        },
        Step::OpenPartialUnstaking { escrow: i, locker_key, escrow_key, owner, amount, memo, now } => {
            if 0 <= i < n && i < l.tickets.len() {
                if let Ok((locker, e)) = open_partial_unstaking_result(l.locker, locker_key, l.escrows[i], owner, amount, now) {
                    lemma_total_amount_update(l.escrows, i, e);
                    let t = PartialUnstaking {
                        escrow: escrow_key,
                        amount,
                        expiration: (now + l.locker.params.min_stake_duration) as i64,
                        memo,
                    };
                    lemma_ticket_total_push(l.tickets[i], t);
                    if tickets_conserved(l) {
                        assert forall|x: int| 0 <= x < r.escrows.len() implies #[trigger] r.escrows[x].partial_unstaking_amount
                            == ticket_total(r.tickets[x]) by {
                            assert(l.escrows[x].partial_unstaking_amount == ticket_total(l.tickets[x]));
                        }
                    }
                }
            }
        },
        Step::MergePartialUnstaking { escrow: i, ticket: j, locker_key, escrow_key, owner } => {
            if 0 <= i < n && i < l.tickets.len() && 0 <= j < l.tickets[i].len() {
                if let Ok((locker, e)) = merge_partial_unstaking_result(l.locker, locker_key, l.escrows[i], escrow_key, l.tickets[i][j], owner) {
                    lemma_total_amount_update(l.escrows, i, e);
                    lemma_ticket_total_remove(l.tickets[i], j);
                    if tickets_conserved(l) {
                        assert forall|x: int| 0 <= x < r.escrows.len() implies #[trigger] r.escrows[x].partial_unstaking_amount
                            == ticket_total(r.tickets[x]) by {
                            assert(l.escrows[x].partial_unstaking_amount == ticket_total(l.tickets[x]));
                        }
                    }
                }
            }
        },
        Step::PartialMergePartialUnstaking { escrow: i, ticket: j, locker_key, escrow_key, owner, amount, now } => {
            if 0 <= i < n && i < l.tickets.len() && 0 <= j < l.tickets[i].len() {
                if let Ok((locker, e, t)) = partial_merge_partial_unstaking_result(l.locker, locker_key, l.escrows[i], escrow_key, l.tickets[i][j], owner, amount, now) {
                    lemma_total_amount_update(l.escrows, i, e);
                    lemma_ticket_total_update(l.tickets[i], j, t);
                    if tickets_conserved(l) {
                        assert forall|x: int| 0 <= x < r.escrows.len() implies #[trigger] r.escrows[x].partial_unstaking_amount
                            == ticket_total(r.tickets[x]) by {
                            assert(l.escrows[x].partial_unstaking_amount == ticket_total(l.tickets[x]));
                        }
                    }
                }
            }
        },
        Step::WithdrawPartialUnstaking { escrow: i, ticket: j, locker_key, escrow_key, owner, now } => {
            if 0 <= i < n && i < l.tickets.len() && 0 <= j < l.tickets[i].len() {
                if let Ok(e) = withdraw_partial_unstaking_result(locker_key, l.escrows[i], escrow_key, l.tickets[i][j], owner, now) {
                    lemma_total_amount_update(l.escrows, i, e);
                    lemma_ticket_total_remove(l.tickets[i], j);
                    if tickets_conserved(l) {
                        assert forall|x: int| 0 <= x < r.escrows.len() implies #[trigger] r.escrows[x].partial_unstaking_amount
                            == ticket_total(r.tickets[x]) by {
                            assert(l.escrows[x].partial_unstaking_amount == ticket_total(l.tickets[x]));
                        }
                    }
                }
            }
        },
        Step::TransferLockedAmount { source: i, destination: k, admin, owner, locker_key, source_key, destination_key, request } => {
            if 0 <= i < n && 0 <= k < n && i != k {
                let accounts = TransferLockedAmount {
                    admin,
                    owner,
                    locker_key,
                    locker: l.locker,
                    escrow_source_key: source_key,
                    escrow_source: l.escrows[i],
                    escrow_destination_key: destination_key,
                    escrow_destination: l.escrows[k],
                    request,
                };
                if let Ok((s, d)) = transfer_locked_amount_result(accounts) {
                    lemma_total_amount_update(l.escrows, i, s);
                    lemma_total_amount_update(l.escrows.update(i, s), k, d);
                    if tickets_conserved(l) {
                        assert forall|x: int| 0 <= x < r.escrows.len() implies #[trigger] r.escrows[x].partial_unstaking_amount
                            == ticket_total(r.tickets[x]) by {
                            assert(l.escrows[x].partial_unstaking_amount == ticket_total(l.tickets[x]));
                        }
                    }
                }
            }
        },
    }
}

/// Conservation of the locked supply: after any sequence of operations on a
/// locker, its locked supply is still the sum of its escrows' active amounts.
pub proof fn lemma_locked_supply_conserved(l: Ledger, steps: Seq<Step>)
    requires
        supply_conserved(l),
    ensures
        supply_conserved(run(l, steps)),
    decreases steps.len(),
{
    if steps.len() > 0 {
        lemma_locked_supply_conserved(l, steps.drop_last());
        lemma_step_conserves(run(l, steps.drop_last()), steps.last());
    }
}

/// Conservation of tickets: after any sequence of operations, each escrow's
/// partial unstaking amount is still the sum of the amounts of its open
/// tickets.
pub proof fn lemma_tickets_conserved(l: Ledger, steps: Seq<Step>)
    requires
        tickets_conserved(l),
    ensures
        tickets_conserved(run(l, steps)),
    decreases steps.len(),
{
    if steps.len() > 0 {
        lemma_tickets_conserved(l, steps.drop_last());
        lemma_step_conserves(run(l, steps.drop_last()), steps.last());
    }
}

/// Decay: for an escrow that is not max-locked, voting power never grows as
/// time passes, and it is zero from the end of the lock window on.
pub proof fn lemma_power_decays(escrow: Escrow, locker: Locker, t1: i64, t2: i64)
    requires
        !escrow.is_max_lock,
        t1 <= t2,
    ensures
        voting_power_spec(escrow, locker, t1) is Some ==> voting_power_spec(escrow, locker, t2) is Some
            && voting_power_spec(escrow, locker, t1)->Some_0 >= voting_power_spec(escrow, locker, t2)->Some_0,
        t2 >= escrow.escrow_ends_at ==> voting_power_spec(escrow, locker, t2) == Some(0u64),
{
    let r1 = remaining_duration(escrow, locker, t1);
    let r2 = remaining_duration(escrow, locker, t2);
    let full = full_power(escrow, locker);
    let max = locker.params.max_stake_duration as int;
    assert(0 <= r2 <= r1);
    if r2 > 0 && voting_power_spec(escrow, locker, t1) is Some {
        assert(full >= 0) by (nonlinear_arith)
            requires
                full == escrow.amount * locker.params.max_stake_vote_multiplier,
        ;
        assert(full * r2 <= full * r1) by (nonlinear_arith)
            requires
                0 <= r2 <= r1,
                full >= 0,
        ;
        vstd::arithmetic::div_mod::lemma_div_is_ordered(full * r2, full * r1, max);
    }
}

/// Max lock: a max-locked escrow has the same voting power at every time,
/// `amount * multiplier`, wherever the decay window is not empty and that
/// product fits in a `u64`.
pub proof fn lemma_max_lock_power_constant(escrow: Escrow, locker: Locker, t: i64)
    requires
        escrow.is_max_lock,
        locker.params.max_stake_duration > 0,
        full_power(escrow, locker) <= u64::MAX,
    ensures
        voting_power_spec(escrow, locker, t) == Some(full_power(escrow, locker) as u64),
{
    let full = full_power(escrow, locker);
    let max = locker.params.max_stake_duration as int;
    assert(full >= 0) by (nonlinear_arith)
        requires
            full == escrow.amount * locker.params.max_stake_vote_multiplier,
    ;
    vstd::arithmetic::div_mod::lemma_div_by_multiple(full, max);
    if full == 0 {
        assert(full * max == 0);
    }
}

} // verus!
