use vstd::prelude::*;

use crate::error::{ContractError, ValidationKind};
use crate::funds::{
    check_seed, is_exact_seed, is_single_coin, is_transfer, single_deposit, spec_uosmo, uosmo,
    MessageInfo, Transfer,
};
use crate::msg::{Event, ExecuteMsg, InstantiateMsg, NextLockdropId, QueryMsg, QueryResponse, Response};
use crate::schedule::{payout_sum, released_ids, without, Lockdrop, TimeLockSchedule};

verus! {

/// The seed funds, in the settlement denomination, that instantiation requires.
pub const SEED_AMOUNT: u128 = 1000;

/// The smallest deposit accepted.
pub const MINIMUM_AMOUNT: u128 = 100;

/// How long a deposit stays locked: one day, in seconds.
pub const LOCK_TIME: u64 = 86400;

/// The payout of an unlocked deposit, in percent of the deposit.
pub const BONUS_PERCENT: u64 = 105;

/// Sets up an empty lockdrop. The caller must attach exactly one coin of the
/// settlement denomination, of `SEED_AMOUNT`; any other funds are refused.
pub fn instantiate(info: &MessageInfo, _msg: InstantiateMsg) -> (r: Result<
    TimeLockSchedule,
    ContractError,
>)
    ensures
        r is Ok <==> is_exact_seed(info.funds@, spec_uosmo(), SEED_AMOUNT),
        r is Err ==> r == Err::<TimeLockSchedule, ContractError>(
            ContractError::ValidationError(ValidationKind::Instantiation),
        ),
        r is Ok ==> {
            &&& r->Ok_0.wf()
            &&& r->Ok_0.entries() == Map::<u64, Lockdrop>::empty()
            &&& r->Ok_0.spec_next_id() == 0
            &&& r->Ok_0.spec_bonus_percent() == BONUS_PERCENT
        },
{
    let denom = uosmo();
    check_seed(&info.funds, &denom, SEED_AMOUNT)?;
    Ok(TimeLockSchedule::new(BONUS_PERCENT))
}

/// What a locking deposit owes: exactly one settlement coin of at least
/// `MINIMUM_AMOUNT`, locked for the sender until `now + LOCK_TIME` under the next
/// sequence number.
pub open spec fn lock_post(
    pre: TimeLockSchedule,
    post: TimeLockSchedule,
    now: u64,
    info: MessageInfo,
    r: Result<Response, ContractError>,
) -> bool {
    let n = pre.spec_next_id();
    if !is_single_coin(info.funds@, spec_uosmo()) {
        r == Err::<Response, ContractError>(ContractError::ValidationError(ValidationKind::Funds))
    } else if info.funds@[0].amount < MINIMUM_AMOUNT {
        r == Err::<Response, ContractError>(
            ContractError::ValidationError(ValidationKind::BelowMinimum),
        )
    } else if now + LOCK_TIME > u64::MAX || n + 1 > u64::MAX {
        r == Err::<Response, ContractError>(ContractError::ArithmeticOverflow)
    } else {
        &&& r == Ok::<Response, ContractError>(
            Response {
                transfer: None,
                event: Event::Locked {
                    sender: info.sender,
                    amount: info.funds@[0].amount,
                    next_id: (n + 1) as u64,
                },
            },
        )
        &&& post.entries() == pre.entries().insert(
            n as u64,
            Lockdrop {
                id: n as u64,
                owner: info.sender,
                amount: info.funds@[0].amount,
                unlock_time: (now + LOCK_TIME) as u64,
            },
        )
        &&& post.spec_next_id() == n + 1
    }
}

/// What a release owes: the sender's unlocked entries among `ids`, each paid once
/// with its bonus and removed, in one transfer to the sender.
pub open spec fn release_post(
    pre: TimeLockSchedule,
    post: TimeLockSchedule,
    now: u64,
    info: MessageInfo,
    ids: Seq<u64>,
    r: Result<Response, ContractError>,
) -> bool {
    let sel = released_ids(ids, pre.entries(), info.sender@, now);
    let total = payout_sum(sel, pre.entries(), pre.spec_bonus_percent());
    if sel.len() == 0 {
        r == Err::<Response, ContractError>(ContractError::NothingToRelease)
    } else if total > u128::MAX {
        r == Err::<Response, ContractError>(ContractError::ArithmeticOverflow)
    } else {
        &&& r is Ok
        &&& is_transfer(r->Ok_0.transfer, info.sender@, spec_uosmo(), total as u128)
        &&& r->Ok_0.event == (Event::Withdrawn {
            sender: info.sender,
            total_amount: total as u128,
        })
        &&& post.entries() == without(pre.entries(), sel)
    }
}

/// Routes `msg` to its handler; `now` is the block time in seconds.
pub fn execute(
    schedule: &mut TimeLockSchedule,
    now: u64,
    info: &MessageInfo,
    msg: ExecuteMsg,
) -> (r: Result<Response, ContractError>)
    requires
        old(schedule).wf(),
    ensures
        final(schedule).wf(),
        r is Err ==> *final(schedule) == *old(schedule),
        final(schedule).spec_bonus_percent() == old(schedule).spec_bonus_percent(),
        match msg {
            ExecuteMsg::Deposit => lock_post(*old(schedule), *final(schedule), now, *info, r),
            ExecuteMsg::Release { ids } => release_post(
                *old(schedule),
                *final(schedule),
                now,
                *info,
                ids@,
                r,
            ),
            _ => r == Err::<Response, ContractError>(ContractError::UnknownMessage),
        },
{
    match msg {
        ExecuteMsg::Deposit => try_deposit(schedule, now, info),
        ExecuteMsg::Release { ids } => try_withdraw(schedule, now, info, ids),
        _ => Err(ContractError::UnknownMessage),
    }
}

/// Locks the single settlement coin attached to the call for the sender.
pub fn try_deposit(schedule: &mut TimeLockSchedule, now: u64, info: &MessageInfo) -> (r: Result<
    Response,
    ContractError,
>)
    requires
        old(schedule).wf(),
    ensures
        final(schedule).wf(),
        r is Err ==> *final(schedule) == *old(schedule),
        final(schedule).spec_bonus_percent() == old(schedule).spec_bonus_percent(),
        lock_post(*old(schedule), *final(schedule), now, *info, r),
{
    let denom = uosmo();
    let amount = single_deposit(&info.funds, &denom)?;
    if amount < MINIMUM_AMOUNT {
        return Err(ContractError::ValidationError(ValidationKind::BelowMinimum));
    }
    let next_id = schedule.lock(&info.sender, amount, now, LOCK_TIME)?;
    Ok(
        Response {
            transfer: None,
            event: Event::Locked { sender: info.sender.clone(), amount, next_id },
        },
    )
}

/// Releases the sender's unlocked deposits among `ids` and pays them out.
pub fn try_withdraw(
    schedule: &mut TimeLockSchedule,
    now: u64,
    info: &MessageInfo,
    ids: Vec<u64>,
) -> (r: Result<Response, ContractError>)
    requires
        old(schedule).wf(),
    ensures
        final(schedule).wf(),
        r is Err ==> *final(schedule) == *old(schedule),
        final(schedule).spec_bonus_percent() == old(schedule).spec_bonus_percent(),
        release_post(*old(schedule), *final(schedule), now, *info, ids@, r),
{
    let total = schedule.release(&ids, &info.sender, now)?;
    let transfer = Transfer { to: info.sender.clone(), denom: uosmo(), amount: total };
    Ok(
        Response {
            transfer: Some(transfer),
            event: Event::Withdrawn { sender: info.sender.clone(), total_amount: total },
        },
    )
}

/// Answers the next identifier and single deposits; `NotFound` for an identifier
/// with no deposit, released ones included.
pub fn query(schedule: &TimeLockSchedule, msg: &QueryMsg) -> (r: Result<
    QueryResponse,
    ContractError,
>)
    requires
        schedule.wf(),
    ensures
        match msg {
            QueryMsg::GetNextId => r == Ok::<QueryResponse, ContractError>(
                QueryResponse::NextLockdropId(
                    NextLockdropId { next_id: schedule.spec_next_id() as u64 },
                ),
            ),
            QueryMsg::GetEntryInfo { id } => if schedule.entries().contains_key(*id) {
                r == Ok::<QueryResponse, ContractError>(
                    QueryResponse::Lockdrop(schedule.entries()[*id]),
                )
            } else {
                r == Err::<QueryResponse, ContractError>(ContractError::NotFound)
            },
            _ => r == Err::<QueryResponse, ContractError>(ContractError::UnknownMessage),
        },
{
    match msg {
        QueryMsg::GetNextId => Ok(
            QueryResponse::NextLockdropId(NextLockdropId { next_id: schedule.next_id() }),
        ),
        QueryMsg::GetEntryInfo { id } => match schedule.info(*id) {
            Some(d) => Ok(QueryResponse::Lockdrop(d)),
            None => Err(ContractError::NotFound),
        },
        _ => Err(ContractError::UnknownMessage),
    }
}

} // verus!
