use vstd::prelude::*;

use crate::error::{ContractError, ValidationKind};
use crate::funds::{is_single_coin, is_transfer, single_deposit, spec_uusd, uusd, MessageInfo, Transfer};
use crate::msg::{
    AllDonations, Event, ExecuteMsg, InstantiateMsg, NextDonationId, QueryMsg, QueryResponse,
    Response,
};
use crate::pool::{amount_sum, sweep_outcome, Contribution, Donation, DonationPool, DEFAULT_PAGE};

verus! {

/// Sets up an empty donation pool administered by the caller.
pub fn instantiate(info: &MessageInfo, _msg: InstantiateMsg) -> (p: DonationPool)
    ensures
        p.wf(),
        p.entries() == Map::<u64, Contribution>::empty(),
        p.spec_next_id() == 0,
        p.swept_below() == 0,
        p.spec_admin() == info.sender@,
{
    DonationPool::new(info.sender.clone())
}

/// What a donation owes: exactly one settlement coin, of any amount, appended to
/// the log under the next sequence number.
pub open spec fn donate_post(
    pre: DonationPool,
    post: DonationPool,
    info: MessageInfo,
    r: Result<Response, ContractError>,
) -> bool {
    let n = pre.spec_next_id();
    if !is_single_coin(info.funds@, spec_uusd()) {
        r == Err::<Response, ContractError>(ContractError::ValidationError(ValidationKind::Funds))
    } else if n + 1 > u64::MAX || amount_sum(pre.entries(), pre.swept_below(), n)
        + info.funds@[0].amount > u128::MAX {
        r == Err::<Response, ContractError>(ContractError::ArithmeticOverflow)
    } else {
        &&& r == Ok::<Response, ContractError>(
            Response {
                transfer: None,
                event: Event::Donated {
                    sender: info.sender,
                    amount: info.funds@[0].amount,
                    next_id: (n + 1) as u64,
                },
            },
        )
        &&& post.entries() == pre.entries().insert(
            n as u64,
            Contribution { donator: info.sender, amount: info.funds@[0].amount },
        )
        &&& post.spec_next_id() == n + 1
        &&& post.swept_below() == pre.swept_below()
    }
}

/// What a sweep owes: from the administrator only, every donation not yet
/// withdrawn paid in one transfer to them and marked withdrawn.
pub open spec fn sweep_post(
    pre: DonationPool,
    post: DonationPool,
    info: MessageInfo,
    r: Result<Response, ContractError>,
) -> bool {
    let outcome = sweep_outcome(
        pre.entries(),
        pre.swept_below(),
        pre.spec_next_id(),
        pre.spec_admin(),
        info.sender@,
    );
    if outcome is Err {
        r == Err::<Response, ContractError>(outcome->Err_0)
    } else {
        &&& r is Ok
        &&& is_transfer(r->Ok_0.transfer, info.sender@, spec_uusd(), outcome->Ok_0)
        &&& r->Ok_0.event == (Event::Withdrawn {
            sender: info.sender,
            total_amount: outcome->Ok_0,
        })
        &&& post.entries() == pre.entries()
        &&& post.spec_next_id() == pre.spec_next_id()
        &&& post.swept_below() == pre.spec_next_id()
    }
}

/// Routes `msg` to its handler.
pub fn execute(pool: &mut DonationPool, info: &MessageInfo, msg: ExecuteMsg) -> (r: Result<
    Response,
    ContractError,
>)
    requires
        old(pool).wf(),
    ensures
        final(pool).wf(),
        r is Err ==> *final(pool) == *old(pool),
        final(pool).spec_admin() == old(pool).spec_admin(),
        match msg {
            ExecuteMsg::Deposit => donate_post(*old(pool), *final(pool), *info, r),
            ExecuteMsg::Sweep => sweep_post(*old(pool), *final(pool), *info, r),
            _ => r == Err::<Response, ContractError>(ContractError::UnknownMessage),
        },
{
    match msg {
        ExecuteMsg::Deposit => try_deposit(pool, info),
        ExecuteMsg::Sweep => try_withdraw(pool, info),
        _ => Err(ContractError::UnknownMessage),
    }
}

/// Records the single settlement coin attached to the call as a donation.
pub fn try_deposit(pool: &mut DonationPool, info: &MessageInfo) -> (r: Result<
    Response,
    ContractError,
>)
    requires
        old(pool).wf(),
    ensures
        final(pool).wf(),
        r is Err ==> *final(pool) == *old(pool),
        final(pool).spec_admin() == old(pool).spec_admin(),
        donate_post(*old(pool), *final(pool), *info, r),
{
    let denom = uusd();
    let amount = single_deposit(&info.funds, &denom)?;
    let next_id = pool.contribute(&info.sender, amount)?;
    Ok(
        Response {
            transfer: None,
            event: Event::Donated { sender: info.sender.clone(), amount, next_id },
        },
    )
}

/// Sweeps the pool for the administrator.
pub fn try_withdraw(pool: &mut DonationPool, info: &MessageInfo) -> (r: Result<
    Response,
    ContractError,
>)
    requires
        old(pool).wf(),
    ensures
        final(pool).wf(),
        r is Err ==> *final(pool) == *old(pool),
        final(pool).spec_admin() == old(pool).spec_admin(),
        sweep_post(*old(pool), *final(pool), *info, r),
{
    let total = pool.sweep(&info.sender)?;
    let transfer = Transfer { to: info.sender.clone(), denom: uusd(), amount: total };
    Ok(
        Response {
            transfer: Some(transfer),
            event: Event::Withdrawn { sender: info.sender.clone(), total_amount: total },
        },
    )
}

/// The first identifier of a listing that starts after `start_after`, `None`
/// where nothing can follow it.
pub open spec fn page_start(start_after: Option<u64>) -> Option<u64> {
    match start_after {
        None => Some(0),
        Some(s) => if s == u64::MAX {
            None
        } else {
            Some((s + 1) as u64)
        },
    }
}

/// Answers the next identifier, single donations with their withdrawn flag, and
/// pages of donations in ascending order; `NotFound` for an identifier never
/// handed out.
pub fn query(pool: &DonationPool, msg: &QueryMsg) -> (r: Result<QueryResponse, ContractError>)
    requires
        pool.wf(),
    ensures
        match msg {
            QueryMsg::GetNextId => r == Ok::<QueryResponse, ContractError>(
                QueryResponse::NextDonationId(NextDonationId { next_id: pool.spec_next_id() as u64 }),
            ),
            QueryMsg::GetEntryInfo { id } => if pool.entries().contains_key(*id) {
                r == Ok::<QueryResponse, ContractError>(
                    QueryResponse::Donation(
                        Donation {
                            id: *id,
                            donator: pool.entries()[*id].donator,
                            amount: pool.entries()[*id].amount,
                            withdrawn: (*id as nat) < pool.swept_below(),
                        },
                    ),
                )
            } else {
                r == Err::<QueryResponse, ContractError>(ContractError::NotFound)
            },
            QueryMsg::GetAllEntries { start_after, limit } => {
                &&& r is Ok
                &&& r->Ok_0 is AllDonations
                &&& page_start(*start_after) is None ==> r->Ok_0->AllDonations_0.donations@.len()
                    == 0
                &&& page_start(*start_after) is Some ==> {
                    let start = page_start(*start_after)->Some_0;
                    let lim = match *limit {
                        Some(l) => l,
                        None => DEFAULT_PAGE,
                    };
                    let page = r->Ok_0->AllDonations_0.donations@;
                    &&& page.len() == (if start as nat >= pool.spec_next_id() {
                        0
                    } else {
                        vstd::math::min(
                            vstd::math::min(lim as int, crate::pool::MAX_PAGE as int),
                            pool.spec_next_id() - start,
                        )
                    })
                    &&& forall|i: int|
                        0 <= i < page.len() ==> #[trigger] page[i] == (Donation {
                            id: (start + i) as u64,
                            donator: pool.entries()[(start + i) as u64].donator,
                            amount: pool.entries()[(start + i) as u64].amount,
                            withdrawn: start + i < pool.swept_below(),
                        })
                }
            },
            _ => r == Err::<QueryResponse, ContractError>(ContractError::UnknownMessage),
        },
{
    match msg {
        QueryMsg::GetNextId => Ok(
            QueryResponse::NextDonationId(NextDonationId { next_id: pool.next_id() }),
        ),
        QueryMsg::GetEntryInfo { id } => match pool.info(*id) {
            Some(d) => Ok(QueryResponse::Donation(d)),
            None => Err(ContractError::NotFound),
        },
        QueryMsg::GetAllEntries { start_after, limit } => {
            let start = match start_after {
                None => 0,
                Some(s) => {
                    if *s == u64::MAX {
                        return Ok(
                            QueryResponse::AllDonations(AllDonations { donations: Vec::new() }),
                        );
                    }
                    *s + 1
                },
            };
            let lim = match limit {
                Some(l) => *l,
                None => DEFAULT_PAGE,
            };
            Ok(QueryResponse::AllDonations(AllDonations { donations: pool.page(start, lim) }))
        },
        _ => Err(ContractError::UnknownMessage),
    }
}

} // verus!
