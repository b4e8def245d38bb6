use vstd::prelude::*;

use crate::error::ContractError;
use crate::funds::{
    check_seed, is_exact_seed, is_single_coin, is_transfer, single_deposit, spec_uusd, uusd,
    MessageInfo, Transfer,
};
use crate::ledger::{balance_in, op_succeeds, AccountLedger, LedgerOp};
use crate::msg::{
    BalanceResponse, Event, ExecuteMsg, InstantiateMsg, QueryMsg, QueryResponse, ReceiveMsg,
    ReceiveNotification, Response,
};
use crate::oracle::{conversion_result, convert, ExchangeRate};

verus! {

/// The seed funds, in the settlement denomination, that instantiation requires.
pub const SEED_AMOUNT: u128 = 1000;

/// A balance vault: deposits of the native settlement asset, and optionally of an
/// external asset converted at the oracle's rate, credited per address and
/// withdrawn on request.
pub struct Vault {
    ledger: AccountLedger,
    issuer: Option<String>,
}

impl Vault {
    pub closed spec fn wf(&self) -> bool {
        self.ledger.wf()
    }

    /// The balances by address.
    pub closed spec fn balances(&self) -> Map<Seq<char>, u128> {
        self.ledger@
    }

    /// The external asset's contract, if the vault accepts one.
    pub closed spec fn spec_issuer(&self) -> Option<String> {
        self.issuer
    }

    /// Rebuilds a vault from its parts, as it was persisted.
    pub fn from_parts(ledger: AccountLedger, issuer: Option<String>) -> (v: Vault)
        requires
            ledger.wf(),
        ensures
            v.wf(),
            v.balances() == ledger@,
            v.spec_issuer() == issuer,
    {
        Vault { ledger, issuer }
    }

    pub fn ledger(&self) -> (l: &AccountLedger)
        requires
            self.wf(),
        ensures
            l.wf(),
            l@ == self.balances(),
    {
        &self.ledger
    }

    pub fn issuer(&self) -> (i: &Option<String>)
        ensures
            *i == self.spec_issuer(),
    {
        &self.issuer
    }
}

/// Sets up a vault with no balances. The caller must attach exactly one coin of
/// the settlement denomination, of `SEED_AMOUNT`; any other funds are refused.
pub fn instantiate(info: &MessageInfo, msg: InstantiateMsg) -> (r: Result<Vault, ContractError>)
    ensures
        r is Ok <==> is_exact_seed(info.funds@, spec_uusd(), SEED_AMOUNT),
        r is Err ==> r == Err::<Vault, ContractError>(
            ContractError::ValidationError(crate::error::ValidationKind::Instantiation),
        ),
        r is Ok ==> {
            &&& r->Ok_0.wf()
            &&& r->Ok_0.balances() == Map::<Seq<char>, u128>::empty()
            &&& r->Ok_0.spec_issuer() == msg.issuer
        },
{
    let denom = uusd();
    check_seed(&info.funds, &denom, SEED_AMOUNT)?;
    Ok(Vault { ledger: AccountLedger::new(), issuer: msg.issuer })
}

/// Routes `msg` to its handler. `rate` is the oracle's answer for a `Receive`,
/// `None` where the query failed; other messages ignore it.
pub fn execute(
    vault: &mut Vault,
    info: &MessageInfo,
    msg: ExecuteMsg,
    rate: Option<ExchangeRate>,
) -> (r: Result<Response, ContractError>)
    requires
        old(vault).wf(),
    ensures
        final(vault).wf(),
        r is Err ==> *final(vault) == *old(vault),
        final(vault).spec_issuer() == old(vault).spec_issuer(),
        match msg {
            ExecuteMsg::Deposit => deposit_post(*old(vault), *final(vault), *info, r),
            ExecuteMsg::Withdraw { amount } => withdraw_post(
                *old(vault),
                *final(vault),
                *info,
                amount,
                r,
            ),
            ExecuteMsg::Receive(n) => receive_post(*old(vault), *final(vault), *info, n, rate, r),
            _ => r == Err::<Response, ContractError>(ContractError::UnknownMessage),
        },
{
    match msg {
        ExecuteMsg::Deposit => try_deposit(vault, info),
        ExecuteMsg::Withdraw { amount } => try_withdraw(vault, info, amount),
        ExecuteMsg::Receive(n) => handle_receive(vault, info, n, rate),
        _ => Err(ContractError::UnknownMessage),
    }
}

/// What a deposit owes: exactly one coin of the settlement denomination,
/// credited to the sender with checked addition.
pub open spec fn deposit_post(
    pre: Vault,
    post: Vault,
    info: MessageInfo,
    r: Result<Response, ContractError>,
) -> bool {
    let b = balance_in(pre.balances(), info.sender@);
    if !is_single_coin(info.funds@, spec_uusd()) {
        r == Err::<Response, ContractError>(
            ContractError::ValidationError(crate::error::ValidationKind::Funds),
        )
    } else if !op_succeeds(b as int, LedgerOp::Credit(info.funds@[0].amount)) {
        r == Err::<Response, ContractError>(ContractError::ArithmeticOverflow)
    } else {
        &&& r == Ok::<Response, ContractError>(
            Response {
                transfer: None,
                event: Event::Deposited { sender: info.sender, amount: info.funds@[0].amount },
            },
        )
        &&& post.balances() == pre.balances().insert(
            info.sender@,
            (b + info.funds@[0].amount) as u128,
        )
    }
}

/// What a withdrawal owes: the sender's balance debited by `amount` with checked
/// subtraction, and one transfer of `amount` to the sender.
pub open spec fn withdraw_post(
    pre: Vault,
    post: Vault,
    info: MessageInfo,
    amount: u128,
    r: Result<Response, ContractError>,
) -> bool {
    let b = balance_in(pre.balances(), info.sender@);
    if !op_succeeds(b as int, LedgerOp::Debit(amount)) {
        r == Err::<Response, ContractError>(ContractError::InsufficientBalance)
    } else {
        &&& r is Ok
        &&& is_transfer(r->Ok_0.transfer, info.sender@, spec_uusd(), amount)
        &&& r->Ok_0.event == (Event::Withdrawn { sender: info.sender, total_amount: amount })
        &&& post.balances() == pre.balances().insert(info.sender@, (b - amount) as u128)
    }
}

/// What an incoming external transfer owes: the caller must be the configured
/// issuer, the amount is converted at the oracle's rate, and the result is
/// credited to the reported sender.
pub open spec fn receive_post(
    pre: Vault,
    post: Vault,
    info: MessageInfo,
    n: ReceiveNotification,
    rate: Option<ExchangeRate>,
    r: Result<Response, ContractError>,
) -> bool {
    let b = balance_in(pre.balances(), n.sender@);
    let c = conversion_result(n.amount, rate);
    if pre.spec_issuer() is None {
        r == Err::<Response, ContractError>(ContractError::UnknownMessage)
    } else if info.sender@ != pre.spec_issuer()->Some_0@ {
        r == Err::<Response, ContractError>(ContractError::Unauthorized)
    } else if c is Err {
        r == Err::<Response, ContractError>(c->Err_0)
    } else if !op_succeeds(b as int, LedgerOp::Credit(c->Ok_0)) {
        r == Err::<Response, ContractError>(ContractError::ArithmeticOverflow)
    } else {
        &&& r == Ok::<Response, ContractError>(
            Response {
                transfer: None,
                event: Event::Converted {
                    sender: n.sender,
                    sent_amount: n.amount,
                    exchange_rate: rate->Some_0,
                    total_amount: c->Ok_0,
                },
            },
        )
        &&& post.balances() == pre.balances().insert(n.sender@, (b + c->Ok_0) as u128)
    }
}

/// Credits the single settlement coin attached to the call to the sender.
pub fn try_deposit(vault: &mut Vault, info: &MessageInfo) -> (r: Result<Response, ContractError>)
    requires
        old(vault).wf(),
    ensures
        final(vault).wf(),
        r is Err ==> *final(vault) == *old(vault),
        final(vault).spec_issuer() == old(vault).spec_issuer(),
        deposit_post(*old(vault), *final(vault), *info, r),
{
    let denom = uusd();
    let amount = single_deposit(&info.funds, &denom)?;
    vault.ledger.credit(&info.sender, amount)?;
    Ok(Response { transfer: None, event: Event::Deposited { sender: info.sender.clone(), amount } })
}

/// Debits `amount` from the sender and sends it to them.
pub fn try_withdraw(vault: &mut Vault, info: &MessageInfo, amount: u128) -> (r: Result<
    Response,
    ContractError,
>)
    requires
        old(vault).wf(),
    ensures
        final(vault).wf(),
        r is Err ==> *final(vault) == *old(vault),
        final(vault).spec_issuer() == old(vault).spec_issuer(),
        withdraw_post(*old(vault), *final(vault), *info, amount, r),
{
    vault.ledger.debit(&info.sender, amount)?;
    let transfer = Transfer { to: info.sender.clone(), denom: uusd(), amount };
    Ok(
        Response {
            transfer: Some(transfer),
            event: Event::Withdrawn { sender: info.sender.clone(), total_amount: amount },
        },
    )
}

/// Credits an incoming transfer of the external asset, converted at `rate`. The
/// caller, as the host authenticated it, must be the configured issuer: the
/// notification's own sender field is not trusted for that.
pub fn handle_receive(
    vault: &mut Vault,
    info: &MessageInfo,
    notification: ReceiveNotification,
    rate: Option<ExchangeRate>,
) -> (r: Result<Response, ContractError>)
    requires
        old(vault).wf(),
    ensures
        final(vault).wf(),
        r is Err ==> *final(vault) == *old(vault),
        final(vault).spec_issuer() == old(vault).spec_issuer(),
        receive_post(*old(vault), *final(vault), *info, notification, rate, r),
{
    match &vault.issuer {
        None => return Err(ContractError::UnknownMessage),
        Some(issuer) => {
            if info.sender != *issuer {
                return Err(ContractError::Unauthorized);
            }
        },
    }
    match notification.msg {
        ReceiveMsg::Deposit => {
            let total = convert(notification.amount, rate)?;
            let exchange_rate = match rate {
                Some(q) => q,
                None => return Err(ContractError::RateUnavailable),
            };
            vault.ledger.credit(&notification.sender, total)?;
            Ok(
                Response {
                    transfer: None,
                    event: Event::Converted {
                        sender: notification.sender,
                        sent_amount: notification.amount,
                        exchange_rate,
                        total_amount: total,
                    },
                },
            )
        },
    }
}

/// Answers a balance query: zero for an address never credited. Other queries
/// are not served by a vault.
pub fn query(vault: &Vault, msg: &QueryMsg) -> (r: Result<QueryResponse, ContractError>)
    requires
        vault.wf(),
    ensures
        match msg {
            QueryMsg::GetBalance { address } => {
                &&& r is Ok
                &&& r->Ok_0 is Balance
                &&& r->Ok_0->Balance_0.denom@ == spec_uusd()
                &&& r->Ok_0->Balance_0.amount == balance_in(vault.balances(), address@)
            },
            _ => r == Err::<QueryResponse, ContractError>(ContractError::UnknownMessage),
        },
{
    match msg {
        QueryMsg::GetBalance { address } => Ok(
            QueryResponse::Balance(
                BalanceResponse { denom: uusd(), amount: vault.ledger.balance_of(address) },
            ),
        ),
        _ => Err(ContractError::UnknownMessage),
    }
}

} // verus!
