use vstd::prelude::*;

use crate::error::{ContractError, ValidationKind};

verus! {

/// An amount of one denomination of the native asset.
pub struct Coin {
    pub denom: String,
    pub amount: u128,
}

/// Who calls, as the host authenticated them, and the funds attached to the call.
pub struct MessageInfo {
    pub sender: String,
    pub funds: Vec<Coin>,
}

/// An instruction to the host to send `amount` of `denom` to `to`, carried out
/// after the state change of the invocation is committed.
pub struct Transfer {
    pub to: String,
    pub denom: String,
    pub amount: u128,
}

pub open spec fn spec_uusd() -> Seq<char> {
    seq!['u', 'u', 's', 'd']
}

pub open spec fn spec_uosmo() -> Seq<char> {
    seq!['u', 'o', 's', 'm', 'o']
}

/// The settlement denomination of the balance vault and the donation pool.
pub fn uusd() -> (s: String)
    ensures
        s@ == spec_uusd(),
{
    proof {
        reveal_strlit("uusd");
    }
    "uusd".to_owned()
}

/// The settlement denomination of the lockdrop.
pub fn uosmo() -> (s: String)
    ensures
        s@ == spec_uosmo(),
{
    proof {
        reveal_strlit("uosmo");
    }
    "uosmo".to_owned()
}

/// The funds are exactly one coin, of `denom`.
pub open spec fn is_single_coin(funds: Seq<Coin>, denom: Seq<char>) -> bool {
    funds.len() == 1 && funds[0].denom@ == denom
}

/// The funds are exactly one coin, of `denom` and of `amount`.
pub open spec fn is_exact_seed(funds: Seq<Coin>, denom: Seq<char>, amount: u128) -> bool {
    is_single_coin(funds, denom) && funds[0].amount == amount
}

/// Accepts seed funds only when they are exactly one coin of `denom` and `amount`.
pub fn check_seed(funds: &Vec<Coin>, denom: &String, amount: u128) -> (r: Result<
    (),
    ContractError,
>)
    ensures
        r is Ok <==> is_exact_seed(funds@, denom@, amount),
        r is Err ==> r == Err::<(), ContractError>(
            ContractError::ValidationError(ValidationKind::Instantiation),
        ),
{
    if funds.len() != 1 || funds[0].denom != *denom || funds[0].amount != amount {
        return Err(ContractError::ValidationError(ValidationKind::Instantiation));
    }
    Ok(())
}

/// The amount of a deposit, which must be exactly one coin of `denom`.
pub fn single_deposit(funds: &Vec<Coin>, denom: &String) -> (r: Result<u128, ContractError>)
    ensures
        is_single_coin(funds@, denom@) ==> r == Ok::<u128, ContractError>(funds@[0].amount),
        !is_single_coin(funds@, denom@) ==> r == Err::<u128, ContractError>(
            ContractError::ValidationError(ValidationKind::Funds),
        ),
{
    if funds.len() != 1 || funds[0].denom != *denom {
        return Err(ContractError::ValidationError(ValidationKind::Funds));
    }
    Ok(funds[0].amount)
}

/// `t` is one transfer of `amount` of `denom` to `to`.
pub open spec fn is_transfer(t: Option<Transfer>, to: Seq<char>, denom: Seq<char>, amount: u128) -> bool {
    &&& t is Some
    &&& t->Some_0.to@ == to
    &&& t->Some_0.denom@ == denom
    &&& t->Some_0.amount == amount
}

} // verus!
