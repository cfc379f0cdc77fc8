//! The funds attached to a bond.
use vstd::prelude::*;
use crate::msg::Coin;

verus! {

/// Relies on cw_utils::one_coin: it hands back the one attached coin when
/// exactly one is attached and its amount is not zero, and fails otherwise
/// (no funds, a zero amount, or more than one denomination).
#[verifier::external_body]
pub(crate) fn one_coin(funds: &Vec<Coin>) -> (r: Result<Coin, String>)
    ensures
        r is Ok <==> (funds@.len() == 1 && funds@[0].amount != 0),
        r is Ok ==> r->Ok_0.denom@ == funds@[0].denom@ && r->Ok_0.amount == funds@[0].amount,
{
    let info = cosmwasm_std::MessageInfo {
        sender: cosmwasm_std::Addr::unchecked(""),
        funds: funds.iter().map(|c| cosmwasm_std::Coin::new(c.amount, c.denom.clone())).collect(),
    };
    match cw_utils::one_coin(&info) {
        Ok(c) => Ok(Coin { denom: c.denom, amount: c.amount.u128() }),
        Err(e) => Err(e.to_string()),
    }
}

} // verus!
