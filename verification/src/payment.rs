//! Validation of the funds attached to a burn.
//!
//! A burn consumes the coins attached to the call, so the controller accepts
//! exactly one attached coin, of the managed denomination, with a strictly
//! positive amount. The check itself is delegated to the payment-validation
//! contract of `cw_utils`, whose outcome is pinned down by
//! [`spec_payment`].

use vstd::prelude::*;

use crate::error::PaymentIssue;

verus! {

/// One attached coin: a denomination and an amount.
#[derive(Debug, Clone, PartialEq)]
pub struct CoinVal {
    pub denom: String,
    pub amount: u128,
}

/// The mathematical value of a [`CoinVal`].
#[verifier::ext_equal]
pub struct CoinView {
    pub denom: Seq<char>,
    pub amount: u128,
}

impl View for CoinVal {
    type V = CoinView;

    open spec fn view(&self) -> CoinView {
        CoinView { denom: self.denom@, amount: self.amount }
    }
}

impl CoinVal {
    /// Builds a coin from its denomination and amount.
    pub fn new(denom: String, amount: u128) -> (c: CoinVal)
        ensures
            c@ == (CoinView { denom: denom@, amount }),
    {
        CoinVal { denom, amount }
    }
}

/// The values of a list of attached coins.
pub open spec fn coins_view(funds: Seq<CoinVal>) -> Seq<CoinView> {
    funds.map_values(|c: CoinVal| c@)
}

/// What payment validation yields on given funds: the attached amount when
/// exactly one coin of the managed denomination with a positive amount is
/// attached, and the reason for rejection otherwise.
pub open spec fn spec_payment(funds: Seq<CoinView>, denom: Seq<char>) -> Result<u128, PaymentIssue> {
    if funds.len() == 0 {
        Err(PaymentIssue::NoFunds)
    } else if funds.len() > 1 {
        Err(PaymentIssue::MultipleDenoms)
    } else if funds[0].amount == 0 {
        Err(PaymentIssue::NoFunds)
    } else if funds[0].denom != denom {
        Err(PaymentIssue::WrongDenom)
    } else {
        Ok(funds[0].amount)
    }
}

/// Relies on `cw_utils::must_pay` (with `cw_utils::one_coin`): it returns the
/// amount of the single attached coin when that coin has the requested
/// denomination and a positive amount, `NoFunds` when no coin or a zero
/// amount is attached, `MultipleDenoms` when more than one coin is attached,
/// and `MissingDenom` when the single coin has another denomination.
#[verifier::external_body]
pub(crate) fn must_pay(funds: &Vec<CoinVal>, denom: &str) -> (r: Result<u128, PaymentIssue>)
    ensures
        r == spec_payment(coins_view(funds@), denom@),
{
    let info = cosmwasm_std::MessageInfo {
        sender: cosmwasm_std::Addr::unchecked(""),
        funds: funds
            .iter()
            .map(|c| cosmwasm_std::Coin { denom: c.denom.clone(), amount: cosmwasm_std::Uint128::new(c.amount) })
            .collect(),
    };
    match cw_utils::must_pay(&info, denom) {
        Ok(amount) => Ok(amount.u128()),
        Err(cw_utils::PaymentError::NoFunds {}) => Err(PaymentIssue::NoFunds),
        Err(cw_utils::PaymentError::MissingDenom(_)) => Err(PaymentIssue::WrongDenom),
        Err(_) => Err(PaymentIssue::MultipleDenoms),
    }
}

} // verus!
