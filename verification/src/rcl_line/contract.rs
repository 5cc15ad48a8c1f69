//! Borrowing against a trust score, and repaying.

use vstd::prelude::*;
use crate::host::attr;
use crate::host::AttributeView;
use crate::host::Coin;
use crate::host::CoinView;
use crate::host::Env;
use crate::host::MessageInfo;
use crate::host::MessageInfoView;
use crate::host::Response;
use crate::host::ResponseView;
use crate::host::StdError;
use crate::host::StdErrorView;
use crate::bond_series::math::decimal;
use crate::bond_series::math::overflow;
use crate::bond_series::math::overflow_error;
use crate::bond_series::math::to_string_u128;
use crate::rcl_line::msg::ExecuteMsg;
use crate::rcl_line::msg::GetUserResponse;
use crate::rcl_line::msg::InstantiateMsg;
use crate::rcl_line::msg::QueryMsg;
use crate::rcl_line::state::user_at;
use crate::rcl_line::state::with_user;
use crate::rcl_line::state::BorrowerView;
use crate::rcl_line::state::CreditLine;
use crate::rcl_line::state::RclUser;

verus! {

/// The trust score that a user starts with.
pub const INITIAL_TRUST_SCORE: u8 = 80;

/// The least trust score that may borrow.
pub const MIN_TRUST_SCORE: u8 = 60;

/// How a call ends: the users after it and the response, or the failure.
pub type Outcome = Result<(Seq<BorrowerView>, ResponseView), StdErrorView>;

/// Whether a call returned `expected`, leaving the credit line as
/// `expected` says, or untouched where it failed.
pub open spec fn ends_as(
    r: Result<Response, StdError>,
    before: Seq<BorrowerView>,
    after: Seq<BorrowerView>,
    expected: Outcome,
) -> bool {
    match expected {
        Ok((next, response)) => r is Ok && r->Ok_0@ == response && after == next,
        Err(e) => r is Err && r->Err_0@ == e && after == before,
    }
}

/// A response of two attributes.
pub open spec fn noted(first: AttributeView, second: AttributeView) -> ResponseView {
    ResponseView { messages: Seq::empty(), attributes: seq![first, second] }
}

fn report(name: &str, key: &str, value: String) -> (r: Response)
    ensures
        r@ == noted(attr("action"@, name@), attr(key@, value@)),
{
    let mut r = Response::new();
    r.add_attribute("action", String::from_str(name));
    r.add_attribute(key, value);
    assert(r@.attributes == seq![attr("action"@, name@), attr(key@, value@)]);
    r
}

/// Creates the credit line.
pub fn instantiate(_env: &Env, info: &MessageInfo, _msg: InstantiateMsg) -> (r: (
    CreditLine,
    Response,
))
    ensures
        r.0.wf(),
        r.0@ == Seq::<BorrowerView>::empty(),
        r.1@ == (ResponseView {
            messages: Seq::empty(),
            attributes: seq![attr("creator"@, info@.sender)],
        }),
{
    let mut response = Response::new();
    response.add_attribute("creator", info.sender.clone());
    assert(response@.attributes == seq![attr("creator"@, info@.sender)]);
    (CreditLine::new(), response)
}

/// What `try_borrow` does: a user whose trust score is at least
/// `MIN_TRUST_SCORE` adds `amount` to its debt. A user without a record
/// starts with `INITIAL_TRUST_SCORE` and no debt.
pub open spec fn borrow_spec(users: Seq<BorrowerView>, info: MessageInfoView, amount: CoinView) -> Outcome {
    let user = match user_at(users, info.sender) {
        Some(u) => u,
        None => RclUser { trust_score: INITIAL_TRUST_SCORE, debt: 0 },
    };
    if user.trust_score < MIN_TRUST_SCORE {
        Err(StdErrorView::GenericErr { msg: "Low trust score"@ })
    } else if user.debt + amount.amount > u128::MAX {
        Err(overflow_error())
    } else {
        Ok(
            (
                with_user(
                    users,
                    info.sender,
                    RclUser { debt: (user.debt + amount.amount) as u128, ..user },
                ),
                noted(attr("action"@, "borrow"@), attr("amount"@, decimal(amount.amount as nat))),
            ),
        )
    }
}

/// Adds to the caller's debt.
pub fn try_borrow(line: &mut CreditLine, _env: &Env, info: &MessageInfo, amount: Coin) -> (r:
    Result<Response, StdError>)
    requires
        old(line).wf(),
    ensures
        final(line).wf(),
        ends_as(r, old(line)@, final(line)@, borrow_spec(old(line)@, info@, amount@)),
{
    let user = match line.load(&info.sender) {
        Some(u) => u,
        None => RclUser { trust_score: INITIAL_TRUST_SCORE, debt: 0 },
    };
    if user.trust_score < MIN_TRUST_SCORE {
        return Err(StdError::generic_err("Low trust score"));
    }
    let debt = match user.debt.checked_add(amount.amount) {
        Some(d) => d,
        None => {
            return Err(overflow());
        },
    };
    line.save(&info.sender, RclUser { trust_score: user.trust_score, debt });
    Ok(report("borrow", "amount", to_string_u128(amount.amount)))
}

/// What is left of a debt after `amount` was repaid.
pub open spec fn remaining_debt(debt: u128, amount: u128) -> u128 {
    if amount >= debt {
        0
    } else {
        (debt - amount) as u128
    }
}

/// What `try_repay` does: a user with a record lowers its debt by
/// `amount`, and not below zero.
pub open spec fn repay_spec(users: Seq<BorrowerView>, info: MessageInfoView, amount: CoinView) -> Outcome {
    match user_at(users, info.sender) {
        None => Err(StdErrorView::GenericErr { msg: "No debt record"@ }),
        Some(user) => Ok(
            (
                with_user(
                    users,
                    info.sender,
                    RclUser { debt: remaining_debt(user.debt, amount.amount), ..user },
                ),
                noted(
                    attr("action"@, "repay"@),
                    attr(
                        "remaining_debt"@,
                        decimal(remaining_debt(user.debt, amount.amount) as nat),
                    ),
                ),
            ),
        ),
    }
}

/// Lowers the caller's debt.
pub fn try_repay(line: &mut CreditLine, _env: &Env, info: &MessageInfo, amount: Coin) -> (r:
    Result<Response, StdError>)
    requires
        old(line).wf(),
    ensures
        final(line).wf(),
        ends_as(r, old(line)@, final(line)@, repay_spec(old(line)@, info@, amount@)),
{
    let user = match line.load(&info.sender) {
        Some(u) => u,
        None => {
            return Err(StdError::generic_err("No debt record"));
        },
    };
    let debt = if amount.amount >= user.debt {
        0
    } else {
        user.debt - amount.amount
    };
    line.save(&info.sender, RclUser { trust_score: user.trust_score, debt });
    Ok(report("repay", "remaining_debt", to_string_u128(debt)))
}

/// What `try_update_trust` does: the caller's trust score becomes `score`.
/// A user without a record gets one, without debt.
pub open spec fn update_trust_spec(users: Seq<BorrowerView>, info: MessageInfoView, score: u8) -> Outcome {
    let user = match user_at(users, info.sender) {
        Some(u) => u,
        None => RclUser { trust_score: 0, debt: 0 },
    };
    Ok(
        (
            with_user(users, info.sender, RclUser { trust_score: score, ..user }),
            noted(attr("action"@, "update_trust"@), attr("new_score"@, decimal(score as nat))),
        ),
    )
}

/// Sets the caller's trust score.
pub fn try_update_trust(line: &mut CreditLine, info: &MessageInfo, score: u8) -> (r: Result<
    Response,
    StdError,
>)
    requires
        old(line).wf(),
    ensures
        final(line).wf(),
        ends_as(r, old(line)@, final(line)@, update_trust_spec(old(line)@, info@, score)),
{
    let user = match line.load(&info.sender) {
        Some(u) => u,
        None => RclUser { trust_score: 0, debt: 0 },
    };
    line.save(&info.sender, RclUser { trust_score: score, debt: user.debt });
    Ok(report("update_trust", "new_score", to_string_u128(score as u128)))
}

/// What `execute` does: what the call named by `msg` does.
pub open spec fn execute_spec(users: Seq<BorrowerView>, info: MessageInfoView, msg: ExecuteMsg) -> Outcome {
    match msg {
        ExecuteMsg::Borrow { amount } => borrow_spec(users, info, amount@),
        ExecuteMsg::Repay { amount } => repay_spec(users, info, amount@),
        ExecuteMsg::UpdateTrust { score } => update_trust_spec(users, info, score),
    }
}

/// Makes the call that `msg` names.
pub fn execute(line: &mut CreditLine, env: &Env, info: &MessageInfo, msg: ExecuteMsg) -> (r:
    Result<Response, StdError>)
    requires
        old(line).wf(),
    ensures
        final(line).wf(),
        ends_as(r, old(line)@, final(line)@, execute_spec(old(line)@, info@, msg)),
{
    match msg {
        ExecuteMsg::Borrow { amount } => try_borrow(line, env, info, amount),
        ExecuteMsg::Repay { amount } => try_repay(line, env, info, amount),
        ExecuteMsg::UpdateTrust { score } => try_update_trust(line, info, score),
    }
}

/// What `query` answers: the record of the address asked for, or that
/// there is none.
pub open spec fn query_spec(users: Seq<BorrowerView>, msg: QueryMsg) -> Result<
    GetUserResponse,
    StdErrorView,
> {
    match msg {
        QueryMsg::GetUser { address } => match user_at(users, address@) {
            Some(u) => Ok(GetUserResponse { trust_score: u.trust_score, debt: u.debt }),
            None => Err(StdErrorView::NotFound { kind: "RclUser"@ }),
        },
    }
}

/// Answers a query. The host has checked that the address asked for is one.
pub fn query(line: &CreditLine, _env: &Env, msg: QueryMsg) -> (r: Result<GetUserResponse, StdError>)
    requires
        line.wf(),
    ensures
        match query_spec(line@, msg) {
            Ok(a) => r == Ok::<GetUserResponse, StdError>(a),
            Err(e) => r is Err && r->Err_0@ == e,
        },
{
    match msg {
        QueryMsg::GetUser { address } => match line.load(&address) {
            Some(u) => Ok(GetUserResponse { trust_score: u.trust_score, debt: u.debt }),
            None => Err(StdError::not_found("RclUser")),
        },
    }
}

} // verus!
