//! The life of a bond series: collateral, sale, accrual of interest,
//! repayment, redemption, liquidation, pause, and transfers between holders.
//!
//! Every call first brings the interest index up to the block time. A call
//! that fails leaves the series as it was. Payments are returned as
//! instructions to the host.

use vstd::prelude::*;
use crate::host::attr;
use crate::host::must_pay;
use crate::host::must_pay_spec;
use crate::host::AttributeView;
use crate::host::Env;
use crate::host::MessageInfo;
use crate::host::MessageInfoView;
use crate::host::Payment;
use crate::host::PaymentView;
use crate::host::Response;
use crate::host::ResponseView;
use crate::bond_series::collateral::collateral_ratio;
use crate::bond_series::collateral::collateral_ratio_spec;
use crate::bond_series::collateral::liquidatable;
use crate::bond_series::collateral::liquidatable_spec;
use crate::bond_series::collateral::seized;
use crate::bond_series::collateral::seized_collateral;
use crate::bond_series::error::ContractError;
use crate::bond_series::impact::evaluate_checkpoint;
use crate::bond_series::impact::evaluated;
use crate::bond_series::msg::AccruedInterestResponse;
use crate::bond_series::msg::BalanceResponse;
use crate::bond_series::msg::CollateralRatioResponse;
use crate::bond_series::msg::ExecuteMsg;
use crate::bond_series::msg::ImpactStatusResponse;
use crate::bond_series::msg::ImpactStatusView;
use crate::bond_series::msg::InstantiateMsg;
use crate::bond_series::msg::InstantiateMsgView;
use crate::bond_series::msg::PriceStatusResponse;
use crate::bond_series::msg::PriceStatusView;
use crate::bond_series::msg::QueryMsg;
use crate::bond_series::msg::QueryResponse;
use crate::bond_series::msg::StateResponse;
use crate::bond_series::msg::StateResponseView;
use crate::bond_series::msg::TermsResponse;
use crate::bond_series::msg::TermsResponseView;
use crate::bond_series::error::ContractErrorView;
use crate::bond_series::math::accrue_index;
use crate::bond_series::math::decimal;
use crate::bond_series::math::grown_index;
use crate::bond_series::math::multiply_ratio;
use crate::bond_series::math::overflow;
use crate::bond_series::math::overflow_error;
use crate::bond_series::math::parse_u128;
use crate::bond_series::math::parse_u128_spec;
use crate::bond_series::math::to_string_u128;
use crate::bond_series::math::BPS_SCALE;
use crate::bond_series::math::INDEX_SCALE;
use crate::bond_series::state::account_at;
use crate::bond_series::state::lemma_with_account;
use crate::bond_series::state::load_account;
use crate::bond_series::state::store_account;
use crate::bond_series::state::total_balance;
use crate::bond_series::state::well_formed;
use crate::bond_series::state::with_account;
use crate::bond_series::state::AccountIndex;
use crate::bond_series::state::Config;
use crate::bond_series::state::ConfigView;
use crate::bond_series::state::HolderView;
use crate::bond_series::state::ImpactPoint;
use crate::bond_series::state::Ledger;
use crate::bond_series::state::LedgerView;
use crate::bond_series::state::PricePoint;
use crate::bond_series::state::SeriesState;

verus! {

/// How a call ends: the series after it and the response, or the failure.
pub type Outcome = Result<(LedgerView, ResponseView), ContractErrorView>;

/// Whether a call returned `expected`, leaving the series as `expected`
/// says, or untouched where it failed.
pub open spec fn ends_as(
    r: Result<Response, ContractError>,
    before: LedgerView,
    after: LedgerView,
    expected: Outcome,
) -> bool {
    match expected {
        Ok((next, response)) => r is Ok && r->Ok_0@ == response && after == next,
        Err(e) => r is Err && r->Err_0@ == e && after == before,
    }
}

/// A call that fails with `e`.
pub open spec fn fails(e: ContractErrorView) -> Outcome {
    Err(e)
}

/// The failure of an amount that leaves 128 bits.
pub open spec fn overflowed() -> ContractErrorView {
    ContractErrorView::Std(overflow_error())
}

/// A response of attributes alone.
pub open spec fn noted(attributes: Seq<AttributeView>) -> ResponseView {
    ResponseView { messages: Seq::empty(), attributes }
}

/// A response of one payment and attributes.
pub open spec fn paying(payment: PaymentView, attributes: Seq<AttributeView>) -> ResponseView {
    ResponseView { messages: seq![payment], attributes }
}

/// The block time.
pub fn now_ts(env: &Env) -> (t: u64)
    ensures
        t == env.block_time,
{
    env.block_time
}

/// Fails with `Paused` where the series is paused.
pub fn require_not_paused(state: &SeriesState) -> (r: Result<(), ContractError>)
    ensures
        state.paused ==> r == Err::<(), ContractError>(ContractError::Paused),
        !state.paused ==> r == Ok::<(), ContractError>(()),
{
    if state.paused {
        return Err(ContractError::Paused);
    }
    Ok(())
}

/// Whether the block time has reached maturity.
pub fn is_matured(env: &Env, cfg: &Config) -> (r: bool)
    ensures
        r == (env.block_time >= cfg@.terms.maturity_ts),
{
    now_ts(env) >= cfg.terms.maturity_ts
}

/// The totals with the interest index brought up to `now`: nothing changes
/// where `now` is not after the last accrual; else the index grows by simple
/// interest over the seconds that passed, and the last accrual moves to
/// `now`.
pub open spec fn accrual(state: SeriesState, rate_apr_bps: u32, now: u64) -> Result<
    SeriesState,
    ContractErrorView,
> {
    if now <= state.last_accrual_ts {
        Ok(state)
    } else {
        let next = grown_index(
            state.global_interest_index as nat,
            (now - state.last_accrual_ts) as nat,
            rate_apr_bps as nat,
        );
        if next > u128::MAX {
            Err(overflowed())
        } else {
            Ok(SeriesState { global_interest_index: next as u128, last_accrual_ts: now, ..state })
        }
    }
}

/// The totals that a call works on: accrued to `now`.
pub open spec fn accrued(v: LedgerView, now: u64) -> Result<SeriesState, ContractErrorView> {
    accrual(v.state, v.config.terms.base_rate_apr_bps, now)
}

/// The totals that a call works on where a paused series refuses it.
pub open spec fn entered(v: LedgerView, now: u64) -> Result<SeriesState, ContractErrorView> {
    match accrued(v, now) {
        Err(e) => Err(e),
        Ok(state) => if state.paused {
            Err(ContractErrorView::Paused)
        } else {
            Ok(state)
        },
    }
}

/// The totals accrued to `now`.
pub fn accrue_state(state: &SeriesState, rate_apr_bps: u32, now: u64) -> (r: Result<
    SeriesState,
    ContractError,
>)
    ensures
        match accrual(*state, rate_apr_bps, now) {
            Ok(next) => r == Ok::<SeriesState, ContractError>(next),
            Err(e) => r is Err && r->Err_0@ == e,
        },
{
    if now <= state.last_accrual_ts {
        return Ok(*state);
    }
    let dt = now - state.last_accrual_ts;
    match accrue_index(state.global_interest_index, dt, rate_apr_bps) {
        Ok(next) => Ok(
            SeriesState {
                sale_open: state.sale_open,
                paused: state.paused,
                total_principal_sold: state.total_principal_sold,
                total_principal_outstanding: state.total_principal_outstanding,
                collateral_locked: state.collateral_locked,
                global_interest_index: next,
                last_accrual_ts: now,
                last_price: state.last_price,
                last_impact: state.last_impact,
            },
        ),
        Err(e) => Err(ContractError::Std(e)),
    }
}

/// The interest that a record has earned since it was last brought up to
/// date: its balance times the growth of the index, rounded down.
pub open spec fn interest_due(account: AccountIndex, global_index: u128) -> nat {
    if account.index <= global_index {
        (account.balance * (global_index - account.index)) as nat / (INDEX_SCALE as nat)
    } else {
        0
    }
}

/// A record brought up to date with `global_index`: the interest due is
/// added to what has accrued.
pub open spec fn synced(account: AccountIndex, global_index: u128) -> Result<
    AccountIndex,
    ContractErrorView,
> {
    if account.accrued + interest_due(account, global_index) > u128::MAX {
        Err(overflowed())
    } else {
        Ok(
            AccountIndex {
                balance: account.balance,
                index: global_index,
                accrued: (account.accrued + interest_due(account, global_index)) as u128,
            },
        )
    }
}

/// Bringing a record up to date twice at one index is doing it once: the
/// second time nothing is due.
pub proof fn lemma_synced_idempotent(account: AccountIndex, global_index: u128)
    ensures
        synced(account, global_index) matches Ok(once) ==> interest_due(once, global_index) == 0
            && synced(once, global_index) == Ok::<AccountIndex, ContractErrorView>(once),
{
    if let Ok(once) = synced(account, global_index) {
        assert(once.balance * (global_index - once.index) == 0) by (nonlinear_arith)
            requires
                once.index == global_index,
        ;
    }
}

/// The record brought up to date with `global_index`.
pub fn sync_record(account: AccountIndex, global_index: u128) -> (r: Result<
    AccountIndex,
    ContractError,
>)
    ensures
        match synced(account, global_index) {
            Ok(next) => r == Ok::<AccountIndex, ContractError>(next),
            Err(e) => r is Err && r->Err_0@ == e,
        },
{
    let due = if account.index <= global_index {
        multiply_ratio(account.balance, global_index - account.index, INDEX_SCALE)
    } else {
        Some(0)
    };
    let accrued = match due {
        Some(d) => account.accrued.checked_add(d),
        None => None,
    };
    match accrued {
        Some(a) => Ok(AccountIndex { balance: account.balance, index: global_index, accrued: a }),
        None => Err(ContractError::Std(overflow())),
    }
}

/// What `accrue` does.
pub open spec fn accrue_spec(v: LedgerView, now: u64) -> Result<LedgerView, ContractErrorView> {
    match accrued(v, now) {
        Err(e) => Err(e),
        Ok(state) => Ok(LedgerView { state, ..v }),
    }
}

/// Brings the interest index up to the block time.
pub fn accrue(ledger: &mut Ledger, env: &Env) -> (r: Result<(), ContractError>)
    requires
        old(ledger).wf(),
    ensures
        final(ledger).wf(),
        match accrue_spec(old(ledger)@, env.block_time) {
            Ok(next) => r is Ok && final(ledger)@ == next,
            Err(e) => r is Err && r->Err_0@ == e && final(ledger)@ == old(ledger)@,
        },
{
    let state = accrue_state(&ledger.state, ledger.config.terms.base_rate_apr_bps, now_ts(env))?;
    ledger.state = state;
    Ok(())
}

/// What `sync_account` does: the record of `address`, created if need be,
/// is brought up to date with the interest index of the series.
pub open spec fn sync_account_spec(v: LedgerView, address: Seq<char>) -> Result<
    LedgerView,
    ContractErrorView,
> {
    let g = v.state.global_interest_index;
    match synced(account_at(v.holders, g, address), g) {
        Err(e) => Err(e),
        Ok(account) => Ok(LedgerView { holders: with_account(v.holders, address, account), ..v }),
    }
}

/// Storing a record that is not ahead of the index, and whose balance moves
/// the sum as `redeemed` and `sold` allow, keeps a series well formed.
pub proof fn lemma_store_keeps_well_formed(
    v: LedgerView,
    state: SeriesState,
    address: Seq<char>,
    account: AccountIndex,
    redeemed: nat,
)
    requires
        well_formed(v),
        state.global_interest_index >= v.state.global_interest_index,
        state.total_principal_outstanding <= state.total_principal_sold,
        account.index <= state.global_interest_index,
        total_balance(v.holders) + account.balance + redeemed == state.total_principal_sold
            + account_at(v.holders, state.global_interest_index, address).balance,
    ensures
        well_formed(
            LedgerView { state, holders: with_account(v.holders, address, account), redeemed, ..v },
        ),
{
    lemma_with_account(v.holders, state.global_interest_index, address, account);
}

/// Brings the record of `address` up to date with the interest index,
/// creating it if need be.
pub fn sync_account(ledger: &mut Ledger, address: &String) -> (r: Result<(), ContractError>)
    requires
        old(ledger).wf(),
    ensures
        final(ledger).wf(),
        match sync_account_spec(old(ledger)@, address@) {
            Ok(next) => r is Ok && final(ledger)@ == next,
            Err(e) => r is Err && r->Err_0@ == e && final(ledger)@ == old(ledger)@,
        },
{
    let g = ledger.state.global_interest_index;
    let account = sync_record(load_account(&ledger.holders, g, address), g)?;
    proof {
        lemma_store_keeps_well_formed(ledger@, ledger@.state, address@, account, ledger@.redeemed);
    }
    store_account(&mut ledger.holders, address, account);
    Ok(())
}

/// What `execute_pause` does: only the admin may pause.
pub open spec fn pause_spec(v: LedgerView, now: u64, info: MessageInfoView) -> Outcome {
    match accrued(v, now) {
        Err(e) => Err(e),
        Ok(state) => if info.sender != v.config.admin {
            Err(ContractErrorView::Unauthorized)
        } else {
            Ok(
                (
                    LedgerView { state: SeriesState { paused: true, ..state }, ..v },
                    noted(seq![attr("action"@, "pause"@)]),
                ),
            )
        },
    }
}

/// What `execute_unpause` does: only the admin may unpause.
pub open spec fn unpause_spec(v: LedgerView, now: u64, info: MessageInfoView) -> Outcome {
    match accrued(v, now) {
        Err(e) => Err(e),
        Ok(state) => if info.sender != v.config.admin {
            Err(ContractErrorView::Unauthorized)
        } else {
            Ok(
                (
                    LedgerView { state: SeriesState { paused: false, ..state }, ..v },
                    noted(seq![attr("action"@, "unpause"@)]),
                ),
            )
        },
    }
}

/// Fails with `Unauthorized` where the caller is not the admin.
pub fn only_admin(cfg: &Config, info: &MessageInfo) -> (r: Result<(), ContractError>)
    ensures
        info@.sender != cfg@.admin ==> r == Err::<(), ContractError>(ContractError::Unauthorized),
        info@.sender == cfg@.admin ==> r == Ok::<(), ContractError>(()),
{
    if info.sender != cfg.admin {
        return Err(ContractError::Unauthorized);
    }
    Ok(())
}

fn only_borrower(cfg: &Config, info: &MessageInfo) -> (r: Result<(), ContractError>)
    ensures
        info@.sender != cfg@.terms.borrower ==> r == Err::<(), ContractError>(
            ContractError::Unauthorized,
        ),
        info@.sender == cfg@.terms.borrower ==> r == Ok::<(), ContractError>(()),
{
    if info.sender != cfg.terms.borrower {
        return Err(ContractError::Unauthorized);
    }
    Ok(())
}

fn action(name: &str) -> (r: Response)
    ensures
        r@ == noted(seq![attr("action"@, name@)]),
{
    let mut r = Response::new();
    r.add_attribute("action", String::from_str(name));
    assert(r@.attributes == seq![attr("action"@, name@)]);
    r
}

fn set_paused(ledger: &mut Ledger, env: &Env, info: &MessageInfo, paused: bool) -> (r: Result<
    (),
    ContractError,
>)
    requires
        old(ledger).wf(),
    ensures
        final(ledger).wf(),
        match accrued(old(ledger)@, env.block_time) {
            Err(e) => r is Err && r->Err_0@ == e && final(ledger)@ == old(ledger)@,
            Ok(state) => if info@.sender != old(ledger)@.config.admin {
                r is Err && r->Err_0@ == ContractErrorView::Unauthorized && final(ledger)@ == old(
                    ledger,
                )@
            } else {
                r is Ok && final(ledger)@ == (LedgerView {
                    state: SeriesState { paused, ..state },
                    ..old(ledger)@
                })
            },
        },
{
    let state = accrue_state(&ledger.state, ledger.config.terms.base_rate_apr_bps, now_ts(env))?;
    only_admin(&ledger.config, info)?;
    ledger.state = state;
    ledger.state.paused = paused;
    Ok(())
}

/// Pauses the series.
pub fn execute_pause(ledger: &mut Ledger, env: &Env, info: &MessageInfo) -> (r: Result<
    Response,
    ContractError,
>)
    requires
        old(ledger).wf(),
    ensures
        final(ledger).wf(),
        ends_as(r, old(ledger)@, final(ledger)@, pause_spec(old(ledger)@, env.block_time, info@)),
{
    set_paused(ledger, env, info, true)?;
    Ok(action("pause"))
}

/// Lifts the pause.
pub fn execute_unpause(ledger: &mut Ledger, env: &Env, info: &MessageInfo) -> (r: Result<
    Response,
    ContractError,
>)
    requires
        old(ledger).wf(),
    ensures
        final(ledger).wf(),
        ends_as(
            r,
            old(ledger)@,
            final(ledger)@,
            unpause_spec(old(ledger)@, env.block_time, info@),
        ),
{
    set_paused(ledger, env, info, false)?;
    Ok(action("unpause"))
}

/// What `execute_deposit_collateral` does: the borrower adds collateral
/// before maturity, paid as one coin of the collateral asset.
pub open spec fn deposit_collateral_spec(v: LedgerView, now: u64, info: MessageInfoView) -> Outcome {
    match entered(v, now) {
        Err(e) => Err(e),
        Ok(state) => if info.sender != v.config.terms.borrower {
            Err(ContractErrorView::Unauthorized)
        } else if now >= v.config.terms.maturity_ts {
            Err(ContractErrorView::Matured)
        } else {
            match must_pay_spec(info.funds, v.config.terms.collateral_denom) {
                Err(_) => Err(ContractErrorView::InvalidDenom),
                Ok(paid) => if state.collateral_locked + paid > u128::MAX {
                    Err(overflowed())
                } else {
                    Ok(
                        (
                            LedgerView {
                                state: SeriesState {
                                    collateral_locked: (state.collateral_locked + paid) as u128,
                                    ..state
                                },
                                ..v
                            },
                            noted(
                                seq![
                                    attr("action"@, "deposit_collateral"@),
                                    attr("amount"@, decimal(paid as nat)),
                                ],
                            ),
                        ),
                    )
                },
            }
        },
    }
}

fn enter(ledger: &Ledger, env: &Env) -> (r: Result<SeriesState, ContractError>)
    ensures
        match entered(ledger@, env.block_time) {
            Ok(state) => r == Ok::<SeriesState, ContractError>(state),
            Err(e) => r is Err && r->Err_0@ == e,
        },
{
    let state = accrue_state(&ledger.state, ledger.config.terms.base_rate_apr_bps, now_ts(env))?;
    require_not_paused(&state)?;
    Ok(state)
}

fn pay(info: &MessageInfo, denom: &String) -> (r: Result<u128, ContractError>)
    ensures
        match must_pay_spec(info@.funds, denom@) {
            Ok(paid) => r == Ok::<u128, ContractError>(paid),
            Err(_) => r == Err::<u128, ContractError>(ContractError::InvalidDenom),
        },
{
    match must_pay(info, denom.as_str()) {
        Ok(paid) => Ok(paid),
        Err(_) => Err(ContractError::InvalidDenom),
    }
}

/// Adds the collateral that the borrower sent.
pub fn execute_deposit_collateral(ledger: &mut Ledger, env: &Env, info: &MessageInfo) -> (r:
    Result<Response, ContractError>)
    requires
        old(ledger).wf(),
    ensures
        final(ledger).wf(),
        ends_as(
            r,
            old(ledger)@,
            final(ledger)@,
            deposit_collateral_spec(old(ledger)@, env.block_time, info@),
        ),
{
    let state = enter(ledger, env)?;
    only_borrower(&ledger.config, info)?;
    if is_matured(env, &ledger.config) {
        return Err(ContractError::Matured);
    }
    let paid = pay(info, &ledger.config.terms.collateral_denom)?;
    let locked = match state.collateral_locked.checked_add(paid) {
        Some(l) => l,
        None => {
            return Err(ContractError::Std(overflow()));
        },
    };
    ledger.state = state;
    ledger.state.collateral_locked = locked;
    let mut response = action("deposit_collateral");
    response.add_attribute("amount", to_string_u128(paid));
    assert(response@.attributes == seq![
        attr("action"@, "deposit_collateral"@),
        attr("amount"@, decimal(paid as nat)),
    ]);
    Ok(response)
}

/// What `execute_open_sale` does: the borrower opens the sale before
/// maturity. The sale stays open.
pub open spec fn open_sale_spec(v: LedgerView, now: u64, info: MessageInfoView) -> Outcome {
    match entered(v, now) {
        Err(e) => Err(e),
        Ok(state) => if info.sender != v.config.terms.borrower {
            Err(ContractErrorView::Unauthorized)
        } else if now >= v.config.terms.maturity_ts {
            Err(ContractErrorView::Matured)
        } else {
            Ok(
                (
                    LedgerView { state: SeriesState { sale_open: true, ..state }, ..v },
                    noted(seq![attr("action"@, "open_sale"@)]),
                ),
            )
        },
    }
}

/// Opens the sale.
pub fn execute_open_sale(ledger: &mut Ledger, env: &Env, info: &MessageInfo) -> (r: Result<
    Response,
    ContractError,
>)
    requires
        old(ledger).wf(),
    ensures
        final(ledger).wf(),
        ends_as(
            r,
            old(ledger)@,
            final(ledger)@,
            open_sale_spec(old(ledger)@, env.block_time, info@),
        ),
{
    let state = enter(ledger, env)?;
    only_borrower(&ledger.config, info)?;
    if is_matured(env, &ledger.config) {
        return Err(ContractError::Matured);
    }
    ledger.state = state;
    ledger.state.sale_open = true;
    Ok(action("open_sale"))
}

/// The protocol's share of a payment, rounded down.
pub open spec fn protocol_fee(payment: u128, fee_bps: u32) -> nat {
    (payment * fee_bps) as nat / (BPS_SCALE as nat)
}

/// The payments of a purchase: the fee to the fee recipient, unless it is
/// zero, then the rest to the borrower.
pub open spec fn purchase_payments(config: ConfigView, paid: u128) -> Seq<PaymentView> {
    let fee = protocol_fee(paid, config.protocol_fee_bps) as u128;
    let to_borrower = PaymentView {
        to_address: config.terms.borrower,
        denom: config.terms.principal_denom,
        amount: (paid - fee) as u128,
    };
    if fee > 0 {
        seq![
            PaymentView {
                to_address: config.fee_recipient,
                denom: config.terms.principal_denom,
                amount: fee,
            },
            to_borrower,
        ]
    } else {
        seq![to_borrower]
    }
}

/// What is said of a fee that is more than the payment it is taken from.
pub open spec fn fee_refused_text() -> Seq<char> {
    "protocol fee exceeds payment"@
}

/// What `execute_buy` does: while the sale is open and before maturity, one
/// coin of the principal asset buys as many bond tokens. The buyer's record
/// is brought up to date first. What was sold and what is outstanding grow by
/// the whole payment; the fee goes to the fee recipient and the rest to the
/// borrower.
pub open spec fn buy_spec(v: LedgerView, now: u64, info: MessageInfoView) -> Outcome {
    match entered(v, now) {
        Err(e) => Err(e),
        Ok(state) => if !state.sale_open {
            Err(ContractErrorView::SaleNotOpen)
        } else if now >= v.config.terms.maturity_ts {
            Err(ContractErrorView::Matured)
        } else {
            match must_pay_spec(info.funds, v.config.terms.principal_denom) {
                Err(_) => Err(ContractErrorView::InvalidDenom),
                Ok(paid) => match synced(
                    account_at(v.holders, state.global_interest_index, info.sender),
                    state.global_interest_index,
                ) {
                    Err(e) => Err(e),
                    Ok(account) => if state.total_principal_sold + paid > u128::MAX {
                        Err(overflowed())
                    } else if protocol_fee(paid, v.config.protocol_fee_bps) > paid {
                        Err(ContractErrorView::InvalidConfig(fee_refused_text()))
                    } else {
                        Ok(
                            (
                                LedgerView {
                                    state: SeriesState {
                                        total_principal_sold: (state.total_principal_sold
                                            + paid) as u128,
                                        total_principal_outstanding: (
                                        state.total_principal_outstanding + paid) as u128,
                                        ..state
                                    },
                                    holders: with_account(
                                        v.holders,
                                        info.sender,
                                        AccountIndex {
                                            balance: (account.balance + paid) as u128,
                                            ..account
                                        },
                                    ),
                                    ..v
                                },
                                ResponseView {
                                    messages: purchase_payments(v.config, paid),
                                    attributes: seq![
                                        attr("action"@, "buy"@),
                                        attr("paid"@, decimal(paid as nat)),
                                    ],
                                },
                            ),
                        )
                    },
                },
            }
        },
    }
}

/// Splits a payment into the protocol's fee and the rest. `None` where the
/// fee would be more than the payment.
pub fn split_fee(paid: u128, fee_bps: u32) -> (r: Option<(u128, u128)>)
    ensures
        protocol_fee(paid, fee_bps) > paid ==> r is None,
        protocol_fee(paid, fee_bps) <= paid ==> r == Some(
            (protocol_fee(paid, fee_bps) as u128, (paid - protocol_fee(paid, fee_bps)) as u128),
        ),
        r matches Some((fee, net)) ==> fee + net == paid,
{
    match multiply_ratio(paid, fee_bps as u128, BPS_SCALE) {
        Some(fee) => if fee > paid {
            None
        } else {
            Some((fee, paid - fee))
        },
        None => None,
    }
}

fn purchase_response(config: &Config, paid: u128, fee: u128, net: u128) -> (r: Response)
    requires
        fee == protocol_fee(paid, config@.protocol_fee_bps),
        fee + net == paid,
    ensures
        r@ == (ResponseView {
            messages: purchase_payments(config@, paid),
            attributes: seq![attr("action"@, "buy"@), attr("paid"@, decimal(paid as nat))],
        }),
{
    let mut response = action("buy");
    response.add_attribute("paid", to_string_u128(paid));
    if fee > 0 {
        response.add_message(
            Payment {
                to_address: config.fee_recipient.clone(),
                denom: config.terms.principal_denom.clone(),
                amount: fee,
            },
        );
    }
    response.add_message(
        Payment {
            to_address: config.terms.borrower.clone(),
            denom: config.terms.principal_denom.clone(),
            amount: net,
        },
    );
    assert(response@.messages == purchase_payments(config@, paid));
    assert(response@.attributes == seq![
        attr("action"@, "buy"@),
        attr("paid"@, decimal(paid as nat)),
    ]);
    response
}

/// Sells bond tokens for the principal that the caller sent.
pub fn execute_buy(
    ledger: &mut Ledger,
    env: &Env,
    info: &MessageInfo,
    _min_tokens: Option<String>,
) -> (r: Result<Response, ContractError>)
    requires
        old(ledger).wf(),
    ensures
        final(ledger).wf(),
        ends_as(r, old(ledger)@, final(ledger)@, buy_spec(old(ledger)@, env.block_time, info@)),
{
    let state = enter(ledger, env)?;
    if !state.sale_open {
        return Err(ContractError::SaleNotOpen);
    }
    if is_matured(env, &ledger.config) {
        return Err(ContractError::Matured);
    }
    let paid = pay(info, &ledger.config.terms.principal_denom)?;
    let g = state.global_interest_index;
    let account = sync_record(load_account(&ledger.holders, g, &info.sender), g)?;
    let sold = match state.total_principal_sold.checked_add(paid) {
        Some(s) => s,
        None => {
            return Err(ContractError::Std(overflow()));
        },
    };
    let (fee, net) = match split_fee(paid, ledger.config.protocol_fee_bps) {
        Some(parts) => parts,
        None => {
            return Err(
                ContractError::InvalidConfig(String::from_str("protocol fee exceeds payment")),
            );
        },
    };
    proof {
        lemma_with_account(ledger@.holders, g, info@.sender, account);
    }
    let bought = AccountIndex {
        balance: account.balance + paid,
        index: account.index,
        accrued: account.accrued,
    };
    let ghost next = SeriesState {
        total_principal_sold: sold,
        total_principal_outstanding: (state.total_principal_outstanding + paid) as u128,
        ..state
    };
    proof {
        lemma_store_keeps_well_formed(ledger@, next, info@.sender, bought, ledger@.redeemed);
    }
    ledger.state = state;
    ledger.state.total_principal_sold = sold;
    ledger.state.total_principal_outstanding = state.total_principal_outstanding + paid;
    store_account(&mut ledger.holders, &info.sender, bought);
    Ok(purchase_response(&ledger.config, paid, fee, net))
}

/// What `execute_repay` does: the borrower pays principal back, as one coin
/// of the principal asset. What is outstanding falls by the payment, and not
/// below zero.
pub open spec fn repay_spec(v: LedgerView, now: u64, info: MessageInfoView) -> Outcome {
    match entered(v, now) {
        Err(e) => Err(e),
        Ok(state) => if info.sender != v.config.terms.borrower {
            Err(ContractErrorView::Unauthorized)
        } else {
            match must_pay_spec(info.funds, v.config.terms.principal_denom) {
                Err(_) => Err(ContractErrorView::InvalidDenom),
                Ok(paid) => {
                    let repaid = if paid <= state.total_principal_outstanding {
                        paid
                    } else {
                        state.total_principal_outstanding
                    };
                    Ok(
                        (
                            LedgerView {
                                state: SeriesState {
                                    total_principal_outstanding: (
                                    state.total_principal_outstanding - repaid) as u128,
                                    ..state
                                },
                                ..v
                            },
                            noted(
                                seq![
                                    attr("action"@, "repay"@),
                                    attr("amount"@, decimal(repaid as nat)),
                                ],
                            ),
                        ),
                    )
                },
            }
        },
    }
}

fn lesser(a: u128, b: u128) -> (r: u128)
    ensures
        r == (if a <= b {
            a
        } else {
            b
        }),
{
    if a <= b {
        a
    } else {
        b
    }
}

/// Applies the principal that the borrower sent.
pub fn execute_repay(ledger: &mut Ledger, env: &Env, info: &MessageInfo) -> (r: Result<
    Response,
    ContractError,
>)
    requires
        old(ledger).wf(),
    ensures
        final(ledger).wf(),
        ends_as(r, old(ledger)@, final(ledger)@, repay_spec(old(ledger)@, env.block_time, info@)),
{
    let state = enter(ledger, env)?;
    only_borrower(&ledger.config, info)?;
    let paid = pay(info, &ledger.config.terms.principal_denom)?;
    let repaid = lesser(paid, state.total_principal_outstanding);
    ledger.state = state;
    ledger.state.total_principal_outstanding = state.total_principal_outstanding - repaid;
    let mut response = action("repay");
    response.add_attribute("amount", to_string_u128(repaid));
    assert(response@.attributes == seq![
        attr("action"@, "repay"@),
        attr("amount"@, decimal(repaid as nat)),
    ]);
    Ok(response)
}

/// What `execute_claim_interest` does: the caller's record is brought up to
/// date, and what has accrued to it is paid out in the principal asset and
/// set to zero.
pub open spec fn claim_interest_spec(v: LedgerView, now: u64, info: MessageInfoView) -> Outcome {
    match entered(v, now) {
        Err(e) => Err(e),
        Ok(state) => match synced(
            account_at(v.holders, state.global_interest_index, info.sender),
            state.global_interest_index,
        ) {
            Err(e) => Err(e),
            Ok(account) => if account.accrued == 0 {
                Err(ContractErrorView::NothingToClaim)
            } else {
                Ok(
                    (
                        LedgerView {
                            state,
                            holders: with_account(
                                v.holders,
                                info.sender,
                                AccountIndex { accrued: 0, ..account },
                            ),
                            ..v
                        },
                        paying(
                            PaymentView {
                                to_address: info.sender,
                                denom: v.config.terms.principal_denom,
                                amount: account.accrued,
                            },
                            seq![
                                attr("action"@, "claim_interest"@),
                                attr("amount"@, decimal(account.accrued as nat)),
                            ],
                        ),
                    ),
                )
            },
        },
    }
}

fn payout(name: &str, key: &str, to: &String, denom: &String, amount: u128) -> (r: Response)
    ensures
        r@ == paying(
            PaymentView { to_address: to@, denom: denom@, amount },
            seq![attr("action"@, name@), attr(key@, decimal(amount as nat))],
        ),
{
    let mut response = action(name);
    response.add_attribute(key, to_string_u128(amount));
    response.add_message(Payment { to_address: to.clone(), denom: denom.clone(), amount });
    assert(response@.attributes == seq![attr("action"@, name@), attr(key@, decimal(amount as nat))]);
    assert(response@.messages == seq![PaymentView { to_address: to@, denom: denom@, amount }]);
    response
}

/// Pays the caller the interest that has accrued to it.
pub fn execute_claim_interest(ledger: &mut Ledger, env: &Env, info: &MessageInfo) -> (r: Result<
    Response,
    ContractError,
>)
    requires
        old(ledger).wf(),
    ensures
        final(ledger).wf(),
        ends_as(
            r,
            old(ledger)@,
            final(ledger)@,
            claim_interest_spec(old(ledger)@, env.block_time, info@),
        ),
{
    let state = enter(ledger, env)?;
    let g = state.global_interest_index;
    let account = sync_record(load_account(&ledger.holders, g, &info.sender), g)?;
    if account.accrued == 0 {
        return Err(ContractError::NothingToClaim);
    }
    let claimed = AccountIndex { balance: account.balance, index: account.index, accrued: 0 };
    proof {
        lemma_store_keeps_well_formed(ledger@, state, info@.sender, claimed, ledger@.redeemed);
    }
    ledger.state = state;
    store_account(&mut ledger.holders, &info.sender, claimed);
    Ok(
        payout(
            "claim_interest",
            "amount",
            &info.sender,
            &ledger.config.terms.principal_denom,
            account.accrued,
        ),
    )
}

/// What `execute_redeem_at_maturity` does: from maturity on, a holder burns
/// `amount` of its bond tokens. What is outstanding falls by that amount, and
/// not below zero; the holder is paid what it fell by, in the principal
/// asset.
pub open spec fn redeem_at_maturity_spec(
    v: LedgerView,
    now: u64,
    info: MessageInfoView,
    amount: Seq<char>,
) -> Outcome {
    match entered(v, now) {
        Err(e) => Err(e),
        Ok(state) => if now < v.config.terms.maturity_ts {
            Err(ContractErrorView::NotMatured)
        } else {
            match synced(
                account_at(v.holders, state.global_interest_index, info.sender),
                state.global_interest_index,
            ) {
                Err(e) => Err(e),
                Ok(account) => match parse_u128_spec(amount) {
                    Err(e) => Err(ContractErrorView::Std(e)),
                    Ok(burned) => if burned == 0 || burned > account.balance {
                        Err(ContractErrorView::InsufficientFunds)
                    } else {
                        let paid = if burned <= state.total_principal_outstanding {
                            burned
                        } else {
                            state.total_principal_outstanding
                        };
                        Ok(
                            (
                                LedgerView {
                                    state: SeriesState {
                                        total_principal_outstanding: (
                                        state.total_principal_outstanding - paid) as u128,
                                        ..state
                                    },
                                    holders: with_account(
                                        v.holders,
                                        info.sender,
                                        AccountIndex {
                                            balance: (account.balance - burned) as u128,
                                            ..account
                                        },
                                    ),
                                    redeemed: (v.redeemed + burned) as nat,
                                    ..v
                                },
                                paying(
                                    PaymentView {
                                        to_address: info.sender,
                                        denom: v.config.terms.principal_denom,
                                        amount: paid,
                                    },
                                    seq![
                                        attr("action"@, "redeem_at_maturity"@),
                                        attr("amount"@, decimal(paid as nat)),
                                    ],
                                ),
                            ),
                        )
                    },
                },
            }
        },
    }
}

fn parse_amount(text: &String) -> (r: Result<u128, ContractError>)
    ensures
        match parse_u128_spec(text@) {
            Ok(v) => r == Ok::<u128, ContractError>(v),
            Err(e) => r is Err && r->Err_0@ == ContractErrorView::Std(e),
        },
{
    match parse_u128(text.as_str()) {
        Ok(v) => Ok(v),
        Err(e) => Err(ContractError::Std(e)),
    }
}

/// Redeems bond tokens of the caller.
pub fn execute_redeem_at_maturity(
    ledger: &mut Ledger,
    env: &Env,
    info: &MessageInfo,
    amount: String,
) -> (r: Result<Response, ContractError>)
    requires
        old(ledger).wf(),
    ensures
        final(ledger).wf(),
        ends_as(
            r,
            old(ledger)@,
            final(ledger)@,
            redeem_at_maturity_spec(old(ledger)@, env.block_time, info@, amount@),
        ),
{
    let state = enter(ledger, env)?;
    if !is_matured(env, &ledger.config) {
        return Err(ContractError::NotMatured);
    }
    let g = state.global_interest_index;
    let account = sync_record(load_account(&ledger.holders, g, &info.sender), g)?;
    let burned = parse_amount(&amount)?;
    if burned == 0 || burned > account.balance {
        return Err(ContractError::InsufficientFunds);
    }
    let paid = lesser(burned, state.total_principal_outstanding);
    let left = AccountIndex {
        balance: account.balance - burned,
        index: account.index,
        accrued: account.accrued,
    };
    let ghost next = SeriesState {
        total_principal_outstanding: (state.total_principal_outstanding - paid) as u128,
        ..state
    };
    proof {
        lemma_with_account(ledger@.holders, g, info@.sender, account);
        lemma_store_keeps_well_formed(
            ledger@,
            next,
            info@.sender,
            left,
            (ledger@.redeemed + burned) as nat,
        );
    }
    ledger.state = state;
    ledger.state.total_principal_outstanding = state.total_principal_outstanding - paid;
    ledger.redeemed = Ghost((ledger.redeemed@ + burned) as nat);
    store_account(&mut ledger.holders, &info.sender, left);
    Ok(
        payout(
            "redeem_at_maturity",
            "amount",
            &info.sender,
            &ledger.config.terms.principal_denom,
            paid,
        ),
    )
}

/// The price that a reading gives at `now`: the reading must be there, have
/// a price above zero, and be no older than `max_age` seconds.
pub open spec fn price_at(reading: Option<PricePoint>, now: u64, max_age: u64) -> Option<u128> {
    match reading {
        None => None,
        Some(p) => if p.price > 0 && (p.ts >= now || now - p.ts <= max_age) {
            Some(p.price)
        } else {
            None
        },
    }
}

/// Whether a price reading gives a price at `now`.
pub open spec fn price_is_fresh(reading: Option<PricePoint>, now: u64, max_age: u64) -> bool {
    price_at(reading, now, max_age) is Some
}

/// The price that the last reading of the series gives at `now`.
pub fn usable_price(state: &SeriesState, now: u64, max_age: u64) -> (r: Option<u128>)
    ensures
        r == price_at(state.last_price, now, max_age),
{
    match state.last_price {
        None => None,
        Some(p) => if p.price > 0 && (p.ts >= now || now - p.ts <= max_age) {
            Some(p.price)
        } else {
            None
        },
    }
}

/// Whether the last price reading of the series is fresh.
pub fn has_fresh_price(state: &SeriesState, now: u64, max_age: u64) -> (r: bool)
    ensures
        r == price_is_fresh(state.last_price, now, max_age),
{
    usable_price(state, now, max_age).is_some()
}

/// Whether totals may be liquidated at `price`: the collateral ratio at that
/// price is below `liquidation_ratio_bps`.
pub open spec fn may_liquidate(state: SeriesState, price: u128, liquidation_ratio_bps: u32) -> bool {
    liquidatable_spec(
        collateral_ratio_spec(
            state.collateral_locked,
            Some(price),
            state.total_principal_outstanding,
        ),
        liquidation_ratio_bps,
    )
}

/// What `execute_liquidate` does. The series must have a fresh price
/// reading, else the call fails with `OracleStale`; and its collateral ratio
/// at that price must be below the liquidation ratio of the terms, else the
/// call fails with `CollateralTooLow`. Then the caller repays the lesser of
/// what it sent, as one coin of the principal asset, and `max_repay`. What
/// is outstanding falls by that, and not below zero. The caller receives the
/// collateral that this repayment buys at the price, raised by the
/// liquidation bonus, and no more than is locked.
pub open spec fn liquidate_spec(
    v: LedgerView,
    now: u64,
    info: MessageInfoView,
    max_repay: Seq<char>,
) -> Outcome {
    match entered(v, now) {
        Err(e) => Err(e),
        Ok(state) => match price_at(
            state.last_price,
            now,
            v.config.terms.oracle.max_price_age_seconds,
        ) {
            None => Err(ContractErrorView::OracleStale),
            Some(price) => if !may_liquidate(state, price, v.config.terms.liquidation_ratio_bps) {
                Err(ContractErrorView::CollateralTooLow)
            } else {
                match must_pay_spec(info.funds, v.config.terms.principal_denom) {
                    Err(_) => Err(ContractErrorView::InvalidDenom),
                    Ok(paid) => match parse_u128_spec(max_repay) {
                        Err(e) => Err(ContractErrorView::Std(e)),
                        Ok(limit) => {
                            let offered = if paid <= limit {
                                paid
                            } else {
                                limit
                            };
                            let applied = if offered <= state.total_principal_outstanding {
                                offered
                            } else {
                                state.total_principal_outstanding
                            };
                            let given = seized(
                                applied,
                                price,
                                v.config.terms.liquidation_bonus_bps,
                                state.collateral_locked,
                            );
                            Ok(
                                (
                                    LedgerView {
                                        state: SeriesState {
                                            total_principal_outstanding: (
                                            state.total_principal_outstanding - applied) as u128,
                                            collateral_locked: (state.collateral_locked
                                                - given) as u128,
                                            ..state
                                        },
                                        ..v
                                    },
                                    paying(
                                        PaymentView {
                                            to_address: info.sender,
                                            denom: v.config.terms.collateral_denom,
                                            amount: given,
                                        },
                                        seq![
                                            attr("action"@, "liquidate"@),
                                            attr("repaid"@, decimal(applied as nat)),
                                            attr("collateral_out"@, decimal(given as nat)),
                                        ],
                                    ),
                                ),
                            )
                        },
                    },
                }
            },
        },
    }
}

/// Repays principal of a series whose collateral ratio has fallen below the
/// liquidation ratio, against collateral.
pub fn execute_liquidate(
    ledger: &mut Ledger,
    env: &Env,
    info: &MessageInfo,
    max_repay: String,
) -> (r: Result<Response, ContractError>)
    requires
        old(ledger).wf(),
    ensures
        final(ledger).wf(),
        ends_as(
            r,
            old(ledger)@,
            final(ledger)@,
            liquidate_spec(old(ledger)@, env.block_time, info@, max_repay@),
        ),
{
    let state = enter(ledger, env)?;
    let price = match usable_price(
        &state,
        now_ts(env),
        ledger.config.terms.oracle.max_price_age_seconds,
    ) {
        Some(p) => p,
        None => {
            return Err(ContractError::OracleStale);
        },
    };
    let ratio = collateral_ratio(
        state.collateral_locked,
        Some(price),
        state.total_principal_outstanding,
    );
    if !liquidatable(ratio, ledger.config.terms.liquidation_ratio_bps) {
        return Err(ContractError::CollateralTooLow);
    }
    let paid = pay(info, &ledger.config.terms.principal_denom)?;
    let limit = parse_amount(&max_repay)?;
    let offered = lesser(paid, limit);
    let applied = lesser(offered, state.total_principal_outstanding);
    let given = seized_collateral(
        applied,
        price,
        ledger.config.terms.liquidation_bonus_bps,
        state.collateral_locked,
    );
    ledger.state = state;
    ledger.state.total_principal_outstanding = state.total_principal_outstanding - applied;
    ledger.state.collateral_locked = state.collateral_locked - given;
    let mut response = action("liquidate");
    response.add_attribute("repaid", to_string_u128(applied));
    response.add_attribute("collateral_out", to_string_u128(given));
    response.add_message(
        Payment {
            to_address: info.sender.clone(),
            denom: ledger.config.terms.collateral_denom.clone(),
            amount: given,
        },
    );
    assert(response@.attributes == seq![
        attr("action"@, "liquidate"@),
        attr("repaid"@, decimal(applied as nat)),
        attr("collateral_out"@, decimal(given as nat)),
    ]);
    assert(response@.messages == seq![
        PaymentView {
            to_address: info@.sender,
            denom: ledger@.config.terms.collateral_denom,
            amount: given,
        },
    ]);
    Ok(response)
}

/// What the host read from outside before a call: the price that the oracle
/// gave, if it gave one, and the amount retired so far in the tracked
/// batches.
#[derive(Clone, Copy, Debug, PartialEq, Eq)]
pub struct Readings {
    pub price: Option<PricePoint>,
    pub retired_total: u128,
}

/// Whether a reading may be recorded: it has a price, is not from the
/// future, and is no older than `max_age` seconds.
pub open spec fn reading_accepted(reading: Option<PricePoint>, now: u64, max_age: u64) -> bool {
    match reading {
        None => false,
        Some(p) => p.price > 0 && p.ts <= now && now - p.ts <= max_age,
    }
}

/// What `execute_update_oracle_price` does: a reading that is accepted
/// becomes the last price of the series; any other is refused as stale.
pub open spec fn update_oracle_price_spec(
    v: LedgerView,
    now: u64,
    reading: Option<PricePoint>,
) -> Outcome {
    match entered(v, now) {
        Err(e) => Err(e),
        Ok(state) => if !reading_accepted(
            reading,
            now,
            v.config.terms.oracle.max_price_age_seconds,
        ) {
            Err(ContractErrorView::OracleStale)
        } else {
            Ok(
                (
                    LedgerView { state: SeriesState { last_price: reading, ..state }, ..v },
                    noted(seq![attr("action"@, "update_oracle_price"@)]),
                ),
            )
        },
    }
}

/// Records the price reading that the host obtained from the oracle.
pub fn execute_update_oracle_price(
    ledger: &mut Ledger,
    env: &Env,
    _info: &MessageInfo,
    reading: Option<PricePoint>,
) -> (r: Result<Response, ContractError>)
    requires
        old(ledger).wf(),
    ensures
        final(ledger).wf(),
        ends_as(
            r,
            old(ledger)@,
            final(ledger)@,
            update_oracle_price_spec(old(ledger)@, env.block_time, reading),
        ),
{
    let state = enter(ledger, env)?;
    let now = now_ts(env);
    let accepted = match reading {
        None => false,
        Some(p) => p.price > 0 && p.ts <= now && now - p.ts
            <= ledger.config.terms.oracle.max_price_age_seconds,
    };
    if !accepted {
        return Err(ContractError::OracleStale);
    }
    ledger.state = state;
    ledger.state.last_price = reading;
    Ok(action("update_oracle_price"))
}

/// What `execute_checkpoint_impact` does: the first checkpoint of the terms
/// is held against the retired amount, and the result replaces the last
/// impact record. Terms without a checkpoint leave the record as it is.
pub open spec fn checkpoint_impact_spec(v: LedgerView, now: u64, retired_total: u128) -> Outcome {
    match entered(v, now) {
        Err(e) => Err(e),
        Ok(state) => if v.config.terms.impact.checkpoints.len() == 0 {
            Ok((LedgerView { state, ..v }, noted(seq![attr("action"@, "checkpoint_impact"@)])))
        } else {
            match evaluated(v.config.terms.impact.checkpoints[0], retired_total) {
                Err(e) => Err(ContractErrorView::Std(e)),
                Ok(point) => Ok(
                    (
                        LedgerView { state: SeriesState { last_impact: Some(point), ..state }, ..v },
                        noted(seq![attr("action"@, "checkpoint_impact"@)]),
                    ),
                ),
            }
        },
    }
}

/// Evaluates the first impact checkpoint against the retired amount that the
/// host obtained from the registry.
pub fn execute_checkpoint_impact(
    ledger: &mut Ledger,
    env: &Env,
    _info: &MessageInfo,
    retired_total: u128,
) -> (r: Result<Response, ContractError>)
    requires
        old(ledger).wf(),
    ensures
        final(ledger).wf(),
        ends_as(
            r,
            old(ledger)@,
            final(ledger)@,
            checkpoint_impact_spec(old(ledger)@, env.block_time, retired_total),
        ),
{
    let state = enter(ledger, env)?;
    if ledger.config.terms.impact.checkpoints.len() == 0 {
        ledger.state = state;
        return Ok(action("checkpoint_impact"));
    }
    assert(ledger@.config.terms.impact.checkpoints[0]
        == ledger.config.terms.impact.checkpoints@[0]@);
    let point = match evaluate_checkpoint(
        &ledger.config.terms.impact.checkpoints[0],
        retired_total,
    ) {
        Ok(point) => point,
        Err(e) => {
            return Err(ContractError::Std(e));
        },
    };
    ledger.state = state;
    ledger.state.last_impact = Some(point);
    Ok(action("checkpoint_impact"))
}

/// What `execute_transfer` does: both records are brought up to date, the
/// caller's first; then `amount` bond tokens move from the caller to the
/// recipient. The totals of the series do not change, and a transfer to
/// oneself leaves the balance as it was.
pub open spec fn transfer_spec(
    v: LedgerView,
    now: u64,
    info: MessageInfoView,
    recipient: Seq<char>,
    amount: Seq<char>,
) -> Outcome {
    match entered(v, now) {
        Err(e) => Err(e),
        Ok(state) => {
            let g = state.global_interest_index;
            match synced(account_at(v.holders, g, info.sender), g) {
                Err(e) => Err(e),
                Ok(from) => {
                    let first = with_account(v.holders, info.sender, from);
                    match synced(account_at(first, g, recipient), g) {
                        Err(e) => Err(e),
                        Ok(to) => {
                            let second = with_account(first, recipient, to);
                            match parse_u128_spec(amount) {
                                Err(e) => Err(ContractErrorView::Std(e)),
                                Ok(moved) => {
                                    let holding = account_at(second, g, info.sender);
                                    if moved == 0 || moved > holding.balance {
                                        Err(ContractErrorView::InsufficientFunds)
                                    } else {
                                        let third = with_account(
                                            second,
                                            info.sender,
                                            AccountIndex {
                                                balance: (holding.balance - moved) as u128,
                                                ..holding
                                            },
                                        );
                                        let receiving = account_at(third, g, recipient);
                                        Ok(
                                            (
                                                LedgerView {
                                                    state,
                                                    holders: with_account(
                                                        third,
                                                        recipient,
                                                        AccountIndex {
                                                            balance: (receiving.balance
                                                                + moved) as u128,
                                                            ..receiving
                                                        },
                                                    ),
                                                    ..v
                                                },
                                                noted(
                                                    seq![
                                                        attr("action"@, "transfer"@),
                                                        attr("from"@, info.sender),
                                                        attr("to"@, recipient),
                                                        attr("amount"@, amount),
                                                    ],
                                                ),
                                            ),
                                        )
                                    }
                                },
                            }
                        },
                    }
                },
            }
        },
    }
}

/// Moves bond tokens from the caller to `recipient`. The host has checked
/// that `recipient` is an address.
#[verifier::rlimit(40)]
pub fn execute_transfer(
    ledger: &mut Ledger,
    env: &Env,
    info: &MessageInfo,
    recipient: String,
    amount: String,
) -> (r: Result<Response, ContractError>)
    requires
        old(ledger).wf(),
    ensures
        final(ledger).wf(),
        ends_as(
            r,
            old(ledger)@,
            final(ledger)@,
            transfer_spec(old(ledger)@, env.block_time, info@, recipient@, amount@),
        ),
{
    let state = enter(ledger, env)?;
    let g = state.global_interest_index;
    let ghost v = ledger@;
    let from = sync_record(load_account(&ledger.holders, g, &info.sender), g)?;
    let ghost first = with_account(v.holders, info@.sender, from);
    proof {
        lemma_with_account(v.holders, g, info@.sender, from);
        lemma_synced_idempotent(account_at(v.holders, g, info@.sender), g);
    }
    let same = info.sender == recipient;
    let to = if same {
        from
    } else {
        sync_record(load_account(&ledger.holders, g, &recipient), g)?
    };
    let ghost second = with_account(first, recipient@, to);
    proof {
        lemma_with_account(first, g, recipient@, to);
    }
    let moved = parse_amount(&amount)?;
    if moved == 0 || moved > from.balance {
        return Err(ContractError::InsufficientFunds);
    }
    let debited = AccountIndex {
        balance: from.balance - moved,
        index: from.index,
        accrued: from.accrued,
    };
    let ghost third = with_account(second, info@.sender, debited);
    proof {
        lemma_with_account(second, g, info@.sender, debited);
        lemma_store_keeps_well_formed(v, state, info@.sender, from, v.redeemed);
        let v1 = LedgerView { state, holders: first, ..v };
        lemma_store_keeps_well_formed(v1, state, recipient@, to, v.redeemed);
        let receiving = account_at(third, g, recipient@);
        lemma_with_account(
            third,
            g,
            recipient@,
            AccountIndex { balance: (receiving.balance + moved) as u128, ..receiving },
        );
        assert(receiving.balance + moved <= u128::MAX);
    }
    ledger.state = state;
    store_account(&mut ledger.holders, &info.sender, from);
    store_account(&mut ledger.holders, &recipient, to);
    store_account(&mut ledger.holders, &info.sender, debited);
    let receiving = load_account(&ledger.holders, g, &recipient);
    let credited = AccountIndex {
        balance: receiving.balance + moved,
        index: receiving.index,
        accrued: receiving.accrued,
    };
    store_account(&mut ledger.holders, &recipient, credited);
    let mut response = action("transfer");
    response.add_attribute("from", info.sender.clone());
    response.add_attribute("to", recipient);
    response.add_attribute("amount", amount);
    assert(response@.attributes == seq![
        attr("action"@, "transfer"@),
        attr("from"@, info@.sender),
        attr("to"@, recipient@),
        attr("amount"@, amount@),
    ]);
    Ok(response)
}

/// The totals of a series that was created at `now`: nothing sold, nothing
/// locked, the sale closed, the index at one whole.
pub open spec fn initial_state(now: u64) -> SeriesState {
    SeriesState {
        sale_open: false,
        paused: false,
        total_principal_sold: 0,
        total_principal_outstanding: 0,
        collateral_locked: 0,
        global_interest_index: INDEX_SCALE,
        last_accrual_ts: now,
        last_price: None,
        last_impact: None,
    }
}

/// What `instantiate` does: terms that name both assets and mature after
/// `now` make a series without holders.
pub open spec fn instantiate_spec(now: u64, msg: InstantiateMsgView) -> Outcome {
    if msg.terms.collateral_denom.len() == 0 || msg.terms.principal_denom.len() == 0 {
        Err(ContractErrorView::InvalidConfig("missing denom"@))
    } else if msg.terms.maturity_ts <= now {
        Err(ContractErrorView::InvalidConfig("maturity must be in future"@))
    } else {
        Ok(
            (
                LedgerView {
                    config: ConfigView {
                        admin: msg.admin,
                        protocol_fee_bps: msg.protocol_fee_bps,
                        fee_recipient: msg.fee_recipient,
                        terms: msg.terms,
                    },
                    state: initial_state(now),
                    holders: Seq::empty(),
                    redeemed: 0,
                },
                noted(seq![attr("action"@, "instantiate"@)]),
            ),
        )
    }
}

/// Creates a series.
pub fn instantiate(env: &Env, _info: &MessageInfo, msg: InstantiateMsg) -> (r: Result<
    (Ledger, Response),
    ContractError,
>)
    ensures
        match instantiate_spec(env.block_time, msg@) {
            Ok((v, response)) => r is Ok && r->Ok_0.0@ == v && r->Ok_0.0.wf() && r->Ok_0.1@
                == response,
            Err(e) => r is Err && r->Err_0@ == e,
        },
{
    if msg.terms.collateral_denom.as_str().is_empty() || msg.terms.principal_denom.as_str().is_empty() {
        return Err(ContractError::InvalidConfig(String::from_str("missing denom")));
    }
    if msg.terms.maturity_ts <= now_ts(env) {
        return Err(ContractError::InvalidConfig(String::from_str("maturity must be in future")));
    }
    let config = Config {
        admin: msg.admin,
        protocol_fee_bps: msg.protocol_fee_bps,
        fee_recipient: msg.fee_recipient,
        terms: msg.terms,
    };
    let state = SeriesState {
        sale_open: false,
        paused: false,
        total_principal_sold: 0,
        total_principal_outstanding: 0,
        collateral_locked: 0,
        global_interest_index: INDEX_SCALE,
        last_accrual_ts: now_ts(env),
        last_price: None,
        last_impact: None,
    };
    let ledger = Ledger { config, state, holders: Vec::new(), redeemed: Ghost(0) };
    assert(ledger@.holders == Seq::<HolderView>::empty());
    Ok((ledger, action("instantiate")))
}

/// What `execute` does: what the call named by `msg` does.
pub open spec fn execute_spec(
    v: LedgerView,
    now: u64,
    info: MessageInfoView,
    msg: ExecuteMsg,
    readings: Readings,
) -> Outcome {
    match msg {
        ExecuteMsg::DepositCollateral {  } => deposit_collateral_spec(v, now, info),
        ExecuteMsg::OpenSale {  } => open_sale_spec(v, now, info),
        ExecuteMsg::Buy { min_tokens } => buy_spec(v, now, info),
        ExecuteMsg::Repay {  } => repay_spec(v, now, info),
        ExecuteMsg::ClaimInterest {  } => claim_interest_spec(v, now, info),
        ExecuteMsg::RedeemAtMaturity { amount } => redeem_at_maturity_spec(v, now, info, amount@),
        ExecuteMsg::Liquidate { max_repay } => liquidate_spec(v, now, info, max_repay@),
        ExecuteMsg::UpdateOraclePrice {  } => update_oracle_price_spec(v, now, readings.price),
        ExecuteMsg::CheckpointImpact {  } => checkpoint_impact_spec(
            v,
            now,
            readings.retired_total,
        ),
        ExecuteMsg::Pause {  } => pause_spec(v, now, info),
        ExecuteMsg::Unpause {  } => unpause_spec(v, now, info),
        ExecuteMsg::Transfer { recipient, amount } => transfer_spec(
            v,
            now,
            info,
            recipient@,
            amount@,
        ),
    }
}

/// Makes the call that `msg` names. `readings` holds what the host read
/// from the oracle and the registry for this call.
pub fn execute(
    ledger: &mut Ledger,
    env: &Env,
    info: &MessageInfo,
    msg: ExecuteMsg,
    readings: &Readings,
) -> (r: Result<Response, ContractError>)
    requires
        old(ledger).wf(),
    ensures
        final(ledger).wf(),
        ends_as(
            r,
            old(ledger)@,
            final(ledger)@,
            execute_spec(old(ledger)@, env.block_time, info@, msg, *readings),
        ),
{
    match msg {
        ExecuteMsg::DepositCollateral {  } => execute_deposit_collateral(ledger, env, info),
        ExecuteMsg::OpenSale {  } => execute_open_sale(ledger, env, info),
        ExecuteMsg::Buy { min_tokens } => execute_buy(ledger, env, info, min_tokens),
        ExecuteMsg::Repay {  } => execute_repay(ledger, env, info),
        ExecuteMsg::ClaimInterest {  } => execute_claim_interest(ledger, env, info),
        ExecuteMsg::RedeemAtMaturity { amount } => execute_redeem_at_maturity(
            ledger,
            env,
            info,
            amount,
        ),
        ExecuteMsg::Liquidate { max_repay } => execute_liquidate(ledger, env, info, max_repay),
        ExecuteMsg::UpdateOraclePrice {  } => execute_update_oracle_price(
            ledger,
            env,
            info,
            readings.price,
        ),
        ExecuteMsg::CheckpointImpact {  } => execute_checkpoint_impact(
            ledger,
            env,
            info,
            readings.retired_total,
        ),
        ExecuteMsg::Pause {  } => execute_pause(ledger, env, info),
        ExecuteMsg::Unpause {  } => execute_unpause(ledger, env, info),
        ExecuteMsg::Transfer { recipient, amount } => execute_transfer(
            ledger,
            env,
            info,
            recipient,
            amount,
        ),
    }
}

/// The terms and the configuration around them.
pub open spec fn terms_answer(v: LedgerView) -> TermsResponseView {
    TermsResponseView {
        terms: v.config.terms,
        admin: v.config.admin,
        protocol_fee_bps: v.config.protocol_fee_bps,
        fee_recipient: v.config.fee_recipient,
    }
}

/// Answers with the terms.
pub fn query_terms(ledger: &Ledger) -> (r: TermsResponse)
    ensures
        r@ == terms_answer(ledger@),
{
    TermsResponse {
        terms: ledger.config.terms.duplicate(),
        admin: ledger.config.admin.clone(),
        protocol_fee_bps: ledger.config.protocol_fee_bps,
        fee_recipient: ledger.config.fee_recipient.clone(),
    }
}

/// A price reading in text; price zero at time zero where there is none.
pub open spec fn price_answer(reading: Option<PricePoint>) -> PriceStatusView {
    match reading {
        Some(p) => PriceStatusView { price: decimal(p.price as nat), ts: p.ts },
        None => PriceStatusView { price: decimal(0), ts: 0 },
    }
}

/// An impact record in text; an unmet record of zeros where there is none.
pub open spec fn impact_answer(record: Option<ImpactPoint>) -> ImpactStatusView {
    match record {
        Some(i) => ImpactStatusView {
            checkpoint_ts: i.checkpoint_ts,
            retired_total: decimal(i.retired_total as nat),
            target_retired: decimal(i.target_retired as nat),
            met: i.met,
        },
        None => ImpactStatusView {
            checkpoint_ts: 0,
            retired_total: decimal(0),
            target_retired: decimal(0),
            met: false,
        },
    }
}

/// The totals in text.
pub open spec fn state_answer(state: SeriesState) -> StateResponseView {
    StateResponseView {
        sale_open: state.sale_open,
        paused: state.paused,
        total_principal_sold: decimal(state.total_principal_sold as nat),
        total_principal_outstanding: decimal(state.total_principal_outstanding as nat),
        collateral_locked: decimal(state.collateral_locked as nat),
        global_interest_index: decimal(state.global_interest_index as nat),
        last_accrual_ts: state.last_accrual_ts,
        last_price: match state.last_price {
            Some(p) => Some(price_answer(Some(p))),
            None => None,
        },
        last_impact: match state.last_impact {
            Some(i) => Some(impact_answer(Some(i))),
            None => None,
        },
    }
}

fn price_status(reading: Option<PricePoint>) -> (r: PriceStatusResponse)
    ensures
        r@ == price_answer(reading),
{
    match reading {
        Some(p) => PriceStatusResponse { price: to_string_u128(p.price), ts: p.ts },
        None => PriceStatusResponse { price: to_string_u128(0), ts: 0 },
    }
}

fn impact_status(record: Option<ImpactPoint>) -> (r: ImpactStatusResponse)
    ensures
        r@ == impact_answer(record),
{
    match record {
        Some(i) => ImpactStatusResponse {
            checkpoint_ts: i.checkpoint_ts,
            retired_total: to_string_u128(i.retired_total),
            target_retired: to_string_u128(i.target_retired),
            met: i.met,
        },
        None => ImpactStatusResponse {
            checkpoint_ts: 0,
            retired_total: to_string_u128(0),
            target_retired: to_string_u128(0),
            met: false,
        },
    }
}

/// Answers with the totals.
pub fn query_state(ledger: &Ledger) -> (r: StateResponse)
    ensures
        r@ == state_answer(ledger@.state),
{
    let st = ledger.state;
    StateResponse {
        sale_open: st.sale_open,
        paused: st.paused,
        total_principal_sold: to_string_u128(st.total_principal_sold),
        total_principal_outstanding: to_string_u128(st.total_principal_outstanding),
        collateral_locked: to_string_u128(st.collateral_locked),
        global_interest_index: to_string_u128(st.global_interest_index),
        last_accrual_ts: st.last_accrual_ts,
        last_price: match st.last_price {
            Some(p) => Some(price_status(Some(p))),
            None => None,
        },
        last_impact: match st.last_impact {
            Some(i) => Some(impact_status(Some(i))),
            None => None,
        },
    }
}

/// The record that a query reads for `address`: the stored one, or a fresh
/// one.
pub open spec fn queried_account(v: LedgerView, address: Seq<char>) -> AccountIndex {
    account_at(v.holders, v.state.global_interest_index, address)
}

/// Answers with the bond tokens that `address` holds.
pub fn query_balance(ledger: &Ledger, address: String) -> (r: BalanceResponse)
    requires
        ledger.wf(),
    ensures
        r.balance@ == decimal(queried_account(ledger@, address@).balance as nat),
{
    let account = load_account(&ledger.holders, ledger.state.global_interest_index, &address);
    BalanceResponse { balance: to_string_u128(account.balance) }
}

/// Answers with the interest that had accrued to `address` when its record
/// was last brought up to date.
pub fn query_accrued(ledger: &Ledger, address: String) -> (r: AccruedInterestResponse)
    requires
        ledger.wf(),
    ensures
        r.accrued@ == decimal(queried_account(ledger@, address@).accrued as nat),
{
    let account = load_account(&ledger.holders, ledger.state.global_interest_index, &address);
    AccruedInterestResponse { accrued: to_string_u128(account.accrued) }
}

/// The price of the series at `now`, where its last reading is fresh.
pub open spec fn fresh_price(v: LedgerView, now: u64) -> Option<u128> {
    price_at(v.state.last_price, now, v.config.terms.oracle.max_price_age_seconds)
}

/// The collateral ratio of the series at `now`.
pub open spec fn ratio_answer(v: LedgerView, now: u64) -> Option<u32> {
    collateral_ratio_spec(
        v.state.collateral_locked,
        fresh_price(v, now),
        v.state.total_principal_outstanding,
    )
}

/// Answers with the collateral ratio, unknown without a fresh price.
pub fn query_collateral_ratio(ledger: &Ledger, env: &Env) -> (r: CollateralRatioResponse)
    ensures
        r.ratio_bps == ratio_answer(ledger@, env.block_time),
{
    let price = usable_price(
        &ledger.state,
        now_ts(env),
        ledger.config.terms.oracle.max_price_age_seconds,
    );
    CollateralRatioResponse {
        ratio_bps: collateral_ratio(
            ledger.state.collateral_locked,
            price,
            ledger.state.total_principal_outstanding,
        ),
    }
}

/// Whether the series may be liquidated at the block time: its collateral
/// ratio is known and below the liquidation ratio of the terms.
pub fn is_liquidatable(ledger: &Ledger, env: &Env) -> (r: bool)
    ensures
        r == liquidatable_spec(
            ratio_answer(ledger@, env.block_time),
            ledger@.config.terms.liquidation_ratio_bps,
        ),
{
    liquidatable(
        query_collateral_ratio(ledger, env).ratio_bps,
        ledger.config.terms.liquidation_ratio_bps,
    )
}

/// Answers with the last price reading.
pub fn query_price_status(ledger: &Ledger) -> (r: PriceStatusResponse)
    ensures
        r@ == price_answer(ledger@.state.last_price),
{
    price_status(ledger.state.last_price)
}

/// Answers with the last impact record.
pub fn query_impact_status(ledger: &Ledger) -> (r: ImpactStatusResponse)
    ensures
        r@ == impact_answer(ledger@.state.last_impact),
{
    impact_status(ledger.state.last_impact)
}

/// Whether `r` answers the query `msg` on the series `v` at `now`.
pub open spec fn answers(r: QueryResponse, v: LedgerView, now: u64, msg: QueryMsg) -> bool {
    match msg {
        QueryMsg::Terms {  } => r matches QueryResponse::Terms(a) && a@ == terms_answer(v),
        QueryMsg::State {  } => r matches QueryResponse::State(a) && a@ == state_answer(v.state),
        QueryMsg::Balance { address } => r matches QueryResponse::Balance(a) && a.balance@
            == decimal(queried_account(v, address@).balance as nat),
        QueryMsg::AccruedInterest { address } => r matches QueryResponse::AccruedInterest(a)
            && a.accrued@ == decimal(queried_account(v, address@).accrued as nat),
        QueryMsg::CollateralRatio {  } => r matches QueryResponse::CollateralRatio(a)
            && a.ratio_bps == ratio_answer(v, now),
        QueryMsg::PriceStatus {  } => r matches QueryResponse::PriceStatus(a) && a@
            == price_answer(v.state.last_price),
        QueryMsg::ImpactStatus {  } => r matches QueryResponse::ImpactStatus(a) && a@
            == impact_answer(v.state.last_impact),
    }
}

/// Answers a query. A query reads the series as it is stored: it neither
/// accrues nor heeds the pause.
pub fn query(ledger: &Ledger, env: &Env, msg: QueryMsg) -> (r: QueryResponse)
    requires
        ledger.wf(),
    ensures
        answers(r, ledger@, env.block_time, msg),
{
    match msg {
        QueryMsg::Terms {  } => QueryResponse::Terms(query_terms(ledger)),
        QueryMsg::State {  } => QueryResponse::State(query_state(ledger)),
        QueryMsg::Balance { address } => QueryResponse::Balance(query_balance(ledger, address)),
        QueryMsg::AccruedInterest { address } => QueryResponse::AccruedInterest(
            query_accrued(ledger, address),
        ),
        QueryMsg::CollateralRatio {  } => QueryResponse::CollateralRatio(
            query_collateral_ratio(ledger, env),
        ),
        QueryMsg::PriceStatus {  } => QueryResponse::PriceStatus(query_price_status(ledger)),
        QueryMsg::ImpactStatus {  } => QueryResponse::ImpactStatus(query_impact_status(ledger)),
    }
}

} // verus!
