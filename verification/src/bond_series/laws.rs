//! What holds of every series, whatever calls were made on it.

use vstd::prelude::*;
use crate::host::MessageInfoView;
use crate::host::PaymentErrorView;
use crate::host::ResponseView;
use crate::host::StdErrorView;
use crate::host::must_pay_spec;
use crate::bond_series::collateral::seized;
use crate::bond_series::contract::accrual;
use crate::bond_series::contract::accrue_spec;
use crate::bond_series::contract::accrued;
use crate::bond_series::contract::buy_spec;
use crate::bond_series::contract::checkpoint_impact_spec;
use crate::bond_series::contract::claim_interest_spec;
use crate::bond_series::contract::deposit_collateral_spec;
use crate::bond_series::contract::entered;
use crate::bond_series::contract::execute_spec;
use crate::bond_series::contract::fails;
use crate::bond_series::contract::instantiate_spec;
use crate::bond_series::contract::lemma_store_keeps_well_formed;
use crate::bond_series::contract::lemma_synced_idempotent;
use crate::bond_series::contract::liquidate_spec;
use crate::bond_series::contract::may_liquidate;
use crate::bond_series::contract::price_at;
use crate::bond_series::contract::open_sale_spec;
use crate::bond_series::contract::pause_spec;
use crate::bond_series::contract::protocol_fee;
use crate::bond_series::contract::purchase_payments;
use crate::bond_series::contract::redeem_at_maturity_spec;
use crate::bond_series::contract::repay_spec;
use crate::bond_series::contract::sync_account_spec;
use crate::bond_series::contract::synced;
use crate::bond_series::contract::transfer_spec;
use crate::bond_series::contract::unpause_spec;
use crate::bond_series::contract::update_oracle_price_spec;
use crate::bond_series::contract::Outcome;
use crate::bond_series::contract::Readings;
use crate::bond_series::error::ContractErrorView;
use crate::bond_series::math::parse_u128_spec;
use crate::bond_series::msg::ExecuteMsg;
use crate::bond_series::msg::InstantiateMsgView;
use crate::bond_series::state::account_at;
use crate::bond_series::state::distinct_addresses;
use crate::bond_series::state::has_holder;
use crate::bond_series::state::lemma_with_account;
use crate::bond_series::state::total_balance;
use crate::bond_series::state::well_formed;
use crate::bond_series::state::with_account;
use crate::bond_series::state::AccountIndex;
use crate::bond_series::state::ConfigView;
use crate::bond_series::state::HolderView;
use crate::bond_series::state::LedgerView;
use crate::bond_series::state::SeriesState;

verus! {

/// A series that was just created is well formed: its balances add up to
/// what was sold less what was redeemed, all three being zero.
pub proof fn lemma_instantiate_well_formed(now: u64, msg: InstantiateMsgView)
    ensures
        instantiate_spec(now, msg) matches Ok((v, _)) ==> well_formed(v) && total_balance(
            v.holders,
        ) == 0,
{
}

/// A transfer keeps a series well formed.
#[verifier::rlimit(40)]
pub proof fn lemma_transfer_keeps_well_formed(
    v: LedgerView,
    now: u64,
    info: MessageInfoView,
    recipient: Seq<char>,
    amount: Seq<char>,
)
    requires
        well_formed(v),
    ensures
        transfer_spec(v, now, info, recipient, amount) matches Ok((next, _)) ==> well_formed(next)
            && next.state.total_principal_sold == v.state.total_principal_sold
            && next.state.total_principal_outstanding == v.state.total_principal_outstanding
            && next.redeemed == v.redeemed && total_balance(next.holders) == total_balance(
            v.holders,
        ),
{
    if let Ok((next, _)) = transfer_spec(v, now, info, recipient, amount) {
        let state = entered(v, now)->Ok_0;
        let g = state.global_interest_index;
        let from = synced(account_at(v.holders, g, info.sender), g)->Ok_0;
        let first = with_account(v.holders, info.sender, from);
        let to = synced(account_at(first, g, recipient), g)->Ok_0;
        let second = with_account(first, recipient, to);
        let moved = parse_u128_spec(amount)->Ok_0;
        let holding = account_at(second, g, info.sender);
        let debited = AccountIndex { balance: (holding.balance - moved) as u128, ..holding };
        let third = with_account(second, info.sender, debited);
        let receiving = account_at(third, g, recipient);
        let credited = AccountIndex { balance: (receiving.balance + moved) as u128, ..receiving };
        lemma_with_account(v.holders, g, info.sender, from);
        lemma_store_keeps_well_formed(v, state, info.sender, from, v.redeemed);
        let v1 = LedgerView { state, holders: first, ..v };
        lemma_with_account(first, g, recipient, to);
        lemma_store_keeps_well_formed(v1, state, recipient, to, v.redeemed);
        let v2 = LedgerView { state, holders: second, ..v };
        lemma_with_account(second, g, info.sender, debited);
        lemma_with_account(third, g, recipient, credited);
        assert(holding.index == g);
        assert(receiving.index <= g) by {
            if recipient == info.sender {
            } else {
                assert(receiving == account_at(second, g, recipient));
            }
        }
        assert(receiving.balance + moved <= u128::MAX);
        assert(total_balance(next.holders) == total_balance(v.holders));
        let i3 = LedgerView { state, holders: third, redeemed: (v.redeemed + moved) as nat, ..v };
        assert(well_formed(i3)) by {
            lemma_store_keeps_well_formed(
                v2,
                state,
                info.sender,
                debited,
                (v.redeemed + moved) as nat,
            );
        }
        lemma_store_keeps_well_formed(i3, state, recipient, credited, v.redeemed);
    }
}

/// Every call keeps a series well formed: after it, as before it, the
/// balances add up to what was sold less what was redeemed, and no more
/// principal is outstanding than was sold.
#[verifier::rlimit(40)]
pub proof fn lemma_execute_keeps_well_formed(
    v: LedgerView,
    now: u64,
    info: MessageInfoView,
    msg: ExecuteMsg,
    readings: Readings,
)
    requires
        well_formed(v),
    ensures
        execute_spec(v, now, info, msg, readings) matches Ok((next, _)) ==> well_formed(next)
            && total_balance(next.holders) + next.redeemed == next.state.total_principal_sold
            && next.state.total_principal_outstanding <= next.state.total_principal_sold,
{
    if let Ok((next, _)) = execute_spec(v, now, info, msg, readings) {
        match msg {
            ExecuteMsg::Buy { min_tokens } => {
                let state = entered(v, now)->Ok_0;
                let g = state.global_interest_index;
                let account = synced(account_at(v.holders, g, info.sender), g)->Ok_0;
                let paid = must_pay_spec(info.funds, v.config.terms.principal_denom)->Ok_0;
                lemma_with_account(v.holders, g, info.sender, account);
                lemma_store_keeps_well_formed(
                    v,
                    next.state,
                    info.sender,
                    AccountIndex { balance: (account.balance + paid) as u128, ..account },
                    v.redeemed,
                );
            },
            ExecuteMsg::ClaimInterest {  } => {
                let state = entered(v, now)->Ok_0;
                let g = state.global_interest_index;
                let account = synced(account_at(v.holders, g, info.sender), g)->Ok_0;
                lemma_store_keeps_well_formed(
                    v,
                    state,
                    info.sender,
                    AccountIndex { accrued: 0, ..account },
                    v.redeemed,
                );
            },
            ExecuteMsg::RedeemAtMaturity { amount } => {
                let state = entered(v, now)->Ok_0;
                let g = state.global_interest_index;
                let account = synced(account_at(v.holders, g, info.sender), g)->Ok_0;
                let burned = parse_u128_spec(amount@)->Ok_0;
                lemma_with_account(v.holders, g, info.sender, account);
                lemma_store_keeps_well_formed(
                    v,
                    next.state,
                    info.sender,
                    AccountIndex { balance: (account.balance - burned) as u128, ..account },
                    next.redeemed,
                );
            },
            ExecuteMsg::Transfer { recipient, amount } => {
                lemma_transfer_keeps_well_formed(v, now, info, recipient@, amount@);
            },
            _ => {},
        }
    }
}

/// What a call does to the sum of the balances: a purchase adds the payment
/// to it and to what was sold, a redemption moves the burned amount from it
/// to what was redeemed, and no other call touches either.
#[verifier::rlimit(40)]
pub proof fn lemma_execute_moves_balances(
    v: LedgerView,
    now: u64,
    info: MessageInfoView,
    msg: ExecuteMsg,
    readings: Readings,
)
    requires
        well_formed(v),
    ensures
        execute_spec(v, now, info, msg, readings) matches Ok((next, _)) ==> match msg {
            ExecuteMsg::Buy { min_tokens } => next.redeemed == v.redeemed && total_balance(
                next.holders,
            ) - total_balance(v.holders) == next.state.total_principal_sold
                - v.state.total_principal_sold && must_pay_spec(
                info.funds,
                v.config.terms.principal_denom,
            ) == Ok::<u128, PaymentErrorView>(
                (next.state.total_principal_sold - v.state.total_principal_sold) as u128,
            ),
            ExecuteMsg::RedeemAtMaturity { amount } => next.state.total_principal_sold
                == v.state.total_principal_sold && total_balance(v.holders) - total_balance(
                next.holders,
            ) == next.redeemed - v.redeemed && parse_u128_spec(amount@) == Ok::<
                u128,
                StdErrorView,
            >((next.redeemed - v.redeemed) as u128),
            _ => next.state.total_principal_sold == v.state.total_principal_sold && next.redeemed
                == v.redeemed && total_balance(next.holders) == total_balance(v.holders),
        },
{
    lemma_execute_keeps_well_formed(v, now, info, msg, readings);
    if let Ok((next, _)) = execute_spec(v, now, info, msg, readings) {
        match msg {
            ExecuteMsg::Transfer { recipient, amount } => {
                lemma_transfer_keeps_well_formed(v, now, info, recipient@, amount@);
            },
            _ => {},
        }
    }
}

/// Whether a call that ended as `outcome` left the index and the clock of
/// the accrual where accruing to `now` puts them.
pub open spec fn accrues(v: LedgerView, now: u64, outcome: Outcome) -> bool {
    outcome matches Ok((next, _)) ==> accrued(v, now) is Ok && next.state.global_interest_index
        == accrued(v, now)->Ok_0.global_interest_index && next.state.last_accrual_ts == accrued(
        v,
        now,
    )->Ok_0.last_accrual_ts
}

proof fn lemma_transfer_accrues(
    v: LedgerView,
    now: u64,
    info: MessageInfoView,
    recipient: Seq<char>,
    amount: Seq<char>,
)
    ensures
        accrues(v, now, transfer_spec(v, now, info, recipient, amount)),
{
    if let Ok(state) = entered(v, now) {
        let g = state.global_interest_index;
        if let Ok(from) = synced(account_at(v.holders, g, info.sender), g) {
            let first = with_account(v.holders, info.sender, from);
            if let Ok(to) = synced(account_at(first, g, recipient), g) {
            }
        }
    }
}

proof fn lemma_account_calls_accrue(
    v: LedgerView,
    now: u64,
    info: MessageInfoView,
    amount: Seq<char>,
)
    ensures
        accrues(v, now, buy_spec(v, now, info)),
        accrues(v, now, claim_interest_spec(v, now, info)),
        accrues(v, now, redeem_at_maturity_spec(v, now, info, amount)),
{
}

proof fn lemma_total_calls_accrue(
    v: LedgerView,
    now: u64,
    info: MessageInfoView,
    amount: Seq<char>,
    readings: Readings,
)
    ensures
        accrues(v, now, deposit_collateral_spec(v, now, info)),
        accrues(v, now, open_sale_spec(v, now, info)),
        accrues(v, now, repay_spec(v, now, info)),
        accrues(v, now, liquidate_spec(v, now, info, amount)),
        accrues(v, now, update_oracle_price_spec(v, now, readings.price)),
        accrues(v, now, checkpoint_impact_spec(v, now, readings.retired_total)),
        accrues(v, now, pause_spec(v, now, info)),
        accrues(v, now, unpause_spec(v, now, info)),
{
}

/// Every call that succeeds brings the index up to the block time.
#[verifier::rlimit(40)]
pub proof fn lemma_execute_accrues(
    v: LedgerView,
    now: u64,
    info: MessageInfoView,
    msg: ExecuteMsg,
    readings: Readings,
)
    ensures
        accrues(v, now, execute_spec(v, now, info, msg, readings)),
{
    match msg {
        ExecuteMsg::Buy { min_tokens } => {
            lemma_account_calls_accrue(v, now, info, Seq::empty());
        },
        ExecuteMsg::ClaimInterest {  } => {
            lemma_account_calls_accrue(v, now, info, Seq::empty());
        },
        ExecuteMsg::RedeemAtMaturity { amount } => {
            lemma_account_calls_accrue(v, now, info, amount@);
        },
        ExecuteMsg::Liquidate { max_repay } => {
            lemma_total_calls_accrue(v, now, info, max_repay@, readings);
        },
        ExecuteMsg::Transfer { recipient, amount } => {
            lemma_transfer_accrues(v, now, info, recipient@, amount@);
        },
        _ => {
            lemma_total_calls_accrue(v, now, info, Seq::empty(), readings);
        },
    }
}

/// No call lowers the interest index, nor sets the clock of the accrual
/// back: after a call that succeeded, the index is brought up to the block
/// time, and the last accrual is no later than the block time if it was not
/// before the call.
pub proof fn lemma_index_never_falls(
    v: LedgerView,
    now: u64,
    info: MessageInfoView,
    msg: ExecuteMsg,
    readings: Readings,
)
    ensures
        execute_spec(v, now, info, msg, readings) matches Ok((next, _))
            ==> next.state.global_interest_index >= v.state.global_interest_index
            && next.state.last_accrual_ts >= v.state.last_accrual_ts && next.state.last_accrual_ts
            >= now && (v.state.last_accrual_ts <= now ==> next.state.last_accrual_ts == now),
{
    lemma_execute_accrues(v, now, info, msg, readings);
}

/// A call at the block time of the last accrual leaves the index where it
/// is.
pub proof fn lemma_index_rests_within_a_block(
    v: LedgerView,
    now: u64,
    info: MessageInfoView,
    msg: ExecuteMsg,
    readings: Readings,
)
    requires
        now <= v.state.last_accrual_ts,
    ensures
        accrued(v, now) == Ok::<SeriesState, ContractErrorView>(v.state),
        execute_spec(v, now, info, msg, readings) matches Ok((next, _))
            ==> next.state.global_interest_index == v.state.global_interest_index
            && next.state.last_accrual_ts == v.state.last_accrual_ts,
{
    lemma_execute_accrues(v, now, info, msg, readings);
}

/// The payments of a purchase add up to the payment that was made: the fee
/// and the rest, with nothing lost and nothing made.
pub proof fn lemma_purchase_pays_out_the_payment(
    config: ConfigView,
    paid: u128,
)
    requires
        protocol_fee(paid, config.protocol_fee_bps) <= paid,
    ensures
        ({
            let payments = purchase_payments(config, paid);
            let fee = protocol_fee(paid, config.protocol_fee_bps);
            if fee > 0 {
                payments.len() == 2 && payments[0].amount == fee && payments[0].amount
                    + payments[1].amount == paid
            } else {
                payments.len() == 1 && payments[0].amount == paid
            }
        }),
{
}

/// A purchase that succeeds pays out exactly what was paid in.
pub proof fn lemma_buy_splits_exactly(v: LedgerView, now: u64, info: MessageInfoView)
    ensures
        buy_spec(v, now, info) matches Ok((_, response)) ==> {
            let paid = must_pay_spec(info.funds, v.config.terms.principal_denom)->Ok_0;
            &&& must_pay_spec(info.funds, v.config.terms.principal_denom) is Ok
            &&& response.messages == purchase_payments(v.config, paid)
            &&& protocol_fee(paid, v.config.protocol_fee_bps) <= paid
            &&& response.messages.last().amount + protocol_fee(paid, v.config.protocol_fee_bps)
                == paid
        },
{
}

/// Before the sale is opened, a purchase fails with `SaleNotOpen`.
pub proof fn lemma_buy_before_open_sale(v: LedgerView, now: u64, info: MessageInfoView)
    requires
        accrued(v, now) is Ok,
        !v.state.paused,
        !v.state.sale_open,
    ensures
        buy_spec(v, now, info) == fails(ContractErrorView::SaleNotOpen),
{
}

/// From maturity on, a purchase fails with `Matured`.
pub proof fn lemma_buy_after_maturity(v: LedgerView, now: u64, info: MessageInfoView)
    requires
        accrued(v, now) is Ok,
        !v.state.paused,
        v.state.sale_open,
        now >= v.config.terms.maturity_ts,
    ensures
        buy_spec(v, now, info) == fails(ContractErrorView::Matured),
{
}

/// Before maturity, a redemption fails with `NotMatured`.
pub proof fn lemma_redeem_before_maturity(
    v: LedgerView,
    now: u64,
    info: MessageInfoView,
    amount: Seq<char>,
)
    requires
        accrued(v, now) is Ok,
        !v.state.paused,
        now < v.config.terms.maturity_ts,
    ensures
        redeem_at_maturity_spec(v, now, info, amount) == fails(ContractErrorView::NotMatured),
{
}

/// The record of a caller as a call sees it: brought up to date with the
/// index accrued to `now`.
pub open spec fn caller_account(v: LedgerView, now: u64, caller: Seq<char>) -> Result<
    AccountIndex,
    ContractErrorView,
> {
    match accrued(v, now) {
        Err(e) => Err(e),
        Ok(state) => synced(
            account_at(v.holders, state.global_interest_index, caller),
            state.global_interest_index,
        ),
    }
}

/// A caller to whom nothing has accrued claims nothing.
pub proof fn lemma_claim_nothing(v: LedgerView, now: u64, info: MessageInfoView)
    requires
        !v.state.paused,
        caller_account(v, now, info.sender) matches Ok(account) && account.accrued == 0,
    ensures
        claim_interest_spec(v, now, info) == fails(ContractErrorView::NothingToClaim),
{
}

/// From maturity on, redeeming nothing, or more than the caller holds,
/// fails with `InsufficientFunds`.
pub proof fn lemma_redeem_beyond_balance(
    v: LedgerView,
    now: u64,
    info: MessageInfoView,
    amount: Seq<char>,
)
    requires
        !v.state.paused,
        now >= v.config.terms.maturity_ts,
        caller_account(v, now, info.sender) is Ok,
        parse_u128_spec(amount) matches Ok(burned) && (burned == 0 || burned > caller_account(
            v,
            now,
            info.sender,
        )->Ok_0.balance),
    ensures
        redeem_at_maturity_spec(v, now, info, amount) == fails(ContractErrorView::InsufficientFunds),
{
}

/// Transferring nothing, or more than the caller holds, fails with
/// `InsufficientFunds`.
#[verifier::rlimit(40)]
pub proof fn lemma_transfer_beyond_balance(
    v: LedgerView,
    now: u64,
    info: MessageInfoView,
    recipient: Seq<char>,
    amount: Seq<char>,
)
    requires
        well_formed(v),
        !v.state.paused,
        caller_account(v, now, info.sender) is Ok,
        caller_account(v, now, recipient) is Ok,
        parse_u128_spec(amount) matches Ok(moved) && (moved == 0 || moved > caller_account(
            v,
            now,
            info.sender,
        )->Ok_0.balance),
    ensures
        transfer_spec(v, now, info, recipient, amount) == fails(ContractErrorView::InsufficientFunds),
{
    let state = accrued(v, now)->Ok_0;
    let g = state.global_interest_index;
    let from = synced(account_at(v.holders, g, info.sender), g)->Ok_0;
    let first = with_account(v.holders, info.sender, from);
    lemma_with_account(v.holders, g, info.sender, from);
    lemma_synced_idempotent(account_at(v.holders, g, info.sender), g);
    let to = synced(account_at(first, g, recipient), g)->Ok_0;
    lemma_with_account(first, g, recipient, to);
}

/// Whether a call moves value: a paused series refuses these.
pub open spec fn moves_value(msg: ExecuteMsg) -> bool {
    match msg {
        ExecuteMsg::Buy { min_tokens } => true,
        ExecuteMsg::Repay {  } => true,
        ExecuteMsg::ClaimInterest {  } => true,
        ExecuteMsg::RedeemAtMaturity { amount } => true,
        ExecuteMsg::Liquidate { max_repay } => true,
        ExecuteMsg::Transfer { recipient, amount } => true,
        _ => false,
    }
}

/// A paused series refuses every call that moves value, and every other
/// call but the two that set and lift the pause.
#[verifier::rlimit(40)]
pub proof fn lemma_paused_refuses(
    v: LedgerView,
    now: u64,
    info: MessageInfoView,
    msg: ExecuteMsg,
    readings: Readings,
)
    requires
        v.state.paused,
        accrued(v, now) is Ok,
        moves_value(msg) || !(msg is Pause || msg is Unpause),
    ensures
        execute_spec(v, now, info, msg, readings) == fails(ContractErrorView::Paused),
{
}

/// Once the admin has paused a series, it is paused.
pub proof fn lemma_pause_pauses(v: LedgerView, now: u64, info: MessageInfoView)
    ensures
        pause_spec(v, now, info) matches Ok((next, _)) ==> next.state.paused,
        unpause_spec(v, now, info) matches Ok((next, _)) ==> !next.state.paused,
{
}

/// Without a price reading on record, a liquidation fails with
/// `OracleStale`; once a reading was recorded, a liquidation at the same
/// block time no longer fails for want of a price.
pub proof fn lemma_liquidation_needs_a_price(
    v: LedgerView,
    now: u64,
    info: MessageInfoView,
    max_repay: Seq<char>,
    readings: Readings,
)
    requires
        !v.state.paused,
        accrued(v, now) is Ok,
    ensures
        v.state.last_price is None ==> liquidate_spec(v, now, info, max_repay) == fails(ContractErrorView::OracleStale),
        update_oracle_price_spec(v, now, readings.price) matches Ok((next, _)) ==> liquidate_spec(
            next,
            now,
            info,
            max_repay,
        ) != fails(ContractErrorView::OracleStale),
{
}

/// What has accrued to `address`, whether or not it has a record.
pub open spec fn accrued_to(v: LedgerView, address: Seq<char>) -> u128 {
    account_at(v.holders, v.state.global_interest_index, address).accrued
}

/// Storing a record that has accrued no less than the record it replaces
/// lowers what has accrued to nobody.
pub proof fn lemma_store_keeps_accrued(
    holders: Seq<HolderView>,
    g: u128,
    address: Seq<char>,
    account: AccountIndex,
    other: Seq<char>,
)
    requires
        distinct_addresses(holders),
        account.accrued >= account_at(holders, g, address).accrued,
    ensures
        account_at(with_account(holders, address, account), g, other).accrued >= account_at(
            holders,
            g,
            other,
        ).accrued,
{
    lemma_with_account(holders, g, address, account);
}

/// What has accrued to a holder falls only when the holder claims it: no
/// other call lowers it, for any holder, and a claim pays the caller exactly
/// what had accrued to it and leaves it with nothing accrued.
#[verifier::rlimit(40)]
pub proof fn lemma_accrued_falls_only_by_claim(
    v: LedgerView,
    now: u64,
    info: MessageInfoView,
    msg: ExecuteMsg,
    readings: Readings,
    address: Seq<char>,
)
    requires
        well_formed(v),
    ensures
        execute_spec(v, now, info, msg, readings) matches Ok((next, response)) ==> if msg
            is ClaimInterest && address == info.sender {
            &&& accrued_to(next, address) == 0
            &&& response.messages.len() == 1
            &&& response.messages[0].to_address == address
            &&& caller_account(v, now, address) matches Ok(account) && account.accrued
                == response.messages[0].amount
        } else {
            accrued_to(next, address) >= accrued_to(v, address)
        },
{
    if let Ok((next, response)) = execute_spec(v, now, info, msg, readings) {
        let state = accrued(v, now)->Ok_0;
        let g = state.global_interest_index;
        match msg {
            ExecuteMsg::Buy { min_tokens } => {
                let account = synced(account_at(v.holders, g, info.sender), g)->Ok_0;
                let paid = must_pay_spec(info.funds, v.config.terms.principal_denom)->Ok_0;
                lemma_store_keeps_accrued(
                    v.holders,
                    g,
                    info.sender,
                    AccountIndex { balance: (account.balance + paid) as u128, ..account },
                    address,
                );
            },
            ExecuteMsg::ClaimInterest {  } => {
                let account = synced(account_at(v.holders, g, info.sender), g)->Ok_0;
                lemma_with_account(
                    v.holders,
                    g,
                    info.sender,
                    AccountIndex { accrued: 0, ..account },
                );
            },
            ExecuteMsg::RedeemAtMaturity { amount } => {
                let account = synced(account_at(v.holders, g, info.sender), g)->Ok_0;
                let burned = parse_u128_spec(amount@)->Ok_0;
                lemma_store_keeps_accrued(
                    v.holders,
                    g,
                    info.sender,
                    AccountIndex { balance: (account.balance - burned) as u128, ..account },
                    address,
                );
            },
            ExecuteMsg::Transfer { recipient, amount } => {
                let from = synced(account_at(v.holders, g, info.sender), g)->Ok_0;
                let first = with_account(v.holders, info.sender, from);
                let to = synced(account_at(first, g, recipient@), g)->Ok_0;
                let second = with_account(first, recipient@, to);
                let moved = parse_u128_spec(amount@)->Ok_0;
                let holding = account_at(second, g, info.sender);
                let debited = AccountIndex {
                    balance: (holding.balance - moved) as u128,
                    ..holding
                };
                let third = with_account(second, info.sender, debited);
                let receiving = account_at(third, g, recipient@);
                let credited = AccountIndex {
                    balance: (receiving.balance + moved) as u128,
                    ..receiving
                };
                lemma_with_account(v.holders, g, info.sender, from);
                lemma_store_keeps_accrued(v.holders, g, info.sender, from, address);
                lemma_with_account(first, g, recipient@, to);
                lemma_store_keeps_accrued(first, g, recipient@, to, address);
                lemma_with_account(second, g, info.sender, debited);
                lemma_store_keeps_accrued(second, g, info.sender, debited, address);
                lemma_store_keeps_accrued(third, g, recipient@, credited, address);
            },
            _ => {},
        }
    }
}

/// Accrual never lowers the index nor sets the clock back, and touches
/// nothing else.
pub proof fn lemma_accrual_monotonic(state: SeriesState, rate_apr_bps: u32, now: u64)
    ensures
        accrual(state, rate_apr_bps, now) matches Ok(next) ==> {
            &&& next.global_interest_index >= state.global_interest_index
            &&& next.last_accrual_ts >= state.last_accrual_ts
            &&& next.last_accrual_ts >= now
            &&& next == (SeriesState {
                global_interest_index: next.global_interest_index,
                last_accrual_ts: next.last_accrual_ts,
                ..state
            })
        },
{
}

/// Accruing twice at one block time is accruing once.
pub proof fn lemma_accrual_idempotent(state: SeriesState, rate_apr_bps: u32, now: u64)
    ensures
        accrual(state, rate_apr_bps, now) matches Ok(next) ==> accrual(next, rate_apr_bps, now)
            == Ok::<SeriesState, ContractErrorView>(next),
{
}

/// A record never loses accrued interest by being brought up to date.
pub proof fn lemma_synced_grows(account: AccountIndex, global_index: u128)
    ensures
        synced(account, global_index) matches Ok(next) ==> next.accrued >= account.accrued
            && next.balance == account.balance && next.index == global_index,
{
}

/// Accrual keeps a series well formed.
pub proof fn lemma_accrue_keeps_well_formed(v: LedgerView, now: u64)
    requires
        well_formed(v),
    ensures
        accrued(v, now) matches Ok(state) ==> well_formed(LedgerView { state, ..v }),
{
}

/// Accruing a series twice at one block time is accruing it once.
pub proof fn lemma_accrue_idempotent(v: LedgerView, now: u64)
    ensures
        accrue_spec(v, now) matches Ok(next) ==> accrue_spec(next, now) == Ok::<
            LedgerView,
            ContractErrorView,
        >(next),
{
}

/// Bringing the record of a holder up to date twice, with no accrual in
/// between, is doing it once.
pub proof fn lemma_sync_account_idempotent(v: LedgerView, address: Seq<char>)
    requires
        well_formed(v),
    ensures
        sync_account_spec(v, address) matches Ok(next) ==> sync_account_spec(next, address) == Ok::<
            LedgerView,
            ContractErrorView,
        >(next),
{
    let g = v.state.global_interest_index;
    if let Ok(account) = synced(account_at(v.holders, g, address), g) {
        let stored = with_account(v.holders, address, account);
        lemma_with_account(v.holders, g, address, account);
        lemma_synced_idempotent(account_at(v.holders, g, address), g);
        assert(with_account(stored, address, account) =~= stored);
    }
}

/// Evaluating the impact checkpoint again at the same block time and on the
/// same reading overwrites the last impact record with itself.
pub proof fn lemma_checkpoint_impact_idempotent(v: LedgerView, now: u64, retired_total: u128)
    ensures
        checkpoint_impact_spec(v, now, retired_total) matches Ok((next, response))
            ==> checkpoint_impact_spec(next, now, retired_total) == Ok::<
            (LedgerView, ResponseView),
            ContractErrorView,
        >((next, response)),
{
}

/// Storing a record removes the record of nobody.
pub proof fn lemma_store_keeps_records(
    holders: Seq<HolderView>,
    g: u128,
    address: Seq<char>,
    account: AccountIndex,
    other: Seq<char>,
)
    requires
        distinct_addresses(holders),
        has_holder(holders, other),
    ensures
        has_holder(with_account(holders, address, account), other),
{
    lemma_with_account(holders, g, address, account);
}

/// No call deletes a record: a holder that has one keeps it, though its
/// balance may fall to zero.
#[verifier::rlimit(40)]
pub proof fn lemma_records_are_kept(
    v: LedgerView,
    now: u64,
    info: MessageInfoView,
    msg: ExecuteMsg,
    readings: Readings,
    address: Seq<char>,
)
    requires
        well_formed(v),
        has_holder(v.holders, address),
    ensures
        execute_spec(v, now, info, msg, readings) matches Ok((next, _)) ==> has_holder(
            next.holders,
            address,
        ),
{
    if let Ok((next, _)) = execute_spec(v, now, info, msg, readings) {
        let state = accrued(v, now)->Ok_0;
        let g = state.global_interest_index;
        match msg {
            ExecuteMsg::Buy { min_tokens } => {
                let account = synced(account_at(v.holders, g, info.sender), g)->Ok_0;
                let paid = must_pay_spec(info.funds, v.config.terms.principal_denom)->Ok_0;
                lemma_store_keeps_records(
                    v.holders,
                    g,
                    info.sender,
                    AccountIndex { balance: (account.balance + paid) as u128, ..account },
                    address,
                );
            },
            ExecuteMsg::ClaimInterest {  } => {
                let account = synced(account_at(v.holders, g, info.sender), g)->Ok_0;
                lemma_store_keeps_records(
                    v.holders,
                    g,
                    info.sender,
                    AccountIndex { accrued: 0, ..account },
                    address,
                );
            },
            ExecuteMsg::RedeemAtMaturity { amount } => {
                let account = synced(account_at(v.holders, g, info.sender), g)->Ok_0;
                let burned = parse_u128_spec(amount@)->Ok_0;
                lemma_store_keeps_records(
                    v.holders,
                    g,
                    info.sender,
                    AccountIndex { balance: (account.balance - burned) as u128, ..account },
                    address,
                );
            },
            ExecuteMsg::Transfer { recipient, amount } => {
                let from = synced(account_at(v.holders, g, info.sender), g)->Ok_0;
                let first = with_account(v.holders, info.sender, from);
                let to = synced(account_at(first, g, recipient@), g)->Ok_0;
                let second = with_account(first, recipient@, to);
                let moved = parse_u128_spec(amount@)->Ok_0;
                let holding = account_at(second, g, info.sender);
                let debited = AccountIndex {
                    balance: (holding.balance - moved) as u128,
                    ..holding
                };
                let third = with_account(second, info.sender, debited);
                let receiving = account_at(third, g, recipient@);
                let credited = AccountIndex {
                    balance: (receiving.balance + moved) as u128,
                    ..receiving
                };
                lemma_with_account(v.holders, g, info.sender, from);
                lemma_store_keeps_records(v.holders, g, info.sender, from, address);
                lemma_with_account(first, g, recipient@, to);
                lemma_store_keeps_records(first, g, recipient@, to, address);
                lemma_with_account(second, g, info.sender, debited);
                lemma_store_keeps_records(second, g, info.sender, debited, address);
                lemma_store_keeps_records(third, g, recipient@, credited, address);
            },
            _ => {},
        }
    }
}

/// A series whose collateral ratio at the fresh price is not below the
/// liquidation ratio of the terms is not liquidated: the call fails with
/// `CollateralTooLow`, whoever calls and whatever is offered.
pub proof fn lemma_healthy_position_is_not_liquidated(
    v: LedgerView,
    now: u64,
    info: MessageInfoView,
    max_repay: Seq<char>,
)
    requires
        !v.state.paused,
        accrued(v, now) is Ok,
        price_at(v.state.last_price, now, v.config.terms.oracle.max_price_age_seconds) matches Some(
            price,
        ) && !may_liquidate(v.state, price, v.config.terms.liquidation_ratio_bps),
    ensures
        liquidate_spec(v, now, info, max_repay) == fails(ContractErrorView::CollateralTooLow),
{
}

/// Without a price that can be used, the collateral ratio is unknown and
/// nothing is liquidated: the call fails with `OracleStale`.
pub proof fn lemma_unknown_ratio_is_not_liquidated(
    v: LedgerView,
    now: u64,
    info: MessageInfoView,
    max_repay: Seq<char>,
)
    requires
        !v.state.paused,
        accrued(v, now) is Ok,
        price_at(v.state.last_price, now, v.config.terms.oracle.max_price_age_seconds) is None,
    ensures
        liquidate_spec(v, now, info, max_repay) == fails(ContractErrorView::OracleStale),
{
}

/// A series whose collateral ratio at the fresh price is below the
/// liquidation ratio is liquidated by whoever sends principal: the
/// outstanding principal falls by what was repaid, the locked collateral by
/// what the repayment bought, and that collateral is paid to the caller.
pub proof fn lemma_liquidation_succeeds(
    v: LedgerView,
    now: u64,
    info: MessageInfoView,
    max_repay: Seq<char>,
)
    requires
        !v.state.paused,
        accrued(v, now) is Ok,
        price_at(v.state.last_price, now, v.config.terms.oracle.max_price_age_seconds) matches Some(
            price,
        ) && may_liquidate(v.state, price, v.config.terms.liquidation_ratio_bps),
        must_pay_spec(info.funds, v.config.terms.principal_denom) is Ok,
        parse_u128_spec(max_repay) is Ok,
    ensures
        liquidate_spec(v, now, info, max_repay) matches Ok((next, response)) && {
            let price = price_at(
                v.state.last_price,
                now,
                v.config.terms.oracle.max_price_age_seconds,
            )->Some_0;
            let repaid = v.state.total_principal_outstanding
                - next.state.total_principal_outstanding;
            let given = v.state.collateral_locked - next.state.collateral_locked;
            &&& 0 <= repaid <= must_pay_spec(info.funds, v.config.terms.principal_denom)->Ok_0
            &&& repaid <= parse_u128_spec(max_repay)->Ok_0
            &&& repaid == must_pay_spec(info.funds, v.config.terms.principal_denom)->Ok_0
                || repaid == parse_u128_spec(max_repay)->Ok_0 || repaid
                == v.state.total_principal_outstanding
            &&& given == seized(
                repaid as u128,
                price,
                v.config.terms.liquidation_bonus_bps,
                v.state.collateral_locked,
            )
            &&& response.messages.len() == 1
            &&& response.messages[0].amount == given
            &&& response.messages[0].to_address == info.sender
            &&& response.messages[0].denom == v.config.terms.collateral_denom
        },
{
}

} // verus!
