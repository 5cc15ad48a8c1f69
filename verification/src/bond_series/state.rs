//! The persistent state of a bond series: its configuration, the series
//! totals, and one record per holder.

use vstd::prelude::*;
use crate::heb_types::SeriesTerms;
use crate::heb_types::SeriesTermsView;

verus! {

/// One whole unit of price: a price `p` means that one unit of collateral is
/// worth `p / PRICE_SCALE` units of principal.
pub const PRICE_SCALE: u128 = 1_000_000_000_000_000_000;

/// The configuration of a series.
#[derive(Clone, Debug, PartialEq, Eq)]
pub struct Config {
    /// Who may pause and unpause.
    pub admin: String,
    /// Share of each purchase that goes to the fee recipient, in basis points.
    pub protocol_fee_bps: u32,
    pub fee_recipient: String,
    pub terms: SeriesTerms,
}

pub struct ConfigView {
    pub admin: Seq<char>,
    pub protocol_fee_bps: u32,
    pub fee_recipient: Seq<char>,
    pub terms: SeriesTermsView,
}

impl View for Config {
    type V = ConfigView;

    open spec fn view(&self) -> ConfigView {
        ConfigView {
            admin: self.admin@,
            protocol_fee_bps: self.protocol_fee_bps,
            fee_recipient: self.fee_recipient@,
            terms: self.terms@,
        }
    }
}

impl Config {
    /// A copy of this configuration.
    pub fn duplicate(&self) -> (r: Config)
        ensures
            r@ == self@,
    {
        Config {
            admin: self.admin.clone(),
            protocol_fee_bps: self.protocol_fee_bps,
            fee_recipient: self.fee_recipient.clone(),
            terms: self.terms.duplicate(),
        }
    }
}

/// A price reading: the price in units of `PRICE_SCALE`, and when it was
/// taken.
#[derive(Clone, Copy, Debug, PartialEq, Eq)]
pub struct PricePoint {
    pub price: u128,
    pub ts: u64,
}

/// The last evaluation of an impact checkpoint.
#[derive(Clone, Copy, Debug, PartialEq, Eq)]
pub struct ImpactPoint {
    pub checkpoint_ts: u64,
    pub retired_total: u128,
    pub target_retired: u128,
    pub met: bool,
}

/// The totals of a series.
#[derive(Clone, Copy, Debug, PartialEq, Eq)]
pub struct SeriesState {
    pub sale_open: bool,
    pub paused: bool,
    pub total_principal_sold: u128,
    pub total_principal_outstanding: u128,
    pub collateral_locked: u128,
    /// The interest index, in units of `INDEX_SCALE`. It never falls.
    pub global_interest_index: u128,
    /// When the index was last brought up to date.
    pub last_accrual_ts: u64,
    pub last_price: Option<PricePoint>,
    pub last_impact: Option<ImpactPoint>,
}

/// What one holder holds.
#[derive(Clone, Copy, Debug, PartialEq, Eq)]
pub struct AccountIndex {
    /// Bond tokens held.
    pub balance: u128,
    /// The interest index at which `accrued` was last brought up to date.
    pub index: u128,
    /// Interest owed and not yet claimed.
    pub accrued: u128,
}

/// A holder's address and record.
#[derive(Clone, Debug, PartialEq, Eq)]
pub struct Holder {
    pub address: String,
    pub account: AccountIndex,
}

pub struct HolderView {
    pub address: Seq<char>,
    pub account: AccountIndex,
}

impl View for Holder {
    type V = HolderView;

    open spec fn view(&self) -> HolderView {
        HolderView { address: self.address@, account: self.account }
    }
}

/// The holders of a list, as values.
pub open spec fn holders_view(holders: Seq<Holder>) -> Seq<HolderView> {
    holders.map_values(|h: Holder| h@)
}

/// The sum of the balances of `holders`.
pub open spec fn total_balance(holders: Seq<HolderView>) -> nat
    decreases holders.len(),
{
    if holders.len() == 0 {
        0
    } else {
        total_balance(holders.drop_last()) + holders.last().account.balance as nat
    }
}

/// No address occurs twice.
pub open spec fn distinct_addresses(holders: Seq<HolderView>) -> bool {
    forall|i: int, j: int|
        0 <= i < j < holders.len() ==> (#[trigger] holders[i]).address != (
        #[trigger] holders[j]).address
}

/// Whether `address` has a record.
pub open spec fn has_holder(holders: Seq<HolderView>, address: Seq<char>) -> bool {
    exists|i: int| 0 <= i < holders.len() && (#[trigger] holders[i]).address == address
}

/// Where the record of `address` stands, if it has one.
pub open spec fn holder_index(holders: Seq<HolderView>, address: Seq<char>) -> int {
    choose|i: int| 0 <= i < holders.len() && (#[trigger] holders[i]).address == address
}

/// The record that a holder has before its first interaction: nothing held,
/// nothing accrued, up to date with the index `global_index`.
pub open spec fn fresh_account(global_index: u128) -> AccountIndex {
    AccountIndex { balance: 0, index: global_index, accrued: 0 }
}

/// The record of `address`, or a fresh one at `global_index` if it has none.
pub open spec fn account_at(
    holders: Seq<HolderView>,
    global_index: u128,
    address: Seq<char>,
) -> AccountIndex {
    if has_holder(holders, address) {
        holders[holder_index(holders, address)].account
    } else {
        fresh_account(global_index)
    }
}

/// The holders after `account` was stored for `address`: in place where the
/// address has a record, else as a new last record.
pub open spec fn with_account(
    holders: Seq<HolderView>,
    address: Seq<char>,
    account: AccountIndex,
) -> Seq<HolderView> {
    if has_holder(holders, address) {
        holders.update(holder_index(holders, address), HolderView { address, account })
    } else {
        holders.push(HolderView { address, account })
    }
}

/// A bond series as a value: configuration, totals, the holders in the
/// order of their first interaction, and the bond tokens redeemed so far.
pub struct LedgerView {
    pub config: ConfigView,
    pub state: SeriesState,
    pub holders: Seq<HolderView>,
    pub redeemed: nat,
}

/// What holds of every series: holders are told apart by their address, no
/// more principal is outstanding than was sold, the balances add up to what
/// was sold less what was redeemed, and no holder is ahead of the interest
/// index.
pub open spec fn well_formed(v: LedgerView) -> bool {
    &&& distinct_addresses(v.holders)
    &&& v.state.total_principal_outstanding <= v.state.total_principal_sold
    &&& total_balance(v.holders) + v.redeemed == v.state.total_principal_sold
    &&& forall|i: int|
        0 <= i < v.holders.len() ==> (#[trigger] v.holders[i]).account.index
            <= v.state.global_interest_index
}

/// What `Ledger::from_parts` accepts.
pub open spec fn valid_parts(state: SeriesState, holders: Seq<HolderView>) -> bool {
    &&& distinct_addresses(holders)
    &&& state.total_principal_outstanding <= state.total_principal_sold
    &&& total_balance(holders) <= state.total_principal_sold
    &&& forall|i: int|
        0 <= i < holders.len() ==> (#[trigger] holders[i]).account.index
            <= state.global_interest_index
}

/// A bond series.
pub struct Ledger {
    pub(crate) config: Config,
    pub(crate) state: SeriesState,
    pub(crate) holders: Vec<Holder>,
    pub(crate) redeemed: Ghost<nat>,
}

impl View for Ledger {
    type V = LedgerView;

    open(crate) spec fn view(&self) -> LedgerView {
        LedgerView {
            config: self.config@,
            state: self.state,
            holders: holders_view(self.holders@),
            redeemed: self.redeemed@,
        }
    }
}

/// Replacing the record at `i` changes the sum of the balances by the
/// difference of the two balances.
pub proof fn lemma_total_balance_update(holders: Seq<HolderView>, i: int, h: HolderView)
    requires
        0 <= i < holders.len(),
    ensures
        total_balance(holders.update(i, h)) + holders[i].account.balance == total_balance(holders)
            + h.account.balance,
    decreases holders.len(),
{
    let updated = holders.update(i, h);
    if i == holders.len() - 1 {
        assert(updated.drop_last() == holders.drop_last());
    } else {
        assert(updated.drop_last() == holders.drop_last().update(i, h));
        lemma_total_balance_update(holders.drop_last(), i, h);
    }
}

/// A new last record adds its balance to the sum.
pub proof fn lemma_total_balance_push(holders: Seq<HolderView>, h: HolderView)
    ensures
        total_balance(holders.push(h)) == total_balance(holders) + h.account.balance,
{
    assert(holders.push(h).drop_last() == holders);
}

/// No balance is more than the sum of all.
pub proof fn lemma_balance_le_total(holders: Seq<HolderView>, i: int)
    requires
        0 <= i < holders.len(),
    ensures
        holders[i].account.balance <= total_balance(holders),
    decreases holders.len(),
{
    if i < holders.len() - 1 {
        lemma_balance_le_total(holders.drop_last(), i);
    }
}

/// Where the record of `address` stands among `holders`, or `None`.
pub fn find_holder(holders: &Vec<Holder>, address: &String) -> (r: Option<usize>)
    ensures
        match r {
            Some(i) => i < holders.len() && holders[i as int].address@ == address@,
            None => !has_holder(holders_view(holders@), address@),
        },
        distinct_addresses(holders_view(holders@)) && r is Some ==> r->Some_0
            == holder_index(holders_view(holders@), address@) && has_holder(
            holders_view(holders@),
            address@,
        ),
{
    let ghost hv = holders_view(holders@);
    let mut i: usize = 0;
    while i < holders.len()
        invariant
            i <= holders.len(),
            hv == holders_view(holders@),
            forall|j: int| 0 <= j < i ==> (#[trigger] hv[j]).address != address@,
        decreases holders.len() - i,
    {
        if holders[i].address == *address {
            assert(hv[i as int].address == address@);
            return Some(i);
        }
        i = i + 1;
    }
    None
}

/// The record of `address`, or a fresh one at `global_index`.
pub fn load_account(holders: &Vec<Holder>, global_index: u128, address: &String) -> (r:
    AccountIndex)
    requires
        distinct_addresses(holders_view(holders@)),
    ensures
        r == account_at(holders_view(holders@), global_index, address@),
{
    match find_holder(holders, address) {
        Some(i) => holders[i].account,
        None => AccountIndex { balance: 0, index: global_index, accrued: 0 },
    }
}

/// Stores `account` for `address`.
pub fn store_account(holders: &mut Vec<Holder>, address: &String, account: AccountIndex)
    requires
        distinct_addresses(holders_view(old(holders)@)),
    ensures
        holders_view(final(holders)@) == with_account(
            holders_view(old(holders)@),
            address@,
            account,
        ),
{
    let ghost before = holders_view(holders@);
    match find_holder(holders, address) {
        Some(i) => {
            holders.set(i, Holder { address: address.clone(), account });
            assert(holders_view(holders@) =~= before.update(
                i as int,
                HolderView { address: address@, account },
            ));
        },
        None => {
            holders.push(Holder { address: address.clone(), account });
            assert(holders_view(holders@) =~= before.push(
                HolderView { address: address@, account },
            ));
        },
    }
}

/// Storing a record keeps the addresses distinct, and moves the sum of the
/// balances by the difference between the new balance and the old.
pub proof fn lemma_with_account(
    holders: Seq<HolderView>,
    global_index: u128,
    address: Seq<char>,
    account: AccountIndex,
)
    requires
        distinct_addresses(holders),
    ensures
        distinct_addresses(with_account(holders, address, account)),
        total_balance(with_account(holders, address, account)) + account_at(
            holders,
            global_index,
            address,
        ).balance == total_balance(holders) + account.balance,
        account_at(holders, global_index, address).balance <= total_balance(holders),
        has_holder(with_account(holders, address, account), address),
        account_at(with_account(holders, address, account), global_index, address) == account,
        forall|i: int|
            0 <= i < with_account(holders, address, account).len() ==> (#[trigger] with_account(
                holders,
                address,
                account,
            )[i]).account == account || (i < holders.len() && with_account(
                holders,
                address,
                account,
            )[i] == holders[i]),
        forall|other: Seq<char>|
            other != address ==> #[trigger] has_holder(
                with_account(holders, address, account),
                other,
            ) == has_holder(holders, other),
        forall|other: Seq<char>|
            other != address ==> #[trigger] account_at(
                with_account(holders, address, account),
                global_index,
                other,
            ) == account_at(holders, global_index, other),
{
    let after = with_account(holders, address, account);
    let h = HolderView { address, account };
    if has_holder(holders, address) {
        let i = holder_index(holders, address);
        lemma_total_balance_update(holders, i, h);
        lemma_balance_le_total(holders, i);
        assert(after[i].address == address);
        assert(holder_index(after, address) == i);
    } else {
        lemma_total_balance_push(holders, h);
        let n = holders.len() as int;
        assert(after[n].address == address);
        assert(holder_index(after, address) == n);
    }
    assert forall|other: Seq<char>| other != address implies #[trigger] has_holder(after, other)
        == has_holder(holders, other) by {
        if has_holder(holders, other) {
            let k = holder_index(holders, other);
            assert(after[k].address == other);
        }
        if has_holder(after, other) {
            let k = holder_index(after, other);
            assert(holders[k].address == other);
        }
    }
    assert forall|other: Seq<char>| other != address implies #[trigger] account_at(
        after,
        global_index,
        other,
    ) == account_at(holders, global_index, other) by {
        if has_holder(holders, other) {
            let k = holder_index(holders, other);
            assert(after[k].address == other);
            assert(holder_index(after, other) == k);
        }
    }
}

/// The balances of the first `n` records add up to no more than all.
pub proof fn lemma_total_balance_prefix(holders: Seq<HolderView>, n: int)
    requires
        0 <= n <= holders.len(),
    ensures
        total_balance(holders.take(n)) <= total_balance(holders),
    decreases holders.len() - n,
{
    if n == holders.len() {
        assert(holders.take(n) == holders);
    } else {
        lemma_total_balance_prefix(holders, n + 1);
        assert(holders.take(n + 1).drop_last() == holders.take(n));
    }
}

fn addresses_distinct(holders: &Vec<Holder>) -> (r: bool)
    ensures
        r == distinct_addresses(holders_view(holders@)),
{
    let ghost hv = holders_view(holders@);
    let mut j: usize = 0;
    while j < holders.len()
        invariant
            j <= holders.len(),
            hv == holders_view(holders@),
            forall|a: int, b: int|
                0 <= a < b < j ==> (#[trigger] hv[a]).address != (#[trigger] hv[b]).address,
        decreases holders.len() - j,
    {
        let mut i: usize = 0;
        while i < j
            invariant
                i <= j < holders.len(),
                hv == holders_view(holders@),
                forall|a: int| 0 <= a < i ==> (#[trigger] hv[a]).address != hv[j as int].address,
            decreases j - i,
        {
            if holders[i].address == holders[j].address {
                assert(hv[i as int].address == hv[j as int].address);
                return false;
            }
            i = i + 1;
        }
        j = j + 1;
    }
    true
}

fn indexes_within(holders: &Vec<Holder>, global_index: u128) -> (r: bool)
    ensures
        r == (forall|i: int|
            0 <= i < holders.len() ==> (#[trigger] holders_view(holders@)[i]).account.index
                <= global_index),
{
    let ghost hv = holders_view(holders@);
    let mut i: usize = 0;
    while i < holders.len()
        invariant
            i <= holders.len(),
            hv == holders_view(holders@),
            forall|a: int| 0 <= a < i ==> (#[trigger] hv[a]).account.index <= global_index,
        decreases holders.len() - i,
    {
        if holders[i].account.index > global_index {
            assert(hv[i as int].account.index > global_index);
            return false;
        }
        i = i + 1;
    }
    true
}

fn balances_within(holders: &Vec<Holder>, limit: u128) -> (r: bool)
    ensures
        r == (total_balance(holders_view(holders@)) <= limit),
{
    let ghost hv = holders_view(holders@);
    let mut sum: u128 = 0;
    let mut i: usize = 0;
    while i < holders.len()
        invariant
            i <= holders.len(),
            hv == holders_view(holders@),
            sum == total_balance(hv.take(i as int)),
            sum <= limit,
        decreases holders.len() - i,
    {
        proof {
            assert(hv.take(i + 1).drop_last() == hv.take(i as int));
            assert(hv.take(i + 1).last() == hv[i as int]);
            lemma_total_balance_prefix(hv, i + 1);
        }
        let b = holders[i].account.balance;
        if b > limit - sum {
            return false;
        }
        sum = sum + b;
        i = i + 1;
    }
    assert(hv.take(i as int) == hv);
    true
}

impl Ledger {
    /// What holds of every series: see `well_formed`.
    pub open spec fn wf(&self) -> bool {
        well_formed(self@)
    }

    /// The series made of stored parts, where they are those of a series:
    /// distinct addresses, no more outstanding than sold, balances that add
    /// up to no more than was sold, and no holder ahead of the index. What
    /// was sold and is in no balance counts as redeemed.
    pub fn from_parts(config: Config, state: SeriesState, holders: Vec<Holder>) -> (r: Option<
        Ledger,
    >)
        ensures
            r is Some <==> valid_parts(state, holders_view(holders@)),
            r matches Some(ledger) ==> ledger.wf() && ledger@ == (LedgerView {
                config: config@,
                state,
                holders: holders_view(holders@),
                redeemed: (state.total_principal_sold - total_balance(
                    holders_view(holders@),
                )) as nat,
            }),
    {
        if state.total_principal_outstanding > state.total_principal_sold {
            return None;
        }
        if !addresses_distinct(&holders) {
            return None;
        }
        if !indexes_within(&holders, state.global_interest_index) {
            return None;
        }
        if !balances_within(&holders, state.total_principal_sold) {
            return None;
        }
        let ghost redeemed = (state.total_principal_sold - total_balance(
            holders_view(holders@),
        )) as nat;
        Some(Ledger { config, state, holders, redeemed: Ghost(redeemed) })
    }

    /// The configuration.
    pub fn config(&self) -> (r: &Config)
        ensures
            r@ == self@.config,
    {
        &self.config
    }

    /// The totals.
    pub fn state(&self) -> (r: SeriesState)
        ensures
            r == self@.state,
    {
        self.state
    }

    /// The holders, in the order of their first interaction.
    pub fn holders(&self) -> (r: &Vec<Holder>)
        ensures
            holders_view(r@) == self@.holders,
    {
        &self.holders
    }

    /// The record of `address`, if it has one.
    pub fn account(&self, address: &String) -> (r: Option<AccountIndex>)
        requires
            self.wf(),
        ensures
            r is Some <==> has_holder(self@.holders, address@),
            r matches Some(a) ==> a == account_at(
                self@.holders,
                self@.state.global_interest_index,
                address@,
            ),
    {
        match find_holder(&self.holders, address) {
            Some(i) => Some(self.holders[i].account),
            None => None,
        }
    }
}

} // verus!
