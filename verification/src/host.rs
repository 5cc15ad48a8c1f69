//! Plain-value stand-ins for what the host chain hands to an entry point and
//! takes back from it.

use vstd::prelude::*;

verus! {

/// The block an entry point runs in. Only its time, in seconds since the
/// epoch, is ever read.
#[derive(Clone, Copy, Debug, PartialEq, Eq)]
pub struct Env {
    pub block_time: u64,
}

/// An amount of one asset.
#[derive(Clone, Debug, PartialEq, Eq)]
pub struct Coin {
    pub denom: String,
    pub amount: u128,
}

pub struct CoinView {
    pub denom: Seq<char>,
    pub amount: u128,
}

impl View for Coin {
    type V = CoinView;

    open spec fn view(&self) -> CoinView {
        CoinView { denom: self.denom@, amount: self.amount }
    }
}

/// Who called, and the funds that came with the call.
#[derive(Clone, Debug, PartialEq, Eq)]
pub struct MessageInfo {
    pub sender: String,
    pub funds: Vec<Coin>,
}

pub struct MessageInfoView {
    pub sender: Seq<char>,
    pub funds: Seq<CoinView>,
}

impl View for MessageInfo {
    type V = MessageInfoView;

    open spec fn view(&self) -> MessageInfoView {
        MessageInfoView {
            sender: self.sender@,
            funds: self.funds@.map_values(|c: Coin| c@),
        }
    }
}

/// A key and a value that a call reports about itself.
#[derive(Clone, Debug, PartialEq, Eq)]
pub struct Attribute {
    pub key: String,
    pub value: String,
}

pub struct AttributeView {
    pub key: Seq<char>,
    pub value: Seq<char>,
}

impl View for Attribute {
    type V = AttributeView;

    open spec fn view(&self) -> AttributeView {
        AttributeView { key: self.key@, value: self.value@ }
    }
}

/// A payment instruction: the host is to send `amount` of `denom` to
/// `to_address`. The ledger never moves funds itself.
#[derive(Clone, Debug, PartialEq, Eq)]
pub struct Payment {
    pub to_address: String,
    pub denom: String,
    pub amount: u128,
}

pub struct PaymentView {
    pub to_address: Seq<char>,
    pub denom: Seq<char>,
    pub amount: u128,
}

impl View for Payment {
    type V = PaymentView;

    open spec fn view(&self) -> PaymentView {
        PaymentView { to_address: self.to_address@, denom: self.denom@, amount: self.amount }
    }
}

/// What a successful call hands back: payments to carry out, in order, and
/// the attributes of the call.
#[derive(Clone, Debug, PartialEq, Eq)]
pub struct Response {
    pub messages: Vec<Payment>,
    pub attributes: Vec<Attribute>,
}

pub struct ResponseView {
    pub messages: Seq<PaymentView>,
    pub attributes: Seq<AttributeView>,
}

impl View for Response {
    type V = ResponseView;

    open spec fn view(&self) -> ResponseView {
        ResponseView {
            messages: self.messages@.map_values(|p: Payment| p@),
            attributes: self.attributes@.map_values(|a: Attribute| a@),
        }
    }
}

/// The host's general-purpose error.
#[derive(Clone, Debug, PartialEq, Eq)]
pub enum StdError {
    GenericErr { msg: String },
    NotFound { kind: String },
}

pub enum StdErrorView {
    GenericErr { msg: Seq<char> },
    NotFound { kind: Seq<char> },
}

impl View for StdError {
    type V = StdErrorView;

    open spec fn view(&self) -> StdErrorView {
        match self {
            StdError::GenericErr { msg } => StdErrorView::GenericErr { msg: msg@ },
            StdError::NotFound { kind } => StdErrorView::NotFound { kind: kind@ },
        }
    }
}

/// An attribute with the given key and value.
pub open spec fn attr(key: Seq<char>, value: Seq<char>) -> AttributeView {
    AttributeView { key, value }
}

impl Response {
    /// A response with no payment and no attribute.
    pub fn new() -> (r: Response)
        ensures
            r@.messages == Seq::<PaymentView>::empty(),
            r@.attributes == Seq::<AttributeView>::empty(),
    {
        Response { messages: Vec::new(), attributes: Vec::new() }
    }

    /// Appends an attribute.
    pub fn add_attribute(&mut self, key: &str, value: String)
        ensures
            final(self)@.messages == old(self)@.messages,
            final(self)@.attributes == old(self)@.attributes.push(attr(key@, value@)),
    {
        let key = String::from_str(key);
        self.attributes.push(Attribute { key, value });
    }

    /// Appends a payment.
    pub fn add_message(&mut self, payment: Payment)
        ensures
            final(self)@.messages == old(self)@.messages.push(payment@),
            final(self)@.attributes == old(self)@.attributes,
    {
        self.messages.push(payment);
    }
}

impl StdError {
    /// The text of this error.
    pub open spec fn message_spec(self) -> Seq<char> {
        match self {
            StdError::GenericErr { msg } => "Generic error: "@ + msg@,
            StdError::NotFound { kind } => kind@ + " not found"@,
        }
    }

    /// The text of this error.
    pub fn message(&self) -> (r: String)
        ensures
            r@ == self.message_spec(),
    {
        match self {
            StdError::GenericErr { msg } => String::from_str("Generic error: ").concat(
                msg.as_str(),
            ),
            StdError::NotFound { kind } => kind.clone().concat(" not found"),
        }
    }

    /// A general error with the given text.
    pub fn generic_err(msg: &str) -> (e: StdError)
        ensures
            e@ == (StdErrorView::GenericErr { msg: msg@ }),
    {
        StdError::GenericErr { msg: String::from_str(msg) }
    }

    /// The error of a record of the given kind that does not exist.
    pub fn not_found(kind: &str) -> (e: StdError)
        ensures
            e@ == (StdErrorView::NotFound { kind: kind@ }),
    {
        StdError::NotFound { kind: String::from_str(kind) }
    }
}

/// Why the funds of a call are not the payment that was asked for.
#[derive(Clone, Debug, PartialEq, Eq)]
pub enum PaymentError {
    /// The one coin sent is not of the asset asked for, which is named.
    MissingDenom(String),
    /// A coin of an asset that is not accepted, which is named.
    ExtraDenom(String),
    /// More than one coin was sent.
    MultipleDenoms,
    /// Nothing was sent, or a coin of amount zero.
    NoFunds,
    /// Funds were sent where none are accepted.
    NonPayable,
}

pub enum PaymentErrorView {
    MissingDenom(Seq<char>),
    ExtraDenom(Seq<char>),
    MultipleDenoms,
    NoFunds,
    NonPayable,
}

impl View for PaymentError {
    type V = PaymentErrorView;

    open spec fn view(&self) -> PaymentErrorView {
        match self {
            PaymentError::MissingDenom(d) => PaymentErrorView::MissingDenom(d@),
            PaymentError::ExtraDenom(d) => PaymentErrorView::ExtraDenom(d@),
            PaymentError::MultipleDenoms => PaymentErrorView::MultipleDenoms,
            PaymentError::NoFunds => PaymentErrorView::NoFunds,
            PaymentError::NonPayable => PaymentErrorView::NonPayable,
        }
    }
}

/// The amount paid where exactly one coin was sent, of the asset `denom` and
/// of an amount that is not zero; else why the funds are refused.
pub open spec fn must_pay_spec(funds: Seq<CoinView>, denom: Seq<char>) -> Result<
    u128,
    PaymentErrorView,
> {
    if funds.len() == 0 {
        Err(PaymentErrorView::NoFunds)
    } else if funds.len() > 1 {
        Err(PaymentErrorView::MultipleDenoms)
    } else if funds[0].amount == 0 {
        Err(PaymentErrorView::NoFunds)
    } else if funds[0].denom != denom {
        Err(PaymentErrorView::MissingDenom(denom))
    } else {
        Ok(funds[0].amount)
    }
}

/// Calls `cw_utils::must_pay` on the caller's funds. The contract repeats
/// that function and `cw_utils::one_coin`, on which it rests: no coin or a
/// coin of amount zero is `NoFunds`, two or more coins are `MultipleDenoms`,
/// one coin of another asset is `MissingDenom` with the asset asked for, and
/// one coin of that asset yields its amount.
#[verifier::external_body]
pub(crate) fn must_pay(info: &MessageInfo, denom: &str) -> (r: Result<u128, PaymentError>)
    ensures
        match must_pay_spec(info@.funds, denom@) {
            Ok(amount) => r == Ok::<u128, PaymentError>(amount),
            Err(e) => r is Err && r->Err_0@ == e,
        },
{
    let funds = info.funds.iter().map(|c| cosmwasm_std::Coin::new(c.amount, c.denom.clone()));
    let sender = cosmwasm_std::Addr::unchecked(info.sender.clone());
    let outer = cosmwasm_std::MessageInfo { sender, funds: funds.collect() };
    match cw_utils::must_pay(&outer, denom) {
        Ok(amount) => Ok(amount.u128()),
        Err(cw_utils::PaymentError::MissingDenom(d)) => Err(PaymentError::MissingDenom(d)),
        Err(cw_utils::PaymentError::ExtraDenom(d)) => Err(PaymentError::ExtraDenom(d)),
        Err(cw_utils::PaymentError::MultipleDenoms {}) => Err(PaymentError::MultipleDenoms),
        Err(cw_utils::PaymentError::NoFunds {}) => Err(PaymentError::NoFunds),
        Err(cw_utils::PaymentError::NonPayable {}) => Err(PaymentError::NonPayable),
    }
}

} // verus!
