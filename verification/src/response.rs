//! Coins, bank messages, attributes and responses: what a call of the
//! contract hands back to the chain, held as plain values.

use vstd::prelude::*;
use vstd::string::*;

verus! {

/// An amount of one denomination.
#[derive(Debug, PartialEq, Eq)]
pub struct Coin {
    pub denom: String,
    pub amount: u128,
}

pub struct CoinView {
    pub denom: Seq<char>,
    pub amount: u128,
}

impl View for Coin {
    type V = CoinView;

    open spec fn view(&self) -> CoinView {
        CoinView { denom: self.denom@, amount: self.amount }
    }
}

impl Clone for Coin {
    fn clone(&self) -> (c: Self)
        ensures
            c == *self,
    {
        Coin { denom: self.denom.clone(), amount: self.amount }
    }
}

/// The views of a sequence of coins.
pub open spec fn coins_view(cs: Seq<Coin>) -> Seq<CoinView> {
    cs.map_values(|c: Coin| c@)
}

/// A key and a value that a response reports.
#[derive(Debug, PartialEq, Eq)]
pub struct Attribute {
    pub key: String,
    pub value: String,
}

pub struct AttributeView {
    pub key: Seq<char>,
    pub value: Seq<char>,
}

impl View for Attribute {
    type V = AttributeView;

    open spec fn view(&self) -> AttributeView {
        AttributeView { key: self.key@, value: self.value@ }
    }
}

/// A message to the bank module.
#[derive(Debug, PartialEq, Eq)]
pub enum BankMsg {
    /// Send `amount` from the contract to `to_address`.
    Send { to_address: String, amount: Vec<Coin> },
}

pub enum BankMsgView {
    Send { to_address: Seq<char>, amount: Seq<CoinView> },
}

impl View for BankMsg {
    type V = BankMsgView;

    open spec fn view(&self) -> BankMsgView {
        match self {
            BankMsg::Send { to_address, amount } => BankMsgView::Send {
                to_address: to_address@,
                amount: coins_view(amount@),
            },
        }
    }
}

/// What the contract answers to an instantiation or an execution: the
/// messages it asks the chain to run, and the attributes it reports.
#[derive(Debug, PartialEq, Eq)]
pub struct Response {
    pub messages: Vec<BankMsg>,
    pub attributes: Vec<Attribute>,
}

pub struct ResponseView {
    pub messages: Seq<BankMsgView>,
    pub attributes: Seq<AttributeView>,
}

impl View for Response {
    type V = ResponseView;

    open spec fn view(&self) -> ResponseView {
        ResponseView {
            messages: self.messages@.map_values(|m: BankMsg| m@),
            attributes: self.attributes@.map_values(|a: Attribute| a@),
        }
    }
}

/// The sender of a call and the funds it sent along.
#[derive(Debug, PartialEq, Eq)]
pub struct MessageInfo {
    pub sender: String,
    pub funds: Vec<Coin>,
}

/// The attribute `key = value`, as a view.
pub open spec fn attr(key: Seq<char>, value: Seq<char>) -> AttributeView {
    AttributeView { key, value }
}

/// A one-coin list of `amount` of `denom`.
pub fn coins(amount: u128, denom: &str) -> (cs: Vec<Coin>)
    ensures
        coins_view(cs@) =~= seq![CoinView { denom: denom@, amount }],
{
    let mut cs: Vec<Coin> = Vec::new();
    cs.push(Coin { denom: String::from_str(denom), amount });
    cs
}

impl Response {
    /// A response with no messages and no attributes.
    pub fn new() -> (r: Response)
        ensures
            r@.messages =~= Seq::<BankMsgView>::empty(),
            r@.attributes =~= Seq::<AttributeView>::empty(),
    {
        Response { messages: Vec::new(), attributes: Vec::new() }
    }

    /// This response with the attribute `key = value` added at the end.
    pub fn add_attribute(self, key: &str, value: String) -> (r: Response)
        ensures
            r@.messages == self@.messages,
            r@.attributes == self@.attributes.push(attr(key@, value@)),
    {
        let ghost before = self@;
        let mut attributes = self.attributes;
        attributes.push(Attribute { key: String::from_str(key), value });
        let r = Response { messages: self.messages, attributes };
        assert(r@.attributes =~= before.attributes.push(attr(key@, value@)));
        r
    }

    /// This response with `msgs` added at the end of its messages.
    pub fn add_messages(self, msgs: Vec<BankMsg>) -> (r: Response)
        ensures
            r@.messages == self@.messages + msgs@.map_values(|m: BankMsg| m@),
            r@.attributes == self@.attributes,
    {
        let ghost before = self@;
        let ghost added = msgs@.map_values(|m: BankMsg| m@);
        let mut messages = self.messages;
        let mut msgs = msgs;
        messages.append(&mut msgs);
        let r = Response { messages, attributes: self.attributes };
        assert(r@.messages =~= before.messages + added);
        r
    }
}

} // verus!
