use vstd::prelude::*;
use crate::state::Coin;

verus! {

/// One key/value pair describing what a handler did.
#[derive(Debug, Clone, PartialEq, Eq)]
pub struct Attribute {
    pub key: String,
    pub value: String,
}

/// A transfer of native assets that the host is asked to carry out.
#[derive(Debug, Clone, PartialEq, Eq)]
pub enum BankMsg {
    Send { to_address: String, amount: Vec<Coin> },
}

/// What a successful handler hands back to the host.
#[derive(Debug, Clone, PartialEq, Eq)]
pub struct Response {
    pub messages: Vec<BankMsg>,
    pub attributes: Vec<Attribute>,
}

/// The decimal digit `d` as a character.
pub open spec fn digit_char(d: nat) -> char {
    seq!['0', '1', '2', '3', '4', '5', '6', '7', '8', '9'][d as int]
}

/// The decimal notation of `n`, without leading zeros.
pub open spec fn decimal_text(n: nat) -> Seq<char>
    decreases n,
{
    if n < 10 {
        seq![digit_char(n)]
    } else {
        decimal_text(n / 10).push(digit_char(n % 10))
    }
}

/// Relies on u128's `to_string`: its decimal notation.
#[verifier::external_body]
fn decimal_string(n: u128) -> (r: String)
    ensures
        r@ == decimal_text(n as nat),
{
    n.to_string()
}

impl Response {
    /// The attributes as (key, value) text pairs.
    pub open spec fn attributes_view(&self) -> Seq<(Seq<char>, Seq<char>)> {
        self.attributes@.map_values(|a: Attribute| (a.key@, a.value@))
    }

    /// A single transfer of `amount` of `denom` to `to`.
    pub open spec fn sends_only(&self, to: Seq<char>, denom: Seq<char>, amount: u128) -> bool {
        &&& self.messages@.len() == 1
        &&& self.messages@[0] matches BankMsg::Send { to_address, amount: coins }
        &&& to_address@ == to
        &&& coins@.len() == 1
        &&& coins@[0].denom@ == denom
        &&& coins@[0].amount == amount
    }

    /// A response with no transfers and no attributes.
    pub fn new() -> (r: Response)
        ensures
            r.messages@.len() == 0,
            r.attributes@.len() == 0,
    {
        Response { messages: Vec::new(), attributes: Vec::new() }
    }

    /// Appends the attribute `key = value`.
    pub fn add_attribute(self, key: &str, value: String) -> (r: Response)
        ensures
            r.messages == self.messages,
            r.attributes_view() == self.attributes_view().push((key@, value@)),
    {
        let mut attributes = self.attributes;
        attributes.push(Attribute { key: key.to_owned(), value });
        let r = Response { messages: self.messages, attributes };
        assert(r.attributes_view() =~= self.attributes_view().push((key@, value@)));
        r
    }

    /// Appends the attribute `key = n`, with `n` written in decimal.
    pub fn add_amount_attribute(self, key: &str, n: u128) -> (r: Response)
        ensures
            r.messages == self.messages,
            r.attributes_view() == self.attributes_view().push((key@, decimal_text(n as nat))),
    {
        let text = decimal_string(n);
        self.add_attribute(key, text)
    }

    /// Appends a transfer to the host.
    pub fn add_message(self, msg: BankMsg) -> (r: Response)
        ensures
            r.attributes == self.attributes,
            r.messages@ == self.messages@.push(msg),
    {
        let mut messages = self.messages;
        messages.push(msg);
        Response { messages, attributes: self.attributes }
    }
}

} // verus!
