//! Plain value types shared by every module: coins, attributes, the
//! instructions an operation emits and the response that carries them.

use crate::text::{decimal, decimal_string};
use vstd::prelude::*;
use vstd::string::*;

verus! {

/// An amount of one currency.
#[derive(Debug, PartialEq, Eq)]
pub struct Coin {
    pub denom: String,
    pub amount: u128,
}

/// Mathematical value of a [`Coin`].
pub struct CoinView {
    pub denom: Seq<char>,
    pub amount: nat,
}

impl View for Coin {
    type V = CoinView;

    open spec fn view(&self) -> CoinView {
        CoinView { denom: self.denom@, amount: self.amount as nat }
    }
}

impl DeepView for Coin {
    type V = CoinView;

    open spec fn deep_view(&self) -> CoinView {
        self@
    }
}

impl Clone for Coin {
    fn clone(&self) -> (c: Coin)
        ensures
            c@ == self@,
    {
        Coin { denom: self.denom.clone(), amount: self.amount }
    }
}

/// Builds a coin from its amount and denomination.
pub fn coin(amount: u128, denom: &str) -> (c: Coin)
    ensures
        c@ == (CoinView { denom: denom@, amount: amount as nat }),
{
    Coin { denom: denom.to_owned(), amount }
}

/// How a coin is written: the amount in decimal, then the denomination.
pub open spec fn coin_text(c: CoinView) -> Seq<char> {
    decimal(c.amount) + c.denom
}

/// How a list of coins is written: each coin as [`coin_text`] writes it,
/// with a comma and a space between two of them.
pub open spec fn coins_text(coins: Seq<CoinView>) -> Seq<char>
    decreases coins.len(),
{
    if coins.len() == 0 {
        Seq::empty()
    } else if coins.len() == 1 {
        coin_text(coins[0])
    } else {
        coins_text(coins.drop_last()) + ", "@ + coin_text(coins.last())
    }
}

impl Coin {
    /// Writes the coin, as in `1000000umed`.
    pub fn to_string(&self) -> (text: String)
        ensures
            text@ == coin_text(self@),
    {
        let mut text = decimal_string(self.amount);
        text.append(self.denom.as_str());
        text
    }
}

/// Writes a list of coins, as in `5ucosm, 7umed`.
pub fn coins_to_text(coins: &Vec<Coin>) -> (text: String)
    ensures
        text@ == coins_text(coins.deep_view()),
{
    let ghost all = coins.deep_view();
    let mut text = String::new();
    let mut i: usize = 0;
    while i < coins.len()
        invariant
            i <= coins.len(),
            all == coins.deep_view(),
            text@ == coins_text(all.subrange(0, i as int)),
        decreases coins.len() - i,
    {
        let ghost before = all.subrange(0, i as int);
        let ghost after = all.subrange(0, i + 1);
        if i > 0 {
            text.append(", ");
        }
        let one = coins[i].to_string();
        text.append(one.as_str());
        proof {
            assert(after.drop_last() =~= before);
            assert(after.last() == coins[i as int]@);
            if i == 0 {
                assert(before =~= Seq::empty());
                assert(text@ =~= coin_text(after[0]));
            }
        }
        i += 1;
    }
    assert(all.subrange(0, coins.len() as int) =~= all);
    text
}

/// A key and value attached to a response for whoever indexes it.
#[derive(Clone, Debug, PartialEq, Eq)]
pub struct Attribute {
    pub key: String,
    pub value: String,
}

/// Mathematical value of an [`Attribute`].
pub struct AttributeView {
    pub key: Seq<char>,
    pub value: Seq<char>,
}

impl View for Attribute {
    type V = AttributeView;

    open spec fn view(&self) -> AttributeView {
        AttributeView { key: self.key@, value: self.value@ }
    }
}

impl DeepView for Attribute {
    type V = AttributeView;

    open spec fn deep_view(&self) -> AttributeView {
        self@
    }
}

/// Builds an attribute from a key and a value.
pub fn attr(key: &str, value: &str) -> (a: Attribute)
    ensures
        a@ == (AttributeView { key: key@, value: value@ }),
{
    Attribute { key: key.to_owned(), value: value.to_owned() }
}

/// One side effect that an operation asks its host to carry out.
///
/// Instructions of one response form a batch: the host applies all of them
/// or none.
#[derive(Clone, Debug, PartialEq, Eq)]
pub enum Instruction {
    /// Send `amount` from the custodian's balance to `to_address`.
    CurrencyTransfer { to_address: String, amount: Vec<Coin> },
    /// Ask `registry` to make `new_owner` the holder of `asset_id`.
    /// `payload` is the message in the form the registry accepts.
    RegistryTransfer { registry: String, asset_id: String, new_owner: String, payload: Vec<u8> },
}

/// Mathematical value of an [`Instruction`].
pub enum InstructionView {
    CurrencyTransfer { to_address: Seq<char>, amount: Seq<CoinView> },
    RegistryTransfer {
        registry: Seq<char>,
        asset_id: Seq<char>,
        new_owner: Seq<char>,
        payload: Seq<u8>,
    },
}

impl View for Instruction {
    type V = InstructionView;

    open spec fn view(&self) -> InstructionView {
        match self {
            Instruction::CurrencyTransfer { to_address, amount } => InstructionView::CurrencyTransfer {
                to_address: to_address@,
                amount: amount.deep_view(),
            },
            Instruction::RegistryTransfer {
                registry,
                asset_id,
                new_owner,
                payload,
            } => InstructionView::RegistryTransfer {
                registry: registry@,
                asset_id: asset_id@,
                new_owner: new_owner@,
                payload: payload@,
            },
        }
    }
}

impl DeepView for Instruction {
    type V = InstructionView;

    open spec fn deep_view(&self) -> InstructionView {
        self@
    }
}

/// What a successful operation hands back: the batch of instructions and
/// the attributes that describe what was done.
#[derive(Clone, Debug, PartialEq, Eq)]
pub struct Response {
    pub messages: Vec<Instruction>,
    pub attributes: Vec<Attribute>,
}

/// Mathematical value of a [`Response`].
pub struct ResponseView {
    pub messages: Seq<InstructionView>,
    pub attributes: Seq<AttributeView>,
}

impl View for Response {
    type V = ResponseView;

    open spec fn view(&self) -> ResponseView {
        ResponseView {
            messages: self.messages.deep_view(),
            attributes: self.attributes.deep_view(),
        }
    }
}

impl Response {
    /// The response that carries nothing.
    pub open spec fn spec_empty() -> ResponseView {
        ResponseView { messages: Seq::empty(), attributes: Seq::empty() }
    }

    /// A response with no instruction and no attribute.
    pub fn new() -> (r: Response)
        ensures
            r@ == Self::spec_empty(),
    {
        let r = Response { messages: Vec::new(), attributes: Vec::new() };
        assert(r.messages.deep_view() =~= Seq::empty());
        assert(r.attributes.deep_view() =~= Seq::empty());
        r
    }
}

/// Where and when an operation runs.
#[derive(Clone, Debug, PartialEq, Eq)]
pub struct Env {
    /// Height of the block that carries the call.
    pub height: u64,
    /// Time of that block, in nanoseconds since the epoch.
    pub time_nanos: u64,
    /// Address of the instance that runs.
    pub contract_address: String,
}

/// Who calls an operation, and with which funds.
#[derive(Clone, Debug, PartialEq, Eq)]
pub struct MessageInfo {
    pub sender: String,
    pub funds: Vec<Coin>,
}

} // verus!
