//! Minting an asset that carries a price: the asset's identifier is made
//! from the registry's symbol and a running number, and its description
//! is the price in the form that the escrow reads.

use crate::error::ContractError;
use crate::price::{encodes, valid_price, TokenInfo};
use crate::text::{decimal, decimal_string};
use crate::types::Coin;
use vstd::prelude::*;
use vstd::string::*;

verus! {

/// The text in an optional string.
pub open spec fn opt_text(o: Option<String>) -> Option<Seq<char>> {
    match o {
        Some(s) => Some(s@),
        None => None,
    }
}

/// What asks a registry to mint an asset with a price.
#[derive(Clone, Debug, PartialEq, Eq)]
pub struct MintMsg {
    /// The identifier of the asset; the registry makes one where none is
    /// given.
    pub token_id: Option<String>,
    /// The owner of the newly minted asset.
    pub owner: String,
    /// The name of the asset.
    pub name: String,
    /// A description of the asset.
    pub description: Option<String>,
    /// An address of an image of the asset.
    pub image: Option<String>,
    /// The price at which the asset is sold.
    pub price: Coin,
}

/// What the underlying registry mints from: an asset without a price.
#[derive(Clone, Debug, PartialEq, Eq)]
pub struct Cw721MintMsg {
    pub token_id: String,
    pub owner: String,
    pub name: String,
    pub description: Option<String>,
    pub image: Option<String>,
}

/// Mathematical value of a [`Cw721MintMsg`].
pub struct Cw721MintMsgView {
    pub token_id: Seq<char>,
    pub owner: Seq<char>,
    pub name: Seq<char>,
    pub description: Option<Seq<char>>,
    pub image: Option<Seq<char>>,
}

impl View for Cw721MintMsg {
    type V = Cw721MintMsgView;

    open spec fn view(&self) -> Cw721MintMsgView {
        Cw721MintMsgView {
            token_id: self.token_id@,
            owner: self.owner@,
            name: self.name@,
            description: opt_text(self.description),
            image: opt_text(self.image),
        }
    }
}

impl MintMsg {
    /// Drops the price. An identifier that is not given becomes the empty
    /// one.
    pub fn into_cw721_mint_msg(self) -> (base: Cw721MintMsg)
        ensures
            base@ == (Cw721MintMsgView {
                token_id: match self.token_id {
                    Some(id) => id@,
                    None => Seq::empty(),
                },
                owner: self.owner@,
                name: self.name@,
                description: opt_text(self.description),
                image: opt_text(self.image),
            }),
    {
        let token_id = match self.token_id {
            Some(id) => id,
            None => String::new(),
        };
        Cw721MintMsg {
            token_id,
            owner: self.owner,
            name: self.name,
            description: self.description,
            image: self.image,
        }
    }
}

/// An asset with its price, as it is shown to a buyer.
#[derive(Clone, Debug, PartialEq, Eq)]
pub struct NftInfoWithPriceMsg {
    /// The name of the asset.
    pub name: String,
    /// A description of the asset.
    pub description: Option<String>,
    /// An address of an image of the asset.
    pub image: Option<String>,
    /// The price at which the asset is sold.
    pub price: Coin,
}

impl NftInfoWithPriceMsg {
    /// The request that mints this asset for `owner` under `token_id`.
    pub fn into_mint_msg(self, owner: String, token_id: String) -> (r: Result<
        MintMsg,
        ContractError,
    >)
        ensures
            r matches Ok(msg) && msg.token_id == Some(token_id) && msg.owner == owner && msg.name
                == self.name && msg.description == self.description && msg.image == self.image
                && msg.price == self.price,
    {
        Ok(
            MintMsg {
                token_id: Some(token_id),
                owner,
                name: self.name,
                description: self.description,
                image: self.image,
                price: self.price,
            },
        )
    }
}

/// The identifier of the asset with the running number `index` in the
/// registry with the symbol `symbol`.
pub open spec fn token_id_text(symbol: Seq<char>, index: nat) -> Seq<char> {
    symbol + "."@ + decimal(index)
}

/// The identifier of the next asset in a registry that holds `count`
/// assets.
pub fn next_token_id(symbol: &str, count: u64) -> (id: String)
    requires
        count < u64::MAX,
    ensures
        id@ == token_id_text(symbol@, (count + 1) as nat),
{
    let mut id = symbol.to_owned();
    id.append(".");
    let number = decimal_string((count + 1) as u128);
    id.append(number.as_str());
    id
}

/// Prepares the minting of an asset in a registry with the symbol
/// `symbol` that holds `count` assets: the asset gets the next
/// identifier, and its description becomes the price. A price that
/// metadata cannot carry is refused.
pub fn execute_mint(symbol: &str, count: u64, msg: MintMsg) -> (r: Result<
    Cw721MintMsg,
    ContractError,
>)
    requires
        count < u64::MAX,
    ensures
        match r {
            Ok(base) => {
                &&& base.token_id@ == token_id_text(symbol@, (count + 1) as nat)
                &&& base.owner@ == msg.owner@
                &&& base.name@ == msg.name@
                &&& base.description matches Some(text) && encodes(text@, msg.price@)
                &&& opt_text(base.image) == opt_text(msg.image)
            },
            Err(e) => e == ContractError::InvalidParameter && !valid_price(msg.price@),
        },
{
    let token_id = next_token_id(symbol, count);
    let token_info = TokenInfo { price: msg.price };
    let description = match token_info.encode() {
        Ok(text) => text,
        Err(e) => {
            return Err(e);
        },
    };
    let priced = MintMsg {
        token_id: Some(token_id),
        owner: msg.owner,
        name: msg.name,
        description: Some(description),
        image: msg.image,
        price: token_info.price,
    };
    Ok(priced.into_cw721_mint_msg())
}

} // verus!
