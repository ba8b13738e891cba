//! The questions an operation puts to its host, the answers it takes, and
//! the steps in which it runs.
//!
//! An operation never reaches outside. Where it needs to know what a
//! registry or the currency ledger holds, it stops with a [`Step::Ask`];
//! the host finds out and calls `resume` with the [`Answer`]. An operation
//! ends with a [`Step::Done`].

use crate::error::ContractError;
use crate::types::{Coin, CoinView, Response, ResponseView};
use vstd::prelude::*;

verus! {

/// A question to the host.
#[derive(Clone, Debug, PartialEq, Eq)]
pub enum Query {
    /// Who does `registry` name as holder of `asset_id`?
    CurrentHolder { registry: String, asset_id: String },
    /// What metadata does `registry` hold for `asset_id`?
    Metadata { registry: String, asset_id: String },
    /// How much of `denom` does `address` hold?
    Balance { address: String, denom: String },
    /// What does `address` hold, in every denomination?
    AllBalances { address: String },
}

/// Mathematical value of a [`Query`].
pub enum QueryView {
    CurrentHolder { registry: Seq<char>, asset_id: Seq<char> },
    Metadata { registry: Seq<char>, asset_id: Seq<char> },
    Balance { address: Seq<char>, denom: Seq<char> },
    AllBalances { address: Seq<char> },
}

impl View for Query {
    type V = QueryView;

    open spec fn view(&self) -> QueryView {
        match self {
            Query::CurrentHolder { registry, asset_id } => QueryView::CurrentHolder {
                registry: registry@,
                asset_id: asset_id@,
            },
            Query::Metadata { registry, asset_id } => QueryView::Metadata {
                registry: registry@,
                asset_id: asset_id@,
            },
            Query::Balance { address, denom } => QueryView::Balance {
                address: address@,
                denom: denom@,
            },
            Query::AllBalances { address } => QueryView::AllBalances { address: address@ },
        }
    }
}

/// What the host found out.
#[derive(Clone, Debug, PartialEq, Eq)]
pub enum Answer {
    /// The holder that the registry names.
    Holder(String),
    /// The metadata that the registry holds.
    Metadata(String),
    /// The amount held in the denomination asked for.
    Balance(u128),
    /// Everything held.
    AllBalances(Vec<Coin>),
    /// The host could not find out.
    Unavailable,
}

/// Mathematical value of an [`Answer`].
pub enum AnswerView {
    Holder(Seq<char>),
    Metadata(Seq<char>),
    Balance(nat),
    AllBalances(Seq<CoinView>),
    Unavailable,
}

impl View for Answer {
    type V = AnswerView;

    open spec fn view(&self) -> AnswerView {
        match self {
            Answer::Holder(holder) => AnswerView::Holder(holder@),
            Answer::Metadata(metadata) => AnswerView::Metadata(metadata@),
            Answer::Balance(amount) => AnswerView::Balance(*amount as nat),
            Answer::AllBalances(coins) => AnswerView::AllBalances(coins.deep_view()),
            Answer::Unavailable => AnswerView::Unavailable,
        }
    }
}

/// An asset that was notified and recorded, on its way to settlement.
#[derive(Clone, Debug, PartialEq, Eq)]
pub struct Deposit {
    /// The registry that notified.
    pub registry: String,
    /// The asset in that registry.
    pub asset_id: String,
    /// Who deposited the asset.
    pub depositor: String,
}

/// Mathematical value of a [`Deposit`].
pub struct DepositView {
    pub registry: Seq<char>,
    pub asset_id: Seq<char>,
    pub depositor: Seq<char>,
}

impl View for Deposit {
    type V = DepositView;

    open spec fn view(&self) -> DepositView {
        DepositView {
            registry: self.registry@,
            asset_id: self.asset_id@,
            depositor: self.depositor@,
        }
    }
}

/// Where an operation stopped to ask.
#[derive(Clone, Debug, PartialEq, Eq)]
pub enum Pending {
    /// A deposit is recorded; the registry is asked who holds the asset.
    Custody(Deposit),
    /// Custody is confirmed; the registry is asked for the metadata.
    Pricing(Deposit),
    /// The price is known; the currency ledger is asked for the balance.
    Funding(Deposit, Coin),
    /// A refund is allowed; the currency ledger is asked for all balances.
    Refund,
}

/// Mathematical value of a [`Pending`].
pub enum PendingView {
    Custody(DepositView),
    Pricing(DepositView),
    Funding(DepositView, CoinView),
    Refund,
}

impl View for Pending {
    type V = PendingView;

    open spec fn view(&self) -> PendingView {
        match self {
            Pending::Custody(deposit) => PendingView::Custody(deposit@),
            Pending::Pricing(deposit) => PendingView::Pricing(deposit@),
            Pending::Funding(deposit, price) => PendingView::Funding(deposit@, price@),
            Pending::Refund => PendingView::Refund,
        }
    }
}

/// How far an operation got.
#[derive(Debug, PartialEq, Eq)]
pub enum Step {
    /// The operation waits for the answer to `query`.
    Ask { pending: Pending, query: Query },
    /// The operation ended.
    Done(Result<Response, ContractError>),
}

/// Mathematical value of a [`Step`].
pub enum StepView {
    Ask { pending: PendingView, query: QueryView },
    Done(Result<ResponseView, ContractError>),
}

impl View for Step {
    type V = StepView;

    open spec fn view(&self) -> StepView {
        match self {
            Step::Ask { pending, query } => StepView::Ask { pending: pending@, query: query@ },
            Step::Done(Ok(response)) => StepView::Done(Ok(response@)),
            Step::Done(Err(e)) => StepView::Done(Err(*e)),
        }
    }
}

/// The step of an operation that failed with `e`.
pub open spec fn refused(e: ContractError) -> StepView {
    StepView::Done(Err(e))
}

} // verus!
