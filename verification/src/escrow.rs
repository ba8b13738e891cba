//! The escrow: an instance holds assets that sellers deposit and the funds
//! that pay for them, and releases an asset and its payment together or
//! not at all.
//!
//! A deposit runs through these steps. The registry notifies the instance
//! ([`execute_receive_nft`]); the notification is turned away unless the
//! registry is trusted, and the asset is recorded in the ledger. The
//! registry is then asked who holds the asset, and must name the instance.
//! It is asked for the metadata, which must carry a price. The currency
//! ledger is asked for the balance in the price's denomination, which must
//! cover the price. Then the deposit is settled: one batch pays the
//! depositor and hands the asset to the payer, and the record leaves the
//! ledger.
//!
//! What a refusal does to the record is a rule of this module. A deposit
//! that fails for want of custody or of funds stays recorded, so that the
//! asset can be recovered with [`execute_recover_owner`]. A deposit whose
//! metadata carries no price is struck from the ledger.

use crate::error::ContractError;
use crate::guard::{ContractInfo, ContractInfoView};
use crate::ledger::{AssetKey, EscrowLedger, OwnerOf, OwnerOfView, TokenOwnerInfo, TokenOwnerInfoView};
use crate::price::{decoding, TokenInfo};
use crate::step::{
    refused, Answer, AnswerView, Deposit, DepositView, Pending, PendingView, Query, QueryView,
    Step, StepView,
};
use crate::text::str_eq;
use crate::types::{
    attr, coin_text, coins_text, coins_to_text, AttributeView, Coin, CoinView, Env,
    Instruction, InstructionView, MessageInfo, Response, ResponseView,
};
use crate::wire::{
    decode_owner_of, encode_transfer_nft, owner_of_payload, transfer_nft_payload, MAX_OWNER_OF_LEN,
};
use vstd::prelude::*;

verus! {

/// What creates an instance.
#[derive(Clone, Debug, PartialEq, Eq)]
pub struct InstantiateMsg {
    /// The registries whose notifications the instance will trust.
    pub source_contracts: Vec<String>,
}

/// A registry's notice that an asset was handed to the instance.
#[derive(Clone, Debug, PartialEq, Eq)]
pub struct Notification {
    /// Who handed the asset over.
    pub sender: String,
    /// The asset.
    pub token_id: String,
    /// The registry's statement of ownership, in its wire form.
    pub msg: Option<Vec<u8>>,
}

impl Notification {
    /// The bytes of the statement that comes with the notice; none where
    /// it comes without.
    pub open spec fn spec_payload(&self) -> Seq<u8> {
        match self.msg {
            Some(bytes) => bytes@,
            None => Seq::empty(),
        }
    }

    /// The statement of ownership that comes with the notice, if one can
    /// be read. A statement of more than [`MAX_OWNER_OF_LEN`] bytes is
    /// not read.
    pub open spec fn spec_custody_proof(&self) -> Option<OwnerOfView> {
        if self.spec_payload().len() <= MAX_OWNER_OF_LEN {
            owner_of_payload(self.spec_payload())
        } else {
            None
        }
    }
}

/// What an instance can be asked to do.
#[derive(Clone, Debug, PartialEq, Eq)]
pub enum ExecuteMsg {
    /// Acknowledge funds that come with the call.
    Deposit {  },
    /// Take notice of an asset that a registry handed over.
    ReceiveNft(Notification),
    /// Give a recorded asset back to its depositor.
    RecoverOwner { contract: String, token_id: String },
    /// Send all funds back to the payer.
    Refund {  },
}

/// What an instance can be asked about.
#[derive(Clone, Copy, Debug, PartialEq, Eq, Structural)]
pub enum QueryMsg {
    /// The configuration.
    ContractInfo {  },
}

/// The configuration, as an instance reports it.
#[derive(Clone, Debug, PartialEq, Eq)]
pub struct ContractInfoResponse {
    pub custodian: String,
    pub source_contracts: Vec<String>,
    pub payer: String,
}

impl View for ContractInfoResponse {
    type V = ContractInfoView;

    open spec fn view(&self) -> ContractInfoView {
        ContractInfoView {
            custodian: self.custodian@,
            source_contracts: self.source_contracts.deep_view(),
            payer: self.payer@,
        }
    }
}

/// The key under which a deposit is recorded.
pub open spec fn key_of(d: DepositView) -> AssetKey {
    (d.registry, d.asset_id)
}

fn clone_strings(list: &Vec<String>) -> (out: Vec<String>)
    ensures
        out.deep_view() == list.deep_view(),
{
    let mut out: Vec<String> = Vec::new();
    let mut i: usize = 0;
    while i < list.len()
        invariant
            i <= list.len(),
            out.len() == i,
            forall|j: int| 0 <= j < i ==> out[j]@ == list[j]@,
        decreases list.len() - i,
    {
        out.push(list[i].clone());
        i += 1;
    }
    assert(out.deep_view() =~= list.deep_view());
    out
}

/// Creates an instance: the caller becomes the payer, the instance's own
/// address the custodian.
pub fn instantiate(env: &Env, info: &MessageInfo, msg: InstantiateMsg) -> (r: Result<
    (ContractInfo, Response),
    ContractError,
>)
    ensures
        r matches Ok((config, response)) && response@ == Response::spec_empty() && config@ == (
        ContractInfoView {
            custodian: env.contract_address@,
            source_contracts: msg.source_contracts.deep_view(),
            payer: info.sender@,
        }),
{
    let config = ContractInfo {
        custodian: env.contract_address.clone(),
        source_contracts: msg.source_contracts,
        payer: info.sender.clone(),
    };
    Ok((config, Response::new()))
}

/// Reports the configuration.
pub fn query(config: &ContractInfo, msg: QueryMsg) -> (response: ContractInfoResponse)
    ensures
        response@ == config@,
{
    match msg {
        QueryMsg::ContractInfo {  } => ContractInfoResponse {
            custodian: config.custodian.clone(),
            source_contracts: clone_strings(&config.source_contracts),
            payer: config.payer.clone(),
        },
    }
}

/// The response to an acknowledged deposit of funds.
pub open spec fn deposit_response(sender: Seq<char>) -> ResponseView {
    ResponseView {
        messages: Seq::empty(),
        attributes: seq![
            AttributeView { key: "action"@, value: "deposit"@ },
            AttributeView { key: "sender"@, value: sender },
        ],
    }
}

/// Acknowledges the funds that come with the call. A call without funds
/// is refused.
pub fn execute_deposit(info: &MessageInfo) -> (r: Result<Response, ContractError>)
    ensures
        info.funds.len() == 0 ==> r == Err::<Response, ContractError>(
            ContractError::InvalidParameter,
        ),
        info.funds.len() > 0 ==> (r matches Ok(response) && response@ == deposit_response(
            info.sender@,
        )),
{
    if info.funds.len() == 0 {
        return Err(ContractError::InvalidParameter);
    }
    let mut attributes = Vec::new();
    attributes.push(attr("action", "deposit"));
    attributes.push(attr("sender", info.sender.as_str()));
    let response = Response { messages: Vec::new(), attributes };
    proof {
        assert(response.messages.deep_view() =~= Seq::empty());
        assert(response.attributes.deep_view() =~= deposit_response(info.sender@).attributes);
    }
    Ok(response)
}

/// What becomes of a notification and of the ledger: the step that
/// follows, and the ledger after it. `custody_proof` is the statement of
/// ownership read from the notification, if one could be read.
pub open spec fn accept_outcome(
    config: ContractInfoView,
    ledger: Map<AssetKey, TokenOwnerInfoView>,
    source: Seq<char>,
    depositor: Seq<char>,
    asset_id: Seq<char>,
    custody_proof: Option<OwnerOfView>,
) -> (StepView, Map<AssetKey, TokenOwnerInfoView>) {
    if !config.trusts(source) {
        (refused(ContractError::Unauthorized), ledger)
    } else if custody_proof is None {
        (refused(ContractError::InvalidParameter), ledger)
    } else if ledger.contains_key((source, asset_id)) {
        (refused(ContractError::DuplicateDeposit), ledger)
    } else {
        (
            StepView::Ask {
                pending: PendingView::Custody(
                    DepositView { registry: source, asset_id, depositor },
                ),
                query: QueryView::CurrentHolder { registry: source, asset_id },
            },
            ledger.insert(
                (source, asset_id),
                TokenOwnerInfoView { sender: depositor, owner_of: custody_proof->0 },
            ),
        )
    }
}

/// Takes notice of an asset that `source` says `depositor` handed over,
/// with the statement of ownership already read.
///
/// A notification of a registry that is not trusted is refused before
/// anything else is looked at, and leaves no record.
pub fn accept(
    config: &ContractInfo,
    ledger: &mut EscrowLedger,
    source: String,
    depositor: String,
    asset_id: String,
    custody_proof: Option<OwnerOf>,
) -> (step: Step)
    ensures
        step@ == accept_outcome(
            config@,
            old(ledger)@,
            source@,
            depositor@,
            asset_id@,
            match custody_proof {
                Some(o) => Some(o@),
                None => None,
            },
        ).0,
        final(ledger)@ == accept_outcome(
            config@,
            old(ledger)@,
            source@,
            depositor@,
            asset_id@,
            match custody_proof {
                Some(o) => Some(o@),
                None => None,
            },
        ).1,
        !config@.trusts(source@) ==> step@ == refused(ContractError::Unauthorized)
            && final(ledger)@ == old(ledger)@,
{
    if !config.is_trusted(source.as_str()) {
        return Step::Done(Err(ContractError::Unauthorized));
    }
    let owner_of = match custody_proof {
        Some(owner_of) => owner_of,
        None => {
            return Step::Done(Err(ContractError::InvalidParameter));
        },
    };
    let info = TokenOwnerInfo { sender: depositor.clone(), owner_of };
    match ledger.record(source.clone(), asset_id.clone(), info) {
        Ok(_) => {},
        Err(e) => {
            return Step::Done(Err(e));
        },
    }
    let query = Query::CurrentHolder { registry: source.clone(), asset_id: asset_id.clone() };
    Step::Ask { pending: Pending::Custody(Deposit { registry: source, asset_id, depositor }), query }
}

/// Takes notice of an asset that a registry handed over. The caller of
/// the operation is the registry that notifies.
///
/// A notification of a registry that is not trusted is refused before
/// anything else is looked at, and leaves no record.
pub fn execute_receive_nft(
    config: &ContractInfo,
    ledger: &mut EscrowLedger,
    info: &MessageInfo,
    msg: Notification,
) -> (step: Step)
    ensures
        step@ == accept_outcome(
            config@,
            old(ledger)@,
            info.sender@,
            msg.sender@,
            msg.token_id@,
            msg.spec_custody_proof(),
        ).0,
        final(ledger)@ == accept_outcome(
            config@,
            old(ledger)@,
            info.sender@,
            msg.sender@,
            msg.token_id@,
            msg.spec_custody_proof(),
        ).1,
        !config@.trusts(info.sender@) ==> step@ == refused(ContractError::Unauthorized)
            && final(ledger)@ == old(ledger)@,
{
    let payload = match msg.msg {
        Some(bytes) => bytes,
        None => Vec::new(),
    };
    let custody_proof = if payload.len() <= MAX_OWNER_OF_LEN {
        decode_owner_of(&payload)
    } else {
        None
    };
    accept(config, ledger, info.sender.clone(), msg.sender, msg.token_id, custody_proof)
}

/// The response to a settled deposit: the batch that pays `price` to the
/// depositor and hands the asset to the payer, in this order.
pub open spec fn settled_response(
    config: ContractInfoView,
    d: DepositView,
    price: CoinView,
    payload: Seq<u8>,
) -> ResponseView {
    ResponseView {
        messages: seq![
            InstructionView::CurrencyTransfer { to_address: d.depositor, amount: seq![price] },
            InstructionView::RegistryTransfer {
                registry: d.registry,
                asset_id: d.asset_id,
                new_owner: config.payer,
                payload,
            },
        ],
        attributes: seq![
            AttributeView { key: "action"@, value: "receive_nft"@ },
            AttributeView { key: "sender"@, value: d.depositor },
            AttributeView { key: "sender_contract"@, value: d.registry },
            AttributeView { key: "token_id"@, value: d.asset_id },
            AttributeView { key: "price"@, value: coin_text(price) },
        ],
    }
}

/// Whether a balance covers a price. A balance of nothing covers no
/// price, not even a price of nothing.
pub open spec fn covers(balance: nat, price: CoinView) -> bool {
    balance >= 1 && balance >= price.amount
}

/// What becomes of a priced deposit and of the ledger, given the
/// custodian's balance in the price's denomination and the wire form of
/// the asset's transfer, if it has one.
pub open spec fn settle_outcome(
    config: ContractInfoView,
    ledger: Map<AssetKey, TokenOwnerInfoView>,
    d: DepositView,
    price: CoinView,
    balance: nat,
    payload: Option<Seq<u8>>,
) -> (Result<ResponseView, ContractError>, Map<AssetKey, TokenOwnerInfoView>) {
    if !covers(balance, price) {
        (Err(ContractError::InsufficientFunds), ledger)
    } else if payload is None {
        (Err(ContractError::InvalidParameter), ledger)
    } else if !ledger.contains_key(key_of(d)) {
        (Err(ContractError::NotFound), ledger)
    } else {
        (Ok(settled_response(config, d, price, payload->0)), ledger.remove(key_of(d)))
    }
}

/// The amount of `denom` among `coins`.
pub open spec fn amount_of(coins: Seq<CoinView>, denom: Seq<char>) -> nat
    decreases coins.len(),
{
    if coins.len() == 0 {
        0
    } else {
        amount_of(coins.drop_last(), denom) + if coins.last().denom == denom {
            coins.last().amount
        } else {
            0
        }
    }
}

/// The amount of `denom` that a batch takes out of the custodian's
/// balance.
pub open spec fn debited(batch: Seq<InstructionView>, denom: Seq<char>) -> nat
    decreases batch.len(),
{
    if batch.len() == 0 {
        0
    } else {
        debited(batch.drop_last(), denom) + match batch.last() {
            InstructionView::CurrencyTransfer { amount, .. } => amount_of(amount, denom),
            InstructionView::RegistryTransfer { .. } => 0,
        }
    }
}

/// The batch of a settled deposit takes the price out of the custodian's
/// balance, and nothing else.
pub proof fn lemma_settlement_debits_price(
    config: ContractInfoView,
    d: DepositView,
    price: CoinView,
    payload: Seq<u8>,
    denom: Seq<char>,
)
    ensures
        debited(settled_response(config, d, price, payload).messages, price.denom) == price.amount,
        denom != price.denom ==> debited(
            settled_response(config, d, price, payload).messages,
            denom,
        ) == 0,
{
    let batch = settled_response(config, d, price, payload).messages;
    let first = batch.drop_last();
    let none = first.drop_last();
    let coins = seq![price];
    assert(batch.len() == 2);
    assert(batch.last() == batch[1]);
    assert(first.len() == 1);
    assert(first.last() == batch[0]);
    assert(none.len() == 0);
    assert(coins.len() == 1);
    assert(coins.last() == price);
    assert(coins.drop_last().len() == 0);
    assert(amount_of(coins.drop_last(), price.denom) == 0);
    assert(amount_of(coins.drop_last(), denom) == 0);
    assert(amount_of(coins, price.denom) == price.amount);
    assert(denom != price.denom ==> amount_of(coins, denom) == 0);
    assert(debited(none, price.denom) == 0);
    assert(debited(none, denom) == 0);
    assert(debited(first, price.denom) == price.amount);
    assert(denom != price.denom ==> debited(first, denom) == 0);
    assert(debited(batch, price.denom) == debited(first, price.denom));
    assert(debited(batch, denom) == debited(first, denom));
}

/// Settles a priced deposit, given the custodian's balance in the
/// price's denomination and the wire form of the asset's transfer.
///
/// A balance that covers the price settles; a lower one is refused and the
/// record stays. A settled deposit pays the depositor the price, hands the
/// asset to the payer and leaves the ledger without the record.
pub fn settle(
    config: &ContractInfo,
    ledger: &mut EscrowLedger,
    deposit: Deposit,
    price: Coin,
    balance: u128,
    payload: Option<Vec<u8>>,
) -> (r: Result<Response, ContractError>)
    ensures
        match r {
            Ok(response) => Ok::<ResponseView, ContractError>(response@),
            Err(e) => Err(e),
        } == settle_outcome(
            config@,
            old(ledger)@,
            deposit@,
            price@,
            balance as nat,
            match payload {
                Some(bytes) => Some(bytes@),
                None => None,
            },
        ).0,
        final(ledger)@ == settle_outcome(
            config@,
            old(ledger)@,
            deposit@,
            price@,
            balance as nat,
            match payload {
                Some(bytes) => Some(bytes@),
                None => None,
            },
        ).1,
        r matches Ok(response) ==> {
            &&& !final(ledger)@.contains_key(key_of(deposit@))
            &&& debited(response@.messages, price.denom@) == price.amount
            &&& balance >= price.amount
            &&& balance - debited(response@.messages, price.denom@) == balance - price.amount
        },
        balance < price.amount ==> r == Err::<Response, ContractError>(
            ContractError::InsufficientFunds,
        ),
{
    if balance == 0 || balance < price.amount {
        return Err(ContractError::InsufficientFunds);
    }
    let payload = match payload {
        Some(bytes) => bytes,
        None => {
            return Err(ContractError::InvalidParameter);
        },
    };
    match ledger.take(deposit.registry.as_str(), deposit.asset_id.as_str()) {
        Ok(_) => {},
        Err(e) => {
            return Err(e);
        },
    }
    let ghost expected = settled_response(config@, deposit@, price@, payload@);
    let mut attributes = Vec::new();
    attributes.push(attr("action", "receive_nft"));
    attributes.push(attr("sender", deposit.depositor.as_str()));
    attributes.push(attr("sender_contract", deposit.registry.as_str()));
    attributes.push(attr("token_id", deposit.asset_id.as_str()));
    let price_text = price.to_string();
    attributes.push(attr("price", price_text.as_str()));
    let mut amount = Vec::new();
    amount.push(price);
    assert(amount.deep_view() =~= seq![price@]);
    let mut messages = Vec::new();
    messages.push(Instruction::CurrencyTransfer { to_address: deposit.depositor, amount });
    messages.push(
        Instruction::RegistryTransfer {
            registry: deposit.registry,
            asset_id: deposit.asset_id,
            new_owner: config.payer.clone(),
            payload,
        },
    );
    let response = Response { messages, attributes };
    proof {
        assert(response.messages.deep_view() =~= expected.messages);
        assert(response.attributes.deep_view() =~= expected.attributes);
        lemma_settlement_debits_price(config@, deposit@, price@, payload@, price@.denom);
    }
    Ok(response)
}

/// The response to a refund: one transfer of everything held to the
/// payer.
pub open spec fn refund_response(config: ContractInfoView, balances: Seq<CoinView>) -> ResponseView {
    ResponseView {
        messages: seq![
            InstructionView::CurrencyTransfer { to_address: config.payer, amount: balances },
        ],
        attributes: seq![
            AttributeView { key: "action"@, value: "refund"@ },
            AttributeView { key: "sender_contract"@, value: config.payer },
            AttributeView { key: "refund"@, value: coins_text(balances) },
        ],
    }
}

/// The price in the metadata that was answered, if metadata was answered
/// and carries one.
pub open spec fn answered_price(answer: AnswerView) -> Option<CoinView> {
    match answer {
        AnswerView::Metadata(text) => decoding(text),
        _ => None,
    }
}

/// The balance that was answered; nothing where none was.
pub open spec fn answered_balance(answer: AnswerView) -> nat {
    match answer {
        AnswerView::Balance(amount) => amount,
        _ => 0,
    }
}

/// What becomes of an operation that stopped to ask, once the answer is
/// there: the step that follows, and the ledger after it.
///
/// An answer of another kind than the question counts as no answer.
pub open spec fn resume_outcome(
    config: ContractInfoView,
    ledger: Map<AssetKey, TokenOwnerInfoView>,
    pending: PendingView,
    answer: AnswerView,
) -> (StepView, Map<AssetKey, TokenOwnerInfoView>) {
    match pending {
        PendingView::Custody(d) => {
            if answer == AnswerView::Holder(config.custodian) {
                (
                    StepView::Ask {
                        pending: PendingView::Pricing(d),
                        query: QueryView::Metadata { registry: d.registry, asset_id: d.asset_id },
                    },
                    ledger,
                )
            } else {
                (refused(ContractError::CustodyMismatch), ledger)
            }
        },
        PendingView::Pricing(d) => {
            match answered_price(answer) {
                Some(price) => (
                    StepView::Ask {
                        pending: PendingView::Funding(d, price),
                        query: QueryView::Balance { address: config.custodian, denom: price.denom },
                    },
                    ledger,
                ),
                None => (refused(ContractError::MalformedPrice), ledger.remove(key_of(d))),
            }
        },
        PendingView::Funding(d, price) => {
            let settled = settle_outcome(
                config,
                ledger,
                d,
                price,
                answered_balance(answer),
                transfer_nft_payload(config.payer, d.asset_id),
            );
            (StepView::Done(settled.0), settled.1)
        },
        PendingView::Refund => {
            match answer {
                AnswerView::AllBalances(balances) => (
                    StepView::Done(Ok(refund_response(config, balances))),
                    ledger,
                ),
                _ => (refused(ContractError::InsufficientFunds), ledger),
            }
        },
    }
}

fn confirm_custody(config: &ContractInfo, deposit: Deposit, answer: Answer) -> (step: Step)
    ensures
        step@ == resume_outcome(
            config@,
            Map::empty(),
            PendingView::Custody(deposit@),
            answer@,
        ).0,
{
    let confirmed = match &answer {
        Answer::Holder(holder) => str_eq(holder.as_str(), config.custodian.as_str()),
        _ => false,
    };
    if !confirmed {
        return Step::Done(Err(ContractError::CustodyMismatch));
    }
    let query = Query::Metadata {
        registry: deposit.registry.clone(),
        asset_id: deposit.asset_id.clone(),
    };
    Step::Ask { pending: Pending::Pricing(deposit), query }
}

fn read_price(
    config: &ContractInfo,
    ledger: &mut EscrowLedger,
    deposit: Deposit,
    answer: Answer,
) -> (step: Step)
    ensures
        step@ == resume_outcome(config@, old(ledger)@, PendingView::Pricing(deposit@), answer@).0,
        final(ledger)@ == resume_outcome(
            config@,
            old(ledger)@,
            PendingView::Pricing(deposit@),
            answer@,
        ).1,
{
    let decoded = match &answer {
        Answer::Metadata(text) => TokenInfo::decode(text.as_str()),
        _ => Err(ContractError::MalformedPrice),
    };
    match decoded {
        Ok(info) => {
            let query = Query::Balance {
                address: config.custodian.clone(),
                denom: info.price.denom.clone(),
            };
            Step::Ask { pending: Pending::Funding(deposit, info.price), query }
        },
        Err(e) => {
            let ghost before = ledger@;
            let struck = ledger.take(deposit.registry.as_str(), deposit.asset_id.as_str());
            proof {
                if struck is Err {
                    assert(before.remove(key_of(deposit@)) =~= before);
                }
            }
            Step::Done(Err(e))
        },
    }
}

fn sweep(config: &ContractInfo, answer: Answer) -> (r: Result<Response, ContractError>)
    ensures
        StepView::Done(
            match r {
                Ok(response) => Ok(response@),
                Err(e) => Err(e),
            },
        ) == resume_outcome(config@, Map::empty(), PendingView::Refund, answer@).0,
{
    let balances = match answer {
        Answer::AllBalances(balances) => balances,
        _ => {
            return Err(ContractError::InsufficientFunds);
        },
    };
    let ghost expected = refund_response(config@, balances.deep_view());
    let mut attributes = Vec::new();
    attributes.push(attr("action", "refund"));
    attributes.push(attr("sender_contract", config.payer.as_str()));
    let listed = coins_to_text(&balances);
    attributes.push(attr("refund", listed.as_str()));
    let mut messages = Vec::new();
    messages.push(Instruction::CurrencyTransfer { to_address: config.payer.clone(), amount: balances });
    let response = Response { messages, attributes };
    proof {
        assert(response.messages.deep_view() =~= expected.messages);
        assert(response.attributes.deep_view() =~= expected.attributes);
    }
    Ok(response)
}

/// Goes on with an operation that stopped to ask, now that the host has
/// the answer.
pub fn resume(
    config: &ContractInfo,
    ledger: &mut EscrowLedger,
    pending: Pending,
    answer: Answer,
) -> (step: Step)
    ensures
        step@ == resume_outcome(config@, old(ledger)@, pending@, answer@).0,
        final(ledger)@ == resume_outcome(config@, old(ledger)@, pending@, answer@).1,
{
    match pending {
        Pending::Custody(deposit) => confirm_custody(config, deposit, answer),
        Pending::Pricing(deposit) => read_price(config, ledger, deposit, answer),
        Pending::Funding(deposit, price) => {
            let balance = match answer {
                Answer::Balance(amount) => amount,
                _ => 0,
            };
            let payload = encode_transfer_nft(config.payer.as_str(), deposit.asset_id.as_str());
            Step::Done(settle(config, ledger, deposit, price, balance, payload))
        },
        Pending::Refund => Step::Done(sweep(config, answer)),
    }
}

/// Asks for a refund: everything the instance holds goes back to the
/// payer. Only the payer may ask. Records in the ledger are not touched:
/// a deposit that waits for funds will not find them after a refund.
pub fn execute_refund(config: &ContractInfo, info: &MessageInfo) -> (step: Step)
    ensures
        info.sender@ != config.payer@ ==> step@ == refused(ContractError::Unauthorized),
        info.sender@ == config.payer@ ==> step@ == (StepView::Ask {
            pending: PendingView::Refund,
            query: QueryView::AllBalances { address: config.custodian@ },
        }),
{
    if !str_eq(info.sender.as_str(), config.payer.as_str()) {
        return Step::Done(Err(ContractError::Unauthorized));
    }
    Step::Ask {
        pending: Pending::Refund,
        query: Query::AllBalances { address: config.custodian.clone() },
    }
}

/// The response to a recovery: the one instruction that hands the asset
/// back to its depositor.
pub open spec fn recovered_response(
    contract: Seq<char>,
    token_id: Seq<char>,
    depositor: Seq<char>,
    payload: Seq<u8>,
) -> ResponseView {
    ResponseView {
        messages: seq![
            InstructionView::RegistryTransfer {
                registry: contract,
                asset_id: token_id,
                new_owner: depositor,
                payload,
            },
        ],
        attributes: seq![
            AttributeView { key: "action"@, value: "recover_owner"@ },
            AttributeView { key: "sender"@, value: depositor },
            AttributeView { key: "sender_contract"@, value: contract },
            AttributeView { key: "token_id"@, value: token_id },
        ],
    }
}

/// Whether `caller` may recover an asset that `depositor` deposited: the
/// payer may, and the depositor may.
pub open spec fn may_recover(config: ContractInfoView, caller: Seq<char>, depositor: Seq<char>) -> bool {
    caller == config.payer || caller == depositor
}

/// What becomes of a recovery and of the ledger, given the wire form of
/// the asset's transfer to its depositor, if it has one.
pub open spec fn release_outcome(
    config: ContractInfoView,
    ledger: Map<AssetKey, TokenOwnerInfoView>,
    caller: Seq<char>,
    contract: Seq<char>,
    token_id: Seq<char>,
    payload: Option<Seq<u8>>,
) -> (Result<ResponseView, ContractError>, Map<AssetKey, TokenOwnerInfoView>) {
    if !ledger.contains_key((contract, token_id)) {
        (Err(ContractError::NotFound), ledger)
    } else if !may_recover(config, caller, ledger[(contract, token_id)].sender) {
        (Err(ContractError::Unauthorized), ledger)
    } else if payload is None {
        (Err(ContractError::InvalidParameter), ledger)
    } else {
        (
            Ok(
                recovered_response(
                    contract,
                    token_id,
                    ledger[(contract, token_id)].sender,
                    payload->0,
                ),
            ),
            ledger.remove((contract, token_id)),
        )
    }
}

/// Hands a recorded asset back to its depositor, given the wire form of
/// that transfer. The record leaves the ledger.
pub fn release(
    config: &ContractInfo,
    ledger: &mut EscrowLedger,
    caller: &str,
    contract: String,
    token_id: String,
    payload: Option<Vec<u8>>,
) -> (r: Result<Response, ContractError>)
    ensures
        match r {
            Ok(response) => Ok::<ResponseView, ContractError>(response@),
            Err(e) => Err(e),
        } == release_outcome(
            config@,
            old(ledger)@,
            caller@,
            contract@,
            token_id@,
            match payload {
                Some(bytes) => Some(bytes@),
                None => None,
            },
        ).0,
        final(ledger)@ == release_outcome(
            config@,
            old(ledger)@,
            caller@,
            contract@,
            token_id@,
            match payload {
                Some(bytes) => Some(bytes@),
                None => None,
            },
        ).1,
{
    let allowed = match ledger.get(contract.as_str(), token_id.as_str()) {
        Some(info) => str_eq(caller, config.payer.as_str()) || str_eq(caller, info.sender.as_str()),
        None => {
            return Err(ContractError::NotFound);
        },
    };
    if !allowed {
        return Err(ContractError::Unauthorized);
    }
    let payload = match payload {
        Some(bytes) => bytes,
        None => {
            return Err(ContractError::InvalidParameter);
        },
    };
    let info = match ledger.take(contract.as_str(), token_id.as_str()) {
        Ok(info) => info,
        Err(e) => {
            return Err(e);
        },
    };
    let ghost expected = recovered_response(contract@, token_id@, info.sender@, payload@);
    let mut attributes = Vec::new();
    attributes.push(attr("action", "recover_owner"));
    attributes.push(attr("sender", info.sender.as_str()));
    attributes.push(attr("sender_contract", contract.as_str()));
    attributes.push(attr("token_id", token_id.as_str()));
    let mut messages = Vec::new();
    messages.push(
        Instruction::RegistryTransfer {
            registry: contract,
            asset_id: token_id,
            new_owner: info.sender,
            payload,
        },
    );
    let response = Response { messages, attributes };
    proof {
        assert(response.messages.deep_view() =~= expected.messages);
        assert(response.attributes.deep_view() =~= expected.attributes);
    }
    Ok(response)
}

/// What becomes of a recovery and of the ledger.
pub open spec fn recover_outcome(
    config: ContractInfoView,
    ledger: Map<AssetKey, TokenOwnerInfoView>,
    caller: Seq<char>,
    contract: Seq<char>,
    token_id: Seq<char>,
) -> (Result<ResponseView, ContractError>, Map<AssetKey, TokenOwnerInfoView>) {
    release_outcome(
        config,
        ledger,
        caller,
        contract,
        token_id,
        if ledger.contains_key((contract, token_id)) {
            transfer_nft_payload(ledger[(contract, token_id)].sender, token_id)
        } else {
            None
        },
    )
}

/// Hands a recorded asset back to its depositor, without payment. It is
/// meant for a deposit that was recorded and never settled. The payer
/// may ask for it, and so may the depositor of the asset; the asset goes
/// to its depositor whoever asks.
pub fn execute_recover_owner(
    config: &ContractInfo,
    ledger: &mut EscrowLedger,
    info: &MessageInfo,
    contract: String,
    token_id: String,
) -> (r: Result<Response, ContractError>)
    ensures
        match r {
            Ok(response) => Ok::<ResponseView, ContractError>(response@),
            Err(e) => Err(e),
        } == recover_outcome(config@, old(ledger)@, info.sender@, contract@, token_id@).0,
        final(ledger)@ == recover_outcome(
            config@,
            old(ledger)@,
            info.sender@,
            contract@,
            token_id@,
        ).1,
{
    let payload = match ledger.get(contract.as_str(), token_id.as_str()) {
        Some(record) => encode_transfer_nft(record.sender.as_str(), token_id.as_str()),
        None => None,
    };
    release(config, ledger, info.sender.as_str(), contract, token_id, payload)
}

/// Runs an operation up to its first question or to its end.
pub fn execute(
    config: &ContractInfo,
    ledger: &mut EscrowLedger,
    info: &MessageInfo,
    msg: ExecuteMsg,
) -> (step: Step)
    ensures
        match msg {
            ExecuteMsg::Deposit {  } => {
                &&& final(ledger)@ == old(ledger)@
                &&& info.funds.len() == 0 ==> step@ == refused(ContractError::InvalidParameter)
                &&& info.funds.len() > 0 ==> step@ == StepView::Done(
                    Ok(deposit_response(info.sender@)),
                )
            },
            ExecuteMsg::ReceiveNft(notification) => {
                &&& step@ == accept_outcome(
                    config@,
                    old(ledger)@,
                    info.sender@,
                    notification.sender@,
                    notification.token_id@,
                    notification.spec_custody_proof(),
                ).0
                &&& final(ledger)@ == accept_outcome(
                    config@,
                    old(ledger)@,
                    info.sender@,
                    notification.sender@,
                    notification.token_id@,
                    notification.spec_custody_proof(),
                ).1
            },
            ExecuteMsg::RecoverOwner { contract, token_id } => {
                &&& step@ == StepView::Done(
                    recover_outcome(config@, old(ledger)@, info.sender@, contract@, token_id@).0,
                )
                &&& final(ledger)@ == recover_outcome(
                    config@,
                    old(ledger)@,
                    info.sender@,
                    contract@,
                    token_id@,
                ).1
            },
            ExecuteMsg::Refund {  } => {
                &&& final(ledger)@ == old(ledger)@
                &&& info.sender@ != config.payer@ ==> step@ == refused(ContractError::Unauthorized)
                &&& info.sender@ == config.payer@ ==> step@ == (StepView::Ask {
                    pending: PendingView::Refund,
                    query: QueryView::AllBalances { address: config.custodian@ },
                })
            },
        },
{
    match msg {
        ExecuteMsg::Deposit {  } => Step::Done(execute_deposit(info)),
        ExecuteMsg::ReceiveNft(notification) => execute_receive_nft(
            config,
            ledger,
            info,
            notification,
        ),
        ExecuteMsg::RecoverOwner { contract, token_id } => Step::Done(
            execute_recover_owner(config, ledger, info, contract, token_id),
        ),
        ExecuteMsg::Refund {  } => execute_refund(config, info),
    }
}

/// A notification of a registry that is not trusted is refused as
/// unauthorized, and the ledger stays as it was.
pub proof fn lemma_untrusted_registry_refused(
    config: ContractInfoView,
    ledger: Map<AssetKey, TokenOwnerInfoView>,
    source: Seq<char>,
    depositor: Seq<char>,
    asset_id: Seq<char>,
    custody_proof: Option<OwnerOfView>,
)
    requires
        !config.trusts(source),
    ensures
        accept_outcome(config, ledger, source, depositor, asset_id, custody_proof) == (
            refused(ContractError::Unauthorized),
            ledger,
        ),
{
}

/// A settled deposit takes the price, and no more, out of the custodian's
/// balance in the price's denomination, and its record is gone from the
/// ledger.
pub proof fn lemma_settlement_is_exact(
    config: ContractInfoView,
    ledger: Map<AssetKey, TokenOwnerInfoView>,
    d: DepositView,
    price: CoinView,
    balance: nat,
    payload: Option<Seq<u8>>,
)
    requires
        settle_outcome(config, ledger, d, price, balance, payload).0 is Ok,
    ensures
        ({
            let settled = settle_outcome(config, ledger, d, price, balance, payload);
            let batch = settled.0->Ok_0.messages;
            &&& balance >= debited(batch, price.denom)
            &&& balance - debited(batch, price.denom) == balance - price.amount
            &&& !settled.1.contains_key(key_of(d))
        }),
{
    lemma_settlement_debits_price(config, d, price, payload->0, price.denom);
}

/// A balance equal to the price settles a recorded deposit; a balance one
/// unit below the price is refused for want of funds.
pub proof fn lemma_funding_boundary(
    config: ContractInfoView,
    ledger: Map<AssetKey, TokenOwnerInfoView>,
    d: DepositView,
    price: CoinView,
    payload: Seq<u8>,
)
    requires
        price.amount >= 1,
        ledger.contains_key(key_of(d)),
    ensures
        settle_outcome(config, ledger, d, price, price.amount, Some(payload)) == (
            Ok::<ResponseView, ContractError>(settled_response(config, d, price, payload)),
            ledger.remove(key_of(d)),
        ),
        settle_outcome(config, ledger, d, price, (price.amount - 1) as nat, Some(payload)) == (
            Err::<ResponseView, ContractError>(ContractError::InsufficientFunds),
            ledger,
        ),
{
}

/// Recovering an asset twice gives it back once: where the first call
/// succeeds, it emits one instruction, and the second call finds no
/// record and emits none, whoever makes it.
pub proof fn lemma_recover_once(
    config: ContractInfoView,
    ledger: Map<AssetKey, TokenOwnerInfoView>,
    caller: Seq<char>,
    again: Seq<char>,
    contract: Seq<char>,
    token_id: Seq<char>,
)
    ensures
        ({
            let first = recover_outcome(config, ledger, caller, contract, token_id);
            let second = recover_outcome(config, first.1, again, contract, token_id);
            &&& first.0 is Ok ==> first.0->Ok_0.messages.len() == 1
            &&& first.0 is Ok ==> second == (
                Err::<ResponseView, ContractError>(ContractError::NotFound),
                first.1,
            )
            &&& first.0 is Err ==> first.1 == ledger
        }),
{
}

} // verus!
