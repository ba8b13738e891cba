//! Payment by milestones: a payer locks funds for a joiner, and each term
//! of payment is released once the joiner's recorded achievement meets
//! the term. The payer records the achievement; the joiner claims what is
//! due; after the end time anyone may send what is left back to the payer.

use crate::text::{bool_string, bool_text, decimal, decimal_string, str_eq};
use crate::types::{
    attr, coin_text, AttributeView, Coin, CoinView, Env, Instruction, InstructionView,
    MessageInfo, Response, ResponseView,
};
use vstd::prelude::*;
use vstd::string::*;

verus! {

/// Why an operation on a milestone escrow is refused.
#[derive(Clone, Debug, PartialEq, Eq)]
pub enum ContractError {
    /// The caller is not the one who may ask for this.
    Unauthorized { msg: String },
    /// The escrow's end time has passed.
    Expired { end_time: Option<u64> },
    /// The arguments of the call cannot be used.
    InvalidParameter { treatments: Option<u64>, period_days: Option<u64> },
    /// No term of payment is due.
    NotAchievementContract {  },
    /// The escrow's end time has not passed yet.
    NotExpired {  },
}

/// What a term of payment asks of the joiner.
#[derive(Clone, Copy, Debug, PartialEq, Eq, Structural)]
pub struct ContractContent {
    /// The number of treatments to reach.
    pub treatments: u64,
    /// Whether an insurance claim must have been made.
    pub insurance_claim: bool,
    /// The days that must have passed, where no claim is asked for.
    pub period_days: u64,
}

impl ContractContent {
    /// How the content is written.
    pub open spec fn spec_to_string(&self) -> Seq<char> {
        "treatments: "@ + decimal(self.treatments as nat) + ", insurance_claim: "@ + bool_text(
            self.insurance_claim,
        ) + ", period_days: "@ + decimal(self.period_days as nat)
    }

    /// Writes the content, as in
    /// `treatments: 100, insurance_claim: true, period_days: 0`.
    pub fn to_string(&self) -> (text: String)
        ensures
            text@ == self.spec_to_string(),
    {
        let mut text = "treatments: ".to_owned();
        text.append(decimal_string(self.treatments as u128).as_str());
        text.append(", insurance_claim: ");
        text.append(bool_string(self.insurance_claim).as_str());
        text.append(", period_days: ");
        text.append(decimal_string(self.period_days as u128).as_str());
        text
    }
}

/// One term of payment: an amount, and what releases it.
#[derive(Debug, PartialEq, Eq)]
pub struct TermOfPayment {
    pub id: String,
    pub contract_content: ContractContent,
    pub amount: Coin,
    /// Whether the amount was paid out.
    pub is_payment: bool,
}

/// Mathematical value of a [`TermOfPayment`].
pub struct TermOfPaymentView {
    pub id: Seq<char>,
    pub contract_content: ContractContent,
    pub amount: CoinView,
    pub is_payment: bool,
}

impl View for TermOfPayment {
    type V = TermOfPaymentView;

    open spec fn view(&self) -> TermOfPaymentView {
        TermOfPaymentView {
            id: self.id@,
            contract_content: self.contract_content,
            amount: self.amount@,
            is_payment: self.is_payment,
        }
    }
}

impl DeepView for TermOfPayment {
    type V = TermOfPaymentView;

    open spec fn deep_view(&self) -> TermOfPaymentView {
        self@
    }
}

impl TermOfPaymentView {
    /// How the term is written.
    pub open spec fn to_string(self) -> Seq<char> {
        "id: "@ + self.id + ", contract_content: "@ + self.contract_content.spec_to_string()
            + ", amount:"@ + coin_text(self.amount) + ", is_payment:"@ + bool_text(self.is_payment)
    }
}

impl TermOfPayment {
    /// Writes the term: its identifier, its content, its amount and
    /// whether it was paid.
    pub fn to_string(&self) -> (text: String)
        ensures
            text@ == self@.to_string(),
    {
        let mut text = "id: ".to_owned();
        text.append(self.id.as_str());
        text.append(", contract_content: ");
        text.append(self.contract_content.to_string().as_str());
        text.append(", amount:");
        text.append(self.amount.to_string().as_str());
        text.append(", is_payment:");
        text.append(bool_string(self.is_payment).as_str());
        text
    }
}

impl Clone for TermOfPayment {
    fn clone(&self) -> (t: TermOfPayment)
        ensures
            t@ == self@,
    {
        TermOfPayment {
            id: self.id.clone(),
            contract_content: self.contract_content,
            amount: self.amount.clone(),
            is_payment: self.is_payment,
        }
    }
}

/// What the joiner has achieved so far.
#[derive(Clone, Copy, Debug, PartialEq, Eq, Structural)]
pub struct Achievement {
    pub treatments: u64,
    pub insurance_claim: bool,
}

/// The nanoseconds in a millisecond.
pub const NANOS_PER_MILLI: u64 = 1000000;

/// The milliseconds in a day.
pub const MILLIS_PER_DAY: u64 = 86400000;

impl Achievement {
    /// Whether the achievement meets `content` at the time `now`.
    ///
    /// Too few treatments never do. With enough of them, a term that asks
    /// for an insurance claim is met by the claim alone; a term that asks
    /// for none is met once `now` has reached the start time plus the
    /// term's period in milliseconds.
    pub open spec fn spec_is_achievement(
        &self,
        content: ContractContent,
        start_time: Option<u64>,
        now: u64,
    ) -> bool {
        if content.treatments > self.treatments {
            false
        } else if content.insurance_claim {
            self.insurance_claim
        } else {
            now >= start_time->0 + content.period_days * MILLIS_PER_DAY
        }
    }

    /// Whether `start_time` is there where [`Achievement::is_achievement`]
    /// reads it.
    pub open spec fn reads_start_time(&self, content: ContractContent) -> bool {
        content.treatments <= self.treatments && !content.insurance_claim
    }

    /// Whether the achievement meets `contract_content` at the time of
    /// `env`.
    pub fn is_achievement(
        &self,
        contract_content: &ContractContent,
        start_time: Option<u64>,
        env: &Env,
    ) -> (met: bool)
        requires
            self.reads_start_time(*contract_content) ==> start_time is Some,
        ensures
            met == self.spec_is_achievement(*contract_content, start_time, env.time_nanos),
    {
        if contract_content.treatments > self.treatments {
            return false;
        } else if contract_content.insurance_claim {
            if !self.insurance_claim {
                return false;
            }
        } else {
            let start: u128 = start_time.unwrap() as u128;
            let period: u128 = contract_content.period_days as u128 * MILLIS_PER_DAY as u128;
            if (env.time_nanos as u128) < start + period {
                return false;
            }
        }
        true
    }

    /// Overwrites the parts of the achievement that are given.
    pub fn update(&mut self, treatments: Option<u64>, insurance_claim: Option<bool>)
        ensures
            final(self).treatments == match treatments {
                Some(count) => count,
                None => old(self).treatments,
            },
            final(self).insurance_claim == match insurance_claim {
                Some(claimed) => claimed,
                None => old(self).insurance_claim,
            },
    {
        if let Some(count) = treatments {
            self.treatments = count;
        }
        if let Some(claimed) = insurance_claim {
            self.insurance_claim = claimed;
        }
    }
}

/// All that a milestone escrow holds.
#[derive(Clone, Debug, PartialEq, Eq)]
pub struct State {
    pub payer: String,
    pub joiner: String,
    pub total_amount: Vec<Coin>,
    pub term_of_payments: Vec<TermOfPayment>,
    pub achievement: Achievement,
    pub start_time_millis: Option<u64>,
    pub end_time_millis: Option<u64>,
}

/// Mathematical value of a [`State`].
pub struct StateView {
    pub payer: Seq<char>,
    pub joiner: Seq<char>,
    pub total_amount: Seq<CoinView>,
    pub term_of_payments: Seq<TermOfPaymentView>,
    pub achievement: Achievement,
    pub start_time_millis: Option<u64>,
    pub end_time_millis: Option<u64>,
}

impl View for State {
    type V = StateView;

    open spec fn view(&self) -> StateView {
        StateView {
            payer: self.payer@,
            joiner: self.joiner@,
            total_amount: self.total_amount.deep_view(),
            term_of_payments: self.term_of_payments.deep_view(),
            achievement: self.achievement,
            start_time_millis: self.start_time_millis,
            end_time_millis: self.end_time_millis,
        }
    }
}

/// Whether an end time has passed at `now`, a time in nanoseconds.
pub open spec fn expired_at(end_time_millis: Option<u64>, now: u64) -> bool {
    end_time_millis matches Some(end) && now > end * NANOS_PER_MILLI
}

/// Whether a term is due: not paid yet, and met by the achievement.
pub open spec fn is_due(
    term: TermOfPaymentView,
    achievement: Achievement,
    start_time: Option<u64>,
    now: u64,
) -> bool {
    !term.is_payment && achievement.spec_is_achievement(term.contract_content, start_time, now)
}

/// The amounts of the terms that are due, in the order of the terms.
pub open spec fn due_amounts(
    terms: Seq<TermOfPaymentView>,
    achievement: Achievement,
    start_time: Option<u64>,
    now: u64,
) -> Seq<CoinView>
    decreases terms.len(),
{
    if terms.len() == 0 {
        Seq::empty()
    } else {
        let before = due_amounts(terms.drop_last(), achievement, start_time, now);
        if is_due(terms.last(), achievement, start_time, now) {
            before.push(terms.last().amount)
        } else {
            before
        }
    }
}

/// The terms after what is due was paid out.
pub open spec fn paid_out(
    terms: Seq<TermOfPaymentView>,
    achievement: Achievement,
    start_time: Option<u64>,
    now: u64,
) -> Seq<TermOfPaymentView> {
    Seq::new(
        terms.len(),
        |i: int|
            TermOfPaymentView {
                is_payment: terms[i].is_payment || is_due(terms[i], achievement, start_time, now),
                ..terms[i]
            },
    )
}

impl StateView {
    /// Whether a start time is there wherever a term's test reads it.
    pub open spec fn start_time_known(self) -> bool {
        self.start_time_millis is Some || forall|i: int|
            0 <= i < self.term_of_payments.len() ==> (#[trigger] self.term_of_payments[i]).is_payment
                || !self.achievement.reads_start_time(self.term_of_payments[i].contract_content)
    }
}

impl State {
    /// Whether the end time has passed at the time of `env`. An escrow
    /// without end time never expires.
    pub fn is_expired(&self, env: &Env) -> (expired: bool)
        ensures
            expired == expired_at(self.end_time_millis, env.time_nanos),
    {
        if let Some(end_time_millis) = self.end_time_millis {
            if env.time_nanos as u128 > end_time_millis as u128 * NANOS_PER_MILLI as u128 {
                return true;
            }
        }
        false
    }

    /// Whether a start time is there wherever a term's test reads it: it
    /// is read for a term that is not paid, has its treatments, and asks
    /// for no insurance claim.
    pub fn start_time_known(&self) -> (known: bool)
        ensures
            known == self@.start_time_known(),
    {
        if self.start_time_millis.is_some() {
            return true;
        }
        let ghost terms = self@.term_of_payments;
        let mut i: usize = 0;
        while i < self.term_of_payments.len()
            invariant
                i <= self.term_of_payments.len(),
                terms == self@.term_of_payments,
                self.start_time_millis is None,
                forall|j: int|
                    0 <= j < i ==> (#[trigger] terms[j]).is_payment
                        || !self.achievement.reads_start_time(terms[j].contract_content),
            decreases self.term_of_payments.len() - i,
        {
            let term = &self.term_of_payments[i];
            assert(term@ == terms[i as int]);
            if !term.is_payment && term.contract_content.treatments <= self.achievement.treatments
                && !term.contract_content.insurance_claim {
                return false;
            }
            i += 1;
        }
        true
    }

    /// Marks every term that is due as paid, and hands back the amounts
    /// of those terms.
    pub fn update_contract_achievement_and_get_amounts(&mut self, env: &Env) -> (amounts: Vec<Coin>)
        requires
            old(self)@.start_time_known(),
        ensures
            amounts.deep_view() == due_amounts(
                old(self)@.term_of_payments,
                old(self).achievement,
                old(self).start_time_millis,
                env.time_nanos,
            ),
            final(self)@ == (StateView {
                term_of_payments: paid_out(
                    old(self)@.term_of_payments,
                    old(self).achievement,
                    old(self).start_time_millis,
                    env.time_nanos,
                ),
                ..old(self)@
            }),
    {
        let ghost terms = self@.term_of_payments;
        let ghost before = self@;
        let achievement = self.achievement;
        let start = self.start_time_millis;
        let mut amounts: Vec<Coin> = Vec::new();
        let mut i: usize = 0;
        assert(terms.subrange(0, 0) =~= Seq::<TermOfPaymentView>::empty());
        while i < self.term_of_payments.len()
            invariant
                i <= self.term_of_payments.len(),
                terms.len() == self.term_of_payments.len(),
                before.start_time_known(),
                before.term_of_payments == terms,
                before.achievement == achievement,
                before.start_time_millis == start,
                self@ == (StateView { term_of_payments: self@.term_of_payments, ..before }),
                forall|j: int| i <= j < terms.len() ==> self.term_of_payments[j]@ == terms[j],
                forall|j: int|
                    0 <= j < i ==> self.term_of_payments[j]@ == paid_out(
                        terms,
                        achievement,
                        start,
                        env.time_nanos,
                    )[j],
                amounts.deep_view() == due_amounts(
                    terms.subrange(0, i as int),
                    achievement,
                    start,
                    env.time_nanos,
                ),
            decreases self.term_of_payments.len() - i,
        {
            let ghost seen = terms.subrange(0, i as int);
            let ghost next = terms.subrange(0, i + 1);
            proof {
                assert(next.drop_last() =~= seen);
                assert(next.last() == terms[i as int]);
            }
            let mut due = false;
            if !self.term_of_payments[i].is_payment {
                due = achievement.is_achievement(
                    &self.term_of_payments[i].contract_content,
                    start,
                    env,
                );
            }
            if due {
                let ghost listed = amounts.deep_view();
                amounts.push(self.term_of_payments[i].amount.clone());
                assert(amounts.deep_view() =~= listed.push(terms[i as int].amount));
                let ghost old_terms = self.term_of_payments@;
                self.term_of_payments[i].is_payment = true;
                assert(forall|j: int|
                    0 <= j < terms.len() && j != i ==> self.term_of_payments[j] == old_terms[j]);
            }
            i += 1;
        }
        proof {
            assert(terms.subrange(0, terms.len() as int) =~= terms);
            assert(self@.term_of_payments =~= paid_out(terms, achievement, start, env.time_nanos));
        }
        amounts
    }

    /// Adds `treatments` to the treatments achieved.
    pub fn append_treatments_in_achievement(&mut self, treatments: Option<u64>)
        requires
            treatments is Some,
            old(self).achievement.treatments + treatments->0 <= u64::MAX,
        ensures
            final(self)@ == (StateView {
                achievement: Achievement {
                    treatments: (old(self).achievement.treatments + treatments->0) as u64,
                    insurance_claim: old(self).achievement.insurance_claim,
                },
                ..old(self)@
            }),
    {
        self.achievement.treatments = self.achievement.treatments + treatments.unwrap();
    }

    /// Overwrites the parts of the achievement that are given.
    pub fn update_treatments_in_achievement(
        &mut self,
        treatments: Option<u64>,
        insurance_claim: Option<bool>,
    )
        ensures
            final(self)@ == (StateView {
                achievement: Achievement {
                    treatments: match treatments {
                        Some(count) => count,
                        None => old(self).achievement.treatments,
                    },
                    insurance_claim: match insurance_claim {
                        Some(claimed) => claimed,
                        None => old(self).achievement.insurance_claim,
                    },
                },
                ..old(self)@
            }),
    {
        if let Some(count) = treatments {
            self.achievement.treatments = count;
        }
        if let Some(claimed) = insurance_claim {
            self.achievement.insurance_claim = claimed;
        }
    }
}

/// What creates a milestone escrow.
#[derive(Clone, Debug, PartialEq, Eq)]
pub struct InstantiateMsg {
    pub joiner: String,
    pub term_of_payments: Vec<TermOfPayment>,
    pub end_time_millis: Option<u64>,
}

/// What a milestone escrow can be asked to do.
#[derive(Clone, Copy, Debug, PartialEq, Eq, Structural)]
pub enum ExecuteMsg {
    /// Overwrite the achievement. Only the payer may.
    Update { treatments: Option<u64>, insurance_claim: Option<bool> },
    /// Add treatments to the achievement. Only the payer may.
    Append { treatments: Option<u64> },
    /// Pay out what is due. Only the joiner may.
    Approve {  },
    /// Send what is left back to the payer, once the escrow has expired.
    Refund {  },
}

/// What a milestone escrow can be asked about.
#[derive(Clone, Copy, Debug, PartialEq, Eq, Structural)]
pub enum QueryMsg {
    TermOfPayments {  },
    Achievement {  },
    Joiner {  },
}

/// The terms of payment, as an escrow reports them.
#[derive(Clone, Debug, PartialEq, Eq)]
pub struct TermOfPaymentsResponse {
    pub term_of_payments: Vec<TermOfPayment>,
}

/// The achievement, as an escrow reports it.
#[derive(Clone, Copy, Debug, PartialEq, Eq, Structural)]
pub struct AchievementResponse {
    pub achievement: Achievement,
}

/// The joiner, as an escrow reports it.
#[derive(Clone, Debug, PartialEq, Eq)]
pub struct JoinerResponse {
    pub joiner: String,
}

/// An answer to a [`QueryMsg`].
#[derive(Clone, Debug, PartialEq, Eq)]
pub enum QueryResponse {
    TermOfPayments(TermOfPaymentsResponse),
    Achievement(AchievementResponse),
    Joiner(JoinerResponse),
}

/// The response that sends `amount` to `to_address` for the reason
/// `action`.
pub open spec fn tokens_response(
    to_address: Seq<char>,
    amount: Seq<CoinView>,
    action: Seq<char>,
) -> ResponseView {
    ResponseView {
        messages: seq![InstructionView::CurrencyTransfer { to_address, amount }],
        attributes: seq![
            AttributeView { key: "action"@, value: action },
            AttributeView { key: "to"@, value: to_address },
        ],
    }
}

/// Builds the response that sends `amount` to `to_address`.
pub fn send_tokens(to_address: String, amount: Vec<Coin>, action: &str) -> (response: Response)
    ensures
        response@ == tokens_response(to_address@, amount.deep_view(), action@),
{
    let ghost expected = tokens_response(to_address@, amount.deep_view(), action@);
    let mut attributes = Vec::new();
    attributes.push(attr("action", action));
    attributes.push(attr("to", to_address.as_str()));
    let mut messages = Vec::new();
    messages.push(Instruction::CurrencyTransfer { to_address, amount });
    let response = Response { messages, attributes };
    proof {
        assert(response.messages.deep_view() =~= expected.messages);
        assert(response.attributes.deep_view() =~= expected.attributes);
    }
    response
}

/// The time of `env` in the unit in which the start time is kept.
pub open spec fn start_stamp(env: Env) -> u64 {
    env.time_nanos / 1000
}

/// Creates a milestone escrow: the caller is the payer, the funds that
/// come with the call are the total amount, nothing is achieved yet. An
/// end time that has passed already is refused.
pub fn instantiate(env: &Env, info: MessageInfo, msg: InstantiateMsg) -> (r: Result<
    (State, Response),
    ContractError,
>)
    ensures
        expired_at(msg.end_time_millis, env.time_nanos) ==> (r matches Err(
            ContractError::Expired { end_time },
        ) && end_time == msg.end_time_millis),
        !expired_at(msg.end_time_millis, env.time_nanos) ==> (r matches Ok((state, response))
            && response@ == Response::spec_empty() && state@ == (StateView {
            payer: info.sender@,
            joiner: msg.joiner@,
            total_amount: info.funds.deep_view(),
            term_of_payments: msg.term_of_payments.deep_view(),
            achievement: Achievement { treatments: 0, insurance_claim: false },
            start_time_millis: Some(start_stamp(*env)),
            end_time_millis: msg.end_time_millis,
        })),
{
    let state = State {
        payer: info.sender,
        joiner: msg.joiner,
        total_amount: info.funds,
        term_of_payments: msg.term_of_payments,
        achievement: Achievement { treatments: 0, insurance_claim: false },
        start_time_millis: Some(env.time_nanos / 1000),
        end_time_millis: msg.end_time_millis,
    };
    if state.is_expired(env) {
        return Err(ContractError::Expired { end_time: msg.end_time_millis });
    }
    Ok((state, Response::new()))
}

/// Whether `r` is the refusal of a caller who may not ask, with the
/// sentence `text`.
pub open spec fn is_unauthorized(r: Result<Response, ContractError>, text: Seq<char>) -> bool {
    r matches Err(ContractError::Unauthorized { msg }) && msg@ == text
}

/// Whether `r` is the refusal of an escrow that expired at `end`.
pub open spec fn is_expired_error(r: Result<Response, ContractError>, end: Option<u64>) -> bool {
    r matches Err(ContractError::Expired { end_time }) && end_time == end
}

/// Whether `r` is the empty response.
pub open spec fn is_empty_response(r: Result<Response, ContractError>) -> bool {
    r matches Ok(response) && response@ == Response::spec_empty()
}

/// Whether [`try_append`] may be called: where the payer calls before the
/// end time, the treatments are given and the sum can be held.
pub open spec fn append_allowed(
    now: u64,
    before: State,
    sender: Seq<char>,
    treatments: Option<u64>,
) -> bool {
    sender == before.payer@ && !expired_at(before.end_time_millis, now) ==> treatments is Some
        && before.achievement.treatments + treatments->0 <= u64::MAX
}

/// What [`try_append`] returns and leaves behind.
pub open spec fn append_result(
    now: u64,
    before: State,
    sender: Seq<char>,
    treatments: Option<u64>,
    r: Result<Response, ContractError>,
    after: State,
) -> bool {
    if sender != before.payer@ {
        is_unauthorized(r, "Not same 'sender' and 'payer'"@) && after@ == before@
    } else if expired_at(before.end_time_millis, now) {
        is_expired_error(r, before.end_time_millis) && after@ == before@
    } else {
        is_empty_response(r) && after@ == (StateView {
            achievement: Achievement {
                treatments: (before.achievement.treatments + treatments->0) as u64,
                insurance_claim: before.achievement.insurance_claim,
            },
            ..before@
        })
    }
}

/// Adds treatments to the achievement. Only the payer may, and only
/// before the escrow expires.
pub fn try_append(env: &Env, state: &mut State, info: &MessageInfo, treatments: Option<u64>) -> (r:
    Result<Response, ContractError>)
    requires
        append_allowed(env.time_nanos, *old(state), info.sender@, treatments),
    ensures
        append_result(env.time_nanos, *old(state), info.sender@, treatments, r, *final(state)),
{
    if !str_eq(info.sender.as_str(), state.payer.as_str()) {
        return Err(ContractError::Unauthorized { msg: "Not same 'sender' and 'payer'".to_owned() });
    }
    if state.is_expired(env) {
        return Err(ContractError::Expired { end_time: state.end_time_millis });
    }
    state.append_treatments_in_achievement(treatments);
    Ok(Response::new())
}

/// What [`try_update`] returns and leaves behind.
pub open spec fn update_result(
    now: u64,
    before: State,
    sender: Seq<char>,
    treatments: Option<u64>,
    insurance_claim: Option<bool>,
    r: Result<Response, ContractError>,
    after: State,
) -> bool {
    if sender != before.payer@ {
        is_unauthorized(r, "Not same 'sender' and 'payer'"@) && after@ == before@
    } else if expired_at(before.end_time_millis, now) {
        is_expired_error(r, before.end_time_millis) && after@ == before@
    } else {
        is_empty_response(r) && after@ == (StateView {
            achievement: Achievement {
                treatments: match treatments {
                    Some(count) => count,
                    None => before.achievement.treatments,
                },
                insurance_claim: match insurance_claim {
                    Some(claimed) => claimed,
                    None => before.achievement.insurance_claim,
                },
            },
            ..before@
        })
    }
}

/// Overwrites the achievement. Only the payer may, and only before the
/// escrow expires.
pub fn try_update(
    env: &Env,
    state: &mut State,
    info: &MessageInfo,
    treatments: Option<u64>,
    insurance_claim: Option<bool>,
) -> (r: Result<Response, ContractError>)
    ensures
        update_result(
            env.time_nanos,
            *old(state),
            info.sender@,
            treatments,
            insurance_claim,
            r,
            *final(state),
        ),
{
    if !str_eq(info.sender.as_str(), state.payer.as_str()) {
        return Err(ContractError::Unauthorized { msg: "Not same 'sender' and 'payer'".to_owned() });
    }
    if state.is_expired(env) {
        return Err(ContractError::Expired { end_time: state.end_time_millis });
    }
    state.update_treatments_in_achievement(treatments, insurance_claim);
    Ok(Response::new())
}

/// Where no amount is due, no term is due.
proof fn lemma_nothing_due(
    terms: Seq<TermOfPaymentView>,
    achievement: Achievement,
    start_time: Option<u64>,
    now: u64,
)
    requires
        due_amounts(terms, achievement, start_time, now).len() == 0,
    ensures
        paid_out(terms, achievement, start_time, now) == terms,
    decreases terms.len(),
{
    if terms.len() > 0 {
        lemma_nothing_due(terms.drop_last(), achievement, start_time, now);
        let rest = paid_out(terms.drop_last(), achievement, start_time, now);
        assert forall|i: int| 0 <= i < terms.len() implies paid_out(
            terms,
            achievement,
            start_time,
            now,
        )[i] == terms[i] by {
            if i < terms.len() - 1 {
                assert(rest[i] == terms.drop_last()[i]);
            }
        }
    }
    assert(paid_out(terms, achievement, start_time, now) =~= terms);
}

/// Whether [`try_approve`] may be called: where the joiner calls before
/// the end time, the start time is there wherever a term's test reads it.
pub open spec fn approve_allowed(now: u64, before: State, sender: Seq<char>) -> bool {
    sender == before.joiner@ && !expired_at(before.end_time_millis, now)
        ==> before@.start_time_known()
}

/// What [`try_approve`] returns and leaves behind.
pub open spec fn approve_result(
    now: u64,
    before: State,
    sender: Seq<char>,
    r: Result<Response, ContractError>,
    after: State,
) -> bool {
    let due = due_amounts(
        before@.term_of_payments,
        before.achievement,
        before.start_time_millis,
        now,
    );
    if sender != before.joiner@ {
        is_unauthorized(r, "Not same 'sender' and 'joiner'"@) && after@ == before@
    } else if expired_at(before.end_time_millis, now) {
        is_expired_error(r, before.end_time_millis) && after@ == before@
    } else if due.len() == 0 {
        r == Err::<Response, ContractError>(ContractError::NotAchievementContract {  }) && after@
            == before@
    } else {
        &&& r matches Ok(response) && response@ == tokens_response(before.joiner@, due, "approve"@)
        &&& after@ == (StateView {
            term_of_payments: paid_out(
                before@.term_of_payments,
                before.achievement,
                before.start_time_millis,
                now,
            ),
            ..before@
        })
    }
}

/// Pays out what is due to the joiner. Only the joiner may ask, and only
/// before the escrow expires; where nothing is due the call is refused.
pub fn try_approve(env: &Env, state: &mut State, info: &MessageInfo) -> (r: Result<
    Response,
    ContractError,
>)
    requires
        approve_allowed(env.time_nanos, *old(state), info.sender@),
    ensures
        approve_result(env.time_nanos, *old(state), info.sender@, r, *final(state)),
{
    if !str_eq(info.sender.as_str(), state.joiner.as_str()) {
        return Err(
            ContractError::Unauthorized { msg: "Not same 'sender' and 'joiner'".to_owned() },
        );
    }
    if state.is_expired(env) {
        return Err(ContractError::Expired { end_time: state.end_time_millis });
    }
    let amount = state.update_contract_achievement_and_get_amounts(env);
    if amount.len() == 0 {
        proof {
            lemma_nothing_due(
                old(state)@.term_of_payments,
                old(state).achievement,
                old(state).start_time_millis,
                env.time_nanos,
            );
        }
        return Err(ContractError::NotAchievementContract {  });
    }
    Ok(send_tokens(state.joiner.clone(), amount, "approve"))
}

/// What [`try_refund`] returns.
pub open spec fn refund_result(
    now: u64,
    state: State,
    balance: Seq<CoinView>,
    r: Result<Response, ContractError>,
) -> bool {
    if expired_at(state.end_time_millis, now) {
        r matches Ok(response) && response@ == tokens_response(state.payer@, balance, "refund"@)
    } else {
        r == Err::<Response, ContractError>(ContractError::NotExpired {  })
    }
}

/// Sends `balance`, which is all that the escrow holds, back to the
/// payer. Anyone may ask, once the escrow has expired.
pub fn try_refund(env: &Env, state: &State, balance: Vec<Coin>) -> (r: Result<
    Response,
    ContractError,
>)
    ensures
        refund_result(env.time_nanos, *state, balance.deep_view(), r),
{
    if !state.is_expired(env) {
        return Err(ContractError::NotExpired {  });
    }
    Ok(send_tokens(state.payer.clone(), balance, "refund"))
}

/// Runs an operation. `balance` is all that the escrow holds; only a
/// refund reads it.
pub fn execute(
    env: &Env,
    state: &mut State,
    info: &MessageInfo,
    msg: ExecuteMsg,
    balance: Vec<Coin>,
) -> (r: Result<Response, ContractError>)
    requires
        match msg {
            ExecuteMsg::Append { treatments } => append_allowed(
                env.time_nanos,
                *old(state),
                info.sender@,
                treatments,
            ),
            ExecuteMsg::Approve {  } => approve_allowed(env.time_nanos, *old(state), info.sender@),
            _ => true,
        },
    ensures
        match msg {
            ExecuteMsg::Approve {  } => approve_result(
                env.time_nanos,
                *old(state),
                info.sender@,
                r,
                *final(state),
            ),
            ExecuteMsg::Append { treatments } => append_result(
                env.time_nanos,
                *old(state),
                info.sender@,
                treatments,
                r,
                *final(state),
            ),
            ExecuteMsg::Update { treatments, insurance_claim } => update_result(
                env.time_nanos,
                *old(state),
                info.sender@,
                treatments,
                insurance_claim,
                r,
                *final(state),
            ),
            ExecuteMsg::Refund {  } => refund_result(
                env.time_nanos,
                *old(state),
                balance.deep_view(),
                r,
            ) && final(state)@ == old(state)@,
        },
{
    match msg {
        ExecuteMsg::Approve {  } => try_approve(env, state, info),
        ExecuteMsg::Append { treatments } => try_append(env, state, info, treatments),
        ExecuteMsg::Update { treatments, insurance_claim } => try_update(
            env,
            state,
            info,
            treatments,
            insurance_claim,
        ),
        ExecuteMsg::Refund {  } => try_refund(env, state, balance),
    }
}

fn clone_terms(terms: &Vec<TermOfPayment>) -> (out: Vec<TermOfPayment>)
    ensures
        out.deep_view() == terms.deep_view(),
{
    let mut out: Vec<TermOfPayment> = Vec::new();
    let mut i: usize = 0;
    while i < terms.len()
        invariant
            i <= terms.len(),
            out.len() == i,
            forall|j: int| 0 <= j < i ==> out[j]@ == terms[j]@,
        decreases terms.len() - i,
    {
        out.push(terms[i].clone());
        i += 1;
    }
    assert(out.deep_view() =~= terms.deep_view());
    out
}

/// Reports the terms of payment.
pub fn query_term_of_payments(state: &State) -> (response: TermOfPaymentsResponse)
    ensures
        response.term_of_payments.deep_view() == state@.term_of_payments,
{
    TermOfPaymentsResponse { term_of_payments: clone_terms(&state.term_of_payments) }
}

/// Reports the achievement.
pub fn query_achievement(state: &State) -> (response: AchievementResponse)
    ensures
        response.achievement == state.achievement,
{
    AchievementResponse { achievement: state.achievement }
}

/// Reports the joiner.
pub fn query_joiner(state: &State) -> (response: JoinerResponse)
    ensures
        response.joiner@ == state.joiner@,
{
    JoinerResponse { joiner: state.joiner.clone() }
}

/// Answers a query.
pub fn query(state: &State, msg: QueryMsg) -> (response: QueryResponse)
    ensures
        match msg {
            QueryMsg::TermOfPayments {  } => response matches QueryResponse::TermOfPayments(terms)
                && terms.term_of_payments.deep_view() == state@.term_of_payments,
            QueryMsg::Achievement {  } => response matches QueryResponse::Achievement(achieved)
                && achieved.achievement == state.achievement,
            QueryMsg::Joiner {  } => response matches QueryResponse::Joiner(joined)
                && joined.joiner@ == state.joiner@,
        },
{
    match msg {
        QueryMsg::TermOfPayments {  } => QueryResponse::TermOfPayments(
            query_term_of_payments(state),
        ),
        QueryMsg::Achievement {  } => QueryResponse::Achievement(query_achievement(state)),
        QueryMsg::Joiner {  } => QueryResponse::Joiner(query_joiner(state)),
    }
}

} // verus!
