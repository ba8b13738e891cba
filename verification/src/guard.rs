//! The configuration of an escrow instance and the test that decides
//! which registries it listens to.

use crate::text::str_eq;
use vstd::prelude::*;

verus! {

/// The configuration of an escrow instance. It is made once, when the
/// instance is created, and handed to every operation.
#[derive(Clone, Debug, PartialEq, Eq)]
pub struct ContractInfo {
    /// The address of the instance itself, which holds assets and funds.
    pub custodian: String,
    /// The registries whose notifications are trusted.
    pub source_contracts: Vec<String>,
    /// Who receives settled assets and may reclaim the funds.
    pub payer: String,
}

/// Mathematical value of a [`ContractInfo`].
pub struct ContractInfoView {
    pub custodian: Seq<char>,
    pub source_contracts: Seq<Seq<char>>,
    pub payer: Seq<char>,
}

impl ContractInfoView {
    /// Whether notifications of `registry` are trusted.
    pub open spec fn trusts(self, registry: Seq<char>) -> bool {
        self.source_contracts.contains(registry)
    }
}

impl View for ContractInfo {
    type V = ContractInfoView;

    open spec fn view(&self) -> ContractInfoView {
        ContractInfoView {
            custodian: self.custodian@,
            source_contracts: self.source_contracts.deep_view(),
            payer: self.payer@,
        }
    }
}

impl ContractInfo {
    /// Whether notifications of `source_registry` are trusted.
    pub fn is_trusted(&self, source_registry: &str) -> (trusted: bool)
        ensures
            trusted == self@.trusts(source_registry@),
    {
        let ghost listed = self.source_contracts.deep_view();
        let mut i: usize = 0;
        while i < self.source_contracts.len()
            invariant
                i <= self.source_contracts.len(),
                listed == self.source_contracts.deep_view(),
                forall|j: int| 0 <= j < i ==> listed[j] != source_registry@,
            decreases self.source_contracts.len() - i,
        {
            if str_eq(self.source_contracts[i].as_str(), source_registry) {
                assert(listed[i as int] == source_registry@);
                return true;
            }
            i += 1;
        }
        false
    }
}

/// Whether a notification of `source_contract` must be turned away.
pub fn is_invalid_from_contract(contract_info: &ContractInfo, source_contract: String) -> (invalid:
    bool)
    ensures
        invalid == !contract_info@.trusts(source_contract@),
{
    !contract_info.is_trusted(source_contract.as_str())
}

} // verus!
