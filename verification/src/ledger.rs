//! The escrow ledger: for each asset in custody, who deposited it and on
//! what evidence.

use crate::error::ContractError;
use crate::text::str_eq;
use vstd::prelude::*;

verus! {

/// When an approval ends.
#[derive(Clone, Copy, Debug, PartialEq, Eq, Structural)]
pub enum Expiration {
    /// At the block of this height.
    AtHeight(u64),
    /// At this time, in nanoseconds since the epoch.
    AtTime(u64),
    /// Never.
    Never,
}

/// The right of `spender` to move an asset, until `expires`.
#[derive(Clone, Debug, PartialEq, Eq)]
pub struct Approval {
    pub spender: String,
    pub expires: Expiration,
}

/// Mathematical value of an [`Approval`].
pub struct ApprovalView {
    pub spender: Seq<char>,
    pub expires: Expiration,
}

impl View for Approval {
    type V = ApprovalView;

    open spec fn view(&self) -> ApprovalView {
        ApprovalView { spender: self.spender@, expires: self.expires }
    }
}

impl DeepView for Approval {
    type V = ApprovalView;

    open spec fn deep_view(&self) -> ApprovalView {
        self@
    }
}

/// A registry's statement of who holds an asset and who may move it.
#[derive(Clone, Debug, PartialEq, Eq)]
pub struct OwnerOf {
    pub owner: String,
    pub approvals: Vec<Approval>,
}

/// Mathematical value of an [`OwnerOf`].
pub struct OwnerOfView {
    pub owner: Seq<char>,
    pub approvals: Seq<ApprovalView>,
}

impl View for OwnerOf {
    type V = OwnerOfView;

    open spec fn view(&self) -> OwnerOfView {
        OwnerOfView { owner: self.owner@, approvals: self.approvals.deep_view() }
    }
}

/// The record of one asset in custody.
#[derive(Clone, Debug, PartialEq, Eq)]
pub struct TokenOwnerInfo {
    /// Who deposited the asset, and is paid when it is settled.
    pub sender: String,
    /// The registry's statement that came with the deposit. It is kept
    /// for audit and recovery; no decision rests on it.
    pub owner_of: OwnerOf,
}

/// Mathematical value of a [`TokenOwnerInfo`].
pub struct TokenOwnerInfoView {
    pub sender: Seq<char>,
    pub owner_of: OwnerOfView,
}

impl View for TokenOwnerInfo {
    type V = TokenOwnerInfoView;

    open spec fn view(&self) -> TokenOwnerInfoView {
        TokenOwnerInfoView { sender: self.sender@, owner_of: self.owner_of@ }
    }
}

/// The key of a record: the registry's address and the asset's identifier.
pub type AssetKey = (Seq<char>, Seq<char>);

struct Entry {
    registry: String,
    asset_id: String,
    info: TokenOwnerInfo,
}

impl Entry {
    spec fn key(&self) -> AssetKey {
        (self.registry@, self.asset_id@)
    }
}

/// The records of all assets in custody, one at most for each key.
pub struct EscrowLedger {
    entries: Vec<Entry>,
}

impl View for EscrowLedger {
    type V = Map<AssetKey, TokenOwnerInfoView>;

    closed spec fn view(&self) -> Map<AssetKey, TokenOwnerInfoView> {
        Map::new(
            |k: AssetKey| exists|i: int| 0 <= i < self.entries.len() && self.entries[i].key() == k,
            |k: AssetKey|
                self.entries[choose|i: int|
                    0 <= i < self.entries.len() && self.entries[i].key() == k].info@,
        )
    }
}

impl EscrowLedger {
    #[verifier::type_invariant]
    spec fn keys_differ(&self) -> bool {
        forall|i: int, j: int|
            0 <= i < j < self.entries.len() ==> self.entries[i].key() != self.entries[j].key()
    }

    /// A ledger without records.
    pub fn new() -> (ledger: EscrowLedger)
        ensures
            ledger@ == Map::<AssetKey, TokenOwnerInfoView>::empty(),
    {
        let ledger = EscrowLedger { entries: Vec::new() };
        assert(ledger@ =~= Map::<AssetKey, TokenOwnerInfoView>::empty());
        ledger
    }

    fn position(&self, registry: &str, asset_id: &str) -> (at: Option<usize>)
        ensures
            match at {
                Some(i) => i < self.entries.len() && self.entries[i as int].key() == (
                    registry@,
                    asset_id@,
                ),
                None => forall|i: int|
                    0 <= i < self.entries.len() ==> self.entries[i].key() != (
                        registry@,
                        asset_id@,
                    ),
            },
    {
        let mut i: usize = 0;
        while i < self.entries.len()
            invariant
                i <= self.entries.len(),
                forall|j: int| 0 <= j < i ==> self.entries[j].key() != (registry@, asset_id@),
            decreases self.entries.len() - i,
        {
            let entry = &self.entries[i];
            if str_eq(entry.registry.as_str(), registry) && str_eq(
                entry.asset_id.as_str(),
                asset_id,
            ) {
                return Some(i);
            }
            i += 1;
        }
        None
    }

    /// Whether an asset is recorded.
    pub fn contains(&self, registry: &str, asset_id: &str) -> (found: bool)
        ensures
            found == self@.contains_key((registry@, asset_id@)),
    {
        self.position(registry, asset_id).is_some()
    }

    /// The record of an asset, if there is one.
    pub fn get(&self, registry: &str, asset_id: &str) -> (found: Option<&TokenOwnerInfo>)
        ensures
            match found {
                Some(info) => self@.contains_key((registry@, asset_id@)) && info@ == self@[(
                    registry@,
                    asset_id@,
                )],
                None => !self@.contains_key((registry@, asset_id@)),
            },
    {
        proof {
            use_type_invariant(self);
        }
        match self.position(registry, asset_id) {
            Some(i) => Some(&self.entries[i].info),
            None => None,
        }
    }

    /// Records an asset. An asset that is recorded already cannot be
    /// recorded again before it is taken out.
    pub fn record(&mut self, registry: String, asset_id: String, info: TokenOwnerInfo) -> (r:
        Result<(), ContractError>)
        ensures
            match r {
                Ok(_) => !old(self)@.contains_key((registry@, asset_id@)) && final(self)@ == old(
                    self,
                )@.insert((registry@, asset_id@), info@),
                Err(e) => e == ContractError::DuplicateDeposit && old(self)@.contains_key(
                    (registry@, asset_id@),
                ) && final(self)@ == old(self)@,
            },
    {
        proof {
            use_type_invariant(&*self);
        }
        if self.position(registry.as_str(), asset_id.as_str()).is_some() {
            return Err(ContractError::DuplicateDeposit);
        }
        let ghost before = self.entries@;
        let ghost key = (registry@, asset_id@);
        let ghost value = info@;
        let mut entries: Vec<Entry> = Vec::new();
        core::mem::swap(&mut entries, &mut self.entries);
        entries.push(Entry { registry, asset_id, info });
        core::mem::swap(&mut entries, &mut self.entries);
        proof {
            let after = self.entries@;
            assert(forall|i: int| 0 <= i < before.len() ==> after[i] == before[i]);
            assert(after[before.len() as int].key() == key);
            assert(final(self)@ =~= old(self)@.insert(key, value)) by {
                assert forall|k: AssetKey| final(self)@.contains_key(k) <==> old(self)@.insert(
                    key,
                    value,
                ).contains_key(k) by {
                    if old(self)@.contains_key(k) {
                        let i = choose|i: int| 0 <= i < before.len() && before[i].key() == k;
                        assert(after[i].key() == k);
                    }
                    if k == key {
                        assert(after[before.len() as int].key() == k);
                    }
                }
                assert forall|k: AssetKey| final(self)@.contains_key(k) implies final(self)@[k]
                    == old(self)@.insert(key, value)[k] by {
                    let i = choose|i: int| 0 <= i < after.len() && after[i].key() == k;
                    if k == key {
                        assert(i == before.len());
                    } else {
                        let j = choose|j: int| 0 <= j < before.len() && before[j].key() == k;
                        assert(after[j].key() == k);
                        assert(i == j);
                    }
                }
            }
        }
        Ok(())
    }

    /// Takes the record of an asset out of the ledger. Whoever takes it
    /// is the only one to act on it.
    pub fn take(&mut self, registry: &str, asset_id: &str) -> (r: Result<
        TokenOwnerInfo,
        ContractError,
    >)
        ensures
            match r {
                Ok(info) => old(self)@.contains_key((registry@, asset_id@)) && info@ == old(
                    self,
                )@[(registry@, asset_id@)] && final(self)@ == old(self)@.remove(
                    (registry@, asset_id@),
                ),
                Err(e) => e == ContractError::NotFound && !old(self)@.contains_key(
                    (registry@, asset_id@),
                ) && final(self)@ == old(self)@,
            },
    {
        proof {
            use_type_invariant(&*self);
        }
        let at = match self.position(registry, asset_id) {
            Some(i) => i,
            None => {
                return Err(ContractError::NotFound);
            },
        };
        let ghost before = self.entries@;
        let ghost key = (registry@, asset_id@);
        let mut entries: Vec<Entry> = Vec::new();
        core::mem::swap(&mut entries, &mut self.entries);
        let entry = entries.remove(at);
        core::mem::swap(&mut entries, &mut self.entries);
        proof {
            let after = self.entries@;
            assert(forall|i: int| 0 <= i < at ==> after[i] == before[i]);
            assert(forall|i: int| at <= i < after.len() ==> after[i] == before[i + 1]);
            assert(final(self)@ =~= old(self)@.remove(key)) by {
                assert forall|k: AssetKey| final(self)@.contains_key(k) <==> old(self)@.remove(
                    key,
                ).contains_key(k) by {
                    if final(self)@.contains_key(k) {
                        let i = choose|i: int| 0 <= i < after.len() && after[i].key() == k;
                        if i < at {
                            assert(before[i].key() == k);
                        } else {
                            assert(before[i + 1].key() == k);
                        }
                    }
                    if old(self)@.contains_key(k) && k != key {
                        let i = choose|i: int| 0 <= i < before.len() && before[i].key() == k;
                        if i < at {
                            assert(after[i].key() == k);
                        } else {
                            assert(after[i - 1].key() == k);
                        }
                    }
                }
                assert forall|k: AssetKey| final(self)@.contains_key(k) implies final(self)@[k]
                    == old(self)@.remove(key)[k] by {
                    let i = choose|i: int| 0 <= i < after.len() && after[i].key() == k;
                    let j = choose|j: int| 0 <= j < before.len() && before[j].key() == k;
                    if i < at {
                        assert(before[i].key() == k);
                        assert(j == i);
                    } else {
                        assert(before[i + 1].key() == k);
                        assert(j == i + 1);
                    }
                }
            }
            let j = choose|j: int| 0 <= j < before.len() && before[j].key() == key;
            assert(j == at);
        }
        Ok(entry.info)
    }
}

} // verus!
