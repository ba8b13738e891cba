//! The two payloads that the escrow exchanges with an asset registry, in
//! the registry's own wire form.

use crate::ledger::{Approval, Expiration, OwnerOf, OwnerOfView};
use vstd::prelude::*;

verus! {

/// The wire form of the registry message that makes `recipient` the holder
/// of `token_id`, or nothing where the registry's encoder refuses it.
pub uninterp spec fn transfer_nft_payload(recipient: Seq<char>, token_id: Seq<char>) -> Option<
    Seq<u8>,
>;

/// The statement of ownership that a registry wrote as `payload`, or
/// nothing where `payload` holds none.
pub uninterp spec fn owner_of_payload(payload: Seq<u8>) -> Option<OwnerOfView>;

/// Writes the registry's `TransferNft` message with `cosmwasm_std::to_binary`.
/// Trusted: the bytes are a function of the two arguments, named
/// [`transfer_nft_payload`]; nothing is claimed of what they hold.
#[verifier::external_body]
pub(crate) fn encode_transfer_nft(recipient: &str, token_id: &str) -> (payload: Option<Vec<u8>>)
    ensures
        match payload {
            Some(bytes) => transfer_nft_payload(recipient@, token_id@) == Some(bytes@),
            None => transfer_nft_payload(recipient@, token_id@) is None,
        },
{
    let msg = cw721_base::msg::ExecuteMsg::TransferNft {
        recipient: recipient.to_string(),
        token_id: token_id.to_string(),
    };
    match cosmwasm_std::to_binary(&msg) {
        Ok(binary) => Some(binary.0),
        Err(_) => None,
    }
}

/// The longest statement of ownership that is handed to the reader. The
/// reader descends one level for each level of nesting in what it reads,
/// and a short payload cannot nest deeply.
pub const MAX_OWNER_OF_LEN: usize = 4096;

/// Reads a registry's `OwnerOfResponse` with `cosmwasm_std::from_slice`.
/// Trusted: whether the bytes are read, and as what, is a function of the
/// bytes, named [`owner_of_payload`]; nothing is claimed of which bytes
/// are read. Longer payloads are left out, see [`MAX_OWNER_OF_LEN`].
#[verifier::external_body]
pub(crate) fn decode_owner_of(payload: &Vec<u8>) -> (proof_of_custody: Option<OwnerOf>)
    requires
        payload.len() <= MAX_OWNER_OF_LEN,
    ensures
        match proof_of_custody {
            Some(owner_of) => owner_of_payload(payload@) == Some(owner_of@),
            None => owner_of_payload(payload@) is None,
        },
{
    let parsed: Result<cw721::OwnerOfResponse, cosmwasm_std::StdError> = cosmwasm_std::from_slice(payload);
    let response = match parsed { Ok(response) => response, Err(_) => return None };
    let approvals = response.approvals.into_iter().map(|a| Approval {
        spender: a.spender,
        expires: match a.expires {
            cw721::Expiration::AtHeight(height) => Expiration::AtHeight(height),
            cw721::Expiration::AtTime(time) => Expiration::AtTime(time.nanos()),
            cw721::Expiration::Never {} => Expiration::Never,
        },
    }).collect();
    Some(OwnerOf { owner: response.owner, approvals })
}

} // verus!
