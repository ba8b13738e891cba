use cosmwasm_std::testing::{mock_dependencies, mock_env, mock_info};
use cosmwasm_std::{attr, from_binary, from_slice, to_binary, CosmosMsg, DepsMut, WasmMsg};
use cw721::{Approval, Cw721ReceiveMsg, Expiration, NftInfoResponse, NumTokensResponse, OwnerOfResponse};
use cw721_base::msg::{InstantiateMsg, QueryMsg};
use panacea_escrow::error::ContractError;
use panacea_escrow::escrow::{execute_receive_nft, Notification};
use panacea_escrow::guard::ContractInfo;
use panacea_escrow::ledger::{self, EscrowLedger};
use panacea_escrow::nft::{execute_mint, next_token_id, Cw721MintMsg, MintMsg, NftInfoWithPriceMsg};
use panacea_escrow::price::TokenInfo;
use panacea_escrow::step::Step;
use panacea_escrow::types::{coin, MessageInfo};

const MINTER: &str = "minter";
const CONTRACT_NAME: &str = "Magic Power";
const SYMBOL: &str = "N_MED";

fn setup_contract(deps: DepsMut) {
    let msg = InstantiateMsg {
        name: CONTRACT_NAME.to_string(),
        symbol: SYMBOL.to_string(),
        minter: String::from(MINTER),
    };
    let info = mock_info("creator", &[]);
    let res = cw721_base::contract::instantiate(deps, mock_env(), info, msg).unwrap();
    assert_eq!(0, res.messages.len());
}

/// Mints through the library: the registry is asked for its symbol and
/// its count, the library prepares the asset, the registry mints it.
fn mint(deps: DepsMut, env: cosmwasm_std::Env, info: cosmwasm_std::MessageInfo, msg: MintMsg) -> Result<cosmwasm_std::Response, cw721_base::ContractError> {
    let contract_info: cw721::ContractInfoResponse =
        from_binary(&cw721_base::contract::query(deps.as_ref(), env.clone(), QueryMsg::ContractInfo {})?)?;
    let num_token_res: NumTokensResponse =
        from_binary(&cw721_base::contract::query(deps.as_ref(), env.clone(), QueryMsg::NumTokens {})?)?;
    let base = execute_mint(&contract_info.symbol, num_token_res.count, msg).unwrap();
    cw721_base::contract::execute_mint(
        deps,
        env,
        info,
        cw721_base::msg::MintMsg {
            token_id: base.token_id,
            owner: base.owner,
            name: base.name,
            description: base.description,
            image: base.image,
        },
    )
}

#[test]
fn test_execute_mint() {
    let mut deps = mock_dependencies(&[]);
    setup_contract(deps.as_mut());
    let env = mock_env();

    let mint_msg = MintMsg {
        token_id: None,
        owner: MINTER.to_string(),
        name: "nft_med_1".to_string(),
        description: Some("No description".to_string()),
        image: None,
        price: coin(1000000, "umed"),
    };

    let info = mock_info(MINTER, &[]);
    let res = mint(deps.as_mut(), env.clone(), info, mint_msg);
    assert!(res.is_ok());

    let attributes = res.unwrap().attributes;
    let attr1 = attributes.get(0).unwrap();
    let attr2 = attributes.get(1).unwrap();
    let attr3 = attributes.get(2).unwrap();
    let token_id = attr3.value.clone();
    assert_eq!(&attr("action", "mint"), attr1);
    assert_eq!(&attr("minter", MINTER), attr2);
    assert_eq!(attr3.key, "token_id");
    assert_eq!([SYMBOL, "1"].join("."), token_id);

    let nft_info: NftInfoResponse =
        from_binary(&cw721_base::contract::query(deps.as_ref(), env.clone(), QueryMsg::NftInfo { token_id }).unwrap())
            .unwrap();

    let token_info = TokenInfo::decode(&nft_info.description).unwrap();
    assert_eq!(coin(1000000, "umed"), token_info.price);
}

#[test]
fn test_execute_send() {
    let mut deps = mock_dependencies(&[]);
    setup_contract(deps.as_mut());
    let env = mock_env();

    let mint_msg = MintMsg {
        token_id: None,
        owner: "minter2".to_string(),
        name: "nft_med_1".to_string(),
        description: Some("No description".to_string()),
        image: None,
        price: coin(1000000, "umed"),
    };

    let info = mock_info(MINTER, &[]);
    let res = mint(deps.as_mut(), env.clone(), info, mint_msg.clone());
    assert!(res.is_ok());

    let token_id = res.unwrap().attributes.get(2).unwrap().value.to_string();

    let approve_info = mock_info(mint_msg.owner.as_str(), &[]);
    let spender = "spender";
    let res = cw721_base::contract::execute_approve(
        deps.as_mut(),
        env.clone(),
        approve_info.clone(),
        spender.to_string(),
        token_id.to_string(),
        None,
    );
    assert!(res.is_ok());

    let send_info = mock_info(mint_msg.owner.as_str(), &[]);
    let send_contract = "payment_guarantee".to_string();
    let owner_of: OwnerOfResponse = from_binary(
        &cw721_base::contract::query(
            deps.as_ref(),
            env.clone(),
            QueryMsg::OwnerOf { token_id: token_id.to_string(), include_expired: None },
        )
        .unwrap(),
    )
    .unwrap();
    let res = cw721_base::contract::execute_send_nft(
        deps.as_mut(),
        env.clone(),
        send_info.clone(),
        send_contract.to_string(),
        token_id.to_string(),
        Some(to_binary(&owner_of).unwrap()),
    );
    assert!(res.is_ok());

    let cosmos_msg = res.unwrap().messages[0].clone();
    let mut seen = false;
    if let CosmosMsg::Wasm(wasm_msg) = cosmos_msg {
        if let WasmMsg::Execute { contract_addr, msg, send: _ } = wasm_msg {
            assert_eq!(send_contract, contract_addr);

            // The registry wraps the notification as `{"receive_nft": ..}`.
            let wrapped = msg.as_slice();
            let opening = b"{\"receive_nft\":";
            assert!(wrapped.starts_with(opening) && wrapped.ends_with(b"}"));
            let receiver_msg: Cw721ReceiveMsg =
                from_slice(&wrapped[opening.len()..wrapped.len() - 1]).unwrap();
            assert_eq!(mint_msg.owner, receiver_msg.sender);
            assert_eq!(token_id.as_str(), receiver_msg.token_id);
            let owner_of: OwnerOfResponse = from_binary(&receiver_msg.msg.clone().unwrap()).unwrap();
            assert_eq!(mint_msg.owner, owner_of.owner);
            assert_eq!(
                vec![Approval { spender: spender.to_string(), expires: Expiration::Never {} }],
                owner_of.approvals
            );

            // The escrow reads the same notification.
            let config = ContractInfo {
                custodian: send_contract.clone(),
                source_contracts: vec!["registry".to_string()],
                payer: "payer".to_string(),
            };
            let mut escrow_ledger = EscrowLedger::new();
            let step = execute_receive_nft(
                &config,
                &mut escrow_ledger,
                &MessageInfo { sender: "registry".to_string(), funds: vec![] },
                Notification {
                    sender: receiver_msg.sender,
                    token_id: receiver_msg.token_id,
                    msg: receiver_msg.msg.map(|b| b.0),
                },
            );
            assert!(matches!(step, Step::Ask { .. }));
            let record = escrow_ledger.get("registry", &token_id).unwrap();
            assert_eq!(record.sender, mint_msg.owner);
            assert_eq!(record.owner_of.owner, mint_msg.owner);
            assert_eq!(
                record.owner_of.approvals,
                vec![ledger::Approval { spender: spender.to_string(), expires: ledger::Expiration::Never }]
            );
            seen = true;
        }
    }
    assert!(seen);
}

#[test]
fn token_ids_count_from_the_symbol() {
    assert_eq!(next_token_id("N_MED", 0), "N_MED.1");
    assert_eq!(next_token_id("N_MED", 9), "N_MED.10");
    assert_eq!(next_token_id("", 41), ".42");
    assert_eq!(next_token_id("X", u64::MAX - 1), "X.18446744073709551615");
}

#[test]
fn mint_writes_the_price_into_the_description() {
    let msg = MintMsg {
        token_id: Some("ignored".to_string()),
        owner: "owner".to_string(),
        name: "name".to_string(),
        description: Some("No description".to_string()),
        image: Some("http://image".to_string()),
        price: coin(7, "umed"),
    };
    assert_eq!(
        execute_mint("S", 2, msg),
        Ok(Cw721MintMsg {
            token_id: "S.3".to_string(),
            owner: "owner".to_string(),
            name: "name".to_string(),
            description: Some("{\"price\":{\"denom\":\"umed\",\"amount\":\"7\"}}".to_string()),
            image: Some("http://image".to_string()),
        })
    );
}

#[test]
fn mint_refuses_a_price_that_cannot_be_written() {
    let msg = MintMsg {
        token_id: None,
        owner: "owner".to_string(),
        name: "name".to_string(),
        description: None,
        image: None,
        price: coin(7, "u\"med"),
    };
    assert_eq!(execute_mint("S", 2, msg), Err(ContractError::InvalidParameter));
}

#[test]
fn mint_message_without_identifier_gets_the_empty_one() {
    let msg = MintMsg {
        token_id: None,
        owner: "owner".to_string(),
        name: "name".to_string(),
        description: Some("d".to_string()),
        image: None,
        price: coin(7, "umed"),
    };
    let base = msg.clone().into_cw721_mint_msg();
    assert_eq!(
        base,
        Cw721MintMsg {
            token_id: String::new(),
            owner: "owner".to_string(),
            name: "name".to_string(),
            description: Some("d".to_string()),
            image: None,
        }
    );
    let named = MintMsg { token_id: Some("t".to_string()), ..msg };
    assert_eq!(named.into_cw721_mint_msg().token_id, "t");
}

#[test]
fn priced_asset_becomes_a_mint_message() {
    let shown = NftInfoWithPriceMsg {
        name: "name".to_string(),
        description: Some("d".to_string()),
        image: None,
        price: coin(7, "umed"),
    };
    assert_eq!(
        shown.into_mint_msg("owner".to_string(), "S.1".to_string()),
        Ok(MintMsg {
            token_id: Some("S.1".to_string()),
            owner: "owner".to_string(),
            name: "name".to_string(),
            description: Some("d".to_string()),
            image: None,
            price: coin(7, "umed"),
        })
    );
}
