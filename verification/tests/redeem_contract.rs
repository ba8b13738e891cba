use cosmwasm_std::{from_binary, to_binary, Binary};
use cw721::OwnerOfResponse;
use panacea_escrow::error::ContractError;
use panacea_escrow::escrow::{
    execute_receive_nft, execute_recover_owner, execute_refund, instantiate, resume,
    InstantiateMsg, Notification,
};
use panacea_escrow::guard::ContractInfo;
use panacea_escrow::ledger::EscrowLedger;
use panacea_escrow::step::{Answer, Step};
use panacea_escrow::types::{Env, Instruction, MessageInfo, Response};

fn redeem_env() -> Env {
    Env { height: 12345, time_nanos: 1571797419879305533, contract_address: "cosmos2contract".to_string() }
}

fn redeem_info(sender: &str) -> MessageInfo {
    MessageInfo { sender: sender.to_string(), funds: vec![] }
}

/// Runs a step to its end against a host that knows no registry and
/// holds no funds, as a test double without other contracts does.
fn redeem_run(config: &ContractInfo, ledger: &mut EscrowLedger, first: Step) -> Result<Response, ContractError> {
    let mut step = first;
    loop {
        match step {
            Step::Done(r) => return r,
            Step::Ask { pending, query } => {
                let answer = match query {
                    panacea_escrow::step::Query::AllBalances { .. } => Answer::AllBalances(vec![]),
                    panacea_escrow::step::Query::Balance { .. } => Answer::Balance(0),
                    _ => Answer::Unavailable,
                };
                step = resume(config, ledger, pending, answer);
            }
        }
    }
}

#[test]
fn proper_instantiate() {
    let env = redeem_env();
    let msg = InstantiateMsg { source_contracts: vec!["contract1".to_string()] };

    let info = redeem_info("creator");

    let res = instantiate(&env, &info, msg);
    assert!(res.is_ok());
}

#[test]
fn receive_nft() {
    let env = redeem_env();
    let info = redeem_info("creator");
    let msg = InstantiateMsg { source_contracts: vec!["contract1".to_string()] };

    let res = instantiate(&env, &info, msg);
    assert!(res.is_ok());
    let (config, _) = res.unwrap();
    let mut ledger = EscrowLedger::new();

    let receive_info = redeem_info("contract1");
    let owner_of_msg = OwnerOfResponse { owner: "sender".to_string(), approvals: vec![] };

    let receive_msg = Notification {
        sender: "sender".to_string(),
        token_id: "token1".to_string(),
        msg: Some(to_binary(&owner_of_msg).unwrap().0),
    };

    // No registry answers here, so custody cannot be confirmed.
    let first = execute_receive_nft(&config, &mut ledger, &receive_info, receive_msg);
    let res = redeem_run(&config, &mut ledger, first);
    println!("{:?}", res);
    assert!(res.is_err());
}

#[test]
fn receive_nft_empty_msg() {
    let env = redeem_env();
    let info = redeem_info("creator");
    let msg = InstantiateMsg { source_contracts: vec!["contract1".to_string()] };

    let res = instantiate(&env, &info, msg);
    assert!(res.is_ok());
    let (config, _) = res.unwrap();
    let mut ledger = EscrowLedger::new();

    let receive_info = redeem_info("contract1");
    let token_info_msg = "{\"contract\":\"contract2\",\"description\":\"No description\",\"price\":{\"denom\":\"umed\",\"amount\":\"1000000\"},\"sender\":\"sender\"}";

    let receive_msg = Notification {
        sender: "sender".to_string(),
        token_id: "token1".to_string(),
        msg: Some(token_info_msg.as_bytes().to_vec()),
    };

    let first = execute_receive_nft(&config, &mut ledger, &receive_info, receive_msg);
    let res = redeem_run(&config, &mut ledger, first);
    println!("{:?}", res);
    assert!(res.is_err());
}

#[test]
fn recover_owner() {
    let env = redeem_env();
    let info = redeem_info("creator");
    let contract = "contract1";
    let sender = "sender";
    let refund_token_id = "token1";

    let msg = InstantiateMsg { source_contracts: vec![contract.to_string()] };

    let res = instantiate(&env, &info, msg);
    assert!(res.is_ok());
    let (config, _) = res.unwrap();
    let mut ledger = EscrowLedger::new();

    let receive_info = redeem_info(contract);

    let owner_of_msg = OwnerOfResponse { owner: sender.to_string(), approvals: vec![] };

    let receive_msg = Notification {
        sender: sender.to_string(),
        token_id: refund_token_id.to_string(),
        msg: Some(to_binary(&owner_of_msg).unwrap().0),
    };

    // No registry answers here, so custody cannot be confirmed.
    let first = execute_receive_nft(&config, &mut ledger, &receive_info, receive_msg);
    let res = redeem_run(&config, &mut ledger, first);
    assert!(res.is_err());

    let res = execute_recover_owner(&config, &mut ledger, &info, contract.to_string(), refund_token_id.to_string());
    let response = res.unwrap();

    assert_eq!(1, response.messages.len());
    match &response.messages[0] {
        Instruction::RegistryTransfer { registry, asset_id, new_owner, payload } => {
            assert_eq!(contract, registry);
            assert_eq!(sender, new_owner);
            assert_eq!(refund_token_id, asset_id);

            match from_binary(&Binary(payload.clone())).unwrap() {
                cw721_base::msg::ExecuteMsg::TransferNft { recipient, token_id } => {
                    assert_eq!(sender, recipient);
                    assert_eq!(token_id, refund_token_id);
                }
                other => panic!("unexpected message: {:?}", other),
            }
        }
        other => panic!("unexpected instruction: {:?}", other),
    }

    assert_eq!("action", response.attributes[0].key);
    assert_eq!("recover_owner", response.attributes[0].value);
    assert_eq!("sender", response.attributes[1].key);
    assert_eq!(sender.to_string(), response.attributes[1].value);
    assert_eq!("sender_contract", response.attributes[2].key);
    assert_eq!(contract.to_string(), response.attributes[2].value);
    assert_eq!("token_id", response.attributes[3].key);
    assert_eq!(refund_token_id.to_string(), response.attributes[3].value);
}

#[test]
fn refund() {
    let env = redeem_env();
    let info = redeem_info("creator");
    let msg = InstantiateMsg { source_contracts: vec!["contract1".to_string()] };

    let res = instantiate(&env, &info, msg);
    assert!(res.is_ok());
    let (config, _) = res.unwrap();
    let mut ledger = EscrowLedger::new();

    let first = execute_refund(&config, &info);
    let res = redeem_run(&config, &mut ledger, first);
    println!("{:?}", res);
    assert!(res.is_ok());

    let response = res.unwrap();
    match &response.messages[0] {
        Instruction::CurrencyTransfer { to_address, amount } => {
            assert_eq!("creator", to_address);
            assert!(amount.is_empty());
        }
        other => panic!("unexpected instruction: {:?}", other),
    }
    assert_eq!("action", response.attributes[0].key);
    assert_eq!("refund", response.attributes[0].value);
    assert_eq!("sender_contract", response.attributes[1].key);
    assert_eq!("creator", response.attributes[1].value);
    assert_eq!("refund", response.attributes[2].key);
}
