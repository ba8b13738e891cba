use panacea_escrow::error::ContractError;
use panacea_escrow::price::{is_valid_denom, TokenInfo};
use panacea_escrow::text::{bool_string, decimal_string, str_eq};
use panacea_escrow::types::{coin, coins_to_text, Coin};

fn priced(amount: u128, denom: &str) -> TokenInfo {
    TokenInfo { price: coin(amount, denom) }
}

#[test]
fn encode_writes_the_documented_form() {
    assert_eq!(
        priced(1000000, "umed").encode().unwrap(),
        "{\"price\":{\"denom\":\"umed\",\"amount\":\"1000000\"}}"
    );
    assert_eq!(priced(0, "").encode().unwrap(), "{\"price\":{\"denom\":\"\",\"amount\":\"0\"}}");
}

#[test]
fn encode_agrees_with_the_currency_ledger_on_a_coin() {
    let theirs = cosmwasm_std::to_vec(&cosmwasm_std::coin(1000000, "umed")).unwrap();
    let ours = priced(1000000, "umed").encode().unwrap();
    let expected = format!("{{\"price\":{}}}", String::from_utf8(theirs).unwrap());
    assert_eq!(ours, expected);
}

#[test]
fn decode_reads_what_encode_wrote() {
    let cases = [
        priced(1000000, "umed"),
        priced(0, "u"),
        priced(1, ""),
        priced(10, "ibc/27394FB092D2ECCD56123C74F36E4C1F926001CEADA9CA97EA622B25F41E5EB2"),
        priced(u128::MAX, "factory/addr:sub.denom_x-y"),
        priced(99, "with space"),
    ];
    for info in cases {
        let text = info.encode().unwrap();
        assert_eq!(TokenInfo::decode(&text), Ok(info));
    }
}

#[test]
fn decode_refuses_other_text() {
    let refused = [
        "",
        "No description",
        "{}",
        "{\"price\":{\"denom\":\"umed\",\"amount\":\"1000000\"}",
        "{\"price\":{\"denom\":\"umed\",\"amount\":\"1000000\"}} ",
        " {\"price\":{\"denom\":\"umed\",\"amount\":\"1000000\"}}",
        "{\"price\": {\"denom\":\"umed\",\"amount\":\"1000000\"}}",
        "{\"price\":{\"amount\":\"1000000\",\"denom\":\"umed\"}}",
        "{\"price\":{\"denom\":\"umed\",\"amount\":1000000}}",
        "{\"price\":{\"denom\":\"umed\",\"amount\":\"\"}}",
        "{\"price\":{\"denom\":\"umed\",\"amount\":\"01\"}}",
        "{\"price\":{\"denom\":\"umed\",\"amount\":\"00\"}}",
        "{\"price\":{\"denom\":\"umed\",\"amount\":\"+1\"}}",
        "{\"price\":{\"denom\":\"umed\",\"amount\":\"-1\"}}",
        "{\"price\":{\"denom\":\"umed\",\"amount\":\"1a\"}}",
        "{\"price\":{\"denom\":\"umed\",\"amount\":\"1.5\"}}",
        "{\"price\":{\"denom\":\"u\\\"med\",\"amount\":\"1\"}}",
        "{\"price\":{\"denom\":\"u\\\\med\",\"amount\":\"1\"}}",
        "{\"price\":{\"denom\":\"u\nmed\",\"amount\":\"1\"}}",
        "{\"price\":{\"denom\":\"um\u{e9}d\",\"amount\":\"1\"}}",
        "{\"price\":{\"denom\":\"umed",
        "{\"price\":{\"denom\":\"umed\"",
        "{\"price\":{\"denom\":\"umed\",\"amount\":\"1",
        "{\"Price\":{\"denom\":\"umed\",\"amount\":\"1\"}}",
    ];
    for text in refused {
        assert_eq!(TokenInfo::decode(text), Err(ContractError::MalformedPrice), "{}", text);
    }
}

#[test]
fn decode_holds_amounts_up_to_the_largest() {
    let largest = "{\"price\":{\"denom\":\"u\",\"amount\":\"340282366920938463463374607431768211455\"}}";
    assert_eq!(TokenInfo::decode(largest), Ok(priced(u128::MAX, "u")));
    let beyond = "{\"price\":{\"denom\":\"u\",\"amount\":\"340282366920938463463374607431768211456\"}}";
    assert_eq!(TokenInfo::decode(beyond), Err(ContractError::MalformedPrice));
    let long = "{\"price\":{\"denom\":\"u\",\"amount\":\"3402823669209384634633746074317682114550\"}}";
    assert_eq!(TokenInfo::decode(long), Err(ContractError::MalformedPrice));
}

#[test]
fn encode_refuses_denominations_that_cannot_be_written() {
    for denom in ["u\"med", "u\\med", "u\nmed", "um\u{e9}d", "\u{7f}"] {
        assert!(!is_valid_denom(denom));
        assert_eq!(priced(1, denom).encode(), Err(ContractError::InvalidParameter));
    }
    for denom in ["", "umed", "a b", "~!#$%&'()*+,-./:;<=>?@[]^_`{|}"] {
        assert!(is_valid_denom(denom));
        assert!(priced(1, denom).encode().is_ok());
    }
}

#[test]
fn numbers_are_written_in_decimal() {
    assert_eq!(decimal_string(0), "0");
    assert_eq!(decimal_string(7), "7");
    assert_eq!(decimal_string(10), "10");
    assert_eq!(decimal_string(1000000), "1000000");
    assert_eq!(decimal_string(u128::MAX), "340282366920938463463374607431768211455");
    assert_eq!(bool_string(true), "true");
    assert_eq!(bool_string(false), "false");
}

#[test]
fn coins_are_written_as_the_currency_ledger_writes_them() {
    assert_eq!(coin(1000000, "umed").to_string(), cosmwasm_std::coin(1000000, "umed").to_string());
    assert_eq!(coin(0, "u").to_string(), "0u");
    let none: Vec<Coin> = vec![];
    assert_eq!(coins_to_text(&none), "");
    assert_eq!(coins_to_text(&vec![coin(1, "a")]), "1a");
    assert_eq!(coins_to_text(&vec![coin(1, "a"), coin(2, "b"), coin(3, "c")]), "1a, 2b, 3c");
}

#[test]
fn strings_compare_by_their_characters() {
    assert!(str_eq("", ""));
    assert!(str_eq("umed", "umed"));
    assert!(!str_eq("umed", "umeD"));
    assert!(!str_eq("umed", "ume"));
    assert!(!str_eq("", "u"));
    assert!(str_eq("um\u{e9}d", "um\u{e9}d"));
    assert!(!str_eq("um\u{e9}d", "um\u{e8}d"));
}
