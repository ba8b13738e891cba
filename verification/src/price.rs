//! The price that an asset carries in its metadata.
//!
//! A registry has no field for a price, so the price travels in the
//! asset's free-form description, as one line of text:
//!
//! ```text
//! {"price":{"denom":"umed","amount":"1000000"}}
//! ```
//!
//! The denomination is written as it is and the amount in decimal. Only
//! this exact form is a price: a description with other keys, another
//! order, white space or escape sequences carries none.

use crate::error::ContractError;
use crate::text::{
    decimal, decimal_string, digit_value, digits_value, is_decimal, is_digit,
    lemma_decimal_is_decimal, lemma_decimal_of_value, lemma_digits_value_prefix,
};
use crate::types::{Coin, CoinView};
use vstd::prelude::*;
use vstd::string::*;
use vstd::utf8::is_ascii_chars;

verus! {

/// What an asset's metadata says of the asset: its price.
#[derive(Clone, Debug, PartialEq, Eq)]
pub struct TokenInfo {
    pub price: Coin,
}

/// Whether `c` may stand in a denomination: a printable ASCII character
/// other than the double quote and the backslash.
pub open spec fn is_denom_char(c: char) -> bool {
    ' ' <= c <= '~' && c != '"' && c != '\\'
}

/// Whether `d` can be written into metadata as a denomination.
pub open spec fn valid_denom(d: Seq<char>) -> bool {
    forall|i: int| 0 <= i < d.len() ==> is_denom_char(#[trigger] d[i])
}

/// Whether `p` is a price that metadata can carry.
pub open spec fn valid_price(p: CoinView) -> bool {
    valid_denom(p.denom) && p.amount <= u128::MAX
}

/// What precedes the denomination.
pub open spec fn price_open() -> Seq<char> {
    "{\"price\":{\"denom\":\""@
}

/// What stands between the denomination and the amount.
pub open spec fn price_mid() -> Seq<char> {
    "\",\"amount\":\""@
}

/// What follows the amount.
pub open spec fn price_close() -> Seq<char> {
    "\"}}"@
}

/// The metadata that carries the price `p`.
pub open spec fn encoding(p: CoinView) -> Seq<char> {
    price_open() + p.denom + price_mid() + decimal(p.amount) + price_close()
}

/// Whether `text` is the metadata of the valid price `p`.
pub open spec fn encodes(text: Seq<char>, p: CoinView) -> bool {
    valid_price(p) && text == encoding(p)
}

/// The price that `text` carries, if it carries one.
pub open spec fn decoding(text: Seq<char>) -> Option<CoinView> {
    if exists|p: CoinView| encodes(text, p) {
        Some(choose|p: CoinView| encodes(text, p))
    } else {
        None
    }
}

proof fn lemma_frame()
    ensures
        price_open().len() == 19,
        price_mid().len() == 12,
        price_close().len() == 3,
        price_mid()[0] == '"',
        price_close()[0] == '"',
        is_ascii_chars(price_open()),
        is_ascii_chars(price_mid()),
        is_ascii_chars(price_close()),
{
    reveal_strlit("{\"price\":{\"denom\":\"");
    reveal_strlit("\",\"amount\":\"");
    reveal_strlit("\"}}");
}

/// Where each part of an encoding stands.
proof fn lemma_encoding_shape(text: Seq<char>, p: CoinView)
    requires
        encodes(text, p),
    ensures
        ({
            let d = p.denom;
            let digits = decimal(p.amount);
            let s0: int = d.len() as int + 19;
            let s1: int = s0 + 12;
            let s2: int = s1 + digits.len();
            &&& text.len() == s2 + 3
            &&& text.subrange(0, 19) == price_open()
            &&& text.subrange(19, s0) == d
            &&& text.subrange(s0, s1) == price_mid()
            &&& text.subrange(s1, s2) == digits
            &&& text.subrange(s2, s2 + 3) == price_close()
            &&& text[s0] == '"'
            &&& text[s2] == '"'
            &&& forall|i: int| 19 <= i < s0 ==> is_denom_char(#[trigger] text[i])
            &&& forall|i: int| s1 <= i < s2 ==> is_digit(#[trigger] text[i])
            &&& is_decimal(digits)
            &&& digits_value(digits) == p.amount
            &&& is_ascii_chars(text)
        }),
{
    lemma_frame();
    lemma_decimal_is_decimal(p.amount);
    let d = p.denom;
    let digits = decimal(p.amount);
    let s0: int = d.len() as int + 19;
    let s1: int = s0 + 12;
    let s2: int = s1 + digits.len();
    assert(text.subrange(0, 19) =~= price_open());
    assert(text.subrange(19, s0) =~= d);
    assert(text.subrange(s0, s1) =~= price_mid());
    assert(text.subrange(s1, s2) =~= digits);
    assert(text.subrange(s2, s2 + 3) =~= price_close());
    assert(text[s0] == price_mid()[0]);
    assert(text[s2] == price_close()[0]);
    assert forall|i: int| 19 <= i < s0 implies is_denom_char(#[trigger] text[i]) by {
        assert(text[i] == d[i - 19]);
    }
    assert forall|i: int| s1 <= i < s2 implies is_digit(#[trigger] text[i]) by {
        assert(text[i] == digits[i - s1]);
    }
    assert forall|i: int| 0 <= i < text.len() implies '\0' <= #[trigger] text[i] <= '\u{7f}' by {
        if i < 19 {
            assert(text[i] == price_open()[i]);
        } else if i < s0 {
            assert(is_denom_char(text[i]));
        } else if i < s1 {
            assert(text[i] == price_mid()[i - s0]);
        } else if i < s2 {
            assert(is_digit(text[i]));
        } else {
            assert(text[i] == price_close()[i - s2]);
        }
    }
}

/// In an encoding, the denomination ends at the first double quote after
/// the opening.
proof fn lemma_denom_end(text: Seq<char>, p: CoinView, q: int)
    requires
        encodes(text, p),
        19 <= q <= text.len(),
        forall|i: int| 19 <= i < q ==> text[i] != '"',
    ensures
        q <= 19 + p.denom.len(),
        q < text.len() && text[q] == '"' ==> q == 19 + p.denom.len(),
{
    lemma_encoding_shape(text, p);
    let s0: int = p.denom.len() as int + 19;
    if q > s0 {
        assert(text[s0] == '"');
    }
    if q < text.len() && text[q] == '"' && q < s0 {
        assert(is_denom_char(text[q]));
    }
}

/// In an encoding, the amount ends at the first character after its start
/// that is no digit.
proof fn lemma_amount_end(text: Seq<char>, p: CoinView, e: int)
    requires
        encodes(text, p),
        19 + p.denom.len() + 12 <= e <= text.len(),
        forall|i: int| 19 + p.denom.len() + 12 <= i < e ==> is_digit(text[i]),
    ensures
        e <= 19 + p.denom.len() + 12 + decimal(p.amount).len(),
        e == text.len() || !is_digit(text[e]) ==> e == 19 + p.denom.len() + 12 + decimal(
            p.amount,
        ).len(),
{
    lemma_encoding_shape(text, p);
    let s1: int = p.denom.len() as int + 31;
    let s2: int = s1 + decimal(p.amount).len();
    if e > s2 {
        assert(text[s2] == '"');
        assert(is_digit(text[s2]));
    }
    if e < s2 {
        assert(is_digit(text[e]));
    }
}

/// A text is the metadata of one price at most.
pub proof fn lemma_encoding_unique(text: Seq<char>, p: CoinView, q: CoinView)
    requires
        encodes(text, p),
        encodes(text, q),
    ensures
        p == q,
{
    lemma_encoding_shape(text, p);
    lemma_encoding_shape(text, q);
    let end: int = p.denom.len() as int + 19;
    assert forall|i: int| 19 <= i < end implies text[i] != '"' by {
        assert(is_denom_char(text[i]));
    }
    lemma_denom_end(text, q, end);
    assert(p.denom.len() == q.denom.len());
    assert(p.denom =~= q.denom);
    assert(decimal(p.amount).len() == decimal(q.amount).len());
    assert(decimal(p.amount) =~= decimal(q.amount));
}

/// Reading the metadata written for a valid price gives that price back.
pub proof fn lemma_price_round_trip(p: CoinView)
    requires
        valid_price(p),
    ensures
        decoding(encoding(p)) == Some(p),
{
    let text = encoding(p);
    assert(encodes(text, p));
    let q = choose|q: CoinView| encodes(text, q);
    lemma_encoding_unique(text, p, q);
}

/// `b` holds the characters of `t`, one byte for each.
spec fn bytes_of(b: Seq<u8>, t: Seq<char>) -> bool {
    &&& b.len() == t.len()
    &&& forall|i: int|
        0 <= i < t.len() ==> '\0' <= #[trigger] t[i] <= '\u{7f}' && b[i] == t[i] as u8
}

/// The bytes of an ASCII string, or nothing where it is not ASCII.
fn ascii_bytes(s: &str) -> (r: Option<&[u8]>)
    ensures
        match r {
            Some(b) => bytes_of(b@, s@),
            None => !is_ascii_chars(s@),
        },
{
    if s.is_ascii() {
        let b = s.as_bytes();
        proof {
            is_ascii_spec_bytes(s);
        }
        Some(b)
    } else {
        None
    }
}

/// Whether the text of `b` holds the ASCII string `lit` at `at`.
fn literal_at(b: &[u8], at: usize, lit: &str, Ghost(t): Ghost<Seq<char>>) -> (found: bool)
    requires
        bytes_of(b@, t),
        is_ascii_chars(lit@),
        at <= b.len(),
    ensures
        found == (at + lit@.len() <= t.len() && t.subrange(at as int, at + lit@.len()) == lit@),
{
    let l = lit.as_bytes();
    proof {
        is_ascii_spec_bytes(lit);
    }
    if l.len() > b.len() - at {
        return false;
    }
    let mut i: usize = 0;
    while i < l.len()
        invariant
            bytes_of(b@, t),
            bytes_of(l@, lit@),
            at + l.len() <= b.len(),
            i <= l.len(),
            forall|j: int| 0 <= j < i ==> t[at + j] == lit@[j],
        decreases l.len() - i,
    {
        if b[at + i] != l[i] {
            proof {
                let u = t.subrange(at as int, at + lit@.len());
                assert(u[i as int] == t[at + i]);
                assert(t[at + i] != lit@[i as int]);
            }
            return false;
        }
        proof {
            assert('\0' <= t[at + i] <= '\u{7f}');
            assert('\0' <= lit@[i as int] <= '\u{7f}');
        }
        i += 1;
    }
    assert(t.subrange(at as int, at + lit@.len()) =~= lit@);
    true
}

/// Whether `denom` can be written into metadata.
pub fn is_valid_denom(denom: &str) -> (valid: bool)
    ensures
        valid == valid_denom(denom@),
{
    let b = match ascii_bytes(denom) {
        Some(b) => b,
        None => {
            proof {
                if valid_denom(denom@) {
                    assert forall|i: int| 0 <= i < denom@.len() implies '\0' <= #[trigger] denom@[i]
                        <= '\u{7f}' by {
                        assert(is_denom_char(denom@[i]));
                    }
                }
            }
            return false;
        },
    };
    let mut i: usize = 0;
    while i < b.len()
        invariant
            bytes_of(b@, denom@),
            i <= b.len(),
            forall|j: int| 0 <= j < i ==> is_denom_char(#[trigger] denom@[j]),
        decreases b.len() - i,
    {
        let c = b[i];
        proof {
            assert('\0' <= denom@[i as int] <= '\u{7f}');
        }
        if c < 32 || c > 126 || c == 34 || c == 92 {
            assert(!is_denom_char(denom@[i as int]));
            return false;
        }
        i += 1;
    }
    true
}

impl TokenInfo {
    /// Writes the price into metadata. A denomination that holds a
    /// character which metadata cannot carry is refused.
    pub fn encode(&self) -> (r: Result<String, ContractError>)
        ensures
            match r {
                Ok(text) => encodes(text@, self.price@),
                Err(e) => e == ContractError::InvalidParameter && !valid_price(self.price@),
            },
    {
        if !is_valid_denom(self.price.denom.as_str()) {
            return Err(ContractError::InvalidParameter);
        }
        let mut text = String::from_str("{\"price\":{\"denom\":\"");
        text.append(self.price.denom.as_str());
        text.append("\",\"amount\":\"");
        let digits = decimal_string(self.price.amount);
        text.append(digits.as_str());
        text.append("\"}}");
        Ok(text)
    }

    /// Reads the price out of metadata.
    pub fn decode(metadata: &str) -> (r: Result<TokenInfo, ContractError>)
        ensures
            match r {
                Ok(info) => decoding(metadata@) == Some(info.price@),
                Err(e) => e == ContractError::MalformedPrice && decoding(metadata@) is None,
            },
    {
        let ghost t = metadata@;
        proof {
            lemma_frame();
        }
        let b = match ascii_bytes(metadata) {
            Some(b) => b,
            None => {
                proof {
                    assert forall|p: CoinView| !encodes(t, p) by {
                        if encodes(t, p) {
                            lemma_encoding_shape(t, p);
                        }
                    }
                }
                return Err(ContractError::MalformedPrice);
            },
        };
        let n = b.len();
        if !literal_at(b, 0, "{\"price\":{\"denom\":\"", Ghost(t)) {
            proof {
                assert forall|p: CoinView| !encodes(t, p) by {
                    if encodes(t, p) {
                        lemma_encoding_shape(t, p);
                    }
                }
            }
            return Err(ContractError::MalformedPrice);
        }
        let mut q: usize = 19;
        while q < n && b[q] != 34
            invariant
                t == metadata@,
                bytes_of(b@, t),
                n == b.len(),
                19 <= q <= n,
                forall|i: int| 19 <= i < q ==> is_denom_char(#[trigger] t[i]),
            decreases n - q,
        {
            let c = b[q];
            proof {
                assert('\0' <= t[q as int] <= '\u{7f}');
            }
            if c < 32 || c > 126 || c == 92 {
                proof {
                    assert forall|p: CoinView| !encodes(t, p) by {
                        if encodes(t, p) {
                            lemma_encoding_shape(t, p);
                            lemma_denom_end(t, p, q as int);
                            assert(is_denom_char(t[q as int]));
                        }
                    }
                }
                return Err(ContractError::MalformedPrice);
            }
            q += 1;
        }
        if q >= n {
            proof {
                assert forall|p: CoinView| !encodes(t, p) by {
                    if encodes(t, p) {
                        lemma_encoding_shape(t, p);
                        lemma_denom_end(t, p, q as int);
                    }
                }
            }
            return Err(ContractError::MalformedPrice);
        }
        proof {
            assert('\0' <= t[q as int] <= '\u{7f}');
            assert(t[q as int] == '"');
        }
        if !literal_at(b, q, "\",\"amount\":\"", Ghost(t)) {
            proof {
                assert forall|p: CoinView| !encodes(t, p) by {
                    if encodes(t, p) {
                        lemma_encoding_shape(t, p);
                        lemma_denom_end(t, p, q as int);
                    }
                }
            }
            return Err(ContractError::MalformedPrice);
        }
        let s1: usize = q + 12;
        let mut e: usize = s1;
        let mut amount: u128 = 0;
        assert(t.subrange(s1 as int, e as int) =~= Seq::<char>::empty());
        while e < n && 48 <= b[e] && b[e] <= 57
            invariant
                t == metadata@,
                bytes_of(b@, t),
                n == b.len(),
                19 <= q < n,
                t[q as int] == '"',
                forall|i: int| 19 <= i < q ==> is_denom_char(#[trigger] t[i]),
                s1 == q + 12,
                s1 <= e <= n,
                forall|i: int| s1 <= i < e ==> is_digit(#[trigger] t[i]),
                amount == digits_value(t.subrange(s1 as int, e as int)),
            decreases n - e,
        {
            let c = b[e];
            proof {
                assert('\0' <= t[e as int] <= '\u{7f}');
                assert(is_digit(t[e as int]));
                let next = t.subrange(s1 as int, e + 1);
                assert(next.drop_last() =~= t.subrange(s1 as int, e as int));
                assert(next.last() == t[e as int]);
                assert(digit_value(t[e as int]) == c - 48);
                assert(digits_value(next) == amount * 10 + (c - 48));
                assert forall|p: CoinView| encodes(t, p) implies digits_value(next)
                    <= u128::MAX by {
                    lemma_encoding_shape(t, p);
                    lemma_denom_end(t, p, q as int);
                    lemma_amount_end(t, p, e + 1);
                    let digits = decimal(p.amount);
                    assert(digits.subrange(0, e + 1 - s1) =~= next);
                    lemma_digits_value_prefix(digits, e + 1 - s1);
                }
            }
            let tens = match amount.checked_mul(10) {
                Some(x) => x,
                None => {
                    assert(forall|p: CoinView| !encodes(t, p));
                    return Err(ContractError::MalformedPrice);
                },
            };
            amount = match tens.checked_add((c - 48) as u128) {
                Some(x) => x,
                None => {
                    assert(forall|p: CoinView| !encodes(t, p));
                    return Err(ContractError::MalformedPrice);
                },
            };
            e += 1;
        }
        proof {
            if e < n {
                assert('\0' <= t[e as int] <= '\u{7f}');
                assert(!is_digit(t[e as int]));
            }
        }
        let leading_zero = e - s1 > 1 && b[s1] == 48;
        proof {
            if e > s1 {
                assert('\0' <= t[s1 as int] <= '\u{7f}');
            }
        }
        if e == s1 || leading_zero || !literal_at(b, e, "\"}}", Ghost(t)) || e + 3 != n {
            proof {
                assert forall|p: CoinView| !encodes(t, p) by {
                    if encodes(t, p) {
                        lemma_encoding_shape(t, p);
                        lemma_denom_end(t, p, q as int);
                        lemma_amount_end(t, p, e as int);
                        let digits = decimal(p.amount);
                        assert(digits[0] == t[s1 as int]);
                    }
                }
            }
            return Err(ContractError::MalformedPrice);
        }
        let denom = metadata.substring_ascii(19, q).to_owned();
        let info = TokenInfo { price: Coin { denom, amount } };
        proof {
            let p = info.price@;
            let digits = t.subrange(s1 as int, e as int);
            assert(valid_denom(p.denom)) by {
                assert forall|i: int| 0 <= i < p.denom.len() implies is_denom_char(
                    #[trigger] p.denom[i],
                ) by {
                    assert(p.denom[i] == t[19 + i]);
                }
            }
            assert(is_decimal(digits)) by {
                assert forall|i: int| 0 <= i < digits.len() implies is_digit(
                    #[trigger] digits[i],
                ) by {
                    assert(digits[i] == t[s1 + i]);
                }
                assert(digits[0] == t[s1 as int]);
            }
            lemma_decimal_of_value(digits);
            assert(t =~= encoding(p));
            assert(encodes(t, p));
            let chosen = choose|c: CoinView| encodes(t, c);
            lemma_encoding_unique(t, p, chosen);
        }
        Ok(info)
    }
}

} // verus!
