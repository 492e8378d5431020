//! Hexadecimal text: formatting a transaction hash the way the store
//! records it (`0x` followed by 64 lowercase digits), and parsing the
//! 20-byte account addresses that configuration supplies as hex text.

use vstd::prelude::*;
use crate::types::{EthAddress, TxHash};

verus! {

/// The lowercase hex digit for a value below sixteen.
pub open spec fn hex_digit(n: int) -> u8
    recommends
        0 <= n < 16,
{
    if n < 10 {
        (0x30 + n) as u8
    } else {
        (0x61 + (n - 10)) as u8
    }
}

pub open spec fn is_lower_hex_digit(c: u8) -> bool {
    (0x30 <= c && c <= 0x39) || (0x61 <= c && c <= 0x66)
}

pub open spec fn is_hex_digit(c: u8) -> bool {
    is_lower_hex_digit(c) || (0x41 <= c && c <= 0x46)
}

/// The numeric value of a hex digit, either case.
pub open spec fn hex_val(c: u8) -> int
    recommends
        is_hex_digit(c),
{
    if 0x30 <= c && c <= 0x39 {
        c - 0x30
    } else if 0x61 <= c && c <= 0x66 {
        c - 0x61 + 10
    } else {
        c - 0x41 + 10
    }
}

/// Two lowercase digits per byte, high nibble first.
pub open spec fn hex_of_bytes(bs: Seq<u8>) -> Seq<u8> {
    Seq::new(
        bs.len() * 2,
        |i: int| if i % 2 == 0 {
            hex_digit(bs[i / 2] as int / 16)
        } else {
            hex_digit(bs[i / 2] as int % 16)
        },
    )
}

/// How a transaction hash is written to the store: `0x`, then the
/// hash bytes in lowercase hex.
pub open spec fn tx_hash_text(bs: Seq<u8>) -> Seq<u8> {
    seq![0x30u8, 0x78u8] + hex_of_bytes(bs)
}

/// The texts the store's hash column may hold after this subsystem wrote
/// it: empty (no receipt was obtained), or `0x` followed by the 64
/// lowercase hex digits of a 32-byte hash.
pub open spec fn valid_tx_hash_text(s: Seq<u8>) -> bool {
    ||| s.len() == 0
    ||| {
        &&& s.len() == 66
        &&& s[0] == 0x30u8
        &&& s[1] == 0x78u8
        &&& forall|i: int| 2 <= i < 66 ==> is_lower_hex_digit(#[trigger] s[i])
    }
}

/// Every digit `hex_digit` yields is a lowercase hex digit.
pub proof fn lemma_hex_digit_is_lower(n: int)
    requires
        0 <= n < 16,
    ensures
        is_lower_hex_digit(hex_digit(n)),
{
}

/// The hex text of a 32-byte hash is a valid store hash text.
pub proof fn lemma_tx_hash_text_valid(bs: Seq<u8>)
    requires
        bs.len() == 32,
    ensures
        valid_tx_hash_text(tx_hash_text(bs)),
{
    let s = tx_hash_text(bs);
    assert forall|i: int| 2 <= i < 66 implies is_lower_hex_digit(#[trigger] s[i]) by {
        let j = i - 2;
        assert(s[i] == hex_of_bytes(bs)[j]);
        if j % 2 == 0 {
            lemma_hex_digit_is_lower(bs[j / 2] as int / 16);
        } else {
            lemma_hex_digit_is_lower(bs[j / 2] as int % 16);
        }
    }
}

/// The lowercase hex digit of a value below sixteen.
fn hex_digit_of(n: u8) -> (c: u8)
    requires
        n < 16,
    ensures
        c == hex_digit(n as int),
{
    if n < 10 {
        0x30 + n
    } else {
        0x61 + (n - 10)
    }
}

/// Formats a receipt's transaction hash as the store records it:
/// `0x` followed by 64 lowercase hex digits.
pub fn format_tx_hash(h: &TxHash) -> (s: Vec<u8>)
    requires
        h.wf(),
    ensures
        s@ == tx_hash_text(h.bytes@),
        valid_tx_hash_text(s@),
{
    let mut s: Vec<u8> = Vec::new();
    s.push(0x30);
    s.push(0x78);
    let n = h.bytes.len();
    for i in 0..n
        invariant
            n == h.bytes@.len(),
            s@ == seq![0x30u8, 0x78u8] + hex_of_bytes(h.bytes@.take(i as int)),
    {
        let b = h.bytes[i];
        s.push(hex_digit_of(b / 16));
        s.push(hex_digit_of(b % 16));
        proof {
            let pre = h.bytes@.take(i as int);
            let post = h.bytes@.take(i as int + 1);
            assert(hex_of_bytes(post) =~= hex_of_bytes(pre) + seq![
                hex_digit(h.bytes@[i as int] as int / 16),
                hex_digit(h.bytes@[i as int] as int % 16),
            ]);
            assert(s@ =~= seq![0x30u8, 0x78u8] + hex_of_bytes(post));
        }
    }
    proof {
        assert(h.bytes@.take(n as int) =~= h.bytes@);
        lemma_tx_hash_text_valid(h.bytes@);
    }
    s
}

/// Strips a leading `0x`, the optional prefix of configured addresses.
pub open spec fn strip_hex_prefix(s: Seq<u8>) -> Seq<u8> {
    if s.len() >= 2 && s[0] == 0x30u8 && s[1] == 0x78u8 {
        s.skip(2)
    } else {
        s
    }
}

/// Address text is an optional `0x` prefix and then exactly forty hex
/// digits, either case.
pub open spec fn valid_address_text(s: Seq<u8>) -> bool {
    &&& strip_hex_prefix(s).len() == 40
    &&& forall|i: int| 0 <= i < 40 ==> is_hex_digit(#[trigger] strip_hex_prefix(s)[i])
}

/// The twenty address bytes named by valid address text, high nibble first.
pub open spec fn parsed_address(s: Seq<u8>) -> Seq<u8>
    recommends
        valid_address_text(s),
{
    Seq::new(
        20,
        |i: int| (hex_val(strip_hex_prefix(s)[2 * i]) * 16 + hex_val(
            strip_hex_prefix(s)[2 * i + 1],
        )) as u8,
    )
}

/// The numeric value of one hex digit, or `None` where the byte is not a
/// hex digit.
fn hex_val_of(c: u8) -> (r: Option<u8>)
    ensures
        match r {
            Some(v) => is_hex_digit(c) && v == hex_val(c),
            None => !is_hex_digit(c),
        },
{
    if 0x30 <= c && c <= 0x39 {
        Some(c - 0x30)
    } else if 0x61 <= c && c <= 0x66 {
        Some(c - 0x61 + 10)
    } else if 0x41 <= c && c <= 0x46 {
        Some(c - 0x41 + 10)
    } else {
        None
    }
}

/// Parses configured address text: an optional `0x` prefix, then forty hex
/// digits of either case. Returns the twenty address bytes, or `None` for
/// any other text.
pub fn parse_address(text: &[u8]) -> (r: Option<EthAddress>)
    ensures
        match r {
            Some(a) => valid_address_text(text@) && a.wf() && a.bytes@ == parsed_address(text@),
            None => !valid_address_text(text@),
        },
{
    let start: usize = if text.len() >= 2 && text[0] == 0x30 && text[1] == 0x78 {
        2
    } else {
        0
    };
    proof {
        assert(strip_hex_prefix(text@) =~= text@.skip(start as int));
    }
    if text.len() - start != 40 {
        return None;
    }
    let mut bytes: Vec<u8> = Vec::new();
    let mut i: usize = 0;
    while i < 20
        invariant
            text@.len() == start + 40,
            start <= 2,
            strip_hex_prefix(text@) == text@.skip(start as int),
            i <= 20,
            bytes@.len() == i as int,
            forall|j: int| 0 <= j < 2 * i ==> is_hex_digit(#[trigger] strip_hex_prefix(text@)[j]),
            forall|j: int| 0 <= j < i ==> #[trigger] bytes@[j] == (hex_val(
                strip_hex_prefix(text@)[2 * j],
            ) * 16 + hex_val(strip_hex_prefix(text@)[2 * j + 1])) as u8,
        decreases 20 - i,
    {
        let hi = match hex_val_of(text[start + 2 * i]) {
            Some(v) => v,
            None => {
                proof {
                    assert(strip_hex_prefix(text@)[2 * (i as int)] == text@[start as int + 2 * i]);
                }
                return None;
            },
        };
        let lo = match hex_val_of(text[start + 2 * i + 1]) {
            Some(v) => v,
            None => {
                proof {
                    assert(strip_hex_prefix(text@)[2 * (i as int) + 1] == text@[
                        start as int + 2 * i + 1
                    ]);
                }
                return None;
            },
        };
        bytes.push(hi * 16 + lo);
        i += 1;
    }
    proof {
        assert(bytes@ =~= parsed_address(text@));
    }
    Some(EthAddress { bytes })
}

} // verus!
