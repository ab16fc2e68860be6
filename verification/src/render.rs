//! Canonical string rendering of assets, in the `cw_asset` format:
//! `native:<denom>:<amount>` for native coins and `cw20:<address>:<amount>`
//! for contract tokens. The format is byte-stable: it is consumed by log
//! readers and must not change.

use vstd::arithmetic::div_mod::lemma_div_decreases;
use vstd::prelude::*;
use vstd::string::StringExecFns;

use crate::asset::{Asset, AssetInfo};

verus! {

/// The decimal digit character for `d` (meaningful for `d < 10`).
pub open spec fn dec_digit_char(d: nat) -> char
    recommends
        d < 10,
{
    if d == 0 {
        '0'
    } else if d == 1 {
        '1'
    } else if d == 2 {
        '2'
    } else if d == 3 {
        '3'
    } else if d == 4 {
        '4'
    } else if d == 5 {
        '5'
    } else if d == 6 {
        '6'
    } else if d == 7 {
        '7'
    } else if d == 8 {
        '8'
    } else {
        '9'
    }
}

/// The decimal rendering of `n`: most significant digit first, no sign, no
/// leading zeros (zero itself is the single character `'0'`).
pub open spec fn dec_str(n: nat) -> Seq<char>
    decreases n,
{
    if n < 10 {
        seq![dec_digit_char(n)]
    } else {
        dec_str(n / 10) + seq![dec_digit_char(n % 10)]
    }
}

/// The canonical string for an asset: the kind tag, the denomination or
/// address, and the decimal amount, joined by `':'`.
pub open spec fn stringify_spec(a: Asset) -> Seq<char> {
    match a.info {
        AssetInfo::NativeToken { denom } => "native:"@ + denom@ + ":"@ + dec_str(a.amount as nat),
        AssetInfo::Token { contract_addr } => "cw20:"@ + contract_addr@ + ":"@ + dec_str(
            a.amount as nat,
        ),
    }
}

/// The one-character string for the decimal digit `d`.
fn digit_str(d: u128) -> (s: &'static str)
    requires
        d < 10,
    ensures
        s@ == seq![dec_digit_char(d as nat)],
{
    let s: &'static str = if d == 0 {
        "0"
    } else if d == 1 {
        "1"
    } else if d == 2 {
        "2"
    } else if d == 3 {
        "3"
    } else if d == 4 {
        "4"
    } else if d == 5 {
        "5"
    } else if d == 6 {
        "6"
    } else if d == 7 {
        "7"
    } else if d == 8 {
        "8"
    } else {
        "9"
    };
    proof {
        reveal_strlit("0");
        reveal_strlit("1");
        reveal_strlit("2");
        reveal_strlit("3");
        reveal_strlit("4");
        reveal_strlit("5");
        reveal_strlit("6");
        reveal_strlit("7");
        reveal_strlit("8");
        reveal_strlit("9");
        assert(s@ =~= seq![dec_digit_char(d as nat)]);
    }
    s
}

/// Render `n` in decimal, digit by digit from the most significant end.
pub fn u128_to_dec(n: u128) -> (s: String)
    ensures
        s@ == dec_str(n as nat),
    decreases n,
{
    if n < 10 {
        digit_str(n).to_owned()
    } else {
        proof {
            lemma_div_decreases(n as int, 10);
        }
        let mut s = u128_to_dec(n / 10);
        s.append(digit_str(n % 10));
        proof {
            assert(s@ =~= dec_str(n as nat));
        }
        s
    }
}

/// Create a string representation of an asset. Here we use the `cw_asset`
/// format, which is more readable and easier to parse than the SDK's JSON
/// asset encoding: `native:{denom}:{amount}` / `cw20:{address}:{amount}`.
/// No escaping is performed, so a denomination or address that itself holds
/// `':'` is not losslessly reversible (a documented constraint on callers,
/// not enforced here).
pub fn stringify_asset(asset: &Asset) -> (s: String)
    ensures
        s@ == stringify_spec(*asset),
{
    let amount = u128_to_dec(asset.amount);
    match &asset.info {
        AssetInfo::NativeToken { denom } => {
            let mut s = "native:".to_owned();
            s.append(denom.as_str());
            s.append(":");
            s.append(amount.as_str());
            proof {
                assert(s@ =~= stringify_spec(*asset));
            }
            s
        },
        AssetInfo::Token { contract_addr } => {
            let mut s = "cw20:".to_owned();
            s.append(contract_addr.as_str());
            s.append(":");
            s.append(amount.as_str());
            proof {
                assert(s@ =~= stringify_spec(*asset));
            }
            s
        },
    }
}

/// Rendering has no hidden state: any two strings that meet
/// `stringify_asset`'s contract for the same asset are the same string.
pub proof fn lemma_stringify_deterministic(a: Asset, s1: Seq<char>, s2: Seq<char>)
    requires
        s1 == stringify_spec(a),
        s2 == stringify_spec(a),
    ensures
        s1 == s2,
{
}

} // verus!
