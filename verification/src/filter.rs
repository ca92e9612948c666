//! The rules that decide which transfers reach the ledger.
//!
//! A transfer is kept when its coin is one of the dollar stablecoins and its
//! transaction id does not mark it as a transfer between accounts.

use vstd::prelude::*;
use crate::text::{contains, contains_text, same_text};

verus! {

/// The coin codes that count as dollars.
pub open spec fn dollar_codes() -> Seq<Seq<char>> {
    seq!["USDC"@, "TUSD"@, "USDP"@, "BUSD"@, "HUSD"@]
}

/// `denom` is, letter for letter, one of the dollar stablecoin codes.
pub open spec fn is_dollar_code(denom: Seq<char>) -> bool {
    dollar_codes().contains(denom)
}

/// The text that marks a transaction id as a transfer between accounts.
pub open spec fn transfer_marker() -> Seq<char> {
    "Transfer from"@
}

/// `txid` holds the transfer marker somewhere, in exactly that spelling.
pub open spec fn names_transfer(txid: Seq<char>) -> bool {
    contains_text(txid, transfer_marker())
}

/// A transfer with this coin and transaction id is kept.
pub open spec fn eligible(coin: Seq<char>, txid: Seq<char>) -> bool {
    is_dollar_code(coin) && !names_transfer(txid)
}

/// Whether `denom` is a dollar stablecoin code. The match is exact: case
/// counts and nothing is trimmed.
pub fn is_dollar(denom: &str) -> (yes: bool)
    ensures
        yes == is_dollar_code(denom@),
{
    let yes = same_text(denom, "USDC") || same_text(denom, "TUSD") || same_text(denom, "USDP")
        || same_text(denom, "BUSD") || same_text(denom, "HUSD");
    proof {
        let codes = dollar_codes();
        assert(codes[0] == "USDC"@ && codes[1] == "TUSD"@ && codes[2] == "USDP"@ && codes[3]
            == "BUSD"@ && codes[4] == "HUSD"@);
    }
    yes
}

/// Whether `txid` marks a transfer between accounts.
pub fn is_transfer(txid: &str) -> (yes: bool)
    ensures
        yes == names_transfer(txid@),
{
    contains(txid, "Transfer from")
}

/// Whether a transfer with this coin and transaction id is kept.
pub fn is_eligible(coin: &str, txid: &str) -> (yes: bool)
    ensures
        yes == eligible(coin@, txid@),
        !is_dollar_code(coin@) ==> !yes,
        names_transfer(txid@) ==> !yes,
{
    is_dollar(coin) && !is_transfer(txid)
}

} // verus!
