//! From a row to its ledger line.
//!
//! A deposit is entered as a sale and a withdrawal as a purchase, both
//! against `USD`. Time, size and transaction id are carried over unchanged.

use vstd::prelude::*;
use vstd::string::StringExecFns;
use crate::filter::{eligible, is_dollar_code, is_eligible, names_transfer};
use crate::record::{DepositRecord, DepositView, OutputRecord, OutputView, WithdrawRecord, WithdrawView};

verus! {

/// The ledger line of a deposit.
pub open spec fn deposit_line(r: DepositView) -> OutputView {
    OutputView {
        date: r.time,
        pair: r.coin + "/USD"@,
        side: "Sell"@,
        amount: r.size,
        total: r.size,
        fee_amount: Seq::empty(),
        fee_currency: "USD"@,
        order_id: Seq::empty(),
        trade_id: r.txid,
    }
}

/// The ledger line of a withdrawal.
pub open spec fn withdraw_line(r: WithdrawView) -> OutputView {
    OutputView {
        date: r.time,
        pair: r.coin + "/USD"@,
        side: "Buy"@,
        amount: r.size,
        total: r.size,
        fee_amount: r.fee,
        fee_currency: r.coin,
        order_id: Seq::empty(),
        trade_id: r.txid,
    }
}

/// Maps a deposit to its ledger line, whatever its coin.
pub fn project_deposit(r: DepositRecord) -> (line: OutputRecord)
    ensures
        line@ == deposit_line(r@),
{
    let total = r.size.clone();
    OutputRecord {
        date: r.time,
        pair: r.coin.concat("/USD"),
        side: "Sell".to_owned(),
        amount: r.size,
        total,
        fee_amount: String::new(),
        fee_currency: "USD".to_owned(),
        order_id: String::new(),
        trade_id: r.txid,
    }
}

/// Maps a withdrawal to its ledger line, whatever its coin.
pub fn project_withdraw(r: WithdrawRecord) -> (line: OutputRecord)
    ensures
        line@ == withdraw_line(r@),
{
    let total = r.size.clone();
    let pair = r.coin.clone().concat("/USD");
    OutputRecord {
        date: r.time,
        pair,
        side: "Buy".to_owned(),
        amount: r.size,
        total,
        fee_amount: r.fee,
        fee_currency: r.coin,
        order_id: String::new(),
        trade_id: r.txid,
    }
}

/// The ledger line of a deposit, or `None` for a deposit that is left out.
///
/// A deposit is left out when its coin is not a dollar stablecoin or its
/// transaction id marks a transfer between accounts. A line that is given
/// carries the deposit's size as amount and as total, and its transaction
/// id as trade id.
pub fn convert_deposit(r: DepositRecord) -> (line: Option<OutputRecord>)
    ensures
        match line {
            Some(l) => eligible(r@.coin, r@.txid) && l@ == deposit_line(r@),
            None => !eligible(r@.coin, r@.txid),
        },
        !is_dollar_code(r@.coin) ==> line is None,
        names_transfer(r@.txid) ==> line is None,
        line matches Some(l) ==> l@.amount == r@.size && l@.total == r@.size && l@.trade_id
            == r@.txid,
{
    if is_eligible(r.coin.as_str(), r.txid.as_str()) {
        Some(project_deposit(r))
    } else {
        None
    }
}

/// The ledger line of a withdrawal, or `None` for a withdrawal that is left
/// out.
///
/// A withdrawal is left out when its coin is not a dollar stablecoin or its
/// transaction id marks a transfer between accounts. A line that is given
/// carries the withdrawal's size as amount and as total, and its
/// transaction id as trade id.
pub fn convert_withdraw(r: WithdrawRecord) -> (line: Option<OutputRecord>)
    ensures
        match line {
            Some(l) => eligible(r@.coin, r@.txid) && l@ == withdraw_line(r@),
            None => !eligible(r@.coin, r@.txid),
        },
        !is_dollar_code(r@.coin) ==> line is None,
        names_transfer(r@.txid) ==> line is None,
        line matches Some(l) ==> l@.amount == r@.size && l@.total == r@.size && l@.trade_id
            == r@.txid,
{
    if is_eligible(r.coin.as_str(), r.txid.as_str()) {
        Some(project_withdraw(r))
    } else {
        None
    }
}

} // verus!
