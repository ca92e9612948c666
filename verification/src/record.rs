//! The rows that come in and the ledger line that goes out.
//!
//! Every field is text and is carried as it was read: amounts are never
//! parsed as numbers. Each type has a view that holds its fields as
//! sequences of characters.

use vstd::prelude::*;

verus! {

/// One row of a deposit table.
#[derive(Debug, Clone, PartialEq, Eq)]
pub struct DepositRecord {
    pub id: String,
    pub time: String,
    pub coin: String,
    pub size: String,
    pub status: String,
    pub additional_info: String,
    pub txid: String,
    pub trailing: String,
}

/// One row of a withdrawal table.
#[derive(Debug, Clone, PartialEq, Eq)]
pub struct WithdrawRecord {
    pub id: String,
    pub time: String,
    pub coin: String,
    pub size: String,
    pub status: String,
    pub address: String,
    pub txid: String,
    pub fee: String,
}

/// One line of the ledger.
#[derive(Debug, Clone, PartialEq, Eq)]
pub struct OutputRecord {
    pub date: String,
    pub pair: String,
    pub side: String,
    pub amount: String,
    pub total: String,
    pub fee_amount: String,
    pub fee_currency: String,
    pub order_id: String,
    pub trade_id: String,
}

/// What a `DepositRecord` holds.
pub struct DepositView {
    pub id: Seq<char>,
    pub time: Seq<char>,
    pub coin: Seq<char>,
    pub size: Seq<char>,
    pub status: Seq<char>,
    pub additional_info: Seq<char>,
    pub txid: Seq<char>,
    pub trailing: Seq<char>,
}

/// What a `WithdrawRecord` holds.
pub struct WithdrawView {
    pub id: Seq<char>,
    pub time: Seq<char>,
    pub coin: Seq<char>,
    pub size: Seq<char>,
    pub status: Seq<char>,
    pub address: Seq<char>,
    pub txid: Seq<char>,
    pub fee: Seq<char>,
}

/// What an `OutputRecord` holds.
pub struct OutputView {
    pub date: Seq<char>,
    pub pair: Seq<char>,
    pub side: Seq<char>,
    pub amount: Seq<char>,
    pub total: Seq<char>,
    pub fee_amount: Seq<char>,
    pub fee_currency: Seq<char>,
    pub order_id: Seq<char>,
    pub trade_id: Seq<char>,
}

impl View for DepositRecord {
    type V = DepositView;

    open spec fn view(&self) -> DepositView {
        DepositView {
            id: self.id@,
            time: self.time@,
            coin: self.coin@,
            size: self.size@,
            status: self.status@,
            additional_info: self.additional_info@,
            txid: self.txid@,
            trailing: self.trailing@,
        }
    }
}

impl View for WithdrawRecord {
    type V = WithdrawView;

    open spec fn view(&self) -> WithdrawView {
        WithdrawView {
            id: self.id@,
            time: self.time@,
            coin: self.coin@,
            size: self.size@,
            status: self.status@,
            address: self.address@,
            txid: self.txid@,
            fee: self.fee@,
        }
    }
}

impl View for OutputRecord {
    type V = OutputView;

    open spec fn view(&self) -> OutputView {
        OutputView {
            date: self.date@,
            pair: self.pair@,
            side: self.side@,
            amount: self.amount@,
            total: self.total@,
            fee_amount: self.fee_amount@,
            fee_currency: self.fee_currency@,
            order_id: self.order_id@,
            trade_id: self.trade_id@,
        }
    }
}

impl DeepView for OutputRecord {
    type V = OutputView;

    open spec fn deep_view(&self) -> OutputView {
        self@
    }
}

/// The column labels of the ledger, in the order of its columns.
pub open spec fn ledger_labels() -> Seq<Seq<char>> {
    seq![
        "Koinly Date"@,
        "Pair"@,
        "Side"@,
        "Amount"@,
        "Total"@,
        "Fee Amount"@,
        "Fee Currency"@,
        "Order ID"@,
        "Trade ID"@,
    ]
}

/// The fields of a ledger line, in the order of the ledger's columns.
pub open spec fn ledger_fields(line: OutputView) -> Seq<Seq<char>> {
    seq![
        line.date,
        line.pair,
        line.side,
        line.amount,
        line.total,
        line.fee_amount,
        line.fee_currency,
        line.order_id,
        line.trade_id,
    ]
}

/// The column labels of the ledger.
pub fn header_row() -> (labels: Vec<String>)
    ensures
        labels.deep_view() == ledger_labels(),
{
    let labels = vec![
        "Koinly Date".to_owned(),
        "Pair".to_owned(),
        "Side".to_owned(),
        "Amount".to_owned(),
        "Total".to_owned(),
        "Fee Amount".to_owned(),
        "Fee Currency".to_owned(),
        "Order ID".to_owned(),
        "Trade ID".to_owned(),
    ];
    assert(labels.deep_view() =~= ledger_labels());
    labels
}

impl OutputRecord {
    /// The fields of this line, in the order of the ledger's columns.
    pub fn fields(&self) -> (row: Vec<String>)
        ensures
            row.deep_view() == ledger_fields(self@),
    {
        let row = vec![
            self.date.clone(),
            self.pair.clone(),
            self.side.clone(),
            self.amount.clone(),
            self.total.clone(),
            self.fee_amount.clone(),
            self.fee_currency.clone(),
            self.order_id.clone(),
            self.trade_id.clone(),
        ];
        assert(row.deep_view() =~= ledger_fields(self@));
        row
    }
}

} // verus!
