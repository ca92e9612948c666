use koinly_convert::project::{project_deposit, project_withdraw};
use koinly_convert::{convert_deposit, convert_withdraw, DepositRecord, OutputRecord, WithdrawRecord};

fn deposit(coin: &str, size: &str, txid: &str) -> DepositRecord {
    DepositRecord {
        id: "id1".to_string(),
        time: "2023-01-01T00:00:00Z".to_string(),
        coin: coin.to_string(),
        size: size.to_string(),
        status: "COMPLETED".to_string(),
        additional_info: "".to_string(),
        txid: txid.to_string(),
        trailing: "".to_string(),
    }
}

fn withdrawal(coin: &str, size: &str, txid: &str, fee: &str) -> WithdrawRecord {
    WithdrawRecord {
        id: "id2".to_string(),
        time: "2023-02-01T00:00:00Z".to_string(),
        coin: coin.to_string(),
        size: size.to_string(),
        status: "COMPLETED".to_string(),
        address: "0xAddr".to_string(),
        txid: txid.to_string(),
        fee: fee.to_string(),
    }
}

#[test]
fn deposit_becomes_a_sale() {
    let line = convert_deposit(deposit("USDC", "100.50", "abcTXID"));
    assert_eq!(
        line,
        Some(OutputRecord {
            date: "2023-01-01T00:00:00Z".to_string(),
            pair: "USDC/USD".to_string(),
            side: "Sell".to_string(),
            amount: "100.50".to_string(),
            total: "100.50".to_string(),
            fee_amount: "".to_string(),
            fee_currency: "USD".to_string(),
            order_id: "".to_string(),
            trade_id: "abcTXID".to_string(),
        })
    );
}

#[test]
fn withdrawal_becomes_a_purchase() {
    let line = convert_withdraw(withdrawal("BUSD", "50.00", "txid2", "0.50"));
    assert_eq!(
        line,
        Some(OutputRecord {
            date: "2023-02-01T00:00:00Z".to_string(),
            pair: "BUSD/USD".to_string(),
            side: "Buy".to_string(),
            amount: "50.00".to_string(),
            total: "50.00".to_string(),
            fee_amount: "0.50".to_string(),
            fee_currency: "BUSD".to_string(),
            order_id: "".to_string(),
            trade_id: "txid2".to_string(),
        })
    );
}

#[test]
fn deposit_of_other_coin_gives_no_line() {
    assert_eq!(convert_deposit(deposit("ETH", "1", "abcTXID")), None);
    assert_eq!(convert_deposit(deposit("usdc", "1", "abcTXID")), None);
    assert_eq!(convert_deposit(deposit("", "1", "abcTXID")), None);
}

#[test]
fn withdrawal_of_other_coin_gives_no_line() {
    assert_eq!(convert_withdraw(withdrawal("BTC", "1", "txid2", "0")), None);
    assert_eq!(convert_withdraw(withdrawal("busd", "1", "txid2", "0")), None);
}

#[test]
fn deposit_marked_as_transfer_gives_no_line() {
    assert_eq!(convert_deposit(deposit("USDC", "1", "Transfer from Alice")), None);
    assert_eq!(convert_deposit(deposit("USDC", "1", "see Transfer from main account")), None);
}

#[test]
fn withdrawal_marked_as_transfer_gives_no_line() {
    assert_eq!(convert_withdraw(withdrawal("TUSD", "1", "Transfer from Alice", "0")), None);
}

#[test]
fn lower_case_marker_does_not_drop_a_row() {
    let line = convert_deposit(deposit("USDC", "1", "transfer from Alice")).unwrap();
    assert_eq!(line.trade_id, "transfer from Alice");
}

#[test]
fn size_is_carried_letter_for_letter() {
    for size in ["100.50", "0100.500", "1e3", " 7 ", "not a number", ""] {
        let line = convert_deposit(deposit("USDP", size, "t")).unwrap();
        assert_eq!(line.amount, size);
        assert_eq!(line.total, size);
        let line = convert_withdraw(withdrawal("USDP", size, "t", "0.1")).unwrap();
        assert_eq!(line.amount, size);
        assert_eq!(line.total, size);
    }
}

#[test]
fn txid_becomes_trade_id() {
    for txid in ["abcTXID", "0x00ff", "", "with, comma", "Transfer"] {
        let line = convert_deposit(deposit("HUSD", "1", txid)).unwrap();
        assert_eq!(line.trade_id, txid);
        let line = convert_withdraw(withdrawal("HUSD", "1", txid, "0.1")).unwrap();
        assert_eq!(line.trade_id, txid);
    }
}

#[test]
fn pair_is_coin_against_usd() {
    for coin in ["USDC", "TUSD", "USDP", "BUSD", "HUSD"] {
        let line = convert_deposit(deposit(coin, "1", "t")).unwrap();
        assert_eq!(line.pair, format!("{}/USD", coin));
        assert_eq!(line.fee_currency, "USD");
        let line = convert_withdraw(withdrawal(coin, "1", "t", "0.1")).unwrap();
        assert_eq!(line.pair, format!("{}/USD", coin));
        assert_eq!(line.fee_currency, coin);
    }
}

#[test]
fn projection_does_not_filter() {
    let line = project_deposit(deposit("ETH", "2", "Transfer from Alice"));
    assert_eq!(line.pair, "ETH/USD");
    assert_eq!(line.side, "Sell");
    assert_eq!(line.trade_id, "Transfer from Alice");
    let line = project_withdraw(withdrawal("BTC", "3", "Transfer from Bob", "0.0001"));
    assert_eq!(line.pair, "BTC/USD");
    assert_eq!(line.side, "Buy");
    assert_eq!(line.fee_amount, "0.0001");
    assert_eq!(line.fee_currency, "BTC");
}

#[test]
fn fields_follow_the_ledger_columns() {
    let line = convert_withdraw(withdrawal("BUSD", "50.00", "txid2", "0.50")).unwrap();
    assert_eq!(
        line.fields(),
        vec!["2023-02-01T00:00:00Z", "BUSD/USD", "Buy", "50.00", "50.00", "0.50", "BUSD", "", "txid2"]
    );
}
