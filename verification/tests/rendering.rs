use koinly_convert::convert::finish;
use koinly_convert::record::header_row;
use koinly_convert::render::{join_lines, ledger_rows, render_row, render_rows};
use koinly_convert::{render, Conversion, ConvertError, OutputRecord, Rendering};

const LEDGER_HEADER: &str =
    "Koinly Date,Pair,Side,Amount,Total,Fee Amount,Fee Currency,Order ID,Trade ID\n";

fn sale(date: &str, coin: &str, size: &str, txid: &str) -> OutputRecord {
    OutputRecord {
        date: date.to_string(),
        pair: format!("{}/USD", coin),
        side: "Sell".to_string(),
        amount: size.to_string(),
        total: size.to_string(),
        fee_amount: "".to_string(),
        fee_currency: "USD".to_string(),
        order_id: "".to_string(),
        trade_id: txid.to_string(),
    }
}

fn fields(row: &[&str]) -> Vec<String> {
    row.iter().map(|f| f.to_string()).collect()
}

#[test]
fn ledger_has_nine_labelled_columns() {
    assert_eq!(
        header_row(),
        vec![
            "Koinly Date",
            "Pair",
            "Side",
            "Amount",
            "Total",
            "Fee Amount",
            "Fee Currency",
            "Order ID",
            "Trade ID"
        ]
    );
}

#[test]
fn empty_ledger_has_no_rows() {
    assert_eq!(ledger_rows(&vec![]), Vec::<Vec<String>>::new());
}

#[test]
fn ledger_rows_start_with_the_labels() {
    let rows = ledger_rows(&vec![sale("t1", "USDC", "1", "a"), sale("t2", "TUSD", "2", "b")]);
    assert_eq!(
        rows,
        vec![
            header_row(),
            fields(&["t1", "USDC/USD", "Sell", "1", "1", "", "USD", "", "a"]),
            fields(&["t2", "TUSD/USD", "Sell", "2", "2", "", "USD", "", "b"]),
        ]
    );
}

#[test]
fn row_is_written_as_one_line() {
    assert_eq!(render_row(&fields(&["a", "b", "c"])), Some(b"a,b,c\n".to_vec()));
    assert_eq!(render_row(&fields(&["a", "", ""])), Some(b"a,,\n".to_vec()));
}

#[test]
fn fields_are_quoted_where_needed() {
    assert_eq!(render_row(&fields(&["a,b", "c"])), Some(b"\"a,b\",c\n".to_vec()));
    assert_eq!(render_row(&fields(&["say \"hi\"", "c"])), Some(b"\"say \"\"hi\"\"\",c\n".to_vec()));
    assert_eq!(render_row(&fields(&["two\nlines", "c"])), Some(b"\"two\nlines\",c\n".to_vec()));
}

#[test]
fn rows_are_written_in_order() {
    assert_eq!(
        render_rows(&vec![fields(&["a", "b"]), fields(&["c", "d"])]),
        vec![Some(b"a,b\n".to_vec()), Some(b"c,d\n".to_vec())]
    );
    assert_eq!(render_rows(&vec![]), Vec::<Option<Vec<u8>>>::new());
}

#[test]
fn lines_are_joined_in_order() {
    let lines = vec![Some(b"a\n".to_vec()), Some(b"bc\n".to_vec()), Some(b"\n".to_vec())];
    assert_eq!(join_lines(&lines), (b"a\nbc\n\n".to_vec(), true));
    assert_eq!(join_lines(&vec![]), (Vec::new(), true));
}

#[test]
fn joining_stops_at_the_first_missing_line() {
    let lines = vec![Some(b"a\n".to_vec()), None, Some(b"c\n".to_vec())];
    assert_eq!(join_lines(&lines), (b"a\n".to_vec(), false));
    assert_eq!(join_lines(&vec![None]), (Vec::new(), false));
}

#[test]
fn finish_keeps_the_failure_of_the_conversion() {
    let lines = vec![Some(b"a\n".to_vec()), Some(b"b\n".to_vec())];
    assert_eq!(finish(None, &lines), Rendering { text: b"a\nb\n".to_vec(), failure: None });
    assert_eq!(
        finish(Some(ConvertError::RowParse { row: 4 }), &lines),
        Rendering { text: b"a\nb\n".to_vec(), failure: Some(ConvertError::RowParse { row: 4 }) }
    );
    assert_eq!(
        finish(Some(ConvertError::InputEmpty), &vec![]),
        Rendering { text: Vec::new(), failure: Some(ConvertError::InputEmpty) }
    );
}

#[test]
fn finish_reports_a_line_that_was_not_written() {
    let lines = vec![Some(b"a\n".to_vec()), None, Some(b"c\n".to_vec())];
    assert_eq!(
        finish(None, &lines),
        Rendering { text: b"a\n".to_vec(), failure: Some(ConvertError::Serialize) }
    );
    assert_eq!(
        finish(Some(ConvertError::RowParse { row: 7 }), &lines),
        Rendering { text: b"a\n".to_vec(), failure: Some(ConvertError::Serialize) }
    );
}

#[test]
fn conversion_is_rendered_with_labels_and_lines() {
    let run = Conversion {
        lines: vec![sale("t1", "USDC", "1", "a"), sale("t2", "HUSD", "2,5", "b")],
        failure: Some(ConvertError::RowParse { row: 3 }),
    };
    let out = render(&run);
    assert_eq!(
        String::from_utf8(out.text).unwrap(),
        format!(
            "{}{}{}",
            LEDGER_HEADER, "t1,USDC/USD,Sell,1,1,,USD,,a\n", "t2,HUSD/USD,Sell,\"2,5\",\"2,5\",,USD,,b\n"
        )
    );
    assert_eq!(out.failure, Some(ConvertError::RowParse { row: 3 }));
}

#[test]
fn conversion_without_lines_is_rendered_as_no_text() {
    let out = render(&Conversion { lines: vec![], failure: None });
    assert_eq!(out, Rendering { text: Vec::new(), failure: None });
    let out = render(&Conversion { lines: vec![], failure: Some(ConvertError::InputEmpty) });
    assert_eq!(out, Rendering { text: Vec::new(), failure: Some(ConvertError::InputEmpty) });
}
