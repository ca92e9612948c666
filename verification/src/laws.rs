//! What holds of every conversion.
//!
//! The laws speak of the rows of a table as they were read (`EntryView`)
//! and of the ledger that `convert_table` gives for them.

use vstd::prelude::*;
use crate::filter::{dollar_codes, is_dollar_code, names_transfer};
use crate::pipeline::{
    conversion_of, ledger_of, readings, reads, rows_conversion, rows_taken, shape_of, survivors,
    ConvertError, RowView,
};
use crate::prefix::{lemma_breaks_once, lemma_leading};
use crate::record::OutputView;
use crate::shape::{EntryView, Shape};
use crate::text::occurs_at;

verus! {

/// A coin is a dollar stablecoin exactly when it is one of the five codes.
pub proof fn law_dollar_codes(coin: Seq<char>)
    ensures
        is_dollar_code(coin) <==> (coin == "USDC"@ || coin == "TUSD"@ || coin == "USDP"@ || coin
            == "BUSD"@ || coin == "HUSD"@),
{
    let codes = dollar_codes();
    assert(codes[0] == "USDC"@ && codes[1] == "TUSD"@ && codes[2] == "USDP"@ && codes[3]
        == "BUSD"@ && codes[4] == "HUSD"@);
}

/// A row whose coin is not a dollar stablecoin leaves no trace in the
/// ledger, whatever its other fields hold and wherever it stands: the
/// ledger is the same as without the row.
pub proof fn law_other_coin_gives_no_line(before: Seq<EntryView>, e: EntryView, after: Seq<EntryView>)
    requires
        !is_dollar_code(e.coin()),
    ensures
        ledger_of(before + seq![e] + after) == ledger_of(before + after),
{
    lemma_dropped_row(before, e, after);
}

/// A row whose transaction id holds the transfer marker leaves no trace in
/// the ledger, even if its coin is a dollar stablecoin: the ledger is the
/// same as without the row.
pub proof fn law_transfer_gives_no_line(before: Seq<EntryView>, e: EntryView, after: Seq<EntryView>)
    requires
        names_transfer(e.txid()),
    ensures
        ledger_of(before + seq![e] + after) == ledger_of(before + after),
{
    lemma_dropped_row(before, e, after);
}

/// A row that is not kept can be taken out without changing the ledger.
proof fn lemma_dropped_row(before: Seq<EntryView>, e: EntryView, after: Seq<EntryView>)
    requires
        !e.kept(),
    ensures
        ledger_of(before + seq![e] + after) == ledger_of(before + after),
{
    let keep = |e: EntryView| e.kept();
    Seq::filter_distributes_over_add(before + seq![e], after, keep);
    Seq::filter_distributes_over_add(before, seq![e], keep);
    Seq::filter_distributes_over_add(before, after, keep);
    assert(seq![e] =~= Seq::<EntryView>::empty().push(e));
    Seq::<EntryView>::empty().lemma_filter_push(e, keep);
    assert(Seq::<EntryView>::empty().filter(keep) =~= Seq::<EntryView>::empty()) by {
        Seq::<EntryView>::empty().lemma_filter_len(keep);
    }
    assert(before.filter(keep) + Seq::<EntryView>::empty() =~= before.filter(keep));
}

/// Each line of the ledger is the line of a row that was kept: a row of
/// the input whose coin is a dollar stablecoin and whose transaction id
/// does not hold the transfer marker. There are as many lines as such rows.
pub proof fn law_lines_come_from_kept_rows(entries: Seq<EntryView>, k: int)
    requires
        0 <= k < ledger_of(entries).len(),
    ensures
        ledger_of(entries).len() == survivors(entries).len(),
        ledger_of(entries)[k] == survivors(entries)[k].line(),
        entries.contains(survivors(entries)[k]),
        is_dollar_code(survivors(entries)[k].coin()),
        !names_transfer(survivors(entries)[k].txid()),
{
    let keep = |e: EntryView| e.kept();
    entries.lemma_filter_pred(keep, k);
    assert(entries.filter(keep).contains(survivors(entries)[k]));
    entries.lemma_filter_contains_rev(keep, survivors(entries)[k]);
}

/// Amount and total of a ledger line are both the size of its row, letter
/// for letter.
pub proof fn law_amount_and_total_are_size(entries: Seq<EntryView>, k: int)
    requires
        0 <= k < ledger_of(entries).len(),
    ensures
        ledger_of(entries)[k].amount == survivors(entries)[k].size(),
        ledger_of(entries)[k].total == survivors(entries)[k].size(),
{
}

/// The trade id of a ledger line is the transaction id of its row.
pub proof fn law_trade_id_is_txid(entries: Seq<EntryView>, k: int)
    requires
        0 <= k < ledger_of(entries).len(),
    ensures
        ledger_of(entries)[k].trade_id == survivors(entries)[k].txid(),
{
}

/// The pair of a ledger line is the coin of its row followed by `/USD`.
pub proof fn law_pair_ends_in_usd(e: EntryView)
    ensures
        e.line().pair == e.coin() + "/USD"@,
        occurs_at(e.line().pair, "/USD"@, e.coin().len() as int),
        e.coin().len() + "/USD"@.len() == e.line().pair.len(),
{
    let pair = e.line().pair;
    let at = e.coin().len() as int;
    assert(pair.subrange(at, at + "/USD"@.len()) =~= "/USD"@);
}

/// The trade ids of the ledger, in order, are the transaction ids of the
/// kept rows, in order.
pub proof fn law_trade_ids_follow_rows(entries: Seq<EntryView>)
    ensures
        ledger_of(entries).map_values(|line: OutputView| line.trade_id) == survivors(
            entries,
        ).map_values(|e: EntryView| e.txid()),
{
    assert(ledger_of(entries).map_values(|line: OutputView| line.trade_id) =~= survivors(
        entries,
    ).map_values(|e: EntryView| e.txid()));
}

/// The kept rows stand in the order of the input: of two kept rows, the
/// earlier one is an earlier row of the input.
pub proof fn law_kept_rows_keep_order(entries: Seq<EntryView>, j: int, k: int)
    requires
        0 <= j < k < survivors(entries).len(),
    ensures
        exists|a: int, b: int|
            0 <= a < b < entries.len() && entries[a] == survivors(entries)[j] && entries[b]
                == survivors(entries)[k],
    decreases entries.len(),
{
    let keep = |e: EntryView| e.kept();
    entries.lemma_filter_len(keep);
    let rest = entries.drop_last();
    let last = entries.last();
    assert(entries =~= rest.push(last));
    rest.lemma_filter_push(last, keep);
    if k < survivors(rest).len() {
        law_kept_rows_keep_order(rest, j, k);
        let (a, b) = choose|a: int, b: int|
            0 <= a < b < rest.len() && rest[a] == survivors(rest)[j] && rest[b] == survivors(
                rest,
            )[k];
        assert(0 <= a < b < entries.len() && entries[a] == survivors(entries)[j] && entries[b]
            == survivors(entries)[k]);
    } else {
        assert(survivors(entries)[k] == last);
        assert(survivors(rest).contains(survivors(rest)[j]));
        rest.lemma_filter_contains_rev(keep, survivors(rest)[j]);
        let a = choose|a: int| 0 <= a < rest.len() && rest[a] == survivors(rest)[j];
        let b = entries.len() - 1;
        assert(0 <= a < b < entries.len() && entries[a] == survivors(entries)[j] && entries[b]
            == survivors(entries)[k]);
    }
}

/// The ledger of a table is the ledger of the rows that the conversion
/// reads, and those are the rows that stand before the first one that does
/// not read under the table's shape, in the order of the table.
pub proof fn law_table_ledger(table: Seq<RowView>)
    requires
        table.len() >= 2,
    ensures
        conversion_of(table).lines == ledger_of(rows_taken(table)),
        rows_taken(table).len() <= table.len() - 1,
        forall|i: int|
            0 <= i < rows_taken(table).len() ==> reads(
                shape_of(table[0], table[1]),
                table[0],
                table[i + 1],
            ) == Some(#[trigger] rows_taken(table)[i]),
        conversion_of(table).failure is None <==> rows_taken(table).len() == table.len() - 1,
{
    let shape = shape_of(table[0], table[1]);
    let read = readings(shape, table[0], table.skip(1));
    lemma_leading(read);
}

/// The first row below the header decides how the whole table is read. If
/// it reads as a deposit, every row is read as a deposit. If it does not,
/// every row, the first one included, is read as a withdrawal; a first row
/// that does not read as a withdrawal either fails the conversion at once.
pub proof fn law_first_row_decides_shape(table: Seq<RowView>)
    requires
        table.len() >= 2,
    ensures
        table.skip(1)[0] == table[1],
        reads(Shape::Deposit, table[0], table[1]) is Some ==> conversion_of(table)
            == rows_conversion(Shape::Deposit, table[0], table.skip(1)) && forall|i: int|
            0 <= i < rows_taken(table).len() ==> (#[trigger] rows_taken(table)[i]) is Deposit,
        reads(Shape::Deposit, table[0], table[1]) is None ==> conversion_of(table)
            == rows_conversion(Shape::Withdrawal, table[0], table.skip(1)) && forall|i: int|
            0 <= i < rows_taken(table).len() ==> (#[trigger] rows_taken(table)[i]) is Withdrawal,
        reads(Shape::Deposit, table[0], table[1]) is None && reads(
            Shape::Withdrawal,
            table[0],
            table[1],
        ) is None ==> conversion_of(table).lines.len() == 0 && conversion_of(table).failure
            == Some(ConvertError::RowParse { row: 0 }),
{
    let shape = shape_of(table[0], table[1]);
    let read = readings(shape, table[0], table.skip(1));
    lemma_leading(read);
    law_table_ledger(table);
    if reads(Shape::Deposit, table[0], table[1]) is None && reads(
        Shape::Withdrawal,
        table[0],
        table[1],
    ) is None {
        assert(read[0] is None);
        lemma_breaks_once(read, 0);
        assert(ledger_of(rows_taken(table)).len() == 0) by {
            rows_taken(table).lemma_filter_len(|e: EntryView| e.kept());
        }
    }
}

} // verus!
