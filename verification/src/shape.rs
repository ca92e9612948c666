//! The two shapes of table and how a row is read under each.
//!
//! The first row of a table names its columns. A shape asks for eight
//! columns by name. A header serves a shape when it holds each of those
//! names exactly once; columns with other names are passed over. A row is
//! read under a shape when the header serves the shape and the row has as
//! many fields as the header.

use vstd::prelude::*;
use crate::project::{convert_deposit, convert_withdraw, deposit_line, withdraw_line};
use crate::filter::eligible;
use crate::record::{DepositRecord, DepositView, OutputRecord, OutputView, WithdrawRecord, WithdrawView};
use crate::text::same_text;

verus! {

/// The kind of table: deposits or withdrawals.
#[derive(Debug, Clone, Copy, PartialEq, Eq, Structural)]
pub enum Shape {
    Deposit,
    Withdrawal,
}

/// A row as it was read under one of the shapes.
#[derive(Debug, Clone, PartialEq, Eq)]
pub enum Entry {
    Deposit(DepositRecord),
    Withdrawal(WithdrawRecord),
}

/// What an `Entry` holds.
pub enum EntryView {
    Deposit(DepositView),
    Withdrawal(WithdrawView),
}

impl View for Entry {
    type V = EntryView;

    open spec fn view(&self) -> EntryView {
        match self {
            Entry::Deposit(r) => EntryView::Deposit(r@),
            Entry::Withdrawal(r) => EntryView::Withdrawal(r@),
        }
    }
}

impl EntryView {
    /// The coin code of the row.
    pub open spec fn coin(self) -> Seq<char> {
        match self {
            EntryView::Deposit(r) => r.coin,
            EntryView::Withdrawal(r) => r.coin,
        }
    }

    /// The transaction id of the row.
    pub open spec fn txid(self) -> Seq<char> {
        match self {
            EntryView::Deposit(r) => r.txid,
            EntryView::Withdrawal(r) => r.txid,
        }
    }

    /// The size of the row, as text.
    pub open spec fn size(self) -> Seq<char> {
        match self {
            EntryView::Deposit(r) => r.size,
            EntryView::Withdrawal(r) => r.size,
        }
    }

    /// The row is kept in the ledger.
    pub open spec fn kept(self) -> bool {
        eligible(self.coin(), self.txid())
    }

    /// The ledger line of the row.
    pub open spec fn line(self) -> OutputView {
        match self {
            EntryView::Deposit(r) => deposit_line(r),
            EntryView::Withdrawal(r) => withdraw_line(r),
        }
    }
}

impl Entry {
    /// The ledger line of this row, or `None` for a row that is left out.
    pub fn convert(self) -> (line: Option<OutputRecord>)
        ensures
            match line {
                Some(l) => self@.kept() && l@ == self@.line(),
                None => !self@.kept(),
            },
    {
        match self {
            Entry::Deposit(r) => convert_deposit(r),
            Entry::Withdrawal(r) => convert_withdraw(r),
        }
    }
}

/// The names of the columns that a shape asks for, in the order of the
/// record's fields.
pub open spec fn column_names(shape: Shape) -> Seq<Seq<char>> {
    match shape {
        Shape::Deposit => seq![
            "id"@,
            "time"@,
            "coin"@,
            "size"@,
            "status"@,
            "additionalInfo"@,
            "txid"@,
            "_delete"@,
        ],
        Shape::Withdrawal => seq![
            "id"@,
            "time"@,
            "coin"@,
            "size"@,
            "status"@,
            "address"@,
            "txid"@,
            "fee"@,
        ],
    }
}

/// Column `at` of `header` is named `name`, and no other column is.
pub open spec fn sole_column(header: Seq<Seq<char>>, name: Seq<char>, at: int) -> bool {
    &&& 0 <= at < header.len()
    &&& header[at] == name
    &&& forall|j: int| 0 <= j < header.len() && header[j] == name ==> j == at
}

/// The one column of `header` that is named `name`; `None` when no column or
/// more than one has that name.
pub open spec fn column_of(header: Seq<Seq<char>>, name: Seq<char>) -> Option<int> {
    if exists|at: int| sole_column(header, name, at) {
        Some(choose|at: int| sole_column(header, name, at))
    } else {
        None
    }
}

/// `header` holds each of the shape's column names exactly once.
pub open spec fn serves(header: Seq<Seq<char>>, shape: Shape) -> bool {
    forall|k: int|
        0 <= k < column_names(shape).len() ==> (#[trigger] column_of(
            header,
            column_names(shape)[k],
        )) is Some
}

/// For each of the shape's column names, in order, the column of `header`
/// that has it.
pub open spec fn columns_of(header: Seq<Seq<char>>, shape: Shape) -> Seq<int> {
    Seq::new(
        column_names(shape).len(),
        |k: int| column_of(header, column_names(shape)[k]).unwrap(),
    )
}

/// The record made of eight fields given in the order of the shape's column
/// names.
pub open spec fn entry_from(shape: Shape, c: Seq<Seq<char>>) -> EntryView {
    match shape {
        Shape::Deposit => EntryView::Deposit(
            DepositView {
                id: c[0],
                time: c[1],
                coin: c[2],
                size: c[3],
                status: c[4],
                additional_info: c[5],
                txid: c[6],
                trailing: c[7],
            },
        ),
        Shape::Withdrawal => EntryView::Withdrawal(
            WithdrawView {
                id: c[0],
                time: c[1],
                coin: c[2],
                size: c[3],
                status: c[4],
                address: c[5],
                txid: c[6],
                fee: c[7],
            },
        ),
    }
}

/// The fields of `row` that stand in the given columns.
pub open spec fn pick(columns: Seq<int>, row: Seq<Seq<char>>) -> Seq<Seq<char>> {
    Seq::new(columns.len(), |k: int| row[columns[k]])
}

/// `row` as it reads under `shape` in a table headed by `header`; `None`
/// when the header does not serve the shape or the row has another number
/// of fields than the header.
pub open spec fn entry_of(shape: Shape, header: Seq<Seq<char>>, row: Seq<Seq<char>>) -> Option<
    EntryView,
> {
    if serves(header, shape) && row.len() == header.len() {
        Some(entry_from(shape, pick(columns_of(header, shape), row)))
    } else {
        None
    }
}

/// The one column of `header` that is named `name`.
pub fn find_column(header: &Vec<String>, name: &str) -> (found: Option<usize>)
    ensures
        match found {
            Some(at) => column_of(header.deep_view(), name@) == Some(at as int),
            None => column_of(header.deep_view(), name@) is None,
        },
{
    let ghost names = header.deep_view();
    let mut found: Option<usize> = None;
    let mut i: usize = 0;
    while i < header.len()
        invariant
            i <= header.len(),
            names == header.deep_view(),
            match found {
                Some(at) => at < i && names[at as int] == name@ && forall|j: int|
                    0 <= j < i && names[j] == name@ ==> j == at,
                None => forall|j: int| 0 <= j < i ==> names[j] != name@,
            },
        decreases header.len() - i,
    {
        if same_text(header[i].as_str(), name) {
            match found {
                Some(at) => {
                    assert forall|c: int| !sole_column(names, name@, c) by {
                        if sole_column(names, name@, c) {
                            assert(names[at as int] == name@);
                            assert(names[i as int] == name@);
                        }
                    }
                    return None;
                },
                None => {
                    found = Some(i);
                },
            }
        }
        i += 1;
    }
    proof {
        match found {
            Some(at) => {
                assert(sole_column(names, name@, at as int));
                let c = choose|c: int| sole_column(names, name@, c);
                assert(sole_column(names, name@, c));
                assert(c == at);
            },
            None => {
                assert forall|c: int| !sole_column(names, name@, c) by {}
            },
        }
    }
    found
}

/// The names of the columns that a shape asks for.
pub fn names_of(shape: Shape) -> (names: Vec<&'static str>)
    ensures
        names@.len() == column_names(shape).len(),
        forall|k: int| 0 <= k < names@.len() ==> (#[trigger] names@[k])@ == column_names(shape)[k],
{
    match shape {
        Shape::Deposit => vec![
            "id",
            "time",
            "coin",
            "size",
            "status",
            "additionalInfo",
            "txid",
            "_delete",
        ],
        Shape::Withdrawal => vec![
            "id",
            "time",
            "coin",
            "size",
            "status",
            "address",
            "txid",
            "fee",
        ],
    }
}

/// Where the columns of a shape stand in a table.
#[derive(Debug, Clone, PartialEq, Eq)]
pub struct Layout {
    /// The shape that the columns belong to.
    pub shape: Shape,
    /// The number of columns of the table.
    pub width: usize,
    /// For each column name of the shape, in order, its column in the table.
    pub columns: Vec<usize>,
}

impl Layout {
    /// There is a column for each name of the shape, and each lies within
    /// the table.
    pub open spec fn wf(&self) -> bool {
        &&& self.columns@.len() == column_names(self.shape).len()
        &&& forall|k: int| 0 <= k < self.columns@.len() ==> self.columns@[k] < self.width
    }

    /// The columns, as mathematical integers.
    pub open spec fn places(&self) -> Seq<int> {
        Seq::new(self.columns@.len(), |k: int| self.columns@[k] as int)
    }

    /// This layout is the one that `header` gives to its shape.
    pub open spec fn describes(&self, header: Seq<Seq<char>>) -> bool {
        &&& serves(header, self.shape)
        &&& self.width == header.len()
        &&& self.places() == columns_of(header, self.shape)
    }

    /// `row` as it reads in this layout: `None` when it has another number
    /// of fields than the table has columns.
    pub open spec fn read(&self, row: Seq<Seq<char>>) -> Option<EntryView> {
        if row.len() == self.width {
            Some(entry_from(self.shape, pick(self.places(), row)))
        } else {
            None
        }
    }

    /// Finds the columns of `shape` in `header`. `None` when the header does
    /// not hold each of the shape's column names exactly once.
    pub fn locate(header: &Vec<String>, shape: Shape) -> (layout: Option<Layout>)
        ensures
            match layout {
                Some(l) => l.wf() && l.shape == shape && l.describes(header.deep_view()),
                None => !serves(header.deep_view(), shape),
            },
    {
        let names = names_of(shape);
        let ghost titles = header.deep_view();
        let mut columns: Vec<usize> = Vec::new();
        let mut k: usize = 0;
        while k < names.len()
            invariant
                k <= names@.len(),
                titles == header.deep_view(),
                names@.len() == column_names(shape).len(),
                forall|j: int|
                    0 <= j < names@.len() ==> (#[trigger] names@[j])@ == column_names(shape)[j],
                columns@.len() == k,
                forall|j: int|
                    0 <= j < k ==> column_of(titles, column_names(shape)[j]) == Some(
                        #[trigger] columns@[j] as int,
                    ),
            decreases names.len() - k,
        {
            match find_column(header, names[k]) {
                Some(at) => {
                    columns.push(at);
                },
                None => {
                    assert(column_of(titles, column_names(shape)[k as int]) is None);
                    return None;
                },
            }
            k += 1;
        }
        let layout = Layout { shape, width: header.len(), columns };
        proof {
            assert forall|j: int| 0 <= j < layout.columns@.len() implies layout.columns@[j]
                < layout.width by {
                assert(column_of(titles, column_names(shape)[j]) == Some(
                    layout.columns@[j] as int,
                ));
            }
            assert forall|j: int| 0 <= j < column_names(shape).len() implies (#[trigger] column_of(
                titles,
                column_names(shape)[j],
            )) is Some by {
                assert(column_of(titles, column_names(shape)[j]) == Some(
                    layout.columns@[j] as int,
                ));
            }
            assert(layout.places() =~= columns_of(titles, shape));
        }
        Some(layout)
    }

    /// Reads `row` in this layout. `None` when the row has another number of
    /// fields than the table has columns.
    pub fn decode(&self, row: &Vec<String>) -> (entry: Option<Entry>)
        requires
            self.wf(),
        ensures
            match entry {
                Some(e) => self.read(row.deep_view()) == Some(e@),
                None => self.read(row.deep_view()) is None,
            },
    {
        if row.len() != self.width {
            return None;
        }
        let c0 = row[self.columns[0]].clone();
        let c1 = row[self.columns[1]].clone();
        let c2 = row[self.columns[2]].clone();
        let c3 = row[self.columns[3]].clone();
        let c4 = row[self.columns[4]].clone();
        let c5 = row[self.columns[5]].clone();
        let c6 = row[self.columns[6]].clone();
        let c7 = row[self.columns[7]].clone();
        let entry = match self.shape {
            Shape::Deposit => Entry::Deposit(
                DepositRecord {
                    id: c0,
                    time: c1,
                    coin: c2,
                    size: c3,
                    status: c4,
                    additional_info: c5,
                    txid: c6,
                    trailing: c7,
                },
            ),
            Shape::Withdrawal => Entry::Withdrawal(
                WithdrawRecord {
                    id: c0,
                    time: c1,
                    coin: c2,
                    size: c3,
                    status: c4,
                    address: c5,
                    txid: c6,
                    fee: c7,
                },
            ),
        };
        Some(entry)
    }
}

/// If a layout describes a header, a row reads in the layout as it reads
/// under the layout's shape in a table with that header.
pub proof fn lemma_layout_reads_as_header(
    layout: Layout,
    header: Seq<Seq<char>>,
    row: Seq<Seq<char>>,
)
    requires
        layout.describes(header),
    ensures
        layout.read(row) == entry_of(layout.shape, header, row),
{
}

} // verus!
