//! What a command answers: tables, items, and errors.
use vstd::prelude::*;
use vstd::string::*;

use crate::encoding::{outpoint_string, outpoint_text, txid_string, txid_text};
use crate::types::{Amount, KeychainKind, OutPoint, Txid};

verus! {

/// One value of an answer.
#[derive(Debug, PartialEq, Eq)]
pub enum Cell {
    String(String),
    Amount(Amount),
    Int(u64),
    Empty,
    /// Seconds since the epoch.
    DateTime(u64),
}

/// The mathematical value of a [`Cell`].
pub enum CellView {
    String(Seq<char>),
    Amount(nat),
    Int(nat),
    Empty,
    DateTime(nat),
}

impl View for Cell {
    type V = CellView;

    open spec fn view(&self) -> CellView {
        match self {
            Cell::String(s) => CellView::String(s@),
            Cell::Amount(a) => CellView::Amount(a.sat as nat),
            Cell::Int(n) => CellView::Int(*n as nat),
            Cell::Empty => CellView::Empty,
            Cell::DateTime(t) => CellView::DateTime(*t as nat),
        }
    }
}

/// The values of a row of cells.
pub open spec fn row_view(row: Seq<Cell>) -> Seq<CellView> {
    row.map_values(|c: Cell| c@)
}

/// The values of rows of cells.
pub open spec fn rows_view(rows: Seq<Vec<Cell>>) -> Seq<Seq<CellView>> {
    rows.map_values(|r: Vec<Cell>| row_view(r@))
}

/// The names and values of the fields of an item.
pub open spec fn fields_view(fields: Seq<(&'static str, Cell)>) -> Seq<(Seq<char>, CellView)> {
    fields.map_values(|f: (&'static str, Cell)| (f.0@, f.1@))
}

/// The names of the columns of a table.
pub open spec fn names_view(names: Seq<&'static str>) -> Seq<Seq<char>> {
    names.map_values(|n: &'static str| n@)
}

/// The answer of a command.
#[derive(Debug, PartialEq, Eq)]
pub enum CmdOutput {
    /// Rows under a header.
    Table { col_names: Vec<&'static str>, rows: Vec<Vec<Cell>> },
    /// Named fields.
    Item(Vec<(&'static str, Cell)>),
    /// Named fields, one of which is the answer proper.
    EmphasisedItem { main: (&'static str, Cell), other: Vec<(&'static str, Cell)> },
}

/// The mathematical value of a [`CmdOutput`].
pub enum CmdOutputView {
    Table { col_names: Seq<Seq<char>>, rows: Seq<Seq<CellView>> },
    Item(Seq<(Seq<char>, CellView)>),
    EmphasisedItem { main: (Seq<char>, CellView), other: Seq<(Seq<char>, CellView)> },
}

impl View for CmdOutput {
    type V = CmdOutputView;

    open spec fn view(&self) -> CmdOutputView {
        match self {
            CmdOutput::Table { col_names, rows } => CmdOutputView::Table {
                col_names: names_view(col_names@),
                rows: rows_view(rows@),
            },
            CmdOutput::Item(fields) => CmdOutputView::Item(fields_view(fields@)),
            CmdOutput::EmphasisedItem { main, other } => CmdOutputView::EmphasisedItem {
                main: (main.0@, main.1@),
                other: fields_view(other@),
            },
        }
    }
}

/// Why a command has no answer.
#[derive(Clone, Copy, Debug, PartialEq, Eq)]
pub enum CmdError {
    /// The wallet knows no transaction of this id.
    TransactionNotFound(Txid),
    /// The wallet's database holds no such output.
    UtxoNotFound(OutPoint),
}

impl CmdError {
    /// The text of the error.
    pub open spec fn text(self) -> Seq<char> {
        match self {
            CmdError::TransactionNotFound(txid) => "Transaction "@ + txid_text(txid)
                + " not found"@,
            CmdError::UtxoNotFound(outpoint) => "UTXO "@ + outpoint_text(outpoint)
                + " not in wallet database"@,
        }
    }

    /// Writes the error for the user.
    pub fn message(&self) -> (s: String)
        ensures
            s@ == self.text(),
    {
        match self {
            CmdError::TransactionNotFound(txid) => {
                let mut s = "Transaction ".to_owned();
                s.append(txid_string(txid).as_str());
                s.append(" not found");
                s
            },
            CmdError::UtxoNotFound(outpoint) => {
                let mut s = "UTXO ".to_owned();
                s.append(outpoint_string(outpoint).as_str());
                s.append(" not in wallet database");
                s
            },
        }
    }
}

/// The name of a key chain.
pub open spec fn keychain_name(keychain: KeychainKind) -> Seq<char> {
    match keychain {
        KeychainKind::External => "external"@,
        KeychainKind::Internal => "internal"@,
    }
}

/// The cell that names a key chain.
pub fn keychain_cell(keychain: KeychainKind) -> (cell: Cell)
    ensures
        cell@ == CellView::String(keychain_name(keychain)),
{
    match keychain {
        KeychainKind::External => Cell::String("external".to_owned()),
        KeychainKind::Internal => Cell::String("internal".to_owned()),
    }
}

/// A cell that holds a text, or nothing.
pub open spec fn text_or_empty(text: Option<Seq<char>>) -> CellView {
    match text {
        Some(s) => CellView::String(s),
        None => CellView::Empty,
    }
}

/// A cell's value tells its kind and all that it holds.
pub proof fn cell_value_is_the_cell(cell: Cell)
    ensures
        match cell {
            Cell::String(text) => cell@ == CellView::String(text@),
            Cell::Amount(amount) => cell@ == CellView::Amount(amount.sat as nat),
            Cell::Int(n) => cell@ == CellView::Int(n as nat),
            Cell::Empty => cell@ == CellView::Empty,
            Cell::DateTime(seconds) => cell@ == CellView::DateTime(seconds as nat),
        },
{
}

/// The value of a table has a cell for each of its cells, in its place, and the value of an item has
/// a field for each of its fields.
pub proof fn output_value_is_the_output(output: CmdOutput)
    ensures
        match output {
            CmdOutput::Table { col_names, rows } => {
                &&& output@ is Table
                &&& output@->col_names.len() == col_names@.len()
                &&& output@->rows.len() == rows@.len()
                &&& forall|i: int|
                    0 <= i < col_names@.len() ==> #[trigger] output@->col_names[i]
                        == col_names@[i]@
                &&& forall|i: int|
                    0 <= i < rows@.len() ==> (#[trigger] output@->rows[i]).len() == rows@[i]@.len()
                &&& forall|i: int, k: int|
                    0 <= i < rows@.len() && 0 <= k < rows@[i]@.len()
                        ==> #[trigger] output@->rows[i][k] == rows@[i]@[k]@
            },
            CmdOutput::Item(fields) => {
                &&& output@ is Item
                &&& output@->Item_0.len() == fields@.len()
                &&& forall|k: int|
                    0 <= k < fields@.len() ==> (#[trigger] output@->Item_0[k]) == (
                        fields@[k].0@,
                        fields@[k].1@,
                    )
            },
            CmdOutput::EmphasisedItem { main, other } => {
                &&& output@ is EmphasisedItem
                &&& output@->main == (main.0@, main.1@)
                &&& output@->other.len() == other@.len()
                &&& forall|k: int|
                    0 <= k < other@.len() ==> (#[trigger] output@->other[k]) == (
                        other@[k].0@,
                        other@[k].1@,
                    )
            },
        },
{
}

/// An error names what was looked for.
pub proof fn error_names_what_is_missing(error: &CmdError, text: String)
    requires
        call_ensures(CmdError::message, (error,), text),
    ensures
        match *error {
            CmdError::TransactionNotFound(txid) => text@ == "Transaction "@ + txid_text(txid)
                + " not found"@,
            CmdError::UtxoNotFound(outpoint) => text@ == "UTXO "@ + outpoint_text(outpoint)
                + " not in wallet database"@,
        },
{
}

/// A key chain is named by its kind.
pub proof fn keychain_is_named_by_its_kind(keychain: KeychainKind, cell: Cell)
    requires
        call_ensures(keychain_cell, (keychain,), cell),
    ensures
        keychain == KeychainKind::External ==> cell@ == CellView::String("external"@),
        keychain == KeychainKind::Internal ==> cell@ == CellView::String("internal"@),
{
}

} // verus!
