//! The wallet's unspent outputs.
use vstd::prelude::*;
use vstd::string::*;

use crate::encoding::{
    address_from_script, address_string, address_text, asm_string, asm_text, outpoint_string,
    outpoint_text, script_address_writes_back, script_payload,
};
use crate::balance::{is_confirmed, BalanceDataView, Bucket};
use crate::output::{
    fields_view, keychain_cell, keychain_name, names_view, row_view, rows_view, text_or_empty, Cell,
    CellView, CmdError, CmdOutput, CmdOutputView,
};
use crate::text::{bool_string, bool_text};
use crate::transactions::{height_cell, height_cell_view, is_first, time_cell, time_cell_view};
use crate::types::{
    Amount, BlockTime, KeychainKind, LocalUtxo, LocalUtxoView, Network, OutPoint, Script, TransactionDetails,
    TransactionDetailsView,
};
use crate::values::{lemma_total_step, total_value};

verus! {

/// View Unspent Transaction Outputs (UTxOs)
#[derive(Clone, Copy, Debug, PartialEq, Eq)]
pub enum UtxoOpt {
    /// List UTXOs owned by this wallet
    List,
    /// Show details about a particular UTXO
    Show { outpoint: OutPoint },
}

/// What came of looking up a transaction.
#[derive(Debug, PartialEq, Eq)]
pub enum TxLookup {
    /// It could not be looked up.
    Failed,
    /// The wallet does not know it.
    Missing,
    /// The wallet knows it.
    Found(TransactionDetails),
}

/// An unspent output and the transaction that it is an output of.
#[derive(Debug, PartialEq, Eq)]
pub struct UtxoEntry {
    pub utxo: LocalUtxo,
    pub tx: TxLookup,
}

/// The mathematical value of a [`UtxoEntry`], without the reason why there is no transaction.
pub struct UtxoEntryView {
    pub utxo: LocalUtxoView,
    pub tx: Option<TransactionDetailsView>,
}

impl View for UtxoEntry {
    type V = UtxoEntryView;

    open spec fn view(&self) -> UtxoEntryView {
        UtxoEntryView {
            utxo: self.utxo@,
            tx: match self.tx {
                TxLookup::Found(tx) => Some(tx@),
                TxLookup::Failed | TxLookup::Missing => None,
            },
        }
    }
}

/// What is read from the wallet to show an output.
#[derive(Debug, PartialEq, Eq)]
pub struct UtxoDetails {
    pub utxo: LocalUtxo,
    /// The transaction that it is an output of, if the wallet knows it.
    pub tx: Option<TransactionDetails>,
    /// The text of the descriptor that its script derives from, if it is the wallet's.
    pub descriptor: Option<String>,
    /// The outputs that a protocol (like a bet) is using.
    pub in_use: Vec<OutPoint>,
}

/// The mathematical value of a [`UtxoDetails`].
pub struct UtxoDetailsView {
    pub utxo: LocalUtxoView,
    pub tx: Option<TransactionDetailsView>,
    pub descriptor: Option<Seq<char>>,
    pub in_use: Seq<OutPoint>,
}

impl View for UtxoDetails {
    type V = UtxoDetailsView;

    open spec fn view(&self) -> UtxoDetailsView {
        UtxoDetailsView {
            utxo: self.utxo@,
            tx: match self.tx {
                Some(tx) => Some(tx@),
                None => None,
            },
            descriptor: match self.descriptor {
                Some(text) => Some(text@),
                None => None,
            },
            in_use: self.in_use@,
        }
    }
}

/// What was read from the wallet.
#[derive(Debug, PartialEq, Eq)]
pub enum UtxoData {
    /// For the list: the outputs in use, and all unspent outputs.
    List { in_use: Vec<OutPoint>, unspent: Vec<UtxoEntry> },
    /// For one output: what there is of it, if the database holds it.
    Show(Option<UtxoDetails>),
}

/// The cell of the address that a script pays to, empty if it has not the form of one.
pub open spec fn address_cell_view(script: Seq<u8>, network: Network) -> CellView {
    match script_payload(script) {
        Some(payload) => CellView::String(address_text(payload, network)),
        None => CellView::Empty,
    }
}

/// The cell that shows the address that a script pays to, if it has the form of one.
fn address_cell(script: &Script, network: Network) -> (cell: Cell)
    ensures
        cell@ == address_cell_view(script@, network),
{
    match address_from_script(script, network) {
        Some(address) => {
            proof {
                script_address_writes_back(script@);
            }
            Cell::String(address_string(&address))
        },
        None => Cell::Empty,
    }
}

/// The header of the list of unspent outputs.
pub open spec fn utxo_columns() -> Seq<Seq<char>> {
    seq!["outpoint"@, "address"@, "value"@, "keychain"@, "confirmed"@, "in-use"@]
}

/// An output's row in the list.
pub open spec fn utxo_row(entry: UtxoEntryView, network: Network, in_use: Seq<OutPoint>) -> Seq<
    CellView,
> {
    seq![
        CellView::String(outpoint_text(entry.utxo.outpoint)),
        address_cell_view(entry.utxo.txout.script_pubkey, network),
        CellView::Amount(entry.utxo.txout.value as nat),
        CellView::String(keychain_name(entry.utxo.keychain)),
        match entry.tx {
            Some(tx) => CellView::String(bool_text(tx.confirmation_time is Some)),
            None => CellView::Empty,
        },
        CellView::String(bool_text(in_use.contains(entry.utxo.outpoint))),
    ]
}

/// The list of unspent outputs, in the order in which they were read.
pub open spec fn utxo_table(
    unspent: Seq<UtxoEntry>,
    network: Network,
    in_use: Seq<OutPoint>,
) -> CmdOutputView {
    CmdOutputView::Table {
        col_names: utxo_columns(),
        rows: unspent.map_values(|entry: UtxoEntry| utxo_row(entry@, network, in_use)),
    }
}

/// The block of the transaction that an output belongs to.
pub open spec fn block_of(details: UtxoDetailsView) -> Option<BlockTime> {
    match details.tx {
        Some(tx) => tx.confirmation_time,
        None => None,
    }
}

/// The details of an output.
pub open spec fn utxo_item(details: UtxoDetailsView, network: Network) -> CmdOutputView {
    let utxo = details.utxo;
    CmdOutputView::Item(
        seq![
            ("outpoint"@, CellView::String(outpoint_text(utxo.outpoint))),
            ("value"@, CellView::Amount(utxo.txout.value as nat)),
            ("tx-seen-at"@, time_cell_view(block_of(details))),
            ("tx-confirmed-at"@, height_cell_view(block_of(details))),
            ("address"@, address_cell_view(utxo.txout.script_pubkey, network)),
            ("script-pubkey"@, CellView::String(asm_text(utxo.txout.script_pubkey))),
            ("output-descriptor"@, text_or_empty(details.descriptor)),
            ("keychain"@, CellView::String(keychain_name(utxo.keychain))),
            ("in-use"@, CellView::String(bool_text(details.in_use.contains(utxo.outpoint)))),
        ],
    )
}

fn utxo_cells(entry: &UtxoEntry, network: Network, in_use: &Vec<OutPoint>) -> (row: Vec<Cell>)
    ensures
        row_view(row@) == utxo_row(entry@, network, in_use@),
{
    let utxo = &entry.utxo;
    let row = vec![
        Cell::String(outpoint_string(&utxo.outpoint)),
        address_cell(&utxo.txout.script_pubkey, network),
        Cell::Amount(Amount::from_sat(utxo.txout.value)),
        keychain_cell(utxo.keychain),
        match &entry.tx {
            TxLookup::Found(tx) => Cell::String(bool_string(tx.confirmation_time.is_some())),
            TxLookup::Failed => Cell::Empty,
            TxLookup::Missing => Cell::Empty,
        },
        Cell::String(bool_string(utxo.outpoint.is_in(in_use))),
    ];
    assert(row_view(row@) =~= utxo_row(entry@, network, in_use@));
    row
}

fn utxo_fields(details: &UtxoDetails, network: Network) -> (fields: Vec<(&'static str, Cell)>)
    ensures
        CmdOutputView::Item(fields_view(fields@)) == utxo_item(details@, network),
{
    let utxo = &details.utxo;
    let block: Option<BlockTime> = match &details.tx {
        Some(tx) => tx.confirmation_time,
        None => None,
    };
    let fields = vec![
        ("outpoint", Cell::String(outpoint_string(&utxo.outpoint))),
        ("value", Cell::Amount(Amount::from_sat(utxo.txout.value))),
        ("tx-seen-at", time_cell(&block)),
        ("tx-confirmed-at", height_cell(&block)),
        ("address", address_cell(&utxo.txout.script_pubkey, network)),
        ("script-pubkey", Cell::String(asm_string(&utxo.txout.script_pubkey))),
        (
            "output-descriptor",
            match &details.descriptor {
                Some(text) => Cell::String(text.clone()),
                None => Cell::Empty,
            },
        ),
        ("keychain", keychain_cell(utxo.keychain)),
        ("in-use", Cell::String(bool_string(utxo.outpoint.is_in(&details.in_use)))),
    ];
    assert(fields_view(fields@) =~= utxo_item(details@, network)->Item_0);
    fields
}

/// Lists the unspent outputs, or shows one of them, given what was read for it.
pub fn run_utxo_cmd(opt: &UtxoOpt, network: Network, data: &UtxoData) -> (answer: Result<
    CmdOutput,
    CmdError,
>)
    requires
        opt is List <==> data is List,
    ensures
        match (*opt, *data) {
            (UtxoOpt::List, UtxoData::List { in_use, unspent }) => {
                &&& answer is Ok
                &&& answer->Ok_0@ == utxo_table(unspent@, network, in_use@)
            },
            (UtxoOpt::Show { outpoint }, UtxoData::Show(Some(details))) => {
                &&& answer is Ok
                &&& answer->Ok_0@ == utxo_item(details@, network)
            },
            (UtxoOpt::Show { outpoint }, UtxoData::Show(None)) => answer == Err::<
                CmdOutput,
                CmdError,
            >(CmdError::UtxoNotFound(outpoint)),
            _ => true,
        },
{
    match (opt, data) {
        (UtxoOpt::List, UtxoData::List { in_use, unspent }) => {
            let mut rows: Vec<Vec<Cell>> = Vec::new();
            let mut i: usize = 0;
            while i < unspent.len()
                invariant
                    i <= unspent.len(),
                    rows@.len() == i,
                    forall|j: int|
                        0 <= j < i ==> row_view(#[trigger] rows@[j]@) == utxo_row(
                            unspent@[j]@,
                            network,
                            in_use@,
                        ),
                decreases unspent.len() - i,
            {
                rows.push(utxo_cells(&unspent[i], network, in_use));
                i += 1;
            }
            let col_names = vec![
                "outpoint",
                "address",
                "value",
                "keychain",
                "confirmed",
                "in-use",
            ];
            proof {
                assert(names_view(col_names@) =~= utxo_columns());
                assert(rows_view(rows@) =~= unspent@.map_values(
                    |entry: UtxoEntry| utxo_row(entry@, network, in_use@),
                ));
            }
            Ok(CmdOutput::Table { col_names, rows })
        },
        (UtxoOpt::Show { outpoint }, UtxoData::Show(found)) => match found {
            Some(details) => Ok(CmdOutput::Item(utxo_fields(details, network))),
            None => Err(CmdError::UtxoNotFound(*outpoint)),
        },
        _ => vstd::pervasive::unreached(),
    }
}

/// Each row of the list has a cell for each column.
pub proof fn utxo_row_fits_columns(entry: UtxoEntryView, network: Network, in_use: Seq<OutPoint>)
    ensures
        utxo_row(entry, network, in_use).len() == utxo_columns().len(),
{
}

/// The list says of an output that it is in use exactly where the balance counts it so. Of one that
/// is not, and that was paid to the wallet from outside by a transaction of which the balance has the
/// same record, it says that it is confirmed exactly where the balance counts it so.
pub proof fn utxo_list_agrees_with_balance(
    entry: UtxoEntryView,
    network: Network,
    data: BalanceDataView,
    i: int,
)
    ensures
        ({
            let row = utxo_row(entry, network, data.in_use);
            let bucket = data.bucket(entry.utxo);
            &&& row[5] == CellView::String(bool_text(bucket == Bucket::InUse))
            &&& {
                &&& is_first(data.transactions, entry.utxo.outpoint.txid, i)
                &&& entry.tx == Some(data.transactions[i])
                &&& bucket != Bucket::InUse
                &&& entry.utxo.keychain == KeychainKind::External
            } ==> row[4] == CellView::String(bool_text(bucket == Bucket::Confirmed))
        }),
{
    let txid = entry.utxo.outpoint.txid;
    if is_first(data.transactions, txid, i) {
        assert forall|j: int| #[trigger] is_first(data.transactions, txid, j) implies j == i by {}
        assert(is_confirmed(data.transactions, txid)
            <==> data.transactions[i].confirmation_time is Some);
    }
}

/// The value in the rows of the list that say that the output is in use, or in all others.
pub open spec fn value_of_rows(rows: Seq<Seq<CellView>>, in_use: bool) -> nat
    decreases rows.len(),
{
    if rows.len() == 0 {
        0
    } else {
        let row = rows.last();
        value_of_rows(rows.drop_last(), in_use) + if (row[5] == CellView::String("true"@))
            == in_use {
            row[2]->Amount_0
        } else {
            0
        }
    }
}

/// The outputs of entries, without what was looked up.
pub open spec fn outputs_of(entries: Seq<UtxoEntry>) -> Seq<LocalUtxoView> {
    entries.map_values(|entry: UtxoEntry| entry@.utxo)
}

/// What the list shows as in use adds up to what the balance shows as in use, and the rest of the
/// list to what the balance shows as confirmed and unconfirmed.
pub proof fn utxo_list_adds_up_to_balance(
    unspent: Seq<UtxoEntry>,
    network: Network,
    data: BalanceDataView,
)
    requires
        data.unspent == outputs_of(unspent),
    ensures
        value_of_rows(utxo_table(unspent, network, data.in_use)->rows, true) == data.value_in(
            Bucket::InUse,
        ),
        value_of_rows(utxo_table(unspent, network, data.in_use)->rows, false) == data.value_in(
            Bucket::Confirmed,
        ) + data.value_in(Bucket::Unconfirmed),
{
    let rows = utxo_table(unspent, network, data.in_use)->rows;
    lemma_rows_of_prefix(unspent, network, data, unspent.len() as int);
    assert(rows.take(unspent.len() as int) =~= rows);
    assert(data.unspent.take(unspent.len() as int) =~= data.unspent);
}

proof fn lemma_rows_of_prefix(
    unspent: Seq<UtxoEntry>,
    network: Network,
    data: BalanceDataView,
    i: int,
)
    requires
        0 <= i <= unspent.len(),
        data.unspent == outputs_of(unspent),
    ensures
        ({
            let rows = utxo_table(unspent, network, data.in_use)->rows.take(i);
            let part = data.unspent.take(i);
            &&& value_of_rows(rows, true) == total_value(
                part.filter(data.counts_toward(Bucket::InUse)),
            )
            &&& value_of_rows(rows, false) == total_value(
                part.filter(data.counts_toward(Bucket::Confirmed)),
            ) + total_value(part.filter(data.counts_toward(Bucket::Unconfirmed)))
        }),
    decreases i,
{
    if i > 0 {
        let rows = utxo_table(unspent, network, data.in_use)->rows;
        lemma_rows_of_prefix(unspent, network, data, i - 1);
        lemma_total_step(data.unspent, data.counts_toward(Bucket::Confirmed), i - 1);
        lemma_total_step(data.unspent, data.counts_toward(Bucket::Unconfirmed), i - 1);
        lemma_total_step(data.unspent, data.counts_toward(Bucket::InUse), i - 1);
        assert(rows.take(i).drop_last() =~= rows.take(i - 1));
        assert(rows.take(i).last() == utxo_row(unspent[i - 1]@, network, data.in_use));
        reveal_strlit("true");
        reveal_strlit("false");
        assert("true"@.len() != "false"@.len());
    } else {
        reveal(Seq::filter);
    }
}

/// An output that is shown reads as in its row of the list: the same reference, address, value,
/// key chain and use, and a block exactly where the row says that it is confirmed.
pub proof fn shown_utxo_agrees_with_list(
    entry: UtxoEntryView,
    details: UtxoDetailsView,
    network: Network,
)
    requires
        details.utxo == entry.utxo,
        details.tx == entry.tx,
    ensures
        ({
            let row = utxo_row(entry, network, details.in_use);
            let item = utxo_item(details, network)->Item_0;
            &&& item[0].1 == row[0]
            &&& item[4].1 == row[1]
            &&& item[1].1 == row[2]
            &&& item[7].1 == row[3]
            &&& item[8].1 == row[5]
            &&& item[3].1 != CellView::Empty <==> row[4] == CellView::String(bool_text(true))
        }),
{
    reveal_strlit("true");
    reveal_strlit("false");
    assert("true"@.len() != "false"@.len());
}

} // verus!
