//! The wallet's transactions: finding one, listing them all.
use vstd::prelude::*;
use vstd::seq_lib::*;
use vstd::string::*;

use crate::encoding::{txid_string, txid_text};
use crate::output::{
    fields_view, names_view, row_view, rows_view, Cell, CellView, CmdError, CmdOutput,
    CmdOutputView,
};
use crate::types::{
    tx_views, Amount, BlockTime, TransactionDetails, TransactionDetailsView, Txid,
};

verus! {

/// What to do with the wallet's transactions.
#[derive(Clone, Copy, Debug, PartialEq, Eq)]
pub enum TransactionOpt {
    /// List them all.
    List,
    /// Show the details of one.
    Show { txid: Txid },
}

/// `i` is where the id `txid` first occurs.
pub open spec fn is_first(txs: Seq<TransactionDetailsView>, txid: Txid, i: int) -> bool {
    &&& 0 <= i < txs.len()
    &&& txs[i].txid == txid
    &&& forall|j: int| 0 <= j < i ==> txs[j].txid != txid
}

/// Finds the first transaction of the given id.
pub fn find_transaction(txs: &Vec<TransactionDetails>, txid: &Txid) -> (found: Option<usize>)
    ensures
        match found {
            Some(i) => is_first(tx_views(txs@), *txid, i as int),
            None => forall|i: int| 0 <= i < txs@.len() ==> txs@[i].txid != *txid,
        },
{
    let mut i: usize = 0;
    while i < txs.len()
        invariant
            i <= txs.len(),
            forall|j: int| 0 <= j < i ==> txs@[j].txid != *txid,
        decreases txs.len() - i,
    {
        if txs[i].txid.same(txid) {
            return Some(i);
        }
        i += 1;
    }
    None
}

/// When a transaction was seen in a block: the block's time, or 0 before there is one.
pub open spec fn seen_at(tx: TransactionDetailsView) -> u64 {
    match tx.confirmation_time {
        Some(block) => block.timestamp,
        None => 0,
    }
}

/// `order` holds the transactions of `txs`, each as often, the last seen ones first.
pub open spec fn newest_first(
    txs: Seq<TransactionDetailsView>,
    order: Seq<TransactionDetailsView>,
) -> bool {
    &&& order.to_multiset() == txs.to_multiset()
    &&& forall|i: int, j: int|
        0 <= i <= j < order.len() ==> seen_at(#[trigger] order[i]) >= seen_at(#[trigger] order[j])
}

fn seen_at_exec(tx: &TransactionDetails) -> (t: u64)
    ensures
        t == seen_at(tx@),
{
    match &tx.confirmation_time {
        Some(block) => block.timestamp,
        None => 0,
    }
}

/// Sorts transactions, the last seen ones first.
pub fn sort_newest_first(txs: Vec<TransactionDetails>) -> (order: Vec<TransactionDetails>)
    ensures
        newest_first(tx_views(txs@), tx_views(order@)),
{
    broadcast use group_to_multiset_ensures;

    let ghost all = tx_views(txs@);
    let mut rest = txs;
    let mut order: Vec<TransactionDetails> = Vec::new();
    proof {
        assert(tx_views(order@).to_multiset().add(all.to_multiset()) =~= all.to_multiset());
    }
    while rest.len() > 0
        invariant
            tx_views(order@).to_multiset().add(tx_views(rest@).to_multiset()) == all.to_multiset(),
            forall|i: int, j: int|
                0 <= i <= j < order@.len() ==> seen_at(#[trigger] order@[i]@) >= seen_at(
                    #[trigger] order@[j]@,
                ),
        decreases rest.len(),
    {
        let ghost old_rest = rest@;
        let tx = rest.pop().unwrap();
        let t: u64 = seen_at_exec(&tx);
        let mut at: usize = 0;
        while at < order.len() && seen_at_exec(&order[at]) > t
            invariant
                at <= order.len(),
                forall|i: int| 0 <= i < at ==> seen_at(#[trigger] order@[i]@) > t,
            decreases order.len() - at,
        {
            at += 1;
        }
        let ghost before = order@;
        order.insert(at, tx);
        proof {
            assert(tx_views(order@) =~= tx_views(before).insert(at as int, tx@));
            assert(tx_views(old_rest) =~= tx_views(rest@).push(tx@));
            to_multiset_insert(tx_views(before), at as int, tx@);
            to_multiset_build(tx_views(rest@), tx@);
            assert(tx_views(order@).to_multiset().add(tx_views(rest@).to_multiset()) =~= tx_views(
                before,
            ).to_multiset().add(tx_views(old_rest).to_multiset()));
        }
    }
    proof {
        assert(tx_views(rest@) =~= Seq::empty());
        assert(tx_views(order@).to_multiset() =~= all.to_multiset());
    }
    order
}

/// The cell of a block's height.
pub open spec fn height_cell_view(time: Option<BlockTime>) -> CellView {
    match time {
        Some(block) => CellView::Int(block.height as nat),
        None => CellView::Empty,
    }
}

/// The cell of a block's time.
pub open spec fn time_cell_view(time: Option<BlockTime>) -> CellView {
    match time {
        Some(block) => CellView::DateTime(block.timestamp as nat),
        None => CellView::Empty,
    }
}

/// The cell that shows a block's height, if there is a block.
pub fn height_cell(time: &Option<BlockTime>) -> (cell: Cell)
    ensures
        cell@ == height_cell_view(*time),
{
    match time {
        Some(block) => Cell::Int(block.height as u64),
        None => Cell::Empty,
    }
}

/// The cell that shows a block's time, if there is a block.
pub fn time_cell(time: &Option<BlockTime>) -> (cell: Cell)
    ensures
        cell@ == time_cell_view(*time),
{
    match time {
        Some(block) => Cell::DateTime(block.timestamp),
        None => Cell::Empty,
    }
}

/// The header of the list of transactions.
pub open spec fn transaction_columns() -> Seq<Seq<char>> {
    seq!["txid"@, "height"@, "seen"@, "sent"@, "received"@]
}

/// A transaction's row in the list.
pub open spec fn transaction_row(tx: TransactionDetailsView) -> Seq<CellView> {
    seq![
        CellView::String(txid_text(tx.txid)),
        height_cell_view(tx.confirmation_time),
        time_cell_view(tx.confirmation_time),
        CellView::Amount(tx.sent as nat),
        CellView::Amount(tx.received as nat),
    ]
}

/// The list of transactions, in the given order.
pub open spec fn transaction_table(order: Seq<TransactionDetailsView>) -> CmdOutputView {
    CmdOutputView::Table {
        col_names: transaction_columns(),
        rows: order.map_values(|tx: TransactionDetailsView| transaction_row(tx)),
    }
}

/// The details of a transaction.
pub open spec fn transaction_item(tx: TransactionDetailsView) -> CmdOutputView {
    CmdOutputView::Item(
        seq![
            ("txid"@, CellView::String(txid_text(tx.txid))),
            ("sent"@, CellView::Amount(tx.sent as nat)),
            ("received"@, CellView::Amount(tx.received as nat)),
            ("seent-at"@, time_cell_view(tx.confirmation_time)),
            ("confirmed-at"@, height_cell_view(tx.confirmation_time)),
            (
                "fee"@,
                match tx.fee {
                    Some(fee) => CellView::Amount(fee as nat),
                    None => CellView::Empty,
                },
            ),
        ],
    )
}

fn transaction_cells(tx: &TransactionDetails) -> (row: Vec<Cell>)
    ensures
        row_view(row@) == transaction_row(tx@),
{
    let row = vec![
        Cell::String(txid_string(&tx.txid)),
        height_cell(&tx.confirmation_time),
        time_cell(&tx.confirmation_time),
        Cell::Amount(Amount::from_sat(tx.sent)),
        Cell::Amount(Amount::from_sat(tx.received)),
    ];
    assert(row_view(row@) =~= transaction_row(tx@));
    row
}

/// Lists the wallet's transactions `txs`, or shows one of them.
pub fn run_transaction_cmd(txs: Vec<TransactionDetails>, opt: TransactionOpt) -> (answer: Result<
    CmdOutput,
    CmdError,
>)
    ensures
        match opt {
            TransactionOpt::List => {
                &&& answer is Ok
                &&& exists|order: Seq<TransactionDetailsView>| #[trigger]
                    newest_first(tx_views(txs@), order) && answer->Ok_0@ == transaction_table(order)
            },
            TransactionOpt::Show { txid } => match answer {
                Ok(output) => exists|i: int| #[trigger]
                    is_first(tx_views(txs@), txid, i) && output@ == transaction_item(
                        tx_views(txs@)[i],
                    ),
                Err(error) => {
                    &&& error == CmdError::TransactionNotFound(txid)
                    &&& forall|i: int| 0 <= i < txs@.len() ==> txs@[i].txid != txid
                },
            },
        },
{
    match opt {
        TransactionOpt::List => {
            let order = sort_newest_first(txs);
            let mut rows: Vec<Vec<Cell>> = Vec::new();
            let mut i: usize = 0;
            while i < order.len()
                invariant
                    i <= order.len(),
                    rows@.len() == i,
                    forall|j: int|
                        0 <= j < i ==> row_view(#[trigger] rows@[j]@) == transaction_row(
                            order@[j]@,
                        ),
                decreases order.len() - i,
            {
                rows.push(transaction_cells(&order[i]));
                i += 1;
            }
            let col_names = vec!["txid", "height", "seen", "sent", "received"];
            proof {
                assert(names_view(col_names@) =~= transaction_columns());
                assert(rows_view(rows@) =~= tx_views(order@).map_values(
                    |tx: TransactionDetailsView| transaction_row(tx),
                ));
            }
            Ok(CmdOutput::Table { col_names, rows })
        },
        TransactionOpt::Show { txid } => {
            match find_transaction(&txs, &txid) {
                Some(i) => {
                    let tx = &txs[i];
                    let fields = vec![
                        ("txid", Cell::String(txid_string(&tx.txid))),
                        ("sent", Cell::Amount(Amount::from_sat(tx.sent))),
                        ("received", Cell::Amount(Amount::from_sat(tx.received))),
                        ("seent-at", time_cell(&tx.confirmation_time)),
                        ("confirmed-at", height_cell(&tx.confirmation_time)),
                        (
                            "fee",
                            match tx.fee {
                                Some(fee) => Cell::Amount(Amount::from_sat(fee)),
                                None => Cell::Empty,
                            },
                        ),
                    ];
                    proof {
                        assert(fields_view(fields@) =~= transaction_item(tx@)->Item_0);
                        assert(is_first(tx_views(txs@), txid, i as int));
                    }
                    Ok(CmdOutput::Item(fields))
                },
                None => Err(CmdError::TransactionNotFound(txid)),
            }
        },
    }
}

/// Each row of the list has a cell for each column.
pub proof fn transaction_row_fits_columns(tx: TransactionDetailsView)
    ensures
        transaction_row(tx).len() == transaction_columns().len(),
{
}

/// In the list, a transaction that is in no block yet comes after every one that is, except one
/// whose block bears the time 0.
pub proof fn unconfirmed_listed_last(
    txs: Seq<TransactionDetailsView>,
    order: Seq<TransactionDetailsView>,
    i: int,
    j: int,
)
    requires
        newest_first(txs, order),
        0 <= i < order.len(),
        0 <= j < order.len(),
        order[i].confirmation_time is Some,
        order[i].confirmation_time->0.timestamp > 0,
        order[j].confirmation_time is None,
    ensures
        i < j,
{
    if j <= i {
        assert(seen_at(order[j]) >= seen_at(order[i]));
    }
}

/// The list holds exactly the wallet's transactions: each of its rows is the row of a transaction
/// of the wallet, and each transaction of the wallet has a row.
pub proof fn list_is_complete(
    txs: Seq<TransactionDetailsView>,
    order: Seq<TransactionDetailsView>,
    tx: TransactionDetailsView,
)
    requires
        newest_first(txs, order),
    ensures
        order.len() == txs.len(),
        order.contains(tx) <==> txs.contains(tx),
{
    broadcast use group_to_multiset_ensures;

    assert(order.contains(tx) <==> order.to_multiset().count(tx) > 0);
    assert(order.len() == order.to_multiset().len());
}

/// Every transaction in the list can be shown by its id and, where no id occurs twice, what is
/// shown is that very transaction.
pub proof fn listed_transaction_can_be_shown(
    txs: Seq<TransactionDetailsView>,
    order: Seq<TransactionDetailsView>,
    i: int,
) -> (shown: int)
    requires
        newest_first(txs, order),
        0 <= i < order.len(),
    ensures
        is_first(txs, order[i].txid, shown),
        (forall|a: int, b: int|
            0 <= a < b < txs.len() ==> (#[trigger] txs[a]).txid != (#[trigger] txs[b]).txid)
            ==> txs[shown] == order[i],
{
    list_is_complete(txs, order, order[i]);
    let k = choose|k: int| 0 <= k < txs.len() && txs[k] == order[i];
    lemma_first_occurrence(txs, order[i].txid, k)
}

/// An id that occurs has a first occurrence.
proof fn lemma_first_occurrence(
    txs: Seq<TransactionDetailsView>,
    txid: Txid,
    k: int,
) -> (i: int)
    requires
        0 <= k < txs.len(),
        txs[k].txid == txid,
    ensures
        is_first(txs, txid, i),
        i <= k,
    decreases k,
{
    if exists|j: int| 0 <= j < k && txs[j].txid == txid {
        let j = choose|j: int| 0 <= j < k && txs[j].txid == txid;
        lemma_first_occurrence(txs, txid, j)
    } else {
        k
    }
}

} // verus!
