//! What holds of every list of transactions, and of every transaction that is shown.
use vstd::prelude::*;
use vstd::seq_lib::*;
use vstd::string::*;

use crate::encoding::txid_text;
use crate::output::{CellView, CmdError, CmdOutput};
use crate::transactions::{
    is_first, newest_first, run_transaction_cmd, seen_at, sort_newest_first, transaction_item,
    transaction_row, transaction_table, TransactionOpt,
};
use crate::types::{tx_views, TransactionDetails, TransactionDetailsView, Txid};

verus! {

/// The list has a row for each transaction of the wallet, as often as it occurs, with its id, the
/// height and the time of its block where it is in one, and what was sent and received. Of two
/// transactions in blocks the one with the later time comes first, and one that is in no block comes
/// before none that is in a block of a time other than zero.
pub proof fn list_shows_each_transaction(
    txs: Vec<TransactionDetails>,
    answer: Result<CmdOutput, CmdError>,
) -> (order: Seq<TransactionDetailsView>)
    requires
        call_ensures(run_transaction_cmd, (txs, TransactionOpt::List), answer),
    ensures
        answer is Ok,
        answer->Ok_0@ is Table,
        answer->Ok_0@->col_names == seq!["txid"@, "height"@, "seen"@, "sent"@, "received"@],
        order.to_multiset() == tx_views(txs@).to_multiset(),
        order.len() == txs@.len(),
        answer->Ok_0@->rows.len() == order.len(),
        forall|i: int|
            0 <= i < order.len() ==> {
                let row = #[trigger] answer->Ok_0@->rows[i];
                &&& row.len() == 5
                &&& row[0] == CellView::String(txid_text(order[i].txid))
                &&& row[3] == CellView::Amount(order[i].sent as nat)
                &&& row[4] == CellView::Amount(order[i].received as nat)
                &&& match order[i].confirmation_time {
                    Some(block) => {
                        &&& row[1] == CellView::Int(block.height as nat)
                        &&& row[2] == CellView::DateTime(block.timestamp as nat)
                    },
                    None => row[1] == CellView::Empty && row[2] == CellView::Empty,
                }
            },
        forall|i: int, j: int|
            0 <= i < j < order.len() ==> match (
                (#[trigger] order[i]).confirmation_time,
                (#[trigger] order[j]).confirmation_time,
            ) {
                (Some(a), Some(b)) => a.timestamp >= b.timestamp,
                (None, Some(b)) => b.timestamp == 0,
                (_, None) => true,
            },
{
    broadcast use group_to_multiset_ensures;

    let all = tx_views(txs@);
    let order = choose|order: Seq<TransactionDetailsView>| #[trigger]
        newest_first(all, order) && answer->Ok_0@ == transaction_table(order);
    assert(order.len() == order.to_multiset().len());
    assert(all.len() == all.to_multiset().len());
    assert forall|i: int, j: int| 0 <= i < j < order.len() implies match (
        (#[trigger] order[i]).confirmation_time,
        (#[trigger] order[j]).confirmation_time,
    ) {
        (Some(a), Some(b)) => a.timestamp >= b.timestamp,
        (None, Some(b)) => b.timestamp == 0,
        (_, None) => true,
    } by {
        assert(seen_at(order[i]) >= seen_at(order[j]));
    }
    order
}

/// A transaction is shown by its id, if the wallet has one of that id and only then. It is the first
/// of that id, and shows with its id, what was sent and received, the time and the height of its
/// block where it is in one, and its fee where that is known, whether or not it is in a block.
pub proof fn show_gives_the_first_of_the_id(
    txs: Vec<TransactionDetails>,
    txid: Txid,
    answer: Result<CmdOutput, CmdError>,
) -> (i: int)
    requires
        call_ensures(run_transaction_cmd, (txs, TransactionOpt::Show { txid }), answer),
    ensures
        answer is Ok <==> exists|k: int| 0 <= k < txs@.len() && (#[trigger] txs@[k]).txid == txid,
        answer matches Err(error) ==> error == CmdError::TransactionNotFound(txid),
        answer matches Ok(output) ==> {
            let fields = output@->Item_0;
            &&& 0 <= i < txs@.len()
            &&& txs@[i].txid == txid
            &&& forall|k: int| 0 <= k < i ==> (#[trigger] txs@[k]).txid != txid
            &&& output@ is Item
            &&& fields.len() == 6
            &&& fields[0] == ("txid"@, CellView::String(txid_text(txid)))
            &&& fields[1] == ("sent"@, CellView::Amount(txs@[i].sent as nat))
            &&& fields[2] == ("received"@, CellView::Amount(txs@[i].received as nat))
            &&& fields[3].0 == "seent-at"@
            &&& fields[4].0 == "confirmed-at"@
            &&& fields[5].0 == "fee"@
            &&& match txs@[i].confirmation_time {
                Some(block) => {
                    &&& fields[3].1 == CellView::DateTime(block.timestamp as nat)
                    &&& fields[4].1 == CellView::Int(block.height as nat)
                },
                None => fields[3].1 == CellView::Empty && fields[4].1 == CellView::Empty,
            }
            &&& match txs@[i].fee {
                Some(fee) => fields[5].1 == CellView::Amount(fee as nat),
                None => fields[5].1 == CellView::Empty,
            }
        },
{
    let all = tx_views(txs@);
    match answer {
        Ok(output) => {
            let i = choose|i: int| #[trigger]
                is_first(all, txid, i) && output@ == transaction_item(all[i]);
            assert(all[i] == txs@[i]@);
            assert(txs@[i].txid == txid);
            assert forall|k: int| 0 <= k < i implies (#[trigger] txs@[k]).txid != txid by {
                assert(all[k].txid != txid);
            }
            i
        },
        Err(_) => 0,
    }
}

/// Two transactions whose fee is the same show the same fee, whatever else they differ in, and two
/// whose fee is not show different ones.
pub proof fn fee_shows_by_itself(a: TransactionDetails, b: TransactionDetails)
    ensures
        transaction_item(a@)->Item_0[5] == transaction_item(b@)->Item_0[5] <==> a.fee == b.fee,
        transaction_item(a@)->Item_0[5].1 == CellView::Empty <==> a.fee is None,
{
}

/// A transaction's block shows by itself, in the list and by itself: where two transactions are in
/// blocks of the same height and time, or both in none, they show the same.
pub proof fn block_shows_by_itself(a: TransactionDetails, b: TransactionDetails)
    ensures
        a.confirmation_time == b.confirmation_time <==> {
            &&& transaction_row(a@)[1] == transaction_row(b@)[1]
            &&& transaction_row(a@)[2] == transaction_row(b@)[2]
        },
        transaction_item(a@)->Item_0[3].1 == transaction_row(a@)[2],
        transaction_item(a@)->Item_0[4].1 == transaction_row(a@)[1],
        transaction_item(a@)->Item_0[0].1 == transaction_row(a@)[0],
        transaction_item(a@)->Item_0[1].1 == transaction_row(a@)[3],
        transaction_item(a@)->Item_0[2].1 == transaction_row(a@)[4],
{
}

/// Sorting keeps each transaction as often as it occurs and puts the later block first. What is in
/// no block goes last, together with what bears the time zero.
pub proof fn sorting_goes_by_block_time(
    txs: Vec<TransactionDetails>,
    order: Vec<TransactionDetails>,
    i: int,
    j: int,
)
    requires
        call_ensures(sort_newest_first, (txs,), order),
        0 <= i < j < order@.len(),
    ensures
        tx_views(order@).to_multiset() == tx_views(txs@).to_multiset(),
        match (order@[i].confirmation_time, order@[j].confirmation_time) {
            (Some(a), Some(b)) => a.timestamp >= b.timestamp,
            (None, Some(b)) => b.timestamp == 0,
            (_, None) => true,
        },
{
    let views = tx_views(order@);
    assert(views[i] == order@[i]@ && views[j] == order@[j]@);
    assert(seen_at(views[i]) >= seen_at(views[j]));
}

} // verus!
