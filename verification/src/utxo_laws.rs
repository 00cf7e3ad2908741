//! What holds of every list of unspent outputs, and of every output that is shown.
use vstd::prelude::*;
use vstd::string::*;

use crate::addresses::KeychainDataView;
use crate::encoding::{address_text, asm_text, outpoint_text, script_payload};
use crate::output::{CellView, CmdError, CmdOutput};
use crate::types::{KeychainKind, Network, OutPoint};
use crate::utxos::{
    run_utxo_cmd, utxo_item, utxo_row, TxLookup, UtxoData, UtxoDetails, UtxoDetailsView,
    UtxoEntryView, UtxoOpt,
};

verus! {

/// The list has a row for each unspent output, in the order in which they were read: its reference,
/// the address that its script pays to on the given network if it has the form of one, its value and
/// key chain, whether its transaction is in a block where that was found, and whether a protocol is
/// using it.
pub proof fn list_shows_each_output(
    network: Network,
    data: &UtxoData,
    answer: Result<CmdOutput, CmdError>,
    i: int,
)
    requires
        data is List,
        0 <= i < data->unspent@.len(),
        call_ensures(run_utxo_cmd, (&UtxoOpt::List, network, data), answer),
    ensures
        answer is Ok,
        answer->Ok_0@ is Table,
        answer->Ok_0@->rows.len() == data->unspent@.len(),
        ({
            let entry = data->unspent@[i];
            let row = answer->Ok_0@->rows[i];
            &&& row.len() == 6
            &&& row[0] == CellView::String(outpoint_text(entry.utxo.outpoint))
            &&& match script_payload(entry.utxo.txout.script_pubkey.bytes@) {
                Some(payload) => row[1] == CellView::String(address_text(payload, network)),
                None => row[1] == CellView::Empty,
            }
            &&& row[2] == CellView::Amount(entry.utxo.txout.value as nat)
            &&& entry.utxo.keychain == KeychainKind::External ==> row[3] == CellView::String(
                "external"@,
            )
            &&& entry.utxo.keychain == KeychainKind::Internal ==> row[3] == CellView::String(
                "internal"@,
            )
            &&& match entry.tx {
                TxLookup::Found(tx) => {
                    &&& tx.confirmation_time is Some ==> row[4] == CellView::String("true"@)
                    &&& tx.confirmation_time is None ==> row[4] == CellView::String("false"@)
                },
                TxLookup::Missing => row[4] == CellView::Empty,
                TxLookup::Failed => row[4] == CellView::Empty,
            }
            &&& (exists|k: int|
                0 <= k < data->in_use@.len() && #[trigger] data->in_use@[k]
                    == entry.utxo.outpoint) ==> row[5] == CellView::String("true"@)
            &&& (forall|k: int|
                0 <= k < data->in_use@.len() ==> #[trigger] data->in_use@[k]
                    != entry.utxo.outpoint) ==> row[5] == CellView::String("false"@)
        }),
{
    assert(answer->Ok_0@->rows[i] == utxo_row(data->unspent@[i]@, network, data->in_use@));
}

/// The list has these columns and no row but those of the outputs.
pub proof fn list_of_outputs_is_a_table(
    network: Network,
    data: &UtxoData,
    answer: Result<CmdOutput, CmdError>,
)
    requires
        data is List,
        call_ensures(run_utxo_cmd, (&UtxoOpt::List, network, data), answer),
    ensures
        answer is Ok,
        answer->Ok_0@ is Table,
        answer->Ok_0@->col_names == seq![
            "outpoint"@,
            "address"@,
            "value"@,
            "keychain"@,
            "confirmed"@,
            "in-use"@,
        ],
        answer->Ok_0@->rows.len() == data->unspent@.len(),
{
}

/// An output that is shown shows its reference and value, the time and height of its transaction's
/// block where it is in one, the address that its script pays to on the given network if it has the
/// form of one, the script, the descriptor where there is one, its key chain, and whether a protocol
/// is using it.
pub proof fn show_gives_the_output(
    outpoint: OutPoint,
    network: Network,
    data: &UtxoData,
    answer: Result<CmdOutput, CmdError>,
    details: UtxoDetails,
)
    requires
        *data == UtxoData::Show(Some(details)),
        call_ensures(run_utxo_cmd, (&UtxoOpt::Show { outpoint }, network, data), answer),
    ensures
        answer is Ok,
        answer->Ok_0@ is Item,
        ({
            let fields = answer->Ok_0@->Item_0;
            let script = details.utxo.txout.script_pubkey.bytes@;
            let block = match details.tx {
                Some(tx) => tx.confirmation_time,
                None => None,
            };
            &&& fields.len() == 9
            &&& fields[0] == ("outpoint"@, CellView::String(outpoint_text(details.utxo.outpoint)))
            &&& fields[1] == ("value"@, CellView::Amount(details.utxo.txout.value as nat))
            &&& fields[2].0 == "tx-seen-at"@
            &&& fields[3].0 == "tx-confirmed-at"@
            &&& match block {
                Some(block) => {
                    &&& fields[2].1 == CellView::DateTime(block.timestamp as nat)
                    &&& fields[3].1 == CellView::Int(block.height as nat)
                },
                None => fields[2].1 == CellView::Empty && fields[3].1 == CellView::Empty,
            }
            &&& fields[4].0 == "address"@
            &&& match script_payload(script) {
                Some(payload) => fields[4].1 == CellView::String(address_text(payload, network)),
                None => fields[4].1 == CellView::Empty,
            }
            &&& fields[5] == ("script-pubkey"@, CellView::String(asm_text(script)))
            &&& fields[6].0 == "output-descriptor"@
            &&& match details.descriptor {
                Some(text) => fields[6].1 == CellView::String(text@),
                None => fields[6].1 == CellView::Empty,
            }
            &&& fields[7].0 == "keychain"@
            &&& details.utxo.keychain == KeychainKind::External ==> fields[7].1
                == CellView::String("external"@)
            &&& details.utxo.keychain == KeychainKind::Internal ==> fields[7].1
                == CellView::String("internal"@)
            &&& fields[8].0 == "in-use"@
            &&& (exists|k: int|
                0 <= k < details.in_use@.len() && #[trigger] details.in_use@[k]
                    == details.utxo.outpoint) ==> fields[8].1 == CellView::String("true"@)
            &&& (forall|k: int|
                0 <= k < details.in_use@.len() ==> #[trigger] details.in_use@[k]
                    != details.utxo.outpoint) ==> fields[8].1 == CellView::String("false"@)
        }),
{
    assert(answer->Ok_0@ == utxo_item(details@, network));
}

/// An output that the database does not hold is an error that names what was asked for.
pub proof fn unknown_output_is_named(
    outpoint: OutPoint,
    network: Network,
    answer: Result<CmdOutput, CmdError>,
)
    requires
        call_ensures(
            run_utxo_cmd,
            (&UtxoOpt::Show { outpoint }, network, &UtxoData::Show(None)),
            answer,
        ),
    ensures
        answer is Err,
        answer->Err_0 == CmdError::UtxoNotFound(outpoint),
{
}

/// An output's address reads as in the list of addresses on the same network, in its row and where
/// it is shown.
pub proof fn output_address_agrees_with_addresses(
    entry: UtxoEntryView,
    details: UtxoDetailsView,
    in_use: Seq<OutPoint>,
    data: KeychainDataView,
    network: Network,
)
    requires
        script_payload(entry.utxo.txout.script_pubkey) is Some,
        details.utxo == entry.utxo,
    ensures
        utxo_row(entry, network, in_use)[1] == data.row(network)(
            entry.utxo.txout.script_pubkey,
        )[0],
        utxo_item(details, network)->Item_0[4].1 == data.row(network)(
            entry.utxo.txout.script_pubkey,
        )[0],
        utxo_row(entry, network, in_use)[1] == CellView::String(
            address_text(script_payload(entry.utxo.txout.script_pubkey)->0, network),
        ),
{
}

} // verus!
