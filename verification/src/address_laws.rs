//! What holds of every answer about addresses.
use vstd::prelude::*;
use vstd::string::*;

use crate::addresses::{
    address_query, can_answer, count_at, find_unused, get_address, is_used, keychain_in_range,
    lemma_filter_picks, list_keychain_addresses, none_unused_where_all_are_used, rows_of,
    some_pays_to, value_at, AddressData, AddressOpt, AddressQuery, KeychainData, ScriptData,
};
use crate::encoding::{
    address_script_reads_back, address_text, asm_text, payload_script, script_payload,
};
use crate::index::pays_to;
use crate::output::{rows_view, Cell, CellView, CmdOutput};
use crate::types::{
    tx_views, utxo_views, Address, KeychainKind, LocalUtxoView, Network, TransactionDetails,
};
use crate::values::{lemma_filtered_total_adds_up, total_value_adds_up};

verus! {

/// A script is used if and only if some transaction whose outputs are known has, at any place from
/// the first to the last, an output that pays to it.
pub proof fn used_means_paid(txs: Seq<TransactionDetails>, script: Seq<u8>)
    ensures
        is_used(tx_views(txs), script) <==> exists|i: int, j: int|
            {
                &&& 0 <= i < txs.len()
                &&& txs[i].transaction is Some
                &&& 0 <= j < txs[i].transaction->0.output@.len()
                &&& (#[trigger] txs[i].transaction->0.output@[j]).script_pubkey.bytes@ == script
            },
{
    let views = tx_views(txs);
    assert forall|i: int| 0 <= i < txs.len() implies #[trigger] views[i] == txs[i]@ by {}
    if is_used(views, script) {
        let i = choose|i: int|
            0 <= i < views.len() && (#[trigger] views[i]).transaction is Some && some_pays_to(
                views[i].transaction->0,
                script,
            );
        let outputs = views[i].transaction->0;
        let j = choose|j: int|
            0 <= j < outputs.len() && (#[trigger] outputs[j]).script_pubkey == script;
        assert(outputs[j] == txs[i].transaction->0.output@[j]@);
        assert(txs[i].transaction->0.output@[j].script_pubkey.bytes@ == script);
    }
    if exists|i: int, j: int|
        {
            &&& 0 <= i < txs.len()
            &&& txs[i].transaction is Some
            &&& 0 <= j < txs[i].transaction->0.output@.len()
            &&& (#[trigger] txs[i].transaction->0.output@[j]).script_pubkey.bytes@ == script
        } {
        let (i, j) = choose|i: int, j: int|
            {
                &&& 0 <= i < txs.len()
                &&& txs[i].transaction is Some
                &&& 0 <= j < txs[i].transaction->0.output@.len()
                &&& (#[trigger] txs[i].transaction->0.output@[j]).script_pubkey.bytes@ == script
            };
        output_makes_its_script_used(txs, i, j);
    }
}

/// Whatever place an output has in a transaction, its script is used.
pub proof fn output_makes_its_script_used(txs: Seq<TransactionDetails>, i: int, j: int)
    requires
        0 <= i < txs.len(),
        txs[i].transaction is Some,
        0 <= j < txs[i].transaction->0.output@.len(),
    ensures
        is_used(tx_views(txs), txs[i].transaction->0.output@[j].script_pubkey.bytes@),
{
    let view = tx_views(txs)[i];
    let output = txs[i].transaction->0.output@[j];
    assert(view.transaction == Some(txs[i].transaction->0@));
    assert(view.transaction->0[j] == output@);
    assert(some_pays_to(view.transaction->0, output.script_pubkey@));
}

/// What a script holds adds up over outputs: an output counts at its script, with its value and as
/// one, and at no other.
pub proof fn holdings_add_up(
    a: Seq<LocalUtxoView>,
    b: Seq<LocalUtxoView>,
    u: LocalUtxoView,
    script: Seq<u8>,
)
    ensures
        value_at(a + b, script) == value_at(a, script) + value_at(b, script),
        count_at(a + b, script) == count_at(a, script) + count_at(b, script),
        value_at(Seq::empty(), script) == 0,
        count_at(Seq::empty(), script) == 0,
        value_at(seq![u], script) == if u.txout.script_pubkey == script {
            u.txout.value as nat
        } else {
            0
        },
        count_at(seq![u], script) == if u.txout.script_pubkey == script {
            1nat
        } else {
            0
        },
{
    lemma_filtered_total_adds_up(a, b, u, pays_to(script));
    total_value_adds_up(a, b, u);
}

/// A script holds something exactly where some unspent output with a value pays to it.
pub proof fn holding_something_means_an_output(utxos: Seq<LocalUtxoView>, script: Seq<u8>)
    ensures
        value_at(utxos, script) != 0 <==> exists|k: int|
            {
                &&& 0 <= k < utxos.len()
                &&& (#[trigger] utxos[k]).txout.script_pubkey == script
                &&& utxos[k].txout.value > 0
            },
    decreases utxos.len(),
{
    if utxos.len() == 0 {
        reveal(Seq::filter);
    } else {
        let rest = utxos.drop_last();
        holding_something_means_an_output(rest, script);
        holdings_add_up(rest, seq![utxos.last()], utxos.last(), script);
        assert(utxos =~= rest + seq![utxos.last()]);
        assert forall|k: int| 0 <= k < rest.len() implies #[trigger] rest[k] == utxos[k] by {}
        if value_at(rest, script) != 0 {
            let k = choose|k: int|
                {
                    &&& 0 <= k < rest.len()
                    &&& (#[trigger] rest[k]).txout.script_pubkey == script
                    &&& rest[k].txout.value > 0
                };
            assert(utxos[k].txout.value > 0);
        }
        if exists|k: int|
            {
                &&& 0 <= k < utxos.len()
                &&& (#[trigger] utxos[k]).txout.script_pubkey == script
                &&& utxos[k].txout.value > 0
            } {
            let k = choose|k: int|
                {
                    &&& 0 <= k < utxos.len()
                    &&& (#[trigger] utxos[k]).txout.script_pubkey == script
                    &&& utxos[k].txout.value > 0
                };
            if k < rest.len() {
                assert(rest[k].txout.value > 0);
            }
        }
        assert(utxos[utxos.len() - 1] == utxos.last());
    }
}

/// How many of `count` scripts have been handed out where `last` is the last index.
pub open spec fn number_handed_out(count: nat, last: Option<u32>) -> int {
    match last {
        Some(index) => if index + 1 < count {
            index + 1
        } else {
            count as int
        },
        None => 0,
    }
}

/// What has been handed out is the first scripts, up to and with the last index: none where there is
/// no such index, and all where it lies beyond them.
pub proof fn handed_out_are_the_first(data: KeychainData, i: int)
    ensures
        data.last_index is None ==> data@.handed_out().len() == 0,
        data.last_index matches Some(index) ==> {
            &&& index < data.scripts@.len() ==> data@.handed_out().len() == index + 1
            &&& index >= data.scripts@.len() ==> data@.handed_out().len() == data.scripts@.len()
        },
        data@.handed_out().len() == number_handed_out(data.scripts@.len(), data.last_index),
        0 <= i < data@.handed_out().len() ==> data@.handed_out()[i] == data.scripts@[i].bytes@,
{
}

/// The list of a key chain has a row for each script that was handed out and passes the filters, the
/// one handed out later first. With `unused` a script passes if no transaction has an output, at
/// whatever place, that pays to it; with `hide_zeros` if some unspent output of a value pays to it.
/// A row has the script's address on the given network, the value and number of the unspent outputs
/// that pay to it, and the name of the key chain. The places of the scripts are returned.
pub proof fn list_shows_what_was_handed_out(
    data: &KeychainData,
    network: Network,
    hide_zeros: bool,
    unused: bool,
    rows: Vec<Vec<Cell>>,
) -> (at: Seq<int>)
    requires
        call_ensures(list_keychain_addresses, (data, network, hide_zeros, unused), rows),
    ensures
        at.len() == rows@.len(),
        forall|k: int|
            0 <= k < at.len() ==> {
                let script = data.scripts@[#[trigger] at[k]].bytes@;
                let cells = rows_view(rows@)[k];
                &&& 0 <= at[k] < number_handed_out(data.scripts@.len(), data.last_index)
                &&& cells.len() == 4
                &&& cells[0] == CellView::String(address_text(script_payload(script)->0, network))
                &&& cells[1] == CellView::Amount(value_at(utxo_views(data.utxos@), script))
                &&& cells[2] == CellView::Int(count_at(utxo_views(data.utxos@), script))
                &&& data.keychain == KeychainKind::External ==> cells[3] == CellView::String(
                    "external"@,
                )
                &&& data.keychain == KeychainKind::Internal ==> cells[3] == CellView::String(
                    "internal"@,
                )
            },
        forall|j: int, k: int| 0 <= j < k < at.len() ==> #[trigger] at[j] > #[trigger] at[k],
        forall|i: int|
            0 <= i < number_handed_out(data.scripts@.len(), data.last_index) ==> (at.contains(i)
                <==> passes_filters(data, hide_zeros, unused, #[trigger] data.scripts@[i].bytes@)),
{
    let scripts = data@.handed_out();
    let listed = data@.is_listed(hide_zeros, unused);
    let kept = data@.kept(hide_zeros, unused);
    let picked = lemma_filter_picks(scripts, listed);
    let n = picked.len() as int;
    let at = Seq::new(picked.len(), |k: int| picked[n - 1 - k]);
    assert(rows_view(rows@) == data@.rows(network, hide_zeros, unused));
    assert(rows_view(rows@).len() == kept.len());
    assert forall|k: int| 0 <= k < at.len() implies {
        &&& 0 <= #[trigger] at[k] < scripts.len()
        &&& scripts[at[k]] == data.scripts@[at[k]].bytes@
        &&& rows_view(rows@)[k] == data@.row(network)(scripts[at[k]])
    } by {
        let j = n - 1 - k;
        assert(picked[j] == at[k]);
        assert(kept[j] == scripts[picked[j]]);
        assert(rows_view(rows@)[k] == data@.row(network)(kept[j]));
    }
    assert forall|i: int|
        0 <= i < number_handed_out(data.scripts@.len(), data.last_index) implies (at.contains(i)
        <==> passes_filters(data, hide_zeros, unused, #[trigger] data.scripts@[i].bytes@)) by {
        let script = data.scripts@[i].bytes@;
        assert(scripts[i] == script);
        used_means_paid(data.transactions@, script);
        holding_something_means_an_output(data@.utxos, script);
        lemma_held(data, script);
        assert(listed(script) <==> passes_filters(data, hide_zeros, unused, script));
        if at.contains(i) {
            let k = choose|k: int| 0 <= k < at.len() && at[k] == i;
            assert(picked[n - 1 - k] == i);
            assert(listed(scripts[picked[n - 1 - k]]));
        }
        if listed(script) {
            let k = choose|k: int| 0 <= k < picked.len() && #[trigger] picked[k] == i;
            assert(at[n - 1 - k] == i);
        }
    }
    assert forall|j: int, k: int| 0 <= j < k < at.len() implies #[trigger] at[j]
        > #[trigger] at[k] by {
        assert(picked[n - 1 - k] < picked[n - 1 - j]);
    }
    at
}

/// A script is shown under the filters: with `unused` no output of a transaction pays to it, and with
/// `hide_zeros` an unspent output of a value does.
pub open spec fn passes_filters(
    data: &KeychainData,
    hide_zeros: bool,
    unused: bool,
    script: Seq<u8>,
) -> bool {
    &&& unused ==> forall|i: int, j: int|
        0 <= i < data.transactions@.len() && data.transactions@[i].transaction is Some && 0 <= j
            < data.transactions@[i].transaction->0.output@.len() ==> (
        #[trigger] data.transactions@[i].transaction->0.output@[j]).script_pubkey.bytes@ != script
    &&& hide_zeros ==> exists|k: int|
        {
            &&& 0 <= k < data.utxos@.len()
            &&& (#[trigger] data.utxos@[k]).txout.script_pubkey.bytes@ == script
            &&& data.utxos@[k].txout.value > 0
        }
}

proof fn lemma_held(data: &KeychainData, script: Seq<u8>)
    ensures
        (exists|k: int|
            {
                &&& 0 <= k < data.utxos@.len()
                &&& (#[trigger] data.utxos@[k]).txout.script_pubkey.bytes@ == script
                &&& data.utxos@[k].txout.value > 0
            }) <==> value_at(data@.utxos, script) != 0,
{
    let views = data@.utxos;
    holding_something_means_an_output(views, script);
    assert forall|k: int| 0 <= k < views.len() implies #[trigger] views[k] == data.utxos@[k]@ by {}
    if value_at(views, script) != 0 {
        let k = choose|k: int|
            {
                &&& 0 <= k < views.len()
                &&& (#[trigger] views[k]).txout.script_pubkey == script
                &&& views[k].txout.value > 0
            };
        assert(data.utxos@[k].txout.value > 0);
    }
    if exists|k: int|
        {
            &&& 0 <= k < data.utxos@.len()
            &&& (#[trigger] data.utxos@[k]).txout.script_pubkey.bytes@ == script
            &&& data.utxos@[k].txout.value > 0
        } {
        let k = choose|k: int|
            {
                &&& 0 <= k < data.utxos@.len()
                &&& (#[trigger] data.utxos@[k]).txout.script_pubkey.bytes@ == script
                &&& data.utxos@[k].txout.value > 0
            };
        assert(views[k].txout.value > 0);
    }
}

/// A script that an output of a transaction pays to, at whatever place the output stands, is not
/// listed as unused, nor is it the first of the unused ones.
pub proof fn paid_script_is_not_listed_as_unused(
    data: &KeychainData,
    hide_zeros: bool,
    i: int,
    j: int,
)
    requires
        0 <= i < data.transactions@.len(),
        data.transactions@[i].transaction is Some,
        0 <= j < data.transactions@[i].transaction->0.output@.len(),
    ensures
        !data@.kept(hide_zeros, true).contains(
            data.transactions@[i].transaction->0.output@[j].script_pubkey.bytes@,
        ),
        data@.first_unused()
            != Some(data.transactions@[i].transaction->0.output@[j].script_pubkey.bytes@),
{
    broadcast use vstd::seq_lib::group_filter_ensures;

    let script = data.transactions@[i].transaction->0.output@[j].script_pubkey.bytes@;
    output_makes_its_script_used(data.transactions@, i, j);
    let kept = data@.kept(hide_zeros, true);
    let listed = data@.is_listed(hide_zeros, true);
    if kept.contains(script) {
        let k = choose|k: int| 0 <= k < kept.len() && kept[k] == script;
        assert(listed(kept[k]));
    }
    let all = data@.kept(false, true);
    if all.len() > 0 {
        assert(data@.is_listed(false, true)(all[0]));
    }
}

/// A key chain can be listed exactly where each script handed out has the form of an address and
/// holds no more than fits in 64 bits.
pub proof fn listable_by_form_and_value(data: &KeychainData, fits: bool)
    requires
        call_ensures(keychain_in_range, (data,), fits),
    ensures
        fits <==> forall|i: int|
            0 <= i < number_handed_out(data.scripts@.len(), data.last_index) ==> {
                &&& script_payload((#[trigger] data.scripts@[i]).bytes@) is Some
                &&& value_at(utxo_views(data.utxos@), data.scripts@[i].bytes@) <= u64::MAX
            },
{
    let scripts = data@.handed_out();
    assert forall|i: int| 0 <= i < scripts.len() implies #[trigger] scripts[i]
        == data.scripts@[i].bytes@ by {}
    if fits {
        assert forall|i: int|
            0 <= i < number_handed_out(data.scripts@.len(), data.last_index) implies {
            &&& script_payload((#[trigger] data.scripts@[i]).bytes@) is Some
            &&& value_at(utxo_views(data.utxos@), data.scripts@[i].bytes@) <= u64::MAX
        } by {
            assert(script_payload(scripts[i]) is Some);
        }
    } else {
        let i = choose|i: int|
            0 <= i < scripts.len() && !{
                &&& script_payload(#[trigger] scripts[i]) is Some
                &&& value_at(data@.utxos, scripts[i]) <= u64::MAX
            };
        assert(scripts[i] == data.scripts@[i].bytes@);
    }
}

/// What a command needs: a new address, the external key chain, the key chains to list with the
/// external one first, or the script that pays to the address.
pub proof fn query_asks_for_what_is_needed(opt: &AddressOpt, query: AddressQuery)
    requires
        call_ensures(address_query, (opt,), query),
    ensures
        match *opt {
            AddressOpt::New => query is New,
            AddressOpt::LastUnused => query == AddressQuery::Unused(KeychainKind::External),
            AddressOpt::List { all, internal, .. } => {
                &&& query is Keychains
                &&& query->Keychains_0@ == if all {
                    seq![KeychainKind::External, KeychainKind::Internal]
                } else if internal {
                    seq![KeychainKind::Internal]
                } else {
                    seq![KeychainKind::External]
                }
            },
            AddressOpt::Show { address } => {
                &&& query is Script
                &&& address.well_formed() ==> script_payload(query->Script_0.bytes@) == Some(
                    address.payload@,
                )
            },
        },
{
    if let AddressOpt::Show { address } = *opt {
        if address.well_formed() {
            address_script_reads_back(address.payload@);
        }
    }
}

/// A new address is the answer as it is.
pub proof fn new_address_is_the_answer(network: Network, address: Address, output: CmdOutput)
    requires
        call_ensures(
            get_address,
            (&AddressOpt::New, network, &AddressData::Derived(address)),
            output,
        ),
    ensures
        output@ is EmphasisedItem,
        output@->main == (
            "address"@,
            CellView::String(address_text(address.payload@, address.network)),
        ),
        output@->other.len() == 0,
{
}

/// The unused address is that of the first script handed out that no output of a transaction pays
/// to, on the given network, and the new one where there is none.
pub proof fn unused_address_is_the_first(
    network: Network,
    read: KeychainData,
    fresh: Option<Address>,
    output: CmdOutput,
    found: Option<usize>,
)
    requires
        call_ensures(
            get_address,
            (&AddressOpt::LastUnused, network, &AddressData::Unused { read, fresh }),
            output,
        ),
        call_ensures(find_unused, (&read,), found),
    ensures
        output@ is EmphasisedItem,
        output@->other.len() == 0,
        output@->main.0 == "address"@,
        match found {
            Some(i) => {
                &&& i < number_handed_out(read.scripts@.len(), read.last_index)
                &&& passes_filters(&read, false, true, read.scripts@[i as int].bytes@)
                &&& forall|j: int|
                    0 <= j < i ==> !passes_filters(
                        &read,
                        false,
                        true,
                        (#[trigger] read.scripts@[j]).bytes@,
                    )
                &&& output@->main.1 == CellView::String(
                    address_text(script_payload(read.scripts@[i as int].bytes@)->0, network),
                )
            },
            None => {
                &&& forall|j: int|
                    0 <= j < number_handed_out(read.scripts@.len(), read.last_index)
                        ==> !passes_filters(
                        &read,
                        false,
                        true,
                        (#[trigger] read.scripts@[j]).bytes@,
                    )
                &&& output@->main.1 == CellView::String(
                    address_text(fresh->0.payload@, fresh->0.network),
                )
            },
        },
{
    let scripts = read@.handed_out();
    assert forall|j: int| 0 <= j < scripts.len() implies {
        &&& #[trigger] scripts[j] == read.scripts@[j].bytes@
        &&& passes_filters(&read, false, true, read.scripts@[j].bytes@) <==> !is_used(
            read@.transactions,
            scripts[j],
        )
    } by {
        used_means_paid(read.transactions@, scripts[j]);
    }
    let n = match found {
        Some(i) => i as int,
        None => scripts.len() as int,
    };
    assert forall|j: int| 0 <= j < n implies !passes_filters(
        &read,
        false,
        true,
        (#[trigger] read.scripts@[j]).bytes@,
    ) by {
        assert(is_used(read@.transactions, scripts[j]));
    }
}

/// A list of addresses has these columns, and the rows of the key chain that was read. Where two were
/// read, the rows of the first come before those of the second.
pub proof fn list_has_the_rows_of_its_keychains(
    opt: &AddressOpt,
    network: Network,
    data: &AddressData,
    output: CmdOutput,
    first: Vec<Vec<Cell>>,
    second: Vec<Vec<Cell>>,
)
    requires
        opt is List,
        data is Keychains,
        1 <= data->Keychains_0@.len() <= 2,
        call_ensures(get_address, (opt, network, data), output),
        call_ensures(
            list_keychain_addresses,
            (&data->Keychains_0@[0], network, opt->hide_zeros, opt->unused),
            first,
        ),
        data->Keychains_0@.len() == 2 ==> call_ensures(
            list_keychain_addresses,
            (&data->Keychains_0@[1], network, opt->hide_zeros, opt->unused),
            second,
        ),
        data->Keychains_0@.len() == 1 ==> second@.len() == 0,
    ensures
        output@ is Table,
        output@->col_names == seq!["address"@, "value"@, "utxos"@, "keychain"@],
        output@->rows == rows_view(first@) + rows_view(second@),
{
    let read = data->Keychains_0@;
    reveal_with_fuel(rows_of, 3);
    if read.len() == 1 {
        assert(read.drop_last() =~= Seq::empty());
        assert(output@->rows =~= rows_view(first@) + rows_view(second@));
    } else {
        assert(read.drop_last().drop_last() =~= Seq::empty());
        assert(read.drop_last().last() == read[0]);
        assert(output@->rows =~= rows_view(first@) + rows_view(second@));
    }
}

/// An address that is shown shows the value and number of the unspent outputs that pay to its
/// script, the script, and the descriptor and key chain where the wallet has them.
pub proof fn show_gives_the_address(
    address: Address,
    network: Network,
    read: ScriptData,
    output: CmdOutput,
)
    requires
        call_ensures(
            get_address,
            (&AddressOpt::Show { address }, network, &AddressData::Script(read)),
            output,
        ),
    ensures
        output@ is Item,
        ({
            let fields = output@->Item_0;
            let script = payload_script(address.payload@);
            &&& fields.len() == 5
            &&& fields[0] == (
                "value"@,
                CellView::Amount(value_at(utxo_views(read.utxos@), script)),
            )
            &&& fields[1] == (
                "n-utxos"@,
                CellView::Int(count_at(utxo_views(read.utxos@), script)),
            )
            &&& fields[2] == ("script-pubkey"@, CellView::String(asm_text(script)))
            &&& fields[3].0 == "output-descriptor"@
            &&& match read.descriptor {
                Some(text) => fields[3].1 == CellView::String(text@),
                None => fields[3].1 == CellView::Empty,
            }
            &&& fields[4].0 == "keychain"@
            &&& match read.keychain {
                Some(KeychainKind::External) => fields[4].1 == CellView::String("external"@),
                Some(KeychainKind::Internal) => fields[4].1 == CellView::String("internal"@),
                None => fields[4].1 == CellView::Empty,
            }
        }),
{
}

/// What was read answers a command exactly where it is of its kind and fits: an address that can be
/// written down; the external key chain, with a new address if and only if all of its are used; each
/// key chain to list, in its order; or a script that holds no more than fits in 64 bits.
pub proof fn data_answers_by_kind_and_value(opt: &AddressOpt, data: &AddressData, r: bool)
    requires
        call_ensures(can_answer, (opt, data), r),
    ensures
        match (*opt, *data) {
            (AddressOpt::New, AddressData::Derived(address)) => r <==> address.well_formed(),
            (AddressOpt::LastUnused, AddressData::Unused { read, fresh }) => {
                &&& r ==> read.keychain == KeychainKind::External
                &&& r ==> (fresh is Some <==> forall|j: int|
                    0 <= j < read@.handed_out().len() ==> is_used(
                        read@.transactions,
                        #[trigger] read@.handed_out()[j],
                    ))
                &&& {
                    &&& read.keychain == KeychainKind::External
                    &&& fresh is Some && fresh->0.well_formed()
                    &&& read@.first_unused() is None
                } ==> r
                &&& {
                    &&& read.keychain == KeychainKind::External
                    &&& fresh is None
                    &&& read@.first_unused() is Some
                    &&& script_payload(read@.first_unused()->0) is Some
                } ==> r
            },
            (AddressOpt::List { all, internal, .. }, AddressData::Keychains(read)) => {
                r <==> if all {
                    &&& read@.len() == 2
                    &&& read@[0].keychain == KeychainKind::External
                    &&& read@[1].keychain == KeychainKind::Internal
                    &&& read@[0]@.in_range()
                    &&& read@[1]@.in_range()
                } else {
                    &&& read@.len() == 1
                    &&& read@[0].keychain == if internal {
                        KeychainKind::Internal
                    } else {
                        KeychainKind::External
                    }
                    &&& read@[0]@.in_range()
                }
            },
            (AddressOpt::Show { address }, AddressData::Script(read)) => r <==> {
                &&& address.well_formed()
                &&& value_at(utxo_views(read.utxos@), payload_script(address.payload@)) <= u64::MAX
            },
            _ => !r,
        },
{
    if let AddressData::Unused { read, fresh } = *data {
        none_unused_where_all_are_used(read@);
    }
}

} // verus!
