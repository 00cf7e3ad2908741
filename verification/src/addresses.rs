//! The wallet's addresses.
use vstd::prelude::*;
use vstd::string::*;

use crate::encoding::{
    address_from_script, address_script_reads_back, address_string, address_text, asm_string,
    asm_text, payload_script, script_address_writes_back, script_payload, script_pubkey,
};
use crate::index::{by_script, index_utxos, lemma_nothing_pays, pays_to, UtxoIndex};
use crate::output::{
    fields_view, keychain_cell, keychain_name, names_view, row_view, rows_view, text_or_empty, Cell,
    CellView, CmdOutput, CmdOutputView,
};
use crate::types::{
    tx_views, utxo_views, Address, Amount, KeychainKind, LocalUtxo, LocalUtxoView, Network,
    PayloadView, Script, Transaction, TransactionDetails, TransactionDetailsView, TxOutView,
};
use crate::values::{checked_total, lemma_total_of_either, total_value};

verus! {

/// What to do with the wallet's addresses.
#[derive(Debug, PartialEq, Eq)]
pub enum AddressOpt {
    /// A new address even if the last one hasn't been used.
    New,
    /// First one that hasn't been used.
    LastUnused,
    /// List addresses
    List {
        /// Show all addresses (internal & external)
        all: bool,
        /// Show only internal addresses
        internal: bool,
        /// Hide addresses with zero balance
        hide_zeros: bool,
        /// Show unused addresses
        unused: bool,
    },
    /// Show details of an address
    Show { address: Address },
}

/// What is read from the wallet of a key chain's addresses.
#[derive(Debug, PartialEq, Eq)]
pub struct KeychainData {
    pub keychain: KeychainKind,
    /// The scripts of the key chain, from index 0 on.
    pub scripts: Vec<Script>,
    /// The wallet's transactions, read with their outputs.
    pub transactions: Vec<TransactionDetails>,
    /// The last index handed out.
    pub last_index: Option<u32>,
    pub utxos: Vec<LocalUtxo>,
}

/// The mathematical value of a [`KeychainData`].
pub struct KeychainDataView {
    pub keychain: KeychainKind,
    pub scripts: Seq<Seq<u8>>,
    pub transactions: Seq<TransactionDetailsView>,
    pub last_index: Option<u32>,
    pub utxos: Seq<LocalUtxoView>,
}

/// The bytes of a list of scripts.
pub open spec fn script_views(scripts: Seq<Script>) -> Seq<Seq<u8>> {
    scripts.map_values(|s: Script| s@)
}

impl View for KeychainData {
    type V = KeychainDataView;

    open spec fn view(&self) -> KeychainDataView {
        KeychainDataView {
            keychain: self.keychain,
            scripts: script_views(self.scripts@),
            transactions: tx_views(self.transactions@),
            last_index: self.last_index,
            utxos: utxo_views(self.utxos@),
        }
    }
}

/// The outputs pay to the script.
pub open spec fn some_pays_to(outputs: Seq<TxOutView>, script: Seq<u8>) -> bool {
    exists|j: int| 0 <= j < outputs.len() && (#[trigger] outputs[j]).script_pubkey == script
}

/// Some transaction pays to the script.
pub open spec fn is_used(txs: Seq<TransactionDetailsView>, script: Seq<u8>) -> bool {
    exists|i: int|
        0 <= i < txs.len() && (#[trigger] txs[i]).transaction is Some && some_pays_to(
            txs[i].transaction->0,
            script,
        )
}

/// The value of the unspent outputs that pay to a script.
pub open spec fn value_at(utxos: Seq<LocalUtxoView>, script: Seq<u8>) -> nat {
    total_value(utxos.filter(pays_to(script)))
}

/// The number of unspent outputs that pay to a script.
pub open spec fn count_at(utxos: Seq<LocalUtxoView>, script: Seq<u8>) -> nat {
    utxos.filter(pays_to(script)).len()
}

impl KeychainDataView {
    /// The scripts that have been handed out: those up to the last index.
    pub open spec fn handed_out(self) -> Seq<Seq<u8>> {
        match self.last_index {
            Some(index) => if index < self.scripts.len() {
                self.scripts.take(index + 1)
            } else {
                self.scripts
            },
            None => Seq::empty(),
        }
    }

    /// Every script handed out has the form of an address, and what it holds fits in 64 bits.
    pub open spec fn in_range(self) -> bool {
        forall|i: int|
            0 <= i < self.handed_out().len() ==> {
                &&& script_payload(#[trigger] self.handed_out()[i]) is Some
                &&& value_at(self.utxos, self.handed_out()[i]) <= u64::MAX
            }
    }

    /// The scripts that are listed: with `hide_zeros` only those that hold something, with `unused`
    /// only those that no transaction pays to.
    pub open spec fn is_listed(self, hide_zeros: bool, unused: bool) -> spec_fn(Seq<u8>) -> bool {
        |script: Seq<u8>|
            {
                &&& unused ==> !is_used(self.transactions, script)
                &&& hide_zeros ==> value_at(self.utxos, script) != 0
            }
    }

    /// The row of a script.
    pub open spec fn row(self, network: Network) -> spec_fn(Seq<u8>) -> Seq<CellView> {
        |script: Seq<u8>|
            seq![
                CellView::String(address_text(script_payload(script)->0, network)),
                CellView::Amount(value_at(self.utxos, script)),
                CellView::Int(count_at(self.utxos, script)),
                CellView::String(keychain_name(self.keychain)),
            ]
    }

    /// The scripts handed out that are listed, the one handed out first first.
    pub open spec fn kept(self, hide_zeros: bool, unused: bool) -> Seq<Seq<u8>> {
        self.handed_out().filter(self.is_listed(hide_zeros, unused))
    }

    /// The script handed out first of those that no transaction pays to.
    pub open spec fn first_unused(self) -> Option<Seq<u8>> {
        let unused = self.kept(false, true);
        if unused.len() > 0 {
            Some(unused[0])
        } else {
            None
        }
    }

    /// The rows of the key chain, the address handed out last first.
    pub open spec fn rows(self, network: Network, hide_zeros: bool, unused: bool) -> Seq<
        Seq<CellView>,
    > {
        self.kept(hide_zeros, unused).map_values(self.row(network)).reverse()
    }
}

/// The number of scripts that have been handed out.
fn handed_out_len(data: &KeychainData) -> (n: usize)
    ensures
        n <= data.scripts@.len(),
        data@.handed_out() == data@.scripts.take(n as int),
{
    let n: usize = match data.last_index {
        Some(index) => if (index as usize) < data.scripts.len() {
            index as usize + 1
        } else {
            data.scripts.len()
        },
        None => 0,
    };
    assert(data@.handed_out() =~= data@.scripts.take(n as int));
    n
}

/// What a script holds: the value, where it fits, and the number of unspent outputs.
fn holdings(index: &UtxoIndex, Ghost(utxos): Ghost<Seq<LocalUtxoView>>, script: &Script) -> (held: (
    Option<Amount>,
    usize,
))
    requires
        index.well_formed(),
        index@ == by_script(utxos),
    ensures
        held.0 is Some <==> value_at(utxos, script@) <= u64::MAX,
        held.0 matches Some(a) ==> a.sat == value_at(utxos, script@),
        held.1 == count_at(utxos, script@),
{
    match index.get(script) {
        Some(found) => (checked_total(found), found.len()),
        None => {
            proof {
                lemma_nothing_pays(utxos, script@);
            }
            (Some(Amount::from_sat(0)), 0)
        },
    }
}

fn tx_pays_to(tx: &Transaction, script: &Script) -> (r: bool)
    ensures
        r == some_pays_to(tx@, script@),
{
    let mut j: usize = 0;
    while j < tx.output.len()
        invariant
            j <= tx.output.len(),
            forall|k: int| 0 <= k < j ==> tx.output@[k].script_pubkey@ != script@,
        decreases tx.output.len() - j,
    {
        if tx.output[j].script_pubkey.same(script) {
            assert(tx@[j as int].script_pubkey == script@);
            return true;
        }
        j += 1;
    }
    false
}

fn script_is_used(txs: &Vec<TransactionDetails>, script: &Script) -> (r: bool)
    ensures
        r == is_used(tx_views(txs@), script@),
{
    let ghost views = tx_views(txs@);
    let mut i: usize = 0;
    while i < txs.len()
        invariant
            i <= txs.len(),
            views == tx_views(txs@),
            forall|k: int|
                0 <= k < i ==> !((#[trigger] views[k]).transaction is Some && some_pays_to(
                    views[k].transaction->0,
                    script@,
                )),
        decreases txs.len() - i,
    {
        match &txs[i].transaction {
            Some(tx) => {
                assert(views[i as int].transaction == Some(tx@));
                if tx_pays_to(tx, script) {
                    return true;
                }
            },
            None => {},
        }
        i += 1;
    }
    false
}

/// Whether the addresses of the key chain can be listed: see [`KeychainDataView::in_range`].
pub fn keychain_in_range(data: &KeychainData) -> (r: bool)
    ensures
        r == data@.in_range(),
{
    let index = index_utxos(&data.utxos);
    let n: usize = handed_out_len(data);
    let mut i: usize = 0;
    while i < n
        invariant
            i <= n <= data.scripts@.len(),
            data@.handed_out() == data@.scripts.take(n as int),
            index.well_formed(),
            index@ == by_script(data@.utxos),
            forall|j: int|
                0 <= j < i ==> {
                    &&& script_payload(#[trigger] data@.handed_out()[j]) is Some
                    &&& value_at(data@.utxos, data@.handed_out()[j]) <= u64::MAX
                },
        decreases n - i,
    {
        let script = &data.scripts[i];
        assert(data@.handed_out()[i as int] == script@);
        let held = holdings(&index, Ghost(data@.utxos), script);
        if address_from_script(script, Network::Bitcoin).is_none() || held.0.is_none() {
            return false;
        }
        i += 1;
    }
    true
}

/// Lists the addresses of a key chain, the one handed out last first.
pub fn list_keychain_addresses(
    data: &KeychainData,
    network: Network,
    hide_zeros: bool,
    unused: bool,
) -> (rows: Vec<Vec<Cell>>)
    requires
        data@.in_range(),
    ensures
        rows_view(rows@) == data@.rows(network, hide_zeros, unused),
{
    let index = index_utxos(&data.utxos);
    let n: usize = handed_out_len(data);
    let ghost scripts = data@.handed_out();
    let ghost listed = data@.is_listed(hide_zeros, unused);
    let ghost row = data@.row(network);
    let mut rows: Vec<Vec<Cell>> = Vec::new();
    let mut i: usize = n;
    proof {
        reveal(Seq::filter);
        assert(scripts.skip(n as int) =~= Seq::empty());
        assert(rows_view(rows@) =~= scripts.skip(n as int).filter(listed).map_values(
            row,
        ).reverse());
    }
    while i > 0
        invariant
            i <= n <= data.scripts@.len(),
            scripts == data@.handed_out(),
            scripts == data@.scripts.take(n as int),
            listed == data@.is_listed(hide_zeros, unused),
            row == data@.row(network),
            data@.in_range(),
            index.well_formed(),
            index@ == by_script(data@.utxos),
            rows_view(rows@) == scripts.skip(i as int).filter(listed).map_values(row).reverse(),
        decreases i,
    {
        i -= 1;
        let script = &data.scripts[i];
        assert(scripts[i as int] == script@);
        let address = address_from_script(script, network).unwrap();
        let held = holdings(&index, Ghost(data@.utxos), script);
        let value = held.0.unwrap();
        let ghost before = rows@;
        proof {
            script_address_writes_back(script@);
            lemma_filter_front(scripts, listed, i as int);
        }
        let address_used = script_is_used(&data.transactions, script);
        if !(unused && address_used) && !(hide_zeros && value.as_sat() == 0) {
            let cells = vec![
                Cell::String(address_string(&address)),
                Cell::Amount(value),
                Cell::Int(held.1 as u64),
                keychain_cell(data.keychain),
            ];
            assert(row_view(cells@) =~= row(script@));
            rows.push(cells);
            proof {
                let rest = scripts.skip(i + 1).filter(listed);
                assert((seq![script@] + rest).map_values(row).reverse() =~= rest.map_values(
                    row,
                ).reverse().push(row(script@)));
                assert(rows_view(rows@) =~= rows_view(before).push(row(script@)));
            }
        }
    }
    proof {
        assert(scripts.skip(0) =~= scripts);
    }
    rows
}

/// The first of a list comes first in what is kept of it, or is not kept.
proof fn lemma_filter_front(scripts: Seq<Seq<u8>>, listed: spec_fn(Seq<u8>) -> bool, i: int)
    requires
        0 <= i < scripts.len(),
    ensures
        scripts.skip(i).filter(listed) == if listed(scripts[i]) {
            seq![scripts[i]] + scripts.skip(i + 1).filter(listed)
        } else {
            scripts.skip(i + 1).filter(listed)
        },
{
    let one = seq![scripts[i]];
    assert(scripts.skip(i) =~= one + scripts.skip(i + 1));
    Seq::filter_distributes_over_add(one, scripts.skip(i + 1), listed);
    reveal_with_fuel(Seq::filter, 2);
    assert(one.drop_last() =~= Seq::empty());
    assert(one.filter(listed) =~= if listed(scripts[i]) {
        one
    } else {
        Seq::empty()
    });
    assert(Seq::<Seq<u8>>::empty() + scripts.skip(i + 1).filter(listed) =~= scripts.skip(
        i + 1,
    ).filter(listed));
}

/// Finds the script handed out first of those that no transaction pays to.
pub fn find_unused(data: &KeychainData) -> (found: Option<usize>)
    ensures
        match found {
            Some(i) => {
                &&& i < data@.handed_out().len() <= data.scripts@.len()
                &&& data@.handed_out()[i as int] == data.scripts@[i as int]@
                &&& data@.first_unused() == Some(data@.handed_out()[i as int])
                &&& !is_used(data@.transactions, data@.handed_out()[i as int])
                &&& forall|j: int|
                    0 <= j < i ==> is_used(data@.transactions, #[trigger] data@.handed_out()[j])
            },
            None => {
                &&& data@.first_unused() is None
                &&& forall|j: int|
                    0 <= j < data@.handed_out().len() ==> is_used(
                        data@.transactions,
                        #[trigger] data@.handed_out()[j],
                    )
            },
        },
{
    let n: usize = handed_out_len(data);
    let ghost scripts = data@.handed_out();
    let mut i: usize = 0;
    while i < n
        invariant
            i <= n <= data.scripts@.len(),
            scripts == data@.handed_out(),
            scripts == data@.scripts.take(n as int),
            forall|j: int| 0 <= j < i ==> is_used(data@.transactions, #[trigger] scripts[j]),
        decreases n - i,
    {
        let script = &data.scripts[i];
        assert(scripts[i as int] == script@);
        if !script_is_used(&data.transactions, script) {
            proof {
                first_unused_is_first(data@, i as int);
            }
            return Some(i);
        }
        i += 1;
    }
    proof {
        none_unused_where_all_are_used(data@);
    }
    None
}

/// What has to be read from the wallet before a command on addresses can be answered.
#[derive(Debug, PartialEq, Eq)]
pub enum AddressQuery {
    /// Derive a new address of the external key chain.
    New,
    /// Read this key chain and, if every address handed out is used, derive a new one.
    Unused(KeychainKind),
    /// Read these key chains, in this order.
    Keychains(Vec<KeychainKind>),
    /// Look up a script.
    Script(Script),
}

/// The mathematical value of an [`AddressQuery`].
pub enum AddressQueryView {
    New,
    Unused(KeychainKind),
    Keychains(Seq<KeychainKind>),
    Script(Seq<u8>),
}

impl View for AddressQuery {
    type V = AddressQueryView;

    open spec fn view(&self) -> AddressQueryView {
        match self {
            AddressQuery::New => AddressQueryView::New,
            AddressQuery::Unused(keychain) => AddressQueryView::Unused(*keychain),
            AddressQuery::Keychains(keychains) => AddressQueryView::Keychains(keychains@),
            AddressQuery::Script(script) => AddressQueryView::Script(script@),
        }
    }
}

/// What the wallet knows of a script.
#[derive(Debug, PartialEq, Eq)]
pub struct ScriptData {
    /// The text of the descriptor that the script derives from, if it is the wallet's.
    pub descriptor: Option<String>,
    /// The key chain that the script belongs to, if it is the wallet's.
    pub keychain: Option<KeychainKind>,
    /// All unspent outputs of the wallet.
    pub utxos: Vec<LocalUtxo>,
}

/// The mathematical value of a [`ScriptData`].
pub struct ScriptDataView {
    pub descriptor: Option<Seq<char>>,
    pub keychain: Option<KeychainKind>,
    pub utxos: Seq<LocalUtxoView>,
}

impl View for ScriptData {
    type V = ScriptDataView;

    open spec fn view(&self) -> ScriptDataView {
        ScriptDataView {
            descriptor: match self.descriptor {
                Some(text) => Some(text@),
                None => None,
            },
            keychain: self.keychain,
            utxos: utxo_views(self.utxos@),
        }
    }
}

/// What was read from the wallet.
#[derive(Debug, PartialEq, Eq)]
pub enum AddressData {
    /// The address that was derived.
    Derived(Address),
    /// The key chain that was read, and the new address if every one handed out is used.
    Unused { read: KeychainData, fresh: Option<Address> },
    /// The key chains that were read.
    Keychains(Vec<KeychainData>),
    /// The script that was looked up.
    Script(ScriptData),
}

/// The key chains that are listed, in their order. `all` prevails over `internal`.
pub open spec fn listed_keychains(internal: bool, all: bool) -> Seq<KeychainKind> {
    if all {
        seq![KeychainKind::External, KeychainKind::Internal]
    } else if internal {
        seq![KeychainKind::Internal]
    } else {
        seq![KeychainKind::External]
    }
}

/// What has to be read to answer a command.
pub open spec fn query_of(opt: AddressOpt) -> AddressQueryView {
    match opt {
        AddressOpt::New => AddressQueryView::New,
        AddressOpt::LastUnused => AddressQueryView::Unused(KeychainKind::External),
        AddressOpt::List { all, internal, .. } => AddressQueryView::Keychains(
            listed_keychains(internal, all),
        ),
        AddressOpt::Show { address } => AddressQueryView::Script(payload_script(address.payload@)),
    }
}

/// The data is of the kind that the query asks for, with a new address only where every one handed
/// out is used. What becomes an address has the form of one, and sums formed of it fit in 64 bits.
pub open spec fn answers(query: AddressQueryView, data: AddressData) -> bool {
    match (query, data) {
        (AddressQueryView::New, AddressData::Derived(address)) => address.well_formed(),
        (AddressQueryView::Unused(kind), AddressData::Unused { read, fresh }) => {
            &&& read.keychain == kind
            &&& match read@.first_unused() {
                Some(script) => script_payload(script) is Some && fresh is None,
                None => fresh is Some && fresh->0.well_formed(),
            }
        },
        (AddressQueryView::Keychains(kinds), AddressData::Keychains(read)) => {
            &&& read@.len() == kinds.len()
            &&& forall|i: int|
                0 <= i < kinds.len() ==> (#[trigger] read@[i]).keychain == kinds[i]
                    && read@[i]@.in_range()
        },
        (AddressQueryView::Script(script), AddressData::Script(read)) => value_at(
            read@.utxos,
            script,
        ) <= u64::MAX,
        _ => false,
    }
}

/// The rows of key chains, one key chain after the other.
pub open spec fn rows_of(
    read: Seq<KeychainData>,
    network: Network,
    hide_zeros: bool,
    unused: bool,
) -> Seq<Seq<CellView>>
    decreases read.len(),
{
    if read.len() == 0 {
        Seq::empty()
    } else {
        rows_of(read.drop_last(), network, hide_zeros, unused) + read.last()@.rows(
            network,
            hide_zeros,
            unused,
        )
    }
}

/// The header of the list of addresses.
pub open spec fn address_columns() -> Seq<Seq<char>> {
    seq!["address"@, "value"@, "utxos"@, "keychain"@]
}

/// The details of an address that pays to `payload`.
pub open spec fn address_item(payload: PayloadView, read: ScriptDataView) -> CmdOutputView {
    let script = payload_script(payload);
    CmdOutputView::Item(
        seq![
            ("value"@, CellView::Amount(value_at(read.utxos, script))),
            ("n-utxos"@, CellView::Int(count_at(read.utxos, script))),
            ("script-pubkey"@, CellView::String(asm_text(script))),
            ("output-descriptor"@, text_or_empty(read.descriptor)),
            (
                "keychain"@,
                match read.keychain {
                    Some(keychain) => CellView::String(keychain_name(keychain)),
                    None => CellView::Empty,
                },
            ),
        ],
    )
}

/// An address as the answer proper.
pub open spec fn emphasised(text: Seq<char>) -> CmdOutputView {
    CmdOutputView::EmphasisedItem {
        main: ("address"@, CellView::String(text)),
        other: Seq::empty(),
    }
}

/// The answer to a command on addresses.
pub open spec fn address_answer(opt: AddressOpt, network: Network, data: AddressData) -> CmdOutputView {
    match opt {
        AddressOpt::New => emphasised(
            address_text(data->Derived_0.payload@, data->Derived_0.network),
        ),
        AddressOpt::LastUnused => emphasised(
            match data->read@.first_unused() {
                Some(script) => address_text(script_payload(script)->0, network),
                None => address_text(data->fresh->0.payload@, data->fresh->0.network),
            },
        ),
        AddressOpt::List { hide_zeros, unused, .. } => CmdOutputView::Table {
            col_names: address_columns(),
            rows: rows_of(data->Keychains_0@, network, hide_zeros, unused),
        },
        AddressOpt::Show { address } => address_item(address.payload@, data->Script_0@),
    }
}

/// What has to be read from the wallet to answer `opt`.
pub fn address_query(opt: &AddressOpt) -> (query: AddressQuery)
    requires
        opt matches AddressOpt::Show { address } ==> address.well_formed(),
    ensures
        query@ == query_of(*opt),
{
    match opt {
        AddressOpt::New => AddressQuery::New,
        AddressOpt::LastUnused => AddressQuery::Unused(KeychainKind::External),
        AddressOpt::List { all, internal, .. } => {
            let keychains = match (*internal, *all) {
                (_, true) => vec![KeychainKind::External, KeychainKind::Internal],
                (true, false) => vec![KeychainKind::Internal],
                _ => vec![KeychainKind::External],
            };
            assert(keychains@ =~= listed_keychains(*internal, *all));
            AddressQuery::Keychains(keychains)
        },
        AddressOpt::Show { address } => AddressQuery::Script(script_pubkey(address)),
    }
}

/// Gives an address as the answer proper.
fn emphasise(address: &Address) -> (output: CmdOutput)
    requires
        address.well_formed(),
    ensures
        output@ == emphasised(address_text(address.payload@, address.network)),
{
    let other: Vec<(&'static str, Cell)> = Vec::new();
    assert(fields_view(other@) =~= Seq::empty());
    CmdOutput::EmphasisedItem { main: ("address", Cell::String(address_string(address))), other }
}

/// Hands out an address, lists addresses, or shows one, given what was read for it.
pub fn get_address(opt: &AddressOpt, network: Network, data: &AddressData) -> (output: CmdOutput)
    requires
        opt matches AddressOpt::Show { address } ==> address.well_formed(),
        answers(query_of(*opt), *data),
    ensures
        output@ == address_answer(*opt, network, *data),
{
    match (opt, data) {
        (AddressOpt::List { hide_zeros, unused, .. }, AddressData::Keychains(read)) => {
            let mut rows: Vec<Vec<Cell>> = Vec::new();
            let mut i: usize = 0;
            assert(rows_view(rows@) =~= rows_of(read@.take(0), network, *hide_zeros, *unused));
            while i < read.len()
                invariant
                    i <= read.len(),
                    forall|j: int| 0 <= j < read@.len() ==> (#[trigger] read@[j])@.in_range(),
                    rows_view(rows@) == rows_of(
                        read@.take(i as int),
                        network,
                        *hide_zeros,
                        *unused,
                    ),
                decreases read.len() - i,
            {
                let mut keychain_rows = list_keychain_addresses(
                    &read[i],
                    network,
                    *hide_zeros,
                    *unused,
                );
                let ghost before = rows@;
                let ghost more = keychain_rows@;
                rows.append(&mut keychain_rows);
                proof {
                    assert(rows_view(rows@) =~= rows_view(before) + rows_view(more));
                    assert(read@.take(i + 1).drop_last() =~= read@.take(i as int));
                }
                i += 1;
            }
            let col_names = vec!["address", "value", "utxos", "keychain"];
            proof {
                assert(read@.take(read@.len() as int) =~= read@);
                assert(names_view(col_names@) =~= address_columns());
            }
            CmdOutput::Table { col_names, rows }
        },
        (AddressOpt::Show { address }, AddressData::Script(read)) => {
            let script = script_pubkey(address);
            let index = index_utxos(&read.utxos);
            let held = holdings(&index, Ghost(read@.utxos), &script);
            let fields = vec![
                ("value", Cell::Amount(held.0.unwrap())),
                ("n-utxos", Cell::Int(held.1 as u64)),
                ("script-pubkey", Cell::String(asm_string(&script))),
                (
                    "output-descriptor",
                    match &read.descriptor {
                        Some(text) => Cell::String(text.clone()),
                        None => Cell::Empty,
                    },
                ),
                (
                    "keychain",
                    match read.keychain {
                        Some(keychain) => keychain_cell(keychain),
                        None => Cell::Empty,
                    },
                ),
            ];
            assert(fields_view(fields@) =~= address_item(address.payload@, read@)->Item_0);
            CmdOutput::Item(fields)
        },
        (AddressOpt::New, AddressData::Derived(address)) => emphasise(address),
        (AddressOpt::LastUnused, AddressData::Unused { read, fresh }) => match find_unused(read) {
            Some(i) => {
                proof {
                    script_address_writes_back(read.scripts@[i as int]@);
                }
                emphasise(&address_from_script(&read.scripts[i], network).unwrap())
            },
            None => match fresh {
                Some(address) => emphasise(address),
                None => vstd::pervasive::unreached(),
            },
        },
        _ => vstd::pervasive::unreached(),
    }
}

/// Whether `data` is what has to be read to answer `opt`: see [`answers`].
pub fn can_answer(opt: &AddressOpt, data: &AddressData) -> (r: bool)
    ensures
        r == {
            &&& opt matches AddressOpt::Show { address } ==> address.well_formed()
            &&& answers(query_of(*opt), *data)
        },
{
    match (opt, data) {
        (AddressOpt::New, AddressData::Derived(address)) => address.is_well_formed(),
        (AddressOpt::LastUnused, AddressData::Unused { read, fresh }) => {
            read.keychain == KeychainKind::External && match (find_unused(read), fresh) {
                (Some(i), None) => address_from_script(
                    &read.scripts[i],
                    Network::Bitcoin,
                ).is_some(),
                (None, Some(address)) => address.is_well_formed(),
                _ => false,
            }
        },
        (AddressOpt::List { all, internal, .. }, AddressData::Keychains(read)) => {
            let first = if *internal && !*all {
                KeychainKind::Internal
            } else {
                KeychainKind::External
            };
            let n: usize = if *all {
                2
            } else {
                1
            };
            read.len() == n && read[0].keychain == first && keychain_in_range(&read[0]) && (n == 1
                || (read[1].keychain == KeychainKind::Internal && keychain_in_range(&read[1])))
        },
        (AddressOpt::Show { address }, AddressData::Script(read)) => {
            if !address.is_well_formed() {
                return false;
            }
            let script = script_pubkey(address);
            let index = index_utxos(&read.utxos);
            holdings(&index, Ghost(read@.utxos), &script).0.is_some()
        },
        _ => false,
    }
}

/// Each row of the list has a cell for each column.
pub proof fn address_row_fits_columns(data: KeychainDataView, network: Network, script: Seq<u8>)
    ensures
        data.row(network)(script).len() == address_columns().len(),
{
}

/// An address that is shown has the value and the number of outputs that its row in the list has,
/// and the same key chain if the wallet finds it in the one that is listed.
pub proof fn shown_address_agrees_with_list(
    data: KeychainDataView,
    network: Network,
    script: Seq<u8>,
    read: ScriptDataView,
)
    requires
        script_payload(script) is Some,
        read.utxos == data.utxos,
    ensures
        address_item(script_payload(script)->0, read)->Item_0[0].1 == data.row(network)(script)[1],
        address_item(script_payload(script)->0, read)->Item_0[1].1 == data.row(network)(script)[2],
        read.keychain == Some(data.keychain) ==> address_item(
            script_payload(script)->0,
            read,
        )->Item_0[4].1 == data.row(network)(script)[3],
{
    script_address_writes_back(script);
}

/// Without filters the list has one row for each address handed out, and the address handed out
/// last comes first.
pub proof fn unfiltered_list_is_reversed(data: KeychainDataView, network: Network, i: int)
    requires
        0 <= i < data.handed_out().len(),
    ensures
        data.rows(network, false, false).len() == data.handed_out().len(),
        data.rows(network, false, false)[i] == data.row(network)(
            data.handed_out()[data.handed_out().len() - 1 - i],
        ),
{
    lemma_filter_keeps_all(data.handed_out(), data.is_listed(false, false));
}

proof fn lemma_filter_keeps_all(scripts: Seq<Seq<u8>>, pred: spec_fn(Seq<u8>) -> bool)
    requires
        forall|s: Seq<u8>| #[trigger] pred(s),
    ensures
        scripts.filter(pred) == scripts,
    decreases scripts.len(),
{
    reveal(Seq::filter);
    if scripts.len() > 0 {
        lemma_filter_keeps_all(scripts.drop_last(), pred);
        assert(scripts.drop_last().push(scripts.last()) =~= scripts);
    }
}

/// Every row of a filtered list is the row of an address handed out that passes the filters.
pub proof fn listed_row_passes_filters(
    data: KeychainDataView,
    network: Network,
    hide_zeros: bool,
    unused: bool,
    i: int,
) -> (script: Seq<u8>)
    requires
        0 <= i < data.rows(network, hide_zeros, unused).len(),
    ensures
        data.handed_out().contains(script),
        data.rows(network, hide_zeros, unused)[i] == data.row(network)(script),
        unused ==> !is_used(data.transactions, script),
        hide_zeros ==> value_at(data.utxos, script) != 0,
{
    broadcast use vstd::seq_lib::group_filter_ensures;

    let listed = data.is_listed(hide_zeros, unused);
    let kept = data.handed_out().filter(listed);
    let script = kept[kept.len() - 1 - i];
    assert(listed(script));
    lemma_filter_from(data.handed_out(), listed, kept.len() - 1 - i);
    script
}

proof fn lemma_filter_from(scripts: Seq<Seq<u8>>, pred: spec_fn(Seq<u8>) -> bool, i: int)
    requires
        0 <= i < scripts.filter(pred).len(),
    ensures
        scripts.contains(scripts.filter(pred)[i]),
    decreases scripts.len(),
{
    reveal(Seq::filter);
    if scripts.len() > 0 {
        let rest = scripts.drop_last();
        if i < rest.filter(pred).len() {
            lemma_filter_from(rest, pred, i);
            let k = choose|k: int| 0 <= k < rest.len() && rest[k] == rest.filter(pred)[i];
            assert(scripts[k] == scripts.filter(pred)[i]);
        } else {
            assert(scripts[scripts.len() - 1] == scripts.filter(pred)[i]);
        }
    }
}

/// Every address handed out that passes the filters has a row in the list.
pub proof fn passing_address_is_listed(
    data: KeychainDataView,
    network: Network,
    hide_zeros: bool,
    unused: bool,
    k: int,
) -> (i: int)
    requires
        0 <= k < data.handed_out().len(),
        unused ==> !is_used(data.transactions, data.handed_out()[k]),
        hide_zeros ==> value_at(data.utxos, data.handed_out()[k]) != 0,
    ensures
        0 <= i < data.rows(network, hide_zeros, unused).len(),
        data.rows(network, hide_zeros, unused)[i] == data.row(network)(data.handed_out()[k]),
{
    broadcast use vstd::seq_lib::group_filter_ensures;

    let listed = data.is_listed(hide_zeros, unused);
    let kept = data.handed_out().filter(listed);
    assert(listed(data.handed_out()[k]));
    assert(kept.contains(data.handed_out()[k]));
    let j = choose|j: int| 0 <= j < kept.len() && kept[j] == data.handed_out()[k];
    kept.len() - 1 - j
}

/// A script handed out that no transaction pays to, while some pay to each one handed out before it,
/// is the first of the unused ones.
pub proof fn first_unused_is_first(data: KeychainDataView, i: int)
    requires
        0 <= i < data.handed_out().len(),
        !is_used(data.transactions, data.handed_out()[i]),
        forall|j: int| 0 <= j < i ==> is_used(data.transactions, #[trigger] data.handed_out()[j]),
    ensures
        data.first_unused() == Some(data.handed_out()[i]),
{
    let scripts = data.handed_out();
    lemma_used_front(data, i);
    lemma_filter_front(scripts, data.is_listed(false, true), i);
}

/// There is no first of the unused ones if and only if every script handed out is used.
pub proof fn none_unused_where_all_are_used(data: KeychainDataView)
    ensures
        data.first_unused() is None <==> forall|j: int|
            0 <= j < data.handed_out().len() ==> is_used(
                data.transactions,
                #[trigger] data.handed_out()[j],
            ),
{
    let scripts = data.handed_out();
    if forall|j: int|
        0 <= j < scripts.len() ==> is_used(data.transactions, #[trigger] scripts[j]) {
        lemma_used_front(data, scripts.len() as int);
        reveal(Seq::filter);
        assert(scripts.skip(scripts.len() as int) =~= Seq::empty());
    } else {
        let j = choose|j: int|
            0 <= j < scripts.len() && !is_used(data.transactions, #[trigger] scripts[j]);
        lemma_kept_scripts(data, false, true, scripts[j]);
    }
}

/// Used scripts at the front add nothing to the unused ones.
proof fn lemma_used_front(data: KeychainDataView, i: int)
    requires
        0 <= i <= data.handed_out().len(),
        forall|j: int| 0 <= j < i ==> is_used(data.transactions, #[trigger] data.handed_out()[j]),
    ensures
        data.handed_out().skip(i).filter(data.is_listed(false, true)) == data.kept(false, true),
    decreases i,
{
    if i == 0 {
        assert(data.handed_out().skip(0) =~= data.handed_out());
    } else {
        lemma_used_front(data, i - 1);
        lemma_filter_front(data.handed_out(), data.is_listed(false, true), i - 1);
    }
}

/// The address of the script that is first of the unused ones comes last in the list of unused
/// addresses, and there is none only where that list is empty.
pub proof fn first_unused_is_listed_last(data: KeychainDataView, network: Network)
    ensures
        data.first_unused() is None <==> data.rows(network, false, true).len() == 0,
        data.first_unused() matches Some(script) ==> data.rows(network, false, true).last()
            == data.row(network)(script),
{
}

/// Asking for an unused address does not use one up: while no transaction comes, asking again gives
/// the same address, and no new one is derived for it. That is so whatever has been handed out after
/// it, and whether the address was handed out before or was derived for the first answer, for the
/// wallet's network and with nothing paid to it. The address given is handed out and unused.
pub proof fn unused_address_stays_the_answer(
    network: Network,
    first: AddressData,
    second: AddressData,
)
    requires
        answers(query_of(AddressOpt::LastUnused), first),
        answers(query_of(AddressOpt::LastUnused), second),
        second->read@.transactions == first->read@.transactions,
        match first->fresh {
            None => first->read@.handed_out().is_prefix_of(second->read@.handed_out()),
            Some(address) => {
                let script = payload_script(address.payload@);
                &&& first->read@.handed_out().push(script).is_prefix_of(second->read@.handed_out())
                &&& !is_used(first->read@.transactions, script)
                &&& address.network == network
            },
        },
    ensures
        address_answer(AddressOpt::LastUnused, network, second) == address_answer(
            AddressOpt::LastUnused,
            network,
            first,
        ),
        second->fresh is None,
        second->read@.first_unused() matches Some(script) && {
            &&& second->read@.handed_out().contains(script)
            &&& !is_used(second->read@.transactions, script)
            &&& address_answer(AddressOpt::LastUnused, network, second) == emphasised(
                address_text(script_payload(script)->0, network),
            )
        },
{
    let (a, b) = (first->read@, second->read@);
    let unused = a.is_listed(false, true);
    assert(b.is_listed(false, true) =~= unused);
    let known = match first->fresh {
        None => a.handed_out(),
        Some(address) => {
            let script = payload_script(address.payload@);
            address_script_reads_back(address.payload@);
            reveal(Seq::filter);
            assert(a.handed_out().push(script).drop_last() =~= a.handed_out());
            a.handed_out().push(script)
        },
    };
    assert(known.filter(unused).len() > 0);
    let rest = b.handed_out().skip(known.len() as int);
    assert(b.handed_out() =~= known + rest);
    Seq::filter_distributes_over_add(known, rest, unused);
    assert(b.kept(false, true)[0] == known.filter(unused)[0]);
    lemma_kept_scripts(b, false, true, b.kept(false, true)[0]);
}

/// `part` holds the items of `whole` at the places `at`, in the order of `whole`.
pub open spec fn picks<A>(part: Seq<A>, whole: Seq<A>, at: Seq<int>) -> bool {
    &&& at.len() == part.len()
    &&& forall|k: int|
        0 <= k < at.len() ==> 0 <= #[trigger] at[k] < whole.len() && part[k] == whole[at[k]]
    &&& forall|j: int, k: int| 0 <= j < k < at.len() ==> #[trigger] at[j] < #[trigger] at[k]
}

/// `part` is `whole` with some items left out.
pub open spec fn is_subsequence<A>(part: Seq<A>, whole: Seq<A>) -> bool {
    exists|at: Seq<int>| picks(part, whole, at)
}

/// The values in the rows of a list, added up.
pub open spec fn column_total(rows: Seq<Seq<CellView>>) -> nat
    decreases rows.len(),
{
    if rows.len() == 0 {
        0
    } else {
        rows[0][1]->Amount_0 + column_total(rows.drop_first())
    }
}

/// The filters only leave rows out: what is listed is a subsequence of what is listed without
/// filters, row for row, and comes from a subsequence of the scripts handed out. A script, and a row,
/// is kept under both filters if and only if it is kept under each. Hiding addresses that hold
/// nothing keeps the total value, which is that of the scripts kept.
pub proof fn filtered_lists_agree(
    data: KeychainDataView,
    network: Network,
    hide_zeros: bool,
    unused: bool,
)
    ensures
        is_subsequence(data.kept(hide_zeros, unused), data.handed_out()),
        is_subsequence(
            data.rows(network, hide_zeros, unused),
            data.rows(network, false, false),
        ),
        forall|script: Seq<u8>| #[trigger]
            data.kept(true, true).contains(script) <==> data.kept(true, false).contains(script)
                && data.kept(false, true).contains(script),
        forall|row: Seq<CellView>| #[trigger]
            data.rows(network, true, true).contains(row) <==> data.rows(
                network,
                true,
                false,
            ).contains(row) && data.rows(network, false, true).contains(row),
        column_total(data.rows(network, hide_zeros, unused)) == sum_of_values(
            data.utxos,
            data.kept(hide_zeros, unused),
        ),
        column_total(data.rows(network, true, unused)) == column_total(
            data.rows(network, false, unused),
        ),
{
    let whole = data.handed_out();
    let at = lemma_filter_picks(whole, data.is_listed(hide_zeros, unused));
    lemma_filter_keeps_all(whole, data.is_listed(false, false));
    let mirrored = Seq::new(at.len(), |k: int| whole.len() - 1 - at[at.len() - 1 - k]);
    assert(picks(
        data.rows(network, hide_zeros, unused),
        data.rows(network, false, false),
        mirrored,
    ));
    assert forall|script: Seq<u8>| #[trigger]
        data.kept(true, true).contains(script) <==> data.kept(true, false).contains(script)
            && data.kept(false, true).contains(script) by {
        lemma_kept_scripts(data, true, true, script);
        lemma_kept_scripts(data, true, false, script);
        lemma_kept_scripts(data, false, true, script);
    }
    assert forall|cells: Seq<CellView>| #[trigger]
        data.rows(network, true, true).contains(cells) <==> data.rows(
            network,
            true,
            false,
        ).contains(cells) && data.rows(network, false, true).contains(cells) by {
        lemma_both_filters(data, network, cells);
    }
    lemma_column_total(data, network, data.kept(hide_zeros, unused));
    lemma_column_total(data, network, data.kept(true, unused));
    lemma_column_total(data, network, data.kept(false, unused));
    lemma_zeros_add_nothing(data, whole, unused);
}

/// Filtering picks items in their order, and picks each that passes.
pub proof fn lemma_filter_picks<A>(scripts: Seq<A>, pred: spec_fn(A) -> bool) -> (at: Seq<int>)
    ensures
        picks(scripts.filter(pred), scripts, at),
        forall|k: int| 0 <= k < at.len() ==> pred(scripts[#[trigger] at[k]]),
        forall|i: int|
            0 <= i < scripts.len() && pred(#[trigger] scripts[i]) ==> exists|k: int|
                0 <= k < at.len() && #[trigger] at[k] == i,
    decreases scripts.len(),
{
    reveal(Seq::filter);
    if scripts.len() == 0 {
        Seq::empty()
    } else {
        let rest = scripts.drop_last();
        let before = lemma_filter_picks(rest, pred);
        let at = if pred(scripts.last()) {
            before.push(scripts.len() - 1)
        } else {
            before
        };
        assert forall|k: int| 0 <= k < at.len() implies pred(scripts[#[trigger] at[k]]) by {
            if k < before.len() {
                assert(at[k] == before[k]);
                assert(rest[before[k]] == scripts[at[k]]);
            }
        }
        assert forall|i: int| 0 <= i < scripts.len() && pred(#[trigger] scripts[i]) implies (
        exists|k: int| 0 <= k < at.len() && #[trigger] at[k] == i) by {
            if i < rest.len() {
                assert(rest[i] == scripts[i]);
                let k = choose|k: int| 0 <= k < before.len() && #[trigger] before[k] == i;
                assert(at[k] == i);
            } else {
                assert(at[at.len() - 1] == i);
            }
        }
        at
    }
}

proof fn lemma_kept_scripts(
    data: KeychainDataView,
    hide_zeros: bool,
    unused: bool,
    script: Seq<u8>,
)
    ensures
        data.kept(hide_zeros, unused).contains(script) <==> data.handed_out().contains(script)
            && data.is_listed(hide_zeros, unused)(script),
{
    broadcast use vstd::seq_lib::group_filter_ensures;

    let listed = data.is_listed(hide_zeros, unused);
    let kept = data.kept(hide_zeros, unused);
    if kept.contains(script) {
        let k = choose|k: int| 0 <= k < kept.len() && kept[k] == script;
        lemma_filter_from(data.handed_out(), listed, k);
        assert(listed(kept[k]));
    }
    if data.handed_out().contains(script) && listed(script) {
        let k = choose|k: int| 0 <= k < data.handed_out().len() && data.handed_out()[k] == script;
        assert(listed(data.handed_out()[k]));
    }
}

proof fn lemma_listed_row(
    data: KeychainDataView,
    network: Network,
    hide_zeros: bool,
    unused: bool,
    script: Seq<u8>,
)
    requires
        data.kept(hide_zeros, unused).contains(script),
    ensures
        data.rows(network, hide_zeros, unused).contains(data.row(network)(script)),
{
    let kept = data.kept(hide_zeros, unused);
    let k = choose|k: int| 0 <= k < kept.len() && kept[k] == script;
    assert(data.rows(network, hide_zeros, unused)[kept.len() - 1 - k] == data.row(network)(script));
}

proof fn lemma_both_filters(data: KeychainDataView, network: Network, cells: Seq<CellView>)
    ensures
        data.rows(network, true, true).contains(cells) <==> data.rows(
            network,
            true,
            false,
        ).contains(cells) && data.rows(network, false, true).contains(cells),
{
    let both = data.rows(network, true, true);
    let held = data.rows(network, true, false);
    let unpaid = data.rows(network, false, true);
    if both.contains(cells) {
        let i = choose|i: int| 0 <= i < both.len() && both[i] == cells;
        let script = listed_row_passes_filters(data, network, true, true, i);
        lemma_kept_scripts(data, true, false, script);
        lemma_kept_scripts(data, false, true, script);
        lemma_listed_row(data, network, true, false, script);
        lemma_listed_row(data, network, false, true, script);
    }
    if held.contains(cells) && unpaid.contains(cells) {
        let i = choose|i: int| 0 <= i < held.len() && held[i] == cells;
        let j = choose|j: int| 0 <= j < unpaid.len() && unpaid[j] == cells;
        let one = listed_row_passes_filters(data, network, true, false, i);
        let script = listed_row_passes_filters(data, network, false, true, j);
        // The two rows are equal, and with them what they say of the value.
        assert(cells[1] == CellView::Amount(value_at(data.utxos, one)));
        assert(cells[1] == CellView::Amount(value_at(data.utxos, script)));
        lemma_kept_scripts(data, true, true, script);
        lemma_listed_row(data, network, true, true, script);
    }
}

proof fn lemma_column_total(data: KeychainDataView, network: Network, scripts: Seq<Seq<u8>>)
    ensures
        column_total(scripts.map_values(data.row(network)).reverse()) == sum_of_values(
            data.utxos,
            scripts,
        ),
    decreases scripts.len(),
{
    if scripts.len() > 0 {
        let rows = scripts.map_values(data.row(network)).reverse();
        lemma_column_total(data, network, scripts.drop_last());
        assert(rows.drop_first() =~= scripts.drop_last().map_values(data.row(network)).reverse());
        assert(rows[0] == data.row(network)(scripts.last()));
    }
}

proof fn lemma_zeros_add_nothing(data: KeychainDataView, scripts: Seq<Seq<u8>>, unused: bool)
    ensures
        sum_of_values(data.utxos, scripts.filter(data.is_listed(true, unused))) == sum_of_values(
            data.utxos,
            scripts.filter(data.is_listed(false, unused)),
        ),
    decreases scripts.len(),
{
    reveal(Seq::filter);
    if scripts.len() > 0 {
        let rest = scripts.drop_last();
        let last = scripts.last();
        lemma_zeros_add_nothing(data, rest, unused);
        let some = rest.filter(data.is_listed(true, unused));
        let all = rest.filter(data.is_listed(false, unused));
        assert(some.push(last).drop_last() =~= some);
        assert(all.push(last).drop_last() =~= all);
    }
}

/// Listing all addresses lists the external ones and then the internal ones.
pub proof fn all_lists_both_keychains(
    external: KeychainData,
    internal: KeychainData,
    network: Network,
    hide_zeros: bool,
    unused: bool,
)
    ensures
        rows_of(seq![external, internal], network, hide_zeros, unused) == rows_of(
            seq![external],
            network,
            hide_zeros,
            unused,
        ) + rows_of(seq![internal], network, hide_zeros, unused),
        rows_of(seq![external], network, hide_zeros, unused) == external@.rows(
            network,
            hide_zeros,
            unused,
        ),
        rows_of(seq![internal], network, hide_zeros, unused) == internal@.rows(
            network,
            hide_zeros,
            unused,
        ),
{
    reveal_with_fuel(rows_of, 3);
    assert(seq![external, internal].drop_last() =~= seq![external]);
    assert(seq![external].drop_last() =~= Seq::empty());
    assert(seq![internal].drop_last() =~= Seq::empty());
    assert(rows_of(seq![external], network, hide_zeros, unused) =~= external@.rows(
        network,
        hide_zeros,
        unused,
    ));
    assert(rows_of(seq![internal], network, hide_zeros, unused) =~= internal@.rows(
        network,
        hide_zeros,
        unused,
    ));
}

/// The value of scripts, each taken by itself, added up.
pub open spec fn sum_of_values(utxos: Seq<LocalUtxoView>, scripts: Seq<Seq<u8>>) -> nat
    decreases scripts.len(),
{
    if scripts.len() == 0 {
        0
    } else {
        sum_of_values(utxos, scripts.drop_last()) + value_at(utxos, scripts.last())
    }
}

/// The outputs that pay to one of the scripts.
pub open spec fn pays_to_one_of(scripts: Seq<Seq<u8>>) -> spec_fn(LocalUtxoView) -> bool {
    |u: LocalUtxoView| scripts.contains(u.txout.script_pubkey)
}

/// No output is counted at two addresses: where no script occurs twice, the values of the scripts
/// add up to the value of all outputs that pay to one of them.
pub proof fn address_values_add_up(utxos: Seq<LocalUtxoView>, scripts: Seq<Seq<u8>>)
    requires
        scripts.no_duplicates(),
    ensures
        sum_of_values(utxos, scripts) == total_value(utxos.filter(pays_to_one_of(scripts))),
    decreases scripts.len(),
{
    if scripts.len() == 0 {
        lemma_total_of_none(utxos, pays_to_one_of(scripts));
    } else {
        let rest = scripts.drop_last();
        let last = scripts.last();
        address_values_add_up(utxos, rest);
        assert forall|u: LocalUtxoView| #[trigger]
            pays_to_one_of(scripts)(u) <==> pays_to_one_of(rest)(u) || pays_to(last)(u) by {
            let s = u.txout.script_pubkey;
            if scripts.contains(s) {
                let k = choose|k: int| 0 <= k < scripts.len() && scripts[k] == s;
                if k < rest.len() {
                    assert(rest[k] == s);
                }
            }
            if rest.contains(s) {
                let k = choose|k: int| 0 <= k < rest.len() && rest[k] == s;
                assert(scripts[k] == s);
            }
            assert(scripts[scripts.len() - 1] == last);
        }
        assert forall|u: LocalUtxoView| !(#[trigger] pays_to_one_of(rest)(u) && pays_to(last)(u)) by {
            if rest.contains(u.txout.script_pubkey) && u.txout.script_pubkey == last {
                let k = choose|k: int| 0 <= k < rest.len() && rest[k] == last;
                assert(scripts[k] == scripts[scripts.len() - 1]);
            }
        }
        lemma_total_of_either(utxos, pays_to_one_of(rest), pays_to(last), pays_to_one_of(scripts));
    }
}

proof fn lemma_total_of_none(utxos: Seq<LocalUtxoView>, pred: spec_fn(LocalUtxoView) -> bool)
    requires
        forall|u: LocalUtxoView| !#[trigger] pred(u),
    ensures
        total_value(utxos.filter(pred)) == 0,
    decreases utxos.len(),
{
    reveal(Seq::filter);
    if utxos.len() > 0 {
        lemma_total_of_none(utxos.drop_last(), pred);
    }
}

} // verus!
