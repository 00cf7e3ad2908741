use gun_wallet::addresses::{
    address_query, can_answer, find_unused, get_address, keychain_in_range,
    list_keychain_addresses, AddressData, AddressOpt, AddressQuery, KeychainData, ScriptData,
};
use gun_wallet::index::index_utxos;
use gun_wallet::output::{Cell, CmdOutput};
use gun_wallet::types::{
    Address, Amount, KeychainKind, LocalUtxo, Network, OutPoint, Payload, Script, Transaction,
    TransactionDetails, TxOut, Txid,
};

const HASH: [u8; 20] = [
    0x16, 0x2c, 0x5e, 0xa7, 0x1c, 0x0b, 0x23, 0xf5, 0xb9, 0x02, 0x2e, 0xf0, 0x47, 0xc4, 0xa8, 0x64,
    0x70, 0xa5, 0xb0, 0x70,
];

const PROGRAM: [u8; 20] = [
    0x75, 0x1e, 0x76, 0xe8, 0x19, 0x91, 0x96, 0xd4, 0x54, 0x94, 0x1c, 0x45, 0xd1, 0xb3, 0xa3, 0x23,
    0xf1, 0x43, 0x3b, 0xd6,
];

fn p2pkh() -> Script {
    let mut bytes = vec![0x76, 0xa9, 0x14];
    bytes.extend_from_slice(&HASH);
    bytes.extend_from_slice(&[0x88, 0xac]);
    Script { bytes }
}

fn p2sh() -> Script {
    let mut bytes = vec![0xa9, 0x14];
    bytes.extend_from_slice(&HASH);
    bytes.push(0x87);
    Script { bytes }
}

fn p2wpkh() -> Script {
    let mut bytes = vec![0x00, 0x14];
    bytes.extend_from_slice(&PROGRAM);
    Script { bytes }
}

fn utxo(vout: u32, value: u64, script_pubkey: Script) -> LocalUtxo {
    LocalUtxo {
        outpoint: OutPoint { txid: Txid { bytes: [9; 32] }, vout },
        txout: TxOut { value, script_pubkey },
        keychain: KeychainKind::External,
    }
}

fn tx_paying(script_pubkey: Script) -> TransactionDetails {
    let other = TxOut { value: 1, script_pubkey: Script { bytes: vec![] } };
    TransactionDetails {
        transaction: Some(Transaction { output: vec![other, TxOut { value: 5, script_pubkey }] }),
        txid: Txid { bytes: [9; 32] },
        received: 0,
        sent: 0,
        fee: None,
        confirmation_time: None,
    }
}

fn keychain_data(keychain: KeychainKind, last_index: Option<u32>) -> KeychainData {
    KeychainData {
        keychain,
        scripts: vec![p2pkh(), p2sh(), p2wpkh()],
        transactions: vec![tx_paying(p2sh())],
        last_index,
        utxos: vec![utxo(0, 70, p2pkh()), utxo(1, 3, p2sh()), utxo(2, 20, p2pkh())],
    }
}

fn row(address: &str, value: u64, utxos: u64, keychain: &str) -> Vec<Cell> {
    vec![
        Cell::String(address.to_string()),
        Cell::Amount(Amount::from_sat(value)),
        Cell::Int(utxos),
        Cell::String(keychain.to_string()),
    ]
}

const P2PKH_TEXT: &str = "132F25rTsvBdp9JzLLBHP5mvGY66i1xdiM";
const P2SH_TEXT: &str = "33iFwdLuRpW1uK1RTRqsoi8rR4NpDzk66k";
const P2WPKH_TEXT: &str = "bc1qw508d6qejxtdg4y5r3zarvary0c5xw7kv8f3t4";

#[test]
fn newest_address_first() {
    let data = keychain_data(KeychainKind::External, Some(2));
    let rows = list_keychain_addresses(&data, Network::Bitcoin, false, false);
    assert_eq!(
        rows,
        vec![
            row(P2WPKH_TEXT, 0, 0, "external"),
            row(P2SH_TEXT, 3, 1, "external"),
            row(P2PKH_TEXT, 90, 2, "external"),
        ]
    );
}

#[test]
fn only_addresses_handed_out() {
    let list = |last_index| {
        let data = keychain_data(KeychainKind::Internal, last_index);
        list_keychain_addresses(&data, Network::Bitcoin, false, false)
    };
    assert_eq!(list(None), Vec::<Vec<Cell>>::new());
    assert_eq!(list(Some(0)), vec![row(P2PKH_TEXT, 90, 2, "internal")]);
    assert_eq!(list(Some(1)).len(), 2);
    assert_eq!(list(Some(u32::MAX)).len(), 3);
}

#[test]
fn filters_hide_zero_and_used() {
    let data = keychain_data(KeychainKind::External, Some(2));
    let list = |hide_zeros, unused| {
        list_keychain_addresses(&data, Network::Bitcoin, hide_zeros, unused)
    };
    assert_eq!(
        list(true, false),
        vec![row(P2SH_TEXT, 3, 1, "external"), row(P2PKH_TEXT, 90, 2, "external")]
    );
    assert_eq!(
        list(false, true),
        vec![row(P2WPKH_TEXT, 0, 0, "external"), row(P2PKH_TEXT, 90, 2, "external")]
    );
    assert_eq!(list(true, true), vec![row(P2PKH_TEXT, 90, 2, "external")]);
}

#[test]
fn transaction_without_outputs_uses_nothing() {
    let mut data = keychain_data(KeychainKind::External, Some(1));
    data.transactions[0].transaction = None;
    let rows = list_keychain_addresses(&data, Network::Bitcoin, false, true);
    assert_eq!(rows.len(), 2);
}

#[test]
fn network_changes_the_text() {
    let mut data = keychain_data(KeychainKind::External, Some(2));
    data.scripts = vec![p2wpkh()];
    let text = |network| list_keychain_addresses(&data, network, false, false)[0][0].clone_text();
    assert_eq!(text(Network::Testnet), "tb1qw508d6qejxtdg4y5r3zarvary0c5xw7kxpjzsx");
    assert_eq!(text(Network::Signet), "tb1qw508d6qejxtdg4y5r3zarvary0c5xw7kxpjzsx");
    assert_eq!(text(Network::Bitcoin), P2WPKH_TEXT);
    assert!(text(Network::Regtest).starts_with("bcrt1q"));
}

trait CloneText {
    fn clone_text(&self) -> String;
}

impl CloneText for Cell {
    fn clone_text(&self) -> String {
        match self {
            Cell::String(s) => s.clone(),
            other => panic!("no text: {:?}", other),
        }
    }
}

#[test]
fn keychain_out_of_range() {
    let mut data = keychain_data(KeychainKind::External, Some(2));
    assert!(keychain_in_range(&data));
    data.utxos.push(utxo(3, u64::MAX, p2pkh()));
    assert!(!keychain_in_range(&data));
    data.utxos.pop();
    data.scripts[1] = Script { bytes: vec![0x6a] };
    assert!(!keychain_in_range(&data));
    data.last_index = Some(0);
    assert!(keychain_in_range(&data));
}

#[test]
fn index_groups_by_script() {
    let utxos = vec![utxo(0, 70, p2pkh()), utxo(1, 3, p2sh()), utxo(2, 20, p2pkh())];
    let index = index_utxos(&utxos);
    let found: Vec<u32> =
        index.get(&p2pkh()).unwrap().iter().map(|u| u.outpoint.vout).collect();
    assert_eq!(found, vec![0, 2]);
    assert_eq!(index.get(&p2sh()).unwrap().len(), 1);
    assert!(index.get(&p2wpkh()).is_none());
}

fn list_opt(all: bool, internal: bool) -> AddressOpt {
    AddressOpt::List { all, internal, hide_zeros: false, unused: false }
}

#[test]
fn list_asks_for_keychains() {
    let external = KeychainKind::External;
    let internal = KeychainKind::Internal;
    let asked = |all, int| address_query(&list_opt(all, int));
    assert_eq!(asked(false, false), AddressQuery::Keychains(vec![external]));
    assert_eq!(asked(false, true), AddressQuery::Keychains(vec![internal]));
    assert_eq!(asked(true, false), AddressQuery::Keychains(vec![external, internal]));
    assert_eq!(asked(true, true), AddressQuery::Keychains(vec![external, internal]));
}

#[test]
fn all_lists_external_then_internal() {
    let data = AddressData::Keychains(vec![
        keychain_data(KeychainKind::External, Some(0)),
        keychain_data(KeychainKind::Internal, Some(1)),
    ]);
    let opt = list_opt(true, false);
    assert!(can_answer(&opt, &data));
    assert!(!can_answer(&list_opt(false, false), &data));
    assert_eq!(
        get_address(&opt, Network::Bitcoin, &data),
        CmdOutput::Table {
            col_names: vec!["address", "value", "utxos", "keychain"],
            rows: vec![
                row(P2PKH_TEXT, 90, 2, "external"),
                row(P2SH_TEXT, 3, 1, "internal"),
                row(P2PKH_TEXT, 90, 2, "internal"),
            ],
        }
    );
}

fn p2pkh_address() -> Address {
    Address { payload: Payload::PubkeyHash(HASH), network: Network::Bitcoin }
}

fn answer(text: &str) -> CmdOutput {
    CmdOutput::EmphasisedItem {
        main: ("address", Cell::String(text.to_string())),
        other: vec![],
    }
}

#[test]
fn derived_address_is_the_answer() {
    assert_eq!(address_query(&AddressOpt::New), AddressQuery::New);
    let data = AddressData::Derived(p2pkh_address());
    assert!(can_answer(&AddressOpt::New, &data));
    assert!(!can_answer(&AddressOpt::LastUnused, &data));
    assert_eq!(get_address(&AddressOpt::New, Network::Bitcoin, &data), answer(P2PKH_TEXT));
}

fn unused_answer(read: KeychainData, fresh: Option<Address>, network: Network) -> CmdOutput {
    let data = AddressData::Unused { read, fresh };
    assert!(can_answer(&AddressOpt::LastUnused, &data));
    get_address(&AddressOpt::LastUnused, network, &data)
}

#[test]
fn first_unused_address_is_the_answer() {
    assert_eq!(
        address_query(&AddressOpt::LastUnused),
        AddressQuery::Unused(KeychainKind::External)
    );
    let mut read = keychain_data(KeychainKind::External, Some(2));
    read.transactions = vec![tx_paying(p2pkh())];
    assert_eq!(find_unused(&read), Some(1));
    assert_eq!(unused_answer(read, None, Network::Bitcoin), answer(P2SH_TEXT));

    let mut read = keychain_data(KeychainKind::External, Some(2));
    read.transactions = vec![tx_paying(p2pkh()), tx_paying(p2sh())];
    assert_eq!(find_unused(&read), Some(2));
    assert_eq!(
        unused_answer(read, None, Network::Testnet),
        answer("tb1qw508d6qejxtdg4y5r3zarvary0c5xw7kxpjzsx")
    );

    let read = keychain_data(KeychainKind::External, Some(2));
    assert_eq!(unused_answer(read, None, Network::Bitcoin), answer(P2PKH_TEXT));
}

#[test]
fn new_address_only_where_all_are_used() {
    let mut read = keychain_data(KeychainKind::External, Some(1));
    read.transactions = vec![tx_paying(p2sh()), tx_paying(p2pkh())];
    assert_eq!(find_unused(&read), None);
    let fresh = Some(p2pkh_address());
    assert_eq!(unused_answer(read, fresh, Network::Bitcoin), answer(P2PKH_TEXT));

    let read = keychain_data(KeychainKind::External, None);
    assert_eq!(find_unused(&read), None);
    let fresh = Some(p2pkh_address());
    assert_eq!(unused_answer(read, fresh, Network::Bitcoin), answer(P2PKH_TEXT));

    let fits = |keychain, last_index, fresh| {
        let data = AddressData::Unused { read: keychain_data(keychain, last_index), fresh };
        can_answer(&AddressOpt::LastUnused, &data)
    };
    assert!(!fits(KeychainKind::External, Some(2), Some(p2pkh_address())));
    assert!(!fits(KeychainKind::External, None, None));
    assert!(!fits(KeychainKind::Internal, Some(2), None));
}

#[test]
fn asking_again_gives_the_same_address() {
    // Handed out before: the same, also after another one has been handed out.
    let read = |last_index| {
        let mut read = keychain_data(KeychainKind::External, Some(last_index));
        read.transactions = vec![tx_paying(p2pkh())];
        read
    };
    assert_eq!(unused_answer(read(1), None, Network::Bitcoin), answer(P2SH_TEXT));
    assert_eq!(unused_answer(read(1), None, Network::Bitcoin), answer(P2SH_TEXT));
    assert_eq!(unused_answer(read(2), None, Network::Bitcoin), answer(P2SH_TEXT));

    // Derived for the first answer, and handed out from then on.
    let fresh = Address { payload: Payload::ScriptHash(HASH), network: Network::Bitcoin };
    let first = unused_answer(read(0), Some(fresh), Network::Bitcoin);
    assert_eq!(first, answer(P2SH_TEXT));
    assert_eq!(unused_answer(read(1), None, Network::Bitcoin), first);
}

#[test]
fn unused_script_has_to_be_an_address() {
    let mut read = keychain_data(KeychainKind::External, Some(2));
    read.scripts[0] = Script { bytes: vec![0x6a] };
    let data = AddressData::Unused { read, fresh: None };
    assert!(!can_answer(&AddressOpt::LastUnused, &data));
}

#[test]
fn first_unused_address_is_listed_last() {
    let mut read = keychain_data(KeychainKind::External, Some(2));
    read.transactions = vec![tx_paying(p2pkh())];
    let rows = list_keychain_addresses(&read, Network::Bitcoin, false, true);
    assert_eq!(rows.last().unwrap()[0].clone_text(), P2SH_TEXT);
    assert_eq!(unused_answer(read, None, Network::Bitcoin), answer(P2SH_TEXT));
}

#[test]
fn shown_address_has_its_holdings() {
    let opt = AddressOpt::Show { address: p2pkh_address() };
    assert_eq!(address_query(&opt), AddressQuery::Script(p2pkh()));
    let mut read = ScriptData {
        descriptor: Some("pkh(xpub/0)".to_string()),
        keychain: Some(KeychainKind::Internal),
        utxos: vec![utxo(0, 70, p2pkh()), utxo(1, 3, p2sh()), utxo(2, 20, p2pkh())],
    };
    let shown = |read: ScriptData| {
        let data = AddressData::Script(read);
        assert!(can_answer(&opt, &data));
        get_address(&opt, Network::Bitcoin, &data)
    };
    let script_text = "OP_DUP OP_HASH160 OP_PUSHBYTES_20 162c5ea71c0b23f5b9022ef047c4a86470a5b070 OP_EQUALVERIFY OP_CHECKSIG";
    let item = |value: u64, n: u64, descriptor: Cell, keychain: Cell| {
        CmdOutput::Item(vec![
            ("value", Cell::Amount(Amount::from_sat(value))),
            ("n-utxos", Cell::Int(n)),
            ("script-pubkey", Cell::String(script_text.to_string())),
            ("output-descriptor", descriptor),
            ("keychain", keychain),
        ])
    };
    let same = ScriptData { descriptor: None, keychain: None, utxos: vec![utxo(1, 3, p2sh())] };
    assert_eq!(shown(same), item(0, 0, Cell::Empty, Cell::Empty));
    read.utxos.push(utxo(4, 1, p2wpkh()));
    assert_eq!(
        shown(read),
        item(
            90,
            2,
            Cell::String("pkh(xpub/0)".to_string()),
            Cell::String("internal".to_string())
        )
    );
}

#[test]
fn scripts_of_addresses() {
    let script_of = |payload| {
        let address = Address { payload, network: Network::Bitcoin };
        assert!(address.is_well_formed());
        match address_query(&AddressOpt::Show { address }) {
            AddressQuery::Script(script) => script,
            other => panic!("{:?}", other),
        }
    };
    assert_eq!(script_of(Payload::PubkeyHash(HASH)), p2pkh());
    assert_eq!(script_of(Payload::ScriptHash(HASH)), p2sh());
    let program = PROGRAM.to_vec();
    assert_eq!(script_of(Payload::WitnessProgram { version: 0, program }), p2wpkh());
    let program = vec![0x75, 0x1e];
    assert_eq!(
        script_of(Payload::WitnessProgram { version: 16, program }),
        Script { bytes: vec![0x60, 0x02, 0x75, 0x1e] }
    );
}

#[test]
fn addresses_out_of_form() {
    let address = |version, len| Address {
        payload: Payload::WitnessProgram { version, program: vec![0; len] },
        network: Network::Bitcoin,
    };
    assert!(address(1, 2).is_well_formed());
    assert!(address(16, 40).is_well_formed());
    assert!(!address(17, 20).is_well_formed());
    assert!(!address(1, 1).is_well_formed());
    assert!(!address(1, 41).is_well_formed());
}

#[test]
fn answers_have_to_fit() {
    let opt = AddressOpt::Show { address: p2pkh_address() };
    assert!(!can_answer(&opt, &AddressData::Derived(p2pkh_address())));
    let utxos = vec![utxo(0, u64::MAX, p2pkh()), utxo(1, 1, p2pkh())];
    let read = ScriptData { descriptor: None, keychain: None, utxos };
    assert!(!can_answer(&opt, &AddressData::Script(read)));
}

#[test]
fn shown_address_is_as_listed() {
    let list = keychain_data(KeychainKind::External, Some(1));
    let rows = list_keychain_addresses(&list, Network::Bitcoin, false, false);
    let payloads = [Payload::ScriptHash(HASH), Payload::PubkeyHash(HASH)];
    for (row, payload) in rows.iter().zip(payloads) {
        let address = Address { payload, network: Network::Bitcoin };
        let utxos = keychain_data(KeychainKind::External, None).utxos;
        let keychain = Some(KeychainKind::External);
        let data = AddressData::Script(ScriptData { descriptor: None, keychain, utxos });
        match get_address(&AddressOpt::Show { address }, Network::Bitcoin, &data) {
            CmdOutput::Item(fields) => {
                assert_eq!(fields[0].1, row[1]);
                assert_eq!(fields[1].1, row[2]);
                assert_eq!(fields[4].1, row[3]);
            }
            other => panic!("{:?}", other),
        }
    }
}

fn listed_value(rows: &[Vec<Cell>]) -> u64 {
    rows.iter()
        .map(|row| match &row[1] {
            Cell::Amount(amount) => amount.as_sat(),
            other => panic!("{:?}", other),
        })
        .sum()
}

#[test]
fn filtered_lists_agree_on_rows_and_value() {
    let data = keychain_data(KeychainKind::External, Some(2));
    let list = |hide_zeros, unused| {
        list_keychain_addresses(&data, Network::Bitcoin, hide_zeros, unused)
    };
    let all = list(false, false);
    for (hide_zeros, unused) in [(true, false), (false, true), (true, true)] {
        let mut rest = all.iter();
        for row in list(hide_zeros, unused) {
            assert!(rest.any(|other| *other == row));
        }
    }
    for row in &all {
        let kept = |hide_zeros, unused| list(hide_zeros, unused).contains(row);
        assert_eq!(kept(true, true), kept(true, false) && kept(false, true));
    }
    assert_eq!(listed_value(&all), 93);
    assert_eq!(listed_value(&list(true, false)), 93);
    assert_eq!(listed_value(&list(false, true)), 90);
    assert_eq!(listed_value(&list(true, true)), 90);
}

#[test]
fn listed_values_add_up() {
    let data = keychain_data(KeychainKind::External, Some(2));
    let rows = list_keychain_addresses(&data, Network::Bitcoin, false, false);
    let listed = listed_value(&rows);
    assert_eq!(listed, data.utxos.iter().map(|u| u.txout.value).sum::<u64>());
}
