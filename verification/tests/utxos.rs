use gun_wallet::balance::{run_balance, BalanceData};
use gun_wallet::output::{Cell, CmdError, CmdOutput};
use gun_wallet::types::{
    Amount, BlockTime, KeychainKind, LocalUtxo, Network, OutPoint, Script, TransactionDetails,
    TxOut, Txid,
};
use gun_wallet::utxos::{run_utxo_cmd, TxLookup, UtxoData, UtxoDetails, UtxoEntry, UtxoOpt};

const WITNESS: [u8; 22] = [
    0x00, 0x14, 0x75, 0x1e, 0x76, 0xe8, 0x19, 0x91, 0x96, 0xd4, 0x54, 0x94, 0x1c, 0x45, 0xd1, 0xb3,
    0xa3, 0x23, 0xf1, 0x43, 0x3b, 0xd6,
];
const WITNESS_TEXT: &str = "bc1qw508d6qejxtdg4y5r3zarvary0c5xw7kv8f3t4";

fn outpoint(n: u8, vout: u32) -> OutPoint {
    OutPoint { txid: Txid { bytes: [n; 32] }, vout }
}

fn utxo(n: u8, vout: u32, script: &[u8], keychain: KeychainKind) -> LocalUtxo {
    LocalUtxo {
        outpoint: outpoint(n, vout),
        txout: TxOut { value: 500 + vout as u64, script_pubkey: Script { bytes: script.to_vec() } },
        keychain,
    }
}

fn tx(n: u8, confirmation_time: Option<BlockTime>) -> TransactionDetails {
    TransactionDetails {
        transaction: None,
        txid: Txid { bytes: [n; 32] },
        received: 0,
        sent: 0,
        fee: None,
        confirmation_time,
    }
}

fn block() -> Option<BlockTime> {
    Some(BlockTime { height: 12, timestamp: 34 })
}

fn text(s: &str) -> Cell {
    Cell::String(s.to_string())
}

fn reference(n: u8, vout: &str) -> Cell {
    Cell::String(format!("{}:{}", format!("{:02x}", n).repeat(32), vout))
}

#[test]
fn list_has_a_row_for_each_output() {
    let data = UtxoData::List {
        in_use: vec![outpoint(2, 4294967295)],
        unspent: vec![
            UtxoEntry {
                utxo: utxo(1, 0, &WITNESS, KeychainKind::External),
                tx: TxLookup::Found(tx(1, block())),
            },
            UtxoEntry {
                utxo: utxo(2, 4294967295, &[0x6a], KeychainKind::Internal),
                tx: TxLookup::Found(tx(2, None)),
            },
            UtxoEntry {
                utxo: utxo(3, 10, &WITNESS, KeychainKind::External),
                tx: TxLookup::Missing,
            },
            UtxoEntry {
                utxo: utxo(4, 1, &WITNESS, KeychainKind::External),
                tx: TxLookup::Failed,
            },
        ],
    };
    let value = |sat| Cell::Amount(Amount::from_sat(sat));
    assert_eq!(
        run_utxo_cmd(&UtxoOpt::List, Network::Bitcoin, &data),
        Ok(CmdOutput::Table {
            col_names: vec!["outpoint", "address", "value", "keychain", "confirmed", "in-use"],
            rows: vec![
                vec![
                    reference(1, "0"),
                    text(WITNESS_TEXT),
                    value(500),
                    text("external"),
                    text("true"),
                    text("false"),
                ],
                vec![
                    reference(2, "4294967295"),
                    Cell::Empty,
                    value(4294967795),
                    text("internal"),
                    text("false"),
                    text("true"),
                ],
                vec![
                    reference(3, "10"),
                    text(WITNESS_TEXT),
                    value(510),
                    text("external"),
                    Cell::Empty,
                    text("false"),
                ],
                vec![
                    reference(4, "1"),
                    text(WITNESS_TEXT),
                    value(501),
                    text("external"),
                    Cell::Empty,
                    text("false"),
                ],
            ],
        })
    );
}

#[test]
fn show_has_the_details_of_an_output() {
    let opt = UtxoOpt::Show { outpoint: outpoint(1, 3) };
    let data = UtxoData::Show(Some(UtxoDetails {
        utxo: utxo(1, 3, &WITNESS, KeychainKind::Internal),
        tx: Some(tx(1, block())),
        descriptor: Some("wpkh(xpub/1)".to_string()),
        in_use: vec![outpoint(1, 3)],
    }));
    assert_eq!(
        run_utxo_cmd(&opt, Network::Bitcoin, &data),
        Ok(CmdOutput::Item(vec![
            ("outpoint", reference(1, "3")),
            ("value", Cell::Amount(Amount::from_sat(503))),
            ("tx-seen-at", Cell::DateTime(34)),
            ("tx-confirmed-at", Cell::Int(12)),
            ("address", text(WITNESS_TEXT)),
            (
                "script-pubkey",
                text("OP_0 OP_PUSHBYTES_20 751e76e8199196d454941c45d1b3a323f1433bd6")
            ),
            ("output-descriptor", text("wpkh(xpub/1)")),
            ("keychain", text("internal")),
            ("in-use", text("true")),
        ]))
    );
}

#[test]
fn show_leaves_empty_what_is_not_known() {
    let opt = UtxoOpt::Show { outpoint: outpoint(1, 3) };
    let fields = |tx| {
        let data = UtxoData::Show(Some(UtxoDetails {
            utxo: utxo(1, 3, &[0x6a], KeychainKind::External),
            tx,
            descriptor: None,
            in_use: vec![outpoint(1, 2)],
        }));
        match run_utxo_cmd(&opt, Network::Bitcoin, &data) {
            Ok(CmdOutput::Item(fields)) => fields,
            other => panic!("{:?}", other),
        }
    };
    for shown in [fields(None), fields(Some(tx(1, None)))] {
        assert_eq!(shown[2], ("tx-seen-at", Cell::Empty));
        assert_eq!(shown[3], ("tx-confirmed-at", Cell::Empty));
        assert_eq!(shown[4], ("address", Cell::Empty));
        assert_eq!(shown[5], ("script-pubkey", text("OP_RETURN")));
        assert_eq!(shown[6], ("output-descriptor", Cell::Empty));
        assert_eq!(shown[7], ("keychain", text("external")));
        assert_eq!(shown[8], ("in-use", text("false")));
    }
}

#[test]
fn unknown_output_is_an_error() {
    let opt = UtxoOpt::Show { outpoint: outpoint(1, 30) };
    let answer = run_utxo_cmd(&opt, Network::Bitcoin, &UtxoData::Show(None));
    assert_eq!(answer, Err(CmdError::UtxoNotFound(outpoint(1, 30))));
    assert_eq!(
        CmdError::UtxoNotFound(outpoint(1, 30)).message(),
        format!("UTXO {}:30 not in wallet database", "01".repeat(32))
    );
}

#[test]
fn shown_output_is_as_listed() {
    let entry = UtxoEntry {
        utxo: utxo(1, 0, &WITNESS, KeychainKind::External),
        tx: TxLookup::Found(tx(1, block())),
    };
    let list = UtxoData::List { in_use: vec![outpoint(1, 0)], unspent: vec![entry] };
    let row = match run_utxo_cmd(&UtxoOpt::List, Network::Regtest, &list) {
        Ok(CmdOutput::Table { mut rows, .. }) => rows.remove(0),
        other => panic!("{:?}", other),
    };
    let show = UtxoData::Show(Some(UtxoDetails {
        utxo: utxo(1, 0, &WITNESS, KeychainKind::External),
        tx: Some(tx(1, block())),
        descriptor: None,
        in_use: vec![outpoint(1, 0)],
    }));
    let opt = UtxoOpt::Show { outpoint: outpoint(1, 0) };
    match run_utxo_cmd(&opt, Network::Regtest, &show) {
        Ok(CmdOutput::Item(fields)) => {
            assert_eq!(fields[0].1, row[0]);
            assert_eq!(fields[4].1, row[1]);
            assert_eq!(fields[1].1, row[2]);
            assert_eq!(fields[7].1, row[3]);
            assert_eq!(fields[8].1, row[5]);
            assert_eq!((fields[3].1 != Cell::Empty), (row[4] == text("true")));
        }
        other => panic!("{:?}", other),
    }
}

#[test]
fn list_agrees_with_balance() {
    let outputs = || {
        vec![
            utxo(1, 0, &WITNESS, KeychainKind::External),
            utxo(2, 1, &WITNESS, KeychainKind::External),
        ]
    };
    let data = BalanceData {
        bets: vec![],
        transactions: vec![tx(1, block()), tx(2, None)],
        unspent: outputs(),
        in_use: vec![],
    };
    let amounts = match run_balance(&data, true).output {
        CmdOutput::Item(fields) => fields,
        other => panic!("{:?}", other),
    };
    assert_eq!(amounts[0].1, Cell::Amount(Amount::from_sat(500)));
    assert_eq!(amounts[1].1, Cell::Amount(Amount::from_sat(501)));
    let lookups = vec![TxLookup::Found(tx(1, block())), TxLookup::Found(tx(2, None))];
    let unspent =
        outputs().into_iter().zip(lookups).map(|(utxo, tx)| UtxoEntry { utxo, tx }).collect();
    let list = UtxoData::List { in_use: vec![], unspent };
    match run_utxo_cmd(&UtxoOpt::List, Network::Bitcoin, &list) {
        Ok(CmdOutput::Table { rows, .. }) => {
            assert_eq!(rows[0][4], text("true"));
            assert_eq!(rows[1][4], text("false"));
        }
        other => panic!("{:?}", other),
    }
}

#[test]
fn list_adds_up_to_balance() {
    let outputs = || {
        vec![
            utxo(1, 0, &WITNESS, KeychainKind::External),
            utxo(2, 1, &WITNESS, KeychainKind::External),
            utxo(2, 2, &[0x6a], KeychainKind::Internal),
            utxo(3, 3, &WITNESS, KeychainKind::External),
        ]
    };
    let in_use = vec![outpoint(1, 0), outpoint(2, 2)];
    let data = BalanceData {
        bets: vec![],
        transactions: vec![tx(1, block()), tx(3, block())],
        unspent: outputs(),
        in_use: in_use.clone(),
    };
    let amount = |sat| Cell::Amount(Amount::from_sat(sat));
    match run_balance(&data, true).output {
        CmdOutput::Item(fields) => {
            assert_eq!(fields[0], ("confirmed", amount(503)));
            assert_eq!(fields[1], ("unconfirmed", amount(501)));
            assert_eq!(fields[5], ("in-use", amount(1002)));
        }
        other => panic!("{:?}", other),
    }
    let unspent =
        outputs().into_iter().map(|utxo| UtxoEntry { utxo, tx: TxLookup::Missing }).collect();
    let list = UtxoData::List { in_use, unspent };
    let rows = match run_utxo_cmd(&UtxoOpt::List, Network::Bitcoin, &list) {
        Ok(CmdOutput::Table { rows, .. }) => rows,
        other => panic!("{:?}", other),
    };
    let listed = |in_use: bool| -> u64 {
        rows.iter()
            .filter(|row| (row[5] == text("true")) == in_use)
            .map(|row| match &row[2] {
                Cell::Amount(amount) => amount.as_sat(),
                other => panic!("{:?}", other),
            })
            .sum()
    };
    assert_eq!(listed(true), 1002);
    assert_eq!(listed(false), 503 + 501);
}
