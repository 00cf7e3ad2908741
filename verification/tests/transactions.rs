use gun_wallet::output::{Cell, CmdError, CmdOutput};
use gun_wallet::transactions::{
    find_transaction, run_transaction_cmd, sort_newest_first, TransactionOpt,
};
use gun_wallet::types::{Amount, BlockTime, OutPoint, TransactionDetails, Txid};

fn txid(n: u8) -> Txid {
    Txid { bytes: [n; 32] }
}

fn tx(n: u8, seen: Option<(u32, u64)>) -> TransactionDetails {
    TransactionDetails {
        transaction: None,
        txid: txid(n),
        received: 10 + n as u64,
        sent: 20 + n as u64,
        fee: if n % 2 == 0 { Some(n as u64) } else { None },
        confirmation_time: seen.map(|(height, timestamp)| BlockTime { height, timestamp }),
    }
}

fn row(n: u8, height: Cell, seen: Cell) -> Vec<Cell> {
    vec![
        Cell::String(format!("{:02x}", n).repeat(32)),
        height,
        seen,
        Cell::Amount(Amount::from_sat(20 + n as u64)),
        Cell::Amount(Amount::from_sat(10 + n as u64)),
    ]
}

#[test]
fn list_is_newest_first() {
    let txs = vec![tx(1, Some((7, 70))), tx(2, None), tx(3, Some((9, 90))), tx(4, Some((8, 80)))];
    assert_eq!(
        run_transaction_cmd(txs, TransactionOpt::List),
        Ok(CmdOutput::Table {
            col_names: vec!["txid", "height", "seen", "sent", "received"],
            rows: vec![
                row(3, Cell::Int(9), Cell::DateTime(90)),
                row(4, Cell::Int(8), Cell::DateTime(80)),
                row(1, Cell::Int(7), Cell::DateTime(70)),
                row(2, Cell::Empty, Cell::Empty),
            ],
        })
    );
}

#[test]
fn sorting_keeps_every_transaction() {
    let times: Vec<u64> = vec![5, 1, 5, 9, 0, 3, 5, 9];
    let txs = times.iter().enumerate().map(|(i, t)| tx(i as u8, Some((1, *t)))).collect();
    let sorted = sort_newest_first(txs);
    let seen: Vec<u64> =
        sorted.iter().map(|t| t.confirmation_time.as_ref().unwrap().timestamp).collect();
    assert_eq!(seen, vec![9, 9, 5, 5, 5, 3, 1, 0]);
    let mut ids: Vec<u8> = sorted.iter().map(|t| t.txid.bytes[0]).collect();
    ids.sort();
    assert_eq!(ids, vec![0, 1, 2, 3, 4, 5, 6, 7]);
}

#[test]
fn empty_list() {
    match run_transaction_cmd(vec![], TransactionOpt::List) {
        Ok(CmdOutput::Table { rows, .. }) => assert!(rows.is_empty()),
        other => panic!("{:?}", other),
    }
}

#[test]
fn show_has_the_details() {
    let txs = || vec![tx(1, None), tx(2, Some((8, 80)))];
    assert_eq!(
        run_transaction_cmd(txs(), TransactionOpt::Show { txid: txid(2) }),
        Ok(CmdOutput::Item(vec![
            ("txid", Cell::String("02".repeat(32))),
            ("sent", Cell::Amount(Amount::from_sat(22))),
            ("received", Cell::Amount(Amount::from_sat(12))),
            ("seent-at", Cell::DateTime(80)),
            ("confirmed-at", Cell::Int(8)),
            ("fee", Cell::Amount(Amount::from_sat(2))),
        ]))
    );
    assert_eq!(
        run_transaction_cmd(txs(), TransactionOpt::Show { txid: txid(1) }),
        Ok(CmdOutput::Item(vec![
            ("txid", Cell::String("01".repeat(32))),
            ("sent", Cell::Amount(Amount::from_sat(21))),
            ("received", Cell::Amount(Amount::from_sat(11))),
            ("seent-at", Cell::Empty),
            ("confirmed-at", Cell::Empty),
            ("fee", Cell::Empty),
        ]))
    );
}

#[test]
fn show_takes_the_first() {
    let mut second = tx(1, None);
    second.sent = 99;
    let txs = vec![tx(1, None), second];
    assert_eq!(find_transaction(&txs, &txid(1)), Some(0));
    assert_eq!(find_transaction(&txs, &txid(2)), None);
    match run_transaction_cmd(txs, TransactionOpt::Show { txid: txid(1) }) {
        Ok(CmdOutput::Item(fields)) => {
            assert_eq!(fields[1], ("sent", Cell::Amount(Amount::from_sat(21))));
        }
        other => panic!("{:?}", other),
    }
}

#[test]
fn unknown_transaction_is_an_error() {
    let mut bytes = [0; 32];
    bytes[0] = 0xab;
    bytes[31] = 0x01;
    let id = Txid { bytes };
    let error = run_transaction_cmd(vec![tx(1, None)], TransactionOpt::Show { txid: id });
    assert_eq!(error, Err(CmdError::TransactionNotFound(id)));
    assert_eq!(
        CmdError::TransactionNotFound(id).message(),
        "Transaction 01000000000000000000000000000000000000000000000000000000000000ab not found"
    );
}

#[test]
fn ids_and_references_tell_apart() {
    assert!(txid(1).same(&txid(1)));
    let mut other = txid(1);
    other.bytes[31] = 2;
    assert!(!txid(1).same(&other));
    let a = OutPoint { txid: txid(1), vout: 0 };
    let b = OutPoint { txid: txid(1), vout: 1 };
    assert!(a.same(&a) && !a.same(&b));
    assert!(a.is_in(&vec![b, a]));
    assert!(!a.is_in(&vec![b]));
}

#[test]
fn what_is_listed_can_be_shown() {
    let txs = || vec![tx(1, Some((7, 70))), tx(2, None), tx(3, Some((9, 90)))];
    let rows = match run_transaction_cmd(txs(), TransactionOpt::List) {
        Ok(CmdOutput::Table { rows, col_names }) => {
            assert!(rows.iter().all(|row| row.len() == col_names.len()));
            rows
        }
        other => panic!("{:?}", other),
    };
    for (row, n) in rows.iter().zip([3, 1, 2]) {
        match run_transaction_cmd(txs(), TransactionOpt::Show { txid: txid(n) }) {
            Ok(CmdOutput::Item(fields)) => {
                assert_eq!(fields[0].1, row[0]);
                assert_eq!(fields[1].1, row[3]);
                assert_eq!(fields[2].1, row[4]);
                assert_eq!(fields[3].1, row[2]);
                assert_eq!(fields[4].1, row[1]);
            }
            other => panic!("{:?}", other),
        }
    }
}
