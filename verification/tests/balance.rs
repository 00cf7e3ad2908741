use gun_wallet::balance::{balance_in_range, run_balance, BalanceData, BetState};
use gun_wallet::output::{Cell, CmdOutput};
use gun_wallet::types::{
    Amount, BlockTime, KeychainKind, LocalUtxo, OutPoint, Script, TransactionDetails, TxOut, Txid,
};

fn txid(n: u8) -> Txid {
    Txid { bytes: [n; 32] }
}

fn tx(n: u8, confirmed: bool) -> TransactionDetails {
    let confirmation_time = if confirmed {
        Some(BlockTime { height: 100, timestamp: 1_600_000_000 })
    } else {
        None
    };
    TransactionDetails {
        transaction: None,
        txid: txid(n),
        received: 0,
        sent: 0,
        fee: None,
        confirmation_time,
    }
}

fn utxo(n: u8, vout: u32, value: u64, keychain: KeychainKind) -> LocalUtxo {
    LocalUtxo {
        outpoint: OutPoint { txid: txid(n), vout },
        txout: TxOut { value, script_pubkey: Script { bytes: vec![n] } },
        keychain,
    }
}

fn amount(sat: u64) -> Cell {
    Cell::Amount(Amount::from_sat(sat))
}

fn item(confirmed: u64, unconfirmed: u64, unclaimed: u64, locked: u64, in_use: u64) -> CmdOutput {
    CmdOutput::Item(vec![
        ("confirmed", amount(confirmed)),
        ("unconfirmed", amount(unconfirmed)),
        ("unclaimed", amount(unclaimed)),
        ("available", amount(confirmed + unconfirmed + unclaimed)),
        ("locked", amount(locked)),
        ("in-use", amount(in_use)),
    ])
}

fn mixed() -> BalanceData {
    BalanceData {
        bets: vec![
            BetState::Included { local_value: Amount::from_sat(7) },
            BetState::Other,
            BetState::Won { joint_output_value: Amount::from_sat(11) },
            BetState::Included { local_value: Amount::from_sat(5) },
        ],
        transactions: vec![tx(1, true), tx(2, false)],
        unspent: vec![
            utxo(1, 0, 1_000, KeychainKind::External),
            utxo(1, 1, 200, KeychainKind::External),
            utxo(2, 0, 30, KeychainKind::External),
            utxo(2, 1, 4, KeychainKind::Internal),
            // no record of its transaction
            utxo(3, 0, 50_000, KeychainKind::External),
        ],
        in_use: vec![OutPoint { txid: txid(1), vout: 1 }],
    }
}

#[test]
fn each_output_counts_once() {
    let data = mixed();
    let report = run_balance(&data, true);
    assert_eq!(report.output, item(1_004, 50_030, 11, 12, 200));
    assert_eq!(report.reminder, None);
    let total: u64 = data.unspent.iter().map(|u| u.txout.value).sum();
    assert_eq!(total, 1_004 + 50_030 + 200);
}

#[test]
fn output_in_use_counts_as_nothing_else() {
    let mut data = mixed();
    data.in_use = data.unspent.iter().map(|u| u.outpoint).collect();
    assert_eq!(run_balance(&data, true).output, item(0, 0, 11, 12, 51_234));
}

#[test]
fn first_record_of_a_transaction_decides() {
    let mut data = mixed();
    data.bets.clear();
    data.in_use.clear();
    data.transactions = vec![tx(2, true), tx(2, false), tx(1, false), tx(1, true)];
    assert_eq!(run_balance(&data, true).output, item(34, 51_200, 0, 0, 0));
}

#[test]
fn reminder_only_when_empty_and_not_synced() {
    let empty = BalanceData { bets: vec![], transactions: vec![], unspent: vec![], in_use: vec![] };
    let report = run_balance(&empty, false);
    assert_eq!(report.output, item(0, 0, 0, 0, 0));
    assert_eq!(
        report.reminder,
        Some("Remember to sync gun with -s or --sync to ensure balances are up to date. i.e. run `gun -s balance` ")
    );
    assert_eq!(run_balance(&empty, true).reminder, None);

    let mut locked = empty;
    locked.bets = vec![BetState::Included { local_value: Amount::from_sat(1) }];
    assert_eq!(run_balance(&locked, false).reminder, None);
}

#[test]
fn range_depends_on_what_is_added_up() {
    let mut data = mixed();
    assert!(balance_in_range(&data, true));
    assert!(balance_in_range(&data, false));
    data.bets.push(BetState::Included { local_value: Amount::from_sat(u64::MAX - 12) });
    assert!(balance_in_range(&data, true));
    assert!(!balance_in_range(&data, false));
    data.bets.push(BetState::Included { local_value: Amount::from_sat(1) });
    assert!(!balance_in_range(&data, true));
}

#[test]
fn amounts_add_up_or_not() {
    let a = Amount::from_sat(u64::MAX - 1);
    assert_eq!(a.checked_add(Amount::from_sat(1)), Some(Amount::from_sat(u64::MAX)));
    assert_eq!(a.checked_add(Amount::from_sat(2)), None);
    assert_eq!(a.as_sat(), u64::MAX - 1);
}
