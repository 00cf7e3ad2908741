use gun_wallet::output::{Cell, CmdOutput};
use gun_wallet::payments::{run_send, run_split_cmd, SendOpt, SplitOpt, ValueChoice};
use gun_wallet::plan::{SplitChange, TxOrdering, TxPlan};
use gun_wallet::spend::{FeeArgs, SpendAction, SpendEvent, SpendOpt, SpendStep};
use gun_wallet::types::{
    Address, Amount, KeychainKind, LocalUtxo, Network, OutPoint, Payload, Script, TxOut, Txid,
};

fn opt() -> SpendOpt {
    SpendOpt {
        fee_args: FeeArgs { fee: "in-blocks:1".to_string() },
        spend_in_use: false,
        no_spend_unclaimed: false,
        bump_claiming: false,
        yes: false,
        print_tx: false,
    }
}

fn outpoint(n: u8) -> OutPoint {
    OutPoint { txid: Txid { bytes: [n; 32] }, vout: n as u32 }
}

fn utxo(n: u8, value: u64) -> LocalUtxo {
    LocalUtxo {
        outpoint: outpoint(n),
        txout: TxOut { value, script_pubkey: Script { bytes: vec![n] } },
        keychain: KeychainKind::External,
    }
}

fn answer() -> CmdOutput {
    CmdOutput::Item(vec![("txid", Cell::String("sent".to_string()))])
}

fn address() -> Address {
    let program = vec![7; 20];
    Address { payload: Payload::WitnessProgram { version: 0, program }, network: Network::Regtest }
}

fn address_script() -> Script {
    let mut bytes = vec![0, 20];
    bytes.extend_from_slice(&[7; 20]);
    Script { bytes }
}

fn plan_of(action: SpendAction) -> (TxPlan, FeeArgs) {
    match action {
        SpendAction::Prepare { plan, fee } => (plan, fee),
        other => panic!("{:?}", other),
    }
}

fn base_plan() -> TxPlan {
    let mut plan = TxPlan::new();
    plan.rbf = true;
    plan.ordering = TxOrdering::Bip69Lexicographic;
    plan
}

fn go(step: SpendStep, event: SpendEvent) -> SpendStep {
    assert!(step.spend.may_happen(&event));
    step.spend.step(event)
}

fn started(opt: SpendOpt) -> SpendStep {
    let step = opt.spend_coins(TxPlan::new());
    assert_eq!(step.action, SpendAction::ReadInUse);
    assert_eq!(step.notice, None);
    step
}

/// Up to the decision.
fn decided_on(opt: SpendOpt, claiming: Vec<u32>) -> SpendStep {
    let step = go(started(opt), SpendEvent::InUse(vec![]));
    let step = go(step, SpendEvent::Prepared);
    let step = go(step, SpendEvent::Built { claiming });
    assert_eq!(step.action, SpendAction::Sign);
    let step = go(step, SpendEvent::Signed);
    assert_eq!(step.action, SpendAction::Finalize);
    go(step, SpendEvent::Finalized { complete: true })
}

#[test]
fn sending_an_amount_has_one_recipient() {
    let value = ValueChoice::Amount(Amount::from_sat(1234));
    let step = run_send(SendOpt { value, to: address(), spend_opt: opt() });
    assert_eq!(step.action, SpendAction::ReadInUse);
    let (plan, fee) = plan_of(go(step, SpendEvent::InUse(vec![])).action);
    let mut expected = base_plan();
    expected.recipients = vec![(address_script(), 1234)];
    assert_eq!(plan, expected);
    assert_eq!(fee.fee, "in-blocks:1");
}

#[test]
fn sending_all_drains_the_wallet() {
    let step = run_send(SendOpt { value: ValueChoice::All, to: address(), spend_opt: opt() });
    let (plan, _) = plan_of(go(step, SpendEvent::InUse(vec![])).action);
    let mut expected = base_plan();
    expected.drain_wallet = true;
    expected.drain_to = Some(address_script());
    assert_eq!(plan, expected);
}

#[test]
fn outputs_in_use_are_not_spent() {
    let used = || SpendEvent::InUse((1..=12).map(outpoint).collect());
    let step = go(started(opt()), used());
    assert_eq!(
        step.notice.as_deref(),
        Some("note that 12 utxos are not availble becuase they are in use")
    );
    let (plan, _) = plan_of(step.action);
    assert_eq!(plan.unspendable, (1..=12).map(outpoint).collect::<Vec<_>>());

    let mut allowed = opt();
    allowed.spend_in_use = true;
    let step = go(started(allowed), used());
    assert_eq!(step.notice, None);
    assert_eq!(plan_of(step.action).0.unspendable, vec![]);

    let step = go(started(opt()), SpendEvent::InUse(vec![]));
    assert_eq!(step.notice, None);
}

#[test]
fn unclaimed_coins_are_spent_or_not() {
    let built_by = |opt| {
        let step = go(started(opt), SpendEvent::InUse(vec![]));
        go(step, SpendEvent::Prepared).action
    };
    assert_eq!(built_by(opt()), SpendAction::ClaimBets { bump_claiming: false });
    let mut bump = opt();
    bump.bump_claiming = true;
    assert_eq!(built_by(bump), SpendAction::ClaimBets { bump_claiming: true });
    let mut none = opt();
    none.no_spend_unclaimed = true;
    assert_eq!(built_by(none), SpendAction::Build);
}

#[test]
fn claimed_bets_are_advanced_when_out() {
    let step = decided_on(opt(), vec![5, 21]);
    assert_eq!(step.action, SpendAction::Decide { yes: false, print_tx: false });
    let txid = Some(Txid { bytes: [0xcd; 32] });
    let step = go(step, SpendEvent::Decided { output: answer(), txid });
    assert_eq!(step.action, SpendAction::AdvanceBet { bet_id: 5 });
    let step = go(step, SpendEvent::NotAdvanced("no such bet".to_string()));
    assert_eq!(
        step.notice,
        Some(format!(
            "error updating state of bet 5 after broadcasting claim tx {}: no such bet",
            "cd".repeat(32)
        ))
    );
    assert_eq!(step.action, SpendAction::AdvanceBet { bet_id: 21 });
    let step = go(step, SpendEvent::Advanced);
    assert_eq!(step.notice, None);
    assert_eq!(step.action, SpendAction::Finish { output: answer() });
    assert!(!step.spend.may_happen(&SpendEvent::Advanced));
    assert!(!step.spend.may_happen(&SpendEvent::Failed));
}

#[test]
fn bets_stay_when_not_out() {
    let txid = Some(Txid { bytes: [1; 32] });
    let done = SpendAction::Finish { output: answer() };

    let step = decided_on(opt(), vec![5]);
    let step = go(step, SpendEvent::Decided { output: answer(), txid: None });
    assert_eq!(step.action, done);

    let mut printing = opt();
    printing.print_tx = true;
    printing.yes = true;
    let step = decided_on(printing, vec![5]);
    assert_eq!(step.action, SpendAction::Decide { yes: true, print_tx: true });
    let step = go(step, SpendEvent::Decided { output: answer(), txid });
    assert_eq!(step.action, done);

    let mut none = opt();
    none.no_spend_unclaimed = true;
    let step = decided_on(none, vec![5]);
    let step = go(step, SpendEvent::Decided { output: answer(), txid });
    assert_eq!(step.action, done);

    let step = decided_on(opt(), vec![]);
    let step = go(step, SpendEvent::Decided { output: answer(), txid });
    assert_eq!(step.action, done);
}

#[test]
fn failure_aborts_at_every_stage() {
    let events = || {
        vec![
            SpendEvent::InUse(vec![]),
            SpendEvent::Prepared,
            SpendEvent::Built { claiming: vec![1] },
            SpendEvent::Signed,
            SpendEvent::Finalized { complete: true },
        ]
    };
    for n in 0..=5 {
        let mut step = started(opt());
        for event in events().into_iter().take(n) {
            step = go(step, event);
        }
        let step = go(step, SpendEvent::Failed);
        assert_eq!(step.action, SpendAction::Abort);
        assert!(!step.spend.may_happen(&SpendEvent::Failed));
    }
}

#[test]
fn events_out_of_turn_may_not_happen() {
    let step = started(opt());
    assert!(!step.spend.may_happen(&SpendEvent::Signed));
    assert!(!step.spend.may_happen(&SpendEvent::Advanced));
    let step = go(started(opt()), SpendEvent::InUse(vec![]));
    let step = go(step, SpendEvent::Prepared);
    let step = go(step, SpendEvent::Built { claiming: vec![] });
    let step = go(step, SpendEvent::Signed);
    assert!(!step.spend.may_happen(&SpendEvent::Finalized { complete: false }));
}

fn change(n: usize) -> Vec<Script> {
    (0..n).map(|i| Script { bytes: vec![0x60, 2, 0, i as u8] }).collect()
}

fn split_opt(n: Option<usize>) -> SplitOpt {
    SplitOpt { output_size: Amount::from_sat(100), n, spend_opt: opt() }
}

#[test]
fn splitting_into_n_outputs() {
    let unspent = vec![utxo(1, 100), utxo(2, 350), utxo(3, 100)];
    let opt = split_opt(Some(3));
    assert_eq!(opt.change_addresses(), 3);
    let step = run_split_cmd(opt, &unspent, change(3));
    let (plan, _) = plan_of(go(step, SpendEvent::InUse(vec![])).action);
    let mut expected = base_plan();
    expected.recipients = change(3).into_iter().map(|s| (s, 100)).collect();
    expected.unspendable = vec![outpoint(1), outpoint(3)];
    assert_eq!(plan, expected);
}

#[test]
fn splitting_as_far_as_possible() {
    let unspent = vec![utxo(2, 350)];
    let opt = split_opt(None);
    assert_eq!(opt.change_addresses(), 1);
    let step = run_split_cmd(opt, &unspent, change(1));
    let (plan, _) = plan_of(go(step, SpendEvent::InUse(vec![])).action);
    let mut expected = base_plan();
    expected.recipients = vec![(Script { bytes: vec![0x60, 2, 0, 0] }, 100)];
    expected.drain_wallet = true;
    expected.split_change = Some(SplitChange { size: 100, at_most: usize::MAX });
    assert_eq!(plan, expected);
}

#[test]
fn splitting_into_nothing() {
    let step = run_split_cmd(split_opt(Some(0)), &vec![], change(0));
    let (plan, _) = plan_of(go(step, SpendEvent::InUse(vec![])).action);
    assert_eq!(plan, base_plan());
}

#[test]
fn outputs_in_use_replace_what_splitting_held_back() {
    let unspent = vec![utxo(1, 100), utxo(2, 350)];
    let step = run_split_cmd(split_opt(Some(1)), &unspent, change(1));
    let (plan, _) = plan_of(go(step, SpendEvent::InUse(vec![outpoint(2)])).action);
    assert_eq!(plan.unspendable, vec![outpoint(2)]);
}
