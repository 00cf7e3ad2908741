//! What holds of every balance that is shown.
use vstd::prelude::*;
use vstd::string::*;

use crate::balance::{
    balance_in_range, is_confirmed, run_balance, total_locked, total_won, BalanceData, BalanceReport, BetState,
    Bucket,
};
use crate::output::CellView;
use crate::transactions::is_first;
use crate::types::{KeychainKind, LocalUtxo, LocalUtxoView};
use crate::values::{lemma_filtered_total_adds_up, total_value_adds_up};

verus! {

/// What bets have won, and what they lock, adds up over bets. A bet that is won counts with its
/// joint output, one that is in a block counts as locked with what the wallet put in, and no other
/// bet counts.
pub proof fn bets_add_up(a: Seq<BetState>, b: Seq<BetState>, bet: BetState)
    ensures
        total_won(a + b) == total_won(a) + total_won(b),
        total_locked(a + b) == total_locked(a) + total_locked(b),
        total_won(Seq::empty()) == 0,
        total_locked(Seq::empty()) == 0,
        match bet {
            BetState::Won { joint_output_value } => {
                &&& total_won(seq![bet]) == joint_output_value.sat
                &&& total_locked(seq![bet]) == 0
            },
            BetState::Included { local_value } => {
                &&& total_won(seq![bet]) == 0
                &&& total_locked(seq![bet]) == local_value.sat
            },
            BetState::Other => total_won(seq![bet]) == 0 && total_locked(seq![bet]) == 0,
        },
    decreases b.len(),
{
    reveal_with_fuel(total_won, 2);
    reveal_with_fuel(total_locked, 2);
    assert(seq![bet].drop_last() =~= Seq::empty());
    if b.len() == 0 {
        assert(a + b =~= a);
    } else {
        bets_add_up(a, b.drop_last(), bet);
        assert((a + b).drop_last() =~= a + b.drop_last());
    }
}

/// The balance has six amounts under these names, and what is available is what is confirmed,
/// unconfirmed and unclaimed.
pub proof fn balance_has_six_amounts(data: &BalanceData, sync: bool, report: BalanceReport)
    requires
        call_ensures(run_balance, (data, sync), report),
    ensures
        report.output@ is Item,
        ({
            let fields = report.output@->Item_0;
            &&& fields.len() == 6
            &&& fields[0].0 == "confirmed"@
            &&& fields[1].0 == "unconfirmed"@
            &&& fields[2].0 == "unclaimed"@
            &&& fields[3].0 == "available"@
            &&& fields[4].0 == "locked"@
            &&& fields[5].0 == "in-use"@
            &&& forall|k: int| 0 <= k < 6 ==> (#[trigger] fields[k]).1 is Amount
            &&& fields[3].1->Amount_0 == fields[0].1->Amount_0 + fields[1].1->Amount_0
                + fields[2].1->Amount_0
        }),
{
}

/// Balances add up over bets: the balance of all bets shows as unclaimed, and as locked, what the
/// balances of two parts of them show together.
pub proof fn shown_bets_add_up(
    part: &BalanceData,
    rest: &BalanceData,
    whole: &BalanceData,
    sync: bool,
    of_part: BalanceReport,
    of_rest: BalanceReport,
    of_whole: BalanceReport,
)
    requires
        whole.bets@ == part.bets@ + rest.bets@,
        call_ensures(run_balance, (part, sync), of_part),
        call_ensures(run_balance, (rest, sync), of_rest),
        call_ensures(run_balance, (whole, sync), of_whole),
    ensures
        of_whole.output@->Item_0[2].1->Amount_0 == of_part.output@->Item_0[2].1->Amount_0
            + of_rest.output@->Item_0[2].1->Amount_0,
        of_whole.output@->Item_0[4].1->Amount_0 == of_part.output@->Item_0[4].1->Amount_0
            + of_rest.output@->Item_0[4].1->Amount_0,
{
    bets_add_up(part.bets@, rest.bets@, BetState::Other);
}

/// One bet shows as unclaimed with its joint output if it is won, as locked with what the wallet
/// put in if it is in a block, and not at all in any other state.
pub proof fn shown_bet_counts(
    data: &BalanceData,
    bet: BetState,
    sync: bool,
    report: BalanceReport,
)
    requires
        data.bets@ == seq![bet],
        call_ensures(run_balance, (data, sync), report),
    ensures
        report.output@->Item_0[2].1->Amount_0 == match bet {
            BetState::Won { joint_output_value } => joint_output_value.sat as nat,
            _ => 0,
        },
        report.output@->Item_0[4].1->Amount_0 == match bet {
            BetState::Included { local_value } => local_value.sat as nat,
            _ => 0,
        },
{
    bets_add_up(Seq::empty(), Seq::empty(), bet);
}

/// Balances add up over unspent outputs: each of confirmed, unconfirmed and in use is for all
/// outputs what it is for two parts of them together.
pub proof fn shown_outputs_add_up(
    part: &BalanceData,
    rest: &BalanceData,
    whole: &BalanceData,
    sync: bool,
    of_part: BalanceReport,
    of_rest: BalanceReport,
    of_whole: BalanceReport,
)
    requires
        whole.unspent@ == part.unspent@ + rest.unspent@,
        whole.transactions@ == part.transactions@,
        whole.transactions@ == rest.transactions@,
        whole.in_use@ == part.in_use@,
        whole.in_use@ == rest.in_use@,
        call_ensures(run_balance, (part, sync), of_part),
        call_ensures(run_balance, (rest, sync), of_rest),
        call_ensures(run_balance, (whole, sync), of_whole),
    ensures
        of_whole.output@->Item_0[0].1->Amount_0 == of_part.output@->Item_0[0].1->Amount_0
            + of_rest.output@->Item_0[0].1->Amount_0,
        of_whole.output@->Item_0[1].1->Amount_0 == of_part.output@->Item_0[1].1->Amount_0
            + of_rest.output@->Item_0[1].1->Amount_0,
        of_whole.output@->Item_0[5].1->Amount_0 == of_part.output@->Item_0[5].1->Amount_0
            + of_rest.output@->Item_0[5].1->Amount_0,
{
    let (a, b) = (part@.unspent, rest@.unspent);
    assert(whole@.unspent =~= a + b);
    lemma_part_adds_up(part, rest, whole, Bucket::Confirmed);
    lemma_part_adds_up(part, rest, whole, Bucket::Unconfirmed);
    lemma_part_adds_up(part, rest, whole, Bucket::InUse);
}

proof fn lemma_part_adds_up(
    part: &BalanceData,
    rest: &BalanceData,
    whole: &BalanceData,
    bucket: Bucket,
)
    requires
        whole@.unspent == part@.unspent + rest@.unspent,
        whole.transactions@ == part.transactions@,
        whole.transactions@ == rest.transactions@,
        whole.in_use@ == part.in_use@,
        whole.in_use@ == rest.in_use@,
    ensures
        whole@.value_in(bucket) == part@.value_in(bucket) + rest@.value_in(bucket),
{
    let pred = whole@.counts_toward(bucket);
    assert(part@.counts_toward(bucket) =~= pred);
    assert(rest@.counts_toward(bucket) =~= pred);
    let any = arbitrary::<LocalUtxoView>();
    lemma_filtered_total_adds_up(part@.unspent, rest@.unspent, any, pred);
}

/// One unspent output shows with its value in one place: as in use if a protocol is using it, else
/// as confirmed if the wallet's first record of its transaction has it in a block or if it is the
/// wallet's own change, else as unconfirmed.
pub proof fn shown_output_counts(
    data: &BalanceData,
    utxo: LocalUtxo,
    sync: bool,
    report: BalanceReport,
)
    requires
        data.unspent@ == seq![utxo],
        call_ensures(run_balance, (data, sync), report),
    ensures
        ({
            let value = utxo.txout.value as nat;
            let used = exists|k: int|
                0 <= k < data.in_use@.len() && #[trigger] data.in_use@[k] == utxo.outpoint;
            let confirmed = exists|i: int|
                {
                    &&& 0 <= i < data.transactions@.len()
                    &&& (#[trigger] data.transactions@[i]).txid == utxo.outpoint.txid
                    &&& data.transactions@[i].confirmation_time is Some
                    &&& forall|j: int|
                        0 <= j < i ==> (#[trigger] data.transactions@[j]).txid
                            != utxo.outpoint.txid
                };
            let owned = !used && (confirmed || utxo.keychain == KeychainKind::Internal);
            let fields = report.output@->Item_0;
            &&& fields[5].1->Amount_0 == if used {
                value
            } else {
                0
            }
            &&& fields[0].1->Amount_0 == if owned {
                value
            } else {
                0
            }
            &&& fields[1].1->Amount_0 == if !used && !owned {
                value
            } else {
                0
            }
        }),
{
    let view = data@;
    assert(view.unspent =~= seq![utxo@]);
    let none = Seq::<LocalUtxoView>::empty();
    lemma_filtered_total_adds_up(none, none, utxo@, view.counts_toward(Bucket::Confirmed));
    lemma_filtered_total_adds_up(none, none, utxo@, view.counts_toward(Bucket::Unconfirmed));
    lemma_filtered_total_adds_up(none, none, utxo@, view.counts_toward(Bucket::InUse));
    total_value_adds_up(none, none, utxo@);
    let txid = utxo.outpoint.txid;
    assert forall|i: int| 0 <= i < data.transactions@.len() implies {
        &&& (#[trigger] view.transactions[i]).txid == data.transactions@[i].txid
        &&& view.transactions[i].confirmation_time == data.transactions@[i].confirmation_time
    } by {}
    assert forall|i: int| #[trigger]
        is_first(view.transactions, txid, i) <==> {
            &&& 0 <= i < data.transactions@.len()
            &&& data.transactions@[i].txid == txid
            &&& forall|j: int| 0 <= j < i ==> (#[trigger] data.transactions@[j]).txid != txid
        } by {
        if is_first(view.transactions, txid, i) {
            assert forall|j: int| 0 <= j < i implies (#[trigger] data.transactions@[j]).txid
                != txid by {
                assert(view.transactions[j].txid != txid);
            }
        }
    }
    let confirmed = exists|i: int|
        {
            &&& 0 <= i < data.transactions@.len()
            &&& (#[trigger] data.transactions@[i]).txid == txid
            &&& data.transactions@[i].confirmation_time is Some
            &&& forall|j: int| 0 <= j < i ==> (#[trigger] data.transactions@[j]).txid != txid
        };
    if confirmed {
        let i = choose|i: int|
            {
                &&& 0 <= i < data.transactions@.len()
                &&& (#[trigger] data.transactions@[i]).txid == txid
                &&& data.transactions@[i].confirmation_time is Some
                &&& forall|j: int| 0 <= j < i ==> (#[trigger] data.transactions@[j]).txid != txid
            };
        assert(is_first(view.transactions, txid, i));
    }
    if is_confirmed(view.transactions, txid) {
        let i = choose|i: int| #[trigger]
            is_first(view.transactions, txid, i)
                && view.transactions[i].confirmation_time is Some;
        assert(data.transactions@[i].confirmation_time is Some);
    }
}

/// No bets show nothing as unclaimed or locked, and no outputs show nothing as confirmed,
/// unconfirmed or in use.
pub proof fn nothing_shows_as_nothing(data: &BalanceData, sync: bool, report: BalanceReport)
    requires
        call_ensures(run_balance, (data, sync), report),
    ensures
        data.bets@.len() == 0 ==> report.output@->Item_0[2].1 == CellView::Amount(0)
            && report.output@->Item_0[4].1 == CellView::Amount(0),
        data.unspent@.len() == 0 ==> report.output@->Item_0[0].1 == CellView::Amount(0)
            && report.output@->Item_0[1].1 == CellView::Amount(0) && report.output@->Item_0[5].1
            == CellView::Amount(0),
{
    reveal(Seq::filter);
}

/// The user is reminded to sync exactly where the wallet was not synced and all six amounts are
/// zero.
pub proof fn reminder_only_on_empty_balance(
    data: &BalanceData,
    sync: bool,
    report: BalanceReport,
)
    requires
        call_ensures(run_balance, (data, sync), report),
    ensures
        report.reminder is Some <==> {
            &&& !sync
            &&& forall|k: int|
                0 <= k < 6 ==> (#[trigger] report.output@->Item_0[k]).1 == CellView::Amount(0)
        },
        report.reminder matches Some(text) ==> text@
            == "Remember to sync gun with -s or --sync to ensure balances are up to date. i.e. run `gun -s balance` "@,
{
    let fields = report.output@->Item_0;
    if forall|k: int| 0 <= k < 6 ==> (#[trigger] fields[k]).1 == CellView::Amount(0) {
        assert(fields[3].1 == CellView::Amount(0));
        assert(fields[4].1 == CellView::Amount(0));
        assert(fields[5].1 == CellView::Amount(0));
    }
}

/// A balance fits exactly where what is available, locked and in use each fits in 64 bits and,
/// where the wallet was not synced, their sum does. What is shown is those amounts.
pub proof fn balance_fits_by_its_sums(
    data: &BalanceData,
    sync: bool,
    fits: bool,
    report: BalanceReport,
)
    requires
        call_ensures(balance_in_range, (data, sync), fits),
        call_ensures(run_balance, (data, sync), report),
    ensures
        ({
            let available = report.output@->Item_0[3].1->Amount_0;
            let locked = report.output@->Item_0[4].1->Amount_0;
            let in_use = report.output@->Item_0[5].1->Amount_0;
            fits <==> {
                &&& available <= u64::MAX
                &&& locked <= u64::MAX
                &&& in_use <= u64::MAX
                &&& sync || available + locked + in_use <= u64::MAX
            }
        }),
{
}

} // verus!
