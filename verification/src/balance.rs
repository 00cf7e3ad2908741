//! The wallet's balance.
use vstd::prelude::*;

use crate::output::{fields_view, Cell, CellView, CmdOutput, CmdOutputView};
use crate::transactions::{find_transaction, is_first};
use crate::types::{
    tx_views, utxo_views, Amount, KeychainKind, LocalUtxo, LocalUtxoView, OutPoint,
    TransactionDetails, TransactionDetailsView, Txid,
};
use crate::values::{lemma_total_prefix, lemma_total_step, total_value};

verus! {

/// A bet, as far as it bears on the balance.
#[derive(Clone, Copy, Debug, PartialEq, Eq, Structural)]
pub enum BetState {
    /// In a block and not decided: what the wallet put in is locked.
    Included { local_value: Amount },
    /// Won and not claimed: the joint output can be claimed.
    Won { joint_output_value: Amount },
    /// Any other state.
    Other,
}

/// What the balance is computed from.
#[derive(Debug, PartialEq, Eq)]
pub struct BalanceData {
    pub bets: Vec<BetState>,
    pub transactions: Vec<TransactionDetails>,
    pub unspent: Vec<LocalUtxo>,
    /// The outputs that a protocol (like a bet) is using.
    pub in_use: Vec<OutPoint>,
}

/// The mathematical value of a [`BalanceData`].
pub struct BalanceDataView {
    pub bets: Seq<BetState>,
    pub transactions: Seq<TransactionDetailsView>,
    pub unspent: Seq<LocalUtxoView>,
    pub in_use: Seq<OutPoint>,
}

impl View for BalanceData {
    type V = BalanceDataView;

    open spec fn view(&self) -> BalanceDataView {
        BalanceDataView {
            bets: self.bets@,
            transactions: tx_views(self.transactions@),
            unspent: utxo_views(self.unspent@),
            in_use: self.in_use@,
        }
    }
}

/// The part of the balance that an unspent output counts toward.
#[derive(Clone, Copy, Debug, PartialEq, Eq, Structural)]
pub enum Bucket {
    Confirmed,
    Unconfirmed,
    InUse,
}

/// What a bet locks.
pub open spec fn locked_by(bet: BetState) -> nat {
    match bet {
        BetState::Included { local_value } => local_value.sat as nat,
        _ => 0,
    }
}

/// What a bet has won that is not claimed yet.
pub open spec fn won_by(bet: BetState) -> nat {
    match bet {
        BetState::Won { joint_output_value } => joint_output_value.sat as nat,
        _ => 0,
    }
}

/// What bets lock, taken together.
pub open spec fn total_locked(bets: Seq<BetState>) -> nat
    decreases bets.len(),
{
    if bets.len() == 0 {
        0
    } else {
        total_locked(bets.drop_last()) + locked_by(bets.last())
    }
}

/// What bets have won that is not claimed yet, taken together.
pub open spec fn total_won(bets: Seq<BetState>) -> nat
    decreases bets.len(),
{
    if bets.len() == 0 {
        0
    } else {
        total_won(bets.drop_last()) + won_by(bets.last())
    }
}

/// Whether the wallet's record of the transaction `txid` has it in a block.
pub open spec fn is_confirmed(txs: Seq<TransactionDetailsView>, txid: Txid) -> bool {
    exists|i: int| #[trigger] is_first(txs, txid, i) && txs[i].confirmation_time is Some
}

impl BalanceDataView {
    /// Where an unspent output counts. What is in use counts as nothing else; an unconfirmed output
    /// counts as confirmed if it is the wallet's own change.
    pub open spec fn bucket(self, utxo: LocalUtxoView) -> Bucket {
        if self.in_use.contains(utxo.outpoint) {
            Bucket::InUse
        } else if is_confirmed(self.transactions, utxo.outpoint.txid) || utxo.keychain
            == KeychainKind::Internal {
            Bucket::Confirmed
        } else {
            Bucket::Unconfirmed
        }
    }

    /// The outputs that count toward a part of the balance.
    pub open spec fn counts_toward(self, bucket: Bucket) -> spec_fn(LocalUtxoView) -> bool {
        |utxo: LocalUtxoView| self.bucket(utxo) == bucket
    }

    /// The value of the unspent outputs that count toward a part of the balance.
    pub open spec fn value_in(self, bucket: Bucket) -> nat {
        total_value(self.unspent.filter(self.counts_toward(bucket)))
    }

    /// What can be spent, counting what has been won.
    pub open spec fn available(self) -> nat {
        self.value_in(Bucket::Confirmed) + self.value_in(Bucket::Unconfirmed) + total_won(self.bets)
    }

    /// All there is.
    pub open spec fn everything(self) -> nat {
        self.available() + total_locked(self.bets) + self.value_in(Bucket::InUse)
    }

    /// The sums that are formed fit in 64 bits. All of it is added up only where the wallet was
    /// not synced.
    pub open spec fn in_range(self, sync: bool) -> bool {
        &&& self.available() <= u64::MAX
        &&& total_locked(self.bets) <= u64::MAX
        &&& self.value_in(Bucket::InUse) <= u64::MAX
        &&& !sync ==> self.everything() <= u64::MAX
    }

    /// The balance as shown to the user.
    pub open spec fn item(self) -> CmdOutputView {
        CmdOutputView::Item(
            seq![
                ("confirmed"@, CellView::Amount(self.value_in(Bucket::Confirmed))),
                ("unconfirmed"@, CellView::Amount(self.value_in(Bucket::Unconfirmed))),
                ("unclaimed"@, CellView::Amount(total_won(self.bets))),
                ("available"@, CellView::Amount(self.available())),
                ("locked"@, CellView::Amount(total_locked(self.bets))),
                ("in-use"@, CellView::Amount(self.value_in(Bucket::InUse))),
            ],
        )
    }
}

/// The advice given when there is nothing and the wallet was not synced.
pub open spec fn sync_reminder() -> Seq<char> {
    "Remember to sync gun with -s or --sync to ensure balances are up to date. i.e. run `gun -s balance` "@
}

/// The balance, and advice for the user where there is any.
#[derive(Debug, PartialEq, Eq)]
pub struct BalanceReport {
    pub output: CmdOutput,
    pub reminder: Option<&'static str>,
}

/// The parts of the balance.
struct Tally {
    confirmed: Amount,
    unconfirmed: Amount,
    unclaimed: Amount,
    locked: Amount,
    in_use: Amount,
}

impl Tally {
    spec fn of(self, data: BalanceDataView) -> bool {
        &&& self.confirmed.sat == data.value_in(Bucket::Confirmed)
        &&& self.unconfirmed.sat == data.value_in(Bucket::Unconfirmed)
        &&& self.in_use.sat == data.value_in(Bucket::InUse)
        &&& self.unclaimed.sat == total_won(data.bets)
        &&& self.locked.sat == total_locked(data.bets)
    }
}

proof fn lemma_bets_prefix(bets: Seq<BetState>, i: int)
    requires
        0 <= i <= bets.len(),
    ensures
        total_locked(bets.take(i)) <= total_locked(bets),
        total_won(bets.take(i)) <= total_won(bets),
    decreases bets.len(),
{
    if i < bets.len() {
        lemma_bets_prefix(bets.drop_last(), i);
        assert(bets.drop_last().take(i) =~= bets.take(i));
    } else {
        assert(bets.take(i) =~= bets);
    }
}

/// Where an unspent output counts.
fn bucket_of(data: &BalanceData, utxo: &LocalUtxo) -> (bucket: Bucket)
    ensures
        bucket == data@.bucket(utxo@),
{
    if utxo.outpoint.is_in(&data.in_use) {
        return Bucket::InUse;
    }
    let confirmed = match find_transaction(&data.transactions, &utxo.outpoint.txid) {
        Some(i) => data.transactions[i].confirmation_time.is_some(),
        None => false,
    };
    proof {
        let txs = tx_views(data.transactions@);
        let txid = utxo.outpoint.txid;
        assert forall|i: int, j: int| is_first(txs, txid, i) && is_first(txs, txid, j) implies i
            == j by {}
        if confirmed {
            assert(is_confirmed(txs, txid));
        }
        assert forall|i: int| 0 <= i < txs.len() implies txs[i] == data.transactions@[i]@ by {}
    }
    if confirmed {
        Bucket::Confirmed
    } else {
        match utxo.keychain {
            KeychainKind::External => Bucket::Unconfirmed,
            KeychainKind::Internal => Bucket::Confirmed,
        }
    }
}

/// What bets lock and have won, or `None` where a sum does not fit.
fn tally_bets(bets: &Vec<BetState>) -> (sums: Option<(Amount, Amount)>)
    ensures
        sums is Some <==> total_locked(bets@) <= u64::MAX && total_won(bets@) <= u64::MAX,
        sums matches Some(s) ==> s.0.sat == total_locked(bets@) && s.1.sat == total_won(bets@),
{
    let mut locked: Amount = Amount::from_sat(0);
    let mut won: Amount = Amount::from_sat(0);
    let mut i: usize = 0;
    while i < bets.len()
        invariant
            i <= bets.len(),
            locked.sat == total_locked(bets@.take(i as int)),
            won.sat == total_won(bets@.take(i as int)),
        decreases bets.len() - i,
    {
        proof {
            assert(bets@.take(i + 1).drop_last() =~= bets@.take(i as int));
            lemma_bets_prefix(bets@, i + 1);
        }
        let (more_locked, more_won) = match bets[i] {
            BetState::Included { local_value } => (local_value, Amount::from_sat(0)),
            BetState::Won { joint_output_value } => (Amount::from_sat(0), joint_output_value),
            BetState::Other => (Amount::from_sat(0), Amount::from_sat(0)),
        };
        match (locked.checked_add(more_locked), won.checked_add(more_won)) {
            (Some(l), Some(w)) => {
                locked = l;
                won = w;
            },
            _ => {
                return None;
            },
        }
        i += 1;
    }
    proof {
        assert(bets@.take(bets@.len() as int) =~= bets@);
    }
    Some((locked, won))
}

/// Adds up the parts of the balance, or gives `None` where one does not fit.
fn tally(data: &BalanceData) -> (sums: Option<Tally>)
    ensures
        sums is Some <==> {
            &&& data@.value_in(Bucket::Confirmed) <= u64::MAX
            &&& data@.value_in(Bucket::Unconfirmed) <= u64::MAX
            &&& data@.value_in(Bucket::InUse) <= u64::MAX
            &&& total_locked(data@.bets) <= u64::MAX
            &&& total_won(data@.bets) <= u64::MAX
        },
        sums matches Some(t) ==> t.of(data@),
{
    let (locked, unclaimed) = match tally_bets(&data.bets) {
        Some(sums) => sums,
        None => return None,
    };
    let ghost utxos = data@.unspent;
    let ghost pc = data@.counts_toward(Bucket::Confirmed);
    let ghost pu = data@.counts_toward(Bucket::Unconfirmed);
    let ghost pi = data@.counts_toward(Bucket::InUse);
    let mut confirmed: Amount = Amount::from_sat(0);
    let mut unconfirmed: Amount = Amount::from_sat(0);
    let mut in_use: Amount = Amount::from_sat(0);
    let mut i: usize = 0;
    proof {
        reveal(Seq::filter);
    }
    while i < data.unspent.len()
        invariant
            i <= data.unspent.len(),
            utxos == data@.unspent,
            utxos.len() == data.unspent@.len(),
            pc == data@.counts_toward(Bucket::Confirmed),
            pu == data@.counts_toward(Bucket::Unconfirmed),
            pi == data@.counts_toward(Bucket::InUse),
            confirmed.sat == total_value(utxos.take(i as int).filter(pc)),
            unconfirmed.sat == total_value(utxos.take(i as int).filter(pu)),
            in_use.sat == total_value(utxos.take(i as int).filter(pi)),
        decreases data.unspent.len() - i,
    {
        let utxo = &data.unspent[i];
        proof {
            assert(utxos[i as int] == utxo@);
            lemma_total_step(utxos, pc, i as int);
            lemma_total_step(utxos, pu, i as int);
            lemma_total_step(utxos, pi, i as int);
            lemma_total_prefix(utxos, pc, i + 1);
            lemma_total_prefix(utxos, pu, i + 1);
            lemma_total_prefix(utxos, pi, i + 1);
        }
        let value = Amount::from_sat(utxo.txout.value);
        match bucket_of(data, utxo) {
            Bucket::Confirmed => match confirmed.checked_add(value) {
                Some(sum) => {
                    confirmed = sum;
                },
                None => {
                    return None;
                },
            },
            Bucket::Unconfirmed => match unconfirmed.checked_add(value) {
                Some(sum) => {
                    unconfirmed = sum;
                },
                None => {
                    return None;
                },
            },
            Bucket::InUse => match in_use.checked_add(value) {
                Some(sum) => {
                    in_use = sum;
                },
                None => {
                    return None;
                },
            },
        }
        i += 1;
    }
    proof {
        assert(utxos.take(utxos.len() as int) =~= utxos);
    }
    Some(Tally { confirmed, unconfirmed, unclaimed, locked, in_use })
}

/// Whether the sums of the balance fit in 64 bits.
pub fn balance_in_range(data: &BalanceData, sync: bool) -> (fits: bool)
    ensures
        fits == data@.in_range(sync),
{
    match tally(data) {
        Some(t) => match t.confirmed.checked_add(t.unconfirmed) {
            Some(owned) => match owned.checked_add(t.unclaimed) {
                Some(available) => {
                    sync || match available.checked_add(t.locked) {
                        Some(sum) => sum.checked_add(t.in_use).is_some(),
                        None => false,
                    }
                },
                None => false,
            },
            None => false,
        },
        None => false,
    }
}

/// Shows the balance. `sync` says whether the wallet was synced just before.
pub fn run_balance(data: &BalanceData, sync: bool) -> (report: BalanceReport)
    requires
        data@.in_range(sync),
    ensures
        report.output@ == data@.item(),
        report.reminder is Some <==> !sync && data@.everything() == 0,
        report.reminder matches Some(text) ==> text@ == sync_reminder(),
{
    let t = tally(data).unwrap();
    let available: u64 = t.confirmed.sat + t.unconfirmed.sat + t.unclaimed.sat;
    let reminder = if !sync && available + t.locked.sat + t.in_use.sat == 0 {
        Some(
            "Remember to sync gun with -s or --sync to ensure balances are up to date. i.e. run `gun -s balance` ",
        )
    } else {
        None
    };
    let fields = vec![
        ("confirmed", Cell::Amount(t.confirmed)),
        ("unconfirmed", Cell::Amount(t.unconfirmed)),
        ("unclaimed", Cell::Amount(t.unclaimed)),
        ("available", Cell::Amount(Amount::from_sat(available))),
        ("locked", Cell::Amount(t.locked)),
        ("in-use", Cell::Amount(t.in_use)),
    ];
    assert(fields_view(fields@) =~= data@.item()->Item_0);
    BalanceReport { output: CmdOutput::Item(fields), reminder }
}

/// Every unspent output counts toward exactly one part of the balance: the parts add up to the
/// value of all of them.
pub proof fn balance_parts_add_up(data: BalanceDataView)
    ensures
        data.value_in(Bucket::Confirmed) + data.value_in(Bucket::Unconfirmed) + data.value_in(
            Bucket::InUse,
        ) == total_value(data.unspent),
        data.everything() == total_value(data.unspent) + total_won(data.bets) + total_locked(
            data.bets,
        ),
{
    lemma_parts_of_prefix(data, data.unspent.len() as int);
    assert(data.unspent.take(data.unspent.len() as int) =~= data.unspent);
}

proof fn lemma_parts_of_prefix(data: BalanceDataView, i: int)
    requires
        0 <= i <= data.unspent.len(),
    ensures
        ({
            let part = data.unspent.take(i);
            total_value(part.filter(data.counts_toward(Bucket::Confirmed))) + total_value(
                part.filter(data.counts_toward(Bucket::Unconfirmed)),
            ) + total_value(part.filter(data.counts_toward(Bucket::InUse))) == total_value(part)
        }),
    decreases i,
{
    if i > 0 {
        lemma_parts_of_prefix(data, i - 1);
        lemma_total_step(data.unspent, data.counts_toward(Bucket::Confirmed), i - 1);
        lemma_total_step(data.unspent, data.counts_toward(Bucket::Unconfirmed), i - 1);
        lemma_total_step(data.unspent, data.counts_toward(Bucket::InUse), i - 1);
        assert(data.unspent.take(i).drop_last() =~= data.unspent.take(i - 1));
    } else {
        reveal(Seq::filter);
    }
}

} // verus!
