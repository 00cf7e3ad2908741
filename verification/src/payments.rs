//! Payments: sending coins to an address, and splitting them into outputs of one size.
use vstd::prelude::*;

use crate::encoding::{payload_script, script_pubkey};
use crate::plan::{SplitChange, TxPlan, TxPlanView};
use crate::spend::{first_step, SpendEventView, SpendOpt, SpendOptView, SpendStep};
use crate::spend_laws::{builder_follows_plan, may_run, plan_keeps_what_it_holds_back, run};
use crate::types::{
    utxo_views, Address, Amount, LocalUtxo, LocalUtxoView, OutPoint, PayloadView, Script,
};

verus! {

/// How much to send.
#[derive(Clone, Copy, Debug, PartialEq, Eq, Structural)]
pub enum ValueChoice {
    /// All there is.
    All,
    /// This much.
    Amount(Amount),
}

/// What to send to whom.
#[derive(Debug, PartialEq, Eq)]
pub struct SendOpt {
    /// The amount to send with denomination e.g. 0.1BTC
    pub value: ValueChoice,
    /// The address to send the coins to
    pub to: Address,
    pub spend_opt: SpendOpt,
}

/// How to split coins.
#[derive(Debug, PartialEq, Eq)]
pub struct SplitOpt {
    /// The value of each output (best if this divides total)
    pub output_size: Amount,
    /// Number of outputs to create. If omitted it will use the maximum possible.
    pub n: Option<usize>,
    pub spend_opt: SpendOpt,
}

/// The plan of sending `value` to the script `to`.
pub open spec fn send_plan(value: ValueChoice, to: Seq<u8>) -> TxPlanView {
    match value {
        ValueChoice::All => TxPlanView {
            drain_wallet: true,
            drain_to: Some(to),
            ..TxPlanView::empty()
        },
        ValueChoice::Amount(amount) => TxPlanView {
            recipients: seq![(to, amount.sat)],
            ..TxPlanView::empty()
        },
    }
}

/// Starts to send coins.
pub fn run_send(send_opt: SendOpt) -> (step: SpendStep)
    requires
        send_opt.to.well_formed(),
    ensures
        step.spend.opt == send_opt.spend_opt,
        step@ == first_step(send_plan(send_opt.value, payload_script(send_opt.to.payload@))),
{
    let SendOpt { to, value, spend_opt } = send_opt;
    let mut plan = TxPlan::new();
    match value {
        ValueChoice::All => {
            plan.drain_wallet = true;
            plan.drain_to = Some(script_pubkey(&to));
        },
        ValueChoice::Amount(amount) => {
            plan.add_recipient(script_pubkey(&to), amount.as_sat());
        },
    }
    assert(plan@ =~= send_plan(value, payload_script(to.payload@)));
    spend_opt.spend_coins(plan)
}

/// The outputs that have a value already.
pub open spec fn has_value(size: u64) -> spec_fn(LocalUtxoView) -> bool {
    |u: LocalUtxoView| u.txout.value == size
}

/// The references to the outputs that have the value already, in their order.
pub open spec fn already_correct(unspent: Seq<LocalUtxoView>, size: u64) -> Seq<OutPoint> {
    unspent.filter(has_value(size)).map_values(|u: LocalUtxoView| u.outpoint)
}

/// The plan of splitting coins. The outputs made first go to the scripts `change`.
pub open spec fn split_plan(
    output_size: Amount,
    n: Option<usize>,
    unspent: Seq<LocalUtxoView>,
    change: Seq<Script>,
) -> TxPlanView {
    TxPlanView {
        recipients: change.map_values(|s: Script| (s@, output_size.sat)),
        drain_wallet: n is None,
        unspendable: already_correct(unspent, output_size.sat),
        split_change: match n {
            Some(_) => None,
            None => Some(SplitChange { size: output_size.sat, at_most: usize::MAX }),
        },
        ..TxPlanView::empty()
    }
}

impl SplitOpt {
    /// How many new change addresses splitting needs: one for each output, or one where as many
    /// outputs as possible are made, so that there is at least one of the right size.
    pub open spec fn change_needed(self) -> nat {
        match self.n {
            Some(n) => n as nat,
            None => 1,
        }
    }

    /// How many new change addresses splitting needs.
    pub fn change_addresses(&self) -> (count: usize)
        ensures
            count == self.change_needed(),
    {
        match self.n {
            Some(n) => n,
            None => 1,
        }
    }
}

/// Collects the outputs that have the value already.
fn collect_correct(unspent: &Vec<LocalUtxo>, size: u64) -> (outpoints: Vec<OutPoint>)
    ensures
        outpoints@ == already_correct(utxo_views(unspent@), size),
{
    let ghost all = utxo_views(unspent@);
    let mut outpoints: Vec<OutPoint> = Vec::new();
    let mut i: usize = 0;
    proof {
        reveal(Seq::filter);
        assert(already_correct(all.take(0), size) =~= Seq::empty());
    }
    while i < unspent.len()
        invariant
            i <= unspent.len(),
            all == utxo_views(unspent@),
            outpoints@ == already_correct(all.take(i as int), size),
        decreases unspent.len() - i,
    {
        let utxo = &unspent[i];
        if utxo.txout.value == size {
            outpoints.push(utxo.outpoint);
        }
        proof {
            reveal(Seq::filter);
            assert(all.take(i + 1).drop_last() =~= all.take(i as int));
            assert(all.take(i + 1).last() == utxo@);
            assert(outpoints@ =~= already_correct(all.take(i + 1), size));
        }
        i += 1;
    }
    proof {
        assert(all.take(all.len() as int) =~= all);
    }
    outpoints
}

/// Starts to split coins, given the unspent outputs and the new change scripts.
pub fn run_split_cmd(opt: SplitOpt, unspent: &Vec<LocalUtxo>, change: Vec<Script>) -> (step:
    SpendStep)
    requires
        change@.len() == opt.change_needed(),
    ensures
        step.spend.opt == opt.spend_opt,
        step@ == first_step(split_plan(opt.output_size, opt.n, utxo_views(unspent@), change@)),
{
    let SplitOpt { output_size, n, spend_opt } = opt;
    let mut plan = TxPlan::new();
    plan.unspendable = collect_correct(unspent, output_size.as_sat());
    let ghost held = plan.unspendable@;
    let mut i: usize = 0;
    while i < change.len()
        invariant
            i <= change.len(),
            plan@ == (TxPlanView {
                recipients: change@.take(i as int).map_values(|s: Script| (s@, output_size.sat)),
                unspendable: held,
                ..TxPlanView::empty()
            }),
        decreases change.len() - i,
    {
        plan.add_recipient(change[i].clone(), output_size.as_sat());
        proof {
            assert(change@.take(i + 1).map_values(|s: Script| (s@, output_size.sat))
                =~= change@.take(i as int).map_values(|s: Script| (s@, output_size.sat)).push(
                (change@[i as int]@, output_size.sat),
            ));
        }
        i += 1;
    }
    if n.is_none() {
        plan.drain_wallet = true;
        plan.split_change = Some(SplitChange { size: output_size.as_sat(), at_most: usize::MAX });
    }
    proof {
        assert(change@.take(change@.len() as int) =~= change@);
        assert(plan@ =~= split_plan(output_size, n, utxo_views(unspent@), change@));
    }
    spend_opt.spend_coins(plan)
}

/// However sending goes, the builder is set up to pay what was asked for to the script of the
/// address and to nobody else: the amount as the one recipient, or everything as what is left
/// over when there is no recipient.
pub proof fn builder_pays_the_address(
    opt: SpendOptView,
    value: ValueChoice,
    to: PayloadView,
    events: Seq<SpendEventView>,
    i: int,
)
    requires
        may_run(opt, send_plan(value, payload_script(to)), events),
        0 <= i < run(opt, send_plan(value, payload_script(to)), events).actions.len(),
        run(opt, send_plan(value, payload_script(to)), events).actions[i] is Prepare,
    ensures
        ({
            let built = run(opt, send_plan(value, payload_script(to)), events).actions[i]->plan;
            &&& built.split_change is None
            &&& match value {
                ValueChoice::All => {
                    &&& built.recipients.len() == 0
                    &&& built.drain_wallet
                    &&& built.drain_to == Some(payload_script(to))
                },
                ValueChoice::Amount(amount) => {
                    &&& built.recipients == seq![(payload_script(to), amount.sat)]
                    &&& !built.drain_wallet
                    &&& built.drain_to is None
                },
            }
        }),
{
    builder_follows_plan(opt, send_plan(value, payload_script(to)), events, i);
}

/// However splitting goes, every output that the builder is set up to make has the size asked for,
/// and there is one for each change script.
pub proof fn split_outputs_have_the_size(
    opt: SpendOptView,
    output_size: Amount,
    n: Option<usize>,
    unspent: Seq<LocalUtxoView>,
    change: Seq<Script>,
    events: Seq<SpendEventView>,
    i: int,
    k: int,
)
    requires
        may_run(opt, split_plan(output_size, n, unspent, change), events),
        0 <= i < run(opt, split_plan(output_size, n, unspent, change), events).actions.len(),
        run(opt, split_plan(output_size, n, unspent, change), events).actions[i] is Prepare,
        0 <= k < change.len(),
    ensures
        ({
            let built = run(
                opt,
                split_plan(output_size, n, unspent, change),
                events,
            ).actions[i]->plan;
            &&& built.recipients.len() == change.len()
            &&& built.recipients[k] == (change[k]@, output_size.sat)
            &&& built.split_change is Some ==> built.split_change->0.size == output_size.sat
            &&& built.split_change is Some <==> n is None
        }),
{
    builder_follows_plan(opt, split_plan(output_size, n, unspent, change), events, i);
}

/// Outputs that have the size already, and only those, are kept from being split, as long as no
/// output is in use or the user allowed to spend those. (Where outputs in use are held back, they
/// take the place of these.)
pub proof fn split_leaves_correct_outputs(
    opt: SpendOptView,
    output_size: Amount,
    n: Option<usize>,
    unspent: Seq<LocalUtxoView>,
    change: Seq<Script>,
    events: Seq<SpendEventView>,
    i: int,
    outpoint: OutPoint,
)
    requires
        may_run(opt, split_plan(output_size, n, unspent, change), events),
        0 <= i < run(opt, split_plan(output_size, n, unspent, change), events).actions.len(),
        run(opt, split_plan(output_size, n, unspent, change), events).actions[i] is Prepare,
        opt.spend_in_use || events[0]->InUse_0.len() == 0,
    ensures
        run(
            opt,
            split_plan(output_size, n, unspent, change),
            events,
        ).actions[i]->plan.unspendable.contains(outpoint) <==> exists|k: int|
            0 <= k < unspent.len() && (#[trigger] unspent[k]).outpoint == outpoint
                && unspent[k].txout.value == output_size.sat,
{
    plan_keeps_what_it_holds_back(opt, split_plan(output_size, n, unspent, change), events, i);
    lemma_already_correct(unspent, output_size.sat, outpoint);
}

proof fn lemma_already_correct(unspent: Seq<LocalUtxoView>, size: u64, outpoint: OutPoint)
    ensures
        already_correct(unspent, size).contains(outpoint) <==> exists|k: int|
            0 <= k < unspent.len() && (#[trigger] unspent[k]).outpoint == outpoint
                && unspent[k].txout.value == size,
    decreases unspent.len(),
{
    reveal(Seq::filter);
    let found = already_correct(unspent, size);
    if unspent.len() > 0 {
        let rest = unspent.drop_last();
        let before = already_correct(rest, size);
        lemma_already_correct(rest, size, outpoint);
        if has_value(size)(unspent.last()) {
            assert(found =~= before.push(unspent.last().outpoint));
        } else {
            assert(found =~= before);
        }
        if before.contains(outpoint) {
            let k = choose|k: int|
                0 <= k < rest.len() && (#[trigger] rest[k]).outpoint == outpoint
                    && rest[k].txout.value == size;
            assert(unspent[k] == rest[k]);
            let j = choose|j: int| 0 <= j < before.len() && before[j] == outpoint;
            assert(found[j] == outpoint);
        }
        if found.contains(outpoint) && !before.contains(outpoint) {
            let j = choose|j: int| 0 <= j < found.len() && found[j] == outpoint;
            if j < before.len() {
                assert(before[j] == outpoint);
            }
            assert(unspent[unspent.len() - 1].outpoint == outpoint);
        }
        if exists|k: int|
            0 <= k < unspent.len() && (#[trigger] unspent[k]).outpoint == outpoint
                && unspent[k].txout.value == size {
            let k = choose|k: int|
                0 <= k < unspent.len() && (#[trigger] unspent[k]).outpoint == outpoint
                    && unspent[k].txout.value == size;
            if k < rest.len() {
                assert(rest[k] == unspent[k]);
            } else {
                assert(found[found.len() - 1] == outpoint);
            }
        }
    } else {
        assert(found =~= Seq::empty());
    }
}

} // verus!
