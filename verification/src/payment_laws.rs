//! What holds of every payment that is started.
use vstd::prelude::*;

use crate::addresses::lemma_filter_picks;
use crate::encoding::{address_script_reads_back, payload_script, script_payload};
use crate::payments::{
    already_correct, has_value, run_send, run_split_cmd, SendOpt, SplitOpt, ValueChoice,
};
use crate::plan::{TxOrdering, TxPlan};
use crate::spend::{SpendAction, SpendOpt, SpendStep, Stage};
use crate::types::{utxo_views, LocalUtxo, Script};

verus! {

/// Sending starts by reading which outputs are in use, with the user's options as they are. The plan
/// pays the address that was given and nobody else: an amount as the one recipient, with nothing
/// drained, or all there is, with no recipient. It holds no output back and splits no change.
pub proof fn sending_pays_the_address(send_opt: SendOpt, step: SpendStep)
    requires
        send_opt.to.well_formed(),
        call_ensures(run_send, (send_opt,), step),
    ensures
        step.spend.opt == send_opt.spend_opt,
        step.action is ReadInUse,
        step.notice is None,
        step.spend.stage is InUse,
        ({
            let plan = step.spend.stage->plan;
            &&& plan.unspendable@.len() == 0
            &&& plan.split_change is None
            &&& plan.rbf
            &&& plan.ordering == TxOrdering::Bip69Lexicographic
            &&& match send_opt.value {
                ValueChoice::All => {
                    &&& plan.recipients@.len() == 0
                    &&& plan.drain_wallet
                    &&& plan.drain_to is Some
                    &&& plan.drain_to->0.bytes@ == payload_script(send_opt.to.payload@)
                    &&& script_payload(plan.drain_to->0.bytes@) == Some(send_opt.to.payload@)
                },
                ValueChoice::Amount(amount) => {
                    &&& plan.recipients@.len() == 1
                    &&& plan.recipients@[0].0.bytes@ == payload_script(send_opt.to.payload@)
                    &&& script_payload(plan.recipients@[0].0.bytes@) == Some(
                        send_opt.to.payload@,
                    )
                    &&& plan.recipients@[0].1 == amount.sat
                    &&& !plan.drain_wallet
                    &&& plan.drain_to is None
                },
            }
        }),
{
    address_script_reads_back(send_opt.to.payload@);
    let plan = step.spend.stage->plan;
    if let ValueChoice::Amount(amount) = send_opt.value {
        let first = plan@.recipients[0];
        assert(plan@.recipients.len() == plan.recipients@.len());
        assert(first == (plan.recipients@[0].0@, plan.recipients@[0].1));
    } else {
        assert(plan@.recipients.len() == plan.recipients@.len());
    }
}

/// Splitting starts by reading which outputs are in use, with the user's options as they are. The
/// plan pays the size asked for to each change script, in their order. Without a number of outputs
/// it drains the wallet and splits all of the change into outputs of that size; with one it does
/// neither. What has the size already, and only that, is held back.
pub proof fn splitting_makes_outputs_of_the_size(
    opt: SplitOpt,
    unspent: &Vec<LocalUtxo>,
    change: Vec<Script>,
    step: SpendStep,
) -> (at: Seq<int>)
    requires
        call_ensures(run_split_cmd, (opt, unspent, change), step),
    ensures
        step.spend.opt == opt.spend_opt,
        step.action is ReadInUse,
        step.notice is None,
        step.spend.stage is InUse,
        ({
            let plan = step.spend.stage->plan;
            &&& plan.rbf
            &&& plan.ordering == TxOrdering::Bip69Lexicographic
            &&& plan.drain_to is None
            &&& plan.recipients@.len() == change@.len()
            &&& forall|k: int|
                0 <= k < change@.len() ==> (#[trigger] plan.recipients@[k]).0.bytes@
                    == change@[k].bytes@ && plan.recipients@[k].1 == opt.output_size.sat
            &&& plan.drain_wallet <==> opt.n is None
            &&& plan.split_change is Some <==> opt.n is None
            &&& plan.split_change matches Some(split) ==> {
                &&& split.size == opt.output_size.sat
                &&& split.at_most == usize::MAX
            }
            &&& at.len() == plan.unspendable@.len()
            &&& forall|k: int|
                0 <= k < at.len() ==> 0 <= #[trigger] at[k] < unspent@.len()
                    && plan.unspendable@[k] == unspent@[at[k]].outpoint
            &&& forall|j: int, k: int| 0 <= j < k < at.len() ==> #[trigger] at[j] < #[trigger] at[k]
            &&& forall|i: int|
                0 <= i < unspent@.len() ==> (at.contains(i) <==> (
                #[trigger] unspent@[i]).txout.value == opt.output_size.sat)
        }),
{
    let plan = step.spend.stage->plan;
    let size = opt.output_size.sat;
    let all = utxo_views(unspent@);
    assert(plan@.recipients.len() == plan.recipients@.len());
    assert forall|k: int| 0 <= k < change@.len() implies (
    #[trigger] plan.recipients@[k]).0.bytes@ == change@[k].bytes@ && plan.recipients@[k].1
        == size by {
        assert(plan@.recipients[k] == (plan.recipients@[k].0@, plan.recipients@[k].1));
        assert(plan@.recipients[k] == (change@[k]@, size));
    }
    assert(plan.unspendable@ == already_correct(all, size));
    let at = lemma_filter_picks(all, has_value(size));
    assert forall|k: int| 0 <= k < at.len() implies 0 <= #[trigger] at[k] < unspent@.len()
        && plan.unspendable@[k] == unspent@[at[k]].outpoint by {
        assert(all.filter(has_value(size))[k] == all[at[k]]);
        assert(all[at[k]] == unspent@[at[k]]@);
    }
    assert forall|i: int| 0 <= i < unspent@.len() implies (at.contains(i) <==> (
    #[trigger] unspent@[i]).txout.value == size) by {
        assert(all[i] == unspent@[i]@);
        if at.contains(i) {
            let k = choose|k: int| 0 <= k < at.len() && at[k] == i;
            assert(has_value(size)(all[at[k]]));
        }
    }
    at
}

/// Splitting needs a change address for each output that is asked for, and one where as many as
/// possible are made.
pub proof fn splitting_needs_change_addresses(opt: &SplitOpt, count: usize)
    requires
        call_ensures(SplitOpt::change_addresses, (opt,), count),
    ensures
        opt.n matches Some(n) ==> count == n,
        opt.n is None ==> count == 1,
{
}

/// Whatever is planned, spending starts by reading which outputs are in use. The plan stays as it is,
/// but for being replaceable and ordered by BIP 69.
pub proof fn spending_keeps_the_plan(opt: SpendOpt, plan: TxPlan, step: SpendStep)
    requires
        call_ensures(SpendOpt::spend_coins, (opt, plan), step),
    ensures
        step.spend.opt == opt,
        step.action == SpendAction::ReadInUse,
        step.notice is None,
        step.spend.stage is InUse,
        ({
            let started = step.spend.stage->plan;
            &&& started@.recipients == plan@.recipients
            &&& started.drain_wallet == plan.drain_wallet
            &&& started@.drain_to == plan@.drain_to
            &&& started.unspendable@ == plan.unspendable@
            &&& started.split_change == plan.split_change
            &&& started.rbf
            &&& started.ordering == TxOrdering::Bip69Lexicographic
        }),
{
}

} // verus!
