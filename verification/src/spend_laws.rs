//! What holds of every way in which spending coins can go.
use vstd::prelude::*;
use vstd::string::*;

use crate::balance::{BalanceDataView, Bucket};
use crate::encoding::txid_text;
use crate::plan::{TxOrdering, TxPlanView};
use crate::spend::{
    accepts, claimed, first_step, next_step, prepared, replaceable, BetId, Spend, SpendAction,
    SpendActionView, SpendEvent, SpendEventView, SpendOpt, SpendOptView, SpendStep, Stage,
    StageView,
};
use crate::text::decimal;
use crate::types::{LocalUtxoView, OutPoint};

verus! {

/// How far spending has come, and all that was asked for on the way.
pub struct Run {
    pub stage: StageView,
    pub actions: Seq<SpendActionView>,
}

/// Where a sequence of events leads to.
pub open spec fn run(opt: SpendOptView, plan: TxPlanView, events: Seq<SpendEventView>) -> Run
    decreases events.len(),
{
    if events.len() == 0 {
        Run { stage: first_step(plan).stage, actions: seq![first_step(plan).action] }
    } else {
        let before = run(opt, plan, events.drop_last());
        let step = next_step(opt, before.stage, events.last());
        Run { stage: step.stage, actions: before.actions.push(step.action) }
    }
}

/// Each event is one that may happen when it does.
pub open spec fn may_run(opt: SpendOptView, plan: TxPlanView, events: Seq<SpendEventView>) -> bool
    decreases events.len(),
{
    events.len() == 0 || {
        &&& may_run(opt, plan, events.drop_last())
        &&& accepts(run(opt, plan, events.drop_last()).stage, events.last())
    }
}

/// The bets that the transaction claims.
pub open spec fn claims(opt: SpendOptView, events: Seq<SpendEventView>) -> Seq<BetId> {
    claimed(opt, events[2]->Built_claiming)
}

/// The transaction is out: it was decided to broadcast it, and that was not merely printing it.
pub open spec fn is_out(opt: SpendOptView, events: Seq<SpendEventView>) -> bool {
    !opt.print_tx && events[5]->Decided_txid is Some
}

/// What is asked for after `i` events, as long as nothing fails.
pub open spec fn action_at(
    opt: SpendOptView,
    plan: TxPlanView,
    events: Seq<SpendEventView>,
    i: int,
) -> SpendActionView {
    if i == 0 {
        SpendActionView::ReadInUse
    } else if i == 1 {
        SpendActionView::Prepare {
            plan: prepared(opt, replaceable(plan), events[0]->InUse_0),
            fee: opt.fee,
        }
    } else if i == 2 {
        if opt.no_spend_unclaimed {
            SpendActionView::Build
        } else {
            SpendActionView::ClaimBets { bump_claiming: opt.bump_claiming }
        }
    } else if i == 3 {
        SpendActionView::Sign
    } else if i == 4 {
        SpendActionView::Finalize
    } else if i == 5 {
        SpendActionView::Decide { yes: opt.yes, print_tx: opt.print_tx }
    } else if is_out(opt, events) && i - 6 < claims(opt, events).len() {
        SpendActionView::AdvanceBet { bet_id: claims(opt, events)[i - 6] }
    } else {
        SpendActionView::Finish { output: events[5]->Decided_output }
    }
}

/// The first `n` events are those of a course in which nothing fails.
pub open spec fn in_course(events: Seq<SpendEventView>, n: int) -> bool {
    &&& n > 0 ==> events[0] is InUse
    &&& n > 1 ==> events[1] is Prepared
    &&& n > 2 ==> events[2] is Built
    &&& n > 3 ==> events[3] is Signed
    &&& n > 4 ==> events[4] == SpendEventView::Finalized { complete: true }
    &&& n > 5 ==> events[5] is Decided
    &&& forall|i: int| 6 <= i < n ==> #[trigger] events[i] is Advanced || events[i] is NotAdvanced
}

/// How far spending has come tells how many events there were.
pub open spec fn at_stage(opt: SpendOptView, plan: TxPlanView, events: Seq<SpendEventView>) -> bool {
    let n = events.len();
    match run(opt, plan, events).stage {
        StageView::InUse { plan: p } => n == 0 && p == replaceable(plan),
        StageView::Prepared => n == 1,
        StageView::Built => n == 2,
        StageView::Signed { claiming } => n == 3 && claiming == claims(opt, events),
        StageView::Finalized { claiming } => n == 4 && claiming == claims(opt, events),
        StageView::Decision { claiming } => n == 5 && claiming == claims(opt, events),
        StageView::Advanced { claiming, next, txid, output } => {
            &&& n == 6 + next
            &&& claiming == claims(opt, events)
            &&& next < claiming.len()
            &&& is_out(opt, events)
            &&& events[5]->Decided_txid == Some(txid)
            &&& events[5]->Decided_output == output
        },
        StageView::Done => n == 6 + if is_out(opt, events) {
            claims(opt, events).len()
        } else {
            0
        },
        StageView::Failed => 1 <= n <= 6 && events.last() is Failed,
    }
}

/// Spending takes its course: the outputs in use are read, the builder is set up, the transaction
/// is built, signed, finished and decided on, in this order, and if it is out the bets that it
/// claims are advanced one by one. The first failure ends it.
pub proof fn spending_takes_its_course(
    opt: SpendOptView,
    plan: TxPlanView,
    events: Seq<SpendEventView>,
)
    requires
        may_run(opt, plan, events),
    ensures
        at_stage(opt, plan, events),
        ({
            let r = run(opt, plan, events);
            let n = events.len() as int;
            let good = if r.stage is Failed {
                n - 1
            } else {
                n
            };
            &&& r.actions.len() == n + 1
            &&& in_course(events, good)
            &&& forall|i: int| 0 <= i <= good ==> r.actions[i] == action_at(opt, plan, events, i)
            &&& r.stage is Failed ==> r.actions[n] == SpendActionView::Abort
        }),
    decreases events.len(),
{
    let r = run(opt, plan, events);
    if events.len() > 0 {
        let before = events.drop_last();
        spending_takes_its_course(opt, plan, before);
        let rb = run(opt, plan, before);
        let n = events.len() as int;
        let event = events.last();
        assert(accepts(rb.stage, event));
        assert(!(rb.stage is Failed));
        assert forall|i: int| 0 <= i < n implies action_at(opt, plan, before, i) == action_at(
            opt,
            plan,
            events,
            i,
        ) by {
            assert(i > 0 ==> before[0] == events[0]);
            assert(i > 2 ==> before[2] == events[2]);
            assert(i > 5 ==> before[5] == events[5]);
        }
        assert forall|i: int| 0 <= i < n implies r.actions[i] == action_at(
            opt,
            plan,
            events,
            i,
        ) by {
            assert(rb.actions[i] == action_at(opt, plan, before, i));
        }
        assert forall|i: int| 6 <= i < n - 1 implies #[trigger] events[i] is Advanced
            || events[i] is NotAdvanced by {
            assert(before[i] is Advanced || before[i] is NotAdvanced);
        }
    }
}

/// A bet is advanced only after the transaction that claims it is out: not where the transaction
/// is only printed, not where the user decided against it, and not where unclaimed coins were not
/// to be spent.
pub proof fn bets_advance_only_when_out(
    opt: SpendOptView,
    plan: TxPlanView,
    events: Seq<SpendEventView>,
    i: int,
)
    requires
        may_run(opt, plan, events),
        0 <= i < run(opt, plan, events).actions.len(),
        run(opt, plan, events).actions[i] is AdvanceBet,
    ensures
        6 <= i <= events.len(),
        events[5] is Decided,
        events[5]->Decided_txid is Some,
        !opt.print_tx,
        !opt.no_spend_unclaimed,
        events[2] is Built,
        events[2]->Built_claiming.contains(run(opt, plan, events).actions[i]->bet_id),
{
    spending_takes_its_course(opt, plan, events);
    assert(run(opt, plan, events).actions[i] == action_at(opt, plan, events, i));
    assert(claims(opt, events).len() > 0);
    assert(claims(opt, events)[i - 6] == run(opt, plan, events).actions[i]->bet_id);
}

/// Advancing bets one after the other.
pub open spec fn advances(bets: Seq<BetId>) -> Seq<SpendActionView> {
    bets.map_values(|bet_id: BetId| SpendActionView::AdvanceBet { bet_id })
}

/// When all is done and the transaction is out, each bet that it claims was advanced once, in
/// their order, whether or not the ones before could be.
pub proof fn every_claimed_bet_is_advanced(
    opt: SpendOptView,
    plan: TxPlanView,
    events: Seq<SpendEventView>,
)
    requires
        may_run(opt, plan, events),
        run(opt, plan, events).stage is Done,
        is_out(opt, events),
    ensures
        run(opt, plan, events).actions.subrange(6, events.len() as int) == advances(
            claims(opt, events),
        ),
{
    spending_takes_its_course(opt, plan, events);
    let actions = run(opt, plan, events).actions;
    let advanced = actions.subrange(6, events.len() as int);
    let expected = advances(claims(opt, events));
    assert forall|k: int| 0 <= k < expected.len() implies advanced[k] == expected[k] by {
        assert(actions[k + 6] == action_at(opt, plan, events, k + 6));
    }
    assert(advanced =~= expected);
}

/// When all is done the user gets the answer that came with the decision, whatever became of the
/// bets.
pub proof fn user_gets_the_decision(
    opt: SpendOptView,
    plan: TxPlanView,
    events: Seq<SpendEventView>,
)
    requires
        may_run(opt, plan, events),
        run(opt, plan, events).stage is Done,
    ensures
        events.len() >= 6,
        events[5] is Decided,
        run(opt, plan, events).actions.last() == (SpendActionView::Finish {
            output: events[5]->Decided_output,
        }),
{
    spending_takes_its_course(opt, plan, events);
    let n = events.len() as int;
    assert(run(opt, plan, events).actions[n] == action_at(opt, plan, events, n));
}

/// Nobody is asked whether to broadcast before the transaction is signed and complete.
pub proof fn decision_only_on_complete_transaction(
    opt: SpendOptView,
    plan: TxPlanView,
    events: Seq<SpendEventView>,
    i: int,
)
    requires
        may_run(opt, plan, events),
        0 <= i < run(opt, plan, events).actions.len(),
        run(opt, plan, events).actions[i] is Decide,
    ensures
        i == 5,
        events.len() >= 5,
        events[3] is Signed,
        events[4] == (SpendEventView::Finalized { complete: true }),
{
    spending_takes_its_course(opt, plan, events);
    assert(run(opt, plan, events).actions[i] == action_at(opt, plan, events, i));
}

/// Whenever the user is to decide, `yes` and `print_tx` are the user's own flags: a transaction that
/// is to be printed is never put up for broadcasting, and the user is asked unless `yes` was given.
pub proof fn decision_follows_the_flags(
    opt: SpendOpt,
    plan: TxPlanView,
    events: Seq<SpendEventView>,
    i: int,
)
    requires
        may_run(opt@, plan, events),
        0 <= i < run(opt@, plan, events).actions.len(),
        run(opt@, plan, events).actions[i] is Decide,
    ensures
        run(opt@, plan, events).actions[i]->yes == opt.yes,
        run(opt@, plan, events).actions[i]->print_tx == opt.print_tx,
{
    spending_takes_its_course(opt@, plan, events);
    assert(run(opt@, plan, events).actions[i] == action_at(opt@, plan, events, i));
}

/// A step that lets the user decide passes the user's own flags on.
pub proof fn step_decides_by_the_flags(spend: Spend, event: SpendEvent, step: SpendStep)
    requires
        call_ensures(Spend::step, (spend, event), step),
        step.action is Decide,
    ensures
        step.action->yes == spend.opt.yes,
        step.action->print_tx == spend.opt.print_tx,
{
}

/// What is asked for, one after the other, until something fails: to read which outputs are in use;
/// to set the builder up with the fee as the user wrote it, holding back exactly the outputs in use
/// unless there are none or the user allowed to spend them; to build, claiming bets unless the user
/// declined that; to sign; to finalize; to decide by the user's flags; to advance each bet that was
/// claimed; and to give the answer of the decision.
pub proof fn spending_asks_in_order(
    opt: SpendOpt,
    plan: TxPlanView,
    events: Seq<SpendEventView>,
    i: int,
)
    requires
        may_run(opt@, plan, events),
        0 <= i <= events.len(),
        i < events.len() || !(run(opt@, plan, events).stage is Failed),
    ensures
        run(opt@, plan, events).actions.len() == events.len() + 1,
        ({
            let action = run(opt@, plan, events).actions[i];
            &&& i == 0 ==> action is ReadInUse
            &&& i == 1 ==> {
                &&& events[0] is InUse
                &&& action is Prepare
                &&& action->fee == opt.fee_args.fee@
                &&& action->plan.unspendable == if !opt.spend_in_use && events[0]->InUse_0.len()
                    > 0 {
                    events[0]->InUse_0
                } else {
                    plan.unspendable
                }
            }
            &&& i == 2 ==> {
                &&& opt.no_spend_unclaimed ==> action is Build
                &&& !opt.no_spend_unclaimed ==> action is ClaimBets && action->bump_claiming
                    == opt.bump_claiming
            }
            &&& i == 3 ==> events[2] is Built && action is Sign
            &&& i == 4 ==> events[3] is Signed && action is Finalize
            &&& i == 5 ==> {
                &&& events[4] == SpendEventView::Finalized { complete: true }
                &&& action is Decide
                &&& action->yes == opt.yes
                &&& action->print_tx == opt.print_tx
            }
            &&& i > 5 ==> {
                let out = events[5]->Decided_txid is Some && !opt.print_tx;
                let bets = events[2]->Built_claiming;
                &&& events[5] is Decided
                &&& if out && !opt.no_spend_unclaimed && i - 6 < bets.len() {
                    action is AdvanceBet && action->bet_id == bets[i - 6]
                } else {
                    action is Finish && action->output == events[5]->Decided_output
                }
            }
        }),
{
    spending_takes_its_course(opt@, plan, events);
    assert(run(opt@, plan, events).actions[i] == action_at(opt@, plan, events, i));
}

/// When all is done, there was an event for each of the six steps up to the decision and, where the
/// transaction is out and bets were to be claimed, one for each of those, in their order.
pub proof fn done_after_all_claimed_bets(
    opt: SpendOpt,
    plan: TxPlanView,
    events: Seq<SpendEventView>,
    k: int,
)
    requires
        may_run(opt@, plan, events),
        run(opt@, plan, events).stage is Done,
    ensures
        events.len() >= 6,
        events[5] is Decided,
        events[2] is Built,
        ({
            let bets = events[2]->Built_claiming;
            if events[5]->Decided_txid is Some && !opt.print_tx && !opt.no_spend_unclaimed {
                &&& events.len() == 6 + bets.len()
                &&& 0 <= k < bets.len() ==> run(opt@, plan, events).actions[6 + k] == (
                SpendActionView::AdvanceBet { bet_id: bets[k] })
            } else {
                events.len() == 6
            }
        }),
{
    spending_takes_its_course(opt@, plan, events);
    let bets = events[2]->Built_claiming;
    if 0 <= k < bets.len() && events[5]->Decided_txid is Some && !opt.print_tx
        && !opt.no_spend_unclaimed {
        assert(run(opt@, plan, events).actions[6 + k] == action_at(opt@, plan, events, 6 + k));
    }
}

/// Each step keeps the user's options, and goes from what came of the last action to the next: which
/// action that is, what is then waited for, and what the user is told.
pub proof fn step_follows_the_event(spend: Spend, event: SpendEvent, step: SpendStep)
    requires
        spend.stage@.well_formed(),
        accepts(spend.stage@, event@),
        call_ensures(Spend::step, (spend, event), step),
    ensures
        step.spend.opt == spend.opt,
        match (spend.stage, event) {
            (Stage::InUse { plan }, SpendEvent::InUse(in_use)) => {
                let held = !spend.opt.spend_in_use && in_use@.len() > 0;
                let built = step.action->plan;
                &&& step.spend.stage is Prepared
                &&& step.action is Prepare
                &&& step.action->fee.fee@ == spend.opt.fee_args.fee@
                &&& built@.recipients == plan@.recipients
                &&& built.drain_wallet == plan.drain_wallet
                &&& built@.drain_to == plan@.drain_to
                &&& built.rbf == plan.rbf
                &&& built.ordering == plan.ordering
                &&& built.split_change == plan.split_change
                &&& built.unspendable@ == if held {
                    in_use@
                } else {
                    plan.unspendable@
                }
                &&& step.notice is Some <==> held
                &&& held ==> step.notice->0@ == "note that "@ + decimal(in_use@.len())
                    + " utxos are not availble becuase they are in use"@
            },
            (Stage::Prepared, SpendEvent::Prepared) => {
                &&& step.spend.stage is Built
                &&& spend.opt.no_spend_unclaimed ==> step.action is Build
                &&& !spend.opt.no_spend_unclaimed ==> step.action == (SpendAction::ClaimBets {
                    bump_claiming: spend.opt.bump_claiming,
                })
                &&& step.notice is None
            },
            (Stage::Built, SpendEvent::Built { claiming }) => {
                &&& step.spend.stage is Signed
                &&& spend.opt.no_spend_unclaimed ==> step.spend.stage->Signed_claiming@.len() == 0
                &&& !spend.opt.no_spend_unclaimed ==> step.spend.stage->Signed_claiming@
                    == claiming@
                &&& step.action is Sign
                &&& step.notice is None
            },
            (Stage::Signed { claiming }, SpendEvent::Signed) => {
                &&& step.spend.stage is Finalized
                &&& step.spend.stage->Finalized_claiming@ == claiming@
                &&& step.action is Finalize
                &&& step.notice is None
            },
            (Stage::Finalized { claiming }, SpendEvent::Finalized { complete }) => {
                &&& complete
                &&& step.spend.stage is Decision
                &&& step.spend.stage->Decision_claiming@ == claiming@
                &&& step.action == (SpendAction::Decide {
                    yes: spend.opt.yes,
                    print_tx: spend.opt.print_tx,
                })
                &&& step.notice is None
            },
            (Stage::Decision { claiming }, SpendEvent::Decided { output, txid }) => {
                &&& step.notice is None
                &&& if txid is Some && !spend.opt.print_tx && claiming@.len() > 0 {
                    &&& step.spend.stage is Advanced
                    &&& step.spend.stage->Advanced_claiming@ == claiming@
                    &&& step.spend.stage->next == 0
                    &&& step.spend.stage->txid == txid->0
                    &&& step.spend.stage->output@ == output@
                    &&& step.action == (SpendAction::AdvanceBet { bet_id: claiming@[0] })
                } else {
                    &&& step.spend.stage is Done
                    &&& step.action is Finish
                    &&& step.action->output@ == output@
                }
            },
            (Stage::Advanced { claiming, next, txid, output }, _) => {
                &&& match event {
                    SpendEvent::NotAdvanced(error) => {
                        &&& step.notice is Some
                        &&& step.notice->0@ == "error updating state of bet "@ + decimal(
                            claiming@[next as int] as nat,
                        ) + " after broadcasting claim tx "@ + txid_text(txid) + ": "@ + error@
                    },
                    _ => event is Advanced && step.notice is None,
                }
                &&& if next + 1 < claiming@.len() {
                    &&& step.spend.stage is Advanced
                    &&& step.spend.stage->Advanced_claiming@ == claiming@
                    &&& step.spend.stage->next == next + 1
                    &&& step.spend.stage->txid == txid
                    &&& step.spend.stage->output@ == output@
                    &&& step.action == (SpendAction::AdvanceBet {
                        bet_id: claiming@[next + 1],
                    })
                } else {
                    &&& step.spend.stage is Done
                    &&& step.action is Finish
                    &&& step.action->output@ == output@
                }
            },
            (_, SpendEvent::Failed) => {
                &&& step.spend.stage is Failed
                &&& step.action is Abort
                &&& step.notice is None
            },
            _ => false,
        },
{
}

/// While something is waited for it may come, or fail. A transaction may not be incomplete after it
/// was finalized, a bet that was not advanced is no failure, and after the end nothing may come.
pub proof fn only_what_is_waited_for_may_happen(spend: &Spend, event: &SpendEvent, r: bool)
    requires
        call_ensures(Spend::may_happen, (spend, event), r),
    ensures
        r <==> match spend.stage {
            Stage::InUse { .. } => event is InUse || event is Failed,
            Stage::Prepared => event is Prepared || event is Failed,
            Stage::Built => event is Built || event is Failed,
            Stage::Signed { .. } => event is Signed || event is Failed,
            Stage::Finalized { .. } => {
                event is Failed || (event is Finalized && event->complete)
            },
            Stage::Decision { .. } => event is Decided || event is Failed,
            Stage::Advanced { .. } => event is Advanced || event is NotAdvanced,
            Stage::Done => false,
            Stage::Failed => false,
        },
{
}

/// The builder is set up after the plan that spending began with, made replaceable and ordered by
/// BIP 69: the recipients, the draining and the splitting of the change are as they were.
pub proof fn builder_follows_plan(
    opt: SpendOptView,
    plan: TxPlanView,
    events: Seq<SpendEventView>,
    i: int,
)
    requires
        may_run(opt, plan, events),
        0 <= i < run(opt, plan, events).actions.len(),
        run(opt, plan, events).actions[i] is Prepare,
    ensures
        ({
            let built = run(opt, plan, events).actions[i]->plan;
            &&& i == 1
            &&& built.recipients == plan.recipients
            &&& built.drain_wallet == plan.drain_wallet
            &&& built.drain_to == plan.drain_to
            &&& built.split_change == plan.split_change
            &&& built.rbf
            &&& built.ordering == TxOrdering::Bip69Lexicographic
        }),
{
    spending_takes_its_course(opt, plan, events);
    assert(run(opt, plan, events).actions[i] == action_at(opt, plan, events, i));
}

/// An output in use may not be spent, unless the user allowed it.
pub proof fn outputs_in_use_are_held_back(
    opt: SpendOptView,
    plan: TxPlanView,
    events: Seq<SpendEventView>,
    i: int,
    outpoint: OutPoint,
)
    requires
        may_run(opt, plan, events),
        0 <= i < run(opt, plan, events).actions.len(),
        run(opt, plan, events).actions[i] is Prepare,
        !opt.spend_in_use,
        events[0] is InUse,
        events[0]->InUse_0.contains(outpoint),
    ensures
        run(opt, plan, events).actions[i]->plan.unspendable.contains(outpoint),
{
    spending_takes_its_course(opt, plan, events);
    assert(run(opt, plan, events).actions[i] == action_at(opt, plan, events, i));
}

/// What the balance counts as in use may not be spent, unless the user allowed it.
pub proof fn balance_in_use_is_held_back(
    data: BalanceDataView,
    utxo: LocalUtxoView,
    opt: SpendOptView,
    plan: TxPlanView,
    events: Seq<SpendEventView>,
    i: int,
)
    requires
        data.bucket(utxo) == Bucket::InUse,
        may_run(opt, plan, events),
        0 <= i < run(opt, plan, events).actions.len(),
        run(opt, plan, events).actions[i] is Prepare,
        !opt.spend_in_use,
        events[0] == SpendEventView::InUse(data.in_use),
    ensures
        run(opt, plan, events).actions[i]->plan.unspendable.contains(utxo.outpoint),
{
    outputs_in_use_are_held_back(opt, plan, events, i, utxo.outpoint);
}

/// What the plan held back of its own stays so where no output is in use, or where the user
/// allowed to spend those. Elsewhere the outputs in use take its place.
pub proof fn plan_keeps_what_it_holds_back(
    opt: SpendOptView,
    plan: TxPlanView,
    events: Seq<SpendEventView>,
    i: int,
)
    requires
        may_run(opt, plan, events),
        0 <= i < run(opt, plan, events).actions.len(),
        run(opt, plan, events).actions[i] is Prepare,
        opt.spend_in_use || events[0]->InUse_0.len() == 0,
    ensures
        run(opt, plan, events).actions[i]->plan.unspendable == plan.unspendable,
{
    spending_takes_its_course(opt, plan, events);
    assert(run(opt, plan, events).actions[i] == action_at(opt, plan, events, i));
}

/// A failure ends spending, and after the end nothing happens any more.
pub proof fn failure_ends_spending(opt: SpendOptView, stage: StageView, later: SpendEventView)
    requires
        accepts(stage, SpendEventView::Failed),
    ensures
        next_step(opt, stage, SpendEventView::Failed).stage is Failed,
        next_step(opt, stage, SpendEventView::Failed).action is Abort,
        !accepts(StageView::Failed, later),
        !accepts(StageView::Done, later),
{
}

/// How many kinds of things are still waited for.
pub open spec fn stages_left(stage: StageView) -> nat {
    match stage {
        StageView::InUse { .. } => 7,
        StageView::Prepared => 6,
        StageView::Built => 5,
        StageView::Signed { .. } => 4,
        StageView::Finalized { .. } => 3,
        StageView::Decision { .. } => 2,
        StageView::Advanced { .. } => 1,
        StageView::Done => 0,
        StageView::Failed => 0,
    }
}

/// How many bets are still to be advanced.
pub open spec fn bets_left(stage: StageView) -> int {
    match stage {
        StageView::Advanced { claiming, next, .. } => claiming.len() - next,
        _ => 0,
    }
}

/// Spending comes to an end: each event leaves fewer stages, or as many and fewer bets.
pub proof fn spending_ends(opt: SpendOptView, stage: StageView, event: SpendEventView)
    requires
        stage.well_formed(),
        accepts(stage, event),
    ensures
        ({
            let next = next_step(opt, stage, event).stage;
            &&& next.well_formed()
            &&& bets_left(next) >= 0
            &&& stages_left(next) < stages_left(stage) || (stages_left(next) == stages_left(stage)
                && bets_left(next) < bets_left(stage))
        }),
{
}

} // verus!
