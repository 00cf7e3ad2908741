//! Spending coins: one step after the other, from a plan to a transaction that is broadcast.
//!
//! Each step names what has to be done next. The caller does it and reports what came of it.
use vstd::prelude::*;
use vstd::string::*;

use crate::encoding::{txid_string, txid_text};
use crate::output::{CmdOutput, CmdOutputView};
use crate::plan::{TxOrdering, TxPlan, TxPlanView};
use crate::text::{decimal, decimal_string};
use crate::types::{OutPoint, Txid};

verus! {

/// The number of a bet.
pub type BetId = u32;

/// How to determine the fee.
#[derive(Debug, PartialEq, Eq)]
pub struct FeeArgs {
    /// The fee as the user wrote it.
    pub fee: String,
}

/// How to spend coins.
#[derive(Debug, PartialEq, Eq)]
pub struct SpendOpt {
    pub fee_args: FeeArgs,
    /// Allow spending utxos that are currently being used in a protocol (like a bet).
    pub spend_in_use: bool,
    /// Don't spend unclaimed coins e.g. coins you won from bets
    pub no_spend_unclaimed: bool,
    /// Also spend bets that are already in the "claiming" state replacing the previous
    /// transaction.
    pub bump_claiming: bool,
    /// Don't prompt for answers just answer yes.
    pub yes: bool,
    /// Print the resulting transaction out in hex instead of broadcasting it.
    pub print_tx: bool,
}

/// The mathematical value of a [`SpendOpt`].
#[verifier::ext_equal]
pub struct SpendOptView {
    pub fee: Seq<char>,
    pub spend_in_use: bool,
    pub no_spend_unclaimed: bool,
    pub bump_claiming: bool,
    pub yes: bool,
    pub print_tx: bool,
}

impl View for SpendOpt {
    type V = SpendOptView;

    open spec fn view(&self) -> SpendOptView {
        SpendOptView {
            fee: self.fee_args.fee@,
            spend_in_use: self.spend_in_use,
            no_spend_unclaimed: self.no_spend_unclaimed,
            bump_claiming: self.bump_claiming,
            yes: self.yes,
            print_tx: self.print_tx,
        }
    }
}

/// What is being waited for.
#[derive(Debug, PartialEq, Eq)]
pub enum Stage {
    /// The outputs in use.
    InUse { plan: TxPlan },
    /// The builder, set up after the plan and with its fee.
    Prepared,
    /// The transaction, unsigned.
    Built,
    /// The signatures. The transaction claims these bets.
    Signed { claiming: Vec<BetId> },
    /// The finished transaction.
    Finalized { claiming: Vec<BetId> },
    /// The decision whether to broadcast.
    Decision { claiming: Vec<BetId> },
    /// The new state of a claimed bet, after the transaction was broadcast.
    Advanced { claiming: Vec<BetId>, next: usize, txid: Txid, output: CmdOutput },
    /// Nothing: all is done.
    Done,
    /// Nothing: something failed.
    Failed,
}

/// The mathematical value of a [`Stage`].
pub enum StageView {
    InUse { plan: TxPlanView },
    Prepared,
    Built,
    Signed { claiming: Seq<BetId> },
    Finalized { claiming: Seq<BetId> },
    Decision { claiming: Seq<BetId> },
    Advanced { claiming: Seq<BetId>, next: nat, txid: Txid, output: CmdOutputView },
    Done,
    Failed,
}

impl View for Stage {
    type V = StageView;

    open spec fn view(&self) -> StageView {
        match self {
            Stage::InUse { plan } => StageView::InUse { plan: plan@ },
            Stage::Prepared => StageView::Prepared,
            Stage::Built => StageView::Built,
            Stage::Signed { claiming } => StageView::Signed { claiming: claiming@ },
            Stage::Finalized { claiming } => StageView::Finalized { claiming: claiming@ },
            Stage::Decision { claiming } => StageView::Decision { claiming: claiming@ },
            Stage::Advanced { claiming, next, txid, output } => StageView::Advanced {
                claiming: claiming@,
                next: *next as nat,
                txid: *txid,
                output: output@,
            },
            Stage::Done => StageView::Done,
            Stage::Failed => StageView::Failed,
        }
    }
}

/// What has to be done next.
#[derive(Debug, PartialEq, Eq)]
pub enum SpendAction {
    /// Read which outputs a protocol is using.
    ReadInUse,
    /// Set a transaction builder up after the plan, and give it the fee.
    Prepare { plan: TxPlan, fee: FeeArgs },
    /// Build the transaction so that it claims what was won from bets.
    ClaimBets { bump_claiming: bool },
    /// Build the transaction.
    Build,
    /// Sign it.
    Sign,
    /// Finish it.
    Finalize,
    /// Let the user decide whether to broadcast it, and do so.
    Decide { yes: bool, print_tx: bool },
    /// Take the next action on a bet.
    AdvanceBet { bet_id: BetId },
    /// Give the user the answer that came with the decision.
    Finish { output: CmdOutput },
    /// Give the user the error.
    Abort,
}

/// The mathematical value of a [`SpendAction`].
pub enum SpendActionView {
    ReadInUse,
    Prepare { plan: TxPlanView, fee: Seq<char> },
    ClaimBets { bump_claiming: bool },
    Build,
    Sign,
    Finalize,
    Decide { yes: bool, print_tx: bool },
    AdvanceBet { bet_id: BetId },
    Finish { output: CmdOutputView },
    Abort,
}

impl View for SpendAction {
    type V = SpendActionView;

    open spec fn view(&self) -> SpendActionView {
        match self {
            SpendAction::ReadInUse => SpendActionView::ReadInUse,
            SpendAction::Prepare { plan, fee } => SpendActionView::Prepare {
                plan: plan@,
                fee: fee.fee@,
            },
            SpendAction::ClaimBets { bump_claiming } => SpendActionView::ClaimBets {
                bump_claiming: *bump_claiming,
            },
            SpendAction::Build => SpendActionView::Build,
            SpendAction::Sign => SpendActionView::Sign,
            SpendAction::Finalize => SpendActionView::Finalize,
            SpendAction::Decide { yes, print_tx } => SpendActionView::Decide {
                yes: *yes,
                print_tx: *print_tx,
            },
            SpendAction::AdvanceBet { bet_id } => SpendActionView::AdvanceBet { bet_id: *bet_id },
            SpendAction::Finish { output } => SpendActionView::Finish { output: output@ },
            SpendAction::Abort => SpendActionView::Abort,
        }
    }
}

/// What came of an action.
#[derive(Debug, PartialEq, Eq)]
pub enum SpendEvent {
    /// These outputs are in use.
    InUse(Vec<OutPoint>),
    /// The builder is set up.
    Prepared,
    /// The transaction is built and claims these bets.
    Built { claiming: Vec<BetId> },
    /// It is signed.
    Signed,
    /// Whether it is complete.
    Finalized { complete: bool },
    /// The decision is made, with an answer for the user. There is an id if the transaction is out.
    Decided { output: CmdOutput, txid: Option<Txid> },
    /// The bet has its new state.
    Advanced,
    /// The bet could not be given its new state, for this reason.
    NotAdvanced(String),
    /// The action failed.
    Failed,
}

/// The mathematical value of a [`SpendEvent`].
pub enum SpendEventView {
    InUse(Seq<OutPoint>),
    Prepared,
    Built { claiming: Seq<BetId> },
    Signed,
    Finalized { complete: bool },
    Decided { output: CmdOutputView, txid: Option<Txid> },
    Advanced,
    NotAdvanced(Seq<char>),
    Failed,
}

impl View for SpendEvent {
    type V = SpendEventView;

    open spec fn view(&self) -> SpendEventView {
        match self {
            SpendEvent::InUse(outpoints) => SpendEventView::InUse(outpoints@),
            SpendEvent::Prepared => SpendEventView::Prepared,
            SpendEvent::Built { claiming } => SpendEventView::Built { claiming: claiming@ },
            SpendEvent::Signed => SpendEventView::Signed,
            SpendEvent::Finalized { complete } => SpendEventView::Finalized { complete: *complete },
            SpendEvent::Decided { output, txid } => SpendEventView::Decided {
                output: output@,
                txid: *txid,
            },
            SpendEvent::Advanced => SpendEventView::Advanced,
            SpendEvent::NotAdvanced(error) => SpendEventView::NotAdvanced(error@),
            SpendEvent::Failed => SpendEventView::Failed,
        }
    }
}

/// One step: what is waited for, what has to be done next, and what the user is told.
pub struct SpendStepView {
    pub stage: StageView,
    pub action: SpendActionView,
    pub notice: Option<Seq<char>>,
}

/// The plan that spending starts from: it can be replaced and is ordered by BIP 69.
pub open spec fn replaceable(plan: TxPlanView) -> TxPlanView {
    TxPlanView { rbf: true, ordering: TxOrdering::Bip69Lexicographic, ..plan }
}

/// Whether the outputs in use are kept from being spent.
pub open spec fn holds_back(opt: SpendOptView, in_use: Seq<OutPoint>) -> bool {
    !opt.spend_in_use && in_use.len() > 0
}

/// The plan after it is known which outputs are in use. Those take the place of the outputs that
/// the plan held back before.
pub open spec fn prepared(opt: SpendOptView, plan: TxPlanView, in_use: Seq<OutPoint>) -> TxPlanView {
    if holds_back(opt, in_use) {
        TxPlanView { unspendable: in_use, ..plan }
    } else {
        plan
    }
}

/// What the user is told of `count` outputs that are held back.
pub open spec fn held_back_notice(count: nat) -> Seq<char> {
    "note that "@ + decimal(count) + " utxos are not availble becuase they are in use"@
}

/// What the user is told of a bet that has not got its new state.
pub open spec fn not_advanced_notice(bet_id: BetId, txid: Txid, error: Seq<char>) -> Seq<char> {
    "error updating state of bet "@ + decimal(bet_id as nat) + " after broadcasting claim tx "@
        + txid_text(txid) + ": "@ + error
}

/// The first step.
pub open spec fn first_step(plan: TxPlanView) -> SpendStepView {
    SpendStepView {
        stage: StageView::InUse { plan: replaceable(plan) },
        action: SpendActionView::ReadInUse,
        notice: None,
    }
}

/// The step to the bet number `next` of those claimed, or to the end.
pub open spec fn advance_step(
    claiming: Seq<BetId>,
    next: nat,
    txid: Txid,
    output: CmdOutputView,
    notice: Option<Seq<char>>,
) -> SpendStepView {
    if next < claiming.len() {
        SpendStepView {
            stage: StageView::Advanced { claiming, next, txid, output },
            action: SpendActionView::AdvanceBet { bet_id: claiming[next as int] },
            notice,
        }
    } else {
        SpendStepView { stage: StageView::Done, action: SpendActionView::Finish { output }, notice }
    }
}

/// What may happen while something is waited for: that which is waited for, or a failure. A bet
/// that has not got its new state is no failure. A transaction that is not complete after it was
/// finalized is out of the question.
pub open spec fn accepts(stage: StageView, event: SpendEventView) -> bool {
    match stage {
        StageView::InUse { .. } => event is InUse || event is Failed,
        StageView::Prepared => event is Prepared || event is Failed,
        StageView::Built => event is Built || event is Failed,
        StageView::Signed { .. } => event is Signed || event is Failed,
        StageView::Finalized { .. } => {
            event == SpendEventView::Finalized { complete: true } || event is Failed
        },
        StageView::Decision { .. } => event is Decided || event is Failed,
        StageView::Advanced { .. } => event is Advanced || event is NotAdvanced,
        StageView::Done => false,
        StageView::Failed => false,
    }
}

/// A step without words for the user.
pub open spec fn quiet(stage: StageView, action: SpendActionView) -> SpendStepView {
    SpendStepView { stage, action, notice: None }
}

/// The next step.
pub open spec fn next_step(
    opt: SpendOptView,
    stage: StageView,
    event: SpendEventView,
) -> SpendStepView {
    match (stage, event) {
        (
            StageView::Advanced { claiming, next, txid, output },
            SpendEventView::NotAdvanced(error),
        ) => {
            advance_step(
                claiming,
                next + 1,
                txid,
                output,
                Some(not_advanced_notice(claiming[next as int], txid, error)),
            )
        },
        (StageView::Advanced { claiming, next, txid, output }, _) => {
            advance_step(claiming, next + 1, txid, output, None)
        },
        (StageView::InUse { plan }, SpendEventView::InUse(in_use)) => SpendStepView {
            stage: StageView::Prepared,
            action: SpendActionView::Prepare { plan: prepared(opt, plan, in_use), fee: opt.fee },
            notice: if holds_back(opt, in_use) {
                Some(held_back_notice(in_use.len()))
            } else {
                None
            },
        },
        (StageView::Prepared, SpendEventView::Prepared) => quiet(
            StageView::Built,
            if opt.no_spend_unclaimed {
                SpendActionView::Build
            } else {
                SpendActionView::ClaimBets { bump_claiming: opt.bump_claiming }
            },
        ),
        (StageView::Built, SpendEventView::Built { claiming }) => quiet(
            StageView::Signed { claiming: claimed(opt, claiming) },
            SpendActionView::Sign,
        ),
        (StageView::Signed { claiming }, SpendEventView::Signed) => quiet(
            StageView::Finalized { claiming },
            SpendActionView::Finalize,
        ),
        (StageView::Finalized { claiming }, SpendEventView::Finalized { .. }) => quiet(
            StageView::Decision { claiming },
            SpendActionView::Decide { yes: opt.yes, print_tx: opt.print_tx },
        ),
        (StageView::Decision { claiming }, SpendEventView::Decided { output, txid: Some(txid) }) => {
            if opt.print_tx {
                quiet(StageView::Done, SpendActionView::Finish { output })
            } else {
                advance_step(claiming, 0, txid, output, None)
            }
        },
        (StageView::Decision { .. }, SpendEventView::Decided { output, txid: None }) => quiet(
            StageView::Done,
            SpendActionView::Finish { output },
        ),
        _ => quiet(StageView::Failed, SpendActionView::Abort),
    }
}

/// The bets that the transaction claims: none if it was not to.
pub open spec fn claimed(opt: SpendOptView, claiming: Seq<BetId>) -> Seq<BetId> {
    if opt.no_spend_unclaimed {
        Seq::empty()
    } else {
        claiming
    }
}

/// Coins being spent.
#[derive(Debug, PartialEq, Eq)]
pub struct Spend {
    pub opt: SpendOpt,
    pub stage: Stage,
}

/// One step.
#[derive(Debug, PartialEq, Eq)]
pub struct SpendStep {
    pub spend: Spend,
    /// What has to be done next.
    pub action: SpendAction,
    /// What the user is told.
    pub notice: Option<String>,
}

impl View for SpendStep {
    type V = SpendStepView;

    open spec fn view(&self) -> SpendStepView {
        SpendStepView {
            stage: self.spend.stage@,
            action: self.action@,
            notice: match self.notice {
                Some(text) => Some(text@),
                None => None,
            },
        }
    }
}

impl SpendOpt {
    /// Starts to spend coins after a plan.
    pub fn spend_coins(self, plan: TxPlan) -> (step: SpendStep)
        ensures
            step.spend.opt == self,
            step@ == first_step(plan@),
    {
        let mut plan = plan;
        plan.rbf = true;
        plan.ordering = TxOrdering::Bip69Lexicographic;
        SpendStep {
            spend: Spend { opt: self, stage: Stage::InUse { plan } },
            action: SpendAction::ReadInUse,
            notice: None,
        }
    }
}

/// Writes what the user is told of outputs that are held back.
fn held_back_string(count: usize) -> (s: String)
    ensures
        s@ == held_back_notice(count as nat),
{
    let mut s = "note that ".to_owned();
    s.append(decimal_string(count as u64).as_str());
    s.append(" utxos are not availble becuase they are in use");
    s
}

/// Writes what the user is told of a bet that has not got its new state.
fn not_advanced_string(bet_id: BetId, txid: &Txid, error: &String) -> (s: String)
    ensures
        s@ == not_advanced_notice(bet_id, *txid, error@),
{
    let mut s = "error updating state of bet ".to_owned();
    s.append(decimal_string(bet_id as u64).as_str());
    s.append(" after broadcasting claim tx ");
    s.append(txid_string(txid).as_str());
    s.append(": ");
    s.append(error.as_str());
    s
}

impl StageView {
    /// A bet whose new state is waited for is one of those claimed.
    pub open spec fn well_formed(self) -> bool {
        self matches StageView::Advanced { claiming, next, .. } ==> next < claiming.len()
    }
}

impl Spend {
    /// The step to the bet number `next` of those claimed, or to the end.
    fn advance(
        opt: SpendOpt,
        claiming: Vec<BetId>,
        next: usize,
        txid: Txid,
        output: CmdOutput,
        notice: Option<String>,
    ) -> (step: SpendStep)
        ensures
            step.spend.opt == opt,
            step@ == advance_step(
                claiming@,
                next as nat,
                txid,
                output@,
                match notice {
                    Some(text) => Some(text@),
                    None => None,
                },
            ),
    {
        if next < claiming.len() {
            let bet_id: BetId = claiming[next];
            SpendStep {
                spend: Spend { opt, stage: Stage::Advanced { claiming, next, txid, output } },
                action: SpendAction::AdvanceBet { bet_id },
                notice,
            }
        } else {
            SpendStep {
                spend: Spend { opt, stage: Stage::Done },
                action: SpendAction::Finish { output },
                notice,
            }
        }
    }

    /// Whether `event` is something that may happen now.
    pub fn may_happen(&self, event: &SpendEvent) -> (r: bool)
        ensures
            r == accepts(self.stage@, event@),
    {
        match (&self.stage, event) {
            (Stage::Advanced { .. }, SpendEvent::Advanced) => true,
            (Stage::Advanced { .. }, SpendEvent::NotAdvanced(_)) => true,
            (Stage::Advanced { .. }, _) => false,
            (Stage::Done, _) => false,
            (Stage::Failed, _) => false,
            (_, SpendEvent::Failed) => true,
            (Stage::InUse { .. }, SpendEvent::InUse(_)) => true,
            (Stage::Prepared, SpendEvent::Prepared) => true,
            (Stage::Built, SpendEvent::Built { .. }) => true,
            (Stage::Signed { .. }, SpendEvent::Signed) => true,
            (Stage::Finalized { .. }, SpendEvent::Finalized { complete }) => *complete,
            (Stage::Decision { .. }, SpendEvent::Decided { .. }) => true,
            _ => false,
        }
    }

    /// Goes on after `event`.
    pub fn step(self, event: SpendEvent) -> (step: SpendStep)
        requires
            self.stage@.well_formed(),
            accepts(self.stage@, event@),
        ensures
            step.spend.opt == self.opt,
            step.spend.stage@.well_formed(),
            step@ == next_step(self.opt@, self.stage@, event@),
    {
        let Spend { opt, stage } = self;
        match (stage, event) {
            (Stage::InUse { plan }, SpendEvent::InUse(in_use)) => {
                let mut plan = plan;
                let ghost before = plan@;
                let count: usize = in_use.len();
                let mut notice: Option<String> = None;
                if !opt.spend_in_use && count > 0 {
                    notice = Some(held_back_string(count));
                    plan.unspendable = in_use;
                }
                assert(plan@ =~= prepared(opt@, before, in_use@));
                let fee = FeeArgs { fee: opt.fee_args.fee.clone() };
                SpendStep {
                    spend: Spend { opt, stage: Stage::Prepared },
                    action: SpendAction::Prepare { plan, fee },
                    notice,
                }
            },
            (Stage::Prepared, SpendEvent::Prepared) => {
                let action = if opt.no_spend_unclaimed {
                    SpendAction::Build
                } else {
                    SpendAction::ClaimBets { bump_claiming: opt.bump_claiming }
                };
                SpendStep { spend: Spend { opt, stage: Stage::Built }, action, notice: None }
            },
            (Stage::Built, SpendEvent::Built { claiming }) => {
                let claiming = if opt.no_spend_unclaimed {
                    Vec::new()
                } else {
                    claiming
                };
                SpendStep {
                    spend: Spend { opt, stage: Stage::Signed { claiming } },
                    action: SpendAction::Sign,
                    notice: None,
                }
            },
            (Stage::Signed { claiming }, SpendEvent::Signed) => SpendStep {
                spend: Spend { opt, stage: Stage::Finalized { claiming } },
                action: SpendAction::Finalize,
                notice: None,
            },
            (Stage::Finalized { claiming }, SpendEvent::Finalized { .. }) => {
                let action = SpendAction::Decide { yes: opt.yes, print_tx: opt.print_tx };
                SpendStep {
                    spend: Spend { opt, stage: Stage::Decision { claiming } },
                    action,
                    notice: None,
                }
            },
            (Stage::Decision { claiming }, SpendEvent::Decided { output, txid }) => match txid {
                Some(txid) if !opt.print_tx => Spend::advance(opt, claiming, 0, txid, output, None),
                _ => SpendStep {
                    spend: Spend { opt, stage: Stage::Done },
                    action: SpendAction::Finish { output },
                    notice: None,
                },
            },
            (Stage::Advanced { claiming, next, txid, output }, SpendEvent::NotAdvanced(error)) => {
                assert(next < claiming.len());
                let notice = not_advanced_string(claiming[next], &txid, &error);
                Spend::advance(opt, claiming, next + 1, txid, output, Some(notice))
            },
            (Stage::Advanced { claiming, next, txid, output }, _) => {
                assert(next < claiming.len());
                Spend::advance(opt, claiming, next + 1, txid, output, None)
            },
            _ => SpendStep {
                spend: Spend { opt, stage: Stage::Failed },
                action: SpendAction::Abort,
                notice: None,
            },
        }
    }
}

} // verus!
