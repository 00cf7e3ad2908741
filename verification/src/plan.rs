//! Payments before they are built: who is paid, and what may be spent for it.
use vstd::prelude::*;

use crate::types::{OutPoint, Script};

verus! {

/// The order of a transaction's inputs and outputs.
#[derive(Clone, Copy, Debug, PartialEq, Eq, Structural)]
pub enum TxOrdering {
    /// At random.
    Shuffle,
    /// As BIP 69 orders them.
    Bip69Lexicographic,
}

/// Change that is split into outputs of one size.
#[derive(Clone, Copy, Debug, PartialEq, Eq, Structural)]
pub struct SplitChange {
    /// The value of each output, in satoshi.
    pub size: u64,
    /// How many outputs there may be at most.
    pub at_most: usize,
}

/// What a transaction is to be built from.
#[derive(Debug, PartialEq, Eq)]
pub struct TxPlan {
    /// The scripts that are paid, each with its amount in satoshi.
    pub recipients: Vec<(Script, u64)>,
    /// Spend everything that may be spent.
    pub drain_wallet: bool,
    /// Where what is left over goes, if not to the wallet's change.
    pub drain_to: Option<Script>,
    /// Outputs that may not be spent.
    pub unspendable: Vec<OutPoint>,
    /// Let the transaction be replaced by one that pays a higher fee.
    pub rbf: bool,
    pub ordering: TxOrdering,
    /// How the change is split, if it is.
    pub split_change: Option<SplitChange>,
}

/// The mathematical value of a [`TxPlan`].
#[verifier::ext_equal]
pub struct TxPlanView {
    pub recipients: Seq<(Seq<u8>, u64)>,
    pub drain_wallet: bool,
    pub drain_to: Option<Seq<u8>>,
    pub unspendable: Seq<OutPoint>,
    pub rbf: bool,
    pub ordering: TxOrdering,
    pub split_change: Option<SplitChange>,
}

impl View for TxPlan {
    type V = TxPlanView;

    open spec fn view(&self) -> TxPlanView {
        TxPlanView {
            recipients: self.recipients@.map_values(|r: (Script, u64)| (r.0@, r.1)),
            drain_wallet: self.drain_wallet,
            drain_to: match self.drain_to {
                Some(script) => Some(script@),
                None => None,
            },
            unspendable: self.unspendable@,
            rbf: self.rbf,
            ordering: self.ordering,
            split_change: self.split_change,
        }
    }
}

impl TxPlanView {
    /// The plan of nothing: no recipient, nothing held back.
    pub open spec fn empty() -> TxPlanView {
        TxPlanView {
            recipients: Seq::empty(),
            drain_wallet: false,
            drain_to: None,
            unspendable: Seq::empty(),
            rbf: false,
            ordering: TxOrdering::Shuffle,
            split_change: None,
        }
    }
}

impl TxPlan {
    /// A plan of nothing.
    pub fn new() -> (plan: TxPlan)
        ensures
            plan@ == TxPlanView::empty(),
    {
        let plan = TxPlan {
            recipients: Vec::new(),
            drain_wallet: false,
            drain_to: None,
            unspendable: Vec::new(),
            rbf: false,
            ordering: TxOrdering::Shuffle,
            split_change: None,
        };
        assert(plan@ =~= TxPlanView::empty());
        plan
    }

    /// Adds a recipient.
    pub fn add_recipient(&mut self, script: Script, amount: u64)
        ensures
            final(self)@ == (TxPlanView {
                recipients: old(self)@.recipients.push((script@, amount)),
                ..old(self)@
            }),
    {
        let ghost before = self@;
        self.recipients.push((script, amount));
        assert(self@ =~= TxPlanView {
            recipients: before.recipients.push((script@, amount)),
            ..before
        });
    }
}

} // verus!
