//! The plan: the ordered steps of one installation.
//!
//! A plan starts as a list of actions. Each step that succeeds leaves its
//! receipt in the place of its action, so at any moment the plan is a run of
//! receipts followed by the actions still to be applied.

use vstd::prelude::*;
use crate::action::{Action, Receipt};
use crate::description::{render_all, render_descriptions};

verus! {

/// Where the plan is written during an install and read back for an
/// uninstall, unless the caller names another place.
pub const RECEIPT_LOCATION: &'static str = "/nix/receipt.json";

/// One entry of a plan.
#[derive(Debug, Clone, Copy, PartialEq, Eq, Structural)]
pub enum Step {
    /// Not applied yet.
    Planned(Action),
    /// Applied; the receipt undoes it.
    Completed(Receipt),
}

/// Mathematical content of an [`InstallPlan`]: the receipts of the steps
/// applied so far, in install order, and the actions still to come.
pub struct PlanView {
    pub receipts: Seq<Receipt>,
    pub actions: Seq<Action>,
}

impl PlanView {
    /// The plan as one sequence in install order.
    pub open spec fn steps(self) -> Seq<Step> {
        self.receipts.map_values(|r: Receipt| Step::Completed(r)) + self.actions.map_values(
            |a: Action| Step::Planned(a),
        )
    }

    pub open spec fn len(self) -> nat {
        self.receipts.len() + self.actions.len()
    }

    /// The plan once its next action has been applied and left `receipt`.
    pub open spec fn complete_next(self, receipt: Receipt) -> PlanView {
        PlanView { receipts: self.receipts.push(receipt), actions: self.actions.skip(1) }
    }

    /// The plan once its latest receipt has been used up by a reversal.
    pub open spec fn revert_last(self) -> PlanView {
        PlanView { receipts: self.receipts.drop_last(), actions: self.actions }
    }
}

/// Whether no receipt comes after an action.
pub open spec fn receipts_first(steps: Seq<Step>) -> bool {
    forall|i: int, j: int|
        #![trigger steps[i], steps[j]]
        0 <= i < j < steps.len() && steps[i] is Planned ==> steps[j] is Planned
}

/// What the install prompt lists: the rationale of every action still to be
/// applied, in install order.
pub open spec fn render_install(actions: Seq<Action>, explain: bool) -> Seq<char>
    decreases actions.len(),
{
    if actions.len() == 0 {
        Seq::empty()
    } else {
        render_install(actions.drop_last(), explain) + render_descriptions(
            actions.last().spec_describe(),
            explain,
        )
    }
}

/// What the uninstall prompt lists: the rationale of every reversal, latest
/// receipt first, which is the order in which they are undone.
pub open spec fn render_uninstall(receipts: Seq<Receipt>, explain: bool) -> Seq<char>
    decreases receipts.len(),
{
    if receipts.len() == 0 {
        Seq::empty()
    } else {
        render_descriptions(receipts.last().spec_describe(), explain) + render_uninstall(
            receipts.drop_last(),
            explain,
        )
    }
}

/// The ordered steps of one installation.
#[derive(Debug, Clone, PartialEq, Eq)]
pub struct InstallPlan {
    pub receipts: Vec<Receipt>,
    pub actions: Vec<Action>,
}

impl View for InstallPlan {
    type V = PlanView;

    open spec fn view(&self) -> PlanView {
        PlanView { receipts: self.receipts@, actions: self.actions@ }
    }
}

impl InstallPlan {
    /// A plan of which nothing has been applied yet.
    pub fn new(actions: Vec<Action>) -> (plan: Self)
        ensures
            plan@ == (PlanView { receipts: Seq::empty(), actions: actions@ }),
    {
        InstallPlan { receipts: Vec::new(), actions }
    }

    /// Rebuilds a plan from its steps, as they come out of a receipt file.
    /// Steps in which a receipt follows an action are no plan.
    pub fn from_steps(steps: &Vec<Step>) -> (plan: Option<Self>)
        ensures
            plan is Some <==> receipts_first(steps@),
            plan is Some ==> plan->0@.steps() == steps@,
    {
        let mut receipts: Vec<Receipt> = Vec::new();
        let mut actions: Vec<Action> = Vec::new();
        let n = steps.len();
        let mut i: usize = 0;
        while i < n
            invariant
                i <= n,
                n == steps.len(),
                (PlanView { receipts: receipts@, actions: actions@ }).steps() == steps@.take(
                    i as int,
                ),
            decreases n - i,
        {
            assert(steps@.take(i + 1) =~= steps@.take(i as int).push(steps@[i as int]));
            match steps[i] {
                Step::Planned(action) => {
                    actions.push(action);
                },
                Step::Completed(receipt) => {
                    if actions.len() > 0 {
                        // the first action stands before this receipt
                        assert(steps@[receipts@.len() as int] == steps@.take(i as int)[receipts@.len() as int]);
                        return None;
                    }
                    receipts.push(receipt);
                },
            }
            i += 1;
        }
        let plan = InstallPlan { receipts, actions };
        assert forall|a: int, b: int|
            #![trigger steps@[a], steps@[b]]
            0 <= a < b < steps@.len() && steps@[a] is Planned implies steps@[b] is Planned by {
            assert(plan@.steps()[a] == steps@[a]);
            assert(plan@.steps()[b] == steps@[b]);
        }
        Some(plan)
    }

    /// The plan as one list in install order: a receipt for every step that
    /// was applied, an action for every step that was not.
    pub fn steps(&self) -> (steps: Vec<Step>)
        ensures
            steps@ == self@.steps(),
    {
        let mut steps: Vec<Step> = Vec::new();
        let done = self.receipts.len();
        let mut i: usize = 0;
        while i < done
            invariant
                i <= done,
                done == self.receipts.len(),
                steps@ == self.receipts@.take(i as int).map_values(|r: Receipt| Step::Completed(r)),
            decreases done - i,
        {
            steps.push(Step::Completed(self.receipts[i]));
            i += 1;
        }
        let ghost head = steps@;
        let left = self.actions.len();
        let mut k: usize = 0;
        while k < left
            invariant
                k <= left,
                left == self.actions.len(),
                head == self.receipts@.map_values(|r: Receipt| Step::Completed(r)),
                steps@ == head + self.actions@.take(k as int).map_values(
                    |a: Action| Step::Planned(a),
                ),
            decreases left - k,
        {
            steps.push(Step::Planned(self.actions[k]));
            k += 1;
        }
        steps
    }

    /// How many steps have been applied.
    pub fn completed(&self) -> (n: usize)
        ensures
            n == self@.receipts.len(),
    {
        self.receipts.len()
    }

    /// How many steps are still to be applied.
    pub fn pending(&self) -> (n: usize)
        ensures
            n == self@.actions.len(),
    {
        self.actions.len()
    }

    /// Text for the install prompt. Changes nothing.
    pub fn describe_install(&self, explain: bool) -> (out: String)
        ensures
            out@ == render_install(self@.actions, explain),
    {
        let mut out = String::new();
        let n = self.actions.len();
        let mut i: usize = 0;
        while i < n
            invariant
                i <= n,
                n == self.actions.len(),
                out@ == render_install(self.actions@.take(i as int), explain),
            decreases n - i,
        {
            assert(self.actions@.take(i + 1).drop_last() =~= self.actions@.take(i as int));
            let descriptions = self.actions[i].describe();
            let piece = render_all(&descriptions, explain);
            out.append(piece.as_str());
            i += 1;
        }
        assert(self.actions@.take(n as int) =~= self.actions@);
        out
    }

    /// Text for the uninstall prompt. Changes nothing.
    pub fn describe_uninstall(&self, explain: bool) -> (out: String)
        ensures
            out@ == render_uninstall(self@.receipts, explain),
    {
        let mut out = String::new();
        let n = self.receipts.len();
        let mut i: usize = n;
        assert(self.receipts@.take(n as int) =~= self.receipts@);
        while i > 0
            invariant
                i <= n,
                n == self.receipts.len(),
                out@ + render_uninstall(self.receipts@.take(i as int), explain)
                    == render_uninstall(self.receipts@, explain),
            decreases i,
        {
            assert(self.receipts@.take(i as int).drop_last() =~= self.receipts@.take(i - 1));
            let descriptions = self.receipts[i - 1].describe();
            let piece = render_all(&descriptions, explain);
            out.append(piece.as_str());
            i -= 1;
        }
        out
    }

    /// Puts `receipt` in the place of the next action.
    pub(crate) fn complete_next(&mut self, receipt: Receipt)
        requires
            old(self)@.actions.len() > 0,
        ensures
            final(self)@ == old(self)@.complete_next(receipt),
            final(self)@.steps() == old(self)@.steps().update(
                old(self)@.receipts.len() as int,
                Step::Completed(receipt),
            ),
    {
        self.actions.remove(0);
        self.receipts.push(receipt);
    }
}

} // verus!
