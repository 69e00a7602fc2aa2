use vstd::prelude::*;

use crate::compose::{ComposedCall, SwapParams, SwapPlan, TipTransfer, TradePlan};

verus! {

/// One step of an atomic trade, in the order the runner must perform
/// them.  The runner reports each step's outcome back to the session;
/// the ledger guarantees that either every performed step commits or
/// none does.
#[derive(Clone, Debug)]
pub enum TradeStep {
    /// Transfer the incentive fee from the initiator to the priority
    /// account.
    PayTip(TipTransfer),
    /// Create the initiator's token-holding account.
    CreateHoldingAccount,
    /// Invoke the bonding-curve exchange with the composed call.
    InvokeCurve(ComposedCall),
    /// Invoke the automated-market-maker engine with these parameters.
    InvokeSwap(SwapParams),
}

/// The ordered steps of a bonding-curve trade plan: the tip (when one
/// is due), then the holding-account creation (when needed), then the
/// exchange invocation.
pub open spec fn spec_trade_plan_steps(plan: TradePlan) -> Seq<TradeStep> {
    (if plan.tip is Some {
        seq![TradeStep::PayTip(plan.tip->0)]
    } else {
        Seq::<TradeStep>::empty()
    }) + (if plan.create_holding_account {
        seq![TradeStep::CreateHoldingAccount]
    } else {
        Seq::<TradeStep>::empty()
    }) + seq![TradeStep::InvokeCurve(plan.call)]
}

/// The ordered steps of a pooled-liquidity swap plan: the tip (when one
/// is due), then the delegated swap.
pub open spec fn spec_swap_plan_steps(plan: SwapPlan) -> Seq<TradeStep> {
    (if plan.tip is Some {
        seq![TradeStep::PayTip(plan.tip->0)]
    } else {
        Seq::<TradeStep>::empty()
    }) + seq![TradeStep::InvokeSwap(plan.params)]
}

/// Walks a plan's steps in strict program order.  A step is issued only
/// after every earlier step has been acknowledged successful; the first
/// reported failure ends the session, and an ended session issues
/// nothing further.
pub struct TradeSession {
    steps: Vec<TradeStep>,
    cursor: usize,
    failed: bool,
}

impl TradeSession {
    /// The full ordered step list of this session.
    pub closed spec fn spec_steps(self) -> Seq<TradeStep> {
        self.steps@
    }

    /// How many steps have been acknowledged successful.
    pub closed spec fn spec_cursor(self) -> int {
        self.cursor as int
    }

    /// Whether some step was reported failed.
    pub closed spec fn spec_failed(self) -> bool {
        self.failed
    }

    pub open spec fn wf(self) -> bool {
        0 <= self.spec_cursor() <= self.spec_steps().len()
    }

    /// A session is over when a step failed or every step succeeded.
    pub open spec fn spec_done(self) -> bool {
        self.spec_failed() || self.spec_cursor() == self.spec_steps().len()
    }

    /// The step the runner must perform now, if any.
    pub open spec fn spec_current(self) -> Option<TradeStep> {
        if self.spec_done() {
            None
        } else {
            Some(self.spec_steps()[self.spec_cursor()])
        }
    }

    /// Starts a session over a bonding-curve trade plan.
    pub fn from_trade_plan(plan: TradePlan) -> (s: TradeSession)
        ensures
            s.wf(),
            !s.spec_failed(),
            s.spec_cursor() == 0,
            s.spec_steps() == spec_trade_plan_steps(plan),
    {
        let TradePlan { tip, create_holding_account, call } = plan;
        let mut steps: Vec<TradeStep> = Vec::new();
        match tip {
            Some(t) => steps.push(TradeStep::PayTip(t)),
            None => (),
        }
        if create_holding_account {
            steps.push(TradeStep::CreateHoldingAccount);
        }
        steps.push(TradeStep::InvokeCurve(call));
        proof {
            assert(steps@ =~= spec_trade_plan_steps(plan));
        }
        TradeSession { steps, cursor: 0, failed: false }
    }

    /// Starts a session over a pooled-liquidity swap plan.
    pub fn from_swap_plan(plan: SwapPlan) -> (s: TradeSession)
        ensures
            s.wf(),
            !s.spec_failed(),
            s.spec_cursor() == 0,
            s.spec_steps() == spec_swap_plan_steps(plan),
    {
        let mut steps: Vec<TradeStep> = Vec::new();
        match plan.tip {
            Some(t) => steps.push(TradeStep::PayTip(t)),
            None => (),
        }
        steps.push(TradeStep::InvokeSwap(plan.params));
        proof {
            assert(steps@ =~= spec_swap_plan_steps(plan));
        }
        TradeSession { steps, cursor: 0, failed: false }
    }

    /// The step to perform now; `None` once the session is over.
    pub fn current_step(&self) -> (r: Option<&TradeStep>)
        requires
            self.wf(),
        ensures
            match r {
                Some(step) => self.spec_current() == Some(*step),
                None => self.spec_current() is None,
            },
    {
        if self.failed || self.cursor == self.steps.len() {
            None
        } else {
            Some(&self.steps[self.cursor])
        }
    }

    /// Records the outcome of the current step.  Success moves to the
    /// next step; failure ends the session, after which no step —
    /// in particular no exchange invocation — is ever issued again.
    pub fn advance(&mut self, succeeded: bool)
        requires
            old(self).wf(),
            old(self).spec_current() is Some,
        ensures
            final(self).wf(),
            final(self).spec_steps() == old(self).spec_steps(),
            succeeded ==> final(self).spec_cursor() == old(self).spec_cursor() + 1
                && final(self).spec_failed() == old(self).spec_failed(),
            !succeeded ==> final(self).spec_failed() && final(self).spec_current() is None,
    {
        if succeeded {
            // The step list's length bounds the cursor, so this cannot
            // overflow.
            let len = self.steps.len();
            assert(self.cursor < len);
            self.cursor = self.cursor + 1;
        } else {
            self.failed = true;
        }
    }
}

/// Law: a session that has recorded a failure issues no further step.
/// Since nothing resets a failed session, a failed incentive-fee
/// transfer means the exchange is never invoked.
pub proof fn lemma_failed_session_issues_no_step(s: TradeSession)
    requires
        s.spec_failed(),
    ensures
        s.spec_current() is None,
{
}

/// Law: in the steps of a curve trade plan the exchange invocation
/// stands last and nowhere else, and when the plan includes a tip the
/// tip transfer stands first — so the invocation is issued only after
/// the tip (and every other earlier step) has been acknowledged
/// successful.
pub proof fn lemma_trade_steps_order(plan: TradePlan)
    ensures
        ({
            let steps = spec_trade_plan_steps(plan);
            &&& steps.len() >= 1
            &&& steps.last() == TradeStep::InvokeCurve(plan.call)
            &&& forall|i: int| 0 <= i < steps.len() - 1 ==> !(#[trigger] steps[i] is InvokeCurve)
            &&& plan.tip is Some ==> steps.len() >= 2 && steps[0] == TradeStep::PayTip(
                plan.tip->0,
            )
            &&& plan.tip is None ==> forall|i: int|
                0 <= i < steps.len() ==> !(#[trigger] steps[i] is PayTip)
        }),
{
}

/// Law: in the steps of a swap plan the delegated swap stands last and
/// nowhere else, and when the plan includes a tip the tip transfer
/// stands first.
pub proof fn lemma_swap_steps_order(plan: SwapPlan)
    ensures
        ({
            let steps = spec_swap_plan_steps(plan);
            &&& steps.len() >= 1
            &&& steps.last() == TradeStep::InvokeSwap(plan.params)
            &&& forall|i: int| 0 <= i < steps.len() - 1 ==> !(#[trigger] steps[i] is InvokeSwap)
            &&& plan.tip is Some ==> steps.len() == 2 && steps[0] == TradeStep::PayTip(
                plan.tip->0,
            )
            &&& plan.tip is None ==> steps.len() == 1
        }),
{
}

} // verus!
