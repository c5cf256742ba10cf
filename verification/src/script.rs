//! A script: requests in order, each with the checks on its answer.
use vstd::prelude::*;

use crate::check::{Captured, Check, CheckView, Condition, ConditionView, Detail, Register};
use crate::protocol::{Reply, ReplyView, Request, RequestView};

verus! {

/// A request, where to keep what its answer shows, and the checks on the answer
/// in the order in which they are made.
#[derive(Debug)]
pub struct Step {
    pub request: Request,
    pub capture: Option<Register>,
    pub checks: Vec<Check>,
}

/// What a `Step` stands for.
pub struct StepView {
    pub request: RequestView,
    pub capture: Option<Register>,
    pub checks: Seq<CheckView>,
}

/// What a list of checks stands for.
pub open spec fn checks_view(checks: Seq<Check>) -> Seq<CheckView> {
    Seq::new(checks.len(), |i: int| checks[i]@)
}

impl View for Step {
    type V = StepView;

    open spec fn view(&self) -> StepView {
        StepView {
            request: self.request@,
            capture: self.capture,
            checks: checks_view(self.checks@),
        }
    }
}

impl StepView {
    /// The request alone: nothing is kept, and any answer will do.
    pub open spec fn ask(request: RequestView) -> StepView {
        StepView { request, capture: None, checks: seq![] }
    }

    /// The same, with what the answer shows kept in `register`.
    pub open spec fn capturing(self, register: Register) -> StepView {
        StepView { capture: Some(register), ..self }
    }

    /// The same with one more check, made after the others.
    pub open spec fn checking(self, condition: ConditionView, message: Seq<char>) -> StepView {
        self.checking_with(condition, message, Detail::Nothing)
    }

    /// The same, and where the check does not hold it shows `detail`.
    pub open spec fn checking_with(
        self,
        condition: ConditionView,
        message: Seq<char>,
        detail: Detail,
    ) -> StepView {
        StepView { checks: self.checks.push(CheckView { condition, message, detail }), ..self }
    }

    /// What is kept once `reply` has come.
    pub open spec fn captured(self, reply: ReplyView, before: Captured) -> Captured {
        match self.capture {
            Some(register) => before.with(register, reply.observation()),
            None => before,
        }
    }

    /// Whether `reply` answers the request and every check holds of it, where
    /// `captured` is what is kept up to and with `reply`.
    pub open spec fn accepts(self, reply: ReplyView, captured: Captured) -> bool {
        &&& self.request.answered_by(reply)
        &&& forall|j: int|
            0 <= j < self.checks.len() ==> (#[trigger] self.checks[j]).condition.holds(
                reply,
                captured,
            )
    }
}

impl Step {
    /// The request alone: nothing is kept, and any answer will do.
    pub fn ask(request: Request) -> (r: Step)
        ensures
            r@ == StepView::ask(request@),
    {
        let r = Step { request, capture: None, checks: Vec::new() };
        assert(r@.checks =~= seq![]);
        r
    }

    /// The same, with what the answer shows kept in `register`.
    pub fn capturing(self, register: Register) -> (r: Step)
        ensures
            r@ == self@.capturing(register),
    {
        Step { request: self.request, capture: Some(register), checks: self.checks }
    }

    /// The same with one more check, made after the others.
    pub fn checking(self, condition: Condition, message: &str) -> (r: Step)
        ensures
            r@ == self@.checking(condition@, message@),
    {
        self.checking_with(condition, message, Detail::Nothing)
    }

    /// The same, and where the check does not hold it shows `detail`.
    pub fn checking_with(self, condition: Condition, message: &str, detail: Detail) -> (r: Step)
        ensures
            r@ == self@.checking_with(condition@, message@, detail),
    {
        let mut checks = self.checks;
        checks.push(Check { condition, message: message.to_owned(), detail });
        let r = Step { request: self.request, capture: self.capture, checks };
        assert(r@.checks =~= self@.checking_with(condition@, message@, detail).checks);
        r
    }

    /// Keeps what `reply` shows, where the step says so.
    pub fn keep(&self, reply: &Reply, captured: &mut Captured)
        ensures
            *final(captured) == self@.captured(reply@, *old(captured)),
    {
        match self.capture {
            Some(register) => captured.set(register, reply.observation()),
            None => {},
        }
    }

    /// The first check that does not hold, or the number of checks if all hold.
    pub fn first_failing(&self, reply: &Reply, captured: &Captured) -> (r: usize)
        ensures
            r <= self@.checks.len(),
            forall|j: int|
                0 <= j < r ==> (#[trigger] self@.checks[j]).condition.holds(reply@, *captured),
            r < self@.checks.len() ==> !self@.checks[r as int].condition.holds(reply@, *captured),
    {
        let mut i: usize = 0;
        while i < self.checks.len()
            invariant
                i <= self.checks.len(),
                forall|j: int|
                    0 <= j < i ==> (#[trigger] self@.checks[j]).condition.holds(reply@, *captured),
            decreases self.checks.len() - i,
        {
            if !self.checks[i].condition.holds(reply, captured) {
                assert(!self@.checks[i as int].condition.holds(reply@, *captured));
                return i;
            }
            assert(self@.checks[i as int].condition.holds(reply@, *captured));
            i += 1;
        }
        i
    }
}

/// Steps, in the order in which they are taken.
#[derive(Debug)]
pub struct Script {
    pub steps: Vec<Step>,
}

impl View for Script {
    type V = Seq<StepView>;

    open spec fn view(&self) -> Seq<StepView> {
        Seq::new(self.steps@.len(), |i: int| self.steps@[i]@)
    }
}

impl Script {
    /// The script without steps.
    pub fn new() -> (r: Script)
        ensures
            r@ == Seq::<StepView>::empty(),
    {
        let r = Script { steps: Vec::new() };
        assert(r@ =~= Seq::<StepView>::empty());
        r
    }

    /// Adds a step at the end.
    pub fn then_step(&mut self, step: Step)
        ensures
            final(self)@ == old(self)@.push(step@),
    {
        self.steps.push(step);
        assert(self@ =~= old(self)@.push(step@));
    }
}

} // verus!
