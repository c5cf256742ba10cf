//! A run of a script: what to ask next, and what the answers so far amount to.
use vstd::prelude::*;

use crate::check::{nothing_captured, Captured};
use crate::protocol::{text_view, Reply, ReplyView, Request, RequestView, Resource};
use crate::script::{Script, StepView};
use crate::text::join;

verus! {

/// Why a run failed.
#[derive(Clone, Debug)]
pub struct Failure {
    /// The step that failed.
    pub step: usize,
    /// The check that did not hold, or none if the answer was to another request.
    pub check: Option<usize>,
    /// What the check says, and shows of what was observed, where it does not hold.
    pub message: String,
    /// Why the request failed, if it did.
    pub error: Option<String>,
}

/// What a `Failure` stands for.
pub struct FailureView {
    pub step: nat,
    pub check: Option<nat>,
    pub message: Seq<char>,
    pub error: Option<Seq<char>>,
}

impl View for Failure {
    type V = FailureView;

    open spec fn view(&self) -> FailureView {
        FailureView {
            step: self.step as nat,
            check: match self.check {
                Some(j) => Some(j as nat),
                None => None,
            },
            message: self.message@,
            error: text_view(self.error),
        }
    }
}

impl FailureView {
    /// The failure in one line: what the check says, and behind it why the request
    /// failed, if it did.
    pub open spec fn report(self) -> Seq<char> {
        match self.error {
            Some(error) => self.message + ": "@ + error,
            None => self.message,
        }
    }
}

impl Failure {
    /// The failure in one line: what the check says, and behind it why the request
    /// failed, if it did.
    pub fn report(&self) -> (r: String)
        ensures
            r@ == self@.report(),
    {
        match &self.error {
            Some(error) => join(self.message.as_str(), ": ", error.as_str()),
            None => self.message.clone(),
        }
    }
}

/// How far a run has come.
#[derive(Clone, Copy, Debug, PartialEq, Eq, Structural)]
pub enum Verdict {
    /// There is more to ask, and nothing has failed.
    Running,
    /// Every step was taken and every check held.
    Passed,
    /// A check did not hold. Nothing more is asked.
    Failed,
}

/// A run of a script.
#[derive(Debug)]
pub struct Run {
    script: Script,
    position: usize,
    captured: Captured,
    path: Option<String>,
    held: Vec<Resource>,
    failure: Option<Failure>,
}

/// What a `Run` stands for.
pub struct RunView {
    /// The script.
    pub steps: Seq<StepView>,
    /// How many steps were taken with every check holding.
    pub position: nat,
    /// What was kept.
    pub captured: Captured,
    /// The path of the database file, once it is known.
    pub path: Option<Seq<char>>,
    /// What the database holds for the run, oldest first.
    pub held: Seq<Resource>,
    /// Why the run failed, if it did.
    pub failure: Option<FailureView>,
}

impl View for Run {
    type V = RunView;

    closed spec fn view(&self) -> RunView {
        RunView {
            steps: self.script@,
            position: self.position as nat,
            captured: self.captured,
            path: text_view(self.path),
            held: self.held@,
            failure: match self.failure {
                Some(f) => Some(f@),
                None => None,
            },
        }
    }
}

/// What a run says of an answer to another request.
pub open spec fn stray_message() -> Seq<char> {
    "the reply does not answer the request"@
}

/// The first check of `step` from `from` on whose condition does not hold, or the
/// number of checks if all of them hold.
pub open spec fn first_failing(
    step: StepView,
    reply: ReplyView,
    captured: Captured,
    from: nat,
) -> nat
    decreases step.checks.len() - from,
{
    if from >= step.checks.len() {
        step.checks.len()
    } else if !step.checks[from as int].condition.holds(reply, captured) {
        from
    } else {
        first_failing(step, reply, captured, from + 1)
    }
}

impl RunView {
    /// A run of `steps` of which nothing has been asked yet.
    pub open spec fn start(steps: Seq<StepView>) -> RunView {
        RunView {
            steps,
            position: 0,
            captured: nothing_captured(),
            path: None,
            held: seq![],
            failure: None,
        }
    }

    /// How far the run has come.
    pub open spec fn verdict(self) -> Verdict {
        if self.failure is Some {
            Verdict::Failed
        } else if self.position < self.steps.len() {
            Verdict::Running
        } else {
            Verdict::Passed
        }
    }

    /// What is to be asked now.
    pub open spec fn pending(self) -> Option<RequestView> {
        if self.verdict() == Verdict::Running {
            Some(self.steps[self.position as int].request)
        } else {
            None
        }
    }

    /// The run after one more answer. An answer that nobody waits for changes
    /// nothing.
    pub open spec fn after(self, reply: ReplyView) -> RunView {
        if self.verdict() != Verdict::Running {
            self
        } else {
            let step = self.steps[self.position as int];
            if !step.request.answered_by(reply) {
                RunView {
                    failure: Some(
                        FailureView {
                            step: self.position,
                            check: None,
                            message: stray_message(),
                            error: reply.error(),
                        },
                    ),
                    ..self
                }
            } else {
                let captured = step.captured(reply, self.captured);
                let path = match reply {
                    ReplyView::File(Some(path)) => Some(path),
                    _ => self.path,
                };
                let held = step.request.held(reply, self.held);
                let j = first_failing(step, reply, captured, 0);
                if j < step.checks.len() {
                    RunView {
                        captured,
                        path,
                        held,
                        failure: Some(
                            FailureView {
                                step: self.position,
                                check: Some(j),
                                message: step.checks[j as int].complaint(captured),
                                error: reply.error(),
                            },
                        ),
                        ..self
                    }
                } else {
                    RunView { captured, path, held, position: self.position + 1, ..self }
                }
            }
        }
    }

    /// The run after the newest thing that is held was let go of.
    pub open spec fn let_go(self) -> RunView {
        if self.held.len() == 0 {
            self
        } else {
            RunView { held: self.held.drop_last(), ..self }
        }
    }
}

/// `first_failing` is what its name says: all checks before it hold, and it does
/// not, if it is a check.
pub proof fn lemma_first_failing(step: StepView, reply: ReplyView, captured: Captured, from: nat)
    requires
        from <= step.checks.len(),
    ensures
        from <= first_failing(step, reply, captured, from) <= step.checks.len(),
        forall|j: int|
            from <= j < first_failing(step, reply, captured, from) ==> (
            #[trigger] step.checks[j]).condition.holds(reply, captured),
        first_failing(step, reply, captured, from) < step.checks.len()
            ==> !step.checks[first_failing(step, reply, captured, from) as int].condition.holds(
            reply,
            captured,
        ),
    decreases step.checks.len() - from,
{
    if from < step.checks.len() && step.checks[from as int].condition.holds(reply, captured) {
        lemma_first_failing(step, reply, captured, from + 1);
    }
}

impl Run {
    /// A run of `script` of which nothing has been asked yet.
    pub fn new(script: Script) -> (r: Run)
        ensures
            r@ == RunView::start(script@),
    {
        let r = Run {
            script,
            position: 0,
            captured: Captured::new(),
            path: None,
            held: Vec::new(),
            failure: None,
        };
        assert(r@.held =~= seq![]);
        r
    }

    /// How far the run has come.
    pub fn verdict(&self) -> (r: Verdict)
        ensures
            r == self@.verdict(),
    {
        if self.failure.is_some() {
            Verdict::Failed
        } else if self.position < self.script.steps.len() {
            Verdict::Running
        } else {
            Verdict::Passed
        }
    }

    /// What is to be asked now: nothing, once the run has passed or failed.
    pub fn pending(&self) -> (r: Option<&Request>)
        ensures
            r is Some <==> self@.pending() is Some,
            r matches Some(request) ==> self@.pending() == Some(request@),
    {
        if self.failure.is_none() && self.position < self.script.steps.len() {
            Some(&self.script.steps[self.position].request)
        } else {
            None
        }
    }

    /// Takes the answer to the pending request: keeps what the step keeps, makes
    /// the step's checks in order, and goes on to the next step if all hold.
    /// Otherwise the run has failed.
    pub fn advance(&mut self, reply: &Reply)
        ensures
            final(self)@ == old(self)@.after(reply@),
    {
        if self.failure.is_some() || self.position >= self.script.steps.len() {
            return;
        }
        let ghost step = self@.steps[self@.position as int];
        if !self.script.steps[self.position].request.answered_by(reply) {
            self.failure = Some(
                Failure {
                    step: self.position,
                    check: None,
                    message: "the reply does not answer the request".to_owned(),
                    error: reply.error(),
                },
            );
            return;
        }
        self.script.steps[self.position].keep(reply, &mut self.captured);
        if let Reply::File(Some(path)) = reply {
            self.path = Some(path.clone());
        }
        self.script.steps[self.position].request.hold(reply, &mut self.held);
        let j: usize = self.script.steps[self.position].first_failing(reply, &self.captured);
        proof {
            lemma_first_failing(step, reply@, self.captured, 0);
            let k = first_failing(step, reply@, self.captured, 0);
            assert(k < j ==> step.checks[k as int].condition.holds(reply@, self.captured));
            assert(j < k ==> step.checks[j as int].condition.holds(reply@, self.captured));
        }
        if j < self.script.steps[self.position].checks.len() {
            let message = self.script.steps[self.position].checks[j].complaint(&self.captured);
            self.failure = Some(
                Failure { step: self.position, check: Some(j), message, error: reply.error() },
            );
        } else {
            self.position += 1;
        }
    }

    /// Takes the newest thing that the database still holds for the run, to be let go
    /// of now. At the end of a run, passed, failed or given up, whatever is held is let
    /// go of in this way, newest first.
    pub fn let_go(&mut self) -> (r: Option<Resource>)
        ensures
            final(self)@ == old(self)@.let_go(),
            r == (if old(self)@.held.len() == 0 {
                None
            } else {
                Some(old(self)@.held.last())
            }),
    {
        self.held.pop()
    }

    /// Why the run failed, if it did.
    pub fn failure(&self) -> (r: Option<&Failure>)
        ensures
            r is Some <==> self@.failure is Some,
            r matches Some(f) ==> self@.failure == Some(f@),
    {
        match &self.failure {
            Some(f) => Some(f),
            None => None,
        }
    }

    /// The path of the database file, once it is known.
    pub fn path(&self) -> (r: Option<&String>)
        ensures
            r is Some <==> self@.path is Some,
            r matches Some(p) ==> self@.path == Some(p@),
    {
        match &self.path {
            Some(p) => Some(p),
            None => None,
        }
    }

    /// What was kept of the answers so far.
    pub fn captured(&self) -> (r: Captured)
        ensures
            r == self@.captured,
    {
        self.captured
    }
}

} // verus!
