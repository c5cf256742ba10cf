//! What holds of every run, whatever its script and whatever the answers.
use vstd::prelude::*;

use crate::check::{nothing_captured, Captured, ConditionView, Detail, Register};
use crate::protocol::{Handle, ReplyView, RequestView, Resource, Session};
use crate::run::{first_failing, lemma_first_failing, stray_message, FailureView, RunView, Verdict};
use crate::script::StepView;

verus! {

/// The run of `steps` after the answers `replies`.
pub open spec fn replay(steps: Seq<StepView>, replies: Seq<ReplyView>) -> RunView
    decreases replies.len(),
{
    if replies.len() == 0 {
        RunView::start(steps)
    } else {
        replay(steps, replies.drop_last()).after(replies.last())
    }
}

/// What is kept after the first `n` steps, if the first `n` of `replies` answer
/// them.
pub open spec fn captured_by(steps: Seq<StepView>, replies: Seq<ReplyView>, n: nat) -> Captured
    decreases n,
{
    if n == 0 {
        nothing_captured()
    } else {
        steps[n - 1].captured(replies[n - 1], captured_by(steps, replies, (n - 1) as nat))
    }
}

/// What is held after the first `n` steps, if the first `n` of `replies` answer them.
pub open spec fn held_by(
    steps: Seq<StepView>,
    replies: Seq<ReplyView>,
    n: nat,
) -> Seq<Resource>
    decreases n,
{
    if n == 0 {
        seq![]
    } else {
        steps[n - 1].request.held(replies[n - 1], held_by(steps, replies, (n - 1) as nat))
    }
}

/// Whether step `i` accepts the answer to it.
pub open spec fn accepted(steps: Seq<StepView>, replies: Seq<ReplyView>, i: int) -> bool {
    steps[i].accepts(replies[i], captured_by(steps, replies, (i + 1) as nat))
}

/// Whether a run of `steps` with the answers `replies` passes.
pub open spec fn passes(steps: Seq<StepView>, replies: Seq<ReplyView>) -> bool {
    replay(steps, replies).verdict() == Verdict::Passed
}

/// The smaller of two numbers.
pub open spec fn smaller(a: nat, b: nat) -> nat {
    if a <= b {
        a
    } else {
        b
    }
}

/// What is kept and held after `n` steps depends on the first `n` answers alone.
proof fn lemma_captured_prefix(steps: Seq<StepView>, a: Seq<ReplyView>, b: Seq<ReplyView>, n: nat)
    requires
        n <= a.len(),
        n <= b.len(),
        forall|i: int| 0 <= i < n ==> a[i] == b[i],
    ensures
        captured_by(steps, a, n) == captured_by(steps, b, n),
        held_by(steps, a, n) == held_by(steps, b, n),
    decreases n,
{
    if n > 0 {
        lemma_captured_prefix(steps, a, b, (n - 1) as nat);
    }
}

/// A step accepts an answer exactly if it answers the request and no check fails.
proof fn lemma_accepts_first_failing(step: StepView, reply: ReplyView, captured: Captured)
    ensures
        step.accepts(reply, captured) <==> step.request.answered_by(reply) && first_failing(
            step,
            reply,
            captured,
            0,
        ) == step.checks.len(),
{
    lemma_first_failing(step, reply, captured, 0);
}

/// The state of a run, told by its script and its answers.
proof fn lemma_replay(steps: Seq<StepView>, replies: Seq<ReplyView>)
    ensures
        replay(steps, replies).steps == steps,
        replay(steps, replies).position <= smaller(replies.len(), steps.len()),
        forall|i: int|
            0 <= i < replay(steps, replies).position ==> #[trigger] accepted(steps, replies, i),
        replay(steps, replies).failure is None ==> {
            &&& replay(steps, replies).position == smaller(replies.len(), steps.len())
            &&& replay(steps, replies).captured == captured_by(
                steps,
                replies,
                replay(steps, replies).position,
            )
            &&& replay(steps, replies).held == held_by(
                steps,
                replies,
                replay(steps, replies).position,
            )
        },
        replay(steps, replies).failure matches Some(f) ==> {
            let i = replay(steps, replies).position;
            &&& i < smaller(replies.len(), steps.len())
            &&& !accepted(steps, replies, i as int)
            &&& failure_of(steps, replies, i as int, f)
            &&& replay(steps, replies).held == held_by(
                steps,
                replies,
                if f.check is Some {
                    i + 1
                } else {
                    i
                },
            )
            &&& replay(steps, replies).captured == captured_by(
                steps,
                replies,
                if f.check is Some {
                    i + 1
                } else {
                    i
                },
            )
        },
    decreases replies.len(),
{
    if replies.len() > 0 {
        let before = replies.drop_last();
        lemma_replay(steps, before);
        let m = replay(steps, before);
        assert forall|i: int| 0 <= i < before.len() implies accepted(steps, before, i) == accepted(
            steps,
            replies,
            i,
        ) by {
            lemma_captured_prefix(steps, before, replies, (i + 1) as nat);
        }
        lemma_captured_prefix(steps, before, replies, m.position);
        if m.failure is Some {
            lemma_captured_prefix(steps, before, replies, m.position + 1);
        }
        if m.verdict() == Verdict::Running {
            let p = m.position;
            let step = steps[p as int];
            assert(replies[p as int] == replies.last());
            assert(captured_by(steps, replies, p + 1) == step.captured(replies.last(), m.captured));
            lemma_accepts_first_failing(
                step,
                replies.last(),
                captured_by(steps, replies, p + 1),
            );
            lemma_first_failing(step, replies.last(), captured_by(steps, replies, p + 1), 0);
        }
    }
}

/// Whether `f` tells correctly why step `i` failed: the first check that does not
/// hold, with what it says, or no check if the answer was to another request.
pub open spec fn failure_of(
    steps: Seq<StepView>,
    replies: Seq<ReplyView>,
    i: int,
    f: FailureView,
) -> bool {
    let captured = captured_by(steps, replies, (i + 1) as nat);
    &&& f.step == i
    &&& f.error == replies[i].error()
    &&& match f.check {
        None => !steps[i].request.answered_by(replies[i]) && f.message == stray_message(),
        Some(j) => {
            &&& steps[i].request.answered_by(replies[i])
            &&& j < steps[i].checks.len()
            &&& !steps[i].checks[j as int].condition.holds(replies[i], captured)
            &&& forall|k: int|
                0 <= k < j ==> (#[trigger] steps[i].checks[k]).condition.holds(replies[i], captured)
            &&& f.message == steps[i].checks[j as int].complaint(captured)
        },
    }
}

/// The state of a run is the replay of its answers: a new run has had none, and each
/// answer that it takes is one more.
pub proof fn law_runs_are_replays(
    steps: Seq<StepView>,
    replies: Seq<ReplyView>,
    reply: ReplyView,
)
    ensures
        replay(steps, seq![]) == RunView::start(steps),
        replay(steps, replies.push(reply)) == replay(steps, replies).after(reply),
{
    assert(replies.push(reply).drop_last() =~= replies);
}

/// A run passes exactly if every step was answered and accepts its answer.
pub proof fn law_passes_exactly_if_all_accept(steps: Seq<StepView>, replies: Seq<ReplyView>)
    ensures
        passes(steps, replies) <==> {
            &&& steps.len() <= replies.len()
            &&& forall|i: int| 0 <= i < steps.len() ==> #[trigger] accepted(steps, replies, i)
        },
{
    lemma_replay(steps, replies);
}

/// A run fails exactly if some step does not accept its answer. What it reports is
/// the first such step, and of its checks the first that does not hold.
pub proof fn law_reports_first_failure(steps: Seq<StepView>, replies: Seq<ReplyView>)
    ensures
        replay(steps, replies).failure is Some <==> exists|i: int|
            0 <= i < smaller(replies.len(), steps.len()) && !#[trigger] accepted(steps, replies, i),
        replay(steps, replies).failure matches Some(f) ==> {
            &&& f.step < smaller(replies.len(), steps.len())
            &&& !accepted(steps, replies, f.step as int)
            &&& forall|i: int| 0 <= i < f.step ==> #[trigger] accepted(steps, replies, i)
            &&& failure_of(steps, replies, f.step as int, f)
        },
{
    lemma_replay(steps, replies);
}

/// The requests of a run are those of its script, in order and one at a time: after
/// so many accepted answers the request of that step is pending, and after the last
/// one, or once an answer was not accepted, none is.
pub proof fn law_asks_in_order(steps: Seq<StepView>, replies: Seq<ReplyView>)
    ensures
        replay(steps, replies).pending() == (if replies.len() < steps.len() && (forall|i: int|
            0 <= i < replies.len() ==> #[trigger] accepted(steps, replies, i)) {
            Some(steps[replies.len() as int].request)
        } else {
            None
        }),
{
    lemma_replay(steps, replies);
    let m = replay(steps, replies);
    if m.failure is Some {
        assert(!accepted(steps, replies, m.position as int));
    }
}

/// A run that has passed or failed stays as it is, whatever answers still come.
pub proof fn law_settled_runs_stay(
    steps: Seq<StepView>,
    replies: Seq<ReplyView>,
    more: Seq<ReplyView>,
)
    requires
        replay(steps, replies).verdict() != Verdict::Running,
    ensures
        replay(steps, replies + more) == replay(steps, replies),
    decreases more.len(),
{
    if more.len() == 0 {
        assert(replies + more =~= replies);
    } else {
        law_settled_runs_stay(steps, replies, more.drop_last());
        assert((replies + more).drop_last() =~= replies + more.drop_last());
    }
}

/// What is kept in a register is what the last step that writes it was answered.
pub proof fn law_register_keeps_last(
    steps: Seq<StepView>,
    replies: Seq<ReplyView>,
    register: Register,
    k: int,
    n: nat,
)
    requires
        0 <= k < n,
        n <= steps.len(),
        n <= replies.len(),
        steps[k].capture == Some(register),
        forall|m: int| k < m < n ==> (#[trigger] steps[m]).capture != Some(register),
    ensures
        captured_by(steps, replies, n).at(register) == replies[k].observation(),
    decreases n,
{
    if k < n - 1 {
        law_register_keeps_last(steps, replies, register, k, (n - 1) as nat);
        assert(steps[n - 1].capture != Some(register));
    }
}

/// What a run holds is what its accepted answers brought and did not let go of since:
/// also the answer at which it failed, unless that was to another request.
pub proof fn law_holds_what_was_brought(steps: Seq<StepView>, replies: Seq<ReplyView>)
    ensures
        replay(steps, replies).failure is None ==> replay(steps, replies).held == held_by(
            steps,
            replies,
            smaller(replies.len(), steps.len()),
        ),
        replay(steps, replies).failure matches Some(f) ==> replay(steps, replies).held == held_by(
            steps,
            replies,
            if f.check is Some {
                f.step + 1
            } else {
                f.step
            },
        ),
{
    lemma_replay(steps, replies);
}

/// What a run has kept is what its accepted answers showed: also the answer at which it
/// failed, unless that was to another request.
pub proof fn law_keeps_what_was_shown(steps: Seq<StepView>, replies: Seq<ReplyView>)
    ensures
        replay(steps, replies).failure is None ==> replay(steps, replies).captured == captured_by(
            steps,
            replies,
            smaller(replies.len(), steps.len()),
        ),
        replay(steps, replies).failure matches Some(f) ==> replay(steps, replies).captured
            == captured_by(
            steps,
            replies,
            if f.check is Some {
                f.step + 1
            } else {
                f.step
            },
        ),
{
    lemma_replay(steps, replies);
}

/// A request that failed brings nothing, and no request brings anything but what it asks
/// for: so what is held grows by that alone, and only where it is there.
pub proof fn law_brings_what_was_asked_for(request: RequestView, reply: ReplyView)
    ensures
        reply.error() is Some ==> request.brings(reply) is None,
        request.brings(reply) matches Some(resource) ==> {
            &&& request.answered_by(reply)
            &&& match resource {
                Resource::File => request is CreateFile,
                Resource::Connection(session) => request == (RequestView::Open { session }),
                Resource::Statement(handle) => prepares(request, handle),
            }
        },
        request is CreateFile && reply is File ==> request.brings(reply) == Some(Resource::File),
        request matches RequestView::Open { session } ==> (reply is Done ==> request.brings(reply)
            == Some(Resource::Connection(session))),
        request matches RequestView::Prepare { handle, .. } ==> (reply is Done ==> request.brings(
            reply,
        ) == Some(Resource::Statement(handle))),
        request matches RequestView::PreparePoint { handle, .. } ==> (request.brings(reply) is Some
            <==> reply == ReplyView::Eligible(true)),
{
}

/// The run after so many things that it held were let go of.
pub open spec fn let_go_times(run: RunView, n: nat) -> RunView
    decreases n,
{
    if n == 0 {
        run
    } else {
        let_go_times(run, (n - 1) as nat).let_go()
    }
}

/// At the end of a run everything that it held is let go of once, the newest first:
/// what is let go of in turn `n` is the `n`th from the end, and in the end nothing is
/// held. What the run concluded stays.
pub proof fn law_lets_go_newest_first(run: RunView, n: nat)
    requires
        n <= run.held.len(),
    ensures
        let_go_times(run, n) == (RunView { held: run.held.take(run.held.len() - n), ..run }),
        n < run.held.len() ==> let_go_times(run, n).held.last() == run.held[run.held.len() - 1
            - n],
        n == run.held.len() ==> let_go_times(run, n).held == Seq::<Resource>::empty(),
        let_go_times(run, n).verdict() == run.verdict(),
    decreases n,
{
    if n == 0 {
        assert(run.held.take(run.held.len() as int) =~= run.held);
    } else {
        law_lets_go_newest_first(run, (n - 1) as nat);
        assert(run.held.take(run.held.len() - (n - 1)).drop_last() =~= run.held.take(
            run.held.len() - n,
        ));
    }
}

/// Whether the first step, and no other, makes a file.
pub open spec fn makes_one_file(steps: Seq<StepView>) -> bool {
    &&& 0 < steps.len()
    &&& steps[0].request is CreateFile
    &&& forall|i: int| 0 < i < steps.len() ==> !((#[trigger] steps[i]).request is CreateFile)
}

/// Whether the reader is opened by the second step and by no other, and no step closes
/// it.
pub open spec fn keeps_its_reader(steps: Seq<StepView>) -> bool {
    forall|i: int|
        0 <= i < steps.len() ==> {
            &&& (#[trigger] steps[i]).request == (RequestView::Open { session: Session::Reader })
                <==> i == 1
            &&& steps[i].request != (RequestView::Close { session: Session::Reader })
        }
}

/// Whether `request` prepares the statement `handle`.
pub open spec fn prepares(request: RequestView, handle: Handle) -> bool {
    match request {
        RequestView::Prepare { handle: h, .. } => h == handle,
        RequestView::PreparePoint { handle: h, .. } => h == handle,
        _ => false,
    }
}

/// Whether the statement `handle` is prepared by step `at` and by no other, and no step
/// releases it.
pub open spec fn keeps_its_statement(steps: Seq<StepView>, handle: Handle, at: int) -> bool {
    forall|i: int|
        0 <= i < steps.len() ==> {
            &&& prepares((#[trigger] steps[i]).request, handle) <==> i == at
            &&& steps[i].request != (RequestView::Release { handle })
        }
}

/// Every connection goes to one and the same file: where only the first step makes
/// a file, the path is the one that step was answered, for as long as the run lasts.
pub proof fn law_one_file(steps: Seq<StepView>, replies: Seq<ReplyView>, path: Seq<char>)
    requires
        makes_one_file(steps),
        0 < replies.len(),
        replies[0] == ReplyView::File(Some(path)),
    ensures
        replay(steps, replies).path == Some(path),
    decreases replies.len(),
{
    let before = replies.drop_last();
    lemma_replay(steps, before);
    if before.len() > 0 {
        assert(before[0] == replies[0]);
        law_one_file(steps, before, path);
        let m = replay(steps, before);
        if m.verdict() == Verdict::Running {
            assert(m.position == before.len());
            assert(!(steps[m.position as int].request is CreateFile));
        }
    } else {
        assert(replay(steps, before) == RunView::start(steps));
    }
}

/// A run knows a path only from the file: where only the first step makes a file, and it
/// was not answered with a path, there is none, whatever answers still come.
pub proof fn law_no_path_without_file(steps: Seq<StepView>, replies: Seq<ReplyView>)
    requires
        makes_one_file(steps),
        0 < replies.len() ==> !(replies[0] matches ReplyView::File(Some(_))),
    ensures
        replay(steps, replies).path is None,
    decreases replies.len(),
{
    if replies.len() > 0 {
        let before = replies.drop_last();
        lemma_replay(steps, before);
        assert(before.len() > 0 ==> before[0] == replies[0]);
        law_no_path_without_file(steps, before);
        let m = replay(steps, before);
        if m.verdict() == Verdict::Running {
            assert(m.position == before.len());
            assert(m.position > 0 ==> !(steps[m.position as int].request is CreateFile));
        }
    }
}

/// A request alone accepts whatever answers it.
pub broadcast proof fn lemma_ask_accepts(
    request: RequestView,
    reply: ReplyView,
    captured: Captured,
)
    ensures
        #[trigger] StepView::ask(request).accepts(reply, captured) <==> request.answered_by(reply),
{
}

/// To keep what an answer shows does not change which answers are accepted.
pub broadcast proof fn lemma_capturing_accepts(
    step: StepView,
    register: Register,
    reply: ReplyView,
    captured: Captured,
)
    ensures
        #[trigger] step.capturing(register).accepts(reply, captured) <==> step.accepts(
            reply,
            captured,
        ),
{
    assert(step.capturing(register).checks == step.checks);
}

/// One more check is one more condition on the answer, whatever it shows.
pub broadcast proof fn lemma_checking_with_accepts(
    step: StepView,
    condition: ConditionView,
    message: Seq<char>,
    detail: Detail,
    reply: ReplyView,
    captured: Captured,
)
    ensures
        #[trigger] step.checking_with(condition, message, detail).accepts(reply, captured)
            <==> step.accepts(reply, captured) && condition.holds(reply, captured),
{
    let more = step.checking_with(condition, message, detail);
    if more.accepts(reply, captured) {
        assert(more.checks[step.checks.len() as int].condition.holds(reply, captured));
        assert forall|j: int| 0 <= j < step.checks.len() implies (
        #[trigger] step.checks[j]).condition.holds(reply, captured) by {
            assert(more.checks[j] == step.checks[j]);
        }
    }
}

/// One more check is one more condition on the answer.
pub broadcast proof fn lemma_checking_accepts(
    step: StepView,
    condition: ConditionView,
    message: Seq<char>,
    reply: ReplyView,
    captured: Captured,
)
    ensures
        #[trigger] step.checking(condition, message).accepts(reply, captured) <==> step.accepts(
            reply,
            captured,
        ) && condition.holds(reply, captured),
{
    lemma_checking_with_accepts(step, condition, message, Detail::Nothing, reply, captured);
}

/// What a step that is built up accepts.
pub broadcast group group_accepts {
    lemma_ask_accepts,
    lemma_capturing_accepts,
    lemma_checking_with_accepts,
    lemma_checking_accepts,
}

} // verus!
