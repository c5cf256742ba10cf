//! What it means that a scenario passes: the promise that the database kept.
use vstd::prelude::*;

use crate::check::Register;
use crate::fixtures::{point_seed, seed_head, seed_rows, seed_steps, seed_tail, wal_seed, SeedView};
use crate::laws::{
    accepted, captured_by, group_accepts, held_by, keeps_its_reader, keeps_its_statement,
    law_holds_what_was_brought, law_passes_exactly_if_all_accept, law_register_keeps_last,
    makes_one_file, passes, prepares, replay,
};
use crate::protocol::{Handle, ReplyView, RequestView, Resource, Session};
use crate::scenarios::{
    api_body, api_steps, exact_body, exact_steps, external_head, external_steps, external_tail,
    hot_query, hot_rounds, hot_stream, idle_head, idle_probes, idle_steps, idle_tail,
    point_columns, steady_rounds, warm_head, warm_steps, warm_tail, CREATE_GROUP_INDEX, EXTERNAL_ID,
    EXTERNAL_UPDATE, PROBE_ID,
};
use crate::script::StepView;
use crate::value::{cell_is, ValueView};

verus! {

/// The number of answers that a seed with `count` rows takes.
pub open spec fn seed_len(count: nat) -> nat {
    count + 10
}

/// The database was seeded: the file is there and its path is known, and every
/// statement was done. Only the one that turns snapshots off may have failed.
pub open spec fn seeded_well(replies: Seq<ReplyView>, count: nat) -> bool {
    &&& replies[0] matches ReplyView::File(Some(_))
    &&& replies[4] is Done || replies[4] is Failed
    &&& forall|i: int| 0 < i < seed_len(count) && i != 4 ==> #[trigger] replies[i] is Done
}

/// A point query found a row that holds `value` in column `column`.
pub open spec fn found(reply: ReplyView, column: nat, value: ValueView) -> bool {
    reply matches ReplyView::Point(Some(row)) && cell_is(row, column, value)
}

/// A query returned one row.
pub open spec fn one_row(reply: ReplyView) -> bool {
    reply matches ReplyView::Rows(rows) && rows.len() == 1
}

/// A query returned one row, which holds `value` in column `column`.
pub open spec fn one_row_with(reply: ReplyView, column: nat, value: ValueView) -> bool {
    reply matches ReplyView::Rows(rows) && rows.len() == 1 && cell_is(rows[0], column, value)
}

/// A query handed over one row, which holds `value` in column `column`, and did not
/// fail.
pub open spec fn streamed_one_with(reply: ReplyView, column: nat, value: ValueView) -> bool {
    reply matches ReplyView::Streamed { rows, error } && error is None && rows.len() == 1
        && cell_is(rows[0], column, value)
}

/// The steps of a seed accept their answers exactly if the database was seeded.
proof fn lemma_seed(seed: SeedView, count: nat, rest: Seq<StepView>, replies: Seq<ReplyView>)
    requires
        seed_len(count) <= replies.len(),
    ensures
        seed_steps(seed, count).len() == seed_len(count),
        (forall|i: int|
            0 <= i < seed_len(count) ==> #[trigger] accepted(
                seed_steps(seed, count) + rest,
                replies,
                i,
            )) <==> seeded_well(replies, count),
{
    broadcast use group_accepts;

    let steps = seed_steps(seed, count) + rest;
    let head = seed_head(seed);
    let rows = seed_rows(seed, count);
    let tail = seed_tail();
    assert forall|i: int| 0 <= i < seed_len(count) implies accepted(steps, replies, i) == (if i
        == 0 {
        replies[0] matches ReplyView::File(Some(_))
    } else if i == 4 {
        replies[4] is Done || replies[4] is Failed
    } else {
        replies[i] is Done
    }) by {
        if i < 8 {
            assert(steps[i] == head[i]);
        } else if i < 8 + count {
            assert(steps[i] == rows[i - 8]);
        } else {
            assert(steps[i] == tail[i - 8 - count]);
        }
    }
    if forall|i: int| 0 <= i < seed_len(count) ==> #[trigger] accepted(steps, replies, i) {
        assert(accepted(steps, replies, 0));
        assert(accepted(steps, replies, 4));
        assert forall|i: int| 0 < i < seed_len(count) && i != 4 implies #[trigger] replies[
            i] is Done by {
            assert(accepted(steps, replies, i));
        }
    }
}

/// Step `k` of the steps `body` behind a seed accepts its answer.
spec fn placed(
    seed: SeedView,
    count: nat,
    body: Seq<StepView>,
    replies: Seq<ReplyView>,
    k: int,
) -> bool {
    body[k].accepts(
        replies[seed_len(count) + k],
        captured_by(seed_steps(seed, count) + body, replies, (seed_len(count) + k + 1) as nat),
    )
}

/// The steps from `a` to before `b` of the steps `body` behind a seed accept their
/// answers.
spec fn all_placed(
    seed: SeedView,
    count: nat,
    body: Seq<StepView>,
    replies: Seq<ReplyView>,
    a: int,
    b: int,
) -> bool
    decreases b - a,
{
    a >= b || (all_placed(seed, count, body, replies, a, b - 1) && placed(
        seed,
        count,
        body,
        replies,
        b - 1,
    ))
}

/// All steps of a range accept their answers exactly if each does.
proof fn lemma_each_placed(
    seed: SeedView,
    count: nat,
    body: Seq<StepView>,
    replies: Seq<ReplyView>,
    a: int,
    b: int,
)
    ensures
        all_placed(seed, count, body, replies, a, b) <==> forall|k: int|
            a <= k < b ==> #[trigger] placed(seed, count, body, replies, k),
    decreases b - a,
{
    if a < b {
        lemma_each_placed(seed, count, body, replies, a, b - 1);
        assert(all_placed(seed, count, body, replies, a, b) ==> placed(
            seed,
            count,
            body,
            replies,
            b - 1,
        ));
    }
}

/// A range of steps accepts its answers exactly if its two parts do.
proof fn lemma_parts_placed(
    seed: SeedView,
    count: nat,
    body: Seq<StepView>,
    replies: Seq<ReplyView>,
    a: int,
    mid: int,
    b: int,
)
    requires
        a <= mid <= b,
    ensures
        all_placed(seed, count, body, replies, a, b) <==> {
            &&& all_placed(seed, count, body, replies, a, mid)
            &&& all_placed(seed, count, body, replies, mid, b)
        },
    decreases b - mid,
{
    if mid < b {
        lemma_parts_placed(seed, count, body, replies, a, mid, b - 1);
    }
}

/// What starts with a seed passes exactly if the database was seeded and every step
/// behind the seed accepts its answer.
proof fn lemma_behind_seed(
    seed: SeedView,
    count: nat,
    body: Seq<StepView>,
    replies: Seq<ReplyView>,
)
    requires
        seed_len(count) + body.len() <= replies.len(),
    ensures
        passes(seed_steps(seed, count) + body, replies) <==> {
            &&& seeded_well(replies, count)
            &&& all_placed(seed, count, body, replies, 0, body.len() as int)
        },
{
    let steps = seed_steps(seed, count) + body;
    let at = seed_len(count) as int;
    lemma_seed(seed, count, body, replies);
    lemma_each_placed(seed, count, body, replies, 0, body.len() as int);
    law_passes_exactly_if_all_accept(steps, replies);
    assert forall|k: int| 0 <= k < body.len() implies #[trigger] placed(
        seed,
        count,
        body,
        replies,
        k,
    ) == accepted(steps, replies, at + k) by {
        assert(steps[at + k] == body[k]);
    }
    assert forall|i: int| at <= i < steps.len() implies #[trigger] accepted(steps, replies, i)
        == placed(seed, count, body, replies, i - at) by {
        assert(steps[i] == body[i - at]);
    }
}

/// What a register holds after the first `n` steps behind a seed is what step `k` of
/// them was answered, the last that writes it.
proof fn lemma_kept_behind_seed(
    seed: SeedView,
    count: nat,
    body: Seq<StepView>,
    replies: Seq<ReplyView>,
    register: Register,
    k: int,
    n: int,
)
    requires
        0 <= k < n <= body.len(),
        seed_len(count) + body.len() <= replies.len(),
        body[k].capture == Some(register),
        forall|m: int| k < m < n ==> (#[trigger] body[m]).capture != Some(register),
    ensures
        captured_by(
            seed_steps(seed, count) + body,
            replies,
            (seed_len(count) + n) as nat,
        ).at(register) == replies[seed_len(count) + k].observation(),
{
    let steps = seed_steps(seed, count) + body;
    let at = seed_len(count) as int;
    lemma_seed(seed, count, body, replies);
    assert forall|m: int| at <= m < steps.len() implies #[trigger] steps[m] == body[m - at] by {}
    law_register_keeps_last(steps, replies, register, at + k, (at + n) as nat);
}

/// A seeded database passes by itself exactly if it was seeded.
pub proof fn law_seed(seed: SeedView, count: nat, replies: Seq<ReplyView>)
    requires
        seed_len(count) <= replies.len(),
    ensures
        passes(seed_steps(seed, count), replies) <==> seeded_well(replies, count),
{
    let none: Seq<StepView> = seq![];
    lemma_seed(seed, count, none, replies);
    assert(seed_steps(seed, count) + none =~= seed_steps(seed, count));
    law_passes_exactly_if_all_accept(seed_steps(seed, count), replies);
}

/// What the answers show where the point-query interface keeps its promise: lookups
/// by primary key and by a unique column are point queries, with the columns asked
/// for; a key that is there finds its row, one that is not finds none; a lookup by
/// another column is no point query; and after a change of the schema the same
/// query still finds its row and has the same columns.
pub open spec fn api_promise(replies: Seq<ReplyView>) -> bool {
    let at = seed_len(64) as int;
    &&& seeded_well(replies, 64)
    &&& replies[at] == ReplyView::Eligible(true)
    &&& replies[at + 1] == ReplyView::Columns { count: 2, names: point_columns() }
    &&& found(replies[at + 2], 0, ValueView::Integer(17))
    &&& replies[at + 3] == ReplyView::Point(None)
    &&& replies[at + 4] == ReplyView::Eligible(true)
    &&& found(replies[at + 5], 0, ValueView::Integer(9))
    &&& replies[at + 6] == ReplyView::Eligible(false)
    &&& replies[at + 7] is Done
    &&& found(replies[at + 8], 0, ValueView::Integer(23))
    &&& replies[at + 9] matches ReplyView::Columns { names, .. } && names == point_columns()
}

/// The scenario of the point-query interface passes exactly if the answers keep its
/// promise.
pub proof fn law_api(replies: Seq<ReplyView>)
    requires
        api_steps().len() <= replies.len(),
    ensures
        passes(api_steps(), replies) <==> api_promise(replies),
{
    broadcast use group_accepts;

    lemma_behind_seed(point_seed("WAL"@), 64, api_body(), replies);
    reveal_with_fuel(all_placed, 11);
}

/// What the answers show where a point query keeps its promise of exact visibility:
/// the first, the middle and the last row are found and no row past them; and once
/// another connection has committed a change of the middle row, the very next lookup
/// returns the change.
pub open spec fn exact_promise(replies: Seq<ReplyView>) -> bool {
    let at = seed_len(100_000) as int;
    &&& seeded_well(replies, 100_000)
    &&& replies[at] == ReplyView::Eligible(true)
    &&& found(replies[at + 1], 0, ValueView::Integer(0))
    &&& found(replies[at + 2], 0, ValueView::Integer(50_000))
    &&& found(replies[at + 3], 0, ValueView::Integer(99_999))
    &&& replies[at + 4] == ReplyView::Point(None)
    &&& replies[at + 5] is Done
    &&& replies[at + 6] is Done
    &&& replies[at + 7] is Done
    &&& replies[at + 8] is Done
    &&& found(replies[at + 9], 1, ValueView::Text("external_100k"@))
}

/// The scenario of exact visibility passes exactly if the answers keep its promise,
/// in every journal mode.
pub proof fn law_exact_visibility(journal_mode: Seq<char>, replies: Seq<ReplyView>)
    requires
        exact_steps(journal_mode).len() <= replies.len(),
    ensures
        passes(exact_steps(journal_mode), replies) <==> exact_promise(replies),
{
    broadcast use group_accepts;

    lemma_behind_seed(point_seed(journal_mode), 100_000, exact_body(journal_mode), replies);
    reveal_with_fuel(all_placed, 11);
}

/// What the answers show where the pager keeps its promise: probes of an unchanged
/// file see what was published before, and publish nothing.
pub open spec fn idle_promise(replies: Seq<ReplyView>) -> bool {
    let at = seed_len(256) as int;
    &&& seeded_well(replies, 256)
    &&& replies[at] is Done
    &&& replies[at + 1] is Publication
    &&& replies[at + 2] is Count
    &&& forall|i: int| at + 3 <= i < at + 8 ==> #[trigger] replies[i] == replies[at + 1]
    &&& replies[at + 8] == replies[at + 2]
}

/// The scenario of the idle probes passes exactly if the answers keep its promise.
pub proof fn law_idle_refresh(replies: Seq<ReplyView>)
    requires
        idle_steps().len() <= replies.len(),
    ensures
        passes(idle_steps(), replies) <==> idle_promise(replies),
{
    broadcast use group_accepts;

    let seed = wal_seed();
    let body = idle_head() + idle_probes(5) + idle_tail();
    let at: int = 266;
    assert(idle_steps() =~= seed_steps(seed, 256) + body);
    lemma_behind_seed(seed, 256, body, replies);
    reveal_with_fuel(all_placed, 10);
    assert forall|k: int| 3 <= k < 8 && replies[at + 1] is Publication implies #[trigger] placed(
        seed,
        256,
        body,
        replies,
        k,
    ) == (replies[at + k] == replies[at + 1]) by {
        lemma_kept_behind_seed(seed, 256, body, replies, Register::PublicationBefore, 1, k + 1);
        lemma_kept_behind_seed(seed, 256, body, replies, Register::PublicationAfter, k, k + 1);
    }
    lemma_kept_behind_seed(seed, 256, body, replies, Register::WritesBefore, 2, 9);
    lemma_kept_behind_seed(seed, 256, body, replies, Register::WritesAfter, 8, 9);
}

/// Round `i` of the repeated lookup, whose first answer is at `at`, returned the row
/// with the key in both of its forms.
pub open spec fn hot_round_well(replies: Seq<ReplyView>, at: int, i: int) -> bool {
    &&& one_row_with(replies[at + 2 * i], 0, ValueView::Integer(PROBE_ID))
    &&& streamed_one_with(replies[at + 2 * i + 1], 0, ValueView::Integer(PROBE_ID))
}

/// What the answers show where warmed prepared lookups keep their promise: the first
/// lookup loads the rows, and twelve rounds of lookups after it each return the row
/// with the key, reload nothing, leave the rows loaded and the memory image at the
/// same commit, leave what is published and the number of publications as they were,
/// and stay on the fast path.
pub open spec fn warm_promise(replies: Seq<ReplyView>) -> bool {
    let at = seed_len(2_000) as int;
    &&& seeded_well(replies, 2_000)
    &&& replies[at] is Done
    &&& one_row(replies[at + 1])
    &&& replies[at + 2] == ReplyView::Loaded(true)
    &&& replies[at + 3] is Publication
    &&& replies[at + 4] is Count
    &&& replies[at + 5] is Count
    &&& replies[at + 6] is Done
    &&& forall|i: int| 0 <= i < 12 ==> #[trigger] hot_round_well(replies, at + 7, i)
    &&& replies[at + 31] matches ReplyView::Profile(c) && c.memdb_refresh_count == 0
        && c.parser.fast_path_executions >= 12
    &&& replies[at + 32] == replies[at + 3]
    &&& replies[at + 33] == replies[at + 4]
    &&& replies[at + 34] == replies[at + 5]
    &&& replies[at + 35] == ReplyView::Loaded(true)
}

/// The scenario of the warmed lookups passes exactly if the answers keep its promise.
pub proof fn law_warmed_lookups(replies: Seq<ReplyView>)
    requires
        warm_steps().len() <= replies.len(),
    ensures
        passes(warm_steps(), replies) <==> warm_promise(replies),
{
    broadcast use group_accepts;

    let seed = wal_seed();
    let body = warm_head() + hot_rounds(12) + warm_tail();
    assert(warm_steps() =~= seed_steps(seed, 2_000) + body);
    lemma_behind_seed(seed, 2_000, body, replies);
    lemma_parts_placed(seed, 2_000, body, replies, 0, 7, 36);
    lemma_parts_placed(seed, 2_000, body, replies, 7, 31, 36);
    lemma_hot_rounds(replies);
    reveal_with_fuel(all_placed, 8);
    lemma_kept_behind_seed(seed, 2_000, body, replies, Register::Profile, 31, 35);
    lemma_kept_behind_seed(seed, 2_000, body, replies, Register::Profile, 31, 36);
    lemma_kept_behind_seed(seed, 2_000, body, replies, Register::PublicationBefore, 3, 36);
    lemma_kept_behind_seed(seed, 2_000, body, replies, Register::WritesBefore, 4, 36);
    lemma_kept_behind_seed(seed, 2_000, body, replies, Register::SequenceBefore, 5, 36);
    lemma_kept_behind_seed(seed, 2_000, body, replies, Register::PublicationAfter, 32, 36);
    lemma_kept_behind_seed(seed, 2_000, body, replies, Register::WritesAfter, 33, 36);
    lemma_kept_behind_seed(seed, 2_000, body, replies, Register::SequenceAfter, 34, 36);
}

/// The steps of the repeated lookup accept their answers exactly if every round went
/// well.
proof fn lemma_hot_rounds(replies: Seq<ReplyView>)
    ensures
        all_placed(
            wal_seed(),
            2_000,
            warm_head() + hot_rounds(12) + warm_tail(),
            replies,
            7,
            31,
        ) <==> forall|i: int| 0 <= i < 12 ==> #[trigger] hot_round_well(replies, 2_017, i),
{
    broadcast use group_accepts;

    let seed = wal_seed();
    let body = warm_head() + hot_rounds(12) + warm_tail();
    lemma_each_placed(seed, 2_000, body, replies, 7, 31);
    assert forall|i: int| 0 <= i < 12 implies #[trigger] hot_round_well(replies, 2_017, i) == (
    placed(seed, 2_000, body, replies, 7 + 2 * i) && placed(
        seed,
        2_000,
        body,
        replies,
        8 + 2 * i,
    )) by {
        assert(body[7 + 2 * i] == hot_query(i as nat));
        assert(body[8 + 2 * i] == hot_stream(i as nat));
    }
    if forall|i: int| 0 <= i < 12 ==> #[trigger] hot_round_well(replies, 2_017, i) {
        assert forall|k: int| 7 <= k < 31 implies #[trigger] placed(
            seed,
            2_000,
            body,
            replies,
            k,
        ) by {
            let i = (k - 7) / 2;
            assert(hot_round_well(replies, 2_017, i));
            assert(k == 7 + 2 * i || k == 8 + 2 * i);
        }
    }
}

/// What the answers show where prepared lookups keep their promise on a commit of
/// another connection: the very next lookup returns the row that was inserted, with
/// exactly one reload and the rows loaded after it; and the lookups after that return
/// it too, reload nothing and leave the published generation as it was.
pub open spec fn external_promise(replies: Seq<ReplyView>) -> bool {
    let at = seed_len(1_000) as int;
    &&& seeded_well(replies, 1_000)
    &&& replies[at] is Done
    &&& one_row(replies[at + 1])
    &&& replies[at + 2] == ReplyView::Loaded(true)
    &&& replies[at + 3] is Done
    &&& replies[at + 4] is Done || replies[at + 4] is Failed
    &&& replies[at + 5] is Done
    &&& replies[at + 6] is Done
    &&& replies[at + 7] is Done
    &&& replies[at + 8] is Done
    &&& replies[at + 9] is Done
    &&& one_row_with(replies[at + 10], 0, ValueView::Integer(EXTERNAL_ID))
    &&& one_row_with(replies[at + 10], 1, ValueView::Text("external"@))
    &&& replies[at + 11] matches ReplyView::Profile(c) && c.memdb_refresh_count == 1
    &&& replies[at + 12] == ReplyView::Loaded(true)
    &&& replies[at + 13] is Done
    &&& forall|i: int| at + 15 <= i < at + 23 ==> one_row(#[trigger] replies[i])
    &&& replies[at + 23] matches ReplyView::Profile(c) && c.memdb_refresh_count == 0
    &&& replies[at + 14] matches ReplyView::Publication(before)
    &&& replies[at + 24] matches ReplyView::Publication(after)
    &&& before.snapshot_gen == after.snapshot_gen
}

/// The scenario of the external commit passes exactly if the answers keep its
/// promise.
pub proof fn law_external_commit(replies: Seq<ReplyView>)
    requires
        external_steps().len() <= replies.len(),
    ensures
        passes(external_steps(), replies) <==> external_promise(replies),
{
    broadcast use group_accepts;

    let seed = wal_seed();
    let body = external_head() + steady_rounds(8) + external_tail();
    assert(external_steps() =~= seed_steps(seed, 1_000) + body);
    lemma_behind_seed(seed, 1_000, body, replies);
    reveal_with_fuel(all_placed, 26);
    lemma_kept_behind_seed(seed, 1_000, body, replies, Register::Profile, 11, 12);
    lemma_kept_behind_seed(seed, 1_000, body, replies, Register::Profile, 23, 25);
    lemma_kept_behind_seed(seed, 1_000, body, replies, Register::PublicationBefore, 14, 25);
    lemma_kept_behind_seed(seed, 1_000, body, replies, Register::PublicationAfter, 24, 25);
}

/// Neither makes a file nor opens or closes the reader.
spec fn leaves_file_and_reader(step: StepView) -> bool {
    &&& !(step.request is CreateFile)
    &&& step.request != (RequestView::Open { session: Session::Reader })
    &&& step.request != (RequestView::Close { session: Session::Reader })
}

/// A seed makes the file and opens the reader once. So does what starts with a seed,
/// if the rest does neither.
proof fn lemma_seed_opens_once(seed: SeedView, count: nat, rest: Seq<StepView>)
    requires
        forall|i: int| 0 <= i < rest.len() ==> leaves_file_and_reader(#[trigger] rest[i]),
    ensures
        makes_one_file(seed_steps(seed, count) + rest),
        keeps_its_reader(seed_steps(seed, count) + rest),
{
    let steps = seed_steps(seed, count) + rest;
    let head = seed_head(seed);
    let rows = seed_rows(seed, count);
    let tail = seed_tail();
    assert(steps[0] == head[0]);
    assert(steps[1] == head[1]);
    assert forall|i: int| 1 < i < steps.len() implies leaves_file_and_reader(
        #[trigger] steps[i],
    ) by {
        if i < 8 {
            assert(steps[i] == head[i]);
        } else if i < 8 + count {
            assert(steps[i] == rows[i - 8]);
        } else if i < 10 + count {
            assert(steps[i] == tail[i - 8 - count]);
        } else {
            assert(steps[i] == rest[i - 10 - count]);
        }
    }
}

/// Every scenario works on one file, which it makes first, and with one reader, which
/// it opens next: what the reader sees of a commit of the writer, it sees without
/// being opened again.
pub proof fn law_scenarios_open_once(journal_mode: Seq<char>)
    ensures
        makes_one_file(api_steps()) && keeps_its_reader(api_steps()),
        makes_one_file(exact_steps(journal_mode)) && keeps_its_reader(exact_steps(journal_mode)),
        makes_one_file(warm_steps()) && keeps_its_reader(warm_steps()),
        makes_one_file(external_steps()) && keeps_its_reader(external_steps()),
        makes_one_file(idle_steps()) && keeps_its_reader(idle_steps()),
{
    lemma_seed_opens_once(point_seed("WAL"@), 64, api_body());
    lemma_seed_opens_once(point_seed(journal_mode), 100_000, exact_body(journal_mode));
    let warm = warm_head() + hot_rounds(12) + warm_tail();
    assert(warm_steps() =~= seed_steps(wal_seed(), 2_000) + warm);
    lemma_seed_opens_once(wal_seed(), 2_000, warm);
    let external = external_head() + steady_rounds(8) + external_tail();
    assert(external_steps() =~= seed_steps(wal_seed(), 1_000) + external);
    lemma_seed_opens_once(wal_seed(), 1_000, external);
    let idle = idle_head() + idle_probes(5) + idle_tail();
    assert(idle_steps() =~= seed_steps(wal_seed(), 256) + idle);
    lemma_seed_opens_once(wal_seed(), 256, idle);
}

/// Neither prepares nor releases the statement `handle`.
spec fn leaves_statement(step: StepView, handle: Handle) -> bool {
    &&& !prepares(step.request, handle)
    &&& step.request != (RequestView::Release { handle })
}

/// A seed prepares and releases no statement but its own insert. So what follows it
/// prepares a statement once if its first step does and no other.
proof fn lemma_first_prepares(
    seed: SeedView,
    count: nat,
    rest: Seq<StepView>,
    handle: Handle,
)
    requires
        handle != Handle::Insert,
        rest.len() > 0,
        prepares(rest[0].request, handle),
        forall|i: int| 0 < i < rest.len() ==> leaves_statement(#[trigger] rest[i], handle),
    ensures
        keeps_its_statement(
            seed_steps(seed, count) + rest,
            handle,
            seed_len(count) as int,
        ),
{
    let steps = seed_steps(seed, count) + rest;
    let head = seed_head(seed);
    let rows = seed_rows(seed, count);
    let tail = seed_tail();
    assert(steps[count as int + 10] == rest[0]);
    assert forall|i: int| 0 <= i < steps.len() && i != 10 + count implies leaves_statement(
        #[trigger] steps[i],
        handle,
    ) by {
        if i < 8 {
            assert(steps[i] == head[i]);
        } else if i < 8 + count {
            assert(steps[i] == rows[i - 8]);
        } else if i < 10 + count {
            assert(steps[i] == tail[i - 8 - count]);
        } else {
            assert(steps[i] == rest[i - 10 - count]);
        }
    }
}

/// A commit is seen by the same statement: the statement that is looked up after the
/// commit of the writer, or after the change of the schema, is prepared once, before
/// it, and is not released in between.
pub proof fn law_same_statement_sees_commit(journal_mode: Seq<char>)
    ensures
        keeps_its_statement(api_steps(), Handle::ById, 74),
        api_steps()[81].request == (RequestView::Execute {
            session: Session::Reader,
            sql: CREATE_GROUP_INDEX@,
        }),
        api_steps()[82].request matches RequestView::QueryPoint { handle, .. } && handle
            == Handle::ById,
        keeps_its_statement(exact_steps(journal_mode), Handle::ById, 100_010),
        exact_steps(journal_mode)[100_017].request == (RequestView::Execute {
            session: Session::Writer,
            sql: EXTERNAL_UPDATE@,
        }),
        exact_steps(journal_mode)[100_019].request matches RequestView::QueryPoint { handle, .. }
            && handle == Handle::ById,
        keeps_its_statement(external_steps(), Handle::Select, 1_010),
        external_steps()[1_017].request == (RequestView::Execute {
            session: Session::Writer,
            sql: "COMMIT;"@,
        }),
        external_steps()[1_020].request matches RequestView::Query { handle, .. } && handle
            == Handle::Select,
{
    lemma_first_prepares(point_seed("WAL"@), 64, api_body(), Handle::ById);
    assert(api_steps()[81] == api_body()[7]);
    assert(api_steps()[82] == api_body()[8]);
    let exact = exact_body(journal_mode);
    lemma_first_prepares(point_seed(journal_mode), 100_000, exact, Handle::ById);
    assert(exact_steps(journal_mode)[100_017] == exact[7]);
    assert(exact_steps(journal_mode)[100_019] == exact[9]);
    let external = external_head() + steady_rounds(8) + external_tail();
    assert(external_steps() =~= seed_steps(wal_seed(), 1_000) + external);
    lemma_first_prepares(wal_seed(), 1_000, external, Handle::Select);
    assert(external_steps()[1_017] == external_head()[7]);
    assert(external_steps()[1_020] == external_head()[10]);
}

/// Brings nothing and lets go of nothing, whatever the answer.
spec fn holds_still(step: StepView) -> bool {
    match step.request {
        RequestView::CreateFile => false,
        RequestView::Open { .. } => false,
        RequestView::Prepare { .. } => false,
        RequestView::PreparePoint { .. } => false,
        RequestView::Release { .. } => false,
        RequestView::Close { .. } => false,
        _ => true,
    }
}

/// What is held does not change over steps that bring nothing and let go of nothing.
proof fn lemma_held_still(steps: Seq<StepView>, replies: Seq<ReplyView>, a: nat, b: nat)
    requires
        a <= b,
        forall|i: int| a <= i < b ==> holds_still(#[trigger] steps[i]),
    ensures
        held_by(steps, replies, b) == held_by(steps, replies, a),
    decreases b - a,
{
    if a < b {
        lemma_held_still(steps, replies, a, (b - 1) as nat);
        assert(holds_still(steps[b - 1]));
    }
}

/// A seeded database is a file and a connection to it: the insert was let go of.
proof fn lemma_held_seed(seed: SeedView, count: nat, rest: Seq<StepView>, replies: Seq<ReplyView>)
    requires
        seeded_well(replies, count),
    ensures
        held_by(seed_steps(seed, count) + rest, replies, seed_len(count)) == seq![
            Resource::File,
            Resource::Connection(Session::Reader),
        ],
{
    let steps = seed_steps(seed, count) + rest;
    let head = seed_head(seed);
    let rows = seed_rows(seed, count);
    let tail = seed_tail();
    assert forall|i: int| 0 <= i < 8 implies #[trigger] steps[i] == head[i] by {}
    assert forall|i: int| 8 <= i < 8 + count implies #[trigger] steps[i] == rows[i - 8] by {}
    assert(steps[count as int + 8] == tail[0]);
    assert(steps[count as int + 9] == tail[1]);
    let opened = seq![Resource::File, Resource::Connection(Session::Reader)];
    assert(replies[1] is Done && replies[7] is Done);
    reveal_with_fuel(held_by, 3);
    assert(steps[0] == head[0] && steps[1] == head[1]);
    assert(held_by(steps, replies, 2) =~= opened);
    lemma_held_still(steps, replies, 2, 7);
    assert(steps[7] == head[7]);
    assert(held_by(steps, replies, 8) == opened.push(Resource::Statement(Handle::Insert)));
    lemma_held_still(steps, replies, 8, 8 + count);
    assert(opened.push(Resource::Statement(Handle::Insert)).drop_last() =~= opened);
    assert(held_by(steps, replies, 9 + count) == opened);
}

/// What a passed run of the point-query interface still holds, oldest first: it is let
/// go of from the end on, so the queries go before the connection and the connection
/// before the file.
pub proof fn law_api_lets_go(replies: Seq<ReplyView>)
    requires
        passes(api_steps(), replies),
    ensures
        replay(api_steps(), replies).held == seq![
            Resource::File,
            Resource::Connection(Session::Reader),
            Resource::Statement(Handle::ById),
            Resource::Statement(Handle::ByEmail),
        ],
{
    let steps = api_steps();
    let body = api_body();
    law_passes_exactly_if_all_accept(steps, replies);
    law_api(replies);
    law_holds_what_was_brought(steps, replies);
    lemma_held_seed(point_seed("WAL"@), 64, body, replies);
    assert forall|i: int| 74 <= i < 84 implies #[trigger] steps[i] == body[i - 74] by {}
    assert(steps[74] == body[0]);
    lemma_held_still(steps, replies, 75, 78);
    assert(steps[78] == body[4]);
    assert(steps[80] == body[6]);
    lemma_held_still(steps, replies, 79, 80);
    assert(held_by(steps, replies, 81) == held_by(steps, replies, 80));
    lemma_held_still(steps, replies, 81, 84);
}

/// What a passed run of exact visibility still holds, oldest first. The writer was
/// closed on the way.
pub proof fn law_exact_lets_go(journal_mode: Seq<char>, replies: Seq<ReplyView>)
    requires
        passes(exact_steps(journal_mode), replies),
    ensures
        replay(exact_steps(journal_mode), replies).held == seq![
            Resource::File,
            Resource::Connection(Session::Reader),
            Resource::Statement(Handle::ById),
        ],
{
    let steps = exact_steps(journal_mode);
    let body = exact_body(journal_mode);
    law_passes_exactly_if_all_accept(steps, replies);
    law_exact_visibility(journal_mode, replies);
    law_holds_what_was_brought(steps, replies);
    lemma_held_seed(point_seed(journal_mode), 100_000, body, replies);
    assert forall|i: int| 100_010 <= i < 100_020 implies #[trigger] steps[i] == body[i
        - 100_010] by {}
    let held = held_by(steps, replies, 100_011);
    lemma_held_still(steps, replies, 100_011, 100_015);
    assert(held_by(steps, replies, 100_016) == held.push(Resource::Connection(Session::Writer)));
    lemma_held_still(steps, replies, 100_016, 100_018);
    assert(held.push(Resource::Connection(Session::Writer)).drop_last() =~= held);
    assert(held_by(steps, replies, 100_019) == held);
    lemma_held_still(steps, replies, 100_019, 100_020);
}

/// What a passed run of the warmed lookups still holds, oldest first.
pub proof fn law_warm_lets_go(replies: Seq<ReplyView>)
    requires
        passes(warm_steps(), replies),
    ensures
        replay(warm_steps(), replies).held == seq![
            Resource::File,
            Resource::Connection(Session::Reader),
            Resource::Statement(Handle::Select),
        ],
{
    let steps = warm_steps();
    let rest = warm_head() + hot_rounds(12) + warm_tail();
    law_passes_exactly_if_all_accept(steps, replies);
    law_warmed_lookups(replies);
    law_holds_what_was_brought(steps, replies);
    assert(steps =~= seed_steps(wal_seed(), 2_000) + rest);
    lemma_held_seed(wal_seed(), 2_000, rest, replies);
    assert forall|i: int| 2_010 <= i < 2_046 implies #[trigger] steps[i] == rest[i - 2_010] by {}
    lemma_held_still(steps, replies, 2_011, 2_046);
}

/// What a passed run of the external commit still holds, oldest first. The writer was
/// closed on the way.
pub proof fn law_external_lets_go(replies: Seq<ReplyView>)
    requires
        passes(external_steps(), replies),
    ensures
        replay(external_steps(), replies).held == seq![
            Resource::File,
            Resource::Connection(Session::Reader),
            Resource::Statement(Handle::Select),
        ],
{
    let steps = external_steps();
    let rest = external_head() + steady_rounds(8) + external_tail();
    law_passes_exactly_if_all_accept(steps, replies);
    law_external_commit(replies);
    law_holds_what_was_brought(steps, replies);
    assert(steps =~= seed_steps(wal_seed(), 1_000) + rest);
    lemma_held_seed(wal_seed(), 1_000, rest, replies);
    assert forall|i: int| 1_010 <= i < 1_035 implies #[trigger] steps[i] == rest[i - 1_010] by {}
    let held = held_by(steps, replies, 1_011);
    lemma_held_still(steps, replies, 1_011, 1_013);
    assert(held_by(steps, replies, 1_014) == held.push(Resource::Connection(Session::Writer)));
    lemma_held_still(steps, replies, 1_014, 1_018);
    assert(held.push(Resource::Connection(Session::Writer)).drop_last() =~= held);
    assert(held_by(steps, replies, 1_019) == held);
    lemma_held_still(steps, replies, 1_019, 1_035);
}

/// What a passed run of the idle probes still holds, oldest first.
pub proof fn law_idle_lets_go(replies: Seq<ReplyView>)
    requires
        passes(idle_steps(), replies),
    ensures
        replay(idle_steps(), replies).held == seq![
            Resource::File,
            Resource::Connection(Session::Reader),
        ],
{
    let steps = idle_steps();
    let rest = idle_head() + idle_probes(5) + idle_tail();
    law_passes_exactly_if_all_accept(steps, replies);
    law_idle_refresh(replies);
    law_holds_what_was_brought(steps, replies);
    assert(steps =~= seed_steps(wal_seed(), 256) + rest);
    lemma_held_seed(wal_seed(), 256, rest, replies);
    assert forall|i: int| 266 <= i < 275 implies #[trigger] steps[i] == rest[i - 266] by {}
    lemma_held_still(steps, replies, 266, 275);
}

} // verus!
