//! What a scenario says of every answer that it does not accept.
use vstd::prelude::*;

use crate::check::{
    same_count, same_generation, same_visible_commit, Captured, ConditionView, Detail, Observation,
    Register,
};
use crate::fixtures::{
    point_seed, seed_head, seed_rows, seed_steps, seed_tail, wal_seed, SeedView,
};
use crate::promises::{found, seed_len};
use crate::protocol::{ReplyView, RequestView};
use crate::run::{first_failing, lemma_first_failing};
use crate::scenarios::{
    api_body, api_steps, exact_body, exact_steps, external_head, external_steps, external_tail,
    hot_rounds, idle_head, idle_probes, idle_steps, idle_tail, steady_rounds, warm_head, warm_steps,
    warm_tail,
};
use crate::script::StepView;
use crate::text::decimal_text;
use crate::value::{cell_is, ValueView};

verus! {

/// What `step` says of the answer `reply` to its request, where `captured` was observed up
/// to and with it: what its first check that does not hold says, or nothing if all hold.
pub open spec fn complaint_of(
    step: StepView,
    reply: ReplyView,
    captured: Captured,
) -> Option<Seq<char>> {
    let j = first_failing(step, reply, captured, 0);
    if j < step.checks.len() {
        Some(step.checks[j as int].complaint(captured))
    } else {
        None
    }
}

/// `message` unless something holds, and then `rest`.
pub open spec fn unless(
    holds: bool,
    message: Seq<char>,
    rest: Option<Seq<char>>,
) -> Option<Seq<char>> {
    if holds {
        rest
    } else {
        Some(message)
    }
}

/// A request alone says nothing.
broadcast proof fn lemma_ask_says(request: RequestView, reply: ReplyView, captured: Captured)
    ensures
        #[trigger] complaint_of(StepView::ask(request), reply, captured) is None,
{
}

/// To keep what an answer shows does not change what is said.
broadcast proof fn lemma_capturing_says(
    step: StepView,
    register: Register,
    reply: ReplyView,
    captured: Captured,
)
    ensures
        #[trigger] complaint_of(step.capturing(register), reply, captured) == complaint_of(
            step,
            reply,
            captured,
        ),
{
    lemma_same_first_failing(step, step.capturing(register), reply, captured);
}

/// What is said depends on the checks alone.
proof fn lemma_same_first_failing(a: StepView, b: StepView, reply: ReplyView, captured: Captured)
    requires
        a.checks == b.checks,
    ensures
        first_failing(a, reply, captured, 0) == first_failing(b, reply, captured, 0),
{
    lemma_first_failing(a, reply, captured, 0);
    lemma_first_failing(b, reply, captured, 0);
    let i = first_failing(a, reply, captured, 0);
    let j = first_failing(b, reply, captured, 0);
    assert(i < j ==> b.checks[i as int].condition.holds(reply, captured));
    assert(j < i ==> a.checks[j as int].condition.holds(reply, captured));
}

/// One more check says its message where the checks before it hold and it does not.
broadcast proof fn lemma_checking_with_says(
    step: StepView,
    condition: ConditionView,
    message: Seq<char>,
    detail: Detail,
    reply: ReplyView,
    captured: Captured,
)
    ensures
        #[trigger] complaint_of(
            step.checking_with(condition, message, detail),
            reply,
            captured,
        ) == (match complaint_of(step, reply, captured) {
            Some(said) => Some(said),
            None => unless(
                condition.holds(reply, captured),
                message + detail.shown(captured),
                None,
            ),
        }),
{
    let more = step.checking_with(condition, message, detail);
    let n = step.checks.len();
    lemma_first_failing(step, reply, captured, 0);
    lemma_first_failing(more, reply, captured, 0);
    let i = first_failing(step, reply, captured, 0);
    let j = first_failing(more, reply, captured, 0);
    assert forall|k: int| 0 <= k < n implies #[trigger] more.checks[k] == step.checks[k] by {}
    assert(more.checks[n as int].condition == condition);
    assert(i < n && i < j ==> more.checks[i as int].condition.holds(reply, captured));
    assert(j < i ==> step.checks[j as int].condition.holds(reply, captured));
}

/// One more check says its message where the checks before it hold and it does not.
broadcast proof fn lemma_checking_says(
    step: StepView,
    condition: ConditionView,
    message: Seq<char>,
    reply: ReplyView,
    captured: Captured,
)
    ensures
        #[trigger] complaint_of(step.checking(condition, message), reply, captured) == (
        match complaint_of(step, reply, captured) {
            Some(said) => Some(said),
            None => unless(condition.holds(reply, captured), message, None),
        }),
{
    lemma_checking_with_says(step, condition, message, Detail::Nothing, reply, captured);
    assert(message + Detail::Nothing.shown(captured) =~= message);
}

/// What a step that is built up says.
broadcast group group_says {
    lemma_ask_says,
    lemma_capturing_says,
    lemma_checking_with_says,
    lemma_checking_says,
}

/// What is said of a request that must succeed.
pub open spec fn success_says(r: ReplyView, failed: Seq<char>) -> Option<Seq<char>> {
    unless(r.error() is None, failed, None)
}

/// What a seed with `count` rows says of the answer `r` to its step `i`, by what it says of
/// a failure to select the journal mode, to create the table, to prepare the insert and to
/// insert a row.
pub open spec fn seed_says(
    count: nat,
    i: int,
    r: ReplyView,
    journal: Seq<char>,
    create: Seq<char>,
    insert: Seq<char>,
    row: Seq<char>,
) -> Option<Seq<char>> {
    if i == 0 {
        unless(
            r.error() is None,
            "tempfile"@,
            unless(r matches ReplyView::File(Some(_)), "utf8 path"@, None),
        )
    } else if i == 1 {
        success_says(r, "open file-backed db"@)
    } else if i == 2 {
        success_says(r, journal)
    } else if i == 3 {
        success_says(r, "sync"@)
    } else if i == 5 {
        success_says(r, create)
    } else if i == 6 {
        success_says(r, "begin seed"@)
    } else if i == 7 {
        success_says(r, insert)
    } else if 8 <= i < 8 + count {
        success_says(r, row)
    } else if i == 9 + count {
        success_says(r, "commit seed"@)
    } else {
        None
    }
}

/// What the seeds say of each answer, alone or with more behind them.
pub proof fn law_seeds_say(
    journal_mode: Seq<char>,
    count: nat,
    rest: Seq<StepView>,
    i: int,
    r: ReplyView,
    c: Captured,
)
    requires
        0 <= i < seed_len(count),
    ensures
        complaint_of((seed_steps(wal_seed(), count) + rest)[i], r, c) == seed_says(
            count,
            i,
            r,
            "wal"@,
            "create"@,
            "prepare insert"@,
            "seed row"@,
        ),
        complaint_of((seed_steps(point_seed(journal_mode), count) + rest)[i], r, c) == seed_says(
            count,
            i,
            r,
            "journal mode"@,
            "create point table"@,
            "prepare seed insert"@,
            "seed point row"@,
        ),
{
    lemma_seed_says(wal_seed(), count, rest, i, r, c);
    lemma_seed_says(point_seed(journal_mode), count, rest, i, r, c);
}

/// What a seed says of each answer.
proof fn lemma_seed_says(
    seed: SeedView,
    count: nat,
    rest: Seq<StepView>,
    i: int,
    r: ReplyView,
    c: Captured,
)
    requires
        0 <= i < seed_len(count),
    ensures
        complaint_of((seed_steps(seed, count) + rest)[i], r, c) == seed_says(
            count,
            i,
            r,
            seed.journal_message,
            seed.create_message,
            seed.insert_message,
            seed.row_message,
        ),
{
    broadcast use group_says;

    let steps = seed_steps(seed, count) + rest;
    if i < 8 {
        assert(steps[i] == seed_head(seed)[i]);
    } else if i < 8 + count {
        assert(steps[i] == seed_rows(seed, count)[i - 8]);
    } else {
        assert(steps[i] == seed_tail()[i - 8 - count]);
    }
}

/// Whether a point query found a row.
pub open spec fn has_row(r: ReplyView) -> bool {
    r matches ReplyView::Point(Some(_))
}

/// What is said of a lookup that must find the row with the key `id`.
pub open spec fn lookup_says(
    r: ReplyView,
    id: i64,
    failed: Seq<char>,
    missing: Seq<char>,
    wrong: Seq<char>,
) -> Option<Seq<char>> {
    unless(
        r.error() is None,
        failed,
        unless(
            has_row(r),
            missing,
            unless(found(r, 0, ValueView::Integer(id)), wrong, None),
        ),
    )
}

/// What the scenario of the point-query interface says of each answer behind the seed.
pub proof fn law_api_says(r: ReplyView, c: Captured)
    ensures
        complaint_of(api_steps()[74], r, c) == unless(
            r.error() is None,
            "prepare projected integer-PK point query"@,
            unless(r == ReplyView::Eligible(true), "integer-PK plan must be eligible"@, None),
        ),
        complaint_of(api_steps()[75], r, c) == unless(
            r matches ReplyView::Columns { count, .. } && count == 2,
            "the query has two columns"@,
            unless(
                r matches ReplyView::Columns { names, .. } && names == seq![
                    "id"@,
                    "display_name"@,
                ],
                "the columns have their names"@,
                None,
            ),
        ),
        complaint_of(api_steps()[76], r, c) == lookup_says(
            r,
            17,
            "execute PK point query"@,
            "PK row"@,
            "the row is the one with the key"@,
        ),
        complaint_of(api_steps()[77], r, c) == unless(
            r.error() is None,
            "exact no-row result"@,
            unless(r == ReplyView::Point(None), "a missing key has no row"@, None),
        ),
        complaint_of(api_steps()[78], r, c) == unless(
            r.error() is None,
            "prepare UNIQUE-index point query"@,
            unless(r == ReplyView::Eligible(true), "UNIQUE-index plan must be eligible"@, None),
        ),
        complaint_of(api_steps()[79], r, c) == lookup_says(
            r,
            9,
            "execute UNIQUE-index point query"@,
            "unique row"@,
            "the row is the one with the address"@,
        ),
        complaint_of(api_steps()[80], r, c) == unless(
            r.error() is None,
            "ordinary non-point preparation is not an error"@,
            unless(
                r == ReplyView::Eligible(false),
                "a non-unique predicate must not enter the point-query API"@,
                None,
            ),
        ),
        complaint_of(api_steps()[81], r, c) == success_says(r, "schema generation change"@),
        complaint_of(api_steps()[82], r, c) == lookup_says(
            r,
            23,
            "point handle reparses after DDL"@,
            "row after reprepare"@,
            "the row is the one with the key"@,
        ),
        complaint_of(api_steps()[83], r, c) == unless(
            r matches ReplyView::Columns { names, .. } && names == seq!["id"@, "display_name"@],
            "the columns have their names"@,
            None,
        ),
{
    broadcast use group_says;

    let body = api_body();
    assert(api_steps()[74] == body[0]);
    assert(api_steps()[75] == body[1]);
    assert(api_steps()[76] == body[2]);
    assert(api_steps()[77] == body[3]);
    assert(api_steps()[78] == body[4]);
    assert(api_steps()[79] == body[5]);
    assert(api_steps()[80] == body[6]);
    assert(api_steps()[81] == body[7]);
    assert(api_steps()[82] == body[8]);
    assert(api_steps()[83] == body[9]);
}

/// What the scenario of exact visibility says of each answer behind the seed.
pub proof fn law_exact_says(journal_mode: Seq<char>, r: ReplyView, c: Captured)
    ensures
        complaint_of(exact_steps(journal_mode)[100_010], r, c) == unless(
            r.error() is None,
            "prepare exact 100k point query"@,
            unless(r == ReplyView::Eligible(true), "100k integer-PK plan must be eligible"@, None),
        ),
        complaint_of(exact_steps(journal_mode)[100_011], r, c) == exact_lookup_says(r, 0),
        complaint_of(exact_steps(journal_mode)[100_012], r, c) == exact_lookup_says(r, 50_000),
        complaint_of(exact_steps(journal_mode)[100_013], r, c) == exact_lookup_says(r, 99_999),
        complaint_of(exact_steps(journal_mode)[100_014], r, c) == unless(
            r.error() is None,
            "100k no-row lookup"@,
            unless(r == ReplyView::Point(None), "a missing key has no row"@, None),
        ),
        complaint_of(exact_steps(journal_mode)[100_015], r, c) == success_says(
            r,
            "open exact-workload writer"@,
        ),
        complaint_of(exact_steps(journal_mode)[100_016], r, c) == success_says(
            r,
            "writer journal mode"@,
        ),
        complaint_of(exact_steps(journal_mode)[100_017], r, c) == success_says(
            r,
            "external exact-workload update"@,
        ),
        complaint_of(exact_steps(journal_mode)[100_018], r, c) is None,
        complaint_of(exact_steps(journal_mode)[100_019], r, c) == unless(
            r.error() is None,
            "external commit visibility"@,
            unless(
                has_row(r),
                "externally updated row"@,
                unless(
                    found(r, 1, ValueView::Text("external_100k"@)),
                    "the next point-query boundary must not return stale data in "@ + journal_mode
                        + " mode"@,
                    None,
                ),
            ),
        ),
{
    broadcast use group_says;

    let steps = exact_steps(journal_mode);
    let body = exact_body(journal_mode);
    assert(steps[100_010] == body[0]);
    assert(steps[100_011] == body[1]);
    assert(steps[100_012] == body[2]);
    assert(steps[100_013] == body[3]);
    assert(steps[100_014] == body[4]);
    assert(steps[100_015] == body[5]);
    assert(steps[100_016] == body[6]);
    assert(steps[100_017] == body[7]);
    assert(steps[100_018] == body[8]);
    assert(steps[100_019] == body[9]);
}

/// What is said of the lookup of a row that was seeded.
pub open spec fn exact_lookup_says(r: ReplyView, id: i64) -> Option<Seq<char>> {
    lookup_says(
        r,
        id,
        "100k point lookup"@,
        "seeded point row"@,
        "the row is the one with the key"@,
    )
}

/// Whether a query returned so many rows.
pub open spec fn row_count_is(r: ReplyView, n: nat) -> bool {
    match r {
        ReplyView::Rows(rows) => rows.len() == n,
        ReplyView::Streamed { rows, .. } => rows.len() == n,
        _ => false,
    }
}

/// Whether the first row of a query holds `value` in column `column`.
pub open spec fn first_cell_is(r: ReplyView, column: nat, value: ValueView) -> bool {
    match r {
        ReplyView::Rows(rows) => rows.len() > 0 && cell_is(rows[0], column, value),
        ReplyView::Point(Some(row)) => cell_is(row, column, value),
        _ => false,
    }
}

/// Whether every row of a query holds `value` in column `column`.
pub open spec fn every_cell_is(r: ReplyView, column: nat, value: ValueView) -> bool {
    match r {
        ReplyView::Rows(rows) => forall|i: int|
            0 <= i < rows.len() ==> cell_is(#[trigger] rows[i], column, value),
        ReplyView::Streamed { rows, .. } => forall|i: int|
            0 <= i < rows.len() ==> cell_is(#[trigger] rows[i], column, value),
        _ => false,
    }
}

/// What is said of a query that must return one row.
pub open spec fn one_row_says(
    r: ReplyView,
    failed: Seq<char>,
    count: Seq<char>,
    rest: Option<Seq<char>>,
) -> Option<Seq<char>> {
    unless(r.error() is None, failed, unless(row_count_is(r, 1), count, rest))
}

/// What is said unless the rows are loaded.
pub open spec fn loaded_says(
    r: ReplyView,
    message: Seq<char>,
    rest: Option<Seq<char>>,
) -> Option<Seq<char>> {
    unless(r == ReplyView::Loaded(true), message, rest)
}

/// Whether so many full reloads were counted.
pub open spec fn reloads_are(c: Captured, n: u64) -> bool {
    c.at(Register::Profile) matches Some(Observation::Profile(p)) && p.memdb_refresh_count == n
}

/// Whether at least so many executions on the fast path were counted.
pub open spec fn fast_path_at_least(c: Captured, n: u64) -> bool {
    c.at(Register::Profile) matches Some(Observation::Profile(p)) && p.parser.fast_path_executions
        >= n
}

/// A message that shows what the profile counted.
pub open spec fn with_counters(message: Seq<char>, c: Captured) -> Seq<char> {
    match c.at(Register::Profile) {
        Some(Observation::Profile(p)) => message + (": "@ + p.shown()),
        _ => message,
    }
}

/// A message that shows the generations and the numbers of publications.
pub open spec fn with_publications(message: Seq<char>, c: Captured) -> Seq<char> {
    match (
        c.at(Register::PublicationBefore),
        c.at(Register::PublicationAfter),
        c.at(Register::WritesBefore),
        c.at(Register::WritesAfter),
    ) {
        (
            Some(Observation::Publication(a)),
            Some(Observation::Publication(b)),
            Some(Observation::Count(m)),
            Some(Observation::Count(n)),
        ) => message + (" (before="@ + decimal_text(a.snapshot_gen as nat) + ", after="@
            + decimal_text(b.snapshot_gen as nat) + ", pub_writes "@ + decimal_text(m as nat)
            + "→"@ + decimal_text(n as nat) + ")"@),
        _ => message,
    }
}

/// Whether step `i` asks for `request` and keeps the answer in `register`.
pub open spec fn keeps(
    steps: Seq<StepView>,
    i: int,
    request: RequestView,
    register: Register,
) -> bool {
    steps[i].request == request && steps[i].capture == Some(register)
}

/// What the scenario of the warmed lookups keeps of the answers behind the seed, and what
/// it says of each.
pub proof fn law_warm_says(i: int, r: ReplyView, c: Captured)
    requires
        0 <= i < 12,
    ensures
        complaint_of(warm_steps()[2_010], r, c) == success_says(r, "prepare point query"@),
        complaint_of(warm_steps()[2_011], r, c) == one_row_says(
            r,
            "warm query"@,
            "a lookup by primary key yields one row"@,
            None,
        ),
        complaint_of(warm_steps()[2_012], r, c) == loaded_says(
            r,
            "warm prepared point query should hydrate the clean file-backed MemDB image"@,
            None,
        ),
        keeps(warm_steps(), 2_013, RequestView::ReadPublication, Register::PublicationBefore),
        complaint_of(warm_steps()[2_013], r, c) is None,
        keeps(warm_steps(), 2_014, RequestView::ReadPublicationWrites, Register::WritesBefore),
        complaint_of(warm_steps()[2_014], r, c) is None,
        keeps(warm_steps(), 2_015, RequestView::ReadMemdbSequence, Register::SequenceBefore),
        complaint_of(warm_steps()[2_015], r, c) is None,
        complaint_of(warm_steps()[2_016], r, c) is None,
        complaint_of(warm_steps()[2_017 + 2 * i], r, c) == one_row_says(
            r,
            "hot query "@ + decimal_text(i as nat),
            "a lookup by primary key yields one row"@,
            unless(
                first_cell_is(r, 0, ValueView::Integer(1_000)),
                "hot query "@ + decimal_text(i as nat) + " must return the seeded primary key"@,
                None,
            ),
        ),
        complaint_of(warm_steps()[2_018 + 2 * i], r, c) == unless(
            every_cell_is(r, 0, ValueView::Integer(1_000)),
            "every row is the one with the key"@,
            one_row_says(
                r,
                "hot for_each "@ + decimal_text(i as nat),
                "for_each "@ + decimal_text(i as nat) + " must yield one row"@,
                None,
            ),
        ),
        keeps(warm_steps(), 2_041, RequestView::ReadProfile, Register::Profile),
        complaint_of(warm_steps()[2_041], r, c) is None,
        keeps(warm_steps(), 2_042, RequestView::ReadPublication, Register::PublicationAfter),
        complaint_of(warm_steps()[2_042], r, c) is None,
        keeps(warm_steps(), 2_043, RequestView::ReadPublicationWrites, Register::WritesAfter),
        complaint_of(warm_steps()[2_043], r, c) is None,
        keeps(warm_steps(), 2_044, RequestView::ReadMemdbSequence, Register::SequenceAfter),
        complaint_of(warm_steps()[2_044], r, c) == unless(
            reloads_are(c, 0),
            with_counters("warm prepared point queries must not full-reload MemDB"@, c),
            None,
        ),
        complaint_of(warm_steps()[2_045], r, c) == loaded_says(
            r,
            "MemDB rows must stay loaded across warm prepared point queries"@,
            unless(
                same_count(c.at(Register::SequenceBefore), c.at(Register::SequenceAfter)),
                "memdb_visible_commit_seq must stay stable on unchanged prepared reads"@,
                unless(
                    same_visible_commit(
                        c.at(Register::PublicationBefore),
                        c.at(Register::PublicationAfter),
                    ),
                    "published visible_commit_seq must stay stable on unchanged prepared reads"@,
                    unless(
                        same_generation(
                            c.at(Register::PublicationBefore),
                            c.at(Register::PublicationAfter),
                        ),
                        with_publications(
                            "unchanged durable identity must not republish / advance snapshot_gen on prepared reads"@,
                            c,
                        ),
                        unless(
                            same_count(c.at(Register::WritesBefore), c.at(Register::WritesAfter)),
                            "unchanged durable identity must not increment publication_write_count on prepared reads"@,
                            unless(
                                fast_path_at_least(c, 12),
                                with_counters(
                                    "point queries should stay on the prepared fast path"@,
                                    c,
                                ),
                                None,
                            ),
                        ),
                    ),
                ),
            ),
        ),
{
    broadcast use group_says;

    let steps = warm_steps();
    let head = warm_head();
    let rounds = hot_rounds(12);
    let tail = warm_tail();
    assert(steps[2_010] == head[0]);
    assert(steps[2_011] == head[1]);
    assert(steps[2_012] == head[2]);
    assert(steps[2_013] == head[3]);
    assert(steps[2_014] == head[4]);
    assert(steps[2_015] == head[5]);
    assert(steps[2_016] == head[6]);
    assert(steps[2_017 + 2 * i] == rounds[2 * i]);
    assert(steps[2_018 + 2 * i] == rounds[2 * i + 1]);
    assert((2 * i) % 2 == 0 && (2 * i + 1) % 2 == 1 && (2 * i) / 2 == i && (2 * i + 1) / 2 == i);
    assert(steps[2_041] == tail[0]);
    assert(steps[2_042] == tail[1]);
    assert(steps[2_043] == tail[2]);
    assert(steps[2_044] == tail[3]);
    assert(steps[2_045] == tail[4]);
    lemma_details(c);
}

/// What a check shows behind its message.
proof fn lemma_details(c: Captured)
    ensures
        forall|message: Seq<char>| #[trigger]
            with_counters(message, c) == message + Detail::Counters.shown(c),
        forall|message: Seq<char>| #[trigger]
            with_publications(message, c) == message + Detail::Publications.shown(c),
{
    assert forall|message: Seq<char>| #[trigger]
        with_counters(message, c) == message + Detail::Counters.shown(c) by {
        assert(message + Seq::<char>::empty() =~= message);
    }
    assert forall|message: Seq<char>| #[trigger]
        with_publications(message, c) == message + Detail::Publications.shown(c) by {
        assert(message + Seq::<char>::empty() =~= message);
    }
}

/// What the scenario of the external commit keeps of the answers behind the seed, and what
/// it says of each.
pub proof fn law_external_says(i: int, r: ReplyView, c: Captured)
    requires
        1_025 <= i < 1_033,
    ensures
        complaint_of(external_steps()[1_010], r, c) == success_says(r, "prepare point query"@),
        complaint_of(external_steps()[1_011], r, c) == one_row_says(
            r,
            "warm existing row"@,
            "a lookup by primary key yields one row"@,
            None,
        ),
        complaint_of(external_steps()[1_012], r, c) == loaded_says(
            r,
            "a warm lookup loads the rows"@,
            None,
        ),
        complaint_of(external_steps()[1_013], r, c) == success_says(r, "open writer"@),
        complaint_of(external_steps()[1_014], r, c) is None,
        complaint_of(external_steps()[1_015], r, c) == success_says(r, "writer begin"@),
        complaint_of(external_steps()[1_016], r, c) == success_says(r, "external insert"@),
        complaint_of(external_steps()[1_017], r, c) == success_says(r, "writer commit"@),
        complaint_of(external_steps()[1_018], r, c) is None,
        complaint_of(external_steps()[1_019], r, c) is None,
        complaint_of(external_steps()[1_020], r, c) == one_row_says(
            r,
            "reader must observe external commit on next prepared statement"@,
            "external insert must be visible"@,
            unless(
                first_cell_is(r, 0, ValueView::Integer(999_001)),
                "the row is the one with the key"@,
                unless(
                    first_cell_is(r, 1, ValueView::Text("external"@)),
                    "the row has the name that was inserted"@,
                    None,
                ),
            ),
        ),
        keeps(external_steps(), 1_021, RequestView::ReadProfile, Register::Profile),
        complaint_of(external_steps()[1_021], r, c) == unless(
            reloads_are(c, 1),
            with_counters(
                "exactly one MemDB refresh is required to observe the external commit"@,
                c,
            ),
            None,
        ),
        complaint_of(external_steps()[1_022], r, c) == loaded_says(
            r,
            "MemDB must remain hydrated after the external-commit refresh"@,
            None,
        ),
        complaint_of(external_steps()[1_023], r, c) is None,
        keeps(external_steps(), 1_024, RequestView::ReadPublication, Register::PublicationBefore),
        complaint_of(external_steps()[1_024], r, c) is None,
        complaint_of(external_steps()[i], r, c) == one_row_says(
            r,
            "post-refresh point query"@,
            "a lookup by primary key yields one row"@,
            None,
        ),
        keeps(external_steps(), 1_033, RequestView::ReadProfile, Register::Profile),
        complaint_of(external_steps()[1_033], r, c) is None,
        keeps(external_steps(), 1_034, RequestView::ReadPublication, Register::PublicationAfter),
        complaint_of(external_steps()[1_034], r, c) == unless(
            reloads_are(c, 0),
            with_counters(
                "after absorbing the external commit, warm prepared reads must not reload"@,
                c,
            ),
            unless(
                same_generation(
                    c.at(Register::PublicationBefore),
                    c.at(Register::PublicationAfter),
                ),
                "post-refresh steady-state prepared reads must not no-op republish"@,
                None,
            ),
        ),
{
    broadcast use group_says;

    let steps = external_steps();
    let head = external_head();
    let tail = external_tail();
    assert forall|k: int| 1_010 <= k < 1_025 implies #[trigger] steps[k] == head[k - 1_010] by {}
    assert(steps[i] == steady_rounds(8)[i - 1_025]);
    assert(steps[1_033] == tail[0]);
    assert(steps[1_034] == tail[1]);
    lemma_details(c);
}

/// What the scenario of the idle probes keeps of the answers behind the seed, and what it
/// says of each.
pub proof fn law_idle_says(i: int, r: ReplyView, c: Captured)
    requires
        269 <= i < 274,
    ensures
        complaint_of(idle_steps()[266], r, c) == success_says(r, "initial refresh"@),
        keeps(idle_steps(), 267, RequestView::ReadPublication, Register::PublicationBefore),
        complaint_of(idle_steps()[267], r, c) is None,
        keeps(idle_steps(), 268, RequestView::ReadPublicationWrites, Register::WritesBefore),
        complaint_of(idle_steps()[268], r, c) is None,
        keeps(idle_steps(), i, RequestView::RefreshCleanWal, Register::PublicationAfter),
        complaint_of(idle_steps()[i], r, c) == unless(
            r.error() is None,
            "idle clean wal refresh"@,
            unless(
                same_visible_commit(
                    c.at(Register::PublicationBefore),
                    c.at(Register::PublicationAfter),
                ),
                "idle probe must not invent a new visible commit seq"@,
                unless(
                    same_generation(
                        c.at(Register::PublicationBefore),
                        c.at(Register::PublicationAfter),
                    ),
                    "idle clean-WAL probe must not republish when durable identity is unchanged"@,
                    None,
                ),
            ),
        ),
        keeps(idle_steps(), 274, RequestView::ReadPublicationWrites, Register::WritesAfter),
        complaint_of(idle_steps()[274], r, c) == unless(
            same_count(c.at(Register::WritesBefore), c.at(Register::WritesAfter)),
            "idle clean-WAL probes must not increment publication_write_count"@,
            None,
        ),
{
    broadcast use group_says;

    let steps = idle_steps();
    let head = idle_head();
    assert(steps[266] == head[0]);
    assert(steps[267] == head[1]);
    assert(steps[268] == head[2]);
    assert(steps[i] == idle_probes(5)[i - 269]);
    assert(steps[274] == idle_tail()[0]);
}

} // verus!
