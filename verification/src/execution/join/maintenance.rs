//! What a Join maintains: whatever pages its fanout takes, the rows that an
//! event emits are the difference between the output after it and before it.

use vstd::prelude::*;

use crate::execution::join::planner::{
    self, CandidateProbe, CandidateStateChange, ClassifiedModel, InputEventFacts, InputProgress,
    InputSide, JoinContinuation, JoinMode, MatchCounts, OutputAction, OutputActionKind,
    OwnStateProbe, ProbeScan,
};
use crate::planner::WorkBudget;

verus! {

/// How often an arrangement row is an output row on its own.
pub open spec fn standing(
    mode: JoinMode,
    side: InputSide,
    multiplicity: int,
    counts: MatchCounts,
) -> int {
    if planner::side_is_output(mode, side) && planner::eligible(mode, counts) {
        multiplicity
    } else {
        0
    }
}

/// How often a row that stands `own` times is output together with a
/// candidate.
pub open spec fn paired(mode: JoinMode, own: int, candidate: CandidateProbe) -> int {
    if candidate.truth is True && planner::emits_pairs(mode) {
        own * candidate.multiplicity
    } else {
        0
    }
}

/// The summed weight of the actions of one kind.
pub open spec fn weight_of(actions: Seq<OutputAction>, kind: OutputActionKind) -> int
    decreases actions.len(),
{
    if actions.len() == 0 {
        0
    } else {
        weight_of(actions.drop_last(), kind) + if actions.last().kind == kind {
            actions.last().weight as int
        } else {
            0
        }
    }
}

proof fn weights_add_up(left: Seq<OutputAction>, right: Seq<OutputAction>, kind: OutputActionKind)
    ensures
        weight_of(left + right, kind) == weight_of(left, kind) + weight_of(right, kind),
    decreases right.len(),
{
    if right.len() == 0 {
        assert(left + right =~= left);
    } else {
        weights_add_up(left, right.drop_last(), kind);
        assert((left + right).drop_last() =~= left + right.drop_last());
        assert((left + right).last() == right.last());
    }
}

proof fn weight_of_one(action: Option<OutputAction>, kind: OutputActionKind)
    ensures
        weight_of(planner::option_seq(action), kind) == (match action {
            Some(action) => if action.kind == kind {
                action.weight as int
            } else {
                0
            },
            None => 0,
        }),
{
    if let Some(action) = action {
        let list = seq![action];
        assert(list.drop_last() =~= Seq::empty());
        assert(weight_of(list.drop_last(), kind) == 0);
    }
}

/// One candidate emits the difference that the event makes to it: its pairs
/// with the row of the event, however often that row stood before, and its own
/// appearance among the output rows.
pub proof fn candidate_output_is_maintained(
    mode: JoinMode,
    side: InputSide,
    event_weight: i64,
    candidate: CandidateProbe,
    own: int,
)
    requires
        planner::classified(mode, side, event_weight, candidate) is Ok,
    ensures
        ({
            let found = planner::classified(mode, side, event_weight, candidate)->Ok_0;
            let multiplicity = candidate.multiplicity as int;
            &&& weight_of(found.actions, OutputActionKind::Pair) == paired(
                mode,
                own + event_weight,
                candidate,
            ) - paired(mode, own, candidate)
            &&& weight_of(found.actions, OutputActionKind::CandidateEligibility) == standing(
                mode,
                side.other(),
                multiplicity,
                found.expected.new_counts,
            ) - standing(mode, side.other(), multiplicity, candidate.old_counts)
            &&& weight_of(found.actions, OutputActionKind::CurrentEligibility) == 0
        }),
{
    let found = planner::classified(mode, side, event_weight, candidate)->Ok_0;
    let pair = planner::pair_action(mode, side, event_weight, candidate)->Ok_0;
    let transition = planner::transition_action(
        mode,
        side,
        candidate,
        found.expected.new_counts,
    )->Ok_0;
    assert(found.actions == planner::option_seq(pair) + planner::option_seq(transition));
    assert forall|kind: OutputActionKind| #[trigger]
        weight_of(found.actions, kind) == weight_of(planner::option_seq(pair), kind) + weight_of(
            planner::option_seq(transition),
            kind,
        ) by {
        weights_add_up(planner::option_seq(pair), planner::option_seq(transition), kind);
    }
    assert forall|kind: OutputActionKind, action: Option<OutputAction>| #[trigger]
        weight_of(planner::option_seq(action), kind) == (match action {
            Some(action) => if action.kind == kind {
                action.weight as int
            } else {
                0
            },
            None => 0,
        }) by {
        weight_of_one(action, kind);
    }
    assert((own + event_weight) * candidate.multiplicity == own * candidate.multiplicity
        + event_weight * candidate.multiplicity) by (nonlinear_arith);
}

/// What a candidate of a fanout contributes.
pub open spec fn found(
    mode: JoinMode,
    start: InputProgress,
    candidate: CandidateProbe,
) -> ClassifiedModel {
    planner::classified(mode, start.side, start.event_weight, candidate)->Ok_0
}

/// Whether every candidate of a fanout can be joined.
pub open spec fn joinable(
    mode: JoinMode,
    start: InputProgress,
    candidates: Seq<CandidateProbe>,
) -> bool {
    forall|index: int|
        0 <= index < candidates.len() ==> planner::classified(
            mode,
            start.side,
            start.event_weight,
            #[trigger] candidates[index],
        ) is Ok
}

/// The actions that a list of candidates owes.
pub open spec fn owed(
    mode: JoinMode,
    start: InputProgress,
    candidates: Seq<CandidateProbe>,
) -> Seq<OutputAction>
    decreases candidates.len(),
{
    if candidates.len() == 0 {
        Seq::empty()
    } else {
        owed(mode, start, candidates.drop_last()) + found(mode, start, candidates.last()).actions
    }
}

/// The candidates of a list whose counts change.
pub open spec fn changed(
    mode: JoinMode,
    start: InputProgress,
    candidates: Seq<CandidateProbe>,
) -> Seq<CandidateStateChange>
    decreases candidates.len(),
{
    if candidates.len() == 0 {
        Seq::empty()
    } else {
        let before = changed(mode, start, candidates.drop_last());
        let expected = found(mode, start, candidates.last()).expected;
        if expected.old_counts != expected.new_counts {
            before.push(CandidateStateChange { expected })
        } else {
            before
        }
    }
}

/// The progress of an event behind a list of candidates.
pub open spec fn reached(
    mode: JoinMode,
    start: InputProgress,
    candidates: Seq<CandidateProbe>,
) -> Result<InputProgress, Seq<char>>
    decreases candidates.len(),
{
    if candidates.len() == 0 {
        Ok(start)
    } else {
        match reached(mode, start, candidates.drop_last()) {
            Err(message) => Err(message),
            Ok(progress) => progress.completed(
                mode,
                found(mode, start, candidates.last()).expected,
            ),
        }
    }
}

/// The summed pairs of a row that stands `own` times.
pub open spec fn paired_rows(mode: JoinMode, own: int, candidates: Seq<CandidateProbe>) -> int
    decreases candidates.len(),
{
    if candidates.len() == 0 {
        0
    } else {
        paired_rows(mode, own, candidates.drop_last()) + paired(mode, own, candidates.last())
    }
}

/// The candidates that are output rows on their own before an event.
pub open spec fn standing_before(
    mode: JoinMode,
    start: InputProgress,
    candidates: Seq<CandidateProbe>,
) -> int
    decreases candidates.len(),
{
    if candidates.len() == 0 {
        0
    } else {
        standing_before(mode, start, candidates.drop_last()) + standing(
            mode,
            start.side.other(),
            candidates.last().multiplicity as int,
            candidates.last().old_counts,
        )
    }
}

/// The candidates that are output rows on their own after an event.
pub open spec fn standing_after(
    mode: JoinMode,
    start: InputProgress,
    candidates: Seq<CandidateProbe>,
) -> int
    decreases candidates.len(),
{
    if candidates.len() == 0 {
        0
    } else {
        standing_after(mode, start, candidates.drop_last()) + standing(
            mode,
            start.side.other(),
            candidates.last().multiplicity as int,
            found(mode, start, candidates.last()).expected.new_counts,
        )
    }
}

/// A whole fanout emits the difference that the event makes to the output:
/// among the pairs of its row, however often the row stood before, and among
/// the opposite rows that are output on their own.
pub proof fn fanout_output_is_maintained(
    mode: JoinMode,
    start: InputProgress,
    candidates: Seq<CandidateProbe>,
    own: int,
)
    requires
        joinable(mode, start, candidates),
    ensures
        weight_of(owed(mode, start, candidates), OutputActionKind::Pair) == paired_rows(
            mode,
            own + start.event_weight,
            candidates,
        ) - paired_rows(mode, own, candidates),
        weight_of(owed(mode, start, candidates), OutputActionKind::CandidateEligibility)
            == standing_after(mode, start, candidates) - standing_before(mode, start, candidates),
        weight_of(owed(mode, start, candidates), OutputActionKind::CurrentEligibility) == 0,
    decreases candidates.len(),
{
    if candidates.len() > 0 {
        let shorter = candidates.drop_last();
        let last = candidates.last();
        assert(candidates[candidates.len() - 1] == last);
        assert forall|index: int| 0 <= index < shorter.len() implies planner::classified(
            mode,
            start.side,
            start.event_weight,
            #[trigger] shorter[index],
        ) is Ok by {
            assert(shorter[index] == candidates[index]);
        }
        fanout_output_is_maintained(mode, start, shorter, own);
        candidate_output_is_maintained(mode, start.side, start.event_weight, last, own);
        let before = owed(mode, start, shorter);
        let actions = found(mode, start, last).actions;
        weights_add_up(before, actions, OutputActionKind::Pair);
        weights_add_up(before, actions, OutputActionKind::CandidateEligibility);
        weights_add_up(before, actions, OutputActionKind::CurrentEligibility);
    }
}

/// The summed multiplicity of the candidates that match, and of those that may.
pub open spec fn matches_of(mode: JoinMode, candidates: Seq<CandidateProbe>) -> (int, int)
    decreases candidates.len(),
{
    if candidates.len() == 0 {
        (0, 0)
    } else {
        let (matched, unknown) = matches_of(mode, candidates.drop_last());
        let last = candidates.last();
        if last.truth is True {
            (matched + last.multiplicity, unknown)
        } else if last.truth is Unknown && mode is NullAwareAnti {
            (matched, unknown + last.multiplicity)
        } else {
            (matched, unknown)
        }
    }
}

/// The counts that a fanout leaves for the row of its event are those of the
/// opposite rows that match it, on top of where it started.
pub proof fn fanout_counts_its_matches(
    mode: JoinMode,
    start: InputProgress,
    candidates: Seq<CandidateProbe>,
)
    requires
        joinable(mode, start, candidates),
        reached(mode, start, candidates) is Ok,
    ensures
        ({
            let counts = reached(mode, start, candidates)->Ok_0.opposite_counts;
            let (matched, unknown) = matches_of(mode, candidates);
            &&& counts.matched == start.opposite_counts.matched + matched
            &&& counts.unknown == start.opposite_counts.unknown + unknown
        }),
    decreases candidates.len(),
{
    if candidates.len() > 0 {
        let shorter = candidates.drop_last();
        assert(candidates[candidates.len() - 1] == candidates.last());
        assert forall|index: int| 0 <= index < shorter.len() implies planner::classified(
            mode,
            start.side,
            start.event_weight,
            #[trigger] shorter[index],
        ) is Ok by {
            assert(shorter[index] == candidates[index]);
        }
        fanout_counts_its_matches(mode, start, shorter);
    }
}

/// The row of a finished event emits the difference that the event makes to
/// it, now that its matches are known.
pub proof fn own_output_is_maintained(
    mode: JoinMode,
    continuation: JoinContinuation,
    event: InputEventFacts,
    own: OwnStateProbe,
    budget: WorkBudget,
)
    requires
        planner::finalized(mode, continuation, event, own, budget) is Ok,
    ensures
        ({
            let plan = planner::finalized(mode, continuation, event, own, budget)->Ok_0;
            weight_of(
                planner::option_seq(plan.output),
                OutputActionKind::CurrentEligibility,
            ) == standing(
                mode,
                event.side,
                plan.own_change.new_multiplicity as int,
                plan.own_change.counts,
            ) - standing(
                mode,
                event.side,
                plan.own_change.expected_multiplicity as int,
                own.expected().counts,
            )
        }),
{
    let plan = planner::finalized(mode, continuation, event, own, budget)->Ok_0;
    weight_of_one(plan.output, OutputActionKind::CurrentEligibility);
}

/// What a fanout has emitted once it is done with some candidates and, where
/// it split the next one, with the pair of that.
pub open spec fn emitted(
    mode: JoinMode,
    start: InputProgress,
    candidates: Seq<CandidateProbe>,
    done: int,
    split: bool,
) -> Seq<OutputAction> {
    owed(mode, start, candidates.take(done)) + if split {
        seq![found(mode, start, candidates[done]).actions[0]]
    } else {
        Seq::empty()
    }
}

/// A continuation stands behind some candidates of a fanout, and inside the
/// next one where it split that.
pub open spec fn stands_at(
    mode: JoinMode,
    start: InputProgress,
    candidates: Seq<CandidateProbe>,
    continuation: JoinContinuation,
    done: int,
    split: bool,
) -> bool {
    &&& 0 <= done <= candidates.len()
    &&& reached(mode, start, candidates.take(done)) is Ok
    &&& continuation.progress_of() == Some(reached(mode, start, candidates.take(done))->Ok_0)
    &&& split <==> continuation is PendingTransition
    &&& continuation matches JoinContinuation::PendingTransition { candidate, .. } ==> {
        &&& done < candidates.len()
        &&& planner::classified(mode, start.side, start.event_weight, candidates[done]) is Ok
        &&& found(mode, start, candidates[done]).splits()
        &&& found(mode, start, candidates[done]).expected == candidate
    }
}

proof fn reached_keeps_the_event(
    mode: JoinMode,
    start: InputProgress,
    candidates: Seq<CandidateProbe>,
)
    requires
        reached(mode, start, candidates) is Ok,
    ensures
        reached(mode, start, candidates)->Ok_0.side == start.side,
        reached(mode, start, candidates)->Ok_0.event_weight == start.event_weight,
    decreases candidates.len(),
{
    if candidates.len() > 0 {
        reached_keeps_the_event(mode, start, candidates.drop_last());
    }
}

/// What a scan over a page leaves behind: how many candidates of the fanout
/// are done, and whether the next one is split.
pub open spec fn scan_follows(
    mode: JoinMode,
    start: InputProgress,
    candidates: Seq<CandidateProbe>,
    done: int,
    split: bool,
    until: int,
    scan: ProbeScan,
    reach: int,
) -> bool {
    &&& done <= reach <= until
    &&& scan.stopped ==> reach < until
    &&& !scan.stopped ==> reach == until && scan.pending is None
    &&& reached(mode, start, candidates.take(reach)) == Ok::<InputProgress, Seq<char>>(
        scan.progress,
    )
    &&& emitted(mode, start, candidates, done, split) + scan.actions == emitted(
        mode,
        start,
        candidates,
        reach,
        scan.pending is Some,
    )
    &&& changed(mode, start, candidates.take(done)) + scan.changes == changed(
        mode,
        start,
        candidates.take(reach),
    )
    &&& scan.pending matches Some(expected) ==> {
        &&& planner::classified(mode, start.side, start.event_weight, candidates[reach]) is Ok
        &&& found(mode, start, candidates[reach]).splits()
        &&& found(mode, start, candidates[reach]).expected == expected
    }
}

/// A scan that takes up one more candidate goes on in the fanout.
proof fn extended_scan_follows(
    mode: JoinMode,
    start: InputProgress,
    candidates: Seq<CandidateProbe>,
    done: int,
    split: bool,
    until: int,
    before: ProbeScan,
    budget: WorkBudget,
) -> (reach: int)
    requires
        0 <= done < until <= candidates.len(),
        reached(mode, start, candidates.take(until - 1)) == Ok::<InputProgress, Seq<char>>(
            before.progress,
        ),
        before.pending is None,
        ({
            let resumed = split && until == done + 1;
            let pending = if resumed {
                Some(found(mode, start, candidates[done]).expected)
            } else {
                None
            };
            &&& before.extended(mode, pending, candidates[until - 1], budget) is Ok
            &&& emitted(mode, start, candidates, done, split) + before.actions == emitted(
                mode,
                start,
                candidates,
                until - 1,
                resumed,
            )
        }),
        changed(mode, start, candidates.take(done)) + before.changes == changed(
            mode,
            start,
            candidates.take(until - 1),
        ),
    ensures
        ({
            let resumed = split && until == done + 1;
            let pending = if resumed {
                Some(found(mode, start, candidates[done]).expected)
            } else {
                None
            };
            let scan = before.extended(mode, pending, candidates[until - 1], budget)->Ok_0;
            &&& scan_follows(mode, start, candidates, done, split, until, scan, reach)
            &&& before.actions.len() == 0 && budget.max_output_rows > 0 ==> reach == until
                || scan.pending is Some && !resumed
        }),
{
    let resumed = split && until == done + 1;
    let expected = found(mode, start, candidates[done]).expected;
    let pending = if resumed {
        Some(expected)
    } else {
        None
    };
    let candidate = candidates[until - 1];
    let scan = before.extended(mode, pending, candidate, budget)->Ok_0;
    let taken = candidates.take(until - 1);
    reached_keeps_the_event(mode, start, taken);
    let model = found(mode, start, candidate);
    let first: int = if resumed {
        1
    } else {
        0
    };
    let open_actions = model.actions.skip(first);
    let rows = before.actions.len() as int;
    let bytes = planner::action_bytes(before.actions) as int;
    let count = planner::fitting(open_actions, rows, bytes, budget)->Ok_0;
    fitting_is_a_prefix(open_actions, rows, bytes, budget);
    two_actions_split(mode, start.side, start.event_weight, candidate);
    assert(candidates.take(until).drop_last() =~= taken);
    assert(candidates.take(until).last() == candidate);
    let base = emitted(mode, start, candidates, done, split);
    let before_all = emitted(mode, start, candidates, until - 1, resumed);
    assert(base + scan.actions =~= before_all + open_actions.take(count as int));
    if count < open_actions.len() {
        if resumed {
            assert(open_actions.take(0) =~= Seq::empty());
        } else if count == 0 {
            assert(open_actions.take(0) =~= Seq::empty());
        } else {
            assert(open_actions.take(1) =~= seq![model.actions[0]]);
        }
        assert(base + scan.actions =~= emitted(
            mode,
            start,
            candidates,
            until - 1,
            scan.pending is Some,
        ));
        until - 1
    } else {
        assert(open_actions.take(count as int) =~= open_actions);
        if resumed {
            assert(seq![model.actions[0]] + open_actions =~= model.actions);
        } else {
            assert(open_actions =~= model.actions);
        }
        assert(base + scan.actions =~= emitted(mode, start, candidates, until, false));
        assert(changed(mode, start, candidates.take(done)) + scan.changes =~= changed(
            mode,
            start,
            candidates.take(until),
        ));
        until
    }
}

proof fn fitting_is_a_prefix(
    actions: Seq<OutputAction>,
    rows: int,
    bytes: int,
    budget: WorkBudget,
)
    requires
        planner::fitting(actions, rows, bytes, budget) is Ok,
    ensures
        planner::fitting(actions, rows, bytes, budget)->Ok_0 <= actions.len(),
        rows == 0 && budget.max_output_rows > 0 && actions.len() > 0 ==> planner::fitting(
            actions,
            rows,
            bytes,
            budget,
        )->Ok_0 > 0,
    decreases actions.len(),
{
    if actions.len() > 0 && planner::fits_behind(rows, bytes, actions[0], budget) == Ok::<
        bool,
        Seq<char>,
    >(true) {
        fitting_is_a_prefix(actions.drop_first(), rows + 1, bytes + actions[0].row_bytes, budget);
    }
}

proof fn two_actions_split(
    mode: JoinMode,
    side: InputSide,
    event_weight: i64,
    candidate: CandidateProbe,
)
    requires
        planner::classified(mode, side, event_weight, candidate) is Ok,
    ensures
        ({
            let model = planner::classified(mode, side, event_weight, candidate)->Ok_0;
            &&& model.actions.len() <= 2
            &&& model.actions.len() == 2 ==> model.splits()
        }),
{
    let model = planner::classified(mode, side, event_weight, candidate)->Ok_0;
    let pair = planner::pair_action(mode, side, event_weight, candidate)->Ok_0;
    let transition = planner::transition_action(
        mode,
        side,
        candidate,
        model.expected.new_counts,
    )->Ok_0;
    assert(model.actions == planner::option_seq(pair) + planner::option_seq(transition));
}

proof fn page_scan_follows(
    mode: JoinMode,
    start: InputProgress,
    candidates: Seq<CandidateProbe>,
    done: int,
    split: bool,
    until: int,
    progress: InputProgress,
    budget: WorkBudget,
) -> (reach: int)
    requires
        0 <= done <= until <= candidates.len(),
        split ==> done < until,
        reached(mode, start, candidates.take(done)) == Ok::<InputProgress, Seq<char>>(progress),
        ({
            let pending = if split {
                Some(found(mode, start, candidates[done]).expected)
            } else {
                None
            };
            planner::scanned(
                mode,
                progress,
                pending,
                candidates.subrange(done, until),
                budget,
            ) is Ok
        }),
    ensures
        ({
            let pending = if split {
                Some(found(mode, start, candidates[done]).expected)
            } else {
                None
            };
            let scan = planner::scanned(
                mode,
                progress,
                pending,
                candidates.subrange(done, until),
                budget,
            )->Ok_0;
            &&& scan_follows(mode, start, candidates, done, split, until, scan, reach)
            &&& until > done && budget.max_output_rows > 0 ==> reach > done || scan.pending is Some
                && !split
        }),
    decreases until,
{
    let pending = if split {
        Some(found(mode, start, candidates[done]).expected)
    } else {
        None
    };
    let page = candidates.subrange(done, until);
    let scan = planner::scanned(mode, progress, pending, page, budget)->Ok_0;
    let base = emitted(mode, start, candidates, done, split);
    if done == until {
        assert(base + scan.actions =~= base);
        assert(changed(mode, start, candidates.take(done)) + scan.changes =~= changed(
            mode,
            start,
            candidates.take(done),
        ));
        done
    } else {
        let shorter = candidates.subrange(done, until - 1);
        assert(page.drop_last() =~= shorter);
        assert(page.last() == candidates[until - 1]);
        let before = planner::scanned(mode, progress, pending, shorter, budget)->Ok_0;
        if until == done + 1 {
            assert(base + before.actions =~= base);
            assert(changed(mode, start, candidates.take(done)) + before.changes =~= changed(
                mode,
                start,
                candidates.take(done),
            ));
            extended_scan_follows(mode, start, candidates, done, split, until, before, budget)
        } else {
            let reach = page_scan_follows(
                mode,
                start,
                candidates,
                done,
                split,
                until - 1,
                progress,
                budget,
            );
            if before.stopped {
                reach
            } else {
                extended_scan_follows(mode, start, candidates, done, split, until, before, budget)
            }
        }
    }
}

/// A page takes up a fanout where the page before it stopped: behind it the
/// fanout has emitted and changed exactly what the candidates up to there owe,
/// whatever the budgets of the pages. A page that is not empty moves on, and
/// only a page that reaches the last candidate finishes.
pub proof fn page_continues_its_fanout(
    mode: JoinMode,
    start: InputProgress,
    candidates: Seq<CandidateProbe>,
    continuation: JoinContinuation,
    done: int,
    split: bool,
    event: InputEventFacts,
    until: int,
    complete: bool,
    budget: WorkBudget,
) -> (place: (int, bool))
    requires
        stands_at(mode, start, candidates, continuation, done, split),
        done <= until <= candidates.len(),
        planner::planned(
            mode,
            continuation,
            event,
            candidates.subrange(done, until),
            complete,
            budget,
        ) is Ok,
    ensures
        ({
            let plan = planner::planned(
                mode,
                continuation,
                event,
                candidates.subrange(done, until),
                complete,
                budget,
            )->Ok_0;
            &&& done <= place.0 <= until
            &&& stands_at(mode, start, candidates, plan.next, place.0, place.1)
            &&& emitted(mode, start, candidates, done, split) + plan.actions == emitted(
                mode,
                start,
                candidates,
                place.0,
                place.1,
            )
            &&& changed(mode, start, candidates.take(done)) + plan.candidate_changes == changed(
                mode,
                start,
                candidates.take(place.0),
            )
            &&& plan.next is Finalize <==> complete && place == (until, false)
            &&& done < until && budget.max_output_rows > 0 ==> place.0 > done || place.1 && !split
        }),
{
    let progress = reached(mode, start, candidates.take(done))->Ok_0;
    let page = candidates.subrange(done, until);
    if split {
        assert(page.len() > 0);
    }
    let reach = page_scan_follows(
        mode,
        start,
        candidates,
        done,
        split,
        until,
        progress,
        budget,
    );
    let pending = if split {
        Some(found(mode, start, candidates[done]).expected)
    } else {
        None
    };
    let scan = planner::scanned(mode, progress, pending, page, budget)->Ok_0;
    (reach, scan.pending is Some)
}

/// A fanout that finished has emitted and changed exactly what all its
/// candidates owe.
pub proof fn finished_fanout_owes_nothing(
    mode: JoinMode,
    start: InputProgress,
    candidates: Seq<CandidateProbe>,
    continuation: JoinContinuation,
)
    requires
        stands_at(mode, start, candidates, continuation, candidates.len() as int, false),
    ensures
        emitted(mode, start, candidates, candidates.len() as int, false) == owed(
            mode,
            start,
            candidates,
        ),
        continuation.progress_of() == Some(reached(mode, start, candidates)->Ok_0),
{
    assert(candidates.take(candidates.len() as int) =~= candidates);
    assert(owed(mode, start, candidates) + Seq::<OutputAction>::empty() =~= owed(
        mode,
        start,
        candidates,
    ));
}

} // verus!
