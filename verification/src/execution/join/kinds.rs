//! What each join kind keeps: which rows stand in its output, and that every
//! transition emits the difference that an event makes to them.

use vstd::prelude::*;

use crate::execution::join::maintenance::{self, weight_of};
use crate::execution::join::planner::{
    self, CandidateProbe, InputEventFacts, InputProgress, InputSide, JoinContinuation,
    MatchTruth, OutputAction, OutputActionKind, OwnExpectation, OwnStateProbe,
};
use crate::execution::join::pages;
use crate::execution::join::reading::{self, EventRead, Probed, Projected};
use crate::execution::join::statements;
use crate::execution::join::step::{self, JoinKind};
use crate::execution::join::transition::TransitionPlan;
use crate::planner::WorkBudget;

verus! {

/// How often a row of one side is in the output on its own, from how often it
/// is in its input and how many rows of the other side match it or may match
/// it. An outer join keeps the rows of its outer side that nothing matches,
/// a semi join the left rows that something matches, and an anti join the left
/// rows that nothing matches; for `NOT IN` nothing may even possibly match.
pub open spec fn alone(
    kind: JoinKind,
    side: InputSide,
    multiplicity: int,
    matched: int,
    unknown: int,
) -> int {
    match (kind, side) {
        (JoinKind::Inner, _) => 0,
        (JoinKind::Left, InputSide::Left) => if matched == 0 {
            multiplicity
        } else {
            0
        },
        (JoinKind::Left, InputSide::Right) => 0,
        (JoinKind::Right, InputSide::Left) => 0,
        (JoinKind::Right, InputSide::Right) => if matched == 0 {
            multiplicity
        } else {
            0
        },
        (JoinKind::Full, _) => if matched == 0 {
            multiplicity
        } else {
            0
        },
        (JoinKind::Semi, InputSide::Left) => if matched > 0 {
            multiplicity
        } else {
            0
        },
        (JoinKind::Semi, InputSide::Right) => 0,
        (JoinKind::Anti, InputSide::Left) => if matched > 0 {
            0
        } else {
            multiplicity
        },
        (JoinKind::Anti, InputSide::Right) => 0,
        (JoinKind::NullAwareAnti, InputSide::Left) => if matched > 0 || unknown > 0 {
            0
        } else {
            multiplicity
        },
        (JoinKind::NullAwareAnti, InputSide::Right) => 0,
    }
}

/// How often two rows are in the output together: an inner or outer join holds
/// every pair that matches, a semi or anti join holds no pair.
pub open spec fn together(kind: JoinKind, left: int, right: int, truth: MatchTruth) -> int {
    match (kind, truth) {
        (JoinKind::Inner, MatchTruth::True) => left * right,
        (JoinKind::Left, MatchTruth::True) => left * right,
        (JoinKind::Right, MatchTruth::True) => left * right,
        (JoinKind::Full, MatchTruth::True) => left * right,
        _ => 0,
    }
}

/// The matches of a row once an event of the other side has come: a true match
/// counts by its weight, and a possible one counts where `NOT IN` asks for it.
pub open spec fn matched_after(matched: int, truth: MatchTruth, weight: int) -> int {
    if truth is True {
        matched + weight
    } else {
        matched
    }
}

pub open spec fn unknown_after(
    kind: JoinKind,
    unknown: int,
    truth: MatchTruth,
    weight: int,
) -> int {
    if truth is Unknown && kind is NullAwareAnti {
        unknown + weight
    } else {
        unknown
    }
}

/// What an event does to one row of the other side: the row counts the event
/// among its matches, and what is emitted is the difference that this makes to
/// the pairs of both rows and to the row on its own.
pub proof fn candidate_keeps_its_kind(
    kind: JoinKind,
    side: InputSide,
    weight: i64,
    candidate: CandidateProbe,
    own: int,
)
    requires
        planner::classified(step::mode_of(kind), side, weight, candidate) is Ok,
    ensures
        ({
            let found = planner::classified(step::mode_of(kind), side, weight, candidate)->Ok_0;
            let matched = matched_after(
                candidate.old_counts.matched as int,
                candidate.truth,
                weight as int,
            );
            let unknown = unknown_after(
                kind,
                candidate.old_counts.unknown as int,
                candidate.truth,
                weight as int,
            );
            let rows = candidate.multiplicity as int;
            &&& found.expected.new_counts.matched == matched
            &&& found.expected.new_counts.unknown == unknown
            &&& weight_of(found.actions, OutputActionKind::Pair) == together(
                kind,
                own + weight,
                rows,
                candidate.truth,
            ) - together(kind, own, rows, candidate.truth)
            &&& weight_of(found.actions, OutputActionKind::CandidateEligibility) == alone(
                kind,
                side.other(),
                rows,
                matched,
                unknown,
            ) - alone(
                kind,
                side.other(),
                rows,
                candidate.old_counts.matched as int,
                candidate.old_counts.unknown as int,
            )
            &&& weight_of(found.actions, OutputActionKind::CurrentEligibility) == 0
            &&& forall|index: int|
                0 <= index < found.actions.len() ==> (
                #[trigger] found.actions[index]).candidate_row_id == Some(candidate.row_id)
                    && found.actions[index].current_side == side
        }),
{
    let mode = step::mode_of(kind);
    maintenance::candidate_output_is_maintained(mode, side, weight, candidate, own);
    assert((own + weight) * candidate.multiplicity - own * candidate.multiplicity == weight
        * candidate.multiplicity) by (nonlinear_arith);
}

/// What the end of an event does to its own row: the row is there by the
/// event's weight more often, it has the matches that its fanout found, and
/// what is emitted is the difference that this makes to the row on its own.
pub proof fn own_row_keeps_its_kind(
    kind: JoinKind,
    continuation: JoinContinuation,
    event: InputEventFacts,
    own: OwnStateProbe,
    budget: WorkBudget,
)
    requires
        planner::finalized(step::mode_of(kind), continuation, event, own, budget) is Ok,
    ensures
        ({
            let plan = planner::finalized(
                step::mode_of(kind),
                continuation,
                event,
                own,
                budget,
            )->Ok_0;
            let counts = continuation.progress_of()->0.opposite_counts;
            let before = own.expected().multiplicity as int;
            &&& plan.own_change.expected_multiplicity == before
            &&& plan.own_change.counts == counts
            &&& own is Present ==> own.expected().counts == counts
            &&& before + event.weight >= 0 ==> plan.own_change.new_multiplicity == before
                + event.weight
            &&& weight_of(
                planner::option_seq(plan.output),
                OutputActionKind::CurrentEligibility,
            ) == alone(
                kind,
                event.side,
                before + event.weight,
                counts.matched as int,
                counts.unknown as int,
            ) - alone(
                kind,
                event.side,
                before,
                counts.matched as int,
                counts.unknown as int,
            )
            &&& plan.output is Some <==> alone(
                kind,
                event.side,
                1,
                counts.matched as int,
                counts.unknown as int,
            ) == 1
            &&& plan.output matches Some(action) ==> action.kind is CurrentEligibility
                && action.weight == event.weight && action.current_side == event.side
        }),
{
    let plan = planner::finalized(step::mode_of(kind), continuation, event, own, budget)->Ok_0;
    maintenance::own_output_is_maintained(
        step::mode_of(kind),
        continuation,
        event,
        own,
        budget,
    );
    reveal_with_fuel(weight_of, 2);
    assert(planner::option_seq(plan.output).len() <= 1);
    if plan.output is Some {
        assert(planner::option_seq(plan.output).drop_last() =~= Seq::empty());
    }
}

/// How often the row of an event is in the output together with the rows of
/// the other side.
pub open spec fn together_with(kind: JoinKind, own: int, candidates: Seq<CandidateProbe>) -> int
    decreases candidates.len(),
{
    if candidates.len() == 0 {
        0
    } else {
        together_with(kind, own, candidates.drop_last()) + together(
            kind,
            own,
            candidates.last().multiplicity as int,
            candidates.last().truth,
        )
    }
}

/// How often the rows of the other side are in the output on their own before
/// an event.
pub open spec fn alone_before(
    kind: JoinKind,
    side: InputSide,
    candidates: Seq<CandidateProbe>,
) -> int
    decreases candidates.len(),
{
    if candidates.len() == 0 {
        0
    } else {
        alone_before(kind, side, candidates.drop_last()) + alone(
            kind,
            side.other(),
            candidates.last().multiplicity as int,
            candidates.last().old_counts.matched as int,
            candidates.last().old_counts.unknown as int,
        )
    }
}

/// How often the rows of the other side are in the output on their own after
/// an event of some weight.
pub open spec fn alone_after(
    kind: JoinKind,
    side: InputSide,
    weight: int,
    candidates: Seq<CandidateProbe>,
) -> int
    decreases candidates.len(),
{
    if candidates.len() == 0 {
        0
    } else {
        let last = candidates.last();
        alone_after(kind, side, weight, candidates.drop_last()) + alone(
            kind,
            side.other(),
            last.multiplicity as int,
            matched_after(last.old_counts.matched as int, last.truth, weight),
            unknown_after(kind, last.old_counts.unknown as int, last.truth, weight),
        )
    }
}

/// A whole fanout emits the difference that its event makes to the output of
/// its kind, among the pairs of its row and among the rows of the other side.
pub proof fn fanout_keeps_its_kind(
    kind: JoinKind,
    start: InputProgress,
    candidates: Seq<CandidateProbe>,
    own: int,
)
    requires
        maintenance::joinable(step::mode_of(kind), start, candidates),
    ensures
        ({
            let weight = start.event_weight as int;
            let actions = maintenance::owed(step::mode_of(kind), start, candidates);
            &&& weight_of(actions, OutputActionKind::Pair) == together_with(
                kind,
                own + weight,
                candidates,
            ) - together_with(kind, own, candidates)
            &&& weight_of(actions, OutputActionKind::CandidateEligibility) == alone_after(
                kind,
                start.side,
                weight,
                candidates,
            ) - alone_before(kind, start.side, candidates)
            &&& weight_of(actions, OutputActionKind::CurrentEligibility) == 0
        }),
    decreases candidates.len(),
{
    if candidates.len() > 0 {
        let mode = step::mode_of(kind);
        let shorter = candidates.drop_last();
        let last = candidates.last();
        assert(candidates[candidates.len() - 1] == last);
        assert forall|index: int| 0 <= index < shorter.len() implies planner::classified(
            mode,
            start.side,
            start.event_weight,
            #[trigger] shorter[index],
        ) is Ok by {
            assert(shorter[index] == candidates[index]);
        }
        fanout_keeps_its_kind(kind, start, shorter, own);
        candidate_keeps_its_kind(kind, start.side, start.event_weight, last, own);
        maintenance::fanout_output_is_maintained(mode, start, candidates, own);
        maintenance::fanout_output_is_maintained(mode, start, shorter, own);
        maintenance::candidate_output_is_maintained(
            mode,
            start.side,
            start.event_weight,
            last,
            own,
        );
    }
}

/// The transition that finishes an event emits the row of the event exactly
/// where its kind keeps that row, with the weight of the event.
pub proof fn finished_event_keeps_its_kind(
    plan: TransitionPlan,
    continuation: JoinContinuation,
    read: EventRead,
    own: OwnExpectation,
    projected: Projected,
)
    requires
        plan.finalizes(continuation, read, own, projected) is Ok,
    ensures
        ({
            let finished = plan.finalizes(continuation, read, own, projected)->Ok_0;
            let counts = continuation.progress_of()->0.opposite_counts;
            let matched = counts.matched as int;
            let unknown = counts.unknown as int;
            &&& weight_of(
                planner::option_seq(finished.output),
                OutputActionKind::CurrentEligibility,
            ) == alone(
                plan.kind,
                read.event.side,
                own.multiplicity + read.event.weight,
                matched,
                unknown,
            ) - alone(plan.kind, read.event.side, own.multiplicity as int, matched, unknown)
            &&& finished.output is Some <==> alone(
                plan.kind,
                read.event.side,
                1,
                matched,
                unknown,
            ) == 1
            &&& finished.own_change.counts == counts
        }),
{
    let probe = step::own_probed(own, projected.output_bytes)->Ok_0;
    let budget = pages::clamped(plan.budget, plan.output)->Ok_0;
    own_row_keeps_its_kind(plan.kind, continuation, read.event, probe, budget);
}

/// The row of an event is measured exactly where its kind keeps it.
pub proof fn measured_event_is_kept(
    continuation: JoinContinuation,
    kind: JoinKind,
    event: InputEventFacts,
    own: OwnExpectation,
)
    requires
        step::finalize_opened(continuation, kind, event, own) is Ok,
    ensures
        ({
            let start = step::finalize_opened(continuation, kind, event, own)->Ok_0;
            let counts = start.progress.opposite_counts;
            &&& continuation.progress_of() == Some(start.progress)
            &&& start.measures_output <==> alone(
                kind,
                event.side,
                1,
                counts.matched as int,
                counts.unknown as int,
            ) == 1
        }),
{
}

proof fn finished_scan_joins_all(
    kind: JoinKind,
    progress: InputProgress,
    candidates: Seq<CandidateProbe>,
    budget: WorkBudget,
)
    requires
        planner::scanned(step::mode_of(kind), progress, None, candidates, budget) is Ok,
        !planner::scanned(step::mode_of(kind), progress, None, candidates, budget)->Ok_0.stopped,
    ensures
        maintenance::joinable(step::mode_of(kind), progress, candidates),
        ({
            let scan = planner::scanned(
                step::mode_of(kind),
                progress,
                None,
                candidates,
                budget,
            )->Ok_0;
            scan.progress.side == progress.side && scan.progress.event_weight
                == progress.event_weight
        }),
    decreases candidates.len(),
{
    if candidates.len() > 0 {
        let shorter = candidates.drop_last();
        finished_scan_joins_all(kind, progress, shorter, budget);
        assert forall|index: int| 0 <= index < candidates.len() implies planner::classified(
            step::mode_of(kind),
            progress.side,
            progress.event_weight,
            #[trigger] candidates[index],
        ) is Ok by {
            if index < shorter.len() {
                assert(shorter[index] == candidates[index]);
            }
        }
    }
}

/// A transition that probes an event once, and finds all its candidates,
/// emits the difference that the event makes to the output of its kind.
pub proof fn probed_event_keeps_its_kind(
    plan: TransitionPlan,
    progress: InputProgress,
    read: EventRead,
    budget: WorkBudget,
    probed: Probed,
    own: int,
)
    requires
        plan.planned(JoinContinuation::Probe(progress), read, budget, probed) is Ok,
        plan.planned(
            JoinContinuation::Probe(progress),
            read,
            budget,
            probed,
        )->Ok_0.next is Finalize,
    ensures
        ({
            let actions = plan.planned(
                JoinContinuation::Probe(progress),
                read,
                budget,
                probed,
            )->Ok_0.actions;
            let candidates = statements::candidates_of(reading::candidate_rows(probed.rows@));
            let weight = read.event.weight as int;
            &&& weight_of(actions, OutputActionKind::Pair) == together_with(
                plan.kind,
                own + weight,
                candidates,
            ) - together_with(plan.kind, own, candidates)
            &&& weight_of(actions, OutputActionKind::CandidateEligibility) == alone_after(
                plan.kind,
                read.event.side,
                weight,
                candidates,
            ) - alone_before(plan.kind, read.event.side, candidates)
            &&& weight_of(actions, OutputActionKind::CurrentEligibility) == 0
        }),
{
    let mode = step::mode_of(plan.kind);
    let continuation = JoinContinuation::Probe(progress);
    let candidates = statements::candidates_of(reading::candidate_rows(probed.rows@));
    let count = candidates.len() as int;
    let page = plan.planned(continuation, read, budget, probed)->Ok_0;
    assert(candidates.take(0) =~= Seq::empty());
    assert(candidates.subrange(0, count) =~= candidates);
    let place = maintenance::page_continues_its_fanout(
        mode,
        progress,
        candidates,
        continuation,
        0,
        false,
        read.event,
        count,
        probed.complete,
        budget,
    );
    finished_scan_joins_all(plan.kind, progress, candidates, budget);
    maintenance::finished_fanout_owes_nothing(mode, progress, candidates, page.next);
    assert(maintenance::emitted(mode, progress, candidates, 0, false) =~= Seq::empty());
    assert(Seq::<OutputAction>::empty() + page.actions =~= page.actions);
    fanout_keeps_its_kind(plan.kind, progress, candidates, own);
}

/// Whether a kind keeps no row on its own, so that its output is nothing but
/// pairs.
pub open spec fn keeps_only_pairs(kind: JoinKind) -> bool {
    &&& together(kind, 1, 1, MatchTruth::True) == 1
    &&& forall|side: InputSide, matched: int, unknown: int|
        #[trigger] alone(kind, side, 1, matched, unknown) == 0
}

} // verus!
