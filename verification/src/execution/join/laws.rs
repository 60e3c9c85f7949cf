//! What holds of every Join plan, whatever the page, mode and budget.

use vstd::prelude::*;

use crate::execution::contract::{OutputFacts, PrimitiveFacts};
use crate::execution::join::planner::{
    self, ActionPlan, ActionPlanModel, CandidateExpectation, CandidateProbe, CandidateStateChange,
    FrontierInputFacts, FrontierState, InputEventFacts, InputProgress, InputSide, JoinContinuation,
    JoinMode, JoinPhase, MatchCounts, MatchTruth, OutputAction, OwnStateProbe, ProbeScan,
};
use crate::planner::WorkBudget;
use crate::text;

verus! {

/// Persisted phase numbers decode to the phase they encode, and to nothing
/// else.
pub proof fn phase_numbers_round_trip(phase: JoinPhase, number: i16)
    ensures
        JoinPhase::decoded(phase.number()) == Ok::<JoinPhase, Seq<char>>(phase),
        JoinPhase::decoded(number) is Ok ==> JoinPhase::decoded(number)->Ok_0.number() == number,
{
}

/// Persisted side numbers decode to the side they encode, and to nothing else.
pub proof fn side_numbers_round_trip(side: InputSide, number: i16)
    ensures
        InputSide::decoded(side.number()) == Ok::<InputSide, Seq<char>>(side),
        InputSide::decoded(number) is Ok ==> InputSide::decoded(number)->Ok_0.number() == number,
{
}

/// Persisted truth numbers decode to the truth value they encode, and to
/// nothing else.
pub proof fn truth_numbers_round_trip(truth: MatchTruth, number: i16)
    ensures
        MatchTruth::decoded(truth.number() as i16) == Ok::<MatchTruth, Seq<char>>(truth),
        MatchTruth::decoded(number) is Ok ==> MatchTruth::decoded(number)->Ok_0.number() == number,
{
}

/// Output that a budget admits: at most its rows, and at most its bytes unless
/// it is one single row.
pub open spec fn output_within(actions: Seq<OutputAction>, budget: WorkBudget) -> bool {
    &&& actions.len() <= budget.max_output_rows
    &&& planner::action_bytes(actions) <= u64::MAX
    &&& planner::action_bytes(actions) <= budget.max_output_bytes || actions.len() == 1
}

proof fn appended_action_bytes(actions: Seq<OutputAction>, action: OutputAction)
    ensures
        planner::action_bytes(actions.push(action)) == planner::action_bytes(actions)
            + action.row_bytes,
{
    assert(actions.push(action).drop_last() =~= actions);
}

/// Selected actions stay within the budget and are sound.
proof fn fitting_stays_within(
    selected: Seq<OutputAction>,
    actions: Seq<OutputAction>,
    budget: WorkBudget,
)
    requires
        output_within(selected, budget),
        planner::fitting(
            actions,
            selected.len() as int,
            planner::action_bytes(selected) as int,
            budget,
        ) is Ok,
    ensures
        ({
            let count = planner::fitting(
                actions,
                selected.len() as int,
                planner::action_bytes(selected) as int,
                budget,
            )->Ok_0;
            &&& count <= actions.len()
            &&& output_within(selected + actions.take(count as int), budget)
            &&& forall|index: int| 0 <= index < count ==> (#[trigger] actions[index]).sound() is Ok
        }),
    decreases actions.len(),
{
    let rows = selected.len() as int;
    let bytes = planner::action_bytes(selected) as int;
    let count = planner::fitting(actions, rows, bytes, budget)->Ok_0;
    if count == 0 {
        assert(selected + actions.take(0) =~= selected);
    } else {
        let first = actions[0];
        let longer = selected.push(first);
        appended_action_bytes(selected, first);
        assert(planner::fits_behind(rows, bytes, first, budget) == Ok::<bool, Seq<char>>(true));
        if rows == 0 {
            assert(planner::action_bytes(selected) == 0) by {
                assert(selected.len() == 0);
            }
        }
        fitting_stays_within(longer, actions.drop_first(), budget);
        let rest = actions.drop_first();
        assert(longer + rest.take(count - 1) =~= selected + actions.take(count as int));
        assert forall|index: int| 0 <= index < count implies (
        #[trigger] actions[index]).sound() is Ok by {
            if index > 0 {
                assert(rest[index - 1] == actions[index]);
            }
        }
    }
}

/// What a scan keeps: the event, a sound progress, output within the budget,
/// and state changes that all lie behind the cursor.
pub open spec fn scan_kept(
    progress: InputProgress,
    scan: ProbeScan,
    budget: WorkBudget,
) -> bool {
    &&& scan.progress.sound() is Ok
    &&& scan.progress.positions == progress.positions
    &&& scan.progress.side == progress.side
    &&& scan.progress.event_weight == progress.event_weight
    &&& scan.progress.event_bytes == progress.event_bytes
    &&& scan.progress.expected_own == progress.expected_own
    &&& output_within(scan.actions, budget)
    &&& forall|index: int|
        0 <= index < scan.actions.len() ==> (#[trigger] scan.actions[index]).sound() is Ok
    &&& forall|index: int|
        0 <= index < scan.changes.len() ==> {
            let change = #[trigger] scan.changes[index];
            &&& change.sound() is Ok
            &&& planner::follows(change.expected.row_id, progress.candidate_after)
            &&& !planner::follows(change.expected.row_id, scan.progress.candidate_after)
        }
    &&& scan.pending is Some ==> planner::pending_sound(scan.progress, scan.pending->0) is Ok
    &&& scan.pending is Some ==> scan.stopped
}

proof fn classified_is_sound(
    mode: JoinMode,
    side: InputSide,
    event_weight: i64,
    candidate: CandidateProbe,
)
    requires
        planner::classified(mode, side, event_weight, candidate) is Ok,
        event_weight != 0,
    ensures
        ({
            let found = planner::classified(mode, side, event_weight, candidate)->Ok_0;
            &&& found.expected.sound() is Ok
            &&& found.expected.row_id == candidate.row_id
            &&& found.actions.len() <= 2
            &&& forall|index: int|
                0 <= index < found.actions.len() ==> (#[trigger] found.actions[index]).sound() is Ok
            &&& found.actions.len() == 2 ==> found.splits() && candidate.truth is True
            &&& candidate.truth is True ==> planner::signed_count(
                candidate.old_counts.matched,
                event_weight,
                "pending Join candidate matched count"@,
            ) == Ok::<u64, Seq<char>>(found.expected.new_counts.matched)
                && found.expected.new_counts.unknown == found.expected.old_counts.unknown
        }),
{
    let found = planner::classified(mode, side, event_weight, candidate)->Ok_0;
    let pair = planner::pair_action(mode, side, event_weight, candidate)->Ok_0;
    let transition = planner::transition_action(
        mode,
        side,
        candidate,
        found.expected.new_counts,
    )->Ok_0;
    if pair is Some {
        assert(event_weight * candidate.multiplicity != 0) by (nonlinear_arith)
            requires
                event_weight != 0,
                candidate.multiplicity != 0,
        ;
        assert(pair->0.sound() is Ok);
    }
    if transition is Some {
        assert(transition->0.sound() is Ok);
    }
    assert(found.actions == planner::option_seq(pair) + planner::option_seq(transition));
}

#[verifier::spinoff_prover]
#[verifier::rlimit(40)]
proof fn scan_keeps(
    mode: JoinMode,
    progress: InputProgress,
    pending: Option<CandidateExpectation>,
    candidates: Seq<CandidateProbe>,
    budget: WorkBudget,
)
    requires
        progress.sound() is Ok,
        text::all_hold(planner::order_checks(progress, pending, candidates)) is Ok,
        planner::scanned(mode, progress, pending, candidates, budget) is Ok,
    ensures
        ({
            let scan = planner::scanned(mode, progress, pending, candidates, budget)->Ok_0;
            &&& scan_kept(progress, scan, budget)
            &&& !scan.stopped ==> scan.progress.candidate_after == (if candidates.len() == 0 {
                progress.candidate_after
            } else {
                Some(candidates.last().row_id)
            })
        }),
    decreases candidates.len(),
{
    let checks = planner::order_checks(progress, pending, candidates);
    let scan = planner::scanned(mode, progress, pending, candidates, budget)->Ok_0;
    text::all_hold_each(checks);
    if candidates.len() > 0 {
        let shorter = candidates.drop_last();
        let shorter_checks = planner::order_checks(progress, pending, shorter);
        text::all_hold_each(shorter_checks);
        assert forall|index: int| 0 <= index < shorter_checks.len() implies (
        #[trigger] shorter_checks[index]) is Ok by {
            assert(checks[index] is Ok);
        }
        scan_keeps(mode, progress, pending, shorter, budget);
        let before = planner::scanned(mode, progress, pending, shorter, budget)->Ok_0;
        if !before.stopped {
            let candidate = candidates.last();
            let index = candidates.len() - 1;
            assert(checks[index] is Ok);
            assert(planner::follows(candidate.row_id, before.progress.candidate_after));
            cursor_is_behind(progress, pending, candidates, index);
            let found = planner::classified(
                mode,
                before.progress.side,
                before.progress.event_weight,
                candidate,
            )->Ok_0;
            classified_is_sound(
                mode,
                before.progress.side,
                before.progress.event_weight,
                candidate,
            );
            let resumed = if candidates.len() == 1 {
                pending
            } else {
                None
            };
            let first: int = if resumed is Some {
                1
            } else {
                0
            };
            let open_actions = found.actions.skip(first);
            fitting_stays_within(before.actions, open_actions, budget);
            let count = planner::fitting(
                open_actions,
                before.actions.len() as int,
                planner::action_bytes(before.actions) as int,
                budget,
            )->Ok_0;
            assert forall|index: int| 0 <= index < scan.actions.len() implies (
            #[trigger] scan.actions[index]).sound() is Ok by {
                if index < before.actions.len() {
                    assert(before.actions[index].sound() is Ok);
                } else {
                    assert(open_actions[index - before.actions.len()].sound() is Ok);
                }
            }
            assert forall|index: int| 0 <= index < scan.changes.len() implies ({
                let change = #[trigger] scan.changes[index];
                &&& change.sound() is Ok
                &&& planner::follows(change.expected.row_id, progress.candidate_after)
                &&& !planner::follows(change.expected.row_id, scan.progress.candidate_after)
            }) by {
                if index < before.changes.len() {
                    assert(scan.changes[index] == before.changes[index]);
                }
            }
        }
    }
}

/// Each candidate in keyset order lies beyond the cursor the page started at.
proof fn cursor_is_behind(
    progress: InputProgress,
    pending: Option<CandidateExpectation>,
    candidates: Seq<CandidateProbe>,
    index: int,
)
    requires
        0 <= index < candidates.len(),
        text::all_hold(planner::order_checks(progress, pending, candidates)) is Ok,
    ensures
        planner::follows(candidates[index].row_id, progress.candidate_after),
    decreases index,
{
    let checks = planner::order_checks(progress, pending, candidates);
    text::all_hold_each(checks);
    assert(checks[index] is Ok);
    if index > 0 {
        cursor_is_behind(progress, pending, candidates, index - 1);
    }
}

/// A plan's usage fits the budget it was made for: its rows and bytes are
/// those of its actions, and only one single row may exceed the byte budget.
pub proof fn planned_usage_fits_the_budget(
    mode: JoinMode,
    continuation: JoinContinuation,
    event: InputEventFacts,
    candidates: Seq<CandidateProbe>,
    complete: bool,
    budget: WorkBudget,
)
    requires
        planner::planned(mode, continuation, event, candidates, complete, budget) is Ok,
    ensures
        ({
            let plan = planner::planned(
                mode,
                continuation,
                event,
                candidates,
                complete,
                budget,
            )->Ok_0;
            &&& plan.usage.fits(budget) is Ok
            &&& plan.usage.output_rows == plan.actions.len()
            &&& plan.usage.output_bytes == planner::action_bytes(plan.actions)
            &&& plan.actions.len() <= budget.max_output_rows
            &&& plan.usage.output_bytes > budget.max_output_bytes ==> plan.actions.len() == 1
        }),
{
    let (progress, pending) = start_of(continuation);
    plan_scan_keeps(mode, continuation, event, candidates, complete, budget);
}

/// Where a data continuation starts its scan.
pub open spec fn start_of(continuation: JoinContinuation) -> (
    InputProgress,
    Option<CandidateExpectation>,
) {
    match continuation {
        JoinContinuation::PendingTransition { progress, candidate } => (progress, Some(candidate)),
        _ => (continuation.progress_of()->0, None),
    }
}

proof fn plan_scan_keeps(
    mode: JoinMode,
    continuation: JoinContinuation,
    event: InputEventFacts,
    candidates: Seq<CandidateProbe>,
    complete: bool,
    budget: WorkBudget,
)
    requires
        planner::planned(mode, continuation, event, candidates, complete, budget) is Ok,
    ensures
        ({
            let (progress, pending) = start_of(continuation);
            let scan = planner::scanned(mode, progress, pending, candidates, budget)->Ok_0;
            &&& planner::scanned(mode, progress, pending, candidates, budget) is Ok
            &&& progress.sound() is Ok
            &&& scan_kept(progress, scan, budget)
            &&& !scan.stopped ==> scan.progress.candidate_after == (if candidates.len() == 0 {
                progress.candidate_after
            } else {
                Some(candidates.last().row_id)
            })
        }),
{
    let (progress, pending) = start_of(continuation);
    if candidates.len() == 0 {
        text::all_hold_each(planner::order_checks(progress, pending, candidates));
    }
    scan_keeps(mode, progress, pending, candidates, budget);
}

/// Every action and every state change that a plan lists is well formed.
pub proof fn planned_actions_and_changes_are_sound(
    mode: JoinMode,
    continuation: JoinContinuation,
    event: InputEventFacts,
    candidates: Seq<CandidateProbe>,
    complete: bool,
    budget: WorkBudget,
)
    requires
        planner::planned(mode, continuation, event, candidates, complete, budget) is Ok,
    ensures
        ({
            let plan = planner::planned(
                mode,
                continuation,
                event,
                candidates,
                complete,
                budget,
            )->Ok_0;
            &&& forall|index: int|
                0 <= index < plan.actions.len() ==> (#[trigger] plan.actions[index]).sound() is Ok
            &&& forall|index: int|
                0 <= index < plan.candidate_changes.len() ==> (
                #[trigger] plan.candidate_changes[index]).sound() is Ok
        }),
{
    plan_scan_keeps(mode, continuation, event, candidates, complete, budget);
}

/// The pending candidate of a continuation, where it has one.
pub open spec fn pending_of(continuation: JoinContinuation) -> Option<CandidateExpectation> {
    match continuation {
        JoinContinuation::PendingTransition { candidate, .. } => Some(candidate),
        _ => None,
    }
}

/// A plan's next continuation resumes the same event and survives persistence:
/// its phase number, progress and pending candidate restore it exactly.
pub proof fn planned_continuation_resumes_and_restores(
    mode: JoinMode,
    continuation: JoinContinuation,
    event: InputEventFacts,
    candidates: Seq<CandidateProbe>,
    complete: bool,
    budget: WorkBudget,
)
    requires
        planner::planned(mode, continuation, event, candidates, complete, budget) is Ok,
    ensures
        ({
            let next = planner::planned(
                mode,
                continuation,
                event,
                candidates,
                complete,
                budget,
            )->Ok_0.next;
            &&& next.input_resumes(event) is Ok
            &&& next.progress_of() is Some
            &&& JoinContinuation::restored(
                next.phase_of().number(),
                next.progress_of()->0,
                pending_of(next),
            ) == Ok::<JoinContinuation, Seq<char>>(next)
        }),
{
    plan_scan_keeps(mode, continuation, event, candidates, complete, budget);
}

/// Candidate state is applied at most once: every changed row lies beyond the
/// cursor before the plan and behind the cursor after it, and a candidate
/// whose transition is still pending lies beyond both.
pub proof fn candidate_state_is_applied_once(
    mode: JoinMode,
    continuation: JoinContinuation,
    event: InputEventFacts,
    candidates: Seq<CandidateProbe>,
    complete: bool,
    budget: WorkBudget,
)
    requires
        planner::planned(mode, continuation, event, candidates, complete, budget) is Ok,
    ensures
        ({
            let plan = planner::planned(
                mode,
                continuation,
                event,
                candidates,
                complete,
                budget,
            )->Ok_0;
            let before = continuation.progress_of()->0.candidate_after;
            let after = plan.next.progress_of()->0.candidate_after;
            &&& forall|index: int|
                0 <= index < plan.candidate_changes.len() ==> {
                    let row_id = (#[trigger] plan.candidate_changes[index]).expected.row_id;
                    planner::follows(row_id, before) && !planner::follows(row_id, after)
                }
            &&& plan.next matches JoinContinuation::PendingTransition { candidate, .. }
                ==> planner::follows(candidate.row_id, after)
        }),
{
    plan_scan_keeps(mode, continuation, event, candidates, complete, budget);
}

/// The facts of a commit that does exactly what a plan lists.
pub open spec fn exact_facts(plan: ActionPlan, chunk_seq: i64) -> PrimitiveFacts {
    PrimitiveFacts {
        usage: plan.usage,
        state_rows: plan.candidate_changes@.len() as u64,
        continuation_rows: 1,
        output: if plan.actions@.len() > 0 {
            OutputFacts::Data { chunk_seq }
        } else {
            OutputFacts::Nothing
        },
    }
}

/// A commit that does exactly what a plan lists is accepted.
pub proof fn exact_facts_commit(
    plan: ActionPlan,
    mode: JoinMode,
    continuation: JoinContinuation,
    event: InputEventFacts,
    candidates: Seq<CandidateProbe>,
    complete: bool,
    budget: WorkBudget,
    chunk_seq: i64,
)
    requires
        planner::planned(mode, continuation, event, candidates, complete, budget) == Ok::<
            ActionPlanModel,
            Seq<char>,
        >(plan@),
        chunk_seq > 0,
    ensures
        plan.commits(exact_facts(plan, chunk_seq)) is Ok,
{
    planned_usage_fits_the_budget(mode, continuation, event, candidates, complete, budget);
    assert(plan.candidate_changes.len() <= u64::MAX);
}

/// A pair and the transition of the same candidate split over two
/// transactions: the first emits the pair and changes no state; the second
/// resumes it, emits the transition, and applies the state change once.
pub proof fn split_candidate_emits_each_action_once(
    mode: JoinMode,
    progress: InputProgress,
    event: InputEventFacts,
    candidate: CandidateProbe,
    complete: bool,
    budget: WorkBudget,
)
    requires
        progress.sound() is Ok,
        progress.resumes(event) is Ok,
        planner::follows(candidate.row_id, progress.candidate_after),
        planner::classified(mode, progress.side, progress.event_weight, candidate) is Ok,
        planner::classified(mode, progress.side, progress.event_weight, candidate)->Ok_0.splits(),
        progress.completed(
            mode,
            planner::classified(
                mode,
                progress.side,
                progress.event_weight,
                candidate,
            )->Ok_0.expected,
        ) is Ok,
        planner::probe_usage(seq![candidate]).fits(budget) is Ok,
        budget.max_output_rows == 1,
    ensures
        ({
            let found = planner::classified(
                mode,
                progress.side,
                progress.event_weight,
                candidate,
            )->Ok_0;
            let page = seq![candidate];
            let pending = JoinContinuation::PendingTransition {
                progress,
                candidate: found.expected,
            };
            let first = planner::planned(
                mode,
                JoinContinuation::Probe(progress),
                event,
                page,
                complete,
                budget,
            );
            let second = planner::planned(mode, pending, event, page, complete, budget);
            &&& first is Ok
            &&& first->Ok_0.actions == seq![found.actions[0]]
            &&& first->Ok_0.candidate_changes == Seq::<CandidateStateChange>::empty()
            &&& first->Ok_0.next == pending
            &&& second is Ok
            &&& second->Ok_0.actions == seq![found.actions[1]]
            &&& second->Ok_0.candidate_changes == seq![
                CandidateStateChange { expected: found.expected },
            ]
            &&& second->Ok_0.next.progress_of() == Some(
                progress.completed(mode, found.expected)->Ok_0,
            )
        }),
{
    let found = planner::classified(
        mode,
        progress.side,
        progress.event_weight,
        candidate,
    )->Ok_0;
    let page = seq![candidate];
    classified_is_sound(mode, progress.side, progress.event_weight, candidate);
    let none: Option<CandidateExpectation> = None;
    text::all_hold_each(planner::order_checks(progress, none, page));
    text::all_hold_each(planner::order_checks(progress, Some(found.expected), page));
    assert(page.drop_last() =~= Seq::empty());
    assert(planner::candidate_bytes(page) == candidate.row_bytes) by {
        assert(planner::candidate_bytes(page.drop_last()) == 0);
    }
    let pair = found.actions[0];
    let transition = found.actions[1];
    let empty = Seq::<OutputAction>::empty();
    assert(found.actions =~= seq![pair, transition]);
    assert(found.actions.skip(0) =~= found.actions);
    assert(found.actions.skip(1) =~= seq![transition]);
    assert(found.actions.drop_first() =~= seq![transition]);
    assert(pair.sound() is Ok);
    assert(transition.sound() is Ok);
    assert(planner::fitting(seq![transition], 1, pair.row_bytes as int, budget) == Ok::<
        nat,
        Seq<char>,
    >(0));
    assert(planner::fitting(found.actions, 0, 0, budget) == Ok::<nat, Seq<char>>(1));
    assert(seq![transition].drop_first() =~= empty);
    assert(planner::fitting(empty, 1, transition.row_bytes as int, budget) == Ok::<nat, Seq<char>>(
        0,
    ));
    assert(planner::fitting(seq![transition], 0, 0, budget) == Ok::<nat, Seq<char>>(1));
    assert(empty + found.actions.take(1) =~= seq![pair]);
    assert(empty + seq![transition].take(1) =~= seq![transition]);
    assert(found.expected.old_counts != found.expected.new_counts) by {
        assert(candidate.truth is True);
    }
    let nothing = Seq::<CandidateProbe>::empty();
    let opening = planner::scanned(mode, progress, none, nothing, budget)->Ok_0;
    assert(planner::scanned(mode, progress, Some(found.expected), nothing, budget)->Ok_0
        == opening);
    assert(planner::scanned(mode, progress, none, page, budget) == opening.extended(
        mode,
        none,
        candidate,
        budget,
    ));
    assert(planner::scanned(mode, progress, Some(found.expected), page, budget)
        == opening.extended(mode, Some(found.expected), candidate, budget));
}

/// The cursor of an event that has finished the first candidates of a page.
pub open spec fn cursor_after(
    before: Option<i64>,
    candidates: Seq<CandidateProbe>,
    finished: int,
) -> Option<i64> {
    if finished == 0 {
        before
    } else {
        Some(candidates[finished - 1].row_id)
    }
}

/// Whether a plan finishes exactly the first candidates of its page: the
/// cursor that it leaves stands on the last of them. The candidates of a page
/// follow one another strictly, so that no other number leaves this cursor.
pub open spec fn finishes(
    plan: ActionPlanModel,
    continuation: JoinContinuation,
    candidates: Seq<CandidateProbe>,
    finished: int,
) -> bool {
    plan.next.progress_of()->0.candidate_after == cursor_after(
        continuation.progress_of()->0.candidate_after,
        candidates,
        finished,
    )
}

/// The cursors of two numbers of finished candidates are apart.
proof fn finished_cursors_ascend(
    progress: InputProgress,
    pending: Option<CandidateExpectation>,
    candidates: Seq<CandidateProbe>,
    fewer: int,
    more: int,
)
    requires
        0 <= fewer < more <= candidates.len(),
        text::all_hold(planner::order_checks(progress, pending, candidates)) is Ok,
    ensures
        planner::follows(
            candidates[more - 1].row_id,
            cursor_after(progress.candidate_after, candidates, fewer),
        ),
    decreases more,
{
    let checks = planner::order_checks(progress, pending, candidates);
    text::all_hold_each(checks);
    assert(checks[more - 1] is Ok);
    if fewer < more - 1 {
        finished_cursors_ascend(progress, pending, candidates, fewer, more - 1);
    }
}

proof fn prefix_is_in_order(
    progress: InputProgress,
    pending: Option<CandidateExpectation>,
    candidates: Seq<CandidateProbe>,
)
    requires
        candidates.len() > 0,
        text::all_hold(planner::order_checks(progress, pending, candidates)) is Ok,
    ensures
        text::all_hold(planner::order_checks(progress, pending, candidates.drop_last())) is Ok,
{
    let checks = planner::order_checks(progress, pending, candidates);
    let shorter = planner::order_checks(progress, pending, candidates.drop_last());
    text::all_hold_each(checks);
    text::all_hold_each(shorter);
    assert forall|index: int| 0 <= index < shorter.len() implies (
    #[trigger] shorter[index]) is Ok by {
        assert(checks[index] is Ok);
    }
}

/// A scan finishes the candidates before the one where it stops.
proof fn scan_reaches(
    mode: JoinMode,
    progress: InputProgress,
    pending: Option<CandidateExpectation>,
    candidates: Seq<CandidateProbe>,
    budget: WorkBudget,
) -> (reached: int)
    requires
        progress.sound() is Ok,
        text::all_hold(planner::order_checks(progress, pending, candidates)) is Ok,
        planner::scanned(mode, progress, pending, candidates, budget) is Ok,
    ensures
        ({
            let scan = planner::scanned(mode, progress, pending, candidates, budget)->Ok_0;
            let before = planner::scanned(
                mode,
                progress,
                pending,
                candidates.take(reached),
                budget,
            );
            &&& 0 <= reached <= candidates.len()
            &&& scan.stopped <==> reached < candidates.len()
            &&& before is Ok
            &&& !before->Ok_0.stopped
            &&& reached < candidates.len() ==> planner::scanned(
                mode,
                progress,
                pending,
                candidates.take(reached + 1),
                budget,
            ) == Ok::<ProbeScan, Seq<char>>(scan)
            &&& scan.progress.candidate_after == cursor_after(
                progress.candidate_after,
                candidates,
                reached,
            )
        }),
    decreases candidates.len(),
{
    let scan = planner::scanned(mode, progress, pending, candidates, budget)->Ok_0;
    scan_keeps(mode, progress, pending, candidates, budget);
    assert(candidates.take(candidates.len() as int) =~= candidates);
    if !scan.stopped {
        candidates.len() as int
    } else {
        let shorter = candidates.drop_last();
        prefix_is_in_order(progress, pending, candidates);
        let before = planner::scanned(mode, progress, pending, shorter, budget)->Ok_0;
        if before.stopped {
            let reached = scan_reaches(mode, progress, pending, shorter, budget);
            assert(shorter.take(reached) =~= candidates.take(reached));
            assert(shorter.take(reached + 1) =~= candidates.take(reached + 1));
            reached
        } else {
            scan_keeps(mode, progress, pending, shorter, budget);
            assert(candidates.take(candidates.len() - 1) =~= shorter);
            candidates.len() - 1
        }
    }
}

proof fn fitting_is_a_prefix(actions: Seq<OutputAction>, rows: int, bytes: int, budget: WorkBudget)
    ensures
        planner::fitting(actions, rows, bytes, budget) matches Ok(count) ==> count
            <= actions.len(),
    decreases actions.len(),
{
    if actions.len() > 0 {
        fitting_is_a_prefix(
            actions.drop_first(),
            rows + 1,
            bytes + actions[0].row_bytes,
            budget,
        );
    }
}

/// What one candidate that finishes adds to a scan, whatever the budget.
proof fn finished_candidate_is_added(
    scan: ProbeScan,
    mode: JoinMode,
    resumed: Option<CandidateExpectation>,
    candidate: CandidateProbe,
    budget: WorkBudget,
)
    requires
        scan.extended(mode, resumed, candidate, budget) is Ok,
        !scan.extended(mode, resumed, candidate, budget)->Ok_0.stopped,
    ensures
        ({
            let found = planner::classified(
                mode,
                scan.progress.side,
                scan.progress.event_weight,
                candidate,
            );
            let longer = scan.extended(mode, resumed, candidate, budget)->Ok_0;
            let first: int = if resumed is Some {
                1
            } else {
                0
            };
            &&& found is Ok
            &&& longer.actions == scan.actions + found->Ok_0.actions.skip(first)
            &&& longer.changes == (if found->Ok_0.expected.old_counts
                != found->Ok_0.expected.new_counts {
                scan.changes.push(CandidateStateChange { expected: found->Ok_0.expected })
            } else {
                scan.changes
            })
            &&& Ok::<InputProgress, Seq<char>>(longer.progress) == scan.progress.completed(
                mode,
                found->Ok_0.expected,
            )
            &&& longer.pending is None
        }),
{
    let found = planner::classified(
        mode,
        scan.progress.side,
        scan.progress.event_weight,
        candidate,
    )->Ok_0;
    let open_actions = found.actions.skip(
        if resumed is Some {
            1
        } else {
            0
        },
    );
    fitting_is_a_prefix(
        open_actions,
        scan.actions.len() as int,
        planner::action_bytes(scan.actions) as int,
        budget,
    );
    assert(open_actions.take(open_actions.len() as int) =~= open_actions);
}

/// A scan that finishes its candidates finds the same whatever the budget.
proof fn finished_scans_agree(
    mode: JoinMode,
    progress: InputProgress,
    pending: Option<CandidateExpectation>,
    candidates: Seq<CandidateProbe>,
    budget: WorkBudget,
    other: WorkBudget,
)
    requires
        planner::scanned(mode, progress, pending, candidates, budget) is Ok,
        !planner::scanned(mode, progress, pending, candidates, budget)->Ok_0.stopped,
        planner::scanned(mode, progress, pending, candidates, other) is Ok,
        !planner::scanned(mode, progress, pending, candidates, other)->Ok_0.stopped,
    ensures
        planner::scanned(mode, progress, pending, candidates, budget) == planner::scanned(
            mode,
            progress,
            pending,
            candidates,
            other,
        ),
    decreases candidates.len(),
{
    if candidates.len() > 0 {
        let shorter = candidates.drop_last();
        finished_scans_agree(mode, progress, pending, shorter, budget, other);
        let scan = planner::scanned(mode, progress, pending, shorter, budget)->Ok_0;
        let resumed = if candidates.len() == 1 {
            pending
        } else {
            None
        };
        finished_candidate_is_added(scan, mode, resumed, candidates.last(), budget);
        finished_candidate_is_added(scan, mode, resumed, candidates.last(), other);
    }
}

/// A scan stays with its event.
proof fn scan_keeps_its_event(
    mode: JoinMode,
    progress: InputProgress,
    pending: Option<CandidateExpectation>,
    candidates: Seq<CandidateProbe>,
    budget: WorkBudget,
)
    requires
        planner::scanned(mode, progress, pending, candidates, budget) is Ok,
    ensures
        ({
            let scan = planner::scanned(mode, progress, pending, candidates, budget)->Ok_0;
            &&& scan.progress.side == progress.side
            &&& scan.progress.event_weight == progress.event_weight
        }),
    decreases candidates.len(),
{
    if candidates.len() > 0 {
        scan_keeps_its_event(mode, progress, pending, candidates.drop_last(), budget);
    }
}

/// The actions of a candidate that stops one scan and is finished by the next
/// are all its open actions.
proof fn split_candidate_actions_add_up(
    before: ProbeScan,
    mode: JoinMode,
    pending: Option<CandidateExpectation>,
    candidate: CandidateProbe,
    first: WorkBudget,
    second: WorkBudget,
)
    requires
        before.progress.event_weight != 0,
        before.extended(mode, pending, candidate, first) is Ok,
        ({
            let stopped = before.extended(mode, pending, candidate, first)->Ok_0;
            let rest = resting(stopped.progress).extended(
                mode,
                stopped.pending,
                candidate,
                second,
            );
            &&& stopped.stopped
            &&& rest is Ok
            &&& !rest->Ok_0.stopped
        }),
    ensures
        ({
            let stopped = before.extended(mode, pending, candidate, first)->Ok_0;
            let rest = resting(stopped.progress).extended(
                mode,
                stopped.pending,
                candidate,
                second,
            )->Ok_0;
            let found = planner::classified(
                mode,
                before.progress.side,
                before.progress.event_weight,
                candidate,
            )->Ok_0;
            let open_from: int = if pending is Some {
                1
            } else {
                0
            };
            &&& stopped.progress == before.progress
            &&& stopped.changes == before.changes
            &&& stopped.actions + rest.actions == before.actions + found.actions.skip(open_from)
        }),
{
    let stopped = before.extended(mode, pending, candidate, first)->Ok_0;
    let rest = resting(stopped.progress).extended(
        mode,
        stopped.pending,
        candidate,
        second,
    )->Ok_0;
    let found = planner::classified(
        mode,
        before.progress.side,
        before.progress.event_weight,
        candidate,
    )->Ok_0;
    classified_is_sound(mode, before.progress.side, before.progress.event_weight, candidate);
    let open_from: int = if pending is Some {
        1
    } else {
        0
    };
    let open_actions = found.actions.skip(open_from);
    let count = planner::fitting(
        open_actions,
        before.actions.len() as int,
        planner::action_bytes(before.actions) as int,
        first,
    )->Ok_0;
    fitting_is_a_prefix(
        open_actions,
        before.actions.len() as int,
        planner::action_bytes(before.actions) as int,
        first,
    );
    assert(stopped.actions == before.actions + open_actions.take(count as int));
    finished_candidate_is_added(
        resting(stopped.progress),
        mode,
        stopped.pending,
        candidate,
        second,
    );
    let left = found.actions.skip(
        if stopped.pending is Some {
            1
        } else {
            0
        },
    );
    assert(open_actions.take(count as int) + left =~= open_actions);
    assert(stopped.actions + rest.actions =~= before.actions + open_actions);
}

/// A candidate that stops one scan and is finished by the next is added as if
/// it had been finished at once.
proof fn split_candidate_adds_up(
    before: ProbeScan,
    mode: JoinMode,
    pending: Option<CandidateExpectation>,
    candidate: CandidateProbe,
    first: WorkBudget,
    second: WorkBudget,
    whole: WorkBudget,
)
    requires
        before.progress.event_weight != 0,
        before.extended(mode, pending, candidate, first) is Ok,
        before.extended(mode, pending, candidate, whole) is Ok,
        !before.extended(mode, pending, candidate, whole)->Ok_0.stopped,
        ({
            let stopped = before.extended(mode, pending, candidate, first)->Ok_0;
            let rest = resting(stopped.progress).extended(
                mode,
                stopped.pending,
                candidate,
                second,
            );
            &&& stopped.stopped
            &&& rest is Ok
            &&& !rest->Ok_0.stopped
        }),
    ensures
        ({
            let stopped = before.extended(mode, pending, candidate, first)->Ok_0;
            let rest = resting(stopped.progress).extended(
                mode,
                stopped.pending,
                candidate,
                second,
            )->Ok_0;
            let scan = before.extended(mode, pending, candidate, whole)->Ok_0;
            &&& stopped.actions + rest.actions == scan.actions
            &&& stopped.changes + rest.changes == scan.changes
            &&& rest.progress == scan.progress
        }),
{
    let stopped = before.extended(mode, pending, candidate, first)->Ok_0;
    let rest = resting(stopped.progress).extended(
        mode,
        stopped.pending,
        candidate,
        second,
    )->Ok_0;
    let scan = before.extended(mode, pending, candidate, whole)->Ok_0;
    split_candidate_actions_add_up(before, mode, pending, candidate, first, second);
    finished_candidate_is_added(before, mode, pending, candidate, whole);
    finished_candidate_is_added(
        resting(stopped.progress),
        mode,
        stopped.pending,
        candidate,
        second,
    );
    assert(stopped.changes + rest.changes =~= scan.changes);
}

/// A scan before its first candidate.
spec fn resting(progress: InputProgress) -> ProbeScan {
    ProbeScan {
        progress,
        actions: Seq::empty(),
        changes: Seq::empty(),
        stopped: false,
        pending: None,
    }
}

/// What follows two scans that add up to a third adds up as well.
proof fn finished_candidate_keeps_the_sum(
    stopped: ProbeScan,
    rest: ProbeScan,
    scan: ProbeScan,
    mode: JoinMode,
    candidate: CandidateProbe,
    second: WorkBudget,
    whole: WorkBudget,
)
    requires
        stopped.actions + rest.actions == scan.actions,
        stopped.changes + rest.changes == scan.changes,
        rest.progress == scan.progress,
        rest.extended(mode, None, candidate, second) is Ok,
        !rest.extended(mode, None, candidate, second)->Ok_0.stopped,
        scan.extended(mode, None, candidate, whole) is Ok,
        !scan.extended(mode, None, candidate, whole)->Ok_0.stopped,
    ensures
        ({
            let longer_rest = rest.extended(mode, None, candidate, second)->Ok_0;
            let longer = scan.extended(mode, None, candidate, whole)->Ok_0;
            &&& stopped.actions + longer_rest.actions == longer.actions
            &&& stopped.changes + longer_rest.changes == longer.changes
            &&& longer_rest.progress == longer.progress
        }),
{
    let longer_rest = rest.extended(mode, None, candidate, second)->Ok_0;
    let longer = scan.extended(mode, None, candidate, whole)->Ok_0;
    finished_candidate_is_added(rest, mode, None, candidate, second);
    finished_candidate_is_added(scan, mode, None, candidate, whole);
    assert(stopped.actions + longer_rest.actions =~= longer.actions);
    assert(stopped.changes + longer_rest.changes =~= longer.changes);
}

/// A scan that stops and the scan that resumes behind it find together what
/// one scan finds.
proof fn split_scan_adds_up(
    mode: JoinMode,
    progress: InputProgress,
    pending: Option<CandidateExpectation>,
    candidates: Seq<CandidateProbe>,
    finished: int,
    stopped: ProbeScan,
    first: WorkBudget,
    second: WorkBudget,
    whole: WorkBudget,
)
    requires
        0 <= finished < candidates.len(),
        progress.event_weight != 0,
        planner::scanned(mode, progress, pending, candidates.take(finished), first) is Ok,
        !planner::scanned(mode, progress, pending, candidates.take(finished), first)->Ok_0.stopped,
        planner::scanned(mode, progress, pending, candidates.take(finished + 1), first) == Ok::<
            ProbeScan,
            Seq<char>,
        >(stopped),
        stopped.stopped,
        ({
            let rest = planner::scanned(
                mode,
                stopped.progress,
                stopped.pending,
                candidates.skip(finished),
                second,
            );
            &&& rest is Ok
            &&& !rest->Ok_0.stopped
        }),
        planner::scanned(mode, progress, pending, candidates, whole) is Ok,
        !planner::scanned(mode, progress, pending, candidates, whole)->Ok_0.stopped,
    ensures
        ({
            let rest = planner::scanned(
                mode,
                stopped.progress,
                stopped.pending,
                candidates.skip(finished),
                second,
            )->Ok_0;
            let scan = planner::scanned(mode, progress, pending, candidates, whole)->Ok_0;
            &&& stopped.actions + rest.actions == scan.actions
            &&& stopped.changes + rest.changes == scan.changes
            &&& rest.progress == scan.progress
        }),
    decreases candidates.len(),
{
    let tail = candidates.skip(finished);
    let shorter = candidates.drop_last();
    let last = candidates.last();
    let scan_before = planner::scanned(mode, progress, pending, shorter, whole)->Ok_0;
    let rest_before = planner::scanned(
        mode,
        stopped.progress,
        stopped.pending,
        tail.drop_last(),
        second,
    )->Ok_0;
    assert(tail.last() == last);
    if tail.len() > 1 {
        assert(shorter.take(finished) =~= candidates.take(finished));
        assert(shorter.take(finished + 1) =~= candidates.take(finished + 1));
        assert(shorter.skip(finished) =~= tail.drop_last());
        split_scan_adds_up(
            mode,
            progress,
            pending,
            shorter,
            finished,
            stopped,
            first,
            second,
            whole,
        );
        finished_candidate_keeps_the_sum(
            stopped,
            rest_before,
            scan_before,
            mode,
            last,
            second,
            whole,
        );
    } else {
        assert(candidates.take(finished) =~= shorter);
        assert(candidates.take(finished + 1) =~= candidates);
        assert(tail.drop_last() =~= Seq::empty());
        finished_scans_agree(mode, progress, pending, shorter, first, whole);
        scan_keeps_its_event(mode, progress, pending, shorter, whole);
        split_candidate_adds_up(
            scan_before,
            mode,
            if candidates.len() == 1 {
                pending
            } else {
                None
            },
            last,
            first,
            second,
            whole,
        );
    }
}

/// A plan that finishes the first candidates of its page comes from a scan
/// that stops at the next one, if there is one.
proof fn plan_reaches(
    mode: JoinMode,
    continuation: JoinContinuation,
    event: InputEventFacts,
    candidates: Seq<CandidateProbe>,
    complete: bool,
    budget: WorkBudget,
    finished: int,
)
    requires
        0 <= finished <= candidates.len(),
        planner::planned(mode, continuation, event, candidates, complete, budget) is Ok,
        finishes(
            planner::planned(mode, continuation, event, candidates, complete, budget)->Ok_0,
            continuation,
            candidates,
            finished,
        ),
    ensures
        ({
            let (progress, pending) = start_of(continuation);
            let scan = planner::scanned(mode, progress, pending, candidates, budget);
            let before = planner::scanned(
                mode,
                progress,
                pending,
                candidates.take(finished),
                budget,
            );
            &&& progress.event_weight != 0
            &&& scan is Ok
            &&& scan->Ok_0.stopped <==> finished < candidates.len()
            &&& scan->Ok_0.pending is Some ==> scan->Ok_0.stopped
            &&& before is Ok
            &&& !before->Ok_0.stopped
            &&& finished < candidates.len() ==> planner::scanned(
                mode,
                progress,
                pending,
                candidates.take(finished + 1),
                budget,
            ) == scan
        }),
{
    let (progress, pending) = start_of(continuation);
    plan_scan_keeps(mode, continuation, event, candidates, complete, budget);
    if candidates.len() == 0 {
        text::all_hold_each(planner::order_checks(progress, pending, candidates));
    }
    let reached = scan_reaches(mode, progress, pending, candidates, budget);
    if reached < finished {
        finished_cursors_ascend(progress, pending, candidates, reached, finished);
    } else if finished < reached {
        finished_cursors_ascend(progress, pending, candidates, finished, reached);
    }
}

/// A page that its budget cuts is planned as a whole page: where one plan
/// finishes the first candidates of a page, and the plan that resumes it
/// finishes the rest, their actions and candidate changes are together those
/// of the one plan whose budget takes the whole page, and the fanout ends at
/// the same continuation. The cut may fall between two candidates, or between
/// the pair and the transition of one: no action and no change is lost or
/// repeated.
pub proof fn cut_page_is_planned_as_a_whole(
    mode: JoinMode,
    continuation: JoinContinuation,
    event: InputEventFacts,
    candidates: Seq<CandidateProbe>,
    complete: bool,
    finished: int,
    first: WorkBudget,
    second: WorkBudget,
    whole: WorkBudget,
)
    requires
        0 <= finished <= candidates.len(),
        planner::planned(mode, continuation, event, candidates, complete, first) is Ok,
        finishes(
            planner::planned(mode, continuation, event, candidates, complete, first)->Ok_0,
            continuation,
            candidates,
            finished,
        ),
        ({
            let next = planner::planned(
                mode,
                continuation,
                event,
                candidates,
                complete,
                first,
            )->Ok_0.next;
            let rest = candidates.skip(finished);
            let resumed = planner::planned(mode, next, event, rest, complete, second);
            &&& resumed is Ok
            &&& finishes(resumed->Ok_0, next, rest, rest.len() as int)
        }),
        planner::planned(mode, continuation, event, candidates, complete, whole) is Ok,
        finishes(
            planner::planned(mode, continuation, event, candidates, complete, whole)->Ok_0,
            continuation,
            candidates,
            candidates.len() as int,
        ),
    ensures
        ({
            let cut = planner::planned(
                mode,
                continuation,
                event,
                candidates,
                complete,
                first,
            )->Ok_0;
            let resumed = planner::planned(
                mode,
                cut.next,
                event,
                candidates.skip(finished),
                complete,
                second,
            )->Ok_0;
            let plan = planner::planned(
                mode,
                continuation,
                event,
                candidates,
                complete,
                whole,
            )->Ok_0;
            &&& cut.actions + resumed.actions == plan.actions
            &&& cut.candidate_changes + resumed.candidate_changes == plan.candidate_changes
            &&& resumed.next == plan.next
        }),
{
    let (progress, pending) = start_of(continuation);
    let cut = planner::planned(mode, continuation, event, candidates, complete, first)->Ok_0;
    let rest = candidates.skip(finished);
    let (next_progress, next_pending) = start_of(cut.next);
    let stopped = planner::scanned(mode, progress, pending, candidates, first)->Ok_0;
    plan_reaches(mode, continuation, event, candidates, complete, first, finished);
    plan_reaches(mode, cut.next, event, rest, complete, second, rest.len() as int);
    plan_reaches(
        mode,
        continuation,
        event,
        candidates,
        complete,
        whole,
        candidates.len() as int,
    );
    assert(finished < candidates.len()) by {
        if finished == candidates.len() {
            assert(rest.len() == 0);
        }
    }
    split_scan_adds_up(
        mode,
        progress,
        pending,
        candidates,
        finished,
        stopped,
        first,
        second,
        whole,
    );
}

proof fn action_bytes_add_up(first: Seq<OutputAction>, second: Seq<OutputAction>)
    ensures
        planner::action_bytes(first + second) == planner::action_bytes(first)
            + planner::action_bytes(second),
    decreases second.len(),
{
    if second.len() == 0 {
        assert(first + second =~= first);
    } else {
        assert((first + second).drop_last() =~= first + second.drop_last());
        action_bytes_add_up(first, second.drop_last());
    }
}

/// Actions that leave room in the budget all fit.
proof fn roomy_budget_fits_all(
    actions: Seq<OutputAction>,
    rows: int,
    bytes: int,
    budget: WorkBudget,
)
    requires
        rows >= 0,
        bytes >= 0,
        rows + actions.len() <= budget.max_output_rows,
        bytes + planner::action_bytes(actions) <= budget.max_output_bytes,
        forall|index: int|
            0 <= index < actions.len() ==> (#[trigger] actions[index]).sound() is Ok,
    ensures
        planner::fitting(actions, rows, bytes, budget) == Ok::<nat, Seq<char>>(actions.len()),
    decreases actions.len(),
{
    if actions.len() > 0 {
        let rest = actions.drop_first();
        assert(actions[0].sound() is Ok);
        assert(actions =~= seq![actions[0]] + rest);
        action_bytes_add_up(seq![actions[0]], rest);
        assert(seq![actions[0]].drop_last() =~= Seq::empty());
        assert(planner::action_bytes(seq![actions[0]]) == actions[0].row_bytes) by {
            assert(planner::action_bytes(seq![actions[0]].drop_last()) == 0);
        }
        assert forall|index: int| 0 <= index < rest.len() implies (
        #[trigger] rest[index]).sound() is Ok by {
            assert(actions[index + 1].sound() is Ok);
        }
        roomy_budget_fits_all(rest, rows + 1, bytes + actions[0].row_bytes, budget);
    }
}

/// Whether a budget has room for actions, without the one row that may exceed
/// its bytes.
spec fn roomy(actions: Seq<OutputAction>, budget: WorkBudget) -> bool {
    &&& actions.len() <= budget.max_output_rows
    &&& planner::action_bytes(actions) <= budget.max_output_bytes
}

/// A candidate that some scan finishes is finished by every scan with the same
/// progress whose budget has room for it.
proof fn roomy_budget_finishes_a_candidate(
    scan: ProbeScan,
    mode: JoinMode,
    resumed: Option<CandidateExpectation>,
    candidate: CandidateProbe,
    budget: WorkBudget,
)
    requires
        scan.progress.event_weight != 0,
        ({
            let found = planner::classified(
                mode,
                scan.progress.side,
                scan.progress.event_weight,
                candidate,
            );
            let first: int = if resumed is Some {
                1
            } else {
                0
            };
            &&& found is Ok
            &&& resumed is Some ==> found->Ok_0.expected == resumed->0 && found->Ok_0.splits()
            &&& scan.progress.completed(mode, found->Ok_0.expected) is Ok
            &&& roomy(scan.actions + found->Ok_0.actions.skip(first), budget)
        }),
    ensures
        scan.extended(mode, resumed, candidate, budget) is Ok,
        !scan.extended(mode, resumed, candidate, budget)->Ok_0.stopped,
{
    let found = planner::classified(
        mode,
        scan.progress.side,
        scan.progress.event_weight,
        candidate,
    )->Ok_0;
    let first: int = if resumed is Some {
        1
    } else {
        0
    };
    let open_actions = found.actions.skip(first);
    classified_is_sound(mode, scan.progress.side, scan.progress.event_weight, candidate);
    assert forall|index: int| 0 <= index < open_actions.len() implies (
    #[trigger] open_actions[index]).sound() is Ok by {
        assert(found.actions[first + index].sound() is Ok);
    }
    action_bytes_add_up(scan.actions, open_actions);
    roomy_budget_fits_all(
        open_actions,
        scan.actions.len() as int,
        planner::action_bytes(scan.actions) as int,
        budget,
    );
}

/// A scan that finishes its candidates does so under every budget with room
/// for its actions.
proof fn roomy_budget_finishes_a_scan(
    mode: JoinMode,
    progress: InputProgress,
    pending: Option<CandidateExpectation>,
    candidates: Seq<CandidateProbe>,
    budget: WorkBudget,
    whole: WorkBudget,
)
    requires
        progress.event_weight != 0,
        planner::scanned(mode, progress, pending, candidates, budget) is Ok,
        !planner::scanned(mode, progress, pending, candidates, budget)->Ok_0.stopped,
        roomy(planner::scanned(mode, progress, pending, candidates, budget)->Ok_0.actions, whole),
    ensures
        planner::scanned(mode, progress, pending, candidates, whole) is Ok,
        !planner::scanned(mode, progress, pending, candidates, whole)->Ok_0.stopped,
    decreases candidates.len(),
{
    if candidates.len() > 0 {
        let shorter = candidates.drop_last();
        let last = candidates.last();
        let before = planner::scanned(mode, progress, pending, shorter, budget)->Ok_0;
        let resumed = if candidates.len() == 1 {
            pending
        } else {
            None
        };
        finished_candidate_is_added(before, mode, resumed, last, budget);
        let found = planner::classified(
            mode,
            before.progress.side,
            before.progress.event_weight,
            last,
        )->Ok_0;
        action_bytes_add_up(
            before.actions,
            found.actions.skip(
                if resumed is Some {
                    1
                } else {
                    0
                },
            ),
        );
        roomy_budget_finishes_a_scan(mode, progress, pending, shorter, budget, whole);
        finished_scans_agree(mode, progress, pending, shorter, budget, whole);
        scan_keeps_its_event(mode, progress, pending, shorter, budget);
        roomy_budget_finishes_a_candidate(before, mode, resumed, last, whole);
    }
}

/// A budget with room for actions has room for fewer.
proof fn roomy_for_fewer(first: Seq<OutputAction>, second: Seq<OutputAction>, budget: WorkBudget)
    requires
        roomy(first + second, budget),
    ensures
        roomy(first, budget),
{
    action_bytes_add_up(first, second);
}

/// What a scan finishes behind a scan that stopped, one scan finishes too.
proof fn roomy_budget_finishes_the_next_candidate(
    stopped: ProbeScan,
    rest: ProbeScan,
    scan: ProbeScan,
    mode: JoinMode,
    candidate: CandidateProbe,
    second: WorkBudget,
    whole: WorkBudget,
)
    requires
        scan.progress.event_weight != 0,
        stopped.actions + rest.actions == scan.actions,
        rest.progress == scan.progress,
        rest.extended(mode, None, candidate, second) is Ok,
        !rest.extended(mode, None, candidate, second)->Ok_0.stopped,
        roomy(
            stopped.actions + rest.extended(mode, None, candidate, second)->Ok_0.actions,
            whole,
        ),
    ensures
        scan.extended(mode, None, candidate, whole) is Ok,
        !scan.extended(mode, None, candidate, whole)->Ok_0.stopped,
{
    finished_candidate_is_added(rest, mode, None, candidate, second);
    let found = planner::classified(
        mode,
        scan.progress.side,
        scan.progress.event_weight,
        candidate,
    )->Ok_0;
    let longer = rest.extended(mode, None, candidate, second)->Ok_0;
    assert(stopped.actions + longer.actions =~= scan.actions + found.actions.skip(0));
    roomy_budget_finishes_a_candidate(scan, mode, None, candidate, whole);
}

/// A candidate that stops one scan and is finished by the next is finished at
/// once under a budget with room for it.
proof fn roomy_budget_finishes_a_split_candidate(
    before: ProbeScan,
    mode: JoinMode,
    pending: Option<CandidateExpectation>,
    candidate: CandidateProbe,
    first: WorkBudget,
    second: WorkBudget,
    whole: WorkBudget,
)
    requires
        before.progress.event_weight != 0,
        before.extended(mode, pending, candidate, first) is Ok,
        ({
            let stopped = before.extended(mode, pending, candidate, first)->Ok_0;
            let rest = resting(stopped.progress).extended(
                mode,
                stopped.pending,
                candidate,
                second,
            );
            &&& stopped.stopped
            &&& rest is Ok
            &&& !rest->Ok_0.stopped
            &&& roomy(stopped.actions + rest->Ok_0.actions, whole)
        }),
    ensures
        roomy(before.actions, whole),
        before.extended(mode, pending, candidate, whole) is Ok,
        !before.extended(mode, pending, candidate, whole)->Ok_0.stopped,
{
    let stopped = before.extended(mode, pending, candidate, first)->Ok_0;
    let open_actions = planner::classified(
        mode,
        before.progress.side,
        before.progress.event_weight,
        candidate,
    )->Ok_0.actions.skip(
        if pending is Some {
            1
        } else {
            0
        },
    );
    split_candidate_actions_add_up(before, mode, pending, candidate, first, second);
    finished_candidate_is_added(
        resting(stopped.progress),
        mode,
        stopped.pending,
        candidate,
        second,
    );
    roomy_for_fewer(before.actions, open_actions, whole);
    roomy_budget_finishes_a_candidate(before, mode, pending, candidate, whole);
}

/// A budget with room for what a scan that stops and the scan that resumes
/// behind it find lets one scan finish all their candidates.
proof fn roomy_budget_finishes_a_split_scan(
    mode: JoinMode,
    progress: InputProgress,
    pending: Option<CandidateExpectation>,
    candidates: Seq<CandidateProbe>,
    finished: int,
    stopped: ProbeScan,
    first: WorkBudget,
    second: WorkBudget,
    whole: WorkBudget,
)
    requires
        0 <= finished < candidates.len(),
        progress.event_weight != 0,
        planner::scanned(mode, progress, pending, candidates.take(finished), first) is Ok,
        !planner::scanned(mode, progress, pending, candidates.take(finished), first)->Ok_0.stopped,
        planner::scanned(mode, progress, pending, candidates.take(finished + 1), first) == Ok::<
            ProbeScan,
            Seq<char>,
        >(stopped),
        stopped.stopped,
        ({
            let rest = planner::scanned(
                mode,
                stopped.progress,
                stopped.pending,
                candidates.skip(finished),
                second,
            );
            &&& rest is Ok
            &&& !rest->Ok_0.stopped
            &&& roomy(stopped.actions + rest->Ok_0.actions, whole)
        }),
    ensures
        planner::scanned(mode, progress, pending, candidates, whole) is Ok,
        !planner::scanned(mode, progress, pending, candidates, whole)->Ok_0.stopped,
    decreases candidates.len(),
{
    let tail = candidates.skip(finished);
    let shorter = candidates.drop_last();
    let last = candidates.last();
    let rest = planner::scanned(mode, stopped.progress, stopped.pending, tail, second)->Ok_0;
    assert(tail.last() == last);
    if tail.len() > 1 {
        let rest_before = planner::scanned(
            mode,
            stopped.progress,
            stopped.pending,
            tail.drop_last(),
            second,
        )->Ok_0;
        assert(shorter.take(finished) =~= candidates.take(finished));
        assert(shorter.take(finished + 1) =~= candidates.take(finished + 1));
        assert(shorter.skip(finished) =~= tail.drop_last());
        finished_candidate_is_added(rest_before, mode, None, last, second);
        let added = planner::classified(
            mode,
            rest_before.progress.side,
            rest_before.progress.event_weight,
            last,
        )->Ok_0.actions.skip(0);
        assert(stopped.actions + rest.actions =~= stopped.actions + rest_before.actions + added);
        roomy_for_fewer(stopped.actions + rest_before.actions, added, whole);
        roomy_budget_finishes_a_split_scan(
            mode,
            progress,
            pending,
            shorter,
            finished,
            stopped,
            first,
            second,
            whole,
        );
        split_scan_adds_up(
            mode,
            progress,
            pending,
            shorter,
            finished,
            stopped,
            first,
            second,
            whole,
        );
        let scan_before = planner::scanned(mode, progress, pending, shorter, whole)->Ok_0;
        scan_keeps_its_event(mode, progress, pending, shorter, whole);
        roomy_budget_finishes_the_next_candidate(
            stopped,
            rest_before,
            scan_before,
            mode,
            last,
            second,
            whole,
        );
    } else {
        let resumed = if candidates.len() == 1 {
            pending
        } else {
            None
        };
        assert(candidates.take(finished) =~= shorter);
        assert(candidates.take(finished + 1) =~= candidates);
        assert(tail.drop_last() =~= Seq::empty());
        let before = planner::scanned(mode, progress, pending, shorter, first)->Ok_0;
        scan_keeps_its_event(mode, progress, pending, shorter, first);
        roomy_budget_finishes_a_split_candidate(
            before,
            mode,
            resumed,
            last,
            first,
            second,
            whole,
        );
        roomy_budget_finishes_a_scan(mode, progress, pending, shorter, first, whole);
        finished_scans_agree(mode, progress, pending, shorter, first, whole);
    }
}

/// A page that its budget cuts fits every budget that admits its candidates
/// and has room for the actions of both plans: one plan then finishes it.
pub proof fn cut_page_fits_one_budget(
    mode: JoinMode,
    continuation: JoinContinuation,
    event: InputEventFacts,
    candidates: Seq<CandidateProbe>,
    complete: bool,
    finished: int,
    first: WorkBudget,
    second: WorkBudget,
    whole: WorkBudget,
)
    requires
        0 <= finished <= candidates.len(),
        planner::planned(mode, continuation, event, candidates, complete, first) is Ok,
        finishes(
            planner::planned(mode, continuation, event, candidates, complete, first)->Ok_0,
            continuation,
            candidates,
            finished,
        ),
        planner::probe_usage(candidates).fits(whole) is Ok,
        ({
            let cut = planner::planned(
                mode,
                continuation,
                event,
                candidates,
                complete,
                first,
            )->Ok_0;
            let rest = candidates.skip(finished);
            let resumed = planner::planned(mode, cut.next, event, rest, complete, second);
            &&& resumed is Ok
            &&& finishes(resumed->Ok_0, cut.next, rest, rest.len() as int)
            &&& cut.usage.output_rows + resumed->Ok_0.usage.output_rows <= whole.max_output_rows
            &&& cut.usage.output_bytes + resumed->Ok_0.usage.output_bytes
                <= whole.max_output_bytes
        }),
    ensures
        planner::planned(mode, continuation, event, candidates, complete, whole) is Ok,
        finishes(
            planner::planned(mode, continuation, event, candidates, complete, whole)->Ok_0,
            continuation,
            candidates,
            candidates.len() as int,
        ),
{
    let (progress, pending) = start_of(continuation);
    let cut = planner::planned(mode, continuation, event, candidates, complete, first)->Ok_0;
    let rest = candidates.skip(finished);
    let resumed = planner::planned(mode, cut.next, event, rest, complete, second)->Ok_0;
    let stopped = planner::scanned(mode, progress, pending, candidates, first)->Ok_0;
    plan_reaches(mode, continuation, event, candidates, complete, first, finished);
    plan_reaches(mode, cut.next, event, rest, complete, second, rest.len() as int);
    planned_usage_fits_the_budget(mode, continuation, event, candidates, complete, first);
    planned_usage_fits_the_budget(mode, cut.next, event, rest, complete, second);
    action_bytes_add_up(cut.actions, resumed.actions);
    assert(finished < candidates.len()) by {
        if finished == candidates.len() {
            assert(rest.len() == 0);
        }
    }
    roomy_budget_finishes_a_split_scan(
        mode,
        progress,
        pending,
        candidates,
        finished,
        stopped,
        first,
        second,
        whole,
    );
    scan_keeps(mode, progress, pending, candidates, whole);
}

/// A pending candidate whose stored counts are no longer the planned ones is
/// refused, whether the change was applied early or twice.
pub proof fn stale_pending_candidate_is_refused(
    mode: JoinMode,
    progress: InputProgress,
    pending: CandidateExpectation,
    event: InputEventFacts,
    candidate: CandidateProbe,
    complete: bool,
    budget: WorkBudget,
)
    requires
        candidate.old_counts != pending.old_counts,
    ensures
        planner::planned(
            mode,
            JoinContinuation::PendingTransition { progress, candidate: pending },
            event,
            seq![candidate],
            complete,
            budget,
        ) is Err,
{
    let page = seq![candidate];
    let nothing = Seq::<CandidateProbe>::empty();
    assert(page.drop_last() =~= nothing);
    assert(planner::scanned(mode, progress, Some(pending), nothing, budget) is Ok);
}

/// Retracting an event restores the counts that its insertion changed.
pub proof fn retraction_restores_match_counts(
    mode: JoinMode,
    counts: MatchCounts,
    truth: MatchTruth,
    weight: i64,
)
    requires
        planner::delta_applied(mode, counts, truth, weight) is Ok,
        weight > i64::MIN,
    ensures
        planner::delta_applied(
            mode,
            planner::delta_applied(mode, counts, truth, weight)->Ok_0,
            truth,
            (-weight) as i64,
        ) == Ok::<MatchCounts, Seq<char>>(counts),
{
}

/// Retracting an event takes back what its insertion did to a candidate: its
/// counts are those of before, and each action comes again with the opposite
/// weight.
pub proof fn retraction_takes_back_candidate_actions(
    mode: JoinMode,
    side: InputSide,
    weight: i64,
    candidate: CandidateProbe,
)
    requires
        planner::classified(mode, side, weight, candidate) is Ok,
        weight > i64::MIN,
        forall|index: int|
            0 <= index < planner::classified(mode, side, weight, candidate)->Ok_0.actions.len()
                ==> (#[trigger] planner::classified(
                mode,
                side,
                weight,
                candidate,
            )->Ok_0.actions[index]).weight > i64::MIN,
    ensures
        ({
            let inserted = planner::classified(mode, side, weight, candidate)->Ok_0;
            let retracted = planner::classified(
                mode,
                side,
                (-weight) as i64,
                CandidateProbe { old_counts: inserted.expected.new_counts, ..candidate },
            );
            &&& retracted is Ok
            &&& retracted->Ok_0.expected.new_counts == candidate.old_counts
            &&& retracted->Ok_0.actions.len() == inserted.actions.len()
            &&& forall|index: int|
                0 <= index < inserted.actions.len() ==> (
                #[trigger] retracted->Ok_0.actions[index]) == (OutputAction {
                    weight: (-inserted.actions[index].weight) as i64,
                    ..inserted.actions[index]
                })
        }),
{
    let inserted = planner::classified(mode, side, weight, candidate)->Ok_0;
    let counted = CandidateProbe { old_counts: inserted.expected.new_counts, ..candidate };
    let back = (-weight) as i64;
    retraction_restores_match_counts(mode, candidate.old_counts, candidate.truth, weight);
    let pair = planner::pair_action(mode, side, weight, candidate)->Ok_0;
    let transition = planner::transition_action(
        mode,
        side,
        candidate,
        inserted.expected.new_counts,
    )->Ok_0;
    if pair is Some {
        assert(inserted.actions[0] == pair->0);
        assert(back * candidate.multiplicity == -(weight * candidate.multiplicity))
            by (nonlinear_arith)
            requires
                back == -weight,
        ;
        assert(planner::pair_action(mode, side, back, counted) is Ok);
    }
    let pair_back = planner::pair_action(mode, side, back, counted)->Ok_0;
    let transition_back = planner::transition_action(
        mode,
        side,
        counted,
        candidate.old_counts,
    )->Ok_0;
    assert(planner::classified(mode, side, back, counted)->Ok_0.actions
        == planner::option_seq(pair_back) + planner::option_seq(transition_back));
}

/// The own row after a finished event counts the event's weight on top of
/// what was there, is removed exactly at zero, and keeps the scanned counts.
pub proof fn finished_event_changes_its_own_row(
    mode: JoinMode,
    continuation: JoinContinuation,
    event: InputEventFacts,
    own: OwnStateProbe,
    budget: WorkBudget,
)
    requires
        planner::finalized(mode, continuation, event, own, budget) is Ok,
    ensures
        ({
            let plan = planner::finalized(mode, continuation, event, own, budget)->Ok_0;
            let change = plan.own_change;
            &&& change.new_multiplicity == change.expected_multiplicity + event.weight
            &&& change.new_multiplicity <= planner::MAX_COUNT
            &&& change.kind is Delete <==> change.new_multiplicity == 0
            &&& change.kind is Insert <==> change.expected_row_id is None
            &&& change.counts == continuation.progress_of()->0.opposite_counts
            &&& plan.usage.fits(budget) is Ok
            &&& plan.output matches Some(action) ==> action.sound() is Ok && action.weight
                == event.weight
        }),
{
}

/// Published output frontiers never pass an input: what a frontier plan
/// publishes lies above what was published, at or below both consumed
/// frontiers, and at or above all output data; and the state it leaves is
/// again sound.
pub proof fn frontier_never_passes_an_input(
    continuation: JoinContinuation,
    facts: FrontierInputFacts,
    state: FrontierState,
    budget: WorkBudget,
)
    requires
        planner::frontier_planned(continuation, facts, state, budget) is Ok,
    ensures
        ({
            let plan = planner::frontier_planned(continuation, facts, state, budget)->Ok_0;
            &&& plan.publish matches Some(frontier) ==> {
                &&& frontier > state.published
                &&& frontier <= plan.new.left
                &&& frontier <= plan.new.right
                &&& state.latest_output_data matches Some(latest) ==> latest <= frontier
            }
            &&& plan.new.left >= state.consumed.left
            &&& plan.new.right >= state.consumed.right
            &&& (FrontierState {
                consumed: plan.new,
                published: match plan.publish {
                    Some(frontier) => frontier,
                    None => state.published,
                },
                latest_output_data: state.latest_output_data,
            }).sound() is Ok
        }),
{
}

/// No frontier passes a data event that is still being processed.
pub proof fn frontier_waits_for_active_input(
    continuation: JoinContinuation,
    facts: FrontierInputFacts,
    state: FrontierState,
    budget: WorkBudget,
)
    requires
        !(continuation is Frontier),
    ensures
        planner::frontier_planned(continuation, facts, state, budget) is Err,
{
}

} // verus!
