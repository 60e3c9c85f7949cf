//! Laws of the admission policy that every stateful operator shares.

use vstd::prelude::*;

use crate::execution::contract::{self, AdmissionProgress, MAX_PROGRESS};
use crate::planner::WorkUsage;

verus! {

/// A quantum that was doubled so many times.
pub open spec fn doubled(quantum: nat, times: nat) -> nat
    decreases times,
{
    if times == 0 {
        quantum
    } else {
        2 * doubled(quantum, (times - 1) as nat)
    }
}

/// Whether a count is a drain threshold: the quantum doubled any number of
/// times below the cap, or a multiple of the cap.
pub open spec fn is_threshold(count: nat, quantum: nat, cap: nat) -> bool {
    ||| count < cap && exists|times: nat| #[trigger] doubled(quantum, times) == count
    ||| exists|intervals: nat| intervals > 0 && count == #[trigger] (intervals * cap)
}

proof fn doubling_grows(quantum: nat, less: nat, more: nat)
    requires
        quantum > 0,
        less < more,
    ensures
        2 * doubled(quantum, less) <= doubled(quantum, more),
    decreases more,
{
    if less + 1 < more {
        doubling_grows(quantum, less, (more - 1) as nat);
    }
}

/// The doubling search from a threshold finds the first one above `before`,
/// if every smaller threshold is at most `before`.
proof fn doubled_threshold_is_next(quantum: nat, cap: nat, before: nat, times: nat, start: nat)
    requires
        0 < quantum <= cap,
        before < cap,
        start == cap || start == doubled(quantum, times) && start < cap,
        forall|count: nat|
            #[trigger] is_threshold(count, quantum, cap) && count < start ==> count <= before,
    ensures
        is_threshold(contract::doubled_threshold(start, cap, before), quantum, cap),
        before < contract::doubled_threshold(start, cap, before) <= cap,
        forall|count: nat| #[trigger]
            is_threshold(count, quantum, cap) && before < count
                ==> contract::doubled_threshold(start, cap, before) <= count,
    decreases cap - start,
{
    assert(is_threshold(cap, quantum, cap)) by {
        assert(cap == 1 * cap);
    }
    assert(start > 0) by {
        if start != cap {
            doubled_is_positive(quantum, times);
        }
    }
    assert(is_threshold(start, quantum, cap));
    if start <= before && start < cap {
        let next = if 2 * start < cap {
            2 * start
        } else {
            cap
        };
        assert(2 * start == doubled(quantum, times + 1));
        assert forall|count: nat| #[trigger]
            is_threshold(count, quantum, cap) && count < next implies count <= before by {
            if count < cap && exists|at: nat| #[trigger] doubled(quantum, at) == count {
                let at = choose|at: nat| #[trigger] doubled(quantum, at) == count;
                if at > times {
                    doubling_grows(quantum, times, at);
                } else if at < times {
                    doubling_grows(quantum, at, times);
                }
            } else {
                let intervals = choose|intervals: nat|
                    intervals > 0 && count == #[trigger] (intervals * cap);
                assert(intervals * cap >= cap) by (nonlinear_arith)
                    requires
                        intervals > 0,
                ;
            }
        }
        doubled_threshold_is_next(quantum, cap, before, times + 1, next);
    }
}

proof fn doubled_is_positive(quantum: nat, times: nat)
    requires
        quantum > 0,
    ensures
        doubled(quantum, times) >= quantum,
    decreases times,
{
    if times > 0 {
        doubled_is_positive(quantum, (times - 1) as nat);
    }
}

/// The next drain threshold is the least threshold above the progress.
pub proof fn next_threshold_is_the_least_above(before: nat, quantum: nat, cap: nat)
    requires
        0 < quantum <= cap,
    ensures
        is_threshold(contract::next_threshold(before, quantum, cap), quantum, cap),
        before < contract::next_threshold(before, quantum, cap),
        forall|count: nat| #[trigger]
            is_threshold(count, quantum, cap) && before < count ==> contract::next_threshold(
                before,
                quantum,
                cap,
            ) <= count,
{
    if before < cap {
        assert forall|count: nat| #[trigger]
            is_threshold(count, quantum, cap) && count < quantum implies count <= before by {
            if count < cap && exists|at: nat| #[trigger] doubled(quantum, at) == count {
                let at = choose|at: nat| #[trigger] doubled(quantum, at) == count;
                doubled_is_positive(quantum, at);
            } else {
                let intervals = choose|intervals: nat|
                    intervals > 0 && count == #[trigger] (intervals * cap);
                assert(intervals * cap >= cap) by (nonlinear_arith)
                    requires
                        intervals > 0,
                ;
            }
        }
        assert(quantum == doubled(quantum, 0));
        doubled_threshold_is_next(quantum, cap, before, 0, quantum);
    } else {
        let intervals = (before / cap + 1) as nat;
        let next = contract::next_threshold(before, quantum, cap);
        assert(next == intervals * cap);
        assert(before < intervals * cap) by (nonlinear_arith)
            requires
                intervals == before / cap + 1,
                cap > 0,
        ;
        assert forall|count: nat| #[trigger]
            is_threshold(count, quantum, cap) && before < count implies next <= count by {
            let other = choose|other: nat| other > 0 && count == #[trigger] (other * cap);
            assert(other >= intervals) by (nonlinear_arith)
                requires
                    before < other * cap,
                    intervals == before / cap + 1,
                    cap > 0,
            ;
            assert(intervals * cap <= other * cap) by (nonlinear_arith)
                requires
                    intervals <= other,
            ;
        }
    }
}

/// A drain is due exactly when the progress reaches or passes a threshold, or
/// can grow no further.
pub proof fn drain_is_due_exactly_at_thresholds(
    before: u64,
    after: u64,
    quantum: usize,
    cap: usize,
    dimension: Seq<char>,
)
    requires
        0 < quantum <= cap,
        before <= after <= MAX_PROGRESS,
    ensures
        contract::crossing(before, after, quantum, cap, dimension) == Ok::<bool, Seq<char>>(
            after == MAX_PROGRESS || exists|count: nat|
                before < count <= after && #[trigger] is_threshold(
                    count,
                    quantum as nat,
                    cap as nat,
                ),
        ),
{
    next_threshold_is_the_least_above(before as nat, quantum as nat, cap as nat);
    let next = contract::next_threshold(before as nat, quantum as nat, cap as nat);
    if next <= after {
        assert(is_threshold(next, quantum as nat, cap as nat));
    }
}

/// However far the progress is, the next drain is at most one capped interval
/// away: unreconciled work is bounded.
pub proof fn drain_interval_is_bounded(before: nat, quantum: nat, cap: nat)
    requires
        0 < quantum <= cap,
    ensures
        before < contract::next_threshold(before, quantum, cap) <= before + cap,
{
    next_threshold_is_the_least_above(before, quantum, cap);
    let next = contract::next_threshold(before, quantum, cap);
    let intervals = (before / cap + 1) as nat;
    assert(before < intervals * cap <= before + cap) by (nonlinear_arith)
        requires
            intervals == before / cap + 1,
            cap > 0,
    ;
    assert(is_threshold(intervals * cap, quantum, cap));
    assert(next <= intervals * cap);
}

/// Progress adds up: two pages move it as far as one page with the sum of
/// their rows and bytes, and it never falls.
pub proof fn progress_adds_up(progress: AdmissionProgress, first: WorkUsage, second: WorkUsage, both: WorkUsage)
    requires
        progress.rows <= MAX_PROGRESS,
        progress.bytes <= MAX_PROGRESS,
        both.input_rows == first.input_rows + second.input_rows,
        both.input_bytes == first.input_bytes + second.input_bytes,
    ensures
        progress.admitted(first).admitted(second) == progress.admitted(both),
        progress.rows <= progress.admitted(first).rows <= MAX_PROGRESS,
        progress.bytes <= progress.admitted(first).bytes <= MAX_PROGRESS,
{
}

} // verus!
