//! The Distinct state machine: which database action comes next, and which
//! continuation commits with its measured result.

use vstd::prelude::*;

use crate::execution::contract::{
    InputPosition, KernelCompletion, KernelPhase, OutputFacts, PrimitiveFacts,
};
use crate::planner::WorkBudget;
use crate::text::{self, fail};

verus! {

#[derive(Clone, Copy, Debug, PartialEq, Eq, Structural)]
pub enum DistinctPhase {
    Apply,
    Drain,
    Frontier,
}

impl DistinctPhase {
    /// The phase that a transition reports.
    pub open spec fn lifecycle(self) -> KernelPhase {
        match self {
            DistinctPhase::Apply => KernelPhase::Admit,
            DistinctPhase::Drain => KernelPhase::Drain,
            DistinctPhase::Frontier => KernelPhase::Frontier,
        }
    }

    pub fn kernel_phase(self) -> (phase: KernelPhase)
        ensures
            phase == self.lifecycle(),
    {
        match self {
            DistinctPhase::Apply => KernelPhase::Admit,
            DistinctPhase::Drain => KernelPhase::Drain,
            DistinctPhase::Frontier => KernelPhase::Frontier,
        }
    }
}

#[derive(Clone, Copy, Debug, PartialEq, Eq, Structural)]
pub struct DistinctContinuation {
    pub input: InputPosition,
    pub phase: DistinctPhase,
}

#[derive(Clone, Copy, Debug, PartialEq, Eq, Structural)]
pub struct OccupancyDiff {
    /// Typed keys whose signed occupancy changed in the admitted prefix.
    pub touched_keys: u64,
    /// Durable external effects produced or queued by the primitive.
    pub external_effects: u64,
}

impl Default for OccupancyDiff {
    fn default() -> (diff: Self)
        ensures
            diff == (OccupancyDiff { touched_keys: 0, external_effects: 0 }),
    {
        Self { touched_keys: 0, external_effects: 0 }
    }
}

#[derive(Clone, Copy, Debug, PartialEq, Eq, Structural)]
pub enum DistinctAction {
    ApplyPrefix { input: InputPosition },
    DrainEffects { input: InputPosition },
    ForwardFrontier { input: InputPosition },
}

#[derive(Clone, Copy, Debug, PartialEq, Eq, Structural)]
pub struct AppliedPrefix {
    pub facts: PrimitiveFacts,
    pub occupancy: OccupancyDiff,
    /// `Some` resumes the same immutable chunk. `None` means the primitive
    /// atomically advanced the input consumer past the completed chunk.
    pub next: Option<DistinctContinuation>,
}

#[derive(Clone, Copy, Debug, PartialEq, Eq, Structural)]
pub enum DistinctActionResult {
    Applied(AppliedPrefix),
    Drained(AppliedPrefix),
    FrontierForwarded(PrimitiveFacts),
}

#[derive(Clone, Copy, Debug, PartialEq, Eq, Structural)]
pub enum DistinctTransition {
    Committed { continuation: Option<DistinctContinuation>, facts: PrimitiveFacts },
}

pub open spec fn input_sound(input: InputPosition) -> Result<(), Seq<char>> {
    text::holds(input.valid(), "Distinct input position is invalid"@)
}

pub fn validate_input(input: InputPosition) -> (outcome: Result<(), String>)
    ensures
        text::agrees(outcome, input_sound(input)),
{
    if input.stream_id <= 0 || input.chunk_seq <= 0 || input.row_ordinal < 0 {
        return fail("Distinct input position is invalid");
    }
    Ok(())
}

#[derive(Clone, Copy, Debug, PartialEq, Eq, Structural)]
pub struct DistinctMachine;

impl Default for DistinctMachine {
    fn default() -> (machine: Self)
        ensures
            machine == DistinctMachine,
    {
        DistinctMachine
    }
}

impl DistinctContinuation {
    /// Whether the continuation is one that the machine may commit.
    pub open spec fn sound(self) -> Result<(), Seq<char>> {
        text::both(
            input_sound(self.input),
            text::holds(
                !(self.phase is Frontier) || self.input.row_ordinal == 0,
                "Distinct frontier has a data-row position"@,
            ),
        )
    }

    /// The one action that the continuation stands for.
    pub open spec fn next_action(self) -> DistinctAction {
        match self.phase {
            DistinctPhase::Apply => DistinctAction::ApplyPrefix { input: self.input },
            DistinctPhase::Drain => DistinctAction::DrainEffects { input: self.input },
            DistinctPhase::Frontier => DistinctAction::ForwardFrontier { input: self.input },
        }
    }

    pub open spec fn drains(next: Option<DistinctContinuation>) -> bool {
        next matches Some(continuation) && continuation.phase is Drain
    }
}

/// The counts of one prefix agree: Apply consumes input, emits nothing, and
/// hands over to Drain exactly when it queued effects; Drain consumes nothing
/// and emits exactly the effects it reports.
pub open spec fn prefix_counts(page: AppliedPrefix, consumes_input: bool) -> Result<
    (),
    Seq<char>,
> {
    let usage = page.facts.usage;
    let occupancy = page.occupancy;
    text::both(
        text::holds(
            !consumes_input || usage.input_rows > 0,
            "Distinct prefix made no bounded input progress"@,
        ),
        text::both(
            text::holds(
                consumes_input || usage.input_rows == 0 && usage.input_bytes == 0,
                "Distinct drain consumed input"@,
            ),
            text::both(
                text::holds(
                    !consumes_input || occupancy.touched_keys <= usage.input_rows,
                    "Distinct typed occupancy summary is inconsistent"@,
                ),
                text::both(
                    text::holds(
                        !consumes_input || usage.output_rows == 0 && page.facts.output is Nothing
                            && (occupancy.external_effects > 0) == DistinctContinuation::drains(
                            page.next,
                        ),
                        "Distinct Apply/Drain handoff is inconsistent"@,
                    ),
                    text::both(
                        text::holds(
                            consumes_input || occupancy.external_effects == usage.output_rows,
                            "Distinct drain effect summary is inconsistent"@,
                        ),
                        text::holds(
                            match page.facts.output {
                                OutputFacts::Nothing => usage.output_rows == 0,
                                OutputFacts::Data { .. } => usage.output_rows > 0,
                                OutputFacts::Frontier { .. } => false,
                            },
                            "Distinct output chunk disagrees with its occupancy diff"@,
                        ),
                    ),
                ),
            ),
        ),
    )
}

/// The continuation stays in its chunk: Apply moves it forward, Drain does not
/// move it, and neither turns data into a frontier.
pub open spec fn prefix_advances(
    input: InputPosition,
    next: Option<DistinctContinuation>,
    consumes_input: bool,
) -> Result<(), Seq<char>> {
    match next {
        None => Ok(()),
        Some(next) => text::both(
            input_sound(next.input),
            text::holds(
                next.input.stream_id == input.stream_id && next.input.chunk_seq == input.chunk_seq
                    && (if consumes_input {
                    next.input.row_ordinal > input.row_ordinal
                } else {
                    next.input.row_ordinal == input.row_ordinal
                }) && !(next.phase is Frontier),
                "Distinct continuation did not advance its input"@,
            ),
        ),
    }
}

pub open spec fn prefix_applied(
    input: InputPosition,
    page: AppliedPrefix,
    budget: WorkBudget,
    consumes_input: bool,
) -> Result<DistinctTransition, Seq<char>> {
    text::guarded(
        text::both(
            prefix_counts(page, consumes_input),
            text::both(
                prefix_advances(input, page.next, consumes_input),
                page.facts.follows_protocol(
                    budget,
                    if consumes_input {
                        KernelPhase::Admit
                    } else {
                        KernelPhase::Drain
                    },
                    if page.next is Some {
                        KernelCompletion::Continue
                    } else {
                        KernelCompletion::Finished
                    },
                ),
            ),
        ),
        DistinctTransition::Committed { continuation: page.next, facts: page.facts },
    )
}

pub open spec fn frontier_applied(facts: PrimitiveFacts, budget: WorkBudget) -> Result<
    DistinctTransition,
    Seq<char>,
> {
    text::guarded(
        text::both(
            facts.follows_protocol(budget, KernelPhase::Frontier, KernelCompletion::Finished),
            text::holds(
                facts.output is Frontier && facts.usage.input_rows == 0
                    && facts.usage.input_bytes == 0 && facts.state_rows == 0,
                "Distinct frontier commit is inconsistent"@,
            ),
        ),
        DistinctTransition::Committed { continuation: None, facts },
    )
}

impl DistinctMachine {
    pub fn action(self, continuation: DistinctContinuation) -> (outcome: Result<
        DistinctAction,
        String,
    >)
        ensures
            text::agrees(
                outcome,
                text::guarded(continuation.sound(), continuation.next_action()),
            ),
    {
        validate_input(continuation.input)?;
        if continuation.phase == DistinctPhase::Frontier && continuation.input.row_ordinal != 0 {
            return fail("Distinct frontier has a data-row position");
        }
        Ok(
            match continuation.phase {
                DistinctPhase::Apply => DistinctAction::ApplyPrefix { input: continuation.input },
                DistinctPhase::Drain => DistinctAction::DrainEffects { input: continuation.input },
                DistinctPhase::Frontier => DistinctAction::ForwardFrontier {
                    input: continuation.input,
                },
            },
        )
    }

    /// The outcome of one committed transaction.
    pub open spec fn applied(
        continuation: DistinctContinuation,
        result: DistinctActionResult,
        budget: WorkBudget,
    ) -> Result<DistinctTransition, Seq<char>> {
        match continuation.sound() {
            Err(message) => Err(message),
            Ok(()) => match (continuation.phase, result) {
                (DistinctPhase::Apply, DistinctActionResult::Applied(page)) => prefix_applied(
                    continuation.input,
                    page,
                    budget,
                    true,
                ),
                (DistinctPhase::Drain, DistinctActionResult::Drained(page)) => prefix_applied(
                    continuation.input,
                    page,
                    budget,
                    false,
                ),
                (
                    DistinctPhase::Frontier,
                    DistinctActionResult::FrontierForwarded(facts),
                ) => frontier_applied(facts, budget),
                _ => Err("database returned facts for another Distinct phase"@),
            },
        }
    }

    /// Facts are applied only after their database transaction commits. A
    /// crash before commit leaves `continuation` authoritative and therefore
    /// proposes precisely the same action on restart.
    pub fn apply(
        self,
        continuation: DistinctContinuation,
        result: DistinctActionResult,
        budget: WorkBudget,
    ) -> (outcome: Result<DistinctTransition, String>)
        ensures
            text::agrees(outcome, Self::applied(continuation, result, budget)),
    {
        let expected = self.action(continuation)?;
        match (expected, result) {
            (
                DistinctAction::ApplyPrefix { input },
                DistinctActionResult::Applied(page),
            ) => self.apply_prefix(input, page, budget, true),
            (
                DistinctAction::DrainEffects { input },
                DistinctActionResult::Drained(page),
            ) => self.apply_prefix(input, page, budget, false),
            (
                DistinctAction::ForwardFrontier { .. },
                DistinctActionResult::FrontierForwarded(facts),
            ) => self.apply_frontier(facts, budget),
            _ => fail("database returned facts for another Distinct phase"),
        }
    }

    fn apply_prefix(
        self,
        input: InputPosition,
        page: AppliedPrefix,
        budget: WorkBudget,
        consumes_input: bool,
    ) -> (outcome: Result<DistinctTransition, String>)
        ensures
            text::agrees(outcome, prefix_applied(input, page, budget, consumes_input)),
    {
        if consumes_input && page.facts.usage.input_rows == 0 {
            return fail("Distinct prefix made no bounded input progress");
        }
        if !consumes_input && (page.facts.usage.input_rows != 0 || page.facts.usage.input_bytes
            != 0) {
            return fail("Distinct drain consumed input");
        }
        if consumes_input && page.occupancy.touched_keys > page.facts.usage.input_rows {
            return fail("Distinct typed occupancy summary is inconsistent");
        }
        let drains = match page.next {
            Some(next) => next.phase == DistinctPhase::Drain,
            None => false,
        };
        if consumes_input && (page.facts.usage.output_rows != 0 || !matches!(
            page.facts.output,
            OutputFacts::Nothing
        ) || (page.occupancy.external_effects > 0 && !drains) || (page.occupancy.external_effects
            == 0 && drains)) {
            return fail("Distinct Apply/Drain handoff is inconsistent");
        }
        if !consumes_input && page.occupancy.external_effects != page.facts.usage.output_rows {
            return fail("Distinct drain effect summary is inconsistent");
        }
        let output_agrees = match page.facts.output {
            OutputFacts::Nothing => page.facts.usage.output_rows == 0,
            OutputFacts::Data { .. } => page.facts.usage.output_rows > 0,
            OutputFacts::Frontier { .. } => false,
        };
        if !output_agrees {
            return fail("Distinct output chunk disagrees with its occupancy diff");
        }
        if let Some(next) = page.next {
            validate_input(next.input)?;
            if next.input.stream_id != input.stream_id || next.input.chunk_seq != input.chunk_seq
                || (consumes_input && next.input.row_ordinal <= input.row_ordinal) || (
            !consumes_input && next.input.row_ordinal != input.row_ordinal) || next.phase
                == DistinctPhase::Frontier {
                return fail("Distinct continuation did not advance its input");
            }
        }
        let phase = if consumes_input {
            KernelPhase::Admit
        } else {
            KernelPhase::Drain
        };
        let completion = if page.next.is_some() {
            KernelCompletion::Continue
        } else {
            KernelCompletion::Finished
        };
        page.facts.validate_protocol(budget, phase, completion)?;
        Ok(DistinctTransition::Committed { continuation: page.next, facts: page.facts })
    }

    fn apply_frontier(self, facts: PrimitiveFacts, budget: WorkBudget) -> (outcome: Result<
        DistinctTransition,
        String,
    >)
        ensures
            text::agrees(outcome, frontier_applied(facts, budget)),
    {
        facts.validate_protocol(budget, KernelPhase::Frontier, KernelCompletion::Finished)?;
        if !matches!(facts.output, OutputFacts::Frontier { .. }) || facts.usage.input_rows != 0
            || facts.usage.input_bytes != 0 || facts.state_rows != 0 {
            return fail("Distinct frontier commit is inconsistent");
        }
        Ok(DistinctTransition::Committed { continuation: None, facts })
    }
}

} // verus!
