//! The Aggregate state machine: which database action comes next, and which
//! continuation commits with its measured result.

use vstd::prelude::*;

use crate::execution::contract::{
    InputPosition, KernelCompletion, KernelPhase, OutputFacts, PageFacts, PrimitiveFacts,
};
use crate::planner::WorkBudget;
use crate::text::{self, fail};

verus! {

/// What follows one complete drain of the durable dirty-group queue.
#[derive(Clone, Copy, Debug, PartialEq, Eq, Structural)]
pub enum AfterDrain {
    /// Resume a partially consumed immutable input chunk.
    Apply(InputPosition),
    /// The completed input chunk was already released by Apply.
    Idle,
    /// Forward this frontier only after every dirty group is published.
    Frontier(InputPosition),
}

#[derive(Clone, Copy, Debug, PartialEq, Eq, Structural)]
pub enum EmitLeg {
    /// Compare the published typed output with the newly materialized result.
    /// A replacement retracts the old row and persists the pending new row in
    /// this transaction.
    Decide,
    /// Emit the already persisted typed pending row. This is deliberately a
    /// separate transaction so a one-row output budget is sufficient.
    InsertPending,
}

#[derive(Clone, Copy, Debug, PartialEq, Eq, Structural)]
pub enum AggregatePhase {
    Apply,
    DrainRebuild { group_queue_id: i64, aggregate_ordinal: u32, after: AfterDrain },
    DrainEmit { group_queue_id: i64, leg: EmitLeg, after: AfterDrain },
    Frontier,
}

impl AggregatePhase {
    /// The phase that a transition reports.
    pub open spec fn lifecycle(self) -> KernelPhase {
        match self {
            AggregatePhase::Apply => KernelPhase::Admit,
            AggregatePhase::DrainRebuild { .. } | AggregatePhase::DrainEmit { .. } =>
                KernelPhase::Drain,
            AggregatePhase::Frontier => KernelPhase::Frontier,
        }
    }

    pub fn kernel_phase(self) -> (phase: KernelPhase)
        ensures
            phase == self.lifecycle(),
    {
        match self {
            AggregatePhase::Apply => KernelPhase::Admit,
            AggregatePhase::DrainRebuild { .. } | AggregatePhase::DrainEmit { .. } =>
                KernelPhase::Drain,
            AggregatePhase::Frontier => KernelPhase::Frontier,
        }
    }
}

#[derive(Clone, Copy, Debug, PartialEq, Eq, Structural)]
pub struct AggregateContinuation {
    pub input_stream_id: i64,
    pub input: Option<InputPosition>,
    pub phase: AggregatePhase,
}

#[derive(Clone, Copy, Debug, PartialEq, Eq, Structural)]
pub enum AggregateAction {
    Apply { input: InputPosition },
    DrainRebuild { group_queue_id: i64, aggregate_ordinal: u32 },
    PrepareOutput { group_queue_id: i64 },
    EmitPending { group_queue_id: i64 },
    ForwardFrontier { input: InputPosition },
}

#[derive(Clone, Copy, Debug, PartialEq, Eq, Structural)]
pub enum ApplyTarget {
    Continue(InputPosition),
    Drain { first_group_queue_id: i64, after: AfterDrain },
    Idle,
}

#[derive(Clone, Copy, Debug, PartialEq, Eq, Structural)]
pub struct AppliedPage {
    pub facts: PrimitiveFacts,
    pub target: ApplyTarget,
}

#[derive(Clone, Copy, Debug, PartialEq, Eq, Structural)]
pub struct RebuiltPage {
    pub page: PageFacts,
    pub facts: PrimitiveFacts,
}

#[derive(Clone, Copy, Debug, PartialEq, Eq, Structural)]
pub enum PreparedOutput {
    Unchanged { facts: PrimitiveFacts, next_group_queue_id: Option<i64> },
    Inserted { facts: PrimitiveFacts, next_group_queue_id: Option<i64> },
    Deleted { facts: PrimitiveFacts, next_group_queue_id: Option<i64> },
    /// The transaction emitted old `-1` and persisted the typed pending row.
    /// It must not also emit new `+1`.
    ReplacementRetracted { facts: PrimitiveFacts },
}

#[derive(Clone, Copy, Debug, PartialEq, Eq, Structural)]
pub struct PendingOutput {
    pub facts: PrimitiveFacts,
    pub next_group_queue_id: Option<i64>,
}

#[derive(Clone, Copy, Debug, PartialEq, Eq, Structural)]
pub enum FrontierResult {
    Forwarded { facts: PrimitiveFacts },
    GlobalGroupQueued { facts: PrimitiveFacts, group_queue_id: i64 },
}

#[derive(Clone, Copy, Debug, PartialEq, Eq, Structural)]
pub enum AggregateActionResult {
    Applied(AppliedPage),
    Rebuilt(RebuiltPage),
    OutputPrepared(PreparedOutput),
    PendingEmitted(PendingOutput),
    Frontier(FrontierResult),
}

#[derive(Clone, Copy, Debug, PartialEq, Eq, Structural)]
pub enum AggregateTransition {
    Committed { continuation: Option<AggregateContinuation>, facts: PrimitiveFacts },
}

pub open spec fn queue_id_sound(queue_id: i64) -> Result<(), Seq<char>> {
    text::holds(queue_id > 0, "Aggregate dirty-group queue id is not positive"@)
}

pub fn validate_queue_id(queue_id: i64) -> (outcome: Result<(), String>)
    ensures
        text::agrees(outcome, queue_id_sound(queue_id)),
{
    if queue_id <= 0 {
        return fail("Aggregate dirty-group queue id is not positive");
    }
    Ok(())
}

pub open spec fn input_sound(input: InputPosition) -> Result<(), Seq<char>> {
    text::holds(input.valid(), "Aggregate input position is invalid"@)
}

pub fn validate_input(input: InputPosition) -> (outcome: Result<(), String>)
    ensures
        text::agrees(outcome, input_sound(input)),
{
    if input.stream_id <= 0 || input.chunk_seq <= 0 || input.row_ordinal < 0 {
        return fail("Aggregate input position is invalid");
    }
    Ok(())
}

/// A drain target stays on its input stream; a frontier has no data row.
pub open spec fn after_sound(input_stream_id: i64, after: AfterDrain) -> Result<(), Seq<char>> {
    text::both(
        text::holds(
            input_stream_id > 0,
            "Aggregate Drain target has an invalid input stream"@,
        ),
        match after {
            AfterDrain::Apply(input) => text::both(
                input_sound(input),
                text::holds(
                    input.stream_id == input_stream_id,
                    "Aggregate Drain target changed its input stream"@,
                ),
            ),
            AfterDrain::Idle => Ok(()),
            AfterDrain::Frontier(frontier) => text::both(
                input_sound(frontier),
                text::holds(
                    frontier.stream_id == input_stream_id && frontier.row_ordinal == 0,
                    "Aggregate Drain has an invalid frontier target"@,
                ),
            ),
        },
    )
}

pub fn validate_after_drain(input_stream_id: i64, after: AfterDrain) -> (outcome: Result<
    (),
    String,
>)
    ensures
        text::agrees(outcome, after_sound(input_stream_id, after)),
{
    if input_stream_id <= 0 {
        return fail("Aggregate Drain target has an invalid input stream");
    }
    match after {
        AfterDrain::Apply(input) => {
            validate_input(input)?;
            if input.stream_id != input_stream_id {
                return fail("Aggregate Drain target changed its input stream");
            }
        },
        AfterDrain::Idle => {},
        AfterDrain::Frontier(frontier) => {
            validate_input(frontier)?;
            if frontier.stream_id != input_stream_id || frontier.row_ordinal != 0 {
                return fail("Aggregate Drain has an invalid frontier target");
            }
        },
    }
    Ok(())
}

/// An internal phase reports no output, and input only where it may.
pub open spec fn internal_sound(facts: PrimitiveFacts, permits_input: bool) -> Result<
    (),
    Seq<char>,
> {
    text::holds(
        facts.output is Nothing && facts.usage.output_rows == 0 && facts.usage.output_bytes == 0
            && (permits_input || facts.usage.input_rows == 0 && facts.usage.input_bytes == 0),
        "Aggregate internal phase reported external effects"@,
    )
}

pub fn validate_internal_page(facts: PrimitiveFacts, permits_input: bool) -> (outcome: Result<
    (),
    String,
>)
    ensures
        text::agrees(outcome, internal_sound(facts, permits_input)),
{
    if facts.output != OutputFacts::Nothing || facts.usage.output_rows != 0
        || facts.usage.output_bytes != 0 || (!permits_input && (facts.usage.input_rows != 0
        || facts.usage.input_bytes != 0)) {
        return fail("Aggregate internal phase reported external effects");
    }
    Ok(())
}

pub open spec fn no_effect(facts: PrimitiveFacts) -> Result<(), Seq<char>> {
    text::holds(
        facts.output is Nothing && facts.usage == crate::planner::no_usage(),
        "unchanged Aggregate group emitted an effect"@,
    )
}

pub fn validate_no_output(facts: PrimitiveFacts) -> (outcome: Result<(), String>)
    ensures
        text::agrees(outcome, no_effect(facts)),
{
    if facts.output != OutputFacts::Nothing || facts.usage.input_rows != 0
        || facts.usage.input_bytes != 0 || facts.usage.output_rows != 0
        || facts.usage.output_bytes != 0 {
        return fail("unchanged Aggregate group emitted an effect");
    }
    Ok(())
}

pub open spec fn one_effect(facts: PrimitiveFacts) -> Result<(), Seq<char>> {
    text::holds(
        facts.output is Data && facts.usage.input_rows == 0 && facts.usage.input_bytes == 0
            && facts.usage.output_rows == 1 && facts.usage.output_bytes > 0,
        "Aggregate emission must contain exactly one typed effect row"@,
    )
}

pub fn validate_one_effect(facts: PrimitiveFacts) -> (outcome: Result<(), String>)
    ensures
        text::agrees(outcome, one_effect(facts)),
{
    if !matches!(facts.output, OutputFacts::Data { .. }) || facts.usage.input_rows != 0
        || facts.usage.input_bytes != 0 || facts.usage.output_rows != 1
        || facts.usage.output_bytes == 0 {
        return fail("Aggregate emission must contain exactly one typed effect row");
    }
    Ok(())
}

/// A plan-local state machine. `aggregate_count` is immutable plan metadata,
/// not continuation state.
#[derive(Clone, Copy, Debug, PartialEq, Eq, Structural)]
pub struct AggregateMachine {
    pub aggregate_count: u32,
}

impl AggregateMachine {
    pub fn new(aggregate_count: u32) -> (outcome: Result<Self, String>)
        ensures
            text::agrees(
                outcome,
                text::guarded(
                    text::holds(
                        aggregate_count > 0,
                        "Aggregate must contain at least one aggregate expression"@,
                    ),
                    AggregateMachine { aggregate_count },
                ),
            ),
    {
        if aggregate_count == 0 {
            return fail("Aggregate must contain at least one aggregate expression");
        }
        Ok(Self { aggregate_count })
    }

    /// Whether a continuation is one that this machine may commit.
    pub open spec fn accepts(self, continuation: AggregateContinuation) -> Result<(), Seq<char>> {
        text::both(
            text::holds(
                continuation.input_stream_id > 0 && (continuation.input matches Some(input)
                    ==> input.stream_id == continuation.input_stream_id),
                "Aggregate continuation has an invalid input stream"@,
            ),
            match continuation.phase {
                AggregatePhase::Apply => match continuation.input {
                    None => Err("Aggregate Apply omitted its input cursor"@),
                    Some(input) => input_sound(input),
                },
                AggregatePhase::Frontier => match continuation.input {
                    None => Err("Aggregate frontier omitted its input cursor"@),
                    Some(input) => text::both(
                        input_sound(input),
                        text::holds(
                            input.row_ordinal == 0,
                            "Aggregate frontier has a data-row position"@,
                        ),
                    ),
                },
                AggregatePhase::DrainRebuild {
                    group_queue_id,
                    aggregate_ordinal,
                    after,
                } => text::both(
                    queue_id_sound(group_queue_id),
                    text::both(
                        text::holds(
                            0 < aggregate_ordinal <= self.aggregate_count,
                            "Aggregate ordinal is outside its plan"@,
                        ),
                        text::both(
                            text::holds(
                                continuation.input is None,
                                "Aggregate Drain retained an input cursor"@,
                            ),
                            after_sound(continuation.input_stream_id, after),
                        ),
                    ),
                ),
                AggregatePhase::DrainEmit { group_queue_id, leg: _, after } => text::both(
                    queue_id_sound(group_queue_id),
                    text::both(
                        text::holds(
                            continuation.input is None,
                            "Aggregate Drain retained an input cursor"@,
                        ),
                        after_sound(continuation.input_stream_id, after),
                    ),
                ),
            },
        )
    }

    pub fn validate_continuation(self, continuation: AggregateContinuation) -> (outcome: Result<
        (),
        String,
    >)
        ensures
            text::agrees(outcome, self.accepts(continuation)),
    {
        let other_stream = match continuation.input {
            Some(input) => input.stream_id != continuation.input_stream_id,
            None => false,
        };
        if continuation.input_stream_id <= 0 || other_stream {
            return fail("Aggregate continuation has an invalid input stream");
        }
        match continuation.phase {
            AggregatePhase::Apply => match continuation.input {
                None => fail("Aggregate Apply omitted its input cursor"),
                Some(input) => validate_input(input),
            },
            AggregatePhase::Frontier => match continuation.input {
                None => fail("Aggregate frontier omitted its input cursor"),
                Some(input) => {
                    validate_input(input)?;
                    if input.row_ordinal != 0 {
                        return fail("Aggregate frontier has a data-row position");
                    }
                    Ok(())
                },
            },
            AggregatePhase::DrainRebuild { group_queue_id, aggregate_ordinal, after } => {
                validate_queue_id(group_queue_id)?;
                if aggregate_ordinal == 0 || aggregate_ordinal > self.aggregate_count {
                    return fail("Aggregate ordinal is outside its plan");
                }
                if continuation.input.is_some() {
                    return fail("Aggregate Drain retained an input cursor");
                }
                validate_after_drain(continuation.input_stream_id, after)
            },
            AggregatePhase::DrainEmit { group_queue_id, leg: _, after } => {
                validate_queue_id(group_queue_id)?;
                if continuation.input.is_some() {
                    return fail("Aggregate Drain retained an input cursor");
                }
                validate_after_drain(continuation.input_stream_id, after)
            },
        }
    }

    /// The one action that an accepted continuation stands for.
    pub open spec fn next_action(continuation: AggregateContinuation) -> AggregateAction {
        match continuation.phase {
            AggregatePhase::Apply => AggregateAction::Apply { input: continuation.input->0 },
            AggregatePhase::DrainRebuild {
                group_queue_id,
                aggregate_ordinal,
                after: _,
            } => AggregateAction::DrainRebuild { group_queue_id, aggregate_ordinal },
            AggregatePhase::DrainEmit { group_queue_id, leg, after: _ } => if leg is Decide {
                AggregateAction::PrepareOutput { group_queue_id }
            } else {
                AggregateAction::EmitPending { group_queue_id }
            },
            AggregatePhase::Frontier => AggregateAction::ForwardFrontier {
                input: continuation.input->0,
            },
        }
    }

    pub fn action(self, continuation: AggregateContinuation) -> (outcome: Result<
        AggregateAction,
        String,
    >)
        ensures
            text::agrees(
                outcome,
                text::guarded(self.accepts(continuation), Self::next_action(continuation)),
            ),
    {
        self.validate_continuation(continuation)?;
        Ok(
            match continuation.phase {
                AggregatePhase::Apply => AggregateAction::Apply {
                    input: continuation.input.unwrap(),
                },
                AggregatePhase::DrainRebuild {
                    group_queue_id,
                    aggregate_ordinal,
                    after: _,
                } => AggregateAction::DrainRebuild { group_queue_id, aggregate_ordinal },
                AggregatePhase::DrainEmit { group_queue_id, leg, after: _ } => match leg {
                    EmitLeg::Decide => AggregateAction::PrepareOutput { group_queue_id },
                    EmitLeg::InsertPending => AggregateAction::EmitPending { group_queue_id },
                },
                AggregatePhase::Frontier => AggregateAction::ForwardFrontier {
                    input: continuation.input.unwrap(),
                },
            },
        )
    }

    /// The outcome of one committed transaction.
    pub open spec fn applied(
        self,
        continuation: AggregateContinuation,
        result: AggregateActionResult,
        budget: WorkBudget,
    ) -> Result<AggregateTransition, Seq<char>> {
        match self.accepts(continuation) {
            Err(message) => Err(message),
            Ok(()) => match (continuation.phase, result) {
                (
                    AggregatePhase::Apply,
                    AggregateActionResult::Applied(applied),
                ) => self.page_applied(continuation.input->0, applied, budget),
                (
                    AggregatePhase::DrainRebuild { .. },
                    AggregateActionResult::Rebuilt(rebuilt),
                ) => self.rebuild_applied(continuation, rebuilt, budget),
                (
                    AggregatePhase::DrainEmit { group_queue_id, leg, after },
                    AggregateActionResult::OutputPrepared(prepared),
                ) => if leg is Decide {
                    Self::prepared_applied(continuation, prepared, budget)
                } else {
                    Err("database returned facts for another Aggregate phase"@)
                },
                (
                    AggregatePhase::DrainEmit { group_queue_id, leg, after },
                    AggregateActionResult::PendingEmitted(emitted),
                ) => if leg is InsertPending {
                    Self::pending_applied(continuation, emitted, budget)
                } else {
                    Err("database returned facts for another Aggregate phase"@)
                },
                (
                    AggregatePhase::Frontier,
                    AggregateActionResult::Frontier(frontier),
                ) => Self::frontier_applied(continuation, frontier, budget),
                _ => Err("database returned facts for another Aggregate phase"@),
            },
        }
    }

    /// Apply facts from one transaction. Until that transaction commits,
    /// callers must retain `continuation`; replay therefore proposes the same
    /// action. Only the returned continuation is valid after commit.
    pub fn apply(
        self,
        continuation: AggregateContinuation,
        result: AggregateActionResult,
        budget: WorkBudget,
    ) -> (outcome: Result<AggregateTransition, String>)
        ensures
            text::agrees(outcome, self.applied(continuation, result, budget)),
    {
        let expected = self.action(continuation)?;
        match (expected, result) {
            (
                AggregateAction::Apply { input },
                AggregateActionResult::Applied(applied),
            ) => self.apply_page(input, applied, budget),
            (
                AggregateAction::DrainRebuild { .. },
                AggregateActionResult::Rebuilt(rebuilt),
            ) => self.apply_rebuild(continuation, rebuilt, budget),
            (
                AggregateAction::PrepareOutput { .. },
                AggregateActionResult::OutputPrepared(prepared),
            ) => self.apply_prepared_output(continuation, prepared, budget),
            (
                AggregateAction::EmitPending { .. },
                AggregateActionResult::PendingEmitted(emitted),
            ) => self.apply_pending_output(continuation, emitted, budget),
            (
                AggregateAction::ForwardFrontier { .. },
                AggregateActionResult::Frontier(frontier),
            ) => self.apply_frontier(continuation, frontier, budget),
            _ => fail("database returned facts for another Aggregate phase"),
        }
    }

    /// What follows one admitted page: more of the same chunk, a drain of the
    /// first dirty group, or nothing.
    pub open spec fn page_target(input: InputPosition, target: ApplyTarget) -> Result<
        Option<AggregateContinuation>,
        Seq<char>,
    > {
        match target {
            ApplyTarget::Continue(next_input) => text::guarded(
                text::both(
                    input_sound(next_input),
                    text::holds(
                        next_input.stream_id == input.stream_id && next_input.chunk_seq
                            == input.chunk_seq && next_input.row_ordinal > input.row_ordinal,
                        "Aggregate Apply continuation did not advance its page"@,
                    ),
                ),
                Some(
                    AggregateContinuation {
                        input_stream_id: input.stream_id,
                        input: Some(next_input),
                        phase: AggregatePhase::Apply,
                    },
                ),
            ),
            ApplyTarget::Drain { first_group_queue_id, after } => text::guarded(
                text::both(
                    queue_id_sound(first_group_queue_id),
                    after_sound(input.stream_id, after),
                ),
                Some(
                    AggregateContinuation {
                        input_stream_id: input.stream_id,
                        input: None,
                        phase: AggregatePhase::DrainRebuild {
                            group_queue_id: first_group_queue_id,
                            aggregate_ordinal: 1,
                            after,
                        },
                    },
                ),
            ),
            ApplyTarget::Idle => Ok(None),
        }
    }

    pub open spec fn page_applied(
        self,
        input: InputPosition,
        applied: AppliedPage,
        budget: WorkBudget,
    ) -> Result<AggregateTransition, Seq<char>> {
        match text::both(
            applied.facts.sound(budget),
            text::both(
                internal_sound(applied.facts, true),
                text::holds(
                    applied.facts.usage.input_rows > 0,
                    "Aggregate Apply made no bounded input progress"@,
                ),
            ),
        ) {
            Err(message) => Err(message),
            Ok(()) => match Self::page_target(input, applied.target) {
                Err(message) => Err(message),
                Ok(next) => text::guarded(
                    match next {
                        Some(next) => self.accepts(next),
                        None => Ok(()),
                    },
                    AggregateTransition::Committed { continuation: next, facts: applied.facts },
                ),
            },
        }
    }

    fn apply_page(
        self,
        input: InputPosition,
        applied: AppliedPage,
        budget: WorkBudget,
    ) -> (outcome: Result<AggregateTransition, String>)
        ensures
            text::agrees(outcome, self.page_applied(input, applied, budget)),
    {
        applied.facts.validate(budget)?;
        validate_internal_page(applied.facts, true)?;
        if applied.facts.usage.input_rows == 0 {
            return fail("Aggregate Apply made no bounded input progress");
        }
        let next = match applied.target {
            ApplyTarget::Continue(next_input) => {
                validate_input(next_input)?;
                if next_input.stream_id != input.stream_id || next_input.chunk_seq
                    != input.chunk_seq || next_input.row_ordinal <= input.row_ordinal {
                    return fail("Aggregate Apply continuation did not advance its page");
                }
                Some(
                    AggregateContinuation {
                        input_stream_id: input.stream_id,
                        input: Some(next_input),
                        phase: AggregatePhase::Apply,
                    },
                )
            },
            ApplyTarget::Drain { first_group_queue_id, after } => {
                validate_queue_id(first_group_queue_id)?;
                validate_after_drain(input.stream_id, after)?;
                Some(
                    AggregateContinuation {
                        input_stream_id: input.stream_id,
                        input: None,
                        phase: AggregatePhase::DrainRebuild {
                            group_queue_id: first_group_queue_id,
                            aggregate_ordinal: 1,
                            after,
                        },
                    },
                )
            },
            ApplyTarget::Idle => None,
        };
        if let Some(next) = next {
            self.validate_continuation(next)?;
        }
        Ok(AggregateTransition::Committed { continuation: next, facts: applied.facts })
    }

    /// The phase after one rebuild page: the same aggregate until it is
    /// complete, then the next one, then the output decision.
    pub open spec fn rebuilt_phase(self, phase: AggregatePhase, complete: bool) -> AggregatePhase {
        match phase {
            AggregatePhase::DrainRebuild { group_queue_id, aggregate_ordinal, after } => if !complete {
                phase
            } else if aggregate_ordinal < self.aggregate_count {
                AggregatePhase::DrainRebuild {
                    group_queue_id,
                    aggregate_ordinal: (aggregate_ordinal + 1) as u32,
                    after,
                }
            } else {
                AggregatePhase::DrainEmit { group_queue_id, leg: EmitLeg::Decide, after }
            },
            _ => phase,
        }
    }

    pub open spec fn rebuild_applied(
        self,
        continuation: AggregateContinuation,
        rebuilt: RebuiltPage,
        budget: WorkBudget,
    ) -> Result<AggregateTransition, Seq<char>> {
        let page = rebuilt.page;
        text::guarded(
            text::both(
                page.sound(budget),
                text::both(
                    rebuilt.facts.sound(budget),
                    text::both(
                        text::holds(
                            rebuilt.facts.usage == page.usage && rebuilt.facts.output is Nothing
                                && rebuilt.facts.state_rows > 0,
                            "Aggregate rebuild primitive facts are inconsistent"@,
                        ),
                        text::both(
                            text::holds(
                                page.usage.output_rows == 0 && page.usage.output_bytes == 0,
                                "Aggregate rebuild emitted output"@,
                            ),
                            text::both(
                                text::holds(
                                    page.complete || page.usage.input_rows > 0,
                                    "partial Aggregate rebuild made no bounded progress"@,
                                ),
                                text::holds(
                                    page.last_row_id matches Some(row_id) ==> row_id > 0,
                                    "Aggregate rebuild returned a non-positive row cursor"@,
                                ),
                            ),
                        ),
                    ),
                ),
            ),
            AggregateTransition::Committed {
                continuation: Some(
                    AggregateContinuation {
                        input_stream_id: continuation.input_stream_id,
                        input: None,
                        phase: self.rebuilt_phase(continuation.phase, page.complete),
                    },
                ),
                facts: rebuilt.facts,
            },
        )
    }

    fn apply_rebuild(
        self,
        continuation: AggregateContinuation,
        rebuilt: RebuiltPage,
        budget: WorkBudget,
    ) -> (outcome: Result<AggregateTransition, String>)
        requires
            self.accepts(continuation) is Ok,
            continuation.phase is DrainRebuild,
        ensures
            text::agrees(outcome, self.rebuild_applied(continuation, rebuilt, budget)),
    {
        let page = rebuilt.page;
        page.validate(budget)?;
        rebuilt.facts.validate(budget)?;
        if rebuilt.facts.usage != page.usage || rebuilt.facts.output != OutputFacts::Nothing
            || rebuilt.facts.state_rows == 0 {
            return fail("Aggregate rebuild primitive facts are inconsistent");
        }
        if page.usage.output_rows != 0 || page.usage.output_bytes != 0 {
            return fail("Aggregate rebuild emitted output");
        }
        if !page.complete && page.usage.input_rows == 0 {
            return fail("partial Aggregate rebuild made no bounded progress");
        }
        if let Some(row_id) = page.last_row_id {
            if row_id <= 0 {
                return fail("Aggregate rebuild returned a non-positive row cursor");
            }
        }
        let mut next_phase = continuation.phase;
        if page.complete {
            if let AggregatePhase::DrainRebuild { group_queue_id, aggregate_ordinal, after } =
                continuation.phase {
                next_phase =
                if aggregate_ordinal < self.aggregate_count {
                    AggregatePhase::DrainRebuild {
                        group_queue_id,
                        aggregate_ordinal: aggregate_ordinal + 1,
                        after,
                    }
                } else {
                    AggregatePhase::DrainEmit { group_queue_id, leg: EmitLeg::Decide, after }
                };
            }
        }
        let next = AggregateContinuation {
            input_stream_id: continuation.input_stream_id,
            input: None,
            phase: next_phase,
        };
        Ok(AggregateTransition::Committed { continuation: Some(next), facts: rebuilt.facts })
    }

    /// The continuation after a group whose output is settled: the next dirty
    /// group, or what the drain was for.
    pub open spec fn after_group(
        input_stream_id: i64,
        completed_queue_id: i64,
        next_group_queue_id: Option<i64>,
        after: AfterDrain,
    ) -> Result<Option<AggregateContinuation>, Seq<char>> {
        match next_group_queue_id {
            Some(next_queue_id) => text::guarded(
                text::both(
                    queue_id_sound(next_queue_id),
                    text::holds(
                        next_queue_id > completed_queue_id,
                        "Aggregate dirty-group queue did not advance"@,
                    ),
                ),
                Some(
                    AggregateContinuation {
                        input_stream_id,
                        input: None,
                        phase: AggregatePhase::DrainRebuild {
                            group_queue_id: next_queue_id,
                            aggregate_ordinal: 1,
                            after,
                        },
                    },
                ),
            ),
            None => Ok(Self::drained(input_stream_id, after)),
        }
    }

    /// The continuation once the dirty-group queue is empty.
    pub open spec fn drained(input_stream_id: i64, after: AfterDrain) -> Option<
        AggregateContinuation,
    > {
        match after {
            AfterDrain::Apply(next_input) => Some(
                AggregateContinuation {
                    input_stream_id,
                    input: Some(next_input),
                    phase: AggregatePhase::Apply,
                },
            ),
            AfterDrain::Idle => None,
            AfterDrain::Frontier(frontier) => Some(
                AggregateContinuation {
                    input_stream_id,
                    input: Some(frontier),
                    phase: AggregatePhase::Frontier,
                },
            ),
        }
    }

    pub fn after_drained(input_stream_id: i64, after: AfterDrain) -> (next: Option<
        AggregateContinuation,
    >)
        ensures
            next == Self::drained(input_stream_id, after),
    {
        match after {
            AfterDrain::Apply(next_input) => Some(
                AggregateContinuation {
                    input_stream_id,
                    input: Some(next_input),
                    phase: AggregatePhase::Apply,
                },
            ),
            AfterDrain::Idle => None,
            AfterDrain::Frontier(frontier) => Some(
                AggregateContinuation {
                    input_stream_id,
                    input: Some(frontier),
                    phase: AggregatePhase::Frontier,
                },
            ),
        }
    }

    fn after_completed_group(
        self,
        input_stream_id: i64,
        completed_queue_id: i64,
        next_group_queue_id: Option<i64>,
        after: AfterDrain,
    ) -> (outcome: Result<Option<AggregateContinuation>, String>)
        ensures
            text::agrees(
                outcome,
                Self::after_group(input_stream_id, completed_queue_id, next_group_queue_id, after),
            ),
    {
        if let Some(next_queue_id) = next_group_queue_id {
            validate_queue_id(next_queue_id)?;
            if next_queue_id <= completed_queue_id {
                return fail("Aggregate dirty-group queue did not advance");
            }
            return Ok(
                Some(
                    AggregateContinuation {
                        input_stream_id,
                        input: None,
                        phase: AggregatePhase::DrainRebuild {
                            group_queue_id: next_queue_id,
                            aggregate_ordinal: 1,
                            after,
                        },
                    },
                ),
            );
        }
        Ok(Self::after_drained(input_stream_id, after))
    }

    pub open spec fn prepared_facts(prepared: PreparedOutput) -> PrimitiveFacts {
        match prepared {
            PreparedOutput::Unchanged { facts, .. } => facts,
            PreparedOutput::Inserted { facts, .. } => facts,
            PreparedOutput::Deleted { facts, .. } => facts,
            PreparedOutput::ReplacementRetracted { facts } => facts,
        }
    }

    /// Whether a prepared output reports its one effect, or none when nothing
    /// changed.
    pub open spec fn prepared_sound(prepared: PreparedOutput) -> Result<(), Seq<char>> {
        match prepared {
            PreparedOutput::Unchanged { facts, .. } => no_effect(facts),
            _ => one_effect(Self::prepared_facts(prepared)),
        }
    }

    /// A replacement persists its second leg; every other decision completes
    /// the group.
    pub open spec fn prepared_applied(
        continuation: AggregateContinuation,
        prepared: PreparedOutput,
        budget: WorkBudget,
    ) -> Result<AggregateTransition, Seq<char>> {
        let facts = Self::prepared_facts(prepared);
        match (
            text::both(Self::prepared_sound(prepared), facts.sound(budget)),
            continuation.phase,
        ) {
            (Err(message), _) => Err(message),
            (Ok(()), AggregatePhase::DrainEmit { group_queue_id, leg: _, after }) => {
                let next = match prepared {
                    PreparedOutput::ReplacementRetracted { .. } => Ok(
                        Some(
                            AggregateContinuation {
                                input_stream_id: continuation.input_stream_id,
                                input: None,
                                phase: AggregatePhase::DrainEmit {
                                    group_queue_id,
                                    leg: EmitLeg::InsertPending,
                                    after,
                                },
                            },
                        ),
                    ),
                    PreparedOutput::Unchanged { next_group_queue_id, .. } => Self::after_group(
                        continuation.input_stream_id,
                        group_queue_id,
                        next_group_queue_id,
                        after,
                    ),
                    PreparedOutput::Inserted { next_group_queue_id, .. } => Self::after_group(
                        continuation.input_stream_id,
                        group_queue_id,
                        next_group_queue_id,
                        after,
                    ),
                    PreparedOutput::Deleted { next_group_queue_id, .. } => Self::after_group(
                        continuation.input_stream_id,
                        group_queue_id,
                        next_group_queue_id,
                        after,
                    ),
                };
                match next {
                    Ok(next) => Ok(AggregateTransition::Committed { continuation: next, facts }),
                    Err(message) => Err(message),
                }
            },
            (Ok(()), _) => Err("database returned facts for another Aggregate phase"@),
        }
    }

    fn apply_prepared_output(
        self,
        continuation: AggregateContinuation,
        prepared: PreparedOutput,
        budget: WorkBudget,
    ) -> (outcome: Result<AggregateTransition, String>)
        ensures
            text::agrees(outcome, Self::prepared_applied(continuation, prepared, budget)),
    {
        let (facts, completed_group): (PrimitiveFacts, Option<Option<i64>>) = match prepared {
            PreparedOutput::Unchanged { facts, next_group_queue_id } => {
                validate_no_output(facts)?;
                (facts, Some(next_group_queue_id))
            },
            PreparedOutput::Inserted { facts, next_group_queue_id } => {
                validate_one_effect(facts)?;
                (facts, Some(next_group_queue_id))
            },
            PreparedOutput::Deleted { facts, next_group_queue_id } => {
                validate_one_effect(facts)?;
                (facts, Some(next_group_queue_id))
            },
            PreparedOutput::ReplacementRetracted { facts } => {
                validate_one_effect(facts)?;
                (facts, None)
            },
        };
        facts.validate(budget)?;
        match continuation.phase {
            AggregatePhase::DrainEmit { group_queue_id, leg: _, after } => {
                let next = match completed_group {
                    None => Some(
                        AggregateContinuation {
                            input_stream_id: continuation.input_stream_id,
                            input: None,
                            phase: AggregatePhase::DrainEmit {
                                group_queue_id,
                                leg: EmitLeg::InsertPending,
                                after,
                            },
                        },
                    ),
                    Some(next_group_queue_id) => self.after_completed_group(
                        continuation.input_stream_id,
                        group_queue_id,
                        next_group_queue_id,
                        after,
                    )?,
                };
                Ok(AggregateTransition::Committed { continuation: next, facts })
            },
            _ => fail("database returned facts for another Aggregate phase"),
        }
    }

    pub open spec fn pending_applied(
        continuation: AggregateContinuation,
        emitted: PendingOutput,
        budget: WorkBudget,
    ) -> Result<AggregateTransition, Seq<char>> {
        match (
            text::both(emitted.facts.sound(budget), one_effect(emitted.facts)),
            continuation.phase,
        ) {
            (Err(message), _) => Err(message),
            (Ok(()), AggregatePhase::DrainEmit { group_queue_id, leg: _, after }) => match Self::after_group(
                continuation.input_stream_id,
                group_queue_id,
                emitted.next_group_queue_id,
                after,
            ) {
                Ok(next) => Ok(
                    AggregateTransition::Committed { continuation: next, facts: emitted.facts },
                ),
                Err(message) => Err(message),
            },
            (Ok(()), _) => Err("database returned facts for another Aggregate phase"@),
        }
    }

    fn apply_pending_output(
        self,
        continuation: AggregateContinuation,
        emitted: PendingOutput,
        budget: WorkBudget,
    ) -> (outcome: Result<AggregateTransition, String>)
        ensures
            text::agrees(outcome, Self::pending_applied(continuation, emitted, budget)),
    {
        emitted.facts.validate(budget)?;
        validate_one_effect(emitted.facts)?;
        match continuation.phase {
            AggregatePhase::DrainEmit { group_queue_id, leg: _, after } => {
                let next = self.after_completed_group(
                    continuation.input_stream_id,
                    group_queue_id,
                    emitted.next_group_queue_id,
                    after,
                )?;
                Ok(AggregateTransition::Committed { continuation: next, facts: emitted.facts })
            },
            _ => fail("database returned facts for another Aggregate phase"),
        }
    }

    /// A frontier is forwarded, or a global group is queued first. The caller
    /// replaces the continuation row after queueing, so those facts may or may
    /// not report it yet.
    pub open spec fn frontier_applied(
        continuation: AggregateContinuation,
        frontier: FrontierResult,
        budget: WorkBudget,
    ) -> Result<AggregateTransition, Seq<char>> {
        match frontier {
            FrontierResult::Forwarded { facts } => text::guarded(
                text::both(
                    facts.follows_protocol(
                        budget,
                        KernelPhase::Frontier,
                        KernelCompletion::Finished,
                    ),
                    text::holds(
                        facts.output is Frontier && facts.state_rows == 0
                            && facts.usage.input_rows == 0 && facts.usage.input_bytes == 0,
                        "Aggregate frontier commit is inconsistent"@,
                    ),
                ),
                AggregateTransition::Committed { continuation: None, facts },
            ),
            FrontierResult::GlobalGroupQueued { facts, group_queue_id } => match text::both(
                facts.follows_protocol(
                    budget,
                    KernelPhase::Frontier,
                    if facts.continuation_rows == 0 {
                        KernelCompletion::Finished
                    } else {
                        KernelCompletion::Continue
                    },
                ),
                text::both(
                    internal_sound(facts, false),
                    text::both(
                        queue_id_sound(group_queue_id),
                        text::holds(
                            facts.state_rows > 0,
                            "global Aggregate bootstrap omitted its continuation"@,
                        ),
                    ),
                ),
            ) {
                Err(message) => Err(message),
                Ok(()) => match continuation.input {
                    None => Err("global Aggregate bootstrap lost its frontier"@),
                    Some(frontier) => Ok(
                        AggregateTransition::Committed {
                            continuation: Some(
                                AggregateContinuation {
                                    input_stream_id: continuation.input_stream_id,
                                    input: None,
                                    phase: AggregatePhase::DrainRebuild {
                                        group_queue_id,
                                        aggregate_ordinal: 1,
                                        after: AfterDrain::Frontier(frontier),
                                    },
                                },
                            ),
                            facts,
                        },
                    ),
                },
            },
        }
    }

    fn apply_frontier(
        self,
        continuation: AggregateContinuation,
        frontier: FrontierResult,
        budget: WorkBudget,
    ) -> (outcome: Result<AggregateTransition, String>)
        ensures
            text::agrees(outcome, Self::frontier_applied(continuation, frontier, budget)),
    {
        match frontier {
            FrontierResult::Forwarded { facts } => {
                facts.validate_protocol(budget, KernelPhase::Frontier, KernelCompletion::Finished)?;
                if !matches!(facts.output, OutputFacts::Frontier { .. }) || facts.state_rows != 0
                    || facts.usage.input_rows != 0 || facts.usage.input_bytes != 0 {
                    return fail("Aggregate frontier commit is inconsistent");
                }
                Ok(AggregateTransition::Committed { continuation: None, facts })
            },
            FrontierResult::GlobalGroupQueued { facts, group_queue_id } => {
                let completion = if facts.continuation_rows == 0 {
                    KernelCompletion::Finished
                } else {
                    KernelCompletion::Continue
                };
                facts.validate_protocol(budget, KernelPhase::Frontier, completion)?;
                validate_internal_page(facts, false)?;
                validate_queue_id(group_queue_id)?;
                if facts.state_rows == 0 {
                    return fail("global Aggregate bootstrap omitted its continuation");
                }
                match continuation.input {
                    None => fail("global Aggregate bootstrap lost its frontier"),
                    Some(frontier) => {
                        let next = AggregateContinuation {
                            input_stream_id: continuation.input_stream_id,
                            input: None,
                            phase: AggregatePhase::DrainRebuild {
                                group_queue_id,
                                aggregate_ordinal: 1,
                                after: AfterDrain::Frontier(frontier),
                            },
                        };
                        Ok(AggregateTransition::Committed { continuation: Some(next), facts })
                    },
                }
            },
        }
    }
}

} // verus!
