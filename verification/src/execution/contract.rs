//! The protocol that every bounded operator primitive obeys: what it may
//! touch, what it must report, and how input admission schedules drains.

use vstd::prelude::*;

use crate::planner::{WorkBudget, WorkUsage};
use crate::text::{self, fail};

verus! {

/// The semantic phase of a durable operator primitive.
///
/// Concrete operators may have more detailed internal phases, but every
/// bounded database action belongs to one of these four protocol phases.
#[derive(Clone, Copy, Debug, PartialEq, Eq, Structural)]
pub enum KernelPhase {
    Admit,
    Process,
    Drain,
    Frontier,
}

/// Whether a committed kernel transition leaves durable work to resume.
#[derive(Clone, Copy, Debug, PartialEq, Eq, Structural)]
pub enum KernelCompletion {
    Continue,
    Finished,
}

impl KernelCompletion {
    pub fn has_continuation(self) -> (has: bool)
        ensures
            has == (self is Continue),
    {
        matches!(self, KernelCompletion::Continue)
    }
}

/// The largest count that a PostgreSQL `bigint` holds.
pub const MAX_PROGRESS: u64 = 9_223_372_036_854_775_807;

/// Input durably admitted since the last forwarded input frontier.
///
/// This is common checkpoint state, not operator-typed data. Aggregate,
/// Window, and TopN use it to schedule geometrically spaced Drain epochs
/// without tying a Drain continuation to consumed stream chunks.
#[derive(Clone, Copy, Debug, PartialEq, Eq, Structural)]
pub struct AdmissionProgress {
    pub rows: u64,
    pub bytes: u64,
}

impl Default for AdmissionProgress {
    fn default() -> (progress: Self)
        ensures
            progress == (AdmissionProgress { rows: 0, bytes: 0 }),
    {
        Self { rows: 0, bytes: 0 }
    }
}

/// A cumulative count after more was admitted, saturated at `bigint`.
pub open spec fn saturated(before: u64, admitted: u64) -> u64 {
    if before + admitted <= MAX_PROGRESS {
        (before + admitted) as u64
    } else {
        MAX_PROGRESS
    }
}

fn saturate(before: u64, admitted: u64) -> (after: u64)
    ensures
        after == saturated(before, admitted),
{
    let sum: u64 = before.saturating_add(admitted);
    if sum < MAX_PROGRESS {
        sum
    } else {
        MAX_PROGRESS
    }
}

impl AdmissionProgress {
    pub fn new(rows: u64, bytes: u64) -> (progress: Self)
        ensures
            progress == (AdmissionProgress { rows, bytes }),
    {
        Self { rows, bytes }
    }

    pub fn rows(self) -> (rows: u64)
        ensures
            rows == self.rows,
    {
        self.rows
    }

    pub fn bytes(self) -> (bytes: u64)
        ensures
            bytes == self.bytes,
    {
        self.bytes
    }

    pub fn is_empty(self) -> (empty: bool)
        ensures
            empty == (self.rows == 0 && self.bytes == 0),
    {
        self.rows == 0 && self.bytes == 0
    }

    /// The progress after one admitted page.
    pub open spec fn admitted(self, usage: WorkUsage) -> Self {
        AdmissionProgress {
            rows: saturated(self.rows, usage.input_rows),
            bytes: saturated(self.bytes, usage.input_bytes),
        }
    }

    /// The outcome of recording one admitted page: the new progress and
    /// whether either dimension reached a drain threshold.
    pub open spec fn recorded(
        self,
        usage: WorkUsage,
        row_quantum: usize,
        row_interval_cap: usize,
        byte_quantum: usize,
        byte_interval_cap: usize,
    ) -> Result<(Self, bool), Seq<char>> {
        let next = self.admitted(usage);
        if usage.input_rows == 0 {
            Err("admission made no input-row progress"@)
        } else if usage.input_bytes == 0 {
            Err("admission made no input-byte progress"@)
        } else {
            match (
                crossing(self.rows, next.rows, row_quantum, row_interval_cap, "row"@),
                crossing(self.bytes, next.bytes, byte_quantum, byte_interval_cap, "byte"@),
            ) {
                (Ok(rows), Ok(bytes)) => Ok((next, rows || bytes)),
                (Err(message), _) => Err(message),
                (_, Err(message)) => Err(message),
            }
        }
    }

    pub fn record(
        self,
        usage: WorkUsage,
        row_quantum: usize,
        row_interval_cap: usize,
        byte_quantum: usize,
        byte_interval_cap: usize,
    ) -> (outcome: Result<(Self, bool), String>)
        ensures
            text::agrees(
                outcome,
                self.recorded(
                    usage,
                    row_quantum,
                    row_interval_cap,
                    byte_quantum,
                    byte_interval_cap,
                ),
            ),
    {
        if usage.input_rows == 0 {
            return fail("admission made no input-row progress");
        }
        if usage.input_bytes == 0 {
            return fail("admission made no input-byte progress");
        }
        let next = Self {
            rows: saturate(self.rows, usage.input_rows),
            bytes: saturate(self.bytes, usage.input_bytes),
        };
        let row_drain = crossed_admission_threshold(
            self.rows,
            next.rows,
            row_quantum,
            row_interval_cap,
            "row",
        )?;
        let byte_drain = crossed_admission_threshold(
            self.bytes,
            next.bytes,
            byte_quantum,
            byte_interval_cap,
            "byte",
        )?;
        Ok((next, row_drain || byte_drain))
    }
}

/// The first of `threshold`, `2 * threshold`, `4 * threshold`, ... capped at
/// `cap`, that lies above `before`.
pub open spec fn doubled_threshold(threshold: nat, cap: nat, before: nat) -> nat
    decreases cap - threshold,
{
    if 0 < threshold <= before && threshold < cap {
        doubled_threshold(
            if 2 * threshold < cap {
                2 * threshold
            } else {
                cap
            },
            cap,
            before,
        )
    } else {
        threshold
    }
}

/// The next drain threshold above `before`: thresholds double from `quantum`
/// up to `cap` and then continue at fixed `cap` intervals.
pub open spec fn next_threshold(before: nat, quantum: nat, cap: nat) -> nat {
    if before < cap {
        doubled_threshold(quantum, cap, before)
    } else {
        (before / cap + 1) * cap
    }
}

/// Whether progress from `before` to `after` reaches a drain threshold, or
/// what is wrong with the policy or the progress.
pub open spec fn crossing(
    before: u64,
    after: u64,
    quantum: usize,
    interval_cap: usize,
    dimension: Seq<char>,
) -> Result<bool, Seq<char>> {
    if quantum == 0 || interval_cap == 0 || quantum > interval_cap {
        Err("invalid admission "@ + dimension + " policy"@)
    } else if after < before || after > MAX_PROGRESS {
        Err("invalid admission "@ + dimension + " progress"@)
    } else {
        Ok(
            after == MAX_PROGRESS || next_threshold(
                before as nat,
                quantum as nat,
                interval_cap as nat,
            ) <= after,
        )
    }
}

fn dimension_error(head: &str, dimension: &str, tail: &str) -> (message: String)
    ensures
        message@ == head@ + dimension@ + tail@,
{
    let mut message = head.to_owned();
    message.append(dimension);
    message.append(tail);
    message
}

/// Thresholds are `quantum, 2*quantum, 4*quantum, ...`, capped at
/// `interval_cap`; after the cap they continue at fixed `interval_cap`
/// intervals. This avoids repeatedly rebuilding hot state for every small
/// input page while retaining a hard bound on unreconciled work.
pub fn crossed_admission_threshold(
    before: u64,
    after: u64,
    quantum: usize,
    interval_cap: usize,
    dimension: &str,
) -> (outcome: Result<bool, String>)
    ensures
        text::agrees(outcome, crossing(before, after, quantum, interval_cap, dimension@)),
{
    let quantum: u64 = quantum as u64;
    let interval_cap: u64 = interval_cap as u64;
    if quantum == 0 || interval_cap == 0 || quantum > interval_cap {
        return Err(dimension_error("invalid admission ", dimension, " policy"));
    }
    if after < before || after > MAX_PROGRESS {
        return Err(dimension_error("invalid admission ", dimension, " progress"));
    }
    if before == MAX_PROGRESS {
        return Ok(true);
    }
    if before < interval_cap {
        let mut threshold: u64 = quantum;
        while threshold <= before && threshold < interval_cap
            invariant
                0 < threshold <= interval_cap,
                before < MAX_PROGRESS,
                doubled_threshold(threshold as nat, interval_cap as nat, before as nat)
                    == doubled_threshold(quantum as nat, interval_cap as nat, before as nat),
            decreases interval_cap - threshold,
        {
            let doubled: u64 = threshold * 2;
            threshold = if doubled < interval_cap {
                doubled
            } else {
                interval_cap
            };
        }
        Ok(after >= threshold || after == MAX_PROGRESS)
    } else {
        let epoch: u64 = before / interval_cap;
        proof {
            assert(epoch <= before) by (nonlinear_arith)
                requires
                    epoch == before / interval_cap,
                    interval_cap > 0,
            ;
        }
        let crossed = match (epoch + 1).checked_mul(interval_cap) {
            Some(threshold) => after >= threshold,
            None => false,
        };
        Ok(crossed || after == MAX_PROGRESS)
    }
}

/// A durable position inside one immutable input chunk.
#[derive(Clone, Copy, Debug, PartialEq, Eq, Structural)]
pub struct InputPosition {
    pub stream_id: i64,
    pub chunk_seq: i64,
    pub row_ordinal: i64,
}

impl InputPosition {
    /// Stream and chunk identifiers are positive; row ordinals start at zero.
    pub open spec fn valid(self) -> bool {
        self.stream_id > 0 && self.chunk_seq > 0 && self.row_ordinal >= 0
    }

    pub fn new(stream_id: i64, chunk_seq: i64, row_ordinal: i64) -> (outcome: Result<Self, String>)
        ensures
            text::agrees(outcome, Self::made(stream_id, chunk_seq, row_ordinal)),
    {
        if stream_id <= 0 || chunk_seq <= 0 || row_ordinal < 0 {
            return fail("input position contains an invalid identifier");
        }
        Ok(Self { stream_id, chunk_seq, row_ordinal })
    }

    /// The position with these coordinates, when they are valid.
    pub open spec fn made(
        stream_id: i64,
        chunk_seq: i64,
        row_ordinal: i64,
    ) -> Result<InputPosition, Seq<char>> {
        let position = InputPosition { stream_id, chunk_seq, row_ordinal };
        if position.valid() {
            Ok(position)
        } else {
            Err("input position contains an invalid identifier"@)
        }
    }
}

/// Whether one dimension stays within its row and byte budgets. A single
/// indivisible row is the only byte-budget exception.
pub open spec fn dimension_fits(
    rows: u64,
    bytes: u64,
    max_rows: usize,
    max_bytes: usize,
    name: Seq<char>,
) -> Result<(), Seq<char>> {
    if rows > max_rows {
        Err(name + " primitive exceeded its row budget"@)
    } else if bytes > max_bytes && rows != 1 {
        Err(name + " primitive exceeded its byte budget"@)
    } else {
        Ok(())
    }
}

fn validate_dimension(
    rows: u64,
    bytes: u64,
    max_rows: usize,
    max_bytes: usize,
    name: &str,
) -> (outcome: Result<(), String>)
    ensures
        text::agrees(outcome, dimension_fits(rows, bytes, max_rows, max_bytes, name@)),
{
    let max_rows: u64 = max_rows as u64;
    let max_bytes: u64 = max_bytes as u64;
    if rows > max_rows {
        return Err(name.to_owned().concat(" primitive exceeded its row budget"));
    }
    // A single indivisible typed work item is the only byte-budget exception.
    if bytes > max_bytes && rows != 1 {
        return Err(name.to_owned().concat(" primitive exceeded its byte budget"));
    }
    Ok(())
}

impl WorkUsage {
    /// Whether both dimensions of the usage stay within a budget.
    pub open spec fn fits(self, budget: WorkBudget) -> Result<(), Seq<char>> {
        match dimension_fits(
            self.input_rows,
            self.input_bytes,
            budget.max_input_rows,
            budget.max_input_bytes,
            "input"@,
        ) {
            Err(message) => Err(message),
            Ok(()) => dimension_fits(
                self.output_rows,
                self.output_bytes,
                budget.max_output_rows,
                budget.max_output_bytes,
                "output"@,
            ),
        }
    }

    pub fn validate(self, budget: WorkBudget) -> (outcome: Result<(), String>)
        ensures
            text::agrees(outcome, self.fits(budget)),
    {
        validate_dimension(
            self.input_rows,
            self.input_bytes,
            budget.max_input_rows,
            budget.max_input_bytes,
            "input",
        )?;
        validate_dimension(
            self.output_rows,
            self.output_bytes,
            budget.max_output_rows,
            budget.max_output_bytes,
            "output",
        )
    }
}

/// Summary returned by a bounded keyset page.
#[derive(Clone, Copy, Debug, PartialEq, Eq, Structural)]
pub struct PageFacts {
    pub usage: WorkUsage,
    pub last_row_id: Option<i64>,
    pub complete: bool,
}

impl PageFacts {
    /// A page fits its budget and has a row cursor exactly when it has to.
    pub open spec fn sound(self, budget: WorkBudget) -> Result<(), Seq<char>> {
        match self.usage.fits(budget) {
            Err(message) => Err(message),
            Ok(()) => if self.usage.input_rows == 0 && self.last_row_id is Some {
                Err("empty primitive page returned a row cursor"@)
            } else if self.usage.input_rows > 0 && self.last_row_id is None && !self.complete {
                Err("partial primitive page omitted its row cursor"@)
            } else {
                Ok(())
            },
        }
    }

    pub fn validate(self, budget: WorkBudget) -> (outcome: Result<(), String>)
        ensures
            text::agrees(outcome, self.sound(budget)),
    {
        self.usage.validate(budget)?;
        if self.usage.input_rows == 0 && self.last_row_id.is_some() {
            return fail("empty primitive page returned a row cursor");
        }
        if self.usage.input_rows > 0 && self.last_row_id.is_none() && !self.complete {
            return fail("partial primitive page omitted its row cursor");
        }
        Ok(())
    }
}

/// Output appended by one primitive.
///
/// Frontiers are real chunks even though they contain no effect rows.
#[derive(Clone, Copy, Debug, PartialEq, Eq, Structural)]
pub enum OutputFacts {
    Nothing,
    Data { chunk_seq: i64 },
    Frontier { chunk_seq: i64 },
}

impl Default for OutputFacts {
    fn default() -> (output: Self)
        ensures
            output == OutputFacts::Nothing,
    {
        OutputFacts::Nothing
    }
}

/// Mutation counts that every set primitive must report.
#[derive(Clone, Copy, Debug, PartialEq, Eq, Structural)]
pub struct PrimitiveFacts {
    pub usage: WorkUsage,
    pub state_rows: u64,
    pub continuation_rows: u64,
    pub output: OutputFacts,
}

impl Default for PrimitiveFacts {
    fn default() -> (facts: Self)
        ensures
            facts == Self::nothing(),
    {
        Self {
            usage: WorkUsage::default(),
            state_rows: 0,
            continuation_rows: 0,
            output: OutputFacts::Nothing,
        }
    }
}

impl PrimitiveFacts {
    /// A primitive that changed nothing.
    pub open spec fn nothing() -> PrimitiveFacts {
        PrimitiveFacts {
            usage: crate::planner::no_usage(),
            state_rows: 0,
            continuation_rows: 0,
            output: OutputFacts::Nothing,
        }
    }

    /// Whether the facts fit a budget and name exactly the output they made.
    pub open spec fn sound(self, budget: WorkBudget) -> Result<(), Seq<char>> {
        match self.usage.fits(budget) {
            Err(message) => Err(message),
            Ok(()) => if self.continuation_rows > 1 {
                Err("operator continuation relation contains more than one row"@)
            } else {
                match self.output {
                    OutputFacts::Nothing => if self.usage.output_rows > 0 {
                        Err("primitive emitted rows without an output chunk"@)
                    } else {
                        Ok(())
                    },
                    OutputFacts::Data { chunk_seq } => if chunk_seq <= 0 {
                        Err("primitive returned a non-positive output chunk"@)
                    } else if self.usage.output_rows == 0 {
                        Err("data chunk contains no output rows"@)
                    } else {
                        Ok(())
                    },
                    OutputFacts::Frontier { chunk_seq } => if chunk_seq <= 0 {
                        Err("primitive returned a non-positive frontier chunk"@)
                    } else if self.usage.output_rows != 0 || self.usage.output_bytes != 0 {
                        Err("frontier chunk contains output rows"@)
                    } else {
                        Ok(())
                    },
                }
            },
        }
    }

    pub fn validate(self, budget: WorkBudget) -> (outcome: Result<(), String>)
        ensures
            text::agrees(outcome, self.sound(budget)),
    {
        self.usage.validate(budget)?;
        if self.continuation_rows > 1 {
            return fail("operator continuation relation contains more than one row");
        }
        match self.output {
            OutputFacts::Nothing => {
                if self.usage.output_rows > 0 {
                    return fail("primitive emitted rows without an output chunk");
                }
            },
            OutputFacts::Data { chunk_seq } => {
                if chunk_seq <= 0 {
                    return fail("primitive returned a non-positive output chunk");
                }
                if self.usage.output_rows == 0 {
                    return fail("data chunk contains no output rows");
                }
            },
            OutputFacts::Frontier { chunk_seq } => {
                if chunk_seq <= 0 {
                    return fail("primitive returned a non-positive frontier chunk");
                }
                if self.usage.output_rows != 0 || self.usage.output_bytes != 0 {
                    return fail("frontier chunk contains output rows");
                }
            },
        }
        Ok(())
    }

    /// Whether the facts also agree with the phase and completion of the
    /// transition that they close.
    pub open spec fn follows_protocol(
        self,
        budget: WorkBudget,
        phase: KernelPhase,
        completion: KernelCompletion,
    ) -> Result<(), Seq<char>> {
        match self.sound(budget) {
            Err(message) => Err(message),
            Ok(()) => match self.continues(completion is Continue) {
                Err(message) => Err(message),
                Ok(()) => if !(phase is Frontier) && self.output is Frontier {
                    Err("non-frontier primitive emitted a frontier chunk"@)
                } else if phase is Frontier && self.output is Data {
                    Err("frontier primitive emitted a data chunk"@)
                } else if self.output is Frontier && !(completion is Finished) {
                    Err("frontier output left a continuation behind"@)
                } else {
                    Ok(())
                },
            },
        }
    }

    /// Validates the shared protocol facts in addition to the operator's
    /// SQL-specific checks. The phase and completion come from the action
    /// planner, so a SQL result column never becomes a second source of
    /// lifecycle truth.
    pub fn validate_protocol(
        self,
        budget: WorkBudget,
        phase: KernelPhase,
        completion: KernelCompletion,
    ) -> (outcome: Result<(), String>)
        ensures
            text::agrees(outcome, self.follows_protocol(budget, phase, completion)),
    {
        self.validate(budget)?;
        self.validate_continuation(completion.has_continuation())?;
        if !matches!(phase, KernelPhase::Frontier) && matches!(
            self.output,
            OutputFacts::Frontier { .. }
        ) {
            return fail("non-frontier primitive emitted a frontier chunk");
        }
        if matches!(phase, KernelPhase::Frontier) && matches!(
            self.output,
            OutputFacts::Data { .. }
        ) {
            return fail("frontier primitive emitted a data chunk");
        }
        if matches!(self.output, OutputFacts::Frontier { .. }) && !matches!(
            completion,
            KernelCompletion::Finished
        ) {
            return fail("frontier output left a continuation behind");
        }
        Ok(())
    }

    /// Whether the facts report exactly the continuation row that is left.
    pub open spec fn continues(self, has_continuation: bool) -> Result<(), Seq<char>> {
        if self.continuation_rows == (if has_continuation {
            1u64
        } else {
            0u64
        }) {
            Ok(())
        } else {
            Err("primitive facts disagree with their continuation row"@)
        }
    }

    pub fn validate_continuation(self, has_continuation: bool) -> (outcome: Result<(), String>)
        ensures
            text::agrees(outcome, self.continues(has_continuation)),
    {
        let expected: u64 = if has_continuation {
            1
        } else {
            0
        };
        if self.continuation_rows != expected {
            return fail("primitive facts disagree with their continuation row");
        }
        Ok(())
    }
}

/// Strict persisted phase representation. Zero always means no continuation.
#[derive(Clone, Copy, Debug, PartialEq, Eq, Structural)]
pub struct PhaseCode(pub i16);

impl PhaseCode {
    pub fn active(value: i16) -> (outcome: Result<Self, String>)
        ensures
            text::agrees(
                outcome,
                if value > 0 {
                    Ok(PhaseCode(value))
                } else {
                    Err("active operator phase code must be positive"@)
                },
            ),
    {
        if value <= 0 {
            return fail("active operator phase code must be positive");
        }
        Ok(PhaseCode(value))
    }

    pub fn value(self) -> (value: i16)
        ensures
            value == self.0,
    {
        self.0
    }
}

} // verus!
