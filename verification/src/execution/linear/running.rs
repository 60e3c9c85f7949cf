//! The work of a linear stage, request by request: pages of the initial
//! snapshot, frontiers of the source, and rows of a chunk.

use vstd::prelude::*;

use crate::execution::contract::PrimitiveFacts;
use crate::execution::linear::machine::{
    BootstrapFacts, LinearKind, ScanContinuation, TransformContinuation, TransformFacts,
};
use crate::execution::linear::statements::{
    self, assert_frontier_skips_no_source_chunk, bootstrap_statement, decode_bootstrap,
    decode_transform, first_bootstrap_statement, output_append, skipped_chunk_statement,
    transform_statement, BootstrapRow, TransformRow, TransformSql,
};
use crate::execution::linear::step::{
    self, after_bootstrap, after_transform, bootstrap_facts, emits_rows, frontier_advance,
    next_bootstrap, pending_source_frontier, scan_after_chunk, scan_row_cursors,
    source_frontier_after_chunk, transform_facts, transform_row_cursors, validate_data_cursor,
    TransformNext,
};
use crate::execution::stream::{ChunkMeta, InputAdvance, InputState, OutputAppend, OutputState};
use crate::planner::WorkBudget;
use crate::session::{
    self, answered_bigint, answered_boolean, require_columns, Progress, ProgressModel, Reply,
    Request, RequestModel, MISPLACED,
};
use crate::sql::{SqlModel, StatementModel};
use crate::text::{self, fail};

verus! {

/// What the forwarding of a frontier of the source works with.
#[derive(Clone, Copy, Debug, PartialEq, Eq, Structural)]
pub struct SourcePlan {
    pub input: InputState,
    pub frontier: u64,
}

/// What the forwarding waits for.
#[derive(Clone, Copy, Debug, PartialEq, Eq, Structural)]
pub enum SourceState {
    Checking,
    Forwarding,
}

impl SourcePlan {
    /// The first request: whether the frontier would pass a chunk.
    pub open spec fn opening(self) -> ProgressModel<SourceState, InputAdvance> {
        ProgressModel::Ask {
            state: SourceState::Checking,
            request: RequestModel::Read(
                statements::skipped_chunk_query(
                    self.input.stream_id,
                    self.input.next_chunk_seq,
                    self.frontier,
                ),
            ),
        }
    }

    /// What the forwarding does with a reply.
    pub open spec fn resumes(self, state: SourceState, reply: Reply) -> Result<
        ProgressModel<SourceState, InputAdvance>,
        Seq<char>,
    > {
        match (state, reply) {
            (SourceState::Checking, Reply::Rows(rows)) => match session::boolean_answer(rows@, 1) {
                Err(message) => Err(message),
                Ok(skipped) => text::guarded(
                    statements::skips_nothing(skipped),
                    ProgressModel::Ask {
                        state: SourceState::Forwarding,
                        request: RequestModel::Frontier { lsn: self.frontier },
                    },
                ),
            },
            (SourceState::Forwarding, Reply::Output(_)) => Ok(
                ProgressModel::Done(step::advanced_frontier(self.input, self.frontier)),
            ),
            _ => Err(MISPLACED@),
        }
    }

    /// Opens the forwarding.
    pub fn open(&self) -> (progress: Progress<SourceState, InputAdvance>)
        ensures
            progress@ == self.opening(),
    {
        Progress::Ask {
            state: SourceState::Checking,
            request: Request::Read(
                skipped_chunk_statement(
                    self.input.stream_id,
                    self.input.next_chunk_seq,
                    self.frontier,
                ),
            ),
        }
    }

    /// Goes on with the reply to the last request.
    pub fn resume(&self, state: SourceState, reply: Reply) -> (outcome: Result<
        Progress<SourceState, InputAdvance>,
        String,
    >)
        ensures
            text::agrees_view(outcome, self.resumes(state, reply)),
    {
        match (state, reply) {
            (SourceState::Checking, Reply::Rows(rows)) => {
                assert_frontier_skips_no_source_chunk(answered_boolean(&rows, 1)?)?;
                Ok(
                    Progress::Ask {
                        state: SourceState::Forwarding,
                        request: Request::Frontier { lsn: self.frontier },
                    },
                )
            },
            (SourceState::Forwarding, Reply::Output(_)) => Ok(
                Progress::Done(frontier_advance(&self.input, self.frontier)),
            ),
            _ => fail(MISPLACED),
        }
    }
}

/// A frontier of the source goes out only where it was seen to pass no chunk,
/// and it moves the consumer past none.
pub proof fn source_frontier_skips_no_chunk(plan: SourcePlan, state: SourceState, reply: Reply)
    ensures
        plan.resumes(state, reply) matches Ok(
            ProgressModel::Ask { state: SourceState::Forwarding, .. },
        ) ==> state is Checking && (reply matches Reply::Rows(rows) && session::boolean(rows@, 1)
            == Some(false)),
        plan.resumes(state, reply) matches Ok(ProgressModel::Done(advance))
            ==> advance.next_chunk_seq == plan.input.next_chunk_seq && advance.frontier_lsn
            == plan.frontier,
{
}

/// What a page of the initial snapshot works with.
pub struct BootstrapPlan<'a> {
    pub input: InputState,
    pub output: OutputState,
    pub budget: WorkBudget,
    pub stored: ScanContinuation,
    pub next_sequence: i64,
    /// The relation of the initial snapshot.
    pub bootstrap: &'a str,
    pub payload: &'a str,
}

/// What a page waits for.
#[derive(Clone, Copy, Debug, PartialEq, Eq, Structural)]
pub enum BootstrapState {
    Moving,
    Looking { facts: BootstrapFacts, end: i64 },
}

/// What a page of the initial snapshot commits.
#[derive(Clone, Copy, Debug, PartialEq, Eq, Structural)]
pub struct BootstrapClose {
    pub facts: PrimitiveFacts,
    pub append: Option<OutputAppend>,
    pub next: ScanContinuation,
}

impl<'a> BootstrapPlan<'a> {
    /// A page does not end at the last sequence number there is.
    pub open spec fn bounded(self, state: BootstrapState, reply: Reply) -> bool {
        state is Moving ==> (reply matches Reply::Rows(rows) ==> session::bigint(rows@, 3)
            != Some(i64::MAX))
    }

    /// The first request: the page moves to the output.
    pub open spec fn opening(self) -> Result<
        ProgressModel<BootstrapState, BootstrapClose>,
        Seq<char>,
    > {
        match statements::bootstrap_query(
            self.bootstrap@,
            self.payload@,
            self.next_sequence,
            self.budget,
            self.output,
        ) {
            Err(message) => Err(message),
            Ok(statement) => Ok(
                ProgressModel::Ask {
                    state: BootstrapState::Moving,
                    request: RequestModel::Write(statement),
                },
            ),
        }
    }

    pub open spec fn closes(
        self,
        facts: BootstrapFacts,
        end: Option<i64>,
        remaining: Option<i64>,
    ) -> Result<ProgressModel<BootstrapState, BootstrapClose>, Seq<char>> {
        match step::bootstrap_successor(self.stored, end, remaining, self.input.activation_lsn) {
            Err(message) => Err(message),
            Ok(next) => Ok(
                ProgressModel::Done(
                    BootstrapClose {
                        facts: step::bootstrap_primitive(facts),
                        append: statements::new_chunk_append(
                            facts.output,
                            facts.usage,
                            self.input.activation_lsn,
                        ),
                        next,
                    },
                ),
            ),
        }
    }

    /// What a page does with a reply.
    pub open spec fn resumes(self, state: BootstrapState, reply: Reply) -> Result<
        ProgressModel<BootstrapState, BootstrapClose>,
        Seq<char>,
    > {
        match (state, reply) {
            (BootstrapState::Moving, Reply::Rows(rows)) => match session::columns(
                rows@,
                BootstrapRow::kinds(),
            ) {
                Err(message) => Err(message),
                Ok(()) => match statements::bootstrapped(
                    rows@.len() as int,
                    BootstrapRow::of(rows@),
                    self.budget,
                    self.output,
                ) {
                    Err(message) => Err(message),
                    Ok(facts) => match step::bootstrap_end(self.next_sequence, facts) {
                        Err(message) => Err(message),
                        Ok(None) => self.closes(facts, None, None),
                        Ok(Some(end)) => Ok(
                            ProgressModel::Ask {
                                state: BootstrapState::Looking { facts, end },
                                request: RequestModel::Read(
                                    statements::first_bootstrap_query(self.bootstrap@, end),
                                ),
                            },
                        ),
                    },
                },
            },
            (
                BootstrapState::Looking { facts, end },
                Reply::Rows(rows),
            ) => match session::bigint_answer(rows@, 1) {
                Err(message) => Err(message),
                Ok(remaining) => self.closes(facts, Some(end), remaining),
            },
            _ => Err(MISPLACED@),
        }
    }

    fn close(&self, facts: BootstrapFacts, end: Option<i64>, remaining: Option<i64>) -> (outcome:
        Result<Progress<BootstrapState, BootstrapClose>, String>)
        ensures
            text::agrees_view(outcome, self.closes(facts, end, remaining)),
    {
        let next = next_bootstrap(&self.stored, end, remaining, self.input.activation_lsn)?;
        Ok(
            Progress::Done(
                BootstrapClose {
                    facts: bootstrap_facts(&facts),
                    append: output_append(facts.output, &facts.usage, self.input.activation_lsn),
                    next,
                },
            ),
        )
    }

    /// Opens the page.
    pub fn open(&self) -> (outcome: Result<Progress<BootstrapState, BootstrapClose>, String>)
        ensures
            text::agrees_view(outcome, self.opening()),
    {
        let statement = bootstrap_statement(
            self.bootstrap,
            self.payload,
            self.next_sequence,
            &self.budget,
            &self.output,
        )?;
        Ok(Progress::Ask { state: BootstrapState::Moving, request: Request::Write(statement) })
    }

    /// Goes on with the reply to the last request.
    pub fn resume(&self, state: BootstrapState, reply: Reply) -> (outcome: Result<
        Progress<BootstrapState, BootstrapClose>,
        String,
    >)
        requires
            self.bounded(state, reply),
        ensures
            text::agrees_view(outcome, self.resumes(state, reply)),
    {
        match (state, reply) {
            (BootstrapState::Moving, Reply::Rows(rows)) => {
                require_columns(&rows, &BootstrapRow::column_kinds())?;
                let facts = decode_bootstrap(
                    rows.len(),
                    &BootstrapRow::read(&rows),
                    &self.budget,
                    &self.output,
                )?;
                match after_bootstrap(self.next_sequence, &facts)? {
                    None => self.close(facts, None, None),
                    Some(end) => Ok(
                        Progress::Ask {
                            state: BootstrapState::Looking { facts, end },
                            request: Request::Read(first_bootstrap_statement(self.bootstrap, end)),
                        },
                    ),
                }
            },
            (BootstrapState::Looking { facts, end }, Reply::Rows(rows)) => {
                let remaining = answered_bigint(&rows, 1)?;
                self.close(facts, Some(end), remaining)
            },
            _ => fail(MISPLACED),
        }
    }
}

/// What the transform of a prefix works with.
pub struct DataPlan<'a> {
    pub kind: LinearKind,
    pub input: InputState,
    pub output: OutputState,
    pub budget: WorkBudget,
    pub chunk: ChunkMeta,
    pub row_ordinal: i64,
    /// Whether a stored cursor resumes here.
    pub resumed: bool,
    pub sql: &'a TransformSql<'a>,
}

/// What a transform waits for.
#[derive(Clone, Copy, Debug, PartialEq, Eq, Structural)]
pub enum DataState {
    Measuring,
    Transforming,
    Following { facts: TransformFacts, advance: InputAdvance },
}

/// How the stored cursor changes.
#[derive(Clone, Copy, Debug, PartialEq, Eq, Structural)]
pub enum CursorChange {
    /// A Scan goes on within its chunk.
    Scan { previous: Option<ScanContinuation>, next: ScanContinuation },
    /// A Filter or Project goes on within its chunk.
    Transform { previous: Option<TransformContinuation>, next: TransformContinuation },
    /// The chunk is complete: its cursor goes, where it had one, and a
    /// frontier may wait behind it.
    Complete { clears: bool, frontier: Option<ScanContinuation> },
}

/// What a transform commits.
#[derive(Clone, Copy, Debug, PartialEq, Eq, Structural)]
pub struct DataClose {
    pub facts: PrimitiveFacts,
    pub append: Option<OutputAppend>,
    pub cursor: CursorChange,
    pub advance: Option<InputAdvance>,
}

impl<'a> DataPlan<'a> {
    /// The first request: a chunk is measured before its first row is taken.
    pub open spec fn opening(self) -> Result<ProgressModel<DataState, DataClose>, Seq<char>> {
        match step::data_cursor(self.input, self.chunk, self.row_ordinal) {
            Err(message) => Err(message),
            Ok(()) => if self.row_ordinal == 0 {
                Ok(
                    ProgressModel::Ask {
                        state: DataState::Measuring,
                        request: RequestModel::Measure {
                            port: self.input.port,
                            chunk: self.chunk,
                        },
                    },
                )
            } else {
                self.transforms()
            },
        }
    }

    pub open spec fn transforms(self) -> Result<ProgressModel<DataState, DataClose>, Seq<char>> {
        match statements::transform_query(
            *self.sql,
            self.budget,
            self.output,
            self.chunk,
            self.row_ordinal,
            !(self.kind is Scan) || self.chunk.lsn > self.input.activation_lsn,
        ) {
            Err(message) => Err(message),
            Ok(statement) => Ok(
                ProgressModel::Ask {
                    state: DataState::Transforming,
                    request: RequestModel::Write(statement),
                },
            ),
        }
    }

    /// The cursor behind a row of the chunk.
    pub open spec fn moves(self, next_row: i64) -> CursorChange {
        if self.kind is Scan {
            CursorChange::Scan {
                previous: if self.resumed {
                    Some(
                        ScanContinuation::data(
                            self.input.stream_id,
                            self.chunk.sequence,
                            self.row_ordinal,
                        ),
                    )
                } else {
                    None
                },
                next: ScanContinuation::data(self.input.stream_id, self.chunk.sequence, next_row),
            }
        } else {
            CursorChange::Transform {
                previous: if self.resumed {
                    Some(
                        TransformContinuation {
                            input_stream_id: self.input.stream_id,
                            input_chunk_seq: self.chunk.sequence,
                            next_row_ordinal: self.row_ordinal,
                        },
                    )
                } else {
                    None
                },
                next: TransformContinuation {
                    input_stream_id: self.input.stream_id,
                    input_chunk_seq: self.chunk.sequence,
                    next_row_ordinal: next_row,
                },
            }
        }
    }

    /// The end of a transform; a cursor is left within a chunk and in front of
    /// a frontier.
    pub open spec fn closes(
        self,
        facts: TransformFacts,
        cursor: CursorChange,
        advance: Option<InputAdvance>,
    ) -> ProgressModel<DataState, DataClose> {
        ProgressModel::Done(
            DataClose {
                facts: step::transform_primitive(
                    facts,
                    !(cursor matches CursorChange::Complete { frontier: None, .. }),
                ),
                append: statements::new_chunk_append(facts.output, facts.usage, self.chunk.lsn),
                cursor,
                advance,
            },
        )
    }

    /// Behind a complete chunk of a source the next chunk bounds the frontier
    /// that may follow.
    pub open spec fn follows(self, facts: TransformFacts, advance: InputAdvance) -> ProgressModel<
        DataState,
        DataClose,
    > {
        if self.kind is Scan && step::unconsumed_frontier(self.input) is Some {
            ProgressModel::Ask {
                state: DataState::Following { facts, advance },
                request: RequestModel::Chunk {
                    port: self.input.port,
                    sequence: (self.chunk.sequence + 1) as i64,
                },
            }
        } else {
            self.closes(
                facts,
                CursorChange::Complete { clears: self.resumed, frontier: None },
                Some(advance),
            )
        }
    }

    /// What a transform does with a reply.
    pub open spec fn resumes(self, state: DataState, reply: Reply) -> Result<
        ProgressModel<DataState, DataClose>,
        Seq<char>,
    > {
        match (state, reply) {
            (DataState::Measuring, Reply::Checked) => self.transforms(),
            (DataState::Transforming, Reply::Rows(rows)) => match statements::transformed(
                rows@.len() as int,
                TransformRow::of(rows@),
                self.row_ordinal,
                self.budget,
                self.output,
            ) {
                Err(message) => Err(message),
                Ok(facts) => match step::transform_next(
                    self.input,
                    self.chunk,
                    self.row_ordinal,
                    facts,
                ) {
                    Err(message) => Err(message),
                    Ok(TransformNext::Row { next_row }) => Ok(
                        self.closes(facts, self.moves(next_row), None),
                    ),
                    Ok(TransformNext::Chunk { advance }) => Ok(self.follows(facts, advance)),
                },
            },
            (DataState::Following { facts, advance }, Reply::Chunk(following)) => Ok(
                self.closes(
                    facts,
                    CursorChange::Complete {
                        clears: self.resumed,
                        frontier: step::frontier_cursor(
                            self.input,
                            step::frontier_behind(
                                self.input,
                                match following {
                                    Some(chunk) => Some(chunk.lsn),
                                    None => None,
                                },
                            ),
                        ),
                    },
                    Some(advance),
                ),
            ),
            _ => Err(MISPLACED@),
        }
    }

    fn transform(&self) -> (outcome: Result<Progress<DataState, DataClose>, String>)
        ensures
            text::agrees_view(outcome, self.transforms()),
    {
        let statement = transform_statement(
            self.sql,
            &self.budget,
            &self.output,
            &self.chunk,
            self.row_ordinal,
            emits_rows(self.kind, &self.chunk, &self.input),
        )?;
        Ok(Progress::Ask { state: DataState::Transforming, request: Request::Write(statement) })
    }

    fn move_cursor(&self, next_row: i64) -> (cursor: CursorChange)
        ensures
            cursor == self.moves(next_row),
    {
        if self.kind == LinearKind::Scan {
            let (previous, next) = scan_row_cursors(
                &self.input,
                &self.chunk,
                self.row_ordinal,
                next_row,
                self.resumed,
            );
            CursorChange::Scan { previous, next }
        } else {
            let (previous, next) = transform_row_cursors(
                &self.input,
                &self.chunk,
                self.row_ordinal,
                next_row,
                self.resumed,
            );
            CursorChange::Transform { previous, next }
        }
    }

    fn close(
        &self,
        facts: TransformFacts,
        cursor: CursorChange,
        advance: Option<InputAdvance>,
    ) -> (progress: Progress<DataState, DataClose>)
        ensures
            progress@ == self.closes(facts, cursor, advance),
    {
        let left = match cursor {
            CursorChange::Complete { frontier, .. } => frontier.is_some(),
            _ => true,
        };
        Progress::Done(
            DataClose {
                facts: transform_facts(&facts, left),
                append: output_append(facts.output, &facts.usage, self.chunk.lsn),
                cursor,
                advance,
            },
        )
    }

    /// Opens the transform.
    pub fn open(&self) -> (outcome: Result<Progress<DataState, DataClose>, String>)
        ensures
            text::agrees_view(outcome, self.opening()),
    {
        validate_data_cursor(&self.input, &self.chunk, self.row_ordinal)?;
        if self.row_ordinal == 0 {
            return Ok(
                Progress::Ask {
                    state: DataState::Measuring,
                    request: Request::Measure { port: self.input.port, chunk: self.chunk },
                },
            );
        }
        self.transform()
    }

    /// Goes on with the reply to the last request.
    pub fn resume(&self, state: DataState, reply: Reply) -> (outcome: Result<
        Progress<DataState, DataClose>,
        String,
    >)
        requires
            self.chunk.sequence < i64::MAX,
        ensures
            text::agrees_view(outcome, self.resumes(state, reply)),
    {
        match (state, reply) {
            (DataState::Measuring, Reply::Checked) => self.transform(),
            (DataState::Transforming, Reply::Rows(rows)) => {
                let facts = decode_transform(
                    rows.len(),
                    &TransformRow::read(&rows),
                    self.row_ordinal,
                    &self.budget,
                    &self.output,
                )?;
                match after_transform(&self.input, &self.chunk, self.row_ordinal, &facts)? {
                    TransformNext::Row { next_row } => Ok(
                        self.close(facts, self.move_cursor(next_row), None),
                    ),
                    TransformNext::Chunk { advance } => {
                        if self.kind == LinearKind::Scan && pending_source_frontier(
                            &self.input,
                        ).is_some() {
                            return Ok(
                                Progress::Ask {
                                    state: DataState::Following { facts, advance },
                                    request: Request::Chunk {
                                        port: self.input.port,
                                        sequence: self.chunk.sequence + 1,
                                    },
                                },
                            );
                        }
                        Ok(
                            self.close(
                                facts,
                                CursorChange::Complete { clears: self.resumed, frontier: None },
                                Some(advance),
                            ),
                        )
                    },
                }
            },
            (DataState::Following { facts, advance }, Reply::Chunk(following)) => {
                let next_lsn = match following {
                    Some(chunk) => Some(chunk.lsn),
                    None => None,
                };
                let frontier = source_frontier_after_chunk(&self.input, next_lsn);
                Ok(
                    self.close(
                        facts,
                        CursorChange::Complete {
                            clears: self.resumed,
                            frontier: scan_after_chunk(&self.input, frontier),
                        },
                        Some(advance),
                    ),
                )
            },
            _ => fail(MISPLACED),
        }
    }
}

/// A transform either goes on within its chunk and leaves the consumer where
/// it is, or completes the chunk and moves the consumer past it.
pub proof fn consumer_moves_with_a_complete_chunk(plan: DataPlan, state: DataState, reply: Reply)
    requires
        state is Following ==> state->advance.next_chunk_seq == plan.chunk.sequence + 1,
        plan.chunk.sequence < i64::MAX,
    ensures
        plan.resumes(state, reply) matches Ok(ProgressModel::Done(close)) ==> (match close.cursor {
            CursorChange::Complete { clears, .. } => clears == plan.resumed && (
            close.advance matches Some(advance) && advance.next_chunk_seq == plan.chunk.sequence
                + 1),
            _ => close.advance is None && close.facts.continuation_rows == 1,
        }),
{
}

/// The request that a transform makes for its prefix, where it comes next.
pub open spec fn asked_transform(progress: ProgressModel<DataState, DataClose>) -> Option<
    StatementModel,
> {
    match progress {
        ProgressModel::Ask {
            state: DataState::Transforming,
            request: RequestModel::Write(statement),
        } => Some(statement),
        _ => None,
    }
}

/// What the statement of a transform is told. It reads its own chunk from the
/// cursor to the end of the chunk, within the budget, and writes a new chunk
/// of its output. Rows of a Scan pass only where the chunk is newer than the
/// snapshot that the Scan started from, and those of a Filter or a Project
/// always.
pub open spec fn transform_is_told(plan: DataPlan, statement: StatementModel) -> bool {
    let told = statement.arguments;
    &&& told.len() == 11
    &&& told[0] == SqlModel::BigInt(Some(plan.chunk.stream_id))
    &&& told[1] == SqlModel::BigInt(Some(plan.chunk.sequence))
    &&& told[2] == SqlModel::BigInt(Some(plan.row_ordinal))
    &&& told[3] matches SqlModel::BigInt(Some(rows)) && rows == plan.chunk.rows
    &&& told[4] matches SqlModel::BigInt(Some(rows)) && rows == plan.budget.max_input_rows
    &&& told[5] matches SqlModel::BigInt(Some(bytes)) && bytes == plan.budget.max_input_bytes
    &&& told[6] matches SqlModel::BigInt(Some(rows)) && rows <= plan.budget.max_output_rows
        && rows <= plan.output.target_rows && (rows == plan.budget.max_output_rows || rows
        == plan.output.target_rows)
    &&& told[7] matches SqlModel::BigInt(Some(bytes)) && bytes <= plan.budget.max_output_bytes
        && bytes <= plan.output.target_bytes && (bytes == plan.budget.max_output_bytes || bytes
        == plan.output.target_bytes)
    &&& told[8] == SqlModel::BigInt(Some(plan.output.stream_id))
    &&& told[9] == SqlModel::BigInt(Some(plan.output.next_chunk_seq))
    &&& told[10] == SqlModel::Boolean(
        Some(
            match plan.kind {
                LinearKind::Scan => plan.chunk.lsn > plan.input.activation_lsn,
                LinearKind::Filter => true,
                LinearKind::Project => true,
            },
        ),
    )
}

/// A change that the initial snapshot of a Scan already holds never passes,
/// and every newer one may: whenever a transform asks for its prefix, it tells
/// the statement whether the rows of its chunk are new.
pub proof fn snapshot_is_not_repeated(plan: DataPlan, state: DataState, reply: Reply)
    ensures
        plan.opening() matches Ok(progress) ==> (asked_transform(progress) matches Some(
            statement,
        ) ==> transform_is_told(plan, statement)),
        plan.resumes(state, reply) matches Ok(progress) ==> (asked_transform(progress) matches Some(
            statement,
        ) ==> transform_is_told(plan, statement)),
        plan.resumes(DataState::Measuring, Reply::Checked) matches Ok(progress)
            ==> asked_transform(progress) is Some,
{
}

/// A page of the initial snapshot is read from its cursor on, holds no more
/// than the budgets and the targets of the output admit, and goes to a new
/// chunk of the output, at the boundary where the stage was activated.
pub proof fn snapshot_page_is_published_at_activation(
    plan: BootstrapPlan,
    state: BootstrapState,
    reply: Reply,
)
    ensures
        plan.opening() matches Ok(progress) ==> (progress matches ProgressModel::Ask {
            state: BootstrapState::Moving,
            request: RequestModel::Write(statement),
        } && statement.arguments.len() == 5 && statement.arguments[0] == SqlModel::BigInt(
            Some(plan.next_sequence),
        ) && (statement.arguments[1] matches SqlModel::BigInt(Some(rows)) && rows
            <= plan.budget.max_input_rows && rows <= plan.budget.max_output_rows && rows
            <= plan.output.target_rows) && (statement.arguments[2] matches SqlModel::BigInt(
            Some(bytes),
        ) && bytes <= plan.budget.max_input_bytes && bytes <= plan.budget.max_output_bytes && bytes
            <= plan.output.target_bytes) && statement.arguments[3] == SqlModel::BigInt(
            Some(plan.output.stream_id),
        ) && statement.arguments[4] == SqlModel::BigInt(Some(plan.output.next_chunk_seq))),
        plan.resumes(state, reply) matches Ok(ProgressModel::Done(close)) ==> (
        close.append matches Some(append) ==> append.lsn == plan.input.activation_lsn),
{
}

} // verus!
