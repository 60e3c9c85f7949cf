//! The admission of a page of rows, statement by statement: groups, bag, dirty
//! queue, and whether a drain is due behind it.

use vstd::prelude::*;

use crate::execution::aggregate::apply::{
    self, apply_statement, decode_apply, decode_first_dirty, ensure_groups_statement,
    first_dirty_query, ApplyFacts, ApplyRow, ApplySql,
};
use crate::execution::aggregate::machine::{AggregateContinuation, AggregateMachine};
use crate::execution::aggregate::step::{
    self, commit_apply, measures_payload, open_apply, plan_target, AggregateCommit,
};
use crate::execution::contract::InputPosition;
use crate::execution::stream::{ChunkMeta, InputState};
use crate::planner::WorkBudget;
use crate::session::{
    self, first_bigint, Progress, ProgressModel, Reply, Request, RequestModel, MISPLACED,
};
use crate::sql::Statement;
use crate::text::{self, fail};

verus! {

/// What an admission works with.
pub struct ApplyPlan<'a> {
    pub machine: AggregateMachine,
    pub value: AggregateContinuation,
    pub input: InputState,
    pub budget: WorkBudget,
    pub sql: &'a ApplySql<'a>,
}

/// What an admission waits for.
#[derive(Clone, Copy, Debug, PartialEq, Eq, Structural)]
pub enum ApplyState {
    Opening,
    Measuring { position: InputPosition, chunk: ChunkMeta },
    Ensuring { position: InputPosition, chunk: ChunkMeta },
    Applying { position: InputPosition, chunk: ChunkMeta, ensured: u64 },
    Finding { chunk: ChunkMeta, applied: ApplyFacts },
    Admitting { chunk: ChunkMeta, applied: ApplyFacts, first_dirty: i64 },
    Following { chunk: ChunkMeta, applied: ApplyFacts, first_dirty: i64, drain: bool },
}

impl<'a> ApplyPlan<'a> {
    pub open spec fn wf(self) -> bool {
        self.sql.group_expressions.len() < usize::MAX
    }

    /// Whether a state is one that this admission waits in: its chunk has a
    /// successor.
    pub open spec fn waits(self, state: ApplyState) -> bool {
        match state {
            ApplyState::Opening => true,
            ApplyState::Measuring { chunk, .. } => chunk.sequence < i64::MAX,
            ApplyState::Ensuring { chunk, .. } => chunk.sequence < i64::MAX,
            ApplyState::Applying { chunk, .. } => chunk.sequence < i64::MAX,
            ApplyState::Finding { chunk, .. } => chunk.sequence < i64::MAX,
            ApplyState::Admitting { chunk, .. } => chunk.sequence < i64::MAX,
            ApplyState::Following { chunk, .. } => chunk.sequence < i64::MAX,
        }
    }

    /// The first request: the chunk at the cursor.
    pub open spec fn opening(self) -> Result<
        ProgressModel<ApplyState, AggregateCommit>,
        Seq<char>,
    > {
        match self.value.input {
            None => Err("Aggregate Apply omitted its input cursor"@),
            Some(position) => Ok(
                ProgressModel::Ask {
                    state: ApplyState::Opening,
                    request: RequestModel::Chunk {
                        port: self.input.port,
                        sequence: position.chunk_seq,
                    },
                },
            ),
        }
    }

    /// A chunk is measured before its first row is taken.
    pub open spec fn measures(self, position: InputPosition, chunk: ChunkMeta) -> Result<
        ProgressModel<ApplyState, AggregateCommit>,
        Seq<char>,
    > {
        if position.row_ordinal == 0 {
            Ok(
                ProgressModel::Ask {
                    state: ApplyState::Measuring { position, chunk },
                    request: RequestModel::Measure { port: self.input.port, chunk },
                },
            )
        } else {
            self.groups(position, chunk)
        }
    }

    pub open spec fn groups(self, position: InputPosition, chunk: ChunkMeta) -> Result<
        ProgressModel<ApplyState, AggregateCommit>,
        Seq<char>,
    > {
        match apply::ensure_query(*self.sql, chunk, position.row_ordinal, self.budget) {
            Err(message) => Err(message),
            Ok(statement) => Ok(
                ProgressModel::Ask {
                    state: ApplyState::Ensuring { position, chunk },
                    request: RequestModel::Write(statement),
                },
            ),
        }
    }

    pub open spec fn rows(self, position: InputPosition, chunk: ChunkMeta, ensured: u64) -> Result<
        ProgressModel<ApplyState, AggregateCommit>,
        Seq<char>,
    > {
        match apply::apply_query(*self.sql, chunk, position.row_ordinal, self.budget) {
            Err(message) => Err(message),
            Ok(statement) => Ok(
                ProgressModel::Ask {
                    state: ApplyState::Applying { position, chunk, ensured },
                    request: RequestModel::Write(statement),
                },
            ),
        }
    }

    /// Behind the last row of a chunk the next chunk decides too.
    pub open spec fn follows(
        self,
        chunk: ChunkMeta,
        applied: ApplyFacts,
        first_dirty: i64,
        drain: bool,
    ) -> Result<ProgressModel<ApplyState, AggregateCommit>, Seq<char>> {
        if applied.next_row == chunk.rows {
            Ok(
                ProgressModel::Ask {
                    state: ApplyState::Following { chunk, applied, first_dirty, drain },
                    request: RequestModel::Chunk {
                        port: self.input.port,
                        sequence: (chunk.sequence + 1) as i64,
                    },
                },
            )
        } else {
            self.closes(chunk, applied, first_dirty, drain, None)
        }
    }

    pub open spec fn closes(
        self,
        chunk: ChunkMeta,
        applied: ApplyFacts,
        first_dirty: i64,
        drain: bool,
        following: Option<ChunkMeta>,
    ) -> Result<ProgressModel<ApplyState, AggregateCommit>, Seq<char>> {
        match step::page_target(
            self.input.stream_id,
            chunk,
            applied.next_row,
            first_dirty,
            drain,
            following,
        ) {
            Err(message) => Err(message),
            Ok(target) => match step::apply_commit(
                self.machine,
                self.value,
                self.input,
                chunk,
                applied,
                target,
                self.budget,
            ) {
                Err(message) => Err(message),
                Ok(commit) => Ok(ProgressModel::Done(commit)),
            },
        }
    }

    /// What an admission does with a reply.
    pub open spec fn resumes(self, state: ApplyState, reply: Reply) -> Result<
        ProgressModel<ApplyState, AggregateCommit>,
        Seq<char>,
    > {
        match (state, reply) {
            (ApplyState::Opening, Reply::Chunk(chunk)) => match step::apply_input(
                self.value.input,
                chunk,
            ) {
                Err(message) => Err(message),
                Ok((position, chunk)) => self.measures(position, chunk),
            },
            (ApplyState::Measuring { position, chunk }, Reply::Checked) => self.groups(
                position,
                chunk,
            ),
            (ApplyState::Ensuring { position, chunk }, Reply::Rows(rows)) => self.rows(
                position,
                chunk,
                rows@.len() as u64,
            ),
            (
                ApplyState::Applying { position, chunk, ensured },
                Reply::Rows(rows),
            ) => match apply::applied(
                rows@.len() as int,
                ApplyRow::of(rows@),
                position.row_ordinal,
                ensured,
            ) {
                Err(message) => Err(message),
                Ok(applied) => Ok(
                    ProgressModel::Ask {
                        state: ApplyState::Finding { chunk, applied },
                        request: RequestModel::Read(apply::dirty_query(self.sql.dirty@)),
                    },
                ),
            },
            (ApplyState::Finding { chunk, applied }, Reply::Rows(rows)) => match apply::first_dirty(
                rows@.len() as int,
                session::bigint(rows@, 1),
            ) {
                Err(message) => Err(message),
                Ok(first_dirty) => Ok(
                    ProgressModel::Ask {
                        state: ApplyState::Admitting { chunk, applied, first_dirty },
                        request: RequestModel::Admit { usage: applied.usage },
                    },
                ),
            },
            (
                ApplyState::Admitting { chunk, applied, first_dirty },
                Reply::Drain(drain),
            ) => self.follows(chunk, applied, first_dirty, drain),
            (
                ApplyState::Following { chunk, applied, first_dirty, drain },
                Reply::Chunk(following),
            ) => self.closes(chunk, applied, first_dirty, drain, following),
            _ => Err(MISPLACED@),
        }
    }

    fn ensure(&self, position: InputPosition, chunk: ChunkMeta) -> (outcome: Result<
        Progress<ApplyState, AggregateCommit>,
        String,
    >)
        requires
            self.wf(),
            chunk.sequence < i64::MAX,
        ensures
            text::agrees_view(outcome, self.groups(position, chunk)),
            outcome matches Ok(Progress::Ask { state, .. }) ==> self.waits(state),
    {
        let statement = ensure_groups_statement(
            self.sql,
            &chunk,
            position.row_ordinal,
            &self.budget,
        )?;
        Ok(
            Progress::Ask {
                state: ApplyState::Ensuring { position, chunk },
                request: Request::Write(statement),
            },
        )
    }

    fn close(
        &self,
        chunk: ChunkMeta,
        applied: ApplyFacts,
        first_dirty: i64,
        drain: bool,
        following: Option<ChunkMeta>,
    ) -> (outcome: Result<Progress<ApplyState, AggregateCommit>, String>)
        requires
            chunk.sequence < i64::MAX,
        ensures
            text::agrees_view(outcome, self.closes(chunk, applied, first_dirty, drain, following)),
            outcome matches Ok(Progress::Ask { state, .. }) ==> self.waits(state),
    {
        let target = plan_target(
            self.input.stream_id,
            &chunk,
            applied.next_row,
            first_dirty,
            drain,
            &following,
        )?;
        let commit = commit_apply(
            self.machine,
            self.value,
            &self.input,
            &chunk,
            &applied,
            target,
            self.budget,
        )?;
        Ok(Progress::Done(commit))
    }

    /// Opens the admission.
    pub fn open(&self) -> (outcome: Result<Progress<ApplyState, AggregateCommit>, String>)
        ensures
            text::agrees_view(outcome, self.opening()),
            outcome matches Ok(Progress::Ask { state, .. }) ==> self.waits(state),
    {
        match self.value.input {
            None => fail("Aggregate Apply omitted its input cursor"),
            Some(position) => Ok(
                Progress::Ask {
                    state: ApplyState::Opening,
                    request: Request::Chunk {
                        port: self.input.port,
                        sequence: position.chunk_seq,
                    },
                },
            ),
        }
    }

    /// Goes on with the reply to the last request.
    pub fn resume(&self, state: ApplyState, reply: Reply) -> (outcome: Result<
        Progress<ApplyState, AggregateCommit>,
        String,
    >)
        requires
            self.wf(),
            self.waits(state),
            reply.bounded(),
        ensures
            text::agrees_view(outcome, self.resumes(state, reply)),
            outcome matches Ok(Progress::Ask { state, .. }) ==> self.waits(state),
    {
        match (state, reply) {
            (ApplyState::Opening, Reply::Chunk(chunk)) => {
                let (position, chunk) = open_apply(self.value.input, &chunk)?;
                if measures_payload(position) {
                    return Ok(
                        Progress::Ask {
                            state: ApplyState::Measuring { position, chunk },
                            request: Request::Measure { port: self.input.port, chunk },
                        },
                    );
                }
                self.ensure(position, chunk)
            },
            (ApplyState::Measuring { position, chunk }, Reply::Checked) => {
                self.ensure(position, chunk)
            },
            (ApplyState::Ensuring { position, chunk }, Reply::Rows(rows)) => {
                let ensured: u64 = rows.len() as u64;
                let statement = apply_statement(
                    self.sql,
                    &chunk,
                    position.row_ordinal,
                    &self.budget,
                )?;
                Ok(
                    Progress::Ask {
                        state: ApplyState::Applying { position, chunk, ensured },
                        request: Request::Write(statement),
                    },
                )
            },
            (ApplyState::Applying { position, chunk, ensured }, Reply::Rows(rows)) => {
                let applied = decode_apply(
                    rows.len(),
                    &ApplyRow::read(&rows),
                    position.row_ordinal,
                    ensured,
                )?;
                Ok(
                    Progress::Ask {
                        state: ApplyState::Finding { chunk, applied },
                        request: Request::Read(Statement::new(first_dirty_query(self.sql.dirty))),
                    },
                )
            },
            (ApplyState::Finding { chunk, applied }, Reply::Rows(rows)) => {
                let first_dirty: i64 = decode_first_dirty(rows.len(), first_bigint(&rows, 1))?;
                Ok(
                    Progress::Ask {
                        state: ApplyState::Admitting { chunk, applied, first_dirty },
                        request: Request::Admit { usage: applied.usage },
                    },
                )
            },
            (ApplyState::Admitting { chunk, applied, first_dirty }, Reply::Drain(drain)) => {
                if applied.next_row >= 0 && applied.next_row as u64 == chunk.rows {
                    return Ok(
                        Progress::Ask {
                            state: ApplyState::Following { chunk, applied, first_dirty, drain },
                            request: Request::Chunk {
                                port: self.input.port,
                                sequence: chunk.sequence + 1,
                            },
                        },
                    );
                }
                self.close(chunk, applied, first_dirty, drain, None)
            },
            (
                ApplyState::Following { chunk, applied, first_dirty, drain },
                Reply::Chunk(following),
            ) => self.close(chunk, applied, first_dirty, drain, following),
            _ => fail(MISPLACED),
        }
    }

    /// The most requests that an admission still makes behind a state.
    pub open spec fn requests_left(self, state: ApplyState) -> int {
        match state {
            ApplyState::Opening => 7,
            ApplyState::Measuring { .. } => 6,
            ApplyState::Ensuring { .. } => 5,
            ApplyState::Applying { .. } => 4,
            ApplyState::Finding { .. } => 3,
            ApplyState::Admitting { .. } => 2,
            ApplyState::Following { .. } => 1,
        }
    }
}

/// An admission ends: every reply that leads to a further request leaves fewer
/// of them to come.
pub proof fn admission_ends(plan: ApplyPlan, state: ApplyState, reply: Reply)
    ensures
        plan.requests_left(state) >= 1,
        plan.resumes(state, reply) matches Ok(ProgressModel::Ask { state: next, .. })
            ==> plan.requests_left(next) < plan.requests_left(state),
{
}

/// What an admission reports as consumed is what the statement admitted from
/// the cursor on: the same usage goes to the drain schedule and to the commit.
pub proof fn admitted_usage_is_committed(plan: ApplyPlan, state: ApplyState, reply: Reply)
    ensures
        plan.resumes(state, reply) matches Ok(ProgressModel::Done(commit)) ==> (match state {
            ApplyState::Admitting { applied, .. } => commit.facts.usage == applied.usage,
            ApplyState::Following { applied, .. } => commit.facts.usage == applied.usage,
            _ => false,
        }),
{
}

} // verus!
