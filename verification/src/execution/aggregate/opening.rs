//! The continuation that a step of an Aggregate stage takes up: the stored
//! one, or the start of the next chunk.

use vstd::prelude::*;

use crate::execution::aggregate::apply::{self, first_dirty_query};
use crate::execution::aggregate::machine::AggregateMachine;
use crate::execution::aggregate::step::{self, start_execute_continuation, validate_cursor};
use crate::execution::aggregate::storage::{
    self, load_execute_continuation, load_query, AggregateRow, StoredAggregate,
};
use crate::execution::stream::{ChunkKind, ChunkMeta, InputState};
use crate::session::{
    self, first_bigint, require_bigint_column, require_columns, Progress, ProgressModel, Reply,
    Request, RequestModel, MISPLACED,
};
use crate::sql::{Statement, StatementModel};
use crate::text::{self, fail};

verus! {

/// What the opening of a step works with.
pub struct OpenPlan<'a> {
    pub machine: AggregateMachine,
    pub input: InputState,
    /// The continuation relation.
    pub relation: &'a str,
    pub dirty: &'a str,
}

/// What the opening waits for.
#[derive(Clone, Copy, Debug, PartialEq, Eq, Structural)]
pub enum OpenState {
    Loading,
    Peeking,
    Finding { chunk: ChunkMeta },
    Authorizing { stored: StoredAggregate },
}

impl<'a> OpenPlan<'a> {
    /// The first request: the stored continuation.
    pub open spec fn opening(self) -> ProgressModel<OpenState, StoredAggregate> {
        ProgressModel::Ask {
            state: OpenState::Loading,
            request: RequestModel::Lock(
                StatementModel {
                    sql: text::rendered(storage::LOAD_SQL@, seq![("relation"@, self.relation@)]),
                    arguments: Seq::empty(),
                },
            ),
        }
    }

    /// A continuation is taken up only if the catalog agrees with it.
    pub open spec fn authorizes(self, stored: StoredAggregate) -> ProgressModel<
        OpenState,
        StoredAggregate,
    > {
        ProgressModel::Ask {
            state: OpenState::Authorizing { stored },
            request: RequestModel::Authority { present: stored.persisted },
        }
    }

    pub open spec fn starts(
        self,
        chunk: Option<ChunkMeta>,
        dirty_rows: usize,
        first_dirty: Option<i64>,
    ) -> Result<ProgressModel<OpenState, StoredAggregate>, Seq<char>> {
        match step::started(chunk, dirty_rows, first_dirty) {
            Err(message) => Err(message),
            Ok(stored) => Ok(self.authorizes(stored)),
        }
    }

    /// What the opening does with a reply.
    pub open spec fn resumes(self, state: OpenState, reply: Reply) -> Result<
        ProgressModel<OpenState, StoredAggregate>,
        Seq<char>,
    > {
        match (state, reply) {
            (OpenState::Loading, Reply::Rows(rows)) => match session::columns(
                rows@,
                AggregateRow::kinds(),
            ) {
                Err(message) => Err(message),
                Ok(()) => match storage::loaded(
                    rows@.len() as usize,
                    AggregateRow::of(rows@),
                ) {
                    Err(message) => Err(message),
                    Ok(Some(stored)) => Ok(self.authorizes(stored)),
                    Ok(None) => Ok(
                        ProgressModel::Ask {
                            state: OpenState::Peeking,
                            request: RequestModel::Next { port: self.input.port },
                        },
                    ),
                },
            },
            (OpenState::Peeking, Reply::Chunk(chunk)) => match chunk {
                Some(head) => if head.kind is Frontier {
                    Ok(
                        ProgressModel::Ask {
                            state: OpenState::Finding { chunk: head },
                            request: RequestModel::Read(apply::dirty_query(self.dirty@)),
                        },
                    )
                } else {
                    self.starts(chunk, 0, None)
                },
                None => self.starts(chunk, 0, None),
            },
            (OpenState::Finding { chunk }, Reply::Rows(rows)) => match session::bigint_column(
                rows@,
            ) {
                Err(message) => Err(message),
                Ok(()) => self.starts(
                    Some(chunk),
                    rows@.len() as usize,
                    session::bigint(rows@, 1),
                ),
            },
            (OpenState::Authorizing { stored }, Reply::Checked) => match step::pinned(
                self.machine,
                stored.value,
                self.input,
            ) {
                Err(message) => Err(message),
                Ok(()) => Ok(ProgressModel::Done(stored)),
            },
            _ => Err(MISPLACED@),
        }
    }

    fn authorize(&self, stored: StoredAggregate) -> (progress: Progress<
        OpenState,
        StoredAggregate,
    >)
        ensures
            progress@ == self.authorizes(stored),
    {
        Progress::Ask {
            state: OpenState::Authorizing { stored },
            request: Request::Authority { present: stored.persisted },
        }
    }

    /// Opens the step.
    pub fn open(&self) -> (progress: Progress<OpenState, StoredAggregate>)
        ensures
            progress@ == self.opening(),
    {
        Progress::Ask {
            state: OpenState::Loading,
            request: Request::Lock(Statement::new(load_query(self.relation))),
        }
    }

    /// Goes on with the reply to the last request.
    pub fn resume(&self, state: OpenState, reply: Reply) -> (outcome: Result<
        Progress<OpenState, StoredAggregate>,
        String,
    >)
        ensures
            text::agrees_view(outcome, self.resumes(state, reply)),
    {
        match (state, reply) {
            (OpenState::Loading, Reply::Rows(rows)) => {
                require_columns(&rows, &AggregateRow::column_kinds())?;
                match load_execute_continuation(rows.len(), &AggregateRow::read(&rows))? {
                    Some(stored) => Ok(self.authorize(stored)),
                    None => Ok(
                        Progress::Ask {
                            state: OpenState::Peeking,
                            request: Request::Next { port: self.input.port },
                        },
                    ),
                }
            },
            (OpenState::Peeking, Reply::Chunk(chunk)) => {
                if let Some(head) = chunk {
                    if head.kind == ChunkKind::Frontier {
                        return Ok(
                            Progress::Ask {
                                state: OpenState::Finding { chunk: head },
                                request: Request::Read(
                                    Statement::new(first_dirty_query(self.dirty)),
                                ),
                            },
                        );
                    }
                }
                Ok(self.authorize(start_execute_continuation(&chunk, 0, None)?))
            },
            (OpenState::Finding { chunk }, Reply::Rows(rows)) => {
                require_bigint_column(&rows)?;
                let stored = start_execute_continuation(
                    &Some(chunk),
                    rows.len(),
                    first_bigint(&rows, 1),
                )?;
                Ok(self.authorize(stored))
            },
            (OpenState::Authorizing { stored }, Reply::Checked) => {
                validate_cursor(self.machine, stored.value, &self.input)?;
                Ok(Progress::Done(stored))
            },
            _ => fail(MISPLACED),
        }
    }
}

/// What a step takes up is accepted by the machine and stands at the cursor of
/// its input.
pub proof fn opened_continuation_is_pinned(plan: OpenPlan, state: OpenState, reply: Reply)
    ensures
        plan.resumes(state, reply) matches Ok(ProgressModel::Done(stored)) ==> step::pinned(
            plan.machine,
            stored.value,
            plan.input,
        ) is Ok,
{
}

} // verus!
