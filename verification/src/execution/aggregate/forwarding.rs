//! The frontier of an Aggregate stage: it goes out behind a drained queue, and
//! a stage without keys first publishes its one group.

use vstd::prelude::*;

use crate::execution::aggregate::machine::{AggregateContinuation, AggregateMachine};
use crate::execution::aggregate::step::{
    self, commit_frontier, commit_global_group, global_group_statement, materialized_query,
    open_frontier, queue_empty_query, queues_global_group, require_drained, AggregateCommit,
};
use crate::execution::stream::{ChunkMeta, InputState};
use crate::planner::WorkBudget;
use crate::session::{
    self, answered_boolean, first_bigint, Progress, ProgressModel, Reply, Request, RequestModel,
    MISPLACED,
};
use crate::sql::{Statement, StatementModel};
use crate::text::{self, fail};

verus! {

/// What the forwarding of a frontier works with.
pub struct FrontierPlan<'a> {
    pub machine: AggregateMachine,
    pub value: AggregateContinuation,
    pub input: InputState,
    /// The grouping keys of the stage.
    pub keys: usize,
    pub budget: WorkBudget,
    pub groups: &'a str,
    pub dirty: &'a str,
}

/// What the forwarding waits for.
#[derive(Clone, Copy, Debug, PartialEq, Eq, Structural)]
pub enum FrontierState {
    Opening,
    Checking { chunk: ChunkMeta },
    Looking { chunk: ChunkMeta },
    Queuing,
    Forwarding { chunk: ChunkMeta },
}

/// What a frontier commits; one that went out also resets the admitted work.
#[derive(Clone, Copy, Debug, PartialEq, Eq, Structural)]
pub struct FrontierClose {
    pub commit: AggregateCommit,
    pub forwarded: bool,
}

/// Whether a table holds nothing.
pub open spec fn empty_query(relation: Seq<char>) -> StatementModel {
    StatementModel {
        sql: "SELECT NOT EXISTS(SELECT 1 FROM "@ + relation + ")"@,
        arguments: Seq::empty(),
    }
}

/// Whether a table holds something.
pub open spec fn filled_query(relation: Seq<char>) -> StatementModel {
    StatementModel {
        sql: "SELECT EXISTS(SELECT 1 FROM "@ + relation + ")"@,
        arguments: Seq::empty(),
    }
}

impl<'a> FrontierPlan<'a> {
    /// Whether a state is one that this frontier waits in.
    pub open spec fn waits(self, state: FrontierState) -> bool {
        match state {
            FrontierState::Checking { chunk } => chunk.sequence < i64::MAX,
            FrontierState::Looking { chunk } => self.keys == 0 && chunk.sequence < i64::MAX,
            FrontierState::Forwarding { chunk } => chunk.sequence < i64::MAX,
            _ => true,
        }
    }

    /// The first request: the chunk at the cursor.
    pub open spec fn opening(self) -> Result<
        ProgressModel<FrontierState, FrontierClose>,
        Seq<char>,
    > {
        match self.value.input {
            None => Err("Aggregate frontier omitted its input cursor"@),
            Some(position) => Ok(
                ProgressModel::Ask {
                    state: FrontierState::Opening,
                    request: RequestModel::Chunk {
                        port: self.input.port,
                        sequence: position.chunk_seq,
                    },
                },
            ),
        }
    }

    pub open spec fn forwards(self, chunk: ChunkMeta) -> ProgressModel<
        FrontierState,
        FrontierClose,
    > {
        ProgressModel::Ask {
            state: FrontierState::Forwarding { chunk },
            request: RequestModel::Frontier { lsn: chunk.lsn },
        }
    }

    /// What the forwarding does with a reply.
    pub open spec fn resumes(self, state: FrontierState, reply: Reply) -> Result<
        ProgressModel<FrontierState, FrontierClose>,
        Seq<char>,
    > {
        match (state, reply) {
            (FrontierState::Opening, Reply::Chunk(chunk)) => match step::frontier_input(
                self.value.input,
                chunk,
            ) {
                Err(message) => Err(message),
                Ok(chunk) => Ok(
                    ProgressModel::Ask {
                        state: FrontierState::Checking { chunk },
                        request: RequestModel::Read(empty_query(self.dirty@)),
                    },
                ),
            },
            (FrontierState::Checking { chunk }, Reply::Rows(rows)) => match session::boolean_answer(
                rows@,
                1,
            ) {
                Err(message) => Err(message),
                Ok(empty) => text::guarded(
                    step::drained(empty),
                    if self.keys > 0 {
                        self.forwards(chunk)
                    } else {
                        ProgressModel::Ask {
                            state: FrontierState::Looking { chunk },
                            request: RequestModel::Read(filled_query(self.groups@)),
                        }
                    },
                ),
            },
            (
                FrontierState::Looking { chunk },
                Reply::Rows(rows),
            ) => match session::boolean_answer(rows@, 1) {
                Err(message) => Err(message),
                Ok(filled) => match step::global_group_due(self.keys, filled) {
                    Err(message) => Err(message),
                    Ok(false) => Ok(self.forwards(chunk)),
                    Ok(true) => Ok(
                        ProgressModel::Ask {
                            state: FrontierState::Queuing,
                            request: RequestModel::Write(
                                step::global_group_query(self.groups@, self.dirty@, chunk.lsn),
                            ),
                        },
                    ),
                },
            },
            (FrontierState::Queuing, Reply::Rows(rows)) => match step::global_group_commit(
                self.machine,
                self.value,
                rows@.len() as int,
                session::bigint(rows@, 1),
                self.budget,
            ) {
                Err(message) => Err(message),
                Ok(commit) => Ok(
                    ProgressModel::Done(FrontierClose { commit, forwarded: false }),
                ),
            },
            (FrontierState::Forwarding { chunk }, Reply::Output(output)) => match step::frontier_commit(
                self.machine,
                self.value,
                chunk,
                output,
                self.budget,
            ) {
                Err(message) => Err(message),
                Ok(commit) => Ok(ProgressModel::Done(FrontierClose { commit, forwarded: true })),
            },
            _ => Err(MISPLACED@),
        }
    }

    fn forward(&self, chunk: ChunkMeta) -> (progress: Progress<FrontierState, FrontierClose>)
        ensures
            progress@ == self.forwards(chunk),
    {
        Progress::Ask {
            state: FrontierState::Forwarding { chunk },
            request: Request::Frontier { lsn: chunk.lsn },
        }
    }

    /// Opens the frontier.
    pub fn open(&self) -> (outcome: Result<Progress<FrontierState, FrontierClose>, String>)
        ensures
            text::agrees_view(outcome, self.opening()),
            outcome matches Ok(Progress::Ask { state, .. }) ==> self.waits(state),
    {
        match self.value.input {
            None => fail("Aggregate frontier omitted its input cursor"),
            Some(position) => Ok(
                Progress::Ask {
                    state: FrontierState::Opening,
                    request: Request::Chunk {
                        port: self.input.port,
                        sequence: position.chunk_seq,
                    },
                },
            ),
        }
    }

    /// Goes on with the reply to the last request.
    pub fn resume(&self, state: FrontierState, reply: Reply) -> (outcome: Result<
        Progress<FrontierState, FrontierClose>,
        String,
    >)
        requires
            self.waits(state),
            reply.bounded(),
        ensures
            text::agrees_view(outcome, self.resumes(state, reply)),
            outcome matches Ok(Progress::Ask { state, .. }) ==> self.waits(state),
    {
        match (state, reply) {
            (FrontierState::Opening, Reply::Chunk(chunk)) => {
                let chunk = open_frontier(self.value.input, &chunk)?;
                Ok(
                    Progress::Ask {
                        state: FrontierState::Checking { chunk },
                        request: Request::Read(Statement::new(queue_empty_query(self.dirty))),
                    },
                )
            },
            (FrontierState::Checking { chunk }, Reply::Rows(rows)) => {
                require_drained(answered_boolean(&rows, 1)?)?;
                if self.keys > 0 {
                    return Ok(self.forward(chunk));
                }
                Ok(
                    Progress::Ask {
                        state: FrontierState::Looking { chunk },
                        request: Request::Read(Statement::new(materialized_query(self.groups))),
                    },
                )
            },
            (FrontierState::Looking { chunk }, Reply::Rows(rows)) => {
                if !queues_global_group(self.keys, answered_boolean(&rows, 1)?)? {
                    return Ok(self.forward(chunk));
                }
                Ok(
                    Progress::Ask {
                        state: FrontierState::Queuing,
                        request: Request::Write(
                            global_group_statement(self.groups, self.dirty, chunk.lsn),
                        ),
                    },
                )
            },
            (FrontierState::Queuing, Reply::Rows(rows)) => {
                let commit = commit_global_group(
                    self.machine,
                    self.value,
                    rows.len(),
                    first_bigint(&rows, 1),
                    self.budget,
                )?;
                Ok(Progress::Done(FrontierClose { commit, forwarded: false }))
            },
            (FrontierState::Forwarding { chunk }, Reply::Output(output)) => {
                let commit = commit_frontier(
                    self.machine,
                    self.value,
                    &chunk,
                    output,
                    self.budget,
                )?;
                Ok(Progress::Done(FrontierClose { commit, forwarded: true }))
            },
            _ => fail(MISPLACED),
        }
    }

    /// The most requests that a frontier still makes behind a state.
    pub open spec fn requests_left(self, state: FrontierState) -> int {
        match state {
            FrontierState::Opening => 4,
            FrontierState::Checking { .. } => 3,
            FrontierState::Looking { .. } => 2,
            FrontierState::Queuing => 1,
            FrontierState::Forwarding { .. } => 1,
        }
    }
}

/// The forwarding of a frontier ends: every reply that leads to a further
/// request leaves fewer of them to come.
pub proof fn forwarding_ends(plan: FrontierPlan, state: FrontierState, reply: Reply)
    ensures
        plan.requests_left(state) >= 1,
        plan.resumes(state, reply) matches Ok(ProgressModel::Ask { state: next, .. })
            ==> plan.requests_left(next) < plan.requests_left(state),
{
}

/// A frontier goes out only where the queue was seen empty, and in a stage
/// without keys only where its one group was seen materialized.
pub proof fn frontier_goes_out_behind_a_drain(
    plan: FrontierPlan,
    state: FrontierState,
    reply: Reply,
)
    requires
        plan.waits(state),
    ensures
        plan.resumes(state, reply) matches Ok(
            ProgressModel::Ask { state: FrontierState::Forwarding { chunk }, .. },
        ) ==> (if plan.keys > 0 {
            &&& state == (FrontierState::Checking { chunk })
            &&& reply matches Reply::Rows(rows) && session::boolean(rows@, 1) == Some(true)
        } else {
            &&& state == (FrontierState::Looking { chunk })
            &&& reply matches Reply::Rows(rows) && session::boolean(rows@, 1) == Some(true)
        }),
{
}

} // verus!
