//! The fold of one aggregate over a page of rows of a group.

use vstd::prelude::*;

use crate::execution::aggregate::machine::{AggregateContinuation, AggregateMachine};
use crate::execution::aggregate::rebuild::{
    self, decode_rebuild, initialize_statement, rebuild_statement, validate_initialized,
    RebuildRow, RebuildSql, RebuildTarget,
};
use crate::execution::aggregate::step::{self, commit_rebuild, AggregateCommit};
use crate::planner::WorkBudget;
use crate::session::{
    self, require_columns, Progress, ProgressModel, Reply, Request, RequestModel, MISPLACED,
};
use crate::text::{self, fail};

verus! {

/// What a fold works with.
pub struct RebuildPlan<'a> {
    pub machine: AggregateMachine,
    pub value: AggregateContinuation,
    pub target: RebuildTarget,
    pub budget: WorkBudget,
    /// The SQL of the initial state.
    pub initial_state: &'a str,
    pub sql: &'a RebuildSql<'a>,
}

/// The statement that a fold waits for.
#[derive(Clone, Copy, Debug, PartialEq, Eq, Structural)]
pub enum RebuildState {
    Initializing,
    Folding { initialized: u64 },
}

impl<'a> RebuildPlan<'a> {
    /// The first request: the fold is opened where it has not begun.
    pub open spec fn opening(self) -> ProgressModel<RebuildState, AggregateCommit> {
        ProgressModel::Ask {
            state: RebuildState::Initializing,
            request: RequestModel::Write(
                rebuild::initialize_query(
                    self.sql.work@,
                    self.sql.dirty@,
                    self.initial_state@,
                    *self.sql.capability,
                    self.target.group_queue_id,
                ),
            ),
        }
    }

    pub open spec fn folds(self, initialized: u64) -> Result<
        ProgressModel<RebuildState, AggregateCommit>,
        Seq<char>,
    > {
        match rebuild::rebuild_query(*self.sql, self.target.group_queue_id, self.budget) {
            Err(message) => Err(message),
            Ok(statement) => Ok(
                ProgressModel::Ask {
                    state: RebuildState::Folding { initialized },
                    request: RequestModel::Write(statement),
                },
            ),
        }
    }

    /// What a fold does with a reply.
    pub open spec fn resumes(self, state: RebuildState, reply: Reply) -> Result<
        ProgressModel<RebuildState, AggregateCommit>,
        Seq<char>,
    > {
        match (state, reply) {
            (RebuildState::Initializing, Reply::Rows(rows)) => if rows@.len() > 1 {
                Err("Aggregate rebuild initialized multiple work rows"@)
            } else {
                self.folds(rows@.len() as u64)
            },
            (RebuildState::Folding { initialized }, Reply::Rows(rows)) => match session::columns(
                rows@,
                RebuildRow::kinds(),
            ) {
                Err(message) => Err(message),
                Ok(()) => match rebuild::rebuilt(
                    rows@.len() as int,
                    RebuildRow::of(rows@),
                ) {
                    Err(message) => Err(message),
                    Ok(rebuilt) => match step::rebuild_commit(
                        self.machine,
                        self.value,
                        initialized,
                        rebuilt,
                        self.budget,
                    ) {
                        Err(message) => Err(message),
                        Ok(commit) => Ok(ProgressModel::Done(commit)),
                    },
                },
            },
            _ => Err(MISPLACED@),
        }
    }

    /// Opens the fold.
    pub fn open(&self) -> (progress: Progress<RebuildState, AggregateCommit>)
        ensures
            progress@ == self.opening(),
    {
        Progress::Ask {
            state: RebuildState::Initializing,
            request: Request::Write(
                initialize_statement(
                    self.sql.work,
                    self.sql.dirty,
                    self.initial_state,
                    self.sql.capability,
                    self.target.group_queue_id,
                ),
            ),
        }
    }

    /// Goes on with the reply to the last request.
    pub fn resume(&self, state: RebuildState, reply: Reply) -> (outcome: Result<
        Progress<RebuildState, AggregateCommit>,
        String,
    >)
        ensures
            text::agrees_view(outcome, self.resumes(state, reply)),
    {
        match (state, reply) {
            (RebuildState::Initializing, Reply::Rows(rows)) => {
                validate_initialized(rows.len())?;
                let initialized: u64 = rows.len() as u64;
                let statement = rebuild_statement(
                    self.sql,
                    self.target.group_queue_id,
                    &self.budget,
                )?;
                Ok(
                    Progress::Ask {
                        state: RebuildState::Folding { initialized },
                        request: Request::Write(statement),
                    },
                )
            },
            (RebuildState::Folding { initialized }, Reply::Rows(rows)) => {
                require_columns(&rows, &RebuildRow::column_kinds())?;
                let rebuilt = decode_rebuild(rows.len(), &RebuildRow::read(&rows))?;
                let commit = commit_rebuild(
                    self.machine,
                    self.value,
                    initialized,
                    &rebuilt,
                    self.budget,
                )?;
                Ok(Progress::Done(commit))
            },
            _ => fail(MISPLACED),
        }
    }
}

/// A fold ends with its second statement.
pub proof fn fold_takes_two_statements(plan: RebuildPlan, state: RebuildState, reply: Reply)
    ensures
        plan.resumes(state, reply) matches Ok(ProgressModel::Ask { state: next, .. }) ==> state
            == RebuildState::Initializing && next is Folding,
{
}

} // verus!
