//! The phases of a Distinct stage, request by request.

use vstd::prelude::*;

use crate::execution::contract::OutputFacts;
use crate::execution::distinct::machine::{DistinctActionResult, DistinctMachine};
use crate::execution::distinct::opening::Opened;
use crate::execution::distinct::statements::{
    self, apply_statement, decode_apply, decode_drain, decode_reconcile, drain_statement,
    prefix_facts, queue_probe, reconcile_statement, require_empty_queue, ApplyFacts, ApplyRow,
    DrainRow, DrainSql, PrefixSql, ReconcileRow, ReconcileSql,
};
use crate::execution::distinct::step::{
    self, commit_apply, commit_drain, finish_frontier, measures_payload, validate_frontier,
    DistinctCommit,
};
use crate::execution::stream::{advance_past_frontier, InputAdvance, InputState, OutputAppend, OutputState};
use crate::planner::WorkBudget;
use crate::session::{Progress, ProgressModel, Reply, Request, RequestModel, MISPLACED};
use crate::sql::{Statement, StatementModel};
use crate::text::{self, fail};

verus! {

/// Asks for the first effect that is still queued.
pub open spec fn queue_query(queue: Seq<char>) -> StatementModel {
    StatementModel {
        sql: "SELECT queue_id FROM "@ + queue + " ORDER BY queue_id LIMIT 1"@,
        arguments: Seq::empty(),
    }
}

/// No new input and no frontier passes effects that are still queued.
pub open spec fn queue_empty(rows: int) -> Result<(), Seq<char>> {
    text::holds(rows == 0, "Distinct Apply/frontier found undrained effects"@)
}

/// What the forwarding of a frontier works with.
pub struct FrontierPlan<'a> {
    pub opened: Opened,
    pub budget: WorkBudget,
    pub queue: &'a str,
}

/// What the forwarding waits for.
#[derive(Clone, Copy, Debug, PartialEq, Eq, Structural)]
pub enum FrontierState {
    Checking,
    Forwarding,
}

impl<'a> FrontierPlan<'a> {
    /// The first request: whether the queue is empty.
    pub open spec fn opening(self) -> Result<
        ProgressModel<FrontierState, DistinctCommit>,
        Seq<char>,
    > {
        text::guarded(
            text::holds(
                self.opened.stored.value.input.row_ordinal == 0,
                "Distinct frontier has a row continuation"@,
            ),
            ProgressModel::Ask {
                state: FrontierState::Checking,
                request: RequestModel::Read(queue_query(self.queue@)),
            },
        )
    }

    /// What a forwarded frontier commits.
    pub open spec fn commits(self, output: OutputFacts) -> Result<DistinctCommit, Seq<char>> {
        match DistinctMachine::applied(
            self.opened.stored.value,
            DistinctActionResult::FrontierForwarded(step::forwarded_facts(output)),
            self.budget,
        ) {
            Err(message) => Err(message),
            Ok(_) => Ok(
                DistinctCommit {
                    facts: step::forwarded_facts(output),
                    next: None,
                    advance: Some(InputAdvance::past_frontier(self.opened.chunk)),
                },
            ),
        }
    }

    /// What the forwarding does with a reply.
    pub open spec fn resumes(self, state: FrontierState, reply: Reply) -> Result<
        ProgressModel<FrontierState, DistinctCommit>,
        Seq<char>,
    > {
        match (state, reply) {
            (FrontierState::Checking, Reply::Rows(rows)) => text::guarded(
                queue_empty(rows@.len() as int),
                ProgressModel::Ask {
                    state: FrontierState::Forwarding,
                    request: RequestModel::Frontier { lsn: self.opened.chunk.lsn },
                },
            ),
            (FrontierState::Forwarding, Reply::Output(output)) => match self.commits(output) {
                Err(message) => Err(message),
                Ok(commit) => Ok(ProgressModel::Done(commit)),
            },
            _ => Err(MISPLACED@),
        }
    }

    /// Opens the frontier.
    pub fn open(&self) -> (outcome: Result<Progress<FrontierState, DistinctCommit>, String>)
        ensures
            text::agrees_view(outcome, self.opening()),
    {
        validate_frontier(&self.opened.stored)?;
        Ok(
            Progress::Ask {
                state: FrontierState::Checking,
                request: Request::Read(Statement::new(queue_probe(self.queue))),
            },
        )
    }

    /// Goes on with the reply to the last request.
    pub fn resume(&self, state: FrontierState, reply: Reply) -> (outcome: Result<
        Progress<FrontierState, DistinctCommit>,
        String,
    >)
        requires
            self.opened.chunk.sequence < i64::MAX,
        ensures
            text::agrees_view(outcome, self.resumes(state, reply)),
    {
        match (state, reply) {
            (FrontierState::Checking, Reply::Rows(rows)) => {
                require_empty_queue(rows.len())?;
                Ok(
                    Progress::Ask {
                        state: FrontierState::Forwarding,
                        request: Request::Frontier { lsn: self.opened.chunk.lsn },
                    },
                )
            },
            (FrontierState::Forwarding, Reply::Output(output)) => {
                let facts = finish_frontier(&self.opened.stored, output, self.budget)?;
                Ok(
                    Progress::Done(
                        DistinctCommit {
                            facts,
                            next: None,
                            advance: Some(advance_past_frontier(&self.opened.chunk)),
                        },
                    ),
                )
            },
            _ => fail(MISPLACED),
        }
    }
}

/// A frontier goes out only where the queue was seen empty.
pub proof fn frontier_goes_out_behind_a_drain(plan: FrontierPlan, state: FrontierState, reply: Reply)
    ensures
        plan.resumes(state, reply) matches Ok(
            ProgressModel::Ask { state: FrontierState::Forwarding, .. },
        ) ==> state is Checking && (reply matches Reply::Rows(rows) && rows@.len() == 0),
{
}

/// What a drain works with.
pub struct DrainPlan<'a> {
    pub opened: Opened,
    pub input: InputState,
    pub budget: WorkBudget,
    pub output: OutputState,
    pub sql: &'a DrainSql<'a>,
}

/// What a drain waits for: its one statement.
#[derive(Clone, Copy, Debug, PartialEq, Eq, Structural)]
pub enum DrainState {
    Draining,
}

/// What a drain commits, and the rows that it appended.
#[derive(Clone, Copy, Debug, PartialEq, Eq, Structural)]
pub struct DrainClose {
    pub commit: DistinctCommit,
    pub append: OutputAppend,
}

impl<'a> DrainPlan<'a> {
    /// The request: a page of queued effects goes to the output.
    pub open spec fn opening(self) -> Result<ProgressModel<DrainState, DrainClose>, Seq<char>> {
        match statements::drain_model(*self.sql, self.budget, self.output) {
            Err(message) => Err(message),
            Ok(statement) => Ok(
                ProgressModel::Ask {
                    state: DrainState::Draining,
                    request: RequestModel::Write(statement),
                },
            ),
        }
    }

    /// What a drain does with a reply.
    pub open spec fn resumes(self, state: DrainState, reply: Reply) -> Result<
        ProgressModel<DrainState, DrainClose>,
        Seq<char>,
    > {
        match (state, reply) {
            (DrainState::Draining, Reply::Rows(rows)) => match statements::drained(
                rows@.len() as int,
                DrainRow::of(rows@),
                self.output,
            ) {
                Err(message) => Err(message),
                Ok(drained) => match step::drain_commit(
                    self.input,
                    self.opened.chunk,
                    self.opened.stored,
                    drained,
                    self.budget,
                ) {
                    Err(message) => Err(message),
                    Ok(commit) => Ok(
                        ProgressModel::Done(DrainClose { commit, append: drained.append }),
                    ),
                },
            },
            _ => Err(MISPLACED@),
        }
    }

    /// Opens the drain.
    pub fn open(&self) -> (outcome: Result<Progress<DrainState, DrainClose>, String>)
        ensures
            text::agrees_view(outcome, self.opening()),
    {
        let statement = drain_statement(self.sql, &self.budget, &self.output)?;
        Ok(Progress::Ask { state: DrainState::Draining, request: Request::Write(statement) })
    }

    /// Goes on with the reply to the request.
    pub fn resume(&self, state: DrainState, reply: Reply) -> (outcome: Result<
        Progress<DrainState, DrainClose>,
        String,
    >)
        requires
            self.opened.chunk.sequence < i64::MAX,
        ensures
            text::agrees_view(outcome, self.resumes(state, reply)),
    {
        match (state, reply) {
            (DrainState::Draining, Reply::Rows(rows)) => {
                let drained = decode_drain(rows.len(), &DrainRow::read(&rows), &self.output)?;
                let commit = commit_drain(
                    &self.input,
                    &self.opened.chunk,
                    &self.opened.stored,
                    &drained,
                    self.budget,
                )?;
                Ok(Progress::Done(DrainClose { commit, append: drained.append }))
            },
            _ => fail(MISPLACED),
        }
    }
}

/// What the admission of a prefix works with.
pub struct ApplyPlan<'a> {
    pub opened: Opened,
    pub input: InputState,
    pub budget: WorkBudget,
    pub prefix: &'a PrefixSql<'a>,
    pub reconcile: &'a ReconcileSql<'a>,
}

/// What an admission waits for.
#[derive(Clone, Copy, Debug, PartialEq, Eq, Structural)]
pub enum ApplyState {
    Measuring,
    Checking,
    Applying,
    Reconciling { applied: ApplyFacts },
}

impl<'a> ApplyPlan<'a> {
    pub open spec fn checks(self) -> ProgressModel<ApplyState, DistinctCommit> {
        ProgressModel::Ask {
            state: ApplyState::Checking,
            request: RequestModel::Read(queue_query(self.reconcile.queue@)),
        }
    }

    /// The first request: a chunk is measured before its first row is taken.
    pub open spec fn opening(self) -> ProgressModel<ApplyState, DistinctCommit> {
        if self.opened.stored.value.phase is Apply
            && self.opened.stored.value.input.row_ordinal == 0 {
            ProgressModel::Ask {
                state: ApplyState::Measuring,
                request: RequestModel::Measure {
                    port: self.input.port,
                    chunk: self.opened.chunk,
                },
            }
        } else {
            self.checks()
        }
    }

    pub open spec fn applies(self) -> Result<ProgressModel<ApplyState, DistinctCommit>, Seq<char>> {
        match statements::apply_query(
            *self.prefix,
            self.opened.chunk,
            self.opened.stored.value.input.row_ordinal,
            self.budget,
        ) {
            Err(message) => Err(message),
            Ok(statement) => Ok(
                ProgressModel::Ask {
                    state: ApplyState::Applying,
                    request: RequestModel::Write(statement),
                },
            ),
        }
    }

    pub open spec fn closes(self, applied: ApplyFacts, rows: int, row: ReconcileRow) -> Result<
        ProgressModel<ApplyState, DistinctCommit>,
        Seq<char>,
    > {
        match statements::reconciled(rows, row, self.budget) {
            Err(message) => Err(message),
            Ok(reconciled) => match statements::prefix_of(applied, reconciled) {
                Err(message) => Err(message),
                Ok(admitted) => match step::apply_commit(
                    self.input,
                    self.opened.chunk,
                    self.opened.stored,
                    admitted,
                    self.budget,
                ) {
                    Err(message) => Err(message),
                    Ok(commit) => Ok(ProgressModel::Done(commit)),
                },
            },
        }
    }

    /// What an admission does with a reply.
    pub open spec fn resumes(self, state: ApplyState, reply: Reply) -> Result<
        ProgressModel<ApplyState, DistinctCommit>,
        Seq<char>,
    > {
        match (state, reply) {
            (ApplyState::Measuring, Reply::Checked) => Ok(self.checks()),
            (ApplyState::Checking, Reply::Rows(rows)) => match queue_empty(rows@.len() as int) {
                Err(message) => Err(message),
                Ok(()) => self.applies(),
            },
            (ApplyState::Applying, Reply::Rows(rows)) => match statements::applied(
                rows@.len() as int,
                ApplyRow::of(rows@),
            ) {
                Err(message) => Err(message),
                Ok(applied) => Ok(
                    ProgressModel::Ask {
                        state: ApplyState::Reconciling { applied },
                        request: RequestModel::Write(
                            statements::reconcile_query(*self.reconcile, self.opened.chunk.lsn),
                        ),
                    },
                ),
            },
            (ApplyState::Reconciling { applied }, Reply::Rows(rows)) => self.closes(
                applied,
                rows@.len() as int,
                ReconcileRow::of(rows@),
            ),
            _ => Err(MISPLACED@),
        }
    }

    fn check(&self) -> (progress: Progress<ApplyState, DistinctCommit>)
        ensures
            progress@ == self.checks(),
    {
        Progress::Ask {
            state: ApplyState::Checking,
            request: Request::Read(Statement::new(queue_probe(self.reconcile.queue))),
        }
    }

    /// Opens the admission.
    pub fn open(&self) -> (progress: Progress<ApplyState, DistinctCommit>)
        ensures
            progress@ == self.opening(),
    {
        if measures_payload(&self.opened.stored) {
            return Progress::Ask {
                state: ApplyState::Measuring,
                request: Request::Measure { port: self.input.port, chunk: self.opened.chunk },
            };
        }
        self.check()
    }

    /// Goes on with the reply to the last request.
    pub fn resume(&self, state: ApplyState, reply: Reply) -> (outcome: Result<
        Progress<ApplyState, DistinctCommit>,
        String,
    >)
        requires
            self.opened.chunk.sequence < i64::MAX,
        ensures
            text::agrees_view(outcome, self.resumes(state, reply)),
    {
        match (state, reply) {
            (ApplyState::Measuring, Reply::Checked) => Ok(self.check()),
            (ApplyState::Checking, Reply::Rows(rows)) => {
                require_empty_queue(rows.len())?;
                let statement = apply_statement(
                    self.prefix,
                    &self.opened.chunk,
                    self.opened.stored.value.input.row_ordinal,
                    &self.budget,
                )?;
                Ok(Progress::Ask { state: ApplyState::Applying, request: Request::Write(statement) })
            },
            (ApplyState::Applying, Reply::Rows(rows)) => {
                let applied = decode_apply(rows.len(), &ApplyRow::read(&rows))?;
                Ok(
                    Progress::Ask {
                        state: ApplyState::Reconciling { applied },
                        request: Request::Write(
                            reconcile_statement(self.reconcile, self.opened.chunk.lsn),
                        ),
                    },
                )
            },
            (ApplyState::Reconciling { applied }, Reply::Rows(rows)) => {
                let reconciled = decode_reconcile(
                    rows.len(),
                    &ReconcileRow::read(&rows),
                    &self.budget,
                )?;
                let admitted = prefix_facts(&applied, &reconciled)?;
                let commit = commit_apply(
                    &self.input,
                    &self.opened.chunk,
                    &self.opened.stored,
                    &admitted,
                    self.budget,
                )?;
                Ok(Progress::Done(commit))
            },
            _ => fail(MISPLACED),
        }
    }

    /// The most requests that an admission still makes behind a state.
    pub open spec fn requests_left(self, state: ApplyState) -> int {
        match state {
            ApplyState::Measuring => 4,
            ApplyState::Checking => 3,
            ApplyState::Applying => 2,
            ApplyState::Reconciling { .. } => 1,
        }
    }
}

/// An admission ends: every reply that leads to a further request leaves fewer
/// of them to come.
pub proof fn admission_ends(plan: ApplyPlan, state: ApplyState, reply: Reply)
    ensures
        plan.requests_left(state) >= 1,
        plan.resumes(state, reply) matches Ok(ProgressModel::Ask { state: next, .. })
            ==> plan.requests_left(next) < plan.requests_left(state),
{
}

/// No row is admitted over effects that are still queued, and every admitted
/// prefix is reconciled before it commits.
pub proof fn prefix_is_reconciled_before_it_commits(
    plan: ApplyPlan,
    state: ApplyState,
    reply: Reply,
)
    ensures
        plan.resumes(state, reply) matches Ok(
            ProgressModel::Ask { state: ApplyState::Applying, .. },
        ) ==> state is Checking && (reply matches Reply::Rows(rows) && rows@.len() == 0),
        plan.resumes(state, reply) matches Ok(ProgressModel::Done(_)) ==> state is Reconciling,
{
}

} // verus!
