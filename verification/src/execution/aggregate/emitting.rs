//! The emission of one rebuilt group, statement by statement: the decision,
//! the one row that is published or retracted, and the end of the group.

use vstd::prelude::*;

use crate::execution::aggregate::apply::{self, first_dirty_query};
use crate::execution::aggregate::emit::{
    self, decision_statement, decode_decision, decode_emission, decode_finished,
    decode_next_dirty, discard_statement, emission_source, emission_statement, finish_statement,
    finished_rows, require_aggregate_one, tombstone_statement, unchanged_statement,
    AggregateOutputExpression, EmissionRow, EmissionSql, EmitSource, OutputDecision,
};
use crate::execution::aggregate::machine::{AggregateContinuation, AggregateMachine, EmitLeg};
use crate::execution::aggregate::step::{self, commit_decision, commit_pending, AggregateCommit};
use crate::execution::stream::{OutputAppend, OutputState};
use crate::planner::WorkBudget;
use crate::session::{
    self, first_bigint, first_text, require_bigint_column, Progress, ProgressModel, Reply, Request,
    RequestModel, MISPLACED,
};
use crate::sql::Statement;
use crate::text::{self, fail};

verus! {

/// What the emission of one group works with.
pub struct EmitPlan<'a> {
    pub machine: AggregateMachine,
    pub value: AggregateContinuation,
    pub group_queue_id: i64,
    pub leg: EmitLeg,
    /// The grouping keys of the stage.
    pub keys: usize,
    pub budget: WorkBudget,
    pub output: OutputState,
    pub bag: &'a str,
    pub groups: &'a str,
    pub dirty: &'a str,
    pub payload: &'a str,
    /// The fold of each aggregate.
    pub works: &'a Vec<String>,
    pub expression: &'a AggregateOutputExpression,
}

/// A group whose output is settled: against a decision, or as the second half
/// of a replacement.
#[derive(Clone, Copy, Debug, PartialEq, Eq, Structural)]
pub enum Settled {
    Decided { decision: OutputDecision, append: Option<OutputAppend> },
    Pending { row: OutputAppend },
}

impl Settled {
    /// The row that was appended, if any.
    pub open spec fn appended(self) -> Option<OutputAppend> {
        match self {
            Settled::Decided { append, .. } => append,
            Settled::Pending { row } => Some(row),
        }
    }
}

/// The statement that an emission waits for.
#[derive(Clone, Copy, Debug, PartialEq, Eq, Structural)]
pub enum EmitState {
    Deciding,
    Clearing,
    Emitting { decision: Option<OutputDecision> },
    Discarding { settled: Settled, discarded: usize },
    Finishing { settled: Settled },
    Removing { settled: Settled },
    Advancing { settled: Settled, finished: u64 },
}

/// What the emission of one group commits, and the row that it appended.
#[derive(Clone, Copy, Debug, PartialEq, Eq, Structural)]
pub struct EmitClose {
    pub commit: AggregateCommit,
    pub append: Option<OutputAppend>,
}

impl<'a> EmitPlan<'a> {
    /// Whether a state is one that this emission waits in.
    pub open spec fn waits(self, state: EmitState) -> bool {
        state matches EmitState::Discarding { discarded, .. } ==> discarded < self.works.len()
    }

    /// The emission that a source asks for.
    pub open spec fn emission(self, source: EmitSource) -> EmissionSql<'a> {
        EmissionSql {
            groups: self.groups,
            dirty: self.dirty,
            payload: self.payload,
            source,
            expression: self.expression,
        }
    }

    pub open spec fn emits(self, decision: Option<OutputDecision>, source: EmitSource) -> ProgressModel<
        EmitState,
        EmitClose,
    > {
        ProgressModel::Ask {
            state: EmitState::Emitting { decision },
            request: RequestModel::Write(
                emit::emission_query(self.emission(source), self.group_queue_id, self.output),
            ),
        }
    }

    /// The first request: the decision on the group, or its pending row.
    pub open spec fn opening(self) -> ProgressModel<EmitState, EmitClose> {
        match self.leg {
            EmitLeg::Decide => ProgressModel::Ask {
                state: EmitState::Deciding,
                request: RequestModel::Lock(
                    emit::decision_query(
                        self.groups@,
                        self.dirty@,
                        self.expression@,
                        self.group_queue_id,
                    ),
                ),
            },
            EmitLeg::InsertPending => self.emits(None, EmitSource::Pending),
        }
    }

    /// What follows a settled row: the folds leave one by one, then the group
    /// leaves the queue, unless its replacement row is still to come.
    pub open spec fn settles(self, settled: Settled, discarded: int) -> Result<
        ProgressModel<EmitState, EmitClose>,
        Seq<char>,
    > {
        if settled is Decided && discarded < self.works.len() {
            Ok(
                ProgressModel::Ask {
                    state: EmitState::Discarding { settled, discarded: discarded as usize },
                    request: RequestModel::Write(
                        emit::discard_query(
                            self.works[discarded]@,
                            self.dirty@,
                            self.group_queue_id,
                        ),
                    ),
                },
            )
        } else if settled matches Settled::Decided { decision: OutputDecision::Replace, .. } {
            self.closes(settled, None, 0)
        } else {
            Ok(
                ProgressModel::Ask {
                    state: EmitState::Finishing { settled },
                    request: RequestModel::Write(
                        emit::finish_query(self.dirty@, self.group_queue_id),
                    ),
                },
            )
        }
    }

    /// Asks for the next dirty group.
    pub open spec fn advances(self, settled: Settled, finished: u64) -> ProgressModel<
        EmitState,
        EmitClose,
    > {
        ProgressModel::Ask {
            state: EmitState::Advancing { settled, finished },
            request: RequestModel::Read(apply::dirty_query(self.dirty@)),
        }
    }

    /// The end of the emission.
    pub open spec fn closes(self, settled: Settled, next: Option<i64>, finished: u64) -> Result<
        ProgressModel<EmitState, EmitClose>,
        Seq<char>,
    > {
        match self.commits(settled, next, finished) {
            Err(message) => Err(message),
            Ok(commit) => Ok(
                ProgressModel::Done(EmitClose { commit, append: settled.appended() }),
            ),
        }
    }

    pub open spec fn commits(self, settled: Settled, next: Option<i64>, finished: u64) -> Result<
        AggregateCommit,
        Seq<char>,
    > {
        match settled {
            Settled::Decided { decision, append } => step::decision_commit(
                self.machine,
                self.value,
                decision,
                append,
                self.works.len() as u64,
                next,
                finished,
                self.budget,
            ),
            Settled::Pending { row } => step::pending_commit(
                self.machine,
                self.value,
                row,
                next,
                finished,
                self.budget,
            ),
        }
    }

    /// What an emission does with a reply.
    pub open spec fn resumes(self, state: EmitState, reply: Reply) -> Result<
        ProgressModel<EmitState, EmitClose>,
        Seq<char>,
    > {
        match (state, reply) {
            (EmitState::Deciding, Reply::Rows(rows)) => match emit::decided(
                rows@.len() as int,
                session::text(rows@, 1),
            ) {
                Err(message) => Err(message),
                Ok(decision) => match EmitSource::of(decision) {
                    Some(source) => Ok(self.emits(Some(decision), source)),
                    None => Ok(
                        ProgressModel::Ask {
                            state: EmitState::Clearing,
                            request: RequestModel::Write(
                                emit::unchanged_query(
                                    self.groups@,
                                    self.dirty@,
                                    self.group_queue_id,
                                ),
                            ),
                        },
                    ),
                },
            },
            (EmitState::Clearing, Reply::Rows(rows)) => if rows@.len() != 1 {
                Err("Aggregate failed to "@ + "clear unchanged pending output"@)
            } else {
                self.settles(
                    Settled::Decided { decision: OutputDecision::Unchanged, append: None },
                    0,
                )
            },
            (EmitState::Emitting { decision }, Reply::Rows(rows)) => match emit::emitted(
                rows@.len() as int,
                EmissionRow::of(rows@),
                self.output,
            ) {
                Err(message) => Err(message),
                Ok(append) => self.settles(
                    match decision {
                        Some(decision) => Settled::Decided { decision, append: Some(append) },
                        None => Settled::Pending { row: append },
                    },
                    0,
                ),
            },
            (EmitState::Discarding { settled, discarded }, Reply::Rows(rows)) => if rows@.len()
                != 1 {
                Err("Aggregate failed to "@ + "discard completed work row"@)
            } else {
                self.settles(settled, discarded + 1)
            },
            (EmitState::Finishing { settled }, Reply::Rows(rows)) => match emit::finished_state(
                rows@.len() as int,
                session::bigint(rows@, 1),
                session::bigint(rows@, 2),
                self.group_queue_id,
            ) {
                Err(message) => Err(message),
                Ok(group_state_id) => if self.keys == 0 {
                    Ok(self.advances(settled, 1))
                } else {
                    Ok(
                        ProgressModel::Ask {
                            state: EmitState::Removing { settled },
                            request: RequestModel::Write(
                                emit::tombstone_query(self.groups@, self.bag@, group_state_id),
                            ),
                        },
                    )
                },
            },
            (EmitState::Removing { settled }, Reply::Rows(rows)) => match emit::rows_finished(
                rows@.len() as int,
            ) {
                Err(message) => Err(message),
                Ok(finished) => Ok(self.advances(settled, finished)),
            },
            (EmitState::Advancing { settled, finished }, Reply::Rows(rows)) => match session::bigint_column(
                rows@,
            ) {
                Err(message) => Err(message),
                Ok(()) => match emit::next_dirty(
                    rows@.len() as int,
                    session::bigint(rows@, 1),
                    self.group_queue_id,
                ) {
                    Err(message) => Err(message),
                    Ok(next) => self.closes(settled, next, finished),
                },
            },
            _ => Err(MISPLACED@),
        }
    }

    fn emit(&self, decision: Option<OutputDecision>, source: EmitSource) -> (progress: Progress<
        EmitState,
        EmitClose,
    >)
        ensures
            progress@ == self.emits(decision, source),
    {
        let sql = EmissionSql {
            groups: self.groups,
            dirty: self.dirty,
            payload: self.payload,
            source,
            expression: self.expression,
        };
        Progress::Ask {
            state: EmitState::Emitting { decision },
            request: Request::Write(emission_statement(&sql, self.group_queue_id, &self.output)),
        }
    }

    /// Opens the emission.
    pub fn open(&self) -> (progress: Progress<EmitState, EmitClose>)
        ensures
            progress@ == self.opening(),
            progress matches Progress::Ask { state, .. } ==> self.waits(state),
    {
        match self.leg {
            EmitLeg::Decide => Progress::Ask {
                state: EmitState::Deciding,
                request: Request::Lock(
                    decision_statement(
                        self.groups,
                        self.dirty,
                        self.expression,
                        self.group_queue_id,
                    ),
                ),
            },
            EmitLeg::InsertPending => self.emit(None, EmitSource::Pending),
        }
    }

    fn settle(&self, settled: Settled, discarded: usize) -> (outcome: Result<
        Progress<EmitState, EmitClose>,
        String,
    >)
        ensures
            text::agrees_view(outcome, self.settles(settled, discarded as int)),
            outcome matches Ok(Progress::Ask { state, .. }) ==> self.waits(state),
    {
        if let Settled::Decided { decision, .. } = settled {
            if discarded < self.works.len() {
                return Ok(
                    Progress::Ask {
                        state: EmitState::Discarding { settled, discarded },
                        request: Request::Write(
                            discard_statement(
                                self.works[discarded].as_str(),
                                self.dirty,
                                self.group_queue_id,
                            ),
                        ),
                    },
                );
            }
            if decision == OutputDecision::Replace {
                return self.close(settled, None, 0);
            }
        }
        Ok(
            Progress::Ask {
                state: EmitState::Finishing { settled },
                request: Request::Write(finish_statement(self.dirty, self.group_queue_id)),
            },
        )
    }

    fn advance(&self, settled: Settled, finished: u64) -> (progress: Progress<
        EmitState,
        EmitClose,
    >)
        ensures
            progress@ == self.advances(settled, finished),
            progress matches Progress::Ask { state, .. } ==> self.waits(state),
    {
        Progress::Ask {
            state: EmitState::Advancing { settled, finished },
            request: Request::Read(Statement::new(first_dirty_query(self.dirty))),
        }
    }

    fn close(&self, settled: Settled, next: Option<i64>, finished: u64) -> (outcome: Result<
        Progress<EmitState, EmitClose>,
        String,
    >)
        ensures
            text::agrees_view(outcome, self.closes(settled, next, finished)),
            outcome matches Ok(Progress::Ask { state, .. }) ==> self.waits(state),
    {
        match settled {
            Settled::Decided { decision, append } => {
                let commit = commit_decision(
                    self.machine,
                    self.value,
                    decision,
                    &append,
                    self.works.len() as u64,
                    next,
                    finished,
                    self.budget,
                )?;
                Ok(Progress::Done(EmitClose { commit, append }))
            },
            Settled::Pending { row } => {
                let commit = commit_pending(
                    self.machine,
                    self.value,
                    row,
                    next,
                    finished,
                    self.budget,
                )?;
                Ok(Progress::Done(EmitClose { commit, append: Some(row) }))
            },
        }
    }

    /// Goes on with the reply to the last request.
    pub fn resume(&self, state: EmitState, reply: Reply) -> (outcome: Result<
        Progress<EmitState, EmitClose>,
        String,
    >)
        requires
            self.waits(state),
        ensures
            text::agrees_view(outcome, self.resumes(state, reply)),
            outcome matches Ok(Progress::Ask { state, .. }) ==> self.waits(state),
    {
        let rows = match reply {
            Reply::Rows(rows) => rows,
            _ => return fail(MISPLACED),
        };
        match state {
            EmitState::Deciding => {
                let decision = decode_decision(rows.len(), &first_text(&rows, 1))?;
                match emission_source(decision) {
                    Some(source) => Ok(self.emit(Some(decision), source)),
                    None => Ok(
                        Progress::Ask {
                            state: EmitState::Clearing,
                            request: Request::Write(
                                unchanged_statement(self.groups, self.dirty, self.group_queue_id),
                            ),
                        },
                    ),
                }
            },
            EmitState::Clearing => {
                require_aggregate_one(rows.len(), "clear unchanged pending output")?;
                self.settle(
                    Settled::Decided { decision: OutputDecision::Unchanged, append: None },
                    0,
                )
            },
            EmitState::Emitting { decision } => {
                let append = decode_emission(rows.len(), &EmissionRow::read(&rows), &self.output)?;
                let settled = match decision {
                    Some(decision) => Settled::Decided { decision, append: Some(append) },
                    None => Settled::Pending { row: append },
                };
                self.settle(settled, 0)
            },
            EmitState::Discarding { settled, discarded } => {
                require_aggregate_one(rows.len(), "discard completed work row")?;
                self.settle(settled, discarded + 1)
            },
            EmitState::Finishing { settled } => {
                let group_state_id: i64 = decode_finished(
                    rows.len(),
                    first_bigint(&rows, 1),
                    first_bigint(&rows, 2),
                    self.group_queue_id,
                )?;
                if self.keys == 0 {
                    return Ok(self.advance(settled, 1));
                }
                Ok(
                    Progress::Ask {
                        state: EmitState::Removing { settled },
                        request: Request::Write(
                            tombstone_statement(self.groups, self.bag, group_state_id),
                        ),
                    },
                )
            },
            EmitState::Removing { settled } => {
                let finished: u64 = finished_rows(rows.len())?;
                Ok(self.advance(settled, finished))
            },
            EmitState::Advancing { settled, finished } => {
                require_bigint_column(&rows)?;
                let next = decode_next_dirty(
                    rows.len(),
                    first_bigint(&rows, 1),
                    self.group_queue_id,
                )?;
                self.close(settled, next, finished)
            },
        }
    }

    /// The most requests that an emission still makes behind a state.
    pub open spec fn requests_left(self, state: EmitState) -> int {
        match state {
            EmitState::Deciding => self.works.len() + 6,
            EmitState::Clearing => self.works.len() + 5,
            EmitState::Emitting { .. } => self.works.len() + 5,
            EmitState::Discarding { discarded, .. } => self.works.len() - discarded + 3,
            EmitState::Finishing { .. } => 3,
            EmitState::Removing { .. } => 2,
            EmitState::Advancing { .. } => 1,
        }
    }
}

/// An emission ends: every reply that leads to a further request leaves fewer
/// of them to come.
pub proof fn emission_ends(plan: EmitPlan, state: EmitState, reply: Reply)
    requires
        plan.waits(state),
    ensures
        plan.requests_left(state) >= 1,
        plan.resumes(state, reply) matches Ok(ProgressModel::Ask { state: next, .. })
            ==> plan.requests_left(next) < plan.requests_left(state),
{
}

/// A decided group leaves the queue only behind the last of its folds, and a
/// group whose row is being replaced does not leave it.
pub proof fn group_leaves_behind_its_folds(plan: EmitPlan, state: EmitState, reply: Reply)
    requires
        plan.waits(state),
    ensures
        plan.resumes(state, reply) matches Ok(
            ProgressModel::Ask { state: EmitState::Finishing { settled }, .. },
        ) ==> settled matches Settled::Decided { decision, .. } ==> decision
            != OutputDecision::Replace && (plan.works.len() == 0 || state
            == (EmitState::Discarding { settled, discarded: (plan.works.len() - 1) as usize })),
{
}

} // verus!
