//! What a Join writes for one event: output rows, the candidates that it met,
//! and its own arrangement row.

use vstd::prelude::*;

use crate::execution::join::layout::Layout;
use crate::execution::join::planner::{CandidateStateChange, InputEventFacts, OwnStateChange};
use crate::execution::join::statements::{
    self, append_statement, candidate_changes_statement, decode_append, decode_candidate_changes,
    own_change_statement, require_own_change, ActionRows, AppendRow, ExpectedOutput,
};
use crate::execution::stream::{OutputAppend, OutputAppendTarget, OutputState};
use crate::session::{
    self, answered_bigint, Progress, ProgressModel, Reply, Request, RequestModel, MISPLACED,
};
use crate::sql::{Statement, StatementModel};
use crate::text::{self, fail};

verus! {

/// What the writing of planned actions works with.
pub struct PublishPlan<'a> {
    pub layout: &'a Layout,
    pub output: OutputState,
    /// The position of the chunk that the event stands in.
    pub lsn: u64,
    /// The output rows, if there are any.
    pub rows: Option<&'a ActionRows>,
    /// The arrangement of the candidates.
    pub state: &'a str,
    pub changes: &'a [CandidateStateChange],
}

/// What the writing waits for.
#[derive(Clone, Copy, Debug, PartialEq, Eq, Structural)]
pub enum PublishState {
    Placing,
    Appending { target: OutputAppendTarget },
    Changing { append: Option<OutputAppend> },
}

/// The rows that were appended, and the candidates that changed.
#[derive(Clone, Copy, Debug, PartialEq, Eq, Structural)]
pub struct Published {
    pub append: Option<OutputAppend>,
    pub changed: u64,
}

/// Output rows as a mathematical value: their SQL, and what they must append.
#[verifier::ext_equal]
pub struct RowsModel {
    pub sql: Seq<char>,
    pub expected: ExpectedOutput,
}

/// The writing of planned actions as a mathematical value.
#[verifier::ext_equal]
pub struct PublishModel {
    pub payload: Seq<char>,
    pub output: OutputState,
    pub lsn: u64,
    pub rows: Option<RowsModel>,
    pub state: Seq<char>,
    pub changes: Seq<CandidateStateChange>,
}

impl<'a> View for PublishPlan<'a> {
    type V = PublishModel;

    open spec fn view(&self) -> PublishModel {
        PublishModel {
            payload: self.layout.output_payload@,
            output: self.output,
            lsn: self.lsn,
            rows: match self.rows {
                Some(rows) => Some(RowsModel { sql: rows.sql@, expected: rows.expected }),
                None => None,
            },
            state: self.state@,
            changes: self.changes@,
        }
    }
}

impl PublishModel {
    /// The first request: the place of the output rows, if there are any.
    pub open spec fn opening(self) -> ProgressModel<PublishState, Published> {
        match self.rows {
            Some(rows) => ProgressModel::Ask {
                state: PublishState::Placing,
                request: RequestModel::Target {
                    rows: rows.expected.rows,
                    bytes: rows.expected.bytes,
                },
            },
            None => self.candidates(None),
        }
    }

    pub open spec fn candidates(self, append: Option<OutputAppend>) -> ProgressModel<
        PublishState,
        Published,
    > {
        if self.changes.len() == 0 {
            ProgressModel::Done(Published { append, changed: 0 })
        } else {
            ProgressModel::Ask {
                state: PublishState::Changing { append },
                request: RequestModel::Write(
                    StatementModel {
                        sql: statements::changes_sql(self.state, self.changes),
                        arguments: Seq::empty(),
                    },
                ),
            }
        }
    }

    /// What the writing does with a reply.
    pub open spec fn resumes(self, state: PublishState, reply: Reply) -> Result<
        ProgressModel<PublishState, Published>,
        Seq<char>,
    > {
        match (state, reply) {
            (PublishState::Placing, Reply::Target(target)) => match self.rows {
                None => Err(MISPLACED@),
                Some(rows) => match statements::append_model(
                    rows.sql,
                    rows.expected,
                    self.payload,
                    self.output,
                    target,
                ) {
                    Err(message) => Err(message),
                    Ok(statement) => Ok(
                        ProgressModel::Ask {
                            state: PublishState::Appending { target },
                            request: RequestModel::Write(statement),
                        },
                    ),
                },
            },
            (PublishState::Appending { target }, Reply::Rows(answer)) => match self.rows {
                None => Err(MISPLACED@),
                Some(rows) => match statements::append_read(
                    answer@.len() as int,
                    AppendRow::of(answer@),
                    rows.expected,
                    target,
                    self.lsn,
                ) {
                    Err(message) => Err(message),
                    Ok(append) => Ok(self.candidates(Some(append))),
                },
            },
            (
                PublishState::Changing { append },
                Reply::Rows(answer),
            ) => match session::bigint_answer(answer@, 1) {
                Err(message) => Err(message),
                Ok(count) => match statements::candidates_changed(
                    count,
                    self.changes.len() as usize,
                ) {
                    Err(message) => Err(message),
                    Ok(changed) => Ok(ProgressModel::Done(Published { append, changed })),
                },
            },
            _ => Err(MISPLACED@),
        }
    }
}

impl<'a> PublishPlan<'a> {
    fn change(&self, append: Option<OutputAppend>) -> (progress: Progress<PublishState, Published>)
        ensures
            progress@ == self@.candidates(append),
    {
        if self.changes.len() == 0 {
            return Progress::Done(Published { append, changed: 0 });
        }
        Progress::Ask {
            state: PublishState::Changing { append },
            request: Request::Write(
                Statement::new(candidate_changes_statement(self.state, self.changes)),
            ),
        }
    }

    /// Opens the writing.
    pub fn open(&self) -> (progress: Progress<PublishState, Published>)
        ensures
            progress@ == self@.opening(),
    {
        match self.rows {
            Some(rows) => Progress::Ask {
                state: PublishState::Placing,
                request: Request::Target {
                    rows: rows.expected.rows,
                    bytes: rows.expected.bytes,
                },
            },
            None => self.change(None),
        }
    }

    /// Goes on with the reply to the last request.
    pub fn resume(&self, state: PublishState, reply: Reply) -> (outcome: Result<
        Progress<PublishState, Published>,
        String,
    >)
        ensures
            text::agrees_view(outcome, self@.resumes(state, reply)),
    {
        match (state, reply, self.rows) {
            (PublishState::Placing, Reply::Target(target), Some(rows)) => {
                let statement = append_statement(self.layout, rows, &self.output, target)?;
                Ok(
                    Progress::Ask {
                        state: PublishState::Appending { target },
                        request: Request::Write(statement),
                    },
                )
            },
            (PublishState::Appending { target }, Reply::Rows(answer), Some(rows)) => {
                let append = decode_append(
                    answer.len(),
                    &AppendRow::read(&answer),
                    &rows.expected,
                    target,
                    self.lsn,
                )?;
                Ok(self.change(Some(append)))
            },
            (PublishState::Changing { append }, Reply::Rows(answer), _) => {
                let changed: u64 = decode_candidate_changes(
                    answered_bigint(&answer, 1)?,
                    self.changes.len(),
                )?;
                Ok(Progress::Done(Published { append, changed }))
            },
            _ => fail(MISPLACED),
        }
    }
}

/// The writing ends with the rows that were planned, in the place that was
/// found for them, and with every candidate change that was planned.
pub proof fn planned_actions_are_written(plan: PublishModel, state: PublishState, reply: Reply)
    requires
        plan.changes.len() <= usize::MAX,
    ensures
        plan.resumes(state, reply) matches Ok(ProgressModel::Done(published)) ==> {
            &&& published.changed == plan.changes.len()
            &&& match state {
                PublishState::Appending { target } => published.append matches Some(append)
                    && append.target == target && append.rows == plan.rows->0.expected.rows
                    && append.bytes == plan.rows->0.expected.bytes && append.lsn == plan.lsn,
                PublishState::Changing { append } => published.append == append,
                PublishState::Placing => false,
            }
        },
{
}

/// What the change of an own arrangement row works with.
pub struct OwnPlan<'a> {
    pub layout: &'a Layout,
    pub event: InputEventFacts,
    pub change: OwnStateChange,
    /// The canonical key of the row of the event.
    pub row_key: &'a str,
}

/// What the change waits for: its one statement.
#[derive(Clone, Copy, Debug, PartialEq, Eq, Structural)]
pub enum OwnState {
    Changing,
}

impl<'a> OwnPlan<'a> {
    /// The request.
    pub open spec fn opening(self) -> Result<ProgressModel<OwnState, ()>, Seq<char>> {
        match statements::own_change_sql(*self.layout, self.event, self.change, self.row_key@) {
            Err(message) => Err(message),
            Ok(sql) => Ok(
                ProgressModel::Ask {
                    state: OwnState::Changing,
                    request: RequestModel::Write(
                        StatementModel { sql, arguments: Seq::empty() },
                    ),
                },
            ),
        }
    }

    /// What the change does with a reply.
    pub open spec fn resumes(self, state: OwnState, reply: Reply) -> Result<
        ProgressModel<OwnState, ()>,
        Seq<char>,
    > {
        match (state, reply) {
            (OwnState::Changing, Reply::Rows(rows)) => text::guarded(
                statements::own_changed(rows@.len() as int),
                ProgressModel::Done(()),
            ),
            _ => Err(MISPLACED@),
        }
    }

    /// Opens the change.
    pub fn open(&self) -> (outcome: Result<Progress<OwnState, ()>, String>)
        ensures
            text::agrees_view(outcome, self.opening()),
    {
        let sql = own_change_statement(self.layout, &self.event, &self.change, self.row_key)?;
        Ok(
            Progress::Ask {
                state: OwnState::Changing,
                request: Request::Write(Statement::new(sql)),
            },
        )
    }

    /// Goes on with the reply to the request.
    pub fn resume(&self, state: OwnState, reply: Reply) -> (outcome: Result<
        Progress<OwnState, ()>,
        String,
    >)
        ensures
            text::agrees_view(outcome, self.resumes(state, reply)),
    {
        match (state, reply) {
            (OwnState::Changing, Reply::Rows(rows)) => {
                require_own_change(rows.len())?;
                Ok(Progress::Done(()))
            },
            _ => fail(MISPLACED),
        }
    }
}

} // verus!
