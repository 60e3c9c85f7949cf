//! A page of dirty groups, statement by statement: which groups fit, what
//! they publish, and how they leave the queue together.

use vstd::prelude::*;

use crate::execution::aggregate::apply::{self, first_dirty_query};
use crate::execution::aggregate::machine::{AggregateContinuation, AggregateMachine};
use crate::execution::aggregate::pages::{
    self, action_measurement, append_statement, cleanup_query, commit_page, decode_measurement,
    decode_selection, decode_updated, decode_work_probe, dequeue_statement, finish_page,
    publish_statement, require_finished, selection_statement, validate_append, work_probe,
    GroupPage, PageCommit, PageSelection, PageSql, SelectionRow,
};
use crate::execution::stream::{OutputAppend, OutputAppendTarget, OutputState};
use crate::planner::WorkBudget;
use crate::session::{
    self, answered_bigint, answered_boolean, first_bigint, require_bigint_column, Progress,
    ProgressModel, Reply, Request, RequestModel, MISPLACED,
};
use crate::sql::{Statement, StatementModel};
use crate::text::{self, fail};

verus! {

/// What the selection of a page works with.
pub struct SelectPlan<'a> {
    pub group_queue_id: i64,
    pub budget: WorkBudget,
    pub bag: &'a str,
    pub dirty: &'a str,
    /// The fold of each aggregate.
    pub works: &'a Vec<String>,
}

/// The statement that a selection waits for.
#[derive(Clone, Copy, Debug, PartialEq, Eq, Structural)]
pub enum SelectState {
    Probing { index: usize },
    Selecting,
}

impl<'a> SelectPlan<'a> {
    /// Whether a state is one that this selection waits in.
    pub open spec fn waits(self, state: SelectState) -> bool {
        state matches SelectState::Probing { index } ==> index < self.works.len()
    }

    /// The folds are probed in order; the groups are selected behind the last.
    pub open spec fn probes(self, index: int) -> Result<
        ProgressModel<SelectState, Option<PageSelection>>,
        Seq<char>,
    > {
        if index < self.works.len() {
            Ok(
                ProgressModel::Ask {
                    state: SelectState::Probing { index: index as usize },
                    request: RequestModel::Read(
                        pages::probe_query(self.works[index]@, self.dirty@, self.group_queue_id),
                    ),
                },
            )
        } else {
            match pages::selection_query(self.dirty@, self.bag@, self.group_queue_id, self.budget) {
                Err(message) => Err(message),
                Ok(statement) => Ok(
                    ProgressModel::Ask {
                        state: SelectState::Selecting,
                        request: RequestModel::Read(statement),
                    },
                ),
            }
        }
    }

    /// What a selection does with a reply. A fold that has begun leaves the
    /// group to itself.
    pub open spec fn resumes(self, state: SelectState, reply: Reply) -> Result<
        ProgressModel<SelectState, Option<PageSelection>>,
        Seq<char>,
    > {
        match (state, reply) {
            (SelectState::Probing { index }, Reply::Rows(rows)) => match session::boolean_answer(
                rows@,
                1,
            ) {
                Err(message) => Err(message),
                Ok(answer) => match pages::begun(answer) {
                    Err(message) => Err(message),
                    Ok(begun) => if begun {
                        Ok(ProgressModel::Done(None))
                    } else {
                        self.probes(index + 1)
                    },
                },
            },
            (SelectState::Selecting, Reply::Rows(rows)) => match session::bigint_column(
                rows@,
            ) {
                Err(message) => Err(message),
                Ok(()) => match pages::selected(
                    rows@.len() as int,
                    SelectionRow::of(rows@),
                    self.budget,
                ) {
                    Err(message) => Err(message),
                    Ok(selection) => Ok(ProgressModel::Done(selection)),
                },
            },
            _ => Err(MISPLACED@),
        }
    }

    fn probe(&self, index: usize) -> (outcome: Result<
        Progress<SelectState, Option<PageSelection>>,
        String,
    >)
        ensures
            text::agrees_view(outcome, self.probes(index as int)),
            outcome matches Ok(Progress::Ask { state, .. }) ==> self.waits(state),
    {
        if index < self.works.len() {
            return Ok(
                Progress::Ask {
                    state: SelectState::Probing { index },
                    request: Request::Read(
                        work_probe(self.works[index].as_str(), self.dirty, self.group_queue_id),
                    ),
                },
            );
        }
        let statement = selection_statement(
            self.dirty,
            self.bag,
            self.group_queue_id,
            &self.budget,
        )?;
        Ok(Progress::Ask { state: SelectState::Selecting, request: Request::Read(statement) })
    }

    /// Opens the selection.
    pub fn open(&self) -> (outcome: Result<Progress<SelectState, Option<PageSelection>>, String>)
        ensures
            text::agrees_view(outcome, self.probes(0)),
            outcome matches Ok(Progress::Ask { state, .. }) ==> self.waits(state),
    {
        self.probe(0)
    }

    /// Goes on with the reply to the last request.
    pub fn resume(&self, state: SelectState, reply: Reply) -> (outcome: Result<
        Progress<SelectState, Option<PageSelection>>,
        String,
    >)
        requires
            self.waits(state),
        ensures
            text::agrees_view(outcome, self.resumes(state, reply)),
            outcome matches Ok(Progress::Ask { state, .. }) ==> self.waits(state),
    {
        let rows = match reply {
            Reply::Rows(rows) => rows,
            _ => return fail(MISPLACED),
        };
        match state {
            SelectState::Probing { index } => {
                if decode_work_probe(answered_boolean(&rows, 1)?)? {
                    return Ok(Progress::Done(None));
                }
                self.probe(index + 1)
            },
            SelectState::Selecting => {
                require_bigint_column(&rows)?;
                let selection = decode_selection(
                    rows.len(),
                    &SelectionRow::read(&rows),
                    &self.budget,
                )?;
                Ok(Progress::Done(selection))
            },
        }
    }

    /// The most requests that a selection still makes behind a state.
    pub open spec fn requests_left(self, state: SelectState) -> int {
        match state {
            SelectState::Probing { index } => self.works.len() - index + 1,
            SelectState::Selecting => 1,
        }
    }
}

/// A selection ends: every reply that leads to a further request leaves fewer
/// of them to come.
pub proof fn selection_ends(plan: SelectPlan, state: SelectState, reply: Reply)
    requires
        plan.waits(state),
    ensures
        plan.requests_left(state) >= 1,
        plan.resumes(state, reply) matches Ok(ProgressModel::Ask { state: next, .. })
            ==> plan.requests_left(next) < plan.requests_left(state),
{
}

/// What a selected page works with.
pub struct PagePlan<'a> {
    pub machine: AggregateMachine,
    pub value: AggregateContinuation,
    pub group_queue_id: i64,
    pub selection: PageSelection,
    /// The grouping keys of the stage.
    pub keys: usize,
    pub budget: WorkBudget,
    pub output: OutputState,
    pub payload: &'a str,
    pub sql: &'a PageSql<'a>,
}

/// The statement that a page waits for.
#[derive(Clone, Copy, Debug, PartialEq, Eq, Structural)]
pub enum PageState {
    Measuring,
    Placing { page: GroupPage },
    Appending { page: GroupPage, target: OutputAppendTarget },
    Publishing { page: GroupPage, append: Option<OutputAppend> },
    Dequeuing { page: GroupPage, append: Option<OutputAppend>, updated: u64 },
    Cleaning { page: GroupPage, append: Option<OutputAppend>, updated: u64, dequeued: u64 },
    Advancing { page: GroupPage, append: Option<OutputAppend>, state_rows: u64 },
}

/// What a page commits, the rows that it appended and the state that it
/// changed.
#[derive(Clone, Copy, Debug, PartialEq, Eq, Structural)]
pub struct PageClose {
    pub commit: PageCommit,
    pub append: Option<OutputAppend>,
    pub state_rows: u64,
}

/// The rows that a page appended to a chunk.
pub open spec fn page_append(page: GroupPage, target: OutputAppendTarget) -> OutputAppend {
    OutputAppend { target, rows: page.output_rows, bytes: page.output_bytes, lsn: page.causal_lsn }
}

impl<'a> PagePlan<'a> {
    /// The first request: how much the selected groups publish.
    pub open spec fn opening(self) -> ProgressModel<PageState, Option<PageClose>> {
        ProgressModel::Ask {
            state: PageState::Measuring,
            request: RequestModel::Read(
                pages::measurement_query(
                    *self.sql,
                    self.group_queue_id,
                    self.selection.last_queue_id,
                ),
            ),
        }
    }

    /// A measured page finds its place on the output, if it has rows.
    pub open spec fn places(self, page: GroupPage) -> ProgressModel<PageState, Option<PageClose>> {
        if page.output_rows == 0 {
            self.publishes(page, None)
        } else {
            ProgressModel::Ask {
                state: PageState::Placing { page },
                request: RequestModel::Target { rows: page.output_rows, bytes: page.output_bytes },
            }
        }
    }

    pub open spec fn appends(self, page: GroupPage, target: OutputAppendTarget) -> Result<
        ProgressModel<PageState, Option<PageClose>>,
        Seq<char>,
    > {
        match pages::append_query(
            *self.sql,
            self.payload@,
            self.group_queue_id,
            page,
            self.output,
            target,
        ) {
            Err(message) => Err(message),
            Ok(statement) => Ok(
                ProgressModel::Ask {
                    state: PageState::Appending { page, target },
                    request: RequestModel::Write(statement),
                },
            ),
        }
    }

    pub open spec fn publishes(self, page: GroupPage, append: Option<OutputAppend>) -> ProgressModel<
        PageState,
        Option<PageClose>,
    > {
        ProgressModel::Ask {
            state: PageState::Publishing { page, append },
            request: RequestModel::Write(
                pages::publish_query(*self.sql, self.group_queue_id, page.last_queue_id),
            ),
        }
    }

    pub open spec fn dequeues(self, page: GroupPage, append: Option<OutputAppend>, updated: u64) -> ProgressModel<
        PageState,
        Option<PageClose>,
    > {
        ProgressModel::Ask {
            state: PageState::Dequeuing { page, append, updated },
            request: RequestModel::Write(
                pages::dequeue_query(self.sql.dirty@, self.group_queue_id, page.last_queue_id),
            ),
        }
    }

    /// Groups that hold nothing any more leave behind the page, unless the
    /// stage has no keys.
    pub open spec fn cleans(
        self,
        page: GroupPage,
        append: Option<OutputAppend>,
        updated: u64,
        dequeued: u64,
    ) -> Result<ProgressModel<PageState, Option<PageClose>>, Seq<char>> {
        if self.keys == 0 {
            self.advances(page, append, updated, dequeued, 0)
        } else {
            Ok(
                ProgressModel::Ask {
                    state: PageState::Cleaning { page, append, updated, dequeued },
                    request: RequestModel::Write(
                        StatementModel {
                            sql: text::rendered(
                                pages::CLEANUP_SQL@,
                                seq![("groups"@, self.sql.groups@), ("bag"@, self.sql.bag@)],
                            ),
                            arguments: Seq::empty(),
                        },
                    ),
                },
            )
        }
    }

    pub open spec fn advances(
        self,
        page: GroupPage,
        append: Option<OutputAppend>,
        updated: u64,
        dequeued: u64,
        deleted: u64,
    ) -> Result<ProgressModel<PageState, Option<PageClose>>, Seq<char>> {
        match pages::page_state_rows(updated, dequeued, deleted) {
            Err(message) => Err(message),
            Ok(state_rows) => Ok(
                ProgressModel::Ask {
                    state: PageState::Advancing { page, append, state_rows },
                    request: RequestModel::Read(apply::dirty_query(self.sql.dirty@)),
                },
            ),
        }
    }

    /// What a page does with a reply.
    pub open spec fn resumes(self, state: PageState, reply: Reply) -> Result<
        ProgressModel<PageState, Option<PageClose>>,
        Seq<char>,
    > {
        match (state, reply) {
            (PageState::Measuring, Reply::Rows(rows)) => match pages::measured(
                rows@.len() as int,
                session::bigint(rows@, 1),
                session::bigint(rows@, 2),
                self.selection,
                self.budget,
            ) {
                Err(message) => Err(message),
                Ok(None) => Ok(ProgressModel::Done(None)),
                Ok(Some(page)) => Ok(self.places(page)),
            },
            (PageState::Placing { page }, Reply::Target(target)) => self.appends(page, target),
            (PageState::Appending { page, target }, Reply::Rows(rows)) => match pages::append_sound(
                rows@.len() as int,
                session::bigint(rows@, 1),
                session::bigint(rows@, 2),
                page,
            ) {
                Err(message) => Err(message),
                Ok(()) => Ok(self.publishes(page, Some(page_append(page, target)))),
            },
            (PageState::Publishing { page, append }, Reply::Rows(rows)) => match session::bigint_answer(
                rows@,
                1,
            ) {
                Err(message) => Err(message),
                Ok(answer) => match pages::updated_groups(answer) {
                    Err(message) => Err(message),
                    Ok(updated) => Ok(self.dequeues(page, append, updated)),
                },
            },
            (
                PageState::Dequeuing { page, append, updated },
                Reply::Rows(rows),
            ) => match pages::page_finished(updated, rows@.len() as u64) {
                Err(message) => Err(message),
                Ok(()) => self.cleans(page, append, updated, rows@.len() as u64),
            },
            (
                PageState::Cleaning { page, append, updated, dequeued },
                Reply::Rows(rows),
            ) => self.advances(page, append, updated, dequeued, rows@.len() as u64),
            (
                PageState::Advancing { page, append, state_rows },
                Reply::Rows(rows),
            ) => match session::bigint_answer(rows@, 1) {
                Err(message) => Err(message),
                Ok(next) => match pages::page_commit(self.machine, self.value, page, next) {
                    Err(message) => Err(message),
                    Ok(commit) => Ok(
                        ProgressModel::Done(Some(PageClose { commit, append, state_rows })),
                    ),
                },
            },
            _ => Err(MISPLACED@),
        }
    }

    fn publish(&self, page: GroupPage, append: Option<OutputAppend>) -> (progress: Progress<
        PageState,
        Option<PageClose>,
    >)
        ensures
            progress@ == self.publishes(page, append),
    {
        Progress::Ask {
            state: PageState::Publishing { page, append },
            request: Request::Write(
                publish_statement(self.sql, self.group_queue_id, page.last_queue_id),
            ),
        }
    }

    fn advance(
        &self,
        page: GroupPage,
        append: Option<OutputAppend>,
        updated: u64,
        dequeued: u64,
        deleted: u64,
    ) -> (outcome: Result<Progress<PageState, Option<PageClose>>, String>)
        ensures
            text::agrees_view(outcome, self.advances(page, append, updated, dequeued, deleted)),
    {
        let state_rows: u64 = finish_page(updated, dequeued, deleted)?;
        Ok(
            Progress::Ask {
                state: PageState::Advancing { page, append, state_rows },
                request: Request::Read(Statement::new(first_dirty_query(self.sql.dirty))),
            },
        )
    }

    /// Opens the page.
    pub fn open(&self) -> (progress: Progress<PageState, Option<PageClose>>)
        ensures
            progress@ == self.opening(),
    {
        Progress::Ask {
            state: PageState::Measuring,
            request: Request::Read(
                action_measurement(self.sql, self.group_queue_id, self.selection.last_queue_id),
            ),
        }
    }

    /// Goes on with the reply to the last request.
    pub fn resume(&self, state: PageState, reply: Reply) -> (outcome: Result<
        Progress<PageState, Option<PageClose>>,
        String,
    >)
        ensures
            text::agrees_view(outcome, self.resumes(state, reply)),
    {
        match (state, reply) {
            (PageState::Measuring, Reply::Rows(rows)) => {
                let page = match decode_measurement(
                    rows.len(),
                    first_bigint(&rows, 1),
                    first_bigint(&rows, 2),
                    self.selection,
                    &self.budget,
                )? {
                    Some(page) => page,
                    None => return Ok(Progress::Done(None)),
                };
                if page.output_rows == 0 {
                    return Ok(self.publish(page, None));
                }
                Ok(
                    Progress::Ask {
                        state: PageState::Placing { page },
                        request: Request::Target {
                            rows: page.output_rows,
                            bytes: page.output_bytes,
                        },
                    },
                )
            },
            (PageState::Placing { page }, Reply::Target(target)) => {
                let statement = append_statement(
                    self.sql,
                    self.payload,
                    self.group_queue_id,
                    &page,
                    &self.output,
                    target,
                )?;
                Ok(
                    Progress::Ask {
                        state: PageState::Appending { page, target },
                        request: Request::Write(statement),
                    },
                )
            },
            (PageState::Appending { page, target }, Reply::Rows(rows)) => {
                validate_append(
                    rows.len(),
                    first_bigint(&rows, 1),
                    first_bigint(&rows, 2),
                    &page,
                )?;
                let append = OutputAppend {
                    target,
                    rows: page.output_rows,
                    bytes: page.output_bytes,
                    lsn: page.causal_lsn,
                };
                Ok(self.publish(page, Some(append)))
            },
            (PageState::Publishing { page, append }, Reply::Rows(rows)) => {
                let updated: u64 = decode_updated(answered_bigint(&rows, 1)?)?;
                Ok(
                    Progress::Ask {
                        state: PageState::Dequeuing { page, append, updated },
                        request: Request::Write(
                            dequeue_statement(
                                self.sql.dirty,
                                self.group_queue_id,
                                page.last_queue_id,
                            ),
                        ),
                    },
                )
            },
            (PageState::Dequeuing { page, append, updated }, Reply::Rows(rows)) => {
                let dequeued: u64 = rows.len() as u64;
                require_finished(updated, dequeued)?;
                if self.keys == 0 {
                    return self.advance(page, append, updated, dequeued, 0);
                }
                Ok(
                    Progress::Ask {
                        state: PageState::Cleaning { page, append, updated, dequeued },
                        request: Request::Write(
                            Statement::new(cleanup_query(self.sql.groups, self.sql.bag)),
                        ),
                    },
                )
            },
            (PageState::Cleaning { page, append, updated, dequeued }, Reply::Rows(rows)) => {
                self.advance(page, append, updated, dequeued, rows.len() as u64)
            },
            (PageState::Advancing { page, append, state_rows }, Reply::Rows(rows)) => {
                let next = answered_bigint(&rows, 1)?;
                let commit = commit_page(self.machine, self.value, &page, next)?;
                Ok(Progress::Done(Some(PageClose { commit, append, state_rows })))
            },
            _ => fail(MISPLACED),
        }
    }

    /// The most requests that a page still makes behind a state.
    pub open spec fn requests_left(self, state: PageState) -> int {
        match state {
            PageState::Measuring => 7,
            PageState::Placing { .. } => 6,
            PageState::Appending { .. } => 5,
            PageState::Publishing { .. } => 4,
            PageState::Dequeuing { .. } => 3,
            PageState::Cleaning { .. } => 2,
            PageState::Advancing { .. } => 1,
        }
    }
}

/// A page ends: every reply that leads to a further request leaves fewer of
/// them to come.
pub proof fn page_ends(plan: PagePlan, state: PageState, reply: Reply)
    ensures
        plan.requests_left(state) >= 1,
        plan.resumes(state, reply) matches Ok(ProgressModel::Ask { state: next, .. })
            ==> plan.requests_left(next) < plan.requests_left(state),
{
}

/// What a page appends is what was measured for it, in the place that was
/// found for it, and nothing is appended for a page without output.
pub proof fn page_appends_its_measure(plan: PagePlan, state: PageState, reply: Reply)
    ensures
        plan.resumes(state, reply) matches Ok(
            ProgressModel::Ask { state: PageState::Publishing { page, append }, .. },
        ) ==> (match append {
            None => page.output_rows == 0,
            Some(append) => state == (PageState::Appending { page, target: append.target })
                && append.rows == page.output_rows && append.bytes == page.output_bytes
                && append.lsn == page.causal_lsn,
        }),
{
}

} // verus!
