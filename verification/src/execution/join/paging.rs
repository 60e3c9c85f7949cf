//! A whole chunk of an inner Join at once, where it fits the budget.

use vstd::prelude::*;

use crate::execution::join::layout::Layout;
use crate::execution::join::opening::Inputs;
use crate::execution::join::pages::{
    self, append_page_statement, decode_appended_page, decode_measured_page, decode_own_state,
    decode_page_candidates, effective_budget, finish_inner_page, measure_page_statement,
    next_input, own_state_statement, page_appends, page_candidates_statement, page_fits_input,
    InnerPage,
};
use crate::execution::join::planner::InputSide;
use crate::execution::stream::{
    ChunkKind, ChunkMeta, InputAdvance, InputState, OutputAppend, OutputAppendTarget, OutputState,
};
use crate::planner::{WorkBudget, WorkUsage};
use crate::session::{
    self, first_bigint, Progress, ProgressModel, Reply, Request, RequestModel, MISPLACED,
};
use crate::text::{self, fail};

verus! {

/// What the measure of a page works with.
pub struct MeasurePlan<'a> {
    pub layout: &'a Layout,
    pub inputs: Inputs,
    pub output: OutputState,
    pub budget: WorkBudget,
}

/// What the measure waits for.
#[derive(Clone, Copy, Debug, PartialEq, Eq, Structural)]
pub enum MeasureState {
    PeekingLeft,
    PeekingRight { left: Option<ChunkMeta> },
    Checking { side: InputSide, head: ChunkMeta, budget: WorkBudget },
    Sizing { side: InputSide, head: ChunkMeta, budget: WorkBudget },
}

impl<'a> MeasurePlan<'a> {
    /// The first request: the next chunk of the left input.
    pub open spec fn opening(self) -> ProgressModel<MeasureState, Option<InnerPage>> {
        ProgressModel::Ask {
            state: MeasureState::PeekingLeft,
            request: RequestModel::Next { port: self.inputs.left.port },
        }
    }

    /// The oldest chunk is a page if it is data and fits the budget.
    pub open spec fn weighs(self, left: Option<ChunkMeta>, right: Option<ChunkMeta>) -> Result<
        ProgressModel<MeasureState, Option<InnerPage>>,
        Seq<char>,
    > {
        match pages::earliest(left, right) {
            None => Ok(ProgressModel::Done(None)),
            Some((side, head)) => if head.kind is Frontier {
                Ok(ProgressModel::Done(None))
            } else {
                match pages::clamped(self.budget, self.output) {
                    Err(message) => Err(message),
                    Ok(budget) => Ok(
                        if head.rows <= budget.max_input_rows && head.bytes
                            <= budget.max_input_bytes {
                            ProgressModel::Ask {
                                state: MeasureState::Checking { side, head, budget },
                                request: RequestModel::Measure {
                                    port: self.inputs.of(side).port,
                                    chunk: head,
                                },
                            }
                        } else {
                            ProgressModel::Done(None)
                        },
                    ),
                }
            },
        }
    }

    /// What the measure does with a reply.
    pub open spec fn resumes(self, state: MeasureState, reply: Reply) -> Result<
        ProgressModel<MeasureState, Option<InnerPage>>,
        Seq<char>,
    > {
        match (state, reply) {
            (MeasureState::PeekingLeft, Reply::Chunk(left)) => Ok(
                ProgressModel::Ask {
                    state: MeasureState::PeekingRight { left },
                    request: RequestModel::Next { port: self.inputs.right.port },
                },
            ),
            (MeasureState::PeekingRight { left }, Reply::Chunk(right)) => self.weighs(left, right),
            (MeasureState::Checking { side, head, budget }, Reply::Checked) => Ok(
                ProgressModel::Ask {
                    state: MeasureState::Sizing { side, head, budget },
                    request: RequestModel::Read(pages::measure_query(*self.layout, side, head)),
                },
            ),
            (
                MeasureState::Sizing { side, head, budget },
                Reply::Rows(rows),
            ) => match pages::page_read(
                rows@.len() as int,
                side,
                head,
                session::bigint(rows@, 1),
                session::bigint(rows@, 2),
                budget,
            ) {
                Err(message) => Err(message),
                Ok(page) => Ok(ProgressModel::Done(page)),
            },
            _ => Err(MISPLACED@),
        }
    }

    /// Opens the measure.
    pub fn open(&self) -> (progress: Progress<MeasureState, Option<InnerPage>>)
        ensures
            progress@ == self.opening(),
    {
        Progress::Ask {
            state: MeasureState::PeekingLeft,
            request: Request::Next { port: self.inputs.left.port },
        }
    }

    fn weigh(&self, left: Option<ChunkMeta>, right: Option<ChunkMeta>) -> (outcome: Result<
        Progress<MeasureState, Option<InnerPage>>,
        String,
    >)
        ensures
            text::agrees_view(outcome, self.weighs(left, right)),
    {
        let (side, head) = match next_input(left, right) {
            Some(head) => head,
            None => return Ok(Progress::Done(None)),
        };
        if head.kind == ChunkKind::Frontier {
            return Ok(Progress::Done(None));
        }
        let budget = effective_budget(&self.budget, &self.output)?;
        if !page_fits_input(&head, &budget) {
            return Ok(Progress::Done(None));
        }
        Ok(
            Progress::Ask {
                state: MeasureState::Checking { side, head, budget },
                request: Request::Measure { port: self.inputs.get(side).port, chunk: head },
            },
        )
    }

    /// Goes on with the reply to the last request.
    pub fn resume(&self, state: MeasureState, reply: Reply) -> (outcome: Result<
        Progress<MeasureState, Option<InnerPage>>,
        String,
    >)
        ensures
            text::agrees_view(outcome, self.resumes(state, reply)),
    {
        match (state, reply) {
            (MeasureState::PeekingLeft, Reply::Chunk(left)) => Ok(
                Progress::Ask {
                    state: MeasureState::PeekingRight { left },
                    request: Request::Next { port: self.inputs.right.port },
                },
            ),
            (MeasureState::PeekingRight { left }, Reply::Chunk(right)) => self.weigh(left, right),
            (MeasureState::Checking { side, head, budget }, Reply::Checked) => Ok(
                Progress::Ask {
                    state: MeasureState::Sizing { side, head, budget },
                    request: Request::Read(measure_page_statement(self.layout, side, &head)),
                },
            ),
            (MeasureState::Sizing { side, head, budget }, Reply::Rows(rows)) => {
                let page = decode_measured_page(
                    rows.len(),
                    side,
                    &head,
                    first_bigint(&rows, 1),
                    first_bigint(&rows, 2),
                    &budget,
                )?;
                Ok(Progress::Done(page))
            },
            _ => fail(MISPLACED),
        }
    }
}

/// What a measured page works with.
pub struct PagePlan<'a> {
    pub layout: &'a Layout,
    pub output: OutputState,
    /// The input that the page comes from.
    pub owner: InputState,
    pub page: InnerPage,
    /// The canonical key of the row `effect.row_value`.
    pub row_key: &'a str,
}

/// What a page waits for.
#[derive(Clone, Copy, Debug, PartialEq, Eq, Structural)]
pub enum PageState {
    Placing,
    Appending { target: OutputAppendTarget },
    Counting { append: Option<OutputAppend> },
    Owning { append: Option<OutputAppend> },
}

/// What a page commits.
#[derive(Clone, Copy, Debug, PartialEq, Eq, Structural)]
pub struct PageClose {
    pub append: Option<OutputAppend>,
    pub advance: InputAdvance,
    pub usage: WorkUsage,
}

impl<'a> PagePlan<'a> {
    pub open spec fn counts(self, append: Option<OutputAppend>) -> ProgressModel<
        PageState,
        PageClose,
    > {
        ProgressModel::Ask {
            state: PageState::Counting { append },
            request: RequestModel::Write(
                pages::candidates_query(*self.layout, self.page.side, self.page.chunk),
            ),
        }
    }

    /// The first request: the place of the output, if there is any.
    pub open spec fn opening(self) -> Result<ProgressModel<PageState, PageClose>, Seq<char>> {
        match pages::appends_output(self.page.output_rows, self.page.output_bytes) {
            Err(message) => Err(message),
            Ok(true) => Ok(
                ProgressModel::Ask {
                    state: PageState::Placing,
                    request: RequestModel::Target {
                        rows: self.page.output_rows,
                        bytes: self.page.output_bytes,
                    },
                },
            ),
            Ok(false) => Ok(self.counts(None)),
        }
    }

    /// What a page does with a reply.
    pub open spec fn resumes(self, state: PageState, reply: Reply) -> Result<
        ProgressModel<PageState, PageClose>,
        Seq<char>,
    > {
        match (state, reply) {
            (PageState::Placing, Reply::Target(target)) => match pages::append_page_model(
                *self.layout,
                self.page.side,
                self.page.chunk,
                self.output,
                target,
            ) {
                Err(message) => Err(message),
                Ok(statement) => Ok(
                    ProgressModel::Ask {
                        state: PageState::Appending { target },
                        request: RequestModel::Write(statement),
                    },
                ),
            },
            (PageState::Appending { target }, Reply::Rows(rows)) => match pages::append_page_read(
                rows@.len() as usize,
                self.page,
                target,
                session::bigint(rows@, 1),
                session::bigint(rows@, 2),
            ) {
                Err(message) => Err(message),
                Ok(append) => Ok(self.counts(Some(append))),
            },
            (PageState::Counting { append }, Reply::Rows(rows)) => text::guarded(
                pages::candidates_sound(
                    rows@.len() as int,
                    session::bigint(rows@, 1),
                    session::bigint(rows@, 2),
                ),
                ProgressModel::Ask {
                    state: PageState::Owning { append },
                    request: RequestModel::Write(
                        pages::own_state_query(
                            *self.layout,
                            self.page.side,
                            self.row_key@,
                            self.page.chunk,
                        ),
                    ),
                },
            ),
            (PageState::Owning { append }, Reply::Rows(rows)) => match pages::own_state_sound(
                rows@.len() as int,
                session::bigint(rows@, 1),
                session::bigint(rows@, 2),
                session::bigint(rows@, 3),
            ) {
                Err(message) => Err(message),
                Ok(()) => match pages::page_advanced(self.page, self.owner) {
                    Err(message) => Err(message),
                    Ok((advance, usage)) => Ok(
                        ProgressModel::Done(PageClose { append, advance, usage }),
                    ),
                },
            },
            _ => Err(MISPLACED@),
        }
    }

    fn count(&self, append: Option<OutputAppend>) -> (progress: Progress<PageState, PageClose>)
        ensures
            progress@ == self.counts(append),
    {
        Progress::Ask {
            state: PageState::Counting { append },
            request: Request::Write(
                page_candidates_statement(self.layout, self.page.side, &self.page.chunk),
            ),
        }
    }

    /// Opens the page.
    pub fn open(&self) -> (outcome: Result<Progress<PageState, PageClose>, String>)
        ensures
            text::agrees_view(outcome, self.opening()),
    {
        if page_appends(self.page.output_rows, self.page.output_bytes)? {
            return Ok(
                Progress::Ask {
                    state: PageState::Placing,
                    request: Request::Target {
                        rows: self.page.output_rows,
                        bytes: self.page.output_bytes,
                    },
                },
            );
        }
        Ok(self.count(None))
    }

    /// Goes on with the reply to the last request.
    pub fn resume(&self, state: PageState, reply: Reply) -> (outcome: Result<
        Progress<PageState, PageClose>,
        String,
    >)
        ensures
            text::agrees_view(outcome, self.resumes(state, reply)),
    {
        match (state, reply) {
            (PageState::Placing, Reply::Target(target)) => {
                let statement = append_page_statement(
                    self.layout,
                    self.page.side,
                    &self.page.chunk,
                    &self.output,
                    target,
                )?;
                Ok(
                    Progress::Ask {
                        state: PageState::Appending { target },
                        request: Request::Write(statement),
                    },
                )
            },
            (PageState::Appending { target }, Reply::Rows(rows)) => {
                let append = decode_appended_page(
                    rows.len(),
                    &self.page,
                    target,
                    first_bigint(&rows, 1),
                    first_bigint(&rows, 2),
                )?;
                Ok(self.count(Some(append)))
            },
            (PageState::Counting { append }, Reply::Rows(rows)) => {
                decode_page_candidates(
                    rows.len(),
                    first_bigint(&rows, 1),
                    first_bigint(&rows, 2),
                )?;
                Ok(
                    Progress::Ask {
                        state: PageState::Owning { append },
                        request: Request::Write(
                            own_state_statement(
                                self.layout,
                                self.page.side,
                                self.row_key,
                                &self.page.chunk,
                            ),
                        ),
                    },
                )
            },
            (PageState::Owning { append }, Reply::Rows(rows)) => {
                decode_own_state(
                    rows.len(),
                    first_bigint(&rows, 1),
                    first_bigint(&rows, 2),
                    first_bigint(&rows, 3),
                )?;
                let (advance, usage) = finish_inner_page(&self.page, &self.owner)?;
                Ok(Progress::Done(PageClose { append, advance, usage }))
            },
            _ => fail(MISPLACED),
        }
    }

    /// The most requests that a page still makes behind a state.
    pub open spec fn requests_left(self, state: PageState) -> int {
        match state {
            PageState::Placing => 4,
            PageState::Appending { .. } => 3,
            PageState::Counting { .. } => 2,
            PageState::Owning { .. } => 1,
        }
    }
}

/// A page ends: every reply that leads to a further request leaves fewer of
/// them to come.
pub proof fn page_ends(plan: PagePlan, state: PageState, reply: Reply)
    ensures
        plan.requests_left(state) >= 1,
        plan.resumes(state, reply) matches Ok(ProgressModel::Ask { state: next, .. })
            ==> plan.requests_left(next) < plan.requests_left(state),
{
}

/// A page commits only behind both of its state changes: that of the
/// candidates and that of its own side.
pub proof fn page_commits_behind_both_states(plan: PagePlan, state: PageState, reply: Reply)
    ensures
        plan.resumes(state, reply) matches Ok(ProgressModel::Done(_)) ==> state is Owning,
        plan.resumes(state, reply) matches Ok(
            ProgressModel::Ask { state: PageState::Owning { .. }, .. },
        ) ==> state is Counting,
{
}

} // verus!
