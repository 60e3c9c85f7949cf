//! What a step of a Join stage takes up, and how an input frontier passes it.

use vstd::prelude::*;

use crate::execution::continuation::{self, lock_one};
use crate::execution::contract::OutputFacts;
use crate::execution::join::kinds;
use crate::execution::join::layout::{
    self, key_index_statement, require_key_index, require_row_key_index, row_key_index_statement,
};
use crate::execution::join::planner::{
    self, FrontierInputFacts, FrontierPlan, InputSide, JoinContinuation,
};
use crate::execution::join::step::{
    self, advance_frontier, close_frontier, open_frontier, open_next_input, plan_input_frontier,
    validate_frontier_chunk, JoinKind, JoinTransition, OpenedInput,
};
use crate::execution::join::storage::{decode_continuation, JoinRow};
use crate::execution::stream::{ChunkKind, ChunkMeta, InputAdvance, InputState, OutputState};
use crate::planner::WorkBudget;
use crate::session::{
    self, answered_boolean, require_columns, Progress, ProgressModel, Reply, Request,
    RequestModel, Row, MISPLACED,
};
use crate::text::{self, fail};

verus! {

/// The continuation that a locked relation holds.
pub open spec fn locked(rows: Seq<Row>) -> Result<Option<JoinContinuation>, Seq<char>> {
    match continuation::authority(rows.len() as usize, "Join"@) {
        Err(message) => Err(message),
        Ok(false) => Ok(None),
        Ok(true) => match session::columns(rows, JoinRow::kinds()) {
            Err(message) => Err(message),
            Ok(()) => match JoinRow::of(rows).continuation() {
                Err(message) => Err(message),
                Ok(stored) => Ok(Some(stored)),
            },
        },
    }
}

/// Loads the continuation from its locked relation.
pub fn load_locked(rows: &Vec<Row>) -> (outcome: Result<Option<JoinContinuation>, String>)
    ensures
        text::agrees(outcome, locked(rows@)),
{
    if !lock_one(rows.len(), "Join")? {
        return Ok(None);
    }
    require_columns(rows, &JoinRow::column_kinds())?;
    Ok(Some(decode_continuation(&JoinRow::read(rows))?))
}

/// Whether a step may take a whole chunk at once: an inner Join that has begun
/// nothing.
pub fn tries_page(stored: &Option<JoinContinuation>, kind: JoinKind) -> (tries: bool)
    ensures
        tries == (stored is None && kind is Inner),
        tries == (stored is None && kinds::keeps_only_pairs(kind)),
{
    proof {
        if !(kind is Inner) {
            assert(kinds::alone(kind, InputSide::Left, 1, 0, 0) == 1 || kinds::alone(
                kind,
                InputSide::Right,
                1,
                0,
                0,
            ) == 1 || kinds::alone(kind, InputSide::Left, 1, 1, 0) == 1);
        }
    }
    stored.is_none() && kind == JoinKind::Inner
}

/// Whether a step goes on behind a transition: it may, and budget is left.
pub fn goes_on(transition: &JoinTransition, exhausted: bool) -> (more: bool)
    ensures
        more == (transition.continue_in_transaction && !exhausted),
{
    transition.continue_in_transaction && !exhausted
}

/// What the check of an arrangement works with.
#[derive(Clone, Copy, Debug, PartialEq, Eq, Structural)]
pub struct ArrangementPlan {
    pub relation_oid: u32,
    /// The equality keys of the arrangement.
    pub keys: usize,
}

/// What the check of an arrangement waits for.
#[derive(Clone, Copy, Debug, PartialEq, Eq, Structural)]
pub enum ArrangementState {
    RowKeys,
    Keys,
}

impl ArrangementPlan {
    pub open spec fn wf(self) -> bool {
        self.keys + 4 <= usize::MAX
    }

    /// The first request: the unique index on row keys.
    pub open spec fn opening(self) -> ProgressModel<ArrangementState, ()> {
        ProgressModel::Ask {
            state: ArrangementState::RowKeys,
            request: RequestModel::Read(layout::row_key_index_query(self.relation_oid)),
        }
    }

    /// What the check does with a reply.
    pub open spec fn resumes(self, state: ArrangementState, reply: Reply) -> Result<
        ProgressModel<ArrangementState, ()>,
        Seq<char>,
    > {
        match (state, reply) {
            (ArrangementState::RowKeys, Reply::Rows(rows)) => match session::boolean_answer(
                rows@,
                1,
            ) {
                Err(message) => Err(message),
                Ok(indexed) => text::guarded(
                    layout::row_key_indexed(indexed),
                    if self.keys == 0 {
                        ProgressModel::Done(())
                    } else {
                        ProgressModel::Ask {
                            state: ArrangementState::Keys,
                            request: RequestModel::Read(
                                layout::key_index_query(self.relation_oid, self.keys),
                            ),
                        }
                    },
                ),
            },
            (ArrangementState::Keys, Reply::Rows(rows)) => match session::boolean_answer(rows@, 1) {
                Err(message) => Err(message),
                Ok(indexed) => text::guarded(layout::keys_indexed(indexed), ProgressModel::Done(())),
            },
            _ => Err(MISPLACED@),
        }
    }

    /// Opens the check.
    pub fn open(&self) -> (progress: Progress<ArrangementState, ()>)
        ensures
            progress@ == self.opening(),
    {
        Progress::Ask {
            state: ArrangementState::RowKeys,
            request: Request::Read(row_key_index_statement(self.relation_oid)),
        }
    }

    /// Goes on with the reply to the last request.
    pub fn resume(&self, state: ArrangementState, reply: Reply) -> (outcome: Result<
        Progress<ArrangementState, ()>,
        String,
    >)
        requires
            self.wf(),
        ensures
            text::agrees_view(outcome, self.resumes(state, reply)),
    {
        let rows = match reply {
            Reply::Rows(rows) => rows,
            _ => return fail(MISPLACED),
        };
        match state {
            ArrangementState::RowKeys => {
                require_row_key_index(answered_boolean(&rows, 1)?)?;
                if self.keys == 0 {
                    return Ok(Progress::Done(()));
                }
                Ok(
                    Progress::Ask {
                        state: ArrangementState::Keys,
                        request: Request::Read(key_index_statement(self.relation_oid, self.keys)),
                    },
                )
            },
            ArrangementState::Keys => {
                require_key_index(answered_boolean(&rows, 1)?)?;
                Ok(Progress::Done(()))
            },
        }
    }
}

/// The inputs of a Join.
#[derive(Clone, Copy, Debug, PartialEq, Eq, Structural)]
pub struct Inputs {
    pub left: InputState,
    pub right: InputState,
}

impl Inputs {
    /// The input of a side.
    pub open spec fn of(self, side: InputSide) -> InputState {
        match side {
            InputSide::Left => self.left,
            InputSide::Right => self.right,
        }
    }

    pub fn get(&self, side: InputSide) -> (input: InputState)
        ensures
            input == self.of(side),
    {
        match side {
            InputSide::Left => self.left,
            InputSide::Right => self.right,
        }
    }
}

/// What the start of the next input waits for.
#[derive(Clone, Copy, Debug, PartialEq, Eq, Structural)]
pub enum OpenState {
    PeekingLeft,
    PeekingRight { left: Option<ChunkMeta> },
    Measuring { opened: OpenedInput },
}

impl Inputs {
    /// The first request: the next chunk of the left input.
    pub open spec fn opening(self) -> ProgressModel<OpenState, OpenedInput> {
        ProgressModel::Ask {
            state: OpenState::PeekingLeft,
            request: RequestModel::Next { port: self.left.port },
        }
    }

    /// What the start of the next input does with a reply. A chunk of data is
    /// measured before its first row is taken.
    pub open spec fn resumes(self, state: OpenState, reply: Reply) -> Result<
        ProgressModel<OpenState, OpenedInput>,
        Seq<char>,
    > {
        match (state, reply) {
            (OpenState::PeekingLeft, Reply::Chunk(left)) => Ok(
                ProgressModel::Ask {
                    state: OpenState::PeekingRight { left },
                    request: RequestModel::Next { port: self.right.port },
                },
            ),
            (OpenState::PeekingRight { left }, Reply::Chunk(right)) => match step::input_opened(
                left,
                right,
                self.left,
                self.right,
            ) {
                Err(message) => Err(message),
                Ok(opened) => Ok(
                    if opened.head.kind is Data {
                        ProgressModel::Ask {
                            state: OpenState::Measuring { opened },
                            request: RequestModel::Measure {
                                port: self.of(opened.side).port,
                                chunk: opened.head,
                            },
                        }
                    } else {
                        ProgressModel::Done(opened)
                    },
                ),
            },
            (OpenState::Measuring { opened }, Reply::Checked) => Ok(ProgressModel::Done(opened)),
            _ => Err(MISPLACED@),
        }
    }

    /// Opens the next input.
    pub fn open(&self) -> (progress: Progress<OpenState, OpenedInput>)
        ensures
            progress@ == self.opening(),
    {
        Progress::Ask {
            state: OpenState::PeekingLeft,
            request: Request::Next { port: self.left.port },
        }
    }

    /// Goes on with the reply to the last request.
    pub fn resume(&self, state: OpenState, reply: Reply) -> (outcome: Result<
        Progress<OpenState, OpenedInput>,
        String,
    >)
        ensures
            text::agrees_view(outcome, self.resumes(state, reply)),
    {
        match (state, reply) {
            (OpenState::PeekingLeft, Reply::Chunk(left)) => Ok(
                Progress::Ask {
                    state: OpenState::PeekingRight { left },
                    request: Request::Next { port: self.right.port },
                },
            ),
            (OpenState::PeekingRight { left }, Reply::Chunk(right)) => {
                let opened = open_next_input(left, right, &self.left, &self.right)?;
                if opened.head.kind == ChunkKind::Data {
                    return Ok(
                        Progress::Ask {
                            state: OpenState::Measuring { opened },
                            request: Request::Measure {
                                port: self.get(opened.side).port,
                                chunk: opened.head,
                            },
                        },
                    );
                }
                Ok(Progress::Done(opened))
            },
            (OpenState::Measuring { opened }, Reply::Checked) => Ok(Progress::Done(opened)),
            _ => fail(MISPLACED),
        }
    }
}

/// What the passing of an input frontier works with.
pub struct ForwardPlan {
    pub inputs: Inputs,
    pub output: OutputState,
    pub budget: WorkBudget,
    pub continuation: JoinContinuation,
}

/// What the passing waits for.
#[derive(Clone, Copy, Debug, PartialEq, Eq, Structural)]
pub enum ForwardState {
    Heading { facts: FrontierInputFacts },
    Publishing { facts: FrontierInputFacts, plan: FrontierPlan },
}

/// What an input frontier commits.
#[derive(Clone, Copy, Debug, PartialEq, Eq, Structural)]
pub struct ForwardClose {
    pub transition: JoinTransition,
    pub side: InputSide,
    pub advance: InputAdvance,
}

impl ForwardPlan {
    /// The first request: the frontier chunk at the cursor of its input.
    pub open spec fn opening(self) -> Result<ProgressModel<ForwardState, ForwardClose>, Seq<char>> {
        match step::frontier_opened(self.continuation, self.inputs.left, self.inputs.right) {
            Err(message) => Err(message),
            Ok(facts) => Ok(
                ProgressModel::Ask {
                    state: ForwardState::Heading { facts },
                    request: RequestModel::Chunk {
                        port: self.inputs.of(facts.side).port,
                        sequence: facts.positions.of(facts.side).chunk_seq,
                    },
                },
            ),
        }
    }

    pub open spec fn closes(
        self,
        facts: FrontierInputFacts,
        plan: FrontierPlan,
        output: OutputFacts,
    ) -> Result<ProgressModel<ForwardState, ForwardClose>, Seq<char>> {
        match step::frontier_advanced(facts, self.inputs.of(facts.side)) {
            Err(message) => Err(message),
            Ok(advance) => match step::frontier_closed(plan, output) {
                Err(message) => Err(message),
                Ok(transition) => Ok(
                    ProgressModel::Done(
                        ForwardClose { transition, side: facts.side, advance },
                    ),
                ),
            },
        }
    }

    /// What the passing does with a reply. The output has a frontier only up
    /// to where both inputs have one.
    pub open spec fn resumes(self, state: ForwardState, reply: Reply) -> Result<
        ProgressModel<ForwardState, ForwardClose>,
        Seq<char>,
    > {
        match (state, reply) {
            (ForwardState::Heading { facts }, Reply::Chunk(head)) => match step::frontier_chunk(
                facts,
                head,
            ) {
                Err(message) => Err(message),
                Ok(()) => match planner::frontier_planned(
                    self.continuation,
                    facts,
                    step::frontier_state(self.inputs.left, self.inputs.right, self.output),
                    self.budget,
                ) {
                    Err(message) => Err(message),
                    Ok(plan) => match plan.publish {
                        Some(lsn) => Ok(
                            ProgressModel::Ask {
                                state: ForwardState::Publishing { facts, plan },
                                request: RequestModel::Frontier { lsn },
                            },
                        ),
                        None => self.closes(facts, plan, OutputFacts::Nothing),
                    },
                },
            },
            (ForwardState::Publishing { facts, plan }, Reply::Output(output)) => self.closes(
                facts,
                plan,
                output,
            ),
            _ => Err(MISPLACED@),
        }
    }

    fn close(&self, facts: FrontierInputFacts, plan: FrontierPlan, output: OutputFacts) -> (outcome:
        Result<Progress<ForwardState, ForwardClose>, String>)
        ensures
            text::agrees_view(outcome, self.closes(facts, plan, output)),
    {
        let advance = advance_frontier(&facts, &self.inputs.get(facts.side))?;
        let transition = close_frontier(&plan, output)?;
        Ok(Progress::Done(ForwardClose { transition, side: facts.side, advance }))
    }

    /// Opens the passing.
    pub fn open(&self) -> (outcome: Result<Progress<ForwardState, ForwardClose>, String>)
        ensures
            text::agrees_view(outcome, self.opening()),
    {
        let facts = open_frontier(&self.continuation, &self.inputs.left, &self.inputs.right)?;
        Ok(
            Progress::Ask {
                state: ForwardState::Heading { facts },
                request: Request::Chunk {
                    port: self.inputs.get(facts.side).port,
                    sequence: facts.positions.get(facts.side).chunk_seq,
                },
            },
        )
    }

    /// Goes on with the reply to the last request.
    pub fn resume(&self, state: ForwardState, reply: Reply) -> (outcome: Result<
        Progress<ForwardState, ForwardClose>,
        String,
    >)
        ensures
            text::agrees_view(outcome, self.resumes(state, reply)),
    {
        match (state, reply) {
            (ForwardState::Heading { facts }, Reply::Chunk(head)) => {
                validate_frontier_chunk(&facts, &head)?;
                let plan = plan_input_frontier(
                    &self.continuation,
                    facts,
                    &self.inputs.left,
                    &self.inputs.right,
                    &self.output,
                    self.budget,
                )?;
                match plan.publish {
                    Some(lsn) => Ok(
                        Progress::Ask {
                            state: ForwardState::Publishing { facts, plan },
                            request: Request::Frontier { lsn },
                        },
                    ),
                    None => self.close(facts, plan, OutputFacts::Nothing),
                }
            },
            (ForwardState::Publishing { facts, plan }, Reply::Output(output)) => self.close(
                facts,
                plan,
                output,
            ),
            _ => fail(MISPLACED),
        }
    }
}

/// A frontier goes out on a Join only as its plan says, and its input moves on
/// whether or not one went out.
pub proof fn published_frontier_is_the_planned_one(plan: ForwardPlan, state: ForwardState, reply: Reply)
    ensures
        plan.resumes(state, reply) matches Ok(
            ProgressModel::Ask { state: next, request: RequestModel::Frontier { lsn } },
        ) ==> (next matches ForwardState::Publishing { plan: frontier, .. } && frontier.publish
            == Some(lsn)),
        plan.resumes(state, reply) matches Ok(ProgressModel::Done(close)) ==> (match state {
            ForwardState::Heading { facts } => step::frontier_advanced(
                facts,
                plan.inputs.of(facts.side),
            ) == Ok::<InputAdvance, Seq<char>>(close.advance),
            ForwardState::Publishing { facts, .. } => step::frontier_advanced(
                facts,
                plan.inputs.of(facts.side),
            ) == Ok::<InputAdvance, Seq<char>>(close.advance),
        }),
{
}

} // verus!
