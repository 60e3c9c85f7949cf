//! What a Join reads of one event: its row, its own arrangement row, and the
//! candidates that it meets.

use vstd::prelude::*;

use crate::execution::join::layout::Layout;
use crate::execution::join::opening::Inputs;
use crate::execution::join::planner::{
    self, InputEventFacts, InputPositions, InputProgress, InputSide, JoinContinuation, JoinMode,
    OwnExpectation, ProbePage,
};
use crate::execution::join::statements::{
    self, completion_statement, current_output_statement, decode_candidates, decode_completion,
    decode_current_output, decode_event, decode_own, event_statement, own_statement,
    probe_statement, CandidateRow, OwnRow,
};
use crate::execution::join::step::{
    self, open_finalize, validate_event_chunk, validate_positions_for_side, FinalizeStart,
    JoinKind,
};
use crate::execution::stream::ChunkMeta;
use crate::planner::WorkBudget;
use crate::session::{
    self, answered_boolean, first_bigint, require_all_columns, CellKind, Progress, ProgressModel,
    Reply, Request, RequestModel, Row, MISPLACED,
};
use crate::text::{self, fail};

verus! {

/// What the reading of an event works with.
pub struct EventPlan<'a> {
    pub layout: &'a Layout,
    pub inputs: Inputs,
    pub positions: InputPositions,
    pub side: InputSide,
    /// The canonical key of `input_row.row_value`, where the own arrangement
    /// row is read too.
    pub row_key: Option<&'a str>,
}

/// What the reading of an event waits for.
#[derive(Clone, Copy, Debug, PartialEq, Eq, Structural)]
pub enum EventState {
    Opening,
    Reading { chunk: ChunkMeta },
    Owning { chunk: ChunkMeta, event: InputEventFacts },
}

/// An event, the chunk that it stands in, and its own arrangement row where it
/// was asked for.
#[derive(Clone, Copy, Debug, PartialEq, Eq, Structural)]
pub struct EventRead {
    pub chunk: ChunkMeta,
    pub event: InputEventFacts,
    pub own: Option<OwnExpectation>,
}

impl<'a> EventPlan<'a> {
    /// The first request: the chunk at the cursor.
    pub open spec fn opening(self) -> Result<ProgressModel<EventState, EventRead>, Seq<char>> {
        text::guarded(
            step::positions_pinned(
                self.positions,
                self.side,
                self.inputs.left,
                self.inputs.right,
            ),
            ProgressModel::Ask {
                state: EventState::Opening,
                request: RequestModel::Chunk {
                    port: self.inputs.of(self.side).port,
                    sequence: self.positions.of(self.side).chunk_seq,
                },
            },
        )
    }

    /// What the reading does with a reply.
    pub open spec fn resumes(self, state: EventState, reply: Reply) -> Result<
        ProgressModel<EventState, EventRead>,
        Seq<char>,
    > {
        match (state, reply) {
            (EventState::Opening, Reply::Chunk(chunk)) => match step::event_chunk(
                self.positions.of(self.side),
                chunk,
            ) {
                Err(message) => Err(message),
                Ok(chunk) => Ok(
                    ProgressModel::Ask {
                        state: EventState::Reading { chunk },
                        request: RequestModel::Read(
                            statements::event_query(
                                *self.layout,
                                self.side,
                                self.positions.of(self.side),
                            ),
                        ),
                    },
                ),
            },
            (EventState::Reading { chunk }, Reply::Rows(rows)) => match statements::event_read(
                rows@.len() as usize,
                session::bigint(rows@, 1),
                session::bigint(rows@, 2),
                self.positions,
                self.side,
            ) {
                Err(message) => Err(message),
                Ok(event) => match self.row_key {
                    None => Ok(ProgressModel::Done(EventRead { chunk, event, own: None })),
                    Some(row_key) => Ok(
                        ProgressModel::Ask {
                            state: EventState::Owning { chunk, event },
                            request: RequestModel::Lock(
                                statements::own_query(*self.layout, event, row_key@),
                            ),
                        },
                    ),
                },
            },
            (EventState::Owning { chunk, event }, Reply::Rows(rows)) => match statements::own_read(
                rows@.len() as usize,
                OwnRow::of(rows@),
                event,
            ) {
                Err(message) => Err(message),
                Ok(own) => Ok(ProgressModel::Done(EventRead { chunk, event, own: Some(own) })),
            },
            _ => Err(MISPLACED@),
        }
    }

    /// Opens the reading.
    pub fn open(&self) -> (outcome: Result<Progress<EventState, EventRead>, String>)
        ensures
            text::agrees_view(outcome, self.opening()),
    {
        validate_positions_for_side(
            self.positions,
            self.side,
            &self.inputs.left,
            &self.inputs.right,
        )?;
        Ok(
            Progress::Ask {
                state: EventState::Opening,
                request: Request::Chunk {
                    port: self.inputs.get(self.side).port,
                    sequence: self.positions.get(self.side).chunk_seq,
                },
            },
        )
    }

    /// Goes on with the reply to the last request.
    pub fn resume(&self, state: EventState, reply: Reply) -> (outcome: Result<
        Progress<EventState, EventRead>,
        String,
    >)
        ensures
            text::agrees_view(outcome, self.resumes(state, reply)),
    {
        match (state, reply) {
            (EventState::Opening, Reply::Chunk(chunk)) => {
                let position = self.positions.get(self.side);
                let chunk = validate_event_chunk(position, &chunk)?;
                Ok(
                    Progress::Ask {
                        state: EventState::Reading { chunk },
                        request: Request::Read(event_statement(self.layout, self.side, position)),
                    },
                )
            },
            (EventState::Reading { chunk }, Reply::Rows(rows)) => {
                let event = decode_event(
                    rows.len(),
                    first_bigint(&rows, 1),
                    first_bigint(&rows, 2),
                    self.positions,
                    self.side,
                )?;
                match self.row_key {
                    None => Ok(Progress::Done(EventRead { chunk, event, own: None })),
                    Some(row_key) => Ok(
                        Progress::Ask {
                            state: EventState::Owning { chunk, event },
                            request: Request::Lock(own_statement(self.layout, &event, row_key)),
                        },
                    ),
                }
            },
            (EventState::Owning { chunk, event }, Reply::Rows(rows)) => {
                let own = decode_own(rows.len(), &OwnRow::read(&rows), &event)?;
                Ok(Progress::Done(EventRead { chunk, event, own: Some(own) }))
            },
            _ => fail(MISPLACED),
        }
    }
}

impl CandidateRow {
    /// The types of the columns, in order.
    pub open spec fn kinds() -> Seq<CellKind> {
        seq![
            CellKind::BigInt,
            CellKind::BigInt,
            CellKind::SmallInt,
            CellKind::BigInt,
            CellKind::BigInt,
            CellKind::BigInt,
            CellKind::BigInt,
            CellKind::BigInt,
        ]
    }

    pub fn column_kinds() -> (kinds: Vec<CellKind>)
        ensures
            kinds@ == CandidateRow::kinds(),
    {
        vec![
            CellKind::BigInt,
            CellKind::BigInt,
            CellKind::SmallInt,
            CellKind::BigInt,
            CellKind::BigInt,
            CellKind::BigInt,
            CellKind::BigInt,
            CellKind::BigInt,
        ]
    }

    /// The columns of a returned row, in order.
    pub open spec fn of(row: Row) -> CandidateRow {
        CandidateRow {
            row_id: row.bigint(1),
            multiplicity: row.bigint(2),
            truth: row.smallint(3),
            match_count: row.bigint(4),
            unknown_count: row.bigint(5),
            row_bytes: row.bigint(6),
            pair_bytes: row.bigint(7),
            candidate_bytes: row.bigint(8),
        }
    }

    pub fn read(row: &Row) -> (candidate: CandidateRow)
        ensures
            candidate == CandidateRow::of(*row),
    {
        CandidateRow {
            row_id: row.get_bigint(1),
            multiplicity: row.get_bigint(2),
            truth: row.get_smallint(3),
            match_count: row.get_bigint(4),
            unknown_count: row.get_bigint(5),
            row_bytes: row.get_bigint(6),
            pair_bytes: row.get_bigint(7),
            candidate_bytes: row.get_bigint(8),
        }
    }
}

/// The candidate rows of a probe.
pub open spec fn candidate_rows(rows: Seq<Row>) -> Seq<CandidateRow> {
    Seq::new(rows.len(), |index: int| CandidateRow::of(rows[index]))
}

fn read_candidates(rows: &Vec<Row>) -> (candidates: Vec<CandidateRow>)
    ensures
        candidates@ == candidate_rows(rows@),
{
    let mut candidates: Vec<CandidateRow> = Vec::new();
    let mut index: usize = 0;
    while index < rows.len()
        invariant
            index <= rows.len(),
            candidates@ == candidate_rows(rows@).take(index as int),
        decreases rows.len() - index,
    {
        candidates.push(CandidateRow::read(&rows[index]));
        index = index + 1;
        assert(candidates@ =~= candidate_rows(rows@).take(index as int));
    }
    assert(candidate_rows(rows@).take(index as int) =~= candidate_rows(rows@));
    candidates
}

/// What a probe for candidates works with.
pub struct ProbePlan<'a> {
    pub layout: &'a Layout,
    pub mode: JoinMode,
    pub progress: InputProgress,
    pub event: InputEventFacts,
    pub budget: WorkBudget,
}

/// What a probe waits for.
#[derive(Clone, Debug, PartialEq, Eq)]
pub enum ProbeState {
    Probing,
    Completing { rows: Vec<Row> },
}

/// The rows of a probe, and whether none are left behind them.
#[derive(Clone, Debug, PartialEq, Eq)]
pub struct Probed {
    pub rows: Vec<Row>,
    pub complete: bool,
}

impl<'a> ProbePlan<'a> {
    /// The first request: the candidates behind the cursor, within the budget.
    pub open spec fn opening(self) -> Result<ProgressModel<ProbeState, Probed>, Seq<char>> {
        match statements::probe_model(
            *self.layout,
            self.mode,
            self.progress,
            self.event,
            self.budget,
        ) {
            Err(message) => Err(message),
            Ok(statement) => Ok(
                ProgressModel::Ask {
                    state: ProbeState::Probing,
                    request: RequestModel::Read(statement),
                },
            ),
        }
    }

    /// What a probe does with a reply.
    pub open spec fn resumes(self, state: ProbeState, reply: Reply) -> Result<
        ProgressModel<ProbeState, Probed>,
        Seq<char>,
    > {
        match (state, reply) {
            (ProbeState::Probing, Reply::Rows(rows)) => text::guarded(
                text::both(
                    session::all_columns(rows@, CandidateRow::kinds()),
                    text::all_hold(statements::row_checks(candidate_rows(rows@))),
                ),
                ProgressModel::Ask {
                    state: ProbeState::Completing { rows },
                    request: RequestModel::Read(
                        statements::completion_model(
                            *self.layout,
                            self.event,
                            statements::cursor_behind(
                                statements::candidates_of(candidate_rows(rows@)),
                                self.progress,
                            ),
                        ),
                    ),
                },
            ),
            (ProbeState::Completing { rows }, Reply::Rows(answer)) => match session::boolean_answer(
                answer@,
                1,
            ) {
                Err(message) => Err(message),
                Ok(left) => match statements::scan_completed(left) {
                    Err(message) => Err(message),
                    Ok(complete) => Ok(ProgressModel::Done(Probed { rows, complete })),
                },
            },
            _ => Err(MISPLACED@),
        }
    }

    /// Opens the probe.
    pub fn open(&self) -> (outcome: Result<Progress<ProbeState, Probed>, String>)
        ensures
            text::agrees_view(outcome, self.opening()),
    {
        let statement = probe_statement(
            self.layout,
            self.mode,
            &self.progress,
            &self.event,
            &self.budget,
        )?;
        Ok(Progress::Ask { state: ProbeState::Probing, request: Request::Read(statement) })
    }

    /// Goes on with the reply to the last request.
    pub fn resume(&self, state: ProbeState, reply: Reply) -> (outcome: Result<
        Progress<ProbeState, Probed>,
        String,
    >)
        ensures
            text::agrees_view(outcome, self.resumes(state, reply)),
    {
        match (state, reply) {
            (ProbeState::Probing, Reply::Rows(rows)) => {
                require_all_columns(&rows, &CandidateRow::column_kinds())?;
                let candidates = decode_candidates(&read_candidates(&rows))?;
                let statement = completion_statement(
                    self.layout,
                    &self.event,
                    &candidates,
                    &self.progress,
                );
                Ok(
                    Progress::Ask {
                        state: ProbeState::Completing { rows },
                        request: Request::Read(statement),
                    },
                )
            },
            (ProbeState::Completing { rows }, Reply::Rows(answer)) => {
                let complete = decode_completion(answered_boolean(&answer, 1)?)?;
                Ok(Progress::Done(Probed { rows, complete }))
            },
            _ => fail(MISPLACED),
        }
    }
}

/// Whether the rows of a probe are a page.
pub open spec fn page_sound(rows: Seq<Row>, complete: bool) -> Result<(), Seq<char>> {
    let candidates = statements::candidates_of(candidate_rows(rows));
    text::both(
        text::all_hold(statements::row_checks(candidate_rows(rows))),
        text::both(
            text::holds(candidates.len() > 0 || complete, "partial Join probe page is empty"@),
            text::all_hold(planner::candidate_checks(candidates)),
        ),
    )
}

/// The page that a probe found.
pub fn probe_page(probed: &Probed) -> (outcome: Result<ProbePage, String>)
    ensures
        match (outcome, page_sound(probed.rows@, probed.complete)) {
            (Ok(page), Ok(())) => page.candidates@ == statements::candidates_of(
                candidate_rows(probed.rows@),
            ) && page.complete == probed.complete,
            (Err(error), Err(message)) => error@ == message,
            _ => false,
        },
{
    let candidates = decode_candidates(&read_candidates(&probed.rows))?;
    ProbePage::new(candidates, probed.complete)
}

/// What the end of an event measures.
pub struct ProjectPlan<'a> {
    pub layout: &'a Layout,
    pub kind: JoinKind,
    pub continuation: JoinContinuation,
    pub event: InputEventFacts,
    pub own: OwnExpectation,
}

/// What the measure waits for.
#[derive(Clone, Copy, Debug, PartialEq, Eq, Structural)]
pub enum ProjectState {
    Projecting { start: FinalizeStart },
}

/// The progress of an event at its end, and the size of its own output where
/// it has one.
#[derive(Clone, Copy, Debug, PartialEq, Eq, Structural)]
pub struct Projected {
    pub start: FinalizeStart,
    pub output_bytes: Option<u64>,
}

impl<'a> ProjectPlan<'a> {
    /// The request, where the event has output of its own.
    pub open spec fn opening(self) -> Result<ProgressModel<ProjectState, Projected>, Seq<char>> {
        match step::finalize_opened(self.continuation, self.kind, self.event, self.own) {
            Err(message) => Err(message),
            Ok(start) => Ok(
                if start.measures_output {
                    ProgressModel::Ask {
                        state: ProjectState::Projecting { start },
                        request: RequestModel::Read(
                            statements::current_output_query(*self.layout, self.event),
                        ),
                    }
                } else {
                    ProgressModel::Done(Projected { start, output_bytes: None })
                },
            ),
        }
    }

    /// What the measure does with a reply.
    pub open spec fn resumes(self, state: ProjectState, reply: Reply) -> Result<
        ProgressModel<ProjectState, Projected>,
        Seq<char>,
    > {
        match (state, reply) {
            (
                ProjectState::Projecting { start },
                Reply::Rows(rows),
            ) => match statements::current_output(rows@.len() as int, session::bigint(rows@, 1)) {
                Err(message) => Err(message),
                Ok(bytes) => Ok(
                    ProgressModel::Done(Projected { start, output_bytes: Some(bytes) }),
                ),
            },
            _ => Err(MISPLACED@),
        }
    }

    /// Opens the measure.
    pub fn open(&self) -> (outcome: Result<Progress<ProjectState, Projected>, String>)
        ensures
            text::agrees_view(outcome, self.opening()),
    {
        let start = open_finalize(&self.continuation, self.kind, self.event, self.own)?;
        if start.measures_output {
            return Ok(
                Progress::Ask {
                    state: ProjectState::Projecting { start },
                    request: Request::Read(current_output_statement(self.layout, &self.event)),
                },
            );
        }
        Ok(Progress::Done(Projected { start, output_bytes: None }))
    }

    /// Goes on with the reply to the request.
    pub fn resume(&self, state: ProjectState, reply: Reply) -> (outcome: Result<
        Progress<ProjectState, Projected>,
        String,
    >)
        ensures
            text::agrees_view(outcome, self.resumes(state, reply)),
    {
        match (state, reply) {
            (ProjectState::Projecting { start }, Reply::Rows(rows)) => {
                let bytes: u64 = decode_current_output(rows.len(), first_bigint(&rows, 1))?;
                Ok(Progress::Done(Projected { start, output_bytes: Some(bytes) }))
            },
            _ => fail(MISPLACED),
        }
    }
}

} // verus!
