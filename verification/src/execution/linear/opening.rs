//! What a step of a linear stage takes up: a page of the initial snapshot, a
//! frontier, or rows of the chunk at its cursor.

use vstd::prelude::*;

use crate::execution::continuation::{self, lock_one, lock_query};
use crate::execution::contract::KernelPhase;
use crate::execution::linear::machine::{ScanContinuation, TransformContinuation};
use crate::execution::linear::step::{
    self, available_source_frontier, plan_scan, plan_scan_chunk, plan_transform,
    snapshot_frontier, validate_scan_frontier, ScanAction, TransformAction,
};
use crate::execution::linear::storage::{
    load_scan_continuation, load_transform_continuation, ScanRow, TransformRow, SCAN_SELECT,
    TRANSFORM_SELECT,
};
use crate::execution::stream::{ChunkMeta, InputAdvance, InputState};
use crate::session::{
    self, require_columns, Progress, ProgressModel, Reply, Request, RequestModel, Row, MISPLACED,
};
use crate::sql::{Statement, StatementModel};
use crate::text::{self, fail};

verus! {

/// What the opening of a Scan works with.
pub struct ScanPlan<'a> {
    pub input: InputState,
    pub source_oid: u32,
    /// The continuation relation.
    pub relation: &'a str,
}

/// What the opening of a Scan waits for.
#[derive(Clone, Copy, Debug, PartialEq, Eq, Structural)]
pub enum ScanState {
    Loading,
    Authorizing { stored: Option<ScanContinuation> },
    Peeking { stored: Option<ScanContinuation>, row_ordinal: i64 },
}

/// What a step of a Scan does.
#[derive(Clone, Copy, Debug, PartialEq, Eq, Structural)]
pub enum ScanTask {
    /// Moves a page of the initial snapshot.
    Bootstrap { stored: ScanContinuation, next_sequence: i64 },
    /// Forwards the frontier of the initial snapshot.
    Snapshot { stored: ScanContinuation, frontier: u64 },
    /// Forwards a frontier of the source, and clears the cursor that waited
    /// for it.
    Source { frontier: u64, clears: bool },
    /// Transforms rows of a chunk.
    Data { chunk: ChunkMeta, row_ordinal: i64, resumed: bool },
}

impl ScanTask {
    /// The phase that the task is reported in.
    pub open spec fn lifecycle(self) -> KernelPhase {
        match self {
            ScanTask::Bootstrap { .. } => KernelPhase::Admit,
            ScanTask::Snapshot { .. } | ScanTask::Source { .. } => KernelPhase::Frontier,
            ScanTask::Data { .. } => KernelPhase::Process,
        }
    }

    pub fn kernel_phase(&self) -> (phase: KernelPhase)
        ensures
            phase == self.lifecycle(),
    {
        match self {
            ScanTask::Bootstrap { .. } => KernelPhase::Admit,
            ScanTask::Snapshot { .. } | ScanTask::Source { .. } => KernelPhase::Frontier,
            ScanTask::Data { .. } => KernelPhase::Process,
        }
    }
}

/// The cursor that a locked relation holds.
pub open spec fn locked_scan(rows: Seq<Row>) -> Result<Option<ScanContinuation>, Seq<char>> {
    match continuation::authority(rows.len() as usize, "Scan"@) {
        Err(message) => Err(message),
        Ok(false) => Ok(None),
        Ok(true) => match session::columns(rows, ScanRow::kinds()) {
            Err(message) => Err(message),
            Ok(()) => match ScanRow::of(rows).continuation() {
                Err(message) => Err(message),
                Ok(stored) => Ok(Some(stored)),
            },
        },
    }
}

fn load_locked_scan(rows: &Vec<Row>) -> (outcome: Result<Option<ScanContinuation>, String>)
    ensures
        text::agrees(outcome, locked_scan(rows@)),
{
    if !lock_one(rows.len(), "Scan")? {
        return Ok(None);
    }
    require_columns(rows, &ScanRow::column_kinds())?;
    Ok(Some(load_scan_continuation(&ScanRow::read(rows))?))
}

impl<'a> ScanPlan<'a> {
    /// The first request: the stored cursor of a Scan over the table of its
    /// source stream.
    pub open spec fn opening(self) -> Result<ProgressModel<ScanState, ScanTask>, Seq<char>> {
        text::guarded(
            text::holds(
                self.input.source_oid == Some(self.source_oid),
                "Scan source OID does not match its source stream"@,
            ),
            ProgressModel::Ask {
                state: ScanState::Loading,
                request: RequestModel::Lock(
                    StatementModel {
                        sql: continuation::lock_sql(self.relation@, SCAN_SELECT@),
                        arguments: Seq::empty(),
                    },
                ),
            },
        )
    }

    /// What a cursor asks for.
    pub open spec fn takes_up(self, stored: Option<ScanContinuation>) -> Result<
        ProgressModel<ScanState, ScanTask>,
        Seq<char>,
    > {
        match step::scan_admissible(self.input, self.source_oid, stored) {
            Err(message) => Err(message),
            Ok(()) => match step::scan_action(stored) {
                ScanAction::Bootstrap { next_sequence } => Ok(
                    ProgressModel::Done(
                        ScanTask::Bootstrap { stored: stored->0, next_sequence },
                    ),
                ),
                ScanAction::SnapshotFrontier => match step::snapshot_boundary(
                    stored->0,
                    self.input,
                ) {
                    Err(message) => Err(message),
                    Ok(frontier) => Ok(
                        ProgressModel::Done(ScanTask::Snapshot { stored: stored->0, frontier }),
                    ),
                },
                ScanAction::SourceFrontier { frontier } => text::guarded(
                    step::frontier_published(self.input, frontier),
                    ProgressModel::Done(ScanTask::Source { frontier, clears: true }),
                ),
                ScanAction::ReadChunk { row_ordinal } => Ok(
                    ProgressModel::Ask {
                        state: ScanState::Peeking { stored, row_ordinal },
                        request: RequestModel::Next { port: self.input.port },
                    },
                ),
            },
        }
    }

    /// The chunk at the cursor, or the frontier of the source where there is
    /// none.
    pub open spec fn reads(
        self,
        stored: Option<ScanContinuation>,
        row_ordinal: i64,
        chunk: Option<ChunkMeta>,
    ) -> Result<ProgressModel<ScanState, ScanTask>, Seq<char>> {
        match step::scan_chunk(stored, chunk) {
            Err(message) => Err(message),
            Ok(true) => Ok(
                ProgressModel::Done(
                    ScanTask::Data { chunk: chunk->0, row_ordinal, resumed: stored is Some },
                ),
            ),
            Ok(false) => match step::available_frontier(self.input) {
                Err(message) => Err(message),
                Ok(frontier) => Ok(
                    ProgressModel::Done(ScanTask::Source { frontier, clears: false }),
                ),
            },
        }
    }

    /// What the opening does with a reply.
    pub open spec fn resumes(self, state: ScanState, reply: Reply) -> Result<
        ProgressModel<ScanState, ScanTask>,
        Seq<char>,
    > {
        match (state, reply) {
            (ScanState::Loading, Reply::Rows(rows)) => match locked_scan(rows@) {
                Err(message) => Err(message),
                Ok(stored) => Ok(
                    ProgressModel::Ask {
                        state: ScanState::Authorizing { stored },
                        request: RequestModel::Authority { present: stored is Some },
                    },
                ),
            },
            (ScanState::Authorizing { stored }, Reply::Checked) => self.takes_up(stored),
            (ScanState::Peeking { stored, row_ordinal }, Reply::Chunk(chunk)) => self.reads(
                stored,
                row_ordinal,
                chunk,
            ),
            _ => Err(MISPLACED@),
        }
    }

    /// Opens the step.
    pub fn open(&self) -> (outcome: Result<Progress<ScanState, ScanTask>, String>)
        ensures
            text::agrees_view(outcome, self.opening()),
    {
        let matches = match self.input.source_oid {
            Some(source_oid) => source_oid == self.source_oid,
            None => false,
        };
        if !matches {
            return fail("Scan source OID does not match its source stream");
        }
        Ok(
            Progress::Ask {
                state: ScanState::Loading,
                request: Request::Lock(Statement::new(lock_query(self.relation, SCAN_SELECT))),
            },
        )
    }

    fn take_up(&self, stored: Option<ScanContinuation>) -> (outcome: Result<
        Progress<ScanState, ScanTask>,
        String,
    >)
        ensures
            text::agrees_view(outcome, self.takes_up(stored)),
    {
        match (plan_scan(&self.input, self.source_oid, &stored)?, stored) {
            (ScanAction::Bootstrap { next_sequence }, Some(stored)) => Ok(
                Progress::Done(ScanTask::Bootstrap { stored, next_sequence }),
            ),
            (ScanAction::SnapshotFrontier, Some(stored)) => {
                let frontier: u64 = snapshot_frontier(&stored, &self.input)?;
                Ok(Progress::Done(ScanTask::Snapshot { stored, frontier }))
            },
            (ScanAction::SourceFrontier { frontier }, _) => {
                validate_scan_frontier(&self.input, frontier)?;
                Ok(Progress::Done(ScanTask::Source { frontier, clears: true }))
            },
            (ScanAction::ReadChunk { row_ordinal }, _) => Ok(
                Progress::Ask {
                    state: ScanState::Peeking { stored, row_ordinal },
                    request: Request::Next { port: self.input.port },
                },
            ),
            _ => fail(MISPLACED),
        }
    }

    /// Goes on with the reply to the last request.
    pub fn resume(&self, state: ScanState, reply: Reply) -> (outcome: Result<
        Progress<ScanState, ScanTask>,
        String,
    >)
        ensures
            text::agrees_view(outcome, self.resumes(state, reply)),
    {
        match (state, reply) {
            (ScanState::Loading, Reply::Rows(rows)) => {
                let stored = load_locked_scan(&rows)?;
                Ok(
                    Progress::Ask {
                        state: ScanState::Authorizing { stored },
                        request: Request::Authority { present: stored.is_some() },
                    },
                )
            },
            (ScanState::Authorizing { stored }, Reply::Checked) => self.take_up(stored),
            (ScanState::Peeking { stored, row_ordinal }, Reply::Chunk(chunk)) => {
                match (plan_scan_chunk(&stored, &chunk)?, chunk) {
                    (true, Some(chunk)) => Ok(
                        Progress::Done(
                            ScanTask::Data { chunk, row_ordinal, resumed: stored.is_some() },
                        ),
                    ),
                    _ => {
                        let frontier: u64 = available_source_frontier(&self.input)?;
                        Ok(Progress::Done(ScanTask::Source { frontier, clears: false }))
                    },
                }
            },
            _ => fail(MISPLACED),
        }
    }
}

/// A Scan forwards a frontier of its source only ahead of what it consumed and
/// never beyond what the source published.
pub proof fn forwarded_source_frontier_is_published(plan: ScanPlan, state: ScanState, reply: Reply)
    ensures
        plan.resumes(state, reply) matches Ok(
            ProgressModel::Done(ScanTask::Source { frontier, .. }),
        ) ==> frontier > plan.input.consumed_frontier_lsn
            && (plan.input.available_source_frontier_lsn matches Some(available) && frontier
            <= available),
{
}

/// What the opening of a Filter or Project works with.
pub struct TransformPlan<'a> {
    pub input: InputState,
    /// The continuation relation.
    pub relation: &'a str,
}

/// What the opening of a Filter or Project waits for.
#[derive(Clone, Copy, Debug, PartialEq, Eq, Structural)]
pub enum TransformState {
    Loading,
    Authorizing { stored: Option<TransformContinuation> },
    Peeking { stored: Option<TransformContinuation> },
}

/// What a step of a Filter or Project does.
#[derive(Clone, Copy, Debug, PartialEq, Eq, Structural)]
pub enum TransformTask {
    /// Forwards a frontier, and clears the cursor where there is one.
    Frontier { lsn: u64, advance: InputAdvance, clears: bool },
    /// Transforms rows of a chunk.
    Data { chunk: ChunkMeta, row_ordinal: i64, resumed: bool },
}

impl TransformTask {
    /// The phase that the task is reported in.
    pub open spec fn lifecycle(self) -> KernelPhase {
        match self {
            TransformTask::Frontier { .. } => KernelPhase::Frontier,
            TransformTask::Data { .. } => KernelPhase::Process,
        }
    }

    pub fn kernel_phase(&self) -> (phase: KernelPhase)
        ensures
            phase == self.lifecycle(),
    {
        match self {
            TransformTask::Frontier { .. } => KernelPhase::Frontier,
            TransformTask::Data { .. } => KernelPhase::Process,
        }
    }
}

/// The cursor that a locked relation holds.
pub open spec fn locked_transform(rows: Seq<Row>) -> Result<
    Option<TransformContinuation>,
    Seq<char>,
> {
    match continuation::authority(rows.len() as usize, "linear"@) {
        Err(message) => Err(message),
        Ok(false) => Ok(None),
        Ok(true) => match TransformRow::of(rows).continuation() {
            Err(message) => Err(message),
            Ok(stored) => Ok(Some(stored)),
        },
    }
}

fn load_locked_transform(rows: &Vec<Row>) -> (outcome: Result<
    Option<TransformContinuation>,
    String,
>)
    ensures
        text::agrees(outcome, locked_transform(rows@)),
{
    if !lock_one(rows.len(), "linear")? {
        return Ok(None);
    }
    Ok(Some(load_transform_continuation(&TransformRow::read(rows))?))
}

impl<'a> TransformPlan<'a> {
    /// The first request: the stored cursor.
    pub open spec fn opening(self) -> ProgressModel<TransformState, TransformTask> {
        ProgressModel::Ask {
            state: TransformState::Loading,
            request: RequestModel::Lock(
                StatementModel {
                    sql: continuation::lock_sql(self.relation@, TRANSFORM_SELECT@),
                    arguments: Seq::empty(),
                },
            ),
        }
    }

    pub open spec fn reads(
        self,
        stored: Option<TransformContinuation>,
        chunk: Option<ChunkMeta>,
    ) -> Result<ProgressModel<TransformState, TransformTask>, Seq<char>> {
        match step::transform_action(self.input.stream_id, stored, chunk) {
            Err(message) => Err(message),
            Ok(TransformAction::Frontier { lsn, advance }) => Ok(
                ProgressModel::Done(
                    TransformTask::Frontier { lsn, advance, clears: stored is Some },
                ),
            ),
            Ok(TransformAction::Data { row_ordinal }) => Ok(
                ProgressModel::Done(
                    TransformTask::Data { chunk: chunk->0, row_ordinal, resumed: stored is Some },
                ),
            ),
        }
    }

    /// What the opening does with a reply.
    pub open spec fn resumes(self, state: TransformState, reply: Reply) -> Result<
        ProgressModel<TransformState, TransformTask>,
        Seq<char>,
    > {
        match (state, reply) {
            (TransformState::Loading, Reply::Rows(rows)) => match locked_transform(rows@) {
                Err(message) => Err(message),
                Ok(stored) => Ok(
                    ProgressModel::Ask {
                        state: TransformState::Authorizing { stored },
                        request: RequestModel::Authority { present: stored is Some },
                    },
                ),
            },
            (TransformState::Authorizing { stored }, Reply::Checked) => Ok(
                ProgressModel::Ask {
                    state: TransformState::Peeking { stored },
                    request: RequestModel::Next { port: self.input.port },
                },
            ),
            (TransformState::Peeking { stored }, Reply::Chunk(chunk)) => self.reads(stored, chunk),
            _ => Err(MISPLACED@),
        }
    }

    /// Opens the step.
    pub fn open(&self) -> (progress: Progress<TransformState, TransformTask>)
        ensures
            progress@ == self.opening(),
    {
        Progress::Ask {
            state: TransformState::Loading,
            request: Request::Lock(Statement::new(lock_query(self.relation, TRANSFORM_SELECT))),
        }
    }

    /// Goes on with the reply to the last request.
    pub fn resume(&self, state: TransformState, reply: Reply) -> (outcome: Result<
        Progress<TransformState, TransformTask>,
        String,
    >)
        requires
            reply.bounded(),
        ensures
            text::agrees_view(outcome, self.resumes(state, reply)),
    {
        match (state, reply) {
            (TransformState::Loading, Reply::Rows(rows)) => {
                let stored = load_locked_transform(&rows)?;
                Ok(
                    Progress::Ask {
                        state: TransformState::Authorizing { stored },
                        request: Request::Authority { present: stored.is_some() },
                    },
                )
            },
            (TransformState::Authorizing { stored }, Reply::Checked) => Ok(
                Progress::Ask {
                    state: TransformState::Peeking { stored },
                    request: Request::Next { port: self.input.port },
                },
            ),
            (TransformState::Peeking { stored }, Reply::Chunk(chunk)) => {
                match (plan_transform(self.input.stream_id, &stored, &chunk)?, chunk) {
                    (TransformAction::Frontier { lsn, advance }, _) => Ok(
                        Progress::Done(
                            TransformTask::Frontier { lsn, advance, clears: stored.is_some() },
                        ),
                    ),
                    (TransformAction::Data { row_ordinal }, Some(chunk)) => Ok(
                        Progress::Done(
                            TransformTask::Data { chunk, row_ordinal, resumed: stored.is_some() },
                        ),
                    ),
                    _ => fail(MISPLACED),
                }
            },
            _ => fail(MISPLACED),
        }
    }
}

} // verus!
