//! Effect streams as stage control sees them: input cursors, output targets
//! and the chunks between them.

use vstd::prelude::*;

use crate::database::{self, to_bigint};
use crate::execution::continuation::Attribute;
use crate::planner::{SlotType, WorkUsage};
use crate::text;

verus! {

#[derive(Clone, Copy, Debug, PartialEq, Eq, Structural)]
pub enum ChunkKind {
    Data,
    Frontier,
}

/// One immutable published chunk.
#[derive(Clone, Copy, Debug, PartialEq, Eq, Structural)]
pub struct ChunkMeta {
    pub stream_id: i64,
    pub sequence: i64,
    pub kind: ChunkKind,
    pub rows: u64,
    pub bytes: u64,
    pub lsn: u64,
}

#[derive(Clone, Copy, Debug, PartialEq, Eq, Structural)]
pub enum ProducerKind {
    Source,
    Operator,
}

/// One input port of a stage and its consumer cursor.
#[derive(Clone, Copy, Debug, PartialEq, Eq, Structural)]
pub struct InputState {
    pub port: u16,
    pub stream_id: i64,
    pub producer: ProducerKind,
    pub source_oid: Option<u32>,
    pub next_chunk_seq: i64,
    pub consumed_frontier_lsn: u64,
    pub activation_lsn: u64,
    pub available_source_frontier_lsn: Option<u64>,
}

/// The output stream of a stage, its next chunk and its chunk targets.
#[derive(Clone, Copy, Debug, PartialEq, Eq, Structural)]
pub struct OutputState {
    pub stream_id: i64,
    pub next_chunk_seq: i64,
    pub target_rows: i64,
    pub target_bytes: i64,
    pub published_frontier_lsn: Option<u64>,
    pub latest_data_lsn: Option<u64>,
}

/// Where appended rows go: a new chunk, or the open end of the last one.
#[derive(Clone, Copy, Debug, PartialEq, Eq, Structural)]
pub enum OutputAppendTarget {
    New { sequence: i64 },
    Extend { sequence: i64, row_offset: u64 },
}

impl OutputAppendTarget {
    /// The chunk that the rows go to.
    pub open spec fn chunk(self) -> i64 {
        match self {
            OutputAppendTarget::New { sequence } => sequence,
            OutputAppendTarget::Extend { sequence, .. } => sequence,
        }
    }

    /// The ordinal of the first appended row.
    pub open spec fn offset(self) -> u64 {
        match self {
            OutputAppendTarget::New { .. } => 0,
            OutputAppendTarget::Extend { row_offset, .. } => row_offset,
        }
    }

    pub fn sequence(self) -> (sequence: i64)
        ensures
            sequence == self.chunk(),
    {
        match self {
            OutputAppendTarget::New { sequence } => sequence,
            OutputAppendTarget::Extend { sequence, .. } => sequence,
        }
    }

    pub fn row_offset(self) -> (row_offset: u64)
        ensures
            row_offset == self.offset(),
    {
        match self {
            OutputAppendTarget::New { .. } => 0,
            OutputAppendTarget::Extend { row_offset, .. } => row_offset,
        }
    }
}

/// Rows that a primitive wrote and that the commit boundary must publish.
#[derive(Clone, Copy, Debug, PartialEq, Eq, Structural)]
pub struct OutputAppend {
    pub target: OutputAppendTarget,
    pub rows: u64,
    pub bytes: u64,
    pub lsn: u64,
}

/// The move of one consumer cursor, and the input that it passed over.
#[derive(Clone, Copy, Debug, PartialEq, Eq, Structural)]
pub struct InputAdvance {
    pub next_chunk_seq: i64,
    pub frontier_lsn: u64,
    pub usage: WorkUsage,
}

impl InputAdvance {
    /// A cursor that passed a frontier chunk.
    pub open spec fn past_frontier(chunk: ChunkMeta) -> InputAdvance {
        InputAdvance {
            next_chunk_seq: (chunk.sequence + 1) as i64,
            frontier_lsn: chunk.lsn,
            usage: crate::planner::no_usage(),
        }
    }

    /// A cursor that passed a data chunk, with its frontier where it was.
    pub open spec fn past_data(chunk: ChunkMeta, consumed_frontier_lsn: u64) -> InputAdvance {
        InputAdvance {
            next_chunk_seq: (chunk.sequence + 1) as i64,
            frontier_lsn: consumed_frontier_lsn,
            usage: WorkUsage {
                input_rows: chunk.rows,
                input_bytes: chunk.bytes,
                output_rows: 0,
                output_bytes: 0,
            },
        }
    }
}

/// Moves a cursor past a frontier chunk.
pub fn advance_past_frontier(chunk: &ChunkMeta) -> (advance: InputAdvance)
    requires
        chunk.sequence < i64::MAX,
    ensures
        advance == InputAdvance::past_frontier(*chunk),
{
    InputAdvance {
        next_chunk_seq: chunk.sequence + 1,
        frontier_lsn: chunk.lsn,
        usage: WorkUsage::default(),
    }
}

/// Moves a cursor past a data chunk; data alone moves no frontier.
pub fn advance_past_data(chunk: &ChunkMeta, consumed_frontier_lsn: u64) -> (advance: InputAdvance)
    requires
        chunk.sequence < i64::MAX,
    ensures
        advance == InputAdvance::past_data(*chunk, consumed_frontier_lsn),
{
    InputAdvance {
        next_chunk_seq: chunk.sequence + 1,
        frontier_lsn: consumed_frontier_lsn,
        usage: WorkUsage {
            input_rows: chunk.rows,
            input_bytes: chunk.bytes,
            output_rows: 0,
            output_bytes: 0,
        },
    }
}

/// Whether a catalog attribute has exactly the type of a plan slot.
pub open spec fn matches_slot(attribute: Attribute, slot: SlotType) -> bool {
    attribute.type_oid == slot.type_oid && attribute.typmod == slot.typmod
        && attribute.collation_oid == slot.collation_oid
}

pub fn attribute_matches_slot(attribute: &Attribute, slot: &SlotType) -> (same: bool)
    ensures
        same == matches_slot(*attribute, *slot),
{
    attribute.type_oid == slot.type_oid && attribute.typmod == slot.typmod
        && attribute.collation_oid == slot.collation_oid
}

/// A row or byte budget as a `bigint`.
pub fn budget_bigint(value: usize, message: &str) -> (outcome: Result<i64, String>)
    ensures
        text::agrees(outcome, database::bigint_of(value as int, message@)),
{
    to_bigint(value as u64, message)
}

/// The smaller of two numbers.
pub open spec fn smaller(left: i64, right: i64) -> i64 {
    if left <= right {
        left
    } else {
        right
    }
}

pub fn minimum(left: i64, right: i64) -> (least: i64)
    ensures
        least == smaller(left, right),
{
    if left <= right {
        left
    } else {
        right
    }
}

} // verus!
