//! The cursors of a linear stage and what a primitive reports about them.

use vstd::prelude::*;

use crate::execution::contract::{OutputFacts, PhaseCode};
use crate::planner::WorkUsage;
use crate::text::{self, fail, signed_text};

verus! {

#[derive(Clone, Copy, Debug, PartialEq, Eq, Structural)]
pub enum LinearKind {
    Scan,
    Filter,
    Project,
}

#[derive(Clone, Copy, Debug, PartialEq, Eq, Structural)]
pub enum ScanPhase {
    Bootstrap,
    SnapshotFrontier,
    Data,
    SourceFrontier,
}

impl ScanPhase {
    /// The persisted number of a phase.
    pub open spec fn number(self) -> i16 {
        match self {
            ScanPhase::Bootstrap => 1,
            ScanPhase::SnapshotFrontier => 2,
            ScanPhase::Data => 3,
            ScanPhase::SourceFrontier => 4,
        }
    }

    pub fn code(self) -> (code: i16)
        ensures
            code == self.number(),
    {
        match self {
            ScanPhase::Bootstrap => 1,
            ScanPhase::SnapshotFrontier => 2,
            ScanPhase::Data => 3,
            ScanPhase::SourceFrontier => 4,
        }
    }

    /// The phase that a persisted number stands for.
    pub open spec fn decoded(raw: i16) -> Result<ScanPhase, Seq<char>> {
        if raw <= 0 {
            Err("active operator phase code must be positive"@)
        } else if raw == 1 {
            Ok(ScanPhase::Bootstrap)
        } else if raw == 2 {
            Ok(ScanPhase::SnapshotFrontier)
        } else if raw == 3 {
            Ok(ScanPhase::Data)
        } else if raw == 4 {
            Ok(ScanPhase::SourceFrontier)
        } else {
            Err("Scan continuation has unknown phase "@ + text::decimal(raw as int))
        }
    }

    pub fn decode(raw: i16) -> (outcome: Result<Self, String>)
        ensures
            text::agrees(outcome, Self::decoded(raw)),
    {
        let phase: i16 = PhaseCode::active(raw)?.value();
        if phase == 1 {
            Ok(ScanPhase::Bootstrap)
        } else if phase == 2 {
            Ok(ScanPhase::SnapshotFrontier)
        } else if phase == 3 {
            Ok(ScanPhase::Data)
        } else if phase == 4 {
            Ok(ScanPhase::SourceFrontier)
        } else {
            Err(
                "Scan continuation has unknown phase ".to_owned().concat(
                    signed_text(phase as i64).as_str(),
                ),
            )
        }
    }
}

#[derive(Clone, Copy, Debug, PartialEq, Eq, Structural)]
pub struct ScanContinuation {
    pub phase: ScanPhase,
    pub input_stream_id: i64,
    pub input_chunk_seq: Option<i64>,
    pub next_row_ordinal: Option<i64>,
    pub next_bootstrap_seq: Option<i64>,
    pub pending_frontier_lsn: Option<u64>,
}

impl ScanContinuation {
    /// Whether the fields are exactly those of the phase.
    pub open spec fn shaped(self) -> bool {
        match self.phase {
            ScanPhase::Bootstrap => self.input_chunk_seq is None && self.next_row_ordinal is None
                && (self.next_bootstrap_seq matches Some(next) && next > 0)
                && self.pending_frontier_lsn is None,
            ScanPhase::Data => (self.input_chunk_seq matches Some(chunk) && chunk > 0) && (
            self.next_row_ordinal matches Some(row) && row >= 0) && self.next_bootstrap_seq is None
                && self.pending_frontier_lsn is None,
            ScanPhase::SnapshotFrontier | ScanPhase::SourceFrontier => self.input_chunk_seq is None
                && self.next_row_ordinal is None && self.next_bootstrap_seq is None
                && self.pending_frontier_lsn is Some,
        }
    }

    pub open spec fn sound(self) -> Result<(), Seq<char>> {
        text::both(
            text::holds(
                self.input_stream_id > 0,
                "Scan continuation has an invalid input stream"@,
            ),
            text::holds(self.shaped(), "Scan continuation fields do not match its phase"@),
        )
    }

    /// A cursor within one input chunk.
    pub open spec fn data(stream_id: i64, chunk_seq: i64, row_ordinal: i64) -> ScanContinuation {
        ScanContinuation {
            phase: ScanPhase::Data,
            input_stream_id: stream_id,
            input_chunk_seq: Some(chunk_seq),
            next_row_ordinal: Some(row_ordinal),
            next_bootstrap_seq: None,
            pending_frontier_lsn: None,
        }
    }

    pub fn at_row(stream_id: i64, chunk_seq: i64, row_ordinal: i64) -> (continuation: Self)
        ensures
            continuation == Self::data(stream_id, chunk_seq, row_ordinal),
    {
        Self {
            phase: ScanPhase::Data,
            input_stream_id: stream_id,
            input_chunk_seq: Some(chunk_seq),
            next_row_ordinal: Some(row_ordinal),
            next_bootstrap_seq: None,
            pending_frontier_lsn: None,
        }
    }

    /// A frontier that is still to be forwarded.
    pub open spec fn frontier(phase: ScanPhase, stream_id: i64, lsn: u64) -> ScanContinuation {
        ScanContinuation {
            phase,
            input_stream_id: stream_id,
            input_chunk_seq: None,
            next_row_ordinal: None,
            next_bootstrap_seq: None,
            pending_frontier_lsn: Some(lsn),
        }
    }

    pub fn at_frontier(phase: ScanPhase, stream_id: i64, lsn: u64) -> (continuation: Self)
        ensures
            continuation == Self::frontier(phase, stream_id, lsn),
    {
        Self {
            phase,
            input_stream_id: stream_id,
            input_chunk_seq: None,
            next_row_ordinal: None,
            next_bootstrap_seq: None,
            pending_frontier_lsn: Some(lsn),
        }
    }
}

#[derive(Clone, Copy, Debug, PartialEq, Eq, Structural)]
pub struct TransformContinuation {
    pub input_stream_id: i64,
    pub input_chunk_seq: i64,
    pub next_row_ordinal: i64,
}

impl TransformContinuation {
    pub open spec fn sound(self) -> Result<(), Seq<char>> {
        text::holds(
            self.input_stream_id > 0 && self.input_chunk_seq > 0 && self.next_row_ordinal >= 0,
            "linear continuation contains an invalid cursor"@,
        )
    }
}

#[derive(Clone, Copy, Debug, PartialEq, Eq, Structural)]
pub struct TransformFacts {
    pub usage: WorkUsage,
    pub first_ordinal: i64,
    pub last_ordinal: i64,
    pub output: OutputFacts,
}

#[derive(Clone, Copy, Debug, PartialEq, Eq, Structural)]
pub struct BootstrapFacts {
    pub usage: WorkUsage,
    pub first_sequence: Option<i64>,
    pub last_sequence: Option<i64>,
    pub output: OutputFacts,
}

/// Checks that a Scan continuation has exactly the fields of its phase.
pub fn validate_scan_continuation(continuation: &ScanContinuation) -> (outcome: Result<(), String>)
    ensures
        text::agrees(outcome, continuation.sound()),
{
    if continuation.input_stream_id <= 0 {
        return fail("Scan continuation has an invalid input stream");
    }
    let no_cursor = continuation.input_chunk_seq.is_none()
        && continuation.next_row_ordinal.is_none();
    let valid = match continuation.phase {
        ScanPhase::Bootstrap => no_cursor && (match continuation.next_bootstrap_seq {
            Some(next) => next > 0,
            None => false,
        }) && continuation.pending_frontier_lsn.is_none(),
        ScanPhase::Data => (match continuation.input_chunk_seq {
            Some(chunk) => chunk > 0,
            None => false,
        }) && (match continuation.next_row_ordinal {
            Some(row) => row >= 0,
            None => false,
        }) && continuation.next_bootstrap_seq.is_none()
            && continuation.pending_frontier_lsn.is_none(),
        ScanPhase::SnapshotFrontier => no_cursor && continuation.next_bootstrap_seq.is_none()
            && continuation.pending_frontier_lsn.is_some(),
        ScanPhase::SourceFrontier => no_cursor && continuation.next_bootstrap_seq.is_none()
            && continuation.pending_frontier_lsn.is_some(),
    };
    if !valid {
        return fail("Scan continuation fields do not match its phase");
    }
    Ok(())
}

/// Checks the cursor of a Filter or Project before it is persisted.
pub fn validate_transform_continuation(continuation: &TransformContinuation) -> (outcome: Result<
    (),
    String,
>)
    ensures
        text::agrees(outcome, continuation.sound()),
{
    if continuation.input_stream_id <= 0 || continuation.input_chunk_seq <= 0
        || continuation.next_row_ordinal < 0 {
        return fail("linear continuation contains an invalid cursor");
    }
    Ok(())
}

} // verus!
