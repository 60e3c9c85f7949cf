//! What a step of a Distinct stage takes up: its continuation and the chunk
//! that it is pinned to.

use vstd::prelude::*;

use crate::execution::continuation::{self, lock_one, lock_query};
use crate::execution::distinct::statements::{require_empty_touched, touched_probe};
use crate::execution::distinct::step::{self, pin_phase};
use crate::execution::distinct::storage::{
    self, load_continuation, ContinuationRow, StoredContinuation, CONTINUATION_SELECT,
};
use crate::execution::stream::{ChunkMeta, InputState};
use crate::session::{Progress, ProgressModel, Reply, Request, RequestModel, Row, MISPLACED};
use crate::sql::{Statement, StatementModel};
use crate::text::{self, fail};

verus! {

/// What the opening of a step works with.
pub struct OpenPlan<'a> {
    pub input: InputState,
    /// The continuation relation.
    pub relation: &'a str,
    /// The scratch relation of touched keys.
    pub touched: &'a str,
}

/// What the opening waits for.
#[derive(Clone, Copy, Debug, PartialEq, Eq, Structural)]
pub enum OpenState {
    Loading,
    Authorizing { stored: StoredContinuation },
    Peeking { stored: StoredContinuation },
    Sweeping { stored: StoredContinuation, chunk: ChunkMeta },
}

/// What a step takes up.
#[derive(Clone, Copy, Debug, PartialEq, Eq, Structural)]
pub struct Opened {
    pub stored: StoredContinuation,
    pub chunk: ChunkMeta,
}

/// The continuation that a locked relation holds, or the start of the next
/// chunk.
pub open spec fn locked(rows: Seq<Row>, input: InputState) -> Result<
    StoredContinuation,
    Seq<char>,
> {
    match continuation::authority(rows.len() as usize, "Distinct"@) {
        Err(message) => Err(message),
        Ok(present) => storage::loaded(
            if present {
                Some(ContinuationRow::of(rows))
            } else {
                None
            },
            input.stream_id,
            input.next_chunk_seq,
        ),
    }
}

fn load_locked(rows: &Vec<Row>, input: &InputState) -> (outcome: Result<
    StoredContinuation,
    String,
>)
    ensures
        text::agrees(outcome, locked(rows@, *input)),
{
    let row = if lock_one(rows.len(), "Distinct")? {
        Some(ContinuationRow::read(rows))
    } else {
        None
    };
    load_continuation(row, input.stream_id, input.next_chunk_seq)
}

impl<'a> OpenPlan<'a> {
    /// The first request: the stored continuation.
    pub open spec fn opening(self) -> ProgressModel<OpenState, Opened> {
        ProgressModel::Ask {
            state: OpenState::Loading,
            request: RequestModel::Lock(
                StatementModel {
                    sql: continuation::lock_sql(self.relation@, CONTINUATION_SELECT@),
                    arguments: Seq::empty(),
                },
            ),
        }
    }

    /// What the opening does with a reply. No step starts over scratch that
    /// another one left behind.
    pub open spec fn resumes(self, state: OpenState, reply: Reply) -> Result<
        ProgressModel<OpenState, Opened>,
        Seq<char>,
    > {
        match (state, reply) {
            (OpenState::Loading, Reply::Rows(rows)) => match locked(rows@, self.input) {
                Err(message) => Err(message),
                Ok(stored) => Ok(
                    ProgressModel::Ask {
                        state: OpenState::Authorizing { stored },
                        request: RequestModel::Authority { present: stored.persisted },
                    },
                ),
            },
            (OpenState::Authorizing { stored }, Reply::Checked) => Ok(
                ProgressModel::Ask {
                    state: OpenState::Peeking { stored },
                    request: RequestModel::Next { port: self.input.port },
                },
            ),
            (OpenState::Peeking { stored }, Reply::Chunk(chunk)) => match step::pinned(
                stored,
                chunk,
            ) {
                Err(message) => Err(message),
                Ok(stored) => Ok(
                    ProgressModel::Ask {
                        state: OpenState::Sweeping { stored, chunk: chunk->0 },
                        request: RequestModel::Read(
                            StatementModel {
                                sql: "SELECT group_state_id FROM "@ + self.touched@
                                    + " ORDER BY group_state_id LIMIT 1"@,
                                arguments: Seq::empty(),
                            },
                        ),
                    },
                ),
            },
            (OpenState::Sweeping { stored, chunk }, Reply::Rows(rows)) => text::guarded(
                text::holds(
                    rows@.len() == 0,
                    "Distinct found committed touched-key scratch state"@,
                ),
                ProgressModel::Done(Opened { stored, chunk }),
            ),
            _ => Err(MISPLACED@),
        }
    }

    /// Opens the step.
    pub fn open(&self) -> (progress: Progress<OpenState, Opened>)
        ensures
            progress@ == self.opening(),
    {
        Progress::Ask {
            state: OpenState::Loading,
            request: Request::Lock(
                Statement::new(lock_query(self.relation, CONTINUATION_SELECT)),
            ),
        }
    }

    /// Goes on with the reply to the last request.
    pub fn resume(&self, state: OpenState, reply: Reply) -> (outcome: Result<
        Progress<OpenState, Opened>,
        String,
    >)
        ensures
            text::agrees_view(outcome, self.resumes(state, reply)),
    {
        match (state, reply) {
            (OpenState::Loading, Reply::Rows(rows)) => {
                let stored = load_locked(&rows, &self.input)?;
                Ok(
                    Progress::Ask {
                        state: OpenState::Authorizing { stored },
                        request: Request::Authority { present: stored.persisted },
                    },
                )
            },
            (OpenState::Authorizing { stored }, Reply::Checked) => Ok(
                Progress::Ask {
                    state: OpenState::Peeking { stored },
                    request: Request::Next { port: self.input.port },
                },
            ),
            (OpenState::Peeking { stored }, Reply::Chunk(chunk)) => {
                let stored = pin_phase(stored, &chunk)?;
                match chunk {
                    Some(chunk) => Ok(
                        Progress::Ask {
                            state: OpenState::Sweeping { stored, chunk },
                            request: Request::Read(Statement::new(touched_probe(self.touched))),
                        },
                    ),
                    None => fail("runnable Distinct has no input chunk"),
                }
            },
            (OpenState::Sweeping { stored, chunk }, Reply::Rows(rows)) => {
                require_empty_touched(rows.len())?;
                Ok(Progress::Done(Opened { stored, chunk }))
            },
            _ => fail(MISPLACED),
        }
    }
}

/// A step takes up a stored continuation only at a chunk of data, and starts a
/// new chunk in the phase of its kind.
pub proof fn opened_phase_fits_the_chunk(
    plan: OpenPlan,
    stored: StoredContinuation,
    chunk: Option<ChunkMeta>,
)
    ensures
        plan.resumes(OpenState::Peeking { stored }, Reply::Chunk(chunk)) matches Ok(
            ProgressModel::Ask { state: OpenState::Sweeping { stored: pinned, chunk: head }, .. },
        ) ==> chunk == Some(head) && (head.kind is Frontier <==> pinned.value.phase is Frontier),
{
}

} // verus!
