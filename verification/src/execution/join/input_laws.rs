//! In which order a Join takes its input.

use vstd::prelude::*;

use crate::execution::join::planner::{InputProgress, JoinContinuation};
use crate::execution::join::step::{self, FinalizeNext};
use crate::execution::stream::{ChunkMeta, InputState};

verus! {

/// The input that opens is the one whose next chunk is the oldest, and its
/// cursor stands at both consumer cursors.
pub proof fn oldest_input_opens_first(
    left_chunk: Option<ChunkMeta>,
    right_chunk: Option<ChunkMeta>,
    left: InputState,
    right: InputState,
)
    requires
        step::input_opened(left_chunk, right_chunk, left, right) is Ok,
    ensures
        ({
            let opened = step::input_opened(left_chunk, right_chunk, left, right)->Ok_0;
            let own = if opened.side is Left {
                left_chunk
            } else {
                right_chunk
            };
            let other = if opened.side is Left {
                right_chunk
            } else {
                left_chunk
            };
            &&& own == Some(opened.head)
            &&& other matches Some(head) ==> opened.head.lsn <= head.lsn
            &&& match opened.continuation {
                JoinContinuation::Preflight { positions, side } => opened.head.kind is Data
                    && step::positions_pinned(positions, side, left, right) is Ok,
                JoinContinuation::Frontier(frontier) => opened.head.kind is Frontier
                    && frontier.frontier == opened.head.lsn && step::positions_pinned(
                    frontier.positions,
                    frontier.side,
                    left,
                    right,
                ) is Ok,
                _ => false,
            }
        }),
{
}

/// The rows of a chunk are taken one by one: a finished event moves its side
/// by one row and the other side not at all, and the consumer moves past the
/// chunk exactly behind its last row.
pub proof fn rows_are_taken_one_by_one(
    progress: InputProgress,
    chunk: ChunkMeta,
    input: InputState,
)
    requires
        step::finalize_next(progress, chunk, input) is Ok,
    ensures
        match step::finalize_next(progress, chunk, input)->Ok_0 {
            FinalizeNext::Row(next) => next matches JoinContinuation::Preflight {
                positions,
                side,
            } && side == progress.side && positions.of(side).row_ordinal == progress.positions.of(
                side,
            ).row_ordinal + 1 && positions.of(side).chunk_seq == progress.positions.of(
                side,
            ).chunk_seq && positions.of(side).stream_id == progress.positions.of(side).stream_id
                && positions.of(side.other()) == progress.positions.of(side.other())
                && positions.of(side).row_ordinal < chunk.rows,
            FinalizeNext::Chunk(advance) => progress.positions.of(progress.side).row_ordinal + 1
                == chunk.rows && advance.next_chunk_seq == input.next_chunk_seq + 1
                && advance.usage.input_rows == chunk.rows && advance.usage.input_bytes
                == chunk.bytes,
        },
{
}

} // verus!
