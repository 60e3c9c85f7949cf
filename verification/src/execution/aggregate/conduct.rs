//! How an Aggregate stage conducts its statements: what it asks behind each
//! answer.

use vstd::prelude::*;

use crate::execution::aggregate::apply;
use crate::execution::aggregate::applying::{ApplyPlan, ApplyState};
use crate::execution::aggregate::emit::{self, EmitSource, OutputDecision};
use crate::execution::aggregate::emitting::{EmitPlan, EmitState, Settled};
use crate::execution::aggregate::forwarding::{self, FrontierPlan, FrontierState};
use crate::execution::aggregate::machine::EmitLeg;
use crate::execution::aggregate::opening::{OpenPlan, OpenState};
use crate::execution::aggregate::pages;
use crate::execution::aggregate::paging::{PagePlan, PageState, SelectPlan, SelectState};
use crate::execution::aggregate::rebuild;
use crate::execution::aggregate::rebuilding::{RebuildPlan, RebuildState};
use crate::execution::stream::ChunkMeta;
use crate::session::{self, ProgressModel, Reply, RequestModel, Row};

verus! {

/// A stage goes on with what is stored of it, and otherwise with its next
/// chunk; it looks at the queue exactly before a frontier.
pub proof fn opening_is_conducted(plan: OpenPlan, state: OpenState, reply: Reply)
    ensures
        plan.resumes(state, reply) matches Ok(ProgressModel::Ask { state: next, request }) ==> match (
            state,
            next,
        ) {
            (OpenState::Loading, OpenState::Authorizing { stored }) => {
                &&& stored.persisted
                &&& request == (RequestModel::Authority { present: true })
            },
            (OpenState::Loading, OpenState::Peeking) => {
                &&& reply matches Reply::Rows(rows) && rows.len() == 0
                &&& request == (RequestModel::Next { port: plan.input.port })
            },
            (OpenState::Peeking, OpenState::Finding { chunk }) => {
                &&& reply == Reply::Chunk(Some(chunk)) && chunk.kind is Frontier
                &&& request == RequestModel::Read(apply::dirty_query(plan.dirty@))
            },
            (OpenState::Peeking, OpenState::Authorizing { stored }) => {
                &&& reply matches Reply::Chunk(Some(chunk)) && chunk.kind is Data
                &&& stored.value.phase is Apply
                &&& !stored.persisted
                &&& request == (RequestModel::Authority { present: false })
            },
            (OpenState::Finding { chunk }, OpenState::Authorizing { stored }) => {
                &&& chunk.kind is Frontier ==> !(stored.value.phase is Apply)
                &&& !stored.persisted
                &&& request == (RequestModel::Authority { present: false })
            },
            _ => false,
        },
        plan.resumes(state, reply) matches Ok(ProgressModel::Done(done)) ==> state == (
        OpenState::Authorizing { stored: done }) && reply is Checked,
{
}

/// An admission measures a chunk that it begins, makes its groups, applies its
/// rows, finds the first dirty group, and asks whether to drain; behind the
/// last row it looks at the chunk that follows.
pub proof fn admission_is_conducted(plan: ApplyPlan, state: ApplyState, reply: Reply)
    requires
        plan.waits(state),
    ensures
        plan.opening() matches Ok(ProgressModel::Ask { state: first, request }) ==> {
            &&& first is Opening
            &&& plan.value.input matches Some(position) && request == (RequestModel::Chunk {
                port: plan.input.port,
                sequence: position.chunk_seq,
            })
        },
        plan.resumes(state, reply) matches Ok(ProgressModel::Ask { state: next, request }) ==> match (
            state,
            next,
        ) {
            (ApplyState::Opening, ApplyState::Measuring { position, chunk }) => {
                &&& plan.value.input == Some(position) && reply == Reply::Chunk(Some(chunk))
                &&& position.row_ordinal == 0
                &&& request == (RequestModel::Measure { port: plan.input.port, chunk })
            },
            (ApplyState::Opening, ApplyState::Ensuring { position, chunk }) => {
                &&& plan.value.input == Some(position) && reply == Reply::Chunk(Some(chunk))
                &&& position.row_ordinal > 0
                &&& Ok::<RequestModel, Seq<char>>(request) == ensured(
                    plan,
                    chunk,
                    position.row_ordinal,
                )
            },
            (
                ApplyState::Measuring { position, chunk },
                ApplyState::Ensuring { position: same, chunk: read },
            ) => {
                &&& same == position && read == chunk
                &&& Ok::<RequestModel, Seq<char>>(request) == ensured(
                    plan,
                    chunk,
                    position.row_ordinal,
                )
            },
            (
                ApplyState::Ensuring { position, chunk },
                ApplyState::Applying { position: same, chunk: read, ensured },
            ) => {
                &&& same == position && read == chunk
                &&& reply matches Reply::Rows(rows) && ensured == rows@.len() as u64
                &&& request matches RequestModel::Write(statement) && apply::apply_query(
                    *plan.sql,
                    chunk,
                    position.row_ordinal,
                    plan.budget,
                ) == Ok::<crate::sql::StatementModel, Seq<char>>(statement)
            },
            (ApplyState::Applying { chunk, .. }, ApplyState::Finding { chunk: same, .. }) => {
                &&& same == chunk
                &&& request == RequestModel::Read(apply::dirty_query(plan.sql.dirty@))
            },
            (
                ApplyState::Finding { chunk, applied },
                ApplyState::Admitting { chunk: same, applied: counted, first_dirty },
            ) => {
                &&& same == chunk && counted == applied
                &&& reply matches Reply::Rows(rows) && session::bigint(rows@, 1) == Some(first_dirty)
                &&& request == (RequestModel::Admit { usage: applied.usage })
            },
            (
                ApplyState::Admitting { chunk, applied, first_dirty },
                ApplyState::Following {
                    chunk: same,
                    applied: counted,
                    first_dirty: first,
                    drain,
                },
            ) => {
                &&& same == chunk && counted == applied && first == first_dirty
                &&& reply == Reply::Drain(drain)
                &&& applied.next_row == chunk.rows
                &&& request == (RequestModel::Chunk {
                    port: plan.input.port,
                    sequence: (chunk.sequence + 1) as i64,
                })
            },
            _ => false,
        },
{
}

/// The statement that makes the groups of a prefix.
pub open spec fn ensured(plan: ApplyPlan, chunk: ChunkMeta, first_row: i64) -> Result<
    RequestModel,
    Seq<char>,
> {
    match apply::ensure_query(*plan.sql, chunk, first_row, plan.budget) {
        Ok(statement) => Ok(RequestModel::Write(statement)),
        Err(message) => Err(message),
    }
}

/// A fold is begun for its group and then goes on by a page of the budget.
pub proof fn fold_is_conducted(plan: RebuildPlan, state: RebuildState, reply: Reply)
    ensures
        plan.opening() == (ProgressModel::<
            RebuildState,
            crate::execution::aggregate::step::AggregateCommit,
        >::Ask {
            state: RebuildState::Initializing,
            request: RequestModel::Write(
                rebuild::initialize_query(
                    plan.sql.work@,
                    plan.sql.dirty@,
                    plan.initial_state@,
                    *plan.sql.capability,
                    plan.target.group_queue_id,
                ),
            ),
        }),
        plan.resumes(state, reply) matches Ok(ProgressModel::Ask { state: next, request }) ==> {
            &&& state is Initializing
            &&& reply matches Reply::Rows(rows) && rows@.len() <= 1 && next == (
            RebuildState::Folding { initialized: rows@.len() as u64 })
            &&& request matches RequestModel::Write(statement) && rebuild::rebuild_query(
                *plan.sql,
                plan.target.group_queue_id,
                plan.budget,
            ) == Ok::<crate::sql::StatementModel, Seq<char>>(statement)
        },
        state is Initializing ==> (reply matches Reply::Rows(rows) ==> (rows@.len() > 1
            ==> plan.resumes(state, reply) is Err)),
{
}

/// A frontier is read from its chunk and checked against the queue; a stage
/// without keys sees to its one group first.
pub proof fn frontier_is_conducted(plan: FrontierPlan, state: FrontierState, reply: Reply)
    requires
        plan.waits(state),
    ensures
        plan.resumes(state, reply) matches Ok(ProgressModel::Ask { state: next, request }) ==> match (
            state,
            next,
        ) {
            (FrontierState::Opening, FrontierState::Checking { chunk }) => {
                &&& reply == Reply::Chunk(Some(chunk)) && chunk.kind is Frontier
                &&& request == RequestModel::Read(forwarding::empty_query(plan.dirty@))
            },
            (FrontierState::Checking { chunk }, FrontierState::Forwarding { chunk: same }) => {
                &&& same == chunk && plan.keys > 0
                &&& request == (RequestModel::Frontier { lsn: chunk.lsn })
            },
            (FrontierState::Checking { chunk }, FrontierState::Looking { chunk: same }) => {
                &&& same == chunk && plan.keys == 0
                &&& request == RequestModel::Read(forwarding::filled_query(plan.groups@))
            },
            (FrontierState::Looking { chunk }, FrontierState::Forwarding { chunk: same }) => {
                &&& same == chunk
                &&& reply matches Reply::Rows(rows) && session::boolean(rows@, 1) == Some(true)
                &&& request == (RequestModel::Frontier { lsn: chunk.lsn })
            },
            (FrontierState::Looking { chunk }, FrontierState::Queuing) => {
                &&& reply matches Reply::Rows(rows) && session::boolean(rows@, 1) == Some(false)
                &&& request == RequestModel::Write(
                    crate::execution::aggregate::step::global_group_query(
                        plan.groups@,
                        plan.dirty@,
                        chunk.lsn,
                    ),
                )
            },
            _ => false,
        },
        plan.resumes(state, reply) matches Ok(ProgressModel::Done(close)) ==> (match state {
            FrontierState::Queuing => !close.forwarded && close.commit.advance is None && (
            close.commit.next matches Some(next) && next.phase is DrainRebuild),
            FrontierState::Forwarding { chunk } => close.forwarded && close.commit.next is None && (
            close.commit.advance matches Some(advance) && advance.next_chunk_seq == chunk.sequence
                + 1 && advance.frontier_lsn == chunk.lsn),
            _ => false,
        }),
{
}

/// An emission decides on its group, or publishes its pending row; a decision
/// that changes nothing clears the group, and every other one writes the row
/// that it asks for.
pub proof fn emission_is_conducted(plan: EmitPlan, state: EmitState, reply: Reply)
    requires
        plan.waits(state),
    ensures
        plan.leg == EmitLeg::Decide ==> (plan.opening() matches ProgressModel::Ask {
            state: EmitState::Deciding,
            request: RequestModel::Lock(statement),
        } && statement == emit::decision_query(
            plan.groups@,
            plan.dirty@,
            plan.expression@,
            plan.group_queue_id,
        )),
        plan.leg == EmitLeg::InsertPending ==> (plan.opening() matches ProgressModel::Ask {
            state: EmitState::Emitting { decision: None },
            request: RequestModel::Write(statement),
        } && statement == emit::emission_query(
            plan.emission(EmitSource::Pending),
            plan.group_queue_id,
            plan.output,
        )),
        plan.resumes(state, reply) matches Ok(ProgressModel::Ask { state: next, request }) ==> match (
            state,
            next,
        ) {
            (EmitState::Deciding, EmitState::Clearing) => {
                &&& reply matches Reply::Rows(rows) && emit::decided(
                    rows@.len() as int,
                    session::text(rows@, 1),
                ) == Ok::<OutputDecision, Seq<char>>(OutputDecision::Unchanged)
                &&& request == RequestModel::Write(
                    emit::unchanged_query(plan.groups@, plan.dirty@, plan.group_queue_id),
                )
            },
            (EmitState::Deciding, EmitState::Emitting { decision: Some(decision) }) => {
                &&& decision != OutputDecision::Unchanged
                &&& reply matches Reply::Rows(rows) && emit::decided(
                    rows@.len() as int,
                    session::text(rows@, 1),
                ) == Ok::<OutputDecision, Seq<char>>(decision)
                &&& request == RequestModel::Write(
                    emit::emission_query(
                        plan.emission(EmitSource::of(decision)->0),
                        plan.group_queue_id,
                        plan.output,
                    ),
                )
            },
            (EmitState::Clearing, after) => settles_on(
                plan,
                after,
                request,
                Settled::Decided { decision: OutputDecision::Unchanged, append: None },
                0,
            ),
            (EmitState::Emitting { decision }, after) => exists|settled: Settled|
                {
                    &&& #[trigger] settles_on(plan, after, request, settled, 0)
                    &&& match decision {
                        Some(decision) => settled matches Settled::Decided { decision: same, append }
                            && same == decision && append is Some,
                        None => settled is Pending,
                    }
                },
            (EmitState::Discarding { settled, discarded }, after) => settles_on(
                plan,
                after,
                request,
                settled,
                discarded + 1,
            ),
            (EmitState::Finishing { settled }, EmitState::Removing { settled: same }) => {
                &&& same == settled && plan.keys > 0
                &&& reply matches Reply::Rows(rows) && session::bigint(rows@, 1) == Some(
                    plan.group_queue_id,
                ) && (session::bigint(rows@, 2) matches Some(group_state_id) && request
                    == RequestModel::Write(
                    emit::tombstone_query(plan.groups@, plan.bag@, group_state_id),
                ))
            },
            (EmitState::Finishing { settled }, EmitState::Advancing { settled: same, finished }) => {
                &&& same == settled && plan.keys == 0 && finished == 1
                &&& request == RequestModel::Read(apply::dirty_query(plan.dirty@))
            },
            (EmitState::Removing { settled }, EmitState::Advancing { settled: same, finished }) => {
                &&& same == settled
                &&& reply matches Reply::Rows(rows) && rows@.len() <= 1 && finished == 1
                    + rows@.len()
                &&& request == RequestModel::Read(apply::dirty_query(plan.dirty@))
            },
            _ => false,
        },
{
    if let EmitState::Emitting { decision } = state {
        if let Ok(ProgressModel::Ask { state: next, request }) = plan.resumes(state, reply) {
            if let Reply::Rows(rows) = reply {
                let append = emit::emitted(
                    rows@.len() as int,
                    emit::EmissionRow::of(rows@),
                    plan.output,
                )->Ok_0;
                let settled = match decision {
                    Some(decision) => Settled::Decided { decision, append: Some(append) },
                    None => Settled::Pending { row: append },
                };
                assert(settles_on(plan, next, request, settled, 0));
            }
        }
    }
}

/// Whether a settled group goes on as it must: the folds of a decided group are
/// discarded one after the other, and then the group leaves the queue.
pub open spec fn settles_on(
    plan: EmitPlan,
    next: EmitState,
    request: RequestModel,
    settled: Settled,
    discarded: int,
) -> bool {
    if settled is Decided && discarded < plan.works.len() {
        &&& next == (EmitState::Discarding { settled, discarded: discarded as usize })
        &&& request == RequestModel::Write(
            emit::discard_query(plan.works[discarded]@, plan.dirty@, plan.group_queue_id),
        )
    } else {
        &&& next == (EmitState::Finishing { settled })
        &&& request == RequestModel::Write(emit::finish_query(plan.dirty@, plan.group_queue_id))
    }
}

/// A page looks at every fold before it selects groups, and gives way to a fold
/// that has begun.
pub proof fn selection_is_conducted(plan: SelectPlan, state: SelectState, rows: Vec<Row>)
    requires
        plan.waits(state),
    ensures
        match (state, plan.resumes(state, Reply::Rows(rows))) {
            (SelectState::Probing { index }, Ok(ProgressModel::Done(selection))) => selection is None
                && session::boolean(rows@, 1) == Some(true),
            (
                SelectState::Probing { index },
                Ok(ProgressModel::Ask { state: next, request }),
            ) => {
                &&& session::boolean(rows@, 1) == Some(false)
                &&& index + 1 < plan.works.len() ==> next == (SelectState::Probing {
                    index: (index + 1) as usize,
                }) && request == RequestModel::Read(
                    pages::probe_query(plan.works[index + 1]@, plan.dirty@, plan.group_queue_id),
                )
                &&& index + 1 == plan.works.len() ==> next is Selecting && (
                request matches RequestModel::Read(statement) && pages::selection_query(
                    plan.dirty@,
                    plan.bag@,
                    plan.group_queue_id,
                    plan.budget,
                ) == Ok::<crate::sql::StatementModel, Seq<char>>(statement))
            },
            (SelectState::Selecting, Ok(ProgressModel::Ask { .. })) => false,
            _ => true,
        },
{
}

/// A page is measured, placed, appended, published and taken off the queue in
/// this order, over the same groups; without output it is not placed, and
/// without keys nothing is cleaned up behind it.
pub proof fn page_is_conducted(plan: PagePlan, state: PageState, reply: Reply)
    ensures
        plan.opening() matches ProgressModel::Ask {
            state: PageState::Measuring,
            request: RequestModel::Read(statement),
        } && statement == pages::measurement_query(
            *plan.sql,
            plan.group_queue_id,
            plan.selection.last_queue_id,
        ),
        plan.resumes(state, reply) matches Ok(ProgressModel::Ask { state: next, request }) ==> match (
            state,
            next,
        ) {
            (PageState::Measuring, PageState::Placing { page }) => page.output_rows > 0 && request
                == (RequestModel::Target { rows: page.output_rows, bytes: page.output_bytes }),
            (PageState::Measuring, PageState::Publishing { page, append }) => {
                &&& page.output_rows == 0 && append is None
                &&& request == RequestModel::Write(
                    pages::publish_query(*plan.sql, plan.group_queue_id, page.last_queue_id),
                )
            },
            (PageState::Placing { page }, PageState::Appending { page: same, target }) => {
                &&& same == page && reply == Reply::Target(target)
                &&& request matches RequestModel::Write(statement) && pages::append_query(
                    *plan.sql,
                    plan.payload@,
                    plan.group_queue_id,
                    page,
                    plan.output,
                    target,
                ) == Ok::<crate::sql::StatementModel, Seq<char>>(statement)
            },
            (
                PageState::Appending { page, target },
                PageState::Publishing { page: same, append },
            ) => {
                &&& same == page
                &&& append matches Some(append) && append.target == target && append.rows
                    == page.output_rows && append.bytes == page.output_bytes && append.lsn
                    == page.causal_lsn
                &&& request == RequestModel::Write(
                    pages::publish_query(*plan.sql, plan.group_queue_id, page.last_queue_id),
                )
            },
            (
                PageState::Publishing { page, append },
                PageState::Dequeuing { page: same, append: written, updated },
            ) => {
                &&& same == page && written == append
                &&& reply matches Reply::Rows(rows) && session::bigint(rows@, 1) == Some(
                    updated as i64,
                )
                &&& request == RequestModel::Write(
                    pages::dequeue_query(plan.sql.dirty@, plan.group_queue_id, page.last_queue_id),
                )
            },
            (
                PageState::Dequeuing { page, append, updated },
                PageState::Cleaning { page: same, append: written, updated: counted, dequeued },
            ) => {
                &&& same == page && written == append && counted == updated && plan.keys > 0
                &&& reply matches Reply::Rows(rows) && dequeued == rows@.len() as u64 && dequeued
                    == updated
            },
            (
                PageState::Dequeuing { page, append, updated },
                PageState::Advancing { page: same, append: written, state_rows },
            ) => {
                &&& same == page && written == append && plan.keys == 0
                &&& state_rows == updated + updated
                &&& request == RequestModel::Read(apply::dirty_query(plan.sql.dirty@))
            },
            (
                PageState::Cleaning { page, append, updated, dequeued },
                PageState::Advancing { page: same, append: written, state_rows },
            ) => {
                &&& same == page && written == append
                &&& reply matches Reply::Rows(rows) && state_rows == updated + dequeued
                    + rows@.len() as u64
                &&& request == RequestModel::Read(apply::dirty_query(plan.sql.dirty@))
            },
            _ => false,
        },
        plan.resumes(state, reply) matches Ok(ProgressModel::Done(Some(close))) ==> (
        state matches PageState::Advancing { page, append, state_rows } && close.append == append
            && close.state_rows == state_rows && close.commit.usage.output_rows == page.output_rows
            && close.commit.usage.output_bytes == page.output_bytes
            && close.commit.usage.input_rows == page.input_rows && close.commit.usage.input_bytes
            == page.input_bytes && plan.value.phase is DrainRebuild),
        plan.resumes(state, reply) matches Ok(ProgressModel::Done(None)) ==> state is Measuring,
{
}

} // verus!
