//! How a Distinct stage conducts its statements: what it asks behind each
//! answer.

use vstd::prelude::*;

use crate::execution::distinct::opening::{OpenPlan, OpenState};
use crate::execution::distinct::running::{
    self, ApplyPlan, ApplyState, DrainPlan, DrainState, FrontierPlan, FrontierState,
};
use crate::execution::distinct::statements;
use crate::session::{ProgressModel, Reply, RequestModel};
use crate::sql::StatementModel;

verus! {

/// A stage locks its continuation, then the authority over it, then looks at
/// its next chunk, and goes on only where no scratch state was left behind.
pub proof fn opening_is_conducted(plan: OpenPlan, state: OpenState, reply: Reply)
    ensures
        plan.opening() matches ProgressModel::Ask {
            state: OpenState::Loading,
            request: RequestModel::Lock(_),
        },
        plan.resumes(state, reply) matches Ok(ProgressModel::Ask { state: next, request }) ==> match (
            state,
            next,
        ) {
            (OpenState::Loading, OpenState::Authorizing { stored }) => {
                &&& request == (RequestModel::Authority { present: stored.persisted })
                &&& reply matches Reply::Rows(rows) && (stored.persisted <==> rows.len() == 1)
            },
            (OpenState::Authorizing { stored }, OpenState::Peeking { stored: same }) => same
                == stored && request == (RequestModel::Next { port: plan.input.port }),
            (OpenState::Peeking { stored }, OpenState::Sweeping { stored: opened, chunk }) => {
                &&& reply == Reply::Chunk(Some(chunk))
                &&& opened.persisted == stored.persisted
                &&& opened.value.input == stored.value.input
                &&& request is Read
            },
            _ => false,
        },
        plan.resumes(state, reply) matches Ok(ProgressModel::Done(opened)) ==> {
            &&& state == (OpenState::Sweeping { stored: opened.stored, chunk: opened.chunk })
            &&& reply matches Reply::Rows(rows) && rows.len() == 0
        },
{
}

/// An admission measures a chunk that it begins, sees that nothing is left to
/// drain, applies its rows from where it stands, and reconciles what it touched
/// at the position of the chunk.
pub proof fn admission_is_conducted(plan: ApplyPlan, state: ApplyState, reply: Reply)
    ensures
        ({
            let value = plan.opened.stored.value;
            let begins = value.phase is Apply && value.input.row_ordinal == 0;
            match plan.opening() {
                ProgressModel::Ask { state: ApplyState::Measuring, request } => begins && request
                    == (RequestModel::Measure { port: plan.input.port, chunk: plan.opened.chunk }),
                ProgressModel::Ask { state: ApplyState::Checking, request } => !begins && request
                    == RequestModel::Read(running::queue_query(plan.reconcile.queue@)),
                _ => false,
            }
        }),
        plan.resumes(state, reply) matches Ok(ProgressModel::Ask { state: next, request }) ==> match (
            state,
            next,
        ) {
            (ApplyState::Measuring, ApplyState::Checking) => reply is Checked && request
                == RequestModel::Read(running::queue_query(plan.reconcile.queue@)),
            (ApplyState::Checking, ApplyState::Applying) => {
                &&& reply matches Reply::Rows(rows) && rows@.len() == 0
                &&& request matches RequestModel::Write(statement) && statements::apply_query(
                    *plan.prefix,
                    plan.opened.chunk,
                    plan.opened.stored.value.input.row_ordinal,
                    plan.budget,
                ) == Ok::<StatementModel, Seq<char>>(statement)
            },
            (ApplyState::Applying, ApplyState::Reconciling { applied }) => request
                == RequestModel::Write(
                statements::reconcile_query(*plan.reconcile, plan.opened.chunk.lsn),
            ),
            _ => false,
        },
{
}

/// A drain takes one statement, and hands on what it appended.
pub proof fn drain_is_conducted(plan: DrainPlan, state: DrainState, reply: Reply)
    ensures
        plan.opening() matches Ok(ProgressModel::Ask { state: first, request }) ==> {
            &&& request matches RequestModel::Write(statement) && statements::drain_model(
                *plan.sql,
                plan.budget,
                plan.output,
            ) == Ok::<StatementModel, Seq<char>>(statement)
        },
        !(plan.resumes(state, reply) matches Ok(ProgressModel::Ask { .. })),
        plan.resumes(state, reply) matches Ok(ProgressModel::Done(close)) ==> {
            &&& close.append.rows == close.commit.facts.usage.output_rows
            &&& close.append.bytes == close.commit.facts.usage.output_bytes
            &&& close.append.target.chunk() == plan.output.next_chunk_seq
        },
{
}

/// A frontier goes on from the front of its chunk, once the queue was seen
/// empty, under the position of the chunk.
pub proof fn frontier_is_conducted(plan: FrontierPlan, state: FrontierState, reply: Reply)
    requires
        plan.opened.chunk.sequence < i64::MAX,
    ensures
        plan.opening() is Ok <==> plan.opened.stored.value.input.row_ordinal == 0,
        plan.resumes(state, reply) matches Ok(ProgressModel::Ask { state: next, request }) ==> {
            &&& state is Checking && next is Forwarding
            &&& reply matches Reply::Rows(rows) && rows@.len() == 0
            &&& request == (RequestModel::Frontier { lsn: plan.opened.chunk.lsn })
        },
        plan.resumes(state, reply) matches Ok(ProgressModel::Done(commit)) ==> {
            &&& state is Forwarding
            &&& reply matches Reply::Output(output) && commit.facts.output == output
            &&& commit.next is None
            &&& commit.advance matches Some(advance) && advance.next_chunk_seq
                == plan.opened.chunk.sequence + 1 && advance.frontier_lsn == plan.opened.chunk.lsn
        },
{
}

} // verus!
