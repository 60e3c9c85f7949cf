//! How a Join stage conducts its statements: what it asks behind each answer.

use vstd::prelude::*;

use crate::execution::join::layout;
use crate::execution::join::opening::{
    ArrangementPlan, ArrangementState, ForwardPlan, ForwardState, Inputs, OpenState,
};
use crate::execution::join::pages;
use crate::execution::join::paging::{MeasurePlan, MeasureState, PagePlan, PageState};
use crate::execution::join::planner::JoinContinuation;
use crate::execution::join::publishing::{
    OwnPlan, OwnState, PublishModel, PublishState,
};
use crate::execution::join::reading::{
    EventPlan, EventRead, EventState, ProbePlan, ProbeState, ProjectPlan, ProjectState,
};
use crate::execution::join::statements;
use crate::execution::join::transition::{TransitionPlan, TransitionState};
use crate::session::{self, ProgressModel, Reply, RequestModel};
use crate::sql::StatementModel;

verus! {

/// An arrangement is sound with an index on its row keys, and, where it has
/// equality keys, with one on them too.
pub proof fn arrangement_is_indexed(plan: ArrangementPlan, state: ArrangementState, reply: Reply)
    ensures
        plan.opening() == (ProgressModel::<ArrangementState, ()>::Ask {
            state: ArrangementState::RowKeys,
            request: RequestModel::Read(layout::row_key_index_query(plan.relation_oid)),
        }),
        plan.resumes(state, reply) is Ok ==> (reply matches Reply::Rows(rows) && session::boolean(
            rows@,
            1,
        ) == Some(true)),
        plan.resumes(state, reply) matches Ok(ProgressModel::Ask { state: next, request }) ==> {
            &&& state is RowKeys && next is Keys && plan.keys > 0
            &&& request == RequestModel::Read(
                layout::key_index_query(plan.relation_oid, plan.keys),
            )
        },
        plan.resumes(state, reply) matches Ok(ProgressModel::Done(_)) ==> (state is RowKeys
            <==> plan.keys == 0) || state is Keys,
{
}

/// Both inputs are looked at, the left one first; a chunk of data is measured
/// on the side that it was opened on, and a frontier is not.
pub proof fn inputs_are_opened_in_turn(inputs: Inputs, state: OpenState, reply: Reply)
    ensures
        inputs.opening() matches ProgressModel::Ask { state: first, request } && first is PeekingLeft
            && request == (RequestModel::Next { port: inputs.left.port }),
        inputs.resumes(state, reply) matches Ok(ProgressModel::Ask { state: next, request }) ==> match (
            state,
            next,
        ) {
            (OpenState::PeekingLeft, OpenState::PeekingRight { left }) => reply == Reply::Chunk(left)
                && request == (RequestModel::Next { port: inputs.right.port }),
            (OpenState::PeekingRight { left }, OpenState::Measuring { opened }) => {
                &&& opened.head.kind is Data
                &&& opened.side is Left ==> left == Some(opened.head) && request
                    == (RequestModel::Measure { port: inputs.left.port, chunk: opened.head })
                &&& opened.side is Right ==> reply == Reply::Chunk(Some(opened.head)) && request
                    == (RequestModel::Measure { port: inputs.right.port, chunk: opened.head })
            },
            _ => false,
        },
        inputs.resumes(state, reply) matches Ok(ProgressModel::Done(opened)) ==> match state {
            OpenState::PeekingRight { .. } => opened.head.kind is Frontier,
            OpenState::Measuring { opened: measured } => reply is Checked && opened == measured,
            _ => false,
        },
{
}

/// A frontier is read on the side that it stands on, published exactly where
/// one was planned, and moves the consumer of that side.
pub proof fn frontier_is_conducted(plan: ForwardPlan, state: ForwardState, reply: Reply)
    ensures
        plan.opening() matches Ok(ProgressModel::Ask { state: first, request }) ==> (
        first matches ForwardState::Heading { facts } && {
            let port = if facts.side is Left {
                plan.inputs.left.port
            } else {
                plan.inputs.right.port
            };
            let sequence = if facts.side is Left {
                facts.positions.left.chunk_seq
            } else {
                facts.positions.right.chunk_seq
            };
            request == (RequestModel::Chunk { port, sequence })
        }),
        plan.resumes(state, reply) matches Ok(ProgressModel::Ask { state: next, request }) ==> match (
            state,
            next,
        ) {
            (
                ForwardState::Heading { facts },
                ForwardState::Publishing { facts: same, plan: planned },
            ) => same == facts && (planned.publish matches Some(lsn) && request
                == (RequestModel::Frontier { lsn })),
            _ => false,
        },
        plan.resumes(state, reply) matches Ok(ProgressModel::Done(close)) ==> match state {
            ForwardState::Heading { facts } => close.side == facts.side && reply is Chunk,
            ForwardState::Publishing { facts, .. } => close.side == facts.side && reply is Output,
        },
{
}

/// A page is offered for the earlier chunk of the two inputs: one of data that
/// fits the input of the quantum.
pub proof fn page_is_measured(plan: MeasurePlan, state: MeasureState, reply: Reply)
    ensures
        plan.opening() matches ProgressModel::Ask { state: first, request } && first is PeekingLeft
            && request == (RequestModel::Next { port: plan.inputs.left.port }),
        plan.resumes(state, reply) matches Ok(ProgressModel::Ask { state: next, request }) ==> match (
            state,
            next,
        ) {
            (MeasureState::PeekingLeft, MeasureState::PeekingRight { left }) => reply
                == Reply::Chunk(left) && request == (RequestModel::Next {
                port: plan.inputs.right.port,
            }),
            (MeasureState::PeekingRight { left }, MeasureState::Checking { side, head, budget }) => {
                &&& head.kind is Data
                &&& head.rows <= plan.budget.max_input_rows && head.bytes
                    <= plan.budget.max_input_bytes
                &&& side is Left ==> left == Some(head) && request == (RequestModel::Measure {
                    port: plan.inputs.left.port,
                    chunk: head,
                }) && (reply matches Reply::Chunk(Some(right)) ==> head.lsn <= right.lsn)
                &&& side is Right ==> reply == Reply::Chunk(Some(head)) && request
                    == (RequestModel::Measure { port: plan.inputs.right.port, chunk: head }) && (left
                    matches Some(first) ==> head.lsn < first.lsn)
                &&& budget.max_output_rows <= plan.budget.max_output_rows && budget.max_output_rows
                    <= plan.output.target_rows
                &&& budget.max_output_bytes <= plan.budget.max_output_bytes
                    && budget.max_output_bytes <= plan.output.target_bytes
            },
            (
                MeasureState::Checking { side, head, budget },
                MeasureState::Sizing { side: same, head: chunk, budget: kept },
            ) => {
                &&& same == side && chunk == head && kept == budget && reply is Checked
                &&& request == RequestModel::Read(pages::measure_query(*plan.layout, side, head))
            },
            _ => false,
        },
        plan.resumes(state, reply) matches Ok(ProgressModel::Done(Some(page))) ==> (
        state matches MeasureState::Sizing { side, head, budget } && {
            &&& page.side == side && page.chunk == head
            &&& page.output_rows <= budget.max_output_rows && page.output_bytes
                <= budget.max_output_bytes
        }),
{
}

/// A page takes a place in the output exactly where it has rows, and then
/// changes the candidates of the other side before its own.
pub proof fn page_is_conducted(plan: PagePlan, state: PageState, reply: Reply)
    ensures
        plan.opening() matches Ok(ProgressModel::Ask { state: first, request }) ==> match first {
            PageState::Placing => plan.page.output_rows > 0 && request == (RequestModel::Target {
                rows: plan.page.output_rows,
                bytes: plan.page.output_bytes,
            }),
            PageState::Counting { append } => append is None && plan.page.output_rows == 0
                && plan.page.output_bytes == 0 && request == RequestModel::Write(
                pages::candidates_query(*plan.layout, plan.page.side, plan.page.chunk),
            ),
            _ => false,
        },
        plan.resumes(state, reply) matches Ok(ProgressModel::Ask { state: next, request }) ==> match (
            state,
            next,
        ) {
            (PageState::Placing, PageState::Appending { target }) => {
                &&& reply == Reply::Target(target)
                &&& request matches RequestModel::Write(statement) && pages::append_page_model(
                    *plan.layout,
                    plan.page.side,
                    plan.page.chunk,
                    plan.output,
                    target,
                ) == Ok::<StatementModel, Seq<char>>(statement)
            },
            (PageState::Appending { target }, PageState::Counting { append: Some(append) }) => {
                &&& append.target == target && append.lsn == plan.page.chunk.lsn
                &&& append.rows == plan.page.output_rows && append.bytes == plan.page.output_bytes
                &&& request == RequestModel::Write(
                    pages::candidates_query(*plan.layout, plan.page.side, plan.page.chunk),
                )
            },
            (PageState::Counting { append }, PageState::Owning { append: same }) => {
                &&& same == append
                &&& request == RequestModel::Write(
                    pages::own_state_query(
                        *plan.layout,
                        plan.page.side,
                        plan.row_key@,
                        plan.page.chunk,
                    ),
                )
            },
            _ => false,
        },
        plan.resumes(state, reply) matches Ok(ProgressModel::Done(close)) ==> state
            == (PageState::Owning { append: close.append }),
{
}

/// Output rows take their place before candidates are changed, and candidates
/// are changed exactly where there are some.
pub proof fn publication_is_conducted(plan: PublishModel, state: PublishState, reply: Reply)
    ensures
        match plan.opening() {
            ProgressModel::Ask { state: PublishState::Placing, request } => plan.rows matches Some(
                rows,
            ) && request == (RequestModel::Target {
                rows: rows.expected.rows,
                bytes: rows.expected.bytes,
            }),
            ProgressModel::Ask { state: PublishState::Changing { append }, .. } => plan.rows is None
                && append is None && plan.changes.len() > 0,
            ProgressModel::Done(published) => plan.rows is None && plan.changes.len() == 0
                && published.append is None && published.changed == 0,
            _ => false,
        },
        plan.resumes(state, reply) matches Ok(ProgressModel::Ask { state: next, request }) ==> match (
            state,
            next,
        ) {
            (PublishState::Placing, PublishState::Appending { target }) => reply == Reply::Target(
                target,
            ) && request is Write,
            (PublishState::Appending { target }, PublishState::Changing { append }) => {
                &&& plan.changes.len() > 0
                &&& append matches Some(append) && append.target == target && append.lsn == plan.lsn
                &&& request matches RequestModel::Write(statement) && statement.sql
                    == statements::changes_sql(plan.state, plan.changes)
            },
            _ => false,
        },
        plan.resumes(state, reply) matches Ok(ProgressModel::Done(published)) ==> match state {
            PublishState::Appending { target } => plan.changes.len() == 0 && published.changed == 0
                && (published.append matches Some(append) && append.target == target && append.lsn
                == plan.lsn),
            PublishState::Changing { append } => published.append == append && (reply matches Reply::Rows(
                answer,
            ) && session::bigint(answer@, 1) == Some(published.changed as i64)),
            _ => false,
        },
{
}

/// The own row is changed by one statement.
pub proof fn own_change_is_conducted(plan: OwnPlan, state: OwnState, reply: Reply)
    ensures
        plan.opening() matches Ok(progress) ==> (progress matches ProgressModel::Ask {
            request: RequestModel::Write(statement),
            ..
        } && statement.arguments.len() == 0 && statements::own_change_sql(
            *plan.layout,
            plan.event,
            plan.change,
            plan.row_key@,
        ) == Ok::<Seq<char>, Seq<char>>(statement.sql)),
        plan.resumes(state, reply) matches Ok(progress) ==> progress is Done && (
        reply matches Reply::Rows(rows) && rows@.len() == 1),
{
}

/// An event is read from the chunk of its own side; its own row is locked
/// exactly where a key of it was asked for.
pub proof fn event_is_conducted(plan: EventPlan, state: EventState, reply: Reply)
    ensures
        plan.opening() matches Ok(progress) ==> {
            &&& plan.side is Left ==> progress == (ProgressModel::<EventState, EventRead>::Ask {
                state: EventState::Opening,
                request: RequestModel::Chunk {
                    port: plan.inputs.left.port,
                    sequence: plan.positions.left.chunk_seq,
                },
            })
            &&& plan.side is Right ==> progress == (ProgressModel::<EventState, EventRead>::Ask {
                state: EventState::Opening,
                request: RequestModel::Chunk {
                    port: plan.inputs.right.port,
                    sequence: plan.positions.right.chunk_seq,
                },
            })
        },
        plan.resumes(state, reply) matches Ok(ProgressModel::Ask { state: next, request }) ==> match (
            state,
            next,
        ) {
            (EventState::Opening, EventState::Reading { chunk }) => reply == Reply::Chunk(Some(chunk))
                && request == RequestModel::Read(
                statements::event_query(
                    *plan.layout,
                    plan.side,
                    if plan.side is Left {
                        plan.positions.left
                    } else {
                        plan.positions.right
                    },
                ),
            ),
            (EventState::Reading { chunk }, EventState::Owning { chunk: same, event }) => {
                &&& same == chunk && event.side == plan.side && event.positions == plan.positions
                &&& plan.row_key matches Some(row_key) && request == RequestModel::Lock(
                    statements::own_query(*plan.layout, event, row_key@),
                )
            },
            _ => false,
        },
        plan.resumes(state, reply) matches Ok(ProgressModel::Done(read)) ==> match state {
            EventState::Reading { chunk } => {
                &&& plan.row_key is None && read.own is None && read.chunk == chunk
                &&& read.event.side == plan.side && read.event.positions == plan.positions
            },
            EventState::Owning { chunk, event } => read.own is Some && read.chunk == chunk
                && read.event == event,
            EventState::Opening => false,
        },
{
}

/// A probe reads its candidates, and then asks whether none is left behind the
/// last of them; it is complete exactly where that is so.
pub proof fn probe_is_conducted(plan: ProbePlan, state: ProbeState, reply: Reply)
    ensures
        plan.opening() matches Ok(progress) ==> (progress matches ProgressModel::Ask {
            request: RequestModel::Read(statement),
            ..
        } && statements::probe_model(
            *plan.layout,
            plan.mode,
            plan.progress,
            plan.event,
            plan.budget,
        ) == Ok::<StatementModel, Seq<char>>(statement)),
        plan.resumes(state, reply) matches Ok(ProgressModel::Ask { state: next, request }) ==> match (
            state,
            next,
        ) {
            (ProbeState::Probing, ProbeState::Completing { rows }) => {
                let last = if rows@.len() > 0 {
                    rows@.last().bigint(1)
                } else {
                    plan.progress.candidate_after
                };
                &&& reply == Reply::Rows(rows)
                &&& last matches Some(after) ==> request == RequestModel::Read(
                    statements::completion_model(*plan.layout, plan.event, after),
                )
                &&& last is None ==> request == RequestModel::Read(
                    statements::completion_model(*plan.layout, plan.event, 0),
                )
            },
            _ => false,
        },
        plan.resumes(state, reply) matches Ok(ProgressModel::Done(probed)) ==> {
            &&& state == (ProbeState::Completing { rows: probed.rows })
            &&& reply matches Reply::Rows(answer) && session::boolean(answer@, 1) == Some(
                probed.complete,
            )
        },
{
}

/// The output of an event is measured exactly where one may come of it.
pub proof fn projection_is_conducted(plan: ProjectPlan, state: ProjectState, reply: Reply)
    ensures
        match plan.opening() {
            Ok(ProgressModel::Ask { state: ProjectState::Projecting { start }, request }) =>
                start.measures_output && request == RequestModel::Read(
                statements::current_output_query(*plan.layout, plan.event),
            ),
            Ok(ProgressModel::Done(projected)) => !projected.start.measures_output
                && projected.output_bytes is None,
            Err(_) => true,
        },
        plan.resumes(state, reply) matches Ok(progress) ==> (progress matches ProgressModel::Done(
            projected,
        ) && state == (ProjectState::Projecting { start: projected.start })
            && projected.output_bytes is Some),
{
}

/// A stage without a cursor opens its inputs; one with a cursor reads the event
/// at the positions of the cursor, on its side, and with its own row exactly
/// before the first candidate and behind the last one.
pub proof fn cursor_says_what_is_read(
    plan: TransitionPlan,
    stored: Option<JoinContinuation>,
)
    ensures
        plan.opening(stored) matches Ok(progress) ==> (progress matches ProgressModel::Ask {
            state,
            ..
        } && match (stored, state) {
            (None, TransitionState::Opening { inner }) => inner is PeekingLeft,
            (
                Some(JoinContinuation::Preflight { positions, side }),
                TransitionState::Preflight { positions: same, side: own, inner },
            ) => same == positions && own == side && inner is Opening,
            (
                Some(JoinContinuation::Finalize(cursor)),
                TransitionState::Owning { continuation, progress: same, inner },
            ) => stored == Some(continuation) && same == cursor && inner is Opening,
            (Some(JoinContinuation::Frontier(_)), TransitionState::Forwarding { continuation, inner }) =>
                stored == Some(continuation) && inner is Heading,
            (
                Some(JoinContinuation::Probe(cursor)),
                TransitionState::Reading { continuation, progress: same, inner },
            ) => stored == Some(continuation) && same == cursor && inner is Opening,
            (
                Some(JoinContinuation::PendingTransition { progress: cursor, .. }),
                TransitionState::Reading { continuation, progress: same, inner },
            ) => stored == Some(continuation) && same == cursor && inner is Opening,
            _ => false,
        }),
{
}

} // verus!
