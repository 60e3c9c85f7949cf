//! What the statements of a Distinct stage are told, and what they are
//! believed.

use vstd::prelude::*;

use crate::execution::contract::{OutputFacts, PrimitiveFacts};
use crate::execution::distinct::machine::{
    AppliedPrefix, DistinctAction, DistinctActionResult, DistinctContinuation, DistinctMachine,
    DistinctPhase, DistinctTransition,
};
use crate::execution::distinct::statements::{
    self, ApplyFacts, ApplyRow, DrainFacts, DrainRow, DrainSql, PrefixFacts, PrefixSql,
    ReconcileFacts, ReconcileRow, ReconcileSql,
};
use crate::execution::distinct::step;
use crate::execution::distinct::storage::StoredContinuation;
use crate::execution::requests::{names_position, names_prefix};
use crate::execution::stream::{ChunkMeta, InputState, OutputAppendTarget, OutputState};
use crate::planner::WorkBudget;
use crate::postgres;
use crate::sql::number;

verus! {

/// A prefix is admitted by a statement that names its rows and the budget,
/// wherever the stage has keys, an order for each of them, and an output.
pub proof fn admission_names_its_prefix(
    sql: PrefixSql,
    chunk: ChunkMeta,
    first_row: i64,
    budget: WorkBudget,
)
    ensures
        statements::apply_query(sql, chunk, first_row, budget) matches Ok(statement) ==> statement
            .arguments.len() == 5 && names_prefix(statement, chunk, first_row, budget),
        statements::apply_query(sql, chunk, first_row, budget) is Ok <==> {
            &&& sql.keys@.len() > 0
            &&& sql.keys@.len() == sql.key_orders@.len()
            &&& sql.expressions@.len() > 0
            &&& budget.max_input_rows <= i64::MAX
            &&& budget.max_input_bytes <= i64::MAX
        },
{
}

/// An admission and its reconciliation work on the same relations.
pub proof fn prefix_works_on_its_relations(sql: PrefixSql, reconcile: ReconcileSql, drain: DrainSql)
    ensures
        sql.holes().contains(("input"@, sql.input@)),
        sql.holes().contains(("state"@, sql.state@)),
        sql.holes().contains(("bag"@, sql.bag@)),
        sql.holes().contains(("touched"@, sql.touched@)),
        sql.holes().contains(("output_key"@, sql.output_key@)),
        sql.holes().contains(("output_type"@, sql.output_type@)),
        reconcile.holes().contains(("state"@, reconcile.state@)),
        reconcile.holes().contains(("bag"@, reconcile.bag@)),
        reconcile.holes().contains(("queue"@, reconcile.queue@)),
        reconcile.holes().contains(("touched"@, reconcile.touched@)),
        reconcile.holes().contains(("canonical_key"@, reconcile.canonical_key@)),
        drain.holes().contains(("queue"@, drain.queue@)),
        drain.holes().contains(("output_payload"@, drain.output_payload@)),
        drain.holes().contains(("canonical_key"@, drain.canonical_key@)),
{
    assert(sql.holes()[1] == ("output_type"@, sql.output_type@));
    assert(sql.holes()[7] == ("input"@, sql.input@));
    assert(sql.holes()[8] == ("output_key"@, sql.output_key@));
    assert(sql.holes()[9] == ("state"@, sql.state@));
    assert(sql.holes()[11] == ("bag"@, sql.bag@));
    assert(sql.holes()[12] == ("touched"@, sql.touched@));
    assert(reconcile.holes()[0] == ("state"@, reconcile.state@));
    assert(reconcile.holes()[1] == ("bag"@, reconcile.bag@));
    assert(reconcile.holes()[2] == ("queue"@, reconcile.queue@));
    assert(reconcile.holes()[3] == ("touched"@, reconcile.touched@));
    assert(reconcile.holes()[4] == ("canonical_key"@, reconcile.canonical_key@));
    assert(drain.holes()[0] == ("queue"@, drain.queue@));
    assert(drain.holes()[1] == ("output_payload"@, drain.output_payload@));
    assert(drain.holes()[2] == ("canonical_key"@, drain.canonical_key@));
}

/// Effects are queued at the position of their chunk.
pub proof fn effects_are_queued_at_their_position(sql: ReconcileSql, lsn: u64)
    ensures
        statements::reconcile_query(sql, lsn).arguments.len() == 1,
        names_position(statements::reconcile_query(sql, lsn).told(1), lsn),
{
    postgres::lsn_text_is_read_back(lsn);
}

/// An admission is believed when its summary is whole and it touched no more
/// keys and rows than it took in.
pub proof fn admitted_rows_bound_the_touched_keys(rows: int, row: ApplyRow)
    ensures
        statements::applied(rows, row) matches Ok(facts) ==> {
            &&& rows == 1
            &&& row.status matches Some(status) && status@ == "ok"@
            &&& row.touched_keys == Some(facts.touched_keys as i64)
            &&& row.input_rows == Some(facts.input_rows as i64)
            &&& row.input_bytes == Some(facts.input_bytes as i64)
            &&& row.mutations == Some(facts.mutations as i64)
            &&& row.next_row == Some(facts.next_row)
            &&& facts.touched_keys <= facts.input_rows
            &&& row.touched_physical matches Some(touched) && 0 <= touched <= facts.input_rows
        },
{
}

/// A reconciliation is believed when its summary is whole and it looked at no
/// more groups than rows may be taken in.
pub proof fn reconciled_groups_stay_in_the_budget(
    rows: int,
    row: ReconcileRow,
    budget: WorkBudget,
)
    ensures
        statements::reconciled(rows, row, budget) matches Ok(facts) ==> {
            &&& rows == 1
            &&& row.status matches Some(status) && status@ == "ok"@
            &&& row.touched matches Some(touched) && 0 <= touched <= budget.max_input_rows
            &&& row.queued_effects == Some(facts.queued_effects as i64)
            &&& row.state_rows == Some(facts.state_rows as i64)
        },
{
}

/// A prefix takes in what was admitted, queues what was reconciled, at most two
/// effects for a row, and changes the state rows of both.
pub proof fn prefix_adds_up(applied: ApplyFacts, reconciled: ReconcileFacts)
    ensures
        statements::prefix_of(applied, reconciled) matches Ok(prefix) ==> {
            &&& prefix.usage.input_rows == applied.input_rows
            &&& prefix.usage.input_bytes == applied.input_bytes
            &&& prefix.usage.output_rows == 0 && prefix.usage.output_bytes == 0
            &&& prefix.next_row == applied.next_row
            &&& prefix.touched_keys == applied.touched_keys
            &&& prefix.queued_effects == reconciled.queued_effects
            &&& prefix.state_rows == applied.mutations + reconciled.state_rows
            &&& applied.input_rows * 2 <= u64::MAX ==> prefix.queued_effects <= 2
                * prefix.usage.input_rows
        },
        reconciled.queued_effects <= 2 * applied.input_rows && applied.mutations
            + reconciled.state_rows <= u64::MAX ==> statements::prefix_of(
            applied,
            reconciled,
        ) is Ok,
{
}

/// A drain writes to the next chunk of its output, no more rows and bytes than
/// the budget and the target of the stream allow, and as many as both do.
pub proof fn drain_stays_in_budget_and_target(
    sql: DrainSql,
    budget: WorkBudget,
    output: OutputState,
)
    ensures
        statements::drain_model(sql, budget, output) is Ok <==> budget.max_output_rows <= i64::MAX
            && budget.max_output_bytes <= i64::MAX,
        statements::drain_model(sql, budget, output) matches Ok(statement) ==> exists|
            rows: int,
            bytes: int,
        |
            #![trigger number(rows), number(bytes)]
            {
                &&& statement.arguments == seq![
                    number(output.stream_id as int),
                    number(output.next_chunk_seq as int),
                    number(rows),
                    number(bytes),
                ]
                &&& rows <= budget.max_output_rows && rows <= output.target_rows
                &&& rows == budget.max_output_rows || rows == output.target_rows
                &&& bytes <= budget.max_output_bytes && bytes <= output.target_bytes
                &&& bytes == budget.max_output_bytes || bytes == output.target_bytes
            },
{
    if let Ok(statement) = statements::drain_model(sql, budget, output) {
        let rows = if budget.max_output_rows as int <= output.target_rows {
            budget.max_output_rows as int
        } else {
            output.target_rows as int
        };
        let bytes = if budget.max_output_bytes as int <= output.target_bytes {
            budget.max_output_bytes as int
        } else {
            output.target_bytes as int
        };
        assert(statement.arguments =~= seq![
            number(output.stream_id as int),
            number(output.next_chunk_seq as int),
            number(rows),
            number(bytes),
        ]);
    }
}

/// A drain is believed when it took each effect off the queue that it wrote,
/// all under one position; its append is what it wrote.
pub proof fn drained_effects_are_written_once(rows: int, row: DrainRow, output: OutputState)
    ensures
        statements::drained(rows, row, output) matches Ok(facts) ==> {
            &&& rows == 1
            &&& row.one_causal_lsn == Some(true)
            &&& row.canonical_keys == Some(true)
            &&& facts.append.rows > 0 && facts.append.bytes > 0
            &&& row.emitted == Some(facts.append.rows as i64)
            &&& row.inserted == row.emitted
            &&& row.removed == row.emitted
            &&& row.emitted_bytes == Some(facts.append.bytes as i64)
            &&& row.remaining == Some(facts.remaining_effects as i64)
            &&& facts.state_rows == facts.append.rows
            &&& facts.usage.output_rows == facts.append.rows
            &&& facts.usage.output_bytes == facts.append.bytes
            &&& facts.usage.input_rows == 0 && facts.usage.input_bytes == 0
            &&& facts.append.target == (OutputAppendTarget::New { sequence: output.next_chunk_seq })
            &&& row.causal_lsn matches Some(lsn) && postgres::lsn_value(lsn@) is Some
                && facts.append.lsn == postgres::lsn_value(lsn@)->0 as u64
        },
{
}

/// Behind a prefix the stage drains what it queued, or goes on at the next row
/// of its chunk, or is done with the chunk.
pub proof fn prefix_is_followed_in_order(input: InputState, chunk: ChunkMeta, prefix: PrefixFacts)
    ensures
        step::admit_successor(input, chunk, prefix) matches Ok(Some(next)) ==> {
            &&& next.input.stream_id == input.stream_id
            &&& next.input.chunk_seq == chunk.sequence
            &&& next.input.row_ordinal == prefix.next_row
            &&& next.phase is Drain <==> prefix.queued_effects > 0
            &&& next.phase is Apply <==> prefix.queued_effects == 0 && prefix.next_row < chunk.rows
        },
        step::admit_successor(input, chunk, prefix) matches Ok(None) ==> prefix.queued_effects == 0
            && prefix.next_row == chunk.rows,
{
}

/// Behind a drain the stage drains on while effects are left, or goes on at the
/// row that it had reached, or is done with the chunk.
pub proof fn drain_is_followed_in_order(
    input: InputState,
    chunk: ChunkMeta,
    value: DistinctContinuation,
    drained: DrainFacts,
)
    ensures
        drained.remaining_effects > 0 ==> step::drain_successor(input, chunk, value, drained) == Ok::<
            Option<DistinctContinuation>,
            Seq<char>,
        >(Some(value)),
        drained.remaining_effects == 0 ==> {
            &&& step::drain_successor(input, chunk, value, drained) matches Ok(Some(next)) ==> {
                &&& next.phase is Apply
                &&& next.input.stream_id == input.stream_id
                &&& next.input.chunk_seq == chunk.sequence
                &&& next.input.row_ordinal == value.input.row_ordinal
                &&& value.input.row_ordinal < chunk.rows
            }
            &&& step::drain_successor(input, chunk, value, drained) matches Ok(None)
                ==> value.input.row_ordinal == chunk.rows
        },
{
}

/// A consumer stays at its chunk while the stage has more to do with it.
pub proof fn consumer_stays_while_work_is_left(
    input: InputState,
    chunk: ChunkMeta,
    next: Option<DistinctContinuation>,
)
    requires
        chunk.sequence < i64::MAX,
    ensures
        step::advance_of(input, chunk, next) is None <==> next is Some,
        step::advance_of(input, chunk, next) matches Some(advance) ==> advance.next_chunk_seq
            == chunk.sequence + 1 && advance.frontier_lsn == input.consumed_frontier_lsn
            && advance.usage.input_rows == chunk.rows && advance.usage.input_bytes == chunk.bytes,
        step::rows_left(next) == if next is Some {
            1int
        } else {
            0int
        },
{
}

/// A page that was drained or admitted reports what it did: a drained page its
/// output and no touched keys, an admitted one its input and nothing written.
pub proof fn pages_report_what_they_did(
    drained: DrainFacts,
    admitted: PrefixFacts,
    next: Option<DistinctContinuation>,
)
    ensures
        ({
            let page = step::drained_page(drained, next);
            &&& page.facts.usage == drained.usage
            &&& page.facts.state_rows == drained.state_rows
            &&& page.facts.output == (OutputFacts::Data { chunk_seq: drained.append.target.chunk() })
            &&& page.occupancy.touched_keys == 0
            &&& page.occupancy.external_effects == drained.usage.output_rows
            &&& page.facts.continuation_rows == 1 <==> next is Some
            &&& page.next == next
        }),
        ({
            let page = step::admitted_page(admitted, next);
            &&& page.facts.usage == admitted.usage
            &&& page.facts.state_rows == admitted.state_rows
            &&& page.facts.output is Nothing
            &&& page.occupancy.touched_keys == admitted.touched_keys
            &&& page.occupancy.external_effects == admitted.queued_effects
            &&& page.facts.continuation_rows == 1 <==> next is Some
            &&& page.next == next
        }),
{
}

/// A stage opens a chunk by what it holds: data is applied, a frontier goes on.
pub proof fn opened_phase_follows_the_chunk(
    stored: StoredContinuation,
    chunk: Option<ChunkMeta>,
)
    ensures
        step::pinned(stored, chunk) is Ok ==> chunk is Some,
        !stored.persisted ==> (step::pinned(stored, chunk) matches Ok(opened) ==> {
            &&& chunk->0.kind is Data <==> opened.value.phase is Apply
            &&& chunk->0.kind is Frontier <==> opened.value.phase is Frontier
            &&& opened.value.input == stored.value.input
            &&& !opened.persisted
        }),
        stored.persisted ==> (step::pinned(stored, chunk) matches Ok(opened) ==> opened == stored
            && chunk->0.kind is Data && !(stored.value.phase is Frontier)),
{
}

/// A stage acts by its phase: rows are admitted, effects are drained, and a
/// frontier goes on, each at the position of the continuation.
pub proof fn phases_act_in_their_part(value: DistinctContinuation)
    ensures
        match (value.phase, value.next_action()) {
            (DistinctPhase::Apply, DistinctAction::ApplyPrefix { input }) => input == value.input,
            (DistinctPhase::Drain, DistinctAction::DrainEffects { input }) => input == value.input,
            (DistinctPhase::Frontier, DistinctAction::ForwardFrontier { input }) => input
                == value.input,
            _ => false,
        },
        value.phase.lifecycle() is Admit <==> value.phase is Apply,
        value.phase.lifecycle() is Drain <==> value.phase is Drain,
        value.phase.lifecycle() is Frontier <==> value.phase is Frontier,
        value.sound() is Ok <==> value.input.valid() && (value.phase is Frontier
            ==> value.input.row_ordinal == 0),
{
}

/// Whether a stage goes on in the same chunk, and not at a frontier.
pub open spec fn stays_in_chunk(value: DistinctContinuation, next: DistinctContinuation) -> bool {
    &&& next.input.valid()
    &&& next.input.stream_id == value.input.stream_id
    &&& next.input.chunk_seq == value.input.chunk_seq
    &&& !(next.phase is Frontier)
}

/// A page is committed as it is when it fits its phase: an admitted page takes
/// in rows, moves on, writes nothing, and hands over to a drain exactly when it
/// queued effects; a drained one takes in nothing, stays at its row, and writes
/// each effect that it took off the queue.
pub proof fn pages_are_committed_in_their_phase(
    value: DistinctContinuation,
    page: AppliedPrefix,
    budget: WorkBudget,
)
    ensures
        DistinctMachine::applied(value, DistinctActionResult::Applied(page), budget) matches Ok(
            DistinctTransition::Committed { continuation, facts },
        ) ==> {
            &&& value.phase is Apply
            &&& continuation == page.next && facts == page.facts
            &&& facts.usage.input_rows > 0
            &&& facts.usage.output_rows == 0 && facts.output is Nothing
            &&& page.occupancy.touched_keys <= facts.usage.input_rows
            &&& page.occupancy.external_effects > 0 <==> (page.next matches Some(next)
                && next.phase is Drain)
            &&& page.next matches Some(next) ==> stays_in_chunk(value, next)
                && next.input.row_ordinal > value.input.row_ordinal
            &&& facts.sound(budget) is Ok
            &&& facts.continuation_rows == 1 <==> page.next is Some
        },
        DistinctMachine::applied(value, DistinctActionResult::Drained(page), budget) matches Ok(
            DistinctTransition::Committed { continuation, facts },
        ) ==> {
            &&& value.phase is Drain
            &&& continuation == page.next && facts == page.facts
            &&& facts.usage.input_rows == 0 && facts.usage.input_bytes == 0
            &&& page.occupancy.external_effects == facts.usage.output_rows
            &&& facts.output is Data <==> facts.usage.output_rows > 0
            &&& page.next matches Some(next) ==> stays_in_chunk(value, next)
                && next.input.row_ordinal == value.input.row_ordinal
            &&& facts.sound(budget) is Ok
            &&& facts.continuation_rows == 1 <==> page.next is Some
        },
{
}

/// A frontier is committed from its phase, without input and without state, and
/// ends the chunk.
pub proof fn frontier_ends_its_chunk(
    value: DistinctContinuation,
    facts: PrimitiveFacts,
    budget: WorkBudget,
)
    ensures
        DistinctMachine::applied(value, DistinctActionResult::FrontierForwarded(facts), budget)
            matches Ok(DistinctTransition::Committed { continuation, facts: same }) ==> {
            &&& value.phase is Frontier
            &&& continuation is None
            &&& same == facts
            &&& facts.output is Frontier
            &&& facts.usage.input_rows == 0 && facts.usage.input_bytes == 0
            &&& facts.usage.output_rows == 0 && facts.usage.output_bytes == 0
            &&& facts.state_rows == 0
            &&& facts.continuation_rows == 0
        },
{
}

} // verus!
