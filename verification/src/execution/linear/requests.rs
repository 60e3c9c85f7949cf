//! What the statements of a linear stage are told, what they are believed, and
//! where the stage goes from there.

use vstd::prelude::*;

use crate::execution::continuation::Attribute;
use crate::execution::contract::OutputFacts;
use crate::execution::linear::machine::{
    BootstrapFacts, LinearKind, ScanContinuation, ScanPhase, TransformContinuation, TransformFacts,
};
use crate::execution::linear::statements::{
    self, BootstrapRow, TransformRow, TransformSql,
};
use crate::execution::linear::step::{self, ScanAction, TransformAction, TransformNext};
use crate::execution::requests::names_position;
use crate::execution::stream::{ChunkMeta, InputState, OutputAppendTarget, OutputState, ProducerKind};
use crate::planner::{Operator, OutputSlot, ScanColumn, WorkBudget};
use crate::postgres;
use crate::sql::{number, SqlModel};

verus! {

/// The smaller of a budget and a target.
pub open spec fn at_most(budget: usize, target: i64) -> int {
    if budget as int <= target {
        budget as int
    } else {
        target as int
    }
}

/// A transformation names the rest of its chunk, the input that the budget
/// takes in, the output that the budget and the target of the stream allow, the
/// next chunk of the output, and whether rows go out at all.
pub proof fn transformation_is_told(
    sql: TransformSql,
    budget: WorkBudget,
    output: OutputState,
    chunk: ChunkMeta,
    row_ordinal: i64,
    emit_rows: bool,
)
    ensures
        statements::transform_query(sql, budget, output, chunk, row_ordinal, emit_rows) matches Ok(
            statement,
        ) ==> {
            &&& statement.arguments.len() == 11
            &&& statement.told(1) == number(chunk.stream_id as int)
            &&& statement.told(2) == number(chunk.sequence as int)
            &&& statement.told(3) == number(row_ordinal as int)
            &&& statement.told(4) == number(chunk.rows as int)
            &&& statement.told(5) == number(budget.max_input_rows as int)
            &&& statement.told(6) == number(budget.max_input_bytes as int)
            &&& statement.told(7) == number(at_most(budget.max_output_rows, output.target_rows))
            &&& statement.told(8) == number(at_most(budget.max_output_bytes, output.target_bytes))
            &&& statement.told(9) == number(output.stream_id as int)
            &&& statement.told(10) == number(output.next_chunk_seq as int)
            &&& statement.told(11) == SqlModel::Boolean(Some(emit_rows))
        },
        statements::transform_query(sql, budget, output, chunk, row_ordinal, emit_rows) is Ok
            <==> budget.max_input_rows <= i64::MAX && budget.max_input_bytes <= i64::MAX
            && budget.max_output_rows <= i64::MAX && budget.max_output_bytes <= i64::MAX
            && chunk.rows <= i64::MAX,
{
}

/// A transformation reads its input and writes its output, through the filter
/// and the expressions of its stage.
pub proof fn transformation_works_on_its_relations(sql: TransformSql)
    ensures
        sql.holes().contains(("input_relation"@, sql.input_relation@)),
        sql.holes().contains(("output_relation"@, sql.output_relation@)),
        sql.holes().contains(("output_type"@, sql.output_type@)),
        sql.holes().contains(("predicate"@, sql.predicate@)),
        sql.holes().contains(("expressions"@, sql.expressions@)),
{
    assert(sql.holes()[0] == ("input_relation"@, sql.input_relation@));
    assert(sql.holes()[1] == ("output_relation"@, sql.output_relation@));
    assert(sql.holes()[2] == ("output_type"@, sql.output_type@));
    assert(sql.holes()[3] == ("predicate"@, sql.predicate@));
    assert(sql.holes()[4] == ("expressions"@, sql.expressions@));
}

/// A transformation is believed when it took a run of rows from where it was
/// told to start and stored exactly what it let out.
pub proof fn transformed_rows_are_a_run(
    rows: int,
    row: TransformRow,
    row_ordinal: i64,
    budget: WorkBudget,
    output: OutputState,
)
    ensures
        statements::transformed(rows, row, row_ordinal, budget, output) matches Ok(facts) ==> {
            &&& rows == 1
            &&& facts.usage.input_rows > 0
            &&& facts.first_ordinal == row_ordinal
            &&& facts.last_ordinal == row_ordinal + facts.usage.input_rows - 1
            &&& row.processed == Some(facts.usage.input_rows as i64)
            &&& row.input_bytes == Some(facts.usage.input_bytes as i64)
            &&& row.emitted == Some(facts.usage.output_rows as i64)
            &&& row.output_bytes == Some(facts.usage.output_bytes as i64)
            &&& row.inserted == row.emitted
            &&& row.stored_bytes == row.output_bytes
            &&& facts.usage.output_rows <= budget.max_output_rows
            &&& facts.usage.output_rows <= output.target_rows
            &&& facts.usage.output_rows == 0 ==> facts.output is Nothing
            &&& facts.usage.output_rows > 0 ==> facts.output == (OutputFacts::Data {
                chunk_seq: output.next_chunk_seq,
            })
        },
{
}

/// What went out is appended under the position of its input; where nothing
/// went out nothing is appended.
pub proof fn output_is_appended_where_there_is_some(
    output: OutputFacts,
    usage: crate::planner::WorkUsage,
    lsn: u64,
)
    ensures
        output is Data <==> statements::new_chunk_append(output, usage, lsn) is Some,
        statements::new_chunk_append(output, usage, lsn) matches Some(append) ==> {
            &&& append.rows == usage.output_rows
            &&& append.bytes == usage.output_bytes
            &&& append.lsn == lsn
            &&& append.target matches OutputAppendTarget::New { sequence } && output == (
            OutputFacts::Data { chunk_seq: sequence })
        },
{
}

/// A page of the initial snapshot starts at its sequence, stays within the
/// input, the output and the target, and goes to the next chunk of the output.
pub proof fn snapshot_page_is_told(
    bootstrap: Seq<char>,
    output_relation: Seq<char>,
    next_sequence: i64,
    budget: WorkBudget,
    output: OutputState,
)
    ensures
        statements::bootstrap_query(bootstrap, output_relation, next_sequence, budget, output)
            matches Ok(statement) ==> exists|rows: int, bytes: int|
            #![trigger number(rows), number(bytes)]
            {
                &&& statement.arguments == seq![
                    number(next_sequence as int),
                    number(rows),
                    number(bytes),
                    number(output.stream_id as int),
                    number(output.next_chunk_seq as int),
                ]
                &&& rows <= budget.max_input_rows && rows <= budget.max_output_rows && rows
                    <= output.target_rows
                &&& rows == budget.max_input_rows || rows == budget.max_output_rows || rows
                    == output.target_rows
                &&& bytes <= budget.max_input_bytes && bytes <= budget.max_output_bytes && bytes
                    <= output.target_bytes
                &&& bytes == budget.max_input_bytes || bytes == budget.max_output_bytes || bytes
                    == output.target_bytes
            },
{
    if let Ok(statement) = statements::bootstrap_query(
        bootstrap,
        output_relation,
        next_sequence,
        budget,
        output,
    ) {
        let limits = statements::BootstrapLimits::of(budget, output)->Ok_0;
        assert(statement.arguments =~= seq![
            number(next_sequence as int),
            number(limits.rows as int),
            number(limits.bytes as int),
            number(output.stream_id as int),
            number(output.next_chunk_seq as int),
        ]);
    }
}

/// A page of the snapshot is believed when every row that left the snapshot was
/// stored in the output, with all its bytes.
pub proof fn snapshot_rows_move_to_the_output(
    rows: int,
    row: BootstrapRow,
    budget: WorkBudget,
    output: OutputState,
)
    ensures
        statements::bootstrapped(rows, row, budget, output) matches Ok(facts) ==> {
            &&& rows == 1
            &&& row.rows == Some(facts.usage.input_rows as i64)
            &&& row.bytes == Some(facts.usage.input_bytes as i64)
            &&& row.inserted == row.rows && row.deleted == row.rows
            &&& row.stored_bytes == row.bytes
            &&& facts.usage.output_rows == facts.usage.input_rows
            &&& facts.usage.output_bytes == facts.usage.input_bytes
            &&& facts.first_sequence == row.first_sequence
            &&& facts.last_sequence == row.last_sequence
            &&& facts.usage.input_rows == 0 ==> facts.output is Nothing
            &&& facts.usage.input_rows > 0 ==> facts.output == (OutputFacts::Data {
                chunk_seq: output.next_chunk_seq,
            })
        },
{
}

/// A search for skipped chunks names the stream, the next chunk and the
/// frontier; a frontier that skips one is refused, and so is no answer.
pub proof fn frontier_is_checked_against_its_stream(
    stream_id: i64,
    next_chunk_seq: i64,
    frontier: u64,
    skipped: Option<bool>,
)
    ensures
        ({
            let statement = statements::skipped_chunk_query(stream_id, next_chunk_seq, frontier);
            &&& statement.arguments.len() == 3
            &&& statement.told(1) == number(stream_id as int)
            &&& statement.told(2) == number(next_chunk_seq as int)
            &&& names_position(statement.told(3), frontier)
        }),
        statements::skips_nothing(skipped) is Ok <==> skipped == Some(false),
{
    postgres::lsn_text_is_read_back(frontier);
}

/// The rest of a snapshot is looked for from a sequence on.
pub proof fn rest_of_the_snapshot_is_looked_for(bootstrap: Seq<char>, at_or_after: i64)
    ensures
        statements::first_bootstrap_query(bootstrap, at_or_after).arguments == seq![
            number(at_or_after as int),
        ],
        statements::first_bootstrap_query(bootstrap, at_or_after).sql
            == "SELECT min(bootstrap_seq)::bigint FROM "@ + bootstrap + " WHERE bootstrap_seq >= $1"@,
{
}

/// A linear stage is a scan, a filter or a projection, by its operator.
pub proof fn stage_is_of_the_kind_of_its_operator(operator: Operator)
    ensures
        match step::kind_of(operator) {
            Ok(LinearKind::Scan) => operator is Scan,
            Ok(LinearKind::Filter) => operator is Filter,
            Ok(LinearKind::Project) => operator is Project,
            Err(_) => !(operator is Scan) && !(operator is Filter) && !(operator is Project),
        },
{
}

/// A scan reads a source and every other stage reads an operator, from the one
/// port that a linear stage has.
pub proof fn scans_read_sources(kind: LinearKind, inputs: Seq<InputState>)
    ensures
        step::inputs_sound(kind, inputs) is Ok <==> {
            &&& inputs.len() == 1
            &&& inputs[0].port == 0
            &&& kind is Scan ==> inputs[0].producer == ProducerKind::Source
            &&& !(kind is Scan) ==> inputs[0].producer == ProducerKind::Operator
        },
{
}

/// A scan goes on where its continuation stands: with the snapshot, with its
/// end, with a chunk, or with a frontier of the source.
pub proof fn scan_goes_on_where_it_stands(continuation: Option<ScanContinuation>)
    ensures
        match (continuation, step::scan_action(continuation)) {
            (None, ScanAction::ReadChunk { row_ordinal }) => row_ordinal == 0,
            (Some(state), ScanAction::Bootstrap { next_sequence }) => state.phase is Bootstrap
                && Some(next_sequence) == Some(state.next_bootstrap_seq->0),
            (Some(state), ScanAction::SnapshotFrontier) => state.phase is SnapshotFrontier,
            (Some(state), ScanAction::SourceFrontier { frontier }) => state.phase is SourceFrontier
                && frontier == state.pending_frontier_lsn->0,
            (Some(state), ScanAction::ReadChunk { row_ordinal }) => state.phase is Data
                && row_ordinal == state.next_row_ordinal->0,
            _ => false,
        },
{
}

/// The shape of a continuation follows its phase: the snapshot has a sequence,
/// a chunk has a row, and a frontier has a position.
pub proof fn continuation_has_the_shape_of_its_phase(state: ScanContinuation)
    ensures
        state.sound() is Ok ==> {
            &&& state.input_stream_id > 0
            &&& state.next_bootstrap_seq is Some <==> state.phase is Bootstrap
            &&& state.input_chunk_seq is Some <==> state.phase is Data
            &&& state.next_row_ordinal is Some <==> state.phase is Data
            &&& state.pending_frontier_lsn is Some <==> state.phase is SnapshotFrontier
                || state.phase is SourceFrontier
            &&& state.next_bootstrap_seq matches Some(next) ==> next > 0
            &&& state.input_chunk_seq matches Some(chunk) ==> chunk > 0
            &&& state.next_row_ordinal matches Some(row) ==> row >= 0
        },
{
}

/// The phases are stored in the order in which a scan first comes to them.
pub proof fn phases_are_numbered_in_their_order(phase: ScanPhase)
    ensures
        phase is Bootstrap <==> phase.number() == 1,
        phase is SnapshotFrontier <==> phase.number() == 2,
        phase is Data <==> phase.number() == 3,
        phase is SourceFrontier <==> phase.number() == 4,
{
}

/// A transformation takes its chunk by what it holds: a frontier goes on behind
/// the chunk, and data is read from the first row or from where it was left.
pub proof fn chunk_is_taken_by_what_it_holds(
    stream_id: i64,
    continuation: Option<TransformContinuation>,
    chunk: Option<ChunkMeta>,
)
    requires
        chunk matches Some(chunk) ==> chunk.sequence < i64::MAX,
    ensures
        match step::transform_action(stream_id, continuation, chunk) {
            Ok(TransformAction::Frontier { lsn, advance }) => {
                &&& chunk matches Some(chunk) && chunk.kind is Frontier && lsn == chunk.lsn
                    && advance.next_chunk_seq == chunk.sequence + 1 && advance.frontier_lsn
                    == chunk.lsn
                &&& continuation matches Some(state) ==> state.next_row_ordinal == 0
            },
            Ok(TransformAction::Data { row_ordinal }) => {
                &&& chunk matches Some(chunk) && chunk.kind is Data
                &&& continuation is None ==> row_ordinal == 0
                &&& continuation matches Some(state) ==> row_ordinal == state.next_row_ordinal
            },
            Err(_) => true,
        },
        step::transform_action(stream_id, continuation, chunk) is Ok ==> (
        continuation matches Some(state) ==> state.input_stream_id == stream_id
            && state.input_chunk_seq == chunk->0.sequence),
        continuation is None && chunk is Some ==> step::transform_action(
            stream_id,
            continuation,
            chunk,
        ) is Ok,
{
}

/// A page of the snapshot ends right behind its rows, and the snapshot has no
/// gap: the rest begins there, or the snapshot is over and its frontier is due
/// at the activation of the input.
pub proof fn snapshot_is_walked_without_gaps(
    continuation: ScanContinuation,
    next_sequence: i64,
    facts: BootstrapFacts,
    remaining: Option<i64>,
    activation_lsn: u64,
)
    requires
        facts.last_sequence matches Some(last) ==> last < i64::MAX,
    ensures
        step::bootstrap_end(next_sequence, facts) matches Ok(Some(end)) ==> facts.first_sequence
            == Some(next_sequence) && end == next_sequence + facts.usage.input_rows,
        step::bootstrap_end(next_sequence, facts) matches Ok(None) ==> facts.usage.input_rows == 0,
        step::bootstrap_end(next_sequence, facts) matches Ok(end) ==> (step::bootstrap_successor(
            continuation,
            end,
            remaining,
            activation_lsn,
        ) matches Ok(next) ==> {
            &&& end is Some && remaining is Some ==> remaining == end && next.phase
                == continuation.phase && next.next_bootstrap_seq == end
            &&& end is None || remaining is None ==> next.phase is SnapshotFrontier
                && next.pending_frontier_lsn == Some(activation_lsn) && next.input_stream_id
                == continuation.input_stream_id
        }),
{
}

/// The end of the snapshot is the activation of the input, and nothing was
/// consumed beyond it.
pub proof fn snapshot_ends_at_activation(continuation: ScanContinuation, input: InputState)
    ensures
        match step::snapshot_boundary(continuation, input) {
            Ok(frontier) => continuation.pending_frontier_lsn == Some(frontier) && frontier
                == input.activation_lsn && input.consumed_frontier_lsn == input.activation_lsn,
            Err(_) => continuation.pending_frontier_lsn != Some(input.activation_lsn)
                || input.consumed_frontier_lsn != input.activation_lsn,
        },
{
}

/// A frontier of the source is taken up exactly when it is beyond what was
/// consumed and lies before the next chunk.
pub proof fn frontier_is_taken_before_the_next_chunk(
    input: InputState,
    next_chunk_lsn: Option<u64>,
    frontier: u64,
)
    ensures
        step::unconsumed_frontier(input) == Some(frontier)
            <==> input.available_source_frontier_lsn == Some(frontier) && frontier
            > input.consumed_frontier_lsn,
        step::frontier_behind(input, next_chunk_lsn) == Some(frontier)
            <==> input.available_source_frontier_lsn == Some(frontier) && frontier
            > input.consumed_frontier_lsn && (next_chunk_lsn matches Some(next) ==> next
            > frontier),
        step::frontier_published(input, frontier) is Ok <==> frontier > input.consumed_frontier_lsn
            && (input.available_source_frontier_lsn matches Some(available) && frontier
            <= available),
        step::advanced_frontier(input, frontier).next_chunk_seq == input.next_chunk_seq,
        step::advanced_frontier(input, frontier).frontier_lsn == frontier,
{
}

/// A transformation goes on at the row behind its last one, or at the next
/// chunk once it has read them all.
pub proof fn transformation_goes_on_behind_its_last_row(
    input: InputState,
    chunk: ChunkMeta,
    row_ordinal: i64,
    facts: TransformFacts,
)
    requires
        chunk.sequence < i64::MAX,
    ensures
        match step::transform_next(input, chunk, row_ordinal, facts) {
            Ok(TransformNext::Row { next_row }) => facts.first_ordinal == row_ordinal && next_row
                == facts.last_ordinal + 1 && next_row < chunk.rows,
            Ok(TransformNext::Chunk { advance }) => facts.first_ordinal == row_ordinal
                && facts.last_ordinal + 1 == chunk.rows && advance.next_chunk_seq == chunk.sequence
                + 1 && advance.frontier_lsn == input.consumed_frontier_lsn
                && advance.usage.input_rows == chunk.rows && advance.usage.input_bytes
                == chunk.bytes,
            Err(_) => facts.first_ordinal != row_ordinal || facts.last_ordinal + 1 > chunk.rows
                || facts.last_ordinal == i64::MAX || chunk.rows > i64::MAX,
        },
{
}

/// A stage reports what its page did.
pub proof fn linear_pages_report_what_they_did(
    moved: BootstrapFacts,
    facts: TransformFacts,
    has_continuation: bool,
)
    ensures
        step::bootstrap_primitive(moved).usage == moved.usage,
        step::bootstrap_primitive(moved).state_rows == moved.usage.input_rows,
        step::bootstrap_primitive(moved).continuation_rows == 1,
        step::bootstrap_primitive(moved).output == moved.output,
        step::transform_primitive(facts, has_continuation).usage == facts.usage,
        step::transform_primitive(facts, has_continuation).state_rows == 0,
        step::transform_primitive(facts, has_continuation).continuation_rows == 1
            <==> has_continuation,
        step::transform_primitive(facts, has_continuation).output == facts.output,
{
}

proof fn found_column_fills_its_slot(columns: Seq<ScanColumn>, slot: u32)
    ensures
        match step::column_of(columns, slot) {
            Some(column) => columns.contains(column) && column.output == slot,
            None => forall|column: ScanColumn| columns.contains(column) ==> column.output != slot,
        },
    decreases columns.len(),
{
    if columns.len() > 0 {
        let rest = columns.drop_first();
        found_column_fills_its_slot(rest, slot);
        assert forall|column: ScanColumn| columns.contains(column) implies column == columns[0]
            || rest.contains(column) by {
            let place = choose|place: int| 0 <= place < columns.len() && columns[place] == column;
            if place > 0 {
                assert(rest[place - 1] == column);
            }
        }
        assert(columns.contains(columns[0]));
        match step::column_of(columns, slot) {
            Some(column) => if columns[0].output != slot {
                let place = choose|place: int| 0 <= place < rest.len() && rest[place] == column;
                assert(columns[place + 1] == column);
            },
            None => {},
        }
    }
}

proof fn found_attribute_has_its_number(attributes: Seq<Attribute>, number: i16)
    ensures
        match step::attribute_of(attributes, number) {
            Some(attribute) => attributes.contains(attribute) && attribute.number == number,
            None => forall|attribute: Attribute|
                attributes.contains(attribute) ==> attribute.number != number,
        },
    decreases attributes.len(),
{
    if attributes.len() > 0 {
        let rest = attributes.drop_first();
        found_attribute_has_its_number(rest, number);
        assert forall|attribute: Attribute| attributes.contains(attribute) implies attribute
            == attributes[0] || rest.contains(attribute) by {
            let place = choose|place: int|
                0 <= place < attributes.len() && attributes[place] == attribute;
            if place > 0 {
                assert(rest[place - 1] == attribute);
            }
        }
        assert(attributes.contains(attributes[0]));
        match step::attribute_of(attributes, number) {
            Some(attribute) => if attributes[0].number != number {
                let place = choose|place: int| 0 <= place < rest.len() && rest[place] == attribute;
                assert(attributes[place + 1] == attribute);
            },
            None => {},
        }
    }
}

/// An output slot of a scan reads the field of the source that its column
/// names, where the two are of one type; a slot is filled once, and by a column
/// and an attribute that exist.
pub proof fn scanned_slot_reads_its_column(
    source: Seq<Attribute>,
    columns: Seq<ScanColumn>,
    outputs: Seq<OutputSlot>,
    index: int,
)
    requires
        0 <= index < outputs.len(),
    ensures
        step::scan_expression(source, columns, outputs, index) matches Ok(expression) ==> exists|
            column: ScanColumn,
            attribute: Attribute,
        |
            {
                &&& #[trigger] columns.contains(column) && #[trigger] source.contains(attribute)
                &&& column.output == outputs[index].slot
                &&& attribute.number == column.attnum
                &&& attribute.type_oid == outputs[index].type_.type_oid
                &&& attribute.typmod == outputs[index].type_.typmod
                &&& attribute.collation_oid == outputs[index].type_.collation_oid
                &&& expression == "(input_row.row_value)."@ + postgres::quoted(attribute.name@)
            },
        (exists|earlier: int|
            0 <= earlier < index && (#[trigger] outputs[earlier]).slot == outputs[index].slot)
            ==> step::scan_expression(source, columns, outputs, index) is Err,
        (forall|column: ScanColumn|
            columns.contains(column) ==> column.output != outputs[index].slot)
            ==> step::scan_expression(source, columns, outputs, index) is Err,
{
    let slot = outputs[index].slot;
    found_column_fills_its_slot(columns, slot);
    if let Some(column) = step::column_of(columns, slot) {
        found_attribute_has_its_number(source, column.attnum);
    }
}

} // verus!
