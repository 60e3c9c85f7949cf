//! The durable relations of a Join stage: one arrangement per input and the
//! phaseful continuation.

use vstd::prelude::*;

use crate::execution::continuation::Attribute;
use crate::execution::join::layout::{self, key_column, InputSlot, JoinEquiKey};
use crate::execution::join::planner::InputSide;
use crate::execution::provision::{self, relation_name, stage_message};
use crate::execution::stream::{self, attribute_matches_slot};
use crate::planner::{BindingId, Operator, SlotType};
use crate::postgres::{self, quote_identifier};
use crate::sql::INVALID_OID;
use crate::text::{self, fail, join, listed, render, unsigned_text, Holes};

verus! {

/// The continuation relation.
pub const CONTINUATION_SQL: &'static str =
    r#"
                CREATE TABLE {continuation}(
                  singleton boolean PRIMARY KEY DEFAULT true CHECK(singleton),
                  phase smallint NOT NULL CHECK(phase BETWEEN 1 AND 5),
                  input_side smallint NOT NULL CHECK(input_side IN (0,1)),
                  left_stream_id bigint NOT NULL CHECK(left_stream_id > 0),
                  left_chunk_seq bigint NOT NULL CHECK(left_chunk_seq > 0),
                  left_row_ordinal bigint NOT NULL CHECK(left_row_ordinal >= 0),
                  right_stream_id bigint NOT NULL CHECK(right_stream_id > 0),
                  right_chunk_seq bigint NOT NULL CHECK(right_chunk_seq > 0),
                  right_row_ordinal bigint NOT NULL CHECK(right_row_ordinal >= 0),
                  event_weight bigint,
                  event_bytes bigint,
                  own_row_id bigint,
                  own_multiplicity bigint,
                  own_match_count bigint,
                  own_unknown_count bigint,
                  candidate_after bigint,
                  accumulated_match_count bigint,
                  accumulated_unknown_count bigint,
                  pending_row_id bigint,
                  pending_multiplicity bigint,
                  pending_truth smallint,
                  pending_old_match bigint,
                  pending_old_unknown bigint,
                  pending_new_match bigint,
                  pending_new_unknown bigint,
                  frontier_lsn pg_lsn,
                  CHECK(
                    (input_side = 0 AND right_row_ordinal = 0)
                    OR (input_side = 1 AND left_row_ordinal = 0)
                  ),
                  CHECK(
                    (
                      phase = 1
                      AND event_weight IS NULL
                      AND event_bytes IS NULL
                      AND own_row_id IS NULL
                      AND own_multiplicity IS NULL
                      AND own_match_count IS NULL
                      AND own_unknown_count IS NULL
                      AND candidate_after IS NULL
                      AND accumulated_match_count IS NULL
                      AND accumulated_unknown_count IS NULL
                      AND pending_row_id IS NULL
                      AND pending_multiplicity IS NULL
                      AND pending_truth IS NULL
                      AND pending_old_match IS NULL
                      AND pending_old_unknown IS NULL
                      AND pending_new_match IS NULL
                      AND pending_new_unknown IS NULL
                      AND frontier_lsn IS NULL
                    )
                    OR (
                      phase IN (2,3,4)
                      AND event_weight IS NOT NULL
                      AND event_weight <> 0
                      AND event_bytes IS NOT NULL
                      AND event_bytes > 0
                      AND own_multiplicity IS NOT NULL
                      AND own_match_count IS NOT NULL
                      AND own_match_count >= 0
                      AND own_unknown_count IS NOT NULL
                      AND own_unknown_count >= 0
                      AND (
                        (
                          own_row_id IS NULL
                          AND own_multiplicity = 0
                          AND own_match_count = 0
                          AND own_unknown_count = 0
                          AND event_weight > 0
                        )
                        OR (
                          own_row_id > 0
                          AND own_multiplicity > 0
                          AND own_multiplicity::numeric
                                + event_weight::numeric
                              BETWEEN 0 AND 9223372036854775807::numeric
                        )
                      )
                      AND (candidate_after IS NULL OR candidate_after > 0)
                      AND accumulated_match_count IS NOT NULL
                      AND accumulated_match_count >= 0
                      AND accumulated_unknown_count IS NOT NULL
                      AND accumulated_unknown_count >= 0
                      AND frontier_lsn IS NULL
                      AND (
                        (
                          phase IN (2,4)
                          AND pending_row_id IS NULL
                          AND pending_multiplicity IS NULL
                          AND pending_truth IS NULL
                          AND pending_old_match IS NULL
                          AND pending_old_unknown IS NULL
                          AND pending_new_match IS NULL
                          AND pending_new_unknown IS NULL
                        )
                        OR (
                          phase = 3
                          AND pending_row_id IS NOT NULL
                          AND pending_row_id > coalesce(candidate_after,0)
                          AND pending_multiplicity IS NOT NULL
                          AND pending_multiplicity > 0
                          AND pending_truth = 1
                          AND pending_old_match IS NOT NULL
                          AND pending_old_match >= 0
                          AND pending_old_unknown IS NOT NULL
                          AND pending_old_unknown >= 0
                          AND pending_new_match IS NOT NULL
                          AND pending_new_match >= 0
                          AND pending_new_unknown = pending_old_unknown
                          AND pending_new_match::numeric
                                = pending_old_match::numeric
                                  + event_weight::numeric
                        )
                      )
                    )
                    OR (
                      phase = 5
                      AND event_weight IS NULL
                      AND event_bytes IS NULL
                      AND own_row_id IS NULL
                      AND own_multiplicity IS NULL
                      AND own_match_count IS NULL
                      AND own_unknown_count IS NULL
                      AND candidate_after IS NULL
                      AND accumulated_match_count IS NULL
                      AND accumulated_unknown_count IS NULL
                      AND pending_row_id IS NULL
                      AND pending_multiplicity IS NULL
                      AND pending_truth IS NULL
                      AND pending_old_match IS NULL
                      AND pending_old_unknown IS NULL
                      AND pending_new_match IS NULL
                      AND pending_new_unknown IS NULL
                      AND frontier_lsn IS NOT NULL
                    )
                  )
                )
                "#;

/// Whether a stage can be provisioned.
pub open spec fn provisionable(
    operator: Operator,
    result_oid: u32,
    stage_id: i32,
    planned_inputs: usize,
    input_streams: usize,
    expressions: usize,
    outputs: usize,
) -> Result<(), Seq<char>> {
    text::both(
        text::three(
            text::holds(
                result_oid != INVALID_OID,
                "Join provisioning received an invalid result OID"@,
            ),
            text::holds(stage_id >= 0, "Join provisioning received a negative stage ID"@),
            text::holds(operator is Join, "Join provisioning received another operator"@),
        ),
        text::both(
            text::holds(
                planned_inputs == 2 && input_streams == 2,
                provision::stage_text(
                    "Join stage "@,
                    stage_id,
                    " does not have exactly two durable inputs"@,
                ),
            ),
            text::holds(
                expressions == outputs,
                provision::stage_text(
                    "Join stage "@,
                    stage_id,
                    " output expressions do not match its schema"@,
                ),
            ),
        ),
    )
}

pub fn validate_provision(
    operator: Operator,
    result_oid: u32,
    stage_id: i32,
    planned_inputs: usize,
    input_streams: usize,
    expressions: usize,
    outputs: usize,
) -> (outcome: Result<(), String>)
    ensures
        text::agrees(
            outcome,
            provisionable(
                operator,
                result_oid,
                stage_id,
                planned_inputs,
                input_streams,
                expressions,
                outputs,
            ),
        ),
{
    if result_oid == INVALID_OID {
        return fail("Join provisioning received an invalid result OID");
    }
    if stage_id < 0 {
        return fail("Join provisioning received a negative stage ID");
    }
    if operator != Operator::Join {
        return fail("Join provisioning received another operator");
    }
    if planned_inputs != 2 || input_streams != 2 {
        return Err(
            stage_message("Join stage ", stage_id, " does not have exactly two durable inputs"),
        );
    }
    if expressions != outputs {
        return Err(
            stage_message("Join stage ", stage_id, " output expressions do not match its schema"),
        );
    }
    Ok(())
}

/// Whether the output payload has exactly the types of the plan's outputs.
pub open spec fn payload_matches(attributes: Seq<Attribute>, outputs: Seq<SlotType>) -> bool {
    &&& attributes.len() == outputs.len()
    &&& forall|index: int|
        0 <= index < outputs.len() ==> stream::matches_slot(
            attributes[index],
            #[trigger] outputs[index],
        )
}

pub fn validate_payload(attributes: &Vec<Attribute>, outputs: &Vec<SlotType>, stage_id: i32) -> (
    outcome: Result<(), String>)
    ensures
        text::agrees(
            outcome,
            text::holds(
                payload_matches(attributes@, outputs@),
                provision::stage_text(
                    "Join stage "@,
                    stage_id,
                    " output payload changed its plan schema"@,
                ),
            ),
        ),
{
    let mut same = attributes.len() == outputs.len();
    let mut index: usize = 0;
    while same && index < outputs.len()
        invariant
            index <= outputs.len(),
            same ==> attributes.len() == outputs.len(),
            same ==> forall|k: int|
                0 <= k < index ==> stream::matches_slot(attributes@[k], #[trigger] outputs@[k]),
            !same ==> !payload_matches(attributes@, outputs@),
        decreases outputs.len() - index,
    {
        if !attribute_matches_slot(&attributes[index], &outputs[index]) {
            assert(!stream::matches_slot(attributes@[index as int], outputs@[index as int]));
            same = false;
        }
        index = index + 1;
    }
    if !same {
        return Err(
            stage_message("Join stage ", stage_id, " output payload changed its plan schema"),
        );
    }
    Ok(())
}

/// The latest slot of a binding.
pub open spec fn last_slot_of(slots: Seq<InputSlot>, binding: BindingId) -> Option<InputSlot>
    decreases slots.len(),
{
    if slots.len() == 0 {
        None
    } else if slots.last().binding == binding {
        Some(slots.last())
    } else {
        last_slot_of(slots.drop_last(), binding)
    }
}

fn find_last_slot(slots: &Vec<InputSlot>, binding: BindingId) -> (found: Option<InputSlot>)
    ensures
        found == last_slot_of(slots@, binding),
{
    let mut left: usize = slots.len();
    assert(slots@.take(left as int) =~= slots@);
    while left > 0
        invariant
            left <= slots.len(),
            last_slot_of(slots@, binding) == last_slot_of(slots@.take(left as int), binding),
        decreases left,
    {
        assert(slots@.take(left as int).drop_last() =~= slots@.take(left - 1));
        assert(slots@.take(left as int).last() == slots@[left - 1]);
        if slots[left - 1].binding == binding {
            return Some(slots[left - 1]);
        }
        left = left - 1;
    }
    None
}

/// The type of one equality key on one input.
pub open spec fn key_type(slots: Seq<InputSlot>, key: JoinEquiKey, input: u16) -> Result<
    SlotType,
    Seq<char>,
> {
    let binding = key.of(input);
    match last_slot_of(slots, binding) {
        None => Err(
            "Join equality key references missing BindingId "@ + text::decimal(binding.0 as int),
        ),
        Some(slot) => text::guarded(
            text::holds(
                slot.input == input,
                "Join equality key BindingId "@ + text::decimal(binding.0 as int)
                    + " belongs to input "@ + text::decimal(slot.input as int) + ", expected "@
                    + text::decimal(input as int),
            ),
            slot.type_,
        ),
    }
}

fn resolve_type(slots: &Vec<InputSlot>, key: &JoinEquiKey, input: u16) -> (outcome: Result<
    SlotType,
    String,
>)
    ensures
        text::agrees(outcome, key_type(slots@, *key, input)),
{
    let binding = key.binding(input);
    match find_last_slot(slots, binding) {
        None => Err(
            "Join equality key references missing BindingId ".to_owned().concat(
                unsigned_text(binding.0 as u64).as_str(),
            ),
        ),
        Some(slot) => {
            if slot.input != input {
                let mut message = "Join equality key BindingId ".to_owned();
                message.append(unsigned_text(binding.0 as u64).as_str());
                message.append(" belongs to input ");
                message.append(unsigned_text(slot.input as u64).as_str());
                message.append(", expected ");
                message.append(unsigned_text(input as u64).as_str());
                return Err(message);
            }
            Ok(slot.type_)
        },
    }
}

/// The outcome of each equality key on one input, in order.
pub open spec fn key_type_checks(slots: Seq<InputSlot>, keys: Seq<JoinEquiKey>, input: u16) -> Seq<
    Result<(), Seq<char>>,
> {
    Seq::new(keys.len(), |index: int| text::checked(key_type(slots, keys[index], input)))
}

/// The types of the equality keys on one input.
pub open spec fn key_types(slots: Seq<InputSlot>, keys: Seq<JoinEquiKey>, input: u16) -> Seq<
    SlotType,
> {
    Seq::new(keys.len(), |index: int| key_type(slots, keys[index], input)->Ok_0)
}

/// Resolves the types of the equality keys on one input.
pub fn join_key_types(slots: &Vec<InputSlot>, keys: &Vec<JoinEquiKey>, input: u16) -> (outcome:
    Result<Vec<SlotType>, String>)
    ensures
        match (outcome, text::all_hold(key_type_checks(slots@, keys@, input))) {
            (Ok(list), Ok(())) => list@ == key_types(slots@, keys@, input),
            (Err(error), Err(message)) => error@ == message,
            _ => false,
        },
{
    let ghost checks = key_type_checks(slots@, keys@, input);
    let mut list: Vec<SlotType> = Vec::new();
    let mut index: usize = 0;
    assert(checks.take(0) =~= Seq::empty());
    while index < keys.len()
        invariant
            index <= keys.len(),
            list.len() == index,
            checks == key_type_checks(slots@, keys@, input),
            text::all_hold(checks.take(index as int)) is Ok,
            forall|k: int|
                0 <= k < index ==> #[trigger] list@[k] == key_type(slots@, keys@[k], input)->Ok_0,
        decreases keys.len() - index,
    {
        proof {
            text::next_check_decides(checks, index as int);
        }
        let type_ = resolve_type(slots, &keys[index], input)?;
        list.push(type_);
        index = index + 1;
    }
    proof {
        assert(checks.take(keys.len() as int) =~= checks);
        assert(list@ =~= key_types(slots@, keys@, input));
    }
    Ok(list)
}

/// The name of the arrangement of one side.
pub open spec fn state_name(side: InputSide, result: u32, stage_id: i32) -> Seq<char> {
    provision::named(
        match side {
            InputSide::Left => "join_left_state"@,
            InputSide::Right => "join_right_state"@,
        },
        result,
        stage_id,
    )
}

pub fn arrangement_name(side: InputSide, result: u32, stage_id: i32) -> (name: String)
    ensures
        name@ == state_name(side, result, stage_id),
{
    match side {
        InputSide::Left => relation_name("join_left_state", result, stage_id),
        InputSide::Right => relation_name("join_right_state", result, stage_id),
    }
}

/// The name of the continuation relation.
pub fn continuation_name(result: u32, stage_id: i32) -> (name: String)
    ensures
        name@ == provision::named("join_continuation"@, result, stage_id),
{
    relation_name("join_continuation", result, stage_id)
}

/// The columns of an arrangement.
pub open spec fn state_columns(row_type: Seq<char>, key_types: Seq<Seq<char>>) -> Seq<Seq<char>> {
    seq![
        "row_id bigint GENERATED ALWAYS AS IDENTITY PRIMARY KEY"@,
        "row_key bytea NOT NULL UNIQUE"@,
        "row_value "@ + row_type + " NOT NULL"@,
    ] + Seq::new(
        key_types.len(),
        |ordinal: int| layout::key_name(ordinal) + " "@ + key_types[ordinal],
    ) + seq![
        "multiplicity bigint NOT NULL CHECK(multiplicity > 0)"@,
        "match_count bigint NOT NULL CHECK(match_count >= 0)"@,
        "unknown_count bigint NOT NULL CHECK(unknown_count >= 0)"@,
    ]
}

/// The columns of an arrangement.
pub open spec fn arrangement_columns(row_type: Seq<char>, key_types: Seq<String>) -> Seq<char> {
    text::joined(state_columns(row_type, text::texts(key_types)), ","@)
}

/// The columns of an arrangement, from the SQL types of its row and keys.
pub fn state_body(row_type: &str, key_types: &Vec<String>) -> (sql: String)
    ensures
        sql@ == arrangement_columns(row_type@, key_types@),
{
    let mut row_value = "row_value ".to_owned();
    row_value.append(row_type);
    row_value.append(" NOT NULL");
    let mut columns: Vec<String> = Vec::new();
    columns.push("row_id bigint GENERATED ALWAYS AS IDENTITY PRIMARY KEY".to_owned());
    columns.push("row_key bytea NOT NULL UNIQUE".to_owned());
    columns.push(row_value);
    let mut ordinal: usize = 0;
    while ordinal < key_types.len()
        invariant
            ordinal <= key_types.len(),
            columns.len() == ordinal + 3,
            columns@[0]@ == "row_id bigint GENERATED ALWAYS AS IDENTITY PRIMARY KEY"@,
            columns@[1]@ == "row_key bytea NOT NULL UNIQUE"@,
            columns@[2]@ == "row_value "@ + row_type@ + " NOT NULL"@,
            forall|k: int|
                0 <= k < ordinal ==> (#[trigger] columns@[k + 3])@ == layout::key_name(k) + " "@
                    + key_types@[k]@,
        decreases key_types.len() - ordinal,
    {
        let mut column = key_column(ordinal);
        column.append(" ");
        column.append(key_types[ordinal].as_str());
        columns.push(column);
        ordinal = ordinal + 1;
    }
    columns.push("multiplicity bigint NOT NULL CHECK(multiplicity > 0)".to_owned());
    columns.push("match_count bigint NOT NULL CHECK(match_count >= 0)".to_owned());
    columns.push("unknown_count bigint NOT NULL CHECK(unknown_count >= 0)".to_owned());
    proof {
        let expected = state_columns(row_type@, text::texts(key_types@));
        let count = key_types@.len() as int;
        assert forall|k: int| 0 <= k < expected.len() implies text::texts(columns@)[k]
            == expected[k] by {
            if 3 <= k < count + 3 {
                assert(columns@[(k - 3) + 3]@ == layout::key_name(k - 3) + " "@ + key_types@[k
                    - 3]@);
            }
        }
        assert(text::texts(columns@) =~= expected);
    }
    join(&columns, ",")
}

/// The index of an arrangement by its equality keys.
pub open spec fn arrangement_key(name: Seq<char>, relation: Seq<char>, keys: usize) -> Seq<char> {
    "CREATE INDEX "@ + postgres::quoted(name + "_key_idx"@) + " ON "@ + relation
        + " ("@ + text::joined(
        Seq::new(keys as nat, |ordinal: int| layout::key_name(ordinal)).push("row_id"@),
        ","@,
    ) + ")"@
}

/// The equality lookup index of a keyed arrangement: its keys, then the row.
pub fn state_index(name: &str, relation: &str, keys: usize) -> (sql: String)
    ensures
        sql@ == arrangement_key(name@, relation@, keys),
{
    let mut list = listed(
        keys,
        |ordinal: usize| -> (item: String)
            requires
                ordinal < keys,
            ensures
                item@ == layout::key_name(ordinal as int)
            { key_column(ordinal) },
    );
    list.push("row_id".to_owned());
    assert(text::texts(list@) =~= Seq::new(
        keys as nat,
        |ordinal: int| layout::key_name(ordinal),
    ).push("row_id"@));
    let mut sql = "CREATE INDEX ".to_owned();
    sql.append(quote_identifier(name.to_owned().concat("_key_idx").as_str()).as_str());
    sql.append(" ON ");
    sql.append(relation);
    sql.append(" (");
    sql.append(join(&list, ",").as_str());
    sql.append(")");
    sql
}

/// The continuation relation.
pub open spec fn continuation_table(continuation: Seq<char>) -> Seq<char> {
    text::rendered(CONTINUATION_SQL@, seq![("continuation"@, continuation)])
}

/// Creates the continuation relation.
pub fn create_continuation(continuation: &str) -> (sql: String)
    ensures
        sql@ == continuation_table(continuation@),
{
    let holes = Holes::new().bind("continuation", continuation);
    assert(holes@ =~= seq![("continuation"@, continuation@)]);
    render(CONTINUATION_SQL, holes)
}

} // verus!
