//! What the relations of a stage have to look like: what is provisioned, and
//! what is found again when the stage is opened.

use vstd::prelude::*;

use crate::execution::aggregate;
use crate::execution::aggregate::rebuild::{self, AggregateCapability};
use crate::execution::continuation::Attribute;
use crate::execution::distinct;
use crate::execution::join::layout::{self, InputSlot, JoinEquiKey};
use crate::execution::join::provision as join_provision;
use crate::execution::linear;
use crate::execution::provision;
use crate::planner::{AggregateExpr, BindingId, Operator, SlotType};
use crate::postgres;
use crate::text;

verus! {

/// Whether a column has a name and a type, and admits no nulls.
pub open spec fn holds_a(attribute: Attribute, name: Seq<char>, type_oid: u32) -> bool {
    attribute.name@ == name && attribute.type_oid == type_oid && attribute.not_null
}

/// Whether a column holds values of a slot.
pub open spec fn holds_slot(attribute: Attribute, slot: SlotType) -> bool {
    attribute.type_oid == slot.type_oid && attribute.typmod == slot.typmod
        && attribute.collation_oid == slot.collation_oid
}

/// An Aggregate is provisioned for a named result, with one input, one output
/// and at least one aggregate, none of which has direct arguments.
pub proof fn aggregate_is_provisioned_with_its_streams(
    operator: Operator,
    result_oid: u32,
    stage_id: i32,
    input_streams: Seq<i64>,
    output_stream: i64,
    aggregates: Seq<AggregateExpr>,
)
    ensures
        aggregate::provision::provisionable(
            operator,
            result_oid,
            stage_id,
            input_streams,
            output_stream,
            aggregates,
        ) is Ok <==> {
            &&& operator is Aggregate && result_oid > 0 && stage_id >= 0
            &&& input_streams.len() == 1 && input_streams[0] > 0 && output_stream > 0
            &&& aggregates.len() > 0
            &&& forall|index: int|
                0 <= index < aggregates.len() ==> (#[trigger] aggregates[index]).direct_args@.len()
                    == 0
        },
{
}

/// A Distinct is provisioned for a named result, with one input, one output,
/// and at least one key and one output column.
pub proof fn distinct_is_provisioned_with_its_streams(
    operator: Operator,
    result_oid: u32,
    stage_id: i32,
    input_streams: Seq<i64>,
    output_stream: i64,
    keys: usize,
    outputs: usize,
)
    ensures
        distinct::provision::provisionable(
            operator,
            result_oid,
            stage_id,
            input_streams,
            output_stream,
            keys,
            outputs,
        ) is Ok <==> {
            &&& operator is Distinct && result_oid > 0 && stage_id >= 0
            &&& input_streams.len() == 1 && input_streams[0] > 0 && output_stream > 0
            &&& keys > 0 && outputs > 0
        },
{
}

/// A Join is provisioned for a named result, with two planned inputs on two
/// streams, and one expression for each output column.
pub proof fn join_is_provisioned_with_its_streams(
    operator: Operator,
    result_oid: u32,
    stage_id: i32,
    planned_inputs: usize,
    input_streams: usize,
    expressions: usize,
    outputs: usize,
)
    ensures
        join_provision::provisionable(
            operator,
            result_oid,
            stage_id,
            planned_inputs,
            input_streams,
            expressions,
            outputs,
        ) is Ok <==> {
            &&& operator is Join && result_oid > 0 && stage_id >= 0
            &&& planned_inputs == 2 && input_streams == 2 && expressions == outputs
        },
{
}

/// The output of an Aggregate holds its groups in order, and behind them the
/// aggregates in order.
pub proof fn aggregate_payload_holds_groups_and_aggregates(
    attributes: Seq<Attribute>,
    groups: Seq<SlotType>,
    aggregates: Seq<AggregateExpr>,
)
    ensures
        aggregate::provision::payload_sound(attributes, groups, aggregates) is Ok ==> {
            &&& attributes.len() == groups.len() + aggregates.len()
            &&& forall|index: int|
                0 <= index < groups.len() ==> holds_slot(attributes[index], #[trigger] groups[index])
            &&& forall|index: int|
                0 <= index < aggregates.len() ==> holds_slot(
                    attributes[groups.len() + index],
                    (#[trigger] aggregates[index]).type_,
                )
        },
        attributes.len() != groups.len() + aggregates.len()
            ==> aggregate::provision::payload_sound(attributes, groups, aggregates) is Err,
{
    if aggregate::provision::payload_sound(attributes, groups, aggregates) is Ok {
        assert forall|index: int| 0 <= index < groups.len() implies holds_slot(
            attributes[index],
            #[trigger] groups[index],
        ) by {
            let attribute = attributes[index];
            assert(crate::execution::stream::matches_slot(attribute, groups[index]));
        }
        assert forall|index: int| 0 <= index < aggregates.len() implies holds_slot(
            attributes[groups.len() + index],
            (#[trigger] aggregates[index]).type_,
        ) by {
            let attribute = attributes[groups.len() + index];
            assert(crate::execution::stream::matches_slot(attribute, aggregates[index].type_));
        }
    }
}

/// The output of a Join holds its outputs in order.
pub proof fn join_payload_holds_its_outputs(attributes: Seq<Attribute>, outputs: Seq<SlotType>)
    ensures
        join_provision::payload_matches(attributes, outputs) <==> {
            &&& attributes.len() == outputs.len()
            &&& forall|index: int|
                0 <= index < outputs.len() ==> holds_slot(
                    attributes[index],
                    #[trigger] outputs[index],
                )
        },
{
    if join_provision::payload_matches(attributes, outputs) {
        assert forall|index: int| 0 <= index < outputs.len() implies holds_slot(
            attributes[index],
            #[trigger] outputs[index],
        ) by {
            assert(crate::execution::stream::matches_slot(attributes[index], outputs[index]));
        }
    }
}

/// The groups of a Distinct are stored under their identity, with one typed
/// column for each key, and then the row that stands for the group, under its
/// key, with its multiplicity.
pub proof fn distinct_groups_hold_their_keys(
    attributes: Seq<Attribute>,
    keys: Seq<SlotType>,
    row_type: u32,
)
    ensures
        distinct::step::state_abi(attributes, keys, row_type) is Ok <==> {
            let count = keys.len() as int;
            &&& attributes.len() == count + 4
            &&& attributes[0].name@ == "group_state_id"@ && attributes[0].type_oid == 20
            &&& attributes[count + 1].name@ == "output_key"@ && attributes[count + 1].type_oid == 17
            &&& attributes[count + 2].name@ == "output_row"@ && attributes[count + 2].type_oid
                == row_type
            &&& attributes[count + 3].name@ == "multiplicity"@ && attributes[count + 3].type_oid
                == 20
            &&& forall|index: int|
                0 <= index < count ==> holds_slot(attributes[index + 1], #[trigger] keys[index])
                    && attributes[index + 1].name@ == "key_"@ + text::decimal(index + 1)
        },
{
    if distinct::step::state_abi(attributes, keys, row_type) is Ok {
        assert forall|index: int| 0 <= index < keys.len() implies holds_slot(
            attributes[index + 1],
            #[trigger] keys[index],
        ) && attributes[index + 1].name@ == "key_"@ + text::decimal(index + 1) by {
            assert(distinct::step::key_abi(attributes[index + 1], keys[index], index));
        }
    }
}

/// The columns of the bag, the queue and the touched groups of a Distinct.
pub proof fn distinct_relations_have_their_columns(row_type: u32)
    ensures
        distinct::step::bag_columns(row_type) =~= seq![
            ("bag_id", 20u32),
            ("group_state_id", 20u32),
            ("output_key", 17u32),
            ("output_row", row_type),
            ("multiplicity", 20u32),
        ],
        distinct::step::queue_columns(row_type) =~= seq![
            ("queue_id", 20u32),
            ("output_key", 17u32),
            ("weight", 20u32),
            ("output_row", row_type),
            ("row_bytes", 20u32),
            ("causal_lsn", 3220u32),
        ],
        distinct::step::touched_columns() =~= seq![
            ("group_state_id", 20u32),
            ("net_weight", 1700u32),
        ],
{
}

/// An arrangement of a Join holds its rows under their identity and their key,
/// one nullable typed column for each equality key, and the counts.
pub proof fn arrangement_holds_its_keys(
    attributes: Seq<Attribute>,
    row_type: u32,
    slots: Seq<InputSlot>,
)
    ensures
        layout::state_abi(attributes, row_type, slots) is Ok <==> {
            let keys = slots.len() as int;
            &&& attributes.len() == keys + 6
            &&& holds_a(attributes[0], "row_id"@, 20)
            &&& holds_a(attributes[1], "row_key"@, 17)
            &&& holds_a(attributes[2], "row_value"@, row_type)
            &&& holds_a(attributes[keys + 3], "multiplicity"@, 20)
            &&& holds_a(attributes[keys + 4], "match_count"@, 20)
            &&& holds_a(attributes[keys + 5], "unknown_count"@, 20)
            &&& forall|index: int|
                0 <= index < keys ==> {
                    &&& holds_slot(attributes[index + 3], (#[trigger] slots[index]).type_)
                    &&& attributes[index + 3].name@ == "key_"@ + text::decimal(index)
                    &&& !attributes[index + 3].not_null
                }
        },
{
    if layout::state_abi(attributes, row_type, slots) is Ok {
        assert forall|index: int| 0 <= index < slots.len() implies {
            &&& holds_slot(attributes[index + 3], (#[trigger] slots[index]).type_)
            &&& attributes[index + 3].name@ == "key_"@ + text::decimal(index)
            &&& !attributes[index + 3].not_null
        } by {
            assert(layout::key_abi(attributes[index + 3], slots[index], index));
        }
    }
}

/// The work relation of an aggregate holds the transition state of its
/// capability, and whether it has one yet.
pub proof fn work_holds_the_transition_state(
    attributes: Seq<Attribute>,
    capability: AggregateCapability,
)
    ensures
        rebuild::work_sound(attributes, capability) is Ok <==> {
            &&& attributes.len() > 2
            &&& holds_a(attributes[0], "group_state_id"@, 20)
            &&& attributes[1].name@ == "transition_state"@ && attributes[1].type_oid
                == capability.transition_type_oid && attributes[1].collation_oid
                == capability.transition_collation_oid
            &&& holds_a(attributes[2], "no_trans_value"@, 16)
        },
{
}

/// The initial snapshot of a scan holds rows of the source under their sequence
/// numbers, and nothing else.
pub proof fn snapshot_holds_rows_in_sequence(attributes: Seq<Attribute>, row_type_oid: u32)
    ensures
        linear::step::bootstrap_abi(attributes, row_type_oid) is Ok <==> {
            &&& attributes.len() == 2
            &&& holds_a(attributes[0], "bootstrap_seq"@, 20)
            &&& holds_a(attributes[1], "row_value"@, row_type_oid)
        },
{
}

proof fn found_slot_has_its_binding(slots: Seq<InputSlot>, binding: BindingId)
    ensures
        layout::slot_of(slots, binding) matches Some(slot) ==> slots.contains(slot) && slot.binding
            == binding,
        layout::slot_of(slots, binding) is None ==> forall|slot: InputSlot|
            slots.contains(slot) ==> slot.binding != binding,
    decreases slots.len(),
{
    if slots.len() > 0 {
        let rest = slots.drop_first();
        found_slot_has_its_binding(rest, binding);
        assert(slots.contains(slots[0]));
        assert forall|slot: InputSlot| rest.contains(slot) implies slots.contains(slot) by {
            let place = choose|place: int| 0 <= place < rest.len() && rest[place] == slot;
            assert(slots[place + 1] == slot);
        }
        assert forall|slot: InputSlot| slots.contains(slot) implies slot == slots[0]
            || rest.contains(slot) by {
            let place = choose|place: int| 0 <= place < slots.len() && slots[place] == slot;
            if place > 0 {
                assert(rest[place - 1] == slot);
            }
        }
    }
}

proof fn last_slot_has_its_binding(slots: Seq<InputSlot>, binding: BindingId)
    ensures
        join_provision::last_slot_of(slots, binding) matches Some(slot) ==> slots.contains(slot)
            && slot.binding == binding,
        join_provision::last_slot_of(slots, binding) is None ==> forall|slot: InputSlot|
            slots.contains(slot) ==> slot.binding != binding,
    decreases slots.len(),
{
    if slots.len() > 0 {
        let rest = slots.drop_last();
        last_slot_has_its_binding(rest, binding);
        assert(slots.contains(slots.last()));
        assert forall|slot: InputSlot| rest.contains(slot) implies slots.contains(slot) by {
            let place = choose|place: int| 0 <= place < rest.len() && rest[place] == slot;
            assert(slots[place] == slot);
        }
        assert forall|slot: InputSlot| slots.contains(slot) implies slot == slots.last()
            || rest.contains(slot) by {
            let place = choose|place: int| 0 <= place < slots.len() && slots[place] == slot;
            if place < slots.len() - 1 {
                assert(rest[place] == slot);
            }
        }
    }
}

/// An equality key is read from the slot of its input that it is bound to: the
/// left binding on the first input, the right one on the second.
pub proof fn equality_key_is_bound_on_its_side(
    slots: Seq<InputSlot>,
    key: JoinEquiKey,
    input: u16,
)
    ensures
        layout::key_slot(slots, key, input) matches Ok(slot) ==> {
            &&& slots.contains(slot) && slot.input == input
            &&& input == 0 ==> slot.binding == key.left_binding
            &&& input == 1 ==> slot.binding == key.right_binding
        },
        join_provision::key_type(slots, key, input) matches Ok(type_) ==> exists|slot: InputSlot|
            {
                &&& #[trigger] slots.contains(slot) && slot.input == input && slot.type_ == type_
                &&& input == 0 ==> slot.binding == key.left_binding
                &&& input == 1 ==> slot.binding == key.right_binding
            },
        (forall|slot: InputSlot| slots.contains(slot) ==> slot.input != input) ==> layout::key_slot(
            slots,
            key,
            input,
        ) is Err && join_provision::key_type(slots, key, input) is Err,
{
    found_slot_has_its_binding(slots, key.of(input));
    last_slot_has_its_binding(slots, key.of(input));
}

/// What provisioning defines for an equality key of a Join is what opening the
/// arrangement looks for: the key columns stand behind the row, under their
/// numbers, each of its own type.
pub proof fn arrangement_is_defined_as_it_is_opened(
    row_type: Seq<char>,
    key_types: Seq<Seq<char>>,
    index: int,
)
    requires
        0 <= index < key_types.len(),
    ensures
        ({
            let columns = join_provision::state_columns(row_type, key_types);
            &&& columns.len() == key_types.len() + 6
            &&& columns[index + 3] == "key_"@ + text::decimal(index) + " "@ + key_types[index]
            &&& columns[2] == "row_value "@ + row_type + " NOT NULL"@
        }),
{
}

/// A table is created with its columns, and closed to everyone else.
pub proof fn tables_are_created_closed(relation: Seq<char>, body: Seq<char>)
    ensures
        provision::created(relation, body) == "CREATE TABLE "@ + relation + "("@ + body + ")"@,
        provision::revoked(relation) == "REVOKE ALL ON TABLE "@ + relation + " FROM PUBLIC"@,
        provision::defined(relation, body) == postgres::quoted(relation) + " "@ + body,
{
}

/// The rows of a source come in as the source defines them: the same fields in
/// the same order, each of its own type.
pub proof fn source_rows_come_in_as_defined(source: Seq<Attribute>, input: Seq<Attribute>)
    ensures
        linear::step::same_attributes(source, input) <==> {
            &&& source.len() == input.len()
            &&& forall|index: int|
                0 <= index < source.len() ==> {
                    &&& (#[trigger] source[index]).name@ == input[index].name@
                    &&& source[index].type_oid == input[index].type_oid
                    &&& source[index].typmod == input[index].typmod
                    &&& source[index].collation_oid == input[index].collation_oid
                }
        },
{
}

} // verus!
