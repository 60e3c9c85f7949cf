//! The durable relations of an Aggregate stage: groups, the bag of input rows,
//! one fold per aggregate, the dirty-group queue and the continuation.

use vstd::prelude::*;

use crate::execution::aggregate::apply::{self, value_list, with_comma, CompiledAggregate};
use crate::execution::aggregate::order::{self, RebuildKey, RebuildKeyModel};
use crate::execution::aggregate::rebuild::AggregateCapability;
use crate::execution::btree::{self, BtreeOrder, OrderModel};
use crate::execution::continuation::Attribute;
use crate::execution::provision::{
    self, definition, numbered_columns, relation_name, stage_message,
};
use crate::execution::stream::{self, attribute_matches_slot};
use crate::planner::{AggregateExpr, Operator, SlotType};
use crate::postgres::{self, quote_identifier};
use crate::sql::INVALID_OID;
use crate::text::{self, fail, join, listed, render, unsigned_text, Holes};

verus! {

/// The state slot of the bag.
pub const BAG_SLOT: i32 = 0;

/// The state slot of the groups.
pub const GROUPS_SLOT: i32 = 1;

/// The state slot of the dirty-group queue.
pub const DIRTY_SLOT: i32 = 2000;

/// The columns of the groups.
pub const GROUPS_SQL: &'static str =
    "group_state_id bigint GENERATED ALWAYS AS IDENTITY PRIMARY KEY,
             {identity},
             published_present boolean NOT NULL DEFAULT false,
             published_key bytea,
             published_output {output_type},
             pending_present boolean NOT NULL DEFAULT false,
             pending_key bytea,
             pending_output {output_type},
             CHECK(published_present=(published_key IS NOT NULL)),
             CHECK(
               published_present=(
                 published_output IS DISTINCT FROM NULL::{output_type}
               )
             ),
             CHECK(pending_present=(pending_key IS NOT NULL)),
             CHECK(
               pending_present=(
                 pending_output IS DISTINCT FROM NULL::{output_type}
               )
             ),
             CHECK(NOT (published_present AND pending_present))";

/// The columns of the bag.
pub const BAG_SQL: &'static str =
    "row_id bigint GENERATED ALWAYS AS IDENTITY PRIMARY KEY,
             group_state_id bigint NOT NULL REFERENCES {groups}(group_state_id)
               ON DELETE RESTRICT,
             row_image bytea NOT NULL UNIQUE,
             row_value {row_type} NOT NULL,
             multiplicity bigint NOT NULL CHECK(multiplicity > 0)
             {bag_value_definitions}";

/// The group that a fold belongs to.
pub const WORK_IDENTITY_SQL: &'static str =
    "group_state_id bigint PRIMARY KEY REFERENCES {groups}(group_state_id)
               ON DELETE RESTRICT";

/// The columns of the dirty-group queue.
pub const DIRTY_SQL: &'static str =
    "queue_id bigint GENERATED ALWAYS AS IDENTITY PRIMARY KEY,
             causal_lsn pg_lsn NOT NULL,
             group_state_id bigint NOT NULL UNIQUE
               REFERENCES {groups}(group_state_id) ON DELETE RESTRICT";

/// The continuation relation.
pub const CONTINUATION_SQL: &'static str =
    "CREATE TABLE {continuation}(
                   singleton boolean PRIMARY KEY DEFAULT true CHECK(singleton),
                   phase smallint NOT NULL CHECK(phase BETWEEN 1 AND 4),
                   input_stream_id bigint NOT NULL CHECK(input_stream_id > 0),
                   input_chunk_seq bigint CHECK(input_chunk_seq > 0),
                   input_row_ordinal bigint CHECK(input_row_ordinal >= 0),
                   group_queue_id bigint CHECK(group_queue_id > 0),
                   aggregate_ordinal integer
                     CHECK(aggregate_ordinal BETWEEN 1 AND {aggregates}),
                   emit_leg smallint CHECK(emit_leg IN (1,2)),
                   after_kind smallint CHECK(after_kind IN (1,2,3)),
                   after_chunk_seq bigint CHECK(after_chunk_seq > 0),
                   after_row_ordinal bigint CHECK(after_row_ordinal >= 0),
                   CHECK(
                     (phase IN (1,4)
                       AND input_chunk_seq IS NOT NULL
                       AND input_row_ordinal IS NOT NULL
                       AND group_queue_id IS NULL
                       AND aggregate_ordinal IS NULL
                       AND emit_leg IS NULL
                       AND after_kind IS NULL
                       AND after_chunk_seq IS NULL
                       AND after_row_ordinal IS NULL)
                     OR
                     (phase=2
                       AND input_chunk_seq IS NULL
                       AND input_row_ordinal IS NULL
                       AND group_queue_id IS NOT NULL
                       AND aggregate_ordinal IS NOT NULL
                       AND emit_leg IS NULL
                       AND after_kind IS NOT NULL)
                     OR
                     (phase=3
                       AND input_chunk_seq IS NULL
                       AND input_row_ordinal IS NULL
                       AND group_queue_id IS NOT NULL
                       AND aggregate_ordinal IS NULL
                       AND emit_leg IS NOT NULL
                       AND after_kind IS NOT NULL)
                   ),
                   CHECK(
                     after_kind IS NULL
                     OR (after_kind=1
                         AND after_chunk_seq IS NOT NULL
                         AND after_row_ordinal IS NOT NULL)
                     OR (after_kind=2
                         AND after_chunk_seq IS NULL
                         AND after_row_ordinal IS NULL)
                     OR (after_kind=3
                         AND after_chunk_seq IS NOT NULL
                         AND after_row_ordinal=0)
                   ),
                   FOREIGN KEY(input_stream_id,input_chunk_seq)
                     REFERENCES shiba_internal.effect_stream_chunks(
                       stream_id,chunk_seq
                     ) ON DELETE RESTRICT
                 )";

/// Whether the storage contract of a stage is one that can be provisioned.
pub open spec fn provisionable(
    operator: Operator,
    result_oid: u32,
    stage_id: i32,
    input_streams: Seq<i64>,
    output_stream: i64,
    aggregates: Seq<AggregateExpr>,
) -> Result<(), Seq<char>> {
    text::both(
        text::holds(operator is Aggregate, "Aggregate provisioner received another operator"@),
        text::holds(
            result_oid != INVALID_OID && stage_id >= 0 && input_streams.len() == 1
                && input_streams[0] > 0 && output_stream > 0 && aggregates.len() > 0 && forall|
                index: int,
            |
                0 <= index < aggregates.len() ==> #[trigger] aggregates[index].direct_args@.len()
                    == 0,
            provision::stage_text(
                "Aggregate stage "@,
                stage_id,
                " has an invalid storage contract"@,
            ),
        ),
    )
}

fn has_direct_arguments(aggregates: &Vec<AggregateExpr>) -> (found: bool)
    ensures
        !found == forall|index: int|
            0 <= index < aggregates@.len() ==> #[trigger] aggregates@[index].direct_args@.len()
                == 0,
{
    let mut index: usize = 0;
    while index < aggregates.len()
        invariant
            index <= aggregates.len(),
            forall|k: int|
                0 <= k < index ==> #[trigger] aggregates@[k].direct_args@.len() == 0,
        decreases aggregates.len() - index,
    {
        if !aggregates[index].direct_args.is_empty() {
            assert(aggregates@[index as int].direct_args@.len() != 0);
            return true;
        }
        index = index + 1;
    }
    false
}

pub fn validate_provision(
    operator: Operator,
    result_oid: u32,
    stage_id: i32,
    input_streams: &Vec<i64>,
    output_stream: i64,
    aggregates: &Vec<AggregateExpr>,
) -> (outcome: Result<(), String>)
    ensures
        text::agrees(
            outcome,
            provisionable(
                operator,
                result_oid,
                stage_id,
                input_streams@,
                output_stream,
                aggregates@,
            ),
        ),
{
    if operator != Operator::Aggregate {
        return fail("Aggregate provisioner received another operator");
    }
    if result_oid == INVALID_OID || stage_id < 0 || input_streams.len() != 1 || input_streams[0]
        <= 0 || output_stream <= 0 || aggregates.is_empty() || has_direct_arguments(aggregates) {
        return Err(
            stage_message("Aggregate stage ", stage_id, " has an invalid storage contract"),
        );
    }
    Ok(())
}

/// The slots of the output row: the group keys, then the aggregates.
pub open spec fn output_slot(
    groups: Seq<SlotType>,
    aggregates: Seq<AggregateExpr>,
    index: int,
) -> SlotType {
    if index < groups.len() {
        groups[index]
    } else {
        aggregates[index - groups.len()].type_
    }
}

/// Whether the output payload has the slots of the plan.
pub open spec fn payload_sound(
    attributes: Seq<Attribute>,
    groups: Seq<SlotType>,
    aggregates: Seq<AggregateExpr>,
) -> Result<(), Seq<char>> {
    text::holds(
        attributes.len() == groups.len() + aggregates.len() && forall|index: int|
            0 <= index < attributes.len() ==> stream::matches_slot(
                #[trigger] attributes[index],
                output_slot(groups, aggregates, index),
            ),
        "Aggregate output payload does not match its plan schema"@,
    )
}

pub fn validate_payload(
    attributes: &Vec<Attribute>,
    groups: &Vec<SlotType>,
    aggregates: &Vec<AggregateExpr>,
) -> (outcome: Result<(), String>)
    ensures
        text::agrees(outcome, payload_sound(attributes@, groups@, aggregates@)),
{
    if attributes.len() < groups.len() || attributes.len() - groups.len() != aggregates.len() {
        return fail("Aggregate output payload does not match its plan schema");
    }
    let mut index: usize = 0;
    while index < attributes.len()
        invariant
            index <= attributes.len() == groups.len() + aggregates.len(),
            forall|k: int|
                0 <= k < index ==> stream::matches_slot(
                    #[trigger] attributes@[k],
                    output_slot(groups@, aggregates@, k),
                ),
        decreases attributes.len() - index,
    {
        let matches = if index < groups.len() {
            attribute_matches_slot(&attributes[index], &groups[index])
        } else {
            attribute_matches_slot(&attributes[index], &aggregates[index - groups.len()].type_)
        };
        if !matches {
            assert(!stream::matches_slot(
                attributes@[index as int],
                output_slot(groups@, aggregates@, index as int),
            ));
            return fail("Aggregate output payload does not match its plan schema");
        }
        index = index + 1;
    }
    Ok(())
}

/// The state slot of the work relation of one aggregate.
pub fn work_slot(aggregate_index: usize) -> (outcome: Result<i32, String>)
    ensures
        text::agrees(
            outcome,
            text::guarded(
                text::holds(
                    2 + aggregate_index <= i32::MAX,
                    "Aggregate work slot exceeds integer"@,
                ),
                (2 + aggregate_index) as i32,
            ),
        ),
{
    if aggregate_index > 0x7fff_fffd {
        return fail("Aggregate work slot exceeds integer");
    }
    Ok(2 + aggregate_index as i32)
}

/// An aggregate function has an OID.
pub fn validate_function(function_oid: u32) -> (outcome: Result<(), String>)
    ensures
        text::agrees(
            outcome,
            text::holds(function_oid != INVALID_OID, "Aggregate function OID is invalid"@),
        ),
{
    if function_oid == INVALID_OID {
        return fail("Aggregate function OID is invalid");
    }
    Ok(())
}

/// The column that holds the transition state of an aggregate.
pub fn transition_slot(capability: &AggregateCapability) -> (slot: SlotType)
    ensures
        slot.type_oid == capability.transition_type_oid,
        slot.typmod == -1,
        slot.collation_oid == capability.transition_collation_oid,
        slot.nullable,
{
    SlotType {
        type_oid: capability.transition_type_oid,
        typmod: -1,
        collation_oid: capability.transition_collation_oid,
        nullable: true,
    }
}

/// The name of a work relation or of an index of one aggregate.
pub open spec fn named_aggregate(prefix: Seq<char>, result: u32, stage_id: i32, ordinal: int) -> Seq<
    char,
> {
    provision::named(prefix, result, stage_id) + "_a"@ + text::decimal(ordinal)
}

pub fn aggregate_name(prefix: &str, result: u32, stage_id: i32, ordinal: usize) -> (name: String)
    ensures
        name@ == named_aggregate(prefix@, result, stage_id, ordinal as int),
{
    let mut name = relation_name(prefix, result, stage_id);
    name.append("_a");
    name.append(unsigned_text(ordinal as u64).as_str());
    name
}

/// The definition of the identity of a group; a global group is one row.
pub open spec fn identity_definitions(types: Seq<Seq<char>>) -> Seq<char> {
    if types.len() == 0 {
        provision::defined(
            "global_group"@,
            "boolean NOT NULL DEFAULT true CHECK(global_group)"@,
        )
    } else {
        provision::numbered_definitions("group_"@, types)
    }
}

fn aggregate_identity_columns(types: &Vec<String>) -> (sql: String)
    ensures
        sql@ == identity_definitions(text::texts(types@)),
{
    assert(text::texts(types@).len() == types@.len());
    if types.is_empty() {
        return definition("global_group", "boolean NOT NULL DEFAULT true CHECK(global_group)");
    }
    numbered_columns("group_", types)
}

/// The columns of the groups.
pub open spec fn groups_columns(key_types: Seq<String>, output_type: Seq<char>) -> Seq<char> {
    text::rendered(
        GROUPS_SQL@,
        seq![
            ("identity"@, identity_definitions(text::texts(key_types))),
            ("output_type"@, output_type),
        ],
    )
}

/// The columns of the groups, from the SQL types of their keys.
pub fn groups_body(key_types: &Vec<String>, output_type: &str) -> (sql: String)
    ensures
        sql@ == groups_columns(key_types@, output_type@),
{
    let holes = Holes::new().bind(
        "identity",
        aggregate_identity_columns(key_types).as_str(),
    ).bind("output_type", output_type);
    assert(holes@ =~= seq![
        ("identity"@, identity_definitions(text::texts(key_types@))),
        ("output_type"@, output_type@),
    ]);
    render(GROUPS_SQL, holes)
}

/// The index columns of the identity of a group.
pub open spec fn identity_index(orders: Seq<OrderModel>) -> Seq<char> {
    if orders.len() == 0 {
        postgres::quoted("global_group"@)
    } else {
        text::joined(
            Seq::new(
                orders.len(),
                |index: int| orders[index].index_sql("group_"@ + text::decimal(index + 1)),
            ),
            ","@,
        )
    }
}

/// The unique index on the keys of the groups.
pub open spec fn groups_key(
    result: u32,
    stage_id: i32,
    groups: Seq<char>,
    orders: Seq<BtreeOrder>,
) -> Seq<char> {
    "CREATE UNIQUE INDEX "@ + postgres::quoted(
        provision::named("aggregate_groups_key"@, result, stage_id),
    ) + " ON "@ + groups + "("@ + identity_index(btree::orders(orders))
        + ") NULLS NOT DISTINCT"@
}

/// The unique index that gives the group keys exact B-tree semantics.
pub fn groups_index(result: u32, stage_id: i32, groups: &str, orders: &Vec<BtreeOrder>) -> (sql:
    String)
    ensures
        sql@ == groups_key(result, stage_id, groups@, orders@),
{
    let columns = if orders.is_empty() {
        quote_identifier("global_group")
    } else {
        let list = listed(
            orders.len(),
            |index: usize| -> (item: String)
                requires
                    index < orders.len(),
                ensures
                    item@ == orders@[index as int]@.index_sql("group_"@ + text::decimal(index + 1))
                {
                    let name = "group_".to_owned().concat(
                        unsigned_text((index + 1) as u64).as_str(),
                    );
                    orders[index].index_column(name.as_str())
                },
        );
        proof {
            let models = btree::orders(orders@);
            assert(text::texts(list@) =~= Seq::new(
                models.len(),
                |index: int| models[index].index_sql("group_"@ + text::decimal(index + 1)),
            ));
        }
        join(&list, ",")
    };
    let mut sql = "CREATE UNIQUE INDEX ".to_owned();
    sql.append(
        quote_identifier(relation_name("aggregate_groups_key", result, stage_id).as_str()).as_str(),
    );
    sql.append(" ON ");
    sql.append(groups);
    sql.append("(");
    sql.append(columns.as_str());
    sql.append(") NULLS NOT DISTINCT");
    sql
}

/// Column definitions from names and types.
pub open spec fn definitions(names: Seq<Seq<char>>, types: Seq<Seq<char>>) -> Seq<Seq<char>> {
    Seq::new(names.len(), |index: int| provision::defined(names[index], types[index]))
}

fn define_all(names: &Vec<String>, types: &Vec<String>) -> (list: Vec<String>)
    requires
        names.len() == types.len(),
    ensures
        text::texts(list@) == definitions(text::texts(names@), text::texts(types@)),
{
    let list = listed(
        names.len(),
        |index: usize| -> (item: String)
            requires
                index < names.len(),
                names.len() == types.len(),
            ensures
                item@ == provision::defined(names@[index as int]@, types@[index as int]@)
            { definition(names[index].as_str(), types[index].as_str()) },
    );
    assert(text::texts(list@) =~= definitions(text::texts(names@), text::texts(types@)));
    list
}

/// The columns of the bag of rows.
pub open spec fn bag_columns(
    groups: Seq<char>,
    row_type: Seq<char>,
    aggregates: Seq<CompiledAggregate>,
) -> Seq<char> {
    text::rendered(
        BAG_SQL@,
        seq![
            ("groups"@, groups),
            ("row_type"@, row_type),
            (
                "bag_value_definitions"@,
                apply::behind_comma(
                    definitions(
                        apply::value_names(apply::compiled(aggregates)),
                        apply::value_expressions(apply::compiled(aggregates)),
                    ),
                ),
            ),
        ],
    )
}

/// The columns of the bag. `aggregates` holds the SQL types of the order and
/// distinct keys in place of their expressions.
pub fn bag_body(groups: &str, row_type: &str, aggregates: &Vec<CompiledAggregate>) -> (sql: String)
    ensures
        sql@ == bag_columns(groups@, row_type@, aggregates@),
{
    let list = value_list(aggregates);
    let values = define_all(&list.names, &list.expressions);
    let holes = Holes::new().bind("groups", groups).bind("row_type", row_type).bind(
        "bag_value_definitions",
        with_comma(&values).as_str(),
    );
    assert(holes@ =~= seq![
        ("groups"@, groups@),
        ("row_type"@, row_type@),
        (
            "bag_value_definitions"@,
            apply::behind_comma(
                definitions(
                    apply::value_names(apply::compiled(aggregates@)),
                    apply::value_expressions(apply::compiled(aggregates@)),
                ),
            ),
        ),
    ]);
    render(BAG_SQL, holes)
}

/// The index of the bag by group.
pub open spec fn bag_key(result: u32, stage_id: i32, bag: Seq<char>) -> Seq<char> {
    "CREATE INDEX "@ + postgres::quoted(
        provision::named("aggregate_bag_group"@, result, stage_id),
    ) + " ON "@ + bag + "(group_state_id,row_id)"@
}

/// The index that finds the rows of a group.
pub fn bag_index(result: u32, stage_id: i32, bag: &str) -> (sql: String)
    ensures
        sql@ == bag_key(result, stage_id, bag@),
{
    let mut sql = "CREATE INDEX ".to_owned();
    sql.append(
        quote_identifier(relation_name("aggregate_bag_group", result, stage_id).as_str()).as_str(),
    );
    sql.append(" ON ");
    sql.append(bag);
    sql.append("(group_state_id,row_id)");
    sql
}

/// The columns of the index that keeps a group in rebuild order.
pub open spec fn order_index_columns(keys: Seq<RebuildKeyModel>) -> Seq<Seq<char>> {
    seq!["group_state_id ASC"@] + Seq::new(
        keys.len(),
        |index: int| keys[index].order.index_sql(keys[index].column),
    ) + seq!["row_id ASC"@]
}

/// The index of the bag in the order of a fold.
pub open spec fn order_key(
    result: u32,
    stage_id: i32,
    ordinal: usize,
    bag: Seq<char>,
    keys: Seq<RebuildKey>,
) -> Seq<char> {
    "CREATE INDEX "@ + postgres::quoted(
        named_aggregate("aggregate_bag_order"@, result, stage_id, ordinal as int),
    ) + " ON "@ + bag + "("@ + text::joined(
        order_index_columns(order::rebuild_keys(keys)),
        ","@,
    ) + ")"@
}

/// The index that keeps a group in the rebuild order of one aggregate. An
/// aggregate without order needs none.
pub fn order_index(result: u32, stage_id: i32, ordinal: usize, bag: &str, keys: &Vec<RebuildKey>) -> (
    sql: String)
    ensures
        sql@ == order_key(result, stage_id, ordinal, bag@, keys@),
{
    let ghost model = order_index_columns(order::rebuild_keys(keys@));
    let mut list: Vec<String> = Vec::new();
    list.push("group_state_id ASC".to_owned());
    let mut index: usize = 0;
    while index < keys.len()
        invariant
            index <= keys.len(),
            list.len() == index + 1,
            model == order_index_columns(order::rebuild_keys(keys@)),
            forall|k: int| 0 <= k < list.len() ==> #[trigger] list@[k]@ == model[k],
        decreases keys.len() - index,
    {
        list.push(keys[index].order.index_column(keys[index].column.as_str()));
        index = index + 1;
    }
    list.push("row_id ASC".to_owned());
    assert(text::texts(list@) =~= model);
    let name = aggregate_name("aggregate_bag_order", result, stage_id, ordinal);
    let mut sql = "CREATE INDEX ".to_owned();
    sql.append(quote_identifier(name.as_str()).as_str());
    sql.append(" ON ");
    sql.append(bag);
    sql.append("(");
    sql.append(join(&list, ",").as_str());
    sql.append(")");
    sql
}

/// Numbered column definitions as a list, counted from one.
pub open spec fn numbered_list(prefix: Seq<char>, types: Seq<Seq<char>>) -> Seq<Seq<char>> {
    Seq::new(
        types.len(),
        |index: int| provision::defined(prefix + text::decimal(index + 1), types[index]),
    )
}

/// The definitions of a work relation: the fold, its cursor, and the distinct
/// tuple that it stands in.
pub open spec fn work_definitions(
    groups: Seq<char>,
    transition_type: Seq<char>,
    order_types: Seq<Seq<char>>,
    distinct_types: Seq<Seq<char>>,
) -> Seq<Seq<char>> {
    seq![
        text::rendered(WORK_IDENTITY_SQL@, seq![("groups"@, groups)]),
        "transition_state "@ + transition_type,
        "no_trans_value boolean NOT NULL"@,
        "has_cursor boolean NOT NULL DEFAULT false"@,
        "cursor_row_id bigint CHECK(cursor_row_id > 0)"@,
        "remaining_multiplicity bigint CHECK(remaining_multiplicity > 0)"@,
        "complete boolean NOT NULL DEFAULT false"@,
    ] + numbered_list("cursor_order_"@, order_types) + seq![
        "has_distinct_cursor boolean NOT NULL DEFAULT false"@,
        "distinct_transitioned boolean NOT NULL DEFAULT false"@,
    ] + numbered_list("cursor_distinct_"@, distinct_types) + seq![
        "CHECK(has_cursor = (cursor_row_id IS NOT NULL))"@,
        "CHECK(has_distinct_cursor OR NOT distinct_transitioned)"@,
    ]
}

fn push_numbered(list: &mut Vec<String>, prefix: &str, types: &Vec<String>)
    ensures
        text::texts(final(list)@) == text::texts(old(list)@) + numbered_list(
            prefix@,
            text::texts(types@),
        ),
{
    let ghost before = text::texts(list@);
    let ghost model = numbered_list(prefix@, text::texts(types@));
    let mut index: usize = 0;
    assert(text::texts(list@) =~= before + model.take(0));
    while index < types.len()
        invariant
            index <= types.len(),
            before == text::texts(old(list)@),
            model == numbered_list(prefix@, text::texts(types@)),
            text::texts(list@) == before + model.take(index as int),
        decreases types.len() - index,
    {
        let ghost now = list@;
        let name = prefix.to_owned().concat(unsigned_text((index + 1) as u64).as_str());
        list.push(definition(name.as_str(), types[index].as_str()));
        proof {
            assert(text::texts(list@) =~= text::texts(now).push(model[index as int]));
            assert(model.take(index + 1) =~= model.take(index as int).push(model[index as int]));
            assert(text::texts(list@) =~= before + model.take(index + 1));
        }
        index = index + 1;
    }
    assert(model.take(types@.len() as int) =~= model);
}

/// The columns of a fold in progress.
pub open spec fn work_columns(
    groups: Seq<char>,
    transition_type: Seq<char>,
    order_types: Seq<String>,
    distinct_types: Seq<String>,
) -> Seq<char> {
    text::joined(
        work_definitions(
            groups,
            transition_type,
            text::texts(order_types),
            text::texts(distinct_types),
        ),
        ","@,
    )
}

/// The columns of the work relation of one aggregate.
pub fn work_body(
    groups: &str,
    transition_type: &str,
    order_types: &Vec<String>,
    distinct_types: &Vec<String>,
) -> (sql: String)
    ensures
        sql@ == work_columns(groups@, transition_type@, order_types@, distinct_types@),
{
    let holes = Holes::new().bind("groups", groups);
    assert(holes@ =~= seq![("groups"@, groups@)]);
    let mut list: Vec<String> = vec![
        render(WORK_IDENTITY_SQL, holes),
        "transition_state ".to_owned().concat(transition_type),
        "no_trans_value boolean NOT NULL".to_owned(),
        "has_cursor boolean NOT NULL DEFAULT false".to_owned(),
        "cursor_row_id bigint CHECK(cursor_row_id > 0)".to_owned(),
        "remaining_multiplicity bigint CHECK(remaining_multiplicity > 0)".to_owned(),
        "complete boolean NOT NULL DEFAULT false".to_owned(),
    ];
    let ghost head = text::texts(list@);
    push_numbered(&mut list, "cursor_order_", order_types);
    let ghost ordered = list@;
    list.push("has_distinct_cursor boolean NOT NULL DEFAULT false".to_owned());
    list.push("distinct_transitioned boolean NOT NULL DEFAULT false".to_owned());
    assert(text::texts(list@) =~= text::texts(ordered) + seq![
        "has_distinct_cursor boolean NOT NULL DEFAULT false"@,
        "distinct_transitioned boolean NOT NULL DEFAULT false"@,
    ]);
    push_numbered(&mut list, "cursor_distinct_", distinct_types);
    let ghost distinct = list@;
    list.push("CHECK(has_cursor = (cursor_row_id IS NOT NULL))".to_owned());
    list.push("CHECK(has_distinct_cursor OR NOT distinct_transitioned)".to_owned());
    assert(text::texts(list@) =~= text::texts(distinct) + seq![
        "CHECK(has_cursor = (cursor_row_id IS NOT NULL))"@,
        "CHECK(has_distinct_cursor OR NOT distinct_transitioned)"@,
    ]);
    assert(text::texts(list@) =~= work_definitions(
        groups@,
        transition_type@,
        text::texts(order_types@),
        text::texts(distinct_types@),
    ));
    join(&list, ",")
}

/// The columns of the queue of dirty groups.
pub open spec fn dirty_columns(groups: Seq<char>) -> Seq<char> {
    text::rendered(DIRTY_SQL@, seq![("groups"@, groups)])
}

/// The columns of the dirty-group queue.
pub fn dirty_body(groups: &str) -> (sql: String)
    ensures
        sql@ == dirty_columns(groups@),
{
    let holes = Holes::new().bind("groups", groups);
    assert(holes@ =~= seq![("groups"@, groups@)]);
    render(DIRTY_SQL, holes)
}

/// The continuation relation.
pub open spec fn continuation_table(continuation: Seq<char>, aggregates: usize) -> Seq<char> {
    text::rendered(
        CONTINUATION_SQL@,
        seq![
            ("continuation"@, continuation),
            ("aggregates"@, text::decimal(aggregates as int)),
        ],
    )
}

/// Creates the continuation relation of a stage with so many aggregates.
pub fn create_continuation(continuation: &str, aggregates: usize) -> (sql: String)
    ensures
        sql@ == continuation_table(continuation@, aggregates),
{
    let holes = Holes::new().bind("continuation", continuation).bind(
        "aggregates",
        unsigned_text(aggregates as u64).as_str(),
    );
    assert(holes@ =~= seq![
        ("continuation"@, continuation@),
        ("aggregates"@, text::decimal(aggregates as int)),
    ]);
    render(CONTINUATION_SQL, holes)
}

} // verus!
