//! The durable relations of a Distinct stage: exact-key state, the bag of
//! physical representatives, the queue of pending effects, the touched-key
//! scratch relation and the phaseful continuation.

use vstd::prelude::*;

use crate::execution::btree::{self, BtreeOrder, OrderModel};
use crate::execution::provision::{self, numbered_columns, relation_name, stage_message};
use crate::planner::Operator;
use crate::postgres::{self, quote_identifier};
use crate::sql::INVALID_OID;
use crate::text::{self, fail, join, listed, render, unsigned_text, Holes};

verus! {

/// The columns of the key state.
pub const GROUPS_SQL: &'static str =
    "group_state_id bigint GENERATED ALWAYS AS IDENTITY PRIMARY KEY,
             {key_definitions},
             output_key bytea,
             output_row {row_type},
             multiplicity bigint NOT NULL DEFAULT 0 CHECK(multiplicity >= 0),
             CHECK((multiplicity=0)=(output_key IS NULL)),
             CHECK((multiplicity=0)=((output_row)::text IS NULL))";

/// The unique index of the key state.
pub const GROUPS_INDEX_SQL: &'static str =
    "CREATE UNIQUE INDEX {state_index} ON {state}({key_index})
                 NULLS NOT DISTINCT";

/// The columns of the representative bag.
pub const BAG_SQL: &'static str =
    "bag_id bigint GENERATED ALWAYS AS IDENTITY PRIMARY KEY,
             group_state_id bigint NOT NULL REFERENCES {state}(group_state_id)
               ON DELETE RESTRICT,
             output_key bytea NOT NULL,
             output_row {row_type} NOT NULL,
             multiplicity bigint NOT NULL CHECK(multiplicity > 0),
             UNIQUE(group_state_id,output_key)";

/// The columns of the pending effect queue.
pub const QUEUE_SQL: &'static str =
    "queue_id bigint GENERATED ALWAYS AS IDENTITY PRIMARY KEY,
             output_key bytea NOT NULL,
             weight bigint NOT NULL CHECK(weight IN (-1,1)),
             output_row {row_type} NOT NULL,
             row_bytes bigint NOT NULL CHECK(row_bytes > 0),
             causal_lsn pg_lsn NOT NULL";

/// The columns of the touched-key scratch relation.
pub const TOUCHED_SQL: &'static str =
    "group_state_id bigint PRIMARY KEY,
         net_weight numeric NOT NULL";

/// The continuation relation.
pub const CONTINUATION_SQL: &'static str =
    "CREATE TABLE {continuation}(
                   singleton boolean PRIMARY KEY DEFAULT true CHECK(singleton),
                   phase smallint NOT NULL CHECK(phase IN (1,2)),
                   input_stream_id bigint NOT NULL,
                   input_chunk_seq bigint NOT NULL CHECK(input_chunk_seq > 0),
                   next_row_ordinal bigint NOT NULL CHECK(next_row_ordinal >= 0),
                   FOREIGN KEY(input_stream_id,input_chunk_seq)
                     REFERENCES shiba_internal.effect_stream_chunks(
                       stream_id,chunk_seq
                     ) ON DELETE RESTRICT
                 )";

/// Whether a stage can be provisioned.
pub open spec fn provisionable(
    operator: Operator,
    result_oid: u32,
    stage_id: i32,
    input_streams: Seq<i64>,
    output_stream: i64,
    keys: usize,
    outputs: usize,
) -> Result<(), Seq<char>> {
    text::both(
        text::holds(operator is Distinct, "Distinct provisioner received another operator"@),
        text::holds(
            result_oid != INVALID_OID && stage_id >= 0 && input_streams.len() == 1
                && input_streams[0] > 0 && output_stream > 0 && keys > 0 && outputs > 0,
            provision::stage_text(
                "Distinct stage "@,
                stage_id,
                " has an invalid storage contract"@,
            ),
        ),
    )
}

pub fn validate_provision(
    operator: Operator,
    result_oid: u32,
    stage_id: i32,
    input_streams: &Vec<i64>,
    output_stream: i64,
    keys: usize,
    outputs: usize,
) -> (outcome: Result<(), String>)
    ensures
        text::agrees(
            outcome,
            provisionable(
                operator,
                result_oid,
                stage_id,
                input_streams@,
                output_stream,
                keys,
                outputs,
            ),
        ),
{
    if operator != Operator::Distinct {
        return fail("Distinct provisioner received another operator");
    }
    if result_oid == INVALID_OID || stage_id < 0 || input_streams.len() != 1 || input_streams[0]
        <= 0 || output_stream <= 0 || keys == 0 || outputs == 0 {
        return Err(
            stage_message("Distinct stage ", stage_id, " has an invalid storage contract"),
        );
    }
    Ok(())
}

/// The output payload must have one attribute per output of the plan.
pub fn validate_payload(attributes: usize, outputs: usize) -> (outcome: Result<(), String>)
    ensures
        text::agrees(
            outcome,
            text::holds(
                attributes == outputs,
                "Distinct output payload does not match its plan schema"@,
            ),
        ),
{
    if attributes != outputs {
        return fail("Distinct output payload does not match its plan schema");
    }
    Ok(())
}

/// The names of the relations of a stage, by state slot.
pub open spec fn state_name(slot: int, result: u32, stage_id: i32) -> Seq<char> {
    provision::named(
        if slot == 0 {
            "distinct_groups"@
        } else if slot == 1 {
            "distinct_bag"@
        } else if slot == 2 {
            "distinct_effect_queue"@
        } else {
            "distinct_touched"@
        },
        result,
        stage_id,
    )
}

pub fn state_names(result: u32, stage_id: i32) -> (names: Vec<String>)
    ensures
        names.len() == 4,
        forall|slot: int|
            0 <= slot < 4 ==> #[trigger] names@[slot]@ == state_name(slot, result, stage_id),
{
    vec![
        relation_name("distinct_groups", result, stage_id),
        relation_name("distinct_bag", result, stage_id),
        relation_name("distinct_effect_queue", result, stage_id),
        relation_name("distinct_touched", result, stage_id),
    ]
}

/// The name of the continuation relation.
pub fn continuation_name(result: u32, stage_id: i32) -> (name: String)
    ensures
        name@ == provision::named("continuation"@, result, stage_id),
{
    relation_name("continuation", result, stage_id)
}

/// The columns of the keys.
pub open spec fn groups_columns(key_types: Seq<String>, row_type: Seq<char>) -> Seq<char> {
    text::rendered(
        GROUPS_SQL@,
        seq![
            (
                "key_definitions"@,
                provision::numbered_definitions("key_"@, text::texts(key_types)),
            ),
            ("row_type"@, row_type),
        ],
    )
}

/// The columns of the key state, from the SQL types of its keys.
pub fn groups_body(key_types: &Vec<String>, row_type: &str) -> (sql: String)
    ensures
        sql@ == groups_columns(key_types@, row_type@),
{
    let holes = Holes::new().bind(
        "key_definitions",
        numbered_columns("key_", key_types).as_str(),
    ).bind("row_type", row_type);
    assert(holes@ =~= seq![
        ("key_definitions"@, provision::numbered_definitions("key_"@, text::texts(key_types@))),
        ("row_type"@, row_type@),
    ]);
    render(GROUPS_SQL, holes)
}

/// The index columns of the keys.
pub open spec fn key_index(orders: Seq<OrderModel>) -> Seq<char> {
    text::joined(
        Seq::new(
            orders.len(),
            |index: int| orders[index].index_sql("key_"@ + text::decimal(index + 1)),
        ),
        ","@,
    )
}

/// The unique index on the keys.
pub open spec fn groups_key(
    result: u32,
    stage_id: i32,
    state: Seq<char>,
    orders: Seq<BtreeOrder>,
) -> Seq<char> {
    text::rendered(
        GROUPS_INDEX_SQL@,
        seq![
            (
                "state_index"@,
                postgres::quoted(provision::named("distinct_groups_key"@, result, stage_id)),
            ),
            ("state"@, state),
            ("key_index"@, key_index(btree::orders(orders))),
        ],
    )
}

/// The unique index that gives the keys exact B-tree semantics.
pub fn groups_index(result: u32, stage_id: i32, state: &str, orders: &Vec<BtreeOrder>) -> (sql:
    String)
    ensures
        sql@ == groups_key(result, stage_id, state@, orders@),
{
    let list = listed(
        orders.len(),
        |index: usize| -> (item: String)
            requires
                index < orders.len(),
            ensures
                item@ == orders@[index as int]@.index_sql("key_"@ + text::decimal(index + 1))
            {
                let name = "key_".to_owned().concat(unsigned_text((index + 1) as u64).as_str());
                orders[index].index_column(name.as_str())
            },
    );
    proof {
        let models = btree::orders(orders@);
        assert(text::texts(list@) =~= Seq::new(
            models.len(),
            |index: int| models[index].index_sql("key_"@ + text::decimal(index + 1)),
        ));
    }
    let name = quote_identifier(relation_name("distinct_groups_key", result, stage_id).as_str());
    let holes = Holes::new().bind("state_index", name.as_str()).bind("state", state).bind(
        "key_index",
        join(&list, ",").as_str(),
    );
    assert(holes@ =~= seq![
        (
            "state_index"@,
            postgres::quoted(provision::named("distinct_groups_key"@, result, stage_id)),
        ),
        ("state"@, state@),
        ("key_index"@, key_index(btree::orders(orders@))),
    ]);
    render(GROUPS_INDEX_SQL, holes)
}

/// The columns of the representatives.
pub open spec fn bag_columns(state: Seq<char>, row_type: Seq<char>) -> Seq<char> {
    text::rendered(BAG_SQL@, seq![("state"@, state), ("row_type"@, row_type)])
}

/// The columns of the representative bag.
pub fn bag_body(state: &str, row_type: &str) -> (sql: String)
    ensures
        sql@ == bag_columns(state@, row_type@),
{
    let holes = Holes::new().bind("state", state).bind("row_type", row_type);
    assert(holes@ =~= seq![("state"@, state@), ("row_type"@, row_type@)]);
    render(BAG_SQL, holes)
}

/// The columns of the queue of effects.
pub open spec fn queue_columns(row_type: Seq<char>) -> Seq<char> {
    text::rendered(QUEUE_SQL@, seq![("row_type"@, row_type)])
}

/// The columns of the pending effect queue.
pub fn queue_body(row_type: &str) -> (sql: String)
    ensures
        sql@ == queue_columns(row_type@),
{
    let holes = Holes::new().bind("row_type", row_type);
    assert(holes@ =~= seq![("row_type"@, row_type@)]);
    render(QUEUE_SQL, holes)
}

/// The continuation relation.
pub open spec fn continuation_table(continuation: Seq<char>) -> Seq<char> {
    text::rendered(CONTINUATION_SQL@, seq![("continuation"@, continuation)])
}

/// Creates the continuation relation.
pub fn create_continuation(continuation: &str) -> (sql: String)
    ensures
        sql@ == continuation_table(continuation@),
{
    let holes = Holes::new().bind("continuation", continuation);
    assert(holes@ =~= seq![("continuation"@, continuation@)]);
    render(CONTINUATION_SQL, holes)
}

} // verus!
