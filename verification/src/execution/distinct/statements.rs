//! The bounded statements of a Distinct stage and the row facts they return.

use vstd::prelude::*;

use crate::database::{self, require_summary, required};
use crate::execution::btree::{self, nulls_text, BtreeOrder, OrderModel};
use crate::execution::stream::{
    self, budget_bigint, minimum, ChunkMeta, OutputAppend, OutputAppendTarget, OutputState,
};
use crate::planner::{WorkBudget, WorkUsage};
use crate::postgres::{self, format_lsn, parse_lsn, quote_identifier};
use crate::predicate::{between, bracketed};
use crate::session::{self, Row};
use crate::sql::{self, SqlModel, Statement, StatementModel};
use crate::text::{self, fail, join, listed, render, same_text, unsigned_text, Holes};

verus! {

/// Admits one bounded input prefix into the key, bag and touched-key state.
pub const APPLY_SQL: &'static str =
    r#"
        WITH candidates AS MATERIALIZED (
          SELECT input_row.row_ordinal,input_row.weight,
                 shiba_internal.effect_row_bytes(input_row.row_value) AS input_bytes,
                 ROW({expressions})::{output_type} AS output_row,
                 {key_select}
          FROM {input} AS input_row
          WHERE input_row.stream_id=$1 AND input_row.chunk_seq=$2
            AND input_row.row_ordinal >= $3
          ORDER BY input_row.row_ordinal
          LIMIT $4
        ),
        measured AS (
          SELECT candidates.*,
                 row_number() OVER (ORDER BY row_ordinal) AS page_ordinal,
                 sum(input_bytes) OVER (ORDER BY row_ordinal) AS running_input_bytes
          FROM candidates
        ),
        incoming AS MATERIALIZED (
          SELECT * FROM measured
          WHERE page_ordinal=1 OR running_input_bytes <= $5
        ),
        evaluated_base AS MATERIALIZED (
          SELECT incoming.*,{output_key} AS output_key
          FROM incoming
        ),
        collapsed AS MATERIALIZED (
          SELECT DISTINCT ON ({qualified_key_column_list})
                 {qualified_key_column_list}
          FROM evaluated_base
          ORDER BY {key_order}
        ),
        resolved_groups AS MATERIALIZED (
          INSERT INTO {state} AS groups({key_column_list})
          SELECT {key_column_list} FROM collapsed
          ON CONFLICT({conflict_keys}) DO UPDATE
          SET multiplicity=groups.multiplicity
          RETURNING group_state_id,{key_column_list},multiplicity
        ),
        evaluated AS MATERIALIZED (
          SELECT evaluated_base.*,resolved_groups.group_state_id
          FROM evaluated_base
          JOIN resolved_groups ON {group_match}
        ),
        key_prefixes AS (
          SELECT evaluated.*,
                 sum(weight::numeric) OVER (
                   PARTITION BY group_state_id ORDER BY row_ordinal
                   ROWS UNBOUNDED PRECEDING
                 ) AS key_prefix
          FROM evaluated
        ),
        physical_prefixes AS (
          SELECT key_prefixes.*,
                 sum(weight::numeric) OVER (
                   PARTITION BY group_state_id,output_key ORDER BY row_ordinal
                   ROWS UNBOUNDED PRECEDING
                 ) AS physical_prefix
          FROM key_prefixes
        ),
        key_collapsed AS MATERIALIZED (
          SELECT group_state_id,sum(weight::numeric) AS net_weight,
                 min(key_prefix) AS min_prefix,max(key_prefix) AS max_prefix
          FROM key_prefixes GROUP BY group_state_id
        ),
        physical_collapsed AS MATERIALIZED (
          SELECT group_state_id,output_key,
                 (array_agg(output_row ORDER BY row_ordinal))[1] AS incoming_output_row,
                 sum(weight::numeric) AS net_weight,
                 min(physical_prefix) AS min_prefix,
                 max(physical_prefix) AS max_prefix
          FROM physical_prefixes
          GROUP BY group_state_id,output_key
        ),
        locked_bag AS MATERIALIZED (
          SELECT locked.*
          FROM physical_collapsed
          JOIN LATERAL (
            SELECT bag.*
            FROM {bag} AS bag
            WHERE bag.group_state_id=physical_collapsed.group_state_id
              AND bag.output_key=physical_collapsed.output_key
            LIMIT 1
            FOR UPDATE
          ) AS locked ON true
        ),
        key_decision AS MATERIALIZED (
          SELECT key_collapsed.group_state_id,
                 resolved_groups.multiplicity::numeric AS old_multiplicity,
                 resolved_groups.multiplicity::numeric+key_collapsed.net_weight
                   AS new_multiplicity,
                 resolved_groups.multiplicity::numeric+key_collapsed.min_prefix
                   AS minimum_multiplicity,
                 resolved_groups.multiplicity::numeric+key_collapsed.max_prefix
                   AS maximum_multiplicity
          FROM key_collapsed
          JOIN resolved_groups USING(group_state_id)
        ),
        physical_decision AS MATERIALIZED (
          SELECT physical_collapsed.*,locked_bag.bag_id,
                 locked_bag.output_row AS stored_output_row,
                 coalesce(locked_bag.multiplicity,0)::numeric AS old_multiplicity,
                 coalesce(locked_bag.multiplicity,0)::numeric
                   +physical_collapsed.net_weight AS new_multiplicity,
                 coalesce(locked_bag.multiplicity,0)::numeric
                   +physical_collapsed.min_prefix AS minimum_multiplicity,
                 coalesce(locked_bag.multiplicity,0)::numeric
                   +physical_collapsed.max_prefix AS maximum_multiplicity
          FROM physical_collapsed
          LEFT JOIN locked_bag
            ON locked_bag.group_state_id=physical_collapsed.group_state_id
           AND locked_bag.output_key=physical_collapsed.output_key
        ),
        validation AS MATERIALIZED (
          SELECT CASE
            WHEN (SELECT count(*) FROM evaluated)<>
                 (SELECT count(*) FROM incoming)
              OR (SELECT count(*) FROM resolved_groups)<>
                 (SELECT count(*) FROM collapsed)
              OR (SELECT count(*) FROM key_decision)<>
                 (SELECT count(*) FROM key_collapsed) THEN 'corrupt'
            WHEN EXISTS (
              SELECT 1 FROM key_decision WHERE minimum_multiplicity<0
            ) OR EXISTS (
              SELECT 1 FROM physical_decision WHERE minimum_multiplicity<0
            ) THEN 'negative'
            WHEN EXISTS (
              SELECT 1 FROM key_decision
              WHERE maximum_multiplicity>9223372036854775807
            ) OR EXISTS (
              SELECT 1 FROM physical_decision
              WHERE maximum_multiplicity>9223372036854775807
            ) THEN 'overflow'
            ELSE 'ok' END AS status
        ),
        bag_removed AS (
          DELETE FROM {bag} AS bag USING physical_decision,validation
          WHERE validation.status='ok'
            AND bag.bag_id=physical_decision.bag_id
            AND physical_decision.new_multiplicity=0
          RETURNING 1
        ),
        bag_changed AS (
          UPDATE {bag} AS bag
          SET multiplicity=physical_decision.new_multiplicity::bigint
          FROM physical_decision,validation
          WHERE validation.status='ok'
            AND bag.bag_id=physical_decision.bag_id
            AND physical_decision.new_multiplicity>0
          RETURNING 1
        ),
        bag_created AS (
          INSERT INTO {bag}(group_state_id,output_key,output_row,multiplicity)
          SELECT physical_decision.group_state_id,physical_decision.output_key,
                 physical_decision.incoming_output_row,
                 physical_decision.new_multiplicity::bigint
          FROM physical_decision,validation
          WHERE validation.status='ok'
            AND physical_decision.bag_id IS NULL
            AND physical_decision.new_multiplicity>0
          RETURNING 1
        ),
        touched_written AS (
          INSERT INTO {touched}(group_state_id,net_weight)
          SELECT key_collapsed.group_state_id,key_collapsed.net_weight
          FROM key_collapsed,validation
          WHERE validation.status='ok'
          RETURNING 1
        )
        SELECT validation.status,
               (SELECT count(*)::bigint FROM key_decision),
               (SELECT count(*)::bigint FROM physical_decision),
               (SELECT max(row_ordinal)+1 FROM incoming),
               (SELECT count(*)::bigint FROM incoming),
               (SELECT coalesce(sum(input_bytes),0)::bigint FROM incoming),
               (SELECT count(*)::bigint FROM bag_removed)
                 +(SELECT count(*)::bigint FROM bag_changed)
                 +(SELECT count(*)::bigint FROM bag_created)
                 +(SELECT count(*)::bigint FROM resolved_groups)
                 +(SELECT count(*)::bigint FROM touched_written)
        FROM validation
        "#;

/// Resolves the representatives of the touched keys and queues the differences.
pub const RECONCILE_SQL: &'static str =
    r#"
            WITH touched_page AS MATERIALIZED (
              DELETE FROM {touched}
              RETURNING group_state_id,net_weight
            ),
            locked AS MATERIALIZED (
              SELECT locked_group.*
              FROM touched_page
              JOIN LATERAL (
                SELECT groups.*
                FROM {state} AS groups
                WHERE groups.group_state_id=touched_page.group_state_id
                LIMIT 1
                FOR UPDATE
              ) AS locked_group ON true
            ),
            desired AS MATERIALIZED (
              SELECT locked.group_state_id,locked.output_key AS old_output_key,
                     locked.output_row AS old_output_row,
                     locked.multiplicity::numeric AS old_multiplicity,
                     locked.multiplicity::numeric+touched_page.net_weight
                       AS new_multiplicity,
                     representative.output_key,representative.output_row
              FROM locked
              JOIN touched_page USING(group_state_id)
              LEFT JOIN LATERAL (
                SELECT bag.output_key,bag.output_row
                FROM {bag} AS bag
                WHERE bag.group_state_id=locked.group_state_id
                ORDER BY bag.output_key
                LIMIT 1
              ) AS representative ON true
            ),
            validation AS MATERIALIZED (
              SELECT CASE WHEN EXISTS (
                SELECT 1
                WHERE (SELECT count(*) FROM desired)<>
                      (SELECT count(*) FROM touched_page)
              ) OR EXISTS (
                SELECT 1 FROM desired
                WHERE desired.new_multiplicity<0
                   OR desired.new_multiplicity>9223372036854775807
                   OR (desired.old_multiplicity>0)<>
                      (desired.old_output_key IS NOT NULL)
                   OR (desired.new_multiplicity>0)<>
                      (desired.output_key IS NOT NULL)
                   OR (
                     desired.output_key IS NOT NULL
                     AND desired.output_key<>{canonical_key}
                   )
              ) THEN 'corrupt' ELSE 'ok' END AS status
            ),
            effects AS MATERIALIZED (
              SELECT desired.group_state_id,1 AS leg,
                     desired.old_output_key AS output_key,
                     -1::bigint AS weight,desired.old_output_row AS output_row
              FROM desired
              WHERE desired.old_output_key IS NOT NULL
                AND (
                  desired.output_key IS NULL
                  OR desired.old_output_key<>desired.output_key
                )
              UNION ALL
              SELECT desired.group_state_id,
                     CASE WHEN desired.old_output_key IS NULL THEN 1 ELSE 2 END,
                     desired.output_key,1::bigint,desired.output_row
              FROM desired
              WHERE desired.output_key IS NOT NULL
                AND (
                  desired.old_output_key IS NULL
                  OR desired.old_output_key<>desired.output_key
                )
            ),
            state_changed AS (
              UPDATE {state} AS groups
              SET output_key=desired.output_key,output_row=desired.output_row,
                  multiplicity=desired.new_multiplicity::bigint
              FROM desired,validation
              WHERE validation.status='ok'
                AND groups.group_state_id=desired.group_state_id
                AND desired.new_multiplicity>0
              RETURNING 1
            ),
            state_removed AS (
              DELETE FROM {state} AS groups
              USING desired,validation
              WHERE validation.status='ok'
                AND groups.group_state_id=desired.group_state_id
                AND desired.new_multiplicity=0
              RETURNING 1
            ),
            queued AS (
              INSERT INTO {queue}(
                output_key,weight,output_row,row_bytes,causal_lsn
              )
              SELECT effects.output_key,effects.weight,effects.output_row,
                     shiba_internal.effect_row_bytes(effects.output_row),$1::pg_lsn
              FROM effects,validation
              WHERE validation.status='ok'
              ORDER BY effects.group_state_id,effects.leg
              RETURNING 1
            )
            SELECT validation.status,
                   (SELECT count(*)::bigint FROM desired),
                   (SELECT count(*)::bigint FROM queued),
                   (SELECT count(*)::bigint FROM state_changed)
                     +(SELECT count(*)::bigint FROM state_removed)
                     +(SELECT count(*)::bigint FROM queued)
                     +(SELECT count(*)::bigint FROM touched_page)
            FROM validation
            "#;

/// Moves one bounded page of queued effects into the output payload.
pub const DRAIN_SQL: &'static str =
    r#"
            WITH candidates AS MATERIALIZED (
              SELECT queue_id,output_key,weight,output_row,row_bytes,causal_lsn
              FROM {queue}
              ORDER BY queue_id
              LIMIT $3
            ),
            measured AS (
              SELECT candidates.*,
                     row_number() OVER (ORDER BY queue_id) AS page_ordinal,
                     sum(row_bytes) OVER (ORDER BY queue_id) AS running_bytes
              FROM candidates
            ),
            selected AS MATERIALIZED (
              SELECT * FROM measured
              WHERE page_ordinal=1 OR running_bytes <= $4
            ),
            summary AS MATERIALIZED (
              SELECT count(*)::bigint AS emitted,
                     coalesce(sum(row_bytes),0)::bigint AS emitted_bytes,
                     min(causal_lsn) AS causal_lsn,
                     min(causal_lsn)=max(causal_lsn) AS one_causal_lsn,
                     bool_and(output_key={canonical_key}) AS canonical_keys
              FROM selected
            ),
            payload_insert AS (
              INSERT INTO {output_payload}(
                stream_id,chunk_seq,row_ordinal,weight,row_value
              )
              SELECT $1,$2,
                     row_number() OVER (ORDER BY selected.queue_id)-1,
                     selected.weight,selected.output_row
              FROM selected,summary
              WHERE summary.emitted>0 AND summary.one_causal_lsn
                AND summary.canonical_keys
              RETURNING 1
            ),
            removed AS (
              DELETE FROM {queue} AS queue
              USING selected,summary
              WHERE summary.emitted>0 AND summary.one_causal_lsn
                AND summary.canonical_keys
                AND queue.queue_id=selected.queue_id
              RETURNING 1
            )
            SELECT summary.emitted,summary.emitted_bytes,
                   summary.one_causal_lsn,summary.canonical_keys,
                   summary.causal_lsn::text,
                   (SELECT count(*)::bigint FROM payload_insert),
                   (SELECT count(*)::bigint FROM removed),
                   (SELECT count(*)::bigint
                    FROM {queue} AS pending
                    WHERE NOT EXISTS (
                      SELECT 1 FROM selected
                      WHERE selected.queue_id=pending.queue_id
                    ))
            FROM summary
            "#;

/// A null-safe comparison of two expressions by an equality operator: both
/// are NULL, or neither is and the operator says that they are equal.
pub open spec fn null_safe(left: Seq<char>, right: Seq<char>, equality: Seq<char>) -> Seq<char> {
    let missing = "("@ + (left + " IS NULL"@ + " AND "@ + (right + " IS NULL"@)) + ")"@;
    let certain = "("@ + (left + " "@ + equality + " "@ + right) + ")"@ + " IS TRUE"@;
    let equal = "("@ + (left + " IS NOT NULL"@ + " AND "@ + (right + " IS NOT NULL"@)
        + "\n            AND "@ + certain) + ")"@;
    "(\n           "@ + (missing + "\n           OR\n           "@ + equal) + "\n         )"@
}

pub fn distinct_null_safe_equality(left: &str, right: &str, equality: &str) -> (sql: String)
    ensures
        sql@ == null_safe(left@, right@, equality@),
{
    let missing = between(
        left.to_owned().concat(" IS NULL").as_str(),
        " AND ",
        right.to_owned().concat(" IS NULL").as_str(),
    );
    let present = between(
        left.to_owned().concat(" IS NOT NULL").as_str(),
        " AND ",
        right.to_owned().concat(" IS NOT NULL").as_str(),
    );
    let mut compared = left.to_owned();
    compared.append(" ");
    compared.append(equality);
    compared.append(" ");
    compared.append(right);
    let certain = bracketed(compared.as_str()).concat(" IS TRUE");
    let equal = between(present.as_str(), "\n            AND ", certain.as_str());
    let either = between(
        bracketed(missing.as_str()).as_str(),
        "\n           OR\n           ",
        bracketed(equal.as_str()).as_str(),
    );
    between("(\n           ", either.as_str(), "\n         )")
}

/// The name of a key column, counted from one.
pub open spec fn key_name(index: int) -> Seq<char> {
    "key_"@ + text::decimal(index + 1)
}

fn key_column(index: usize) -> (name: String)
    requires
        index < usize::MAX,
    ensures
        name@ == key_name(index as int),
{
    "key_".to_owned().concat(unsigned_text((index + 1) as u64).as_str())
}

/// The names of the key columns, separated by commas.
pub open spec fn key_column_list(count: nat) -> Seq<char> {
    text::joined(Seq::new(count, |index: int| key_name(index)), ","@)
}

fn key_columns(count: usize) -> (sql: String)
    ensures
        sql@ == key_column_list(count as nat),
{
    let list = listed(
        count,
        |index: usize| -> (name: String)
            requires
                index < count,
            ensures
                name@ == key_name(index as int)
            { key_column(index) },
    );
    assert(text::texts(list@) =~= Seq::new(count as nat, |index: int| key_name(index)));
    join(&list, ",")
}

/// The key columns of the evaluated input.
pub open spec fn qualified_key_list(count: nat) -> Seq<char> {
    text::joined(
        Seq::new(count, |index: int| "evaluated_base."@ + postgres::quoted(key_name(index))),
        ","@,
    )
}

fn qualified_keys(count: usize) -> (sql: String)
    ensures
        sql@ == qualified_key_list(count as nat),
{
    let list = listed(
        count,
        |index: usize| -> (name: String)
            requires
                index < count,
            ensures
                name@ == "evaluated_base."@ + postgres::quoted(key_name(index as int))
            {
                "evaluated_base.".to_owned().concat(
                    quote_identifier(key_column(index).as_str()).as_str(),
                )
            },
    );
    assert(text::texts(list@) =~= Seq::new(
        count as nat,
        |index: int| "evaluated_base."@ + postgres::quoted(key_name(index)),
    ));
    join(&list, ",")
}

/// The key expressions, each under the name of its column.
pub open spec fn key_selection(keys: Seq<Seq<char>>) -> Seq<char> {
    text::joined(
        Seq::new(keys.len(), |index: int| keys[index] + " AS "@ + key_name(index)),
        ","@,
    )
}

fn key_select(keys: &Vec<String>) -> (sql: String)
    ensures
        sql@ == key_selection(text::texts(keys@)),
{
    let list = listed(
        keys.len(),
        |index: usize| -> (item: String)
            requires
                index < keys.len(),
            ensures
                item@ == keys@[index as int]@ + " AS "@ + key_name(index as int)
            {
                let mut item = keys[index].clone();
                item.append(" AS ");
                item.append(key_column(index).as_str());
                item
            },
    );
    assert(text::texts(list@) =~= Seq::new(
        text::texts(keys@).len(),
        |index: int| text::texts(keys@)[index] + " AS "@ + key_name(index),
    ));
    join(&list, ",")
}

/// The order of one key of the evaluated input.
pub open spec fn key_ordering(order: OrderModel, index: int) -> Seq<char> {
    "evaluated_base."@ + key_name(index) + " USING "@ + order.sort_operator + " NULLS "@
        + btree::nulls_word(order.nulls_first)
}

/// The keys in their order, then the input rows in theirs.
pub open spec fn key_order_list(orders: Seq<OrderModel>) -> Seq<char> {
    text::joined(
        Seq::new(orders.len(), |index: int| key_ordering(orders[index], index)).push(
            "evaluated_base.row_ordinal"@,
        ),
        ","@,
    )
}

fn key_order(orders: &Vec<BtreeOrder>) -> (sql: String)
    ensures
        sql@ == key_order_list(btree::orders(orders@)),
{
    let mut list = listed(
        orders.len(),
        |index: usize| -> (item: String)
            requires
                index < orders.len(),
            ensures
                item@ == key_ordering(orders@[index as int]@, index as int)
            {
                let mut item = "evaluated_base.".to_owned();
                item.append(key_column(index).as_str());
                item.append(" USING ");
                item.append(orders[index].sort_operator.as_str());
                item.append(" NULLS ");
                item.append(nulls_text(orders[index].nulls_first));
                item
            },
    );
    list.push("evaluated_base.row_ordinal".to_owned());
    proof {
        let models = btree::orders(orders@);
        assert(text::texts(list@) =~= Seq::new(
            models.len(),
            |index: int| key_ordering(models[index], index),
        ).push("evaluated_base.row_ordinal"@));
    }
    join(&list, ",")
}

/// The conflict target that names each key with its opclass.
pub open spec fn conflict_key_list(orders: Seq<OrderModel>) -> Seq<char> {
    text::joined(
        Seq::new(
            orders.len(),
            |index: int| postgres::quoted(key_name(index)) + " "@ + orders[index].opclass,
        ),
        ","@,
    )
}

fn conflict_keys(orders: &Vec<BtreeOrder>) -> (sql: String)
    ensures
        sql@ == conflict_key_list(btree::orders(orders@)),
{
    let list = listed(
        orders.len(),
        |index: usize| -> (item: String)
            requires
                index < orders.len(),
            ensures
                item@ == postgres::quoted(key_name(index as int)) + " "@
                    + orders@[index as int]@.opclass
            {
                let mut item = quote_identifier(key_column(index).as_str());
                item.append(" ");
                item.append(orders[index].opclass.as_str());
                item
            },
    );
    proof {
        let models = btree::orders(orders@);
        assert(text::texts(list@) =~= Seq::new(
            models.len(),
            |index: int| postgres::quoted(key_name(index)) + " "@ + models[index].opclass,
        ));
    }
    join(&list, ",")
}

/// The comparison of one key of a resolved group with the evaluated input.
pub open spec fn key_match(order: OrderModel, index: int) -> Seq<char> {
    null_safe(
        "resolved_groups."@ + key_name(index),
        "evaluated_base."@ + key_name(index),
        order.equality_operator,
    )
}

/// The predicate that pairs the evaluated input with its group.
pub open spec fn group_matching(orders: Seq<OrderModel>) -> Seq<char> {
    text::joined(
        Seq::new(orders.len(), |index: int| key_match(orders[index], index)),
        " AND "@,
    )
}

fn group_match(orders: &Vec<BtreeOrder>) -> (sql: String)
    ensures
        sql@ == group_matching(btree::orders(orders@)),
{
    let list = listed(
        orders.len(),
        |index: usize| -> (item: String)
            requires
                index < orders.len(),
            ensures
                item@ == key_match(orders@[index as int]@, index as int)
            {
                let left = "resolved_groups.".to_owned().concat(key_column(index).as_str());
                let right = "evaluated_base.".to_owned().concat(key_column(index).as_str());
                distinct_null_safe_equality(
                    left.as_str(),
                    right.as_str(),
                    orders[index].equality_operator.as_str(),
                )
            },
    );
    proof {
        let models = btree::orders(orders@);
        assert(text::texts(list@) =~= Seq::new(
            models.len(),
            |index: int| key_match(models[index], index),
        ));
    }
    join(&list, " AND ")
}

/// What one prefix reads, evaluates and writes.
pub struct PrefixSql<'a> {
    pub input: &'a str,
    pub output_type: &'a str,
    pub state: &'a str,
    pub bag: &'a str,
    pub touched: &'a str,
    /// The canonical key of the row `incoming.output_row`.
    pub output_key: &'a str,
    pub keys: &'a Vec<String>,
    pub key_orders: &'a Vec<BtreeOrder>,
    pub expressions: &'a Vec<String>,
}

impl<'a> PrefixSql<'a> {
    /// Whether the stage has keys, an order for each, and outputs.
    pub open spec fn sound(self) -> Result<(), Seq<char>> {
        text::holds(
            self.keys@.len() > 0 && self.keys@.len() == self.key_orders@.len()
                && self.expressions@.len() > 0,
            "Distinct has no exact key or output expression"@,
        )
    }

    /// The holes of the Apply statement.
    pub open spec fn holes(self) -> Seq<(Seq<char>, Seq<char>)> {
        seq![
            ("expressions"@, text::joined(text::texts(self.expressions@), ","@)),
            ("output_type"@, self.output_type@),
            ("key_select"@, key_selection(text::texts(self.keys@))),
            ("key_column_list"@, key_column_list(self.keys@.len())),
            ("qualified_key_column_list"@, qualified_key_list(self.keys@.len())),
            ("key_order"@, key_order_list(btree::orders(self.key_orders@))),
            ("conflict_keys"@, conflict_key_list(btree::orders(self.key_orders@))),
            ("input"@, self.input@),
            ("output_key"@, self.output_key@),
            ("state"@, self.state@),
            ("group_match"@, group_matching(btree::orders(self.key_orders@))),
            ("bag"@, self.bag@),
            ("touched"@, self.touched@),
        ]
    }
}

/// The statement that admits a bounded prefix of one chunk.
pub open spec fn apply_model(
    sql: PrefixSql,
    chunk: ChunkMeta,
    first_row: i64,
    budget: WorkBudget,
) -> StatementModel {
    StatementModel {
        sql: text::rendered(APPLY_SQL@, sql.holes()),
        arguments: seq![
            SqlModel::BigInt(Some(chunk.stream_id)),
            SqlModel::BigInt(Some(chunk.sequence)),
            SqlModel::BigInt(Some(first_row)),
            SqlModel::BigInt(Some(budget.max_input_rows as i64)),
            SqlModel::BigInt(Some(budget.max_input_bytes as i64)),
        ],
    }
}

/// Moves a prefix of rows into the state, if the plan and the budget allow it.
pub open spec fn apply_query(
    sql: PrefixSql,
    chunk: ChunkMeta,
    first_row: i64,
    budget: WorkBudget,
) -> Result<StatementModel, Seq<char>> {
    text::guarded(
        text::both(
            sql.sound(),
            text::holds(
                budget.max_input_rows <= i64::MAX && budget.max_input_bytes <= i64::MAX,
                "Distinct budget exceeds bigint"@,
            ),
        ),
        apply_model(sql, chunk, first_row, budget),
    )
}

pub fn apply_statement(sql: &PrefixSql, chunk: &ChunkMeta, first_row: i64, budget: &WorkBudget) -> (
    outcome: Result<Statement, String>)
    ensures
        text::agrees_view(outcome, apply_query(*sql, *chunk, first_row, *budget)),
{
    if sql.keys.is_empty() || sql.keys.len() != sql.key_orders.len()
        || sql.expressions.is_empty() {
        return fail("Distinct has no exact key or output expression");
    }
    let count: usize = sql.keys.len();
    let holes = Holes::new().bind("expressions", join(sql.expressions, ",").as_str()).bind(
        "output_type",
        sql.output_type,
    ).bind("key_select", key_select(sql.keys).as_str()).bind(
        "key_column_list",
        key_columns(count).as_str(),
    ).bind("qualified_key_column_list", qualified_keys(count).as_str()).bind(
        "key_order",
        key_order(sql.key_orders).as_str(),
    ).bind("conflict_keys", conflict_keys(sql.key_orders).as_str()).bind("input", sql.input).bind(
        "output_key",
        sql.output_key,
    ).bind("state", sql.state).bind("group_match", group_match(sql.key_orders).as_str()).bind(
        "bag",
        sql.bag,
    ).bind("touched", sql.touched);
    assert(holes@ =~= sql.holes());
    let max_rows: i64 = budget_bigint(budget.max_input_rows, "Distinct budget exceeds bigint")?;
    let max_bytes: i64 = budget_bigint(budget.max_input_bytes, "Distinct budget exceeds bigint")?;
    let statement = Statement::new(render(APPLY_SQL, holes)).bigint(chunk.stream_id).bigint(
        chunk.sequence,
    ).bigint(first_row).bigint(max_rows).bigint(max_bytes);
    assert(statement@ =~= apply_model(*sql, *chunk, first_row, *budget));
    Ok(statement)
}

/// A resource count that must not be negative.
pub open spec fn resource_count(value: Option<i64>, name: Seq<char>) -> Result<u64, Seq<char>> {
    match database::required_value(value, name) {
        Err(message) => Err(message),
        Ok(value) => if value >= 0 {
            Ok(value as u64)
        } else {
            Err("database returned a negative resource count"@)
        },
    }
}

fn required_count(value: Option<i64>, name: &str) -> (outcome: Result<u64, String>)
    ensures
        text::agrees(outcome, resource_count(value, name@)),
{
    let value: i64 = required(value, name)?;
    if value < 0 {
        return fail("database returned a negative resource count");
    }
    Ok(value as u64)
}

/// Whether a status column says that a primitive succeeded.
pub open spec fn status_ok(status: Option<String>, name: Seq<char>, failure: Seq<char>) -> Result<
    (),
    Seq<char>,
> {
    match database::required_value(status, name) {
        Err(message) => Err(message),
        Ok(status) => text::holds(status@ == "ok"@, failure + status@),
    }
}

fn require_ok(status: &Option<String>, name: &str, failure: &str) -> (outcome: Result<(), String>)
    ensures
        text::agrees(outcome, status_ok(*status, name@, failure@)),
{
    match status {
        None => {
            let absent: Option<u64> = None;
            let value: u64 = required(absent, name)?;
            Ok(())
        },
        Some(status) => {
            if !same_text(status.as_str(), "ok") {
                return Err(failure.to_owned().concat(status.as_str()));
            }
            Ok(())
        },
    }
}

/// The summary row of an admitted prefix as the database returned it.
#[derive(Clone, Debug, PartialEq, Eq)]
pub struct ApplyRow {
    pub status: Option<String>,
    pub touched_keys: Option<i64>,
    pub touched_physical: Option<i64>,
    pub next_row: Option<i64>,
    pub input_rows: Option<i64>,
    pub input_bytes: Option<i64>,
    pub mutations: Option<i64>,
}

impl ApplyRow {
    /// The columns of the first returned row, in order.
    pub open spec fn of(rows: Seq<Row>) -> ApplyRow {
        ApplyRow {
            status: session::text(rows, 1),
            touched_keys: session::bigint(rows, 2),
            touched_physical: session::bigint(rows, 3),
            next_row: session::bigint(rows, 4),
            input_rows: session::bigint(rows, 5),
            input_bytes: session::bigint(rows, 6),
            mutations: session::bigint(rows, 7),
        }
    }

    pub fn read(rows: &Vec<Row>) -> (row: ApplyRow)
        ensures
            row == ApplyRow::of(rows@),
    {
        ApplyRow {
            status: session::first_text(rows, 1),
            touched_keys: session::first_bigint(rows, 2),
            touched_physical: session::first_bigint(rows, 3),
            next_row: session::first_bigint(rows, 4),
            input_rows: session::first_bigint(rows, 5),
            input_bytes: session::first_bigint(rows, 6),
            mutations: session::first_bigint(rows, 7),
        }
    }
}

/// What an admitted prefix did, before its representatives are reconciled.
#[derive(Clone, Copy, Debug, PartialEq, Eq, Structural)]
pub struct ApplyFacts {
    pub touched_keys: u64,
    pub next_row: i64,
    pub input_rows: u64,
    pub input_bytes: u64,
    pub mutations: u64,
}

impl ApplyRow {
    pub open spec fn complete(self) -> Result<(), Seq<char>> {
        text::both(
            text::four(
                status_ok(
                    self.status,
                    "Distinct Apply status"@,
                    "Distinct multiplicity transition returned "@,
                ),
                text::checked(resource_count(self.touched_keys, "Distinct touched keys"@)),
                text::checked(
                    resource_count(self.touched_physical, "Distinct touched physical rows"@),
                ),
                text::checked(database::required_value(self.next_row, "Distinct next row"@)),
            ),
            text::three(
                text::checked(resource_count(self.input_rows, "Distinct input rows"@)),
                text::checked(resource_count(self.input_bytes, "Distinct input bytes"@)),
                text::checked(resource_count(self.mutations, "Distinct mutations"@)),
            ),
        )
    }

    /// The facts of an admitted prefix: it touches at most one key and one
    /// physical row per input row.
    pub open spec fn facts(self) -> Result<ApplyFacts, Seq<char>> {
        text::guarded(
            text::both(
                self.complete(),
                text::holds(
                    self.touched_keys->0 <= self.input_rows->0 && self.touched_physical->0
                        <= self.input_rows->0,
                    "Distinct Apply exceeded its per-input state bound"@,
                ),
            ),
            ApplyFacts {
                touched_keys: self.touched_keys->0 as u64,
                next_row: self.next_row->0,
                input_rows: self.input_rows->0 as u64,
                input_bytes: self.input_bytes->0 as u64,
                mutations: self.mutations->0 as u64,
            },
        )
    }
}

/// What an admitted prefix did.
pub open spec fn applied(rows: int, row: ApplyRow) -> Result<ApplyFacts, Seq<char>> {
    if rows != 1 {
        Err("Distinct Apply returned no summary"@)
    } else {
        row.facts()
    }
}

/// Decodes the summary of an admitted prefix.
pub fn decode_apply(rows: usize, row: &ApplyRow) -> (outcome: Result<ApplyFacts, String>)
    ensures
        text::agrees(outcome, applied(rows as int, *row)),
{
    require_summary(rows, "Distinct Apply returned no summary")?;
    require_ok(
        &row.status,
        "Distinct Apply status",
        "Distinct multiplicity transition returned ",
    )?;
    let touched_keys: u64 = required_count(row.touched_keys, "Distinct touched keys")?;
    let touched_physical: u64 = required_count(
        row.touched_physical,
        "Distinct touched physical rows",
    )?;
    let next_row: i64 = required(row.next_row, "Distinct next row")?;
    let input_rows: u64 = required_count(row.input_rows, "Distinct input rows")?;
    let input_bytes: u64 = required_count(row.input_bytes, "Distinct input bytes")?;
    let mutations: u64 = required_count(row.mutations, "Distinct mutations")?;
    if touched_keys > input_rows || touched_physical > input_rows {
        return fail("Distinct Apply exceeded its per-input state bound");
    }
    Ok(ApplyFacts { touched_keys, next_row, input_rows, input_bytes, mutations })
}

/// What one reconciliation reads and writes.
pub struct ReconcileSql<'a> {
    pub state: &'a str,
    pub bag: &'a str,
    pub queue: &'a str,
    pub touched: &'a str,
    /// The canonical key of the row `desired.output_row`.
    pub canonical_key: &'a str,
}

impl<'a> ReconcileSql<'a> {
    pub open spec fn holes(self) -> Seq<(Seq<char>, Seq<char>)> {
        seq![
            ("state"@, self.state@),
            ("bag"@, self.bag@),
            ("queue"@, self.queue@),
            ("touched"@, self.touched@),
            ("canonical_key"@, self.canonical_key@),
        ]
    }
}

/// Queues the effects of the touched keys.
pub open spec fn reconcile_query(sql: ReconcileSql, lsn: u64) -> StatementModel {
    StatementModel {
        sql: text::rendered(RECONCILE_SQL@, sql.holes()),
        arguments: seq![SqlModel::Text(Some(postgres::lsn_text(lsn)))],
    }
}

/// The statement that reconciles the representatives of the touched keys. It
/// runs after the bag mutations of the prefix, and probes one representative
/// per touched group, so a group with many equal physical rows stays bounded.
pub fn reconcile_statement(sql: &ReconcileSql, lsn: u64) -> (statement: Statement)
    ensures
        statement@ == reconcile_query(*sql, lsn),
{
    let holes = Holes::new().bind("state", sql.state).bind("bag", sql.bag).bind(
        "queue",
        sql.queue,
    ).bind("touched", sql.touched).bind("canonical_key", sql.canonical_key);
    assert(holes@ =~= sql.holes());
    Statement::new(render(RECONCILE_SQL, holes)).text(format_lsn(lsn).as_str())
}

/// The summary row of a reconciliation as the database returned it.
#[derive(Clone, Debug, PartialEq, Eq)]
pub struct ReconcileRow {
    pub status: Option<String>,
    pub touched: Option<i64>,
    pub queued_effects: Option<i64>,
    pub state_rows: Option<i64>,
}

impl ReconcileRow {
    /// The columns of the first returned row, in order.
    pub open spec fn of(rows: Seq<Row>) -> ReconcileRow {
        ReconcileRow {
            status: session::text(rows, 1),
            touched: session::bigint(rows, 2),
            queued_effects: session::bigint(rows, 3),
            state_rows: session::bigint(rows, 4),
        }
    }

    pub fn read(rows: &Vec<Row>) -> (row: ReconcileRow)
        ensures
            row == ReconcileRow::of(rows@),
    {
        ReconcileRow {
            status: session::first_text(rows, 1),
            touched: session::first_bigint(rows, 2),
            queued_effects: session::first_bigint(rows, 3),
            state_rows: session::first_bigint(rows, 4),
        }
    }
}

/// What a reconciliation queued and changed.
#[derive(Clone, Copy, Debug, PartialEq, Eq, Structural)]
pub struct ReconcileFacts {
    pub queued_effects: u64,
    pub state_rows: u64,
}

impl ReconcileRow {
    /// The facts of a reconciliation within the input budget.
    pub open spec fn facts(self, budget: WorkBudget) -> Result<ReconcileFacts, Seq<char>> {
        text::guarded(
            text::both(
                text::four(
                    status_ok(
                        self.status,
                        "Distinct reconciliation status"@,
                        "Distinct representative reconciliation returned "@,
                    ),
                    text::checked(resource_count(self.touched, "Distinct reconciled groups"@)),
                    text::checked(
                        resource_count(self.queued_effects, "Distinct reconciled effects"@),
                    ),
                    text::checked(
                        resource_count(self.state_rows, "Distinct reconciliation mutations"@),
                    ),
                ),
                text::holds(
                    self.touched->0 <= budget.max_input_rows,
                    "Distinct reconciliation exceeded its touched-group bound"@,
                ),
            ),
            ReconcileFacts {
                queued_effects: self.queued_effects->0 as u64,
                state_rows: self.state_rows->0 as u64,
            },
        )
    }
}

/// What a reconciliation did.
pub open spec fn reconciled(
    rows: int,
    row: ReconcileRow,
    budget: WorkBudget,
) -> Result<ReconcileFacts, Seq<char>> {
    if rows != 1 {
        Err("Distinct representative reconciliation returned no summary"@)
    } else {
        row.facts(budget)
    }
}

/// Decodes the summary of a reconciliation.
pub fn decode_reconcile(rows: usize, row: &ReconcileRow, budget: &WorkBudget) -> (outcome: Result<
    ReconcileFacts,
    String,
>)
    ensures
        text::agrees(outcome, reconciled(rows as int, *row, *budget)),
{
    require_summary(rows, "Distinct representative reconciliation returned no summary")?;
    require_ok(
        &row.status,
        "Distinct reconciliation status",
        "Distinct representative reconciliation returned ",
    )?;
    let touched: u64 = required_count(row.touched, "Distinct reconciled groups")?;
    let queued_effects: u64 = required_count(row.queued_effects, "Distinct reconciled effects")?;
    let state_rows: u64 = required_count(row.state_rows, "Distinct reconciliation mutations")?;
    if touched > budget.max_input_rows as u64 {
        return fail("Distinct reconciliation exceeded its touched-group bound");
    }
    Ok(ReconcileFacts { queued_effects, state_rows })
}

/// What one admitted and reconciled prefix did.
#[derive(Clone, Copy, Debug, PartialEq, Eq, Structural)]
pub struct PrefixFacts {
    pub usage: WorkUsage,
    pub next_row: i64,
    pub touched_keys: u64,
    pub queued_effects: u64,
    pub state_rows: u64,
}

/// The facts of a prefix: at most a retraction and an insertion are queued per
/// admitted row.
pub open spec fn prefix_of(applied: ApplyFacts, reconciled: ReconcileFacts) -> Result<
    PrefixFacts,
    Seq<char>,
> {
    text::guarded(
        text::both(
            text::holds(
                reconciled.queued_effects <= 2 * applied.input_rows || applied.input_rows * 2
                    > u64::MAX,
                "Distinct queued more than two effects per admitted row"@,
            ),
            text::holds(
                applied.mutations + reconciled.state_rows <= u64::MAX,
                "Distinct state count overflowed"@,
            ),
        ),
        PrefixFacts {
            usage: WorkUsage {
                input_rows: applied.input_rows,
                input_bytes: applied.input_bytes,
                output_rows: 0,
                output_bytes: 0,
            },
            next_row: applied.next_row,
            touched_keys: applied.touched_keys,
            queued_effects: reconciled.queued_effects,
            state_rows: (applied.mutations + reconciled.state_rows) as u64,
        },
    )
}

pub fn prefix_facts(applied: &ApplyFacts, reconciled: &ReconcileFacts) -> (outcome: Result<
    PrefixFacts,
    String,
>)
    ensures
        text::agrees(outcome, prefix_of(*applied, *reconciled)),
{
    let allowed: u128 = 2 * (applied.input_rows as u128);
    if allowed <= u64::MAX as u128 && reconciled.queued_effects as u128 > allowed {
        return fail("Distinct queued more than two effects per admitted row");
    }
    match applied.mutations.checked_add(reconciled.state_rows) {
        None => fail("Distinct state count overflowed"),
        Some(state_rows) => Ok(
            PrefixFacts {
                usage: WorkUsage {
                    input_rows: applied.input_rows,
                    input_bytes: applied.input_bytes,
                    output_rows: 0,
                    output_bytes: 0,
                },
                next_row: applied.next_row,
                touched_keys: applied.touched_keys,
                queued_effects: reconciled.queued_effects,
                state_rows,
            },
        ),
    }
}

/// The query for an effect that was queued and not drained.
pub fn queue_probe(queue: &str) -> (sql: String)
    ensures
        sql@ == "SELECT queue_id FROM "@ + queue@ + " ORDER BY queue_id LIMIT 1"@,
{
    let mut sql = "SELECT queue_id FROM ".to_owned();
    sql.append(queue);
    sql.append(" ORDER BY queue_id LIMIT 1");
    sql
}

/// Apply and frontier need an empty queue.
pub fn require_empty_queue(rows: usize) -> (outcome: Result<(), String>)
    ensures
        text::agrees(
            outcome,
            text::holds(rows == 0, "Distinct Apply/frontier found undrained effects"@),
        ),
{
    if rows != 0 {
        return fail("Distinct Apply/frontier found undrained effects");
    }
    Ok(())
}

/// The query for touched-key scratch state that outlived its transaction.
pub fn touched_probe(touched: &str) -> (sql: String)
    ensures
        sql@ == "SELECT group_state_id FROM "@ + touched@ + " ORDER BY group_state_id LIMIT 1"@,
{
    let mut sql = "SELECT group_state_id FROM ".to_owned();
    sql.append(touched);
    sql.append(" ORDER BY group_state_id LIMIT 1");
    sql
}

/// Every step starts without touched-key scratch state.
pub fn require_empty_touched(rows: usize) -> (outcome: Result<(), String>)
    ensures
        text::agrees(
            outcome,
            text::holds(rows == 0, "Distinct found committed touched-key scratch state"@),
        ),
{
    if rows != 0 {
        return fail("Distinct found committed touched-key scratch state");
    }
    Ok(())
}

/// What one drain reads and writes.
pub struct DrainSql<'a> {
    pub queue: &'a str,
    pub output_payload: &'a str,
    /// The canonical key of the row `selected.output_row`.
    pub canonical_key: &'a str,
}

impl<'a> DrainSql<'a> {
    pub open spec fn holes(self) -> Seq<(Seq<char>, Seq<char>)> {
        seq![
            ("queue"@, self.queue@),
            ("output_payload"@, self.output_payload@),
            ("canonical_key"@, self.canonical_key@),
        ]
    }
}

/// The statement that drains one bounded page of queued effects.
pub open spec fn drain_model(sql: DrainSql, budget: WorkBudget, output: OutputState) -> Result<
    StatementModel,
    Seq<char>,
> {
    text::guarded(
        text::holds(
            budget.max_output_rows <= i64::MAX && budget.max_output_bytes <= i64::MAX,
            "Distinct budget exceeds bigint"@,
        ),
        StatementModel {
            sql: text::rendered(DRAIN_SQL@, sql.holes()),
            arguments: seq![
                SqlModel::BigInt(Some(output.stream_id)),
                SqlModel::BigInt(Some(output.next_chunk_seq)),
                SqlModel::BigInt(
                    Some(stream::smaller(budget.max_output_rows as i64, output.target_rows)),
                ),
                SqlModel::BigInt(
                    Some(stream::smaller(budget.max_output_bytes as i64, output.target_bytes)),
                ),
            ],
        },
    )
}

pub fn drain_statement(sql: &DrainSql, budget: &WorkBudget, output: &OutputState) -> (outcome:
    Result<Statement, String>)
    ensures
        text::agrees_view(outcome, drain_model(*sql, *budget, *output)),
{
    let max_rows: i64 = budget_bigint(budget.max_output_rows, "Distinct budget exceeds bigint")?;
    let max_bytes: i64 = budget_bigint(budget.max_output_bytes, "Distinct budget exceeds bigint")?;
    let holes = Holes::new().bind("queue", sql.queue).bind(
        "output_payload",
        sql.output_payload,
    ).bind("canonical_key", sql.canonical_key);
    assert(holes@ =~= sql.holes());
    let statement = Statement::new(render(DRAIN_SQL, holes)).bigint(output.stream_id).bigint(
        output.next_chunk_seq,
    ).bigint(minimum(max_rows, output.target_rows)).bigint(minimum(max_bytes, output.target_bytes));
    assert(statement@ =~= drain_model(*sql, *budget, *output)->Ok_0);
    Ok(statement)
}

/// The summary row of a drain as the database returned it.
#[derive(Clone, Debug, PartialEq, Eq)]
pub struct DrainRow {
    pub emitted: Option<i64>,
    pub emitted_bytes: Option<i64>,
    pub one_causal_lsn: Option<bool>,
    pub canonical_keys: Option<bool>,
    pub causal_lsn: Option<String>,
    pub inserted: Option<i64>,
    pub removed: Option<i64>,
    pub remaining: Option<i64>,
}

impl DrainRow {
    /// The columns of the first returned row, in order.
    pub open spec fn of(rows: Seq<Row>) -> DrainRow {
        DrainRow {
            emitted: session::bigint(rows, 1),
            emitted_bytes: session::bigint(rows, 2),
            one_causal_lsn: session::boolean(rows, 3),
            canonical_keys: session::boolean(rows, 4),
            causal_lsn: session::text(rows, 5),
            inserted: session::bigint(rows, 6),
            removed: session::bigint(rows, 7),
            remaining: session::bigint(rows, 8),
        }
    }

    pub fn read(rows: &Vec<Row>) -> (row: DrainRow)
        ensures
            row == DrainRow::of(rows@),
    {
        DrainRow {
            emitted: session::first_bigint(rows, 1),
            emitted_bytes: session::first_bigint(rows, 2),
            one_causal_lsn: session::first_boolean(rows, 3),
            canonical_keys: session::first_boolean(rows, 4),
            causal_lsn: session::first_text(rows, 5),
            inserted: session::first_bigint(rows, 6),
            removed: session::first_bigint(rows, 7),
            remaining: session::first_bigint(rows, 8),
        }
    }
}

/// What a drain emitted, and what it left in the queue.
#[derive(Clone, Copy, Debug, PartialEq, Eq, Structural)]
pub struct DrainFacts {
    pub usage: WorkUsage,
    pub state_rows: u64,
    pub remaining_effects: u64,
    pub append: OutputAppend,
}

/// The LSN of a required text column.
pub open spec fn required_lsn(value: Option<String>, name: Seq<char>) -> Result<u64, Seq<char>> {
    match database::required_value(value, name) {
        Err(message) => Err(message),
        Ok(text) => match postgres::lsn_value(text@) {
            Some(lsn) => Ok(lsn as u64),
            None => Err("malformed LSN "@ + postgres::quoted(text@)),
        },
    }
}

fn decode_lsn(value: &Option<String>, name: &str) -> (outcome: Result<u64, String>)
    ensures
        text::agrees(outcome, required_lsn(*value, name@)),
{
    match value {
        Some(text) => parse_lsn(text.as_str()),
        None => {
            let absent: Option<u64> = None;
            required(absent, name)
        },
    }
}

impl DrainRow {
    pub open spec fn complete(self) -> Result<(), Seq<char>> {
        text::both(
            text::four(
                text::checked(resource_count(self.emitted, "Distinct emitted effects"@)),
                text::checked(resource_count(self.emitted_bytes, "Distinct emitted bytes"@)),
                text::checked(
                    database::required_value(self.one_causal_lsn, "Distinct causal LSN summary"@),
                ),
                text::checked(
                    database::required_value(
                        self.canonical_keys,
                        "Distinct canonical effect keys"@,
                    ),
                ),
            ),
            text::four(
                text::checked(required_lsn(self.causal_lsn, "Distinct causal LSN"@)),
                text::checked(resource_count(self.inserted, "Distinct payload inserts"@)),
                text::checked(resource_count(self.removed, "Distinct queue deletes"@)),
                text::checked(resource_count(self.remaining, "Distinct remaining effects"@)),
            ),
        )
    }

    /// Whether the page has one causal LSN and canonical keys, and every
    /// effect that left the queue was stored.
    pub open spec fn consistent(self) -> bool {
        self.emitted->0 > 0 && self.emitted_bytes->0 > 0 && self.one_causal_lsn->0
            && self.canonical_keys->0 && self.inserted->0 == self.emitted->0 && self.removed->0
            == self.emitted->0
    }

    pub open spec fn facts(self, output: OutputState) -> Result<DrainFacts, Seq<char>> {
        text::guarded(
            text::both(
                self.complete(),
                text::holds(
                    self.consistent(),
                    "Distinct bounded effect Drain is inconsistent"@,
                ),
            ),
            DrainFacts {
                usage: WorkUsage {
                    input_rows: 0,
                    input_bytes: 0,
                    output_rows: self.emitted->0 as u64,
                    output_bytes: self.emitted_bytes->0 as u64,
                },
                state_rows: self.removed->0 as u64,
                remaining_effects: self.remaining->0 as u64,
                append: OutputAppend {
                    target: OutputAppendTarget::New { sequence: output.next_chunk_seq },
                    rows: self.emitted->0 as u64,
                    bytes: self.emitted_bytes->0 as u64,
                    lsn: required_lsn(self.causal_lsn, "Distinct causal LSN"@)->Ok_0,
                },
            },
        )
    }
}

/// What a drain did.
pub open spec fn drained(
    rows: int,
    row: DrainRow,
    output: OutputState,
) -> Result<DrainFacts, Seq<char>> {
    if rows != 1 {
        Err("Distinct Drain returned no summary"@)
    } else {
        row.facts(output)
    }
}

/// Decodes the summary of a drain.
pub fn decode_drain(rows: usize, row: &DrainRow, output: &OutputState) -> (outcome: Result<
    DrainFacts,
    String,
>)
    ensures
        text::agrees(outcome, drained(rows as int, *row, *output)),
{
    require_summary(rows, "Distinct Drain returned no summary")?;
    let emitted: u64 = required_count(row.emitted, "Distinct emitted effects")?;
    let emitted_bytes: u64 = required_count(row.emitted_bytes, "Distinct emitted bytes")?;
    let one_causal_lsn = required(row.one_causal_lsn, "Distinct causal LSN summary")?;
    let canonical_keys = required(row.canonical_keys, "Distinct canonical effect keys")?;
    let causal_lsn: u64 = decode_lsn(&row.causal_lsn, "Distinct causal LSN")?;
    let inserted: u64 = required_count(row.inserted, "Distinct payload inserts")?;
    let removed: u64 = required_count(row.removed, "Distinct queue deletes")?;
    let remaining: u64 = required_count(row.remaining, "Distinct remaining effects")?;
    if emitted == 0 || emitted_bytes == 0 || !one_causal_lsn || !canonical_keys || inserted
        != emitted || removed != emitted {
        return fail("Distinct bounded effect Drain is inconsistent");
    }
    Ok(
        DrainFacts {
            usage: WorkUsage {
                input_rows: 0,
                input_bytes: 0,
                output_rows: emitted,
                output_bytes: emitted_bytes,
            },
            state_rows: removed,
            remaining_effects: remaining,
            append: OutputAppend {
                target: OutputAppendTarget::New { sequence: output.next_chunk_seq },
                rows: emitted,
                bytes: emitted_bytes,
                lsn: causal_lsn,
            },
        },
    )
}

} // verus!
