//! The order in which a group is rebuilt, and the comparisons of its keys.

use vstd::prelude::*;

use crate::execution::btree::{self, nulls_text, BtreeOrder, OrderModel};
use crate::planner::{AggregateExpr, SortGroupExpr};
use crate::postgres::{self, quote_identifier};
use crate::predicate::{between, bracketed};
use crate::text::{self, fail, join, listed, unsigned_text};

verus! {

/// A null-safe comparison of two expressions by an equality operator: both
/// are NULL, or neither is and the operator says that they are equal.
pub open spec fn null_safe(left: Seq<char>, right: Seq<char>, equality: Seq<char>) -> Seq<char> {
    let missing = "("@ + (left + " IS NULL"@ + " AND "@ + (right + " IS NULL"@)) + ")"@;
    let equal = "("@ + (left + " IS NOT NULL"@ + "\n            AND "@ + (right + " IS NOT NULL"@)
        + "\n            AND "@ + (left + " "@ + equality + " "@ + right)) + ")"@;
    "(\n           "@ + (missing + "\n           OR\n           "@ + equal) + "\n         )"@
}

pub fn aggregate_null_safe_equality(left: &str, right: &str, equality: &str) -> (sql: String)
    ensures
        sql@ == null_safe(left@, right@, equality@),
{
    let missing = between(
        left.to_owned().concat(" IS NULL").as_str(),
        " AND ",
        right.to_owned().concat(" IS NULL").as_str(),
    );
    let present = between(
        left.to_owned().concat(" IS NOT NULL").as_str(),
        "\n            AND ",
        right.to_owned().concat(" IS NOT NULL").as_str(),
    );
    let mut compared = left.to_owned();
    compared.append(" ");
    compared.append(equality);
    compared.append(" ");
    compared.append(right);
    let equal = between(present.as_str(), "\n            AND ", compared.as_str());
    let either = between(
        bracketed(missing.as_str()).as_str(),
        "\n           OR\n           ",
        bracketed(equal.as_str()).as_str(),
    );
    between("(\n           ", either.as_str(), "\n         )")
}

/// The comparison of one group key of two rows.
pub open spec fn group_key_match(
    left: Seq<char>,
    right: Seq<char>,
    order: OrderModel,
    index: int,
) -> Seq<char> {
    let column = postgres::quoted("group_"@ + text::decimal(index + 1));
    null_safe(left + "."@ + column, right + "."@ + column, order.equality_operator)
}

/// The predicate that two rows belong to one group.
pub open spec fn group_match(left: Seq<char>, right: Seq<char>, orders: Seq<OrderModel>) -> Seq<
    char,
> {
    if orders.len() == 0 {
        left + ".global_group="@ + right + ".global_group"@
    } else {
        text::joined(
            Seq::new(
                orders.len(),
                |index: int| group_key_match(left, right, orders[index], index),
            ),
            " AND "@,
        )
    }
}

pub fn aggregate_group_match(left: &str, right: &str, orders: &Vec<BtreeOrder>) -> (sql: String)
    ensures
        sql@ == group_match(left@, right@, btree::orders(orders@)),
{
    if orders.is_empty() {
        let mut sql = left.to_owned();
        sql.append(".global_group=");
        sql.append(right);
        sql.append(".global_group");
        return sql;
    }
    let list = listed(
        orders.len(),
        |index: usize| -> (item: String)
            requires
                index < orders.len(),
            ensures
                item@ == group_key_match(left@, right@, orders@[index as int]@, index as int)
            {
                let name = "group_".to_owned().concat(unsigned_text((index + 1) as u64).as_str());
                let column = quote_identifier(name.as_str());
                let mut left_key = left.to_owned();
                left_key.append(".");
                left_key.append(column.as_str());
                let mut right_key = right.to_owned();
                right_key.append(".");
                right_key.append(column.as_str());
                aggregate_null_safe_equality(
                    left_key.as_str(),
                    right_key.as_str(),
                    orders[index].equality_operator.as_str(),
                )
            },
    );
    proof {
        let models = btree::orders(orders@);
        assert(text::texts(list@) =~= Seq::new(
            models.len(),
            |index: int| group_key_match(left@, right@, models[index], index),
        ));
    }
    join(&list, " AND ")
}

/// Whether two keys order the same value by the same equality.
pub open spec fn same_value(left: SortGroupExpr, right: SortGroupExpr) -> bool {
    left.expr == right.expr && left.type_ == right.type_ && left.equality_operator_oid
        == right.equality_operator_oid
}

pub fn aggregate_same_value(left: &SortGroupExpr, right: &SortGroupExpr) -> (same: bool)
    ensures
        same == same_value(*left, *right),
{
    left.expr == right.expr && left.type_ == right.type_ && left.equality_operator_oid
        == right.equality_operator_oid
}

/// Whether a key orders a value that a list of keys also orders.
pub open spec fn covered(key: SortGroupExpr, keys: Seq<SortGroupExpr>) -> bool {
    exists|index: int| 0 <= index < keys.len() && same_value(key, #[trigger] keys[index])
}

fn is_covered(key: &SortGroupExpr, keys: &Vec<SortGroupExpr>) -> (is: bool)
    ensures
        is == covered(*key, keys@),
{
    let mut index: usize = 0;
    while index < keys.len()
        invariant
            index <= keys.len(),
            forall|k: int| 0 <= k < index ==> !same_value(*key, #[trigger] keys@[k]),
        decreases keys.len() - index,
    {
        if aggregate_same_value(key, &keys[index]) {
            assert(same_value(*key, keys@[index as int]));
            return true;
        }
        index = index + 1;
    }
    false
}

/// One key of a rebuild order and the bag column that holds it.
#[derive(Clone, Debug, PartialEq, Eq)]
pub struct AggregateOrderKey {
    pub expression: SortGroupExpr,
    pub column: String,
}

/// One key of a rebuild order as a mathematical value.
#[verifier::ext_equal]
pub struct OrderKeyModel {
    pub expression: SortGroupExpr,
    pub column: Seq<char>,
}

impl View for AggregateOrderKey {
    type V = OrderKeyModel;

    open spec fn view(&self) -> OrderKeyModel {
        OrderKeyModel { expression: self.expression, column: self.column@ }
    }
}

pub open spec fn order_keys(list: Seq<AggregateOrderKey>) -> Seq<OrderKeyModel> {
    Seq::new(list.len(), |index: int| list[index]@)
}

/// The bag column of one order or distinct key of an aggregate.
pub open spec fn value_name(ordinal: int, role: Seq<char>, index: int) -> Seq<char> {
    "agg_"@ + text::decimal(ordinal) + "_"@ + role + "_"@ + text::decimal(index + 1)
}

pub fn value_column(ordinal: usize, role: &str, index: usize) -> (name: String)
    requires
        index < usize::MAX,
    ensures
        name@ == value_name(ordinal as int, role@, index as int),
{
    let mut name = "agg_".to_owned();
    name.append(unsigned_text(ordinal as u64).as_str());
    name.append("_");
    name.append(role);
    name.append("_");
    name.append(unsigned_text((index + 1) as u64).as_str());
    name
}

/// The keys of `ORDER BY`, in order.
pub open spec fn ordered_keys(ordinal: int, order_by: Seq<SortGroupExpr>) -> Seq<OrderKeyModel> {
    Seq::new(
        order_by.len(),
        |index: int|
            OrderKeyModel {
                expression: order_by[index],
                column: value_name(ordinal, "order"@, index),
            },
    )
}

/// The distinct keys among the first `count` that no order key covers.
pub open spec fn uncovered_keys(
    ordinal: int,
    distinct: Seq<SortGroupExpr>,
    order_by: Seq<SortGroupExpr>,
    count: nat,
) -> Seq<OrderKeyModel>
    decreases count,
{
    if count == 0 {
        Seq::empty()
    } else {
        let index = (count - 1) as int;
        let earlier = uncovered_keys(ordinal, distinct, order_by, (count - 1) as nat);
        if exists|k: int|
            0 <= k < order_by.len() && same_value(#[trigger] order_by[k], distinct[index]) {
            earlier
        } else {
            earlier.push(
                OrderKeyModel {
                    expression: distinct[index],
                    column: value_name(ordinal, "distinct"@, index),
                },
            )
        }
    }
}

/// The order in which an aggregate folds its input: its order keys, then the
/// distinct keys that they leave open. An order key of a `DISTINCT` aggregate
/// must itself be one of its distinct keys.
pub open spec fn effective_order(ordinal: int, aggregate: AggregateExpr) -> Result<
    Seq<OrderKeyModel>,
    Seq<char>,
> {
    let distinct = aggregate.distinct@;
    let order_by = aggregate.order_by@;
    text::guarded(
        text::holds(
            distinct.len() == 0 || forall|index: int|
                0 <= index < order_by.len() ==> covered(#[trigger] order_by[index], distinct),
            "Aggregate DISTINCT ordering is not covered by its DISTINCT tuple"@,
        ),
        ordered_keys(ordinal, order_by) + uncovered_keys(
            ordinal,
            distinct,
            order_by,
            distinct.len(),
        ),
    )
}

fn covers(keys: &Vec<SortGroupExpr>, key: &SortGroupExpr) -> (is: bool)
    ensures
        is == exists|k: int| 0 <= k < keys.len() && same_value(#[trigger] keys@[k], *key),
{
    let mut index: usize = 0;
    while index < keys.len()
        invariant
            index <= keys.len(),
            forall|k: int| 0 <= k < index ==> !same_value(#[trigger] keys@[k], *key),
        decreases keys.len() - index,
    {
        if aggregate_same_value(&keys[index], key) {
            assert(same_value(keys@[index as int], *key));
            return true;
        }
        index = index + 1;
    }
    false
}

fn orders_are_covered(aggregate: &AggregateExpr) -> (are: bool)
    ensures
        are == forall|index: int|
            0 <= index < aggregate.order_by@.len() ==> covered(
                #[trigger] aggregate.order_by@[index],
                aggregate.distinct@,
            ),
{
    let mut index: usize = 0;
    while index < aggregate.order_by.len()
        invariant
            index <= aggregate.order_by.len(),
            forall|k: int|
                0 <= k < index ==> covered(
                    #[trigger] aggregate.order_by@[k],
                    aggregate.distinct@,
                ),
        decreases aggregate.order_by.len() - index,
    {
        if !is_covered(&aggregate.order_by[index], &aggregate.distinct) {
            assert(!covered(aggregate.order_by@[index as int], aggregate.distinct@));
            return false;
        }
        index = index + 1;
    }
    true
}

pub fn aggregate_effective_order(aggregate_ordinal: usize, aggregate: &AggregateExpr) -> (outcome:
    Result<Vec<AggregateOrderKey>, String>)
    ensures
        match (outcome, effective_order(aggregate_ordinal as int, *aggregate)) {
            (Ok(keys), Ok(expected)) => order_keys(keys@) == expected,
            (Err(error), Err(message)) => error@ == message,
            _ => false,
        },
{
    if !aggregate.distinct.is_empty() && !orders_are_covered(aggregate) {
        return fail("Aggregate DISTINCT ordering is not covered by its DISTINCT tuple");
    }
    let ghost ordinal = aggregate_ordinal as int;
    let ghost order_by = aggregate.order_by@;
    let ghost distinct = aggregate.distinct@;
    let mut keys: Vec<AggregateOrderKey> = Vec::new();
    let mut index: usize = 0;
    while index < aggregate.order_by.len()
        invariant
            index <= aggregate.order_by.len(),
            order_by == aggregate.order_by@,
            ordinal == aggregate_ordinal,
            order_keys(keys@) =~= ordered_keys(ordinal, order_by).take(index as int),
        decreases aggregate.order_by.len() - index,
    {
        let ghost before = keys@;
        keys.push(
            AggregateOrderKey {
                expression: aggregate.order_by[index],
                column: value_column(aggregate_ordinal, "order", index),
            },
        );
        proof {
            assert(order_keys(keys@) =~= order_keys(before).push(keys@[index as int]@));
        }
        index = index + 1;
    }
    index = 0;
    proof {
        assert(ordered_keys(ordinal, order_by).take(order_by.len() as int) =~= ordered_keys(
            ordinal,
            order_by,
        ));
        assert(order_keys(keys@) =~= ordered_keys(ordinal, order_by) + uncovered_keys(
            ordinal,
            distinct,
            order_by,
            0,
        ));
    }
    while index < aggregate.distinct.len()
        invariant
            index <= aggregate.distinct.len(),
            order_by == aggregate.order_by@,
            distinct == aggregate.distinct@,
            ordinal == aggregate_ordinal,
            order_keys(keys@) =~= ordered_keys(ordinal, order_by) + uncovered_keys(
                ordinal,
                distinct,
                order_by,
                index as nat,
            ),
        decreases aggregate.distinct.len() - index,
    {
        let ghost before = keys@;
        if !covers(&aggregate.order_by, &aggregate.distinct[index]) {
            keys.push(
                AggregateOrderKey {
                    expression: aggregate.distinct[index],
                    column: value_column(aggregate_ordinal, "distinct", index),
                },
            );
            proof {
                assert(order_keys(keys@) =~= order_keys(before).push(keys@.last()@));
            }
        }
        index = index + 1;
    }
    Ok(keys)
}

/// One rebuild key: its bag column and its B-tree order.
#[derive(Debug, PartialEq, Eq)]
pub struct RebuildKey {
    pub column: String,
    pub order: BtreeOrder,
}

/// One rebuild key as a mathematical value.
#[verifier::ext_equal]
pub struct RebuildKeyModel {
    pub column: Seq<char>,
    pub order: OrderModel,
}

impl View for RebuildKey {
    type V = RebuildKeyModel;

    open spec fn view(&self) -> RebuildKeyModel {
        RebuildKeyModel { column: self.column@, order: self.order@ }
    }
}

pub open spec fn rebuild_keys(list: Seq<RebuildKey>) -> Seq<RebuildKeyModel> {
    Seq::new(list.len(), |index: int| list[index]@)
}

/// The work column that remembers one key of the last folded row.
pub open spec fn cursor_name(index: int) -> Seq<char> {
    postgres::quoted("cursor_order_"@ + text::decimal(index + 1))
}

pub fn cursor_column(index: usize) -> (sql: String)
    requires
        index < usize::MAX,
    ensures
        sql@ == cursor_name(index as int),
{
    let name = "cursor_order_".to_owned().concat(unsigned_text((index + 1) as u64).as_str());
    quote_identifier(name.as_str())
}

/// The key of a row of the bag.
pub open spec fn bag_key(key: RebuildKeyModel) -> Seq<char> {
    "bag."@ + postgres::quoted(key.column)
}

/// The key of the last folded row.
pub open spec fn work_key(index: int) -> Seq<char> {
    "work."@ + cursor_name(index)
}

/// Rows whose key lies behind a cursor that is not NULL.
pub open spec fn behind_value(key: RebuildKeyModel, index: int) -> Seq<char> {
    work_key(index) + " IS NOT NULL"@ + "\n              AND "@ + (bag_key(key)
        + " IS NOT NULL"@) + "\n              AND "@ + (work_key(index) + " "@
        + key.order.sort_operator + " "@ + bag_key(key))
}

/// Rows with a key behind a NULL cursor, where NULL comes first.
pub open spec fn behind_null(key: RebuildKeyModel, index: int) -> Seq<char> {
    work_key(index) + " IS NULL"@ + "\n                  AND "@ + (bag_key(key)
        + " IS NOT NULL"@)
}

/// Rows with a NULL key behind a cursor, where NULL comes last.
pub open spec fn before_null(key: RebuildKeyModel, index: int) -> Seq<char> {
    work_key(index) + " IS NOT NULL"@ + "\n                  AND "@ + (bag_key(key)
        + " IS NULL"@)
}

/// Equality of one key with the cursor.
pub open spec fn key_equal(key: RebuildKeyModel, index: int) -> Seq<char> {
    null_safe(bag_key(key), work_key(index), key.order.equality_operator)
}

/// Equality of each key with the cursor, in order.
pub open spec fn key_equalities(keys: Seq<RebuildKeyModel>) -> Seq<Seq<char>> {
    Seq::new(keys.len(), |index: int| key_equal(keys[index], index))
}

/// The condition that every earlier key equals the cursor.
pub open spec fn equal_prefix(keys: Seq<RebuildKeyModel>, index: int) -> Seq<char> {
    text::joined(key_equalities(keys).take(index), " AND "@)
}

/// What fills the two ranges of one key: the text in front of the condition,
/// and the condition that a row lies behind the cursor in this key.
pub open spec fn range_holes(keys: Seq<RebuildKeyModel>, index: int) -> Seq<
    (Seq<char>, Seq<char>),
> {
    let key = keys[index];
    seq![
        (
            if index == 0 {
                "(\n              "@
            } else {
                " AND \n              "@
            },
            behind_value(key, index),
        ),
        (
            if index == 0 {
                "(\n                  "@
            } else {
                " AND \n                  "@
            },
            if key.order.nulls_first {
                behind_null(key, index)
            } else {
                before_null(key, index)
            },
        ),
    ]
}

/// One range predicate: the rows that differ from the cursor first in key
/// `position / 2`, by a value behind it or by a NULL on its far side.
pub open spec fn range_predicate(keys: Seq<RebuildKeyModel>, position: int) -> Seq<char> {
    let index = position / 2;
    let (lead, behind) = range_holes(keys, index)[position % 2];
    if index == 0 {
        lead + behind + ")"@
    } else {
        "("@ + (equal_prefix(keys, index) + lead + behind) + ")"@
    }
}

/// The rows that equal the cursor in every key, behind the last folded row.
pub open spec fn behind_row() -> Seq<char> {
    "bag.row_id"@ + " "@ + ">"@ + " "@ + "work.cursor_row_id"@
}

/// The range predicates whose union is everything behind the cursor.
pub open spec fn range_predicates(keys: Seq<RebuildKeyModel>) -> Seq<Seq<char>> {
    if keys.len() == 0 {
        seq![behind_row()]
    } else {
        Seq::new(2 * keys.len(), |position: int| range_predicate(keys, position)).push(
            "("@ + (text::joined(key_equalities(keys), " AND "@) + " AND "@ + behind_row())
                + ")"@,
        )
    }
}

/// The order of one key of the bag.
pub open spec fn key_ordering(key: RebuildKeyModel) -> Seq<char> {
    "bag."@ + postgres::quoted(key.column) + " USING "@ + key.order.sort_operator + " NULLS "@
        + btree::nulls_word(key.order.nulls_first)
}

/// The total order of the bag: the keys, then the row.
pub open spec fn order_list(keys: Seq<RebuildKeyModel>) -> Seq<char> {
    text::joined(
        Seq::new(keys.len(), |index: int| key_ordering(keys[index])).push("bag.row_id"@),
        ","@,
    )
}

/// The total order of a group and the ranges behind its cursor.
pub struct AggregateRebuildOrder {
    pub columns: Vec<String>,
    pub order_sql: String,
    pub range_predicates: Vec<String>,
}

pub fn key_ordering_sql(column: &str, order: &BtreeOrder) -> (sql: String)
    ensures
        sql@ == key_ordering(RebuildKeyModel { column: column@, order: order@ }),
{
    let mut sql = "bag.".to_owned();
    sql.append(quote_identifier(column).as_str());
    sql.append(" USING ");
    sql.append(order.sort_operator.as_str());
    sql.append(" NULLS ");
    sql.append(nulls_text(order.nulls_first));
    sql
}

fn key_equal_sql(key: &RebuildKey, index: usize) -> (sql: String)
    requires
        index < usize::MAX,
    ensures
        sql@ == key_equal(key@, index as int),
{
    aggregate_null_safe_equality(
        bag_key_sql(key).as_str(),
        work_key_sql(index).as_str(),
        key.order.equality_operator.as_str(),
    )
}

fn bind_range(index: usize, equal: &Vec<String>, behind: &str, wide: bool, keys: Ghost<
    Seq<RebuildKeyModel>,
>) -> (sql: String)
    requires
        index < keys@.len(),
        text::texts(equal@) == key_equalities(keys@).take(index as int),
        behind@ == range_holes(keys@, index as int)[if wide {
            1
        } else {
            0
        }].1,
    ensures
        sql@ == range_predicate(
            keys@,
            2 * index + if wide {
                1int
            } else {
                0int
            },
        ),
{
    let ghost position = 2 * index + if wide {
        1int
    } else {
        0int
    };
    assert(position / 2 == index as int);
    if index == 0 {
        let lead = if wide {
            "(\n                  "
        } else {
            "(\n              "
        };
        return between(lead, behind, ")");
    }
    let lead = if wide {
        " AND \n                  "
    } else {
        " AND \n              "
    };
    bracketed(between(join(equal, " AND ").as_str(), lead, behind).as_str())
}

fn bag_key_sql(key: &RebuildKey) -> (sql: String)
    ensures
        sql@ == bag_key(key@),
{
    "bag.".to_owned().concat(quote_identifier(key.column.as_str()).as_str())
}

fn work_key_sql(index: usize) -> (sql: String)
    requires
        index < usize::MAX,
    ensures
        sql@ == work_key(index as int),
{
    "work.".to_owned().concat(cursor_column(index).as_str())
}

fn behind_value_sql(key: &RebuildKey, index: usize) -> (sql: String)
    requires
        index < usize::MAX,
    ensures
        sql@ == behind_value(key@, index as int),
{
    let bag = bag_key_sql(key);
    let work = work_key_sql(index);
    let mut compared = work.as_str().to_owned();
    compared.append(" ");
    compared.append(key.order.sort_operator.as_str());
    compared.append(" ");
    compared.append(bag.as_str());
    let present = between(
        work.concat(" IS NOT NULL").as_str(),
        "\n              AND ",
        bag.concat(" IS NOT NULL").as_str(),
    );
    between(present.as_str(), "\n              AND ", compared.as_str())
}

fn behind_null_sql(key: &RebuildKey, index: usize) -> (sql: String)
    requires
        index < usize::MAX,
    ensures
        sql@ == (if key@.order.nulls_first {
            behind_null(key@, index as int)
        } else {
            before_null(key@, index as int)
        }),
{
    let bag = bag_key_sql(key);
    let work = work_key_sql(index);
    if key.order.nulls_first {
        between(
            work.concat(" IS NULL").as_str(),
            "\n                  AND ",
            bag.concat(" IS NOT NULL").as_str(),
        )
    } else {
        between(
            work.concat(" IS NOT NULL").as_str(),
            "\n                  AND ",
            bag.concat(" IS NULL").as_str(),
        )
    }
}

fn behind_row_sql() -> (sql: String)
    ensures
        sql@ == behind_row(),
{
    let mut sql = "bag.row_id".to_owned();
    sql.append(" ");
    sql.append(">");
    sql.append(" ");
    sql.append("work.cursor_row_id");
    sql
}

/// Builds the order of a group and the ranges behind its cursor.
pub fn aggregate_rebuild_order(keys: &Vec<RebuildKey>) -> (order: AggregateRebuildOrder)
    requires
        keys.len() * 2 < usize::MAX,
    ensures
        text::texts(order.columns@) == Seq::new(
            keys@.len(),
            |index: int| keys@[index].column@,
        ),
        order.order_sql@ == (if keys@.len() == 0 {
            "bag.row_id"@
        } else {
            order_list(rebuild_keys(keys@))
        }),
        text::texts(order.range_predicates@) == range_predicates(rebuild_keys(keys@)),
{
    let ghost models = rebuild_keys(keys@);
    if keys.is_empty() {
        let order = AggregateRebuildOrder {
            columns: Vec::new(),
            order_sql: "bag.row_id".to_owned(),
            range_predicates: vec![behind_row_sql()],
        };
        assert(text::texts(order.columns@) =~= Seq::new(
            keys@.len(),
            |index: int| keys@[index].column@,
        ));
        assert(text::texts(order.range_predicates@) =~= range_predicates(models));
        return order;
    }
    let mut columns: Vec<String> = Vec::new();
    let mut list: Vec<String> = Vec::new();
    let mut ranges: Vec<String> = Vec::new();
    let mut equal: Vec<String> = Vec::new();
    let mut index: usize = 0;
    assert(text::texts(equal@) =~= key_equalities(models).take(0));
    while index < keys.len()
        invariant
            index <= keys.len(),
            keys.len() * 2 < usize::MAX,
            models == rebuild_keys(keys@),
            columns.len() == index,
            list.len() == index,
            ranges.len() == 2 * index,
            forall|k: int| 0 <= k < index ==> #[trigger] columns@[k]@ == keys@[k].column@,
            forall|k: int| 0 <= k < index ==> #[trigger] list@[k]@ == key_ordering(models[k]),
            forall|k: int|
                0 <= k < 2 * index ==> #[trigger] ranges@[k]@ == range_predicate(models, k),
            text::texts(equal@) == key_equalities(models).take(index as int),
        decreases keys.len() - index,
    {
        list.push(key_ordering_sql(keys[index].column.as_str(), &keys[index].order));
        let value = behind_value_sql(&keys[index], index);
        let behind = bind_range(index, &equal, value.as_str(), false, Ghost(models));
        let null = behind_null_sql(&keys[index], index);
        let nulls = bind_range(index, &equal, null.as_str(), true, Ghost(models));
        proof {
            let first = 2 * index as int;
            assert(first / 2 == index && first % 2 == 0) by (nonlinear_arith)
                requires
                    first == 2 * index as int,
            ;
            assert((first + 1) / 2 == index && (first + 1) % 2 == 1) by (nonlinear_arith)
                requires
                    first == 2 * index as int,
            ;
            assert(behind@ == range_predicate(models, first));
            assert(nulls@ == range_predicate(models, first + 1));
        }
        ranges.push(behind);
        ranges.push(nulls);
        let ghost before = equal@;
        equal.push(key_equal_sql(&keys[index], index));
        columns.push(keys[index].column.clone());
        proof {
            assert(text::texts(equal@) =~= text::texts(before).push(equal@[index as int]@));
            assert(key_equalities(models).take(index + 1) =~= key_equalities(models).take(
                index as int,
            ).push(key_equalities(models)[index as int]));
        }
        index = index + 1;
    }
    list.push("bag.row_id".to_owned());
    let last = between(join(&equal, " AND ").as_str(), " AND ", behind_row_sql().as_str());
    ranges.push(bracketed(last.as_str()));
    proof {
        assert(key_equalities(models).take(models.len() as int) =~= key_equalities(models));
        assert(text::texts(columns@) =~= Seq::new(keys@.len(), |index: int| keys@[index].column@));
        assert(text::texts(list@) =~= Seq::new(
            models.len(),
            |index: int| key_ordering(models[index]),
        ).push("bag.row_id"@));
        assert(text::texts(ranges@) =~= range_predicates(models));
    }
    AggregateRebuildOrder { columns, order_sql: join(&list, ","), range_predicates: ranges }
}

} // verus!
