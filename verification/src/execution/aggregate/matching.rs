//! Which rows the comparisons of an Aggregate hold together: rows of one group,
//! repeated values, and the rows behind a cursor.

use vstd::prelude::*;

use crate::execution::aggregate::order::{self, RebuildKeyModel};
use crate::execution::aggregate::rebuild::{self, RebuildSql};
use crate::execution::btree::OrderModel;
use crate::postgres;
use crate::predicate::{self, Condition, Scene};
use crate::text;

verus! {

/// Two operands that are the same: both are NULL, or neither is and they are
/// equal.
pub open spec fn same_condition(
    left: Seq<char>,
    equality: Seq<char>,
    right: Seq<char>,
) -> Condition {
    let both_missing = Condition::Enclosed {
        open: "("@,
        inner: Box::new(
            Condition::Linked {
                parts: seq![
                    Condition::Missing { operand: left },
                    Condition::Missing { operand: right },
                ],
                link: " AND "@,
            },
        ),
        close: ")"@,
    };
    let both_equal = Condition::Enclosed {
        open: "("@,
        inner: Box::new(
            Condition::Linked {
                parts: seq![
                    Condition::Present { operand: left },
                    Condition::Present { operand: right },
                    Condition::Compare { left, gap: " "@, operator: equality, right },
                ],
                link: "\n            AND "@,
            },
        ),
        close: ")"@,
    };
    Condition::Enclosed {
        open: "(\n           "@,
        inner: Box::new(
            Condition::Linked {
                parts: seq![both_missing, both_equal],
                link: "\n           OR\n           "@,
            },
        ),
        close: "\n         )"@,
    }
}

/// A null-safe comparison passes exactly where its operands are the same.
pub proof fn null_safe_tells_the_same(
    left: Seq<char>,
    right: Seq<char>,
    equality: Seq<char>,
    scene: Scene,
)
    ensures
        ({
            let condition = same_condition(left, equality, right);
            &&& condition.written() == order::null_safe(left, right, equality)
            &&& condition.legible()
            &&& condition.passes(scene) <==> scene.same(left, equality, right)
        }),
{
    predicate::connectives_are_apart();
    let missing_left = Condition::Missing { operand: left };
    let missing_right = Condition::Missing { operand: right };
    let present_left = Condition::Present { operand: left };
    let present_right = Condition::Present { operand: right };
    let compare = Condition::Compare { left, gap: " "@, operator: equality, right };
    let missing = Condition::Linked { parts: seq![missing_left, missing_right], link: " AND "@ };
    let equal = Condition::Linked {
        parts: seq![present_left, present_right, compare],
        link: "\n            AND "@,
    };
    predicate::two_are_linked(missing_left, missing_right, " AND "@, scene);
    predicate::three_are_linked(
        present_left,
        present_right,
        compare,
        "\n            AND "@,
        scene,
    );
    let both_missing = Condition::Enclosed {
        open: "("@,
        inner: Box::new(missing),
        close: ")"@,
    };
    let both_equal = Condition::Enclosed { open: "("@, inner: Box::new(equal), close: ")"@ };
    predicate::two_are_linked(both_missing, both_equal, "\n           OR\n           "@, scene);
    let either = Condition::Linked {
        parts: seq![both_missing, both_equal],
        link: "\n           OR\n           "@,
    };
    let condition = same_condition(left, equality, right);
    assert(condition == Condition::Enclosed {
        open: "(\n           "@,
        inner: Box::new(either),
        close: "\n         )"@,
    });
    assert(both_missing.written() == "("@ + missing.written() + ")"@);
    assert(both_equal.written() == "("@ + equal.written() + ")"@);
    assert(condition.written() == "(\n           "@ + either.written() + "\n         )"@);
    assert(both_missing.passes(scene) == missing.passes(scene));
    assert(both_equal.passes(scene) == equal.passes(scene));
    assert(condition.passes(scene) == either.passes(scene));
    assert(both_missing.legible() == missing.legible());
    assert(both_equal.legible() == equal.legible());
    assert(condition.legible() == either.legible());
    assert(condition.written() == order::null_safe(left, right, equality));
}

/// The column of a group key of a row.
pub open spec fn key_of(row: Seq<char>, index: int) -> Seq<char> {
    row + "."@ + postgres::quoted("group_"@ + text::decimal(index + 1))
}

/// A row belongs to a group exactly where every one of its group keys is the
/// same as the group's.
pub proof fn group_holds_rows_with_its_keys(
    left: Seq<char>,
    right: Seq<char>,
    orders: Seq<OrderModel>,
    scene: Scene,
)
    requires
        orders.len() > 0,
    ensures
        exists|condition: Condition|
            #![trigger condition.written()]
            {
                &&& condition.written() == order::group_match(left, right, orders)
                &&& condition.legible()
                &&& condition.passes(scene) <==> forall|index: int|
                    0 <= index < orders.len() ==> scene.same(
                        key_of(left, index),
                        (#[trigger] orders[index]).equality_operator,
                        key_of(right, index),
                    )
            },
{
    let parts = Seq::new(
        orders.len(),
        |index: int|
            same_condition(
                key_of(left, index),
                orders[index].equality_operator,
                key_of(right, index),
            ),
    );
    let list = Seq::new(
        orders.len(),
        |index: int| order::group_key_match(left, right, orders[index], index),
    );
    assert forall|index: int| 0 <= index < parts.len() implies {
        let part = #[trigger] parts[index];
        &&& part.written() == list[index]
        &&& part.legible()
        &&& !(part is Linked)
        &&& part.passes(scene) <==> scene.same(
            key_of(left, index),
            orders[index].equality_operator,
            key_of(right, index),
        )
    } by {
        null_safe_tells_the_same(
            key_of(left, index),
            key_of(right, index),
            orders[index].equality_operator,
            scene,
        );
    }
    predicate::all_are_linked(parts, list, scene);
    let condition = Condition::Linked { parts, link: " AND "@ };
    assert(condition.written() == order::group_match(left, right, orders));
    if condition.passes(scene) {
        assert forall|index: int| 0 <= index < orders.len() implies scene.same(
            key_of(left, index),
            (#[trigger] orders[index]).equality_operator,
            key_of(right, index),
        ) by {
            assert(parts[index].passes(scene));
        }
    }
    if forall|index: int|
        0 <= index < orders.len() ==> scene.same(
            key_of(left, index),
            (#[trigger] orders[index]).equality_operator,
            key_of(right, index),
        ) {
        assert forall|index: int| 0 <= index < parts.len() implies (
        #[trigger] parts[index]).passes(scene) by {
            assert(scene.same(
                key_of(left, index),
                orders[index].equality_operator,
                key_of(right, index),
            ));
        }
    }
}

/// Whether a row equals the cursor of a fold in one key.
pub open spec fn equals_cursor(keys: Seq<RebuildKeyModel>, scene: Scene, index: int) -> bool {
    scene.same(
        "bag."@ + postgres::quoted(keys[index].column),
        keys[index].order.equality_operator,
        "work."@ + postgres::quoted("cursor_order_"@ + text::decimal(index + 1)),
    )
}

/// Whether a row comes behind the cursor of a fold in one key: the operator
/// puts the cursor before the row, or one of both is NULL and NULL comes on
/// that side.
pub open spec fn comes_behind(keys: Seq<RebuildKeyModel>, scene: Scene, index: int) -> bool {
    let row = "bag."@ + postgres::quoted(keys[index].column);
    let cursor = "work."@ + postgres::quoted("cursor_order_"@ + text::decimal(index + 1));
    match (scene.is_null(cursor), scene.is_null(row)) {
        (false, false) => scene.says(cursor, keys[index].order.sort_operator, row),
        (true, false) => keys[index].order.nulls_first,
        (false, true) => !keys[index].order.nulls_first,
        (true, true) => false,
    }
}

/// Whether a row equals the cursor of a fold in its first keys.
pub open spec fn equals_before(keys: Seq<RebuildKeyModel>, scene: Scene, index: int) -> bool {
    forall|before: int| 0 <= before < index ==> #[trigger] equals_cursor(keys, scene, before)
}

/// Whether a row is behind the cursor of a fold in the order of the group: it
/// comes behind it in the first key in which it differs, or it equals it in
/// every key and has the higher identifier.
pub open spec fn is_behind(keys: Seq<RebuildKeyModel>, scene: Scene) -> bool {
    ||| exists|index: int|
        0 <= index < keys.len() && #[trigger] equals_before(keys, scene, index) && comes_behind(
            keys,
            scene,
            index,
        )
    ||| equals_before(keys, scene, keys.len() as int) && scene.says(
        "bag.row_id"@,
        ">"@,
        "work.cursor_row_id"@,
    )
}

/// Whether the row of a range comes behind the cursor in the key of the range.
spec fn range_passes(keys: Seq<RebuildKeyModel>, scene: Scene, position: int) -> bool {
    let index = position / 2;
    let row = order::bag_key(keys[index]);
    let cursor = order::work_key(index);
    if position % 2 == 0 {
        !scene.is_null(cursor) && !scene.is_null(row) && scene.says(
            cursor,
            keys[index].order.sort_operator,
            row,
        )
    } else if keys[index].order.nulls_first {
        scene.is_null(cursor) && !scene.is_null(row)
    } else {
        !scene.is_null(cursor) && scene.is_null(row)
    }
}

spec fn equal_list(keys: Seq<RebuildKeyModel>, length: int) -> Condition {
    Condition::Linked {
        parts: Seq::new(
            length as nat,
            |index: int|
                same_condition(
                    order::bag_key(keys[index]),
                    keys[index].order.equality_operator,
                    order::work_key(index),
                ),
        ),
        link: " AND "@,
    }
}

proof fn equal_list_is_told(keys: Seq<RebuildKeyModel>, length: int, scene: Scene)
    requires
        0 < length <= keys.len(),
    ensures
        equal_list(keys, length).written() == text::joined(
            order::key_equalities(keys).take(length),
            " AND "@,
        ),
        equal_list(keys, length).legible(),
        equal_list(keys, length).passes(scene) <==> equals_before(keys, scene, length),
{
    let parts = Seq::new(
        length as nat,
        |index: int|
            same_condition(
                order::bag_key(keys[index]),
                keys[index].order.equality_operator,
                order::work_key(index),
            ),
    );
    let list = order::key_equalities(keys).take(length);
    assert forall|index: int| 0 <= index < parts.len() implies {
        let part = #[trigger] parts[index];
        &&& part.written() == list[index]
        &&& part.legible()
        &&& part.stands_beside(" AND "@)
        &&& part.passes(scene) <==> equals_cursor(keys, scene, index)
    } by {
        null_safe_tells_the_same(
            order::bag_key(keys[index]),
            order::work_key(index),
            keys[index].order.equality_operator,
            scene,
        );
    }
    predicate::all_are_linked(parts, list, scene);
    if equal_list(keys, length).passes(scene) {
        assert forall|before: int| 0 <= before < length implies #[trigger] equals_cursor(
            keys,
            scene,
            before,
        ) by {
            assert(parts[before].passes(scene));
        }
    }
    if equals_before(keys, scene, length) {
        assert forall|index: int| 0 <= index < parts.len() implies (
        #[trigger] parts[index]).passes(scene) by {
            assert(equals_cursor(keys, scene, index));
        }
    }
}

/// What a range asks of its own key.
spec fn behind_condition(keys: Seq<RebuildKeyModel>, position: int) -> Condition {
    let index = position / 2;
    let row = order::bag_key(keys[index]);
    let cursor = order::work_key(index);
    if position % 2 == 0 {
        Condition::Linked {
            parts: seq![
                Condition::Present { operand: cursor },
                Condition::Present { operand: row },
                Condition::Compare {
                    left: cursor,
                    gap: " "@,
                    operator: keys[index].order.sort_operator,
                    right: row,
                },
            ],
            link: "\n              AND "@,
        }
    } else if keys[index].order.nulls_first {
        Condition::Linked {
            parts: seq![
                Condition::Missing { operand: cursor },
                Condition::Present { operand: row },
            ],
            link: "\n                  AND "@,
        }
    } else {
        Condition::Linked {
            parts: seq![
                Condition::Present { operand: cursor },
                Condition::Missing { operand: row },
            ],
            link: "\n                  AND "@,
        }
    }
}

proof fn behind_is_told(keys: Seq<RebuildKeyModel>, position: int, scene: Scene)
    ensures
        ({
            let index = position / 2;
            let condition = behind_condition(keys, position);
            &&& condition.written() == (if position % 2 == 0 {
                order::behind_value(keys[index], index)
            } else if keys[index].order.nulls_first {
                order::behind_null(keys[index], index)
            } else {
                order::before_null(keys[index], index)
            })
            &&& condition.legible()
            &&& condition matches Condition::Linked { link, .. } && predicate::conjoins(link)
            &&& condition.passes(scene) <==> range_passes(keys, scene, position)
        }),
{
    predicate::connectives_are_apart();
    let index = position / 2;
    let row = order::bag_key(keys[index]);
    let cursor = order::work_key(index);
    predicate::three_are_linked(
        Condition::Present { operand: cursor },
        Condition::Present { operand: row },
        Condition::Compare {
            left: cursor,
            gap: " "@,
            operator: keys[index].order.sort_operator,
            right: row,
        },
        "\n              AND "@,
        scene,
    );
    predicate::two_are_linked(
        Condition::Missing { operand: cursor },
        Condition::Present { operand: row },
        "\n                  AND "@,
        scene,
    );
    predicate::two_are_linked(
        Condition::Present { operand: cursor },
        Condition::Missing { operand: row },
        "\n                  AND "@,
        scene,
    );
}

spec fn range_condition(keys: Seq<RebuildKeyModel>, position: int) -> Condition {
    let index = position / 2;
    let wide = position % 2 != 0;
    if index == 0 {
        Condition::Enclosed {
            open: if wide {
                "(\n                  "@
            } else {
                "(\n              "@
            },
            inner: Box::new(behind_condition(keys, position)),
            close: ")"@,
        }
    } else {
        Condition::Enclosed {
            open: "("@,
            inner: Box::new(
                Condition::Linked {
                    parts: seq![equal_list(keys, index), behind_condition(keys, position)],
                    link: if wide {
                        " AND \n                  "@
                    } else {
                        " AND \n              "@
                    },
                },
            ),
            close: ")"@,
        }
    }
}

/// A range passes the rows that equal the cursor in every earlier key and come
/// behind it in its own.
proof fn range_is_told(keys: Seq<RebuildKeyModel>, position: int, scene: Scene)
    requires
        0 <= position < 2 * keys.len(),
    ensures
        ({
            let condition = range_condition(keys, position);
            &&& condition.written() == order::range_predicate(keys, position)
            &&& condition.legible()
            &&& condition.passes(scene) <==> equals_before(keys, scene, position / 2)
                && range_passes(keys, scene, position)
        }),
{
    predicate::connectives_are_apart();
    let index = position / 2;
    let wide = position % 2 != 0;
    let behind = behind_condition(keys, position);
    let condition = range_condition(keys, position);
    behind_is_told(keys, position, scene);
    if index == 0 {
        assert(condition.passes(scene) == behind.passes(scene));
        assert(condition.legible() == behind.legible());
        assert(condition.written() == (if wide {
            "(\n                  "@
        } else {
            "(\n              "@
        }) + behind.written() + ")"@);
    } else {
        let link = if wide {
            " AND \n                  "@
        } else {
            " AND \n              "@
        };
        let equal = equal_list(keys, index);
        equal_list_is_told(keys, index, scene);
        predicate::two_are_linked(equal, behind, link, scene);
        let both = Condition::Linked { parts: seq![equal, behind], link };
        assert(both.legible());
        assert(condition.passes(scene) == both.passes(scene));
        assert(condition.legible() == both.legible());
        assert(condition.written() == "("@ + both.written() + ")"@);
    }
}

spec fn row_condition() -> Condition {
    Condition::Compare {
        left: "bag.row_id"@,
        gap: " "@,
        operator: ">"@,
        right: "work.cursor_row_id"@,
    }
}

spec fn last_condition(keys: Seq<RebuildKeyModel>) -> Condition {
    if keys.len() == 0 {
        row_condition()
    } else {
        Condition::Enclosed {
            open: "("@,
            inner: Box::new(
                Condition::Linked {
                    parts: seq![equal_list(keys, keys.len() as int), row_condition()],
                    link: " AND "@,
                },
            ),
            close: ")"@,
        }
    }
}

proof fn last_is_told(keys: Seq<RebuildKeyModel>, scene: Scene)
    ensures
        ({
            let condition = last_condition(keys);
            &&& condition.written() == order::range_predicates(keys).last()
            &&& condition.legible()
            &&& condition.passes(scene) <==> equals_before(keys, scene, keys.len() as int)
                && scene.says("bag.row_id"@, ">"@, "work.cursor_row_id"@)
        }),
{
    predicate::connectives_are_apart();
    let row = row_condition();
    assert(row.legible());
    assert(row.written() == order::behind_row());
    assert(row.passes(scene) <==> scene.says("bag.row_id"@, ">"@, "work.cursor_row_id"@));
    if keys.len() > 0 {
        let equal = equal_list(keys, keys.len() as int);
        equal_list_is_told(keys, keys.len() as int, scene);
        assert(order::key_equalities(keys).take(keys.len() as int) =~= order::key_equalities(keys));
        predicate::two_are_linked(equal, row, " AND "@, scene);
        let both = Condition::Linked { parts: seq![equal, row], link: " AND "@ };
        let condition = last_condition(keys);
        assert(condition.passes(scene) == both.passes(scene));
        assert(condition.legible() == both.legible());
        assert(condition.written() == "("@ + both.written() + ")"@);
    }
}

spec fn range_conditions(keys: Seq<RebuildKeyModel>) -> Seq<Condition> {
    Seq::new(2 * keys.len(), |position: int| range_condition(keys, position)).push(
        last_condition(keys),
    )
}

proof fn ranges_are_told(keys: Seq<RebuildKeyModel>, scene: Scene)
    ensures
        ({
            let conditions = range_conditions(keys);
            let texts = order::range_predicates(keys);
            &&& conditions.len() == texts.len()
            &&& forall|position: int|
                0 <= position < conditions.len() ==> (
                #[trigger] conditions[position]).written() == texts[position]
                    && conditions[position].legible()
            &&& forall|position: int|
                0 <= position < 2 * keys.len() ==> ((#[trigger] conditions[position]).passes(scene)
                    <==> equals_before(keys, scene, position / 2) && range_passes(
                    keys,
                    scene,
                    position,
                ))
        }),
{
    let conditions = range_conditions(keys);
    let texts = order::range_predicates(keys);
    last_is_told(keys, scene);
    assert forall|position: int| 0 <= position < 2 * keys.len() implies {
        &&& (#[trigger] conditions[position]).written() == texts[position]
        &&& conditions[position].legible()
        &&& conditions[position].passes(scene) <==> equals_before(keys, scene, position / 2)
            && range_passes(keys, scene, position)
    } by {
        range_is_told(keys, position, scene);
    }
}

/// The ranges of a fold hold together exactly the rows that are behind its
/// cursor in the order of the group.
pub proof fn ranges_hold_the_rows_behind_the_cursor(keys: Seq<RebuildKeyModel>, scene: Scene)
    ensures
        exists|conditions: Seq<Condition>|
            #![trigger conditions.len()]
            {
                &&& conditions.len() == order::range_predicates(keys).len()
                &&& forall|position: int|
                    0 <= position < conditions.len() ==> (
                    #[trigger] conditions[position]).written() == order::range_predicates(
                        keys,
                    )[position] && conditions[position].legible()
                &&& (exists|position: int|
                    0 <= position < conditions.len() && (#[trigger] conditions[position]).passes(
                        scene,
                    )) <==> is_behind(keys, scene)
            },
{
    let conditions = range_conditions(keys);
    let count = 2 * keys.len() as int;
    ranges_are_told(keys, scene);
    last_is_told(keys, scene);
    if exists|position: int|
        0 <= position < conditions.len() && (#[trigger] conditions[position]).passes(scene) {
        let position = choose|position: int|
            0 <= position < conditions.len() && (#[trigger] conditions[position]).passes(scene);
        if position < count {
            let index = position / 2;
            assert(0 <= index < keys.len());
            assert(equals_before(keys, scene, index));
            assert(comes_behind(keys, scene, index));
        }
        assert(is_behind(keys, scene));
    }
    if is_behind(keys, scene) {
        if exists|index: int|
            0 <= index < keys.len() && #[trigger] equals_before(keys, scene, index)
                && comes_behind(keys, scene, index) {
            let index = choose|index: int|
                0 <= index < keys.len() && #[trigger] equals_before(keys, scene, index)
                    && comes_behind(keys, scene, index);
            let even = 2 * index;
            let odd = 2 * index + 1;
            assert(even / 2 == index && even % 2 == 0 && odd / 2 == index && odd % 2 == 1);
            assert(range_passes(keys, scene, even) || range_passes(keys, scene, odd));
            if range_passes(keys, scene, even) {
                assert(conditions[even].passes(scene));
            } else {
                assert(conditions[odd].passes(scene));
            }
        } else {
            assert(conditions[count].passes(scene));
        }
    }
    assert(conditions.len() == order::range_predicates(keys).len());
}

/// A strict aggregate folds exactly the rows in which every argument is there.
pub proof fn strict_fold_takes_complete_rows(arguments: Seq<Seq<char>>, scene: Scene)
    requires
        arguments.len() > 0,
    ensures
        exists|condition: Condition|
            #![trigger condition.written()]
            {
                &&& condition.written() == rebuild::arguments_nonnull(arguments)
                &&& condition.legible()
                &&& condition.passes(scene) <==> forall|index: int|
                    0 <= index < arguments.len() ==> !scene.is_null(
                        "("@ + #[trigger] arguments[index] + ")"@,
                    )
            },
{
    let parts = Seq::new(
        arguments.len(),
        |index: int| Condition::Present { operand: "("@ + arguments[index] + ")"@ },
    );
    let list = Seq::new(
        arguments.len(),
        |index: int| "("@ + arguments[index] + ")"@ + " IS NOT NULL"@,
    );
    predicate::all_are_linked(parts, list, scene);
    let condition = Condition::Linked { parts, link: " AND "@ };
    assert(condition.written() == rebuild::arguments_nonnull(arguments));
    if condition.passes(scene) {
        assert forall|index: int| 0 <= index < arguments.len() implies !scene.is_null(
            "("@ + #[trigger] arguments[index] + ")"@,
        ) by {
            assert(parts[index].passes(scene));
        }
    }
}

/// The text of a distinct argument in the row at hand.
pub open spec fn distinct_argument(ordinal: int, index: int) -> Seq<char> {
    "evaluated."@ + postgres::quoted(order::value_name(ordinal, "distinct"@, index))
}

/// A row repeats the one before it exactly when all its distinct arguments are
/// the same, each by its own equality operator.
pub proof fn repeated_rows_have_the_same_arguments(
    sql: RebuildSql,
    before: Seq<char>,
    scene: Scene,
)
    requires
        sql.distinct@.len() > 0,
    ensures
        exists|condition: Condition|
            #![trigger condition.written()]
            {
                &&& condition.written() == sql.tuple_repeats(before)
                &&& condition.legible()
                &&& condition.passes(scene) <==> forall|index: int|
                    0 <= index < sql.distinct@.len() ==> scene.same(
                        distinct_argument(sql.ordinal as int, index),
                        (#[trigger] sql.distinct@[index])@,
                        before + text::decimal(index + 1),
                    )
            },
{
    let parts = Seq::new(
        sql.distinct@.len(),
        |index: int|
            same_condition(
                distinct_argument(sql.ordinal as int, index),
                sql.distinct@[index]@,
                before + text::decimal(index + 1),
            ),
    );
    let list = Seq::new(sql.distinct@.len(), |index: int| sql.key_repeats(before, index));
    assert forall|index: int| 0 <= index < parts.len() implies {
        let part = #[trigger] parts[index];
        &&& part.written() == list[index]
        &&& part.legible()
        &&& part.stands_beside(" AND "@)
        &&& part.passes(scene) <==> scene.same(
            distinct_argument(sql.ordinal as int, index),
            sql.distinct@[index]@,
            before + text::decimal(index + 1),
        )
    } by {
        null_safe_tells_the_same(
            distinct_argument(sql.ordinal as int, index),
            before + text::decimal(index + 1),
            sql.distinct@[index]@,
            scene,
        );
    }
    predicate::all_are_linked(parts, list, scene);
    let condition = Condition::Linked { parts, link: " AND "@ };
    assert(condition.written() == sql.tuple_repeats(before));
    if condition.passes(scene) {
        assert forall|index: int| 0 <= index < sql.distinct@.len() implies scene.same(
            distinct_argument(sql.ordinal as int, index),
            (#[trigger] sql.distinct@[index])@,
            before + text::decimal(index + 1),
        ) by {
            assert(parts[index].passes(scene));
        }
    }
    if forall|index: int|
        0 <= index < sql.distinct@.len() ==> scene.same(
            distinct_argument(sql.ordinal as int, index),
            (#[trigger] sql.distinct@[index])@,
            before + text::decimal(index + 1),
        ) {
        assert forall|index: int| 0 <= index < parts.len() implies (
        #[trigger] parts[index]).passes(scene) by {
            assert(scene.same(
                distinct_argument(sql.ordinal as int, index),
                (sql.distinct@[index])@,
                before + text::decimal(index + 1),
            ));
        }
    }
}

/// Without grouping keys, rows belong together when both are of the one global
/// group.
pub proof fn global_group_holds_all_rows(left: Seq<char>, right: Seq<char>, scene: Scene)
    ensures
        exists|condition: Condition|
            #![trigger condition.written()]
            {
                &&& condition.written() == order::group_match(left, right, Seq::empty())
                &&& condition.legible()
                &&& condition.passes(scene) <==> scene.says(
                    left + ".global_group"@,
                    "="@,
                    right + ".global_group"@,
                )
            },
{
    let condition = Condition::Compare {
        left: left + ".global_group"@,
        gap: ""@,
        operator: "="@,
        right: right + ".global_group"@,
    };
    reveal_strlit("");
    reveal_strlit("=");
    reveal_strlit(".global_group");
    reveal_strlit(".global_group=");
    assert(".global_group="@ =~= ".global_group"@ + "="@);
    assert(condition.written() =~= order::group_match(left, right, Seq::empty()));
}

} // verus!
