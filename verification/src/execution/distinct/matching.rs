//! Which rows a Distinct holds together: an input row and the group of its keys.

use vstd::prelude::*;

use crate::execution::btree::OrderModel;
use crate::execution::distinct::statements;
use crate::predicate::{self, Condition, Scene};
use crate::text;

verus! {

/// Two operands that are both NULL.
pub open spec fn both_missing(left: Seq<char>, right: Seq<char>) -> Condition {
    Condition::Enclosed {
        open: "("@,
        inner: Box::new(
            Condition::Linked {
                parts: seq![
                    Condition::Missing { operand: left },
                    Condition::Missing { operand: right },
                ],
                link: " AND "@,
            },
        ),
        close: ")"@,
    }
}

/// Two operands that an operator certainly holds equal.
pub open spec fn certainly_equal(
    left: Seq<char>,
    equality: Seq<char>,
    right: Seq<char>,
) -> Condition {
    Condition::Certain {
        inner: Box::new(
            Condition::Enclosed {
                open: "("@,
                inner: Box::new(
                    Condition::Compare { left, gap: " "@, operator: equality, right },
                ),
                close: ")"@,
            },
        ),
    }
}

/// Two operands of which neither is NULL and that are equal.
pub open spec fn both_equal(left: Seq<char>, equality: Seq<char>, right: Seq<char>) -> Condition {
    Condition::Enclosed {
        open: "("@,
        inner: Box::new(
            Condition::Linked {
                parts: seq![
                    Condition::Linked {
                        parts: seq![
                            Condition::Present { operand: left },
                            Condition::Present { operand: right },
                        ],
                        link: " AND "@,
                    },
                    certainly_equal(left, equality, right),
                ],
                link: "\n            AND "@,
            },
        ),
        close: ")"@,
    }
}

/// Two operands that are the same: both are NULL, or neither is and they are
/// equal.
pub open spec fn same_condition(
    left: Seq<char>,
    equality: Seq<char>,
    right: Seq<char>,
) -> Condition {
    Condition::Enclosed {
        open: "(\n           "@,
        inner: Box::new(
            Condition::Linked {
                parts: seq![both_missing(left, right), both_equal(left, equality, right)],
                link: "\n           OR\n           "@,
            },
        ),
        close: "\n         )"@,
    }
}

proof fn missing_is_told(left: Seq<char>, right: Seq<char>, scene: Scene)
    ensures
        both_missing(left, right).written() == "("@ + (left + " IS NULL"@ + " AND "@ + (right
            + " IS NULL"@)) + ")"@,
        both_missing(left, right).legible(),
        both_missing(left, right).passes(scene) <==> scene.is_null(left) && scene.is_null(right),
{
    predicate::connectives_are_apart();
    let one = Condition::Missing { operand: left };
    let other = Condition::Missing { operand: right };
    let both = Condition::Linked { parts: seq![one, other], link: " AND "@ };
    predicate::two_are_linked(one, other, " AND "@, scene);
    assert(both_missing(left, right).written() == "("@ + both.written() + ")"@);
    assert(both_missing(left, right).legible() == both.legible());
    assert(both_missing(left, right).passes(scene) == both.passes(scene));
}

proof fn equality_is_told(left: Seq<char>, equality: Seq<char>, right: Seq<char>, scene: Scene)
    ensures
        certainly_equal(left, equality, right).written() == "("@ + (left + " "@ + equality + " "@
            + right) + ")"@ + " IS TRUE"@,
        certainly_equal(left, equality, right).legible(),
        certainly_equal(left, equality, right).passes(scene) <==> scene.says(
            left,
            equality,
            right,
        ),
{
    let compare = Condition::Compare { left, gap: " "@, operator: equality, right };
    let enclosed = Condition::Enclosed { open: "("@, inner: Box::new(compare), close: ")"@ };
    assert(compare.legible());
    assert(enclosed.legible());
    assert(enclosed.written() == "("@ + compare.written() + ")"@);
    assert(enclosed.passes(scene) == compare.passes(scene));
    assert(certainly_equal(left, equality, right).legible() == enclosed.legible());
    assert(certainly_equal(left, equality, right).passes(scene) == enclosed.passes(scene));
}

proof fn equal_is_told(left: Seq<char>, equality: Seq<char>, right: Seq<char>, scene: Scene)
    ensures
        both_equal(left, equality, right).written() == "("@ + (left + " IS NOT NULL"@ + " AND "@ + (
        right + " IS NOT NULL"@) + "\n            AND "@ + certainly_equal(
            left,
            equality,
            right,
        ).written()) + ")"@,
        both_equal(left, equality, right).legible(),
        both_equal(left, equality, right).passes(scene) <==> !scene.is_null(left)
            && !scene.is_null(right) && scene.says(left, equality, right),
{
    predicate::connectives_are_apart();
    let one = Condition::Present { operand: left };
    let other = Condition::Present { operand: right };
    let present = Condition::Linked { parts: seq![one, other], link: " AND "@ };
    let certain = certainly_equal(left, equality, right);
    let both = Condition::Linked { parts: seq![present, certain], link: "\n            AND "@ };
    equality_is_told(left, equality, right, scene);
    predicate::two_are_linked(one, other, " AND "@, scene);
    predicate::two_are_linked(present, certain, "\n            AND "@, scene);
    let whole = both_equal(left, equality, right);
    assert(whole.written() == "("@ + both.written() + ")"@);
    assert(whole.legible() == both.legible());
    assert(whole.passes(scene) == both.passes(scene));
}

/// A null-safe comparison passes exactly where its operands are the same.
pub proof fn null_safe_tells_the_same(
    left: Seq<char>,
    right: Seq<char>,
    equality: Seq<char>,
    scene: Scene,
)
    ensures
        ({
            let condition = same_condition(left, equality, right);
            &&& condition.written() == statements::null_safe(left, right, equality)
            &&& condition.legible()
            &&& condition.passes(scene) <==> scene.same(left, equality, right)
        }),
{
    predicate::connectives_are_apart();
    let missing = both_missing(left, right);
    let equal = both_equal(left, equality, right);
    missing_is_told(left, right, scene);
    equal_is_told(left, equality, right, scene);
    equality_is_told(left, equality, right, scene);
    let either = Condition::Linked {
        parts: seq![missing, equal],
        link: "\n           OR\n           "@,
    };
    predicate::two_are_linked(missing, equal, "\n           OR\n           "@, scene);
    let condition = same_condition(left, equality, right);
    assert(condition.written() == "(\n           "@ + either.written() + "\n         )"@);
    assert(condition.passes(scene) == either.passes(scene));
    assert(condition.legible() == either.legible());
    assert(condition.written() == statements::null_safe(left, right, equality));
}

/// The column of a key.
pub open spec fn key_of(row: Seq<char>, index: int) -> Seq<char> {
    row + ("key_"@ + text::decimal(index + 1))
}

/// Whether every key of an input row is the same as that of a group.
pub open spec fn has_keys_of_group(orders: Seq<OrderModel>, scene: Scene) -> bool {
    forall|index: int|
        0 <= index < orders.len() ==> scene.same(
            key_of("resolved_groups."@, index),
            (#[trigger] orders[index]).equality_operator,
            key_of("evaluated_base."@, index),
        )
}

/// An input row resolves to a group exactly where every one of its keys is the
/// same as the group's.
pub proof fn row_resolves_to_the_group_of_its_keys(orders: Seq<OrderModel>, scene: Scene)
    requires
        orders.len() > 0,
    ensures
        exists|condition: Condition|
            #![trigger condition.written()]
            {
                &&& condition.written() == statements::group_matching(orders)
                &&& condition.legible()
                &&& condition.passes(scene) <==> has_keys_of_group(orders, scene)
            },
{
    let parts = Seq::new(
        orders.len(),
        |index: int|
            same_condition(
                key_of("resolved_groups."@, index),
                orders[index].equality_operator,
                key_of("evaluated_base."@, index),
            ),
    );
    let list = Seq::new(
        orders.len(),
        |index: int| statements::key_match(orders[index], index),
    );
    assert forall|index: int| 0 <= index < parts.len() implies {
        let part = #[trigger] parts[index];
        &&& part.written() == list[index]
        &&& part.legible()
        &&& !(part is Linked)
        &&& part.passes(scene) <==> scene.same(
            key_of("resolved_groups."@, index),
            orders[index].equality_operator,
            key_of("evaluated_base."@, index),
        )
    } by {
        null_safe_tells_the_same(
            key_of("resolved_groups."@, index),
            key_of("evaluated_base."@, index),
            orders[index].equality_operator,
            scene,
        );
    }
    predicate::all_are_linked(parts, list, scene);
    let condition = Condition::Linked { parts, link: " AND "@ };
    assert(condition.written() == statements::group_matching(orders));
    if condition.passes(scene) {
        assert forall|index: int| 0 <= index < orders.len() implies scene.same(
            key_of("resolved_groups."@, index),
            (#[trigger] orders[index]).equality_operator,
            key_of("evaluated_base."@, index),
        ) by {
            assert(parts[index].passes(scene));
        }
    }
    if has_keys_of_group(orders, scene) {
        assert forall|index: int| 0 <= index < parts.len() implies (
        #[trigger] parts[index]).passes(scene) by {
            assert(scene.same(
                key_of("resolved_groups."@, index),
                orders[index].equality_operator,
                key_of("evaluated_base."@, index),
            ));
        }
    }
}

/// Two groups that one input row resolves to have the same keys, by equalities
/// that are symmetric and transitive: a row has one group at most.
pub proof fn row_has_one_group(orders: Seq<OrderModel>, one: Scene, other: Scene, index: int)
    requires
        0 <= index < orders.len(),
        has_keys_of_group(orders, one),
        has_keys_of_group(orders, other),
        one.compares == other.compares,
        (one.values)(key_of("evaluated_base."@, index)) == (other.values)(
            key_of("evaluated_base."@, index),
        ),
        forall|left: int, right: int|
            (one.compares)(orders[index].equality_operator, left, right) ==> #[trigger] (
            one.compares)(orders[index].equality_operator, right, left),
        forall|left: int, middle: int, right: int|
            #![trigger (one.compares)(orders[index].equality_operator, left, middle), (one.compares)(orders[index].equality_operator, middle, right)]
            (one.compares)(orders[index].equality_operator, left, middle) && (one.compares)(
                orders[index].equality_operator,
                middle,
                right,
            ) ==> (one.compares)(orders[index].equality_operator, left, right),
    ensures
        match (
            (one.values)(key_of("resolved_groups."@, index)),
            (other.values)(key_of("resolved_groups."@, index)),
        ) {
            (None, None) => true,
            (Some(left), Some(right)) => (one.compares)(
                orders[index].equality_operator,
                left,
                right,
            ),
            _ => false,
        },
{
    let operator = orders[index].equality_operator;
    let row = (one.values)(key_of("evaluated_base."@, index));
    let left = (one.values)(key_of("resolved_groups."@, index));
    let right = (other.values)(key_of("resolved_groups."@, index));
    if let (Some(key), Some(first), Some(second)) = (row, left, right) {
        assert((one.compares)(operator, first, key));
        assert((one.compares)(operator, second, key));
        assert((one.compares)(operator, key, second));
    }
}

} // verus!
