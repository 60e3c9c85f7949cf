//! How the key columns of a Distinct line up in its statements.

use vstd::prelude::*;

use crate::execution::abi;
use crate::execution::btree::OrderModel;
use crate::execution::continuation::Attribute;
use crate::execution::distinct::machine::{self, AppliedPrefix};
use crate::execution::distinct::provision;
use crate::execution::distinct::statements;
use crate::execution::provision as stage_provision;
use crate::postgres;
use crate::text;

verus! {

/// The columns of the keys, in their order.
pub open spec fn names_keys(names: Seq<Seq<char>>, count: nat) -> bool {
    &&& names.len() == count
    &&& forall|index: int|
        0 <= index < count ==> #[trigger] names[index] == "key_"@ + text::decimal(index + 1)
}

/// The keys of a row are computed under the names of their columns, and written
/// to and read from these columns in the same order.
pub proof fn keys_are_computed_under_their_names(
    keys: Seq<Seq<char>>,
    names: Seq<Seq<char>>,
    computed: Seq<Seq<char>>,
    qualified: Seq<Seq<char>>,
)
    requires
        names_keys(names, keys.len()),
        computed.len() == keys.len() && qualified.len() == keys.len(),
        forall|index: int|
            0 <= index < keys.len() ==> #[trigger] computed[index] == keys[index] + " AS "@
                + names[index],
        forall|index: int|
            0 <= index < keys.len() ==> #[trigger] qualified[index] == "evaluated_base."@
                + postgres::quoted(names[index]),
    ensures
        statements::key_selection(keys) == text::joined(computed, ","@),
        statements::key_column_list(keys.len()) == text::joined(names, ","@),
        statements::qualified_key_list(keys.len()) == text::joined(qualified, ","@),
{
    let selected = Seq::new(
        keys.len(),
        |index: int| keys[index] + " AS "@ + statements::key_name(index),
    );
    let listed = Seq::new(keys.len(), |index: int| statements::key_name(index));
    let read = Seq::new(
        keys.len(),
        |index: int| "evaluated_base."@ + postgres::quoted(statements::key_name(index)),
    );
    assert(listed =~= names);
    assert forall|index: int| 0 <= index < keys.len() implies selected[index]
        == #[trigger] computed[index] && read[index] == qualified[index] by {
        assert(names[index] == statements::key_name(index));
        let item = qualified[index];
    }
    assert(selected =~= computed);
    assert(read =~= qualified);
}

/// Rows come along their keys, each in its own direction, and then along their
/// places; a conflict is found by the keys, each under its own operator class.
pub proof fn rows_come_along_their_keys(
    orders: Seq<OrderModel>,
    names: Seq<Seq<char>>,
    sorted: Seq<Seq<char>>,
    conflicting: Seq<Seq<char>>,
)
    requires
        names_keys(names, orders.len()),
        sorted.len() == orders.len() && conflicting.len() == orders.len(),
        forall|index: int|
            0 <= index < orders.len() ==> #[trigger] sorted[index] == "evaluated_base."@
                + names[index] + " USING "@ + orders[index].sort_operator + " NULLS "@ + (
            if orders[index].nulls_first {
                "FIRST"@
            } else {
                "LAST"@
            }),
        forall|index: int|
            0 <= index < orders.len() ==> #[trigger] conflicting[index] == postgres::quoted(
                names[index],
            ) + " "@ + orders[index].opclass,
    ensures
        statements::key_order_list(orders) == text::joined(
            sorted.push("evaluated_base.row_ordinal"@),
            ","@,
        ),
        statements::conflict_key_list(orders) == text::joined(conflicting, ","@),
{
    let ordered = Seq::new(
        orders.len(),
        |index: int| statements::key_ordering(orders[index], index),
    );
    let found = Seq::new(
        orders.len(),
        |index: int|
            postgres::quoted(statements::key_name(index)) + " "@ + orders[index].opclass,
    );
    assert forall|index: int| 0 <= index < orders.len() implies ordered[index]
        == #[trigger] sorted[index] && found[index] == conflicting[index] by {
        assert(names[index] == statements::key_name(index));
        let item = conflicting[index];
    }
    assert(ordered =~= sorted);
    assert(found =~= conflicting);
}

/// A key column is defined, indexed and looked for under one name.
pub proof fn key_column_has_one_name(
    orders: Seq<OrderModel>,
    types: Seq<Seq<char>>,
    indexed: Seq<Seq<char>>,
    defined: Seq<Seq<char>>,
    index: int,
)
    requires
        orders.len() == indexed.len() && types.len() == defined.len(),
        forall|index: int|
            0 <= index < orders.len() ==> #[trigger] indexed[index] == orders[index].index_sql(
                "key_"@ + text::decimal(index + 1),
            ),
        forall|index: int|
            0 <= index < types.len() ==> #[trigger] defined[index] == postgres::quoted(
                "key_"@ + text::decimal(index + 1),
            ) + " "@ + types[index],
    ensures
        provision::key_index(orders) == text::joined(indexed, ","@),
        stage_provision::numbered_definitions("key_"@, types) == text::joined(defined, ","@),
        abi::ordinal_name("key_"@, index) == "key_"@ + text::decimal(index + 1),
        statements::key_name(index) == "key_"@ + text::decimal(index + 1),
{
    let listed = Seq::new(
        orders.len(),
        |index: int| orders[index].index_sql("key_"@ + text::decimal(index + 1)),
    );
    assert(listed =~= indexed);
    let written = Seq::new(
        types.len(),
        |index: int|
            stage_provision::defined("key_"@ + text::decimal(index + 1), types[index]),
    );
    assert(written =~= defined);
}

/// A relation has exactly its columns, each under its name and of its type, and
/// none of them admits nulls.
pub proof fn columns_are_exact(attributes: Seq<Attribute>, expected: Seq<(&'static str, u32)>)
    ensures
        abi::exact_columns(attributes, expected) <==> {
            &&& attributes.len() == expected.len()
            &&& forall|index: int|
                0 <= index < expected.len() ==> {
                    &&& (#[trigger] attributes[index]).name@ == expected[index].0@
                    &&& attributes[index].type_oid == expected[index].1
                    &&& attributes[index].not_null
                }
        },
{
    if abi::exact_columns(attributes, expected) {
        assert forall|index: int| 0 <= index < expected.len() implies {
            &&& (#[trigger] attributes[index]).name@ == expected[index].0@
            &&& attributes[index].type_oid == expected[index].1
            &&& attributes[index].not_null
        } by {
            assert(abi::is_typed(attributes[index], expected[index].0@, expected[index].1));
        }
    }
}

/// An admission takes rows in and lets none out, and a drain lets rows out and
/// takes none in; effects are handed on to a drain exactly where there are some.
pub proof fn admissions_take_in_and_drains_let_out(page: AppliedPrefix)
    ensures
        machine::prefix_counts(page, true) is Ok ==> {
            &&& page.facts.usage.input_rows > 0 && page.facts.usage.output_rows == 0
            &&& page.facts.output is Nothing
            &&& page.occupancy.touched_keys <= page.facts.usage.input_rows
            &&& page.occupancy.external_effects > 0 <==> (page.next matches Some(next) && next.phase
                is Drain)
        },
        machine::prefix_counts(page, false) is Ok ==> {
            &&& page.facts.usage.input_rows == 0 && page.facts.usage.input_bytes == 0
            &&& page.occupancy.external_effects == page.facts.usage.output_rows
            &&& page.facts.usage.output_rows > 0 <==> page.facts.output is Data
        },
{
}

} // verus!
