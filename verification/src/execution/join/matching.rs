//! Which candidates a Join takes up: those whose keys are equal to the event's,
//! and those whose keys may be.

use vstd::prelude::*;

use crate::execution::join::kinds;
use crate::execution::join::layout::{self, Layout};
use crate::execution::join::planner::InputSide;
use crate::execution::join::statements;
use crate::execution::join::step::{self, JoinKind};
use crate::predicate::{self, Condition, Scene};
use crate::text;

verus! {

/// The key column of a candidate.
pub open spec fn column(row: Seq<char>, ordinal: int) -> Seq<char> {
    row + "."@ + ("key_"@ + text::decimal(ordinal))
}

/// The key of an event: an expression over its row.
pub open spec fn key(keys: Seq<Seq<char>>, ordinal: int) -> Seq<char> {
    "("@ + keys[ordinal] + ")"@
}

/// Whether a key of a candidate is equal to that of the event.
pub open spec fn equal(
    keys: Seq<Seq<char>>,
    row: Seq<char>,
    scene: Scene,
    ordinal: int,
) -> bool {
    scene.says(column(row, ordinal), "="@, key(keys, ordinal))
}

/// Whether a key of a candidate or of the event is NULL.
pub open spec fn open_key(
    keys: Seq<Seq<char>>,
    row: Seq<char>,
    scene: Scene,
    ordinal: int,
) -> bool {
    scene.is_null(column(row, ordinal)) || scene.is_null(key(keys, ordinal))
}

spec fn equal_condition(keys: Seq<Seq<char>>, row: Seq<char>, ordinal: int) -> Condition {
    Condition::Compare {
        left: column(row, ordinal),
        gap: " "@,
        operator: "="@,
        right: key(keys, ordinal),
    }
}

spec fn missing_condition(keys: Seq<Seq<char>>, row: Seq<char>, ordinal: int) -> Condition {
    Condition::Linked {
        parts: seq![
            Condition::Missing { operand: column(row, ordinal) },
            Condition::Missing { operand: key(keys, ordinal) },
        ],
        link: " OR "@,
    }
}

spec fn compatible_condition(keys: Seq<Seq<char>>, row: Seq<char>, ordinal: int) -> Condition {
    Condition::Enclosed {
        open: "("@,
        inner: Box::new(
            Condition::Linked {
                parts: seq![
                    equal_condition(keys, row, ordinal),
                    missing_condition(keys, row, ordinal),
                ],
                link: " OR "@,
            },
        ),
        close: ")"@,
    }
}

proof fn equal_key_is_told(keys: Seq<Seq<char>>, row: Seq<char>, scene: Scene, ordinal: int)
    ensures
        ({
            let condition = equal_condition(keys, row, ordinal);
            &&& condition.written() == layout::key_equal(row, ordinal, keys[ordinal])
            &&& condition.legible()
            &&& condition.passes(scene) <==> equal(keys, row, scene, ordinal)
        }),
{
    assert(column(row, ordinal) == layout::member(row, layout::key_name(ordinal)));
}

proof fn missing_key_is_told(keys: Seq<Seq<char>>, row: Seq<char>, scene: Scene, ordinal: int)
    ensures
        ({
            let condition = missing_condition(keys, row, ordinal);
            &&& condition.written() == layout::key_missing(row, ordinal, keys[ordinal])
            &&& condition.legible()
            &&& condition.stands_beside(" OR "@)
            &&& condition.passes(scene) <==> open_key(keys, row, scene, ordinal)
        }),
{
    predicate::connectives_are_apart();
    let one = Condition::Missing { operand: column(row, ordinal) };
    let other = Condition::Missing { operand: key(keys, ordinal) };
    predicate::two_are_linked(one, other, " OR "@, scene);
    assert(column(row, ordinal) == layout::member(row, layout::key_name(ordinal)));
}

proof fn compatible_key_is_told(keys: Seq<Seq<char>>, row: Seq<char>, scene: Scene, ordinal: int)
    ensures
        ({
            let condition = compatible_condition(keys, row, ordinal);
            &&& condition.written() == layout::key_compatible(row, ordinal, keys[ordinal])
            &&& condition.legible()
            &&& condition.passes(scene) <==> equal(keys, row, scene, ordinal) || open_key(
                keys,
                row,
                scene,
                ordinal,
            )
        }),
{
    predicate::connectives_are_apart();
    let one = equal_condition(keys, row, ordinal);
    let other = missing_condition(keys, row, ordinal);
    equal_key_is_told(keys, row, scene, ordinal);
    missing_key_is_told(keys, row, scene, ordinal);
    predicate::two_are_linked(one, other, " OR "@, scene);
    let either = Condition::Linked { parts: seq![one, other], link: " OR "@ };
    let condition = compatible_condition(keys, row, ordinal);
    assert(condition.written() == "("@ + either.written() + ")"@);
    assert(condition.passes(scene) == either.passes(scene));
    assert(condition.legible() == either.legible());
    assert(condition.written() =~= layout::key_compatible(row, ordinal, keys[ordinal]));
}

/// Whether every key of a candidate is equal to the event's.
pub open spec fn all_equal(keys: Seq<Seq<char>>, row: Seq<char>, scene: Scene) -> bool {
    forall|ordinal: int|
        0 <= ordinal < keys.len() ==> #[trigger] equal(keys, row, scene, ordinal)
}

/// Whether no key of a candidate is known to differ from the event's.
pub open spec fn none_differs(keys: Seq<Seq<char>>, row: Seq<char>, scene: Scene) -> bool {
    forall|ordinal: int|
        0 <= ordinal < keys.len() ==> #[trigger] equal(keys, row, scene, ordinal) || open_key(
            keys,
            row,
            scene,
            ordinal,
        )
}

/// Whether some key of a candidate or of the event is NULL.
pub open spec fn some_open(keys: Seq<Seq<char>>, row: Seq<char>, scene: Scene) -> bool {
    exists|ordinal: int|
        0 <= ordinal < keys.len() && #[trigger] open_key(keys, row, scene, ordinal)
}

spec fn exact_condition(keys: Seq<Seq<char>>, row: Seq<char>) -> Condition {
    Condition::Linked {
        parts: Seq::new(keys.len(), |ordinal: int| equal_condition(keys, row, ordinal)),
        link: " AND "@,
    }
}

/// A candidate is matched by its keys exactly where every one of them is equal
/// to the event's.
pub proof fn exact_candidates_have_equal_keys(
    keys: Seq<Seq<char>>,
    row: Seq<char>,
    scene: Scene,
)
    requires
        keys.len() > 0,
    ensures
        exists|condition: Condition|
            #![trigger condition.written()]
            {
                &&& condition.written() == layout::exact_predicate(keys, row)
                &&& condition.legible()
                &&& condition.passes(scene) <==> all_equal(keys, row, scene)
            },
{
    exact_is_told(keys, row, scene);
    assert(exact_condition(keys, row).written() == layout::exact_predicate(keys, row));
}

proof fn exact_is_told(keys: Seq<Seq<char>>, row: Seq<char>, scene: Scene)
    requires
        keys.len() > 0,
    ensures
        ({
            let condition = exact_condition(keys, row);
            &&& condition.written() == layout::exact_predicate(keys, row)
            &&& condition.legible()
            &&& condition.passes(scene) <==> all_equal(keys, row, scene)
        }),
{
    let parts = Seq::new(keys.len(), |ordinal: int| equal_condition(keys, row, ordinal));
    let list = Seq::new(
        keys.len(),
        |ordinal: int| layout::key_equal(row, ordinal, keys[ordinal]),
    );
    assert forall|ordinal: int| 0 <= ordinal < parts.len() implies {
        let part = #[trigger] parts[ordinal];
        &&& part.written() == list[ordinal]
        &&& part.legible()
        &&& part.stands_beside(" AND "@)
        &&& part.passes(scene) <==> equal(keys, row, scene, ordinal)
    } by {
        equal_key_is_told(keys, row, scene, ordinal);
    }
    predicate::all_are_linked(parts, list, scene);
    let condition = exact_condition(keys, row);
    if condition.passes(scene) {
        assert forall|ordinal: int| 0 <= ordinal < keys.len() implies #[trigger] equal(
            keys,
            row,
            scene,
            ordinal,
        ) by {
            assert(parts[ordinal].passes(scene));
        }
    }
    if all_equal(keys, row, scene) {
        assert forall|ordinal: int| 0 <= ordinal < parts.len() implies (
        #[trigger] parts[ordinal]).passes(scene) by {
            assert(equal(keys, row, scene, ordinal));
        }
    }
}

spec fn compatible_list(keys: Seq<Seq<char>>, row: Seq<char>) -> Condition {
    Condition::Linked {
        parts: Seq::new(keys.len(), |ordinal: int| compatible_condition(keys, row, ordinal)),
        link: " AND "@,
    }
}

spec fn missing_list(keys: Seq<Seq<char>>, row: Seq<char>) -> Condition {
    Condition::Linked {
        parts: Seq::new(keys.len(), |ordinal: int| missing_condition(keys, row, ordinal)),
        link: " OR "@,
    }
}

spec fn enclosed(inner: Condition) -> Condition {
    Condition::Enclosed { open: "("@, inner: Box::new(inner), close: ")"@ }
}

proof fn enclosed_is_told(inner: Condition, scene: Scene)
    ensures
        enclosed(inner).written() == "("@ + inner.written() + ")"@,
        enclosed(inner).legible() == inner.legible(),
        enclosed(inner).passes(scene) == inner.passes(scene),
{
}

proof fn compatible_list_is_told(keys: Seq<Seq<char>>, row: Seq<char>, scene: Scene)
    requires
        keys.len() > 0,
    ensures
        compatible_list(keys, row).written() == text::joined(
            Seq::new(
                keys.len(),
                |ordinal: int| layout::key_compatible(row, ordinal, keys[ordinal]),
            ),
            " AND "@,
        ),
        compatible_list(keys, row).legible(),
        compatible_list(keys, row).passes(scene) <==> none_differs(keys, row, scene),
{
    let parts = Seq::new(keys.len(), |ordinal: int| compatible_condition(keys, row, ordinal));
    let list = Seq::new(
        keys.len(),
        |ordinal: int| layout::key_compatible(row, ordinal, keys[ordinal]),
    );
    assert forall|ordinal: int| 0 <= ordinal < parts.len() implies {
        let part = #[trigger] parts[ordinal];
        &&& part.written() == list[ordinal]
        &&& part.legible()
        &&& part.stands_beside(" AND "@)
        &&& part.passes(scene) <==> equal(keys, row, scene, ordinal) || open_key(
            keys,
            row,
            scene,
            ordinal,
        )
    } by {
        compatible_key_is_told(keys, row, scene, ordinal);
    }
    predicate::all_are_linked(parts, list, scene);
    if compatible_list(keys, row).passes(scene) {
        assert forall|ordinal: int| 0 <= ordinal < keys.len() implies #[trigger] equal(
            keys,
            row,
            scene,
            ordinal,
        ) || open_key(keys, row, scene, ordinal) by {
            assert(parts[ordinal].passes(scene));
        }
    }
    if none_differs(keys, row, scene) {
        assert forall|ordinal: int| 0 <= ordinal < parts.len() implies (
        #[trigger] parts[ordinal]).passes(scene) by {
            assert(equal(keys, row, scene, ordinal) || open_key(keys, row, scene, ordinal));
        }
    }
}

proof fn missing_list_is_told(keys: Seq<Seq<char>>, row: Seq<char>, scene: Scene)
    requires
        keys.len() > 0,
    ensures
        missing_list(keys, row).written() == text::joined(
            Seq::new(keys.len(), |ordinal: int| layout::key_missing(row, ordinal, keys[ordinal])),
            " OR "@,
        ),
        missing_list(keys, row).legible(),
        missing_list(keys, row).passes(scene) <==> some_open(keys, row, scene),
{
    let parts = Seq::new(keys.len(), |ordinal: int| missing_condition(keys, row, ordinal));
    let list = Seq::new(
        keys.len(),
        |ordinal: int| layout::key_missing(row, ordinal, keys[ordinal]),
    );
    assert forall|ordinal: int| 0 <= ordinal < parts.len() implies {
        let part = #[trigger] parts[ordinal];
        &&& part.written() == list[ordinal]
        &&& part.legible()
        &&& part.stands_beside(" OR "@)
        &&& part.passes(scene) <==> open_key(keys, row, scene, ordinal)
    } by {
        missing_key_is_told(keys, row, scene, ordinal);
    }
    predicate::some_are_linked(parts, list, scene);
    if missing_list(keys, row).passes(scene) {
        let ordinal = choose|ordinal: int|
            0 <= ordinal < parts.len() && (#[trigger] parts[ordinal]).passes(scene);
        assert(open_key(keys, row, scene, ordinal));
    }
    if some_open(keys, row, scene) {
        let ordinal = choose|ordinal: int|
            0 <= ordinal < keys.len() && #[trigger] open_key(keys, row, scene, ordinal);
        assert(parts[ordinal].passes(scene));
    }
}

spec fn unknown_condition(keys: Seq<Seq<char>>, row: Seq<char>) -> Condition {
    enclosed(
        Condition::Linked {
            parts: seq![enclosed(compatible_list(keys, row)), enclosed(missing_list(keys, row))],
            link: " AND "@,
        },
    )
}

proof fn unknown_is_told(keys: Seq<Seq<char>>, row: Seq<char>, scene: Scene)
    requires
        keys.len() > 0,
    ensures
        ({
            let condition = unknown_condition(keys, row);
            &&& condition.written() == layout::unknown_predicate(keys, row)
            &&& condition.legible()
            &&& condition.passes(scene) <==> none_differs(keys, row, scene) && some_open(
                keys,
                row,
                scene,
            )
        }),
{
    predicate::connectives_are_apart();
    let compatible = compatible_list(keys, row);
    let missing = missing_list(keys, row);
    compatible_list_is_told(keys, row, scene);
    missing_list_is_told(keys, row, scene);
    enclosed_is_told(compatible, scene);
    enclosed_is_told(missing, scene);
    predicate::two_are_linked(enclosed(compatible), enclosed(missing), " AND "@, scene);
    enclosed_is_told(
        Condition::Linked {
            parts: seq![enclosed(compatible), enclosed(missing)],
            link: " AND "@,
        },
        scene,
    );
}

/// A candidate is possibly matched by its keys exactly where none of them is
/// known to differ and at least one is unknown.
pub proof fn unknown_candidates_may_have_equal_keys(
    keys: Seq<Seq<char>>,
    row: Seq<char>,
    scene: Scene,
)
    requires
        keys.len() > 0,
    ensures
        exists|condition: Condition|
            #![trigger condition.written()]
            {
                &&& condition.written() == layout::unknown_predicate(keys, row)
                &&& condition.legible()
                &&& condition.passes(scene) <==> none_differs(keys, row, scene) && some_open(
                    keys,
                    row,
                    scene,
                )
            },
{
    unknown_is_told(keys, row, scene);
    assert(unknown_condition(keys, row).written() == layout::unknown_predicate(keys, row));
}

/// No candidate is taken up both as a match and as a possible one.
pub proof fn matches_are_known_or_unknown(keys: Seq<Seq<char>>, row: Seq<char>, scene: Scene)
    ensures
        !(all_equal(keys, row, scene) && none_differs(keys, row, scene) && some_open(
            keys,
            row,
            scene,
        )),
{
    if all_equal(keys, row, scene) && some_open(keys, row, scene) {
        let ordinal = choose|ordinal: int|
            0 <= ordinal < keys.len() && #[trigger] open_key(keys, row, scene, ordinal);
        assert(equal(keys, row, scene, ordinal));
    }
}

/// The key predicate of a keyed Join takes up the candidates whose keys are all
/// equal to the event's, and with the unknown ones all those of which no key is
/// known to differ.
pub proof fn key_predicate_takes_up_matches(
    layout: Layout,
    side: InputSide,
    row: Seq<char>,
    include_unknown: bool,
    scene: Scene,
)
    requires
        layout.is_keyed(),
        layout.keys_of(side).len() > 0,
    ensures
        exists|condition: Condition|
            #![trigger condition.written()]
            {
                let keys = layout.keys_of(side);
                &&& condition.written() == layout::key_predicate(layout, side, row, include_unknown)
                &&& condition.legible()
                &&& condition.passes(scene) <==> if include_unknown {
                    none_differs(keys, row, scene)
                } else {
                    all_equal(keys, row, scene)
                }
            },
{
    predicate::connectives_are_apart();
    let keys = layout.keys_of(side);
    let exact = exact_condition(keys, row);
    let unknown = unknown_condition(keys, row);
    exact_is_told(keys, row, scene);
    unknown_is_told(keys, row, scene);
    enclosed_is_told(exact, scene);
    enclosed_is_told(unknown, scene);
    predicate::two_are_linked(enclosed(exact), enclosed(unknown), " OR "@, scene);
    let either = Condition::Linked {
        parts: seq![enclosed(exact), enclosed(unknown)],
        link: " OR "@,
    };
    if include_unknown {
        assert(either.written() == layout::key_predicate(layout, side, row, include_unknown));
        if all_equal(keys, row, scene) {
            assert forall|ordinal: int| 0 <= ordinal < keys.len() implies #[trigger] equal(
                keys,
                row,
                scene,
                ordinal,
            ) || open_key(keys, row, scene, ordinal) by {}
        }
        if none_differs(keys, row, scene) && !some_open(keys, row, scene) {
            assert forall|ordinal: int| 0 <= ordinal < keys.len() implies #[trigger] equal(
                keys,
                row,
                scene,
                ordinal,
            ) by {
                assert(!open_key(keys, row, scene, ordinal));
            }
        }
    } else {
        assert(enclosed(exact).written() == layout::key_predicate(
            layout,
            side,
            row,
            include_unknown,
        ));
    }
}

/// Whether a scene reads numbers as numbers.
pub open spec fn counts_numbers(
    scene: Scene,
    matched: Seq<char>,
    unknown: Seq<char>,
    matches: int,
    unknowns: int,
) -> bool {
    &&& (scene.values)(matched) == Some(matches)
    &&& (scene.values)(unknown) == Some(unknowns)
    &&& (scene.values)("0"@) == Some(0int)
    &&& forall|left: int, right: int|
        #[trigger] (scene.compares)("="@, left, right) <==> left == right
    &&& forall|left: int, right: int|
        #[trigger] (scene.compares)(">"@, left, right) <==> left > right
}

/// The rows that a statement counts as output on their own are those that the
/// kind keeps on a side that it keeps any of.
pub proof fn eligible_rows_are_kept(
    kind: JoinKind,
    side: InputSide,
    matched: Seq<char>,
    unknown: Seq<char>,
    scene: Scene,
    matches: int,
    unknowns: int,
)
    requires
        counts_numbers(scene, matched, unknown, matches, unknowns),
        matches >= 0,
        unknowns >= 0,
        exists|some: int| some >= 0 && #[trigger] kinds::alone(kind, side, 1, some, 0) == 1 || kind
            is Inner,
    ensures
        exists|condition: Condition|
            #![trigger condition.written()]
            {
                &&& condition.written() == statements::eligibility(
                    step::mode_of(kind),
                    matched,
                    unknown,
                )
                &&& condition.legible()
                &&& condition.passes(scene) <==> kinds::alone(
                    kind,
                    side,
                    1,
                    matches,
                    unknowns,
                ) == 1
            },
{
    predicate::connectives_are_apart();
    let none = Condition::Compare { left: matched, gap: " "@, operator: "="@, right: "0"@ };
    let some = Condition::Compare { left: matched, gap: " "@, operator: ">"@, right: "0"@ };
    let clear = Condition::Compare { left: unknown, gap: " "@, operator: "="@, right: "0"@ };
    let both = Condition::Linked { parts: seq![none, clear], link: " AND "@ };
    predicate::two_are_linked(none, clear, " AND "@, scene);
    assert(none.passes(scene) <==> matches == 0);
    assert(some.passes(scene) <==> matches > 0);
    assert(clear.passes(scene) <==> unknowns == 0);
    let written = statements::eligibility(step::mode_of(kind), matched, unknown);
    match kind {
        JoinKind::Inner => {
            assert(Condition::Never.written() == written);
        },
        JoinKind::Semi => {
            assert(some.written() == written);
        },
        JoinKind::NullAwareAnti => {
            assert(both.written() == written);
        },
        _ => {
            assert(none.written() == written);
        },
    }
}

} // verus!
