//! Conditions of SQL statements: how they are written, and which rows pass
//! them.

use vstd::prelude::*;

use crate::text;

verus! {

/// The rows that a condition looks at: the value of each operand, where NULL is
/// none, and what each operator says of two values.
pub struct Scene {
    pub values: spec_fn(Seq<char>) -> Option<int>,
    pub compares: spec_fn(Seq<char>, int, int) -> bool,
}

impl Scene {
    /// Whether an operand is NULL.
    pub open spec fn is_null(self, operand: Seq<char>) -> bool {
        (self.values)(operand) is None
    }

    /// What an operator says of two operands; it says nothing of NULL.
    pub open spec fn says(self, left: Seq<char>, operator: Seq<char>, right: Seq<char>) -> bool {
        match ((self.values)(left), (self.values)(right)) {
            (Some(one), Some(other)) => (self.compares)(operator, one, other),
            _ => false,
        }
    }

    /// Whether two operands are the same by an equality: both are NULL, or
    /// neither is and the equality says so.
    pub open spec fn same(self, left: Seq<char>, equality: Seq<char>, right: Seq<char>) -> bool {
        match ((self.values)(left), (self.values)(right)) {
            (None, None) => true,
            (Some(one), Some(other)) => (self.compares)(equality, one, other),
            _ => false,
        }
    }
}

/// A condition of SQL as it is laid out. It has no negation, so that which rows
/// pass it depends only on which rows pass its parts.
#[verifier::ext_equal]
pub enum Condition {
    /// What no row passes.
    Never,
    /// An operand that is NULL.
    Missing { operand: Seq<char> },
    /// An operand that is not NULL.
    Present { operand: Seq<char> },
    /// Two operands with an operator between them.
    Compare { left: Seq<char>, gap: Seq<char>, operator: Seq<char>, right: Seq<char> },
    /// Two operands that are both NULL or equal.
    Alike { left: Seq<char>, right: Seq<char> },
    /// A condition that is neither false nor unknown.
    Certain { inner: Box<Condition> },
    /// A condition in brackets.
    Enclosed { open: Seq<char>, inner: Box<Condition>, close: Seq<char> },
    /// Conditions with one connective between them.
    Linked { parts: Seq<Condition>, link: Seq<char> },
}

/// The layouts of the connective that every part must pass.
pub open spec fn conjoins(link: Seq<char>) -> bool {
    ||| link == " AND "@
    ||| link == "\n            AND "@
    ||| link == "\n              AND "@
    ||| link == "\n                  AND "@
    ||| link == " AND \n              "@
    ||| link == " AND \n                  "@
}

/// The layouts of the connective that one part must pass.
pub open spec fn disjoins(link: Seq<char>) -> bool {
    ||| link == " OR "@
    ||| link == "\n           OR\n           "@
}

/// The layouts of an opening bracket.
pub open spec fn opens(text: Seq<char>) -> bool {
    ||| text == "("@
    ||| text == "(\n           "@
    ||| text == "(\n              "@
    ||| text == "(\n                  "@
}

/// The layouts of a closing bracket.
pub open spec fn closes(text: Seq<char>) -> bool {
    ||| text == ")"@
    ||| text == "\n         )"@
}

impl Condition {
    /// The text of a condition.
    pub open spec fn written(self) -> Seq<char>
        decreases self,
    {
        match self {
            Condition::Never => "false"@,
            Condition::Missing { operand } => operand + " IS NULL"@,
            Condition::Present { operand } => operand + " IS NOT NULL"@,
            Condition::Compare { left, gap, operator, right } => left + gap + operator + gap
                + right,
            Condition::Alike { left, right } => left + " IS NOT DISTINCT FROM "@ + right,
            Condition::Certain { inner } => inner.written() + " IS TRUE"@,
            Condition::Enclosed { open, inner, close } => open + inner.written() + close,
            Condition::Linked { parts, link } => Self::written_with(parts, link),
        }
    }

    pub open spec fn written_with(parts: Seq<Condition>, link: Seq<char>) -> Seq<char>
        decreases parts,
    {
        if parts.len() == 0 {
            Seq::empty()
        } else if parts.len() == 1 {
            parts[0].written()
        } else {
            Self::written_with(parts.drop_last(), link) + link + parts.last().written()
        }
    }

    /// Whether SQL reads the text of a condition as it is laid out here: its
    /// connectives and brackets are those of SQL, and a connective stands bare
    /// only beside its own kind.
    pub open spec fn legible(self) -> bool
        decreases self,
    {
        match self {
            Condition::Never => true,
            Condition::Missing { .. } => true,
            Condition::Present { .. } => true,
            Condition::Compare { .. } => true,
            Condition::Alike { .. } => true,
            Condition::Certain { inner } => *inner is Enclosed && inner.legible(),
            Condition::Enclosed { open, inner, close } => opens(open) && closes(close)
                && inner.legible(),
            Condition::Linked { parts, link } => {
                &&& parts.len() > 0
                &&& conjoins(link) != disjoins(link)
                &&& Self::legible_beside(parts, link)
            },
        }
    }

    pub open spec fn legible_beside(parts: Seq<Condition>, link: Seq<char>) -> bool
        decreases parts,
    {
        parts.len() > 0 ==> {
            &&& Self::legible_beside(parts.drop_last(), link)
            &&& parts.last().legible()
            &&& parts.last().stands_beside(link)
        }
    }

    /// Whether a condition may stand bare beside a connective: it has none of
    /// the other kind.
    pub open spec fn stands_beside(self, link: Seq<char>) -> bool {
        self matches Condition::Linked { link: inner, .. } ==> conjoins(inner) == conjoins(link)
    }

    /// Whether a row passes a condition.
    pub open spec fn passes(self, scene: Scene) -> bool
        decreases self,
    {
        match self {
            Condition::Never => false,
            Condition::Missing { operand } => scene.is_null(operand),
            Condition::Present { operand } => !scene.is_null(operand),
            Condition::Compare { left, operator, right, .. } => scene.says(left, operator, right),
            Condition::Alike { left, right } => (scene.values)(left) == (scene.values)(right),
            Condition::Certain { inner } => inner.passes(scene),
            Condition::Enclosed { inner, .. } => inner.passes(scene),
            Condition::Linked { parts, link } => if conjoins(link) {
                Self::all_pass(parts, scene)
            } else {
                disjoins(link) && Self::some_passes(parts, scene)
            },
        }
    }

    pub open spec fn all_pass(parts: Seq<Condition>, scene: Scene) -> bool
        decreases parts,
    {
        parts.len() > 0 ==> Self::all_pass(parts.drop_last(), scene) && parts.last().passes(scene)
    }

    pub open spec fn some_passes(parts: Seq<Condition>, scene: Scene) -> bool
        decreases parts,
    {
        parts.len() > 0 && (Self::some_passes(parts.drop_last(), scene) || parts.last().passes(
            scene,
        ))
    }
}

/// Writes an expression in brackets.
pub fn bracketed(expression: &str) -> (sql: String)
    ensures
        sql@ == "("@ + expression@ + ")"@,
{
    let mut sql = "(".to_owned();
    sql.append(expression);
    sql.append(")");
    sql
}

/// Writes two parts with something between them.
pub fn between(left: &str, middle: &str, right: &str) -> (sql: String)
    ensures
        sql@ == left@ + middle@ + right@,
{
    let mut sql = left.to_owned();
    sql.append(middle);
    sql.append(right);
    sql
}

/// Every part passes where all do.
pub proof fn all_pass_each(parts: Seq<Condition>, scene: Scene)
    ensures
        Condition::all_pass(parts, scene) <==> forall|index: int|
            0 <= index < parts.len() ==> (#[trigger] parts[index]).passes(scene),
    decreases parts.len(),
{
    if parts.len() > 0 {
        let shorter = parts.drop_last();
        all_pass_each(shorter, scene);
        assert forall|index: int| 0 <= index < shorter.len() implies #[trigger] parts[index]
            == shorter[index] by {}
        if Condition::all_pass(parts, scene) {
            assert forall|index: int| 0 <= index < parts.len() implies (
            #[trigger] parts[index]).passes(scene) by {
                if index < shorter.len() {
                    assert(shorter[index].passes(scene));
                }
            }
        }
        if forall|index: int| 0 <= index < parts.len() ==> (#[trigger] parts[index]).passes(scene) {
            assert forall|index: int| 0 <= index < shorter.len() implies (
            #[trigger] shorter[index]).passes(scene) by {
                assert(parts[index].passes(scene));
            }
            assert(parts[parts.len() - 1].passes(scene));
        }
    }
}

/// Some part passes where one does.
pub proof fn some_passes_one(parts: Seq<Condition>, scene: Scene)
    ensures
        Condition::some_passes(parts, scene) <==> exists|index: int|
            0 <= index < parts.len() && (#[trigger] parts[index]).passes(scene),
    decreases parts.len(),
{
    if parts.len() > 0 {
        let shorter = parts.drop_last();
        some_passes_one(shorter, scene);
        if Condition::some_passes(parts, scene) {
            if parts.last().passes(scene) {
                assert(parts[parts.len() - 1].passes(scene));
            } else {
                let index = choose|index: int|
                    0 <= index < shorter.len() && (#[trigger] shorter[index]).passes(scene);
                assert(parts[index].passes(scene));
            }
        }
        if exists|index: int| 0 <= index < parts.len() && (#[trigger] parts[index]).passes(scene) {
            let index = choose|index: int|
                0 <= index < parts.len() && (#[trigger] parts[index]).passes(scene);
            if index < shorter.len() {
                assert(shorter[index].passes(scene));
            }
        }
    }
}

/// Linked parts are legible where each is, and none has a connective of the
/// other kind.
pub proof fn legible_beside_each(parts: Seq<Condition>, link: Seq<char>)
    requires
        forall|index: int|
            0 <= index < parts.len() ==> (#[trigger] parts[index]).legible()
                && parts[index].stands_beside(link),
    ensures
        Condition::legible_beside(parts, link),
    decreases parts.len(),
{
    if parts.len() > 0 {
        let shorter = parts.drop_last();
        assert forall|index: int| 0 <= index < shorter.len() implies (
        #[trigger] shorter[index]).legible() && shorter[index].stands_beside(link) by {
            assert(parts[index].legible());
        }
        legible_beside_each(shorter, link);
        assert(parts[parts.len() - 1].legible());
    }
}

/// The text of linked parts is their texts with the connective between them.
pub proof fn linked_is_joined(parts: Seq<Condition>, link: Seq<char>, list: Seq<Seq<char>>)
    requires
        parts.len() == list.len(),
        forall|index: int|
            0 <= index < parts.len() ==> list[index] == (#[trigger] parts[index]).written(),
    ensures
        Condition::written_with(parts, link) == text::joined(list, link),
    decreases parts.len(),
{
    if parts.len() > 1 {
        let shorter = parts.drop_last();
        assert forall|index: int| 0 <= index < shorter.len() implies list.drop_last()[index] == (
        #[trigger] shorter[index]).written() by {
            assert(list[index] == parts[index].written());
        }
        linked_is_joined(shorter, link, list.drop_last());
        assert(list[parts.len() - 1] == parts[parts.len() - 1].written());
    } else if parts.len() == 1 {
        assert(list[0] == parts[0].written());
    }
}

/// The connectives are apart: what asks for all parts does not ask for one.
pub proof fn connectives_are_apart()
    ensures
        conjoins(" AND "@) && !disjoins(" AND "@),
        conjoins("\n            AND "@) && !disjoins("\n            AND "@),
        conjoins("\n              AND "@) && !disjoins("\n              AND "@),
        conjoins("\n                  AND "@) && !disjoins("\n                  AND "@),
        conjoins(" AND \n              "@) && !disjoins(" AND \n              "@),
        conjoins(" AND \n                  "@) && !disjoins(" AND \n                  "@),
        disjoins(" OR "@) && !conjoins(" OR "@),
        disjoins("\n           OR\n           "@) && !conjoins("\n           OR\n           "@),
{
    reveal_strlit(" AND ");
    reveal_strlit("\n            AND ");
    reveal_strlit("\n              AND ");
    reveal_strlit("\n                  AND ");
    reveal_strlit(" AND \n              ");
    reveal_strlit(" AND \n                  ");
    reveal_strlit(" OR ");
    reveal_strlit("\n           OR\n           ");
    assert(" AND "@[1] == 'A');
    assert(" OR "@[1] == 'O');
    assert("\n            AND "@[13] == 'A');
    assert("\n              AND "@[12] == ' ');
    assert("\n              AND "@[0] == '\n');
    assert("\n                  AND "@[12] == ' ');
    assert("\n                  AND "@[0] == '\n');
    assert(" AND \n              "@[1] == 'A');
    assert(" AND \n                  "@[1] == 'A');
    assert("\n           OR\n           "@[12] == 'O');
    assert("\n           OR\n           "@[0] == '\n');
    assert("\n           OR\n           "@[13] == 'R');
}

/// Two linked conditions.
pub proof fn two_are_linked(one: Condition, other: Condition, link: Seq<char>, scene: Scene)
    ensures
        ({
            let linked = Condition::Linked { parts: seq![one, other], link };
            &&& linked.written() == one.written() + link + other.written()
            &&& conjoins(link) ==> linked.passes(scene) == (one.passes(scene) && other.passes(
                scene,
            ))
            &&& disjoins(link) && !conjoins(link) ==> linked.passes(scene) == (one.passes(scene)
                || other.passes(scene))
            &&& conjoins(link) != disjoins(link) && one.legible() && other.legible() && (
            one matches Condition::Linked { link: inner, .. } ==> conjoins(inner) == conjoins(link))
                && (other matches Condition::Linked { link: inner, .. } ==> conjoins(inner)
                == conjoins(link)) ==> linked.legible()
        }),
{
    let parts = seq![one, other];
    let first = seq![one];
    assert(parts.drop_last() =~= first);
    assert(first.drop_last() =~= Seq::empty());
    let none = Seq::<Condition>::empty();
    assert(Condition::all_pass(none, scene));
    assert(!Condition::some_passes(none, scene));
    assert(Condition::legible_beside(none, link));
    assert(Condition::all_pass(first, scene) == one.passes(scene));
    assert(Condition::some_passes(first, scene) == one.passes(scene));
    assert(Condition::written_with(first, link) == one.written());
    assert(Condition::legible_beside(first, link) == (one.legible() && (
    one matches Condition::Linked { link: inner, .. } ==> conjoins(inner) == conjoins(link))));
    assert(Condition::all_pass(parts, scene) == (one.passes(scene) && other.passes(scene)));
    assert(Condition::some_passes(parts, scene) == (one.passes(scene) || other.passes(scene)));
    let linked = Condition::Linked { parts, link };
    assert(linked.written() == Condition::written_with(parts, link));
    assert(Condition::written_with(parts, link) == one.written() + link + other.written());
    assert(linked.passes(scene) == (if conjoins(link) {
        Condition::all_pass(parts, scene)
    } else {
        disjoins(link) && Condition::some_passes(parts, scene)
    }));
    assert(Condition::legible_beside(parts, link) == (Condition::legible_beside(first, link)
        && other.legible() && (other matches Condition::Linked { link: inner, .. } ==> conjoins(
        inner,
    ) == conjoins(link))));
    assert(linked.legible() == (conjoins(link) != disjoins(link) && Condition::legible_beside(
        parts,
        link,
    )));
}

/// Three linked conditions.
pub proof fn three_are_linked(
    one: Condition,
    other: Condition,
    third: Condition,
    link: Seq<char>,
    scene: Scene,
)
    ensures
        ({
            let linked = Condition::Linked { parts: seq![one, other, third], link };
            &&& linked.written() == one.written() + link + other.written() + link + third.written()
            &&& conjoins(link) ==> linked.passes(scene) == (one.passes(scene) && other.passes(scene)
                && third.passes(scene))
            &&& conjoins(link) != disjoins(link) && one.legible() && other.legible()
                && third.legible() && !(one is Linked) && !(other is Linked) && !(third is Linked)
                ==> linked.legible()
        }),
{
    let parts = seq![one, other, third];
    let shorter = seq![one, other];
    assert(parts.drop_last() =~= shorter);
    two_are_linked(one, other, link, scene);
    all_pass_each(parts, scene);
    if conjoins(link) && one.passes(scene) && other.passes(scene) && third.passes(scene) {
        assert forall|index: int| 0 <= index < parts.len() implies (
        #[trigger] parts[index]).passes(scene) by {}
    }
    if Condition::all_pass(parts, scene) {
        assert(parts[0].passes(scene) && parts[1].passes(scene) && parts[2].passes(scene));
    }
    if one.legible() && other.legible() && third.legible() && !(one is Linked) && !(
    other is Linked) && !(third is Linked) {
        legible_beside_each(parts, link);
    }
    let linked = Condition::Linked { parts, link };
    assert(Condition::Linked { parts: shorter, link }.written() == Condition::written_with(
        shorter,
        link,
    ));
    assert(Condition::written_with(parts, link) == Condition::written_with(shorter, link) + link
        + third.written());
    assert(linked.written() == Condition::written_with(parts, link));
    assert(conjoins(link) ==> linked.passes(scene) == Condition::all_pass(parts, scene));
    assert(linked.legible() == (conjoins(link) != disjoins(link) && Condition::legible_beside(
        parts,
        link,
    )));
}

/// Conditions that all must pass, written one behind the other.
pub proof fn all_are_linked(parts: Seq<Condition>, list: Seq<Seq<char>>, scene: Scene)
    requires
        parts.len() > 0,
        parts.len() == list.len(),
        forall|index: int|
            0 <= index < parts.len() ==> (#[trigger] parts[index]).written() == list[index]
                && parts[index].legible() && parts[index].stands_beside(" AND "@),
    ensures
        ({
            let condition = Condition::Linked { parts, link: " AND "@ };
            &&& condition.written() == text::joined(list, " AND "@)
            &&& condition.legible()
            &&& condition.passes(scene) <==> forall|index: int|
                0 <= index < parts.len() ==> (#[trigger] parts[index]).passes(scene)
        }),
{
    let condition = Condition::Linked { parts, link: " AND "@ };
    connectives_are_apart();
    linked_is_joined(parts, " AND "@, list);
    legible_beside_each(parts, " AND "@);
    all_pass_each(parts, scene);
    assert(condition.written() == Condition::written_with(parts, " AND "@));
    assert(condition.passes(scene) == Condition::all_pass(parts, scene));
}

/// Conditions of which one must pass, written one behind the other.
pub proof fn some_are_linked(parts: Seq<Condition>, list: Seq<Seq<char>>, scene: Scene)
    requires
        parts.len() > 0,
        parts.len() == list.len(),
        forall|index: int|
            0 <= index < parts.len() ==> (#[trigger] parts[index]).written() == list[index]
                && parts[index].legible() && parts[index].stands_beside(" OR "@),
    ensures
        ({
            let condition = Condition::Linked { parts, link: " OR "@ };
            &&& condition.written() == text::joined(list, " OR "@)
            &&& condition.legible()
            &&& condition.passes(scene) <==> exists|index: int|
                0 <= index < parts.len() && (#[trigger] parts[index]).passes(scene)
        }),
{
    let condition = Condition::Linked { parts, link: " OR "@ };
    connectives_are_apart();
    linked_is_joined(parts, " OR "@, list);
    legible_beside_each(parts, " OR "@);
    some_passes_one(parts, scene);
    assert(condition.written() == Condition::written_with(parts, " OR "@));
    assert(condition.passes(scene) == Condition::some_passes(parts, scene));
}

} // verus!
