//! One catalog contract for ordered kernel scans.
//!
//! Provisioning and execution must agree on the exact B-tree family. The
//! resolved capability therefore contains both the index opclass and direction
//! and the qualified operators used by keyset predicates.

use vstd::prelude::*;

use crate::database::{self, required};
use crate::planner::SortGroupExpr;
use crate::postgres::{self, quote_identifier};
use crate::session::{self, Row};
use crate::sql::{SqlModel, Statement, StatementModel};
use crate::text::{self, unsigned_text};

verus! {

/// Resolves the trusted B-tree family of a sort and an equality operator.
pub const BTREE_ORDER_CAPABILITY_SQL: &'static str =
    r#"
WITH matching AS MATERIALIZED (
  SELECT actual_type.oid AS actual_type_oid,
         opclass.opcintype AS opclass_input_type,
         family.oid AS opfamily_oid,
         opclass.oid AS opclass_oid,
         opclass.opcdefault AS opclass_is_default,
         opclass_namespace.nspname::text AS opclass_namespace,
         opclass.opcname::text AS opclass_name,
         sort_member.amopstrategy::smallint AS sort_strategy,
         pg_catalog.format(
           'OPERATOR(%I.%s)',sort_namespace.nspname,sort_operator.oprname
         ) AS sort_operator,
         pg_catalog.format(
           'OPERATOR(%I.%s)',equality_namespace.nspname,equality_operator.oprname
         ) AS equality_operator
  FROM pg_catalog.pg_amop AS sort_member
  JOIN pg_catalog.pg_opfamily AS family
    ON family.oid=sort_member.amopfamily
  JOIN pg_catalog.pg_opclass AS opclass
    ON opclass.opcfamily=family.oid
   AND opclass.opcintype=sort_member.amoplefttype
   AND opclass.opcintype=sort_member.amoprighttype
  JOIN pg_catalog.pg_type AS actual_type
    ON actual_type.oid=$3
  JOIN pg_catalog.pg_namespace AS family_namespace
    ON family_namespace.oid=family.opfnamespace
   AND family_namespace.nspname='pg_catalog'
  JOIN pg_catalog.pg_namespace AS opclass_namespace
    ON opclass_namespace.oid=opclass.opcnamespace
   AND opclass_namespace.nspname='pg_catalog'
  JOIN pg_catalog.pg_am AS access_method
    ON access_method.oid=opclass.opcmethod
   AND access_method.oid=family.opfmethod
   AND access_method.amname='btree'
  JOIN pg_catalog.pg_operator AS sort_operator
    ON sort_operator.oid=sort_member.amopopr
   AND sort_operator.oprkind='b'
   AND sort_operator.oprleft=opclass.opcintype
   AND sort_operator.oprright=opclass.opcintype
   AND sort_operator.oprresult='boolean'::pg_catalog.regtype
  JOIN pg_catalog.pg_namespace AS sort_namespace
    ON sort_namespace.oid=sort_operator.oprnamespace
   AND sort_namespace.nspname='pg_catalog'
  JOIN pg_catalog.pg_proc AS sort_function
    ON sort_function.oid=sort_operator.oprcode
   AND sort_function.provolatile='i'
  JOIN pg_catalog.pg_amop AS equality_member
    ON equality_member.amopfamily=family.oid
   AND equality_member.amopopr=$2
   AND equality_member.amoplefttype=opclass.opcintype
   AND equality_member.amoprighttype=opclass.opcintype
   AND equality_member.amoppurpose='s'
   AND equality_member.amopstrategy=3
  JOIN pg_catalog.pg_operator AS equality_operator
    ON equality_operator.oid=equality_member.amopopr
   AND equality_operator.oprkind='b'
   AND equality_operator.oprleft=opclass.opcintype
   AND equality_operator.oprright=opclass.opcintype
   AND equality_operator.oprresult='boolean'::pg_catalog.regtype
  JOIN pg_catalog.pg_namespace AS equality_namespace
    ON equality_namespace.oid=equality_operator.oprnamespace
   AND equality_namespace.nspname='pg_catalog'
  JOIN pg_catalog.pg_proc AS equality_function
    ON equality_function.oid=equality_operator.oprcode
   AND equality_function.provolatile='i'
  WHERE sort_member.amopopr=$1
    AND sort_member.amoppurpose='s'
    AND sort_member.amopstrategy IN (1,5)
),
chosen AS (
  SELECT DISTINCT ON (opfamily_oid)
         actual_type_oid,opclass_input_type,opfamily_oid,
         opclass_namespace,opclass_name,sort_strategy,
         sort_operator,equality_operator
  FROM matching
  ORDER BY opfamily_oid,opclass_is_default DESC,opclass_oid
)
SELECT actual_type_oid,opclass_input_type,
       opclass_namespace,opclass_name,sort_strategy,
       sort_operator,equality_operator
FROM chosen
ORDER BY opfamily_oid
"#;

/// How a `NULLS` clause is written.
pub open spec fn nulls_word(nulls_first: bool) -> Seq<char> {
    if nulls_first {
        "FIRST"@
    } else {
        "LAST"@
    }
}

pub fn nulls_text(nulls_first: bool) -> (word: &'static str)
    ensures
        word@ == nulls_word(nulls_first),
{
    if nulls_first {
        "FIRST"
    } else {
        "LAST"
    }
}

/// The B-tree family of one key: its opclass and direction for the index, its
/// qualified operators for keyset predicates.
#[derive(Debug, PartialEq, Eq)]
pub struct BtreeOrder {
    pub opclass: String,
    pub direction: &'static str,
    pub sort_operator: String,
    pub equality_operator: String,
    pub nulls_first: bool,
}

/// A B-tree order as a mathematical value.
#[verifier::ext_equal]
pub struct OrderModel {
    pub opclass: Seq<char>,
    pub direction: Seq<char>,
    pub sort_operator: Seq<char>,
    pub equality_operator: Seq<char>,
    pub nulls_first: bool,
}

impl View for BtreeOrder {
    type V = OrderModel;

    open spec fn view(&self) -> OrderModel {
        OrderModel {
            opclass: self.opclass@,
            direction: self.direction@,
            sort_operator: self.sort_operator@,
            equality_operator: self.equality_operator@,
            nulls_first: self.nulls_first,
        }
    }
}

/// The orders of a list of keys.
pub open spec fn orders(list: Seq<BtreeOrder>) -> Seq<OrderModel> {
    Seq::new(list.len(), |index: int| list[index]@)
}

impl Clone for BtreeOrder {
    fn clone(&self) -> (copy: Self)
        ensures
            copy@ == self@,
    {
        BtreeOrder {
            opclass: self.opclass.clone(),
            direction: self.direction,
            sort_operator: self.sort_operator.clone(),
            equality_operator: self.equality_operator.clone(),
            nulls_first: self.nulls_first,
        }
    }
}

impl OrderModel {
    /// A column of an index in this order.
    pub open spec fn index_sql(self, column: Seq<char>) -> Seq<char> {
        postgres::quoted(column) + " "@ + self.opclass + " "@ + self.direction + " NULLS "@
            + nulls_word(self.nulls_first)
    }
}

impl BtreeOrder {
    /// Writes a column of an index in this order.
    pub fn index_column(&self, column: &str) -> (sql: String)
        ensures
            sql@ == self@.index_sql(column@),
    {
        let mut sql = quote_identifier(column);
        sql.append(" ");
        sql.append(self.opclass.as_str());
        sql.append(" ");
        sql.append(self.direction);
        sql.append(" NULLS ");
        sql.append(nulls_text(self.nulls_first));
        sql
    }
}

/// What a B-tree order depends on.
#[derive(Clone, Copy, Debug, PartialEq, Eq, Structural)]
pub struct CapabilityKey {
    pub sort_operator_oid: u32,
    pub equality_operator_oid: u32,
    pub type_oid: u32,
    pub nulls_first: bool,
}

pub fn capability_key(order: &SortGroupExpr) -> (key: CapabilityKey)
    ensures
        key == (CapabilityKey {
            sort_operator_oid: order.sort_operator_oid,
            equality_operator_oid: order.equality_operator_oid,
            type_oid: order.type_.type_oid,
            nulls_first: order.nulls_first,
        }),
{
    CapabilityKey {
        sort_operator_oid: order.sort_operator_oid,
        equality_operator_oid: order.equality_operator_oid,
        type_oid: order.type_.type_oid,
        nulls_first: order.nulls_first,
    }
}

/// The query that resolves one B-tree order.
pub fn capability_statement(order: &SortGroupExpr) -> (statement: Statement)
    ensures
        statement@ == (StatementModel {
            sql: BTREE_ORDER_CAPABILITY_SQL@,
            arguments: seq![
                SqlModel::Oid(order.sort_operator_oid),
                SqlModel::Oid(order.equality_operator_oid),
                SqlModel::Oid(order.type_.type_oid),
            ],
        }),
{
    Statement::new(BTREE_ORDER_CAPABILITY_SQL.to_owned()).oid(order.sort_operator_oid).oid(
        order.equality_operator_oid,
    ).oid(order.type_.type_oid)
}

/// The resolver's row as the database returned it.
#[derive(Clone, Debug, PartialEq, Eq)]
pub struct CapabilityRow {
    pub actual_type: Option<u32>,
    pub opclass_input_type: Option<u32>,
    pub opclass_namespace: Option<String>,
    pub opclass_name: Option<String>,
    pub sort_strategy: Option<i16>,
    pub sort_operator: Option<String>,
    pub equality_operator: Option<String>,
}

impl CapabilityRow {
    /// The columns of the first returned row, in order.
    pub open spec fn of(rows: Seq<Row>) -> CapabilityRow {
        CapabilityRow {
            actual_type: session::oid(rows, 1),
            opclass_input_type: session::oid(rows, 2),
            opclass_namespace: session::text(rows, 3),
            opclass_name: session::text(rows, 4),
            sort_strategy: session::smallint(rows, 5),
            sort_operator: session::text(rows, 6),
            equality_operator: session::text(rows, 7),
        }
    }

    pub fn read(rows: &Vec<Row>) -> (row: CapabilityRow)
        ensures
            row == CapabilityRow::of(rows@),
    {
        CapabilityRow {
            actual_type: session::first_oid(rows, 1),
            opclass_input_type: session::first_oid(rows, 2),
            opclass_namespace: session::first_text(rows, 3),
            opclass_name: session::first_text(rows, 4),
            sort_strategy: session::first_smallint(rows, 5),
            sort_operator: session::first_text(rows, 6),
            equality_operator: session::first_text(rows, 7),
        }
    }
}

fn operators_message(operator: &str, order: &SortGroupExpr, rest: &str) -> (message: String)
    ensures
        message@ == operators_text(operator@, *order, rest@),
{
    let mut message = operator.to_owned();
    message.append(" sort operator ");
    message.append(unsigned_text(order.sort_operator_oid as u64).as_str());
    message.append(" and equality operator ");
    message.append(unsigned_text(order.equality_operator_oid as u64).as_str());
    message.append(rest);
    message
}

/// A message about the operators of a key.
pub open spec fn operators_text(
    operator: Seq<char>,
    order: SortGroupExpr,
    rest: Seq<char>,
) -> Seq<char> {
    operator + " sort operator "@ + text::decimal(order.sort_operator_oid as int)
        + " and equality operator "@ + text::decimal(order.equality_operator_oid as int) + rest
}

/// The type of a key and the type that its opclass takes, from the one row
/// that the resolver must return.
pub open spec fn types_resolved(
    rows: usize,
    row: CapabilityRow,
    order: SortGroupExpr,
    operator: Seq<char>,
) -> Result<(u32, u32), Seq<char>> {
    text::guarded(
        text::three(
            text::holds(
                rows == 1,
                operators_text(
                    operator,
                    order,
                    " have no unique trusted B-tree operator family"@,
                ),
            ),
            text::checked(database::required_value(row.actual_type, "B-tree actual type"@)),
            text::checked(
                database::required_value(row.opclass_input_type, "B-tree opclass input type"@),
            ),
        ),
        (row.actual_type->0, row.opclass_input_type->0),
    )
}

/// Reads the two types whose binary coercibility decides whether the opclass
/// applies.
pub fn capability_types(
    rows: usize,
    row: &CapabilityRow,
    order: &SortGroupExpr,
    operator: &str,
) -> (outcome: Result<(u32, u32), String>)
    ensures
        text::agrees(outcome, types_resolved(rows, *row, *order, operator@)),
{
    if rows != 1 {
        return Err(
            operators_message(operator, order, " have no unique trusted B-tree operator family"),
        );
    }
    let actual_type: u32 = required(row.actual_type, "B-tree actual type")?;
    let opclass_input_type: u32 = required(row.opclass_input_type, "B-tree opclass input type")?;
    Ok((actual_type, opclass_input_type))
}

/// The direction of a B-tree strategy: less-than ascends, greater-than
/// descends, and no other strategy orders.
pub open spec fn direction(strategy: i16, operator: Seq<char>) -> Result<Seq<char>, Seq<char>> {
    if strategy == 1 {
        Ok("ASC"@)
    } else if strategy == 5 {
        Ok("DESC"@)
    } else {
        Err(operator + " B-tree strategy is invalid"@)
    }
}

pub fn decode_direction(strategy: i16, operator: &str) -> (outcome: Result<&'static str, String>)
    ensures
        match (outcome, direction(strategy, operator@)) {
            (Ok(word), Ok(expected)) => word@ == expected,
            (Err(error), Err(message)) => error@ == message,
            _ => false,
        },
{
    if strategy == 1 {
        Ok("ASC")
    } else if strategy == 5 {
        Ok("DESC")
    } else {
        Err(operator.to_owned().concat(" B-tree strategy is invalid"))
    }
}

/// The order that a resolver row stands for. `coercible` says whether the type
/// of the key is binary coercible to the type that the opclass takes.
pub open spec fn order_resolved(
    row: CapabilityRow,
    coercible: bool,
    order: SortGroupExpr,
    operator: Seq<char>,
) -> Result<OrderModel, Seq<char>> {
    let strategy = row.sort_strategy->0;
    text::guarded(
        text::both(
            text::four(
                text::holds(
                    coercible,
                    operators_text(
                        operator,
                        order,
                        " do not accept type "@ + text::decimal(order.type_.type_oid as int),
                    ),
                ),
                text::checked(
                    database::required_value(row.opclass_namespace, "B-tree opclass namespace"@),
                ),
                text::checked(database::required_value(row.opclass_name, "B-tree opclass name"@)),
                text::checked(database::required_value(row.sort_strategy, "B-tree sort strategy"@)),
            ),
            text::three(
                text::checked(direction(strategy, operator)),
                text::checked(database::required_value(row.sort_operator, "B-tree sort operator"@)),
                text::checked(
                    database::required_value(row.equality_operator, "B-tree equality operator"@),
                ),
            ),
        ),
        OrderModel {
            opclass: postgres::quoted(row.opclass_namespace->0@) + "."@ + postgres::quoted(
                row.opclass_name->0@,
            ),
            direction: direction(strategy, operator)->Ok_0,
            sort_operator: row.sort_operator->0@,
            equality_operator: row.equality_operator->0@,
            nulls_first: order.nulls_first,
        },
    )
}

/// Decodes the resolver row of a key.
pub fn decode(row: CapabilityRow, coercible: bool, order: &SortGroupExpr, operator: &str) -> (
    outcome: Result<BtreeOrder, String>)
    ensures
        text::agrees_view(outcome, order_resolved(row, coercible, *order, operator@)),
{
    if !coercible {
        let mut rest = " do not accept type ".to_owned();
        rest.append(unsigned_text(order.type_.type_oid as u64).as_str());
        return Err(operators_message(operator, order, rest.as_str()));
    }
    let namespace = required(row.opclass_namespace, "B-tree opclass namespace")?;
    let name = required(row.opclass_name, "B-tree opclass name")?;
    let strategy: i16 = required(row.sort_strategy, "B-tree sort strategy")?;
    let mut opclass = quote_identifier(namespace.as_str());
    opclass.append(".");
    opclass.append(quote_identifier(name.as_str()).as_str());
    let word = decode_direction(strategy, operator)?;
    let sort_operator = required(row.sort_operator, "B-tree sort operator")?;
    let equality_operator = required(row.equality_operator, "B-tree equality operator")?;
    Ok(
        BtreeOrder {
            opclass,
            direction: word,
            sort_operator,
            equality_operator,
            nulls_first: order.nulls_first,
        },
    )
}

/// The most B-tree orders that one backend remembers.
///
/// The metadata is immutable for the lifetime of a backend, since only
/// `pg_catalog` families and operators are accepted. The cache is bounded
/// nevertheless: a long-lived runtime may serve many separately created
/// dataflows.
pub const CAPABILITY_CACHE_CAPACITY: usize = 256;

/// The map that a list of entries stands for.
pub open spec fn entries_map(entries: Seq<(CapabilityKey, OrderModel)>) -> Map<
    CapabilityKey,
    OrderModel,
>
    decreases entries.len(),
{
    if entries.len() == 0 {
        Map::empty()
    } else {
        entries_map(entries.drop_last()).insert(entries.last().0, entries.last().1)
    }
}

/// Whether no key occurs twice.
pub open spec fn distinct_keys(entries: Seq<(CapabilityKey, OrderModel)>) -> bool {
    forall|left: int, right: int|
        0 <= left < right < entries.len() ==> (#[trigger] entries[left]).0 != (
        #[trigger] entries[right]).0
}

proof fn entries_map_holds_each(entries: Seq<(CapabilityKey, OrderModel)>)
    requires
        distinct_keys(entries),
    ensures
        entries_map(entries).dom().finite(),
        entries_map(entries).dom().len() == entries.len(),
        forall|index: int|
            0 <= index < entries.len() ==> entries_map(entries).contains_pair(
                (#[trigger] entries[index]).0,
                entries[index].1,
            ),
        forall|key: CapabilityKey| #[trigger]
            entries_map(entries).contains_key(key) ==> exists|index: int|
                0 <= index < entries.len() && (#[trigger] entries[index]).0 == key,
    decreases entries.len(),
{
    if entries.len() > 0 {
        let rest = entries.drop_last();
        assert forall|left: int, right: int| 0 <= left < right < rest.len() implies (
        #[trigger] rest[left]).0 != (#[trigger] rest[right]).0 by {
            assert(entries[left].0 != entries[right].0);
        }
        entries_map_holds_each(rest);
        let last = entries.last().0;
        if entries_map(rest).contains_key(last) {
            let index = choose|index: int| 0 <= index < rest.len() && (#[trigger] rest[index]).0
                == last;
            assert(entries[index].0 != entries[entries.len() - 1].0);
        }
        assert forall|index: int| 0 <= index < entries.len() implies entries_map(
            entries,
        ).contains_pair((#[trigger] entries[index]).0, entries[index].1) by {
            if index < rest.len() {
                assert(rest[index] == entries[index]);
                assert(entries[index].0 != entries[entries.len() - 1].0);
            }
        }
        assert forall|key: CapabilityKey| #[trigger]
            entries_map(entries).contains_key(key) implies exists|index: int|
            0 <= index < entries.len() && (#[trigger] entries[index]).0 == key by {
            if key == last {
                assert(entries[entries.len() - 1].0 == key);
            } else {
                let index = choose|index: int|
                    0 <= index < rest.len() && (#[trigger] rest[index]).0 == key;
                assert(entries[index].0 == key);
            }
        }
    }
}

proof fn entries_map_updated(
    entries: Seq<(CapabilityKey, OrderModel)>,
    index: int,
    order: OrderModel,
)
    requires
        distinct_keys(entries),
        0 <= index < entries.len(),
    ensures
        entries_map(entries.update(index, (entries[index].0, order))) == entries_map(
            entries,
        ).insert(entries[index].0, order),
{
    let key = entries[index].0;
    let changed = entries.update(index, (key, order));
    assert forall|left: int, right: int| 0 <= left < right < changed.len() implies (
    #[trigger] changed[left]).0 != (#[trigger] changed[right]).0 by {
        assert(entries[left].0 != entries[right].0);
    }
    entries_map_holds_each(entries);
    entries_map_holds_each(changed);
    assert(changed[index] == (key, order));
    assert forall|other: CapabilityKey| entries_map(changed).contains_key(other) == (#[trigger]
    entries_map(entries).insert(key, order).contains_key(other)) by {
        if entries_map(changed).contains_key(other) {
            let at = choose|at: int| 0 <= at < changed.len() && (#[trigger] changed[at]).0 == other;
            assert(entries[at].0 == other);
        }
        if entries_map(entries).contains_key(other) {
            let at = choose|at: int| 0 <= at < entries.len() && (#[trigger] entries[at]).0 == other;
            assert(changed[at].0 == other);
        }
    }
    assert forall|other: CapabilityKey| #[trigger]
        entries_map(changed).contains_key(other) implies entries_map(changed)[other]
        == entries_map(entries).insert(key, order)[other] by {
        let at = choose|at: int| 0 <= at < changed.len() && (#[trigger] changed[at]).0 == other;
        assert(entries[at].0 == other);
        if at != index {
            if other == key {
                if at < index {
                    assert(entries[at].0 != entries[index].0);
                } else {
                    assert(entries[index].0 != entries[at].0);
                }
            }
        }
    }
    assert(entries_map(changed) =~= entries_map(entries).insert(key, order));
}

/// A bounded memory of resolved B-tree orders.
pub struct CapabilityCache {
    entries: Vec<(CapabilityKey, BtreeOrder)>,
}

impl View for CapabilityCache {
    type V = Map<CapabilityKey, OrderModel>;

    closed spec fn view(&self) -> Map<CapabilityKey, OrderModel> {
        entries_map(self.model())
    }
}

/// The cache after one insertion: a full cache that lacks the key starts over.
pub open spec fn cache_after(
    before: Map<CapabilityKey, OrderModel>,
    key: CapabilityKey,
    order: OrderModel,
) -> Map<CapabilityKey, OrderModel> {
    if before.dom().len() >= CAPABILITY_CACHE_CAPACITY && !before.contains_key(key) {
        Map::empty().insert(key, order)
    } else {
        before.insert(key, order)
    }
}

impl CapabilityCache {
    closed spec fn model(&self) -> Seq<(CapabilityKey, OrderModel)> {
        Seq::new(
            self.entries@.len(),
            |index: int| (self.entries@[index].0, self.entries@[index].1@),
        )
    }

    #[verifier::type_invariant]
    closed spec fn well_formed(&self) -> bool {
        distinct_keys(self.model()) && self.entries@.len() <= CAPABILITY_CACHE_CAPACITY
    }

    /// An empty cache.
    pub fn new() -> (cache: Self)
        ensures
            cache@ == Map::<CapabilityKey, OrderModel>::empty(),
    {
        CapabilityCache { entries: Vec::new() }
    }

    /// How many orders are remembered; never more than the capacity.
    pub fn len(&self) -> (length: usize)
        ensures
            self@.dom().finite(),
            length == self@.dom().len(),
            length <= CAPABILITY_CACHE_CAPACITY,
    {
        proof {
            use_type_invariant(self);
            entries_map_holds_each(self.model());
        }
        self.entries.len()
    }

    /// The remembered keys, each once.
    pub fn keys(&self) -> (keys: Vec<CapabilityKey>)
        ensures
            keys@.no_duplicates(),
            forall|key: CapabilityKey| self@.contains_key(key) <==> #[trigger] keys@.contains(key),
    {
        let mut keys: Vec<CapabilityKey> = Vec::new();
        let mut index: usize = 0;
        while index < self.entries.len()
            invariant
                index <= self.entries.len(),
                keys.len() == index,
                forall|k: int| 0 <= k < index ==> #[trigger] keys@[k] == self.entries@[k].0,
            decreases self.entries.len() - index,
        {
            keys.push(self.entries[index].0);
            index = index + 1;
        }
        proof {
            use_type_invariant(self);
            let model = self.model();
            entries_map_holds_each(model);
            assert forall|left: int, right: int|
                0 <= left < keys@.len() && 0 <= right < keys@.len() && left
                    != right implies keys@[left] != keys@[right] by {
                if left < right {
                    assert(model[left].0 != model[right].0);
                } else {
                    assert(model[right].0 != model[left].0);
                }
            }
            assert forall|key: CapabilityKey| self@.contains_key(key) <==> #[trigger] keys@.contains(
                key,
            ) by {
                if self@.contains_key(key) {
                    let at = choose|at: int|
                        0 <= at < model.len() && (#[trigger] model[at]).0 == key;
                    assert(keys@[at] == key);
                }
                if keys@.contains(key) {
                    let at = choose|at: int| 0 <= at < keys@.len() && keys@[at] == key;
                    assert(model[at].0 == key);
                }
            }
        }
        keys
    }

    fn position(&self, key: &CapabilityKey) -> (found: Option<usize>)
        ensures
            match found {
                Some(index) => index < self.entries@.len() && self.entries@[index as int].0 == *key,
                None => !self@.contains_key(*key),
            },
    {
        let mut index: usize = 0;
        while index < self.entries.len()
            invariant
                index <= self.entries.len(),
                forall|k: int| 0 <= k < index ==> (#[trigger] self.entries@[k]).0 != *key,
            decreases self.entries.len() - index,
        {
            if self.entries[index].0 == *key {
                return Some(index);
            }
            index = index + 1;
        }
        proof {
            use_type_invariant(self);
            entries_map_holds_each(self.model());
            if self@.contains_key(*key) {
                let at = choose|at: int|
                    0 <= at < self.model().len() && (#[trigger] self.model()[at]).0 == *key;
                assert(self.entries@[at].0 == *key);
            }
        }
        None
    }

    /// The remembered order of a key.
    pub fn get(&self, key: &CapabilityKey) -> (found: Option<BtreeOrder>)
        ensures
            match found {
                Some(order) => self@.contains_pair(*key, order@),
                None => !self@.contains_key(*key),
            },
    {
        match self.position(key) {
            Some(index) => {
                proof {
                    use_type_invariant(self);
                    entries_map_holds_each(self.model());
                    assert(self.model()[index as int].0 == *key);
                }
                Some(self.entries[index].1.clone())
            },
            None => None,
        }
    }

    /// Remembers the order of a key. A known key is replaced in place; a new
    /// key in a full cache drops everything that was remembered before.
    pub fn insert(&mut self, key: CapabilityKey, resolved: BtreeOrder)
        ensures
            final(self)@ == cache_after(old(self)@, key, resolved@),
    {
        proof {
            use_type_invariant(&*self);
            entries_map_holds_each(self.model());
        }
        let ghost before = self.model();
        match self.position(&key) {
            Some(index) => {
                proof {
                    assert(before[index as int].0 == key);
                    entries_map_updated(before, index as int, resolved@);
                }
                let mut entries: Vec<(CapabilityKey, BtreeOrder)> = Vec::new();
                std::mem::swap(&mut entries, &mut self.entries);
                entries.set(index, (key, resolved));
                proof {
                    let after = Seq::new(
                        entries@.len(),
                        |index: int| (entries@[index].0, entries@[index].1@),
                    );
                    assert(after =~= before.update(index as int, (key, resolved@)));
                    assert forall|left: int, right: int|
                        0 <= left < right < after.len() implies (#[trigger] after[left]).0 != (
                    #[trigger] after[right]).0 by {
                        assert(before[left].0 != before[right].0);
                    }
                }
                *self = CapabilityCache { entries };
                assert(self.model() =~= before.update(index as int, (key, resolved@)));
                assert(entries_map(before).contains_pair(before[index as int].0, before[index as int].1));
            },
            None => {
                let mut entries: Vec<(CapabilityKey, BtreeOrder)> = Vec::new();
                if self.entries.len() < CAPABILITY_CACHE_CAPACITY {
                    std::mem::swap(&mut entries, &mut self.entries);
                }
                let ghost kept = Seq::new(
                    entries@.len(),
                    |index: int| (entries@[index].0, entries@[index].1@),
                );
                proof {
                    if entries@.len() > 0 {
                        assert(kept =~= before);
                    }
                }
                entries.push((key, resolved));
                proof {
                    let after = Seq::new(
                        entries@.len(),
                        |index: int| (entries@[index].0, entries@[index].1@),
                    );
                    assert(after =~= kept.push((key, resolved@)));
                    assert forall|left: int, right: int|
                        0 <= left < right < after.len() implies (#[trigger] after[left]).0 != (
                    #[trigger] after[right]).0 by {
                        if right < kept.len() {
                            assert(kept[left].0 != kept[right].0);
                        } else if kept.len() > 0 {
                            assert(before[left].0 != key);
                        }
                    }
                    assert(after.drop_last() =~= kept);
                }
                *self = CapabilityCache { entries };
                proof {
                    assert(self.model() =~= kept.push((key, resolved@)));
                    assert(self.model().drop_last() =~= kept);
                    assert(self.model().last() == (key, resolved@));
                    if before.len() < CAPABILITY_CACHE_CAPACITY {
                        assert(kept =~= before);
                    } else {
                        assert(kept =~= Seq::empty());
                        assert(entries_map(kept) =~= Map::empty());
                    }
                }
            },
        }
    }
}

/// Looks a key up in the cache.
pub fn cached(cache: &CapabilityCache, order: &SortGroupExpr) -> (found: Option<BtreeOrder>)
    ensures
        ({
            let key = CapabilityKey {
                sort_operator_oid: order.sort_operator_oid,
                equality_operator_oid: order.equality_operator_oid,
                type_oid: order.type_.type_oid,
                nulls_first: order.nulls_first,
            };
            match found {
                Some(order) => cache@.contains_pair(key, order@),
                None => !cache@.contains_key(key),
            }
        }),
{
    cache.get(&capability_key(order))
}

/// Remembers a resolved order.
pub fn cache_insert(cache: &mut CapabilityCache, key: CapabilityKey, resolved: BtreeOrder)
    ensures
        final(cache)@ == cache_after(old(cache)@, key, resolved@),
{
    cache.insert(key, resolved);
}

/// What a cache remembers is read back until another new key finds it full,
/// and it never outgrows its capacity.
pub proof fn cache_reads_back(
    before: Map<CapabilityKey, OrderModel>,
    key: CapabilityKey,
    order: OrderModel,
    other: CapabilityKey,
)
    requires
        before.dom().finite(),
        before.dom().len() <= CAPABILITY_CACHE_CAPACITY,
    ensures
        cache_after(before, key, order).contains_pair(key, order),
        cache_after(before, key, order).dom().len() <= CAPABILITY_CACHE_CAPACITY,
        other != key && before.contains_key(other) && (before.contains_key(key)
            || before.dom().len() < CAPABILITY_CACHE_CAPACITY) ==> cache_after(
            before,
            key,
            order,
        ).contains_pair(other, before[other]),
{
}

} // verus!
