//! The SQL surface of a Join stage: relations, key predicates, and the exact
//! columns and indexes of its arrangements.

use vstd::prelude::*;

use crate::database::{self, required};
use crate::execution::abi::{self, has_type};
use crate::execution::continuation::Attribute;
use crate::execution::join::planner::InputSide;
use crate::execution::stream::{self, attribute_matches_slot};
use crate::planner::{BindingId, SlotType};
use crate::predicate::bracketed;
use crate::sql::{SqlModel, Statement, StatementModel, BYTEAOID, INT8OID};
use crate::text::{self, fail, join, listed, render, same_text, unsigned_text, Holes};

verus! {

/// Whether a relation has a plain unique index on its row key alone.
pub const ROW_KEY_INDEX_SQL: &'static str =
    r#"
            SELECT EXISTS (
              SELECT 1
              FROM pg_catalog.pg_index AS identity_index
              WHERE identity_index.indrelid = $1
                AND identity_index.indisunique
                AND identity_index.indisvalid
                AND identity_index.indisready
                AND identity_index.indislive
                AND identity_index.indnkeyatts = 1
                AND identity_index.indnatts = 1
                AND identity_index.indkey[0] = 2
                AND identity_index.indexprs IS NULL
                AND identity_index.indpred IS NULL
            )
            "#;

/// Whether a relation has a plain index on exactly the given columns.
pub const KEY_INDEX_SQL: &'static str =
    r#"
                SELECT EXISTS (
                  SELECT 1
                  FROM pg_catalog.pg_index AS identity_index
                  WHERE identity_index.indrelid = $1
                    AND identity_index.indnkeyatts = {arity}
                    AND identity_index.indnatts = {arity}
                    AND identity_index.indisvalid
                    AND identity_index.indisready
                    AND identity_index.indislive
                    AND identity_index.indexprs IS NULL
                    AND identity_index.indpred IS NULL
                    AND {index_keys}
                )
                "#;

/// The SQL of one Join stage: its relations, its types and its compiled
/// expressions. The left row is named `left_row` and the right `right_row`.
#[derive(Clone, Debug, PartialEq, Eq)]
pub struct Layout {
    pub left_payload: String,
    pub left_type: String,
    pub right_payload: String,
    pub right_type: String,
    pub output_payload: String,
    pub output_type: String,
    pub left_state: String,
    pub right_state: String,
    pub left_key_exprs: Vec<String>,
    pub right_key_exprs: Vec<String>,
    pub condition: String,
    pub outputs: String,
}

/// The name of a side's row in a statement.
pub open spec fn alias(side: InputSide) -> Seq<char> {
    match side {
        InputSide::Left => "left_row"@,
        InputSide::Right => "right_row"@,
    }
}

pub fn side_alias(side: InputSide) -> (name: &'static str)
    ensures
        name@ == alias(side),
{
    match side {
        InputSide::Left => "left_row",
        InputSide::Right => "right_row",
    }
}

impl Layout {
    pub open spec fn payload_of(self, side: InputSide) -> Seq<char> {
        match side {
            InputSide::Left => self.left_payload@,
            InputSide::Right => self.right_payload@,
        }
    }

    pub fn input_payload(&self, side: InputSide) -> (sql: &str)
        ensures
            sql@ == self.payload_of(side),
    {
        match side {
            InputSide::Left => self.left_payload.as_str(),
            InputSide::Right => self.right_payload.as_str(),
        }
    }

    pub open spec fn type_of(self, side: InputSide) -> Seq<char> {
        match side {
            InputSide::Left => self.left_type@,
            InputSide::Right => self.right_type@,
        }
    }

    pub fn input_type(&self, side: InputSide) -> (sql: &str)
        ensures
            sql@ == self.type_of(side),
    {
        match side {
            InputSide::Left => self.left_type.as_str(),
            InputSide::Right => self.right_type.as_str(),
        }
    }

    pub open spec fn state_of(self, side: InputSide) -> Seq<char> {
        match side {
            InputSide::Left => self.left_state@,
            InputSide::Right => self.right_state@,
        }
    }

    pub fn state(&self, side: InputSide) -> (sql: &str)
        ensures
            sql@ == self.state_of(side),
    {
        match side {
            InputSide::Left => self.left_state.as_str(),
            InputSide::Right => self.right_state.as_str(),
        }
    }

    pub open spec fn keys_of(self, side: InputSide) -> Seq<Seq<char>> {
        match side {
            InputSide::Left => text::texts(self.left_key_exprs@),
            InputSide::Right => text::texts(self.right_key_exprs@),
        }
    }

    pub fn key_exprs(&self, side: InputSide) -> (keys: &Vec<String>)
        ensures
            text::texts(keys@) == self.keys_of(side),
    {
        match side {
            InputSide::Left => &self.left_key_exprs,
            InputSide::Right => &self.right_key_exprs,
        }
    }

    /// Whether equality keys narrow the candidates.
    pub open spec fn is_keyed(self) -> bool {
        self.left_key_exprs@.len() > 0 && self.right_key_exprs@.len() > 0
    }

    pub fn keyed(&self) -> (keyed: bool)
        ensures
            keyed == self.is_keyed(),
    {
        !self.left_key_exprs.is_empty() && !self.right_key_exprs.is_empty()
    }

    /// The projected output row.
    pub open spec fn output_row_of(self) -> Seq<char> {
        "ROW("@ + self.outputs@ + ")::"@ + self.output_type@
    }

    pub fn output_row(&self) -> (sql: String)
        ensures
            sql@ == self.output_row_of(),
    {
        let mut sql = "ROW(".to_owned();
        sql.append(self.outputs.as_str());
        sql.append(")::");
        sql.append(self.output_type.as_str());
        sql
    }
}

/// The column of an equality key, counted from zero.
pub open spec fn key_name(ordinal: int) -> Seq<char> {
    "key_"@ + text::decimal(ordinal)
}

pub fn key_column(ordinal: usize) -> (name: String)
    ensures
        name@ == key_name(ordinal as int),
{
    "key_".to_owned().concat(unsigned_text(ordinal as u64).as_str())
}

/// A column of a named row.
pub open spec fn member(row: Seq<char>, column: Seq<char>) -> Seq<char> {
    row + "."@ + column
}

fn member_sql(row: &str, column: &str) -> (sql: String)
    ensures
        sql@ == member(row@, column@),
{
    let mut sql = row.to_owned();
    sql.append(".");
    sql.append(column);
    sql
}

/// The comparison of one key column with its expression.
pub open spec fn key_equal(row: Seq<char>, ordinal: int, expression: Seq<char>) -> Seq<char> {
    member(row, key_name(ordinal)) + " "@ + "="@ + " "@ + ("("@ + expression + ")"@)
}

fn key_equal_sql(row: &str, ordinal: usize, expression: &str) -> (sql: String)
    ensures
        sql@ == key_equal(row@, ordinal as int, expression@),
{
    let mut sql = member_sql(row, key_column(ordinal).as_str());
    sql.append(" ");
    sql.append("=");
    sql.append(" ");
    sql.append(bracketed(expression).as_str());
    sql
}

/// The predicate that every key is equal.
pub open spec fn exact_predicate(keys: Seq<Seq<char>>, row: Seq<char>) -> Seq<char> {
    text::joined(
        Seq::new(keys.len(), |ordinal: int| key_equal(row, ordinal, keys[ordinal])),
        " AND "@,
    )
}

pub fn key_exact_predicate_sql(layout: &Layout, side: InputSide, row: &str) -> (sql: String)
    ensures
        sql@ == exact_predicate(layout.keys_of(side), row@),
{
    let keys = layout.key_exprs(side);
    let list = listed(
        keys.len(),
        |ordinal: usize| -> (item: String)
            requires
                ordinal < keys.len(),
            ensures
                item@ == key_equal(row@, ordinal as int, keys@[ordinal as int]@)
            { key_equal_sql(row, ordinal, keys[ordinal].as_str()) },
    );
    proof {
        let models = layout.keys_of(side);
        assert(text::texts(list@) =~= Seq::new(
            models.len(),
            |ordinal: int| key_equal(row@, ordinal, models[ordinal]),
        ));
    }
    join(&list, " AND ")
}

/// A key column or its expression is NULL.
pub open spec fn key_missing(row: Seq<char>, ordinal: int, expression: Seq<char>) -> Seq<char> {
    member(row, key_name(ordinal)) + " IS NULL"@ + " OR "@ + ("("@ + expression + ")"@
        + " IS NULL"@)
}

fn key_missing_sql(row: &str, ordinal: usize, expression: &str) -> (sql: String)
    ensures
        sql@ == key_missing(row@, ordinal as int, expression@),
{
    let mut sql = member_sql(row, key_column(ordinal).as_str());
    sql.append(" IS NULL");
    sql.append(" OR ");
    sql.append(bracketed(expression).concat(" IS NULL").as_str());
    sql
}

/// A key that is equal or unknown.
pub open spec fn key_compatible(row: Seq<char>, ordinal: int, expression: Seq<char>) -> Seq<char> {
    "("@ + key_equal(row, ordinal, expression) + " OR "@ + key_missing(row, ordinal, expression)
        + ")"@
}

fn key_compatible_sql(row: &str, ordinal: usize, expression: &str) -> (sql: String)
    ensures
        sql@ == key_compatible(row@, ordinal as int, expression@),
{
    let mut sql = "(".to_owned();
    sql.append(key_equal_sql(row, ordinal, expression).as_str());
    sql.append(" OR ");
    sql.append(key_missing_sql(row, ordinal, expression).as_str());
    sql.append(")");
    sql
}

/// The predicate that no key differs and at least one is unknown. It is
/// disjoint from the exact predicate.
pub open spec fn unknown_predicate(keys: Seq<Seq<char>>, row: Seq<char>) -> Seq<char> {
    "("@ + ("("@ + text::joined(
        Seq::new(keys.len(), |ordinal: int| key_compatible(row, ordinal, keys[ordinal])),
        " AND "@,
    ) + ")"@ + " AND "@ + ("("@ + text::joined(
        Seq::new(keys.len(), |ordinal: int| key_missing(row, ordinal, keys[ordinal])),
        " OR "@,
    ) + ")"@)) + ")"@
}

pub fn key_unknown_predicate_sql(layout: &Layout, side: InputSide, row: &str) -> (sql: String)
    ensures
        sql@ == unknown_predicate(layout.keys_of(side), row@),
{
    let keys = layout.key_exprs(side);
    let compatible = listed(
        keys.len(),
        |ordinal: usize| -> (item: String)
            requires
                ordinal < keys.len(),
            ensures
                item@ == key_compatible(row@, ordinal as int, keys@[ordinal as int]@)
            { key_compatible_sql(row, ordinal, keys[ordinal].as_str()) },
    );
    let missing = listed(
        keys.len(),
        |ordinal: usize| -> (item: String)
            requires
                ordinal < keys.len(),
            ensures
                item@ == key_missing(row@, ordinal as int, keys@[ordinal as int]@)
            { key_missing_sql(row, ordinal, keys[ordinal].as_str()) },
    );
    proof {
        let models = layout.keys_of(side);
        assert(text::texts(compatible@) =~= Seq::new(
            models.len(),
            |ordinal: int| key_compatible(row@, ordinal, models[ordinal]),
        ));
        assert(text::texts(missing@) =~= Seq::new(
            models.len(),
            |ordinal: int| key_missing(row@, ordinal, models[ordinal]),
        ));
    }
    let mut sql = bracketed(join(&compatible, " AND ").as_str());
    sql.append(" AND ");
    sql.append(bracketed(join(&missing, " OR ").as_str()).as_str());
    bracketed(sql.as_str())
}

/// The predicate on the keys of a candidate: equal, or also unknown.
pub open spec fn key_predicate(
    layout: Layout,
    side: InputSide,
    row: Seq<char>,
    include_unknown: bool,
) -> Seq<char> {
    if !layout.is_keyed() {
        "TRUE"@
    } else if include_unknown {
        "("@ + exact_predicate(layout.keys_of(side), row) + ")"@ + " OR "@ + ("("@
            + unknown_predicate(layout.keys_of(side), row) + ")"@)
    } else {
        "("@ + exact_predicate(layout.keys_of(side), row) + ")"@
    }
}

pub fn key_predicate_sql(layout: &Layout, side: InputSide, row: &str, include_unknown: bool) -> (
    sql: String)
    ensures
        sql@ == key_predicate(*layout, side, row@, include_unknown),
{
    if !layout.keyed() {
        return "TRUE".to_owned();
    }
    let mut sql = bracketed(key_exact_predicate_sql(layout, side, row).as_str());
    if include_unknown {
        sql.append(" OR ");
        sql.append(bracketed(key_unknown_predicate_sql(layout, side, row).as_str()).as_str());
    }
    sql
}

/// The key predicate as a further join condition, or nothing without keys.
pub open spec fn key_join(
    layout: Layout,
    side: InputSide,
    row: Seq<char>,
    include_unknown: bool,
) -> Seq<char> {
    if layout.is_keyed() {
        "AND "@ + key_predicate(layout, side, row, include_unknown)
    } else {
        ""@
    }
}

pub fn key_join_sql(layout: &Layout, side: InputSide, row: &str, include_unknown: bool) -> (sql:
    String)
    ensures
        sql@ == key_join(*layout, side, row@, include_unknown),
{
    if !layout.keyed() {
        return "".to_owned();
    }
    "AND ".to_owned().concat(key_predicate_sql(layout, side, row, include_unknown).as_str())
}

/// The key columns of a side, each behind a comma.
pub open spec fn key_column_list(count: nat) -> Seq<char> {
    text::joined(Seq::new(count, |ordinal: int| key_name(ordinal)), ","@)
}

pub fn key_columns_sql(count: usize) -> (sql: String)
    ensures
        sql@ == key_column_list(count as nat),
{
    let list = listed(
        count,
        |ordinal: usize| -> (item: String)
            requires
                ordinal < count,
            ensures
                item@ == key_name(ordinal as int)
            { key_column(ordinal) },
    );
    assert(text::texts(list@) =~= Seq::new(count as nat, |ordinal: int| key_name(ordinal)));
    join(&list, ",")
}

/// The columns of an arrangement row that an insertion fills.
pub open spec fn insert_column_list(count: nat) -> Seq<char> {
    if count == 0 {
        "row_key,row_value,multiplicity,match_count,unknown_count"@
    } else {
        "row_key,row_value,"@ + key_column_list(count) + ",multiplicity,match_count,unknown_count"@
    }
}

pub fn insert_columns_sql(count: usize) -> (sql: String)
    ensures
        sql@ == insert_column_list(count as nat),
{
    if count == 0 {
        return "row_key,row_value,multiplicity,match_count,unknown_count".to_owned();
    }
    let mut sql = "row_key,row_value,".to_owned();
    sql.append(key_columns_sql(count).as_str());
    sql.append(",multiplicity,match_count,unknown_count");
    sql
}

/// One input column of a plan and the input that it belongs to.
#[derive(Clone, Copy, Debug, PartialEq, Eq, Structural)]
pub struct InputSlot {
    pub binding: BindingId,
    pub input: u16,
    pub type_: SlotType,
}

/// One equality between a left and a right column.
#[derive(Clone, Copy, Debug, PartialEq, Eq, Structural)]
pub struct JoinEquiKey {
    pub left_binding: BindingId,
    pub right_binding: BindingId,
}

impl JoinEquiKey {
    pub open spec fn of(self, input: u16) -> BindingId {
        if input == 0 {
            self.left_binding
        } else {
            self.right_binding
        }
    }

    pub fn binding(&self, input: u16) -> (binding: BindingId)
        ensures
            binding == self.of(input),
    {
        if input == 0 {
            self.left_binding
        } else {
            self.right_binding
        }
    }
}

/// The first slot of a binding.
pub open spec fn slot_of(slots: Seq<InputSlot>, binding: BindingId) -> Option<InputSlot>
    decreases slots.len(),
{
    if slots.len() == 0 {
        None
    } else if slots[0].binding == binding {
        Some(slots[0])
    } else {
        slot_of(slots.drop_first(), binding)
    }
}

fn find_slot(slots: &Vec<InputSlot>, binding: BindingId) -> (found: Option<InputSlot>)
    ensures
        found == slot_of(slots@, binding),
{
    let mut index: usize = 0;
    assert(slots@.skip(0) =~= slots@);
    while index < slots.len()
        invariant
            index <= slots.len(),
            slot_of(slots@, binding) == slot_of(slots@.skip(index as int), binding),
        decreases slots.len() - index,
    {
        if slots[index].binding == binding {
            return Some(slots[index]);
        }
        assert(slots@.skip(index as int).drop_first() =~= slots@.skip(index + 1));
        index = index + 1;
    }
    None
}

/// The slot of one equality key on one input.
pub open spec fn key_slot(slots: Seq<InputSlot>, key: JoinEquiKey, input: u16) -> Result<
    InputSlot,
    Seq<char>,
> {
    let binding = key.of(input);
    match slot_of(slots, binding) {
        None => Err(
            "Join equality key references missing BindingId "@ + text::decimal(binding.0 as int),
        ),
        Some(slot) => text::guarded(
            text::holds(
                slot.input == input,
                "Join equality key BindingId "@ + text::decimal(binding.0 as int)
                    + " belongs to input "@ + text::decimal(slot.input as int) + ", expected "@
                    + text::decimal(input as int),
            ),
            slot,
        ),
    }
}

fn resolve_key(slots: &Vec<InputSlot>, key: &JoinEquiKey, input: u16) -> (outcome: Result<
    InputSlot,
    String,
>)
    ensures
        text::agrees(outcome, key_slot(slots@, *key, input)),
{
    let binding = key.binding(input);
    match find_slot(slots, binding) {
        None => Err(
            "Join equality key references missing BindingId ".to_owned().concat(
                unsigned_text(binding.0 as u64).as_str(),
            ),
        ),
        Some(slot) => {
            if slot.input != input {
                let mut message = "Join equality key BindingId ".to_owned();
                message.append(unsigned_text(binding.0 as u64).as_str());
                message.append(" belongs to input ");
                message.append(unsigned_text(slot.input as u64).as_str());
                message.append(", expected ");
                message.append(unsigned_text(input as u64).as_str());
                return Err(message);
            }
            Ok(slot)
        },
    }
}

/// The outcome of each equality key on one input, in order.
pub open spec fn key_slot_checks(slots: Seq<InputSlot>, keys: Seq<JoinEquiKey>, input: u16) -> Seq<
    Result<(), Seq<char>>,
> {
    Seq::new(keys.len(), |index: int| text::checked(key_slot(slots, keys[index], input)))
}

/// The slots of the equality keys on one input.
pub open spec fn key_slots(slots: Seq<InputSlot>, keys: Seq<JoinEquiKey>, input: u16) -> Seq<
    InputSlot,
> {
    Seq::new(keys.len(), |index: int| key_slot(slots, keys[index], input)->Ok_0)
}

/// Resolves the equality keys on one input; the first key that cannot be
/// resolved decides the error.
pub fn join_key_slots(slots: &Vec<InputSlot>, keys: &Vec<JoinEquiKey>, input: u16) -> (outcome:
    Result<Vec<InputSlot>, String>)
    ensures
        match (outcome, text::all_hold(key_slot_checks(slots@, keys@, input))) {
            (Ok(list), Ok(())) => list@ == key_slots(slots@, keys@, input),
            (Err(error), Err(message)) => error@ == message,
            _ => false,
        },
{
    let ghost checks = key_slot_checks(slots@, keys@, input);
    let mut list: Vec<InputSlot> = Vec::new();
    let mut index: usize = 0;
    assert(checks.take(0) =~= Seq::empty());
    while index < keys.len()
        invariant
            index <= keys.len(),
            list.len() == index,
            checks == key_slot_checks(slots@, keys@, input),
            text::all_hold(checks.take(index as int)) is Ok,
            forall|k: int|
                0 <= k < index ==> #[trigger] list@[k] == key_slot(slots@, keys@[k], input)->Ok_0,
        decreases keys.len() - index,
    {
        proof {
            text::next_check_decides(checks, index as int);
        }
        let slot = resolve_key(slots, &keys[index], input)?;
        list.push(slot);
        index = index + 1;
    }
    proof {
        assert(checks.take(keys.len() as int) =~= checks);
        assert(list@ =~= key_slots(slots@, keys@, input));
    }
    Ok(list)
}

/// Whether a relation has the fixed columns of an arrangement.
pub open spec fn state_frame(attributes: Seq<Attribute>, keys: int, row_type: u32) -> bool {
    attributes.len() == keys + 6 && fixed_column(attributes[0], "row_id"@, INT8OID) && fixed_column(
        attributes[1],
        "row_key"@,
        BYTEAOID,
    ) && fixed_column(attributes[2], "row_value"@, row_type) && fixed_column(
        attributes[keys + 3],
        "multiplicity"@,
        INT8OID,
    ) && fixed_column(attributes[keys + 4], "match_count"@, INT8OID) && fixed_column(
        attributes[keys + 5],
        "unknown_count"@,
        INT8OID,
    )
}

/// A typed column that is never NULL.
pub open spec fn fixed_column(attribute: Attribute, name: Seq<char>, type_oid: u32) -> bool {
    abi::is_typed(attribute, name, type_oid) && attribute.not_null
}

fn is_fixed(attribute: &Attribute, name: &str, type_oid: u32) -> (fixed: bool)
    ensures
        fixed == fixed_column(*attribute, name@, type_oid),
{
    has_type(attribute, name, type_oid) && attribute.not_null
}

/// A nullable column of exactly the type of an equality key.
pub open spec fn key_abi(attribute: Attribute, slot: InputSlot, ordinal: int) -> bool {
    attribute.name@ == key_name(ordinal) && stream::matches_slot(attribute, slot.type_)
        && !attribute.not_null
}

/// Whether a relation is the arrangement of one input.
pub open spec fn state_abi(attributes: Seq<Attribute>, row_type: u32, slots: Seq<InputSlot>) -> Result<
    (),
    Seq<char>,
> {
    text::both(
        text::holds(
            state_frame(attributes, slots.len() as int, row_type),
            "Join arrangement relation changed its ABI"@,
        ),
        text::holds(
            forall|ordinal: int|
                0 <= ordinal < slots.len() ==> key_abi(
                    attributes[ordinal + 3],
                    #[trigger] slots[ordinal],
                    ordinal,
                ),
            "Join equality key columns changed the Join ABI"@,
        ),
    )
}

pub fn validate_state_abi(attributes: &Vec<Attribute>, row_type: u32, slots: &Vec<InputSlot>) -> (
    outcome: Result<(), String>)
    requires
        slots.len() + 6 <= usize::MAX,
    ensures
        text::agrees(outcome, state_abi(attributes@, row_type, slots@)),
{
    let count: usize = slots.len();
    if attributes.len() != count + 6 || !is_fixed(&attributes[0], "row_id", INT8OID) || !is_fixed(
        &attributes[1],
        "row_key",
        BYTEAOID,
    ) || !is_fixed(&attributes[2], "row_value", row_type) || !is_fixed(
        &attributes[count + 3],
        "multiplicity",
        INT8OID,
    ) || !is_fixed(&attributes[count + 4], "match_count", INT8OID) || !is_fixed(
        &attributes[count + 5],
        "unknown_count",
        INT8OID,
    ) {
        return fail("Join arrangement relation changed its ABI");
    }
    let mut ordinal: usize = 0;
    while ordinal < count
        invariant
            ordinal <= count == slots.len(),
            count + 6 <= usize::MAX,
            state_frame(attributes@, count as int, row_type),
            forall|k: int|
                0 <= k < ordinal ==> key_abi(attributes@[k + 3], #[trigger] slots@[k], k),
        decreases count - ordinal,
    {
        let attribute = &attributes[ordinal + 3];
        if !same_text(attribute.name.as_str(), key_column(ordinal).as_str())
            || !attribute_matches_slot(attribute, &slots[ordinal].type_) || attribute.not_null {
            assert(!key_abi(attributes@[ordinal + 3], slots@[ordinal as int], ordinal as int));
            return fail("Join equality key columns changed the Join ABI");
        }
        ordinal = ordinal + 1;
    }
    Ok(())
}

/// Asks for the unique index on row keys.
pub open spec fn row_key_index_query(relation_oid: u32) -> StatementModel {
    StatementModel {
        sql: ROW_KEY_INDEX_SQL@,
        arguments: seq![SqlModel::Oid(relation_oid)],
    }
}

/// The query for the unique index on the row key.
pub fn row_key_index_statement(relation_oid: u32) -> (statement: Statement)
    ensures
        statement@ == row_key_index_query(relation_oid),
{
    Statement::new(ROW_KEY_INDEX_SQL.to_owned()).oid(relation_oid)
}

/// The columns of the equality lookup index: the keys, then the row.
pub open spec fn index_key_list(count: nat) -> Seq<char> {
    text::joined(
        Seq::new(count, |ordinal: int| index_key(ordinal, ordinal + 4)).push(
            index_key(count as int, 1),
        ),
        " AND "@,
    )
}

/// One column of an index by its attribute number.
pub open spec fn index_key(ordinal: int, attribute: int) -> Seq<char> {
    "identity_index.indkey["@ + text::decimal(ordinal) + "]"@ + " "@ + "="@ + " "@ + text::decimal(
        attribute,
    )
}

fn index_key_sql(ordinal: usize, attribute: usize) -> (sql: String)
    ensures
        sql@ == index_key(ordinal as int, attribute as int),
{
    let mut sql = "identity_index.indkey[".to_owned();
    sql.append(unsigned_text(ordinal as u64).as_str());
    sql.append("]");
    sql.append(" ");
    sql.append("=");
    sql.append(" ");
    sql.append(unsigned_text(attribute as u64).as_str());
    sql
}

/// Asks for the index on equality keys.
pub open spec fn key_index_query(relation_oid: u32, keys: usize) -> StatementModel {
    StatementModel {
        sql: text::rendered(
            KEY_INDEX_SQL@,
            seq![
                ("arity"@, text::decimal(keys + 1)),
                ("index_keys"@, index_key_list(keys as nat)),
            ],
        ),
        arguments: seq![SqlModel::Oid(relation_oid)],
    }
}

/// The query for the equality lookup index of a keyed arrangement.
pub fn key_index_statement(relation_oid: u32, keys: usize) -> (statement: Statement)
    requires
        keys + 4 <= usize::MAX,
    ensures
        statement@ == key_index_query(relation_oid, keys),
{
    let mut list = listed(
        keys,
        |ordinal: usize| -> (item: String)
            requires
                ordinal < keys,
                keys + 4 <= usize::MAX,
            ensures
                item@ == index_key(ordinal as int, ordinal + 4)
            { index_key_sql(ordinal, ordinal + 4) },
    );
    list.push(index_key_sql(keys, 1));
    assert(text::texts(list@) =~= Seq::new(
        keys as nat,
        |ordinal: int| index_key(ordinal, ordinal + 4),
    ).push(index_key(keys as int, 1)));
    let holes = Holes::new().bind("arity", unsigned_text((keys + 1) as u64).as_str()).bind(
        "index_keys",
        join(&list, " AND ").as_str(),
    );
    assert(holes@ =~= seq![
        ("arity"@, text::decimal(keys + 1)),
        ("index_keys"@, index_key_list(keys as nat)),
    ]);
    Statement::new(render(KEY_INDEX_SQL, holes)).oid(relation_oid)
}

/// An arrangement has its unique index.
pub open spec fn row_key_indexed(present: Option<bool>) -> Result<(), Seq<char>> {
    match database::required_value(present, "Join arrangement row-key unique index"@) {
        Err(message) => Err(message),
        Ok(present) => text::holds(
            present,
            "Join arrangement relation lacks its row-key unique index"@,
        ),
    }
}

/// Checks that an arrangement has its row-key index.
pub fn require_row_key_index(present: Option<bool>) -> (outcome: Result<(), String>)
    ensures
        text::agrees(outcome, row_key_indexed(present)),
{
    if !required(present, "Join arrangement row-key unique index")? {
        return fail("Join arrangement relation lacks its row-key unique index");
    }
    Ok(())
}

/// An arrangement has its lookup index.
pub open spec fn keys_indexed(present: Option<bool>) -> Result<(), Seq<char>> {
    match database::required_value(present, "Join equality key index"@) {
        Err(message) => Err(message),
        Ok(present) => text::holds(
            present,
            "Join arrangement lacks its equality lookup index"@,
        ),
    }
}

/// Checks that a keyed arrangement has its equality lookup index.
pub fn require_key_index(present: Option<bool>) -> (outcome: Result<(), String>)
    ensures
        text::agrees(outcome, keys_indexed(present)),
{
    if !required(present, "Join equality key index")? {
        return fail("Join arrangement lacks its equality lookup index");
    }
    Ok(())
}

} // verus!
