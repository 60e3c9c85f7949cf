//! The decisions of the utility hook that reserves `shiba` declarations and
//! guards drops.

pub mod declaring;
pub mod dropping;
pub mod laws;
pub mod quiescing;

use vstd::prelude::*;

use crate::postgres::{self, quote_identifier};
use crate::sql::{SqlModel, Statement, StatementModel, INVALID_OID};
use crate::text::{self, characters, fail, join, signed_text};

verus! {

/// Enters the registration lifecycle of the database.
pub const BEGIN_REGISTRATION_SQL: &'static str = "SELECT shiba._begin_dataflow_registration()";

/// Locks the sources of a dataflow for activation.
pub const LOCK_SOURCES_SQL: &'static str = "SELECT shiba._lock_dataflow_sources($1::oid[])";

/// Registers a dataflow.
pub const REGISTER_SQL: &'static str = "SELECT shiba._register_dataflow($1::oid, $2::text)";

/// Whether the catalog of dataflows exists.
pub const CATALOG_EXISTS_SQL: &'static str =
    "SELECT to_regclass('shiba_internal.dataflows') IS NOT NULL";

/// Resolves a qualified relation name.
pub const RESOLVE_RELATION_SQL: &'static str = "SELECT to_regclass($1)::oid::integer";

/// Whether a relation is the source of a dataflow.
pub const IS_SOURCE_SQL: &'static str =
    "SELECT EXISTS (
               SELECT 1 FROM shiba_internal.dataflow_sources WHERE source_oid=$1
             )";

/// Whether a relation is the result of a dataflow.
pub const IS_RESULT_SQL: &'static str =
    "SELECT EXISTS (
               SELECT 1 FROM shiba_internal.dataflows WHERE result_oid=$1
             )";

/// Quiesces results before they are dropped.
pub const PREPARE_DROPS_SQL: &'static str = "SELECT shiba._prepare_dataflow_drops($1::oid[])";

/// The owner of the extension.
pub const EXTENSION_OWNER_SQL: &'static str =
    "SELECT extowner FROM pg_extension WHERE extname='shiba'";

/// Serializes an indirect drop with the execution of every dataflow.
pub const LOCK_ALL_SQL: &'static str = "SELECT shiba_internal._lock_all_dataflows_for_utility()";

/// Deactivates results.
pub const DEACTIVATE_SQL: &'static str =
    "UPDATE shiba_internal.dataflows SET active=false WHERE result_oid=ANY($1::oid[])";

/// The sources of results, in locking order.
pub const SOURCES_SQL: &'static str =
    "SELECT DISTINCT source.source_oid, namespace.nspname::text, relation.relname::text
               FROM shiba_internal.dataflow_sources AS source
               JOIN pg_class AS relation ON relation.oid=source.source_oid
               JOIN pg_namespace AS namespace ON namespace.oid=relation.relnamespace
              WHERE source.result_oid=ANY($1::oid[])
              ORDER BY source.source_oid";

/// Every result, in locking order.
pub const RESULTS_SQL: &'static str =
    "SELECT result_oid FROM shiba_internal.dataflows ORDER BY result_oid";

/// Locks one dataflow for the transaction.
pub const LOCK_DATAFLOW_SQL: &'static str =
    "SELECT pg_advisory_xact_lock(shiba_internal.dataflow_lock_key($1::oid))";

/// Whether the logical slot of this database exists.
pub const SLOT_EXISTS_SQL: &'static str =
    "SELECT EXISTS (
           SELECT 1 FROM pg_replication_slots
           WHERE slot_name=format(
             'shiba_%s',
             (SELECT oid FROM pg_database WHERE datname=current_database())
           )
         )";

/// Whether the catalog of the extension is whole.
pub const LIFECYCLE_CATALOG_SQL: &'static str =
    "SELECT to_regclass('shiba_internal.dataflows') IS NOT NULL
           AND to_regclass('shiba_internal.runtime_state') IS NOT NULL";

/// Whether nothing of the extension is in use.
pub const LIFECYCLE_CLEAN_SQL: &'static str =
    "SELECT NOT EXISTS (SELECT 1 FROM shiba_internal.dataflows)
               AND NOT EXISTS (
                 SELECT 1 FROM shiba_internal.runtime_state WHERE active
               )
               AND NOT EXISTS (
                 SELECT 1
                 FROM shiba_internal.ingress_replay_state
                 WHERE state='active'
               )";

/// Whether a new table lands in the reserved schema, which exists.
pub fn declares_in_shiba(target_namespace: u32, shiba_namespace: u32) -> (declares: bool)
    ensures
        declares == (shiba_namespace != INVALID_OID && target_namespace == shiba_namespace),
{
    shiba_namespace != INVALID_OID && target_namespace == shiba_namespace
}

/// Whether a statement declares a dataflow. The reserved schema accepts
/// nothing else, except while the extension is created.
pub open spec fn declared(declaration: bool, inspected: bool, creating_extension: bool) -> Result<
    bool,
    Seq<char>,
> {
    text::guarded(
        text::holds(
            !declaration || inspected || creating_extension,
            "the shiba schema only accepts CREATE TABLE shiba.name AS SELECT ... dataflow declarations"@,
        ),
        declaration && inspected,
    )
}

/// Decides what a statement in the reserved schema is. `inspected` says that
/// it is a `CREATE TABLE AS` over a query.
pub fn plan_declaration(declaration: bool, inspected: bool, creating_extension: bool) -> (outcome:
    Result<bool, String>)
    ensures
        text::agrees(outcome, declared(declaration, inspected, creating_extension)),
{
    let dataflow = declaration && inspected;
    if declaration && !dataflow && !creating_extension {
        return fail(
            "the shiba schema only accepts CREATE TABLE shiba.name AS SELECT ... dataflow declarations",
        );
    }
    Ok(dataflow)
}

/// What a drop removes.
#[derive(Clone, Copy, Debug, PartialEq, Eq, Structural)]
pub enum DropTarget {
    Extension,
    Table,
    Other,
}

/// A utility statement as far as drops are concerned.
#[derive(Clone, Copy, Debug, PartialEq, Eq, Structural)]
pub enum DropStatement {
    Owned,
    Objects { target: DropTarget, cascade: bool },
    Other,
}

/// What has to happen before a statement runs, in this order.
#[derive(Clone, Copy, Debug, PartialEq, Eq, Structural)]
pub struct DropPlan {
    /// The roles must not own the extension.
    pub guard_owner: bool,
    /// The extension must not be in use when it is dropped.
    pub guard_extension: bool,
    /// Every dataflow is locked, because the drop may reach any of them.
    pub lock_all: bool,
    /// The tables are looked up among sources and results.
    pub inspect_tables: bool,
}

/// `DROP OWNED` removes directly owned objects even under `RESTRICT`, so it
/// locks every dataflow as a cascading drop does.
pub open spec fn drop_planned(statement: DropStatement) -> DropPlan {
    match statement {
        DropStatement::Owned => DropPlan {
            guard_owner: true,
            guard_extension: false,
            lock_all: true,
            inspect_tables: false,
        },
        DropStatement::Objects { target, cascade } => DropPlan {
            guard_owner: false,
            guard_extension: target is Extension,
            lock_all: cascade,
            inspect_tables: target is Table,
        },
        DropStatement::Other => DropPlan {
            guard_owner: false,
            guard_extension: false,
            lock_all: false,
            inspect_tables: false,
        },
    }
}

pub fn plan_drop(statement: DropStatement) -> (plan: DropPlan)
    ensures
        plan == drop_planned(statement),
{
    match statement {
        DropStatement::Owned => DropPlan {
            guard_owner: true,
            guard_extension: false,
            lock_all: true,
            inspect_tables: false,
        },
        DropStatement::Objects { target, cascade } => DropPlan {
            guard_owner: false,
            guard_extension: target == DropTarget::Extension,
            lock_all: cascade,
            inspect_tables: target == DropTarget::Table,
        },
        DropStatement::Other => DropPlan {
            guard_owner: false,
            guard_extension: false,
            lock_all: false,
            inspect_tables: false,
        },
    }
}

/// The parts of a name, or `None` where one is missing.
pub open spec fn present_parts(parts: Seq<Option<String>>) -> Option<Seq<Seq<char>>> {
    if forall|index: int| 0 <= index < parts.len() ==> (#[trigger] parts[index]) is Some {
        Some(Seq::new(parts.len(), |index: int| postgres::quoted(parts[index]->0@)))
    } else {
        None
    }
}

/// The SQL name of a dropped table from one to three parts.
pub open spec fn qualified(parts: Seq<Option<String>>) -> Option<Seq<char>> {
    if 1 <= parts.len() <= 3 {
        match present_parts(parts) {
            Some(parts) => Some(text::joined(parts, "."@)),
            None => None,
        }
    } else {
        None
    }
}

/// Quotes the name of a dropped table. A name that is not one is skipped.
pub fn qualified_name(parts: &Vec<Option<String>>) -> (name: Option<String>)
    ensures
        match (name, qualified(parts@)) {
            (Some(name), Some(model)) => name@ == model,
            (None, None) => true,
            _ => false,
        },
{
    if parts.len() < 1 || parts.len() > 3 {
        return None;
    }
    let mut list: Vec<String> = Vec::new();
    let mut index: usize = 0;
    while index < parts.len()
        invariant
            index <= parts.len(),
            1 <= parts.len() <= 3,
            list.len() == index,
            forall|k: int|
                0 <= k < index ==> (#[trigger] parts@[k]) is Some && list@[k]@ == postgres::quoted(
                    parts@[k]->0@,
                ),
        decreases parts.len() - index,
    {
        match &parts[index] {
            None => {
                assert(parts@[index as int] is None);
                return None;
            },
            Some(part) => {
                list.push(quote_identifier(part.as_str()));
            },
        }
        index = index + 1;
    }
    assert(text::texts(list@) =~= Seq::new(
        parts@.len(),
        |index: int| postgres::quoted(parts@[index]->0@),
    ));
    Some(join(&list, "."))
}

/// Whether a list is strictly ascending.
pub open spec fn ascending(list: Seq<i64>) -> bool {
    forall|left: int, right: int|
        0 <= left < right < list.len() ==> #[trigger] list[left] < #[trigger] list[right]
}

fn insert_sorted(list: &mut Vec<i64>, value: i64)
    requires
        ascending(old(list)@),
    ensures
        ascending(final(list)@),
        forall|other: i64| #[trigger]
            final(list)@.contains(other) <==> old(list)@.contains(other) || other == value,
{
    let ghost before = list@;
    let mut at: usize = 0;
    while at < list.len() && list[at] < value
        invariant
            at <= list.len(),
            list@ == before,
            forall|k: int| 0 <= k < at ==> #[trigger] list@[k] < value,
        decreases list.len() - at,
    {
        at = at + 1;
    }
    if at < list.len() && list[at] == value {
        proof {
            assert(before[at as int] == value);
        }
        return;
    }
    list.insert(at, value);
    proof {
        assert forall|k: int| at <= k < before.len() implies #[trigger] before[k] > value by {
            if k > at {
                assert(before[at as int] < before[k]);
            }
        }
        assert forall|left: int, right: int| 0 <= left < right < list@.len() implies #[trigger] list@[left]
            < #[trigger] list@[right] by {
            let from = if left < at {
                left
            } else {
                left - 1
            };
            let to = if right < at {
                right
            } else {
                right - 1
            };
            if left != at && right != at {
                assert(before[from] < before[to]);
                assert(list@[left] == before[from] && list@[right] == before[to]);
            } else if left == at {
                assert(list@[right] == before[to]);
            } else {
                assert(list@[left] == before[from]);
            }
        }
        assert forall|other: i64| #[trigger] list@.contains(other) <==> before.contains(other)
            || other == value by {
            if list@.contains(other) {
                let k = choose|k: int| 0 <= k < list@.len() && list@[k] == other;
                if k < at {
                    assert(before[k] == other);
                } else if k > at {
                    assert(before[k - 1] == other);
                }
            }
            if before.contains(other) {
                let k = choose|k: int| 0 <= k < before.len() && before[k] == other;
                if k < at {
                    assert(list@[k] == other);
                } else {
                    assert(list@[k + 1] == other);
                }
            }
            assert(list@[at as int] == value);
        }
    }
}

/// The order in which a set of relations is locked.
pub open spec fn canonical_order(oids: Seq<i64>) -> Seq<i64> {
    choose|list: Seq<i64>|
        ascending(list) && forall|oid: i64| #[trigger] list.contains(oid) <==> oids.contains(oid)
}

/// The distinct identifiers of a list in ascending order, which is the order
/// in which they are locked.
pub fn locking_order(oids: &Vec<i64>) -> (list: Vec<i64>)
    ensures
        ascending(list@),
        forall|oid: i64| #[trigger] list@.contains(oid) <==> oids@.contains(oid),
        list@ == canonical_order(oids@),
{
    let mut list: Vec<i64> = Vec::new();
    let mut index: usize = 0;
    while index < oids.len()
        invariant
            index <= oids.len(),
            ascending(list@),
            forall|oid: i64| #[trigger]
                list@.contains(oid) <==> oids@.take(index as int).contains(oid),
        decreases oids.len() - index,
    {
        insert_sorted(&mut list, oids[index]);
        proof {
            let before = oids@.take(index as int);
            let now = oids@.take(index + 1);
            assert forall|oid: i64| #[trigger] list@.contains(oid) <==> now.contains(oid) by {
                if now.contains(oid) {
                    let k = choose|k: int| 0 <= k < now.len() && now[k] == oid;
                    if k < index {
                        assert(before[k] == oid);
                    }
                }
                if before.contains(oid) {
                    let k = choose|k: int| 0 <= k < before.len() && before[k] == oid;
                    assert(now[k] == oid);
                }
                assert(now[index as int] == oids@[index as int]);
            }
        }
        index = index + 1;
    }
    assert(oids@.take(oids@.len() as int) =~= oids@);
    proof {
        locking_order_is_canonical(list@, canonical_order(oids@));
    }
    list
}

/// A table that is a source is not dropped.
pub open spec fn source_guarded(
    relation_oid: i64,
    is_source: Option<bool>,
) -> Result<(), Seq<char>> {
    text::holds(
        is_source != Some(true),
        "cannot DROP TABLE with OID "@ + text::decimal(relation_oid as int)
            + " while it is a Shiba source; drop dependent Shiba tables first"@,
    )
}

/// A table that is a source cannot be dropped.
pub fn guard_source(relation_oid: i64, is_source: Option<bool>) -> (outcome: Result<(), String>)
    ensures
        text::agrees(outcome, source_guarded(relation_oid, is_source)),
{
    match is_source {
        Some(true) => {
            let mut message = "cannot DROP TABLE with OID ".to_owned();
            message.append(signed_text(relation_oid).as_str());
            message.append(" while it is a Shiba source; drop dependent Shiba tables first");
            Err(message)
        },
        _ => Ok(()),
    }
}

/// The results among the first relations of a list.
pub open spec fn results_among(oids: Seq<i64>, is_result: Seq<Option<bool>>, count: nat) -> Seq<i64>
    decreases count,
{
    if count == 0 {
        Seq::empty()
    } else {
        let earlier = results_among(oids, is_result, (count - 1) as nat);
        if is_result[count - 1] == Some(true) {
            earlier.push(oids[count - 1])
        } else {
            earlier
        }
    }
}

/// The results among dropped tables, in the same order.
pub fn dropped_results(oids: &Vec<i64>, is_result: &Vec<Option<bool>>) -> (results: Vec<i64>)
    requires
        oids.len() == is_result.len(),
    ensures
        results@ == results_among(oids@, is_result@, oids@.len()),
{
    let mut results: Vec<i64> = Vec::new();
    let mut index: usize = 0;
    while index < oids.len()
        invariant
            index <= oids.len() == is_result.len(),
            results@ == results_among(oids@, is_result@, index as nat),
        decreases oids.len() - index,
    {
        match is_result[index] {
            Some(true) => {
                results.push(oids[index]);
            },
            _ => {},
        }
        index = index + 1;
    }
    results
}

/// `DROP OWNED` must not reach the owner of the extension. A missing role is
/// skipped, and without the extension nothing is guarded.
pub open spec fn owner_guarded(extension_owner: Option<u32>, roles: Seq<Option<u32>>) -> Result<
    (),
    Seq<char>,
> {
    text::holds(
        !(extension_owner matches Some(owner) && exists|index: int|
            0 <= index < roles.len() && #[trigger] roles[index] == Some(owner)),
        "DROP OWNED by the Shiba extension owner is not supported; drop all Shiba results, call shiba.deactivate(), and use DROP EXTENSION shiba explicitly"@,
    )
}

pub fn guard_drop_owned(extension_owner: Option<u32>, roles: &Vec<Option<u32>>) -> (outcome: Result<
    (),
    String,
>)
    ensures
        text::agrees(outcome, owner_guarded(extension_owner, roles@)),
{
    match extension_owner {
        None => Ok(()),
        Some(owner) => {
            let mut index: usize = 0;
            while index < roles.len()
                invariant
                    index <= roles.len(),
                    extension_owner == Some(owner),
                    forall|k: int| 0 <= k < index ==> #[trigger] roles@[k] != Some(owner),
                decreases roles.len() - index,
            {
                if let Some(role) = roles[index] {
                    if role == owner {
                        assert(roles@[index as int] == Some(owner));
                        return fail(
                            "DROP OWNED by the Shiba extension owner is not supported; drop all Shiba results, call shiba.deactivate(), and use DROP EXTENSION shiba explicitly",
                        );
                    }
                }
                index = index + 1;
            }
            Ok(())
        },
    }
}

/// An ASCII letter in lower case; any other character as it is.
pub open spec fn ascii_lower(character: char) -> char {
    if 'A' <= character && character <= 'Z' {
        (character as u32 + 32) as char
    } else {
        character
    }
}

/// Whether two texts are equal but for the case of ASCII letters.
pub open spec fn same_ignoring_case(left: Seq<char>, right: Seq<char>) -> bool {
    left.len() == right.len() && forall|index: int|
        0 <= index < left.len() ==> ascii_lower(#[trigger] left[index]) == ascii_lower(
            right[index],
        )
}

fn lower(character: char) -> (lowered: char)
    ensures
        lowered == ascii_lower(character),
{
    if 'A' <= character && character <= 'Z' {
        (character as u8 + 32) as char
    } else {
        character
    }
}

pub fn eq_ignore_ascii_case(left: &str, right: &str) -> (same: bool)
    ensures
        same == same_ignoring_case(left@, right@),
{
    let left_list = characters(left);
    let right_list = characters(right);
    if left_list.len() != right_list.len() {
        return false;
    }
    let mut index: usize = 0;
    while index < left_list.len()
        invariant
            index <= left_list.len() == right_list.len(),
            left_list@ == left@,
            right_list@ == right@,
            forall|k: int|
                0 <= k < index ==> ascii_lower(#[trigger] left@[k]) == ascii_lower(right@[k]),
        decreases left_list.len() - index,
    {
        if lower(left_list[index]) != lower(right_list[index]) {
            assert(ascii_lower(left@[index as int]) != ascii_lower(right@[index as int]));
            return false;
        }
        index = index + 1;
    }
    true
}

/// One object of a `DROP EXTENSION`: a name, a list of names, or something
/// else.
#[derive(Clone, Debug, PartialEq, Eq)]
pub enum DropObject {
    Name(Option<String>),
    Names(Vec<Option<String>>),
    Other,
}

/// Whether a name is that of this extension.
pub open spec fn names_shiba(name: Option<String>) -> bool {
    name matches Some(name) && same_ignoring_case(name@, "shiba"@)
}

fn is_shiba(name: &Option<String>) -> (is: bool)
    ensures
        is == names_shiba(*name),
{
    match name {
        None => false,
        Some(name) => eq_ignore_ascii_case(name.as_str(), "shiba"),
    }
}

/// Whether an object is this extension.
pub open spec fn object_is_shiba(object: DropObject) -> bool {
    match object {
        DropObject::Name(name) => names_shiba(name),
        DropObject::Names(names) => exists|index: int|
            0 <= index < names@.len() && names_shiba(#[trigger] names@[index]),
        DropObject::Other => false,
    }
}

fn drops_object(object: &DropObject) -> (drops: bool)
    ensures
        drops == object_is_shiba(*object),
{
    match object {
        DropObject::Name(name) => is_shiba(name),
        DropObject::Names(names) => {
            let mut index: usize = 0;
            while index < names.len()
                invariant
                    index <= names.len(),
                    object matches DropObject::Names(list) && list == names,
                    forall|k: int| 0 <= k < index ==> !names_shiba(#[trigger] names@[k]),
                decreases names.len() - index,
            {
                if is_shiba(&names[index]) {
                    assert(names_shiba(names@[index as int]));
                    return true;
                }
                index = index + 1;
            }
            false
        },
        DropObject::Other => false,
    }
}

/// Whether a `DROP EXTENSION` drops this extension.
pub fn drops_shiba(objects: &Vec<DropObject>) -> (drops: bool)
    ensures
        drops == exists|index: int|
            0 <= index < objects@.len() && object_is_shiba(#[trigger] objects@[index]),
{
    let mut index: usize = 0;
    while index < objects.len()
        invariant
            index <= objects.len(),
            forall|k: int| 0 <= k < index ==> !object_is_shiba(#[trigger] objects@[k]),
        decreases objects.len() - index,
    {
        if drops_object(&objects[index]) {
            assert(object_is_shiba(objects@[index as int]));
            return true;
        }
        index = index + 1;
    }
    false
}

/// The extension is dropped only where nothing of it is in use.
pub open spec fn extension_idle(
    slot_exists: Option<bool>,
    catalog_exists: Option<bool>,
    lifecycle_clean: Option<bool>,
) -> Result<(), Seq<char>> {
    text::holds(
        slot_exists != Some(true) && catalog_exists == Some(true) && lifecycle_clean == Some(
            true,
        ),
        "drop all Shiba results and call shiba.deactivate() before DROP EXTENSION shiba"@,
    )
}

/// The extension can be dropped once its slot is gone and nothing is in use.
/// `lifecycle_clean` is asked only of a whole catalog; without one nothing is
/// known to be clean.
pub fn ensure_shiba_slot_inactive(
    slot_exists: Option<bool>,
    catalog_exists: Option<bool>,
    lifecycle_clean: Option<bool>,
) -> (outcome: Result<(), String>)
    ensures
        text::agrees(outcome, extension_idle(slot_exists, catalog_exists, lifecycle_clean)),
{
    let slot = match slot_exists {
        Some(present) => present,
        None => false,
    };
    let catalog = match catalog_exists {
        Some(present) => present,
        None => false,
    };
    let clean = match lifecycle_clean {
        Some(clean) => catalog && clean,
        None => false,
    };
    if slot || !clean {
        return fail(
            "drop all Shiba results and call shiba.deactivate() before DROP EXTENSION shiba",
        );
    }
    Ok(())
}

/// Locks one dataflow.
pub open spec fn lock_dataflow_query(result_oid: u32) -> StatementModel {
    StatementModel {
        sql: LOCK_DATAFLOW_SQL@,
        arguments: seq![SqlModel::Oid(result_oid)],
    }
}

/// The statement that locks one dataflow for the transaction.
pub fn lock_dataflow_statement(result_oid: u32) -> (statement: Statement)
    ensures
        statement@ == lock_dataflow_query(result_oid),
{
    Statement::new(LOCK_DATAFLOW_SQL.to_owned()).oid(result_oid)
}

/// The statement that locks one source against writes.
pub open spec fn source_lock(schema: Option<String>, relation: Option<String>) -> Result<
    Seq<char>,
    Seq<char>,
> {
    match (schema, relation) {
        (None, _) => Err("source schema is NULL"@),
        (Some(_), None) => Err("source relation is NULL"@),
        (Some(schema), Some(relation)) => Ok(
            "LOCK TABLE "@ + postgres::quoted(schema@) + "."@ + postgres::quoted(relation@)
                + " IN SHARE ROW EXCLUSIVE MODE"@,
        ),
    }
}

pub fn source_lock_query(schema: &Option<String>, relation: &Option<String>) -> (outcome: Result<
    String,
    String,
>)
    ensures
        text::agrees_view(outcome, source_lock(*schema, *relation)),
{
    match schema {
        None => fail("source schema is NULL"),
        Some(schema) => match relation {
            None => fail("source relation is NULL"),
            Some(relation) => {
                let mut sql = "LOCK TABLE ".to_owned();
                sql.append(quote_identifier(schema.as_str()).as_str());
                sql.append(".");
                sql.append(quote_identifier(relation.as_str()).as_str());
                sql.append(" IN SHARE ROW EXCLUSIVE MODE");
                Ok(sql)
            },
        },
    }
}

/// The result of a listed dataflow.
pub open spec fn listed_result(result_oid: Option<u32>) -> Result<u32, Seq<char>> {
    match result_oid {
        Some(oid) => Ok(oid),
        None => Err("result OID is NULL"@),
    }
}

/// The result that a row of the catalog names.
pub fn decode_result_oid(result_oid: Option<u32>) -> (outcome: Result<u32, String>)
    ensures
        text::agrees(outcome, listed_result(result_oid)),
{
    match result_oid {
        Some(oid) => Ok(oid),
        None => fail("result OID is NULL"),
    }
}

/// Dataflows are always locked in one order: two drops of the same results
/// lock them in the same sequence, whatever order they were named in.
pub proof fn locking_order_is_canonical(left: Seq<i64>, right: Seq<i64>)
    requires
        ascending(left),
        ascending(right),
        forall|oid: i64| #[trigger] left.contains(oid) <==> right.contains(oid),
    ensures
        left == right,
    decreases left.len() + right.len(),
{
    if left.len() == 0 {
        if right.len() > 0 {
            assert(right.contains(right[0]));
            assert(left.contains(right[0]));
        }
        assert(left =~= right);
    } else if right.len() == 0 {
        assert(left.contains(left[0]));
        assert(right.contains(left[0]));
    } else {
        let last = left.last();
        assert(left.contains(last));
        assert(right.contains(right.last()));
        assert(left.contains(right.last()));
        let at = choose|at: int| 0 <= at < right.len() && right[at] == last;
        let other = choose|other: int| 0 <= other < left.len() && left[other] == right.last();
        assert(last == right.last()) by {
            if at < right.len() - 1 {
                assert(right[at] < right[right.len() - 1]);
                if other < left.len() - 1 {
                    assert(left[other] < left[left.len() - 1]);
                }
            }
        }
        let shorter_left = left.drop_last();
        let shorter_right = right.drop_last();
        assert forall|oid: i64| #[trigger] shorter_left.contains(oid) <==> shorter_right.contains(
            oid,
        ) by {
            if shorter_left.contains(oid) {
                let k = choose|k: int| 0 <= k < shorter_left.len() && shorter_left[k] == oid;
                assert(left[k] < left[left.len() - 1]);
                assert(left.contains(oid));
                assert(right.contains(oid));
                let m = choose|m: int| 0 <= m < right.len() && right[m] == oid;
                assert(shorter_right[m] == oid);
            }
            if shorter_right.contains(oid) {
                let k = choose|k: int| 0 <= k < shorter_right.len() && shorter_right[k] == oid;
                assert(right[k] < right[right.len() - 1]);
                assert(right.contains(oid));
                assert(left.contains(oid));
                let m = choose|m: int| 0 <= m < left.len() && left[m] == oid;
                assert(shorter_left[m] == oid);
            }
        }
        locking_order_is_canonical(shorter_left, shorter_right);
        assert(left =~= shorter_left.push(last));
        assert(right =~= shorter_right.push(last));
    }
}

/// The results among dropped tables keep the locking order.
pub proof fn dropped_results_keep_the_locking_order(
    oids: Seq<i64>,
    is_result: Seq<Option<bool>>,
    count: nat,
)
    requires
        ascending(oids),
        oids.len() == is_result.len(),
        count <= oids.len(),
    ensures
        ascending(results_among(oids, is_result, count)),
        forall|oid: i64| #[trigger]
            results_among(oids, is_result, count).contains(oid) <==> exists|index: int|
                0 <= index < count && #[trigger] oids[index] == oid && is_result[index] == Some(
                    true,
                ),
    decreases count,
{
    let results = results_among(oids, is_result, count);
    if count > 0 {
        let last = count - 1;
        let earlier = results_among(oids, is_result, last as nat);
        dropped_results_keep_the_locking_order(oids, is_result, last as nat);
        assert forall|k: int| 0 <= k < earlier.len() implies #[trigger] earlier[k] < oids[last] by {
            assert(earlier.contains(earlier[k]));
            let index = choose|index: int|
                0 <= index < last && #[trigger] oids[index] == earlier[k] && is_result[index]
                    == Some(true);
            assert(oids[index] < oids[last]);
        }
        assert forall|oid: i64| #[trigger] results.contains(oid) <==> exists|index: int|
            0 <= index < count && #[trigger] oids[index] == oid && is_result[index] == Some(
                true,
            ) by {
            if results.contains(oid) {
                let k = choose|k: int| 0 <= k < results.len() && results[k] == oid;
                if k < earlier.len() {
                    assert(earlier[k] == oid);
                    assert(earlier.contains(oid));
                } else {
                    assert(oids[last] == oid);
                }
            }
            if exists|index: int|
                0 <= index < count && #[trigger] oids[index] == oid && is_result[index] == Some(
                    true,
                ) {
                let index = choose|index: int|
                    0 <= index < count && #[trigger] oids[index] == oid && is_result[index] == Some(
                        true,
                    );
                if index < last {
                    assert(earlier.contains(oid));
                    let k = choose|k: int| 0 <= k < earlier.len() && earlier[k] == oid;
                    assert(results[k] == oid);
                } else {
                    assert(results[results.len() - 1] == oid);
                }
            }
        }
    }
}

} // verus!
