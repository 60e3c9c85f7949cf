//! What the utility hook lets through and what it refuses.

use vstd::prelude::*;

use crate::ddl::declaring::{
    DeclareModel, DeclarePlan, DeclareState, UtilityModel, UtilityReply,
};
use crate::ddl::dropping::{self, DropCheck, DropCourse, DropModel};
use crate::ddl::quiescing::{self, LockState, QuiescePlan, QuiesceState};
use crate::ddl::{self, DropObject, DropStatement, DropTarget};
use crate::postgres;
use crate::session::{self, ProgressModel, Reply, RequestModel, Row};
use crate::sql::SqlModel;
use crate::text;

verus! {

/// The reserved schema takes in dataflow declarations and, while the extension
/// is created, the tables of the extension; every other table is refused.
/// Outside the schema nothing is refused and nothing is declared.
pub proof fn reserved_schema_takes_declarations(
    declaration: bool,
    inspected: bool,
    creating_extension: bool,
)
    ensures
        !declaration ==> ddl::declared(declaration, inspected, creating_extension) == Ok::<
            bool,
            Seq<char>,
        >(false),
        declaration && inspected ==> ddl::declared(declaration, inspected, creating_extension)
            == Ok::<bool, Seq<char>>(true),
        declaration && !inspected && creating_extension ==> ddl::declared(
            declaration,
            inspected,
            creating_extension,
        ) == Ok::<bool, Seq<char>>(false),
        declaration && !inspected && !creating_extension ==> ddl::declared(
            declaration,
            inspected,
            creating_extension,
        ) is Err,
{
}

/// A drop locks every dataflow exactly when it may reach objects that it does
/// not name; its tables are looked up exactly when it names tables, and the
/// extension and its owner are guarded exactly where they may go.
pub proof fn drop_is_guarded_by_what_it_reaches(statement: DropStatement)
    ensures
        ({
            let plan = ddl::drop_planned(statement);
            let cascades = statement matches DropStatement::Objects { cascade: true, .. };
            let of = |wanted: DropTarget|
                statement matches DropStatement::Objects { target, .. } && target == wanted;
            &&& plan.lock_all <==> cascades || statement is Owned
            &&& plan.guard_owner <==> statement is Owned
            &&& plan.guard_extension <==> of(DropTarget::Extension)
            &&& plan.inspect_tables <==> of(DropTarget::Table)
        }),
{
}

/// The name of a dropped table quotes each of its one to three parts and puts a
/// dot between them; any other list of parts is no name.
pub proof fn dropped_table_is_named_by_its_parts(parts: Seq<Option<String>>)
    ensures
        ddl::qualified(parts) is Some <==> 1 <= parts.len() <= 3 && (forall|index: int|
            0 <= index < parts.len() ==> (#[trigger] parts[index]) is Some),
        parts.len() == 1 && parts[0] is Some ==> ddl::qualified(parts) == Some(
            postgres::quoted(parts[0]->0@),
        ),
        parts.len() == 2 && parts[0] is Some && parts[1] is Some ==> ddl::qualified(parts) == Some(
            postgres::quoted(parts[0]->0@) + "."@ + postgres::quoted(parts[1]->0@),
        ),
        parts.len() == 3 && parts[0] is Some && parts[1] is Some && parts[2] is Some
            ==> ddl::qualified(parts) == Some(
            postgres::quoted(parts[0]->0@) + "."@ + postgres::quoted(parts[1]->0@) + "."@
                + postgres::quoted(parts[2]->0@),
        ),
{
    let list = Seq::new(parts.len(), |index: int| postgres::quoted(parts[index]->0@));
    reveal_with_fuel(text::joined, 4);
    if 1 <= parts.len() <= 3 && (forall|index: int|
        0 <= index < parts.len() ==> (#[trigger] parts[index]) is Some) {
        assert(ddl::present_parts(parts) == Some(list));
        if parts.len() == 2 {
            assert(list.drop_last().len() == 1);
            assert(list.drop_last()[0] == list[0]);
        }
        if parts.len() == 3 {
            assert(list.drop_last().len() == 2);
            assert(list.drop_last()[1] == list[1]);
            assert(list.drop_last().drop_last().len() == 1);
            assert(list.drop_last().drop_last()[0] == list[0]);
        }
    }
}

/// A table is dropped exactly when it is not known to be a source.
pub proof fn sources_are_not_dropped(relation_oid: i64, is_source: Option<bool>)
    ensures
        ddl::source_guarded(relation_oid, is_source) is Err <==> is_source == Some(true),
{
}

/// Owned objects go unless one of the roles owns the extension.
pub proof fn extension_owner_keeps_its_objects(
    extension_owner: Option<u32>,
    roles: Seq<Option<u32>>,
)
    ensures
        ddl::owner_guarded(extension_owner, roles) is Err <==> extension_owner is Some
            && roles.contains(extension_owner),
{
    if extension_owner is Some && roles.contains(extension_owner) {
        let index = choose|index: int| 0 <= index < roles.len() && roles[index] == extension_owner;
        assert(roles[index] == Some(extension_owner->0));
    }
}

/// The letter that differs from another one in its case only, as far as the
/// letters A to Z are concerned.
pub open spec fn is_capital_of(capital: char, small: char) -> bool {
    'A' <= capital && capital <= 'Z' && small as u32 == capital as u32 + 32
}

/// Two names are the same when they differ at most in the case of the letters
/// A to Z.
pub proof fn names_differ_in_case_only(left: Seq<char>, right: Seq<char>)
    ensures
        ddl::same_ignoring_case(left, right) <==> left.len() == right.len() && forall|index: int|
            0 <= index < left.len() ==> {
                ||| #[trigger] left[index] == right[index]
                ||| is_capital_of(left[index], right[index])
                ||| is_capital_of(right[index], left[index])
            },
{
    assert forall|one: char, other: char|
        (#[trigger] ddl::ascii_lower(one) == #[trigger] ddl::ascii_lower(other)) <==> {
            ||| one == other
            ||| is_capital_of(one, other)
            ||| is_capital_of(other, one)
        } by {
        let low = (one as u32 + 32) as char;
        let low_other = (other as u32 + 32) as char;
        if 'A' <= one && one <= 'Z' {
            assert(low as u32 == one as u32 + 32);
        }
        if 'A' <= other && other <= 'Z' {
            assert(low_other as u32 == other as u32 + 32);
        }
    }
}

/// A `DROP EXTENSION` concerns this extension exactly when one of the names of
/// an object is `shiba` in some case.
pub proof fn extension_is_found_by_its_name(object: DropObject)
    ensures
        ddl::object_is_shiba(object) <==> match object {
            DropObject::Name(name) => name matches Some(name) && ddl::same_ignoring_case(
                name@,
                "shiba"@,
            ),
            DropObject::Names(names) => exists|index: int|
                0 <= index < names@.len() && (#[trigger] names@[index] matches Some(name)
                    && ddl::same_ignoring_case(name@, "shiba"@)),
            DropObject::Other => false,
        },
{
    if let DropObject::Names(names) = object {
        if ddl::object_is_shiba(object) {
            let index = choose|index: int|
                0 <= index < names@.len() && ddl::names_shiba(#[trigger] names@[index]);
            assert(names@[index] is Some);
        }
        if exists|index: int|
            0 <= index < names@.len() && (#[trigger] names@[index] matches Some(name)
                && ddl::same_ignoring_case(name@, "shiba"@)) {
            let index = choose|index: int|
                0 <= index < names@.len() && (#[trigger] names@[index] matches Some(name)
                    && ddl::same_ignoring_case(name@, "shiba"@));
            assert(ddl::names_shiba(names@[index]));
        }
    }
}

/// The extension goes exactly when its slot is gone, its catalog is whole and
/// nothing in it is in use; what is unknown keeps it, except the slot.
pub proof fn extension_in_use_is_kept(
    slot_exists: Option<bool>,
    catalog_exists: Option<bool>,
    lifecycle_clean: Option<bool>,
)
    ensures
        slot_exists == Some(true) ==> ddl::extension_idle(
            slot_exists,
            catalog_exists,
            lifecycle_clean,
        ) is Err,
        catalog_exists != Some(true) ==> ddl::extension_idle(
            slot_exists,
            catalog_exists,
            lifecycle_clean,
        ) is Err,
        lifecycle_clean != Some(true) ==> ddl::extension_idle(
            slot_exists,
            catalog_exists,
            lifecycle_clean,
        ) is Err,
        slot_exists != Some(true) && catalog_exists == Some(true) && lifecycle_clean == Some(true)
            ==> ddl::extension_idle(slot_exists, catalog_exists, lifecycle_clean) is Ok,
{
}

/// A drop runs at once exactly when nothing has to be checked or locked for it.
pub proof fn unguarded_drop_runs_at_once(check: DropCheck)
    ensures
        check.opening() is Clear <==> !check.plan.guard_owner && !(check.plan.guard_extension
            && check.drops_shiba) && !check.plan.lock_all && !check.plan.inspect_tables,
        check.plan.guard_owner ==> (check.opening() matches DropCourse::Ask { state, .. }
            && state is Owner),
        !check.plan.guard_owner && check.plan.guard_extension && check.drops_shiba ==> (
        check.opening() matches DropCourse::Ask { state, .. } && state is Slot),
        !check.plan.guard_owner && !(check.plan.guard_extension && check.drops_shiba)
            && check.plan.lock_all ==> (check.opening() matches DropCourse::Ask { state, .. }
            && state is Cascade),
{
}

/// A drop is refused by what was read, and by nothing else: a role that owns
/// the extension, an extension in use, or a table that is a source.
pub proof fn drop_is_refused_by_what_was_read(
    check: DropCheck,
    state: DropModel,
    rows: Vec<Row>,
)
    ensures
        ({
            let next = check.resumes(state, Reply::Rows(rows));
            match state {
                DropModel::Owner => next is Err <==> session::oid(rows@, 1) is Some
                    && check.roles@.contains(session::oid(rows@, 1)),
                DropModel::Catalog { .. } => session::boolean_answer(rows@, 1) is Ok
                    && session::boolean(rows@, 1) != Some(true) ==> next is Err,
                DropModel::Clean { slot, catalog } => session::boolean_answer(rows@, 1) is Ok ==> (
                next is Err <==> slot == Some(true) || catalog != Some(true) || session::boolean(
                    rows@,
                    1,
                ) != Some(true)),
                DropModel::Source { .. } => session::boolean_answer(rows@, 1) is Ok ==> (next is Err
                    <==> session::boolean(rows@, 1) == Some(true)),
                DropModel::Resolve { .. } => next is Err <==> session::integer_answer(
                    rows@,
                    1,
                ) is Err,
                DropModel::Slot | DropModel::Result { .. } => next is Err
                    <==> session::boolean_answer(rows@, 1) is Err,
                _ => next is Ok,
            }
        }),
{
    if let DropModel::Owner = state {
        extension_owner_keeps_its_objects(session::oid(rows@, 1), check.roles@);
    }
}

/// Where the catalog exists, a cascading drop locks every dataflow before it
/// looks at its tables, and named tables are looked up one after the other,
/// each under its own name; without the catalog there is nothing to protect.
pub proof fn catalog_is_protected_where_it_exists(
    check: DropCheck,
    state: DropModel,
    rows: Vec<Row>,
)
    ensures
        ({
            let next = check.resumes(state, Reply::Rows(rows));
            let exists = session::boolean(rows@, 1) == Some(true);
            match state {
                DropModel::Cascade => next is Ok && (next->Ok_0 matches DropCourse::Ask { state, request }
                    && state is LockAll && request is Write) == exists,
                DropModel::Installed => {
                    &&& !exists ==> next == Ok::<DropCourse, Seq<char>>(DropCourse::Clear)
                    &&& exists && check.tables.len() > 0 ==> (next matches Ok(
                        DropCourse::Ask {
                            state: DropModel::Resolve { index, found },
                            request: RequestModel::Read(statement),
                        },
                    ) && index == 0 && found.len() == 0 && statement.arguments
                        == seq![SqlModel::Text(Some(check.tables[0]@))])
                },
                DropModel::Resolve { index, found } => next matches Ok(
                    DropCourse::Ask {
                        state: DropModel::Resolve { index: after, found: all },
                        request: RequestModel::Read(statement),
                    },
                ) ==> {
                    &&& after == index + 1 < check.tables.len()
                    &&& statement.arguments == seq![SqlModel::Text(Some(check.tables[index + 1]@))]
                    &&& all == (match session::integer(rows@, 1) {
                        Some(oid) => found.push(oid as i64),
                        None => found,
                    })
                },
                _ => true,
            }
        }),
{
}

/// The tables of a drop that are results are prepared for it, these and no
/// others, once every table was looked at.
pub proof fn results_are_prepared_before_they_go(
    check: DropCheck,
    index: int,
    oids: Seq<i64>,
    flags: Seq<Option<bool>>,
    rows: Vec<Row>,
)
    requires
        0 <= index < oids.len(),
        flags.len() == index,
    ensures
        ({
            let all = flags.push(session::boolean(rows@, 1));
            let next = check.resumes(
                DropModel::Result { index, oids, flags },
                Reply::Rows(rows),
            );
            session::boolean_answer(rows@, 1) is Ok ==> {
                &&& index + 1 < oids.len() ==> (next matches Ok(
                    DropCourse::Ask {
                        state: DropModel::Result { index: after, oids: same, flags: seen },
                        request: RequestModel::Read(statement),
                    },
                ) && after == index + 1 && same == oids && seen == all && statement.arguments
                    == seq![SqlModel::Oid(oids[index + 1] as i32 as u32)])
                &&& index + 1 == oids.len() && all.contains(Some(true)) ==> (next matches Ok(
                    DropCourse::Ask {
                        state: DropModel::Prepare,
                        request: RequestModel::Write(statement),
                    },
                ) && statement.arguments == seq![
                    SqlModel::OidArray(
                        dropping::as_oids(ddl::results_among(oids, all, oids.len())),
                    ),
                ])
                &&& index + 1 == oids.len() && !all.contains(Some(true)) ==> next == Ok::<
                    DropCourse,
                    Seq<char>,
                >(DropCourse::Clear)
            }
        }),
{
    let all = flags.push(session::boolean(rows@, 1));
    if index + 1 == oids.len() {
        some_result_is_among(oids, all, oids.len());
        assert(all.len() == oids.len());
        if all.contains(Some(true)) {
            let at = choose|at: int| 0 <= at < all.len() && all[at] == Some(true);
            assert(all[at] == Some(true));
        }
    }
}

proof fn some_result_is_among(oids: Seq<i64>, flags: Seq<Option<bool>>, count: nat)
    ensures
        ddl::results_among(oids, flags, count).len() > 0 <==> exists|index: int|
            0 <= index < count && #[trigger] flags[index] == Some(true),
    decreases count,
{
    if count > 0 {
        some_result_is_among(oids, flags, (count - 1) as nat);
        if flags[count - 1] == Some(true) {
        } else if exists|index: int| 0 <= index < count && #[trigger] flags[index] == Some(true) {
            let index = choose|index: int| 0 <= index < count && #[trigger] flags[index] == Some(true);
            assert(index < count - 1);
        }
    }
}

/// A source is locked under its quoted name against writers and other locks of
/// its kind; without a schema or a name there is no lock.
pub proof fn sources_are_locked_by_name(schema: Option<String>, relation: Option<String>)
    ensures
        ddl::source_lock(schema, relation) is Ok <==> schema is Some && relation is Some,
        schema is Some && relation is Some ==> ({
            let name = postgres::quoted(schema->0@) + "."@ + postgres::quoted(relation->0@);
            let sql = ddl::source_lock(schema, relation)->Ok_0;
            let lead = "LOCK TABLE "@.len() as int;
            &&& sql.take(lead) == "LOCK TABLE "@
            &&& sql.subrange(lead, lead + name.len() as int) == name
            &&& sql.skip(lead + name.len()) == " IN SHARE ROW EXCLUSIVE MODE"@
        }),
{
    if schema is Some && relation is Some {
        let name = postgres::quoted(schema->0@) + "."@ + postgres::quoted(relation->0@);
        let sql = ddl::source_lock(schema, relation)->Ok_0;
        assert(sql =~= "LOCK TABLE "@ + name + " IN SHARE ROW EXCLUSIVE MODE"@);
    }
}

/// A declaration locks exactly the sources that its query reads, and registers
/// the relation that its run created with the plan that was made for it.
pub proof fn declaration_registers_its_relation(
    plan: DeclarePlan,
    state: DeclareState,
    reply: UtilityReply,
)
    ensures
        match (state, reply) {
            (DeclareState::Beginning, UtilityReply::Done) => plan.resumes(state, reply) matches Ok(
                DeclareModel::Ask {
                    state: DeclareState::Locking,
                    request: UtilityModel::Write(statement),
                },
            ) && statement.arguments == seq![SqlModel::OidArray(plan.inspection->0->Ok_0@)],
            (DeclareState::Resolving, UtilityReply::Relation(Some(oid))) => plan.resumes(
                state,
                reply,
            ) matches Ok(
                DeclareModel::Ask { state: DeclareState::Finishing { result_oid }, request },
            ) && result_oid == oid && request is Finish,
            (DeclareState::Resolving, UtilityReply::Relation(None)) => plan.resumes(
                state,
                reply,
            ) is Err,
            (
                DeclareState::Finishing { result_oid },
                UtilityReply::Plan(made),
            ) => plan.resumes(state, reply) matches Ok(
                DeclareModel::Ask {
                    state: DeclareState::Registering,
                    request: UtilityModel::Write(statement),
                },
            ) && statement.arguments == seq![
                SqlModel::Oid(result_oid),
                SqlModel::Text(Some(made@)),
            ],
            (DeclareState::Finishing { .. }, UtilityReply::Rejected(_)) => plan.resumes(
                state,
                reply,
            ) is Err,
            _ => true,
        },
{
}

/// Results are quiesced one after the other, each under its own lock, then all
/// of them are deactivated, and then each of their sources is locked by name.
pub proof fn results_are_quiesced_in_order(plan: QuiescePlan, state: QuiesceState, rows: Vec<Row>)
    requires
        plan.waits(state),
    ensures
        ({
            let next = plan.resumes(state, Reply::Rows(rows));
            match state {
                QuiesceState::Locking { index } => next matches Ok(
                    ProgressModel::Ask { state: after, request: RequestModel::Write(statement) },
                ) && if index + 1 < plan.result_oids.len() {
                    after == (QuiesceState::Locking { index: (index + 1) as usize })
                        && statement.arguments == seq![SqlModel::Oid(plan.result_oids[index + 1])]
                } else {
                    after is Deactivating && statement.arguments == seq![
                        SqlModel::OidArray(plan.result_oids@),
                    ]
                },
                QuiesceState::Deactivating => next matches Ok(
                    ProgressModel::Ask { state: after, request: RequestModel::Read(statement) },
                ) && after is Reading && statement.arguments == seq![
                    SqlModel::OidArray(plan.result_oids@),
                ],
                QuiesceState::Reading => if rows.len() == 0 {
                    next == Ok::<ProgressModel<QuiesceState, ()>, Seq<char>>(
                        ProgressModel::Done(()),
                    )
                } else {
                    next is Err || (next matches Ok(
                        ProgressModel::Ask {
                            state: QuiesceState::Holding { sources, index },
                            request: RequestModel::Write(statement),
                        },
                    ) && sources == rows && index == 0 && statement.sql == ddl::source_lock(
                        rows[0].text(2),
                        rows[0].text(3),
                    )->Ok_0)
                },
                QuiesceState::Holding { sources, index } => if index + 1 == sources.len() {
                    next == Ok::<ProgressModel<QuiesceState, ()>, Seq<char>>(
                        ProgressModel::Done(()),
                    )
                } else {
                    next is Err || (next matches Ok(
                        ProgressModel::Ask {
                            state: QuiesceState::Holding { sources: same, index: after },
                            request: RequestModel::Write(statement),
                        },
                    ) && same == sources && after == index + 1 && statement.sql
                        == ddl::source_lock(
                        sources[index + 1].text(2),
                        sources[index + 1].text(3),
                    )->Ok_0)
                },
            }
        }),
{
}

/// Every listed result is locked, one after the other, each by its own lock.
pub proof fn all_results_are_locked(results: Vec<Row>, index: usize, rows: Vec<Row>)
    requires
        index < results.len(),
    ensures
        ({
            let next = quiescing::all_resumes(
                LockState::Locking { results, index },
                Reply::Rows(rows),
            );
            if index + 1 == results.len() {
                next == Ok::<ProgressModel<LockState, ()>, Seq<char>>(ProgressModel::Done(()))
            } else {
                match results[index + 1].oid(1) {
                    None => next is Err,
                    Some(oid) => next matches Ok(
                        ProgressModel::Ask {
                            state: LockState::Locking { results: same, index: after },
                            request: RequestModel::Write(statement),
                        },
                    ) && same == results && after == index + 1 && statement.arguments == seq![
                        SqlModel::Oid(oid),
                    ],
                }
            }
        }),
        results.len() > 0 ==> match (
            quiescing::all_resumes(LockState::Reading, Reply::Rows(results)),
            results[0].oid(1),
        ) {
            (next, None) => next is Err,
            (next, Some(oid)) => next matches Ok(
                ProgressModel::Ask {
                    state: LockState::Locking { index: first, .. },
                    request: RequestModel::Write(statement),
                },
            ) && first == 0 && statement.arguments == seq![SqlModel::Oid(oid)],
        },
{
}

} // verus!
