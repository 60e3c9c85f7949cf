use shiba::ddl::{
    declares_in_shiba, decode_result_oid, dropped_results, drops_shiba,
    ensure_shiba_slot_inactive, eq_ignore_ascii_case, guard_drop_owned, guard_source,
    lock_dataflow_statement, locking_order, plan_declaration, plan_drop, qualified_name,
    source_lock_query, DropObject, DropPlan, DropStatement, DropTarget,
    LOCK_DATAFLOW_SQL,
};
use shiba::sql::SqlValue;

fn named(name: &str) -> Option<String> {
    Some(name.to_owned())
}

#[test]
fn only_inspected_declarations_enter_the_schema() {
    assert!(declares_in_shiba(7, 7));
    assert!(!declares_in_shiba(7, 8));
    assert!(!declares_in_shiba(0, 0));
    assert_eq!(plan_declaration(true, true, false), Ok(true));
    assert_eq!(
        plan_declaration(true, false, false),
        Err("the shiba schema only accepts CREATE TABLE shiba.name AS SELECT ... dataflow \
             declarations"
            .to_owned())
    );
    assert_eq!(plan_declaration(true, false, true), Ok(false));
    assert_eq!(plan_declaration(false, false, false), Ok(false));
}

#[test]
fn drop_plan_follows_the_statement() {
    assert_eq!(
        plan_drop(DropStatement::Owned),
        DropPlan {
            guard_owner: true,
            guard_extension: false,
            lock_all: true,
            inspect_tables: false,
        }
    );
    assert_eq!(
        plan_drop(DropStatement::Objects {
            target: DropTarget::Extension,
            cascade: true,
        }),
        DropPlan {
            guard_owner: false,
            guard_extension: true,
            lock_all: true,
            inspect_tables: false,
        }
    );
    assert_eq!(
        plan_drop(DropStatement::Objects {
            target: DropTarget::Table,
            cascade: false,
        }),
        DropPlan {
            guard_owner: false,
            guard_extension: false,
            lock_all: false,
            inspect_tables: true,
        }
    );
    assert_eq!(
        plan_drop(DropStatement::Other),
        DropPlan {
            guard_owner: false,
            guard_extension: false,
            lock_all: false,
            inspect_tables: false,
        }
    );
}

#[test]
fn dropped_names_have_one_to_three_parts() {
    assert_eq!(qualified_name(&vec![named("t")]), named("\"t\""));
    assert_eq!(
        qualified_name(&vec![named("db"), named("s"), named("a\"b")]),
        named("\"db\".\"s\".\"a\"\"b\"")
    );
    assert_eq!(qualified_name(&vec![]), None);
    assert_eq!(
        qualified_name(&vec![named("a"), named("b"), named("c"), named("d")]),
        None
    );
    assert_eq!(qualified_name(&vec![named("a"), None]), None);
}

#[test]
fn relations_are_locked_in_one_order() {
    assert_eq!(locking_order(&vec![5, 3, 5, -1, 9, 3]), vec![-1, 3, 5, 9]);
    assert_eq!(locking_order(&vec![9, 5, 3, -1]), vec![-1, 3, 5, 9]);
    assert_eq!(locking_order(&vec![]), Vec::<i64>::new());
}

#[test]
fn results_keep_the_order_of_the_locks() {
    let oids = locking_order(&vec![5, 3, 9]);
    assert_eq!(
        dropped_results(&oids, &vec![Some(true), None, Some(true)]),
        vec![3, 9]
    );
    assert_eq!(
        dropped_results(&oids, &vec![Some(false), None, Some(false)]),
        Vec::<i64>::new()
    );
}

#[test]
fn sources_cannot_be_dropped() {
    assert_eq!(guard_source(7, Some(false)), Ok(()));
    assert_eq!(guard_source(7, None), Ok(()));
    assert_eq!(
        guard_source(7, Some(true)),
        Err("cannot DROP TABLE with OID 7 while it is a Shiba source; drop dependent Shiba \
             tables first"
            .to_owned())
    );
}

#[test]
fn extension_owner_cannot_be_dropped() {
    assert_eq!(guard_drop_owned(None, &vec![Some(10)]), Ok(()));
    assert_eq!(guard_drop_owned(Some(10), &vec![None, Some(11)]), Ok(()));
    assert_eq!(
        guard_drop_owned(Some(10), &vec![None, Some(11), Some(10)]),
        Err("DROP OWNED by the Shiba extension owner is not supported; drop all Shiba results, \
             call shiba.deactivate(), and use DROP EXTENSION shiba explicitly"
            .to_owned())
    );
}

#[test]
fn extension_is_recognised_without_regard_to_case() {
    assert!(eq_ignore_ascii_case("SHIBA", "shiba"));
    assert!(eq_ignore_ascii_case("", ""));
    assert!(!eq_ignore_ascii_case("shib", "shiba"));
    assert!(!eq_ignore_ascii_case("shibä", "shiba"));
    assert!(!eq_ignore_ascii_case("@", "`"));
    assert!(drops_shiba(&vec![
        DropObject::Other,
        DropObject::Name(named("Shiba")),
    ]));
    assert!(drops_shiba(&vec![DropObject::Names(vec![
        None,
        named("SHIBA"),
    ])]));
    assert!(!drops_shiba(&vec![
        DropObject::Other,
        DropObject::Name(None),
        DropObject::Name(named("postgis")),
        DropObject::Names(vec![]),
    ]));
}

#[test]
fn extension_is_dropped_only_when_nothing_is_left() {
    let refused = Err(
        "drop all Shiba results and call shiba.deactivate() before DROP EXTENSION shiba"
            .to_owned(),
    );
    assert_eq!(
        ensure_shiba_slot_inactive(Some(false), Some(true), Some(true)),
        Ok(())
    );
    assert_eq!(
        ensure_shiba_slot_inactive(None, Some(true), Some(true)),
        Ok(())
    );
    assert_eq!(
        ensure_shiba_slot_inactive(Some(false), Some(false), None),
        refused
    );
    assert_eq!(
        ensure_shiba_slot_inactive(Some(false), None, Some(true)),
        refused
    );
    assert_eq!(
        ensure_shiba_slot_inactive(Some(true), Some(true), Some(true)),
        refused
    );
    assert_eq!(
        ensure_shiba_slot_inactive(Some(false), Some(true), Some(false)),
        refused
    );
}

#[test]
fn lock_names_its_dataflow() {
    let lock = lock_dataflow_statement(7);
    assert_eq!(lock.sql, LOCK_DATAFLOW_SQL);
    assert_eq!(lock.arguments, vec![SqlValue::Oid(7)]);
}

#[test]
fn sources_are_locked_against_writes() {
    assert_eq!(
        source_lock_query(&named("public"), &named("orders")),
        Ok("LOCK TABLE \"public\".\"orders\" IN SHARE ROW EXCLUSIVE MODE".to_owned())
    );
    assert_eq!(
        source_lock_query(&None, &named("orders")),
        Err("source schema is NULL".to_owned())
    );
    assert_eq!(
        source_lock_query(&named("public"), &None),
        Err("source relation is NULL".to_owned())
    );
    assert_eq!(decode_result_oid(Some(7)), Ok(7));
    assert_eq!(
        decode_result_oid(None),
        Err("result OID is NULL".to_owned())
    );
}
