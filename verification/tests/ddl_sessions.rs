use shiba::ddl::declaring::{
    DeclarePlan, DeclareProgress, DeclareState, UtilityReply, UtilityRequest,
};
use shiba::ddl::dropping::{DropCheck, DropState};
use shiba::ddl::quiescing::{open_lock_all, resume_lock_all, QuiescePlan};
use shiba::ddl::{
    lock_dataflow_statement, plan_drop, DropPlan, DropStatement, DropTarget,
    BEGIN_REGISTRATION_SQL, CATALOG_EXISTS_SQL, DEACTIVATE_SQL, EXTENSION_OWNER_SQL, IS_RESULT_SQL, IS_SOURCE_SQL, LIFECYCLE_CATALOG_SQL,
    LIFECYCLE_CLEAN_SQL, LOCK_ALL_SQL, LOCK_SOURCES_SQL, PREPARE_DROPS_SQL, REGISTER_SQL,
    RESOLVE_RELATION_SQL, RESULTS_SQL, SLOT_EXISTS_SQL, SOURCES_SQL,
};
use shiba::session::{Cell, Progress, Reply, Request, Row, EMPTY, MISPLACED, MISTYPED};
use shiba::sql::{SqlValue, Statement};

fn row(cells: Vec<Cell>) -> Reply {
    Reply::Rows(vec![Row { cells }])
}

fn empty() -> Reply {
    Reply::Rows(vec![])
}

fn word(value: &str) -> Cell {
    Cell::Text(value.to_owned())
}

fn drive<S, C>(
    mut progress: Progress<S, C>,
    mut resume: impl FnMut(S, Reply) -> Result<Progress<S, C>, String>,
    replies: Vec<Reply>,
) -> (Vec<Request>, Result<C, String>) {
    let mut requests = Vec::new();
    let mut replies = replies.into_iter();
    loop {
        match progress {
            Progress::Done(outcome) => {
                assert!(replies.next().is_none(), "a reply was left over");
                return (requests, Ok(outcome));
            }
            Progress::Ask { state, request } => {
                requests.push(request);
                let reply = replies.next().expect("a reply is missing");
                match resume(state, reply) {
                    Ok(next) => progress = next,
                    Err(error) => return (requests, Err(error)),
                }
            }
        }
    }
}

fn sql(request: &Request) -> &str {
    match request {
        Request::Read(statement)
        | Request::Probe(statement)
        | Request::Write(statement)
        | Request::Lock(statement) => &statement.sql,
        other => panic!("{other:?} is no statement"),
    }
}

fn truth(value: bool) -> Reply {
    row(vec![Cell::Boolean(value)])
}

fn arguments(request: &Request) -> &Vec<SqlValue> {
    match request {
        Request::Read(statement) | Request::Write(statement) => &statement.arguments,
        other => panic!("{other:?} has no arguments"),
    }
}

fn check(
    plan: DropPlan,
    roles: Vec<Option<u32>>,
    drops_shiba: bool,
    tables: &[&str],
    replies: Vec<Reply>,
) -> (Vec<Request>, Result<(), String>) {
    let tables: Vec<String> = tables.iter().map(|name| (*name).to_owned()).collect();
    let check = DropCheck {
        plan,
        roles: &roles,
        drops_shiba,
        tables: &tables,
    };
    drive(check.open(), |state, reply| check.resume(state, reply), replies)
}

fn tables_plan(cascade: bool) -> DropPlan {
    plan_drop(DropStatement::Objects { target: DropTarget::Table, cascade })
}

#[test]
fn other_statements_are_not_checked() {
    let (requests, checked) = check(plan_drop(DropStatement::Other), vec![], false, &[], vec![]);
    assert!(requests.is_empty());
    assert_eq!(checked, Ok(()));
}

#[test]
fn dropped_tables_are_resolved_and_prepared_in_order() {
    let (requests, checked) = check(
        tables_plan(false),
        vec![],
        false,
        &["public.b", "public.gone", "public.a"],
        vec![
            truth(true),
            row(vec![Cell::Integer(30)]),
            row(vec![Cell::Null]),
            row(vec![Cell::Integer(20)]),
            truth(false),
            truth(false),
            truth(true),
            truth(true),
            empty(),
        ],
    );
    assert_eq!(checked, Ok(()));
    let asked: Vec<&str> = requests.iter().map(sql).collect();
    assert_eq!(
        asked,
        [
            CATALOG_EXISTS_SQL,
            RESOLVE_RELATION_SQL,
            RESOLVE_RELATION_SQL,
            RESOLVE_RELATION_SQL,
            IS_SOURCE_SQL,
            IS_SOURCE_SQL,
            IS_RESULT_SQL,
            IS_RESULT_SQL,
            PREPARE_DROPS_SQL,
        ]
    );
    assert_eq!(arguments(&requests[1]), &vec![SqlValue::Text(Some("public.b".to_owned()))]);
    assert_eq!(arguments(&requests[8]), &vec![SqlValue::OidArray(vec![20, 30])]);
    assert!(matches!(requests[8], Request::Write(_)));
}

#[test]
fn source_tables_are_kept() {
    let (requests, checked) = check(
        tables_plan(false),
        vec![],
        false,
        &["public.a"],
        vec![truth(true), row(vec![Cell::Integer(20)]), truth(true)],
    );
    assert!(checked.is_err());
    assert_eq!(requests.len(), 3);
    let (requests, checked) = check(
        tables_plan(false),
        vec![],
        false,
        &["public.a"],
        vec![truth(true), row(vec![Cell::Integer(20)]), truth(false), truth(false)],
    );
    assert_eq!((requests.len(), checked), (4, Ok(())));
    let (requests, checked) = check(
        tables_plan(false),
        vec![],
        false,
        &["public.a"],
        vec![truth(false)],
    );
    assert_eq!((requests.len(), checked), (1, Ok(())));
}

#[test]
fn cascade_locks_every_dataflow_where_there_are_any() {
    let (requests, checked) = check(
        tables_plan(true),
        vec![],
        false,
        &[],
        vec![truth(true), empty(), truth(true)],
    );
    assert_eq!(checked, Ok(()));
    let asked: Vec<&str> = requests.iter().map(sql).collect();
    assert_eq!(asked, [CATALOG_EXISTS_SQL, LOCK_ALL_SQL, CATALOG_EXISTS_SQL]);
    let owned = plan_drop(DropStatement::Owned);
    let (requests, checked) = check(
        owned,
        vec![Some(11)],
        false,
        &[],
        vec![row(vec![Cell::Oid(10)]), truth(false)],
    );
    assert_eq!(checked, Ok(()));
    assert_eq!(sql(&requests[0]), EXTENSION_OWNER_SQL);
    let (requests, checked) = check(
        owned,
        vec![Some(10)],
        false,
        &[],
        vec![row(vec![Cell::Oid(10)])],
    );
    assert!(checked.is_err());
    assert_eq!(requests.len(), 1);
}

#[test]
fn extension_leaves_only_when_it_is_idle() {
    let plan = plan_drop(DropStatement::Objects {
        target: DropTarget::Extension,
        cascade: false,
    });
    let run = |replies| check(plan, vec![], true, &[], replies);
    let (requests, checked) = run(vec![truth(false), truth(true), truth(true)]);
    assert_eq!(checked, Ok(()));
    let asked: Vec<&str> = requests.iter().map(sql).collect();
    assert_eq!(asked, [SLOT_EXISTS_SQL, LIFECYCLE_CATALOG_SQL, LIFECYCLE_CLEAN_SQL]);
    assert!(run(vec![truth(true), truth(true), truth(true)]).1.is_err());
    assert!(run(vec![truth(false), truth(true), truth(false)]).1.is_err());
    assert!(run(vec![truth(false), truth(false)]).1.is_err());
    let (requests, checked) = check(plan, vec![], false, &[], vec![]);
    assert_eq!((requests.len(), checked), (0, Ok(())));
    let tables = vec![];
    let roles = vec![];
    let check = DropCheck {
        plan,
        roles: &roles,
        drops_shiba: true,
        tables: &tables,
    };
    assert_eq!(
        check.resume(DropState::Slot, Reply::Checked).unwrap_err(),
        MISPLACED
    );
}

#[test]
fn failed_drop_statement_names_its_purpose() {
    for (state, purpose) in [
        (
            DropState::Owner,
            "Shiba failed to inspect its extension owner before DROP OWNED",
        ),
        (
            DropState::Slot,
            "Shiba failed to inspect its logical slot before DROP EXTENSION",
        ),
        (
            DropState::Catalog { slot: None },
            "Shiba failed to inspect its catalog before DROP EXTENSION",
        ),
        (
            DropState::Clean { slot: None, catalog: None },
            "Shiba failed to inspect worker state before DROP EXTENSION",
        ),
        (
            DropState::LockAll,
            "Shiba failed to serialize indirect DROP with dataflow execution",
        ),
        (
            DropState::Resolve { index: 0, found: vec![] },
            "Shiba failed to resolve a result table before DROP",
        ),
        (
            DropState::Source { index: 0, oids: vec![7] },
            "Shiba failed to inspect source dependencies before DROP",
        ),
        (
            DropState::Result { index: 0, oids: vec![7], flags: vec![] },
            "Shiba failed to inspect a result table before DROP",
        ),
        (
            DropState::Prepare,
            "Shiba failed to quiesce result DAGs before DROP",
        ),
    ] {
        assert_eq!(DropCheck::failure(&state, "gone"), format!("{purpose}: gone"));
    }
    let (_, checked) = check(
        tables_plan(false),
        vec![],
        false,
        &["public.a"],
        vec![truth(true), empty()],
    );
    assert_eq!(
        checked.unwrap_err(),
        format!("Shiba failed to resolve a result table before DROP: {EMPTY}")
    );
    let (_, checked) = check(
        tables_plan(false),
        vec![],
        false,
        &["public.a"],
        vec![truth(true), row(vec![Cell::Integer(20)]), row(vec![Cell::Integer(1)])],
    );
    assert_eq!(
        checked.unwrap_err(),
        format!("Shiba failed to inspect source dependencies before DROP: {MISTYPED}")
    );
}

#[test]
fn results_are_locked_before_they_are_deactivated() {
    let plan = QuiescePlan::new(&vec![30, 20, 30]);
    let source = |schema: Cell, name: &str| Row {
        cells: vec![Cell::Oid(7), schema, word(name)],
    };
    let (requests, quiet) = drive(
        plan.open(),
        |state, reply| plan.resume(state, reply),
        vec![
            empty(),
            empty(),
            empty(),
            Reply::Rows(vec![source(word("public"), "a"), source(word("public"), "b")]),
            empty(),
            empty(),
        ],
    );
    assert_eq!(quiet, Ok(()));
    assert_eq!(
        requests[..2],
        [
            Request::Write(lock_dataflow_statement(20)),
            Request::Write(lock_dataflow_statement(30)),
        ]
    );
    assert_eq!(sql(&requests[2]), DEACTIVATE_SQL);
    assert_eq!(arguments(&requests[2]), &vec![SqlValue::OidArray(vec![20, 30])]);
    assert_eq!(sql(&requests[3]), SOURCES_SQL);
    assert!(sql(&requests[4]).contains("\"public\".\"a\""));
    assert!(sql(&requests[5]).contains("\"public\".\"b\""));
    let (_, quiet) = drive(
        plan.open(),
        |state, reply| plan.resume(state, reply),
        vec![empty(), empty(), empty(), Reply::Rows(vec![source(Cell::Null, "a")])],
    );
    assert!(quiet.is_err());
}

#[test]
fn utility_lock_takes_every_listed_dataflow() {
    let listed = |oids: Vec<Cell>| {
        Reply::Rows(oids.into_iter().map(|oid| Row { cells: vec![oid] }).collect())
    };
    let (requests, locked) = drive(
        open_lock_all(),
        resume_lock_all,
        vec![listed(vec![Cell::Oid(20), Cell::Oid(30)]), empty(), empty()],
    );
    assert_eq!(locked, Ok(()));
    assert_eq!(sql(&requests[0]), RESULTS_SQL);
    assert_eq!(
        requests[1..],
        [
            Request::Write(lock_dataflow_statement(20)),
            Request::Write(lock_dataflow_statement(30)),
        ]
    );
    let (_, locked) = drive(open_lock_all(), resume_lock_all, vec![listed(vec![Cell::Null])]);
    assert_eq!(locked.unwrap_err(), "result OID is NULL");
}

fn declare(
    plan: &DeclarePlan,
    replies: Vec<UtilityReply>,
) -> (Vec<UtilityRequest>, Result<(), String>) {
    let mut requests = Vec::new();
    let mut replies = replies.into_iter();
    let mut progress = match plan.open() {
        Ok(progress) => progress,
        Err(error) => return (requests, Err(error)),
    };
    while let DeclareProgress::Ask { state, request } = progress {
        requests.push(request);
        match plan.resume(state, replies.next().expect("a reply is missing")) {
            Ok(next) => progress = next,
            Err(error) => return (requests, Err(error)),
        }
    }
    assert!(replies.next().is_none(), "a reply was left over");
    (requests, Ok(()))
}

fn declaration() -> DeclarePlan {
    DeclarePlan {
        declaration: true,
        inspection: Some(Ok(vec![7, 9])),
        creating_extension: false,
    }
}

#[test]
fn declaration_locks_its_sources_and_registers_its_result() {
    let done = || UtilityReply::Done;
    let (requests, declared) = declare(
        &declaration(),
        vec![
            done(),
            done(),
            done(),
            done(),
            UtilityReply::Relation(Some(30)),
            UtilityReply::Plan("{}".to_owned()),
            done(),
        ],
    );
    assert_eq!(declared, Ok(()));
    assert_eq!(
        requests,
        [
            UtilityRequest::Write(Statement::new(BEGIN_REGISTRATION_SQL.to_owned())),
            UtilityRequest::Write(
                Statement::new(LOCK_SOURCES_SQL.to_owned()).with(SqlValue::OidArray(vec![7, 9]))
            ),
            UtilityRequest::Suppress,
            UtilityRequest::Run,
            UtilityRequest::Resolve,
            UtilityRequest::Finish,
            UtilityRequest::Write(Statement::new(REGISTER_SQL.to_owned()).oid(30).text("{}")),
        ]
    );
}

#[test]
fn rejected_declarations_are_not_registered() {
    let mut plan = declaration();
    plan.inspection = Some(Err("no query".to_owned()));
    let (requests, declared) = declare(&plan, vec![]);
    assert!(requests.is_empty());
    assert_eq!(
        declared.unwrap_err(),
        "Shiba cannot execute this dataflow declaration: no query"
    );
    plan.inspection = None;
    assert!(declare(&plan, vec![]).1.is_err());
    let until_created = || vec![UtilityReply::Done; 4];
    let mut replies = until_created();
    replies.push(UtilityReply::Relation(None));
    assert_eq!(
        declare(&declaration(), replies).1.unwrap_err(),
        "Shiba could not resolve the new CTAS result relation"
    );
    let mut replies = until_created();
    replies.push(UtilityReply::Relation(Some(30)));
    replies.push(UtilityReply::Rejected("cycle".to_owned()));
    let (requests, declared) = declare(&declaration(), replies);
    assert_eq!(
        declared.unwrap_err(),
        "Shiba rejected this dataflow declaration: cycle"
    );
    assert_eq!(requests.len(), 6);
    assert_eq!(
        declare(&declaration(), vec![UtilityReply::Relation(None)]).1.unwrap_err(),
        MISPLACED
    );
    assert_eq!(
        DeclarePlan::failure(DeclareState::Locking, "gone"),
        "Shiba failed to lock the source table for activation: gone"
    );
}

#[test]
fn other_utility_statements_are_handed_on() {
    for (declares, inspection, creating_extension) in [
        (false, Some(Ok(vec![7])), false),
        (false, None, false),
        (true, None, true),
    ] {
        let plan = DeclarePlan {
            declaration: declares,
            inspection,
            creating_extension,
        };
        let (requests, handed) = declare(&plan, vec![UtilityReply::Done]);
        assert_eq!((requests, handed), (vec![UtilityRequest::Run], Ok(())));
    }
}
