use shiba::execution::aggregate::apply::{
    apply_statement, ensure_groups_statement, first_dirty_query, ApplySql, CompiledAggregate,
};
use shiba::execution::aggregate::applying::{ApplyPlan, ApplyState};
use shiba::execution::aggregate::emit::{
    aggregate_output_expression, decision_statement, discard_statement, emission_statement,
    finish_statement, tombstone_statement, unchanged_statement, AggregateOutputExpression,
    EmissionSql, EmitSource, OutputSql,
};
use shiba::execution::aggregate::emitting::{EmitClose, EmitPlan, EmitState};
use shiba::execution::aggregate::forwarding::{FrontierClose, FrontierPlan};
use shiba::execution::aggregate::machine::{
    AfterDrain, AggregateContinuation, AggregateMachine, AggregatePhase, EmitLeg,
};
use shiba::execution::aggregate::opening::OpenPlan;
use shiba::execution::aggregate::order::aggregate_rebuild_order;
use shiba::execution::aggregate::pages::{
    action_measurement, append_statement, cleanup_query, dequeue_statement, publish_statement,
    selection_statement, work_probe, AggregateCall, GroupPage, PageSelection, PageSql,
};
use shiba::execution::aggregate::paging::{PagePlan, SelectPlan};
use shiba::execution::aggregate::rebuild::{
    initialize_statement, rebuild_statement, AggregateCapability, RebuildSql, RebuildTarget,
};
use shiba::execution::aggregate::rebuilding::RebuildPlan;
use shiba::execution::aggregate::step::{global_group_statement, materialized_query, queue_empty_query};
use shiba::execution::aggregate::storage::StoredAggregate;
use shiba::execution::btree::BtreeOrder;
use shiba::execution::contract::{InputPosition, OutputFacts};
use shiba::execution::stream::{
    ChunkKind, ChunkMeta, InputState, OutputAppendTarget, OutputState, ProducerKind,
};
use shiba::planner::{WorkBudget, WorkUsage};
use shiba::session::{Cell, Progress, Reply, Request, Row, EMPTY, MISPLACED, MISTYPED};

fn row(cells: Vec<Cell>) -> Reply {
    Reply::Rows(vec![Row { cells }])
}

fn empty() -> Reply {
    Reply::Rows(vec![])
}

fn big(value: i64) -> Cell {
    Cell::BigInt(value)
}

fn word(value: &str) -> Cell {
    Cell::Text(value.to_owned())
}

fn drive<S, C>(
    mut progress: Progress<S, C>,
    mut resume: impl FnMut(S, Reply) -> Result<Progress<S, C>, String>,
    replies: Vec<Reply>,
) -> (Vec<Request>, Result<C, String>) {
    let mut requests = Vec::new();
    let mut replies = replies.into_iter();
    loop {
        match progress {
            Progress::Done(outcome) => {
                assert!(replies.next().is_none(), "a reply was left over");
                return (requests, Ok(outcome));
            }
            Progress::Ask { state, request } => {
                requests.push(request);
                let reply = replies.next().expect("a reply is missing");
                match resume(state, reply) {
                    Ok(next) => progress = next,
                    Err(error) => return (requests, Err(error)),
                }
            }
        }
    }
}

fn sql(request: &Request) -> &str {
    match request {
        Request::Read(statement)
        | Request::Probe(statement)
        | Request::Write(statement)
        | Request::Lock(statement) => &statement.sql,
        other => panic!("{other:?} is no statement"),
    }
}

fn budget() -> WorkBudget {
    WorkBudget::new(4, 100, 4, 100)
}

fn machine() -> AggregateMachine {
    AggregateMachine::new(2).unwrap()
}

fn position(row: i64) -> InputPosition {
    InputPosition::new(7, 11, row).unwrap()
}

fn input() -> InputState {
    InputState {
        port: 0,
        stream_id: 7,
        producer: ProducerKind::Operator,
        source_oid: None,
        next_chunk_seq: 11,
        consumed_frontier_lsn: 50,
        activation_lsn: 0,
        available_source_frontier_lsn: None,
    }
}

fn output() -> OutputState {
    OutputState {
        stream_id: 8,
        next_chunk_seq: 3,
        target_rows: 4,
        target_bytes: 100,
        published_frontier_lsn: None,
        latest_data_lsn: None,
    }
}

fn chunk(kind: ChunkKind, sequence: i64) -> ChunkMeta {
    ChunkMeta {
        stream_id: 7,
        sequence,
        kind,
        rows: 4,
        bytes: 40,
        lsn: 70,
    }
}

fn applying(row: i64) -> AggregateContinuation {
    AggregateContinuation {
        input_stream_id: 7,
        input: Some(position(row)),
        phase: AggregatePhase::Apply,
    }
}

fn rebuilding(group_queue_id: i64, aggregate_ordinal: u32) -> AggregateContinuation {
    AggregateContinuation {
        input_stream_id: 7,
        input: None,
        phase: AggregatePhase::DrainRebuild {
            group_queue_id,
            aggregate_ordinal,
            after: AfterDrain::Idle,
        },
    }
}

fn emitting(group_queue_id: i64, leg: EmitLeg) -> AggregateContinuation {
    AggregateContinuation {
        input_stream_id: 7,
        input: None,
        phase: AggregatePhase::DrainEmit {
            group_queue_id,
            leg,
            after: AfterDrain::Idle,
        },
    }
}

fn frontier() -> AggregateContinuation {
    AggregateContinuation {
        input_stream_id: 7,
        input: Some(position(0)),
        phase: AggregatePhase::Frontier,
    }
}

fn order() -> BtreeOrder {
    BtreeOrder {
        opclass: "\"pg_catalog\".\"int8_ops\"".to_owned(),
        direction: "ASC",
        sort_operator: "OPERATOR(pg_catalog.<)".to_owned(),
        equality_operator: "OPERATOR(pg_catalog.=)".to_owned(),
        nulls_first: false,
    }
}

fn capability(strict: bool, literal: Option<&str>) -> AggregateCapability {
    AggregateCapability {
        transition_function: "\"pg_catalog\".\"int8_sum\"".to_owned(),
        transition_type: "numeric".to_owned(),
        transition_type_oid: 1700,
        transition_collation_oid: 0,
        transition_is_strict: strict,
        initial_literal: literal.map(str::to_owned),
        final_function: None,
    }
}

fn compiled() -> Vec<CompiledAggregate> {
    vec![
        CompiledAggregate {
            order_by: vec!["(payload).a".to_owned()],
            distinct: vec!["(payload).b".to_owned(), "(payload).c".to_owned()],
        },
        CompiledAggregate {
            order_by: vec![],
            distinct: vec![],
        },
    ]
}

fn open(replies: Vec<Reply>) -> (Vec<Request>, Result<StoredAggregate, String>) {
    let plan = OpenPlan {
        machine: machine(),
        input: input(),
        relation: "s.c",
        dirty: "s.dirty",
    };
    drive(plan.open(), |state, reply| plan.resume(state, reply), replies)
}

#[test]
fn aggregate_opens_at_its_next_chunk() {
    let (requests, stored) = open(vec![
        empty(),
        Reply::Chunk(Some(chunk(ChunkKind::Data, 11))),
        Reply::Checked,
    ]);
    let stored = stored.unwrap();
    assert_eq!((stored.value, stored.persisted), (applying(0), false));
    assert!(matches!(requests[0], Request::Lock(_)));
    assert_eq!(
        requests[1..],
        [Request::Next { port: 0 }, Request::Authority { present: false }]
    );
    let (requests, stored) = open(vec![
        empty(),
        Reply::Chunk(Some(chunk(ChunkKind::Frontier, 11))),
        row(vec![big(5)]),
        Reply::Checked,
    ]);
    assert_eq!(
        stored.unwrap().value.phase,
        AggregatePhase::DrainRebuild {
            group_queue_id: 5,
            aggregate_ordinal: 1,
            after: AfterDrain::Frontier(position(0)),
        }
    );
    assert_eq!(sql(&requests[2]), first_dirty_query("s.dirty"));
    let (_, stored) = open(vec![empty(), Reply::Chunk(None)]);
    assert_eq!(stored.unwrap_err(), "runnable Aggregate has no input chunk");
}

#[test]
fn aggregate_opens_at_its_stored_cursor() {
    let cells = |sequence| {
        let mut cells = vec![Cell::SmallInt(1), big(7), big(sequence), big(2)];
        cells.resize(10, Cell::Null);
        cells
    };
    let (requests, stored) = open(vec![row(cells(11)), Reply::Checked]);
    let stored = stored.unwrap();
    assert_eq!((stored.value, stored.persisted), (applying(2), true));
    assert_eq!(requests[1], Request::Authority { present: true });
    let (_, stored) = open(vec![row(cells(12)), Reply::Checked]);
    assert_eq!(
        stored.unwrap_err(),
        "Aggregate continuation is not at its input cursor"
    );
    let mut mistyped = cells(11);
    mistyped[5] = big(1);
    let (_, stored) = open(vec![row(mistyped)]);
    assert_eq!(stored.unwrap_err(), MISTYPED);
}

#[test]
fn apply_asks_in_order_and_commits_what_was_admitted() {
    let expressions = vec!["(payload).g".to_owned()];
    let orders = vec![order()];
    let compiled = compiled();
    let apply = ApplySql {
        input: "s.input",
        groups: "s.groups",
        bag: "s.bag",
        dirty: "s.dirty",
        group_expressions: &expressions,
        group_orders: &orders,
        aggregates: &compiled,
        row_image: "source_row.payload",
    };
    let data = chunk(ChunkKind::Data, 11);
    let summary = |rows, next_row| {
        row(vec![word("ok"), big(rows), big(10 * rows), big(next_row), big(4)])
    };
    let plan = ApplyPlan {
        machine: machine(),
        value: applying(0),
        input: input(),
        budget: budget(),
        sql: &apply,
    };
    let (requests, commit) = drive(
        plan.open().unwrap(),
        |state, reply| plan.resume(state, reply),
        vec![
            Reply::Chunk(Some(data)),
            Reply::Checked,
            row(vec![]),
            summary(2, 2),
            row(vec![big(5)]),
            Reply::Drain(false),
        ],
    );
    let used = WorkUsage { input_rows: 2, input_bytes: 20, output_rows: 0, output_bytes: 0 };
    assert_eq!(
        requests[..4],
        [
            Request::Chunk { port: 0, sequence: 11 },
            Request::Measure { port: 0, chunk: data },
            Request::Write(ensure_groups_statement(&apply, &data, 0, &budget()).unwrap()),
            Request::Write(apply_statement(&apply, &data, 0, &budget()).unwrap()),
        ]
    );
    assert_eq!(sql(&requests[4]), first_dirty_query("s.dirty"));
    assert_eq!(requests[5], Request::Admit { usage: used });
    let commit = commit.unwrap();
    assert_eq!(commit.next, Some(applying(2)));
    assert_eq!((commit.facts.usage, commit.facts.state_rows), (used, 5));
    assert_eq!(commit.advance, None);

    let resumed = ApplyPlan { value: applying(2), ..plan };
    let finish = |drain, following| {
        drive(
            resumed.open().unwrap(),
            |state, reply| resumed.resume(state, reply),
            vec![
                Reply::Chunk(Some(data)),
                empty(),
                summary(2, 4),
                row(vec![big(5)]),
                Reply::Drain(drain),
                Reply::Chunk(following),
            ],
        )
    };
    let (requests, commit) = finish(false, None);
    assert!(matches!(requests[1], Request::Write(_)));
    assert_eq!(requests[5], Request::Chunk { port: 0, sequence: 12 });
    let commit = commit.unwrap();
    assert_eq!(commit.next, None);
    assert_eq!(commit.advance.unwrap().next_chunk_seq, 12);
    let (_, commit) = finish(false, Some(chunk(ChunkKind::Frontier, 12)));
    assert_eq!(
        commit.unwrap().next.unwrap().phase,
        AggregatePhase::DrainRebuild {
            group_queue_id: 5,
            aggregate_ordinal: 1,
            after: AfterDrain::Frontier(InputPosition::new(7, 12, 0).unwrap()),
        }
    );
    let (_, commit) = finish(true, None);
    assert_eq!(commit.unwrap().next, Some(rebuilding(5, 1)));
    assert_eq!(
        resumed.resume(ApplyState::Opening, Reply::Checked).unwrap_err(),
        MISPLACED
    );
    let unplaced = ApplyPlan { value: rebuilding(5, 1), ..resumed };
    assert_eq!(
        unplaced.open().unwrap_err(),
        "Aggregate Apply omitted its input cursor"
    );
}

#[test]
fn page_is_tried_only_before_any_fold() {
    let works = vec!["s.work_1".to_owned(), "s.work_2".to_owned()];
    let plan = SelectPlan {
        group_queue_id: 5,
        budget: budget(),
        bag: "s.bag",
        dirty: "s.dirty",
        works: &works,
    };
    let unfolded = || row(vec![Cell::Boolean(false)]);
    let run = |replies| {
        drive(
            plan.open().unwrap(),
            |state, reply| plan.resume(state, reply),
            replies,
        )
    };
    let (requests, selection) = run(vec![
        unfolded(),
        unfolded(),
        row(vec![big(9), big(4), big(100), word("0/46")]),
    ]);
    assert_eq!(
        requests,
        [
            Request::Read(work_probe("s.work_1", "s.dirty", 5)),
            Request::Read(work_probe("s.work_2", "s.dirty", 5)),
            Request::Read(selection_statement("s.dirty", "s.bag", 5, &budget()).unwrap()),
        ]
    );
    assert_eq!(selection.unwrap().unwrap().last_queue_id, 9);
    let (requests, selection) = run(vec![row(vec![Cell::Boolean(true)])]);
    assert_eq!(selection, Ok(None));
    assert_eq!(requests.len(), 1);
    let (_, selection) = run(vec![
        unfolded(),
        unfolded(),
        row(vec![big(9), big(5), big(100), word("0/46")]),
    ]);
    assert_eq!(selection, Ok(None));
}

#[test]
fn page_appends_what_it_measured() {
    let calls = vec![AggregateCall {
        function: "\"pg_catalog\".\"sum\"".to_owned(),
        arguments: vec!["(bag.row_image).a".to_owned()],
        distinct: false,
        order_by: vec![],
        filter: None,
    }];
    let values = vec!["(representative.row_image).g".to_owned()];
    let page_sql = PageSql {
        bag: "s.bag",
        groups: "s.groups",
        dirty: "s.dirty",
        output_type: "s.row",
        output_key: "s.key(output_row)",
        group_values: &values,
        aggregates: &calls,
    };
    let selection = PageSelection {
        last_queue_id: 9,
        input_rows: 4,
        input_bytes: 100,
        causal_lsn: 70,
    };
    let plan = PagePlan {
        machine: machine(),
        value: rebuilding(5, 1),
        group_queue_id: 5,
        selection,
        keys: 1,
        budget: budget(),
        output: output(),
        payload: "s.output",
        sql: &page_sql,
    };
    let target = OutputAppendTarget::New { sequence: 3 };
    let two = || Reply::Rows(vec![Row { cells: vec![] }, Row { cells: vec![] }]);
    let (requests, close) = drive(
        plan.open(),
        |state, reply| plan.resume(state, reply),
        vec![
            row(vec![big(3), big(30)]),
            Reply::Target(target),
            row(vec![big(3), big(30)]),
            row(vec![big(2)]),
            two(),
            row(vec![]),
            row(vec![big(10)]),
        ],
    );
    let page = GroupPage {
        last_queue_id: 9,
        causal_lsn: 70,
        input_rows: 4,
        input_bytes: 100,
        output_rows: 3,
        output_bytes: 30,
    };
    assert_eq!(
        requests[..5],
        [
            Request::Read(action_measurement(&page_sql, 5, 9)),
            Request::Target { rows: 3, bytes: 30 },
            Request::Write(
                append_statement(&page_sql, "s.output", 5, &page, &output(), target).unwrap()
            ),
            Request::Write(publish_statement(&page_sql, 5, 9)),
            Request::Write(dequeue_statement("s.dirty", 5, 9)),
        ]
    );
    assert_eq!(sql(&requests[5]), cleanup_query("s.groups", "s.bag"));
    assert_eq!(sql(&requests[6]), first_dirty_query("s.dirty"));
    let close = close.unwrap().unwrap();
    assert_eq!(close.commit.next, Some(rebuilding(10, 1)));
    assert_eq!(close.state_rows, 5);
    let append = close.append.unwrap();
    assert_eq!((append.target, append.rows, append.bytes, append.lsn), (target, 3, 30, 70));

    let global = PagePlan { keys: 0, ..plan };
    let (requests, close) = drive(
        global.open(),
        |state, reply| global.resume(state, reply),
        vec![
            row(vec![big(0), big(0)]),
            row(vec![big(2)]),
            two(),
            row(vec![Cell::Null]),
        ],
    );
    assert!(requests.iter().all(|request| !matches!(request, Request::Target { .. })));
    let close = close.unwrap().unwrap();
    assert_eq!((close.append, close.commit.next, close.state_rows), (None, None, 4));
    for (reply, error) in [
        (Reply::Rows(vec![]), EMPTY),
        (row(vec![]), MISTYPED),
        (row(vec![Cell::Integer(10)]), MISTYPED),
    ] {
        let (_, close) = drive(
            global.open(),
            |state, reply| global.resume(state, reply),
            vec![row(vec![big(0), big(0)]), row(vec![big(2)]), two(), reply],
        );
        assert_eq!(close.unwrap_err(), error);
    }
    let (_, close) = drive(
        global.open(),
        |state, reply| global.resume(state, reply),
        vec![row(vec![big(5), big(30)])],
    );
    assert_eq!(close, Ok(None));
    let (_, close) = drive(
        global.open(),
        |state, reply| global.resume(state, reply),
        vec![row(vec![big(0), big(0)]), row(vec![big(2)]), row(vec![])],
    );
    assert_eq!(
        close.unwrap_err(),
        "Aggregate page did not finish every selected group"
    );
}

#[test]
fn fold_initializes_before_it_folds() {
    let order = aggregate_rebuild_order(&vec![]);
    let arguments = vec!["(bag.row_image).a".to_owned()];
    let distinct: Vec<String> = vec![];
    let capability = capability(false, Some("0"));
    let rebuild = RebuildSql {
        capability: &capability,
        bag: "s.bag",
        dirty: "s.dirty",
        work: "s.work",
        ordinal: 1,
        distinct: &distinct,
        order: &order,
        arguments: &arguments,
        filter: "true",
    };
    let plan = RebuildPlan {
        machine: machine(),
        value: rebuilding(5, 1),
        target: RebuildTarget { group_queue_id: 5, aggregate_index: 0 },
        budget: budget(),
        initial_state: "0::numeric",
        sql: &rebuild,
    };
    let folded = |complete| {
        row(vec![word("ok"), big(2), big(20), big(6), Cell::Boolean(complete), big(1)])
    };
    let (requests, commit) = drive(
        plan.open(),
        |state, reply| plan.resume(state, reply),
        vec![row(vec![]), folded(true)],
    );
    assert_eq!(
        requests,
        [
            Request::Write(initialize_statement("s.work", "s.dirty", "0::numeric", &capability, 5)),
            Request::Write(rebuild_statement(&rebuild, 5, &budget()).unwrap()),
        ]
    );
    let commit = commit.unwrap();
    assert_eq!((commit.next, commit.facts.state_rows), (Some(rebuilding(5, 2)), 2));
    let (_, commit) = drive(
        plan.open(),
        |state, reply| plan.resume(state, reply),
        vec![empty(), folded(false)],
    );
    let commit = commit.unwrap();
    assert_eq!((commit.next, commit.facts.state_rows), (Some(rebuilding(5, 1)), 1));
    let two = Reply::Rows(vec![Row { cells: vec![] }, Row { cells: vec![] }]);
    let (_, commit) = drive(plan.open(), |state, reply| plan.resume(state, reply), vec![two]);
    assert_eq!(
        commit.unwrap_err(),
        "Aggregate rebuild initialized multiple work rows"
    );
}

fn expression(works: &Vec<String>) -> AggregateOutputExpression {
    aggregate_output_expression(&OutputSql {
        dirty: "s.dirty",
        bag: "s.bag",
        output_type: "s.row",
        output_key: "s.key(output_row)",
        group_values: &vec!["(representative.row_image).g".to_owned()],
        works,
        finals: &vec![None, None],
    })
}

fn emit(leg: EmitLeg, keys: usize, replies: Vec<Reply>) -> (Vec<Request>, Result<EmitClose, String>) {
    let works = vec!["s.work_1".to_owned(), "s.work_2".to_owned()];
    let expression = expression(&works);
    let plan = EmitPlan {
        machine: machine(),
        value: emitting(5, leg),
        group_queue_id: 5,
        leg,
        keys,
        budget: budget(),
        output: output(),
        bag: "s.bag",
        groups: "s.groups",
        dirty: "s.dirty",
        payload: "s.output",
        works: &works,
        expression: &expression,
    };
    assert_eq!(
        plan.resume(EmitState::Deciding, Reply::Checked).unwrap_err(),
        MISPLACED
    );
    drive(plan.open(), |state, reply| plan.resume(state, reply), replies)
}

fn emission(source: EmitSource) -> Request {
    let works = vec!["s.work_1".to_owned(), "s.work_2".to_owned()];
    let expression = expression(&works);
    Request::Write(emission_statement(
        &EmissionSql {
            groups: "s.groups",
            dirty: "s.dirty",
            payload: "s.output",
            source,
            expression: &expression,
        },
        5,
        &output(),
    ))
}

fn written() -> Reply {
    row(vec![big(9), word("0/46"), big(1), big(1)])
}

#[test]
fn unchanged_group_leaves_without_a_row() {
    let works = vec!["s.work_1".to_owned(), "s.work_2".to_owned()];
    let (requests, close) = emit(
        EmitLeg::Decide,
        1,
        vec![
            row(vec![word("unchanged")]),
            row(vec![]),
            row(vec![]),
            row(vec![]),
            row(vec![big(5), big(33)]),
            empty(),
            row(vec![big(6)]),
        ],
    );
    assert_eq!(
        requests[..6],
        [
            Request::Lock(decision_statement("s.groups", "s.dirty", &expression(&works), 5)),
            Request::Write(unchanged_statement("s.groups", "s.dirty", 5)),
            Request::Write(discard_statement("s.work_1", "s.dirty", 5)),
            Request::Write(discard_statement("s.work_2", "s.dirty", 5)),
            Request::Write(finish_statement("s.dirty", 5)),
            Request::Write(tombstone_statement("s.groups", "s.bag", 33)),
        ]
    );
    assert_eq!(sql(&requests[6]), first_dirty_query("s.dirty"));
    let close = close.unwrap();
    assert_eq!(close.append, None);
    assert_eq!(close.commit.next, Some(rebuilding(6, 1)));
    assert_eq!(close.commit.facts.output, OutputFacts::Nothing);
}

#[test]
fn replacement_retracts_first_and_inserts_later() {
    let (requests, close) = emit(
        EmitLeg::Decide,
        1,
        vec![row(vec![word("replace")]), written(), row(vec![]), row(vec![])],
    );
    assert_eq!(requests[1], emission(EmitSource::ReplacementRetraction));
    let close = close.unwrap();
    assert_eq!(close.commit.next, Some(emitting(5, EmitLeg::InsertPending)));
    assert_eq!(close.append.unwrap().bytes, 9);
    let (requests, close) = emit(
        EmitLeg::InsertPending,
        0,
        vec![written(), row(vec![big(5), big(33)]), row(vec![Cell::Null])],
    );
    assert_eq!(requests[0], emission(EmitSource::Pending));
    assert_eq!(requests.len(), 3);
    let close = close.unwrap();
    assert_eq!(close.commit.next, None);
    assert_eq!(close.commit.facts.output, OutputFacts::Data { chunk_seq: 3 });
}

#[test]
fn emission_stops_at_the_first_broken_reply() {
    let (requests, close) = emit(
        EmitLeg::Decide,
        1,
        vec![row(vec![word("insert")]), written(), empty()],
    );
    assert_eq!(requests[1], emission(EmitSource::Desired));
    assert_eq!(
        close.unwrap_err(),
        "Aggregate failed to discard completed work row"
    );
    let (_, close) = emit(EmitLeg::Decide, 1, vec![row(vec![word("unchanged")]), empty()]);
    assert_eq!(
        close.unwrap_err(),
        "Aggregate failed to clear unchanged pending output"
    );
    let (_, close) = emit(EmitLeg::InsertPending, 0, vec![written(), row(vec![big(4), big(33)])]);
    assert_eq!(
        close.unwrap_err(),
        "Aggregate did not remove one completed dirty group"
    );
}

fn forward(keys: usize, replies: Vec<Reply>) -> (Vec<Request>, Result<FrontierClose, String>) {
    let plan = FrontierPlan {
        machine: machine(),
        value: frontier(),
        input: input(),
        keys,
        budget: budget(),
        groups: "s.groups",
        dirty: "s.dirty",
    };
    drive(
        plan.open().unwrap(),
        |state, reply| plan.resume(state, reply),
        replies,
    )
}

#[test]
fn aggregate_frontier_goes_out_behind_its_drain() {
    let head = chunk(ChunkKind::Frontier, 11);
    let yes = || row(vec![Cell::Boolean(true)]);
    let no = || row(vec![Cell::Boolean(false)]);
    let out = || Reply::Output(OutputFacts::Frontier { chunk_seq: 3 });
    let (requests, close) = forward(1, vec![Reply::Chunk(Some(head)), yes(), out()]);
    assert_eq!(requests[0], Request::Chunk { port: 0, sequence: 11 });
    assert_eq!(sql(&requests[1]), queue_empty_query("s.dirty"));
    assert_eq!(requests[2], Request::Frontier { lsn: 70 });
    let close = close.unwrap();
    assert!(close.forwarded);
    assert_eq!(close.commit.advance.unwrap().frontier_lsn, 70);

    let (_, close) = forward(1, vec![Reply::Chunk(Some(head)), no()]);
    assert_eq!(
        close.unwrap_err(),
        "Aggregate attempted to forward a frontier before draining"
    );
    let (requests, close) =
        forward(0, vec![Reply::Chunk(Some(head)), yes(), no(), row(vec![big(5)])]);
    assert_eq!(sql(&requests[2]), materialized_query("s.groups"));
    assert_eq!(
        requests[3],
        Request::Write(global_group_statement("s.groups", "s.dirty", 70))
    );
    let close = close.unwrap();
    assert!(!close.forwarded);
    assert_eq!(
        close.commit.next.unwrap().phase,
        AggregatePhase::DrainRebuild {
            group_queue_id: 5,
            aggregate_ordinal: 1,
            after: AfterDrain::Frontier(position(0)),
        }
    );
    let (_, close) = forward(0, vec![Reply::Chunk(Some(head)), yes(), yes(), out()]);
    assert!(close.unwrap().forwarded);
}
