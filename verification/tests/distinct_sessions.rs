use shiba::execution::btree::BtreeOrder;
use shiba::execution::contract::OutputFacts;
use shiba::execution::distinct::machine::DistinctPhase;
use shiba::execution::distinct::opening::{OpenPlan, Opened};
use shiba::execution::distinct::running::{ApplyPlan, ApplyState, DrainPlan, FrontierPlan};
use shiba::execution::distinct::statements::{
    apply_statement, drain_statement, reconcile_statement, DrainSql, PrefixSql, ReconcileSql,
};
use shiba::execution::stream::{
    ChunkKind, ChunkMeta, InputState, OutputState, ProducerKind,
};
use shiba::planner::WorkBudget;
use shiba::session::{Cell, Progress, Reply, Request, Row, MISPLACED};

fn row(cells: Vec<Cell>) -> Reply {
    Reply::Rows(vec![Row { cells }])
}

fn empty() -> Reply {
    Reply::Rows(vec![])
}

fn big(value: i64) -> Cell {
    Cell::BigInt(value)
}

fn word(value: &str) -> Cell {
    Cell::Text(value.to_owned())
}

fn drive<S, C>(
    mut progress: Progress<S, C>,
    mut resume: impl FnMut(S, Reply) -> Result<Progress<S, C>, String>,
    replies: Vec<Reply>,
) -> (Vec<Request>, Result<C, String>) {
    let mut requests = Vec::new();
    let mut replies = replies.into_iter();
    loop {
        match progress {
            Progress::Done(outcome) => {
                assert!(replies.next().is_none(), "a reply was left over");
                return (requests, Ok(outcome));
            }
            Progress::Ask { state, request } => {
                requests.push(request);
                let reply = replies.next().expect("a reply is missing");
                match resume(state, reply) {
                    Ok(next) => progress = next,
                    Err(error) => return (requests, Err(error)),
                }
            }
        }
    }
}

fn sql(request: &Request) -> &str {
    match request {
        Request::Read(statement)
        | Request::Probe(statement)
        | Request::Write(statement)
        | Request::Lock(statement) => &statement.sql,
        other => panic!("{other:?} is no statement"),
    }
}

fn budget() -> WorkBudget {
    WorkBudget::new(4, 100, 4, 100)
}

fn input() -> InputState {
    InputState {
        port: 0,
        stream_id: 5,
        producer: ProducerKind::Operator,
        source_oid: None,
        next_chunk_seq: 8,
        consumed_frontier_lsn: 50,
        activation_lsn: 50,
        available_source_frontier_lsn: None,
    }
}

fn output() -> OutputState {
    OutputState {
        stream_id: 6,
        next_chunk_seq: 3,
        target_rows: 3,
        target_bytes: 60,
        published_frontier_lsn: None,
        latest_data_lsn: None,
    }
}

fn chunk(kind: ChunkKind) -> ChunkMeta {
    ChunkMeta {
        stream_id: 5,
        sequence: 8,
        kind,
        rows: 4,
        bytes: 40,
        lsn: 70,
    }
}

fn order() -> BtreeOrder {
    BtreeOrder {
        opclass: "\"pg_catalog\".\"int8_ops\"".to_owned(),
        direction: "ASC",
        sort_operator: "OPERATOR(pg_catalog.<)".to_owned(),
        equality_operator: "OPERATOR(pg_catalog.=)".to_owned(),
        nulls_first: false,
    }
}

fn cursor_row(phase: i16, ordinal: i64) -> Reply {
    row(vec![Cell::SmallInt(phase), big(5), big(8), big(ordinal)])
}

fn open(replies: Vec<Reply>) -> (Vec<Request>, Result<Opened, String>) {
    let plan = OpenPlan {
        input: input(),
        relation: "s.c",
        touched: "s.touched",
    };
    drive(plan.open(), |state, reply| plan.resume(state, reply), replies)
}

fn opened(stored: Reply, kind: ChunkKind) -> Opened {
    open(vec![stored, Reply::Checked, Reply::Chunk(Some(chunk(kind))), empty()])
        .1
        .unwrap()
}

#[test]
fn distinct_opens_behind_its_lock() {
    let (requests, outcome) = open(vec![
        empty(),
        Reply::Checked,
        Reply::Chunk(Some(chunk(ChunkKind::Frontier))),
        empty(),
    ]);
    let stored = outcome.unwrap().stored;
    assert_eq!(stored.value.phase, DistinctPhase::Frontier);
    assert!(!stored.persisted);
    assert!(matches!(&requests[0], Request::Lock(_)));
    assert_eq!(requests[1], Request::Authority { present: false });
    assert_eq!(requests[2], Request::Next { port: 0 });
    assert_eq!(
        sql(&requests[3]),
        "SELECT group_state_id FROM s.touched ORDER BY group_state_id LIMIT 1"
    );
    let (_, outcome) = open(vec![
        cursor_row(1, 2),
        Reply::Checked,
        Reply::Chunk(Some(chunk(ChunkKind::Frontier))),
    ]);
    assert_eq!(
        outcome.unwrap_err(),
        "Distinct continuation is not pinned to a data chunk"
    );
}

#[test]
fn distinct_refuses_left_over_scratch_state() {
    let (_, outcome) = open(vec![
        empty(),
        Reply::Checked,
        Reply::Chunk(Some(chunk(ChunkKind::Data))),
        row(vec![big(1)]),
    ]);
    assert_eq!(
        outcome.unwrap_err(),
        "Distinct found committed touched-key scratch state"
    );
}

#[test]
fn distinct_frontier_goes_out_behind_its_drain() {
    let plan = FrontierPlan {
        opened: opened(empty(), ChunkKind::Frontier),
        budget: budget(),
        queue: "s.queue",
    };
    let (requests, commit) = drive(
        plan.open().unwrap(),
        |state, reply| plan.resume(state, reply),
        vec![empty(), Reply::Output(OutputFacts::Frontier { chunk_seq: 3 })],
    );
    assert_eq!(
        sql(&requests[0]),
        "SELECT queue_id FROM s.queue ORDER BY queue_id LIMIT 1"
    );
    assert_eq!(requests[1], Request::Frontier { lsn: 70 });
    let commit = commit.unwrap();
    assert_eq!(commit.next, None);
    assert_eq!(commit.facts.output, OutputFacts::Frontier { chunk_seq: 3 });
    let advance = commit.advance.unwrap();
    assert_eq!((advance.next_chunk_seq, advance.frontier_lsn), (9, 70));
    let (requests, commit) = drive(
        plan.open().unwrap(),
        |state, reply| plan.resume(state, reply),
        vec![row(vec![big(1)])],
    );
    assert_eq!(
        commit.unwrap_err(),
        "Distinct Apply/frontier found undrained effects"
    );
    assert_eq!(requests.len(), 1);
}

#[test]
fn distinct_prefix_is_reconciled_before_it_commits() {
    let keys = vec!["(payload).a".to_owned()];
    let orders = vec![order()];
    let expressions = vec!["(payload).a".to_owned()];
    let prefix = PrefixSql {
        input: "s.input",
        output_type: "s.row",
        state: "s.state",
        bag: "s.bag",
        touched: "s.touched",
        output_key: "s.key(output_row)",
        keys: &keys,
        key_orders: &orders,
        expressions: &expressions,
    };
    let reconcile = ReconcileSql {
        state: "s.state",
        bag: "s.bag",
        queue: "s.queue",
        touched: "s.touched",
        canonical_key: "s.key(output_row)",
    };
    let plan = ApplyPlan {
        opened: opened(empty(), ChunkKind::Data),
        input: input(),
        budget: budget(),
        prefix: &prefix,
        reconcile: &reconcile,
    };
    let applied = || {
        row(vec![word("ok"), big(1), big(2), big(2), big(2), big(20), big(3)])
    };
    let (requests, commit) = drive(
        plan.open(),
        |state, reply| plan.resume(state, reply),
        vec![
            Reply::Checked,
            empty(),
            applied(),
            row(vec![word("ok"), big(1), big(2), big(5)]),
        ],
    );
    let data = chunk(ChunkKind::Data);
    assert_eq!(requests[0], Request::Measure { port: 0, chunk: data });
    assert_eq!(
        requests[2..],
        [
            Request::Write(apply_statement(&prefix, &data, 0, &budget()).unwrap()),
            Request::Write(reconcile_statement(&reconcile, 70)),
        ]
    );
    let commit = commit.unwrap();
    let next = commit.next.unwrap();
    assert_eq!((next.phase, next.input.row_ordinal), (DistinctPhase::Drain, 2));
    assert_eq!((commit.facts.state_rows, commit.advance), (8, None));
    let (_, commit) = drive(
        plan.open(),
        |state, reply| plan.resume(state, reply),
        vec![Reply::Checked, empty(), applied(), row(vec![word("stuck")])],
    );
    assert_eq!(
        commit.unwrap_err(),
        "Distinct representative reconciliation returned stuck"
    );
    let resumed = ApplyPlan {
        opened: opened(cursor_row(1, 2), ChunkKind::Data),
        ..plan
    };
    assert!(matches!(
        resumed.open(),
        Progress::Ask { state: ApplyState::Checking, .. }
    ));
    assert_eq!(
        resumed.resume(ApplyState::Checking, Reply::Checked).unwrap_err(),
        MISPLACED
    );
}

#[test]
fn distinct_drain_appends_what_it_took() {
    let drain = DrainSql {
        queue: "s.queue",
        output_payload: "s.output",
        canonical_key: "s.key(output_row)",
    };
    let plan = DrainPlan {
        opened: opened(cursor_row(2, 4), ChunkKind::Data),
        input: input(),
        budget: budget(),
        output: output(),
        sql: &drain,
    };
    let taken = |remaining| {
        row(vec![
            big(2),
            big(20),
            Cell::Boolean(true),
            Cell::Boolean(true),
            word("0/46"),
            big(2),
            big(2),
            big(remaining),
        ])
    };
    let run = |remaining| {
        drive(
            plan.open().unwrap(),
            |state, reply| plan.resume(state, reply),
            vec![taken(remaining)],
        )
    };
    let (requests, close) = run(0);
    assert_eq!(
        requests,
        [Request::Write(drain_statement(&drain, &budget(), &output()).unwrap())]
    );
    let close = close.unwrap();
    assert_eq!((close.append.rows, close.append.bytes, close.append.lsn), (2, 20, 70));
    assert_eq!(close.commit.next, None);
    assert_eq!(close.commit.advance.unwrap().next_chunk_seq, 9);
    let next = run(1).1.unwrap().commit.next.unwrap();
    assert_eq!((next.phase, next.input.row_ordinal), (DistinctPhase::Drain, 4));
}
