use shiba::execution::contract::{KernelPhase, OutputFacts};
use shiba::execution::linear::machine::{
    LinearKind, ScanContinuation, ScanPhase, TransformContinuation,
};
use shiba::execution::linear::opening::{ScanPlan, ScanState, ScanTask, TransformPlan, TransformTask};
use shiba::execution::linear::running::{
    BootstrapPlan, CursorChange, DataPlan, SourcePlan, SourceState,
};
use shiba::execution::linear::statements::{
    bootstrap_statement, first_bootstrap_statement, skipped_chunk_statement, transform_statement,
    TransformSql,
};
use shiba::execution::stream::{
    ChunkKind, ChunkMeta, InputState, OutputAppendTarget, OutputState, ProducerKind,
};
use shiba::planner::{WorkBudget, WorkUsage};
use shiba::session::{Cell, Progress, Reply, Request, Row, EMPTY, MISPLACED};

fn row(cells: Vec<Cell>) -> Reply {
    Reply::Rows(vec![Row { cells }])
}

fn empty() -> Reply {
    Reply::Rows(vec![])
}

fn big(value: i64) -> Cell {
    Cell::BigInt(value)
}

fn word(value: &str) -> Cell {
    Cell::Text(value.to_owned())
}

fn drive<S, C>(
    mut progress: Progress<S, C>,
    mut resume: impl FnMut(S, Reply) -> Result<Progress<S, C>, String>,
    replies: Vec<Reply>,
) -> (Vec<Request>, Result<C, String>) {
    let mut requests = Vec::new();
    let mut replies = replies.into_iter();
    loop {
        match progress {
            Progress::Done(outcome) => {
                assert!(replies.next().is_none(), "a reply was left over");
                return (requests, Ok(outcome));
            }
            Progress::Ask { state, request } => {
                requests.push(request);
                let reply = replies.next().expect("a reply is missing");
                match resume(state, reply) {
                    Ok(next) => progress = next,
                    Err(error) => return (requests, Err(error)),
                }
            }
        }
    }
}

fn sql(request: &Request) -> &str {
    match request {
        Request::Read(statement)
        | Request::Probe(statement)
        | Request::Write(statement)
        | Request::Lock(statement) => &statement.sql,
        other => panic!("{other:?} is no statement"),
    }
}

fn budget() -> WorkBudget {
    WorkBudget::new(4, 100, 4, 100)
}

fn input() -> InputState {
    InputState {
        port: 0,
        stream_id: 5,
        producer: ProducerKind::Source,
        source_oid: Some(900),
        next_chunk_seq: 8,
        consumed_frontier_lsn: 50,
        activation_lsn: 50,
        available_source_frontier_lsn: Some(80),
    }
}

fn output() -> OutputState {
    OutputState {
        stream_id: 6,
        next_chunk_seq: 3,
        target_rows: 3,
        target_bytes: 60,
        published_frontier_lsn: None,
        latest_data_lsn: None,
    }
}

fn chunk(kind: ChunkKind) -> ChunkMeta {
    ChunkMeta {
        stream_id: 5,
        sequence: 8,
        kind,
        rows: 4,
        bytes: 40,
        lsn: 70,
    }
}

fn scan_row(phase: i16, cursor: Option<(i64, i64)>, sequence: Option<i64>, lsn: Option<&str>) -> Reply {
    let (chunk, ordinal) = match cursor {
        Some((chunk, ordinal)) => (big(chunk), big(ordinal)),
        None => (Cell::Null, Cell::Null),
    };
    row(vec![
        Cell::SmallInt(phase),
        big(5),
        chunk,
        ordinal,
        sequence.map_or(Cell::Null, big),
        lsn.map_or(Cell::Null, word),
    ])
}

fn scan(replies: Vec<Reply>) -> (Vec<Request>, Result<ScanTask, String>) {
    let plan = ScanPlan {
        input: input(),
        source_oid: 900,
        relation: "s.c",
    };
    drive(plan.open().unwrap(), |state, reply| plan.resume(state, reply), replies)
}

#[test]
fn fresh_scan_reads_its_next_chunk() {
    let data = chunk(ChunkKind::Data);
    let (requests, task) = scan(vec![empty(), Reply::Checked, Reply::Chunk(Some(data))]);
    assert_eq!(
        task,
        Ok(ScanTask::Data { chunk: data, row_ordinal: 0, resumed: false })
    );
    assert_eq!(task.unwrap().kernel_phase(), KernelPhase::Process);
    assert!(matches!(&requests[0], Request::Lock(_)));
    assert!(sql(&requests[0]).contains("FROM s.c") && sql(&requests[0]).contains("FOR UPDATE"));
    assert_eq!(requests[1], Request::Authority { present: false });
    assert_eq!(requests[2], Request::Next { port: 0 });
    assert_eq!(requests.len(), 3);
}

#[test]
fn scan_without_a_chunk_forwards_the_source() {
    let (_, task) = scan(vec![empty(), Reply::Checked, Reply::Chunk(None)]);
    assert_eq!(task, Ok(ScanTask::Source { frontier: 80, clears: false }));
    assert_eq!(task.unwrap().kernel_phase(), KernelPhase::Frontier);
    let pending = scan_row(4, None, None, Some("0/50"));
    let (requests, task) = scan(vec![pending, Reply::Checked]);
    assert_eq!(task, Ok(ScanTask::Source { frontier: 80, clears: true }));
    assert_eq!(requests[1], Request::Authority { present: true });
    assert_eq!(requests.len(), 2);
    let beyond = scan_row(4, None, None, Some("0/51"));
    let (_, task) = scan(vec![beyond, Reply::Checked]);
    assert_eq!(
        task.unwrap_err(),
        "Scan frontier continuation is outside the published frontier"
    );
}

#[test]
fn stored_scan_resumes_where_it_stopped() {
    let (_, task) = scan(vec![scan_row(1, None, Some(7), None), Reply::Checked]);
    match task.unwrap() {
        ScanTask::Bootstrap { stored, next_sequence } => {
            assert_eq!((stored.phase, next_sequence), (ScanPhase::Bootstrap, 7));
        }
        other => panic!("{other:?}"),
    }
    let (_, task) = scan(vec![scan_row(2, None, None, Some("0/32")), Reply::Checked]);
    assert!(matches!(task.unwrap(), ScanTask::Snapshot { frontier: 50, .. }));
    let data = chunk(ChunkKind::Data);
    let replies = vec![
        scan_row(3, Some((8, 2)), None, None),
        Reply::Checked,
        Reply::Chunk(Some(data)),
    ];
    let (_, task) = scan(replies);
    assert_eq!(
        task,
        Ok(ScanTask::Data { chunk: data, row_ordinal: 2, resumed: true })
    );
}

#[test]
fn scan_is_bound_to_its_source() {
    let plan = ScanPlan {
        input: input(),
        source_oid: 901,
        relation: "s.c",
    };
    assert_eq!(
        plan.open().unwrap_err(),
        "Scan source OID does not match its source stream"
    );
    assert_eq!(
        plan.resume(ScanState::Loading, Reply::Checked).unwrap_err(),
        MISPLACED
    );
    let (requests, task) = scan(vec![Reply::Rows(vec![
        Row { cells: vec![] },
        Row { cells: vec![] },
    ])]);
    assert!(task.is_err());
    assert_eq!(requests.len(), 1);
}

#[test]
fn transform_opens_at_data_or_at_a_frontier() {
    let plan = TransformPlan {
        input: input(),
        relation: "s.c",
    };
    let frontier = chunk(ChunkKind::Frontier);
    let replies = vec![empty(), Reply::Checked, Reply::Chunk(Some(frontier))];
    let (_, task) = drive(plan.open(), |state, reply| plan.resume(state, reply), replies);
    match task.unwrap() {
        TransformTask::Frontier { lsn, advance, clears } => {
            assert_eq!((lsn, advance.next_chunk_seq, clears), (70, 9, false));
        }
        other => panic!("{other:?}"),
    }
    let data = chunk(ChunkKind::Data);
    let replies = vec![
        row(vec![big(5), big(8), big(3)]),
        Reply::Checked,
        Reply::Chunk(Some(data)),
    ];
    let (requests, task) = drive(plan.open(), |state, reply| plan.resume(state, reply), replies);
    assert_eq!(
        task,
        Ok(TransformTask::Data { chunk: data, row_ordinal: 3, resumed: true })
    );
    assert_eq!(requests[1], Request::Authority { present: true });
    let replies = vec![empty(), Reply::Checked, Reply::Chunk(None)];
    let (_, task) = drive(plan.open(), |state, reply| plan.resume(state, reply), replies);
    assert_eq!(task.unwrap_err(), "runnable linear stage has no input chunk");
}

#[test]
fn source_frontier_is_checked_before_it_goes_out() {
    let plan = SourcePlan {
        input: input(),
        frontier: 80,
    };
    let replies = vec![
        row(vec![Cell::Boolean(false)]),
        Reply::Output(OutputFacts::Frontier { chunk_seq: 3 }),
    ];
    let (requests, advance) = drive(plan.open(), |state, reply| plan.resume(state, reply), replies);
    assert_eq!(
        requests,
        [
            Request::Read(skipped_chunk_statement(5, 8, 80)),
            Request::Frontier { lsn: 80 },
        ]
    );
    let advance = advance.unwrap();
    assert_eq!((advance.next_chunk_seq, advance.frontier_lsn), (8, 80));
    let (requests, advance) = drive(
        plan.open(),
        |state, reply| plan.resume(state, reply),
        vec![row(vec![Cell::Boolean(true)])],
    );
    assert_eq!(
        advance.unwrap_err(),
        "Scan frontier would skip a published source chunk"
    );
    assert_eq!(requests.len(), 1);
    assert_eq!(
        plan.resume(SourceState::Forwarding, empty()).unwrap_err(),
        MISPLACED
    );
}

fn boot(last: i64) -> Reply {
    row(vec![big(2), big(7), big(last), big(20), big(2), big(20), big(2)])
}

#[test]
fn bootstrap_looks_behind_its_page() {
    let stored = ScanContinuation {
        phase: ScanPhase::Bootstrap,
        input_stream_id: 5,
        input_chunk_seq: None,
        next_row_ordinal: None,
        next_bootstrap_seq: Some(7),
        pending_frontier_lsn: None,
    };
    let plan = BootstrapPlan {
        input: input(),
        output: output(),
        budget: budget(),
        stored,
        next_sequence: 7,
        bootstrap: "s.boot",
        payload: "s.output",
    };
    let run = |replies| {
        drive(
            plan.open().unwrap(),
            |state, reply| plan.resume(state, reply),
            replies,
        )
    };
    let (requests, close) = run(vec![boot(8), row(vec![big(9)])]);
    assert_eq!(
        requests,
        [
            Request::Write(
                bootstrap_statement("s.boot", "s.output", 7, &budget(), &output()).unwrap()
            ),
            Request::Read(first_bootstrap_statement("s.boot", 9)),
        ]
    );
    let close = close.unwrap();
    assert_eq!(close.next.next_bootstrap_seq, Some(9));
    let append = close.append.unwrap();
    assert_eq!(append.target, OutputAppendTarget::New { sequence: 3 });
    assert_eq!((append.rows, append.bytes, append.lsn), (2, 20, 50));
    assert_eq!(close.facts.output, OutputFacts::Data { chunk_seq: 3 });
    let (_, close) = run(vec![boot(8), empty()]);
    assert_eq!(close.unwrap_err(), EMPTY);
    let (_, close) = run(vec![boot(8), row(vec![Cell::Null])]);
    assert_eq!(
        close.unwrap().next,
        ScanContinuation::at_frontier(ScanPhase::SnapshotFrontier, 5, 50)
    );
    let (_, close) = run(vec![boot(8), row(vec![big(10)])]);
    assert_eq!(
        close.unwrap_err(),
        "Scan bootstrap relation has a sequence gap"
    );
    let (requests, close) = run(vec![boot(9)]);
    assert_eq!(
        close.unwrap_err(),
        "Scan bootstrap primitive returned an invalid cursor"
    );
    assert_eq!(requests.len(), 1);
}

const SQL: TransformSql<'static> = TransformSql {
    input_relation: "s.input",
    output_relation: "s.output",
    output_type: "s.row",
    predicate: "TRUE",
    expressions: "(source_row.payload).a",
};

fn data_plan(kind: LinearKind, row_ordinal: i64) -> DataPlan<'static> {
    DataPlan {
        kind,
        input: input(),
        output: output(),
        budget: budget(),
        chunk: chunk(ChunkKind::Data),
        row_ordinal,
        resumed: row_ordinal > 0,
        sql: &SQL,
    }
}

fn moved(first: i64, last: i64) -> Reply {
    let rows = last - first + 1;
    row(vec![
        big(rows),
        big(first),
        big(last),
        big(10 * rows),
        big(1),
        big(10),
        big(1),
        big(10),
    ])
}

#[test]
fn first_rows_are_measured_and_leave_a_cursor() {
    let plan = data_plan(LinearKind::Filter, 0);
    let (requests, close) = drive(
        plan.open().unwrap(),
        |state, reply| plan.resume(state, reply),
        vec![Reply::Checked, moved(0, 1)],
    );
    let data = chunk(ChunkKind::Data);
    assert_eq!(
        requests,
        [
            Request::Measure { port: 0, chunk: data },
            Request::Write(
                transform_statement(&SQL, &budget(), &output(), &data, 0, true).unwrap()
            ),
        ]
    );
    let close = close.unwrap();
    assert_eq!(
        close.cursor,
        CursorChange::Transform {
            previous: None,
            next: TransformContinuation {
                input_stream_id: 5,
                input_chunk_seq: 8,
                next_row_ordinal: 2,
            },
        }
    );
    assert_eq!(close.advance, None);
    assert_eq!(close.facts.continuation_rows, 1);
    assert_eq!(close.append.unwrap().lsn, 70);
}

#[test]
fn complete_chunk_moves_its_consumer() {
    let plan = data_plan(LinearKind::Project, 2);
    let (requests, close) = drive(
        plan.open().unwrap(),
        |state, reply| plan.resume(state, reply),
        vec![moved(2, 3)],
    );
    assert_eq!(requests.len(), 1);
    let close = close.unwrap();
    assert_eq!(close.cursor, CursorChange::Complete { clears: true, frontier: None });
    let advance = close.advance.unwrap();
    assert_eq!((advance.next_chunk_seq, advance.frontier_lsn), (9, 50));
    assert_eq!(
        advance.usage,
        WorkUsage { input_rows: 4, input_bytes: 40, output_rows: 0, output_bytes: 0 }
    );
    assert_eq!(close.facts.continuation_rows, 0);
}

#[test]
fn complete_scan_leaves_a_frontier_behind() {
    let plan = data_plan(LinearKind::Scan, 2);
    let run = |following| {
        drive(
            plan.open().unwrap(),
            |state, reply| plan.resume(state, reply),
            vec![moved(2, 3), Reply::Chunk(following)],
        )
    };
    let (requests, close) = run(None);
    assert_eq!(requests[1], Request::Chunk { port: 0, sequence: 9 });
    let close = close.unwrap();
    assert_eq!(
        close.cursor,
        CursorChange::Complete {
            clears: true,
            frontier: Some(ScanContinuation::at_frontier(ScanPhase::SourceFrontier, 5, 80)),
        }
    );
    assert_eq!(close.facts.continuation_rows, 1);
    let mut earlier = chunk(ChunkKind::Data);
    earlier.sequence = 9;
    earlier.lsn = 75;
    let (_, close) = run(Some(earlier));
    assert_eq!(
        close.unwrap().cursor,
        CursorChange::Complete { clears: true, frontier: None }
    );
}

#[test]
fn scan_within_a_chunk_replaces_its_cursor() {
    let plan = data_plan(LinearKind::Scan, 1);
    let (_, close) = drive(
        plan.open().unwrap(),
        |state, reply| plan.resume(state, reply),
        vec![moved(1, 2)],
    );
    assert_eq!(
        close.unwrap().cursor,
        CursorChange::Scan {
            previous: Some(ScanContinuation::at_row(5, 8, 1)),
            next: ScanContinuation::at_row(5, 8, 3),
        }
    );
    let outside = data_plan(LinearKind::Scan, 4);
    assert_eq!(
        outside.open().unwrap_err(),
        "linear continuation row is outside its input chunk"
    );
}
