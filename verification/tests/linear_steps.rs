use shiba::execution::continuation::Attribute;
use shiba::execution::contract::OutputFacts;
use shiba::execution::linear::machine::{
    validate_scan_continuation, validate_transform_continuation, BootstrapFacts, LinearKind,
    ScanContinuation, ScanPhase, TransformContinuation, TransformFacts,
};
use shiba::execution::linear::statements::{
    assert_frontier_skips_no_source_chunk, bootstrap_limits, bootstrap_statement,
    decode_bootstrap, decode_transform, first_bootstrap_statement, output_append,
    skipped_chunk_statement, transform_limits, transform_statement, BootstrapRow, TransformRow,
    TransformSql,
};
use shiba::execution::linear::step::{
    after_bootstrap, after_transform, assemble_transform, available_source_frontier,
    bootstrap_facts, compile_scan, emits_rows, frontier_advance, linear_kind, next_bootstrap,
    pending_source_frontier, plan_scan, plan_scan_chunk, plan_transform, scan_after_chunk,
    scan_row_cursors, snapshot_frontier, source_frontier_after_chunk, transform_facts,
    transform_row_cursors, validate_bootstrap_abi, validate_data_cursor, validate_scan_frontier,
    validate_source_attributes, ScanAction, TransformAction, TransformNext,
};
use shiba::execution::linear::storage::{
    load_scan_continuation, load_transform_continuation, replace_scan_continuation,
    replace_transform_continuation, scan_columns, transform_columns, ScanRow,
    TransformRow as TransformCursorRow,
};
use shiba::execution::stream::{
    ChunkKind, ChunkMeta, InputState, OutputAppendTarget, OutputState, ProducerKind,
};
use shiba::planner::{Operator, OutputSlot, ScanColumn, SlotType, WorkBudget, WorkUsage};
use shiba::sql::SqlValue;

fn complete(sql: &str) -> bool {
    !sql.contains('{') && !sql.contains('}')
}

fn budget() -> WorkBudget {
    WorkBudget::new(4, 100, 4, 100)
}

fn input() -> InputState {
    InputState {
        port: 0,
        stream_id: 5,
        producer: ProducerKind::Source,
        source_oid: Some(900),
        next_chunk_seq: 8,
        consumed_frontier_lsn: 50,
        activation_lsn: 50,
        available_source_frontier_lsn: Some(80),
    }
}

fn output() -> OutputState {
    OutputState {
        stream_id: 6,
        next_chunk_seq: 3,
        target_rows: 3,
        target_bytes: 60,
        published_frontier_lsn: None,
        latest_data_lsn: None,
    }
}

fn chunk(kind: ChunkKind) -> ChunkMeta {
    ChunkMeta {
        stream_id: 5,
        sequence: 8,
        kind,
        rows: 4,
        bytes: 40,
        lsn: 70,
    }
}

fn usage(input_rows: u64, input_bytes: u64, output_rows: u64, output_bytes: u64) -> WorkUsage {
    WorkUsage {
        input_rows,
        input_bytes,
        output_rows,
        output_bytes,
    }
}

fn attribute(name: &str, number: i16, type_oid: u32) -> Attribute {
    Attribute {
        name: name.to_owned(),
        number,
        type_oid,
        typmod: -1,
        collation_oid: 0,
        not_null: true,
    }
}

fn bootstrap(sequence: i64) -> ScanContinuation {
    ScanContinuation {
        phase: ScanPhase::Bootstrap,
        input_stream_id: 5,
        input_chunk_seq: None,
        next_row_ordinal: None,
        next_bootstrap_seq: Some(sequence),
        pending_frontier_lsn: None,
    }
}

#[test]
fn linear_stages_have_one_matching_input() {
    assert_eq!(linear_kind(Operator::Scan, &vec![input()]), Ok(LinearKind::Scan));
    assert_eq!(
        linear_kind(Operator::Join, &vec![input()]).unwrap_err(),
        "linear kernel received a stateful or Sink stage"
    );
    assert_eq!(
        linear_kind(Operator::Scan, &vec![]).unwrap_err(),
        "linear stage must have exactly one input"
    );
    assert_eq!(
        linear_kind(Operator::Filter, &vec![input()]).unwrap_err(),
        "linear stage input producer does not match its operator"
    );
}

#[test]
fn scan_resumes_at_its_stored_phase() {
    assert_eq!(
        plan_scan(&input(), 900, &None),
        Ok(ScanAction::ReadChunk { row_ordinal: 0 })
    );
    assert_eq!(
        plan_scan(&input(), 900, &Some(bootstrap(7))),
        Ok(ScanAction::Bootstrap { next_sequence: 7 })
    );
    assert_eq!(
        plan_scan(&input(), 900, &Some(ScanContinuation::at_row(5, 8, 2))),
        Ok(ScanAction::ReadChunk { row_ordinal: 2 })
    );
    assert_eq!(
        plan_scan(
            &input(),
            900,
            &Some(ScanContinuation::at_frontier(ScanPhase::SourceFrontier, 5, 80))
        ),
        Ok(ScanAction::SourceFrontier { frontier: 80 })
    );
    assert_eq!(
        plan_scan(&input(), 901, &None).unwrap_err(),
        "Scan source OID does not match its source stream"
    );
    assert_eq!(
        plan_scan(&input(), 900, &Some(ScanContinuation::at_row(6, 8, 2))).unwrap_err(),
        "Scan continuation references another input stream"
    );
}

#[test]
fn scan_fields_match_their_phase() {
    assert_eq!(validate_scan_continuation(&bootstrap(1)), Ok(()));
    assert_eq!(
        validate_scan_continuation(&bootstrap(0)).unwrap_err(),
        "Scan continuation fields do not match its phase"
    );
    assert_eq!(
        validate_scan_continuation(&ScanContinuation::at_row(0, 8, 2)).unwrap_err(),
        "Scan continuation has an invalid input stream"
    );
    assert_eq!(
        validate_transform_continuation(&TransformContinuation {
            input_stream_id: 5,
            input_chunk_seq: 8,
            next_row_ordinal: -1,
        })
        .unwrap_err(),
        "linear continuation contains an invalid cursor"
    );
    for phase in [
        ScanPhase::Bootstrap,
        ScanPhase::SnapshotFrontier,
        ScanPhase::Data,
        ScanPhase::SourceFrontier,
    ] {
        assert_eq!(ScanPhase::decode(phase.code()), Ok(phase));
    }
    assert_eq!(
        ScanPhase::decode(5).unwrap_err(),
        "Scan continuation has unknown phase 5"
    );
    assert_eq!(
        ScanPhase::decode(0).unwrap_err(),
        "active operator phase code must be positive"
    );
}

#[test]
fn scan_reads_the_chunk_at_its_cursor() {
    let data = Some(chunk(ChunkKind::Data));
    assert_eq!(plan_scan_chunk(&None, &None), Ok(false));
    assert_eq!(plan_scan_chunk(&None, &data), Ok(true));
    assert_eq!(
        plan_scan_chunk(&Some(ScanContinuation::at_row(5, 8, 2)), &data),
        Ok(true)
    );
    assert_eq!(
        plan_scan_chunk(&Some(ScanContinuation::at_row(5, 8, 2)), &None).unwrap_err(),
        "Scan continuation references a missing input chunk"
    );
    assert_eq!(
        plan_scan_chunk(&None, &Some(chunk(ChunkKind::Frontier))).unwrap_err(),
        "source stream contains a frontier chunk"
    );
    assert_eq!(
        plan_scan_chunk(&Some(ScanContinuation::at_row(5, 9, 2)), &data).unwrap_err(),
        "Scan continuation is not at its input cursor"
    );
}

#[test]
fn transform_forwards_frontiers_and_reads_data() {
    let cursor = |stream: i64, sequence: i64, row: i64| {
        Some(TransformContinuation {
            input_stream_id: stream,
            input_chunk_seq: sequence,
            next_row_ordinal: row,
        })
    };
    let data = Some(chunk(ChunkKind::Data));
    let frontier = Some(chunk(ChunkKind::Frontier));
    assert_eq!(
        plan_transform(5, &cursor(5, 8, 3), &data),
        Ok(TransformAction::Data { row_ordinal: 3 })
    );
    match plan_transform(5, &None, &frontier).unwrap() {
        TransformAction::Frontier { lsn, advance } => {
            assert_eq!((lsn, advance.next_chunk_seq, advance.frontier_lsn), (70, 9, 70));
        }
        TransformAction::Data { .. } => unreachable!(),
    }
    for (continuation, chunk, message) in [
        (
            cursor(6, 8, 3),
            data,
            "linear continuation references another input stream",
        ),
        (None, None, "runnable linear stage has no input chunk"),
        (
            cursor(5, 9, 3),
            data,
            "linear continuation is not at its input cursor",
        ),
        (
            cursor(5, 8, -1),
            data,
            "linear continuation has a negative row ordinal",
        ),
        (
            cursor(5, 8, 1),
            frontier,
            "frontier continuation has a row offset",
        ),
    ] {
        assert_eq!(plan_transform(5, &continuation, &chunk).unwrap_err(), message);
    }
}

#[test]
fn bootstrap_pages_are_contiguous() {
    let facts = |first, last, rows| BootstrapFacts {
        usage: usage(rows, rows, rows, rows),
        first_sequence: first,
        last_sequence: last,
        output: OutputFacts::Nothing,
    };
    assert_eq!(after_bootstrap(1, &facts(Some(1), Some(3), 3)), Ok(Some(4)));
    assert_eq!(after_bootstrap(1, &facts(None, None, 0)), Ok(None));
    for broken in [
        facts(Some(2), Some(4), 3),
        facts(Some(1), Some(4), 3),
        facts(None, None, 1),
        facts(Some(1), None, 1),
    ] {
        assert_eq!(
            after_bootstrap(1, &broken).unwrap_err(),
            "Scan bootstrap primitive returned an invalid cursor"
        );
    }
    assert_eq!(
        next_bootstrap(&bootstrap(1), Some(4), Some(4), 50),
        Ok(bootstrap(4))
    );
    assert_eq!(
        next_bootstrap(&bootstrap(1), Some(4), None, 50),
        Ok(ScanContinuation::at_frontier(ScanPhase::SnapshotFrontier, 5, 50))
    );
    assert_eq!(
        next_bootstrap(&bootstrap(1), Some(4), Some(5), 50).unwrap_err(),
        "Scan bootstrap relation has a sequence gap"
    );
    assert_eq!(bootstrap_facts(&facts(Some(1), Some(3), 3)).usage, usage(3, 3, 3, 3));
}

#[test]
fn bootstrap_relation_has_two_columns() {
    let good = vec![attribute("bootstrap_seq", 1, 20), attribute("row_value", 2, 77)];
    assert_eq!(validate_bootstrap_abi(&good, 77), Ok(()));
    assert_eq!(
        validate_bootstrap_abi(&good, 78).unwrap_err(),
        "Scan bootstrap row type changed identity"
    );
    let renamed = vec![attribute("sequence", 1, 20), attribute("row_value", 2, 77)];
    assert_eq!(
        validate_bootstrap_abi(&renamed, 77).unwrap_err(),
        "Scan bootstrap relation changed its ABI"
    );
}

#[test]
fn frontiers_never_move_back() {
    let pending = ScanContinuation::at_frontier(ScanPhase::SnapshotFrontier, 5, 50);
    assert_eq!(snapshot_frontier(&pending, &input()), Ok(50));
    let stale = ScanContinuation::at_frontier(ScanPhase::SnapshotFrontier, 5, 51);
    assert_eq!(
        snapshot_frontier(&stale, &input()).unwrap_err(),
        "Scan snapshot frontier does not match its activation boundary"
    );
    assert_eq!(
        snapshot_frontier(&bootstrap(1), &input()).unwrap_err(),
        "Scan snapshot frontier omitted its LSN"
    );
    assert_eq!(pending_source_frontier(&input()), Some(80));
    let mut consumed = input();
    consumed.consumed_frontier_lsn = 80;
    assert_eq!(pending_source_frontier(&consumed), None);
    assert_eq!(available_source_frontier(&input()), Ok(80));
    assert_eq!(
        available_source_frontier(&consumed).unwrap_err(),
        "runnable Scan has neither a chunk nor a source frontier"
    );
    assert_eq!(validate_scan_frontier(&input(), 80), Ok(()));
    assert_eq!(
        validate_scan_frontier(&input(), 81).unwrap_err(),
        "Scan frontier continuation is outside the published frontier"
    );
    assert!(validate_scan_frontier(&input(), 50).is_err());
    let advance = frontier_advance(&input(), 80);
    assert_eq!((advance.next_chunk_seq, advance.frontier_lsn), (8, 80));
    assert!(advance.usage.is_empty());
}

#[test]
fn frontier_waits_for_earlier_chunks() {
    assert_eq!(source_frontier_after_chunk(&input(), None), Some(80));
    assert_eq!(source_frontier_after_chunk(&input(), Some(81)), Some(80));
    assert_eq!(source_frontier_after_chunk(&input(), Some(80)), None);
    let mut without = input();
    without.available_source_frontier_lsn = None;
    assert_eq!(source_frontier_after_chunk(&without, Some(81)), None);
    assert_eq!(
        scan_after_chunk(&input(), Some(80)),
        Some(ScanContinuation::at_frontier(ScanPhase::SourceFrontier, 5, 80))
    );
    assert_eq!(scan_after_chunk(&input(), None), None);
    assert_eq!(assert_frontier_skips_no_source_chunk(Some(false)), Ok(()));
    assert_eq!(
        assert_frontier_skips_no_source_chunk(Some(true)).unwrap_err(),
        "Scan frontier would skip a published source chunk"
    );
    assert_eq!(
        assert_frontier_skips_no_source_chunk(None).unwrap_err(),
        "source frontier check returned NULL"
    );
}

#[test]
fn data_cursor_lies_inside_its_chunk() {
    let data = chunk(ChunkKind::Data);
    assert_eq!(validate_data_cursor(&input(), &data, 0), Ok(()));
    assert_eq!(validate_data_cursor(&input(), &data, 3), Ok(()));
    for row in [-1, 4] {
        assert_eq!(
            validate_data_cursor(&input(), &data, row).unwrap_err(),
            "linear continuation row is outside its input chunk"
        );
    }
    let mut later = input();
    later.next_chunk_seq = 9;
    assert_eq!(
        validate_data_cursor(&later, &data, 0).unwrap_err(),
        "linear chunk is not at the consumer cursor"
    );
}

#[test]
fn scan_drops_changes_before_activation() {
    let mut early = chunk(ChunkKind::Data);
    early.lsn = 50;
    assert!(!emits_rows(LinearKind::Scan, &early, &input()));
    assert!(emits_rows(LinearKind::Scan, &chunk(ChunkKind::Data), &input()));
    assert!(emits_rows(LinearKind::Filter, &early, &input()));
}

#[test]
fn transform_consumes_each_row_once() {
    let data = chunk(ChunkKind::Data);
    let facts = |first, last| TransformFacts {
        usage: usage(1, 10, 1, 10),
        first_ordinal: first,
        last_ordinal: last,
        output: OutputFacts::Data { chunk_seq: 3 },
    };
    assert_eq!(
        after_transform(&input(), &data, 0, &facts(0, 1)),
        Ok(TransformNext::Row { next_row: 2 })
    );
    match after_transform(&input(), &data, 2, &facts(2, 3)).unwrap() {
        TransformNext::Chunk { advance } => {
            assert_eq!((advance.next_chunk_seq, advance.frontier_lsn), (9, 50));
            assert_eq!(advance.usage, usage(4, 40, 0, 0));
        }
        TransformNext::Row { .. } => unreachable!(),
    }
    assert_eq!(
        after_transform(&input(), &data, 1, &facts(0, 1)).unwrap_err(),
        "linear primitive did not start at its continuation"
    );
    assert_eq!(
        after_transform(&input(), &data, 0, &facts(0, 4)).unwrap_err(),
        "linear primitive advanced beyond its input chunk"
    );
    assert_eq!(
        after_transform(&input(), &data, 0, &facts(0, i64::MAX)).unwrap_err(),
        "linear row ordinal space exhausted"
    );
    let (previous, next) = scan_row_cursors(&input(), &data, 0, 2, false);
    assert_eq!((previous, next), (None, ScanContinuation::at_row(5, 8, 2)));
    let (previous, next) = transform_row_cursors(&input(), &data, 2, 3, true);
    assert_eq!(previous.unwrap().next_row_ordinal, 2);
    assert_eq!(next.next_row_ordinal, 3);
    assert_eq!(transform_facts(&facts(0, 1), true).continuation_rows, 1);
    assert_eq!(transform_facts(&facts(0, 1), false).continuation_rows, 0);
}

#[test]
fn transform_statement_is_complete() {
    let sql = TransformSql {
        input_relation: "s.input",
        output_relation: "s.output",
        output_type: "s.row",
        predicate: "TRUE",
        expressions: "(source_row.payload).a",
    };
    let statement = transform_statement(
        &sql,
        &budget(),
        &output(),
        &chunk(ChunkKind::Data),
        2,
        true,
    )
    .unwrap();
    assert!(complete(&statement.sql), "{}", statement.sql);
    for part in ["s.input", "s.output", "s.row", "(source_row.payload).a"] {
        assert!(statement.sql.contains(part), "{part}");
    }
    let mut expected: Vec<SqlValue> = [5, 8, 2, 4, 4, 100, 3, 60, 6, 3]
        .iter()
        .map(|value| SqlValue::BigInt(Some(*value)))
        .collect();
    expected.push(SqlValue::Boolean(Some(true)));
    assert_eq!(statement.arguments, expected);
    let limits = transform_limits(&budget(), &output()).unwrap();
    assert_eq!((limits.output_rows, limits.output_bytes), (3, 60));
    let mut wide = chunk(ChunkKind::Data);
    wide.rows = u64::MAX;
    assert_eq!(
        transform_statement(&sql, &budget(), &output(), &wide, 2, true).unwrap_err(),
        "resource count exceeds bigint"
    );
    assert_eq!(
        transform_limits(&WorkBudget::new(usize::MAX, 1, 1, 1), &output()).unwrap_err(),
        "work budget exceeds bigint"
    );
}

#[test]
fn transform_summary_is_checked() {
    let row = TransformRow {
        processed: Some(2),
        first: Some(1),
        last: Some(2),
        input_bytes: Some(20),
        emitted: Some(1),
        output_bytes: Some(10),
        inserted: Some(1),
        stored_bytes: Some(10),
    };
    let facts = decode_transform(1, &row, 1, &budget(), &output()).unwrap();
    assert_eq!(facts.usage, usage(2, 20, 1, 10));
    assert_eq!(facts.output, OutputFacts::Data { chunk_seq: 3 });
    let append = output_append(facts.output, &facts.usage, 70).unwrap();
    assert_eq!(append.target, OutputAppendTarget::New { sequence: 3 });
    assert_eq!((append.rows, append.bytes, append.lsn), (1, 10, 70));
    assert_eq!(output_append(OutputFacts::Nothing, &facts.usage, 70), None);
    assert_eq!(
        decode_transform(0, &row, 1, &budget(), &output()).unwrap_err(),
        "linear primitive returned no summary row"
    );
    let broken: [fn(&mut TransformRow); 4] = [
        |row| row.first = Some(0),
        |row| row.last = Some(3),
        |row| row.inserted = Some(0),
        |row| row.stored_bytes = Some(11),
    ];
    for change in broken {
        let mut row = row;
        change(&mut row);
        assert_eq!(
            decode_transform(1, &row, 1, &budget(), &output()).unwrap_err(),
            "linear primitive returned inconsistent row facts"
        );
    }
    let mut many = row;
    many.processed = Some(4);
    many.last = Some(4);
    many.emitted = Some(4);
    many.inserted = Some(4);
    assert_eq!(
        decode_transform(1, &many, 1, &budget(), &output()).unwrap_err(),
        "linear primitive exceeded its stream target"
    );
    many.emitted = Some(2);
    many.inserted = Some(2);
    many.output_bytes = Some(61);
    many.stored_bytes = Some(61);
    assert_eq!(
        decode_transform(1, &many, 1, &budget(), &output()).unwrap_err(),
        "linear primitive exceeded its stream target"
    );
    let mut lacking = row;
    lacking.first = None;
    assert_eq!(
        decode_transform(1, &lacking, 1, &budget(), &output()).unwrap_err(),
        "database returned NULL first input ordinal"
    );
    lacking = row;
    lacking.emitted = Some(-1);
    assert!(decode_transform(1, &lacking, 1, &budget(), &output()).is_err());
    let mut target = output();
    target.target_rows = -1;
    assert_eq!(
        decode_transform(1, &row, 1, &budget(), &target).unwrap_err(),
        "negative output row target"
    );
}

#[test]
fn bootstrap_summary_is_checked() {
    let statement = bootstrap_statement("s.boot", "s.output", 1, &budget(), &output()).unwrap();
    assert!(complete(&statement.sql), "{}", statement.sql);
    assert!(statement.sql.contains("s.boot") && statement.sql.contains("s.output"));
    assert_eq!(
        statement.arguments,
        [1, 3, 60, 6, 3]
            .iter()
            .map(|value| SqlValue::BigInt(Some(*value)))
            .collect::<Vec<SqlValue>>()
    );
    let limits = bootstrap_limits(&WorkBudget::new(2, 50, 4, 40), &output()).unwrap();
    assert_eq!((limits.rows, limits.bytes), (2, 40));
    let row = BootstrapRow {
        rows: Some(2),
        first_sequence: Some(1),
        last_sequence: Some(2),
        bytes: Some(20),
        inserted: Some(2),
        stored_bytes: Some(20),
        deleted: Some(2),
    };
    let facts = decode_bootstrap(1, &row, &budget(), &output()).unwrap();
    assert_eq!(facts.usage, usage(2, 20, 2, 20));
    assert_eq!((facts.first_sequence, facts.last_sequence), (Some(1), Some(2)));
    assert_eq!(facts.output, OutputFacts::Data { chunk_seq: 3 });
    let mut broken = row;
    broken.deleted = Some(1);
    assert_eq!(
        decode_bootstrap(1, &broken, &budget(), &output()).unwrap_err(),
        "Scan bootstrap primitive returned inconsistent row facts"
    );
    assert!(decode_bootstrap(0, &row, &budget(), &output()).is_err());
    let first = first_bootstrap_statement("s.boot", 4);
    assert!(complete(&first.sql) && first.sql.contains("s.boot"));
    assert_eq!(first.arguments, vec![SqlValue::BigInt(Some(4))]);
    assert_eq!(skipped_chunk_statement(5, 8, 80).arguments.len(), 3);
}

#[test]
fn source_columns_are_compiled_by_slot() {
    let source = vec![attribute("id", 1, 20), attribute("name", 2, 25)];
    assert_eq!(validate_source_attributes(&source, &source), Ok(()));
    assert_eq!(
        validate_source_attributes(&source, &vec![attribute("id", 1, 20)]).unwrap_err(),
        "source stream row type no longer matches its table"
    );
    let slot = |slot: u32, type_oid: u32| OutputSlot {
        slot,
        type_: SlotType {
            type_oid,
            typmod: -1,
            collation_oid: 0,
            nullable: true,
        },
    };
    let columns = vec![
        ScanColumn { output: 11, attnum: 2 },
        ScanColumn { output: 10, attnum: 1 },
    ];
    let compiled = compile_scan(&source, &columns, &vec![slot(10, 20), slot(11, 25)]).unwrap();
    assert!(compiled.find("\"id\"").unwrap() < compiled.find("\"name\"").unwrap(), "{compiled}");
    assert!(compile_scan(&source, &columns, &vec![slot(12, 20)])
        .unwrap_err()
        .ends_with(" has no source column"));
    assert!(compile_scan(&source, &columns, &vec![slot(10, 23)])
        .unwrap_err()
        .ends_with(" changed PostgreSQL type"));
    assert!(compile_scan(&source, &columns, &vec![slot(10, 20), slot(10, 20)])
        .unwrap_err()
        .ends_with(" is duplicated"));
    let missing = vec![ScanColumn { output: 10, attnum: 9 }];
    assert!(compile_scan(&source, &missing, &vec![slot(10, 20)]).is_err());
    let transform = assemble_transform(None, &vec!["a".to_owned(), "b".to_owned()]);
    assert_eq!(transform.predicate, "TRUE");
    assert!(transform.expressions.contains('a') && transform.expressions.contains('b'));
}

#[test]
fn linear_cursors_are_read_back() {
    let row = ScanRow {
        phase: Some(4),
        input_stream_id: Some(5),
        input_chunk_seq: None,
        next_row_ordinal: None,
        next_bootstrap_seq: None,
        pending_frontier_lsn: Some("0/50".to_owned()),
    };
    let stored = ScanContinuation::at_frontier(ScanPhase::SourceFrontier, 5, 80);
    assert_eq!(load_scan_continuation(&row), Ok(stored));
    let replaced = replace_scan_continuation("s.c", Some(stored), None).unwrap();
    assert!(replaced.insert.is_none());
    let delete = replaced.delete.unwrap();
    assert_eq!(delete.arguments.len(), scan_columns().len() - 1);
    assert_eq!(delete.arguments[4], SqlValue::BigInt(None));
    assert_eq!(delete.arguments[5], SqlValue::Text(Some("0/50".to_owned())));
    let cursor = load_transform_continuation(&TransformCursorRow {
        input_stream_id: Some(5),
        input_chunk_seq: Some(8),
        next_row_ordinal: Some(3),
    })
    .unwrap();
    let replaced = replace_transform_continuation("s.c", None, cursor).unwrap();
    assert!(replaced.delete.is_none());
    assert_eq!(
        replaced.insert.unwrap().arguments.len(),
        transform_columns().len() - 1
    );
    assert!(load_transform_continuation(&TransformCursorRow {
        input_stream_id: Some(5),
        input_chunk_seq: None,
        next_row_ordinal: Some(3),
    })
    .is_err());
}
