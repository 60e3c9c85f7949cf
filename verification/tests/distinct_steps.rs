use shiba::execution::btree::BtreeOrder;
use shiba::execution::continuation::Attribute;
use shiba::execution::contract::{InputPosition, OutputFacts};
use shiba::execution::distinct::machine::{DistinctContinuation, DistinctPhase};
use shiba::execution::distinct::provision::{
    bag_body, continuation_name, create_continuation, groups_body, groups_index, queue_body,
    state_names, validate_payload, validate_provision,
};
use shiba::execution::distinct::statements::{
    apply_statement, decode_apply, decode_drain, decode_reconcile, distinct_null_safe_equality,
    drain_statement, prefix_facts, queue_probe, reconcile_statement, require_empty_queue,
    require_empty_touched, touched_probe, ApplyFacts, ApplyRow, DrainRow, DrainSql, PrefixFacts,
    PrefixSql, ReconcileFacts, ReconcileRow, ReconcileSql,
};
use shiba::execution::distinct::step::{
    commit_apply, commit_drain, finish_frontier, finish_input_position, measures_payload,
    pin_phase, replace_continuation, validate_bag_abi, validate_frontier, validate_queue_abi,
    validate_stage, validate_state_abi, validate_touched_abi,
};
use shiba::execution::distinct::storage::{
    continuation_arguments, load_continuation, phase_code, ContinuationRow, StoredContinuation,
};
use shiba::execution::stream::{
    ChunkKind, ChunkMeta, InputState, OutputAppendTarget, OutputState, ProducerKind,
};
use shiba::planner::{Operator, SlotType, WorkBudget, WorkUsage};
use shiba::sql::SqlValue;

fn complete(sql: &str) -> bool {
    !sql.contains('{') && !sql.contains('}')
}

fn budget() -> WorkBudget {
    WorkBudget::new(4, 100, 4, 100)
}

fn input() -> InputState {
    InputState {
        port: 0,
        stream_id: 5,
        producer: ProducerKind::Operator,
        source_oid: None,
        next_chunk_seq: 8,
        consumed_frontier_lsn: 50,
        activation_lsn: 50,
        available_source_frontier_lsn: None,
    }
}

fn output() -> OutputState {
    OutputState {
        stream_id: 6,
        next_chunk_seq: 3,
        target_rows: 3,
        target_bytes: 60,
        published_frontier_lsn: None,
        latest_data_lsn: None,
    }
}

fn chunk(kind: ChunkKind) -> ChunkMeta {
    ChunkMeta {
        stream_id: 5,
        sequence: 8,
        kind,
        rows: 4,
        bytes: 40,
        lsn: 70,
    }
}

fn cursor(row: i64, phase: DistinctPhase) -> DistinctContinuation {
    DistinctContinuation {
        input: InputPosition::new(5, 8, row).unwrap(),
        phase,
    }
}

fn stored(row: i64, phase: DistinctPhase, persisted: bool) -> StoredContinuation {
    StoredContinuation {
        value: cursor(row, phase),
        persisted,
    }
}

fn order() -> BtreeOrder {
    BtreeOrder {
        opclass: "\"pg_catalog\".\"int8_ops\"".to_owned(),
        direction: "ASC",
        sort_operator: "OPERATOR(pg_catalog.<)".to_owned(),
        equality_operator: "OPERATOR(pg_catalog.=)".to_owned(),
        nulls_first: false,
    }
}

fn attribute(name: &str, number: i16, type_oid: u32) -> Attribute {
    Attribute {
        name: name.to_owned(),
        number,
        type_oid,
        typmod: -1,
        collation_oid: 0,
        not_null: true,
    }
}

fn admitted(next_row: i64, queued_effects: u64) -> PrefixFacts {
    PrefixFacts {
        usage: WorkUsage {
            input_rows: 2,
            input_bytes: 20,
            output_rows: 0,
            output_bytes: 0,
        },
        next_row,
        touched_keys: 1,
        queued_effects,
        state_rows: 3,
    }
}

fn drain_row(remaining: i64) -> DrainRow {
    DrainRow {
        emitted: Some(2),
        emitted_bytes: Some(20),
        one_causal_lsn: Some(true),
        canonical_keys: Some(true),
        causal_lsn: Some("0/46".to_owned()),
        inserted: Some(2),
        removed: Some(2),
        remaining: Some(remaining),
    }
}

#[test]
fn distinct_has_one_operator_input() {
    assert_eq!(validate_stage(Operator::Distinct, 1, &vec![input()]), Ok(()));
    assert_eq!(
        validate_stage(Operator::Join, 1, &vec![input()]).unwrap_err(),
        "Distinct executor received another operator"
    );
    assert_eq!(
        validate_stage(Operator::Distinct, 1, &vec![]).unwrap_err(),
        "Distinct must have one operator input"
    );
    let mut source = input();
    source.producer = ProducerKind::Source;
    assert!(validate_stage(Operator::Distinct, 1, &vec![source]).is_err());
}

#[test]
fn distinct_cursor_is_pinned_to_its_chunk() {
    let fresh = stored(0, DistinctPhase::Apply, false);
    let data = Some(chunk(ChunkKind::Data));
    let frontier = Some(chunk(ChunkKind::Frontier));
    assert_eq!(pin_phase(fresh, &data), Ok(fresh));
    assert_eq!(
        pin_phase(fresh, &frontier),
        Ok(stored(0, DistinctPhase::Frontier, false))
    );
    let persisted = stored(2, DistinctPhase::Drain, true);
    assert_eq!(pin_phase(persisted, &data), Ok(persisted));
    assert_eq!(
        pin_phase(persisted, &frontier).unwrap_err(),
        "Distinct continuation is not pinned to a data chunk"
    );
    assert_eq!(
        pin_phase(fresh, &None).unwrap_err(),
        "runnable Distinct has no input chunk"
    );
    assert!(measures_payload(&fresh));
    assert!(!measures_payload(&persisted));
    assert_eq!(validate_frontier(&fresh), Ok(()));
    assert_eq!(
        validate_frontier(&persisted).unwrap_err(),
        "Distinct frontier has a row continuation"
    );
}

#[test]
fn distinct_frontier_reports_its_chunk() {
    let at = stored(0, DistinctPhase::Frontier, false);
    let facts = finish_frontier(&at, OutputFacts::Frontier { chunk_seq: 3 }, budget()).unwrap();
    assert_eq!(facts.output, OutputFacts::Frontier { chunk_seq: 3 });
    assert_eq!(facts.continuation_rows, 0);
    assert_eq!(
        finish_frontier(&at, OutputFacts::Nothing, budget()).unwrap_err(),
        "Distinct frontier commit is inconsistent"
    );
    assert_eq!(
        finish_frontier(
            &stored(0, DistinctPhase::Apply, false),
            OutputFacts::Frontier { chunk_seq: 3 },
            budget()
        )
        .unwrap_err(),
        "database returned facts for another Distinct phase"
    );
}

#[test]
fn distinct_input_ends_with_its_chunk() {
    let data = chunk(ChunkKind::Data);
    assert_eq!(
        finish_input_position(5, &data, 2),
        Ok(Some(cursor(2, DistinctPhase::Apply)))
    );
    assert_eq!(finish_input_position(5, &data, 4), Ok(None));
    assert_eq!(
        finish_input_position(5, &data, 5).unwrap_err(),
        "Distinct prefix advanced beyond its input chunk"
    );
    let mut wide = data;
    wide.rows = u64::MAX;
    assert_eq!(
        finish_input_position(5, &wide, 5).unwrap_err(),
        "Distinct chunk rows exceed bigint"
    );
}

#[test]
fn distinct_prefix_hands_over_to_its_drain() {
    let data = chunk(ChunkKind::Data);
    let at = stored(0, DistinctPhase::Apply, false);
    let commit = commit_apply(&input(), &data, &at, &admitted(2, 2), budget()).unwrap();
    assert_eq!(commit.next, Some(cursor(2, DistinctPhase::Drain)));
    assert_eq!(commit.advance, None);
    assert_eq!(commit.facts.continuation_rows, 1);
    let commit = commit_apply(&input(), &data, &at, &admitted(2, 0), budget()).unwrap();
    assert_eq!(commit.next, Some(cursor(2, DistinctPhase::Apply)));
    let commit = commit_apply(
        &input(),
        &data,
        &stored(2, DistinctPhase::Apply, true),
        &admitted(4, 0),
        budget(),
    )
    .unwrap();
    assert_eq!(commit.next, None);
    assert_eq!(commit.advance.unwrap().next_chunk_seq, 9);
    assert_eq!(
        commit_apply(&input(), &data, &stored(2, DistinctPhase::Apply, true), &admitted(2, 2), budget())
            .unwrap_err(),
        "Distinct continuation did not advance its input"
    );
    let mut empty = admitted(2, 0);
    empty.usage.input_rows = 0;
    assert_eq!(
        commit_apply(&input(), &data, &at, &empty, budget()).unwrap_err(),
        "Distinct prefix made no bounded input progress"
    );
    let mut wide = admitted(2, 0);
    wide.touched_keys = 3;
    assert_eq!(
        commit_apply(&input(), &data, &at, &wide, budget()).unwrap_err(),
        "Distinct typed occupancy summary is inconsistent"
    );
}

#[test]
fn distinct_drain_stays_until_it_is_empty() {
    let data = chunk(ChunkKind::Data);
    let at = stored(2, DistinctPhase::Drain, true);
    let drained = decode_drain(1, &drain_row(1), &output()).unwrap();
    assert_eq!(drained.append.target, OutputAppendTarget::New { sequence: 3 });
    assert_eq!((drained.append.rows, drained.append.bytes, drained.append.lsn), (2, 20, 70));
    let commit = commit_drain(&input(), &data, &at, &drained, budget()).unwrap();
    assert_eq!(commit.next, Some(cursor(2, DistinctPhase::Drain)));
    assert_eq!(commit.facts.output, OutputFacts::Data { chunk_seq: 3 });
    let drained = decode_drain(1, &drain_row(0), &output()).unwrap();
    let commit = commit_drain(&input(), &data, &at, &drained, budget()).unwrap();
    assert_eq!(commit.next, Some(cursor(2, DistinctPhase::Apply)));
    let commit =
        commit_drain(&input(), &data, &stored(4, DistinctPhase::Drain, true), &drained, budget())
            .unwrap();
    assert_eq!(commit.next, None);
    assert_eq!(commit.advance.unwrap().frontier_lsn, 50);
    assert_eq!(
        commit_drain(&input(), &data, &stored(2, DistinctPhase::Apply, true), &drained, budget())
            .unwrap_err(),
        "database returned facts for another Distinct phase"
    );
}

#[test]
fn distinct_drain_summary_is_checked() {
    assert_eq!(
        decode_drain(0, &drain_row(0), &output()).unwrap_err(),
        "Distinct Drain returned no summary"
    );
    let broken: [fn(&mut DrainRow); 6] = [
        |row| row.emitted = Some(0),
        |row| row.emitted_bytes = Some(0),
        |row| row.one_causal_lsn = Some(false),
        |row| row.canonical_keys = Some(false),
        |row| row.inserted = Some(1),
        |row| row.removed = Some(1),
    ];
    for change in broken {
        let mut row = drain_row(0);
        change(&mut row);
        assert_eq!(
            decode_drain(1, &row, &output()).unwrap_err(),
            "Distinct bounded effect Drain is inconsistent"
        );
    }
    let mut row = drain_row(0);
    row.causal_lsn = None;
    assert_eq!(
        decode_drain(1, &row, &output()).unwrap_err(),
        "database returned NULL Distinct causal LSN"
    );
    row.causal_lsn = Some("x".to_owned());
    assert_eq!(
        decode_drain(1, &row, &output()).unwrap_err(),
        "malformed LSN \"x\""
    );
    row = drain_row(-1);
    assert_eq!(
        decode_drain(1, &row, &output()).unwrap_err(),
        "database returned a negative resource count"
    );
}

#[test]
fn distinct_apply_summary_is_checked() {
    let row = ApplyRow {
        status: Some("ok".to_owned()),
        touched_keys: Some(1),
        touched_physical: Some(2),
        next_row: Some(2),
        input_rows: Some(2),
        input_bytes: Some(20),
        mutations: Some(3),
    };
    let facts = decode_apply(1, &row).unwrap();
    assert_eq!((facts.touched_keys, facts.next_row, facts.mutations), (1, 2, 3));
    assert_eq!(
        decode_apply(2, &row).unwrap_err(),
        "Distinct Apply returned no summary"
    );
    let mut broken = row.clone();
    broken.status = Some("negative".to_owned());
    assert_eq!(
        decode_apply(1, &broken).unwrap_err(),
        "Distinct multiplicity transition returned negative"
    );
    broken.status = None;
    assert_eq!(
        decode_apply(1, &broken).unwrap_err(),
        "database returned NULL Distinct Apply status"
    );
    broken = row.clone();
    broken.touched_keys = Some(3);
    assert_eq!(
        decode_apply(1, &broken).unwrap_err(),
        "Distinct Apply exceeded its per-input state bound"
    );
    broken = row;
    broken.next_row = None;
    assert_eq!(
        decode_apply(1, &broken).unwrap_err(),
        "database returned NULL Distinct next row"
    );
}

#[test]
fn distinct_reconciliation_is_bounded() {
    let row = ReconcileRow {
        status: Some("ok".to_owned()),
        touched: Some(4),
        queued_effects: Some(2),
        state_rows: Some(5),
    };
    let reconciled = decode_reconcile(1, &row, &budget()).unwrap();
    assert_eq!((reconciled.queued_effects, reconciled.state_rows), (2, 5));
    let mut broken = row.clone();
    broken.touched = Some(5);
    assert_eq!(
        decode_reconcile(1, &broken, &budget()).unwrap_err(),
        "Distinct reconciliation exceeded its touched-group bound"
    );
    broken = row;
    broken.status = Some("missing".to_owned());
    assert_eq!(
        decode_reconcile(1, &broken, &budget()).unwrap_err(),
        "Distinct representative reconciliation returned missing"
    );
    assert_eq!(
        decode_reconcile(0, &broken, &budget()).unwrap_err(),
        "Distinct representative reconciliation returned no summary"
    );
    let applied = ApplyFacts {
        touched_keys: 1,
        next_row: 2,
        input_rows: 2,
        input_bytes: 20,
        mutations: 3,
    };
    let facts = prefix_facts(&applied, &reconciled).unwrap();
    assert_eq!((facts.state_rows, facts.queued_effects), (8, 2));
    let effects = |queued_effects, state_rows| ReconcileFacts {
        queued_effects,
        state_rows,
    };
    assert!(prefix_facts(&applied, &effects(4, 0)).is_ok());
    assert_eq!(
        prefix_facts(&applied, &effects(5, 0)).unwrap_err(),
        "Distinct queued more than two effects per admitted row"
    );
    assert_eq!(
        prefix_facts(&applied, &effects(0, u64::MAX)).unwrap_err(),
        "Distinct state count overflowed"
    );
}

#[test]
fn distinct_statements_are_complete() {
    let keys = vec!["(payload).a".to_owned(), "(payload).b".to_owned()];
    let orders = vec![order(), order()];
    let expressions = vec!["(payload).a".to_owned()];
    let sql = PrefixSql {
        input: "s.input",
        output_type: "s.row",
        state: "s.state",
        bag: "s.bag",
        touched: "s.touched",
        output_key: "s.key(output_row)",
        keys: &keys,
        key_orders: &orders,
        expressions: &expressions,
    };
    let statement = apply_statement(&sql, &chunk(ChunkKind::Data), 2, &budget()).unwrap();
    assert!(complete(&statement.sql), "{}", statement.sql);
    for part in ["s.input", "s.row", "s.state", "s.bag", "s.touched", "(payload).b"] {
        assert!(statement.sql.contains(part), "{part}");
    }
    let none: Vec<String> = vec![];
    let without = PrefixSql { keys: &none, ..sql };
    assert_eq!(
        apply_statement(&without, &chunk(ChunkKind::Data), 2, &budget()).unwrap_err(),
        "Distinct has no exact key or output expression"
    );
    let statement = reconcile_statement(
        &ReconcileSql {
            state: "s.state",
            bag: "s.bag",
            queue: "s.queue",
            touched: "s.touched",
            canonical_key: "s.key(output_row)",
        },
        70,
    );
    assert!(complete(&statement.sql), "{}", statement.sql);
    assert!(statement.arguments.contains(&SqlValue::Text(Some("0/46".to_owned()))));
    let statement = drain_statement(
        &DrainSql {
            queue: "s.queue",
            output_payload: "s.output",
            canonical_key: "s.key(output_row)",
        },
        &budget(),
        &output(),
    )
    .unwrap();
    assert!(complete(&statement.sql), "{}", statement.sql);
    assert!(statement.sql.contains("s.queue") && statement.sql.contains("s.output"));
    let equality = distinct_null_safe_equality("l", "r", "OPERATOR(pg_catalog.=)");
    assert!(complete(&equality) && equality.contains('l') && equality.contains('r'));
    assert_eq!(
        queue_probe("s.queue"),
        "SELECT queue_id FROM s.queue ORDER BY queue_id LIMIT 1"
    );
    assert!(touched_probe("s.touched").contains("s.touched"));
}

#[test]
fn distinct_scratch_state_is_empty_between_steps() {
    assert_eq!(require_empty_queue(0), Ok(()));
    assert_eq!(
        require_empty_queue(1).unwrap_err(),
        "Distinct Apply/frontier found undrained effects"
    );
    assert_eq!(require_empty_touched(0), Ok(()));
    assert_eq!(
        require_empty_touched(1).unwrap_err(),
        "Distinct found committed touched-key scratch state"
    );
}

#[test]
fn distinct_provision_checks_its_plan() {
    assert_eq!(
        validate_provision(Operator::Distinct, 9, 1, &vec![5], 6, 2, 1),
        Ok(())
    );
    assert_eq!(
        validate_provision(Operator::Join, 9, 1, &vec![5], 6, 2, 1).unwrap_err(),
        "Distinct provisioner received another operator"
    );
    assert!(validate_provision(Operator::Distinct, 9, 1, &vec![], 6, 2, 1).is_err());
    assert!(validate_provision(Operator::Distinct, 0, 1, &vec![5], 6, 2, 1).is_err());
    assert_eq!(validate_payload(2, 2), Ok(()));
    assert_eq!(
        validate_payload(3, 2).unwrap_err(),
        "Distinct output payload does not match its plan schema"
    );
    assert_eq!(
        state_names(9, 1),
        vec![
            "distinct_groups_r9_s1".to_owned(),
            "distinct_bag_r9_s1".to_owned(),
            "distinct_effect_queue_r9_s1".to_owned(),
            "distinct_touched_r9_s1".to_owned(),
        ]
    );
    assert_eq!(continuation_name(9, 1), "continuation_r9_s1");
    let groups = groups_body(&vec!["bigint".to_owned()], "s.row");
    assert!(complete(&groups) && groups.contains("\"key_1\" bigint") && groups.contains("s.row"));
    let index = groups_index(9, 1, "s.state", &vec![order()]);
    assert!(complete(&index) && index.contains("\"distinct_groups_key_r9_s1\""), "{index}");
    assert!(index.contains("\"key_1\" \"pg_catalog\".\"int8_ops\" ASC NULLS LAST"), "{index}");
    assert!(complete(&bag_body("s.state", "s.row")));
    assert!(complete(&queue_body("s.row")));
    assert!(complete(&create_continuation("s.c")) && create_continuation("s.c").contains("s.c"));
}

#[test]
fn distinct_state_relations_are_exact() {
    let key = SlotType {
        type_oid: 25,
        typmod: -1,
        collation_oid: 0,
        nullable: true,
    };
    let mut state = vec![
        attribute("group_state_id", 1, 20),
        attribute("key_1", 2, 25),
        attribute("output_key", 3, 17),
        attribute("output_row", 4, 77),
        attribute("multiplicity", 5, 20),
    ];
    assert_eq!(validate_state_abi(&state, &vec![key], 77), Ok(()));
    state[1].type_oid = 20;
    assert_eq!(
        validate_state_abi(&state, &vec![key], 77).unwrap_err(),
        "Distinct typed key state changed ABI"
    );
    state.pop();
    assert_eq!(
        validate_state_abi(&state, &vec![key], 77).unwrap_err(),
        "Distinct typed state relation has an invalid ABI"
    );
    let mut bag = vec![
        attribute("bag_id", 1, 20),
        attribute("group_state_id", 2, 20),
        attribute("output_key", 3, 17),
        attribute("output_row", 4, 77),
        attribute("multiplicity", 5, 20),
    ];
    assert_eq!(validate_bag_abi(&bag, 77), Ok(()));
    bag[0].not_null = false;
    assert_eq!(
        validate_bag_abi(&bag, 77).unwrap_err(),
        "Distinct physical representative bag has an invalid ABI"
    );
    let mut queue = vec![
        attribute("queue_id", 1, 20),
        attribute("output_key", 2, 17),
        attribute("weight", 3, 20),
        attribute("output_row", 4, 77),
        attribute("row_bytes", 5, 20),
        attribute("causal_lsn", 6, 3220),
    ];
    assert_eq!(validate_queue_abi(&queue, 77), Ok(()));
    queue.remove(2);
    assert_eq!(
        validate_queue_abi(&queue, 77).unwrap_err(),
        "Distinct pending effect queue has an invalid ABI"
    );
    let touched = vec![
        attribute("group_state_id", 1, 20),
        attribute("net_weight", 2, 1700),
    ];
    assert_eq!(validate_touched_abi(&touched), Ok(()));
    assert_eq!(
        validate_touched_abi(&bag).unwrap_err(),
        "Distinct touched-key scratch relation has an invalid ABI"
    );
}

#[test]
fn distinct_cursor_is_read_back() {
    for phase in [DistinctPhase::Apply, DistinctPhase::Drain] {
        let arguments = continuation_arguments(cursor(2, phase)).unwrap();
        let code = match arguments[0] {
            SqlValue::SmallInt(code) => code,
            _ => unreachable!(),
        };
        assert_eq!(code, Some(phase_code(phase).unwrap()));
        let row = ContinuationRow {
            phase: code,
            input_stream_id: Some(5),
            input_chunk_seq: Some(8),
            next_row_ordinal: Some(2),
        };
        assert_eq!(load_continuation(Some(row), 5, 8), Ok(stored(2, phase, true)));
        assert_eq!(
            load_continuation(Some(row), 5, 9).unwrap_err(),
            "Distinct continuation is not at its input cursor"
        );
    }
    assert_eq!(
        load_continuation(None, 5, 8),
        Ok(stored(0, DistinctPhase::Apply, false))
    );
    assert_eq!(
        phase_code(DistinctPhase::Frontier).unwrap_err(),
        "Distinct frontier cannot be persisted"
    );
    let row = ContinuationRow {
        phase: Some(9),
        input_stream_id: Some(5),
        input_chunk_seq: Some(8),
        next_row_ordinal: Some(2),
    };
    assert_eq!(
        load_continuation(Some(row), 5, 8).unwrap_err(),
        "Distinct continuation has an invalid phase"
    );
    let replaced = replace_continuation(
        "s.c",
        &stored(2, DistinctPhase::Drain, true),
        &Some(cursor(2, DistinctPhase::Apply)),
    )
    .unwrap();
    assert!(replaced.delete.is_some() && replaced.insert.is_some());
    let replaced =
        replace_continuation("s.c", &stored(0, DistinctPhase::Apply, false), &None).unwrap();
    assert!(replaced.delete.is_none() && replaced.insert.is_none());
}
