use shiba::execution::aggregate::apply::{
    aggregate_nonnegative, apply_statement, decode_apply, decode_first_dirty,
    ensure_groups_statement, first_dirty_query, group_columns, required_count, value_list,
    with_comma, ApplyFacts, ApplyRow, ApplySql, CompiledAggregate,
};
use shiba::execution::aggregate::emit::{
    aggregate_output_expression, decision_statement, decode_decision, decode_emission,
    decode_finished, decode_next_dirty, discard_statement, emission_source, emission_statement,
    finish_statement, finished_rows, locate_emission, parse_decision, require_aggregate_one,
    tombstone_statement, unchanged_statement, EmissionRow, EmissionSql, EmitSource, OutputDecision,
    OutputSql,
};
use shiba::execution::aggregate::machine::{
    AfterDrain, AggregateContinuation, AggregateMachine, AggregatePhase, ApplyTarget, EmitLeg,
};
use shiba::execution::aggregate::order::{
    aggregate_group_match, aggregate_rebuild_order, aggregate_same_value, cursor_column,
    key_ordering_sql, value_column, RebuildKey,
};
use shiba::execution::aggregate::pages::{
    action_measurement, aggregate_function_name, aggregate_function_statement,
    append_statement, cleanup_query, commit_page, decode_measurement, decode_selection,
    decode_updated, decode_work_probe, dequeue_statement, desired_sql, finish_page, publish_statement, require_finished,
    selection_statement, validate_append, work_probe, AggregateCall, GroupPage, PageSql,
    SelectionRow,
};
use shiba::execution::aggregate::provision::{
    aggregate_name, bag_body, bag_index, create_continuation, dirty_body, groups_body,
    groups_index, order_index, transition_slot, validate_function, validate_payload,
    validate_provision, work_body, work_slot,
};
use shiba::execution::aggregate::rebuild::{
    decode_rebuild, filter_sql, initialize_statement, locate_rebuild, output_attribute,
    rebuild_statement,
    validate_initialized, validate_work, AggregateCapability, RebuildRow, RebuildSql,
};
use shiba::execution::aggregate::step::{
    commit_apply, commit_decision, commit_frontier, commit_global_group, commit_pending,
    commit_rebuild, global_group_statement, materialized_query, measures_payload, open_apply,
    open_frontier, plan_target, queue_empty_query, queues_global_group,
    replace_execute_continuation, require_drained, start_execute_continuation, tries_page,
    validate_cursor, validate_stage,
};
use shiba::execution::aggregate::storage::{
    continuation_columns, decode_execute_fields, encode_execute_fields, load_execute_continuation,
    load_query, AggregateRow, StoredAggregate,
};
use shiba::execution::btree::BtreeOrder;
use shiba::execution::continuation::Attribute;
use shiba::execution::contract::{InputPosition, OutputFacts};
use shiba::execution::stream::{
    ChunkKind, ChunkMeta, InputState, OutputAppend, OutputAppendTarget, OutputState, ProducerKind,
};
use shiba::planner::{
    AggregateExpr, BindingId, Operator, ScalarExpr, SlotId, SlotType, SortGroupExpr, WorkBudget,
    WorkUsage,
};
use shiba::sql::SqlValue;

fn complete(sql: &str) -> bool {
    !sql.contains('{') && !sql.contains('}')
}

fn budget() -> WorkBudget {
    WorkBudget::new(4, 100, 4, 100)
}

fn machine() -> AggregateMachine {
    AggregateMachine::new(2).unwrap()
}

fn position(row: i64) -> InputPosition {
    InputPosition::new(7, 11, row).unwrap()
}

fn input() -> InputState {
    InputState {
        port: 0,
        stream_id: 7,
        producer: ProducerKind::Operator,
        source_oid: None,
        next_chunk_seq: 11,
        consumed_frontier_lsn: 50,
        activation_lsn: 0,
        available_source_frontier_lsn: None,
    }
}

fn output() -> OutputState {
    OutputState {
        stream_id: 8,
        next_chunk_seq: 3,
        target_rows: 4,
        target_bytes: 100,
        published_frontier_lsn: None,
        latest_data_lsn: None,
    }
}

fn chunk(kind: ChunkKind, sequence: i64) -> ChunkMeta {
    ChunkMeta {
        stream_id: 7,
        sequence,
        kind,
        rows: 4,
        bytes: 40,
        lsn: 70,
    }
}

fn applying(row: i64) -> AggregateContinuation {
    AggregateContinuation {
        input_stream_id: 7,
        input: Some(position(row)),
        phase: AggregatePhase::Apply,
    }
}

fn rebuilding(group_queue_id: i64, aggregate_ordinal: u32) -> AggregateContinuation {
    AggregateContinuation {
        input_stream_id: 7,
        input: None,
        phase: AggregatePhase::DrainRebuild {
            group_queue_id,
            aggregate_ordinal,
            after: AfterDrain::Idle,
        },
    }
}

fn emitting(group_queue_id: i64, leg: EmitLeg) -> AggregateContinuation {
    AggregateContinuation {
        input_stream_id: 7,
        input: None,
        phase: AggregatePhase::DrainEmit {
            group_queue_id,
            leg,
            after: AfterDrain::Idle,
        },
    }
}

fn frontier() -> AggregateContinuation {
    AggregateContinuation {
        input_stream_id: 7,
        input: Some(position(0)),
        phase: AggregatePhase::Frontier,
    }
}

fn applied(next_row: i64) -> ApplyFacts {
    ApplyFacts {
        usage: WorkUsage {
            input_rows: 2,
            input_bytes: 20,
            output_rows: 0,
            output_bytes: 0,
        },
        next_row,
        state_rows: 3,
    }
}

fn one_row() -> OutputAppend {
    OutputAppend {
        target: OutputAppendTarget::New { sequence: 3 },
        rows: 1,
        bytes: 9,
        lsn: 70,
    }
}

fn order() -> BtreeOrder {
    BtreeOrder {
        opclass: "\"pg_catalog\".\"int8_ops\"".to_owned(),
        direction: "ASC",
        sort_operator: "OPERATOR(pg_catalog.<)".to_owned(),
        equality_operator: "OPERATOR(pg_catalog.=)".to_owned(),
        nulls_first: false,
    }
}

fn slot(type_oid: u32) -> SlotType {
    SlotType {
        type_oid,
        typmod: -1,
        collation_oid: 0,
        nullable: true,
    }
}

fn sort_key(binding: u32) -> SortGroupExpr {
    SortGroupExpr {
        expr: ScalarExpr::Input {
            binding: BindingId(binding),
        },
        type_: slot(20),
        equality_operator_oid: 410,
        sort_operator_oid: 412,
        nulls_first: false,
        hashable: true,
    }
}

fn aggregate() -> AggregateExpr {
    AggregateExpr {
        ref_id: 1,
        output: SlotId(9),
        function_oid: 2108,
        input_collation_oid: 0,
        args: vec![],
        direct_args: vec![],
        distinct: vec![],
        filter: None,
        order_by: vec![],
        type_: slot(20),
    }
}

fn capability(strict: bool, literal: Option<&str>) -> AggregateCapability {
    AggregateCapability {
        transition_function: "\"pg_catalog\".\"int8_sum\"".to_owned(),
        transition_type: "numeric".to_owned(),
        transition_type_oid: 1700,
        transition_collation_oid: 0,
        transition_is_strict: strict,
        initial_literal: literal.map(str::to_owned),
        final_function: None,
    }
}

fn attribute(name: &str, number: i16, type_oid: u32) -> Attribute {
    Attribute {
        name: name.to_owned(),
        number,
        type_oid,
        typmod: -1,
        collation_oid: 0,
        not_null: true,
    }
}

fn compiled() -> Vec<CompiledAggregate> {
    vec![
        CompiledAggregate {
            order_by: vec!["(payload).a".to_owned()],
            distinct: vec!["(payload).b".to_owned(), "(payload).c".to_owned()],
        },
        CompiledAggregate {
            order_by: vec![],
            distinct: vec![],
        },
    ]
}

#[test]
fn aggregate_has_one_operator_input() {
    assert_eq!(validate_stage(Operator::Aggregate, 1, 1, &vec![input()]), Ok(()));
    assert_eq!(
        validate_stage(Operator::Join, 1, 1, &vec![input()]).unwrap_err(),
        "Aggregate executor received another operator"
    );
    for (aggregates, planned, inputs) in
        [(0, 1, vec![input()]), (1, 2, vec![input()]), (1, 1, vec![])]
    {
        assert_eq!(
            validate_stage(Operator::Aggregate, aggregates, planned, &inputs).unwrap_err(),
            "Aggregate must have one operator input and one aggregate"
        );
    }
}

#[test]
fn aggregate_starts_at_the_next_chunk() {
    let started =
        start_execute_continuation(&Some(chunk(ChunkKind::Data, 11)), 0, None).unwrap();
    assert_eq!(started.value, applying(0));
    assert!(!started.persisted);
    let waiting = Some(chunk(ChunkKind::Frontier, 11));
    let started = start_execute_continuation(&waiting, 1, None).unwrap();
    assert_eq!(started.value, frontier());
    let started = start_execute_continuation(&waiting, 1, Some(5)).unwrap();
    assert_eq!(
        started.value.phase,
        AggregatePhase::DrainRebuild {
            group_queue_id: 5,
            aggregate_ordinal: 1,
            after: AfterDrain::Frontier(position(0)),
        }
    );
    assert!(tries_page(started.value));
    assert!(!tries_page(rebuilding(5, 2)));
    assert_eq!(
        start_execute_continuation(&waiting, 0, None).unwrap_err(),
        "Aggregate dirty queue returned no summary"
    );
    assert_eq!(
        start_execute_continuation(&None, 1, None).unwrap_err(),
        "runnable Aggregate has no input chunk"
    );
}

#[test]
fn aggregate_cursor_stands_at_its_consumer() {
    assert_eq!(validate_cursor(machine(), applying(1), &input()), Ok(()));
    let mut other = input();
    other.stream_id = 9;
    assert_eq!(
        validate_cursor(machine(), applying(1), &other).unwrap_err(),
        "Aggregate continuation changed its input stream"
    );
    let mut later = input();
    later.next_chunk_seq = 12;
    assert_eq!(
        validate_cursor(machine(), applying(1), &later).unwrap_err(),
        "Aggregate continuation is not at its input cursor"
    );
    assert_eq!(
        validate_cursor(machine(), rebuilding(5, 3), &input()).unwrap_err(),
        "Aggregate ordinal is outside its plan"
    );
}

#[test]
fn aggregate_apply_opens_its_data_chunk() {
    let data = chunk(ChunkKind::Data, 11);
    assert_eq!(
        open_apply(Some(position(3)), &Some(data)),
        Ok((position(3), data))
    );
    assert_eq!(
        open_apply(None, &Some(data)).unwrap_err(),
        "Aggregate Apply omitted its input cursor"
    );
    assert_eq!(
        open_apply(Some(position(0)), &None).unwrap_err(),
        "Aggregate Apply references a missing input chunk"
    );
    assert_eq!(
        open_apply(Some(position(0)), &Some(chunk(ChunkKind::Frontier, 11))).unwrap_err(),
        "Aggregate Apply does not reference data"
    );
    assert_eq!(
        open_apply(Some(position(4)), &Some(data)).unwrap_err(),
        "Aggregate Apply row is outside its chunk"
    );
    assert!(measures_payload(position(0)) && !measures_payload(position(1)));
}

#[test]
fn aggregate_drains_before_it_forwards() {
    let data = chunk(ChunkKind::Data, 11);
    let target = |next_row, reached, following| {
        plan_target(7, &data, next_row, 5, reached, &following)
    };
    assert_eq!(
        target(2, false, None),
        Ok(ApplyTarget::Continue(position(2)))
    );
    assert_eq!(
        target(2, true, None),
        Ok(ApplyTarget::Drain {
            first_group_queue_id: 5,
            after: AfterDrain::Apply(position(2)),
        })
    );
    assert_eq!(target(4, false, None), Ok(ApplyTarget::Idle));
    assert_eq!(
        target(4, true, Some(chunk(ChunkKind::Data, 12))),
        Ok(ApplyTarget::Drain {
            first_group_queue_id: 5,
            after: AfterDrain::Idle,
        })
    );
    assert_eq!(
        target(4, false, Some(chunk(ChunkKind::Frontier, 12))),
        Ok(ApplyTarget::Drain {
            first_group_queue_id: 5,
            after: AfterDrain::Frontier(InputPosition::new(7, 12, 0).unwrap()),
        })
    );
    assert_eq!(
        target(5, false, None).unwrap_err(),
        "Aggregate Apply advanced beyond its input chunk"
    );
    let mut wide = data;
    wide.rows = u64::MAX;
    assert_eq!(
        plan_target(7, &wide, 2, 5, false, &None).unwrap_err(),
        "Aggregate chunk rows exceed bigint"
    );
}

#[test]
fn aggregate_chunk_is_consumed_once() {
    let data = chunk(ChunkKind::Data, 11);
    let commit = commit_apply(
        machine(),
        applying(0),
        &input(),
        &data,
        &applied(2),
        ApplyTarget::Continue(position(2)),
        budget(),
    )
    .unwrap();
    assert_eq!(commit.next, Some(applying(2)));
    assert_eq!(commit.advance, None);
    let commit = commit_apply(
        machine(),
        applying(2),
        &input(),
        &data,
        &applied(4),
        ApplyTarget::Idle,
        budget(),
    )
    .unwrap();
    assert_eq!(commit.next, None);
    assert_eq!(commit.advance.unwrap().next_chunk_seq, 12);
    assert_eq!(
        commit_apply(
            machine(),
            applying(2),
            &input(),
            &data,
            &applied(2),
            ApplyTarget::Continue(position(2)),
            budget(),
        )
        .unwrap_err(),
        "Aggregate Apply continuation did not advance its page"
    );
    assert_eq!(
        commit_apply(
            machine(),
            frontier(),
            &input(),
            &data,
            &applied(4),
            ApplyTarget::Idle,
            budget(),
        )
        .unwrap_err(),
        "database returned facts for another Aggregate phase"
    );
}

#[test]
fn aggregate_apply_summary_is_checked() {
    let row = ApplyRow {
        status: Some("ok".to_owned()),
        rows: Some(2),
        bytes: Some(20),
        next_row: Some(3),
        state_rows: Some(4),
    };
    let facts = decode_apply(1, &row, 1, 1).unwrap();
    assert_eq!((facts.next_row, facts.state_rows), (3, 5));
    assert_eq!(
        decode_apply(0, &row, 1, 1).unwrap_err(),
        "Aggregate Apply returned no summary"
    );
    assert_eq!(
        decode_apply(1, &row, 0, 1).unwrap_err(),
        "Aggregate Apply returned a discontinuous input page"
    );
    assert_eq!(
        decode_apply(1, &row, 1, u64::MAX).unwrap_err(),
        "Aggregate Apply state count overflowed"
    );
    assert_eq!(
        decode_apply(1, &row, i64::MAX, 1).unwrap_err(),
        "Aggregate input row overflow"
    );
    let mut broken = row.clone();
    broken.status = Some("negative".to_owned());
    assert_eq!(
        decode_apply(1, &broken, 1, 1).unwrap_err(),
        "Aggregate Apply multiplicity is negative"
    );
    broken.status = None;
    assert_eq!(
        decode_apply(1, &broken, 1, 1).unwrap_err(),
        "database returned NULL Aggregate Apply status"
    );
    broken = row;
    broken.rows = Some(0);
    assert_eq!(
        decode_apply(1, &broken, 1, 1).unwrap_err(),
        "Aggregate Apply made no bounded input progress"
    );
    assert_eq!(aggregate_nonnegative(3), Ok(3));
    assert_eq!(
        aggregate_nonnegative(-1).unwrap_err(),
        "Aggregate returned a negative count"
    );
    assert_eq!(
        required_count(None, "x").unwrap_err(),
        "database returned NULL x"
    );
    assert!(first_dirty_query("s.dirty").contains("s.dirty"));
    assert_eq!(decode_first_dirty(1, Some(5)), Ok(5));
    assert_eq!(
        decode_first_dirty(0, Some(5)).unwrap_err(),
        "Aggregate dirty queue returned no summary"
    );
    assert_eq!(
        decode_first_dirty(1, None).unwrap_err(),
        "database returned NULL Aggregate first dirty group"
    );
}

#[test]
fn aggregate_apply_statements_are_complete() {
    let compiled = compiled();
    let values = value_list(&compiled);
    assert_eq!(values.names.len(), 3);
    assert_eq!(values.expressions[1], "(payload).b");
    assert_eq!(values.names[0], value_column(1, "order", 0));
    assert_eq!(with_comma(&vec![]), "");
    assert_eq!(with_comma(&vec!["a".to_owned(), "b".to_owned()]), ",a,b");
    assert_eq!(group_columns(0), vec!["global_group".to_owned()]);
    assert_eq!(
        group_columns(2),
        vec!["group_1".to_owned(), "group_2".to_owned()]
    );
    for expressions in [vec![], vec!["(payload).g".to_owned()]] {
        let orders: Vec<BtreeOrder> = expressions.iter().map(|_| order()).collect();
        let sql = ApplySql {
            input: "s.input",
            groups: "s.groups",
            bag: "s.bag",
            dirty: "s.dirty",
            group_expressions: &expressions,
            group_orders: &orders,
            aggregates: &compiled,
            row_image: "source_row.payload",
        };
        let data = chunk(ChunkKind::Data, 11);
        for statement in [
            ensure_groups_statement(&sql, &data, 1, &budget()).unwrap(),
            apply_statement(&sql, &data, 1, &budget()).unwrap(),
        ] {
            assert!(complete(&statement.sql), "{}", statement.sql);
            assert!(statement.sql.contains("s.input") && statement.sql.contains("s.groups"));
            assert_eq!(statement.arguments[0], SqlValue::BigInt(Some(7)));
        }
        assert!(apply_statement(&sql, &data, 1, &WorkBudget::new(usize::MAX, 1, 1, 1)).is_err());
    }
}

#[test]
fn aggregate_page_is_bounded() {
    let row = SelectionRow {
        last_queue_id: Some(9),
        input_rows: Some(4),
        input_bytes: Some(100),
        causal_lsn: Some("0/46".to_owned()),
    };
    let selection = decode_selection(1, &row, &budget()).unwrap().unwrap();
    assert_eq!((selection.last_queue_id, selection.causal_lsn), (9, 70));
    let mut other = row.clone();
    other.input_rows = Some(5);
    assert_eq!(decode_selection(1, &other, &budget()), Ok(None));
    other = row.clone();
    other.last_queue_id = None;
    assert_eq!(decode_selection(1, &other, &budget()), Ok(None));
    other = row.clone();
    other.causal_lsn = None;
    assert_eq!(
        decode_selection(1, &other, &budget()).unwrap_err(),
        "Aggregate page omitted its causal LSN"
    );
    assert_eq!(
        decode_selection(0, &row, &budget()).unwrap_err(),
        "Aggregate group page returned no selection summary"
    );
    let page = decode_measurement(1, Some(3), Some(30), selection, &budget())
        .unwrap()
        .unwrap();
    assert_eq!((page.output_rows, page.output_bytes), (3, 30));
    assert_eq!(
        decode_measurement(1, Some(5), Some(30), selection, &budget()),
        Ok(None)
    );
    assert_eq!(
        decode_measurement(0, Some(3), Some(30), selection, &budget()).unwrap_err(),
        "Aggregate page action measurement returned no summary"
    );
    assert_eq!(validate_append(1, Some(3), Some(30), &page), Ok(()));
    assert_eq!(
        validate_append(0, Some(3), Some(30), &page).unwrap_err(),
        "Aggregate page append returned no summary"
    );
    for (rows, bytes) in [(2, 30), (3, 29)] {
        assert_eq!(
            validate_append(1, Some(rows), Some(bytes), &page).unwrap_err(),
            "Aggregate page append disagrees with its measurement"
        );
    }
    assert_eq!(decode_updated(Some(2)), Ok(2));
    assert_eq!(
        decode_updated(None).unwrap_err(),
        "database returned NULL Aggregate page updated groups"
    );
    assert_eq!(require_finished(2, 2), Ok(()));
    assert_eq!(
        require_finished(2, 1).unwrap_err(),
        "Aggregate page did not finish every selected group"
    );
    assert_eq!(finish_page(2, 2, 1), Ok(5));
    assert_eq!(
        finish_page(2, 2, u64::MAX).unwrap_err(),
        "Aggregate page state count overflowed"
    );
    let commit = commit_page(machine(), rebuilding(5, 1), &page, Some(10)).unwrap();
    assert_eq!(commit.next, Some(rebuilding(10, 1)));
    assert_eq!(commit.usage.output_rows, 3);
    assert_eq!(
        commit_page(machine(), rebuilding(5, 1), &page, None).unwrap().next,
        None
    );
    assert_eq!(
        commit_page(machine(), applying(0), &page, None).unwrap_err(),
        "Aggregate group page received another phase"
    );
    assert_eq!(decode_work_probe(Some(true)), Ok(true));
    assert_eq!(
        decode_work_probe(None).unwrap_err(),
        "database returned NULL Aggregate page work state"
    );
}

#[test]
fn aggregate_page_statements_are_complete() {
    let calls = vec![
        AggregateCall {
            function: "\"pg_catalog\".\"sum\"".to_owned(),
            arguments: vec!["(bag.row_image).a".to_owned()],
            distinct: false,
            order_by: vec![order()],
            filter: Some("(bag.row_image).ok".to_owned()),
        },
        AggregateCall {
            function: "\"pg_catalog\".\"count\"".to_owned(),
            arguments: vec!["(bag.row_image).b".to_owned()],
            distinct: true,
            order_by: vec![],
            filter: None,
        },
    ];
    let page = GroupPage {
        last_queue_id: 9,
        causal_lsn: 70,
        input_rows: 4,
        input_bytes: 100,
        output_rows: 3,
        output_bytes: 30,
    };
    for values in [vec![], vec!["(representative.row_image).g".to_owned()]] {
        let sql = PageSql {
            bag: "s.bag",
            groups: "s.groups",
            dirty: "s.dirty",
            output_type: "s.row",
            output_key: "s.key(output_row)",
            group_values: &values,
            aggregates: &calls,
        };
        let desired = desired_sql(&sql);
        assert!(complete(&desired), "{desired}");
        assert!(desired.contains("DISTINCT (bag.row_image).b"), "{desired}");
        assert!(desired.contains("(bag.row_image).ok"), "{desired}");
        for statement in [
            selection_statement(sql.dirty, sql.bag, 5, &budget()).unwrap(),
            action_measurement(&sql, 5, 9),
            append_statement(
                &sql,
                "s.output",
                5,
                &page,
                &output(),
                OutputAppendTarget::New { sequence: 3 },
            )
            .unwrap(),
            publish_statement(&sql, 5, 9),
            dequeue_statement("s.dirty", 5, 9),
            work_probe("s.work", "s.dirty", 5),
        ] {
            assert!(complete(&statement.sql), "{}", statement.sql);
            assert!(statement.arguments.contains(&SqlValue::BigInt(Some(5))));
        }
    }
    let cleanup = cleanup_query("s.groups", "s.bag");
    assert!(complete(&cleanup) && cleanup.contains("s.groups") && cleanup.contains("s.bag"));
    assert_eq!(aggregate_function_statement(2108).arguments, vec![SqlValue::Oid(2108)]);
    assert_eq!(
        aggregate_function_name(2108, 1, Some("sum".to_owned())),
        Ok("sum".to_owned())
    );
    assert!(aggregate_function_name(2108, 0, None)
        .unwrap_err()
        .starts_with("Aggregate function OID 2108"));
}

#[test]
fn aggregate_rebuild_statements_are_complete() {
    let order = aggregate_rebuild_order(&vec![
        RebuildKey {
            column: "aggregate_1_order_1".to_owned(),
            order: order(),
        },
        RebuildKey {
            column: "aggregate_1_order_2".to_owned(),
            order: BtreeOrder {
                nulls_first: true,
                ..self::order()
            },
        },
    ]);
    assert_eq!(order.columns.len(), 2);
    let plain = aggregate_rebuild_order(&vec![]);
    let arguments = vec!["(bag.row_image).a".to_owned()];
    let distinct = vec!["OPERATOR(pg_catalog.=)".to_owned()];
    let none: Vec<String> = vec![];
    for strict in [false, true] {
        for literal in [None, Some("0")] {
            for distinct in [&none, &distinct] {
                for order in [&order, &plain] {
                    let capability = capability(strict, literal);
                    let statement = rebuild_statement(
                        &RebuildSql {
                            capability: &capability,
                            bag: "s.bag",
                            dirty: "s.dirty",
                            work: "s.work",
                            ordinal: 1,
                            distinct,
                            order,
                            arguments: &arguments,
                            filter: "true",
                        },
                        5,
                        &budget(),
                    )
                    .unwrap();
                    assert!(complete(&statement.sql), "{}", statement.sql);
                    assert_eq!(statement.arguments[0], SqlValue::BigInt(Some(5)));
                }
            }
            let initialize =
                initialize_statement("s.work", "s.dirty", "0::numeric", &capability(strict, literal), 5);
            assert!(complete(&initialize.sql), "{}", initialize.sql);
        }
    }
    let strict = capability(true, None);
    assert_eq!(
        rebuild_statement(
            &RebuildSql {
                capability: &strict,
                bag: "s.bag",
                dirty: "s.dirty",
                work: "s.work",
                ordinal: 1,
                distinct: &none,
                order: &plain,
                arguments: &none,
                filter: "true",
            },
            5,
            &budget(),
        )
        .unwrap_err(),
        "strict Aggregate with NULL initial state has no argument"
    );
    assert_eq!(filter_sql(&None), "true");
    assert!(filter_sql(&Some("f".to_owned())).contains('f'));
    assert!(complete(&key_ordering_sql("k", &self::order())));
    assert_ne!(cursor_column(0), cursor_column(1));
    let matched = aggregate_group_match("l", "r", &vec![self::order(), self::order()]);
    assert!(complete(&matched) && matched.contains("group_2"), "{matched}");
    assert!(aggregate_same_value(&sort_key(1), &sort_key(1)));
    assert!(!aggregate_same_value(&sort_key(1), &sort_key(2)));
}

#[test]
fn aggregate_rebuild_folds_every_aggregate() {
    let target = locate_rebuild(rebuilding(5, 2), 2).unwrap();
    assert_eq!((target.group_queue_id, target.aggregate_index), (5, 1));
    assert_eq!(
        locate_rebuild(rebuilding(5, 3), 2).unwrap_err(),
        "Aggregate rebuild ordinal exceeds its plan"
    );
    assert_eq!(
        locate_rebuild(applying(0), 2).unwrap_err(),
        "Aggregate rebuild received another phase"
    );
    assert_eq!(output_attribute(3, 1, 1), Ok(2));
    assert_eq!(
        output_attribute(2, 1, 1).unwrap_err(),
        "Aggregate output attribute is missing"
    );
    let row = RebuildRow {
        status: Some("ok".to_owned()),
        rows: Some(2),
        bytes: Some(20),
        last_row_id: Some(6),
        complete: Some(true),
        mutations: Some(1),
    };
    let facts = decode_rebuild(1, &row).unwrap();
    let commit = commit_rebuild(machine(), rebuilding(5, 1), 1, &facts, budget()).unwrap();
    assert_eq!(commit.next, Some(rebuilding(5, 2)));
    assert_eq!(commit.facts.state_rows, 2);
    let commit = commit_rebuild(machine(), rebuilding(5, 2), 0, &facts, budget()).unwrap();
    assert_eq!(commit.next, Some(emitting(5, EmitLeg::Decide)));
    let mut partial = row.clone();
    partial.complete = Some(false);
    let facts = decode_rebuild(1, &partial).unwrap();
    let commit = commit_rebuild(machine(), rebuilding(5, 1), 0, &facts, budget()).unwrap();
    assert_eq!(commit.next, Some(rebuilding(5, 1)));
    assert_eq!(
        commit_rebuild(machine(), rebuilding(5, 1), u64::MAX, &facts, budget()).unwrap_err(),
        "Aggregate rebuild state count overflowed"
    );
    let mut broken = row.clone();
    broken.status = Some("overflow".to_owned());
    assert_eq!(
        decode_rebuild(1, &broken).unwrap_err(),
        "Aggregate rebuild returned overflow"
    );
    broken = row.clone();
    broken.last_row_id = None;
    assert_eq!(
        decode_rebuild(1, &broken).unwrap_err(),
        "Aggregate rebuild row cursor is inconsistent"
    );
    broken = row.clone();
    broken.mutations = Some(0);
    assert_eq!(
        decode_rebuild(1, &broken).unwrap_err(),
        "Aggregate rebuild did not mutate its work state"
    );
    assert_eq!(
        decode_rebuild(0, &row).unwrap_err(),
        "Aggregate rebuild returned no page summary"
    );
    assert_eq!(validate_initialized(1), Ok(()));
    assert_eq!(validate_initialized(0), Ok(()));
    assert_eq!(
        validate_initialized(2).unwrap_err(),
        "Aggregate rebuild initialized multiple work rows"
    );
}

#[test]
fn aggregate_work_relation_is_typed() {
    let capability = capability(false, None);
    let mut work = vec![
        attribute("group_state_id", 1, 20),
        attribute("transition_state", 2, 1700),
        attribute("no_trans_value", 3, 16),
    ];
    assert_eq!(validate_work(&work, &capability), Ok(()));
    work[1].type_oid = 20;
    assert_eq!(
        validate_work(&work, &capability).unwrap_err(),
        "Aggregate rebuild work relation changed its typed ABI"
    );
    work.pop();
    assert_eq!(
        validate_work(&work, &capability).unwrap_err(),
        "Aggregate work relation omitted no-transition state"
    );
    work.pop();
    assert_eq!(
        validate_work(&work, &capability).unwrap_err(),
        "Aggregate work relation omitted transition state"
    );
}

#[test]
fn output_decisions_are_recognised_by_name() {
    let decided = |name: &str| decode_decision(1, &Some(name.to_owned()));
    assert_eq!(decided("unchanged"), Ok(OutputDecision::Unchanged));
    assert_eq!(decided("insert"), Ok(OutputDecision::Insert));
    assert_eq!(decided("delete"), Ok(OutputDecision::Delete));
    assert_eq!(decided("replace"), Ok(OutputDecision::Replace));
    assert_eq!(
        decided("other").unwrap_err(),
        "Aggregate returned unknown output decision \"other\""
    );
    assert_eq!(
        decided("a\"b\n").unwrap_err(),
        "Aggregate returned unknown output decision \"a\\\"b\\n\""
    );
    assert_eq!(
        decode_decision(0, &None).unwrap_err(),
        "Aggregate emission has no unique group state"
    );
    assert_eq!(
        decode_decision(1, &None).unwrap_err(),
        "database returned NULL Aggregate output decision"
    );
    assert_eq!(parse_decision("Insert"), None);
    assert_eq!(emission_source(OutputDecision::Unchanged), None);
    assert_eq!(
        emission_source(OutputDecision::Insert),
        Some(EmitSource::Desired)
    );
    assert_eq!(
        emission_source(OutputDecision::Delete),
        Some(EmitSource::Published)
    );
    assert_eq!(
        emission_source(OutputDecision::Replace),
        Some(EmitSource::ReplacementRetraction)
    );
}

#[test]
fn aggregate_emission_statements_are_complete() {
    let works = vec!["s.work_1".to_owned(), "s.work_2".to_owned()];
    let finals = vec![None, Some("\"pg_catalog\".\"numeric_avg\"".to_owned())];
    for values in [vec![], vec!["(representative.row_image).g".to_owned()]] {
        let expression = aggregate_output_expression(&OutputSql {
            dirty: "s.dirty",
            bag: "s.bag",
            output_type: "s.row",
            output_key: "s.key(output_row)",
            group_values: &values,
            works: &works,
            finals: &finals,
        });
        for sql in [&expression.present, &expression.row, &expression.key] {
            assert!(complete(sql), "{sql}");
        }
        assert!(expression.row.contains("s.work_2"), "{}", expression.row);
        assert!(expression.row.contains("numeric_avg"), "{}", expression.row);
        let decision = decision_statement("s.groups", "s.dirty", &expression, 5);
        assert!(complete(&decision.sql), "{}", decision.sql);
        for (source, weight) in [
            (EmitSource::Desired, 1),
            (EmitSource::Published, -1),
            (EmitSource::ReplacementRetraction, -1),
            (EmitSource::Pending, 1),
        ] {
            let statement = emission_statement(
                &EmissionSql {
                    groups: "s.groups",
                    dirty: "s.dirty",
                    payload: "s.output",
                    source,
                    expression: &expression,
                },
                5,
                &output(),
            );
            assert!(complete(&statement.sql), "{}", statement.sql);
            assert_eq!(
                statement.arguments,
                [5, 8, 3, weight]
                    .iter()
                    .map(|value| SqlValue::BigInt(Some(*value)))
                    .collect::<Vec<SqlValue>>()
            );
        }
    }
    for statement in [
        unchanged_statement("s.groups", "s.dirty", 5),
        discard_statement("s.work", "s.dirty", 5),
        finish_statement("s.dirty", 5),
        tombstone_statement("s.groups", "s.bag", 5),
    ] {
        assert!(complete(&statement.sql), "{}", statement.sql);
        assert_eq!(statement.arguments, vec![SqlValue::BigInt(Some(5))]);
    }
}

#[test]
fn aggregate_emission_appends_one_row() {
    let target = locate_emission(emitting(5, EmitLeg::Decide), 3, 1, 2).unwrap();
    assert_eq!((target.group_queue_id, target.leg), (5, EmitLeg::Decide));
    assert_eq!(
        locate_emission(emitting(5, EmitLeg::Decide), 2, 1, 2).unwrap_err(),
        "Aggregate output payload changed ABI"
    );
    assert_eq!(
        locate_emission(applying(0), 3, 1, 2).unwrap_err(),
        "Aggregate emission received another phase"
    );
    let row = EmissionRow {
        bytes: Some(9),
        causal_lsn: Some("0/46".to_owned()),
        inserted: Some(1),
        updated: Some(1),
    };
    assert_eq!(decode_emission(1, &row, &output()), Ok(one_row()));
    let mut broken = row.clone();
    broken.inserted = Some(0);
    assert_eq!(
        decode_emission(1, &broken, &output()).unwrap_err(),
        "Aggregate typed output append is inconsistent"
    );
    assert_eq!(
        decode_emission(2, &row, &output()).unwrap_err(),
        "Aggregate emission did not produce one summary"
    );
    broken = row;
    broken.causal_lsn = None;
    assert_eq!(
        decode_emission(1, &broken, &output()).unwrap_err(),
        "database returned NULL Aggregate output LSN"
    );
    assert_eq!(require_aggregate_one(1, "publish"), Ok(()));
    assert_eq!(
        require_aggregate_one(0, "publish").unwrap_err(),
        "Aggregate failed to publish"
    );
    assert_eq!(decode_finished(1, Some(5), Some(6), 5), Ok(6));
    assert_eq!(
        decode_finished(1, Some(4), Some(6), 5).unwrap_err(),
        "Aggregate did not remove one completed dirty group"
    );
    assert_eq!(finished_rows(1), Ok(2));
    assert_eq!(
        finished_rows(2).unwrap_err(),
        "Aggregate deleted multiple group tombstones"
    );
    assert_eq!(decode_next_dirty(1, Some(6), 5), Ok(Some(6)));
    assert_eq!(decode_next_dirty(1, None, 5), Ok(None));
    assert!(decode_next_dirty(1, Some(5), 5).is_err());
    assert!(decode_next_dirty(0, None, 5).is_err());
}

#[test]
fn aggregate_replacement_takes_two_transactions() {
    let at = emitting(5, EmitLeg::Decide);
    let commit = commit_decision(
        machine(),
        at,
        OutputDecision::Unchanged,
        &None,
        1,
        Some(6),
        2,
        budget(),
    )
    .unwrap();
    assert_eq!(commit.next, Some(rebuilding(6, 1)));
    assert_eq!((commit.facts.state_rows, commit.facts.output), (4, OutputFacts::Nothing));
    let commit = commit_decision(
        machine(),
        at,
        OutputDecision::Replace,
        &Some(one_row()),
        2,
        None,
        0,
        budget(),
    )
    .unwrap();
    assert_eq!(commit.next, Some(emitting(5, EmitLeg::InsertPending)));
    assert_eq!(commit.facts.output, OutputFacts::Data { chunk_seq: 3 });
    let pending = emitting(5, EmitLeg::InsertPending);
    let commit = commit_pending(machine(), pending, one_row(), None, 2, budget()).unwrap();
    assert_eq!(commit.next, None);
    assert_eq!(
        commit_decision(machine(), at, OutputDecision::Unchanged, &Some(one_row()), 1, None, 2, budget())
            .unwrap_err(),
        "unchanged Aggregate group emitted an effect"
    );
    assert_eq!(
        commit_decision(machine(), at, OutputDecision::Insert, &None, 1, None, 2, budget())
            .unwrap_err(),
        "Aggregate emission must contain exactly one typed effect row"
    );
    assert_eq!(
        commit_decision(
            machine(),
            at,
            OutputDecision::Insert,
            &Some(one_row()),
            u64::MAX,
            None,
            0,
            budget()
        )
        .unwrap_err(),
        "Aggregate emission state count overflowed"
    );
    assert_eq!(
        commit_pending(machine(), pending, one_row(), Some(5), 2, budget()).unwrap_err(),
        "Aggregate dirty-group queue did not advance"
    );
    assert!(commit_pending(machine(), at, one_row(), None, 2, budget()).is_err());
}

#[test]
fn aggregate_frontier_needs_a_drained_queue() {
    let head = chunk(ChunkKind::Frontier, 11);
    assert_eq!(open_frontier(Some(position(0)), &Some(head)), Ok(head));
    assert_eq!(
        open_frontier(None, &Some(head)).unwrap_err(),
        "Aggregate frontier omitted its input cursor"
    );
    assert_eq!(
        open_frontier(Some(position(0)), &None).unwrap_err(),
        "Aggregate frontier references a missing input chunk"
    );
    assert_eq!(
        open_frontier(Some(position(0)), &Some(chunk(ChunkKind::Data, 11))).unwrap_err(),
        "Aggregate frontier continuation is invalid"
    );
    assert_eq!(
        queue_empty_query("s.dirty"),
        "SELECT NOT EXISTS(SELECT 1 FROM s.dirty)"
    );
    assert_eq!(require_drained(Some(true)), Ok(()));
    assert_eq!(
        require_drained(Some(false)).unwrap_err(),
        "Aggregate attempted to forward a frontier before draining"
    );
    assert_eq!(
        materialized_query("s.groups"),
        "SELECT EXISTS(SELECT 1 FROM s.groups)"
    );
    assert_eq!(queues_global_group(1, Some(false)), Ok(false));
    assert_eq!(queues_global_group(0, Some(true)), Ok(false));
    assert_eq!(queues_global_group(0, Some(false)), Ok(true));
    let queued = global_group_statement("s.groups", "s.dirty", 70);
    assert!(complete(&queued.sql), "{}", queued.sql);
    assert_eq!(queued.arguments, vec![SqlValue::Text(Some("0/46".to_owned()))]);
    let commit = commit_global_group(machine(), frontier(), 1, Some(5), budget()).unwrap();
    assert_eq!(
        commit.next.unwrap().phase,
        AggregatePhase::DrainRebuild {
            group_queue_id: 5,
            aggregate_ordinal: 1,
            after: AfterDrain::Frontier(position(0)),
        }
    );
    let commit = commit_frontier(
        machine(),
        frontier(),
        &head,
        OutputFacts::Frontier { chunk_seq: 3 },
        budget(),
    )
    .unwrap();
    assert_eq!(commit.next, None);
    assert_eq!(commit.advance.unwrap().frontier_lsn, 70);
    assert_eq!(
        commit_frontier(machine(), frontier(), &head, OutputFacts::Nothing, budget()).unwrap_err(),
        "Aggregate frontier commit is inconsistent"
    );
}

#[test]
fn aggregate_provision_checks_its_plan() {
    assert_eq!(
        validate_provision(Operator::Aggregate, 9, 1, &vec![5], 6, &vec![aggregate()]),
        Ok(())
    );
    assert_eq!(
        validate_provision(Operator::Join, 9, 1, &vec![5], 6, &vec![aggregate()]).unwrap_err(),
        "Aggregate provisioner received another operator"
    );
    assert!(validate_provision(Operator::Aggregate, 9, 1, &vec![5], 6, &vec![])
        .unwrap_err()
        .starts_with("Aggregate stage 1"));
    let attributes = vec![attribute("g", 1, 25), attribute("sum", 2, 20)];
    assert_eq!(
        validate_payload(&attributes, &vec![slot(25)], &vec![aggregate()]),
        Ok(())
    );
    assert_eq!(
        validate_payload(&attributes, &vec![slot(20)], &vec![aggregate()]).unwrap_err(),
        "Aggregate output payload does not match its plan schema"
    );
    assert!(work_slot(0).unwrap() < work_slot(1).unwrap());
    assert_eq!(
        work_slot(usize::MAX).unwrap_err(),
        "Aggregate work slot exceeds integer"
    );
    assert_eq!(validate_function(2108), Ok(()));
    assert_eq!(
        validate_function(0).unwrap_err(),
        "Aggregate function OID is invalid"
    );
    assert_eq!(transition_slot(&capability(false, None)).type_oid, 1700);
    assert_ne!(
        aggregate_name("aggregate_work", 9, 1, 1),
        aggregate_name("aggregate_work", 9, 1, 2)
    );
    let keys = vec![RebuildKey {
        column: "aggregate_1_order_1".to_owned(),
        order: order(),
    }];
    for sql in [
        groups_body(&vec![], "s.row"),
        groups_body(&vec!["bigint".to_owned()], "s.row"),
        groups_index(9, 1, "s.groups", &vec![order()]),
        groups_index(9, 1, "s.groups", &vec![]),
        bag_body("s.groups", "s.row", &vec![]),
        bag_index(9, 1, "s.bag"),
        order_index(9, 1, 1, "s.bag", &keys),
        work_body("s.groups", "numeric", &vec![], &vec!["bigint".to_owned()]),
        dirty_body("s.groups"),
        create_continuation("s.c", 2),
    ] {
        assert!(complete(&sql), "{sql}");
    }
}

#[test]
fn aggregate_cursor_is_read_back() {
    for value in [
        applying(2),
        rebuilding(5, 2),
        emitting(5, EmitLeg::InsertPending),
        frontier(),
        AggregateContinuation {
            input_stream_id: 7,
            input: None,
            phase: AggregatePhase::DrainEmit {
                group_queue_id: 5,
                leg: EmitLeg::Decide,
                after: AfterDrain::Apply(position(2)),
            },
        },
    ] {
        let fields = encode_execute_fields(value).unwrap();
        assert_eq!(decode_execute_fields(fields), Ok(value));
        let row = AggregateRow {
            phase: Some(fields.phase),
            input_stream_id: Some(fields.input_stream_id),
            input_chunk_seq: fields.input_chunk_seq,
            input_row_ordinal: fields.input_row_ordinal,
            group_queue_id: fields.group_queue_id,
            aggregate_ordinal: fields.aggregate_ordinal,
            emit_leg: fields.emit_leg,
            after_kind: fields.after_kind,
            after_chunk_seq: fields.after_chunk_seq,
            after_row_ordinal: fields.after_row_ordinal,
        };
        let stored = StoredAggregate {
            value,
            persisted: true,
        };
        assert_eq!(load_execute_continuation(1, &row), Ok(Some(stored)));
        assert_eq!(load_execute_continuation(0, &row), Ok(None));
        assert!(load_execute_continuation(2, &row)
            .unwrap_err()
            .starts_with("Aggregate continuation relation contains 2 rows"));
        let replaced = replace_execute_continuation("s.c", &stored, &Some(applying(3))).unwrap();
        assert_eq!(
            replaced.delete.unwrap().arguments.len(),
            continuation_columns().len() - 1
        );
        assert!(replaced.insert.is_some());
        let mut broken = fields;
        broken.phase = 9;
        assert_eq!(
            decode_execute_fields(broken).unwrap_err(),
            "Aggregate continuation fields do not encode one phase"
        );
    }
    let mut partial = encode_execute_fields(applying(2)).unwrap();
    partial.input_row_ordinal = None;
    assert_eq!(
        decode_execute_fields(partial).unwrap_err(),
        "Aggregate continuation has a partial input cursor"
    );
    assert_eq!(
        encode_execute_fields(rebuilding(5, u32::MAX)).unwrap_err(),
        "Aggregate ordinal exceeds integer"
    );
    assert!(complete(&load_query("s.c")) && load_query("s.c").contains("s.c"));
}
