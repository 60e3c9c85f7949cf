use shiba::config::{
    format_kilobytes, ingress_batch_rows, integer_settings, max_cached_dataflows,
    runtime_temp_file_limit_kb, runtime_work_mem_kb, stage_admission_byte_interval_cap,
    stage_admission_row_interval_cap, stage_admission_rows, stage_chunk_bytes, SettingUnit,
};
use shiba::database::{
    database_nonnegative, nonnegative, optional_nonnegative, require_count, require_summary,
    required, required_nonnegative, to_bigint,
};
use shiba::execution::abi::{has_exact_columns, has_type, ordinal_column};
use shiba::execution::btree::{
    capability_key, capability_statement, capability_types, decode, nulls_text, CapabilityRow,
};
use shiba::execution::continuation::{
    clear_locked, clear_query, deleted_old, inserted_next, lock_one, lock_query, parameter_sql,
    replace_cas, validate_abi, Attribute, Column,
};
use shiba::execution::contract::{
    crossed_admission_threshold, AdmissionProgress, InputPosition, KernelPhase, OutputFacts,
    PageFacts, PrimitiveFacts,
};
use shiba::execution::dispatcher::{
    dispatch, kernel, kernel_contract, locate_stage, InputContract, Kernel,
};
use shiba::execution::aggregate::machine::AggregatePhase;
use shiba::execution::distinct::machine::DistinctPhase;
use shiba::execution::provision::{
    create_table, definition, numbered_columns, relation_name, revoke_public, stage_message,
};
use shiba::execution::stream::{
    advance_past_data, advance_past_frontier, attribute_matches_slot, budget_bigint, minimum,
    ChunkKind, ChunkMeta, OutputAppendTarget,
};
use shiba::planner::{
    BindingId, Operator, ScalarExpr, SlotType, SortGroupExpr, WorkBudget, WorkUsage,
};
use shiba::postgres::{format_lsn, parse_lsn, quote_identifier};
use shiba::sql::{SqlValue, Statement};
use shiba::text::{
    characters, join, numbered_names, render, same_text, signed_text, unsigned_text, Holes,
};

fn attribute(name: &str, number: i16, type_oid: u32, not_null: bool) -> Attribute {
    Attribute {
        name: name.to_owned(),
        number,
        type_oid,
        typmod: -1,
        collation_oid: 0,
        not_null,
    }
}

fn slot(type_oid: u32) -> SlotType {
    SlotType {
        type_oid,
        typmod: -1,
        collation_oid: 0,
        nullable: true,
    }
}

fn order(nulls_first: bool) -> SortGroupExpr {
    SortGroupExpr {
        expr: ScalarExpr::Input {
            binding: BindingId(1),
        },
        type_: slot(23),
        equality_operator_oid: 96,
        sort_operator_oid: 97,
        nulls_first,
        hashable: true,
    }
}

fn capability() -> CapabilityRow {
    CapabilityRow {
        actual_type: Some(23),
        opclass_input_type: Some(23),
        opclass_namespace: Some("pg_catalog".to_owned()),
        opclass_name: Some("int4_ops".to_owned()),
        sort_strategy: Some(1),
        sort_operator: Some("OPERATOR(pg_catalog.<)".to_owned()),
        equality_operator: Some("OPERATOR(pg_catalog.=)".to_owned()),
    }
}

fn chunk(kind: ChunkKind) -> ChunkMeta {
    ChunkMeta {
        stream_id: 3,
        sequence: 8,
        kind,
        rows: 2,
        bytes: 30,
        lsn: 77,
    }
}

fn budget() -> WorkBudget {
    WorkBudget::new(2, 10, 2, 10)
}

fn usage(input_rows: u64, input_bytes: u64, output_rows: u64, output_bytes: u64) -> WorkUsage {
    WorkUsage {
        input_rows,
        input_bytes,
        output_rows,
        output_bytes,
    }
}

#[test]
fn numbers_are_written_in_decimal() {
    assert_eq!(unsigned_text(0), "0");
    assert_eq!(unsigned_text(u64::MAX), "18446744073709551615");
    assert_eq!(signed_text(i64::MIN), "-9223372036854775808");
    assert_eq!(signed_text(-10), "-10");
    assert_eq!(signed_text(i64::MAX), "9223372036854775807");
}

#[test]
fn lists_are_joined_between_items_only() {
    assert_eq!(join(&vec![], ","), "");
    assert_eq!(join(&numbered_names("k", 1, 1), ","), "k1");
    assert_eq!(join(&numbered_names("k", 3, 3), ", "), "k3, k4, k5");
    assert!(same_text("a", "a"));
    assert!(!same_text("a", "A"));
    assert!(!same_text("a", "ab"));
    assert_eq!(characters("aé"), vec!['a', 'é']);
}

#[test]
fn templates_take_the_latest_binding() {
    let holes = Holes::new().bind("a", "1").bind("b", "{a}").bind("a", "2");
    assert_eq!(render("{a}-{b}-{c}-{", holes), "2-{a}-{c}-{");
    assert_eq!(render("", Holes::new()), "");
}

#[test]
fn quoting_keeps_names_apart() {
    assert_eq!(quote_identifier("plain"), "\"plain\"");
    assert_eq!(quote_identifier("a\"b"), "\"a\"\"b\"");
    assert_eq!(quote_identifier(""), "\"\"");
    assert_ne!(quote_identifier("a\".\"b"), "\"a\".\"b\"");
}

#[test]
fn log_positions_are_read_back() {
    for lsn in [0, 1, 0xFFFF_FFFF, 0x1_0000_0000, 0x16_B374_D848, u64::MAX] {
        assert_eq!(parse_lsn(&format_lsn(lsn)), Ok(lsn));
    }
    assert_eq!(format_lsn(0x16_B374_D848), "16/B374D848");
    for malformed in ["", "/", "1", "1/", "/1", "1/2/3", "1/G", "100000000/0", "-1/0", " 1/0"] {
        let error = parse_lsn(malformed).expect_err(malformed);
        assert_eq!(error, format!("malformed LSN \"{malformed}\""));
    }
    assert_eq!(parse_lsn("a/b"), Ok(0xA_0000_000B));
}

#[test]
fn database_values_are_required_and_counted() {
    assert_eq!(required(Some(3), "x"), Ok(3));
    assert_eq!(
        required::<i64>(None, "x"),
        Err("database returned NULL x".to_owned())
    );
    assert_eq!(require_count(1, 1, "x"), Ok(()));
    assert_eq!(
        require_count(2, 1, "x"),
        Err("x returned 2 rows, expected 1".to_owned())
    );
    assert_eq!(require_summary(1, "m"), Ok(()));
    assert_eq!(require_summary(0, "m"), Err("m".to_owned()));
    assert_eq!(nonnegative(0, "x"), Ok(0));
    assert_eq!(nonnegative(-1, "x"), Err("x is negative".to_owned()));
    assert_eq!(
        database_nonnegative(-1, "x"),
        Err("database returned negative x".to_owned())
    );
    assert_eq!(required_nonnegative(Some(4), "x"), Ok(4));
    assert!(required_nonnegative(None, "x").is_err());
    assert!(required_nonnegative(Some(-4), "x").is_err());
    assert_eq!(optional_nonnegative(None, "x"), Ok(None));
    assert_eq!(optional_nonnegative(Some(4), "x"), Ok(Some(4)));
    assert!(optional_nonnegative(Some(-4), "x").is_err());
    assert_eq!(to_bigint(i64::MAX as u64, "m"), Ok(i64::MAX));
    assert_eq!(to_bigint(i64::MAX as u64 + 1, "m"), Err("m".to_owned()));
}

#[test]
fn statements_keep_their_arguments_in_order() {
    let statement = Statement::new("SELECT $1".to_owned())
        .bigint(-1)
        .text("a")
        .oid(5)
        .boolean(true)
        .with(SqlValue::SmallInt(None));
    assert_eq!(statement.sql, "SELECT $1");
    assert_eq!(
        statement.arguments,
        vec![
            SqlValue::BigInt(Some(-1)),
            SqlValue::Text(Some("a".to_owned())),
            SqlValue::Oid(5),
            SqlValue::Boolean(Some(true)),
            SqlValue::SmallInt(None),
        ]
    );
    let types: Vec<u32> = statement.arguments.iter().map(SqlValue::type_oid).collect();
    assert_eq!(types, vec![20, 25, 26, 16, 21]);
    assert_eq!(SqlValue::Integer(Some(1)).type_oid(), 23);
    assert_eq!(SqlValue::OidArray(vec![1]).type_oid(), 1028);
}

#[test]
fn settings_lie_inside_their_ranges() {
    let settings = integer_settings();
    assert_eq!(settings.len(), 12);
    for setting in &settings {
        assert!(setting.name.starts_with("shiba."), "{}", setting.name);
        assert!(setting.minimum <= setting.default, "{}", setting.name);
        assert!(setting.default <= setting.maximum, "{}", setting.name);
    }
    assert_eq!(settings[0].name, "shiba.runtime_work_mem");
    assert_eq!(settings[0].unit, SettingUnit::Kilobytes);
    assert_eq!(settings[11].name, "shiba.ingress_retention");
    assert_eq!(settings[11].unit, SettingUnit::Milliseconds);
}

#[test]
fn settings_are_read_as_sizes() {
    assert_eq!(runtime_work_mem_kb(4096), 4096);
    assert_eq!(runtime_temp_file_limit_kb(1024), 1024);
    assert_eq!(max_cached_dataflows(2), 2);
    assert_eq!(stage_chunk_bytes(1 << 20), 1 << 20);
    assert_eq!(stage_admission_rows(4096), 4096);
    assert_eq!(ingress_batch_rows(1000), 1000);
    assert_eq!(format_kilobytes(4096), "4096kB");
    assert!(stage_admission_row_interval_cap() > 0);
    assert!(stage_admission_byte_interval_cap() > stage_admission_row_interval_cap());
}

#[test]
fn every_operator_has_its_kernel() {
    assert_eq!(kernel(Operator::Scan), Kernel::Scan);
    assert_eq!(kernel(Operator::Filter), Kernel::Transform);
    assert_eq!(kernel(Operator::Project), Kernel::Transform);
    assert_eq!(kernel(Operator::TopN), Kernel::TopN);
    let stages = vec![Operator::Scan, Operator::Join];
    assert_eq!(dispatch(1, &stages), Ok(Kernel::Join));
    assert_eq!(dispatch(2, &stages), Err("dataflow has no stage 2".to_owned()));
    assert_eq!(locate_stage(0, &stages, "Join "), Ok(Operator::Scan));
    assert_eq!(
        locate_stage(7, &stages, "Join "),
        Err("dataflow has no Join stage 7".to_owned())
    );
}

#[test]
fn stages_have_relations_of_their_own() {
    assert_eq!(relation_name("agg", 12, 3), "agg_r12_s3");
    assert_ne!(relation_name("agg", 1, 23), relation_name("agg", 12, 3));
    assert_ne!(relation_name("agg", 12, -3), relation_name("agg", 12, 3));
    assert_eq!(create_table("s.t", "a int"), "CREATE TABLE s.t(a int)");
    assert_eq!(revoke_public("s.t"), "REVOKE ALL ON TABLE s.t FROM PUBLIC");
    assert_eq!(definition("a", "int"), "\"a\" int");
    assert_eq!(stage_message("stage ", 4, " failed"), "stage 4 failed");
    assert_eq!(
        numbered_columns("k", &vec!["int".to_owned(), "text".to_owned()]),
        "\"k1\" int,\"k2\" text"
    );
    assert_eq!(ordinal_column("arg", 1), "arg2");
}

#[test]
fn continuation_columns_are_exact() {
    let columns = vec![
        Column::required("singleton", 16),
        Column::nullable("row_id", 20),
        Column::nullable_as("lsn", 3220, "pg_lsn"),
    ];
    let mut attributes = vec![
        attribute("singleton", 1, 16, true),
        attribute("row_id", 2, 20, false),
        attribute("lsn", 3, 3220, false),
    ];
    assert_eq!(validate_abi(&attributes, &columns, "Join"), Ok(()));
    attributes[1].not_null = true;
    assert_eq!(
        validate_abi(&attributes, &columns, "Join"),
        Err("Join continuation relation has an invalid ABI".to_owned())
    );
    attributes.pop();
    assert!(validate_abi(&attributes, &columns, "Join").is_err());
    assert_eq!(parameter_sql(1, &columns[1]), "$1");
    assert_eq!(parameter_sql(2, &columns[2]), "$2::pg_lsn");
}

#[test]
fn continuation_is_replaced_by_comparison() {
    let columns = vec![
        Column::required("singleton", 16),
        Column::required("phase", 21),
        Column::nullable_as("lsn", 3220, "pg_lsn"),
    ];
    let values = |phase: i16| {
        Some(vec![
            SqlValue::SmallInt(Some(phase)),
            SqlValue::Text(Some("0/1".to_owned())),
        ])
    };
    let both = replace_cas("s.t", &columns, values(1), values(2), "Join").unwrap();
    let delete = both.delete.unwrap();
    assert_eq!(
        delete.sql,
        "DELETE FROM s.t WHERE singleton AND phase IS NOT DISTINCT FROM $1 AND \
         lsn IS NOT DISTINCT FROM $2::pg_lsn RETURNING singleton"
    );
    assert_eq!(Some(delete.arguments), values(1));
    let insert = both.insert.unwrap();
    assert_eq!(
        insert.sql,
        "INSERT INTO s.t(singleton,phase,lsn) VALUES(true,$1,$2::pg_lsn) RETURNING singleton"
    );
    assert_eq!(Some(insert.arguments), values(2));
    let none = replace_cas("s.t", &columns, None, None, "Join").unwrap();
    assert!(none.delete.is_none() && none.insert.is_none());
    assert_eq!(
        replace_cas("s.t", &columns, Some(vec![]), None, "Join").err(),
        Some("Join continuation field count disagrees with its ABI".to_owned())
    );
    assert_eq!(
        replace_cas("s.t", &vec![], None, None, "Join").err(),
        Some("continuation schema omitted singleton".to_owned())
    );
}

#[test]
fn continuation_relation_holds_at_most_one_row() {
    assert_eq!(
        lock_query("s.t", "a,b"),
        "SELECT a,b FROM s.t WHERE singleton FOR UPDATE"
    );
    assert_eq!(lock_one(0, "Join"), Ok(false));
    assert_eq!(lock_one(1, "Join"), Ok(true));
    assert_eq!(
        lock_one(2, "Join"),
        Err("Join continuation relation contains 2 rows".to_owned())
    );
    assert_eq!(
        clear_query("s.t"),
        "DELETE FROM s.t WHERE singleton RETURNING singleton"
    );
    for check in [clear_locked, deleted_old, inserted_next] {
        assert_eq!(check(1, "Join"), Ok(()));
        assert!(check(0, "Join").unwrap_err().starts_with("Join"));
        assert!(check(2, "Join").is_err());
    }
}

#[test]
fn attributes_have_exact_types() {
    let attributes = vec![attribute("a", 1, 20, true), attribute("b", 2, 25, true)];
    assert!(has_exact_columns(&attributes, &vec![("a", 20), ("b", 25)]));
    assert!(!has_exact_columns(&attributes, &vec![("a", 20), ("b", 20)]));
    assert!(!has_exact_columns(&attributes, &vec![("a", 20)]));
    assert!(has_type(&attributes[0], "a", 20));
    assert!(!has_type(&attributes[0], "b", 20));
    assert!(attribute_matches_slot(&attributes[0], &slot(20)));
    assert!(!attribute_matches_slot(&attributes[0], &slot(23)));
    let mut limited = slot(20);
    limited.typmod = 4;
    assert!(!attribute_matches_slot(&attributes[0], &limited));
}

#[test]
fn cursors_move_past_a_chunk() {
    let past = advance_past_frontier(&chunk(ChunkKind::Frontier));
    assert_eq!((past.next_chunk_seq, past.frontier_lsn), (9, 77));
    assert!(past.usage.is_empty());
    let past = advance_past_data(&chunk(ChunkKind::Data), 60);
    assert_eq!((past.next_chunk_seq, past.frontier_lsn), (9, 60));
    assert_eq!(past.usage, usage(2, 30, 0, 0));
    assert_eq!(OutputAppendTarget::New { sequence: 4 }.sequence(), 4);
    assert_eq!(OutputAppendTarget::New { sequence: 4 }.row_offset(), 0);
    assert_eq!(minimum(3, -3), -3);
    assert_eq!(minimum(2, 2), 2);
    assert_eq!(budget_bigint(5, "m"), Ok(5));
}

#[test]
fn btree_orders_are_resolved_in_the_catalog() {
    let key = capability_key(&order(true));
    assert_eq!(
        (key.sort_operator_oid, key.equality_operator_oid, key.type_oid, key.nulls_first),
        (97, 96, 23, true)
    );
    assert!(!capability_statement(&order(true)).arguments.is_empty());
    assert_eq!(
        capability_types(1, &capability(), &order(true), "Window"),
        Ok((23, 23))
    );
    for rows in [0, 2] {
        let message = capability_types(rows, &capability(), &order(true), "Window").unwrap_err();
        assert!(message.starts_with("Window"), "{message}");
        assert!(message.ends_with(" have no unique trusted B-tree operator family"), "{message}");
    }
    let mut row = capability();
    row.actual_type = None;
    assert_eq!(
        capability_types(1, &row, &order(true), "Window"),
        Err("database returned NULL B-tree actual type".to_owned())
    );
    row = capability();
    row.opclass_input_type = None;
    assert_eq!(
        capability_types(1, &row, &order(true), "Window"),
        Err("database returned NULL B-tree opclass input type".to_owned())
    );
}

#[test]
fn btree_order_indexes_a_column() {
    let resolved = decode(capability(), true, &order(true), "Window").unwrap();
    assert_eq!(resolved.opclass, "\"pg_catalog\".\"int4_ops\"");
    assert_eq!(resolved.direction, "ASC");
    assert!(resolved.nulls_first);
    assert_eq!(
        resolved.index_column("k1"),
        "\"k1\" \"pg_catalog\".\"int4_ops\" ASC NULLS FIRST"
    );
    let mut row = capability();
    row.sort_strategy = Some(5);
    assert_eq!(decode(row, true, &order(false), "Window").unwrap().direction, "DESC");
    assert_eq!(nulls_text(false), "LAST");
    let message = decode(capability(), false, &order(true), "Window").unwrap_err();
    assert!(message.ends_with(" do not accept type 23"), "{message}");
    let mut row = capability();
    row.sort_strategy = Some(3);
    assert_eq!(
        decode(row, true, &order(true), "Window").unwrap_err(),
        "Window B-tree strategy is invalid"
    );
    for (missing, name) in [
        (0, "B-tree opclass namespace"),
        (1, "B-tree opclass name"),
        (2, "B-tree sort strategy"),
        (3, "B-tree sort operator"),
        (4, "B-tree equality operator"),
    ] {
        let mut row = capability();
        match missing {
            0 => row.opclass_namespace = None,
            1 => row.opclass_name = None,
            2 => row.sort_strategy = None,
            3 => row.sort_operator = None,
            _ => row.equality_operator = None,
        }
        assert_eq!(
            decode(row, true, &order(true), "Window").unwrap_err(),
            format!("database returned NULL {name}")
        );
    }
}

#[test]
fn drains_come_at_doubling_thresholds() {
    let crossed =
        |before, after| crossed_admission_threshold(before, after, 4, 16, "row").unwrap();
    let drains: Vec<u64> = (0..64).filter(|before| crossed(*before, before + 1)).collect();
    assert_eq!(drains, vec![3, 7, 15, 31, 47, 63]);
    assert_eq!(
        crossed_admission_threshold(0, 1, 0, 16, "row"),
        Err("invalid admission row policy".to_owned())
    );
    assert_eq!(
        crossed_admission_threshold(0, 1, 17, 16, "byte"),
        Err("invalid admission byte policy".to_owned())
    );
    assert_eq!(
        crossed_admission_threshold(2, 1, 4, 16, "row"),
        Err("invalid admission row progress".to_owned())
    );
}

#[test]
fn admission_progress_adds_up() {
    let start = AdmissionProgress::new(0, 0);
    assert!(start.is_empty());
    let (next, drain) = start.record(usage(3, 10, 0, 0), 4, 16, 100, 1000).unwrap();
    assert_eq!((next.rows(), next.bytes(), drain), (3, 10, false));
    let (next, drain) = next.record(usage(1, 10, 0, 0), 4, 16, 100, 1000).unwrap();
    assert_eq!((next.rows(), next.bytes(), drain), (4, 20, true));
    assert_eq!(
        next.record(usage(0, 10, 0, 0), 4, 16, 100, 1000).unwrap_err(),
        "admission made no input-row progress"
    );
    assert_eq!(
        next.record(usage(1, 0, 0, 0), 4, 16, 100, 1000).unwrap_err(),
        "admission made no input-byte progress"
    );
}

#[test]
fn positions_and_pages_are_validated() {
    assert!(InputPosition::new(1, 1, 0).is_ok());
    for (stream, sequence, row) in [(0, 1, 0), (1, 0, 0), (1, 1, -1)] {
        assert_eq!(
            InputPosition::new(stream, sequence, row).unwrap_err(),
            "input position contains an invalid identifier"
        );
    }
    let page = |rows, last_row_id, complete| PageFacts {
        usage: usage(rows, rows, 0, 0),
        last_row_id,
        complete,
    };
    assert_eq!(page(1, Some(1), false).validate(budget()), Ok(()));
    assert_eq!(page(0, None, true).validate(budget()), Ok(()));
    assert_eq!(
        page(0, Some(1), true).validate(budget()).unwrap_err(),
        "empty primitive page returned a row cursor"
    );
    assert_eq!(
        page(1, None, false).validate(budget()).unwrap_err(),
        "partial primitive page omitted its row cursor"
    );
    assert!(page(3, Some(1), true).validate(budget()).unwrap_err().contains("row budget"));
}

#[test]
fn primitive_facts_are_consistent() {
    let facts = |output_rows, continuation_rows, output| PrimitiveFacts {
        usage: usage(1, 1, output_rows, output_rows),
        state_rows: 0,
        continuation_rows,
        output,
    };
    for (facts, message) in [
        (
            facts(0, 2, OutputFacts::Nothing),
            "operator continuation relation contains more than one row",
        ),
        (
            facts(1, 0, OutputFacts::Nothing),
            "primitive emitted rows without an output chunk",
        ),
        (
            facts(1, 0, OutputFacts::Data { chunk_seq: 0 }),
            "primitive returned a non-positive output chunk",
        ),
        (
            facts(0, 0, OutputFacts::Data { chunk_seq: 1 }),
            "data chunk contains no output rows",
        ),
        (
            facts(0, 0, OutputFacts::Frontier { chunk_seq: 0 }),
            "primitive returned a non-positive frontier chunk",
        ),
        (
            facts(1, 0, OutputFacts::Frontier { chunk_seq: 1 }),
            "frontier chunk contains output rows",
        ),
    ] {
        assert_eq!(facts.validate(budget()).unwrap_err(), message);
    }
    assert_eq!(
        facts(0, 0, OutputFacts::Nothing).validate_continuation(true).unwrap_err(),
        "primitive facts disagree with their continuation row"
    );
    assert_eq!(
        facts(0, 1, OutputFacts::Nothing).validate_continuation(true),
        Ok(())
    );
}

#[test]
fn kernels_declare_their_inputs_and_phases() {
    let scan = kernel_contract(Kernel::Scan).unwrap();
    assert_eq!(scan.inputs, vec![InputContract::Source]);
    assert_eq!(
        scan.phases,
        vec![KernelPhase::Admit, KernelPhase::Process, KernelPhase::Frontier]
    );
    let join = kernel_contract(Kernel::Join).unwrap();
    assert_eq!(join.inputs, vec![InputContract::Operator, InputContract::Operator]);
    assert_eq!(join.phases, vec![KernelPhase::Process, KernelPhase::Frontier]);
    assert_eq!(kernel_contract(Kernel::Sink), None);
    for phase in [DistinctPhase::Apply, DistinctPhase::Drain, DistinctPhase::Frontier] {
        let contract = kernel_contract(Kernel::Distinct).unwrap();
        assert!(contract.phases.contains(&phase.kernel_phase()));
    }
    assert_eq!(AggregatePhase::Apply.kernel_phase(), KernelPhase::Admit);
    assert_eq!(AggregatePhase::Frontier.kernel_phase(), KernelPhase::Frontier);
}
