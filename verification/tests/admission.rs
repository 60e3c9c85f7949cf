use shiba::admission::{
    admitted_facts, allocate, classify_statement, count_tasks, decode_generation, decode_header,
    decode_replay, decode_write, encode_events, event_fits, generation_statement,
    header_statement, max_option, min_option, replayed_facts, require_generation, source_counts,
    source_statement, source_type, transaction_statement, typed_statement, validate_events,
    validate_replay, validate_source, validate_transaction, validate_write, write_statement,
    AdmissionFacts, Allocation, Event, Header, HeaderRow, ReplayFacts, ReplayRow, SourceCount,
    WriteFacts, WriteRow, WRITE_BATCH_SQL,
};
use shiba::sql::SqlValue;

fn event(ordinal: u64, source_oid: u32) -> Event {
    Event {
        change_lsn: 0x1_0000_00AB,
        change_ordinal: ordinal,
        image_ordinal: 1,
        source_subxid: 7,
        source_oid,
        weight: -1,
        payload: "{\"id\":1}".to_owned(),
    }
}

fn header() -> Header {
    Header {
        slot_generation: 4,
        status: "open".to_owned(),
        event_count: 10,
        payload_bytes: 500,
        batch_count: 2,
        pending_publications: 3,
    }
}

fn replay() -> ReplayFacts {
    ReplayFacts {
        inserted_count: 2,
        replayed_count: 1,
        last_replayed_ordinal: Some(1),
        first_new_ordinal: Some(2),
        first_input_seq: Some(10),
        last_input_seq: Some(10),
        identity_conflict: false,
        batch_payload_bytes: 40,
    }
}

fn allocation() -> Allocation {
    Allocation {
        first_input_seq: 11,
        last_input_seq: 12,
        batch_ordinal: 3,
        task_count: 1,
        event_count: 12,
        payload_bytes: 540,
        batch_count: 3,
        pending_publications: 4,
    }
}

fn written() -> WriteFacts {
    WriteFacts {
        inserted_count: 2,
        first_input_seq: Some(11),
        last_input_seq: Some(12),
        payload_bytes: 40,
        task_count: 1,
        replay_updates: 1,
        header_updates: 1,
        event_count: Some(12),
        total_payload_bytes: Some(540),
        batch_count: Some(3),
        pending_publications: Some(4),
    }
}

fn failed<T: std::fmt::Debug>(outcome: Result<T, String>) -> String {
    outcome.expect_err("the call succeeded")
}

#[test]
fn transaction_identifiers_are_positive() {
    assert_eq!(validate_transaction(1), Ok(()));
    assert_eq!(
        failed(validate_transaction(0)),
        "ingress transaction ID must be positive"
    );
    assert!(validate_transaction(-1).is_err());
}

#[test]
fn payload_must_be_a_json_object() {
    let mut batch = vec![event(1, 9)];
    assert_eq!(validate_events(&batch), Ok(()));
    for rejected in ["[1]", "1", "null", "", "{\"id\":", "{\"id\":1} x"] {
        batch[0].payload = rejected.to_owned();
        assert_eq!(
            failed(validate_events(&batch)),
            "ingress event batch contains an invalid value",
            "{rejected}"
        );
    }
    batch[0].payload = " {} ".to_owned();
    assert_eq!(validate_events(&batch), Ok(()));
}

#[test]
fn event_values_are_bounded() {
    assert!(event_fits(&event(1, 9), true));
    assert!(!event_fits(&event(1, 9), false));
    assert!(event_fits(&event(0, 9), true));
    assert!(!event_fits(&event(1, 0), true));
    let mut bounded = event(1, 9);
    bounded.image_ordinal = i32::MAX as u32;
    assert!(event_fits(&bounded, true));
    bounded.image_ordinal += 1;
    assert!(!event_fits(&bounded, true));
    for (weight, fits) in [(1, true), (-1, true), (0, false), (2, false), (-2, false)] {
        bounded = event(1, 9);
        bounded.weight = weight;
        assert_eq!(event_fits(&bounded, true), fits, "{weight}");
    }
    assert!(event_fits(&event(i64::MAX as u64, 9), true));
    assert!(!event_fits(&event(i64::MAX as u64 + 1, 9), true));
}

#[test]
fn batch_identities_are_distinct() {
    assert_eq!(validate_events(&vec![]), Ok(()));
    assert_eq!(validate_events(&vec![event(1, 9), event(2, 9)]), Ok(()));
    assert_eq!(
        failed(validate_events(&vec![event(1, 9), event(2, 9), event(1, 8)])),
        "ingress event batch repeats a stable event identity"
    );
}

#[test]
fn batch_is_written_as_a_json_array() {
    assert_eq!(encode_events(&vec![]), "[]");
    let encoded = encode_events(&vec![event(1, 9)]);
    assert_eq!(
        encoded,
        "[{\"change_lsn\":\"1/AB\",\"change_ordinal\":1,\"image_ordinal\":1,\
         \"payload\":{\"id\":1},\"source_oid\":9,\"source_subxid\":7,\"weight\":-1}]"
    );
    assert_eq!(
        encode_events(&vec![event(1, 9), event(2, 9)])
            .matches("\"payload\":{\"id\":1}")
            .count(),
        2
    );
    let value: serde_json::Value = serde_json::from_str(&encoded).unwrap();
    assert_eq!(value[0]["weight"], serde_json::Value::from(-1));
    assert_eq!(value[0]["payload"]["id"], serde_json::Value::from(1));
    assert_eq!(value.to_string(), encoded);
}

#[test]
fn payload_is_written_as_it_was_handed_over() {
    let mut exact = event(1, 9);
    exact.payload = "{\"b\":[1, 2],\"a\":5e-324,\"c\":122.416294033786585}".to_owned();
    let encoded = encode_events(&vec![exact.clone()]);
    assert!(encoded.contains(&format!("\"payload\":{},", exact.payload)), "{encoded}");
}

#[test]
fn payload_nests_without_a_limit() {
    let mut deep = event(1, 9);
    deep.payload = format!("{{\"a\":{}{}}}", "[".repeat(1_000), "]".repeat(1_000));
    assert_eq!(validate_events(&vec![deep.clone()]), Ok(()));
    deep.payload = format!("{{\"a\":{}{}}}", "[".repeat(1_000), "]".repeat(999));
    assert!(validate_events(&vec![deep]).is_err());
}

#[test]
fn sources_are_counted_in_ascending_order() {
    let batch = vec![event(1, 9), event(2, 3), event(3, 9)];
    assert_eq!(
        source_counts(&batch),
        vec![
            SourceCount { source_oid: 3, expected: 1 },
            SourceCount { source_oid: 9, expected: 2 },
        ]
    );
    assert_eq!(source_counts(&vec![]), vec![]);
}

#[test]
fn source_type_is_the_qualified_relation() {
    assert_eq!(source_statement(9).arguments, vec![SqlValue::Oid(9)]);
    let namespace = Some("Public".to_owned());
    let relation = Some("orders".to_owned());
    assert_eq!(
        source_type(1, &namespace, &relation),
        Ok("\"Public\".\"orders\"".to_owned())
    );
    assert_eq!(
        failed(source_type(1, &None, &relation)),
        "database returned NULL ingress source namespace"
    );
    assert_eq!(
        failed(source_type(1, &namespace, &None)),
        "database returned NULL ingress source relation"
    );
    assert!(failed(source_type(0, &namespace, &relation)).contains("persistent ingress source"));
    let statement = typed_statement("\"Public\".\"orders\"", "[]", 9);
    assert!(statement.sql.contains("\"Public\".\"orders\""));
    assert!(!statement.sql.contains("{source_type}"));
    assert_eq!(
        statement.arguments,
        vec![SqlValue::Text(Some("[]".to_owned())), SqlValue::Oid(9)]
    );
}

#[test]
fn every_source_row_is_typed() {
    let source = SourceCount { source_oid: 9, expected: 2 };
    assert_eq!(validate_source(source, 1, Some(2)), Ok(()));
    let message = failed(validate_source(source, 1, Some(1)));
    assert!(message.starts_with("typed ingress validation for source 9"), "{message}");
    assert_eq!(
        failed(validate_source(source, 1, None)),
        "database returned NULL typed ingress row count"
    );
    assert!(validate_source(source, 0, Some(2)).is_err());
}

#[test]
fn generation_is_read_before_the_header() {
    assert_eq!(transaction_statement(5).arguments, vec![SqlValue::BigInt(Some(5))]);
    assert_eq!(generation_statement(4).arguments, vec![SqlValue::BigInt(Some(4))]);
    assert_eq!(header_statement(5).arguments, vec![SqlValue::BigInt(Some(5))]);
    assert_eq!(decode_generation(1, Some(4)), Ok(4));
    assert!(failed(decode_generation(0, Some(4))).contains("ingress transaction"));
    assert_eq!(
        failed(decode_generation(1, None)),
        "database returned NULL ingress slot generation"
    );
    assert_eq!(require_generation(1), Ok(()));
    assert!(failed(require_generation(0)).contains("active ingress generation"));
}

#[test]
fn header_needs_every_column() {
    let row = HeaderRow {
        status: Some("open".to_owned()),
        event_count: Some(10),
        payload_bytes: Some(500),
        batch_count: Some(2),
        pending_publications: Some(3),
    };
    assert_eq!(decode_header(1, &row, 4), Ok(header()));
    assert!(decode_header(2, &row, 4).is_err());
    let mut lacking = row.clone();
    lacking.status = None;
    assert_eq!(
        failed(decode_header(1, &lacking, 4)),
        "database returned NULL ingress transaction status"
    );
    lacking = row.clone();
    lacking.event_count = None;
    assert_eq!(
        failed(decode_header(1, &lacking, 4)),
        "database returned NULL ingress event count"
    );
    lacking = row.clone();
    lacking.payload_bytes = None;
    assert_eq!(
        failed(decode_header(1, &lacking, 4)),
        "database returned NULL ingress payload bytes"
    );
    lacking = row.clone();
    lacking.batch_count = None;
    assert_eq!(
        failed(decode_header(1, &lacking, 4)),
        "database returned NULL ingress batch count"
    );
    lacking = row.clone();
    lacking.pending_publications = None;
    assert_eq!(
        failed(decode_header(1, &lacking, 4)),
        "database returned NULL pending publication count"
    );
}

#[test]
fn replay_needs_its_counts() {
    let row = ReplayRow {
        inserted_count: Some(2),
        replayed_count: Some(1),
        last_replayed_ordinal: Some(1),
        first_new_ordinal: Some(2),
        first_input_seq: Some(10),
        last_input_seq: Some(10),
        identity_conflict: Some(false),
        batch_payload_bytes: Some(40),
    };
    assert_eq!(
        classify_statement(5, "[]").arguments,
        vec![SqlValue::BigInt(Some(5)), SqlValue::Text(Some("[]".to_owned()))]
    );
    assert_eq!(decode_replay(1, &row), Ok(replay()));
    assert!(decode_replay(0, &row).is_err());
    let mut lacking = row;
    lacking.inserted_count = None;
    assert_eq!(
        failed(decode_replay(1, &lacking)),
        "database returned NULL new ingress event count"
    );
    lacking = row;
    lacking.replayed_count = None;
    assert_eq!(
        failed(decode_replay(1, &lacking)),
        "database returned NULL replayed ingress event count"
    );
    lacking = row;
    lacking.identity_conflict = None;
    assert_eq!(
        failed(decode_replay(1, &lacking)),
        "database returned NULL ingress identity conflict"
    );
    lacking = row;
    lacking.batch_payload_bytes = None;
    assert_eq!(
        failed(decode_replay(1, &lacking)),
        "database returned NULL new ingress payload bytes"
    );
}

#[test]
fn replay_is_an_existing_prefix() {
    assert_eq!(validate_replay(5, &header(), replay()), Ok(()));
    let mut rejected = replay();
    rejected.inserted_count = -1;
    assert_eq!(
        failed(validate_replay(5, &header(), rejected)),
        "ingress replay returned negative facts"
    );
    rejected = replay();
    rejected.identity_conflict = true;
    assert_eq!(
        failed(validate_replay(5, &header(), rejected)),
        "ingress event identity conflict for transaction 5"
    );
    rejected = replay();
    rejected.first_new_ordinal = Some(0);
    assert_eq!(
        failed(validate_replay(5, &header(), rejected)),
        "ingress replay for transaction 5 is not an existing prefix"
    );
    let mut terminal = header();
    terminal.status = "committed".to_owned();
    assert_eq!(
        failed(validate_replay(5, &terminal, replay())),
        "replay added events to ingress transaction 5 in terminal state committed"
    );
}

#[test]
fn repeated_batch_allocates_nothing() {
    assert_eq!(replayed_facts(&header(), replay()), None);
    let mut repeated = replay();
    repeated.inserted_count = 0;
    repeated.replayed_count = 3;
    repeated.first_new_ordinal = None;
    assert_eq!(
        replayed_facts(&header(), repeated),
        Some(AdmissionFacts {
            inserted_count: 0,
            replayed_count: 3,
            first_input_seq: Some(10),
            last_input_seq: Some(10),
        })
    );
}

#[test]
fn tasks_are_the_sources_of_the_new_events() {
    let batch = vec![event(1, 9), event(2, 3), event(3, 9)];
    assert_eq!(count_tasks(&batch, 0), Ok(2));
    assert_eq!(count_tasks(&batch, 1), Ok(2));
    assert_eq!(count_tasks(&batch, 2), Ok(1));
    assert_eq!(
        failed(count_tasks(&batch, 3)),
        "new ingress batch has no source publication task"
    );
}

#[test]
fn batches_follow_each_other_without_a_gap() {
    let first = allocate(&header(), replay(), 1).unwrap();
    assert_eq!(first, allocation());
    let mut next = header();
    next.event_count = first.event_count;
    next.payload_bytes = first.payload_bytes;
    next.batch_count = first.batch_count;
    next.pending_publications = first.pending_publications;
    let second = allocate(&next, replay(), 1).unwrap();
    assert_eq!(second.first_input_seq, first.last_input_seq + 1);
    assert_eq!(second.batch_ordinal, first.batch_ordinal + 1);
}

#[test]
fn allocation_never_leaves_the_bigint_range() {
    let mut full = header();
    full.event_count = i64::MAX;
    assert_eq!(
        failed(allocate(&full, replay(), 1)),
        "ingress event sequence exhausted bigint range"
    );
    full.event_count = i64::MAX - 1;
    assert_eq!(
        failed(allocate(&full, replay(), 1)),
        "ingress transaction event count exhausted bigint range"
    );
    full = header();
    full.payload_bytes = i64::MAX - 39;
    assert_eq!(
        failed(allocate(&full, replay(), 1)),
        "ingress transaction payload summary exhausted bigint range"
    );
    full = header();
    full.batch_count = i64::MAX;
    assert_eq!(
        failed(allocate(&full, replay(), 1)),
        "ingress apply batch count exhausted bigint range"
    );
    full = header();
    full.pending_publications = i64::MAX;
    assert_eq!(
        failed(allocate(&full, replay(), 1)),
        "ingress publication task count exhausted bigint range"
    );
}

#[test]
fn write_binds_old_and_new_counters() {
    let statement = write_statement(5, "[]", &header(), replay(), allocation());
    assert_eq!(statement.sql, WRITE_BATCH_SQL);
    let mut expected = vec![
        SqlValue::BigInt(Some(5)),
        SqlValue::Text(Some("[]".to_owned())),
    ];
    for value in [1, 11, 12, 3, 4, 40, 1, 12, 540, 3, 4, 10, 500, 2, 3] {
        expected.push(SqlValue::BigInt(Some(value)));
    }
    assert_eq!(statement.arguments, expected);
}

#[test]
fn written_batch_matches_its_allocation() {
    assert_eq!(validate_write(5, replay(), allocation(), written()), Ok(()));
    let mut rejected = written();
    rejected.header_updates = 0;
    rejected.event_count = None;
    let message = failed(validate_write(5, replay(), allocation(), rejected));
    assert!(message.starts_with("ingress transaction 5 write facts "), "{message}");
    assert!(
        message.contains("(2, Some(11), Some(12), 40, 1, 1, 0, None, Some(540), Some(3), Some(4))"),
        "{message}"
    );
    assert_eq!(
        written().show(),
        "(2, Some(11), Some(12), 40, 1, 1, 1, Some(12), Some(540), Some(3), Some(4))"
    );
}

#[test]
fn write_needs_its_counts() {
    let row = WriteRow {
        inserted_count: Some(2),
        first_input_seq: Some(11),
        last_input_seq: Some(12),
        payload_bytes: Some(40),
        task_count: Some(1),
        replay_updates: Some(1),
        header_updates: Some(1),
        event_count: Some(12),
        total_payload_bytes: Some(540),
        batch_count: Some(3),
        pending_publications: Some(4),
    };
    assert_eq!(decode_write(1, &row), Ok(written()));
    assert!(decode_write(2, &row).is_err());
    let mut lacking = row;
    lacking.inserted_count = None;
    assert_eq!(
        failed(decode_write(1, &lacking)),
        "database returned NULL written ingress event count"
    );
    lacking = row;
    lacking.payload_bytes = None;
    assert_eq!(
        failed(decode_write(1, &lacking)),
        "database returned NULL written ingress payload bytes"
    );
    lacking = row;
    lacking.task_count = None;
    assert_eq!(
        failed(decode_write(1, &lacking)),
        "database returned NULL written source task count"
    );
    lacking = row;
    lacking.replay_updates = None;
    assert_eq!(
        failed(decode_write(1, &lacking)),
        "database returned NULL updated ingress replay rows"
    );
    lacking = row;
    lacking.header_updates = None;
    assert_eq!(
        failed(decode_write(1, &lacking)),
        "database returned NULL updated ingress header rows"
    );
}

#[test]
fn admission_spans_replayed_and_new_events() {
    assert_eq!(
        admitted_facts(replay(), allocation()),
        AdmissionFacts {
            inserted_count: 2,
            replayed_count: 1,
            first_input_seq: Some(10),
            last_input_seq: Some(12),
        }
    );
    assert_eq!(min_option(None, Some(3)), Some(3));
    assert_eq!(min_option(Some(2), Some(3)), Some(2));
    assert_eq!(min_option(None, None), None);
    assert_eq!(max_option(None, Some(3)), Some(3));
    assert_eq!(max_option(Some(4), Some(3)), Some(4));
    assert_eq!(max_option(None, None), None);
}
