use shiba::execution::continuation::Attribute;
use shiba::execution::contract::{InputPosition, KernelPhase, OutputFacts};
use shiba::execution::join::layout::{
    insert_columns_sql, join_key_slots, key_column, key_columns_sql, key_exact_predicate_sql,
    key_index_statement, key_join_sql, key_predicate_sql, key_unknown_predicate_sql,
    require_key_index, require_row_key_index, row_key_index_statement, side_alias,
    validate_state_abi, InputSlot, JoinEquiKey, Layout,
};
use shiba::execution::join::pages::{
    append_page_statement, decode_appended_page, decode_measured_page, decode_own_state,
    decode_page_candidates, effective_budget, finish_inner_page, measure_page_statement, next_input,
    own_state_statement, page_appends, page_candidates_statement, page_fits_input,
};
use shiba::execution::join::planner::{
    classify_candidate, plan_actions, plan_finalize, CandidateProbe, CandidateStateChange,
    CandidateExpectation, FrontierInputFacts, InputEventFacts, InputPositions, InputSide,
    JoinContinuation, JoinMode, JoinPhase, MatchCounts, MatchTruth, OutputAction,
    OutputActionKind, OwnExpectation, OwnStateChange, OwnStateChangeKind, OwnStateProbe, ProbePage,
    ProjectionBytes,
};
use shiba::execution::join::provision::{
    arrangement_name, continuation_name, create_continuation, join_key_types, state_body,
    state_index, validate_payload, validate_provision,
};
use shiba::execution::join::statements::{
    append_statement, candidate_changes_statement, completion_statement, compose_actions,
    current_output_statement, decode_append, decode_candidate_changes, decode_candidates,
    decode_completion, decode_current_output, decode_event, decode_own, eligibility_sql,
    event_statement, own_change_statement, own_statement, probe_statement, require_own_change,
    AppendRow, CandidateRow, OwnRow,
};
use shiba::execution::join::step::{
    advance_frontier, after_finalize, after_preflight, candidate_progress, close_candidates,
    close_finalize, close_frontier, consumer_positions, mode, open_finalize, open_frontier,
    open_next_input, output_facts, plan_input_frontier, probe_own, validate_event_chunk,
    validate_frontier_chunk, validate_positions_for_side, validate_stage, FinalizeNext, JoinKind,
};
use shiba::execution::join::storage::{
    continuation_columns, continuation_fields, decode_continuation, replace_continuation, JoinRow,
};
use shiba::execution::stream::{
    ChunkKind, ChunkMeta, InputState, OutputAppend, OutputAppendTarget, OutputState, ProducerKind,
};
use shiba::planner::{BindingId, Operator, SlotType, WorkBudget, WorkUsage};
use shiba::sql::SqlValue;

fn complete(sql: &str) -> bool {
    !sql.contains('{') && !sql.contains('}')
}

fn layout(keys: &[&str]) -> Layout {
    Layout {
        left_payload: "left_payload".into(),
        left_type: "left_type".into(),
        right_payload: "right_payload".into(),
        right_type: "right_type".into(),
        output_payload: "output_payload".into(),
        output_type: "output_type".into(),
        left_state: "left_state".into(),
        right_state: "right_state".into(),
        left_key_exprs: keys.iter().map(|key| format!("left_row.{key}")).collect(),
        right_key_exprs: keys.iter().map(|key| format!("right_row.{key}")).collect(),
        condition: "left_row.a < right_row.b".into(),
        outputs: "left_row.a".into(),
    }
}

fn budget() -> WorkBudget {
    WorkBudget::new(4, 1_000, 4, 1_000)
}

fn input(port: u16, stream_id: i64) -> InputState {
    InputState {
        port,
        stream_id,
        producer: ProducerKind::Operator,
        source_oid: None,
        next_chunk_seq: 3,
        consumed_frontier_lsn: 50,
        activation_lsn: 0,
        available_source_frontier_lsn: None,
    }
}

fn left() -> InputState {
    input(0, 11)
}

fn right() -> InputState {
    input(1, 12)
}

fn output() -> OutputState {
    OutputState {
        stream_id: 13,
        next_chunk_seq: 7,
        target_rows: 3,
        target_bytes: 60,
        published_frontier_lsn: Some(40),
        latest_data_lsn: None,
    }
}

fn chunk(stream_id: i64, kind: ChunkKind, lsn: u64) -> ChunkMeta {
    ChunkMeta {
        stream_id,
        sequence: 3,
        kind,
        rows: if kind == ChunkKind::Data { 2 } else { 0 },
        bytes: if kind == ChunkKind::Data { 20 } else { 0 },
        lsn,
    }
}

fn positions(left: i64, right: i64) -> InputPositions {
    InputPositions::new(
        InputPosition::new(11, 3, left).unwrap(),
        InputPosition::new(12, 3, right).unwrap(),
    )
    .unwrap()
}

fn event(row: i64) -> InputEventFacts {
    InputEventFacts::new(InputSide::Left, positions(row, 0), 1, 7).unwrap()
}

fn counts(matched: u64, unknown: u64) -> MatchCounts {
    MatchCounts::new(matched, unknown).unwrap()
}

fn candidate(row_id: i64) -> CandidateProbe {
    CandidateProbe::new(
        row_id,
        1,
        MatchTruth::True,
        counts(0, 0),
        5,
        ProjectionBytes::new(Some(9), Some(9)).unwrap(),
    )
    .unwrap()
}

fn append(rows: u64, bytes: u64) -> OutputAppend {
    OutputAppend {
        target: OutputAppendTarget::New { sequence: 7 },
        rows,
        bytes,
        lsn: 100,
    }
}

fn slot(binding: u32, input: u16, type_oid: u32) -> InputSlot {
    InputSlot {
        binding: BindingId(binding),
        input,
        type_: slot_type(type_oid),
    }
}

fn slot_type(type_oid: u32) -> SlotType {
    SlotType {
        type_oid,
        typmod: -1,
        collation_oid: 0,
        nullable: true,
    }
}

fn key(left: u32, right: u32) -> JoinEquiKey {
    JoinEquiKey {
        left_binding: BindingId(left),
        right_binding: BindingId(right),
    }
}

fn attribute(name: &str, number: i16, type_oid: u32, not_null: bool) -> Attribute {
    Attribute {
        name: name.to_owned(),
        number,
        type_oid,
        typmod: -1,
        collation_oid: 0,
        not_null,
    }
}

#[test]
fn join_has_two_operator_inputs() {
    assert_eq!(validate_stage(Operator::Join, &vec![left(), right()]), Ok(()));
    assert_eq!(
        validate_stage(Operator::Distinct, &vec![left(), right()]).unwrap_err(),
        "Join kernel received another operator"
    );
    assert_eq!(
        validate_stage(Operator::Join, &vec![left()]).unwrap_err(),
        "Join requires exactly two operator-stream inputs"
    );
    assert_eq!(mode(JoinKind::NullAwareAnti), JoinMode::NullAwareAnti);
    assert_eq!(mode(JoinKind::Inner), JoinMode::Inner);
}

#[test]
fn earlier_chunk_is_opened_first() {
    let early = chunk(11, ChunkKind::Data, 60);
    let late = chunk(12, ChunkKind::Data, 70);
    assert_eq!(next_input(Some(late), Some(early)), Some((InputSide::Right, early)));
    assert_eq!(next_input(Some(early), Some(early)), Some((InputSide::Left, early)));
    assert_eq!(next_input(None, None), None);
    let opened = open_next_input(Some(early), Some(late), &left(), &right()).unwrap();
    assert_eq!(opened.side, InputSide::Left);
    assert_eq!(opened.continuation.phase(), JoinPhase::Preflight);
    let frontier = chunk(12, ChunkKind::Frontier, 55);
    let opened = open_next_input(Some(early), Some(frontier), &left(), &right()).unwrap();
    assert_eq!(opened.continuation.phase(), JoinPhase::Frontier);
    assert_eq!(
        open_next_input(None, None, &left(), &right()).unwrap_err(),
        "runnable Join has neither a continuation nor an input chunk"
    );
    assert_eq!(consumer_positions(&left(), &right()), Ok(positions(0, 0)));
}

#[test]
fn join_cursor_stands_at_the_locked_positions() {
    assert_eq!(
        validate_positions_for_side(positions(1, 0), InputSide::Left, &left(), &right()),
        Ok(())
    );
    assert_eq!(
        validate_positions_for_side(positions(1, 0), InputSide::Right, &left(), &right())
            .unwrap_err(),
        "Join continuation is not at its locked consumer positions"
    );
    let position = InputPosition::new(11, 3, 1).unwrap();
    let data = chunk(11, ChunkKind::Data, 60);
    assert_eq!(validate_event_chunk(position, &Some(data)), Ok(data));
    assert_eq!(
        validate_event_chunk(position, &None).unwrap_err(),
        "Join continuation references a missing input chunk"
    );
    let outside = InputPosition::new(11, 3, 2).unwrap();
    assert_eq!(
        validate_event_chunk(outside, &Some(data)).unwrap_err(),
        "Join data continuation references an invalid input row"
    );
}

#[test]
fn join_rows_are_finalized_one_by_one() {
    let continuation = after_preflight(event(0), OwnExpectation::absent()).unwrap();
    assert_eq!(continuation.phase(), JoinPhase::Probe);
    let progress = candidate_progress(&continuation).unwrap();
    assert_eq!(progress.event_weight(), 1);
    assert_eq!(
        candidate_progress(&JoinContinuation::start_preflight(positions(0, 0), InputSide::Left)
            .unwrap())
        .unwrap_err(),
        "Join candidate phase omitted input progress"
    );
    let data = chunk(11, ChunkKind::Data, 60);
    match after_finalize(&progress, &data, &left()).unwrap() {
        FinalizeNext::Row(next) => assert_eq!(next.phase(), JoinPhase::Preflight),
        FinalizeNext::Chunk(_) => unreachable!(),
    }
    let last = after_preflight(event(1), OwnExpectation::absent()).unwrap();
    match after_finalize(&candidate_progress(&last).unwrap(), &data, &left()).unwrap() {
        FinalizeNext::Chunk(advance) => {
            assert_eq!((advance.next_chunk_seq, advance.frontier_lsn), (4, 50));
        }
        FinalizeNext::Row(_) => unreachable!(),
    }
    let beyond = after_preflight(event(2), OwnExpectation::absent()).unwrap();
    assert_eq!(
        after_finalize(&candidate_progress(&beyond).unwrap(), &data, &left()).unwrap_err(),
        "Join Finalize advanced beyond its immutable input chunk"
    );
    let mut full = left();
    full.next_chunk_seq = i64::MAX;
    assert_eq!(
        after_finalize(&candidate_progress(&last).unwrap(), &data, &full).unwrap_err(),
        "Join input chunk cursor overflow"
    );
}

#[test]
fn join_fanout_is_planned_and_closed() {
    let start = after_preflight(event(0), OwnExpectation::absent()).unwrap();
    let page = ProbePage::new(vec![candidate(4)], true).unwrap();
    let plan = plan_actions(JoinMode::Inner, &start, event(0), &page, budget()).unwrap();
    assert_eq!(plan.actions().len(), 1);
    let closed = close_candidates(&plan, 1, &Some(append(1, 9))).unwrap();
    assert_eq!((closed.phase, closed.state_rows), (KernelPhase::Process, 1));
    assert!(closed.continue_in_transaction);
    assert!(close_candidates(&plan, 1, &None).is_err());
    let next = *plan.next_continuation();
    assert_eq!(next.phase(), JoinPhase::Finalize);
    let opened = open_finalize(&next, JoinKind::Inner, event(0), OwnExpectation::absent()).unwrap();
    assert!(!opened.measures_output);
    let changed = OwnExpectation::present(1, 1, counts(0, 0)).unwrap();
    assert_eq!(
        open_finalize(&next, JoinKind::Inner, event(0), changed).unwrap_err(),
        "Join own arrangement changed during its fanout"
    );
    let probe = probe_own(OwnExpectation::absent(), None).unwrap();
    assert_eq!(probe, OwnStateProbe::Absent { output_bytes: 1 });
    let finalize = plan_finalize(JoinMode::Inner, &next, event(0), probe, budget()).unwrap();
    assert_eq!(finalize.own_change().kind, OwnStateChangeKind::Insert);
    let data = chunk(11, ChunkKind::Data, 60);
    let after = after_finalize(&opened.progress, &data, &left()).unwrap();
    let closed = close_finalize(&finalize, &None, &after).unwrap();
    assert!(closed.continue_in_transaction);
    assert_eq!(closed.state_rows, 1);
    assert_eq!(output_facts(&None), OutputFacts::Nothing);
    assert_eq!(output_facts(&Some(append(1, 9))), OutputFacts::Data { chunk_seq: 7 });
}

#[test]
fn join_frontier_is_held_to_the_slower_input() {
    let facts = FrontierInputFacts::new(InputSide::Left, positions(0, 0), 90).unwrap();
    let continuation = JoinContinuation::start_frontier(facts).unwrap();
    assert_eq!(open_frontier(&continuation, &left(), &right()), Ok(facts));
    let other = JoinContinuation::start_preflight(positions(0, 0), InputSide::Left).unwrap();
    assert_eq!(
        open_frontier(&other, &left(), &right()).unwrap_err(),
        "Join frontier executor received another phase"
    );
    assert_eq!(
        validate_frontier_chunk(&facts, &Some(chunk(11, ChunkKind::Frontier, 90))),
        Ok(())
    );
    assert_eq!(
        validate_frontier_chunk(&facts, &Some(chunk(11, ChunkKind::Frontier, 91))).unwrap_err(),
        "Join frontier continuation changed its immutable chunk"
    );
    assert_eq!(
        validate_frontier_chunk(&facts, &None).unwrap_err(),
        "Join frontier continuation references a missing chunk"
    );
    let plan =
        plan_input_frontier(&continuation, facts, &left(), &right(), &output(), budget()).unwrap();
    assert_eq!(plan.publish, Some(50));
    let advance = advance_frontier(&facts, &left()).unwrap();
    assert_eq!((advance.next_chunk_seq, advance.frontier_lsn), (4, 90));
    let mut full = left();
    full.next_chunk_seq = i64::MAX;
    assert_eq!(
        advance_frontier(&facts, &full).unwrap_err(),
        "Join frontier chunk cursor overflow"
    );
    let closed = close_frontier(&plan, OutputFacts::Frontier { chunk_seq: 7 }).unwrap();
    assert_eq!(closed.phase, KernelPhase::Frontier);
    assert!(close_frontier(&plan, OutputFacts::Nothing).is_err());
}

#[test]
fn inner_page_is_appended_as_measured() {
    let data = chunk(11, ChunkKind::Data, 60);
    assert!(page_fits_input(&data, &budget()));
    assert!(!page_fits_input(&data, &WorkBudget::new(1, 1_000, 4, 1_000)));
    let page = decode_measured_page(1, InputSide::Left, &data, Some(3), Some(30), &budget())
        .unwrap()
        .unwrap();
    assert_eq!((page.output_rows, page.output_bytes), (3, 30));
    assert_eq!(
        decode_measured_page(1, InputSide::Left, &data, Some(5), Some(30), &budget()),
        Ok(None)
    );
    assert_eq!(
        decode_measured_page(0, InputSide::Left, &data, Some(3), Some(30), &budget()).unwrap_err(),
        "Join page measurement returned no summary"
    );
    assert_eq!(
        decode_measured_page(1, InputSide::Left, &data, None, Some(30), &budget()).unwrap_err(),
        "database returned NULL Join page output rows"
    );
    assert_eq!(page_appends(3, 30), Ok(true));
    assert_eq!(page_appends(0, 0), Ok(false));
    assert!(page_appends(0, 1).is_err());
    let target = OutputAppendTarget::New { sequence: 7 };
    let appended = decode_appended_page(1, &page, target, Some(3), Some(30)).unwrap();
    assert_eq!((appended.rows, appended.bytes, appended.lsn), (3, 30, 60));
    for (rows, bytes) in [(2, 30), (3, 31)] {
        assert_eq!(
            decode_appended_page(1, &page, target, Some(rows), Some(bytes)).unwrap_err(),
            "Join page append disagrees with its measurement"
        );
    }
    assert_eq!(decode_page_candidates(1, Some(2), Some(2)), Ok(()));
    assert_eq!(
        decode_page_candidates(1, Some(2), Some(1)).unwrap_err(),
        "Join page candidate counts would underflow"
    );
    assert_eq!(decode_own_state(1, Some(2), Some(2), Some(2)), Ok(()));
    assert_eq!(
        decode_own_state(1, Some(2), Some(1), Some(1)).unwrap_err(),
        "Join page own multiplicity would underflow"
    );
    let (advance, work) = finish_inner_page(&page, &left()).unwrap();
    assert_eq!(advance.next_chunk_seq, 4);
    assert_eq!(
        work,
        WorkUsage {
            input_rows: 2,
            input_bytes: 20,
            output_rows: 3,
            output_bytes: 30,
        }
    );
    let mut full = left();
    full.next_chunk_seq = i64::MAX;
    assert_eq!(
        finish_inner_page(&page, &full).unwrap_err(),
        "Join page input cursor overflow"
    );
}

#[test]
fn join_budget_is_clamped_to_its_stream() {
    let clamped = effective_budget(&budget(), &output()).unwrap();
    assert_eq!((clamped.max_output_rows, clamped.max_output_bytes), (3, 60));
    assert_eq!((clamped.max_input_rows, clamped.max_input_bytes), (4, 1_000));
    let mut target = output();
    target.target_rows = 0;
    assert_eq!(
        effective_budget(&budget(), &target).unwrap_err(),
        "Join output stream has a zero target"
    );
    target.target_rows = -1;
    assert_eq!(
        effective_budget(&budget(), &target).unwrap_err(),
        "negative Join row target"
    );
    target = output();
    target.target_bytes = -1;
    assert_eq!(
        effective_budget(&budget(), &target).unwrap_err(),
        "negative Join byte target"
    );
}

#[test]
fn join_page_statements_are_complete() {
    let data = chunk(11, ChunkKind::Data, 60);
    for keys in [&[][..], &["id", "name"][..]] {
        for side in [InputSide::Left, InputSide::Right] {
            let layout = layout(keys);
            let statements = [
                measure_page_statement(&layout, side, &data),
                append_page_statement(
                    &layout,
                    side,
                    &data,
                    &output(),
                    OutputAppendTarget::New { sequence: 7 },
                )
                .unwrap(),
                page_candidates_statement(&layout, side, &data),
                own_state_statement(&layout, side, "row_key", &data),
            ];
            for statement in statements {
                assert!(complete(&statement.sql), "{}", statement.sql);
                assert_eq!(statement.arguments[0], SqlValue::BigInt(Some(11)));
                assert_eq!(statement.arguments[1], SqlValue::BigInt(Some(3)));
            }
        }
    }
}

#[test]
fn join_step_statements_are_complete() {
    for keys in [&[][..], &["id"][..]] {
        let layout = layout(keys);
        let position = InputPosition::new(11, 3, 0).unwrap();
        let start = after_preflight(event(0), OwnExpectation::absent()).unwrap();
        let progress = candidate_progress(&start).unwrap();
        for mode in [JoinMode::Inner, JoinMode::Full, JoinMode::NullAwareAnti, JoinMode::Semi] {
            let probe = probe_statement(&layout, mode, &progress, &event(0), &budget()).unwrap();
            assert!(complete(&probe.sql), "{}", probe.sql);
            let eligible = eligibility_sql(mode, "m", "u");
            assert!(complete(&eligible), "{eligible}");
        }
        for statement in [
            event_statement(&layout, InputSide::Left, position),
            own_statement(&layout, &event(0), "row_key"),
            completion_statement(&layout, &event(0), &vec![candidate(4)], &progress),
            completion_statement(&layout, &event(0), &vec![], &progress),
            current_output_statement(&layout, &event(0)),
        ] {
            assert!(complete(&statement.sql), "{}", statement.sql);
        }
        let page = ProbePage::new(vec![candidate(4)], true).unwrap();
        let plan = plan_actions(JoinMode::Full, &start, event(0), &page, budget()).unwrap();
        let rows = compose_actions(&layout, &event(0), plan.actions()).unwrap();
        assert!(complete(&rows.sql), "{}", rows.sql);
        assert_eq!(rows.expected.rows, plan.usage().output_rows);
        let statement = append_statement(
            &layout,
            &rows,
            &output(),
            OutputAppendTarget::New { sequence: 7 },
        )
        .unwrap();
        assert!(complete(&statement.sql), "{}", statement.sql);
        let changes = candidate_changes_statement("left_state", plan.candidate_changes());
        assert!(complete(&changes) && changes.contains("left_state"), "{changes}");
        for kind in [
            OwnStateChangeKind::Insert,
            OwnStateChangeKind::Update,
            OwnStateChangeKind::Delete,
        ] {
            let mut change = OwnStateChange {
                kind,
                expected_row_id: Some(4),
                expected_multiplicity: 1,
                new_multiplicity: 2,
                counts: counts(1, 0),
            };
            let sql = own_change_statement(&layout, &event(0), &change, "row_key").unwrap();
            assert!(complete(&sql), "{sql}");
            change.expected_row_id = None;
            assert_eq!(
                own_change_statement(&layout, &event(0), &change, "row_key").is_ok(),
                kind == OwnStateChangeKind::Insert
            );
        }
    }
}

#[test]
fn join_events_and_own_rows_are_decoded() {
    let decoded = decode_event(1, Some(1), Some(7), positions(0, 0), InputSide::Left).unwrap();
    assert_eq!(decoded, event(0));
    assert_eq!(
        decode_event(0, Some(1), Some(7), positions(0, 0), InputSide::Left).unwrap_err(),
        "Join input position has no unique typed effect row"
    );
    assert!(decode_event(1, Some(0), Some(7), positions(0, 0), InputSide::Left).is_err());
    assert_eq!(
        decode_event(1, None, Some(7), positions(0, 0), InputSide::Left).unwrap_err(),
        "database returned NULL Join input weight"
    );
    let row = OwnRow {
        row_id: Some(4),
        multiplicity: Some(2),
        match_count: Some(1),
        unknown_count: Some(0),
    };
    assert_eq!(
        decode_own(1, &row, &event(0)),
        OwnExpectation::present(4, 2, counts(1, 0))
    );
    assert_eq!(decode_own(0, &row, &event(0)), Ok(OwnExpectation::absent()));
    assert_eq!(
        decode_own(2, &row, &event(0)).unwrap_err(),
        "Join own typed row has 2 arrangement identities"
    );
}

#[test]
fn join_candidates_are_decoded_in_order() {
    let row = |row_id| CandidateRow {
        row_id: Some(row_id),
        multiplicity: Some(1),
        truth: Some(MatchTruth::True.code()),
        match_count: Some(0),
        unknown_count: Some(0),
        row_bytes: Some(5),
        pair_bytes: Some(9),
        candidate_bytes: Some(9),
    };
    assert_eq!(
        decode_candidates(&vec![row(4), row(5)]),
        Ok(vec![candidate(4), candidate(5)])
    );
    assert_eq!(decode_candidates(&vec![]), Ok(vec![]));
    let mut broken = row(4);
    broken.truth = None;
    assert_eq!(
        decode_candidates(&vec![row(3), broken]).unwrap_err(),
        "database returned NULL Join candidate truth"
    );
    broken = row(4);
    broken.row_bytes = Some(-1);
    assert!(decode_candidates(&vec![broken]).is_err());
    assert_eq!(decode_completion(Some(true)), Ok(true));
    assert_eq!(
        decode_completion(None).unwrap_err(),
        "Join candidate completion probe returned NULL"
    );
}

#[test]
fn join_output_is_stored_as_probed() {
    let start = after_preflight(event(0), OwnExpectation::absent()).unwrap();
    let page = ProbePage::new(vec![candidate(4)], true).unwrap();
    let plan = plan_actions(JoinMode::Inner, &start, event(0), &page, budget()).unwrap();
    assert_eq!(plan.actions()[0].kind, OutputActionKind::Pair);
    let rows = compose_actions(&layout(&[]), &event(0), plan.actions()).unwrap();
    assert_eq!((rows.expected.rows, rows.expected.bytes), (1, 9));
    let target = OutputAppendTarget::New { sequence: 7 };
    let row = AppendRow {
        rows: Some(1),
        bytes: Some(9),
        inserted: Some(1),
        stored_bytes: Some(9),
    };
    let appended = decode_append(1, &row, &rows.expected, target, 100).unwrap();
    assert_eq!(appended, append(1, 9));
    let mut broken = row;
    broken.bytes = Some(8);
    assert_eq!(
        decode_append(1, &broken, &rows.expected, target, 100).unwrap_err(),
        "Join output projection changed after its bounded probe"
    );
    broken = row;
    broken.inserted = Some(0);
    assert_eq!(
        decode_append(1, &broken, &rows.expected, target, 100).unwrap_err(),
        "Join output staging returned inconsistent payload facts"
    );
    assert_eq!(
        decode_append(0, &row, &rows.expected, target, 100).unwrap_err(),
        "Join output primitive returned no summary row"
    );
    let mut turned = plan.actions()[0];
    turned.current_side = InputSide::Right;
    assert_eq!(
        compose_actions(&layout(&[]), &event(0), &[turned]).err().unwrap(),
        "Join output action changed its current input side"
    );
    turned = plan.actions()[0];
    turned.candidate_row_id = None;
    assert_eq!(
        compose_actions(&layout(&[]), &event(0), &[turned]).err().unwrap(),
        "Join output action has an invalid candidate identity"
    );
}

#[test]
fn join_state_is_changed_by_comparison() {
    assert_eq!(decode_candidate_changes(Some(2), 2), Ok(2));
    assert_eq!(
        decode_candidate_changes(Some(1), 2).unwrap_err(),
        "Join candidate compare-and-set changed an unexpected row count"
    );
    assert_eq!(
        decode_candidate_changes(Some(-1), 2).unwrap_err(),
        "Join candidate update count is negative"
    );
    assert_eq!(
        decode_candidate_changes(None, 2).unwrap_err(),
        "Join candidate update count returned NULL"
    );
    assert_eq!(decode_current_output(1, Some(9)), Ok(9));
    assert_eq!(
        decode_current_output(2, Some(9)).unwrap_err(),
        "Join current-row projection returned no unique row"
    );
    assert_eq!(require_own_change(1), Ok(()));
    assert_eq!(
        require_own_change(0).unwrap_err(),
        "Join own arrangement compare-and-set did not affect one row"
    );
    let change = CandidateStateChange {
        expected: CandidateExpectation::new(4, 1, MatchTruth::True, counts(0, 0), counts(1, 0))
            .unwrap(),
    };
    let sql = candidate_changes_statement("right_state", &[change]);
    assert!(complete(&sql) && sql.contains("right_state"), "{sql}");
}

#[test]
fn join_keys_are_typed_by_their_slots() {
    let slots = vec![slot(1, 0, 20), slot(2, 1, 20), slot(3, 0, 25)];
    let found = join_key_slots(&slots, &vec![key(1, 2)], 0).unwrap();
    assert_eq!(found, vec![slot(1, 0, 20)]);
    assert_eq!(
        join_key_slots(&slots, &vec![key(9, 2)], 0).unwrap_err(),
        "Join equality key references missing BindingId 9"
    );
    assert!(join_key_slots(&slots, &vec![key(2, 1)], 0).unwrap_err().contains("BindingId 2"));
    assert_eq!(
        join_key_types(&slots, &vec![key(1, 2)], 1),
        Ok(vec![slot_type(20)])
    );
    assert_eq!(key(1, 2).binding(1), BindingId(2));
    assert_eq!(side_alias(InputSide::Left), "left_row");
    assert_eq!(key_column(1), "key_1");
    assert!(key_columns_sql(2).contains("key_1"));
    assert!(insert_columns_sql(1).contains("key_0"));
    let keyed = layout(&["id"]);
    assert!(keyed.keyed() && !layout(&[]).keyed());
    assert_eq!(keyed.output_row(), "ROW(left_row.a)::output_type");
    assert_eq!(keyed.state(InputSide::Right), "right_state");
    assert_eq!(key_predicate_sql(&layout(&[]), InputSide::Left, "r", false), "TRUE");
    for sql in [
        key_exact_predicate_sql(&keyed, InputSide::Left, "r"),
        key_unknown_predicate_sql(&keyed, InputSide::Left, "r"),
        key_predicate_sql(&keyed, InputSide::Left, "r", true),
        key_join_sql(&keyed, InputSide::Left, "r", false),
    ] {
        assert!(complete(&sql) && sql.contains("key_0"), "{sql}");
    }
}

#[test]
fn join_arrangement_is_exact_and_indexed() {
    let slots = vec![slot(1, 0, 25)];
    let mut attributes = vec![
        attribute("row_id", 1, 20, true),
        attribute("row_key", 2, 17, true),
        attribute("row_value", 3, 77, true),
        attribute("key_0", 4, 25, false),
        attribute("multiplicity", 5, 20, true),
        attribute("match_count", 6, 20, true),
        attribute("unknown_count", 7, 20, true),
    ];
    assert_eq!(validate_state_abi(&attributes, 77, &slots), Ok(()));
    attributes[3].type_oid = 20;
    assert_eq!(
        validate_state_abi(&attributes, 77, &slots).unwrap_err(),
        "Join equality key columns changed the Join ABI"
    );
    attributes[0].name = "id".to_owned();
    assert_eq!(
        validate_state_abi(&attributes, 77, &slots).unwrap_err(),
        "Join arrangement relation changed its ABI"
    );
    assert_eq!(row_key_index_statement(9).arguments[0], SqlValue::Oid(9));
    assert_eq!(key_index_statement(9, 1).arguments[0], SqlValue::Oid(9));
    assert_eq!(require_row_key_index(Some(true)), Ok(()));
    assert_eq!(
        require_row_key_index(Some(false)).unwrap_err(),
        "Join arrangement relation lacks its row-key unique index"
    );
    assert_eq!(
        require_key_index(Some(false)).unwrap_err(),
        "Join arrangement lacks its equality lookup index"
    );
    assert_eq!(
        require_key_index(None).unwrap_err(),
        "database returned NULL Join equality key index"
    );
}

#[test]
fn join_provision_checks_its_plan() {
    assert_eq!(validate_provision(Operator::Join, 9, 1, 2, 2, 3, 3), Ok(()));
    assert_eq!(
        validate_provision(Operator::Join, 0, 1, 2, 2, 3, 3).unwrap_err(),
        "Join provisioning received an invalid result OID"
    );
    assert_eq!(
        validate_provision(Operator::Join, 9, -1, 2, 2, 3, 3).unwrap_err(),
        "Join provisioning received a negative stage ID"
    );
    assert_eq!(
        validate_provision(Operator::Scan, 9, 1, 2, 2, 3, 3).unwrap_err(),
        "Join provisioning received another operator"
    );
    assert!(validate_provision(Operator::Join, 9, 1, 1, 2, 3, 3)
        .unwrap_err()
        .starts_with("Join stage 1"));
    assert!(validate_provision(Operator::Join, 9, 1, 2, 2, 3, 4)
        .unwrap_err()
        .starts_with("Join stage 1"));
    let attributes = vec![attribute("a", 1, 20, false)];
    assert_eq!(validate_payload(&attributes, &vec![slot_type(20)], 1), Ok(()));
    assert!(validate_payload(&attributes, &vec![slot_type(25)], 1)
        .unwrap_err()
        .starts_with("Join stage 1"));
    assert_ne!(
        arrangement_name(InputSide::Left, 9, 1),
        arrangement_name(InputSide::Right, 9, 1)
    );
    assert_eq!(continuation_name(9, 1), "join_continuation_r9_s1");
    let body = state_body("s.row", &vec!["bigint".to_owned()]);
    assert!(complete(&body) && body.contains("s.row") && body.contains("bigint"), "{body}");
    let index = state_index("join_left_r9_s1", "s.state", 2);
    assert!(index.starts_with("CREATE INDEX \"join_left_r9_s1_key_idx\" ON s.state"), "{index}");
    let continuation = create_continuation("s.c");
    assert!(complete(&continuation) && continuation.contains("s.c"));
}

#[test]
fn join_cursor_is_read_back() {
    let preflight = JoinContinuation::start_preflight(positions(1, 0), InputSide::Left).unwrap();
    let start = after_preflight(event(0), OwnExpectation::absent()).unwrap();
    let frontier = JoinContinuation::start_frontier(
        FrontierInputFacts::new(InputSide::Right, positions(0, 0), 90).unwrap(),
    )
    .unwrap();
    for continuation in [preflight, start, frontier] {
        let fields = continuation_fields(&continuation).unwrap();
        let row = JoinRow {
            phase: Some(fields.phase),
            input_side: Some(fields.input_side),
            left_stream_id: Some(fields.left_stream_id),
            left_chunk_seq: Some(fields.left_chunk_seq),
            left_row_ordinal: Some(fields.left_row_ordinal),
            right_stream_id: Some(fields.right_stream_id),
            right_chunk_seq: Some(fields.right_chunk_seq),
            right_row_ordinal: Some(fields.right_row_ordinal),
            event_weight: fields.event_weight,
            event_bytes: fields.event_bytes,
            own_row_id: fields.own_row_id,
            own_multiplicity: fields.own_multiplicity,
            own_match_count: fields.own_match_count,
            own_unknown_count: fields.own_unknown_count,
            candidate_after: fields.candidate_after,
            accumulated_match_count: fields.accumulated_match_count,
            accumulated_unknown_count: fields.accumulated_unknown_count,
            pending_row_id: fields.pending_row_id,
            pending_multiplicity: fields.pending_multiplicity,
            pending_truth: fields.pending_truth,
            pending_old_match: fields.pending_old_match,
            pending_old_unknown: fields.pending_old_unknown,
            pending_new_match: fields.pending_new_match,
            pending_new_unknown: fields.pending_new_unknown,
            frontier_lsn: fields.frontier_lsn.map(shiba::postgres::format_lsn),
        };
        assert_eq!(decode_continuation(&row), Ok(continuation));
        let mut broken = row.clone();
        broken.phase = None;
        assert_eq!(
            decode_continuation(&broken).unwrap_err(),
            "database returned NULL Join phase"
        );
        broken = row.clone();
        broken.pending_row_id = Some(3);
        assert!(decode_continuation(&broken).is_err());
        let replaced =
            replace_continuation("s.c", &Some(continuation), &Some(preflight)).unwrap();
        assert_eq!(
            replaced.insert.unwrap().arguments.len(),
            continuation_columns().len() - 1
        );
    }
    let replaced = replace_continuation("s.c", &None, &None).unwrap();
    assert!(replaced.delete.is_none() && replaced.insert.is_none());
}

#[test]
fn fanout_emits_each_action_once_whatever_its_pages() {
    let candidates = vec![candidate(4), candidate(5), candidate(6)];
    let start = after_preflight(event(0), OwnExpectation::absent()).unwrap();
    let whole = ProbePage::new(candidates.clone(), true).unwrap();
    let wide = WorkBudget::new(4, 1_000, 8, 1_000);
    let plan = plan_actions(JoinMode::Full, &start, event(0), &whole, wide).unwrap();
    assert_eq!(plan.next_continuation().phase(), JoinPhase::Finalize);
    assert_eq!(plan.actions().len(), 6);
    let narrow = WorkBudget::new(4, 1_000, 1, 1_000);
    let mut continuation = start;
    let mut actions = Vec::new();
    let mut changes = Vec::new();
    let mut pages = 0;
    while continuation.phase() != JoinPhase::Finalize {
        let after = candidate_progress(&continuation).unwrap().candidate_after();
        let left: Vec<CandidateProbe> = candidates
            .iter()
            .filter(|candidate| after.map_or(true, |after| candidate.row_id > after))
            .copied()
            .collect();
        let page = ProbePage::new(left, true).unwrap();
        let step = plan_actions(JoinMode::Full, &continuation, event(0), &page, narrow).unwrap();
        actions.extend_from_slice(step.actions());
        changes.extend_from_slice(step.candidate_changes());
        continuation = *step.next_continuation();
        pages += 1;
    }
    assert_eq!(pages, 6);
    assert_eq!(actions, plan.actions());
    assert_eq!(changes, plan.candidate_changes());
    assert_eq!(&continuation, plan.next_continuation());
    let emitted = |kind: OutputActionKind| -> i64 {
        actions.iter().filter(|action| action.kind == kind).map(|action| action.weight).sum()
    };
    assert_eq!(emitted(OutputActionKind::Pair), 3);
    assert_eq!(emitted(OutputActionKind::CandidateEligibility), -3);
    assert_eq!(emitted(OutputActionKind::CurrentEligibility), 0);
}

#[test]
fn two_plans_of_a_cut_page_are_one_plan() {
    let candidates = vec![candidate(4), candidate(5), candidate(6)];
    let start = after_preflight(event(0), OwnExpectation::absent()).unwrap();
    let page = ProbePage::new(candidates.clone(), true).unwrap();
    let rows = |rows| WorkBudget::new(4, 1_000, rows, 1_000);
    let plan = plan_actions(JoinMode::Full, &start, event(0), &page, rows(6)).unwrap();
    assert_eq!(plan.next_continuation().phase(), JoinPhase::Finalize);
    for taken in 1..6 {
        let cut = plan_actions(JoinMode::Full, &start, event(0), &page, rows(taken)).unwrap();
        let finished = taken / 2;
        assert_eq!(cut.candidate_changes().len(), finished);
        let rest = ProbePage::new(candidates[finished..].to_vec(), true).unwrap();
        let resumed = plan_actions(
            JoinMode::Full,
            cut.next_continuation(),
            event(0),
            &rest,
            rows(6 - taken),
        )
        .unwrap();
        assert_eq!([cut.actions(), resumed.actions()].concat(), plan.actions());
        assert_eq!(
            [cut.candidate_changes(), resumed.candidate_changes()].concat(),
            plan.candidate_changes()
        );
        assert_eq!(resumed.next_continuation(), plan.next_continuation());
    }
}

#[test]
fn retracted_event_takes_back_its_actions() {
    let inserted =
        classify_candidate(JoinMode::Full, InputSide::Left, 2, candidate(4)).unwrap();
    let counted = CandidateProbe { old_counts: inserted.expected.new_counts, ..candidate(4) };
    let retracted = classify_candidate(JoinMode::Full, InputSide::Left, -2, counted).unwrap();
    assert_eq!(retracted.expected.new_counts, candidate(4).old_counts);
    let opposite: Vec<OutputAction> = inserted
        .actions
        .iter()
        .map(|action| OutputAction { weight: -action.weight, ..*action })
        .collect();
    assert_eq!(opposite.len(), 2);
    assert_eq!(retracted.actions, opposite);
}
