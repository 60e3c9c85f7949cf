use shiba::execution::contract::{InputPosition, KernelPhase, OutputFacts};
use shiba::execution::join::layout::{key_index_statement, row_key_index_statement, Layout};
use shiba::execution::join::opening::{
    goes_on, load_locked, tries_page, ArrangementPlan, ForwardPlan, Inputs,
};
use shiba::execution::join::pages::{
    append_page_statement, measure_page_statement, own_state_statement, page_candidates_statement,
    InnerPage,
};
use shiba::execution::join::paging::{MeasurePlan, PagePlan};
use shiba::execution::join::planner::{
    plan_actions, CandidateProbe, FrontierInputFacts, InputEventFacts, InputPositions, InputSide,
    JoinContinuation, JoinMode, JoinPhase, MatchCounts, MatchTruth, OwnExpectation,
    OwnStateChange, OwnStateChangeKind, ProbePage, ProjectionBytes,
};
use shiba::execution::join::publishing::{OwnPlan, PublishPlan};
use shiba::execution::join::reading::{probe_page, EventPlan, ProbePlan, ProjectPlan};
use shiba::execution::join::statements::{
    append_statement, candidate_changes_statement, completion_statement, compose_actions,
    current_output_statement, event_statement, own_change_statement, own_statement,
    probe_statement,
};
use shiba::execution::join::step::{after_preflight, candidate_progress, JoinKind, JoinTransition};
use shiba::execution::join::transition::{SideTexts, TransitionClose, TransitionPlan};
use shiba::execution::stream::{
    ChunkKind, ChunkMeta, InputState, OutputAppendTarget, OutputState, ProducerKind,
};
use shiba::planner::{WorkBudget, WorkUsage};
use shiba::session::{Cell, Progress, Reply, Request, Row, EMPTY, MISPLACED, MISTYPED};

fn row(cells: Vec<Cell>) -> Reply {
    Reply::Rows(vec![Row { cells }])
}

fn empty() -> Reply {
    Reply::Rows(vec![])
}

fn big(value: i64) -> Cell {
    Cell::BigInt(value)
}

fn word(value: &str) -> Cell {
    Cell::Text(value.to_owned())
}

fn drive<S, C>(
    mut progress: Progress<S, C>,
    mut resume: impl FnMut(S, Reply) -> Result<Progress<S, C>, String>,
    replies: Vec<Reply>,
) -> (Vec<Request>, Result<C, String>) {
    let mut requests = Vec::new();
    let mut replies = replies.into_iter();
    loop {
        match progress {
            Progress::Done(outcome) => {
                assert!(replies.next().is_none(), "a reply was left over");
                return (requests, Ok(outcome));
            }
            Progress::Ask { state, request } => {
                requests.push(request);
                let reply = replies.next().expect("a reply is missing");
                match resume(state, reply) {
                    Ok(next) => progress = next,
                    Err(error) => return (requests, Err(error)),
                }
            }
        }
    }
}

fn sql(request: &Request) -> &str {
    match request {
        Request::Read(statement)
        | Request::Probe(statement)
        | Request::Write(statement)
        | Request::Lock(statement) => &statement.sql,
        other => panic!("{other:?} is no statement"),
    }
}

fn layout(keys: &[&str]) -> Layout {
    Layout {
        left_payload: "left_payload".into(),
        left_type: "left_type".into(),
        right_payload: "right_payload".into(),
        right_type: "right_type".into(),
        output_payload: "output_payload".into(),
        output_type: "output_type".into(),
        left_state: "left_state".into(),
        right_state: "right_state".into(),
        left_key_exprs: keys.iter().map(|key| format!("left_row.{key}")).collect(),
        right_key_exprs: keys.iter().map(|key| format!("right_row.{key}")).collect(),
        condition: "left_row.a < right_row.b".into(),
        outputs: "left_row.a".into(),
    }
}

fn budget() -> WorkBudget {
    WorkBudget::new(4, 1_000, 4, 1_000)
}

fn input(port: u16, stream_id: i64) -> InputState {
    InputState {
        port,
        stream_id,
        producer: ProducerKind::Operator,
        source_oid: None,
        next_chunk_seq: 3,
        consumed_frontier_lsn: 50,
        activation_lsn: 0,
        available_source_frontier_lsn: None,
    }
}

fn left() -> InputState {
    input(0, 11)
}

fn right() -> InputState {
    input(1, 12)
}

fn output() -> OutputState {
    OutputState {
        stream_id: 13,
        next_chunk_seq: 7,
        target_rows: 3,
        target_bytes: 60,
        published_frontier_lsn: Some(40),
        latest_data_lsn: None,
    }
}

fn chunk(stream_id: i64, kind: ChunkKind, lsn: u64) -> ChunkMeta {
    ChunkMeta {
        stream_id,
        sequence: 3,
        kind,
        rows: if kind == ChunkKind::Data { 2 } else { 0 },
        bytes: if kind == ChunkKind::Data { 20 } else { 0 },
        lsn,
    }
}

fn positions(left: i64, right: i64) -> InputPositions {
    InputPositions::new(
        InputPosition::new(11, 3, left).unwrap(),
        InputPosition::new(12, 3, right).unwrap(),
    )
    .unwrap()
}

fn event(row: i64) -> InputEventFacts {
    InputEventFacts::new(InputSide::Left, positions(row, 0), 1, 7).unwrap()
}

fn counts(matched: u64, unknown: u64) -> MatchCounts {
    MatchCounts::new(matched, unknown).unwrap()
}

fn candidate(row_id: i64) -> CandidateProbe {
    CandidateProbe::new(
        row_id,
        1,
        MatchTruth::True,
        counts(0, 0),
        5,
        ProjectionBytes::new(Some(9), Some(9)).unwrap(),
    )
    .unwrap()
}

fn inputs() -> Inputs {
    Inputs { left: left(), right: right() }
}

fn truth(value: bool) -> Reply {
    row(vec![Cell::Boolean(value)])
}

#[test]
fn arrangement_keys_are_looked_up_only_where_there_are_keys() {
    let keyless = ArrangementPlan { relation_oid: 9, keys: 0 };
    let (requests, checked) = drive(
        keyless.open(),
        |state, reply| keyless.resume(state, reply),
        vec![truth(true)],
    );
    assert_eq!(checked, Ok(()));
    assert_eq!(requests, [Request::Read(row_key_index_statement(9))]);
    let keyed = ArrangementPlan { relation_oid: 9, keys: 1 };
    let (requests, checked) = drive(
        keyed.open(),
        |state, reply| keyed.resume(state, reply),
        vec![truth(true), truth(false)],
    );
    assert_eq!(requests[1], Request::Read(key_index_statement(9, 1)));
    assert_eq!(
        checked.unwrap_err(),
        "Join arrangement lacks its equality lookup index"
    );
}

#[test]
fn join_step_begins_at_its_stored_cursor() {
    assert_eq!(load_locked(&vec![]), Ok(None));
    let mut cells = vec![
        Cell::SmallInt(JoinPhase::Preflight.code().value()),
        Cell::SmallInt(InputSide::Left.code()),
    ];
    for value in [11, 3, 1, 12, 3, 0] {
        cells.push(big(value));
    }
    cells.resize(25, Cell::Null);
    let mut mistyped = cells.clone();
    mistyped[19] = big(1);
    assert_eq!(load_locked(&vec![Row { cells: mistyped }]).unwrap_err(), MISTYPED);
    let stored = load_locked(&vec![Row { cells }]).unwrap();
    assert_eq!(
        stored,
        Some(JoinContinuation::start_preflight(positions(1, 0), InputSide::Left).unwrap())
    );
    assert!(!tries_page(&stored, JoinKind::Inner));
    assert!(tries_page(&None, JoinKind::Inner));
    assert!(!tries_page(&None, JoinKind::Left));
    let control = JoinTransition::control(KernelPhase::Process);
    assert!(!goes_on(&control, true));
    assert_eq!(goes_on(&control, false), control.continue_in_transaction);
}

#[test]
fn both_inputs_are_peeked_before_one_opens() {
    let inputs = inputs();
    assert_eq!(inputs.get(InputSide::Right), right());
    let early = chunk(12, ChunkKind::Data, 60);
    let (requests, opened) = drive(
        inputs.open(),
        |state, reply| inputs.resume(state, reply),
        vec![
            Reply::Chunk(Some(chunk(11, ChunkKind::Data, 70))),
            Reply::Chunk(Some(early)),
            Reply::Checked,
        ],
    );
    assert_eq!(
        requests,
        [
            Request::Next { port: 0 },
            Request::Next { port: 1 },
            Request::Measure { port: 1, chunk: early },
        ]
    );
    assert_eq!(opened.unwrap().side, InputSide::Right);
    let (requests, opened) = drive(
        inputs.open(),
        |state, reply| inputs.resume(state, reply),
        vec![
            Reply::Chunk(Some(chunk(11, ChunkKind::Frontier, 60))),
            Reply::Chunk(None),
        ],
    );
    assert_eq!(requests.len(), 2);
    assert_eq!(opened.unwrap().continuation.phase(), JoinPhase::Frontier);
    let (_, opened) = drive(
        inputs.open(),
        |state, reply| inputs.resume(state, reply),
        vec![Reply::Chunk(None), Reply::Chunk(None)],
    );
    assert_eq!(
        opened.unwrap_err(),
        "runnable Join has neither a continuation nor an input chunk"
    );
}

#[test]
fn join_publishes_the_slower_frontier() {
    let facts = FrontierInputFacts::new(InputSide::Left, positions(0, 0), 90).unwrap();
    let plan = ForwardPlan {
        inputs: inputs(),
        output: output(),
        budget: budget(),
        continuation: JoinContinuation::start_frontier(facts).unwrap(),
    };
    let head = || Reply::Chunk(Some(chunk(11, ChunkKind::Frontier, 90)));
    let (requests, close) = drive(
        plan.open().unwrap(),
        |state, reply| plan.resume(state, reply),
        vec![head(), Reply::Output(OutputFacts::Frontier { chunk_seq: 7 })],
    );
    assert_eq!(
        requests,
        [
            Request::Chunk { port: 0, sequence: 3 },
            Request::Frontier { lsn: 50 },
        ]
    );
    let close = close.unwrap();
    assert_eq!((close.side, close.transition.phase), (InputSide::Left, KernelPhase::Frontier));
    assert_eq!((close.advance.next_chunk_seq, close.advance.frontier_lsn), (4, 90));

    let mut published = output();
    published.published_frontier_lsn = Some(50);
    let silent = ForwardPlan { output: published, ..plan };
    let (requests, close) = drive(
        silent.open().unwrap(),
        |state, reply| silent.resume(state, reply),
        vec![head()],
    );
    assert_eq!(requests.len(), 1);
    assert_eq!(close.unwrap().advance.frontier_lsn, 90);
}

#[test]
fn join_event_is_read_with_its_own_row() {
    let layout = layout(&["id"]);
    let plan = EventPlan {
        layout: &layout,
        inputs: inputs(),
        positions: positions(0, 0),
        side: InputSide::Left,
        row_key: Some("row_key"),
    };
    let data = chunk(11, ChunkKind::Data, 60);
    let (requests, read) = drive(
        plan.open().unwrap(),
        |state, reply| plan.resume(state, reply),
        vec![
            Reply::Chunk(Some(data)),
            row(vec![big(1), big(7)]),
            row(vec![big(4), big(2), big(1), big(0)]),
        ],
    );
    let position = InputPosition::new(11, 3, 0).unwrap();
    assert_eq!(
        requests,
        [
            Request::Chunk { port: 0, sequence: 3 },
            Request::Read(event_statement(&layout, InputSide::Left, position)),
            Request::Lock(own_statement(&layout, &event(0), "row_key")),
        ]
    );
    let read = read.unwrap();
    assert_eq!((read.chunk, read.event), (data, event(0)));
    assert_eq!(read.own, OwnExpectation::present(4, 2, counts(1, 0)).ok());
    let bare = EventPlan { row_key: None, ..plan };
    let (requests, read) = drive(
        bare.open().unwrap(),
        |state, reply| bare.resume(state, reply),
        vec![Reply::Chunk(Some(data)), row(vec![big(1), big(7)])],
    );
    assert_eq!((requests.len(), read.unwrap().own), (2, None));
    let displaced = EventPlan { side: InputSide::Right, positions: positions(1, 0), ..bare };
    assert_eq!(
        displaced.open().unwrap_err(),
        "Join continuation is not at its locked consumer positions"
    );
}

fn candidate_row(row_id: i64) -> Row {
    Row {
        cells: vec![
            big(row_id),
            big(1),
            Cell::SmallInt(MatchTruth::True.code()),
            big(0),
            big(0),
            big(5),
            big(9),
            big(9),
        ],
    }
}

#[test]
fn probe_says_whether_candidates_are_left() {
    let layout = layout(&["id"]);
    let start = after_preflight(event(0), OwnExpectation::absent()).unwrap();
    let progress = candidate_progress(&start).unwrap();
    let plan = ProbePlan {
        layout: &layout,
        mode: JoinMode::Inner,
        progress,
        event: event(0),
        budget: budget(),
    };
    let candidates = vec![candidate(4), candidate(5)];
    let (requests, probed) = drive(
        plan.open().unwrap(),
        |state, reply| plan.resume(state, reply),
        vec![
            Reply::Rows(vec![candidate_row(4), candidate_row(5)]),
            truth(true),
        ],
    );
    assert_eq!(
        requests,
        [
            Request::Read(
                probe_statement(&layout, JoinMode::Inner, &progress, &event(0), &budget()).unwrap()
            ),
            Request::Read(completion_statement(&layout, &event(0), &candidates, &progress)),
        ]
    );
    let probed = probed.unwrap();
    assert!(probed.complete);
    assert_eq!(probe_page(&probed), ProbePage::new(candidates, true));
    let mut cells = candidate_row(4).cells;
    cells[1] = Cell::Null;
    let (requests, probed) = drive(
        plan.open().unwrap(),
        |state, reply| plan.resume(state, reply),
        vec![row(cells)],
    );
    assert_eq!(
        probed.unwrap_err(),
        "database returned NULL Join candidate multiplicity"
    );
    assert_eq!(requests.len(), 1);
    let (_, probed) = drive(
        plan.open().unwrap(),
        |state, reply| plan.resume(state, reply),
        vec![row(vec![big(4)])],
    );
    assert_eq!(probed.unwrap_err(), MISTYPED);
    let (_, probed) = drive(
        plan.open().unwrap(),
        |state, reply| plan.resume(state, reply),
        vec![empty(), empty()],
    );
    assert_eq!(probed.unwrap_err(), EMPTY);
}

#[test]
fn current_row_is_measured_where_it_is_output() {
    let layout = layout(&["id"]);
    let start = after_preflight(event(0), OwnExpectation::absent()).unwrap();
    let page = ProbePage::new(vec![], true).unwrap();
    let finalize = |mode| {
        *plan_actions(mode, &start, event(0), &page, budget())
            .unwrap()
            .next_continuation()
    };
    let outer = ProjectPlan {
        layout: &layout,
        kind: JoinKind::Left,
        continuation: finalize(JoinMode::Left),
        event: event(0),
        own: OwnExpectation::absent(),
    };
    let (requests, projected) = drive(
        outer.open().unwrap(),
        |state, reply| outer.resume(state, reply),
        vec![row(vec![big(9)])],
    );
    assert_eq!(requests, [Request::Read(current_output_statement(&layout, &event(0)))]);
    assert_eq!(projected.unwrap().output_bytes, Some(9));
    let inner = ProjectPlan {
        kind: JoinKind::Inner,
        continuation: finalize(JoinMode::Inner),
        ..outer
    };
    let (requests, projected) = drive(
        inner.open().unwrap(),
        |state, reply| inner.resume(state, reply),
        vec![],
    );
    assert!(requests.is_empty());
    assert_eq!(projected.unwrap().output_bytes, None);
}

#[test]
fn planned_actions_are_published_before_their_states() {
    let layout = layout(&["id"]);
    let start = after_preflight(event(0), OwnExpectation::absent()).unwrap();
    let page = ProbePage::new(vec![candidate(4)], true).unwrap();
    let actions = plan_actions(JoinMode::Inner, &start, event(0), &page, budget()).unwrap();
    let rows = compose_actions(&layout, &event(0), actions.actions()).unwrap();
    let target = OutputAppendTarget::New { sequence: 7 };
    let plan = PublishPlan {
        layout: &layout,
        output: output(),
        lsn: 100,
        rows: Some(&rows),
        state: "right_state",
        changes: actions.candidate_changes(),
    };
    let stored = || row(vec![big(1), big(9), big(1), big(9)]);
    let (requests, published) = drive(
        plan.open(),
        |state, reply| plan.resume(state, reply),
        vec![Reply::Target(target), stored(), row(vec![big(1)])],
    );
    assert_eq!(
        requests[..2],
        [
            Request::Target { rows: 1, bytes: 9 },
            Request::Write(append_statement(&layout, &rows, &output(), target).unwrap()),
        ]
    );
    assert_eq!(
        sql(&requests[2]),
        candidate_changes_statement("right_state", actions.candidate_changes())
    );
    let published = published.unwrap();
    assert_eq!(published.changed, 1);
    let append = published.append.unwrap();
    assert_eq!((append.rows, append.bytes, append.lsn), (1, 9, 100));
    let (_, published) = drive(
        plan.open(),
        |state, reply| plan.resume(state, reply),
        vec![Reply::Target(target), stored(), row(vec![big(0)])],
    );
    assert_eq!(
        published.unwrap_err(),
        "Join candidate compare-and-set changed an unexpected row count"
    );
    let idle = PublishPlan { rows: None, changes: &[], ..plan };
    let (requests, published) = drive(
        idle.open(),
        |state, reply| idle.resume(state, reply),
        vec![],
    );
    assert!(requests.is_empty());
    let published = published.unwrap();
    assert_eq!((published.append, published.changed), (None, 0));
}

#[test]
fn own_row_is_changed_exactly_once() {
    let layout = layout(&["id"]);
    let change = OwnStateChange {
        kind: OwnStateChangeKind::Update,
        expected_row_id: Some(4),
        expected_multiplicity: 1,
        new_multiplicity: 2,
        counts: counts(1, 0),
    };
    let plan = OwnPlan {
        layout: &layout,
        event: event(0),
        change,
        row_key: "row_key",
    };
    let (requests, changed) = drive(
        plan.open().unwrap(),
        |state, reply| plan.resume(state, reply),
        vec![row(vec![])],
    );
    assert_eq!(
        sql(&requests[0]),
        own_change_statement(&layout, &event(0), &change, "row_key").unwrap()
    );
    assert_eq!(changed, Ok(()));
    let (_, changed) = drive(
        plan.open().unwrap(),
        |state, reply| plan.resume(state, reply),
        vec![empty()],
    );
    assert_eq!(
        changed.unwrap_err(),
        "Join own arrangement compare-and-set did not affect one row"
    );
    let (_, changed) = drive(
        plan.open().unwrap(),
        |state, reply| plan.resume(state, reply),
        vec![Reply::Checked],
    );
    assert_eq!(changed.unwrap_err(), MISPLACED);
}

#[test]
fn whole_chunk_is_measured_before_it_is_taken() {
    let layout = layout(&["id"]);
    let plan = MeasurePlan {
        layout: &layout,
        inputs: inputs(),
        output: output(),
        budget: budget(),
    };
    let data = chunk(11, ChunkKind::Data, 60);
    let run = |replies| drive(plan.open(), |state, reply| plan.resume(state, reply), replies);
    let (requests, page) = run(vec![
        Reply::Chunk(Some(data)),
        Reply::Chunk(None),
        Reply::Checked,
        row(vec![big(3), big(30)]),
    ]);
    assert_eq!(
        requests,
        [
            Request::Next { port: 0 },
            Request::Next { port: 1 },
            Request::Measure { port: 0, chunk: data },
            Request::Read(measure_page_statement(&layout, InputSide::Left, &data)),
        ]
    );
    let page = page.unwrap().unwrap();
    assert_eq!((page.side, page.output_rows, page.output_bytes), (InputSide::Left, 3, 30));
    let (_, page) = run(vec![
        Reply::Chunk(Some(data)),
        Reply::Chunk(None),
        Reply::Checked,
        row(vec![big(4), big(30)]),
    ]);
    assert_eq!(page, Ok(None));
    let frontier = chunk(12, ChunkKind::Frontier, 50);
    let (requests, page) = run(vec![Reply::Chunk(Some(data)), Reply::Chunk(Some(frontier))]);
    assert_eq!((requests.len(), page), (2, Ok(None)));
    let mut wide = data;
    wide.rows = 5;
    let (requests, page) = run(vec![Reply::Chunk(Some(wide)), Reply::Chunk(None)]);
    assert_eq!((requests.len(), page), (2, Ok(None)));
}

#[test]
fn whole_chunk_commits_behind_both_states() {
    let layout = layout(&["id"]);
    let data = chunk(11, ChunkKind::Data, 60);
    let page = InnerPage {
        side: InputSide::Left,
        chunk: data,
        output_rows: 3,
        output_bytes: 30,
    };
    let plan = PagePlan {
        layout: &layout,
        output: output(),
        owner: left(),
        page,
        row_key: "row_key",
    };
    let target = OutputAppendTarget::New { sequence: 7 };
    let (requests, close) = drive(
        plan.open().unwrap(),
        |state, reply| plan.resume(state, reply),
        vec![
            Reply::Target(target),
            row(vec![big(3), big(30)]),
            row(vec![big(2), big(2)]),
            row(vec![big(2), big(2), big(2)]),
        ],
    );
    assert_eq!(
        requests,
        [
            Request::Target { rows: 3, bytes: 30 },
            Request::Write(
                append_page_statement(&layout, InputSide::Left, &data, &output(), target).unwrap()
            ),
            Request::Write(page_candidates_statement(&layout, InputSide::Left, &data)),
            Request::Write(own_state_statement(&layout, InputSide::Left, "row_key", &data)),
        ]
    );
    let close = close.unwrap();
    assert_eq!(close.append.unwrap().rows, 3);
    assert_eq!(close.advance.next_chunk_seq, 4);
    assert_eq!(
        close.usage,
        WorkUsage { input_rows: 2, input_bytes: 20, output_rows: 3, output_bytes: 30 }
    );
    let empty_page = InnerPage { output_rows: 0, output_bytes: 0, ..page };
    let silent = PagePlan { page: empty_page, ..plan };
    let (requests, close) = drive(
        silent.open().unwrap(),
        |state, reply| silent.resume(state, reply),
        vec![row(vec![big(2), big(1)])],
    );
    assert_eq!(requests.len(), 1);
    assert_eq!(
        close.unwrap_err(),
        "Join page candidate counts would underflow"
    );
}

fn take(
    kind: JoinKind,
    stored: Option<JoinContinuation>,
    replies: Vec<Reply>,
) -> (Vec<Request>, Result<TransitionClose, String>) {
    let layout = layout(&["id"]);
    let plan = TransitionPlan {
        layout: &layout,
        inputs: inputs(),
        output: output(),
        budget: budget(),
        kind,
        input_keys: SideTexts { left: "left_input_key", right: "right_input_key" },
        row_keys: SideTexts { left: "left_row_key", right: "right_row_key" },
    };
    match plan.open(stored) {
        Ok(progress) => drive(progress, |state, reply| plan.resume(state, reply), replies),
        Err(error) => (vec![], Err(error)),
    }
}

fn read_event(row_ordinal: i64) -> Vec<Reply> {
    assert!((0..2).contains(&row_ordinal));
    vec![
        Reply::Chunk(Some(chunk(11, ChunkKind::Data, 60))),
        row(vec![big(1), big(7)]),
    ]
}

#[test]
fn transition_without_a_cursor_opens_an_input() {
    let (requests, close) = take(
        JoinKind::Left,
        None,
        vec![
            Reply::Chunk(Some(chunk(11, ChunkKind::Data, 60))),
            Reply::Chunk(None),
            Reply::Checked,
        ],
    );
    assert_eq!(requests.len(), 3);
    let close = close.unwrap();
    assert_eq!(close.next.unwrap().phase(), JoinPhase::Preflight);
    assert_eq!((close.append, close.advance), (None, None));
    assert_eq!(close.transition, JoinTransition::control(KernelPhase::Process));
}

#[test]
fn preflight_leaves_the_cursor_of_its_probe() {
    let stored = JoinContinuation::start_preflight(positions(0, 0), InputSide::Left).unwrap();
    let mut replies = read_event(0);
    replies.push(empty());
    let (requests, close) = take(JoinKind::Left, Some(stored), replies);
    assert_eq!(
        requests[2],
        Request::Lock(own_statement(&layout(&["id"]), &event(0), "left_input_key"))
    );
    assert_eq!(
        close.unwrap().next,
        Some(after_preflight(event(0), OwnExpectation::absent()).unwrap())
    );
}

#[test]
fn candidates_are_published_before_their_cursor_moves() {
    let stored = after_preflight(event(0), OwnExpectation::absent()).unwrap();
    let mut replies = read_event(0);
    replies.push(Reply::Rows(vec![candidate_row(4)]));
    replies.push(truth(true));
    replies.push(Reply::Target(OutputAppendTarget::New { sequence: 7 }));
    replies.push(row(vec![big(1), big(9), big(1), big(9)]));
    replies.push(row(vec![big(1)]));
    let (requests, close) = take(JoinKind::Inner, Some(stored), replies);
    assert_eq!(requests.len(), 7);
    assert_eq!(requests[4], Request::Target { rows: 1, bytes: 9 });
    let close = close.unwrap();
    assert_eq!(close.next.unwrap().phase(), JoinPhase::Finalize);
    let append = close.append.unwrap();
    assert_eq!((append.rows, append.bytes, append.lsn), (1, 9, 60));
    assert_eq!(close.transition.state_rows, 1);
    let mut replies = read_event(0);
    replies.push(Reply::Rows(vec![]));
    replies.push(truth(true));
    let (requests, close) = take(JoinKind::Inner, Some(stored), replies);
    assert_eq!(requests.len(), 4);
    let close = close.unwrap();
    assert_eq!((close.append, close.transition.state_rows), (None, 0));
    assert_eq!(close.next.unwrap().phase(), JoinPhase::Finalize);
}

fn finalizing(row_ordinal: i64) -> JoinContinuation {
    let start = after_preflight(event(row_ordinal), OwnExpectation::absent()).unwrap();
    let page = ProbePage::new(vec![], true).unwrap();
    *plan_actions(JoinMode::Left, &start, event(row_ordinal), &page, budget())
        .unwrap()
        .next_continuation()
}

#[test]
fn finished_event_emits_itself_and_changes_its_row() {
    let finish = |row_ordinal| {
        let mut replies = read_event(row_ordinal);
        replies.push(empty());
        replies.push(row(vec![big(9)]));
        replies.push(Reply::Target(OutputAppendTarget::New { sequence: 7 }));
        replies.push(row(vec![big(1), big(9), big(1), big(9)]));
        replies.push(row(vec![]));
        take(JoinKind::Left, Some(finalizing(row_ordinal)), replies)
    };
    let (requests, close) = finish(0);
    assert_eq!(requests.len(), 7);
    assert!(sql(&requests[6]).contains("left_row_key"), "{}", sql(&requests[6]));
    let close = close.unwrap();
    assert_eq!(close.next.unwrap().phase(), JoinPhase::Preflight);
    assert_eq!(close.advance, None);
    assert_eq!(close.append.unwrap().rows, 1);
    let (_, close) = finish(1);
    let close = close.unwrap();
    assert_eq!(close.next, None);
    let moved = close.advance.unwrap();
    assert_eq!((moved.side, moved.advance.next_chunk_seq), (InputSide::Left, 4));
    let mut replies = read_event(0);
    replies.push(row(vec![big(4), big(2), big(1), big(0)]));
    let (requests, close) = take(JoinKind::Left, Some(finalizing(0)), replies);
    assert_eq!(requests.len(), 3);
    assert_eq!(
        close.unwrap_err(),
        "Join own arrangement changed during its fanout"
    );
}

#[test]
fn changed_event_is_refused_before_its_row_is_locked() {
    let finish = |weight, bytes| {
        take(
            JoinKind::Left,
            Some(finalizing(0)),
            vec![
                Reply::Chunk(Some(chunk(11, ChunkKind::Data, 60))),
                row(vec![big(weight), big(bytes)]),
            ],
        )
    };
    let (requests, close) = finish(2, 7);
    assert_eq!(requests.len(), 2);
    assert_eq!(
        close.unwrap_err(),
        "Join input weight changed while resuming"
    );
    let (requests, close) = finish(1, 8);
    assert_eq!(requests.len(), 2);
    assert_eq!(
        close.unwrap_err(),
        "Join input byte size changed while resuming"
    );
}

#[test]
fn frontier_transition_clears_its_cursor() {
    let facts = FrontierInputFacts::new(InputSide::Left, positions(0, 0), 90).unwrap();
    let (_, close) = take(
        JoinKind::Full,
        Some(JoinContinuation::start_frontier(facts).unwrap()),
        vec![
            Reply::Chunk(Some(chunk(11, ChunkKind::Frontier, 90))),
            Reply::Output(OutputFacts::Frontier { chunk_seq: 7 }),
        ],
    );
    let close = close.unwrap();
    assert_eq!((close.next, close.transition.phase), (None, KernelPhase::Frontier));
    assert_eq!(close.advance.unwrap().advance.frontier_lsn, 90);
    let stored = JoinContinuation::start_preflight(positions(0, 0), InputSide::Left).unwrap();
    let (_, close) = take(JoinKind::Full, Some(stored), vec![Reply::Checked]);
    assert_eq!(close.unwrap_err(), MISPLACED);
}
