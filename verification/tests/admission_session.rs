use shiba::admission::admitting::{AdmitPlan, AdmitState};
use shiba::admission::{
    classify_statement, generation_statement, header_statement, source_statement,
    transaction_statement, typed_statement, AdmissionFacts, Event, WRITE_BATCH_SQL,
};
use shiba::session::{Cell, Progress, Reply, Request, Row, MISPLACED};

fn row(cells: Vec<Cell>) -> Reply {
    Reply::Rows(vec![Row { cells }])
}

fn empty() -> Reply {
    Reply::Rows(vec![])
}

fn big(value: i64) -> Cell {
    Cell::BigInt(value)
}

fn word(value: &str) -> Cell {
    Cell::Text(value.to_owned())
}

fn drive<S, C>(
    mut progress: Progress<S, C>,
    mut resume: impl FnMut(S, Reply) -> Result<Progress<S, C>, String>,
    replies: Vec<Reply>,
) -> (Vec<Request>, Result<C, String>) {
    let mut requests = Vec::new();
    let mut replies = replies.into_iter();
    loop {
        match progress {
            Progress::Done(outcome) => {
                assert!(replies.next().is_none(), "a reply was left over");
                return (requests, Ok(outcome));
            }
            Progress::Ask { state, request } => {
                requests.push(request);
                let reply = replies.next().expect("a reply is missing");
                match resume(state, reply) {
                    Ok(next) => progress = next,
                    Err(error) => return (requests, Err(error)),
                }
            }
        }
    }
}

fn sql(request: &Request) -> &str {
    match request {
        Request::Read(statement)
        | Request::Probe(statement)
        | Request::Write(statement)
        | Request::Lock(statement) => &statement.sql,
        other => panic!("{other:?} is no statement"),
    }
}

fn batch_event(ordinal: u64, source_oid: u32) -> Event {
    Event {
        change_lsn: 0x1_0000_00AB,
        change_ordinal: ordinal,
        image_ordinal: 1,
        source_subxid: 7,
        source_oid,
        weight: 1,
        payload: "{\"id\":1}".to_owned(),
    }
}

fn plan() -> AdmitPlan {
    AdmitPlan::new(5, vec![batch_event(1, 9), batch_event(2, 9), batch_event(3, 9)]).unwrap()
}

fn header_row(status: &str) -> Reply {
    row(vec![word(status), big(10), big(500), big(2), big(3)])
}

fn classification(inserted: i64, replayed: i64) -> Reply {
    let new = if inserted == 0 { Cell::Null } else { big(replayed + 1) };
    let old = if replayed == 0 { Cell::Null } else { big(replayed) };
    let seq = if replayed == 0 { Cell::Null } else { big(10) };
    row(vec![
        big(inserted),
        big(replayed),
        old,
        new,
        seq.clone(),
        seq,
        Cell::Boolean(false),
        big(40),
    ])
}

fn until_classified(status: &str, classification: Reply) -> Vec<Reply> {
    vec![
        row(vec![big(4)]),
        row(vec![Cell::Integer(1)]),
        header_row(status),
        row(vec![word("public"), word("t")]),
        row(vec![big(3)]),
        classification,
    ]
}

#[test]
fn admission_asks_in_the_lock_order() {
    let plan = plan();
    let mut replies = until_classified("open", classification(2, 1));
    replies.push(row(vec![
        big(2),
        big(11),
        big(12),
        big(40),
        big(1),
        big(1),
        big(1),
        big(12),
        big(540),
        big(3),
        big(4),
    ]));
    let (requests, outcome) = drive(plan.open(), |state, reply| plan.resume(state, reply), replies);
    assert_eq!(
        outcome,
        Ok(AdmissionFacts {
            inserted_count: 2,
            replayed_count: 1,
            first_input_seq: Some(10),
            last_input_seq: Some(12),
        })
    );
    assert_eq!(
        requests[..6],
        [
            Request::Read(transaction_statement(5)),
            Request::Lock(generation_statement(4)),
            Request::Lock(header_statement(5)),
            Request::Read(source_statement(9)),
            Request::Read(typed_statement("\"public\".\"t\"", &plan.encoded, 9)),
            Request::Read(classify_statement(5, &plan.encoded)),
        ]
    );
    assert_eq!(requests.len(), 7);
    assert_eq!(sql(&requests[6]), WRITE_BATCH_SQL);
    assert!(matches!(requests[6], Request::Write(_)));
}

#[test]
fn repeated_batch_is_not_written() {
    let plan = plan();
    let replies = until_classified("open", classification(0, 3));
    let (requests, outcome) = drive(plan.open(), |state, reply| plan.resume(state, reply), replies);
    assert_eq!(outcome.unwrap().inserted_count, 0);
    assert!(requests.iter().all(|request| !matches!(request, Request::Write(_))));
}

#[test]
fn sources_wait_for_an_active_generation() {
    let plan = plan();
    let (requests, outcome) = drive(
        plan.open(),
        |state, reply| plan.resume(state, reply),
        vec![row(vec![big(4)]), empty()],
    );
    assert_eq!(
        outcome.unwrap_err(),
        "active ingress generation returned 0 rows, expected 1"
    );
    assert_eq!(requests.len(), 2);
}

#[test]
fn every_source_is_typed_in_ascending_order() {
    let plan =
        AdmitPlan::new(5, vec![batch_event(1, 20), batch_event(2, 9), batch_event(3, 20)]).unwrap();
    let (requests, outcome) = drive(
        plan.open(),
        |state, reply| plan.resume(state, reply),
        vec![
            row(vec![big(4)]),
            row(vec![Cell::Integer(1)]),
            header_row("open"),
            row(vec![word("public"), word("a")]),
            row(vec![big(1)]),
            row(vec![word("public"), word("b")]),
            row(vec![big(1)]),
        ],
    );
    assert_eq!(
        outcome.unwrap_err(),
        "typed ingress validation for source 20 returned 1 rows, expected 2"
    );
    assert_eq!(requests[3], Request::Read(source_statement(9)));
    assert_eq!(requests[5], Request::Read(source_statement(20)));
}

#[test]
fn failed_requests_say_what_they_were_for() {
    let plan = plan();
    assert_eq!(
        plan.failure(&AdmitState::Resolving, "gone"),
        "could not resolve ingress transaction: gone"
    );
    let state = AdmitState::Guarding { slot_generation: 4 };
    assert_eq!(plan.failure(&state, "gone"), "could not lock ingress generation: gone");
    let state = AdmitState::Heading { slot_generation: 4 };
    assert_eq!(plan.failure(&state, "gone"), "could not lock ingress transaction: gone");
    let mut progress = plan.open();
    let mut seen = Vec::new();
    for reply in until_classified("open", classification(2, 1)) {
        let Progress::Ask { state, .. } = progress else {
            unreachable!()
        };
        seen.push(plan.failure(&state, "x"));
        progress = plan.resume(state, reply).unwrap();
    }
    assert_eq!(seen[3], "could not resolve ingress source 9: x");
    assert_eq!(seen[4], "could not validate typed source 9: x");
    assert_eq!(seen[5], "could not classify ingress replay: x");
    let Progress::Ask { state, .. } = progress else {
        unreachable!()
    };
    assert_eq!(plan.failure(&state, "x"), "could not write bounded ingress batch: x");
}

#[test]
fn unsound_batches_are_never_asked_about() {
    assert_eq!(
        AdmitPlan::new(0, vec![]).err().unwrap(),
        "ingress transaction ID must be positive"
    );
    let mut event = batch_event(1, 9);
    event.weight = 2;
    assert!(AdmitPlan::new(5, vec![event]).is_err());
    let plan = plan();
    assert_eq!(
        plan.resume(AdmitState::Resolving, Reply::Checked).err().unwrap(),
        MISPLACED
    );
}

#[test]
fn negative_replay_counts_are_refused() {
    let plan = plan();
    let replies = until_classified("open", classification(2, -1));
    let (_, outcome) = drive(plan.open(), |state, reply| plan.resume(state, reply), replies);
    assert!(outcome.is_err());
}
