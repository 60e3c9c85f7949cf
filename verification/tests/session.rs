use shiba::execution::continuation::{open_replace, resume_replace, Replacement, ReplaceState};
use shiba::session::{
    answered_bigint, answered_boolean, answered_integer, first_bigint, first_boolean,
    first_integer, first_oid, first_smallint, first_text, require_all_columns, require_columns,
    Cell, CellKind, Progress, Reply, Request, Row, EMPTY, MISPLACED, MISTYPED,
};
use shiba::sql::{SqlValue, Statement};

fn row(cells: Vec<Cell>) -> Reply {
    Reply::Rows(vec![Row { cells }])
}

fn empty() -> Reply {
    Reply::Rows(vec![])
}

fn drive<S, C>(
    mut progress: Progress<S, C>,
    mut resume: impl FnMut(S, Reply) -> Result<Progress<S, C>, String>,
    replies: Vec<Reply>,
) -> (Vec<Request>, Result<C, String>) {
    let mut requests = Vec::new();
    let mut replies = replies.into_iter();
    loop {
        match progress {
            Progress::Done(outcome) => {
                assert!(replies.next().is_none(), "a reply was left over");
                return (requests, Ok(outcome));
            }
            Progress::Ask { state, request } => {
                requests.push(request);
                let reply = replies.next().expect("a reply is missing");
                match resume(state, reply) {
                    Ok(next) => progress = next,
                    Err(error) => return (requests, Err(error)),
                }
            }
        }
    }
}


#[test]
fn cells_are_read_by_column_and_type() {
    let row = Row {
        cells: vec![
            Cell::Boolean(true),
            Cell::SmallInt(2),
            Cell::Integer(3),
            Cell::BigInt(4),
            Cell::Text("five".to_owned()),
            Cell::Oid(6),
            Cell::Null,
        ],
    };
    assert_eq!(row.get_boolean(1), Some(true));
    assert_eq!(row.get_smallint(2), Some(2));
    assert_eq!(row.get_integer(3), Some(3));
    assert_eq!(row.get_bigint(4), Some(4));
    assert_eq!(row.get_text(5), Some("five".to_owned()));
    assert_eq!(row.get_oid(6), Some(6));
    assert_eq!(row.get_bigint(7), None);
    assert_eq!(row.get_bigint(0), None);
    assert_eq!(row.get_bigint(8), None);
    assert_eq!(row.get_bigint(3), None);
    assert_eq!(row.get_integer(4), None);
    assert_eq!(row.get_text(6), None);
    let rows = vec![row, Row { cells: vec![Cell::Boolean(false)] }];
    assert_eq!(first_boolean(&rows, 1), Some(true));
    assert_eq!(first_smallint(&rows, 2), Some(2));
    assert_eq!(first_integer(&rows, 3), Some(3));
    assert_eq!(first_bigint(&rows, 4), Some(4));
    assert_eq!(first_text(&rows, 5), Some("five".to_owned()));
    assert_eq!(first_oid(&rows, 6), Some(6));
    assert_eq!(first_bigint(&vec![], 1), None);
}

#[test]
fn answer_is_a_row_with_a_column_of_its_type() {
    let rows = vec![Row {
        cells: vec![Cell::Boolean(false), Cell::Integer(3), Cell::BigInt(4), Cell::Null],
    }];
    assert_eq!(answered_boolean(&rows, 1), Ok(Some(false)));
    assert_eq!(answered_integer(&rows, 2), Ok(Some(3)));
    assert_eq!(answered_bigint(&rows, 3), Ok(Some(4)));
    assert_eq!(answered_boolean(&rows, 4), Ok(None));
    assert_eq!(answered_bigint(&rows, 4), Ok(None));
    assert_eq!(answered_bigint(&rows, 2).unwrap_err(), MISTYPED);
    assert_eq!(answered_integer(&rows, 3).unwrap_err(), MISTYPED);
    assert_eq!(answered_boolean(&rows, 3).unwrap_err(), MISTYPED);
    assert_eq!(answered_bigint(&rows, 5).unwrap_err(), MISTYPED);
    assert_eq!(answered_bigint(&rows, 0).unwrap_err(), MISTYPED);
    assert_eq!(answered_boolean(&vec![], 1).unwrap_err(), EMPTY);
    assert_eq!(answered_integer(&vec![], 1).unwrap_err(), EMPTY);
    assert_eq!(answered_bigint(&vec![], 1).unwrap_err(), EMPTY);
}

#[test]
fn columns_are_checked_against_their_types() {
    let full = Row {
        cells: vec![
            Cell::Boolean(true),
            Cell::SmallInt(2),
            Cell::Integer(3),
            Cell::BigInt(4),
            Cell::Text("five".to_owned()),
            Cell::Oid(6),
        ],
    };
    let kinds = vec![
        CellKind::Boolean,
        CellKind::SmallInt,
        CellKind::Integer,
        CellKind::BigInt,
        CellKind::Text,
        CellKind::Oid,
    ];
    let nulls = Row { cells: vec![Cell::Null; 6] };
    let short = Row { cells: vec![Cell::Null; 5] };
    assert!(full.stands_in(&kinds));
    assert!(nulls.stands_in(&kinds));
    assert!(!short.stands_in(&kinds));
    for column in 0..6 {
        let mut other = kinds.clone();
        other[column] = kinds[(column + 1) % 6];
        assert!(!full.stands_in(&other));
        assert!(nulls.stands_in(&other));
    }
    assert_eq!(require_columns(&vec![full.clone()], &kinds), Ok(()));
    assert_eq!(require_columns(&vec![short.clone()], &kinds).unwrap_err(), MISTYPED);
    assert_eq!(require_columns(&vec![], &kinds), Ok(()));
    assert_eq!(require_columns(&vec![short.clone(), short.clone()], &kinds), Ok(()));
    assert_eq!(require_all_columns(&vec![], &kinds), Ok(()));
    assert_eq!(require_all_columns(&vec![full.clone(), nulls], &kinds), Ok(()));
    assert_eq!(require_all_columns(&vec![full, short], &kinds).unwrap_err(), MISTYPED);
}

fn statement(sql: &str, value: i64) -> Statement {
    Statement {
        sql: sql.to_owned(),
        arguments: vec![SqlValue::BigInt(Some(value))],
    }
}

fn replace(
    delete: Option<Statement>,
    insert: Option<Statement>,
    replies: Vec<Reply>,
) -> (Vec<Request>, Result<bool, String>) {
    drive(
        open_replace(Replacement { delete, insert }),
        |state, reply| resume_replace(state, reply, "Join"),
        replies,
    )
}

#[test]
fn successor_goes_in_behind_the_row_that_left() {
    let one = || row(vec![]);
    let (requests, present) = replace(
        Some(statement("DELETE", 1)),
        Some(statement("INSERT", 2)),
        vec![one(), one()],
    );
    assert_eq!(present, Ok(true));
    assert_eq!(
        requests,
        [
            Request::Write(statement("DELETE", 1)),
            Request::Write(statement("INSERT", 2)),
        ]
    );
    let (requests, present) = replace(None, Some(statement("INSERT", 2)), vec![one()]);
    assert_eq!((requests.len(), present), (1, Ok(true)));
    let (requests, present) = replace(Some(statement("DELETE", 1)), None, vec![one()]);
    assert_eq!((requests.len(), present), (1, Ok(false)));
    let (requests, present) = replace(None, None, vec![]);
    assert_eq!((requests.len(), present), (0, Ok(false)));
}

#[test]
fn cursor_that_moved_is_not_replaced() {
    let (requests, present) = replace(
        Some(statement("DELETE", 1)),
        Some(statement("INSERT", 2)),
        vec![empty()],
    );
    assert_eq!(
        present.unwrap_err(),
        "Join continuation compare-and-set failed"
    );
    assert_eq!(requests.len(), 1);
    let (_, present) = replace(None, Some(statement("INSERT", 2)), vec![empty()]);
    assert_eq!(present.unwrap_err(), "Join continuation insert failed");
    assert_eq!(
        resume_replace(ReplaceState::Inserting, Reply::Drain(true), "Join").unwrap_err(),
        MISPLACED
    );
}
