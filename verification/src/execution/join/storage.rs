//! The persisted form of a Join continuation.

use vstd::prelude::*;

use crate::database::{self, optional_nonnegative, required};
use crate::execution::continuation::{self, replace_cas, Column, Replacement};
use crate::execution::contract::{InputPosition, PhaseCode};
use crate::execution::join::planner::{
    CandidateExpectation, FrontierContinuation, FrontierInputFacts, InputPositions, InputProgress,
    InputSide, JoinContinuation, JoinPhase, MatchCounts, MatchTruth, OwnExpectation,
};
use crate::postgres::{self, format_lsn, parse_lsn};
use crate::session::{self, CellKind, Row};
use crate::sql::{self, SqlModel, SqlValue, BOOLOID, INT2OID, INT8OID, PG_LSNOID};
use crate::text::{self, fail};

verus! {

/// The columns of the continuation relation.
pub open spec fn columns() -> Seq<Column> {
    seq![
        Column::required("singleton", BOOLOID),
        Column::required("phase", INT2OID),
        Column::required("input_side", INT2OID),
        Column::required("left_stream_id", INT8OID),
        Column::required("left_chunk_seq", INT8OID),
        Column::required("left_row_ordinal", INT8OID),
        Column::required("right_stream_id", INT8OID),
        Column::required("right_chunk_seq", INT8OID),
        Column::required("right_row_ordinal", INT8OID),
        Column::nullable("event_weight", INT8OID),
        Column::nullable("event_bytes", INT8OID),
        Column::nullable("own_row_id", INT8OID),
        Column::nullable("own_multiplicity", INT8OID),
        Column::nullable("own_match_count", INT8OID),
        Column::nullable("own_unknown_count", INT8OID),
        Column::nullable("candidate_after", INT8OID),
        Column::nullable("accumulated_match_count", INT8OID),
        Column::nullable("accumulated_unknown_count", INT8OID),
        Column::nullable("pending_row_id", INT8OID),
        Column::nullable("pending_multiplicity", INT8OID),
        Column::nullable("pending_truth", INT2OID),
        Column::nullable("pending_old_match", INT8OID),
        Column::nullable("pending_old_unknown", INT8OID),
        Column::nullable("pending_new_match", INT8OID),
        Column::nullable("pending_new_unknown", INT8OID),
        Column::nullable_as("frontier_lsn", PG_LSNOID, "pg_lsn"),
    ]
}

pub fn continuation_columns() -> (list: Vec<Column>)
    ensures
        list@ == columns(),
{
    let list = vec![
        Column::required("singleton", BOOLOID),
        Column::required("phase", INT2OID),
        Column::required("input_side", INT2OID),
        Column::required("left_stream_id", INT8OID),
        Column::required("left_chunk_seq", INT8OID),
        Column::required("left_row_ordinal", INT8OID),
        Column::required("right_stream_id", INT8OID),
        Column::required("right_chunk_seq", INT8OID),
        Column::required("right_row_ordinal", INT8OID),
        Column::nullable("event_weight", INT8OID),
        Column::nullable("event_bytes", INT8OID),
        Column::nullable("own_row_id", INT8OID),
        Column::nullable("own_multiplicity", INT8OID),
        Column::nullable("own_match_count", INT8OID),
        Column::nullable("own_unknown_count", INT8OID),
        Column::nullable("candidate_after", INT8OID),
        Column::nullable("accumulated_match_count", INT8OID),
        Column::nullable("accumulated_unknown_count", INT8OID),
        Column::nullable("pending_row_id", INT8OID),
        Column::nullable("pending_multiplicity", INT8OID),
        Column::nullable("pending_truth", INT2OID),
        Column::nullable("pending_old_match", INT8OID),
        Column::nullable("pending_old_unknown", INT8OID),
        Column::nullable("pending_new_match", INT8OID),
        Column::nullable("pending_new_unknown", INT8OID),
        Column::nullable_as("frontier_lsn", PG_LSNOID, "pg_lsn"),
    ];
    assert(list@ =~= columns());
    list
}

/// The columns that a stored continuation is read from, in decoding order.
pub const CONTINUATION_SELECT: &'static str =
    "phase,input_side,
             left_stream_id,left_chunk_seq,left_row_ordinal,
             right_stream_id,right_chunk_seq,right_row_ordinal,
             event_weight,event_bytes,
             own_row_id,own_multiplicity,
             own_match_count,own_unknown_count,
             candidate_after,
             accumulated_match_count,accumulated_unknown_count,
             pending_row_id,pending_multiplicity,pending_truth,
             pending_old_match,pending_old_unknown,
             pending_new_match,pending_new_unknown,
             frontier_lsn::text";

/// A locked continuation row as the database returned it.
#[derive(Clone, Debug, PartialEq, Eq)]
pub struct JoinRow {
    pub phase: Option<i16>,
    pub input_side: Option<i16>,
    pub left_stream_id: Option<i64>,
    pub left_chunk_seq: Option<i64>,
    pub left_row_ordinal: Option<i64>,
    pub right_stream_id: Option<i64>,
    pub right_chunk_seq: Option<i64>,
    pub right_row_ordinal: Option<i64>,
    pub event_weight: Option<i64>,
    pub event_bytes: Option<i64>,
    pub own_row_id: Option<i64>,
    pub own_multiplicity: Option<i64>,
    pub own_match_count: Option<i64>,
    pub own_unknown_count: Option<i64>,
    pub candidate_after: Option<i64>,
    pub accumulated_match_count: Option<i64>,
    pub accumulated_unknown_count: Option<i64>,
    pub pending_row_id: Option<i64>,
    pub pending_multiplicity: Option<i64>,
    pub pending_truth: Option<i16>,
    pub pending_old_match: Option<i64>,
    pub pending_old_unknown: Option<i64>,
    pub pending_new_match: Option<i64>,
    pub pending_new_unknown: Option<i64>,
    pub frontier_lsn: Option<String>,
}

impl JoinRow {
    /// The types of the columns, in order.
    pub open spec fn kinds() -> Seq<CellKind> {
        seq![
            CellKind::SmallInt,
            CellKind::SmallInt,
            CellKind::BigInt,
            CellKind::BigInt,
            CellKind::BigInt,
            CellKind::BigInt,
            CellKind::BigInt,
            CellKind::BigInt,
            CellKind::BigInt,
            CellKind::BigInt,
            CellKind::BigInt,
            CellKind::BigInt,
            CellKind::BigInt,
            CellKind::BigInt,
            CellKind::BigInt,
            CellKind::BigInt,
            CellKind::BigInt,
            CellKind::BigInt,
            CellKind::BigInt,
            CellKind::SmallInt,
            CellKind::BigInt,
            CellKind::BigInt,
            CellKind::BigInt,
            CellKind::BigInt,
            CellKind::Text,
        ]
    }

    pub fn column_kinds() -> (kinds: Vec<CellKind>)
        ensures
            kinds@ == JoinRow::kinds(),
    {
        vec![
            CellKind::SmallInt,
            CellKind::SmallInt,
            CellKind::BigInt,
            CellKind::BigInt,
            CellKind::BigInt,
            CellKind::BigInt,
            CellKind::BigInt,
            CellKind::BigInt,
            CellKind::BigInt,
            CellKind::BigInt,
            CellKind::BigInt,
            CellKind::BigInt,
            CellKind::BigInt,
            CellKind::BigInt,
            CellKind::BigInt,
            CellKind::BigInt,
            CellKind::BigInt,
            CellKind::BigInt,
            CellKind::BigInt,
            CellKind::SmallInt,
            CellKind::BigInt,
            CellKind::BigInt,
            CellKind::BigInt,
            CellKind::BigInt,
            CellKind::Text,
        ]
    }

    /// The columns of the first returned row, in order.
    pub open spec fn of(rows: Seq<Row>) -> JoinRow {
        JoinRow {
            phase: session::smallint(rows, 1),
            input_side: session::smallint(rows, 2),
            left_stream_id: session::bigint(rows, 3),
            left_chunk_seq: session::bigint(rows, 4),
            left_row_ordinal: session::bigint(rows, 5),
            right_stream_id: session::bigint(rows, 6),
            right_chunk_seq: session::bigint(rows, 7),
            right_row_ordinal: session::bigint(rows, 8),
            event_weight: session::bigint(rows, 9),
            event_bytes: session::bigint(rows, 10),
            own_row_id: session::bigint(rows, 11),
            own_multiplicity: session::bigint(rows, 12),
            own_match_count: session::bigint(rows, 13),
            own_unknown_count: session::bigint(rows, 14),
            candidate_after: session::bigint(rows, 15),
            accumulated_match_count: session::bigint(rows, 16),
            accumulated_unknown_count: session::bigint(rows, 17),
            pending_row_id: session::bigint(rows, 18),
            pending_multiplicity: session::bigint(rows, 19),
            pending_truth: session::smallint(rows, 20),
            pending_old_match: session::bigint(rows, 21),
            pending_old_unknown: session::bigint(rows, 22),
            pending_new_match: session::bigint(rows, 23),
            pending_new_unknown: session::bigint(rows, 24),
            frontier_lsn: session::text(rows, 25),
        }
    }

    pub fn read(rows: &Vec<Row>) -> (row: JoinRow)
        ensures
            row == JoinRow::of(rows@),
    {
        JoinRow {
            phase: session::first_smallint(rows, 1),
            input_side: session::first_smallint(rows, 2),
            left_stream_id: session::first_bigint(rows, 3),
            left_chunk_seq: session::first_bigint(rows, 4),
            left_row_ordinal: session::first_bigint(rows, 5),
            right_stream_id: session::first_bigint(rows, 6),
            right_chunk_seq: session::first_bigint(rows, 7),
            right_row_ordinal: session::first_bigint(rows, 8),
            event_weight: session::first_bigint(rows, 9),
            event_bytes: session::first_bigint(rows, 10),
            own_row_id: session::first_bigint(rows, 11),
            own_multiplicity: session::first_bigint(rows, 12),
            own_match_count: session::first_bigint(rows, 13),
            own_unknown_count: session::first_bigint(rows, 14),
            candidate_after: session::first_bigint(rows, 15),
            accumulated_match_count: session::first_bigint(rows, 16),
            accumulated_unknown_count: session::first_bigint(rows, 17),
            pending_row_id: session::first_bigint(rows, 18),
            pending_multiplicity: session::first_bigint(rows, 19),
            pending_truth: session::first_smallint(rows, 20),
            pending_old_match: session::first_bigint(rows, 21),
            pending_old_unknown: session::first_bigint(rows, 22),
            pending_new_match: session::first_bigint(rows, 23),
            pending_new_unknown: session::first_bigint(rows, 24),
            frontier_lsn: session::first_text(rows, 25),
        }
    }
}

/// The LSN of the optional frontier column.
pub open spec fn optional_frontier(value: Option<Seq<char>>) -> Result<Option<u64>, Seq<char>> {
    match value {
        None => Ok(None),
        Some(text) => match postgres::lsn_value(text) {
            Some(lsn) => Ok(Some(lsn as u64)),
            None => Err("invalid Join frontier LSN: malformed LSN "@ + postgres::quoted(text)),
        },
    }
}

fn decode_frontier(value: &Option<String>) -> (outcome: Result<Option<u64>, String>)
    ensures
        text::agrees(outcome, optional_frontier(sql::text_model(*value))),
{
    match value {
        None => Ok(None),
        Some(lsn) => match parse_lsn(lsn.as_str()) {
            Ok(lsn) => Ok(Some(lsn)),
            Err(error) => {
                let message = "invalid Join frontier LSN: ".to_owned().concat(error.as_str());
                proof {
                    reveal_strlit("invalid Join frontier LSN: ");
                    reveal_strlit("malformed LSN ");
                    reveal_strlit("invalid Join frontier LSN: malformed LSN ");
                    assert(message@ =~= "invalid Join frontier LSN: malformed LSN "@
                        + postgres::quoted(lsn@));
                }
                Err(message)
            },
        },
    }
}

impl JoinRow {
    /// The phase of the row.
    pub open spec fn phase_read(self) -> Result<JoinPhase, Seq<char>> {
        match database::required_value(self.phase, "Join phase"@) {
            Err(message) => Err(message),
            Ok(value) => if value <= 0 {
                Err("active operator phase code must be positive"@)
            } else {
                JoinPhase::decoded(value)
            },
        }
    }

    /// The input side of the row.
    pub open spec fn side_read(self) -> Result<InputSide, Seq<char>> {
        match database::required_value(self.input_side, "Join input side"@) {
            Err(message) => Err(message),
            Ok(value) => InputSide::decoded(value),
        }
    }

    /// The left position of the row.
    pub open spec fn left_read(self) -> Result<InputPosition, Seq<char>> {
        match text::three(
            text::checked(database::required_value(self.left_stream_id, "Join left stream"@)),
            text::checked(database::required_value(self.left_chunk_seq, "Join left chunk"@)),
            text::checked(database::required_value(self.left_row_ordinal, "Join left row"@)),
        ) {
            Err(message) => Err(message),
            Ok(()) => InputPosition::made(
                self.left_stream_id->0,
                self.left_chunk_seq->0,
                self.left_row_ordinal->0,
            ),
        }
    }

    /// The right position of the row.
    pub open spec fn right_read(self) -> Result<InputPosition, Seq<char>> {
        match text::three(
            text::checked(database::required_value(self.right_stream_id, "Join right stream"@)),
            text::checked(database::required_value(self.right_chunk_seq, "Join right chunk"@)),
            text::checked(database::required_value(self.right_row_ordinal, "Join right row"@)),
        ) {
            Err(message) => Err(message),
            Ok(()) => InputPosition::made(
                self.right_stream_id->0,
                self.right_chunk_seq->0,
                self.right_row_ordinal->0,
            ),
        }
    }

    /// Whether the columns that every phase needs are sound.
    pub open spec fn header(self) -> Result<(), Seq<char>> {
        text::four(
            text::checked(self.phase_read()),
            text::checked(self.side_read()),
            text::checked(self.left_read()),
            text::checked(self.right_read()),
        )
    }

    pub open spec fn positions(self) -> InputPositions {
        InputPositions { left: self.left_read()->Ok_0, right: self.right_read()->Ok_0 }
    }

    /// Whether no count is negative and the frontier is an LSN.
    pub open spec fn counts(self) -> Result<(), Seq<char>> {
        text::four(
            text::four(
                text::checked(database::optional_natural(self.event_bytes, "Join event bytes"@)),
                text::checked(
                    database::optional_natural(self.own_multiplicity, "Join own multiplicity"@),
                ),
                text::checked(
                    database::optional_natural(self.own_match_count, "Join own match count"@),
                ),
                text::checked(
                    database::optional_natural(self.own_unknown_count, "Join own unknown count"@),
                ),
            ),
            text::three(
                text::checked(
                    database::optional_natural(
                        self.accumulated_match_count,
                        "Join accumulated match count"@,
                    ),
                ),
                text::checked(
                    database::optional_natural(
                        self.accumulated_unknown_count,
                        "Join accumulated unknown count"@,
                    ),
                ),
                text::checked(
                    database::optional_natural(
                        self.pending_multiplicity,
                        "Join pending multiplicity"@,
                    ),
                ),
            ),
            text::four(
                text::checked(
                    database::optional_natural(
                        self.pending_old_match,
                        "Join pending old match count"@,
                    ),
                ),
                text::checked(
                    database::optional_natural(
                        self.pending_old_unknown,
                        "Join pending old unknown count"@,
                    ),
                ),
                text::checked(
                    database::optional_natural(
                        self.pending_new_match,
                        "Join pending new match count"@,
                    ),
                ),
                text::checked(
                    database::optional_natural(
                        self.pending_new_unknown,
                        "Join pending new unknown count"@,
                    ),
                ),
            ),
            text::checked(optional_frontier(sql::text_model(self.frontier_lsn))),
        )
    }

    pub open spec fn frontier(self) -> Option<u64> {
        optional_frontier(sql::text_model(self.frontier_lsn))->Ok_0
    }

    /// Whether every required field of a data event is there.
    pub open spec fn all_data(self) -> bool {
        self.event_weight is Some && self.event_bytes is Some && self.own_multiplicity is Some
            && self.own_match_count is Some && self.own_unknown_count is Some
            && self.accumulated_match_count is Some && self.accumulated_unknown_count is Some
    }

    /// Whether any required field of a data event is there.
    pub open spec fn any_data(self) -> bool {
        self.event_weight is Some || self.event_bytes is Some || self.own_multiplicity is Some
            || self.own_match_count is Some || self.own_unknown_count is Some
            || self.accumulated_match_count is Some || self.accumulated_unknown_count is Some
    }

    /// Whether every field of a pending candidate is there.
    pub open spec fn all_pending(self) -> bool {
        self.pending_row_id is Some && self.pending_multiplicity is Some && self.pending_truth is Some
            && self.pending_old_match is Some && self.pending_old_unknown is Some
            && self.pending_new_match is Some && self.pending_new_unknown is Some
    }

    /// Whether any field of a pending candidate is there.
    pub open spec fn any_pending(self) -> bool {
        self.pending_row_id is Some || self.pending_multiplicity is Some || self.pending_truth is Some
            || self.pending_old_match is Some || self.pending_old_unknown is Some
            || self.pending_new_match is Some || self.pending_new_unknown is Some
    }

    /// Whether any field that belongs to a data event is there.
    pub open spec fn any_event(self) -> bool {
        self.any_data() || self.own_row_id is Some || self.candidate_after is Some
            || self.any_pending()
    }

    /// The own row that a data event expects.
    pub open spec fn own(self) -> OwnExpectation {
        OwnExpectation {
            row_id: self.own_row_id,
            multiplicity: self.own_multiplicity->0 as u64,
            counts: MatchCounts {
                matched: self.own_match_count->0 as u64,
                unknown: self.own_unknown_count->0 as u64,
            },
        }
    }

    /// The progress of a data event.
    pub open spec fn progress(self) -> InputProgress {
        InputProgress {
            positions: self.positions(),
            side: self.side_read()->Ok_0,
            event_weight: self.event_weight->0,
            event_bytes: self.event_bytes->0 as u64,
            expected_own: self.own(),
            candidate_after: self.candidate_after,
            opposite_counts: MatchCounts {
                matched: self.accumulated_match_count->0 as u64,
                unknown: self.accumulated_unknown_count->0 as u64,
            },
        }
    }

    /// The pending candidate of a data event, if it has one.
    pub open spec fn pending(self) -> Result<Option<CandidateExpectation>, Seq<char>> {
        if self.all_pending() {
            match MatchTruth::decoded(self.pending_truth->0) {
                Err(message) => Err(message),
                Ok(truth) => {
                    let candidate = CandidateExpectation {
                        row_id: self.pending_row_id->0,
                        multiplicity: self.pending_multiplicity->0 as u64,
                        truth,
                        old_counts: MatchCounts {
                            matched: self.pending_old_match->0 as u64,
                            unknown: self.pending_old_unknown->0 as u64,
                        },
                        new_counts: MatchCounts {
                            matched: self.pending_new_match->0 as u64,
                            unknown: self.pending_new_unknown->0 as u64,
                        },
                    };
                    text::guarded(
                        text::three(
                            candidate.old_counts.sound(),
                            candidate.new_counts.sound(),
                            candidate.sound(),
                        ),
                        Some(candidate),
                    )
                },
            }
        } else {
            text::guarded(
                text::holds(!self.any_pending(), "Join pending candidate fields are incomplete"@),
                None,
            )
        }
    }

    /// The data continuation that the row holds.
    pub open spec fn data_continuation(self) -> Result<JoinContinuation, Seq<char>> {
        match text::both(
            text::holds(
                self.all_data() && self.frontier() is None,
                "Join data continuation omitted required scalar fields"@,
            ),
            text::four(
                self.own().counts.sound(),
                self.own().sound(),
                self.progress().opposite_counts.sound(),
                self.progress().sound(),
            ),
        ) {
            Err(message) => Err(message),
            Ok(()) => match self.pending() {
                Err(message) => Err(message),
                Ok(pending) => JoinContinuation::restored(
                    self.phase_read()->Ok_0.number(),
                    self.progress(),
                    pending,
                ),
            },
        }
    }

    /// The continuation that the row holds.
    pub open spec fn continuation(self) -> Result<JoinContinuation, Seq<char>> {
        match text::both(self.header(), self.counts()) {
            Err(message) => Err(message),
            Ok(()) => match self.phase_read()->Ok_0 {
                JoinPhase::Preflight => text::guarded(
                    text::both(
                        text::holds(
                            !self.any_event() && self.frontier() is None,
                            "Join Preflight continuation contains phase-incompatible fields"@,
                        ),
                        self.positions().sound(),
                    ),
                    JoinContinuation::Preflight {
                        positions: self.positions(),
                        side: self.side_read()->Ok_0,
                    },
                ),
                JoinPhase::Frontier => {
                    let facts = FrontierInputFacts {
                        side: self.side_read()->Ok_0,
                        positions: self.positions(),
                        frontier: self.frontier()->0,
                    };
                    text::guarded(
                        text::three(
                            text::holds(
                                !self.any_event(),
                                "Join Frontier continuation contains data-event fields"@,
                            ),
                            text::holds(
                                self.frontier() is Some,
                                "Join Frontier continuation omitted its frontier"@,
                            ),
                            facts.sound(),
                        ),
                        JoinContinuation::Frontier(FrontierContinuation::opening(facts)),
                    )
                },
                _ => self.data_continuation(),
            },
        }
    }
}

/// The optional columns of a row, decoded.
struct Decoded {
    event_bytes: Option<u64>,
    own_multiplicity: Option<u64>,
    own_match: Option<u64>,
    own_unknown: Option<u64>,
    accumulated_match: Option<u64>,
    accumulated_unknown: Option<u64>,
    pending_multiplicity: Option<u64>,
    pending_old_match: Option<u64>,
    pending_old_unknown: Option<u64>,
    pending_new_match: Option<u64>,
    pending_new_unknown: Option<u64>,
    frontier: Option<u64>,
}

/// The count of an optional column that is not negative.
spec fn count_of(value: Option<i64>) -> Option<u64> {
    match value {
        Some(value) => Some(value as u64),
        None => None,
    }
}

impl Decoded {
    spec fn of(row: JoinRow) -> Decoded {
        Decoded {
            event_bytes: count_of(row.event_bytes),
            own_multiplicity: count_of(row.own_multiplicity),
            own_match: count_of(row.own_match_count),
            own_unknown: count_of(row.own_unknown_count),
            accumulated_match: count_of(row.accumulated_match_count),
            accumulated_unknown: count_of(row.accumulated_unknown_count),
            pending_multiplicity: count_of(row.pending_multiplicity),
            pending_old_match: count_of(row.pending_old_match),
            pending_old_unknown: count_of(row.pending_old_unknown),
            pending_new_match: count_of(row.pending_new_match),
            pending_new_unknown: count_of(row.pending_new_unknown),
            frontier: row.frontier(),
        }
    }
}

fn decode_counts(row: &JoinRow) -> (outcome: Result<Decoded, String>)
    ensures
        text::agrees(outcome, text::guarded(row.counts(), Decoded::of(*row))),
{
    let event_bytes = optional_nonnegative(row.event_bytes, "Join event bytes")?;
    let own_multiplicity = optional_nonnegative(row.own_multiplicity, "Join own multiplicity")?;
    let own_match = optional_nonnegative(row.own_match_count, "Join own match count")?;
    let own_unknown = optional_nonnegative(row.own_unknown_count, "Join own unknown count")?;
    let accumulated_match = optional_nonnegative(
        row.accumulated_match_count,
        "Join accumulated match count",
    )?;
    let accumulated_unknown = optional_nonnegative(
        row.accumulated_unknown_count,
        "Join accumulated unknown count",
    )?;
    let pending_multiplicity = optional_nonnegative(
        row.pending_multiplicity,
        "Join pending multiplicity",
    )?;
    let pending_old_match = optional_nonnegative(
        row.pending_old_match,
        "Join pending old match count",
    )?;
    let pending_old_unknown = optional_nonnegative(
        row.pending_old_unknown,
        "Join pending old unknown count",
    )?;
    let pending_new_match = optional_nonnegative(
        row.pending_new_match,
        "Join pending new match count",
    )?;
    let pending_new_unknown = optional_nonnegative(
        row.pending_new_unknown,
        "Join pending new unknown count",
    )?;
    let frontier = decode_frontier(&row.frontier_lsn)?;
    Ok(
        Decoded {
            event_bytes,
            own_multiplicity,
            own_match,
            own_unknown,
            accumulated_match,
            accumulated_unknown,
            pending_multiplicity,
            pending_old_match,
            pending_old_unknown,
            pending_new_match,
            pending_new_unknown,
            frontier,
        },
    )
}

fn decode_pending(row: &JoinRow, decoded: &Decoded) -> (outcome: Result<
    Option<CandidateExpectation>,
    String,
>)
    requires
        *decoded == Decoded::of(*row),
    ensures
        text::agrees(outcome, row.pending()),
{
    match (
        row.pending_row_id,
        decoded.pending_multiplicity,
        row.pending_truth,
        (decoded.pending_old_match, decoded.pending_old_unknown),
        (decoded.pending_new_match, decoded.pending_new_unknown),
    ) {
        (
            Some(row_id),
            Some(multiplicity),
            Some(truth),
            (Some(old_match), Some(old_unknown)),
            (Some(new_match), Some(new_unknown)),
        ) => {
            let truth = MatchTruth::from_code(truth)?;
            let old_counts = MatchCounts::new(old_match, old_unknown)?;
            let new_counts = MatchCounts::new(new_match, new_unknown)?;
            Ok(
                Some(
                    CandidateExpectation::new(row_id, multiplicity, truth, old_counts, new_counts)?,
                ),
            )
        },
        _ => {
            if row.pending_row_id.is_some() || row.pending_multiplicity.is_some()
                || row.pending_truth.is_some() || row.pending_old_match.is_some()
                || row.pending_old_unknown.is_some() || row.pending_new_match.is_some()
                || row.pending_new_unknown.is_some() {
                return fail("Join pending candidate fields are incomplete");
            }
            Ok(None)
        },
    }
}

fn decode_data(
    row: &JoinRow,
    decoded: &Decoded,
    phase: JoinPhase,
    side: InputSide,
    positions: InputPositions,
) -> (outcome: Result<JoinContinuation, String>)
    requires
        *decoded == Decoded::of(*row),
        row.header() is Ok,
        phase == row.phase_read()->Ok_0,
        side == row.side_read()->Ok_0,
        positions == row.positions(),
    ensures
        text::agrees(outcome, row.data_continuation()),
{
    match (
        row.event_weight,
        decoded.event_bytes,
        decoded.own_multiplicity,
        (decoded.own_match, decoded.own_unknown),
        (decoded.accumulated_match, decoded.accumulated_unknown),
        decoded.frontier,
    ) {
        (
            Some(event_weight),
            Some(event_bytes),
            Some(multiplicity),
            (Some(own_match), Some(own_unknown)),
            (Some(accumulated_match), Some(accumulated_unknown)),
            None,
        ) => {
            let counts = MatchCounts::new(own_match, own_unknown)?;
            let own = OwnExpectation { row_id: row.own_row_id, multiplicity, counts };
            own.validate()?;
            let opposite_counts = MatchCounts::new(accumulated_match, accumulated_unknown)?;
            let progress = InputProgress::restore(
                positions,
                side,
                event_weight,
                event_bytes,
                own,
                row.candidate_after,
                opposite_counts,
            )?;
            let pending = decode_pending(row, decoded)?;
            JoinContinuation::restore_input(phase.code(), progress, pending)
        },
        _ => fail("Join data continuation omitted required scalar fields"),
    }
}

fn has_event(row: &JoinRow) -> (has: bool)
    ensures
        has == row.any_event(),
{
    row.event_weight.is_some() || row.event_bytes.is_some() || row.own_multiplicity.is_some()
        || row.own_match_count.is_some() || row.own_unknown_count.is_some()
        || row.accumulated_match_count.is_some() || row.accumulated_unknown_count.is_some()
        || row.own_row_id.is_some() || row.candidate_after.is_some() || row.pending_row_id.is_some()
        || row.pending_multiplicity.is_some() || row.pending_truth.is_some()
        || row.pending_old_match.is_some() || row.pending_old_unknown.is_some()
        || row.pending_new_match.is_some() || row.pending_new_unknown.is_some()
}

/// Decodes a locked continuation row.
pub fn decode_continuation(row: &JoinRow) -> (outcome: Result<JoinContinuation, String>)
    ensures
        text::agrees(outcome, row.continuation()),
{
    let phase = JoinPhase::from_code(PhaseCode::active(required(row.phase, "Join phase")?)?)?;
    let side = InputSide::from_code(required(row.input_side, "Join input side")?)?;
    let left = InputPosition::new(
        required(row.left_stream_id, "Join left stream")?,
        required(row.left_chunk_seq, "Join left chunk")?,
        required(row.left_row_ordinal, "Join left row")?,
    )?;
    let right = InputPosition::new(
        required(row.right_stream_id, "Join right stream")?,
        required(row.right_chunk_seq, "Join right chunk")?,
        required(row.right_row_ordinal, "Join right row")?,
    )?;
    let positions = InputPositions::new(left, right)?;
    let decoded = decode_counts(row)?;
    match phase {
        JoinPhase::Preflight => {
            if has_event(row) || decoded.frontier.is_some() {
                return fail("Join Preflight continuation contains phase-incompatible fields");
            }
            JoinContinuation::start_preflight(positions, side)
        },
        JoinPhase::Frontier => {
            if has_event(row) {
                return fail("Join Frontier continuation contains data-event fields");
            }
            match decoded.frontier {
                None => fail("Join Frontier continuation omitted its frontier"),
                Some(frontier) => JoinContinuation::start_frontier(
                    FrontierInputFacts::new(side, positions, frontier)?,
                ),
            }
        },
        _ => decode_data(row, &decoded, phase, side, positions),
    }
}

/// The fields of a continuation row behind its singleton.
#[derive(Clone, Copy, Debug, PartialEq, Eq, Structural)]
pub struct JoinFields {
    pub phase: i16,
    pub input_side: i16,
    pub left_stream_id: i64,
    pub left_chunk_seq: i64,
    pub left_row_ordinal: i64,
    pub right_stream_id: i64,
    pub right_chunk_seq: i64,
    pub right_row_ordinal: i64,
    pub event_weight: Option<i64>,
    pub event_bytes: Option<i64>,
    pub own_row_id: Option<i64>,
    pub own_multiplicity: Option<i64>,
    pub own_match_count: Option<i64>,
    pub own_unknown_count: Option<i64>,
    pub candidate_after: Option<i64>,
    pub accumulated_match_count: Option<i64>,
    pub accumulated_unknown_count: Option<i64>,
    pub pending_row_id: Option<i64>,
    pub pending_multiplicity: Option<i64>,
    pub pending_truth: Option<i16>,
    pub pending_old_match: Option<i64>,
    pub pending_old_unknown: Option<i64>,
    pub pending_new_match: Option<i64>,
    pub pending_new_unknown: Option<i64>,
    pub frontier_lsn: Option<u64>,
}

impl JoinRow {
    /// Whether the row carries exactly these fields.
    pub open spec fn carries(self, fields: JoinFields) -> bool {
        &&& self.phase == Some(fields.phase)
        &&& self.input_side == Some(fields.input_side)
        &&& self.left_stream_id == Some(fields.left_stream_id)
        &&& self.left_chunk_seq == Some(fields.left_chunk_seq)
        &&& self.left_row_ordinal == Some(fields.left_row_ordinal)
        &&& self.right_stream_id == Some(fields.right_stream_id)
        &&& self.right_chunk_seq == Some(fields.right_chunk_seq)
        &&& self.right_row_ordinal == Some(fields.right_row_ordinal)
        &&& self.event_weight == fields.event_weight
        &&& self.event_bytes == fields.event_bytes
        &&& self.own_row_id == fields.own_row_id
        &&& self.own_multiplicity == fields.own_multiplicity
        &&& self.own_match_count == fields.own_match_count
        &&& self.own_unknown_count == fields.own_unknown_count
        &&& self.candidate_after == fields.candidate_after
        &&& self.accumulated_match_count == fields.accumulated_match_count
        &&& self.accumulated_unknown_count == fields.accumulated_unknown_count
        &&& self.pending_row_id == fields.pending_row_id
        &&& self.pending_multiplicity == fields.pending_multiplicity
        &&& self.pending_truth == fields.pending_truth
        &&& self.pending_old_match == fields.pending_old_match
        &&& self.pending_old_unknown == fields.pending_old_unknown
        &&& self.pending_new_match == fields.pending_new_match
        &&& self.pending_new_unknown == fields.pending_new_unknown
        &&& sql::text_model(self.frontier_lsn) == (match fields.frontier_lsn {
            Some(lsn) => Some(postgres::lsn_text(lsn)),
            None => None,
        })
    }
}

/// The positions that a continuation pins.
pub open spec fn pinned_positions(continuation: JoinContinuation) -> InputPositions {
    match continuation {
        JoinContinuation::Preflight { positions, .. } => positions,
        JoinContinuation::Probe(progress) => progress.positions,
        JoinContinuation::PendingTransition { progress, .. } => progress.positions,
        JoinContinuation::Finalize(progress) => progress.positions,
        JoinContinuation::Frontier(frontier) => frontier.positions,
    }
}

/// The side that a continuation reads.
pub open spec fn pinned_side(continuation: JoinContinuation) -> InputSide {
    match continuation {
        JoinContinuation::Preflight { side, .. } => side,
        JoinContinuation::Probe(progress) => progress.side,
        JoinContinuation::PendingTransition { progress, .. } => progress.side,
        JoinContinuation::Finalize(progress) => progress.side,
        JoinContinuation::Frontier(frontier) => frontier.side,
    }
}

impl JoinFields {
    /// The fields that every phase has.
    pub open spec fn base(continuation: JoinContinuation) -> JoinFields {
        let positions = pinned_positions(continuation);
        JoinFields {
            phase: continuation.phase_of().number(),
            input_side: pinned_side(continuation).number(),
            left_stream_id: positions.left.stream_id,
            left_chunk_seq: positions.left.chunk_seq,
            left_row_ordinal: positions.left.row_ordinal,
            right_stream_id: positions.right.stream_id,
            right_chunk_seq: positions.right.chunk_seq,
            right_row_ordinal: positions.right.row_ordinal,
            event_weight: None,
            event_bytes: None,
            own_row_id: None,
            own_multiplicity: None,
            own_match_count: None,
            own_unknown_count: None,
            candidate_after: None,
            accumulated_match_count: None,
            accumulated_unknown_count: None,
            pending_row_id: None,
            pending_multiplicity: None,
            pending_truth: None,
            pending_old_match: None,
            pending_old_unknown: None,
            pending_new_match: None,
            pending_new_unknown: None,
            frontier_lsn: None,
        }
    }

    /// The fields with the progress of a data event.
    pub open spec fn with_progress(self, progress: InputProgress) -> JoinFields {
        let own = progress.expected_own;
        JoinFields {
            event_weight: Some(progress.event_weight),
            event_bytes: Some(progress.event_bytes as i64),
            own_row_id: own.row_id,
            own_multiplicity: Some(own.multiplicity as i64),
            own_match_count: Some(own.counts.matched as i64),
            own_unknown_count: Some(own.counts.unknown as i64),
            candidate_after: progress.candidate_after,
            accumulated_match_count: Some(progress.opposite_counts.matched as i64),
            accumulated_unknown_count: Some(progress.opposite_counts.unknown as i64),
            ..self
        }
    }

    /// The fields with a pending candidate.
    pub open spec fn with_pending(self, candidate: CandidateExpectation) -> JoinFields {
        JoinFields {
            pending_row_id: Some(candidate.row_id),
            pending_multiplicity: Some(candidate.multiplicity as i64),
            pending_truth: Some(candidate.truth.number() as i16),
            pending_old_match: Some(candidate.old_counts.matched as i64),
            pending_old_unknown: Some(candidate.old_counts.unknown as i64),
            pending_new_match: Some(candidate.new_counts.matched as i64),
            pending_new_unknown: Some(candidate.new_counts.unknown as i64),
            ..self
        }
    }

    /// The fields of a continuation whose counts fit.
    pub open spec fn of(continuation: JoinContinuation) -> JoinFields {
        let base = Self::base(continuation);
        match continuation {
            JoinContinuation::Preflight { .. } => base,
            JoinContinuation::Frontier(frontier) => JoinFields {
                frontier_lsn: Some(frontier.frontier),
                ..base
            },
            JoinContinuation::Probe(progress) => base.with_progress(progress),
            JoinContinuation::Finalize(progress) => base.with_progress(progress),
            JoinContinuation::PendingTransition { progress, candidate } => base.with_progress(
                progress,
            ).with_pending(candidate),
        }
    }
}

/// Whether a count fits a `bigint` column.
pub open spec fn fits(value: u64, field: Seq<char>) -> Result<(), Seq<char>> {
    text::holds(value <= i64::MAX, "Join "@ + field + " exceeds bigint"@)
}

fn join_i64(value: u64, field: &str) -> (outcome: Result<i64, String>)
    ensures
        text::agrees(outcome, text::guarded(fits(value, field@), value as i64)),
{
    if value > i64::MAX as u64 {
        let mut message = "Join ".to_owned();
        message.append(field);
        message.append(" exceeds bigint");
        return Err(message);
    }
    Ok(value as i64)
}

/// Whether the counts of a progress fit.
pub open spec fn progress_fits(progress: InputProgress) -> Result<(), Seq<char>> {
    text::both(
        text::four(
            fits(progress.event_bytes, "event bytes"@),
            fits(progress.expected_own.multiplicity, "own multiplicity"@),
            fits(progress.expected_own.counts.matched, "own match count"@),
            fits(progress.expected_own.counts.unknown, "own unknown count"@),
        ),
        text::both(
            fits(progress.opposite_counts.matched, "accumulated match count"@),
            fits(progress.opposite_counts.unknown, "accumulated unknown count"@),
        ),
    )
}

/// Whether the counts of a pending candidate fit.
pub open spec fn pending_fits(candidate: CandidateExpectation) -> Result<(), Seq<char>> {
    text::both(
        fits(candidate.multiplicity, "pending multiplicity"@),
        text::four(
            fits(candidate.old_counts.matched, "pending old match"@),
            fits(candidate.old_counts.unknown, "pending old unknown"@),
            fits(candidate.new_counts.matched, "pending new match"@),
            fits(candidate.new_counts.unknown, "pending new unknown"@),
        ),
    )
}

/// Whether every count of a continuation fits.
pub open spec fn continuation_fits(continuation: JoinContinuation) -> Result<(), Seq<char>> {
    match continuation {
        JoinContinuation::Preflight { .. } => Ok(()),
        JoinContinuation::Frontier(_) => Ok(()),
        JoinContinuation::Probe(progress) => progress_fits(progress),
        JoinContinuation::Finalize(progress) => progress_fits(progress),
        JoinContinuation::PendingTransition { progress, candidate } => text::both(
            progress_fits(progress),
            pending_fits(candidate),
        ),
    }
}

fn encode_progress(fields: &mut JoinFields, progress: InputProgress) -> (outcome: Result<
    (),
    String,
>)
    ensures
        text::agrees(outcome, progress_fits(progress)),
        outcome is Ok ==> *final(fields) == old(fields).with_progress(progress),
{
    let own = progress.expected_own();
    let event_bytes: i64 = join_i64(progress.event_bytes(), "event bytes")?;
    let multiplicity: i64 = join_i64(own.multiplicity, "own multiplicity")?;
    let matched: i64 = join_i64(own.counts.matched, "own match count")?;
    let unknown: i64 = join_i64(own.counts.unknown, "own unknown count")?;
    let accumulated = progress.opposite_counts();
    let accumulated_match: i64 = join_i64(accumulated.matched, "accumulated match count")?;
    let accumulated_unknown: i64 = join_i64(accumulated.unknown, "accumulated unknown count")?;
    fields.event_weight = Some(progress.event_weight());
    fields.event_bytes = Some(event_bytes);
    fields.own_row_id = own.row_id;
    fields.own_multiplicity = Some(multiplicity);
    fields.own_match_count = Some(matched);
    fields.own_unknown_count = Some(unknown);
    fields.candidate_after = progress.candidate_after();
    fields.accumulated_match_count = Some(accumulated_match);
    fields.accumulated_unknown_count = Some(accumulated_unknown);
    Ok(())
}

fn encode_pending(fields: &mut JoinFields, candidate: CandidateExpectation) -> (outcome: Result<
    (),
    String,
>)
    ensures
        text::agrees(outcome, pending_fits(candidate)),
        outcome is Ok ==> *final(fields) == old(fields).with_pending(candidate),
{
    let multiplicity: i64 = join_i64(candidate.multiplicity, "pending multiplicity")?;
    let old_match: i64 = join_i64(candidate.old_counts.matched, "pending old match")?;
    let old_unknown: i64 = join_i64(candidate.old_counts.unknown, "pending old unknown")?;
    let new_match: i64 = join_i64(candidate.new_counts.matched, "pending new match")?;
    let new_unknown: i64 = join_i64(candidate.new_counts.unknown, "pending new unknown")?;
    fields.pending_row_id = Some(candidate.row_id);
    fields.pending_multiplicity = Some(multiplicity);
    fields.pending_truth = Some(candidate.truth.code());
    fields.pending_old_match = Some(old_match);
    fields.pending_old_unknown = Some(old_unknown);
    fields.pending_new_match = Some(new_match);
    fields.pending_new_unknown = Some(new_unknown);
    Ok(())
}

/// Encodes a continuation for its row.
pub fn continuation_fields(continuation: &JoinContinuation) -> (outcome: Result<
    JoinFields,
    String,
>)
    ensures
        text::agrees(
            outcome,
            text::guarded(continuation_fits(*continuation), JoinFields::of(*continuation)),
        ),
{
    let (positions, side) = match continuation {
        JoinContinuation::Preflight { positions, side } => (*positions, *side),
        JoinContinuation::Probe(progress) => (progress.positions(), progress.side()),
        JoinContinuation::PendingTransition { progress, .. } => (
            progress.positions(),
            progress.side(),
        ),
        JoinContinuation::Finalize(progress) => (progress.positions(), progress.side()),
        JoinContinuation::Frontier(frontier) => (frontier.positions(), frontier.side()),
    };
    let mut fields = JoinFields {
        phase: continuation.phase().code().value(),
        input_side: side.code(),
        left_stream_id: positions.left.stream_id,
        left_chunk_seq: positions.left.chunk_seq,
        left_row_ordinal: positions.left.row_ordinal,
        right_stream_id: positions.right.stream_id,
        right_chunk_seq: positions.right.chunk_seq,
        right_row_ordinal: positions.right.row_ordinal,
        event_weight: None,
        event_bytes: None,
        own_row_id: None,
        own_multiplicity: None,
        own_match_count: None,
        own_unknown_count: None,
        candidate_after: None,
        accumulated_match_count: None,
        accumulated_unknown_count: None,
        pending_row_id: None,
        pending_multiplicity: None,
        pending_truth: None,
        pending_old_match: None,
        pending_old_unknown: None,
        pending_new_match: None,
        pending_new_unknown: None,
        frontier_lsn: None,
    };
    assert(fields == JoinFields::base(*continuation));
    match continuation {
        JoinContinuation::Preflight { .. } => {},
        JoinContinuation::Frontier(frontier) => {
            fields.frontier_lsn = Some(frontier.frontier());
        },
        JoinContinuation::Probe(progress) => {
            encode_progress(&mut fields, *progress)?;
        },
        JoinContinuation::Finalize(progress) => {
            encode_progress(&mut fields, *progress)?;
        },
        JoinContinuation::PendingTransition { progress, candidate } => {
            encode_progress(&mut fields, *progress)?;
            encode_pending(&mut fields, *candidate)?;
        },
    }
    Ok(fields)
}

/// The statement arguments that carry the fields, in column order.
pub open spec fn field_arguments(fields: JoinFields) -> Seq<SqlModel> {
    seq![
        SqlModel::SmallInt(Some(fields.phase)),
        SqlModel::SmallInt(Some(fields.input_side)),
        SqlModel::BigInt(Some(fields.left_stream_id)),
        SqlModel::BigInt(Some(fields.left_chunk_seq)),
        SqlModel::BigInt(Some(fields.left_row_ordinal)),
        SqlModel::BigInt(Some(fields.right_stream_id)),
        SqlModel::BigInt(Some(fields.right_chunk_seq)),
        SqlModel::BigInt(Some(fields.right_row_ordinal)),
        SqlModel::BigInt(fields.event_weight),
        SqlModel::BigInt(fields.event_bytes),
        SqlModel::BigInt(fields.own_row_id),
        SqlModel::BigInt(fields.own_multiplicity),
        SqlModel::BigInt(fields.own_match_count),
        SqlModel::BigInt(fields.own_unknown_count),
        SqlModel::BigInt(fields.candidate_after),
        SqlModel::BigInt(fields.accumulated_match_count),
        SqlModel::BigInt(fields.accumulated_unknown_count),
        SqlModel::BigInt(fields.pending_row_id),
        SqlModel::BigInt(fields.pending_multiplicity),
        SqlModel::SmallInt(fields.pending_truth),
        SqlModel::BigInt(fields.pending_old_match),
        SqlModel::BigInt(fields.pending_old_unknown),
        SqlModel::BigInt(fields.pending_new_match),
        SqlModel::BigInt(fields.pending_new_unknown),
        SqlModel::Text(
            match fields.frontier_lsn {
                Some(lsn) => Some(postgres::lsn_text(lsn)),
                None => None,
            },
        ),
    ]
}

pub fn continuation_arguments(fields: &JoinFields) -> (arguments: Vec<SqlValue>)
    ensures
        sql::values(arguments@) == field_arguments(*fields),
{
    let frontier = match fields.frontier_lsn {
        Some(lsn) => Some(format_lsn(lsn)),
        None => None,
    };
    let arguments = vec![
        SqlValue::SmallInt(Some(fields.phase)),
        SqlValue::SmallInt(Some(fields.input_side)),
        SqlValue::BigInt(Some(fields.left_stream_id)),
        SqlValue::BigInt(Some(fields.left_chunk_seq)),
        SqlValue::BigInt(Some(fields.left_row_ordinal)),
        SqlValue::BigInt(Some(fields.right_stream_id)),
        SqlValue::BigInt(Some(fields.right_chunk_seq)),
        SqlValue::BigInt(Some(fields.right_row_ordinal)),
        SqlValue::BigInt(fields.event_weight),
        SqlValue::BigInt(fields.event_bytes),
        SqlValue::BigInt(fields.own_row_id),
        SqlValue::BigInt(fields.own_multiplicity),
        SqlValue::BigInt(fields.own_match_count),
        SqlValue::BigInt(fields.own_unknown_count),
        SqlValue::BigInt(fields.candidate_after),
        SqlValue::BigInt(fields.accumulated_match_count),
        SqlValue::BigInt(fields.accumulated_unknown_count),
        SqlValue::BigInt(fields.pending_row_id),
        SqlValue::BigInt(fields.pending_multiplicity),
        SqlValue::SmallInt(fields.pending_truth),
        SqlValue::BigInt(fields.pending_old_match),
        SqlValue::BigInt(fields.pending_old_unknown),
        SqlValue::BigInt(fields.pending_new_match),
        SqlValue::BigInt(fields.pending_new_unknown),
        SqlValue::Text(frontier),
    ];
    assert(sql::values(arguments@) =~= field_arguments(*fields));
    arguments
}

/// Whether both ends of a replacement can be encoded.
pub open spec fn both_fit(expected: Option<JoinContinuation>, next: Option<JoinContinuation>) -> Result<
    (),
    Seq<char>,
> {
    text::both(
        match expected {
            Some(continuation) => continuation_fits(continuation),
            None => Ok(()),
        },
        match next {
            Some(continuation) => continuation_fits(continuation),
            None => Ok(()),
        },
    )
}

/// The encoded fields of an optional continuation.
pub open spec fn optional_arguments(continuation: Option<JoinContinuation>) -> Option<Seq<SqlModel>> {
    match continuation {
        Some(continuation) => Some(field_arguments(JoinFields::of(continuation))),
        None => None,
    }
}

fn encode_optional(continuation: &Option<JoinContinuation>) -> (outcome: Result<
    Option<Vec<SqlValue>>,
    String,
>)
    ensures
        match (outcome, continuation) {
            (Ok(None), None) => true,
            (Ok(Some(arguments)), Some(continuation)) => continuation_fits(*continuation) is Ok
                && sql::values(arguments@) == field_arguments(JoinFields::of(*continuation)),
            (Err(error), Some(continuation)) => continuation_fits(*continuation) == Err::<
                (),
                Seq<char>,
            >(error@),
            _ => false,
        },
{
    match continuation {
        None => Ok(None),
        Some(continuation) => {
            let fields = continuation_fields(continuation)?;
            Ok(Some(continuation_arguments(&fields)))
        },
    }
}

/// Plans the replacement of the authority row. Without `expected` the next
/// row is inserted; without `next` the expected one is deleted.
pub fn replace_continuation(
    relation: &str,
    expected: &Option<JoinContinuation>,
    next: &Option<JoinContinuation>,
) -> (outcome: Result<Replacement, String>)
    ensures
        match (outcome, both_fit(*expected, *next)) {
            (Ok(replacement), Ok(())) => continuation::replaces(
                replacement,
                relation@,
                columns(),
                optional_arguments(*expected),
                optional_arguments(*next),
            ),
            (Err(error), Err(message)) => error@ == message,
            _ => false,
        },
{
    let before = encode_optional(expected)?;
    let after = encode_optional(next)?;
    replace_cas(relation, &continuation_columns(), before, after, "Join")
}

/// Whether a continuation is one that a Join may persist.
pub open spec fn persistable(continuation: JoinContinuation) -> bool {
    match continuation {
        JoinContinuation::Preflight { positions, .. } => positions.sound() is Ok,
        JoinContinuation::Frontier(frontier) => frontier.positions.sound() is Ok
            && frontier.frontier != 0,
        JoinContinuation::Probe(progress) => JoinContinuation::restored(2, progress, None) is Ok,
        JoinContinuation::Finalize(progress) => JoinContinuation::restored(4, progress, None) is Ok,
        JoinContinuation::PendingTransition { progress, candidate } => JoinContinuation::restored(
            3,
            progress,
            Some(candidate),
        ) is Ok,
    }
}

/// A row that carries the encoded fields of a continuation decodes to exactly
/// that continuation.
pub proof fn persisted_continuation_is_read_back(continuation: JoinContinuation, row: JoinRow)
    requires
        persistable(continuation),
        continuation_fits(continuation) is Ok,
        row.carries(JoinFields::of(continuation)),
    ensures
        row.continuation() == Ok::<JoinContinuation, Seq<char>>(continuation),
{
    if let JoinContinuation::Frontier(frontier) = continuation {
        postgres::lsn_text_is_read_back(frontier.frontier);
    }
}

} // verus!
