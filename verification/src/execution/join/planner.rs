//! Pure control state for a bounded, resumable differential Join.
//!
//! Typed rows never enter this module. PostgreSQL probes and evaluates them,
//! then hands over stable row identifiers, counts, truth values, and measured
//! byte sizes. This module decides one ordered action prefix. The caller must
//! append that prefix, apply the listed compare-and-set mutations, and replace
//! the continuation in the same database transaction.
//!
//! An arrangement identifies its own bag entries by a unique, indexed key.
//! Candidate evaluation scans stable `row_id` keysets and applies the
//! arbitrary Join condition.

use vstd::prelude::*;

use crate::execution::contract::{
    InputPosition, KernelCompletion, KernelPhase, OutputFacts, PhaseCode, PrimitiveFacts,
};
use crate::planner::{WorkBudget, WorkUsage};
use crate::text::{self, fail, signed_text};

verus! {

/// The largest count that a PostgreSQL `bigint` holds.
pub const MAX_COUNT: u64 = 9_223_372_036_854_775_807;

/// A check on one named value: its message is the name and a complaint.
pub open spec fn named(condition: bool, name: Seq<char>, complaint: Seq<char>) -> Result<
    (),
    Seq<char>,
> {
    text::holds(condition, name + complaint)
}

fn complain<T>(name: &str, complaint: &str) -> (outcome: Result<T, String>)
    ensures
        outcome matches Err(error) && error@ == name@ + complaint@,
{
    Err(name.to_owned().concat(complaint))
}

pub open spec fn stable_id(value: i64, name: Seq<char>) -> Result<(), Seq<char>> {
    named(value > 0, name, " ID must be positive"@)
}

pub fn validate_stable_id(value: i64, name: &str) -> (outcome: Result<(), String>)
    ensures
        text::agrees(outcome, stable_id(value, name@)),
{
    if value <= 0 {
        return complain(name, " ID must be positive");
    }
    Ok(())
}

pub open spec fn count_in_range(value: u64, name: Seq<char>) -> Result<(), Seq<char>> {
    named(value <= MAX_COUNT, name, " count exceeds PostgreSQL bigint"@)
}

pub fn validate_count(value: u64, name: &str) -> (outcome: Result<(), String>)
    ensures
        text::agrees(outcome, count_in_range(value, name@)),
{
    if value > MAX_COUNT {
        return complain(name, " count exceeds PostgreSQL bigint");
    }
    Ok(())
}

pub open spec fn positive_count(value: u64, name: Seq<char>) -> Result<(), Seq<char>> {
    text::both(named(value > 0, name, " must be positive"@), count_in_range(value, name))
}

pub fn validate_positive_count(value: u64, name: &str) -> (outcome: Result<(), String>)
    ensures
        text::agrees(outcome, positive_count(value, name@)),
{
    if value == 0 {
        return complain(name, " must be positive");
    }
    validate_count(value, name)
}

/// The sum of two counts, when it is a `bigint`.
pub open spec fn count_sum(left: u64, right: u64, name: Seq<char>) -> Result<u64, Seq<char>> {
    if left + right > u64::MAX {
        Err(name + " overflow"@)
    } else {
        text::guarded(count_in_range((left + right) as u64, name), (left + right) as u64)
    }
}

pub fn checked_count_sum(left: u64, right: u64, name: &str) -> (outcome: Result<u64, String>)
    ensures
        text::agrees(outcome, count_sum(left, right, name@)),
{
    match left.checked_add(right) {
        None => complain(name, " overflow"),
        Some(result) => {
            validate_count(result, name)?;
            Ok(result)
        },
    }
}

/// A count after a signed change, when it is a `bigint` and not negative.
pub open spec fn signed_count(base: u64, delta: i64, name: Seq<char>) -> Result<u64, Seq<char>> {
    match count_in_range(base, name) {
        Err(message) => Err(message),
        Ok(()) => if 0 <= base + delta <= MAX_COUNT {
            Ok((base + delta) as u64)
        } else {
            Err(name + " underflow or overflow"@)
        },
    }
}

pub fn checked_signed_count(base: u64, delta: i64, name: &str) -> (outcome: Result<u64, String>)
    ensures
        text::agrees(outcome, signed_count(base, delta, name@)),
{
    validate_count(base, name)?;
    let result: i128 = base as i128 + delta as i128;
    if result < 0 || result > MAX_COUNT as i128 {
        return complain(name, " underflow or overflow");
    }
    Ok(result as u64)
}

/// The weight of a pair: event weight times candidate multiplicity.
pub open spec fn weight_product(weight: i64, multiplicity: u64) -> Result<i64, Seq<char>> {
    match positive_count(multiplicity, "Join candidate multiplicity"@) {
        Err(message) => Err(message),
        Ok(()) => if weight != 0 && i64::MIN <= weight * multiplicity <= i64::MAX {
            Ok((weight * multiplicity) as i64)
        } else {
            Err("Join pair weight underflow or overflow"@)
        },
    }
}

pub fn checked_weight_product(weight: i64, multiplicity: u64) -> (outcome: Result<i64, String>)
    ensures
        text::agrees(outcome, weight_product(weight, multiplicity)),
{
    validate_positive_count(multiplicity, "Join candidate multiplicity")?;
    proof {
        assert(-0x8000_0000_0000_0000_0000_0000_0000_0000 <= weight * multiplicity
            <= 0x7fff_ffff_ffff_ffff_ffff_ffff_ffff_ffff) by (nonlinear_arith)
            requires
                -0x8000_0000_0000_0000 <= weight <= 0x7fff_ffff_ffff_ffff,
                0 <= multiplicity <= 0x7fff_ffff_ffff_ffff,
        ;
        assert((weight * multiplicity == 0) == (weight == 0)) by (nonlinear_arith)
            requires
                multiplicity > 0,
        ;
    }
    let product: i128 = weight as i128 * multiplicity as i128;
    if product == 0 || product < i64::MIN as i128 || product > i64::MAX as i128 {
        return fail("Join pair weight underflow or overflow");
    }
    Ok(product as i64)
}

pub open spec fn signed_magnitude(value: u64, name: Seq<char>) -> Result<i64, Seq<char>> {
    text::guarded(count_in_range(value, name), value as i64)
}

pub fn count_to_i64(value: u64, name: &str) -> (outcome: Result<i64, String>)
    ensures
        text::agrees(outcome, signed_magnitude(value, name@)),
{
    validate_count(value, name)?;
    Ok(value as i64)
}

#[derive(Clone, Copy, Debug, PartialEq, Eq, Structural)]
pub enum JoinPhase {
    Preflight,
    Probe,
    PendingTransition,
    Finalize,
    Frontier,
}

impl JoinPhase {
    /// The persisted number of the phase.
    pub open spec fn number(self) -> i16 {
        match self {
            JoinPhase::Preflight => 1,
            JoinPhase::Probe => 2,
            JoinPhase::PendingTransition => 3,
            JoinPhase::Finalize => 4,
            JoinPhase::Frontier => 5,
        }
    }

    pub fn code(self) -> (code: PhaseCode)
        ensures
            code == PhaseCode(self.number()),
    {
        let value: i16 = match self {
            JoinPhase::Preflight => 1,
            JoinPhase::Probe => 2,
            JoinPhase::PendingTransition => 3,
            JoinPhase::Finalize => 4,
            JoinPhase::Frontier => 5,
        };
        PhaseCode(value)
    }

    /// The phase that a persisted number stands for.
    pub open spec fn decoded(value: i16) -> Result<JoinPhase, Seq<char>> {
        if value == 1 {
            Ok(JoinPhase::Preflight)
        } else if value == 2 {
            Ok(JoinPhase::Probe)
        } else if value == 3 {
            Ok(JoinPhase::PendingTransition)
        } else if value == 4 {
            Ok(JoinPhase::Finalize)
        } else if value == 5 {
            Ok(JoinPhase::Frontier)
        } else if value == 0 {
            Err("idle phase means that no Join continuation exists"@)
        } else {
            Err("unknown Join phase code "@ + text::decimal(value as int))
        }
    }

    pub fn from_code(code: PhaseCode) -> (outcome: Result<Self, String>)
        ensures
            text::agrees(outcome, Self::decoded(code.0)),
    {
        match code.value() {
            1 => Ok(JoinPhase::Preflight),
            2 => Ok(JoinPhase::Probe),
            3 => Ok(JoinPhase::PendingTransition),
            4 => Ok(JoinPhase::Finalize),
            5 => Ok(JoinPhase::Frontier),
            0 => fail("idle phase means that no Join continuation exists"),
            value => complain("unknown Join phase code ", signed_text(value as i64).as_str()),
        }
    }
}

#[derive(Clone, Copy, Debug, PartialEq, Eq, Structural)]
pub enum InputSide {
    Left,
    Right,
}

impl InputSide {
    /// The persisted number of the side, which is also its input port.
    pub open spec fn number(self) -> i16 {
        match self {
            InputSide::Left => 0,
            InputSide::Right => 1,
        }
    }

    pub fn code(self) -> (code: i16)
        ensures
            code == self.number(),
    {
        match self {
            InputSide::Left => 0,
            InputSide::Right => 1,
        }
    }

    pub open spec fn decoded(code: i16) -> Result<InputSide, Seq<char>> {
        if code == 0 {
            Ok(InputSide::Left)
        } else if code == 1 {
            Ok(InputSide::Right)
        } else {
            Err("unknown Join input side code "@ + text::decimal(code as int))
        }
    }

    pub fn from_code(code: i16) -> (outcome: Result<Self, String>)
        ensures
            text::agrees(outcome, Self::decoded(code)),
    {
        match code {
            0 => Ok(InputSide::Left),
            1 => Ok(InputSide::Right),
            value => complain("unknown Join input side code ", signed_text(value as i64).as_str()),
        }
    }

    pub open spec fn other(self) -> InputSide {
        match self {
            InputSide::Left => InputSide::Right,
            InputSide::Right => InputSide::Left,
        }
    }

    pub fn opposite(self) -> (side: Self)
        ensures
            side == self.other(),
    {
        match self {
            InputSide::Left => InputSide::Right,
            InputSide::Right => InputSide::Left,
        }
    }
}

#[derive(Clone, Copy, Debug, PartialEq, Eq, Structural)]
pub enum MatchTruth {
    False,
    True,
    Unknown,
}

impl MatchTruth {
    /// The persisted number of the truth value.
    pub open spec fn number(self) -> int {
        match self {
            MatchTruth::False => 0,
            MatchTruth::True => 1,
            MatchTruth::Unknown => -1,
        }
    }

    pub fn code(self) -> (code: i16)
        ensures
            code == self.number(),
    {
        match self {
            MatchTruth::False => 0,
            MatchTruth::True => 1,
            MatchTruth::Unknown => -1,
        }
    }

    pub open spec fn decoded(code: i16) -> Result<MatchTruth, Seq<char>> {
        if code == 0 {
            Ok(MatchTruth::False)
        } else if code == 1 {
            Ok(MatchTruth::True)
        } else if code == -1 {
            Ok(MatchTruth::Unknown)
        } else {
            Err("unknown Join match truth code "@ + text::decimal(code as int))
        }
    }

    pub fn from_code(code: i16) -> (outcome: Result<Self, String>)
        ensures
            text::agrees(outcome, Self::decoded(code)),
    {
        match code {
            0 => Ok(MatchTruth::False),
            1 => Ok(MatchTruth::True),
            -1 => Ok(MatchTruth::Unknown),
            value => complain("unknown Join match truth code ", signed_text(value as i64).as_str()),
        }
    }
}

#[derive(Clone, Copy, Debug, PartialEq, Eq, Structural)]
pub enum JoinMode {
    Inner,
    Left,
    Right,
    Full,
    Semi,
    Anti,
    NullAwareAnti,
}

pub open spec fn position_sound(position: InputPosition) -> Result<(), Seq<char>> {
    text::holds(position.valid(), "Join continuation contains an invalid input position"@)
}

pub fn validate_input_position(position: InputPosition) -> (outcome: Result<(), String>)
    ensures
        text::agrees(outcome, position_sound(position)),
{
    if position.stream_id <= 0 || position.chunk_seq <= 0 || position.row_ordinal < 0 {
        return fail("Join continuation contains an invalid input position");
    }
    Ok(())
}

#[derive(Clone, Copy, Debug, PartialEq, Eq, Structural)]
pub struct InputPositions {
    pub left: InputPosition,
    pub right: InputPosition,
}

impl InputPositions {
    pub open spec fn sound(self) -> Result<(), Seq<char>> {
        text::both(position_sound(self.left), position_sound(self.right))
    }

    pub fn new(left: InputPosition, right: InputPosition) -> (outcome: Result<Self, String>)
        ensures
            text::agrees(
                outcome,
                text::guarded(
                    (InputPositions { left, right }).sound(),
                    InputPositions { left, right },
                ),
            ),
    {
        validate_input_position(left)?;
        validate_input_position(right)?;
        Ok(Self { left, right })
    }

    /// The position of one side.
    pub open spec fn of(self, side: InputSide) -> InputPosition {
        match side {
            InputSide::Left => self.left,
            InputSide::Right => self.right,
        }
    }

    pub fn get(self, side: InputSide) -> (position: InputPosition)
        ensures
            position == self.of(side),
    {
        match side {
            InputSide::Left => self.left,
            InputSide::Right => self.right,
        }
    }

    pub fn validate(self) -> (outcome: Result<(), String>)
        ensures
            text::agrees(outcome, self.sound()),
    {
        validate_input_position(self.left)?;
        validate_input_position(self.right)
    }
}

#[derive(Clone, Copy, Debug, PartialEq, Eq, Structural)]
pub struct InputEventFacts {
    pub side: InputSide,
    pub positions: InputPositions,
    pub weight: i64,
    pub row_bytes: u64,
}

impl InputEventFacts {
    pub open spec fn sound(self) -> Result<(), Seq<char>> {
        text::both(
            self.positions.sound(),
            text::both(
                text::holds(self.weight != 0, "Join input event has zero weight"@),
                text::holds(self.row_bytes != 0, "Join input event has zero measured bytes"@),
            ),
        )
    }

    pub fn new(
        side: InputSide,
        positions: InputPositions,
        weight: i64,
        row_bytes: u64,
    ) -> (outcome: Result<Self, String>)
        ensures
            ({
                let facts = InputEventFacts { side, positions, weight, row_bytes };
                text::agrees(outcome, text::guarded(facts.sound(), facts))
            }),
    {
        let facts = Self { side, positions, weight, row_bytes };
        facts.validate()?;
        Ok(facts)
    }

    pub fn validate(self) -> (outcome: Result<(), String>)
        ensures
            text::agrees(outcome, self.sound()),
    {
        self.positions.validate()?;
        if self.weight == 0 {
            return fail("Join input event has zero weight");
        }
        if self.row_bytes == 0 {
            return fail("Join input event has zero measured bytes");
        }
        Ok(())
    }
}

/// How many opposite rows match a row for certain, and how many may.
#[derive(Clone, Copy, Debug, PartialEq, Eq, Structural)]
pub struct MatchCounts {
    pub matched: u64,
    pub unknown: u64,
}

impl Default for MatchCounts {
    fn default() -> (counts: Self)
        ensures
            counts == Self::zero(),
    {
        Self { matched: 0, unknown: 0 }
    }
}

impl MatchCounts {
    pub open spec fn zero() -> MatchCounts {
        MatchCounts { matched: 0, unknown: 0 }
    }

    pub open spec fn sound(self) -> Result<(), Seq<char>> {
        text::both(
            count_in_range(self.matched, "matched"@),
            count_in_range(self.unknown, "unknown"@),
        )
    }

    pub fn new(matched: u64, unknown: u64) -> (outcome: Result<Self, String>)
        ensures
            text::agrees(
                outcome,
                text::guarded(
                    (MatchCounts { matched, unknown }).sound(),
                    MatchCounts { matched, unknown },
                ),
            ),
    {
        let counts = Self { matched, unknown };
        counts.validate()?;
        Ok(counts)
    }

    pub fn validate(self) -> (outcome: Result<(), String>)
        ensures
            text::agrees(outcome, self.sound()),
    {
        validate_count(self.matched, "matched")?;
        validate_count(self.unknown, "unknown")
    }
}

/// The state of one candidate row before and after an event.
#[derive(Clone, Copy, Debug, PartialEq, Eq, Structural)]
pub struct CandidateExpectation {
    pub row_id: i64,
    pub multiplicity: u64,
    pub truth: MatchTruth,
    pub old_counts: MatchCounts,
    pub new_counts: MatchCounts,
}

impl CandidateExpectation {
    pub open spec fn sound(self) -> Result<(), Seq<char>> {
        text::both(
            stable_id(self.row_id, "Join candidate"@),
            text::both(
                positive_count(self.multiplicity, "Join candidate multiplicity"@),
                text::both(self.old_counts.sound(), self.new_counts.sound()),
            ),
        )
    }

    pub fn new(
        row_id: i64,
        multiplicity: u64,
        truth: MatchTruth,
        old_counts: MatchCounts,
        new_counts: MatchCounts,
    ) -> (outcome: Result<Self, String>)
        ensures
            ({
                let expectation = CandidateExpectation {
                    row_id,
                    multiplicity,
                    truth,
                    old_counts,
                    new_counts,
                };
                text::agrees(outcome, text::guarded(expectation.sound(), expectation))
            }),
    {
        let expectation = Self { row_id, multiplicity, truth, old_counts, new_counts };
        expectation.validate()?;
        Ok(expectation)
    }

    pub fn validate(self) -> (outcome: Result<(), String>)
        ensures
            text::agrees(outcome, self.sound()),
    {
        validate_stable_id(self.row_id, "Join candidate")?;
        validate_positive_count(self.multiplicity, "Join candidate multiplicity")?;
        self.old_counts.validate()?;
        self.new_counts.validate()
    }
}

/// The arrangement row of the event itself, as the fanout found it.
#[derive(Clone, Copy, Debug, PartialEq, Eq, Structural)]
pub struct OwnExpectation {
    pub row_id: Option<i64>,
    pub multiplicity: u64,
    pub counts: MatchCounts,
}

impl OwnExpectation {
    pub open spec fn nowhere() -> OwnExpectation {
        OwnExpectation { row_id: None, multiplicity: 0, counts: MatchCounts::zero() }
    }

    pub fn absent() -> (own: Self)
        ensures
            own == Self::nowhere(),
    {
        Self { row_id: None, multiplicity: 0, counts: MatchCounts { matched: 0, unknown: 0 } }
    }

    /// An absent row carries nothing; a present one has a positive identity
    /// and multiplicity.
    pub open spec fn sound(self) -> Result<(), Seq<char>> {
        text::both(
            self.counts.sound(),
            match self.row_id {
                None => text::holds(
                    self == Self::nowhere(),
                    "absent Join own state contains counts or multiplicity"@,
                ),
                Some(row_id) => text::both(
                    stable_id(row_id, "Join own arrangement row"@),
                    positive_count(self.multiplicity, "Join own multiplicity"@),
                ),
            },
        )
    }

    pub fn present(row_id: i64, multiplicity: u64, counts: MatchCounts) -> (outcome: Result<
        Self,
        String,
    >)
        ensures
            ({
                let own = OwnExpectation { row_id: Some(row_id), multiplicity, counts };
                text::agrees(outcome, text::guarded(own.sound(), own))
            }),
    {
        let expected = Self { row_id: Some(row_id), multiplicity, counts };
        expected.validate()?;
        Ok(expected)
    }

    pub fn validate(self) -> (outcome: Result<(), String>)
        ensures
            text::agrees(outcome, self.sound()),
    {
        self.counts.validate()?;
        match self.row_id {
            None => {
                if self.multiplicity == 0 && self.counts == MatchCounts::default() {
                    Ok(())
                } else {
                    fail("absent Join own state contains counts or multiplicity")
                }
            },
            Some(row_id) => {
                validate_stable_id(row_id, "Join own arrangement row")?;
                validate_positive_count(self.multiplicity, "Join own multiplicity")
            },
        }
    }

    /// The own row is sound and can take the event's weight.
    pub open spec fn takes(self, event_weight: i64) -> Result<(), Seq<char>> {
        match self.sound() {
            Err(message) => Err(message),
            Ok(()) => match signed_count(
                self.multiplicity,
                event_weight,
                "Join own multiplicity"@,
            ) {
                Err(message) => Err(message),
                Ok(_) => Ok(()),
            },
        }
    }

    pub fn validate_event(self, event_weight: i64) -> (outcome: Result<(), String>)
        ensures
            text::agrees(outcome, self.takes(event_weight)),
    {
        self.validate()?;
        checked_signed_count(self.multiplicity, event_weight, "Join own multiplicity")?;
        Ok(())
    }
}

/// How far one data event has scanned its candidates.
#[derive(Clone, Copy, Debug, PartialEq, Eq, Structural)]
pub struct InputProgress {
    pub positions: InputPositions,
    pub side: InputSide,
    pub event_weight: i64,
    pub event_bytes: u64,
    pub expected_own: OwnExpectation,
    pub candidate_after: Option<i64>,
    pub opposite_counts: MatchCounts,
}

impl InputProgress {
    pub open spec fn sound(self) -> Result<(), Seq<char>> {
        text::both(
            self.positions.sound(),
            text::both(
                text::holds(
                    self.event_weight != 0,
                    "Join continuation contains a zero input weight"@,
                ),
                text::both(
                    text::holds(
                        self.event_bytes != 0,
                        "Join continuation contains zero input bytes"@,
                    ),
                    text::both(
                        self.expected_own.takes(self.event_weight),
                        text::both(
                            match self.candidate_after {
                                Some(row_id) => stable_id(row_id, "Join candidate cursor"@),
                                None => Ok(()),
                            },
                            self.opposite_counts.sound(),
                        ),
                    ),
                ),
            ),
        )
    }

    pub fn restore(
        positions: InputPositions,
        side: InputSide,
        event_weight: i64,
        event_bytes: u64,
        expected_own: OwnExpectation,
        candidate_after: Option<i64>,
        opposite_counts: MatchCounts,
    ) -> (outcome: Result<Self, String>)
        ensures
            ({
                let progress = InputProgress {
                    positions,
                    side,
                    event_weight,
                    event_bytes,
                    expected_own,
                    candidate_after,
                    opposite_counts,
                };
                text::agrees(outcome, text::guarded(progress.sound(), progress))
            }),
    {
        let progress = Self {
            positions,
            side,
            event_weight,
            event_bytes,
            expected_own,
            candidate_after,
            opposite_counts,
        };
        progress.validate()?;
        Ok(progress)
    }

    pub fn positions(self) -> (positions: InputPositions)
        ensures
            positions == self.positions,
    {
        self.positions
    }

    pub fn side(self) -> (side: InputSide)
        ensures
            side == self.side,
    {
        self.side
    }

    pub fn event_weight(self) -> (weight: i64)
        ensures
            weight == self.event_weight,
    {
        self.event_weight
    }

    pub fn event_bytes(self) -> (bytes: u64)
        ensures
            bytes == self.event_bytes,
    {
        self.event_bytes
    }

    pub fn expected_own(self) -> (own: OwnExpectation)
        ensures
            own == self.expected_own,
    {
        self.expected_own
    }

    pub fn candidate_after(self) -> (row_id: Option<i64>)
        ensures
            row_id == self.candidate_after,
    {
        self.candidate_after
    }

    pub fn opposite_counts(self) -> (counts: MatchCounts)
        ensures
            counts == self.opposite_counts,
    {
        self.opposite_counts
    }

    /// The progress of an event that has scanned nothing yet.
    pub open spec fn opening(event: InputEventFacts, expected_own: OwnExpectation) -> Self {
        InputProgress {
            positions: event.positions,
            side: event.side,
            event_weight: event.weight,
            event_bytes: event.row_bytes,
            expected_own,
            candidate_after: None,
            opposite_counts: MatchCounts::zero(),
        }
    }

    pub fn from_event(event: InputEventFacts, expected_own: OwnExpectation) -> (progress: Self)
        ensures
            progress == Self::opening(event, expected_own),
    {
        Self {
            positions: event.positions,
            side: event.side,
            event_weight: event.weight,
            event_bytes: event.row_bytes,
            expected_own,
            candidate_after: None,
            opposite_counts: MatchCounts::default(),
        }
    }

    pub fn validate(self) -> (outcome: Result<(), String>)
        ensures
            text::agrees(outcome, self.sound()),
    {
        self.positions.validate()?;
        if self.event_weight == 0 {
            return fail("Join continuation contains a zero input weight");
        }
        if self.event_bytes == 0 {
            return fail("Join continuation contains zero input bytes");
        }
        self.expected_own.validate_event(self.event_weight)?;
        if let Some(row_id) = self.candidate_after {
            validate_stable_id(row_id, "Join candidate cursor")?;
        }
        self.opposite_counts.validate()
    }

    /// Whether an event is the one that this progress belongs to.
    pub open spec fn resumes(self, event: InputEventFacts) -> Result<(), Seq<char>> {
        text::both(
            event.sound(),
            text::both(
                text::holds(self.side == event.side, "Join input side changed while resuming"@),
                text::both(
                    text::holds(
                        self.positions == event.positions,
                        "Join input positions changed while resuming"@,
                    ),
                    text::both(
                        text::holds(
                            self.event_weight == event.weight,
                            "Join input weight changed while resuming"@,
                        ),
                        text::holds(
                            self.event_bytes == event.row_bytes,
                            "Join input byte size changed while resuming"@,
                        ),
                    ),
                ),
            ),
        )
    }

    pub fn validate_resume(self, event: InputEventFacts) -> (outcome: Result<(), String>)
        ensures
            text::agrees(outcome, self.resumes(event)),
    {
        event.validate()?;
        if self.side != event.side {
            return fail("Join input side changed while resuming");
        }
        if self.positions != event.positions {
            return fail("Join input positions changed while resuming");
        }
        if self.event_weight != event.weight {
            return fail("Join input weight changed while resuming");
        }
        if self.event_bytes != event.row_bytes {
            return fail("Join input byte size changed while resuming");
        }
        Ok(())
    }

    /// The opposite counts once a candidate is counted. Unknown matches count
    /// only where they decide eligibility.
    pub open spec fn counted(
        self,
        mode: JoinMode,
        candidate: CandidateExpectation,
    ) -> Result<MatchCounts, Seq<char>> {
        let counts = self.opposite_counts;
        if candidate.truth is True {
            match count_sum(
                counts.matched,
                candidate.multiplicity,
                "Join event matched count"@,
            ) {
                Ok(matched) => Ok(MatchCounts { matched, unknown: counts.unknown }),
                Err(message) => Err(message),
            }
        } else if candidate.truth is Unknown && mode is NullAwareAnti {
            match count_sum(
                counts.unknown,
                candidate.multiplicity,
                "Join event unknown count"@,
            ) {
                Ok(unknown) => Ok(MatchCounts { matched: counts.matched, unknown }),
                Err(message) => Err(message),
            }
        } else {
            Ok(counts)
        }
    }

    /// The progress once a candidate is done: the cursor stands on it.
    pub open spec fn completed(
        self,
        mode: JoinMode,
        candidate: CandidateExpectation,
    ) -> Result<InputProgress, Seq<char>> {
        match self.counted(mode, candidate) {
            Ok(counts) => Ok(
                InputProgress {
                    candidate_after: Some(candidate.row_id),
                    opposite_counts: counts,
                    ..self
                },
            ),
            Err(message) => Err(message),
        }
    }

    pub fn complete_candidate(
        &mut self,
        mode: JoinMode,
        candidate: CandidateExpectation,
    ) -> (outcome: Result<(), String>)
        ensures
            match (outcome, old(self).completed(mode, candidate)) {
                (Ok(()), Ok(progress)) => *final(self) == progress,
                (Err(error), Err(message)) => error@ == message && *final(self) == (InputProgress {
                    candidate_after: Some(candidate.row_id),
                    ..*old(self)
                }),
                _ => false,
            },
    {
        self.candidate_after = Some(candidate.row_id);
        match candidate.truth {
            MatchTruth::True => {
                self.opposite_counts.matched =
                checked_count_sum(
                    self.opposite_counts.matched,
                    candidate.multiplicity,
                    "Join event matched count",
                )?;
            },
            MatchTruth::Unknown => {
                if mode == JoinMode::NullAwareAnti {
                    self.opposite_counts.unknown =
                    checked_count_sum(
                        self.opposite_counts.unknown,
                        candidate.multiplicity,
                        "Join event unknown count",
                    )?;
                }
            },
            MatchTruth::False => {},
        }
        Ok(())
    }
}

#[derive(Clone, Copy, Debug, PartialEq, Eq, Structural)]
pub struct FrontierInputFacts {
    pub side: InputSide,
    pub positions: InputPositions,
    pub frontier: u64,
}

impl FrontierInputFacts {
    pub open spec fn sound(self) -> Result<(), Seq<char>> {
        text::both(
            self.positions.sound(),
            text::holds(self.frontier != 0, "Join input frontier is zero"@),
        )
    }

    pub fn new(side: InputSide, positions: InputPositions, frontier: u64) -> (outcome: Result<
        Self,
        String,
    >)
        ensures
            ({
                let facts = FrontierInputFacts { side, positions, frontier };
                text::agrees(outcome, text::guarded(facts.sound(), facts))
            }),
    {
        let facts = Self { side, positions, frontier };
        facts.validate()?;
        Ok(facts)
    }

    pub fn validate(self) -> (outcome: Result<(), String>)
        ensures
            text::agrees(outcome, self.sound()),
    {
        self.positions.validate()?;
        if self.frontier == 0 {
            return fail("Join input frontier is zero");
        }
        Ok(())
    }
}

#[derive(Clone, Copy, Debug, PartialEq, Eq, Structural)]
pub struct FrontierContinuation {
    pub positions: InputPositions,
    pub side: InputSide,
    pub frontier: u64,
}

impl FrontierContinuation {
    pub fn positions(self) -> (positions: InputPositions)
        ensures
            positions == self.positions,
    {
        self.positions
    }

    pub fn side(self) -> (side: InputSide)
        ensures
            side == self.side,
    {
        self.side
    }

    pub fn frontier(self) -> (frontier: u64)
        ensures
            frontier == self.frontier,
    {
        self.frontier
    }

    pub open spec fn opening(facts: FrontierInputFacts) -> FrontierContinuation {
        FrontierContinuation {
            positions: facts.positions,
            side: facts.side,
            frontier: facts.frontier,
        }
    }

    pub fn from_facts(facts: FrontierInputFacts) -> (continuation: Self)
        ensures
            continuation == Self::opening(facts),
    {
        Self { positions: facts.positions, side: facts.side, frontier: facts.frontier }
    }

    /// Whether frontier facts are the ones that this continuation pinned.
    pub open spec fn resumes(self, facts: FrontierInputFacts) -> Result<(), Seq<char>> {
        text::both(
            facts.sound(),
            text::both(
                text::holds(self.side == facts.side, "Join frontier side changed while resuming"@),
                text::both(
                    text::holds(
                        self.positions == facts.positions,
                        "Join frontier input positions changed while resuming"@,
                    ),
                    text::holds(
                        self.frontier == facts.frontier,
                        "Join frontier value changed while resuming"@,
                    ),
                ),
            ),
        )
    }

    pub fn validate_resume(self, facts: FrontierInputFacts) -> (outcome: Result<(), String>)
        ensures
            text::agrees(outcome, self.resumes(facts)),
    {
        facts.validate()?;
        if self.side != facts.side {
            return fail("Join frontier side changed while resuming");
        }
        if self.positions != facts.positions {
            return fail("Join frontier input positions changed while resuming");
        }
        if self.frontier != facts.frontier {
            return fail("Join frontier value changed while resuming");
        }
        Ok(())
    }
}

/// The one durable row that says what a Join stage does next.
#[derive(Clone, Copy, Debug, PartialEq, Eq, Structural)]
pub enum JoinContinuation {
    Preflight { positions: InputPositions, side: InputSide },
    Probe(InputProgress),
    PendingTransition { progress: InputProgress, candidate: CandidateExpectation },
    Finalize(InputProgress),
    Frontier(FrontierContinuation),
}

impl JoinContinuation {
    pub fn start_preflight(positions: InputPositions, side: InputSide) -> (outcome: Result<
        Self,
        String,
    >)
        ensures
            text::agrees(
                outcome,
                text::guarded(
                    positions.sound(),
                    JoinContinuation::Preflight { positions, side },
                ),
            ),
    {
        positions.validate()?;
        Ok(JoinContinuation::Preflight { positions, side })
    }

    /// The continuation that opens one data event.
    pub open spec fn opened(
        event: InputEventFacts,
        expected_own: OwnExpectation,
    ) -> Result<JoinContinuation, Seq<char>> {
        text::guarded(
            text::both(event.sound(), expected_own.takes(event.weight)),
            JoinContinuation::Probe(InputProgress::opening(event, expected_own)),
        )
    }

    pub fn start_input(event: InputEventFacts, expected_own: OwnExpectation) -> (outcome: Result<
        Self,
        String,
    >)
        ensures
            text::agrees(outcome, Self::opened(event, expected_own)),
    {
        event.validate()?;
        expected_own.validate_event(event.weight)?;
        Ok(JoinContinuation::Probe(InputProgress::from_event(event, expected_own)))
    }

    pub fn start_frontier(facts: FrontierInputFacts) -> (outcome: Result<Self, String>)
        ensures
            text::agrees(
                outcome,
                text::guarded(
                    facts.sound(),
                    JoinContinuation::Frontier(FrontierContinuation::opening(facts)),
                ),
            ),
    {
        facts.validate()?;
        Ok(JoinContinuation::Frontier(FrontierContinuation::from_facts(facts)))
    }

    /// The data continuation that a persisted phase, progress and pending
    /// candidate stand for.
    pub open spec fn restored(
        phase_code: i16,
        progress: InputProgress,
        pending_candidate: Option<CandidateExpectation>,
    ) -> Result<JoinContinuation, Seq<char>> {
        match progress.sound() {
            Err(message) => Err(message),
            Ok(()) => match JoinPhase::decoded(phase_code) {
                Err(message) => Err(message),
                Ok(JoinPhase::Preflight) => Err(
                    "Preflight phase cannot decode an input-progress continuation"@,
                ),
                Ok(JoinPhase::Probe) => if pending_candidate is Some {
                    Err("Probe continuation contains a pending candidate"@)
                } else {
                    Ok(JoinContinuation::Probe(progress))
                },
                Ok(JoinPhase::PendingTransition) => match pending_candidate {
                    None => Err("pending-transition continuation omitted its candidate"@),
                    Some(candidate) => text::guarded(
                        text::both(candidate.sound(), pending_sound(progress, candidate)),
                        JoinContinuation::PendingTransition { progress, candidate },
                    ),
                },
                Ok(JoinPhase::Finalize) => if pending_candidate is Some {
                    Err("Finalize continuation contains a pending candidate"@)
                } else {
                    Ok(JoinContinuation::Finalize(progress))
                },
                Ok(JoinPhase::Frontier) => Err(
                    "Frontier phase cannot decode an input continuation"@,
                ),
            },
        }
    }

    pub fn restore_input(
        phase_code: PhaseCode,
        progress: InputProgress,
        pending_candidate: Option<CandidateExpectation>,
    ) -> (outcome: Result<Self, String>)
        ensures
            text::agrees(outcome, Self::restored(phase_code.0, progress, pending_candidate)),
    {
        progress.validate()?;
        match JoinPhase::from_code(phase_code)? {
            JoinPhase::Preflight => fail(
                "Preflight phase cannot decode an input-progress continuation",
            ),
            JoinPhase::Probe => {
                if pending_candidate.is_some() {
                    return fail("Probe continuation contains a pending candidate");
                }
                Ok(JoinContinuation::Probe(progress))
            },
            JoinPhase::PendingTransition => {
                match pending_candidate {
                    None => fail("pending-transition continuation omitted its candidate"),
                    Some(candidate) => {
                        candidate.validate()?;
                        validate_pending_candidate(progress, candidate)?;
                        Ok(JoinContinuation::PendingTransition { progress, candidate })
                    },
                }
            },
            JoinPhase::Finalize => {
                if pending_candidate.is_some() {
                    return fail("Finalize continuation contains a pending candidate");
                }
                Ok(JoinContinuation::Finalize(progress))
            },
            JoinPhase::Frontier => fail("Frontier phase cannot decode an input continuation"),
        }
    }

    pub open spec fn phase_of(self) -> JoinPhase {
        match self {
            JoinContinuation::Preflight { .. } => JoinPhase::Preflight,
            JoinContinuation::Probe(_) => JoinPhase::Probe,
            JoinContinuation::PendingTransition { .. } => JoinPhase::PendingTransition,
            JoinContinuation::Finalize(_) => JoinPhase::Finalize,
            JoinContinuation::Frontier(_) => JoinPhase::Frontier,
        }
    }

    pub fn phase(&self) -> (phase: JoinPhase)
        ensures
            phase == self.phase_of(),
    {
        match self {
            JoinContinuation::Preflight { .. } => JoinPhase::Preflight,
            JoinContinuation::Probe(_) => JoinPhase::Probe,
            JoinContinuation::PendingTransition { .. } => JoinPhase::PendingTransition,
            JoinContinuation::Finalize(_) => JoinPhase::Finalize,
            JoinContinuation::Frontier(_) => JoinPhase::Frontier,
        }
    }

    pub open spec fn progress_of(self) -> Option<InputProgress> {
        match self {
            JoinContinuation::Probe(progress) => Some(progress),
            JoinContinuation::PendingTransition { progress, .. } => Some(progress),
            JoinContinuation::Finalize(progress) => Some(progress),
            JoinContinuation::Preflight { .. } => None,
            JoinContinuation::Frontier(_) => None,
        }
    }

    pub fn input_progress(&self) -> (progress: Option<InputProgress>)
        ensures
            progress == self.progress_of(),
    {
        match self {
            JoinContinuation::Probe(progress) => Some(*progress),
            JoinContinuation::PendingTransition { progress, .. } => Some(*progress),
            JoinContinuation::Finalize(progress) => Some(*progress),
            JoinContinuation::Preflight { .. } => None,
            JoinContinuation::Frontier(_) => None,
        }
    }

    pub open spec fn input_resumes(self, event: InputEventFacts) -> Result<(), Seq<char>> {
        match self.progress_of() {
            None => Err("input event cannot resume a Preflight or Frontier continuation"@),
            Some(progress) => progress.resumes(event),
        }
    }

    pub fn validate_input_resume(&self, event: InputEventFacts) -> (outcome: Result<(), String>)
        ensures
            text::agrees(outcome, self.input_resumes(event)),
    {
        match self.input_progress() {
            None => fail("input event cannot resume a Preflight or Frontier continuation"),
            Some(progress) => progress.validate_resume(event),
        }
    }

    pub open spec fn frontier_resumes(self, facts: FrontierInputFacts) -> Result<(), Seq<char>> {
        match self {
            JoinContinuation::Frontier(frontier) => frontier.resumes(facts),
            _ => Err("frontier cannot pass an active Join input continuation"@),
        }
    }

    pub fn validate_frontier_resume(&self, facts: FrontierInputFacts) -> (outcome: Result<
        (),
        String,
    >)
        ensures
            text::agrees(outcome, self.frontier_resumes(facts)),
    {
        match self {
            JoinContinuation::Frontier(frontier) => frontier.validate_resume(facts),
            _ => fail("frontier cannot pass an active Join input continuation"),
        }
    }
}

/// Whether a candidate may stand between its pair and its transition: a true
/// match, counted by the event, beyond the durable cursor.
pub open spec fn pending_sound(
    progress: InputProgress,
    candidate: CandidateExpectation,
) -> Result<(), Seq<char>> {
    text::both(
        progress.sound(),
        text::both(
            candidate.sound(),
            text::both(
                text::holds(
                    candidate.truth is True,
                    "pending Join transition is not the second action of a true pair"@,
                ),
                match signed_count(
                    candidate.old_counts.matched,
                    progress.event_weight,
                    "pending Join candidate matched count"@,
                ) {
                    Err(message) => Err(message),
                    Ok(matched) => text::both(
                        text::holds(
                            candidate.new_counts == (MatchCounts {
                                matched,
                                unknown: candidate.old_counts.unknown,
                            }),
                            "pending Join candidate counts do not match the input event"@,
                        ),
                        text::holds(
                            follows(candidate.row_id, progress.candidate_after),
                            "pending Join candidate does not follow the durable cursor"@,
                        ),
                    ),
                },
            ),
        ),
    )
}

/// Whether a row lies strictly beyond a keyset cursor.
pub open spec fn follows(row_id: i64, cursor: Option<i64>) -> bool {
    match cursor {
        None => true,
        Some(last) => row_id > last,
    }
}

fn is_beyond(row_id: i64, cursor: Option<i64>) -> (beyond: bool)
    ensures
        beyond == follows(row_id, cursor),
{
    match cursor {
        None => true,
        Some(last) => row_id > last,
    }
}

pub fn validate_pending_candidate(
    progress: InputProgress,
    candidate: CandidateExpectation,
) -> (outcome: Result<(), String>)
    ensures
        text::agrees(outcome, pending_sound(progress, candidate)),
{
    progress.validate()?;
    candidate.validate()?;
    if candidate.truth != MatchTruth::True {
        return fail("pending Join transition is not the second action of a true pair");
    }
    let expected_matched: u64 = checked_signed_count(
        candidate.old_counts.matched,
        progress.event_weight,
        "pending Join candidate matched count",
    )?;
    if candidate.new_counts.matched != expected_matched || candidate.new_counts.unknown
        != candidate.old_counts.unknown {
        return fail("pending Join candidate counts do not match the input event");
    }
    if !is_beyond(candidate.row_id, progress.candidate_after) {
        return fail("pending Join candidate does not follow the durable cursor");
    }
    Ok(())
}

/// Measured sizes of the rows that a candidate may emit, where measured.
#[derive(Clone, Copy, Debug, PartialEq, Eq, Structural)]
pub struct ProjectionBytes {
    pub pair: Option<u64>,
    pub candidate_only: Option<u64>,
}

impl ProjectionBytes {
    pub open spec fn sound(self) -> Result<(), Seq<char>> {
        text::holds(
            self.pair != Some(0u64) && self.candidate_only != Some(0u64),
            "measured Join projection has zero bytes"@,
        )
    }

    pub fn new(pair: Option<u64>, candidate_only: Option<u64>) -> (outcome: Result<Self, String>)
        ensures
            ({
                let projections = ProjectionBytes { pair, candidate_only };
                text::agrees(outcome, text::guarded(projections.sound(), projections))
            }),
    {
        let projections = Self { pair, candidate_only };
        projections.validate()?;
        Ok(projections)
    }

    pub fn validate(self) -> (outcome: Result<(), String>)
        ensures
            text::agrees(outcome, self.sound()),
    {
        if matches!(self.pair, Some(0)) || matches!(self.candidate_only, Some(0)) {
            return fail("measured Join projection has zero bytes");
        }
        Ok(())
    }
}

/// One probed candidate: its identity, counts, truth and measured sizes.
#[derive(Clone, Copy, Debug, PartialEq, Eq, Structural)]
pub struct CandidateProbe {
    pub row_id: i64,
    pub multiplicity: u64,
    pub truth: MatchTruth,
    pub old_counts: MatchCounts,
    pub row_bytes: u64,
    pub output_bytes: ProjectionBytes,
}

impl CandidateProbe {
    pub open spec fn sound(self) -> Result<(), Seq<char>> {
        text::both(
            stable_id(self.row_id, "Join candidate"@),
            text::both(
                positive_count(self.multiplicity, "Join candidate multiplicity"@),
                text::both(
                    self.old_counts.sound(),
                    text::both(
                        text::holds(
                            self.row_bytes != 0,
                            "Join candidate has zero measured bytes"@,
                        ),
                        self.output_bytes.sound(),
                    ),
                ),
            ),
        )
    }

    pub fn new(
        row_id: i64,
        multiplicity: u64,
        truth: MatchTruth,
        old_counts: MatchCounts,
        row_bytes: u64,
        output_bytes: ProjectionBytes,
    ) -> (outcome: Result<Self, String>)
        ensures
            ({
                let candidate = CandidateProbe {
                    row_id,
                    multiplicity,
                    truth,
                    old_counts,
                    row_bytes,
                    output_bytes,
                };
                text::agrees(outcome, text::guarded(candidate.sound(), candidate))
            }),
    {
        let candidate = Self {
            row_id,
            multiplicity,
            truth,
            old_counts,
            row_bytes,
            output_bytes,
        };
        candidate.validate()?;
        Ok(candidate)
    }

    pub fn validate(self) -> (outcome: Result<(), String>)
        ensures
            text::agrees(outcome, self.sound()),
    {
        validate_stable_id(self.row_id, "Join candidate")?;
        validate_positive_count(self.multiplicity, "Join candidate multiplicity")?;
        self.old_counts.validate()?;
        if self.row_bytes == 0 {
            return fail("Join candidate has zero measured bytes");
        }
        self.output_bytes.validate()
    }
}

/// Candidates beyond the cursor in keyset order, and whether none is left.
#[derive(Clone, Debug, PartialEq, Eq)]
pub struct ProbePage {
    pub candidates: Vec<CandidateProbe>,
    pub complete: bool,
}

/// The checks of the candidates of a page, in order.
pub open spec fn candidate_checks(candidates: Seq<CandidateProbe>) -> Seq<Result<(), Seq<char>>> {
    Seq::new(candidates.len(), |index: int| candidates[index].sound())
}

impl ProbePage {
    pub fn new(candidates: Vec<CandidateProbe>, complete: bool) -> (outcome: Result<Self, String>)
        ensures
            match (
                outcome,
                text::both(
                    text::holds(
                        candidates@.len() > 0 || complete,
                        "partial Join probe page is empty"@,
                    ),
                    text::all_hold(candidate_checks(candidates@)),
                ),
            ) {
                (Ok(page), Ok(())) => page.candidates@ == candidates@ && page.complete == complete,
                (Err(error), Err(message)) => error@ == message,
                _ => false,
            },
    {
        if candidates.is_empty() && !complete {
            return fail("partial Join probe page is empty");
        }
        let ghost checks = candidate_checks(candidates@);
        let mut index: usize = 0;
        while index < candidates.len()
            invariant
                index <= candidates.len(),
                checks == candidate_checks(candidates@),
                text::all_hold(checks.take(index as int)) is Ok,
                candidates.len() > 0 || complete,
            decreases candidates.len() - index,
        {
            proof {
                text::next_check_decides(checks, index as int);
            }
            candidates[index].validate()?;
            index = index + 1;
        }
        proof {
            assert(checks.take(candidates.len() as int) =~= checks);
        }
        Ok(Self { candidates, complete })
    }
}

#[derive(Clone, Copy, Debug, PartialEq, Eq, Structural)]
pub enum OutputActionKind {
    Pair,
    CandidateEligibility,
    CurrentEligibility,
}

/// One output row that a plan selected.
#[derive(Clone, Copy, Debug, PartialEq, Eq, Structural)]
pub struct OutputAction {
    pub kind: OutputActionKind,
    pub current_side: InputSide,
    pub candidate_row_id: Option<i64>,
    pub weight: i64,
    pub row_bytes: u64,
}

impl OutputAction {
    pub open spec fn sound(self) -> Result<(), Seq<char>> {
        text::both(
            text::holds(self.weight != 0, "Join output action has zero weight"@),
            text::both(
                text::holds(self.row_bytes != 0, "Join output action has zero measured bytes"@),
                match (self.kind, self.candidate_row_id) {
                    (OutputActionKind::CurrentEligibility, None) => Ok(()),
                    (OutputActionKind::Pair, Some(row_id)) => stable_id(
                        row_id,
                        "Join action candidate"@,
                    ),
                    (OutputActionKind::CandidateEligibility, Some(row_id)) => stable_id(
                        row_id,
                        "Join action candidate"@,
                    ),
                    _ => Err("Join output action has an invalid candidate identity"@),
                },
            ),
        )
    }

    pub fn validate(self) -> (outcome: Result<(), String>)
        ensures
            text::agrees(outcome, self.sound()),
    {
        if self.weight == 0 {
            return fail("Join output action has zero weight");
        }
        if self.row_bytes == 0 {
            return fail("Join output action has zero measured bytes");
        }
        match (self.kind, self.candidate_row_id) {
            (OutputActionKind::Pair, Some(row_id)) => validate_stable_id(
                row_id,
                "Join action candidate",
            ),
            (OutputActionKind::CandidateEligibility, Some(row_id)) => validate_stable_id(
                row_id,
                "Join action candidate",
            ),
            (OutputActionKind::CurrentEligibility, None) => Ok(()),
            _ => fail("Join output action has an invalid candidate identity"),
        }
    }
}

/// A compare-and-set mutation of one candidate row.
#[derive(Clone, Copy, Debug, PartialEq, Eq, Structural)]
pub struct CandidateStateChange {
    pub expected: CandidateExpectation,
}

impl CandidateStateChange {
    pub open spec fn sound(self) -> Result<(), Seq<char>> {
        text::both(
            self.expected.sound(),
            text::holds(
                self.expected.old_counts != self.expected.new_counts,
                "Join candidate mutation does not change state"@,
            ),
        )
    }

    pub fn validate(self) -> (outcome: Result<(), String>)
        ensures
            text::agrees(outcome, self.sound()),
    {
        self.expected.validate()?;
        if self.expected.old_counts == self.expected.new_counts {
            return fail("Join candidate mutation does not change state");
        }
        Ok(())
    }
}

/// A planned action prefix as plain sequences.
#[verifier::ext_equal]
pub struct ActionPlanModel {
    pub budget: WorkBudget,
    pub usage: WorkUsage,
    pub actions: Seq<OutputAction>,
    pub candidate_changes: Seq<CandidateStateChange>,
    pub next: JoinContinuation,
}

impl ActionPlanModel {
    /// Whether committed facts are exactly the planned ones.
    pub open spec fn commits(self, facts: PrimitiveFacts) -> Result<(), Seq<char>> {
        text::both(
            facts.follows_protocol(self.budget, KernelPhase::Process, KernelCompletion::Continue),
            text::both(
                text::holds(
                    facts.usage == self.usage,
                    "Join action commit usage differs from its plan"@,
                ),
                text::both(
                    text::holds(
                        facts.state_rows == self.candidate_changes.len(),
                        "Join action commit changed an unexpected number of candidate rows"@,
                    ),
                    text::holds(
                        self.actions.len() > 0 || facts.output is Nothing,
                        "Join action commit created output for an empty action prefix"@,
                    ),
                ),
            ),
        )
    }
}

/// One ordered action prefix, the candidate mutations that complete with it,
/// and the continuation that commits beside them.
#[derive(Clone, Debug, PartialEq, Eq)]
pub struct ActionPlan {
    pub budget: WorkBudget,
    pub usage: WorkUsage,
    pub actions: Vec<OutputAction>,
    pub candidate_changes: Vec<CandidateStateChange>,
    pub next: JoinContinuation,
}

impl View for ActionPlan {
    type V = ActionPlanModel;

    open spec fn view(&self) -> ActionPlanModel {
        ActionPlanModel {
            budget: self.budget,
            usage: self.usage,
            actions: self.actions@,
            candidate_changes: self.candidate_changes@,
            next: self.next,
        }
    }
}

impl ActionPlan {
    pub fn usage(&self) -> (usage: WorkUsage)
        ensures
            usage == self.usage,
    {
        self.usage
    }

    pub fn actions(&self) -> (actions: &[OutputAction])
        ensures
            actions@ == self.actions@,
    {
        self.actions.as_slice()
    }

    pub fn candidate_changes(&self) -> (changes: &[CandidateStateChange])
        ensures
            changes@ == self.candidate_changes@,
    {
        self.candidate_changes.as_slice()
    }

    pub fn next_continuation(&self) -> (next: &JoinContinuation)
        ensures
            *next == self.next,
    {
        &self.next
    }

    /// Whether committed facts are exactly the planned ones.
    pub open spec fn commits(self, facts: PrimitiveFacts) -> Result<(), Seq<char>> {
        self@.commits(facts)
    }

    pub fn validate_commit(&self, facts: PrimitiveFacts) -> (outcome: Result<(), String>)
        ensures
            text::agrees(outcome, self.commits(facts)),
    {
        facts.validate_protocol(self.budget, KernelPhase::Process, KernelCompletion::Continue)?;
        if facts.usage != self.usage {
            return fail("Join action commit usage differs from its plan");
        }
        if facts.state_rows != self.candidate_changes.len() as u64 {
            return fail("Join action commit changed an unexpected number of candidate rows");
        }
        if self.actions.is_empty() && facts.output != OutputFacts::Nothing {
            return fail("Join action commit created output for an empty action prefix");
        }
        Ok(())
    }
}

/// The counts of a candidate after an event. Unknown matches change state
/// only where they decide eligibility.
pub open spec fn delta_applied(
    mode: JoinMode,
    counts: MatchCounts,
    truth: MatchTruth,
    event_weight: i64,
) -> Result<MatchCounts, Seq<char>> {
    match counts.sound() {
        Err(message) => Err(message),
        Ok(()) => if truth is True {
            match signed_count(counts.matched, event_weight, "Join candidate matched count"@) {
                Ok(matched) => Ok(MatchCounts { matched, unknown: counts.unknown }),
                Err(message) => Err(message),
            }
        } else if truth is Unknown && mode is NullAwareAnti {
            match signed_count(counts.unknown, event_weight, "Join candidate unknown count"@) {
                Ok(unknown) => Ok(MatchCounts { matched: counts.matched, unknown }),
                Err(message) => Err(message),
            }
        } else {
            Ok(counts)
        },
    }
}

pub fn apply_match_delta(
    mode: JoinMode,
    counts: MatchCounts,
    truth: MatchTruth,
    event_weight: i64,
) -> (outcome: Result<MatchCounts, String>)
    ensures
        text::agrees(outcome, delta_applied(mode, counts, truth, event_weight)),
{
    counts.validate()?;
    let mut new = counts;
    match truth {
        MatchTruth::True => {
            new.matched =
            checked_signed_count(counts.matched, event_weight, "Join candidate matched count")?;
        },
        MatchTruth::Unknown => {
            if mode == JoinMode::NullAwareAnti {
                new.unknown =
                checked_signed_count(
                    counts.unknown,
                    event_weight,
                    "Join candidate unknown count",
                )?;
            }
        },
        MatchTruth::False => {},
    }
    Ok(new)
}

/// Whether a join mode emits rows of one side on their own.
pub open spec fn side_is_output(mode: JoinMode, side: InputSide) -> bool {
    match mode {
        JoinMode::Inner => false,
        JoinMode::Full => true,
        JoinMode::Right => side is Right,
        JoinMode::Left => side is Left,
        JoinMode::Semi => side is Left,
        JoinMode::Anti => side is Left,
        JoinMode::NullAwareAnti => side is Left,
    }
}

pub fn candidate_side_is_output(mode: JoinMode, candidate_side: InputSide) -> (output: bool)
    ensures
        output == side_is_output(mode, candidate_side),
{
    match mode {
        JoinMode::Inner => false,
        JoinMode::Left => candidate_side == InputSide::Left,
        JoinMode::Right => candidate_side == InputSide::Right,
        JoinMode::Full => true,
        JoinMode::Semi => candidate_side == InputSide::Left,
        JoinMode::Anti => candidate_side == InputSide::Left,
        JoinMode::NullAwareAnti => candidate_side == InputSide::Left,
    }
}

/// Whether a row with these match counts is itself an output row of the mode.
pub open spec fn eligible(mode: JoinMode, counts: MatchCounts) -> bool {
    match mode {
        JoinMode::Inner => false,
        JoinMode::Semi => counts.matched > 0,
        JoinMode::NullAwareAnti => counts.matched == 0 && counts.unknown == 0,
        JoinMode::Left => counts.matched == 0,
        JoinMode::Right => counts.matched == 0,
        JoinMode::Full => counts.matched == 0,
        JoinMode::Anti => counts.matched == 0,
    }
}

pub fn candidate_eligible(mode: JoinMode, counts: MatchCounts) -> (is_eligible: bool)
    ensures
        is_eligible == eligible(mode, counts),
{
    match mode {
        JoinMode::Inner => false,
        JoinMode::Left => counts.matched == 0,
        JoinMode::Right => counts.matched == 0,
        JoinMode::Full => counts.matched == 0,
        JoinMode::Anti => counts.matched == 0,
        JoinMode::Semi => counts.matched > 0,
        JoinMode::NullAwareAnti => counts.matched == 0 && counts.unknown == 0,
    }
}

pub fn current_side_is_eligible(
    mode: JoinMode,
    current_side: InputSide,
    counts: MatchCounts,
) -> (is_eligible: bool)
    ensures
        is_eligible == (side_is_output(mode, current_side) && eligible(mode, counts)),
{
    match mode {
        JoinMode::Inner => false,
        JoinMode::Left => current_side == InputSide::Left && counts.matched == 0,
        JoinMode::Right => current_side == InputSide::Right && counts.matched == 0,
        JoinMode::Full => counts.matched == 0,
        JoinMode::Semi => current_side == InputSide::Left && counts.matched > 0,
        JoinMode::Anti => current_side == InputSide::Left && counts.matched == 0,
        JoinMode::NullAwareAnti => current_side == InputSide::Left && counts.matched == 0
            && counts.unknown == 0,
    }
}

/// Whether a join mode emits matched pairs.
pub open spec fn emits_pairs(mode: JoinMode) -> bool {
    mode is Inner || mode is Left || mode is Right || mode is Full
}

/// What one candidate contributes: its state change and its output actions.
#[verifier::ext_equal]
pub struct ClassifiedModel {
    pub expected: CandidateExpectation,
    pub actions: Seq<OutputAction>,
}

impl ClassifiedModel {
    /// A pair that an eligibility transition of the same candidate follows:
    /// the only place where a plan may stop inside a candidate.
    pub open spec fn splits(self) -> bool {
        self.actions.len() == 2 && self.actions[0].kind is Pair
            && self.actions[1].kind is CandidateEligibility
    }
}

/// The pair that a matching candidate emits, if the mode emits pairs.
pub open spec fn pair_action(
    mode: JoinMode,
    current_side: InputSide,
    event_weight: i64,
    candidate: CandidateProbe,
) -> Result<Option<OutputAction>, Seq<char>> {
    if candidate.truth is True && emits_pairs(mode) {
        match (
            weight_product(event_weight, candidate.multiplicity),
            candidate.output_bytes.pair,
        ) {
            (Err(message), _) => Err(message),
            (_, None) => Err("Join pair probe omitted projected bytes"@),
            (Ok(weight), Some(row_bytes)) => Ok(
                Some(
                    OutputAction {
                        kind: OutputActionKind::Pair,
                        current_side,
                        candidate_row_id: Some(candidate.row_id),
                        weight,
                        row_bytes,
                    },
                ),
            ),
        }
    } else {
        Ok(None)
    }
}

/// The row that a candidate itself emits when its eligibility changes: it
/// appears with its multiplicity or is retracted with it.
pub open spec fn transition_action(
    mode: JoinMode,
    current_side: InputSide,
    candidate: CandidateProbe,
    new_counts: MatchCounts,
) -> Result<Option<OutputAction>, Seq<char>> {
    let before = eligible(mode, candidate.old_counts);
    let after = eligible(mode, new_counts);
    if side_is_output(mode, current_side.other()) && before != after {
        match (
            signed_magnitude(candidate.multiplicity, "Join transition weight"@),
            candidate.output_bytes.candidate_only,
        ) {
            (Err(message), _) => Err(message),
            (_, None) => Err("Join candidate transition probe omitted projected bytes"@),
            (Ok(magnitude), Some(row_bytes)) => Ok(
                Some(
                    OutputAction {
                        kind: OutputActionKind::CandidateEligibility,
                        current_side,
                        candidate_row_id: Some(candidate.row_id),
                        weight: if after {
                            magnitude
                        } else {
                            (-magnitude) as i64
                        },
                        row_bytes,
                    },
                ),
            ),
        }
    } else {
        Ok(None)
    }
}

pub open spec fn option_seq(action: Option<OutputAction>) -> Seq<OutputAction> {
    match action {
        Some(action) => seq![action],
        None => Seq::empty(),
    }
}

pub open spec fn classified(
    mode: JoinMode,
    current_side: InputSide,
    event_weight: i64,
    candidate: CandidateProbe,
) -> Result<ClassifiedModel, Seq<char>> {
    match candidate.sound() {
        Err(message) => Err(message),
        Ok(()) => match delta_applied(
            mode,
            candidate.old_counts,
            candidate.truth,
            event_weight,
        ) {
            Err(message) => Err(message),
            Ok(new_counts) => match (
                pair_action(mode, current_side, event_weight, candidate),
                transition_action(mode, current_side, candidate, new_counts),
            ) {
                (Err(message), _) => Err(message),
                (_, Err(message)) => Err(message),
                (Ok(pair), Ok(transition)) => Ok(
                    ClassifiedModel {
                        expected: CandidateExpectation {
                            row_id: candidate.row_id,
                            multiplicity: candidate.multiplicity,
                            truth: candidate.truth,
                            old_counts: candidate.old_counts,
                            new_counts,
                        },
                        actions: option_seq(pair) + option_seq(transition),
                    },
                ),
            },
        },
    }
}

#[derive(Clone, Debug, PartialEq, Eq)]
pub struct Classified {
    pub expected: CandidateExpectation,
    pub actions: Vec<OutputAction>,
}

impl View for Classified {
    type V = ClassifiedModel;

    open spec fn view(&self) -> ClassifiedModel {
        ClassifiedModel { expected: self.expected, actions: self.actions@ }
    }
}

pub fn classify_candidate(
    mode: JoinMode,
    current_side: InputSide,
    event_weight: i64,
    candidate: CandidateProbe,
) -> (outcome: Result<Classified, String>)
    ensures
        text::agrees_view(outcome, classified(mode, current_side, event_weight, candidate)),
{
    candidate.validate()?;
    let new_counts = apply_match_delta(mode, candidate.old_counts, candidate.truth, event_weight)?;
    let expected = CandidateExpectation {
        row_id: candidate.row_id,
        multiplicity: candidate.multiplicity,
        truth: candidate.truth,
        old_counts: candidate.old_counts,
        new_counts,
    };
    let mut actions: Vec<OutputAction> = Vec::with_capacity(2);
    let pairs = matches!(mode, JoinMode::Inner | JoinMode::Left | JoinMode::Right | JoinMode::Full);
    if candidate.truth == MatchTruth::True && pairs {
        let weight: i64 = checked_weight_product(event_weight, candidate.multiplicity)?;
        match candidate.output_bytes.pair {
            None => {
                return fail("Join pair probe omitted projected bytes");
            },
            Some(row_bytes) => {
                actions.push(
                    OutputAction {
                        kind: OutputActionKind::Pair,
                        current_side,
                        candidate_row_id: Some(candidate.row_id),
                        weight,
                        row_bytes,
                    },
                );
            },
        }
    }
    let ghost pair = pair_action(mode, current_side, event_weight, candidate);
    assert(pair is Ok && actions@ =~= option_seq(pair->Ok_0));
    if candidate_side_is_output(mode, current_side.opposite()) {
        let old_eligible = candidate_eligible(mode, candidate.old_counts);
        let new_eligible = candidate_eligible(mode, new_counts);
        if old_eligible != new_eligible {
            let magnitude: i64 = count_to_i64(candidate.multiplicity, "Join transition weight")?;
            match candidate.output_bytes.candidate_only {
                None => {
                    return fail("Join candidate transition probe omitted projected bytes");
                },
                Some(row_bytes) => {
                    actions.push(
                        OutputAction {
                            kind: OutputActionKind::CandidateEligibility,
                            current_side,
                            candidate_row_id: Some(candidate.row_id),
                            weight: if new_eligible {
                                magnitude
                            } else {
                                -magnitude
                            },
                            row_bytes,
                        },
                    );
                },
            }
        }
    }
    let ghost transition = transition_action(mode, current_side, candidate, new_counts);
    assert(transition is Ok && actions@ =~= option_seq(pair->Ok_0) + option_seq(
        transition->Ok_0,
    ));
    Ok(Classified { expected, actions })
}

/// Whether one more action fits behind the rows and bytes already selected.
/// The first indivisible output row may exceed the target byte budget.
pub open spec fn fits_behind(
    rows: int,
    bytes: int,
    action: OutputAction,
    budget: WorkBudget,
) -> Result<bool, Seq<char>> {
    match action.sound() {
        Err(message) => Err(message),
        Ok(()) => if rows + 1 > u64::MAX {
            Err("Join output row count overflow"@)
        } else if rows + 1 > budget.max_output_rows {
            Ok(false)
        } else if bytes + action.row_bytes > u64::MAX {
            Err("Join output byte count overflow"@)
        } else {
            Ok(rows == 0 || bytes + action.row_bytes <= budget.max_output_bytes)
        },
    }
}

pub fn action_fits(
    current_rows: u64,
    current_bytes: u64,
    action: OutputAction,
    budget: WorkBudget,
) -> (outcome: Result<bool, String>)
    ensures
        text::agrees(
            outcome,
            fits_behind(current_rows as int, current_bytes as int, action, budget),
        ),
{
    action.validate()?;
    let max_rows: u64 = budget.max_output_rows as u64;
    let max_bytes: u64 = budget.max_output_bytes as u64;
    match current_rows.checked_add(1) {
        None => fail("Join output row count overflow"),
        Some(next_rows) => {
            if next_rows > max_rows {
                return Ok(false);
            }
            match current_bytes.checked_add(action.row_bytes) {
                None => fail("Join output byte count overflow"),
                // The first indivisible output row may exceed the target byte budget.
                Some(next_bytes) => Ok(current_rows == 0 || next_bytes <= max_bytes),
            }
        },
    }
}

/// The candidates of a page are sound, the pending one comes first, and row
/// identifiers strictly follow the cursor and one another.
pub open spec fn order_check(
    progress: InputProgress,
    pending: Option<CandidateExpectation>,
    candidates: Seq<CandidateProbe>,
    index: int,
) -> Result<(), Seq<char>> {
    let candidate = candidates[index];
    let previous = if index == 0 {
        progress.candidate_after
    } else {
        Some(candidates[index - 1].row_id)
    };
    text::both(
        candidate.sound(),
        match pending {
            Some(expected) if index == 0 => text::both(
                text::holds(
                    candidate.row_id == expected.row_id,
                    "pending Join candidate was not the first probe row"@,
                ),
                text::holds(
                    follows(candidate.row_id, previous),
                    "pending Join candidate does not follow the durable cursor"@,
                ),
            ),
            _ => text::holds(
                follows(candidate.row_id, previous),
                "Join probe candidates are not in strict keyset order"@,
            ),
        },
    )
}

pub open spec fn order_checks(
    progress: InputProgress,
    pending: Option<CandidateExpectation>,
    candidates: Seq<CandidateProbe>,
) -> Seq<Result<(), Seq<char>>> {
    Seq::new(candidates.len(), |index: int| order_check(progress, pending, candidates, index))
}

pub open spec fn page_in_order(
    progress: InputProgress,
    pending: Option<CandidateExpectation>,
    candidates: Seq<CandidateProbe>,
    complete: bool,
) -> Result<(), Seq<char>> {
    if candidates.len() == 0 {
        if pending is Some {
            Err("pending Join transition probe returned no candidate"@)
        } else {
            text::holds(complete, "partial Join probe page is empty"@)
        }
    } else {
        text::all_hold(order_checks(progress, pending, candidates))
    }
}

pub fn validate_probe_page_order(
    progress: InputProgress,
    pending: Option<CandidateExpectation>,
    page: &ProbePage,
) -> (outcome: Result<(), String>)
    ensures
        text::agrees(
            outcome,
            page_in_order(progress, pending, page.candidates@, page.complete),
        ),
{
    if page.candidates.is_empty() {
        if pending.is_some() {
            return fail("pending Join transition probe returned no candidate");
        }
        return if page.complete {
            Ok(())
        } else {
            fail("partial Join probe page is empty")
        };
    }
    let ghost checks = order_checks(progress, pending, page.candidates@);
    let mut previous: Option<i64> = progress.candidate_after;
    let mut index: usize = 0;
    while index < page.candidates.len()
        invariant
            index <= page.candidates.len(),
            page.candidates.len() > 0,
            checks == order_checks(progress, pending, page.candidates@),
            text::all_hold(checks.take(index as int)) is Ok,
            previous == (if index == 0 {
                progress.candidate_after
            } else {
                Some(page.candidates@[index - 1].row_id)
            }),
        decreases page.candidates.len() - index,
    {
        proof {
            text::next_check_decides(checks, index as int);
            assert(checks[index as int] == order_check(
                progress,
                pending,
                page.candidates@,
                index as int,
            ));
        }
        let candidate = page.candidates[index];
        candidate.validate()?;
        if index == 0 && pending.is_some() {
            if let Some(expected) = pending {
                if candidate.row_id != expected.row_id {
                    return fail("pending Join candidate was not the first probe row");
                }
                if !is_beyond(candidate.row_id, previous) {
                    return fail("pending Join candidate does not follow the durable cursor");
                }
            }
        } else if !is_beyond(candidate.row_id, previous) {
            return fail("Join probe candidates are not in strict keyset order");
        }
        previous = Some(candidate.row_id);
        index = index + 1;
    }
    proof {
        assert(checks.take(page.candidates.len() as int) =~= checks);
    }
    Ok(())
}

/// How many leading actions fit behind the rows and bytes already selected.
pub open spec fn fitting(
    actions: Seq<OutputAction>,
    rows: int,
    bytes: int,
    budget: WorkBudget,
) -> Result<nat, Seq<char>>
    decreases actions.len(),
{
    if actions.len() == 0 {
        Ok(0)
    } else {
        match fits_behind(rows, bytes, actions[0], budget) {
            Err(message) => Err(message),
            Ok(false) => Ok(0),
            Ok(true) => match fitting(
                actions.drop_first(),
                rows + 1,
                bytes + actions[0].row_bytes,
                budget,
            ) {
                Ok(count) => Ok(count + 1),
                Err(message) => Err(message),
            },
        }
    }
}

/// The measured bytes of a list of actions.
pub open spec fn action_bytes(actions: Seq<OutputAction>) -> nat
    decreases actions.len(),
{
    if actions.len() == 0 {
        0
    } else {
        action_bytes(actions.drop_last()) + actions.last().row_bytes as nat
    }
}

/// The measured bytes of a list of candidates.
pub open spec fn candidate_bytes(candidates: Seq<CandidateProbe>) -> nat
    decreases candidates.len(),
{
    if candidates.len() == 0 {
        0
    } else {
        candidate_bytes(candidates.drop_last()) + candidates.last().row_bytes as nat
    }
}

/// A scan over the candidates of a page, up to where the output is full.
#[verifier::ext_equal]
pub struct ProbeScan {
    pub progress: InputProgress,
    pub actions: Seq<OutputAction>,
    pub changes: Seq<CandidateStateChange>,
    /// Some action of the last candidate did not fit.
    pub stopped: bool,
    /// The candidate whose pair is emitted and whose transition is not.
    pub pending: Option<CandidateExpectation>,
}

impl ProbeScan {
    /// The scan after one more candidate. A candidate that is resumed has
    /// already emitted its pair.
    pub open spec fn extended(
        self,
        mode: JoinMode,
        resumed: Option<CandidateExpectation>,
        candidate: CandidateProbe,
        budget: WorkBudget,
    ) -> Result<ProbeScan, Seq<char>> {
        match classified(mode, self.progress.side, self.progress.event_weight, candidate) {
            Err(message) => Err(message),
            Ok(found) => if resumed is Some && found.expected != resumed->0 {
                Err("pending Join candidate state changed while resuming"@)
            } else if resumed is Some && !found.splits() {
                Err("pending Join transition no longer follows its pair action"@)
            } else {
                self.selected(
                    mode,
                    found,
                    if resumed is Some {
                        1
                    } else {
                        0
                    },
                    budget,
                )
            },
        }
    }

    /// The scan after the actions of a classified candidate that fit. Only a
    /// candidate whose actions all fit changes state and moves the cursor.
    pub open spec fn selected(
        self,
        mode: JoinMode,
        found: ClassifiedModel,
        first: int,
        budget: WorkBudget,
    ) -> Result<ProbeScan, Seq<char>> {
        let open_actions = found.actions.skip(first);
        match fitting(
            open_actions,
            self.actions.len() as int,
            action_bytes(self.actions) as int,
            budget,
        ) {
            Err(message) => Err(message),
            Ok(count) => {
                let actions = self.actions + open_actions.take(count as int);
                if count < open_actions.len() {
                    Ok(
                        ProbeScan {
                            actions,
                            stopped: true,
                            pending: if first + count > 0 {
                                Some(found.expected)
                            } else {
                                None
                            },
                            ..self
                        },
                    )
                } else {
                    match self.progress.completed(mode, found.expected) {
                        Err(message) => Err(message),
                        Ok(progress) => Ok(
                            ProbeScan {
                                progress,
                                actions,
                                changes: if found.expected.old_counts
                                    != found.expected.new_counts {
                                    self.changes.push(
                                        CandidateStateChange { expected: found.expected },
                                    )
                                } else {
                                    self.changes
                                },
                                stopped: false,
                                pending: None,
                            },
                        ),
                    }
                }
            },
        }
    }
}

/// The scan over a list of candidates from a durable progress.
pub open spec fn scanned(
    mode: JoinMode,
    progress: InputProgress,
    pending: Option<CandidateExpectation>,
    candidates: Seq<CandidateProbe>,
    budget: WorkBudget,
) -> Result<ProbeScan, Seq<char>>
    decreases candidates.len(),
{
    if candidates.len() == 0 {
        Ok(
            ProbeScan {
                progress,
                actions: Seq::empty(),
                changes: Seq::empty(),
                stopped: false,
                pending: None,
            },
        )
    } else {
        match scanned(mode, progress, pending, candidates.drop_last(), budget) {
            Err(message) => Err(message),
            Ok(scan) => if scan.stopped {
                Ok(scan)
            } else {
                scan.extended(
                    mode,
                    if candidates.len() == 1 {
                        pending
                    } else {
                        None
                    },
                    candidates.last(),
                    budget,
                )
            },
        }
    }
}

/// A scan that stopped or failed on a prefix ends there.
proof fn scan_ends_with_its_prefix(
    mode: JoinMode,
    progress: InputProgress,
    pending: Option<CandidateExpectation>,
    candidates: Seq<CandidateProbe>,
    budget: WorkBudget,
    length: int,
)
    requires
        0 <= length <= candidates.len(),
        match scanned(mode, progress, pending, candidates.take(length), budget) {
            Ok(scan) => scan.stopped,
            Err(_) => true,
        },
    ensures
        scanned(mode, progress, pending, candidates, budget) == scanned(
            mode,
            progress,
            pending,
            candidates.take(length),
            budget,
        ),
    decreases candidates.len(),
{
    if length == candidates.len() {
        assert(candidates.take(length) =~= candidates);
    } else {
        assert(candidates.drop_last().take(length) =~= candidates.take(length));
        scan_ends_with_its_prefix(
            mode,
            progress,
            pending,
            candidates.drop_last(),
            budget,
            length,
        );
    }
}

/// The plan for one probed page.
pub open spec fn planned(
    mode: JoinMode,
    continuation: JoinContinuation,
    event: InputEventFacts,
    candidates: Seq<CandidateProbe>,
    complete: bool,
    budget: WorkBudget,
) -> Result<ActionPlanModel, Seq<char>> {
    match continuation.input_resumes(event) {
        Err(message) => Err(message),
        Ok(()) => match continuation {
            JoinContinuation::Probe(progress) => planned_scan(
                mode,
                progress,
                None,
                candidates,
                complete,
                budget,
            ),
            JoinContinuation::PendingTransition { progress, candidate } => planned_scan(
                mode,
                progress,
                Some(candidate),
                candidates,
                complete,
                budget,
            ),
            _ => Err("Finalize continuation cannot probe more Join candidates"@),
        },
    }
}

/// What the probe itself consumed.
pub open spec fn probe_usage(candidates: Seq<CandidateProbe>) -> WorkUsage {
    WorkUsage {
        input_rows: candidates.len() as u64,
        input_bytes: candidate_bytes(candidates) as u64,
        output_rows: 0,
        output_bytes: 0,
    }
}

/// The plan for one probed page from a durable progress: all its candidates
/// are in order and within the input budget, and a scan selects the output.
pub open spec fn planned_scan(
    mode: JoinMode,
    progress: InputProgress,
    pending: Option<CandidateExpectation>,
    candidates: Seq<CandidateProbe>,
    complete: bool,
    budget: WorkBudget,
) -> Result<ActionPlanModel, Seq<char>> {
    match text::both(
        progress.sound(),
        text::both(
            page_in_order(progress, pending, candidates, complete),
            text::both(
                text::holds(
                    candidate_bytes(candidates) <= u64::MAX,
                    "Join probe input byte count overflow"@,
                ),
                probe_usage(candidates).fits(budget),
            ),
        ),
    ) {
        Err(message) => Err(message),
        Ok(()) => match scanned(mode, progress, pending, candidates, budget) {
            Err(message) => Err(message),
            Ok(scan) => Ok(
                ActionPlanModel {
                    budget,
                    usage: WorkUsage {
                        output_rows: scan.actions.len() as u64,
                        output_bytes: action_bytes(scan.actions) as u64,
                        ..probe_usage(candidates)
                    },
                    actions: scan.actions,
                    candidate_changes: scan.changes,
                    next: match scan.pending {
                        Some(candidate) => JoinContinuation::PendingTransition {
                            progress: scan.progress,
                            candidate,
                        },
                        None => if !scan.stopped && complete {
                            JoinContinuation::Finalize(scan.progress)
                        } else {
                            JoinContinuation::Probe(scan.progress)
                        },
                    },
                },
            ),
        },
    }
}

proof fn candidate_bytes_grow(candidates: Seq<CandidateProbe>, length: int)
    requires
        0 <= length <= candidates.len(),
    ensures
        candidate_bytes(candidates.take(length)) <= candidate_bytes(candidates),
    decreases candidates.len(),
{
    if length == candidates.len() {
        assert(candidates.take(length) =~= candidates);
        if candidates.len() > 0 {
            candidate_bytes_grow(candidates.drop_last(), length - 1);
            assert(candidates.drop_last().take(length - 1) =~= candidates.drop_last());
        }
    } else {
        assert(candidates.drop_last().take(length) =~= candidates.take(length));
        candidate_bytes_grow(candidates.drop_last(), length);
    }
}

fn measure_candidates(candidates: &Vec<CandidateProbe>) -> (outcome: Result<u64, String>)
    ensures
        text::agrees(
            outcome,
            if candidate_bytes(candidates@) <= u64::MAX {
                Ok(candidate_bytes(candidates@) as u64)
            } else {
                Err("Join probe input byte count overflow"@)
            },
        ),
{
    let mut total: u64 = 0;
    let mut index: usize = 0;
    while index < candidates.len()
        invariant
            index <= candidates.len(),
            total == candidate_bytes(candidates@.take(index as int)),
        decreases candidates.len() - index,
    {
        proof {
            assert(candidates@.take(index + 1).drop_last() =~= candidates@.take(index as int));
            candidate_bytes_grow(candidates@, index + 1);
        }
        match total.checked_add(candidates[index].row_bytes) {
            None => {
                return fail("Join probe input byte count overflow");
            },
            Some(sum) => {
                total = sum;
            },
        }
        index = index + 1;
    }
    proof {
        assert(candidates@.take(candidates.len() as int) =~= candidates@);
    }
    Ok(total)
}

proof fn action_bytes_push(actions: Seq<OutputAction>, action: OutputAction)
    ensures
        action_bytes(actions.push(action)) == action_bytes(actions) + action.row_bytes,
{
    assert(actions.push(action).drop_last() =~= actions);
}

/// Selects the leading actions that fit and appends them to the output.
fn select_actions(
    open_actions: &Vec<OutputAction>,
    first: usize,
    selected: &mut Vec<OutputAction>,
    output_bytes: u64,
    budget: WorkBudget,
) -> (outcome: Result<(usize, u64), String>)
    requires
        first <= open_actions.len(),
        output_bytes == action_bytes(old(selected)@),
    ensures
        match (
            outcome,
            fitting(
                open_actions@.skip(first as int),
                old(selected)@.len() as int,
                output_bytes as int,
                budget,
            ),
        ) {
            (Ok((count, bytes)), Ok(expected)) => {
                &&& count == expected
                &&& count <= open_actions.len() - first
                &&& final(selected)@ == old(selected)@ + open_actions@.skip(first as int).take(
                    count as int,
                )
                &&& bytes == action_bytes(final(selected)@)
            },
            (Err(error), Err(message)) => error@ == message,
            _ => false,
        },
{
    let ghost all = open_actions@.skip(first as int);
    let ghost start_rows = selected@.len() as int;
    let ghost start_bytes = output_bytes as int;
    let ghost before = selected@;
    let mut bytes: u64 = output_bytes;
    let mut count: usize = 0;
    proof {
        assert(all.skip(0) =~= all);
        assert(before + all.take(0) =~= before);
    }
    while first + count < open_actions.len()
        invariant
            first + count <= open_actions.len(),
            all == open_actions@.skip(first as int),
            all.len() == open_actions.len() - first,
            before == old(selected)@,
            before.len() == start_rows,
            start_bytes == output_bytes,
            selected@ == before + all.take(count as int),
            bytes == action_bytes(selected@),
            match fitting(all, start_rows, start_bytes, budget) {
                Ok(total) => fitting(all.skip(count as int), start_rows + count, bytes as int, budget)
                    == Ok::<nat, Seq<char>>((total - count) as nat) && count <= total,
                Err(message) => fitting(
                    all.skip(count as int),
                    start_rows + count,
                    bytes as int,
                    budget,
                ) == Err::<nat, Seq<char>>(message),
            },
        decreases open_actions.len() - first - count,
    {
        let action = open_actions[first + count];
        let ghost rest = all.skip(count as int);
        assert(rest[0] == action);
        assert(rest.drop_first() =~= all.skip(count + 1));
        if !action_fits(selected.len() as u64, bytes, action, budget)? {
            return Ok((count, bytes));
        }
        proof {
            action_bytes_push(selected@, action);
            assert(all.take(count + 1) =~= all.take(count as int).push(action));
        }
        bytes = bytes + action.row_bytes;
        selected.push(action);
        assert(selected@ =~= before + all.take(count + 1));
        count = count + 1;
    }
    Ok((count, bytes))
}

/// Decides one ordered action prefix over a probed page of candidates.
#[verifier::rlimit(40)]
pub fn plan_actions(
    mode: JoinMode,
    continuation: &JoinContinuation,
    event: InputEventFacts,
    page: &ProbePage,
    budget: WorkBudget,
) -> (outcome: Result<ActionPlan, String>)
    ensures
        text::agrees_view(
            outcome,
            planned(mode, *continuation, event, page.candidates@, page.complete, budget),
        ),
{
    continuation.validate_input_resume(event)?;
    let (start, pending): (InputProgress, Option<CandidateExpectation>) = match continuation {
        JoinContinuation::Preflight { .. } => {
            return fail("Preflight continuation has not validated its input event");
        },
        JoinContinuation::Probe(progress) => (*progress, None),
        JoinContinuation::PendingTransition { progress, candidate } => (
            *progress,
            Some(*candidate),
        ),
        JoinContinuation::Finalize(_) => {
            return fail("Finalize continuation cannot probe more Join candidates");
        },
        JoinContinuation::Frontier(_) => {
            return fail("Frontier continuation cannot probe Join candidates");
        },
    };
    start.validate()?;
    validate_probe_page_order(start, pending, page)?;
    let input_rows: u64 = page.candidates.len() as u64;
    let input_bytes: u64 = measure_candidates(&page.candidates)?;
    let probe = WorkUsage { input_rows, input_bytes, output_rows: 0, output_bytes: 0 };
    probe.validate(budget)?;
    let ghost candidates = page.candidates@;
    let mut progress = start;
    let mut selected: Vec<OutputAction> = Vec::new();
    let mut changes: Vec<CandidateStateChange> = Vec::new();
    let mut output_bytes: u64 = 0;
    let mut stopped = false;
    let mut next_pending: Option<CandidateExpectation> = None;
    let mut index: usize = 0;
    while index < page.candidates.len() && !stopped
        invariant
            index <= page.candidates.len(),
            candidates == page.candidates@,
            output_bytes == action_bytes(selected@),
            scanned(mode, start, pending, candidates.take(index as int), budget) == Ok::<
                ProbeScan,
                Seq<char>,
            >(
                ProbeScan {
                    progress,
                    actions: selected@,
                    changes: changes@,
                    stopped,
                    pending: next_pending,
                },
            ),
            planned(mode, *continuation, event, candidates, page.complete, budget)
                == planned_scan(mode, start, pending, candidates, page.complete, budget),
            start.sound() is Ok,
            page_in_order(start, pending, candidates, page.complete) is Ok,
            candidate_bytes(candidates) == input_bytes,
            input_rows == candidates.len(),
            probe_usage(candidates).fits(budget) is Ok,
        decreases page.candidates.len() - index,
    {
        let candidate = page.candidates[index];
        let resumed: Option<CandidateExpectation> = if index == 0 {
            pending
        } else {
            None
        };
        let ghost scan = ProbeScan {
            progress,
            actions: selected@,
            changes: changes@,
            stopped,
            pending: next_pending,
        };
        proof {
            let longer = candidates.take(index + 1);
            assert(longer.drop_last() =~= candidates.take(index as int));
            assert(longer.last() == candidate);
            assert(scanned(mode, start, pending, longer, budget) == scan.extended(
                mode,
                resumed,
                candidate,
                budget,
            ));
            if scan.extended(mode, resumed, candidate, budget) is Err {
                scan_ends_with_its_prefix(mode, start, pending, candidates, budget, index + 1);
            }
        }
        let found = classify_candidate(mode, progress.side, progress.event_weight, candidate)?;
        let mut first: usize = 0;
        if let Some(expected) = resumed {
            if found.expected != expected {
                return fail("pending Join candidate state changed while resuming");
            }
            if found.actions.len() != 2 || found.actions[0].kind != OutputActionKind::Pair
                || found.actions[1].kind != OutputActionKind::CandidateEligibility {
                return fail("pending Join transition no longer follows its pair action");
            }
            first = 1;
        }
        assert(scan.extended(mode, resumed, candidate, budget) == scan.selected(
            mode,
            found@,
            first as int,
            budget,
        ));
        assert(found.actions.len() <= 2);
        let (count, bytes): (usize, u64) = select_actions(
            &found.actions,
            first,
            &mut selected,
            output_bytes,
            budget,
        )?;
        output_bytes = bytes;
        if count != found.actions.len() - first {
            stopped = true;
            if first + count > 0 {
                next_pending = Some(found.expected);
            }
        } else {
            if found.expected.old_counts != found.expected.new_counts {
                changes.push(CandidateStateChange { expected: found.expected });
            }
            progress.complete_candidate(mode, found.expected)?;
        }
        index = index + 1;
    }
    proof {
        if stopped {
            scan_ends_with_its_prefix(mode, start, pending, candidates, budget, index as int);
        } else {
            assert(candidates.take(index as int) =~= candidates);
        }
    }
    let next = match next_pending {
        Some(candidate) => JoinContinuation::PendingTransition { progress, candidate },
        None => {
            if !stopped && page.complete {
                JoinContinuation::Finalize(progress)
            } else {
                JoinContinuation::Probe(progress)
            }
        },
    };
    let usage = WorkUsage {
        input_rows,
        input_bytes,
        output_rows: selected.len() as u64,
        output_bytes,
    };
    Ok(ActionPlan { budget, usage, actions: selected, candidate_changes: changes, next })
}

/// The event's own arrangement row, probed again when its scan is complete.
#[derive(Clone, Copy, Debug, PartialEq, Eq, Structural)]
pub enum OwnStateProbe {
    Absent { output_bytes: u64 },
    Present { row_id: i64, multiplicity: u64, counts: MatchCounts, output_bytes: u64 },
}

impl OwnStateProbe {
    pub open spec fn sound(self) -> Result<(), Seq<char>> {
        match self {
            OwnStateProbe::Absent { output_bytes } => text::holds(
                output_bytes != 0,
                "Join current-row projection has zero measured bytes"@,
            ),
            OwnStateProbe::Present { row_id, multiplicity, counts, output_bytes } => text::both(
                stable_id(row_id, "Join own arrangement row"@),
                text::both(
                    positive_count(multiplicity, "Join own multiplicity"@),
                    text::both(
                        counts.sound(),
                        text::holds(
                            output_bytes != 0,
                            "Join current-row projection has zero measured bytes"@,
                        ),
                    ),
                ),
            ),
        }
    }

    pub fn absent(output_bytes: u64) -> (outcome: Result<Self, String>)
        ensures
            ({
                let state = OwnStateProbe::Absent { output_bytes };
                text::agrees(outcome, text::guarded(state.sound(), state))
            }),
    {
        let state = OwnStateProbe::Absent { output_bytes };
        state.validate()?;
        Ok(state)
    }

    pub fn present(
        row_id: i64,
        multiplicity: u64,
        counts: MatchCounts,
        output_bytes: u64,
    ) -> (outcome: Result<Self, String>)
        ensures
            ({
                let state = OwnStateProbe::Present { row_id, multiplicity, counts, output_bytes };
                text::agrees(outcome, text::guarded(state.sound(), state))
            }),
    {
        let state = OwnStateProbe::Present { row_id, multiplicity, counts, output_bytes };
        state.validate()?;
        Ok(state)
    }

    pub open spec fn bytes(self) -> u64 {
        match self {
            OwnStateProbe::Absent { output_bytes } => output_bytes,
            OwnStateProbe::Present { output_bytes, .. } => output_bytes,
        }
    }

    pub fn output_bytes(self) -> (bytes: u64)
        ensures
            bytes == self.bytes(),
    {
        match self {
            OwnStateProbe::Absent { output_bytes } => output_bytes,
            OwnStateProbe::Present { output_bytes, .. } => output_bytes,
        }
    }

    /// The probed row without its measured size.
    pub open spec fn expected(self) -> OwnExpectation {
        match self {
            OwnStateProbe::Absent { .. } => OwnExpectation::nowhere(),
            OwnStateProbe::Present { row_id, multiplicity, counts, .. } => OwnExpectation {
                row_id: Some(row_id),
                multiplicity,
                counts,
            },
        }
    }

    pub fn expectation(self) -> (own: OwnExpectation)
        ensures
            own == self.expected(),
    {
        match self {
            OwnStateProbe::Absent { .. } => OwnExpectation::absent(),
            OwnStateProbe::Present { row_id, multiplicity, counts, .. } => OwnExpectation {
                row_id: Some(row_id),
                multiplicity,
                counts,
            },
        }
    }

    pub fn validate(self) -> (outcome: Result<(), String>)
        ensures
            text::agrees(outcome, self.sound()),
    {
        match self {
            OwnStateProbe::Absent { output_bytes } => {
                if output_bytes == 0 {
                    return fail("Join current-row projection has zero measured bytes");
                }
            },
            OwnStateProbe::Present { row_id, multiplicity, counts, output_bytes } => {
                validate_stable_id(row_id, "Join own arrangement row")?;
                validate_positive_count(multiplicity, "Join own multiplicity")?;
                counts.validate()?;
                if output_bytes == 0 {
                    return fail("Join current-row projection has zero measured bytes");
                }
            },
        }
        Ok(())
    }
}

#[derive(Clone, Copy, Debug, PartialEq, Eq, Structural)]
pub enum OwnStateChangeKind {
    Insert,
    Update,
    Delete,
}

/// A compare-and-set mutation of the event's own arrangement row.
#[derive(Clone, Copy, Debug, PartialEq, Eq, Structural)]
pub struct OwnStateChange {
    pub kind: OwnStateChangeKind,
    pub expected_row_id: Option<i64>,
    pub expected_multiplicity: u64,
    pub new_multiplicity: u64,
    pub counts: MatchCounts,
}

/// The last transition of one data event: its own row and its own output.
#[derive(Clone, Copy, Debug, PartialEq, Eq, Structural)]
pub struct FinalizePlan {
    pub budget: WorkBudget,
    pub usage: WorkUsage,
    pub output: Option<OutputAction>,
    pub own_change: OwnStateChange,
}

impl FinalizePlan {
    pub fn usage(&self) -> (usage: WorkUsage)
        ensures
            usage == self.usage,
    {
        self.usage
    }

    pub fn output(&self) -> (output: Option<OutputAction>)
        ensures
            output == self.output,
    {
        self.output
    }

    pub fn own_change(&self) -> (change: OwnStateChange)
        ensures
            change == self.own_change,
    {
        self.own_change
    }

    /// Whether committed facts are exactly the planned ones.
    pub open spec fn commits(self, facts: PrimitiveFacts, has_continuation: bool) -> Result<
        (),
        Seq<char>,
    > {
        text::both(
            facts.follows_protocol(
                self.budget,
                KernelPhase::Process,
                if has_continuation {
                    KernelCompletion::Continue
                } else {
                    KernelCompletion::Finished
                },
            ),
            text::both(
                text::holds(
                    facts.usage == self.usage,
                    "Join finalize commit usage differs from its plan"@,
                ),
                text::both(
                    text::holds(
                        facts.state_rows == 1,
                        "Join finalize commit did not change exactly one own row"@,
                    ),
                    text::holds(
                        self.output is Some || facts.output is Nothing,
                        "Join finalize commit created an unexpected output chunk"@,
                    ),
                ),
            ),
        )
    }

    pub fn validate_commit(
        &self,
        facts: PrimitiveFacts,
        has_continuation: bool,
    ) -> (outcome: Result<(), String>)
        ensures
            text::agrees(outcome, self.commits(facts, has_continuation)),
    {
        let completion = if has_continuation {
            KernelCompletion::Continue
        } else {
            KernelCompletion::Finished
        };
        facts.validate_protocol(self.budget, KernelPhase::Process, completion)?;
        if facts.usage != self.usage {
            return fail("Join finalize commit usage differs from its plan");
        }
        if facts.state_rows != 1 {
            return fail("Join finalize commit did not change exactly one own row");
        }
        if self.output.is_none() && facts.output != OutputFacts::Nothing {
            return fail("Join finalize commit created an unexpected output chunk");
        }
        Ok(())
    }
}

/// The own-row mutation of a completed event: its weight is added to the
/// multiplicity, and its match counts are those that the scan accumulated.
pub open spec fn own_changed(progress: InputProgress, own: OwnStateProbe) -> OwnStateChange {
    let multiplicity = own.expected().multiplicity;
    let new_multiplicity = (multiplicity + progress.event_weight) as u64;
    OwnStateChange {
        kind: if own is Absent {
            OwnStateChangeKind::Insert
        } else if new_multiplicity == 0 {
            OwnStateChangeKind::Delete
        } else {
            OwnStateChangeKind::Update
        },
        expected_row_id: own.expected().row_id,
        expected_multiplicity: multiplicity,
        new_multiplicity,
        counts: progress.opposite_counts,
    }
}

/// The output row of a completed event, when its own side is an output of the
/// mode and its accumulated counts make it eligible.
pub open spec fn own_output(
    mode: JoinMode,
    progress: InputProgress,
    own: OwnStateProbe,
) -> Option<OutputAction> {
    if side_is_output(mode, progress.side) && eligible(mode, progress.opposite_counts) {
        Some(
            OutputAction {
                kind: OutputActionKind::CurrentEligibility,
                current_side: progress.side,
                candidate_row_id: None,
                weight: progress.event_weight,
                row_bytes: own.bytes(),
            },
        )
    } else {
        None
    }
}

/// The plan that finishes one data event.
pub open spec fn finalized(
    mode: JoinMode,
    continuation: JoinContinuation,
    event: InputEventFacts,
    own: OwnStateProbe,
    budget: WorkBudget,
) -> Result<FinalizePlan, Seq<char>> {
    match text::both(continuation.input_resumes(event), own.sound()) {
        Err(message) => Err(message),
        Ok(()) => match continuation {
            JoinContinuation::Finalize(progress) => {
                let output = own_output(mode, progress, own);
                let usage = WorkUsage {
                    input_rows: 1,
                    input_bytes: progress.event_bytes,
                    output_rows: if output is Some {
                        1
                    } else {
                        0
                    },
                    output_bytes: if output is Some {
                        own.bytes()
                    } else {
                        0
                    },
                };
                text::guarded(
                    text::both(
                        progress.sound(),
                        text::both(
                            text::holds(
                                own.expected() == progress.expected_own,
                                "Join own arrangement changed while processing its fanout"@,
                            ),
                            text::both(
                                text::holds(
                                    own is Absent || own.expected().counts
                                        == progress.opposite_counts,
                                    "Join own arrangement counts differ from the completed scan"@,
                                ),
                                usage.fits(budget),
                            ),
                        ),
                    ),
                    FinalizePlan { budget, usage, output, own_change: own_changed(progress, own) },
                )
            },
            _ => Err("Join input cannot finalize before its candidate scan completes"@),
        },
    }
}

pub fn plan_finalize(
    mode: JoinMode,
    continuation: &JoinContinuation,
    event: InputEventFacts,
    own: OwnStateProbe,
    budget: WorkBudget,
) -> (outcome: Result<FinalizePlan, String>)
    ensures
        text::agrees(outcome, finalized(mode, *continuation, event, own, budget)),
{
    continuation.validate_input_resume(event)?;
    own.validate()?;
    let progress = match continuation {
        JoinContinuation::Finalize(progress) => *progress,
        JoinContinuation::Frontier(_) => {
            return fail("Join frontier cannot use input finalization");
        },
        _ => {
            return fail("Join input cannot finalize before its candidate scan completes");
        },
    };
    progress.validate()?;
    if own.expectation() != progress.expected_own {
        return fail("Join own arrangement changed while processing its fanout");
    }
    let (expected_row_id, old_multiplicity): (Option<i64>, u64) = match own {
        OwnStateProbe::Absent { .. } => (None, 0),
        OwnStateProbe::Present { row_id, multiplicity, counts, .. } => {
            if counts != progress.opposite_counts {
                return fail("Join own arrangement counts differ from the completed scan");
            }
            (Some(row_id), multiplicity)
        },
    };
    let new_multiplicity: u64 = checked_signed_count(
        old_multiplicity,
        progress.event_weight,
        "Join own multiplicity",
    )?;
    let kind = match expected_row_id {
        None => OwnStateChangeKind::Insert,
        Some(_) => {
            if new_multiplicity == 0 {
                OwnStateChangeKind::Delete
            } else {
                OwnStateChangeKind::Update
            }
        },
    };
    let own_change = OwnStateChange {
        kind,
        expected_row_id,
        expected_multiplicity: old_multiplicity,
        new_multiplicity,
        counts: progress.opposite_counts,
    };
    let mut output_rows: u64 = 0;
    let mut output_bytes: u64 = 0;
    let mut output: Option<OutputAction> = None;
    if current_side_is_eligible(mode, progress.side, progress.opposite_counts) {
        output_rows = 1;
        output_bytes = own.output_bytes();
        output =
        Some(
            OutputAction {
                kind: OutputActionKind::CurrentEligibility,
                current_side: progress.side,
                candidate_row_id: None,
                weight: progress.event_weight,
                row_bytes: output_bytes,
            },
        );
    }
    let usage = WorkUsage {
        input_rows: 1,
        input_bytes: progress.event_bytes,
        output_rows,
        output_bytes,
    };
    usage.validate(budget)?;
    Ok(FinalizePlan { budget, usage, output, own_change })
}

/// The frontier that each input has been consumed through.
#[derive(Clone, Copy, Debug, PartialEq, Eq, Structural)]
pub struct InputFrontiers {
    pub left: u64,
    pub right: u64,
}

impl InputFrontiers {
    pub open spec fn of(self, side: InputSide) -> u64 {
        match side {
            InputSide::Left => self.left,
            InputSide::Right => self.right,
        }
    }

    pub fn get(self, side: InputSide) -> (frontier: u64)
        ensures
            frontier == self.of(side),
    {
        match side {
            InputSide::Left => self.left,
            InputSide::Right => self.right,
        }
    }

    pub open spec fn moved(self, side: InputSide, frontier: u64) -> InputFrontiers {
        match side {
            InputSide::Left => InputFrontiers { left: frontier, right: self.right },
            InputSide::Right => InputFrontiers { left: self.left, right: frontier },
        }
    }

    pub fn with(self, side: InputSide, frontier: u64) -> (frontiers: Self)
        ensures
            frontiers == self.moved(side, frontier),
    {
        match side {
            InputSide::Left => Self { left: frontier, right: self.right },
            InputSide::Right => Self { left: self.left, right: frontier },
        }
    }

    pub open spec fn least(self) -> u64 {
        if self.left < self.right {
            self.left
        } else {
            self.right
        }
    }

    pub fn minimum(self) -> (frontier: u64)
        ensures
            frontier == self.least(),
    {
        if self.left < self.right {
            self.left
        } else {
            self.right
        }
    }
}

#[derive(Clone, Copy, Debug, PartialEq, Eq, Structural)]
pub struct FrontierState {
    pub consumed: InputFrontiers,
    pub published: u64,
    pub latest_output_data: Option<u64>,
}

impl FrontierState {
    pub open spec fn sound(self) -> Result<(), Seq<char>> {
        text::holds(
            self.published <= self.consumed.least(),
            "Join output frontier exceeds a consumed input frontier"@,
        )
    }

    pub fn validate(self) -> (outcome: Result<(), String>)
        ensures
            text::agrees(outcome, self.sound()),
    {
        if self.published > self.consumed.minimum() {
            return fail("Join output frontier exceeds a consumed input frontier");
        }
        Ok(())
    }
}

/// One consumed input frontier and the output frontier it completes, if any.
#[derive(Clone, Copy, Debug, PartialEq, Eq, Structural)]
pub struct FrontierPlan {
    pub budget: WorkBudget,
    pub expected_input: FrontierInputFacts,
    pub side: InputSide,
    pub expected_old: InputFrontiers,
    pub new: InputFrontiers,
    pub expected_published: u64,
    pub publish: Option<u64>,
}

impl FrontierPlan {
    /// Whether committed facts are exactly the planned ones.
    pub open spec fn commits(self, facts: PrimitiveFacts) -> Result<(), Seq<char>> {
        text::both(
            facts.follows_protocol(self.budget, KernelPhase::Frontier, KernelCompletion::Finished),
            text::both(
                text::holds(
                    facts.usage == crate::planner::no_usage(),
                    "Join frontier commit reported data-row work"@,
                ),
                text::both(
                    text::holds(
                        facts.state_rows == 0,
                        "Join frontier commit changed arrangement state"@,
                    ),
                    text::holds(
                        self.publish is Some <==> facts.output is Frontier,
                        "Join frontier commit output differs from its plan"@,
                    ),
                ),
            ),
        )
    }

    pub fn validate_commit(&self, facts: PrimitiveFacts) -> (outcome: Result<(), String>)
        ensures
            text::agrees(outcome, self.commits(facts)),
    {
        facts.validate_protocol(self.budget, KernelPhase::Frontier, KernelCompletion::Finished)?;
        if facts.usage != WorkUsage::default() {
            return fail("Join frontier commit reported data-row work");
        }
        if facts.state_rows != 0 {
            return fail("Join frontier commit changed arrangement state");
        }
        match (self.publish, facts.output) {
            (Some(_), OutputFacts::Frontier { .. }) => Ok(()),
            (None, OutputFacts::Nothing) => Ok(()),
            _ => fail("Join frontier commit output differs from its plan"),
        }
    }
}

/// The plan for one input frontier: the output frontier is what both inputs
/// have passed, once it advances and no output data lies beyond it.
pub open spec fn frontier_planned(
    continuation: JoinContinuation,
    facts: FrontierInputFacts,
    state: FrontierState,
    budget: WorkBudget,
) -> Result<FrontierPlan, Seq<char>> {
    let new = state.consumed.moved(facts.side, facts.frontier);
    let complete_through = new.least();
    text::guarded(
        text::both(
            continuation.frontier_resumes(facts),
            text::both(
                state.sound(),
                text::holds(
                    facts.frontier > state.consumed.of(facts.side),
                    "Join input frontier did not advance"@,
                ),
            ),
        ),
        FrontierPlan {
            budget,
            expected_input: facts,
            side: facts.side,
            expected_old: state.consumed,
            new,
            expected_published: state.published,
            publish: if complete_through > state.published && (
            state.latest_output_data is None || state.latest_output_data->0 <= complete_through) {
                Some(complete_through)
            } else {
                None
            },
        },
    )
}

pub fn plan_frontier(
    continuation: &JoinContinuation,
    facts: FrontierInputFacts,
    state: FrontierState,
    budget: WorkBudget,
) -> (outcome: Result<FrontierPlan, String>)
    ensures
        text::agrees(outcome, frontier_planned(*continuation, facts, state, budget)),
{
    continuation.validate_frontier_resume(facts)?;
    state.validate()?;
    let old_side: u64 = state.consumed.get(facts.side);
    if facts.frontier <= old_side {
        return fail("Join input frontier did not advance");
    }
    let new = state.consumed.with(facts.side, facts.frontier);
    let complete_through: u64 = new.minimum();
    let data_is_covered = match state.latest_output_data {
        None => true,
        Some(latest_data) => latest_data <= complete_through,
    };
    let publish: Option<u64> = if complete_through > state.published && data_is_covered {
        Some(complete_through)
    } else {
        None
    };
    Ok(
        FrontierPlan {
            budget,
            expected_input: facts,
            side: facts.side,
            expected_old: state.consumed,
            new,
            expected_published: state.published,
            publish,
        },
    )
}

} // verus!
