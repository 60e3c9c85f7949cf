//! Shared decoding for scalar facts returned by PostgreSQL primitives.

use vstd::prelude::*;

use crate::text::{self, fail, unsigned_text};

verus! {

/// A value that a primitive must return.
pub open spec fn required_value<T>(value: Option<T>, name: Seq<char>) -> Result<T, Seq<char>> {
    match value {
        Some(value) => Ok(value),
        None => Err("database returned NULL "@ + name),
    }
}

pub fn required<T>(value: Option<T>, name: &str) -> (outcome: Result<T, String>)
    ensures
        text::agrees(outcome, required_value(value, name@)),
{
    match value {
        Some(value) => Ok(value),
        None => Err("database returned NULL ".to_owned().concat(name)),
    }
}

pub open spec fn count_required(rows: usize, expected: usize, name: Seq<char>) -> Result<
    (),
    Seq<char>,
> {
    text::holds(
        rows == expected,
        name + " returned "@ + text::decimal(rows as int) + " rows, expected "@ + text::decimal(
            expected as int,
        ),
    )
}

pub fn require_count(rows: usize, expected: usize, name: &str) -> (outcome: Result<(), String>)
    ensures
        text::agrees(outcome, count_required(rows, expected, name@)),
{
    if rows != expected {
        let mut message = name.to_owned();
        message.append(" returned ");
        message.append(unsigned_text(rows as u64).as_str());
        message.append(" rows, expected ");
        message.append(unsigned_text(expected as u64).as_str());
        return Err(message);
    }
    Ok(())
}

/// A summary statement returns exactly one row.
pub fn require_summary(rows: usize, message: &str) -> (outcome: Result<(), String>)
    ensures
        text::agrees(outcome, text::holds(rows == 1, message@)),
{
    if rows != 1 {
        return fail(message);
    }
    Ok(())
}

/// A count that must not be negative.
pub open spec fn natural(value: i64, name: Seq<char>) -> Result<u64, Seq<char>> {
    if value >= 0 {
        Ok(value as u64)
    } else {
        Err(name + " is negative"@)
    }
}

pub fn nonnegative(value: i64, name: &str) -> (outcome: Result<u64, String>)
    ensures
        text::agrees(outcome, natural(value, name@)),
{
    if value < 0 {
        return Err(name.to_owned().concat(" is negative"));
    }
    Ok(value as u64)
}

pub open spec fn database_natural(value: i64, name: Seq<char>) -> Result<u64, Seq<char>> {
    if value >= 0 {
        Ok(value as u64)
    } else {
        Err("database returned negative "@ + name)
    }
}

pub fn database_nonnegative(value: i64, name: &str) -> (outcome: Result<u64, String>)
    ensures
        text::agrees(outcome, database_natural(value, name@)),
{
    if value < 0 {
        return Err("database returned negative ".to_owned().concat(name));
    }
    Ok(value as u64)
}

/// A required count that must not be negative.
pub open spec fn required_natural(value: Option<i64>, name: Seq<char>) -> Result<u64, Seq<char>> {
    match required_value(value, name) {
        Ok(value) => natural(value, name),
        Err(message) => Err(message),
    }
}

pub fn required_nonnegative(value: Option<i64>, name: &str) -> (outcome: Result<u64, String>)
    ensures
        text::agrees(outcome, required_natural(value, name@)),
{
    nonnegative(required(value, name)?, name)
}

/// A count that may be absent but not negative.
pub open spec fn optional_natural(value: Option<i64>, name: Seq<char>) -> Result<
    Option<u64>,
    Seq<char>,
> {
    match value {
        None => Ok(None),
        Some(value) => match natural(value, name) {
            Ok(value) => Ok(Some(value)),
            Err(message) => Err(message),
        },
    }
}

pub fn optional_nonnegative(value: Option<i64>, name: &str) -> (outcome: Result<
    Option<u64>,
    String,
>)
    ensures
        text::agrees(outcome, optional_natural(value, name@)),
{
    match value {
        None => Ok(None),
        Some(value) => Ok(Some(nonnegative(value, name)?)),
    }
}

/// A resource count as a `bigint`.
pub open spec fn bigint_of(value: int, message: Seq<char>) -> Result<i64, Seq<char>> {
    if 0 <= value <= i64::MAX {
        Ok(value as i64)
    } else {
        Err(message)
    }
}

pub fn to_bigint(value: u64, message: &str) -> (outcome: Result<i64, String>)
    ensures
        text::agrees(outcome, bigint_of(value as int, message@)),
{
    if value > i64::MAX as u64 {
        return fail(message);
    }
    Ok(value as i64)
}

/// What the database returned is taken over as it is: a value that is there,
/// a count that is the expected one, a number that is not negative, and a
/// number that fits.
pub proof fn values_are_taken_over(
    value: Option<i64>,
    rows: usize,
    expected: usize,
    count: int,
    name: Seq<char>,
)
    ensures
        required_value(value, name) matches Ok(taken) ==> value == Some(taken),
        required_value(value, name) is Ok <==> value is Some,
        count_required(rows, expected, name) is Ok <==> rows == expected,
        value matches Some(number) ==> (natural(number, name) is Ok <==> number >= 0),
        value matches Some(number) ==> (natural(number, name) matches Ok(taken) ==> taken == number),
        value matches Some(number) ==> (database_natural(number, name) is Ok <==> number >= 0),
        value matches Some(number) ==> (database_natural(number, name) matches Ok(taken) ==> taken
            == number),
        required_natural(value, name) is Ok <==> (value matches Some(number) && number >= 0),
        required_natural(value, name) matches Ok(taken) ==> (value matches Some(number) && number
            == taken),
        optional_natural(value, name) is Ok <==> (value matches Some(number) ==> number >= 0),
        optional_natural(value, name) matches Ok(taken) ==> (taken is Some <==> value is Some) && (
        taken matches Some(taken) ==> (value matches Some(number) && number == taken)),
        bigint_of(count, name) is Ok <==> 0 <= count <= i64::MAX,
        bigint_of(count, name) matches Ok(taken) ==> taken == count,
{
}

} // verus!
