//! Text forms that PostgreSQL shares with the control plane: quoted
//! identifiers and log sequence numbers.

use vstd::prelude::*;

use crate::text::{self, characters};

verus! {

/// The text with every double quote doubled.
pub open spec fn quotes_doubled(name: Seq<char>) -> Seq<char>
    decreases name.len(),
{
    if name.len() == 0 {
        Seq::empty()
    } else if name.last() == '"' {
        quotes_doubled(name.drop_last()) + seq!['"', '"']
    } else {
        quotes_doubled(name.drop_last()).push(name.last())
    }
}

/// A name as an SQL identifier.
pub open spec fn quoted(name: Seq<char>) -> Seq<char> {
    seq!['"'] + quotes_doubled(name) + seq!['"']
}

/// Quotes a name as an SQL identifier.
pub fn quote_identifier(name: &str) -> (identifier: String)
    ensures
        identifier@ == quoted(name@),
{
    proof {
        reveal_strlit("\"");
        reveal_strlit("\"\"");
    }
    let list = characters(name);
    let mut identifier = "\"".to_owned();
    assert(identifier@ =~= seq!['"'] + quotes_doubled(name@.take(0)));
    let mut index: usize = 0;
    while index < list.len()
        invariant
            index <= list.len(),
            list@ == name@,
            identifier@ == seq!['"'] + quotes_doubled(name@.take(index as int)),
            "\"\""@ =~= seq!['"', '"'],
        decreases list.len() - index,
    {
        let ghost before = quotes_doubled(name@.take(index as int));
        assert(name@.take(index + 1).drop_last() =~= name@.take(index as int));
        if list[index] == '"' {
            identifier.append("\"\"");
            assert(identifier@ =~= seq!['"'] + (before + seq!['"', '"']));
        } else {
            identifier.append(name.substring_char(index, index + 1));
            assert(identifier@ =~= seq!['"'] + before.push(list@[index as int]));
        }
        index = index + 1;
    }
    assert(name@.take(index as int) =~= name@);
    identifier.append("\"");
    assert(identifier@ =~= quoted(name@));
    identifier
}

/// A hexadecimal digit as an upper-case character.
pub open spec fn hex_char(digit: nat) -> char {
    if digit < 10 {
        (digit + 48) as char
    } else {
        (digit + 55) as char
    }
}

/// The upper-case hexadecimal numeral of a number, without leading zeros.
pub open spec fn hexadecimal(value: nat) -> Seq<char>
    decreases value,
{
    if value < 16 {
        seq![hex_char(value)]
    } else {
        hexadecimal(value / 16).push(hex_char(value % 16))
    }
}

fn hex_digit_text(digit: u64) -> (text: &'static str)
    requires
        digit < 16,
    ensures
        text@ == seq![hex_char(digit as nat)],
{
    proof {
        reveal_strlit("0");
        reveal_strlit("1");
        reveal_strlit("2");
        reveal_strlit("3");
        reveal_strlit("4");
        reveal_strlit("5");
        reveal_strlit("6");
        reveal_strlit("7");
        reveal_strlit("8");
        reveal_strlit("9");
        reveal_strlit("A");
        reveal_strlit("B");
        reveal_strlit("C");
        reveal_strlit("D");
        reveal_strlit("E");
        reveal_strlit("F");
    }
    match digit {
        0 => "0",
        1 => "1",
        2 => "2",
        3 => "3",
        4 => "4",
        5 => "5",
        6 => "6",
        7 => "7",
        8 => "8",
        9 => "9",
        10 => "A",
        11 => "B",
        12 => "C",
        13 => "D",
        14 => "E",
        _ => "F",
    }
}

fn hex_text(value: u64) -> (text: String)
    ensures
        text@ == hexadecimal(value as nat),
    decreases value,
{
    if value < 16 {
        hex_digit_text(value).to_owned()
    } else {
        let mut text = hex_text(value / 16);
        let ghost before = text@;
        text.append(hex_digit_text(value % 16));
        assert(text@ =~= before.push(hex_char((value % 16) as nat)));
        text
    }
}

/// The text of a log sequence number: its high and low halves in hexadecimal.
pub open spec fn lsn_text(lsn: u64) -> Seq<char> {
    hexadecimal((lsn / 0x1_0000_0000) as nat) + "/"@ + hexadecimal(
        (lsn % 0x1_0000_0000) as nat,
    )
}

/// Writes a log sequence number in PostgreSQL's text form.
pub fn format_lsn(lsn: u64) -> (text: String)
    ensures
        text@ == lsn_text(lsn),
{
    let mut text = hex_text(lsn / 0x1_0000_0000);
    text.append("/");
    text.append(hex_text(lsn % 0x1_0000_0000).as_str());
    text
}

/// The value of a hexadecimal digit of either case.
pub open spec fn hex_value(digit: char) -> Option<nat> {
    if '0' <= digit <= '9' {
        Some((digit as nat - 48) as nat)
    } else if 'A' <= digit <= 'F' {
        Some((digit as nat - 55) as nat)
    } else if 'a' <= digit <= 'f' {
        Some((digit as nat - 87) as nat)
    } else {
        None
    }
}

/// The number that a non-empty run of hexadecimal digits stands for.
pub open spec fn hex_number(digits: Seq<char>) -> Option<nat>
    decreases digits.len(),
{
    if digits.len() == 0 {
        None
    } else if digits.len() == 1 {
        hex_value(digits[0])
    } else {
        match (hex_number(digits.drop_last()), hex_value(digits.last())) {
            (Some(high), Some(low)) => Some(high * 16 + low),
            _ => None,
        }
    }
}

/// One half of a log sequence number: one to eight hexadecimal digits.
pub open spec fn lsn_half(digits: Seq<char>) -> Option<nat> {
    if digits.len() <= 8 {
        hex_number(digits)
    } else {
        None
    }
}

/// Where the first `/` of a text stands, or the text's length without one.
pub open spec fn slash_at(value: Seq<char>) -> nat
    decreases value.len(),
{
    if value.len() == 0 || value[0] == '/' {
        0
    } else {
        1 + slash_at(value.drop_first())
    }
}

/// The log sequence number that a text stands for.
pub open spec fn lsn_value(value: Seq<char>) -> Option<nat> {
    let slash = slash_at(value) as int;
    if slash >= value.len() {
        None
    } else {
        match (
            lsn_half(value.subrange(0, slash)),
            lsn_half(value.subrange(slash + 1, value.len() as int)),
        ) {
            (Some(high), Some(low)) => Some(high * 0x1_0000_0000 + low),
            _ => None,
        }
    }
}

fn parse_hex_digit(digit: char) -> (value: Option<u64>)
    ensures
        match value {
            Some(found) => hex_value(digit) == Some(found as nat) && found < 16,
            None => hex_value(digit) is None,
        },
{
    if '0' <= digit && digit <= '9' {
        Some(digit as u64 - 48)
    } else if 'A' <= digit && digit <= 'F' {
        Some(digit as u64 - 55)
    } else if 'a' <= digit && digit <= 'f' {
        Some(digit as u64 - 87)
    } else {
        None
    }
}

/// `16` to the power of `digits`, for up to eight digits.
spec fn hex_bound(digits: nat) -> nat
    decreases digits,
{
    if digits == 0 {
        1
    } else {
        16 * hex_bound((digits - 1) as nat)
    }
}

proof fn hex_bound_of_eight()
    ensures
        hex_bound(8) == 0x1_0000_0000,
        forall|digits: nat| digits <= 8 ==> #[trigger] hex_bound(digits) <= 0x1_0000_0000,
{
    reveal_with_fuel(hex_bound, 9);
}

proof fn hex_number_of_prefix(digits: Seq<char>, length: int)
    requires
        0 < length <= digits.len(),
        hex_number(digits.take(length)) is None,
    ensures
        hex_number(digits) is None,
    decreases digits.len(),
{
    if length == digits.len() {
        assert(digits.take(length) =~= digits);
    } else {
        assert(digits.drop_last().take(length) =~= digits.take(length));
        hex_number_of_prefix(digits.drop_last(), length);
    }
}

fn parse_half(list: &Vec<char>, first: usize, end: usize) -> (value: Option<u64>)
    requires
        first <= end <= list.len(),
    ensures
        match value {
            Some(found) => lsn_half(list@.subrange(first as int, end as int)) == Some(
                found as nat,
            ) && found < 0x1_0000_0000,
            None => lsn_half(list@.subrange(first as int, end as int)) is None,
        },
{
    let ghost digits = list@.subrange(first as int, end as int);
    if end - first == 0 || end - first > 8 {
        return None;
    }
    let mut value: u64 = 0;
    let mut index: usize = first;
    proof {
        hex_bound_of_eight();
    }
    while index < end
        invariant
            first <= index <= end <= list.len(),
            0 < end - first <= 8,
            digits == list@.subrange(first as int, end as int),
            index > first ==> hex_number(digits.take(index - first)) == Some(value as nat),
            index == first ==> value == 0,
            value < hex_bound((index - first) as nat) || index == first,
            forall|count: nat| count <= 8 ==> #[trigger] hex_bound(count) <= 0x1_0000_0000,
        decreases end - index,
    {
        let ghost count = index - first;
        assert(digits.take(count + 1).drop_last() =~= digits.take(count));
        assert(digits.take(count + 1).last() == list@[index as int]);
        assert(hex_bound((count + 1) as nat) == 16 * hex_bound(count as nat));
        assert(hex_bound(count as nat) <= 0x1_0000_0000);
        assert(hex_bound((count + 1) as nat) <= 0x1_0000_0000);
        match parse_hex_digit(list[index]) {
            None => {
                proof {
                    hex_number_of_prefix(digits, count + 1);
                }
                return None;
            },
            Some(digit) => {
                value = value * 16 + digit;
            },
        }
        index = index + 1;
    }
    assert(digits.take(end - first) =~= digits);
    proof {
        assert(hex_bound((end - first) as nat) <= 0x1_0000_0000);
    }
    Some(value)
}

proof fn slash_position(value: Seq<char>, position: int)
    requires
        0 <= position <= value.len(),
        position < value.len() ==> value[position] == '/',
        forall|k: int| 0 <= k < position ==> value[k] != '/',
    ensures
        slash_at(value) == position,
    decreases value.len(),
{
    if position > 0 {
        let rest = value.drop_first();
        assert forall|k: int| 0 <= k < position - 1 implies rest[k] != '/' by {
            assert(value[k + 1] != '/');
        }
        slash_position(rest, position - 1);
    }
}

/// Reads a log sequence number from PostgreSQL's text form.
pub fn parse_lsn(value: &str) -> (outcome: Result<u64, String>)
    ensures
        text::agrees(
            outcome,
            match lsn_value(value@) {
                Some(lsn) => Ok(lsn as u64),
                None => Err("malformed LSN "@ + quoted(value@)),
            },
        ),
        lsn_value(value@) matches Some(lsn) ==> lsn <= u64::MAX,
{
    let list = characters(value);
    let mut slash: usize = 0;
    while slash < list.len() && list[slash] != '/'
        invariant
            slash <= list.len(),
            forall|k: int| 0 <= k < slash ==> list@[k] != '/',
        decreases list.len() - slash,
    {
        slash = slash + 1;
    }
    proof {
        slash_position(value@, slash as int);
    }
    if slash < list.len() {
        let high = parse_half(&list, 0, slash);
        let low = parse_half(&list, slash + 1, list.len());
        if let Some(high) = high {
            if let Some(low) = low {
                return Ok(high * 0x1_0000_0000 + low);
            }
        }
    }
    let mut message = "malformed LSN ".to_owned();
    message.append(quote_identifier(value).as_str());
    Err(message)
}

proof fn hexadecimal_is_read_back(value: nat)
    ensures
        hexadecimal(value).len() > 0,
        hex_number(hexadecimal(value)) == Some(value),
        forall|k: int| 0 <= k < hexadecimal(value).len() ==> hexadecimal(value)[k] != '/',
    decreases value,
{
    if value >= 16 {
        hexadecimal_is_read_back(value / 16);
        let digits = hexadecimal(value);
        assert(digits.drop_last() =~= hexadecimal(value / 16));
        assert(digits.last() == hex_char(value % 16));
        assert forall|k: int| 0 <= k < digits.len() implies digits[k] != '/' by {
            if k < digits.len() - 1 {
                assert(digits[k] == hexadecimal(value / 16)[k]);
            }
        }
    }
}

proof fn hexadecimal_length(value: nat, digits: nat)
    requires
        digits > 0,
        value < hex_bound(digits),
    ensures
        hexadecimal(value).len() <= digits,
    decreases digits,
{
    if value >= 16 {
        assert(digits > 1) by {
            assert(hex_bound(1) == 16) by {
                reveal_with_fuel(hex_bound, 2);
            }
        }
        hexadecimal_length(value / 16, (digits - 1) as nat);
    }
}

/// A log sequence number survives its text form.
pub proof fn lsn_text_is_read_back(lsn: u64)
    ensures
        lsn_value(lsn_text(lsn)) == Some(lsn as nat),
{
    reveal_strlit("/");
    let high = (lsn / 0x1_0000_0000) as nat;
    let low = (lsn % 0x1_0000_0000) as nat;
    hexadecimal_is_read_back(high);
    hexadecimal_is_read_back(low);
    hex_bound_of_eight();
    hexadecimal_length(high, 8);
    hexadecimal_length(low, 8);
    let text = lsn_text(lsn);
    let slash = hexadecimal(high).len() as int;
    slash_position(text, slash);
    assert(text.subrange(0, slash) =~= hexadecimal(high));
    assert(text.subrange(slash + 1, text.len() as int) =~= hexadecimal(low));
}

proof fn hex_number_is_bare(digits: Seq<char>)
    requires
        hex_number(digits) is Some,
    ensures
        forall|index: int|
            0 <= index < digits.len() ==> hex_value(#[trigger] digits[index]) is Some,
    decreases digits.len(),
{
    if digits.len() > 1 {
        hex_number_is_bare(digits.drop_last());
        assert forall|index: int| 0 <= index < digits.len() implies hex_value(
            #[trigger] digits[index],
        ) is Some by {
            if index < digits.len() - 1 {
                assert(digits.drop_last()[index] == digits[index]);
            }
        }
    }
}

/// The text of a log sequence number holds no quote.
pub proof fn lsn_is_bare(value: Seq<char>)
    requires
        lsn_value(value) is Some,
    ensures
        forall|index: int| 0 <= index < value.len() ==> #[trigger] value[index] != '"',
{
    let slash = slash_at(value) as int;
    slash_bounds(value);
    let high = value.subrange(0, slash);
    let low = value.subrange(slash + 1, value.len() as int);
    hex_number_is_bare(high);
    hex_number_is_bare(low);
    assert forall|index: int| 0 <= index < value.len() implies #[trigger] value[index] != '"' by {
        if index < slash {
            assert(high[index] == value[index]);
        } else if index > slash {
            assert(low[index - slash - 1] == value[index]);
        }
    }
}

proof fn slash_bounds(value: Seq<char>)
    ensures
        slash_at(value) <= value.len(),
        slash_at(value) < value.len() ==> value[slash_at(value) as int] == '/',
    decreases value.len(),
{
    if value.len() > 0 && value[0] != '/' {
        slash_bounds(value.drop_first());
    }
}

proof fn doubled_quotes_are_injective(left: Seq<char>, right: Seq<char>)
    requires
        quotes_doubled(left) == quotes_doubled(right),
    ensures
        left == right,
    decreases left.len() + right.len(),
{
    let form = quotes_doubled(left);
    if left.len() == 0 || right.len() == 0 {
        if left.len() > 0 {
            assert(quotes_doubled(left).len() > 0);
        }
        if right.len() > 0 {
            assert(quotes_doubled(right).len() > 0);
        }
        assert(left =~= right);
    } else {
        let shorter_left = quotes_doubled(left.drop_last());
        let shorter_right = quotes_doubled(right.drop_last());
        assert(form.last() == left.last());
        assert(form.last() == right.last());
        if left.last() == '"' {
            assert(form.take(form.len() - 2) =~= shorter_left);
            assert(form.take(form.len() - 2) =~= shorter_right);
        } else {
            assert(form.take(form.len() - 1) =~= shorter_left);
            assert(form.take(form.len() - 1) =~= shorter_right);
        }
        doubled_quotes_are_injective(left.drop_last(), right.drop_last());
        assert(left =~= left.drop_last().push(left.last()));
        assert(right =~= right.drop_last().push(right.last()));
    }
}

/// Two names have the same SQL identifier only if they are the same name.
pub proof fn quoting_is_injective(left: Seq<char>, right: Seq<char>)
    requires
        quoted(left) == quoted(right),
    ensures
        left == right,
{
    let form = quoted(left);
    assert(form.subrange(1, form.len() - 1) =~= quotes_doubled(left));
    assert(form.subrange(1, form.len() - 1) =~= quotes_doubled(right));
    doubled_quotes_are_injective(left, right);
}

} // verus!
