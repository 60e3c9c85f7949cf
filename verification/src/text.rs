//! Text that the control plane hands to PostgreSQL: decimal numerals, joined
//! lists and statements rendered from a template.

use vstd::prelude::*;

verus! {

/// The decimal digit `0..=9` as a character.
pub open spec fn digit_char(digit: nat) -> char {
    (digit + 48) as char
}

/// The decimal numeral of a natural number, without leading zeros.
pub open spec fn decimal_nat(value: nat) -> Seq<char>
    decreases value,
{
    if value < 10 {
        seq![digit_char(value)]
    } else {
        decimal_nat(value / 10).push(digit_char(value % 10))
    }
}

/// The decimal numeral of an integer, with a leading `-` for a negative one.
pub open spec fn decimal(value: int) -> Seq<char> {
    if value < 0 {
        "-"@ + decimal_nat((-value) as nat)
    } else {
        decimal_nat(value as nat)
    }
}

/// A numeral consists of digits.
pub proof fn decimal_is_digits(value: nat)
    ensures
        decimal_nat(value).len() > 0,
        forall|index: int|
            0 <= index < decimal_nat(value).len() ==> '0' <= #[trigger] decimal_nat(value)[index]
                <= '9',
    decreases value,
{
    if value >= 10 {
        decimal_is_digits(value / 10);
    }
}

/// Two numbers have the same numeral only if they are equal.
pub proof fn decimal_is_injective(left: nat, right: nat)
    requires
        decimal_nat(left) == decimal_nat(right),
    ensures
        left == right,
    decreases left,
{
    let form = decimal_nat(left);
    assert(form.last() == digit_char(left % 10));
    assert(form.last() == digit_char(right % 10));
    if left >= 10 || right >= 10 {
        decimal_is_digits(left / 10);
        decimal_is_digits(right / 10);
        assert(form.drop_last() =~= decimal_nat(left / 10));
        assert(form.drop_last() =~= decimal_nat(right / 10));
        decimal_is_injective(left / 10, right / 10);
    }
}

/// The number that a non-empty run of decimal digits stands for.
pub open spec fn natural_value(digits: Seq<char>) -> Option<nat>
    decreases digits.len(),
{
    if digits.len() == 0 || !('0' <= digits.last() <= '9') {
        None
    } else {
        let ones = (digits.last() as int - '0' as int) as nat;
        if digits.len() == 1 {
            Some(ones)
        } else {
            match natural_value(digits.drop_last()) {
                Some(tens) => Some(tens * 10 + ones),
                None => None,
            }
        }
    }
}

/// The integer that a numeral with an optional sign stands for.
pub open spec fn integer_value(numeral: Seq<char>) -> Option<int> {
    if numeral.len() > 0 && numeral[0] == '-' {
        match natural_value(numeral.drop_first()) {
            Some(magnitude) => Some(-magnitude),
            None => None,
        }
    } else {
        match natural_value(numeral) {
            Some(value) => Some(value as int),
            None => None,
        }
    }
}

proof fn natural_is_read_back(value: nat)
    ensures
        natural_value(decimal_nat(value)) == Some(value),
    decreases value,
{
    if value >= 10 {
        natural_is_read_back(value / 10);
        decimal_is_digits(value / 10);
        assert(decimal_nat(value).drop_last() =~= decimal_nat(value / 10));
        assert(value == (value / 10) * 10 + value % 10);
    }
}

/// An integer survives its numeral.
pub proof fn decimal_is_read_back(value: int)
    ensures
        integer_value(decimal(value)) == Some(value),
{
    reveal_strlit("-");
    if value < 0 {
        natural_is_read_back((-value) as nat);
        assert(decimal(value).drop_first() =~= decimal_nat((-value) as nat));
    } else {
        natural_is_read_back(value as nat);
        decimal_is_digits(value as nat);
        assert(decimal(value)[0] != '-');
    }
}

/// A numeral that stands for an integer consists of digits behind a sign.
pub proof fn numeral_is_digits(numeral: Seq<char>)
    requires
        integer_value(numeral) is Some,
    ensures
        numeral.len() > 0,
        forall|index: int|
            0 <= index < numeral.len() ==> #[trigger] numeral[index] == '-' || '0'
                <= numeral[index] <= '9',
{
    if numeral[0] == '-' {
        natural_is_digits(numeral.drop_first());
        assert forall|index: int| 0 <= index < numeral.len() implies #[trigger] numeral[index]
            == '-' || '0' <= numeral[index] <= '9' by {
            if index > 0 {
                assert(numeral.drop_first()[index - 1] == numeral[index]);
            }
        }
    } else {
        natural_is_digits(numeral);
    }
}

proof fn natural_is_digits(digits: Seq<char>)
    requires
        natural_value(digits) is Some,
    ensures
        digits.len() > 0,
        forall|index: int| 0 <= index < digits.len() ==> '0' <= #[trigger] digits[index] <= '9',
    decreases digits.len(),
{
    if digits.len() > 1 {
        natural_is_digits(digits.drop_last());
        assert forall|index: int| 0 <= index < digits.len() implies '0' <= #[trigger] digits[index]
            <= '9' by {
            if index < digits.len() - 1 {
                assert(digits.drop_last()[index] == digits[index]);
            }
        }
    }
}

fn digit_text(digit: u64) -> (text: &'static str)
    requires
        digit < 10,
    ensures
        text@ == seq![digit_char(digit as nat)],
{
    proof {
        reveal_strlit("0");
        reveal_strlit("1");
        reveal_strlit("2");
        reveal_strlit("3");
        reveal_strlit("4");
        reveal_strlit("5");
        reveal_strlit("6");
        reveal_strlit("7");
        reveal_strlit("8");
        reveal_strlit("9");
    }
    match digit {
        0 => "0",
        1 => "1",
        2 => "2",
        3 => "3",
        4 => "4",
        5 => "5",
        6 => "6",
        7 => "7",
        8 => "8",
        _ => "9",
    }
}

/// Writes an unsigned integer as its decimal numeral.
pub fn unsigned_text(value: u64) -> (text: String)
    ensures
        text@ == decimal(value as int),
    decreases value,
{
    if value < 10 {
        digit_text(value).to_owned()
    } else {
        let mut text = unsigned_text(value / 10);
        let ghost before = text@;
        text.append(digit_text(value % 10));
        proof {
            assert(text@ =~= before.push(digit_char((value % 10) as nat)));
        }
        text
    }
}

/// Writes a signed integer as its decimal numeral.
pub fn signed_text(value: i64) -> (text: String)
    ensures
        text@ == decimal(value as int),
{
    if value >= 0 {
        unsigned_text(value as u64)
    } else {
        let magnitude: i128 = -(value as i128);
        let mut text = "-".to_owned();
        text.append(unsigned_text(magnitude as u64).as_str());
        text
    }
}

/// Whether two texts hold the same characters.
pub fn same_text(left: &str, right: &str) -> (same: bool)
    ensures
        same == (left@ == right@),
{
    left.to_owned() == right.to_owned()
}

/// The characters of each text of a list.
pub open spec fn texts(list: Seq<String>) -> Seq<Seq<char>> {
    Seq::new(list.len(), |index: int| list[index]@)
}

/// The texts of a list in order, with `separator` between neighbours.
pub open spec fn joined(list: Seq<Seq<char>>, separator: Seq<char>) -> Seq<char>
    decreases list.len(),
{
    if list.len() == 0 {
        Seq::empty()
    } else if list.len() == 1 {
        list[0]
    } else {
        joined(list.drop_last(), separator) + separator + list.last()
    }
}

/// Joins a list of texts with a separator.
pub fn join(list: &Vec<String>, separator: &str) -> (text: String)
    ensures
        text@ == joined(texts(list@), separator@),
{
    let mut text = String::new();
    let mut index: usize = 0;
    while index < list.len()
        invariant
            index <= list.len(),
            text@ == joined(texts(list@).take(index as int), separator@),
        decreases list.len() - index,
    {
        if index > 0 {
            text.append(separator);
        }
        text.append(list[index].as_str());
        proof {
            let all = texts(list@);
            assert(all.take(index + 1).drop_last() =~= all.take(index as int));
            if index == 0 {
                assert(text@ =~= all.take(1)[0]);
            }
        }
        index = index + 1;
    }
    proof {
        assert(texts(list@).take(list.len() as int) =~= texts(list@));
    }
    text
}

/// `count` texts made of `prefix` and consecutive numbers from `first` on.
pub open spec fn numbered(prefix: Seq<char>, first: int, count: nat) -> Seq<Seq<char>> {
    Seq::new(count, |index: int| prefix + decimal(first + index))
}

/// Lists `count` names made of `prefix` and consecutive numbers from `first`.
pub fn numbered_names(prefix: &str, first: usize, count: usize) -> (names: Vec<String>)
    requires
        first + count <= usize::MAX,
    ensures
        texts(names@) == numbered(prefix@, first as int, count as nat),
{
    let mut names: Vec<String> = Vec::new();
    let mut index: usize = 0;
    while index < count
        invariant
            index <= count,
            first + count <= usize::MAX,
            names.len() == index,
            forall|k: int| 0 <= k < index ==> #[trigger] names@[k]@ == prefix@ + decimal(first + k),
        decreases count - index,
    {
        let mut name = prefix.to_owned();
        name.append(unsigned_text((first + index) as u64).as_str());
        names.push(name);
        index = index + 1;
    }
    proof {
        assert(texts(names@) =~= numbered(prefix@, first as int, count as nat));
    }
    names
}

/// Lists `count` texts that `write` makes from their positions.
pub fn listed<F: Fn(usize) -> String>(count: usize, write: F) -> (list: Vec<String>)
    requires
        forall|index: usize| index < count ==> #[trigger] call_requires(write, (index,)),
    ensures
        list.len() == count,
        forall|index: int|
            0 <= index < count ==> call_ensures(write, (index as usize,), #[trigger] list@[index]),
{
    let mut list: Vec<String> = Vec::new();
    let mut index: usize = 0;
    while index < count
        invariant
            index <= count,
            list.len() == index,
            forall|k: usize| k < count ==> #[trigger] call_requires(write, (k,)),
            forall|k: int|
                0 <= k < index ==> call_ensures(write, (k as usize,), #[trigger] list@[k]),
        decreases count - index,
    {
        list.push(write(index));
        index = index + 1;
    }
    list
}

/// The text bound to `name` by the latest binding of that name.
pub open spec fn lookup(holes: Seq<(Seq<char>, Seq<char>)>, name: Seq<char>) -> Option<Seq<char>>
    decreases holes.len(),
{
    if holes.len() == 0 {
        None
    } else if holes.last().0 == name {
        Some(holes.last().1)
    } else {
        lookup(holes.drop_last(), name)
    }
}

/// What stands for the hole `name`: its text, or the hole itself when nothing
/// is bound to it.
pub open spec fn filled(holes: Seq<(Seq<char>, Seq<char>)>, name: Seq<char>) -> Seq<char> {
    match lookup(holes, name) {
        Some(text) => text,
        None => "{"@ + name + "}"@,
    }
}

/// The position of the first closing brace, or the length without one.
pub open spec fn closing_brace(template: Seq<char>) -> nat
    decreases template.len(),
{
    if template.len() == 0 || template[0] == '}' {
        0
    } else {
        1 + closing_brace(template.drop_first())
    }
}

/// A template with each `{name}` hole replaced by the text bound to the name.
pub open spec fn rendered(template: Seq<char>, holes: Seq<(Seq<char>, Seq<char>)>) -> Seq<char>
    decreases template.len(),
{
    if template.len() == 0 {
        Seq::empty()
    } else if template[0] == '{' && closing_brace(template) < template.len() {
        let close = closing_brace(template) as int;
        filled(holes, template.subrange(1, close)) + rendered(
            template.subrange(close + 1, template.len() as int),
            holes,
        )
    } else {
        seq![template[0]] + rendered(template.drop_first(), holes)
    }
}

proof fn closing_brace_bounds(template: Seq<char>)
    ensures
        closing_brace(template) <= template.len(),
        closing_brace(template) < template.len() ==> template[closing_brace(template) as int] == '}',
        forall|k: int| 0 <= k < closing_brace(template) ==> template[k] != '}',
    decreases template.len(),
{
    if template.len() > 0 && template[0] != '}' {
        let rest = template.drop_first();
        closing_brace_bounds(rest);
        assert forall|k: int| 0 <= k < closing_brace(template) implies template[k] != '}' by {
            if k > 0 {
                assert(rest[k - 1] == template[k]);
            }
        }
    }
}

proof fn closing_brace_is(template: Seq<char>, position: int)
    requires
        0 <= position <= template.len(),
        position < template.len() ==> template[position] == '}',
        forall|k: int| 0 <= k < position ==> template[k] != '}',
    ensures
        closing_brace(template) == position,
{
    closing_brace_bounds(template);
}

/// The texts bound to the holes of a template.
pub struct Holes {
    entries: Vec<(String, String)>,
}

impl View for Holes {
    type V = Seq<(Seq<char>, Seq<char>)>;

    closed spec fn view(&self) -> Seq<(Seq<char>, Seq<char>)> {
        Seq::new(
            self.entries@.len(),
            |index: int| (self.entries@[index].0@, self.entries@[index].1@),
        )
    }
}

impl Holes {
    /// No hole is bound.
    pub fn new() -> (holes: Holes)
        ensures
            holes@ == Seq::<(Seq<char>, Seq<char>)>::empty(),
    {
        let holes = Holes { entries: Vec::new() };
        assert(holes@ =~= Seq::empty());
        holes
    }

    /// Binds one more hole.
    pub fn bind(self, name: &str, text: &str) -> (holes: Holes)
        ensures
            holes@ == self@.push((name@, text@)),
    {
        let ghost before = self@;
        let mut holes = self;
        holes.entries.push((name.to_owned(), text.to_owned()));
        assert(holes@ =~= before.push((name@, text@)));
        holes
    }

    fn find(&self, name: &str) -> (text: Option<String>)
        ensures
            match text {
                Some(found) => lookup(self@, name@) == Some(found@),
                None => lookup(self@, name@) is None,
            },
    {
        let mut left: usize = self.entries.len();
        proof {
            assert(self@.take(left as int) =~= self@);
        }
        while left > 0
            invariant
                left <= self.entries.len(),
                lookup(self@, name@) == lookup(self@.take(left as int), name@),
            decreases left,
        {
            proof {
                assert(self@.take(left as int).drop_last() =~= self@.take(left - 1));
                assert(self@.take(left as int).last() == self@[left - 1]);
            }
            if same_text(self.entries[left - 1].0.as_str(), name) {
                return Some(self.entries[left - 1].1.clone());
            }
            left = left - 1;
        }
        None
    }
}

/// The characters of a text in order.
pub fn characters(text: &str) -> (list: Vec<char>)
    ensures
        list@ == text@,
{
    let mut list: Vec<char> = Vec::new();
    for character in walk: text.chars()
        invariant
            list@ == text@.take(walk.index()),
            walk.seq() == text@,
    {
        list.push(character);
        proof {
            assert(list@ =~= text@.take(walk.index() + 1));
        }
    }
    proof {
        assert(text@.take(text@.len() as int) =~= text@);
    }
    list
}

/// Fills the holes of a template.
pub fn render(template: &str, holes: Holes) -> (text: String)
    ensures
        text@ == rendered(template@, holes@),
{
    let list = characters(template);
    let length: usize = list.len();
    let mut text = String::new();
    let mut start: usize = 0;
    let mut index: usize = 0;
    proof {
        assert(template@.subrange(0, length as int) =~= template@);
        assert(text@ + template@.subrange(0, 0) + rendered(template@, holes@) =~= rendered(
            template@,
            holes@,
        ));
    }
    while index < length
        invariant
            start <= index <= length,
            list@ == template@,
            length == template@.len(),
            text@ + template@.subrange(start as int, index as int) + rendered(
                template@.subrange(index as int, length as int),
                holes@,
            ) == rendered(template@, holes@),
        decreases length - index,
    {
        let ghost rest = template@.subrange(index as int, length as int);
        let mut close: usize = index;
        if list[index] == '{' {
            while close < length && list[close] != '}'
                invariant
                    index <= close <= length,
                    list@ == template@,
                    length == template@.len(),
                    rest == template@.subrange(index as int, length as int),
                    forall|k: int| 0 <= k < close - index ==> rest[k] != '}',
                decreases length - close,
            {
                close = close + 1;
            }
            proof {
                closing_brace_is(rest, close - index);
            }
        }
        if list[index] == '{' && close < length {
            let name = template.substring_char(index + 1, close);
            proof {
                assert(rest[0] == '{');
                assert(rest.subrange(1, close - index) =~= name@);
                assert(rest.subrange(close - index + 1, rest.len() as int) =~= template@.subrange(
                    close + 1,
                    length as int,
                ));
            }
            text.append(template.substring_char(start, index));
            let ghost before = text@;
            match holes.find(name) {
                Some(found) => {
                    text.append(found.as_str());
                },
                None => {
                    text.append("{");
                    text.append(name);
                    text.append("}");
                    assert(text@ =~= before + ("{"@ + name@ + "}"@));
                },
            }
            assert(text@ == before + filled(holes@, name@));
            start = close + 1;
            index = close + 1;
            proof {
                let tail = rendered(template@.subrange(index as int, length as int), holes@);
                assert(text@ + template@.subrange(start as int, index as int) + tail =~= before + (
                filled(holes@, name@) + tail));
            }
        } else {
            proof {
                let after = template@.subrange(index + 1, length as int);
                let run = template@.subrange(start as int, index as int);
                assert(rest.drop_first() =~= after);
                assert(rendered(rest, holes@) == seq![rest[0]] + rendered(after, holes@));
                assert(template@.subrange(start as int, index + 1) =~= run + seq![rest[0]]);
                assert(text@ + template@.subrange(start as int, index + 1) + rendered(after, holes@)
                    =~= text@ + run + rendered(rest, holes@));
            }
            index = index + 1;
        }
    }
    let ghost before = text@;
    text.append(template.substring_char(start, length));
    proof {
        let run = template@.subrange(start as int, length as int);
        assert(template@.subrange(length as int, length as int) =~= Seq::empty());
        assert(text@ + rendered(Seq::empty(), holes@) =~= text@);
    }
    text
}

/// A fallible outcome and its model agree: the same value, or an error with
/// the same message.
pub open spec fn agrees<T>(outcome: Result<T, String>, model: Result<T, Seq<char>>) -> bool {
    match (outcome, model) {
        (Ok(value), Ok(expected)) => value == expected,
        (Err(error), Err(message)) => error@ == message,
        _ => false,
    }
}

/// An error made of a fixed message.
pub fn fail<T>(message: &str) -> (outcome: Result<T, String>)
    ensures
        outcome matches Err(error) && error@ == message@,
{
    Err(message.to_owned())
}

/// As `agrees`, for a value that stands for its view.
pub open spec fn agrees_view<T: View>(
    outcome: Result<T, String>,
    model: Result<T::V, Seq<char>>,
) -> bool {
    match (outcome, model) {
        (Ok(value), Ok(expected)) => value@ == expected,
        (Err(error), Err(message)) => error@ == message,
        _ => false,
    }
}

/// Success exactly when a condition holds.
pub open spec fn holds(condition: bool, message: Seq<char>) -> Result<(), Seq<char>> {
    if condition {
        Ok(())
    } else {
        Err(message)
    }
}

/// Two checks in order: the first error wins.
pub open spec fn both(
    first: Result<(), Seq<char>>,
    second: Result<(), Seq<char>>,
) -> Result<(), Seq<char>> {
    if first is Ok {
        second
    } else {
        first
    }
}

/// Three checks in order: the first error wins.
pub open spec fn three(
    first: Result<(), Seq<char>>,
    second: Result<(), Seq<char>>,
    third: Result<(), Seq<char>>,
) -> Result<(), Seq<char>> {
    both(first, both(second, third))
}

/// Four checks in order: the first error wins.
pub open spec fn four(
    first: Result<(), Seq<char>>,
    second: Result<(), Seq<char>>,
    third: Result<(), Seq<char>>,
    fourth: Result<(), Seq<char>>,
) -> Result<(), Seq<char>> {
    both(first, three(second, third, fourth))
}

/// Whether a computation succeeds, without its value.
pub open spec fn checked<T>(outcome: Result<T, Seq<char>>) -> Result<(), Seq<char>> {
    match outcome {
        Ok(_) => Ok(()),
        Err(message) => Err(message),
    }
}

/// A value that a check guards.
pub open spec fn guarded<T>(check: Result<(), Seq<char>>, value: T) -> Result<T, Seq<char>> {
    match check {
        Ok(()) => Ok(value),
        Err(message) => Err(message),
    }
}

/// A list of checks in order: the first error wins.
pub open spec fn all_hold(checks: Seq<Result<(), Seq<char>>>) -> Result<(), Seq<char>>
    decreases checks.len(),
{
    if checks.len() == 0 {
        Ok(())
    } else {
        both(all_hold(checks.drop_last()), checks.last())
    }
}

/// While every check so far holds, the next one decides: it extends the
/// prefix, and its error is the error of the whole list.
pub proof fn next_check_decides(checks: Seq<Result<(), Seq<char>>>, index: int)
    requires
        0 <= index < checks.len(),
        all_hold(checks.take(index)) is Ok,
    ensures
        all_hold(checks.take(index + 1)) == checks[index],
        checks[index] is Err ==> all_hold(checks) == checks[index],
{
    assert(checks.take(index + 1).drop_last() =~= checks.take(index));
    if checks[index] is Err {
        failing_prefix_decides(checks, index + 1);
    }
}

proof fn failing_prefix_decides(checks: Seq<Result<(), Seq<char>>>, length: int)
    requires
        0 <= length <= checks.len(),
        all_hold(checks.take(length)) is Err,
    ensures
        all_hold(checks) == all_hold(checks.take(length)),
    decreases checks.len(),
{
    if length == checks.len() {
        assert(checks.take(length) =~= checks);
    } else {
        assert(checks.drop_last().take(length) =~= checks.take(length));
        failing_prefix_decides(checks.drop_last(), length);
    }
}

/// A list of checks holds exactly when each of them does.
pub proof fn all_hold_each(checks: Seq<Result<(), Seq<char>>>)
    ensures
        all_hold(checks) is Ok <==> forall|index: int|
            0 <= index < checks.len() ==> (#[trigger] checks[index]) is Ok,
    decreases checks.len(),
{
    if checks.len() > 0 {
        let rest = checks.drop_last();
        all_hold_each(rest);
        assert forall|index: int| 0 <= index < rest.len() implies #[trigger] checks[index]
            == rest[index] by {}
        if all_hold(checks) is Ok {
            assert forall|index: int| 0 <= index < checks.len() implies (
            #[trigger] checks[index]) is Ok by {
                if index < rest.len() {
                    assert(rest[index] is Ok);
                }
            }
        } else if forall|index: int|
            0 <= index < checks.len() ==> (#[trigger] checks[index]) is Ok {
            assert forall|index: int| 0 <= index < rest.len() implies (#[trigger] rest[index]) is Ok by {
                assert(checks[index] is Ok);
            }
            assert(checks[checks.len() - 1] is Ok);
        }
    }
}

/// What `Debug` of `str` writes for a text.
pub uninterp spec fn debug_form(text: Seq<char>) -> Seq<char>;

/// `format!` with `{:?}`, which is `<str as core::fmt::Debug>::fmt`: the text in
/// double quotes with its special characters escaped. The form depends on the
/// text alone; how each character is escaped is left unsaid.
#[verifier::external_body]
pub(crate) fn debug_text(text: &str) -> (form: String)
    ensures
        form@ == debug_form(text@),
{
    format!("{text:?}")
}

} // verus!
