//! Rows of a table: fields by name, each a piece of text, and the reading of a
//! count out of such a text.

use crate::error::ParseCause;
use vstd::hash_map::StringHashMap;
use vstd::prelude::*;

verus! {

/// One row of a table: a value for each of its field names.
pub struct Row {
    fields: StringHashMap<String>,
}

impl View for Row {
    type V = Map<Seq<char>, Seq<char>>;

    closed spec fn view(&self) -> Map<Seq<char>, Seq<char>> {
        self.fields@.map_values(|value: String| value@)
    }
}

impl Row {
    /// A row without fields.
    pub fn new() -> (r: Row)
        ensures
            r@ == Map::<Seq<char>, Seq<char>>::empty(),
    {
        let r = Row { fields: StringHashMap::new() };
        r
    }

    /// Sets the field `name` to `value`, whether or not the row had it.
    pub fn insert(&mut self, name: String, value: String)
        ensures
            final(self)@ == old(self)@.insert(name@, value@),
    {
        self.fields.insert(name, value);
    }

    /// The value of the field `name`, if the row has that field.
    pub fn get(&self, name: &str) -> (r: Option<&String>)
        ensures
            match r {
                Some(value) => self@.contains_key(name@) && value@ == self@[name@],
                None => !self@.contains_key(name@),
            },
    {
        self.fields.get(name)
    }
}

/// `c` is one of the ten decimal digits.
pub open spec fn is_digit(c: char) -> bool {
    '0' <= c && c <= '9'
}

/// The number that the digit `c` stands for.
pub open spec fn digit_value(c: char) -> nat {
    (c as int - '0' as int) as nat
}

/// The number that a sequence of decimal digits stands for.
pub open spec fn decimal_value(digits: Seq<char>) -> nat
    decreases digits.len(),
{
    if digits.len() == 0 {
        0
    } else {
        10 * decimal_value(digits.drop_last()) + digit_value(digits.last())
    }
}

/// What comes of reading `text` from position `from` to its end, digit by
/// digit, when what was read before stands for `read`: reading stops at the
/// first character that is no digit, and at the first digit with which the
/// number outgrows `usize`.
pub open spec fn read_count_from(text: Seq<char>, from: int, read: nat) -> Result<nat, ParseCause>
    decreases text.len() - from,
{
    if from < 0 || from >= text.len() {
        Ok(read)
    } else if !is_digit(text[from]) {
        Err(ParseCause::InvalidDigit)
    } else if 10 * read + digit_value(text[from]) > usize::MAX {
        Err(ParseCause::Overflow)
    } else {
        read_count_from(text, from + 1, 10 * read + digit_value(text[from]))
    }
}

/// Where the digits of a count begin in `text`: behind its `+`, if it has one.
pub open spec fn digits_start(text: Seq<char>) -> int {
    if text.len() > 0 && text[0] == '+' {
        1
    } else {
        0
    }
}

/// The count that `text` stands for: decimal digits, at least one, with or
/// without a `+` before them.
pub open spec fn parse_count(text: Seq<char>) -> Result<nat, ParseCause> {
    if text.len() == 0 {
        Err(ParseCause::Empty)
    } else if digits_start(text) == text.len() {
        Err(ParseCause::InvalidDigit)
    } else {
        read_count_from(text, digits_start(text), 0)
    }
}

/// A count as the number it is, whatever its width.
pub open spec fn count_as_nat(r: Result<usize, ParseCause>) -> Result<nat, ParseCause> {
    match r {
        Ok(n) => Ok(n as nat),
        Err(cause) => Err(cause),
    }
}

/// Reads a count from `text`.
pub fn parse_stall_count(text: &str) -> (r: Result<usize, ParseCause>)
    ensures
        count_as_nat(r) == parse_count(text@),
{
    let n = text.unicode_len();
    if n == 0 {
        return Err(ParseCause::Empty);
    }
    let mut i: usize = 0;
    let mut read: usize = 0;
    for c in it: text.chars()
        invariant
            n == text@.len(),
            it.seq() == text@,
            i == it.index(),
            i == 0 ==> read == 0,
            i >= digits_start(text@) ==> parse_count(text@) == read_count_from(
                text@,
                i as int,
                read as nat,
            ),
    {
        if i == 0 && c == '+' {
            if n == 1 {
                return Err(ParseCause::InvalidDigit);
            }
        } else {
            if !(c >= '0' && c <= '9') {
                return Err(ParseCause::InvalidDigit);
            }
            let d: usize = (c as u32 - '0' as u32) as usize;
            let tens = match read.checked_mul(10) {
                Some(tens) => tens,
                None => {
                    return Err(ParseCause::Overflow);
                },
            };
            read = match tens.checked_add(d) {
                Some(sum) => sum,
                None => {
                    return Err(ParseCause::Overflow);
                },
            };
        }
        i = i + 1;
    }
    Ok(read)
}

/// The part of `text` that holds the digits of a count.
pub open spec fn count_digits(text: Seq<char>) -> Seq<char> {
    text.subrange(digits_start(text), text.len() as int)
}

/// Every character of `digits` is a decimal digit.
pub open spec fn all_digits(digits: Seq<char>) -> bool {
    forall|k: int| 0 <= k < digits.len() ==> is_digit(#[trigger] digits[k])
}

/// A text stands for a count exactly when, behind an optional `+`, it holds
/// at least one character, all of them digits, and the number they stand for
/// fits in a `usize`. The count is then that number.
pub proof fn lemma_parse_count_is_decimal(text: Seq<char>)
    ensures
        parse_count(text) is Ok <==> count_digits(text).len() > 0 && all_digits(count_digits(text))
            && decimal_value(count_digits(text)) <= usize::MAX,
        parse_count(text) is Ok ==> parse_count(text) == Ok::<nat, ParseCause>(
            decimal_value(count_digits(text)),
        ),
{
    if text.len() > 0 && digits_start(text) < text.len() {
        let start = digits_start(text);
        lemma_read_count_from(text, start, start, 0);
    }
}

/// A longer run of digits does not stand for a smaller number.
proof fn lemma_decimal_value_grows(text: Seq<char>, start: int, mid: int, end: int)
    requires
        0 <= start <= mid <= end <= text.len(),
    ensures
        decimal_value(text.subrange(start, mid)) <= decimal_value(text.subrange(start, end)),
    decreases end - mid,
{
    if mid < end {
        lemma_decimal_value_grows(text, start, mid, end - 1);
        assert(text.subrange(start, end).drop_last() =~= text.subrange(start, end - 1));
    }
}

/// Reading on from `from` reaches the end exactly when the rest is digits and
/// the whole fits, and then gives what the whole stands for.
proof fn lemma_read_count_from(text: Seq<char>, start: int, from: int, read: nat)
    requires
        0 <= start <= from <= text.len(),
        all_digits(text.subrange(start, from)),
        read == decimal_value(text.subrange(start, from)),
        read <= usize::MAX,
    ensures
        match read_count_from(text, from, read) {
            Ok(n) => all_digits(text.subrange(start, text.len() as int)) && n == decimal_value(
                text.subrange(start, text.len() as int),
            ) && n <= usize::MAX,
            Err(_) => !(all_digits(text.subrange(start, text.len() as int)) && decimal_value(
                text.subrange(start, text.len() as int),
            ) <= usize::MAX),
        },
    decreases text.len() - from,
{
    if from < text.len() && is_digit(text[from]) {
        let before = text.subrange(start, from);
        let next = text.subrange(start, from + 1);
        assert(next.drop_last() =~= before);
        if 10 * read + digit_value(text[from]) > usize::MAX {
            lemma_decimal_value_grows(text, start, from + 1, text.len() as int);
        } else {
            assert forall|k: int| 0 <= k < next.len() implies is_digit(#[trigger] next[k]) by {
                if k < before.len() {
                    assert(next[k] == before[k]);
                }
            }
            lemma_read_count_from(text, start, from + 1, 10 * read + digit_value(text[from]));
        }
    } else if from < text.len() {
        assert(text.subrange(start, text.len() as int)[from - start] == text[from]);
    }
}

} // verus!
