//! A JSON value as the charger's status is read from it.

use vstd::prelude::*;
use vstd::string::StrSliceExecFns;
use vstd::string::StringExecFns;

verus! {

/// A JSON value.
#[derive(Debug)]
pub enum Json {
    Null,
    Bool(bool),
    /// A number; `unsigned` is its value where it is an integer from 0 to
    /// `u64::MAX`.
    Number { unsigned: Option<u64> },
    Text(String),
    Array(Vec<Json>),
    /// An object, as its members in order.
    Object(Vec<(String, Json)>),
}

/// The value that a run of decimal digits stands for.
pub open spec fn decimal_value(digits: Seq<char>) -> nat
    decreases digits.len(),
{
    if digits.len() == 0 {
        0
    } else {
        decimal_value(digits.drop_last()) * 10 + (digits.last() as nat - '0' as nat) as nat
    }
}

/// Every character is a decimal digit.
pub open spec fn all_digits(digits: Seq<char>) -> bool {
    forall|i: int| 0 <= i < digits.len() ==> '0' <= #[trigger] digits[i] <= '9'
}

/// The digits of a numeral: the text without a leading plus sign.
pub open spec fn numeral_digits(text: Seq<char>) -> Seq<char> {
    if text.len() > 0 && text[0] == '+' {
        text.skip(1)
    } else {
        text
    }
}

/// The unsigned number that `text` spells: decimal digits, at least one,
/// after at most one plus sign, with a value that fits 64 bits.
pub open spec fn numeral_value(text: Seq<char>) -> Option<u64> {
    let digits = numeral_digits(text);
    if digits.len() > 0 && all_digits(digits) && decimal_value(digits) <= u64::MAX {
        Some(decimal_value(digits) as u64)
    } else {
        None
    }
}

/// A run of digits is worth at least as much as any run it starts with.
pub proof fn lemma_decimal_value_grows(digits: Seq<char>, n: int)
    requires
        0 <= n <= digits.len(),
    ensures
        decimal_value(digits.take(n)) <= decimal_value(digits),
    decreases digits.len() - n,
{
    if n < digits.len() {
        lemma_decimal_value_grows(digits, n + 1);
        assert(digits.take(n + 1).drop_last() =~= digits.take(n));
    } else {
        assert(digits.take(n) =~= digits);
    }
}

/// Reads an unsigned decimal numeral.
pub fn parse_unsigned(text: &str) -> (r: Option<u64>)
    ensures
        r == numeral_value(text@),
{
    let len: usize = text.unicode_len();
    let start: usize = if len > 0 && text.get_char(0) == '+' {
        1
    } else {
        0
    };
    if start == len {
        return None;
    }
    let ghost digits = numeral_digits(text@);
    assert(digits =~= text@.skip(start as int));
    let mut value: u64 = 0;
    let mut i: usize = start;
    while i < len
        invariant
            start <= i <= len,
            len == text@.len(),
            digits == text@.skip(start as int),
            digits == numeral_digits(text@),
            all_digits(digits.take(i - start)),
            value == decimal_value(digits.take(i - start)),
        decreases len - i,
    {
        let c: char = text.get_char(i);
        proof {
            assert(digits.take(i - start + 1).drop_last() =~= digits.take(i - start));
            assert(digits[i - start] == c);
            lemma_decimal_value_grows(digits, i - start + 1);
        }
        if c < '0' || c > '9' {
            assert(!all_digits(digits));
            return None;
        }
        let d: u64 = (c as u32 - '0' as u32) as u64;
        let ghost longer = digits.take(i - start + 1);
        assert(longer.last() == c);
        assert(decimal_value(longer) == value * 10 + d);
        if value > (u64::MAX - d) / 10 {
            return None;
        }
        value = value * 10 + d;
        i = i + 1;
    }
    assert(digits.take(len - start) =~= digits);
    Some(value)
}

/// The first member of an object that stands under the name `key`. An
/// object made from parsed text holds each name once.
pub open spec fn member(entries: Seq<(String, Json)>, key: Seq<char>) -> Option<Json>
    decreases entries.len(),
{
    if entries.len() == 0 {
        None
    } else if entries[0].0@ == key {
        Some(entries[0].1)
    } else {
        member(entries.skip(1), key)
    }
}

/// The unsigned number that a value gives: a number that is one, or a text
/// that spells one.
pub open spec fn number_of(value: Json) -> Option<u64> {
    match value {
        Json::Number { unsigned } => unsigned,
        Json::Text(text) => numeral_value(text@),
        _ => None,
    }
}

/// A text that spells a number gives the same number as the JSON number
/// itself.
pub proof fn law_numeral_gives_its_number(text: String, n: u64)
    requires
        numeral_value(text@) == Some(n),
    ensures
        number_of(Json::Text(text)) == number_of(Json::Number { unsigned: Some(n) }),
{
}

fn find_member<'a>(entries: &'a Vec<(String, Json)>, key: &str) -> (r: Option<&'a Json>)
    ensures
        match r {
            Some(value) => member(entries@, key@) == Some(*value),
            None => member(entries@, key@) is None,
        },
{
    let name = String::from_str(key);
    let mut i: usize = 0;
    assert(entries@.skip(0) =~= entries@);
    while i < entries.len()
        invariant
            i <= entries@.len(),
            name@ == key@,
            member(entries@, key@) == member(entries@.skip(i as int), key@),
        decreases entries@.len() - i,
    {
        assert(entries@.skip(i as int).skip(1) =~= entries@.skip(i + 1));
        assert(entries@.skip(i as int)[0] == entries@[i as int]);
        if entries[i].0 == name {
            return Some(&entries[i].1);
        }
        i = i + 1;
    }
    None
}

impl Json {
    /// The member of this object under the name `key`.
    pub open spec fn spec_get(self, key: Seq<char>) -> Option<Json> {
        match self {
            Json::Object(entries) => member(entries@, key),
            _ => None,
        }
    }

    /// The member of this object under the name `key`, if this is an object
    /// and has one.
    pub fn get(&self, key: &str) -> (r: Option<&Json>)
        ensures
            match r {
                Some(value) => self.spec_get(key@) == Some(*value),
                None => self.spec_get(key@) is None,
            },
    {
        match self {
            Json::Object(entries) => find_member(entries, key),
            _ => None,
        }
    }

    /// The unsigned number that this value gives.
    pub fn as_number(&self) -> (r: Option<u64>)
        ensures
            r == number_of(*self),
    {
        match self {
            Json::Number { unsigned } => *unsigned,
            Json::Text(text) => parse_unsigned(text.as_str()),
            _ => None,
        }
    }
}

} // verus!
