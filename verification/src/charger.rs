//! The commands sent to the charger, and how its answers are judged.

use vstd::prelude::*;
use vstd::string::StringExecFns;
use crate::error::Error;

verus! {

/// The lowest current that the charger is told to deliver, in ampere.
pub const MIN_AMPERE: u8 = 6;

/// The highest current that the charger is told to deliver, in ampere.
pub const MAX_AMPERE: u8 = 14;

/// `ampere`, brought into the range that the charger is told.
pub open spec fn clamped(ampere: u8) -> u8 {
    if ampere < MIN_AMPERE {
        MIN_AMPERE
    } else if ampere > MAX_AMPERE {
        MAX_AMPERE
    } else {
        ampere
    }
}

/// The decimal digit for a value under ten.
pub open spec fn digit_char(d: int) -> char {
    ('0' as int + d) as char
}

/// The decimal numeral of a value under a hundred, without leading zeros.
pub open spec fn numeral(n: u8) -> Seq<char> {
    if n < 10 {
        seq![digit_char(n as int)]
    } else {
        seq![digit_char(n as int / 10), digit_char(n as int % 10)]
    }
}

/// The query that allows or disallows charging.
pub open spec fn charging_allowed_query_text(allowed: bool) -> Seq<char> {
    if allowed {
        "payload=alw=1"@
    } else {
        "payload=alw=0"@
    }
}

/// The query that sets the current to `ampere`, clamped.
pub open spec fn ampere_query_text(ampere: u8) -> Seq<char> {
    "payload=amx="@ + numeral(clamped(ampere))
}

/// Brings a current into the range from 6 to 14 ampere.
pub fn clamp_ampere(ampere: u8) -> (r: u8)
    ensures
        r == clamped(ampere),
        MIN_AMPERE <= r <= MAX_AMPERE,
{
    if ampere < MIN_AMPERE {
        MIN_AMPERE
    } else if ampere > MAX_AMPERE {
        MAX_AMPERE
    } else {
        ampere
    }
}

fn digit_text(d: u8) -> (r: &'static str)
    requires
        d < 10,
    ensures
        r@ == seq![digit_char(d as int)],
{
    proof {
        reveal_strlit("0");
        reveal_strlit("1");
        reveal_strlit("2");
        reveal_strlit("3");
        reveal_strlit("4");
        reveal_strlit("5");
        reveal_strlit("6");
        reveal_strlit("7");
        reveal_strlit("8");
        reveal_strlit("9");
    }
    let text: &'static str = match d {
        0 => "0",
        1 => "1",
        2 => "2",
        3 => "3",
        4 => "4",
        5 => "5",
        6 => "6",
        7 => "7",
        8 => "8",
        _ => "9",
    };
    assert(text@ =~= seq![digit_char(d as int)]);
    text
}

/// The query of the command that allows or disallows charging.
pub fn charging_allowed_query(allowed: bool) -> (r: String)
    ensures
        r@ == charging_allowed_query_text(allowed),
{
    if allowed {
        String::from_str("payload=alw=1")
    } else {
        String::from_str("payload=alw=0")
    }
}

/// The query of the command that sets the current: `ampere` is clamped to the
/// range from 6 to 14 and written in decimal.
pub fn ampere_query(ampere: u8) -> (r: String)
    ensures
        r@ == ampere_query_text(ampere),
{
    let value = clamp_ampere(ampere);
    let mut query = String::from_str("payload=amx=");
    if value >= 10 {
        query.append(digit_text(value / 10));
        query.append(digit_text(value % 10));
        assert(query@ =~= ampere_query_text(ampere));
    } else {
        query.append(digit_text(value));
    }
    query
}

/// Whether an HTTP status code tells of success: 200 to 299.
pub open spec fn is_success(status: u16) -> bool {
    200 <= status < 300
}

/// Judges the charger's answer to a command by its HTTP status code.
pub fn check_response(status: u16) -> (r: Result<(), Error>)
    ensures
        r is Ok <==> is_success(status),
        r is Err ==> r == Err::<(), Error>(Error::FailedRequest),
{
    if 200 <= status && status < 300 {
        Ok(())
    } else {
        Err(Error::FailedRequest)
    }
}

} // verus!
