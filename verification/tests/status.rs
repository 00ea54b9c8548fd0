use meter2car::json::{parse_unsigned, Json};
use meter2car::status::phases_from;
use meter2car::{ChargingStatus, GoEStatus};

fn number(n: u64) -> Json {
    Json::Number { unsigned: Some(n) }
}

fn text(s: &str) -> Json {
    Json::Text(s.to_string())
}

fn nrg(total: Json) -> Json {
    let mut entries: Vec<Json> = Vec::new();
    for i in 0..11 {
        entries.push(number(i));
    }
    entries.push(total);
    entries.push(number(0));
    Json::Array(entries)
}

fn status(car: Json, amp: Json, pha: Json, alw: Json, nrg: Json) -> Json {
    Json::Object(vec![
        ("version".to_string(), text("B")),
        ("car".to_string(), car),
        ("amp".to_string(), amp),
        ("pha".to_string(), pha),
        ("alw".to_string(), alw),
        ("nrg".to_string(), nrg),
    ])
}

#[test]
fn parse_unsigned_reads_decimal_numerals() {
    assert_eq!(parse_unsigned("0"), Some(0));
    assert_eq!(parse_unsigned("10"), Some(10));
    assert_eq!(parse_unsigned("+10"), Some(10));
    assert_eq!(parse_unsigned("007"), Some(7));
    assert_eq!(parse_unsigned("18446744073709551615"), Some(u64::MAX));
    assert_eq!(parse_unsigned("000018446744073709551615"), Some(u64::MAX));
}

#[test]
fn parse_unsigned_refuses_what_is_no_numeral() {
    assert_eq!(parse_unsigned(""), None);
    assert_eq!(parse_unsigned("+"), None);
    assert_eq!(parse_unsigned("-1"), None);
    assert_eq!(parse_unsigned("-0"), None);
    assert_eq!(parse_unsigned("++1"), None);
    assert_eq!(parse_unsigned("1+"), None);
    assert_eq!(parse_unsigned(" 1"), None);
    assert_eq!(parse_unsigned("1 "), None);
    assert_eq!(parse_unsigned("1a"), None);
    assert_eq!(parse_unsigned("1.0"), None);
    assert_eq!(parse_unsigned("\u{0661}"), None);
    assert_eq!(parse_unsigned("18446744073709551616"), None);
    assert_eq!(parse_unsigned("99999999999999999999999"), None);
}

#[test]
fn parse_unsigned_agrees_with_std() {
    for s in ["", "+", "-", "0", "+0", "-0", "12", "1x", "x1", "18446744073709551615",
        "18446744073709551616", "184467440737095516150", "+18446744073709551615", "0010"]
    {
        assert_eq!(parse_unsigned(s), s.parse::<u64>().ok(), "{:?}", s);
    }
}

#[test]
fn json_get_finds_members_of_objects() {
    let object = Json::Object(vec![
        ("a".to_string(), number(1)),
        ("b".to_string(), text("2")),
        ("a".to_string(), number(3)),
    ]);
    assert!(matches!(object.get("a"), Some(Json::Number { unsigned: Some(1) })));
    assert!(matches!(object.get("b"), Some(Json::Text(_))));
    assert!(object.get("c").is_none());
    assert!(object.get("").is_none());
    assert!(number(1).get("a").is_none());
    assert!(Json::Array(vec![number(1)]).get("a").is_none());
    assert!(Json::Object(Vec::new()).get("a").is_none());
}

#[test]
fn json_as_number_reads_numbers_and_numerals() {
    assert_eq!(number(10).as_number(), Some(10));
    assert_eq!(text("10").as_number(), Some(10));
    assert_eq!(text("ten").as_number(), None);
    assert_eq!(Json::Number { unsigned: None }.as_number(), None);
    assert_eq!(Json::Null.as_number(), None);
    assert_eq!(Json::Bool(true).as_number(), None);
    assert_eq!(Json::Array(vec![number(1)]).as_number(), None);
    assert_eq!(Json::Object(Vec::new()).as_number(), None);
}

#[test]
fn from_car_reads_the_four_states() {
    assert_eq!(ChargingStatus::from_car(1), Some(ChargingStatus::Ready));
    assert_eq!(ChargingStatus::from_car(2), Some(ChargingStatus::Charging));
    assert_eq!(ChargingStatus::from_car(3), Some(ChargingStatus::Waiting));
    assert_eq!(ChargingStatus::from_car(4), Some(ChargingStatus::Finished));
    assert_eq!(ChargingStatus::from_car(0), None);
    assert_eq!(ChargingStatus::from_car(5), None);
    assert_eq!(ChargingStatus::from_car(255), None);
}

#[test]
fn phases_are_three_where_the_top_five_bits_say_so() {
    for pha in 0..=255u8 {
        let expected = if pha >> 3 == 0b00111 { 3 } else { 1 };
        assert_eq!(phases_from(pha), expected, "{:#x}", pha);
    }
    assert_eq!(phases_from(0x38), 3);
    assert_eq!(phases_from(0x3f), 3);
    assert_eq!(phases_from(0x37), 1);
    assert_eq!(phases_from(0x40), 1);
    assert_eq!(phases_from(0x08), 1);
    assert_eq!(phases_from(0xb8), 1);
}

#[test]
fn ampere_as_text_and_as_number_are_the_same() {
    let as_text = status(number(2), text("10"), number(8), number(1), nrg(number(0)));
    let as_number = status(number(2), number(10), number(8), number(1), nrg(number(0)));
    let a = GoEStatus::from_json(&as_text).unwrap();
    let b = GoEStatus::from_json(&as_number).unwrap();
    assert_eq!(a.ampere, 10);
    assert_eq!(b.ampere, 10);
    assert_eq!(a, b);
}

#[test]
fn status_of_a_charging_car() {
    let json = status(number(2), number(10), number(0x39), number(1), nrg(number(150)));
    let status = GoEStatus::from_json(&json).unwrap();
    assert_eq!(status.total_power, 1500);
    assert_eq!(status.phases, 3);
    assert!(status.is_charging_allowed);
    assert_eq!(status.charging_status, ChargingStatus::Charging);
    assert_eq!(status.ampere, 10);
}

#[test]
fn status_from_texts() {
    let json = status(text("4"), text("6"), text("8"), text("0"), nrg(text("12")));
    assert_eq!(
        GoEStatus::from_json(&json),
        Some(GoEStatus {
            charging_status: ChargingStatus::Finished,
            ampere: 6,
            total_power: 120,
            is_charging_allowed: false,
            phases: 1,
        })
    );
}

#[test]
fn status_keeps_the_low_bits_of_each_number() {
    let json = status(number(258), number(256 + 16), number(0x138), number(256), nrg(number(65536 + 3)));
    assert_eq!(
        GoEStatus::from_json(&json),
        Some(GoEStatus {
            charging_status: ChargingStatus::Charging,
            ampere: 16,
            total_power: 30,
            is_charging_allowed: false,
            phases: 3,
        })
    );
}

#[test]
fn status_power_must_fit_sixteen_bits() {
    let fits = status(number(1), number(6), number(0), number(1), nrg(number(6553)));
    assert_eq!(GoEStatus::from_json(&fits).unwrap().total_power, 65530);
    let over = status(number(1), number(6), number(0), number(1), nrg(number(6554)));
    assert_eq!(GoEStatus::from_json(&over), None);
}

#[test]
fn status_needs_every_member() {
    let whole = || vec![number(2), number(10), number(8), number(1), nrg(number(1))];
    for missing in 0..5 {
        let names = ["car", "amp", "pha", "alw", "nrg"];
        let mut members: Vec<(String, Json)> = Vec::new();
        for (i, value) in whole().into_iter().enumerate() {
            if i != missing {
                members.push((names[i].to_string(), value));
            }
        }
        assert_eq!(GoEStatus::from_json(&Json::Object(members)), None);
    }
}

#[test]
fn status_refuses_other_shapes() {
    assert_eq!(GoEStatus::from_json(&Json::Null), None);
    assert_eq!(GoEStatus::from_json(&Json::Array(Vec::new())), None);
    assert_eq!(GoEStatus::from_json(&Json::Object(Vec::new())), None);
    let state = status(number(0), number(10), number(8), number(1), nrg(number(1)));
    assert_eq!(GoEStatus::from_json(&state), None);
    let state = status(number(5), number(10), number(8), number(1), nrg(number(1)));
    assert_eq!(GoEStatus::from_json(&state), None);
    let wrong = status(Json::Bool(true), number(10), number(8), number(1), nrg(number(1)));
    assert_eq!(GoEStatus::from_json(&wrong), None);
    let wrong = status(number(2), text("x"), number(8), number(1), nrg(number(1)));
    assert_eq!(GoEStatus::from_json(&wrong), None);
    let negative = status(number(2), Json::Number { unsigned: None }, number(8), number(1), nrg(number(1)));
    assert_eq!(GoEStatus::from_json(&negative), None);
    let short = Json::Array((0..11).map(number).collect());
    let wrong = status(number(2), number(10), number(8), number(1), short);
    assert_eq!(GoEStatus::from_json(&wrong), None);
    let wrong = status(number(2), number(10), number(8), number(1), number(1));
    assert_eq!(GoEStatus::from_json(&wrong), None);
    let wrong = status(number(2), number(10), number(8), number(1), nrg(Json::Null));
    assert_eq!(GoEStatus::from_json(&wrong), None);
}
