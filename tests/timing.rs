use mina_account::decimal::parse_decimal;
use mina_account::{Amount, Atom, BlockTime, ChunkedROInput, ParseError, TimedData, Timing};

fn schedule(a: u64, b: u64, c: u64, d: u64, e: u64) -> TimedData {
    TimedData {
        initial_minimum_balance: Amount(a),
        cliff_time: BlockTime(b),
        cliff_amount: Amount(c),
        vesting_period: BlockTime(d),
        vesting_increment: Amount(e),
    }
}

fn packed(value: u64, bits: u32) -> Atom {
    Atom::Packed { value, bits }
}

fn doc(text: &str) -> serde_json::Value {
    serde_json::from_str(text).unwrap()
}

#[test]
fn schedule_encodes_five_atoms_in_order() {
    let r = schedule(11, 22, 33, 44, 55).to_chunked_roinput();
    assert_eq!(
        r.atoms(),
        &vec![Atom::Chunk(11), packed(22, 32), Atom::Chunk(33), packed(44, 32), Atom::Chunk(55)]
    );
}

#[test]
fn schedule_times_are_truncated_to_32_bits() {
    let r = schedule(1, (1u64 << 32) + 5, 2, u64::MAX, 4).to_chunked_roinput();
    assert_eq!(r.atoms()[1], packed(5, 32));
    assert_eq!(r.atoms()[3], packed(0xFFFF_FFFF, 32));
    assert_eq!(r.atoms()[0], Atom::Chunk(1));
}

#[test]
fn default_schedule_has_vesting_period_one() {
    let d = TimedData::default();
    assert_eq!(d, schedule(0, 0, 0, 1, 0));
    assert_ne!(d.vesting_period.0, 0);
    assert_eq!(Timing::default(), Timing::Untimed);
}

#[test]
fn untimed_encodes_tag_zero_and_default_schedule() {
    let r = Timing::Untimed.to_chunked_roinput();
    assert_eq!(
        r.atoms(),
        &vec![
            packed(0, 1),
            Atom::Chunk(0),
            packed(0, 32),
            Atom::Chunk(0),
            packed(1, 32),
            Atom::Chunk(0),
        ]
    );
}

#[test]
fn timed_default_differs_from_untimed_in_tag_only() {
    let u = Timing::Untimed.to_chunked_roinput();
    let t = Timing::Timed(TimedData::default()).to_chunked_roinput();
    assert_eq!(u.atoms().len(), 6);
    assert_eq!(t.atoms().len(), 6);
    assert_eq!(t.atoms()[0], packed(1, 1));
    assert_eq!(u.atoms()[0], packed(0, 1));
    assert_eq!(u.atoms()[1..], t.atoms()[1..]);
}

#[test]
fn timed_encodes_tag_one_and_its_schedule() {
    let r = Timing::Timed(schedule(5, 10, 2, 3, 1)).to_chunked_roinput();
    assert_eq!(
        r.atoms(),
        &vec![
            packed(1, 1),
            Atom::Chunk(5),
            packed(10, 32),
            Atom::Chunk(2),
            packed(3, 32),
            Atom::Chunk(1),
        ]
    );
}

#[test]
fn full_document_parses_to_timed() {
    let d = doc(
        r#"{"initialMinimumBalance":"5","cliffTime":"10","cliffAmount":"2","vestingPeriod":"3","vestingIncrement":"1"}"#,
    );
    assert_eq!(Timing::from_graphql_json(&d), Ok(Timing::Timed(schedule(5, 10, 2, 3, 1))));
    assert_eq!(TimedData::from_graphql_json(&d), Ok(schedule(5, 10, 2, 3, 1)));
}

#[test]
fn document_without_vesting_period_is_untimed() {
    let d = doc(
        r#"{"initialMinimumBalance":"5","cliffTime":"10","cliffAmount":"2","vestingIncrement":"1"}"#,
    );
    assert_eq!(Timing::from_graphql_json(&d), Ok(Timing::Untimed));
    assert_eq!(TimedData::from_graphql_json(&d), Err(ParseError::Empty));
}

#[test]
fn document_with_bad_field_is_untimed() {
    let d = doc(
        r#"{"initialMinimumBalance":"5","cliffTime":"ten","cliffAmount":"2","vestingPeriod":"3","vestingIncrement":"1"}"#,
    );
    assert_eq!(Timing::from_graphql_json(&d), Ok(Timing::Untimed));
    assert_eq!(TimedData::from_graphql_json(&d), Err(ParseError::InvalidDigit));
}

#[test]
fn document_with_numeric_field_is_untimed() {
    let d = doc(
        r#"{"initialMinimumBalance":5,"cliffTime":"10","cliffAmount":"2","vestingPeriod":"3","vestingIncrement":"1"}"#,
    );
    assert_eq!(TimedData::from_graphql_json(&d), Err(ParseError::Empty));
    assert_eq!(Timing::from_graphql_json(&d), Ok(Timing::Untimed));
}

#[test]
fn document_that_is_not_an_object_is_untimed() {
    assert_eq!(Timing::from_graphql_json(&doc("[1, 2, 3]")), Ok(Timing::Untimed));
    assert_eq!(Timing::from_graphql_json(&doc("null")), Ok(Timing::Untimed));
}

#[test]
fn document_with_overflowing_field_fails() {
    let d = doc(
        r#"{"initialMinimumBalance":"18446744073709551616","cliffTime":"10","cliffAmount":"2","vestingPeriod":"3","vestingIncrement":"1"}"#,
    );
    assert_eq!(TimedData::from_graphql_json(&d), Err(ParseError::Overflow));
    assert_eq!(Timing::from_graphql_json(&d), Ok(Timing::Untimed));
}

#[test]
fn from_strs_reports_first_failing_field() {
    let s = |t: &str| Some(t.to_string());
    assert_eq!(
        TimedData::from_strs(s("1"), s("2"), s("3"), s("4"), s("5")),
        Ok(schedule(1, 2, 3, 4, 5))
    );
    assert_eq!(
        TimedData::from_strs(s("1"), s("x"), None, s("4"), s("5")),
        Err(ParseError::InvalidDigit)
    );
    assert_eq!(
        TimedData::from_strs(s("1"), s("2"), None, s("x"), s("5")),
        Err(ParseError::Empty)
    );
}

#[test]
fn parse_decimal_cases() {
    assert_eq!(parse_decimal("0"), Ok(0));
    assert_eq!(parse_decimal("007"), Ok(7));
    assert_eq!(parse_decimal("+7"), Ok(7));
    assert_eq!(parse_decimal("18446744073709551615"), Ok(u64::MAX));
    assert_eq!(parse_decimal("18446744073709551616"), Err(ParseError::Overflow));
    assert_eq!(parse_decimal(""), Err(ParseError::Empty));
    assert_eq!(parse_decimal("+"), Err(ParseError::InvalidDigit));
    assert_eq!(parse_decimal("-1"), Err(ParseError::InvalidDigit));
    assert_eq!(parse_decimal("1 2"), Err(ParseError::InvalidDigit));
    assert_eq!(parse_decimal("99999999999999999999x"), Err(ParseError::InvalidDigit));
}

#[test]
fn append_chunked_concatenates() {
    let a = ChunkedROInput::new().append_chunk(1).append_packed(2, 3);
    let b = ChunkedROInput::new().append_chunk(4);
    let r = a.append_chunked(b);
    assert_eq!(r.atoms(), &vec![Atom::Chunk(1), packed(2, 3), Atom::Chunk(4)]);
}
