use backend::error::ValidationError;
use backend::ident::{checked_id, parse_task_id};

const SAMPLE: u128 = 0x550e8400_e29b_41d4_a716_446655440000;

#[test]
fn parse_reads_the_hyphenated_form() {
    assert_eq!(parse_task_id("550e8400-e29b-41d4-a716-446655440000"), Ok(SAMPLE));
}

#[test]
fn parse_reads_the_other_forms() {
    assert_eq!(parse_task_id("550e8400e29b41d4a716446655440000"), Ok(SAMPLE));
    assert_eq!(parse_task_id("550E8400-E29B-41D4-A716-446655440000"), Ok(SAMPLE));
    assert_eq!(parse_task_id("{550e8400-e29b-41d4-a716-446655440000}"), Ok(SAMPLE));
    assert_eq!(parse_task_id("urn:uuid:550e8400-e29b-41d4-a716-446655440000"), Ok(SAMPLE));
}

#[test]
fn parse_reads_the_extreme_identifiers() {
    assert_eq!(parse_task_id("00000000-0000-0000-0000-000000000000"), Ok(0));
    assert_eq!(parse_task_id("ffffffff-ffff-ffff-ffff-ffffffffffff"), Ok(u128::MAX));
    assert_eq!(parse_task_id("00000000-0000-0000-0000-000000000001"), Ok(1));
}

#[test]
fn parse_agrees_with_the_rendering_of_an_identifier() {
    for id in [0u128, 1, SAMPLE, u128::MAX, 0x0123456789abcdef_fedcba9876543210] {
        let text = uuid::Uuid::from_u128(id).to_string();
        assert_eq!(parse_task_id(&text), Ok(id));
    }
}

#[test]
fn parse_refuses_what_is_no_identifier() {
    for text in [
        "",
        "42",
        "not-a-uuid",
        "550e8400-e29b-41d4-a716-44665544000",
        "550e8400-e29b-41d4-a716-4466554400000",
        "550e8400-e29b-41d4-a716-44665544000g",
        "550e8400_e29b_41d4_a716_446655440000",
        "550e8400-e29b-41d4-a716-446655440000 ",
    ] {
        assert_eq!(parse_task_id(text), Err(ValidationError::MalformedId), "{}", text);
    }
}

#[test]
fn checked_id_passes_an_identifier_and_refuses_none() {
    assert_eq!(checked_id(Some(SAMPLE)), Ok(SAMPLE));
    assert_eq!(checked_id(Some(0)), Ok(0));
    assert_eq!(checked_id(None), Err(ValidationError::MalformedId));
}
