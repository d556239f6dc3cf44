use llmmigrate::envelope::parse_response;
use llmmigrate::errors::MigrateError;

#[test]
fn parses_minimal_envelope() {
    let r = parse_response(r#"{"migrated_code":"X","explanation":null}"#).unwrap();
    assert_eq!(r.migrated_code, "X");
    assert_eq!(r.explanation, None);
}

#[test]
fn explanation_string_kept() {
    let r = parse_response(r#"{"migrated_code":"X","explanation":"because"}"#).unwrap();
    assert_eq!(r.migrated_code, "X");
    assert_eq!(r.explanation.as_deref(), Some("because"));
}

#[test]
fn explanation_may_be_absent() {
    let r = parse_response(r#"{"migrated_code":"X"}"#).unwrap();
    assert_eq!(r.migrated_code, "X");
    assert_eq!(r.explanation, None);
}

#[test]
fn member_order_is_free() {
    let r = parse_response(r#"{"explanation":"why","migrated_code":"X"}"#).unwrap();
    assert_eq!(r.migrated_code, "X");
    assert_eq!(r.explanation.as_deref(), Some("why"));
}

#[test]
fn missing_migrated_code_is_parse_error() {
    let r = parse_response(r#"{"explanation":"only prose"}"#);
    assert_eq!(r, Err(MigrateError::ParseError));
}

#[test]
fn empty_object_is_parse_error() {
    assert_eq!(parse_response("{}"), Err(MigrateError::ParseError));
}

#[test]
fn non_json_is_parse_error() {
    assert_eq!(parse_response("not json at all"), Err(MigrateError::ParseError));
    assert_eq!(parse_response(""), Err(MigrateError::ParseError));
    assert_eq!(parse_response("[1,2,3]"), Err(MigrateError::ParseError));
}

#[test]
fn escapes_are_decoded() {
    let r = parse_response(r#"{"migrated_code":"a\nb\t\"q\"\\c\/d\r\b\f"}"#).unwrap();
    assert_eq!(r.migrated_code, "a\nb\t\"q\"\\c/d\r\u{0008}\u{000C}");
}

#[test]
fn unicode_escape_is_decoded() {
    let r = parse_response(r#"{"migrated_code":"\u0041\u005a\u0031"}"#).unwrap();
    assert_eq!(r.migrated_code, "AZ1");
}

#[test]
fn surrogate_pair_is_combined() {
    let r = parse_response(r#"{"migrated_code":"\ud834\udd1e!"}"#).unwrap();
    assert_eq!(r.migrated_code, "\u{1D11E}!");
    let r2 = parse_response(r#"{"migrated_code":"\ud83d\ude00"}"#).unwrap();
    assert_eq!(r2.migrated_code, "\u{1F600}");
}

#[test]
fn literal_non_bmp_character_passes_through() {
    let r = parse_response("{\"migrated_code\":\"\u{1D11E}\"}").unwrap();
    assert_eq!(r.migrated_code, "\u{1D11E}");
}

#[test]
fn lone_surrogate_is_parse_error() {
    assert_eq!(parse_response(r#"{"migrated_code":"\ud800"}"#), Err(MigrateError::ParseError));
    assert_eq!(parse_response(r#"{"migrated_code":"\udd1e"}"#), Err(MigrateError::ParseError));
    assert_eq!(
        parse_response(r#"{"migrated_code":"\ud834A"}"#),
        Err(MigrateError::ParseError)
    );
    assert_eq!(
        parse_response(r#"{"migrated_code":"\ud834\u0041"}"#),
        Err(MigrateError::ParseError)
    );
}

#[test]
fn short_unicode_escape_is_parse_error() {
    assert_eq!(parse_response(r#"{"migrated_code":"\u00"}"#), Err(MigrateError::ParseError));
    assert_eq!(parse_response(r#"{"migrated_code":"\u00zz"}"#), Err(MigrateError::ParseError));
}

#[test]
fn unknown_escape_is_parse_error() {
    assert_eq!(parse_response(r#"{"migrated_code":"\x41"}"#), Err(MigrateError::ParseError));
}

#[test]
fn unknown_members_are_ignored() {
    let text = r#"{"model":"m","count":3,"ready":true,"off":false,"note":null,"migrated_code":"X"}"#;
    let r = parse_response(text).unwrap();
    assert_eq!(r.migrated_code, "X");
    assert_eq!(r.explanation, None);
}

#[test]
fn number_forms_are_accepted_in_unknown_members() {
    let text = r#"{"a":0,"b":-0.5,"c":1e10,"d":2E+3,"e":314.15e-2,"migrated_code":"X"}"#;
    assert!(parse_response(text).is_ok());
}

#[test]
fn leading_zero_number_is_parse_error() {
    let text = r#"{"a":007,"migrated_code":"X"}"#;
    assert_eq!(parse_response(text), Err(MigrateError::ParseError));
}

#[test]
fn bare_minus_is_parse_error() {
    let text = r#"{"a":-,"migrated_code":"X"}"#;
    assert_eq!(parse_response(text), Err(MigrateError::ParseError));
}

#[test]
fn nested_values_in_unknown_members_are_ignored() {
    let text = r#"{"extra":{"k":1},"migrated_code":"X"}"#;
    assert_eq!(parse_response(text).unwrap().migrated_code, "X");
    let text2 = r#"{"extra":[1],"migrated_code":"X"}"#;
    assert_eq!(parse_response(text2).unwrap().migrated_code, "X");
}

#[test]
fn deeply_nested_unknown_members_are_ignored() {
    let text = r#"{"usage":{"in":3,"out":[1,{"a":[[],{}]},"s"],"b":{}},"migrated_code":"X","more":[null,true,[-1.5e2]]}"#;
    let r = parse_response(text).unwrap();
    assert_eq!(r.migrated_code, "X");
    assert_eq!(r.explanation, None);
}

#[test]
fn empty_nested_containers_are_ignored() {
    let text = r#"{"a":{},"b":[],"migrated_code":"X"}"#;
    assert_eq!(parse_response(text).unwrap().migrated_code, "X");
}

#[test]
fn malformed_nested_value_is_parse_error() {
    assert_eq!(
        parse_response(r#"{"a":[1,],"migrated_code":"X"}"#),
        Err(MigrateError::ParseError)
    );
    assert_eq!(
        parse_response(r#"{"a":{"k" 1},"migrated_code":"X"}"#),
        Err(MigrateError::ParseError)
    );
    assert_eq!(
        parse_response(r#"{"a":[1,"migrated_code":"X"}"#),
        Err(MigrateError::ParseError)
    );
}

#[test]
fn known_members_nested_in_ignored_values_do_not_count() {
    // A migrated_code inside an ignored member is not the envelope's.
    let text = r#"{"wrap":{"migrated_code":"inner"}}"#;
    assert_eq!(parse_response(text), Err(MigrateError::ParseError));
    let text2 = r#"{"wrap":{"migrated_code":"inner"},"migrated_code":"outer"}"#;
    assert_eq!(parse_response(text2).unwrap().migrated_code, "outer");
}

#[test]
fn duplicate_migrated_code_is_parse_error() {
    let text = r#"{"migrated_code":"X","migrated_code":"Y"}"#;
    assert_eq!(parse_response(text), Err(MigrateError::ParseError));
}

#[test]
fn duplicate_explanation_is_parse_error() {
    let text = r#"{"migrated_code":"X","explanation":null,"explanation":"e"}"#;
    assert_eq!(parse_response(text), Err(MigrateError::ParseError));
}

#[test]
fn migrated_code_must_be_a_string() {
    assert_eq!(parse_response(r#"{"migrated_code":null}"#), Err(MigrateError::ParseError));
    assert_eq!(parse_response(r#"{"migrated_code":3}"#), Err(MigrateError::ParseError));
    assert_eq!(parse_response(r#"{"migrated_code":true}"#), Err(MigrateError::ParseError));
}

#[test]
fn explanation_must_be_string_or_null() {
    assert_eq!(
        parse_response(r#"{"migrated_code":"X","explanation":7}"#),
        Err(MigrateError::ParseError)
    );
    assert_eq!(
        parse_response(r#"{"migrated_code":"X","explanation":false}"#),
        Err(MigrateError::ParseError)
    );
}

#[test]
fn trailing_text_is_parse_error() {
    assert_eq!(
        parse_response(r#"{"migrated_code":"X"} extra"#),
        Err(MigrateError::ParseError)
    );
}

#[test]
fn trailing_comma_is_parse_error() {
    assert_eq!(parse_response(r#"{"migrated_code":"X",}"#), Err(MigrateError::ParseError));
}

#[test]
fn missing_colon_is_parse_error() {
    assert_eq!(parse_response(r#"{"migrated_code" "X"}"#), Err(MigrateError::ParseError));
}

#[test]
fn unterminated_string_is_parse_error() {
    assert_eq!(parse_response(r#"{"migrated_code":"X"#), Err(MigrateError::ParseError));
}

#[test]
fn raw_control_character_is_parse_error() {
    let text = "{\"migrated_code\":\"a\nb\"}";
    assert_eq!(parse_response(text), Err(MigrateError::ParseError));
}

#[test]
fn surrounding_whitespace_is_tolerated() {
    let text = " \t\r\n{ \"migrated_code\" : \"X\" , \"explanation\" : null }\n ";
    let r = parse_response(text).unwrap();
    assert_eq!(r.migrated_code, "X");
    assert_eq!(r.explanation, None);
}

#[test]
fn code_with_realistic_body_round_trips() {
    let text = r#"{"migrated_code":"fn main() {\n    println!(\"hi\");\n}\n","explanation":"rewrote in the new style"}"#;
    let r = parse_response(text).unwrap();
    assert_eq!(r.migrated_code, "fn main() {\n    println!(\"hi\");\n}\n");
    assert_eq!(r.explanation.as_deref(), Some("rewrote in the new style"));
}
