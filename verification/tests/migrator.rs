use llmmigrate::errors::MigrateError;
use llmmigrate::migrator::{LlmMigrate, MigrationRequest};
use llmmigrate::prompt::build_user_prompt;

#[test]
fn new_keeps_model_and_verbosity() {
    let m = LlmMigrate::new("some-model-id", true);
    assert_eq!(m.model, "some-model-id");
    assert!(m.verbose);
    let q = LlmMigrate::new("other-model", false);
    assert_eq!(q.model, "other-model");
    assert!(!q.verbose);
}

#[test]
fn prepare_without_example_is_file_read_error() {
    let m = LlmMigrate::new("m", false);
    let r = m.prepare(None, Some("code".to_string()), None, "out.rs".to_string());
    assert_eq!(r.err(), Some(MigrateError::FileReadError));
}

#[test]
fn prepare_without_current_is_file_read_error() {
    let m = LlmMigrate::new("m", false);
    let r = m.prepare(Some("example".to_string()), None, None, "out.rs".to_string());
    assert_eq!(r.err(), Some(MigrateError::FileReadError));
}

#[test]
fn prepare_keeps_inputs_verbatim() {
    let m = LlmMigrate::new("m", false);
    let req = m
        .prepare(
            Some("the example".to_string()),
            Some("the code".to_string()),
            Some("an instruction".to_string()),
            "nested/dir/out.rs".to_string(),
        )
        .unwrap();
    assert_eq!(req.example, "the example");
    assert_eq!(req.current, "the code");
    assert_eq!(req.instructions.as_deref(), Some("an instruction"));
    assert_eq!(req.destination, "nested/dir/out.rs");
}

#[test]
fn request_user_prompt_matches_builder() {
    let req = MigrationRequest {
        example: "A".to_string(),
        current: "B".to_string(),
        instructions: Some("C".to_string()),
        destination: "d".to_string(),
    };
    assert_eq!(req.user_prompt(), build_user_prompt("A", "B", Some("C")));
    let req2 = MigrationRequest {
        example: "A".to_string(),
        current: "B".to_string(),
        instructions: None,
        destination: "d".to_string(),
    };
    assert_eq!(req2.user_prompt(), build_user_prompt("A", "B", None));
}

#[test]
fn process_response_accepts_good_reply() {
    let m = LlmMigrate::new("m", false);
    let r = m.process_response(r#"{"migrated_code":"X","explanation":null}"#).unwrap();
    assert_eq!(r.migrated_code, "X");
    assert_eq!(r.explanation, None);
}

#[test]
fn process_response_rejects_bad_reply() {
    let m = LlmMigrate::new("m", false);
    let r = m.process_response("I cannot do that.");
    assert_eq!(r.err(), Some(MigrateError::ParseError));
}

#[test]
fn error_messages_name_each_failure() {
    assert_eq!(MigrateError::FileReadError.message(), "could not read an input file");
    assert_eq!(MigrateError::NetworkError.message(), "the request could not be completed");
    assert_eq!(
        MigrateError::ParseError.message(),
        "the reply was not a valid migration response"
    );
    assert_eq!(MigrateError::FileWriteError.message(), "could not write the migrated code");
}
