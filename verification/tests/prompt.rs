use llmmigrate::prompt::{build_user_prompt, system_prompt, MAX_OUTPUT_TOKENS};

const FRAME_HEAD: &str = "Migrate the following code:\n\nEXHIBIT A (Example of desired output format):\n```\n";
const FRAME_MID: &str = "\n```\n\nEXHIBIT B (Current code to migrate):\n```\n";
const FRAME_INS: &str = "\n```\n\nAdditional Instructions:\n";
const FRAME_TAIL: &str = "\n\nPlease migrate Exhibit B to match the style and patterns shown in Exhibit A, following any additional instructions provided.";

#[test]
fn user_prompt_embeds_all_parts() {
    let got = build_user_prompt("EXAMPLE TEXT", "CURRENT TEXT", Some("keep the comments"));
    let want = format!(
        "{}EXAMPLE TEXT{}CURRENT TEXT{}keep the comments{}",
        FRAME_HEAD, FRAME_MID, FRAME_INS, FRAME_TAIL
    );
    assert_eq!(got, want);
}

#[test]
fn user_prompt_uses_placeholder_without_instructions() {
    let got = build_user_prompt("A", "B", None);
    let want = format!(
        "{}A{}B{}No additional instructions provided.{}",
        FRAME_HEAD, FRAME_MID, FRAME_INS, FRAME_TAIL
    );
    assert_eq!(got, want);
}

#[test]
fn user_prompt_keeps_empty_inputs() {
    let got = build_user_prompt("", "", Some(""));
    let want = format!("{}{}{}{}", FRAME_HEAD, FRAME_MID, FRAME_INS, FRAME_TAIL);
    assert_eq!(got, want);
}

#[test]
fn system_prompt_is_the_fixed_text() {
    let got = system_prompt();
    assert!(got.starts_with("You are an expert code migration assistant."));
    assert!(got.contains("Respond with a JSON object containing:"));
    assert!(got.contains("\"migrated_code\": string"));
    assert!(got.contains("\"explanation\": string | null"));
}

#[test]
fn max_output_tokens_is_fixed() {
    assert_eq!(MAX_OUTPUT_TOKENS, 8192);
}
