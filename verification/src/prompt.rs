use vstd::prelude::*;

verus! {

/// The largest reply, in tokens, that is requested from the endpoint.
pub const MAX_OUTPUT_TOKENS: usize = 8192;

/// The fixed system message that frames every migration request.
pub open spec fn spec_system_prompt() -> Seq<char> {
    "You are an expert code migration assistant. Your task is to transform the provided source code into a new format based on an example and any additional instructions. Focus on:

1. Maintaining the core functionality while adopting the new style/patterns
2. Following best practices from the example code
3. Copy the format and structure of the example code
4. Preserving important comments and documentation
5. Ensuring the migrated code is complete and valid
6. Provide the full output in the migrated_code field.

Respond with a JSON object containing:
{
    \"migrated_code\": string,
    \"explanation\": string | null
}"@
}

/// The placeholder that stands in for absent instructions.
pub open spec fn spec_default_instructions() -> Seq<char> {
    "No additional instructions provided."@
}

/// The instruction text that enters the prompt: the caller's own instructions
/// when given, the fixed placeholder otherwise.
pub open spec fn spec_effective_instructions(instructions: Option<&str>) -> Seq<char> {
    match instructions {
        Some(s) => s@,
        None => spec_default_instructions(),
    }
}

/// The single user message: both source texts and the instructions, embedded
/// in a fixed frame.
pub open spec fn spec_user_prompt(example: Seq<char>, current: Seq<char>, instructions: Seq<char>) -> Seq<char> {
    "Migrate the following code:\n\nEXHIBIT A (Example of desired output format):\n```\n"@ + example
        + "\n```\n\nEXHIBIT B (Current code to migrate):\n```\n"@ + current
        + "\n```\n\nAdditional Instructions:\n"@ + instructions
        + "\n\nPlease migrate Exhibit B to match the style and patterns shown in Exhibit A, following any additional instructions provided."@
}

/// Returns the fixed system message.
pub fn system_prompt() -> (r: String)
    ensures
        r@ == spec_system_prompt(),
{
    String::from_str(
        "You are an expert code migration assistant. Your task is to transform the provided source code into a new format based on an example and any additional instructions. Focus on:

1. Maintaining the core functionality while adopting the new style/patterns
2. Following best practices from the example code
3. Copy the format and structure of the example code
4. Preserving important comments and documentation
5. Ensuring the migrated code is complete and valid
6. Provide the full output in the migrated_code field.

Respond with a JSON object containing:
{
    \"migrated_code\": string,
    \"explanation\": string | null
}",
    )
}

/// Builds the user message for one migration request: the example text, the
/// text to migrate, and the instructions (or the placeholder when absent),
/// each in its place in the fixed frame.
pub fn build_user_prompt(example: &str, current: &str, instructions: Option<&str>) -> (r: String)
    ensures
        r@ == spec_user_prompt(example@, current@, spec_effective_instructions(instructions)),
{
    let mut r = String::from_str(
        "Migrate the following code:\n\nEXHIBIT A (Example of desired output format):\n```\n",
    );
    r.append(example);
    r.append("\n```\n\nEXHIBIT B (Current code to migrate):\n```\n");
    r.append(current);
    r.append("\n```\n\nAdditional Instructions:\n");
    match instructions {
        Some(s) => r.append(s),
        None => r.append("No additional instructions provided."),
    }
    r.append(
        "\n\nPlease migrate Exhibit B to match the style and patterns shown in Exhibit A, following any additional instructions provided.",
    );
    proof {
        assert(r@ =~= spec_user_prompt(
            example@,
            current@,
            spec_effective_instructions(instructions),
        ));
    }
    r
}

} // verus!
