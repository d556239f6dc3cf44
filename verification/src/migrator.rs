use crate::envelope::{parse_response, spec_parse_envelope, MigrationResponse};
use crate::errors::MigrateError;
use crate::prompt::{build_user_prompt, spec_default_instructions, spec_user_prompt};
use vstd::prelude::*;

verus! {

/// One migration request, assembled from inputs the caller has already read:
/// the example of the desired style, the code to migrate, optional free-text
/// instructions, and where the result is to be written. It lives for one
/// call.
pub struct MigrationRequest {
    /// Exhibit A: the example of the desired output format.
    pub example: String,
    /// Exhibit B: the code to migrate.
    pub current: String,
    /// Additional instructions, when the caller gave any.
    pub instructions: Option<String>,
    /// The path the migrated code is to be written to.
    pub destination: String,
}

impl MigrationRequest {
    /// The instruction text this request sends: the caller's instructions
    /// when given, the fixed placeholder otherwise.
    pub open spec fn spec_instruction_text(self) -> Seq<char> {
        match self.instructions {
            Some(s) => s@,
            None => spec_default_instructions(),
        }
    }

    /// The single user message this request sends: both source texts and the
    /// instruction text, embedded in the fixed frame.
    pub fn user_prompt(&self) -> (r: String)
        ensures
            r@ == spec_user_prompt(self.example@, self.current@, self.spec_instruction_text()),
    {
        let ins: Option<&str> = match &self.instructions {
            Some(s) => Some(s.as_str()),
            None => None,
        };
        build_user_prompt(self.example.as_str(), self.current.as_str(), ins)
    }
}

/// The migrator: the model identifier and the verbosity flag, together with
/// the decisions of one migration cycle. The network client that carries the
/// request stays with the caller; the migrator assembles what is sent and
/// judges what came back.
pub struct LlmMigrate {
    /// The model identifier the request names.
    pub model: String,
    /// Whether the caller wants progress messages.
    pub verbose: bool,
}

impl LlmMigrate {
    /// Creates a migrator for the given model identifier.
    pub fn new(model: &str, verbose: bool) -> (s: Self)
        ensures
            s.model@ == model@,
            s.verbose == verbose,
    {
        LlmMigrate { model: String::from_str(model), verbose }
    }

    /// Assembles one migration request from the texts the caller read, or
    /// reports the failure: an absent text means the corresponding input file
    /// could not be read, and the whole operation stops there with
    /// `FileReadError` — on that path no request exists, so nothing can be
    /// sent. On success the request carries all four inputs verbatim.
    pub fn prepare(
        &self,
        example: Option<String>,
        current: Option<String>,
        instructions: Option<String>,
        destination: String,
    ) -> (r: Result<MigrationRequest, MigrateError>)
        ensures
            match r {
                Ok(req) => example is Some && current is Some && req.example
                    == example->Some_0 && req.current == current->Some_0 && req.instructions
                    == instructions && req.destination == destination,
                Err(e) => (example is None || current is None) && e
                    == MigrateError::FileReadError,
            },
    {
        match (example, current) {
            (Some(example), Some(current)) => Ok(
                MigrationRequest { example, current, instructions, destination },
            ),
            _ => Err(MigrateError::FileReadError),
        }
    }

    /// Judges the endpoint's reply: the parsed envelope when the reply is
    /// well formed, `ParseError` exactly otherwise. An error carries no code,
    /// so a failed parse leaves nothing to write.
    pub fn process_response(&self, text: &str) -> (r: Result<MigrationResponse, MigrateError>)
        ensures
            match r {
                Ok(resp) => spec_parse_envelope(text@) == Some(resp.model()),
                Err(e) => spec_parse_envelope(text@) is None && e == MigrateError::ParseError,
            },
    {
        parse_response(text)
    }
}

} // verus!
