//! The request a caller submits, and how its language is resolved.
use vstd::prelude::*;
use crate::registry::{registry, toolchain_for, ToolchainSpec};

verus! {

/// One submission: a language identifier (any case), the source text, and
/// the optional text fed to the program's standard input.
pub struct CodeInput {
    pub language: String,
    pub code: String,
    pub input: Option<String>,
}

impl CodeInput {
    pub fn new(language: String, code: String, input: Option<String>) -> (r: CodeInput)
        ensures
            r.language == language,
            r.code == code,
            r.input == input,
    {
        CodeInput { language, code, input }
    }

    /// The text delivered on standard input: the given input, or nothing.
    pub open spec fn stdin_spec(&self) -> Seq<char> {
        match self.input {
            Some(s) => s@,
            None => Seq::empty(),
        }
    }

    pub fn stdin_payload(&self) -> (r: String)
        ensures
            r@ == self.stdin_spec(),
    {
        match &self.input {
            Some(s) => s.clone(),
            None => String::new(),
        }
    }
}

/// The lower-case form of a string, as std's Unicode case mapping gives it.
pub uninterp spec fn lower_of(s: Seq<char>) -> Seq<char>;

/// Relies on str::to_lowercase: the lower-case form depends on the
/// characters alone.
#[verifier::external_body]
fn lowercase(s: &str) -> (r: String)
    ensures
        r@ == lower_of(s@),
{
    s.to_lowercase()
}

/// Resolves a language identifier, in any case, to its toolchain.
pub fn resolve_language(language: &str) -> (r: Option<ToolchainSpec>)
    ensures
        match r {
            Some(t) => registry(lower_of(language@)) == Some(t@),
            None => registry(lower_of(language@)) is None,
        },
{
    let normalized = lowercase(language);
    toolchain_for(normalized.as_str())
}

} // verus!
