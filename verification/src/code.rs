//! The classification codes that consumers branch on.
use vstd::prelude::*;

verus! {

/// A unique code that consumers of the API may rely on to identify errors.
///
/// ### Important
///
/// **Only add variants if a consumer, like the *frontend*, is actually using them**.
/// Remove variants when no longer in use.
#[derive(Debug, Copy, Clone, PartialEq, Eq, Structural)]
pub enum Code {
    /// Much like a catch-all error code. It shouldn't be attached explicitly unless
    /// a message is provided as well as part of a `Context`.
    Unknown,
    /// The input that the user gave was not accepted.
    Validation,
    /// Authentication with the project's git remote failed.
    ProjectGitAuth,
}

impl Code {
    /// The identifier by which consumers know this code. It is part of the
    /// interface to them: the identifier of an existing variant never changes.
    pub open spec fn identifier(self) -> Seq<char> {
        match self {
            Code::Unknown => "errors.unknown"@,
            Code::Validation => "errors.validation"@,
            Code::ProjectGitAuth => "errors.projects.git.auth"@,
        }
    }

    /// The identifier of this code, as it is shown and sent to consumers.
    pub fn display(&self) -> (id: &'static str)
        ensures
            id@ == self.identifier(),
            id@.len() > 0,
    {
        proof {
            lemma_identifier_not_empty(*self);
        }
        match self {
            Code::Unknown => "errors.unknown",
            Code::Validation => "errors.validation",
            Code::ProjectGitAuth => "errors.projects.git.auth",
        }
    }
}

impl Default for Code {
    /// The code of an error that nobody classified.
    fn default() -> (code: Self)
        ensures
            code == Code::Unknown,
    {
        Code::Unknown
    }
}

impl core::fmt::Display for Code {
    /// Writes the identifier of this code.
    fn fmt(&self, f: &mut core::fmt::Formatter<'_>) -> core::fmt::Result {
        f.write_str(self.display())
    }
}

/// No code has an empty identifier.
pub proof fn lemma_identifier_not_empty(code: Code)
    ensures
        code.identifier().len() > 0,
{
    reveal_strlit("errors.unknown");
    reveal_strlit("errors.validation");
    reveal_strlit("errors.projects.git.auth");
}

/// Two codes with the same identifier are the same code: a consumer that holds
/// an identifier knows the code.
pub proof fn lemma_identifier_injective(a: Code, b: Code)
    ensures
        a.identifier() == b.identifier() <==> a == b,
{
    reveal_strlit("errors.unknown");
    reveal_strlit("errors.validation");
    reveal_strlit("errors.projects.git.auth");
    // The three identifiers differ already in length.
    assert(Code::Unknown.identifier().len() == 14);
    assert(Code::Validation.identifier().len() == 17);
    assert(Code::ProjectGitAuth.identifier().len() == 24);
}

} // verus!
