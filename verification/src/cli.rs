//! Resolution of the two positional command-line arguments: the query
//! filename, then the target filename.

use vstd::prelude::*;
use vstd::string::StringExecFns;

verus! {

/// A required command-line filename that was not supplied.
#[derive(Debug, Clone, Copy, PartialEq, Eq)]
pub enum ArgError {
    MissingQueryFilename,
    MissingTargetFilename,
}

impl ArgError {
    /// The diagnostic text naming the missing filename.
    pub fn message(&self) -> (m: String)
        ensures
            *self == ArgError::MissingQueryFilename ==> m@ == "query filename missing"@,
            *self == ArgError::MissingTargetFilename ==> m@ == "target filename missing"@,
    {
        match self {
            ArgError::MissingQueryFilename => String::from_str("query filename missing"),
            ArgError::MissingTargetFilename => String::from_str("target filename missing"),
        }
    }
}

/// Requires exactly two arguments after the program's own invocation name, in
/// order: the query filename, then the target filename. Whichever is absent
/// first is the error; arguments past the two are ignored by the caller and
/// never reach this function.
pub fn resolve_args(query: Option<String>, target: Option<String>) -> (r: Result<
    (String, String),
    ArgError,
>)
    ensures
        query is None ==> r == Err::<(String, String), ArgError>(ArgError::MissingQueryFilename),
        query is Some && target is None ==> r == Err::<(String, String), ArgError>(
            ArgError::MissingTargetFilename,
        ),
        query is Some && target is Some ==> r == Ok::<(String, String), ArgError>(
            (query->0, target->0),
        ),
{
    match (query, target) {
        (None, _) => Err(ArgError::MissingQueryFilename),
        (Some(_), None) => Err(ArgError::MissingTargetFilename),
        (Some(q), Some(t)) => Ok((q, t)),
    }
}

} // verus!
