use vstd::prelude::*;
use vstd::string::StringExecFns;

verus! {

/// The flat error taxonomy of the tool. Every failure aborts the current
/// run, is reported once, and terminates the process with a non-zero exit
/// code; nothing is rolled back because nothing is written until the final
/// step.
#[derive(Debug, Clone, PartialEq, Eq)]
pub enum PullError {
    /// A credential or the home directory was missing at startup.
    Config(String),
    /// The network call to the remote could not complete.
    Transport(String),
    /// The remote answered with a non-success status; the message carries
    /// the response body verbatim so the user can diagnose it.
    Api(String),
    /// A response body did not have the expected shape, or decoded file
    /// bytes were not valid text.
    Decode(String),
    /// The remote declared a content encoding other than base64.
    UnsupportedEncoding(String),
    /// The user declined to choose a candidate, or none existed.
    NoSelection,
    /// Local directory creation or the file write failed.
    Io(String),
}

impl PullError {
    /// The human-readable line reported to the user when a run aborts.
    pub fn message(&self) -> (r: String)
        ensures
            match self {
                PullError::Config(m) => r@ == m@,
                PullError::Transport(m) => r@ == m@,
                PullError::Api(m) => r@ == m@,
                PullError::Decode(m) => r@ == m@,
                PullError::UnsupportedEncoding(m) => r@ == m@,
                PullError::NoSelection => r@ == "No schema selected"@,
                PullError::Io(m) => r@ == m@,
            },
    {
        match self {
            PullError::Config(m) => m.clone(),
            PullError::Transport(m) => m.clone(),
            PullError::Api(m) => m.clone(),
            PullError::Decode(m) => m.clone(),
            PullError::UnsupportedEncoding(m) => m.clone(),
            PullError::NoSelection => String::from_str("No schema selected"),
            PullError::Io(m) => m.clone(),
        }
    }
}

} // verus!
