//! The structured errors that a compilation run can surface to its caller.
use vstd::prelude::*;

verus! {

/// A terminal failure of plan generation or synthesis. The caller always
/// receives either a complete build plan or one of these; partial plans
/// are never returned.
#[derive(Clone, Debug, PartialEq, Eq)]
pub enum NixpacksError {
    /// No registered provider's detection predicate matched the tree.
    NoProviderDetected,
    /// A provider found partial or contradictory project files; the
    /// message names what is missing.
    InvalidProjectStructure(String),
    /// The assembled plan's start phase has no command.
    NoStartCommand,
    /// A file the provider needed was not in the source tree.
    MissingFile(String),
    /// An environment override was not of the form `KEY=VALUE`.
    InvalidEnvironmentVariable(String),
}

impl NixpacksError {
    /// A human-readable description of the failure.
    pub fn message(&self) -> (r: String)
        ensures
            r@ == self.spec_message(),
    {
        match self {
            NixpacksError::NoProviderDetected => {
                String::from_str("No provider detected for this source tree")
            },
            NixpacksError::InvalidProjectStructure(m) => m.clone(),
            NixpacksError::NoStartCommand => String::from_str("No start command could be found"),
            NixpacksError::MissingFile(p) => {
                let mut r: String = String::from_str("Missing file: ");
                r.append(p.as_str());
                r
            },
            NixpacksError::InvalidEnvironmentVariable(v) => {
                let mut r: String = String::from_str("Malformed environment variable: ");
                r.append(v.as_str());
                r
            },
        }
    }

    /// What `message` returns for each error kind.
    pub open spec fn spec_message(&self) -> Seq<char> {
        match self {
            NixpacksError::NoProviderDetected => "No provider detected for this source tree"@,
            NixpacksError::InvalidProjectStructure(m) => m@,
            NixpacksError::NoStartCommand => "No start command could be found"@,
            NixpacksError::MissingFile(p) => "Missing file: "@ + p@,
            NixpacksError::InvalidEnvironmentVariable(v) => "Malformed environment variable: "@
                + v@,
        }
    }
}

} // verus!
