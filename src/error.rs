//! Error kinds of the task runtime.
use vstd::prelude::*;
use vstd::string::StringExecFns;
use crate::text::{join2, join3};

verus! {

/// Everything that can go wrong while loading, validating, running or
/// looking up a task.
#[derive(Debug, Clone, PartialEq, Eq)]
pub enum SigilError {
    /// A parameter token without a `=` separator; holds the token.
    MalformedParameter(String),
    /// A required parameter without value and without default; holds its name.
    MissingRequiredParameter(String),
    /// A definition or an instance that does not exist; holds what was sought.
    NotFound(String),
    /// A definition that already exists; holds its name.
    AlreadyExists(String),
    /// A stored record that does not match its schema; holds the reason.
    DeserializationError(String),
    /// A command that could not be started or exited unsuccessfully.
    ExecutionFailed(String),
    /// A module action for which no handler is registered; holds the module.
    UnknownModule(String),
    /// A command that overran its deadline; holds the task name.
    Timeout(String),
    /// A configuration key that cannot be set.
    InvalidConfig { field: String, reason: String },
    /// A system probe that failed; holds the probe and the reason.
    SystemCommand { command: String, error: String },
    /// A storage failure; holds the reason.
    Io(String),
}

/// The human-readable text of an error.
pub open spec fn error_text(e: SigilError) -> Seq<char> {
    match e {
        SigilError::MalformedParameter(t) => "Invalid parameter format: '"@ + t@
            + "'. Use key=value"@,
        SigilError::MissingRequiredParameter(n) => "Required parameter '"@ + n@
            + "' not provided"@,
        SigilError::NotFound(r) => "Resource not found: "@ + r@,
        SigilError::AlreadyExists(n) => "Task '"@ + n@ + "' already exists"@,
        SigilError::DeserializationError(d) => "Deserialization error: "@ + d@,
        SigilError::ExecutionFailed(d) => "Task execution failed: "@ + d@,
        SigilError::UnknownModule(m) => "Unknown module: "@ + m@,
        SigilError::Timeout(n) => "Task timed out: "@ + n@,
        SigilError::InvalidConfig { field, reason } => "Invalid configuration: "@ + field@
            + " - "@ + reason@,
        SigilError::SystemCommand { command, error } => "System command failed: "@ + command@
            + " - "@ + error@,
        SigilError::Io(d) => "I/O error: "@ + d@,
    }
}

impl SigilError {
    /// The error's text, as shown to the user and stored in a failed instance.
    pub fn message(&self) -> (r: String)
        ensures
            r@ == error_text(*self),
    {
        match self {
            SigilError::MalformedParameter(t) => join3(
                "Invalid parameter format: '",
                t.as_str(),
                "'. Use key=value",
            ),
            SigilError::MissingRequiredParameter(n) => join3(
                "Required parameter '",
                n.as_str(),
                "' not provided",
            ),
            SigilError::NotFound(r) => join2("Resource not found: ", r.as_str()),
            SigilError::AlreadyExists(n) => join3("Task '", n.as_str(), "' already exists"),
            SigilError::DeserializationError(d) => join2("Deserialization error: ", d.as_str()),
            SigilError::ExecutionFailed(d) => join2("Task execution failed: ", d.as_str()),
            SigilError::UnknownModule(m) => join2("Unknown module: ", m.as_str()),
            SigilError::Timeout(n) => join2("Task timed out: ", n.as_str()),
            SigilError::InvalidConfig { field, reason } => {
                let mut s = join3("Invalid configuration: ", field.as_str(), " - ");
                s.append(reason.as_str());
                s
            },
            SigilError::SystemCommand { command, error } => {
                let mut s = join3("System command failed: ", command.as_str(), " - ");
                s.append(error.as_str());
                s
            },
            SigilError::Io(d) => join2("I/O error: ", d.as_str()),
        }
    }
}

} // verus!
