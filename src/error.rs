use vstd::prelude::*;

verus! {

/// The classes of failure that a call or an accessor can report.
#[derive(PartialEq, Eq, Structural, Clone, Copy, Debug)]
pub enum ErrorKind {
    /// Business-logic failure reported explicitly by server code.
    Failed,
    /// Transport-level: the peer is too busy to take the call.
    Overloaded,
    /// Transport-level: the connection to the peer is gone.
    Disconnected,
    /// A declared method has no working implementation.
    Unimplemented,
    /// A pointer's tag does not match the statically expected type.
    SchemaViolation,
}

/// A failure: its kind and a human-readable message.
#[derive(Debug)]
pub struct Error {
    pub kind: ErrorKind,
    pub description: String,
}

impl Error {
    pub fn failed(description: String) -> (r: Error)
        ensures
            r.kind == ErrorKind::Failed,
            r.description@ == description@,
    {
        Error { kind: ErrorKind::Failed, description }
    }

    pub fn unimplemented(description: String) -> (r: Error)
        ensures
            r.kind == ErrorKind::Unimplemented,
            r.description@ == description@,
    {
        Error { kind: ErrorKind::Unimplemented, description }
    }

    pub fn schema_violation(description: String) -> (r: Error)
        ensures
            r.kind == ErrorKind::SchemaViolation,
            r.description@ == description@,
    {
        Error { kind: ErrorKind::SchemaViolation, description }
    }

    /// A copy of this error, kind and message alike.
    pub fn duplicate(&self) -> (r: Error)
        ensures
            r.kind == self.kind,
            r.description@ == self.description@,
    {
        Error { kind: self.kind, description: self.description.clone() }
    }
}

} // verus!
