//! The errors of the playbook engine.
//!
//! Every error ends the role invocation in which it arises: nothing is retried
//! and nothing is resumed.

use vstd::prelude::*;

verus! {

/// Why a template could not be rendered.
#[derive(Clone, Copy, Debug, PartialEq, Eq, Structural)]
pub enum TemplateError {
    /// A `{{` is not followed by any `}}`.
    Unterminated,
    /// A placeholder names a binding that the binding set does not hold.
    UndefinedBinding,
    /// What stands after the name is not a bracketed range or index.
    MalformedRange,
    /// A range or an index reaches outside the value it is applied to.
    OutOfBounds,
    /// A pattern was refused by the pattern engine.
    Pattern,
}

/// Why a process action failed.
#[derive(Clone, Copy, Debug, PartialEq, Eq, Structural)]
pub enum ProcessError {
    /// A process is already registered under the step name.
    AlreadyRegistered,
    /// No process is registered under the step name.
    NotRegistered,
    /// The process could not be spawned, signalled or waited for.
    Failed,
    /// The process ended with a result other than the one the step asks for.
    ExitCode { expected: i32, observed: i32 },
}

/// The errors that end a role invocation.
#[derive(Clone, Copy, Debug, PartialEq, Eq, Structural)]
pub enum PlaybookError {
    /// The configuration document is malformed or incomplete.
    Config,
    /// The number of participants of the executing role is outside its bounds.
    ParticipantCount,
    /// A dynamic string could not be rendered.
    Template(TemplateError),
    /// A process action failed.
    Process(ProcessError),
    /// The coordination service, or the file that carries a payload to or from
    /// it, reported a failure.
    Coordination,
    /// A file or a directory could not be read, written or created.
    Io,
    /// The step holds no action that the engine knows.
    UnrecognizedStep,
    /// The event handed to the engine does not answer the action it asked for.
    UnexpectedEvent,
}

} // verus!
