//! The failures this library reports.

use vstd::prelude::*;

verus! {

/// Everything that can go wrong while driving a recording session.
#[derive(Clone, Copy, Debug, PartialEq, Eq, Structural)]
pub enum ApertureError {
    /// An operation was invoked in a session state that does not allow it.
    UsageError,
    /// No start confirmation arrived within the startup window; the freshly
    /// spawned recorder process was killed.
    StartupTimeout,
    /// The external recorder binary could not be launched.
    SpawnFailure,
    /// The recorder process's exit could not be observed.
    ProcessWaitFailure,
    /// No temporary destination file could be allocated.
    PathAllocationFailure,
    /// Stop was asked to hand over a destination that was never allocated.
    MissingDestination,
}

impl ApertureError {
    /// A human-readable description of the failure.
    pub fn message(&self) -> (m: &'static str)
        ensures
            *self is UsageError ==> m@ == "operation invoked in the wrong session state"@,
            *self is StartupTimeout ==> m@ == "could not start recording within 5 seconds"@,
            *self is SpawnFailure ==> m@ == "failed to launch the recorder binary"@,
            *self is ProcessWaitFailure ==> m@ == "failed to observe the recorder process exit"@,
            *self is PathAllocationFailure ==> m@ == "temporary file creation failed"@,
            *self is MissingDestination ==> m@ == "temporary path not found"@,
    {
        match self {
            ApertureError::UsageError => "operation invoked in the wrong session state",
            ApertureError::StartupTimeout => "could not start recording within 5 seconds",
            ApertureError::SpawnFailure => "failed to launch the recorder binary",
            ApertureError::ProcessWaitFailure => "failed to observe the recorder process exit",
            ApertureError::PathAllocationFailure => "temporary file creation failed",
            ApertureError::MissingDestination => "temporary path not found",
        }
    }
}

} // verus!
