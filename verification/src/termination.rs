//! The termination protocol: how a program's result becomes the numeric
//! exit status handed to the kernel.
//!
//! A result is either an explicit status, an OS error carrying its raw
//! number, a success, or a nesting of such results; resolution walks the
//! nesting until a non-nested value is reached.

use vstd::prelude::*;

verus! {

/// A program result, resolved to an exit status exactly once at process end.
pub enum TerminationOutcome {
    /// The program finished as intended: status 0.
    Success,
    /// An explicit status.
    Code(i32),
    /// An OS error, carrying its raw error number; the status is that number.
    OsError(i32),
    /// A result wrapped in another result; the status is the inner one's.
    Nested(Box<TerminationOutcome>),
}

/// The exit status that an outcome resolves to.
pub open spec fn resolve_spec(o: TerminationOutcome) -> i32
    decreases o,
{
    match o {
        TerminationOutcome::Success => 0,
        TerminationOutcome::Code(n) => n,
        TerminationOutcome::OsError(e) => e,
        TerminationOutcome::Nested(inner) => resolve_spec(*inner),
    }
}

impl TerminationOutcome {
    /// Resolve this outcome to the process exit status.
    pub fn resolve(self) -> (status: i32)
        ensures
            status == resolve_spec(self),
        decreases self,
    {
        match self {
            TerminationOutcome::Success => 0,
            TerminationOutcome::Code(n) => n,
            TerminationOutcome::OsError(e) => e,
            TerminationOutcome::Nested(inner) => (*inner).resolve(),
        }
    }
}

/// A value that the process bootstrap can turn into an exit status when the
/// program's entry function returns it.
pub trait Termination {
    /// The status this value stands for.
    spec fn exit_spec(&self) -> i32;

    /// Turn the value into the process exit status.
    fn exit(self) -> (status: i32)
        ensures
            status == self.exit_spec(),
    ;
}

impl Termination for i32 {
    open spec fn exit_spec(&self) -> i32 {
        *self
    }

    fn exit(self) -> (status: i32) {
        self
    }
}

impl Termination for () {
    open spec fn exit_spec(&self) -> i32 {
        0
    }

    fn exit(self) -> (status: i32) {
        0
    }
}

impl Termination for TerminationOutcome {
    open spec fn exit_spec(&self) -> i32 {
        resolve_spec(*self)
    }

    fn exit(self) -> (status: i32) {
        self.resolve()
    }
}

impl<T: Termination, E: Termination> Termination for Result<T, E> {
    open spec fn exit_spec(&self) -> i32 {
        match self {
            Ok(value) => value.exit_spec(),
            Err(err) => err.exit_spec(),
        }
    }

    fn exit(self) -> (status: i32) {
        match self {
            Ok(value) => value.exit(),
            Err(err) => err.exit(),
        }
    }
}

} // verus!
