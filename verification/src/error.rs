use vstd::prelude::*;

verus! {

/// Errors surfaced by the factory's operations. Every failure is reported
/// synchronously as a result value; none is fatal to the host.
#[derive(Clone, Copy, Debug, PartialEq, Eq, Structural)]
pub enum Error {
    /// The host refused or could not complete creation of the new instance.
    CreateError,
    /// The requested contract category has no registered code template.
    UnknownHash,
}

} // verus!
