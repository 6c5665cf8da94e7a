use vstd::prelude::*;

verus! {

/// Failure conditions surfaced by the handle layer.
#[derive(Clone, Copy, Debug, PartialEq, Eq, Structural)]
pub enum Error {
    /// The identifier handed back by the engine is already owned by a live
    /// handle in this process. Retrying cannot help until that handle is
    /// released.
    Reopened,
    /// A handle was used against an environment other than the one it was
    /// opened with. A caller error, never retryable.
    Mismatch,
    /// A failure reported by the engine, carrying its status code verbatim.
    Engine(i32),
}

} // verus!
