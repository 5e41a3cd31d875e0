use vstd::prelude::*;

verus! {

/// The failures a storage backend can surface. The core invents none of
/// these: each stands for a backend-originated error that is propagated
/// unchanged to the caller, with no retry, fallback or translation.
#[derive(Clone, Copy, Debug, PartialEq, Eq, Structural)]
pub enum StoreError {
    /// The pool could not produce a usable connection, or the backend was
    /// unreachable or timed out.
    Connectivity,
    /// An insert collided with an existing row sharing the same id; nothing
    /// was overwritten.
    UniqueViolation,
    /// A stored row did not match the expected shape.
    RowDecode,
}

} // verus!
