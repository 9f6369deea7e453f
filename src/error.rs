use vstd::prelude::*;

verus! {

/// Failure of a processing stage.
#[derive(Debug, Clone, PartialEq, Eq)]
pub enum StageError {
    /// The pool's free list is at its bound; a sign of misconfiguration.
    BufferExhaustion(String),
    /// The caller broke a structural precondition of the stage.
    InvalidInput(String),
    /// The stage was driven out of lifecycle order.
    Internal(String),
}

} // verus!
