//! The errors of the machine state.
use vstd::prelude::*;

verus! {

/// An error of a pointer move.
#[derive(Clone, Copy, Debug, PartialEq, Eq, Structural)]
pub enum Error {
    /// The pointer would go below the start of memory.
    PointerUnderflow,
    /// The pointer would go past the end of memory.
    PointerOverflow,
}

/// The result of a machine operation that may fail.
pub type BfResult<T> = Result<T, Error>;

} // verus!
