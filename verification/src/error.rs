//! The ways in which patching an image can fail.

use vstd::prelude::*;

verus! {

/// A fatal failure of the engine. None of them is recoverable: the operation
/// that reports one has produced nothing usable.
#[derive(Debug, Clone, Copy, PartialEq, Eq, Structural)]
pub enum PatchError {
    /// A payload has odd length or holds a character that is no hex digit.
    MalformedHex,
    /// A patch would run past the end of the buffer.
    OutOfBounds,
    /// The source image is larger than the fixed size of the patched image.
    OversizedImage,
    /// A feature that is not optional was asked to change its state.
    IllegalToggle,
}

} // verus!
