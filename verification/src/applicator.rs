//! Overwriting a range of a buffer with a patch.

use vstd::prelude::*;

use crate::error::PatchError;

verus! {

/// Whether a patch of `len` bytes placed at `offset` lies inside a buffer of
/// `size` bytes.
pub open spec fn patch_fits(size: nat, offset: nat, len: nat) -> bool {
    offset + len <= size
}

/// A buffer with the bytes `offset .. offset + patch.len()` replaced by the
/// patch. Every other byte is the buffer's own.
pub open spec fn patched(buffer: Seq<u8>, offset: int, patch: Seq<u8>) -> Seq<u8> {
    Seq::new(
        buffer.len(),
        |i: int| if offset <= i < offset + patch.len() {
            patch[i - offset]
        } else {
            buffer[i]
        },
    )
}

/// Overwrites `buffer[offset .. offset + patch.len()]` with `patch`, byte for
/// byte. A patch that does not fit is refused and the buffer is left as it
/// was: a patch is never cut short.
pub fn apply_patch(buffer: &mut Vec<u8>, offset: usize, patch: &[u8]) -> (r: Result<
    (),
    PatchError,
>)
    ensures
        match r {
            Ok(_) => patch_fits(old(buffer)@.len(), offset as nat, patch@.len())
                && final(buffer)@ == patched(old(buffer)@, offset as int, patch@),
            Err(e) => !patch_fits(old(buffer)@.len(), offset as nat, patch@.len())
                && e == PatchError::OutOfBounds && final(buffer)@ == old(buffer)@,
        },
{
    let size: usize = buffer.len();
    let len: usize = patch.len();
    if len > size || offset > size - len {
        return Err(PatchError::OutOfBounds);
    }
    let mut k: usize = 0;
    while k < len
        invariant
            len == patch@.len(),
            size == old(buffer)@.len(),
            buffer@.len() == size,
            offset + len <= size,
            k <= len,
            forall|i: int|
                0 <= i < size ==> #[trigger] buffer@[i] == if offset <= i < offset + k {
                    patch@[i - offset]
                } else {
                    old(buffer)@[i]
                },
        decreases len - k,
    {
        buffer.set(offset + k, patch[k]);
        k += 1;
    }
    assert(buffer@ =~= patched(old(buffer)@, offset as int, patch@));
    Ok(())
}

/// A patch changes the bytes it covers and no others: the result has the
/// buffer's length, holds the patch from `offset` on, and agrees with the
/// buffer everywhere else.
pub proof fn patch_is_local(buffer: Seq<u8>, offset: nat, patch: Seq<u8>)
    requires
        patch_fits(buffer.len(), offset, patch.len()),
    ensures
        patched(buffer, offset as int, patch).len() == buffer.len(),
        patched(buffer, offset as int, patch).subrange(
            offset as int,
            (offset + patch.len()) as int,
        ) == patch,
        forall|i: int|
            0 <= i < buffer.len() && !(offset <= i < offset + patch.len()) ==> patched(
                buffer,
                offset as int,
                patch,
            )[i] == buffer[i],
{
    assert(patched(buffer, offset as int, patch).subrange(
        offset as int,
        (offset + patch.len()) as int,
    )
        =~= patch);
}

} // verus!
