//! The offset between the kernel's key codes and the codes the layout
//! library counts with.

use vstd::prelude::*;

verus! {

/// Translates a kernel key code into the layout library's numbering, which
/// starts eight above it.
pub fn internal_to_xkb_keycode(internal_code: u32) -> (r: u32)
    requires
        internal_code + 8 <= u32::MAX,
    ensures
        r == internal_code + 8,
{
    internal_code + 8
}

} // verus!
