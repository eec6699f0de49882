//! Small font-selection helpers that sit beside the scheduler in the same
//! code base: access to a raw font table, the scope of a font search, and
//! the text-shaping performance counter.

use vstd::prelude::*;

verus! {

/// Access to the raw bytes of a font table. Platform font backends
/// implement this for their own table types.
pub trait FontTableMethods {
    fn buffer(&self) -> &[u8];
}

/// The scope within which a font lookup will search.
#[derive(Clone, Copy, Debug, PartialEq, Eq, Structural)]
pub enum FontSearchScope {
    /// All fonts are searched, including web fonts.
    Any,
    /// Only local system fonts are searched.
    Local,
}

/// Reads the text-shaping performance counter and resets it to zero,
/// returning the value it held. The counter itself is owned by the caller:
/// the shaping code increments it, diagnostics drain it through this
/// function.
pub fn get_and_reset_text_shaping_performance_counter(counter: &mut usize) -> (value: usize)
    ensures
        value == *old(counter),
        *final(counter) == 0,
{
    let value = *counter;
    *counter = 0;
    value
}

} // verus!
