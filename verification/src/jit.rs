//! Metadata of the variable store that runs declarations.

use vstd::prelude::*;

verus! {

/// What the store records about a variable besides its value.
#[derive(Clone, Copy, Debug, PartialEq, Eq, Structural)]
pub struct JitMeta {
    /// Whether the variable may be assigned again after its declaration.
    pub is_mut: bool,
}

impl JitMeta {
    /// Metadata of a variable that may (`true`) or may not (`false`) be reassigned.
    pub fn new(is_mut: bool) -> (meta: Self)
        ensures
            meta == (JitMeta { is_mut }),
    {
        Self { is_mut }
    }
}

} // verus!
