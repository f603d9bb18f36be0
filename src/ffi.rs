use vstd::prelude::*;

verus! {

/// A host-side wrapper around one native token: an address that the host
/// never dereferences and only hands back to the native entry points.
pub trait AsTypeRef {
    spec fn type_ref(&self) -> usize;

    /// The native token.
    fn as_type_ref(&self) -> (r: usize)
        ensures
            r == self.type_ref(),
    ;
}

} // verus!
