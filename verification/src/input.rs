//! The input source capability and its fixed-value implementation.

use vstd::prelude::*;

use crate::error::FireplaceError;
use crate::error::FireplaceResult;

verus! {

/// Supplies the raw textual input for one run.
///
/// The dispatcher depends only on this capability, never on a concrete
/// stream type, so an input source can be swapped without touching the
/// dispatch logic. A production implementation reads a byte stream to
/// completion; `FixedInput` below returns a constant. Every implementor
/// fixes its possible outcomes with `loads`, and an implementation may only
/// fail with the I/O kind of the error taxonomy.
pub trait InputReader: Sized {
    /// Which outcomes a load may produce, stated over the text's view.
    spec fn loads(&self, r: FireplaceResult<Seq<char>>) -> bool;

    /// Reads the whole input. Consumes the underlying source: a second
    /// call need not return the same text.
    fn load_fireplace_input(&mut self) -> (r: FireplaceResult<String>)
        ensures
            (r matches Ok(s) ==> old(self).loads(Ok(s@))),
            (r matches Err(e) ==> e matches FireplaceError::IO(_) && old(self).loads(Err(e))),
    ;
}

/// An input source that returns a fixed string and never fails.
pub struct FixedInput {
    pub data: String,
}

impl InputReader for FixedInput {
    open spec fn loads(&self, r: FireplaceResult<Seq<char>>) -> bool {
        r == FireplaceResult::<Seq<char>>::Ok(self.data@)
    }

    fn load_fireplace_input(&mut self) -> (r: FireplaceResult<String>)
        ensures
            r matches Ok(s) && s@ == old(self).data@,
    {
        Ok(self.data.clone())
    }
}

} // verus!
