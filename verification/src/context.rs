//! The library's context: it exists while the socket layer is initialised.

use vstd::prelude::*;

use crate::app::Result;

verus! {

/// Proof that the socket layer was initialised.
#[derive(Debug, PartialEq, Eq, Structural)]
pub struct Context;

impl Context {
    /// The context, given the outcome of initialising the socket layer:
    /// the context where initialisation succeeded, else its error code.
    pub fn new(startup: Result<()>) -> (r: Result<Context>)
        ensures
            startup is Ok ==> r == Ok::<Context, u32>(Context),
            startup matches Err(code) ==> r == Err::<Context, u32>(code),
    {
        if let Err(code) = startup {
            return Err(code);
        }
        Ok(Context)
    }
}

} // verus!
