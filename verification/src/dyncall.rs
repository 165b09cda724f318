//! A single-method call abstraction: the lightweight alternative to a full
//! virtual-dispatch reference, for components that only ever need one
//! entry point of their collaborator.

use vstd::prelude::*;

verus! {

/// A method on a type: the one entry point a caller holding this capability
/// may invoke.
pub trait Callable<Args, Return> {
    /// Invokes the method with `args`.
    fn call(&mut self, args: Args) -> Return;
}

} // verus!
