//! Small shared traits.

use vstd::prelude::*;

verus! {

/// A ready-made example value of a type, for exercising the library
/// without loading a configuration document.
pub trait TestSubAble where Self: Sized {
    /// One representative value.
    fn stub() -> Self;
}

} // verus!
