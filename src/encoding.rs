//! Number and gamma encodings of color components.
use vstd::prelude::*;

pub mod linear;

pub use linear::{Linear, LinearFn};

verus! {

/// A transfer function to and from linear space.
pub trait TransferFn {
    /// Convert the color component `x` from the encoding to linear space.
    fn into_linear<T>(x: T) -> T;

    /// Convert the color component `x` from linear space to the encoding.
    fn from_linear<T>(x: T) -> T;
}

} // verus!
