//! Linear encoding
use vstd::prelude::*;
use core::marker::PhantomData;
use crate::encoding::TransferFn;

verus! {

/// A generic standard with linear components.
#[derive(Debug, PartialEq, Eq)]
pub struct Linear<S>(pub PhantomData<S>);

impl<S> Clone for Linear<S> {
    fn clone(&self) -> (r: Self) {
        Linear(PhantomData)
    }
}

impl<S> Copy for Linear<S> {
}

/// Linear color component encoding.
#[derive(Copy, Clone, Debug, PartialEq, Eq)]
pub struct LinearFn;

impl TransferFn for LinearFn {
    fn into_linear<T>(x: T) -> (r: T)
        ensures
            r == x,
    {
        x
    }

    fn from_linear<T>(x: T) -> (r: T)
        ensures
            r == x,
    {
        x
    }
}

} // verus!
