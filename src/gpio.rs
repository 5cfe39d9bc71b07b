//! Pin electrical modes carried in a pin's type: only a pin whose type says
//! output offers a write.
use vstd::prelude::*;
use core::marker::PhantomData;

verus! {

/// A GPIO port that splits into its individual pins.
pub trait GpioExt {
    type Parts;

    fn split(self) -> Self::Parts;
}

/// Pin disabled.
pub struct Disabled;

/// Output driven both high and low.
pub struct PushPull;

/// Output driven low only (open drain).
pub struct WiredAnd;

pub type OpenDrain = WiredAnd;

/// Input pin in mode `MODE`.
pub struct Input<MODE>(pub PhantomData<MODE>);

/// Output pin in mode `MODE`.
pub struct Output<MODE>(pub PhantomData<MODE>);

} // verus!
