//! Pixel values stored red first.

use vstd::prelude::*;

verus! {

/// A pixel of three colour channels, stored as red, green, blue.
#[derive(Clone, Copy, Debug, Eq, Ord, Hash, Default)]
pub struct RGB<T> {
    pub r: T,
    pub g: T,
    pub b: T,
}

/// A pixel of three colour channels and an alpha channel, stored as red,
/// green, blue, alpha. The alpha channel may have a type of its own.
#[derive(Clone, Copy, Debug, Eq, Ord, Hash, Default)]
pub struct RGBA<T, A = T> {
    pub r: T,
    pub g: T,
    pub b: T,
    pub a: A,
}

} // verus!
