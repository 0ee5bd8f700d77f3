//! Pixel values stored blue first.

use vstd::prelude::*;

verus! {

/// A pixel of three colour channels, stored as blue, green, red.
#[derive(Clone, Copy, Debug, Eq, Ord, Hash, Default)]
pub struct BGR<T> {
    pub b: T,
    pub g: T,
    pub r: T,
}

/// A pixel of three colour channels and an alpha channel, stored as blue,
/// green, red, alpha. The alpha channel may have a type of its own.
#[derive(Clone, Copy, Debug, Eq, Ord, Hash, Default)]
pub struct BGRA<T, A = T> {
    pub b: T,
    pub g: T,
    pub r: T,
    pub a: A,
}

} // verus!
