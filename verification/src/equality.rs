//! Equality of pixels: channel by channel.

use crate::alt::BGR;
use crate::alt::BGRA;
use crate::color::RGB;
use crate::color::RGBA;
use vstd::prelude::*;
use vstd::std_specs::cmp::PartialEqSpec;
use vstd::std_specs::cmp::PartialEqSpecImpl;

verus! {

impl<T: PartialEq> PartialEq for RGB<T> {
    /// Two pixels are equal when each channel of one equals that channel
    /// of the other.
    fn eq(&self, other: &Self) -> (e: bool) {
        self.r == other.r
            && self.g == other.g
            && self.b == other.b
    }
}

impl<T: PartialEq> PartialEqSpecImpl for RGB<T> {
    open spec fn obeys_eq_spec() -> bool {
        T::obeys_eq_spec()
    }

    open spec fn eq_spec(&self, other: &Self) -> bool {
        &&& self.r.eq_spec(&other.r)
        &&& self.g.eq_spec(&other.g)
        &&& self.b.eq_spec(&other.b)
    }
}

impl<T: PartialEq, A: PartialEq> PartialEq for RGBA<T, A> {
    /// Two pixels are equal when each channel of one equals that channel
    /// of the other.
    fn eq(&self, other: &Self) -> (e: bool) {
        self.r == other.r
            && self.g == other.g
            && self.b == other.b
            && self.a == other.a
    }
}

impl<T: PartialEq, A: PartialEq> PartialEqSpecImpl for RGBA<T, A> {
    open spec fn obeys_eq_spec() -> bool {
        T::obeys_eq_spec() && A::obeys_eq_spec()
    }

    open spec fn eq_spec(&self, other: &Self) -> bool {
        &&& self.r.eq_spec(&other.r)
        &&& self.g.eq_spec(&other.g)
        &&& self.b.eq_spec(&other.b)
        &&& self.a.eq_spec(&other.a)
    }
}

impl<T: PartialEq> PartialEq for BGR<T> {
    /// Two pixels are equal when each channel of one equals that channel
    /// of the other.
    fn eq(&self, other: &Self) -> (e: bool) {
        self.b == other.b
            && self.g == other.g
            && self.r == other.r
    }
}

impl<T: PartialEq> PartialEqSpecImpl for BGR<T> {
    open spec fn obeys_eq_spec() -> bool {
        T::obeys_eq_spec()
    }

    open spec fn eq_spec(&self, other: &Self) -> bool {
        &&& self.b.eq_spec(&other.b)
        &&& self.g.eq_spec(&other.g)
        &&& self.r.eq_spec(&other.r)
    }
}

impl<T: PartialEq, A: PartialEq> PartialEq for BGRA<T, A> {
    /// Two pixels are equal when each channel of one equals that channel
    /// of the other.
    fn eq(&self, other: &Self) -> (e: bool) {
        self.b == other.b
            && self.g == other.g
            && self.r == other.r
            && self.a == other.a
    }
}

impl<T: PartialEq, A: PartialEq> PartialEqSpecImpl for BGRA<T, A> {
    open spec fn obeys_eq_spec() -> bool {
        T::obeys_eq_spec() && A::obeys_eq_spec()
    }

    open spec fn eq_spec(&self, other: &Self) -> bool {
        &&& self.b.eq_spec(&other.b)
        &&& self.g.eq_spec(&other.g)
        &&& self.r.eq_spec(&other.r)
        &&& self.a.eq_spec(&other.a)
    }
}

} // verus!
