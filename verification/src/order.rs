//! The order of pixels: channel by channel, in storage order.

use crate::alt::BGR;
use crate::alt::BGRA;
use crate::color::RGB;
use crate::color::RGBA;
use std::cmp::Ordering;
use vstd::prelude::*;
use vstd::std_specs::cmp::PartialOrdSpec;
use vstd::std_specs::cmp::PartialOrdSpecImpl;

verus! {

/// `first`, unless it says that the two sides are equal: then `rest`.
pub open spec fn then_partial_spec(first: Option<Ordering>, rest: Option<Ordering>) -> Option<
    Ordering,
> {
    match first {
        Some(Ordering::Equal) => rest,
        _ => first,
    }
}

/// `first`, unless it says that the two sides are equal: then `rest`.
pub fn then_partial(first: Option<Ordering>, rest: Option<Ordering>) -> (o: Option<Ordering>)
    ensures
        o == then_partial_spec(first, rest),
{
    match first {
        Some(Ordering::Equal) => rest,
        _ => first,
    }
}

impl<T: PartialOrd> PartialOrd for RGB<T> {
    /// Compares channel by channel in storage order: the first channel on
    /// which the two pixels differ decides.
    fn partial_cmp(&self, other: &Self) -> (o: Option<Ordering>) {
        let by_r = self.r.partial_cmp(&other.r);
        let by_g = self.g.partial_cmp(&other.g);
        let by_b = self.b.partial_cmp(&other.b);
        then_partial(by_r, then_partial(by_g, by_b))
    }
}

impl<T: PartialOrd> PartialOrdSpecImpl for RGB<T> {
    open spec fn obeys_partial_cmp_spec() -> bool {
        T::obeys_partial_cmp_spec()
    }

    open spec fn partial_cmp_spec(&self, other: &Self) -> Option<Ordering> {
        then_partial_spec(
            self.r.partial_cmp_spec(&other.r),
            then_partial_spec(
                self.g.partial_cmp_spec(&other.g),
                self.b.partial_cmp_spec(&other.b),
            ),
        )
    }
}

impl<T: PartialOrd, A: PartialOrd> PartialOrd for RGBA<T, A> {
    /// Compares channel by channel in storage order: the first channel on
    /// which the two pixels differ decides.
    fn partial_cmp(&self, other: &Self) -> (o: Option<Ordering>) {
        let by_r = self.r.partial_cmp(&other.r);
        let by_g = self.g.partial_cmp(&other.g);
        let by_b = self.b.partial_cmp(&other.b);
        let by_a = self.a.partial_cmp(&other.a);
        then_partial(by_r, then_partial(by_g, then_partial(by_b, by_a)))
    }
}

impl<T: PartialOrd, A: PartialOrd> PartialOrdSpecImpl for RGBA<T, A> {
    open spec fn obeys_partial_cmp_spec() -> bool {
        T::obeys_partial_cmp_spec() && A::obeys_partial_cmp_spec()
    }

    open spec fn partial_cmp_spec(&self, other: &Self) -> Option<Ordering> {
        then_partial_spec(
            self.r.partial_cmp_spec(&other.r),
            then_partial_spec(
                self.g.partial_cmp_spec(&other.g),
                then_partial_spec(
                    self.b.partial_cmp_spec(&other.b),
                    self.a.partial_cmp_spec(&other.a),
                ),
            ),
        )
    }
}

impl<T: PartialOrd> PartialOrd for BGR<T> {
    /// Compares channel by channel in storage order: the first channel on
    /// which the two pixels differ decides.
    fn partial_cmp(&self, other: &Self) -> (o: Option<Ordering>) {
        let by_b = self.b.partial_cmp(&other.b);
        let by_g = self.g.partial_cmp(&other.g);
        let by_r = self.r.partial_cmp(&other.r);
        then_partial(by_b, then_partial(by_g, by_r))
    }
}

impl<T: PartialOrd> PartialOrdSpecImpl for BGR<T> {
    open spec fn obeys_partial_cmp_spec() -> bool {
        T::obeys_partial_cmp_spec()
    }

    open spec fn partial_cmp_spec(&self, other: &Self) -> Option<Ordering> {
        then_partial_spec(
            self.b.partial_cmp_spec(&other.b),
            then_partial_spec(
                self.g.partial_cmp_spec(&other.g),
                self.r.partial_cmp_spec(&other.r),
            ),
        )
    }
}

impl<T: PartialOrd, A: PartialOrd> PartialOrd for BGRA<T, A> {
    /// Compares channel by channel in storage order: the first channel on
    /// which the two pixels differ decides.
    fn partial_cmp(&self, other: &Self) -> (o: Option<Ordering>) {
        let by_b = self.b.partial_cmp(&other.b);
        let by_g = self.g.partial_cmp(&other.g);
        let by_r = self.r.partial_cmp(&other.r);
        let by_a = self.a.partial_cmp(&other.a);
        then_partial(by_b, then_partial(by_g, then_partial(by_r, by_a)))
    }
}

impl<T: PartialOrd, A: PartialOrd> PartialOrdSpecImpl for BGRA<T, A> {
    open spec fn obeys_partial_cmp_spec() -> bool {
        T::obeys_partial_cmp_spec() && A::obeys_partial_cmp_spec()
    }

    open spec fn partial_cmp_spec(&self, other: &Self) -> Option<Ordering> {
        then_partial_spec(
            self.b.partial_cmp_spec(&other.b),
            then_partial_spec(
                self.g.partial_cmp_spec(&other.g),
                then_partial_spec(
                    self.r.partial_cmp_spec(&other.r),
                    self.a.partial_cmp_spec(&other.a),
                ),
            ),
        )
    }
}

} // verus!
