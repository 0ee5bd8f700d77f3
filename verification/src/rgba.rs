//! Operations on the four-channel pixel stored red first.

use crate::channel::ByteChannel;
use crate::color::RGB;
use crate::color::RGBA;
use crate::pixel::ComponentBytes;
use crate::pixel::ComponentMap;
use crate::pixel::ComponentSlice;
use crate::pixel::RgbMut;
use vstd::prelude::*;
use vstd::std_specs::convert::FromSpec;

verus! {

impl<T> RGBA<T> {
    /// Builds a pixel from its four channels.
    #[inline(always)]
    pub fn new(r: T, g: T, b: T, a: T) -> (px: Self)
        ensures
            px == (RGBA { r, g, b, a }),
    {
        Self { r, g, b, a }
    }
}

impl<T: Copy> RGBA<T> {
    /// The pixel whose channels, in storage order, are the first four of
    /// `channels`.
    pub open spec fn from_components(channels: Seq<T>) -> Self {
        RGBA { r: channels[0], g: channels[1], b: channels[2], a: channels[3] }
    }

    /// Builds a pixel from the first four items of `items`, taken in
    /// storage order. Items after the fourth are ignored.
    #[inline(always)]
    pub fn from_iter(items: &[T]) -> (px: Self)
        requires
            items@.len() >= 4,
        ensures
            px == Self::from_components(items@),
    {
        Self { r: items[0], g: items[1], b: items[2], a: items[3] }
    }

    /// All four channels, in storage order.
    #[inline(always)]
    pub fn iter(&self) -> (items: Vec<T>)
        ensures
            items@ == self.components(),
    {
        self.as_slice()
    }
}

impl<T: Copy, A> RGBA<T, A> {
    /// A copy of the colour channels, without alpha.
    #[inline(always)]
    pub fn rgb(&self) -> (c: RGB<T>)
        ensures
            c == (RGB { r: self.r, g: self.g, b: self.b }),
    {
        RGB { r: self.r, g: self.g, b: self.b }
    }
}

impl<T, A> RGBA<T, A> {
    /// Hands out the three colour channels for writing in place. What is
    /// written through the handles is the pixel's colour once they are
    /// given up; alpha stays as it was.
    #[inline(always)]
    pub fn rgb_mut(&mut self) -> (c: RgbMut<'_, T>)
        ensures
            *c.r == old(self).r,
            *c.g == old(self).g,
            *c.b == old(self).b,
            final(self).r == *final(c.r),
            final(self).g == *final(c.g),
            final(self).b == *final(c.b),
            final(self).a == old(self).a,
    {
        RgbMut { r: &mut self.r, g: &mut self.g, b: &mut self.b }
    }
}

impl<T: Copy, A: Copy> RGBA<T, A> {
    /// Whether `px` is a possible result of `map_rgb` on `self` with `f`:
    /// each colour channel is what `f` gave for that channel of `self`,
    /// and alpha is what `From` gave for the alpha of `self`.
    pub open spec fn maps_rgb_to<F, U, B>(&self, f: F, px: RGBA<U, B>) -> bool where
        F: FnMut(T) -> U,
        B: From<A>,
    {
        &&& call_ensures(f, (self.r,), px.r)
        &&& call_ensures(f, (self.g,), px.g)
        &&& call_ensures(f, (self.b,), px.b)
        &&& call_ensures(B::from, (self.a,), px.a)
        &&& B::obeys_from_spec() ==> px.a == B::from_spec(self.a)
    }

    /// A pixel whose colour channels are what `f` gave for those of `self`,
    /// and whose alpha is that of `self`, converted to `B` by `From`. The
    /// function `f` never sees alpha.
    #[inline(always)]
    pub fn map_rgb<F, U, B>(&self, f: F) -> (px: RGBA<U, B>) where
        F: FnMut(T) -> U,
        B: From<A>,

        requires
            call_requires(f, (self.r,)),
            call_requires(f, (self.g,)),
            call_requires(f, (self.b,)),
        ensures
            self.maps_rgb_to(f, px),
    {
        self.rgb().map(f).new_alpha(B::from(self.a))
    }
}

impl<T: Copy, B> ComponentMap<RGBA<B>, T, B> for RGBA<T> {
    open spec fn source_channels(&self) -> Seq<T> {
        seq![self.r, self.g, self.b, self.a]
    }

    open spec fn dest_channels(dest: RGBA<B>) -> Seq<B> {
        seq![dest.r, dest.g, dest.b, dest.a]
    }

    #[inline(always)]
    fn map<F>(&self, mut f: F) -> (dest: RGBA<B>) where F: FnMut(T) -> B
        ensures
            call_ensures(f, (self.r,), dest.r),
            call_ensures(f, (self.g,), dest.g),
            call_ensures(f, (self.b,), dest.b),
            call_ensures(f, (self.a,), dest.a),
    {
        proof {
            let src = <Self as ComponentMap<RGBA<B>, T, B>>::source_channels(self);
            assert(src[0] == self.r && src[1] == self.g && src[2] == self.b && src[3] == self.a);
        }
        RGBA { r: f(self.r), g: f(self.g), b: f(self.b), a: f(self.a) }
    }
}

impl<T: Copy> ComponentSlice<T> for RGBA<T> {
    open spec fn components(&self) -> Seq<T> {
        seq![self.r, self.g, self.b, self.a]
    }

    #[inline(always)]
    fn as_slice(&self) -> (flat: Vec<T>) {
        let mut flat: Vec<T> = Vec::new();
        flat.push(self.r);
        flat.push(self.g);
        flat.push(self.b);
        flat.push(self.a);
        assert(flat@ =~= self.components());
        flat
    }

    #[inline(always)]
    fn component_mut(&mut self, i: usize) -> (ch: &mut T) {
        if i == 0 {
            &mut self.r
        } else if i == 1 {
            &mut self.g
        } else if i == 2 {
            &mut self.b
        } else {
            &mut self.a
        }
    }
}

impl<T: Copy> ComponentSlice<T> for [RGBA<T>] {
    open spec fn components(&self) -> Seq<T> {
        Seq::new(4 * self@.len(), |k: int| self@[k / 4].components()[k % 4])
    }

    #[inline]
    fn as_slice(&self) -> (flat: Vec<T>) {
        let mut flat: Vec<T> = Vec::new();
        let mut i: usize = 0;
        while i < self.len()
            invariant
                i <= self@.len(),
                flat@.len() == 4 * i,
                forall|k: int|
                    0 <= k < 4 * i ==> #[trigger] flat@[k] == self@[k / 4].components()[k % 4],
            decreases self@.len() - i,
        {
            let px = &self[i];
            flat.push(px.r);
            flat.push(px.g);
            flat.push(px.b);
            flat.push(px.a);
            i += 1;
        }
        assert(flat@ =~= self.components());
        flat
    }

    /// Besides what every flat view promises: the run keeps its length,
    /// every other pixel stays as it was, and within the pixel that holds
    /// channel `i` only that channel changes.
    #[inline]
    fn component_mut(&mut self, i: usize) -> (ch: &mut T)
        ensures
            final(self)@.len() == old(self)@.len(),
            forall|j: int|
                0 <= j < old(self)@.len() && j != i / 4 ==> #[trigger] final(self)@[j] == old(
                    self,
                )@[j],
            final(self)@[i as int / 4].components() == old(self)@[i as int
                / 4].components().update(i as int % 4, *final(ch)),
    {
        let px = &mut self[i / 4];
        px.component_mut(i % 4)
    }
}

impl<T: ByteChannel> ComponentBytes<T> for [RGBA<T>] {
}

} // verus!
