//! Operations on the three-channel pixel stored blue first.

use crate::alt::BGR;
use crate::alt::BGRA;
use crate::channel::ByteChannel;
use crate::pixel::ComponentBytes;
use crate::pixel::ComponentMap;
use crate::pixel::ComponentSlice;
use vstd::prelude::*;

verus! {

impl<T: Copy> BGR<T> {
    /// The pixel whose channels, in storage order, are the first three of
    /// `channels`.
    pub open spec fn from_components(channels: Seq<T>) -> Self {
        BGR { b: channels[0], g: channels[1], r: channels[2] }
    }

    /// Builds a pixel from the first three items of `items`, taken in
    /// storage order. Items after the third are ignored.
    #[inline(always)]
    pub fn from_iter(items: &[T]) -> (px: Self)
        requires
            items@.len() >= 3,
        ensures
            px == Self::from_components(items@),
    {
        Self { b: items[0], g: items[1], r: items[2] }
    }

    /// All three channels, in storage order.
    #[inline(always)]
    pub fn iter(&self) -> (items: Vec<T>)
        ensures
            items@ == self.components(),
    {
        self.as_slice()
    }
}

impl<T> BGR<T> {
    /// The same colour with `a` as its alpha channel.
    #[inline(always)]
    pub fn new_alpha<A>(self, a: A) -> (px: BGRA<T, A>)
        ensures
            px == (BGRA { r: self.r, g: self.g, b: self.b, a }),
    {
        BGRA { r: self.r, g: self.g, b: self.b, a }
    }
}

impl<T: Copy, B> ComponentMap<BGR<B>, T, B> for BGR<T> {
    open spec fn source_channels(&self) -> Seq<T> {
        seq![self.b, self.g, self.r]
    }

    open spec fn dest_channels(dest: BGR<B>) -> Seq<B> {
        seq![dest.b, dest.g, dest.r]
    }

    #[inline(always)]
    fn map<F>(&self, mut f: F) -> (dest: BGR<B>) where F: FnMut(T) -> B
        ensures
            call_ensures(f, (self.r,), dest.r),
            call_ensures(f, (self.g,), dest.g),
            call_ensures(f, (self.b,), dest.b),
    {
        proof {
            let src = <Self as ComponentMap<BGR<B>, T, B>>::source_channels(self);
            assert(src[0] == self.b && src[1] == self.g && src[2] == self.r);
        }
        BGR { r: f(self.r), g: f(self.g), b: f(self.b) }
    }
}

impl<T: Copy> ComponentSlice<T> for BGR<T> {
    open spec fn components(&self) -> Seq<T> {
        seq![self.b, self.g, self.r]
    }

    #[inline(always)]
    fn as_slice(&self) -> (flat: Vec<T>) {
        let mut flat: Vec<T> = Vec::new();
        flat.push(self.b);
        flat.push(self.g);
        flat.push(self.r);
        assert(flat@ =~= self.components());
        flat
    }

    #[inline(always)]
    fn component_mut(&mut self, i: usize) -> (ch: &mut T) {
        if i == 0 {
            &mut self.b
        } else if i == 1 {
            &mut self.g
        } else {
            &mut self.r
        }
    }
}

impl<T: Copy> ComponentSlice<T> for [BGR<T>] {
    open spec fn components(&self) -> Seq<T> {
        Seq::new(3 * self@.len(), |k: int| self@[k / 3].components()[k % 3])
    }

    #[inline]
    fn as_slice(&self) -> (flat: Vec<T>) {
        let mut flat: Vec<T> = Vec::new();
        let mut i: usize = 0;
        while i < self.len()
            invariant
                i <= self@.len(),
                flat@.len() == 3 * i,
                forall|k: int|
                    0 <= k < 3 * i ==> #[trigger] flat@[k] == self@[k / 3].components()[k % 3],
            decreases self@.len() - i,
        {
            let px = &self[i];
            flat.push(px.b);
            flat.push(px.g);
            flat.push(px.r);
            i += 1;
        }
        assert(flat@ =~= self.components());
        flat
    }

    /// Besides what every flat view promises: the run keeps its length,
    /// every other pixel stays as it was, and within the pixel that holds
    /// channel `i` only that channel changes.
    #[inline]
    fn component_mut(&mut self, i: usize) -> (ch: &mut T)
        ensures
            final(self)@.len() == old(self)@.len(),
            forall|j: int|
                0 <= j < old(self)@.len() && j != i / 3 ==> #[trigger] final(self)@[j] == old(
                    self,
                )@[j],
            final(self)@[i as int / 3].components() == old(self)@[i as int
                / 3].components().update(i as int % 3, *final(ch)),
    {
        let px = &mut self[i / 3];
        px.component_mut(i % 3)
    }
}

impl<T: ByteChannel> ComponentBytes<T> for [BGR<T>] {
}

} // verus!
