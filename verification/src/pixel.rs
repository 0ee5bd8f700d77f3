//! Views that every pixel type offers: its channels as one flat sequence,
//! as bytes, and mapped through a function.

use crate::channel::native_order;
use crate::channel::push_stored;
use crate::channel::stored;
use crate::channel::stored_len;
use crate::channel::ByteChannel;
use crate::channel::ByteOrder;
use vstd::prelude::*;

verus! {

/// A value, or a run of values, whose channels can be read and written as
/// one flat sequence in storage order.
pub trait ComponentSlice<T: Copy> {
    /// The channels in storage order: those of the first pixel, then those
    /// of the second, and so on.
    spec fn components(&self) -> Seq<T>;

    /// Copies the channels out, in storage order.
    fn as_slice(&self) -> (flat: Vec<T>)
        ensures
            flat@ == self.components(),
    ;

    /// Hands out the channel at position `i` of the flat sequence for
    /// reading and writing in place. No other channel changes.
    fn component_mut(&mut self, i: usize) -> (ch: &mut T)
        requires
            i < old(self).components().len(),
        ensures
            *ch == old(self).components()[i as int],
            final(self).components() == old(self).components().update(i as int, *final(ch)),
    ;
}

/// Three handles on the colour channels of one four-channel pixel, for
/// writing them in place. The pixel's alpha channel is out of their reach.
pub struct RgbMut<'a, T> {
    pub r: &'a mut T,
    pub g: &'a mut T,
    pub b: &'a mut T,
}

/// A pixel type whose channels can all be sent through one function, giving
/// a pixel of the same shape with channels of another type.
pub trait ComponentMap<DestPixel, SrcComponent, DestComponent> {
    /// The channels that `map` reads, in storage order.
    spec fn source_channels(&self) -> Seq<SrcComponent>;

    /// The channels of a mapped pixel, in storage order.
    spec fn dest_channels(dest: DestPixel) -> Seq<DestComponent>;

    /// Applies `f` to every channel, alpha included. Channel `k` of the
    /// result is what `f` gave for channel `k` of `self`.
    fn map<F>(&self, f: F) -> (dest: DestPixel) where F: FnMut(SrcComponent) -> DestComponent
        requires
            forall|k: int|
                0 <= k < self.source_channels().len() ==> call_requires(
                    f,
                    (#[trigger] self.source_channels()[k],),
                ),
        ensures
            Self::dest_channels(dest).len() == self.source_channels().len(),
            forall|k: int|
                0 <= k < self.source_channels().len() ==> call_ensures(
                    f,
                    (self.source_channels()[k],),
                    #[trigger] Self::dest_channels(dest)[k],
                ),
    ;
}

/// Whether `bytes` are the channels of `channels` one after the other, each
/// in as many bytes as its type has, stored under `order`.
pub open spec fn holds_channels<T: ByteChannel>(
    bytes: Seq<u8>,
    channels: Seq<T>,
    order: ByteOrder,
) -> bool {
    &&& bytes.len() == channels.len() * T::width()
    &&& forall|k: int|
        0 <= k < channels.len() ==> bytes.subrange(k * T::width(), k * T::width() + T::width())
            == stored((#[trigger] channels[k]).bits(), T::width(), order)
}

/// A run of pixels whose channels have a fixed width, readable as plain
/// bytes.
pub trait ComponentBytes<T: ByteChannel>: ComponentSlice<T> {
    /// Copies the pixels out as the bytes that hold them on a machine of
    /// byte order `order`: the bytes of each channel, channels and pixels
    /// in the order of `components`.
    fn as_bytes_in(&self, order: ByteOrder) -> (bytes: Vec<u8>)
        ensures
            holds_channels(bytes@, self.components(), order),
    {
        let flat = self.as_slice();
        let mut bytes: Vec<u8> = Vec::new();
        let mut k: usize = 0;
        assert(0 * T::width() == 0);
        while k < flat.len()
            invariant
                k <= flat.len(),
                bytes@.len() == k * T::width(),
                forall|j: int|
                    0 <= j < k ==> bytes@.subrange(j * T::width(), j * T::width() + T::width())
                        == stored((#[trigger] flat@[j]).bits(), T::width(), order),
            decreases flat.len() - k,
        {
            let ghost before = bytes@;
            let ghost w = T::width() as int;
            push_stored(&mut bytes, flat[k].to_bits(), T::byte_width(), order);
            proof {
                stored_len(flat@[k as int].bits(), T::width(), order);
                assert(k * w + w == (k + 1) * w) by (nonlinear_arith);
                assert forall|j: int| 0 <= j < k + 1 implies bytes@.subrange(j * w, j * w + w)
                    == stored((#[trigger] flat@[j]).bits(), T::width(), order) by {
                    if j < k {
                        assert(0 <= j * w && j * w + w <= k * w) by (nonlinear_arith)
                            requires
                                0 <= j < k,
                                0 <= w,
                        ;
                        assert(bytes@.subrange(j * w, j * w + w) =~= before.subrange(
                            j * w,
                            j * w + w,
                        ));
                    } else {
                        assert(bytes@.subrange(j * w, j * w + w) =~= stored(
                            flat@[j].bits(),
                            T::width(),
                            order,
                        ));
                    }
                }
            }
            k += 1;
        }
        bytes
    }

    /// Copies the pixels out as the bytes that hold them on this machine.
    /// Its byte order is one of the two, and the same for every channel.
    fn as_bytes(&self) -> (bytes: Vec<u8>)
        ensures
            holds_channels(bytes@, self.components(), ByteOrder::LittleEndian) || holds_channels(
                bytes@,
                self.components(),
                ByteOrder::BigEndian,
            ),
    {
        let order = native_order();
        self.as_bytes_in(order)
    }
}

} // verus!
