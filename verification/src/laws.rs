//! Laws that relate the operations on pixels to each other.

use crate::alt::BGR;
use crate::alt::BGRA;
use crate::channel::low_first;
use crate::channel::stored;
use crate::channel::ByteChannel;
use crate::channel::ByteOrder;
use crate::color::RGB;
use crate::color::RGBA;
use crate::pixel::holds_channels;
use crate::pixel::ComponentSlice;
use std::cmp::Ordering;
use vstd::prelude::*;
use vstd::std_specs::cmp::PartialOrdSpec;
use vstd::std_specs::convert::FromSpec;

verus! {

/// Flattening a pixel and building a pixel from the flat channels gives
/// the pixel back.
pub proof fn rgba_round_trip<T: Copy>(px: RGBA<T>)
    ensures
        px.components().len() == 4,
        RGBA::from_components(px.components()) == px,
{
}

/// Flattening a pixel and building a pixel from the flat channels gives
/// the pixel back.
pub proof fn bgra_round_trip<T: Copy>(px: BGRA<T>)
    ensures
        px.components().len() == 4,
        BGRA::from_components(px.components()) == px,
{
}

/// The flat view of a run of pixels has four channels per pixel, and the
/// four that start at `4 * n` are those of pixel `n`.
pub proof fn rgba_run_is_row_major<T: Copy>(run: &[RGBA<T>], n: int)
    requires
        0 <= n < run@.len(),
    ensures
        run.components().len() == 4 * run@.len(),
        run.components().subrange(4 * n, 4 * n + 4) == run@[n].components(),
{
    assert(run.components().subrange(4 * n, 4 * n + 4) =~= run@[n].components());
}

/// The flat view of a run of pixels has four channels per pixel, and the
/// four that start at `4 * n` are those of pixel `n`.
pub proof fn bgra_run_is_row_major<T: Copy>(run: &[BGRA<T>], n: int)
    requires
        0 <= n < run@.len(),
    ensures
        run.components().len() == 4 * run@.len(),
        run.components().subrange(4 * n, 4 * n + 4) == run@[n].components(),
{
    assert(run.components().subrange(4 * n, 4 * n + 4) =~= run@[n].components());
}

/// Flattening a pixel and building a pixel from the flat channels gives
/// the pixel back.
pub proof fn rgb_round_trip<T: Copy>(px: RGB<T>)
    ensures
        px.components().len() == 3,
        RGB::from_components(px.components()) == px,
{
}

/// Flattening a pixel and building a pixel from the flat channels gives
/// the pixel back.
pub proof fn bgr_round_trip<T: Copy>(px: BGR<T>)
    ensures
        px.components().len() == 3,
        BGR::from_components(px.components()) == px,
{
}

/// The flat view of a run of pixels has three channels per pixel, and the
/// three that start at `3 * n` are those of pixel `n`.
pub proof fn rgb_run_is_row_major<T: Copy>(run: &[RGB<T>], n: int)
    requires
        0 <= n < run@.len(),
    ensures
        run.components().len() == 3 * run@.len(),
        run.components().subrange(3 * n, 3 * n + 3) == run@[n].components(),
{
    assert(run.components().subrange(3 * n, 3 * n + 3) =~= run@[n].components());
}

/// The flat view of a run of pixels has three channels per pixel, and the
/// three that start at `3 * n` are those of pixel `n`.
pub proof fn bgr_run_is_row_major<T: Copy>(run: &[BGR<T>], n: int)
    requires
        0 <= n < run@.len(),
    ensures
        run.components().len() == 3 * run@.len(),
        run.components().subrange(3 * n, 3 * n + 3) == run@[n].components(),
{
    assert(run.components().subrange(3 * n, 3 * n + 3) =~= run@[n].components());
}

/// The byte view of channels of one byte each is the channels themselves,
/// in the same order, whatever the byte order.
pub proof fn byte_view_of_u8_is_the_channels(bytes: Seq<u8>, channels: Seq<u8>, order: ByteOrder)
    requires
        holds_channels(bytes, channels, order),
    ensures
        bytes == channels,
{
    assert forall|k: int| 0 <= k < channels.len() implies bytes[k] == channels[k] by {
        let at_k = bytes.subrange(k * 1, k * 1 + 1);
        let value = channels[k].bits();
        assert(at_k == stored(value, 1, order));
        assert(at_k[0] == bytes[k]);
        reveal_with_fuel(low_first, 2);
        assert(low_first(value, 1)[0] == channels[k]);
    }
    assert(bytes =~= channels);
}

/// The two bytes that hold a sixteen-bit channel are its low byte and its
/// high byte, in the order that the byte order names.
pub proof fn u16_is_stored_as_low_and_high_byte(x: u16)
    ensures
        stored(x.bits(), 2, ByteOrder::LittleEndian) == seq![(x % 256) as u8, (x / 256) as u8],
        stored(x.bits(), 2, ByteOrder::BigEndian) == seq![(x / 256) as u8, (x % 256) as u8],
{
    reveal_with_fuel(low_first, 3);
    assert(stored(x.bits(), 2, ByteOrder::LittleEndian) =~= seq![
        (x % 256) as u8,
        (x / 256) as u8,
    ]);
    assert(stored(x.bits(), 2, ByteOrder::BigEndian) =~= seq![(x / 256) as u8, (x % 256) as u8]);
}

/// The byte view of a run of pixels has three channels' worth of bytes
/// per pixel.
pub proof fn rgb_byte_view_length<T: ByteChannel>(
    run: &[RGB<T>],
    bytes: Seq<u8>,
    order: ByteOrder,
)
    requires
        holds_channels(bytes, run.components(), order),
    ensures
        bytes.len() == run@.len() * 3 * T::width(),
{
    assert(3 * run@.len() * T::width() == run@.len() * 3 * T::width()) by (nonlinear_arith);
}

/// The byte view of a run of pixels has three channels' worth of bytes
/// per pixel.
pub proof fn bgr_byte_view_length<T: ByteChannel>(
    run: &[BGR<T>],
    bytes: Seq<u8>,
    order: ByteOrder,
)
    requires
        holds_channels(bytes, run.components(), order),
    ensures
        bytes.len() == run@.len() * 3 * T::width(),
{
    assert(3 * run@.len() * T::width() == run@.len() * 3 * T::width()) by (nonlinear_arith);
}

/// The byte view of a run of pixels has four channels' worth of bytes
/// per pixel.
pub proof fn rgba_byte_view_length<T: ByteChannel>(
    run: &[RGBA<T>],
    bytes: Seq<u8>,
    order: ByteOrder,
)
    requires
        holds_channels(bytes, run.components(), order),
    ensures
        bytes.len() == run@.len() * 4 * T::width(),
{
    assert(4 * run@.len() * T::width() == run@.len() * 4 * T::width()) by (nonlinear_arith);
}

/// The byte view of a run of pixels has four channels' worth of bytes
/// per pixel.
pub proof fn bgra_byte_view_length<T: ByteChannel>(
    run: &[BGRA<T>],
    bytes: Seq<u8>,
    order: ByteOrder,
)
    requires
        holds_channels(bytes, run.components(), order),
    ensures
        bytes.len() == run@.len() * 4 * T::width(),
{
    assert(4 * run@.len() * T::width() == run@.len() * 4 * T::width()) by (nonlinear_arith);
}

/// Where `From` is a function of its argument, the alpha that `map_rgb`
/// gives does not depend on the function that maps the colours: two
/// results for one pixel, under any two functions, have the same alpha.
pub proof fn rgba_map_rgb_alpha_ignores_f<T, A, U, V, B, F, G>(
    src: RGBA<T, A>,
    f: F,
    g: G,
    by_f: RGBA<U, B>,
    by_g: RGBA<V, B>,
) where T: Copy, A: Copy, B: From<A>, F: FnMut(T) -> U, G: FnMut(T) -> V
    requires
        B::obeys_from_spec(),
        src.maps_rgb_to(f, by_f),
        src.maps_rgb_to(g, by_g),
    ensures
        by_f.a == by_g.a,
        by_f.a == B::from_spec(src.a),
{
}

/// Where `From` is a function of its argument, the alpha that `map_rgb`
/// gives does not depend on the function that maps the colours: two
/// results for one pixel, under any two functions, have the same alpha.
pub proof fn bgra_map_rgb_alpha_ignores_f<T, A, U, V, B, F, G>(
    src: BGRA<T, A>,
    f: F,
    g: G,
    by_f: BGRA<U, B>,
    by_g: BGRA<V, B>,
) where T: Copy, A: Copy, B: From<A>, F: FnMut(T) -> U, G: FnMut(T) -> V
    requires
        B::obeys_from_spec(),
        src.maps_rgb_to(f, by_f),
        src.maps_rgb_to(g, by_g),
    ensures
        by_f.a == by_g.a,
        by_f.a == B::from_spec(src.a),
{
}

/// Pixels are ordered by their channels in storage order: the first
/// channel on which two pixels are not equal decides, and red is looked
/// at first.
pub proof fn rgba_order_is_lexicographic<T: PartialOrd, A: PartialOrd>(
    x: RGBA<T, A>,
    y: RGBA<T, A>,
)
    ensures
        x.r.partial_cmp_spec(&y.r) != Some(Ordering::Equal) ==> x.partial_cmp_spec(&y)
            == x.r.partial_cmp_spec(&y.r),
        x.r.partial_cmp_spec(&y.r) == Some(Ordering::Equal) && x.g.partial_cmp_spec(&y.g) != Some(
            Ordering::Equal,
        ) ==> x.partial_cmp_spec(&y) == x.g.partial_cmp_spec(&y.g),
        x.r.partial_cmp_spec(&y.r) == Some(Ordering::Equal) && x.g.partial_cmp_spec(&y.g) == Some(
            Ordering::Equal,
        ) && x.b.partial_cmp_spec(&y.b) != Some(Ordering::Equal) ==> x.partial_cmp_spec(&y)
            == x.b.partial_cmp_spec(&y.b),
        x.r.partial_cmp_spec(&y.r) == Some(Ordering::Equal) && x.g.partial_cmp_spec(&y.g) == Some(
            Ordering::Equal,
        ) && x.b.partial_cmp_spec(&y.b) == Some(Ordering::Equal) ==> x.partial_cmp_spec(&y)
            == x.a.partial_cmp_spec(&y.a),
{
}

/// Pixels are ordered by their channels in storage order: the first
/// channel on which two pixels are not equal decides, and blue is looked
/// at first.
pub proof fn bgra_order_is_lexicographic<T: PartialOrd, A: PartialOrd>(
    x: BGRA<T, A>,
    y: BGRA<T, A>,
)
    ensures
        x.b.partial_cmp_spec(&y.b) != Some(Ordering::Equal) ==> x.partial_cmp_spec(&y)
            == x.b.partial_cmp_spec(&y.b),
        x.b.partial_cmp_spec(&y.b) == Some(Ordering::Equal) && x.g.partial_cmp_spec(&y.g) != Some(
            Ordering::Equal,
        ) ==> x.partial_cmp_spec(&y) == x.g.partial_cmp_spec(&y.g),
        x.b.partial_cmp_spec(&y.b) == Some(Ordering::Equal) && x.g.partial_cmp_spec(&y.g) == Some(
            Ordering::Equal,
        ) && x.r.partial_cmp_spec(&y.r) != Some(Ordering::Equal) ==> x.partial_cmp_spec(&y)
            == x.r.partial_cmp_spec(&y.r),
        x.b.partial_cmp_spec(&y.b) == Some(Ordering::Equal) && x.g.partial_cmp_spec(&y.g) == Some(
            Ordering::Equal,
        ) && x.r.partial_cmp_spec(&y.r) == Some(Ordering::Equal) ==> x.partial_cmp_spec(&y)
            == x.a.partial_cmp_spec(&y.a),
{
}

/// A four-channel pixel of signed integers whose first stored channel is
/// greater than that of another is not less than it, whatever the other
/// channels hold.
pub proof fn rgba_greater_red_is_not_less(x: RGBA<i32>, y: RGBA<i32>)
    requires
        x.r > y.r,
    ensures
        x.partial_cmp_spec(&y) == Some(Ordering::Greater),
{
}

} // verus!
