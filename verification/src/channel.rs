//! Channels of a fixed width in bytes, and the bytes that hold them in
//! memory.

use vstd::prelude::*;

verus! {

/// The order in which the bytes of a number stand in memory.
#[derive(Clone, Copy, Debug, PartialEq, Eq)]
pub enum ByteOrder {
    /// The lowest byte stands first.
    LittleEndian,
    /// The highest byte stands first.
    BigEndian,
}

/// The `width` lowest bytes of `value`, the lowest first.
pub open spec fn low_first(value: nat, width: nat) -> Seq<u8>
    decreases width,
{
    if width == 0 {
        Seq::empty()
    } else {
        seq![(value % 256) as u8] + low_first(value / 256, (width - 1) as nat)
    }
}

/// The `width` lowest bytes of `value` as they stand in memory under
/// `order`.
pub open spec fn stored(value: nat, width: nat, order: ByteOrder) -> Seq<u8> {
    match order {
        ByteOrder::LittleEndian => low_first(value, width),
        ByteOrder::BigEndian => Seq::new(
            width,
            |i: int| low_first(value, width)[width - 1 - i],
        ),
    }
}

/// A number of `width` bytes is stored in `width` bytes.
pub proof fn stored_len(value: nat, width: nat, order: ByteOrder)
    ensures
        stored(value, width, order).len() == width,
        low_first(value, width).len() == width,
    decreases width,
{
    if width > 0 {
        stored_len(value / 256, (width - 1) as nat, ByteOrder::LittleEndian);
    }
}

/// A channel that occupies a fixed number of bytes, at most eight, and is
/// held in them as an unsigned number.
pub trait ByteChannel: Copy {
    /// How many bytes hold one channel.
    spec fn width() -> nat;

    /// The unsigned number that the channel's bytes spell.
    spec fn bits(self) -> nat;

    /// How many bytes hold one channel.
    fn byte_width() -> (w: usize)
        ensures
            w == Self::width(),
    ;

    /// The unsigned number that the channel's bytes spell.
    fn to_bits(self) -> (v: u64)
        ensures
            v == self.bits(),
    ;
}

/// `u16::to_ne_bytes`: the two bytes that hold `x` in memory, which are
/// its low and its high byte in the order of the machine.
#[verifier::external_body]
fn u16_to_ne_bytes(x: u16) -> (bytes: [u8; 2])
    ensures
        bytes@ == stored(x as nat, 2, ByteOrder::LittleEndian) || bytes@ == stored(
            x as nat,
            2,
            ByteOrder::BigEndian,
        ),
{
    x.to_ne_bytes()
}

/// The byte order under which `one` are the two bytes that hold the number
/// one: little-endian where the first byte is 1, big-endian otherwise.
pub fn order_storing_one_as(one: [u8; 2]) -> (order: ByteOrder)
    ensures
        order == (if one@[0] == 1 {
            ByteOrder::LittleEndian
        } else {
            ByteOrder::BigEndian
        }),
        one@ == stored(1, 2, ByteOrder::LittleEndian) || one@ == stored(1, 2, ByteOrder::BigEndian)
            ==> one@ == stored(1, 2, order),
{
    proof {
        reveal_with_fuel(low_first, 3);
        assert(stored(1, 2, ByteOrder::LittleEndian) =~= seq![1u8, 0u8]);
        assert(stored(1, 2, ByteOrder::BigEndian) =~= seq![0u8, 1u8]);
    }
    if one[0] == 1 {
        ByteOrder::LittleEndian
    } else {
        ByteOrder::BigEndian
    }
}

/// The byte order of the machine that runs this, read off the bytes that
/// hold the number one in its memory. Which of the two it is depends on
/// the machine alone.
pub(crate) fn native_order() -> ByteOrder {
    order_storing_one_as(u16_to_ne_bytes(1))
}

/// Appends to `out` the `width` lowest bytes of `value` as they stand in
/// memory under `order`.
pub fn push_stored(out: &mut Vec<u8>, value: u64, width: usize, order: ByteOrder)
    ensures
        final(out)@ == old(out)@ + stored(value as nat, width as nat, order),
{
    let mut digits: Vec<u8> = Vec::new();
    let mut rest: u64 = value;
    let mut i: usize = 0;
    while i < width
        invariant
            i <= width,
            digits@.len() == i,
            digits@ + low_first(rest as nat, (width - i) as nat) == low_first(
                value as nat,
                width as nat,
            ),
        decreases width - i,
    {
        let ghost before = digits@;
        digits.push((rest % 256) as u8);
        proof {
            assert(digits@ + low_first((rest / 256) as nat, (width - i - 1) as nat) =~= before
                + low_first(rest as nat, (width - i) as nat));
        }
        rest = rest / 256;
        i += 1;
    }
    assert(digits@ =~= low_first(value as nat, width as nat));
    let mut j: usize = 0;
    while j < width
        invariant
            j <= width,
            digits@ == low_first(value as nat, width as nat),
            digits@.len() == width,
            out@ == old(out)@ + stored(value as nat, width as nat, order).take(j as int),
        decreases width - j,
    {
        let digit = match order {
            ByteOrder::LittleEndian => digits[j],
            ByteOrder::BigEndian => digits[width - 1 - j],
        };
        out.push(digit);
        j += 1;
        assert(out@ =~= old(out)@ + stored(value as nat, width as nat, order).take(j as int));
    }
    assert(stored(value as nat, width as nat, order).take(j as int) =~= stored(
        value as nat,
        width as nat,
        order,
    ));
}

impl ByteChannel for u8 {
    open spec fn width() -> nat {
        1
    }

    open spec fn bits(self) -> nat {
        self as nat
    }

    #[inline(always)]
    fn byte_width() -> (w: usize) {
        1
    }

    #[inline(always)]
    fn to_bits(self) -> (v: u64) {
        self as u64
    }
}

impl ByteChannel for i8 {
    open spec fn width() -> nat {
        1
    }

    open spec fn bits(self) -> nat {
        (self as u8) as nat
    }

    #[inline(always)]
    fn byte_width() -> (w: usize) {
        1
    }

    #[inline(always)]
    fn to_bits(self) -> (v: u64) {
        (self as u8) as u64
    }
}

impl ByteChannel for u16 {
    open spec fn width() -> nat {
        2
    }

    open spec fn bits(self) -> nat {
        self as nat
    }

    #[inline(always)]
    fn byte_width() -> (w: usize) {
        2
    }

    #[inline(always)]
    fn to_bits(self) -> (v: u64) {
        self as u64
    }
}

impl ByteChannel for i16 {
    open spec fn width() -> nat {
        2
    }

    open spec fn bits(self) -> nat {
        (self as u16) as nat
    }

    #[inline(always)]
    fn byte_width() -> (w: usize) {
        2
    }

    #[inline(always)]
    fn to_bits(self) -> (v: u64) {
        (self as u16) as u64
    }
}

impl ByteChannel for u32 {
    open spec fn width() -> nat {
        4
    }

    open spec fn bits(self) -> nat {
        self as nat
    }

    #[inline(always)]
    fn byte_width() -> (w: usize) {
        4
    }

    #[inline(always)]
    fn to_bits(self) -> (v: u64) {
        self as u64
    }
}

impl ByteChannel for i32 {
    open spec fn width() -> nat {
        4
    }

    open spec fn bits(self) -> nat {
        (self as u32) as nat
    }

    #[inline(always)]
    fn byte_width() -> (w: usize) {
        4
    }

    #[inline(always)]
    fn to_bits(self) -> (v: u64) {
        (self as u32) as u64
    }
}

impl ByteChannel for u64 {
    open spec fn width() -> nat {
        8
    }

    open spec fn bits(self) -> nat {
        self as nat
    }

    #[inline(always)]
    fn byte_width() -> (w: usize) {
        8
    }

    #[inline(always)]
    fn to_bits(self) -> (v: u64) {
        self
    }
}

impl ByteChannel for i64 {
    open spec fn width() -> nat {
        8
    }

    open spec fn bits(self) -> nat {
        (self as u64) as nat
    }

    #[inline(always)]
    fn byte_width() -> (w: usize) {
        8
    }

    #[inline(always)]
    fn to_bits(self) -> (v: u64) {
        self as u64
    }
}

} // verus!
