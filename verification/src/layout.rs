//! Channel layouts and the storage layout of a sample type.

use vstd::prelude::*;

verus! {

/// The number of set bits among the lowest `bits` bits of `mask`.
pub open spec fn ones_below(mask: u32, bits: nat) -> nat
    decreases bits,
{
    if bits == 0 {
        0
    } else {
        let low = ones_below(mask, (bits - 1) as nat);
        if (mask >> ((bits - 1) as u32)) & 1 == 1 {
            low + 1
        } else {
            low
        }
    }
}

/// The set of speaker positions that a signal carries, one bit per position.
#[derive(Clone, Copy, Debug, PartialEq, Eq, Hash, Structural)]
pub struct ChannelLayout {
    /// Bit `i` is set when position `i` is present.
    pub mask: u32,
}

impl ChannelLayout {
    /// The layout with exactly the positions of `mask`.
    pub fn from_mask(mask: u32) -> (layout: Self)
        ensures
            layout.mask == mask,
    {
        ChannelLayout { mask }
    }

    /// The number of channels: the number of set bits of the mask.
    pub open spec fn count_spec(self) -> nat {
        ones_below(self.mask, 32)
    }

    /// The number of channels.
    pub fn count(&self) -> (n: u32)
        ensures
            n == self.count_spec(),
            n <= 32,
    {
        let mut n: u32 = 0;
        let mut i: u32 = 0;
        while i < 32
            invariant
                i <= 32,
                n == ones_below(self.mask, i as nat),
                n <= i,
            decreases 32 - i,
        {
            if (self.mask >> i) & 1 == 1 {
                n = n + 1;
            }
            i = i + 1;
        }
        n
    }

    /// Whether both layouts hold the same positions.
    pub fn same(&self, other: &Self) -> (b: bool)
        ensures
            b == (*self == *other),
    {
        self.mask == other.mask
    }
}

/// The size and alignment, in bytes, with which a sample type is stored.
#[derive(Clone, Copy, Debug, PartialEq, Eq, Hash, Structural)]
pub struct TypeLayout {
    /// The size of one sample.
    pub size: usize,
    /// The alignment of one sample.
    pub align: usize,
}

impl TypeLayout {
    /// The layout of the type `T`.
    pub fn of<T>() -> (layout: Self)
        ensures
            layout.size == vstd::layout::size_of::<T>(),
            layout.align == vstd::layout::align_of::<T>(),
    {
        TypeLayout { size: core::mem::size_of::<T>(), align: core::mem::align_of::<T>() }
    }

    /// Whether both layouts have the same size and alignment.
    pub fn same(&self, other: &Self) -> (b: bool)
        ensures
            b == (*self == *other),
    {
        self.size == other.size && self.align == other.align
    }
}

/// The number type of a sample.
#[derive(Clone, Copy, Debug, PartialEq, Eq, Hash, Structural)]
pub enum SampleFormat {
    /// Unsigned, 8 bits.
    U8,
    /// Unsigned, 16 bits.
    U16,
    /// Unsigned, 32 bits.
    U32,
    /// Unsigned, 64 bits.
    U64,
    /// Signed, 8 bits.
    I8,
    /// Signed, 16 bits.
    I16,
    /// Signed, 32 bits.
    I32,
    /// Signed, 64 bits.
    I64,
    /// Floating point, 32 bits.
    F32,
    /// Floating point, 64 bits.
    F64,
}

impl SampleFormat {
    /// The size of one sample, in bytes.
    pub open spec fn size_spec(self) -> nat {
        match self {
            SampleFormat::U8 | SampleFormat::I8 => 1,
            SampleFormat::U16 | SampleFormat::I16 => 2,
            SampleFormat::U32 | SampleFormat::I32 | SampleFormat::F32 => 4,
            SampleFormat::U64 | SampleFormat::I64 | SampleFormat::F64 => 8,
        }
    }

    /// The size of one sample, in bytes.
    pub fn size(&self) -> (n: usize)
        ensures
            n == self.size_spec(),
    {
        match self {
            SampleFormat::U8 | SampleFormat::I8 => 1,
            SampleFormat::U16 | SampleFormat::I16 => 2,
            SampleFormat::U32 | SampleFormat::I32 | SampleFormat::F32 => 4,
            SampleFormat::U64 | SampleFormat::I64 | SampleFormat::F64 => 8,
        }
    }
}

} // verus!
