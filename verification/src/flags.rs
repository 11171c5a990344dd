//! The composable bitmask of usage-intent flags, built with a fluent
//! builder that starts empty and toggles named bits.

use vstd::prelude::*;

verus! {

/// Usage bit: the buffer may be presented on a display controller plane.
pub const GBM_BO_USE_SCANOUT: u32 = 0x1;

/// Usage bit: the buffer backs a hardware cursor.
pub const GBM_BO_USE_CURSOR: u32 = 0x2;

/// Usage bit: the buffer is a rendering target.
pub const GBM_BO_USE_RENDERING: u32 = 0x4;

/// Usage bit: raw pixel data is uploaded into the buffer with `Bo::write`.
pub const GBM_BO_USE_WRITE: u32 = 0x8;

/// Usage bit: the buffer's memory layout is linear, without tiling.
pub const GBM_BO_USE_LINEAR: u32 = 0x10;

/// A composable bitmask of usage-intent flags. Five independent bits; no
/// bit implies another.
#[derive(Copy, Clone, Debug)]
pub struct BoFlags {
    bits: u32,
}

impl BoFlags {
    /// The raw bit pattern of the mask.
    pub closed spec fn bits_spec(self) -> u32 {
        self.bits
    }

    /// Whether the scanout bit is set.
    pub open spec fn is_scanout(self) -> bool {
        self.bits_spec() & GBM_BO_USE_SCANOUT != 0
    }

    /// Whether the cursor bit is set.
    pub open spec fn is_cursor(self) -> bool {
        self.bits_spec() & GBM_BO_USE_CURSOR != 0
    }

    /// Whether the rendering bit is set.
    pub open spec fn is_rendering(self) -> bool {
        self.bits_spec() & GBM_BO_USE_RENDERING != 0
    }

    /// Whether the write bit is set.
    pub open spec fn is_write(self) -> bool {
        self.bits_spec() & GBM_BO_USE_WRITE != 0
    }

    /// Whether the linear bit is set.
    pub open spec fn is_linear(self) -> bool {
        self.bits_spec() & GBM_BO_USE_LINEAR != 0
    }

    /// Returns the empty mask: every bit cleared.
    pub fn new() -> (r: BoFlags)
        ensures
            r.bits_spec() == 0u32,
            !r.is_scanout(),
            !r.is_cursor(),
            !r.is_rendering(),
            !r.is_write(),
            !r.is_linear(),
    {
        proof {
            lemma_named_bits_of_zero();
        }
        BoFlags { bits: 0 }
    }

    /// Sets or clears the scanout bit; the other bits are untouched.
    pub fn scanout(self, v: bool) -> (r: BoFlags)
        ensures
            r.is_scanout() == v,
            r.is_cursor() == self.is_cursor(),
            r.is_rendering() == self.is_rendering(),
            r.is_write() == self.is_write(),
            r.is_linear() == self.is_linear(),
    {
        proof {
            lemma_set_named_bit(self.bits_spec(), GBM_BO_USE_SCANOUT);
        }
        self.set(GBM_BO_USE_SCANOUT, v)
    }

    /// Sets or clears the cursor bit; the other bits are untouched.
    pub fn cursor(self, v: bool) -> (r: BoFlags)
        ensures
            r.is_cursor() == v,
            r.is_scanout() == self.is_scanout(),
            r.is_rendering() == self.is_rendering(),
            r.is_write() == self.is_write(),
            r.is_linear() == self.is_linear(),
    {
        proof {
            lemma_set_named_bit(self.bits_spec(), GBM_BO_USE_CURSOR);
        }
        self.set(GBM_BO_USE_CURSOR, v)
    }

    /// Sets or clears the rendering bit; the other bits are untouched.
    pub fn rendering(self, v: bool) -> (r: BoFlags)
        ensures
            r.is_rendering() == v,
            r.is_scanout() == self.is_scanout(),
            r.is_cursor() == self.is_cursor(),
            r.is_write() == self.is_write(),
            r.is_linear() == self.is_linear(),
    {
        proof {
            lemma_set_named_bit(self.bits_spec(), GBM_BO_USE_RENDERING);
        }
        self.set(GBM_BO_USE_RENDERING, v)
    }

    /// Sets or clears the write bit; the other bits are untouched.
    pub fn write(self, v: bool) -> (r: BoFlags)
        ensures
            r.is_write() == v,
            r.is_scanout() == self.is_scanout(),
            r.is_cursor() == self.is_cursor(),
            r.is_rendering() == self.is_rendering(),
            r.is_linear() == self.is_linear(),
    {
        proof {
            lemma_set_named_bit(self.bits_spec(), GBM_BO_USE_WRITE);
        }
        self.set(GBM_BO_USE_WRITE, v)
    }

    /// Sets or clears the linear bit; the other bits are untouched.
    pub fn linear(self, v: bool) -> (r: BoFlags)
        ensures
            r.is_linear() == v,
            r.is_scanout() == self.is_scanout(),
            r.is_cursor() == self.is_cursor(),
            r.is_rendering() == self.is_rendering(),
            r.is_write() == self.is_write(),
    {
        proof {
            lemma_set_named_bit(self.bits_spec(), GBM_BO_USE_LINEAR);
        }
        self.set(GBM_BO_USE_LINEAR, v)
    }

    /// The raw bit pattern, as the native interface takes it.
    pub fn as_u32(&self) -> (r: u32)
        ensures
            r == self.bits_spec(),
    {
        self.bits
    }

    /// Inserts the given bits into the mask when `v` is true, removes them
    /// when it is false.
    pub fn set(self, flag: u32, v: bool) -> (r: BoFlags)
        ensures
            r.bits_spec() == if v {
                self.bits_spec() | flag
            } else {
                self.bits_spec() & !flag
            },
    {
        if v {
            BoFlags { bits: self.bits | flag }
        } else {
            BoFlags { bits: self.bits & !flag }
        }
    }
}

/// The empty mask has none of the five named bits.
proof fn lemma_named_bits_of_zero()
    by (bit_vector)
    ensures
        0u32 & GBM_BO_USE_SCANOUT == 0,
        0u32 & GBM_BO_USE_CURSOR == 0,
        0u32 & GBM_BO_USE_RENDERING == 0,
        0u32 & GBM_BO_USE_WRITE == 0,
        0u32 & GBM_BO_USE_LINEAR == 0,
{
}

/// Inserting or removing one named single-bit flag decides that bit and
/// leaves the other four named bits of the mask as they were.
proof fn lemma_set_named_bit(b: u32, m: u32)
    by (bit_vector)
    requires
        m == GBM_BO_USE_SCANOUT || m == GBM_BO_USE_CURSOR || m == GBM_BO_USE_RENDERING
            || m == GBM_BO_USE_WRITE || m == GBM_BO_USE_LINEAR,
    ensures
        (b | m) & m != 0,
        (b & !m) & m == 0,
        m != GBM_BO_USE_SCANOUT ==> ((b | m) & GBM_BO_USE_SCANOUT != 0) == (b
            & GBM_BO_USE_SCANOUT != 0),
        m != GBM_BO_USE_SCANOUT ==> ((b & !m) & GBM_BO_USE_SCANOUT != 0) == (b
            & GBM_BO_USE_SCANOUT != 0),
        m != GBM_BO_USE_CURSOR ==> ((b | m) & GBM_BO_USE_CURSOR != 0) == (b & GBM_BO_USE_CURSOR
            != 0),
        m != GBM_BO_USE_CURSOR ==> ((b & !m) & GBM_BO_USE_CURSOR != 0) == (b & GBM_BO_USE_CURSOR
            != 0),
        m != GBM_BO_USE_RENDERING ==> ((b | m) & GBM_BO_USE_RENDERING != 0) == (b
            & GBM_BO_USE_RENDERING != 0),
        m != GBM_BO_USE_RENDERING ==> ((b & !m) & GBM_BO_USE_RENDERING != 0) == (b
            & GBM_BO_USE_RENDERING != 0),
        m != GBM_BO_USE_WRITE ==> ((b | m) & GBM_BO_USE_WRITE != 0) == (b & GBM_BO_USE_WRITE
            != 0),
        m != GBM_BO_USE_WRITE ==> ((b & !m) & GBM_BO_USE_WRITE != 0) == (b & GBM_BO_USE_WRITE
            != 0),
        m != GBM_BO_USE_LINEAR ==> ((b | m) & GBM_BO_USE_LINEAR != 0) == (b & GBM_BO_USE_LINEAR
            != 0),
        m != GBM_BO_USE_LINEAR ==> ((b & !m) & GBM_BO_USE_LINEAR != 0) == (b & GBM_BO_USE_LINEAR
            != 0),
{
}

} // verus!
