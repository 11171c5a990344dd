//! Value types of the native buffer-allocation interface: the numeric
//! format codes and the multi-view buffer handle word.

#![allow(non_camel_case_types)]

use vstd::prelude::*;

verus! {

/// Numeric format codes of the native interface's own format enumeration.
#[derive(Clone, Copy, PartialEq, Eq, Structural, Debug)]
pub enum gbm_bo_format {
    /// RGB with 8 bits per channel in a 32 bit value.
    GBM_BO_FORMAT_XRGB8888,
    /// ARGB with 8 bits per channel in a 32 bit value.
    GBM_BO_FORMAT_ARGB8888,
}

impl gbm_bo_format {
    /// The numeric value the native interface assigns to this code.
    pub open spec fn code_spec(self) -> u32 {
        match self {
            gbm_bo_format::GBM_BO_FORMAT_XRGB8888 => 0u32,
            gbm_bo_format::GBM_BO_FORMAT_ARGB8888 => 1u32,
        }
    }

    /// Returns the numeric value of this format code.
    pub fn code(self) -> (r: u32)
        ensures
            r == self.code_spec(),
    {
        match self {
            gbm_bo_format::GBM_BO_FORMAT_XRGB8888 => 0,
            gbm_bo_format::GBM_BO_FORMAT_ARGB8888 => 1,
        }
    }
}

/// A buffer's native handle word: one 64-bit value that the native
/// interface declares as a union of narrower integer views.
#[derive(Clone, Copy)]
pub struct gbm_bo_handle(pub u64);

impl gbm_bo_handle {
    /// The handle word read as a signed 32-bit value.
    pub fn s32(self) -> (r: i32)
        ensures
            r == self.0 as i32,
    {
        #[verifier::truncate]
        (self.0 as i32)
    }

    /// The handle word read as an unsigned 32-bit value.
    pub fn u32(self) -> (r: u32)
        ensures
            r == self.0 as u32,
    {
        #[verifier::truncate]
        (self.0 as u32)
    }

    /// The handle word read as a signed 64-bit value.
    pub fn s64(self) -> (r: i64)
        ensures
            r == self.0 as i64,
    {
        #[verifier::truncate]
        (self.0 as i64)
    }

    /// The handle word read as an unsigned 64-bit value.
    pub fn u64(self) -> (r: u64)
        ensures
            r == self.0,
    {
        self.0
    }
}

} // verus!
