//! The closed enumeration of supported pixel formats and its bidirectional
//! mapping to the native interface's numeric format codes.

use vstd::prelude::*;

use crate::raw::gbm_bo_format;

verus! {

/// A pixel format of the closed, supported enumeration.
#[derive(Copy, Clone, Debug, Eq, PartialEq, Structural, Hash)]
pub enum BoFormat {
    /// RGB with 8 bits per channel in a 32 bit value.
    XRGB8888,
    /// ARGB with 8 bits per channel in a 32 bit value.
    ARGB8888,
}

/// The native numeric code of a format.
pub open spec fn format_code(f: BoFormat) -> u32 {
    match f {
        BoFormat::XRGB8888 => gbm_bo_format::GBM_BO_FORMAT_XRGB8888.code_spec(),
        BoFormat::ARGB8888 => gbm_bo_format::GBM_BO_FORMAT_ARGB8888.code_spec(),
    }
}

/// The format a native numeric code stands for, if it is in the closed
/// enumeration.
pub open spec fn format_from_code(u: u32) -> Option<BoFormat> {
    if u == format_code(BoFormat::XRGB8888) {
        Some(BoFormat::XRGB8888)
    } else if u == format_code(BoFormat::ARGB8888) {
        Some(BoFormat::ARGB8888)
    } else {
        None
    }
}

impl BoFormat {
    /// Returns the native numeric code of this format.
    pub fn as_u32(&self) -> (r: u32)
        ensures
            r == format_code(*self),
    {
        match *self {
            BoFormat::XRGB8888 => gbm_bo_format::GBM_BO_FORMAT_XRGB8888.code(),
            BoFormat::ARGB8888 => gbm_bo_format::GBM_BO_FORMAT_ARGB8888.code(),
        }
    }

    /// Maps a native numeric code back into the closed enumeration; an
    /// unrecognized code yields `None` rather than a made-up format.
    pub fn from_u32(u: u32) -> (r: Option<BoFormat>)
        ensures
            r == format_from_code(u),
    {
        if u == 0 {
            Some(BoFormat::XRGB8888)
        } else if u == 1 {
            Some(BoFormat::ARGB8888)
        } else {
            None
        }
    }
}

/// Law: decoding the code of a format gives that format back, and every
/// decodable code re-encodes to itself — the numeric mapping loses nothing.
pub proof fn lemma_format_round_trip(f: BoFormat, u: u32)
    ensures
        format_from_code(format_code(f)) == Some(f),
        format_from_code(u) matches Some(g) ==> format_code(g) == u,
{
}

} // verus!
