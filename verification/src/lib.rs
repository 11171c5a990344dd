//! A memory-safe handle layer over a graphics buffer-allocation subsystem.
//!
//! The library models the allocation backend as explicit state owned by the
//! handles themselves: a [`Device`] opened from a file descriptor is the
//! factory for pixel buffers ([`Bo`]) and double-buffered presentation
//! surfaces ([`Surface`]). The contracts pin down the ownership and lifetime
//! protocol: buffers are move-only, a payload attached to a buffer rides
//! along until the buffer itself is given up, and a buffer locked out of a
//! surface's pool must be handed back with [`Surface::release_buffer`],
//! which returns the buffer's record to the pool without destroying it.

use vstd::prelude::*;

pub mod bo;
pub mod device;
pub mod flags;
pub mod format;
pub mod raw;
pub mod surface;

pub use bo::Bo;
pub use bo::WriteError;
pub use device::BoImport;
pub use device::Device;
pub use device::DeviceRef;
pub use flags::BoFlags;
pub use format::BoFormat;
pub use surface::Surface;

verus! {

/// Errors surfaced by the fallible device-construction path.
#[derive(Debug, Clone, Copy, Eq, PartialEq, Structural)]
pub enum Error {
    /// The backend could not open a device context on the given descriptor.
    DeviceCreation,
}

impl Error {
    /// A human-readable description of the error.
    pub fn description(&self) -> (r: &'static str)
        ensures
            r@ == "Failed to create gbm_device"@,
    {
        match *self {
            Error::DeviceCreation => "Failed to create gbm_device",
        }
    }
}

} // verus!
