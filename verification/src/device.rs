//! The device handle: an allocation context opened on a file descriptor,
//! and the factory for buffer objects and presentation surfaces.

use vstd::prelude::*;

use crate::Error;
use crate::bo::{Bo, BoView, fresh_bo_view};
use crate::flags::BoFlags;
use crate::format::BoFormat;
use crate::surface::{Surface, SurfaceView, SURFACE_BUFFER_COUNT};

verus! {

/// The widest buffer this library allocates: the row size in bytes must
/// fit the 32-bit stride the native interface reports.
pub const MAX_BO_WIDTH: u32 = 0x3fff_ffff;

/// Bytes per pixel: every format of the closed enumeration packs a pixel
/// into one 32-bit value.
pub const BYTES_PER_PIXEL: u32 = 4;

/// The mathematical model of a device.
pub ghost struct DeviceView {
    /// The descriptor the device context was opened on.
    pub fd: i32,
    /// The next buffer handle the allocator will hand out.
    pub next_handle: u32,
    /// The identity of the next surface the device will create.
    pub next_surface: u64,
}

/// A device: the owning handle of one allocation context.
pub struct Device {
    pub(crate) fd: i32,
    pub(crate) next_handle: u32,
    pub(crate) next_surface: u64,
}

impl View for Device {
    type V = DeviceView;

    closed spec fn view(&self) -> DeviceView {
        DeviceView { fd: self.fd, next_handle: self.next_handle, next_surface: self.next_surface }
    }
}

/// A non-owning reference back to the device a buffer was allocated on.
#[derive(Debug, Clone, Copy)]
pub struct DeviceRef {
    pub(crate) fd: i32,
}

impl DeviceRef {
    /// The descriptor of the device this reference points back to.
    pub closed spec fn fd_spec(self) -> i32 {
        self.fd
    }

    /// Returns the underlying descriptor of the referenced device.
    pub fn get_fd(&self) -> (r: i32)
        ensures
            r == self.fd_spec(),
    {
        self.fd
    }

    /// Builds the back-reference out of a device descriptor.
    pub(crate) fn of_fd(fd: i32) -> (r: DeviceRef)
        ensures
            r.fd_spec() == fd,
    {
        DeviceRef { fd }
    }
}

/// The descriptor a buffer exports: its handle, where the handle fits a
/// signed 32-bit descriptor, and the null descriptor where it does not.
pub open spec fn export_fd(h: u32) -> i32 {
    if h <= 0x7fff_ffffu32 {
        h as i32
    } else {
        0i32
    }
}

/// A handle counter after one allocation: the next free value, wrapping
/// around once the 32-bit space is exhausted, as native handles may be
/// recycled.
pub open spec fn next_handle_after(h: u32) -> u32 {
    if h == 0xffff_ffffu32 {
        0u32
    } else {
        (h + 1) as u32
    }
}

/// A surface counter after one creation.
pub open spec fn next_surface_after(s: u64) -> u64 {
    if s == 0xffff_ffff_ffff_ffffu64 {
        0u64
    } else {
        (s + 1) as u64
    }
}

/// The source of an imported buffer: a buffer allocated and owned
/// elsewhere, described by a raw descriptor together with its geometry.
/// Sources owned by optional platform integrations (display-protocol
/// buffers, compositing-API image handles) are outside this library's
/// scope.
#[derive(Clone, Copy, Debug)]
pub enum BoImport {
    /// A raw descriptor with the buffer's geometry and format.
    Fd {
        /// The descriptor of the externally owned buffer.
        fd: i32,
        /// Width in pixels.
        width: u32,
        /// Height in pixels.
        height: u32,
        /// Bytes per row, at least the packed width.
        stride: u32,
        /// Pixel format of the buffer's contents.
        format: BoFormat,
    },
}

/// Whether a buffer can be built from an import source under the given
/// usage: a valid descriptor, non-empty geometry, a row size of at least
/// the packed width, and a supported format and usage combination.
pub open spec fn importable(src: BoImport, usage: BoFlags) -> bool {
    match src {
        BoImport::Fd { fd, width, height, stride, format } => {
            &&& fd >= 0
            &&& width >= 1
            &&& height >= 1
            &&& stride >= width * BYTES_PER_PIXEL
            &&& format_supported(format, usage)
        },
    }
}

/// Computes the exported descriptor of a buffer handle.
fn export_descriptor(h: u32) -> (r: i32)
    ensures
        r == export_fd(h),
{
    if h <= 0x7fff_ffff {
        h as i32
    } else {
        0
    }
}

/// Whether the device supports a format and usage combination. Both
/// formats of the closed enumeration are supported; a cursor buffer is a
/// small dedicated plane, so the cursor bit combined with scanout or
/// rendering use is refused.
pub open spec fn format_supported(format: BoFormat, flags: BoFlags) -> bool {
    !(flags.is_cursor() && (flags.is_scanout() || flags.is_rendering()))
}

/// Whether a buffer of these dimensions and this usage can be allocated:
/// non-empty geometry, a row size that fits the 32-bit stride, and a
/// supported format and usage combination.
pub open spec fn creatable(width: u32, height: u32, format: BoFormat, flags: BoFlags) -> bool {
    &&& 1 <= width <= MAX_BO_WIDTH
    &&& height >= 1
    &&& format_supported(format, flags)
}

impl Device {
    /// Opens a device context on the given descriptor. Opening fails on a
    /// descriptor no context can be opened on — a negative one — and on
    /// no other.
    pub fn create(fd: i32) -> (r: Result<Device, Error>)
        ensures
            r is Ok <==> fd >= 0,
            r matches Ok(d) ==> d@ == (DeviceView { fd, next_handle: 1u32, next_surface: 1u64 }),
            r matches Err(e) ==> e == Error::DeviceCreation,
    {
        if fd >= 0 {
            Ok(Device { fd, next_handle: 1, next_surface: 1 })
        } else {
            Err(Error::DeviceCreation)
        }
    }

    /// The descriptor the device context was opened on (a non-owning
    /// view).
    pub fn get_fd(&self) -> (r: i32)
        ensures
            r == self@.fd,
    {
        self.fd
    }

    /// The name of the allocation backend behind this device: the kernel
    /// mode-setting backend.
    pub fn get_backend_name(&self) -> (r: &'static str)
        ensures
            r@ == "drm"@,
    {
        "drm"
    }

    /// Whether buffers of the given format may be allocated for the given
    /// usage. A pure capability query, with no side effect.
    pub fn is_format_supported(&self, format: BoFormat, flags: BoFlags) -> (r: bool)
        ensures
            r == format_supported(format, flags),
    {
        let bits = flags.as_u32();
        let cursor = bits & crate::flags::GBM_BO_USE_CURSOR != 0;
        let scanout = bits & crate::flags::GBM_BO_USE_SCANOUT != 0;
        let rendering = bits & crate::flags::GBM_BO_USE_RENDERING != 0;
        !(cursor && (scanout || rendering))
    }

    /// Allocates one buffer: fresh, empty, with exactly the geometry and
    /// format requested, so reading them back returns the values given
    /// here.
    pub fn bo_create<T>(&mut self, width: u32, height: u32, format: BoFormat, flags: BoFlags) -> (b:
        Bo<T>)
        requires
            creatable(width, height, format, flags),
        ensures
            b@ == fresh_bo_view::<T>(
                old(self)@.fd,
                old(self)@.next_handle,
                width,
                height,
                (width * BYTES_PER_PIXEL) as u32,
                format,
                export_fd(old(self)@.next_handle),
                None,
            ),
            final(self)@ == (DeviceView {
                next_handle: next_handle_after(old(self)@.next_handle),
                ..old(self)@
            }),
    {
        let handle = self.alloc_handle();
        let stride = width * BYTES_PER_PIXEL;
        let fd_export = export_descriptor(handle);
        Bo::fresh(self.fd, handle, width, height, stride, format, fd_export, None)
    }

    /// Creates a presentation surface with a freshly allocated pool of
    /// `SURFACE_BUFFER_COUNT` buffers of the given geometry and format.
    pub fn surface_create<T>(
        &mut self,
        width: u32,
        height: u32,
        format: BoFormat,
        flags: BoFlags,
    ) -> (s: Surface<T>)
        requires
            creatable(width, height, format, flags),
        ensures
            s.wf(),
            s@ == (SurfaceView {
                id: old(self)@.next_surface,
                width,
                height,
                format,
                needs_lock: true,
                free: seq![
                    fresh_bo_view::<T>(
                        old(self)@.fd,
                        old(self)@.next_handle,
                        width,
                        height,
                        (width * BYTES_PER_PIXEL) as u32,
                        format,
                        export_fd(old(self)@.next_handle),
                        Some(old(self)@.next_surface),
                    ),
                    fresh_bo_view::<T>(
                        old(self)@.fd,
                        next_handle_after(old(self)@.next_handle),
                        width,
                        height,
                        (width * BYTES_PER_PIXEL) as u32,
                        format,
                        export_fd(next_handle_after(old(self)@.next_handle)),
                        Some(old(self)@.next_surface),
                    ),
                ],
                locked: 0,
            }),
            final(self)@ == (DeviceView {
                fd: old(self)@.fd,
                next_handle: next_handle_after(next_handle_after(old(self)@.next_handle)),
                next_surface: next_surface_after(old(self)@.next_surface),
            }),
    {
        let id = self.alloc_surface_id();
        let stride = width * BYTES_PER_PIXEL;
        let h0 = self.alloc_handle();
        let f0 = export_descriptor(h0);
        let b0 = Bo::fresh(self.fd, h0, width, height, stride, format, f0, Some(id));
        let h1 = self.alloc_handle();
        let f1 = export_descriptor(h1);
        let b1 = Bo::fresh(self.fd, h1, width, height, stride, format, f1, Some(id));
        Surface::fresh(id, width, height, format, b0, b1)
    }

    /// Builds a buffer object around a buffer owned elsewhere, described
    /// by the import source. The one creation path that surfaces failure
    /// as a result: a source no buffer can be built from — an invalid
    /// descriptor, empty geometry, a row size under the packed width, or
    /// an unsupported usage — is reported, every other source is
    /// imported.
    pub fn bo_import<T>(&self, bo: BoImport, usage: BoFlags) -> (r: Result<Bo<T>, ()>)
        ensures
            r is Ok <==> importable(bo, usage),
            r matches Ok(b) ==> bo matches BoImport::Fd { fd, width, height, stride, format }
                && b@ == fresh_bo_view::<T>(
                self@.fd,
                fd as u32,
                width,
                height,
                stride,
                format,
                fd,
                None,
            ),
    {
        match bo {
            BoImport::Fd { fd, width, height, stride, format } => {
                let supported = self.is_format_supported(format, usage);
                if fd >= 0 && width >= 1 && height >= 1 && (stride as u64) >= (width as u64) * (
                BYTES_PER_PIXEL as u64) && supported {
                    Ok(Bo::fresh(self.fd, fd as u32, width, height, stride, format, fd, None))
                } else {
                    Err(())
                }
            },
        }
    }

    /// Hands out the identity of the next surface.
    pub(crate) fn alloc_surface_id(&mut self) -> (id: u64)
        ensures
            id == old(self)@.next_surface,
            final(self)@ == (DeviceView {
                next_surface: next_surface_after(old(self)@.next_surface),
                ..old(self)@
            }),
    {
        let id = self.next_surface;
        if self.next_surface == 0xffff_ffff_ffff_ffff {
            self.next_surface = 0;
        } else {
            self.next_surface = self.next_surface + 1;
        }
        id
    }

    /// Hands out the next free buffer handle.
    pub(crate) fn alloc_handle(&mut self) -> (h: u32)
        ensures
            h == old(self)@.next_handle,
            final(self)@ == (DeviceView { next_handle: next_handle_after(old(self)@.next_handle), ..old(
                self,
            )@ }),
    {
        let h = self.next_handle;
        if self.next_handle == 0xffff_ffff {
            self.next_handle = 0;
        } else {
            self.next_handle = self.next_handle + 1;
        }
        h
    }
}

} // verus!
