//! The buffer object handle: one allocated pixel buffer with geometry and
//! format, raw pixel upload, and a tagged user-data slot whose payload
//! rides along with the buffer until the buffer itself is given up.

use vstd::prelude::*;
use vstd::slice::slice_to_vec;

use crate::device::DeviceRef;
use crate::format::BoFormat;

verus! {

/// The error of a failed pixel upload: a failure is reported as such,
/// never as a partial count.
#[derive(Debug, Clone, Copy, PartialEq, Eq, Structural)]
pub enum WriteError {
    /// The data does not fit the buffer's allocation.
    InvalidSize,
}

/// The mathematical model of a buffer object.
pub ghost struct BoView<T> {
    /// Width in pixels.
    pub width: u32,
    /// Height in pixels.
    pub height: u32,
    /// Bytes per row.
    pub stride: u32,
    /// Pixel format, a member of the closed enumeration.
    pub format: BoFormat,
    /// The native buffer handle.
    pub handle: u32,
    /// The buffer's exported descriptor.
    pub fd: i32,
    /// Descriptor of the device the buffer was allocated on.
    pub device_fd: i32,
    /// The surface this buffer is on loan from, if it was handed out by
    /// `Surface::lock_front_buffer`.
    pub origin: Option<u64>,
    /// The tagged payload riding in the user-data slot, if any.
    pub user_data: Option<(u64, T)>,
    /// The pixel bytes uploaded so far.
    pub contents: Seq<u8>,
}

impl<T> BoView<T> {
    /// How many bytes the buffer's allocation holds.
    pub open spec fn capacity(self) -> int {
        self.stride * self.height
    }
}

/// The model of a buffer fresh from the allocator: empty, without payload.
pub open spec fn fresh_bo_view<T>(
    device_fd: i32,
    handle: u32,
    width: u32,
    height: u32,
    stride: u32,
    format: BoFormat,
    fd: i32,
    origin: Option<u64>,
) -> BoView<T> {
    BoView {
        width,
        height,
        stride,
        format,
        handle,
        fd,
        device_fd,
        origin,
        user_data: None,
        contents: Seq::empty(),
    }
}

/// What fetching the user-data slot under a tag yields: the payload exactly
/// when the slot is occupied under that same tag.
pub open spec fn user_data_lookup<T>(b: BoView<T>, tag: u64) -> Option<T> {
    match b.user_data {
        Some(p) => if p.0 == tag {
            Some(p.1)
        } else {
            None
        },
        None => None,
    }
}

/// The same buffer with the given payload in its user-data slot.
pub open spec fn with_user_data<T>(b: BoView<T>, tag: u64, data: T) -> BoView<T> {
    BoView { user_data: Some((tag, data)), ..b }
}

/// A buffer object: the move-only owning handle of one allocated pixel
/// buffer. `T` is the type of payload its user-data slot can carry.
pub struct Bo<T> {
    pub(crate) width: u32,
    pub(crate) height: u32,
    pub(crate) stride: u32,
    pub(crate) format: BoFormat,
    pub(crate) handle: u32,
    pub(crate) fd: i32,
    pub(crate) device_fd: i32,
    pub(crate) origin: Option<u64>,
    pub(crate) user_data: Option<(u64, T)>,
    pub(crate) contents: Vec<u8>,
}

impl<T> View for Bo<T> {
    type V = BoView<T>;

    closed spec fn view(&self) -> BoView<T> {
        BoView {
            width: self.width,
            height: self.height,
            stride: self.stride,
            format: self.format,
            handle: self.handle,
            fd: self.fd,
            device_fd: self.device_fd,
            origin: self.origin,
            user_data: self.user_data,
            contents: self.contents@,
        }
    }
}

impl<T> Bo<T> {
    /// Wraps a buffer fresh from the allocator into its owning handle.
    pub(crate) fn fresh(
        device_fd: i32,
        handle: u32,
        width: u32,
        height: u32,
        stride: u32,
        format: BoFormat,
        fd: i32,
        origin: Option<u64>,
    ) -> (b: Bo<T>)
        ensures
            b@ == fresh_bo_view::<T>(device_fd, handle, width, height, stride, format, fd, origin),
    {
        Bo {
            width,
            height,
            stride,
            format,
            handle,
            fd,
            device_fd,
            origin,
            user_data: None,
            contents: Vec::new(),
        }
    }

    /// Width in pixels, as requested at creation.
    pub fn get_width(&self) -> (r: u32)
        ensures
            r == self@.width,
    {
        self.width
    }

    /// Height in pixels, as requested at creation.
    pub fn get_height(&self) -> (r: u32)
        ensures
            r == self@.height,
    {
        self.height
    }

    /// Bytes per row of the allocation.
    pub fn get_stride(&self) -> (r: u32)
        ensures
            r == self@.stride,
    {
        self.stride
    }

    /// The buffer's pixel format. Every buffer of this library carries a
    /// member of the closed enumeration, so no unrecognized-code path is
    /// reachable here.
    pub fn get_format(&self) -> (r: BoFormat)
        ensures
            r == self@.format,
    {
        self.format
    }

    /// A non-owning back-reference to the device the buffer was allocated
    /// on.
    pub fn get_device(&self) -> (r: DeviceRef)
        ensures
            r.fd_spec() == self@.device_fd,
    {
        DeviceRef::of_fd(self.device_fd)
    }

    /// The buffer's native handle.
    pub fn get_handle(&self) -> (r: u32)
        ensures
            r == self@.handle,
    {
        self.handle
    }

    /// The buffer's exported descriptor.
    pub fn get_fd(&self) -> (r: i32)
        ensures
            r == self@.fd,
    {
        self.fd
    }

    /// Attaches one tagged payload to the buffer. The slot holds at most
    /// one payload: attaching while the slot is occupied fails and hands
    /// the new payload back untouched, rather than silently dropping
    /// either payload. Clear the slot first with `take_user_data` to
    /// replace what it holds.
    pub fn set_user_data(&mut self, tag: u64, data: T) -> (r: Result<(), T>)
        ensures
            old(self)@.user_data is None ==> r == Ok::<(), T>(()) && final(self)@ == with_user_data(
                old(self)@,
                tag,
                data,
            ),
            old(self)@.user_data is Some ==> r == Err::<(), T>(data) && final(self)@ == old(self)@,
    {
        if self.user_data.is_some() {
            Err(data)
        } else {
            self.user_data = Some((tag, data));
            Ok(())
        }
    }

    /// Whether the user-data slot is occupied.
    pub fn has_user_data(&self) -> (r: bool)
        ensures
            r == (self@.user_data is Some),
    {
        self.user_data.is_some()
    }

    /// Fetches the payload under the given tag: yields nothing if the slot
    /// is empty or holds a payload attached under a different tag.
    pub fn get_user_data(&self, tag: u64) -> (r: Option<&T>)
        ensures
            match user_data_lookup(self@, tag) {
                Some(v) => r matches Some(x) && *x == v,
                None => r is None,
            },
    {
        match &self.user_data {
            Some(p) => if p.0 == tag {
                Some(&p.1)
            } else {
                None
            },
            None => None,
        }
    }

    /// Fetches the payload under the given tag for in-place change:
    /// yields nothing if the slot is empty or holds a payload attached
    /// under a different tag. While the caller holds the reference, the
    /// slot follows every change made through it.
    pub fn get_user_data_mut(&mut self, tag: u64) -> (r: Option<&mut T>)
        ensures
            user_data_lookup(old(self)@, tag) is None ==> r is None && final(self)@ == old(self)@,
            user_data_lookup(old(self)@, tag) matches Some(v) ==> (r is Some && *r.unwrap() == v
                && final(self)@ == with_user_data(old(self)@, tag, *final(r.unwrap()))),
    {
        match self.user_data.as_mut() {
            Some(p) => if p.0 == tag {
                Some(&mut p.1)
            } else {
                None
            },
            None => None,
        }
    }

    /// Clears the user-data slot and returns its payload, if the slot is
    /// occupied under the given tag; a mismatched tag leaves the slot as
    /// it is.
    pub fn take_user_data(&mut self, tag: u64) -> (r: Option<T>)
        ensures
            match user_data_lookup(old(self)@, tag) {
                Some(v) => r == Some(v) && final(self)@ == (BoView { user_data: None, ..old(self)@ }),
                None => r is None && final(self)@ == old(self)@,
            },
    {
        let tag_found = match &self.user_data {
            Some(p) => p.0 == tag,
            None => false,
        };
        if tag_found {
            match self.user_data.take() {
                Some(p) => Some(p.1),
                None => None,
            }
        } else {
            None
        }
    }

    /// Uploads raw pixel data into the buffer. Data that fits the
    /// allocation is taken whole and its exact length is reported back;
    /// data that does not fit is refused and the buffer is untouched.
    pub fn write(&mut self, buf: &[u8]) -> (r: Result<usize, WriteError>)
        ensures
            buf@.len() <= old(self)@.capacity() ==> r == Ok::<usize, WriteError>(buf@.len() as usize)
                && final(self)@ == (BoView { contents: buf@, ..old(self)@ }),
            buf@.len() > old(self)@.capacity() ==> r == Err::<usize, WriteError>(
                WriteError::InvalidSize,
            ) && final(self)@ == old(self)@,
    {
        proof {
            assert((self.stride as int) * (self.height as int) <= 0xffff_ffffu32 * 0xffff_ffffu32)
                by (nonlinear_arith)
                requires
                    self.stride <= 0xffff_ffffu32,
                    self.height <= 0xffff_ffffu32,
            ;
        }
        let cap: u64 = (self.stride as u64) * (self.height as u64);
        if (buf.len() as u64) <= cap {
            self.contents = slice_to_vec(buf);
            Ok(buf.len())
        } else {
            Err(WriteError::InvalidSize)
        }
    }

    /// Completes a sequence of uploads. Uploads of this library take
    /// effect immediately, so there is nothing left to do.
    pub fn flush(&mut self) -> (r: Result<(), WriteError>)
        ensures
            r == Ok::<(), WriteError>(()),
            final(self)@ == old(self)@,
    {
        Ok(())
    }
}

/// Law: the user-data round trip. Attaching a payload under a tag makes
/// the slot occupied, fetching under the same tag yields exactly that
/// payload, and fetching under any other tag yields nothing.
pub proof fn lemma_user_data_round_trip<T>(b: BoView<T>, tag: u64, other: u64, data: T)
    requires
        b.user_data is None,
    ensures
        with_user_data(b, tag, data).user_data is Some,
        user_data_lookup(with_user_data(b, tag, data), tag) == Some(data),
        other != tag ==> user_data_lookup(with_user_data(b, tag, data), other) == None::<T>,
{
}

} // verus!
