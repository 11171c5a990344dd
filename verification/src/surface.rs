//! The presentation surface: an internally managed pool of buffer objects
//! for double-buffering, and the front-buffer lock/release protocol that
//! lends one buffer out of the pool and takes it back undamaged.

use vstd::prelude::*;

use crate::bo::{Bo, BoView};
use crate::device::BYTES_PER_PIXEL;
use crate::format::BoFormat;

verus! {

/// How many buffers a surface's pool holds: one on screen, one to draw
/// into.
pub const SURFACE_BUFFER_COUNT: usize = 2;

/// The mathematical model of a surface.
#[verifier::ext_equal]
pub ghost struct SurfaceView<T> {
    /// The surface's identity among the surfaces of its device.
    pub id: u64,
    /// Width in pixels of every buffer of the pool.
    pub width: u32,
    /// Height in pixels of every buffer of the pool.
    pub height: u32,
    /// Pixel format of every buffer of the pool.
    pub format: BoFormat,
    /// Whether a client must lock the front buffer before reading it.
    pub needs_lock: bool,
    /// The buffers currently resting in the pool.
    pub free: Seq<BoView<T>>,
    /// How many buffers are currently lent out.
    pub locked: int,
}

/// What membership in a surface's pool means for a buffer: it is on loan
/// from exactly this surface and shares the surface's geometry and format.
pub open spec fn pool_buffer<T>(s: SurfaceView<T>, b: BoView<T>) -> bool {
    &&& b.origin == Some(s.id)
    &&& b.width == s.width
    &&& b.height == s.height
    &&& b.stride == s.width * BYTES_PER_PIXEL
    &&& b.format == s.format
}

/// The model of a surface after it lends its front buffer out: the
/// buffer leaves the resting pool and the lent-out count grows by one.
pub open spec fn after_lock<T>(s: SurfaceView<T>) -> SurfaceView<T> {
    SurfaceView { free: s.free.drop_last(), locked: s.locked + 1, ..s }
}

/// The model of a surface after a lent-out buffer comes back: the
/// buffer's record joins the resting pool and the lent-out count shrinks
/// by one.
pub open spec fn after_release<T>(s: SurfaceView<T>, b: BoView<T>) -> SurfaceView<T> {
    SurfaceView { free: s.free.push(b), locked: s.locked - 1, ..s }
}

/// A surface: the owning handle of one presentation surface and its pool
/// of buffer objects. `T` is the payload type the pool's buffers carry in
/// their user-data slots.
pub struct Surface<T> {
    pub(crate) id: u64,
    pub(crate) width: u32,
    pub(crate) height: u32,
    pub(crate) format: BoFormat,
    pub(crate) needs_lock: bool,
    pub(crate) free: Vec<Bo<T>>,
    pub(crate) locked: usize,
}

impl<T> View for Surface<T> {
    type V = SurfaceView<T>;

    closed spec fn view(&self) -> SurfaceView<T> {
        SurfaceView {
            id: self.id,
            width: self.width,
            height: self.height,
            format: self.format,
            needs_lock: self.needs_lock,
            free: self.free@.map_values(|b: Bo<T>| b@),
            locked: self.locked as int,
        }
    }
}

impl<T> Surface<T> {
    /// The surface's well-formedness: no buffer of the pool is lost or
    /// invented — resting and lent-out buffers always account for the
    /// whole pool — and every resting buffer belongs to this surface.
    pub open spec fn wf(self) -> bool {
        &&& self@.free.len() + self@.locked == SURFACE_BUFFER_COUNT
        &&& self@.locked >= 0
        &&& forall|i: int|
            0 <= i < self@.free.len() ==> pool_buffer(self@, #[trigger] self@.free[i])
    }

    /// Builds a surface over its freshly allocated pool.
    pub(crate) fn fresh(id: u64, width: u32, height: u32, format: BoFormat, b0: Bo<T>, b1: Bo<
        T,
    >) -> (s: Surface<T>)
        requires
            b0@.origin == Some(id),
            b0@.width == width,
            b0@.height == height,
            b0@.stride == width * BYTES_PER_PIXEL,
            b0@.format == format,
            b1@.origin == Some(id),
            b1@.width == width,
            b1@.height == height,
            b1@.stride == width * BYTES_PER_PIXEL,
            b1@.format == format,
        ensures
            s.wf(),
            s@ == (SurfaceView {
                id,
                width,
                height,
                format,
                needs_lock: true,
                free: seq![b0@, b1@],
                locked: 0,
            }),
    {
        let ghost v0 = b0@;
        let ghost v1 = b1@;
        let mut pool: Vec<Bo<T>> = Vec::new();
        pool.push(b0);
        pool.push(b1);
        let s = Surface { id, width, height, format, needs_lock: true, free: pool, locked: 0 };
        proof {
            assert(s@.free =~= seq![v0, v1]);
        }
        s
    }

    /// Whether a client must lock the front buffer before touching its
    /// pixels. A capability of the surface, not a piece of state.
    pub fn needs_lock_front_buffer(&self) -> (r: bool)
        ensures
            r == self@.needs_lock,
    {
        self.needs_lock
    }

    /// Whether the pool still has a buffer to lend out. A capability
    /// query, with no ownership effect.
    pub fn has_free_buffers(&self) -> (r: bool)
        ensures
            r == (self@.free.len() > 0),
    {
        self.free.len() > 0
    }

    /// Lends the next presentable buffer out of the pool. A surface whose
    /// pool is exhausted yields nothing and is left exactly as it was.
    /// The buffer handed out remains part of this surface's pool
    /// bookkeeping: it must come back through `release_buffer`, never be
    /// destroyed by the caller.
    pub fn lock_front_buffer(&mut self) -> (r: Option<Bo<T>>)
        requires
            old(self).wf(),
        ensures
            final(self).wf(),
            old(self)@.free.len() == 0 ==> r is None && final(self)@ == old(self)@,
            old(self)@.free.len() > 0 ==> (r matches Some(b) && b@ == old(self)@.free.last()
                && pool_buffer(old(self)@, b@) && final(self)@ == after_lock(old(self)@)),
    {
        match self.free.pop() {
            Some(b) => {
                self.locked = self.locked + 1;
                proof {
                    let ghost of = old(self)@.free;
                    assert(of.len() == old(self).free@.len());
                    assert(of[of.len() - 1] == b@);
                    assert(pool_buffer(old(self)@, of[of.len() - 1]));
                    assert(self@.free =~= of.drop_last());
                }
                Some(b)
            },
            None => None,
        }
    }

    /// Takes a buffer previously lent out by `lock_front_buffer` back
    /// into the pool. The buffer's record — its payload included — returns
    /// to the pool exactly as the caller held it: nothing of the buffer
    /// is destroyed here, ownership alone moves back to the surface.
    pub fn release_buffer(&mut self, bo: Bo<T>)
        requires
            old(self).wf(),
            pool_buffer(old(self)@, bo@),
            old(self)@.locked >= 1,
        ensures
            final(self).wf(),
            final(self)@ == after_release(old(self)@, bo@),
    {
        let ghost bv = bo@;
        self.free.push(bo);
        self.locked = self.locked - 1;
        proof {
            assert(self@.free =~= old(self)@.free.push(bv));
        }
    }
}

/// Law: the lock/release round trip. Lending the front buffer out and
/// handing exactly that buffer back restores the surface — pool and
/// accounting — to precisely its old state.
pub proof fn lemma_lock_release_round_trip<T>(s: SurfaceView<T>)
    requires
        s.free.len() > 0,
    ensures
        after_release(after_lock(s), s.free.last()) == s,
{
    assert(after_release(after_lock(s), s.free.last()).free =~= s.free);
    assert(after_release(after_lock(s), s.free.last()) =~= s);
}

} // verus!
