//! Ownership of a native handle, released exactly once.
//!
//! The engine's native interface is handle based: passing a handle into some
//! calls permanently transfers it, so the owner must never free it again, and
//! must free it itself if the transferring call never happens. [`OwnedHandle`]
//! records that custody explicitly: a handle is *armed* while this wrapper is
//! responsible for freeing it, custody leaves through [`OwnedHandle::release`]
//! immediately before a transferring call is issued, and
//! [`OwnedHandle::dispose`] frees it only if the wrapper still holds custody.

use vstd::prelude::*;

verus! {

/// A native handle together with the custody the wrapper has over it.
#[derive(Debug)]
pub struct OwnedHandle {
    /// The raw non-null handle value; opaque to this crate.
    pub raw: u64,
    /// Whether this wrapper must still free the handle.
    pub armed: bool,
    /// Whether this wrapper has freed the handle.
    pub disposed: bool,
}

impl OwnedHandle {
    /// A handle is well formed while it was freed at most once and never
    /// after its custody was transferred away.
    pub open spec fn wf(self) -> bool {
        &&& self.raw != 0
        &&& !(self.armed && self.disposed)
    }

    /// The relation [`OwnedHandle::release`] establishes between the wrapper
    /// before and after custody leaves: the handle value is kept, the wrapper
    /// is no longer responsible for it, and no disposal happened.
    pub open spec fn released_from(self, pre: Self) -> bool {
        &&& pre.armed
        &&& self.raw == pre.raw
        &&& !self.armed
        &&& self.disposed == pre.disposed
    }

    /// The relation [`OwnedHandle::dispose`] establishes between the wrapper
    /// before and after: the handle is freed now if and only if the wrapper
    /// still held custody, and afterwards it holds none.
    pub open spec fn disposed_from(self, pre: Self) -> bool {
        &&& self.raw == pre.raw
        &&& !self.armed
        &&& self.disposed == (pre.disposed || pre.armed)
    }

    /// Takes custody of a freshly created non-null native handle.
    pub fn new(raw: u64) -> (r: OwnedHandle)
        requires
            raw != 0,
        ensures
            r.wf(),
            r.raw == raw,
            r.armed,
            !r.disposed,
    {
        OwnedHandle { raw, armed: true, disposed: false }
    }

    /// Reads the raw handle value.
    pub fn as_raw(&self) -> (r: u64)
        ensures
            r == self.raw,
    {
        self.raw
    }

    /// Whether this wrapper still holds custody of the handle.
    pub fn is_armed(&self) -> (r: bool)
        ensures
            r == self.armed,
    {
        self.armed
    }

    /// Transfers custody of the handle to another owner, immediately before
    /// the call that consumes it. After this, [`OwnedHandle::dispose`] will
    /// never free the handle.
    pub fn release(&mut self) -> (r: u64)
        requires
            old(self).wf(),
            old(self).armed,
        ensures
            final(self).wf(),
            final(self).released_from(*old(self)),
            r == old(self).raw,
    {
        self.armed = false;
        self.raw
    }

    /// Frees the handle if this wrapper still holds custody; does nothing
    /// otherwise. Calling it any number of times frees the handle at most
    /// once, and never after a release.
    pub fn dispose(&mut self)
        requires
            old(self).wf(),
        ensures
            final(self).wf(),
            final(self).disposed_from(*old(self)),
    {
        if self.armed {
            self.armed = false;
            self.disposed = true;
        }
    }
}

/// Custody leaves at most once and disposal happens at most once: once
/// custody of a handle was transferred away, a later disposal frees nothing,
/// so the native handle is never freed both by its new owner and by the
/// wrapper.
pub proof fn lemma_no_dispose_after_release(h0: OwnedHandle, h1: OwnedHandle, h2: OwnedHandle)
    requires
        h0.wf(),
        !h0.disposed,
        h1.released_from(h0),
        h2.disposed_from(h1),
    ensures
        !h2.disposed,
{
}

/// Disposal is idempotent: after a first disposal, a second one changes
/// nothing, so the handle is freed exactly once on every disposal path.
pub proof fn lemma_dispose_at_most_once(h0: OwnedHandle, h1: OwnedHandle, h2: OwnedHandle)
    requires
        h0.wf(),
        h1.disposed_from(h0),
        h2.disposed_from(h1),
    ensures
        h2.disposed == (h0.disposed || h0.armed),
        h2.armed == h1.armed,
        h2.disposed == h1.disposed,
{
}

} // verus!
