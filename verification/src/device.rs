//! The shared storage object and the per-session handles onto it.
//!
//! One `SharedBuffer` exists per device lifetime. Every `open` hands out a
//! `Handle` holding a reference-counted pointer to the same buffer, so the
//! buffer is freed only once the last handle (and the root reference) is
//! gone. All reads and writes go through the buffer's lock: the lock holder
//! has exclusive access for the whole length/copy computation, so no caller
//! ever observes a partially applied write.

use std::sync::Arc;
use vstd::prelude::*;
use vstd::rwlock::RwLock;
use vstd::rwlock::RwLockPredicate;
use crate::buffer::read_result;
use crate::buffer::read_at;
use crate::buffer::write_at;

verus! {

/// Every byte sequence is a valid buffer content: the lock enforces mutual
/// exclusion, not a restriction on the stored values.
pub struct AnyContent {}

impl RwLockPredicate<Vec<u8>> for AnyContent {
    open spec fn inv(self, v: Vec<u8>) -> bool {
        true
    }
}

/// The single growable byte sequence, guarded by a lock that serializes all
/// access to it.
pub struct SharedBuffer {
    inner: RwLock<Vec<u8>, AnyContent>,
}

impl SharedBuffer {
    /// Create the device's buffer: empty, with its lock fully initialized
    /// before the reference escapes, wrapped for shared thread-safe
    /// ownership.
    pub fn create() -> (r: Arc<SharedBuffer>) {
        Arc::new(SharedBuffer { inner: RwLock::new(Vec::new(), Ghost(AnyContent {})) })
    }
}

/// A per-open-session reference to the shared buffer, analogous to an open
/// file descriptor. Holds no state of its own beyond the shared reference.
pub struct Handle {
    shared: Arc<SharedBuffer>,
}

/// Relies on std's Arc::clone: the returned pointer refers to the very
/// allocation the argument refers to.
#[verifier::external_body]
fn clone_ref(buffer: &Arc<SharedBuffer>) -> (r: Arc<SharedBuffer>)
    ensures
        r == *buffer,
{
    buffer.clone()
}

impl Handle {
    /// The buffer this handle is a session on.
    pub closed spec fn attached_to(self, buffer: Arc<SharedBuffer>) -> bool {
        self.shared == buffer
    }

    /// Open a session: clone the shared reference. Never fails.
    pub fn open(buffer: &Arc<SharedBuffer>) -> (h: Handle)
        ensures
            h.attached_to(*buffer),
    {
        Handle { shared: clone_ref(buffer) }
    }

    /// Read up to `capacity` bytes starting at `offset`, under the buffer's
    /// lock. The result is a correct truncated read of the buffer state the
    /// lock exposed: concurrent writers may change the buffer before or
    /// after, but never during, the copy. An empty result with
    /// `offset >= state.len()` signals end of data, not an error.
    pub fn read(&self, offset: usize, capacity: usize) -> (out: Vec<u8>)
        ensures
            out@.len() <= capacity,
            exists|state: Seq<u8>|
                out@ == read_result(state, offset as int, capacity as int),
    {
        let read_handle = self.shared.inner.acquire_read();
        let data = read_handle.borrow();
        let out = read_at(data, offset, capacity);
        read_handle.release_read();
        out
    }

    /// Write all of `src` at `offset`, under the buffer's lock: the buffer
    /// state the lock exposed becomes exactly
    /// `write_result(state, offset, src)`, growing with zero fill as needed,
    /// with no intermediate state visible to any other caller. Returns the
    /// number of bytes written, always `src.len()`.
    pub fn write(&self, offset: usize, src: &Vec<u8>) -> (n: usize)
        requires
            offset + src@.len() <= usize::MAX,
        ensures
            n == src@.len(),
    {
        let (mut data, write_handle) = self.shared.inner.acquire_write();
        let n: usize = write_at(&mut data, offset, src);
        write_handle.release_write(data);
        n
    }

    /// Close the session: drop this handle's reference. The buffer itself
    /// is freed only when the last reference is dropped.
    pub fn release(self) {
    }
}

} // verus!
