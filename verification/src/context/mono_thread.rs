use vstd::prelude::*;

use crate::builder::BufferPoolBuilder;
use crate::context::common;
use crate::context::common::{
    acquire_result, acquire_state, init_state, release_state, shrink_state, PoolView,
};

verus! {

/// A guard around one checked-out buffer of a mono-thread pool. It owns the
/// buffer, exposes byte access, and is consumed — exactly once, by moving it
/// into [`BufferPool::free`] — to return the buffer, so a double release
/// cannot be written.
pub struct BufferGuard {
    buffer: Vec<u8>,
}

impl View for BufferGuard {
    type V = Seq<u8>;

    closed spec fn view(&self) -> Seq<u8> {
        self.buffer@
    }
}

impl BufferGuard {
    /// The number of bytes in the buffer, constant over the buffer's life.
    pub fn len(&self) -> (length: usize)
        ensures
            length == self@.len(),
    {
        self.buffer.len()
    }

    /// Read the byte at `index`.
    pub fn read_byte(&self, index: usize) -> (value: u8)
        requires
            index < self@.len(),
        ensures
            value == self@[index as int],
    {
        self.buffer[index]
    }

    /// Write `value` at `index`. The length never changes.
    pub fn write_byte(&mut self, index: usize, value: u8)
        requires
            index < old(self)@.len(),
        ensures
            final(self)@ == old(self)@.update(index as int, value),
    {
        self.buffer[index] = value;
    }
}

/// BufferPool for a mono-thread context: a single owner drives the core
/// state directly, with no locking, and invokes the shrink cycle explicitly
/// on demand.
pub struct BufferPool {
    inner: common::BufferPool,
}

impl View for BufferPool {
    type V = PoolView;

    closed spec fn view(&self) -> PoolView {
        self.inner@
    }
}

impl BufferPool {
    /// Well-formedness of the underlying pool state.
    pub open spec fn wf(&self) -> bool {
        self@.wf()
    }

    /// Like BufferPoolBuilder.build_mono_thread().
    pub fn from_builder(builder: &BufferPoolBuilder) -> (pool: Self)
        ensures
            pool.wf(),
            pool@ == init_state(
                builder.buffer_size as nat,
                builder.min_nb_buffer as nat,
                builder.max_nb_buffer as nat,
            ),
            pool@.idle.len() == pool@.total,
    {
        BufferPool { inner: common::BufferPool::from_builder(builder) }
    }

    /// Get a buffer from the pool, wrapped in a guard.
    ///
    /// Returns None exactly when no buffer is available: the idle stack is
    /// empty and the pool already holds the maximum number of buffers.
    pub fn get(&mut self) -> (result: Option<BufferGuard>)
        requires
            old(self).wf(),
        ensures
            final(self).wf(),
            final(self)@ == acquire_state(old(self)@),
            match result {
                Some(guard) => acquire_result(old(self)@) == Some(guard@),
                None => acquire_result(old(self)@) is None,
            },
            result is None <==> (old(self)@.idle.len() == 0 && old(self)@.total == old(
                self,
            )@.cap),
            result matches Some(guard) ==> guard@.len() == old(self)@.size,
    {
        match self.inner.get() {
            Some(buffer) => Some(BufferGuard { buffer }),
            None => None,
        }
    }

    /// Return a guard's buffer to the pool. The guard is consumed, so the
    /// release happens exactly once per checked-out buffer.
    pub fn free(&mut self, guard: BufferGuard)
        requires
            old(self).wf(),
            guard@.len() == old(self)@.size,
        ensures
            final(self).wf(),
            final(self)@ == release_state(old(self)@, guard@),
    {
        let BufferGuard { buffer } = guard;
        self.inner.free(buffer);
    }

    /// Optimize the number of buffers by deleting excess buffers of the
    /// pool: one explicit, caller-invoked shrink cycle.
    pub fn clean_excess_buffer(&mut self)
        requires
            old(self).wf(),
        ensures
            final(self).wf(),
            final(self)@ == shrink_state(old(self)@),
    {
        self.inner.clean_excess_buffer();
    }

    /// The number of buffers currently allocated, idle or checked out.
    pub fn total_buffer_count(&self) -> (count: usize)
        ensures
            count == self@.total,
    {
        self.inner.total_buffer_count()
    }

    /// The number of buffers currently idle in the pool.
    pub fn available_buffer_count(&self) -> (count: usize)
        ensures
            count == self@.idle.len(),
    {
        self.inner.available_buffer_count()
    }

    /// The smallest idle count observed since the last shrink cycle.
    pub fn low_water_mark(&self) -> (count: usize)
        ensures
            count == self@.low,
    {
        self.inner.low_water_mark()
    }

    /// The byte size shared by every buffer of this pool.
    pub fn buffer_byte_size(&self) -> (size: usize)
        ensures
            size == self@.size,
    {
        self.inner.buffer_byte_size()
    }
}

} // verus!
