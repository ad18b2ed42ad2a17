use std::sync::Arc;

use vstd::prelude::*;
use vstd::rwlock::{RwLock, RwLockPredicate};

use crate::builder::BufferPoolBuilder;
use crate::context::common;

verus! {

/// The lock invariant of a shared pool: every state that the lock stores is
/// well formed, and carries the configuration fixed at construction.
pub ghost struct PoolPred {
    pub size: nat,
    pub floor: nat,
    pub cap: nat,
}

impl RwLockPredicate<common::BufferPool> for PoolPred {
    open spec fn inv(self, v: common::BufferPool) -> bool {
        &&& v.wf()
        &&& v@.size == self.size
        &&& v@.floor == self.floor
        &&& v@.cap == self.cap
    }
}

/// BufferPool for a multi-thread context: clones share one core pool state
/// behind a reference-counted mutual-exclusion lock. A caller may block on
/// the lock, never on a buffer: exhaustion is reported immediately.
pub struct BufferPool {
    inner: Arc<RwLock<common::BufferPool, PoolPred>>,
}

/// Relies on std's Arc::clone: the returned handle shares the same
/// allocation as the argument, so as a value it equals the argument.
#[verifier::external_body]
fn clone_pool_handle(inner: &Arc<RwLock<common::BufferPool, PoolPred>>) -> (cloned: Arc<
    RwLock<common::BufferPool, PoolPred>,
>)
    ensures
        cloned == *inner,
{
    Arc::clone(inner)
}

impl Clone for BufferPool {
    /// A clone shares the pool state with the original.
    fn clone(&self) -> (cloned: Self)
        ensures
            cloned == *self,
    {
        BufferPool { inner: clone_pool_handle(&self.inner) }
    }
}

/// A guard around one checked-out buffer of a shared pool. It owns the
/// buffer plus a handle to the pool that issued it, exposes byte access,
/// and is consumed — exactly once, by [`BufferGuard::free`] — to return the
/// buffer, so a double release cannot be written.
pub struct BufferGuard {
    pool: BufferPool,
    buffer: Vec<u8>,
}

impl View for BufferGuard {
    type V = Seq<u8>;

    closed spec fn view(&self) -> Seq<u8> {
        self.buffer@
    }
}

impl BufferPool {
    /// The configuration this pool was built with, fixed for its lifetime.
    pub closed spec fn params(&self) -> PoolPred {
        (*self.inner).pred()
    }

    /// Like BufferPoolBuilder.build_multi_thread().
    pub fn from_builder(builder: &BufferPoolBuilder) -> (pool: Self)
        ensures
            pool.params().size == builder.buffer_size,
            pool.params().floor == builder.min_nb_buffer,
            pool.params().cap == if builder.max_nb_buffer < builder.min_nb_buffer {
                builder.min_nb_buffer as nat
            } else {
                builder.max_nb_buffer as nat
            },
    {
        let state = common::BufferPool::from_builder(builder);
        let ghost pred = PoolPred {
            size: builder.buffer_size as nat,
            floor: builder.min_nb_buffer as nat,
            cap: if builder.max_nb_buffer < builder.min_nb_buffer {
                builder.min_nb_buffer as nat
            } else {
                builder.max_nb_buffer as nat
            },
        };
        let lock = RwLock::new(state, Ghost(pred));
        BufferPool { inner: Arc::new(lock) }
    }

    /// Get a buffer from the pool, wrapped in a guard bound to this pool.
    ///
    /// Returns None if no buffer is available at the moment the lock is
    /// held: the idle stack is empty and the pool is at its cap.
    pub fn get(&self) -> (result: Option<BufferGuard>)
        ensures
            result matches Some(guard) ==> guard.wf() && guard@.len() == self.params().size
                && guard.issuer() == *self,
    {
        let (mut state, handle) = self.inner.acquire_write();
        let buffer_opt = state.get();
        handle.release_write(state);
        match buffer_opt {
            Some(buffer) => Some(BufferGuard { pool: self.clone(), buffer }),
            None => None,
        }
    }

    /// Run one shrink cycle under the lock: the manual trigger for trimming
    /// excess idle buffers down toward the floor.
    pub fn clean_excess_buffer(&self) {
        let (mut state, handle) = self.inner.acquire_write();
        state.clean_excess_buffer();
        handle.release_write(state);
    }

    /// A consistent snapshot of (allocated, idle) buffer counts. Whatever
    /// the interleaving, the allocated count stays between the configured
    /// floor and cap.
    pub fn buffer_counts(&self) -> (counts: (usize, usize))
        ensures
            self.params().floor <= counts.0,
            counts.0 <= self.params().cap,
    {
        let read_handle = self.inner.acquire_read();
        let state = read_handle.borrow();
        let total = state.total_buffer_count();
        let idle = state.available_buffer_count();
        read_handle.release_read();
        (total, idle)
    }
}

impl BufferGuard {
    /// The pool handle this guard was issued by.
    pub closed spec fn issuer(&self) -> BufferPool {
        self.pool
    }

    /// The buffer's length always matches the issuing pool's buffer size.
    pub open spec fn wf(&self) -> bool {
        self@.len() == self.issuer().params().size
    }

    /// The number of bytes in the buffer, constant over the buffer's life.
    pub fn len(&self) -> (length: usize)
        ensures
            length == self@.len(),
    {
        self.buffer.len()
    }

    /// Read the byte at `index`.
    pub fn read_byte(&self, index: usize) -> (value: u8)
        requires
            index < self@.len(),
        ensures
            value == self@[index as int],
    {
        self.buffer[index]
    }

    /// Write `value` at `index`. The length never changes.
    pub fn write_byte(&mut self, index: usize, value: u8)
        requires
            index < old(self)@.len(),
        ensures
            final(self)@ == old(self)@.update(index as int, value),
            final(self).wf() == old(self).wf(),
            final(self).issuer() == old(self).issuer(),
    {
        self.buffer[index] = value;
    }

    /// Return the buffer to the pool that issued this guard. The guard is
    /// consumed, so the release happens exactly once per checked-out buffer.
    pub fn free(self)
        requires
            self.wf(),
    {
        let BufferGuard { pool, buffer } = self;
        let (mut state, handle) = pool.inner.acquire_write();
        state.free(buffer);
        handle.release_write(state);
    }
}

} // verus!
