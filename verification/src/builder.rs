use vstd::prelude::*;

use core::time::Duration;

use crate::context::common::init_state;
use crate::context::{mono_thread, multi_thread};

verus! {

/// Collects the construction parameters for a buffer pool: the hard cap on
/// the number of buffers, the permanent floor (also the number of buffers
/// allocated up front), the byte size shared by every buffer, and the
/// optional inactivity period after which excess buffers may be reclaimed.
pub struct BufferPoolBuilder {
    pub max_nb_buffer: usize,
    pub min_nb_buffer: usize,
    pub buffer_size: usize,
    pub over_buffer_lifetime_opt: Option<Duration>,
}

impl Default for BufferPoolBuilder {
    fn default() -> (result: Self)
        ensures
            result.max_nb_buffer == 1024,
            result.min_nb_buffer == 1024,
            result.buffer_size == 10240,
            result.over_buffer_lifetime_opt is None,
    {
        Self {
            max_nb_buffer: 1024,
            min_nb_buffer: 1024,
            buffer_size: 10240,
            over_buffer_lifetime_opt: None,
        }
    }
}

impl BufferPoolBuilder {
    /// Create a new BufferPoolBuilder with the default parameters.
    pub fn new() -> (result: Self)
        ensures
            result.max_nb_buffer == 1024,
            result.min_nb_buffer == 1024,
            result.buffer_size == 10240,
            result.over_buffer_lifetime_opt is None,
    {
        Self::default()
    }

    /// Set the maximum number of buffers in the pool.
    pub fn set_max_number_of_buffer(self, number: usize) -> (result: Self)
        ensures
            result.max_nb_buffer == number,
            result.min_nb_buffer == self.min_nb_buffer,
            result.buffer_size == self.buffer_size,
            result.over_buffer_lifetime_opt == self.over_buffer_lifetime_opt,
    {
        Self { max_nb_buffer: number, ..self }
    }

    /// Set the minimum number of buffers in the pool. The minimum dominates:
    /// if the current maximum lies below it, the maximum is raised to match.
    pub fn set_min_number_of_buffer(self, number: usize) -> (result: Self)
        ensures
            result.min_nb_buffer == number,
            result.max_nb_buffer == if self.max_nb_buffer < number {
                number
            } else {
                self.max_nb_buffer
            },
            result.min_nb_buffer <= result.max_nb_buffer,
            result.buffer_size == self.buffer_size,
            result.over_buffer_lifetime_opt == self.over_buffer_lifetime_opt,
    {
        let max_nb_buffer = if self.max_nb_buffer < number {
            number
        } else {
            self.max_nb_buffer
        };
        Self { min_nb_buffer: number, max_nb_buffer, ..self }
    }

    /// Set the byte size of each buffer in the pool.
    pub fn set_buffer_size(self, number: usize) -> (result: Self)
        ensures
            result.buffer_size == number,
            result.max_nb_buffer == self.max_nb_buffer,
            result.min_nb_buffer == self.min_nb_buffer,
            result.over_buffer_lifetime_opt == self.over_buffer_lifetime_opt,
    {
        Self { buffer_size: number, ..self }
    }

    /// Set the maximum inactivity time for excess buffers before they are
    /// deleted. Only a deployment with a background reaper consults it.
    pub fn set_over_buffer_lifetime(self, new_duration: Duration) -> (result: Self)
        ensures
            result.over_buffer_lifetime_opt == Some(new_duration),
            result.max_nb_buffer == self.max_nb_buffer,
            result.min_nb_buffer == self.min_nb_buffer,
            result.buffer_size == self.buffer_size,
    {
        Self { over_buffer_lifetime_opt: Some(new_duration), ..self }
    }

    /// Build a mono-thread pool from this builder.
    pub fn build_mono_thread(&self) -> (pool: mono_thread::BufferPool)
        ensures
            pool.wf(),
            pool@ == init_state(
                self.buffer_size as nat,
                self.min_nb_buffer as nat,
                self.max_nb_buffer as nat,
            ),
            pool@.idle.len() == pool@.total,
    {
        mono_thread::BufferPool::from_builder(self)
    }

    /// Build a multi-thread pool from this builder.
    pub fn build_multi_thread(&self) -> (pool: multi_thread::BufferPool)
        ensures
            pool.params().size == self.buffer_size,
            pool.params().floor == self.min_nb_buffer,
            pool.params().cap == if self.max_nb_buffer < self.min_nb_buffer {
                self.min_nb_buffer as nat
            } else {
                self.max_nb_buffer as nat
            },
    {
        multi_thread::BufferPool::from_builder(self)
    }
}

} // verus!
