use vstd::prelude::*;

use crate::builder::BufferPoolBuilder;

verus! {

/// The contents of a zero-initialized buffer of `size` bytes.
pub open spec fn zero_buffer(size: nat) -> Seq<u8> {
    Seq::new(size, |i: int| 0u8)
}

/// Abstract value of the core pool state.
///
/// `size` is the byte length shared by every buffer, `floor` the permanent
/// minimum number of buffers, `cap` the hard maximum, `total` the number of
/// buffers currently allocated (idle plus checked out), `low` the smallest
/// idle count observed since the end of the last shrink cycle, and `idle`
/// the contents of the available buffers, in stack order.
#[verifier::ext_equal]
pub ghost struct PoolView {
    pub size: nat,
    pub floor: nat,
    pub cap: nat,
    pub total: nat,
    pub low: nat,
    pub idle: Seq<Seq<u8>>,
}

impl PoolView {
    /// Well-formedness of a pool state: the floor never exceeds the cap, the
    /// allocated count stays between them, the low-water mark never exceeds
    /// the idle count, and every idle buffer holds exactly `size` bytes.
    pub open spec fn wf(self) -> bool {
        &&& self.floor <= self.cap
        &&& self.floor <= self.total
        &&& self.total <= self.cap
        &&& self.low <= self.idle.len()
        &&& forall|i: int| 0 <= i < self.idle.len() ==> (#[trigger] self.idle[i]).len() == self.size
    }
}

/// The state a freshly built pool starts in: `floor` zero-filled buffers,
/// all idle, with the cap raised to the floor where the builder left it
/// lower (the minimum dominates).
pub open spec fn init_state(size: nat, floor: nat, cap: nat) -> PoolView {
    PoolView {
        size,
        floor,
        cap: if cap < floor {
            floor
        } else {
            cap
        },
        total: floor,
        low: floor,
        idle: Seq::new(floor, |i: int| zero_buffer(size)),
    }
}

/// The buffer an acquire returns: the most recently released idle buffer if
/// one is available, nothing if the pool is exhausted (no idle buffer and
/// `total` at the cap), and a fresh zero-filled buffer otherwise.
pub open spec fn acquire_result(v: PoolView) -> Option<Seq<u8>> {
    if v.idle.len() > 0 {
        Some(v.idle.last())
    } else if v.total == v.cap {
        None
    } else {
        Some(zero_buffer(v.size))
    }
}

/// The pool state after an acquire. Popping an idle buffer lowers the
/// low-water mark to the new idle count when that count falls below it;
/// allocating a fresh buffer raises `total`; exhaustion changes nothing.
pub open spec fn acquire_state(v: PoolView) -> PoolView {
    if v.idle.len() > 0 {
        PoolView {
            idle: v.idle.drop_last(),
            low: if v.low > v.idle.len() - 1 {
                (v.idle.len() - 1) as nat
            } else {
                v.low
            },
            ..v
        }
    } else if v.total == v.cap {
        v
    } else {
        PoolView { total: v.total + 1, ..v }
    }
}

/// The pool state after a release: the buffer is pushed onto the idle
/// stack. A return is not an idle observation, so `low` is unchanged.
pub open spec fn release_state(v: PoolView, buffer: Seq<u8>) -> PoolView {
    PoolView { idle: v.idle.push(buffer), ..v }
}

/// How many buffers a shrink cycle removes: never more than the buffers
/// above the floor, and never more than the smallest number that sat idle
/// throughout the whole interval since the last cycle.
pub open spec fn shrink_count(v: PoolView) -> nat {
    if v.total - v.floor < v.low {
        (v.total - v.floor) as nat
    } else {
        v.low
    }
}

/// The pool state after a shrink cycle: `shrink_count` buffers leave the
/// idle stack and the allocation count, and the low-water mark is reset to
/// the new idle count, opening a fresh observation interval.
pub open spec fn shrink_state(v: PoolView) -> PoolView {
    PoolView {
        total: (v.total - shrink_count(v)) as nat,
        idle: v.idle.take(v.idle.len() - shrink_count(v)),
        low: (v.idle.len() - shrink_count(v)) as nat,
        ..v
    }
}

/// The core pool state: a bounded stack of idle fixed-size buffers plus the
/// counters that drive growth and watermark-based shrinking. It has no
/// concurrency awareness; an owning wrapper mediates all access.
pub struct BufferPool {
    total_nb_buffer: usize,
    max_nb_buffer: usize,
    min_nb_buffer: usize,
    buffer_size: usize,
    min_available_nb_buffer: usize,
    all_available_buffer: Vec<Vec<u8>>,
}

impl View for BufferPool {
    type V = PoolView;

    closed spec fn view(&self) -> PoolView {
        PoolView {
            size: self.buffer_size as nat,
            floor: self.min_nb_buffer as nat,
            cap: self.max_nb_buffer as nat,
            total: self.total_nb_buffer as nat,
            low: self.min_available_nb_buffer as nat,
            idle: self.all_available_buffer.deep_view(),
        }
    }
}

/// Allocate a zero-initialized buffer of `size` bytes. This is the only
/// way fresh buffer storage enters a pool.
fn alloc_buffer(size: usize) -> (buffer: Vec<u8>)
    ensures
        buffer@ == zero_buffer(size as nat),
{
    let buffer = vec![0u8; size];
    proof {
        assert(buffer@ =~= zero_buffer(size as nat));
    }
    buffer
}

impl BufferPool {
    /// Well-formedness of the underlying state.
    pub open spec fn wf(&self) -> bool {
        self@.wf()
    }

    /// Build the core state from a builder: pre-populate `min_nb_buffer`
    /// zero-filled buffers, all idle, and raise the cap to the floor where
    /// the builder left it lower.
    pub fn from_builder(builder: &BufferPoolBuilder) -> (pool: BufferPool)
        ensures
            pool.wf(),
            pool@ == init_state(
                builder.buffer_size as nat,
                builder.min_nb_buffer as nat,
                builder.max_nb_buffer as nat,
            ),
            pool@.idle.len() == pool@.total,
    {
        let mut all_buffer: Vec<Vec<u8>> = Vec::with_capacity(builder.max_nb_buffer);
        let mut i: usize = 0;
        while i < builder.min_nb_buffer
            invariant
                i <= builder.min_nb_buffer,
                all_buffer@.len() == i,
                forall|j: int|
                    0 <= j < i ==> (#[trigger] all_buffer@[j])@ == zero_buffer(
                        builder.buffer_size as nat,
                    ),
            decreases builder.min_nb_buffer - i,
        {
            all_buffer.push(alloc_buffer(builder.buffer_size));
            i += 1;
        }
        proof {
            assert(all_buffer.deep_view() =~~= Seq::new(
                builder.min_nb_buffer as nat,
                |j: int| zero_buffer(builder.buffer_size as nat),
            ));
        }
        let max_nb_buffer = if builder.max_nb_buffer < builder.min_nb_buffer {
            builder.min_nb_buffer
        } else {
            builder.max_nb_buffer
        };
        let pool = BufferPool {
            total_nb_buffer: builder.min_nb_buffer,
            max_nb_buffer,
            min_nb_buffer: builder.min_nb_buffer,
            buffer_size: builder.buffer_size,
            min_available_nb_buffer: builder.min_nb_buffer,
            all_available_buffer: all_buffer,
        };
        proof {
            assert(pool@ =~= init_state(
                builder.buffer_size as nat,
                builder.min_nb_buffer as nat,
                builder.max_nb_buffer as nat,
            ));
        }
        pool
    }

    /// Check out a buffer: pop an idle one if any is available (updating the
    /// low-water mark), report exhaustion if the pool is at its cap, and
    /// allocate a fresh zero-filled buffer otherwise.
    pub fn get(&mut self) -> (result: Option<Vec<u8>>)
        requires
            old(self).wf(),
        ensures
            final(self).wf(),
            final(self)@ == acquire_state(old(self)@),
            match result {
                Some(buffer) => acquire_result(old(self)@) == Some(buffer@),
                None => acquire_result(old(self)@) is None,
            },
            result is None <==> (old(self)@.idle.len() == 0 && old(self)@.total == old(self)@.cap),
            result matches Some(buffer) ==> buffer@.len() == old(self)@.size,
    {
        if let Some(new_buffer) = self.all_available_buffer.pop() {
            let nb_available_buffer = self.all_available_buffer.len();
            if nb_available_buffer < self.min_available_nb_buffer {
                self.min_available_nb_buffer = nb_available_buffer;
            }
            proof {
                assert(self@ =~= acquire_state(old(self)@));
            }
            return Some(new_buffer);
        }

        if self.total_nb_buffer == self.max_nb_buffer {
            return None;
        }
        self.total_nb_buffer += 1;

        let buffer_size = self.buffer_size;
        let new_buffer = alloc_buffer(buffer_size);
        proof {
            assert(self@ =~= acquire_state(old(self)@));
        }
        Some(new_buffer)
    }

    /// Return a buffer to the idle stack. Only buffers obtained from this
    /// pool may come back, which fixes their length; a return is not an idle
    /// observation, so the low-water mark is unchanged.
    pub fn free(&mut self, buffer: Vec<u8>)
        requires
            old(self).wf(),
            buffer@.len() == old(self)@.size,
        ensures
            final(self).wf(),
            final(self)@ == release_state(old(self)@, buffer@),
    {
        self.all_available_buffer.push(buffer);
        proof {
            assert(self@ =~~= release_state(old(self)@, buffer@));
        }
    }

    /// Run one shrink cycle: drop `shrink_count` buffers (never below the
    /// floor, never more than sat idle through the whole interval), then
    /// reset the low-water mark to the idle count that remains.
    pub fn clean_excess_buffer(&mut self)
        requires
            old(self).wf(),
        ensures
            final(self).wf(),
            final(self)@ == shrink_state(old(self)@),
    {
        let total_droppable_buffer = self.total_nb_buffer - self.min_nb_buffer;
        let nb_drop_buffer = if total_droppable_buffer < self.min_available_nb_buffer {
            total_droppable_buffer
        } else {
            self.min_available_nb_buffer
        };

        let nb_buffer_to_keep = self.all_available_buffer.len() - nb_drop_buffer;
        self.total_nb_buffer -= nb_drop_buffer;
        self.all_available_buffer.truncate(nb_buffer_to_keep);

        self.min_available_nb_buffer = self.all_available_buffer.len();
        proof {
            assert(self@ =~= shrink_state(old(self)@));
        }
    }

    /// The number of buffers currently allocated, idle or checked out.
    pub fn total_buffer_count(&self) -> (count: usize)
        ensures
            count == self@.total,
    {
        self.total_nb_buffer
    }

    /// The number of buffers currently idle in the pool.
    pub fn available_buffer_count(&self) -> (count: usize)
        ensures
            count == self@.idle.len(),
    {
        self.all_available_buffer.len()
    }

    /// The smallest idle count observed since the last shrink cycle.
    pub fn low_water_mark(&self) -> (count: usize)
        ensures
            count == self@.low,
    {
        self.min_available_nb_buffer
    }

    /// The byte size shared by every buffer of this pool.
    pub fn buffer_byte_size(&self) -> (size: usize)
        ensures
            size == self@.size,
    {
        self.buffer_size
    }
}

} // verus!
