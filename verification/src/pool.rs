//! A pool of byte buffers, so that large allocations are used again.
//!
//! The pool keeps a handful of empty buffers. A buffer is taken out for a
//! piece of work and handed back afterwards, on every path. The capacity
//! of a buffer is measured once, when it is handed back, and decides later
//! which requests the buffer serves.

use vstd::prelude::*;
use crate::codec::buffer_capacity;

verus! {

/// The most buffers that the pool keeps.
pub const MAX_POOLED_BUFFERS: usize = 4;

/// Buffers of this capacity or less are not worth keeping.
pub const MIN_KEPT_CAPACITY: usize = 1024;

/// The least capacity of a buffer that the pool allocates.
pub const MIN_NEW_CAPACITY: usize = 1_048_576;

/// What `least` exceeds `start` by, if it does.
pub open spec fn minus_or_none(least: nat, start: nat) -> nat {
    if least > start {
        (least - start) as nat
    } else {
        0
    }
}

/// The first of `start`, `2 * start`, `4 * start`, ... that is at least
/// `least`.
pub open spec fn doubled_up_to(start: nat, least: nat) -> nat
    decreases minus_or_none(least, start),
{
    if start >= least || start == 0 {
        start
    } else {
        doubled_up_to(2 * start, least)
    }
}

/// The smallest power of two that is at least `least`.
pub open spec fn power_of_two_above(least: nat) -> nat {
    doubled_up_to(1, least)
}

/// The capacity that the pool asks for when it allocates a buffer for at
/// least `min_size` bytes: the smallest power of two that holds them, or
/// `min_size` itself where that power is more than a `usize` holds, and a
/// megabyte at the least.
pub open spec fn new_capacity(min_size: nat) -> nat {
    let rounded = if power_of_two_above(min_size) <= usize::MAX {
        power_of_two_above(min_size)
    } else {
        min_size
    };
    if rounded < MIN_NEW_CAPACITY {
        MIN_NEW_CAPACITY as nat
    } else {
        rounded
    }
}

/// The most that the pool allocates ahead of use. A buffer for more grows
/// as it is filled.
pub const MAX_NEW_CAPACITY: usize = 1_073_741_824;

/// The capacity with which the pool allocates a buffer for at least
/// `min_size` bytes: `new_capacity`, but no more than a gigabyte.
pub open spec fn allocated_capacity(min_size: nat) -> nat {
    if new_capacity(min_size) > MAX_NEW_CAPACITY {
        MAX_NEW_CAPACITY as nat
    } else {
        new_capacity(min_size)
    }
}

/// Computes the capacity with which the pool allocates a buffer.
pub fn capacity_to_allocate(min_size: usize) -> (capacity: usize)
    ensures
        capacity == allocated_capacity(min_size as nat),
        MIN_NEW_CAPACITY <= capacity <= MAX_NEW_CAPACITY,
{
    let wanted = requested_capacity(min_size);
    if wanted > MAX_NEW_CAPACITY {
        MAX_NEW_CAPACITY
    } else {
        wanted
    }
}

/// Computes the capacity that the pool asks for when it allocates.
pub fn requested_capacity(min_size: usize) -> (capacity: usize)
    ensures
        capacity == new_capacity(min_size as nat),
        capacity >= min_size,
        capacity >= MIN_NEW_CAPACITY,
{
    let mut power: usize = 1;
    let mut fits: bool = true;
    while power < min_size
        invariant_except_break
            power >= 1,
            fits,
            doubled_up_to(power as nat, min_size as nat) == power_of_two_above(min_size as nat),
        ensures
            fits ==> power >= min_size && power == power_of_two_above(min_size as nat),
            !fits ==> power_of_two_above(min_size as nat) > usize::MAX,
        decreases minus_or_none(min_size as nat, power as nat),
    {
        if power > usize::MAX / 2 {
            proof {
                lemma_doubling_grows(2 * power as nat, min_size as nat);
            }
            fits = false;
            break ;
        }
        power = power * 2;
    }
    let rounded: usize = if fits {
        power
    } else {
        min_size
    };
    if rounded < MIN_NEW_CAPACITY {
        MIN_NEW_CAPACITY
    } else {
        rounded
    }
}

proof fn lemma_doubling_grows(start: nat, least: nat)
    ensures
        doubled_up_to(start, least) >= start,
    decreases minus_or_none(least, start),
{
    if !(start >= least || start == 0) {
        lemma_doubling_grows(2 * start, least);
    }
}

/// Whether a buffer of the given capacity serves a request for at least
/// `min_size` bytes.
pub open spec fn serves(capacity: nat, min_size: nat) -> bool {
    capacity >= min_size
}

/// Whether a pool that holds `pooled` buffers keeps one more of the given
/// capacity: it has room, and the buffer is larger than a kilobyte.
pub open spec fn keeps(pooled: nat, capacity: nat) -> bool {
    pooled < MAX_POOLED_BUFFERS && capacity > MIN_KEPT_CAPACITY
}

/// Decides whether a buffer serves a request.
pub fn buffer_serves(capacity: usize, min_size: usize) -> (enough: bool)
    ensures
        enough == serves(capacity as nat, min_size as nat),
{
    capacity >= min_size
}

/// Decides whether the pool keeps a buffer that is handed back.
pub fn worth_keeping(pooled: usize, capacity: usize) -> (kept: bool)
    ensures
        kept == keeps(pooled as nat, capacity as nat),
{
    pooled < MAX_POOLED_BUFFERS && capacity > MIN_KEPT_CAPACITY
}

/// The position of the first capacity, from `from` on, that serves a
/// request for `min_size` bytes, or the number of capacities where none
/// does.
pub open spec fn first_serving_from(capacities: Seq<usize>, min_size: nat, from: int) -> int
    decreases capacities.len() - from,
{
    if from >= capacities.len() {
        capacities.len() as int
    } else if serves(capacities[from] as nat, min_size) {
        from
    } else {
        first_serving_from(capacities, min_size, from + 1)
    }
}

/// The position of the first capacity that serves a request for
/// `min_size` bytes, or the number of capacities where none does.
pub open spec fn first_serving(capacities: Seq<usize>, min_size: nat) -> int {
    first_serving_from(capacities, min_size, 0)
}

/// The capacities of a pool after a request for `min_size` bytes: the
/// first that serves the request leaves, and the last takes its place.
/// Where none serves, the pool stays as it is.
pub open spec fn after_request(capacities: Seq<usize>, min_size: nat) -> Seq<usize> {
    let taken = first_serving(capacities, min_size);
    if 0 <= taken < capacities.len() {
        capacities.update(taken, capacities.last()).drop_last()
    } else {
        capacities
    }
}

/// The capacities of a pool after a buffer of the given capacity is
/// handed back: it joins the others at the end where the pool keeps it.
pub open spec fn after_return(capacities: Seq<usize>, capacity: usize) -> Seq<usize> {
    if keeps(capacities.len(), capacity as nat) {
        capacities.push(capacity)
    } else {
        capacities
    }
}

/// A pool of empty byte buffers. Beside each buffer the pool holds the
/// capacity that was measured when the buffer was handed back.
pub struct MemoryPool {
    buffers: Vec<Vec<u8>>,
    capacities: Vec<usize>,
}

impl View for MemoryPool {
    type V = Seq<usize>;

    /// The capacities of the buffers in the pool, in the order in which
    /// the pool holds them.
    closed spec fn view(&self) -> Seq<usize> {
        self.capacities@
    }
}

impl MemoryPool {
    /// The invariant of the pool: it keeps no more buffers than it may,
    /// all of them are empty, and each has its capacity beside it.
    pub closed spec fn wf(&self) -> bool {
        &&& self.buffers@.len() <= MAX_POOLED_BUFFERS
        &&& self.capacities@.len() == self.buffers@.len()
        &&& forall|i: int| 0 <= i < self.buffers@.len() ==> (#[trigger] self.buffers@[i])@.len() == 0
    }

    /// A pool without buffers.
    pub fn new() -> (pool: MemoryPool)
        ensures
            pool.wf(),
            pool@ == Seq::<usize>::empty(),
    {
        MemoryPool { buffers: Vec::new(), capacities: Vec::new() }
    }

    /// The number of buffers in the pool.
    pub fn len(&self) -> (count: usize)
        requires
            self.wf(),
        ensures
            count == self@.len(),
            count <= MAX_POOLED_BUFFERS,
    {
        self.buffers.len()
    }

    /// The capacities of the buffers in the pool, as they were measured
    /// when the buffers were handed back.
    pub fn capacities(&self) -> (list: Vec<usize>)
        requires
            self.wf(),
        ensures
            list@ == self@,
    {
        let n = self.capacities.len();
        let mut list: Vec<usize> = Vec::new();
        let mut i: usize = 0;
        while i < n
            invariant
                i <= n,
                n == self.capacities@.len(),
                list@ == self.capacities@.subrange(0, i as int),
            decreases n - i,
        {
            list.push(self.capacities[i]);
            assert(list@ =~= self.capacities@.subrange(0, i + 1));
            i = i + 1;
        }
        assert(list@ =~= self.capacities@);
        list
    }

    /// Takes an empty buffer for at least `min_size` bytes. The first of
    /// the pool's buffers whose capacity serves the request is handed out,
    /// and the last buffer of the pool takes its place. Where none serves,
    /// the pool stays as it is and a new buffer is allocated.
    pub fn get_buffer(&mut self, min_size: usize) -> (buffer: Vec<u8>)
        requires
            old(self).wf(),
        ensures
            final(self).wf(),
            buffer@.len() == 0,
            final(self)@ == after_request(old(self)@, min_size as nat),
    {
        let n = self.capacities.len();
        let mut i: usize = 0;
        while i < n
            invariant
                i <= n,
                n == self.buffers@.len(),
                self.buffers@ == old(self).buffers@,
                self.capacities@ == old(self).capacities@,
                old(self).wf(),
                first_serving_from(self.capacities@, min_size as nat, i as int) == first_serving(
                    self.capacities@,
                    min_size as nat,
                ),
            decreases n - i,
        {
            if buffer_serves(self.capacities[i], min_size) {
                let buffer = self.buffers.swap_remove(i);
                let _ = self.capacities.swap_remove(i);
                return buffer;
            }
            i = i + 1;
        }
        Vec::with_capacity(capacity_to_allocate(min_size))
    }

    /// Hands back a buffer whose capacity has been measured. The buffer is
    /// emptied, and joins the pool where the pool has room and the
    /// capacity is worth keeping; otherwise it is dropped.
    pub fn return_measured(&mut self, buffer: Vec<u8>, capacity: usize)
        requires
            old(self).wf(),
        ensures
            final(self).wf(),
            final(self)@ == after_return(old(self)@, capacity),
    {
        let mut buffer = buffer;
        buffer.clear();
        if worth_keeping(self.buffers.len(), capacity) {
            self.buffers.push(buffer);
            self.capacities.push(capacity);
        }
    }

    /// Hands a buffer back. Its capacity is measured, which is at least
    /// its length; then it is emptied, and joins the pool where the pool
    /// has room and the capacity is worth keeping. So a buffer of more
    /// than a kilobyte is always kept by a pool with room, and a full pool
    /// keeps nothing more.
    pub fn return_buffer(&mut self, buffer: Vec<u8>)
        requires
            old(self).wf(),
        ensures
            final(self).wf(),
            exists|capacity: usize|
                capacity >= buffer@.len() && final(self)@ == #[trigger] after_return(
                    old(self)@,
                    capacity,
                ),
    {
        let capacity = buffer_capacity(&buffer);
        self.return_measured(buffer, capacity);
    }

    /// Drops every buffer of the pool.
    pub fn clear(&mut self)
        ensures
            final(self).wf(),
            final(self)@ == Seq::<usize>::empty(),
    {
        self.buffers.clear();
        self.capacities.clear();
    }
}

/// Empties a pool, as at the end of a run.
pub fn cleanup_memory_pool(pool: &mut MemoryPool)
    ensures
        final(pool).wf(),
        final(pool)@ == Seq::<usize>::empty(),
{
    pool.clear();
}

} // verus!
