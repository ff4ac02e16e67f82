//! The store behind a pool of aligned buffers: the buffers kept for reuse,
//! and the rules for taking one out and handing one back.
use vstd::prelude::*;
use rkyv::util::AlignedVec;

use crate::buffers::{
    aligned_bytes, aligned_capacity, aligned_capacity_of, aligned_clear, aligned_with_capacity,
};

verus! {

/// Default buffer size for pooled buffers.
pub const DEFAULT_BUFFER_SIZE: usize = 4096;

/// Maximum number of buffers to keep in the pool by default.
pub const DEFAULT_POOL_CAPACITY: usize = 64;

/// The largest buffer size a pool accepts: four times it must fit in a
/// `usize`, since buffers up to four times the size are taken back.
pub open spec fn max_buffer_size() -> int {
    usize::MAX as int / 4
}

/// Whether a buffer handed back is kept: it is not much larger than the
/// pool's buffers (at most four times their size), and the pool has room.
pub open spec fn keeps_returned(capacity_of_buffer: nat, buffer_size: usize, held: nat, capacity: usize) -> bool {
    capacity_of_buffer <= 4 * buffer_size && held < capacity
}

/// The buffers a pool keeps for reuse, at most `capacity` of them.
pub struct BufferStore {
    buffers: Vec<AlignedVec>,
    buffer_size: usize,
    capacity: usize,
}

impl BufferStore {
    #[verifier::type_invariant]
    spec fn inv(&self) -> bool {
        &&& self.buffers.len() <= self.capacity
        &&& self.buffer_size <= max_buffer_size()
    }

    /// The buffers held, in the order they were put back.
    pub closed spec fn view(&self) -> Seq<AlignedVec> {
        self.buffers@
    }

    /// The capacity of a new buffer.
    pub closed spec fn spec_buffer_size(&self) -> usize {
        self.buffer_size
    }

    /// The most buffers the store keeps.
    pub closed spec fn spec_capacity(&self) -> usize {
        self.capacity
    }

    /// A store with the default buffer size and capacity.
    pub fn new() -> (r: Self)
        ensures
            r@ == Seq::<AlignedVec>::empty(),
            r.spec_buffer_size() == DEFAULT_BUFFER_SIZE,
            r.spec_capacity() == DEFAULT_POOL_CAPACITY,
    {
        Self::with_config(DEFAULT_BUFFER_SIZE, DEFAULT_POOL_CAPACITY)
    }

    /// A store for buffers of `buffer_size` bytes that keeps at most
    /// `capacity` of them.
    pub fn with_config(buffer_size: usize, capacity: usize) -> (r: Self)
        requires
            buffer_size <= max_buffer_size(),
        ensures
            r@ == Seq::<AlignedVec>::empty(),
            r.spec_buffer_size() == buffer_size,
            r.spec_capacity() == capacity,
    {
        BufferStore { buffers: Vec::new(), buffer_size, capacity }
    }

    /// The capacity of a new buffer.
    pub fn buffer_size(&self) -> (r: usize)
        ensures
            r == self.spec_buffer_size(),
            r <= max_buffer_size(),
    {
        proof {
            use_type_invariant(self);
        }
        self.buffer_size
    }

    /// The most buffers the store keeps.
    pub fn capacity(&self) -> (r: usize)
        ensures
            r == self.spec_capacity(),
    {
        self.capacity
    }

    /// The number of buffers held; never more than the capacity.
    pub fn available(&self) -> (r: usize)
        ensures
            r == self@.len(),
            r <= self.spec_capacity(),
    {
        proof {
            use_type_invariant(self);
        }
        self.buffers.len()
    }

    /// Takes the buffer put back last, or makes a new empty one of
    /// `buffer_size` bytes when none is held.
    pub fn acquire(&mut self) -> (r: AlignedVec)
        ensures
            final(self).spec_buffer_size() == old(self).spec_buffer_size(),
            final(self).spec_capacity() == old(self).spec_capacity(),
            old(self)@.len() > 0 ==> r == old(self)@.last() && final(self)@ == old(self)@.drop_last(),
            old(self)@.len() == 0 ==> aligned_bytes(r) == Seq::<u8>::empty() && aligned_capacity(r)
                == old(self).spec_buffer_size() && final(self)@ == old(self)@,
    {
        proof {
            use_type_invariant(&*self);
        }
        let mut buffers = Vec::new();
        std::mem::swap(&mut buffers, &mut self.buffers);
        let taken = buffers.pop();
        self.buffers = buffers;
        match taken {
            Some(b) => b,
            None => aligned_with_capacity(self.buffer_size),
        }
    }

    /// Hands a buffer back: it is emptied and kept when `keeps_returned`
    /// allows it, and dropped otherwise.
    pub fn release(&mut self, buffer: AlignedVec)
        ensures
            final(self).spec_buffer_size() == old(self).spec_buffer_size(),
            final(self).spec_capacity() == old(self).spec_capacity(),
            keeps_returned(
                aligned_capacity(buffer),
                old(self).spec_buffer_size(),
                old(self)@.len(),
                old(self).spec_capacity(),
            ) ==> ({
                let kept = final(self)@.last();
                &&& final(self)@.len() == old(self)@.len() + 1
                &&& final(self)@.drop_last() == old(self)@
                &&& aligned_bytes(kept) == Seq::<u8>::empty()
                &&& aligned_capacity(kept) == aligned_capacity(buffer)
            }),
            !keeps_returned(
                aligned_capacity(buffer),
                old(self).spec_buffer_size(),
                old(self)@.len(),
                old(self).spec_capacity(),
            ) ==> final(self)@ == old(self)@,
    {
        proof {
            use_type_invariant(&*self);
        }
        let mut buffer = buffer;
        if aligned_capacity_of(&buffer) <= self.buffer_size * 4 {
            aligned_clear(&mut buffer);
            if self.buffers.len() < self.capacity {
                let mut buffers = Vec::new();
                std::mem::swap(&mut buffers, &mut self.buffers);
                buffers.push(buffer);
                proof {
                    assert(buffers@.drop_last() =~= old(self)@);
                }
                self.buffers = buffers;
            }
        }
    }

    /// Adds new empty buffers of `buffer_size` bytes, as many as `count` but
    /// no more than the room left.
    pub fn preallocate(&mut self, count: usize)
        ensures
            final(self).spec_buffer_size() == old(self).spec_buffer_size(),
            final(self).spec_capacity() == old(self).spec_capacity(),
            final(self)@.len() == old(self)@.len() + (if count <= old(self).spec_capacity() - old(self)@.len() {
                count as int
            } else {
                old(self).spec_capacity() - old(self)@.len()
            }),
            final(self)@.take(old(self)@.len() as int) == old(self)@,
            forall|k: int|
                old(self)@.len() <= k < final(self)@.len() ==> aligned_bytes(#[trigger] final(self)@[k])
                    == Seq::<u8>::empty() && aligned_capacity(final(self)@[k])
                    == old(self).spec_buffer_size(),
    {
        proof {
            use_type_invariant(&*self);
        }
        let room = self.capacity - self.buffers.len();
        let to_add = if count <= room { count } else { room };
        let mut buffers = Vec::new();
        std::mem::swap(&mut buffers, &mut self.buffers);
        let start = buffers.len();
        let mut i: usize = 0;
        while i < to_add
            invariant
                i <= to_add,
                start + to_add <= self.capacity,
                buffers@.len() == start + i,
                buffers@.take(start as int) == old(self)@,
                self.buffer_size == old(self).spec_buffer_size(),
                self.buffer_size <= max_buffer_size(),
                forall|k: int|
                    start <= k < buffers@.len() ==> aligned_bytes(#[trigger] buffers@[k]) == Seq::<
                        u8,
                    >::empty() && aligned_capacity(buffers@[k]) == self.buffer_size,
            decreases to_add - i,
        {
            let b = aligned_with_capacity(self.buffer_size);
            let ghost before = buffers@;
            buffers.push(b);
            proof {
                assert(buffers@.take(start as int) =~= before.take(start as int));
            }
            i = i + 1;
        }
        self.buffers = buffers;
    }

    /// Drops every buffer held.
    pub fn clear(&mut self)
        ensures
            final(self)@ == Seq::<AlignedVec>::empty(),
            final(self).spec_buffer_size() == old(self).spec_buffer_size(),
            final(self).spec_capacity() == old(self).spec_capacity(),
    {
        proof {
            use_type_invariant(&*self);
        }
        self.buffers = Vec::new();
    }
}

/// A buffer that the store made itself is always taken back while the store
/// has room: its capacity is the buffer size, within four times that size.
pub proof fn lemma_own_buffer_taken_back(buffer_size: usize, held: nat, capacity: usize)
    requires
        held < capacity,
    ensures
        keeps_returned(buffer_size as nat, buffer_size, held, capacity),
{
}

impl Default for BufferStore {
    fn default() -> (r: Self)
        ensures
            r@ == Seq::<AlignedVec>::empty(),
            r.spec_buffer_size() == DEFAULT_BUFFER_SIZE,
            r.spec_capacity() == DEFAULT_POOL_CAPACITY,
    {
        Self::new()
    }
}

} // verus!
