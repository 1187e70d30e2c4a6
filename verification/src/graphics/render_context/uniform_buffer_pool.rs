use vstd::prelude::*;

verus! {

/// The length of a pool of `len` buffers once it was asked to hold
/// `capacity` of them.
pub open spec fn grown(len: nat, capacity: nat) -> nat {
    if len < capacity {
        capacity
    } else {
        len
    }
}

/// The uniform buffers of the objects of a frame, one for each place in the
/// frame's list of operations, each with the binding object that names it
/// beside the global buffer.
///
/// The pool grows to the longest list it has seen and never shrinks: the
/// buffers are used again frame after frame.
pub struct UniformBufferPool {
    len: usize,
}

impl View for UniformBufferPool {
    type V = nat;

    closed spec fn view(&self) -> nat {
        self.len as nat
    }
}

impl UniformBufferPool {
    /// A pool without buffers.
    pub fn new() -> (pool: Self)
        ensures
            pool@ == 0,
    {
        UniformBufferPool { len: 0 }
    }

    /// The number of buffers in the pool.
    pub fn len(&self) -> (len: usize)
        ensures
            len == self@,
    {
        self.len
    }

    /// Makes sure that the pool holds at least `capacity` buffers, and
    /// returns how many it held before: the buffers from there on are new.
    pub fn ensure_capacity(&mut self, capacity: usize) -> (first_new: usize)
        ensures
            first_new == old(self)@,
            final(self)@ == grown(old(self)@, capacity as nat),
    {
        let first_new: usize = self.len;
        if self.len < capacity {
            self.len = capacity;
        }
        first_new
    }
}

/// A pool never shrinks, and holds what it was asked to hold.
pub proof fn lemma_grown_bounds(len: nat, capacity: nat)
    ensures
        grown(len, capacity) >= len,
        grown(len, capacity) >= capacity,
        grown(len, capacity) == len || grown(len, capacity) == capacity,
{
}

/// A pool that was asked for `first` buffers still holds as many after it
/// was asked for fewer.
pub proof fn lemma_capacity_is_kept(len: nat, first: nat, second: nat)
    requires
        second < first,
    ensures
        grown(grown(len, first), second) >= first,
        grown(grown(len, first), second) == grown(len, first),
{
}

} // verus!
