//! Reservation of stack space in a frame.
use vstd::prelude::*;

verus! {

/// A stack allocator: a counter of the bytes reserved below the frame base.
/// Space is never given back, so the offsets it hands out only grow.
#[derive(Debug, Default)]
pub struct StackAlloc {
    current_size: usize,
}

impl View for StackAlloc {
    /// The number of bytes reserved so far.
    type V = nat;

    closed spec fn view(&self) -> nat {
        self.current_size as nat
    }
}

impl StackAlloc {
    /// An allocator with nothing reserved.
    pub fn new() -> (r: Self)
        ensures
            r@ == 0,
    {
        StackAlloc { current_size: 0 }
    }

    /// The number of bytes reserved so far.
    pub fn size(&self) -> (r: usize)
        ensures
            r == self@,
    {
        self.current_size
    }

    /// Reserves `size` more bytes and returns the new total: the offset below
    /// the frame base at which the reserved space starts.
    pub fn allocate(&mut self, size: usize) -> (r: usize)
        requires
            old(self)@ + size <= usize::MAX,
        ensures
            r == old(self)@ + size,
            final(self)@ == r,
    {
        self.current_size = self.current_size + size;
        self.current_size
    }
}

} // verus!
