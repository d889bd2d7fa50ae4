use vstd::prelude::*;

verus! {

/// The most recent block of samples, handed from one writer to any number of
/// readers.
///
/// Its capacity is fixed when it is made. It holds nothing until the first
/// block is written, and from then on always exactly `capacity` samples, all
/// from one block: a block is replaced as a whole, never appended to. Callers
/// that share it across threads put it behind one lock, so that
/// `replace_all` and `snapshot` are each a single critical section.
pub struct SampleWindow<T> {
    samples: Vec<T>,
    capacity: usize,
}

impl<T> View for SampleWindow<T> {
    type V = Seq<T>;

    closed spec fn view(&self) -> Seq<T> {
        self.samples@
    }
}

impl<T> SampleWindow<T> {
    /// The fixed number of samples of a complete block.
    pub closed spec fn capacity_of(&self) -> nat {
        self.capacity as nat
    }

    #[verifier::type_invariant]
    spec fn holds_nothing_or_one_block(&self) -> bool {
        self.samples@.len() == 0 || self.samples@.len() == self.capacity
    }
}

impl<T: Copy> SampleWindow<T> {
    /// An empty window for blocks of `capacity` samples; its storage is
    /// reserved at once, so that writing a block allocates nothing.
    pub fn new(capacity: usize) -> (r: Self)
        ensures
            r@ == Seq::<T>::empty(),
            r.capacity_of() == capacity,
    {
        SampleWindow { samples: Vec::with_capacity(capacity), capacity }
    }

    /// The fixed number of samples of a complete block.
    pub fn capacity(&self) -> (r: usize)
        ensures
            r == self.capacity_of(),
    {
        self.capacity
    }

    /// Discards the previous contents and stores `new_samples` in their place.
    pub fn replace_all(&mut self, new_samples: &[T])
        requires
            new_samples@.len() == old(self).capacity_of(),
        ensures
            final(self)@ == new_samples@,
            final(self).capacity_of() == old(self).capacity_of(),
    {
        // Reuse the reserved storage: the window is empty while it is refilled.
        let mut buf: Vec<T> = Vec::new();
        core::mem::swap(&mut self.samples, &mut buf);
        buf.clear();
        let n = new_samples.len();
        let mut i: usize = 0;
        while i < n
            invariant
                n == new_samples@.len(),
                i <= n,
                buf@ == new_samples@.subrange(0, i as int),
            decreases n - i,
        {
            buf.push(new_samples[i]);
            i += 1;
        }
        proof {
            assert(buf@ =~= new_samples@);
        }
        self.samples = buf;
    }

    /// A copy of the current contents: empty before the first block is
    /// written, afterwards exactly the last block written.
    pub fn snapshot(&self) -> (r: Vec<T>)
        ensures
            r@ == self@,
            r@.len() == 0 || r@.len() == self.capacity_of(),
    {
        proof {
            use_type_invariant(self);
        }
        let n = self.samples.len();
        let mut copy = Vec::with_capacity(n);
        let mut i: usize = 0;
        while i < n
            invariant
                n == self.samples@.len(),
                i <= n,
                copy@ == self.samples@.subrange(0, i as int),
            decreases n - i,
        {
            copy.push(self.samples[i]);
            i += 1;
        }
        proof {
            assert(copy@ =~= self.samples@);
        }
        copy
    }
}

} // verus!
