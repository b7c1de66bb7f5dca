//! Host-side bookkeeping of a fixed-capacity instance buffer.
//!
//! The GPU buffer is sized once, at creation, and every upload writes the
//! whole array; only the first `live` records are drawn.
use vstd::prelude::*;

verus! {

/// What an instance buffer holds: the array mirrored to the GPU (its length is
/// the capacity) and how many of its records are drawn.
pub struct InstanceBufferView<I> {
    pub records: Seq<I>,
    pub live: nat,
}

/// The buffer after an update with `host`: the first records are overwritten
/// by `host`, cut to the capacity; the rest keep their old contents and are not
/// drawn.
pub open spec fn updated<I>(v: InstanceBufferView<I>, host: Seq<I>) -> InstanceBufferView<I> {
    let n = if host.len() <= v.records.len() { host.len() } else { v.records.len() };
    InstanceBufferView {
        records: Seq::new(
            v.records.len(),
            |i: int|
                if i < n {
                    host[i]
                } else {
                    v.records[i]
                },
        ),
        live: n,
    }
}

/// Instance records of type `I`, uploaded as a whole every frame.
pub struct InstanceBuffer<I> {
    records: Vec<I>,
    live: usize,
}

impl<I> View for InstanceBuffer<I> {
    type V = InstanceBufferView<I>;

    closed spec fn view(&self) -> InstanceBufferView<I> {
        InstanceBufferView { records: self.records@, live: self.live as nat }
    }
}

impl<I: Copy> InstanceBuffer<I> {
    /// Well formed: no more records are drawn than the buffer holds, and a
    /// draw call can count them all.
    pub closed spec fn wf(&self) -> bool {
        &&& self.live <= self.records.len()
        &&& self.records.len() <= u32::MAX
    }

    /// A buffer whose capacity is the number of initial records, all drawn.
    pub fn new(instances: Vec<I>) -> (r: Self)
        requires
            instances@.len() <= u32::MAX,
        ensures
            r.wf(),
            r@.records == instances@,
            r@.live == instances@.len(),
    {
        let live = instances.len();
        InstanceBuffer { records: instances, live }
    }

    pub fn capacity(&self) -> (r: usize)
        requires
            self.wf(),
        ensures
            r == self@.records.len(),
    {
        self.records.len()
    }

    /// How many records the next instanced draw covers.
    pub fn instance_count(&self) -> (r: u32)
        requires
            self.wf(),
        ensures
            r == self@.live,
    {
        self.live as u32
    }

    /// The whole array, as it is written to the GPU buffer.
    pub fn contents(&self) -> (r: &[I])
        ensures
            r@ == self@.records,
    {
        self.records.as_slice()
    }

    /// Overwrites the buffer with `host`, cut to the capacity.
    pub fn update(&mut self, host: &[I])
        requires
            old(self).wf(),
        ensures
            final(self).wf(),
            final(self)@ == updated(old(self)@, host@),
    {
        let cap = self.records.len();
        let n = if host.len() <= cap {
            host.len()
        } else {
            cap
        };
        let mut i: usize = 0;
        while i < n
            invariant
                n <= cap,
                n <= host@.len(),
                cap == self.records@.len(),
                i <= n,
                forall|j: int| 0 <= j < i ==> self.records@[j] == host@[j],
                forall|j: int| i <= j < cap ==> self.records@[j] == old(self).records@[j],
            decreases n - i,
        {
            self.records.set(i, host[i]);
            i = i + 1;
        }
        self.live = n;
        assert(self@.records =~= updated(old(self)@, host@).records);
    }
}

} // verus!
