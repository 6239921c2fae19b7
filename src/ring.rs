use ringbuf::traits::{Consumer, Observer, Producer};
use ringbuf::HeapRb;
use vstd::math::min;
use vstd::prelude::*;

verus! {

/// Holds a `ringbuf` heap ring buffer of samples, owned by one party.
#[verifier::external_body]
pub struct RingStore {
    rb: HeapRb<u32>,
}

/// The samples held by a ring buffer, oldest first.
pub uninterp spec fn rb_items(rb: RingStore) -> Seq<u32>;

/// The fixed number of slots of a ring buffer.
pub uninterp spec fn rb_capacity(rb: RingStore) -> nat;

/// Relies on `ringbuf::HeapRb::new` (`SharedRb<Heap<T>>::new`): an empty buffer with `capacity`
/// slots; it panics when `capacity` is zero.
#[verifier::external_body]
fn rb_new(capacity: usize) -> (rb: RingStore)
    requires
        capacity > 0,
    ensures
        rb_items(rb) == Seq::<u32>::empty(),
        rb_capacity(rb) == capacity,
{
    RingStore { rb: HeapRb::<u32>::new(capacity) }
}

/// Relies on `ringbuf::traits::Observer::occupied_len`: with no other party holding the
/// buffer, the number of stored samples.
#[verifier::external_body]
fn rb_occupied_len(rb: &RingStore) -> (n: usize)
    ensures
        n == rb_items(*rb).len(),
{
    rb.rb.occupied_len()
}

/// Relies on `ringbuf::traits::Observer::capacity`: the slot count fixed at construction.
#[verifier::external_body]
fn rb_capacity_of(rb: &RingStore) -> (n: usize)
    ensures
        n == rb_capacity(*rb),
{
    rb.rb.capacity().get()
}

/// Relies on `ringbuf::traits::Observer::is_empty`: the read and write indices coincide
/// exactly when nothing is stored.
#[verifier::external_body]
fn rb_is_empty(rb: &RingStore) -> (b: bool)
    ensures
        b == (rb_items(*rb).len() == 0),
{
    rb.rb.is_empty()
}

/// Relies on `ringbuf::traits::Producer::push_slice`: copies the longest prefix of `elems`
/// that fits in the vacant slots, appends it, and returns its length.
#[verifier::external_body]
fn rb_push_slice(rb: &mut RingStore, elems: &[u32]) -> (n: usize)
    requires
        rb_items(*old(rb)).len() <= rb_capacity(*old(rb)),
    ensures
        n == if elems@.len() <= rb_capacity(*old(rb)) - rb_items(*old(rb)).len() {
            elems@.len() as int
        } else {
            rb_capacity(*old(rb)) - rb_items(*old(rb)).len()
        },
        rb_items(*final(rb)) == rb_items(*old(rb)) + elems@.take(n as int),
        rb_capacity(*final(rb)) == rb_capacity(*old(rb)),
{
    rb.rb.push_slice(elems)
}

/// Relies on `ringbuf::traits::Consumer::try_pop`: removes and returns the oldest sample,
/// or `None` when the buffer is empty.
#[verifier::external_body]
fn rb_try_pop(rb: &mut RingStore) -> (r: Option<u32>)
    ensures
        rb_capacity(*final(rb)) == rb_capacity(*old(rb)),
        rb_items(*old(rb)).len() == 0 ==> r is None && rb_items(*final(rb)) == rb_items(*old(rb)),
        rb_items(*old(rb)).len() > 0 ==> r == Some(rb_items(*old(rb))[0])
            && rb_items(*final(rb)) == rb_items(*old(rb)).drop_first(),
{
    rb.rb.try_pop()
}

/// A fixed-capacity first-in first-out queue of samples with one writer and
/// one reader.
pub struct SampleRing {
    rb: RingStore,
}

impl View for SampleRing {
    type V = Seq<u32>;

    /// The stored samples, oldest first.
    closed spec fn view(&self) -> Seq<u32> {
        rb_items(self.rb)
    }
}

impl SampleRing {
    /// The number of slots.
    pub closed spec fn spec_capacity(&self) -> nat {
        rb_capacity(self.rb)
    }

    /// Well-formed: at least one slot, and never more samples than slots.
    pub open spec fn wf(&self) -> bool {
        &&& self.spec_capacity() > 0
        &&& self@.len() <= self.spec_capacity()
    }

    /// An empty ring with `capacity` slots.
    pub fn new(capacity: usize) -> (r: SampleRing)
        requires
            capacity > 0,
        ensures
            r.wf(),
            r@ == Seq::<u32>::empty(),
            r.spec_capacity() == capacity,
    {
        SampleRing { rb: rb_new(capacity) }
    }

    /// The number of samples waiting to be read.
    pub fn occupied_len(&self) -> (n: usize)
        ensures
            n == self@.len(),
    {
        rb_occupied_len(&self.rb)
    }

    /// The number of slots.
    pub fn capacity(&self) -> (n: usize)
        ensures
            n == self.spec_capacity(),
    {
        rb_capacity_of(&self.rb)
    }

    /// Whether no sample is waiting.
    pub fn is_empty(&self) -> (b: bool)
        ensures
            b == (self@.len() == 0),
    {
        rb_is_empty(&self.rb)
    }

    /// Appends as many of `samples` as there are free slots, in order, and
    /// returns how many were written; stored samples are never overwritten.
    pub fn push_slice(&mut self, samples: &[u32]) -> (n: usize)
        requires
            old(self).wf(),
        ensures
            final(self).wf(),
            final(self).spec_capacity() == old(self).spec_capacity(),
            n as int == min(samples@.len() as int, old(self).spec_capacity() - old(self)@.len()),
            final(self)@ == old(self)@ + samples@.take(n as int),
    {
        rb_push_slice(&mut self.rb, samples)
    }

    /// Removes and returns the oldest sample, or `None` when empty.
    pub fn try_pop(&mut self) -> (r: Option<u32>)
        requires
            old(self).wf(),
        ensures
            final(self).wf(),
            final(self).spec_capacity() == old(self).spec_capacity(),
            old(self)@.len() == 0 ==> r is None && final(self)@ == old(self)@,
            old(self)@.len() > 0 ==> r == Some(old(self)@[0]) && final(self)@ == old(self)@.drop_first(),
    {
        rb_try_pop(&mut self.rb)
    }
}

/// Occupancy stays within the capacity: every operation on a well-formed
/// ring leaves it well-formed, so after any sequence of pushes and pops the
/// number of stored samples lies between zero and the capacity.
pub proof fn lemma_occupancy_bounded(ring: SampleRing)
    requires
        ring.wf(),
    ensures
        0 <= ring@.len() <= ring.spec_capacity(),
{
}

} // verus!
