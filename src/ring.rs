//! The sample ring: a fixed-capacity FIFO of interleaved samples, each held
//! as the bit pattern of a 32-bit float, kept in `ringbuf`'s heap ring.
//!
//! `SampleRing` owns the whole ring and is fully specified. `split` hands it
//! out as one `RingProducer` and one `RingConsumer`, which may then run on
//! two threads; each records the outcome of every operation it made.

use vstd::prelude::*;
use ringbuf::{HeapConsumer, HeapProducer, HeapRb, Rb};

verus! {

/// `ringbuf`'s heap ring of samples, owned whole.
#[verifier::external_body]
pub struct RingStorage {
    rb: HeapRb<u32>,
}

/// The writing half of a split ring.
#[verifier::external_body]
pub struct ProducerHandle {
    prod: HeapProducer<u32>,
}

/// The reading half of a split ring.
#[verifier::external_body]
pub struct ConsumerHandle {
    cons: HeapConsumer<u32>,
}

/// The samples a ring holds, oldest first.
pub uninterp spec fn ring_items(storage: RingStorage) -> Seq<u32>;

/// The number of samples a ring was made to hold.
pub uninterp spec fn ring_capacity(storage: RingStorage) -> nat;

/// Relies on `SharedRb::new`: an empty ring of the given capacity. It panics
/// on a zero capacity, which `requires` leaves out, and when the allocation
/// fails, which no argument decides.
#[verifier::external_body]
fn storage_new(capacity: usize) -> (s: RingStorage)
    requires
        capacity > 0,
    ensures
        ring_items(s) == Seq::<u32>::empty(),
        ring_capacity(s) == capacity,
{
    RingStorage { rb: HeapRb::<u32>::new(capacity) }
}

/// Relies on `Rb::push`: appends the sample when the ring is not full, and
/// otherwise hands it back and leaves the ring as it was.
#[verifier::external_body]
fn storage_push(storage: &mut RingStorage, sample: u32) -> (r: Result<(), u32>)
    ensures
        ring_capacity(*final(storage)) == ring_capacity(*old(storage)),
        ring_items(*old(storage)).len() < ring_capacity(*old(storage)) ==> {
            &&& r is Ok
            &&& ring_items(*final(storage)) == ring_items(*old(storage)).push(sample)
        },
        ring_items(*old(storage)).len() >= ring_capacity(*old(storage)) ==> {
            &&& r == Err::<(), u32>(sample)
            &&& ring_items(*final(storage)) == ring_items(*old(storage))
        },
{
    storage.rb.push(sample)
}

/// Relies on `Rb::pop`: removes and returns the oldest sample, or `None`
/// when the ring is empty.
#[verifier::external_body]
fn storage_pop(storage: &mut RingStorage) -> (r: Option<u32>)
    ensures
        ring_capacity(*final(storage)) == ring_capacity(*old(storage)),
        ring_items(*old(storage)).len() == 0 ==> {
            &&& r is None
            &&& ring_items(*final(storage)) == ring_items(*old(storage))
        },
        ring_items(*old(storage)).len() > 0 ==> {
            &&& r == Some(ring_items(*old(storage))[0])
            &&& ring_items(*final(storage)) == ring_items(*old(storage)).drop_first()
        },
{
    storage.rb.pop()
}

/// Relies on `Rb::len`: the number of samples held.
#[verifier::external_body]
fn storage_len(storage: &RingStorage) -> (r: usize)
    ensures
        r == ring_items(*storage).len(),
{
    storage.rb.len()
}

/// Relies on `Rb::capacity`: the capacity the ring was made with.
#[verifier::external_body]
fn storage_capacity(storage: &RingStorage) -> (r: usize)
    ensures
        r == ring_capacity(*storage),
{
    storage.rb.capacity()
}

/// Relies on `SharedRb::split`: the ring becomes one producer and one
/// consumer over the same storage.
#[verifier::external_body]
fn storage_split(storage: RingStorage) -> (r: (ProducerHandle, ConsumerHandle))
{
    let (prod, cons) = storage.rb.split();
    (ProducerHandle { prod }, ConsumerHandle { cons })
}

/// Relies on `Producer::push`: whether the sample went into the ring. What
/// the consumer does meanwhile decides it, so nothing more is stated.
#[verifier::external_body]
fn producer_push(handle: &mut ProducerHandle, sample: u32) -> (accepted: bool)
{
    handle.prod.push(sample).is_ok()
}

/// Relies on `Consumer::pop`: the oldest sample the producer has published,
/// or `None` when there is none.
#[verifier::external_body]
fn consumer_pop(handle: &mut ConsumerHandle) -> (r: Option<u32>)
{
    handle.cons.pop()
}


/// The bit pattern of silence: a 32-bit float zero.
pub const SILENCE: u32 = 0;

/// The smaller of two naturals.
pub open spec fn min_nat(a: nat, b: nat) -> nat {
    if a <= b { a } else { b }
}

/// Free places in a ring holding `items` out of `capacity`.
pub open spec fn room(items: Seq<u32>, capacity: nat) -> nat {
    if items.len() <= capacity { (capacity - items.len()) as nat } else { 0 }
}

/// What a ring holding `items` out of `capacity` holds after each sample of
/// `data` was offered in turn: the samples that found room are appended, the
/// rest are dropped.
pub open spec fn captured(items: Seq<u32>, capacity: nat, data: Seq<u32>) -> Seq<u32> {
    items + data.take(min_nat(room(items, capacity), data.len()) as int)
}

/// Offering `data` overruns the ring: some sample found it full.
pub open spec fn overruns(items: Seq<u32>, capacity: nat, data: Seq<u32>) -> bool {
    data.len() > room(items, capacity)
}

/// The block of `n` slots played from a ring holding `items`: the oldest
/// samples in order, then silence for the slots the ring could not fill.
pub open spec fn played(items: Seq<u32>, n: nat) -> Seq<u32> {
    Seq::new(n, |i: int| if i < items.len() { items[i] } else { SILENCE })
}

/// What the ring holds after a block of `n` slots was played from it.
pub open spec fn left_after_play(items: Seq<u32>, n: nat) -> Seq<u32> {
    items.skip(min_nat(n, items.len()) as int)
}

/// Playing `n` slots underruns the ring: some slot found it empty.
pub open spec fn underruns(items: Seq<u32>, n: nat) -> bool {
    n > items.len()
}

/// A fixed-capacity FIFO of samples, owned whole.
pub struct SampleRing {
    storage: RingStorage,
}

impl View for SampleRing {
    type V = Seq<u32>;

    /// The samples held, oldest first.
    closed spec fn view(&self) -> Seq<u32> {
        ring_items(self.storage)
    }
}

impl SampleRing {
    /// The number of samples the ring was made to hold.
    pub closed spec fn cap(&self) -> nat {
        ring_capacity(self.storage)
    }

    /// The ring never holds more than its capacity, which is positive.
    pub open spec fn wf(&self) -> bool {
        0 < self.cap() && self@.len() <= self.cap()
    }

    /// An empty ring of the given capacity.
    pub fn with_capacity(capacity: usize) -> (r: SampleRing)
        requires
            capacity > 0,
        ensures
            r.wf(),
            r@ == Seq::<u32>::empty(),
            r.cap() == capacity,
    {
        SampleRing { storage: storage_new(capacity) }
    }

    /// Appends a sample when there is room; otherwise hands it back and
    /// leaves the ring unchanged.
    pub fn push(&mut self, sample: u32) -> (r: Result<(), u32>)
        requires
            old(self).wf(),
        ensures
            final(self).wf(),
            final(self).cap() == old(self).cap(),
            old(self)@.len() < old(self).cap() ==> r is Ok && final(self)@ == old(self)@.push(sample),
            old(self)@.len() == old(self).cap() ==> r == Err::<(), u32>(sample) && final(self)@ == old(self)@,
    {
        storage_push(&mut self.storage, sample)
    }

    /// Removes and returns the oldest sample, or `None` when empty.
    pub fn pop(&mut self) -> (r: Option<u32>)
        requires
            old(self).wf(),
        ensures
            final(self).wf(),
            final(self).cap() == old(self).cap(),
            old(self)@.len() == 0 ==> r is None && final(self)@ == old(self)@,
            old(self)@.len() > 0 ==> r == Some(old(self)@[0]) && final(self)@ == old(self)@.drop_first(),
    {
        storage_pop(&mut self.storage)
    }

    /// The number of samples held.
    pub fn len(&self) -> (r: usize)
        ensures
            r == self@.len(),
    {
        storage_len(&self.storage)
    }

    /// The capacity the ring was made with.
    pub fn capacity(&self) -> (r: usize)
        ensures
            r == self.cap(),
    {
        storage_capacity(&self.storage)
    }

    /// The number of free places.
    pub fn free_len(&self) -> (r: usize)
        requires
            self.wf(),
        ensures
            r == self.cap() - self@.len(),
    {
        self.capacity() - self.len()
    }

    /// Whether the ring holds no sample.
    pub fn is_empty(&self) -> (r: bool)
        ensures
            r == (self@.len() == 0),
    {
        self.len() == 0
    }

    /// Whether every place is taken.
    pub fn is_full(&self) -> (r: bool)
        requires
            self.wf(),
        ensures
            r == (self@.len() == self.cap()),
    {
        self.free_len() == 0
    }

    /// Splits the ring into its writing and its reading half, for two
    /// threads; neither half has done anything yet.
    pub fn split(self) -> (r: (RingProducer, RingConsumer))
        ensures
            r.0.history() == Seq::<(u32, bool)>::empty(),
            r.1.history() == Seq::<Option<u32>>::empty(),
    {
        let (prod, cons) = storage_split(self.storage);
        (
            RingProducer { handle: prod, attempts: Ghost(Seq::empty()) },
            RingConsumer { handle: cons, pops: Ghost(Seq::empty()) },
        )
    }
}

/// The writing half of a split ring, owned by the capture side.
pub struct RingProducer {
    handle: ProducerHandle,
    attempts: Ghost<Seq<(u32, bool)>>,
}

impl RingProducer {
    /// Every sample offered so far, in order, with whether the ring took it.
    pub closed spec fn history(&self) -> Seq<(u32, bool)> {
        self.attempts@
    }

    /// Offers one sample; the result says whether the ring took it.
    pub fn push(&mut self, sample: u32) -> (accepted: bool)
        ensures
            final(self).history() == old(self).history().push((sample, accepted)),
    {
        let accepted = producer_push(&mut self.handle, sample);
        self.attempts = Ghost(self.attempts@.push((sample, accepted)));
        accepted
    }
}

/// The reading half of a split ring, owned by the playback side.
pub struct RingConsumer {
    handle: ConsumerHandle,
    pops: Ghost<Seq<Option<u32>>>,
}

impl RingConsumer {
    /// The outcome of every pop so far, in order.
    pub closed spec fn history(&self) -> Seq<Option<u32>> {
        self.pops@
    }

    /// Takes the oldest published sample, if there is one.
    pub fn pop(&mut self) -> (r: Option<u32>)
        ensures
            final(self).history() == old(self).history().push(r),
    {
        let r = consumer_pop(&mut self.handle);
        self.pops = Ghost(self.pops@.push(r));
        r
    }
}

} // verus!
