//! Thread-safe transport of audio data: a lock-free single-producer /
//! single-consumer ring of interleaved fixed-point samples, built on
//! the `ringbuf` crate.
//!
//! The ring itself is outside code; each endpoint is held behind a
//! trusted handle whose method contracts state what the `ringbuf`
//! sources show. The verified layer adds a ghost count of the samples
//! each endpoint has moved, which the producer worker's contracts are
//! stated over.

use vstd::prelude::*;

use ringbuf::traits::{Consumer, Observer, Producer, Split};

verus! {

/// Capacity, in interleaved samples, of the ring the endpoints came
/// from (fixed at creation).
pub uninterp spec fn raw_producer_capacity(p: RawProducer) -> nat;

/// Capacity, in interleaved samples, of the ring the endpoints came
/// from (fixed at creation).
pub uninterp spec fn raw_consumer_capacity(c: RawConsumer) -> nat;

/// A count of free slots guaranteed to this producer: the consumer
/// can only free more, so the bound stays valid until this endpoint
/// pushes. A fresh ring is empty, so the floor starts at the
/// capacity; an observation raises it to the freshly read free room;
/// a push of `n` items lowers it by at most `n`.
pub uninterp spec fn raw_producer_vacancy_floor(p: RawProducer) -> nat;

/// A count of stored items guaranteed to this consumer: the producer
/// can only add more, so the bound stays valid until this endpoint
/// pops or clears. It starts at zero; an observation raises it to
/// the freshly read occupancy; a pop of `n` items lowers it by at
/// most `n`; a clear drops it to zero.
pub uninterp spec fn raw_consumer_occupancy_floor(c: RawConsumer) -> nat;

/// Producer endpoint of a `ringbuf` heap ring; opaque to the
/// verifier.
#[verifier::external_body]
pub struct RawProducer {
    inner: ringbuf::HeapProd<i64>,
}

/// Consumer endpoint of a `ringbuf` heap ring; opaque to the
/// verifier.
#[verifier::external_body]
pub struct RawConsumer {
    inner: ringbuf::HeapCons<i64>,
}

/// Relies on `ringbuf::HeapRb::new` and `Split::split`: a heap ring
/// of the given capacity, created empty, split into its unique
/// producer/consumer pair.
#[verifier::external_body]
fn raw_split(capacity: usize) -> (r: (RawProducer, RawConsumer))
    requires
        capacity >= 1,
    ensures
        raw_producer_capacity(r.0) == capacity,
        raw_consumer_capacity(r.1) == capacity,
        raw_producer_vacancy_floor(r.0) == capacity,
        raw_consumer_occupancy_floor(r.1) == 0,
{
    let rb = ringbuf::HeapRb::<i64>::new(capacity);
    let (p, c) = rb.split();
    (RawProducer { inner: p }, RawConsumer { inner: c })
}

/// Relies on `ringbuf`'s `Producer::try_push`: stores the item
/// unless the ring is full (refreshing its view of the consumer's
/// frees before giving up), in which case the item comes back.
#[verifier::external_body]
fn raw_try_push(p: &mut RawProducer, sample: i64) -> (r: Result<(), i64>)
    ensures
        raw_producer_capacity(*final(p)) == raw_producer_capacity(*old(p)),
        r matches Err(s) ==> s == sample && raw_producer_vacancy_floor(*final(p))
            >= raw_producer_vacancy_floor(*old(p)),
        raw_producer_vacancy_floor(*old(p)) >= 1 ==> r is Ok,
        r is Ok ==> raw_producer_vacancy_floor(*final(p)) + 1 >= raw_producer_vacancy_floor(
            *old(p),
        ),
{
    p.inner.try_push(sample)
}

/// Relies on `ringbuf`'s `Producer::push_slice`: appends a prefix of
/// `samples` and returns its length — the lesser of the slice length
/// and the freshly read free room, so at least the guaranteed floor
/// is served.
#[verifier::external_body]
fn raw_push_slice(p: &mut RawProducer, samples: &[i64]) -> (n: usize)
    ensures
        raw_producer_capacity(*final(p)) == raw_producer_capacity(*old(p)),
        n <= samples@.len(),
        n <= raw_producer_capacity(*old(p)),
        n as int >= if samples@.len() <= raw_producer_vacancy_floor(*old(p)) {
            samples@.len() as int
        } else {
            raw_producer_vacancy_floor(*old(p)) as int
        },
        raw_producer_vacancy_floor(*final(p)) + n >= raw_producer_vacancy_floor(*old(p)),
{
    p.inner.push_slice(samples)
}

/// Relies on `ringbuf`'s `Producer::push_slice`, applied to the tail
/// of `samples` that starts at `start`: appends a prefix of that
/// tail and returns its length — the lesser of the tail length and
/// the freshly read free room.
#[verifier::external_body]
fn raw_push_slice_from(p: &mut RawProducer, samples: &Vec<i64>, start: usize) -> (n: usize)
    requires
        start <= samples@.len(),
    ensures
        raw_producer_capacity(*final(p)) == raw_producer_capacity(*old(p)),
        n <= samples@.len() - start,
        n <= raw_producer_capacity(*old(p)),
        n as int >= if samples@.len() - start <= raw_producer_vacancy_floor(*old(p)) {
            samples@.len() - start
        } else {
            raw_producer_vacancy_floor(*old(p)) as int
        },
        raw_producer_vacancy_floor(*final(p)) + n >= raw_producer_vacancy_floor(*old(p)),
{
    p.inner.push_slice(&samples[start..])
}

/// Relies on `ringbuf`'s `Observer::vacant_len` on the caching
/// producer, which reads the consumer's index afresh: the free room
/// at this instant, at most the capacity and no less than what was
/// already guaranteed; a concurrent consumer can only free more.
#[verifier::external_body]
fn raw_vacant_len(p: &mut RawProducer) -> (n: usize)
    ensures
        raw_producer_capacity(*final(p)) == raw_producer_capacity(*old(p)),
        n <= raw_producer_capacity(*old(p)),
        n >= raw_producer_vacancy_floor(*old(p)),
        raw_producer_vacancy_floor(*final(p)) == n,
{
    p.inner.vacant_len()
}

/// Relies on `ringbuf`'s `Consumer::try_pop`: the oldest stored
/// item, refreshing the view of the producer's stores before
/// reporting the ring empty.
#[verifier::external_body]
fn raw_try_pop(c: &mut RawConsumer) -> (r: Option<i64>)
    ensures
        raw_consumer_capacity(*final(c)) == raw_consumer_capacity(*old(c)),
        raw_consumer_occupancy_floor(*old(c)) >= 1 ==> r is Some,
        r is Some ==> raw_consumer_occupancy_floor(*final(c)) + 1
            >= raw_consumer_occupancy_floor(*old(c)),
        r is None ==> raw_consumer_occupancy_floor(*final(c)) >= raw_consumer_occupancy_floor(
            *old(c),
        ),
{
    c.inner.try_pop()
}

/// Relies on `ringbuf`'s `Consumer::pop_slice`: moves into the front
/// of `buf` the lesser of the buffer length and the freshly read
/// occupancy — so at least the guaranteed floor is served — and
/// leaves the rest of `buf` untouched.
#[verifier::external_body]
fn raw_pop_slice(c: &mut RawConsumer, buf: &mut Vec<i64>) -> (n: usize)
    ensures
        raw_consumer_capacity(*final(c)) == raw_consumer_capacity(*old(c)),
        n <= old(buf)@.len(),
        n <= raw_consumer_capacity(*old(c)),
        final(buf)@.len() == old(buf)@.len(),
        forall|i: int| n <= i < final(buf)@.len() ==> final(buf)@[i] == old(buf)@[i],
        n as int >= if old(buf)@.len() <= raw_consumer_occupancy_floor(*old(c)) {
            old(buf)@.len() as int
        } else {
            raw_consumer_occupancy_floor(*old(c)) as int
        },
        raw_consumer_occupancy_floor(*final(c)) + n >= raw_consumer_occupancy_floor(*old(c)),
{
    c.inner.pop_slice(buf.as_mut_slice())
}

/// Relies on `ringbuf`'s `Observer::occupied_len` on the caching
/// consumer, which reads the producer's index afresh: the stored
/// count at this instant, at most the capacity and no less than what
/// was already guaranteed; a concurrent producer can only add more.
#[verifier::external_body]
fn raw_occupied_len(c: &mut RawConsumer) -> (n: usize)
    ensures
        raw_consumer_capacity(*final(c)) == raw_consumer_capacity(*old(c)),
        n <= raw_consumer_capacity(*old(c)),
        n >= raw_consumer_occupancy_floor(*old(c)),
        raw_consumer_occupancy_floor(*final(c)) == n,
{
    c.inner.occupied_len()
}

/// Relies on `ringbuf`'s `Consumer::clear`: drops every stored item
/// and returns how many there were.
#[verifier::external_body]
fn raw_clear(c: &mut RawConsumer) -> (n: usize)
    ensures
        raw_consumer_capacity(*final(c)) == raw_consumer_capacity(*old(c)),
        n <= raw_consumer_capacity(*old(c)),
        n >= raw_consumer_occupancy_floor(*old(c)),
        raw_consumer_occupancy_floor(*final(c)) == 0,
{
    c.inner.clear()
}

/// The buffer subsystem's marker type; the live state is entirely in
/// the endpoint pair returned by [`create_audio_buffer`].
pub struct AudioBuffer {}

/// Producer handle for the audio ring. Owned by the producer worker
/// while it runs.
pub struct AudioBufferProducer {
    raw: RawProducer,
    /// Total samples this endpoint has successfully pushed.
    pushed: Ghost<nat>,
}

/// Consumer handle for the audio ring. Owned by the output side.
pub struct AudioBufferConsumer {
    raw: RawConsumer,
    /// Total samples this endpoint has successfully popped.
    popped: Ghost<nat>,
}

impl AudioBufferProducer {
    /// Ring capacity in interleaved samples.
    pub closed spec fn capacity(&self) -> nat {
        raw_producer_capacity(self.raw)
    }

    /// Total samples pushed through this endpoint.
    pub closed spec fn pushed_count(&self) -> nat {
        self.pushed@
    }

    /// Free room guaranteed to this endpoint: established at
    /// creation (a fresh ring is all free) and by each
    /// [`Self::vacant_len`] observation, consumed by pushes, and
    /// only ever improved by the concurrent consumer.
    pub closed spec fn known_vacant(&self) -> nat {
        raw_producer_vacancy_floor(self.raw)
    }

    /// Pushes a single sample; hands it back only if the ring is
    /// full, which cannot happen while free room is guaranteed.
    pub fn push(&mut self, sample: i64) -> (r: Result<(), i64>)
        ensures
            final(self).capacity() == old(self).capacity(),
            old(self).known_vacant() >= 1 ==> r is Ok,
            r matches Ok(_) ==> final(self).pushed_count() == old(self).pushed_count() + 1
                && final(self).known_vacant() + 1 >= old(self).known_vacant(),
            r matches Err(s) ==> s == sample && final(self).pushed_count() == old(
                self,
            ).pushed_count() && final(self).known_vacant() >= old(self).known_vacant(),
    {
        let r = raw_try_push(&mut self.raw, sample);
        if r.is_ok() {
            proof {
                self.pushed@ = self.pushed@ + 1;
            }
        }
        r
    }

    /// Pushes a prefix of `samples`; stores at least as much as the
    /// guaranteed free room allows, up to the whole slice.
    pub fn push_slice(&mut self, samples: &[i64]) -> (n: usize)
        ensures
            final(self).capacity() == old(self).capacity(),
            n <= samples@.len(),
            n <= old(self).capacity(),
            n as int >= if samples@.len() <= old(self).known_vacant() {
                samples@.len() as int
            } else {
                old(self).known_vacant() as int
            },
            final(self).known_vacant() + n >= old(self).known_vacant(),
            final(self).pushed_count() == old(self).pushed_count() + n,
    {
        let n = raw_push_slice(&mut self.raw, samples);
        proof {
            self.pushed@ = self.pushed@ + n as nat;
        }
        n
    }

    /// Pushes a prefix of `samples[start..]`; stores at least as
    /// much as the guaranteed free room allows, up to the whole
    /// tail.
    pub fn push_slice_from(&mut self, samples: &Vec<i64>, start: usize) -> (n: usize)
        requires
            start <= samples@.len(),
        ensures
            final(self).capacity() == old(self).capacity(),
            n <= samples@.len() - start,
            n <= old(self).capacity(),
            n as int >= if samples@.len() - start <= old(self).known_vacant() {
                samples@.len() - start
            } else {
                old(self).known_vacant() as int
            },
            final(self).known_vacant() + n >= old(self).known_vacant(),
            final(self).pushed_count() == old(self).pushed_count() + n,
    {
        let n = raw_push_slice_from(&mut self.raw, samples, start);
        proof {
            self.pushed@ = self.pushed@ + n as nat;
        }
        n
    }

    /// Free room in the ring at this instant: at most the capacity,
    /// at least what was already guaranteed (a concurrent consumer
    /// can only free more), and guaranteed to later pushes until
    /// this endpoint uses it.
    pub fn vacant_len(&mut self) -> (n: usize)
        ensures
            final(self).capacity() == old(self).capacity(),
            final(self).pushed_count() == old(self).pushed_count(),
            n <= old(self).capacity(),
            n >= old(self).known_vacant(),
            final(self).known_vacant() == n,
    {
        raw_vacant_len(&mut self.raw)
    }
}

impl AudioBufferConsumer {
    /// Ring capacity in interleaved samples.
    pub closed spec fn capacity(&self) -> nat {
        raw_consumer_capacity(self.raw)
    }

    /// Total samples popped through this endpoint (clears not
    /// counted).
    pub closed spec fn popped_count(&self) -> nat {
        self.popped@
    }

    /// Stored samples guaranteed to this endpoint: established by
    /// each [`Self::occupied_len`] observation, consumed by pops and
    /// clears, and only ever improved by the concurrent producer.
    pub closed spec fn known_occupied(&self) -> nat {
        raw_consumer_occupancy_floor(self.raw)
    }

    /// Pops the oldest sample; reports the ring empty only when no
    /// stored sample is guaranteed.
    pub fn pop(&mut self) -> (r: Option<i64>)
        ensures
            final(self).capacity() == old(self).capacity(),
            old(self).known_occupied() >= 1 ==> r is Some,
            r matches Some(_) ==> final(self).popped_count() == old(self).popped_count() + 1
                && final(self).known_occupied() + 1 >= old(self).known_occupied(),
            r is None ==> final(self).popped_count() == old(self).popped_count()
                && final(self).known_occupied() >= old(self).known_occupied(),
    {
        let r = raw_try_pop(&mut self.raw);
        if r.is_some() {
            proof {
                self.popped@ = self.popped@ + 1;
            }
        }
        r
    }

    /// Pops into the front of `buf`: at least as much as the
    /// guaranteed occupancy allows, up to the whole buffer, leaving
    /// `buf` beyond the popped prefix untouched.
    pub fn pop_slice(&mut self, buf: &mut Vec<i64>) -> (n: usize)
        ensures
            final(self).capacity() == old(self).capacity(),
            n <= old(buf)@.len(),
            n <= old(self).capacity(),
            final(buf)@.len() == old(buf)@.len(),
            forall|i: int| n <= i < final(buf)@.len() ==> final(buf)@[i] == old(buf)@[i],
            n as int >= if old(buf)@.len() <= old(self).known_occupied() {
                old(buf)@.len() as int
            } else {
                old(self).known_occupied() as int
            },
            final(self).known_occupied() + n >= old(self).known_occupied(),
            final(self).popped_count() == old(self).popped_count() + n,
    {
        let n = raw_pop_slice(&mut self.raw, buf);
        proof {
            self.popped@ = self.popped@ + n as nat;
        }
        n
    }

    /// Stored samples in the ring at this instant: at most the
    /// capacity, at least what was already guaranteed (a concurrent
    /// producer can only add more), and guaranteed to later pops
    /// until this endpoint consumes it.
    pub fn occupied_len(&mut self) -> (n: usize)
        ensures
            final(self).capacity() == old(self).capacity(),
            final(self).popped_count() == old(self).popped_count(),
            n <= old(self).capacity(),
            n >= old(self).known_occupied(),
            final(self).known_occupied() == n,
    {
        raw_occupied_len(&mut self.raw)
    }

    /// Drops everything currently stored; returns how many samples
    /// were dropped — at least the guaranteed occupancy. They count
    /// as cleared, not as popped.
    pub fn clear(&mut self) -> (n: usize)
        ensures
            final(self).capacity() == old(self).capacity(),
            n <= old(self).capacity(),
            n >= old(self).known_occupied(),
            final(self).known_occupied() == 0,
            final(self).popped_count() == old(self).popped_count(),
    {
        raw_clear(&mut self.raw)
    }
}

/// Creates the audio ring and returns its unique producer/consumer
/// pair.
pub fn create_audio_buffer(capacity: usize) -> (r: (AudioBufferProducer, AudioBufferConsumer))
    requires
        capacity >= 1,
    ensures
        r.0.capacity() == capacity,
        r.1.capacity() == capacity,
        r.0.pushed_count() == 0,
        r.1.popped_count() == 0,
        r.0.known_vacant() == capacity,
        r.1.known_occupied() == 0,
{
    let (p, c) = raw_split(capacity);
    (
        AudioBufferProducer { raw: p, pushed: Ghost(0nat) },
        AudioBufferConsumer { raw: c, popped: Ghost(0nat) },
    )
}

} // verus!
