//! The trusted boundary to the outside crates the threaded production path
//! is built on: the `rb` single-producer/single-consumer ring buffer shared
//! between the decode thread and the hardware callback, and the control
//! channels (a `std` mpsc receiver behind a `tokio` mutex).
//!
//! Every value these handles carry is shared with other threads, so no
//! wrapper here promises what a call returns beyond what holds of every
//! outcome; the engine is verified for whatever comes back.

use vstd::prelude::*;

use rb::RbConsumer;
use rb::RbProducer;
use rb::RB;

verus! {

#[verifier::external_type_specification]
#[verifier::external_body]
#[verifier::reject_recursive_types(T)]
pub struct ExSpscRb<T>(rb::SpscRb<T>);

#[verifier::external_type_specification]
#[verifier::external_body]
#[verifier::reject_recursive_types(T)]
pub struct ExRbProducer<T>(rb::Producer<T>);

#[verifier::external_type_specification]
#[verifier::external_body]
#[verifier::reject_recursive_types(T)]
pub struct ExRbConsumer<T>(rb::Consumer<T>);

#[verifier::external_type_specification]
#[verifier::external_body]
#[verifier::reject_recursive_types(T)]
pub struct ExTokioMutex<T: ?Sized>(tokio::sync::Mutex<T>);

#[verifier::external_type_specification]
#[verifier::external_body]
#[verifier::reject_recursive_types(T)]
pub struct ExMpscReceiver<T>(std::sync::mpsc::Receiver<T>);

/// Relies on `rb::SpscRb::new`: a fresh empty ring of the given capacity.
/// The implementation allocates one slot more than the capacity, hence the
/// bound.
#[verifier::external_body]
pub(crate) fn rb_new(capacity: usize) -> (r: rb::SpscRb<i16>)
    requires
        capacity < usize::MAX,
{
    rb::SpscRb::new(capacity)
}

/// Relies on `rb::RB::producer`: the producer view of the shared ring.
#[verifier::external_body]
pub(crate) fn rb_producer(ring: &rb::SpscRb<i16>) -> (r: rb::Producer<i16>) {
    ring.producer()
}

/// Relies on `rb::RB::consumer`: the consumer view of the shared ring.
#[verifier::external_body]
pub(crate) fn rb_consumer(ring: &rb::SpscRb<i16>) -> (r: rb::Consumer<i16>) {
    ring.consumer()
}

/// Relies on `rb::RbProducer::write_blocking`: stores a prefix of `data`
/// into the ring, waiting while the ring is full (the system's backpressure
/// point — it returns only once the consumer has freed space).  Its source
/// returns `None` exactly for an empty slice, and otherwise the number of
/// samples stored, at most `data.len()`; how many depends on the concurrent
/// consumer, so no more is promised.
#[verifier::external_body]
pub(crate) fn rb_write_blocking(producer: &rb::Producer<i16>, data: &[i16]) -> (r: Option<usize>)
    ensures
        r is None <==> data@.len() == 0,
        r matches Some(n) ==> n <= data@.len(),
{
    producer.write_blocking(data)
}

/// Relies on `rb::RbConsumer::read`: fills a prefix of `data` with the
/// pending samples, in arrival order, without blocking, and returns how
/// many were supplied — possibly zero (its `Empty` error is that zero, as
/// the callback treats it).  The slice keeps its length; the count depends
/// on the concurrent producer, so no more is promised.
#[verifier::external_body]
pub(crate) fn rb_read(consumer: &rb::Consumer<i16>, data: &mut Vec<i16>) -> (r: usize)
    ensures
        r <= old(data)@.len(),
        final(data)@.len() == old(data)@.len(),
{
    consumer.read(data.as_mut_slice()).unwrap_or(0)
}

/// Relies on `tokio::sync::Mutex::try_lock` and
/// `std::sync::mpsc::Receiver::try_recv`, the non-blocking drain of a
/// control channel: at most one pending message comes back, and nothing at
/// all when the channel is empty or its mutex is held elsewhere.  What
/// arrives depends on concurrent senders, so nothing is promised of the
/// value.
#[verifier::external_body]
pub(crate) fn try_recv_pending<T>(
    receiver: &tokio::sync::Mutex<std::sync::mpsc::Receiver<T>>,
) -> (r: Option<T>) {
    match receiver.try_lock() {
        Ok(guard) => guard.try_recv().ok(),
        Err(_) => None,
    }
}

} // verus!
