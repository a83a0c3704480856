use vstd::prelude::*;
use crossbeam::sync::SegQueue;

verus! {

/// crossbeam's `SegQueue`, declared so that it can stand in signatures: the
/// playback queue, unbounded and first in first out, which the resynthesis
/// actor fills and the real-time callback drains. Opaque here.
#[verifier::external_type_specification]
#[verifier::external_body]
#[verifier::reject_recursive_types(T)]
pub struct ExSegQueue<T>(SegQueue<T>);

/// Relies on crossbeam's `SegQueue::push`: it appends the value at the back of
/// the queue without blocking, and always returns.
pub assume_specification<T>[ SegQueue::<T>::push ](queue: &SegQueue<T>, t: T);

/// Appends every sample of `samples`, in order, at the back of the playback
/// queue, and returns how many were appended.
pub fn enqueue_all<T: Copy>(queue: &SegQueue<T>, samples: &Vec<T>) -> (n: usize)
    ensures
        n == samples@.len(),
{
    let mut i: usize = 0;
    while i < samples.len()
        invariant
            i <= samples@.len(),
        decreases samples@.len() - i,
    {
        queue.push(samples[i]);
        i = i + 1;
    }
    i
}

} // verus!
