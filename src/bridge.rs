//! The sensor bridge: a single-slot channel from the sampling task to the
//! publish step. The producer never blocks: a sample offered while the slot is
//! taken is handed back. The consumer never blocks either.
//!
//! Both ends are used from different tasks, so what the slot holds at a given
//! call depends on the other task; the contracts here state what holds of
//! every outcome.
use vstd::prelude::*;
use crossbeam_channel::{Receiver, Sender};

verus! {

#[verifier::external_type_specification]
#[verifier::external_body]
#[verifier::reject_recursive_types(T)]
pub struct ExSender<T>(Sender<T>);

#[verifier::external_type_specification]
#[verifier::external_body]
#[verifier::reject_recursive_types(T)]
pub struct ExReceiver<T>(Receiver<T>);

/// Number of samples the bridge holds at most.
pub const BRIDGE_CAPACITY: usize = 1;

/// What came of offering a sample to the bridge.
#[derive(PartialEq, Eq, Debug)]
pub enum Offered {
    /// The sample now waits in the slot.
    Accepted,
    /// The slot was taken; the sample is handed back.
    Full(String),
    /// The receiving end is gone; the sample is handed back.
    Closed(String),
}

/// What came of looking into the bridge.
#[derive(PartialEq, Eq, Debug)]
pub enum Received {
    /// A sample was waiting and has been taken out.
    Sample(String),
    /// No sample was waiting.
    Empty,
    /// No sample was waiting and the sending end is gone.
    Closed,
}

/// The number of messages that the channel behind `tx` holds at most.
pub uninterp spec fn capacity_of(tx: Sender<String>) -> nat;

/// Relies on crossbeam_channel::bounded: for a capacity above zero it builds an
/// array channel that holds exactly `cap` messages, and does not panic.
#[verifier::external_body]
fn open_channel(cap: usize) -> (r: (Sender<String>, Receiver<String>))
    requires
        cap > 0,
    ensures
        capacity_of(r.0) == cap as nat,
{
    crossbeam_channel::bounded::<String>(cap)
}

/// Relies on crossbeam_channel::Sender::try_send: it does not block, and a
/// message that it could not send comes back in the error.
#[verifier::external_body]
fn try_send_sample(tx: &Sender<String>, sample: String) -> (r: Offered)
    ensures
        r matches Offered::Full(s) ==> s@ == sample@,
        r matches Offered::Closed(s) ==> s@ == sample@,
{
    match tx.try_send(sample) {
        Ok(()) => Offered::Accepted,
        Err(crossbeam_channel::TrySendError::Full(s)) => Offered::Full(s),
        Err(crossbeam_channel::TrySendError::Disconnected(s)) => Offered::Closed(s),
    }
}

/// Relies on crossbeam_channel::Receiver::try_recv: it does not block.
#[verifier::external_body]
fn try_recv_sample(rx: &Receiver<String>) -> (r: Received) {
    match rx.try_recv() {
        Ok(s) => Received::Sample(s),
        Err(crossbeam_channel::TryRecvError::Empty) => Received::Empty,
        Err(crossbeam_channel::TryRecvError::Disconnected) => Received::Closed,
    }
}

/// The producing end of the bridge, held by the sampling task.
pub struct SampleSender {
    tx: Sender<String>,
}

/// The consuming end of the bridge, held by the session loop.
pub struct SampleReceiver {
    rx: Receiver<String>,
}

/// Opens a bridge that holds at most one sample.
pub fn sample_bridge() -> (r: (SampleSender, SampleReceiver))
    ensures
        r.0.capacity() == BRIDGE_CAPACITY as nat,
{
    let (tx, rx) = open_channel(BRIDGE_CAPACITY);
    (SampleSender { tx }, SampleReceiver { rx })
}

impl SampleSender {
    /// The number of samples the bridge holds at most.
    pub closed spec fn capacity(&self) -> nat {
        capacity_of(self.tx)
    }

    /// Offers `sample` without blocking. A sample that is not taken is handed
    /// back unchanged in the result.
    pub fn offer(&self, sample: String) -> (r: Offered)
        ensures
            r matches Offered::Full(s) ==> s@ == sample@,
            r matches Offered::Closed(s) ==> s@ == sample@,
    {
        try_send_sample(&self.tx, sample)
    }
}

impl SampleReceiver {
    /// Takes the waiting sample out of the bridge without blocking.
    pub fn receive(&self) -> Received {
        try_recv_sample(&self.rx)
    }
}

} // verus!
