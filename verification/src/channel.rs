//! The rendezvous channel: a paired, bidirectional message pipe built on
//! `std::sync::mpsc`. `pair` returns two cross-wired endpoints, so a value
//! sent on one endpoint is received on the other. Two buffering policies are
//! offered: a strict rendezvous mode, where a send blocks until the paired
//! receive, and an unbounded mode, where a send never blocks.

use vstd::prelude::*;

use std::sync::mpsc;

verus! {

#[verifier::external_type_specification]
#[verifier::external_body]
#[verifier::reject_recursive_types(T)]
pub struct ExSyncSender<T>(mpsc::SyncSender<T>);

#[verifier::external_type_specification]
#[verifier::external_body]
#[verifier::reject_recursive_types(T)]
pub struct ExSender<T>(mpsc::Sender<T>);

#[verifier::external_type_specification]
#[verifier::external_body]
#[verifier::reject_recursive_types(T)]
pub struct ExReceiver<T>(mpsc::Receiver<T>);

/// The sending half of an endpoint, under one of the two buffering policies.
#[verifier::reject_recursive_types(T)]
pub enum SendHalf<T> {
    /// A send blocks until the paired endpoint is actively receiving.
    Rendezvous(mpsc::SyncSender<T>),
    /// A send queues the value and never blocks.
    Unbounded(mpsc::Sender<T>),
}

/// The error of [`Channel::send`]: the paired endpoint was dropped, and the
/// value comes back unsent.
#[derive(Debug)]
pub struct SendDisconnected<T>(pub T);

/// The error of [`Channel::receive`]: the paired endpoint was dropped and no
/// value remains queued.
#[derive(Debug, Clone, Copy, PartialEq, Eq, Structural)]
pub struct RecvDisconnected;

/// One endpoint of a paired channel: a sending half wired to the peer's
/// receiving half, and a receiving half wired to the peer's sending half.
#[verifier::reject_recursive_types(T)]
pub struct Channel<T> {
    pub send: SendHalf<T>,
    pub receive: mpsc::Receiver<T>,
}

/// Relies on `std::sync::mpsc::sync_channel` with capacity 0: a connected
/// sender/receiver pair in rendezvous mode, where each send blocks until the
/// value is taken by a receive.
#[verifier::external_body]
fn rendezvous_endpoints<T>() -> (mpsc::SyncSender<T>, mpsc::Receiver<T>) {
    mpsc::sync_channel(0)
}

/// Relies on `std::sync::mpsc::channel`: a connected sender/receiver pair
/// with an unbounded queue, where a send never blocks.
#[verifier::external_body]
fn unbounded_endpoints<T>() -> (mpsc::Sender<T>, mpsc::Receiver<T>) {
    mpsc::channel()
}

/// Relies on `std::sync::mpsc::SyncSender::send`: blocks until the paired
/// receiver takes the value; if the receiving side was dropped, the value is
/// returned unsent inside the error.
#[verifier::external_body]
fn rendezvous_send<T>(sender: &mpsc::SyncSender<T>, value: T) -> (r: Result<(), T>)
    ensures
        r matches Err(v) ==> v == value,
{
    match sender.send(value) {
        Ok(()) => Ok(()),
        Err(mpsc::SendError(v)) => Err(v),
    }
}

/// Relies on `std::sync::mpsc::Sender::send`: queues the value without
/// blocking; if the receiving side was dropped, the value is returned unsent
/// inside the error.
#[verifier::external_body]
fn unbounded_send<T>(sender: &mpsc::Sender<T>, value: T) -> (r: Result<(), T>)
    ensures
        r matches Err(v) ==> v == value,
{
    match sender.send(value) {
        Ok(()) => Ok(()),
        Err(mpsc::SendError(v)) => Err(v),
    }
}

/// Relies on `std::sync::mpsc::Receiver::recv`: blocks until a value is
/// available, or reports disconnection once the sending side is gone and
/// nothing remains queued.
#[verifier::external_body]
fn endpoint_recv<T>(receiver: &mpsc::Receiver<T>) -> (r: Result<T, RecvDisconnected>) {
    match receiver.recv() {
        Ok(v) => Ok(v),
        Err(mpsc::RecvError) => Err(RecvDisconnected),
    }
}

impl<T> Channel<T> {
    /// Two cross-wired endpoints in rendezvous mode: a send on either
    /// endpoint blocks until the other endpoint receives it.
    pub fn pair() -> (r: (Channel<T>, Channel<T>))
        ensures
            r.0.send is Rendezvous,
            r.1.send is Rendezvous,
    {
        let (s1, r1) = rendezvous_endpoints();
        let (s2, r2) = rendezvous_endpoints();
        (
            Channel { send: SendHalf::Rendezvous(s1), receive: r2 },
            Channel { send: SendHalf::Rendezvous(s2), receive: r1 },
        )
    }

    /// Two cross-wired endpoints in unbounded mode: a send on either
    /// endpoint queues the value and never blocks.
    pub fn pair_unbounded() -> (r: (Channel<T>, Channel<T>))
        ensures
            r.0.send is Unbounded,
            r.1.send is Unbounded,
    {
        let (s1, r1) = unbounded_endpoints();
        let (s2, r2) = unbounded_endpoints();
        (
            Channel { send: SendHalf::Unbounded(s1), receive: r2 },
            Channel { send: SendHalf::Unbounded(s2), receive: r1 },
        )
    }

    /// Sends a value to the paired endpoint. Fails, handing the value back,
    /// exactly when the paired endpoint has been dropped; it never fails a
    /// send that could still be received.
    pub fn send(&self, value: T) -> (r: Result<(), SendDisconnected<T>>)
        ensures
            r matches Err(e) ==> e.0 == value,
    {
        let outcome = match &self.send {
            SendHalf::Rendezvous(s) => rendezvous_send(s, value),
            SendHalf::Unbounded(s) => unbounded_send(s, value),
        };
        match outcome {
            Ok(()) => Ok(()),
            Err(v) => Err(SendDisconnected(v)),
        }
    }

    /// Blocks until a value sent on the paired endpoint is available and
    /// returns it; fails once the paired endpoint is gone and no values
    /// remain queued.
    pub fn receive(&self) -> Result<T, RecvDisconnected> {
        endpoint_recv(&self.receive)
    }
}

} // verus!
