//! The relay engine's decisions, one direction at a time.
//!
//! After a successful negotiation the connection becomes two independent
//! directions (client to target, target to client). The driver owns the
//! stream halves and the blocking reads and writes; each direction's
//! [`RelayDirection`] decides what to do with what the source half yielded:
//! forward a chunk unchanged, or terminate on end-of-stream or error and shut
//! the destination half. The ghost trace `carried()` pins the forwarding down
//! byte for byte: everything read from the source is written to the
//! destination, in arrival order, and nothing else.

use vstd::prelude::*;

verus! {

/// What the source half of a direction yielded to the driver.
#[derive(Debug)]
pub enum RelayEvent {
    /// A chunk of bytes was read.
    Data { bytes: Vec<u8> },
    /// The source reached end-of-stream.
    SourceClosed,
    /// Reading or writing failed; the direction reports its error and stops,
    /// without affecting the other direction.
    Failed,
}

/// What the driver must do with the destination half after an event.
#[derive(Debug)]
pub enum RelayStep {
    /// Write exactly these bytes, in this order.
    Forward { bytes: Vec<u8> },
    /// Stop this direction: shut the destination's write half.
    Shut,
}

/// One direction of the relay: whether it still runs, and (as a ghost trace)
/// every byte it has carried so far.
pub struct RelayDirection {
    done: bool,
    trace: Ghost<Seq<u8>>,
}

/// What one relay decision guarantees, given the bytes carried before it:
/// data is forwarded unchanged and appended to the trace; end-of-stream and
/// errors terminate the direction and carry nothing.
pub open spec fn relay_post(
    prev: Seq<u8>,
    event: RelayEvent,
    d: RelayDirection,
    step: RelayStep,
) -> bool {
    match event {
        RelayEvent::Data { bytes } => {
            &&& step matches RelayStep::Forward { bytes: out } && out@ == bytes@
            &&& d.carried() == prev + bytes@
            &&& !d.is_done()
        },
        RelayEvent::SourceClosed => {
            &&& step is Shut
            &&& d.carried() == prev
            &&& d.is_done()
        },
        RelayEvent::Failed => {
            &&& step is Shut
            &&& d.carried() == prev
            &&& d.is_done()
        },
    }
}

impl RelayDirection {
    /// Every byte this direction has carried, oldest first.
    pub closed spec fn carried(&self) -> Seq<u8> {
        self.trace@
    }

    /// Whether the direction has terminated.
    pub closed spec fn is_done(&self) -> bool {
        self.done
    }

    /// A fresh direction: nothing carried yet, still running.
    pub fn new() -> (d: RelayDirection)
        ensures
            d.carried() == Seq::<u8>::empty(),
            !d.is_done(),
    {
        RelayDirection { done: false, trace: Ghost(Seq::empty()) }
    }

    /// Whether the driver should keep reading from this direction's source.
    pub fn running(&self) -> (r: bool)
        ensures
            r == !self.is_done(),
    {
        !self.done
    }

    /// One relay decision. A chunk is forwarded unchanged, in arrival order;
    /// end-of-stream or an error terminates the direction, which then shuts
    /// the destination half.
    pub fn on_event(&mut self, event: RelayEvent) -> (step: RelayStep)
        requires
            !old(self).is_done(),
        ensures
            relay_post(old(self).carried(), event, *final(self), step),
    {
        match event {
            RelayEvent::Data { bytes } => {
                let ghost prev = self.trace@;
                self.trace = Ghost(prev + bytes@);
                RelayStep::Forward { bytes }
            },
            RelayEvent::SourceClosed => {
                self.done = true;
                RelayStep::Shut
            },
            RelayEvent::Failed => {
                self.done = true;
                RelayStep::Shut
            },
        }
    }
}

/// The per-connection teardown rule: the relay ends exactly when both
/// directions are done, so one side finishing never kills bytes still in
/// flight in the other direction.
pub fn teardown_complete(client_to_target: &RelayDirection, target_to_client: &RelayDirection) -> (r:
    bool)
    ensures
        r == (client_to_target.is_done() && target_to_client.is_done()),
{
    !client_to_target.running() && !target_to_client.running()
}

} // verus!
