//! The per-connection handler contract the adapter wraps, and a concrete
//! handler that records what it is given, so the adapter's behaviour can be
//! exercised end to end.

use vstd::prelude::*;

use crate::stream::{DispatchRec, IoStream};

verus! {

/// Outcome of one non-blocking readiness poll.
#[derive(Clone, Copy, PartialEq, Eq, Structural, Debug)]
pub enum ReadyState {
    /// May accept work now.
    Ready,
    /// Not ready; the poll registered for wake-up.
    Pending,
    /// The poll itself failed.
    Failed,
}

/// A connection handler: the user-supplied service that processes one
/// converted stream per call. Implementors expose their readiness, the
/// streams dispatched to them so far, and their shutdown progress as
/// specification state, so the adapter's contracts can speak of them.
pub trait ConnHandler: Sized {
    /// The readiness this handler would report if polled now.
    spec fn readiness(&self) -> ReadyState;

    /// Every stream dispatched to this handler so far, oldest first.
    spec fn dispatched(&self) -> Seq<DispatchRec>;

    /// Whether the handler has finished shutting down.
    spec fn shutdown_done(&self) -> bool;

    /// Non-blocking readiness poll; safe to call repeatedly, and expected to
    /// refresh the handler's wake-up registration on every query.
    fn poll_ready(&self) -> (r: ReadyState)
        ensures
            r == self.readiness(),
    ;

    /// Process one converted stream and eventually produce one response.
    /// Success or failure of that response is the handler's own business;
    /// the adapter only guarantees that the stream was handed over.
    fn call(&mut self, io: IoStream) -> (r: Result<(), ()>)
        ensures
            final(self).dispatched() == old(self).dispatched().push(io@),
    ;

    /// Non-blocking shutdown poll, the authoritative lifecycle-shutdown path.
    fn poll_shutdown(&self) -> (r: bool)
        ensures
            r == self.shutdown_done(),
    ;
}

/// A handler with a fixed, externally settable readiness that keeps every
/// stream it is given. It exists so the adapter and factory contracts are
/// grounded in at least one checked implementation, and so tests can observe
/// exactly what reached the handler.
pub struct RecordingHandler {
    pub ready: ReadyState,
    pub done: bool,
    pub log: Vec<IoStream>,
}

impl RecordingHandler {
    pub fn new(ready: ReadyState) -> (r: RecordingHandler)
        ensures
            r.readiness() == ready,
            r.dispatched() == Seq::<DispatchRec>::empty(),
            r.shutdown_done(),
    {
        let r = RecordingHandler { ready, done: true, log: Vec::new() };
        proof {
            assert(r.dispatched() =~= Seq::<DispatchRec>::empty());
        }
        r
    }

    /// The handler becoming busy, free or broken between polls.
    pub fn set_ready(&mut self, ready: ReadyState)
        ensures
            final(self).readiness() == ready,
            final(self).dispatched() == old(self).dispatched(),
            final(self).shutdown_done() == old(self).shutdown_done(),
    {
        self.ready = ready;
    }
}

impl ConnHandler for RecordingHandler {
    open spec fn readiness(&self) -> ReadyState {
        self.ready
    }

    open spec fn dispatched(&self) -> Seq<DispatchRec> {
        self.log@.map_values(|s: IoStream| s@)
    }

    open spec fn shutdown_done(&self) -> bool {
        self.done
    }

    fn poll_ready(&self) -> (r: ReadyState) {
        self.ready
    }

    fn call(&mut self, io: IoStream) -> (r: Result<(), ()>) {
        let ghost pre = self.log@;
        let ghost rec = io@;
        self.log.push(io);
        proof {
            assert(self.log@ == pre.push(io));
            assert(self.dispatched() =~= pre.map_values(|s: IoStream| s@).push(rec));
        }
        Ok(())
    }

    fn poll_shutdown(&self) -> (r: bool) {
        self.done
    }
}

} // verus!
