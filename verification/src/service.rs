//! The connection admission adapter: the control-message protocol a built
//! service consumes, and the adapter that gates each accepted stream on
//! combined readiness, converts and tags it, attaches the memory pool,
//! dispatches it to the wrapped handler and releases the accounting guard
//! once that dispatch has completed.

use vstd::prelude::*;

use crate::counter::{ConnCounter, CounterGuard};
use crate::handler::{ConnHandler, ReadyState};
use crate::pool::{Pool, PoolId, PoolRef};
use crate::stream::{DispatchRec, RawStream};

verus! {

/// Control message delivered to a listener's worker-local service.
pub enum ServerMessage {
    /// A newly accepted raw stream to service.
    Connect(RawStream),
    /// Graceful shutdown with a deadline in milliseconds.
    Shutdown(u64),
    /// Immediate forced shutdown.
    ForceShutdown,
}

/// Externally observable actions of the admission adapter, in the order the
/// adapter performed them.
#[derive(Clone, Copy, PartialEq, Eq, Structural, Debug)]
pub enum AdapterEvent {
    /// A converted, tagged, pool-attached stream was handed to the wrapped
    /// handler, and the handler's processing of it completed.
    Dispatched(u64),
    /// The connection-accounting guard went back to its counter.
    GuardReleased,
    /// A raw stream failed conversion; its identity was reported to the
    /// diagnostic log.
    ConvertFailed(u64),
}

/// Combined readiness of the wrapped handler and the memory pool: ready
/// exactly when both are ready; a handler poll failure collapses to a
/// generic failure; anything else is pending.
pub open spec fn combined_readiness(handler: ReadyState, pool_ready: bool) -> ReadyState {
    match handler {
        ReadyState::Failed => ReadyState::Failed,
        ReadyState::Pending => ReadyState::Pending,
        ReadyState::Ready => if pool_ready {
            ReadyState::Ready
        } else {
            ReadyState::Pending
        },
    }
}

/// Combined readiness reports ready if and only if the handler and the pool
/// independently report ready; flipping either away from ready flips the
/// combination away from ready.
pub proof fn lemma_combined_ready_iff(handler: ReadyState, pool_ready: bool)
    ensures
        (combined_readiness(handler, pool_ready) is Ready) <==> (handler is Ready && pool_ready),
{
}

/// The events appended when the guard, if one was passed, is released.
pub open spec fn release_events(guard: Option<CounterGuard>) -> Seq<AdapterEvent> {
    if guard is Some {
        seq![AdapterEvent::GuardReleased]
    } else {
        Seq::<AdapterEvent>::empty()
    }
}

/// The in-flight count after the guard, if one was passed, is released.
pub open spec fn count_after_release(count: u64, guard: Option<CounterGuard>) -> int {
    if guard is Some {
        count - 1
    } else {
        count as int
    }
}

/// Wraps exactly one concrete connection handler. The readiness handle and
/// the attach reference are both derived from the one pool identity given at
/// construction and never change afterwards.
pub struct StreamService<T> {
    pub service: T,
    pub tag: &'static str,
    pub pool: Pool,
    pub pool_ref: PoolRef,
    pub events: Vec<AdapterEvent>,
}

impl<T: ConnHandler> StreamService<T> {
    /// The readiness handle and the attach reference name the same pool:
    /// both came from one configuration snapshot.
    pub open spec fn wf(&self) -> bool {
        self.pool.id == self.pool_ref.id
    }

    pub fn new(service: T, tag: &'static str, pid: PoolId) -> (r: StreamService<T>)
        ensures
            r.service == service,
            r.tag@ == tag@,
            r.pool == (Pool { id: pid.id, ready: true }),
            r.pool_ref == (PoolRef { id: pid.id }),
            r.events@ == Seq::<AdapterEvent>::empty(),
            r.wf(),
    {
        let r = StreamService {
            tag,
            pool: pid.pool(),
            pool_ref: pid.pool_ref(),
            service,
            events: Vec::new(),
        };
        proof {
            assert(r.events@ =~= Seq::<AdapterEvent>::empty());
        }
        r
    }

    /// Combined readiness query. Polls the wrapped handler and the pool on
    /// every call, whatever the other reports, so both wake-up registrations
    /// are refreshed; the result is ready only if both are ready.
    pub fn poll_ready(&self) -> (r: ReadyState)
        ensures
            r == combined_readiness(self.service.readiness(), self.pool.ready),
    {
        let handler_ready = self.service.poll_ready();
        let pool_ready = self.pool.poll_ready();
        match handler_ready {
            ReadyState::Failed => ReadyState::Failed,
            ReadyState::Pending => ReadyState::Pending,
            ReadyState::Ready => if pool_ready {
                ReadyState::Ready
            } else {
                ReadyState::Pending
            },
        }
    }

    /// Forward a lifecycle shutdown poll to the wrapped handler. This, not
    /// the `Shutdown` protocol variants, is the authoritative shutdown path.
    pub fn poll_shutdown(&self) -> (r: bool)
        ensures
            r == self.service.shutdown_done(),
    {
        self.service.poll_shutdown()
    }

    /// The external allocator consuming this service's pool budget or
    /// freeing it again.
    pub fn set_pool_ready(&mut self, ready: bool)
        ensures
            final(self).pool == (Pool { id: old(self).pool.id, ready: ready }),
            final(self).service == old(self).service,
            final(self).tag@ == old(self).tag@,
            final(self).pool_ref == old(self).pool_ref,
            final(self).events@ == old(self).events@,
    {
        self.pool.set_ready(ready);
    }

    /// Consume one control message.
    ///
    /// On `Connect`: convert the raw stream; on success attach the tag and
    /// the pool reference, dispatch to the wrapped handler and succeed once
    /// the handler is done; on conversion failure report the stream and fail
    /// for this one connection. `Shutdown` and `ForceShutdown` resolve
    /// successfully with no handler dispatch. Whatever the path, the guard,
    /// if one was passed, goes back to its counter exactly once, and in the
    /// dispatch case only after the handler has completed.
    pub fn call(
        &mut self,
        counter: &mut ConnCounter,
        guard: Option<CounterGuard>,
        msg: ServerMessage,
    ) -> (r: Result<(), ()>)
        requires
            guard is Some ==> old(counter).count >= 1,
        ensures
            final(counter).count == count_after_release(old(counter).count, guard),
            final(self).tag@ == old(self).tag@,
            final(self).pool == old(self).pool,
            final(self).pool_ref == old(self).pool_ref,
            match msg {
                ServerMessage::Connect(s) => if s.convertible {
                    &&& r is Ok
                    &&& final(self).service.dispatched() == old(self).service.dispatched().push(
                        DispatchRec {
                            id: s.id,
                            tag: Option::Some(old(self).tag@),
                            pool: Option::Some(old(self).pool_ref.id),
                        },
                    )
                    &&& final(self).events@ == old(self).events@.push(
                        AdapterEvent::Dispatched(s.id),
                    ) + release_events(guard)
                } else {
                    &&& r is Err
                    &&& final(self).service == old(self).service
                    &&& final(self).events@ == old(self).events@.push(
                        AdapterEvent::ConvertFailed(s.id),
                    ) + release_events(guard)
                },
                _ => {
                    &&& r is Ok
                    &&& final(self).service == old(self).service
                    &&& final(self).events@ == old(self).events@ + release_events(guard)
                },
            },
    {
        let res: Result<(), ()> = match msg {
            ServerMessage::Connect(stream) => {
                match stream.try_convert() {
                    Ok(mut io) => {
                        io.set_tag(self.tag);
                        io.set_memory_pool(self.pool_ref);
                        let _ = self.service.call(io);
                        self.events.push(AdapterEvent::Dispatched(stream.id));
                        Ok(())
                    },
                    Err(_) => {
                        self.events.push(AdapterEvent::ConvertFailed(stream.id));
                        Err(())
                    },
                }
            },
            _ => Ok(()),
        };
        let ghost pre_release = self.events@;
        match guard {
            Some(g) => {
                counter.release(g);
                self.events.push(AdapterEvent::GuardReleased);
            },
            None => {},
        }
        proof {
            assert(self.events@ =~= pre_release + release_events(guard));
        }
        res
    }
}

} // verus!
