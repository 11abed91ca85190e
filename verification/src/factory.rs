//! The service factory machinery: the user-supplied builder contract, the
//! uniform factory interface a runtime stores per listener, the concrete
//! one-token factory that binds a user builder to a token and address, and
//! the boxed forwarding that lets a runtime hold factories uniformly.

use vstd::prelude::*;

use crate::handler::{ConnHandler, ReadyState, RecordingHandler};
use crate::pool::{Pool, PoolId, PoolRef};
use crate::service::{AdapterEvent, StreamService};
use crate::stream::DispatchRec;

verus! {

/// Stable identifier for one registered listener, allocated by the external
/// listener-registration layer.
#[derive(Clone, Copy, PartialEq, Eq, Structural, Debug)]
pub struct Token {
    pub index: usize,
}

/// Per-listener configuration snapshot; the factory takes a fresh default
/// one per build and derives the service's pool identity from it.
#[derive(Clone, Copy, PartialEq, Eq, Structural, Debug)]
pub struct Config {
    pub pool: PoolId,
}

impl Config {
    /// What a fresh default configuration holds.
    pub open spec fn spec_default() -> Config {
        Config { pool: PoolId { id: 0 } }
    }

    pub fn get_pool_id(&self) -> (r: PoolId)
        ensures
            r == self.pool,
    {
        self.pool
    }
}

impl Default for Config {
    fn default() -> (r: Config)
        ensures
            r == Config::spec_default(),
    {
        Config { pool: PoolId { id: 0 } }
    }
}

/// The handler factory a user builder yields: its one build step produces a
/// fresh connection handler, or fails as a whole.
pub trait HandlerFactory: Sized {
    type Handler: ConnHandler;

    /// Whether this factory's build step succeeds.
    spec fn succeeds(&self) -> bool;

    /// The initial readiness of the handlers this factory builds.
    spec fn built_ready(&self) -> ReadyState;

    /// Build one fresh handler: one that has not dispatched anything yet and
    /// starts at this factory's initial readiness.
    fn create(&self) -> (r: Result<Self::Handler, ()>)
        ensures
            r is Ok <==> self.succeeds(),
            r matches Ok(h) ==> {
                &&& h.dispatched() == Seq::<DispatchRec>::empty()
                &&& h.readiness() == self.built_ready()
            },
    ;
}

/// The user-supplied builder contract: given a configuration, yield a
/// handler factory. Copyable, so every worker can take its own instance.
pub trait StreamServiceFactory: Sized + Copy {
    type Factory: HandlerFactory;

    /// Whether the whole build chain this builder starts succeeds.
    spec fn builds_ok(&self) -> bool;

    /// The initial readiness of the handlers the chain builds.
    spec fn built_ready(&self) -> ReadyState;

    fn create(&self, cfg: Config) -> (r: Self::Factory)
        ensures
            r.succeeds() == self.builds_ok(),
            r.built_ready() == self.built_ready(),
    ;
}

/// The uniform, name- and tag-bearing interface under which a runtime
/// builds, clones and renames one listener's service set without knowing the
/// concrete handler type.
pub trait InternalServiceFactory: Sized {
    type Handler: ConnHandler;

    /// The display name this factory reports.
    spec fn spec_name(&self) -> Seq<char>;

    /// The diagnostic tag the services it builds will carry.
    spec fn spec_tag(&self) -> Seq<char>;

    /// The one token this factory is responsible for.
    spec fn spec_token(&self) -> Token;

    /// The listen address bound to this factory's listener.
    spec fn spec_addr(&self) -> Seq<char>;

    /// Whether building the service set will succeed.
    spec fn builds_ok(&self) -> bool;

    /// The initial readiness of the handlers this factory builds.
    spec fn built_ready(&self) -> ReadyState;

    /// Stable display name for the given token; a one-token factory ignores
    /// the argument.
    fn name(&self, token: Token) -> (r: &str)
        ensures
            r@ == self.spec_name(),
    ;

    /// Change the diagnostic tag used by every service this factory builds
    /// from now on. Local to this instance: no other factory is touched, and
    /// everything else this factory holds stays as it was.
    fn set_tag(&mut self, token: Token, tag: &'static str)
        ensures
            final(self).spec_tag() == tag@,
            final(self).spec_name() == old(self).spec_name(),
            final(self).spec_token() == old(self).spec_token(),
            final(self).spec_addr() == old(self).spec_addr(),
            final(self).builds_ok() == old(self).builds_ok(),
            final(self).built_ready() == old(self).built_ready(),
    ;

    /// An independent instance for one worker, equal in value to this one —
    /// name, tag, token, address and user builder included — so later
    /// mutations of either instance stay local to it.
    fn clone_factory(&self) -> (r: Self)
        ensures
            r == *self,
    ;

    /// Build the service set: on success exactly one `(token, service)`
    /// pair, whose service wraps a fresh handler, carries this factory's
    /// tag, and draws its pool from a fresh default configuration. Any build
    /// failure fails the whole token; there is no partial list.
    fn create(&self) -> (r: Result<Vec<(Token, StreamService<Self::Handler>)>, ()>)
        ensures
            r is Ok <==> self.builds_ok(),
            r matches Ok(v) ==> {
                &&& v@.len() == 1
                &&& v@[0].0 == self.spec_token()
                &&& v@[0].1.tag@ == self.spec_tag()
                &&& v@[0].1.pool == (Pool { id: Config::spec_default().pool.id, ready: true })
                &&& v@[0].1.pool_ref == (PoolRef { id: Config::spec_default().pool.id })
                &&& v@[0].1.wf()
                &&& v@[0].1.service.dispatched() == Seq::<DispatchRec>::empty()
                &&& v@[0].1.service.readiness() == self.built_ready()
                &&& v@[0].1.events@ == Seq::<AdapterEvent>::empty()
            },
    ;
}

/// Concrete one-token factory: binds a display name, a listener token, a
/// listen address and a diagnostic tag to one user-supplied builder.
pub struct Factory<F: StreamServiceFactory> {
    pub name: String,
    pub tag: &'static str,
    pub inner: F,
    pub token: Token,
    pub addr: String,
}

impl<F: StreamServiceFactory> Factory<F> {
    /// Construct and box a factory; the boxed form is what the runtime
    /// stores alongside factories for its other listeners.
    pub fn create(
        name: String,
        token: Token,
        inner: F,
        addr: String,
        tag: &'static str,
    ) -> (r: Box<Factory<F>>)
        ensures
            r.spec_name() == name@,
            r.spec_tag() == tag@,
            r.spec_token() == token,
            r.spec_addr() == addr@,
            r.builds_ok() == inner.builds_ok(),
            r.built_ready() == inner.built_ready(),
    {
        Box::new(Factory { name, token, inner, addr, tag })
    }
}

impl<F: StreamServiceFactory> InternalServiceFactory for Factory<F> {
    type Handler = <F::Factory as HandlerFactory>::Handler;

    open spec fn spec_name(&self) -> Seq<char> {
        self.name@
    }

    open spec fn spec_tag(&self) -> Seq<char> {
        self.tag@
    }

    open spec fn spec_token(&self) -> Token {
        self.token
    }

    open spec fn spec_addr(&self) -> Seq<char> {
        self.addr@
    }

    open spec fn builds_ok(&self) -> bool {
        self.inner.builds_ok()
    }

    open spec fn built_ready(&self) -> ReadyState {
        self.inner.built_ready()
    }

    fn name(&self, _token: Token) -> (r: &str) {
        self.name.as_str()
    }

    fn set_tag(&mut self, _token: Token, tag: &'static str) {
        self.tag = tag;
    }

    fn clone_factory(&self) -> (r: Factory<F>) {
        Factory {
            name: self.name.clone(),
            inner: self.inner,
            token: self.token,
            addr: self.addr.clone(),
            tag: self.tag,
        }
    }

    fn create(&self) -> (r: Result<Vec<(Token, StreamService<Self::Handler>)>, ()>) {
        let cfg = Config::default();
        let pool = cfg.get_pool_id();
        let factory = self.inner.create(cfg);
        match factory.create() {
            Ok(inner) => {
                let service = StreamService::new(inner, self.tag, pool);
                let mut list: Vec<(Token, StreamService<Self::Handler>)> = Vec::new();
                list.push((self.token, service));
                Ok(list)
            },
            Err(_) => Err(()),
        }
    }
}

/// The simplest user builder: it either always succeeds, yielding recording
/// handlers with a fixed initial readiness, or always fails. It grounds the
/// builder contracts in a checked implementation and lets the factory chain
/// be exercised end to end.
#[derive(Clone, Copy)]
pub struct FixedServiceFactory {
    pub succeed: bool,
    pub ready: ReadyState,
}

/// The handler factory a `FixedServiceFactory` yields.
#[derive(Clone, Copy)]
pub struct FixedHandlerFactory {
    pub succeed: bool,
    pub ready: ReadyState,
}

impl HandlerFactory for FixedHandlerFactory {
    type Handler = RecordingHandler;

    open spec fn succeeds(&self) -> bool {
        self.succeed
    }

    open spec fn built_ready(&self) -> ReadyState {
        self.ready
    }

    fn create(&self) -> (r: Result<RecordingHandler, ()>) {
        if self.succeed {
            Ok(RecordingHandler::new(self.ready))
        } else {
            Err(())
        }
    }
}

impl StreamServiceFactory for FixedServiceFactory {
    type Factory = FixedHandlerFactory;

    open spec fn builds_ok(&self) -> bool {
        self.succeed
    }

    open spec fn built_ready(&self) -> ReadyState {
        self.ready
    }

    fn create(&self, _cfg: Config) -> (r: FixedHandlerFactory) {
        FixedHandlerFactory { succeed: self.succeed, ready: self.ready }
    }
}

/// A boxed factory forwards all four operations to the factory it holds, so
/// a runtime can store and drive factories uniformly.
impl<G: InternalServiceFactory> InternalServiceFactory for Box<G> {
    type Handler = G::Handler;

    open spec fn spec_name(&self) -> Seq<char> {
        (**self).spec_name()
    }

    open spec fn spec_tag(&self) -> Seq<char> {
        (**self).spec_tag()
    }

    open spec fn spec_token(&self) -> Token {
        (**self).spec_token()
    }

    open spec fn spec_addr(&self) -> Seq<char> {
        (**self).spec_addr()
    }

    open spec fn builds_ok(&self) -> bool {
        (**self).builds_ok()
    }

    open spec fn built_ready(&self) -> ReadyState {
        (**self).built_ready()
    }

    fn name(&self, token: Token) -> (r: &str) {
        (**self).name(token)
    }

    fn set_tag(&mut self, token: Token, tag: &'static str) {
        (**self).set_tag(token, tag);
    }

    fn clone_factory(&self) -> (r: Box<G>) {
        Box::new((**self).clone_factory())
    }

    fn create(&self) -> (r: Result<Vec<(Token, StreamService<G::Handler>)>, ()>) {
        (**self).create()
    }
}

} // verus!
