//! The side record: the state that is attached one-to-one to an underlying
//! resource and shared by every handle to it.

use std::sync::atomic::AtomicUsize;
use std::sync::atomic::Ordering;
use vstd::prelude::*;

verus! {

/// The kinds of handler that an application can register. The side record
/// keeps at most one handler of each.
#[derive(Clone, Copy, Debug, PartialEq, Eq, Hash, Structural)]
pub enum HandlerCategory {
    /// Runs after the client hello was parsed.
    ClientHello,
    /// Carries out operations that need the private key.
    PrivateKey,
    /// Decides whether a host name of the peer's certificate is trusted.
    VerifyHost,
    /// Receives session tickets as they arrive.
    SessionTicket,
    /// Prepares a connection before its handshake begins.
    ConnectionInitializer,
    /// Tells the time since the epoch. It may move backwards.
    WallClock,
    /// Tells the time since an arbitrary point. It never moves backwards.
    MonotonicClock,
}

/// What a side record holds, as mathematics: the counter of the handles that
/// share it, the certificate chains it keeps alive, oldest first, and the
/// handler registered for each category that has one.
///
/// Of the counter only its identity is known here, not what it holds at any
/// moment: other handles change it as they come and go.
#[verifier::ext_equal]
pub struct ContextView<C, H> {
    pub counter: AtomicUsize,
    pub owned_chains: Seq<C>,
    pub handlers: Map<HandlerCategory, H>,
}

impl<C, H> ContextView<C, H> {
    /// Whether this is the side record of a fresh resource: the counter was
    /// made holding one, and there is no chain and no handler.
    pub open spec fn is_fresh(self) -> bool {
        &&& call_ensures(AtomicUsize::new, (1usize,), self.counter)
        &&& self.owned_chains == Seq::<C>::empty()
        &&& self.handlers == Map::<HandlerCategory, H>::empty()
    }

    /// Whether `count` is what reading the counter with sequentially
    /// consistent ordering gave.
    pub open spec fn read_as(self, count: usize) -> bool {
        call_ensures(AtomicUsize::load, (&self.counter, Ordering::SeqCst), count)
    }

    /// Whether `previous` is what adding one to the counter with relaxed
    /// ordering found there.
    pub open spec fn acquired_at(self, previous: usize) -> bool {
        call_ensures(AtomicUsize::fetch_add, (&self.counter, 1usize, Ordering::Relaxed), previous)
    }

    /// Whether `previous` is what taking one from the counter with release
    /// ordering found there.
    pub open spec fn relinquished_at(self, previous: usize) -> bool {
        call_ensures(AtomicUsize::fetch_sub, (&self.counter, 1usize, Ordering::Release), previous)
    }

    /// The handler registered for `category`, if there is one.
    pub open spec fn handler(self, category: HandlerCategory) -> Option<H> {
        if self.handlers.contains_key(category) {
            Some(self.handlers[category])
        } else {
            None
        }
    }

    /// The side record after `handler` was registered for `category`: it
    /// takes the place of whatever was registered there before.
    pub open spec fn with_handler(self, category: HandlerCategory, handler: H) -> Self {
        ContextView { handlers: self.handlers.insert(category, handler), ..self }
    }

    /// The side record after `chain` was added to the chains it keeps alive.
    pub open spec fn with_chain(self, chain: C) -> Self {
        ContextView { owned_chains: self.owned_chains.push(chain), ..self }
    }

    /// The side record after `chains` were added, in order, to the chains it
    /// keeps alive.
    pub open spec fn with_chains(self, chains: Seq<C>) -> Self {
        ContextView { owned_chains: self.owned_chains + chains, ..self }
    }
}

/// The side record of one underlying resource.
///
/// `C` is the application's certificate chain handle and `H` its handler
/// object. The record counts the handles that share it, keeps every chain
/// alive that the resource was given a borrowed reference to, and holds the
/// registered handlers. Chains are only ever added.
pub struct Context<C, H> {
    refcount: AtomicUsize,
    application_owned_certs: Vec<C>,
    client_hello_callback: Option<H>,
    private_key_callback: Option<H>,
    verify_host_callback: Option<H>,
    session_ticket_callback: Option<H>,
    connection_initializer: Option<H>,
    wall_clock: Option<H>,
    monotonic_clock: Option<H>,
}

impl<C, H> Context<C, H> {
    /// What the slot of `category` holds.
    spec fn slot(&self, category: HandlerCategory) -> Option<H> {
        match category {
            HandlerCategory::ClientHello => self.client_hello_callback,
            HandlerCategory::PrivateKey => self.private_key_callback,
            HandlerCategory::VerifyHost => self.verify_host_callback,
            HandlerCategory::SessionTicket => self.session_ticket_callback,
            HandlerCategory::ConnectionInitializer => self.connection_initializer,
            HandlerCategory::WallClock => self.wall_clock,
            HandlerCategory::MonotonicClock => self.monotonic_clock,
        }
    }
}

impl<C, H> View for Context<C, H> {
    type V = ContextView<C, H>;

    closed spec fn view(&self) -> ContextView<C, H> {
        ContextView {
            counter: self.refcount,
            owned_chains: self.application_owned_certs@,
            handlers: Map::new(
                |category: HandlerCategory| self.slot(category) is Some,
                |category: HandlerCategory| self.slot(category).unwrap(),
            ),
        }
    }
}

impl<C, H> Default for Context<C, H> {
    /// A fresh side record: the counter at one, no chain, no handler.
    fn default() -> (context: Self)
        ensures
            context@.is_fresh(),
    {
        // The counter tracks the handles by hand: it decides when the
        // underlying resource is freed.
        let refcount = AtomicUsize::new(1);
        let context = Context {
            refcount,
            application_owned_certs: Vec::new(),
            client_hello_callback: None,
            private_key_callback: None,
            verify_host_callback: None,
            session_ticket_callback: None,
            connection_initializer: None,
            wall_clock: None,
            monotonic_clock: None,
        };
        assert(context@.handlers =~= Map::<HandlerCategory, H>::empty());
        context
    }
}

impl<C, H> Context<C, H> {
    /// The handler registered for `category`, if there is one.
    pub fn handler(&self, category: HandlerCategory) -> (handler: Option<&H>)
        ensures
            match handler {
                Some(h) => self@.handler(category) == Some(*h),
                None => self@.handler(category) is None,
            },
    {
        match category {
            HandlerCategory::ClientHello => self.client_hello_callback.as_ref(),
            HandlerCategory::PrivateKey => self.private_key_callback.as_ref(),
            HandlerCategory::VerifyHost => self.verify_host_callback.as_ref(),
            HandlerCategory::SessionTicket => self.session_ticket_callback.as_ref(),
            HandlerCategory::ConnectionInitializer => self.connection_initializer.as_ref(),
            HandlerCategory::WallClock => self.wall_clock.as_ref(),
            HandlerCategory::MonotonicClock => self.monotonic_clock.as_ref(),
        }
    }

    /// How many certificate chains the record keeps alive.
    pub fn owned_chain_count(&self) -> (count: usize)
        ensures
            count == self@.owned_chains.len(),
    {
        self.application_owned_certs.len()
    }

    /// The chain at `index` of those the record keeps alive, oldest first.
    pub fn owned_chain(&self, index: usize) -> (chain: Option<&C>)
        ensures
            match chain {
                Some(c) => index < self@.owned_chains.len() && *c == self@.owned_chains[index as int],
                None => index >= self@.owned_chains.len(),
            },
    {
        if index < self.application_owned_certs.len() {
            Some(&self.application_owned_certs[index])
        } else {
            None
        }
    }

    /// Registers `handler` for `category`, in place of any handler that was
    /// registered for it before. The other categories keep theirs.
    pub fn set_handler(&mut self, category: HandlerCategory, handler: H)
        ensures
            final(self)@ == old(self)@.with_handler(category, handler),
    {
        match category {
            HandlerCategory::ClientHello => { self.client_hello_callback = Some(handler); },
            HandlerCategory::PrivateKey => { self.private_key_callback = Some(handler); },
            HandlerCategory::VerifyHost => { self.verify_host_callback = Some(handler); },
            HandlerCategory::SessionTicket => { self.session_ticket_callback = Some(handler); },
            HandlerCategory::ConnectionInitializer => { self.connection_initializer = Some(handler); },
            HandlerCategory::WallClock => { self.wall_clock = Some(handler); },
            HandlerCategory::MonotonicClock => { self.monotonic_clock = Some(handler); },
        }
        assert(self@.handlers =~= old(self)@.handlers.insert(category, handler));
    }

    /// Adds `chain` to the chains that the record keeps alive.
    pub fn retain_chain(&mut self, chain: C)
        ensures
            final(self)@ == old(self)@.with_chain(chain),
    {
        self.application_owned_certs.push(chain);
        assert(self@.handlers =~= old(self)@.handlers);
    }

    /// Adds `chains`, in order, to the chains that the record keeps alive.
    pub fn retain_chains(&mut self, chains: Vec<C>)
        ensures
            final(self)@ == old(self)@.with_chains(chains@),
    {
        let mut chains = chains;
        self.application_owned_certs.append(&mut chains);
        assert(self@.handlers =~= old(self)@.handlers);
    }

    /// The counter as it stands, read with sequentially consistent ordering.
    /// Other handles may change it at any moment.
    pub fn refcount(&self) -> (count: usize)
        ensures
            self@.read_as(count),
    {
        self.refcount.load(Ordering::SeqCst)
    }

    /// Adds one to the counter and returns what it held before. Relaxed
    /// ordering is enough: the caller holds a handle, so no other thread can
    /// be freeing the record.
    pub(crate) fn acquire(&self) -> (previous: usize)
        ensures
            self@.acquired_at(previous),
    {
        self.refcount.fetch_add(1, Ordering::Relaxed)
    }

    /// Takes one from the counter, with release ordering, and returns what it
    /// held before.
    pub(crate) fn relinquish(&self) -> (previous: usize)
        ensures
            self@.relinquished_at(previous),
    {
        self.refcount.fetch_sub(1, Ordering::Release)
    }
}

} // verus!
