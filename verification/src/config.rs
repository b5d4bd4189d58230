//! The shared handle: the finished configuration, which any number of owners
//! can hold at once.

use crate::builder::Builder;
use crate::context::Context;
use crate::context::ContextView;
use crate::error::Error;
use crate::lifecycle::release_action;
use crate::lifecycle::ReleaseAction;
use crate::resource::ResourceHandle;
use std::sync::atomic::Ordering;
use std::sync::Arc;
use vstd::prelude::*;

verus! {

/// A handle as mathematics: which resource it stands for, and what the side
/// record of that resource holds.
#[verifier::ext_equal]
pub struct ConfigView<C, H> {
    /// The address of the underlying resource.
    pub resource: usize,
    pub context: ContextView<C, H>,
}

/// A handle to a finished configuration.
///
/// All the handles to one underlying resource share its side record. A handle
/// is made by finalizing a builder or by cloning a handle, and it ends with
/// [`Config::release`], which tells its caller whether the resource is now to
/// be freed. Nothing in a handle can be changed once it exists.
pub struct Config<C, H> {
    resource: ResourceHandle,
    context: Arc<Box<Context<C, H>>>,
}

impl<C, H> View for Config<C, H> {
    type V = ConfigView<C, H>;

    closed spec fn view(&self) -> ConfigView<C, H> {
        ConfigView { resource: self.resource@, context: self.context@ }
    }
}

/// `Arc::clone`: another pointer to the same allocation, so what it points to
/// is what `shared` points to.
#[verifier::external_body]
fn share<T>(shared: &Arc<T>) -> (copy: Arc<T>)
    ensures
        copy == shared,
{
    Arc::clone(shared)
}

/// `std::sync::atomic::fence` with acquire ordering: what other threads did
/// before they released the counter is visible after it.
#[verifier::external_body]
fn acquire_fence() {
    std::sync::atomic::fence(Ordering::Acquire)
}

/// Whether the acquire fence has been passed.
pub closed spec fn fence_passed() -> bool {
    call_ensures(acquire_fence, (), ())
}

impl<C, H> Config<C, H> {
    /// A builder with which a configuration can be staged, for the
    /// underlying resource that was allocated at the address `resource`. The
    /// address 0 says that the allocation failed. The address has to be that
    /// of a fresh allocation, for which no other builder or handle exists.
    pub fn builder(resource: usize) -> (builder: Result<Builder<C, H>, Error>)
        ensures
            match builder {
                Ok(b) => resource != 0 && b@.is_created(resource),
                Err(error) => resource == 0 && error == Error::ResourceAllocation,
            },
    {
        Builder::new(resource)
    }

    /// The first handle to `resource`, whose side record is `context`.
    pub(crate) fn first(resource: ResourceHandle, context: Box<Context<C, H>>) -> (config: Self)
        ensures
            config@ == (ConfigView { resource: resource@, context: context@ }),
    {
        Config { resource, context: Arc::new(context) }
    }

    /// The side record, for reading. It cannot be changed through a handle:
    /// handlers are called from several threads at once, and a lock here
    /// would be paid on every call.
    pub fn context(&self) -> (context: &Context<C, H>)
        ensures
            context@ == self@.context,
    {
        &self.context
    }

    /// The address of the underlying resource. It is not 0.
    pub fn resource(&self) -> (resource: usize)
        ensures
            resource == self@.resource,
            resource != 0,
    {
        self.resource.address()
    }

    /// The counter of the side record as a sequentially consistent read gives
    /// it. Never fails. The number depends on what the other handles do.
    pub fn test_get_refcount(&self) -> (count: Result<usize, Error>)
        ensures
            count matches Ok(n) && self@.context.read_as(n),
    {
        Ok(self.context.refcount())
    }

    /// Gives the handle up, and says what its caller has to do.
    ///
    /// The handle takes itself off the counter with release ordering and
    /// decides by [`release_action`] on what the counter held. When it was
    /// the last handle, [`ReleaseAction::Destroy`], an acquire fence is
    /// passed first, so that all that other owners did is visible; the side
    /// record goes with this handle, and the caller then frees the resource.
    /// Which decision comes back depends on the other handles: it is the
    /// `action_after` of what the decrement found in the counter.
    pub fn release(self) -> (action: ReleaseAction)
        ensures
            exists|previous: usize|
                self@.context.relinquished_at(previous) && action == crate::lifecycle::action_after(previous),
            action == ReleaseAction::Destroy ==> fence_passed(),
    {
        let previous = self.context.relinquish();
        let action = release_action(previous);
        assert(self@.context.relinquished_at(previous) && action == crate::lifecycle::action_after(previous));
        match action {
            ReleaseAction::Destroy => {
                acquire_fence();
            },
            _ => {},
        }
        action
    }
}

impl<C, H> Clone for Config<C, H> {
    /// Another handle to the same resource. The counter of the side record
    /// goes up by one.
    fn clone(&self) -> (copy: Self)
        ensures
            copy@ == self@,
            exists|previous: usize| self@.context.acquired_at(previous),
    {
        let previous = self.context.acquire();
        assert(self@.context.acquired_at(previous));
        Config { resource: self.resource, context: share(&self.context) }
    }
}

impl<C, H> PartialEq for Config<C, H> {
    /// Two handles are equal when they stand for the same resource. Since
    /// every resource is given to one builder only, they then share one side
    /// record.
    fn eq(&self, other: &Self) -> (same: bool) {
        self.resource.address() == other.resource.address()
    }
}

impl<C, H> vstd::std_specs::cmp::PartialEqSpecImpl for Config<C, H> {
    open spec fn obeys_eq_spec() -> bool {
        true
    }

    open spec fn eq_spec(&self, other: &Self) -> bool {
        self@.resource == other@.resource
    }
}

} // verus!
