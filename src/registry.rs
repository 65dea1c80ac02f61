use std::sync::Arc;
use vstd::prelude::*;

use crate::data::HostComponentsData;
use crate::host_component::{DynSafeHostComponent, HostComponent, HostComponentDataHandle};

verus! {

/// Collects host components at startup. [`Self::build`] consumes it, so no
/// component can be added to a finished registry.
pub struct HostComponentsBuilder<P> {
    host_components: Vec<P>,
}

impl<P> View for HostComponentsBuilder<P> {
    type V = Seq<P>;

    /// The components added so far, in order.
    closed spec fn view(&self) -> Seq<P> {
        self.host_components@
    }
}

impl<P> Default for HostComponentsBuilder<P> {
    fn default() -> (b: Self)
        ensures
            b@ == Seq::<P>::empty(),
    {
        HostComponentsBuilder { host_components: Vec::new() }
    }
}

/// The outcome of registering a component at slot `idx`, given the linker's
/// answer: the handle of the slot, or the linker's error unchanged.
pub fn registration_outcome<HC, E>(idx: usize, linked: Result<(), E>) -> (r: Result<
    HostComponentDataHandle<HC>,
    E,
>)
    ensures
        match linked {
            Ok(()) => r matches Ok(h) && h.index() == idx,
            Err(e) => r == Err::<HostComponentDataHandle<HC>, E>(e),
        },
{
    match linked {
        Ok(()) => Ok(HostComponentDataHandle::new(idx)),
        Err(e) => Err(e),
    }
}

impl<P: DynSafeHostComponent> HostComponentsBuilder<P> {
    /// Adds `host_component` at the next slot and binds its interface into
    /// `linker`. The slot stays taken even when the linker rejects the binding.
    pub fn add_host_component<HC: HostComponent<P>>(
        &mut self,
        linker: &mut HC::Linker,
        host_component: HC,
    ) -> (r: Result<HostComponentDataHandle<HC>, HC::Error>)
        ensures
            final(self)@.len() == old(self)@.len() + 1,
            final(self)@.drop_last() == old(self)@,
            forall|i: int| 0 <= i < old(self)@.len() ==> final(self)@[i] == old(self)@[i],
            final(self)@.last().spec_build_data_box() == HC::erase_spec(
                host_component.spec_build_data(),
            ),
            *final(linker) == HC::spec_add_to_linker(*old(linker), old(self)@.len() as usize).0,
            match HC::spec_add_to_linker(*old(linker), old(self)@.len() as usize).1 {
                Ok(()) => r matches Ok(h) && h.index() == old(self)@.len(),
                Err(e) => r == Err::<HostComponentDataHandle<HC>, HC::Error>(e),
            },
    {
        let idx = self.host_components.len();
        self.host_components.push(host_component.into_dyn_safe());
        proof {
            assert(self.host_components@.drop_last() =~= old(self)@);
        }
        let linked = HC::add_to_linker(linker, HostComponentDataHandle::new(idx));
        registration_outcome(idx, linked)
    }

    /// Finishes registration.
    pub fn build(self) -> (r: HostComponents<P>)
        ensures
            r@ == self@,
    {
        HostComponents { host_components: Arc::new(self.host_components) }
    }
}

/// The finished, immutable set of host components, shared by every instance
/// store made from it.
pub struct HostComponents<P> {
    host_components: Arc<Vec<P>>,
}

impl<P> View for HostComponents<P> {
    type V = Seq<P>;

    /// The registered components, in registration order.
    closed spec fn view(&self) -> Seq<P> {
        self.host_components@
    }
}

impl<P: DynSafeHostComponent> HostComponents<P> {
    /// A builder with no component yet.
    pub fn builder() -> (b: HostComponentsBuilder<P>)
        ensures
            b@ == Seq::<P>::empty(),
    {
        HostComponentsBuilder::default()
    }

    /// A fresh instance store: one empty slot per registered component.
    pub fn new_data(&self) -> (d: HostComponentsData<P>)
        ensures
            d.wf(),
            d.providers() == self@,
            d.slots() == Seq::new(self@.len(), |i: int| None::<P::ErasedData>),
    {
        HostComponentsData::empty(self.host_components.clone())
    }
}

} // verus!
