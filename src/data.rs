use std::sync::Arc;
use vstd::prelude::*;

use crate::host_component::{
    AnyHostComponentDataHandle, DynSafeHostComponent, HostComponent, HostComponentDataHandle,
};

verus! {

/// Holds the states of one instance's host components: slot `i` belongs to the
/// component registered at index `i`, and stays empty until first accessed.
#[verifier::reject_recursive_types(P)]
pub struct HostComponentsData<P: DynSafeHostComponent> {
    data: Vec<Option<P::ErasedData>>,
    host_components: Arc<Vec<P>>,
}

impl<P: DynSafeHostComponent> HostComponentsData<P> {
    /// The slots, in registration order; `None` where no state exists yet.
    pub closed spec fn slots(&self) -> Seq<Option<P::ErasedData>> {
        self.data@
    }

    /// The components of the registry this store was made from.
    pub closed spec fn providers(&self) -> Seq<P> {
        self.host_components@
    }

    /// Every component has exactly one slot.
    pub open spec fn wf(&self) -> bool {
        self.slots().len() == self.providers().len()
    }

    /// The erased state that an access to slot `i` finds: the stored state, or
    /// else the component's default.
    pub open spec fn current(&self, i: int) -> P::ErasedData {
        match self.slots()[i] {
            Some(v) => v,
            None => self.providers()[i].spec_build_data_box(),
        }
    }

    /// `handle` locates a slot of this store whose state is of `HC`'s type.
    pub open spec fn fits<HC: HostComponent<P>>(&self, handle: HostComponentDataHandle<HC>) -> bool {
        &&& handle.index() < self.slots().len()
        &&& HC::downcast_spec(self.current(handle.index() as int)) is Some
    }

    /// The state of `HC` that an access through `handle` finds.
    pub open spec fn get_spec<HC: HostComponent<P>>(
        &self,
        handle: HostComponentDataHandle<HC>,
    ) -> HC::Data {
        HC::downcast_spec(self.current(handle.index() as int))->0
    }

    /// A store for the components `host_components`, with every slot empty.
    pub(crate) fn empty(host_components: Arc<Vec<P>>) -> (r: Self)
        ensures
            r.wf(),
            r.providers() == host_components@,
            r.slots() == Seq::new(host_components@.len(), |i: int| None::<P::ErasedData>),
    {
        let n = host_components.len();
        let mut data: Vec<Option<P::ErasedData>> = Vec::with_capacity(n);
        let mut i: usize = 0;
        while i < n
            invariant
                i <= n,
                n == host_components@.len(),
                data@ == Seq::new(i as nat, |j: int| None::<P::ErasedData>),
            decreases n - i,
        {
            data.push(None);
            i += 1;
        }
        HostComponentsData { data, host_components }
    }

    /// Sets the state of the component of `handle`, replacing whatever the slot
    /// held.
    pub fn set<HC: HostComponent<P>>(&mut self, handle: HostComponentDataHandle<HC>, data: HC::Data)
        requires
            old(self).wf(),
            handle.index() < old(self).slots().len(),
        ensures
            final(self).wf(),
            final(self).providers() == old(self).providers(),
            final(self).slots() == old(self).slots().update(
                handle.index() as int,
                Some(HC::erase_spec(data)),
            ),
    {
        let idx = handle.idx();
        self.data.set(idx, Some(HC::erase(data)));
    }

    /// Borrows the state of the component of `handle`, first building the
    /// component's default state if the slot is empty.
    pub fn get_or_insert<HC: HostComponent<P>>(
        &mut self,
        handle: HostComponentDataHandle<HC>,
    ) -> (r: &mut HC::Data)
        requires
            old(self).wf(),
            old(self).fits(handle),
        ensures
            *r == old(self).get_spec(handle),
            HC::erase_spec(*r) == old(self).current(handle.index() as int),
            final(self).wf(),
            final(self).providers() == old(self).providers(),
            final(self).slots() == old(self).slots().update(
                handle.index() as int,
                Some(HC::erase_spec(*final(r))),
            ),
    {
        let x = self.get_or_insert_idx(handle.idx());
        HC::downcast_mut(x).unwrap()
    }

    /// Borrows the erased state of the component of `handle`, first building
    /// the component's default state if the slot is empty.
    pub fn get_or_insert_any(&mut self, handle: AnyHostComponentDataHandle) -> (r:
        &mut P::ErasedData)
        requires
            old(self).wf(),
            handle.index() < old(self).slots().len(),
        ensures
            *r == old(self).current(handle.index() as int),
            final(self).providers() == old(self).providers(),
            final(self).slots() == old(self).slots().update(handle.index() as int, Some(*final(r))),
    {
        self.get_or_insert_idx(handle.idx())
    }

    fn get_or_insert_idx(&mut self, idx: usize) -> (r: &mut P::ErasedData)
        requires
            old(self).wf(),
            idx < old(self).slots().len(),
        ensures
            *r == old(self).current(idx as int),
            final(self).providers() == old(self).providers(),
            final(self).slots() == old(self).slots().update(idx as int, Some(*final(r))),
    {
        if self.data[idx].is_none() {
            let d = self.host_components[idx].build_data_box();
            self.data.set(idx, Some(d));
        }
        self.data[idx].as_mut().unwrap()
    }
}

} // verus!
