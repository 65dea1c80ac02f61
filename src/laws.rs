//! Laws relating the operations of registries, handles and instance stores,
//! stated over the same spec functions as the operations' own contracts.
use vstd::prelude::*;

use crate::data::HostComponentsData;
use crate::host_component::{
    AnyHostComponentDataHandle, DynSafeHostComponent, HostComponent, HostComponentDataHandle,
};
use crate::registry::HostComponents;

verus! {

/// A store made by `registry.new_data()` starts from the components' defaults
/// whatever was done to another store of the same registry: here `before` is
/// set to `after` through `handle`, and `other`, fresh, still yields the
/// component's default at that slot while `after` yields `data`.
///
/// That operations on one store never reach another is not a matter of proof:
/// each store owns its slots, every operation takes the one store it works on
/// by `&mut`, and its contract speaks of that store alone.
pub proof fn lemma_stores_isolated<P: DynSafeHostComponent, HC: HostComponent<P>>(
    registry: HostComponents<P>,
    before: HostComponentsData<P>,
    after: HostComponentsData<P>,
    other: HostComponentsData<P>,
    handle: HostComponentDataHandle<HC>,
    data: HC::Data,
)
    requires
        before.providers() == registry@,
        other.providers() == registry@,
        other.slots() == Seq::new(registry@.len(), |i: int| None::<P::ErasedData>),
        before.wf(),
        handle.index() < before.slots().len(),
        after.slots() == before.slots().update(handle.index() as int, Some(HC::erase_spec(data))),
        after.providers() == before.providers(),
    ensures
        after.get_spec(handle) == data,
        other.current(handle.index() as int) == registry@[handle.index() as int].spec_build_data_box(),
{
    HC::lemma_downcast_erase(data);
}

/// A slot that was never set yields its component's default state: for the
/// component `hc` registered at the slot of `handle`, the first
/// `get_or_insert(handle)` returns `hc.build_data()`.
pub proof fn lemma_lazy_init_default<P: DynSafeHostComponent, HC: HostComponent<P>>(
    store: HostComponentsData<P>,
    handle: HostComponentDataHandle<HC>,
    hc: HC,
)
    requires
        store.wf(),
        handle.index() < store.slots().len(),
        store.slots()[handle.index() as int] is None,
        store.providers()[handle.index() as int].spec_build_data_box() == HC::erase_spec(
            hc.spec_build_data(),
        ),
    ensures
        store.fits(handle),
        store.get_spec(handle) == hc.spec_build_data(),
{
    HC::lemma_downcast_erase(hc.spec_build_data());
}

/// Once a slot is filled, later accesses find the state that the last access
/// left there (`value`, after any changes made through the returned
/// reference), not a fresh default: `after` is the store as
/// `get_or_insert(handle)` leaves it.
pub proof fn lemma_get_or_insert_keeps_state<P: DynSafeHostComponent, HC: HostComponent<P>>(
    before: HostComponentsData<P>,
    after: HostComponentsData<P>,
    handle: HostComponentDataHandle<HC>,
    value: HC::Data,
)
    requires
        before.wf(),
        handle.index() < before.slots().len(),
        after.providers() == before.providers(),
        after.slots() == before.slots().update(handle.index() as int, Some(HC::erase_spec(value))),
    ensures
        after.wf(),
        after.fits(handle),
        after.get_spec(handle) == value,
        after.slots()[handle.index() as int] == Some(HC::erase_spec(value)),
{
    HC::lemma_downcast_erase(value);
}

/// `set(handle, data)` overrides the default: the next `get_or_insert(handle)`
/// returns `data`.
pub proof fn lemma_set_overrides_default<P: DynSafeHostComponent, HC: HostComponent<P>>(
    before: HostComponentsData<P>,
    after: HostComponentsData<P>,
    handle: HostComponentDataHandle<HC>,
    data: HC::Data,
)
    requires
        before.wf(),
        handle.index() < before.slots().len(),
        after.providers() == before.providers(),
        after.slots() == before.slots().update(handle.index() as int, Some(HC::erase_spec(data))),
    ensures
        after.wf(),
        after.fits(handle),
        after.get_spec(handle) == data,
{
    HC::lemma_downcast_erase(data);
}

/// Erasing a handle loses nothing: the erased state that
/// `get_or_insert_any(erased)` returns downcasts to exactly the state that
/// `get_or_insert(handle)` returns on the same store.
pub proof fn lemma_erased_handle_agrees<P: DynSafeHostComponent, HC: HostComponent<P>>(
    store: HostComponentsData<P>,
    handle: HostComponentDataHandle<HC>,
    erased: AnyHostComponentDataHandle,
)
    requires
        store.wf(),
        store.fits(handle),
        erased.index() == handle.index(),
    ensures
        erased.index() < store.slots().len(),
        HC::downcast_spec(store.current(erased.index() as int)) == Some(store.get_spec(handle)),
{
}

/// Components do not share slots: in a fresh store each slot yields its own
/// component's default, and an access through one handle (`before` to
/// `after`, as `get_or_insert` leaves it) leaves what every other slot yields
/// unchanged.
pub proof fn lemma_slots_independent<P: DynSafeHostComponent>(
    before: HostComponentsData<P>,
    after: HostComponentsData<P>,
    idx: int,
)
    requires
        before.wf(),
        0 <= idx < before.slots().len(),
        after.providers() == before.providers(),
        after.slots().len() == before.slots().len(),
        forall|j: int|
            0 <= j < before.slots().len() && j != idx ==> after.slots()[j] == before.slots()[j],
    ensures
        forall|j: int|
            0 <= j < before.slots().len() && j != idx ==> #[trigger] after.current(j)
                == before.current(j),
        forall|j: int|
            0 <= j < before.slots().len() && before.slots()[j] is None ==> #[trigger] before.current(j)
                == before.providers()[j].spec_build_data_box(),
{
}

/// Every slot of `store` yields its own component's default.
pub open spec fn yields_defaults<P: DynSafeHostComponent>(store: HostComponentsData<P>) -> bool {
    forall|i: int|
        0 <= i < store.slots().len() ==> #[trigger] store.current(i)
            == store.providers()[i].spec_build_data_box()
}

/// A fresh store yields, at each slot, the default of the component
/// registered there, however many components the registry holds.
pub proof fn lemma_fresh_store_yields_defaults<P: DynSafeHostComponent>(
    registry: HostComponents<P>,
    store: HostComponentsData<P>,
)
    requires
        store.providers() == registry@,
        store.slots() == Seq::new(registry@.len(), |i: int| None::<P::ErasedData>),
    ensures
        yields_defaults(store),
{
}

/// Accesses never mix components up: a `get_or_insert(handle)` (from `before`
/// to `after`) whose result `value` is left unchanged keeps every slot at its
/// own component's default. With the law above this holds after any number of
/// such accesses, to any of the components, in any order.
pub proof fn lemma_access_keeps_defaults<P: DynSafeHostComponent, HC: HostComponent<P>>(
    before: HostComponentsData<P>,
    after: HostComponentsData<P>,
    handle: HostComponentDataHandle<HC>,
    value: HC::Data,
)
    requires
        before.wf(),
        yields_defaults(before),
        handle.index() < before.slots().len(),
        HC::erase_spec(value) == before.current(handle.index() as int),
        after.providers() == before.providers(),
        after.slots() == before.slots().update(handle.index() as int, Some(HC::erase_spec(value))),
    ensures
        after.wf(),
        yields_defaults(after),
{
    assert forall|i: int| 0 <= i < after.slots().len() implies #[trigger] after.current(i)
        == after.providers()[i].spec_build_data_box() by {
        assert(before.current(i) == before.providers()[i].spec_build_data_box());
    }
}

} // verus!
