use std::marker::PhantomData;
use vstd::prelude::*;

verus! {

/// What a registry needs from each component it holds, in a form that does not
/// depend on the component's own state type.
///
/// A registry is generic over one type implementing this trait (typically an
/// enum with one variant per kind of component) so that components of different
/// types share one list.
pub trait DynSafeHostComponent {
    /// The erased state type: a value that can hold the state of any of the
    /// registry's components.
    type ErasedData;

    /// The erased default state that [`Self::build_data_box`] builds.
    spec fn spec_build_data_box(&self) -> Self::ErasedData;

    /// Builds a fresh default state, in erased form.
    fn build_data_box(&self) -> (d: Self::ErasedData)
        ensures
            d == self.spec_build_data_box(),
    ;
}

/// A host component: an interface offered to guests and implemented by the
/// host, with per-instance state of type [`Self::Data`].
///
/// `P` is the registry's component type; `P::ErasedData` is the slot type in
/// which the component's state is stored.
pub trait HostComponent<P: DynSafeHostComponent>: Sized + Send + Sync + 'static {
    /// Per-instance runtime state of the component.
    type Data;

    /// The linker that the component's interface is bound into.
    type Linker;

    /// What the linker reports when it rejects the binding.
    type Error;

    /// The default state that [`Self::build_data`] builds.
    spec fn spec_build_data(&self) -> Self::Data;

    /// The erased form of a state.
    spec fn erase_spec(d: Self::Data) -> P::ErasedData;

    /// The state held by an erased value, if it holds one of this component's
    /// type.
    spec fn downcast_spec(v: P::ErasedData) -> Option<Self::Data>;

    /// An erased state gives back the state it was made from.
    proof fn lemma_downcast_erase(d: Self::Data)
        ensures
            Self::downcast_spec(Self::erase_spec(d)) == Some(d),
    ;

    /// The linker that binding into `linker` for the slot `idx` leaves, and
    /// the linker's answer.
    spec fn spec_add_to_linker(linker: Self::Linker, idx: usize) -> (
        Self::Linker,
        Result<(), Self::Error>,
    );

    /// Binds this component's interface into `linker`; `handle` locates the
    /// component's state in every instance store.
    fn add_to_linker(linker: &mut Self::Linker, handle: HostComponentDataHandle<Self>) -> (r: Result<
        (),
        Self::Error,
    >)
        ensures
            (*final(linker), r) == Self::spec_add_to_linker(*old(linker), handle.index()),
    ;

    /// Builds new runtime state for a [`crate::HostComponentsData`].
    fn build_data(&self) -> (d: Self::Data)
        ensures
            d == self.spec_build_data(),
    ;

    /// Turns the component into the registry's component type.
    fn into_dyn_safe(self) -> (p: P)
        ensures
            p.spec_build_data_box() == Self::erase_spec(self.spec_build_data()),
    ;

    /// Erases a state into the registry's slot type.
    fn erase(d: Self::Data) -> (v: P::ErasedData)
        ensures
            v == Self::erase_spec(d),
    ;

    /// Borrows the state held by an erased value, if it is of this component's
    /// type.
    fn downcast_mut(v: &mut P::ErasedData) -> (r: Option<&mut Self::Data>)
        ensures
            r is Some <==> Self::downcast_spec(*old(v)) is Some,
            r matches Some(x) ==> Self::downcast_spec(*old(v)) == Some(*x) && *old(v)
                == Self::erase_spec(*x) && *final(v) == Self::erase_spec(*final(x)),
    ;
}

/// An opaque handle returned by
/// [`crate::HostComponentsBuilder::add_host_component`], which can be passed to
/// [`crate::HostComponentsData`] to access or set the state of component `HC`.
pub struct HostComponentDataHandle<HC> {
    idx: usize,
    _phantom: PhantomData<HC>,
}

impl<HC> HostComponentDataHandle<HC> {
    /// The slot index of the component.
    pub closed spec fn index(&self) -> usize {
        self.idx
    }

    pub(crate) fn new(idx: usize) -> (h: Self)
        ensures
            h.index() == idx,
    {
        HostComponentDataHandle { idx, _phantom: PhantomData }
    }

    pub(crate) fn idx(&self) -> (i: usize)
        ensures
            i == self.index(),
    {
        self.idx
    }
}

impl<HC> Clone for HostComponentDataHandle<HC> {
    fn clone(&self) -> (h: Self)
        ensures
            h.index() == self.index(),
    {
        HostComponentDataHandle { idx: self.idx, _phantom: PhantomData }
    }
}

impl<HC> Copy for HostComponentDataHandle<HC> {}

/// A handle that has lost its component type, for call sites that reach the
/// store through dynamic dispatch.
#[derive(Clone, Copy)]
pub struct AnyHostComponentDataHandle(usize);

impl AnyHostComponentDataHandle {
    /// The slot index of the component.
    pub closed spec fn index(&self) -> usize {
        self.0
    }

    pub(crate) fn idx(&self) -> (i: usize)
        ensures
            i == self.index(),
    {
        self.0
    }
}

impl<HC> From<HostComponentDataHandle<HC>> for AnyHostComponentDataHandle {
    /// Drops the component type of `value`, keeping its slot index.
    fn from(value: HostComponentDataHandle<HC>) -> (r: Self)
        ensures
            r.index() == value.index(),
    {
        AnyHostComponentDataHandle(value.idx)
    }
}

impl<HC> vstd::std_specs::convert::FromSpecImpl<HostComponentDataHandle<HC>> for
    AnyHostComponentDataHandle {
    open spec fn obeys_from_spec() -> bool {
        true
    }

    closed spec fn from_spec(v: HostComponentDataHandle<HC>) -> Self {
        AnyHostComponentDataHandle(v.idx)
    }
}

} // verus!
