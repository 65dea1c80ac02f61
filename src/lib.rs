//! A type-safe heterogeneous registry of host components.
//!
//! Host components (capability providers) are registered once into a
//! [`HostComponentsBuilder`], which hands back a typed handle per component.
//! The finished [`HostComponents`] registry is immutable and shared; it creates
//! one [`HostComponentsData`] store per guest instance, in which each
//! component's state is created lazily on first access.
//!
//! Component states of different types share one slot vector: each slot holds
//! the registry's erased state type (`P::ErasedData`, typically an enum with one
//! variant per component state), and typed handles convert back and forth
//! through [`HostComponent::erase`] and [`HostComponent::downcast_mut`].
//!
//! The module [`laws`] states and proves how the operations relate.

mod data;
mod host_component;
pub mod laws;
mod registry;

pub use data::HostComponentsData;
pub use host_component::{
    AnyHostComponentDataHandle, DynSafeHostComponent, HostComponent, HostComponentDataHandle,
};
pub use registry::{registration_outcome, HostComponents, HostComponentsBuilder};
