//! A verified cache of vertex binding sets.
//!
//! The crate manages the association of vertex buffers, an index buffer and a
//! shader program with the pipeline binding-state object that encodes it.
//! Binding sets are constructed once, validated against the program's declared
//! attributes, cached under a canonical key, and destroyed exactly when a
//! participating buffer or program goes away.
//!
//! The device is modeled explicitly: every driver call the core decides to
//! issue is recorded as a [`device::DeviceCommand`] in the device's command
//! log, and the device's tracked state (active binding object, active data
//! source) is used to skip redundant calls. An embedder replays the log
//! against the real driver.

pub mod cache;
pub mod device;
pub mod key;
pub mod resource;
pub mod types;

use vstd::prelude::*;

verus! {

/// Everything that can go wrong while building or destroying a binding set.
#[derive(Debug, Clone, PartialEq, Eq)]
pub enum BindingError {
    /// A vertex source was added with a nonzero first-element offset, which
    /// is explicitly unsupported.
    UnsupportedFirstElement { first: usize },
    /// A source supplies data for a program attribute under an incompatible
    /// layout: the component counts differ, or the program declares an array.
    TypeMismatch {
        name: String,
        expected: crate::types::AttributeType,
        actual: crate::types::AttributeType,
        expected_components: u32,
        actual_components: u32,
    },
    /// The program declares an attribute that no vertex source supplies.
    MissingAttribute { name: String },
    /// No capability tier for binding objects is available on the device.
    NoVertexArrayCapability,
    /// No capability tier for buffer binding is available on the device.
    NoBufferCapability,
    /// A binding-set resource was destroyed twice, or used after destruction.
    AlreadyDestroyed,
}

} // verus!
