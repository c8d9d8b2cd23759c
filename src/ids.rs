//! Opaque, namespaced resource handles.

use vstd::prelude::*;

verus! {

/// Allocation scope for resource ids: one per producer connection.
#[derive(Clone, Copy, Debug, PartialEq, Eq, Structural, Hash)]
pub struct IdNamespace(pub u32);

/// An independently-versioned content subtree.
#[derive(Clone, Copy, Debug, PartialEq, Eq, Structural, Hash)]
pub struct PipelineId(pub u32, pub u32);

/// Per-pipeline version counter of submitted display lists.
#[derive(Clone, Copy, Debug, PartialEq, Eq, Structural, Hash)]
pub struct Epoch(pub u32);

/// Identity of an image resource: namespace and local id.
#[derive(Clone, Copy, Debug, PartialEq, Eq, Structural, Hash)]
pub struct ImageKey(pub u32, pub u32);

/// Identity of a font resource: namespace and local id.
#[derive(Clone, Copy, Debug, PartialEq, Eq, Structural, Hash)]
pub struct FontKey(pub u32, pub u32);

/// Identity of a producer-owned texture or pixel buffer.
#[derive(Clone, Copy, Debug, PartialEq, Eq, Structural, Hash)]
pub struct WrExternalImageId(pub u64);

/// Identity of a window that owns a renderer.
#[derive(Clone, Copy, Debug, PartialEq, Eq, Structural, Hash)]
pub struct WrWindowId(pub u64);

impl PipelineId {
    pub fn new(namespace: u32, id: u32) -> (r: PipelineId)
        ensures
            r.0 == namespace,
            r.1 == id,
    {
        PipelineId(namespace, id)
    }

    /// The namespace this pipeline id was allocated in.
    pub fn namespace(&self) -> (r: IdNamespace)
        ensures
            r.0 == self.0,
    {
        IdNamespace(self.0)
    }
}

impl ImageKey {
    pub fn new(namespace: u32, id: u32) -> (r: ImageKey)
        ensures
            r.0 == namespace,
            r.1 == id,
    {
        ImageKey(namespace, id)
    }
}

impl FontKey {
    pub fn new(namespace: u32, id: u32) -> (r: FontKey)
        ensures
            r.0 == namespace,
            r.1 == id,
    {
        FontKey(namespace, id)
    }
}

} // verus!
