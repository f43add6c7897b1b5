use vstd::prelude::*;
use crate::helpers::{ComPtr, ComWrapper};

verus! {

/// A generic resource of a device: the capability that textures and buffers
/// share.
#[derive(Debug, PartialEq, Eq, Structural)]
pub struct Resource {
    ptr: ComPtr,
}

impl ComWrapper for Resource {
    closed spec fn raw(&self) -> usize {
        self.ptr.addr()
    }

    fn get_raw(&self) -> (raw: usize) {
        self.ptr.as_raw()
    }

    fn into_raw(self) -> (raw: usize) {
        self.ptr.into_raw()
    }

    fn from_raw(raw: usize) -> (wrapper: Resource) {
        Resource { ptr: ComPtr::from_raw(raw) }
    }
}

/// What offers the native resource interface.
pub trait IResource: ComWrapper {
    /// The address of the native resource.
    fn raw_res(&self) -> (raw: usize)
        ensures
            raw == self.raw(),
            raw != 0,
    ;
}

impl IResource for Resource {
    fn raw_res(&self) -> (raw: usize) {
        self.get_raw()
    }
}

} // verus!
