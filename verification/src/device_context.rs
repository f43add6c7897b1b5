use vstd::prelude::*;
use crate::helpers::{ComPtr, ComWrapper};
use crate::resource::Resource;

verus! {

/// The immediate context of a device. It belongs to one thread at a time.
#[derive(Debug, PartialEq, Eq, Structural)]
pub struct DeviceContext {
    ptr: ComPtr,
}

impl ComWrapper for DeviceContext {
    closed spec fn raw(&self) -> usize {
        self.ptr.addr()
    }

    fn get_raw(&self) -> (raw: usize) {
        self.ptr.as_raw()
    }

    fn into_raw(self) -> (raw: usize) {
        self.ptr.into_raw()
    }

    fn from_raw(raw: usize) -> (wrapper: DeviceContext) {
        DeviceContext { ptr: ComPtr::from_raw(raw) }
    }
}

/// The native full copy of one resource into another, with its arguments in
/// the native order: the destination comes first.
#[derive(Copy, Clone, Debug, PartialEq, Eq, Structural)]
pub struct CopyResourceCall {
    pub context: usize,
    pub destination: usize,
    pub source: usize,
}

/// What offers the native device context interface.
pub trait IDeviceContext: ComWrapper {
    /// The address of the native context.
    fn raw_ctx(&self) -> (raw: usize)
        ensures
            raw == self.raw(),
            raw != 0,
    ;

    /// Copies the whole of `src` into `dst`. The parameters come source
    /// first; the native call that is returned takes them destination first.
    /// This is the one place where the order turns.
    fn copy_resource(&self, src: &Resource, dst: &Resource) -> (call: CopyResourceCall)
        ensures
            call.context == self.raw(),
            call.destination == dst.raw(),
            call.source == src.raw(),
    {
        CopyResourceCall {
            context: self.raw_ctx(),
            destination: dst.get_raw(),
            source: src.get_raw(),
        }
    }
}

impl IDeviceContext for DeviceContext {
    fn raw_ctx(&self) -> (raw: usize) {
        self.get_raw()
    }
}

} // verus!
