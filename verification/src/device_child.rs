use vstd::prelude::*;
use crate::helpers::ComWrapper;

verus! {

/// What was created by a device and stays bound to it.
pub trait IDeviceChild: ComWrapper {
    /// The address of the native device child.
    fn raw_device_child(&self) -> (raw: usize)
        ensures
            raw == self.raw(),
            raw != 0,
    ;
}

} // verus!
