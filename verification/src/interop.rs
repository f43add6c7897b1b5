//! What this layer takes from and gives to the companion surface subsystem:
//! its adapter, device and surface handles, and the code of a pixel format.

use vstd::prelude::*;
use crate::helpers::{ComPtr, ComWrapper};

verus! {

/// A display adapter of the companion subsystem.
#[derive(Debug, PartialEq, Eq, Structural)]
pub struct Adapter {
    ptr: ComPtr,
}

impl ComWrapper for Adapter {
    closed spec fn raw(&self) -> usize {
        self.ptr.addr()
    }

    fn get_raw(&self) -> (raw: usize) {
        self.ptr.as_raw()
    }

    fn into_raw(self) -> (raw: usize) {
        self.ptr.into_raw()
    }

    fn from_raw(raw: usize) -> (wrapper: Adapter) {
        Adapter { ptr: ComPtr::from_raw(raw) }
    }
}

/// The view of a device through the companion subsystem.
#[derive(Debug, PartialEq, Eq, Structural)]
pub struct DxgiDevice {
    ptr: ComPtr,
}

impl ComWrapper for DxgiDevice {
    closed spec fn raw(&self) -> usize {
        self.ptr.addr()
    }

    fn get_raw(&self) -> (raw: usize) {
        self.ptr.as_raw()
    }

    fn into_raw(self) -> (raw: usize) {
        self.ptr.into_raw()
    }

    fn from_raw(raw: usize) -> (wrapper: DxgiDevice) {
        DxgiDevice { ptr: ComPtr::from_raw(raw) }
    }
}

/// A presentable surface of the companion subsystem.
#[derive(Debug, PartialEq, Eq, Structural)]
pub struct Surface {
    ptr: ComPtr,
}

impl ComWrapper for Surface {
    closed spec fn raw(&self) -> usize {
        self.ptr.addr()
    }

    fn get_raw(&self) -> (raw: usize) {
        self.ptr.as_raw()
    }

    fn into_raw(self) -> (raw: usize) {
        self.ptr.into_raw()
    }

    fn from_raw(raw: usize) -> (wrapper: Surface) {
        Surface { ptr: ComPtr::from_raw(raw) }
    }
}

/// The native code of a pixel format. The layer hands it on as it is.
#[derive(Copy, Clone, Debug, PartialEq, Eq, PartialOrd, Ord, Hash, Structural)]
pub struct Format(pub u32);

impl Format {
    /// The format is not known.
    pub const UNKNOWN: u32 = 0;

    /// Four 8-bit channels, red first, unsigned normalized.
    pub const R8G8B8A8_UNORM: u32 = 28;

    /// Four 8-bit channels, blue first, unsigned normalized.
    pub const B8G8R8A8_UNORM: u32 = 87;
}

} // verus!
