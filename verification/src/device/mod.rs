//! The device handle.

use vstd::prelude::*;
use crate::device::builder::DeviceBuilder;
use crate::error::{status_succeeded, Error};
use crate::helpers::{cast, CastQuery, CastReply, ComPtr, ComWrapper, Interface, RefCounts};
use crate::interop::DxgiDevice;

pub mod builder;

verus! {

/// A device: the object that creates resources. It may be shared between
/// threads.
#[derive(Debug, PartialEq, Eq, Structural)]
pub struct Device {
    ptr: ComPtr,
}

impl ComWrapper for Device {
    closed spec fn raw(&self) -> usize {
        self.ptr.addr()
    }

    fn get_raw(&self) -> (raw: usize) {
        self.ptr.as_raw()
    }

    fn into_raw(self) -> (raw: usize) {
        self.ptr.into_raw()
    }

    fn from_raw(raw: usize) -> (wrapper: Device) {
        Device { ptr: ComPtr::from_raw(raw) }
    }
}

impl Device {
    /// Starts the configuration of a new device, with nothing set.
    pub fn create<'a>() -> (builder: DeviceBuilder<'a>)
        ensures
            builder@ == DeviceBuilder::unconfigured(),
    {
        DeviceBuilder::default()
    }

    /// The view of this device through the companion subsystem, by a checked
    /// cast.
    pub fn as_dxgi<F: FnOnce(CastQuery) -> CastReply>(
        &self,
        counts: &mut RefCounts,
        probe: F,
    ) -> (r: Result<DxgiDevice, Error>)
        requires
            probe.requires((CastQuery { object: self.raw(), target: Interface::DxgiDevice },)),
            forall|reply: CastReply|
                probe.ensures(
                    (CastQuery { object: self.raw(), target: Interface::DxgiDevice },),
                    reply,
                ) ==> reply.well_formed(),
        ensures
            exists|reply: CastReply|
                {
                    &&& #[trigger] probe.ensures(
                        (CastQuery { object: self.raw(), target: Interface::DxgiDevice },),
                        reply,
                    )
                    &&& match r {
                        Ok(view) => status_succeeded(reply.status) && view.raw() == reply.object
                            && final(counts)@ == old(counts)@.insert(reply.object),
                        Err(e) => !status_succeeded(reply.status) && e == Error::D3D11(
                            reply.status,
                        ) && final(counts)@ == old(counts)@,
                    }
                },
    {
        cast(self, Interface::DxgiDevice, counts, probe)
    }
}

} // verus!
