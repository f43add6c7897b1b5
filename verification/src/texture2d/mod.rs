//! The 2D texture handle.

use vstd::prelude::*;
use crate::device_child::IDeviceChild;
use crate::device::Device;
use crate::error::{status_succeeded, Error};
use crate::helpers::{cast, CastQuery, CastReply, ComPtr, ComWrapper, Interface, RefCounts};
use crate::interop::Surface;
use crate::resource::Resource;
use crate::texture2d::builder::{Texture2DBuilder, Texture2DConfig};

pub mod builder;

verus! {

/// A 2D texture of a device. It may be shared between threads.
#[derive(Debug, PartialEq, Eq, Structural)]
pub struct Texture2D {
    ptr: ComPtr,
}

impl ComWrapper for Texture2D {
    closed spec fn raw(&self) -> usize {
        self.ptr.addr()
    }

    fn get_raw(&self) -> (raw: usize) {
        self.ptr.as_raw()
    }

    fn into_raw(self) -> (raw: usize) {
        self.ptr.into_raw()
    }

    fn from_raw(raw: usize) -> (wrapper: Texture2D) {
        Texture2D { ptr: ComPtr::from_raw(raw) }
    }
}

impl Texture2D {
    /// Starts the configuration of a texture of `device`.
    pub fn create<'a, 'b>(device: &'a Device) -> (builder: Texture2DBuilder<'a, 'b>)
        ensures
            builder@ == (Texture2DConfig {
                device: device.raw(),
                desc: Texture2DBuilder::initial_desc(),
                initial_data: Seq::empty(),
                unchecked_format: false,
            }),
    {
        Texture2DBuilder::new(device)
    }

    /// The texture as a presentable surface of the companion subsystem, by
    /// a checked cast.
    pub fn as_dxgi<F: FnOnce(CastQuery) -> CastReply>(
        &self,
        counts: &mut RefCounts,
        probe: F,
    ) -> (r: Result<Surface, Error>)
        requires
            probe.requires((CastQuery { object: self.raw(), target: Interface::DxgiSurface },)),
            forall|reply: CastReply|
                probe.ensures(
                    (CastQuery { object: self.raw(), target: Interface::DxgiSurface },),
                    reply,
                ) ==> reply.well_formed(),
        ensures
            exists|reply: CastReply|
                {
                    &&& #[trigger] probe.ensures(
                        (CastQuery { object: self.raw(), target: Interface::DxgiSurface },),
                        reply,
                    )
                    &&& match r {
                        Ok(view) => status_succeeded(reply.status) && view.raw() == reply.object
                            && final(counts)@ == old(counts)@.insert(reply.object),
                        Err(e) => !status_succeeded(reply.status) && e == Error::D3D11(
                            reply.status,
                        ) && final(counts)@ == old(counts)@,
                    }
                },
    {
        cast(self, Interface::DxgiSurface, counts, probe)
    }

    /// The texture as a generic resource, by a checked cast.
    pub fn as_resource<F: FnOnce(CastQuery) -> CastReply>(
        &self,
        counts: &mut RefCounts,
        probe: F,
    ) -> (r: Result<Resource, Error>)
        requires
            probe.requires((CastQuery { object: self.raw(), target: Interface::Resource },)),
            forall|reply: CastReply|
                probe.ensures(
                    (CastQuery { object: self.raw(), target: Interface::Resource },),
                    reply,
                ) ==> reply.well_formed(),
        ensures
            exists|reply: CastReply|
                {
                    &&& #[trigger] probe.ensures(
                        (CastQuery { object: self.raw(), target: Interface::Resource },),
                        reply,
                    )
                    &&& match r {
                        Ok(view) => status_succeeded(reply.status) && view.raw() == reply.object
                            && final(counts)@ == old(counts)@.insert(reply.object),
                        Err(e) => !status_succeeded(reply.status) && e == Error::D3D11(
                            reply.status,
                        ) && final(counts)@ == old(counts)@,
                    }
                },
    {
        cast(self, Interface::Resource, counts, probe)
    }
}

impl IDeviceChild for Texture2D {
    fn raw_device_child(&self) -> (raw: usize) {
        self.get_raw()
    }
}

} // verus!
