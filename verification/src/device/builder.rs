//! The configuration of a device and the one native call that creates it.

use vstd::prelude::*;
use crate::device::Device;
use crate::device_context::DeviceContext;
use crate::enums::bits::{has_all, lemma_none_is_valid, within_mask};
use crate::enums::{CreateDeviceFlags, DriverType, FeatureLevel};
use crate::error::{status_succeeded, Error};
use crate::helpers::{drop_wrapper, ComWrapper, RefCounts};
use crate::interop::Adapter;

verus! {

/// The version tag of the native interface that every creation call names.
pub const SDK_VERSION: u32 = 7;

/// What a device builder has been told so far.
pub struct DeviceConfig {
    /// The address of the adapter, where one is attached.
    pub adapter: Option<usize>,
    /// The driver type, where one was set or implied.
    pub driver_type: Option<DriverType>,
    /// The creation flags.
    pub flags: u32,
    /// The feature levels asked for, in the order of preference.
    pub feature_levels: Seq<FeatureLevel>,
    /// The address of the software module, or 0.
    pub software_module: usize,
}

/// Whether `driver_type` may be set: an adapter goes with `Unknown` only,
/// and a software module with `Software` only.
pub open spec fn allows_driver_type(config: DeviceConfig, driver_type: DriverType) -> bool {
    &&& driver_type == DriverType::Unknown || config.adapter is None
    &&& driver_type == DriverType::Software || config.software_module == 0
}

/// Whether an adapter may be attached: no driver type but `Unknown` has
/// been set.
pub open spec fn allows_adapter(config: DeviceConfig) -> bool {
    config.driver_type is None || config.driver_type == Some(DriverType::Unknown)
}

/// Whether a software module may be attached: no driver type but
/// `Software` has been set.
pub open spec fn allows_software_module(config: DeviceConfig) -> bool {
    config.driver_type is None || config.driver_type == Some(DriverType::Software)
}

/// Whether the builder takes these creation flags: the single-threaded flag
/// is not supported, and every bit has to be a named one.
pub open spec fn allows_flags(flags: u32) -> bool {
    &&& !has_all(flags, CreateDeviceFlags::SINGLETHREADED)
    &&& within_mask(flags, CreateDeviceFlags::MASK)
}

/// With an adapter attached, no driver type but `Unknown` can be set.
pub proof fn lemma_adapter_bars_driver_types(config: DeviceConfig, driver_type: DriverType)
    requires
        config.adapter is Some,
        driver_type != DriverType::Unknown,
    ensures
        !allows_driver_type(config, driver_type),
{
}

/// With a driver type other than `Unknown` set, no adapter can be attached;
/// with one other than `Software` set, no software module.
pub proof fn lemma_driver_type_bars_attachments(config: DeviceConfig, driver_type: DriverType)
    requires
        config.driver_type == Some(driver_type),
    ensures
        driver_type != DriverType::Unknown ==> !allows_adapter(config),
        driver_type != DriverType::Software ==> !allows_software_module(config),
{
}

/// Flags with the single-threaded bit are never taken, whatever else they
/// hold and whatever has been configured.
pub proof fn lemma_single_threaded_is_barred(flags: u32)
    requires
        has_all(flags, CreateDeviceFlags::SINGLETHREADED),
    ensures
        !allows_flags(flags),
        !allows_flags(CreateDeviceFlags::SINGLETHREADED),
{
    assert(has_all(CreateDeviceFlags::SINGLETHREADED, CreateDeviceFlags::SINGLETHREADED))
        by (bit_vector);
}

/// The arguments of the native device creation call.
pub struct DeviceRequest<'a> {
    /// The adapter's address, or 0 for none.
    pub adapter: usize,
    /// The code of the driver type.
    pub driver_type: u32,
    /// The software module's address, or 0 for none.
    pub software_module: usize,
    /// The creation flags.
    pub flags: u32,
    /// The feature levels asked for; `None` stands for the null pointer, on
    /// which the native side goes by its own list.
    pub feature_levels: Option<&'a [FeatureLevel]>,
    /// How many feature levels are asked for.
    pub num_feature_levels: u32,
    /// The version tag of the native interface.
    pub sdk_version: u32,
}

/// The request in terms of plain values.
pub struct DeviceRequestView {
    pub adapter: usize,
    pub driver_type: u32,
    pub software_module: usize,
    pub flags: u32,
    pub feature_levels: Option<Seq<FeatureLevel>>,
    pub num_feature_levels: u32,
    pub sdk_version: u32,
}

impl<'a> View for DeviceRequest<'a> {
    type V = DeviceRequestView;

    open spec fn view(&self) -> DeviceRequestView {
        DeviceRequestView {
            adapter: self.adapter,
            driver_type: self.driver_type,
            software_module: self.software_module,
            flags: self.flags,
            feature_levels: match self.feature_levels {
                Some(levels) => Some(levels@),
                None => None,
            },
            num_feature_levels: self.num_feature_levels,
            sdk_version: self.sdk_version,
        }
    }
}

/// The request that a configuration leads to: no adapter is the null
/// address, no driver type is `Hardware`, and an empty list of feature
/// levels is the null pointer with a count of zero.
pub open spec fn request_of(config: DeviceConfig) -> DeviceRequestView {
    DeviceRequestView {
        adapter: match config.adapter {
            Some(raw) => raw,
            None => 0,
        },
        driver_type: match config.driver_type {
            Some(driver_type) => driver_type.code(),
            None => DriverType::Hardware.code(),
        },
        software_module: config.software_module,
        flags: config.flags,
        feature_levels: if config.feature_levels.len() == 0 {
            None
        } else {
            Some(config.feature_levels)
        },
        num_feature_levels: config.feature_levels.len() as u32,
        sdk_version: SDK_VERSION,
    }
}

/// What the native device creation call hands back.
#[derive(Copy, Clone, Debug, PartialEq, Eq, Structural)]
pub struct DeviceReply {
    /// The status code of the call.
    pub status: i32,
    /// The feature level that was negotiated.
    pub feature_level: u32,
    /// The address of the device.
    pub device: usize,
    /// The address of the immediate context.
    pub context: usize,
}

impl DeviceReply {
    /// A reply that reports success names a device and a context.
    pub open spec fn well_formed(self) -> bool {
        status_succeeded(self.status) ==> self.device != 0 && self.context != 0
    }
}

/// What `build` returns for a given native reply. On success the two
/// addresses are wrapped, each wrapper holding one increment, and the
/// feature level is the negotiated one, whatever was asked for. On failure
/// nothing is wrapped and the status comes back as a device-layer failure.
pub open spec fn device_outcome(
    reply: DeviceReply,
    r: Result<(FeatureLevel, Device, DeviceContext), Error>,
    before: vstd::multiset::Multiset<usize>,
    after: vstd::multiset::Multiset<usize>,
) -> bool {
    match r {
        Ok((level, device, context)) => {
            &&& status_succeeded(reply.status)
            &&& level == FeatureLevel(reply.feature_level)
            &&& device.raw() == reply.device
            &&& context.raw() == reply.context
            &&& after == before.insert(reply.device).insert(reply.context)
        },
        Err(e) => {
            &&& !status_succeeded(reply.status)
            &&& e == Error::D3D11(reply.status)
            &&& after == before
        },
    }
}

/// The accumulator of a device's configuration. Each configuration method
/// consumes it and returns the next one; `build` consumes it for good.
pub struct DeviceBuilder<'a> {
    adapter: Option<&'a Adapter>,
    driver_type: Option<DriverType>,
    flags: CreateDeviceFlags,
    feature_levels: Option<&'a [FeatureLevel]>,
    software_module: usize,
}

impl<'a> View for DeviceBuilder<'a> {
    type V = DeviceConfig;

    closed spec fn view(&self) -> DeviceConfig {
        DeviceConfig {
            adapter: match self.adapter {
                Some(adapter) => Some(adapter.raw()),
                None => None,
            },
            driver_type: self.driver_type,
            flags: self.flags.0,
            feature_levels: match self.feature_levels {
                Some(levels) => levels@,
                None => Seq::empty(),
            },
            software_module: self.software_module,
        }
    }
}

impl<'a> Default for DeviceBuilder<'a> {
    fn default() -> (builder: DeviceBuilder<'a>)
        ensures
            builder@ == DeviceBuilder::unconfigured(),
    {
        proof {
            lemma_none_is_valid(CreateDeviceFlags::MASK, CreateDeviceFlags::SINGLETHREADED);
        }
        DeviceBuilder {
            adapter: None,
            driver_type: None,
            flags: CreateDeviceFlags(CreateDeviceFlags::NONE),
            feature_levels: None,
            software_module: 0,
        }
    }
}

impl<'a> DeviceBuilder<'a> {
    /// The configuration in which nothing has been set.
    pub open spec fn unconfigured() -> DeviceConfig {
        DeviceConfig {
            adapter: None,
            driver_type: None,
            flags: CreateDeviceFlags::NONE,
            feature_levels: Seq::empty(),
            software_module: 0,
        }
    }

    /// Whether the invariant of a configuration holds: an adapter implies
    /// the driver type `Unknown`, and the flags are ones the builder takes.
    pub open spec fn consistent(config: DeviceConfig) -> bool {
        &&& config.adapter is Some ==> config.driver_type == Some(DriverType::Unknown)
        &&& config.software_module != 0 ==> config.driver_type == Some(DriverType::Software)
        &&& allows_flags(config.flags)
        &&& config.feature_levels.len() <= u32::MAX
    }

    #[verifier::type_invariant]
    spec fn well_formed(&self) -> bool {
        Self::consistent(self@)
    }

    /// Whether [`DeviceBuilder::with_driver_type`] takes `driver_type` now.
    pub fn accepts_driver_type(&self, driver_type: DriverType) -> (ok: bool)
        ensures
            ok == allows_driver_type(self@, driver_type),
    {
        (driver_type == DriverType::Unknown || self.adapter.is_none()) && (driver_type
            == DriverType::Software || self.software_module == 0)
    }

    /// Whether [`DeviceBuilder::with_adapter`] takes an adapter now.
    pub fn accepts_adapter(&self) -> (ok: bool)
        ensures
            ok == allows_adapter(self@),
    {
        match self.driver_type {
            None => true,
            Some(driver_type) => driver_type == DriverType::Unknown,
        }
    }

    /// Whether [`DeviceBuilder::with_software_module`] takes a module now.
    pub fn accepts_software_module(&self) -> (ok: bool)
        ensures
            ok == allows_software_module(self@),
    {
        match self.driver_type {
            None => true,
            Some(driver_type) => driver_type == DriverType::Software,
        }
    }

    /// Whether [`DeviceBuilder::with_flags`] takes `flags`.
    pub fn accepts_flags(flags: CreateDeviceFlags) -> (ok: bool)
        ensures
            ok == allows_flags(flags.0),
    {
        !flags.is_set(CreateDeviceFlags(CreateDeviceFlags::SINGLETHREADED)) && flags.validate()
    }

    /// Sets the driver type. It is not needed except to have one driver type
    /// passed on as it is.
    ///
    /// An attached adapter admits `Unknown` alone, an attached software
    /// module `Software` alone.
    pub fn with_driver_type(self, driver_type: DriverType) -> (next: DeviceBuilder<'a>)
        requires
            allows_driver_type(self@, driver_type),
        ensures
            next@ == (DeviceConfig { driver_type: Some(driver_type), ..self@ }),
            DeviceBuilder::consistent(next@),
    {
        proof {
            use_type_invariant(&self);
        }
        let mut next = self;
        next.driver_type = Some(driver_type);
        next
    }

    /// Has the device created on `adapter`, and sets the driver type to
    /// `Unknown`.
    ///
    /// No driver type other than `Unknown` may have been set.
    pub fn with_adapter(self, adapter: &'a Adapter) -> (next: DeviceBuilder<'a>)
        requires
            allows_adapter(self@),
        ensures
            next@ == (DeviceConfig {
                driver_type: Some(DriverType::Unknown),
                adapter: Some(adapter.raw()),
                ..self@
            }),
            DeviceBuilder::consistent(next@),
    {
        proof {
            use_type_invariant(&self);
        }
        let mut next = self;
        next.driver_type = Some(DriverType::Unknown);
        next.adapter = Some(adapter);
        next
    }

    /// Sets the creation flags; none is set at the start.
    ///
    /// The single-threaded flag is not supported, and every bit has to be a
    /// named one.
    pub fn with_flags(self, flags: CreateDeviceFlags) -> (next: DeviceBuilder<'a>)
        requires
            allows_flags(flags.0),
        ensures
            next@ == (DeviceConfig { flags: flags.0, ..self@ }),
            DeviceBuilder::consistent(next@),
    {
        proof {
            use_type_invariant(&self);
        }
        let mut next = self;
        next.flags = flags;
        next
    }

    /// Sets the feature levels to ask for, in the order of preference. An
    /// empty list leaves the choice to the native side.
    pub fn with_feature_levels(self, levels: &'a [FeatureLevel]) -> (next: DeviceBuilder<'a>)
        requires
            levels@.len() <= u32::MAX,
        ensures
            next@ == (DeviceConfig { feature_levels: levels@, ..self@ }),
            DeviceBuilder::consistent(next@),
    {
        proof {
            use_type_invariant(&self);
        }
        let mut next = self;
        next.feature_levels = Some(levels);
        next
    }

    /// Attaches a software module, and sets the driver type to `Software`.
    ///
    /// No driver type other than `Software` may have been set.
    pub fn with_software_module(self, software: usize) -> (next: DeviceBuilder<'a>)
        requires
            allows_software_module(self@),
        ensures
            next@ == (DeviceConfig {
                driver_type: Some(DriverType::Software),
                software_module: software,
                ..self@
            }),
            DeviceBuilder::consistent(next@),
    {
        proof {
            use_type_invariant(&self);
        }
        let mut next = self;
        next.driver_type = Some(DriverType::Software);
        next.software_module = software;
        next
    }

    /// The arguments of the native creation call for what has been
    /// configured.
    pub fn request(&self) -> (request: DeviceRequest<'a>)
        ensures
            request@ == request_of(self@),
    {
        proof {
            use_type_invariant(self);
        }
        let adapter: usize = match self.adapter {
            Some(adapter) => adapter.get_raw(),
            None => 0,
        };
        let driver_type: u32 = match self.driver_type {
            Some(driver_type) => driver_type.to_u32(),
            None => DriverType::Hardware.to_u32(),
        };
        let (feature_levels, num_feature_levels): (Option<&'a [FeatureLevel]>, u32) =
            match self.feature_levels {
            Some(levels) => {
                if levels.len() == 0 {
                    (None, 0)
                } else {
                    (Some(levels), levels.len() as u32)
                }
            },
            None => (None, 0),
        };
        DeviceRequest {
            adapter,
            driver_type,
            software_module: self.software_module,
            flags: self.flags.0,
            feature_levels,
            num_feature_levels,
            sdk_version: SDK_VERSION,
        }
    }

    /// Reads the reply of the native creation call: on success it wraps the
    /// device and the context and returns them with the negotiated feature
    /// level; on failure it wraps nothing and returns the status.
    pub fn finish(reply: DeviceReply, counts: &mut RefCounts) -> (r: Result<
        (FeatureLevel, Device, DeviceContext),
        Error,
    >)
        requires
            reply.well_formed(),
        ensures
            device_outcome(reply, r, old(counts)@, final(counts)@),
    {
        let device: Device = match Error::wrap_if(reply.status, reply.device, counts) {
            Ok(device) => device,
            Err(e) => {
                return Err(e);
            },
        };
        let context: DeviceContext = match Error::wrap_if(reply.status, reply.context, counts) {
            Ok(context) => context,
            Err(e) => {
                drop_wrapper(device, counts);
                return Err(e);
            },
        };
        Ok((FeatureLevel(reply.feature_level), device, context))
    }

    /// Creates the device. `create` is the native creation call: it is
    /// called once, with the request that the configuration leads to, and
    /// its reply decides the result.
    pub fn build<F: FnOnce(DeviceRequest<'a>) -> DeviceReply>(
        self,
        counts: &mut RefCounts,
        create: F,
    ) -> (r: Result<(FeatureLevel, Device, DeviceContext), Error>)
        requires
            forall|request: DeviceRequest<'a>|
                request@ == request_of(self@) ==> create.requires((request,)),
            forall|request: DeviceRequest<'a>, reply: DeviceReply|
                request@ == request_of(self@) && create.ensures((request,), reply)
                    ==> reply.well_formed(),
        ensures
            exists|request: DeviceRequest<'a>, reply: DeviceReply|
                {
                    &&& request@ == request_of(self@)
                    &&& #[trigger] create.ensures((request,), reply)
                    &&& device_outcome(reply, r, old(counts)@, final(counts)@)
                },
    {
        let request = self.request();
        let reply = create(request);
        Self::finish(reply, counts)
    }
}

} // verus!
