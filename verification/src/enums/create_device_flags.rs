use vstd::prelude::*;
use crate::enums::bits::{has_all, within_mask};
use crate::enums::bits::{describe_flags, flags_text};

verus! {

/// Options of the device creation call.
///
/// The bitwise operators work on the raw value and mask nothing: a composed
/// value has to pass [`CreateDeviceFlags::validate`] before it is handed on.
#[derive(Copy, Clone, PartialEq, Eq, PartialOrd, Ord, Hash, Structural)]
pub struct CreateDeviceFlags(pub u32);

impl CreateDeviceFlags {
    /// No bit at all.
    pub const NONE: u32 = 0;

    /// The application calls the device from a single thread only. The
    /// device builder does not take this flag.
    pub const SINGLETHREADED: u32 = 0x1;

    /// Creates a device that supports the debug layer.
    pub const DEBUG: u32 = 0x2;

    /// Not supported in Direct3D 11.
    pub const SWITCH_TO_REF: u32 = 0x4;

    /// Prevents multiple threads from being created.
    pub const PREVENT_INTERNAL_THREADING_OPTIMIZATIONS: u32 = 0x8;

    /// Creates a device that supports BGRA formats.
    pub const BGRA_SUPPORT: u32 = 0x20;

    /// The device and driver keep information for shader debugging.
    pub const DEBUGGABLE: u32 = 0x40;

    /// The runtime ignores registry settings that turn on the debug layer.
    pub const PREVENT_ALTERING_LAYER_SETTINGS_FROM_REGISTRY: u32 = 0x80;

    /// GPU workloads may take more than two seconds without a reset.
    pub const DISABLE_GPU_TIMEOUT: u32 = 0x100;

    /// Creation fails if the display driver lacks video support.
    pub const VIDEO_SUPPORT: u32 = 0x800;

    /// The union of every named bit of the family.
    pub const MASK: u32 = Self::SINGLETHREADED | Self::DEBUG | Self::SWITCH_TO_REF
        | Self::PREVENT_INTERNAL_THREADING_OPTIMIZATIONS | Self::BGRA_SUPPORT
        | Self::DEBUGGABLE | Self::PREVENT_ALTERING_LAYER_SETTINGS_FROM_REGISTRY
        | Self::DISABLE_GPU_TIMEOUT | Self::VIDEO_SUPPORT;

    /// Whether every bit of `flag` is present.
    pub fn is_set(self, flag: CreateDeviceFlags) -> (r: bool)
        ensures
            r == has_all(self.0, flag.0),
    {
        self.0 & flag.0 == flag.0
    }

    /// Removes every bit of `flag` and leaves the others.
    pub fn clear(&mut self, flag: CreateDeviceFlags)
        ensures
            final(self).0 == old(self).0 & !flag.0,
    {
        self.0 = self.0 & !flag.0;
    }

    /// Whether no bit outside the named ones is set.
    pub fn validate(self) -> (ok: bool)
        ensures
            ok == within_mask(self.0, Self::MASK),
    {
        self.0 & !Self::MASK == 0
    }

    /// The union of all named constants is a valid value, and so is each of
    /// them alone, and the empty value.
    pub proof fn lemma_named_bits_are_valid()
        ensures
            within_mask(Self::MASK, Self::MASK),
            within_mask(Self::NONE, Self::MASK),
            within_mask(Self::SINGLETHREADED, Self::MASK),
            within_mask(Self::DEBUG, Self::MASK),
            within_mask(Self::SWITCH_TO_REF, Self::MASK),
            within_mask(Self::PREVENT_INTERNAL_THREADING_OPTIMIZATIONS, Self::MASK),
            within_mask(Self::BGRA_SUPPORT, Self::MASK),
            within_mask(Self::DEBUGGABLE, Self::MASK),
            within_mask(Self::PREVENT_ALTERING_LAYER_SETTINGS_FROM_REGISTRY, Self::MASK),
            within_mask(Self::DISABLE_GPU_TIMEOUT, Self::MASK),
            within_mask(Self::VIDEO_SUPPORT, Self::MASK),
    {
        assert({
            &&& within_mask(Self::MASK, Self::MASK)
            &&& within_mask(Self::NONE, Self::MASK)
            &&& within_mask(Self::SINGLETHREADED, Self::MASK)
            &&& within_mask(Self::DEBUG, Self::MASK)
            &&& within_mask(Self::SWITCH_TO_REF, Self::MASK)
            &&& within_mask(Self::PREVENT_INTERNAL_THREADING_OPTIMIZATIONS, Self::MASK)
            &&& within_mask(Self::BGRA_SUPPORT, Self::MASK)
            &&& within_mask(Self::DEBUGGABLE, Self::MASK)
            &&& within_mask(Self::PREVENT_ALTERING_LAYER_SETTINGS_FROM_REGISTRY, Self::MASK)
            &&& within_mask(Self::DISABLE_GPU_TIMEOUT, Self::MASK)
            &&& within_mask(Self::VIDEO_SUPPORT, Self::MASK)
        }) by (bit_vector);
    }

    /// The named bits in the order in which [`CreateDeviceFlags::describe`] lists them.
    pub open spec fn names() -> Seq<(u32, &'static str)> {
        seq![
            (Self::SINGLETHREADED, "SINGLETHREADED"),
            (Self::DEBUG, "DEBUG"),
            (Self::SWITCH_TO_REF, "SWITCH_TO_REF"),
            (
                Self::PREVENT_INTERNAL_THREADING_OPTIMIZATIONS,
                "PREVENT_INTERNAL_THREADING_OPTIMIZATIONS",
            ),
            (Self::BGRA_SUPPORT, "BGRA_SUPPORT"),
            (Self::DEBUGGABLE, "DEBUGGABLE"),
            (
                Self::PREVENT_ALTERING_LAYER_SETTINGS_FROM_REGISTRY,
                "PREVENT_ALTERING_LAYER_SETTINGS_FROM_REGISTRY",
            ),
            (Self::DISABLE_GPU_TIMEOUT, "DISABLE_GPU_TIMEOUT"),
            (Self::VIDEO_SUPPORT, "VIDEO_SUPPORT"),
        ]
    }

    /// The type's name, then in brackets the names of the constants that
    /// are fully present, joined by ` | `, or `NONE` where there is none.
    pub fn describe(self) -> (text: String)
        ensures
            text@ == flags_text("CreateDeviceFlags"@, self.0, Self::names()),
    {
        let table = [
            (Self::SINGLETHREADED, "SINGLETHREADED"),
            (Self::DEBUG, "DEBUG"),
            (Self::SWITCH_TO_REF, "SWITCH_TO_REF"),
            (
                Self::PREVENT_INTERNAL_THREADING_OPTIMIZATIONS,
                "PREVENT_INTERNAL_THREADING_OPTIMIZATIONS",
            ),
            (Self::BGRA_SUPPORT, "BGRA_SUPPORT"),
            (Self::DEBUGGABLE, "DEBUGGABLE"),
            (
                Self::PREVENT_ALTERING_LAYER_SETTINGS_FROM_REGISTRY,
                "PREVENT_ALTERING_LAYER_SETTINGS_FROM_REGISTRY",
            ),
            (Self::DISABLE_GPU_TIMEOUT, "DISABLE_GPU_TIMEOUT"),
            (Self::VIDEO_SUPPORT, "VIDEO_SUPPORT"),
        ];
        assert(table@ =~= Self::names());
        describe_flags("CreateDeviceFlags", self.0, table.as_slice())
    }
}

impl core::ops::Not for CreateDeviceFlags {
    type Output = CreateDeviceFlags;

    fn not(self) -> (out: CreateDeviceFlags) {
        CreateDeviceFlags(!self.0)
    }
}

impl vstd::std_specs::ops::NotSpecImpl for CreateDeviceFlags {
    open spec fn obeys_not_spec() -> bool {
        true
    }

    open spec fn not_req(self) -> bool {
        true
    }

    open spec fn not_spec(self) -> CreateDeviceFlags {
        CreateDeviceFlags(!self.0)
    }
}

impl core::ops::BitAnd for CreateDeviceFlags {
    type Output = CreateDeviceFlags;

    fn bitand(self, rhs: CreateDeviceFlags) -> (out: CreateDeviceFlags) {
        CreateDeviceFlags(self.0 & rhs.0)
    }
}

impl vstd::std_specs::ops::BitAndSpecImpl for CreateDeviceFlags {
    open spec fn obeys_bitand_spec() -> bool {
        true
    }

    open spec fn bitand_req(self, rhs: CreateDeviceFlags) -> bool {
        true
    }

    open spec fn bitand_spec(self, rhs: CreateDeviceFlags) -> CreateDeviceFlags {
        CreateDeviceFlags(self.0 & rhs.0)
    }
}

impl core::ops::BitAndAssign for CreateDeviceFlags {
    fn bitand_assign(&mut self, rhs: CreateDeviceFlags)
        ensures
            final(self).0 == old(self).0 & rhs.0,
    {
        self.0 = self.0 & rhs.0;
    }
}

impl core::ops::BitOr for CreateDeviceFlags {
    type Output = CreateDeviceFlags;

    fn bitor(self, rhs: CreateDeviceFlags) -> (out: CreateDeviceFlags) {
        CreateDeviceFlags(self.0 | rhs.0)
    }
}

impl vstd::std_specs::ops::BitOrSpecImpl for CreateDeviceFlags {
    open spec fn obeys_bitor_spec() -> bool {
        true
    }

    open spec fn bitor_req(self, rhs: CreateDeviceFlags) -> bool {
        true
    }

    open spec fn bitor_spec(self, rhs: CreateDeviceFlags) -> CreateDeviceFlags {
        CreateDeviceFlags(self.0 | rhs.0)
    }
}

impl core::ops::BitOrAssign for CreateDeviceFlags {
    fn bitor_assign(&mut self, rhs: CreateDeviceFlags)
        ensures
            final(self).0 == old(self).0 | rhs.0,
    {
        self.0 = self.0 | rhs.0;
    }
}

impl core::ops::BitXor for CreateDeviceFlags {
    type Output = CreateDeviceFlags;

    fn bitxor(self, rhs: CreateDeviceFlags) -> (out: CreateDeviceFlags) {
        CreateDeviceFlags(self.0 ^ rhs.0)
    }
}

impl vstd::std_specs::ops::BitXorSpecImpl for CreateDeviceFlags {
    open spec fn obeys_bitxor_spec() -> bool {
        true
    }

    open spec fn bitxor_req(self, rhs: CreateDeviceFlags) -> bool {
        true
    }

    open spec fn bitxor_spec(self, rhs: CreateDeviceFlags) -> CreateDeviceFlags {
        CreateDeviceFlags(self.0 ^ rhs.0)
    }
}

impl core::ops::BitXorAssign for CreateDeviceFlags {
    fn bitxor_assign(&mut self, rhs: CreateDeviceFlags)
        ensures
            final(self).0 == old(self).0 ^ rhs.0,
    {
        self.0 = self.0 ^ rhs.0;
    }
}

} // verus!
