use vstd::prelude::*;
use crate::enums::bits::{has_all, within_mask};
use crate::enums::bits::{describe_flags, flags_text};

verus! {

/// Identifies options for resources.
///
/// The bitwise operators work on the raw value and mask nothing: a composed
/// value has to pass [`ResourceMiscFlags::validate`] before it is handed on.
#[derive(Copy, Clone, PartialEq, Eq, PartialOrd, Ord, Hash, Structural)]
pub struct ResourceMiscFlags(pub u32);

impl ResourceMiscFlags {
    /// No bit at all.
    pub const NONE: u32 = 0;

    pub const GENERATE_MIPS: u32 = 0x1;

    pub const SHARED: u32 = 0x2;

    pub const TEXTURECUBE: u32 = 0x4;

    pub const DRAWINDIRECT_ARGS: u32 = 0x10;

    pub const BUFFER_ALLOW_RAW_VIEWS: u32 = 0x20;

    pub const BUFFER_STRUCTURED: u32 = 0x40;

    pub const RESOURCE_CLAMP: u32 = 0x80;

    pub const SHARED_KEYEDMUTEX: u32 = 0x100;

    pub const GDI_COMPATIBLE: u32 = 0x200;

    pub const SHARED_NTHANDLE: u32 = 0x800;

    pub const RESTRICTED_CONTENT: u32 = 0x1000;

    pub const RESTRICT_SHARED_RESOURCE: u32 = 0x2000;

    pub const RESTRICT_SHARED_RESOURCE_DRIVER: u32 = 0x4000;

    pub const GUARDED: u32 = 0x8000;

    pub const TILE_POOL: u32 = 0x20000;

    pub const TILED: u32 = 0x40000;

    pub const HW_PROTECTED: u32 = 0x80000;

    /// The union of every named bit of the family.
    pub const MASK: u32 = Self::GENERATE_MIPS | Self::SHARED | Self::TEXTURECUBE
        | Self::DRAWINDIRECT_ARGS | Self::BUFFER_ALLOW_RAW_VIEWS | Self::BUFFER_STRUCTURED
        | Self::RESOURCE_CLAMP | Self::SHARED_KEYEDMUTEX | Self::GDI_COMPATIBLE
        | Self::SHARED_NTHANDLE | Self::RESTRICTED_CONTENT | Self::RESTRICT_SHARED_RESOURCE
        | Self::RESTRICT_SHARED_RESOURCE_DRIVER | Self::GUARDED | Self::TILE_POOL | Self::TILED
        | Self::HW_PROTECTED;

    /// Whether every bit of `flag` is present.
    pub fn is_set(self, flag: ResourceMiscFlags) -> (r: bool)
        ensures
            r == has_all(self.0, flag.0),
    {
        self.0 & flag.0 == flag.0
    }

    /// Removes every bit of `flag` and leaves the others.
    pub fn clear(&mut self, flag: ResourceMiscFlags)
        ensures
            final(self).0 == old(self).0 & !flag.0,
    {
        self.0 = self.0 & !flag.0;
    }

    /// Whether no bit outside the named ones is set.
    pub fn validate(self) -> (ok: bool)
        ensures
            ok == within_mask(self.0, Self::MASK),
    {
        self.0 & !Self::MASK == 0
    }

    /// The union of all named constants is a valid value, and so is each of
    /// them alone, and the empty value.
    pub proof fn lemma_named_bits_are_valid()
        ensures
            within_mask(Self::MASK, Self::MASK),
            within_mask(Self::NONE, Self::MASK),
            within_mask(Self::GENERATE_MIPS, Self::MASK),
            within_mask(Self::SHARED, Self::MASK),
            within_mask(Self::TEXTURECUBE, Self::MASK),
            within_mask(Self::DRAWINDIRECT_ARGS, Self::MASK),
            within_mask(Self::BUFFER_ALLOW_RAW_VIEWS, Self::MASK),
            within_mask(Self::BUFFER_STRUCTURED, Self::MASK),
            within_mask(Self::RESOURCE_CLAMP, Self::MASK),
            within_mask(Self::SHARED_KEYEDMUTEX, Self::MASK),
            within_mask(Self::GDI_COMPATIBLE, Self::MASK),
            within_mask(Self::SHARED_NTHANDLE, Self::MASK),
            within_mask(Self::RESTRICTED_CONTENT, Self::MASK),
            within_mask(Self::RESTRICT_SHARED_RESOURCE, Self::MASK),
            within_mask(Self::RESTRICT_SHARED_RESOURCE_DRIVER, Self::MASK),
            within_mask(Self::GUARDED, Self::MASK),
            within_mask(Self::TILE_POOL, Self::MASK),
            within_mask(Self::TILED, Self::MASK),
            within_mask(Self::HW_PROTECTED, Self::MASK),
    {
        assert({
            &&& within_mask(Self::MASK, Self::MASK)
            &&& within_mask(Self::NONE, Self::MASK)
            &&& within_mask(Self::GENERATE_MIPS, Self::MASK)
            &&& within_mask(Self::SHARED, Self::MASK)
            &&& within_mask(Self::TEXTURECUBE, Self::MASK)
            &&& within_mask(Self::DRAWINDIRECT_ARGS, Self::MASK)
            &&& within_mask(Self::BUFFER_ALLOW_RAW_VIEWS, Self::MASK)
            &&& within_mask(Self::BUFFER_STRUCTURED, Self::MASK)
            &&& within_mask(Self::RESOURCE_CLAMP, Self::MASK)
            &&& within_mask(Self::SHARED_KEYEDMUTEX, Self::MASK)
            &&& within_mask(Self::GDI_COMPATIBLE, Self::MASK)
            &&& within_mask(Self::SHARED_NTHANDLE, Self::MASK)
            &&& within_mask(Self::RESTRICTED_CONTENT, Self::MASK)
            &&& within_mask(Self::RESTRICT_SHARED_RESOURCE, Self::MASK)
            &&& within_mask(Self::RESTRICT_SHARED_RESOURCE_DRIVER, Self::MASK)
            &&& within_mask(Self::GUARDED, Self::MASK)
            &&& within_mask(Self::TILE_POOL, Self::MASK)
            &&& within_mask(Self::TILED, Self::MASK)
            &&& within_mask(Self::HW_PROTECTED, Self::MASK)
        }) by (bit_vector);
    }

    /// The named bits in the order in which [`ResourceMiscFlags::describe`] lists them.
    pub open spec fn names() -> Seq<(u32, &'static str)> {
        seq![
            (Self::GENERATE_MIPS, "GENERATE_MIPS"),
            (Self::SHARED, "SHARED"),
            (Self::TEXTURECUBE, "TEXTURECUBE"),
            (Self::DRAWINDIRECT_ARGS, "DRAWINDIRECT_ARGS"),
            (Self::BUFFER_ALLOW_RAW_VIEWS, "BUFFER_ALLOW_RAW_VIEWS"),
            (Self::BUFFER_STRUCTURED, "BUFFER_STRUCTURED"),
            (Self::RESOURCE_CLAMP, "RESOURCE_CLAMP"),
            (Self::SHARED_KEYEDMUTEX, "SHARED_KEYEDMUTEX"),
            (Self::GDI_COMPATIBLE, "GDI_COMPATIBLE"),
            (Self::SHARED_NTHANDLE, "SHARED_NTHANDLE"),
            (Self::RESTRICTED_CONTENT, "RESTRICTED_CONTENT"),
            (Self::RESTRICT_SHARED_RESOURCE, "RESTRICT_SHARED_RESOURCE"),
            (Self::RESTRICT_SHARED_RESOURCE_DRIVER, "RESTRICT_SHARED_RESOURCE_DRIVER"),
            (Self::GUARDED, "GUARDED"),
            (Self::TILE_POOL, "TILE_POOL"),
            (Self::TILED, "TILED"),
            (Self::HW_PROTECTED, "HW_PROTECTED"),
        ]
    }

    /// The type's name, then in brackets the names of the constants that
    /// are fully present, joined by ` | `, or `NONE` where there is none.
    pub fn describe(self) -> (text: String)
        ensures
            text@ == flags_text("ResourceMiscFlags"@, self.0, Self::names()),
    {
        let table = [
            (Self::GENERATE_MIPS, "GENERATE_MIPS"),
            (Self::SHARED, "SHARED"),
            (Self::TEXTURECUBE, "TEXTURECUBE"),
            (Self::DRAWINDIRECT_ARGS, "DRAWINDIRECT_ARGS"),
            (Self::BUFFER_ALLOW_RAW_VIEWS, "BUFFER_ALLOW_RAW_VIEWS"),
            (Self::BUFFER_STRUCTURED, "BUFFER_STRUCTURED"),
            (Self::RESOURCE_CLAMP, "RESOURCE_CLAMP"),
            (Self::SHARED_KEYEDMUTEX, "SHARED_KEYEDMUTEX"),
            (Self::GDI_COMPATIBLE, "GDI_COMPATIBLE"),
            (Self::SHARED_NTHANDLE, "SHARED_NTHANDLE"),
            (Self::RESTRICTED_CONTENT, "RESTRICTED_CONTENT"),
            (Self::RESTRICT_SHARED_RESOURCE, "RESTRICT_SHARED_RESOURCE"),
            (Self::RESTRICT_SHARED_RESOURCE_DRIVER, "RESTRICT_SHARED_RESOURCE_DRIVER"),
            (Self::GUARDED, "GUARDED"),
            (Self::TILE_POOL, "TILE_POOL"),
            (Self::TILED, "TILED"),
            (Self::HW_PROTECTED, "HW_PROTECTED"),
        ];
        assert(table@ =~= Self::names());
        describe_flags("ResourceMiscFlags", self.0, table.as_slice())
    }
}

impl core::ops::Not for ResourceMiscFlags {
    type Output = ResourceMiscFlags;

    fn not(self) -> (out: ResourceMiscFlags) {
        ResourceMiscFlags(!self.0)
    }
}

impl vstd::std_specs::ops::NotSpecImpl for ResourceMiscFlags {
    open spec fn obeys_not_spec() -> bool {
        true
    }

    open spec fn not_req(self) -> bool {
        true
    }

    open spec fn not_spec(self) -> ResourceMiscFlags {
        ResourceMiscFlags(!self.0)
    }
}

impl core::ops::BitAnd for ResourceMiscFlags {
    type Output = ResourceMiscFlags;

    fn bitand(self, rhs: ResourceMiscFlags) -> (out: ResourceMiscFlags) {
        ResourceMiscFlags(self.0 & rhs.0)
    }
}

impl vstd::std_specs::ops::BitAndSpecImpl for ResourceMiscFlags {
    open spec fn obeys_bitand_spec() -> bool {
        true
    }

    open spec fn bitand_req(self, rhs: ResourceMiscFlags) -> bool {
        true
    }

    open spec fn bitand_spec(self, rhs: ResourceMiscFlags) -> ResourceMiscFlags {
        ResourceMiscFlags(self.0 & rhs.0)
    }
}

impl core::ops::BitAndAssign for ResourceMiscFlags {
    fn bitand_assign(&mut self, rhs: ResourceMiscFlags)
        ensures
            final(self).0 == old(self).0 & rhs.0,
    {
        self.0 = self.0 & rhs.0;
    }
}

impl core::ops::BitOr for ResourceMiscFlags {
    type Output = ResourceMiscFlags;

    fn bitor(self, rhs: ResourceMiscFlags) -> (out: ResourceMiscFlags) {
        ResourceMiscFlags(self.0 | rhs.0)
    }
}

impl vstd::std_specs::ops::BitOrSpecImpl for ResourceMiscFlags {
    open spec fn obeys_bitor_spec() -> bool {
        true
    }

    open spec fn bitor_req(self, rhs: ResourceMiscFlags) -> bool {
        true
    }

    open spec fn bitor_spec(self, rhs: ResourceMiscFlags) -> ResourceMiscFlags {
        ResourceMiscFlags(self.0 | rhs.0)
    }
}

impl core::ops::BitOrAssign for ResourceMiscFlags {
    fn bitor_assign(&mut self, rhs: ResourceMiscFlags)
        ensures
            final(self).0 == old(self).0 | rhs.0,
    {
        self.0 = self.0 | rhs.0;
    }
}

impl core::ops::BitXor for ResourceMiscFlags {
    type Output = ResourceMiscFlags;

    fn bitxor(self, rhs: ResourceMiscFlags) -> (out: ResourceMiscFlags) {
        ResourceMiscFlags(self.0 ^ rhs.0)
    }
}

impl vstd::std_specs::ops::BitXorSpecImpl for ResourceMiscFlags {
    open spec fn obeys_bitxor_spec() -> bool {
        true
    }

    open spec fn bitxor_req(self, rhs: ResourceMiscFlags) -> bool {
        true
    }

    open spec fn bitxor_spec(self, rhs: ResourceMiscFlags) -> ResourceMiscFlags {
        ResourceMiscFlags(self.0 ^ rhs.0)
    }
}

impl core::ops::BitXorAssign for ResourceMiscFlags {
    fn bitxor_assign(&mut self, rhs: ResourceMiscFlags)
        ensures
            final(self).0 == old(self).0 ^ rhs.0,
    {
        self.0 = self.0 ^ rhs.0;
    }
}

} // verus!
