use vstd::prelude::*;
use crate::enums::bits::{has_all, within_mask};
use crate::enums::bits::{describe_flags, flags_text};

verus! {

/// Specifies the types of CPU access allowed for a resource.
///
/// The bitwise operators work on the raw value and mask nothing: a composed
/// value has to pass [`CpuAccessFlags::validate`] before it is handed on.
#[derive(Copy, Clone, PartialEq, Eq, PartialOrd, Ord, Hash, Structural)]
pub struct CpuAccessFlags(pub u32);

impl CpuAccessFlags {
    /// No bit at all.
    pub const NONE: u32 = 0;

    /// The resource is mappable so that the CPU can change its contents.
    pub const WRITE: u32 = 0x10000;

    /// The resource is mappable so that the CPU can read its contents.
    pub const READ: u32 = 0x20000;

    /// Both `READ` and `WRITE`, as one constant.
    pub const READWRITE: u32 = 0x10000 | 0x20000;

    /// The union of every named bit of the family.
    pub const MASK: u32 = Self::WRITE | Self::READ | Self::READWRITE;

    /// Whether every bit of `flag` is present.
    pub fn is_set(self, flag: CpuAccessFlags) -> (r: bool)
        ensures
            r == has_all(self.0, flag.0),
    {
        self.0 & flag.0 == flag.0
    }

    /// Removes every bit of `flag` and leaves the others.
    pub fn clear(&mut self, flag: CpuAccessFlags)
        ensures
            final(self).0 == old(self).0 & !flag.0,
    {
        self.0 = self.0 & !flag.0;
    }

    /// Whether no bit outside the named ones is set.
    pub fn validate(self) -> (ok: bool)
        ensures
            ok == within_mask(self.0, Self::MASK),
    {
        self.0 & !Self::MASK == 0
    }

    /// The union of all named constants is a valid value, and so is each of
    /// them alone, and the empty value.
    pub proof fn lemma_named_bits_are_valid()
        ensures
            within_mask(Self::MASK, Self::MASK),
            within_mask(Self::NONE, Self::MASK),
            within_mask(Self::WRITE, Self::MASK),
            within_mask(Self::READ, Self::MASK),
            within_mask(Self::READWRITE, Self::MASK),
    {
        assert({
            &&& within_mask(Self::MASK, Self::MASK)
            &&& within_mask(Self::NONE, Self::MASK)
            &&& within_mask(Self::WRITE, Self::MASK)
            &&& within_mask(Self::READ, Self::MASK)
            &&& within_mask(Self::READWRITE, Self::MASK)
        }) by (bit_vector);
    }

    /// The named bits in the order in which [`CpuAccessFlags::describe`] lists them.
    pub open spec fn names() -> Seq<(u32, &'static str)> {
        seq![
            (Self::WRITE, "WRITE"),
            (Self::READ, "READ"),
            (Self::READWRITE, "READWRITE"),
        ]
    }

    /// The type's name, then in brackets the names of the constants that
    /// are fully present, joined by ` | `, or `NONE` where there is none.
    pub fn describe(self) -> (text: String)
        ensures
            text@ == flags_text("CpuAccessFlags"@, self.0, Self::names()),
    {
        let table = [
            (Self::WRITE, "WRITE"),
            (Self::READ, "READ"),
            (Self::READWRITE, "READWRITE"),
        ];
        assert(table@ =~= Self::names());
        describe_flags("CpuAccessFlags", self.0, table.as_slice())
    }
}

impl core::ops::Not for CpuAccessFlags {
    type Output = CpuAccessFlags;

    fn not(self) -> (out: CpuAccessFlags) {
        CpuAccessFlags(!self.0)
    }
}

impl vstd::std_specs::ops::NotSpecImpl for CpuAccessFlags {
    open spec fn obeys_not_spec() -> bool {
        true
    }

    open spec fn not_req(self) -> bool {
        true
    }

    open spec fn not_spec(self) -> CpuAccessFlags {
        CpuAccessFlags(!self.0)
    }
}

impl core::ops::BitAnd for CpuAccessFlags {
    type Output = CpuAccessFlags;

    fn bitand(self, rhs: CpuAccessFlags) -> (out: CpuAccessFlags) {
        CpuAccessFlags(self.0 & rhs.0)
    }
}

impl vstd::std_specs::ops::BitAndSpecImpl for CpuAccessFlags {
    open spec fn obeys_bitand_spec() -> bool {
        true
    }

    open spec fn bitand_req(self, rhs: CpuAccessFlags) -> bool {
        true
    }

    open spec fn bitand_spec(self, rhs: CpuAccessFlags) -> CpuAccessFlags {
        CpuAccessFlags(self.0 & rhs.0)
    }
}

impl core::ops::BitAndAssign for CpuAccessFlags {
    fn bitand_assign(&mut self, rhs: CpuAccessFlags)
        ensures
            final(self).0 == old(self).0 & rhs.0,
    {
        self.0 = self.0 & rhs.0;
    }
}

impl core::ops::BitOr for CpuAccessFlags {
    type Output = CpuAccessFlags;

    fn bitor(self, rhs: CpuAccessFlags) -> (out: CpuAccessFlags) {
        CpuAccessFlags(self.0 | rhs.0)
    }
}

impl vstd::std_specs::ops::BitOrSpecImpl for CpuAccessFlags {
    open spec fn obeys_bitor_spec() -> bool {
        true
    }

    open spec fn bitor_req(self, rhs: CpuAccessFlags) -> bool {
        true
    }

    open spec fn bitor_spec(self, rhs: CpuAccessFlags) -> CpuAccessFlags {
        CpuAccessFlags(self.0 | rhs.0)
    }
}

impl core::ops::BitOrAssign for CpuAccessFlags {
    fn bitor_assign(&mut self, rhs: CpuAccessFlags)
        ensures
            final(self).0 == old(self).0 | rhs.0,
    {
        self.0 = self.0 | rhs.0;
    }
}

impl core::ops::BitXor for CpuAccessFlags {
    type Output = CpuAccessFlags;

    fn bitxor(self, rhs: CpuAccessFlags) -> (out: CpuAccessFlags) {
        CpuAccessFlags(self.0 ^ rhs.0)
    }
}

impl vstd::std_specs::ops::BitXorSpecImpl for CpuAccessFlags {
    open spec fn obeys_bitxor_spec() -> bool {
        true
    }

    open spec fn bitxor_req(self, rhs: CpuAccessFlags) -> bool {
        true
    }

    open spec fn bitxor_spec(self, rhs: CpuAccessFlags) -> CpuAccessFlags {
        CpuAccessFlags(self.0 ^ rhs.0)
    }
}

impl core::ops::BitXorAssign for CpuAccessFlags {
    fn bitxor_assign(&mut self, rhs: CpuAccessFlags)
        ensures
            final(self).0 == old(self).0 ^ rhs.0,
    {
        self.0 = self.0 ^ rhs.0;
    }
}

} // verus!
