use vstd::prelude::*;

verus! {

/// The kind of driver a device is created on.
///
/// A closed set: [`DriverType::try_from`] is the only way from an integer to a
/// variant.
#[derive(Copy, Clone, Debug, PartialEq, Eq, PartialOrd, Ord, Hash, Structural)]
pub enum DriverType {
    /// The driver type is left open: the one to give with an adapter.
    Unknown,
    /// A hardware driver.
    Hardware,
    /// The reference rasterizer.
    Reference,
    /// A reference driver without render capability.
    Null,
    /// A software driver: the one to give with a software module.
    Software,
    /// The WARP software rasterizer.
    Warp,
}

impl DriverType {
    /// The native code of a variant.
    pub open spec fn code(self) -> u32 {
        match self {
            DriverType::Unknown => 0,
            DriverType::Hardware => 1,
            DriverType::Reference => 2,
            DriverType::Null => 3,
            DriverType::Software => 4,
            DriverType::Warp => 5,
        }
    }

    /// The native code of a variant.
    pub fn to_u32(self) -> (value: u32)
        ensures
            value == self.code(),
    {
        match self {
            DriverType::Unknown => 0,
            DriverType::Hardware => 1,
            DriverType::Reference => 2,
            DriverType::Null => 3,
            DriverType::Software => 4,
            DriverType::Warp => 5,
        }
    }

    /// The variant with the given native code, if there is one.
    pub fn try_from(value: u32) -> (variant: Option<DriverType>)
        ensures
            match variant {
                Some(v) => v.code() == value,
                None => forall|v: DriverType| v.code() != value,
            },
    {
        match value {
            0 => Some(DriverType::Unknown),
            1 => Some(DriverType::Hardware),
            2 => Some(DriverType::Reference),
            3 => Some(DriverType::Null),
            4 => Some(DriverType::Software),
            5 => Some(DriverType::Warp),
            _ => None,
        }
    }

    /// The variant with the given native code, if there is one.
    pub fn from_u32(value: u32) -> (variant: Option<DriverType>)
        ensures
            match variant {
                Some(v) => v.code() == value,
                None => forall|v: DriverType| v.code() != value,
            },
    {
        DriverType::try_from(value)
    }

    /// Two variants with one code are one variant, and a variant comes back
    /// from its own code.
    pub proof fn lemma_code_is_injective(a: DriverType, b: DriverType)
        requires
            a.code() == b.code(),
        ensures
            a == b,
    {
    }
}

} // verus!
