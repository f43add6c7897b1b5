use vstd::prelude::*;

verus! {

/// Identifies how the CPU accesses a resource that it maps.
///
/// A closed set: [`MapMode::try_from`] is the only way from an integer to a
/// variant.
#[derive(Copy, Clone, Debug, PartialEq, Eq, PartialOrd, Ord, Hash, Structural)]
pub enum MapMode {
    /// Mapped for reading.
    Read,
    /// Mapped for writing.
    Write,
    /// Mapped for reading and writing.
    ReadWrite,
    /// Mapped for writing; the previous contents become undefined.
    Discard,
    /// Mapped for writing; the existing contents cannot be overwritten.
    WriteNoOverwrite,
}

impl MapMode {
    /// The native code of a variant.
    pub open spec fn code(self) -> u32 {
        match self {
            MapMode::Read => 1,
            MapMode::Write => 2,
            MapMode::ReadWrite => 3,
            MapMode::Discard => 4,
            MapMode::WriteNoOverwrite => 5,
        }
    }

    /// The native code of a variant.
    pub fn to_u32(self) -> (value: u32)
        ensures
            value == self.code(),
    {
        match self {
            MapMode::Read => 1,
            MapMode::Write => 2,
            MapMode::ReadWrite => 3,
            MapMode::Discard => 4,
            MapMode::WriteNoOverwrite => 5,
        }
    }

    /// The variant with the given native code, if there is one.
    pub fn try_from(value: u32) -> (variant: Option<MapMode>)
        ensures
            match variant {
                Some(v) => v.code() == value,
                None => forall|v: MapMode| v.code() != value,
            },
    {
        match value {
            1 => Some(MapMode::Read),
            2 => Some(MapMode::Write),
            3 => Some(MapMode::ReadWrite),
            4 => Some(MapMode::Discard),
            5 => Some(MapMode::WriteNoOverwrite),
            _ => None,
        }
    }

    /// The variant with the given native code, if there is one.
    pub fn from_u32(value: u32) -> (variant: Option<MapMode>)
        ensures
            match variant {
                Some(v) => v.code() == value,
                None => forall|v: MapMode| v.code() != value,
            },
    {
        MapMode::try_from(value)
    }

    /// Two variants with one code are one variant, and a variant comes back
    /// from its own code.
    pub proof fn lemma_code_is_injective(a: MapMode, b: MapMode)
        requires
            a.code() == b.code(),
        ensures
            a == b,
    {
    }
}

} // verus!
