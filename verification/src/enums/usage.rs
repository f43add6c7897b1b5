use vstd::prelude::*;

verus! {

/// Identifies expected resource use during rendering: whether a resource
/// is accessible by the CPU, by the GPU, or by both.
///
/// A closed set: [`Usage::try_from`] is the only way from an integer to a
/// variant.
#[derive(Copy, Clone, Debug, PartialEq, Eq, PartialOrd, Ord, Hash, Structural)]
pub enum Usage {
    /// Read and write access by the GPU.
    Default,
    /// Read only by the GPU, no access at all by the CPU.
    Immutable,
    /// Read only by the GPU and write only by the CPU.
    Dynamic,
    /// Supports data transfer from the GPU to the CPU.
    Staging,
}

impl Usage {
    /// The native code of a variant.
    pub open spec fn code(self) -> u32 {
        match self {
            Usage::Default => 0,
            Usage::Immutable => 1,
            Usage::Dynamic => 2,
            Usage::Staging => 3,
        }
    }

    /// The native code of a variant.
    pub fn to_u32(self) -> (value: u32)
        ensures
            value == self.code(),
    {
        match self {
            Usage::Default => 0,
            Usage::Immutable => 1,
            Usage::Dynamic => 2,
            Usage::Staging => 3,
        }
    }

    /// The variant with the given native code, if there is one.
    pub fn try_from(value: u32) -> (variant: Option<Usage>)
        ensures
            match variant {
                Some(v) => v.code() == value,
                None => forall|v: Usage| v.code() != value,
            },
    {
        match value {
            0 => Some(Usage::Default),
            1 => Some(Usage::Immutable),
            2 => Some(Usage::Dynamic),
            3 => Some(Usage::Staging),
            _ => None,
        }
    }

    /// The variant with the given native code, if there is one.
    pub fn from_u32(value: u32) -> (variant: Option<Usage>)
        ensures
            match variant {
                Some(v) => v.code() == value,
                None => forall|v: Usage| v.code() != value,
            },
    {
        Usage::try_from(value)
    }

    /// Two variants with one code are one variant, and a variant comes back
    /// from its own code.
    pub proof fn lemma_code_is_injective(a: Usage, b: Usage)
        requires
            a.code() == b.code(),
        ensures
            a == b,
    {
    }
}

} // verus!
