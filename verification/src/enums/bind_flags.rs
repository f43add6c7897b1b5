use vstd::prelude::*;
use crate::enums::bits::{has_all, within_mask};
use crate::enums::bits::{describe_flags, flags_text};

verus! {

/// Identifies how a resource is bound to the pipeline.
///
/// The bitwise operators work on the raw value and mask nothing: a composed
/// value has to pass [`BindFlags::validate`] before it is handed on.
#[derive(Copy, Clone, PartialEq, Eq, PartialOrd, Ord, Hash, Structural)]
pub struct BindFlags(pub u32);

impl BindFlags {
    /// No bit at all.
    pub const NONE: u32 = 0;

    /// Bind a buffer as a vertex buffer to the input-assembler stage.
    pub const VERTEX_BUFFER: u32 = 0x1;

    /// Bind a buffer as an index buffer to the input-assembler stage.
    pub const INDEX_BUFFER: u32 = 0x2;

    /// Bind a buffer as a constant buffer to a shader stage; not to be
    /// combined with any other bind flag.
    pub const CONSTANT_BUFFER: u32 = 0x4;

    /// Bind a buffer or texture to a shader stage.
    pub const SHADER_RESOURCE: u32 = 0x8;

    /// Bind an output buffer for the stream-output stage.
    pub const STREAM_OUTPUT: u32 = 0x10;

    /// Bind a texture as a render target for the output-merger stage.
    pub const RENDER_TARGET: u32 = 0x20;

    /// Bind a texture as a depth-stencil target for the output-merger stage.
    pub const DEPTH_STENCIL: u32 = 0x40;

    /// Bind an unordered access resource.
    pub const UNORDERED_ACCESS: u32 = 0x80;

    /// The 2D texture receives output from the decoder API.
    pub const DECODER: u32 = 0x200;

    /// The 2D texture receives input from the video encoder API.
    pub const VIDEO_ENCODER: u32 = 0x400;

    /// The union of every named bit of the family.
    pub const MASK: u32 = Self::VERTEX_BUFFER | Self::INDEX_BUFFER | Self::CONSTANT_BUFFER
        | Self::SHADER_RESOURCE | Self::STREAM_OUTPUT | Self::RENDER_TARGET
        | Self::DEPTH_STENCIL | Self::UNORDERED_ACCESS | Self::DECODER | Self::VIDEO_ENCODER;

    /// Whether every bit of `flag` is present.
    pub fn is_set(self, flag: BindFlags) -> (r: bool)
        ensures
            r == has_all(self.0, flag.0),
    {
        self.0 & flag.0 == flag.0
    }

    /// Removes every bit of `flag` and leaves the others.
    pub fn clear(&mut self, flag: BindFlags)
        ensures
            final(self).0 == old(self).0 & !flag.0,
    {
        self.0 = self.0 & !flag.0;
    }

    /// Whether no bit outside the named ones is set.
    pub fn validate(self) -> (ok: bool)
        ensures
            ok == within_mask(self.0, Self::MASK),
    {
        self.0 & !Self::MASK == 0
    }

    /// The union of all named constants is a valid value, and so is each of
    /// them alone, and the empty value.
    pub proof fn lemma_named_bits_are_valid()
        ensures
            within_mask(Self::MASK, Self::MASK),
            within_mask(Self::NONE, Self::MASK),
            within_mask(Self::VERTEX_BUFFER, Self::MASK),
            within_mask(Self::INDEX_BUFFER, Self::MASK),
            within_mask(Self::CONSTANT_BUFFER, Self::MASK),
            within_mask(Self::SHADER_RESOURCE, Self::MASK),
            within_mask(Self::STREAM_OUTPUT, Self::MASK),
            within_mask(Self::RENDER_TARGET, Self::MASK),
            within_mask(Self::DEPTH_STENCIL, Self::MASK),
            within_mask(Self::UNORDERED_ACCESS, Self::MASK),
            within_mask(Self::DECODER, Self::MASK),
            within_mask(Self::VIDEO_ENCODER, Self::MASK),
    {
        assert({
            &&& within_mask(Self::MASK, Self::MASK)
            &&& within_mask(Self::NONE, Self::MASK)
            &&& within_mask(Self::VERTEX_BUFFER, Self::MASK)
            &&& within_mask(Self::INDEX_BUFFER, Self::MASK)
            &&& within_mask(Self::CONSTANT_BUFFER, Self::MASK)
            &&& within_mask(Self::SHADER_RESOURCE, Self::MASK)
            &&& within_mask(Self::STREAM_OUTPUT, Self::MASK)
            &&& within_mask(Self::RENDER_TARGET, Self::MASK)
            &&& within_mask(Self::DEPTH_STENCIL, Self::MASK)
            &&& within_mask(Self::UNORDERED_ACCESS, Self::MASK)
            &&& within_mask(Self::DECODER, Self::MASK)
            &&& within_mask(Self::VIDEO_ENCODER, Self::MASK)
        }) by (bit_vector);
    }

    /// The named bits in the order in which [`BindFlags::describe`] lists them.
    pub open spec fn names() -> Seq<(u32, &'static str)> {
        seq![
            (Self::VERTEX_BUFFER, "VERTEX_BUFFER"),
            (Self::INDEX_BUFFER, "INDEX_BUFFER"),
            (Self::CONSTANT_BUFFER, "CONSTANT_BUFFER"),
            (Self::SHADER_RESOURCE, "SHADER_RESOURCE"),
            (Self::STREAM_OUTPUT, "STREAM_OUTPUT"),
            (Self::RENDER_TARGET, "RENDER_TARGET"),
            (Self::DEPTH_STENCIL, "DEPTH_STENCIL"),
            (Self::UNORDERED_ACCESS, "UNORDERED_ACCESS"),
            (Self::DECODER, "DECODER"),
            (Self::VIDEO_ENCODER, "VIDEO_ENCODER"),
        ]
    }

    /// The type's name, then in brackets the names of the constants that
    /// are fully present, joined by ` | `, or `NONE` where there is none.
    pub fn describe(self) -> (text: String)
        ensures
            text@ == flags_text("BindFlags"@, self.0, Self::names()),
    {
        let table = [
            (Self::VERTEX_BUFFER, "VERTEX_BUFFER"),
            (Self::INDEX_BUFFER, "INDEX_BUFFER"),
            (Self::CONSTANT_BUFFER, "CONSTANT_BUFFER"),
            (Self::SHADER_RESOURCE, "SHADER_RESOURCE"),
            (Self::STREAM_OUTPUT, "STREAM_OUTPUT"),
            (Self::RENDER_TARGET, "RENDER_TARGET"),
            (Self::DEPTH_STENCIL, "DEPTH_STENCIL"),
            (Self::UNORDERED_ACCESS, "UNORDERED_ACCESS"),
            (Self::DECODER, "DECODER"),
            (Self::VIDEO_ENCODER, "VIDEO_ENCODER"),
        ];
        assert(table@ =~= Self::names());
        describe_flags("BindFlags", self.0, table.as_slice())
    }
}

impl core::ops::Not for BindFlags {
    type Output = BindFlags;

    fn not(self) -> (out: BindFlags) {
        BindFlags(!self.0)
    }
}

impl vstd::std_specs::ops::NotSpecImpl for BindFlags {
    open spec fn obeys_not_spec() -> bool {
        true
    }

    open spec fn not_req(self) -> bool {
        true
    }

    open spec fn not_spec(self) -> BindFlags {
        BindFlags(!self.0)
    }
}

impl core::ops::BitAnd for BindFlags {
    type Output = BindFlags;

    fn bitand(self, rhs: BindFlags) -> (out: BindFlags) {
        BindFlags(self.0 & rhs.0)
    }
}

impl vstd::std_specs::ops::BitAndSpecImpl for BindFlags {
    open spec fn obeys_bitand_spec() -> bool {
        true
    }

    open spec fn bitand_req(self, rhs: BindFlags) -> bool {
        true
    }

    open spec fn bitand_spec(self, rhs: BindFlags) -> BindFlags {
        BindFlags(self.0 & rhs.0)
    }
}

impl core::ops::BitAndAssign for BindFlags {
    fn bitand_assign(&mut self, rhs: BindFlags)
        ensures
            final(self).0 == old(self).0 & rhs.0,
    {
        self.0 = self.0 & rhs.0;
    }
}

impl core::ops::BitOr for BindFlags {
    type Output = BindFlags;

    fn bitor(self, rhs: BindFlags) -> (out: BindFlags) {
        BindFlags(self.0 | rhs.0)
    }
}

impl vstd::std_specs::ops::BitOrSpecImpl for BindFlags {
    open spec fn obeys_bitor_spec() -> bool {
        true
    }

    open spec fn bitor_req(self, rhs: BindFlags) -> bool {
        true
    }

    open spec fn bitor_spec(self, rhs: BindFlags) -> BindFlags {
        BindFlags(self.0 | rhs.0)
    }
}

impl core::ops::BitOrAssign for BindFlags {
    fn bitor_assign(&mut self, rhs: BindFlags)
        ensures
            final(self).0 == old(self).0 | rhs.0,
    {
        self.0 = self.0 | rhs.0;
    }
}

impl core::ops::BitXor for BindFlags {
    type Output = BindFlags;

    fn bitxor(self, rhs: BindFlags) -> (out: BindFlags) {
        BindFlags(self.0 ^ rhs.0)
    }
}

impl vstd::std_specs::ops::BitXorSpecImpl for BindFlags {
    open spec fn obeys_bitxor_spec() -> bool {
        true
    }

    open spec fn bitxor_req(self, rhs: BindFlags) -> bool {
        true
    }

    open spec fn bitxor_spec(self, rhs: BindFlags) -> BindFlags {
        BindFlags(self.0 ^ rhs.0)
    }
}

impl core::ops::BitXorAssign for BindFlags {
    fn bitxor_assign(&mut self, rhs: BindFlags)
        ensures
            final(self).0 == old(self).0 ^ rhs.0,
    {
        self.0 = self.0 ^ rhs.0;
    }
}

} // verus!
