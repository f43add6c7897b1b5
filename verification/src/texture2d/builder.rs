//! The configuration of a 2D texture, its initial content, and the one
//! native call that creates it.

use vstd::prelude::*;
use crate::device::Device;
use crate::enums::{BindFlags, CpuAccessFlags, ResourceMiscFlags, Usage};
use crate::error::{status_succeeded, Error};
use crate::helpers::{ComWrapper, RefCounts};
use crate::interop::Format;
use crate::texture2d::Texture2D;

verus! {

/// The description of a 2D texture as the native call takes it.
#[derive(Copy, Clone, Debug, PartialEq, Eq, Structural)]
pub struct Texture2DDesc {
    pub width: u32,
    pub height: u32,
    pub mip_levels: u32,
    pub array_size: u32,
    pub format: u32,
    pub sample_count: u32,
    pub sample_quality: u32,
    pub usage: u32,
    pub bind_flags: u32,
    pub cpu_access_flags: u32,
    pub misc_flags: u32,
}

/// The initial content of one subresource as the native call takes it.
#[derive(Copy, Clone, Debug)]
pub struct SubresourceData<'a> {
    /// The bytes of the subresource.
    pub sys_mem: &'a [u8],
    /// The distance in bytes from one row to the next.
    pub sys_mem_pitch: u32,
    /// The size in bytes of the subresource, cut to 32 bits.
    pub sys_mem_slice_pitch: u32,
}

/// Whether a buffer of `len` bytes holds `width` times `pitch` bytes.
pub open spec fn item_fits(len: nat, pitch: u32, width: u32) -> bool {
    len >= width * pitch
}

/// Whether every pair of bytes and pitch holds enough bytes for `width`.
pub open spec fn all_fit(items: Seq<(Seq<u8>, u32)>, width: u32) -> bool {
    forall|i: int|
        0 <= i < items.len() ==> item_fits((#[trigger] items[i]).0.len(), items[i].1, width)
}

/// The native descriptor of one pair of bytes and pitch.
pub open spec fn describes(data: SubresourceData, bytes: Seq<u8>, pitch: u32) -> bool {
    &&& data.sys_mem@ == bytes
    &&& data.sys_mem_pitch == pitch
    &&& data.sys_mem_slice_pitch == bytes.len() as u32
}

/// Whether `descs` is the descriptor array of `items`: one descriptor for
/// each pair, in order.
pub open spec fn describes_all(descs: Seq<SubresourceData>, items: Seq<(Seq<u8>, u32)>) -> bool {
    &&& descs.len() == items.len()
    &&& forall|i: int|
        0 <= i < items.len() ==> describes(#[trigger] descs[i], items[i].0, items[i].1)
}

/// The initial content of a texture: none, or one pair of bytes and row
/// pitch for each subresource.
pub enum InitialData<'a> {
    /// No initial content.
    Empty,
    /// The content of a single subresource.
    Single(&'a [u8], u32),
    /// A borrowed list, one pair for each subresource.
    Slice(&'a [(&'a [u8], u32)]),
    /// An owned list, one pair for each subresource.
    Owned(Vec<(&'a [u8], u32)>),
}

impl<'a> InitialData<'a> {
    /// The pairs as they are held, in order.
    pub open spec fn pairs(&self) -> Seq<(&'a [u8], u32)> {
        match self {
            InitialData::Empty => Seq::empty(),
            InitialData::Single(bytes, pitch) => seq![(*bytes, *pitch)],
            InitialData::Slice(list) => list@,
            InitialData::Owned(list) => list@,
        }
    }

    /// The pairs of bytes and pitch as plain values, in order.
    pub open spec fn items(&self) -> Seq<(Seq<u8>, u32)> {
        Seq::new(self.pairs().len(), |i: int| (self.pairs()[i].0@, self.pairs()[i].1))
    }

    /// The number of subresources that have initial content.
    pub fn len(&self) -> (n: usize)
        ensures
            n == self.items().len(),
    {
        match self {
            InitialData::Empty => 0,
            InitialData::Single(_, _) => 1,
            InitialData::Slice(list) => list.len(),
            InitialData::Owned(list) => list.len(),
        }
    }

    /// The pair at `index`.
    pub fn get(&self, index: usize) -> (pair: (&'a [u8], u32))
        requires
            index < self.items().len(),
        ensures
            pair == self.pairs()[index as int],
            (pair.0@, pair.1) == self.items()[index as int],
    {
        match self {
            InitialData::Empty => (&[], 0),
            InitialData::Single(bytes, pitch) => (*bytes, *pitch),
            InitialData::Slice(list) => list[index],
            InitialData::Owned(list) => list[index],
        }
    }

    /// Fills `data` with the native descriptor of each pair, in order, and
    /// says whether there is any: without initial content `data` is left as
    /// it is and the native call gets a null pointer.
    ///
    /// Initial content has to come with one pair for each array element.
    pub fn to_desc(&self, data: &mut Vec<SubresourceData<'a>>, array_size: u32) -> (present: bool)
        requires
            self.items().len() == 0 || self.items().len() == array_size,
        ensures
            present == (self.items().len() != 0),
            !present ==> final(data)@ == old(data)@,
            present ==> describes_all(final(data)@, self.items()),
    {
        let len = self.len();
        if len == 0 {
            return false;
        }
        data.clear();
        let mut i: usize = 0;
        while i < len
            invariant
                len == self.items().len(),
                i <= len,
                data@.len() == i,
                forall|j: int|
                    0 <= j < i ==> describes(
                        #[trigger] data@[j],
                        self.items()[j].0,
                        self.items()[j].1,
                    ),
            decreases len - i,
        {
            let (bytes, pitch) = self.get(i);
            data.push(
                SubresourceData {
                    sys_mem: bytes,
                    sys_mem_pitch: pitch,
                    sys_mem_slice_pitch: #[verifier::truncate]
                    (bytes.len() as u32),
                },
            );
            i += 1;
        }
        true
    }

    /// Calls `f` once for each pair, in order, with the pair's index.
    pub fn each<F: FnMut(usize, &'a [u8], u32)>(&self, mut f: F)
        requires
            forall|i: usize|
                i < self.pairs().len() ==> f.requires(
                    (i, (#[trigger] self.pairs()[i as int]).0, self.pairs()[i as int].1),
                ),
        ensures
            forall|i: usize|
                i < self.pairs().len() ==> f.ensures(
                    (i, (#[trigger] self.pairs()[i as int]).0, self.pairs()[i as int].1),
                    (),
                ),
    {
        let ghost f0 = f;
        let len = self.len();
        let mut i: usize = 0;
        while i < len
            invariant
                len == self.pairs().len(),
                i <= len,
                f == f0,
                forall|j: usize|
                    j < self.pairs().len() ==> f.requires(
                        (j, (#[trigger] self.pairs()[j as int]).0, self.pairs()[j as int].1),
                    ),
                forall|j: usize|
                    j < i ==> f.ensures(
                        (j, (#[trigger] self.pairs()[j as int]).0, self.pairs()[j as int].1),
                        (),
                    ),
            decreases len - i,
        {
            let (bytes, pitch) = self.get(i);
            f(i, bytes, pitch);
            i += 1;
        }
    }

    /// Whether every pair holds enough bytes for a texture of this width.
    pub fn check_format(&self, width: u32) -> (ok: bool)
        ensures
            ok == all_fit(self.items(), width),
    {
        let len = self.len();
        let mut i: usize = 0;
        while i < len
            invariant
                len == self.items().len(),
                i <= len,
                forall|j: int|
                    0 <= j < i ==> item_fits(
                        (#[trigger] self.items()[j]).0.len(),
                        self.items()[j].1,
                        width,
                    ),
            decreases len - i,
        {
            let (bytes, pitch) = self.get(i);
            if !Self::check_format_item(bytes, pitch, width) {
                assert(!item_fits(self.items()[i as int].0.len(), self.items()[i as int].1, width));
                return false;
            }
            i += 1;
        }
        true
    }

    /// Whether one pair holds enough bytes: at least `width` times `pitch`.
    pub fn check_format_item(bytes: &[u8], pitch: u32, width: u32) -> (ok: bool)
        ensures
            ok == item_fits(bytes@.len(), pitch, width),
    {
        assert(width * pitch <= 0xFFFF_FFFE_0000_0001) by (nonlinear_arith)
            requires
                0 <= width <= 0xFFFF_FFFF,
                0 <= pitch <= 0xFFFF_FFFF,
        ;
        let img_bytes: u64 = (width as u64) * (pitch as u64);
        (bytes.len() as u64) >= img_bytes
    }
}

/// What a texture builder has been told so far.
pub struct Texture2DConfig {
    /// The address of the device that creates the texture.
    pub device: usize,
    /// The description of the texture.
    pub desc: Texture2DDesc,
    /// The initial content: one pair of bytes and pitch for each
    /// subresource, or none at all.
    pub initial_data: Seq<(Seq<u8>, u32)>,
    /// Whether the comparison of the initial content with the width is
    /// switched off.
    pub unchecked_format: bool,
}

/// Whether `build` takes the configuration: initial content, where there is
/// any, comes with one pair for each array element, and each pair holds
/// enough bytes for the width unless that check is switched off.
pub open spec fn buildable(config: Texture2DConfig) -> bool {
    &&& config.unchecked_format || all_fit(config.initial_data, config.desc.width)
    &&& config.initial_data.len() == 0 || config.initial_data.len() == config.desc.array_size
}

/// Initial content that comes with a number of pairs other than the array
/// size is never built. An empty list is no initial content at all.
pub proof fn lemma_wrong_length_is_not_buildable(config: Texture2DConfig)
    requires
        config.initial_data.len() != 0,
        config.initial_data.len() != config.desc.array_size,
    ensures
        !buildable(config),
{
}

/// A pair with fewer bytes than width times pitch is never built, unless the
/// size check is switched off.
pub proof fn lemma_short_pair_is_not_buildable(config: Texture2DConfig, i: int)
    requires
        0 <= i < config.initial_data.len(),
        config.initial_data[i].0.len() < config.desc.width * config.initial_data[i].1,
        !config.unchecked_format,
    ensures
        !buildable(config),
{
}

/// The arguments of the native texture creation call.
pub struct TextureRequest<'a> {
    /// The address of the device that creates the texture.
    pub device: usize,
    /// The description of the texture.
    pub desc: Texture2DDesc,
    /// The descriptor of each subresource's initial content; `None` stands
    /// for the null pointer.
    pub initial_data: Option<Vec<SubresourceData<'a>>>,
}

/// Whether `request` is the request that `config` leads to.
pub open spec fn is_request_of(request: TextureRequest, config: Texture2DConfig) -> bool {
    &&& request.device == config.device
    &&& request.desc == config.desc
    &&& match request.initial_data {
        Some(descs) => config.initial_data.len() != 0 && describes_all(
            descs@,
            config.initial_data,
        ),
        None => config.initial_data.len() == 0,
    }
}

/// What the native texture creation call hands back.
#[derive(Copy, Clone, Debug, PartialEq, Eq, Structural)]
pub struct TextureReply {
    /// The status code of the call.
    pub status: i32,
    /// The address of the texture.
    pub texture: usize,
}

impl TextureReply {
    /// A reply that reports success names a texture.
    pub open spec fn well_formed(self) -> bool {
        status_succeeded(self.status) ==> self.texture != 0
    }
}

/// What `build` returns for a given native reply: on success the wrapped
/// texture, holding one increment; on failure the status as a device-layer
/// failure, with nothing wrapped.
pub open spec fn texture_outcome(
    reply: TextureReply,
    r: Result<Texture2D, Error>,
    before: vstd::multiset::Multiset<usize>,
    after: vstd::multiset::Multiset<usize>,
) -> bool {
    match r {
        Ok(texture) => {
            &&& status_succeeded(reply.status)
            &&& texture.raw() == reply.texture
            &&& after == before.insert(reply.texture)
        },
        Err(e) => {
            &&& !status_succeeded(reply.status)
            &&& e == Error::D3D11(reply.status)
            &&& after == before
        },
    }
}

/// The accumulator of a texture's configuration. Each configuration method
/// consumes it and returns the next one; `build` consumes it for good.
pub struct Texture2DBuilder<'a, 'b> {
    device: &'a Device,
    desc: Texture2DDesc,
    initial_data: InitialData<'b>,
    unchecked_format: bool,
}

impl<'a, 'b> View for Texture2DBuilder<'a, 'b> {
    type V = Texture2DConfig;

    closed spec fn view(&self) -> Texture2DConfig {
        Texture2DConfig {
            device: self.device.raw(),
            desc: self.desc,
            initial_data: self.initial_data.items(),
            unchecked_format: self.unchecked_format,
        }
    }
}

impl<'a, 'b> Texture2DBuilder<'a, 'b> {
    /// The description that a builder starts with: one mip level, one array
    /// element, one sample, and zero everywhere else.
    pub open spec fn initial_desc() -> Texture2DDesc {
        Texture2DDesc {
            width: 0,
            height: 0,
            mip_levels: 1,
            array_size: 1,
            format: 0,
            sample_count: 1,
            sample_quality: 0,
            usage: 0,
            bind_flags: 0,
            cpu_access_flags: 0,
            misc_flags: 0,
        }
    }

    /// Starts the configuration of a texture of `device`.
    pub fn new(device: &'a Device) -> (builder: Texture2DBuilder<'a, 'b>)
        ensures
            builder@ == (Texture2DConfig {
                device: device.raw(),
                desc: Self::initial_desc(),
                initial_data: Seq::empty(),
                unchecked_format: false,
            }),
    {
        let desc = Texture2DDesc {
            width: 0,
            height: 0,
            mip_levels: 1,
            array_size: 1,
            format: 0,
            sample_count: 1,
            sample_quality: 0,
            usage: 0,
            bind_flags: 0,
            cpu_access_flags: 0,
            misc_flags: 0,
        };
        let builder = Texture2DBuilder {
            device,
            desc,
            initial_data: InitialData::Empty,
            unchecked_format: false,
        };
        assert(builder.initial_data.items() =~= Seq::empty());
        builder
    }

    /// Sets width and height, in texels.
    pub fn with_size(self, width: u32, height: u32) -> (next: Texture2DBuilder<'a, 'b>)
        ensures
            next@ == (Texture2DConfig {
                desc: Texture2DDesc { width, height, ..self@.desc },
                ..self@
            }),
    {
        let mut next = self;
        next.desc.width = width;
        next.desc.height = height;
        next
    }

    /// Sets the number of mip levels.
    pub fn with_mip_levels(self, mip_levels: u32) -> (next: Texture2DBuilder<'a, 'b>)
        ensures
            next@ == (Texture2DConfig {
                desc: Texture2DDesc { mip_levels, ..self@.desc },
                ..self@
            }),
    {
        let mut next = self;
        next.desc.mip_levels = mip_levels;
        next
    }

    /// Sets the number of array elements.
    pub fn with_array_size(self, array_size: u32) -> (next: Texture2DBuilder<'a, 'b>)
        ensures
            next@ == (Texture2DConfig {
                desc: Texture2DDesc { array_size, ..self@.desc },
                ..self@
            }),
    {
        let mut next = self;
        next.desc.array_size = array_size;
        next
    }

    /// Sets the pixel format.
    pub fn with_format(self, format: Format) -> (next: Texture2DBuilder<'a, 'b>)
        ensures
            next@ == (Texture2DConfig {
                desc: Texture2DDesc { format: format.0, ..self@.desc },
                ..self@
            }),
    {
        let mut next = self;
        next.desc.format = format.0;
        next
    }

    /// Sets the number of samples per texel and their quality level.
    pub fn with_samples(self, count: u32, quality: u32) -> (next: Texture2DBuilder<'a, 'b>)
        ensures
            next@ == (Texture2DConfig {
                desc: Texture2DDesc { sample_count: count, sample_quality: quality, ..self@.desc },
                ..self@
            }),
    {
        let mut next = self;
        next.desc.sample_count = count;
        next.desc.sample_quality = quality;
        next
    }

    /// Sets the expected use of the texture.
    pub fn with_usage(self, usage: Usage) -> (next: Texture2DBuilder<'a, 'b>)
        ensures
            next@ == (Texture2DConfig {
                desc: Texture2DDesc { usage: usage.code(), ..self@.desc },
                ..self@
            }),
    {
        let mut next = self;
        next.desc.usage = usage.to_u32();
        next
    }

    /// Sets how the texture is bound to the pipeline.
    pub fn with_bind_flags(self, bind_flags: BindFlags) -> (next: Texture2DBuilder<'a, 'b>)
        ensures
            next@ == (Texture2DConfig {
                desc: Texture2DDesc { bind_flags: bind_flags.0, ..self@.desc },
                ..self@
            }),
    {
        let mut next = self;
        next.desc.bind_flags = bind_flags.0;
        next
    }

    /// Sets the CPU access that is allowed.
    pub fn with_cpu_access_flags(self, cpu_access_flags: CpuAccessFlags) -> (next: Texture2DBuilder<
        'a,
        'b,
    >)
        ensures
            next@ == (Texture2DConfig {
                desc: Texture2DDesc { cpu_access_flags: cpu_access_flags.0, ..self@.desc },
                ..self@
            }),
    {
        let mut next = self;
        next.desc.cpu_access_flags = cpu_access_flags.0;
        next
    }

    /// Sets the other resource options.
    pub fn with_misc_flags(self, misc_flags: ResourceMiscFlags) -> (next: Texture2DBuilder<'a, 'b>)
        ensures
            next@ == (Texture2DConfig {
                desc: Texture2DDesc { misc_flags: misc_flags.0, ..self@.desc },
                ..self@
            }),
    {
        let mut next = self;
        next.desc.misc_flags = misc_flags.0;
        next
    }

    /// Gives the initial content of a texture with a single subresource.
    pub fn with_initial_data(self, data: &'b [u8], pitch: u32) -> (next: Texture2DBuilder<'a, 'b>)
        ensures
            next@ == (Texture2DConfig { initial_data: seq![(data@, pitch)], ..self@ }),
    {
        let mut next = self;
        next.initial_data = InitialData::Single(data, pitch);
        assert(next.initial_data.items() =~= seq![(data@, pitch)]);
        next
    }

    /// Gives the initial content as a borrowed list, one pair for each
    /// subresource.
    pub fn with_initial_data_slice(self, data: &'b [(&'b [u8], u32)]) -> (next: Texture2DBuilder<
        'a,
        'b,
    >)
        ensures
            next@ == (Texture2DConfig {
                initial_data: Seq::new(data@.len(), |i: int| (data@[i].0@, data@[i].1)),
                ..self@
            }),
    {
        let mut next = self;
        next.initial_data = InitialData::Slice(data);
        assert(next.initial_data.items() =~= Seq::new(
            data@.len(),
            |i: int| (data@[i].0@, data@[i].1),
        ));
        next
    }

    /// Gives the initial content as an owned list, one pair for each
    /// subresource.
    pub fn with_initial_data_vec(self, data: Vec<(&'b [u8], u32)>) -> (next: Texture2DBuilder<
        'a,
        'b,
    >)
        ensures
            next@ == (Texture2DConfig {
                initial_data: Seq::new(data@.len(), |i: int| (data@[i].0@, data@[i].1)),
                ..self@
            }),
    {
        let mut next = self;
        let ghost list = data@;
        next.initial_data = InitialData::Owned(data);
        assert(next.initial_data.items() =~= Seq::new(
            list.len(),
            |i: int| (list[i].0@, list[i].1),
        ));
        next
    }

    /// Switches off the requirement that each pair of the initial content
    /// holds enough bytes for the width. It is for formats whose size per pixel is
    /// not a whole number of bytes; the caller then answers for the sizes.
    pub fn with_unchecked_format(self) -> (next: Texture2DBuilder<'a, 'b>)
        ensures
            next@ == (Texture2DConfig { unchecked_format: true, ..self@ }),
    {
        let mut next = self;
        next.unchecked_format = true;
        next
    }

    /// Whether every pair of the initial content holds enough bytes for the
    /// configured width.
    pub fn check_format(&self) -> (ok: bool)
        ensures
            ok == all_fit(self@.initial_data, self@.desc.width),
    {
        self.initial_data.check_format(self.desc.width)
    }

    /// Whether `build` takes the configuration as it stands.
    pub fn can_build(&self) -> (ok: bool)
        ensures
            ok == buildable(self@),
    {
        let len = self.initial_data.len();
        (self.unchecked_format || self.check_format()) && (len == 0 || (len as u64)
            == self.desc.array_size as u64)
    }

    /// The arguments of the native creation call for what has been
    /// configured.
    pub fn request(&self) -> (request: TextureRequest<'b>)
        requires
            self@.initial_data.len() == 0 || self@.initial_data.len() == self@.desc.array_size,
        ensures
            is_request_of(request, self@),
    {
        let mut descs: Vec<SubresourceData<'b>> = Vec::new();
        let present = self.initial_data.to_desc(&mut descs, self.desc.array_size);
        TextureRequest {
            device: self.device.get_raw(),
            desc: self.desc,
            initial_data: if present {
                Some(descs)
            } else {
                None
            },
        }
    }

    /// Reads the reply of the native creation call: on success it wraps the
    /// texture; on failure it wraps nothing and returns the status.
    pub fn finish(reply: TextureReply, counts: &mut RefCounts) -> (r: Result<Texture2D, Error>)
        requires
            reply.well_formed(),
        ensures
            texture_outcome(reply, r, old(counts)@, final(counts)@),
    {
        Error::wrap_if(reply.status, reply.texture, counts)
    }

    /// Creates the texture. `create` is the native creation call: it is
    /// called once, with the request that the configuration leads to, and
    /// its reply decides the result.
    ///
    /// The configuration has to be one that [`Texture2DBuilder::can_build`]
    /// accepts.
    pub fn build<F: FnOnce(TextureRequest<'b>) -> TextureReply>(
        self,
        counts: &mut RefCounts,
        create: F,
    ) -> (r: Result<Texture2D, Error>)
        requires
            buildable(self@),
            forall|request: TextureRequest<'b>|
                is_request_of(request, self@) ==> create.requires((request,)),
            forall|request: TextureRequest<'b>, reply: TextureReply|
                is_request_of(request, self@) && create.ensures((request,), reply)
                    ==> reply.well_formed(),
        ensures
            exists|request: TextureRequest<'b>, reply: TextureReply|
                {
                    &&& is_request_of(request, self@)
                    &&& #[trigger] create.ensures((request,), reply)
                    &&& texture_outcome(reply, r, old(counts)@, final(counts)@)
                },
    {
        let request = self.request();
        let reply = create(request);
        Self::finish(reply, counts)
    }
}

} // verus!
