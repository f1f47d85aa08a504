//! Texture descriptions: kinds, pixel formats, sampling modes and the byte
//! sizes they imply.
use vstd::prelude::*;

verus! {

/// Shape of a texture and its extent in pixels.
#[derive(Clone, Copy, Debug, PartialEq, Eq, Structural)]
pub enum TextureKind {
    /// 1D texture.
    Line { length: u32 },
    /// 2D texture.
    Rectangle { width: u32, height: u32 },
    /// Cube texture; the extent is that of one face.
    Cube { width: u32, height: u32 },
    /// Volume (3D) texture.
    Volume { width: u32, height: u32, depth: u32 },
}

impl Default for TextureKind {
    fn default() -> (r: Self)
        ensures
            r == (TextureKind::Rectangle { width: 0, height: 0 }),
    {
        TextureKind::Rectangle { width: 0, height: 0 }
    }
}

impl TextureKind {
    /// Stable persisted tag of the variant.
    pub open spec fn spec_id(self) -> u32 {
        match self {
            TextureKind::Line { .. } => 0,
            TextureKind::Rectangle { .. } => 1,
            TextureKind::Cube { .. } => 2,
            TextureKind::Volume { .. } => 3,
        }
    }

    /// Stable persisted tag of the variant.
    pub fn id(&self) -> (r: u32)
        ensures
            r == self.spec_id(),
    {
        match self {
            TextureKind::Line { .. } => 0,
            TextureKind::Rectangle { .. } => 1,
            TextureKind::Cube { .. } => 2,
            TextureKind::Volume { .. } => 3,
        }
    }

    /// Number of pixels the kind covers (all faces of a cube count as one face).
    pub open spec fn pixel_count(self) -> nat {
        match self {
            TextureKind::Line { length } => length as nat,
            TextureKind::Rectangle { width, height } => width as nat * height as nat,
            TextureKind::Cube { width, height } => width as nat * height as nat,
            TextureKind::Volume { width, height, depth } => width as nat * height as nat
                * depth as nat,
        }
    }

    /// Number of 4x4 (or 4x4x4) compression blocks the kind covers.
    pub open spec fn block_count(self) -> nat {
        match self {
            TextureKind::Line { length } => spec_ceil_div_4(length as nat),
            TextureKind::Rectangle { width, height } => spec_ceil_div_4(width as nat)
                * spec_ceil_div_4(height as nat),
            TextureKind::Cube { width, height } => spec_ceil_div_4(width as nat)
                * spec_ceil_div_4(height as nat),
            TextureKind::Volume { width, height, depth } => spec_ceil_div_4(width as nat)
                * spec_ceil_div_4(height as nat) * spec_ceil_div_4(depth as nat),
        }
    }

    /// Kind of a DDS image, from the `caps2` word of its header: a cube map,
    /// a volume (which needs a depth), or else a rectangle.
    pub open spec fn spec_from_dds(
        caps2: u32,
        width: u32,
        height: u32,
        depth: Option<u32>,
    ) -> Option<TextureKind> {
        if caps2 & DDS_CUBEMAP == DDS_CUBEMAP {
            Some(TextureKind::Cube { width, height })
        } else if caps2 & DDS_VOLUME == DDS_VOLUME {
            match depth {
                Some(d) => Some(TextureKind::Volume { width, height, depth: d }),
                None => None,
            }
        } else {
            Some(TextureKind::Rectangle { width, height })
        }
    }

    /// Kind of a DDS image from its header fields; `None` for a volume
    /// without a depth.
    pub fn from_dds(caps2: u32, width: u32, height: u32, depth: Option<u32>) -> (r: Option<
        TextureKind,
    >)
        ensures
            r == Self::spec_from_dds(caps2, width, height, depth),
    {
        let cube = dds_cubemap_flag();
        let volume = dds_volume_flag();
        if caps2 & cube == cube {
            Some(TextureKind::Cube { width, height })
        } else if caps2 & volume == volume {
            match depth {
                Some(d) => Some(TextureKind::Volume { width, height, depth: d }),
                None => None,
            }
        } else {
            Some(TextureKind::Rectangle { width, height })
        }
    }
}

/// The `caps2` bit of a DDS header that marks a cube map.
pub const DDS_CUBEMAP: u32 = 0x200;

/// The `caps2` bit of a DDS header that marks a volume texture.
pub const DDS_VOLUME: u32 = 0x200000;

/// Relies on ddsfile's `Caps2::CUBEMAP`: the flag's bits are 0x200.
#[verifier::external_body]
fn dds_cubemap_flag() -> (r: u32)
    ensures
        r == DDS_CUBEMAP,
{
    ddsfile::Caps2::CUBEMAP.bits()
}

/// Relies on ddsfile's `Caps2::VOLUME`: the flag's bits are 0x200000.
#[verifier::external_body]
fn dds_volume_flag() -> (r: u32)
    ensures
        r == DDS_VOLUME,
{
    ddsfile::Caps2::VOLUME.bits()
}

/// Filter used when a pixel maps to at most one texel.
#[derive(Clone, Copy, Debug, PartialEq, Eq, Structural, Hash)]
pub enum TextureMagnificationFilter {
    /// Texel nearest to the pixel centre.
    Nearest,
    /// Weighted average of the four nearest texels.
    Linear,
}

impl TextureMagnificationFilter {
    pub open spec fn spec_id(self) -> u32 {
        match self {
            TextureMagnificationFilter::Nearest => 0,
            TextureMagnificationFilter::Linear => 1,
        }
    }

    pub open spec fn spec_from_id(id: u32) -> Option<Self> {
        if id == 0 {
            Some(TextureMagnificationFilter::Nearest)
        } else if id == 1 {
            Some(TextureMagnificationFilter::Linear)
        } else {
            None
        }
    }

    /// Stable persisted tag of the filter.
    pub fn id(&self) -> (r: u32)
        ensures
            r == self.spec_id(),
    {
        match self {
            TextureMagnificationFilter::Nearest => 0,
            TextureMagnificationFilter::Linear => 1,
        }
    }

    /// Filter with the given tag; `None` for an unknown tag.
    pub fn from_id(id: u32) -> (r: Option<Self>)
        ensures
            r == Self::spec_from_id(id),
    {
        match id {
            0 => Some(TextureMagnificationFilter::Nearest),
            1 => Some(TextureMagnificationFilter::Linear),
            _ => None,
        }
    }
}

/// Filter used when a pixel maps to more than one texel.
#[derive(Clone, Copy, Debug, PartialEq, Eq, Structural, Hash)]
pub enum TextureMinificationFilter {
    Nearest,
    NearestMipMapNearest,
    NearestMipMapLinear,
    Linear,
    LinearMipMapNearest,
    LinearMipMapLinear,
}

impl TextureMinificationFilter {
    pub open spec fn spec_id(self) -> u32 {
        match self {
            TextureMinificationFilter::Nearest => 0,
            TextureMinificationFilter::NearestMipMapNearest => 1,
            TextureMinificationFilter::NearestMipMapLinear => 2,
            TextureMinificationFilter::Linear => 3,
            TextureMinificationFilter::LinearMipMapNearest => 4,
            TextureMinificationFilter::LinearMipMapLinear => 5,
        }
    }

    pub open spec fn spec_from_id(id: u32) -> Option<Self> {
        if id == 0 {
            Some(TextureMinificationFilter::Nearest)
        } else if id == 1 {
            Some(TextureMinificationFilter::NearestMipMapNearest)
        } else if id == 2 {
            Some(TextureMinificationFilter::NearestMipMapLinear)
        } else if id == 3 {
            Some(TextureMinificationFilter::Linear)
        } else if id == 4 {
            Some(TextureMinificationFilter::LinearMipMapNearest)
        } else if id == 5 {
            Some(TextureMinificationFilter::LinearMipMapLinear)
        } else {
            None
        }
    }

    /// Stable persisted tag of the filter.
    pub fn id(&self) -> (r: u32)
        ensures
            r == self.spec_id(),
    {
        match self {
            TextureMinificationFilter::Nearest => 0,
            TextureMinificationFilter::NearestMipMapNearest => 1,
            TextureMinificationFilter::NearestMipMapLinear => 2,
            TextureMinificationFilter::Linear => 3,
            TextureMinificationFilter::LinearMipMapNearest => 4,
            TextureMinificationFilter::LinearMipMapLinear => 5,
        }
    }

    /// Filter with the given tag; `None` for an unknown tag.
    pub fn from_id(id: u32) -> (r: Option<Self>)
        ensures
            r == Self::spec_from_id(id),
    {
        match id {
            0 => Some(TextureMinificationFilter::Nearest),
            1 => Some(TextureMinificationFilter::NearestMipMapNearest),
            2 => Some(TextureMinificationFilter::NearestMipMapLinear),
            3 => Some(TextureMinificationFilter::Linear),
            4 => Some(TextureMinificationFilter::LinearMipMapNearest),
            5 => Some(TextureMinificationFilter::LinearMipMapLinear),
            _ => None,
        }
    }
}

/// How texture coordinates outside the unit range are mapped back into it.
#[derive(Clone, Copy, Debug, PartialEq, Eq, Structural, Hash)]
pub enum TextureWrapMode {
    Repeat,
    ClampToEdge,
    ClampToBorder,
    MirroredRepeat,
    MirrorClampToEdge,
}

impl TextureWrapMode {
    pub open spec fn spec_id(self) -> u32 {
        match self {
            TextureWrapMode::Repeat => 0,
            TextureWrapMode::ClampToEdge => 1,
            TextureWrapMode::ClampToBorder => 2,
            TextureWrapMode::MirroredRepeat => 3,
            TextureWrapMode::MirrorClampToEdge => 4,
        }
    }

    pub open spec fn spec_from_id(id: u32) -> Option<Self> {
        if id == 0 {
            Some(TextureWrapMode::Repeat)
        } else if id == 1 {
            Some(TextureWrapMode::ClampToEdge)
        } else if id == 2 {
            Some(TextureWrapMode::ClampToBorder)
        } else if id == 3 {
            Some(TextureWrapMode::MirroredRepeat)
        } else if id == 4 {
            Some(TextureWrapMode::MirrorClampToEdge)
        } else {
            None
        }
    }

    /// Stable persisted tag of the mode.
    pub fn id(&self) -> (r: u32)
        ensures
            r == self.spec_id(),
    {
        match self {
            TextureWrapMode::Repeat => 0,
            TextureWrapMode::ClampToEdge => 1,
            TextureWrapMode::ClampToBorder => 2,
            TextureWrapMode::MirroredRepeat => 3,
            TextureWrapMode::MirrorClampToEdge => 4,
        }
    }

    /// Mode with the given tag; `None` for an unknown tag.
    pub fn from_id(id: u32) -> (r: Option<Self>)
        ensures
            r == Self::spec_from_id(id),
    {
        match id {
            0 => Some(TextureWrapMode::Repeat),
            1 => Some(TextureWrapMode::ClampToEdge),
            2 => Some(TextureWrapMode::ClampToBorder),
            3 => Some(TextureWrapMode::MirroredRepeat),
            4 => Some(TextureWrapMode::MirrorClampToEdge),
            _ => None,
        }
    }
}

/// Each sampling mode's tag decodes back to it, and a tag that decodes is
/// the tag of what it decodes to.
pub proof fn lemma_sampling_ids_round_trip(
    min: TextureMinificationFilter,
    mag: TextureMagnificationFilter,
    wrap: TextureWrapMode,
    id: u32,
)
    ensures
        TextureMinificationFilter::spec_from_id(min.spec_id()) == Some(min),
        TextureMagnificationFilter::spec_from_id(mag.spec_id()) == Some(mag),
        TextureWrapMode::spec_from_id(wrap.spec_id()) == Some(wrap),
        TextureMinificationFilter::spec_from_id(id) is Some ==> TextureMinificationFilter::spec_from_id(
            id,
        )->Some_0.spec_id() == id,
        TextureMagnificationFilter::spec_from_id(id) is Some ==> TextureMagnificationFilter::spec_from_id(
            id,
        )->Some_0.spec_id() == id,
        TextureWrapMode::spec_from_id(id) is Some ==> TextureWrapMode::spec_from_id(id)->Some_0.spec_id()
            == id,
{
}

/// Pixel format of a texture.
#[derive(Clone, Copy, Debug, PartialEq, Eq, Structural)]
pub enum TexturePixelKind {
    /// 1 byte red.
    R8,
    /// Red, green, blue, 1 byte each.
    RGB8,
    /// Red, green, blue, alpha, 1 byte each.
    RGBA8,
    /// Red and green, 1 byte each.
    RG8,
    /// 2 byte red.
    R16,
    /// Red and green, 2 bytes each.
    RG16,
    /// Blue, green, red, 1 byte each.
    BGR8,
    /// Blue, green, red, alpha, 1 byte each.
    BGRA8,
    /// Red, green, blue, 2 bytes each.
    RGB16,
    /// Red, green, blue, alpha, 2 bytes each.
    RGBA16,
    /// S3TC DXT1 without alpha.
    DXT1RGB,
    /// S3TC DXT1 with alpha.
    DXT1RGBA,
    /// S3TC DXT3.
    DXT3RGBA,
    /// S3TC DXT5.
    DXT5RGBA,
}

impl TexturePixelKind {
    pub open spec fn spec_id(self) -> u32 {
        match self {
            TexturePixelKind::R8 => 0,
            TexturePixelKind::RGB8 => 1,
            TexturePixelKind::RGBA8 => 2,
            TexturePixelKind::RG8 => 3,
            TexturePixelKind::R16 => 4,
            TexturePixelKind::RG16 => 5,
            TexturePixelKind::BGR8 => 6,
            TexturePixelKind::BGRA8 => 7,
            TexturePixelKind::RGB16 => 8,
            TexturePixelKind::RGBA16 => 9,
            TexturePixelKind::DXT1RGB => 10,
            TexturePixelKind::DXT1RGBA => 11,
            TexturePixelKind::DXT3RGBA => 12,
            TexturePixelKind::DXT5RGBA => 13,
        }
    }

    /// Stable persisted tag of the format.
    pub fn id(self) -> (r: u32)
        ensures
            r == self.spec_id(),
    {
        match self {
            TexturePixelKind::R8 => 0,
            TexturePixelKind::RGB8 => 1,
            TexturePixelKind::RGBA8 => 2,
            TexturePixelKind::RG8 => 3,
            TexturePixelKind::R16 => 4,
            TexturePixelKind::RG16 => 5,
            TexturePixelKind::BGR8 => 6,
            TexturePixelKind::BGRA8 => 7,
            TexturePixelKind::RGB16 => 8,
            TexturePixelKind::RGBA16 => 9,
            TexturePixelKind::DXT1RGB => 10,
            TexturePixelKind::DXT1RGBA => 11,
            TexturePixelKind::DXT3RGBA => 12,
            TexturePixelKind::DXT5RGBA => 13,
        }
    }

    /// Format with the given tag; the tag itself back as the error when it is
    /// unknown (tags run from 0 to 13).
    pub fn new(id: u32) -> (r: Result<Self, u32>)
        ensures
            id < 14 ==> r is Ok && r->Ok_0.spec_id() == id,
            id >= 14 ==> r == Err::<Self, u32>(id),
    {
        match id {
            0 => Ok(TexturePixelKind::R8),
            1 => Ok(TexturePixelKind::RGB8),
            2 => Ok(TexturePixelKind::RGBA8),
            3 => Ok(TexturePixelKind::RG8),
            4 => Ok(TexturePixelKind::R16),
            5 => Ok(TexturePixelKind::RG16),
            6 => Ok(TexturePixelKind::BGR8),
            7 => Ok(TexturePixelKind::BGRA8),
            8 => Ok(TexturePixelKind::RGB16),
            9 => Ok(TexturePixelKind::RGBA16),
            10 => Ok(TexturePixelKind::DXT1RGB),
            11 => Ok(TexturePixelKind::DXT1RGBA),
            12 => Ok(TexturePixelKind::DXT3RGBA),
            13 => Ok(TexturePixelKind::DXT5RGBA),
            _ => Err(id),
        }
    }

    /// Whether the format is block-compressed.
    pub open spec fn spec_is_compressed(self) -> bool {
        match self {
            TexturePixelKind::DXT1RGB | TexturePixelKind::DXT1RGBA | TexturePixelKind::DXT3RGBA
            | TexturePixelKind::DXT5RGBA => true,
            _ => false,
        }
    }

    /// Whether the format is block-compressed.
    pub fn is_compressed(self) -> (r: bool)
        ensures
            r == self.spec_is_compressed(),
    {
        match self {
            TexturePixelKind::DXT1RGB | TexturePixelKind::DXT1RGBA | TexturePixelKind::DXT3RGBA
            | TexturePixelKind::DXT5RGBA => true,
            _ => false,
        }
    }

    /// Bytes per pixel of an uncompressed format, bytes per block of a
    /// compressed one.
    pub open spec fn unit_size(self) -> nat {
        match self {
            TexturePixelKind::R8 => 1,
            TexturePixelKind::R16 | TexturePixelKind::RG8 => 2,
            TexturePixelKind::RGB8 | TexturePixelKind::BGR8 => 3,
            TexturePixelKind::RGBA8 | TexturePixelKind::BGRA8 | TexturePixelKind::RG16 => 4,
            TexturePixelKind::RGB16 => 6,
            TexturePixelKind::RGBA16 => 8,
            TexturePixelKind::DXT1RGB | TexturePixelKind::DXT1RGBA => 8,
            TexturePixelKind::DXT3RGBA | TexturePixelKind::DXT5RGBA => 16,
        }
    }
}

/// Rounds `x / 4` up, the number of 4-pixel blocks along one dimension.
pub open spec fn spec_ceil_div_4(x: nat) -> nat {
    (x + 3) / 4
}

/// Number of 4-pixel blocks covering `x` pixels.
pub fn ceil_div_4(x: u32) -> (r: u32)
    ensures
        r as nat == spec_ceil_div_4(x as nat),
{
    x / 4 + if x % 4 == 0 {
        0
    } else {
        1
    }
}

/// Exact size in bytes of the pixel data of a texture of the given kind and format.
pub open spec fn required_bytes(kind: TextureKind, pixel_kind: TexturePixelKind) -> nat {
    if pixel_kind.spec_is_compressed() {
        kind.block_count() * pixel_kind.unit_size()
    } else {
        kind.pixel_count() * pixel_kind.unit_size()
    }
}

/// Bit pattern of the single-precision number 1.0.
pub const F32_ONE: u32 = 0x3f80_0000;

/// Bit pattern of the single-precision number 16.0.
pub const F32_SIXTEEN: u32 = 0x4180_0000;

/// The larger of the single-precision number with bits `b` and 1.0, with a
/// NaN giving 1.0: positive non-NaN numbers order as their bit patterns do.
pub open spec fn spec_at_least_one(b: u32) -> u32 {
    if F32_ONE <= b && b <= 0x7f80_0000 {
        b
    } else {
        F32_ONE
    }
}

/// Pixel data of a texture and the settings it is sampled with.
#[derive(Clone, Debug)]
pub struct TextureData {
    pub path: String,
    pub kind: TextureKind,
    pub bytes: Vec<u8>,
    pub pixel_kind: TexturePixelKind,
    pub minification_filter: TextureMinificationFilter,
    pub magnification_filter: TextureMagnificationFilter,
    pub s_wrap_mode: TextureWrapMode,
    pub t_wrap_mode: TextureWrapMode,
    pub mip_count: u32,
    /// Maximum anisotropic samples, as the bits of a single-precision number.
    pub anisotropy: u32,
}

/// Empty 0x0 RGBA8 rectangle with the default sampling settings.
impl Default for TextureData {
    fn default() -> (r: Self)
        ensures
            r.has_default_settings(),
            r.kind == (TextureKind::Rectangle { width: 0, height: 0 }),
            r.bytes@.len() == 0,
            r.pixel_kind == TexturePixelKind::RGBA8,
    {
        TextureData {
            path: String::new(),
            kind: TextureKind::Rectangle { width: 0, height: 0 },
            bytes: Vec::new(),
            pixel_kind: TexturePixelKind::RGBA8,
            minification_filter: TextureMinificationFilter::LinearMipMapLinear,
            magnification_filter: TextureMagnificationFilter::Linear,
            s_wrap_mode: TextureWrapMode::Repeat,
            t_wrap_mode: TextureWrapMode::Repeat,
            mip_count: 1,
            anisotropy: F32_SIXTEEN,
        }
    }
}

impl TextureData {
    /// Settings given to a texture built from plain bytes.
    pub open spec fn has_default_settings(&self) -> bool {
        &&& self.path@ == Seq::<char>::empty()
        &&& self.minification_filter == TextureMinificationFilter::LinearMipMapLinear
        &&& self.magnification_filter == TextureMagnificationFilter::Linear
        &&& self.s_wrap_mode == TextureWrapMode::Repeat
        &&& self.t_wrap_mode == TextureWrapMode::Repeat
        &&& self.mip_count == 1
        &&& self.anisotropy == F32_SIXTEEN
    }

    /// Texture to render a scene into: a rectangle of the given size with no
    /// pixel data, sampled with nearest filtering and no anisotropy.
    pub fn new_render_target(width: u32, height: u32) -> (r: Self)
        ensures
            r.kind == (TextureKind::Rectangle { width, height }),
            r.bytes@.len() == 0,
            r.path@ == Seq::<char>::empty(),
            r.pixel_kind == TexturePixelKind::RGBA8,
            r.minification_filter == TextureMinificationFilter::Nearest,
            r.magnification_filter == TextureMagnificationFilter::Nearest,
            r.s_wrap_mode == TextureWrapMode::Repeat,
            r.t_wrap_mode == TextureWrapMode::Repeat,
            r.mip_count == 1,
            r.anisotropy == F32_ONE,
    {
        TextureData {
            path: String::new(),
            kind: TextureKind::Rectangle { width, height },
            bytes: Vec::new(),
            pixel_kind: TexturePixelKind::RGBA8,
            minification_filter: TextureMinificationFilter::Nearest,
            magnification_filter: TextureMagnificationFilter::Nearest,
            s_wrap_mode: TextureWrapMode::Repeat,
            t_wrap_mode: TextureWrapMode::Repeat,
            mip_count: 1,
            anisotropy: F32_ONE,
        }
    }

    pub fn set_minification_filter(&mut self, filter: TextureMinificationFilter)
        ensures
            *final(self) == (TextureData { minification_filter: filter, ..*old(self) }),
    {
        self.minification_filter = filter;
    }

    pub fn minification_filter(&self) -> (r: TextureMinificationFilter)
        ensures
            r == self.minification_filter,
    {
        self.minification_filter
    }

    pub fn set_magnification_filter(&mut self, filter: TextureMagnificationFilter)
        ensures
            *final(self) == (TextureData { magnification_filter: filter, ..*old(self) }),
    {
        self.magnification_filter = filter;
    }

    pub fn magnification_filter(&self) -> (r: TextureMagnificationFilter)
        ensures
            r == self.magnification_filter,
    {
        self.magnification_filter
    }

    pub fn set_s_wrap_mode(&mut self, s_wrap_mode: TextureWrapMode)
        ensures
            *final(self) == (TextureData { s_wrap_mode, ..*old(self) }),
    {
        self.s_wrap_mode = s_wrap_mode;
    }

    pub fn s_wrap_mode(&self) -> (r: TextureWrapMode)
        ensures
            r == self.s_wrap_mode,
    {
        self.s_wrap_mode
    }

    pub fn set_t_wrap_mode(&mut self, t_wrap_mode: TextureWrapMode)
        ensures
            *final(self) == (TextureData { t_wrap_mode, ..*old(self) }),
    {
        self.t_wrap_mode = t_wrap_mode;
    }

    pub fn t_wrap_mode(&self) -> (r: TextureWrapMode)
        ensures
            r == self.t_wrap_mode,
    {
        self.t_wrap_mode
    }

    /// Number of mip levels.
    pub fn mip_count(&self) -> (r: u32)
        ensures
            r == self.mip_count,
    {
        self.mip_count
    }

    pub fn kind(&self) -> (r: TextureKind)
        ensures
            r == self.kind,
    {
        self.kind
    }

    /// Sets the anisotropy level (bits of a single-precision number), raised
    /// to at least 1.0; a NaN gives 1.0.
    pub fn set_anisotropy_level(&mut self, anisotropy: u32)
        ensures
            *final(self) == (TextureData { anisotropy: spec_at_least_one(anisotropy), ..*old(self) }),
    {
        self.anisotropy = if F32_ONE <= anisotropy && anisotropy <= 0x7f80_0000 {
            anisotropy
        } else {
            F32_ONE
        };
    }

    /// Anisotropy level, as the bits of a single-precision number.
    pub fn anisotropy_level(&self) -> (r: u32)
        ensures
            r == self.anisotropy,
    {
        self.anisotropy
    }

    /// Sets the path of the source file.
    pub fn set_path(&mut self, path: String)
        ensures
            *final(self) == (TextureData { path, ..*old(self) }),
    {
        self.path = path;
    }

    /// Texture from raw pixel data; fails exactly when the number of bytes is
    /// not the one the kind and pixel format require.
    pub fn from_bytes(kind: TextureKind, pixel_kind: TexturePixelKind, bytes: Vec<u8>) -> (r:
        Result<Self, ()>)
        ensures
            r is Ok <==> bytes@.len() == required_bytes(kind, pixel_kind),
            r is Ok ==> ({
                let t = r->Ok_0;
                &&& t.kind == kind
                &&& t.pixel_kind == pixel_kind
                &&& t.bytes@ == bytes@
                &&& t.has_default_settings()
            }),
    {
        let compressed = pixel_kind.is_compressed();
        let count: u128 = if compressed {
            match kind {
                TextureKind::Line { length } => ceil_div_4(length) as u128,
                TextureKind::Rectangle { width, height } => {
                    let w = ceil_div_4(width) as u128;
                    let h = ceil_div_4(height) as u128;
                    assert(w * h <= 0xffff_ffff * 0xffff_ffff) by (nonlinear_arith)
                        requires
                            w <= 0xffff_ffff,
                            h <= 0xffff_ffff,
                    ;
                    w * h
                },
                TextureKind::Cube { width, height } => {
                    let w = ceil_div_4(width) as u128;
                    let h = ceil_div_4(height) as u128;
                    assert(w * h <= 0xffff_ffff * 0xffff_ffff) by (nonlinear_arith)
                        requires
                            w <= 0xffff_ffff,
                            h <= 0xffff_ffff,
                    ;
                    w * h
                },
                TextureKind::Volume { width, height, depth } => {
                    let w = ceil_div_4(width) as u128;
                    let h = ceil_div_4(height) as u128;
                    let d = ceil_div_4(depth) as u128;
                    assert(w * h <= 0xffff_ffff * 0xffff_ffff && w * h * d <= 0xffff_ffff
                        * 0xffff_ffff * 0xffff_ffff) by (nonlinear_arith)
                        requires
                            w <= 0xffff_ffff,
                            h <= 0xffff_ffff,
                            d <= 0xffff_ffff,
                    ;
                    w * h * d
                },
            }
        } else {
            match kind {
                TextureKind::Line { length } => length as u128,
                TextureKind::Rectangle { width, height } => {
                    let w = width as u128;
                    let h = height as u128;
                    assert(w * h <= 0xffff_ffff * 0xffff_ffff) by (nonlinear_arith)
                        requires
                            w <= 0xffff_ffff,
                            h <= 0xffff_ffff,
                    ;
                    w * h
                },
                TextureKind::Cube { width, height } => {
                    let w = width as u128;
                    let h = height as u128;
                    assert(w * h <= 0xffff_ffff * 0xffff_ffff) by (nonlinear_arith)
                        requires
                            w <= 0xffff_ffff,
                            h <= 0xffff_ffff,
                    ;
                    w * h
                },
                TextureKind::Volume { width, height, depth } => {
                    let w = width as u128;
                    let h = height as u128;
                    let d = depth as u128;
                    assert(w * h <= 0xffff_ffff * 0xffff_ffff && w * h * d <= 0xffff_ffff
                        * 0xffff_ffff * 0xffff_ffff) by (nonlinear_arith)
                        requires
                            w <= 0xffff_ffff,
                            h <= 0xffff_ffff,
                            d <= 0xffff_ffff,
                    ;
                    w * h * d
                },
            }
        };
        let unit: u128 = match pixel_kind {
            TexturePixelKind::R8 => 1,
            TexturePixelKind::R16 | TexturePixelKind::RG8 => 2,
            TexturePixelKind::RGB8 | TexturePixelKind::BGR8 => 3,
            TexturePixelKind::RGBA8 | TexturePixelKind::BGRA8 | TexturePixelKind::RG16 => 4,
            TexturePixelKind::RGB16 => 6,
            TexturePixelKind::RGBA16 => 8,
            TexturePixelKind::DXT1RGB | TexturePixelKind::DXT1RGBA => 8,
            TexturePixelKind::DXT3RGBA | TexturePixelKind::DXT5RGBA => 16,
        };
        assert(count * unit <= 0xffff_ffff * 0xffff_ffff * 0xffff_ffff * 16) by (nonlinear_arith)
            requires
                count <= 0xffff_ffff * 0xffff_ffff * 0xffff_ffff,
                unit <= 16,
        ;
        let required: u128 = count * unit;
        if required != bytes.len() as u128 {
            Err(())
        } else {
            Ok(
                TextureData {
                    path: String::new(),
                    kind,
                    bytes,
                    pixel_kind,
                    minification_filter: TextureMinificationFilter::LinearMipMapLinear,
                    magnification_filter: TextureMagnificationFilter::Linear,
                    s_wrap_mode: TextureWrapMode::Repeat,
                    t_wrap_mode: TextureWrapMode::Repeat,
                    mip_count: 1,
                    anisotropy: F32_SIXTEEN,
                },
            )
        }
    }
}

} // verus!
