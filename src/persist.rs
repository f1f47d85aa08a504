//! Persistence records. Each persisted structure is a region of named fields;
//! a field that was not found reads as `None`. Enumerations are stored as a
//! stable tag followed by the fields of the tagged variant. A missing required
//! field, or an unknown tag, fails the region and names it; fields added later
//! are read on a best-effort basis and fall back to their defaults.
use vstd::prelude::*;
use crate::buffer::{
    GeometryBuffer, TriangleDefinition, VertexAttributeDescriptor, VertexBuffer,
    placed, valid_layout, layout_stride,
};
use crate::material::{Color, NodeHandle, Surface, Texture, copy_bones};
use crate::store::SurfaceDataHandle;
use crate::surface::{RawMesh, StaticVertex, SurfaceData, vertices_words, static_layout};
use crate::texture::{
    F32_SIXTEEN, TextureData, TextureKind, TextureMagnificationFilter,
    TextureMinificationFilter, TexturePixelKind, TextureWrapMode,
};

verus! {

/// Name of a persisted region.
#[derive(Clone, Copy, Debug, PartialEq, Eq, Structural)]
pub enum RegionName {
    TextureKind,
    TextureData,
    SurfaceData,
    Surface,
}

/// Name of a persisted field.
#[derive(Clone, Copy, Debug, PartialEq, Eq, Structural)]
pub enum FieldName {
    Id,
    Length,
    Width,
    Height,
    Depth,
    KindId,
    Path,
    IsProcedural,
    Vertices,
    Triangles,
    Data,
    NormalTexture,
    DiffuseTexture,
    SpecularTexture,
    RoughnessTexture,
    HeightTexture,
    Color,
    Bones,
}

/// Why a region could not be read.
#[derive(Clone, Copy, Debug, PartialEq, Eq, Structural)]
pub enum VisitError {
    /// A required field is absent.
    FieldMissing { region: RegionName, field: FieldName },
    /// A tag names no variant.
    UnknownDiscriminant { region: RegionName, id: u32 },
}

/// Persisted `TextureKind`: the tag, then the extent fields of its variant.
#[derive(Clone, Copy, Debug, PartialEq, Eq, Structural)]
pub struct TextureKindRecord {
    pub id: Option<u32>,
    pub length: Option<u32>,
    pub width: Option<u32>,
    pub height: Option<u32>,
    pub depth: Option<u32>,
}

pub open spec fn missing<T>(region: RegionName, field: FieldName) -> Result<T, VisitError> {
    Err(VisitError::FieldMissing { region, field })
}

impl TextureKindRecord {
    /// The record that saving `k` writes.
    pub fn save(k: TextureKind) -> (r: Self)
        ensures
            r.load_spec() == Ok::<TextureKind, VisitError>(k),
            r.id == Some(k.spec_id()),
    {
        match k {
            TextureKind::Line { length } => TextureKindRecord {
                id: Some(0),
                length: Some(length),
                width: None,
                height: None,
                depth: None,
            },
            TextureKind::Rectangle { width, height } => TextureKindRecord {
                id: Some(1),
                length: None,
                width: Some(width),
                height: Some(height),
                depth: None,
            },
            TextureKind::Cube { width, height } => TextureKindRecord {
                id: Some(2),
                length: None,
                width: Some(width),
                height: Some(height),
                depth: None,
            },
            TextureKind::Volume { width, height, depth } => TextureKindRecord {
                id: Some(3),
                length: None,
                width: Some(width),
                height: Some(height),
                depth: Some(depth),
            },
        }
    }

    /// What loading the record gives.
    pub open spec fn load_spec(&self) -> Result<TextureKind, VisitError> {
        let reg = RegionName::TextureKind;
        match self.id {
            None => missing(reg, FieldName::Id),
            Some(id) => if id == 0 {
                match self.length {
                    Some(length) => Ok(TextureKind::Line { length }),
                    None => missing(reg, FieldName::Length),
                }
            } else if id == 1 || id == 2 || id == 3 {
                match (self.width, self.height) {
                    (None, _) => missing(reg, FieldName::Width),
                    (Some(_), None) => missing(reg, FieldName::Height),
                    (Some(width), Some(height)) => if id == 1 {
                        Ok(TextureKind::Rectangle { width, height })
                    } else if id == 2 {
                        Ok(TextureKind::Cube { width, height })
                    } else {
                        match self.depth {
                            Some(depth) => Ok(TextureKind::Volume { width, height, depth }),
                            None => missing(reg, FieldName::Depth),
                        }
                    },
                }
            } else {
                Err(VisitError::UnknownDiscriminant { region: reg, id })
            },
        }
    }

    /// Reads the kind back.
    pub fn load(&self) -> (r: Result<TextureKind, VisitError>)
        ensures
            r == self.load_spec(),
    {
        let reg = RegionName::TextureKind;
        let id = match self.id {
            None => {
                return Err(VisitError::FieldMissing { region: reg, field: FieldName::Id });
            },
            Some(id) => id,
        };
        if id == 0 {
            return match self.length {
                Some(length) => Ok(TextureKind::Line { length }),
                None => Err(VisitError::FieldMissing { region: reg, field: FieldName::Length }),
            };
        }
        if id > 3 {
            return Err(VisitError::UnknownDiscriminant { region: reg, id });
        }
        let width = match self.width {
            Some(w) => w,
            None => {
                return Err(VisitError::FieldMissing { region: reg, field: FieldName::Width });
            },
        };
        let height = match self.height {
            Some(h) => h,
            None => {
                return Err(VisitError::FieldMissing { region: reg, field: FieldName::Height });
            },
        };
        if id == 1 {
            Ok(TextureKind::Rectangle { width, height })
        } else if id == 2 {
            Ok(TextureKind::Cube { width, height })
        } else {
            match self.depth {
                Some(depth) => Ok(TextureKind::Volume { width, height, depth }),
                None => Err(VisitError::FieldMissing { region: reg, field: FieldName::Depth }),
            }
        }
    }
}

/// Persisted `TextureData`. The pixel bytes are not persisted: they come
/// back from the file at `path`.
#[derive(Clone, Debug)]
pub struct TextureDataRecord {
    pub kind_id: Option<u32>,
    pub path: Option<String>,
    pub minification_filter: Option<u32>,
    pub magnification_filter: Option<u32>,
    pub anisotropy: Option<u32>,
    pub s_wrap_mode: Option<u32>,
    pub t_wrap_mode: Option<u32>,
    pub mip_count: Option<u32>,
    pub kind: Option<TextureKindRecord>,
}

/// A best-effort field: the stored value when it decodes, else the default.
pub open spec fn or_default<T>(decoded: Option<T>, default: T) -> T {
    match decoded {
        Some(v) => v,
        None => default,
    }
}

pub open spec fn decoded<T>(id: Option<u32>, decode: spec_fn(u32) -> Option<T>) -> Option<T> {
    match id {
        Some(id) => decode(id),
        None => None,
    }
}

impl TextureDataRecord {
    /// The record that saving `t` writes.
    pub fn save(t: &TextureData) -> (r: Self)
        ensures
            r.kind_id == Some(t.pixel_kind.spec_id()),
            r.path is Some && r.path->Some_0@ == t.path@,
            r.minification_filter == Some(t.minification_filter.spec_id()),
            r.magnification_filter == Some(t.magnification_filter.spec_id()),
            r.anisotropy == Some(t.anisotropy),
            r.s_wrap_mode == Some(t.s_wrap_mode.spec_id()),
            r.t_wrap_mode == Some(t.t_wrap_mode.spec_id()),
            r.mip_count == Some(t.mip_count),
            r.kind is Some && r.kind->Some_0.load_spec() == Ok::<TextureKind, VisitError>(t.kind),
    {
        TextureDataRecord {
            kind_id: Some(t.pixel_kind.id()),
            path: Some(t.path.clone()),
            minification_filter: Some(t.minification_filter.id()),
            magnification_filter: Some(t.magnification_filter.id()),
            anisotropy: Some(t.anisotropy),
            s_wrap_mode: Some(t.s_wrap_mode.id()),
            t_wrap_mode: Some(t.t_wrap_mode.id()),
            mip_count: Some(t.mip_count),
            kind: Some(TextureKindRecord::save(t.kind)),
        }
    }

    /// Reads the texture settings back, with no pixel bytes. The pixel
    /// format and the path are required; every other field that is absent
    /// or does not decode keeps its default.
    pub fn load(self) -> (r: Result<TextureData, VisitError>)
        ensures
            self.kind_id is None ==> r == missing::<TextureData>(
                RegionName::TextureData,
                FieldName::KindId,
            ),
            self.kind_id is Some && self.kind_id->Some_0 >= 14 ==> r == Err::<
                TextureData,
                VisitError,
            >(
                VisitError::UnknownDiscriminant {
                    region: RegionName::TextureData,
                    id: self.kind_id->Some_0,
                },
            ),
            self.kind_id is Some && self.kind_id->Some_0 < 14 && self.path is None ==> r
                == missing::<TextureData>(RegionName::TextureData, FieldName::Path),
            r is Ok <==> self.kind_id is Some && self.kind_id->Some_0 < 14 && self.path is Some,
            r is Ok ==> ({
                let t = r->Ok_0;
                &&& t.pixel_kind.spec_id() == self.kind_id->Some_0
                &&& t.path@ == self.path->Some_0@
                &&& t.bytes@.len() == 0
                &&& t.minification_filter == or_default(
                    decoded(self.minification_filter, |id: u32| TextureMinificationFilter::spec_from_id(id)),
                    TextureMinificationFilter::LinearMipMapLinear,
                )
                &&& t.magnification_filter == or_default(
                    decoded(self.magnification_filter, |id: u32| TextureMagnificationFilter::spec_from_id(id)),
                    TextureMagnificationFilter::Linear,
                )
                &&& t.s_wrap_mode == or_default(
                    decoded(self.s_wrap_mode, |id: u32| TextureWrapMode::spec_from_id(id)),
                    TextureWrapMode::Repeat,
                )
                &&& t.t_wrap_mode == or_default(
                    decoded(self.t_wrap_mode, |id: u32| TextureWrapMode::spec_from_id(id)),
                    TextureWrapMode::Repeat,
                )
                &&& t.anisotropy == or_default(self.anisotropy, F32_SIXTEEN)
                &&& t.mip_count == or_default(self.mip_count, 1)
                &&& t.kind == match self.kind {
                    Some(k) => match k.load_spec() {
                        Ok(kind) => kind,
                        Err(_) => TextureKind::Rectangle { width: 0, height: 0 },
                    },
                    None => TextureKind::Rectangle { width: 0, height: 0 },
                }
            }),
    {
        let reg = RegionName::TextureData;
        let pixel_kind = match self.kind_id {
            None => {
                return Err(VisitError::FieldMissing { region: reg, field: FieldName::KindId });
            },
            Some(id) => match TexturePixelKind::new(id) {
                Ok(p) => p,
                Err(id) => {
                    return Err(VisitError::UnknownDiscriminant { region: reg, id });
                },
            },
        };
        let path = match self.path {
            None => {
                return Err(VisitError::FieldMissing { region: reg, field: FieldName::Path });
            },
            Some(p) => p,
        };
        let minification_filter = match self.minification_filter {
            Some(id) => match TextureMinificationFilter::from_id(id) {
                Some(f) => f,
                None => TextureMinificationFilter::LinearMipMapLinear,
            },
            None => TextureMinificationFilter::LinearMipMapLinear,
        };
        let magnification_filter = match self.magnification_filter {
            Some(id) => match TextureMagnificationFilter::from_id(id) {
                Some(f) => f,
                None => TextureMagnificationFilter::Linear,
            },
            None => TextureMagnificationFilter::Linear,
        };
        let s_wrap_mode = match self.s_wrap_mode {
            Some(id) => match TextureWrapMode::from_id(id) {
                Some(m) => m,
                None => TextureWrapMode::Repeat,
            },
            None => TextureWrapMode::Repeat,
        };
        let t_wrap_mode = match self.t_wrap_mode {
            Some(id) => match TextureWrapMode::from_id(id) {
                Some(m) => m,
                None => TextureWrapMode::Repeat,
            },
            None => TextureWrapMode::Repeat,
        };
        let anisotropy = match self.anisotropy {
            Some(a) => a,
            None => F32_SIXTEEN,
        };
        let mip_count = match self.mip_count {
            Some(m) => m,
            None => 1,
        };
        let kind = match self.kind {
            Some(k) => match k.load() {
                Ok(kind) => kind,
                Err(_) => TextureKind::Rectangle { width: 0, height: 0 },
            },
            None => TextureKind::Rectangle { width: 0, height: 0 },
        };
        Ok(
            TextureData {
                path,
                kind,
                bytes: Vec::new(),
                pixel_kind,
                minification_filter,
                magnification_filter,
                s_wrap_mode,
                t_wrap_mode,
                mip_count,
                anisotropy,
            },
        )
    }
}

/// Persisted vertex buffer: its declarations, vertex count and words.
#[derive(Clone, Debug)]
pub struct VertexBufferRecord {
    pub vertex_count: usize,
    pub layout: Vec<VertexAttributeDescriptor>,
    pub data: Vec<u32>,
}

/// Persisted `SurfaceData`. `vertices` and `triangles` are the flat lists
/// of the older format, read only when the structured buffers are absent.
#[derive(Clone, Debug)]
pub struct SurfaceDataRecord {
    pub is_procedural: Option<bool>,
    pub vertex_buffer: Option<VertexBufferRecord>,
    pub geometry_buffer: Option<Vec<TriangleDefinition>>,
    pub vertices: Option<Vec<StaticVertex>>,
    pub triangles: Option<Vec<TriangleDefinition>>,
}

/// Whether a persisted vertex buffer is one that can be rebuilt.
pub open spec fn buffer_record_ok(r: VertexBufferRecord) -> bool {
    valid_layout(r.layout@) && r.data@.len() == r.vertex_count * layout_stride(r.layout@)
}

fn copy_words(s: &[u32]) -> (r: Vec<u32>)
    ensures
        r@ == s@,
{
    let mut out: Vec<u32> = Vec::new();
    let mut k: usize = 0;
    while k < s.len()
        invariant
            k <= s@.len(),
            out@ =~= s@.subrange(0, k as int),
        decreases s@.len() - k,
    {
        out.push(s[k]);
        k += 1;
    }
    assert(s@.subrange(0, s@.len() as int) =~= s@);
    out
}

fn copy_triangles(s: &[TriangleDefinition]) -> (r: Vec<TriangleDefinition>)
    ensures
        r@ == s@,
{
    let mut out: Vec<TriangleDefinition> = Vec::new();
    let mut k: usize = 0;
    while k < s.len()
        invariant
            k <= s@.len(),
            out@ =~= s@.subrange(0, k as int),
        decreases s@.len() - k,
    {
        out.push(s[k]);
        k += 1;
    }
    assert(s@.subrange(0, s@.len() as int) =~= s@);
    out
}

impl SurfaceDataRecord {
    /// The record that saving `d` writes: buffers inline for procedural
    /// data, only the flag otherwise.
    pub fn save(d: &SurfaceData) -> (r: Self)
        requires
            d.wf(),
        ensures
            r.is_procedural == Some(d.is_procedural),
            r.vertices is None && r.triangles is None,
            d.is_procedural ==> r.vertex_buffer is Some && r.geometry_buffer is Some
                && r.geometry_buffer->Some_0@ == d.geometry_buffer.spec_triangles(),
            d.is_procedural ==> ({
                let b = r.vertex_buffer->Some_0;
                &&& buffer_record_ok(b)
                &&& b.vertex_count == d.vertex_buffer.spec_vertex_count()
                &&& placed(b.layout@) == d.vertex_buffer.spec_layout()
                &&& b.data@ == d.vertex_buffer.spec_data()
            }),
            !d.is_procedural ==> r.vertex_buffer is None && r.geometry_buffer is None,
    {
        if d.is_procedural {
            let layout = d.vertex_buffer.descriptors();
            let data = copy_words(d.vertex_buffer.raw_data());
            proof {
                d.vertex_buffer.lemma_wf_layout();
            }
            SurfaceDataRecord {
                is_procedural: Some(true),
                vertex_buffer: Some(
                    VertexBufferRecord {
                        vertex_count: d.vertex_buffer.vertex_count(),
                        layout,
                        data,
                    },
                ),
                geometry_buffer: Some(copy_triangles(d.geometry_buffer.triangles_ref())),
                vertices: None,
                triangles: None,
            }
        } else {
            SurfaceDataRecord {
                is_procedural: Some(false),
                vertex_buffer: None,
                geometry_buffer: None,
                vertices: None,
                triangles: None,
            }
        }
    }

    /// Reads surface data back. The flag is required. Procedural data takes
    /// its vertices from the structured buffer when that is present and
    /// valid, else from the flat list, and its triangles likewise; each of
    /// the two must come from one or the other. Other data gets empty buffers,
    /// to be filled from its asset.
    pub fn load(self) -> (r: Result<SurfaceData, VisitError>)
        requires
            self.vertices is Some ==> self.vertices->Some_0@.len() <= usize::MAX / 12,
        ensures
            self.is_procedural is None ==> r == missing::<SurfaceData>(
                RegionName::SurfaceData,
                FieldName::IsProcedural,
            ),
            self.is_procedural == Some(false) ==> r is Ok && r->Ok_0.wf()
                && !r->Ok_0.is_procedural && r->Ok_0.vertex_buffer.spec_vertex_count() == 0
                && r->Ok_0.vertex_buffer.spec_layout().len() == 0
                && r->Ok_0.geometry_buffer.spec_triangles().len() == 0,
            self.is_procedural == Some(true) ==> ({
                let structured = self.vertex_buffer is Some && buffer_record_ok(
                    self.vertex_buffer->Some_0,
                );
                &&& r is Ok <==> (structured || self.vertices is Some) && (
                self.geometry_buffer is Some || self.triangles is Some)
                &&& !structured && self.vertices is None ==> r == missing::<SurfaceData>(
                    RegionName::SurfaceData,
                    FieldName::Vertices,
                )
                &&& (structured || self.vertices is Some) && self.geometry_buffer is None
                    && self.triangles is None ==> r == missing::<SurfaceData>(
                    RegionName::SurfaceData,
                    FieldName::Triangles,
                )
                &&& r is Ok ==> r->Ok_0.wf() && r->Ok_0.is_procedural
                &&& r is Ok && structured ==> ({
                    let b = self.vertex_buffer->Some_0;
                    &&& r->Ok_0.vertex_buffer.spec_vertex_count() == b.vertex_count
                    &&& r->Ok_0.vertex_buffer.spec_layout() == placed(b.layout@)
                    &&& r->Ok_0.vertex_buffer.spec_data() == b.data@
                })
                &&& r is Ok && !structured ==> ({
                    let vs = self.vertices->Some_0@;
                    &&& r->Ok_0.vertex_buffer.spec_vertex_count() == vs.len()
                    &&& r->Ok_0.vertex_buffer.spec_layout() == placed(static_layout())
                    &&& r->Ok_0.vertex_buffer.spec_data() == vertices_words(vs)
                })
                &&& r is Ok ==> r->Ok_0.geometry_buffer.spec_triangles() == match self.geometry_buffer {
                    Some(g) => g@,
                    None => self.triangles->Some_0@,
                }
            }),
    {
        let reg = RegionName::SurfaceData;
        let procedural = match self.is_procedural {
            None => {
                return Err(VisitError::FieldMissing { region: reg, field: FieldName::IsProcedural });
            },
            Some(p) => p,
        };
        if !procedural {
            let empty = VertexBuffer::new(0, &[], Vec::new());
            proof {
                assert(valid_layout(Seq::<VertexAttributeDescriptor>::empty()));
                assert(layout_stride(Seq::<VertexAttributeDescriptor>::empty()) == 0);
            }
            return Ok(
                SurfaceData::new(empty.unwrap(), GeometryBuffer::new(Vec::new()), false),
            );
        }
        let structured = match self.vertex_buffer {
            Some(b) => match VertexBuffer::new(b.vertex_count, b.layout.as_slice(), b.data) {
                Ok(vb) => Some(vb),
                Err(_) => None,
            },
            None => None,
        };
        let vertex_buffer = match structured {
            Some(vb) => vb,
            None => match self.vertices {
                Some(vs) => {
                    let legacy = SurfaceData::from_raw_mesh(
                        RawMesh { vertices: vs, triangles: Vec::new() },
                        true,
                    );
                    legacy.vertex_buffer
                },
                None => {
                    return Err(VisitError::FieldMissing { region: reg, field: FieldName::Vertices });
                },
            },
        };
        let triangles = match self.geometry_buffer {
            Some(g) => g,
            None => match self.triangles {
                Some(t) => t,
                None => {
                    return Err(
                        VisitError::FieldMissing { region: reg, field: FieldName::Triangles },
                    );
                },
            },
        };
        Ok(SurfaceData::new(vertex_buffer, GeometryBuffer::new(triangles), true))
    }
}

/// Persisted `Surface`. The lightmap slot was added after the others and
/// is stored last; vertex weights are never stored.
#[derive(Clone, Debug)]
pub struct SurfaceRecord {
    pub data: Option<SurfaceDataHandle>,
    pub normal_texture: Option<Option<Texture>>,
    pub diffuse_texture: Option<Option<Texture>>,
    pub specular_texture: Option<Option<Texture>>,
    pub roughness_texture: Option<Option<Texture>>,
    pub height_texture: Option<Option<Texture>>,
    pub color: Option<Color>,
    pub bones: Option<Vec<NodeHandle>>,
    pub lightmap_texture: Option<Option<Texture>>,
}

impl SurfaceRecord {
    /// The record that saving `s` writes: every field but the vertex weights.
    pub fn save(s: &Surface) -> (r: Self)
        ensures
            r.data == s.data,
            r.normal_texture == Some(s.normal_texture),
            r.diffuse_texture == Some(s.diffuse_texture),
            r.specular_texture == Some(s.specular_texture),
            r.roughness_texture == Some(s.roughness_texture),
            r.height_texture == Some(s.height_texture),
            r.color == Some(s.color),
            r.bones is Some && r.bones->Some_0@ == s.bones@,
            r.lightmap_texture == Some(s.lightmap_texture),
    {
        SurfaceRecord {
            data: s.data,
            normal_texture: Some(s.normal_texture),
            diffuse_texture: Some(s.diffuse_texture),
            specular_texture: Some(s.specular_texture),
            roughness_texture: Some(s.roughness_texture),
            height_texture: Some(s.height_texture),
            color: Some(s.color),
            bones: Some(copy_bones(s.bones.as_slice())),
            lightmap_texture: Some(s.lightmap_texture),
        }
    }

    /// The first required field that is absent, in stored order.
    pub open spec fn first_missing(&self) -> Option<FieldName> {
        if self.data is None {
            Some(FieldName::Data)
        } else if self.normal_texture is None {
            Some(FieldName::NormalTexture)
        } else if self.diffuse_texture is None {
            Some(FieldName::DiffuseTexture)
        } else if self.specular_texture is None {
            Some(FieldName::SpecularTexture)
        } else if self.roughness_texture is None {
            Some(FieldName::RoughnessTexture)
        } else if self.height_texture is None {
            Some(FieldName::HeightTexture)
        } else if self.color is None {
            Some(FieldName::Color)
        } else if self.bones is None {
            Some(FieldName::Bones)
        } else {
            None
        }
    }

    /// Reads the surface back. Every field but the lightmap is required; an
    /// absent lightmap leaves the slot empty. Vertex weights come back empty.
    pub fn load(self) -> (r: Result<Surface, VisitError>)
        ensures
            self.first_missing() is Some ==> r == missing::<Surface>(
                RegionName::Surface,
                self.first_missing()->Some_0,
            ),
            self.first_missing() is None ==> r is Ok && ({
                let s = r->Ok_0;
                &&& s.data == self.data
                &&& s.normal_texture == self.normal_texture->Some_0
                &&& s.diffuse_texture == self.diffuse_texture->Some_0
                &&& s.specular_texture == self.specular_texture->Some_0
                &&& s.roughness_texture == self.roughness_texture->Some_0
                &&& s.height_texture == self.height_texture->Some_0
                &&& s.color == self.color->Some_0
                &&& s.bones@ == self.bones->Some_0@
                &&& s.lightmap_texture == or_default(self.lightmap_texture, None)
                &&& s.vertex_weights@.len() == 0
            }),
    {
        let reg = RegionName::Surface;
        if self.data.is_none() {
            return Err(VisitError::FieldMissing { region: reg, field: FieldName::Data });
        }
        let normal_texture = match self.normal_texture {
            Some(t) => t,
            None => {
                return Err(VisitError::FieldMissing { region: reg, field: FieldName::NormalTexture });
            },
        };
        let diffuse_texture = match self.diffuse_texture {
            Some(t) => t,
            None => {
                return Err(VisitError::FieldMissing { region: reg, field: FieldName::DiffuseTexture });
            },
        };
        let specular_texture = match self.specular_texture {
            Some(t) => t,
            None => {
                return Err(
                    VisitError::FieldMissing { region: reg, field: FieldName::SpecularTexture },
                );
            },
        };
        let roughness_texture = match self.roughness_texture {
            Some(t) => t,
            None => {
                return Err(
                    VisitError::FieldMissing { region: reg, field: FieldName::RoughnessTexture },
                );
            },
        };
        let height_texture = match self.height_texture {
            Some(t) => t,
            None => {
                return Err(VisitError::FieldMissing { region: reg, field: FieldName::HeightTexture });
            },
        };
        let color = match self.color {
            Some(c) => c,
            None => {
                return Err(VisitError::FieldMissing { region: reg, field: FieldName::Color });
            },
        };
        let bones = match self.bones {
            Some(b) => b,
            None => {
                return Err(VisitError::FieldMissing { region: reg, field: FieldName::Bones });
            },
        };
        let lightmap_texture = match self.lightmap_texture {
            Some(t) => t,
            None => None,
        };
        Ok(
            Surface {
                data: self.data,
                diffuse_texture,
                normal_texture,
                lightmap_texture,
                specular_texture,
                roughness_texture,
                height_texture,
                vertex_weights: Vec::new(),
                bones,
                color,
            },
        )
    }
}

} // verus!
