//! Surfaces: shared geometry bound to material textures, a tint colour and
//! skinning bones; and the builder that makes them.
use vstd::prelude::*;
use std::collections::hash_map::DefaultHasher;
use std::hash::Hasher;
use vstd::std_specs::hash::DefaultHasherAdditionalSpecFns;
use crate::store::SurfaceDataHandle;

verus! {

/// Reference to a shared texture, known by its identity key.
#[derive(Clone, Copy, Debug, PartialEq, Eq, Structural, Hash)]
pub struct Texture {
    pub key: u64,
}

impl Texture {
    /// Identity key of the texture.
    pub fn key(&self) -> (r: u64)
        ensures
            r == self.key,
    {
        self.key
    }
}

/// Reference to a scene node (a bone); nodes are not owned.
#[derive(Clone, Copy, Debug, PartialEq, Eq, Structural, Hash)]
pub struct NodeHandle {
    pub index: u32,
    pub generation: u32,
}

impl NodeHandle {
    /// The handle that refers to no node.
    pub fn none() -> (r: Self)
        ensures
            r.index == 0 && r.generation == 0,
    {
        NodeHandle { index: 0, generation: 0 }
    }
}

/// RGBA colour, one byte per channel.
#[derive(Clone, Copy, Debug, PartialEq, Eq, Structural, Hash)]
pub struct Color {
    pub r: u8,
    pub g: u8,
    pub b: u8,
    pub a: u8,
}

impl Color {
    pub open spec fn spec_white() -> Color {
        Color { r: 255, g: 255, b: 255, a: 255 }
    }

    /// Opaque white.
    pub fn white() -> (r: Color)
        ensures
            r == Self::spec_white(),
    {
        Color { r: 255, g: 255, b: 255, a: 255 }
    }
}

/// One bone influence on a vertex.
#[derive(Clone, Copy, Debug, PartialEq, Eq, Structural)]
pub struct VertexWeight {
    /// Weight, as the bits of a single-precision number in [0, 1].
    pub value: u32,
    /// The influencing node.
    pub effector: NodeHandle,
}

/// Most influences one vertex keeps.
pub const MAX_WEIGHTS: usize = 4;

/// Up to four bone influences on one vertex.
#[derive(Clone, Debug)]
pub struct VertexWeightSet {
    weights: Vec<VertexWeight>,
}

impl View for VertexWeightSet {
    type V = Seq<VertexWeight>;

    closed spec fn view(&self) -> Seq<VertexWeight> {
        self.weights@
    }
}

impl VertexWeightSet {
    pub closed spec fn wf(&self) -> bool {
        self.weights@.len() <= MAX_WEIGHTS
    }

    /// Empty set.
    pub fn new() -> (r: Self)
        ensures
            r.wf(),
            r@ == Seq::<VertexWeight>::empty(),
    {
        VertexWeightSet { weights: Vec::new() }
    }

    /// Adds `weight` if fewer than four are held; tells whether it did.
    pub fn push(&mut self, weight: VertexWeight) -> (r: bool)
        requires
            old(self).wf(),
        ensures
            final(self).wf(),
            final(self)@.len() <= MAX_WEIGHTS,
            r == (old(self)@.len() < MAX_WEIGHTS),
            r ==> final(self)@ == old(self)@.push(weight),
            !r ==> final(self)@ == old(self)@,
    {
        if self.weights.len() < MAX_WEIGHTS {
            self.weights.push(weight);
            true
        } else {
            false
        }
    }

    /// Number of weights held.
    pub fn len(&self) -> (r: usize)
        requires
            self.wf(),
        ensures
            r == self@.len(),
            r <= MAX_WEIGHTS,
    {
        self.weights.len()
    }

    /// Whether no weight is held.
    pub fn is_empty(&self) -> (r: bool)
        ensures
            r == (self@.len() == 0),
    {
        self.weights.len() == 0
    }

    /// The weights in insertion order.
    pub fn iter(&self) -> (r: &[VertexWeight])
        ensures
            r@ == self@,
    {
        self.weights.as_slice()
    }

    /// Sets the value of weight `i`; false (and no change) when there is none.
    pub fn set_value(&mut self, i: usize, value: u32) -> (r: bool)
        requires
            old(self).wf(),
        ensures
            final(self).wf(),
            final(self)@.len() <= MAX_WEIGHTS,
            r == (i < old(self)@.len()),
            r ==> final(self)@ == old(self)@.update(
                i as int,
                VertexWeight { value, effector: old(self)@[i as int].effector },
            ),
            !r ==> final(self)@ == old(self)@,
    {
        if i < self.weights.len() {
            let effector = self.weights[i].effector;
            self.weights.set(i, VertexWeight { value, effector });
            true
        } else {
            false
        }
    }
}

/// Little-endian bytes of a 64-bit value.
pub open spec fn u64_bytes(x: u64) -> Seq<u8> {
    seq![
        (x & 0xff) as u8,
        ((x >> 8u64) & 0xff) as u8,
        ((x >> 16u64) & 0xff) as u8,
        ((x >> 24u64) & 0xff) as u8,
        ((x >> 32u64) & 0xff) as u8,
        ((x >> 40u64) & 0xff) as u8,
        ((x >> 48u64) & 0xff) as u8,
        ((x >> 56u64) & 0xff) as u8,
    ]
}

fn u64_to_bytes(x: u64) -> (r: Vec<u8>)
    ensures
        r@ == u64_bytes(x),
{
    let r = vec![
        (x & 0xff) as u8,
        ((x >> 8u64) & 0xff) as u8,
        ((x >> 16u64) & 0xff) as u8,
        ((x >> 24u64) & 0xff) as u8,
        ((x >> 32u64) & 0xff) as u8,
        ((x >> 40u64) & 0xff) as u8,
        ((x >> 48u64) & 0xff) as u8,
        ((x >> 56u64) & 0xff) as u8,
    ];
    assert(r@ =~= u64_bytes(x));
    r
}

/// Bytes hashed for a texture slot: the key of a bound texture, nothing for an empty slot.
pub open spec fn slot_writes(t: Option<Texture>) -> Seq<Seq<u8>> {
    match t {
        Some(t) => seq![u64_bytes(t.key)],
        None => Seq::empty(),
    }
}

/// Drawable unit: shared surface data, up to six textures, a tint colour and bones.
#[derive(Debug)]
pub struct Surface {
    /// Empty only in the placeholder state, which never reaches a renderer.
    pub data: Option<SurfaceDataHandle>,
    pub diffuse_texture: Option<Texture>,
    pub normal_texture: Option<Texture>,
    pub lightmap_texture: Option<Texture>,
    pub specular_texture: Option<Texture>,
    pub roughness_texture: Option<Texture>,
    pub height_texture: Option<Texture>,
    /// Per-vertex skinning influences, used while importing; never persisted.
    pub vertex_weights: Vec<VertexWeightSet>,
    /// Nodes used as bones.
    pub bones: Vec<NodeHandle>,
    pub color: Color,
}

pub(crate) fn copy_bones(s: &[NodeHandle]) -> (r: Vec<NodeHandle>)
    ensures
        r@ == s@,
{
    let mut out: Vec<NodeHandle> = Vec::new();
    let mut k: usize = 0;
    while k < s.len()
        invariant
            k <= s@.len(),
            out@ =~= s@.subrange(0, k as int),
        decreases s@.len() - k,
    {
        out.push(s[k]);
        k += 1;
    }
    assert(s@.subrange(0, s@.len() as int) =~= s@);
    out
}

/// Shallow copy: the same shared data, textures, colour and bones; vertex
/// weights, which serve only while importing, are not copied. Bone handles
/// may need remapping afterwards.
impl Clone for Surface {
    fn clone(&self) -> (r: Self)
        ensures
            r.data == self.data,
            r.diffuse_texture == self.diffuse_texture,
            r.normal_texture == self.normal_texture,
            r.lightmap_texture == self.lightmap_texture,
            r.specular_texture == self.specular_texture,
            r.roughness_texture == self.roughness_texture,
            r.height_texture == self.height_texture,
            r.bones@ == self.bones@,
            r.color == self.color,
            r.vertex_weights@.len() == 0,
    {
        Surface {
            data: self.data,
            diffuse_texture: self.diffuse_texture,
            normal_texture: self.normal_texture,
            lightmap_texture: self.lightmap_texture,
            specular_texture: self.specular_texture,
            roughness_texture: self.roughness_texture,
            height_texture: self.height_texture,
            vertex_weights: Vec::new(),
            bones: copy_bones(self.bones.as_slice()),
            color: self.color,
        }
    }
}

/// The placeholder state: no data (it must not reach a renderer), no
/// textures or bones, tinted white.
impl Default for Surface {
    fn default() -> (r: Self)
        ensures
            r.data is None,
            r.diffuse_texture is None,
            r.normal_texture is None,
            r.lightmap_texture is None,
            r.specular_texture is None,
            r.roughness_texture is None,
            r.height_texture is None,
            r.vertex_weights@.len() == 0,
            r.bones@.len() == 0,
            r.color == Color::spec_white(),
    {
        Surface {
            data: None,
            diffuse_texture: None,
            normal_texture: None,
            lightmap_texture: None,
            specular_texture: None,
            roughness_texture: None,
            height_texture: None,
            vertex_weights: Vec::new(),
            bones: Vec::new(),
            color: Color::white(),
        }
    }
}

impl Default for VertexWeight {
    fn default() -> (r: Self)
        ensures
            r.value == 0 && r.effector == (NodeHandle { index: 0, generation: 0 }),
    {
        VertexWeight { value: 0, effector: NodeHandle::none() }
    }
}

impl Default for VertexWeightSet {
    fn default() -> (r: Self)
        ensures
            r.wf(),
            r@ == Seq::<VertexWeight>::empty(),
    {
        VertexWeightSet::new()
    }
}

impl Surface {
    /// What `batch_id` hashes: the data's handle, then the key of each bound
    /// texture in the order diffuse, normal, specular, roughness, lightmap, height.
    pub open spec fn batch_writes(&self) -> Seq<Seq<u8>> {
        seq![u64_bytes(self.data->Some_0.index as u64)] + slot_writes(self.diffuse_texture)
            + slot_writes(self.normal_texture) + slot_writes(self.specular_texture) + slot_writes(
            self.roughness_texture,
        ) + slot_writes(self.lightmap_texture) + slot_writes(self.height_texture)
    }

    /// Surface drawing `data` with no texture or bone, tinted white.
    pub fn new(data: SurfaceDataHandle) -> (r: Self)
        ensures
            r.data == Some(data),
            r.diffuse_texture is None,
            r.normal_texture is None,
            r.lightmap_texture is None,
            r.specular_texture is None,
            r.roughness_texture is None,
            r.height_texture is None,
            r.vertex_weights@.len() == 0,
            r.bones@.len() == 0,
            r.color == Color::spec_white(),
    {
        Surface {
            data: Some(data),
            diffuse_texture: None,
            normal_texture: None,
            lightmap_texture: None,
            specular_texture: None,
            roughness_texture: None,
            height_texture: None,
            vertex_weights: Vec::new(),
            bones: Vec::new(),
            color: Color::white(),
        }
    }

    /// Key by which a renderer groups surfaces into one batch: the identity
    /// of the shared data and the keys of the bound textures.
    pub fn batch_id(&self) -> (r: u64)
        requires
            self.data is Some,
        ensures
            r == DefaultHasher::spec_finish(self.batch_writes()),
    {
        let mut hasher = DefaultHasher::new();
        let data = self.data.unwrap();
        let bytes = u64_to_bytes(data.index as u64);
        hasher.write(bytes.as_slice());
        let ghost start = hasher@;
        assert(start =~= seq![u64_bytes(data.index as u64)]);
        hash_slot(&mut hasher, self.diffuse_texture);
        hash_slot(&mut hasher, self.normal_texture);
        hash_slot(&mut hasher, self.specular_texture);
        hash_slot(&mut hasher, self.roughness_texture);
        hash_slot(&mut hasher, self.lightmap_texture);
        hash_slot(&mut hasher, self.height_texture);
        assert(hasher@ =~= self.batch_writes());
        hasher.finish()
    }

    /// The shared data drawn.
    pub fn data(&self) -> (r: SurfaceDataHandle)
        requires
            self.data is Some,
        ensures
            r == self.data->Some_0,
    {
        self.data.unwrap()
    }

    pub fn set_diffuse_texture(&mut self, tex: Option<Texture>)
        ensures
            *final(self) == (Surface { diffuse_texture: tex, ..*old(self) }),
    {
        self.diffuse_texture = tex;
    }

    pub fn diffuse_texture(&self) -> (r: Option<Texture>)
        ensures
            r == self.diffuse_texture,
    {
        self.diffuse_texture
    }

    pub fn diffuse_texture_ref(&self) -> (r: Option<&Texture>)
        ensures
            r is Some == self.diffuse_texture is Some,
            r is Some ==> *r->Some_0 == self.diffuse_texture->Some_0,
    {
        self.diffuse_texture.as_ref()
    }

    pub fn set_normal_texture(&mut self, tex: Option<Texture>)
        ensures
            *final(self) == (Surface { normal_texture: tex, ..*old(self) }),
    {
        self.normal_texture = tex;
    }

    pub fn normal_texture(&self) -> (r: Option<Texture>)
        ensures
            r == self.normal_texture,
    {
        self.normal_texture
    }

    pub fn normal_texture_ref(&self) -> (r: Option<&Texture>)
        ensures
            r is Some == self.normal_texture is Some,
            r is Some ==> *r->Some_0 == self.normal_texture->Some_0,
    {
        self.normal_texture.as_ref()
    }

    pub fn set_specular_texture(&mut self, tex: Option<Texture>)
        ensures
            *final(self) == (Surface { specular_texture: tex, ..*old(self) }),
    {
        self.specular_texture = tex;
    }

    pub fn specular_texture(&self) -> (r: Option<Texture>)
        ensures
            r == self.specular_texture,
    {
        self.specular_texture
    }

    pub fn specular_texture_ref(&self) -> (r: Option<&Texture>)
        ensures
            r is Some == self.specular_texture is Some,
            r is Some ==> *r->Some_0 == self.specular_texture->Some_0,
    {
        self.specular_texture.as_ref()
    }

    pub fn set_roughness_texture(&mut self, tex: Option<Texture>)
        ensures
            *final(self) == (Surface { roughness_texture: tex, ..*old(self) }),
    {
        self.roughness_texture = tex;
    }

    pub fn roughness_texture(&self) -> (r: Option<Texture>)
        ensures
            r == self.roughness_texture,
    {
        self.roughness_texture
    }

    pub fn roughness_texture_ref(&self) -> (r: Option<&Texture>)
        ensures
            r is Some == self.roughness_texture is Some,
            r is Some ==> *r->Some_0 == self.roughness_texture->Some_0,
    {
        self.roughness_texture.as_ref()
    }

    pub fn set_lightmap_texture(&mut self, tex: Option<Texture>)
        ensures
            *final(self) == (Surface { lightmap_texture: tex, ..*old(self) }),
    {
        self.lightmap_texture = tex;
    }

    pub fn lightmap_texture(&self) -> (r: Option<Texture>)
        ensures
            r == self.lightmap_texture,
    {
        self.lightmap_texture
    }

    pub fn lightmap_texture_ref(&self) -> (r: Option<&Texture>)
        ensures
            r is Some == self.lightmap_texture is Some,
            r is Some ==> *r->Some_0 == self.lightmap_texture->Some_0,
    {
        self.lightmap_texture.as_ref()
    }

    pub fn set_height_texture(&mut self, tex: Option<Texture>)
        ensures
            *final(self) == (Surface { height_texture: tex, ..*old(self) }),
    {
        self.height_texture = tex;
    }

    pub fn height_texture(&self) -> (r: Option<Texture>)
        ensures
            r == self.height_texture,
    {
        self.height_texture
    }

    pub fn height_texture_ref(&self) -> (r: Option<&Texture>)
        ensures
            r is Some == self.height_texture is Some,
            r is Some ==> *r->Some_0 == self.height_texture->Some_0,
    {
        self.height_texture.as_ref()
    }

    /// Sets the tint; a translucent alpha needs the forward render path.
    pub fn set_color(&mut self, color: Color)
        ensures
            *final(self) == (Surface { color, ..*old(self) }),
    {
        self.color = color;
    }

    pub fn color(&self) -> (r: Color)
        ensures
            r == self.color,
    {
        self.color
    }

    /// Nodes used as bones.
    pub fn bones(&self) -> (r: &[NodeHandle])
        ensures
            r@ == self.bones@,
    {
        self.bones.as_slice()
    }
}

fn hash_slot(hasher: &mut DefaultHasher, t: Option<Texture>)
    ensures
        final(hasher)@ == old(hasher)@ + slot_writes(t),
{
    match t {
        Some(t) => {
            let bytes = u64_to_bytes(t.key());
            hasher.write(bytes.as_slice());
            assert(final(hasher)@ =~= old(hasher)@ + slot_writes(Some(t)));
        },
        None => {
            assert(old(hasher)@ + slot_writes(None) =~= old(hasher)@);
        },
    }
}

/// Declarative construction of a `Surface`.
pub struct SurfaceBuilder {
    pub data: SurfaceDataHandle,
    pub diffuse_texture: Option<Texture>,
    pub normal_texture: Option<Texture>,
    pub lightmap_texture: Option<Texture>,
    pub specular_texture: Option<Texture>,
    pub roughness_texture: Option<Texture>,
    pub height_texture: Option<Texture>,
    pub bones: Vec<NodeHandle>,
    pub color: Color,
}

impl SurfaceBuilder {
    /// Builder for a surface drawing `data`, with no texture or bone, tinted white.
    pub fn new(data: SurfaceDataHandle) -> (r: Self)
        ensures
            r.data == data,
            r.diffuse_texture is None,
            r.normal_texture is None,
            r.lightmap_texture is None,
            r.specular_texture is None,
            r.roughness_texture is None,
            r.height_texture is None,
            r.bones@.len() == 0,
            r.color == Color::spec_white(),
    {
        SurfaceBuilder {
            data,
            diffuse_texture: None,
            normal_texture: None,
            lightmap_texture: None,
            specular_texture: None,
            roughness_texture: None,
            height_texture: None,
            bones: Vec::new(),
            color: Color::white(),
        }
    }

    pub fn with_diffuse_texture(self, tex: Texture) -> (r: Self)
        ensures
            r == (SurfaceBuilder { diffuse_texture: Some(tex), ..self }),
    {
        SurfaceBuilder { diffuse_texture: Some(tex), ..self }
    }

    pub fn with_normal_texture(self, tex: Texture) -> (r: Self)
        ensures
            r == (SurfaceBuilder { normal_texture: Some(tex), ..self }),
    {
        SurfaceBuilder { normal_texture: Some(tex), ..self }
    }

    pub fn with_lightmap_texture(self, tex: Texture) -> (r: Self)
        ensures
            r == (SurfaceBuilder { lightmap_texture: Some(tex), ..self }),
    {
        SurfaceBuilder { lightmap_texture: Some(tex), ..self }
    }

    pub fn with_specular_texture(self, tex: Texture) -> (r: Self)
        ensures
            r == (SurfaceBuilder { specular_texture: Some(tex), ..self }),
    {
        SurfaceBuilder { specular_texture: Some(tex), ..self }
    }

    pub fn with_roughness_texture(self, tex: Texture) -> (r: Self)
        ensures
            r == (SurfaceBuilder { roughness_texture: Some(tex), ..self }),
    {
        SurfaceBuilder { roughness_texture: Some(tex), ..self }
    }

    pub fn with_height_texture(self, tex: Texture) -> (r: Self)
        ensures
            r == (SurfaceBuilder { height_texture: Some(tex), ..self }),
    {
        SurfaceBuilder { height_texture: Some(tex), ..self }
    }

    pub fn with_color(self, color: Color) -> (r: Self)
        ensures
            r == (SurfaceBuilder { color, ..self }),
    {
        SurfaceBuilder { color, ..self }
    }

    pub fn with_bones(self, bones: Vec<NodeHandle>) -> (r: Self)
        ensures
            r == (SurfaceBuilder { bones, ..self }),
    {
        SurfaceBuilder { bones, ..self }
    }

    /// The surface with everything set on the builder and no vertex weights.
    pub fn build(self) -> (r: Surface)
        ensures
            r.data == Some(self.data),
            r.diffuse_texture == self.diffuse_texture,
            r.normal_texture == self.normal_texture,
            r.lightmap_texture == self.lightmap_texture,
            r.specular_texture == self.specular_texture,
            r.roughness_texture == self.roughness_texture,
            r.height_texture == self.height_texture,
            r.bones == self.bones,
            r.color == self.color,
            r.vertex_weights@.len() == 0,
    {
        Surface {
            data: Some(self.data),
            diffuse_texture: self.diffuse_texture,
            normal_texture: self.normal_texture,
            lightmap_texture: self.lightmap_texture,
            specular_texture: self.specular_texture,
            roughness_texture: self.roughness_texture,
            height_texture: self.height_texture,
            vertex_weights: Vec::new(),
            bones: self.bones,
            color: self.color,
        }
    }
}

/// Two surfaces with the same data handle and the same textures in every
/// slot get the same batch key, whatever their colour or bones.
pub proof fn lemma_batch_id_same_bindings(a: &Surface, b: &Surface)
    requires
        a.data is Some,
        a.data == b.data,
        a.diffuse_texture == b.diffuse_texture,
        a.normal_texture == b.normal_texture,
        a.specular_texture == b.specular_texture,
        a.roughness_texture == b.roughness_texture,
        a.lightmap_texture == b.lightmap_texture,
        a.height_texture == b.height_texture,
    ensures
        DefaultHasher::spec_finish(a.batch_writes()) == DefaultHasher::spec_finish(
            b.batch_writes(),
        ),
{
}

} // verus!
