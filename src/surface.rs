//! Surface data: one vertex buffer and one index buffer, shared between the
//! surfaces that draw it, with the primitive shapes built from constants.
use vstd::prelude::*;
use std::collections::hash_map::DefaultHasher;
use std::hash::Hasher;
use vstd::std_specs::hash::DefaultHasherAdditionalSpecFns;
use crate::buffer::{
    GeometryBuffer, TriangleDefinition, VertexAttributeDescriptor, VertexAttributeUsage,
    VertexBuffer, VertexFetchError, attribute_check, indices_in_range, layout_stride, valid_layout,
    words_le_bytes, triangle_words,
};

verus! {

/// Bit pattern of the single-precision number 0.0.
pub const ZERO: u32 = 0;

/// Bit pattern of the single-precision number 1.0.
pub const ONE: u32 = 0x3f80_0000;

/// Bit pattern of the single-precision number -1.0.
pub const MINUS_ONE: u32 = 0xbf80_0000;

/// Bit pattern of the single-precision number 0.5.
pub const HALF: u32 = 0x3f00_0000;

/// Bit pattern of the single-precision number -0.5.
pub const MINUS_HALF: u32 = 0xbf00_0000;

/// Vertex with position, texture coordinates, normal and tangent; each
/// component is the bit pattern of a single-precision number.
#[derive(Clone, Copy, Debug, PartialEq, Eq)]
pub struct StaticVertex {
    pub position: [u32; 3],
    pub tex_coord: [u32; 2],
    pub normal: [u32; 3],
    pub tangent: [u32; 4],
}

/// Layout of a `StaticVertex` record: position, texture coordinates, normal, tangent.
pub open spec fn static_layout() -> Seq<VertexAttributeDescriptor> {
    seq![
        VertexAttributeDescriptor { usage: VertexAttributeUsage::Position, size: 3 },
        VertexAttributeDescriptor { usage: VertexAttributeUsage::TexCoord0, size: 2 },
        VertexAttributeDescriptor { usage: VertexAttributeUsage::Normal, size: 3 },
        VertexAttributeDescriptor { usage: VertexAttributeUsage::Tangent, size: 4 },
    ]
}

proof fn lemma_static_layout()
    ensures
        valid_layout(static_layout()),
        layout_stride(static_layout()) == 12,
{
    let l = static_layout();
    let l3 = l.drop_last();
    let l2 = l3.drop_last();
    let l1 = l2.drop_last();
    let l0 = l1.drop_last();
    assert(l0 =~= Seq::<VertexAttributeDescriptor>::empty());
    assert(layout_stride(l0) == 0);
    assert(layout_stride(l1) == 3);
    assert(layout_stride(l2) == 5);
    assert(layout_stride(l3) == 8);
    assert(layout_stride(l) == 12);
}

impl StaticVertex {
    /// The words of the record, in layout order.
    pub open spec fn spec_words(self) -> Seq<u32> {
        self.position@ + self.tex_coord@ + self.normal@ + self.tangent@
    }

    /// Vertex with a zero tangent, to be filled in later.
    pub fn from_pos_uv_normal(position: [u32; 3], tex_coord: [u32; 2], normal: [u32; 3]) -> (r:
        Self)
        ensures
            r == (StaticVertex { position, tex_coord, normal, tangent: [ZERO, ZERO, ZERO, ZERO] }),
    {
        StaticVertex { position, tex_coord, normal, tangent: [ZERO, ZERO, ZERO, ZERO] }
    }

    /// Attribute layout of the record.
    pub fn layout() -> (r: Vec<VertexAttributeDescriptor>)
        ensures
            r@ == static_layout(),
    {
        let r = vec![
            VertexAttributeDescriptor { usage: VertexAttributeUsage::Position, size: 3 },
            VertexAttributeDescriptor { usage: VertexAttributeUsage::TexCoord0, size: 2 },
            VertexAttributeDescriptor { usage: VertexAttributeUsage::Normal, size: 3 },
            VertexAttributeDescriptor { usage: VertexAttributeUsage::Tangent, size: 4 },
        ];
        assert(r@ =~= static_layout());
        r
    }
}

/// Words of a sequence of vertices, record after record.
pub open spec fn vertices_words(vs: Seq<StaticVertex>) -> Seq<u32>
    decreases vs.len(),
{
    if vs.len() == 0 {
        Seq::empty()
    } else {
        vertices_words(vs.drop_last()) + vs.last().spec_words()
    }
}

proof fn lemma_vertices_words_len(vs: Seq<StaticVertex>)
    ensures
        vertices_words(vs).len() == 12 * vs.len(),
    decreases vs.len(),
{
    if vs.len() > 0 {
        lemma_vertices_words_len(vs.drop_last());
    }
}

/// Words of `vs`, record after record.
pub fn vertices_to_words(vs: &[StaticVertex]) -> (r: Vec<u32>)
    ensures
        r@ == vertices_words(vs@),
        r@.len() == 12 * vs@.len(),
{
    let mut out: Vec<u32> = Vec::new();
    let mut k: usize = 0;
    while k < vs.len()
        invariant
            k <= vs@.len(),
            out@ == vertices_words(vs@.subrange(0, k as int)),
        decreases vs@.len() - k,
    {
        let v = vs[k];
        out.push(v.position[0]);
        out.push(v.position[1]);
        out.push(v.position[2]);
        out.push(v.tex_coord[0]);
        out.push(v.tex_coord[1]);
        out.push(v.normal[0]);
        out.push(v.normal[1]);
        out.push(v.normal[2]);
        out.push(v.tangent[0]);
        out.push(v.tangent[1]);
        out.push(v.tangent[2]);
        out.push(v.tangent[3]);
        proof {
            assert(vs@.subrange(0, k as int + 1).drop_last() =~= vs@.subrange(0, k as int));
        }
        k += 1;
        assert(out@ =~= vertices_words(vs@.subrange(0, k as int)));
    }
    assert(vs@.subrange(0, vs@.len() as int) =~= vs@);
    proof {
        lemma_vertices_words_len(vs@);
    }
    out
}

/// Vertices and triangles as a generator produces them.
pub struct RawMesh {
    pub vertices: Vec<StaticVertex>,
    pub triangles: Vec<TriangleDefinition>,
}

/// Data source of surfaces: one vertex buffer and one index buffer.
#[derive(Clone, Debug)]
pub struct SurfaceData {
    pub vertex_buffer: VertexBuffer,
    pub geometry_buffer: GeometryBuffer,
    /// Generated in-process (and persisted inline) rather than loaded from an asset.
    pub is_procedural: bool,
}

/// Empty, non-procedural data.
impl Default for SurfaceData {
    fn default() -> (r: Self)
        ensures
            r.wf(),
            r.vertex_buffer.spec_vertex_count() == 0,
            r.vertex_buffer.spec_layout().len() == 0,
            r.geometry_buffer.spec_triangles().len() == 0,
            !r.is_procedural,
    {
        SurfaceData {
            vertex_buffer: VertexBuffer::default(),
            geometry_buffer: GeometryBuffer::default(),
            is_procedural: false,
        }
    }
}

impl SurfaceData {
    pub open spec fn wf(&self) -> bool {
        self.vertex_buffer.wf()
    }

    pub open spec fn spec_is_procedural(&self) -> bool {
        self.is_procedural
    }

    /// Holds `vs` in `StaticVertex` layout and the triangles `ts`.
    pub open spec fn holds(&self, vs: Seq<StaticVertex>, ts: Seq<TriangleDefinition>) -> bool {
        &&& self.wf()
        &&& self.vertex_buffer.spec_vertex_count() == vs.len()
        &&& self.vertex_buffer.spec_stride() == 12
        &&& self.vertex_buffer.spec_data() == vertices_words(vs)
        &&& self.vertex_buffer.spec_layout() == crate::buffer::placed(static_layout())
        &&& self.geometry_buffer.spec_triangles() == ts
    }

    /// Data made of the given buffers.
    pub fn new(vertex_buffer: VertexBuffer, triangles: GeometryBuffer, is_procedural: bool) -> (r:
        Self)
        ensures
            r.vertex_buffer == vertex_buffer,
            r.geometry_buffer == triangles,
            r.spec_is_procedural() == is_procedural,
    {
        SurfaceData { vertex_buffer, geometry_buffer: triangles, is_procedural }
    }

    /// Whether the data was generated in-process.
    pub fn is_procedural(&self) -> (r: bool)
        ensures
            r == self.spec_is_procedural(),
    {
        self.is_procedural
    }

    /// Data holding the vertices and triangles of a raw mesh.
    pub fn from_raw_mesh(raw: RawMesh, is_procedural: bool) -> (r: Self)
        requires
            raw.vertices@.len() <= usize::MAX / 12,
        ensures
            r.holds(raw.vertices@, raw.triangles@),
            r.spec_is_procedural() == is_procedural,
    {
        let count = raw.vertices.len();
        let words = vertices_to_words(raw.vertices.as_slice());
        let layout = StaticVertex::layout();
        proof {
            lemma_static_layout();
        }
        let vertex_buffer = VertexBuffer::new(count, layout.as_slice(), words).unwrap();
        SurfaceData {
            vertex_buffer,
            geometry_buffer: GeometryBuffer::new(raw.triangles),
            is_procedural,
        }
    }

    /// Quad on the XY plane from (0, 0) to (1, 1), facing +Z, tangents zero.
    pub fn make_unit_xy_quad() -> (r: Self)
        ensures
            r.holds(unit_xy_quad_vertices(), quad_triangles()),
            r.spec_is_procedural(),
    {
        let vertices = vec![
            StaticVertex::from_pos_uv_normal([ZERO, ZERO, ZERO], [ZERO, ONE], [ZERO, ZERO, ONE]),
            StaticVertex::from_pos_uv_normal([ONE, ZERO, ZERO], [ONE, ONE], [ZERO, ZERO, ONE]),
            StaticVertex::from_pos_uv_normal([ONE, ONE, ZERO], [ONE, ZERO], [ZERO, ZERO, ONE]),
            StaticVertex::from_pos_uv_normal([ZERO, ONE, ZERO], [ZERO, ZERO], [ZERO, ZERO, ONE]),
        ];
        assert(vertices@ =~= unit_xy_quad_vertices());
        let triangles = vec![TriangleDefinition([0, 1, 2]), TriangleDefinition([0, 2, 3])];
        assert(triangles@ =~= quad_triangles());
        Self::from_raw_mesh(RawMesh { vertices, triangles }, true)
    }

    /// Quad whose four corners sit at the origin; a sprite shader pushes the
    /// corners apart so that the sprite faces the camera.
    pub fn make_collapsed_xy_quad() -> (r: Self)
        ensures
            r.holds(collapsed_xy_quad_vertices(), quad_triangles()),
            r.spec_is_procedural(),
    {
        let vertices = vec![
            StaticVertex::from_pos_uv_normal([ZERO, ZERO, ZERO], [ZERO, ZERO], [ZERO, ZERO, ONE]),
            StaticVertex::from_pos_uv_normal([ZERO, ZERO, ZERO], [ONE, ZERO], [ZERO, ZERO, ONE]),
            StaticVertex::from_pos_uv_normal([ZERO, ZERO, ZERO], [ONE, ONE], [ZERO, ZERO, ONE]),
            StaticVertex::from_pos_uv_normal([ZERO, ZERO, ZERO], [ZERO, ONE], [ZERO, ZERO, ONE]),
        ];
        assert(vertices@ =~= collapsed_xy_quad_vertices());
        let triangles = vec![TriangleDefinition([0, 1, 2]), TriangleDefinition([0, 2, 3])];
        assert(triangles@ =~= quad_triangles());
        Self::from_raw_mesh(RawMesh { vertices, triangles }, true)
    }

    /// Unit quad on the XY plane centred at the origin, facing -Z, tangents zero.
    pub fn make_centered_xy_quad() -> (r: Self)
        ensures
            r.holds(centered_xy_quad_vertices(), quad_triangles()),
            r.spec_is_procedural(),
    {
        let n = [ZERO, ZERO, MINUS_ONE];
        let vertices = vec![
            StaticVertex::from_pos_uv_normal([MINUS_HALF, HALF, ZERO], [ONE, ONE], n),
            StaticVertex::from_pos_uv_normal([HALF, HALF, ZERO], [ZERO, ONE], n),
            StaticVertex::from_pos_uv_normal([HALF, MINUS_HALF, ZERO], [ZERO, ZERO], n),
            StaticVertex::from_pos_uv_normal([MINUS_HALF, MINUS_HALF, ZERO], [ONE, ZERO], n),
        ];
        assert(vertices@ =~= centered_xy_quad_vertices());
        let triangles = vec![TriangleDefinition([0, 1, 2]), TriangleDefinition([0, 2, 3])];
        assert(triangles@ =~= quad_triangles());
        Self::from_raw_mesh(RawMesh { vertices, triangles }, true)
    }

    /// Unit cube centred at the origin: four vertices per face so that each
    /// face has its own normal and texture coordinates, two triangles per
    /// face; tangents zero.
    pub fn make_unit_cube() -> (r: Self)
        ensures
            r.holds(unit_cube_vertices(), unit_cube_triangles()),
            r.spec_is_procedural(),
    {
        let nz = [ZERO, ZERO, ONE];
        let mnz = [ZERO, ZERO, MINUS_ONE];
        let nx = [ONE, ZERO, ZERO];
        let mnx = [MINUS_ONE, ZERO, ZERO];
        let ny = [ZERO, ONE, ZERO];
        let mny = [ZERO, MINUS_ONE, ZERO];
        let t00 = [ZERO, ZERO];
        let t01 = [ZERO, ONE];
        let t11 = [ONE, ONE];
        let t10 = [ONE, ZERO];
        let (h, m) = (HALF, MINUS_HALF);
        let vertices = vec![
            // front
            StaticVertex::from_pos_uv_normal([m, m, h], t00, nz),
            StaticVertex::from_pos_uv_normal([m, h, h], t01, nz),
            StaticVertex::from_pos_uv_normal([h, h, h], t11, nz),
            StaticVertex::from_pos_uv_normal([h, m, h], t10, nz),
            // back
            StaticVertex::from_pos_uv_normal([m, m, m], t00, mnz),
            StaticVertex::from_pos_uv_normal([m, h, m], t01, mnz),
            StaticVertex::from_pos_uv_normal([h, h, m], t11, mnz),
            StaticVertex::from_pos_uv_normal([h, m, m], t10, mnz),
            // left
            StaticVertex::from_pos_uv_normal([m, m, m], t00, mnx),
            StaticVertex::from_pos_uv_normal([m, h, m], t01, mnx),
            StaticVertex::from_pos_uv_normal([m, h, h], t11, mnx),
            StaticVertex::from_pos_uv_normal([m, m, h], t10, mnx),
            // right
            StaticVertex::from_pos_uv_normal([h, m, m], t00, nx),
            StaticVertex::from_pos_uv_normal([h, h, m], t01, nx),
            StaticVertex::from_pos_uv_normal([h, h, h], t11, nx),
            StaticVertex::from_pos_uv_normal([h, m, h], t10, nx),
            // top
            StaticVertex::from_pos_uv_normal([m, h, h], t00, ny),
            StaticVertex::from_pos_uv_normal([m, h, m], t01, ny),
            StaticVertex::from_pos_uv_normal([h, h, m], t11, ny),
            StaticVertex::from_pos_uv_normal([h, h, h], t10, ny),
            // bottom
            StaticVertex::from_pos_uv_normal([m, m, h], t00, mny),
            StaticVertex::from_pos_uv_normal([m, m, m], t01, mny),
            StaticVertex::from_pos_uv_normal([h, m, m], t11, mny),
            StaticVertex::from_pos_uv_normal([h, m, h], t10, mny),
        ];
        assert(vertices@ =~= unit_cube_vertices());
        let triangles = vec![
            TriangleDefinition([2, 1, 0]),
            TriangleDefinition([3, 2, 0]),
            TriangleDefinition([4, 5, 6]),
            TriangleDefinition([4, 6, 7]),
            TriangleDefinition([10, 9, 8]),
            TriangleDefinition([11, 10, 8]),
            TriangleDefinition([12, 13, 14]),
            TriangleDefinition([12, 14, 15]),
            TriangleDefinition([18, 17, 16]),
            TriangleDefinition([19, 18, 16]),
            TriangleDefinition([20, 21, 22]),
            TriangleDefinition([20, 22, 23]),
        ];
        assert(triangles@ =~= unit_cube_triangles());
        Self::from_raw_mesh(RawMesh { vertices, triangles }, true)
    }

    /// Fails with the index of a vertex that some triangle names and that
    /// does not exist.
    pub fn check_indices(&self) -> (r: Result<(), VertexFetchError>)
        ensures
            r is Ok <==> indices_in_range(
                self.geometry_buffer.spec_triangles(),
                self.vertex_buffer.spec_vertex_count(),
            ),
            r is Err ==> r->Err_0 is IndexOutOfRange && r->Err_0->IndexOutOfRange_0
                >= self.vertex_buffer.spec_vertex_count(),
    {
        let ts = self.geometry_buffer.triangles_ref();
        let count = self.vertex_buffer.vertex_count();
        let mut k: usize = 0;
        while k < ts.len()
            invariant
                k <= ts@.len(),
                ts@ == self.geometry_buffer.spec_triangles(),
                count == self.vertex_buffer.spec_vertex_count(),
                forall|m: int, c: int| 0 <= m < k && 0 <= c < 3 ==> (#[trigger] ts@[m].0[c]) < count,
            decreases ts@.len() - k,
        {
            let t = ts[k];
            let mut c: usize = 0;
            while c < 3
                invariant
                    c <= 3,
                    k < ts@.len(),
                    t == ts@[k as int],
                    ts@ == self.geometry_buffer.spec_triangles(),
                    count == self.vertex_buffer.spec_vertex_count(),
                    forall|e: int| 0 <= e < c ==> (#[trigger] t.0[e]) < count,
                decreases 3 - c,
            {
                if t.0[c] as usize >= count {
                    proof {
                        assert(!(ts@[k as int].0[c as int] < count));
                        assert(!indices_in_range(ts@, count as nat));
                    }
                    return Err(VertexFetchError::IndexOutOfRange(t.0[c] as usize));
                }
                c += 1;
            }
            k += 1;
        }
        Ok(())
    }

    /// Per-face normals: for each triangle in order, `face_normal` of its
    /// three positions is written to the normals of its three vertices, so a
    /// vertex shared by several triangles keeps the last one's. Without
    /// triangles nothing is read and nothing changes. Otherwise it fails, and
    /// changes nothing, when positions or normals lack three components or
    /// a triangle names a vertex that does not exist.
    pub fn calculate_normals<F: Fn([u32; 3], [u32; 3], [u32; 3]) -> [u32; 3]>(
        &mut self,
        face_normal: F,
    ) -> (r: Result<(), VertexFetchError>)
        requires
            old(self).wf(),
            forall|a: [u32; 3], b: [u32; 3], c: [u32; 3]| face_normal.requires((a, b, c)),
        ensures
            final(self).wf(),
            r is Ok <==> old(self).geometry_buffer.spec_triangles().len() == 0 || normals_inputs_ok(
                old(self),
            ),
            r is Err ==> *final(self) == *old(self),
            old(self).geometry_buffer.spec_triangles().len() == 0 ==> *final(self) == *old(self),
            old(self).geometry_buffer.spec_triangles().len() > 0 && attribute_check(
                old(self).vertex_buffer.spec_layout(),
                VertexAttributeUsage::Position,
                3,
            ) is Err ==> r == attribute_check(old(self).vertex_buffer.spec_layout(), VertexAttributeUsage::Position, 3),
            r is Ok ==> ({
                let before = old(self).vertex_buffer;
                let after = final(self).vertex_buffer;
                let ts = old(self).geometry_buffer.spec_triangles();
                &&& final(self).geometry_buffer == old(self).geometry_buffer
                &&& final(self).is_procedural == old(self).is_procedural
                &&& before.with_data(&after, after.spec_data())
                &&& forall|v: int, u: VertexAttributeUsage, n: nat|
                    u != VertexAttributeUsage::Normal ==> #[trigger] after.spec_read(v, u, n)
                        == before.spec_read(v, u, n)
                &&& forall|v: int|
                    0 <= v < before.spec_vertex_count() && last_triangle_with(ts, v) == -1
                        ==> #[trigger] after.spec_read(v, VertexAttributeUsage::Normal, 3)
                        == before.spec_read(v, VertexAttributeUsage::Normal, 3)
                &&& forall|v: int|
                    0 <= v < before.spec_vertex_count() && #[trigger] last_triangle_with(ts, v)
                        >= 0 ==> ({
                        let t = ts[last_triangle_with(ts, v)];
                        let nv = as3(after.spec_read(v, VertexAttributeUsage::Normal, 3));
                        &&& after.spec_read(v, VertexAttributeUsage::Normal, 3) is Ok
                        &&& face_normal.ensures(
                            (
                                as3(before.spec_read(t.0[0] as int, VertexAttributeUsage::Position, 3)),
                                as3(before.spec_read(t.0[1] as int, VertexAttributeUsage::Position, 3)),
                                as3(before.spec_read(t.0[2] as int, VertexAttributeUsage::Position, 3)),
                            ),
                            nv,
                        )
                    })
                &&& forall|v: int, w: int|
                    0 <= v < before.spec_vertex_count() && 0 <= w < before.spec_vertex_count()
                        && #[trigger] last_triangle_with(ts, v) >= 0 && last_triangle_with(ts, v)
                        == #[trigger] last_triangle_with(ts, w) ==> after.spec_read(
                        v,
                        VertexAttributeUsage::Normal,
                        3,
                    ) == after.spec_read(w, VertexAttributeUsage::Normal, 3)
            }),
    {
        if self.geometry_buffer.is_empty() {
            return Ok(());
        }
        self.vertex_buffer.check_attribute(VertexAttributeUsage::Position, 3)?;
        self.vertex_buffer.check_attribute(VertexAttributeUsage::Normal, 3)?;
        self.check_indices()?;
        let count = self.vertex_buffer.vertex_count();
        let ghost before = self.vertex_buffer;
        let ghost ts = self.geometry_buffer.spec_triangles();
        // Gather positions and current normals.
        let mut positions: Vec<[u32; 3]> = Vec::new();
        let mut normals: Vec<[u32; 3]> = Vec::new();
        let mut v: usize = 0;
        while v < count
            invariant
                v <= count,
                count == before.spec_vertex_count(),
                self.vertex_buffer == before,
                *self == *old(self),
                before.wf(),
                attribute_check(before.spec_layout(), VertexAttributeUsage::Position, 3) is Ok,
                attribute_check(before.spec_layout(), VertexAttributeUsage::Normal, 3) is Ok,
                positions@.len() == v,
                normals@.len() == v,
                forall|w: int| 0 <= w < v ==> #[trigger] positions@[w] == as3(
                    before.spec_read(w, VertexAttributeUsage::Position, 3),
                ),
                forall|w: int| 0 <= w < v ==> #[trigger] normals@[w] == as3(
                    before.spec_read(w, VertexAttributeUsage::Normal, 3),
                ),
            decreases count - v,
        {
            let p = self.vertex_buffer.read_3(v, VertexAttributeUsage::Position);
            let n = self.vertex_buffer.read_3(v, VertexAttributeUsage::Normal);
            match (p, n) {
                (Ok(p), Ok(n)) => {
                    positions.push(p);
                    normals.push(n);
                },
                _ => {
                    assert(false);
                    return Err(VertexFetchError::IndexOutOfRange(v));
                },
            }
            v += 1;
        }
        let ghost initial = normals@;
        // One face normal per triangle, the last write to a vertex winning.
        let tris = self.geometry_buffer.triangles_ref();
        let ghost mut outs: Seq<[u32; 3]> = Seq::empty();
        let mut k: usize = 0;
        while k < tris.len()
            invariant
                k <= tris@.len(),
                tris@ == ts,
                *self == *old(self),
                before == old(self).vertex_buffer,
                indices_in_range(ts, count as nat),
                positions@.len() == count,
                normals@.len() == count,
                outs.len() == k,
                forall|w: int| 0 <= w < count ==> #[trigger] positions@[w] == as3(
                    before.spec_read(w, VertexAttributeUsage::Position, 3),
                ),
                forall|w: int|
                    0 <= w < count ==> #[trigger] normals@[w] == if last_triangle_with(
                        ts.subrange(0, k as int),
                        w,
                    ) == -1 {
                        initial[w]
                    } else {
                        outs[last_triangle_with(ts.subrange(0, k as int), w)]
                    },
                forall|m: int|
                    0 <= m < k ==> face_normal.ensures(
                        (
                            positions@[ts[m].0[0] as int],
                            positions@[ts[m].0[1] as int],
                            positions@[ts[m].0[2] as int],
                        ),
                        #[trigger] outs[m],
                    ),
                forall|a: [u32; 3], b: [u32; 3], c: [u32; 3]| face_normal.requires((a, b, c)),
            decreases tris@.len() - k,
        {
            let t = tris[k];
            assert(t.0[0] < count && t.0[1] < count && t.0[2] < count) by {
                assert(ts[k as int].0[0] < count);
                assert(ts[k as int].0[1] < count);
                assert(ts[k as int].0[2] < count);
            }
            let ia = t.0[0] as usize;
            let ib = t.0[1] as usize;
            let ic = t.0[2] as usize;
            let n = face_normal(positions[ia], positions[ib], positions[ic]);
            normals.set(ia, n);
            normals.set(ib, n);
            normals.set(ic, n);
            proof {
                outs = outs.push(n);
                assert(ts.subrange(0, k as int + 1).drop_last() =~= ts.subrange(0, k as int));
                assert(ts.subrange(0, k as int + 1).last() == t);
                assert forall|w: int| 0 <= w < count implies #[trigger] normals@[w] == if last_triangle_with(
                    ts.subrange(0, k as int + 1),
                    w,
                ) == -1 {
                    initial[w]
                } else {
                    outs[last_triangle_with(ts.subrange(0, k as int + 1), w)]
                } by {
                    lemma_last_triangle_with_range(ts.subrange(0, k as int), w);
                }
            }
            k += 1;
        }
        assert(ts.subrange(0, ts.len() as int) =~= ts);
        // Write the normals back.
        let mut v: usize = 0;
        while v < count
            invariant
                v <= count,
                count == before.spec_vertex_count(),
                before.wf(),
                self.vertex_buffer.wf(),
                before.with_data(&self.vertex_buffer, self.vertex_buffer.spec_data()),
                attribute_check(before.spec_layout(), VertexAttributeUsage::Normal, 3) is Ok,
                normals@.len() == count,
                self.geometry_buffer.spec_triangles() == ts,
                self.geometry_buffer == old(self).geometry_buffer,
                self.is_procedural == old(self).is_procedural,
                before == old(self).vertex_buffer,
                forall|w: int| 0 <= w < v ==> #[trigger] self.vertex_buffer.spec_read(w, VertexAttributeUsage::Normal, 3)
                    == Ok::<Seq<u32>, VertexFetchError>(normals@[w]@),
                forall|w: int, u: VertexAttributeUsage, n: nat|
                    (u != VertexAttributeUsage::Normal || w >= v) ==> #[trigger] self.vertex_buffer.spec_read(w, u, n)
                        == before.spec_read(w, u, n),
            decreases count - v,
        {
            let ghost prev = self.vertex_buffer;
            let nv = normals[v];
            let w = self.vertex_buffer.write(v, VertexAttributeUsage::Normal, &nv);
            proof {
                assert(w is Ok);
                assert forall|x: int, u: VertexAttributeUsage, n: nat|
                    (x != v || u != VertexAttributeUsage::Normal) implies #[trigger] self.vertex_buffer.spec_read(x, u, n)
                        == prev.spec_read(x, u, n) by {
                    prev.lemma_read_after_write(&self.vertex_buffer, v as int, VertexAttributeUsage::Normal, nv@, x, u, n);
                }
                prev.lemma_read_after_write(&self.vertex_buffer, v as int, VertexAttributeUsage::Normal, nv@, v as int, VertexAttributeUsage::Normal, 3);
            }
            v += 1;
        }
        proof {
            assert forall|v: int|
                0 <= v < count && #[trigger] last_triangle_with(ts, v) >= 0 implies ({
                    let t = ts[last_triangle_with(ts, v)];
                    let nv = as3(self.vertex_buffer.spec_read(v, VertexAttributeUsage::Normal, 3));
                    &&& self.vertex_buffer.spec_read(v, VertexAttributeUsage::Normal, 3) is Ok
                    &&& face_normal.ensures(
                        (
                            as3(before.spec_read(t.0[0] as int, VertexAttributeUsage::Position, 3)),
                            as3(before.spec_read(t.0[1] as int, VertexAttributeUsage::Position, 3)),
                            as3(before.spec_read(t.0[2] as int, VertexAttributeUsage::Position, 3)),
                        ),
                        nv,
                    )
                }) by {
                lemma_last_triangle_with_range(ts, v);
                let m = last_triangle_with(ts, v);
                let t = ts[m];
                assert(t.0[0] < count && t.0[1] < count && t.0[2] < count);
                assert(as3(self.vertex_buffer.spec_read(v, VertexAttributeUsage::Normal, 3)) =~= normals@[v]);
                assert(normals@[v] == outs[m]);
                assert(face_normal.ensures(
                    (
                        positions@[t.0[0] as int],
                        positions@[t.0[1] as int],
                        positions@[t.0[2] as int],
                    ),
                    outs[m],
                ));
            }
            assert forall|v: int|
                0 <= v < count && last_triangle_with(ts, v) == -1 implies #[trigger] self.vertex_buffer.spec_read(v, VertexAttributeUsage::Normal, 3)
                    == before.spec_read(v, VertexAttributeUsage::Normal, 3) by {
                assert(normals@[v] == initial[v]);
                assert(before.spec_read(v, VertexAttributeUsage::Normal, 3)->Ok_0 =~= initial[v]@);
            }
            assert forall|v: int, w: int|
                0 <= v < count && 0 <= w < count && #[trigger] last_triangle_with(ts, v) >= 0
                    && last_triangle_with(ts, v) == #[trigger] last_triangle_with(ts, w) implies self.vertex_buffer.spec_read(
                    v,
                    VertexAttributeUsage::Normal,
                    3,
                ) == self.vertex_buffer.spec_read(w, VertexAttributeUsage::Normal, 3) by {
                assert(normals@[v] == normals@[w]);
            }
            assert(self.geometry_buffer == old(self).geometry_buffer);
            assert(before == old(self).vertex_buffer);
            assert(before.with_data(&self.vertex_buffer, self.vertex_buffer.spec_data()));
            assert(forall|v: int, u: VertexAttributeUsage, n: nat|
                u != VertexAttributeUsage::Normal ==> #[trigger] self.vertex_buffer.spec_read(v, u, n)
                    == before.spec_read(v, u, n));
        }
        Ok(())
    }

    /// Applies a transform to every vertex: `point` maps positions, and
    /// `direction` (the inverse-transpose direction map, so that normals stay
    /// perpendicular under non-uniform scale) maps normals and tangent
    /// directions; tangent handedness is kept. Without vertices nothing is
    /// read and nothing changes. Otherwise it fails, and changes nothing,
    /// when positions, normals or tangents lack components.
    pub fn transform_geometry<P: Fn([u32; 3]) -> [u32; 3], D: Fn([u32; 3]) -> [u32; 3]>(
        &mut self,
        point: P,
        direction: D,
    ) -> (r: Result<(), VertexFetchError>)
        requires
            old(self).wf(),
            forall|x: [u32; 3]| point.requires((x,)),
            forall|x: [u32; 3]| direction.requires((x,)),
        ensures
            final(self).wf(),
            r is Ok <==> old(self).vertex_buffer.spec_vertex_count() == 0 || transform_inputs_ok(
                old(self),
            ),
            r is Err ==> *final(self) == *old(self),
            old(self).vertex_buffer.spec_vertex_count() == 0 ==> *final(self) == *old(self),
            r is Ok ==> ({
                let before = old(self).vertex_buffer;
                let after = final(self).vertex_buffer;
                &&& final(self).geometry_buffer == old(self).geometry_buffer
                &&& final(self).is_procedural == old(self).is_procedural
                &&& before.with_data(&after, after.spec_data())
                &&& forall|v: int, u: VertexAttributeUsage, n: nat|
                    !is_spatial(u) ==> #[trigger] after.spec_read(v, u, n) == before.spec_read(v, u, n)
                &&& forall|v: int|
                    0 <= v < before.spec_vertex_count() ==> #[trigger] vertex_transformed(
                        before,
                        after,
                        v,
                        point,
                        direction,
                    )
            }),
    {
        if self.vertex_buffer.vertex_count() == 0 {
            return Ok(());
        }
        self.vertex_buffer.check_attribute(VertexAttributeUsage::Position, 3)?;
        self.vertex_buffer.check_attribute(VertexAttributeUsage::Normal, 3)?;
        self.vertex_buffer.check_attribute(VertexAttributeUsage::Tangent, 4)?;
        let count = self.vertex_buffer.vertex_count();
        let ghost before = self.vertex_buffer;
        let mut v: usize = 0;
        while v < count
            invariant
                v <= count,
                count == before.spec_vertex_count(),
                before == old(self).vertex_buffer,
                before.wf(),
                self.vertex_buffer.wf(),
                transform_inputs_ok(old(self)),
                before.with_data(&self.vertex_buffer, self.vertex_buffer.spec_data()),
                self.geometry_buffer == old(self).geometry_buffer,
                self.is_procedural == old(self).is_procedural,
                forall|x: [u32; 3]| point.requires((x,)),
                forall|x: [u32; 3]| direction.requires((x,)),
                forall|w: int|
                    0 <= w < v ==> #[trigger] vertex_transformed(
                        before,
                        self.vertex_buffer,
                        w,
                        point,
                        direction,
                    ),
                forall|w: int, u: VertexAttributeUsage, n: nat|
                    (!is_spatial(u) || w >= v) ==> #[trigger] self.vertex_buffer.spec_read(w, u, n)
                        == before.spec_read(w, u, n),
            decreases count - v,
        {
            let ghost b0 = self.vertex_buffer;
            let p = match self.vertex_buffer.read_3(v, VertexAttributeUsage::Position) {
                Ok(p) => p,
                Err(e) => {
                    assert(false);
                    return Err(e);
                },
            };
            let np = point(p);
            let w1 = self.vertex_buffer.write(v, VertexAttributeUsage::Position, &np);
            let ghost b1 = self.vertex_buffer;
            assert(w1 is Ok);
            let n = match self.vertex_buffer.read_3(v, VertexAttributeUsage::Normal) {
                Ok(n) => n,
                Err(e) => {
                    assert(false);
                    return Err(e);
                },
            };
            let nn = direction(n);
            let w2 = self.vertex_buffer.write(v, VertexAttributeUsage::Normal, &nn);
            let ghost b2 = self.vertex_buffer;
            assert(w2 is Ok);
            let t = match self.vertex_buffer.read_4(v, VertexAttributeUsage::Tangent) {
                Ok(t) => t,
                Err(e) => {
                    assert(false);
                    return Err(e);
                },
            };
            let nt = direction([t[0], t[1], t[2]]);
            let tangent = [nt[0], nt[1], nt[2], t[3]];
            let w3 = self.vertex_buffer.write(v, VertexAttributeUsage::Tangent, &tangent);
            assert(w3 is Ok);
            proof {
                let vi = v as int;
                assert forall|x: int, u: VertexAttributeUsage, k: nat|
                    x != vi ==> #[trigger] self.vertex_buffer.spec_read(x, u, k) == b0.spec_read(x, u, k) by {
                    b0.lemma_read_after_write(&b1, vi, VertexAttributeUsage::Position, np@, x, u, k);
                    b1.lemma_read_after_write(&b2, vi, VertexAttributeUsage::Normal, nn@, x, u, k);
                    b2.lemma_read_after_write(&self.vertex_buffer, vi, VertexAttributeUsage::Tangent, tangent@, x, u, k);
                }
                assert forall|u: VertexAttributeUsage, k: nat|
                    !is_spatial(u) ==> #[trigger] self.vertex_buffer.spec_read(vi, u, k) == b0.spec_read(vi, u, k) by {
                    b0.lemma_read_after_write(&b1, vi, VertexAttributeUsage::Position, np@, vi, u, k);
                    b1.lemma_read_after_write(&b2, vi, VertexAttributeUsage::Normal, nn@, vi, u, k);
                    b2.lemma_read_after_write(&self.vertex_buffer, vi, VertexAttributeUsage::Tangent, tangent@, vi, u, k);
                }
                // Position: written first, then left alone.
                b0.lemma_read_after_write(&b1, vi, VertexAttributeUsage::Position, np@, vi, VertexAttributeUsage::Position, 3);
                b1.lemma_read_after_write(&b2, vi, VertexAttributeUsage::Normal, nn@, vi, VertexAttributeUsage::Position, 3);
                b2.lemma_read_after_write(&self.vertex_buffer, vi, VertexAttributeUsage::Tangent, tangent@, vi, VertexAttributeUsage::Position, 3);
                // Normal: read from b1 (as in b0), written, then left alone.
                b0.lemma_read_after_write(&b1, vi, VertexAttributeUsage::Position, np@, vi, VertexAttributeUsage::Normal, 3);
                b1.lemma_read_after_write(&b2, vi, VertexAttributeUsage::Normal, nn@, vi, VertexAttributeUsage::Normal, 3);
                b2.lemma_read_after_write(&self.vertex_buffer, vi, VertexAttributeUsage::Tangent, tangent@, vi, VertexAttributeUsage::Normal, 3);
                // Tangent: read from b2 (as in b0), then written.
                b0.lemma_read_after_write(&b1, vi, VertexAttributeUsage::Position, np@, vi, VertexAttributeUsage::Tangent, 4);
                b1.lemma_read_after_write(&b2, vi, VertexAttributeUsage::Normal, nn@, vi, VertexAttributeUsage::Tangent, 4);
                b2.lemma_read_after_write(&self.vertex_buffer, vi, VertexAttributeUsage::Tangent, tangent@, vi, VertexAttributeUsage::Tangent, 4);
                assert(as3(self.vertex_buffer.spec_read(vi, VertexAttributeUsage::Position, 3)) =~= np);
                assert(as3(self.vertex_buffer.spec_read(vi, VertexAttributeUsage::Normal, 3)) =~= nn);
                assert(xyz(self.vertex_buffer.spec_read(vi, VertexAttributeUsage::Tangent, 4)) =~= nt);
                assert(as3(before.spec_read(vi, VertexAttributeUsage::Position, 3)) =~= p);
                assert(as3(before.spec_read(vi, VertexAttributeUsage::Normal, 3)) =~= n);
                assert(xyz(before.spec_read(vi, VertexAttributeUsage::Tangent, 4)) =~= [t[0], t[1], t[2]]);
                assert(vertex_transformed(before, self.vertex_buffer, vi, point, direction));
                assert forall|w: int| 0 <= w < v + 1 implies #[trigger] vertex_transformed(
                    before,
                    self.vertex_buffer,
                    w,
                    point,
                    direction,
                ) by {
                    if w < vi {
                        assert(vertex_transformed(before, b0, w, point, direction));
                        assert(self.vertex_buffer.spec_read(w, VertexAttributeUsage::Position, 3) == b0.spec_read(w, VertexAttributeUsage::Position, 3));
                        assert(self.vertex_buffer.spec_read(w, VertexAttributeUsage::Normal, 3) == b0.spec_read(w, VertexAttributeUsage::Normal, 3));
                        assert(self.vertex_buffer.spec_read(w, VertexAttributeUsage::Tangent, 4) == b0.spec_read(w, VertexAttributeUsage::Tangent, 4));
                    }
                }
            }
            v += 1;
        }
        Ok(())
    }

    /// Tangent space. `triangle_dirs` solves, for one triangle, the tangent
    /// and bitangent directions from its positions and texture
    /// coordinates; each vertex collects the directions of the triangles
    /// that use it, in triangle order (once per corner that names it), and
    /// `finish` turns its normal and that list into its tangent (direction
    /// orthogonalised against the normal, handedness sign last). Only the
    /// tangents change. Fails, and changes nothing, when an attribute it
    /// needs is missing or short or a triangle names a vertex that does not
    /// exist.
    pub fn calculate_tangents<
        T: Fn([u32; 3], [u32; 3], [u32; 3], [u32; 2], [u32; 2], [u32; 2]) -> TriangleDirs,
        G: Fn([u32; 3], Vec<TriangleDirs>) -> [u32; 4],
    >(&mut self, triangle_dirs: T, finish: G) -> (r: Result<(), VertexFetchError>)
        requires
            old(self).wf(),
            forall|a: [u32; 3], b: [u32; 3], c: [u32; 3], x: [u32; 2], y: [u32; 2], z: [u32; 2]|
                triangle_dirs.requires((a, b, c, x, y, z)),
            forall|n: [u32; 3], l: Vec<TriangleDirs>| finish.requires((n, l)),
        ensures
            final(self).wf(),
            r is Ok <==> tangent_inputs_ok(old(self)),
            r is Err ==> *final(self) == *old(self),
            r is Ok ==> ({
                let before = old(self).vertex_buffer;
                let after = final(self).vertex_buffer;
                let ts = old(self).geometry_buffer.spec_triangles();
                &&& final(self).geometry_buffer == old(self).geometry_buffer
                &&& final(self).is_procedural == old(self).is_procedural
                &&& before.with_data(&after, after.spec_data())
                &&& forall|v: int, u: VertexAttributeUsage, n: nat|
                    u != VertexAttributeUsage::Tangent ==> #[trigger] after.spec_read(v, u, n)
                        == before.spec_read(v, u, n)
                &&& exists|dirs: Seq<TriangleDirs>|
                    #[trigger] tangents_from(before, after, ts, dirs, triangle_dirs, finish)
            }),
    {
        let have_triangles = !self.geometry_buffer.is_empty();
        if have_triangles {
            self.vertex_buffer.check_attribute(VertexAttributeUsage::Position, 3)?;
            self.vertex_buffer.check_attribute(VertexAttributeUsage::TexCoord0, 2)?;
        }
        if self.vertex_buffer.vertex_count() > 0 {
            self.vertex_buffer.check_attribute(VertexAttributeUsage::Normal, 3)?;
            self.vertex_buffer.check_attribute(VertexAttributeUsage::Tangent, 4)?;
        }
        self.check_indices()?;
        let count = self.vertex_buffer.vertex_count();
        let ghost before = self.vertex_buffer;
        let ghost ts = self.geometry_buffer.spec_triangles();
        let mut positions: Vec<[u32; 3]> = Vec::new();
        let mut uvs: Vec<[u32; 2]> = Vec::new();
        let mut normals: Vec<[u32; 3]> = Vec::new();
        let mut lists: Vec<Vec<TriangleDirs>> = Vec::new();
        let mut v: usize = 0;
        while v < count
            invariant
                v <= count,
                count == before.spec_vertex_count(),
                *self == *old(self),
                before == old(self).vertex_buffer,
                before.wf(),
                tangent_inputs_ok(old(self)),
                have_triangles == (ts.len() > 0),
                ts == old(self).geometry_buffer.spec_triangles(),
                positions@.len() == v,
                uvs@.len() == v,
                normals@.len() == v,
                lists@.len() == v,
                forall|w: int| 0 <= w < v && have_triangles ==> #[trigger] positions@[w] == as3(
                    before.spec_read(w, VertexAttributeUsage::Position, 3),
                ),
                forall|w: int| 0 <= w < v && have_triangles ==> #[trigger] uvs@[w] == as2(
                    before.spec_read(w, VertexAttributeUsage::TexCoord0, 2),
                ),
                forall|w: int| 0 <= w < v ==> #[trigger] normals@[w] == as3(
                    before.spec_read(w, VertexAttributeUsage::Normal, 3),
                ),
                forall|w: int| 0 <= w < v ==> (#[trigger] lists@[w])@ == Seq::<TriangleDirs>::empty(),
            decreases count - v,
        {
            let (p, t) = if have_triangles {
                (
                    self.vertex_buffer.read_3(v, VertexAttributeUsage::Position),
                    self.vertex_buffer.read_2(v, VertexAttributeUsage::TexCoord0),
                )
            } else {
                (Ok([0u32, 0u32, 0u32]), Ok([0u32, 0u32]))
            };
            let n = self.vertex_buffer.read_3(v, VertexAttributeUsage::Normal);
            match (p, t, n) {
                (Ok(p), Ok(t), Ok(n)) => {
                    positions.push(p);
                    uvs.push(t);
                    normals.push(n);
                    lists.push(Vec::new());
                },
                _ => {
                    assert(false);
                    return Err(VertexFetchError::IndexOutOfRange(v));
                },
            }
            v += 1;
        }
        let tris = self.geometry_buffer.triangles_ref();
        let ghost mut dirs: Seq<TriangleDirs> = Seq::empty();
        let mut k: usize = 0;
        while k < tris.len()
            invariant
                k <= tris@.len(),
                tris@ == ts,
                *self == *old(self),
                before == old(self).vertex_buffer,
                indices_in_range(ts, count as nat),
                positions@.len() == count,
                uvs@.len() == count,
                lists@.len() == count,
                dirs.len() == k,
                forall|w: int| 0 <= w < count && ts.len() > 0 ==> #[trigger] positions@[w] == as3(
                    before.spec_read(w, VertexAttributeUsage::Position, 3),
                ),
                forall|w: int| 0 <= w < count && ts.len() > 0 ==> #[trigger] uvs@[w] == as2(
                    before.spec_read(w, VertexAttributeUsage::TexCoord0, 2),
                ),
                forall|w: int|
                    0 <= w < count ==> (#[trigger] lists@[w])@ == contributions(
                        ts.subrange(0, k as int),
                        dirs,
                        w,
                    ),
                forall|m: int|
                    0 <= m < k ==> triangle_dirs.ensures(
                        (
                            positions@[ts[m].0[0] as int],
                            positions@[ts[m].0[1] as int],
                            positions@[ts[m].0[2] as int],
                            uvs@[ts[m].0[0] as int],
                            uvs@[ts[m].0[1] as int],
                            uvs@[ts[m].0[2] as int],
                        ),
                        #[trigger] dirs[m],
                    ),
                forall|a: [u32; 3], b: [u32; 3], c: [u32; 3], x: [u32; 2], y: [u32; 2], z: [u32; 2]|
                    triangle_dirs.requires((a, b, c, x, y, z)),
            decreases tris@.len() - k,
        {
            let t = tris[k];
            assert(t.0[0] < count && t.0[1] < count && t.0[2] < count) by {
                assert(ts[k as int].0[0] < count);
                assert(ts[k as int].0[1] < count);
                assert(ts[k as int].0[2] < count);
            }
            let ia = t.0[0] as usize;
            let ib = t.0[1] as usize;
            let ic = t.0[2] as usize;
            let d = triangle_dirs(
                positions[ia],
                positions[ib],
                positions[ic],
                uvs[ia],
                uvs[ib],
                uvs[ic],
            );
            let ghost l0 = lists@;
            let ghost d_prev = dirs;
            proof {
                let d_old = dirs;
                dirs = dirs.push(d);
                assert forall|w: int| 0 <= w < count implies (#[trigger] l0[w])@ == contributions(
                    ts.subrange(0, k as int),
                    dirs,
                    w,
                ) by {
                    lemma_contributions_prefix(ts.subrange(0, k as int), d_old, dirs, w);
                }
            }
            push_to(&mut lists, ia, d);
            let ghost l1 = lists@;
            push_to(&mut lists, ib, d);
            let ghost l2 = lists@;
            push_to(&mut lists, ic, d);
            proof {
                let sub = ts.subrange(0, k as int + 1);
                assert(sub.drop_last() =~= ts.subrange(0, k as int));
                assert(sub.last() == t);
                assert(dirs[k as int] == d);
                assert forall|w: int| 0 <= w < count implies (#[trigger] lists@[w])@ == contributions(
                    sub,
                    dirs,
                    w,
                ) by {
                    let base = contributions(ts.subrange(0, k as int), dirs, w);
                    let e0: Seq<TriangleDirs> = if t.0[0] == w { seq![d] } else { Seq::empty() };
                    let e1: Seq<TriangleDirs> = if t.0[1] == w { seq![d] } else { Seq::empty() };
                    let e2: Seq<TriangleDirs> = if t.0[2] == w { seq![d] } else { Seq::empty() };
                    assert(l1[w]@ =~= base + e0);
                    assert(l2[w]@ =~= base + e0 + e1);
                    assert(lists@[w]@ =~= base + e0 + e1 + e2);
                }
                assert forall|m: int| 0 <= m < k + 1 implies triangle_dirs.ensures(
                    (
                        positions@[ts[m].0[0] as int],
                        positions@[ts[m].0[1] as int],
                        positions@[ts[m].0[2] as int],
                        uvs@[ts[m].0[0] as int],
                        uvs@[ts[m].0[1] as int],
                        uvs@[ts[m].0[2] as int],
                    ),
                    #[trigger] dirs[m],
                ) by {
                    if m < k {
                        assert(dirs[m] == d_prev[m]);
                    }
                }
            }
            k += 1;
        }
        assert(ts.subrange(0, ts.len() as int) =~= ts);
        let ghost finals = lists@;
        let mut v: usize = 0;
        while v < count
            invariant
                v <= count,
                count == before.spec_vertex_count(),
                before.wf(),
                before == old(self).vertex_buffer,
                self.vertex_buffer.wf(),
                before.with_data(&self.vertex_buffer, self.vertex_buffer.spec_data()),
                count > 0 ==> attribute_check(before.spec_layout(), VertexAttributeUsage::Tangent, 4)
                    is Ok,
                normals@.len() == count,
                lists@.len() == count,
                finals.len() == count,
                self.geometry_buffer == old(self).geometry_buffer,
                self.is_procedural == old(self).is_procedural,
                forall|w: int| 0 <= w < count ==> #[trigger] normals@[w] == as3(
                    before.spec_read(w, VertexAttributeUsage::Normal, 3),
                ),
                forall|w: int| v <= w < count ==> #[trigger] lists@[w] == finals[w],
                forall|n: [u32; 3], l: Vec<TriangleDirs>| finish.requires((n, l)),
                forall|w: int|
                    0 <= w < v ==> #[trigger] self.vertex_buffer.spec_read(
                        w,
                        VertexAttributeUsage::Tangent,
                        4,
                    ) is Ok && finish.ensures(
                        (normals@[w], finals[w]),
                        as4(self.vertex_buffer.spec_read(w, VertexAttributeUsage::Tangent, 4)),
                    ),
                forall|w: int, u: VertexAttributeUsage, n: nat|
                    (u != VertexAttributeUsage::Tangent || w >= v) ==> #[trigger] self.vertex_buffer.spec_read(w, u, n)
                        == before.spec_read(w, u, n),
            decreases count - v,
        {
            let ghost prev = self.vertex_buffer;
            let mut list: Vec<TriangleDirs> = Vec::new();
            lists.set_and_swap(v, &mut list);
            let tangent = finish(normals[v], list);
            let w = self.vertex_buffer.write(v, VertexAttributeUsage::Tangent, &tangent);
            proof {
                assert(w is Ok);
                assert forall|x: int, u: VertexAttributeUsage, n: nat|
                    (x != v || u != VertexAttributeUsage::Tangent) implies #[trigger] self.vertex_buffer.spec_read(x, u, n)
                        == prev.spec_read(x, u, n) by {
                    prev.lemma_read_after_write(&self.vertex_buffer, v as int, VertexAttributeUsage::Tangent, tangent@, x, u, n);
                }
                prev.lemma_read_after_write(&self.vertex_buffer, v as int, VertexAttributeUsage::Tangent, tangent@, v as int, VertexAttributeUsage::Tangent, 4);
                assert(as4(self.vertex_buffer.spec_read(v as int, VertexAttributeUsage::Tangent, 4)) =~= tangent);
            }
            v += 1;
        }
        proof {
            let after = self.vertex_buffer;
            assert forall|v: int| 0 <= v < before.spec_vertex_count() implies #[trigger] after.spec_read(
                v,
                VertexAttributeUsage::Tangent,
                4,
            ) is Ok && exists|l: Vec<TriangleDirs>|
                l@ == contributions(ts, dirs, v) && #[trigger] finish.ensures(
                    (as3(before.spec_read(v, VertexAttributeUsage::Normal, 3)), l),
                    as4(after.spec_read(v, VertexAttributeUsage::Tangent, 4)),
                ) by {
                assert(finals[v]@ == contributions(ts, dirs, v));
                assert(finish.ensures(
                    (as3(before.spec_read(v, VertexAttributeUsage::Normal, 3)), finals[v]),
                    as4(after.spec_read(v, VertexAttributeUsage::Tangent, 4)),
                ));
            }
            assert(tangents_from(before, after, ts, dirs, triangle_dirs, finish));
        }
        Ok(())
    }

    /// Hash of the contents: the bytes of the indices, then those of the vertices.
    pub open spec fn spec_content_hash(&self) -> u64 {
        DefaultHasher::spec_finish(
            seq![
                words_le_bytes(triangle_words(self.geometry_buffer.spec_triangles())),
                words_le_bytes(self.vertex_buffer.spec_data()),
            ],
        )
    }

    /// Hash of the contents of both buffers, for content-addressed caching.
    pub fn content_hash(&self) -> (r: u64)
        ensures
            r == self.spec_content_hash(),
    {
        let mut hasher = DefaultHasher::new();
        let index_bytes = self.geometry_buffer.byte_image();
        hasher.write(index_bytes.as_slice());
        let vertex_bytes = self.vertex_buffer.byte_image();
        hasher.write(vertex_bytes.as_slice());
        let r = hasher.finish();
        assert(hasher@ =~= seq![index_bytes@, vertex_bytes@]);
        r
    }

    /// Empties both buffers; the vertex layout stays.
    pub fn clear(&mut self)
        requires
            old(self).wf(),
        ensures
            final(self).wf(),
            final(self).vertex_buffer.spec_vertex_count() == 0,
            final(self).vertex_buffer.spec_layout() == old(self).vertex_buffer.spec_layout(),
            final(self).geometry_buffer.spec_triangles().len() == 0,
            final(self).spec_is_procedural() == old(self).spec_is_procedural(),
    {
        self.geometry_buffer.clear();
        self.vertex_buffer.clear();
    }
}

/// Whether triangle `t` uses vertex `v`.
pub open spec fn uses(t: TriangleDefinition, v: int) -> bool {
    t.0[0] == v || t.0[1] == v || t.0[2] == v
}

/// Index of the last triangle of `ts` that uses vertex `v`, or -1 if none does.
pub open spec fn last_triangle_with(ts: Seq<TriangleDefinition>, v: int) -> int
    decreases ts.len(),
{
    if ts.len() == 0 {
        -1
    } else if uses(ts.last(), v) {
        ts.len() - 1
    } else {
        last_triangle_with(ts.drop_last(), v)
    }
}

proof fn lemma_last_triangle_with_range(ts: Seq<TriangleDefinition>, v: int)
    ensures
        -1 <= last_triangle_with(ts, v) < ts.len(),
        last_triangle_with(ts, v) >= 0 ==> uses(ts[last_triangle_with(ts, v)], v),
    decreases ts.len(),
{
    if ts.len() > 0 && !uses(ts.last(), v) {
        lemma_last_triangle_with_range(ts.drop_last(), v);
    }
}

/// The three components of a successful read.
pub open spec fn as3(r: Result<Seq<u32>, VertexFetchError>) -> [u32; 3] {
    [r->Ok_0[0], r->Ok_0[1], r->Ok_0[2]]
}

/// The first failure among: a position attribute of three components, a
/// normal attribute of three components, indices naming existing vertices.
pub open spec fn normals_inputs_ok(d: &SurfaceData) -> bool {
    &&& attribute_check(d.vertex_buffer.spec_layout(), VertexAttributeUsage::Position, 3) is Ok
    &&& attribute_check(d.vertex_buffer.spec_layout(), VertexAttributeUsage::Normal, 3) is Ok
    &&& indices_in_range(d.geometry_buffer.spec_triangles(), d.vertex_buffer.spec_vertex_count())
}

/// The direction part (first three components) of a successful four-component read.
pub open spec fn xyz(r: Result<Seq<u32>, VertexFetchError>) -> [u32; 3] {
    [r->Ok_0[0], r->Ok_0[1], r->Ok_0[2]]
}

/// Positions, normals and tangents are present with three, three and four components.
pub open spec fn transform_inputs_ok(d: &SurfaceData) -> bool {
    &&& attribute_check(d.vertex_buffer.spec_layout(), VertexAttributeUsage::Position, 3) is Ok
    &&& attribute_check(d.vertex_buffer.spec_layout(), VertexAttributeUsage::Normal, 3) is Ok
    &&& attribute_check(d.vertex_buffer.spec_layout(), VertexAttributeUsage::Tangent, 4) is Ok
}

/// Vertex `v` of `after` is vertex `v` of `before` with its position mapped
/// by `point`, and its normal and tangent direction by `direction`; the
/// tangent's handedness sign is kept.
pub open spec fn vertex_transformed<P: Fn([u32; 3]) -> [u32; 3], D: Fn([u32; 3]) -> [u32; 3]>(
    before: VertexBuffer,
    after: VertexBuffer,
    v: int,
    point: P,
    direction: D,
) -> bool {
    let p = after.spec_read(v, VertexAttributeUsage::Position, 3);
    let n = after.spec_read(v, VertexAttributeUsage::Normal, 3);
    let t = after.spec_read(v, VertexAttributeUsage::Tangent, 4);
    let t0 = before.spec_read(v, VertexAttributeUsage::Tangent, 4);
    &&& p is Ok && n is Ok && t is Ok
    &&& point.ensures((as3(before.spec_read(v, VertexAttributeUsage::Position, 3)),), as3(p))
    &&& direction.ensures((as3(before.spec_read(v, VertexAttributeUsage::Normal, 3)),), as3(n))
    &&& direction.ensures((xyz(t0),), xyz(t))
    &&& t->Ok_0[3] == t0->Ok_0[3]
}

/// Whether `u` is one of the attributes a transform rewrites.
pub open spec fn is_spatial(u: VertexAttributeUsage) -> bool {
    u == VertexAttributeUsage::Position || u == VertexAttributeUsage::Normal || u
        == VertexAttributeUsage::Tangent
}

/// Tangent directions of one triangle: (`sdir`, `tdir`).
pub type TriangleDirs = ([u32; 3], [u32; 3]);

/// The contributions vertex `v` receives from the triangles `ts`: for each
/// triangle in order and each of its corners naming `v`, that triangle's
/// directions `dirs[k]`.
pub open spec fn contributions(
    ts: Seq<TriangleDefinition>,
    dirs: Seq<TriangleDirs>,
    v: int,
) -> Seq<TriangleDirs>
    decreases ts.len(),
{
    if ts.len() == 0 {
        Seq::empty()
    } else {
        let k = ts.len() - 1;
        let t = ts[k];
        let d = dirs[k];
        contributions(ts.drop_last(), dirs, v) + (if t.0[0] == v {
            seq![d]
        } else {
            Seq::empty()
        }) + (if t.0[1] == v {
            seq![d]
        } else {
            Seq::empty()
        }) + (if t.0[2] == v {
            seq![d]
        } else {
            Seq::empty()
        })
    }
}

/// The two components of a successful read.
pub open spec fn as2(r: Result<Seq<u32>, VertexFetchError>) -> [u32; 2] {
    [r->Ok_0[0], r->Ok_0[1]]
}

/// The four components of a successful read.
pub open spec fn as4(r: Result<Seq<u32>, VertexFetchError>) -> [u32; 4] {
    [r->Ok_0[0], r->Ok_0[1], r->Ok_0[2], r->Ok_0[3]]
}

/// Positions and texture coordinates, read only when there are triangles,
/// have three and two components; normals and tangents, read only when
/// there are vertices, have three and four; every index names a vertex.
pub open spec fn tangent_inputs_ok(d: &SurfaceData) -> bool {
    &&& d.geometry_buffer.spec_triangles().len() > 0 ==> attribute_check(
        d.vertex_buffer.spec_layout(),
        VertexAttributeUsage::Position,
        3,
    ) is Ok && attribute_check(d.vertex_buffer.spec_layout(), VertexAttributeUsage::TexCoord0, 2) is Ok
    &&& d.vertex_buffer.spec_vertex_count() > 0 ==> attribute_check(
        d.vertex_buffer.spec_layout(),
        VertexAttributeUsage::Normal,
        3,
    ) is Ok && attribute_check(d.vertex_buffer.spec_layout(), VertexAttributeUsage::Tangent, 4) is Ok
    &&& indices_in_range(d.geometry_buffer.spec_triangles(), d.vertex_buffer.spec_vertex_count())
}

/// `dirs[k]` is what `triangle_dirs` gave for triangle `k`, and each vertex
/// tangent of `after` is what `finish` gave for the vertex normal and the
/// vertex's contributions.
pub open spec fn tangents_from<
    T: Fn([u32; 3], [u32; 3], [u32; 3], [u32; 2], [u32; 2], [u32; 2]) -> TriangleDirs,
    G: Fn([u32; 3], Vec<TriangleDirs>) -> [u32; 4],
>(
    before: VertexBuffer,
    after: VertexBuffer,
    ts: Seq<TriangleDefinition>,
    dirs: Seq<TriangleDirs>,
    triangle_dirs: T,
    finish: G,
) -> bool {
    let pos = |i: u32| as3(before.spec_read(i as int, VertexAttributeUsage::Position, 3));
    let uv = |i: u32| as2(before.spec_read(i as int, VertexAttributeUsage::TexCoord0, 2));
    &&& dirs.len() == ts.len()
    &&& forall|k: int|
        0 <= k < ts.len() ==> triangle_dirs.ensures(
            (
                pos(ts[k].0[0]),
                pos(ts[k].0[1]),
                pos(ts[k].0[2]),
                uv(ts[k].0[0]),
                uv(ts[k].0[1]),
                uv(ts[k].0[2]),
            ),
            #[trigger] dirs[k],
        )
    &&& forall|v: int|
        0 <= v < before.spec_vertex_count() ==> #[trigger] after.spec_read(
            v,
            VertexAttributeUsage::Tangent,
            4,
        ) is Ok && exists|l: Vec<TriangleDirs>|
            l@ == contributions(ts, dirs, v) && #[trigger] finish.ensures(
                (as3(before.spec_read(v, VertexAttributeUsage::Normal, 3)), l),
                as4(after.spec_read(v, VertexAttributeUsage::Tangent, 4)),
            )
}

fn push_to(lists: &mut Vec<Vec<TriangleDirs>>, i: usize, x: TriangleDirs)
    requires
        i < old(lists)@.len(),
    ensures
        final(lists)@.len() == old(lists)@.len(),
        final(lists)@[i as int]@ == old(lists)@[i as int]@.push(x),
        forall|j: int| 0 <= j < old(lists)@.len() && j != i ==> final(lists)@[j] == old(lists)@[j],
{
    let mut slot: Vec<TriangleDirs> = Vec::new();
    lists.set_and_swap(i, &mut slot);
    slot.push(x);
    lists.set_and_swap(i, &mut slot);
}

proof fn lemma_contributions_prefix(
    ts: Seq<TriangleDefinition>,
    d1: Seq<TriangleDirs>,
    d2: Seq<TriangleDirs>,
    v: int,
)
    requires
        ts.len() <= d1.len(),
        d1.len() <= d2.len(),
        forall|k: int| 0 <= k < d1.len() ==> d1[k] == d2[k],
    ensures
        contributions(ts, d1, v) == contributions(ts, d2, v),
    decreases ts.len(),
{
    if ts.len() > 0 {
        lemma_contributions_prefix(ts.drop_last(), d1, d2, v);
    }
}

/// Running the tangent pass again over its own result reproduces the first
/// run: the pass writes only tangents and reads none of them, so the second
/// run succeeds exactly when the first did, and a result it may give is
/// exactly one the first run may give (for the same triangle directions).
pub proof fn lemma_tangents_rerun<
    T: Fn([u32; 3], [u32; 3], [u32; 3], [u32; 2], [u32; 2], [u32; 2]) -> TriangleDirs,
    G: Fn([u32; 3], Vec<TriangleDirs>) -> [u32; 4],
>(
    first: &SurfaceData,
    again: &SurfaceData,
    result: VertexBuffer,
    dirs: Seq<TriangleDirs>,
    triangle_dirs: T,
    finish: G,
)
    requires
        again.geometry_buffer == first.geometry_buffer,
        first.vertex_buffer.with_data(&again.vertex_buffer, again.vertex_buffer.spec_data()),
        forall|v: int, u: VertexAttributeUsage, n: nat|
            u != VertexAttributeUsage::Tangent ==> #[trigger] again.vertex_buffer.spec_read(v, u, n)
                == first.vertex_buffer.spec_read(v, u, n),
    ensures
        tangent_inputs_ok(again) == tangent_inputs_ok(first),
        tangents_from(
            again.vertex_buffer,
            result,
            first.geometry_buffer.spec_triangles(),
            dirs,
            triangle_dirs,
            finish,
        ) == tangents_from(
            first.vertex_buffer,
            result,
            first.geometry_buffer.spec_triangles(),
            dirs,
            triangle_dirs,
            finish,
        ),
{
    let a = again.vertex_buffer;
    let b = first.vertex_buffer;
    assert forall|i: u32| #![auto]
        a.spec_read(i as int, VertexAttributeUsage::Position, 3) == b.spec_read(
            i as int,
            VertexAttributeUsage::Position,
            3,
        ) && a.spec_read(i as int, VertexAttributeUsage::TexCoord0, 2) == b.spec_read(
            i as int,
            VertexAttributeUsage::TexCoord0,
            2,
        ) by {
        assert(a.spec_read(i as int, VertexAttributeUsage::Position, 3) == b.spec_read(
            i as int,
            VertexAttributeUsage::Position,
            3,
        ));
        assert(a.spec_read(i as int, VertexAttributeUsage::TexCoord0, 2) == b.spec_read(
            i as int,
            VertexAttributeUsage::TexCoord0,
            2,
        ));
    }
    assert forall|v: int| #![auto]
        a.spec_read(v, VertexAttributeUsage::Normal, 3) == b.spec_read(
            v,
            VertexAttributeUsage::Normal,
            3,
        ) by {
        assert(a.spec_read(v, VertexAttributeUsage::Normal, 3) == b.spec_read(
            v,
            VertexAttributeUsage::Normal,
            3,
        ));
    }
}

/// Equal contents give equal content hashes, however the data were built.
pub proof fn lemma_content_hash_of_equal_contents(a: &SurfaceData, b: &SurfaceData)
    requires
        a.vertex_buffer.spec_data() == b.vertex_buffer.spec_data(),
        a.geometry_buffer.spec_triangles() == b.geometry_buffer.spec_triangles(),
    ensures
        a.spec_content_hash() == b.spec_content_hash(),
{
}

/// The two triangles of a quad.
pub open spec fn quad_triangles() -> Seq<TriangleDefinition> {
    seq![TriangleDefinition([0, 1, 2]), TriangleDefinition([0, 2, 3])]
}

pub open spec fn quad_vertex(p: [u32; 3], t: [u32; 2]) -> StaticVertex {
    StaticVertex { position: p, tex_coord: t, normal: [ZERO, ZERO, ONE], tangent: [ZERO, ZERO, ZERO, ZERO] }
}

/// Corners of the unit quad.
pub open spec fn unit_xy_quad_vertices() -> Seq<StaticVertex> {
    seq![
        quad_vertex([ZERO, ZERO, ZERO], [ZERO, ONE]),
        quad_vertex([ONE, ZERO, ZERO], [ONE, ONE]),
        quad_vertex([ONE, ONE, ZERO], [ONE, ZERO]),
        quad_vertex([ZERO, ONE, ZERO], [ZERO, ZERO]),
    ]
}

/// Corners of the collapsed quad.
pub open spec fn collapsed_xy_quad_vertices() -> Seq<StaticVertex> {
    seq![
        quad_vertex([ZERO, ZERO, ZERO], [ZERO, ZERO]),
        quad_vertex([ZERO, ZERO, ZERO], [ONE, ZERO]),
        quad_vertex([ZERO, ZERO, ZERO], [ONE, ONE]),
        quad_vertex([ZERO, ZERO, ZERO], [ZERO, ONE]),
    ]
}

/// Corners of the centred quad.
pub open spec fn centered_xy_quad_vertices() -> Seq<StaticVertex> {
    let n = [ZERO, ZERO, MINUS_ONE];
    seq![
        cube_vertex([MINUS_HALF, HALF, ZERO], [ONE, ONE], n),
        cube_vertex([HALF, HALF, ZERO], [ZERO, ONE], n),
        cube_vertex([HALF, MINUS_HALF, ZERO], [ZERO, ZERO], n),
        cube_vertex([MINUS_HALF, MINUS_HALF, ZERO], [ONE, ZERO], n),
    ]
}

pub open spec fn cube_vertex(p: [u32; 3], t: [u32; 2], n: [u32; 3]) -> StaticVertex {
    StaticVertex { position: p, tex_coord: t, normal: n, tangent: [ZERO, ZERO, ZERO, ZERO] }
}

/// Four corners of one cube face, with the texture corners in the order
/// (0, 0), (0, 1), (1, 1), (1, 0).
pub open spec fn cube_face(
    a: [u32; 3],
    b: [u32; 3],
    c: [u32; 3],
    d: [u32; 3],
    n: [u32; 3],
) -> Seq<StaticVertex> {
    seq![
        cube_vertex(a, [ZERO, ZERO], n),
        cube_vertex(b, [ZERO, ONE], n),
        cube_vertex(c, [ONE, ONE], n),
        cube_vertex(d, [ONE, ZERO], n),
    ]
}

/// The 24 vertices of the unit cube: front (+Z), back, left, right, top, bottom.
pub open spec fn unit_cube_vertices() -> Seq<StaticVertex> {
    let (h, m) = (HALF, MINUS_HALF);
    cube_face([m, m, h], [m, h, h], [h, h, h], [h, m, h], [ZERO, ZERO, ONE]) + cube_face(
        [m, m, m],
        [m, h, m],
        [h, h, m],
        [h, m, m],
        [ZERO, ZERO, MINUS_ONE],
    ) + cube_face([m, m, m], [m, h, m], [m, h, h], [m, m, h], [MINUS_ONE, ZERO, ZERO])
        + cube_face([h, m, m], [h, h, m], [h, h, h], [h, m, h], [ONE, ZERO, ZERO]) + cube_face(
        [m, h, h],
        [m, h, m],
        [h, h, m],
        [h, h, h],
        [ZERO, ONE, ZERO],
    ) + cube_face([m, m, h], [m, m, m], [h, m, m], [h, m, h], [ZERO, MINUS_ONE, ZERO])
}

/// The 12 triangles of the unit cube, two per face.
pub open spec fn unit_cube_triangles() -> Seq<TriangleDefinition> {
    seq![
        TriangleDefinition([2, 1, 0]),
        TriangleDefinition([3, 2, 0]),
        TriangleDefinition([4, 5, 6]),
        TriangleDefinition([4, 6, 7]),
        TriangleDefinition([10, 9, 8]),
        TriangleDefinition([11, 10, 8]),
        TriangleDefinition([12, 13, 14]),
        TriangleDefinition([12, 14, 15]),
        TriangleDefinition([18, 17, 16]),
        TriangleDefinition([19, 18, 16]),
        TriangleDefinition([20, 21, 22]),
        TriangleDefinition([20, 22, 23]),
    ]
}

} // verus!
