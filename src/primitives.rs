//! Tessellation of the parametric primitives (cylinder, cone, sphere). A
//! generator decides which vertices a primitive has, in which order, and how
//! they form triangles; each vertex is named by a `PrimitiveSample`, and a
//! caller-supplied function turns a sample into a vertex (its position, normal
//! and texture coordinates), which keeps the numeric part out of the topology.
use vstd::prelude::*;
use crate::buffer::TriangleDefinition;
use crate::surface::{RawMesh, StaticVertex, SurfaceData};

verus! {

/// Part of a primitive a vertex belongs to.
#[derive(Clone, Copy, Debug, PartialEq, Eq, Structural)]
pub enum PrimitivePart {
    /// Fan closing the top of a cylinder.
    TopCap,
    /// Fan closing the bottom of a cylinder or cone.
    BottomCap,
    /// Lateral surface of a cylinder or cone.
    Side,
    /// First triangle of a sphere cell, present below the top stack.
    UpperTriangle,
    /// Second triangle of a sphere cell, present above the bottom stack.
    LowerTriangle,
}

/// One vertex of a primitive: its part, the stack (`row`) and segment
/// (`column`) it belongs to, and its corner within its triangle.
#[derive(Clone, Copy, Debug, PartialEq, Eq, Structural)]
pub struct PrimitiveSample {
    pub part: PrimitivePart,
    pub row: usize,
    pub column: usize,
    pub corner: u8,
}

pub open spec fn sample(part: PrimitivePart, row: usize, column: usize, corner: u8) -> PrimitiveSample {
    PrimitiveSample { part, row, column, corner }
}

/// The three corners of one triangle of a part.
pub open spec fn triangle_samples(part: PrimitivePart, row: usize, column: usize) -> Seq<
    PrimitiveSample,
> {
    seq![sample(part, row, column, 0), sample(part, row, column, 1), sample(part, row, column, 2)]
}

/// Triangle `k` joins vertices `3k`, `3k + 1` and `3k + 2`.
pub open spec fn consecutive_triangles(n: nat) -> Seq<TriangleDefinition> {
    Seq::new(
        n,
        |k: int| TriangleDefinition([(3 * k) as u32, (3 * k + 1) as u32, (3 * k + 2) as u32]),
    )
}

/// Vertices of one cylinder segment: with caps, a top-cap and a bottom-cap
/// triangle first; then the two side triangles.
pub open spec fn cylinder_segment(i: usize, caps: bool) -> Seq<PrimitiveSample> {
    let sides = triangle_samples(PrimitivePart::Side, 0, i) + triangle_samples(
        PrimitivePart::Side,
        1,
        i,
    );
    if caps {
        triangle_samples(PrimitivePart::TopCap, 0, i) + triangle_samples(
            PrimitivePart::BottomCap,
            0,
            i,
        ) + sides
    } else {
        sides
    }
}

/// Vertices of the first `n` segments of a cylinder.
pub open spec fn cylinder_samples(n: nat, caps: bool) -> Seq<PrimitiveSample>
    decreases n,
{
    if n == 0 {
        Seq::empty()
    } else {
        cylinder_samples((n - 1) as nat, caps) + cylinder_segment((n - 1) as usize, caps)
    }
}

/// Vertices of one cone segment: a bottom-cap triangle, then a side triangle.
pub open spec fn cone_segment(i: usize) -> Seq<PrimitiveSample> {
    triangle_samples(PrimitivePart::BottomCap, 0, i) + triangle_samples(PrimitivePart::Side, 0, i)
}

/// Vertices of the first `n` segments of a cone.
pub open spec fn cone_samples(n: nat) -> Seq<PrimitiveSample>
    decreases n,
{
    if n == 0 {
        Seq::empty()
    } else {
        cone_samples((n - 1) as nat) + cone_segment((n - 1) as usize)
    }
}

/// Vertices of sphere cell (`i`, `j`): the upper triangle unless `i` is the
/// last stack, then the lower triangle unless `i` is the first; the poles
/// get no degenerate triangles.
pub open spec fn sphere_cell(stacks: usize, i: usize, j: usize) -> Seq<PrimitiveSample> {
    let upper = if i + 1 != stacks {
        triangle_samples(PrimitivePart::UpperTriangle, i, j)
    } else {
        Seq::empty()
    };
    let lower = if i != 0 {
        triangle_samples(PrimitivePart::LowerTriangle, i, j)
    } else {
        Seq::empty()
    };
    upper + lower
}

/// Vertices of the first `n` cells of stack `i`.
pub open spec fn sphere_row(stacks: usize, i: usize, n: nat) -> Seq<PrimitiveSample>
    decreases n,
{
    if n == 0 {
        Seq::empty()
    } else {
        sphere_row(stacks, i, (n - 1) as nat) + sphere_cell(stacks, i, (n - 1) as usize)
    }
}

/// Vertices of the first `n` stacks of a sphere.
pub open spec fn sphere_samples(stacks: usize, slices: usize, n: nat) -> Seq<PrimitiveSample>
    decreases n,
{
    if n == 0 {
        Seq::empty()
    } else {
        sphere_samples(stacks, slices, (n - 1) as nat) + sphere_row(
            stacks,
            (n - 1) as usize,
            slices as nat,
        )
    }
}

proof fn lemma_cylinder_len(n: nat, caps: bool)
    ensures
        cylinder_samples(n, caps).len() == n * (if caps { 12nat } else { 6nat }),
    decreases n,
{
    if n > 0 {
        lemma_cylinder_len((n - 1) as nat, caps);
        assert(n * (if caps { 12nat } else { 6nat }) == (n - 1) * (if caps { 12nat } else { 6nat })
            + (if caps { 12nat } else { 6nat })) by (nonlinear_arith);
    }
}

proof fn lemma_cone_len(n: nat)
    ensures
        cone_samples(n).len() == 6 * n,
    decreases n,
{
    if n > 0 {
        lemma_cone_len((n - 1) as nat);
    }
}

/// Vertices in one cell of stack `i`.
pub open spec fn sphere_cell_len(stacks: nat, i: nat) -> nat {
    (if i + 1 != stacks { 3nat } else { 0nat }) + (if i != 0 { 3nat } else { 0nat })
}

proof fn lemma_sphere_row_len(stacks: usize, i: usize, n: nat)
    ensures
        sphere_row(stacks, i, n).len() == n * sphere_cell_len(stacks as nat, i as nat),
    decreases n,
{
    if n > 0 {
        lemma_sphere_row_len(stacks, i, (n - 1) as nat);
        let c = sphere_cell_len(stacks as nat, i as nat);
        let cell = sphere_cell(stacks, i, (n - 1) as usize);
        let up = triangle_samples(PrimitivePart::UpperTriangle, i, (n - 1) as usize);
        let lo = triangle_samples(PrimitivePart::LowerTriangle, i, (n - 1) as usize);
        assert(up.len() == 3 && lo.len() == 3);
        if i + 1 != stacks {
            if i != 0 {
                assert(cell == up + lo);
            } else {
                assert(cell =~= up);
            }
        } else {
            if i != 0 {
                assert(cell =~= lo);
            } else {
                assert(cell =~= Seq::<PrimitiveSample>::empty());
            }
        }
        assert(cell.len() == c);
        assert(sphere_row(stacks, i, n) == sphere_row(stacks, i, (n - 1) as nat) + cell);
        let m = (n - 1) as nat;
        assert(sphere_row(stacks, i, n).len() == m * c + c);
        assert(m * c + c == n * c) by (nonlinear_arith)
            requires
                m + 1 == n,
        ;
    } else {
        let c = sphere_cell_len(stacks as nat, i as nat);
        assert(n * c == 0) by (nonlinear_arith)
            requires
                n == 0,
        ;
    }
}

/// Vertices per column in the first `n` stacks.
pub open spec fn sphere_rows_cells(stacks: nat, n: nat) -> nat
    decreases n,
{
    if n == 0 {
        0
    } else {
        sphere_rows_cells(stacks, (n - 1) as nat) + sphere_cell_len(stacks, (n - 1) as nat)
    }
}

proof fn lemma_sphere_rows_cells(stacks: nat, n: nat)
    requires
        1 <= n <= stacks,
    ensures
        sphere_rows_cells(stacks, n) == 6 * n - 3 - (if n == stacks { 3int } else { 0int }),
    decreases n,
{
    reveal_with_fuel(sphere_rows_cells, 2);
    if n > 1 {
        lemma_sphere_rows_cells(stacks, (n - 1) as nat);
    }
}

proof fn lemma_sphere_len(stacks: usize, slices: usize, n: nat)
    requires
        n <= stacks,
    ensures
        sphere_samples(stacks, slices, n).len() == slices * sphere_rows_cells(stacks as nat, n),
    decreases n,
{
    if n > 0 {
        lemma_sphere_len(stacks, slices, (n - 1) as nat);
        lemma_sphere_row_len(stacks, (n - 1) as usize, slices as nat);
        let s = slices as nat;
        let prev = sphere_rows_cells(stacks as nat, (n - 1) as nat);
        let cell = sphere_cell_len(stacks as nat, (n - 1) as nat);
        assert(((n - 1) as usize) as nat == (n - 1) as nat);
        assert(sphere_rows_cells(stacks as nat, n) == prev + cell);
        assert(sphere_samples(stacks, slices, n).len() == s * prev + s * cell);
        assert(s * prev + s * cell == s * (prev + cell)) by (nonlinear_arith);
    } else {
        let s = slices as nat;
        assert(s * sphere_rows_cells(stacks as nat, n) == 0) by (nonlinear_arith)
            requires
                sphere_rows_cells(stacks as nat, n) == 0,
        ;
    }
}

/// Vertex count of a cylinder: twelve per side with caps, six without.
pub open spec fn cylinder_vertex_count(sides: nat, caps: bool) -> nat {
    sides * (if caps { 12nat } else { 6nat })
}

/// Vertex count of a cone: six per side.
pub open spec fn cone_vertex_count(sides: nat) -> nat {
    6 * sides
}

/// Vertex count of a sphere: six per cell, less the pole triangles of the
/// first and last stacks.
pub open spec fn sphere_vertex_count(slices: nat, stacks: nat) -> nat {
    if stacks == 0 {
        0
    } else {
        6 * slices * (stacks - 1) as nat
    }
}

fn push_triangle(out: &mut Vec<PrimitiveSample>, part: PrimitivePart, row: usize, column: usize)
    ensures
        final(out)@ == old(out)@ + triangle_samples(part, row, column),
{
    out.push(PrimitiveSample { part, row, column, corner: 0 });
    out.push(PrimitiveSample { part, row, column, corner: 1 });
    out.push(PrimitiveSample { part, row, column, corner: 2 });
    assert(final(out)@ =~= old(out)@ + triangle_samples(part, row, column));
}

/// Samples of a cylinder with `sides` segments, optionally capped.
pub fn cylinder_tessellation(sides: usize, caps: bool) -> (r: Vec<PrimitiveSample>)
    requires
        sides <= usize::MAX / 12,
    ensures
        r@ == cylinder_samples(sides as nat, caps),
        r@.len() == cylinder_vertex_count(sides as nat, caps),
{
    let mut out: Vec<PrimitiveSample> = Vec::new();
    let mut i: usize = 0;
    while i < sides
        invariant
            i <= sides,
            out@ == cylinder_samples(i as nat, caps),
        decreases sides - i,
    {
        let ghost before = out@;
        if caps {
            push_triangle(&mut out, PrimitivePart::TopCap, 0, i);
            push_triangle(&mut out, PrimitivePart::BottomCap, 0, i);
        }
        push_triangle(&mut out, PrimitivePart::Side, 0, i);
        push_triangle(&mut out, PrimitivePart::Side, 1, i);
        assert(out@ =~= before + cylinder_segment(i, caps));
        i += 1;
    }
    proof {
        lemma_cylinder_len(sides as nat, caps);
    }
    out
}

/// Samples of a cone with `sides` segments.
pub fn cone_tessellation(sides: usize) -> (r: Vec<PrimitiveSample>)
    requires
        sides <= usize::MAX / 6,
    ensures
        r@ == cone_samples(sides as nat),
        r@.len() == cone_vertex_count(sides as nat),
{
    let mut out: Vec<PrimitiveSample> = Vec::new();
    let mut i: usize = 0;
    while i < sides
        invariant
            i <= sides,
            out@ == cone_samples(i as nat),
        decreases sides - i,
    {
        let ghost before = out@;
        push_triangle(&mut out, PrimitivePart::BottomCap, 0, i);
        push_triangle(&mut out, PrimitivePart::Side, 0, i);
        assert(out@ =~= before + cone_segment(i));
        i += 1;
    }
    proof {
        lemma_cone_len(sides as nat);
    }
    out
}

/// Samples of a sphere of `stacks` stacks of `slices` cells.
pub fn sphere_tessellation(slices: usize, stacks: usize) -> (r: Vec<PrimitiveSample>)
    requires
        slices as nat * stacks as nat <= usize::MAX as nat / 6,
    ensures
        r@ == sphere_samples(stacks, slices, stacks as nat),
        r@.len() == sphere_vertex_count(slices as nat, stacks as nat),
{
    let mut out: Vec<PrimitiveSample> = Vec::new();
    let mut i: usize = 0;
    if stacks == 0 {
        return out;
    }
    while i < stacks
        invariant
            i <= stacks,
            stacks >= 1,
            slices as nat * stacks as nat <= usize::MAX as nat / 6,
            out@ == sphere_samples(stacks, slices, i as nat),
        decreases stacks - i,
    {
        let mut j: usize = 0;
        let ghost row_start = out@;
        proof {
            lemma_sphere_len(stacks, slices, i as nat);
            if i > 0 {
                lemma_sphere_rows_cells(stacks as nat, i as nat);
            }
            let rc = sphere_rows_cells(stacks as nat, i as nat);
            assert(rc <= 6 * i);
            assert(out@.len() <= 6 * (slices as nat * i as nat)) by (nonlinear_arith)
                requires
                    out@.len() == slices * rc,
                    rc <= 6 * i,
            ;
            assert(slices as nat * i as nat + slices as nat <= slices as nat * stacks as nat)
                by (nonlinear_arith)
                requires
                    i < stacks,
            ;
        }
        while j < slices
            invariant
                j <= slices,
                i < stacks,
                out@ == row_start + sphere_row(stacks, i, j as nat),
                row_start.len() + 6 * j <= usize::MAX,
                row_start.len() + 6 * slices <= usize::MAX,
            decreases slices - j,
        {
            let ghost before = out@;
            if i + 1 != stacks {
                push_triangle(&mut out, PrimitivePart::UpperTriangle, i, j);
            }
            if i != 0 {
                push_triangle(&mut out, PrimitivePart::LowerTriangle, i, j);
            }
            assert(out@ =~= before + sphere_cell(stacks, i, j));
            assert(row_start + sphere_row(stacks, i, j as nat + 1) =~= before + sphere_cell(
                stacks,
                i,
                j,
            ));
            j += 1;
        }
        i += 1;
    }
    proof {
        lemma_sphere_len(stacks, slices, stacks as nat);
        lemma_sphere_rows_cells(stacks as nat, stacks as nat);
        assert(slices * (6 * stacks - 6) == 6 * slices * (stacks - 1)) by (nonlinear_arith)
            requires
                stacks >= 1,
        ;
    }
    out
}

/// Triangles joining consecutive vertex triples.
fn consecutive(n: usize) -> (r: Vec<TriangleDefinition>)
    requires
        3 * n <= u32::MAX,
    ensures
        r@ == consecutive_triangles(n as nat),
{
    let mut out: Vec<TriangleDefinition> = Vec::new();
    let mut k: usize = 0;
    while k < n
        invariant
            k <= n,
            3 * n <= u32::MAX,
            out@ =~= consecutive_triangles(n as nat).subrange(0, k as int),
        decreases n - k,
    {
        let b = (3 * k) as u32;
        out.push(TriangleDefinition([b, b + 1, b + 2]));
        k += 1;
    }
    out
}

/// The vertices `vs` produced by `vertex_at` from `samples`, one for one.
pub open spec fn made_from<F: Fn(PrimitiveSample) -> StaticVertex>(
    vertex_at: F,
    samples: Seq<PrimitiveSample>,
    vs: Seq<StaticVertex>,
) -> bool {
    &&& vs.len() == samples.len()
    &&& forall|m: int| 0 <= m < samples.len() ==> vertex_at.ensures((samples[m],), #[trigger] vs[m])
}

/// Surface data with one vertex per sample, made by `vertex_at`, and one
/// triangle per three consecutive vertices.
fn mesh_from_samples<F: Fn(PrimitiveSample) -> StaticVertex>(
    samples: &Vec<PrimitiveSample>,
    vertex_at: &F,
) -> (r: SurfaceData)
    requires
        samples@.len() % 3 == 0,
        samples@.len() <= u32::MAX,
        samples@.len() <= usize::MAX / 12,
        forall|s: PrimitiveSample| vertex_at.requires((s,)),
    ensures
        exists|vs: Seq<StaticVertex>|
            made_from(*vertex_at, samples@, vs) && r.holds(
                vs,
                consecutive_triangles(samples@.len() / 3),
            ),
        r.is_procedural,
{
    let mut vertices: Vec<StaticVertex> = Vec::new();
    let mut m: usize = 0;
    while m < samples.len()
        invariant
            m <= samples@.len(),
            forall|s: PrimitiveSample| vertex_at.requires((s,)),
            made_from(*vertex_at, samples@.subrange(0, m as int), vertices@),
        decreases samples@.len() - m,
    {
        let v = vertex_at(samples[m]);
        vertices.push(v);
        m += 1;
        assert forall|q: int| 0 <= q < m implies vertex_at.ensures(
            (samples@.subrange(0, m as int)[q],),
            #[trigger] vertices@[q],
        ) by {
            if q + 1 < m {
                assert(samples@.subrange(0, m as int)[q] == samples@.subrange(
                    0,
                    m as int - 1,
                )[q]);
            }
        }
    }
    assert(samples@.subrange(0, samples@.len() as int) =~= samples@);
    let ghost vs = vertices@;
    let triangles = consecutive(samples.len() / 3);
    let r = SurfaceData::from_raw_mesh(RawMesh { vertices, triangles }, true);
    assert(made_from(*vertex_at, samples@, vs));
    r
}

impl SurfaceData {
    /// Vertical cylinder of `sides` segments, with a top and a bottom cap if
    /// `caps`; `vertex_at` places each sample.
    pub fn make_cylinder<F: Fn(PrimitiveSample) -> StaticVertex>(
        sides: usize,
        caps: bool,
        vertex_at: F,
    ) -> (r: Self)
        requires
            12 * sides <= u32::MAX,
            12 * sides <= usize::MAX / 12,
            forall|s: PrimitiveSample| vertex_at.requires((s,)),
        ensures
            exists|vs: Seq<StaticVertex>|
                made_from(vertex_at, cylinder_samples(sides as nat, caps), vs) && r.holds(
                    vs,
                    consecutive_triangles(cylinder_vertex_count(sides as nat, caps) / 3),
                ),
            r.vertex_buffer.spec_vertex_count() == cylinder_vertex_count(sides as nat, caps),
            r.geometry_buffer.spec_triangles().len() == cylinder_vertex_count(sides as nat, caps)
                / 3,
            r.is_procedural,
    {
        let samples = cylinder_tessellation(sides, caps);
        assert(cylinder_vertex_count(sides as nat, caps) % 3 == 0 && cylinder_vertex_count(
            sides as nat,
            caps,
        ) <= 12 * sides) by (nonlinear_arith);
        mesh_from_samples(&samples, &vertex_at)
    }

    /// Vertical cone of `sides` segments, its tip above its base;
    /// `vertex_at` places each sample.
    pub fn make_cone<F: Fn(PrimitiveSample) -> StaticVertex>(sides: usize, vertex_at: F) -> (r:
        Self)
        requires
            6 * sides <= u32::MAX,
            6 * sides <= usize::MAX / 12,
            forall|s: PrimitiveSample| vertex_at.requires((s,)),
        ensures
            exists|vs: Seq<StaticVertex>|
                made_from(vertex_at, cone_samples(sides as nat), vs) && r.holds(
                    vs,
                    consecutive_triangles(2 * sides as nat),
                ),
            r.vertex_buffer.spec_vertex_count() == cone_vertex_count(sides as nat),
            r.geometry_buffer.spec_triangles().len() == 2 * sides,
            r.is_procedural,
    {
        let samples = cone_tessellation(sides);
        mesh_from_samples(&samples, &vertex_at)
    }

    /// Sphere of `stacks` stacks of `slices` cells each; `vertex_at` places
    /// each sample.
    pub fn make_sphere<F: Fn(PrimitiveSample) -> StaticVertex>(
        slices: usize,
        stacks: usize,
        vertex_at: F,
    ) -> (r: Self)
        requires
            6 * (slices as nat * stacks as nat) <= u32::MAX,
            6 * (slices as nat * stacks as nat) <= usize::MAX / 12,
            forall|s: PrimitiveSample| vertex_at.requires((s,)),
        ensures
            exists|vs: Seq<StaticVertex>|
                made_from(vertex_at, sphere_samples(stacks, slices, stacks as nat), vs) && r.holds(
                    vs,
                    consecutive_triangles(sphere_vertex_count(slices as nat, stacks as nat) / 3),
                ),
            r.vertex_buffer.spec_vertex_count() == sphere_vertex_count(slices as nat, stacks as nat),
            r.geometry_buffer.spec_triangles().len() == sphere_vertex_count(
                slices as nat,
                stacks as nat,
            ) / 3,
            r.is_procedural,
    {
        let samples = sphere_tessellation(slices, stacks);
        proof {
            if stacks > 0 {
                let x = 2 * slices * (stacks - 1);
                assert(sphere_vertex_count(slices as nat, stacks as nat) == x * 3)
                    by (nonlinear_arith)
                    requires
                        stacks > 0,
                        x == 2 * slices * (stacks - 1),
                ;
                vstd::arithmetic::div_mod::lemma_mod_multiples_basic(x, 3);
            }
        }
        assert(sphere_vertex_count(slices as nat, stacks as nat) <= 6 * (slices as nat
            * stacks as nat)) by (nonlinear_arith);
        mesh_from_samples(&samples, &vertex_at)
    }
}

} // verus!
