//! Vertex and index storage. A vertex buffer holds a fixed attribute layout
//! and, for each vertex, one record of 32-bit words laid out as the layout
//! says; each word is the bit pattern of one single-precision component.
use vstd::prelude::*;

verus! {

/// Meaning of a vertex attribute.
#[derive(Clone, Copy, Debug, PartialEq, Eq, Structural, Hash)]
pub enum VertexAttributeUsage {
    /// Position, three components.
    Position,
    /// Normal, three components.
    Normal,
    /// Tangent: direction in the first three components, handedness sign in the fourth.
    Tangent,
    /// First texture coordinates, two components.
    TexCoord0,
}

/// Declared attribute: its usage and its number of components (1 to 4).
#[derive(Clone, Copy, Debug, PartialEq, Eq, Structural)]
pub struct VertexAttributeDescriptor {
    pub usage: VertexAttributeUsage,
    pub size: u8,
}

/// Attribute as placed in a vertex record: `offset` is its first word.
#[derive(Clone, Copy, Debug, PartialEq, Eq, Structural)]
pub struct VertexAttribute {
    pub usage: VertexAttributeUsage,
    pub size: u8,
    pub offset: u8,
}

/// Why a vertex buffer could not be built.
#[derive(Clone, Copy, Debug, PartialEq, Eq, Structural)]
pub enum ValidationError {
    /// An attribute declared outside 1 to 4 components.
    InvalidComponentCount(u8),
    /// Two attributes declared with one usage.
    DuplicatedAttributeDescriptor(VertexAttributeUsage),
    /// The number of words is not vertex count times record size.
    InvalidDataSize { expected: usize, actual: usize },
}

/// Why a vertex attribute could not be read or written.
#[derive(Clone, Copy, Debug, PartialEq, Eq, Structural)]
pub enum VertexFetchError {
    /// The layout has no attribute of this usage.
    NoSuchAttribute(VertexAttributeUsage),
    /// The attribute has fewer components than were asked for.
    NotEnoughComponents(VertexAttributeUsage),
    /// No vertex has this index.
    IndexOutOfRange(usize),
}

/// Words in a record of the given layout.
pub open spec fn layout_stride(l: Seq<VertexAttributeDescriptor>) -> nat
    decreases l.len(),
{
    if l.len() == 0 {
        0
    } else {
        layout_stride(l.drop_last()) + l.last().size as nat
    }
}

/// Every attribute has 1 to 4 components and no usage is declared twice.
pub open spec fn valid_layout(l: Seq<VertexAttributeDescriptor>) -> bool {
    &&& forall|k: int| 0 <= k < l.len() ==> 1 <= #[trigger] l[k].size <= 4
    &&& forall|j: int, k: int| 0 <= j < k < l.len() ==> l[j].usage != l[k].usage
}

/// Placement of the declared attributes, one after another.
pub open spec fn placed(l: Seq<VertexAttributeDescriptor>) -> Seq<VertexAttribute> {
    Seq::new(
        l.len(),
        |k: int|
            VertexAttribute {
                usage: l[k].usage,
                size: l[k].size,
                offset: layout_stride(l.subrange(0, k)) as u8,
            },
    )
}

/// The declarations a placed layout was made from.
pub open spec fn descriptors(l: Seq<VertexAttribute>) -> Seq<VertexAttributeDescriptor> {
    Seq::new(l.len(), |k: int| VertexAttributeDescriptor { usage: l[k].usage, size: l[k].size })
}

/// The first attribute of the given usage.
pub open spec fn attribute_of(l: Seq<VertexAttribute>, u: VertexAttributeUsage) -> Option<
    VertexAttribute,
>
    decreases l.len(),
{
    if l.len() == 0 {
        None
    } else if l[0].usage == u {
        Some(l[0])
    } else {
        attribute_of(l.drop_first(), u)
    }
}

proof fn lemma_attribute_of_member(l: Seq<VertexAttribute>, u: VertexAttributeUsage)
    ensures
        attribute_of(l, u) is Some ==> l.contains(attribute_of(l, u)->Some_0) && attribute_of(
            l,
            u,
        )->Some_0.usage == u,
        attribute_of(l, u) is None ==> forall|k: int| 0 <= k < l.len() ==> l[k].usage != u,
    decreases l.len(),
{
    if l.len() > 0 && l[0].usage != u {
        lemma_attribute_of_member(l.drop_first(), u);
        if attribute_of(l, u) is Some {
            let a = attribute_of(l, u)->Some_0;
            let k = choose|k: int| 0 <= k < l.drop_first().len() && l.drop_first()[k] == a;
            assert(l[k + 1] == a);
        } else {
            assert forall|k: int| 0 <= k < l.len() implies l[k].usage != u by {
                if k > 0 {
                    assert(l[k] == l.drop_first()[k - 1]);
                }
            }
        }
    } else if l.len() > 0 {
        assert(l[0] == attribute_of(l, u)->Some_0);
    }
}

proof fn lemma_stride_push(l: Seq<VertexAttributeDescriptor>, k: int)
    requires
        0 <= k < l.len(),
    ensures
        layout_stride(l.subrange(0, k + 1)) == layout_stride(l.subrange(0, k)) + l[k].size,
{
    assert(l.subrange(0, k + 1).drop_last() =~= l.subrange(0, k));
}

proof fn lemma_stride_monotone(l: Seq<VertexAttributeDescriptor>, j: int, k: int)
    requires
        0 <= j <= k <= l.len(),
    ensures
        layout_stride(l.subrange(0, j)) <= layout_stride(l.subrange(0, k)),
    decreases k - j,
{
    if j < k {
        lemma_stride_push(l, k - 1);
        lemma_stride_monotone(l, j, k - 1);
    }
}

proof fn lemma_mul_bound(i: int, n: int, s: int, e: int)
    requires
        0 <= i < n,
        0 <= e <= s,
    ensures
        0 <= i * s + e <= n * s,
{
    assert(0 <= i * s + e <= n * s) by (nonlinear_arith)
        requires
            0 <= i < n,
            0 <= e <= s,
    ;
}

proof fn lemma_records_apart(i: int, j: int, s: int, x: int, y: int, len: int)
    requires
        0 <= i,
        0 <= j,
        i != j,
        0 <= x,
        x + len <= s,
        0 <= y < s,
    ensures
        !(i * s + x <= j * s + y < i * s + x + len),
{
    if i < j {
        assert((i + 1) * s <= j * s) by (nonlinear_arith)
            requires
                i + 1 <= j,
                s >= 0,
        ;
        assert((i + 1) * s == i * s + s) by (nonlinear_arith);
    } else {
        assert((j + 1) * s <= i * s) by (nonlinear_arith)
            requires
                j + 1 <= i,
                s >= 0,
        ;
        assert((j + 1) * s == j * s + s) by (nonlinear_arith);
    }
}

/// Vertex records of one layout, stored word by word.
#[derive(Clone, Debug)]
pub struct VertexBuffer {
    layout: Vec<VertexAttribute>,
    stride: usize,
    vertex_count: usize,
    data: Vec<u32>,
}

/// Buffer with no attribute and no vertex.
impl Default for VertexBuffer {
    fn default() -> (r: Self)
        ensures
            r.wf(),
            r.spec_layout().len() == 0,
            r.spec_vertex_count() == 0,
            r.spec_data().len() == 0,
    {
        let r = VertexBuffer { layout: Vec::new(), stride: 0, vertex_count: 0, data: Vec::new() };
        proof {
            assert(descriptors(r.layout@) =~= Seq::<VertexAttributeDescriptor>::empty());
            assert(placed(descriptors(r.layout@)) =~= r.layout@);
        }
        r
    }
}

/// Buffer with no triangle.
impl Default for GeometryBuffer {
    fn default() -> (r: Self)
        ensures
            r.spec_triangles().len() == 0,
    {
        GeometryBuffer { triangles: Vec::new() }
    }
}

impl VertexBuffer {
    /// Attributes fit in the record, no usage appears twice, and there is one
    /// full record per vertex.
    pub closed spec fn wf(&self) -> bool {
        &&& self.layout@.len() <= 4
        &&& self.stride <= 16
        &&& forall|k: int|
            0 <= k < self.layout@.len() ==> #[trigger] self.layout@[k].offset
                + self.layout@[k].size <= self.stride
        &&& forall|j: int, k: int|
            0 <= j < k < self.layout@.len() ==> self.layout@[j].usage != self.layout@[k].usage
        &&& self.data@.len() == self.vertex_count * self.stride
        &&& valid_layout(descriptors(self.layout@))
        &&& self.layout@ == placed(descriptors(self.layout@))
        &&& self.stride == layout_stride(descriptors(self.layout@))
    }

    pub closed spec fn spec_layout(&self) -> Seq<VertexAttribute> {
        self.layout@
    }

    pub closed spec fn spec_stride(&self) -> nat {
        self.stride as nat
    }

    pub closed spec fn spec_vertex_count(&self) -> nat {
        self.vertex_count as nat
    }

    /// All words, record after record.
    pub closed spec fn spec_data(&self) -> Seq<u32> {
        self.data@
    }

    /// Position in the data of word `c` of attribute `a` of vertex `i`.
    pub open spec fn word_index(&self, i: int, a: VertexAttribute, c: int) -> int {
        i * self.spec_stride() + a.offset + c
    }

    /// What reading `n` components of `usage` from vertex `i` gives.
    pub open spec fn spec_read(&self, i: int, usage: VertexAttributeUsage, n: nat) -> Result<
        Seq<u32>,
        VertexFetchError,
    > {
        if i < 0 || i >= self.spec_vertex_count() {
            Err(VertexFetchError::IndexOutOfRange(i as usize))
        } else {
            match attribute_of(self.spec_layout(), usage) {
                None => Err(VertexFetchError::NoSuchAttribute(usage)),
                Some(a) => if (a.size as nat) < n {
                    Err(VertexFetchError::NotEnoughComponents(usage))
                } else {
                    Ok(Seq::new(n, |c: int| self.spec_data()[self.word_index(i, a, c)]))
                },
            }
        }
    }

    /// The data after writing `vals` into attribute `usage` of vertex `i`.
    pub open spec fn spec_write(
        &self,
        i: int,
        usage: VertexAttributeUsage,
        vals: Seq<u32>,
    ) -> Result<Seq<u32>, VertexFetchError> {
        if i < 0 || i >= self.spec_vertex_count() {
            Err(VertexFetchError::IndexOutOfRange(i as usize))
        } else {
            match attribute_of(self.spec_layout(), usage) {
                None => Err(VertexFetchError::NoSuchAttribute(usage)),
                Some(a) => if (a.size as nat) < vals.len() {
                    Err(VertexFetchError::NotEnoughComponents(usage))
                } else {
                    Ok(
                        Seq::new(
                            self.spec_data().len(),
                            |p: int|
                                if self.word_index(i, a, 0) <= p < self.word_index(
                                    i,
                                    a,
                                    vals.len() as int,
                                ) {
                                    vals[p - self.word_index(i, a, 0)]
                                } else {
                                    self.spec_data()[p]
                                },
                        ),
                    )
                },
            }
        }
    }

    /// The same buffer holding other words.
    pub open spec fn with_data(&self, other: &VertexBuffer, data: Seq<u32>) -> bool {
        &&& other.spec_layout() == self.spec_layout()
        &&& other.spec_stride() == self.spec_stride()
        &&& other.spec_vertex_count() == self.spec_vertex_count()
        &&& other.spec_data() == data
    }

    /// Builds a buffer of `vertex_count` records of the given layout from
    /// their words. Fails when an attribute has a component count outside 1
    /// to 4, when a usage is declared twice, or when the number of words is
    /// not `vertex_count` times the record size.
    pub fn new(
        vertex_count: usize,
        layout: &[VertexAttributeDescriptor],
        data: Vec<u32>,
    ) -> (r: Result<Self, ValidationError>)
        ensures
            r is Ok <==> valid_layout(layout@) && data@.len() == vertex_count * layout_stride(
                layout@,
            ),
            r is Ok ==> ({
                let b = r->Ok_0;
                &&& b.wf()
                &&& b.spec_layout() == placed(layout@)
                &&& b.spec_stride() == layout_stride(layout@)
                &&& b.spec_vertex_count() == vertex_count
                &&& b.spec_data() == data@
            }),
    {
        let mut placed_attrs: Vec<VertexAttribute> = Vec::new();
        let mut stride: usize = 0;
        let mut k: usize = 0;
        while k < layout.len()
            invariant
                k <= layout@.len(),
                k <= 4,
                valid_layout(layout@.subrange(0, k as int)),
                stride == layout_stride(layout@.subrange(0, k as int)),
                stride <= 4 * k,
                placed_attrs@ =~= placed(layout@).subrange(0, k as int),
            decreases layout@.len() - k,
        {
            let d = layout[k];
            if d.size < 1 || d.size > 4 {
                proof {
                    assert(layout@[k as int] == d);
                }
                return Err(ValidationError::InvalidComponentCount(d.size));
            }
            let mut j: usize = 0;
            while j < k
                invariant
                    j <= k,
                    k < layout@.len(),
                    d == layout@[k as int],
                    placed_attrs@ =~= placed(layout@).subrange(0, k as int),
                    forall|m: int| 0 <= m < j ==> layout@[m].usage != d.usage,
                decreases k - j,
            {
                if placed_attrs[j].usage == d.usage {
                    return Err(ValidationError::DuplicatedAttributeDescriptor(d.usage));
                }
                j += 1;
            }
            if k == 4 {
                // Four distinct usages are all there are.
                proof {
                    let l = layout@.subrange(0, 4);
                    assert(l[0].usage != l[1].usage);
                    assert(l[0].usage != l[2].usage);
                    assert(l[0].usage != l[3].usage);
                    assert(l[1].usage != l[2].usage);
                    assert(l[1].usage != l[3].usage);
                    assert(l[2].usage != l[3].usage);
                    assert(layout@[0] == l[0] && layout@[1] == l[1] && layout@[2] == l[2]
                        && layout@[3] == l[3]);
                    assert(false);
                }
                return Err(ValidationError::DuplicatedAttributeDescriptor(d.usage));
            }
            placed_attrs.push(VertexAttribute { usage: d.usage, size: d.size, offset: stride as u8 });
            proof {
                lemma_stride_push(layout@, k as int);
                assert(layout@.subrange(0, k as int + 1).subrange(0, k as int) =~= layout@.subrange(
                    0,
                    k as int,
                ));
            }
            stride = stride + d.size as usize;
            k += 1;
        }
        proof {
            assert(layout@.subrange(0, k as int) =~= layout@);
        }
        let expected = vertex_count.checked_mul(stride);
        match expected {
            Some(e) => {
                if e != data.len() {
                    return Err(ValidationError::InvalidDataSize { expected: e, actual: data.len() });
                }
            },
            None => {
                return Err(
                    ValidationError::InvalidDataSize { expected: usize::MAX, actual: data.len() },
                );
            },
        }
        proof {
            assert forall|m: int| 0 <= m < placed_attrs@.len() implies #[trigger] placed_attrs@[m].offset
                + placed_attrs@[m].size <= stride by {
                lemma_stride_push(layout@, m);
                lemma_stride_monotone(layout@, m + 1, layout@.len() as int);
                assert(layout@.subrange(0, layout@.len() as int) =~= layout@);
            }
        }
        proof {
            assert(placed(layout@).subrange(0, layout@.len() as int) =~= placed(layout@));
            assert(placed_attrs@ == placed(layout@));
            assert(descriptors(placed_attrs@) =~= layout@);
            assert(valid_layout(layout@));
        }
        Ok(VertexBuffer { layout: placed_attrs, stride, vertex_count, data })
    }

    /// A well-formed buffer's layout is the placement of valid declarations.
    pub proof fn lemma_wf_layout(&self)
        requires
            self.wf(),
        ensures
            valid_layout(descriptors(self.spec_layout())),
            placed(descriptors(self.spec_layout())) == self.spec_layout(),
            self.spec_stride() == layout_stride(descriptors(self.spec_layout())),
            self.spec_data().len() == self.spec_vertex_count() * self.spec_stride(),
    {
    }

    /// Distinct attributes of a well-formed layout occupy disjoint words.
    proof fn lemma_attributes_disjoint(&self, a: VertexAttribute, b: VertexAttribute)
        requires
            self.wf(),
            self.layout@.contains(a),
            self.layout@.contains(b),
            a.usage != b.usage,
        ensures
            a.offset + a.size <= b.offset || b.offset + b.size <= a.offset,
    {
        let l = self.layout@;
        let d = descriptors(l);
        let ka = choose|k: int| 0 <= k < l.len() && l[k] == a;
        let kb = choose|k: int| 0 <= k < l.len() && l[k] == b;
        assert(placed(d)[ka] == a && placed(d)[kb] == b);
        assert(d.subrange(0, d.len() as int) =~= d);
        if ka < kb {
            lemma_stride_push(d, ka);
            lemma_stride_monotone(d, ka + 1, kb);
            lemma_stride_monotone(d, kb, d.len() as int);
            lemma_stride_monotone(d, ka, d.len() as int);
        } else {
            lemma_stride_push(d, kb);
            lemma_stride_monotone(d, kb + 1, ka);
            lemma_stride_monotone(d, ka, d.len() as int);
            lemma_stride_monotone(d, kb, d.len() as int);
        }
    }

    /// After a successful write of `vals` into attribute `u` of vertex `i`,
    /// reading that attribute gives `vals`, and every other read is as before.
    pub proof fn lemma_read_after_write(
        &self,
        after: &VertexBuffer,
        i: int,
        u: VertexAttributeUsage,
        vals: Seq<u32>,
        j: int,
        u2: VertexAttributeUsage,
        n: nat,
    )
        requires
            self.wf(),
            self.spec_write(i, u, vals) is Ok,
            self.with_data(after, self.spec_write(i, u, vals)->Ok_0),
        ensures
            (j != i || u2 != u) ==> after.spec_read(j, u2, n) == self.spec_read(j, u2, n),
            after.spec_read(i, u, vals.len()) == Ok::<Seq<u32>, VertexFetchError>(vals),
    {
        let a = attribute_of(self.layout@, u)->Some_0;
        lemma_attribute_of_member(self.layout@, u);
        lemma_attribute_of_member(self.layout@, u2);
        let k = choose|k: int| 0 <= k < self.layout@.len() && self.layout@[k] == a;
        assert(a.offset + a.size <= self.stride);
        let new_data = self.spec_write(i, u, vals)->Ok_0;
        lemma_mul_bound(i, self.vertex_count as int, self.stride as int, a.offset + a.size);
        assert(new_data.len() == self.data@.len());
        assert(after.spec_read(i, u, vals.len())->Ok_0 =~= vals);
        if (j != i || u2 != u) && self.spec_read(j, u2, n) is Ok {
            let a2 = attribute_of(self.layout@, u2)->Some_0;
            let k2 = choose|k: int| 0 <= k < self.layout@.len() && self.layout@[k] == a2;
            assert(a2.offset + a2.size <= self.stride);
            lemma_mul_bound(j, self.vertex_count as int, self.stride as int, a2.offset + a2.size);
            if j == i {
                self.lemma_attributes_disjoint(a, a2);
            }
            assert forall|c: int| 0 <= c < n implies new_data[self.word_index(j, a2, c)]
                == self.data@[self.word_index(j, a2, c)] by {
                let q = self.word_index(j, a2, c);
                let lo = self.word_index(i, a, 0);
                if j != i {
                    lemma_records_apart(i, j, self.stride as int, a.offset as int, a2.offset + c,
                        vals.len() as int);
                }
                assert(!(lo <= q < lo + vals.len()));
            }
            assert(after.spec_read(j, u2, n)->Ok_0 =~= self.spec_read(j, u2, n)->Ok_0);
        }
    }

    /// Fails as reading `n` components of `usage` from any vertex would.
    pub fn check_attribute(&self, usage: VertexAttributeUsage, n: u8) -> (r: Result<
        (),
        VertexFetchError,
    >)
        ensures
            r == attribute_check(self.spec_layout(), usage, n as nat),
    {
        match self.find(usage) {
            None => Err(VertexFetchError::NoSuchAttribute(usage)),
            Some(a) => if a.size < n {
                Err(VertexFetchError::NotEnoughComponents(usage))
            } else {
                Ok(())
            },
        }
    }

    /// The declarations of the layout, in order.
    pub fn descriptors(&self) -> (r: Vec<VertexAttributeDescriptor>)
        ensures
            r@ == descriptors(self.spec_layout()),
    {
        let mut out: Vec<VertexAttributeDescriptor> = Vec::new();
        let mut k: usize = 0;
        while k < self.layout.len()
            invariant
                k <= self.layout@.len(),
                out@ =~= descriptors(self.layout@).subrange(0, k as int),
            decreases self.layout@.len() - k,
        {
            let a = self.layout[k];
            out.push(VertexAttributeDescriptor { usage: a.usage, size: a.size });
            k += 1;
        }
        out
    }

    /// Number of vertices.
    pub fn vertex_count(&self) -> (r: usize)
        ensures
            r == self.spec_vertex_count(),
    {
        self.vertex_count
    }

    /// Words in one vertex record.
    pub fn vertex_size(&self) -> (r: usize)
        ensures
            r == self.spec_stride(),
    {
        self.stride
    }

    /// The placed attribute layout.
    pub fn layout(&self) -> (r: &[VertexAttribute])
        ensures
            r@ == self.spec_layout(),
    {
        self.layout.as_slice()
    }

    /// All words, record after record.
    pub fn raw_data(&self) -> (r: &[u32])
        ensures
            r@ == self.spec_data(),
    {
        self.data.as_slice()
    }

    /// Whether the layout declares an attribute of this usage.
    pub fn has_attribute(&self, usage: VertexAttributeUsage) -> (r: bool)
        ensures
            r == attribute_of(self.spec_layout(), usage) is Some,
    {
        self.find(usage).is_some()
    }

    /// The attribute of the given usage.
    fn find(&self, usage: VertexAttributeUsage) -> (r: Option<VertexAttribute>)
        ensures
            r == attribute_of(self.spec_layout(), usage),
    {
        let mut k: usize = 0;
        assert(self.layout@.subrange(0, self.layout@.len() as int) =~= self.layout@);
        while k < self.layout.len()
            invariant
                k <= self.layout@.len(),
                attribute_of(self.layout@, usage) == attribute_of(
                    self.layout@.subrange(k as int, self.layout@.len() as int),
                    usage,
                ),
            decreases self.layout@.len() - k,
        {
            let a = self.layout[k];
            proof {
                let rest = self.layout@.subrange(k as int, self.layout@.len() as int);
                assert(rest[0] == a);
                assert(rest.drop_first() =~= self.layout@.subrange(
                    k as int + 1,
                    self.layout@.len() as int,
                ));
            }
            if a.usage == usage {
                return Some(a);
            }
            k += 1;
        }
        None
    }

    /// Reads `n` components of attribute `usage` of vertex `i`.
    fn read_n(&self, i: usize, usage: VertexAttributeUsage, n: usize) -> (r: Result<
        Vec<u32>,
        VertexFetchError,
    >)
        requires
            self.wf(),
            n <= 4,
        ensures
            r is Ok <==> self.spec_read(i as int, usage, n as nat) is Ok,
            r is Ok ==> r->Ok_0@ == self.spec_read(i as int, usage, n as nat)->Ok_0,
            r is Err ==> self.spec_read(i as int, usage, n as nat) == Err::<
                Seq<u32>,
                VertexFetchError,
            >(r->Err_0),
    {
        if i >= self.vertex_count {
            return Err(VertexFetchError::IndexOutOfRange(i));
        }
        let a = match self.find(usage) {
            Some(a) => a,
            None => {
                return Err(VertexFetchError::NoSuchAttribute(usage));
            },
        };
        if (a.size as usize) < n {
            return Err(VertexFetchError::NotEnoughComponents(usage));
        }
        proof {
            lemma_attribute_of_member(self.layout@, usage);
            let k = choose|k: int| 0 <= k < self.layout@.len() && self.layout@[k] == a;
            assert(a.offset + a.size <= self.stride);
            lemma_mul_bound(i as int, self.vertex_count as int, self.stride as int, a.offset + a.size);
        }
        let total: usize = self.data.len();
        assert(i * self.stride + a.offset + a.size <= total);
        let base = i * self.stride + a.offset as usize;
        let mut out: Vec<u32> = Vec::new();
        let mut c: usize = 0;
        while c < n
            invariant
                c <= n,
                n <= a.size,
                base == self.word_index(i as int, a, 0),
                base + a.size <= self.data@.len(),
                total == self.data@.len(),
                out@ =~= Seq::new(c as nat, |m: int| self.data@[self.word_index(i as int, a, m)]),
            decreases n - c,
        {
            out.push(self.data[base + c]);
            c += 1;
        }
        Ok(out)
    }

    /// Reads a two-component attribute of vertex `i`.
    pub fn read_2(&self, i: usize, usage: VertexAttributeUsage) -> (r: Result<
        [u32; 2],
        VertexFetchError,
    >)
        requires
            self.wf(),
        ensures
            r is Ok <==> self.spec_read(i as int, usage, 2) is Ok,
            r is Ok ==> r->Ok_0@ == self.spec_read(i as int, usage, 2)->Ok_0,
            r is Err ==> self.spec_read(i as int, usage, 2) == Err::<Seq<u32>, VertexFetchError>(
                r->Err_0,
            ),
    {
        let v = self.read_n(i, usage, 2)?;
        let out = [v[0], v[1]];
        assert(out@ =~= v@);
        Ok(out)
    }

    /// Reads a three-component attribute of vertex `i`.
    pub fn read_3(&self, i: usize, usage: VertexAttributeUsage) -> (r: Result<
        [u32; 3],
        VertexFetchError,
    >)
        requires
            self.wf(),
        ensures
            r is Ok <==> self.spec_read(i as int, usage, 3) is Ok,
            r is Ok ==> r->Ok_0@ == self.spec_read(i as int, usage, 3)->Ok_0,
            r is Err ==> self.spec_read(i as int, usage, 3) == Err::<Seq<u32>, VertexFetchError>(
                r->Err_0,
            ),
    {
        let v = self.read_n(i, usage, 3)?;
        let out = [v[0], v[1], v[2]];
        assert(out@ =~= v@);
        Ok(out)
    }

    /// Reads a four-component attribute of vertex `i`.
    pub fn read_4(&self, i: usize, usage: VertexAttributeUsage) -> (r: Result<
        [u32; 4],
        VertexFetchError,
    >)
        requires
            self.wf(),
        ensures
            r is Ok <==> self.spec_read(i as int, usage, 4) is Ok,
            r is Ok ==> r->Ok_0@ == self.spec_read(i as int, usage, 4)->Ok_0,
            r is Err ==> self.spec_read(i as int, usage, 4) == Err::<Seq<u32>, VertexFetchError>(
                r->Err_0,
            ),
    {
        let v = self.read_n(i, usage, 4)?;
        let out = [v[0], v[1], v[2], v[3]];
        assert(out@ =~= v@);
        Ok(out)
    }

    /// Writes the components `vals` into attribute `usage` of vertex `i`; on
    /// failure the buffer is left as it was.
    pub fn write(&mut self, i: usize, usage: VertexAttributeUsage, vals: &[u32]) -> (r: Result<
        (),
        VertexFetchError,
    >)
        requires
            old(self).wf(),
            vals@.len() <= 4,
        ensures
            final(self).wf(),
            r is Ok <==> old(self).spec_write(i as int, usage, vals@) is Ok,
            r is Ok ==> old(self).with_data(final(self), old(self).spec_write(i as int, usage, vals@)->Ok_0),
            r is Err ==> *final(self) == *old(self) && old(self).spec_write(i as int, usage, vals@)
                == Err::<Seq<u32>, VertexFetchError>(r->Err_0),
    {
        if i >= self.vertex_count {
            return Err(VertexFetchError::IndexOutOfRange(i));
        }
        let a = match self.find(usage) {
            Some(a) => a,
            None => {
                return Err(VertexFetchError::NoSuchAttribute(usage));
            },
        };
        if (a.size as usize) < vals.len() {
            return Err(VertexFetchError::NotEnoughComponents(usage));
        }
        proof {
            lemma_attribute_of_member(self.layout@, usage);
            let k = choose|k: int| 0 <= k < self.layout@.len() && self.layout@[k] == a;
            assert(a.offset + a.size <= self.stride);
            lemma_mul_bound(i as int, self.vertex_count as int, self.stride as int, a.offset + a.size);
        }
        let ghost before = self.data@;
        let ghost target = old(self).spec_write(i as int, usage, vals@)->Ok_0;
        let total: usize = self.data.len();
        assert(i * self.stride + a.offset + a.size <= total);
        let base = i * self.stride + a.offset as usize;
        let mut c: usize = 0;
        while c < vals.len()
            invariant
                c <= vals@.len(),
                vals@.len() <= a.size,
                base == old(self).word_index(i as int, a, 0),
                base + a.size <= before.len(),
                total == before.len(),
                self.layout@ == old(self).layout@,
                self.stride == old(self).stride,
                self.vertex_count == old(self).vertex_count,
                before == old(self).data@,
                target == old(self).spec_write(i as int, usage, vals@)->Ok_0,
                self.data@.len() == before.len(),
                forall|p: int|
                    0 <= p < before.len() ==> #[trigger] self.data@[p] == if base <= p < base + c {
                        vals@[p - base]
                    } else {
                        before[p]
                    },
            decreases vals@.len() - c,
        {
            self.data.set(base + c, vals[c]);
            c += 1;
        }
        assert(self.data@ =~= target);
        Ok(())
    }

    /// Removes every vertex; the layout stays.
    pub fn clear(&mut self)
        requires
            old(self).wf(),
        ensures
            final(self).wf(),
            final(self).spec_layout() == old(self).spec_layout(),
            final(self).spec_stride() == old(self).spec_stride(),
            final(self).spec_vertex_count() == 0,
            final(self).spec_data().len() == 0,
    {
        self.data = Vec::new();
        self.vertex_count = 0;
    }

    /// Little-endian bytes of all words, as hashed for content identity.
    pub fn byte_image(&self) -> (r: Vec<u8>)
        ensures
            r@ == words_le_bytes(self.spec_data()),
    {
        words_to_bytes(self.data.as_slice())
    }
}

/// Whether attribute `usage` of the layout has at least `n` components, and
/// the error a read would give if not.
pub open spec fn attribute_check(l: Seq<VertexAttribute>, usage: VertexAttributeUsage, n: nat) -> Result<
    (),
    VertexFetchError,
> {
    match attribute_of(l, usage) {
        None => Err(VertexFetchError::NoSuchAttribute(usage)),
        Some(a) => if (a.size as nat) < n {
            Err(VertexFetchError::NotEnoughComponents(usage))
        } else {
            Ok(())
        },
    }
}

/// Little-endian bytes of one word.
pub open spec fn word_bytes(w: u32) -> Seq<u8> {
    seq![(w & 0xff) as u8, ((w >> 8u32) & 0xff) as u8, ((w >> 16u32) & 0xff) as u8, (w >> 24u32) as u8]
}

/// Little-endian bytes of a sequence of words, word after word.
pub open spec fn words_le_bytes(s: Seq<u32>) -> Seq<u8>
    decreases s.len(),
{
    if s.len() == 0 {
        Seq::empty()
    } else {
        words_le_bytes(s.drop_last()) + word_bytes(s.last())
    }
}

/// Little-endian bytes of `s`, word after word.
pub fn words_to_bytes(s: &[u32]) -> (r: Vec<u8>)
    ensures
        r@ == words_le_bytes(s@),
{
    let mut out: Vec<u8> = Vec::new();
    let mut k: usize = 0;
    while k < s.len()
        invariant
            k <= s@.len(),
            out@ == words_le_bytes(s@.subrange(0, k as int)),
        decreases s@.len() - k,
    {
        let w = s[k];
        out.push((w & 0xff) as u8);
        out.push(((w >> 8u32) & 0xff) as u8);
        out.push(((w >> 16u32) & 0xff) as u8);
        out.push((w >> 24u32) as u8);
        proof {
            assert(s@.subrange(0, k as int + 1).drop_last() =~= s@.subrange(0, k as int));
        }
        k += 1;
        assert(out@ =~= words_le_bytes(s@.subrange(0, k as int)));
    }
    assert(s@.subrange(0, s@.len() as int) =~= s@);
    out
}

/// Three vertex indices forming one triangle.
#[derive(Clone, Copy, Debug, PartialEq, Eq)]
pub struct TriangleDefinition(pub [u32; 3]);

/// The indices of all triangles, three after three.
pub open spec fn triangle_words(t: Seq<TriangleDefinition>) -> Seq<u32>
    decreases t.len(),
{
    if t.len() == 0 {
        Seq::empty()
    } else {
        triangle_words(t.drop_last()) + t.last().0@
    }
}

/// Every index of every triangle names one of `vertex_count` vertices.
pub open spec fn indices_in_range(t: Seq<TriangleDefinition>, vertex_count: nat) -> bool {
    forall|k: int, c: int| 0 <= k < t.len() && 0 <= c < 3 ==> (#[trigger] t[k].0[c]) < vertex_count
}

/// Ordered list of triangles over a vertex buffer.
#[derive(Clone, Debug)]
pub struct GeometryBuffer {
    triangles: Vec<TriangleDefinition>,
}

impl GeometryBuffer {
    pub closed spec fn spec_triangles(&self) -> Seq<TriangleDefinition> {
        self.triangles@
    }

    /// Buffer holding the given triangles.
    pub fn new(triangles: Vec<TriangleDefinition>) -> (r: Self)
        ensures
            r.spec_triangles() == triangles@,
    {
        GeometryBuffer { triangles }
    }

    /// Number of triangles.
    pub fn len(&self) -> (r: usize)
        ensures
            r == self.spec_triangles().len(),
    {
        self.triangles.len()
    }

    /// Whether there is no triangle.
    pub fn is_empty(&self) -> (r: bool)
        ensures
            r == (self.spec_triangles().len() == 0),
    {
        self.triangles.len() == 0
    }

    /// The triangles in order.
    pub fn triangles_ref(&self) -> (r: &[TriangleDefinition])
        ensures
            r@ == self.spec_triangles(),
    {
        self.triangles.as_slice()
    }

    /// Removes every triangle.
    pub fn clear(&mut self)
        ensures
            final(self).spec_triangles().len() == 0,
    {
        self.triangles = Vec::new();
    }

    /// Little-endian bytes of all indices, as hashed for content identity.
    pub fn byte_image(&self) -> (r: Vec<u8>)
        ensures
            r@ == words_le_bytes(triangle_words(self.spec_triangles())),
    {
        let mut words: Vec<u32> = Vec::new();
        let mut k: usize = 0;
        while k < self.triangles.len()
            invariant
                k <= self.triangles@.len(),
                words@ == triangle_words(self.triangles@.subrange(0, k as int)),
            decreases self.triangles@.len() - k,
        {
            let t = self.triangles[k];
            words.push(t.0[0]);
            words.push(t.0[1]);
            words.push(t.0[2]);
            proof {
                assert(self.triangles@.subrange(0, k as int + 1).drop_last() =~= self.triangles@.subrange(
                    0,
                    k as int,
                ));
            }
            k += 1;
            assert(words@ =~= triangle_words(self.triangles@.subrange(0, k as int)));
        }
        assert(self.triangles@.subrange(0, self.triangles@.len() as int) =~= self.triangles@);
        words_to_bytes(words.as_slice())
    }
}

} // verus!
