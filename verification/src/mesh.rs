use vstd::prelude::*;

verus! {

/// An exactly described point or direction in model space.
///
/// The generators fix every coordinate exactly: grid vertices are lattice
/// points, sphere vertices are icosahedron corners or normalized edge
/// midpoints. Turning a `Coord` into floating-point coordinates is the
/// renderer layer's business; the verified core never computes with floats.
#[derive(Clone, Copy, Debug, PartialEq, Eq, Structural)]
pub enum Coord {
    /// Lattice point `(i, j)` of a planar grid: the point at fraction
    /// `i / segments_x` of the width and `j / segments_z` of the depth,
    /// measured from the corner `(-width/2, 0, -depth/2)`, with `y == 0`.
    Lattice { i: u32, j: u32 },
    /// The unit vector along +Y.
    UnitY,
    /// Corner `id` of the regular icosahedron inscribed in the unit sphere.
    Icosa { id: u32 },
    /// The midpoint of mesh vertices `a` and `b`, projected onto the unit
    /// sphere. Both refer to earlier vertices of the same mesh.
    Midpoint { a: u32, b: u32 },
}

/// One mesh vertex: a position and a unit-length normal, both exact.
#[derive(Clone, Copy, Debug, PartialEq, Eq, Structural)]
pub struct Vertex {
    pub position: Coord,
    pub normal: Coord,
}

/// One triangle, as three indices into a vertex list.
#[derive(Clone, Copy, Debug, PartialEq, Eq, Structural)]
pub struct Triangle {
    pub a: u32,
    pub b: u32,
    pub c: u32,
}

impl Triangle {
    /// All three corners refer to one of `n` vertices.
    pub open spec fn in_bounds(self, n: int) -> bool {
        self.a < n && self.b < n && self.c < n
    }
}

/// A generated mesh: an ordered vertex list plus an ordered triangle list.
/// Generation happens once; the data is read-only geometry thereafter.
#[derive(Debug, PartialEq)]
pub struct Mesh {
    pub vertices: Vec<Vertex>,
    pub triangles: Vec<Triangle>,
}

impl Mesh {
    /// Every triangle refers only to existing vertices.
    pub open spec fn wf(self) -> bool {
        forall|t: int|
            0 <= t < self.triangles@.len() ==> (#[trigger] self.triangles@[t]).in_bounds(
                self.vertices@.len() as int,
            )
    }

    /// A copy of the vertex list, ready for upload.
    pub fn vertex_data(&self) -> (r: Vec<Vertex>)
        ensures
            r@ == self.vertices@,
    {
        let mut r: Vec<Vertex> = Vec::new();
        let mut k: usize = 0;
        while k < self.vertices.len()
            invariant
                k <= self.vertices@.len(),
                r@ == self.vertices@.subrange(0, k as int),
            decreases self.vertices@.len() - k,
        {
            r.push(self.vertices[k]);
            proof {
                assert(r@ =~= self.vertices@.subrange(0, k + 1));
            }
            k = k + 1;
        }
        proof {
            assert(r@ =~= self.vertices@);
        }
        r
    }

    /// A copy of the triangle list.
    pub fn triangle_data(&self) -> (r: Vec<Triangle>)
        ensures
            r@ == self.triangles@,
    {
        let mut r: Vec<Triangle> = Vec::new();
        let mut k: usize = 0;
        while k < self.triangles.len()
            invariant
                k <= self.triangles@.len(),
                r@ == self.triangles@.subrange(0, k as int),
            decreases self.triangles@.len() - k,
        {
            r.push(self.triangles[k]);
            proof {
                assert(r@ =~= self.triangles@.subrange(0, k + 1));
            }
            k = k + 1;
        }
        proof {
            assert(r@ =~= self.triangles@);
        }
        r
    }
}

/// How a vertex stream without an index buffer is to be drawn.
#[derive(Clone, Copy, Debug, PartialEq, Eq, Structural)]
pub enum PrimitiveKind {
    /// One point per vertex (used by the normal-vector debug pass).
    Points,
    /// Three consecutive vertices per triangle.
    Triangles,
}

/// Index data handed to a renderer: either none (the vertex stream is drawn
/// directly as primitives) or an explicit triangle list.
#[derive(Debug, PartialEq)]
pub enum RenderableIndices {
    NoIndex(PrimitiveKind),
    Buffer(Vec<Triangle>),
}

/// The mathematical value of a `RenderableIndices`.
pub enum TopologyView {
    Unindexed(PrimitiveKind),
    Indexed(Seq<Triangle>),
}

impl View for RenderableIndices {
    type V = TopologyView;

    open spec fn view(&self) -> TopologyView {
        match self {
            RenderableIndices::NoIndex(kind) => TopologyView::Unindexed(*kind),
            RenderableIndices::Buffer(tris) => TopologyView::Indexed(tris@),
        }
    }
}

/// The capability of a generated shape: hand a renderer its vertex and
/// index data in GPU-independent form. There is no mutation here; a shape
/// is generated once and exposes read-only geometry.
pub trait BuildRenderable {
    /// The vertex list this shape exposes.
    spec fn vertex_view(&self) -> Seq<Vertex>;

    /// The topology this shape exposes.
    spec fn topology_view(&self) -> TopologyView;

    /// A copy of the vertex data, ready for upload.
    fn get_vertex_data(&self) -> (r: Vec<Vertex>)
        ensures
            r@ == self.vertex_view(),
    ;

    /// A copy of the index data.
    fn get_indices(&self) -> (r: RenderableIndices)
        ensures
            r@ == self.topology_view(),
    ;
}

/// A shape's data gathered for a renderer, detached from its generator.
pub struct RenderableObj {
    pub vertices: Vec<Vertex>,
    pub indices: RenderableIndices,
}

impl RenderableObj {
    /// Gather the vertex and index data of any renderable shape.
    pub fn new<T: BuildRenderable>(obj: &T) -> (r: RenderableObj)
        ensures
            r.vertices@ == obj.vertex_view(),
            r.indices@ == obj.topology_view(),
    {
        RenderableObj { vertices: obj.get_vertex_data(), indices: obj.get_indices() }
    }
}

} // verus!
