use crate::mesh::{
    BuildRenderable, Coord, Mesh, RenderableIndices, TopologyView, Triangle, Vertex,
};
use crate::Error;
use vstd::arithmetic::div_mod::lemma_fundamental_div_mod_converse;
use vstd::prelude::*;

verus! {

/// A planar subdivided quad mesh: `segments_x` cells wide and `segments_z`
/// cells deep, lying in the XZ plane, centered at the origin, every normal
/// pointing straight up.
#[derive(Debug)]
pub struct Grid {
    pub segments_x: u32,
    pub segments_z: u32,
    pub mesh: Mesh,
}

/// The vertex at lattice point `(i, j)`: a point of the Y = 0 plane with
/// the unit +Y normal.
pub open spec fn grid_vertex(i: int, j: int) -> Vertex {
    Vertex { position: Coord::Lattice { i: i as u32, j: j as u32 }, normal: Coord::UnitY }
}

/// The flat index of lattice point `(i, j)` in a grid `sx` segments wide.
pub open spec fn flat_index(sx: int, i: int, j: int) -> int {
    j * (sx + 1) + i
}

/// The vertex stored at flat index `k` of a grid `sx` segments wide.
pub open spec fn grid_vertex_at(sx: int, k: int) -> Vertex {
    grid_vertex(k % (sx + 1), k / (sx + 1))
}

/// The triangle stored at slot `t`: slots `2*c` and `2*c + 1` carry the two
/// halves of lattice cell `(i, j) = (c % sx, c / sx)`, split along the cell
/// diagonal and wound consistently.
pub open spec fn grid_triangle_at(sx: int, t: int) -> Triangle {
    let c = t / 2;
    let i = c % sx;
    let j = c / sx;
    let v00 = flat_index(sx, i, j) as u32;
    let v10 = flat_index(sx, i + 1, j) as u32;
    let v01 = flat_index(sx, i, j + 1) as u32;
    let v11 = flat_index(sx, i + 1, j + 1) as u32;
    if t % 2 == 0 {
        Triangle { a: v00, b: v10, c: v01 }
    } else {
        Triangle { a: v10, b: v11, c: v01 }
    }
}

/// Everything `Grid::new` promises of a grid built for `(sx, sz)`:
/// exactly `(sx+1)*(sz+1)` lattice vertices in row-major order, all
/// normals up, and exactly `2*sx*sz` triangles, two per cell.
pub open spec fn grid_ok(g: Grid, sx: u32, sz: u32) -> bool {
    &&& g.segments_x == sx
    &&& g.segments_z == sz
    &&& g.mesh.vertices@.len() == (sx + 1) * (sz + 1)
    &&& forall|k: int|
        0 <= k < g.mesh.vertices@.len() ==> #[trigger] g.mesh.vertices@[k] == grid_vertex_at(
            sx as int,
            k,
        )
    &&& g.mesh.triangles@.len() == 2 * sx * sz
    &&& forall|t: int|
        0 <= t < g.mesh.triangles@.len() ==> #[trigger] g.mesh.triangles@[t] == grid_triangle_at(
            sx as int,
            t,
        )
}

impl Grid {
    /// Build the subdivided plane. Fails with `InvalidParameter` when a
    /// segment count is zero, or when the lattice would not fit the `u32`
    /// index space.
    pub fn new(segments_x: u32, segments_z: u32) -> (r: Result<Grid, Error>)
        ensures
            r is Ok <==> (1 <= segments_x && 1 <= segments_z && (segments_x + 1) * (segments_z + 1)
                <= u32::MAX),
            r is Err ==> r == Err::<Grid, Error>(Error::InvalidParameter),
            r matches Ok(g) ==> grid_ok(g, segments_x, segments_z) && g.mesh.wf(),
    {
        let nx = segments_x as u128 + 1;
        let nz = segments_z as u128 + 1;
        proof {
            assert(nx * nz <= 0x1_0000_0000 * 0x1_0000_0000) by (nonlinear_arith)
                requires
                    nx <= 0x1_0000_0000,
                    nz <= 0x1_0000_0000,
            ;
        }
        if segments_x == 0 || segments_z == 0 || nx * nz > u32::MAX as u128 {
            return Err(Error::InvalidParameter);
        }
        let sx = segments_x;
        let sz = segments_z;
        proof {
            assert(2 * ((sx + 1) as int) <= ((sx + 1) as int) * ((sz + 1) as int)
                && 2 * ((sz + 1) as int) <= ((sx + 1) as int) * ((sz + 1) as int))
                by (nonlinear_arith)
                requires
                    1 <= sx,
                    1 <= sz,
            ;
        }

        let mut vertices: Vec<Vertex> = Vec::new();
        let mut j: u32 = 0;
        while j <= sz
            invariant
                1 <= sx,
                1 <= sz,
                (sx + 1) * (sz + 1) <= u32::MAX,
                sx + 1 <= 0x8000_0000,
                sz + 1 <= 0x8000_0000,
                j <= sz + 1,
                vertices@.len() == j * (sx + 1),
                forall|k: int|
                    0 <= k < vertices@.len() ==> #[trigger] vertices@[k] == grid_vertex_at(
                        sx as int,
                        k,
                    ),
            decreases sz + 1 - j,
        {
            let mut i: u32 = 0;
            while i <= sx
                invariant
                    1 <= sx,
                    1 <= sz,
                    (sx + 1) * (sz + 1) <= u32::MAX,
                    sx + 1 <= 0x8000_0000,
                    sz + 1 <= 0x8000_0000,
                    j <= sz,
                    i <= sx + 1,
                    vertices@.len() == j * (sx + 1) + i,
                    forall|k: int|
                        0 <= k < vertices@.len() ==> #[trigger] vertices@[k] == grid_vertex_at(
                            sx as int,
                            k,
                        ),
                decreases sx + 1 - i,
            {
                proof {
                    assert(j * ((sx + 1) as int) + i < ((sx + 1) as int) * ((sz + 1) as int))
                        by (nonlinear_arith)
                        requires
                            j <= sz,
                            i <= sx,
                    ;
                }
                vertices.push(Vertex { position: Coord::Lattice { i, j }, normal: Coord::UnitY });
                proof {
                    lemma_fundamental_div_mod_converse(
                        j * ((sx + 1) as int) + i,
                        (sx + 1) as int,
                        j as int,
                        i as int,
                    );
                }
                i = i + 1;
            }
            proof {
                assert((j + 1) * ((sx + 1) as int) == j * ((sx + 1) as int) + ((sx + 1) as int))
                    by (nonlinear_arith);
            }
            j = j + 1;
        }

        proof {
            assert(((sz + 1) as int) * ((sx + 1) as int) == ((sx + 1) as int) * ((sz + 1) as int))
                by (nonlinear_arith);
        }
        let total = vertices.len();
        let mut triangles: Vec<Triangle> = Vec::new();
        let mut j: u32 = 0;
        while j < sz
            invariant
                1 <= sx,
                1 <= sz,
                (sx + 1) * (sz + 1) <= u32::MAX,
                sx + 1 <= 0x8000_0000,
                sz + 1 <= 0x8000_0000,
                total == (sx + 1) * (sz + 1),
                j <= sz,
                triangles@.len() == 2 * (j * sx),
                forall|t: int|
                    0 <= t < triangles@.len() ==> #[trigger] triangles@[t] == grid_triangle_at(
                        sx as int,
                        t,
                    ),
                forall|t: int|
                    0 <= t < triangles@.len() ==> (#[trigger] triangles@[t]).in_bounds(
                        total as int,
                    ),
            decreases sz - j,
        {
            let mut i: u32 = 0;
            while i < sx
                invariant
                    1 <= sx,
                    1 <= sz,
                    (sx + 1) * (sz + 1) <= u32::MAX,
                    sx + 1 <= 0x8000_0000,
                    sz + 1 <= 0x8000_0000,
                    total == (sx + 1) * (sz + 1),
                    j < sz,
                    i <= sx,
                    triangles@.len() == 2 * (j * sx + i),
                    forall|t: int|
                        0 <= t < triangles@.len() ==> #[trigger] triangles@[t] == grid_triangle_at(
                            sx as int,
                            t,
                        ),
                    forall|t: int|
                        0 <= t < triangles@.len() ==> (#[trigger] triangles@[t]).in_bounds(
                            total as int,
                        ),
                decreases sx - i,
            {
                proof {
                    assert(j * ((sx + 1) as int) + i + ((sx + 1) as int) + 1 < ((sx + 1) as int) * (
                    (sz + 1) as int)) by (nonlinear_arith)
                        requires
                            0 <= i < sx as int,
                            0 <= j < sz as int,
                    ;
                    assert(2 * (j * (sx as int) + i) + 1 < 2 * ((sx as int) * (sz as int)))
                        by (nonlinear_arith)
                        requires
                            0 <= i < sx as int,
                            0 <= j < sz as int,
                    ;
                }
                let v00 = j * (sx + 1) + i;
                let v10 = v00 + 1;
                let v01 = v00 + (sx + 1);
                let v11 = v01 + 1;
                let ghost c = j * (sx as int) + i;
                proof {
                    assert((j + 1) * ((sx + 1) as int) == j * ((sx + 1) as int) + ((sx + 1) as int))
                        by (nonlinear_arith);
                    lemma_fundamental_div_mod_converse(2 * c, 2, c, 0);
                    lemma_fundamental_div_mod_converse(2 * c + 1, 2, c, 1);
                    lemma_fundamental_div_mod_converse(c, sx as int, j as int, i as int);
                    assert(grid_triangle_at(sx as int, 2 * c) == Triangle {
                        a: v00,
                        b: v10,
                        c: v01,
                    });
                    assert(grid_triangle_at(sx as int, 2 * c + 1) == Triangle {
                        a: v10,
                        b: v11,
                        c: v01,
                    });
                }
                triangles.push(Triangle { a: v00, b: v10, c: v01 });
                triangles.push(Triangle { a: v10, b: v11, c: v01 });
                i = i + 1;
            }
            proof {
                assert((j + 1) * (sx as int) == j * (sx as int) + (sx as int))
                    by (nonlinear_arith);
            }
            j = j + 1;
        }
        proof {
            assert(2 * ((sz as int) * (sx as int)) == 2 * (sx as int) * (sz as int))
                by (nonlinear_arith);
        }

        Ok(Grid { segments_x: sx, segments_z: sz, mesh: Mesh { vertices, triangles } })
    }
}

/// Layout law: the vertex at lattice point `(i, j)` sits at flat index
/// `j*(sx+1)+i` and is that lattice point with the unit +Y normal; the two
/// triangles of cell `(i, j)` are `{(i,j),(i+1,j),(i,j+1)}` and
/// `{(i+1,j),(i+1,j+1),(i,j+1)}` by those flat indices.
pub proof fn lemma_grid_layout(g: Grid, sx: u32, sz: u32, i: int, j: int)
    requires
        grid_ok(g, sx, sz),
        1 <= sx,
        1 <= sz,
        0 <= i <= sx,
        0 <= j <= sz,
    ensures
        0 <= flat_index(sx as int, i, j) < g.mesh.vertices@.len(),
        g.mesh.vertices@[flat_index(sx as int, i, j)] == grid_vertex(i, j),
        i < sx && j < sz ==> {
            let c = j * sx + i;
            &&& 0 <= 2 * c + 1 < g.mesh.triangles@.len()
            &&& g.mesh.triangles@[2 * c] == Triangle {
                a: flat_index(sx as int, i, j) as u32,
                b: flat_index(sx as int, i + 1, j) as u32,
                c: flat_index(sx as int, i, j + 1) as u32,
            }
            &&& g.mesh.triangles@[2 * c + 1] == Triangle {
                a: flat_index(sx as int, i + 1, j) as u32,
                b: flat_index(sx as int, i + 1, j + 1) as u32,
                c: flat_index(sx as int, i, j + 1) as u32,
            }
        },
{
    assert(j * ((sx + 1) as int) + i < ((sx + 1) as int) * ((sz + 1) as int)) by (nonlinear_arith)
        requires
            0 <= i <= sx as int,
            0 <= j <= sz as int,
    ;
    lemma_fundamental_div_mod_converse(flat_index(sx as int, i, j), (sx + 1) as int, j, i);
    if i < sx && j < sz {
        let c = j * sx + i;
        assert(0 <= j * (sx as int) + i && 2 * (j * (sx as int) + i) + 1 < 2 * (sx as int) * (
        sz as int)) by (nonlinear_arith)
            requires
                0 <= i < sx as int,
                0 <= j < sz as int,
        ;
        lemma_fundamental_div_mod_converse(2 * c, 2, c, 0);
        lemma_fundamental_div_mod_converse(2 * c + 1, 2, c, 1);
        lemma_fundamental_div_mod_converse(c, sx as int, j, i);
    }
}

/// Flatness law: every vertex of a grid lies in the Y = 0 plane (its
/// position is a lattice point) and carries the unit +Y normal.
pub proof fn lemma_grid_flat_up(g: Grid, sx: u32, sz: u32, k: int)
    requires
        grid_ok(g, sx, sz),
        0 <= k < g.mesh.vertices@.len(),
    ensures
        g.mesh.vertices@[k].position is Lattice,
        g.mesh.vertices@[k].normal == Coord::UnitY,
{
}

/// Determinism law: two grids that `Grid::new` could have returned for the
/// same parameters carry identical mesh data.
pub proof fn lemma_grid_deterministic(g1: Grid, g2: Grid, sx: u32, sz: u32)
    requires
        grid_ok(g1, sx, sz),
        grid_ok(g2, sx, sz),
    ensures
        g1.mesh.vertices@ == g2.mesh.vertices@,
        g1.mesh.triangles@ == g2.mesh.triangles@,
{
    assert(g1.mesh.vertices@ =~= g2.mesh.vertices@);
    assert(g1.mesh.triangles@ =~= g2.mesh.triangles@);
}

impl BuildRenderable for Grid {
    open spec fn vertex_view(&self) -> Seq<Vertex> {
        self.mesh.vertices@
    }

    open spec fn topology_view(&self) -> TopologyView {
        TopologyView::Indexed(self.mesh.triangles@)
    }

    fn get_vertex_data(&self) -> (r: Vec<Vertex>) {
        self.mesh.vertex_data()
    }

    fn get_indices(&self) -> (r: RenderableIndices) {
        RenderableIndices::Buffer(self.mesh.triangle_data())
    }
}

} // verus!
