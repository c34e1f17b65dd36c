use crate::mesh::{
    BuildRenderable, Coord, Mesh, RenderableIndices, TopologyView, Triangle, Vertex,
};
use crate::Error;
use std::collections::HashMap;
use vstd::assert_seqs_equal;
use vstd::prelude::*;

verus! {

broadcast use vstd::std_specs::hash::group_hash_axioms;

/// The deepest subdivision `IsoSphere::new` accepts. The bound keeps the
/// vertex indices provably inside the `u32` index space (and the meshes it
/// admits are already far beyond what any renderer draws).
pub const MAX_SUBDIVISIONS: u32 = 13;

/// `4^k`.
pub open spec fn pow4(k: nat) -> nat
    decreases k,
{
    if k == 0 {
        1
    } else {
        4 * pow4((k - 1) as nat)
    }
}

proof fn lemma_pow4_monotone(a: nat, b: nat)
    requires
        a <= b,
    ensures
        pow4(a) <= pow4(b),
    decreases b,
{
    if a < b {
        lemma_pow4_monotone(a, (b - 1) as nat);
        assert(pow4(b) == 4 * pow4((b - 1) as nat));
    }
}

proof fn lemma_pow4_12()
    ensures
        pow4(12) == 16777216,
{
    assert(pow4(0) == 1);
    assert(pow4(1) == 4);
    assert(pow4(2) == 16);
    assert(pow4(3) == 64);
    assert(pow4(4) == 256);
    assert(pow4(5) == 1024);
    assert(pow4(6) == 4096);
    assert(pow4(7) == 16384);
    assert(pow4(8) == 65536);
    assert(pow4(9) == 262144);
    assert(pow4(10) == 1048576);
    assert(pow4(11) == 4194304);
    assert(pow4(12) == 16777216);
}

/// The smaller of two vertex indices.
pub open spec fn lo(a: u32, b: u32) -> u32 {
    if a <= b {
        a
    } else {
        b
    }
}

/// The larger of two vertex indices.
pub open spec fn hi(a: u32, b: u32) -> u32 {
    if a <= b {
        b
    } else {
        a
    }
}

/// The exact coordinate of the sphere point halfway between vertices `a`
/// and `b`: their midpoint, projected onto the unit sphere. The unordered
/// pair is stored with the smaller index first.
pub open spec fn mid_of(a: u32, b: u32) -> Coord {
    Coord::Midpoint { a: lo(a, b), b: hi(a, b) }
}

/// What holds of vertex `k` of a sphere mesh: its normal is its position
/// (a unit vector on the sphere), the first 12 vertices are the
/// icosahedron corners in order, and every later vertex is the projected
/// midpoint of two strictly earlier ones — so positions can be evaluated
/// in one forward pass.
pub open spec fn sphere_vertex_ok(vs: Seq<Vertex>, k: int) -> bool {
    &&& vs[k].normal == vs[k].position
    &&& (k < 12 ==> vs[k].position == (Coord::Icosa { id: k as u32 }))
    &&& (k >= 12 ==> match vs[k].position {
        Coord::Midpoint { a, b } => (a as int) < k && (b as int) < k,
        _ => false,
    })
}

/// A well-formed sphere vertex list.
pub open spec fn sphere_verts_ok(vs: Seq<Vertex>) -> bool {
    &&& vs.len() >= 12
    &&& forall|k: int| 0 <= k < vs.len() ==> #[trigger] sphere_vertex_ok(vs, k)
}

/// The 20 faces of the base icosahedron, over its 12 corners.
pub open spec fn icosa_faces() -> Seq<Triangle> {
    seq![
        Triangle { a: 0, b: 11, c: 5 },
        Triangle { a: 0, b: 5, c: 1 },
        Triangle { a: 0, b: 1, c: 7 },
        Triangle { a: 0, b: 7, c: 10 },
        Triangle { a: 0, b: 10, c: 11 },
        Triangle { a: 1, b: 5, c: 9 },
        Triangle { a: 5, b: 11, c: 4 },
        Triangle { a: 11, b: 10, c: 2 },
        Triangle { a: 10, b: 7, c: 6 },
        Triangle { a: 7, b: 1, c: 8 },
        Triangle { a: 3, b: 9, c: 4 },
        Triangle { a: 3, b: 4, c: 2 },
        Triangle { a: 3, b: 2, c: 6 },
        Triangle { a: 3, b: 6, c: 8 },
        Triangle { a: 3, b: 8, c: 9 },
        Triangle { a: 4, b: 9, c: 5 },
        Triangle { a: 2, b: 4, c: 11 },
        Triangle { a: 6, b: 2, c: 10 },
        Triangle { a: 8, b: 6, c: 7 },
        Triangle { a: 9, b: 8, c: 1 },
    ]
}

/// The edge key of the unordered pair `(l, h)`, `l <= h`.
pub closed spec fn pack(l: u32, h: u32) -> u64 {
    ((l as u64) << 32) | (h as u64)
}

proof fn lemma_pack_injective(l1: u32, h1: u32, l2: u32, h2: u32)
    requires
        pack(l1, h1) == pack(l2, h2),
    ensures
        l1 == l2,
        h1 == h2,
{
    assert(((l1 as u64) << 32) | (h1 as u64) == ((l2 as u64) << 32) | (h2 as u64) ==> l1 == l2
        && h1 == h2) by (bit_vector);
}

/// The mathematical mirror of one midpoint lookup: either the unordered
/// pair is already cached, or a fresh midpoint vertex is appended and
/// remembered. The whole subdivision is defined from this step, so the
/// generated mesh is a function of the subdivision depth alone.
pub open spec fn spec_mid_step(vs: Seq<Vertex>, cache: Map<u64, u32>, a: u32, b: u32) -> (
    Seq<Vertex>,
    Map<u64, u32>,
    u32,
) {
    let key = pack(lo(a, b), hi(a, b));
    if cache.contains_key(key) {
        (vs, cache, cache[key])
    } else {
        let v = Vertex { position: mid_of(a, b), normal: mid_of(a, b) };
        (vs.push(v), cache.insert(key, vs.len() as u32), vs.len() as u32)
    }
}

/// The mathematical mirror of splitting one face into four.
pub open spec fn spec_split_face(vs: Seq<Vertex>, cache: Map<u64, u32>, t: Triangle) -> (
    Seq<Vertex>,
    Map<u64, u32>,
    Seq<Triangle>,
) {
    let (vs1, c1, ab) = spec_mid_step(vs, cache, t.a, t.b);
    let (vs2, c2, bc) = spec_mid_step(vs1, c1, t.b, t.c);
    let (vs3, c3, ca) = spec_mid_step(vs2, c2, t.c, t.a);
    (
        vs3,
        c3,
        seq![
            Triangle { a: t.a, b: ab, c: ca },
            Triangle { a: ab, b: t.b, c: bc },
            Triangle { a: ca, b: bc, c: t.c },
            Triangle { a: ab, b: bc, c: ca },
        ],
    )
}

/// The first `f` faces subdivided, starting from vertex list `vs0` and an
/// empty cache.
pub open spec fn spec_subdivide_upto(vs0: Seq<Vertex>, faces: Seq<Triangle>, f: int) -> (
    Seq<Vertex>,
    Map<u64, u32>,
    Seq<Triangle>,
)
    decreases f,
{
    if f <= 0 {
        (vs0, Map::empty(), Seq::empty())
    } else {
        let (vs, c, out) = spec_subdivide_upto(vs0, faces, f - 1);
        let (vs2, c2, four) = spec_split_face(vs, c, faces[f - 1]);
        (vs2, c2, out + four)
    }
}

/// One whole subdivision pass, mathematically.
pub open spec fn spec_subdivide(vs0: Seq<Vertex>, faces: Seq<Triangle>) -> (
    Seq<Vertex>,
    Seq<Triangle>,
) {
    let (vs, c, out) = spec_subdivide_upto(vs0, faces, faces.len() as int);
    (vs, out)
}

/// The 12 icosahedron corners, each carrying itself as normal.
pub open spec fn icosa_verts() -> Seq<Vertex> {
    Seq::new(
        12,
        |k: int|
            Vertex { position: Coord::Icosa { id: k as u32 }, normal: Coord::Icosa { id: k as u32 } },
    )
}

/// The sphere mesh at depth `level`, mathematically: the icosahedron,
/// subdivided `level` times.
pub open spec fn spec_sphere_at(level: nat) -> (Seq<Vertex>, Seq<Triangle>)
    decreases level,
{
    if level == 0 {
        (icosa_verts(), icosa_faces())
    } else {
        let prev = spec_sphere_at((level - 1) as nat);
        spec_subdivide(prev.0, prev.1)
    }
}

/// What holds of the midpoint cache throughout one subdivision pass: each
/// entry maps the key of an unordered vertex pair to a vertex that is the
/// projected midpoint of exactly that pair.
spec fn cache_wf(m: Map<u64, u32>, vs: Seq<Vertex>) -> bool {
    forall|l: u32, h: u32| #[trigger] m.contains_key(pack(l, h)) ==> {
        &&& (m[pack(l, h)] as int) < vs.len()
        &&& vs[m[pack(l, h)] as int].position == (Coord::Midpoint { a: l, b: h })
    }
}

/// Look up — or create, remember and return — the vertex at the projected
/// midpoint of vertices `a` and `b`. The cache guarantees that the two
/// faces sharing an edge reuse one midpoint vertex instead of growing
/// duplicates.
fn midpoint_index(
    vertices: &mut Vec<Vertex>,
    cache: &mut HashMap<u64, u32>,
    a: u32,
    b: u32,
) -> (idx: u32)
    requires
        sphere_verts_ok(old(vertices)@),
        cache_wf(old(cache)@, old(vertices)@),
        (a as int) < old(vertices)@.len(),
        (b as int) < old(vertices)@.len(),
        old(vertices)@.len() < u32::MAX,
    ensures
        old(vertices)@.len() <= final(vertices)@.len() <= old(vertices)@.len() + 1,
        forall|i: int|
            0 <= i < old(vertices)@.len() ==> #[trigger] final(vertices)@[i] == old(vertices)@[i],
        sphere_verts_ok(final(vertices)@),
        cache_wf(final(cache)@, final(vertices)@),
        (idx as int) < final(vertices)@.len(),
        final(vertices)@[idx as int].position == mid_of(a, b),
        final(vertices)@[idx as int].normal == final(vertices)@[idx as int].position,
        (final(vertices)@, final(cache)@, idx) == spec_mid_step(
            old(vertices)@,
            old(cache)@,
            a,
            b,
        ),
{
    let l = if a <= b { a } else { b };
    let h = if a <= b { b } else { a };
    let key: u64 = ((l as u64) << 32) | (h as u64);
    proof {
        assert(key == pack(l, h));
    }
    let cached = cache.get(&key);
    match cached {
        Some(found) => {
            let idx = *found;
            proof {
                assert(cache@.contains_key(pack(l, h)));
                assert(vertices@[idx as int].position == (Coord::Midpoint { a: l, b: h }));
                assert(sphere_vertex_ok(vertices@, idx as int));
            }
            idx
        },
        None => {
            let idx = vertices.len() as u32;
            let mp = Coord::Midpoint { a: l, b: h };
            vertices.push(Vertex { position: mp, normal: mp });
            cache.insert(key, idx);
            proof {
                let vs = vertices@;
                assert forall|k: int| 0 <= k < vs.len() implies #[trigger] sphere_vertex_ok(
                    vs,
                    k,
                ) by {
                    if k < vs.len() - 1 {
                        assert(sphere_vertex_ok(old(vertices)@, k));
                    }
                }
                assert forall|l2: u32, h2: u32| #[trigger] cache@.contains_key(
                    pack(l2, h2),
                ) implies {
                    &&& (cache@[pack(l2, h2)] as int) < vs.len()
                    &&& vs[cache@[pack(l2, h2)] as int].position == (Coord::Midpoint {
                        a: l2,
                        b: h2,
                    })
                } by {
                    if pack(l2, h2) == pack(l, h) {
                        lemma_pack_injective(l2, h2, l, h);
                    } else {
                        assert(old(cache)@.contains_key(pack(l2, h2)));
                    }
                }
            }
            idx
        },
    }
}

/// What one subdivided face looks like in the output: the four triangles
/// that replace face `q`, each corner of the parent kept, each edge split
/// at one shared midpoint vertex of the right unordered pair.
pub open spec fn face_split_ok(t: Triangle, q: int, out: Seq<Triangle>, vs: Seq<Vertex>) -> bool {
    let ab = out[4 * q].b;
    let bc = out[4 * q + 1].c;
    let ca = out[4 * q].c;
    &&& out[4 * q] == (Triangle { a: t.a, b: ab, c: ca })
    &&& out[4 * q + 1] == (Triangle { a: ab, b: t.b, c: bc })
    &&& out[4 * q + 2] == (Triangle { a: ca, b: bc, c: t.c })
    &&& out[4 * q + 3] == (Triangle { a: ab, b: bc, c: ca })
    &&& (ab as int) < vs.len() && vs[ab as int].position == mid_of(t.a, t.b)
    &&& (bc as int) < vs.len() && vs[bc as int].position == mid_of(t.b, t.c)
    &&& (ca as int) < vs.len() && vs[ca as int].position == mid_of(t.c, t.a)
}

/// One subdivision pass: every face becomes four, splitting each edge at
/// a midpoint vertex shared through the cache and projected onto the unit
/// sphere.
fn subdivide(vertices: &mut Vec<Vertex>, faces: &Vec<Triangle>) -> (out: Vec<Triangle>)
    requires
        sphere_verts_ok(old(vertices)@),
        forall|t: int|
            0 <= t < faces@.len() ==> (#[trigger] faces@[t]).in_bounds(old(vertices)@.len() as int),
        old(vertices)@.len() + 3 * faces@.len() <= u32::MAX,
    ensures
        out@.len() == 4 * faces@.len(),
        old(vertices)@.len() <= final(vertices)@.len() <= old(vertices)@.len() + 3 * faces@.len(),
        forall|i: int|
            0 <= i < old(vertices)@.len() ==> #[trigger] final(vertices)@[i] == old(vertices)@[i],
        sphere_verts_ok(final(vertices)@),
        forall|t: int|
            0 <= t < out@.len() ==> (#[trigger] out@[t]).in_bounds(final(vertices)@.len() as int),
        forall|q: int|
            0 <= q < faces@.len() ==> #[trigger] face_split_ok(
                faces@[q],
                q,
                out@,
                final(vertices)@,
            ),
        (final(vertices)@, out@) == spec_subdivide(old(vertices)@, faces@),
{
    let ghost orig_vs = old(vertices)@;
    let n0 = vertices.len();
    let mut cache: HashMap<u64, u32> = HashMap::new();
    let mut out: Vec<Triangle> = Vec::new();
    let mut f: usize = 0;
    while f < faces.len()
        invariant
            f <= faces@.len(),
            out@.len() == 4 * f,
            n0 == orig_vs.len(),
            n0 <= vertices@.len() <= n0 + 3 * f,
            n0 + 3 * faces@.len() <= u32::MAX,
            forall|i: int| 0 <= i < n0 ==> #[trigger] vertices@[i] == orig_vs[i],
            sphere_verts_ok(vertices@),
            cache_wf(cache@, vertices@),
            forall|t: int| 0 <= t < faces@.len() ==> (#[trigger] faces@[t]).in_bounds(n0 as int),
            forall|t: int|
                0 <= t < out@.len() ==> (#[trigger] out@[t]).in_bounds(vertices@.len() as int),
            forall|q: int| 0 <= q < f ==> #[trigger] face_split_ok(faces@[q], q, out@, vertices@),
            (vertices@, cache@, out@) == spec_subdivide_upto(orig_vs, faces@, f as int),
        decreases faces@.len() - f,
    {
        let ghost out0 = out@;
        let ghost vs0 = vertices@;
        let ghost cache0 = cache@;
        let tri = faces[f];
        let m_ab = midpoint_index(vertices, &mut cache, tri.a, tri.b);
        let m_bc = midpoint_index(vertices, &mut cache, tri.b, tri.c);
        let m_ca = midpoint_index(vertices, &mut cache, tri.c, tri.a);
        out.push(Triangle { a: tri.a, b: m_ab, c: m_ca });
        out.push(Triangle { a: m_ab, b: tri.b, c: m_bc });
        out.push(Triangle { a: m_ca, b: m_bc, c: tri.c });
        out.push(Triangle { a: m_ab, b: m_bc, c: m_ca });
        proof {
            let vs = vertices@;
            assert(vs[m_ab as int].position == mid_of(tri.a, tri.b));
            assert(vs[m_bc as int].position == mid_of(tri.b, tri.c));
            assert(vs[m_ca as int].position == mid_of(tri.c, tri.a));
            assert(out@[4 * f as int] == (Triangle { a: tri.a, b: m_ab, c: m_ca }));
            assert(out@[4 * f as int + 1] == (Triangle { a: m_ab, b: tri.b, c: m_bc }));
            assert(out@[4 * f as int + 2] == (Triangle { a: m_ca, b: m_bc, c: tri.c }));
            assert(out@[4 * f as int + 3] == (Triangle { a: m_ab, b: m_bc, c: m_ca }));
            assert(face_split_ok(faces@[f as int], f as int, out@, vs));
            let step = spec_split_face(vs0, cache0, faces@[f as int]);
            assert(out@ =~= out0 + step.2);
            assert((vertices@, cache@, out@) == spec_subdivide_upto(
                orig_vs,
                faces@,
                f as int + 1,
            ));
            assert forall|q: int| 0 <= q < f implies #[trigger] face_split_ok(
                faces@[q],
                q,
                out@,
                vs,
            ) by {
                assert(face_split_ok(faces@[q], q, out0, vs0));
                assert(out@[4 * q] == out0[4 * q]);
                assert(out@[4 * q + 1] == out0[4 * q + 1]);
                assert(out@[4 * q + 2] == out0[4 * q + 2]);
                assert(out@[4 * q + 3] == out0[4 * q + 3]);
            }
        }
        f = f + 1;
    }
    out
}

/// A geodesic sphere: the unit icosahedron, each face split four ways per
/// subdivision level, every new vertex projected back onto the sphere.
#[derive(Debug)]
pub struct IsoSphere {
    pub subdivisions: u32,
    pub mesh: Mesh,
}

/// Everything `IsoSphere::new` promises of a sphere built at depth `k`:
/// exactly `20 * 4^k` triangles over a well-formed sphere vertex list —
/// every vertex a point of the unit sphere carrying its own position as
/// normal — and, at depth 0, exactly the base icosahedron.
pub open spec fn sphere_ok(s: IsoSphere, k: u32) -> bool {
    &&& s.subdivisions == k
    &&& s.mesh.triangles@.len() == 20 * pow4(k as nat)
    &&& sphere_verts_ok(s.mesh.vertices@)
    &&& 12 <= s.mesh.vertices@.len()
    &&& s.mesh.vertices@.len() + 8 <= 20 * pow4(k as nat)
    &&& s.mesh.wf()
    &&& s.mesh.vertices@ == spec_sphere_at(k as nat).0
    &&& s.mesh.triangles@ == spec_sphere_at(k as nat).1
    &&& (k == 0 ==> s.mesh.vertices@.len() == 12 && s.mesh.triangles@ == icosa_faces())
}

/// Determinism law: the sphere mesh is a function of the subdivision
/// depth alone, so two spheres built at the same depth carry identical
/// mesh data.
pub proof fn lemma_sphere_deterministic(s1: IsoSphere, s2: IsoSphere, k: u32)
    requires
        sphere_ok(s1, k),
        sphere_ok(s2, k),
    ensures
        s1.mesh.vertices@ == s2.mesh.vertices@,
        s1.mesh.triangles@ == s2.mesh.triangles@,
{
}

impl IsoSphere {
    /// Build the geodesic sphere. Fails with `InvalidParameter` when the
    /// subdivision depth would overflow the mesh index space.
    pub fn new(subdivisions: u32) -> (r: Result<IsoSphere, Error>)
        ensures
            r is Ok <==> subdivisions <= MAX_SUBDIVISIONS,
            r is Err ==> r == Err::<IsoSphere, Error>(Error::InvalidParameter),
            r matches Ok(s) ==> sphere_ok(s, subdivisions),
    {
        if subdivisions > MAX_SUBDIVISIONS {
            return Err(Error::InvalidParameter);
        }

        let mut vertices: Vec<Vertex> = Vec::new();
        let mut b: u32 = 0;
        while b < 12
            invariant
                b <= 12,
                vertices@.len() == b,
                forall|k: int|
                    0 <= k < b ==> #[trigger] vertices@[k] == (Vertex {
                        position: Coord::Icosa { id: k as u32 },
                        normal: Coord::Icosa { id: k as u32 },
                    }),
            decreases 12 - b,
        {
            let p = Coord::Icosa { id: b };
            vertices.push(Vertex { position: p, normal: p });
            b = b + 1;
        }
        proof {
            assert forall|k: int| 0 <= k < vertices@.len() implies #[trigger] sphere_vertex_ok(
                vertices@,
                k,
            ) by {}
        }

        let mut faces: Vec<Triangle> = Vec::new();
        faces.push(Triangle { a: 0, b: 11, c: 5 });
        faces.push(Triangle { a: 0, b: 5, c: 1 });
        faces.push(Triangle { a: 0, b: 1, c: 7 });
        faces.push(Triangle { a: 0, b: 7, c: 10 });
        faces.push(Triangle { a: 0, b: 10, c: 11 });
        faces.push(Triangle { a: 1, b: 5, c: 9 });
        faces.push(Triangle { a: 5, b: 11, c: 4 });
        faces.push(Triangle { a: 11, b: 10, c: 2 });
        faces.push(Triangle { a: 10, b: 7, c: 6 });
        faces.push(Triangle { a: 7, b: 1, c: 8 });
        faces.push(Triangle { a: 3, b: 9, c: 4 });
        faces.push(Triangle { a: 3, b: 4, c: 2 });
        faces.push(Triangle { a: 3, b: 2, c: 6 });
        faces.push(Triangle { a: 3, b: 6, c: 8 });
        faces.push(Triangle { a: 3, b: 8, c: 9 });
        faces.push(Triangle { a: 4, b: 9, c: 5 });
        faces.push(Triangle { a: 2, b: 4, c: 11 });
        faces.push(Triangle { a: 6, b: 2, c: 10 });
        faces.push(Triangle { a: 8, b: 6, c: 7 });
        faces.push(Triangle { a: 9, b: 8, c: 1 });
        proof {
            assert_seqs_equal!(faces@ == icosa_faces());
            assert_seqs_equal!(vertices@ == icosa_verts());
        }

        let mut level: u32 = 0;
        while level < subdivisions
            invariant
                level <= subdivisions <= 13,
                faces@.len() == 20 * pow4(level as nat),
                sphere_verts_ok(vertices@),
                12 <= vertices@.len(),
                vertices@.len() + 8 <= 20 * pow4(level as nat),
                forall|t: int|
                    0 <= t < faces@.len() ==> (#[trigger] faces@[t]).in_bounds(
                        vertices@.len() as int,
                    ),
                level == 0 ==> vertices@.len() == 12 && faces@ == icosa_faces(),
                vertices@ == spec_sphere_at(level as nat).0,
                faces@ == spec_sphere_at(level as nat).1,
            decreases subdivisions - level,
        {
            proof {
                lemma_pow4_monotone(level as nat, 12);
                lemma_pow4_12();
            }
            let new_faces = subdivide(&mut vertices, &faces);
            faces = new_faces;
            proof {
                assert(pow4((level + 1) as nat) == 4 * pow4(level as nat));
                assert(spec_sphere_at((level + 1) as nat) == spec_subdivide(
                    spec_sphere_at(level as nat).0,
                    spec_sphere_at(level as nat).1,
                ));
            }
            level = level + 1;
        }

        Ok(IsoSphere { subdivisions, mesh: Mesh { vertices, triangles: faces } })
    }
}

/// Sphere normal law: every vertex of a sphere mesh carries its own
/// position as its normal — on a unit sphere centered at the origin they
/// are the same unit vector.
pub proof fn lemma_sphere_normals(s: IsoSphere, k: u32, v: int)
    requires
        sphere_ok(s, k),
        0 <= v < s.mesh.vertices@.len(),
    ensures
        s.mesh.vertices@[v].normal == s.mesh.vertices@[v].position,
{
    assert(sphere_vertex_ok(s.mesh.vertices@, v));
}

/// Determinism of the vertex prelude: every sphere mesh starts with the
/// same 12 icosahedron corners, in the same order, whatever the depth.
pub proof fn lemma_sphere_base_vertices(s: IsoSphere, k: u32, b: int)
    requires
        sphere_ok(s, k),
        0 <= b < 12,
    ensures
        s.mesh.vertices@[b] == (Vertex {
            position: Coord::Icosa { id: b as u32 },
            normal: Coord::Icosa { id: b as u32 },
        }),
{
    assert(sphere_vertex_ok(s.mesh.vertices@, b));
}

impl BuildRenderable for IsoSphere {
    open spec fn vertex_view(&self) -> Seq<Vertex> {
        self.mesh.vertices@
    }

    open spec fn topology_view(&self) -> TopologyView {
        TopologyView::Indexed(self.mesh.triangles@)
    }

    fn get_vertex_data(&self) -> (r: Vec<Vertex>) {
        self.mesh.vertex_data()
    }

    fn get_indices(&self) -> (r: RenderableIndices) {
        RenderableIndices::Buffer(self.mesh.triangle_data())
    }
}

} // verus!
