use gl_cookbook::{
    BuildRenderable, Coord, Error, Grid, IsoSphere, RenderableIndices, RenderableObj, Triangle,
    Vertex,
};

/// Evaluate the exact sphere-vertex descriptors to floating-point unit
/// vectors, in one forward pass: the base icosahedron corners normalized,
/// then each midpoint vertex as the normalized midpoint of two earlier ones.
fn eval_sphere_positions(vertices: &[Vertex]) -> Vec<[f64; 3]> {
    let t = (1.0 + 5.0f64.sqrt()) / 2.0;
    let base: [[f64; 3]; 12] = [
        [-1.0, t, 0.0],
        [1.0, t, 0.0],
        [-1.0, -t, 0.0],
        [1.0, -t, 0.0],
        [0.0, -1.0, t],
        [0.0, 1.0, t],
        [0.0, -1.0, -t],
        [0.0, 1.0, -t],
        [t, 0.0, -1.0],
        [t, 0.0, 1.0],
        [-t, 0.0, -1.0],
        [-t, 0.0, 1.0],
    ];
    let normalize = |v: [f64; 3]| {
        let n = (v[0] * v[0] + v[1] * v[1] + v[2] * v[2]).sqrt();
        [v[0] / n, v[1] / n, v[2] / n]
    };
    let mut out: Vec<[f64; 3]> = Vec::new();
    for v in vertices {
        match v.position {
            Coord::Icosa { id } => out.push(normalize(base[id as usize])),
            Coord::Midpoint { a, b } => {
                let pa = out[a as usize];
                let pb = out[b as usize];
                out.push(normalize([pa[0] + pb[0], pa[1] + pb[1], pa[2] + pb[2]]));
            }
            _ => panic!("not a sphere vertex"),
        }
    }
    out
}

fn norm(v: [f64; 3]) -> f64 {
    (v[0] * v[0] + v[1] * v[1] + v[2] * v[2]).sqrt()
}

#[test]
fn grid_two_by_two_scenario() {
    let g = Grid::new(2, 2).unwrap();
    assert_eq!(g.mesh.vertices.len(), 9);
    assert_eq!(g.mesh.triangles.len(), 8);
    for v in &g.mesh.vertices {
        assert_eq!(v.normal, Coord::UnitY);
    }
    for (k, v) in g.mesh.vertices.iter().enumerate() {
        let (i, j) = (k as u32 % 3, k as u32 / 3);
        assert_eq!(v.position, Coord::Lattice { i, j });
    }
    // the two triangles of cell (0, 0), then of cell (1, 0)
    assert_eq!(g.mesh.triangles[0], Triangle { a: 0, b: 1, c: 3 });
    assert_eq!(g.mesh.triangles[1], Triangle { a: 1, b: 4, c: 3 });
    assert_eq!(g.mesh.triangles[2], Triangle { a: 1, b: 2, c: 4 });
    assert_eq!(g.mesh.triangles[3], Triangle { a: 2, b: 5, c: 4 });
}

#[test]
fn grid_counts() {
    let g = Grid::new(5, 3).unwrap();
    assert_eq!(g.mesh.vertices.len(), 6 * 4);
    assert_eq!(g.mesh.triangles.len(), 5 * 3 * 2);
    for t in &g.mesh.triangles {
        assert!((t.a as usize) < g.mesh.vertices.len());
        assert!((t.b as usize) < g.mesh.vertices.len());
        assert!((t.c as usize) < g.mesh.vertices.len());
    }
}

#[test]
fn grid_rejects_zero_segments() {
    assert_eq!(Grid::new(0, 2).unwrap_err(), Error::InvalidParameter);
    assert_eq!(Grid::new(2, 0).unwrap_err(), Error::InvalidParameter);
    assert_eq!(Grid::new(0, 0).unwrap_err(), Error::InvalidParameter);
}

#[test]
fn grid_rejects_index_overflow() {
    assert_eq!(Grid::new(u32::MAX, u32::MAX).unwrap_err(), Error::InvalidParameter);
}

#[test]
fn grid_idempotent() {
    let g1 = Grid::new(4, 4).unwrap();
    let g2 = Grid::new(4, 4).unwrap();
    assert_eq!(g1.mesh, g2.mesh);
}

#[test]
fn grid_renderable_obj() {
    let g = Grid::new(3, 2).unwrap();
    let obj = RenderableObj::new(&g);
    assert_eq!(obj.vertices, g.mesh.vertices);
    match obj.indices {
        RenderableIndices::Buffer(tris) => assert_eq!(tris, g.mesh.triangles),
        RenderableIndices::NoIndex(_) => panic!("grid should be indexed"),
    }
    assert_eq!(g.get_vertex_data(), g.mesh.vertices);
}

#[test]
fn icosphere_base_scenario() {
    let s = IsoSphere::new(0).unwrap();
    assert_eq!(s.mesh.vertices.len(), 12);
    assert_eq!(s.mesh.triangles.len(), 20);
    for v in &s.mesh.vertices {
        assert_eq!(v.normal, v.position);
    }
    let pos = eval_sphere_positions(&s.mesh.vertices);
    for p in &pos {
        assert!((norm(*p) - 1.0).abs() < 1e-12);
    }
}

#[test]
fn icosphere_counts_per_level() {
    for k in 0u32..=4 {
        let s = IsoSphere::new(k).unwrap();
        let f = 4usize.pow(k);
        assert_eq!(s.mesh.triangles.len(), 20 * f);
        // the closed-form geodesic vertex count: shared edge midpoints are
        // deduplicated, never duplicated
        assert_eq!(s.mesh.vertices.len(), 10 * f + 2);
    }
}

#[test]
fn icosphere_unit_distance() {
    let s = IsoSphere::new(3).unwrap();
    let pos = eval_sphere_positions(&s.mesh.vertices);
    for p in &pos {
        assert!((norm(*p) - 1.0).abs() < 1e-9);
    }
    for v in &s.mesh.vertices {
        assert_eq!(v.normal, v.position);
    }
}

#[test]
fn icosphere_vertices_distinct() {
    let s = IsoSphere::new(2).unwrap();
    let pos = eval_sphere_positions(&s.mesh.vertices);
    for i in 0..pos.len() {
        for j in (i + 1)..pos.len() {
            let d = [pos[i][0] - pos[j][0], pos[i][1] - pos[j][1], pos[i][2] - pos[j][2]];
            assert!(norm(d) > 1e-6, "duplicate vertex at {} and {}", i, j);
        }
    }
}

#[test]
fn icosphere_indices_in_bounds() {
    let s = IsoSphere::new(2).unwrap();
    let n = s.mesh.vertices.len();
    for t in &s.mesh.triangles {
        assert!((t.a as usize) < n && (t.b as usize) < n && (t.c as usize) < n);
    }
}

#[test]
fn icosphere_rejects_deep_subdivision() {
    assert_eq!(IsoSphere::new(14).unwrap_err(), Error::InvalidParameter);
    assert_eq!(IsoSphere::new(u32::MAX).unwrap_err(), Error::InvalidParameter);
}

#[test]
fn icosphere_idempotent() {
    let s1 = IsoSphere::new(2).unwrap();
    let s2 = IsoSphere::new(2).unwrap();
    assert_eq!(s1.mesh, s2.mesh);
}

#[test]
fn icosphere_renderable_obj() {
    let s = IsoSphere::new(1).unwrap();
    let obj = RenderableObj::new(&s);
    assert_eq!(obj.vertices, s.mesh.vertices);
    match obj.indices {
        RenderableIndices::Buffer(tris) => assert_eq!(tris, s.mesh.triangles),
        RenderableIndices::NoIndex(_) => panic!("sphere should be indexed"),
    }
}
