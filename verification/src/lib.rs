mod camera;
mod controller;
mod grid;
mod iso_sphere;
mod mesh;

pub use camera::{
    add_angle, clamp_pitch, lemma_rotate_left_roundtrip, lemma_rotate_up_roundtrip, FreeCamera,
    PITCH_LIMIT_URAD, TURN_URAD,
};
pub use controller::{Controller, InputEvent, Key, MoveCommand, MAX_ROT_SPEED_URAD};
pub use grid::{
    flat_index, grid_ok, grid_triangle_at, grid_vertex, grid_vertex_at, lemma_grid_deterministic,
    lemma_grid_flat_up, lemma_grid_layout, Grid,
};
pub use iso_sphere::{
    face_split_ok, hi, icosa_faces, icosa_verts, lemma_sphere_base_vertices,
    lemma_sphere_deterministic, lemma_sphere_normals, lo, mid_of, pow4, spec_mid_step, spec_sphere_at, spec_split_face,
    spec_subdivide, spec_subdivide_upto, sphere_ok, sphere_vertex_ok, sphere_verts_ok, IsoSphere,
    MAX_SUBDIVISIONS,
};
pub use mesh::{
    BuildRenderable, Coord, Mesh, PrimitiveKind, RenderableIndices, RenderableObj, TopologyView,
    Triangle, Vertex,
};

use vstd::prelude::*;

verus! {

/// Ways a generator call can fail.
#[derive(Clone, Copy, Debug, PartialEq, Eq, Structural)]
pub enum Error {
    /// A malformed generator argument: a zero segment count, or a
    /// subdivision depth past the index capacity of the mesh.
    InvalidParameter,
}

} // verus!
