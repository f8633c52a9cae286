//! The greedy mesher: decides per voxel face whether it is visible (the
//! cell across it is transparent, sampling neighbor chunks at the
//! boundary) and merges adjacent same-texture faces into quads.

use vstd::prelude::*;

use crate::access::{ChunkAccess, ReadAccess};
use crate::chunk::CHUNK_SIZE;
use crate::error::MesherError;
use crate::greedy::{
    mesh_plane, plane_in_bounds, plane_index, quad_covers, quad_in_plane, FacePlane, PLANE_CELLS,
};
use crate::math::IVec2;
use crate::mesh_builder::{Context, Mesher, MesherOutput};
use crate::meshing::{ivec_project_to_3d, spec_project_to_3d, Neighbors};
use crate::quad::PositionedQuad;
use crate::tile::Face;
use crate::voxel::{FaceTexture, VoxelRegistry};

verus! {

/// The voxel sample across a cell's face: read from the chunk itself for
/// interior layers, and from the neighbor bundle when the face borders
/// the next chunk.
pub open spec fn across_sample_spec<A: ChunkAccess, C: ChunkAccess>(
    acc: A,
    nb: Neighbors<C>,
    face: Face,
    d: int,
    u: int,
    v: int,
) -> Result<crate::chunk_ref::ChunkVoxelOutput, MesherError<A::ReadErr, C::ReadErr>> {
    let dir = face.spec_axis_direction() as int;
    if 0 <= d + dir < CHUNK_SIZE {
        match acc.read_spec(
            spec_project_to_3d(IVec2 { x: u as i32, y: v as i32 }, face, (d + dir) as i32),
        ) {
            Ok(out) => Ok(out),
            Err(e) => Err(MesherError::AccessError(e)),
        }
    } else {
        match nb.get_spec(face, IVec2 { x: u as i32, y: v as i32 }) {
            Ok(out) => Ok(out),
            Err(e) => Err(MesherError::NeighborAccessError(e)),
        }
    }
}

/// The visibility signature of one cell of a face plane: the texture of
/// the visible face there, `None` where no face is shown (no model, no
/// texture on this face, or an opaque cell across it), or the error the
/// reads ran into.
pub open spec fn visible_sig<A: ChunkAccess, C: ChunkAccess>(
    acc: A,
    nb: Neighbors<C>,
    reg: VoxelRegistry,
    face: Face,
    d: int,
    u: int,
    v: int,
) -> Result<Option<FaceTexture>, MesherError<A::ReadErr, C::ReadErr>> {
    match acc.read_spec(spec_project_to_3d(IVec2 { x: u as i32, y: v as i32 }, face, d as i32)) {
        Err(e) => Err(MesherError::AccessError(e)),
        Ok(out) => match out.model {
            None => Ok(None),
            Some(model) => match model.textures.spec_get(face) {
                None => Ok(None),
                Some(tex) => match across_sample_spec(acc, nb, face, d, u, v) {
                    Err(e) => Err(e),
                    Ok(nb_out) => if reg.spec_is_transparent(nb_out.id) {
                        Ok(Some(tex))
                    } else {
                        Ok(None)
                    },
                },
            },
        },
    }
}

/// The face plane of one face and layer, assuming every read succeeds:
/// per cell, the visible texture or `None`.
pub open spec fn spec_plane<A: ChunkAccess, C: ChunkAccess>(
    acc: A,
    nb: Neighbors<C>,
    reg: VoxelRegistry,
    face: Face,
    d: int,
) -> Seq<Option<FaceTexture>> {
    Seq::new(
        PLANE_CELLS as nat,
        |i: int|
            match visible_sig(
                acc,
                nb,
                reg,
                face,
                d,
                i % (CHUNK_SIZE as int),
                i / (CHUNK_SIZE as int),
            ) {
                Ok(s) => s,
                Err(_) => None,
            },
    )
}

/// Builds the visibility plane of one face and layer by reading every
/// cell and its across-sample; fails with the first read error met, in
/// raster order.
fn build_face_plane<A: ChunkAccess, C: ChunkAccess>(
    access: &A,
    neighbors: &Neighbors<C>,
    registry: &VoxelRegistry,
    face: Face,
    d: i32,
) -> (r: Result<FacePlane, MesherError<A::ReadErr, C::ReadErr>>)
    requires
        0 <= d < CHUNK_SIZE,
    ensures
        (r matches Ok(p) ==> {
            &&& p.wf()
            &&& p@ == spec_plane(*access, *neighbors, *registry, face, d as int)
            &&& forall|u: int, v: int|
                plane_in_bounds(u, v) ==> (#[trigger] visible_sig(
                    *access,
                    *neighbors,
                    *registry,
                    face,
                    d as int,
                    u,
                    v,
                )) is Ok
        }),
        (r matches Err(e) ==> exists|u: int, v: int|
            plane_in_bounds(u, v) && #[trigger] visible_sig(
                *access,
                *neighbors,
                *registry,
                face,
                d as int,
                u,
                v,
            ) == Err::<Option<FaceTexture>, MesherError<A::ReadErr, C::ReadErr>>(e)),
{
    let mut plane = FacePlane::new_empty();
    let mut v: usize = 0;
    while v < CHUNK_SIZE as usize
        invariant
            0 <= d < CHUNK_SIZE,
            v <= CHUNK_SIZE as usize,
            plane.wf(),
            forall|a: int, b: int|
                plane_in_bounds(a, b) && b < v ==> {
                    &&& (#[trigger] visible_sig(
                        *access,
                        *neighbors,
                        *registry,
                        face,
                        d as int,
                        a,
                        b,
                    )) is Ok
                    &&& Ok::<Option<FaceTexture>, MesherError<A::ReadErr, C::ReadErr>>(
                        plane@[plane_index(a, b)],
                    ) == visible_sig(*access, *neighbors, *registry, face, d as int, a, b)
                },
            forall|a: int, b: int|
                plane_in_bounds(a, b) && b >= v ==> plane@[#[trigger] plane_index(a, b)] is None,
        decreases CHUNK_SIZE as usize - v,
    {
        let mut u: usize = 0;
        while u < CHUNK_SIZE as usize
            invariant
                0 <= d < CHUNK_SIZE,
                v < CHUNK_SIZE as usize,
                u <= CHUNK_SIZE as usize,
                plane.wf(),
                forall|a: int, b: int|
                    plane_in_bounds(a, b) && (b < v || (b == v && a < u)) ==> {
                        &&& (#[trigger] visible_sig(
                            *access,
                            *neighbors,
                            *registry,
                            face,
                            d as int,
                            a,
                            b,
                        )) is Ok
                        &&& Ok::<Option<FaceTexture>, MesherError<A::ReadErr, C::ReadErr>>(
                            plane@[plane_index(a, b)],
                        ) == visible_sig(*access, *neighbors, *registry, face, d as int, a, b)
                    },
                forall|a: int, b: int|
                    plane_in_bounds(a, b) && (b > v || (b == v && a >= u)) ==> plane@[#[trigger] plane_index(
                        a,
                        b,
                    )] is None,
            decreases CHUNK_SIZE as usize - u,
        {
            let cell_pos = ivec_project_to_3d(IVec2 { x: u as i32, y: v as i32 }, face, d);
            let sig: Option<FaceTexture> = match access.get(cell_pos) {
                Err(e) => {
                    proof {
                        assert(visible_sig(
                            *access,
                            *neighbors,
                            *registry,
                            face,
                            d as int,
                            u as int,
                            v as int,
                        ) == Err::<Option<FaceTexture>, MesherError<A::ReadErr, C::ReadErr>>(
                            MesherError::AccessError(e),
                        ));
                    }
                    return Err(MesherError::AccessError(e));
                },
                Ok(out) => match out.model {
                    None => None,
                    Some(model) => match model.textures.get(face) {
                        None => None,
                        Some(tex) => {
                            let dir = face.axis_direction();
                            let across = d + dir;
                            let nb_out = if 0 <= across && across < CHUNK_SIZE {
                                let across_pos = ivec_project_to_3d(
                                    IVec2 { x: u as i32, y: v as i32 },
                                    face,
                                    across,
                                );
                                match access.get(across_pos) {
                                    Ok(out2) => out2,
                                    Err(e) => {
                                        proof {
                                            assert(visible_sig(
                                                *access,
                                                *neighbors,
                                                *registry,
                                                face,
                                                d as int,
                                                u as int,
                                                v as int,
                                            ) == Err::<
                                                Option<FaceTexture>,
                                                MesherError<A::ReadErr, C::ReadErr>,
                                            >(MesherError::AccessError(e)));
                                        }
                                        return Err(MesherError::AccessError(e));
                                    },
                                }
                            } else {
                                match neighbors.get(face, IVec2 { x: u as i32, y: v as i32 }) {
                                    Ok(out2) => out2,
                                    Err(e) => {
                                        proof {
                                            assert(visible_sig(
                                                *access,
                                                *neighbors,
                                                *registry,
                                                face,
                                                d as int,
                                                u as int,
                                                v as int,
                                            ) == Err::<
                                                Option<FaceTexture>,
                                                MesherError<A::ReadErr, C::ReadErr>,
                                            >(MesherError::NeighborAccessError(e)));
                                        }
                                        return Err(MesherError::NeighborAccessError(e));
                                    },
                                }
                            };
                            if registry.is_transparent(nb_out.id) {
                                Some(*tex)
                            } else {
                                None
                            }
                        },
                    },
                },
            };
            plane.set(u, v, sig);
            proof {
                assert(Ok::<Option<FaceTexture>, MesherError<A::ReadErr, C::ReadErr>>(
                    plane@[plane_index(u as int, v as int)],
                ) == visible_sig(*access, *neighbors, *registry, face, d as int, u as int, v as int));
            }
            u += 1;
        }
        v += 1;
    }
    proof {
        assert forall|i: int| 0 <= i < PLANE_CELLS implies plane@[i] == spec_plane(
            *access,
            *neighbors,
            *registry,
            face,
            d as int,
        )[i] by {
            let a = i % (CHUNK_SIZE as int);
            let b = i / (CHUNK_SIZE as int);
            assert(plane_in_bounds(a, b));
            assert(plane_index(a, b) == i);
        }
        assert(plane@ =~= spec_plane(*access, *neighbors, *registry, face, d as int));
    }
    Ok(plane)
}

/// Every cell a quad covers shows, on that quad's face and layer,
/// exactly the quad's texture.
pub open spec fn mesher_quads_valid<A: ChunkAccess, C: ChunkAccess>(
    qs: Seq<PositionedQuad>,
    acc: A,
    nb: Neighbors<C>,
    reg: VoxelRegistry,
) -> bool {
    forall|i: int, a: int, b: int|
        0 <= i < qs.len() && #[trigger] quad_covers(qs[i].quad, a, b) ==> plane_in_bounds(a, b)
            && spec_plane(acc, nb, reg, qs[i].face, qs[i].magnitude as int)[plane_index(a, b)]
            == Some(qs[i].texture)
}

/// No two quads of one face and layer overlap: each visible cell
/// contributes to at most one quad.
pub open spec fn mesher_quads_disjoint(qs: Seq<PositionedQuad>) -> bool {
    forall|i: int, j: int, a: int, b: int|
        0 <= i < j < qs.len() && qs[i].face == qs[j].face && qs[i].magnitude == qs[j].magnitude
            ==> !(#[trigger] quad_covers(qs[i].quad, a, b) && #[trigger] quad_covers(
            qs[j].quad,
            a,
            b,
        ))
}

/// Every visible cell of every face and layer is covered by a quad of
/// that face and layer.
pub open spec fn mesher_quads_cover<A: ChunkAccess, C: ChunkAccess>(
    qs: Seq<PositionedQuad>,
    acc: A,
    nb: Neighbors<C>,
    reg: VoxelRegistry,
) -> bool {
    forall|f: Face, d: int, a: int, b: int|
        0 <= d < CHUNK_SIZE && plane_in_bounds(a, b) && (#[trigger] spec_plane(
            acc,
            nb,
            reg,
            f,
            d,
        )[plane_index(a, b)]) is Some ==> exists|i: int|
            0 <= i < qs.len() && qs[i].face == f && qs[i].magnitude == d && quad_covers(
                #[trigger] qs[i].quad,
                a,
                b,
            )
}

/// The order in which the mesher visits the six faces.
pub open spec fn face_order() -> Seq<Face> {
    seq![Face::Top, Face::Bottom, Face::North, Face::East, Face::South, Face::West]
}

/// The greedy mesher: merges visible faces into quads, plane by plane.
#[derive(Clone, Copy, PartialEq, Eq, Structural, Debug)]
pub struct GreedyMesher {
}

/// The material description the greedy mesher's geometry requires; the
/// renderer (an external collaborator) maps it to an actual pipeline.
#[derive(Clone, Copy, PartialEq, Eq, Structural, Debug)]
pub struct GreedyMeshMaterial {
}

impl GreedyMesher {
    pub fn new() -> (r: GreedyMesher)
        ensures
            r == (GreedyMesher {  }),
    {
        GreedyMesher {  }
    }

    /// Meshes a chunk: for each of the six faces and each of the
    /// `CHUNK_SIZE` layers, computes the visible cells and greedy-merges
    /// them into quads. Succeeds exactly when every voxel read succeeds,
    /// and then returns a batch of quads that covers every visible cell
    /// exactly once, with the cell's own texture.
    pub fn build_mesh<A: ChunkAccess, C: ChunkAccess>(
        &self,
        access: &A,
        neighbors: &Neighbors<C>,
        registry: &VoxelRegistry,
    ) -> (r: Result<MesherOutput, MesherError<A::ReadErr, C::ReadErr>>)
        ensures
            (r matches Ok(out) ==> {
                &&& forall|i: int|
                    0 <= i < out.quads@.len() ==> quad_in_plane((#[trigger] out.quads@[i]).quad)
                        && 0 <= out.quads@[i].magnitude < CHUNK_SIZE
                &&& mesher_quads_valid(out.quads@, *access, *neighbors, *registry)
                &&& mesher_quads_disjoint(out.quads@)
                &&& mesher_quads_cover(out.quads@, *access, *neighbors, *registry)
            }),
            (r matches Err(e) ==> exists|f: Face, d: int, u: int, v: int|
                0 <= d < CHUNK_SIZE && plane_in_bounds(u, v) && #[trigger] visible_sig(
                    *access,
                    *neighbors,
                    *registry,
                    f,
                    d,
                    u,
                    v,
                ) == Err::<Option<FaceTexture>, MesherError<A::ReadErr, C::ReadErr>>(e)),
    {
        let faces: [Face; 6] = [
            Face::Top,
            Face::Bottom,
            Face::North,
            Face::East,
            Face::South,
            Face::West,
        ];
        let mut quads: Vec<PositionedQuad> = Vec::new();
        let mut fi: usize = 0;
        while fi < 6
            invariant
                fi <= 6,
                faces@ == face_order(),
                forall|i: int|
                    0 <= i < quads@.len() ==> {
                        &&& quad_in_plane((#[trigger] quads@[i]).quad)
                        &&& 0 <= quads@[i].magnitude < CHUNK_SIZE
                        &&& exists|k: int| 0 <= k < fi && quads@[i].face == face_order()[k]
                    },
                mesher_quads_valid(quads@, *access, *neighbors, *registry),
                mesher_quads_disjoint(quads@),
                forall|k: int, d: int, a: int, b: int|
                    0 <= k < fi && 0 <= d < CHUNK_SIZE && plane_in_bounds(a, b) && (
                    #[trigger] spec_plane(
                        *access,
                        *neighbors,
                        *registry,
                        face_order()[k],
                        d,
                    )[plane_index(a, b)]) is Some ==> exists|i: int|
                        0 <= i < quads@.len() && quads@[i].face == face_order()[k]
                            && quads@[i].magnitude == d && quad_covers(
                            #[trigger] quads@[i].quad,
                            a,
                            b,
                        ),
            decreases 6 - fi,
        {
            let face = faces[fi];
            proof {
                assert(face == face_order()[fi as int]);
                assert(forall|k1: int, k2: int|
                    0 <= k1 < k2 < 6 ==> face_order()[k1] != face_order()[k2]);
            }
            let mut d: i32 = 0;
            while d < CHUNK_SIZE
                invariant
                    fi < 6,
                    faces@ == face_order(),
                    face == face_order()[fi as int],
                    0 <= d <= CHUNK_SIZE,
                    forall|i: int|
                        0 <= i < quads@.len() ==> {
                            &&& quad_in_plane((#[trigger] quads@[i]).quad)
                            &&& 0 <= quads@[i].magnitude < CHUNK_SIZE
                            &&& (exists|k: int| 0 <= k < fi && quads@[i].face == face_order()[k])
                                || (quads@[i].face == face && quads@[i].magnitude < d)
                        },
                    mesher_quads_valid(quads@, *access, *neighbors, *registry),
                    mesher_quads_disjoint(quads@),
                    forall|k: int, dd: int, a: int, b: int|
                        0 <= k < fi && 0 <= dd < CHUNK_SIZE && plane_in_bounds(a, b) && (
                        #[trigger] spec_plane(
                            *access,
                            *neighbors,
                            *registry,
                            face_order()[k],
                            dd,
                        )[plane_index(a, b)]) is Some ==> exists|i: int|
                            0 <= i < quads@.len() && quads@[i].face == face_order()[k]
                                && quads@[i].magnitude == dd && quad_covers(
                                #[trigger] quads@[i].quad,
                                a,
                                b,
                            ),
                    forall|dd: int, a: int, b: int|
                        0 <= dd < d && plane_in_bounds(a, b) && (#[trigger] spec_plane(
                            *access,
                            *neighbors,
                            *registry,
                            face,
                            dd,
                        )[plane_index(a, b)]) is Some ==> exists|i: int|
                            0 <= i < quads@.len() && quads@[i].face == face && quads@[i].magnitude
                                == dd && quad_covers(#[trigger] quads@[i].quad, a, b),
                decreases CHUNK_SIZE - d,
            {
                let plane = match build_face_plane(access, neighbors, registry, face, d) {
                    Ok(p) => p,
                    Err(e) => {
                        return Err(e);
                    },
                };
                let batch = mesh_plane(&plane, face, d);
                let ghost quads_before = quads@;
                let mut k: usize = 0;
                while k < batch.len()
                    invariant
                        k <= batch@.len(),
                        quads@ == quads_before + batch@.take(k as int),
                    decreases batch@.len() - k,
                {
                    quads.push(batch[k]);
                    proof {
                        assert(quads@ =~= quads_before + batch@.take(k + 1));
                    }
                    k += 1;
                }
                proof {
                    assert(batch@.take(batch@.len() as int) =~= batch@);
                    assert(quads@ == quads_before + batch@);
                    let acc = *access;
                    let nb = *neighbors;
                    let reg = *registry;
                    let p = spec_plane(acc, nb, reg, face, d as int);
                    assert(plane@ == p);
                    // validity and shape of the appended batch
                    assert forall|i: int, a: int, b: int|
                        0 <= i < quads@.len() && #[trigger] quad_covers(
                            quads@[i].quad,
                            a,
                            b,
                        ) implies plane_in_bounds(a, b) && spec_plane(
                        acc,
                        nb,
                        reg,
                        quads@[i].face,
                        quads@[i].magnitude as int,
                    )[plane_index(a, b)] == Some(quads@[i].texture) by {
                        if i < quads_before.len() {
                            assert(quads@[i] == quads_before[i]);
                            assert(quad_covers(quads_before[i].quad, a, b));
                        } else {
                            assert(quads@[i] == batch@[i - quads_before.len()]);
                        }
                    }
                    // disjointness: old quads have earlier (face, layer)
                    // pairs, the batch is internally disjoint
                    assert forall|i: int, j: int, a: int, b: int|
                        0 <= i < j < quads@.len() && quads@[i].face == quads@[j].face
                            && quads@[i].magnitude == quads@[j].magnitude implies !(
                        #[trigger] quad_covers(quads@[i].quad, a, b) && #[trigger] quad_covers(
                            quads@[j].quad,
                            a,
                            b,
                        )) by {
                        if j < quads_before.len() {
                            assert(quads@[i] == quads_before[i] && quads@[j] == quads_before[j]);
                        } else if i >= quads_before.len() {
                            assert(quads@[i] == batch@[i - quads_before.len()] && quads@[j]
                                == batch@[j - quads_before.len()]);
                        } else {
                            // an old quad and a batch quad never share a
                            // (face, layer) pair
                            assert(quads@[i] == quads_before[i]);
                            assert(quads@[j] == batch@[j - quads_before.len()]);
                            assert(quads@[j].face == face && quads@[j].magnitude == d);
                        }
                    }
                    // coverage of the just-meshed plane
                    assert forall|a: int, b: int|
                        plane_in_bounds(a, b) && (#[trigger] spec_plane(
                            acc,
                            nb,
                            reg,
                            face,
                            d as int,
                        )[plane_index(a, b)]) is Some implies exists|i: int|
                        0 <= i < quads@.len() && quads@[i].face == face && quads@[i].magnitude
                            == d && quad_covers(#[trigger] quads@[i].quad, a, b) by {
                        assert(crate::greedy::quads_cover(batch@, p));
                        assert(crate::greedy::covered_by(batch@, a, b));
                        let bi = choose|bi: int|
                            0 <= bi < batch@.len() && quad_covers(#[trigger] batch@[bi].quad, a, b);
                        assert(quads@[quads_before.len() + bi] == batch@[bi]);
                        assert(quad_covers(quads@[quads_before.len() + bi].quad, a, b));
                    }
                    // coverage of earlier planes is untouched: old witnesses
                    // keep their indexes
                    assert forall|k2: int, dd: int, a: int, b: int|
                        0 <= k2 < fi && 0 <= dd < CHUNK_SIZE && plane_in_bounds(a, b) && (
                        #[trigger] spec_plane(
                            acc,
                            nb,
                            reg,
                            face_order()[k2],
                            dd,
                        )[plane_index(a, b)]) is Some implies exists|i: int|
                        0 <= i < quads@.len() && quads@[i].face == face_order()[k2]
                            && quads@[i].magnitude == dd && quad_covers(
                            #[trigger] quads@[i].quad,
                            a,
                            b,
                        ) by {
                        let i = choose|i: int|
                            0 <= i < quads_before.len() && quads_before[i].face == face_order()[k2]
                                && quads_before[i].magnitude == dd && quad_covers(
                                #[trigger] quads_before[i].quad,
                                a,
                                b,
                            );
                        assert(quads@[i] == quads_before[i]);
                        assert(quad_covers(quads@[i].quad, a, b));
                    }
                    assert forall|dd: int, a: int, b: int|
                        0 <= dd < d + 1 && plane_in_bounds(a, b) && (#[trigger] spec_plane(
                            acc,
                            nb,
                            reg,
                            face,
                            dd,
                        )[plane_index(a, b)]) is Some implies exists|i: int|
                        0 <= i < quads@.len() && quads@[i].face == face && quads@[i].magnitude
                            == dd && quad_covers(#[trigger] quads@[i].quad, a, b) by {
                        if dd < d {
                            let i = choose|i: int|
                                0 <= i < quads_before.len() && quads_before[i].face == face
                                    && quads_before[i].magnitude == dd && quad_covers(
                                    #[trigger] quads_before[i].quad,
                                    a,
                                    b,
                                );
                            assert(quads@[i] == quads_before[i]);
                            assert(quad_covers(quads@[i].quad, a, b));
                        }
                    }
                }
                d += 1;
            }
            fi += 1;
            proof {
                assert forall|i: int| 0 <= i < quads@.len() implies exists|k: int|
                    0 <= k < fi && (#[trigger] quads@[i]).face == face_order()[k] by {
                    if quads@[i].face == face {
                        assert(quads@[i].face == face_order()[fi - 1]);
                    }
                }
            }
        }
        proof {
            assert forall|f: Face, dd: int, a: int, b: int|
                0 <= dd < CHUNK_SIZE && plane_in_bounds(a, b) && (#[trigger] spec_plane(
                    *access,
                    *neighbors,
                    *registry,
                    f,
                    dd,
                )[plane_index(a, b)]) is Some implies exists|i: int|
                0 <= i < quads@.len() && quads@[i].face == f && quads@[i].magnitude == dd
                    && quad_covers(#[trigger] quads@[i].quad, a, b) by {
                let k: int = match f {
                    Face::Top => 0,
                    Face::Bottom => 1,
                    Face::North => 2,
                    Face::East => 3,
                    Face::South => 4,
                    Face::West => 5,
                };
                assert(face_order()[k] == f);
            }
        }
        Ok(MesherOutput { quads })
    }

    pub fn material_desc(&self) -> (r: GreedyMeshMaterial)
        ensures
            r == (GreedyMeshMaterial {  }),
    {
        GreedyMeshMaterial {  }
    }
}

impl Mesher for GreedyMesher {
    type Material = GreedyMeshMaterial;

    open spec fn material_spec(&self) -> GreedyMeshMaterial {
        GreedyMeshMaterial {  }
    }

    fn build<'a, A: ChunkAccess, C: ChunkAccess>(
        &self,
        access: &A,
        context: Context<'a, C>,
    ) -> Result<MesherOutput, MesherError<A::ReadErr, C::ReadErr>> {
        self.build_mesh(access, context.neighbors, context.registries)
    }

    fn material(&self) -> GreedyMeshMaterial {
        GreedyMeshMaterial {  }
    }
}

} // verus!
