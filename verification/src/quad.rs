//! Quad geometry: rectangles of merged voxel faces in face-local space,
//! their projection to 3D corner positions, per-vertex attribute
//! emission with face-aware winding, and the packed GPU representation.

use vstd::prelude::*;

use crate::math::{IVec2, IVec3};
use crate::tile::Face;
use crate::voxel::{FaceTexture, FaceTextureRotation};

verus! {

/// Bit mask of the texture rotation in a packed quad bitfield.
pub const ROTATION_MASK: u32 = 0b00000000_00000000_00000000_00000011;

/// Bit flag: flip the texture along U.
pub const FLIP_UV_X: u32 = 0b00000000_00000000_00000000_00000100;

/// Bit flag: flip the texture along V.
pub const FLIP_UV_Y: u32 = 0b00000000_00000000_00000000_00001000;

/// Bit flag: the marker corner the shader uses to resolve the
/// ambient-occlusion interpolation direction.
pub const OCCLUSION: u32 = 0b00000000_00000000_00000000_00010000;

/// The packed orientation bitfield of a face texture, with the
/// ambient-occlusion marker bit on request.
pub open spec fn spec_pack_bitfield(
    rotation: FaceTextureRotation,
    flip_x: bool,
    flip_y: bool,
    occlusion: bool,
) -> u32 {
    rotation.spec_bits() | (if flip_x {
        FLIP_UV_X
    } else {
        0u32
    }) | (if flip_y {
        FLIP_UV_Y
    } else {
        0u32
    }) | (if occlusion {
        OCCLUSION
    } else {
        0u32
    })
}

#[verifier::when_used_as_spec(spec_pack_bitfield)]
pub fn pack_bitfield(
    rotation: FaceTextureRotation,
    flip_x: bool,
    flip_y: bool,
    occlusion: bool,
) -> (r: u32)
    ensures
        r == spec_pack_bitfield(rotation, flip_x, flip_y, occlusion),
{
    rotation.bits() | (if flip_x {
        FLIP_UV_X
    } else {
        0u32
    }) | (if flip_y {
        FLIP_UV_Y
    } else {
        0u32
    }) | (if occlusion {
        OCCLUSION
    } else {
        0u32
    })
}

/// A rectangle in 2D face-local space: origin plus non-negative extent.
#[derive(Clone, Copy, PartialEq, Eq, Structural, Debug)]
pub struct Quad {
    pub x: i32,
    pub y: i32,
    pub width: i32,
    pub height: i32,
}

/// Coordinate bound under which quad arithmetic cannot overflow.
pub const QUAD_COORD_LIMIT: i32 = 0x1000_0000;

impl Quad {
    /// A sane quad: non-negative extent, coordinates far from the `i32`
    /// edge so corner arithmetic stays exact.
    pub open spec fn wf(self) -> bool {
        &&& 0 <= self.width
        &&& 0 <= self.height
        &&& -QUAD_COORD_LIMIT < self.x
        &&& -QUAD_COORD_LIMIT < self.y
        &&& self.x + self.width < QUAD_COORD_LIMIT
        &&& self.y + self.height < QUAD_COORD_LIMIT
    }

    fn from_min_max(min: IVec2, max: IVec2) -> (r: Quad)
        requires
            min.x <= max.x,
            min.y <= max.y,
            -QUAD_COORD_LIMIT < min.x,
            -QUAD_COORD_LIMIT < min.y,
            max.x < QUAD_COORD_LIMIT,
            max.y < QUAD_COORD_LIMIT,
        ensures
            r == (Quad {
                x: min.x,
                y: min.y,
                width: (max.x - min.x) as i32,
                height: (max.y - min.y) as i32,
            }),
            r.wf(),
    {
        Quad { x: min.x, y: min.y, width: max.x - min.x, height: max.y - min.y }
    }

    /// The quad spanned by two corner points, in any order.
    pub fn from_points(p1: IVec2, p2: IVec2) -> (r: Quad)
        requires
            -QUAD_COORD_LIMIT < p1.x < QUAD_COORD_LIMIT,
            -QUAD_COORD_LIMIT < p1.y < QUAD_COORD_LIMIT,
            -QUAD_COORD_LIMIT < p2.x < QUAD_COORD_LIMIT,
            -QUAD_COORD_LIMIT < p2.y < QUAD_COORD_LIMIT,
        ensures
            r.wf(),
            r.x == if p1.x <= p2.x {
                p1.x
            } else {
                p2.x
            },
            r.y == if p1.y <= p2.y {
                p1.y
            } else {
                p2.y
            },
            r.x + r.width == if p1.x <= p2.x {
                p2.x
            } else {
                p1.x
            },
            r.y + r.height == if p1.y <= p2.y {
                p2.y
            } else {
                p1.y
            },
    {
        let min = IVec2 {
            x: if p1.x <= p2.x {
                p1.x
            } else {
                p2.x
            },
            y: if p1.y <= p2.y {
                p1.y
            } else {
                p2.y
            },
        };
        let max = IVec2 {
            x: if p1.x <= p2.x {
                p2.x
            } else {
                p1.x
            },
            y: if p1.y <= p2.y {
                p2.y
            } else {
                p1.y
            },
        };
        Quad::from_min_max(min, max)
    }

    /// The corner with the smallest coordinates.
    pub fn min(self) -> (r: IVec2)
        ensures
            r == (IVec2 { x: self.x, y: self.y }),
    {
        IVec2 { x: self.x, y: self.y }
    }

    /// The corner with the largest coordinates.
    pub fn max(self) -> (r: IVec2)
        requires
            self.wf(),
        ensures
            r == (IVec2 { x: (self.x + self.width) as i32, y: (self.y + self.height) as i32 }),
    {
        IVec2 { x: self.x + self.width, y: self.y + self.height }
    }

    pub fn width(self) -> (r: i32)
        ensures
            r == self.width,
    {
        self.width
    }

    pub fn height(self) -> (r: i32)
        ensures
            r == self.height,
    {
        self.height
    }

    /// Grows (or shrinks) the quad's height; the resulting height must
    /// not be negative.
    pub fn heighten(self, amount: i32) -> (r: Quad)
        requires
            self.wf(),
            0 <= self.height + amount,
            self.y + self.height + amount < QUAD_COORD_LIMIT,
        ensures
            r == (Quad { height: (self.height + amount) as i32, ..self }),
            r.wf(),
    {
        Quad { height: self.height + amount, ..self }
    }

    /// Grows (or shrinks) the quad's width; the resulting width must not
    /// be negative.
    pub fn widen(self, amount: i32) -> (r: Quad)
        requires
            self.wf(),
            0 <= self.width + amount,
            self.x + self.width + amount < QUAD_COORD_LIMIT,
        ensures
            r == (Quad { width: (self.width + amount) as i32, ..self }),
            r.wf(),
    {
        Quad { width: self.width + amount, ..self }
    }

    /// Grows the height by `step` for each count in `0..ceil` before the
    /// first count the predicate accepts (or all of them).
    pub fn heighten_until<F: Fn(u32) -> bool>(self, step: i32, ceil: u32, f: F) -> (r: Quad)
        requires
            self.wf(),
            0 <= step,
            (ceil as int) < QUAD_COORD_LIMIT,
            self.y + self.height + step * (ceil as int) < QUAD_COORD_LIMIT,
            forall|n: u32| n < ceil ==> #[trigger] call_requires(f, (n,)),
        ensures
            r.wf(),
            exists|n: u32|
                {
                    &&& n <= ceil
                    &&& r == (Quad { height: (self.height + step * (n as int)) as i32, ..self })
                    &&& (n < ceil ==> #[trigger] call_ensures(f, (n,), true))
                    &&& forall|m: u32| m < n ==> #[trigger] call_ensures(f, (m,), false)
                },
    {
        let mut n: u32 = 0;
        let mut stop = false;
        while !stop && n < ceil
            invariant
                self.wf(),
                0 <= step,
                self.y + self.height + step * (ceil as int) < QUAD_COORD_LIMIT,
                forall|k: u32| k < ceil ==> #[trigger] call_requires(f, (k,)),
                n <= ceil,
                forall|m: u32| m < n ==> #[trigger] call_ensures(f, (m,), false),
                stop ==> n < ceil && call_ensures(f, (n,), true),
            decreases (if stop {
                0int
            } else {
                1int
            }), ceil - n,
        {
            if f(n) {
                stop = true;
            } else {
                n += 1;
            }
        }
        proof {
            lemma_step_mul_bound(step as int, n as int, ceil as int);
            assert(0 <= step * (n as int) && step * (n as int) <= step * (ceil as int));
        }
        let r = self.heighten(step * (n as i32));
        proof {
            let witness_true = call_ensures(f, (n,), true);
            assert(r == (Quad { height: (self.height + step * (n as int)) as i32, ..self }));
        }
        r
    }

    /// Grows the width by `step` for each count in `0..ceil` before the
    /// first count the predicate accepts (or all of them).
    pub fn widen_until<F: Fn(u32) -> bool>(self, step: i32, ceil: u32, f: F) -> (r: Quad)
        requires
            self.wf(),
            0 <= step,
            (ceil as int) < QUAD_COORD_LIMIT,
            self.x + self.width + step * (ceil as int) < QUAD_COORD_LIMIT,
            forall|n: u32| n < ceil ==> #[trigger] call_requires(f, (n,)),
        ensures
            r.wf(),
            exists|n: u32|
                {
                    &&& n <= ceil
                    &&& r == (Quad { width: (self.width + step * (n as int)) as i32, ..self })
                    &&& (n < ceil ==> #[trigger] call_ensures(f, (n,), true))
                    &&& forall|m: u32| m < n ==> #[trigger] call_ensures(f, (m,), false)
                },
    {
        let mut n: u32 = 0;
        let mut stop = false;
        while !stop && n < ceil
            invariant
                self.wf(),
                0 <= step,
                self.x + self.width + step * (ceil as int) < QUAD_COORD_LIMIT,
                forall|k: u32| k < ceil ==> #[trigger] call_requires(f, (k,)),
                n <= ceil,
                forall|m: u32| m < n ==> #[trigger] call_ensures(f, (m,), false),
                stop ==> n < ceil && call_ensures(f, (n,), true),
            decreases (if stop {
                0int
            } else {
                1int
            }), ceil - n,
        {
            if f(n) {
                stop = true;
            } else {
                n += 1;
            }
        }
        proof {
            lemma_step_mul_bound(step as int, n as int, ceil as int);
            assert(0 <= step * (n as int) && step * (n as int) <= step * (ceil as int));
        }
        let r = self.widen(step * (n as i32));
        proof {
            let witness_true = call_ensures(f, (n,), true);
            assert(r == (Quad { width: (self.width + step * (n as int)) as i32, ..self }));
        }
        r
    }

    /// The four 3D corner positions of the quad on a face at a layer
    /// magnitude, in the fixed corner order: top-left, top-right,
    /// bottom-left, bottom-right of the face-local rectangle. Faces
    /// pointing in the positive axis direction sit one cell above their
    /// layer.
    pub open spec fn spec_positions(self, face: Face, mag: i32) -> Seq<IVec3> {
        let lo = IVec2 { x: self.x, y: self.y };
        let hi = IVec2 { x: (self.x + self.width) as i32, y: (self.y + self.height) as i32 };
        let m = if face.spec_axis_direction() == 1 {
            (mag + 1) as i32
        } else {
            mag
        };
        seq![
            crate::meshing::spec_project_to_3d(IVec2 { x: lo.x, y: hi.y }, face, m),
            crate::meshing::spec_project_to_3d(IVec2 { x: hi.x, y: hi.y }, face, m),
            crate::meshing::spec_project_to_3d(IVec2 { x: lo.x, y: lo.y }, face, m),
            crate::meshing::spec_project_to_3d(IVec2 { x: hi.x, y: lo.y }, face, m),
        ]
    }

    /// The four 3D corner positions of this quad on a face whose layer
    /// is `mag`.
    pub fn positions(self, face: Face, mag: i32) -> (r: [IVec3; 4])
        requires
            self.wf(),
            -QUAD_COORD_LIMIT < mag,
            mag < QUAD_COORD_LIMIT,
        ensures
            r@ == self.spec_positions(face, mag),
    {
        let lo = self.min();
        let hi = self.max();
        let m: i32 = if face.axis_direction() == 1 {
            mag + 1
        } else {
            mag
        };
        let corners: [IVec2; 4] = [
            IVec2 { x: lo.x, y: hi.y },
            IVec2 { x: hi.x, y: hi.y },
            IVec2 { x: lo.x, y: lo.y },
            IVec2 { x: hi.x, y: lo.y },
        ];
        let r: [IVec3; 4] = [
            crate::meshing::ivec_project_to_3d(corners[0], face, m),
            crate::meshing::ivec_project_to_3d(corners[1], face, m),
            crate::meshing::ivec_project_to_3d(corners[2], face, m),
            crate::meshing::ivec_project_to_3d(corners[3], face, m),
        ];
        proof {
            assert(r@ =~= self.spec_positions(face, mag));
        }
        r
    }

    /// The texture coordinates of the four corners, spanning the quad's
    /// extent, in the same corner order as `positions`.
    pub open spec fn spec_uvs(self) -> Seq<IVec2> {
        seq![
            IVec2 { x: 0, y: self.height },
            IVec2 { x: self.width, y: self.height },
            IVec2 { x: 0, y: 0 },
            IVec2 { x: self.width, y: 0 },
        ]
    }

    pub fn uvs(self) -> (r: [IVec2; 4])
        requires
            self.wf(),
        ensures
            r@ == self.spec_uvs(),
    {
        let r: [IVec2; 4] = [
            IVec2 { x: 0, y: self.height },
            IVec2 { x: self.width, y: self.height },
            IVec2 { x: 0, y: 0 },
            IVec2 { x: self.width, y: 0 },
        ];
        proof {
            assert(r@ =~= self.spec_uvs());
        }
        r
    }
}

/// Multiplying a non-negative step by a count below its ceiling stays
/// below the step times the ceiling.
pub proof fn lemma_step_mul_bound(step: int, n: int, ceil: int)
    requires
        0 <= step,
        0 <= n <= ceil,
    ensures
        step * n <= step * ceil,
        0 <= step * n,
    decreases ceil - n,
{
    if n < ceil {
        lemma_step_mul_bound(step, n + 1, ceil);
        assert(step * (n + 1) == step * n + step) by (nonlinear_arith);
    } else {
        assert(step * n == step * ceil);
    }
    assert(0 <= step * n) by (nonlinear_arith)
        requires
            0 <= step,
            0 <= n,
    ;
}

/// A quad placed on a face at a layer, carrying the texture of the
/// merged cells it covers.
#[derive(Clone, Copy, PartialEq, Eq, Structural, Debug)]
pub struct PositionedQuad {
    pub magnitude: i32,
    pub face: Face,
    pub quad: Quad,
    pub texture: FaceTexture,
}

/// The vertex winding of the two triangles of a quad: faces pointing in
/// the positive axis direction and negative faces use mirrored triangle
/// orders, so backface culling is consistent on every cardinal face.
pub open spec fn face_winding(face: Face) -> Seq<u32> {
    if face.spec_axis_direction() == 1 {
        seq![0u32, 1u32, 2u32, 1u32, 3u32, 2u32]
    } else {
        seq![0u32, 2u32, 1u32, 1u32, 2u32, 3u32]
    }
}

/// Per-vertex geometry buffers of one chunk's mesh: position, normal,
/// texture coordinates, packed orientation bitfield and texture registry
/// index per vertex, plus the triangle index list.
#[derive(Clone, Debug)]
pub struct ChunkMeshAttributes {
    pub positions: Vec<IVec3>,
    pub normals: Vec<IVec3>,
    pub uvs: Vec<IVec2>,
    pub bitfields: Vec<u32>,
    pub texture_indices: Vec<u32>,
    pub indices: Vec<u32>,
}

impl ChunkMeshAttributes {
    pub fn new() -> (r: ChunkMeshAttributes)
        ensures
            r.positions@ == Seq::<IVec3>::empty(),
            r.normals@ == Seq::<IVec3>::empty(),
            r.uvs@ == Seq::<IVec2>::empty(),
            r.bitfields@ == Seq::<u32>::empty(),
            r.texture_indices@ == Seq::<u32>::empty(),
            r.indices@ == Seq::<u32>::empty(),
    {
        ChunkMeshAttributes {
            positions: Vec::new(),
            normals: Vec::new(),
            uvs: Vec::new(),
            bitfields: Vec::new(),
            texture_indices: Vec::new(),
            indices: Vec::new(),
        }
    }
}

/// The packed per-vertex bitfields of a quad: the marker bit for
/// ambient-occlusion interpolation sits on the first corner only.
pub open spec fn quad_vertex_bitfields(t: FaceTexture) -> Seq<u32> {
    seq![
        spec_pack_bitfield(t.rotation, t.flip_x, t.flip_y, true),
        spec_pack_bitfield(t.rotation, t.flip_x, t.flip_y, false),
        spec_pack_bitfield(t.rotation, t.flip_x, t.flip_y, false),
        spec_pack_bitfield(t.rotation, t.flip_x, t.flip_y, false),
    ]
}

impl PositionedQuad {
    pub open spec fn wf(self) -> bool {
        &&& self.quad.wf()
        &&& -QUAD_COORD_LIMIT < self.magnitude
        &&& self.magnitude < QUAD_COORD_LIMIT
    }

    /// The four 3D corner positions of this quad.
    pub fn positions(self) -> (r: [IVec3; 4])
        requires
            self.wf(),
        ensures
            r@ == self.quad.spec_positions(self.face, self.magnitude),
    {
        self.quad.positions(self.face, self.magnitude)
    }

    /// Appends this quad to a mesh: four vertices (position, normal,
    /// texture coordinates, packed bitfield, texture index) and the six
    /// triangle indices with the face's winding, offset by `idx`.
    pub fn add_to_mesh(self, idx: u32, mesh: &mut ChunkMeshAttributes)
        requires
            self.wf(),
            idx + 3 <= u32::MAX,
        ensures
            final(mesh).positions@ == old(mesh).positions@ + self.quad.spec_positions(
                self.face,
                self.magnitude,
            ),
            final(mesh).normals@ == old(mesh).normals@ + seq![
                self.face.spec_normal(),
                self.face.spec_normal(),
                self.face.spec_normal(),
                self.face.spec_normal(),
            ],
            final(mesh).uvs@ == old(mesh).uvs@ + self.quad.spec_uvs(),
            final(mesh).bitfields@ == old(mesh).bitfields@ + quad_vertex_bitfields(self.texture),
            final(mesh).texture_indices@ == old(mesh).texture_indices@ + seq![
                self.texture.texture_idx,
                self.texture.texture_idx,
                self.texture.texture_idx,
                self.texture.texture_idx,
            ],
            final(mesh).indices@ == old(mesh).indices@ + face_winding(self.face).map(
                |_j: int, v: u32| (v + idx) as u32,
            ),
    {
        let positions = self.positions();
        let normal = self.face.normal();
        let uvs = self.quad.uvs();
        let mut k: usize = 0;
        while k < 4
            invariant
                k <= 4,
                positions@ == self.quad.spec_positions(self.face, self.magnitude),
                uvs@ == self.quad.spec_uvs(),
                normal == self.face.spec_normal(),
                mesh.positions@ == old(mesh).positions@ + positions@.take(k as int),
                mesh.normals@ == old(mesh).normals@ + Seq::new(k as nat, |_j| normal),
                mesh.uvs@ == old(mesh).uvs@ + uvs@.take(k as int),
                mesh.bitfields@ == old(mesh).bitfields@ + quad_vertex_bitfields(
                    self.texture,
                ).take(k as int),
                mesh.texture_indices@ == old(mesh).texture_indices@ + Seq::new(
                    k as nat,
                    |_j| self.texture.texture_idx,
                ),
                mesh.indices@ == old(mesh).indices@,
            decreases 4 - k,
        {
            mesh.positions.push(positions[k]);
            mesh.normals.push(normal);
            mesh.uvs.push(uvs[k]);
            mesh.bitfields.push(pack_bitfield(
                self.texture.rotation,
                self.texture.flip_x,
                self.texture.flip_y,
                k == 0,
            ));
            mesh.texture_indices.push(self.texture.texture_idx);
            k += 1;
            proof {
                assert(mesh.positions@ =~= old(mesh).positions@ + positions@.take(k as int));
                assert(mesh.uvs@ =~= old(mesh).uvs@ + uvs@.take(k as int));
                assert(mesh.normals@ =~= old(mesh).normals@ + Seq::new(k as nat, |_j| normal));
                assert(mesh.bitfields@ =~= old(mesh).bitfields@ + quad_vertex_bitfields(
                    self.texture,
                ).take(k as int));
                assert(mesh.texture_indices@ =~= old(mesh).texture_indices@ + Seq::new(
                    k as nat,
                    |_j| self.texture.texture_idx,
                ));
            }
        }
        let winding: [u32; 6] = if self.face.axis_direction() == 1 {
            [0, 1, 2, 1, 3, 2]
        } else {
            [0, 2, 1, 1, 2, 3]
        };
        let mut j: usize = 0;
        while j < 6
            invariant
                j <= 6,
                idx + 3 <= u32::MAX,
                winding@ == face_winding(self.face),
                forall|t: int| 0 <= t < 6 ==> #[trigger] face_winding(self.face)[t] <= 3,
                mesh.positions@ == old(mesh).positions@ + self.quad.spec_positions(
                    self.face,
                    self.magnitude,
                ),
                mesh.normals@ == old(mesh).normals@ + seq![
                    self.face.spec_normal(),
                    self.face.spec_normal(),
                    self.face.spec_normal(),
                    self.face.spec_normal(),
                ],
                mesh.uvs@ == old(mesh).uvs@ + self.quad.spec_uvs(),
                mesh.bitfields@ == old(mesh).bitfields@ + quad_vertex_bitfields(self.texture),
                mesh.texture_indices@ == old(mesh).texture_indices@ + seq![
                    self.texture.texture_idx,
                    self.texture.texture_idx,
                    self.texture.texture_idx,
                    self.texture.texture_idx,
                ],
                mesh.indices@ == old(mesh).indices@ + face_winding(self.face).map(
                    |_t: int, v: u32| (v + idx) as u32,
                ).take(j as int),
            decreases 6 - j,
        {
            mesh.indices.push(winding[j] + idx);
            j += 1;
            proof {
                assert(mesh.indices@ =~= old(mesh).indices@ + face_winding(self.face).map(
                    |_t: int, v: u32| (v + idx) as u32,
                ).take(j as int));
            }
        }
        proof {
            assert(mesh.positions@ =~= old(mesh).positions@ + self.quad.spec_positions(
                self.face,
                self.magnitude,
            ));
            assert(mesh.indices@ =~= old(mesh).indices@ + face_winding(self.face).map(
                |_t: int, v: u32| (v + idx) as u32,
            ));
        }
    }
}

/// One quad as uploaded to the GPU: texture index, packed orientation
/// bitfield, and the two opposite 3D corners of the rectangle.
#[derive(Clone, Copy, PartialEq, Eq, Structural, Debug)]
pub struct GpuQuad {
    pub texture_id: u32,
    pub rotation: u32,
    pub min: IVec3,
    pub max: IVec3,
}

/// The GPU form of a positioned quad.
pub open spec fn spec_gpu_quad(q: PositionedQuad) -> GpuQuad {
    let m = if q.face.spec_axis_direction() == 1 {
        (q.magnitude + 1) as i32
    } else {
        q.magnitude
    };
    GpuQuad {
        texture_id: q.texture.texture_idx,
        rotation: spec_pack_bitfield(q.texture.rotation, q.texture.flip_x, q.texture.flip_y, false),
        min: crate::meshing::spec_project_to_3d(IVec2 { x: q.quad.x, y: q.quad.y }, q.face, m),
        max: crate::meshing::spec_project_to_3d(
            IVec2 { x: (q.quad.x + q.quad.width) as i32, y: (q.quad.y + q.quad.height) as i32 },
            q.face,
            m,
        ),
    }
}

impl PositionedQuad {
    /// This quad in its GPU form.
    pub fn gpu_quad(&self) -> (r: GpuQuad)
        requires
            self.wf(),
        ensures
            r == spec_gpu_quad(*self),
    {
        let m: i32 = if self.face.axis_direction() == 1 {
            self.magnitude + 1
        } else {
            self.magnitude
        };
        GpuQuad {
            texture_id: self.texture.texture_idx,
            rotation: pack_bitfield(
                self.texture.rotation,
                self.texture.flip_x,
                self.texture.flip_y,
                false,
            ),
            min: crate::meshing::ivec_project_to_3d(
                IVec2 { x: self.quad.x, y: self.quad.y },
                self.face,
                m,
            ),
            max: crate::meshing::ivec_project_to_3d(
                IVec2 { x: self.quad.x + self.quad.width, y: self.quad.y + self.quad.height },
                self.face,
                m,
            ),
        }
    }
}

/// The per-chunk geometry buffer: one GPU quad per merged rectangle.
#[derive(Clone, Debug)]
pub struct ChunkQuads {
    pub quads: Vec<GpuQuad>,
}

/// Converts a batch of positioned quads into the per-chunk GPU buffer,
/// one GPU quad per positioned quad, in order.
pub fn chunk_quads(quads: &Vec<PositionedQuad>) -> (r: ChunkQuads)
    requires
        forall|i: int| 0 <= i < quads@.len() ==> (#[trigger] quads@[i]).wf(),
    ensures
        r.quads@.len() == quads@.len(),
        forall|i: int| 0 <= i < quads@.len() ==> r.quads@[i] == spec_gpu_quad(#[trigger] quads@[i]),
{
    let mut out: Vec<GpuQuad> = Vec::new();
    let mut i: usize = 0;
    while i < quads.len()
        invariant
            i <= quads@.len(),
            out@.len() == i,
            forall|k: int| 0 <= k < quads@.len() ==> (#[trigger] quads@[k]).wf(),
            forall|k: int| 0 <= k < i ==> out@[k] == spec_gpu_quad(#[trigger] quads@[k]),
        decreases quads@.len() - i,
    {
        out.push(quads[i].gpu_quad());
        i += 1;
    }
    ChunkQuads { quads: out }
}

} // verus!
