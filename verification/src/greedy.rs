//! Greedy face merging: scans one face plane of visible voxel faces in
//! raster order and merges adjacent cells of identical texture into the
//! fewest rectangular quads this policy yields (first-found, row-major;
//! no globally optimal partition is attempted).

use vstd::prelude::*;

use crate::chunk::CHUNK_SIZE;
use crate::quad::{Quad, PositionedQuad};
use crate::tile::Face;
use crate::voxel::FaceTexture;

verus! {

/// Number of cells in one face plane: `CHUNK_SIZE` squared.
pub const PLANE_CELLS: usize = 256;

/// Whether a 2D cell position lies inside the face plane.
pub open spec fn plane_in_bounds(u: int, v: int) -> bool {
    &&& 0 <= u < CHUNK_SIZE
    &&& 0 <= v < CHUNK_SIZE
}

/// The flat index of a face-plane cell.
pub open spec fn plane_index(u: int, v: int) -> int {
    u + (CHUNK_SIZE as int) * v
}

/// One face plane of visibility data: for each cell, the texture of the
/// visible face there, or `None` where no face is visible.
pub struct FacePlane {
    cells: Vec<Option<FaceTexture>>,
}

impl View for FacePlane {
    type V = Seq<Option<FaceTexture>>;

    closed spec fn view(&self) -> Seq<Option<FaceTexture>> {
        self.cells@
    }
}

impl FacePlane {
    pub open spec fn wf(&self) -> bool {
        self@.len() == PLANE_CELLS
    }

    /// A plane with no visible face anywhere.
    pub fn new_empty() -> (p: FacePlane)
        ensures
            p.wf(),
            forall|i: int| 0 <= i < PLANE_CELLS ==> p@[i] is None,
    {
        let mut cells: Vec<Option<FaceTexture>> = Vec::new();
        let mut i: usize = 0;
        while i < PLANE_CELLS
            invariant
                i <= PLANE_CELLS,
                cells@.len() == i,
                forall|j: int| 0 <= j < i ==> cells@[j] is None,
            decreases PLANE_CELLS - i,
        {
            cells.push(None);
            i += 1;
        }
        FacePlane { cells }
    }

    /// Sets one cell's visibility entry.
    pub fn set(&mut self, u: usize, v: usize, t: Option<FaceTexture>)
        requires
            old(self).wf(),
            u < CHUNK_SIZE,
            v < CHUNK_SIZE,
        ensures
            final(self).wf(),
            final(self)@ == old(self)@.update(plane_index(u as int, v as int), t),
    {
        proof {
            assert(CHUNK_SIZE == 16);
        }
        let idx: usize = u + 16 * v;
        self.cells[idx] = t;
    }

    /// Reads one cell's visibility entry.
    pub fn get(&self, u: usize, v: usize) -> (r: Option<FaceTexture>)
        requires
            self.wf(),
            u < CHUNK_SIZE,
            v < CHUNK_SIZE,
        ensures
            r == self@[plane_index(u as int, v as int)],
    {
        proof {
            assert(CHUNK_SIZE == 16);
        }
        let idx: usize = u + 16 * v;
        self.cells[idx]
    }
}

/// Whether a quad's rectangle covers a 2D cell.
pub open spec fn quad_covers(q: Quad, u: int, v: int) -> bool {
    &&& q.x <= u < q.x + q.width
    &&& q.y <= v < q.y + q.height
}

/// A non-degenerate rectangle inside the face plane.
pub open spec fn quad_in_plane(q: Quad) -> bool {
    &&& 0 <= q.x
    &&& 0 <= q.y
    &&& 1 <= q.width
    &&& 1 <= q.height
    &&& q.x + q.width <= CHUNK_SIZE
    &&& q.y + q.height <= CHUNK_SIZE
}

/// Whether some quad of the batch covers a 2D cell.
pub open spec fn covered_by(qs: Seq<PositionedQuad>, u: int, v: int) -> bool {
    exists|i: int| 0 <= i < qs.len() && quad_covers(#[trigger] qs[i].quad, u, v)
}

/// Every cell a quad covers is a visible cell of the plane carrying
/// exactly the quad's texture.
pub open spec fn quads_valid(qs: Seq<PositionedQuad>, p: Seq<Option<FaceTexture>>) -> bool {
    forall|i: int, u: int, v: int|
        0 <= i < qs.len() && #[trigger] quad_covers(qs[i].quad, u, v) ==> plane_in_bounds(u, v)
            && p[plane_index(u, v)] == Some(qs[i].texture)
}

/// No two quads of the batch overlap: each cell contributes to at most
/// one quad.
pub open spec fn quads_disjoint(qs: Seq<PositionedQuad>) -> bool {
    forall|i: int, j: int, u: int, v: int|
        0 <= i < j < qs.len() ==> !(#[trigger] quad_covers(qs[i].quad, u, v)
            && #[trigger] quad_covers(qs[j].quad, u, v))
}

/// Every visible cell of the plane is covered by some quad.
pub open spec fn quads_cover(qs: Seq<PositionedQuad>, p: Seq<Option<FaceTexture>>) -> bool {
    forall|u: int, v: int|
        plane_in_bounds(u, v) && p[#[trigger] plane_index(u, v)] is Some ==> covered_by(qs, u, v)
}

/// A plane showing the same texture on every cell.
pub open spec fn plane_uniform(p: Seq<Option<FaceTexture>>, t: FaceTexture) -> bool {
    forall|u: int, v: int| plane_in_bounds(u, v) ==> p[#[trigger] plane_index(u, v)] == Some(t)
}

/// A plane alternating two textures like a checkerboard: each cell shows
/// one of them, picked by the parity of its coordinates.
pub open spec fn plane_checkerboard(
    p: Seq<Option<FaceTexture>>,
    t1: FaceTexture,
    t2: FaceTexture,
) -> bool {
    forall|u: int, v: int|
        plane_in_bounds(u, v) ==> p[#[trigger] plane_index(u, v)] == Some(
            if (u + v) % 2 == 0 {
                t1
            } else {
                t2
            },
        )
}

/// On a checkerboard of two distinct textures, any batch of valid
/// in-plane quads consists of unit quads only: a wider or taller quad
/// would cover two cells of different textures with one texture.
pub proof fn lemma_checkerboard_gives_unit_quads(
    qs: Seq<PositionedQuad>,
    p: Seq<Option<FaceTexture>>,
    t1: FaceTexture,
    t2: FaceTexture,
)
    requires
        quads_valid(qs, p),
        forall|i: int| 0 <= i < qs.len() ==> quad_in_plane((#[trigger] qs[i]).quad),
        plane_checkerboard(p, t1, t2),
        t1 != t2,
    ensures
        forall|i: int|
            0 <= i < qs.len() ==> (#[trigger] qs[i]).quad.width == 1 && qs[i].quad.height == 1,
{
    assert forall|i: int| 0 <= i < qs.len() implies (#[trigger] qs[i]).quad.width == 1
        && qs[i].quad.height == 1 by {
        let q = qs[i].quad;
        assert(quad_covers(q, q.x as int, q.y as int));
        if q.width >= 2 {
            assert(quad_covers(q, q.x + 1, q.y as int));
            assert(p[plane_index(q.x as int, q.y as int)] == Some(qs[i].texture));
            assert(p[plane_index(q.x + 1, q.y as int)] == Some(qs[i].texture));
            assert((q.x + q.y) % 2 != (q.x + 1 + q.y) % 2);
            assert(false);
        }
        if q.height >= 2 {
            assert(quad_covers(q, q.x as int, q.y + 1));
            assert(p[plane_index(q.x as int, q.y as int)] == Some(qs[i].texture));
            assert(p[plane_index(q.x as int, q.y + 1)] == Some(qs[i].texture));
            assert((q.x + q.y) % 2 != (q.x + q.y + 1) % 2);
            assert(false);
        }
    }
}

/// Pushing a quad onto a batch covers exactly the cells the batch
/// covered plus the cells of the new quad.
proof fn lemma_covered_push(qs: Seq<PositionedQuad>, q: PositionedQuad, u: int, v: int)
    ensures
        covered_by(qs.push(q), u, v) <==> (covered_by(qs, u, v) || quad_covers(q.quad, u, v)),
{
    if covered_by(qs, u, v) {
        let i = choose|i: int| 0 <= i < qs.len() && quad_covers(#[trigger] qs[i].quad, u, v);
        assert(qs.push(q)[i].quad == qs[i].quad);
        assert(quad_covers(qs.push(q)[i].quad, u, v));
    }
    if quad_covers(q.quad, u, v) {
        assert(qs.push(q)[qs.len() as int].quad == q.quad);
        assert(quad_covers(qs.push(q)[qs.len() as int].quad, u, v));
    }
    if covered_by(qs.push(q), u, v) {
        let i = choose|i: int|
            0 <= i < qs.push(q).len() && quad_covers(#[trigger] qs.push(q)[i].quad, u, v);
        if i < qs.len() {
            assert(quad_covers(qs[i].quad, u, v));
        } else {
            assert(qs.push(q)[i].quad == q.quad);
        }
    }
}

/// Greedy-merges one face plane into quads at the given layer magnitude.
///
/// The returned batch tiles the plane's visible cells exactly: every
/// quad covers only visible cells of its own texture, no two quads
/// overlap, and every visible cell is covered. A fully uniform plane
/// merges into exactly one quad covering the whole plane.
pub fn mesh_plane(plane: &FacePlane, face: Face, mag: i32) -> (qs: Vec<PositionedQuad>)
    requires
        plane.wf(),
        0 <= mag < CHUNK_SIZE,
    ensures
        forall|i: int|
            0 <= i < qs@.len() ==> {
                &&& (#[trigger] qs@[i]).face == face
                &&& qs@[i].magnitude == mag
                &&& quad_in_plane(qs@[i].quad)
            },
        quads_valid(qs@, plane@),
        quads_disjoint(qs@),
        quads_cover(qs@, plane@),
        forall|t: FaceTexture| plane_uniform(plane@, t) ==> qs@.len() == 1,
{
    let mut consumed: Vec<bool> = Vec::new();
    let mut qs: Vec<PositionedQuad> = Vec::new();
    let mut i: usize = 0;
    while i < PLANE_CELLS
        invariant
            i <= PLANE_CELLS,
            consumed@.len() == i,
            forall|j: int| 0 <= j < i ==> !consumed@[j],
        decreases PLANE_CELLS - i,
    {
        consumed.push(false);
        i += 1;
    }
    let mut v: usize = 0;
    while v < CHUNK_SIZE as usize
        invariant
            plane.wf(),
            0 <= mag < CHUNK_SIZE,
            v <= CHUNK_SIZE as usize,
            consumed@.len() == PLANE_CELLS,
            forall|a: int, b: int|
                plane_in_bounds(a, b) ==> (consumed@[plane_index(a, b)] == covered_by(
                    qs@,
                    a,
                    b,
                )),
            forall|k: int|
                0 <= k < qs@.len() ==> {
                    &&& (#[trigger] qs@[k]).face == face
                    &&& qs@[k].magnitude == mag
                    &&& quad_in_plane(qs@[k].quad)
                },
            quads_valid(qs@, plane@),
            quads_disjoint(qs@),
            forall|a: int, b: int|
                plane_in_bounds(a, b) && b < v ==> (plane@[plane_index(a, b)] is Some
                    ==> consumed@[plane_index(a, b)]),
            forall|t: FaceTexture|
                plane_uniform(plane@, t) ==> if v == 0 {
                    qs@.len() == 0
                } else {
                    qs@.len() == 1 && (forall|a: int, b: int|
                        plane_in_bounds(a, b) ==> consumed@[plane_index(a, b)])
                },
        decreases CHUNK_SIZE as usize - v,
    {
        let mut u: usize = 0;
        while u < CHUNK_SIZE as usize
            invariant
                plane.wf(),
                0 <= mag < CHUNK_SIZE,
                v < CHUNK_SIZE as usize,
                u <= CHUNK_SIZE as usize,
                consumed@.len() == PLANE_CELLS,
                forall|a: int, b: int|
                    plane_in_bounds(a, b) ==> (consumed@[plane_index(a, b)] == covered_by(
                        qs@,
                        a,
                        b,
                    )),
                forall|k: int|
                    0 <= k < qs@.len() ==> {
                        &&& (#[trigger] qs@[k]).face == face
                        &&& qs@[k].magnitude == mag
                        &&& quad_in_plane(qs@[k].quad)
                    },
                quads_valid(qs@, plane@),
                quads_disjoint(qs@),
                forall|a: int, b: int|
                    plane_in_bounds(a, b) && (b < v || (b == v && a < u)) ==> (plane@[plane_index(
                        a,
                        b,
                    )] is Some ==> consumed@[plane_index(a, b)]),
                forall|t: FaceTexture|
                    plane_uniform(plane@, t) ==> if v == 0 && u == 0 {
                        qs@.len() == 0
                    } else {
                        qs@.len() == 1 && (forall|a: int, b: int|
                            plane_in_bounds(a, b) ==> consumed@[plane_index(a, b)])
                    },
            decreases CHUNK_SIZE as usize - u,
        {
            let scan: usize = u + 16 * v;
            proof {
                assert(scan as int == plane_index(u as int, v as int));
            }
            let cell = if consumed[scan] {
                None
            } else {
                plane.cells[scan]
            };
            match cell {
                None => {
                    proof {
                        assert forall|t: FaceTexture| plane_uniform(plane@, t) implies qs@.len()
                            == 1 && (forall|a: int, b: int|
                            plane_in_bounds(a, b) ==> consumed@[plane_index(a, b)]) by {
                            assert(plane_in_bounds(u as int, v as int));
                            assert(plane@[plane_index(u as int, v as int)] == Some(t));
                            if v == 0 && u == 0 {
                                assert(qs@.len() == 0);
                                assert(!covered_by(qs@, u as int, v as int));
                                assert(!consumed@[plane_index(u as int, v as int)]);
                                assert(cell == plane@[scan as int]);
                                assert(false);
                            }
                        }
                    }
                },
                Some(tex) => {
                    // Extend the width while the next cell in the row is
                    // unconsumed and shows the same texture.
                    let mut w: usize = 1;
                    loop
                        invariant
                            plane.wf(),
                            consumed@.len() == PLANE_CELLS,
                            v < CHUNK_SIZE as usize,
                            u < CHUNK_SIZE as usize,
                            1 <= w <= CHUNK_SIZE as usize - u,
                            forall|a: int|
                                u <= a < u + w ==> plane@[plane_index(a, v as int)] == Some(tex)
                                    && !consumed@[plane_index(a, v as int)],
                        ensures
                            1 <= w <= CHUNK_SIZE as usize - u,
                            forall|a: int|
                                u <= a < u + w ==> plane@[plane_index(a, v as int)] == Some(tex)
                                    && !consumed@[plane_index(a, v as int)],
                            u + w == CHUNK_SIZE as usize || !(plane@[plane_index(
                                (u + w) as int,
                                v as int,
                            )] == Some(tex) && !consumed@[plane_index((u + w) as int, v as int)]),
                        decreases CHUNK_SIZE as usize - u - w,
                    {
                        if u + w >= CHUNK_SIZE as usize {
                            break ;
                        }
                        let nidx: usize = (u + w) + 16 * v;
                        proof {
                            assert(nidx as int == plane_index((u + w) as int, v as int));
                        }
                        if consumed[nidx] {
                            break ;
                        }
                        let matches_tex = match &plane.cells[nidx] {
                            Some(t2) => t2.same_as(&tex),
                            None => false,
                        };
                        if !matches_tex {
                            break ;
                        }
                        w += 1;
                    }
                    // Extend the height while the entire next row matches.
                    let mut h: usize = 1;
                    loop
                        invariant
                            plane.wf(),
                            consumed@.len() == PLANE_CELLS,
                            v < CHUNK_SIZE as usize,
                            u < CHUNK_SIZE as usize,
                            1 <= w <= CHUNK_SIZE as usize - u,
                            1 <= h <= CHUNK_SIZE as usize - v,
                            forall|a: int, b: int|
                                u <= a < u + w && v <= b < v + h ==> plane@[plane_index(a, b)]
                                    == Some(tex) && !consumed@[plane_index(a, b)],
                        ensures
                            1 <= h <= CHUNK_SIZE as usize - v,
                            forall|a: int, b: int|
                                u <= a < u + w && v <= b < v + h ==> plane@[plane_index(a, b)]
                                    == Some(tex) && !consumed@[plane_index(a, b)],
                            v + h == CHUNK_SIZE as usize || exists|a: int|
                                u <= a < u + w && !(plane@[#[trigger] plane_index(
                                    a,
                                    (v + h) as int,
                                )] == Some(tex) && !consumed@[plane_index(a, (v + h) as int)]),
                        decreases CHUNK_SIZE as usize - v - h,
                    {
                        if v + h >= CHUNK_SIZE as usize {
                            break ;
                        }
                        let mut row_ok = true;
                        let mut uu: usize = u;
                        while uu < u + w && row_ok
                            invariant
                                plane.wf(),
                                consumed@.len() == PLANE_CELLS,
                                v + h < CHUNK_SIZE as usize,
                                u < CHUNK_SIZE as usize,
                                1 <= w <= CHUNK_SIZE as usize - u,
                                u <= uu <= u + w,
                                row_ok ==> forall|a: int|
                                    u <= a < uu ==> plane@[#[trigger] plane_index(a, (v + h) as int)]
                                        == Some(tex) && !consumed@[plane_index(a, (v + h) as int)],
                                !row_ok ==> u <= (uu as int) < u + w && !(plane@[plane_index(
                                    uu as int,
                                    (v + h) as int,
                                )] == Some(tex) && !consumed@[plane_index(
                                    uu as int,
                                    (v + h) as int,
                                )]),
                            decreases u + w - uu, (if row_ok {
                                1int
                            } else {
                                0int
                            }),
                        {
                            let ridx: usize = uu + 16 * (v + h);
                            proof {
                                assert(ridx as int == plane_index(uu as int, (v + h) as int));
                            }
                            let good = if consumed[ridx] {
                                false
                            } else {
                                match &plane.cells[ridx] {
                                    Some(t2) => t2.same_as(&tex),
                                    None => false,
                                }
                            };
                            if !good {
                                row_ok = false;
                            } else {
                                uu += 1;
                            }
                        }
                        if !row_ok {
                            break ;
                        }
                        h += 1;
                    }
                    // Mark the merged rectangle consumed.
                    let ghost consumed_before = consumed@;
                    let mut vv: usize = v;
                    while vv < v + h
                        invariant
                            consumed@.len() == PLANE_CELLS,
                            v < CHUNK_SIZE as usize,
                            u < CHUNK_SIZE as usize,
                            1 <= w <= CHUNK_SIZE as usize - u,
                            1 <= h <= CHUNK_SIZE as usize - v,
                            v <= vv <= v + h,
                            forall|a: int, b: int|
                                plane_in_bounds(a, b) ==> consumed@[plane_index(a, b)] == (
                                consumed_before[plane_index(a, b)] || (u <= a < u + w && v <= b
                                    < vv)),
                        decreases v + h - vv,
                    {
                        let mut uu: usize = u;
                        while uu < u + w
                            invariant
                                consumed@.len() == PLANE_CELLS,
                                v < CHUNK_SIZE as usize,
                                u < CHUNK_SIZE as usize,
                                1 <= w <= CHUNK_SIZE as usize - u,
                                1 <= h <= CHUNK_SIZE as usize - v,
                                v <= vv < v + h,
                                u <= uu <= u + w,
                                forall|a: int, b: int|
                                    plane_in_bounds(a, b) ==> consumed@[plane_index(a, b)] == (
                                    consumed_before[plane_index(a, b)] || (u <= a < u + w && v <= b
                                        < vv) || (u <= a < uu && b == vv)),
                            decreases u + w - uu,
                        {
                            let midx: usize = uu + 16 * vv;
                            proof {
                                assert(midx as int == plane_index(uu as int, vv as int));
                            }
                            consumed[midx] = true;
                            uu += 1;
                            proof {
                                assert(forall|a: int, b: int|
                                    plane_in_bounds(a, b) ==> consumed@[plane_index(a, b)] == (
                                    consumed_before[plane_index(a, b)] || (u <= a < u + w && v <= b
                                        < vv) || (u <= a < uu && b == vv)));
                            }
                        }
                        vv += 1;
                    }
                    // Record the quad.
                    let quad = Quad {
                        x: u as i32,
                        y: v as i32,
                        width: w as i32,
                        height: h as i32,
                    };
                    let pq = PositionedQuad { magnitude: mag, face, quad, texture: tex };
                    let ghost qs_before = qs@;
                    qs.push(pq);
                    proof {
                        assert forall|a: int, b: int| plane_in_bounds(a, b) implies consumed@[
                            plane_index(a, b)
                        ] == covered_by(qs@, a, b) by {
                            lemma_covered_push(qs_before, pq, a, b);
                        }
                        assert forall|a: int, b: int|
                            plane_in_bounds(a, b) && (b < v || (b == v && a < u + 1))
                                && plane@[plane_index(a, b)] is Some implies consumed@[plane_index(
                            a,
                            b,
                        )] by {
                            lemma_covered_push(qs_before, pq, a, b);
                        }
                        assert(quads_valid(qs@, plane@)) by {
                            assert forall|k: int, a: int, b: int|
                                0 <= k < qs@.len() && #[trigger] quad_covers(
                                    qs@[k].quad,
                                    a,
                                    b,
                                ) implies plane_in_bounds(a, b) && plane@[plane_index(a, b)]
                                == Some(qs@[k].texture) by {
                                if k < qs_before.len() {
                                    assert(qs@[k] == qs_before[k]);
                                    assert(quad_covers(qs_before[k].quad, a, b));
                                } else {
                                    assert(qs@[k] == pq);
                                }
                            }
                        }
                        assert(quads_disjoint(qs@)) by {
                            assert forall|k: int, j: int, a: int, b: int|
                                0 <= k < j < qs@.len() implies !(#[trigger] quad_covers(
                                qs@[k].quad,
                                a,
                                b,
                            ) && #[trigger] quad_covers(qs@[j].quad, a, b)) by {
                                if j < qs_before.len() {
                                    assert(qs@[k] == qs_before[k] && qs@[j] == qs_before[j]);
                                } else {
                                    assert(qs@[j] == pq && qs@[k] == qs_before[k]);
                                    if quad_covers(qs@[k].quad, a, b) && quad_covers(
                                        pq.quad,
                                        a,
                                        b,
                                    ) {
                                        assert(plane_in_bounds(a, b));
                                        assert(covered_by(qs_before, a, b));
                                        assert(consumed_before[plane_index(a, b)]);
                                        assert(!consumed_before[plane_index(a, b)]);
                                    }
                                }
                            }
                        }
                        assert forall|t: FaceTexture| plane_uniform(plane@, t) implies qs@.len()
                            == 1 && (forall|a: int, b: int|
                            plane_in_bounds(a, b) ==> consumed@[plane_index(a, b)]) by {
                            assert(plane_in_bounds(u as int, v as int));
                            assert(plane@[plane_index(u as int, v as int)] == Some(t));
                            assert(plane@[plane_index(u as int, v as int)] == Some(tex));
                            assert(!consumed_before[plane_index(u as int, v as int)]);
                            // a uniform plane is met at the very first scan cell,
                            // before anything is consumed or merged
                            if !(v == 0 && u == 0) {
                                assert(qs_before.len() == 1 && (forall|a: int, b: int|
                                    plane_in_bounds(a, b) ==> consumed_before[plane_index(a, b)]));
                                assert(consumed_before[plane_index(u as int, v as int)]);
                            }
                            assert(v == 0 && u == 0 && qs_before.len() == 0);
                            assert forall|a: int, b: int| plane_in_bounds(a, b) implies
                                !consumed_before[plane_index(a, b)] by {
                                assert(!covered_by(qs_before, a, b));
                            }
                            assert(t == tex);
                            // the width scan ran to the edge of the plane
                            if u + w < CHUNK_SIZE {
                                assert(plane_in_bounds((u + w) as int, v as int));
                                assert(plane@[plane_index((u + w) as int, v as int)] == Some(t));
                                assert(plane@[plane_index((u + w) as int, v as int)] == Some(tex));
                                assert(!consumed_before[plane_index((u + w) as int, v as int)]);
                                assert(u + w == CHUNK_SIZE as usize);
                                assert(false);
                            }
                            // so did the height scan
                            if v + h < CHUNK_SIZE {
                                assert(exists|a: int|
                                    u <= a < u + w && !(plane@[#[trigger] plane_index(
                                        a,
                                        (v + h) as int,
                                    )] == Some(tex) && !consumed_before[plane_index(
                                        a,
                                        (v + h) as int,
                                    )]));
                                let a = choose|a: int|
                                    u <= a < u + w && !(plane@[#[trigger] plane_index(
                                        a,
                                        (v + h) as int,
                                    )] == Some(tex) && !consumed_before[plane_index(
                                        a,
                                        (v + h) as int,
                                    )]);
                                assert(plane_in_bounds(a, (v + h) as int));
                                assert(plane@[plane_index(a, (v + h) as int)] == Some(t));
                                assert(!consumed_before[plane_index(a, (v + h) as int)]);
                                assert(false);
                            }
                            assert(w == CHUNK_SIZE && h == CHUNK_SIZE);
                        }
                    }
                },
            }
            u += 1;
        }
        v += 1;
    }
    proof {
        assert forall|a: int, b: int|
            plane_in_bounds(a, b) && plane@[#[trigger] plane_index(a, b)] is Some implies
            covered_by(qs@, a, b) by {
            assert(consumed@[plane_index(a, b)]);
        }
    }
    qs
}

} // verus!
