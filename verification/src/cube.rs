//! The box that the sky is drawn on.
//!
//! The viewer stands inside a box of half-width 10 around the origin, and the
//! sky is what shows on its walls. So every wall has to face inwards: seen
//! from the centre, the corners of each triangle run counter-clockwise.

use vstd::prelude::*;
use crate::factory::{Factory, Resource};
use crate::handle::Buffer;
use crate::mesh::{IndexBuffer, Mesh, Slice, Vert};
use crate::scalar::{integral, lemma_named_integers, NEG_TEN, TEN};

verus! {

/// The corners of the box, as a buffer holds them.
pub open spec fn box_vertices() -> [Vert; 8] {
    [
        Vert { pos: [NEG_TEN, NEG_TEN, TEN] },
        Vert { pos: [NEG_TEN, TEN, TEN] },
        Vert { pos: [NEG_TEN, NEG_TEN, NEG_TEN] },
        Vert { pos: [NEG_TEN, TEN, NEG_TEN] },
        Vert { pos: [TEN, NEG_TEN, TEN] },
        Vert { pos: [TEN, TEN, TEN] },
        Vert { pos: [TEN, NEG_TEN, NEG_TEN] },
        Vert { pos: [TEN, TEN, NEG_TEN] },
    ]
}

/// The triangles of the box: every three indices name the corners of one.
pub open spec fn box_indices() -> [u32; 36] {
    [
        0, 2, 1,
        2, 6, 3,
        6, 4, 7,
        4, 0, 5,
        2, 0, 6,
        7, 5, 3,
        2, 3, 1,
        6, 7, 3,
        4, 5, 7,
        0, 1, 5,
        0, 4, 6,
        5, 1, 3,
    ]
}

/// A point of space with whole coordinates.
pub struct Point {
    pub x: int,
    pub y: int,
    pub z: int,
}

/// The `k`-th corner of the box. The three lowest bits of `k` choose the
/// side along each axis: 4 the positive side of `x`, 1 the positive side of
/// `y`, 2 the negative side of `z`.
pub open spec fn corner(k: int) -> Point {
    Point {
        x: if k / 4 % 2 == 1 { 10 } else { -10 },
        y: if k % 2 == 1 { 10 } else { -10 },
        z: if k / 2 % 2 == 1 { -10 } else { 10 },
    }
}

/// The corner that the `i`-th corner of the `t`-th triangle is.
pub open spec fn triangle_corner(t: int, i: int) -> Point {
    corner(box_indices()[3 * t + i] as int)
}

/// Seen from `eye`, the corners `a`, `b`, `c` run counter-clockwise: the
/// normal `(b - a) x (c - a)` points to the side of the triangle's plane on
/// which `eye` lies.
pub open spec fn faces(a: Point, b: Point, c: Point, eye: Point) -> bool {
    let ux = b.x - a.x;
    let uy = b.y - a.y;
    let uz = b.z - a.z;
    let vx = c.x - a.x;
    let vy = c.y - a.y;
    let vz = c.z - a.z;
    let nx = uy * vz - uz * vy;
    let ny = uz * vx - ux * vz;
    let nz = ux * vy - uy * vx;
    nx * (eye.x - a.x) + ny * (eye.y - a.y) + nz * (eye.z - a.z) > 0
}

/// The vertices of the box.
pub fn vertices() -> (v: [Vert; 8])
    ensures
        v == box_vertices(),
{
    [
        Vert { pos: [NEG_TEN, NEG_TEN, TEN] },
        Vert { pos: [NEG_TEN, TEN, TEN] },
        Vert { pos: [NEG_TEN, NEG_TEN, NEG_TEN] },
        Vert { pos: [NEG_TEN, TEN, NEG_TEN] },
        Vert { pos: [TEN, NEG_TEN, TEN] },
        Vert { pos: [TEN, TEN, TEN] },
        Vert { pos: [TEN, NEG_TEN, NEG_TEN] },
        Vert { pos: [TEN, TEN, NEG_TEN] },
    ]
}

/// The indices of the box.
pub fn indices() -> (i: [u32; 36])
    ensures
        i == box_indices(),
{
    [
        0, 2, 1,
        2, 6, 3,
        6, 4, 7,
        4, 0, 5,
        2, 0, 6,
        7, 5, 3,
        2, 3, 1,
        6, 7, 3,
        4, 5, 7,
        0, 1, 5,
        0, 4, 6,
        5, 1, 3,
    ]
}

/// What [`upload`] asks a factory for.
pub open spec fn box_requests() -> Seq<Resource> {
    seq![Resource::BoxVertices(box_vertices()), Resource::BoxIndices(box_indices())]
}

/// The mesh that [`upload`] returns, where `base` descriptions came before.
pub open spec fn box_mesh(base: int) -> Mesh {
    Mesh {
        slice: Slice {
            start: 0,
            end: 36,
            base_vertex: 0,
            instances: None,
            buffer: IndexBuffer::Index32(Buffer { id: (base + 1) as usize }),
        },
        buf: Buffer { id: base as usize },
    }
}

/// Asks for the box on the device: its vertices, its indices, and a slice
/// that runs through all thirty-six of them.
pub fn upload(f: &mut Factory) -> (mesh: Mesh)
    ensures
        final(f)@ == old(f)@ + box_requests(),
        final(f).spec_realized() == old(f).spec_realized(),
        mesh == box_mesh(old(f)@.len() as int),
{
    let ghost before = f@;
    let buf = Buffer { id: f.create(Resource::BoxVertices(vertices())) };
    let index = Buffer { id: f.create(Resource::BoxIndices(indices())) };
    assert(f@ =~= before + box_requests());
    Mesh {
        slice: Slice {
            start: 0,
            end: 36,
            base_vertex: 0,
            instances: None,
            buffer: IndexBuffer::Index32(index),
        },
        buf,
    }
}

/// The buffer holds the corners: the `k`-th vertex is the `k`-th corner,
/// each coordinate as the bit pattern of the whole number it is.
pub proof fn law_vertices_are_corners(k: int)
    requires
        0 <= k < 8,
    ensures
        integral(box_vertices()[k].pos[0]) == Some(corner(k).x),
        integral(box_vertices()[k].pos[1]) == Some(corner(k).y),
        integral(box_vertices()[k].pos[2]) == Some(corner(k).z),
{
    lemma_named_integers();
}

/// The corners are the eight points whose coordinates are all 10 or -10:
/// each corner is such a point, and no two corners are the same point.
pub proof fn law_corners_are_all_of_the_box(j: int, k: int)
    requires
        0 <= j < 8,
        0 <= k < 8,
    ensures
        corner(k).x == 10 || corner(k).x == -10,
        corner(k).y == 10 || corner(k).y == -10,
        corner(k).z == 10 || corner(k).z == -10,
        j != k ==> corner(j) != corner(k),
{
}

/// The centre of the box is the origin: the coordinates of the corners add
/// up to zero along every axis.
pub proof fn law_centre_is_origin()
    ensures
        corner(0).x + corner(1).x + corner(2).x + corner(3).x + corner(4).x + corner(5).x
            + corner(6).x + corner(7).x == 0,
        corner(0).y + corner(1).y + corner(2).y + corner(3).y + corner(4).y + corner(5).y
            + corner(6).y + corner(7).y == 0,
        corner(0).z + corner(1).z + corner(2).z + corner(3).z + corner(4).z + corner(5).z
            + corner(6).z + corner(7).z == 0,
{
}

/// The twelve triangles, corner by corner, face the origin.
proof fn lemma_walls_face_origin()
    ensures
        faces(corner(0), corner(2), corner(1), Point { x: 0, y: 0, z: 0 }),
        faces(corner(2), corner(6), corner(3), Point { x: 0, y: 0, z: 0 }),
        faces(corner(6), corner(4), corner(7), Point { x: 0, y: 0, z: 0 }),
        faces(corner(4), corner(0), corner(5), Point { x: 0, y: 0, z: 0 }),
        faces(corner(2), corner(0), corner(6), Point { x: 0, y: 0, z: 0 }),
        faces(corner(7), corner(5), corner(3), Point { x: 0, y: 0, z: 0 }),
        faces(corner(2), corner(3), corner(1), Point { x: 0, y: 0, z: 0 }),
        faces(corner(6), corner(7), corner(3), Point { x: 0, y: 0, z: 0 }),
        faces(corner(4), corner(5), corner(7), Point { x: 0, y: 0, z: 0 }),
        faces(corner(0), corner(1), corner(5), Point { x: 0, y: 0, z: 0 }),
        faces(corner(0), corner(4), corner(6), Point { x: 0, y: 0, z: 0 }),
        faces(corner(5), corner(1), corner(3), Point { x: 0, y: 0, z: 0 }),
{
    // The products that the twelve determinants are made of.
    assert(0int * 0int == 0);
    assert(0int * 20int == 0);
    assert(0int * (-20int) == 0);
    assert(20int * 0int == 0);
    assert(20int * 20int == 400);
    assert(20int * (-20int) == -400);
    assert((-20int) * 0int == 0);
    assert((-20int) * 20int == -400);
    assert((-20int) * (-20int) == 400);
    assert(0int * 10int == 0);
    assert(0int * (-10int) == 0);
    assert(400int * 10int == 4000);
    assert(400int * (-10int) == -4000);
    assert((-400int) * 10int == -4000);
    assert((-400int) * (-10int) == 4000);
}

/// Every index names a corner, and every one of the twelve triangles faces
/// the centre of the box.
pub proof fn law_triangles_face_inward(t: int)
    requires
        0 <= t < 12,
    ensures
        forall|i: int| 0 <= i < 36 ==> box_indices()[i] < 8,
        faces(
            triangle_corner(t, 0),
            triangle_corner(t, 1),
            triangle_corner(t, 2),
            Point { x: 0, y: 0, z: 0 },
        ),
{
    lemma_walls_face_origin();
}

} // verus!
