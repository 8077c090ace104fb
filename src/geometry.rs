use crate::scene::Scene;
use vstd::prelude::*;

verus! {

/// Vertices of the cube: four for each of its six faces.
pub const CUBE_VERTEX_COUNT: usize = 24;

/// Numbers per cube vertex: position, colour and normal, three each.
pub const CUBE_VERTEX_WIDTH: usize = 9;

/// Indices in the cube's triangle strip: four per face and two between faces.
pub const CUBE_STRIP_LEN: usize = 34;

/// Vertices of the quad.
pub const QUAD_VERTEX_COUNT: usize = 4;

// The cube's faces, in buffer order: front (+z), back (-z), right (+x),
// left (-x), top (+y), bottom (-y). Each face is spanned by two unit axes
// `u` and `w` with u x w equal to its outward normal; corner j of the face
// lies at normal + s*u + t*w, with s = -1, 1, -1, 1 and t = -1, -1, 1, 1.

/// The axis (0 = x, 1 = y, 2 = z) of face `f`'s outward normal.
pub open spec fn normal_axis(f: int) -> int {
    if f < 2 { 2 } else if f < 4 { 0 } else { 1 }
}

/// The sign of face `f`'s outward normal.
pub open spec fn normal_sign(f: int) -> int {
    if f % 2 == 0 { 1 } else { -1 }
}

/// The axis of face `f`'s first in-plane direction.
pub open spec fn u_axis(f: int) -> int {
    if f == 2 || f == 3 { 2 } else { 0 }
}

/// The sign of face `f`'s first in-plane direction.
pub open spec fn u_sign(f: int) -> int {
    if f == 1 || f == 2 { -1 } else { 1 }
}

/// The axis of face `f`'s second in-plane direction.
pub open spec fn w_axis(f: int) -> int {
    if f < 4 { 1 } else { 2 }
}

/// The sign of face `f`'s second in-plane direction.
pub open spec fn w_sign(f: int) -> int {
    if f == 4 { -1 } else { 1 }
}

pub open spec fn unit(axis: int, sign: int, c: int) -> int {
    if c == axis { sign } else { 0 }
}

/// Component `c` of the outward normal of face `f`.
pub open spec fn face_normal(f: int, c: int) -> int {
    unit(normal_axis(f), normal_sign(f), c)
}

/// Component `c` of the position of cube vertex `v`.
pub open spec fn cube_position(v: int, c: int) -> int {
    let f = v / 4;
    let j = v % 4;
    let u = unit(u_axis(f), u_sign(f), c);
    let w = unit(w_axis(f), w_sign(f), c);
    face_normal(f, c) + (if j % 2 == 0 { -u } else { u }) + (if j < 2 { -w } else { w })
}

/// Number `a` (0 to 8) of cube vertex `v`: its position, then its colour,
/// which maps each coordinate from [-1, 1] to [0, 1], then its face's normal.
pub open spec fn cube_attribute(v: int, a: int) -> int {
    if a < 3 {
        cube_position(v, a)
    } else if a < 6 {
        (cube_position(v, a - 3) + 1) / 2
    } else {
        face_normal(v / 4, a - 6)
    }
}

/// Entry `k` of the cube's strip: the four corners of each face in order,
/// with the last corner of a face and the first of the next repeated between
/// faces, which makes the triangles that join two faces degenerate.
pub open spec fn strip_index(k: int) -> int {
    let r = k % 6;
    if r < 4 { 4 * (k / 6) + r } else { 4 * (k / 6) + r - 1 }
}

/// Component `c` of the edge from the first corner of face `f` to corner `j`.
pub open spec fn face_edge(f: int, j: int, c: int) -> int {
    cube_position(4 * f + j, c) - cube_position(4 * f, c)
}

/// Component `c` of the cross product of face `f`'s first two edges.
pub open spec fn face_winding(f: int, c: int) -> int {
    let a = (c + 1) % 3;
    let b = (c + 2) % 3;
    face_edge(f, 1, a) * face_edge(f, 2, b) - face_edge(f, 1, b) * face_edge(f, 2, a)
}

/// Each face of the cube is the side of [-1, 1]^3 that its normal points to,
/// with its corners in strip order wound counter-clockwise seen from outside:
/// every coordinate is -1 or 1, the coordinate along the normal has the
/// normal's sign, the cross product of the first two edges is four times the
/// outward normal, and the last corner closes the parallelogram.
pub proof fn lemma_cube_faces(f: int)
    requires
        0 <= f < 6,
    ensures
        forall|j: int, c: int|
            0 <= j < 4 && 0 <= c < 3 ==> (#[trigger] cube_position(4 * f + j, c) == 1
                || cube_position(4 * f + j, c) == -1),
        forall|j: int|
            0 <= j < 4 ==> #[trigger] cube_position(4 * f + j, normal_axis(f)) == normal_sign(f),
        forall|c: int| 0 <= c < 3 ==> #[trigger] face_winding(f, c) == 4 * face_normal(f, c),
        forall|c: int|
            0 <= c < 3 ==> #[trigger] cube_position(4 * f + 3, c) == cube_position(4 * f + 1, c)
                + cube_position(4 * f + 2, c) - cube_position(4 * f, c),
{
    assert forall|j: int, c: int| 0 <= j < 4 && 0 <= c < 3 implies (#[trigger] cube_position(
        4 * f + j,
        c,
    ) == 1 || cube_position(4 * f + j, c) == -1) by {
        assert((4 * f + j) / 4 == f && (4 * f + j) % 4 == j);
    }
    assert forall|j: int| 0 <= j < 4 implies #[trigger] cube_position(4 * f + j, normal_axis(f))
        == normal_sign(f) by {
        assert((4 * f + j) / 4 == f && (4 * f + j) % 4 == j);
    }
    assert((4 * f) / 4 == f && (4 * f) % 4 == 0);
    assert((4 * f + 1) / 4 == f && (4 * f + 1) % 4 == 1);
    assert((4 * f + 2) / 4 == f && (4 * f + 2) % 4 == 2);
    assert((4 * f + 3) / 4 == f && (4 * f + 3) % 4 == 3);
    assert forall|c: int| 0 <= c < 3 implies #[trigger] face_winding(f, c) == 4 * face_normal(f, c) by {
        let a = (c + 1) % 3;
        let b = (c + 2) % 3;
        assert(face_edge(f, 1, a) == 2 * unit(u_axis(f), u_sign(f), a));
        assert(face_edge(f, 1, b) == 2 * unit(u_axis(f), u_sign(f), b));
        assert(face_edge(f, 2, a) == 2 * unit(w_axis(f), w_sign(f), a));
        assert(face_edge(f, 2, b) == 2 * unit(w_axis(f), w_sign(f), b));
        if c == 0 {
            assert(a == 1 && b == 2);
            if f == 0 {
                assert(face_edge(f, 1, 1) == 0);
                assert(face_edge(f, 1, 2) == 0);
                assert(face_edge(f, 2, 1) == 2);
                assert(face_edge(f, 2, 2) == 0);
            } else if f == 1 {
                assert(face_edge(f, 1, 1) == 0);
                assert(face_edge(f, 1, 2) == 0);
                assert(face_edge(f, 2, 1) == 2);
                assert(face_edge(f, 2, 2) == 0);
            } else if f == 2 {
                assert(face_edge(f, 1, 1) == 0);
                assert(face_edge(f, 1, 2) == -2);
                assert(face_edge(f, 2, 1) == 2);
                assert(face_edge(f, 2, 2) == 0);
            } else if f == 3 {
                assert(face_edge(f, 1, 1) == 0);
                assert(face_edge(f, 1, 2) == 2);
                assert(face_edge(f, 2, 1) == 2);
                assert(face_edge(f, 2, 2) == 0);
            } else if f == 4 {
                assert(face_edge(f, 1, 1) == 0);
                assert(face_edge(f, 1, 2) == 0);
                assert(face_edge(f, 2, 1) == 0);
                assert(face_edge(f, 2, 2) == -2);
            } else {
                assert(face_edge(f, 1, 1) == 0);
                assert(face_edge(f, 1, 2) == 0);
                assert(face_edge(f, 2, 1) == 0);
                assert(face_edge(f, 2, 2) == 2);
            }
        } else if c == 1 {
            assert(a == 2 && b == 0);
            if f == 0 {
                assert(face_edge(f, 1, 2) == 0);
                assert(face_edge(f, 1, 0) == 2);
                assert(face_edge(f, 2, 2) == 0);
                assert(face_edge(f, 2, 0) == 0);
            } else if f == 1 {
                assert(face_edge(f, 1, 2) == 0);
                assert(face_edge(f, 1, 0) == -2);
                assert(face_edge(f, 2, 2) == 0);
                assert(face_edge(f, 2, 0) == 0);
            } else if f == 2 {
                assert(face_edge(f, 1, 2) == -2);
                assert(face_edge(f, 1, 0) == 0);
                assert(face_edge(f, 2, 2) == 0);
                assert(face_edge(f, 2, 0) == 0);
            } else if f == 3 {
                assert(face_edge(f, 1, 2) == 2);
                assert(face_edge(f, 1, 0) == 0);
                assert(face_edge(f, 2, 2) == 0);
                assert(face_edge(f, 2, 0) == 0);
            } else if f == 4 {
                assert(face_edge(f, 1, 2) == 0);
                assert(face_edge(f, 1, 0) == 2);
                assert(face_edge(f, 2, 2) == -2);
                assert(face_edge(f, 2, 0) == 0);
            } else {
                assert(face_edge(f, 1, 2) == 0);
                assert(face_edge(f, 1, 0) == 2);
                assert(face_edge(f, 2, 2) == 2);
                assert(face_edge(f, 2, 0) == 0);
            }
        } else {
            assert(a == 0 && b == 1);
            if f == 0 {
                assert(face_edge(f, 1, 0) == 2);
                assert(face_edge(f, 1, 1) == 0);
                assert(face_edge(f, 2, 0) == 0);
                assert(face_edge(f, 2, 1) == 2);
            } else if f == 1 {
                assert(face_edge(f, 1, 0) == -2);
                assert(face_edge(f, 1, 1) == 0);
                assert(face_edge(f, 2, 0) == 0);
                assert(face_edge(f, 2, 1) == 2);
            } else if f == 2 {
                assert(face_edge(f, 1, 0) == 0);
                assert(face_edge(f, 1, 1) == 0);
                assert(face_edge(f, 2, 0) == 0);
                assert(face_edge(f, 2, 1) == 2);
            } else if f == 3 {
                assert(face_edge(f, 1, 0) == 0);
                assert(face_edge(f, 1, 1) == 0);
                assert(face_edge(f, 2, 0) == 0);
                assert(face_edge(f, 2, 1) == 2);
            } else if f == 4 {
                assert(face_edge(f, 1, 0) == 2);
                assert(face_edge(f, 1, 1) == 0);
                assert(face_edge(f, 2, 0) == 0);
                assert(face_edge(f, 2, 1) == 0);
            } else {
                assert(face_edge(f, 1, 0) == 2);
                assert(face_edge(f, 1, 1) == 0);
                assert(face_edge(f, 2, 0) == 0);
                assert(face_edge(f, 2, 1) == 0);
            }
        }
    }
}

fn unit_exec(axis: u8, sign: i8, c: u8) -> (r: i8)
    requires
        sign == 1 || sign == -1,
    ensures
        r == unit(axis as int, sign as int, c as int),
{
    if c == axis { sign } else { 0 }
}

/// The axes of face `f`: normal, then the two in-plane directions, each as
/// (axis, sign).
fn face_axes(f: u8) -> (r: (u8, i8, u8, i8, u8, i8))
    requires
        f < 6,
    ensures
        r.0 as int == normal_axis(f as int),
        r.1 as int == normal_sign(f as int),
        r.2 as int == u_axis(f as int),
        r.3 as int == u_sign(f as int),
        r.4 as int == w_axis(f as int),
        r.5 as int == w_sign(f as int),
{
    let n_axis: u8 = if f < 2 { 2 } else if f < 4 { 0 } else { 1 };
    let n_sign: i8 = if f % 2 == 0 { 1 } else { -1 };
    let u_ax: u8 = if f == 2 || f == 3 { 2 } else { 0 };
    let u_sg: i8 = if f == 1 || f == 2 { -1 } else { 1 };
    let w_ax: u8 = if f < 4 { 1 } else { 2 };
    let w_sg: i8 = if f == 4 { -1 } else { 1 };
    (n_axis, n_sign, u_ax, u_sg, w_ax, w_sg)
}

fn cube_attribute_exec(v: u8, a: u8) -> (r: i8)
    requires
        v < 24,
        a < 9,
    ensures
        r as int == cube_attribute(v as int, a as int),
{
    let f = v / 4;
    let j = v % 4;
    let (n_axis, n_sign, u_ax, u_sg, w_ax, w_sg) = face_axes(f);
    if a < 6 {
        let c = if a < 3 { a } else { a - 3 };
        let u = unit_exec(u_ax, u_sg, c);
        let w = unit_exec(w_ax, w_sg, c);
        let p = unit_exec(n_axis, n_sign, c) + (if j % 2 == 0 { -u } else { u }) + (if j < 2 {
            -w
        } else {
            w
        });
        if a < 3 { p } else { (p + 1) / 2 }
    } else {
        unit_exec(n_axis, n_sign, a - 6)
    }
}

/// The cube's interleaved vertex data: for each vertex, position, colour and
/// normal.
pub fn cube_vertices() -> (r: Vec<i8>)
    ensures
        r@.len() == CUBE_VERTEX_COUNT * CUBE_VERTEX_WIDTH,
        forall|k: int|
            0 <= k < r@.len() ==> #[trigger] r@[k] as int == cube_attribute(k / 9, k % 9),
{
    let mut out: Vec<i8> = Vec::new();
    let mut v: u8 = 0;
    while v < 24
        invariant
            v <= 24,
            out@.len() == 9 * v,
            forall|k: int| 0 <= k < out@.len() ==> #[trigger] out@[k] as int == cube_attribute(k / 9, k % 9),
        decreases 24 - v,
    {
        let mut a: u8 = 0;
        while a < 9
            invariant
                v < 24,
                a <= 9,
                out@.len() == 9 * v + a,
                forall|k: int| 0 <= k < out@.len() ==> #[trigger] out@[k] as int == cube_attribute(k / 9, k % 9),
            decreases 9 - a,
        {
            let x = cube_attribute_exec(v, a);
            proof {
                let k = 9 * v + a;
                assert(k / 9 == v as int && k % 9 == a as int) by (nonlinear_arith)
                    requires k == 9 * v + a, 0 <= a < 9, 0 <= v;
            }
            out.push(x);
            a = a + 1;
        }
        v = v + 1;
    }
    out
}

/// The cube's index list: one triangle strip over all six faces.
pub fn cube_strip() -> (r: Vec<u16>)
    ensures
        r@.len() == CUBE_STRIP_LEN,
        forall|k: int| 0 <= k < r@.len() ==> #[trigger] r@[k] as int == strip_index(k),
        forall|k: int| 0 <= k < r@.len() ==> #[trigger] r@[k] < CUBE_VERTEX_COUNT,
{
    let mut out: Vec<u16> = Vec::new();
    let mut k: u16 = 0;
    while k < 34
        invariant
            k <= 34,
            out@.len() == k,
            forall|i: int| 0 <= i < out@.len() ==> #[trigger] out@[i] as int == strip_index(i),
            forall|i: int| 0 <= i < out@.len() ==> #[trigger] out@[i] < 24,
        decreases 34 - k,
    {
        let r = k % 6;
        let x = if r < 4 { 4 * (k / 6) + r } else { 4 * (k / 6) + r - 1 };
        out.push(x);
        k = k + 1;
    }
    out
}

/// The quad's corners, two numbers each: (-1,-1), (1,-1), (-1,1), (1,1).
pub fn quad_vertices() -> (r: Vec<i8>)
    ensures
        r@ == seq![-1i8, -1i8, 1i8, -1i8, -1i8, 1i8, 1i8, 1i8],
{
    vec![-1, -1, 1, -1, -1, 1, 1, 1]
}

/// The quad's index list: its four corners as one triangle strip.
pub fn quad_strip() -> (r: Vec<u16>)
    ensures
        r@ == seq![0u16, 1, 2, 3],
{
    vec![0, 1, 2, 3]
}

/// The scene's per-vertex data: for the cube, `cube_attribute` entry by
/// entry; for the quad, its four corners.
pub open spec fn vertex_seq(scene: Scene) -> Seq<i8> {
    match scene {
        Scene::Cube => Seq::new(
            (CUBE_VERTEX_COUNT * CUBE_VERTEX_WIDTH) as nat,
            |k: int| cube_attribute(k / 9, k % 9) as i8,
        ),
        Scene::Quad => seq![-1i8, -1i8, 1i8, -1i8, -1i8, 1i8, 1i8, 1i8],
    }
}

/// The scene's index list: for the cube, `strip_index` entry by entry; for
/// the quad, its four corners in order.
pub open spec fn index_seq(scene: Scene) -> Seq<u16> {
    match scene {
        Scene::Cube => Seq::new(CUBE_STRIP_LEN as nat, |k: int| strip_index(k) as u16),
        Scene::Quad => seq![0u16, 1, 2, 3],
    }
}

/// The scene's per-vertex data, uploaded to its vertex buffer.
pub fn vertex_data(scene: Scene) -> (r: Vec<i8>)
    ensures
        r@ == vertex_seq(scene),
{
    match scene {
        Scene::Cube => {
            let v = cube_vertices();
            assert forall|k: int| 0 <= k < v@.len() implies #[trigger] v@[k] == vertex_seq(
                scene,
            )[k] by {
                assert(v@[k] as int == cube_attribute(k / 9, k % 9));
            }
            assert(v@ =~= vertex_seq(scene));
            v
        },
        Scene::Quad => quad_vertices(),
    }
}

/// The scene's index list, uploaded to its index buffer.
pub fn index_data(scene: Scene) -> (r: Vec<u16>)
    ensures
        r@ == index_seq(scene),
{
    match scene {
        Scene::Cube => {
            let v = cube_strip();
            assert forall|k: int| 0 <= k < v@.len() implies #[trigger] v@[k] == index_seq(scene)[k] by {
                assert(v@[k] as int == strip_index(k));
            }
            assert(v@ =~= index_seq(scene));
            v
        },
        Scene::Quad => quad_strip(),
    }
}

} // verus!
