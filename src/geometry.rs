use vstd::prelude::*;

verus! {

/// Faces of the cube.
pub const FACE_COUNT: usize = 6;

/// Vertices of the cube: each face has four of its own, so that each face
/// can take its own color.
pub const VERTEX_COUNT: usize = 24;

/// Indices drawn: two triangles for each face.
pub const INDEX_COUNT: usize = 36;

/// The axis (0, 1 or 2) across which face `f` lies.
pub open spec fn face_axis(f: int) -> int {
    f / 2
}

/// Which side of the cube face `f` lies on: -1 or 1.
pub open spec fn face_side(f: int) -> int {
    if f % 2 == 0 {
        -1
    } else {
        1
    }
}

/// Coordinates of the four corners of a face along its two in-face axes,
/// going round the face.
pub open spec fn corner_first(c: int) -> int {
    if c == 0 || c == 3 {
        -1
    } else {
        1
    }
}

pub open spec fn corner_second(c: int) -> int {
    if c == 0 || c == 1 {
        -1
    } else {
        1
    }
}

/// Coordinate `x` (0, 1 or 2) of vertex `v`: vertex `v` is corner `v % 4`
/// of face `v / 4`.
pub open spec fn vertex_coord(v: int, x: int) -> int {
    let f = v / 4;
    let c = v % 4;
    let a = face_axis(f);
    if x == a {
        face_side(f)
    } else if x == (a + 1) % 3 {
        corner_first(c)
    } else {
        corner_second(c)
    }
}

/// The corners of a face's two triangles, as offsets into its four vertices.
pub open spec fn triangle_corner(j: int) -> int {
    if j == 0 || j == 3 {
        0
    } else if j == 1 {
        1
    } else if j == 2 || j == 4 {
        2
    } else {
        3
    }
}

/// Index number `i` of the index buffer.
pub open spec fn cube_index(i: int) -> int {
    4 * (i / 6) + triangle_corner(i % 6)
}

fn vertex_coord_exec(v: usize, x: usize) -> (r: i8)
    requires
        v < VERTEX_COUNT,
        x < 3,
    ensures
        r == vertex_coord(v as int, x as int),
{
    let f = v / 4;
    let c = v % 4;
    let a = f / 2;
    if x == a {
        if f % 2 == 0 {
            -1
        } else {
            1
        }
    } else if x == (a + 1) % 3 {
        if c == 0 || c == 3 {
            -1
        } else {
            1
        }
    } else {
        if c == 0 || c == 1 {
            -1
        } else {
            1
        }
    }
}

/// Vertex positions of the cube, three coordinates per vertex, each -1 or 1.
pub fn cube_positions() -> (r: Vec<i8>)
    ensures
        r@.len() == 3 * VERTEX_COUNT,
        forall|v: int, x: int|
            0 <= v < VERTEX_COUNT && 0 <= x < 3 ==> #[trigger] r@[3 * v + x] == vertex_coord(v, x),
{
    let mut r: Vec<i8> = Vec::new();
    let mut v: usize = 0;
    while v < VERTEX_COUNT
        invariant
            v <= VERTEX_COUNT,
            r@.len() == 3 * v,
            forall|w: int, x: int| 0 <= w < v && 0 <= x < 3 ==> #[trigger] r@[3 * w + x] == vertex_coord(w, x),
        decreases VERTEX_COUNT - v,
    {
        let ghost before = r@;
        r.push(vertex_coord_exec(v, 0));
        r.push(vertex_coord_exec(v, 1));
        r.push(vertex_coord_exec(v, 2));
        assert forall|w: int, x: int| 0 <= w < v + 1 && 0 <= x < 3 implies #[trigger] r@[3 * w + x]
            == vertex_coord(w, x) by {
            if w < v {
                assert(3 * w + x < 3 * v) by (nonlinear_arith)
                    requires
                        w < v,
                        x < 3,
                ;
                assert(r@[3 * w + x] == before[3 * w + x]);
            }
        }
        v = v + 1;
    }
    r
}

/// The index buffer: two triangles over the four vertices of each face.
pub fn cube_indices() -> (r: Vec<u16>)
    ensures
        r@.len() == INDEX_COUNT,
        forall|i: int| 0 <= i < INDEX_COUNT ==> #[trigger] r@[i] == cube_index(i),
{
    let mut r: Vec<u16> = Vec::new();
    let mut f: u16 = 0;
    while f < FACE_COUNT as u16
        invariant
            f <= FACE_COUNT,
            r@.len() == 6 * f,
            forall|i: int| 0 <= i < 6 * f ==> #[trigger] r@[i] == cube_index(i),
        decreases FACE_COUNT - f,
    {
        let base: u16 = 4 * f;
        r.push(base);
        r.push(base + 1);
        r.push(base + 2);
        r.push(base);
        r.push(base + 2);
        r.push(base + 3);
        assert forall|i: int| 6 * f <= i < 6 * f + 6 implies #[trigger] r@[i] == cube_index(i) by {
            assert((i / 6) == f as int && i % 6 == i - 6 * f) by (nonlinear_arith)
                requires
                    6 * f <= i < 6 * f + 6,
            ;
        }
        f = f + 1;
    }
    r
}

/// Every index of the cube's index buffer names one of its vertices.
pub proof fn lemma_indices_in_range(i: int)
    requires
        0 <= i < INDEX_COUNT,
    ensures
        0 <= cube_index(i) < VERTEX_COUNT,
{
    assert(0 <= i / 6 < 6 && 0 <= i % 6 < 6) by (nonlinear_arith)
        requires
            0 <= i < 36,
    ;
}

/// Each vertex lies on a corner of the cube, on the side of its own face.
pub proof fn lemma_vertices_on_faces(v: int)
    requires
        0 <= v < VERTEX_COUNT,
    ensures
        forall|x: int| 0 <= x < 3 ==> #[trigger] vertex_coord(v, x) == 1 || vertex_coord(v, x) == -1,
        vertex_coord(v, face_axis(v / 4)) == face_side(v / 4),
{
    assert(0 <= v / 4 < 6) by (nonlinear_arith)
        requires
            0 <= v < 24,
    ;
}

} // verus!
