//! The fixed triangulation of the lattice: every quad between four
//! neighbouring vertices is cut along the same diagonal into two triangles.

use crate::grid::{index_of, COLUMNS, ROWS, VERTEX_COUNT};
use vstd::prelude::*;

verus! {

/// Number of quads in one row of the lattice.
pub const QUAD_COLUMNS: usize = 18;

/// Number of quad rows in the lattice.
pub const QUAD_ROWS: usize = 10;

/// Number of quads in the lattice.
pub const QUAD_COUNT: usize = 180;

/// Number of triangles in a mesh.
pub const TRIANGLE_COUNT: usize = 360;

/// Storage position of the top-left vertex of quad number `quad`, quads being
/// counted row by row.
pub open spec fn quad_anchor(quad: int) -> int {
    (quad / 18) * 19 + quad % 18
}

/// Storage positions of the three corners of triangle number `triangle`.
///
/// Triangles `2q` and `2q + 1` are the two halves of quad `q`: the first keeps
/// the quad's top-left corner, the second its bottom-right corner, and both
/// hold the diagonal from top-right to bottom-left.
pub open spec fn corners_of(triangle: int) -> (int, int, int) {
    let anchor = quad_anchor(triangle / 2);
    if triangle % 2 == 0 {
        (anchor, anchor + 1, anchor + 19)
    } else {
        (anchor + 1, anchor + 19, anchor + 20)
    }
}

/// The triangle list of a row-major vertex list: triangle `t` holds, by value,
/// the vertices stored at `corners_of(t)`.
pub open spec fn triangulation<V>(vertices: Seq<V>) -> Seq<(V, V, V)> {
    Seq::new(
        360,
        |triangle: int|
            {
                let corners = corners_of(triangle);
                (vertices[corners.0], vertices[corners.1], vertices[corners.2])
            },
    )
}

/// Storage positions of the three corners of triangle number `triangle`.
pub fn triangle_corners(triangle: usize) -> (corners: (usize, usize, usize))
    requires
        triangle < TRIANGLE_COUNT,
    ensures
        corners.0 == corners_of(triangle as int).0,
        corners.1 == corners_of(triangle as int).1,
        corners.2 == corners_of(triangle as int).2,
        corners.0 < corners.1 < corners.2 < VERTEX_COUNT,
{
    let quad: usize = triangle / 2;
    let anchor: usize = (quad / QUAD_COLUMNS) * COLUMNS + quad % QUAD_COLUMNS;
    if triangle % 2 == 0 {
        (anchor, anchor + 1, anchor + COLUMNS)
    } else {
        (anchor + 1, anchor + COLUMNS, anchor + COLUMNS + 1)
    }
}

/// Cuts the lattice into triangles.
///
/// `vertices` is a row-major vertex list of the lattice; anything stored past
/// the lattice is ignored. The quads are visited row by row and each gives two
/// triangles, so the result has `TRIANGLE_COUNT` entries whatever the vertices
/// are.
pub fn triangulate<V: Copy>(vertices: &Vec<V>) -> (triangles: Vec<(V, V, V)>)
    requires
        vertices@.len() >= VERTEX_COUNT,
    ensures
        triangles@ == triangulation(vertices@),
        triangles@.len() == TRIANGLE_COUNT,
{
    let mut triangles: Vec<(V, V, V)> = Vec::new();
    let mut row: usize = 0;
    while row < QUAD_ROWS
        invariant
            row <= QUAD_ROWS,
            vertices@.len() >= VERTEX_COUNT,
            triangles@.len() == row * 36,
            forall|t: int|
                0 <= t < triangles@.len() ==> triangles@[t] == triangulation(vertices@)[t],
        decreases QUAD_ROWS - row,
    {
        let mut col: usize = 0;
        while col < QUAD_COLUMNS
            invariant
                row < QUAD_ROWS,
                col <= QUAD_COLUMNS,
                vertices@.len() >= VERTEX_COUNT,
                triangles@.len() == row * 36 + col * 2,
                forall|t: int|
                    0 <= t < triangles@.len() ==> triangles@[t] == triangulation(vertices@)[t],
            decreases QUAD_COLUMNS - col,
        {
            let anchor: usize = row * COLUMNS + col;
            proof {
                let t = row * 36 + col * 2;
                assert(quad_anchor(t / 2) == anchor);
                assert(quad_anchor((t + 1) / 2) == anchor);
            }
            triangles.push((vertices[anchor], vertices[anchor + 1], vertices[anchor + COLUMNS]));
            triangles.push(
                (vertices[anchor + 1], vertices[anchor + COLUMNS], vertices[anchor + COLUMNS + 1]),
            );
            col += 1;
        }
        row += 1;
    }
    assert(triangles@ =~= triangulation(vertices@));
    triangles
}

/// A corner of `triangle` is stored at `index`.
pub open spec fn is_corner(triangle: int, index: int) -> bool {
    let corners = corners_of(triangle);
    index == corners.0 || index == corners.1 || index == corners.2
}

/// The counts fit together: a row has one quad less than it has vertices, a
/// column likewise, and every quad gives two triangles.
pub proof fn counts_agree()
    ensures
        VERTEX_COUNT == ROWS * COLUMNS,
        QUAD_COLUMNS == COLUMNS - 1,
        QUAD_ROWS == ROWS - 1,
        QUAD_COUNT == QUAD_ROWS * QUAD_COLUMNS,
        TRIANGLE_COUNT == 2 * QUAD_COUNT,
{
}

/// Every triangle names three different stored vertices, in rising order.
pub proof fn corners_are_stored_vertices(triangle: int)
    requires
        0 <= triangle < 360,
    ensures
        0 <= corners_of(triangle).0 < corners_of(triangle).1 < corners_of(triangle).2 < 209,
{
}

/// The two triangles of a quad are made of the quad's four corners and meet
/// along the diagonal from its top-right to its bottom-left corner.
pub proof fn quad_is_split_along_fixed_diagonal(quad: int)
    requires
        0 <= quad < 180,
    ensures
        corners_of(2 * quad) == (quad_anchor(quad), quad_anchor(quad) + 1, quad_anchor(quad) + 19),
        corners_of(2 * quad + 1) == (
            quad_anchor(quad) + 1,
            quad_anchor(quad) + 19,
            quad_anchor(quad) + 20,
        ),
        quad_anchor(quad) == index_of(quad / 18, quad % 18),
        quad_anchor(quad) + 20 == index_of(quad / 18 + 1, quad % 18 + 1),
{
}

/// The cut is the same everywhere: one quad further right every corner moves
/// one vertex right, and one quad row further down every corner moves one
/// vertex row down.
pub proof fn split_is_uniform(triangle: int)
    requires
        0 <= triangle < 360,
    ensures
        (triangle / 2) % 18 < 17 ==> corners_of(triangle + 2) == (
            corners_of(triangle).0 + 1,
            corners_of(triangle).1 + 1,
            corners_of(triangle).2 + 1,
        ),
        triangle + 36 < 360 ==> corners_of(triangle + 36) == (
            corners_of(triangle).0 + 19,
            corners_of(triangle).1 + 19,
            corners_of(triangle).2 + 19,
        ),
{
}

/// No vertex of the lattice is left out: each is a corner of some triangle.
pub proof fn every_vertex_is_a_corner(index: int)
    requires
        0 <= index < 209,
    ensures
        exists|triangle: int| 0 <= triangle < 360 && is_corner(triangle, index),
{
    let row = index / 19;
    let col = index % 19;
    let quad_row = if row < 10 { row } else { 9 };
    let quad_col = if col < 18 { col } else { 17 };
    let quad = quad_row * 18 + quad_col;
    assert(quad_anchor(quad) == quad_row * 19 + quad_col);
    if row == quad_row {
        assert(is_corner(2 * quad, index));
    } else if col == quad_col {
        assert(is_corner(2 * quad, index));
    } else {
        assert(is_corner(2 * quad + 1, index));
    }
}

/// A mesh is made of the vertices it was cut from and of nothing else: every
/// corner of every triangle is one of the first `VERTEX_COUNT` entries of the
/// vertex list, taken from the place that `corners_of` names.
pub proof fn triangles_hold_given_vertices<V>(vertices: Seq<V>, triangle: int)
    requires
        vertices.len() >= 209,
        0 <= triangle < 360,
    ensures
        triangulation(vertices).len() == 360,
        triangulation(vertices)[triangle].0 == vertices[corners_of(triangle).0],
        triangulation(vertices)[triangle].1 == vertices[corners_of(triangle).1],
        triangulation(vertices)[triangle].2 == vertices[corners_of(triangle).2],
        vertices.take(209).contains(triangulation(vertices)[triangle].0),
        vertices.take(209).contains(triangulation(vertices)[triangle].1),
        vertices.take(209).contains(triangulation(vertices)[triangle].2),
{
    let corners = corners_of(triangle);
    let lattice = vertices.take(209);
    assert(lattice[corners.0] == vertices[corners.0]);
    assert(lattice[corners.1] == vertices[corners.1]);
    assert(lattice[corners.2] == vertices[corners.2]);
}

/// Two vertex lists that agree on the lattice give the same mesh, and a mesh
/// keeps nothing of any other vertex list.
pub proof fn mesh_depends_on_lattice_alone<V>(vertices: Seq<V>, others: Seq<V>)
    requires
        vertices.len() >= 209,
        others.len() >= 209,
        vertices.take(209) == others.take(209),
    ensures
        triangulation(vertices) == triangulation(others),
{
    assert forall|t: int| 0 <= t < 360 implies triangulation(vertices)[t] == triangulation(
        others,
    )[t] by {
        triangles_hold_given_vertices(vertices, t);
        triangles_hold_given_vertices(others, t);
        let corners = corners_of(t);
        assert(vertices.take(209)[corners.0] == vertices[corners.0]);
        assert(others.take(209)[corners.0] == others[corners.0]);
        assert(vertices.take(209)[corners.1] == vertices[corners.1]);
        assert(others.take(209)[corners.1] == others[corners.1]);
        assert(vertices.take(209)[corners.2] == vertices[corners.2]);
        assert(others.take(209)[corners.2] == others[corners.2]);
    }
    assert(triangulation(vertices) =~= triangulation(others));
}

/// Moving one vertex of the lattice leaves every triangle as it was that does
/// not have that vertex as a corner.
pub proof fn moving_a_vertex_is_local<V>(vertices: Seq<V>, index: int, moved: V, triangle: int)
    requires
        vertices.len() >= 209,
        0 <= index < 209,
        0 <= triangle < 360,
        !is_corner(triangle, index),
    ensures
        triangulation(vertices.update(index, moved))[triangle] == triangulation(vertices)[triangle],
{
}

} // verus!
