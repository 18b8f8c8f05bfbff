//! Staggered-row grid mesh builder. For an `x_dim` by `y_dim` grid of
//! quads it emits four vertices and six triangle-list indices per tile,
//! row-major, with every odd row shifted right by half a tile width and
//! each row stepped down by a fixed vertical step. Tiles do not share
//! vertices: each owns its own four corners.

use vstd::arithmetic::div_mod::lemma_fundamental_div_mod_converse;
use vstd::prelude::*;

use crate::rat::{q_add, q_eq, q_frac, spec_from_halves, Rat};

verus! {

/// A point in world space.
#[derive(Clone, Copy, Debug, PartialEq, Eq, Structural)]
pub struct Position {
    pub x: Rat,
    pub y: Rat,
    pub z: Rat,
}

/// A texture coordinate pair, each component in `[0, 1]`.
#[derive(Clone, Copy, Debug, PartialEq, Eq, Structural)]
pub struct TexCoord {
    pub u: Rat,
    pub v: Rat,
}

/// One grid-cell corner: a world position and its texture coordinates.
#[derive(Clone, Copy, Debug, PartialEq, Eq, Structural)]
pub struct Vertex {
    pub position: Position,
    pub tex_coords: TexCoord,
}

/// The two buffers a grid produces: vertices, and `u32` triangle-list
/// indices into them.
pub struct GridMesh {
    pub vertices: Vec<Vertex>,
    pub indices: Vec<u32>,
}

/// The x of a tile's left edge in half units: column `x` starts at
/// `x * tile_w`, and odd rows are shifted right by half a tile width.
pub open spec fn tile_left_halves(x: int, y: int, tile_w: int) -> int {
    2 * x * tile_w + if y % 2 == 1 {
        tile_w
    } else {
        0int
    }
}

/// Horizontal offset of corner `c` from the tile's left edge, in half
/// units: corners 1 and 3 (the right-hand ones) sit one tile width over.
pub open spec fn corner_dx_halves(c: int, tile_w: int) -> int {
    if c == 1 || c == 3 {
        2 * tile_w
    } else {
        0int
    }
}

/// Vertical offset of corner `c` from the tile's top edge, in half units:
/// corners 2 and 3 (the bottom ones) sit one tile height down.
pub open spec fn corner_dy_halves(c: int, tile_h: int) -> int {
    if c == 2 || c == 3 {
        2 * tile_h
    } else {
        0int
    }
}

/// Depth of corner `c`: top corners lie at z = 1, bottom corners at z = 0,
/// tilting each tile front to back.
pub open spec fn corner_z(c: int) -> Rat {
    if c == 2 || c == 3 {
        Rat { num: 0, den: 1 }
    } else {
        Rat { num: 1, den: 1 }
    }
}

/// Texture coordinates of corner `c`: `(0,1), (1,1), (0,0), (1,0)` for
/// top-left, top-right, bottom-left, bottom-right.
pub open spec fn corner_tex(c: int) -> TexCoord {
    TexCoord {
        u: if c == 1 || c == 3 {
            Rat { num: 1, den: 1 }
        } else {
            Rat { num: 0, den: 1 }
        },
        v: if c == 0 || c == 1 {
            Rat { num: 1, den: 1 }
        } else {
            Rat { num: 0, den: 1 }
        },
    }
}

/// Corner `c` of the tile in column `x`, row `y`.
pub open spec fn grid_vertex(x: int, y: int, c: int, tile_w: int, tile_h: int, row_step: int) -> Vertex {
    Vertex {
        position: Position {
            x: spec_from_halves(tile_left_halves(x, y, tile_w) + corner_dx_halves(c, tile_w)),
            y: spec_from_halves(2 * y * row_step + corner_dy_halves(c, tile_h)),
            z: corner_z(c),
        },
        tex_coords: corner_tex(c),
    }
}

/// The vertex stored at position `i` of the vertex buffer: tile `i / 4`
/// (row-major), corner `i % 4`.
pub open spec fn vertex_at(i: int, x_dim: int, tile_w: int, tile_h: int, row_step: int) -> Vertex {
    let t = i / 4;
    grid_vertex(t % x_dim, t / x_dim, i % 4, tile_w, tile_h, row_step)
}

/// The corner picked by position `k` of a tile's six index entries: the
/// pattern `[0, 1, 2, 2, 1, 3]`, two front-facing triangles per quad.
pub open spec fn corner_of_slot(k: int) -> int {
    if k == 0 {
        0int
    } else if k == 1 {
        1int
    } else if k == 2 {
        2int
    } else if k == 3 {
        2int
    } else if k == 4 {
        1int
    } else {
        3int
    }
}

/// The value stored at position `j` of the index buffer: tile `j / 6`'s
/// base vertex `4 * (j / 6)` plus the corner picked by slot `j % 6`.
pub open spec fn index_value(j: int, x_dim: int) -> int {
    4 * (j / 6) + corner_of_slot(j % 6)
}

/// The full statement of what `build_grid` returns: buffer lengths
/// `4 * x_dim * y_dim` and `6 * x_dim * y_dim`, every vertex equal to its
/// tile corner, every index entry following the per-tile pattern.
pub open spec fn grid_ok(mesh: GridMesh, x_dim: int, y_dim: int, tile_w: int, tile_h: int, row_step: int) -> bool {
    &&& mesh.vertices@.len() == 4 * x_dim * y_dim
    &&& mesh.indices@.len() == 6 * x_dim * y_dim
    &&& forall|i: int|
        0 <= i < mesh.vertices@.len() ==> #[trigger] mesh.vertices@[i] == vertex_at(
            i,
            x_dim,
            tile_w,
            tile_h,
            row_step,
        )
    &&& forall|j: int|
        0 <= j < mesh.indices@.len() ==> #[trigger] mesh.indices@[j] == index_value(j, x_dim) as u32
}

/// Builds the vertex and index buffers for an `x_dim` by `y_dim` grid of
/// staggered tiles of the given width, height and per-row vertical step.
/// The size bounds keep every index inside `u32` and every half-unit
/// coordinate inside `i64`.
#[verifier::loop_isolation(false)]
pub fn build_grid(x_dim: u32, y_dim: u32, tile_w: i64, tile_h: i64, row_step: i64) -> (mesh: GridMesh)
    requires
        1 <= x_dim,
        1 <= y_dim,
        1 <= tile_w,
        1 <= tile_h,
        1 <= row_step,
        4 * (x_dim as int) * (y_dim as int) <= u32::MAX,
        2 * (x_dim as int) * (tile_w as int) + (tile_w as int) <= i64::MAX,
        2 * (y_dim as int) * (row_step as int) + 2 * (tile_h as int) <= i64::MAX,
    ensures
        grid_ok(mesh, x_dim as int, y_dim as int, tile_w as int, tile_h as int, row_step as int),
{
    let ghost xd = x_dim as int;
    let ghost yd = y_dim as int;
    let ghost w = tile_w as int;
    let ghost h = tile_h as int;
    let ghost s = row_step as int;
    let mut vertices: Vec<Vertex> = Vec::new();
    let mut indices: Vec<u32> = Vec::new();
    let mut y: u32 = 0;
    while y < y_dim
        invariant
            y <= y_dim,
            vertices@.len() == 4 * ((y as int) * xd),
            indices@.len() == 6 * ((y as int) * xd),
            forall|i: int|
                0 <= i < vertices@.len() ==> #[trigger] vertices@[i] == vertex_at(i, xd, w, h, s),
            forall|j: int|
                0 <= j < indices@.len() ==> #[trigger] indices@[j] == index_value(j, xd) as u32,
        decreases y_dim - y,
    {
        let mut x: u32 = 0;
        while x < x_dim
            invariant
                x <= x_dim,
                y < y_dim,
                vertices@.len() == 4 * ((y as int) * xd + (x as int)),
                indices@.len() == 6 * ((y as int) * xd + (x as int)),
                forall|i: int|
                    0 <= i < vertices@.len() ==> #[trigger] vertices@[i] == vertex_at(i, xd, w, h, s),
                forall|j: int|
                    0 <= j < indices@.len() ==> #[trigger] indices@[j] == index_value(j, xd) as u32,
            decreases x_dim - x,
        {
            let ghost t = (y as int) * xd + (x as int);
            proof {
                assert((y as int) * xd + (x as int) < xd * yd && 0 <= (y as int) * xd)
                    by (nonlinear_arith)
                    requires
                        0 <= y < yd,
                        0 <= x < xd,
                        1 <= xd,
                ;
                assert(4 * (xd * yd) == 4 * xd * yd && 6 * (xd * yd) == 6 * xd * yd)
                    by (nonlinear_arith);
                assert(0 <= 2 * (x as int) * w && 2 * (x as int) * w + 3 * w <= 2 * xd * w + w)
                    by (nonlinear_arith)
                    requires
                        0 <= x < xd,
                        1 <= w,
                ;
                assert(0 <= 2 * (y as int) * s && 2 * (y as int) * s + 2 * h <= 2 * yd * s + 2 * h
                    - 2 * s) by (nonlinear_arith)
                    requires
                        0 <= y < yd,
                        1 <= s,
                        1 <= h,
                ;
            }
            let tile: u32 = y * x_dim + x;
            let base: u32 = 4 * tile;
            let xi: i64 = x as i64;
            let yi: i64 = y as i64;
            let xl_h: i64 = 2 * xi * tile_w + if y % 2 == 1 {
                tile_w
            } else {
                0
            };
            let xr_h: i64 = xl_h + 2 * tile_w;
            let yt_h: i64 = 2 * yi * row_step;
            let yb_h: i64 = yt_h + 2 * tile_h;
            let zero = Rat::from_int(0);
            let one = Rat::from_int(1);
            vertices.push(
                Vertex {
                    position: Position { x: Rat::from_halves(xl_h), y: Rat::from_halves(yt_h), z: one },
                    tex_coords: TexCoord { u: zero, v: one },
                },
            );
            vertices.push(
                Vertex {
                    position: Position { x: Rat::from_halves(xr_h), y: Rat::from_halves(yt_h), z: one },
                    tex_coords: TexCoord { u: one, v: one },
                },
            );
            vertices.push(
                Vertex {
                    position: Position { x: Rat::from_halves(xl_h), y: Rat::from_halves(yb_h), z: zero },
                    tex_coords: TexCoord { u: zero, v: zero },
                },
            );
            vertices.push(
                Vertex {
                    position: Position { x: Rat::from_halves(xr_h), y: Rat::from_halves(yb_h), z: zero },
                    tex_coords: TexCoord { u: one, v: zero },
                },
            );
            indices.push(base);
            indices.push(base + 1);
            indices.push(base + 2);
            indices.push(base + 2);
            indices.push(base + 1);
            indices.push(base + 3);
            proof {
                assert forall|i: int| 4 * t <= i < 4 * t + 4 implies #[trigger] vertices@[i]
                    == vertex_at(i, xd, w, h, s) by {
                    let c = i - 4 * t;
                    lemma_fundamental_div_mod_converse(i, 4, t, c);
                    lemma_fundamental_div_mod_converse(t, xd, y as int, x as int);
                }
                assert forall|j: int| 6 * t <= j < 6 * t + 6 implies #[trigger] indices@[j]
                    == index_value(j, xd) as u32 by {
                    let k = j - 6 * t;
                    lemma_fundamental_div_mod_converse(j, 6, t, k);
                }
            }
            x = x + 1;
        }
        proof {
            assert(((y as int) + 1) * xd == (y as int) * xd + xd) by (nonlinear_arith);
        }
        y = y + 1;
    }
    proof {
        assert(4 * xd * yd == 4 * (yd * xd) && 6 * xd * yd == 6 * (yd * xd)) by (nonlinear_arith);
    }
    GridMesh { vertices, indices }
}

/// The six index entries of the tile in column `x`, row `y` reference
/// exactly that tile's four vertices, in the pattern `[0, 1, 2, 2, 1, 3]`
/// relative to the tile's base index `4 * (y * x_dim + x)`; every entry
/// stays below the vertex count `4 * x_dim * y_dim`.
pub proof fn lemma_tile_index_pattern(x_dim: int, y_dim: int, x: int, y: int)
    requires
        1 <= x_dim,
        1 <= y_dim,
        0 <= x < x_dim,
        0 <= y < y_dim,
    ensures
        ({
            let t = y * x_dim + x;
            &&& index_value(6 * t + 0, x_dim) == 4 * t + 0
            &&& index_value(6 * t + 1, x_dim) == 4 * t + 1
            &&& index_value(6 * t + 2, x_dim) == 4 * t + 2
            &&& index_value(6 * t + 3, x_dim) == 4 * t + 2
            &&& index_value(6 * t + 4, x_dim) == 4 * t + 1
            &&& index_value(6 * t + 5, x_dim) == 4 * t + 3
            &&& forall|k: int|
                0 <= k < 6 ==> 4 * t <= #[trigger] index_value(6 * t + k, x_dim) < 4 * t + 4
            &&& forall|k: int|
                0 <= k < 6 ==> 0 <= #[trigger] index_value(6 * t + k, x_dim) < 4 * x_dim * y_dim
        }),
{
    let t = y * x_dim + x;
    assert(0 <= t && t < x_dim * y_dim && 4 * (x_dim * y_dim) == 4 * x_dim * y_dim)
        by (nonlinear_arith)
        requires
            0 <= y < y_dim,
            0 <= x < x_dim,
            1 <= x_dim,
            t == y * x_dim + x,
    ;
    assert forall|k: int| 0 <= k < 6 implies 4 * t <= #[trigger] index_value(6 * t + k, x_dim)
        < 4 * t + 4 && 0 <= index_value(6 * t + k, x_dim) < 4 * x_dim * y_dim by {
        lemma_fundamental_div_mod_converse(6 * t + k, 6, t, k);
    }
    assert(index_value(6 * t + 0, x_dim) == 4 * t + 0);
    assert(index_value(6 * t + 1, x_dim) == 4 * t + 1);
    assert(index_value(6 * t + 2, x_dim) == 4 * t + 2);
    assert(index_value(6 * t + 3, x_dim) == 4 * t + 2);
    assert(index_value(6 * t + 4, x_dim) == 4 * t + 1);
    assert(index_value(6 * t + 5, x_dim) == 4 * t + 3);
}

/// In an odd row, every corner's x-coordinate is exactly half a tile width
/// to the right of the same corner of the same column in any even row.
pub proof fn lemma_odd_row_half_tile_offset(
    x: int,
    y_odd: int,
    y_even: int,
    c: int,
    tile_w: int,
    tile_h: int,
    row_step: int,
)
    requires
        0 <= x,
        0 <= y_odd,
        0 <= y_even,
        y_odd % 2 == 1,
        y_even % 2 == 0,
        0 <= c < 4,
        1 <= tile_w,
        2 * x * tile_w + 3 * tile_w <= i64::MAX,
    ensures
        q_eq(
            grid_vertex(x, y_odd, c, tile_w, tile_h, row_step).position.x.q(),
            q_add(
                grid_vertex(x, y_even, c, tile_w, tile_h, row_step).position.x.q(),
                q_frac(tile_w, 2),
            ),
        ),
{
    let ne = tile_left_halves(x, y_even, tile_w) + corner_dx_halves(c, tile_w);
    let no = tile_left_halves(x, y_odd, tile_w) + corner_dx_halves(c, tile_w);
    assert(0 <= 2 * x * tile_w) by (nonlinear_arith)
        requires
            0 <= x,
            1 <= tile_w,
    ;
    assert(no == ne + tile_w);
    crate::rat::lemma_from_halves_value(ne);
    crate::rat::lemma_from_halves_value(no);
    let a = spec_from_halves(no).q();
    let b = spec_from_halves(ne).q();
    let g = q_add(b, q_frac(tile_w, 2));
    assert(a.num * g.den == g.num * a.den) by (nonlinear_arith)
        requires
            g.den == b.den * 2,
            g.num == b.num * 2 + tile_w * b.den,
            a.num * 2 == no * a.den,
            b.num * 2 == ne * b.den,
            no == ne + tile_w,
    ;
}

/// Building a grid is deterministic: any two meshes that satisfy the grid
/// contract for the same inputs hold identical buffers.
pub proof fn lemma_build_grid_deterministic(
    a: GridMesh,
    b: GridMesh,
    x_dim: int,
    y_dim: int,
    tile_w: int,
    tile_h: int,
    row_step: int,
)
    requires
        grid_ok(a, x_dim, y_dim, tile_w, tile_h, row_step),
        grid_ok(b, x_dim, y_dim, tile_w, tile_h, row_step),
    ensures
        a.vertices@ == b.vertices@,
        a.indices@ == b.indices@,
{
    assert(a.vertices@ =~= b.vertices@);
    assert(a.indices@ =~= b.indices@);
}

} // verus!
