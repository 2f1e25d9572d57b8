//! Terrain: the topology of the height-field grid and the colour bands.
//!
//! A terrain of resolution `n` is a square grid of `n` by `n` quads over
//! `(n + 1)` by `(n + 1)` shared vertices, numbered row by row. Every quad is
//! cut into two triangles. Heights, normals and positions are real-valued and
//! are computed outside of this library; what depends on a height here is
//! only the band it falls into.

use crate::colors::brown;
use crate::colors::light_blue;
use crate::colors::light_green;
use crate::colors::white;
use crate::colors::Color;
use crate::scalar::Scalar;
use genmesh::generators::IndexedPolygon;
use genmesh::generators::Plane;
use genmesh::generators::SharedVertex;
use genmesh::Triangulate;
use genmesh::Vertices;
use vstd::prelude::*;

verus! {

/// Number of shared vertices of a grid.
pub open spec fn grid_vertex_count(resolution: nat) -> nat {
    (resolution + 1) * (resolution + 1)
}

/// Number of indices of a grid: two triangles of three corners for each quad.
pub open spec fn grid_index_count(resolution: nat) -> nat {
    resolution * resolution * 6
}

/// How far the `corner`-th index of a quad lies from the quad's first vertex.
/// The quad's vertices, counter-clockwise from the first, are at offsets
/// `0`, `1`, `n + 2`, `n + 1`; the two triangles are first-second-third and
/// third-fourth-first.
pub open spec fn corner_offset(resolution: nat, corner: int) -> int {
    if corner == 1 {
        1
    } else if corner == 2 || corner == 3 {
        resolution as int + 2
    } else if corner == 4 {
        resolution as int + 1
    } else {
        0
    }
}

/// The `k`-th index of a grid. Quads are walked row by row; quad `q` lies in
/// row `q / n` and column `q % n`, and its first vertex is `row * (n + 1) + column`.
pub open spec fn grid_index(resolution: nat, k: int) -> int {
    let side = resolution as int;
    let quad = k / 6;
    let row = quad / side;
    let column = quad % side;
    row * (side + 1) + column + corner_offset(resolution, k % 6)
}

/// The index buffer of a grid.
pub open spec fn grid_indices(resolution: nat) -> Seq<u32> {
    Seq::new(grid_index_count(resolution), |k: int| grid_index(resolution, k) as u32)
}

/// Whether a grid of this resolution can be generated: it has at least one
/// quad, its vertices can be numbered in 32 bits, and its index buffer fits
/// in memory.
pub open spec fn resolution_fits(resolution: usize) -> bool {
    &&& 0 < resolution
    &&& grid_vertex_count(resolution as nat) <= u32::MAX
    &&& grid_index_count(resolution as nat) * 4 <= isize::MAX
}

/// Grids of up to nine thousand quads a side fit on every machine.
pub proof fn lemma_moderate_resolution_fits(resolution: usize)
    requires
        0 < resolution <= 9_000,
    ensures
        resolution_fits(resolution),
{
    let n = resolution as int;
    assert((n + 1) * (n + 1) <= 9_001 * 9_001 && n * n * 6 * 4 <= 9_000 * 9_000 * 24)
        by (nonlinear_arith)
        requires
            0 < n <= 9_000,
    ;
    assert(isize::MAX >= 0x7fff_ffff);
}

/// Every index of a grid names one of its vertices.
pub proof fn lemma_grid_index_in_range(resolution: nat, k: int)
    requires
        0 < resolution,
        0 <= k < grid_index_count(resolution),
    ensures
        0 <= grid_index(resolution, k) < grid_vertex_count(resolution),
{
    let n = resolution as int;
    let quad = k / 6;
    let row = quad / n;
    let column = quad % n;
    assert(0 <= quad < n * n) by (nonlinear_arith)
        requires
            quad == k / 6,
            0 <= k < n * n * 6,
    ;
    assert(0 <= row < n) by (nonlinear_arith)
        requires
            row == quad / n,
            0 <= quad < n * n,
            0 < n,
    ;
    assert(0 <= column < n) by (nonlinear_arith)
        requires
            column == quad % n,
            0 < n,
    ;
    assert(0 <= corner_offset(resolution, k % 6) <= n + 2);
    assert(0 <= row * (n + 1) <= (n - 1) * (n + 1)) by (nonlinear_arith)
        requires
            0 <= row < n,
            0 < n,
    ;
    assert((n - 1) * (n + 1) + (n - 1) + (n + 2) < (n + 1) * (n + 1)) by (nonlinear_arith);
}

/// The three corners of every triangle of a grid are three different
/// vertices.
pub proof fn lemma_grid_triangles_are_proper(resolution: nat, triangle: int)
    requires
        0 < resolution,
        0 <= triangle < resolution * resolution * 2,
    ensures
        grid_index(resolution, 3 * triangle) != grid_index(resolution, 3 * triangle + 1),
        grid_index(resolution, 3 * triangle + 1) != grid_index(resolution, 3 * triangle + 2),
        grid_index(resolution, 3 * triangle + 2) != grid_index(resolution, 3 * triangle),
{
    let k = 3 * triangle;
    let quad = triangle / 2;
    assert(k / 6 == quad && (k + 1) / 6 == quad && (k + 2) / 6 == quad);
    if triangle % 2 == 0 {
        assert(k % 6 == 0 && (k + 1) % 6 == 1 && (k + 2) % 6 == 2);
    } else {
        assert(k % 6 == 3 && (k + 1) % 6 == 4 && (k + 2) % 6 == 5);
    }
}

/// Every vertex of a grid is a corner of some triangle.
pub proof fn lemma_grid_uses_every_vertex(resolution: nat, vertex: int) -> (k: int)
    requires
        0 < resolution,
        0 <= vertex < grid_vertex_count(resolution),
    ensures
        0 <= k < grid_index_count(resolution),
        grid_index(resolution, k) == vertex,
{
    let n = resolution as int;
    let row = vertex / (n + 1);
    let column = vertex % (n + 1);
    assert(0 <= row <= n) by (nonlinear_arith)
        requires
            row == vertex / (n + 1),
            0 <= vertex < (n + 1) * (n + 1),
            0 < n,
    ;
    assert(vertex == row * (n + 1) + column && 0 <= column <= n) by (nonlinear_arith)
        requires
            row == vertex / (n + 1),
            column == vertex % (n + 1),
            0 < n,
    ;
    // The quad that has the vertex as a corner: the one to its upper right
    // where there is one, else the one on the other side of the edge.
    let quad_row = if row < n { row } else { n - 1 };
    let quad_column = if column < n { column } else { n - 1 };
    let quad = quad_row * n + quad_column;
    let corner: int = if row < n {
        if column < n { 0 } else { 1 }
    } else {
        if column < n { 4 } else { 2 }
    };
    let k = 6 * quad + corner;
    assert(0 <= quad < n * n && quad / n == quad_row && quad % n == quad_column)
        by (nonlinear_arith)
        requires
            quad == quad_row * n + quad_column,
            0 <= quad_row < n,
            0 <= quad_column < n,
    ;
    assert(k / 6 == quad && k % 6 == corner);
    assert(quad_row * (n + 1) == quad_row * n + quad_row) by (nonlinear_arith);
    assert(row * (n + 1) == row * n + row) by (nonlinear_arith);
    assert(0 <= k < n * n * 6) by (nonlinear_arith)
        requires
            k == 6 * quad + corner,
            0 <= quad < n * n,
            0 <= corner < 6,
    ;
    if row == n {
        assert(quad_row * n + n == row * n) by (nonlinear_arith)
            requires
                quad_row == n - 1,
                row == n,
        ;
    }
    k
}

/// `genmesh`'s `Plane::subdivide(resolution, resolution)`, asked for its
/// `shared_vertex_count`: the plane has one more vertex than quads along
/// each axis. `subdivide` panics on zero, which is left out.
#[verifier::external_body]
fn plane_vertex_count(resolution: usize) -> (count: usize)
    requires
        0 < resolution,
        grid_vertex_count(resolution as nat) <= usize::MAX,
    ensures
        count == grid_vertex_count(resolution as nat),
{
    Plane::subdivide(resolution, resolution).shared_vertex_count()
}

/// `genmesh`'s `Plane::subdivide(resolution, resolution)`, walked by
/// `indexed_polygon_iter`, `triangulate` and `vertices`: the plane yields its
/// quads row by row, each as the four vertex numbers `base`, `base + 1`,
/// `base + resolution + 2`, `base + resolution + 1`; a quad is cut into the
/// triangles of its first three corners and of its third, fourth and first;
/// a triangle yields its three corners in order. The numbers are narrowed to
/// 32 bits, which loses nothing under the first bound. `subdivide` panics on
/// zero, which is left out.
#[verifier::external_body]
fn plane_triangle_indices(resolution: usize) -> (indices: Vec<u32>)
    requires
        resolution_fits(resolution),
    ensures
        indices@ == grid_indices(resolution as nat),
{
    Plane::subdivide(resolution, resolution)
        .indexed_polygon_iter()
        .triangulate()
        .vertices()
        .map(|index| index as u32)
        .collect()
}

/// Decides `resolution_fits`.
pub fn check_resolution(resolution: usize) -> (fits: bool)
    ensures
        fits == resolution_fits(resolution),
{
    if resolution == 0 || resolution > 65_534 {
        proof {
            if resolution > 65_534 {
                let n = resolution as int;
                assert((n + 1) * (n + 1) > u32::MAX) by (nonlinear_arith)
                    requires
                        n >= 65_535,
                ;
            }
        }
        return false;
    }
    let side: u64 = resolution as u64;
    assert(side * side <= 65_534 * 65_534) by (nonlinear_arith)
        requires
            side <= 65_534,
    ;
    let bytes: u64 = side * side * 24;
    proof {
        let n = resolution as int;
        assert((n + 1) * (n + 1) <= u32::MAX) by (nonlinear_arith)
            requires
                0 < n <= 65_534,
        ;
        assert(n * n * 6 * 4 == n * n * 24) by (nonlinear_arith);
    }
    bytes <= isize::MAX as u64
}

/// Encoding of 80: heights above it are snow.
pub const SNOW_LINE: u32 = 0x42a0_0000;

/// Encoding of 70: heights above it, up to the snow line, are bare rock.
pub const ROCK_LINE: u32 = 0x428c_0000;

/// Encoding of -5: heights above it, up to the rock line, are grass; the
/// rest is water.
pub const SHORE_LINE: u32 = 0xc0a0_0000;

/// The four height bands of the terrain, highest first.
#[derive(Debug, Clone, Copy, PartialEq, Eq, Structural)]
pub enum Band {
    Snow,
    Rock,
    Grass,
    Water,
}

impl Band {
    /// Position of the band counted from the lowest.
    pub open spec fn rank(self) -> int {
        match self {
            Band::Water => 0,
            Band::Grass => 1,
            Band::Rock => 2,
            Band::Snow => 3,
        }
    }

    /// The colour the band is drawn in.
    pub open spec fn color(self) -> Color {
        match self {
            Band::Snow => white(),
            Band::Rock => brown(),
            Band::Grass => light_green(),
            Band::Water => light_blue(),
        }
    }

    #[verifier::when_used_as_spec(color)]
    pub fn to_color(self) -> (color: Color)
        ensures
            color == self.color(),
    {
        match self {
            Band::Snow => white(),
            Band::Rock => brown(),
            Band::Grass => light_green(),
            Band::Water => light_blue(),
        }
    }
}

/// The band of a height: the first, from the highest line down, whose line
/// the height strictly exceeds. A height on a line belongs to the band below
/// it, and a height that is not a number exceeds nothing and is water.
pub open spec fn band_of(height: Scalar) -> Band {
    if height.gt(Scalar { bits: SNOW_LINE }) {
        Band::Snow
    } else if height.gt(Scalar { bits: ROCK_LINE }) {
        Band::Rock
    } else if height.gt(Scalar { bits: SHORE_LINE }) {
        Band::Grass
    } else {
        Band::Water
    }
}

/// Finds the band of a height.
pub fn terrain_band(height: Scalar) -> (band: Band)
    ensures
        band == band_of(height),
{
    if height.is_greater_than(Scalar::from_bits(SNOW_LINE)) {
        Band::Snow
    } else if height.is_greater_than(Scalar::from_bits(ROCK_LINE)) {
        Band::Rock
    } else if height.is_greater_than(Scalar::from_bits(SHORE_LINE)) {
        Band::Grass
    } else {
        Band::Water
    }
}

/// The red, green and blue channels of the colour of a height's band.
pub fn get_terrain_color(height: Scalar) -> (channels: [Scalar; 3])
    ensures
        channels@ == seq![
            band_of(height).color().r,
            band_of(height).color().g,
            band_of(height).color().b,
        ],
{
    terrain_band(height).to_color().into()
}

/// Bands rise with height: of two heights, the greater never falls into a
/// lower band.
pub proof fn lemma_bands_are_monotonic(higher: Scalar, lower: Scalar)
    requires
        higher.gt(lower),
    ensures
        band_of(higher).rank() >= band_of(lower).rank(),
{
}

/// The index and vertex layout of a terrain grid.
pub struct Terrain {
    resolution: usize,
    vertex_count: usize,
    indices: Vec<u32>,
}

impl Terrain {
    /// Number of quads along each side.
    pub closed spec fn resolution(&self) -> nat {
        self.resolution as nat
    }

    /// Number of shared vertices.
    pub closed spec fn vertex_count(&self) -> nat {
        self.vertex_count as nat
    }

    /// The index buffer: three vertex numbers for each triangle.
    pub closed spec fn indices(&self) -> Seq<u32> {
        self.indices@
    }

    /// The grid is the one its resolution determines.
    pub open spec fn wf(&self) -> bool {
        &&& 0 < self.resolution()
        &&& self.vertex_count() == grid_vertex_count(self.resolution())
        &&& self.indices() == grid_indices(self.resolution())
    }

    /// Lays out a grid of `size` by `size` quads. `None` when `size` is zero
    /// or the grid is too large to number or to hold.
    pub fn new(size: usize) -> (terrain: Option<Terrain>)
        ensures
            terrain.is_some() == resolution_fits(size),
            terrain matches Some(t) ==> t.wf() && t.resolution() == size,
    {
        if !check_resolution(size) {
            return None;
        }
        let vertex_count = plane_vertex_count(size);
        let indices = plane_triangle_indices(size);
        Some(Terrain { resolution: size, vertex_count, indices })
    }

    pub fn get_resolution(&self) -> (resolution: usize)
        ensures
            resolution == self.resolution(),
    {
        self.resolution
    }

    pub fn get_vertex_count(&self) -> (count: usize)
        ensures
            count == self.vertex_count(),
    {
        self.vertex_count
    }

    pub fn get_indices(&self) -> (indices: &Vec<u32>)
        ensures
            indices@ == self.indices(),
    {
        &self.indices
    }
}

/// A grid has `(n + 1)²` vertices and `6 n²` indices, and every index names
/// one of the vertices.
pub proof fn lemma_terrain_topology(terrain: Terrain)
    requires
        terrain.wf(),
    ensures
        terrain.vertex_count() == (terrain.resolution() + 1) * (terrain.resolution() + 1),
        terrain.indices().len() == terrain.resolution() * terrain.resolution() * 6,
        forall|k: int|
            0 <= k < terrain.indices().len() ==> 0 <= #[trigger] terrain.indices()[k]
                < terrain.vertex_count(),
{
    let n = terrain.resolution();
    assert forall|k: int| 0 <= k < terrain.indices().len() implies 0
        <= #[trigger] terrain.indices()[k] < terrain.vertex_count() by {
        lemma_grid_index_in_range(n, k);
        assert(terrain.indices()[k] == grid_index(n, k) as u32);
    }
}

/// Two grids of the same resolution are the same grid.
pub proof fn lemma_terrain_deterministic(a: Terrain, b: Terrain)
    requires
        a.wf(),
        b.wf(),
        a.resolution() == b.resolution(),
    ensures
        a.vertex_count() == b.vertex_count(),
        a.indices() == b.indices(),
{
}

} // verus!
