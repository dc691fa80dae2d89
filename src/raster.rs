//! The pixel grid, the static quad mesh that covers it, and the per-frame
//! colour buffer that paints each quad.
//!
//! Pixel `(x, y)` has index `x * SCREEN_HEIGHT + y`; its quad owns vertices
//! `4 * index .. 4 * index + 4`, and each vertex owns three colour bytes.
use vstd::prelude::*;
use crate::palette::{Palette, Rgb};
use crate::{SCREEN_HEIGHT, SCREEN_WIDTH};

verus! {

/// Number of pixels in the grid.
pub const PIXEL_COUNT: usize = SCREEN_WIDTH * SCREEN_HEIGHT;

/// Vertices per pixel quad.
pub const VERTICES_PER_PIXEL: usize = 4;

/// Indices per pixel quad: two triangles.
pub const INDICES_PER_PIXEL: usize = 6;

/// Colour bytes per pixel quad: three per vertex.
pub const COLOR_BYTES_PER_PIXEL: usize = 12;

/// Index of pixel `(x, y)` in the grid.
pub open spec fn pixel_index(x: int, y: int) -> int {
    x * SCREEN_HEIGHT + y
}

/// The machine's monochrome display, one flag per pixel.
#[derive(Debug, PartialEq, Eq)]
pub struct PixelGrid {
    pixels: Vec<bool>,
}

impl View for PixelGrid {
    type V = Seq<bool>;

    closed spec fn view(&self) -> Seq<bool> {
        self.pixels@
    }
}

impl PixelGrid {
    #[verifier::type_invariant]
    spec fn covers_screen(&self) -> bool {
        self.pixels@.len() == PIXEL_COUNT
    }

    /// A grid of unlit pixels.
    pub fn new() -> (g: PixelGrid)
        ensures
            g@ == Seq::new(PIXEL_COUNT as nat, |i: int| false),
    {
        let mut pixels: Vec<bool> = Vec::new();
        let mut i: usize = 0;
        while i < PIXEL_COUNT
            invariant
                i <= PIXEL_COUNT,
                pixels@ == Seq::new(i as nat, |j: int| false),
            decreases PIXEL_COUNT - i,
        {
            pixels.push(false);
            i = i + 1;
            assert(pixels@ =~= Seq::new(i as nat, |j: int| false));
        }
        PixelGrid { pixels }
    }

    /// Whether pixel `(x, y)` is lit.
    pub fn get(&self, x: usize, y: usize) -> (lit: bool)
        requires
            x < SCREEN_WIDTH,
            y < SCREEN_HEIGHT,
        ensures
            lit == self@[pixel_index(x as int, y as int)],
    {
        proof {
            use_type_invariant(self);
        }
        self.pixels[x * SCREEN_HEIGHT + y]
    }

    /// Lights or clears pixel `(x, y)`.
    pub fn set(&mut self, x: usize, y: usize, lit: bool)
        requires
            x < SCREEN_WIDTH,
            y < SCREEN_HEIGHT,
        ensures
            final(self)@ == old(self)@.update(pixel_index(x as int, y as int), lit),
            final(self)@.len() == PIXEL_COUNT,
    {
        proof {
            use_type_invariant(&*self);
        }
        self.pixels[x * SCREEN_HEIGHT + y] = lit;
    }
}

/// Colour byte `k` of the buffer that paints `pixels` with `palette`: every
/// vertex of a lit pixel gets the foreground, every vertex of an unlit one
/// the background.
pub open spec fn color_byte(pixels: Seq<bool>, palette: Palette, k: int) -> u8 {
    palette.color_of(pixels[k / COLOR_BYTES_PER_PIXEL as int]).channel(k % 3)
}

/// The colour buffer that paints `pixels` with `palette`.
pub open spec fn color_buffer_model(pixels: Seq<bool>, palette: Palette) -> Seq<u8> {
    Seq::new((pixels.len() * COLOR_BYTES_PER_PIXEL) as nat, |k: int| color_byte(pixels, palette, k))
}

/// Rebuilds the whole colour buffer from the grid: three bytes per vertex,
/// four vertices per pixel, in pixel-index order.
pub fn color_buffer(grid: &PixelGrid, palette: &Palette) -> (buf: Vec<u8>)
    ensures
        buf@ == color_buffer_model(grid@, *palette),
        buf@.len() == PIXEL_COUNT * COLOR_BYTES_PER_PIXEL,
{
    proof {
        use_type_invariant(grid);
    }
    let total: usize = PIXEL_COUNT * COLOR_BYTES_PER_PIXEL;
    let mut buf: Vec<u8> = Vec::with_capacity(total);
    let mut k: usize = 0;
    while k < total
        invariant
            total == grid@.len() * COLOR_BYTES_PER_PIXEL,
            grid@.len() == PIXEL_COUNT,
            k <= total,
            buf@ == Seq::new(k as nat, |j: int| color_byte(grid@, *palette, j)),
        decreases total - k,
    {
        let lit = grid.pixels[k / COLOR_BYTES_PER_PIXEL];
        let color = if lit { palette.foreground } else { palette.background };
        buf.push(color.get_channel(k % 3));
        k = k + 1;
        assert(buf@ =~= Seq::new(k as nat, |j: int| color_byte(grid@, *palette, j)));
    }
    buf
}

/// Lighting a pixel and then clearing it, then repainting, gives the
/// background colour at exactly that pixel's four vertices and leaves every
/// other byte of the colour buffer as it was before.
pub proof fn lemma_clear_pixel_repaints_its_quad(pixels: Seq<bool>, palette: Palette, x: int, y: int)
    requires
        pixels.len() == PIXEL_COUNT,
        0 <= x < SCREEN_WIDTH,
        0 <= y < SCREEN_HEIGHT,
    ensures
        ({
            let i = pixel_index(x, y);
            let after = pixels.update(i, true).update(i, false);
            let before_buf = color_buffer_model(pixels, palette);
            let after_buf = color_buffer_model(after, palette);
            &&& after_buf.len() == before_buf.len()
            &&& forall|k: int|
                #![trigger after_buf[k]]
                0 <= k < after_buf.len() ==> after_buf[k] == if 12 * i <= k < 12 * i + 12 {
                    palette.background.channel(k % 3)
                } else {
                    before_buf[k]
                }
        }),
{
    let i = pixel_index(x, y);
    let after = pixels.update(i, true).update(i, false);
    let after_buf = color_buffer_model(after, palette);
    assert forall|k: int| 0 <= k < after_buf.len() implies (12 * i <= k < 12 * i + 12 <==> #[trigger] (k / 12) == i) by {
        vstd::arithmetic::div_mod::lemma_fundamental_div_mod(k, 12);
    }
}

/// Which way the grid's rows run on screen.
#[derive(Clone, Copy, Debug, PartialEq, Eq, Structural)]
pub enum VerticalAxis {
    /// Row 0 is at the top of the screen.
    TopDown,
    /// Row 0 is at the bottom of the screen.
    BottomUp,
}

/// A mesh vertex in normalized device coordinates, kept exact as numerators:
/// the position is `(x / SCREEN_WIDTH, y / SCREEN_HEIGHT)`, depth zero.
#[derive(Clone, Copy, Debug, PartialEq, Eq, Structural)]
pub struct Vertex {
    pub x: i32,
    pub y: i32,
}

/// Horizontal numerator of grid column `col` (0 to `SCREEN_WIDTH`): the
/// columns map linearly onto -1 (left) to 1 (right).
pub open spec fn ndc_x(col: int) -> int {
    2 * col - SCREEN_WIDTH
}

/// Vertical numerator of grid row `row` (0 to `SCREEN_HEIGHT`): the rows
/// map linearly onto 1 to -1 when they run top-down, onto -1 to 1 otherwise.
pub open spec fn ndc_y(row: int, axis: VerticalAxis) -> int {
    match axis {
        VerticalAxis::TopDown => SCREEN_HEIGHT - 2 * row,
        VerticalAxis::BottomUp => 2 * row - SCREEN_HEIGHT,
    }
}

/// Vertex `k` of the mesh: corner `(k % 4) / 2, k % 2` of the quad of pixel
/// `k / 4`, whose column is `(k / 4) / SCREEN_HEIGHT` and row `(k / 4) % SCREEN_HEIGHT`.
pub open spec fn mesh_vertex(k: int, axis: VerticalAxis) -> Vertex {
    let p = k / 4;
    Vertex {
        x: ndc_x(p / SCREEN_HEIGHT as int + (k % 4) / 2) as i32,
        y: ndc_y(p % SCREEN_HEIGHT as int + k % 2, axis) as i32,
    }
}

/// Offset, within its quad, of the `t`-th index of a pixel: the two
/// triangles `0 1 2` and `1 2 3`.
pub open spec fn quad_corner(t: int) -> int {
    if t < 3 { t } else { t - 2 }
}

/// All vertices of the mesh, four per pixel in pixel-index order.
pub open spec fn mesh_vertices(axis: VerticalAxis) -> Seq<Vertex> {
    Seq::new((PIXEL_COUNT * VERTICES_PER_PIXEL) as nat, |k: int| mesh_vertex(k, axis))
}

/// All indices of the mesh, six per pixel in pixel-index order.
pub open spec fn mesh_indices() -> Seq<u32> {
    Seq::new(
        (PIXEL_COUNT * INDICES_PER_PIXEL) as nat,
        |m: int| (4 * (m / 6) + quad_corner(m % 6)) as u32,
    )
}

/// The static geometry that covers the grid with one quad per pixel.
#[derive(Debug, PartialEq, Eq)]
pub struct Mesh {
    axis: VerticalAxis,
    vertices: Vec<Vertex>,
    indices: Vec<u32>,
}

impl Mesh {
    #[verifier::type_invariant]
    spec fn matches_grid(&self) -> bool {
        &&& self.vertices@ == mesh_vertices(self.axis)
        &&& self.indices@ == mesh_indices()
    }

    /// The orientation the mesh was built with.
    pub closed spec fn axis_spec(&self) -> VerticalAxis {
        self.axis
    }

    /// Builds the quads of every pixel, rows running along `axis`.
    pub fn new(axis: VerticalAxis) -> (m: Mesh)
        ensures
            m.axis_spec() == axis,
    {
        let n_vertices: usize = PIXEL_COUNT * VERTICES_PER_PIXEL;
        let mut vertices: Vec<Vertex> = Vec::with_capacity(n_vertices);
        let mut k: usize = 0;
        while k < n_vertices
            invariant
                n_vertices == PIXEL_COUNT * VERTICES_PER_PIXEL,
                k <= n_vertices,
                vertices@ == Seq::new(k as nat, |j: int| mesh_vertex(j, axis)),
            decreases n_vertices - k,
        {
            let p: usize = k / 4;
            let col: usize = p / SCREEN_HEIGHT + (k % 4) / 2;
            let row: usize = p % SCREEN_HEIGHT + k % 2;
            let y: i32 = match axis {
                VerticalAxis::TopDown => SCREEN_HEIGHT as i32 - 2 * row as i32,
                VerticalAxis::BottomUp => 2 * row as i32 - SCREEN_HEIGHT as i32,
            };
            vertices.push(Vertex { x: 2 * col as i32 - SCREEN_WIDTH as i32, y });
            k = k + 1;
            assert(vertices@ =~= Seq::new(k as nat, |j: int| mesh_vertex(j, axis)));
        }
        let n_indices: usize = PIXEL_COUNT * INDICES_PER_PIXEL;
        let mut indices: Vec<u32> = Vec::with_capacity(n_indices);
        let mut m: usize = 0;
        while m < n_indices
            invariant
                n_indices == PIXEL_COUNT * INDICES_PER_PIXEL,
                m <= n_indices,
                indices@ == Seq::new(m as nat, |j: int| (4 * (j / 6) + quad_corner(j % 6)) as u32),
            decreases n_indices - m,
        {
            let t: usize = m % 6;
            let corner: usize = if t < 3 { t } else { t - 2 };
            indices.push((4 * (m / 6) + corner) as u32);
            m = m + 1;
            assert(indices@ =~= Seq::new(m as nat, |j: int| (4 * (j / 6) + quad_corner(j % 6)) as u32));
        }
        Mesh { axis, vertices, indices }
    }

    /// The vertex positions, four per pixel in pixel-index order.
    pub fn vertices(&self) -> (v: &Vec<Vertex>)
        ensures
            v@ == mesh_vertices(self.axis_spec()),
            v@.len() == PIXEL_COUNT * VERTICES_PER_PIXEL,
    {
        proof {
            use_type_invariant(self);
        }
        &self.vertices
    }

    /// The triangle indices, six per pixel in pixel-index order.
    pub fn indices(&self) -> (v: &Vec<u32>)
        ensures
            v@ == mesh_indices(),
            v@.len() == PIXEL_COUNT * INDICES_PER_PIXEL,
    {
        proof {
            use_type_invariant(self);
        }
        &self.indices
    }

    /// Number of vertices: four per pixel.
    pub fn vertex_count(&self) -> (n: usize)
        ensures
            n == PIXEL_COUNT * VERTICES_PER_PIXEL,
    {
        proof {
            use_type_invariant(self);
        }
        self.vertices.len()
    }

    /// Number of indices, which the draw call covers: six per pixel.
    pub fn index_count(&self) -> (n: usize)
        ensures
            n == PIXEL_COUNT * INDICES_PER_PIXEL,
    {
        proof {
            use_type_invariant(self);
        }
        self.indices.len()
    }
}

} // verus!
