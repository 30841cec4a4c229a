//! The per-frame state of the renderer: the camera that pans over the world
//! map, the tiles it shows, and the rectangles of the final blit.
use vstd::prelude::*;
use crate::area::{Area, is_grid, grid_width, grid_slice};

verus! {

/// Width in pixels of the picture shown to the player.
pub const VIEW_WIDTH: u32 = 240;
/// Height in pixels of the picture shown to the player.
pub const VIEW_HEIGHT: u32 = 160;
/// Width in pixels of the off-screen image the tiles are drawn into.
pub const INTERNAL_WIDTH: u32 = 256;
/// Height in pixels of the off-screen image the tiles are drawn into.
pub const INTERNAL_HEIGHT: u32 = 176;
/// Columns of tiles handed to the shader.
pub const VISIBLE_COLUMNS: usize = 16;
/// Rows of tiles handed to the shader.
pub const VISIBLE_ROWS: usize = 11;

/// Rust's `/` on integers, which rounds toward zero, for a positive divisor.
pub open spec fn trunc_div(a: int, d: int) -> int {
    if a >= 0 {
        a / d
    } else {
        -((-a) / d)
    }
}

/// `v` is a value of `i32`.
pub open spec fn fits_i32(v: int) -> bool {
    i32::MIN <= v <= i32::MAX
}

/// The integer scale at which the view is shown in a window of `w` by `h` pixels.
pub open spec fn letterbox_scale(w: int, h: int) -> int {
    let xs = trunc_div(w, VIEW_WIDTH as int);
    let ys = trunc_div(h, VIEW_HEIGHT as int);
    if xs < ys {
        xs
    } else {
        ys
    }
}

/// Top-left corner of the scaled view, centred in a window of `w` by `h` pixels.
pub open spec fn letterbox_origin(w: int, h: int) -> (int, int) {
    let s = letterbox_scale(w, h);
    (trunc_div(w - VIEW_WIDTH * s, 2), trunc_div(h - VIEW_HEIGHT * s, 2))
}

/// Every intermediate value of the letterbox computation fits in an `i32`.
pub open spec fn letterbox_fits(w: int, h: int) -> bool {
    let s = letterbox_scale(w, h);
    let o = letterbox_origin(w, h);
    &&& fits_i32(VIEW_WIDTH * s)
    &&& fits_i32(VIEW_HEIGHT * s)
    &&& fits_i32(w - VIEW_WIDTH * s)
    &&& fits_i32(h - VIEW_HEIGHT * s)
    &&& fits_i32(o.0 + VIEW_WIDTH * s)
    &&& fits_i32(o.1 + VIEW_HEIGHT * s)
}

/// Corners of the destination rectangle of the blit into the window image:
/// the view scaled by the largest whole factor that fits, centred.
pub fn letterbox(w2: i32, h2: i32) -> (rect: ((i32, i32, i32), (i32, i32, i32)))
    requires
        letterbox_fits(w2 as int, h2 as int),
    ensures
        ({
            let s = letterbox_scale(w2 as int, h2 as int);
            let o = letterbox_origin(w2 as int, h2 as int);
            &&& rect.0 == (o.0 as i32, o.1 as i32, 0i32)
            &&& rect.1 == ((o.0 + VIEW_WIDTH * s) as i32, (o.1 + VIEW_HEIGHT * s) as i32, 1i32)
        }),
{
    let x_scale = w2 / 240;
    let y_scale = h2 / 160;
    let scale = if x_scale < y_scale {
        x_scale
    } else {
        y_scale
    };
    let ws = 240 * scale;
    let hs = 160 * scale;
    let x_offset = (w2 - ws) / 2;
    let y_offset = (h2 - hs) / 2;
    ((x_offset, y_offset, 0), (x_offset + ws, y_offset + hs, 1))
}

/// A window of non-negative size always admits the letterbox computation,
/// and the scaled view lies inside the window, centred to within a pixel,
/// at the largest whole scale that fits.
pub proof fn lemma_letterbox_inside(w: int, h: int)
    requires
        0 <= w <= i32::MAX,
        0 <= h <= i32::MAX,
    ensures
        letterbox_fits(w, h),
        ({
            let s = letterbox_scale(w, h);
            let o = letterbox_origin(w, h);
            &&& 0 <= s
            &&& VIEW_WIDTH * s <= w
            &&& VIEW_HEIGHT * s <= h
            &&& (VIEW_WIDTH * (s + 1) > w || VIEW_HEIGHT * (s + 1) > h)
            &&& 0 <= o.0 && o.0 + VIEW_WIDTH * s <= w
            &&& 0 <= o.1 && o.1 + VIEW_HEIGHT * s <= h
            &&& o.0 <= w - (o.0 + VIEW_WIDTH * s) <= o.0 + 1
            &&& o.1 <= h - (o.1 + VIEW_HEIGHT * s) <= o.1 + 1
        }),
{
}

/// The world map, top row first, as it is before the frame's edit.
pub open spec fn world_rows() -> Seq<Seq<i32>> {
    seq![
        seq![4, 1, 1, 1, 1, 1, 1, 1, 1, 1, 1, 1, 1, 1, 1, 1, 1, 1, 1, 1],
        seq![1, 1, 2, 1, 1, 4, 4, 1, 2, 3,139, 5, 2, 2, 1, 5, 2, 1, 5, 1],
        seq![2, 3, 1, 5, 4, 1, 3, 3, 3, 1, 5, 5, 1, 3, 4, 5, 2, 1, 5, 2],
        seq![3, 3, 3, 2, 4, 1, 3, 3, 2, 2, 2, 3, 5, 4, 2, 3, 2, 2, 1, 4],
        seq![4, 3, 2, 4, 1, 3, 1, 2, 5, 3, 5, 5, 4, 1, 5, 2, 5, 1, 4, 3],
        seq![5, 5, 5, 1, 5, 3, 2, 3, 5, 5, 3, 5, 1, 4, 2, 1, 4, 4, 4, 5],
        seq![2, 2, 5, 3, 3, 4, 5, 5, 2, 3, 2, 4, 1, 2, 2, 3, 1, 2, 3, 2],
        seq![5, 1, 4, 3, 4, 4, 3, 4, 4, 1, 5, 3, 3, 4, 1, 4, 4, 5, 1, 2],
        seq![1, 5, 1, 3, 4, 2, 1, 1, 5, 5, 3, 2, 4, 4, 1, 4, 4, 1, 1, 1],
        seq![2, 3, 5, 2, 2, 2, 2, 4, 1, 2, 5, 5, 4, 1, 5, 3, 2, 2, 3, 4],
        seq![4, 4, 3, 1, 1, 2, 2, 3, 4, 3, 5, 3, 2, 3, 1, 3, 2, 5, 2, 5],
        seq![5, 3, 2, 4, 5, 1, 1, 1, 4, 4, 5, 5, 4, 2, 1, 4, 3, 1, 1, 4],
        seq![4, 2, 4, 3, 2, 2, 4, 3, 3, 5, 3, 1, 5, 1, 4, 5, 4, 5, 3, 2],
        seq![5, 4, 4, 2, 1, 3, 1, 1, 2, 2, 1, 1, 5, 4, 2, 3, 1, 5, 3, 1],
        seq![5, 1, 3, 5, 3, 3, 2, 4, 2, 3, 2, 5, 4, 5, 1, 5, 3, 3, 1, 3],
        seq![3, 2, 4, 5, 5, 4, 5, 5, 5, 2, 3, 5, 2, 4, 5, 2, 4, 3, 2, 5],
        seq![1, 3, 3, 2, 1, 2, 1, 3, 1, 3, 1, 4, 1, 3, 5, 4, 2, 3, 1, 3],
        seq![4, 4, 3, 3, 4, 1, 3, 3, 5, 4, 4, 3, 3, 5, 4, 1, 5, 1, 4, 5],
        seq![1, 4, 2, 1, 3, 1, 4, 2, 2, 2, 2, 5, 4, 3, 4, 1, 3, 2, 1, 2],
        seq![3, 4, 4, 3, 5, 4, 3, 2, 1, 3, 4, 5, 5, 5, 5, 4, 1, 3, 4, 3]
    ]
}

/// The world map as each frame sees it: the tile in column 2 of row 1 cleared to 0.
pub open spec fn edited_world() -> Seq<Seq<i32>> {
    world_rows().update(1, world_rows()[1].update(2, 0))
}

/// Builds the world map of `world_rows`.
pub fn world_area() -> (area: Area)
    ensures
        area@ == world_rows(),
        is_grid(area@),
        area@.len() == 20,
        grid_width(area@) == 20,
{
    let rows: Vec<Vec<i32>> = vec![
        vec![4, 1, 1, 1, 1, 1, 1, 1, 1, 1, 1, 1, 1, 1, 1, 1, 1, 1, 1, 1],
        vec![1, 1, 2, 1, 1, 4, 4, 1, 2, 3,139, 5, 2, 2, 1, 5, 2, 1, 5, 1],
        vec![2, 3, 1, 5, 4, 1, 3, 3, 3, 1, 5, 5, 1, 3, 4, 5, 2, 1, 5, 2],
        vec![3, 3, 3, 2, 4, 1, 3, 3, 2, 2, 2, 3, 5, 4, 2, 3, 2, 2, 1, 4],
        vec![4, 3, 2, 4, 1, 3, 1, 2, 5, 3, 5, 5, 4, 1, 5, 2, 5, 1, 4, 3],
        vec![5, 5, 5, 1, 5, 3, 2, 3, 5, 5, 3, 5, 1, 4, 2, 1, 4, 4, 4, 5],
        vec![2, 2, 5, 3, 3, 4, 5, 5, 2, 3, 2, 4, 1, 2, 2, 3, 1, 2, 3, 2],
        vec![5, 1, 4, 3, 4, 4, 3, 4, 4, 1, 5, 3, 3, 4, 1, 4, 4, 5, 1, 2],
        vec![1, 5, 1, 3, 4, 2, 1, 1, 5, 5, 3, 2, 4, 4, 1, 4, 4, 1, 1, 1],
        vec![2, 3, 5, 2, 2, 2, 2, 4, 1, 2, 5, 5, 4, 1, 5, 3, 2, 2, 3, 4],
        vec![4, 4, 3, 1, 1, 2, 2, 3, 4, 3, 5, 3, 2, 3, 1, 3, 2, 5, 2, 5],
        vec![5, 3, 2, 4, 5, 1, 1, 1, 4, 4, 5, 5, 4, 2, 1, 4, 3, 1, 1, 4],
        vec![4, 2, 4, 3, 2, 2, 4, 3, 3, 5, 3, 1, 5, 1, 4, 5, 4, 5, 3, 2],
        vec![5, 4, 4, 2, 1, 3, 1, 1, 2, 2, 1, 1, 5, 4, 2, 3, 1, 5, 3, 1],
        vec![5, 1, 3, 5, 3, 3, 2, 4, 2, 3, 2, 5, 4, 5, 1, 5, 3, 3, 1, 3],
        vec![3, 2, 4, 5, 5, 4, 5, 5, 5, 2, 3, 5, 2, 4, 5, 2, 4, 3, 2, 5],
        vec![1, 3, 3, 2, 1, 2, 1, 3, 1, 3, 1, 4, 1, 3, 5, 4, 2, 3, 1, 3],
        vec![4, 4, 3, 3, 4, 1, 3, 3, 5, 4, 4, 3, 3, 5, 4, 1, 5, 1, 4, 5],
        vec![1, 4, 2, 1, 3, 1, 4, 2, 2, 2, 2, 5, 4, 3, 4, 1, 3, 2, 1, 2],
        vec![3, 4, 4, 3, 5, 4, 3, 2, 1, 3, 4, 5, 5, 5, 5, 4, 1, 3, 4, 3]
    ];
    proof {
        assert(rows.deep_view()[0] =~= world_rows()[0]);
        assert(rows.deep_view()[1] =~= world_rows()[1]);
        assert(rows.deep_view()[2] =~= world_rows()[2]);
        assert(rows.deep_view()[3] =~= world_rows()[3]);
        assert(rows.deep_view()[4] =~= world_rows()[4]);
        assert(rows.deep_view()[5] =~= world_rows()[5]);
        assert(rows.deep_view()[6] =~= world_rows()[6]);
        assert(rows.deep_view()[7] =~= world_rows()[7]);
        assert(rows.deep_view()[8] =~= world_rows()[8]);
        assert(rows.deep_view()[9] =~= world_rows()[9]);
        assert(rows.deep_view()[10] =~= world_rows()[10]);
        assert(rows.deep_view()[11] =~= world_rows()[11]);
        assert(rows.deep_view()[12] =~= world_rows()[12]);
        assert(rows.deep_view()[13] =~= world_rows()[13]);
        assert(rows.deep_view()[14] =~= world_rows()[14]);
        assert(rows.deep_view()[15] =~= world_rows()[15]);
        assert(rows.deep_view()[16] =~= world_rows()[16]);
        assert(rows.deep_view()[17] =~= world_rows()[17]);
        assert(rows.deep_view()[18] =~= world_rows()[18]);
        assert(rows.deep_view()[19] =~= world_rows()[19]);
        assert(rows.deep_view() =~= world_rows());
    }
    Area::from(rows)
}

/// What a frame hands to the drawing code: the visible tiles and the two
/// corners of the source and destination rectangles of the final blit.
pub struct FramePlan {
    /// The visible `VISIBLE_ROWS` by `VISIBLE_COLUMNS` tiles, row after row,
    /// or `None` when the camera stands outside the world map.
    pub tiles: Option<Vec<i32>>,
    pub src_min: (i32, i32, i32),
    pub src_max: (i32, i32, i32),
    pub dst_min: (i32, i32, i32),
    pub dst_max: (i32, i32, i32),
}

/// The renderer's state, as the proofs see it.
pub struct ScrollView {
    /// Frames drawn so far.
    pub ticks: int,
    /// Camera column, in tiles.
    pub x: int,
    /// Camera row, in tiles.
    pub y: int,
    /// Whether the camera moves toward larger columns and rows.
    pub forward: bool,
}

impl ScrollView {
    /// The state of a renderer that has drawn nothing yet.
    pub open spec fn initial() -> ScrollView {
        ScrollView { ticks: 0, x: 0, y: 0, forward: true }
    }

    /// The states a renderer can reach: the camera moves on the diagonal
    /// between -1 and 4, turning back at both ends.
    pub open spec fn wf(self) -> bool {
        &&& 0 <= self.ticks <= u64::MAX
        &&& -1 <= self.x <= 4
        &&& self.y == self.x
        &&& self.x == 4 ==> !self.forward
        &&& self.x == -1 ==> self.forward
    }

    /// Whether the frame that brings the count to `self.ticks + 1` moves the camera.
    pub open spec fn moves(self) -> bool {
        (self.ticks + 1) % 160 == 0
    }

    /// The state after one more frame.
    pub open spec fn step(self) -> ScrollView {
        let t = self.ticks + 1;
        let n: int = if self.forward { 1 } else { -1 };
        let x = if self.moves() { self.x + n } else { self.x };
        let y = if self.moves() { self.y + n } else { self.y };
        let forward = if x + 16 >= 20 {
            false
        } else if x < 0 {
            true
        } else {
            self.forward
        };
        ScrollView { ticks: t, x, y, forward }
    }

    /// The pixel offset of the source rectangle in the frame that follows `self`.
    pub open spec fn offset(self) -> int {
        let o = ((self.ticks + 1) / 10) % 16;
        if self.forward {
            o
        } else {
            16 - o
        }
    }
}

/// The tiles under a camera at column `x`, row `y`, row after row, or `None`
/// where such a window does not lie on the world map.
pub open spec fn visible_tiles(x: int, y: int) -> Option<Seq<i32>> {
    if 0 <= x && x + VISIBLE_COLUMNS <= 20 && 0 <= y && y + VISIBLE_ROWS <= 20 {
        Some(grid_slice(edited_world(), x, x + VISIBLE_COLUMNS, y, y + VISIBLE_ROWS).flatten())
    } else {
        None
    }
}

/// The per-frame state of the renderer.
pub struct RenderThing {
    ticks: u64,
    camera: (i32, i32),
    forward: bool,
}

impl View for RenderThing {
    type V = ScrollView;

    closed spec fn view(&self) -> ScrollView {
        ScrollView {
            ticks: self.ticks as int,
            x: self.camera.0 as int,
            y: self.camera.1 as int,
            forward: self.forward,
        }
    }
}

/// A renderer that has drawn nothing yet: camera at the top-left corner,
/// moving forward.
pub fn new() -> (r: RenderThing)
    ensures
        r@ == ScrollView::initial(),
        r@.wf(),
{
    RenderThing { ticks: 0, camera: (0, 0), forward: true }
}

impl RenderThing {
    /// Frames drawn so far.
    pub fn ticks(&self) -> (t: u64)
        ensures
            t == self@.ticks,
    {
        self.ticks
    }

    /// Camera position in tiles, column then row.
    pub fn camera(&self) -> (c: (i32, i32))
        ensures
            c.0 == self@.x,
            c.1 == self@.y,
    {
        self.camera
    }

    /// Whether the camera moves toward larger columns and rows.
    pub fn forward(&self) -> (f: bool)
        ensures
            f == self@.forward,
    {
        self.forward
    }

    /// Advances the renderer by one frame, for a window image of `swap_width`
    /// by `swap_height` pixels, and says what to draw.
    pub fn frame(&mut self, swap_width: i32, swap_height: i32) -> (plan: FramePlan)
        requires
            old(self)@.wf(),
            old(self)@.ticks < u64::MAX,
            letterbox_fits(swap_width as int, swap_height as int),
        ensures
            final(self)@ == old(self)@.step(),
            final(self)@.wf(),
            ({
                let s = old(self)@;
                let o = s.offset();
                &&& 0 <= o <= 16
                &&& plan.src_min == (o as i32, o as i32, 0i32)
                &&& plan.src_max == ((VIEW_WIDTH + o) as i32, (VIEW_HEIGHT + o) as i32, 1i32)
            }),
            ({
                let n = final(self)@;
                match (plan.tiles, visible_tiles(n.x, n.y)) {
                    (Some(t), Some(v)) => t@ == v,
                    (None, None) => true,
                    _ => false,
                }
            }),
            ({
                let sc = letterbox_scale(swap_width as int, swap_height as int);
                let org = letterbox_origin(swap_width as int, swap_height as int);
                &&& plan.dst_min == (org.0 as i32, org.1 as i32, 0i32)
                &&& plan.dst_max == ((org.0 + VIEW_WIDTH * sc) as i32, (org.1 + VIEW_HEIGHT * sc) as i32, 1i32)
            }),
    {
        self.ticks = self.ticks + 1;
        let mut offset: i32 = ((self.ticks / 10) % 16) as i32;
        if !self.forward {
            offset = 16 - offset;
        }
        if self.ticks % 160 == 0 {
            let n: i32 = if !self.forward { -1 } else { 1 };
            self.camera = (self.camera.0 + n, self.camera.1 + n);
        }
        if self.camera.0 + 16 >= 20 {
            self.forward = false;
        } else if self.camera.0 < 0 {
            self.forward = true;
        }
        let tiles = if self.camera.0 < 0 || self.camera.1 < 0 {
            None
        } else {
            let mut world = world_area();
            world.set_tile(2, 1, 0);
            let x = self.camera.0 as usize;
            let y = self.camera.1 as usize;
            match world.view_slice(x, x + 16, y, y + 11) {
                Some(view) => Some(view.tiles()),
                None => None,
            }
        };
        let (dst_min, dst_max) = letterbox(swap_width, swap_height);
        FramePlan {
            tiles,
            src_min: (offset, offset, 0),
            src_max: (240 + offset, 160 + offset, 1),
            dst_min,
            dst_max,
        }
    }
}

/// Every frame keeps the renderer among its reachable states.
pub proof fn lemma_step_keeps_wf(s: ScrollView)
    requires
        s.wf(),
        s.ticks < u64::MAX,
    ensures
        s.step().wf(),
{
}

/// Flattening rows that all have `c` entries gives `rows.len() * c` entries.
proof fn lemma_flatten_len(rows: Seq<Seq<i32>>, c: int)
    requires
        0 <= c,
        forall|i: int| 0 <= i < rows.len() ==> (#[trigger] rows[i]).len() == c,
    ensures
        rows.flatten().len() == rows.len() * c,
    decreases rows.len(),
{
    if rows.len() > 0 {
        let rest = rows.drop_first();
        assert forall|i: int| 0 <= i < rest.len() implies (#[trigger] rest[i]).len() == c by {
            assert(rest[i] == rows[i + 1]);
        }
        lemma_flatten_len(rest, c);
        assert(rows.len() * c == c + rest.len() * c) by (nonlinear_arith)
            requires
                rest.len() == rows.len() - 1,
        ;
    }
}

/// Whenever the camera stands on the world map, the shader gets exactly
/// `VISIBLE_ROWS` rows of `VISIBLE_COLUMNS` tiles, and tile `c` of row `r`
/// is the edited world's tile in column `x + c` of row `y + r`.
pub proof fn lemma_visible_tiles_shape(x: int, y: int)
    requires
        visible_tiles(x, y) is Some,
    ensures
        visible_tiles(x, y)->0.len() == VISIBLE_ROWS * VISIBLE_COLUMNS,
        ({
            let g = grid_slice(edited_world(), x, x + VISIBLE_COLUMNS, y, y + VISIBLE_ROWS);
            forall|r: int, c: int| 0 <= r < VISIBLE_ROWS && 0 <= c < VISIBLE_COLUMNS
                ==> #[trigger] g[r][c] == edited_world()[y + r][x + c]
        }),
{
    let w = edited_world();
    let g = grid_slice(w, x, x + VISIBLE_COLUMNS, y, y + VISIBLE_ROWS);
    assert forall|i: int| 0 <= i < g.len() implies (#[trigger] g[i]).len() == VISIBLE_COLUMNS by {
        assert(w[y + i].len() == 20);
    }
    lemma_flatten_len(g, VISIBLE_COLUMNS as int);
}

/// In one frame the camera moves along the diagonal by at most one tile: by
/// one tile in its direction exactly when the new frame count is a multiple
/// of 160, at every frame count, and not at all otherwise; it turns back
/// when its right edge reaches the map's last column or it has left the map
/// on the top-left side.
pub proof fn lemma_camera_motion(s: ScrollView)
    requires
        s.wf(),
        s.ticks < u64::MAX,
    ensures
        ({
            let n = s.step();
            &&& n.ticks == s.ticks + 1
            &&& n.y == n.x
            &&& ((s.ticks + 1) % 160 == 0 && s.forward) ==> n.x == s.x + 1
            &&& ((s.ticks + 1) % 160 == 0 && !s.forward) ==> n.x == s.x - 1
            &&& (s.ticks + 1) % 160 != 0 ==> n.x == s.x && n.y == s.y
            &&& (n.x != s.x <==> (s.ticks + 1) % 160 == 0)
            &&& n.x == 4 ==> !n.forward
            &&& n.x == -1 ==> n.forward
            &&& (0 <= n.x <= 3 ==> n.forward == s.forward)
        }),
{
}

/// Two renderers at the same frame count that differ only in direction
/// stand at mirrored offsets: forward the offset is the number of whole
/// tens of frames modulo 16, backward it is 16 minus that; so the two add
/// up to 16, and the offset lies between 0 and 16.
pub proof fn lemma_offset_mirrors(s: ScrollView, ahead: ScrollView, back: ScrollView)
    requires
        ahead.ticks == s.ticks,
        ahead.forward,
        back.ticks == s.ticks,
        !back.forward,
    ensures
        s.forward ==> s.offset() == ((s.ticks + 1) / 10) % 16,
        !s.forward ==> s.offset() == 16 - ((s.ticks + 1) / 10) % 16,
        ahead.offset() + back.offset() == 16,
        0 <= s.offset() <= 16,
{
}

/// In every reachable state the shader has tiles to show exactly when the
/// camera's column is not negative.
pub proof fn lemma_tiles_iff_on_map(s: ScrollView)
    requires
        s.wf(),
    ensures
        visible_tiles(s.x, s.y) is Some <==> s.x >= 0,
{
}

/// The frame's edit of the world map clears exactly one tile, the one in
/// column 2 of row 1, and leaves the map's shape and every other tile as
/// they were.
pub proof fn lemma_edit_clears_one_tile(r: int, c: int)
    requires
        0 <= r < 20,
        0 <= c < 20,
    ensures
        edited_world().len() == 20,
        edited_world()[r].len() == 20,
        edited_world()[r][c] == if r == 1 && c == 2 { 0i32 } else { world_rows()[r][c] },
{
    assert(world_rows()[r].len() == 20);
}

/// `trunc_div` is division that rounds toward zero: the remainder it leaves
/// is smaller than the divisor and has the sign of the dividend.
pub proof fn lemma_trunc_div_rounds_toward_zero(a: int, d: int)
    requires
        d > 0,
    ensures
        a >= 0 ==> 0 <= a - d * trunc_div(a, d) < d,
        a < 0 ==> -d < a - d * trunc_div(a, d) <= 0,
{
    let q = trunc_div(a, d);
    if a >= 0 {
        assert(0 <= a - d * (a / d) < d) by (nonlinear_arith)
            requires
                d > 0,
                a >= 0,
        ;
    } else {
        let b = -a;
        assert(0 <= b - d * (b / d) < d) by (nonlinear_arith)
            requires
                d > 0,
                b > 0,
        ;
        assert(a - d * q == -(b - d * (b / d))) by (nonlinear_arith)
            requires
                q == -(b / d),
                a == -b,
        ;
    }
}

/// The scale of the letterbox is the smaller of the two whole ratios of the
/// window's sides to the view's sides, each rounded toward zero.
pub proof fn lemma_letterbox_scale_is_smaller_ratio(w: int, h: int)
    ensures
        letterbox_scale(w, h) <= trunc_div(w, 240),
        letterbox_scale(w, h) <= trunc_div(h, 160),
        letterbox_scale(w, h) == trunc_div(w, 240) || letterbox_scale(w, h) == trunc_div(h, 160),
{
}

} // verus!
