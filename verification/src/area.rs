//! A rectangular map of tile numbers, addressed by column `x` and row `y`.
use vstd::prelude::*;

verus! {

broadcast use vstd::seq_lib::group_seq_properties;

/// True when every row of `rows` has the length of the first row.
pub open spec fn is_grid(rows: Seq<Seq<i32>>) -> bool {
    forall|i: int| 0 <= i < rows.len() ==> (#[trigger] rows[i]).len() == rows[0].len()
}

/// Number of columns of a grid (zero for a grid without rows).
pub open spec fn grid_width(rows: Seq<Seq<i32>>) -> nat {
    if rows.len() == 0 {
        0
    } else {
        rows[0].len()
    }
}

/// The rows `y_start..y_end` of `rows`, each cut down to the columns `x_start..x_end`.
pub open spec fn grid_slice(
    rows: Seq<Seq<i32>>,
    x_start: int,
    x_end: int,
    y_start: int,
    y_end: int,
) -> Seq<Seq<i32>> {
    Seq::new(
        (y_end - y_start) as nat,
        |r: int| rows[y_start + r].subrange(x_start, x_end),
    )
}

/// A tile map: a grid of tile numbers stored row by row.
pub struct Area {
    rows: Vec<Vec<i32>>,
}

impl View for Area {
    type V = Seq<Seq<i32>>;

    closed spec fn view(&self) -> Seq<Seq<i32>> {
        self.rows.deep_view()
    }
}

impl Area {
    /// Builds a tile map from its rows, the first row being the top one.
    pub fn from(rows: Vec<Vec<i32>>) -> (area: Area)
        requires
            is_grid(rows.deep_view()),
        ensures
            area@ == rows.deep_view(),
    {
        Area { rows }
    }

    /// Number of columns.
    pub fn width(&self) -> (w: usize)
        requires
            is_grid(self@),
        ensures
            w == grid_width(self@),
    {
        if self.rows.len() == 0 {
            0
        } else {
            self.rows[0].len()
        }
    }

    /// Number of rows.
    pub fn height(&self) -> (h: usize)
        ensures
            h == self@.len(),
    {
        self.rows.len()
    }

    /// The tile in column `x` of row `y`.
    pub fn tile(&self, x: usize, y: usize) -> (t: i32)
        requires
            is_grid(self@),
            y < self@.len(),
            x < grid_width(self@),
        ensures
            t == self@[y as int][x as int],
    {
        let row = &self.rows[y];
        proof {
            assert(self@[y as int] == row@);
        }
        row[x]
    }

    /// Replaces the tile in column `x` of row `y` by `tile`.
    pub fn set_tile(&mut self, x: usize, y: usize, tile: i32)
        requires
            is_grid(old(self)@),
            y < old(self)@.len(),
            x < grid_width(old(self)@),
        ensures
            final(self)@ == old(self)@.update(y as int, old(self)@[y as int].update(x as int, tile)),
            is_grid(final(self)@),
    {
        let ghost before = self@;
        let mut row = self.rows.remove(y);
        proof {
            assert(row@ == before[y as int]);
        }
        row.set(x, tile);
        self.rows.insert(y, row);
        proof {
            let after = before.update(y as int, before[y as int].update(x as int, tile));
            assert(self@.len() == after.len());
            assert forall|i: int| 0 <= i < after.len() implies #[trigger] self@[i] == after[i] by {
                if i < y {
                    assert(self.rows@[i] == old(self).rows@[i]);
                } else if i > y {
                    assert(self.rows@[i] == old(self).rows@[i]);
                }
            }
            assert(self@ =~= after);
        }
    }

    /// The part of the map made of the columns `x_start..x_end` of the rows
    /// `y_start..y_end`, or `None` where those ranges are reversed or leave the map.
    pub fn view_slice(&self, x_start: usize, x_end: usize, y_start: usize, y_end: usize) -> (res:
        Option<Area>)
        requires
            is_grid(self@),
        ensures
            res is Some <==> (x_start <= x_end <= grid_width(self@) && y_start <= y_end
                <= self@.len()),
            res matches Some(s) ==> s@ == grid_slice(
                self@,
                x_start as int,
                x_end as int,
                y_start as int,
                y_end as int,
            ),
            res matches Some(s) ==> is_grid(s@),
    {
        let width = self.width();
        if !(x_start <= x_end && x_end <= width && y_start <= y_end && y_end <= self.rows.len()) {
            return None;
        }
        let ghost whole = self@;
        let ghost want = grid_slice(whole, x_start as int, x_end as int, y_start as int, y_end as int);
        let mut out: Vec<Vec<i32>> = Vec::new();
        let mut y = y_start;
        while y < y_end
            invariant
                y_start <= y <= y_end,
                y_end <= whole.len(),
                x_start <= x_end <= width,
                width == grid_width(whole),
                whole == self@,
                is_grid(whole),
                want == grid_slice(whole, x_start as int, x_end as int, y_start as int, y_end as int),
                out.deep_view() =~= want.take(y - y_start),
            decreases y_end - y,
        {
            let src = &self.rows[y];
            proof {
                assert(src@ == whole[y as int]);
            }
            let mut row: Vec<i32> = Vec::new();
            let mut x = x_start;
            while x < x_end
                invariant
                    x_start <= x <= x_end,
                    x_end <= src@.len(),
                    row@ =~= src@.subrange(x_start as int, x as int),
                decreases x_end - x,
            {
                row.push(src[x]);
                x = x + 1;
            }
            let ghost before = out.deep_view();
            let ghost pushed = row.deep_view();
            let ghost row_view = row@;
            out.push(row);
            proof {
                assert(pushed =~= row_view);
                assert(out.deep_view() =~= before.push(pushed));
                assert(want[y - y_start] == whole[y as int].subrange(x_start as int, x_end as int));
                assert(want.take(y - y_start + 1) =~= want.take(y - y_start).push(want[y - y_start]));
            }
            y = y + 1;
        }
        proof {
            assert(want.take(y_end - y_start) =~= want);
        }
        let s = Area { rows: out };
        Some(s)
    }

    /// All tiles, row after row from the top row down.
    pub fn tiles(&self) -> (values: Vec<i32>)
        ensures
            values@ == self@.flatten(),
    {
        let ghost whole = self@;
        let mut out: Vec<i32> = Vec::new();
        let mut y: usize = 0;
        while y < self.rows.len()
            invariant
                y <= self.rows.len(),
                whole == self@,
                whole.len() == self.rows.len(),
                out@ =~= whole.take(y as int).flatten(),
            decreases self.rows.len() - y,
        {
            let src = &self.rows[y];
            proof {
                assert(src@ == whole[y as int]);
            }
            let ghost prefix = out@;
            let mut x: usize = 0;
            while x < src.len()
                invariant
                    x <= src@.len(),
                    out@ =~= prefix + src@.take(x as int),
                decreases src@.len() - x,
            {
                out.push(src[x]);
                x = x + 1;
            }
            proof {
                assert(src@.take(src@.len() as int) =~= src@);
                assert(whole.take(y + 1) =~= whole.take(y as int).push(whole[y as int]));
                whole.take(y as int).lemma_flatten_push(whole[y as int]);
            }
            y = y + 1;
        }
        proof {
            assert(whole.take(whole.len() as int) =~= whole);
        }
        out
    }
}

/// Reading a tile back after `set_tile` gives the tile written there, and
/// every other tile as it was; the map keeps its shape.
pub proof fn lemma_set_tile_then_read(rows: Seq<Seq<i32>>, x: int, y: int, tile: i32, x2: int, y2: int)
    requires
        is_grid(rows),
        0 <= y < rows.len(),
        0 <= x < grid_width(rows),
        0 <= y2 < rows.len(),
        0 <= x2 < grid_width(rows),
    ensures
        ({
            let after = rows.update(y, rows[y].update(x, tile));
            &&& is_grid(after)
            &&& after.len() == rows.len()
            &&& grid_width(after) == grid_width(rows)
            &&& after[y2][x2] == if x2 == x && y2 == y { tile } else { rows[y2][x2] }
        }),
{
    let after = rows.update(y, rows[y].update(x, tile));
    assert(rows[y2].len() == rows[0].len());
    assert(rows[y].len() == rows[0].len());
}

/// Tile `c` of row `r` of a slice is the tile in column `x_start + c` of row
/// `y_start + r` of the whole map, and the slice is a grid of
/// `y_end - y_start` rows of `x_end - x_start` tiles.
pub proof fn lemma_slice_tiles(rows: Seq<Seq<i32>>, x_start: int, x_end: int, y_start: int, y_end: int, r: int, c: int)
    requires
        is_grid(rows),
        0 <= x_start <= x_end <= grid_width(rows),
        0 <= y_start <= y_end <= rows.len(),
        0 <= r < y_end - y_start,
        0 <= c < x_end - x_start,
    ensures
        ({
            let s = grid_slice(rows, x_start, x_end, y_start, y_end);
            &&& is_grid(s)
            &&& s.len() == y_end - y_start
            &&& s[r].len() == x_end - x_start
            &&& s[r][c] == rows[y_start + r][x_start + c]
        }),
{
    let s = grid_slice(rows, x_start, x_end, y_start, y_end);
    assert(rows[y_start + r].len() == rows[0].len());
    assert forall|i: int| 0 <= i < s.len() implies (#[trigger] s[i]).len() == s[0].len() by {
        assert(rows[y_start + i].len() == rows[0].len());
        assert(rows[y_start].len() == rows[0].len());
    }
}

/// The width of a non-empty grid is the length of its rows, every one of
/// them, with no cap; so a slice is refused exactly when its ranges are
/// reversed or pass the end of the rows or of the grid.
pub proof fn lemma_width_is_row_length(rows: Seq<Seq<i32>>, i: int, x_start: int, x_end: int, y_start: int, y_end: int)
    requires
        is_grid(rows),
        0 <= i < rows.len(),
    ensures
        grid_width(rows) == rows[i].len(),
        grid_width(rows) == rows[0].len(),
        (x_start <= x_end <= grid_width(rows) && y_start <= y_end <= rows.len())
            <==> (x_start <= x_end <= rows[i].len() && y_start <= y_end <= rows.len()),
{
}

/// An empty grid has width zero.
pub proof fn lemma_empty_width(rows: Seq<Seq<i32>>)
    requires
        rows.len() == 0,
    ensures
        grid_width(rows) == 0,
{
}

} // verus!
