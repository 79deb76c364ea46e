//! Tile maps: grids of tile ids, the two built-in locations, and which
//! tileset cell is drawn at which grid cell.

use vstd::prelude::*;

verus! {

/// A grid of tile ids, row by row; id `t` is cell `t` of the tileset,
/// counted row by row.
pub struct TileMap {
    pub tiles: Vec<Vec<u32>>,
}

/// One tile to draw: grid cell (`column`, `row`) shows tileset cell
/// (`src_column`, `src_row`).
#[derive(Debug, Clone, Copy, PartialEq, Eq, Structural)]
pub struct TileDraw {
    pub column: usize,
    pub row: usize,
    pub src_column: u32,
    pub src_row: u32,
}

/// The grid of a map as sequences of tile ids.
pub open spec fn grid(tiles: Seq<Vec<u32>>) -> Seq<Seq<u32>> {
    tiles.map_values(|r: Vec<u32>| r@)
}

/// The tiles of grid row `y`, left to right, for a tileset `n` cells wide.
pub open spec fn row_plan(row: Seq<u32>, y: int, n: u32) -> Seq<TileDraw> {
    Seq::new(
        row.len(),
        |x: int|
            TileDraw {
                column: x as usize,
                row: y as usize,
                src_column: (row[x] % n) as u32,
                src_row: (row[x] / n) as u32,
            },
    )
}

/// The tiles of all rows of `g`, top to bottom, for a tileset `n` cells wide.
pub open spec fn grid_plan(g: Seq<Seq<u32>>, n: u32) -> Seq<TileDraw>
    decreases g.len(),
{
    if g.len() == 0 {
        Seq::empty()
    } else {
        grid_plan(g.drop_last(), n) + row_plan(g.last(), g.len() - 1, n)
    }
}

/// What drawing a map draws: nothing for an empty map, a map whose first
/// row is empty, or a tileset narrower than one cell; otherwise every tile
/// of every row, row by row.
pub open spec fn draw_plan(g: Seq<Seq<u32>>, n: u32) -> Seq<TileDraw> {
    if g.len() == 0 || g[0].len() == 0 || n == 0 {
        Seq::empty()
    } else {
        grid_plan(g, n)
    }
}

/// The apartment: a room walled in by tile 1, with a 2×2 block of tile 2.
pub open spec fn apartment_grid() -> Seq<Seq<u32>> {
    seq![
        seq![1u32, 1, 1, 1, 1, 1, 1, 1, 1, 1],
        seq![1u32, 0, 0, 0, 0, 0, 0, 0, 0, 1],
        seq![1u32, 0, 2, 2, 0, 0, 0, 0, 0, 1],
        seq![1u32, 0, 2, 2, 0, 0, 0, 0, 0, 1],
        seq![1u32, 0, 0, 0, 0, 0, 0, 0, 0, 1],
        seq![1u32, 1, 1, 1, 1, 1, 1, 1, 1, 1],
    ]
}

/// The street: kerbs (4) and pavement (5) on both sides of a road (3).
pub open spec fn street_grid() -> Seq<Seq<u32>> {
    seq![
        seq![4u32, 4, 4, 4, 4, 4, 4, 4],
        seq![5u32, 5, 5, 5, 5, 5, 5, 5],
        seq![3u32, 3, 3, 3, 3, 3, 3, 3],
        seq![3u32, 3, 3, 3, 3, 3, 3, 3],
        seq![5u32, 5, 5, 5, 5, 5, 5, 5],
        seq![4u32, 4, 4, 4, 4, 4, 4, 4],
    ]
}

proof fn lemma_grid_plan_step(g: Seq<Seq<u32>>, y: int, n: u32)
    requires
        0 <= y < g.len(),
    ensures
        grid_plan(g.take(y + 1), n) == grid_plan(g.take(y), n) + row_plan(g[y], y, n),
{
    assert(g.take(y + 1).drop_last() =~= g.take(y));
    assert(g.take(y + 1).last() == g[y]);
}

/// Every row of `g` is `w` tiles long.
pub open spec fn is_rectangular(g: Seq<Seq<u32>>, w: int) -> bool {
    forall|y: int| 0 <= y < g.len() ==> #[trigger] g[y].len() == w
}

/// A rectangular map is drawn cell by cell, row by row: one tile per grid
/// cell, the cell (`x`, `y`) at position `y * w + x`, showing the tileset
/// cell of its id.
pub proof fn lemma_rectangular_plan(g: Seq<Seq<u32>>, w: int, n: u32)
    requires
        is_rectangular(g, w),
        w >= 0,
        n > 0,
    ensures
        grid_plan(g, n).len() == g.len() * w,
        forall|y: int, x: int|
            #![trigger g[y][x]]
            0 <= y < g.len() && 0 <= x < w ==> grid_plan(g, n)[y * w + x] == (TileDraw {
                column: x as usize,
                row: y as usize,
                src_column: (g[y][x] % n) as u32,
                src_row: (g[y][x] / n) as u32,
            }),
    decreases g.len(),
{
    if g.len() > 0 {
        let h = g.len() - 1;
        let g0 = g.drop_last();
        assert(is_rectangular(g0, w)) by {
            assert forall|y: int| 0 <= y < g0.len() implies #[trigger] g0[y].len() == w by {
                assert(g0[y] == g[y]);
            }
        }
        lemma_rectangular_plan(g0, w, n);
        assert(g.last().len() == w);
        assert(h * w + w == g.len() * w) by (nonlinear_arith)
            requires
                h == g.len() - 1,
        ;
        assert forall|y: int, x: int| 0 <= y < g.len() && 0 <= x < w implies grid_plan(g, n)[y
            * w + x] == (TileDraw {
            column: x as usize,
            row: y as usize,
            src_column: (g[y][x] % n) as u32,
            src_row: (g[y][x] / n) as u32,
        }) by {
            if y < h {
                assert(y * w + x < h * w) by (nonlinear_arith)
                    requires
                        0 <= y < h,
                        0 <= x < w,
                ;
                assert(0 <= y * w) by (nonlinear_arith)
                    requires
                        0 <= y,
                        0 <= w,
                ;
                assert(g0[y] == g[y]);
                assert(g0[y][x] == g[y][x]);
            } else {
                assert(y == h);
                assert(g.last() == g[y]);
            }
        }
    }
}

impl TileMap {
    /// A map made of the given rows.
    pub fn new(tiles: Vec<Vec<u32>>) -> (m: Self)
        ensures
            m.tiles == tiles,
    {
        TileMap { tiles }
    }

    /// Which tileset cell to draw at each grid cell, for a tileset
    /// `tiles_per_row` cells wide (see `draw_plan`).
    pub fn tiles_to_draw(&self, tiles_per_row: u32) -> (plan: Vec<TileDraw>)
        ensures
            plan@ == draw_plan(grid(self.tiles@), tiles_per_row),
    {
        let ghost g = grid(self.tiles@);
        let mut plan: Vec<TileDraw> = Vec::new();
        if self.tiles.len() == 0 || self.tiles[0].len() == 0 {
            return plan;
        }
        if tiles_per_row == 0 {
            return plan;
        }
        let rows = self.tiles.len();
        let mut y: usize = 0;
        assert(g.take(0) =~= Seq::<Seq<u32>>::empty());
        while y < rows
            invariant
                rows == self.tiles@.len(),
                g == grid(self.tiles@),
                g.len() == rows,
                tiles_per_row > 0,
                y <= rows,
                plan@ == grid_plan(g.take(y as int), tiles_per_row),
            decreases rows - y,
        {
            let row = &self.tiles[y];
            let cols = row.len();
            let mut x: usize = 0;
            assert(g[y as int] == row@);
            while x < cols
                invariant
                    rows == self.tiles@.len(),
                    g == grid(self.tiles@),
                    g.len() == rows,
                    y < rows,
                    tiles_per_row > 0,
                    cols == row@.len(),
                    g[y as int] == row@,
                    x <= cols,
                    plan@ == grid_plan(g.take(y as int), tiles_per_row) + row_plan(
                        row@,
                        y as int,
                        tiles_per_row,
                    ).take(x as int),
                decreases cols - x,
            {
                let tile_id = row[x];
                let cell = TileDraw {
                    column: x,
                    row: y,
                    src_column: tile_id % tiles_per_row,
                    src_row: tile_id / tiles_per_row,
                };
                let ghost before = plan@;
                plan.push(cell);
                assert(row_plan(row@, y as int, tiles_per_row).take(x + 1) =~= row_plan(
                    row@,
                    y as int,
                    tiles_per_row,
                ).take(x as int).push(cell));
                assert(plan@ =~= grid_plan(g.take(y as int), tiles_per_row) + row_plan(
                    row@,
                    y as int,
                    tiles_per_row,
                ).take(x + 1));
                x = x + 1;
            }
            assert(row_plan(row@, y as int, tiles_per_row).take(cols as int) =~= row_plan(
                row@,
                y as int,
                tiles_per_row,
            ));
            proof {
                lemma_grid_plan_step(g, y as int, tiles_per_row);
            }
            y = y + 1;
        }
        assert(g.take(rows as int) =~= g);
        plan
    }
}

/// The apartment map.
pub fn create_apartment_map() -> (m: TileMap)
    ensures
        grid(m.tiles@) == apartment_grid(),
{
    let m = TileMap::new(
        vec![
            vec![1, 1, 1, 1, 1, 1, 1, 1, 1, 1],
            vec![1, 0, 0, 0, 0, 0, 0, 0, 0, 1],
            vec![1, 0, 2, 2, 0, 0, 0, 0, 0, 1],
            vec![1, 0, 2, 2, 0, 0, 0, 0, 0, 1],
            vec![1, 0, 0, 0, 0, 0, 0, 0, 0, 1],
            vec![1, 1, 1, 1, 1, 1, 1, 1, 1, 1],
        ],
    );
    assert(grid(m.tiles@) =~= apartment_grid());
    m
}

/// The street map.
pub fn create_street_map() -> (m: TileMap)
    ensures
        grid(m.tiles@) == street_grid(),
{
    let m = TileMap::new(
        vec![
            vec![4, 4, 4, 4, 4, 4, 4, 4],
            vec![5, 5, 5, 5, 5, 5, 5, 5],
            vec![3, 3, 3, 3, 3, 3, 3, 3],
            vec![3, 3, 3, 3, 3, 3, 3, 3],
            vec![5, 5, 5, 5, 5, 5, 5, 5],
            vec![4, 4, 4, 4, 4, 4, 4, 4],
        ],
    );
    assert(grid(m.tiles@) =~= street_grid());
    m
}

/// Nothing is drawn for an empty map, a map whose first row is empty, or a
/// tileset narrower than one cell; a rectangular map of width `w > 0` with a
/// real tileset is drawn with one tile per cell.
pub proof fn lemma_plan_size(g: Seq<Seq<u32>>, w: int, n: u32)
    ensures
        g.len() == 0 || g[0].len() == 0 || n == 0 ==> draw_plan(g, n).len() == 0,
        is_rectangular(g, w) && w > 0 && n > 0 ==> draw_plan(g, n).len() == g.len() * w,
{
    if is_rectangular(g, w) && w > 0 && n > 0 {
        lemma_rectangular_plan(g, w, n);
        if g.len() > 0 {
            assert(g[0].len() == w);
        }
    }
}

/// The apartment is a 6 × 10 room walled in by tile 1 on every side; the
/// street is 6 × 8 and the same seen from either kerb: row `y` equals row
/// `5 - y`, and each row is a single kind of tile.
pub proof fn lemma_built_in_maps()
    ensures
        apartment_grid().len() == 6,
        is_rectangular(apartment_grid(), 10),
        forall|y: int, x: int|
            0 <= y < 6 && 0 <= x < 10 && (y == 0 || y == 5 || x == 0 || x == 9)
                ==> #[trigger] apartment_grid()[y][x] == 1,
        street_grid().len() == 6,
        is_rectangular(street_grid(), 8),
        forall|y: int| 0 <= y < 6 ==> #[trigger] street_grid()[y] == street_grid()[5 - y],
        forall|y: int, x: int|
            0 <= y < 6 && 0 <= x < 8 ==> #[trigger] street_grid()[y][x] == street_grid()[y][0],
{
    let a = apartment_grid();
    let st = street_grid();
    assert forall|y: int, x: int|
        0 <= y < 6 && 0 <= x < 10 && (y == 0 || y == 5 || x == 0 || x == 9) implies #[trigger] a[y][x]
        == 1 by {
        if y == 0 {
        } else if y == 1 {
        } else if y == 2 {
        } else if y == 3 {
        } else if y == 4 {
        } else {
        }
    }
    assert forall|y: int, x: int| 0 <= y < 6 && 0 <= x < 8 implies #[trigger] st[y][x] == st[y][0] by {
        if y == 0 {
        } else if y == 1 {
        } else if y == 2 {
        } else if y == 3 {
        } else if y == 4 {
        } else {
        }
    }
}

} // verus!
