//! The scenery scatter: one tile per grid cell, and in some cells a
//! decoration near the cell's center.

use crate::config::{GridConfig, GridModel, ScatterConfig, ScatterModel, PROBABILITY_SCALE};
use crate::geometry::Point;
use crate::random::RandomSource;
use crate::scatter_laws::{
    lemma_cell_coordinates, lemma_cell_inside, lemma_cell_number_bound, lemma_scatter_laws,
    lemma_scatter_step,
};
use vstd::prelude::*;

verus! {

/// What a placement puts on the ground.
#[derive(Clone, Copy, Debug, PartialEq, Eq, Structural)]
pub enum PlacementKind {
    Tile,
    Decoration,
}

/// One object of the scene and where it stands.
#[derive(Clone, Copy, Debug, PartialEq, Eq, Structural)]
pub struct Placement {
    pub kind: PlacementKind,
    pub position: Point,
}

/// The random draws of one cell: `roll` decides whether the cell is
/// decorated, the jitters move the decoration away from the cell's center.
#[derive(Clone, Copy, Debug, PartialEq, Eq, Structural)]
pub struct CellDraw {
    pub roll: u32,
    pub jitter_x: i64,
    pub jitter_z: i64,
}

/// The x coordinate of the cell with number `cell`, cells being numbered row
/// by row: x outside, z inside.
pub open spec fn cell_x(grid: GridModel, cell: int) -> int {
    cell / (grid.map_size as int)
}

/// The z coordinate of the cell with number `cell`.
pub open spec fn cell_z(grid: GridModel, cell: int) -> int {
    cell % (grid.map_size as int)
}

/// The tile of the cell `cell`: it lies at the cell's origin.
pub open spec fn tile_at(grid: GridModel, cell: int) -> Placement {
    Placement {
        kind: PlacementKind::Tile,
        position: Point::at(
            cell_x(grid, cell) * grid.tile_size,
            cell_z(grid, cell) * grid.tile_size,
        ),
    }
}

/// The decoration of the cell `cell` under `draw`: it lies at the cell's
/// center, moved by the jitter of the draw. The center is the cell's origin
/// plus half the tile size on both axes, the half rounded down to a whole
/// position unit.
pub open spec fn decoration_at(grid: GridModel, cell: int, draw: CellDraw) -> Placement {
    Placement {
        kind: PlacementKind::Decoration,
        position: Point::at(
            cell_x(grid, cell) * grid.tile_size + grid.tile_size / 2 + draw.jitter_x,
            cell_z(grid, cell) * grid.tile_size + grid.tile_size / 2 + draw.jitter_z,
        ),
    }
}

/// Whether a cell with this draw gets a decoration.
pub open spec fn decorates(scatter: ScatterModel, draw: CellDraw) -> bool {
    draw.roll < scatter.decoration_probability
}

/// Whether `draw` is one that the scatter can draw: a roll below the scale
/// and jitters within the range.
pub open spec fn admissible(scatter: ScatterModel, draw: CellDraw) -> bool {
    &&& draw.roll < PROBABILITY_SCALE
    &&& -scatter.jitter_range <= draw.jitter_x <= scatter.jitter_range
    &&& -scatter.jitter_range <= draw.jitter_z <= scatter.jitter_range
}

/// The values that the draw of one cell takes from the source, in the order
/// in which it takes them: the roll, and for a cell that the roll decorates
/// the jitter along x and then the jitter along z.
pub open spec fn cell_values(scatter: ScatterModel, draw: CellDraw) -> Seq<i64> {
    if decorates(scatter, draw) {
        seq![draw.roll as i64, draw.jitter_x, draw.jitter_z]
    } else {
        seq![draw.roll as i64]
    }
}

/// The range that a roll is drawn from: the whole scale.
pub open spec fn roll_range() -> (i64, i64) {
    (0i64, (PROBABILITY_SCALE - 1) as i64)
}

/// The range that a jitter is drawn from: the jitter range to both sides of
/// zero.
pub open spec fn jitter_ranges(scatter: ScatterModel) -> (i64, i64) {
    ((-scatter.jitter_range) as i64, scatter.jitter_range as i64)
}

/// The ranges that the draw of one cell asks of the source, in the order in
/// which it asks them: the whole scale for the roll, and for a cell that the
/// roll decorates the jitter range twice, for x and then for z.
pub open spec fn cell_ranges(scatter: ScatterModel, draw: CellDraw) -> Seq<(i64, i64)> {
    if decorates(scatter, draw) {
        seq![roll_range(), jitter_ranges(scatter), jitter_ranges(scatter)]
    } else {
        seq![roll_range()]
    }
}

/// The ranges that the draws of the cells ask of the source, cell after cell
/// in the order of `draws`.
pub open spec fn ranges_of(scatter: ScatterModel, draws: Seq<CellDraw>) -> Seq<(i64, i64)>
    decreases draws.len(),
{
    if draws.len() == 0 {
        Seq::empty()
    } else {
        ranges_of(scatter, draws.drop_last()) + cell_ranges(scatter, draws.last())
    }
}

/// The values that the draws of the cells take from the source, cell after
/// cell in the order of `draws`.
pub open spec fn values_of(scatter: ScatterModel, draws: Seq<CellDraw>) -> Seq<i64>
    decreases draws.len(),
{
    if draws.len() == 0 {
        Seq::empty()
    } else {
        values_of(scatter, draws.drop_last()) + cell_values(scatter, draws.last())
    }
}

/// Whether `draws` holds one admissible draw for each cell of the grid.
pub open spec fn admissible_draws(
    grid: GridModel,
    scatter: ScatterModel,
    draws: Seq<CellDraw>,
) -> bool {
    &&& draws.len() == grid.cell_count()
    &&& forall|k: int| 0 <= k < draws.len() ==> admissible(scatter, #[trigger] draws[k])
}

/// What the cell `cell` contributes under `draw`: its tile, then its
/// decoration if it has one.
pub open spec fn cell_placements(
    grid: GridModel,
    scatter: ScatterModel,
    cell: int,
    draw: CellDraw,
) -> Seq<Placement> {
    if decorates(scatter, draw) {
        seq![tile_at(grid, cell), decoration_at(grid, cell, draw)]
    } else {
        seq![tile_at(grid, cell)]
    }
}

/// The placements of the first `draws.len()` cells, where the cell `k` has
/// the draw `draws[k]`.
pub open spec fn scatter_of(
    grid: GridModel,
    scatter: ScatterModel,
    draws: Seq<CellDraw>,
) -> Seq<Placement>
    decreases draws.len(),
{
    if draws.len() == 0 {
        Seq::empty()
    } else {
        scatter_of(grid, scatter, draws.drop_last()) + cell_placements(
            grid,
            scatter,
            draws.len() - 1,
            draws.last(),
        )
    }
}

/// The placements of `placements` that are of the kind `kind`, in their
/// order.
pub open spec fn of_kind(placements: Seq<Placement>, kind: PlacementKind) -> Seq<Placement> {
    placements.filter(|placement: Placement| placement.kind == kind)
}

/// The tiles of the first `cells` cells, in the order of the cell numbers.
pub open spec fn tiles_of_cells(grid: GridModel, cells: nat) -> Seq<Placement> {
    Seq::new(cells, |cell: int| tile_at(grid, cell))
}

/// The tiles of the whole grid: one for each cell.
pub open spec fn grid_tiles(grid: GridModel) -> Seq<Placement> {
    tiles_of_cells(grid, grid.cell_count())
}

/// Whether `decoration` lies, on each axis, at most `range` from the center
/// of the cell whose tile is `tile`.
pub open spec fn near_center(grid: GridModel, range: nat, tile: Placement, decoration: Placement) -> bool {
    let center_x = tile.position.x + grid.tile_size / 2;
    let center_z = tile.position.z + grid.tile_size / 2;
    &&& tile.kind == PlacementKind::Tile
    &&& center_x - range <= decoration.position.x <= center_x + range
    &&& center_z - range <= decoration.position.z <= center_z + range
}

/// Whether every decoration of `placements` comes directly after a tile and
/// lies at most `range` from the center of that tile's cell.
pub open spec fn decorations_near_centers(grid: GridModel, range: nat, placements: Seq<Placement>) -> bool {
    forall|i: int|
        0 <= i < placements.len() && (#[trigger] placements[i]).kind == PlacementKind::Decoration ==> {
            &&& i > 0
            &&& near_center(grid, range, placements[i - 1], placements[i])
        }
}

/// Whether every decoration of `placements` comes directly after a tile and
/// lies exactly at the center of that tile's cell.
pub open spec fn decorations_at_centers(grid: GridModel, placements: Seq<Placement>) -> bool {
    forall|i: int|
        0 <= i < placements.len() && (#[trigger] placements[i]).kind == PlacementKind::Decoration ==> {
            &&& i > 0
            &&& placements[i - 1].kind == PlacementKind::Tile
            &&& placements[i].position == placements[i - 1].position.shifted(
                grid.tile_size as int / 2,
                grid.tile_size as int / 2,
            )
        }
}

impl CellDraw {
    /// Whether the scatter can draw `self`.
    pub fn is_admissible(&self, scatter: &ScatterConfig) -> (yes: bool)
        ensures
            yes == admissible(scatter@, *self),
    {
        let range: i64 = scatter.jitter_range() as i64;
        self.roll < PROBABILITY_SCALE
            && -range <= self.jitter_x && self.jitter_x <= range
            && -range <= self.jitter_z && self.jitter_z <= range
    }

    /// Whether a cell with this draw gets a decoration.
    pub fn decorates(&self, scatter: &ScatterConfig) -> (yes: bool)
        ensures
            yes == decorates(scatter@, *self),
    {
        self.roll < scatter.decoration_probability()
    }
}

/// Draws for one cell: first the roll, then, only if the roll decorates the
/// cell, the jitter along x and the jitter along z. A cell without a
/// decoration has no jitter.
pub fn draw_cell(scatter: &ScatterConfig, source: &mut RandomSource) -> (draw: CellDraw)
    ensures
        admissible(scatter@, draw),
        !decorates(scatter@, draw) ==> draw.jitter_x == 0 && draw.jitter_z == 0,
        final(source)@.seed == old(source)@.seed,
        final(source)@.asked == old(source)@.asked + cell_ranges(scatter@, draw),
        final(source)@.drawn == old(source)@.drawn + cell_values(scatter@, draw),
{
    proof {
        use_type_invariant(scatter);
    }
    let rolled: i64 = source.draw(0, PROBABILITY_SCALE as i64 - 1);
    let roll: u32 = rolled as u32;
    if roll < scatter.decoration_probability() {
        let range: i64 = scatter.jitter_range() as i64;
        let jitter_x: i64 = source.draw(-range, range);
        let jitter_z: i64 = source.draw(-range, range);
        assert(source@.drawn =~= old(source)@.drawn + seq![rolled, jitter_x, jitter_z]);
        let draw: CellDraw = CellDraw { roll, jitter_x, jitter_z };
        assert(source@.asked =~= old(source)@.asked + cell_ranges(scatter@, draw));
        draw
    } else {
        assert(source@.drawn =~= old(source)@.drawn + seq![rolled]);
        assert(source@.asked =~= old(source)@.asked + seq![roll_range()]);
        CellDraw { roll, jitter_x: 0, jitter_z: 0 }
    }
}

/// Draws for every cell of the grid, cell by cell in the order of their
/// numbers.
pub fn draw_cells(
    grid: &GridConfig,
    scatter: &ScatterConfig,
    source: &mut RandomSource,
) -> (draws: Vec<CellDraw>)
    ensures
        admissible_draws(grid@, scatter@, draws@),
        forall|k: int|
            0 <= k < draws@.len() && !decorates(scatter@, #[trigger] draws@[k]) ==> {
                &&& draws@[k].jitter_x == 0
                &&& draws@[k].jitter_z == 0
            },
        final(source)@.seed == old(source)@.seed,
        final(source)@.asked == old(source)@.asked + ranges_of(scatter@, draws@),
        final(source)@.drawn == old(source)@.drawn + values_of(scatter@, draws@),
{
    let ghost asked: Seq<(i64, i64)> = source@.asked;
    let ghost before: Seq<i64> = source@.drawn;
    let ghost seed: u64 = source@.seed;
    let side: u64 = grid.map_size() as u64;
    assert(side * side <= u64::MAX) by (nonlinear_arith)
        requires
            side <= u32::MAX,
    ;
    let cells: u64 = side * side;
    let mut draws: Vec<CellDraw> = Vec::new();
    let mut cell: u64 = 0;
    while cell < cells
        invariant
            cell <= cells,
            draws@.len() == cell,
            forall|k: int| 0 <= k < draws@.len() ==> admissible(scatter@, #[trigger] draws@[k]),
            forall|k: int|
                0 <= k < draws@.len() && !decorates(scatter@, #[trigger] draws@[k]) ==> {
                    &&& draws@[k].jitter_x == 0
                    &&& draws@[k].jitter_z == 0
                },
            source@.seed == seed,
            source@.asked == asked + ranges_of(scatter@, draws@),
            source@.drawn == before + values_of(scatter@, draws@),
        decreases cells - cell,
    {
        let ghost drawn: Seq<CellDraw> = draws@;
        let draw: CellDraw = draw_cell(scatter, source);
        draws.push(draw);
        proof {
            assert(draws@.drop_last() =~= drawn);
            assert(source@.drawn =~= before + values_of(scatter@, draws@));
            assert(source@.asked =~= asked + ranges_of(scatter@, draws@));
        }
        cell = cell + 1;
    }
    draws
}

/// The tile of the cell in row `x`, column `z`.
fn tile_of_cell(grid: &GridConfig, x: u32, z: u32) -> (tile: Placement)
    requires
        x < grid@.map_size,
        z < grid@.map_size,
    ensures
        tile == tile_at(grid@, x * grid@.map_size + z),
        tile.position.x == x * grid@.tile_size,
        tile.position.z == z * grid@.tile_size,
{
    proof {
        use_type_invariant(grid);
        lemma_cell_coordinates(grid@, x as int, z as int);
        lemma_cell_inside(grid@, x as int);
        lemma_cell_inside(grid@, z as int);
    }
    let tile_size: i64 = grid.tile_size() as i64;
    Placement {
        kind: PlacementKind::Tile,
        position: Point { x: (x as i64) * tile_size, z: (z as i64) * tile_size },
    }
}

/// The decoration of the cell in row `x`, column `z` under `draw`.
fn decoration_of_cell(
    grid: &GridConfig,
    scatter: &ScatterConfig,
    x: u32,
    z: u32,
    draw: &CellDraw,
) -> (decoration: Placement)
    requires
        x < grid@.map_size,
        z < grid@.map_size,
        admissible(scatter@, *draw),
    ensures
        decoration == decoration_at(grid@, x * grid@.map_size + z, *draw),
{
    proof {
        use_type_invariant(grid);
        use_type_invariant(scatter);
        lemma_cell_coordinates(grid@, x as int, z as int);
        lemma_cell_inside(grid@, x as int);
        lemma_cell_inside(grid@, z as int);
    }
    let tile_size: i64 = grid.tile_size() as i64;
    let half: i64 = tile_size / 2;
    Placement {
        kind: PlacementKind::Decoration,
        position: Point {
            x: (x as i64) * tile_size + half + draw.jitter_x,
            z: (z as i64) * tile_size + half + draw.jitter_z,
        },
    }
}

/// The placements of the grid under admissible draws: for each cell in the
/// order of the cell numbers, its tile and then, if the draw decorates it,
/// its decoration.
fn place_admissible(
    grid: &GridConfig,
    scatter: &ScatterConfig,
    draws: &Vec<CellDraw>,
) -> (placements: Vec<Placement>)
    requires
        admissible_draws(grid@, scatter@, draws@),
    ensures
        placements@ == scatter_of(grid@, scatter@, draws@),
{
    let side: u32 = grid.map_size();
    let count: usize = draws.len();
    let mut placements: Vec<Placement> = Vec::new();
    let mut cell: usize = 0;
    let mut x: u32 = 0;
    while x < side
        invariant
            side == grid@.map_size,
            count == draws@.len(),
            admissible_draws(grid@, scatter@, draws@),
            x <= side,
            cell == x * side,
            placements@ == scatter_of(grid@, scatter@, draws@.take(cell as int)),
        decreases side - x,
    {
        let mut z: u32 = 0;
        while z < side
            invariant
                side == grid@.map_size,
                count == draws@.len(),
                admissible_draws(grid@, scatter@, draws@),
                x < side,
                z <= side,
                cell == x * side + z,
                placements@ == scatter_of(grid@, scatter@, draws@.take(cell as int)),
            decreases side - z,
        {
            proof {
                lemma_cell_number_bound(side as int, x as int, z as int);
                assert(cell < count);
                lemma_scatter_step(grid@, scatter@, draws@, cell as int);
            }
            let draw: &CellDraw = &draws[cell];
            placements.push(tile_of_cell(grid, x, z));
            if draw.decorates(scatter) {
                placements.push(decoration_of_cell(grid, scatter, x, z, draw));
            }
            assert(placements@ =~= scatter_of(grid@, scatter@, draws@.take(cell as int + 1)));
            cell = cell + 1;
            z = z + 1;
        }
        assert(x * side + side == (x + 1) * side) by (nonlinear_arith);
        x = x + 1;
    }
    proof {
        assert(draws@.take(cell as int) =~= draws@);
    }
    placements
}

/// The placements of the grid under the given draws, one draw for each
/// cell, or `None` when the draws are not admissible for this grid and
/// scatter.
pub fn place(
    grid: &GridConfig,
    scatter: &ScatterConfig,
    draws: &Vec<CellDraw>,
) -> (placements: Option<Vec<Placement>>)
    ensures
        placements is Some <==> admissible_draws(grid@, scatter@, draws@),
        placements matches Some(placed) ==> placed@ == scatter_of(grid@, scatter@, draws@),
{
    let side: u64 = grid.map_size() as u64;
    assert(side * side <= u64::MAX) by (nonlinear_arith)
        requires
            side <= u32::MAX,
    ;
    if draws.len() as u64 != side * side {
        return None;
    }
    let mut checked: usize = 0;
    while checked < draws.len()
        invariant
            checked <= draws@.len(),
            forall|k: int| 0 <= k < checked ==> admissible(scatter@, #[trigger] draws@[k]),
        decreases draws@.len() - checked,
    {
        if !draws[checked].is_admissible(scatter) {
            return None;
        }
        checked = checked + 1;
    }
    Some(place_admissible(grid, scatter, draws))
}

/// Scatters the scenery over the grid with draws from `source`: for each
/// cell, row by row, its tile, and with the scatter's probability a
/// decoration near the cell's center.
///
/// Whatever is drawn, the tiles are exactly the grid's tiles; a probability
/// of zero gives no decoration and a probability of one gives one for each
/// cell; every decoration follows the tile of its cell and lies within the
/// jitter range of that cell's center.
pub fn generate(
    grid: &GridConfig,
    scatter: &ScatterConfig,
    source: &mut RandomSource,
) -> (placements: Vec<Placement>)
    ensures
        exists|draws: Seq<CellDraw>|
            {
                &&& admissible_draws(grid@, scatter@, draws)
                &&& placements@ == scatter_of(grid@, scatter@, draws)
                &&& final(source)@.asked == old(source)@.asked + ranges_of(scatter@, draws)
                &&& final(source)@.drawn == old(source)@.drawn + values_of(scatter@, draws)
            },
        final(source)@.seed == old(source)@.seed,
        of_kind(placements@, PlacementKind::Tile) == grid_tiles(grid@),
        of_kind(placements@, PlacementKind::Tile).len() == grid@.map_size * grid@.map_size,
        of_kind(placements@, PlacementKind::Decoration).len() <= grid@.map_size * grid@.map_size,
        placements@.len() == grid@.map_size * grid@.map_size + of_kind(
            placements@,
            PlacementKind::Decoration,
        ).len(),
        scatter@.decoration_probability == 0 ==> {
            &&& placements@ == grid_tiles(grid@)
            &&& of_kind(placements@, PlacementKind::Decoration).len() == 0
        },
        scatter@.decoration_probability == PROBABILITY_SCALE ==> of_kind(
            placements@,
            PlacementKind::Decoration,
        ).len() == grid@.map_size * grid@.map_size,
        decorations_near_centers(grid@, scatter@.jitter_range, placements@),
        scatter@.jitter_range == 0 ==> decorations_at_centers(grid@, placements@),
{
    let draws: Vec<CellDraw> = draw_cells(grid, scatter, source);
    let placements: Vec<Placement> = place_admissible(grid, scatter, &draws);
    proof {
        use_type_invariant(grid);
        use_type_invariant(scatter);
        lemma_scatter_laws(grid@, scatter@, draws@);
    }
    placements
}

} // verus!
