//! What holds of every scatter, whatever was drawn.

use crate::config::{GridModel, ScatterModel, MAX_EXTENT, PROBABILITY_SCALE};
use crate::scatter::{
    admissible, admissible_draws, cell_placements, cell_x, cell_z, decoration_at, decorates,
    decorations_at_centers, decorations_near_centers, grid_tiles, near_center, of_kind, scatter_of,
    tile_at, tiles_of_cells, CellDraw, Placement, PlacementKind,
};
use vstd::prelude::*;

verus! {

/// The cell in row `x`, column `z` has the number `x * map_size + z`.
pub proof fn lemma_cell_coordinates(grid: GridModel, x: int, z: int)
    requires
        0 <= x,
        0 <= z < grid.map_size,
    ensures
        cell_x(grid, x * grid.map_size + z) == x,
        cell_z(grid, x * grid.map_size + z) == z,
{
    vstd::arithmetic::div_mod::lemma_fundamental_div_mod_converse(
        x * grid.map_size + z,
        grid.map_size as int,
        x,
        z,
    );
}

/// A cell of a valid grid lies, with its whole width, inside the grid's
/// extent.
pub proof fn lemma_cell_inside(grid: GridModel, x: int)
    requires
        grid.wf(),
        0 <= x < grid.map_size,
    ensures
        0 <= x * grid.tile_size,
        x * grid.tile_size + grid.tile_size <= grid.map_size * grid.tile_size,
        x * grid.tile_size + grid.tile_size <= MAX_EXTENT,
{
    assert(0 <= x * grid.tile_size && x * grid.tile_size + grid.tile_size <= grid.map_size
        * grid.tile_size) by (nonlinear_arith)
        requires
            0 <= x < grid.map_size,
            0 < grid.tile_size,
    ;
}

/// In a square of side `side`, the number of the cell `(x, z)` is below the
/// number of cells.
pub proof fn lemma_cell_number_bound(side: int, x: int, z: int)
    requires
        0 <= x < side,
        0 <= z < side,
    ensures
        0 <= x * side + z < side * side,
{
    assert(0 <= x * side + z < side * side) by (nonlinear_arith)
        requires
            0 <= x < side,
            0 <= z < side,
    ;
}

/// The placements of the first `cell + 1` cells are those of the first
/// `cell` cells followed by what the cell `cell` contributes.
pub proof fn lemma_scatter_step(
    grid: GridModel,
    scatter: ScatterModel,
    draws: Seq<CellDraw>,
    cell: int,
)
    requires
        0 <= cell < draws.len(),
    ensures
        scatter_of(grid, scatter, draws.take(cell + 1)) == scatter_of(
            grid,
            scatter,
            draws.take(cell),
        ) + cell_placements(grid, scatter, cell, draws[cell]),
{
    let longer = draws.take(cell + 1);
    assert(longer.drop_last() =~= draws.take(cell));
    assert(longer.last() == draws[cell]);
}

/// Of what one cell contributes, the tiles are the cell's tile alone, and the
/// decorations are the cell's decoration if the draw decorates the cell, and
/// none otherwise.
pub proof fn lemma_cell_kinds(grid: GridModel, scatter: ScatterModel, cell: int, draw: CellDraw)
    ensures
        of_kind(cell_placements(grid, scatter, cell, draw), PlacementKind::Tile) == seq![
            tile_at(grid, cell),
        ],
        decorates(scatter, draw) ==> of_kind(
            cell_placements(grid, scatter, cell, draw),
            PlacementKind::Decoration,
        ) == seq![decoration_at(grid, cell, draw)],
        !decorates(scatter, draw) ==> of_kind(
            cell_placements(grid, scatter, cell, draw),
            PlacementKind::Decoration,
        ) == Seq::<Placement>::empty(),
{
    reveal_with_fuel(Seq::filter, 3);
    let tile = tile_at(grid, cell);
    let decoration = decoration_at(grid, cell, draw);
    let both = seq![tile, decoration];
    let one = seq![tile];
    assert(both.drop_last() =~= one);
    assert(one.drop_last() =~= Seq::<Placement>::empty());
    assert(of_kind(one, PlacementKind::Tile) =~= seq![tile]);
    assert(of_kind(one, PlacementKind::Decoration) =~= Seq::<Placement>::empty());
    assert(of_kind(both, PlacementKind::Tile) =~= seq![tile]);
    assert(of_kind(both, PlacementKind::Decoration) =~= seq![decoration]);
}

/// The tiles of a scatter are the tiles of its cells, one for each cell, in
/// the order of the cell numbers, whatever was drawn.
pub proof fn lemma_tiles_of_scatter(grid: GridModel, scatter: ScatterModel, draws: Seq<CellDraw>)
    ensures
        of_kind(scatter_of(grid, scatter, draws), PlacementKind::Tile) == tiles_of_cells(
            grid,
            draws.len(),
        ),
    decreases draws.len(),
{
    if draws.len() == 0 {
        reveal_with_fuel(Seq::filter, 1);
        assert(of_kind(scatter_of(grid, scatter, draws), PlacementKind::Tile) =~= tiles_of_cells(
            grid,
            draws.len(),
        ));
    } else {
        let before = scatter_of(grid, scatter, draws.drop_last());
        let last = cell_placements(grid, scatter, draws.len() - 1, draws.last());
        lemma_tiles_of_scatter(grid, scatter, draws.drop_last());
        lemma_cell_kinds(grid, scatter, draws.len() - 1, draws.last());
        Seq::filter_distributes_over_add(
            before,
            last,
            |placement: Placement| placement.kind == PlacementKind::Tile,
        );
        assert(of_kind(scatter_of(grid, scatter, draws), PlacementKind::Tile) =~= tiles_of_cells(
            grid,
            draws.len(),
        ));
    }
}

/// A grid of `N` by `N` cells gets exactly `N * N` tiles, one for each cell,
/// whatever was drawn.
pub proof fn lemma_tiles_cover_grid(grid: GridModel, scatter: ScatterModel, draws: Seq<CellDraw>)
    requires
        draws.len() == grid.cell_count(),
    ensures
        of_kind(scatter_of(grid, scatter, draws), PlacementKind::Tile) == grid_tiles(grid),
        of_kind(scatter_of(grid, scatter, draws), PlacementKind::Tile).len() == grid.map_size
            * grid.map_size,
{
    lemma_tiles_of_scatter(grid, scatter, draws);
}

/// In a valid grid the tile of the cell in row `x`, column `z` is the one
/// with the number `x * N + z`, and it lies at `(x * tile_size, z *
/// tile_size)`.
pub proof fn lemma_tile_position(grid: GridModel, x: int, z: int)
    requires
        grid.wf(),
        0 <= x < grid.map_size,
        0 <= z < grid.map_size,
    ensures
        0 <= x * grid.map_size + z < grid.cell_count(),
        grid_tiles(grid)[x * grid.map_size + z].kind == PlacementKind::Tile,
        grid_tiles(grid)[x * grid.map_size + z].position.x == x * grid.tile_size,
        grid_tiles(grid)[x * grid.map_size + z].position.z == z * grid.tile_size,
{
    lemma_cell_number_bound(grid.map_size as int, x, z);
    lemma_cell_coordinates(grid, x, z);
    lemma_cell_inside(grid, x);
    lemma_cell_inside(grid, z);
}

/// Every cell of a grid has its row and its column inside the grid, and its
/// number is its row times the side plus its column.
pub proof fn lemma_cell_in_grid(grid: GridModel, cell: int)
    requires
        0 <= cell < grid.cell_count(),
    ensures
        0 <= cell_x(grid, cell) < grid.map_size,
        0 <= cell_z(grid, cell) < grid.map_size,
        cell == cell_x(grid, cell) * grid.map_size + cell_z(grid, cell),
{
    let side = grid.map_size as int;
    assert(side > 0) by (nonlinear_arith)
        requires
            0 <= side,
            0 <= cell < side * side,
    ;
    vstd::arithmetic::div_mod::lemma_fundamental_div_mod(cell, side);
    vstd::arithmetic::div_mod::lemma_mod_bound(cell, side);
    let row = cell / side;
    let column = cell % side;
    assert(0 <= row < side) by (nonlinear_arith)
        requires
            0 < side,
            0 <= cell < side * side,
            cell == side * row + column,
            0 <= column < side,
    ;
    assert(side * row == row * side) by (nonlinear_arith);
}

/// How many of `draws` decorate their cell.
pub open spec fn decorated_cells(scatter: ScatterModel, draws: Seq<CellDraw>) -> nat
    decreases draws.len(),
{
    if draws.len() == 0 {
        0
    } else {
        decorated_cells(scatter, draws.drop_last()) + if decorates(scatter, draws.last()) {
            1nat
        } else {
            0nat
        }
    }
}

/// A scatter holds one decoration for each cell whose draw decorates it.
pub proof fn lemma_decoration_count(grid: GridModel, scatter: ScatterModel, draws: Seq<CellDraw>)
    ensures
        of_kind(scatter_of(grid, scatter, draws), PlacementKind::Decoration).len() == decorated_cells(
            scatter,
            draws,
        ),
        scatter_of(grid, scatter, draws).len() == draws.len() + decorated_cells(scatter, draws),
        decorated_cells(scatter, draws) <= draws.len(),
    decreases draws.len(),
{
    if draws.len() == 0 {
        reveal_with_fuel(Seq::filter, 1);
    } else {
        let before = scatter_of(grid, scatter, draws.drop_last());
        let last = cell_placements(grid, scatter, draws.len() - 1, draws.last());
        lemma_decoration_count(grid, scatter, draws.drop_last());
        lemma_cell_kinds(grid, scatter, draws.len() - 1, draws.last());
        Seq::filter_distributes_over_add(
            before,
            last,
            |placement: Placement| placement.kind == PlacementKind::Decoration,
        );
    }
}

/// With a decoration probability of zero no draw decorates its cell.
pub proof fn lemma_no_cell_decorated(scatter: ScatterModel, draws: Seq<CellDraw>)
    requires
        scatter.decoration_probability == 0,
    ensures
        decorated_cells(scatter, draws) == 0,
    decreases draws.len(),
{
    if draws.len() > 0 {
        lemma_no_cell_decorated(scatter, draws.drop_last());
    }
}

/// With a decoration probability of zero a scatter is the tiles of its
/// cells and nothing else, whatever was drawn.
pub proof fn lemma_only_tiles(grid: GridModel, scatter: ScatterModel, draws: Seq<CellDraw>)
    requires
        scatter.decoration_probability == 0,
    ensures
        scatter_of(grid, scatter, draws) == tiles_of_cells(grid, draws.len()),
    decreases draws.len(),
{
    if draws.len() == 0 {
        assert(scatter_of(grid, scatter, draws) =~= tiles_of_cells(grid, 0));
    } else {
        let cells = (draws.len() - 1) as nat;
        let before = scatter_of(grid, scatter, draws.drop_last());
        let last = cell_placements(grid, scatter, cells as int, draws.last());
        lemma_only_tiles(grid, scatter, draws.drop_last());
        assert(before == tiles_of_cells(grid, cells));
        assert(last == seq![tile_at(grid, cells as int)]);
        assert(tiles_of_cells(grid, cells) + seq![tile_at(grid, cells as int)] =~= tiles_of_cells(
            grid,
            draws.len(),
        ));
    }
}

/// With a decoration probability of zero a scatter holds no decoration: it
/// is the grid's tiles and nothing else, whatever was drawn.
pub proof fn lemma_no_decoration(grid: GridModel, scatter: ScatterModel, draws: Seq<CellDraw>)
    requires
        scatter.decoration_probability == 0,
        draws.len() == grid.cell_count(),
    ensures
        scatter_of(grid, scatter, draws) == grid_tiles(grid),
        of_kind(scatter_of(grid, scatter, draws), PlacementKind::Decoration).len() == 0,
{
    lemma_only_tiles(grid, scatter, draws);
    lemma_no_cell_decorated(scatter, draws);
    lemma_decoration_count(grid, scatter, draws);
}

/// With a decoration probability of one, that is the whole scale, every
/// admissible draw decorates its cell.
pub proof fn lemma_all_cells_decorated(scatter: ScatterModel, draws: Seq<CellDraw>)
    requires
        scatter.decoration_probability == PROBABILITY_SCALE,
        forall|k: int| 0 <= k < draws.len() ==> admissible(scatter, #[trigger] draws[k]),
    ensures
        decorated_cells(scatter, draws) == draws.len(),
    decreases draws.len(),
{
    if draws.len() > 0 {
        lemma_all_cells_decorated(scatter, draws.drop_last());
    }
}

/// With a decoration probability of one a grid of `N` by `N` cells gets
/// exactly `N * N` decorations, whatever admissible draws were made.
pub proof fn lemma_every_cell_decorated(
    grid: GridModel,
    scatter: ScatterModel,
    draws: Seq<CellDraw>,
)
    requires
        scatter.decoration_probability == PROBABILITY_SCALE,
        admissible_draws(grid, scatter, draws),
    ensures
        of_kind(scatter_of(grid, scatter, draws), PlacementKind::Decoration).len() == grid.map_size
            * grid.map_size,
{
    lemma_decoration_count(grid, scatter, draws);
    lemma_all_cells_decorated(scatter, draws);
}

/// In a scatter of a valid grid under admissible draws, every decoration
/// comes directly after the tile of its cell and lies, on each axis, at most
/// the jitter range from the center of that cell.
pub proof fn lemma_decorations_near_centers(
    grid: GridModel,
    scatter: ScatterModel,
    draws: Seq<CellDraw>,
)
    requires
        grid.wf(),
        scatter.wf(),
        draws.len() <= grid.cell_count(),
        forall|k: int| 0 <= k < draws.len() ==> admissible(scatter, #[trigger] draws[k]),
    ensures
        decorations_near_centers(grid, scatter.jitter_range, scatter_of(grid, scatter, draws)),
    decreases draws.len(),
{
    if draws.len() > 0 {
        let cell = draws.len() - 1;
        let before = scatter_of(grid, scatter, draws.drop_last());
        let last = cell_placements(grid, scatter, cell, draws.last());
        let all = scatter_of(grid, scatter, draws);
        lemma_decorations_near_centers(grid, scatter, draws.drop_last());
        lemma_cell_in_grid(grid, cell);
        lemma_cell_inside(grid, cell_x(grid, cell));
        lemma_cell_inside(grid, cell_z(grid, cell));
        assert(admissible(scatter, draws[cell]));
        assert forall|i: int|
            0 <= i < all.len() && (#[trigger] all[i]).kind == PlacementKind::Decoration implies {
            &&& i > 0
            &&& near_center(grid, scatter.jitter_range, all[i - 1], all[i])
        } by {
            if i < before.len() {
                assert(all[i] == before[i]);
                assert(all[i - 1] == before[i - 1]);
            } else {
                assert(all[i] == last[i - before.len()]);
                assert(i - before.len() == 1);
                assert(all[i - 1] == last[0]);
            }
        }
    }
}

/// With a jitter range of zero every decoration lies exactly at the center
/// of its cell: at the origin of the cell's tile, moved by half a tile on
/// both axes.
pub proof fn lemma_zero_jitter_centers(
    grid: GridModel,
    scatter: ScatterModel,
    draws: Seq<CellDraw>,
)
    requires
        grid.wf(),
        scatter.wf(),
        scatter.jitter_range == 0,
        admissible_draws(grid, scatter, draws),
    ensures
        decorations_at_centers(grid, scatter_of(grid, scatter, draws)),
{
    lemma_decorations_near_centers(grid, scatter, draws);
    lemma_centers_from_zero_range(grid, scatter_of(grid, scatter, draws));
}

/// Decorations at most zero away from their centers are at their centers.
pub proof fn lemma_centers_from_zero_range(grid: GridModel, placements: Seq<Placement>)
    requires
        decorations_near_centers(grid, 0, placements),
    ensures
        decorations_at_centers(grid, placements),
{
    assert forall|i: int|
        0 <= i < placements.len() && (#[trigger] placements[i]).kind
            == PlacementKind::Decoration implies {
        &&& i > 0
        &&& placements[i - 1].kind == PlacementKind::Tile
        &&& placements[i].position == placements[i - 1].position.shifted(
            grid.tile_size as int / 2,
            grid.tile_size as int / 2,
        )
    } by {
        assert(near_center(grid, 0, placements[i - 1], placements[i]));
    }
}

/// All that holds of the scatter of a valid grid under admissible draws,
/// whatever the draws are: its tiles are the grid's tiles, one for each cell;
/// it holds a decoration for each decorated cell and nothing else; a
/// probability of zero gives no decoration and a probability of one gives one
/// for each cell; every decoration follows the tile of its cell within the
/// jitter range of the cell's center, and at the center where that range is
/// zero.
pub proof fn lemma_scatter_laws(grid: GridModel, scatter: ScatterModel, draws: Seq<CellDraw>)
    requires
        grid.wf(),
        scatter.wf(),
        admissible_draws(grid, scatter, draws),
    ensures
        ({
            let placements = scatter_of(grid, scatter, draws);
            let decorations = of_kind(placements, PlacementKind::Decoration);
            &&& of_kind(placements, PlacementKind::Tile) == grid_tiles(grid)
            &&& of_kind(placements, PlacementKind::Tile).len() == grid.map_size * grid.map_size
            &&& decorations.len() <= grid.map_size * grid.map_size
            &&& placements.len() == grid.map_size * grid.map_size + decorations.len()
            &&& scatter.decoration_probability == 0 ==> placements == grid_tiles(grid)
                && decorations.len() == 0
            &&& scatter.decoration_probability == PROBABILITY_SCALE ==> decorations.len()
                == grid.map_size * grid.map_size
            &&& decorations_near_centers(grid, scatter.jitter_range, placements)
            &&& scatter.jitter_range == 0 ==> decorations_at_centers(grid, placements)
        }),
{
    lemma_tiles_cover_grid(grid, scatter, draws);
    lemma_decoration_count(grid, scatter, draws);
    lemma_decorations_near_centers(grid, scatter, draws);
    if scatter.decoration_probability == 0 {
        lemma_no_decoration(grid, scatter, draws);
    }
    if scatter.decoration_probability == PROBABILITY_SCALE {
        lemma_every_cell_decorated(grid, scatter, draws);
    }
    if scatter.jitter_range == 0 {
        lemma_zero_jitter_centers(grid, scatter, draws);
    }
}

} // verus!
