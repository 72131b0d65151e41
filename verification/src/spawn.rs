//! Where figures and free-standing trees are put: uniformly in a square
//! around a center.

use crate::config::{ConfigError, GridConfig, GridModel, MAX_EXTENT};
use crate::geometry::{fits_coordinate, Point};
use crate::random::RandomSource;
use crate::scatter::{Placement, PlacementKind};
use vstd::prelude::*;

verus! {

/// The center of the grid: half of its side on both axes.
pub open spec fn map_center_of(grid: GridModel) -> Point {
    Point::at(
        (grid.map_size * grid.tile_size) as int / 2,
        (grid.map_size * grid.tile_size) as int / 2,
    )
}

/// Whether `point` lies in the square around `center` that reaches `spread`
/// to each side: the low edges belong to the square, the high edges do not.
pub open spec fn in_square(center: Point, spread: nat, point: Point) -> bool {
    &&& center.x - spread <= point.x < center.x + spread
    &&& center.z - spread <= point.z < center.z + spread
}

/// The two values that a point around `center` takes from the source, in
/// the order in which it takes them: how far the point lies from the center
/// along x, then how far along z.
pub open spec fn point_values(center: Point, point: Point) -> Seq<i64> {
    seq![(point.x - center.x) as i64, (point.z - center.z) as i64]
}

/// The range that an offset is drawn from, for a square that reaches
/// `spread` to each side: from `-spread` up to, but not including, `spread`.
pub open spec fn offset_range(spread: nat) -> (i64, i64) {
    ((-spread) as i64, (spread - 1) as i64)
}

/// The ranges that `count` points of a square ask of the source: for each
/// point the offset range twice, for x and then for z.
pub open spec fn points_ranges(spread: nat, count: nat) -> Seq<(i64, i64)>
    decreases count,
{
    if count == 0 {
        Seq::empty()
    } else {
        points_ranges(spread, (count - 1) as nat) + seq![offset_range(spread), offset_range(spread)]
    }
}

/// Whether `center` moved by `offset` is a point whose coordinates can be
/// stored.
pub open spec fn offset_fits(center: Point, offset: (i64, i64)) -> bool {
    fits_coordinate(center.x + offset.0) && fits_coordinate(center.z + offset.1)
}

/// The points that lie at the given offsets from `center`, in the order of
/// the offsets: an offset is how far to move along x and how far along z.
pub open spec fn points_at(center: Point, offsets: Seq<(i64, i64)>) -> Seq<Point> {
    Seq::new(
        offsets.len(),
        |i: int| center.shifted(offsets[i].0 as int, offsets[i].1 as int),
    )
}

/// The values that points around `center` take from the source, point after
/// point in the order of `points`.
pub open spec fn points_values(center: Point, points: Seq<Point>) -> Seq<i64>
    decreases points.len(),
{
    if points.len() == 0 {
        Seq::empty()
    } else {
        points_values(center, points.drop_last()) + point_values(center, points.last())
    }
}

/// Where the placements stand, in their order.
pub open spec fn positions_of(placements: Seq<Placement>) -> Seq<Point> {
    placements.map_values(|placement: Placement| placement.position)
}

/// Whether all of `points` lie in the square of `spread` around `center`.
pub open spec fn all_in_square(center: Point, spread: nat, points: Seq<Point>) -> bool {
    forall|i: int| 0 <= i < points.len() ==> in_square(center, spread, #[trigger] points[i])
}

/// Whether `placements` are decorations that all lie in the square of
/// `spread` around `center`.
pub open spec fn decorations_in_square(
    center: Point,
    spread: nat,
    placements: Seq<Placement>,
) -> bool {
    forall|i: int|
        0 <= i < placements.len() ==> (#[trigger] placements[i]).kind == PlacementKind::Decoration
            && in_square(center, spread, placements[i].position)
}

/// The center of the grid.
pub fn map_center(grid: &GridConfig) -> (center: Point)
    ensures
        center == map_center_of(grid@),
        center.x == (grid@.map_size * grid@.tile_size) as int / 2,
        center.z == center.x,
{
    proof {
        use_type_invariant(grid);
    }
    let side: u64 = (grid.map_size() as u64) * (grid.tile_size() as u64);
    let half: i64 = (side / 2) as i64;
    Point { x: half, z: half }
}

/// One point more asks what the points before it ask, and then what one
/// point asks.
pub proof fn lemma_one_more_point(spread: nat, count: nat)
    ensures
        points_ranges(spread, count + 1) == points_ranges(spread, count) + points_ranges(spread, 1),
{
    reveal_with_fuel(points_ranges, 2);
    assert(points_ranges(spread, 1) =~= seq![offset_range(spread), offset_range(spread)]);
}

/// The points at the given offsets from `center`, one for each offset and
/// in their order, or `None` when a coordinate of one of them cannot be
/// stored.
pub fn points_around(center: Point, offsets: &Vec<(i64, i64)>) -> (placed: Option<Vec<Point>>)
    ensures
        placed is Some <==> forall|i: int|
            0 <= i < offsets@.len() ==> offset_fits(center, #[trigger] offsets@[i]),
        placed matches Some(points) ==> points@ == points_at(center, offsets@),
{
    let mut points: Vec<Point> = Vec::new();
    let mut done: usize = 0;
    while done < offsets.len()
        invariant
            done <= offsets@.len(),
            points@.len() == done,
            forall|i: int| 0 <= i < done ==> offset_fits(center, #[trigger] offsets@[i]),
            forall|i: int|
                0 <= i < done ==> #[trigger] points@[i] == center.shifted(
                    offsets@[i].0 as int,
                    offsets@[i].1 as int,
                ),
        decreases offsets@.len() - done,
    {
        let offset: (i64, i64) = offsets[done];
        match center.translate(offset.0, offset.1) {
            Some(point) => {
                points.push(point);
            },
            None => {
                assert(!offset_fits(center, offsets@[done as int]));
                return None;
            },
        }
        done = done + 1;
    }
    assert(points@ =~= points_at(center, offsets@));
    Some(points)
}

/// One point of the square of `spread` around `center`: the offset along x
/// is drawn first, then the offset along z, both from the square's offset
/// range.
fn point_around(center: Point, spread: u32, source: &mut RandomSource) -> (point: Point)
    requires
        spread > 0,
        -(MAX_EXTENT as int) <= center.x <= MAX_EXTENT,
        -(MAX_EXTENT as int) <= center.z <= MAX_EXTENT,
    ensures
        in_square(center, spread as nat, point),
        final(source)@.seed == old(source)@.seed,
        final(source)@.asked == old(source)@.asked + points_ranges(spread as nat, 1),
        final(source)@.drawn == old(source)@.drawn + point_values(center, point),
{
    let reach: i64 = spread as i64;
    let offset_x: i64 = source.draw(-reach, reach - 1);
    let offset_z: i64 = source.draw(-reach, reach - 1);
    let mut offsets: Vec<(i64, i64)> = Vec::new();
    offsets.push((offset_x, offset_z));
    proof {
        reveal_with_fuel(points_ranges, 2);
        assert(source@.drawn =~= old(source)@.drawn + seq![offset_x, offset_z]);
        assert(source@.asked =~= old(source)@.asked + points_ranges(spread as nat, 1));
        assert(offset_fits(center, offsets@[0]));
    }
    let points: Vec<Point> = points_around(center, &offsets).unwrap();
    points[0]
}

/// Draws `count` points for figures to stand on, each from the square that
/// reaches `spread` to each side of the grid's center. A spread of zero is
/// refused: that square holds no point.
pub fn spawn_points(
    grid: &GridConfig,
    spread: u32,
    count: usize,
    source: &mut RandomSource,
) -> (drawn: Result<Vec<Point>, ConfigError>)
    ensures
        spread == 0 ==> drawn == Err::<Vec<Point>, ConfigError>(ConfigError::EmptySquare),
        spread > 0 ==> drawn is Ok,
        drawn matches Ok(points) ==> {
            &&& points@.len() == count
            &&& all_in_square(map_center_of(grid@), spread as nat, points@)
            &&& final(source)@.asked == old(source)@.asked + points_ranges(
                spread as nat,
                count as nat,
            )
            &&& final(source)@.drawn == old(source)@.drawn + points_values(
                map_center_of(grid@),
                points@,
            )
        },
        drawn is Err ==> final(source)@ == old(source)@,
        final(source)@.seed == old(source)@.seed,
{
    let ghost asked: Seq<(i64, i64)> = source@.asked;
    let ghost before: Seq<i64> = source@.drawn;
    let ghost seed: u64 = source@.seed;
    if spread == 0 {
        return Err(ConfigError::EmptySquare);
    }
    proof {
        use_type_invariant(grid);
    }
    let center: Point = map_center(grid);
    let mut points: Vec<Point> = Vec::new();
    let mut made: usize = 0;
    while made < count
        invariant
            spread > 0,
            center == map_center_of(grid@),
            0 <= center.x <= MAX_EXTENT,
            0 <= center.z <= MAX_EXTENT,
            made <= count,
            points@.len() == made,
            all_in_square(center, spread as nat, points@),
            source@.seed == seed,
            source@.asked == asked + points_ranges(spread as nat, made as nat),
            source@.drawn == before + points_values(center, points@),
        decreases count - made,
    {
        let ghost placed: Seq<Point> = points@;
        let point: Point = point_around(center, spread, source);
        points.push(point);
        proof {
            assert(points@.drop_last() =~= placed);
            assert(source@.drawn =~= before + points_values(center, points@));
            lemma_one_more_point(spread as nat, made as nat);
            assert(source@.asked =~= asked + points_ranges(spread as nat, (made + 1) as nat));
        }
        made = made + 1;
    }
    Ok(points)
}

/// Draws `count` free-standing trees, each from the square that reaches
/// `radius` to each side of the origin. A radius of zero is refused: that
/// square holds no point.
pub fn scatter_forest(
    radius: u32,
    count: usize,
    source: &mut RandomSource,
) -> (drawn: Result<Vec<Placement>, ConfigError>)
    ensures
        radius == 0 ==> drawn == Err::<Vec<Placement>, ConfigError>(ConfigError::EmptySquare),
        radius > 0 ==> drawn is Ok,
        drawn matches Ok(trees) ==> {
            &&& trees@.len() == count
            &&& decorations_in_square(Point::at(0, 0), radius as nat, trees@)
            &&& final(source)@.asked == old(source)@.asked + points_ranges(
                radius as nat,
                count as nat,
            )
            &&& final(source)@.drawn == old(source)@.drawn + points_values(
                Point::at(0, 0),
                positions_of(trees@),
            )
        },
        drawn is Err ==> final(source)@ == old(source)@,
        final(source)@.seed == old(source)@.seed,
{
    let ghost asked: Seq<(i64, i64)> = source@.asked;
    let ghost before: Seq<i64> = source@.drawn;
    let ghost seed: u64 = source@.seed;
    if radius == 0 {
        return Err(ConfigError::EmptySquare);
    }
    let center: Point = Point::origin();
    let mut trees: Vec<Placement> = Vec::new();
    let mut made: usize = 0;
    while made < count
        invariant
            radius > 0,
            center == Point::at(0, 0),
            made <= count,
            trees@.len() == made,
            decorations_in_square(center, radius as nat, trees@),
            source@.seed == seed,
            source@.asked == asked + points_ranges(radius as nat, made as nat),
            source@.drawn == before + points_values(center, positions_of(trees@)),
        decreases count - made,
    {
        let ghost placed: Seq<Point> = positions_of(trees@);
        let position: Point = point_around(center, radius, source);
        trees.push(Placement { kind: PlacementKind::Decoration, position });
        proof {
            assert(positions_of(trees@).drop_last() =~= placed);
            assert(positions_of(trees@).last() == position);
            assert(source@.drawn =~= before + points_values(center, positions_of(trees@)));
            lemma_one_more_point(radius as nat, made as nat);
            assert(source@.asked =~= asked + points_ranges(radius as nat, (made + 1) as nat));
        }
        made = made + 1;
    }
    Ok(trees)
}

} // verus!
