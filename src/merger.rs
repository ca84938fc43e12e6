//! Greedy compaction of a set of solid tiles into rectangles.
use crate::tiles::{tile_lt, Rectangle, TileCoords, TileSet};
use vstd::prelude::*;

verus! {

/// Every tile of `r` is in `s`, and every tile of `r` has coordinates that
/// fit in an `i64`.
pub open spec fn inside(r: Rectangle, s: Set<TileCoords>) -> bool {
    &&& r.x + r.width <= i64::MAX + 1
    &&& r.y + r.height <= i64::MAX + 1
    &&& forall|t: TileCoords| #[trigger] r.covers(t) ==> s.contains(t)
}

/// `r` is a proper rectangle inside `s`, and no proper rectangle inside `s`
/// has a larger area.
pub open spec fn is_largest_inside(r: Rectangle, s: Set<TileCoords>) -> bool {
    &&& r.is_proper()
    &&& inside(r, s)
    &&& forall|q: Rectangle| #[trigger] q.is_proper() && inside(q, s) ==> q.area_spec() <= r.area_spec()
}

/// `r` is a proper rectangle inside `s` with its top-left tile at `corner`,
/// no such rectangle has a larger area, and none as large is narrower.
pub open spec fn is_largest_at(r: Rectangle, s: Set<TileCoords>, corner: TileCoords) -> bool {
    &&& r.is_proper()
    &&& inside(r, s)
    &&& r.x == corner.x && r.y == corner.y
    &&& forall|q: Rectangle|
        #[trigger] q.is_proper() && inside(q, s) && q.x == corner.x && q.y == corner.y
            ==> q.area_spec() <= r.area_spec()
    &&& forall|q: Rectangle|
        #[trigger] q.is_proper() && inside(q, s) && q.x == corner.x && q.y == corner.y
            && q.area_spec() == r.area_spec() ==> q.width >= r.width
}

/// The top-left tile of `r`.
pub open spec fn corner_of(r: Rectangle) -> TileCoords {
    TileCoords { x: r.x, y: r.y }
}

/// `r` is a largest rectangle inside `s`; of those as large, none has its
/// top-left tile earlier in row-major order, and none with the same
/// top-left tile is narrower.
pub open spec fn is_first_largest(r: Rectangle, s: Set<TileCoords>) -> bool {
    &&& is_largest_inside(r, s)
    &&& forall|q: Rectangle|
        #[trigger] q.is_proper() && inside(q, s) && q.area_spec() == r.area_spec() ==> !tile_lt(
            corner_of(q),
            corner_of(r),
        ) && (q.x == r.x && q.y == r.y ==> q.width >= r.width)
}

/// The tiles covered by the rectangles of `rs`.
pub open spec fn covered(rs: Seq<Rectangle>) -> Set<TileCoords>
    decreases rs.len(),
{
    if rs.len() == 0 {
        Set::empty()
    } else {
        covered(rs.drop_last()).union(rs.last().tile_set())
    }
}

/// The sum of the areas of the rectangles of `rs`.
pub open spec fn total_area(rs: Seq<Rectangle>) -> int
    decreases rs.len(),
{
    if rs.len() == 0 {
        0
    } else {
        total_area(rs.drop_last()) + rs.last().area_spec()
    }
}

/// No tile is covered by two rectangles of `rs`.
pub open spec fn pairwise_disjoint(rs: Seq<Rectangle>) -> bool {
    forall|i: int, j: int|
        0 <= i < j < rs.len() ==> (#[trigger] rs[i]).tile_set().disjoint((#[trigger] rs[j]).tile_set())
}

/// Each rectangle of `rs` is a largest rectangle inside the tiles of `t`
/// that the rectangles before it leave uncovered, the first of those in
/// row-major order of their top-left tiles, and the narrowest there.
pub open spec fn greedy_cover(rs: Seq<Rectangle>, t: Set<TileCoords>) -> bool {
    forall|k: int| 0 <= k < rs.len() ==> is_first_largest(#[trigger] rs[k], t.difference(covered(rs.take(k))))
}

/// Half of `n`, rounded toward zero.
pub open spec fn half(n: int) -> int {
    if n >= 0 {
        n / 2
    } else {
        -((-n) / 2)
    }
}

/// Where rectangle `r` stands in the world when a tile measures `cell`:
/// its centre `(x, y)` and its extent `(width, height)`.
pub open spec fn world_placement(r: Rectangle, cell: int) -> (int, int, int, int) {
    (
        r.x * cell + half(r.width * cell),
        r.y * cell + half(r.height * cell),
        r.width * cell,
        r.height * cell,
    )
}

/// `v` is a value of `i64`.
pub open spec fn fits_i64(v: int) -> bool {
    i64::MIN <= v <= i64::MAX
}

/// Every value of the world placement of `r` fits in an `i64`.
pub open spec fn placement_fits(r: Rectangle, cell: int) -> bool {
    let p = world_placement(r, cell);
    fits_i64(p.0) && fits_i64(p.1) && fits_i64(p.2) && fits_i64(p.3)
}

/// The bound on tile coordinates and tile sizes within which every world
/// value fits in an `i64`.
pub const WORLD_TILE_LIMIT: i64 = 1073741824;

/// Both coordinates of `t` lie within the world's tile bound.
pub open spec fn tile_in_world(t: TileCoords) -> bool {
    -WORLD_TILE_LIMIT <= t.x <= WORLD_TILE_LIMIT && -WORLD_TILE_LIMIT <= t.y <= WORLD_TILE_LIMIT
}

/// `rs` is a greedy cover of `t` by disjoint rectangles: what `merge_tiles`
/// returns.
pub open spec fn is_merge_of(rs: Seq<Rectangle>, t: Set<TileCoords>) -> bool {
    &&& covered(rs) == t
    &&& pairwise_disjoint(rs)
    &&& total_area(rs) == t.len()
    &&& greedy_cover(rs, t)
}

/// `ps` holds, in order, the world placements of the rectangles of `rs`.
pub open spec fn places(ps: Seq<(i64, i64, i64, i64)>, rs: Seq<Rectangle>, cell: int) -> bool {
    &&& ps.len() == rs.len()
    &&& forall|i: int|
        0 <= i < ps.len() ==> ((#[trigger] ps[i]).0 as int, ps[i].1 as int, ps[i].2 as int, ps[i].3 as int)
            == world_placement(rs[i], cell)
}

/// Compacts solid tiles into rectangle colliders of a given tile size.
pub struct TileMerger {
    pub tile_size: i64,
}

/// A rectangle `x .. x + width` wide, `y .. y + height` high.
pub open spec fn rect(x: int, y: int, width: int, height: int) -> Rectangle {
    Rectangle { x: x as i64, y: y as i64, width: width as i64, height: height as i64 }
}

/// Whether the `width` tiles from `(x, y)` rightward are all in `tiles`.
fn row_is_full(tiles: &TileSet, x: i64, y: i64, width: i64) -> (r: bool)
    requires
        tiles.wf(),
        width >= 0,
        x + width <= i64::MAX + 1,
    ensures
        r == inside(rect(x as int, y as int, width as int, 1), tiles@),
{
    let ghost row = rect(x as int, y as int, width as int, 1);
    let mut off: i64 = 0;
    while off < width
        invariant
            tiles.wf(),
            0 <= off <= width,
            x + width <= i64::MAX + 1,
            row == rect(x as int, y as int, width as int, 1),
            forall|t: TileCoords| #[trigger] row.covers(t) && t.x < x + off ==> tiles@.contains(t),
        decreases width - off,
    {
        let t = TileCoords { x: x + off, y };
        if !tiles.contains(&t) {
            assert(row.covers(t));
            return false;
        }
        off = off + 1;
    }
    true
}

impl TileMerger {
    pub fn new(tile_size: i64) -> (r: TileMerger)
        ensures
            r.tile_size == tile_size,
    {
        TileMerger { tile_size }
    }

    /// The length of the run of tiles that starts at `start` and goes right.
    fn find_max_width_from_position(&self, tiles: &TileSet, start: TileCoords) -> (r: i64)
        requires
            tiles.wf(),
        ensures
            r >= 0,
            inside(rect(start.x as int, start.y as int, r as int, 1), tiles@),
            forall|w: i64| w > r ==> !inside(#[trigger] rect(start.x as int, start.y as int, w as int, 1), tiles@),
    {
        let mut width: i64 = 0;
        let mut done = false;
        while !done
            invariant
                tiles.wf(),
                0 <= width,
                start.x + width <= i64::MAX + 1,
                inside(rect(start.x as int, start.y as int, width as int, 1), tiles@),
                done ==> forall|w: i64|
                    w > width ==> !inside(#[trigger] rect(start.x as int, start.y as int, w as int, 1), tiles@),
            decreases i64::MAX + 1 - (start.x + width), if done { 0int } else { 1int },
        {
            if width == i64::MAX {
                done = true;
            } else {
                match start.x.checked_add(width) {
                    None => {
                        done = true;
                    },
                    Some(px) => {
                        let t = TileCoords { x: px, y: start.y };
                        if tiles.contains(&t) {
                            let ghost old_row = rect(start.x as int, start.y as int, width as int, 1);
                            width = width + 1;
                            proof {
                                let row = rect(start.x as int, start.y as int, width as int, 1);
                                assert forall|u: TileCoords| #[trigger] row.covers(u) implies tiles@.contains(u) by {
                                    if u.x < px {
                                        assert(old_row.covers(u));
                                    } else {
                                        assert(u == t);
                                    }
                                }
                            }
                        } else {
                            assert forall|w: i64| w > width implies !inside(
                                #[trigger] rect(start.x as int, start.y as int, w as int, 1),
                                tiles@,
                            ) by {
                                assert(rect(start.x as int, start.y as int, w as int, 1).covers(t));
                            }
                            done = true;
                        }
                    },
                }
            }
        }
        width
    }
    /// How many rows from `start` downward hold all `width` tiles from
    /// `start`'s column rightward.
    fn find_max_height_for_width(&self, tiles: &TileSet, start: TileCoords, width: i64) -> (r: i64)
        requires
            tiles.wf(),
            width >= 1,
            start.x + width <= i64::MAX + 1,
        ensures
            r >= 0,
            inside(rect(start.x as int, start.y as int, width as int, r as int), tiles@),
            forall|h: i64|
                h > r ==> !inside(#[trigger] rect(start.x as int, start.y as int, width as int, h as int), tiles@),
    {
        let mut height: i64 = 0;
        let mut done = false;
        while !done
            invariant
                tiles.wf(),
                width >= 1,
                start.x + width <= i64::MAX + 1,
                0 <= height,
                start.y + height <= i64::MAX + 1,
                inside(rect(start.x as int, start.y as int, width as int, height as int), tiles@),
                done ==> forall|h: i64|
                    h > height ==> !inside(
                        #[trigger] rect(start.x as int, start.y as int, width as int, h as int),
                        tiles@,
                    ),
            decreases i64::MAX + 1 - (start.y + height), if done { 0int } else { 1int },
        {
            if height == i64::MAX {
                done = true;
            } else {
                match start.y.checked_add(height) {
                    None => {
                        done = true;
                    },
                    Some(py) => {
                        let ghost below = rect(start.x as int, py as int, width as int, 1);
                        let ghost upper = rect(start.x as int, start.y as int, width as int, height as int);
                        if row_is_full(tiles, start.x, py, width) {
                            height = height + 1;
                            proof {
                                let grown = rect(start.x as int, start.y as int, width as int, height as int);
                                assert forall|u: TileCoords| #[trigger] grown.covers(u) implies tiles@.contains(u) by {
                                    if u.y < py {
                                        assert(upper.covers(u));
                                    } else {
                                        assert(below.covers(u));
                                    }
                                }
                            }
                        } else {
                            let ghost miss = choose|u: TileCoords| #[trigger] below.covers(u) && !tiles@.contains(u);
                            assert forall|h: i64| h > height implies !inside(
                                #[trigger] rect(start.x as int, start.y as int, width as int, h as int),
                                tiles@,
                            ) by {
                                assert(rect(start.x as int, start.y as int, width as int, h as int).covers(miss));
                            }
                            done = true;
                        }
                    },
                }
            }
        }
        height
    }

    /// A largest rectangle inside `tiles` whose top-left tile is `start`:
    /// for each width up to the run from `start`, the tallest such rectangle,
    /// keeping the first of largest area.
    fn find_largest_rect_from_position(&self, tiles: &TileSet, start: TileCoords) -> (r: Rectangle)
        requires
            tiles.wf(),
            tiles@.contains(start),
        ensures
            is_largest_at(r, tiles@, start),
    {
        let mut best_rect = Rectangle::new(start.x, start.y, 1, 1);
        let mut best_area: i128 = 1;
        proof {
            assert forall|u: TileCoords| #[trigger] best_rect.covers(u) implies tiles@.contains(u) by {
                assert(u == start);
            }
        }
        let max_width = self.find_max_width_from_position(tiles, start);
        assert(max_width >= 1) by {
            assert(inside(rect(start.x as int, start.y as int, 1, 1), tiles@));
        }
        let mut width: i64 = 1;
        let mut done = false;
        while !done
            invariant
                tiles.wf(),
                1 <= width <= max_width,
                inside(rect(start.x as int, start.y as int, max_width as int, 1), tiles@),
                forall|w: i64| w > max_width ==> !inside(#[trigger] rect(start.x as int, start.y as int, w as int, 1), tiles@),
                best_rect.is_proper(),
                inside(best_rect, tiles@),
                best_rect.x == start.x && best_rect.y == start.y,
                best_area == best_rect.area_spec(),
                best_rect.width <= width,
                forall|q: Rectangle|
                    #[trigger] q.is_proper() && inside(q, tiles@) && q.x == start.x && q.y == start.y
                        && (q.width < width || done) ==> q.area_spec() <= best_area,
                forall|q: Rectangle|
                    #[trigger] q.is_proper() && inside(q, tiles@) && q.x == start.x && q.y == start.y
                        && (q.width < width || done) && q.area_spec() == best_area ==> q.width >= best_rect.width,
            decreases max_width - width, if done { 0int } else { 1int },
        {
            proof {
                assert forall|u: TileCoords| #[trigger] rect(start.x as int, start.y as int, width as int, 1).covers(u)
                    implies tiles@.contains(u) by {
                    assert(rect(start.x as int, start.y as int, max_width as int, 1).covers(u));
                }
            }
            let height = self.find_max_height_for_width(tiles, start, width);
            assert(height >= 1) by {
                assert(inside(rect(start.x as int, start.y as int, width as int, 1), tiles@));
            }
            assert(0 <= width * height <= i64::MAX * i64::MAX) by (nonlinear_arith)
                requires 1 <= width <= i64::MAX, 1 <= height <= i64::MAX;
            let area: i128 = width as i128 * height as i128;
            let ghost prev_area = best_area;
            let ghost prev_width = best_rect.width;
            if area > best_area {
                best_area = area;
                best_rect = Rectangle::new(start.x, start.y, width, height);
            }
            proof {
                assert forall|q: Rectangle|
                    #[trigger] q.is_proper() && inside(q, tiles@) && q.x == start.x && q.y == start.y
                        && q.width <= width implies q.area_spec() <= best_area by {
                    if q.width == width {
                        if q.height > height {
                            assert(q == rect(start.x as int, start.y as int, width as int, q.height as int));
                        }
                        assert(q.width * q.height <= width * height) by (nonlinear_arith)
                            requires q.width == width, q.height <= height, width >= 1;
                    }
                }
                assert forall|q: Rectangle|
                    #[trigger] q.is_proper() && inside(q, tiles@) && q.x == start.x && q.y == start.y
                        && q.width <= width && q.area_spec() == best_area implies q.width >= best_rect.width by {
                    if q.width < width && area > prev_area {
                        assert(q.area_spec() <= prev_area);
                    }
                }
            }
            if width == max_width {
                proof {
                    assert forall|q: Rectangle|
                        #[trigger] q.is_proper() && inside(q, tiles@) && q.x == start.x && q.y == start.y
                            implies q.width <= max_width by {
                        if q.width > max_width {
                            let row = rect(start.x as int, start.y as int, q.width as int, 1);
                            assert forall|u: TileCoords| #[trigger] row.covers(u) implies tiles@.contains(u) by {
                                assert(q.covers(u));
                            }
                            assert(inside(row, tiles@));
                        }
                    }
                }
                done = true;
            } else {
                width = width + 1;
            }
        }
        best_rect
    }

    /// A largest rectangle inside `tiles`: every tile is tried as the
    /// top-left corner, in row-major order, keeping the first of largest area.
    fn find_best_rectangle(&self, tiles: &TileSet) -> (r: Rectangle)
        requires
            tiles.wf(),
            tiles@.len() > 0,
        ensures
            is_first_largest(r, tiles@),
    {
        proof {
            tiles.lemma_items();
        }
        let n = tiles.len();
        let first = tiles.get(0);
        let mut best_rect = self.find_largest_rect_from_position(tiles, first);
        proof {
            lemma_area_fits(best_rect);
        }
        let mut best_area: i128 = best_rect.width as i128 * best_rect.height as i128;
        let ghost mut best_index: int = 0;
        let mut i: usize = 1;
        while i < n
            invariant
                tiles.wf(),
                n == tiles.items().len(),
                1 <= i <= n,
                0 <= best_index < i,
                is_largest_at(best_rect, tiles@, tiles.items()[best_index]),
                best_area == best_rect.area_spec(),
                forall|q: Rectangle, j: int|
                    0 <= j < i && #[trigger] q.is_proper() && inside(q, tiles@) && q.x == (#[trigger] tiles.items()[j]).x
                        && q.y == tiles.items()[j].y ==> q.area_spec() <= best_area,
                forall|q: Rectangle, j: int|
                    0 <= j < i && #[trigger] q.is_proper() && inside(q, tiles@) && q.x == (#[trigger] tiles.items()[j]).x
                        && q.y == tiles.items()[j].y && q.area_spec() == best_area ==> best_index <= j,
            decreases n - i,
        {
            let corner = tiles.get(i);
            let candidate = self.find_largest_rect_from_position(tiles, corner);
            proof {
                lemma_area_fits(candidate);
            }
            let area: i128 = candidate.width as i128 * candidate.height as i128;
            let ghost prev_area = best_area;
            if area > best_area {
                best_area = area;
                best_rect = candidate;
                proof {
                    best_index = i as int;
                }
            }
            proof {
                assert forall|q: Rectangle, j: int|
                    0 <= j < i + 1 && #[trigger] q.is_proper() && inside(q, tiles@) && q.x == (
                    #[trigger] tiles.items()[j]).x && q.y == tiles.items()[j].y && q.area_spec() == best_area
                    implies best_index <= j by {
                    if j < i && area > prev_area {
                        assert(q.area_spec() <= prev_area);
                    }
                }
            }
            i = i + 1;
        }
        proof {
            let items = tiles.items();
            assert forall|q: Rectangle| #[trigger] q.is_proper() && inside(q, tiles@) implies q.area_spec()
                <= best_area && (q.area_spec() == best_area ==> !tile_lt(corner_of(q), corner_of(best_rect))
                && (q.x == best_rect.x && q.y == best_rect.y ==> q.width >= best_rect.width)) by {
                let corner = corner_of(q);
                assert(q.covers(corner));
                assert(items.contains(corner));
                let j = choose|j: int| 0 <= j < items.len() && items[j] == corner;
                assert(q.x == items[j].x);
                if q.area_spec() == best_area {
                    assert(best_index <= j);
                    if best_index < j {
                        assert(tile_lt(items[best_index], items[j]));
                    }
                }
            }
        }
        best_rect
    }

    /// Covers `tiles` with rectangles: repeatedly takes a largest rectangle
    /// inside the tiles not yet covered, until none is left. Of rectangles
    /// equally large, the one whose corner comes first in row-major order is
    /// taken, and of those the narrowest.
    pub fn merge_tiles(&self, tiles: &TileSet) -> (r: Vec<Rectangle>)
        requires
            tiles.wf(),
        ensures
            is_merge_of(r@, tiles@),
    {
        proof {
            tiles.lemma_items();
        }
        let mut remaining = tiles.duplicate();
        let mut rectangles: Vec<Rectangle> = Vec::new();
        proof {
            assert(remaining@ =~= tiles@.difference(covered(rectangles@)));
        }
        while !remaining.is_empty()
            invariant
                tiles.wf(),
                remaining.wf(),
                tiles@.finite(),
                remaining@ == tiles@.difference(covered(rectangles@)),
                covered(rectangles@).subset_of(tiles@),
                pairwise_disjoint(rectangles@),
                total_area(rectangles@) + remaining@.len() == tiles@.len(),
                greedy_cover(rectangles@, tiles@),
            decreases remaining@.len(),
        {
            proof {
                remaining.lemma_items();
            }
            let best = self.find_best_rectangle(&remaining);
            let ghost before = remaining@;
            let ghost done = rectangles@;
            let covered_tiles = best.get_covered_tiles();
            proof {
                lemma_area_fits(best);
                assert forall|j: int| 0 <= j < covered_tiles@.len() implies remaining@.contains(
                    #[trigger] covered_tiles@[j],
                ) by {
                    assert(covered_tiles@.contains(covered_tiles@[j]));
                    assert(best.covers(covered_tiles@[j]));
                }
            }
            let mut k: usize = 0;
            while k < covered_tiles.len()
                invariant
                    remaining.wf(),
                    before.finite(),
                    0 <= k <= covered_tiles@.len(),
                    covered_tiles@.no_duplicates(),
                    forall|t: TileCoords| #[trigger] covered_tiles@.contains(t) ==> before.contains(t),
                    forall|j: int| k <= j < covered_tiles@.len() ==> remaining@.contains(#[trigger] covered_tiles@[j]),
                    forall|t: TileCoords|
                        #[trigger] remaining@.contains(t) <==> before.contains(t) && !covered_tiles@.subrange(0, k as int).contains(t),
                    remaining@.finite(),
                    remaining@.len() == before.len() - k,
                decreases covered_tiles@.len() - k,
            {
                let ghost prev = remaining@;
                let t = covered_tiles[k];
                remaining.remove(&t);
                proof {
                    remaining.lemma_items();
                    assert forall|j: int| k + 1 <= j < covered_tiles@.len() implies remaining@.contains(
                        #[trigger] covered_tiles@[j],
                    ) by {
                        assert(covered_tiles@[j] != covered_tiles@[k as int]);
                    }
                    assert forall|u: TileCoords|
                        #[trigger] remaining@.contains(u) <==> before.contains(u)
                            && !covered_tiles@.subrange(0, k + 1).contains(u) by {
                        let a = covered_tiles@.subrange(0, k as int);
                        let b = covered_tiles@.subrange(0, k + 1);
                        if a.contains(u) {
                            let j = choose|j: int| 0 <= j < a.len() && #[trigger] a[j] == u;
                            assert(b[j] == u);
                        }
                        if b.contains(u) {
                            let j = choose|j: int| 0 <= j < b.len() && #[trigger] b[j] == u;
                            if j < k {
                                assert(a[j] == u);
                            }
                        }
                        assert(covered_tiles@.subrange(0, k + 1)[k as int] == t);
                    }
                }
                k = k + 1;
            }
            rectangles.push(best);
            proof {
                assert(covered_tiles@.subrange(0, covered_tiles@.len() as int) =~= covered_tiles@);
                assert(rectangles@.drop_last() =~= done);
                assert(remaining@ =~= tiles@.difference(covered(rectangles@)));
                assert(covered(rectangles@).subset_of(tiles@));
                assert forall|i: int, j: int| 0 <= i < j < rectangles@.len() implies (
                #[trigger] rectangles@[i]).tile_set().disjoint((#[trigger] rectangles@[j]).tile_set()) by {
                    if j == done.len() {
                        lemma_covered_contains(done, i);
                        assert(rectangles@[i] == done[i]);
                    } else {
                        assert(rectangles@[i] == done[i]);
                        assert(rectangles@[j] == done[j]);
                    }
                }
                assert forall|k: int| 0 <= k < rectangles@.len() implies is_first_largest(
                    #[trigger] rectangles@[k],
                    tiles@.difference(covered(rectangles@.take(k))),
                ) by {
                    if k < done.len() {
                        assert(rectangles@.take(k) =~= done.take(k));
                        assert(rectangles@[k] == done[k]);
                    } else {
                        assert(rectangles@.take(k) =~= done);
                    }
                }
            }
        }
        proof {
            assert(covered(rectangles@) =~= tiles@);
        }
        rectangles
    }
    /// The world placement of one rectangle.
    fn world_coords_of(&self, r: &Rectangle) -> (p: (i64, i64, i64, i64))
        requires
            placement_fits(*r, self.tile_size as int),
        ensures
            (p.0 as int, p.1 as int, p.2 as int, p.3 as int) == world_placement(*r, self.tile_size as int),
    {
        let cell = self.tile_size as i128;
        proof {
            lemma_product_fits(r.x as int, cell as int);
            lemma_product_fits(r.y as int, cell as int);
            lemma_product_fits(r.width as int, cell as int);
            lemma_product_fits(r.height as int, cell as int);
        }
        let total_width: i128 = r.width as i128 * cell;
        let total_height: i128 = r.height as i128 * cell;
        let center_x: i128 = r.x as i128 * cell + total_width / 2;
        let center_y: i128 = r.y as i128 * cell + total_height / 2;
        (center_x as i64, center_y as i64, total_width as i64, total_height as i64)
    }

    /// The world placement of each rectangle: centre and extent, with tile
    /// units scaled by the tile size.
    pub fn rectangles_to_world_coords(&self, rectangles: &Vec<Rectangle>) -> (r: Vec<(i64, i64, i64, i64)>)
        requires
            forall|i: int| 0 <= i < rectangles@.len() ==> placement_fits(#[trigger] rectangles@[i], self.tile_size as int),
        ensures
            r@.len() == rectangles@.len(),
            forall|i: int|
                0 <= i < r@.len() ==> ((#[trigger] r@[i]).0 as int, r@[i].1 as int, r@[i].2 as int, r@[i].3 as int)
                    == world_placement(rectangles@[i], self.tile_size as int),
    {
        let mut out: Vec<(i64, i64, i64, i64)> = Vec::new();
        let mut i: usize = 0;
        while i < rectangles.len()
            invariant
                i <= rectangles@.len(),
                out@.len() == i,
                forall|i: int| 0 <= i < rectangles@.len() ==> placement_fits(#[trigger] rectangles@[i], self.tile_size as int),
                forall|j: int|
                    0 <= j < i ==> ((#[trigger] out@[j]).0 as int, out@[j].1 as int, out@[j].2 as int, out@[j].3 as int)
                        == world_placement(rectangles@[j], self.tile_size as int),
            decreases rectangles@.len() - i,
        {
            let p = self.world_coords_of(&rectangles[i]);
            out.push(p);
            i = i + 1;
        }
        out
    }
    /// The world placements of the rectangles that `merge_tiles` makes of
    /// `tiles`.
    pub fn create_collider_data(&self, tiles: &TileSet) -> (r: Vec<(i64, i64, i64, i64)>)
        requires
            tiles.wf(),
            forall|t: TileCoords| #[trigger] tiles@.contains(t) ==> tile_in_world(t),
            -WORLD_TILE_LIMIT <= self.tile_size <= WORLD_TILE_LIMIT,
        ensures
            exists|rs: Seq<Rectangle>| is_merge_of(rs, tiles@) && places(r@, rs, self.tile_size as int),
    {
        let rectangles = self.merge_tiles(tiles);
        proof {
            assert forall|i: int| 0 <= i < rectangles@.len() implies placement_fits(
                #[trigger] rectangles@[i],
                self.tile_size as int,
            ) by {
                let q = rectangles@[i];
                lemma_covered_contains(rectangles@, i);
                assert(is_largest_inside(q, tiles@.difference(covered(rectangles@.take(i)))));
                let near = TileCoords { x: q.x, y: q.y };
                let far = TileCoords { x: (q.x + q.width - 1) as i64, y: (q.y + q.height - 1) as i64 };
                assert(q.covers(near));
                assert(q.covers(far));
                assert(q.tile_set().contains(near));
                assert(q.tile_set().contains(far));
                lemma_world_fits(q, self.tile_size as int);
            }
        }
        let r = self.rectangles_to_world_coords(&rectangles);
        assert(is_merge_of(rectangles@, tiles@) && places(r@, rectangles@, self.tile_size as int));
        r
    }
}

/// A proper rectangle between two tiles of the world's bound has a world
/// placement that fits in `i64`.
proof fn lemma_world_fits(r: Rectangle, cell: int)
    requires
        r.is_proper(),
        -WORLD_TILE_LIMIT <= r.x,
        r.x + r.width - 1 <= WORLD_TILE_LIMIT,
        -WORLD_TILE_LIMIT <= r.y,
        r.y + r.height - 1 <= WORLD_TILE_LIMIT,
        -WORLD_TILE_LIMIT <= cell <= WORLD_TILE_LIMIT,
    ensures
        placement_fits(r, cell),
{
    let l: int = WORLD_TILE_LIMIT as int;
    assert(l == 0x4000_0000);
    lemma_small_product(r.x as int, cell, l);
    lemma_small_product(r.y as int, cell, l);
    lemma_small_product(r.width as int, cell, 2 * l + 1);
    lemma_small_product(r.height as int, cell, 2 * l + 1);
}

proof fn lemma_small_product(a: int, b: int, bound: int)
    requires
        -bound <= a <= bound,
        -0x4000_0000 <= b <= 0x4000_0000,
        0 <= bound <= 0x8000_0001,
    ensures
        -0x2000_0000_4000_0000 <= a * b <= 0x2000_0000_4000_0000,
{
    assert(-0x2000_0000_4000_0000 <= a * b <= 0x2000_0000_4000_0000) by (nonlinear_arith)
        requires
            -bound <= a <= bound,
            -0x4000_0000 <= b <= 0x4000_0000,
            0 <= bound <= 0x8000_0001;
}

/// The product of two `i64` values fits in an `i128`, with room for a sum.
proof fn lemma_product_fits(a: int, b: int)
    requires
        fits_i64(a),
        fits_i64(b),
    ensures
        -0x4000_0000_0000_0000_0000_0000_0000_0000 <= a * b <= 0x4000_0000_0000_0000_0000_0000_0000_0000,
{
    assert(-0x4000_0000_0000_0000_0000_0000_0000_0000 <= a * b <= 0x4000_0000_0000_0000_0000_0000_0000_0000) by (nonlinear_arith)
        requires
            -0x8000_0000_0000_0000 <= a <= 0x8000_0000_0000_0000,
            -0x8000_0000_0000_0000 <= b <= 0x8000_0000_0000_0000;
}

/// A solid rectangle of tiles merges into that one rectangle: no other
/// proper rectangle inside it is as large, and nothing is left after it.
pub proof fn lemma_solid_block_is_one_rectangle(rs: Seq<Rectangle>, b: Rectangle)
    requires
        b.is_proper(),
        b.x + b.width <= i64::MAX + 1,
        b.y + b.height <= i64::MAX + 1,
        is_merge_of(rs, b.tile_set()),
    ensures
        rs == seq![b],
{
    let t = b.tile_set();
    assert(inside(b, t));
    let corner = TileCoords { x: b.x, y: b.y };
    assert(b.covers(corner));
    if rs.len() == 0 {
        assert(covered(rs) =~= Set::<TileCoords>::empty());
        assert(t.contains(corner));
    }
    assert(rs.take(0) =~= Seq::<Rectangle>::empty());
    assert(covered(rs.take(0)) =~= Set::<TileCoords>::empty());
    assert(t.difference(covered(rs.take(0))) =~= t);
    let r = rs[0];
    assert(is_largest_inside(r, t));
    let near = TileCoords { x: r.x, y: r.y };
    let far = TileCoords { x: (r.x + r.width - 1) as i64, y: (r.y + r.height - 1) as i64 };
    assert(r.covers(near));
    assert(r.covers(far));
    assert(b.covers(near) && b.covers(far));
    assert(r.width <= b.width && r.height <= b.height);
    assert(r.area_spec() >= b.area_spec());
    if r.width < b.width {
        assert(r.width * r.height < b.width * b.height) by (nonlinear_arith)
            requires 1 <= r.width < b.width, 1 <= r.height <= b.height;
    }
    if r.height < b.height {
        assert(r.width * r.height < b.width * b.height) by (nonlinear_arith)
            requires 1 <= r.width <= b.width, 1 <= r.height < b.height;
    }
    assert(r == b);
    if rs.len() > 1 {
        assert(rs.take(1).drop_last() =~= Seq::<Rectangle>::empty());
        assert(rs.take(1).last() == b);
        assert(covered(rs.take(1)) =~= t);
        let rest = t.difference(covered(rs.take(1)));
        assert(rest =~= Set::<TileCoords>::empty());
        let q = rs[1];
        assert(is_largest_inside(q, rest));
        assert(q.covers(TileCoords { x: q.x, y: q.y }));
    }
    assert(rs =~= seq![b]);
}

/// A merge into a single rectangle covers exactly that rectangle's tiles:
/// a set of tiles that is no rectangle, such as an L, merges into two or
/// more.
pub proof fn lemma_single_rectangle_merge(rs: Seq<Rectangle>, t: Set<TileCoords>)
    requires
        is_merge_of(rs, t),
        rs.len() == 1,
    ensures
        t == rs[0].tile_set(),
{
    assert(rs.drop_last() =~= Seq::<Rectangle>::empty());
    assert(covered(rs) =~= rs[0].tile_set());
}

/// Each rectangle's tiles are among those that the sequence covers.
pub proof fn lemma_covered_contains(rs: Seq<Rectangle>, i: int)
    requires
        0 <= i < rs.len(),
    ensures
        rs[i].tile_set().subset_of(covered(rs)),
    decreases rs.len(),
{
    if i < rs.len() - 1 {
        lemma_covered_contains(rs.drop_last(), i);
        assert(rs.drop_last()[i] == rs[i]);
    }
}

/// The area of a proper rectangle fits in an `i128`.
proof fn lemma_area_fits(r: Rectangle)
    requires
        r.is_proper(),
    ensures
        1 <= r.area_spec() <= i64::MAX * i64::MAX,
{
    assert(1 <= r.width * r.height <= i64::MAX * i64::MAX) by (nonlinear_arith)
        requires 1 <= r.width <= i64::MAX, 1 <= r.height <= i64::MAX;
}

} // verus!
