//! Tile coordinates, tile rectangles and ordered sets of tiles.
use vstd::prelude::*;

verus! {

/// One cell of the level grid, addressed by column `x` and row `y`.
#[derive(Clone, Copy, Debug, PartialEq, Eq, Hash, Structural)]
pub struct TileCoords {
    pub x: i64,
    pub y: i64,
}

/// Row-major order on tiles: by row first, then by column.
pub open spec fn tile_lt(a: TileCoords, b: TileCoords) -> bool {
    a.y < b.y || (a.y == b.y && a.x < b.x)
}

/// Every earlier element of `s` comes strictly before every later one.
pub open spec fn strictly_sorted(s: Seq<TileCoords>) -> bool {
    forall|i: int, j: int| 0 <= i < j < s.len() ==> tile_lt(#[trigger] s[i], #[trigger] s[j])
}

/// The grid value that marks a solid cell.
pub const SOLID_CELL: i64 = 1;

/// In a row-major grid `width` cells wide, the cell at tile `t` exists and
/// is solid.
pub open spec fn is_solid_cell(cells: Seq<i64>, width: int, t: TileCoords) -> bool {
    &&& 0 <= t.x < width
    &&& 0 <= t.y
    &&& t.y * width + t.x < cells.len()
    &&& cells[t.y * width + t.x] == SOLID_CELL
}

/// Row-major order of two cells of a grid agrees with the order of their
/// indices.
proof fn lemma_index_order(a: TileCoords, b: TileCoords, width: int)
    requires
        0 <= a.x < width,
        0 <= b.x < width,
        a.y * width + a.x < b.y * width + b.x,
    ensures
        tile_lt(a, b),
{
    if a.y > b.y {
        assert(a.y * width >= (b.y + 1) * width) by (nonlinear_arith)
            requires a.y >= b.y + 1, width > 0;
        assert((b.y + 1) * width == b.y * width + width) by (nonlinear_arith);
    }
}

/// A finite set of tiles, kept in row-major order.
pub struct TileSet {
    tiles: Vec<TileCoords>,
}

impl View for TileSet {
    type V = Set<TileCoords>;

    closed spec fn view(&self) -> Set<TileCoords> {
        self.tiles@.to_set()
    }
}

impl TileSet {
    /// The set's well-formedness: its elements stand in row-major order.
    pub closed spec fn wf(&self) -> bool {
        strictly_sorted(self.tiles@)
    }

    /// The elements in row-major order.
    pub closed spec fn items(&self) -> Seq<TileCoords> {
        self.tiles@
    }

    /// What the ordered elements say of the set.
    pub proof fn lemma_items(&self)
        requires
            self.wf(),
        ensures
            self.items().no_duplicates(),
            strictly_sorted(self.items()),
            self@.finite(),
            self@.len() == self.items().len(),
            forall|t: TileCoords| #[trigger] self@.contains(t) <==> self.items().contains(t),
    {
        self.tiles@.unique_seq_to_set();
        vstd::seq_lib::seq_to_set_is_finite(self.tiles@);
    }

    /// The empty set.
    pub fn new() -> (r: TileSet)
        ensures
            r.wf(),
            r@ == Set::<TileCoords>::empty(),
    {
        let r = TileSet { tiles: Vec::new() };
        assert(r@ =~= Set::<TileCoords>::empty());
        r
    }

    /// The number of tiles in the set.
    pub fn len(&self) -> (r: usize)
        requires
            self.wf(),
        ensures
            r == self@.len(),
            r == self.items().len(),
    {
        proof {
            self.lemma_items();
        }
        self.tiles.len()
    }

    /// Whether the set holds no tile.
    pub fn is_empty(&self) -> (r: bool)
        requires
            self.wf(),
        ensures
            r == (self@.len() == 0),
            r == (self@ == Set::<TileCoords>::empty()),
    {
        proof {
            self.lemma_items();
            if self.tiles@.len() > 0 {
                assert(self@.contains(self.tiles@[0]));
            }
        }
        assert(self.tiles@.len() == 0 ==> self@ =~= Set::<TileCoords>::empty());
        self.tiles.len() == 0
    }

    /// The `i`-th tile in row-major order.
    pub fn get(&self, i: usize) -> (r: TileCoords)
        requires
            self.wf(),
            i < self.items().len(),
        ensures
            r == self.items()[i as int],
            self@.contains(r),
    {
        proof {
            self.lemma_items();
        }
        self.tiles[i]
    }

    /// Binary search: the index of `t`, or the index at which it would be
    /// inserted to keep the order.
    fn search(&self, t: TileCoords) -> (r: (bool, usize))
        requires
            self.wf(),
        ensures
            r.1 <= self.tiles@.len(),
            r.0 ==> r.1 < self.tiles@.len() && self.tiles@[r.1 as int] == t,
            !r.0 ==> forall|i: int| 0 <= i < r.1 ==> tile_lt(#[trigger] self.tiles@[i], t),
            !r.0 ==> forall|i: int|
                r.1 <= i < self.tiles@.len() ==> tile_lt(t, #[trigger] self.tiles@[i]),
    {
        let mut lo: usize = 0;
        let mut hi: usize = self.tiles.len();
        while lo < hi
            invariant
                self.wf(),
                lo <= hi <= self.tiles@.len(),
                forall|i: int| 0 <= i < lo ==> tile_lt(#[trigger] self.tiles@[i], t),
                forall|i: int| hi <= i < self.tiles@.len() ==> tile_lt(t, #[trigger] self.tiles@[i]),
            decreases hi - lo,
        {
            let mid: usize = lo + (hi - lo) / 2;
            let m = self.tiles[mid];
            if m.y < t.y || (m.y == t.y && m.x < t.x) {
                assert forall|i: int| 0 <= i <= mid implies tile_lt(#[trigger] self.tiles@[i], t) by {
                    if i < mid {
                        assert(tile_lt(self.tiles@[i], self.tiles@[mid as int]));
                    }
                }
                lo = mid + 1;
            } else if t.y < m.y || (t.y == m.y && t.x < m.x) {
                assert forall|i: int| mid <= i < self.tiles@.len() implies tile_lt(
                    t,
                    #[trigger] self.tiles@[i],
                ) by {
                    if i > mid {
                        assert(tile_lt(self.tiles@[mid as int], self.tiles@[i]));
                    }
                }
                hi = mid;
            } else {
                return (true, mid);
            }
        }
        (false, lo)
    }

    /// Whether `t` belongs to the set.
    pub fn contains(&self, t: &TileCoords) -> (r: bool)
        requires
            self.wf(),
        ensures
            r == self@.contains(*t),
    {
        let (found, pos) = self.search(*t);
        proof {
            self.lemma_items();
            if !found && self.tiles@.contains(*t) {
                let k = choose|k: int| 0 <= k < self.tiles@.len() && self.tiles@[k] == *t;
                if k < pos {
                    assert(tile_lt(self.tiles@[k], *t));
                } else {
                    assert(tile_lt(*t, self.tiles@[k]));
                }
            }
            if found {
                assert(self.tiles@.contains(self.tiles@[pos as int]));
            }
        }
        found
    }
    /// A second set with the same tiles.
    pub fn duplicate(&self) -> (r: TileSet)
        requires
            self.wf(),
        ensures
            r.wf(),
            r@ == self@,
            r.items() == self.items(),
    {
        let mut tiles: Vec<TileCoords> = Vec::new();
        let mut i: usize = 0;
        while i < self.tiles.len()
            invariant
                i <= self.tiles@.len(),
                tiles@ == self.tiles@.subrange(0, i as int),
            decreases self.tiles@.len() - i,
        {
            tiles.push(self.tiles[i]);
            i = i + 1;
            assert(tiles@ =~= self.tiles@.subrange(0, i as int));
        }
        assert(tiles@ =~= self.tiles@);
        TileSet { tiles }
    }

    /// The solid cells of a row-major grid `width` cells wide.
    pub fn from_grid(cells: &Vec<i64>, width: usize) -> (r: TileSet)
        requires
            width > 0,
            cells@.len() <= i64::MAX,
        ensures
            r.wf(),
            forall|t: TileCoords| #[trigger] r@.contains(t) <==> is_solid_cell(cells@, width as int, t),
    {
        let mut tiles: Vec<TileCoords> = Vec::new();
        let mut index: usize = 0;
        while index < cells.len()
            invariant
                width > 0,
                cells@.len() <= i64::MAX,
                index <= cells@.len(),
                strictly_sorted(tiles@),
                forall|k: int|
                    0 <= k < tiles@.len() ==> is_solid_cell(cells@, width as int, #[trigger] tiles@[k])
                        && tiles@[k].y * width + tiles@[k].x < index,
                forall|t: TileCoords|
                    is_solid_cell(cells@, width as int, t) && t.y * width + t.x < index ==> #[trigger] tiles@.contains(t),
            decreases cells@.len() - index,
        {
            if cells[index] == SOLID_CELL {
                let x: i64 = (index % width) as i64;
                let y: i64 = (index / width) as i64;
                let t = TileCoords { x, y };
                proof {
                    vstd::arithmetic::div_mod::lemma_fundamental_div_mod(index as int, width as int);
                    assert(index as int == y * width + x) by (nonlinear_arith)
                        requires index as int == width * (index as int / width as int) + (index as int % width as int),
                            y == index as int / width as int, x == index as int % width as int;
                }
                let ghost before = tiles@;
                tiles.push(t);
                proof {
                    assert(tiles@[before.len() as int] == t);
                    assert forall|i: int, j: int| 0 <= i < j < tiles@.len() implies tile_lt(
                        #[trigger] tiles@[i],
                        #[trigger] tiles@[j],
                    ) by {
                        if j < before.len() {
                            assert(tile_lt(before[i], before[j]));
                        } else {
                            lemma_index_order(before[i], t, width as int);
                        }
                    }
                    assert forall|u: TileCoords|
                        is_solid_cell(cells@, width as int, u) && u.y * width + u.x < index + 1 implies #[trigger] tiles@.contains(u) by {
                        if u.y * width + u.x == index {
                            vstd::arithmetic::div_mod::lemma_fundamental_div_mod_converse(
                                index as int, width as int, u.y as int, u.x as int);
                            assert(u == t);
                        } else {
                            assert(before.contains(u));
                            let k = choose|k: int| 0 <= k < before.len() && before[k] == u;
                            assert(tiles@[k] == u);
                        }
                    }
                }
            } else {
                proof {
                    assert forall|u: TileCoords|
                        is_solid_cell(cells@, width as int, u) && u.y * width + u.x < index + 1 implies #[trigger] tiles@.contains(u) by {
                        if u.y * width + u.x == index {
                            assert(cells@[index as int] != SOLID_CELL);
                        }
                    }
                }
            }
            index = index + 1;
        }
        let r = TileSet { tiles };
        proof {
            assert forall|t: TileCoords| #[trigger] r@.contains(t) <==> is_solid_cell(cells@, width as int, t) by {
                if r.tiles@.contains(t) {
                    let k = choose|k: int| 0 <= k < r.tiles@.len() && r.tiles@[k] == t;
                    assert(is_solid_cell(cells@, width as int, r.tiles@[k]));
                }
            }
        }
        r
    }

    /// Adds `t`; returns whether it was absent before.
    pub fn insert(&mut self, t: TileCoords) -> (r: bool)
        requires
            old(self).wf(),
        ensures
            final(self).wf(),
            final(self)@ == old(self)@.insert(t),
            r == !old(self)@.contains(t),
    {
        let (found, pos) = self.search(t);
        proof {
            self.lemma_items();
        }
        if found {
            proof {
                assert(self.tiles@.contains(self.tiles@[pos as int]));
                assert(self@.insert(t) =~= self@);
            }
            return false;
        }
        let ghost before = self.tiles@;
        proof {
            if before.contains(t) {
                let k = choose|k: int| 0 <= k < before.len() && before[k] == t;
                if k < pos {
                    assert(tile_lt(before[k], t));
                } else {
                    assert(tile_lt(t, before[k]));
                }
            }
        }
        self.tiles.insert(pos, t);
        proof {
            let after = self.tiles@;
            assert(after =~= before.insert(pos as int, t));
            assert forall|i: int, j: int| 0 <= i < j < after.len() implies tile_lt(
                #[trigger] after[i],
                #[trigger] after[j],
            ) by {
                if j < pos {
                    assert(tile_lt(before[i], before[j]));
                } else if j == pos {
                    assert(tile_lt(before[i], t));
                } else if i < pos {
                    assert(tile_lt(before[i], before[j - 1]));
                } else if i == pos {
                    assert(tile_lt(t, before[j - 1]));
                } else {
                    assert(tile_lt(before[i - 1], before[j - 1]));
                }
            }
            assert forall|u: TileCoords| after.contains(u) <==> before.contains(u) || u == t by {
                if after.contains(u) {
                    let k = choose|k: int| 0 <= k < after.len() && after[k] == u;
                    if k < pos {
                        assert(before[k] == u);
                    } else if k > pos {
                        assert(before[k - 1] == u);
                    }
                }
                if before.contains(u) {
                    let k = choose|k: int| 0 <= k < before.len() && before[k] == u;
                    if k < pos {
                        assert(after[k] == u);
                    } else {
                        assert(after[k + 1] == u);
                    }
                }
                if u == t {
                    assert(after[pos as int] == t);
                }
            }
            assert(self@ =~= old(self)@.insert(t));
        }
        true
    }

    /// Removes `t`; returns whether it was present before.
    pub fn remove(&mut self, t: &TileCoords) -> (r: bool)
        requires
            old(self).wf(),
        ensures
            final(self).wf(),
            final(self)@ == old(self)@.remove(*t),
            r == old(self)@.contains(*t),
    {
        let (found, pos) = self.search(*t);
        proof {
            self.lemma_items();
        }
        if !found {
            proof {
                if self.tiles@.contains(*t) {
                    let k = choose|k: int| 0 <= k < self.tiles@.len() && self.tiles@[k] == *t;
                    if k < pos {
                        assert(tile_lt(self.tiles@[k], *t));
                    } else {
                        assert(tile_lt(*t, self.tiles@[k]));
                    }
                }
                assert(self@.remove(*t) =~= self@);
            }
            return false;
        }
        let ghost before = self.tiles@;
        proof {
            assert(before.contains(before[pos as int]));
        }
        self.tiles.remove(pos);
        proof {
            let after = self.tiles@;
            assert(after =~= before.remove(pos as int));
            assert forall|i: int, j: int| 0 <= i < j < after.len() implies tile_lt(
                #[trigger] after[i],
                #[trigger] after[j],
            ) by {
                if j < pos {
                    assert(tile_lt(before[i], before[j]));
                } else if i < pos {
                    assert(tile_lt(before[i], before[j + 1]));
                } else {
                    assert(tile_lt(before[i + 1], before[j + 1]));
                }
            }
            assert forall|u: TileCoords| after.contains(u) <==> before.contains(u) && u != *t by {
                if after.contains(u) {
                    let k = choose|k: int| 0 <= k < after.len() && after[k] == u;
                    if k < pos {
                        assert(before[k] == u);
                        assert(tile_lt(before[k], before[pos as int]));
                    } else {
                        assert(before[k + 1] == u);
                        assert(tile_lt(before[pos as int], before[k + 1]));
                    }
                }
                if before.contains(u) && u != *t {
                    let k = choose|k: int| 0 <= k < before.len() && before[k] == u;
                    if k < pos {
                        assert(after[k] == u);
                    } else {
                        assert(k != pos);
                        assert(after[k - 1] == u);
                    }
                }
            }
            assert(self@ =~= old(self)@.remove(*t));
        }
        true
    }
}

/// An axis-aligned rectangle of tiles: the columns `x .. x + width` of the
/// rows `y .. y + height`.
#[derive(Clone, Copy, Debug, PartialEq, Eq, Structural)]
pub struct Rectangle {
    pub x: i64,
    pub y: i64,
    pub width: i64,
    pub height: i64,
}

/// Column-major order on tiles, the order in which a rectangle lists them.
spec fn column_lt(a: TileCoords, b: TileCoords) -> bool {
    a.x < b.x || (a.x == b.x && a.y < b.y)
}

impl Rectangle {
    /// Whether the rectangle covers tile `t`.
    pub open spec fn covers(self, t: TileCoords) -> bool {
        self.x <= t.x < self.x + self.width && self.y <= t.y < self.y + self.height
    }

    /// The tiles the rectangle covers.
    pub open spec fn tile_set(self) -> Set<TileCoords> {
        Set::new(|t: TileCoords| self.covers(t))
    }

    /// Width times height.
    pub open spec fn area_spec(self) -> int {
        self.width * self.height
    }

    /// Whether the rectangle has at least one row and one column.
    pub open spec fn is_proper(self) -> bool {
        self.width >= 1 && self.height >= 1
    }

    pub fn new(x: i64, y: i64, width: i64, height: i64) -> (r: Rectangle)
        ensures
            r == (Rectangle { x, y, width, height }),
    {
        Rectangle { x, y, width, height }
    }

    /// The number of tiles of a proper rectangle.
    pub fn area(&self) -> (r: i64)
        requires
            i64::MIN <= self.width * self.height <= i64::MAX,
        ensures
            r == self.area_spec(),
    {
        self.width * self.height
    }

    /// Whether the rectangle covers `pos`.
    pub fn contains_tile(&self, pos: &TileCoords) -> (r: bool)
        ensures
            r == self.covers(*pos),
    {
        let px = pos.x as i128;
        let py = pos.y as i128;
        px >= self.x as i128 && px < self.x as i128 + self.width as i128 && py >= self.y as i128
            && py < self.y as i128 + self.height as i128
    }

    /// Every tile the rectangle covers, each once, column by column.
    pub fn get_covered_tiles(&self) -> (r: Vec<TileCoords>)
        requires
            self.x + self.width <= i64::MAX + 1,
            self.y + self.height <= i64::MAX + 1,
        ensures
            r@.no_duplicates(),
            forall|t: TileCoords| #[trigger] r@.contains(t) <==> self.covers(t),
            self.width >= 0 && self.height >= 0 ==> r@.len() == self.area_spec(),
    {
        let mut tiles: Vec<TileCoords> = Vec::new();
        if self.width <= 0 || self.height <= 0 {
            proof {
                assert(self.width == 0 || self.height == 0 ==> self.width * self.height == 0) by (
                nonlinear_arith);
            }
            return tiles;
        }
        let mut dx: i64 = 0;
        while dx < self.width
            invariant
                self.width > 0 && self.height > 0,
                self.x + self.width <= i64::MAX + 1,
                self.y + self.height <= i64::MAX + 1,
                0 <= dx <= self.width,
                tiles@.len() == dx * self.height,
                forall|i: int, j: int|
                    0 <= i < j < tiles@.len() ==> column_lt(#[trigger] tiles@[i], #[trigger] tiles@[j]),
                forall|i: int|
                    0 <= i < tiles@.len() ==> self.covers(#[trigger] tiles@[i]) && tiles@[i].x < self.x
                        + dx,
                forall|t: TileCoords| self.covers(t) && t.x < self.x + dx ==> #[trigger] tiles@.contains(t),
            decreases self.width - dx,
        {
            let x: i64 = self.x + dx;
            let mut dy: i64 = 0;
            while dy < self.height
                invariant
                    self.width > 0 && self.height > 0,
                    self.x + self.width <= i64::MAX + 1,
                    self.y + self.height <= i64::MAX + 1,
                    0 <= dx < self.width,
                    x == self.x + dx,
                    0 <= dy <= self.height,
                    tiles@.len() == dx * self.height + dy,
                    forall|i: int, j: int|
                        0 <= i < j < tiles@.len() ==> column_lt(#[trigger] tiles@[i], #[trigger] tiles@[j]),
                    forall|i: int|
                        0 <= i < tiles@.len() ==> self.covers(#[trigger] tiles@[i]) && (tiles@[i].x < x
                            || (tiles@[i].x == x && tiles@[i].y < self.y + dy)),
                    forall|t: TileCoords|
                        self.covers(t) && (t.x < x || (t.x == x && t.y < self.y + dy))
                            ==> #[trigger] tiles@.contains(t),
                decreases self.height - dy,
            {
                let ghost before = tiles@;
                let t = TileCoords { x, y: self.y + dy };
                tiles.push(t);
                proof {
                    assert(tiles@[before.len() as int] == t);
                    assert forall|i: int, j: int| 0 <= i < j < tiles@.len() implies column_lt(
                        #[trigger] tiles@[i],
                        #[trigger] tiles@[j],
                    ) by {
                        if j < before.len() {
                            assert(column_lt(before[i], before[j]));
                        } else {
                            assert(self.covers(before[i]));
                        }
                    }
                    assert forall|u: TileCoords|
                        self.covers(u) && (u.x < x || (u.x == x && u.y < self.y + dy + 1)) implies #[trigger] tiles@.contains(u) by {
                        if u == t {
                        } else {
                            assert(before.contains(u));
                            let k = choose|k: int| 0 <= k < before.len() && before[k] == u;
                            assert(tiles@[k] == u);
                        }
                    }
                }
                dy = dy + 1;
            }
            proof {
                assert(dx * self.height + self.height == (dx + 1) * self.height) by (nonlinear_arith);
            }
            dx = dx + 1;
        }
        proof {
            assert forall|i: int, j: int|
                0 <= i < tiles@.len() && 0 <= j < tiles@.len() && i != j implies tiles@[i] != tiles@[j] by {
                if i < j {
                    assert(column_lt(tiles@[i], tiles@[j]));
                } else {
                    assert(column_lt(tiles@[j], tiles@[i]));
                }
            }
            assert forall|t: TileCoords| #[trigger] tiles@.contains(t) implies self.covers(t) by {
                let k = choose|k: int| 0 <= k < tiles@.len() && tiles@[k] == t;
                assert(self.covers(tiles@[k]));
            }
        }
        tiles
    }
}

} // verus!
