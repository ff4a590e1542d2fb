use vstd::prelude::*;

verus! {

/// Number of columns of the map.
pub const MAP_WIDTH: i32 = 80;

/// Number of rows of the map.
pub const MAP_HEIGHT: i32 = 45;

/// One cell of the map: whether it stops movement and whether it stops sight.
#[derive(Clone, Copy, Debug, PartialEq, Eq, Structural)]
pub struct Tile {
    pub blocked: bool,
    pub block_sight: bool,
}

impl Tile {
    /// A floor cell: passable and transparent.
    pub fn empty() -> (t: Tile)
        ensures
            t == (Tile { blocked: false, block_sight: false }),
    {
        Tile { blocked: false, block_sight: false }
    }

    /// A wall cell: impassable and opaque.
    pub fn wall() -> (t: Tile)
        ensures
            t == (Tile { blocked: true, block_sight: true }),
    {
        Tile { blocked: true, block_sight: true }
    }
}

/// Whether `(x, y)` lies on the map.
pub open spec fn in_bounds(x: int, y: int) -> bool {
    0 <= x < MAP_WIDTH && 0 <= y < MAP_HEIGHT
}

/// The cells that the fixed map makes walls.
pub open spec fn fixture_wall(x: int, y: int) -> bool {
    (x == 30 && y == 22) || (x == 50 && y == 24)
}

/// The tile that the fixed map holds at an in-bounds cell.
pub open spec fn fixture_tile(x: int, y: int) -> Tile {
    if fixture_wall(x, y) {
        Tile { blocked: true, block_sight: true }
    } else {
        Tile { blocked: false, block_sight: false }
    }
}

/// The world's static part: the tile grid, indexed by column then row.
pub struct Game {
    pub map: Vec<Vec<Tile>>,
}

impl Game {
    /// The grid has `MAP_WIDTH` columns of `MAP_HEIGHT` tiles each.
    pub open spec fn wf(&self) -> bool {
        &&& self.map@.len() == MAP_WIDTH
        &&& forall|x: int| 0 <= x < MAP_WIDTH ==> #[trigger] self.map@[x]@.len() == MAP_HEIGHT
    }

    /// The tile at an in-bounds cell.
    pub open spec fn tile_at(&self, x: int, y: int) -> Tile {
        self.map@[x]@[y]
    }

    /// Movement into `(x, y)` is refused: the cell is off the map or a blocked tile.
    pub open spec fn blocked_at(&self, x: int, y: int) -> bool {
        !in_bounds(x, y) || self.tile_at(x, y).blocked
    }

    /// Sight through `(x, y)` is stopped: the cell is off the map or an opaque tile.
    pub open spec fn opaque_at(&self, x: int, y: int) -> bool {
        !in_bounds(x, y) || self.tile_at(x, y).block_sight
    }

    /// The grid is the fixed map: well formed, walls exactly at the fixture cells.
    pub open spec fn is_fixture(&self) -> bool {
        &&& self.wf()
        &&& forall|x: int, y: int| in_bounds(x, y) ==> #[trigger] self.tile_at(x, y) == fixture_tile(x, y)
    }

    /// Builds the fixed map.
    pub fn new() -> (g: Game)
        ensures
            g.is_fixture(),
    {
        Game { map: make_map() }
    }

    /// Whether movement into `(x, y)` is refused; cells off the map count as blocked.
    pub fn is_blocked(&self, x: i32, y: i32) -> (r: bool)
        requires
            self.wf(),
        ensures
            r == self.blocked_at(x as int, y as int),
    {
        if x < 0 || x >= MAP_WIDTH || y < 0 || y >= MAP_HEIGHT {
            true
        } else {
            self.map[x as usize][y as usize].blocked
        }
    }

    /// Whether `(x, y)` stops sight; cells off the map count as opaque.
    pub fn is_opaque(&self, x: i32, y: i32) -> (r: bool)
        requires
            self.wf(),
        ensures
            r == self.opaque_at(x as int, y as int),
    {
        if x < 0 || x >= MAP_WIDTH || y < 0 || y >= MAP_HEIGHT {
            true
        } else {
            self.map[x as usize][y as usize].block_sight
        }
    }
}

/// Builds the fixed map: every cell empty but the two fixture walls.
pub fn make_map() -> (map: Vec<Vec<Tile>>)
    ensures
        (Game { map }).is_fixture(),
{
    let mut map: Vec<Vec<Tile>> = Vec::new();
    let mut x: i32 = 0;
    while x < MAP_WIDTH
        invariant
            0 <= x <= MAP_WIDTH,
            map@.len() == x,
            forall|i: int| 0 <= i < x ==> #[trigger] map@[i]@.len() == MAP_HEIGHT,
            forall|i: int, j: int|
                0 <= i < x && 0 <= j < MAP_HEIGHT ==> #[trigger] map@[i]@[j] == fixture_tile(i, j),
        decreases MAP_WIDTH - x,
    {
        let mut column: Vec<Tile> = Vec::new();
        let mut y: i32 = 0;
        while y < MAP_HEIGHT
            invariant
                0 <= x < MAP_WIDTH,
                0 <= y <= MAP_HEIGHT,
                column@.len() == y,
                forall|j: int| 0 <= j < y ==> #[trigger] column@[j] == fixture_tile(x as int, j),
            decreases MAP_HEIGHT - y,
        {
            if (x == 30 && y == 22) || (x == 50 && y == 24) {
                column.push(Tile::wall());
            } else {
                column.push(Tile::empty());
            }
            y = y + 1;
        }
        map.push(column);
        x = x + 1;
    }
    map
}

/// The fixed map answers every query the same way: any two grids built by
/// `make_map` agree on what blocks movement and what blocks sight, at every cell.
pub proof fn lemma_map_deterministic(a: Game, b: Game)
    requires
        a.is_fixture(),
        b.is_fixture(),
    ensures
        forall|x: int, y: int| #[trigger] a.blocked_at(x, y) == b.blocked_at(x, y),
        forall|x: int, y: int| #[trigger] a.opaque_at(x, y) == b.opaque_at(x, y),
{
    assert forall|x: int, y: int| #[trigger] a.blocked_at(x, y) == b.blocked_at(x, y) by {
        if in_bounds(x, y) {
            assert(a.tile_at(x, y) == fixture_tile(x, y));
            assert(b.tile_at(x, y) == fixture_tile(x, y));
        }
    }
    assert forall|x: int, y: int| #[trigger] a.opaque_at(x, y) == b.opaque_at(x, y) by {
        if in_bounds(x, y) {
            assert(a.tile_at(x, y) == fixture_tile(x, y));
            assert(b.tile_at(x, y) == fixture_tile(x, y));
        }
    }
}

} // verus!
