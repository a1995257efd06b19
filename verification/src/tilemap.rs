//! Tile maps: the tile kinds, every map's layout, the portals between maps,
//! and which tiles block movement.
pub mod colors;

use crate::chars::str_eq;
use crate::sprites::Dir;
use vstd::prelude::*;

verus! {

/// One kind of map tile.
#[derive(Clone, Copy, PartialEq, Eq, Debug, Structural)]
pub enum Tile {
    Grass,
    Path,
    Water,
    Wall,
    Tree,
    Flower,
    HouseWall,
    Roof,
    Door,
    Window,
    Fence,
    Sign,
    Bridge,
    Chest,
    WoodFloor,
    Rug,
    Table,
    Bookshelf,
    // Aquatic tiles (reef and future water maps)
    SeaFloor,
    Sand,
    Coral,
    Kelp,
    Bubble,
    // Portal markers — walkable tiles that visibly flag a special exit.
    DiveSpot,
    // Space tiles (hub + planets)
    Space,
    Star,
    SpaceRock,
    Launchpad,
    MoonPad,
    MarsPad,
    AsteroidPad,
    MoonGround,
    MarsGround,
    StationFloor,
    // Glitch-only tiles (doghouse)
    Glitch95,
    Glitch96,
    Glitch97,
    Glitch98,
    GlitchWall,
}

/// Tiles nothing can walk onto (unless a secret portal opens them up).
pub open spec fn tile_is_solid(t: Tile) -> bool {
    match t {
        Tile::Water | Tile::Wall | Tile::Tree | Tile::HouseWall | Tile::Roof | Tile::Window
        | Tile::Fence | Tile::Sign | Tile::Chest | Tile::Table | Tile::Bookshelf | Tile::GlitchWall
        | Tile::Coral | Tile::Kelp | Tile::SpaceRock => true,
        _ => false,
    }
}

fn solid_tile(t: Tile) -> (b: bool)
    ensures
        b == tile_is_solid(t),
{
    match t {
        Tile::Water | Tile::Wall | Tile::Tree | Tile::HouseWall | Tile::Roof | Tile::Window
        | Tile::Fence | Tile::Sign | Tile::Chest | Tile::Table | Tile::Bookshelf | Tile::GlitchWall
        | Tile::Coral | Tile::Kelp | Tile::SpaceRock => true,
        _ => false,
    }
}

// ─── PORTALS ────────────────────────────────────────────

/// A tile that sends whoever steps on it to another map.
#[derive(Clone, Copy)]
pub struct Portal {
    pub from_map: &'static str,
    pub from_x: usize,
    pub from_y: usize,
    pub to_map: &'static str,
    pub to_x: usize,
    pub to_y: usize,
    pub dir: Dir,
    pub secret: bool,
    /// Dum Dums the player must spend to pass. 0 = free. A one-time toll.
    pub cost: u32,
    /// Fuel spent each time the player takes this portal (0 = free).
    pub fuel_cost: u32,
}

/// A portal with its map ids as character sequences.
pub struct PortalView {
    pub from_map: Seq<char>,
    pub from_x: usize,
    pub from_y: usize,
    pub to_map: Seq<char>,
    pub to_x: usize,
    pub to_y: usize,
    pub dir: Dir,
    pub secret: bool,
    pub cost: u32,
    pub fuel_cost: u32,
}

impl View for Portal {
    type V = PortalView;

    open spec fn view(&self) -> PortalView {
        PortalView {
            from_map: self.from_map@,
            from_x: self.from_x,
            from_y: self.from_y,
            to_map: self.to_map@,
            to_x: self.to_x,
            to_y: self.to_y,
            dir: self.dir,
            secret: self.secret,
            cost: self.cost,
            fuel_cost: self.fuel_cost,
        }
    }
}

pub open spec fn portal_view(
    from_map: Seq<char>,
    from_x: usize,
    from_y: usize,
    to_map: Seq<char>,
    to_x: usize,
    to_y: usize,
    dir: Dir,
    secret: bool,
    cost: u32,
    fuel_cost: u32,
) -> PortalView {
    PortalView { from_map, from_x, from_y, to_map, to_x, to_y, dir, secret, cost, fuel_cost }
}

/// Every portal in the game, in the order they are checked.
pub open spec fn portal_table() -> Seq<PortalView> {
    seq![
        portal_view("overworld"@, 5, 7, "home"@, 4, 5, Dir::Up, false, 0, 0),
        portal_view("home"@, 4, 6, "overworld"@, 5, 8, Dir::Down, false, 0, 0),
        portal_view("overworld"@, 22, 5, "lab"@, 5, 6, Dir::Up, false, 0, 0),
        portal_view("lab"@, 5, 7, "overworld"@, 22, 6, Dir::Down, false, 0, 0),
        portal_view("overworld"@, 24, 17, "shop"@, 4, 5, Dir::Up, false, 0, 0),
        portal_view("shop"@, 4, 6, "overworld"@, 24, 18, Dir::Down, false, 0, 0),
        portal_view("overworld"@, 16, 14, "dream"@, 14, 13, Dir::Down, true, 0, 0),
        portal_view("dream"@, 16, 14, "overworld"@, 13, 14, Dir::Left, false, 0, 0),
        portal_view("dream"@, 5, 7, "home"@, 4, 5, Dir::Up, false, 0, 0),
        portal_view("dream"@, 22, 5, "lab"@, 5, 6, Dir::Up, false, 0, 0),
        portal_view("dream"@, 24, 17, "shop"@, 4, 5, Dir::Up, false, 0, 0),
        portal_view("overworld"@, 5, 5, "doghouse"@, 7, 1, Dir::Down, true, 0, 0),
        portal_view("dream"@, 5, 5, "doghouse"@, 7, 1, Dir::Down, true, 0, 0),
        portal_view("doghouse"@, 7, 10, "overworld"@, 5, 4, Dir::Down, false, 0, 0),
        portal_view("overworld"@, 15, 0, "grove"@, 5, 8, Dir::Up, true, 0, 0),
        portal_view("dream"@, 15, 0, "grove"@, 5, 8, Dir::Up, true, 0, 0),
        portal_view("grove"@, 5, 8, "overworld"@, 15, 1, Dir::Down, false, 0, 0),
        portal_view("dev"@, 1, 9, "control"@, 6, 1, Dir::Down, false, 0, 0),
        portal_view("control"@, 6, 7, "dev"@, 1, 9, Dir::Up, false, 0, 0),
        portal_view("dev"@, 13, 10, "annex"@, 4, 5, Dir::Down, false, 0, 0),
        portal_view("annex"@, 4, 6, "dev"@, 13, 9, Dir::Up, false, 0, 0),
        portal_view("overworld"@, 17, 15, "reef"@, 8, 9, Dir::Up, true, 3, 0),
        portal_view("dream"@, 17, 15, "reef"@, 8, 9, Dir::Up, true, 3, 0),
        portal_view("reef"@, 8, 10, "overworld"@, 17, 16, Dir::Down, false, 0, 0),
        portal_view("lab"@, 10, 2, "space_hub"@, 8, 9, Dir::Up, true, 0, 0),
        portal_view("space_hub"@, 8, 10, "lab"@, 10, 3, Dir::Down, false, 0, 0),
        portal_view("space_hub"@, 3, 2, "moon"@, 6, 2, Dir::Down, false, 0, 0),
        portal_view("space_hub"@, 11, 2, "mars"@, 6, 7, Dir::Up, false, 0, 3),
        portal_view("space_hub"@, 8, 4, "asteroid_base"@, 6, 2, Dir::Down, false, 0, 4),
        portal_view("moon"@, 6, 7, "space_hub"@, 8, 9, Dir::Up, false, 0, 0),
        portal_view("mars"@, 2, 7, "space_hub"@, 8, 9, Dir::Up, false, 0, 0),
        portal_view("asteroid_base"@, 3, 7, "space_hub"@, 8, 9, Dir::Up, false, 0, 0),
    ]
}

/// All portals in the game. Checked after each player move.
pub fn all_portals() -> (ps: &'static [Portal])
    ensures
        ps@.map_values(|p: Portal| p@) == portal_table(),
{
    let ps: &'static [Portal] = &[
        Portal { from_map: "overworld", from_x: 5, from_y: 7, to_map: "home", to_x: 4, to_y: 5, dir: Dir::Up, secret: false, cost: 0, fuel_cost: 0 },
        Portal { from_map: "home", from_x: 4, from_y: 6, to_map: "overworld", to_x: 5, to_y: 8, dir: Dir::Down, secret: false, cost: 0, fuel_cost: 0 },
        Portal { from_map: "overworld", from_x: 22, from_y: 5, to_map: "lab", to_x: 5, to_y: 6, dir: Dir::Up, secret: false, cost: 0, fuel_cost: 0 },
        Portal { from_map: "lab", from_x: 5, from_y: 7, to_map: "overworld", to_x: 22, to_y: 6, dir: Dir::Down, secret: false, cost: 0, fuel_cost: 0 },
        Portal { from_map: "overworld", from_x: 24, from_y: 17, to_map: "shop", to_x: 4, to_y: 5, dir: Dir::Up, secret: false, cost: 0, fuel_cost: 0 },
        Portal { from_map: "shop", from_x: 4, from_y: 6, to_map: "overworld", to_x: 24, to_y: 18, dir: Dir::Down, secret: false, cost: 0, fuel_cost: 0 },
        Portal { from_map: "overworld", from_x: 16, from_y: 14, to_map: "dream", to_x: 14, to_y: 13, dir: Dir::Down, secret: true, cost: 0, fuel_cost: 0 },
        Portal { from_map: "dream", from_x: 16, from_y: 14, to_map: "overworld", to_x: 13, to_y: 14, dir: Dir::Left, secret: false, cost: 0, fuel_cost: 0 },
        Portal { from_map: "dream", from_x: 5, from_y: 7, to_map: "home", to_x: 4, to_y: 5, dir: Dir::Up, secret: false, cost: 0, fuel_cost: 0 },
        Portal { from_map: "dream", from_x: 22, from_y: 5, to_map: "lab", to_x: 5, to_y: 6, dir: Dir::Up, secret: false, cost: 0, fuel_cost: 0 },
        Portal { from_map: "dream", from_x: 24, from_y: 17, to_map: "shop", to_x: 4, to_y: 5, dir: Dir::Up, secret: false, cost: 0, fuel_cost: 0 },
        Portal { from_map: "overworld", from_x: 5, from_y: 5, to_map: "doghouse", to_x: 7, to_y: 1, dir: Dir::Down, secret: true, cost: 0, fuel_cost: 0 },
        Portal { from_map: "dream", from_x: 5, from_y: 5, to_map: "doghouse", to_x: 7, to_y: 1, dir: Dir::Down, secret: true, cost: 0, fuel_cost: 0 },
        Portal { from_map: "doghouse", from_x: 7, from_y: 10, to_map: "overworld", to_x: 5, to_y: 4, dir: Dir::Down, secret: false, cost: 0, fuel_cost: 0 },
        Portal { from_map: "overworld", from_x: 15, from_y: 0, to_map: "grove", to_x: 5, to_y: 8, dir: Dir::Up, secret: true, cost: 0, fuel_cost: 0 },
        Portal { from_map: "dream", from_x: 15, from_y: 0, to_map: "grove", to_x: 5, to_y: 8, dir: Dir::Up, secret: true, cost: 0, fuel_cost: 0 },
        Portal { from_map: "grove", from_x: 5, from_y: 8, to_map: "overworld", to_x: 15, to_y: 1, dir: Dir::Down, secret: false, cost: 0, fuel_cost: 0 },
        Portal { from_map: "dev", from_x: 1, from_y: 9, to_map: "control", to_x: 6, to_y: 1, dir: Dir::Down, secret: false, cost: 0, fuel_cost: 0 },
        Portal { from_map: "control", from_x: 6, from_y: 7, to_map: "dev", to_x: 1, to_y: 9, dir: Dir::Up, secret: false, cost: 0, fuel_cost: 0 },
        Portal { from_map: "dev", from_x: 13, from_y: 10, to_map: "annex", to_x: 4, to_y: 5, dir: Dir::Down, secret: false, cost: 0, fuel_cost: 0 },
        Portal { from_map: "annex", from_x: 4, from_y: 6, to_map: "dev", to_x: 13, to_y: 9, dir: Dir::Up, secret: false, cost: 0, fuel_cost: 0 },
        Portal { from_map: "overworld", from_x: 17, from_y: 15, to_map: "reef", to_x: 8, to_y: 9, dir: Dir::Up, secret: true, cost: 3, fuel_cost: 0 },
        Portal { from_map: "dream", from_x: 17, from_y: 15, to_map: "reef", to_x: 8, to_y: 9, dir: Dir::Up, secret: true, cost: 3, fuel_cost: 0 },
        Portal { from_map: "reef", from_x: 8, from_y: 10, to_map: "overworld", to_x: 17, to_y: 16, dir: Dir::Down, secret: false, cost: 0, fuel_cost: 0 },
        Portal { from_map: "lab", from_x: 10, from_y: 2, to_map: "space_hub", to_x: 8, to_y: 9, dir: Dir::Up, secret: true, cost: 0, fuel_cost: 0 },
        Portal { from_map: "space_hub", from_x: 8, from_y: 10, to_map: "lab", to_x: 10, to_y: 3, dir: Dir::Down, secret: false, cost: 0, fuel_cost: 0 },
        Portal { from_map: "space_hub", from_x: 3, from_y: 2, to_map: "moon", to_x: 6, to_y: 2, dir: Dir::Down, secret: false, cost: 0, fuel_cost: 0 },
        Portal { from_map: "space_hub", from_x: 11, from_y: 2, to_map: "mars", to_x: 6, to_y: 7, dir: Dir::Up, secret: false, cost: 0, fuel_cost: 3 },
        Portal { from_map: "space_hub", from_x: 8, from_y: 4, to_map: "asteroid_base", to_x: 6, to_y: 2, dir: Dir::Down, secret: false, cost: 0, fuel_cost: 4 },
        Portal { from_map: "moon", from_x: 6, from_y: 7, to_map: "space_hub", to_x: 8, to_y: 9, dir: Dir::Up, secret: false, cost: 0, fuel_cost: 0 },
        Portal { from_map: "mars", from_x: 2, from_y: 7, to_map: "space_hub", to_x: 8, to_y: 9, dir: Dir::Up, secret: false, cost: 0, fuel_cost: 0 },
        Portal { from_map: "asteroid_base", from_x: 3, from_y: 7, to_map: "space_hub", to_x: 8, to_y: 9, dir: Dir::Up, secret: false, cost: 0, fuel_cost: 0 },
    ];
    proof {
        assert(ps@.map_values(|p: Portal| p@) =~= portal_table());
    }
    ps
}

/// Portal `p` leaves from tile (`col`, `row`) of map `map_id`.
pub open spec fn portal_leaves_from(p: PortalView, map_id: Seq<char>, col: usize, row: usize) -> bool {
    p.from_map == map_id && p.from_x == col && p.from_y == row
}

/// Check if the player is standing on a portal: the first portal in the table
/// leaving from that tile.
pub fn check_portal(map_id: &str, col: usize, row: usize) -> (r: Option<&'static Portal>)
    ensures
        r is None <==> forall|i: int|
            0 <= i < portal_table().len() ==> !portal_leaves_from(portal_table()[i], map_id@, col, row),
        r matches Some(p) ==> exists|i: int|
            0 <= i < portal_table().len() && p@ == portal_table()[i] && portal_leaves_from(
                portal_table()[i],
                map_id@,
                col,
                row,
            ) && forall|j: int|
                0 <= j < i ==> !portal_leaves_from(portal_table()[j], map_id@, col, row),
{
    let ps = all_portals();
    let mut i: usize = 0;
    while i < ps.len()
        invariant
            ps@.map_values(|p: Portal| p@) == portal_table(),
            0 <= i <= ps@.len(),
            forall|j: int| 0 <= j < i ==> !portal_leaves_from(portal_table()[j], map_id@, col, row),
        decreases ps@.len() - i,
    {
        let p = &ps[i];
        proof {
            assert(portal_table()[i as int] == ps@[i as int]@);
        }
        if p.from_x == col && p.from_y == row && str_eq(p.from_map, map_id) {
            return Some(p);
        }
        i = i + 1;
    }
    None
}

/// Tiles that are normally solid but that a secret portal makes walkable.
pub open spec fn secret_walkable_table() -> Seq<(Seq<char>, usize, usize)> {
    seq![
        ("overworld"@, 16usize, 14usize),
        ("overworld"@, 5, 5),
        ("overworld"@, 15, 0),
        ("dream"@, 16, 14),
        ("dream"@, 5, 5),
        ("dream"@, 15, 0),
    ]
}

/// (`col`, `row`) of `map_id` is one of the secret walkable tiles.
pub open spec fn is_secret_walkable_spec(map_id: Seq<char>, col: usize, row: usize) -> bool {
    secret_walkable_table().contains((map_id, col, row))
}

fn is_secret_walkable(map_id: &str, col: usize, row: usize) -> (b: bool)
    ensures
        b == is_secret_walkable_spec(map_id@, col, row),
{
    let table: &'static [(&'static str, usize, usize)] = &[
        ("overworld", 16, 14),  // water tile → dream portal
        ("overworld", 5, 5),  // roof tile → doghouse portal
        ("overworld", 15, 0),  // tree tile → grove portal
        ("dream", 16, 14),  // water tile → dream exit portal
        ("dream", 5, 5),  // roof tile → doghouse portal (dream-side)
        ("dream", 15, 0),  // tree tile → grove portal (dream-side)
    ];
    let ghost view = table@.map_values(|e: (&'static str, usize, usize)| (e.0@, e.1, e.2));
    proof {
        assert(view =~= secret_walkable_table());
    }
    let mut i: usize = 0;
    while i < table.len()
        invariant
            view == table@.map_values(|e: (&'static str, usize, usize)| (e.0@, e.1, e.2)),
            view == secret_walkable_table(),
            0 <= i <= table@.len(),
            forall|j: int| 0 <= j < i ==> view[j] != (map_id@, col, row),
        decreases table@.len() - i,
    {
        let (m, x, y) = table[i];
        proof {
            assert(view[i as int] == (m@, x, y));
        }
        if x == col && y == row && str_eq(m, map_id) {
            proof {
                assert(view[i as int] == (map_id@, col, row));
            }
            return true;
        }
        i = i + 1;
    }
    false
}

// ─── MAP ────────────────────────────────────────────────

/// How a map is painted.
#[derive(Clone, Copy, PartialEq, Eq, Debug, Structural)]
pub enum RenderMode {
    Normal,
    Dream,
    Glitch,
    /// Underwater theme — teal palette + drifting bubbles.
    Aquatic,
    /// Space theme — dark void + twinkling starfield.
    Cosmic,
}

/// A map: its id, its size in tiles, its tiles row by row, and how it is painted.
#[derive(Clone)]
pub struct TileMap {
    pub id: &'static str,
    pub width: usize,
    pub height: usize,
    pub tiles: Vec<Vec<Tile>>,
    pub render_mode: RenderMode,
}

/// A map as plain values.
pub struct MapView {
    pub id: Seq<char>,
    pub width: usize,
    pub height: usize,
    pub render_mode: RenderMode,
    pub grid: Seq<Seq<Tile>>,
}

impl View for TileMap {
    type V = MapView;

    open spec fn view(&self) -> MapView {
        MapView {
            id: self.id@,
            width: self.width,
            height: self.height,
            render_mode: self.render_mode,
            grid: self.grid(),
        }
    }
}

/// The grid holds `height` rows of `width` tiles.
pub open spec fn grid_fits(grid: Seq<Seq<Tile>>, width: usize, height: usize) -> bool {
    grid.len() == height && forall|r: int| 0 <= r < height ==> #[trigger] grid[r].len() == width
}

/// Whether (`col`, `row`) blocks movement on a map with this id, grid and size.
pub open spec fn solid_at(m: MapView, col: usize, row: usize) -> bool {
    if col >= m.width || row >= m.height {
        true
    } else if is_secret_walkable_spec(m.id, col, row) {
        false
    } else {
        tile_is_solid(m.grid[row as int][col as int])
    }
}

impl TileMap {
    /// The tiles, row by row.
    pub open spec fn grid(&self) -> Seq<Seq<Tile>> {
        self.tiles@.map_values(|r: Vec<Tile>| r@)
    }

    /// The tile rows match the declared size.
    pub open spec fn wf(&self) -> bool {
        grid_fits(self.grid(), self.width, self.height)
    }

    pub fn is_solid(&self, col: usize, row: usize) -> (b: bool)
        requires
            self.wf(),
        ensures
            b == solid_at(self@, col, row),
    {
        if col >= self.width || row >= self.height {
            return true;
        }
        if is_secret_walkable(self.id, col, row) {
            return false;
        }
        proof {
            assert(self.grid()[row as int] == self.tiles@[row as int]@);
        }
        let tile = self.tiles[row][col];
        solid_tile(tile)
    }

    pub fn overworld() -> (m: Self)
        ensures
            m@ == overworld_view(),
            m.wf(),
    {
        let (gr, pa, wa, tr, fl, hw) = (Tile::Grass, Tile::Path, Tile::Water, Tile::Tree, Tile::Flower, Tile::HouseWall);
        let (rf, dr, wi, fc, sg, br) = (Tile::Roof, Tile::Door, Tile::Window, Tile::Fence, Tile::Sign, Tile::Bridge);
        let (ch, dv) = (Tile::Chest, Tile::DiveSpot);
        let tiles = vec![
            vec![tr, tr, tr, tr, tr, tr, tr, tr, tr, tr, tr, tr, tr, tr, tr, tr, tr, tr, tr, tr, tr, tr, tr, tr, tr, tr, tr, tr, tr, tr],
            vec![tr, tr, tr, gr, gr, fl, gr, gr, tr, tr, tr, gr, gr, gr, pa, pa, gr, gr, tr, tr, tr, gr, gr, fl, gr, gr, gr, tr, tr, tr],
            vec![tr, gr, gr, gr, fl, gr, gr, gr, gr, tr, gr, gr, fl, gr, pa, pa, gr, fl, gr, tr, gr, gr, gr, gr, fl, gr, gr, gr, gr, tr],
            vec![tr, gr, fl, gr, gr, gr, gr, fl, gr, gr, gr, gr, gr, gr, pa, pa, gr, gr, gr, gr, gr, rf, rf, rf, rf, gr, gr, fl, gr, tr],
            vec![tr, gr, gr, gr, gr, gr, gr, gr, gr, gr, fl, gr, gr, gr, pa, pa, gr, gr, gr, gr, gr, hw, wi, hw, hw, gr, gr, gr, gr, tr],
            vec![tr, gr, gr, gr, rf, rf, rf, gr, gr, gr, gr, gr, gr, pa, pa, pa, pa, gr, gr, fl, gr, hw, dr, hw, hw, gr, gr, gr, gr, tr],
            vec![tr, gr, gr, gr, hw, wi, hw, gr, gr, gr, gr, gr, gr, pa, gr, gr, pa, gr, gr, gr, gr, gr, pa, gr, gr, gr, gr, gr, gr, tr],
            vec![tr, gr, gr, gr, hw, dr, hw, gr, gr, gr, gr, gr, gr, pa, gr, gr, pa, pa, pa, pa, pa, pa, pa, gr, gr, gr, fl, gr, gr, tr],
            vec![tr, gr, fl, gr, gr, pa, gr, gr, gr, gr, gr, fl, gr, pa, gr, gr, gr, gr, gr, gr, gr, gr, gr, gr, gr, gr, gr, gr, gr, tr],
            vec![tr, gr, gr, gr, gr, pa, gr, gr, gr, gr, gr, gr, gr, pa, gr, gr, gr, gr, gr, gr, gr, gr, gr, gr, gr, ch, gr, gr, gr, tr],
            vec![tr, gr, gr, gr, gr, pa, pa, pa, pa, pa, pa, pa, pa, pa, gr, gr, gr, gr, gr, fc, fc, fc, gr, gr, gr, gr, gr, gr, gr, tr],
            vec![tr, gr, gr, gr, gr, gr, gr, gr, gr, gr, gr, gr, gr, gr, gr, gr, wa, wa, wa, wa, gr, gr, gr, gr, fl, gr, gr, gr, gr, tr],
            vec![tr, gr, fl, gr, gr, sg, gr, gr, gr, fl, gr, gr, gr, gr, gr, wa, wa, wa, wa, wa, wa, gr, gr, gr, gr, gr, gr, fl, gr, tr],
            vec![tr, gr, gr, gr, gr, gr, gr, gr, gr, gr, gr, gr, gr, gr, gr, wa, wa, wa, wa, wa, wa, gr, gr, gr, gr, gr, gr, gr, gr, tr],
            vec![tr, gr, gr, gr, gr, gr, gr, fl, gr, gr, gr, gr, pa, pa, br, br, wa, wa, wa, wa, gr, gr, gr, gr, gr, gr, fl, gr, gr, tr],
            vec![tr, gr, gr, gr, gr, gr, gr, gr, gr, gr, gr, gr, pa, gr, gr, gr, gr, dv, wa, gr, gr, gr, gr, rf, rf, rf, gr, gr, gr, tr],
            vec![tr, gr, gr, fl, gr, gr, gr, gr, gr, gr, gr, gr, pa, gr, gr, fl, gr, gr, gr, gr, gr, gr, gr, hw, wi, hw, gr, gr, gr, tr],
            vec![tr, gr, gr, gr, gr, gr, gr, gr, fl, gr, gr, gr, pa, gr, gr, gr, gr, gr, gr, gr, fl, gr, gr, hw, dr, hw, gr, gr, gr, tr],
            vec![tr, gr, gr, gr, gr, fl, gr, gr, gr, gr, gr, gr, pa, pa, pa, pa, pa, pa, pa, pa, pa, pa, pa, pa, pa, gr, gr, fl, gr, tr],
            vec![tr, gr, gr, gr, gr, gr, gr, gr, gr, gr, gr, gr, gr, gr, gr, gr, gr, gr, gr, gr, gr, gr, gr, gr, gr, gr, gr, gr, gr, tr],
            vec![tr, gr, fl, gr, gr, gr, gr, gr, fl, gr, gr, gr, gr, fl, gr, gr, gr, fl, gr, gr, gr, gr, fl, gr, gr, gr, gr, fl, gr, tr],
            vec![tr, gr, gr, gr, fl, gr, gr, gr, gr, gr, gr, gr, gr, gr, gr, gr, gr, gr, gr, gr, fl, gr, gr, gr, gr, gr, gr, gr, gr, tr],
            vec![tr, gr, gr, gr, gr, gr, ch, gr, gr, gr, fl, gr, gr, gr, gr, gr, gr, gr, gr, gr, gr, gr, gr, gr, fl, gr, gr, gr, gr, tr],
            vec![tr, tr, gr, gr, gr, tr, tr, tr, gr, gr, tr, tr, gr, gr, gr, gr, gr, gr, tr, tr, gr, gr, tr, tr, tr, gr, gr, gr, tr, tr],
            vec![tr, tr, tr, tr, tr, tr, tr, tr, tr, tr, tr, tr, tr, tr, tr, tr, tr, tr, tr, tr, tr, tr, tr, tr, tr, tr, tr, tr, tr, tr],
        ];
        let m = TileMap { id: "overworld", width: 30, height: 25, tiles, render_mode: RenderMode::Normal };
        proof {
            reveal(overworld_grid);
            assert(m.grid() =~= overworld_grid());
            assert(m.wf());
        }
        m
    }

    pub fn home() -> (m: Self)
        ensures
            m@ == home_view(),
            m.wf(),
    {
        let (wl, dr, wf, rg, tb, bs) = (Tile::Wall, Tile::Door, Tile::WoodFloor, Tile::Rug, Tile::Table, Tile::Bookshelf);
        let tiles = vec![
            vec![wl, wl, wl, wl, wl, wl, wl, wl, wl, wl],
            vec![wl, wf, wf, wf, wf, wf, wf, wf, wf, wl],
            vec![wl, wf, rg, rg, rg, wf, wf, bs, wf, wl],
            vec![wl, wf, rg, tb, rg, wf, wf, bs, wf, wl],
            vec![wl, wf, rg, rg, rg, wf, wf, wf, wf, wl],
            vec![wl, wf, wf, wf, wf, wf, wf, wf, wf, wl],
            vec![wl, wf, wf, wf, dr, wf, wf, wf, wf, wl],
            vec![wl, wl, wl, wl, wl, wl, wl, wl, wl, wl],
        ];
        let m = TileMap { id: "home", width: 10, height: 8, tiles, render_mode: RenderMode::Normal };
        proof {
            reveal(home_grid);
            assert(m.grid() =~= home_grid());
            assert(m.wf());
        }
        m
    }

    pub fn lab() -> (m: Self)
        ensures
            m@ == lab_view(),
            m.wf(),
    {
        let (wl, dr, ch, wf, rg, tb) = (Tile::Wall, Tile::Door, Tile::Chest, Tile::WoodFloor, Tile::Rug, Tile::Table);
        let (bs, lp) = (Tile::Bookshelf, Tile::Launchpad);
        let tiles = vec![
            vec![wl, wl, wl, wl, wl, wl, wl, wl, wl, wl, wl, wl],
            vec![wl, wf, wf, bs, bs, wf, wf, bs, bs, wf, wf, wl],
            vec![wl, wf, wf, wf, wf, wf, wf, wf, wf, wf, lp, wl],
            vec![wl, wf, tb, wf, wf, wf, wf, wf, wf, tb, wf, wl],
            vec![wl, wf, wf, wf, rg, rg, rg, rg, wf, wf, wf, wl],
            vec![wl, wf, wf, wf, rg, ch, ch, rg, wf, wf, wf, wl],
            vec![wl, wf, wf, wf, wf, wf, wf, wf, wf, wf, wf, wl],
            vec![wl, wf, wf, wf, wf, dr, wf, wf, wf, wf, wf, wl],
            vec![wl, wl, wl, wl, wl, wl, wl, wl, wl, wl, wl, wl],
        ];
        let m = TileMap { id: "lab", width: 12, height: 9, tiles, render_mode: RenderMode::Normal };
        proof {
            reveal(lab_grid);
            assert(m.grid() =~= lab_grid());
            assert(m.wf());
        }
        m
    }

    pub fn shop() -> (m: Self)
        ensures
            m@ == shop_view(),
            m.wf(),
    {
        let (wl, dr, wf, rg, tb, bs) = (Tile::Wall, Tile::Door, Tile::WoodFloor, Tile::Rug, Tile::Table, Tile::Bookshelf);
        let tiles = vec![
            vec![wl, wl, wl, wl, wl, wl, wl, wl, wl, wl],
            vec![wl, wf, bs, bs, wf, wf, bs, bs, wf, wl],
            vec![wl, wf, wf, wf, wf, wf, wf, wf, wf, wl],
            vec![wl, wf, wf, tb, tb, tb, tb, wf, wf, wl],
            vec![wl, wf, wf, wf, wf, wf, wf, wf, wf, wl],
            vec![wl, wf, wf, rg, rg, rg, rg, wf, wf, wl],
            vec![wl, wf, wf, wf, dr, wf, wf, wf, wf, wl],
            vec![wl, wl, wl, wl, wl, wl, wl, wl, wl, wl],
        ];
        let m = TileMap { id: "shop", width: 10, height: 8, tiles, render_mode: RenderMode::Normal };
        proof {
            reveal(shop_grid);
            assert(m.grid() =~= shop_grid());
            assert(m.wf());
        }
        m
    }

    pub fn doghouse() -> (m: Self)
        ensures
            m@ == doghouse_view(),
            m.wf(),
    {
        let (dr, ch, wf, rg, tb, g5) = (Tile::Door, Tile::Chest, Tile::WoodFloor, Tile::Rug, Tile::Table, Tile::Glitch95);
        let (g6, g7, g8, gw) = (Tile::Glitch96, Tile::Glitch97, Tile::Glitch98, Tile::GlitchWall);
        let tiles = vec![
            vec![gw, gw, gw, gw, gw, gw, gw, gw, gw, gw, gw, gw, gw, gw, gw, gw],
            vec![gw, wf, g8, g8, g7, wf, g6, g6, wf, g5, g5, wf, g8, wf, wf, gw],
            vec![gw, g8, wf, wf, wf, g7, wf, wf, g6, wf, wf, g5, wf, wf, g8, gw],
            vec![gw, wf, wf, wf, wf, wf, wf, wf, wf, wf, wf, wf, wf, wf, wf, gw],
            vec![gw, g7, wf, wf, tb, wf, wf, wf, wf, wf, wf, tb, wf, wf, g7, gw],
            vec![gw, wf, wf, wf, wf, wf, rg, rg, rg, wf, wf, wf, wf, wf, wf, gw],
            vec![gw, g6, wf, wf, wf, wf, rg, ch, rg, wf, wf, wf, wf, wf, g6, gw],
            vec![gw, wf, wf, wf, wf, wf, rg, rg, rg, wf, wf, wf, wf, wf, wf, gw],
            vec![gw, g5, wf, wf, wf, wf, wf, wf, wf, wf, wf, wf, wf, wf, g5, gw],
            vec![gw, wf, wf, wf, wf, wf, wf, wf, wf, wf, wf, wf, wf, wf, wf, gw],
            vec![gw, wf, g8, wf, wf, g7, wf, dr, wf, g6, wf, wf, g5, wf, wf, gw],
            vec![gw, gw, gw, gw, gw, gw, gw, gw, gw, gw, gw, gw, gw, gw, gw, gw],
        ];
        let m = TileMap { id: "doghouse", width: 16, height: 12, tiles, render_mode: RenderMode::Glitch };
        proof {
            reveal(doghouse_grid);
            assert(m.grid() =~= doghouse_grid());
            assert(m.wf());
        }
        m
    }

    pub fn grove() -> (m: Self)
        ensures
            m@ == grove_view(),
            m.wf(),
    {
        let (gr, pa, tr, fl, ch) = (Tile::Grass, Tile::Path, Tile::Tree, Tile::Flower, Tile::Chest);
        let tiles = vec![
            vec![tr, tr, tr, tr, tr, tr, tr, tr, tr, tr, tr, tr],
            vec![tr, fl, gr, gr, fl, gr, gr, fl, gr, gr, fl, tr],
            vec![tr, gr, gr, fl, gr, gr, gr, gr, fl, gr, gr, tr],
            vec![tr, gr, fl, gr, gr, ch, ch, gr, gr, fl, gr, tr],
            vec![tr, fl, gr, gr, gr, fl, fl, gr, gr, gr, fl, tr],
            vec![tr, gr, gr, gr, fl, gr, gr, fl, gr, gr, gr, tr],
            vec![tr, gr, fl, gr, gr, gr, gr, gr, gr, fl, gr, tr],
            vec![tr, fl, gr, gr, gr, gr, gr, gr, gr, gr, fl, tr],
            vec![tr, gr, gr, fl, gr, pa, gr, fl, gr, gr, gr, tr],
            vec![tr, tr, tr, tr, tr, tr, tr, tr, tr, tr, tr, tr],
        ];
        let m = TileMap { id: "grove", width: 12, height: 10, tiles, render_mode: RenderMode::Normal };
        proof {
            reveal(grove_grid);
            assert(m.grid() =~= grove_grid());
            assert(m.wf());
        }
        m
    }

    pub fn dev() -> (m: Self)
        ensures
            m@ == dev_view(),
            m.wf(),
    {
        let (wl, dr, ch, wf, rg, tb) = (Tile::Wall, Tile::Door, Tile::Chest, Tile::WoodFloor, Tile::Rug, Tile::Table);
        let bs = Tile::Bookshelf;
        let tiles = vec![
            vec![wl, wl, wl, wl, wl, wl, wl, wl, wl, wl, wl, wl, wl, wl, wl, wl],
            vec![wl, wf, wf, wf, wf, wf, wf, wf, wf, wf, wf, wf, wf, wf, wf, wl],
            vec![wl, bs, wf, wf, wf, tb, wf, wf, wf, wf, tb, wf, wf, wf, bs, wl],
            vec![wl, wf, wf, wf, wf, wf, wf, wf, wf, wf, wf, wf, wf, wf, wf, wl],
            vec![wl, wf, wf, wf, wf, wf, wf, wf, wf, wf, wf, wf, wf, wf, wf, wl],
            vec![wl, wf, wf, wf, wf, wf, wf, wf, wf, wf, wf, wf, wf, wf, wf, wl],
            vec![wl, wf, wf, wf, wf, wf, wf, ch, wf, ch, wf, wf, wf, wf, wf, wl],
            vec![wl, wf, wf, wf, wf, wf, wf, wf, wf, wf, wf, wf, wf, wf, wf, wl],
            vec![wl, wf, wf, wf, wf, wf, wf, wf, wf, wf, wf, wf, wf, wf, wf, wl],
            vec![wl, dr, wf, wf, wf, wf, rg, rg, rg, wf, wf, wf, wf, wf, wf, wl],
            vec![wl, wf, wf, wf, wf, wf, rg, wf, rg, wf, wf, wf, wf, dr, wf, wl],
            vec![wl, wl, wl, wl, wl, wl, wl, wl, wl, wl, wl, wl, wl, wl, wl, wl],
        ];
        let m = TileMap { id: "dev", width: 16, height: 12, tiles, render_mode: RenderMode::Normal };
        proof {
            reveal(dev_grid);
            assert(m.grid() =~= dev_grid());
            assert(m.wf());
        }
        m
    }

    /// Dev-tier validation field, reached through the Door at (13,10) of the
    /// dev map. Plain grass clearing — exists to prove a brand-new map plugs
    /// into the portal / wander / companion machinery with no special-casing.
    pub fn annex() -> (m: Self)
        ensures
            m@ == annex_view(),
            m.wf(),
    {
        let (gr, tr, dr) = (Tile::Grass, Tile::Tree, Tile::Door);
        let tiles = vec![
            vec![tr, tr, tr, tr, tr, tr, tr, tr, tr, tr],
            vec![tr, gr, gr, gr, gr, gr, gr, gr, gr, tr],
            vec![tr, gr, gr, gr, gr, gr, gr, gr, gr, tr],
            vec![tr, gr, gr, gr, gr, gr, gr, gr, gr, tr],
            vec![tr, gr, gr, gr, gr, gr, gr, gr, gr, tr],
            vec![tr, gr, gr, gr, gr, gr, gr, gr, gr, tr],
            vec![tr, gr, gr, gr, dr, gr, gr, gr, gr, tr],
            vec![tr, tr, tr, tr, tr, tr, tr, tr, tr, tr],
        ];
        let m = TileMap { id: "annex", width: 10, height: 8, tiles, render_mode: RenderMode::Normal };
        proof {
            reveal(annex_grid);
            assert(m.grid() =~= annex_grid());
            assert(m.wf());
        }
        m
    }

    /// Knob bay for dev/test runs. Each NPC is a single-purpose control —
    /// cycle a profile field, reset a flag, or fire a fresh puzzle. Reachable
    /// via the Door tile in the dev map's lower-left corner.
    pub fn control() -> (m: Self)
        ensures
            m@ == control_view(),
            m.wf(),
    {
        let (wl, dr, wf) = (Tile::Wall, Tile::Door, Tile::WoodFloor);
        let tiles = vec![
            vec![wl, wl, wl, wl, wl, wl, wl, wl, wl, wl, wl, wl],
            vec![wl, wf, wf, wf, wf, wf, wf, wf, wf, wf, wf, wl],
            vec![wl, wf, wf, wf, wf, wf, wf, wf, wf, wf, wf, wl],
            vec![wl, wf, wf, wf, wf, wf, wf, wf, wf, wf, wf, wl],
            vec![wl, wf, wf, wf, wf, wf, wf, wf, wf, wf, wf, wl],
            vec![wl, wf, wf, wf, wf, wf, wf, wf, wf, wf, wf, wl],
            vec![wl, wf, wf, wf, wf, wf, wf, wf, wf, wf, wf, wl],
            vec![wl, wf, wf, wf, wf, wf, dr, wf, wf, wf, wf, wl],
            vec![wl, wl, wl, wl, wl, wl, wl, wl, wl, wl, wl, wl],
        ];
        let m = TileMap { id: "control", width: 12, height: 9, tiles, render_mode: RenderMode::Normal };
        proof {
            reveal(control_grid);
            assert(m.grid() =~= control_grid());
            assert(m.wf());
        }
        m
    }

    /// Coral reef — the first underwater map. A lower arrival lagoon, a coral
    /// wall with a single gap guarded by a napping shark, and a treasure cove
    /// up top. Border is solid kelp. `RenderMode::Aquatic` paints it teal and
    /// floats bubbles. Built as plain data so future water maps copy the shape.
    pub fn reef() -> (m: Self)
        ensures
            m@ == reef_view(),
            m.wf(),
    {
        let (ch, sf, sa, co, ke, bu) = (Tile::Chest, Tile::SeaFloor, Tile::Sand, Tile::Coral, Tile::Kelp, Tile::Bubble);
        let tiles = vec![
            vec![ke, ke, ke, ke, ke, ke, ke, ke, ke, ke, ke, ke, ke, ke, ke, ke],
            vec![ke, sf, sf, sf, sf, bu, co, sf, sf, co, sf, sf, bu, sf, sf, ke],
            vec![ke, sf, co, sf, sf, sf, sf, ch, sf, sf, sf, sf, co, sf, sf, ke],
            vec![ke, sf, sf, sf, sf, co, sf, sf, sf, co, sf, sf, sf, sf, sf, ke],
            vec![ke, sf, co, sf, sf, sf, sf, sf, sf, sf, sf, sf, co, sf, sf, ke],
            vec![ke, co, co, co, co, co, co, co, sf, co, co, co, co, co, co, ke],
            vec![ke, sf, sf, sf, sf, sf, sf, sf, sf, sf, sf, sf, sf, sf, sf, ke],
            vec![ke, sf, bu, sa, sa, sf, sf, sf, sf, sf, sf, sa, sa, bu, sf, ke],
            vec![ke, sf, sf, sa, sa, sf, sf, sf, sf, sf, sf, sa, sa, sf, sf, ke],
            vec![ke, sf, sf, sf, sf, sf, sf, sf, sf, sf, sf, sf, sf, sf, sf, ke],
            vec![ke, sf, sf, sf, sf, sf, sf, sf, sa, sf, sf, sf, sf, sf, sf, ke],
            vec![ke, ke, ke, ke, ke, ke, ke, ke, ke, ke, ke, ke, ke, ke, ke, ke],
        ];
        let m = TileMap { id: "reef", width: 16, height: 12, tiles, render_mode: RenderMode::Aquatic };
        proof {
            reveal(reef_grid);
            assert(m.grid() =~= reef_grid());
            assert(m.wf());
        }
        m
    }

    /// Orbital hub — the flyable starfield. You pilot the rocket (arrow keys)
    /// between planet pads. Border is solid asteroid rock; pads are portals.
    /// Cosmic render mode floats a starfield over everything.
    pub fn space_hub() -> (m: Self)
        ensures
            m@ == space_hub_view(),
            m.wf(),
    {
        let (sp, st, sr, lp, mo, ma) = (Tile::Space, Tile::Star, Tile::SpaceRock, Tile::Launchpad, Tile::MoonPad, Tile::MarsPad);
        let ast = Tile::AsteroidPad;
        let tiles = vec![
            vec![sr, sr, sr, sr, sr, sr, sr, sr, sr, sr, sr, sr, sr, sr, sr, sr],
            vec![sr, sp, st, sp, sp, sp, sp, sp, sp, sp, sp, sp, st, sp, sp, sr],
            vec![sr, sp, sp, mo, sp, sp, sp, sp, sp, sp, sp, ma, sp, sp, sp, sr],
            vec![sr, sp, sp, sp, sp, sp, st, sp, sp, st, sp, sp, sp, sp, sp, sr],
            vec![sr, sp, sp, sp, sp, sp, sp, sp, ast, sp, sp, sp, sp, sp, sp, sr],
            vec![sr, sp, st, sp, sp, sp, sp, sp, sp, sp, sp, sp, st, sp, sp, sr],
            vec![sr, sp, sp, sp, sp, sp, sp, sp, sp, sp, sp, sp, sp, sp, sp, sr],
            vec![sr, sp, sp, sp, st, sp, sp, sp, sp, sp, st, sp, sp, sp, sp, sr],
            vec![sr, sp, sp, sp, sp, sp, sp, sp, sp, sp, sp, sp, sp, sp, sp, sr],
            vec![sr, sp, sp, sp, sp, sp, sp, sp, sp, sp, sp, sp, sp, sp, sp, sr],
            vec![sr, sp, sp, sp, sp, sp, sp, sp, lp, sp, sp, sp, sp, sp, sp, sr],
            vec![sr, sr, sr, sr, sr, sr, sr, sr, sr, sr, sr, sr, sr, sr, sr, sr],
        ];
        let m = TileMap { id: "space_hub", width: 16, height: 12, tiles, render_mode: RenderMode::Cosmic };
        proof {
            reveal(space_hub_grid);
            assert(m.grid() =~= space_hub_grid());
            assert(m.wf());
        }
        m
    }

    /// The Moon — a gentle gray crater world, the free first stop.
    pub fn moon() -> (m: Self)
        ensures
            m@ == moon_view(),
            m.wf(),
    {
        let (sr, lp, mg) = (Tile::SpaceRock, Tile::Launchpad, Tile::MoonGround);
        let tiles = vec![
            vec![sr, sr, sr, sr, sr, sr, sr, sr, sr, sr, sr, sr],
            vec![sr, mg, mg, mg, mg, mg, mg, mg, mg, mg, mg, sr],
            vec![sr, mg, mg, mg, mg, mg, mg, mg, mg, mg, mg, sr],
            vec![sr, mg, mg, sr, mg, mg, mg, mg, sr, mg, mg, sr],
            vec![sr, mg, mg, mg, mg, mg, mg, mg, mg, mg, mg, sr],
            vec![sr, mg, sr, mg, mg, mg, mg, mg, mg, sr, mg, sr],
            vec![sr, mg, mg, mg, mg, mg, mg, mg, mg, mg, mg, sr],
            vec![sr, mg, mg, mg, mg, mg, lp, mg, mg, mg, mg, sr],
            vec![sr, sr, sr, sr, sr, sr, sr, sr, sr, sr, sr, sr],
        ];
        let m = TileMap { id: "moon", width: 12, height: 9, tiles, render_mode: RenderMode::Cosmic };
        proof {
            reveal(moon_grid);
            assert(m.grid() =~= moon_grid());
            assert(m.wf());
        }
        m
    }

    /// The Red Planet — dusty, with a rock wall split by a single gap that a
    /// friendly alien guards. Treasure waits in the cove above the wall.
    pub fn mars() -> (m: Self)
        ensures
            m@ == mars_view(),
            m.wf(),
    {
        let (ch, sr, lp, rd) = (Tile::Chest, Tile::SpaceRock, Tile::Launchpad, Tile::MarsGround);
        let tiles = vec![
            vec![sr, sr, sr, sr, sr, sr, sr, sr, sr, sr, sr, sr],
            vec![sr, rd, rd, rd, rd, rd, rd, rd, rd, rd, rd, sr],
            vec![sr, rd, rd, rd, rd, ch, rd, rd, rd, rd, rd, sr],
            vec![sr, rd, rd, rd, rd, rd, rd, rd, rd, rd, rd, sr],
            vec![sr, sr, sr, sr, sr, rd, sr, sr, sr, sr, sr, sr],
            vec![sr, rd, rd, rd, rd, rd, rd, rd, rd, rd, rd, sr],
            vec![sr, rd, rd, rd, rd, rd, rd, rd, rd, rd, rd, sr],
            vec![sr, rd, lp, rd, rd, rd, rd, rd, rd, rd, rd, sr],
            vec![sr, sr, sr, sr, sr, sr, sr, sr, sr, sr, sr, sr],
        ];
        let m = TileMap { id: "mars", width: 12, height: 9, tiles, render_mode: RenderMode::Cosmic };
        proof {
            reveal(mars_grid);
            assert(m.grid() =~= mars_grid());
            assert(m.wf());
        }
        m
    }

    /// Asteroid Base — a metal station interior. A star-chart terminal alien
    /// runs constellation (pattern) puzzles; other aliens mill about.
    pub fn asteroid_base() -> (m: Self)
        ensures
            m@ == asteroid_base_view(),
            m.wf(),
    {
        let (sr, lp, sfl) = (Tile::SpaceRock, Tile::Launchpad, Tile::StationFloor);
        let tiles = vec![
            vec![sr, sr, sr, sr, sr, sr, sr, sr, sr, sr, sr, sr],
            vec![sr, sfl, sfl, sfl, sfl, sfl, sfl, sfl, sfl, sfl, sfl, sr],
            vec![sr, sfl, sfl, sfl, sfl, sfl, sfl, sfl, sfl, sfl, sfl, sr],
            vec![sr, sfl, sr, sfl, sfl, sfl, sfl, sfl, sr, sfl, sfl, sr],
            vec![sr, sfl, sfl, sfl, sfl, sfl, sfl, sfl, sfl, sfl, sfl, sr],
            vec![sr, sfl, sfl, sfl, sfl, sfl, sfl, sfl, sfl, sfl, sfl, sr],
            vec![sr, sfl, sr, sfl, sfl, sfl, sfl, sfl, sfl, sr, sfl, sr],
            vec![sr, sfl, sfl, lp, sfl, sfl, sfl, sfl, sfl, sfl, sfl, sr],
            vec![sr, sr, sr, sr, sr, sr, sr, sr, sr, sr, sr, sr],
        ];
        let m = TileMap { id: "asteroid_base", width: 12, height: 9, tiles, render_mode: RenderMode::Cosmic };
        proof {
            reveal(asteroid_base_grid);
            assert(m.grid() =~= asteroid_base_grid());
            assert(m.wf());
        }
        m
    }

    /// The overworld seen through a dream: same layout, dream palette.
    pub fn dream() -> (m: Self)
        ensures
            m@ == dream_view(),
            m.wf(),
    {
        let mut m = Self::overworld();
        m.id = "dream";
        m.render_mode = RenderMode::Dream;
        m
    }

    /// The map with id `id`; unknown ids fall back to the overworld.
    pub fn by_id(id: &str) -> (m: Self)
        ensures
            m@ == map_by_id(id@),
            m.wf(),
    {
        proof {
            reveal_strlit("overworld");
            reveal_strlit("home");
            reveal_strlit("lab");
            reveal_strlit("shop");
            reveal_strlit("dream");
            reveal_strlit("doghouse");
            reveal_strlit("grove");
            reveal_strlit("dev");
            reveal_strlit("control");
            reveal_strlit("annex");
            reveal_strlit("reef");
            reveal_strlit("space_hub");
            reveal_strlit("moon");
            reveal_strlit("mars");
            reveal_strlit("asteroid_base");
        }
        if str_eq(id, "overworld") {
            Self::overworld()
        } else if str_eq(id, "home") {
            Self::home()
        } else if str_eq(id, "lab") {
            Self::lab()
        } else if str_eq(id, "shop") {
            Self::shop()
        } else if str_eq(id, "dream") {
            Self::dream()
        } else if str_eq(id, "doghouse") {
            Self::doghouse()
        } else if str_eq(id, "grove") {
            Self::grove()
        } else if str_eq(id, "dev") {
            Self::dev()
        } else if str_eq(id, "control") {
            Self::control()
        } else if str_eq(id, "annex") {
            Self::annex()
        } else if str_eq(id, "reef") {
            Self::reef()
        } else if str_eq(id, "space_hub") {
            Self::space_hub()
        } else if str_eq(id, "moon") {
            Self::moon()
        } else if str_eq(id, "mars") {
            Self::mars()
        } else if str_eq(id, "asteroid_base") {
            Self::asteroid_base()
        } else {
            Self::overworld()
        }
    }
}


// ─── MAP DATA ───────────────────────────────────────────

/// The tiles of the `overworld` map, row by row.
#[verifier::opaque]
pub open spec fn overworld_grid() -> Seq<Seq<Tile>> {
    let (gr, pa, wa, tr, fl, hw) = (Tile::Grass, Tile::Path, Tile::Water, Tile::Tree, Tile::Flower, Tile::HouseWall);
    let (rf, dr, wi, fc, sg, br) = (Tile::Roof, Tile::Door, Tile::Window, Tile::Fence, Tile::Sign, Tile::Bridge);
    let (ch, dv) = (Tile::Chest, Tile::DiveSpot);
    seq![
        seq![tr, tr, tr, tr, tr, tr, tr, tr, tr, tr, tr, tr, tr, tr, tr, tr, tr, tr, tr, tr, tr, tr, tr, tr, tr, tr, tr, tr, tr, tr],
        seq![tr, tr, tr, gr, gr, fl, gr, gr, tr, tr, tr, gr, gr, gr, pa, pa, gr, gr, tr, tr, tr, gr, gr, fl, gr, gr, gr, tr, tr, tr],
        seq![tr, gr, gr, gr, fl, gr, gr, gr, gr, tr, gr, gr, fl, gr, pa, pa, gr, fl, gr, tr, gr, gr, gr, gr, fl, gr, gr, gr, gr, tr],
        seq![tr, gr, fl, gr, gr, gr, gr, fl, gr, gr, gr, gr, gr, gr, pa, pa, gr, gr, gr, gr, gr, rf, rf, rf, rf, gr, gr, fl, gr, tr],
        seq![tr, gr, gr, gr, gr, gr, gr, gr, gr, gr, fl, gr, gr, gr, pa, pa, gr, gr, gr, gr, gr, hw, wi, hw, hw, gr, gr, gr, gr, tr],
        seq![tr, gr, gr, gr, rf, rf, rf, gr, gr, gr, gr, gr, gr, pa, pa, pa, pa, gr, gr, fl, gr, hw, dr, hw, hw, gr, gr, gr, gr, tr],
        seq![tr, gr, gr, gr, hw, wi, hw, gr, gr, gr, gr, gr, gr, pa, gr, gr, pa, gr, gr, gr, gr, gr, pa, gr, gr, gr, gr, gr, gr, tr],
        seq![tr, gr, gr, gr, hw, dr, hw, gr, gr, gr, gr, gr, gr, pa, gr, gr, pa, pa, pa, pa, pa, pa, pa, gr, gr, gr, fl, gr, gr, tr],
        seq![tr, gr, fl, gr, gr, pa, gr, gr, gr, gr, gr, fl, gr, pa, gr, gr, gr, gr, gr, gr, gr, gr, gr, gr, gr, gr, gr, gr, gr, tr],
        seq![tr, gr, gr, gr, gr, pa, gr, gr, gr, gr, gr, gr, gr, pa, gr, gr, gr, gr, gr, gr, gr, gr, gr, gr, gr, ch, gr, gr, gr, tr],
        seq![tr, gr, gr, gr, gr, pa, pa, pa, pa, pa, pa, pa, pa, pa, gr, gr, gr, gr, gr, fc, fc, fc, gr, gr, gr, gr, gr, gr, gr, tr],
        seq![tr, gr, gr, gr, gr, gr, gr, gr, gr, gr, gr, gr, gr, gr, gr, gr, wa, wa, wa, wa, gr, gr, gr, gr, fl, gr, gr, gr, gr, tr],
        seq![tr, gr, fl, gr, gr, sg, gr, gr, gr, fl, gr, gr, gr, gr, gr, wa, wa, wa, wa, wa, wa, gr, gr, gr, gr, gr, gr, fl, gr, tr],
        seq![tr, gr, gr, gr, gr, gr, gr, gr, gr, gr, gr, gr, gr, gr, gr, wa, wa, wa, wa, wa, wa, gr, gr, gr, gr, gr, gr, gr, gr, tr],
        seq![tr, gr, gr, gr, gr, gr, gr, fl, gr, gr, gr, gr, pa, pa, br, br, wa, wa, wa, wa, gr, gr, gr, gr, gr, gr, fl, gr, gr, tr],
        seq![tr, gr, gr, gr, gr, gr, gr, gr, gr, gr, gr, gr, pa, gr, gr, gr, gr, dv, wa, gr, gr, gr, gr, rf, rf, rf, gr, gr, gr, tr],
        seq![tr, gr, gr, fl, gr, gr, gr, gr, gr, gr, gr, gr, pa, gr, gr, fl, gr, gr, gr, gr, gr, gr, gr, hw, wi, hw, gr, gr, gr, tr],
        seq![tr, gr, gr, gr, gr, gr, gr, gr, fl, gr, gr, gr, pa, gr, gr, gr, gr, gr, gr, gr, fl, gr, gr, hw, dr, hw, gr, gr, gr, tr],
        seq![tr, gr, gr, gr, gr, fl, gr, gr, gr, gr, gr, gr, pa, pa, pa, pa, pa, pa, pa, pa, pa, pa, pa, pa, pa, gr, gr, fl, gr, tr],
        seq![tr, gr, gr, gr, gr, gr, gr, gr, gr, gr, gr, gr, gr, gr, gr, gr, gr, gr, gr, gr, gr, gr, gr, gr, gr, gr, gr, gr, gr, tr],
        seq![tr, gr, fl, gr, gr, gr, gr, gr, fl, gr, gr, gr, gr, fl, gr, gr, gr, fl, gr, gr, gr, gr, fl, gr, gr, gr, gr, fl, gr, tr],
        seq![tr, gr, gr, gr, fl, gr, gr, gr, gr, gr, gr, gr, gr, gr, gr, gr, gr, gr, gr, gr, fl, gr, gr, gr, gr, gr, gr, gr, gr, tr],
        seq![tr, gr, gr, gr, gr, gr, ch, gr, gr, gr, fl, gr, gr, gr, gr, gr, gr, gr, gr, gr, gr, gr, gr, gr, fl, gr, gr, gr, gr, tr],
        seq![tr, tr, gr, gr, gr, tr, tr, tr, gr, gr, tr, tr, gr, gr, gr, gr, gr, gr, tr, tr, gr, gr, tr, tr, tr, gr, gr, gr, tr, tr],
        seq![tr, tr, tr, tr, tr, tr, tr, tr, tr, tr, tr, tr, tr, tr, tr, tr, tr, tr, tr, tr, tr, tr, tr, tr, tr, tr, tr, tr, tr, tr],
    ]
}

/// The tiles of the `home` map, row by row.
#[verifier::opaque]
pub open spec fn home_grid() -> Seq<Seq<Tile>> {
    let (wl, dr, wf, rg, tb, bs) = (Tile::Wall, Tile::Door, Tile::WoodFloor, Tile::Rug, Tile::Table, Tile::Bookshelf);
    seq![
        seq![wl, wl, wl, wl, wl, wl, wl, wl, wl, wl],
        seq![wl, wf, wf, wf, wf, wf, wf, wf, wf, wl],
        seq![wl, wf, rg, rg, rg, wf, wf, bs, wf, wl],
        seq![wl, wf, rg, tb, rg, wf, wf, bs, wf, wl],
        seq![wl, wf, rg, rg, rg, wf, wf, wf, wf, wl],
        seq![wl, wf, wf, wf, wf, wf, wf, wf, wf, wl],
        seq![wl, wf, wf, wf, dr, wf, wf, wf, wf, wl],
        seq![wl, wl, wl, wl, wl, wl, wl, wl, wl, wl],
    ]
}

/// The tiles of the `lab` map, row by row.
#[verifier::opaque]
pub open spec fn lab_grid() -> Seq<Seq<Tile>> {
    let (wl, dr, ch, wf, rg, tb) = (Tile::Wall, Tile::Door, Tile::Chest, Tile::WoodFloor, Tile::Rug, Tile::Table);
    let (bs, lp) = (Tile::Bookshelf, Tile::Launchpad);
    seq![
        seq![wl, wl, wl, wl, wl, wl, wl, wl, wl, wl, wl, wl],
        seq![wl, wf, wf, bs, bs, wf, wf, bs, bs, wf, wf, wl],
        seq![wl, wf, wf, wf, wf, wf, wf, wf, wf, wf, lp, wl],
        seq![wl, wf, tb, wf, wf, wf, wf, wf, wf, tb, wf, wl],
        seq![wl, wf, wf, wf, rg, rg, rg, rg, wf, wf, wf, wl],
        seq![wl, wf, wf, wf, rg, ch, ch, rg, wf, wf, wf, wl],
        seq![wl, wf, wf, wf, wf, wf, wf, wf, wf, wf, wf, wl],
        seq![wl, wf, wf, wf, wf, dr, wf, wf, wf, wf, wf, wl],
        seq![wl, wl, wl, wl, wl, wl, wl, wl, wl, wl, wl, wl],
    ]
}

/// The tiles of the `shop` map, row by row.
#[verifier::opaque]
pub open spec fn shop_grid() -> Seq<Seq<Tile>> {
    let (wl, dr, wf, rg, tb, bs) = (Tile::Wall, Tile::Door, Tile::WoodFloor, Tile::Rug, Tile::Table, Tile::Bookshelf);
    seq![
        seq![wl, wl, wl, wl, wl, wl, wl, wl, wl, wl],
        seq![wl, wf, bs, bs, wf, wf, bs, bs, wf, wl],
        seq![wl, wf, wf, wf, wf, wf, wf, wf, wf, wl],
        seq![wl, wf, wf, tb, tb, tb, tb, wf, wf, wl],
        seq![wl, wf, wf, wf, wf, wf, wf, wf, wf, wl],
        seq![wl, wf, wf, rg, rg, rg, rg, wf, wf, wl],
        seq![wl, wf, wf, wf, dr, wf, wf, wf, wf, wl],
        seq![wl, wl, wl, wl, wl, wl, wl, wl, wl, wl],
    ]
}

/// The tiles of the `doghouse` map, row by row.
#[verifier::opaque]
pub open spec fn doghouse_grid() -> Seq<Seq<Tile>> {
    let (dr, ch, wf, rg, tb, g5) = (Tile::Door, Tile::Chest, Tile::WoodFloor, Tile::Rug, Tile::Table, Tile::Glitch95);
    let (g6, g7, g8, gw) = (Tile::Glitch96, Tile::Glitch97, Tile::Glitch98, Tile::GlitchWall);
    seq![
        seq![gw, gw, gw, gw, gw, gw, gw, gw, gw, gw, gw, gw, gw, gw, gw, gw],
        seq![gw, wf, g8, g8, g7, wf, g6, g6, wf, g5, g5, wf, g8, wf, wf, gw],
        seq![gw, g8, wf, wf, wf, g7, wf, wf, g6, wf, wf, g5, wf, wf, g8, gw],
        seq![gw, wf, wf, wf, wf, wf, wf, wf, wf, wf, wf, wf, wf, wf, wf, gw],
        seq![gw, g7, wf, wf, tb, wf, wf, wf, wf, wf, wf, tb, wf, wf, g7, gw],
        seq![gw, wf, wf, wf, wf, wf, rg, rg, rg, wf, wf, wf, wf, wf, wf, gw],
        seq![gw, g6, wf, wf, wf, wf, rg, ch, rg, wf, wf, wf, wf, wf, g6, gw],
        seq![gw, wf, wf, wf, wf, wf, rg, rg, rg, wf, wf, wf, wf, wf, wf, gw],
        seq![gw, g5, wf, wf, wf, wf, wf, wf, wf, wf, wf, wf, wf, wf, g5, gw],
        seq![gw, wf, wf, wf, wf, wf, wf, wf, wf, wf, wf, wf, wf, wf, wf, gw],
        seq![gw, wf, g8, wf, wf, g7, wf, dr, wf, g6, wf, wf, g5, wf, wf, gw],
        seq![gw, gw, gw, gw, gw, gw, gw, gw, gw, gw, gw, gw, gw, gw, gw, gw],
    ]
}

/// The tiles of the `grove` map, row by row.
#[verifier::opaque]
pub open spec fn grove_grid() -> Seq<Seq<Tile>> {
    let (gr, pa, tr, fl, ch) = (Tile::Grass, Tile::Path, Tile::Tree, Tile::Flower, Tile::Chest);
    seq![
        seq![tr, tr, tr, tr, tr, tr, tr, tr, tr, tr, tr, tr],
        seq![tr, fl, gr, gr, fl, gr, gr, fl, gr, gr, fl, tr],
        seq![tr, gr, gr, fl, gr, gr, gr, gr, fl, gr, gr, tr],
        seq![tr, gr, fl, gr, gr, ch, ch, gr, gr, fl, gr, tr],
        seq![tr, fl, gr, gr, gr, fl, fl, gr, gr, gr, fl, tr],
        seq![tr, gr, gr, gr, fl, gr, gr, fl, gr, gr, gr, tr],
        seq![tr, gr, fl, gr, gr, gr, gr, gr, gr, fl, gr, tr],
        seq![tr, fl, gr, gr, gr, gr, gr, gr, gr, gr, fl, tr],
        seq![tr, gr, gr, fl, gr, pa, gr, fl, gr, gr, gr, tr],
        seq![tr, tr, tr, tr, tr, tr, tr, tr, tr, tr, tr, tr],
    ]
}

/// The tiles of the `dev` map, row by row.
#[verifier::opaque]
pub open spec fn dev_grid() -> Seq<Seq<Tile>> {
    let (wl, dr, ch, wf, rg, tb) = (Tile::Wall, Tile::Door, Tile::Chest, Tile::WoodFloor, Tile::Rug, Tile::Table);
    let bs = Tile::Bookshelf;
    seq![
        seq![wl, wl, wl, wl, wl, wl, wl, wl, wl, wl, wl, wl, wl, wl, wl, wl],
        seq![wl, wf, wf, wf, wf, wf, wf, wf, wf, wf, wf, wf, wf, wf, wf, wl],
        seq![wl, bs, wf, wf, wf, tb, wf, wf, wf, wf, tb, wf, wf, wf, bs, wl],
        seq![wl, wf, wf, wf, wf, wf, wf, wf, wf, wf, wf, wf, wf, wf, wf, wl],
        seq![wl, wf, wf, wf, wf, wf, wf, wf, wf, wf, wf, wf, wf, wf, wf, wl],
        seq![wl, wf, wf, wf, wf, wf, wf, wf, wf, wf, wf, wf, wf, wf, wf, wl],
        seq![wl, wf, wf, wf, wf, wf, wf, ch, wf, ch, wf, wf, wf, wf, wf, wl],
        seq![wl, wf, wf, wf, wf, wf, wf, wf, wf, wf, wf, wf, wf, wf, wf, wl],
        seq![wl, wf, wf, wf, wf, wf, wf, wf, wf, wf, wf, wf, wf, wf, wf, wl],
        seq![wl, dr, wf, wf, wf, wf, rg, rg, rg, wf, wf, wf, wf, wf, wf, wl],
        seq![wl, wf, wf, wf, wf, wf, rg, wf, rg, wf, wf, wf, wf, dr, wf, wl],
        seq![wl, wl, wl, wl, wl, wl, wl, wl, wl, wl, wl, wl, wl, wl, wl, wl],
    ]
}

/// The tiles of the `annex` map, row by row.
#[verifier::opaque]
pub open spec fn annex_grid() -> Seq<Seq<Tile>> {
    let (gr, tr, dr) = (Tile::Grass, Tile::Tree, Tile::Door);
    seq![
        seq![tr, tr, tr, tr, tr, tr, tr, tr, tr, tr],
        seq![tr, gr, gr, gr, gr, gr, gr, gr, gr, tr],
        seq![tr, gr, gr, gr, gr, gr, gr, gr, gr, tr],
        seq![tr, gr, gr, gr, gr, gr, gr, gr, gr, tr],
        seq![tr, gr, gr, gr, gr, gr, gr, gr, gr, tr],
        seq![tr, gr, gr, gr, gr, gr, gr, gr, gr, tr],
        seq![tr, gr, gr, gr, dr, gr, gr, gr, gr, tr],
        seq![tr, tr, tr, tr, tr, tr, tr, tr, tr, tr],
    ]
}

/// The tiles of the `control` map, row by row.
#[verifier::opaque]
pub open spec fn control_grid() -> Seq<Seq<Tile>> {
    let (wl, dr, wf) = (Tile::Wall, Tile::Door, Tile::WoodFloor);
    seq![
        seq![wl, wl, wl, wl, wl, wl, wl, wl, wl, wl, wl, wl],
        seq![wl, wf, wf, wf, wf, wf, wf, wf, wf, wf, wf, wl],
        seq![wl, wf, wf, wf, wf, wf, wf, wf, wf, wf, wf, wl],
        seq![wl, wf, wf, wf, wf, wf, wf, wf, wf, wf, wf, wl],
        seq![wl, wf, wf, wf, wf, wf, wf, wf, wf, wf, wf, wl],
        seq![wl, wf, wf, wf, wf, wf, wf, wf, wf, wf, wf, wl],
        seq![wl, wf, wf, wf, wf, wf, wf, wf, wf, wf, wf, wl],
        seq![wl, wf, wf, wf, wf, wf, dr, wf, wf, wf, wf, wl],
        seq![wl, wl, wl, wl, wl, wl, wl, wl, wl, wl, wl, wl],
    ]
}

/// The tiles of the `reef` map, row by row.
#[verifier::opaque]
pub open spec fn reef_grid() -> Seq<Seq<Tile>> {
    let (ch, sf, sa, co, ke, bu) = (Tile::Chest, Tile::SeaFloor, Tile::Sand, Tile::Coral, Tile::Kelp, Tile::Bubble);
    seq![
        seq![ke, ke, ke, ke, ke, ke, ke, ke, ke, ke, ke, ke, ke, ke, ke, ke],
        seq![ke, sf, sf, sf, sf, bu, co, sf, sf, co, sf, sf, bu, sf, sf, ke],
        seq![ke, sf, co, sf, sf, sf, sf, ch, sf, sf, sf, sf, co, sf, sf, ke],
        seq![ke, sf, sf, sf, sf, co, sf, sf, sf, co, sf, sf, sf, sf, sf, ke],
        seq![ke, sf, co, sf, sf, sf, sf, sf, sf, sf, sf, sf, co, sf, sf, ke],
        seq![ke, co, co, co, co, co, co, co, sf, co, co, co, co, co, co, ke],
        seq![ke, sf, sf, sf, sf, sf, sf, sf, sf, sf, sf, sf, sf, sf, sf, ke],
        seq![ke, sf, bu, sa, sa, sf, sf, sf, sf, sf, sf, sa, sa, bu, sf, ke],
        seq![ke, sf, sf, sa, sa, sf, sf, sf, sf, sf, sf, sa, sa, sf, sf, ke],
        seq![ke, sf, sf, sf, sf, sf, sf, sf, sf, sf, sf, sf, sf, sf, sf, ke],
        seq![ke, sf, sf, sf, sf, sf, sf, sf, sa, sf, sf, sf, sf, sf, sf, ke],
        seq![ke, ke, ke, ke, ke, ke, ke, ke, ke, ke, ke, ke, ke, ke, ke, ke],
    ]
}

/// The tiles of the `space_hub` map, row by row.
#[verifier::opaque]
pub open spec fn space_hub_grid() -> Seq<Seq<Tile>> {
    let (sp, st, sr, lp, mo, ma) = (Tile::Space, Tile::Star, Tile::SpaceRock, Tile::Launchpad, Tile::MoonPad, Tile::MarsPad);
    let ast = Tile::AsteroidPad;
    seq![
        seq![sr, sr, sr, sr, sr, sr, sr, sr, sr, sr, sr, sr, sr, sr, sr, sr],
        seq![sr, sp, st, sp, sp, sp, sp, sp, sp, sp, sp, sp, st, sp, sp, sr],
        seq![sr, sp, sp, mo, sp, sp, sp, sp, sp, sp, sp, ma, sp, sp, sp, sr],
        seq![sr, sp, sp, sp, sp, sp, st, sp, sp, st, sp, sp, sp, sp, sp, sr],
        seq![sr, sp, sp, sp, sp, sp, sp, sp, ast, sp, sp, sp, sp, sp, sp, sr],
        seq![sr, sp, st, sp, sp, sp, sp, sp, sp, sp, sp, sp, st, sp, sp, sr],
        seq![sr, sp, sp, sp, sp, sp, sp, sp, sp, sp, sp, sp, sp, sp, sp, sr],
        seq![sr, sp, sp, sp, st, sp, sp, sp, sp, sp, st, sp, sp, sp, sp, sr],
        seq![sr, sp, sp, sp, sp, sp, sp, sp, sp, sp, sp, sp, sp, sp, sp, sr],
        seq![sr, sp, sp, sp, sp, sp, sp, sp, sp, sp, sp, sp, sp, sp, sp, sr],
        seq![sr, sp, sp, sp, sp, sp, sp, sp, lp, sp, sp, sp, sp, sp, sp, sr],
        seq![sr, sr, sr, sr, sr, sr, sr, sr, sr, sr, sr, sr, sr, sr, sr, sr],
    ]
}

/// The tiles of the `moon` map, row by row.
#[verifier::opaque]
pub open spec fn moon_grid() -> Seq<Seq<Tile>> {
    let (sr, lp, mg) = (Tile::SpaceRock, Tile::Launchpad, Tile::MoonGround);
    seq![
        seq![sr, sr, sr, sr, sr, sr, sr, sr, sr, sr, sr, sr],
        seq![sr, mg, mg, mg, mg, mg, mg, mg, mg, mg, mg, sr],
        seq![sr, mg, mg, mg, mg, mg, mg, mg, mg, mg, mg, sr],
        seq![sr, mg, mg, sr, mg, mg, mg, mg, sr, mg, mg, sr],
        seq![sr, mg, mg, mg, mg, mg, mg, mg, mg, mg, mg, sr],
        seq![sr, mg, sr, mg, mg, mg, mg, mg, mg, sr, mg, sr],
        seq![sr, mg, mg, mg, mg, mg, mg, mg, mg, mg, mg, sr],
        seq![sr, mg, mg, mg, mg, mg, lp, mg, mg, mg, mg, sr],
        seq![sr, sr, sr, sr, sr, sr, sr, sr, sr, sr, sr, sr],
    ]
}

/// The tiles of the `mars` map, row by row.
#[verifier::opaque]
pub open spec fn mars_grid() -> Seq<Seq<Tile>> {
    let (ch, sr, lp, rd) = (Tile::Chest, Tile::SpaceRock, Tile::Launchpad, Tile::MarsGround);
    seq![
        seq![sr, sr, sr, sr, sr, sr, sr, sr, sr, sr, sr, sr],
        seq![sr, rd, rd, rd, rd, rd, rd, rd, rd, rd, rd, sr],
        seq![sr, rd, rd, rd, rd, ch, rd, rd, rd, rd, rd, sr],
        seq![sr, rd, rd, rd, rd, rd, rd, rd, rd, rd, rd, sr],
        seq![sr, sr, sr, sr, sr, rd, sr, sr, sr, sr, sr, sr],
        seq![sr, rd, rd, rd, rd, rd, rd, rd, rd, rd, rd, sr],
        seq![sr, rd, rd, rd, rd, rd, rd, rd, rd, rd, rd, sr],
        seq![sr, rd, lp, rd, rd, rd, rd, rd, rd, rd, rd, sr],
        seq![sr, sr, sr, sr, sr, sr, sr, sr, sr, sr, sr, sr],
    ]
}

/// The tiles of the `asteroid_base` map, row by row.
#[verifier::opaque]
pub open spec fn asteroid_base_grid() -> Seq<Seq<Tile>> {
    let (sr, lp, sfl) = (Tile::SpaceRock, Tile::Launchpad, Tile::StationFloor);
    seq![
        seq![sr, sr, sr, sr, sr, sr, sr, sr, sr, sr, sr, sr],
        seq![sr, sfl, sfl, sfl, sfl, sfl, sfl, sfl, sfl, sfl, sfl, sr],
        seq![sr, sfl, sfl, sfl, sfl, sfl, sfl, sfl, sfl, sfl, sfl, sr],
        seq![sr, sfl, sr, sfl, sfl, sfl, sfl, sfl, sr, sfl, sfl, sr],
        seq![sr, sfl, sfl, sfl, sfl, sfl, sfl, sfl, sfl, sfl, sfl, sr],
        seq![sr, sfl, sfl, sfl, sfl, sfl, sfl, sfl, sfl, sfl, sfl, sr],
        seq![sr, sfl, sr, sfl, sfl, sfl, sfl, sfl, sfl, sr, sfl, sr],
        seq![sr, sfl, sfl, lp, sfl, sfl, sfl, sfl, sfl, sfl, sfl, sr],
        seq![sr, sr, sr, sr, sr, sr, sr, sr, sr, sr, sr, sr],
    ]
}

pub open spec fn overworld_view() -> MapView {
    MapView { id: "overworld"@, width: 30, height: 25, render_mode: RenderMode::Normal, grid: overworld_grid() }
}

pub open spec fn home_view() -> MapView {
    MapView { id: "home"@, width: 10, height: 8, render_mode: RenderMode::Normal, grid: home_grid() }
}

pub open spec fn lab_view() -> MapView {
    MapView { id: "lab"@, width: 12, height: 9, render_mode: RenderMode::Normal, grid: lab_grid() }
}

pub open spec fn shop_view() -> MapView {
    MapView { id: "shop"@, width: 10, height: 8, render_mode: RenderMode::Normal, grid: shop_grid() }
}

pub open spec fn doghouse_view() -> MapView {
    MapView { id: "doghouse"@, width: 16, height: 12, render_mode: RenderMode::Glitch, grid: doghouse_grid() }
}

pub open spec fn grove_view() -> MapView {
    MapView { id: "grove"@, width: 12, height: 10, render_mode: RenderMode::Normal, grid: grove_grid() }
}

pub open spec fn dev_view() -> MapView {
    MapView { id: "dev"@, width: 16, height: 12, render_mode: RenderMode::Normal, grid: dev_grid() }
}

pub open spec fn annex_view() -> MapView {
    MapView { id: "annex"@, width: 10, height: 8, render_mode: RenderMode::Normal, grid: annex_grid() }
}

pub open spec fn control_view() -> MapView {
    MapView { id: "control"@, width: 12, height: 9, render_mode: RenderMode::Normal, grid: control_grid() }
}

pub open spec fn reef_view() -> MapView {
    MapView { id: "reef"@, width: 16, height: 12, render_mode: RenderMode::Aquatic, grid: reef_grid() }
}

pub open spec fn space_hub_view() -> MapView {
    MapView { id: "space_hub"@, width: 16, height: 12, render_mode: RenderMode::Cosmic, grid: space_hub_grid() }
}

pub open spec fn moon_view() -> MapView {
    MapView { id: "moon"@, width: 12, height: 9, render_mode: RenderMode::Cosmic, grid: moon_grid() }
}

pub open spec fn mars_view() -> MapView {
    MapView { id: "mars"@, width: 12, height: 9, render_mode: RenderMode::Cosmic, grid: mars_grid() }
}

pub open spec fn asteroid_base_view() -> MapView {
    MapView { id: "asteroid_base"@, width: 12, height: 9, render_mode: RenderMode::Cosmic, grid: asteroid_base_grid() }
}

pub open spec fn dream_view() -> MapView {
    MapView { id: "dream"@, width: 30, height: 25, render_mode: RenderMode::Dream, grid: overworld_grid() }
}

/// The map `TileMap::by_id` builds for `id`.
pub open spec fn map_by_id(id: Seq<char>) -> MapView {
    if id == "overworld"@ {
        overworld_view()
    } else if id == "home"@ {
        home_view()
    } else if id == "lab"@ {
        lab_view()
    } else if id == "shop"@ {
        shop_view()
    } else if id == "dream"@ {
        dream_view()
    } else if id == "doghouse"@ {
        doghouse_view()
    } else if id == "grove"@ {
        grove_view()
    } else if id == "dev"@ {
        dev_view()
    } else if id == "control"@ {
        control_view()
    } else if id == "annex"@ {
        annex_view()
    } else if id == "reef"@ {
        reef_view()
    } else if id == "space_hub"@ {
        space_hub_view()
    } else if id == "moon"@ {
        moon_view()
    } else if id == "mars"@ {
        mars_view()
    } else if id == "asteroid_base"@ {
        asteroid_base_view()
    } else {
        overworld_view()
    }
}


/// `Map::by_id` knows every map a portal names.
proof fn lemma_map_by_id_known()
    ensures
        map_by_id("overworld"@) == overworld_view(),
        map_by_id("home"@) == home_view(),
        map_by_id("lab"@) == lab_view(),
        map_by_id("shop"@) == shop_view(),
        map_by_id("dream"@) == dream_view(),
        map_by_id("doghouse"@) == doghouse_view(),
        map_by_id("grove"@) == grove_view(),
        map_by_id("dev"@) == dev_view(),
        map_by_id("control"@) == control_view(),
        map_by_id("annex"@) == annex_view(),
        map_by_id("reef"@) == reef_view(),
        map_by_id("space_hub"@) == space_hub_view(),
        map_by_id("moon"@) == moon_view(),
        map_by_id("mars"@) == mars_view(),
        map_by_id("asteroid_base"@) == asteroid_base_view(),
{
    reveal_strlit("overworld");
    reveal_strlit("home");
    reveal_strlit("lab");
    reveal_strlit("shop");
    reveal_strlit("dream");
    reveal_strlit("doghouse");
    reveal_strlit("grove");
    reveal_strlit("dev");
    reveal_strlit("control");
    reveal_strlit("annex");
    reveal_strlit("reef");
    reveal_strlit("space_hub");
    reveal_strlit("moon");
    reveal_strlit("mars");
    reveal_strlit("asteroid_base");
    assert("home"@ != "overworld"@) by { assert("home"@.len() != "overworld"@.len() || "home"@[0] != "overworld"@[0] || "home"@[1] != "overworld"@[1] || "home"@[2] != "overworld"@[2]); }
    assert("lab"@ != "overworld"@) by { assert("lab"@.len() != "overworld"@.len() || "lab"@[0] != "overworld"@[0] || "lab"@[1] != "overworld"@[1] || "lab"@[2] != "overworld"@[2]); }
    assert("lab"@ != "home"@) by { assert("lab"@.len() != "home"@.len() || "lab"@[0] != "home"@[0] || "lab"@[1] != "home"@[1] || "lab"@[2] != "home"@[2]); }
    assert("shop"@ != "overworld"@) by { assert("shop"@.len() != "overworld"@.len() || "shop"@[0] != "overworld"@[0] || "shop"@[1] != "overworld"@[1] || "shop"@[2] != "overworld"@[2]); }
    assert("shop"@ != "home"@) by { assert("shop"@.len() != "home"@.len() || "shop"@[0] != "home"@[0] || "shop"@[1] != "home"@[1] || "shop"@[2] != "home"@[2]); }
    assert("shop"@ != "lab"@) by { assert("shop"@.len() != "lab"@.len() || "shop"@[0] != "lab"@[0] || "shop"@[1] != "lab"@[1] || "shop"@[2] != "lab"@[2]); }
    assert("dream"@ != "overworld"@) by { assert("dream"@.len() != "overworld"@.len() || "dream"@[0] != "overworld"@[0] || "dream"@[1] != "overworld"@[1] || "dream"@[2] != "overworld"@[2]); }
    assert("dream"@ != "home"@) by { assert("dream"@.len() != "home"@.len() || "dream"@[0] != "home"@[0] || "dream"@[1] != "home"@[1] || "dream"@[2] != "home"@[2]); }
    assert("dream"@ != "lab"@) by { assert("dream"@.len() != "lab"@.len() || "dream"@[0] != "lab"@[0] || "dream"@[1] != "lab"@[1] || "dream"@[2] != "lab"@[2]); }
    assert("dream"@ != "shop"@) by { assert("dream"@.len() != "shop"@.len() || "dream"@[0] != "shop"@[0] || "dream"@[1] != "shop"@[1] || "dream"@[2] != "shop"@[2]); }
    assert("doghouse"@ != "overworld"@) by { assert("doghouse"@.len() != "overworld"@.len() || "doghouse"@[0] != "overworld"@[0] || "doghouse"@[1] != "overworld"@[1] || "doghouse"@[2] != "overworld"@[2]); }
    assert("doghouse"@ != "home"@) by { assert("doghouse"@.len() != "home"@.len() || "doghouse"@[0] != "home"@[0] || "doghouse"@[1] != "home"@[1] || "doghouse"@[2] != "home"@[2]); }
    assert("doghouse"@ != "lab"@) by { assert("doghouse"@.len() != "lab"@.len() || "doghouse"@[0] != "lab"@[0] || "doghouse"@[1] != "lab"@[1] || "doghouse"@[2] != "lab"@[2]); }
    assert("doghouse"@ != "shop"@) by { assert("doghouse"@.len() != "shop"@.len() || "doghouse"@[0] != "shop"@[0] || "doghouse"@[1] != "shop"@[1] || "doghouse"@[2] != "shop"@[2]); }
    assert("doghouse"@ != "dream"@) by { assert("doghouse"@.len() != "dream"@.len() || "doghouse"@[0] != "dream"@[0] || "doghouse"@[1] != "dream"@[1] || "doghouse"@[2] != "dream"@[2]); }
    assert("grove"@ != "overworld"@) by { assert("grove"@.len() != "overworld"@.len() || "grove"@[0] != "overworld"@[0] || "grove"@[1] != "overworld"@[1] || "grove"@[2] != "overworld"@[2]); }
    assert("grove"@ != "home"@) by { assert("grove"@.len() != "home"@.len() || "grove"@[0] != "home"@[0] || "grove"@[1] != "home"@[1] || "grove"@[2] != "home"@[2]); }
    assert("grove"@ != "lab"@) by { assert("grove"@.len() != "lab"@.len() || "grove"@[0] != "lab"@[0] || "grove"@[1] != "lab"@[1] || "grove"@[2] != "lab"@[2]); }
    assert("grove"@ != "shop"@) by { assert("grove"@.len() != "shop"@.len() || "grove"@[0] != "shop"@[0] || "grove"@[1] != "shop"@[1] || "grove"@[2] != "shop"@[2]); }
    assert("grove"@ != "dream"@) by { assert("grove"@.len() != "dream"@.len() || "grove"@[0] != "dream"@[0] || "grove"@[1] != "dream"@[1] || "grove"@[2] != "dream"@[2]); }
    assert("grove"@ != "doghouse"@) by { assert("grove"@.len() != "doghouse"@.len() || "grove"@[0] != "doghouse"@[0] || "grove"@[1] != "doghouse"@[1] || "grove"@[2] != "doghouse"@[2]); }
    assert("dev"@ != "overworld"@) by { assert("dev"@.len() != "overworld"@.len() || "dev"@[0] != "overworld"@[0] || "dev"@[1] != "overworld"@[1] || "dev"@[2] != "overworld"@[2]); }
    assert("dev"@ != "home"@) by { assert("dev"@.len() != "home"@.len() || "dev"@[0] != "home"@[0] || "dev"@[1] != "home"@[1] || "dev"@[2] != "home"@[2]); }
    assert("dev"@ != "lab"@) by { assert("dev"@.len() != "lab"@.len() || "dev"@[0] != "lab"@[0] || "dev"@[1] != "lab"@[1] || "dev"@[2] != "lab"@[2]); }
    assert("dev"@ != "shop"@) by { assert("dev"@.len() != "shop"@.len() || "dev"@[0] != "shop"@[0] || "dev"@[1] != "shop"@[1] || "dev"@[2] != "shop"@[2]); }
    assert("dev"@ != "dream"@) by { assert("dev"@.len() != "dream"@.len() || "dev"@[0] != "dream"@[0] || "dev"@[1] != "dream"@[1] || "dev"@[2] != "dream"@[2]); }
    assert("dev"@ != "doghouse"@) by { assert("dev"@.len() != "doghouse"@.len() || "dev"@[0] != "doghouse"@[0] || "dev"@[1] != "doghouse"@[1] || "dev"@[2] != "doghouse"@[2]); }
    assert("dev"@ != "grove"@) by { assert("dev"@.len() != "grove"@.len() || "dev"@[0] != "grove"@[0] || "dev"@[1] != "grove"@[1] || "dev"@[2] != "grove"@[2]); }
    assert("control"@ != "overworld"@) by { assert("control"@.len() != "overworld"@.len() || "control"@[0] != "overworld"@[0] || "control"@[1] != "overworld"@[1] || "control"@[2] != "overworld"@[2]); }
    assert("control"@ != "home"@) by { assert("control"@.len() != "home"@.len() || "control"@[0] != "home"@[0] || "control"@[1] != "home"@[1] || "control"@[2] != "home"@[2]); }
    assert("control"@ != "lab"@) by { assert("control"@.len() != "lab"@.len() || "control"@[0] != "lab"@[0] || "control"@[1] != "lab"@[1] || "control"@[2] != "lab"@[2]); }
    assert("control"@ != "shop"@) by { assert("control"@.len() != "shop"@.len() || "control"@[0] != "shop"@[0] || "control"@[1] != "shop"@[1] || "control"@[2] != "shop"@[2]); }
    assert("control"@ != "dream"@) by { assert("control"@.len() != "dream"@.len() || "control"@[0] != "dream"@[0] || "control"@[1] != "dream"@[1] || "control"@[2] != "dream"@[2]); }
    assert("control"@ != "doghouse"@) by { assert("control"@.len() != "doghouse"@.len() || "control"@[0] != "doghouse"@[0] || "control"@[1] != "doghouse"@[1] || "control"@[2] != "doghouse"@[2]); }
    assert("control"@ != "grove"@) by { assert("control"@.len() != "grove"@.len() || "control"@[0] != "grove"@[0] || "control"@[1] != "grove"@[1] || "control"@[2] != "grove"@[2]); }
    assert("control"@ != "dev"@) by { assert("control"@.len() != "dev"@.len() || "control"@[0] != "dev"@[0] || "control"@[1] != "dev"@[1] || "control"@[2] != "dev"@[2]); }
    assert("annex"@ != "overworld"@) by { assert("annex"@.len() != "overworld"@.len() || "annex"@[0] != "overworld"@[0] || "annex"@[1] != "overworld"@[1] || "annex"@[2] != "overworld"@[2]); }
    assert("annex"@ != "home"@) by { assert("annex"@.len() != "home"@.len() || "annex"@[0] != "home"@[0] || "annex"@[1] != "home"@[1] || "annex"@[2] != "home"@[2]); }
    assert("annex"@ != "lab"@) by { assert("annex"@.len() != "lab"@.len() || "annex"@[0] != "lab"@[0] || "annex"@[1] != "lab"@[1] || "annex"@[2] != "lab"@[2]); }
    assert("annex"@ != "shop"@) by { assert("annex"@.len() != "shop"@.len() || "annex"@[0] != "shop"@[0] || "annex"@[1] != "shop"@[1] || "annex"@[2] != "shop"@[2]); }
    assert("annex"@ != "dream"@) by { assert("annex"@.len() != "dream"@.len() || "annex"@[0] != "dream"@[0] || "annex"@[1] != "dream"@[1] || "annex"@[2] != "dream"@[2]); }
    assert("annex"@ != "doghouse"@) by { assert("annex"@.len() != "doghouse"@.len() || "annex"@[0] != "doghouse"@[0] || "annex"@[1] != "doghouse"@[1] || "annex"@[2] != "doghouse"@[2]); }
    assert("annex"@ != "grove"@) by { assert("annex"@.len() != "grove"@.len() || "annex"@[0] != "grove"@[0] || "annex"@[1] != "grove"@[1] || "annex"@[2] != "grove"@[2]); }
    assert("annex"@ != "dev"@) by { assert("annex"@.len() != "dev"@.len() || "annex"@[0] != "dev"@[0] || "annex"@[1] != "dev"@[1] || "annex"@[2] != "dev"@[2]); }
    assert("annex"@ != "control"@) by { assert("annex"@.len() != "control"@.len() || "annex"@[0] != "control"@[0] || "annex"@[1] != "control"@[1] || "annex"@[2] != "control"@[2]); }
    assert("reef"@ != "overworld"@) by { assert("reef"@.len() != "overworld"@.len() || "reef"@[0] != "overworld"@[0] || "reef"@[1] != "overworld"@[1] || "reef"@[2] != "overworld"@[2]); }
    assert("reef"@ != "home"@) by { assert("reef"@.len() != "home"@.len() || "reef"@[0] != "home"@[0] || "reef"@[1] != "home"@[1] || "reef"@[2] != "home"@[2]); }
    assert("reef"@ != "lab"@) by { assert("reef"@.len() != "lab"@.len() || "reef"@[0] != "lab"@[0] || "reef"@[1] != "lab"@[1] || "reef"@[2] != "lab"@[2]); }
    assert("reef"@ != "shop"@) by { assert("reef"@.len() != "shop"@.len() || "reef"@[0] != "shop"@[0] || "reef"@[1] != "shop"@[1] || "reef"@[2] != "shop"@[2]); }
    assert("reef"@ != "dream"@) by { assert("reef"@.len() != "dream"@.len() || "reef"@[0] != "dream"@[0] || "reef"@[1] != "dream"@[1] || "reef"@[2] != "dream"@[2]); }
    assert("reef"@ != "doghouse"@) by { assert("reef"@.len() != "doghouse"@.len() || "reef"@[0] != "doghouse"@[0] || "reef"@[1] != "doghouse"@[1] || "reef"@[2] != "doghouse"@[2]); }
    assert("reef"@ != "grove"@) by { assert("reef"@.len() != "grove"@.len() || "reef"@[0] != "grove"@[0] || "reef"@[1] != "grove"@[1] || "reef"@[2] != "grove"@[2]); }
    assert("reef"@ != "dev"@) by { assert("reef"@.len() != "dev"@.len() || "reef"@[0] != "dev"@[0] || "reef"@[1] != "dev"@[1] || "reef"@[2] != "dev"@[2]); }
    assert("reef"@ != "control"@) by { assert("reef"@.len() != "control"@.len() || "reef"@[0] != "control"@[0] || "reef"@[1] != "control"@[1] || "reef"@[2] != "control"@[2]); }
    assert("reef"@ != "annex"@) by { assert("reef"@.len() != "annex"@.len() || "reef"@[0] != "annex"@[0] || "reef"@[1] != "annex"@[1] || "reef"@[2] != "annex"@[2]); }
    assert("space_hub"@ != "overworld"@) by { assert("space_hub"@.len() != "overworld"@.len() || "space_hub"@[0] != "overworld"@[0] || "space_hub"@[1] != "overworld"@[1] || "space_hub"@[2] != "overworld"@[2]); }
    assert("space_hub"@ != "home"@) by { assert("space_hub"@.len() != "home"@.len() || "space_hub"@[0] != "home"@[0] || "space_hub"@[1] != "home"@[1] || "space_hub"@[2] != "home"@[2]); }
    assert("space_hub"@ != "lab"@) by { assert("space_hub"@.len() != "lab"@.len() || "space_hub"@[0] != "lab"@[0] || "space_hub"@[1] != "lab"@[1] || "space_hub"@[2] != "lab"@[2]); }
    assert("space_hub"@ != "shop"@) by { assert("space_hub"@.len() != "shop"@.len() || "space_hub"@[0] != "shop"@[0] || "space_hub"@[1] != "shop"@[1] || "space_hub"@[2] != "shop"@[2]); }
    assert("space_hub"@ != "dream"@) by { assert("space_hub"@.len() != "dream"@.len() || "space_hub"@[0] != "dream"@[0] || "space_hub"@[1] != "dream"@[1] || "space_hub"@[2] != "dream"@[2]); }
    assert("space_hub"@ != "doghouse"@) by { assert("space_hub"@.len() != "doghouse"@.len() || "space_hub"@[0] != "doghouse"@[0] || "space_hub"@[1] != "doghouse"@[1] || "space_hub"@[2] != "doghouse"@[2]); }
    assert("space_hub"@ != "grove"@) by { assert("space_hub"@.len() != "grove"@.len() || "space_hub"@[0] != "grove"@[0] || "space_hub"@[1] != "grove"@[1] || "space_hub"@[2] != "grove"@[2]); }
    assert("space_hub"@ != "dev"@) by { assert("space_hub"@.len() != "dev"@.len() || "space_hub"@[0] != "dev"@[0] || "space_hub"@[1] != "dev"@[1] || "space_hub"@[2] != "dev"@[2]); }
    assert("space_hub"@ != "control"@) by { assert("space_hub"@.len() != "control"@.len() || "space_hub"@[0] != "control"@[0] || "space_hub"@[1] != "control"@[1] || "space_hub"@[2] != "control"@[2]); }
    assert("space_hub"@ != "annex"@) by { assert("space_hub"@.len() != "annex"@.len() || "space_hub"@[0] != "annex"@[0] || "space_hub"@[1] != "annex"@[1] || "space_hub"@[2] != "annex"@[2]); }
    assert("space_hub"@ != "reef"@) by { assert("space_hub"@.len() != "reef"@.len() || "space_hub"@[0] != "reef"@[0] || "space_hub"@[1] != "reef"@[1] || "space_hub"@[2] != "reef"@[2]); }
    assert("moon"@ != "overworld"@) by { assert("moon"@.len() != "overworld"@.len() || "moon"@[0] != "overworld"@[0] || "moon"@[1] != "overworld"@[1] || "moon"@[2] != "overworld"@[2]); }
    assert("moon"@ != "home"@) by { assert("moon"@.len() != "home"@.len() || "moon"@[0] != "home"@[0] || "moon"@[1] != "home"@[1] || "moon"@[2] != "home"@[2]); }
    assert("moon"@ != "lab"@) by { assert("moon"@.len() != "lab"@.len() || "moon"@[0] != "lab"@[0] || "moon"@[1] != "lab"@[1] || "moon"@[2] != "lab"@[2]); }
    assert("moon"@ != "shop"@) by { assert("moon"@.len() != "shop"@.len() || "moon"@[0] != "shop"@[0] || "moon"@[1] != "shop"@[1] || "moon"@[2] != "shop"@[2]); }
    assert("moon"@ != "dream"@) by { assert("moon"@.len() != "dream"@.len() || "moon"@[0] != "dream"@[0] || "moon"@[1] != "dream"@[1] || "moon"@[2] != "dream"@[2]); }
    assert("moon"@ != "doghouse"@) by { assert("moon"@.len() != "doghouse"@.len() || "moon"@[0] != "doghouse"@[0] || "moon"@[1] != "doghouse"@[1] || "moon"@[2] != "doghouse"@[2]); }
    assert("moon"@ != "grove"@) by { assert("moon"@.len() != "grove"@.len() || "moon"@[0] != "grove"@[0] || "moon"@[1] != "grove"@[1] || "moon"@[2] != "grove"@[2]); }
    assert("moon"@ != "dev"@) by { assert("moon"@.len() != "dev"@.len() || "moon"@[0] != "dev"@[0] || "moon"@[1] != "dev"@[1] || "moon"@[2] != "dev"@[2]); }
    assert("moon"@ != "control"@) by { assert("moon"@.len() != "control"@.len() || "moon"@[0] != "control"@[0] || "moon"@[1] != "control"@[1] || "moon"@[2] != "control"@[2]); }
    assert("moon"@ != "annex"@) by { assert("moon"@.len() != "annex"@.len() || "moon"@[0] != "annex"@[0] || "moon"@[1] != "annex"@[1] || "moon"@[2] != "annex"@[2]); }
    assert("moon"@ != "reef"@) by { assert("moon"@.len() != "reef"@.len() || "moon"@[0] != "reef"@[0] || "moon"@[1] != "reef"@[1] || "moon"@[2] != "reef"@[2]); }
    assert("moon"@ != "space_hub"@) by { assert("moon"@.len() != "space_hub"@.len() || "moon"@[0] != "space_hub"@[0] || "moon"@[1] != "space_hub"@[1] || "moon"@[2] != "space_hub"@[2]); }
    assert("mars"@ != "overworld"@) by { assert("mars"@.len() != "overworld"@.len() || "mars"@[0] != "overworld"@[0] || "mars"@[1] != "overworld"@[1] || "mars"@[2] != "overworld"@[2]); }
    assert("mars"@ != "home"@) by { assert("mars"@.len() != "home"@.len() || "mars"@[0] != "home"@[0] || "mars"@[1] != "home"@[1] || "mars"@[2] != "home"@[2]); }
    assert("mars"@ != "lab"@) by { assert("mars"@.len() != "lab"@.len() || "mars"@[0] != "lab"@[0] || "mars"@[1] != "lab"@[1] || "mars"@[2] != "lab"@[2]); }
    assert("mars"@ != "shop"@) by { assert("mars"@.len() != "shop"@.len() || "mars"@[0] != "shop"@[0] || "mars"@[1] != "shop"@[1] || "mars"@[2] != "shop"@[2]); }
    assert("mars"@ != "dream"@) by { assert("mars"@.len() != "dream"@.len() || "mars"@[0] != "dream"@[0] || "mars"@[1] != "dream"@[1] || "mars"@[2] != "dream"@[2]); }
    assert("mars"@ != "doghouse"@) by { assert("mars"@.len() != "doghouse"@.len() || "mars"@[0] != "doghouse"@[0] || "mars"@[1] != "doghouse"@[1] || "mars"@[2] != "doghouse"@[2]); }
    assert("mars"@ != "grove"@) by { assert("mars"@.len() != "grove"@.len() || "mars"@[0] != "grove"@[0] || "mars"@[1] != "grove"@[1] || "mars"@[2] != "grove"@[2]); }
    assert("mars"@ != "dev"@) by { assert("mars"@.len() != "dev"@.len() || "mars"@[0] != "dev"@[0] || "mars"@[1] != "dev"@[1] || "mars"@[2] != "dev"@[2]); }
    assert("mars"@ != "control"@) by { assert("mars"@.len() != "control"@.len() || "mars"@[0] != "control"@[0] || "mars"@[1] != "control"@[1] || "mars"@[2] != "control"@[2]); }
    assert("mars"@ != "annex"@) by { assert("mars"@.len() != "annex"@.len() || "mars"@[0] != "annex"@[0] || "mars"@[1] != "annex"@[1] || "mars"@[2] != "annex"@[2]); }
    assert("mars"@ != "reef"@) by { assert("mars"@.len() != "reef"@.len() || "mars"@[0] != "reef"@[0] || "mars"@[1] != "reef"@[1] || "mars"@[2] != "reef"@[2]); }
    assert("mars"@ != "space_hub"@) by { assert("mars"@.len() != "space_hub"@.len() || "mars"@[0] != "space_hub"@[0] || "mars"@[1] != "space_hub"@[1] || "mars"@[2] != "space_hub"@[2]); }
    assert("mars"@ != "moon"@) by { assert("mars"@.len() != "moon"@.len() || "mars"@[0] != "moon"@[0] || "mars"@[1] != "moon"@[1] || "mars"@[2] != "moon"@[2]); }
    assert("asteroid_base"@ != "overworld"@) by { assert("asteroid_base"@.len() != "overworld"@.len() || "asteroid_base"@[0] != "overworld"@[0] || "asteroid_base"@[1] != "overworld"@[1] || "asteroid_base"@[2] != "overworld"@[2]); }
    assert("asteroid_base"@ != "home"@) by { assert("asteroid_base"@.len() != "home"@.len() || "asteroid_base"@[0] != "home"@[0] || "asteroid_base"@[1] != "home"@[1] || "asteroid_base"@[2] != "home"@[2]); }
    assert("asteroid_base"@ != "lab"@) by { assert("asteroid_base"@.len() != "lab"@.len() || "asteroid_base"@[0] != "lab"@[0] || "asteroid_base"@[1] != "lab"@[1] || "asteroid_base"@[2] != "lab"@[2]); }
    assert("asteroid_base"@ != "shop"@) by { assert("asteroid_base"@.len() != "shop"@.len() || "asteroid_base"@[0] != "shop"@[0] || "asteroid_base"@[1] != "shop"@[1] || "asteroid_base"@[2] != "shop"@[2]); }
    assert("asteroid_base"@ != "dream"@) by { assert("asteroid_base"@.len() != "dream"@.len() || "asteroid_base"@[0] != "dream"@[0] || "asteroid_base"@[1] != "dream"@[1] || "asteroid_base"@[2] != "dream"@[2]); }
    assert("asteroid_base"@ != "doghouse"@) by { assert("asteroid_base"@.len() != "doghouse"@.len() || "asteroid_base"@[0] != "doghouse"@[0] || "asteroid_base"@[1] != "doghouse"@[1] || "asteroid_base"@[2] != "doghouse"@[2]); }
    assert("asteroid_base"@ != "grove"@) by { assert("asteroid_base"@.len() != "grove"@.len() || "asteroid_base"@[0] != "grove"@[0] || "asteroid_base"@[1] != "grove"@[1] || "asteroid_base"@[2] != "grove"@[2]); }
    assert("asteroid_base"@ != "dev"@) by { assert("asteroid_base"@.len() != "dev"@.len() || "asteroid_base"@[0] != "dev"@[0] || "asteroid_base"@[1] != "dev"@[1] || "asteroid_base"@[2] != "dev"@[2]); }
    assert("asteroid_base"@ != "control"@) by { assert("asteroid_base"@.len() != "control"@.len() || "asteroid_base"@[0] != "control"@[0] || "asteroid_base"@[1] != "control"@[1] || "asteroid_base"@[2] != "control"@[2]); }
    assert("asteroid_base"@ != "annex"@) by { assert("asteroid_base"@.len() != "annex"@.len() || "asteroid_base"@[0] != "annex"@[0] || "asteroid_base"@[1] != "annex"@[1] || "asteroid_base"@[2] != "annex"@[2]); }
    assert("asteroid_base"@ != "reef"@) by { assert("asteroid_base"@.len() != "reef"@.len() || "asteroid_base"@[0] != "reef"@[0] || "asteroid_base"@[1] != "reef"@[1] || "asteroid_base"@[2] != "reef"@[2]); }
    assert("asteroid_base"@ != "space_hub"@) by { assert("asteroid_base"@.len() != "space_hub"@.len() || "asteroid_base"@[0] != "space_hub"@[0] || "asteroid_base"@[1] != "space_hub"@[1] || "asteroid_base"@[2] != "space_hub"@[2]); }
    assert("asteroid_base"@ != "moon"@) by { assert("asteroid_base"@.len() != "moon"@.len() || "asteroid_base"@[0] != "moon"@[0] || "asteroid_base"@[1] != "moon"@[1] || "asteroid_base"@[2] != "moon"@[2]); }
    assert("asteroid_base"@ != "mars"@) by { assert("asteroid_base"@.len() != "mars"@.len() || "asteroid_base"@[0] != "mars"@[0] || "asteroid_base"@[1] != "mars"@[1] || "asteroid_base"@[2] != "mars"@[2]); }
}

#[verifier::spinoff_prover]
proof fn lemma_overworld_portal_tiles_walkable()
    ensures
        !solid_at(overworld_view(), 5, 7),
        !solid_at(overworld_view(), 5, 8),
        !solid_at(overworld_view(), 22, 5),
        !solid_at(overworld_view(), 22, 6),
        !solid_at(overworld_view(), 24, 17),
        !solid_at(overworld_view(), 24, 18),
        !solid_at(overworld_view(), 16, 14),
        !solid_at(overworld_view(), 13, 14),
        !solid_at(overworld_view(), 5, 5),
        !solid_at(overworld_view(), 5, 4),
        !solid_at(overworld_view(), 15, 0),
        !solid_at(overworld_view(), 15, 1),
        !solid_at(overworld_view(), 17, 15),
        !solid_at(overworld_view(), 17, 16),
{
    reveal(overworld_grid);
    reveal_strlit("dream");
    reveal_strlit("overworld");
    assert(overworld_grid()[7][5] == overworld_grid()[7][5]);
    assert(overworld_grid()[8][5] == overworld_grid()[8][5]);
    assert(overworld_grid()[5][22] == overworld_grid()[5][22]);
    assert(overworld_grid()[6][22] == overworld_grid()[6][22]);
    assert(overworld_grid()[17][24] == overworld_grid()[17][24]);
    assert(overworld_grid()[18][24] == overworld_grid()[18][24]);
    assert(overworld_grid()[14][16] == overworld_grid()[14][16]);
    assert(overworld_grid()[14][13] == overworld_grid()[14][13]);
    assert(overworld_grid()[5][5] == overworld_grid()[5][5]);
    assert(overworld_grid()[4][5] == overworld_grid()[4][5]);
    assert(overworld_grid()[0][15] == overworld_grid()[0][15]);
    assert(overworld_grid()[1][15] == overworld_grid()[1][15]);
    assert(overworld_grid()[15][17] == overworld_grid()[15][17]);
    assert(overworld_grid()[16][17] == overworld_grid()[16][17]);
}

#[verifier::spinoff_prover]
proof fn lemma_home_portal_tiles_walkable()
    ensures
        !solid_at(home_view(), 4, 5),
        !solid_at(home_view(), 4, 6),
{
    reveal(home_grid);
    reveal_strlit("dream");
    reveal_strlit("home");
    reveal_strlit("overworld");
    assert(home_grid()[5][4] == home_grid()[5][4]);
    assert(home_grid()[6][4] == home_grid()[6][4]);
}

#[verifier::spinoff_prover]
proof fn lemma_lab_portal_tiles_walkable()
    ensures
        !solid_at(lab_view(), 5, 6),
        !solid_at(lab_view(), 5, 7),
        !solid_at(lab_view(), 10, 2),
        !solid_at(lab_view(), 10, 3),
{
    reveal(lab_grid);
    reveal_strlit("dream");
    reveal_strlit("lab");
    reveal_strlit("overworld");
    assert(lab_grid()[6][5] == lab_grid()[6][5]);
    assert(lab_grid()[7][5] == lab_grid()[7][5]);
    assert(lab_grid()[2][10] == lab_grid()[2][10]);
    assert(lab_grid()[3][10] == lab_grid()[3][10]);
}

#[verifier::spinoff_prover]
proof fn lemma_shop_portal_tiles_walkable()
    ensures
        !solid_at(shop_view(), 4, 5),
        !solid_at(shop_view(), 4, 6),
{
    reveal(shop_grid);
    reveal_strlit("dream");
    reveal_strlit("overworld");
    reveal_strlit("shop");
    assert(shop_grid()[5][4] == shop_grid()[5][4]);
    assert(shop_grid()[6][4] == shop_grid()[6][4]);
}

#[verifier::spinoff_prover]
proof fn lemma_dream_portal_tiles_walkable()
    ensures
        !solid_at(dream_view(), 14, 13),
        !solid_at(dream_view(), 16, 14),
        !solid_at(dream_view(), 5, 7),
        !solid_at(dream_view(), 22, 5),
        !solid_at(dream_view(), 24, 17),
        !solid_at(dream_view(), 5, 5),
        !solid_at(dream_view(), 15, 0),
        !solid_at(dream_view(), 17, 15),
{
    reveal(overworld_grid);
    reveal_strlit("dream");
    reveal_strlit("overworld");
    assert(overworld_grid()[13][14] == overworld_grid()[13][14]);
    assert(overworld_grid()[14][16] == overworld_grid()[14][16]);
    assert(overworld_grid()[7][5] == overworld_grid()[7][5]);
    assert(overworld_grid()[5][22] == overworld_grid()[5][22]);
    assert(overworld_grid()[17][24] == overworld_grid()[17][24]);
    assert(overworld_grid()[5][5] == overworld_grid()[5][5]);
    assert(overworld_grid()[0][15] == overworld_grid()[0][15]);
    assert(overworld_grid()[15][17] == overworld_grid()[15][17]);
}

#[verifier::spinoff_prover]
proof fn lemma_doghouse_portal_tiles_walkable()
    ensures
        !solid_at(doghouse_view(), 7, 1),
        !solid_at(doghouse_view(), 7, 10),
{
    reveal(doghouse_grid);
    reveal_strlit("doghouse");
    reveal_strlit("dream");
    reveal_strlit("overworld");
    assert(doghouse_grid()[1][7] == doghouse_grid()[1][7]);
    assert(doghouse_grid()[10][7] == doghouse_grid()[10][7]);
}

#[verifier::spinoff_prover]
proof fn lemma_grove_portal_tiles_walkable()
    ensures
        !solid_at(grove_view(), 5, 8),
{
    reveal(grove_grid);
    reveal_strlit("dream");
    reveal_strlit("grove");
    reveal_strlit("overworld");
    assert(grove_grid()[8][5] == grove_grid()[8][5]);
}

#[verifier::spinoff_prover]
proof fn lemma_dev_portal_tiles_walkable()
    ensures
        !solid_at(dev_view(), 1, 9),
        !solid_at(dev_view(), 13, 10),
        !solid_at(dev_view(), 13, 9),
{
    reveal(dev_grid);
    reveal_strlit("dev");
    reveal_strlit("dream");
    reveal_strlit("overworld");
    assert(dev_grid()[9][1] == dev_grid()[9][1]);
    assert(dev_grid()[10][13] == dev_grid()[10][13]);
    assert(dev_grid()[9][13] == dev_grid()[9][13]);
}

#[verifier::spinoff_prover]
proof fn lemma_control_portal_tiles_walkable()
    ensures
        !solid_at(control_view(), 6, 1),
        !solid_at(control_view(), 6, 7),
{
    reveal(control_grid);
    reveal_strlit("control");
    reveal_strlit("dream");
    reveal_strlit("overworld");
    assert(control_grid()[1][6] == control_grid()[1][6]);
    assert(control_grid()[7][6] == control_grid()[7][6]);
}

#[verifier::spinoff_prover]
proof fn lemma_annex_portal_tiles_walkable()
    ensures
        !solid_at(annex_view(), 4, 5),
        !solid_at(annex_view(), 4, 6),
{
    reveal(annex_grid);
    reveal_strlit("annex");
    reveal_strlit("dream");
    reveal_strlit("overworld");
    assert(annex_grid()[5][4] == annex_grid()[5][4]);
    assert(annex_grid()[6][4] == annex_grid()[6][4]);
}

#[verifier::spinoff_prover]
proof fn lemma_reef_portal_tiles_walkable()
    ensures
        !solid_at(reef_view(), 8, 9),
        !solid_at(reef_view(), 8, 10),
{
    reveal(reef_grid);
    reveal_strlit("dream");
    reveal_strlit("overworld");
    reveal_strlit("reef");
    assert(reef_grid()[9][8] == reef_grid()[9][8]);
    assert(reef_grid()[10][8] == reef_grid()[10][8]);
}

#[verifier::spinoff_prover]
proof fn lemma_space_hub_portal_tiles_walkable()
    ensures
        !solid_at(space_hub_view(), 8, 9),
        !solid_at(space_hub_view(), 8, 10),
        !solid_at(space_hub_view(), 3, 2),
        !solid_at(space_hub_view(), 11, 2),
        !solid_at(space_hub_view(), 8, 4),
{
    reveal(space_hub_grid);
    reveal_strlit("dream");
    reveal_strlit("overworld");
    reveal_strlit("space_hub");
    assert(space_hub_grid()[9][8] == space_hub_grid()[9][8]);
    assert(space_hub_grid()[10][8] == space_hub_grid()[10][8]);
    assert(space_hub_grid()[2][3] == space_hub_grid()[2][3]);
    assert(space_hub_grid()[2][11] == space_hub_grid()[2][11]);
    assert(space_hub_grid()[4][8] == space_hub_grid()[4][8]);
}

#[verifier::spinoff_prover]
proof fn lemma_moon_portal_tiles_walkable()
    ensures
        !solid_at(moon_view(), 6, 2),
        !solid_at(moon_view(), 6, 7),
{
    reveal(moon_grid);
    reveal_strlit("dream");
    reveal_strlit("moon");
    reveal_strlit("overworld");
    assert(moon_grid()[2][6] == moon_grid()[2][6]);
    assert(moon_grid()[7][6] == moon_grid()[7][6]);
}

#[verifier::spinoff_prover]
proof fn lemma_mars_portal_tiles_walkable()
    ensures
        !solid_at(mars_view(), 6, 7),
        !solid_at(mars_view(), 2, 7),
{
    reveal(mars_grid);
    reveal_strlit("dream");
    reveal_strlit("mars");
    reveal_strlit("overworld");
    assert(mars_grid()[7][6] == mars_grid()[7][6]);
    assert(mars_grid()[7][2] == mars_grid()[7][2]);
}

#[verifier::spinoff_prover]
proof fn lemma_asteroid_base_portal_tiles_walkable()
    ensures
        !solid_at(asteroid_base_view(), 6, 2),
        !solid_at(asteroid_base_view(), 3, 7),
{
    reveal(asteroid_base_grid);
    reveal_strlit("asteroid_base");
    reveal_strlit("dream");
    reveal_strlit("overworld");
    assert(asteroid_base_grid()[2][6] == asteroid_base_grid()[2][6]);
    assert(asteroid_base_grid()[7][3] == asteroid_base_grid()[7][3]);
}

/// Every portal leaves from a tile the player can stand on in its own map:
/// secret portals sit on tiles that are otherwise solid, and exactly those
/// tiles are opened up.
/// Every portal leaves from, and leads to, a map that `TileMap::by_id`
/// builds under that very id, and no two portals leave from the same tile.
#[verifier::rlimit(60)]
pub proof fn lemma_portal_table_sound()
    ensures
        forall|i: int|
            0 <= i < portal_table().len() ==> map_by_id(#[trigger] portal_table()[i].from_map).id
                == portal_table()[i].from_map && map_by_id(portal_table()[i].to_map).id
                == portal_table()[i].to_map,
        forall|i: int, j: int|
            0 <= i < j < portal_table().len() ==> (#[trigger] portal_table()[i].from_map,
            portal_table()[i].from_x, portal_table()[i].from_y) != (#[trigger] portal_table()[j].from_map,
            portal_table()[j].from_x, portal_table()[j].from_y),
{
    lemma_map_by_id_known();
    reveal_strlit("overworld");
    reveal_strlit("home");
    reveal_strlit("lab");
    reveal_strlit("shop");
    reveal_strlit("dream");
    reveal_strlit("annex");
    reveal_strlit("control");
    reveal_strlit("moon");
    reveal_strlit("reef");
    reveal_strlit("space_hub");
    assert("home"@[0] != "shop"@[0]);
    let t = portal_table();
    assert forall|i: int, j: int| 0 <= i < j < t.len() implies (#[trigger] t[i].from_map, t[i].from_x,
        t[i].from_y) != (#[trigger] t[j].from_map, t[j].from_x, t[j].from_y) by {
        if t[i].from_map == t[j].from_map && t[i].from_x == t[j].from_x && t[i].from_y == t[j].from_y {
            assert(t[i].from_map.len() == t[j].from_map.len());
        }
    }
}

pub proof fn lemma_portal_entries_walkable()
    ensures
        forall|i: int|
            0 <= i < portal_table().len() ==> !solid_at(
                map_by_id(#[trigger] portal_table()[i].from_map),
                portal_table()[i].from_x,
                portal_table()[i].from_y,
            ),
{
    lemma_map_by_id_known();
    lemma_overworld_portal_tiles_walkable();
    lemma_home_portal_tiles_walkable();
    lemma_lab_portal_tiles_walkable();
    lemma_shop_portal_tiles_walkable();
    lemma_dream_portal_tiles_walkable();
    lemma_doghouse_portal_tiles_walkable();
    lemma_grove_portal_tiles_walkable();
    lemma_dev_portal_tiles_walkable();
    lemma_control_portal_tiles_walkable();
    lemma_annex_portal_tiles_walkable();
    lemma_reef_portal_tiles_walkable();
    lemma_space_hub_portal_tiles_walkable();
    lemma_moon_portal_tiles_walkable();
    lemma_mars_portal_tiles_walkable();
    lemma_asteroid_base_portal_tiles_walkable();
    assert forall|i: int| 0 <= i < portal_table().len() implies !solid_at(
        map_by_id(#[trigger] portal_table()[i].from_map),
        portal_table()[i].from_x,
        portal_table()[i].from_y,
    ) by {
        let p = portal_table()[i];
    }
}

/// Every portal lands the traveller on a walkable tile of its destination map.
pub proof fn lemma_portal_exits_walkable()
    ensures
        forall|i: int|
            0 <= i < portal_table().len() ==> !solid_at(
                map_by_id(#[trigger] portal_table()[i].to_map),
                portal_table()[i].to_x,
                portal_table()[i].to_y,
            ),
{
    lemma_map_by_id_known();
    lemma_overworld_portal_tiles_walkable();
    lemma_home_portal_tiles_walkable();
    lemma_lab_portal_tiles_walkable();
    lemma_shop_portal_tiles_walkable();
    lemma_dream_portal_tiles_walkable();
    lemma_doghouse_portal_tiles_walkable();
    lemma_grove_portal_tiles_walkable();
    lemma_dev_portal_tiles_walkable();
    lemma_control_portal_tiles_walkable();
    lemma_annex_portal_tiles_walkable();
    lemma_reef_portal_tiles_walkable();
    lemma_space_hub_portal_tiles_walkable();
    lemma_moon_portal_tiles_walkable();
    lemma_mars_portal_tiles_walkable();
    lemma_asteroid_base_portal_tiles_walkable();
    assert forall|i: int| 0 <= i < portal_table().len() implies !solid_at(
        map_by_id(#[trigger] portal_table()[i].to_map),
        portal_table()[i].to_x,
        portal_table()[i].to_y,
    ) by {
        let p = portal_table()[i];
    }
}

/// Off the grid everything blocks. On it, water, walls, trees, house walls,
/// roofs, windows, fences, signs, chests, tables, bookshelves, glitch
/// walls, coral, kelp and space rock block whatever the map; only the secret
/// walkable tiles (the hidden portals) open one of them up.
pub proof fn lemma_obstacles_block(m: MapView, col: usize, row: usize)
    ensures
        col >= m.width || row >= m.height ==> solid_at(m, col, row),
        col < m.width && row < m.height && !is_secret_walkable_spec(m.id, col, row) && {
            let t = m.grid[row as int][col as int];
            t == Tile::Water || t == Tile::Wall || t == Tile::Tree || t == Tile::HouseWall || t == Tile::Roof
                || t == Tile::Window || t == Tile::Fence || t == Tile::Sign || t == Tile::Chest || t
                == Tile::Table || t == Tile::Bookshelf || t == Tile::GlitchWall || t == Tile::Coral || t
                == Tile::Kelp || t == Tile::SpaceRock
        } ==> solid_at(m, col, row),
        col < m.width && row < m.height && is_secret_walkable_spec(m.id, col, row) ==> !solid_at(m, col, row),
{
}

/// Ground can be walked on: grass, paths, flowers, doors, bridges, floors,
/// rugs, the sea floor, sand, bubbles, dive spots, space and stars, the pads
/// and planet grounds, station floors and the glitch floors never block.
pub proof fn lemma_ground_is_walkable(m: MapView, col: usize, row: usize)
    ensures
        col < m.width && row < m.height && {
            let t = m.grid[row as int][col as int];
            t == Tile::Grass || t == Tile::Path || t == Tile::Flower || t == Tile::Door || t == Tile::Bridge
                || t == Tile::WoodFloor || t == Tile::Rug || t == Tile::SeaFloor || t == Tile::Sand || t
                == Tile::Bubble || t == Tile::DiveSpot || t == Tile::Space || t == Tile::Star || t
                == Tile::Launchpad || t == Tile::MoonPad || t == Tile::MarsPad || t == Tile::AsteroidPad
                || t == Tile::MoonGround || t == Tile::MarsGround || t == Tile::StationFloor || t
                == Tile::Glitch95 || t == Tile::Glitch96 || t == Tile::Glitch97 || t == Tile::Glitch98
        } ==> !solid_at(m, col, row),
{
}

} // verus!
