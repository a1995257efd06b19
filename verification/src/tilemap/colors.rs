//! The tile palettes: the color each tile is painted with in each render
//! mode. Glitch tiles on a glitching map shift color over time; the shift is
//! computed by the renderer and turned into a color here.
use crate::tilemap::{RenderMode, Tile};
use vstd::prelude::*;

verus! {

/// An opaque-or-not color as 8-bit red, green, blue and alpha.
#[derive(Clone, Copy, PartialEq, Eq, Debug, Structural)]
pub struct Rgba {
    pub r: u8,
    pub g: u8,
    pub b: u8,
    pub a: u8,
}

/// A fully opaque color.
pub open spec fn rgba(r: u8, g: u8, b: u8) -> Rgba {
    Rgba { r, g, b, a: 255 }
}

/// The byte a tile is stored as: 0 to 33 in declaration order for the
/// world tiles, 95 to 99 for the glitch tiles.
pub open spec fn tile_code_spec(t: Tile) -> u8 {
    match t {
        Tile::Grass => 0,
        Tile::Path => 1,
        Tile::Water => 2,
        Tile::Wall => 3,
        Tile::Tree => 4,
        Tile::Flower => 5,
        Tile::HouseWall => 6,
        Tile::Roof => 7,
        Tile::Door => 8,
        Tile::Window => 9,
        Tile::Fence => 10,
        Tile::Sign => 11,
        Tile::Bridge => 12,
        Tile::Chest => 13,
        Tile::WoodFloor => 14,
        Tile::Rug => 15,
        Tile::Table => 16,
        Tile::Bookshelf => 17,
        Tile::SeaFloor => 18,
        Tile::Sand => 19,
        Tile::Coral => 20,
        Tile::Kelp => 21,
        Tile::Bubble => 22,
        Tile::DiveSpot => 23,
        Tile::Space => 24,
        Tile::Star => 25,
        Tile::SpaceRock => 26,
        Tile::Launchpad => 27,
        Tile::MoonPad => 28,
        Tile::MarsPad => 29,
        Tile::AsteroidPad => 30,
        Tile::MoonGround => 31,
        Tile::MarsGround => 32,
        Tile::StationFloor => 33,
        Tile::Glitch95 => 95,
        Tile::Glitch96 => 96,
        Tile::Glitch97 => 97,
        Tile::Glitch98 => 98,
        Tile::GlitchWall => 99,
    }
}

impl Tile {
    /// The byte this tile is stored as.
    pub fn code(self) -> (c: u8)
        ensures
            c == tile_code_spec(self),
    {
        match self {
            Tile::Grass => 0,
            Tile::Path => 1,
            Tile::Water => 2,
            Tile::Wall => 3,
            Tile::Tree => 4,
            Tile::Flower => 5,
            Tile::HouseWall => 6,
            Tile::Roof => 7,
            Tile::Door => 8,
            Tile::Window => 9,
            Tile::Fence => 10,
            Tile::Sign => 11,
            Tile::Bridge => 12,
            Tile::Chest => 13,
            Tile::WoodFloor => 14,
            Tile::Rug => 15,
            Tile::Table => 16,
            Tile::Bookshelf => 17,
            Tile::SeaFloor => 18,
            Tile::Sand => 19,
            Tile::Coral => 20,
            Tile::Kelp => 21,
            Tile::Bubble => 22,
            Tile::DiveSpot => 23,
            Tile::Space => 24,
            Tile::Star => 25,
            Tile::SpaceRock => 26,
            Tile::Launchpad => 27,
            Tile::MoonPad => 28,
            Tile::MarsPad => 29,
            Tile::AsteroidPad => 30,
            Tile::MoonGround => 31,
            Tile::MarsGround => 32,
            Tile::StationFloor => 33,
            Tile::Glitch95 => 95,
            Tile::Glitch96 => 96,
            Tile::Glitch97 => 97,
            Tile::Glitch98 => 98,
            Tile::GlitchWall => 99,
        }
    }
}

/// The everyday palette.
pub open spec fn tile_color_normal_spec(t: Tile) -> Rgba {
    match t {
        Tile::Grass => rgba(76, 175, 80),
        Tile::Path => rgba(222, 184, 135),
        Tile::Water => rgba(66, 165, 245),
        Tile::Wall => rgba(121, 85, 72),
        Tile::Tree => rgba(76, 175, 80),
        Tile::Flower => rgba(76, 175, 80),
        Tile::HouseWall => rgba(255, 204, 128),
        Tile::Roof => rgba(211, 47, 47),
        Tile::Door => rgba(255, 204, 128),
        Tile::Window => rgba(255, 204, 128),
        Tile::Fence => rgba(76, 175, 80),
        Tile::Sign => rgba(76, 175, 80),
        Tile::Bridge => rgba(66, 165, 245),
        Tile::Chest => rgba(76, 175, 80),
        Tile::WoodFloor => rgba(161, 136, 127),
        Tile::Rug => rgba(161, 136, 127),
        Tile::Table => rgba(78, 52, 46),
        Tile::Bookshelf => rgba(62, 39, 35),
        Tile::SeaFloor => rgba(38, 120, 140),
        Tile::Sand => rgba(214, 205, 160),
        Tile::Coral => rgba(255, 111, 97),
        Tile::Kelp => rgba(34, 110, 80),
        Tile::Bubble => rgba(38, 120, 140),
        Tile::DiveSpot => rgba(66, 165, 245),
        Tile::Space => rgba(10, 12, 28),
        Tile::Star => rgba(10, 12, 28),
        Tile::SpaceRock => rgba(58, 54, 74),
        Tile::Launchpad => rgba(40, 44, 70),
        Tile::MoonPad => rgba(40, 44, 70),
        Tile::MarsPad => rgba(40, 44, 70),
        Tile::AsteroidPad => rgba(40, 44, 70),
        Tile::MoonGround => rgba(120, 120, 130),
        Tile::MarsGround => rgba(160, 78, 54),
        Tile::StationFloor => rgba(70, 78, 96),
        Tile::Glitch95 => rgba(50, 50, 50),
        Tile::Glitch96 => rgba(50, 50, 50),
        Tile::Glitch97 => rgba(50, 50, 50),
        Tile::Glitch98 => rgba(50, 50, 50),
        Tile::GlitchWall => rgba(50, 50, 50),
    }
}

/// The everyday palette.
pub fn tile_color_normal(t: Tile) -> (c: Rgba)
    ensures
        c == tile_color_normal_spec(t),
{
    match t {
        Tile::Grass => Rgba { r: 76, g: 175, b: 80, a: 255 },
        Tile::Path => Rgba { r: 222, g: 184, b: 135, a: 255 },
        Tile::Water => Rgba { r: 66, g: 165, b: 245, a: 255 },
        Tile::Wall => Rgba { r: 121, g: 85, b: 72, a: 255 },
        Tile::Tree => Rgba { r: 76, g: 175, b: 80, a: 255 },
        Tile::Flower => Rgba { r: 76, g: 175, b: 80, a: 255 },
        Tile::HouseWall => Rgba { r: 255, g: 204, b: 128, a: 255 },
        Tile::Roof => Rgba { r: 211, g: 47, b: 47, a: 255 },
        Tile::Door => Rgba { r: 255, g: 204, b: 128, a: 255 },
        Tile::Window => Rgba { r: 255, g: 204, b: 128, a: 255 },
        Tile::Fence => Rgba { r: 76, g: 175, b: 80, a: 255 },
        Tile::Sign => Rgba { r: 76, g: 175, b: 80, a: 255 },
        Tile::Bridge => Rgba { r: 66, g: 165, b: 245, a: 255 },
        Tile::Chest => Rgba { r: 76, g: 175, b: 80, a: 255 },
        Tile::WoodFloor => Rgba { r: 161, g: 136, b: 127, a: 255 },
        Tile::Rug => Rgba { r: 161, g: 136, b: 127, a: 255 },
        Tile::Table => Rgba { r: 78, g: 52, b: 46, a: 255 },
        Tile::Bookshelf => Rgba { r: 62, g: 39, b: 35, a: 255 },
        Tile::SeaFloor => Rgba { r: 38, g: 120, b: 140, a: 255 },
        Tile::Sand => Rgba { r: 214, g: 205, b: 160, a: 255 },
        Tile::Coral => Rgba { r: 255, g: 111, b: 97, a: 255 },
        Tile::Kelp => Rgba { r: 34, g: 110, b: 80, a: 255 },
        Tile::Bubble => Rgba { r: 38, g: 120, b: 140, a: 255 },
        Tile::DiveSpot => Rgba { r: 66, g: 165, b: 245, a: 255 },
        Tile::Space => Rgba { r: 10, g: 12, b: 28, a: 255 },
        Tile::Star => Rgba { r: 10, g: 12, b: 28, a: 255 },
        Tile::SpaceRock => Rgba { r: 58, g: 54, b: 74, a: 255 },
        Tile::Launchpad => Rgba { r: 40, g: 44, b: 70, a: 255 },
        Tile::MoonPad => Rgba { r: 40, g: 44, b: 70, a: 255 },
        Tile::MarsPad => Rgba { r: 40, g: 44, b: 70, a: 255 },
        Tile::AsteroidPad => Rgba { r: 40, g: 44, b: 70, a: 255 },
        Tile::MoonGround => Rgba { r: 120, g: 120, b: 130, a: 255 },
        Tile::MarsGround => Rgba { r: 160, g: 78, b: 54, a: 255 },
        Tile::StationFloor => Rgba { r: 70, g: 78, b: 96, a: 255 },
        Tile::Glitch95 => Rgba { r: 50, g: 50, b: 50, a: 255 },
        Tile::Glitch96 => Rgba { r: 50, g: 50, b: 50, a: 255 },
        Tile::Glitch97 => Rgba { r: 50, g: 50, b: 50, a: 255 },
        Tile::Glitch98 => Rgba { r: 50, g: 50, b: 50, a: 255 },
        Tile::GlitchWall => Rgba { r: 50, g: 50, b: 50, a: 255 },
    }
}

/// The dream palette: muted purples and blues.
pub open spec fn tile_color_dream_spec(t: Tile) -> Rgba {
    match t {
        Tile::Grass => rgba(106, 90, 205),
        Tile::Path => rgba(180, 160, 200),
        Tile::Water => rgba(50, 50, 140),
        Tile::Wall => rgba(60, 50, 80),
        Tile::Tree => rgba(106, 90, 205),
        Tile::Flower => rgba(106, 90, 205),
        Tile::HouseWall => rgba(160, 140, 190),
        Tile::Roof => rgba(130, 80, 140),
        Tile::Door => rgba(160, 140, 190),
        Tile::Window => rgba(160, 140, 190),
        Tile::Fence => rgba(106, 90, 205),
        Tile::Sign => rgba(106, 90, 205),
        Tile::Bridge => rgba(50, 50, 140),
        Tile::Chest => rgba(106, 90, 205),
        Tile::WoodFloor => rgba(120, 100, 140),
        Tile::Rug => rgba(120, 100, 140),
        Tile::Table => rgba(60, 50, 80),
        Tile::Bookshelf => rgba(60, 50, 80),
        Tile::SeaFloor => rgba(50, 50, 140),
        Tile::Sand => rgba(160, 140, 190),
        Tile::Coral => rgba(120, 80, 140),
        Tile::Kelp => rgba(106, 90, 205),
        Tile::Bubble => rgba(50, 50, 140),
        Tile::DiveSpot => rgba(50, 50, 140),
        Tile::Space => rgba(60, 50, 80),
        Tile::Star => rgba(60, 50, 80),
        Tile::SpaceRock => rgba(60, 50, 80),
        Tile::Launchpad => rgba(160, 140, 190),
        Tile::MoonPad => rgba(160, 140, 190),
        Tile::MarsPad => rgba(160, 140, 190),
        Tile::AsteroidPad => rgba(160, 140, 190),
        Tile::MoonGround => rgba(106, 90, 205),
        Tile::MarsGround => rgba(106, 90, 205),
        Tile::StationFloor => rgba(106, 90, 205),
        Tile::Glitch95 => rgba(60, 50, 80),
        Tile::Glitch96 => rgba(60, 50, 80),
        Tile::Glitch97 => rgba(60, 50, 80),
        Tile::Glitch98 => rgba(60, 50, 80),
        Tile::GlitchWall => rgba(60, 50, 80),
    }
}

/// The dream palette: muted purples and blues.
pub fn tile_color_dream(t: Tile) -> (c: Rgba)
    ensures
        c == tile_color_dream_spec(t),
{
    match t {
        Tile::Grass => Rgba { r: 106, g: 90, b: 205, a: 255 },
        Tile::Path => Rgba { r: 180, g: 160, b: 200, a: 255 },
        Tile::Water => Rgba { r: 50, g: 50, b: 140, a: 255 },
        Tile::Wall => Rgba { r: 60, g: 50, b: 80, a: 255 },
        Tile::Tree => Rgba { r: 106, g: 90, b: 205, a: 255 },
        Tile::Flower => Rgba { r: 106, g: 90, b: 205, a: 255 },
        Tile::HouseWall => Rgba { r: 160, g: 140, b: 190, a: 255 },
        Tile::Roof => Rgba { r: 130, g: 80, b: 140, a: 255 },
        Tile::Door => Rgba { r: 160, g: 140, b: 190, a: 255 },
        Tile::Window => Rgba { r: 160, g: 140, b: 190, a: 255 },
        Tile::Fence => Rgba { r: 106, g: 90, b: 205, a: 255 },
        Tile::Sign => Rgba { r: 106, g: 90, b: 205, a: 255 },
        Tile::Bridge => Rgba { r: 50, g: 50, b: 140, a: 255 },
        Tile::Chest => Rgba { r: 106, g: 90, b: 205, a: 255 },
        Tile::WoodFloor => Rgba { r: 120, g: 100, b: 140, a: 255 },
        Tile::Rug => Rgba { r: 120, g: 100, b: 140, a: 255 },
        Tile::Table => Rgba { r: 60, g: 50, b: 80, a: 255 },
        Tile::Bookshelf => Rgba { r: 60, g: 50, b: 80, a: 255 },
        Tile::SeaFloor => Rgba { r: 50, g: 50, b: 140, a: 255 },
        Tile::Sand => Rgba { r: 160, g: 140, b: 190, a: 255 },
        Tile::Coral => Rgba { r: 120, g: 80, b: 140, a: 255 },
        Tile::Kelp => Rgba { r: 106, g: 90, b: 205, a: 255 },
        Tile::Bubble => Rgba { r: 50, g: 50, b: 140, a: 255 },
        Tile::DiveSpot => Rgba { r: 50, g: 50, b: 140, a: 255 },
        Tile::Space => Rgba { r: 60, g: 50, b: 80, a: 255 },
        Tile::Star => Rgba { r: 60, g: 50, b: 80, a: 255 },
        Tile::SpaceRock => Rgba { r: 60, g: 50, b: 80, a: 255 },
        Tile::Launchpad => Rgba { r: 160, g: 140, b: 190, a: 255 },
        Tile::MoonPad => Rgba { r: 160, g: 140, b: 190, a: 255 },
        Tile::MarsPad => Rgba { r: 160, g: 140, b: 190, a: 255 },
        Tile::AsteroidPad => Rgba { r: 160, g: 140, b: 190, a: 255 },
        Tile::MoonGround => Rgba { r: 106, g: 90, b: 205, a: 255 },
        Tile::MarsGround => Rgba { r: 106, g: 90, b: 205, a: 255 },
        Tile::StationFloor => Rgba { r: 106, g: 90, b: 205, a: 255 },
        Tile::Glitch95 => Rgba { r: 60, g: 50, b: 80, a: 255 },
        Tile::Glitch96 => Rgba { r: 60, g: 50, b: 80, a: 255 },
        Tile::Glitch97 => Rgba { r: 60, g: 50, b: 80, a: 255 },
        Tile::Glitch98 => Rgba { r: 60, g: 50, b: 80, a: 255 },
        Tile::GlitchWall => Rgba { r: 60, g: 50, b: 80, a: 255 },
    }
}

/// The space palette: a dark void with each world's ground color.
pub open spec fn tile_color_cosmic_spec(t: Tile) -> Rgba {
    match t {
        Tile::Grass => rgba(10, 12, 28),
        Tile::Path => rgba(10, 12, 28),
        Tile::Water => rgba(10, 12, 28),
        Tile::Wall => rgba(10, 12, 28),
        Tile::Tree => rgba(10, 12, 28),
        Tile::Flower => rgba(10, 12, 28),
        Tile::HouseWall => rgba(10, 12, 28),
        Tile::Roof => rgba(10, 12, 28),
        Tile::Door => rgba(10, 12, 28),
        Tile::Window => rgba(10, 12, 28),
        Tile::Fence => rgba(10, 12, 28),
        Tile::Sign => rgba(10, 12, 28),
        Tile::Bridge => rgba(10, 12, 28),
        Tile::Chest => rgba(10, 12, 28),
        Tile::WoodFloor => rgba(10, 12, 28),
        Tile::Rug => rgba(10, 12, 28),
        Tile::Table => rgba(10, 12, 28),
        Tile::Bookshelf => rgba(10, 12, 28),
        Tile::SeaFloor => rgba(10, 12, 28),
        Tile::Sand => rgba(10, 12, 28),
        Tile::Coral => rgba(10, 12, 28),
        Tile::Kelp => rgba(10, 12, 28),
        Tile::Bubble => rgba(10, 12, 28),
        Tile::DiveSpot => rgba(10, 12, 28),
        Tile::Space => rgba(10, 12, 28),
        Tile::Star => rgba(10, 12, 28),
        Tile::SpaceRock => rgba(58, 54, 74),
        Tile::Launchpad => rgba(40, 44, 70),
        Tile::MoonPad => rgba(40, 44, 70),
        Tile::MarsPad => rgba(40, 44, 70),
        Tile::AsteroidPad => rgba(40, 44, 70),
        Tile::MoonGround => rgba(120, 120, 130),
        Tile::MarsGround => rgba(160, 78, 54),
        Tile::StationFloor => rgba(70, 78, 96),
        Tile::Glitch95 => rgba(10, 12, 28),
        Tile::Glitch96 => rgba(10, 12, 28),
        Tile::Glitch97 => rgba(10, 12, 28),
        Tile::Glitch98 => rgba(10, 12, 28),
        Tile::GlitchWall => rgba(10, 12, 28),
    }
}

/// The space palette: a dark void with each world's ground color.
pub fn tile_color_cosmic(t: Tile) -> (c: Rgba)
    ensures
        c == tile_color_cosmic_spec(t),
{
    match t {
        Tile::Grass => Rgba { r: 10, g: 12, b: 28, a: 255 },
        Tile::Path => Rgba { r: 10, g: 12, b: 28, a: 255 },
        Tile::Water => Rgba { r: 10, g: 12, b: 28, a: 255 },
        Tile::Wall => Rgba { r: 10, g: 12, b: 28, a: 255 },
        Tile::Tree => Rgba { r: 10, g: 12, b: 28, a: 255 },
        Tile::Flower => Rgba { r: 10, g: 12, b: 28, a: 255 },
        Tile::HouseWall => Rgba { r: 10, g: 12, b: 28, a: 255 },
        Tile::Roof => Rgba { r: 10, g: 12, b: 28, a: 255 },
        Tile::Door => Rgba { r: 10, g: 12, b: 28, a: 255 },
        Tile::Window => Rgba { r: 10, g: 12, b: 28, a: 255 },
        Tile::Fence => Rgba { r: 10, g: 12, b: 28, a: 255 },
        Tile::Sign => Rgba { r: 10, g: 12, b: 28, a: 255 },
        Tile::Bridge => Rgba { r: 10, g: 12, b: 28, a: 255 },
        Tile::Chest => Rgba { r: 10, g: 12, b: 28, a: 255 },
        Tile::WoodFloor => Rgba { r: 10, g: 12, b: 28, a: 255 },
        Tile::Rug => Rgba { r: 10, g: 12, b: 28, a: 255 },
        Tile::Table => Rgba { r: 10, g: 12, b: 28, a: 255 },
        Tile::Bookshelf => Rgba { r: 10, g: 12, b: 28, a: 255 },
        Tile::SeaFloor => Rgba { r: 10, g: 12, b: 28, a: 255 },
        Tile::Sand => Rgba { r: 10, g: 12, b: 28, a: 255 },
        Tile::Coral => Rgba { r: 10, g: 12, b: 28, a: 255 },
        Tile::Kelp => Rgba { r: 10, g: 12, b: 28, a: 255 },
        Tile::Bubble => Rgba { r: 10, g: 12, b: 28, a: 255 },
        Tile::DiveSpot => Rgba { r: 10, g: 12, b: 28, a: 255 },
        Tile::Space => Rgba { r: 10, g: 12, b: 28, a: 255 },
        Tile::Star => Rgba { r: 10, g: 12, b: 28, a: 255 },
        Tile::SpaceRock => Rgba { r: 58, g: 54, b: 74, a: 255 },
        Tile::Launchpad => Rgba { r: 40, g: 44, b: 70, a: 255 },
        Tile::MoonPad => Rgba { r: 40, g: 44, b: 70, a: 255 },
        Tile::MarsPad => Rgba { r: 40, g: 44, b: 70, a: 255 },
        Tile::AsteroidPad => Rgba { r: 40, g: 44, b: 70, a: 255 },
        Tile::MoonGround => Rgba { r: 120, g: 120, b: 130, a: 255 },
        Tile::MarsGround => Rgba { r: 160, g: 78, b: 54, a: 255 },
        Tile::StationFloor => Rgba { r: 70, g: 78, b: 96, a: 255 },
        Tile::Glitch95 => Rgba { r: 10, g: 12, b: 28, a: 255 },
        Tile::Glitch96 => Rgba { r: 10, g: 12, b: 28, a: 255 },
        Tile::Glitch97 => Rgba { r: 10, g: 12, b: 28, a: 255 },
        Tile::Glitch98 => Rgba { r: 10, g: 12, b: 28, a: 255 },
        Tile::GlitchWall => Rgba { r: 10, g: 12, b: 28, a: 255 },
    }
}

/// The underwater palette: every tile tinted teal, the reef tiles in their own colors.
pub open spec fn tile_color_aquatic_spec(t: Tile) -> Rgba {
    match t {
        Tile::Grass => rgba(38, 120, 140),
        Tile::Path => rgba(214, 205, 160),
        Tile::Water => rgba(13, 71, 102),
        Tile::Wall => rgba(13, 71, 102),
        Tile::Tree => rgba(13, 71, 102),
        Tile::Flower => rgba(13, 71, 102),
        Tile::HouseWall => rgba(13, 71, 102),
        Tile::Roof => rgba(13, 71, 102),
        Tile::Door => rgba(13, 71, 102),
        Tile::Window => rgba(13, 71, 102),
        Tile::Fence => rgba(13, 71, 102),
        Tile::Sign => rgba(13, 71, 102),
        Tile::Bridge => rgba(214, 205, 160),
        Tile::Chest => rgba(13, 71, 102),
        Tile::WoodFloor => rgba(13, 71, 102),
        Tile::Rug => rgba(13, 71, 102),
        Tile::Table => rgba(13, 71, 102),
        Tile::Bookshelf => rgba(13, 71, 102),
        Tile::SeaFloor => rgba(38, 120, 140),
        Tile::Sand => rgba(214, 205, 160),
        Tile::Coral => rgba(255, 111, 97),
        Tile::Kelp => rgba(34, 110, 80),
        Tile::Bubble => rgba(38, 120, 140),
        Tile::DiveSpot => rgba(13, 71, 102),
        Tile::Space => rgba(13, 71, 102),
        Tile::Star => rgba(13, 71, 102),
        Tile::SpaceRock => rgba(13, 71, 102),
        Tile::Launchpad => rgba(13, 71, 102),
        Tile::MoonPad => rgba(13, 71, 102),
        Tile::MarsPad => rgba(13, 71, 102),
        Tile::AsteroidPad => rgba(13, 71, 102),
        Tile::MoonGround => rgba(13, 71, 102),
        Tile::MarsGround => rgba(13, 71, 102),
        Tile::StationFloor => rgba(13, 71, 102),
        Tile::Glitch95 => rgba(13, 71, 102),
        Tile::Glitch96 => rgba(13, 71, 102),
        Tile::Glitch97 => rgba(13, 71, 102),
        Tile::Glitch98 => rgba(13, 71, 102),
        Tile::GlitchWall => rgba(13, 71, 102),
    }
}

/// The underwater palette: every tile tinted teal, the reef tiles in their own colors.
pub fn tile_color_aquatic(t: Tile) -> (c: Rgba)
    ensures
        c == tile_color_aquatic_spec(t),
{
    match t {
        Tile::Grass => Rgba { r: 38, g: 120, b: 140, a: 255 },
        Tile::Path => Rgba { r: 214, g: 205, b: 160, a: 255 },
        Tile::Water => Rgba { r: 13, g: 71, b: 102, a: 255 },
        Tile::Wall => Rgba { r: 13, g: 71, b: 102, a: 255 },
        Tile::Tree => Rgba { r: 13, g: 71, b: 102, a: 255 },
        Tile::Flower => Rgba { r: 13, g: 71, b: 102, a: 255 },
        Tile::HouseWall => Rgba { r: 13, g: 71, b: 102, a: 255 },
        Tile::Roof => Rgba { r: 13, g: 71, b: 102, a: 255 },
        Tile::Door => Rgba { r: 13, g: 71, b: 102, a: 255 },
        Tile::Window => Rgba { r: 13, g: 71, b: 102, a: 255 },
        Tile::Fence => Rgba { r: 13, g: 71, b: 102, a: 255 },
        Tile::Sign => Rgba { r: 13, g: 71, b: 102, a: 255 },
        Tile::Bridge => Rgba { r: 214, g: 205, b: 160, a: 255 },
        Tile::Chest => Rgba { r: 13, g: 71, b: 102, a: 255 },
        Tile::WoodFloor => Rgba { r: 13, g: 71, b: 102, a: 255 },
        Tile::Rug => Rgba { r: 13, g: 71, b: 102, a: 255 },
        Tile::Table => Rgba { r: 13, g: 71, b: 102, a: 255 },
        Tile::Bookshelf => Rgba { r: 13, g: 71, b: 102, a: 255 },
        Tile::SeaFloor => Rgba { r: 38, g: 120, b: 140, a: 255 },
        Tile::Sand => Rgba { r: 214, g: 205, b: 160, a: 255 },
        Tile::Coral => Rgba { r: 255, g: 111, b: 97, a: 255 },
        Tile::Kelp => Rgba { r: 34, g: 110, b: 80, a: 255 },
        Tile::Bubble => Rgba { r: 38, g: 120, b: 140, a: 255 },
        Tile::DiveSpot => Rgba { r: 13, g: 71, b: 102, a: 255 },
        Tile::Space => Rgba { r: 13, g: 71, b: 102, a: 255 },
        Tile::Star => Rgba { r: 13, g: 71, b: 102, a: 255 },
        Tile::SpaceRock => Rgba { r: 13, g: 71, b: 102, a: 255 },
        Tile::Launchpad => Rgba { r: 13, g: 71, b: 102, a: 255 },
        Tile::MoonPad => Rgba { r: 13, g: 71, b: 102, a: 255 },
        Tile::MarsPad => Rgba { r: 13, g: 71, b: 102, a: 255 },
        Tile::AsteroidPad => Rgba { r: 13, g: 71, b: 102, a: 255 },
        Tile::MoonGround => Rgba { r: 13, g: 71, b: 102, a: 255 },
        Tile::MarsGround => Rgba { r: 13, g: 71, b: 102, a: 255 },
        Tile::StationFloor => Rgba { r: 13, g: 71, b: 102, a: 255 },
        Tile::Glitch95 => Rgba { r: 13, g: 71, b: 102, a: 255 },
        Tile::Glitch96 => Rgba { r: 13, g: 71, b: 102, a: 255 },
        Tile::Glitch97 => Rgba { r: 13, g: 71, b: 102, a: 255 },
        Tile::Glitch98 => Rgba { r: 13, g: 71, b: 102, a: 255 },
        Tile::GlitchWall => Rgba { r: 13, g: 71, b: 102, a: 255 },
    }
}

/// The tiles that shift color on a glitching map.
pub open spec fn glitchy(t: Tile) -> bool {
    t == Tile::Glitch95 || t == Tile::Glitch96 || t == Tile::Glitch97 || t == Tile::Glitch98
        || t == Tile::GlitchWall
}

/// How a tile is painted: a fixed color, or a color that shifts over time.
#[derive(Clone, Copy, PartialEq, Eq, Debug, Structural)]
pub enum TileColor {
    Fixed(Rgba),
    /// Shifting: the renderer picks a shift from the clock and the tile's
    /// code and paints `glitch_color(shift)`.
    Glitching,
}

/// The paint for a tile under a render mode.
pub open spec fn tile_color_spec(t: Tile, mode: RenderMode) -> TileColor {
    if mode == RenderMode::Glitch && glitchy(t) {
        TileColor::Glitching
    } else if mode == RenderMode::Dream {
        TileColor::Fixed(tile_color_dream_spec(t))
    } else if mode == RenderMode::Aquatic {
        TileColor::Fixed(tile_color_aquatic_spec(t))
    } else if mode == RenderMode::Cosmic {
        TileColor::Fixed(tile_color_cosmic_spec(t))
    } else {
        TileColor::Fixed(tile_color_normal_spec(t))
    }
}

/// How a tile is painted under a render mode.
pub fn tile_color(t: Tile, mode: RenderMode) -> (c: TileColor)
    ensures
        c == tile_color_spec(t, mode),
{
    let g = match t {
        Tile::Glitch95 | Tile::Glitch96 | Tile::Glitch97 | Tile::Glitch98 | Tile::GlitchWall => true,
        _ => false,
    };
    match mode {
        RenderMode::Glitch => if g {
            TileColor::Glitching
        } else {
            TileColor::Fixed(tile_color_normal(t))
        },
        RenderMode::Dream => TileColor::Fixed(tile_color_dream(t)),
        RenderMode::Aquatic => TileColor::Fixed(tile_color_aquatic(t)),
        RenderMode::Cosmic => TileColor::Fixed(tile_color_cosmic(t)),
        RenderMode::Normal => TileColor::Fixed(tile_color_normal(t)),
    }
}

/// The color of a glitch tile at a given shift: red follows the shift,
/// green runs against it, blue at half strength.
pub fn glitch_color(shift: u8) -> (c: Rgba)
    ensures
        c == rgba(shift, (255 - shift) as u8, shift / 2),
{
    Rgba { r: shift, g: 255 - shift, b: shift / 2, a: 255 }
}

} // verus!
