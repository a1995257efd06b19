use robot_buddy_game::tilemap::colors::{
    glitch_color, tile_color, tile_color_aquatic, tile_color_cosmic, tile_color_dream, tile_color_normal,
    Rgba, TileColor,
};
use robot_buddy_game::tilemap::{RenderMode, Tile};

fn rgba(r: u8, g: u8, b: u8) -> Rgba {
    Rgba { r, g, b, a: 255 }
}

#[test]
fn everyday_palette() {
    assert_eq!(tile_color_normal(Tile::Grass), rgba(76, 175, 80));
    assert_eq!(tile_color_normal(Tile::Roof), rgba(211, 47, 47));
    assert_eq!(tile_color_normal(Tile::GlitchWall), rgba(50, 50, 50));
}

#[test]
fn render_modes_pick_their_palette() {
    assert_eq!(tile_color(Tile::Grass, RenderMode::Normal), TileColor::Fixed(rgba(76, 175, 80)));
    assert_eq!(tile_color(Tile::Grass, RenderMode::Dream), TileColor::Fixed(rgba(106, 90, 205)));
    assert_eq!(tile_color(Tile::Grass, RenderMode::Aquatic), TileColor::Fixed(rgba(38, 120, 140)));
    assert_eq!(tile_color(Tile::Grass, RenderMode::Cosmic), TileColor::Fixed(rgba(10, 12, 28)));
    assert_eq!(tile_color(Tile::Grass, RenderMode::Glitch), TileColor::Fixed(rgba(76, 175, 80)));
    assert_eq!(tile_color(Tile::Glitch97, RenderMode::Glitch), TileColor::Glitching);
    assert_eq!(tile_color(Tile::Glitch97, RenderMode::Normal), TileColor::Fixed(rgba(50, 50, 50)));
}

#[test]
fn themed_palettes() {
    assert_eq!(tile_color_dream(Tile::Path), rgba(180, 160, 200));
    assert_eq!(tile_color_cosmic(Tile::MarsGround), rgba(160, 78, 54));
    assert_eq!(tile_color_cosmic(Tile::Grass), rgba(10, 12, 28));
    assert_eq!(tile_color_aquatic(Tile::Coral), rgba(255, 111, 97));
    assert_eq!(tile_color_aquatic(Tile::Wall), rgba(13, 71, 102));
}

#[test]
fn glitch_shift_colors_and_tile_codes() {
    assert_eq!(glitch_color(200), rgba(200, 55, 100));
    assert_eq!(glitch_color(0), rgba(0, 255, 0));
    assert_eq!(Tile::Grass.code(), 0);
    assert_eq!(Tile::StationFloor.code(), 33);
    assert_eq!(Tile::Glitch95.code(), 95);
    assert_eq!(Tile::GlitchWall.code(), 99);
}
