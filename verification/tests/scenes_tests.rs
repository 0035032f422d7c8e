//! Tests of the programmatic scene table and the specified grid scene.

use vello_bench::filled_rects::{
    filled_rects_cell_bounds, filled_rects_cell_color, filled_rects_expected_pixel, FilledRects,
};
use vello_bench::images::PathsAndImages100;
use vello_bench::pixels::Rgba8;
use vello_bench::vello_scenes::{find_vello_scene, get_vello_scenes};

#[test]
fn scene_table_holds_every_scene_once() {
    let scenes = get_vello_scenes();
    assert_eq!(scenes.len(), 24);
    assert_eq!(scenes[0].name, "filled_rects");
    assert_eq!(scenes[0].width, 1024);
    assert_eq!(scenes[0].height, 768);
    assert_eq!(scenes[23].name, "paths_and_images_100");
    for s in &scenes[1..] {
        assert_eq!(s.width, 1920);
        assert_eq!(s.height, 1080);
    }
    for i in 0..scenes.len() {
        for j in (i + 1)..scenes.len() {
            assert_ne!(scenes[i].name, scenes[j].name);
        }
    }
}

#[test]
fn scene_lookup_finds_exact_names_only() {
    let info = find_vello_scene("tiled_flowers_10000").expect("in table");
    assert_eq!(info.name, "tiled_flowers_10000");
    assert_eq!(info.width, 1920);
    let info = find_vello_scene("filled_rects").expect("in table");
    assert_eq!(info.height, 768);
    assert!(find_vello_scene("tiled_flowers").is_none());
    assert!(find_vello_scene("").is_none());
}

#[test]
fn scene_metadata_constructors() {
    let info = FilledRects::info();
    assert_eq!(info.name, "filled_rects");
    assert_eq!(info.width, 1024);
    assert_eq!(info.height, 768);
    let info = PathsAndImages100::info();
    assert_eq!(info.name, "paths_and_images_100");
    assert_eq!(info.width, 1920);
    assert_eq!(info.height, 1080);
}

#[test]
fn grid_colors_rotate_through_the_palette() {
    let red = Rgba8 { r: 255, g: 0, b: 0, a: 255 };
    let green = Rgba8 { r: 0, g: 128, b: 0, a: 255 };
    let cyan = Rgba8 { r: 0, g: 255, b: 255, a: 255 };
    let magenta = Rgba8 { r: 255, g: 0, b: 255, a: 255 };
    assert_eq!(filled_rects_cell_color(0, 0), red);
    assert_eq!(filled_rects_cell_color(0, 1), green);
    assert_eq!(filled_rects_cell_color(0, 5), magenta);
    assert_eq!(filled_rects_cell_color(0, 6), red);
    // Row 1 starts at cell index 16, which is palette slot 4.
    assert_eq!(filled_rects_cell_color(1, 0), cyan);
    assert_eq!(filled_rects_cell_color(11, 15), magenta);
}

#[test]
fn grid_cells_tile_the_native_canvas() {
    assert_eq!(filled_rects_cell_bounds(0, 0), (0, 0, 64, 64));
    assert_eq!(filled_rects_cell_bounds(11, 15), (960, 704, 1024, 768));
    assert_eq!(filled_rects_cell_bounds(3, 7), (448, 192, 512, 256));
}

#[test]
fn expected_pixels_follow_their_cell() {
    assert_eq!(
        filled_rects_expected_pixel(32, 32),
        filled_rects_cell_color(0, 0)
    );
    assert_eq!(
        filled_rects_expected_pixel(1023, 767),
        filled_rects_cell_color(11, 15)
    );
    assert_eq!(
        filled_rects_expected_pixel(64, 0),
        filled_rects_cell_color(0, 1)
    );
}
