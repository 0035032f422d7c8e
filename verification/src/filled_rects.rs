//! The filled-rectangle grid scene, specified exactly.
//!
//! The scene fills a 16-by-12 grid of cells with six solid colors in
//! rotation. At its native 1024-by-768 canvas every cell is exactly 64
//! pixels square, so the color of any pixel follows from integer
//! arithmetic alone: this module states that geometry and color
//! assignment, giving readback a precise reference to be checked against.

use vstd::prelude::*;

use crate::pixels::Rgba8;
use crate::vello_scenes::VelloSceneInfo;

verus! {

/// Grid columns.
pub const FILLED_RECTS_COLS: u16 = 16;

/// Grid rows.
pub const FILLED_RECTS_ROWS: u16 = 12;

/// Native canvas width; each cell is then 64 pixels wide.
pub const FILLED_RECTS_WIDTH: u16 = 1024;

/// Native canvas height; each cell is then 64 pixels tall.
pub const FILLED_RECTS_HEIGHT: u16 = 768;

/// The edge length of one grid cell at the native canvas size.
pub const FILLED_RECTS_CELL: u16 = 64;

/// The vector-only grid scene.
pub struct FilledRects;

impl FilledRects {
    /// Scene metadata: name and native dimensions.
    pub fn info() -> (info: VelloSceneInfo)
        ensures
            info.name@ == "filled_rects"@,
            info.width == FILLED_RECTS_WIDTH,
            info.height == FILLED_RECTS_HEIGHT,
    {
        VelloSceneInfo { name: "filled_rects", width: FILLED_RECTS_WIDTH, height: FILLED_RECTS_HEIGHT }
    }
}

/// The palette index a cell is painted with: the six colors rotate in
/// row-major cell order.
pub open spec fn spec_cell_color_index(row: int, col: int) -> int {
    (row * 16 + col) % 6
}

/// The six palette colors in rotation order: red, green, blue, yellow,
/// cyan, magenta, all opaque, with the half-intensity green of the CSS
/// palette.
pub open spec fn spec_palette_color(i: int) -> Rgba8 {
    if i == 0 {
        Rgba8 { r: 255, g: 0, b: 0, a: 255 }
    } else if i == 1 {
        Rgba8 { r: 0, g: 128, b: 0, a: 255 }
    } else if i == 2 {
        Rgba8 { r: 0, g: 0, b: 255, a: 255 }
    } else if i == 3 {
        Rgba8 { r: 255, g: 255, b: 0, a: 255 }
    } else if i == 4 {
        Rgba8 { r: 0, g: 255, b: 255, a: 255 }
    } else {
        Rgba8 { r: 255, g: 0, b: 255, a: 255 }
    }
}

/// The solid color a grid cell is filled with.
pub open spec fn spec_cell_color(row: int, col: int) -> Rgba8 {
    spec_palette_color(spec_cell_color_index(row, col))
}

/// The solid color of the grid cell at `row`, `col`.
pub fn filled_rects_cell_color(row: u16, col: u16) -> (c: Rgba8)
    requires
        row < FILLED_RECTS_ROWS,
        col < FILLED_RECTS_COLS,
    ensures
        c == spec_cell_color(row as int, col as int),
{
    let idx: u16 = (row * 16 + col) % 6;
    if idx == 0 {
        Rgba8 { r: 255, g: 0, b: 0, a: 255 }
    } else if idx == 1 {
        Rgba8 { r: 0, g: 128, b: 0, a: 255 }
    } else if idx == 2 {
        Rgba8 { r: 0, g: 0, b: 255, a: 255 }
    } else if idx == 3 {
        Rgba8 { r: 255, g: 255, b: 0, a: 255 }
    } else if idx == 4 {
        Rgba8 { r: 0, g: 255, b: 255, a: 255 }
    } else {
        Rgba8 { r: 255, g: 0, b: 255, a: 255 }
    }
}

/// The pixel bounds of the grid cell at `row`, `col` on the native
/// canvas: `x0`, `y0` inclusive to `x1`, `y1` exclusive, 64 pixels
/// square.
pub fn filled_rects_cell_bounds(row: u16, col: u16) -> (b: (u16, u16, u16, u16))
    requires
        row < FILLED_RECTS_ROWS,
        col < FILLED_RECTS_COLS,
    ensures
        b.0 == col * FILLED_RECTS_CELL,
        b.1 == row * FILLED_RECTS_CELL,
        b.2 == (col + 1) * FILLED_RECTS_CELL,
        b.3 == (row + 1) * FILLED_RECTS_CELL,
        b.2 <= FILLED_RECTS_WIDTH,
        b.3 <= FILLED_RECTS_HEIGHT,
{
    (col * 64, row * 64, (col + 1) * 64, (row + 1) * 64)
}

/// The expected color of one pixel of the rendered scene at its native
/// size: the color of the 64-pixel cell the pixel falls in.
pub fn filled_rects_expected_pixel(x: u16, y: u16) -> (c: Rgba8)
    requires
        x < FILLED_RECTS_WIDTH,
        y < FILLED_RECTS_HEIGHT,
    ensures
        c == spec_cell_color(y as int / 64, x as int / 64),
{
    filled_rects_cell_color(y / 64, x / 64)
}

} // verus!
