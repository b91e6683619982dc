//! The fixed checkerboard pattern.
//!
//! An 8x8 grid of alternating light and dark cells is rasterized once at
//! startup into an image of `8 * cell + 1` pixels a side, where `cell` is
//! an eighth of the smaller window dimension.  Cells are separated by a
//! one-pixel black border: the image is cleared to black and each cell is
//! then filled one pixel in from its grid square.

use vstd::prelude::*;

verus! {

/// An RGB color with 8-bit channels.
#[derive(Clone, Copy, PartialEq, Eq, Structural, Debug)]
pub struct Rgb {
    pub r: u8,
    pub g: u8,
    pub b: u8,
}

/// The color of the light cells.
pub open spec fn light_color() -> Rgb {
    Rgb { r: 225, g: 225, b: 225 }
}

/// The color of the dark cells.
pub open spec fn dark_color() -> Rgb {
    Rgb { r: 10, g: 10, b: 10 }
}

/// The color of cell `(x, y)`: light where `x + y` is even, dark where it
/// is odd.
pub open spec fn cell_color_spec(x: int, y: int) -> Rgb {
    if (x + y) % 2 == 0 {
        light_color()
    } else {
        dark_color()
    }
}

/// Returns the fill color of grid cell `(x, y)`.
pub fn cell_color(x: usize, y: usize) -> (c: Rgb)
    requires
        x < 8,
        y < 8,
    ensures
        c == cell_color_spec(x as int, y as int),
{
    let light = Rgb { r: 225, g: 225, b: 225 };
    let dark = Rgb { r: 10, g: 10, b: 10 };
    match (x + y) % 2 {
        0 => light,
        _ => dark,
    }
}

/// The side of one grid cell for a window of the given size: an eighth of
/// the smaller dimension, rounded down.
pub open spec fn cell_size_spec(width: u32, height: u32) -> int {
    (if width <= height {
        width
    } else {
        height
    }) as int / 8
}

/// Computes the side of one grid cell for a window of the given size.
pub fn cell_size(width: u32, height: u32) -> (g: u32)
    ensures
        g == cell_size_spec(width, height),
{
    let m: u32 = if width <= height {
        width
    } else {
        height
    };
    m / 8
}

/// The side of the checkerboard image built from cells of side `g`: eight
/// cells plus a final one-pixel border line.
pub open spec fn image_dim_spec(g: int) -> int {
    8 * g + 1
}

/// Computes the side of the checkerboard image for cells of side `g`.
pub fn image_dim(g: u32) -> (d: u32)
    requires
        g <= 536870911,
    ensures
        d == image_dim_spec(g as int),
{
    8 * g + 1
}

/// One fill command of the startup rasterization: fill the rectangle of
/// size `w` by `h` whose top-left corner is `(x, y)` with `color`.
#[derive(Clone, Copy, PartialEq, Eq, Structural, Debug)]
pub struct CellPatch {
    pub x: u32,
    pub y: u32,
    pub w: u32,
    pub h: u32,
    pub color: Rgb,
}

/// `p` is the fill command of grid cell `(x, y)` on cells of side `g`:
/// one pixel in from the cell's square on each of the left and top sides,
/// one short of it on the right and bottom, so the black border shows
/// between neighbours.
pub open spec fn patch_matches(p: CellPatch, g: int, x: int, y: int) -> bool {
    &&& p.x == x * g + 1
    &&& p.y == y * g + 1
    &&& p.w == g - 1
    &&& p.h == g - 1
    &&& p.color == cell_color_spec(x, y)
}

/// Builds the 64 fill commands that rasterize the checkerboard over a
/// black background, column by column: command `8 * x + y` fills cell
/// `(x, y)`.
pub fn checker_patches(g: u32) -> (v: Vec<CellPatch>)
    requires
        1 <= g <= 536870911,
    ensures
        v.len() == 64,
        forall|i: int| 0 <= i < 64 ==> patch_matches(#[trigger] v[i], g as int, i / 8, i % 8),
{
    let mut v: Vec<CellPatch> = Vec::new();
    let mut i: usize = 0;
    while i < 64
        invariant
            i <= 64,
            v.len() == i,
            1 <= g <= 536870911,
            forall|k: int| 0 <= k < i ==> patch_matches(#[trigger] v[k], g as int, k / 8, k % 8),
        decreases 64 - i,
    {
        let x = i / 8;
        let y = i % 8;
        assert(x as int * g as int <= 7 * 536870911 && y as int * g as int <= 7 * 536870911)
            by (nonlinear_arith)
            requires
                x < 8,
                y < 8,
                g <= 536870911,
        ;
        let p = CellPatch {
            x: (x as u32) * g + 1,
            y: (y as u32) * g + 1,
            w: g - 1,
            h: g - 1,
            color: cell_color(x, y),
        };
        v.push(p);
        i = i + 1;
    }
    v
}

} // verus!
