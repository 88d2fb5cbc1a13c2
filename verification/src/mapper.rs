use vstd::prelude::*;
use crate::config::GridConfig;
use crate::geometry::{
    Extent, Fraction, GridPosition, PixelPosition, PixelSize, Pixels, Size, WindowDimensions,
};

verus! {

/// Side of the largest square that fits the window: the smaller of its
/// width and height.
pub open spec fn target_extent_spec(window: WindowDimensions) -> int {
    if window.width <= window.height {
        window.width as int
    } else {
        window.height as int
    }
}

/// Side of the square in which the arena is laid out: the target extent
/// less the padding. Negative when the padding exceeds the window.
pub open spec fn usable_extent_spec(window: WindowDimensions, config: GridConfig) -> int {
    target_extent_spec(window) - config.global_padding()
}

/// Pixel coordinate of the centre of cell `g` on an axis of `a` cells that
/// is drawn `u` pixels long and centred on zero:
/// `g / a * u - u / 2 + (u / a) / 2`, brought over the denominator `2 * a`.
pub open spec fn cell_center(g: int, a: int, u: int) -> Fraction {
    Fraction { num: 2 * g * u - a * u + u, den: 2 * a }
}

/// Pixel length of `e` grid units on an axis of `a` cells that is scaled
/// against `t` pixels: `e / a * t`.
pub open spec fn scaled_extent(e: Extent, a: int, t: int) -> Fraction {
    Fraction { num: e.num * t, den: e.den * a }
}

/// Pixel size of one cell, per axis: the usable extent over the number of
/// cells on that axis.
pub open spec fn tile_size_spec(window: WindowDimensions, config: GridConfig) -> (
    Fraction,
    Fraction,
) {
    let u = usable_extent_spec(window, config);
    (
        Fraction { num: u, den: config.arena_width() as int },
        Fraction { num: u, den: config.arena_height() as int },
    )
}

/// Pixel position of a cell: `cell_center` on each axis, against the usable
/// extent.
pub open spec fn translate_position_spec(
    position: GridPosition,
    window: WindowDimensions,
    config: GridConfig,
) -> (Fraction, Fraction) {
    let u = usable_extent_spec(window, config);
    (
        cell_center(position.x as int, config.arena_width() as int, u),
        cell_center(position.y as int, config.arena_height() as int, u),
    )
}

/// Pixel size of a footprint: `scaled_extent` on each axis, against the
/// target extent. The padding plays no part here.
pub open spec fn scale_size_spec(size: Size, window: WindowDimensions, config: GridConfig) -> (
    Fraction,
    Fraction,
) {
    let t = target_extent_spec(window);
    (
        scaled_extent(size.width, config.arena_width() as int, t),
        scaled_extent(size.height, config.arena_height() as int, t),
    )
}

/// Side, in pixels, of the largest square that fits the window.
pub fn target_extent(window: WindowDimensions) -> (r: u32)
    ensures
        r == target_extent_spec(window),
{
    if window.width <= window.height {
        window.width
    } else {
        window.height
    }
}

/// Side, in pixels, of the square in which the arena is laid out.
pub fn usable_extent(window: WindowDimensions, config: &GridConfig) -> (r: i64)
    ensures
        r == usable_extent_spec(window, *config),
{
    let target: u32 = target_extent(window);
    target as i64 - config.global_padding() as i64
}

/// Pixel size of one cell on each axis.
pub fn tile_size(window: WindowDimensions, config: &GridConfig) -> (r: PixelSize)
    ensures
        r@ == tile_size_spec(window, *config),
{
    let usable: i64 = usable_extent(window, config);
    PixelSize {
        width: Pixels { num: usable as i128, den: config.arena_width() as u64 },
        height: Pixels { num: usable as i128, den: config.arena_height() as u64 },
    }
}

/// Pixel coordinate of the centre of cell `pos` on one axis that has
/// `bound_game` cells and is drawn `bound_window` pixels long.
pub fn convert(pos: i32, bound_window: i64, bound_game: u32) -> (r: Pixels)
    ensures
        r@ == cell_center(pos as int, bound_game as int, bound_window as int),
{
    // Twice the distance, in cells, from the centre of the axis to the
    // centre of the cell.
    let half_cells: i128 = 2 * (pos as i128) + 1 - (bound_game as i128);
    // A factor below 2^63 times one below 2^34 stays far inside `i128`.
    assert(-0x2_0000_0000_0000_0000_0000_0000 <= (bound_window as int) * (half_cells as int)
        <= 0x2_0000_0000_0000_0000_0000_0000) by (nonlinear_arith)
        requires
            -0x8000_0000_0000_0000 <= bound_window <= 0x8000_0000_0000_0000,
            -0x4_0000_0000 <= half_cells <= 0x4_0000_0000,
    ;
    assert((bound_window as int) * (half_cells as int) == 2 * (pos as int) * (bound_window as int)
        - (bound_game as int) * (bound_window as int) + (bound_window as int))
        by (nonlinear_arith)
        requires
            half_cells == 2 * (pos as int) + 1 - (bound_game as int),
    ;
    Pixels { num: (bound_window as i128) * half_cells, den: 2 * (bound_game as u64) }
}

/// Pixel length of `extent` on one axis that has `bound_game` cells,
/// scaled against `bound_window` pixels.
pub fn scale(extent: Extent, bound_window: u32, bound_game: u32) -> (r: Pixels)
    ensures
        r@ == scaled_extent(extent, bound_game as int, bound_window as int),
{
    // The product of two 32-bit factors fits 64 bits.
    assert(0 <= (extent.num as int) * (bound_window as int) <= 0xFFFF_FFFF_0000_0000)
        by (nonlinear_arith)
        requires
            0 <= extent.num <= 0xFFFF_FFFF,
            0 <= bound_window <= 0xFFFF_FFFF,
    ;
    assert(0 <= (extent.den as int) * (bound_game as int) <= 0xFFFF_FFFF_0000_0000)
        by (nonlinear_arith)
        requires
            0 <= extent.den <= 0xFFFF_FFFF,
            0 <= bound_game <= 0xFFFF_FFFF,
    ;
    Pixels {
        num: (extent.num as i128) * (bound_window as i128),
        den: (extent.den as u64) * (bound_game as u64),
    }
}

/// Where the centre of cell `position` is drawn, relative to the centre of
/// the window. The arena fills the usable extent on both axes, so cell 0
/// sits half a tile inside its edge.
pub fn translate_position(
    position: GridPosition,
    window: WindowDimensions,
    config: &GridConfig,
) -> (r: PixelPosition)
    ensures
        r@ == translate_position_spec(position, window, *config),
        config.wf() ==> r.x@.wf() && r.y@.wf(),
{
    let usable: i64 = usable_extent(window, config);
    PixelPosition {
        x: convert(position.x, usable, config.arena_width()),
        y: convert(position.y, usable, config.arena_height()),
    }
}

/// How large a footprint of `size` grid units is drawn. Sizes are scaled
/// against the whole target extent, not the padded one.
pub fn scale_size(size: Size, window: WindowDimensions, config: &GridConfig) -> (r: PixelSize)
    ensures
        r@ == scale_size_spec(size, window, *config),
        config.wf() && size.wf() ==> r.width@.wf() && r.height@.wf(),
{
    let target: u32 = target_extent(window);
    let r = PixelSize {
        width: scale(size.width, target, config.arena_width()),
        height: scale(size.height, target, config.arena_height()),
    };
    proof {
        if config.wf() && size.wf() {
            assert(r.width@.den > 0) by (nonlinear_arith)
                requires
                    r.width@.den == size.width.den * config.arena_width(),
                    size.width.den > 0,
                    config.arena_width() > 0,
            ;
            assert(r.height@.den > 0) by (nonlinear_arith)
                requires
                    r.height@.den == size.height.den * config.arena_height(),
                    size.height.den > 0,
                    config.arena_height() > 0,
            ;
        }
    }
    r
}

/// Maps every entity of a frame: the result holds, at each index, the pixel
/// position and pixel size of the entity at that index.
pub fn map_entities(
    entities: &Vec<(GridPosition, Size)>,
    window: WindowDimensions,
    config: &GridConfig,
) -> (r: Vec<(PixelPosition, PixelSize)>)
    ensures
        r.len() == entities.len(),
        forall|i: int|
            0 <= i < entities.len() ==> (#[trigger] r[i]).0@ == translate_position_spec(
                entities[i].0,
                window,
                *config,
            ) && r[i].1@ == scale_size_spec(entities[i].1, window, *config),
{
    let mut mapped: Vec<(PixelPosition, PixelSize)> = Vec::new();
    let mut i: usize = 0;
    while i < entities.len()
        invariant
            i <= entities.len(),
            mapped.len() == i,
            forall|j: int|
                0 <= j < i ==> (#[trigger] mapped[j]).0@ == translate_position_spec(
                    entities[j].0,
                    window,
                    *config,
                ) && mapped[j].1@ == scale_size_spec(entities[j].1, window, *config),
        decreases entities.len() - i,
    {
        let entity = entities[i];
        let position = translate_position(entity.0, window, config);
        let size = scale_size(entity.1, window, config);
        mapped.push((position, size));
        i += 1;
    }
    mapped
}

} // verus!
