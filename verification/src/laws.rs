use vstd::prelude::*;
use crate::config::GridConfig;
use crate::geometry::{Fraction, GridPosition, PixelPosition, PixelSize, Size, WindowDimensions};
use crate::mapper::{
    scale_size_spec, tile_size_spec, translate_position_spec, usable_extent_spec,
};

verus! {

/// Cell 0 is drawn half a tile inside the low edge of the usable square:
/// on each axis its coordinate is `-usable / 2 + tile / 2`, written here
/// over twice the denominator of the tile size. This holds for every window
/// and padding, a square window without padding among them.
pub proof fn origin_cell_offset(
    origin: GridPosition,
    window: WindowDimensions,
    config: GridConfig,
)
    requires
        config.wf(),
        origin.x == 0,
        origin.y == 0,
    ensures
        ({
            let usable = usable_extent_spec(window, config);
            let tile = tile_size_spec(window, config);
            let drawn = translate_position_spec(origin, window, config);
            &&& drawn.0 == (Fraction { num: tile.0.num - usable * tile.0.den, den: 2 * tile.0.den })
            &&& drawn.1 == (Fraction { num: tile.1.num - usable * tile.1.den, den: 2 * tile.1.den })
        }),
{
    let u = usable_extent_spec(window, config);
    lemma_origin(origin.x as int, config.arena_width() as int, u);
    lemma_origin(origin.y as int, config.arena_height() as int, u);
}

/// Two cells that lie equally far from the two ends of an axis are drawn
/// at opposite coordinates on that axis. In particular the last cell of the
/// arena, `(width - 1, height - 1)`, is drawn opposite to cell `(0, 0)`.
pub proof fn mirrored_cells_are_opposite(
    low: GridPosition,
    high: GridPosition,
    window: WindowDimensions,
    config: GridConfig,
)
    requires
        config.wf(),
    ensures
        translate_position_spec(low, window, config).0.wf(),
        translate_position_spec(low, window, config).1.wf(),
        translate_position_spec(high, window, config).0.wf(),
        translate_position_spec(high, window, config).1.wf(),
        low.x + high.x == config.arena_width() - 1 ==> translate_position_spec(
            high,
            window,
            config,
        ).0.is_negation_of(translate_position_spec(low, window, config).0),
        low.y + high.y == config.arena_height() - 1 ==> translate_position_spec(
            high,
            window,
            config,
        ).1.is_negation_of(translate_position_spec(low, window, config).1),
{
    let u = usable_extent_spec(window, config);
    if low.x + high.x == config.arena_width() - 1 {
        lemma_mirror(low.x as int, high.x as int, config.arena_width() as int, u);
    }
    if low.y + high.y == config.arena_height() - 1 {
        lemma_mirror(low.y as int, high.y as int, config.arena_height() as int, u);
    }
}

/// While the usable extent is positive, a cell further along an axis is
/// drawn at a strictly greater coordinate on that axis, whatever its other
/// coordinate is; and cells level on an axis are drawn level on it.
pub proof fn translate_position_increases(
    a: GridPosition,
    b: GridPosition,
    window: WindowDimensions,
    config: GridConfig,
)
    requires
        config.wf(),
        usable_extent_spec(window, config) > 0,
    ensures
        translate_position_spec(a, window, config).0.wf(),
        translate_position_spec(a, window, config).1.wf(),
        translate_position_spec(b, window, config).0.wf(),
        translate_position_spec(b, window, config).1.wf(),
        a.x < b.x ==> translate_position_spec(a, window, config).0.lt(
            translate_position_spec(b, window, config).0,
        ),
        a.y < b.y ==> translate_position_spec(a, window, config).1.lt(
            translate_position_spec(b, window, config).1,
        ),
        a.x == b.x ==> translate_position_spec(a, window, config).0 == translate_position_spec(
            b,
            window,
            config,
        ).0,
        a.y == b.y ==> translate_position_spec(a, window, config).1 == translate_position_spec(
            b,
            window,
            config,
        ).1,
{
    let u = usable_extent_spec(window, config);
    if a.x < b.x {
        lemma_increasing(a.x as int, b.x as int, config.arena_width() as int, u);
    }
    if a.y < b.y {
        lemma_increasing(a.y as int, b.y as int, config.arena_height() as int, u);
    }
}

/// Neighbouring cells are drawn exactly one tile apart: on each axis the
/// coordinate of the next cell is that of the cell plus the tile size,
/// here with both sides brought over the product of the denominators.
pub proof fn neighbours_are_one_tile_apart(
    cell: GridPosition,
    next: GridPosition,
    window: WindowDimensions,
    config: GridConfig,
)
    requires
        config.wf(),
    ensures
        next.x == cell.x + 1 ==> ({
            let here = translate_position_spec(cell, window, config).0;
            let there = translate_position_spec(next, window, config).0;
            let tile = tile_size_spec(window, config).0;
            there.den == here.den && (there.num - here.num) * tile.den == tile.num * here.den
        }),
        next.y == cell.y + 1 ==> ({
            let here = translate_position_spec(cell, window, config).1;
            let there = translate_position_spec(next, window, config).1;
            let tile = tile_size_spec(window, config).1;
            there.den == here.den && (there.num - here.num) * tile.den == tile.num * here.den
        }),
{
    let u = usable_extent_spec(window, config);
    if next.x == cell.x + 1 {
        lemma_step(cell.x as int, config.arena_width() as int, u);
    }
    if next.y == cell.y + 1 {
        lemma_step(cell.y as int, config.arena_height() as int, u);
    }
}

/// The pixel position of a cell is a function of the cell, the window and
/// the configuration: any two values that meet the contract of
/// `translate_position` for the same three are the same value, numerators
/// and denominators included.
pub proof fn translate_position_is_single_valued(
    first: PixelPosition,
    second: PixelPosition,
    position: GridPosition,
    window: WindowDimensions,
    config: GridConfig,
)
    requires
        first@ == translate_position_spec(position, window, config),
        second@ == translate_position_spec(position, window, config),
    ensures
        first == second,
{
    assert(first.x@ == second.x@);
    assert(first.y@ == second.y@);
}

/// The pixel size of a footprint is a function of the footprint, the window
/// and the configuration: any two values that meet the contract of
/// `scale_size` for the same three are the same value.
pub proof fn scale_size_is_single_valued(
    first: PixelSize,
    second: PixelSize,
    size: Size,
    window: WindowDimensions,
    config: GridConfig,
)
    requires
        first@ == scale_size_spec(size, window, config),
        second@ == scale_size_spec(size, window, config),
    ensures
        first == second,
{
    assert(first.width@ == second.width@);
    assert(first.height@ == second.height@);
}

proof fn lemma_origin(g: int, a: int, u: int)
    requires
        g == 0,
    ensures
        2 * g * u - a * u + u == u - u * a,
{
    assert(2 * g * u - a * u + u == u - u * a) by (nonlinear_arith)
        requires
            g == 0,
    ;
}

proof fn lemma_step(g: int, a: int, u: int)
    ensures
        ((2 * (g + 1) * u - a * u + u) - (2 * g * u - a * u + u)) * a == u * (2 * a),
{
    assert((2 * (g + 1) * u - a * u + u) - (2 * g * u - a * u + u) == 2 * u)
        by (nonlinear_arith);
    assert((2 * u) * a == u * (2 * a)) by (nonlinear_arith);
}

proof fn lemma_mirror(g: int, h: int, a: int, u: int)
    requires
        g + h == a - 1,
    ensures
        (2 * h * u - a * u + u) * (2 * a) == -((2 * g * u - a * u + u) * (2 * a)),
{
    assert(2 * h * u - a * u + u == -(2 * g * u - a * u + u)) by (nonlinear_arith)
        requires
            g + h == a - 1,
    ;
    let n = 2 * g * u - a * u + u;
    assert((-n) * (2 * a) == -(n * (2 * a))) by (nonlinear_arith);
}

proof fn lemma_increasing(g: int, h: int, a: int, u: int)
    requires
        g < h,
        a > 0,
        u > 0,
    ensures
        (2 * g * u - a * u + u) * (2 * a) < (2 * h * u - a * u + u) * (2 * a),
{
    assert(2 * g * u - a * u + u < 2 * h * u - a * u + u) by (nonlinear_arith)
        requires
            g < h,
            u > 0,
    ;
    let m = 2 * g * u - a * u + u;
    let n = 2 * h * u - a * u + u;
    assert(m * (2 * a) < n * (2 * a)) by (nonlinear_arith)
        requires
            m < n,
            a > 0,
    ;
}

} // verus!
