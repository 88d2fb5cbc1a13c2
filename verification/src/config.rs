use vstd::prelude::*;
use crate::geometry::Extent;

verus! {

/// Why a configuration was refused.
#[derive(Clone, Copy, Debug, PartialEq, Eq, Hash, Structural)]
pub enum ConfigError {
    /// The arena has no cells along at least one axis.
    InvalidConfiguration,
}

/// The fixed layout of the arena. A value of this type always has a
/// positive number of cells along both axes: `new` is the only way to make
/// one, and it refuses anything else.
#[derive(Clone, Copy, Debug, PartialEq, Eq, Hash)]
pub struct GridConfig {
    arena_width: u32,
    arena_height: u32,
    global_padding: u32,
    square_scale: Extent,
}

impl GridConfig {
    /// Number of cells along the horizontal axis.
    pub closed spec fn spec_arena_width(&self) -> u32 {
        self.arena_width
    }

    /// Number of cells along the vertical axis.
    pub closed spec fn spec_arena_height(&self) -> u32 {
        self.arena_height
    }

    /// Pixels taken off the inscribed square before positions are laid out.
    pub closed spec fn spec_global_padding(&self) -> u32 {
        self.global_padding
    }

    /// Side length, in grid units, of the square footprint of an entity.
    pub closed spec fn spec_square_scale(&self) -> Extent {
        self.square_scale
    }

    /// The arena has at least one cell along both axes.
    pub open spec fn wf(&self) -> bool {
        self.arena_width() > 0 && self.arena_height() > 0
    }

    /// Builds a configuration, or refuses it when the arena would be empty
    /// along an axis. Padding and scale are kept as given.
    pub fn new(
        arena_width: u32,
        arena_height: u32,
        global_padding: u32,
        square_scale: Extent,
    ) -> (r: Result<GridConfig, ConfigError>)
        ensures
            r is Ok <==> arena_width > 0 && arena_height > 0,
            r matches Ok(c) ==> c.wf() && c.arena_width() == arena_width && c.arena_height()
                == arena_height && c.global_padding() == global_padding && c.square_scale()
                == square_scale,
            r matches Err(e) ==> e == ConfigError::InvalidConfiguration,
    {
        if arena_width == 0 || arena_height == 0 {
            Err(ConfigError::InvalidConfiguration)
        } else {
            Ok(GridConfig { arena_width, arena_height, global_padding, square_scale })
        }
    }

    /// Number of cells along the horizontal axis.
    #[verifier::when_used_as_spec(spec_arena_width)]
    pub fn arena_width(&self) -> (r: u32)
        ensures
            r == self.arena_width(),
    {
        self.arena_width
    }

    /// Number of cells along the vertical axis.
    #[verifier::when_used_as_spec(spec_arena_height)]
    pub fn arena_height(&self) -> (r: u32)
        ensures
            r == self.arena_height(),
    {
        self.arena_height
    }

    /// Pixels taken off the inscribed square before positions are laid out.
    #[verifier::when_used_as_spec(spec_global_padding)]
    pub fn global_padding(&self) -> (r: u32)
        ensures
            r == self.global_padding(),
    {
        self.global_padding
    }

    /// Side length, in grid units, of the square footprint of an entity.
    #[verifier::when_used_as_spec(spec_square_scale)]
    pub fn square_scale(&self) -> (r: Extent)
        ensures
            r == self.square_scale(),
    {
        self.square_scale
    }
}

} // verus!
