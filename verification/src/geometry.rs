use vstd::prelude::*;

verus! {

/// A cell of the arena grid. Coordinates are not confined to the arena:
/// a cell outside it is mapped by the same linear rule.
#[derive(Clone, Copy, Debug, Default, PartialEq, Eq, Hash, Structural)]
pub struct GridPosition {
    pub x: i32,
    pub y: i32,
}

/// Width and height of the window, in whole pixels. Either may be zero.
#[derive(Clone, Copy, Debug, PartialEq, Eq, Hash, Structural)]
pub struct WindowDimensions {
    pub width: u32,
    pub height: u32,
}

/// A length in grid units, held exactly as `num / den` cells.
#[derive(Clone, Copy, Debug, PartialEq, Eq, Hash, Structural)]
pub struct Extent {
    pub num: u32,
    pub den: u32,
}

impl Extent {
    /// The denominator is positive, so the extent denotes a number.
    pub open spec fn wf(&self) -> bool {
        self.den > 0
    }
}

/// The footprint of an entity, in grid units.
#[derive(Clone, Copy, Debug, PartialEq, Eq, Hash, Structural)]
pub struct Size {
    pub width: Extent,
    pub height: Extent,
}

impl Size {
    /// Both sides denote a number.
    pub open spec fn wf(&self) -> bool {
        self.width.wf() && self.height.wf()
    }

    /// A footprint as wide as it is high.
    pub fn square(x: Extent) -> (r: Size)
        ensures
            r.width == x,
            r.height == x,
    {
        Size { width: x, height: x }
    }
}

/// The rational number `num / den`. This is the mathematical value of a
/// pixel quantity; it exists in specifications only.
pub struct Fraction {
    pub num: int,
    pub den: int,
}

impl Fraction {
    /// The denominator is positive.
    pub open spec fn wf(self) -> bool {
        self.den > 0
    }

    /// `self < other` as rational numbers, for positive denominators.
    pub open spec fn lt(self, other: Fraction) -> bool {
        self.num * other.den < other.num * self.den
    }

    /// `self == -other` as rational numbers, for positive denominators.
    pub open spec fn is_negation_of(self, other: Fraction) -> bool {
        self.num * other.den == -(other.num * self.den)
    }
}

/// An exact quantity of pixels, `num / den`. No rounding is applied
/// anywhere, so positions between pixels keep their exact value.
#[derive(Clone, Copy, Debug, PartialEq, Eq, Hash, Structural)]
pub struct Pixels {
    pub num: i128,
    pub den: u64,
}

impl View for Pixels {
    type V = Fraction;

    open spec fn view(&self) -> Fraction {
        Fraction { num: self.num as int, den: self.den as int }
    }
}

/// Where an entity is drawn, relative to the centre of the window.
#[derive(Clone, Copy, Debug, PartialEq, Eq, Hash, Structural)]
pub struct PixelPosition {
    pub x: Pixels,
    pub y: Pixels,
}

impl View for PixelPosition {
    type V = (Fraction, Fraction);

    open spec fn view(&self) -> (Fraction, Fraction) {
        (self.x@, self.y@)
    }
}

/// How large an entity is drawn.
#[derive(Clone, Copy, Debug, PartialEq, Eq, Hash, Structural)]
pub struct PixelSize {
    pub width: Pixels,
    pub height: Pixels,
}

impl View for PixelSize {
    type V = (Fraction, Fraction);

    open spec fn view(&self) -> (Fraction, Fraction) {
        (self.width@, self.height@)
    }
}

} // verus!
