//! Points, rectangles and alignment presets of the second-generation layout.
use vstd::prelude::*;

verus! {

/// Horizontal alignment presets.
pub enum HAlignPreset {
    LEFT,
    CENTER,
    RIGHT,
    DEFAULT,
}

/// Vertical alignment presets.
pub enum VAlignPreset {
    TOP,
    CENTER,
    BOTTOM,
    DEFAULT,
}

/// A horizontal and a vertical alignment preset.
pub struct AlignPreset(pub HAlignPreset, pub VAlignPreset);

/// A point of the plane.
#[derive(Debug, Default, PartialEq)]
pub struct Point<T> {
    pub x: T,
    pub y: T,
}

/// A rectangle given by its top-left corner and its size.
#[derive(Debug, Default, PartialEq)]
pub struct Rect<T> {
    pub x: T,
    pub y: T,
    pub width: T,
    pub height: T,
}

/// Moving a shape by an offset.
pub trait TranslateShape<Rhs = Point<i32>> {
    type Output;

    /// The offset can be applied without leaving the coordinate range.
    spec fn can_translate(&self, rhs: &Rhs) -> bool;

    /// Moves the shape by `rhs` and returns it.
    fn translate(&mut self, rhs: &Rhs) -> &Self::Output
        requires
            old(self).can_translate(rhs),
    ;
}

/// Whether `a + b` is an `i32`.
pub open spec fn fits_i32(a: i32, b: i32) -> bool {
    i32::MIN <= a + b <= i32::MAX
}

impl TranslateShape for Point<i32> {
    type Output = Point<i32>;

    open spec fn can_translate(&self, rhs: &Point<i32>) -> bool {
        fits_i32(self.x, rhs.x) && fits_i32(self.y, rhs.y)
    }

    /// Adds the offset to both coordinates.
    fn translate(&mut self, rhs: &Point<i32>) -> (r: &Point<i32>)
        ensures
            *r == *final(self),
            final(self).x == old(self).x + rhs.x,
            final(self).y == old(self).y + rhs.y,
    {
        self.x = self.x + rhs.x;
        self.y = self.y + rhs.y;
        self
    }
}

impl TranslateShape for Rect<i32> {
    type Output = Rect<i32>;

    open spec fn can_translate(&self, rhs: &Point<i32>) -> bool {
        fits_i32(self.x, rhs.x) && fits_i32(self.y, rhs.y)
    }

    /// Adds the offset to the corner; the size is kept.
    fn translate(&mut self, rhs: &Point<i32>) -> (r: &Rect<i32>)
        ensures
            *r == *final(self),
            final(self).x == old(self).x + rhs.x,
            final(self).y == old(self).y + rhs.y,
            final(self).width == old(self).width,
            final(self).height == old(self).height,
    {
        self.x = self.x + rhs.x;
        self.y = self.y + rhs.y;
        self
    }
}

} // verus!
