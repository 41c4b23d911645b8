//! Plane geometry of the window layout: coordinates and rectangles.
use vstd::prelude::*;

verus! {

/// A pair of coordinates.
#[derive(Debug, Default, PartialEq)]
pub struct Coord<T> {
    pub x: T,
    pub y: T,
}

/// A rectangle given by its top-left corner and its size.
#[derive(Debug, Default, PartialEq)]
pub struct Rect<T> {
    x: T,
    y: T,
    width: T,
    height: T,
}

impl<T> Rect<T> {
    pub closed spec fn spec_x(&self) -> T {
        self.x
    }

    pub closed spec fn spec_y(&self) -> T {
        self.y
    }

    pub closed spec fn spec_width(&self) -> T {
        self.width
    }

    pub closed spec fn spec_height(&self) -> T {
        self.height
    }

    /// A rectangle at `(x, y)` of the given size.
    pub fn new(x: T, y: T, width: T, height: T) -> (r: Rect<T>)
        ensures
            r.spec_x() == x,
            r.spec_y() == y,
            r.spec_width() == width,
            r.spec_height() == height,
    {
        Rect { x, y, width, height }
    }

    /// Sets the width; the rest is kept.
    pub fn set_width(&mut self, width: T)
        ensures
            final(self).spec_width() == width,
            final(self).spec_x() == old(self).spec_x(),
            final(self).spec_y() == old(self).spec_y(),
            final(self).spec_height() == old(self).spec_height(),
    {
        self.width = width
    }

    /// Sets the height; the rest is kept.
    pub fn set_height(&mut self, height: T)
        ensures
            final(self).spec_height() == height,
            final(self).spec_x() == old(self).spec_x(),
            final(self).spec_y() == old(self).spec_y(),
            final(self).spec_width() == old(self).spec_width(),
    {
        self.height = height
    }

    /// Sets the left coordinate; the rest is kept.
    pub fn set_x(&mut self, x: T)
        ensures
            final(self).spec_x() == x,
            final(self).spec_y() == old(self).spec_y(),
            final(self).spec_width() == old(self).spec_width(),
            final(self).spec_height() == old(self).spec_height(),
    {
        self.x = x
    }

    /// Sets the top coordinate; the rest is kept.
    pub fn set_y(&mut self, y: T)
        ensures
            final(self).spec_y() == y,
            final(self).spec_x() == old(self).spec_x(),
            final(self).spec_width() == old(self).spec_width(),
            final(self).spec_height() == old(self).spec_height(),
    {
        self.y = y
    }

    /// The left coordinate.
    pub fn x(&self) -> (r: &T)
        ensures
            *r == self.spec_x(),
    {
        &self.x
    }

    /// The top coordinate.
    pub fn y(&self) -> (r: &T)
        ensures
            *r == self.spec_y(),
    {
        &self.y
    }

    /// The width.
    pub fn width(&self) -> (r: &T)
        ensures
            *r == self.spec_width(),
    {
        &self.width
    }

    /// The height.
    pub fn height(&self) -> (r: &T)
        ensures
            *r == self.spec_height(),
    {
        &self.height
    }
}

} // verus!
