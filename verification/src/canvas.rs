//! Shapes on a pixel display.
//!
//! The library draws nothing itself. It describes a picture as a list of
//! shapes, in the order in which they are to be drawn, and leaves the
//! drawing to whoever owns the display.

use vstd::prelude::*;

verus! {

/// A place on the display, in pixels: `x` grows to the right, `y`
/// downwards.
#[derive(Clone, Copy, Debug, PartialEq, Eq, Structural)]
pub struct Point {
    pub x: i32,
    pub y: i32,
}

/// How a shape is drawn.
#[derive(Clone, Copy, Debug, PartialEq, Eq, Structural)]
pub enum Style {
    /// The outline only, as wide as given.
    Stroke(u32),
    /// Filled.
    Fill,
}

/// One thing to draw, in lit pixels.
#[derive(Clone, Copy, Debug, PartialEq, Eq)]
pub enum Shape {
    /// A circle, given by the corner of the square around it.
    Circle { top_left: Point, diameter: u32, style: Style },
    /// A straight line, as wide as given.
    Line { start: Point, end: Point, width: u32 },
    /// A rectangle with sides along the axes.
    Rectangle { top_left: Point, width: u32, height: u32, style: Style },
    /// A line of text in the display's small font, set on its baseline.
    Text { position: Point, text: &'static str },
}

impl Point {
    /// The point `dx` to the right of this one and `dy` below it.
    pub open spec fn offset(self, dx: int, dy: int) -> Point {
        Point { x: (self.x + dx) as i32, y: (self.y + dy) as i32 }
    }

    /// Whether the point `dx` to the right and `dy` below still has
    /// coordinates.
    pub open spec fn reaches(self, dx: int, dy: int) -> bool {
        &&& i32::MIN <= self.x + dx <= i32::MAX
        &&& i32::MIN <= self.y + dy <= i32::MAX
    }

    /// Makes a point.
    pub fn new(x: i32, y: i32) -> (point: Point)
        ensures
            point == (Point { x, y }),
    {
        Point { x, y }
    }

    /// The point `dx` to the right of this one and `dy` below it.
    pub fn moved(self, dx: i32, dy: i32) -> (point: Point)
        requires
            self.reaches(dx as int, dy as int),
        ensures
            point == self.offset(dx as int, dy as int),
    {
        Point { x: self.x + dx, y: self.y + dy }
    }
}

/// An outlined circle.
pub open spec fn ring(top_left: Point, diameter: u32, width: u32) -> Shape {
    Shape::Circle { top_left, diameter, style: Style::Stroke(width) }
}

/// A filled circle.
pub open spec fn dot(top_left: Point, diameter: u32) -> Shape {
    Shape::Circle { top_left, diameter, style: Style::Fill }
}

/// A line.
pub open spec fn stroke(start: Point, end: Point, width: u32) -> Shape {
    Shape::Line { start, end, width }
}

/// An outlined rectangle.
pub open spec fn outline(top_left: Point, width: u32, height: u32, stroke: u32) -> Shape {
    Shape::Rectangle { top_left, width, height, style: Style::Stroke(stroke) }
}

/// A filled rectangle.
pub open spec fn block(top_left: Point, width: u32, height: u32) -> Shape {
    Shape::Rectangle { top_left, width, height, style: Style::Fill }
}

/// A line of text.
pub open spec fn label(position: Point, text: &'static str) -> Shape {
    Shape::Text { position, text }
}

impl Shape {
    /// Makes an outlined circle.
    pub fn ring(top_left: Point, diameter: u32, width: u32) -> (shape: Shape)
        ensures
            shape == ring(top_left, diameter, width),
    {
        Shape::Circle { top_left, diameter, style: Style::Stroke(width) }
    }

    /// Makes a filled circle.
    pub fn dot(top_left: Point, diameter: u32) -> (shape: Shape)
        ensures
            shape == dot(top_left, diameter),
    {
        Shape::Circle { top_left, diameter, style: Style::Fill }
    }

    /// Makes a line.
    pub fn stroke(start: Point, end: Point, width: u32) -> (shape: Shape)
        ensures
            shape == stroke(start, end, width),
    {
        Shape::Line { start, end, width }
    }

    /// Makes an outlined rectangle.
    pub fn outline(top_left: Point, width: u32, height: u32, stroke: u32) -> (shape: Shape)
        ensures
            shape == outline(top_left, width, height, stroke),
    {
        Shape::Rectangle { top_left, width, height, style: Style::Stroke(stroke) }
    }

    /// Makes a filled rectangle.
    pub fn block(top_left: Point, width: u32, height: u32) -> (shape: Shape)
        ensures
            shape == block(top_left, width, height),
    {
        Shape::Rectangle { top_left, width, height, style: Style::Fill }
    }

    /// Makes a line of text.
    pub fn label(position: Point, text: &'static str) -> (shape: Shape)
        ensures
            shape == label(position, text),
    {
        Shape::Text { position, text }
    }
}

} // verus!
