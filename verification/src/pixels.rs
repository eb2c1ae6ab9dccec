//! The pet as shapes, for a small pixel display.
//!
//! A sprite is placed by the corner of its head. It reaches at most 5
//! pixels to the left of that corner, 23 to the right and 35 below.

use crate::canvas::{dot, outline, ring, stroke, Point, Shape};
use crate::pet::{AdultForm, LifeStage};
use vstd::prelude::*;

verus! {

/// Whether a sprite can stand at `pos`: every point that a sprite reaches
/// from there has coordinates.
pub open spec fn has_room(pos: Point) -> bool {
    pos.reaches(-5, 0) && pos.reaches(23, 35)
}

/// Tells whether a sprite can stand at `pos`.
pub fn fits(pos: Point) -> (ok: bool)
    ensures
        ok == has_room(pos),
{
    pos.x >= i32::MIN + 5 && pos.x <= i32::MAX - 23 && pos.y <= i32::MAX - 35
}

/// The egg at `pos`: a ring, with two eyes that are open for eight frames
/// of every ten and shut for two.
pub open spec fn egg_shapes(pos: Point, frame: int) -> Seq<Shape> {
    seq![ring(pos, 20, 2)] + (if frame % 10 < 8 {
        seq![dot(pos.offset(5, 8), 2), dot(pos.offset(13, 8), 2)]
    } else {
        seq![
            stroke(pos.offset(5, 9), pos.offset(7, 9), 1),
            stroke(pos.offset(13, 9), pos.offset(15, 9), 1),
        ]
    })
}

/// How far the baby's eyes stand to the right at a frame: they look ahead,
/// right, ahead, left, and so on.
pub open spec fn baby_glance(frame: int) -> int {
    if frame % 4 == 1 {
        1
    } else if frame % 4 == 3 {
        -1
    } else {
        0
    }
}

/// The baby at `pos`: head, two ears, two eyes that glance about, a
/// mouth, and a small body.
pub open spec fn baby_shapes(pos: Point, frame: int) -> Seq<Shape> {
    seq![
        ring(pos, 16, 2),
        ring(pos.offset(-2, 2), 4, 1),
        ring(pos.offset(14, 2), 4, 1),
        dot(pos.offset(4 + baby_glance(frame), 6), 2),
        dot(pos.offset(10 + baby_glance(frame), 6), 2),
        stroke(pos.offset(5, 11), pos.offset(11, 11), 1),
        outline(pos.offset(4, 18), 8, 8, 2),
    ]
}

/// The child's eyes at a frame: open, then smiling, then winking.
pub open spec fn child_eyes(pos: Point, frame: int) -> Seq<Shape> {
    if frame % 3 == 0 {
        seq![dot(pos.offset(5, 7), 2), dot(pos.offset(11, 7), 2)]
    } else if frame % 3 == 1 {
        seq![
            stroke(pos.offset(4, 7), pos.offset(6, 9), 1),
            stroke(pos.offset(6, 9), pos.offset(7, 7), 1),
            stroke(pos.offset(11, 7), pos.offset(12, 9), 1),
            stroke(pos.offset(12, 9), pos.offset(14, 7), 1),
        ]
    } else {
        seq![dot(pos.offset(5, 7), 2), stroke(pos.offset(11, 8), pos.offset(13, 8), 1)]
    }
}

/// The child at `pos`: head, two ears, eyes, mouth, and a larger body.
pub open spec fn child_shapes(pos: Point, frame: int) -> Seq<Shape> {
    seq![ring(pos, 18, 2), ring(pos.offset(-2, 4), 5, 1), ring(pos.offset(15, 4), 5, 1)]
        + child_eyes(pos, frame) + seq![
        stroke(pos.offset(6, 13), pos.offset(12, 13), 1),
        outline(pos.offset(3, 20), 12, 10, 2),
    ]
}

/// The teenager at `pos`: the child, on two feet.
pub open spec fn teenager_shapes(pos: Point, frame: int) -> Seq<Shape> {
    child_shapes(pos, frame) + seq![
        stroke(pos.offset(5, 32), pos.offset(5, 35), 2),
        stroke(pos.offset(13, 32), pos.offset(13, 35), 2),
    ]
}

/// The neglected adult at `pos`: the teenager, with its eyes crossed out.
pub open spec fn neglected_adult_shapes(pos: Point, frame: int) -> Seq<Shape> {
    teenager_shapes(pos, frame) + seq![
        stroke(pos.offset(4, 6), pos.offset(7, 9), 1),
        stroke(pos.offset(7, 6), pos.offset(4, 9), 1),
        stroke(pos.offset(11, 6), pos.offset(14, 9), 1),
        stroke(pos.offset(14, 6), pos.offset(11, 9), 1),
    ]
}

/// The normal adult at `pos`: it looks as the teenager does.
pub open spec fn normal_adult_shapes(pos: Point, frame: int) -> Seq<Shape> {
    teenager_shapes(pos, frame)
}

/// The premium adult at `pos`: the teenager, with a sparkle on either side
/// of its head on every other frame.
pub open spec fn premium_adult_shapes(pos: Point, frame: int) -> Seq<Shape> {
    teenager_shapes(pos, frame) + (if frame % 2 == 0 {
        seq![
            stroke(pos.offset(-5, 5), pos.offset(-3, 5), 1),
            stroke(pos.offset(-4, 4), pos.offset(-4, 6), 1),
            stroke(pos.offset(21, 5), pos.offset(23, 5), 1),
            stroke(pos.offset(22, 4), pos.offset(22, 6), 1),
        ]
    } else {
        seq![]
    })
}

/// The adult of the given form at `pos`.
pub open spec fn adult_shapes(pos: Point, frame: int, form: AdultForm) -> Seq<Shape> {
    match form {
        AdultForm::Neglected => neglected_adult_shapes(pos, frame),
        AdultForm::Normal => normal_adult_shapes(pos, frame),
        AdultForm::Premium => premium_adult_shapes(pos, frame),
    }
}

/// The pet in the given stage at `pos`, at the given animation frame.
pub open spec fn sprite_shapes(stage: LifeStage, frame: int, pos: Point) -> Seq<Shape> {
    match stage {
        LifeStage::Egg => egg_shapes(pos, frame),
        LifeStage::Baby => baby_shapes(pos, frame),
        LifeStage::Child => child_shapes(pos, frame),
        LifeStage::Teenager => teenager_shapes(pos, frame),
        LifeStage::Adult(form) => adult_shapes(pos, frame, form),
    }
}

/// Lists the shapes of the pet in the given stage, placed at `position`,
/// in the order in which they are to be drawn.
pub fn draw_sprite(stage: LifeStage, frame: u8, position: Point) -> (shapes: Vec<Shape>)
    requires
        has_room(position),
    ensures
        shapes@ == sprite_shapes(stage, frame as int, position),
{
    match stage {
        LifeStage::Egg => draw_egg(position, frame),
        LifeStage::Baby => draw_baby(position, frame),
        LifeStage::Child => draw_child(position, frame),
        LifeStage::Teenager => draw_teenager(position, frame),
        LifeStage::Adult(form) => draw_adult(position, frame, form),
    }
}

fn draw_egg(pos: Point, frame: u8) -> (shapes: Vec<Shape>)
    requires
        has_room(pos),
    ensures
        shapes@ == egg_shapes(pos, frame as int),
{
    let mut shapes: Vec<Shape> = Vec::new();
    shapes.push(Shape::ring(pos, 20, 2));
    if frame % 10 < 8 {
        shapes.push(Shape::dot(pos.moved(5, 8), 2));
        shapes.push(Shape::dot(pos.moved(13, 8), 2));
    } else {
        shapes.push(Shape::stroke(pos.moved(5, 9), pos.moved(7, 9), 1));
        shapes.push(Shape::stroke(pos.moved(13, 9), pos.moved(15, 9), 1));
    }
    shapes
}

fn draw_baby(pos: Point, frame: u8) -> (shapes: Vec<Shape>)
    requires
        has_room(pos),
    ensures
        shapes@ == baby_shapes(pos, frame as int),
{
    let mut shapes: Vec<Shape> = Vec::new();
    shapes.push(Shape::ring(pos, 16, 2));
    shapes.push(Shape::ring(pos.moved(-2, 2), 4, 1));
    shapes.push(Shape::ring(pos.moved(14, 2), 4, 1));
    let eye_offset: i32 = match frame % 4 {
        0 => 0,
        1 => 1,
        2 => 0,
        _ => -1,
    };
    shapes.push(Shape::dot(pos.moved(4 + eye_offset, 6), 2));
    shapes.push(Shape::dot(pos.moved(10 + eye_offset, 6), 2));
    shapes.push(Shape::stroke(pos.moved(5, 11), pos.moved(11, 11), 1));
    shapes.push(Shape::outline(pos.moved(4, 18), 8, 8, 2));
    shapes
}

fn draw_child(pos: Point, frame: u8) -> (shapes: Vec<Shape>)
    requires
        has_room(pos),
    ensures
        shapes@ == child_shapes(pos, frame as int),
{
    let mut shapes: Vec<Shape> = Vec::new();
    shapes.push(Shape::ring(pos, 18, 2));
    shapes.push(Shape::ring(pos.moved(-2, 4), 5, 1));
    shapes.push(Shape::ring(pos.moved(15, 4), 5, 1));
    match frame % 3 {
        0 => {
            shapes.push(Shape::dot(pos.moved(5, 7), 2));
            shapes.push(Shape::dot(pos.moved(11, 7), 2));
        },
        1 => {
            shapes.push(Shape::stroke(pos.moved(4, 7), pos.moved(6, 9), 1));
            shapes.push(Shape::stroke(pos.moved(6, 9), pos.moved(7, 7), 1));
            shapes.push(Shape::stroke(pos.moved(11, 7), pos.moved(12, 9), 1));
            shapes.push(Shape::stroke(pos.moved(12, 9), pos.moved(14, 7), 1));
        },
        _ => {
            shapes.push(Shape::dot(pos.moved(5, 7), 2));
            shapes.push(Shape::stroke(pos.moved(11, 8), pos.moved(13, 8), 1));
        },
    }
    shapes.push(Shape::stroke(pos.moved(6, 13), pos.moved(12, 13), 1));
    shapes.push(Shape::outline(pos.moved(3, 20), 12, 10, 2));
    shapes
}

fn draw_teenager(pos: Point, frame: u8) -> (shapes: Vec<Shape>)
    requires
        has_room(pos),
    ensures
        shapes@ == teenager_shapes(pos, frame as int),
{
    let mut shapes = draw_child(pos, frame);
    shapes.push(Shape::stroke(pos.moved(5, 32), pos.moved(5, 35), 2));
    shapes.push(Shape::stroke(pos.moved(13, 32), pos.moved(13, 35), 2));
    shapes
}

fn draw_adult(pos: Point, frame: u8, form: AdultForm) -> (shapes: Vec<Shape>)
    requires
        has_room(pos),
    ensures
        shapes@ == adult_shapes(pos, frame as int, form),
{
    match form {
        AdultForm::Neglected => draw_neglected_adult(pos, frame),
        AdultForm::Normal => draw_normal_adult(pos, frame),
        AdultForm::Premium => draw_premium_adult(pos, frame),
    }
}

fn draw_neglected_adult(pos: Point, frame: u8) -> (shapes: Vec<Shape>)
    requires
        has_room(pos),
    ensures
        shapes@ == neglected_adult_shapes(pos, frame as int),
{
    let mut shapes = draw_teenager(pos, frame);
    shapes.push(Shape::stroke(pos.moved(4, 6), pos.moved(7, 9), 1));
    shapes.push(Shape::stroke(pos.moved(7, 6), pos.moved(4, 9), 1));
    shapes.push(Shape::stroke(pos.moved(11, 6), pos.moved(14, 9), 1));
    shapes.push(Shape::stroke(pos.moved(14, 6), pos.moved(11, 9), 1));
    shapes
}

fn draw_normal_adult(pos: Point, frame: u8) -> (shapes: Vec<Shape>)
    requires
        has_room(pos),
    ensures
        shapes@ == normal_adult_shapes(pos, frame as int),
{
    draw_teenager(pos, frame)
}

fn draw_premium_adult(pos: Point, frame: u8) -> (shapes: Vec<Shape>)
    requires
        has_room(pos),
    ensures
        shapes@ == premium_adult_shapes(pos, frame as int),
{
    let mut shapes = draw_teenager(pos, frame);
    if frame % 2 == 0 {
        shapes.push(Shape::stroke(pos.moved(-5, 5), pos.moved(-3, 5), 1));
        shapes.push(Shape::stroke(pos.moved(-4, 4), pos.moved(-4, 6), 1));
        shapes.push(Shape::stroke(pos.moved(21, 5), pos.moved(23, 5), 1));
        shapes.push(Shape::stroke(pos.moved(22, 4), pos.moved(22, 6), 1));
    }
    shapes
}

} // verus!
