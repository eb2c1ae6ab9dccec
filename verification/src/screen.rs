//! The screens of a 128 by 64 pixel display with four buttons: what to
//! draw for a pet, what to show for an event, and which buttons were
//! pressed.

use crate::canvas::{block, label, outline, Point, Shape};
use crate::pet::{lowered, Action, GameEvent, NeedsStatus, PetState, Tamagochi};
use crate::pixels::{draw_sprite, sprite_shapes};
use vstd::prelude::*;

verus! {

/// Width of a gauge, in pixels.
pub const BAR_WIDTH: u32 = 40;

/// Height of a gauge, in pixels.
pub const BAR_HEIGHT: u32 = 4;

/// How long a notice stays on the display.
#[derive(Clone, Copy, Debug, PartialEq, Eq, Structural)]
pub enum Hold {
    /// For so many milliseconds.
    Millis(u32),
    /// For good: nothing is shown after it.
    Forever,
}

/// A line of text that takes over the whole display for a while.
#[derive(Clone, Copy, Debug, PartialEq, Eq)]
pub struct Notice {
    pub text: &'static str,
    pub position: Point,
    pub hold: Hold,
}

/// The welcome screen: the name, the version, and a prompt.
pub open spec fn welcome_shapes() -> Seq<Shape> {
    seq![
        label(Point { x: 20, y: 20 }, "TAMAGOCHI"),
        label(Point { x: 15, y: 35 }, "CLASSIC v1.0"),
        label(Point { x: 5, y: 55 }, "Press any button"),
    ]
}

/// Lists the shapes of the welcome screen.
pub fn draw_welcome() -> (shapes: Vec<Shape>)
    ensures
        shapes@ == welcome_shapes(),
{
    let mut shapes: Vec<Shape> = Vec::new();
    shapes.push(Shape::label(Point::new(20, 20), "TAMAGOCHI"));
    shapes.push(Shape::label(Point::new(15, 35), "CLASSIC v1.0"));
    shapes.push(Shape::label(Point::new(5, 55), "Press any button"));
    shapes
}

/// How many pixels of a gauge a percentage fills: forty hundredths of it,
/// rounded down.
pub open spec fn gauge_fill(value: int) -> int {
    value * 40 / 100
}

/// A gauge at `position`: its outline, and inside it, if `fill` is
/// positive, a block that is `fill - 2` wide and leaves a pixel free on
/// every side.
pub open spec fn bar_shapes(position: Point, width: u32, height: u32, fill: int) -> Seq<Shape> {
    seq![outline(position, width, height, 1)] + (if fill > 0 {
        seq![
            block(
                position.offset(1, 1),
                (if fill > 2 { fill - 2 } else { 0 }) as u32,
                lowered(height as int, 2) as u32,
            ),
        ]
    } else {
        seq![]
    })
}

/// The block that fills a gauge never leaves the gauge: for a percentage,
/// the fill is at most the gauge's width, and the block, a pixel in from
/// the outline on the left, ends at least a pixel before it on the right.
pub proof fn gauge_stays_inside(value: int)
    requires
        0 <= value <= 100,
    ensures
        0 <= gauge_fill(value) <= 40,
        gauge_fill(value) > 0 ==> 1 + (if gauge_fill(value) > 2 {
            gauge_fill(value) - 2
        } else {
            0
        }) <= 40 - 1,
        gauge_fill(0) == 0,
        gauge_fill(100) == 40,
{
}

/// The three gauges along the bottom of the display, with their letters:
/// fullness (the reverse of hunger), happiness, health.
pub open spec fn status_bar_shapes(pet: PetState) -> Seq<Shape> {
    bar_shapes(Point { x: 0, y: 52 }, 40, 4, gauge_fill(lowered(100, pet.hunger))) + bar_shapes(
        Point { x: 44, y: 52 },
        40,
        4,
        gauge_fill(pet.happiness),
    ) + bar_shapes(Point { x: 88, y: 52 }, 40, 4, gauge_fill(pet.health)) + seq![
        label(Point { x: 0, y: 63 }, "F"),
        label(Point { x: 44, y: 63 }, "H"),
        label(Point { x: 88, y: 63 }, "M"),
    ]
}

/// The warnings above the gauges, one for each critical need.
pub open spec fn warning_shapes(needs: NeedsStatus) -> Seq<Shape> {
    (if needs.hunger_critical {
        seq![label(Point { x: 2, y: 42 }, "HUNGRY!")]
    } else {
        seq![]
    }) + (if needs.happiness_critical {
        seq![label(Point { x: 50, y: 42 }, "SAD!")]
    } else {
        seq![]
    }) + (if needs.health_critical {
        seq![label(Point { x: 90, y: 42 }, "SICK!")]
    } else {
        seq![]
    })
}

/// The main screen: the pet at the top, the gauges at the bottom, and the
/// warnings between them.
pub open spec fn game_shapes(pet: PetState, frame: int) -> Seq<Shape> {
    sprite_shapes(pet.stage, frame, Point { x: 40, y: 5 }) + status_bar_shapes(pet)
        + warning_shapes(pet.needs())
}

/// Lists the shapes of the main screen for the pet at the given animation
/// frame, in the order in which they are to be drawn.
pub fn draw_game_state(tama: &Tamagochi, frame: u8) -> (shapes: Vec<Shape>)
    ensures
        shapes@ == game_shapes(tama@, frame as int),
{
    let mut shapes = draw_sprite(tama.stage, frame, Point::new(40, 5));
    let mut bars = draw_status_bars(tama);
    shapes.append(&mut bars);
    let mut warnings = draw_warnings(tama);
    shapes.append(&mut warnings);
    shapes
}

/// Lists the shapes of the three gauges and their letters.
pub fn draw_status_bars(tama: &Tamagochi) -> (shapes: Vec<Shape>)
    ensures
        shapes@ == status_bar_shapes(tama@),
{
    let start_y: i32 = 52;
    let fullness: u8 = 100u8.saturating_sub(tama.hunger);
    let hunger_fill: i32 = (fullness as i32 * BAR_WIDTH as i32) / 100;
    let happy_fill: i32 = (tama.happiness as i32 * BAR_WIDTH as i32) / 100;
    let health_fill: i32 = (tama.health as i32 * BAR_WIDTH as i32) / 100;

    let mut shapes = draw_bar(Point::new(0, start_y), BAR_WIDTH, BAR_HEIGHT, hunger_fill);
    let mut happy = draw_bar(Point::new(44, start_y), BAR_WIDTH, BAR_HEIGHT, happy_fill);
    shapes.append(&mut happy);
    let mut health = draw_bar(Point::new(88, start_y), BAR_WIDTH, BAR_HEIGHT, health_fill);
    shapes.append(&mut health);

    shapes.push(Shape::label(Point::new(0, 63), "F"));
    shapes.push(Shape::label(Point::new(44, 63), "H"));
    shapes.push(Shape::label(Point::new(88, 63), "M"));
    shapes
}

/// Lists the shapes of one gauge.
fn draw_bar(position: Point, width: u32, height: u32, fill: i32) -> (shapes: Vec<Shape>)
    requires
        position.reaches(1, 1),
    ensures
        shapes@ == bar_shapes(position, width, height, fill as int),
{
    let mut shapes: Vec<Shape> = Vec::new();
    shapes.push(Shape::outline(position, width, height, 1));
    if fill > 0 {
        let inner: u32 = if fill > 2 {
            (fill - 2) as u32
        } else {
            0
        };
        shapes.push(Shape::block(position.moved(1, 1), inner, height.saturating_sub(2)));
    }
    shapes
}

/// Lists the warnings for the pet's critical needs.
pub fn draw_warnings(tama: &Tamagochi) -> (shapes: Vec<Shape>)
    ensures
        shapes@ == warning_shapes(tama@.needs()),
{
    let needs = tama.needs_status();
    let y: i32 = 42;
    let mut shapes: Vec<Shape> = Vec::new();
    if needs.hunger_critical {
        shapes.push(Shape::label(Point::new(2, y), "HUNGRY!"));
    }
    if needs.happiness_critical {
        shapes.push(Shape::label(Point::new(50, y), "SAD!"));
    }
    if needs.health_critical {
        shapes.push(Shape::label(Point::new(90, y), "SICK!"));
    }
    shapes
}

/// The word that answers a care action. A tick has none.
pub open spec fn action_word(action: Action) -> Option<&'static str> {
    match action {
        Action::Feed => Some("FEED!"),
        Action::Play => Some("PLAY!"),
        Action::Medicine => Some("MEDICINE!"),
        Action::Clean => Some("CLEAN!"),
        Action::Tick => None,
    }
}

/// The notice that answers an action: its word, shown briefly in the
/// middle of the display.
pub open spec fn notice_of_action(action: Action) -> Option<Notice> {
    match action_word(action) {
        Some(text) => Some(Notice { text, position: Point { x: 40, y: 32 }, hold: Hold::Millis(300) }),
        None => None,
    }
}

/// Gives the notice that answers an action, if it has one.
pub fn show_action_feedback(action: Action) -> (notice: Option<Notice>)
    ensures
        notice == notice_of_action(action),
{
    let word = match action {
        Action::Feed => "FEED!",
        Action::Play => "PLAY!",
        Action::Medicine => "MEDICINE!",
        Action::Clean => "CLEAN!",
        Action::Tick => {
            return None;
        },
    };
    Some(Notice { text: word, position: Point::new(40, 32), hold: Hold::Millis(300) })
}

/// The notice for an event: evolution and birthday are shown for two
/// seconds, death for good. A call for attention has no notice; the
/// warnings of the main screen show it.
pub open spec fn notice_of_event(event: GameEvent) -> Option<Notice> {
    match event {
        GameEvent::Evolution(_) => Some(
            Notice { text: "EVOLUTION!", position: Point { x: 20, y: 32 }, hold: Hold::Millis(2000) },
        ),
        GameEvent::Death => Some(
            Notice { text: "R.I.P.", position: Point { x: 45, y: 32 }, hold: Hold::Forever },
        ),
        GameEvent::NeedsAttention => None,
        GameEvent::Birthday(_) => Some(
            Notice { text: "BIRTHDAY!", position: Point { x: 25, y: 32 }, hold: Hold::Millis(2000) },
        ),
    }
}

/// Gives the notice for an event, if it has one.
pub fn handle_event(event: GameEvent) -> (notice: Option<Notice>)
    ensures
        notice == notice_of_event(event),
{
    match event {
        GameEvent::Evolution(_) => Some(
            Notice { text: "EVOLUTION!", position: Point::new(20, 32), hold: Hold::Millis(2000) },
        ),
        GameEvent::Death => Some(
            Notice { text: "R.I.P.", position: Point::new(45, 32), hold: Hold::Forever },
        ),
        GameEvent::NeedsAttention => None,
        GameEvent::Birthday(_) => Some(
            Notice { text: "BIRTHDAY!", position: Point::new(25, 32), hold: Hold::Millis(2000) },
        ),
    }
}

/// The action of each button: feed, play, medicine, clean.
pub open spec fn button_action(index: int) -> Action {
    if index == 0 {
        Action::Feed
    } else if index == 1 {
        Action::Play
    } else if index == 2 {
        Action::Medicine
    } else {
        Action::Clean
    }
}

/// The action of button `index` if the button is down now and was up at
/// the last reading.
pub open spec fn press(now: Seq<bool>, before: Seq<bool>, index: int) -> Seq<Action> {
    if now[index] && !before[index] {
        seq![button_action(index)]
    } else {
        seq![]
    }
}

/// The actions of the buttons that went down between two readings, in the
/// order of the buttons. A button that is held counts once, when it goes
/// down.
pub open spec fn presses(now: Seq<bool>, before: Seq<bool>) -> Seq<Action> {
    press(now, before, 0) + press(now, before, 1) + press(now, before, 2) + press(now, before, 3)
}

/// Lists the actions of the buttons that went down since the last
/// reading.
pub fn pressed_actions(now: [bool; 4], before: [bool; 4]) -> (actions: Vec<Action>)
    ensures
        actions@ == presses(now@, before@),
{
    let mut actions: Vec<Action> = Vec::new();
    if now[0] && !before[0] {
        actions.push(Action::Feed);
    }
    if now[1] && !before[1] {
        actions.push(Action::Play);
    }
    if now[2] && !before[2] {
        actions.push(Action::Medicine);
    }
    if now[3] && !before[3] {
        actions.push(Action::Clean);
    }
    actions
}

} // verus!
