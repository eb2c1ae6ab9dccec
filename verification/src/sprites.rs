//! Text pictures of the pet, for a console.
//!
//! Each stage has a short cycle of animation frames. The caller owns the
//! frame counter and passes it in; the picture shown is the one at the
//! counter's remainder by the length of the cycle.

use crate::pet::{AdultForm, LifeStage};
use vstd::prelude::*;

verus! {

/// The egg: one eye, then two.
pub const EGG_FRAMES: [&'static str; 2] = [
    r#"
    ___
   /   \
  |  o  |
  |     |
   \___/
"#,
    r#"
    ___
   /   \
  | o o |
  |     |
   \___/
"#,
];

/// The baby: looking, smiling, winking.
pub const BABY_FRAMES: [&'static str; 3] = [
    r#"
   /\_/\
  ( o.o )
   > ^ <
  /|   |\
   |___|
"#,
    r#"
   /\_/\
  ( ^.^ )
   > ~ <
  /|   |\
   |___|
"#,
    r#"
   /\_/\
  ( -.o )
   > ^ <
  /|   |\
   |___|
"#,
];

/// The child, in four moods.
pub const CHILD_FRAMES: [&'static str; 4] = [
    r#"
    /\_/\
   ( o.o )
    > ^ <
   /|   |\
  / |___| \
 /  \___/  \
"#,
    r#"
    /\_/\
   ( ^.^ )
    > v <
   /|   |\
  / |___| \
 /  \___/  \
"#,
    r#"
    /\_/\
   ( o.o )
    > w <
   /|   |\
  / |___| \
 /  \___/  \
"#,
    r#"
    /\_/\
   ( -.o )
    > ^ <
   /|   |\
  / |___| \
 /  \___/  \
"#,
];

/// The teenager, in three moods.
pub const TEENAGER_FRAMES: [&'static str; 3] = [
    r#"
     /\_/\
    ( o.o )
     > ^ <
    /|   |\
   / |___| \
  /  |   |  \
 /___|___|___\
"#,
    r#"
     /\_/\
    ( ^.^ )
     > v <
    /|   |\
   / |___| \
  /  |   |  \
 /___|___|___\
"#,
    r#"
     /\_/\
    ( o.O )
     > w <
    /|   |\
   / |___| \
  /  |   |  \
 /___|___|___\
"#,
];

/// The neglected adult: eyes shut, then crossed out.
pub const NEGLECTED_ADULT_FRAMES: [&'static str; 2] = [
    r#"
      /\_/\
     ( -.- )
      > _ <
     /|   |\
    / |___| \
   /  |   |  \
  /___|   |___\
     |___|
"#,
    r#"
      /\_/\
     ( x.x )
      > _ <
     /|   |\
    / |___| \
   /  |   |  \
  /___|   |___\
     |___|
"#,
];

/// The normal adult, in four moods.
pub const NORMAL_ADULT_FRAMES: [&'static str; 4] = [
    r#"
      /\_/\
     ( o.o )
      > ^ <
     /|   |\
    / |___| \
   /  |   |  \
  /___|   |___\
     |___|
"#,
    r#"
      /\_/\
     ( ^.^ )
      > v <
     /|   |\
    / |___| \
   /  |   |  \
  /___|   |___\
     |___|
"#,
    r#"
      /\_/\
     ( o.o )
      > w <
     /|   |\
    / |___| \
   /  |   |  \
  /___|   |___\
     |___|
"#,
    r#"
      /\_/\
     ( -.o )
      > ^ <
     /|   |\
    / |___| \
   /  |   |  \
  /___|   |___\
     |___|
"#,
];

/// The premium adult, with stars and sparkles in turn.
pub const PREMIUM_ADULT_FRAMES: [&'static str; 5] = [
    r#"
    ★ /\_/\ ★
     ( ^.^ )
      > ♥ <
     /|   |\
    / |___| \
   /  |   |  \
  /___|   |___\
     |___|
"#,
    r#"
    ✨ /\_/\ ✨
     ( o.o )
      > w <
     /|   |\
    / |___| \
   /  |   |  \
  /___|   |___\
     |___|
"#,
    r#"
    ★ /\_/\ ★
     ( ^ω^ )
      > ♥ <
     /|   |\
    / |___| \
   /  |   |  \
  /___|   |___\
     |___|
"#,
    r#"
    ✨ /\_/\ ✨
     ( ´∀` )
      > v <
     /|   |\
    / |___| \
   /  |   |  \
  /___|   |___\
     |___|
"#,
    r#"
    ★ /\_/\ ★
     ( ^.^ )
      > ♪ <
     /|   |\
    / |___| \
   /  |   |  \
  /___|   |___\
     |___|
"#,
];

/// The picture of a pet that has died.
pub const DEATH_SPRITE: &'static str = r#"
      /\_/\
     ( x.x )
      > _ <
     /|   |\
    / |___| \
   /  |   |  \
  /___|   |___\
     |___|
     R.I.P.
"#;

/// The picture of a sleeping pet, for idle times.
pub const SLEEPING_SPRITE: &'static str = r#"
      /\_/\
     ( -.- )
      > z <
     /|   |\
    / |___| \
   /  Zzz..  \
  /_________\
"#;

/// The cycle of pictures of an adult of the given form.
pub open spec fn adult_frames(form: AdultForm) -> Seq<&'static str> {
    match form {
        AdultForm::Neglected => NEGLECTED_ADULT_FRAMES@,
        AdultForm::Normal => NORMAL_ADULT_FRAMES@,
        AdultForm::Premium => PREMIUM_ADULT_FRAMES@,
    }
}

/// The cycle of pictures of a pet in the given stage.
pub open spec fn frames_of(stage: LifeStage) -> Seq<&'static str> {
    match stage {
        LifeStage::Egg => EGG_FRAMES@,
        LifeStage::Baby => BABY_FRAMES@,
        LifeStage::Child => CHILD_FRAMES@,
        LifeStage::Teenager => TEENAGER_FRAMES@,
        LifeStage::Adult(form) => adult_frames(form),
    }
}

/// How many pictures the cycle of an adult of the given form has.
pub open spec fn adult_frame_count(form: AdultForm) -> int {
    match form {
        AdultForm::Neglected => 2,
        AdultForm::Normal => 4,
        AdultForm::Premium => 5,
    }
}

/// How many pictures the cycle of the given stage has.
pub open spec fn frame_count(stage: LifeStage) -> int {
    match stage {
        LifeStage::Egg => 2,
        LifeStage::Baby => 3,
        LifeStage::Child => 4,
        LifeStage::Teenager => 3,
        LifeStage::Adult(form) => adult_frame_count(form),
    }
}

/// The picture of a pet in the given stage at the given animation frame:
/// the cycle of the stage is repeated for ever.
pub open spec fn sprite_at(stage: LifeStage, frame: int) -> &'static str {
    frames_of(stage)[frame % frame_count(stage)]
}

/// Every stage has as many pictures as its cycle is said to be long, and
/// `sprite_at` is one of them at every frame.
pub proof fn cycle_lengths(stage: LifeStage, frame: int)
    requires
        frame >= 0,
    ensures
        frames_of(stage).len() == frame_count(stage),
        0 <= frame % frame_count(stage) < frames_of(stage).len(),
        sprite_at(stage, frame) == sprite_at(stage, frame + frame_count(stage)),
{
    let n = frame_count(stage);
    assert((frame + n) % n == frame % n) by (nonlinear_arith)
        requires
            0 < n,
    ;
}

/// The picture of a pet in the given stage at the given animation frame.
pub fn get_sprite(stage: LifeStage, frame: u8) -> (art: &'static str)
    ensures
        art == sprite_at(stage, frame as int),
{
    match stage {
        LifeStage::Egg => get_egg_sprite(frame),
        LifeStage::Baby => get_baby_sprite(frame),
        LifeStage::Child => get_child_sprite(frame),
        LifeStage::Teenager => get_teenager_sprite(frame),
        LifeStage::Adult(form) => get_adult_sprite(form, frame),
    }
}

fn get_egg_sprite(frame: u8) -> (art: &'static str)
    ensures
        art == EGG_FRAMES@[frame as int % 2],
{
    EGG_FRAMES[(frame % 2) as usize]
}

fn get_baby_sprite(frame: u8) -> (art: &'static str)
    ensures
        art == BABY_FRAMES@[frame as int % 3],
{
    BABY_FRAMES[(frame % 3) as usize]
}

fn get_child_sprite(frame: u8) -> (art: &'static str)
    ensures
        art == CHILD_FRAMES@[frame as int % 4],
{
    CHILD_FRAMES[(frame % 4) as usize]
}

fn get_teenager_sprite(frame: u8) -> (art: &'static str)
    ensures
        art == TEENAGER_FRAMES@[frame as int % 3],
{
    TEENAGER_FRAMES[(frame % 3) as usize]
}

fn get_adult_sprite(form: AdultForm, frame: u8) -> (art: &'static str)
    ensures
        art == adult_frames(form)[frame as int % adult_frame_count(form)],
{
    match form {
        AdultForm::Neglected => get_neglected_adult(frame),
        AdultForm::Normal => get_normal_adult(frame),
        AdultForm::Premium => get_premium_adult(frame),
    }
}

fn get_neglected_adult(frame: u8) -> (art: &'static str)
    ensures
        art == NEGLECTED_ADULT_FRAMES@[frame as int % 2],
{
    NEGLECTED_ADULT_FRAMES[(frame % 2) as usize]
}

fn get_normal_adult(frame: u8) -> (art: &'static str)
    ensures
        art == NORMAL_ADULT_FRAMES@[frame as int % 4],
{
    NORMAL_ADULT_FRAMES[(frame % 4) as usize]
}

fn get_premium_adult(frame: u8) -> (art: &'static str)
    ensures
        art == PREMIUM_ADULT_FRAMES@[frame as int % 5],
{
    PREMIUM_ADULT_FRAMES[(frame % 5) as usize]
}

/// The picture of a pet that has died.
pub fn get_death_sprite() -> (art: &'static str)
    ensures
        art == DEATH_SPRITE,
{
    DEATH_SPRITE
}

/// The picture of a sleeping pet.
pub fn get_sleeping_sprite() -> (art: &'static str)
    ensures
        art == SLEEPING_SPRITE,
{
    SLEEPING_SPRITE
}

} // verus!
