use tamagochi::sprites::{get_death_sprite, get_sleeping_sprite, get_sprite};
use tamagochi::{AdultForm, LifeStage};

#[test]
fn egg_pictures() {
    assert_eq!(
        get_sprite(LifeStage::Egg, 0),
        r#"
    ___
   /   \
  |  o  |
  |     |
   \___/
"#
    );
    assert_eq!(
        get_sprite(LifeStage::Egg, 1),
        r#"
    ___
   /   \
  | o o |
  |     |
   \___/
"#
    );
}

#[test]
fn baby_pictures() {
    assert_eq!(
        get_sprite(LifeStage::Baby, 0),
        r#"
   /\_/\
  ( o.o )
   > ^ <
  /|   |\
   |___|
"#
    );
    assert_eq!(
        get_sprite(LifeStage::Baby, 1),
        r#"
   /\_/\
  ( ^.^ )
   > ~ <
  /|   |\
   |___|
"#
    );
    assert_eq!(
        get_sprite(LifeStage::Baby, 2),
        r#"
   /\_/\
  ( -.o )
   > ^ <
  /|   |\
   |___|
"#
    );
}

#[test]
fn child_pictures() {
    assert_eq!(
        get_sprite(LifeStage::Child, 0),
        r#"
    /\_/\
   ( o.o )
    > ^ <
   /|   |\
  / |___| \
 /  \___/  \
"#
    );
    assert_eq!(
        get_sprite(LifeStage::Child, 1),
        r#"
    /\_/\
   ( ^.^ )
    > v <
   /|   |\
  / |___| \
 /  \___/  \
"#
    );
    assert_eq!(
        get_sprite(LifeStage::Child, 2),
        r#"
    /\_/\
   ( o.o )
    > w <
   /|   |\
  / |___| \
 /  \___/  \
"#
    );
    assert_eq!(
        get_sprite(LifeStage::Child, 3),
        r#"
    /\_/\
   ( -.o )
    > ^ <
   /|   |\
  / |___| \
 /  \___/  \
"#
    );
}

#[test]
fn teenager_pictures() {
    assert_eq!(
        get_sprite(LifeStage::Teenager, 0),
        r#"
     /\_/\
    ( o.o )
     > ^ <
    /|   |\
   / |___| \
  /  |   |  \
 /___|___|___\
"#
    );
    assert_eq!(
        get_sprite(LifeStage::Teenager, 1),
        r#"
     /\_/\
    ( ^.^ )
     > v <
    /|   |\
   / |___| \
  /  |   |  \
 /___|___|___\
"#
    );
    assert_eq!(
        get_sprite(LifeStage::Teenager, 2),
        r#"
     /\_/\
    ( o.O )
     > w <
    /|   |\
   / |___| \
  /  |   |  \
 /___|___|___\
"#
    );
}

#[test]
fn neglected_adult_pictures() {
    assert_eq!(
        get_sprite(LifeStage::Adult(AdultForm::Neglected), 0),
        r#"
      /\_/\
     ( -.- )
      > _ <
     /|   |\
    / |___| \
   /  |   |  \
  /___|   |___\
     |___|
"#
    );
    assert_eq!(
        get_sprite(LifeStage::Adult(AdultForm::Neglected), 1),
        r#"
      /\_/\
     ( x.x )
      > _ <
     /|   |\
    / |___| \
   /  |   |  \
  /___|   |___\
     |___|
"#
    );
}

#[test]
fn normal_adult_pictures() {
    assert_eq!(
        get_sprite(LifeStage::Adult(AdultForm::Normal), 0),
        r#"
      /\_/\
     ( o.o )
      > ^ <
     /|   |\
    / |___| \
   /  |   |  \
  /___|   |___\
     |___|
"#
    );
    assert_eq!(
        get_sprite(LifeStage::Adult(AdultForm::Normal), 1),
        r#"
      /\_/\
     ( ^.^ )
      > v <
     /|   |\
    / |___| \
   /  |   |  \
  /___|   |___\
     |___|
"#
    );
    assert_eq!(
        get_sprite(LifeStage::Adult(AdultForm::Normal), 2),
        r#"
      /\_/\
     ( o.o )
      > w <
     /|   |\
    / |___| \
   /  |   |  \
  /___|   |___\
     |___|
"#
    );
    assert_eq!(
        get_sprite(LifeStage::Adult(AdultForm::Normal), 3),
        r#"
      /\_/\
     ( -.o )
      > ^ <
     /|   |\
    / |___| \
   /  |   |  \
  /___|   |___\
     |___|
"#
    );
}

#[test]
fn premium_adult_pictures() {
    assert_eq!(
        get_sprite(LifeStage::Adult(AdultForm::Premium), 0),
        r#"
    ★ /\_/\ ★
     ( ^.^ )
      > ♥ <
     /|   |\
    / |___| \
   /  |   |  \
  /___|   |___\
     |___|
"#
    );
    assert_eq!(
        get_sprite(LifeStage::Adult(AdultForm::Premium), 1),
        r#"
    ✨ /\_/\ ✨
     ( o.o )
      > w <
     /|   |\
    / |___| \
   /  |   |  \
  /___|   |___\
     |___|
"#
    );
    assert_eq!(
        get_sprite(LifeStage::Adult(AdultForm::Premium), 2),
        r#"
    ★ /\_/\ ★
     ( ^ω^ )
      > ♥ <
     /|   |\
    / |___| \
   /  |   |  \
  /___|   |___\
     |___|
"#
    );
    assert_eq!(
        get_sprite(LifeStage::Adult(AdultForm::Premium), 3),
        r#"
    ✨ /\_/\ ✨
     ( ´∀` )
      > v <
     /|   |\
    / |___| \
   /  |   |  \
  /___|   |___\
     |___|
"#
    );
    assert_eq!(
        get_sprite(LifeStage::Adult(AdultForm::Premium), 4),
        r#"
    ★ /\_/\ ★
     ( ^.^ )
      > ♪ <
     /|   |\
    / |___| \
   /  |   |  \
  /___|   |___\
     |___|
"#
    );
}

#[test]
fn death_picture() {
    assert_eq!(
        get_death_sprite(),
        r#"
      /\_/\
     ( x.x )
      > _ <
     /|   |\
    / |___| \
   /  |   |  \
  /___|   |___\
     |___|
     R.I.P.
"#
    );
}

#[test]
fn sleeping_picture() {
    assert_eq!(
        get_sleeping_sprite(),
        r#"
      /\_/\
     ( -.- )
      > z <
     /|   |\
    / |___| \
   /  Zzz..  \
  /_________\
"#
    );
}

fn stages() -> Vec<(LifeStage, u8)> {
    vec![
        (LifeStage::Egg, 2),
        (LifeStage::Baby, 3),
        (LifeStage::Child, 4),
        (LifeStage::Teenager, 3),
        (LifeStage::Adult(AdultForm::Neglected), 2),
        (LifeStage::Adult(AdultForm::Normal), 4),
        (LifeStage::Adult(AdultForm::Premium), 5),
    ]
}

#[test]
fn pictures_repeat_in_cycles() {
    for (stage, count) in stages() {
        for frame in 0..=255u8 {
            assert_eq!(get_sprite(stage, frame), get_sprite(stage, frame % count));
        }
    }
}

#[test]
fn pictures_of_a_cycle_differ_from_their_neighbours() {
    for (stage, count) in stages() {
        for frame in 0..count {
            assert_ne!(get_sprite(stage, frame), get_sprite(stage, (frame + 1) % count));
        }
    }
}

#[test]
fn last_frame_of_the_counter() {
    assert_eq!(get_sprite(LifeStage::Egg, 255), get_sprite(LifeStage::Egg, 1));
    assert_eq!(get_sprite(LifeStage::Baby, 255), get_sprite(LifeStage::Baby, 0));
    assert_eq!(get_sprite(LifeStage::Child, 255), get_sprite(LifeStage::Child, 3));
    assert_eq!(
        get_sprite(LifeStage::Adult(AdultForm::Premium), 254),
        get_sprite(LifeStage::Adult(AdultForm::Premium), 4)
    );
}
