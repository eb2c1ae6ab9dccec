use tamagochi::{AdultForm, GameEvent, LifeStage, Tamagochi};

#[test]
fn test_new_tamagochi() {
    let tama = Tamagochi::new();
    assert_eq!(tama.stage, LifeStage::Egg);
    assert!(tama.alive);
    assert_eq!(tama.age, 0);
}

#[test]
fn test_feeding() {
    let mut tama = Tamagochi::new();
    let initial_hunger = tama.hunger;
    tama.feed();
    assert!(tama.hunger < initial_hunger);
}

#[test]
fn test_evolution() {
    let mut tama = Tamagochi::new();
    tama.age = 3600; // 1 hour
    let event = tama.update();
    assert!(matches!(event, Some(GameEvent::Evolution(LifeStage::Baby))));
    assert_eq!(tama.stage, LifeStage::Baby);
}

#[test]
fn test_death_from_health() {
    let mut tama = Tamagochi::new();
    tama.health = 1;
    tama.hunger = 90; // Will reduce health by 2
    let event = tama.update();
    assert!(matches!(event, Some(GameEvent::Death)));
    assert!(!tama.alive);
}

#[test]
fn test_care_quality_affects_adult_form() {
    let mut tama = Tamagochi::new();
    tama.age = 604799; // Just before adult evolution
    tama.stage = LifeStage::Teenager; // Set to teenager stage
    tama.care_quality = 80; // High care
    let event = tama.update(); // Trigger evolution
    assert!(matches!(event, Some(GameEvent::Evolution(LifeStage::Adult(AdultForm::Premium)))));
    assert!(matches!(tama.stage, LifeStage::Adult(AdultForm::Premium)));
}

#[test]
fn new_pet_has_the_initial_stats() {
    let tama = Tamagochi::new();
    let expected = Tamagochi {
        hunger: 50,
        happiness: 50,
        health: 100,
        age: 0,
        stage: LifeStage::Egg,
        alive: true,
        care_quality: 50,
    };
    assert_eq!(tama, expected);
    assert_eq!(Tamagochi::default(), expected);
}

#[test]
fn feed_a_hungry_pet() {
    let mut tama = Tamagochi::new();
    tama.feed();
    assert_eq!(tama.hunger, 30);
    assert_eq!(tama.happiness, 55);
    assert_eq!(tama.care_quality, 52);
    assert_eq!(tama.health, 100);
    assert_eq!(tama.age, 0);
}

#[test]
fn feed_below_threshold_overfeeds() {
    let mut tama = Tamagochi::new();
    tama.hunger = 15;
    tama.feed();
    assert_eq!(tama.hunger, 0);
    assert_eq!(tama.happiness, 47);
    assert_eq!(tama.care_quality, 50);
}

#[test]
fn feed_at_the_threshold_overfeeds() {
    let mut tama = Tamagochi::new();
    tama.hunger = 20;
    tama.happiness = 2;
    tama.feed();
    assert_eq!(tama.hunger, 0);
    assert_eq!(tama.happiness, 0);
    assert_eq!(tama.care_quality, 50);

    let mut tama = Tamagochi::new();
    tama.hunger = 21;
    tama.feed();
    assert_eq!(tama.hunger, 1);
    assert_eq!(tama.happiness, 55);
    assert_eq!(tama.care_quality, 52);
}

#[test]
fn play_raises_happiness_and_hunger() {
    let mut tama = Tamagochi::new();
    tama.play();
    assert_eq!(tama.happiness, 65);
    assert_eq!(tama.hunger, 55);
    assert_eq!(tama.care_quality, 53);
}

#[test]
fn play_caps_at_one_hundred() {
    let mut tama = Tamagochi::new();
    tama.happiness = 90;
    tama.hunger = 98;
    tama.care_quality = 99;
    tama.play();
    assert_eq!(tama.happiness, 100);
    assert_eq!(tama.hunger, 100);
    assert_eq!(tama.care_quality, 100);
}

#[test]
fn medicine_restores_health() {
    let mut tama = Tamagochi::new();
    tama.health = 40;
    tama.medicine();
    assert_eq!(tama.health, 70);
    assert_eq!(tama.happiness, 45);
    assert_eq!(tama.care_quality, 51);

    tama.health = 85;
    tama.happiness = 3;
    tama.medicine();
    assert_eq!(tama.health, 100);
    assert_eq!(tama.happiness, 0);
    assert_eq!(tama.care_quality, 52);
}

#[test]
fn clean_raises_happiness() {
    let mut tama = Tamagochi::new();
    tama.clean();
    assert_eq!(tama.happiness, 60);
    assert_eq!(tama.care_quality, 52);
    assert_eq!(tama.hunger, 50);

    tama.happiness = 95;
    tama.clean();
    assert_eq!(tama.happiness, 100);
    assert_eq!(tama.care_quality, 54);
}

#[test]
fn a_quiet_tick_only_decays() {
    let mut tama = Tamagochi::new();
    let event = tama.update();
    assert_eq!(event, None);
    assert_eq!(
        tama,
        Tamagochi {
            hunger: 51,
            happiness: 49,
            health: 100,
            age: 1,
            stage: LifeStage::Egg,
            alive: true,
            care_quality: 50,
        }
    );
}

#[test]
fn hunger_is_capped_by_a_tick() {
    let mut tama = Tamagochi::new();
    tama.hunger = 100;
    let event = tama.update();
    assert_eq!(tama.hunger, 100);
    assert_eq!(tama.health, 98);
    assert_eq!(tama.care_quality, 45);
    assert_eq!(event, Some(GameEvent::NeedsAttention));
}

#[test]
fn both_needs_cost_health_in_one_tick() {
    let mut tama = Tamagochi::new();
    tama.hunger = 80;
    tama.happiness = 20;
    let event = tama.update();
    assert_eq!(tama.hunger, 81);
    assert_eq!(tama.happiness, 19);
    assert_eq!(tama.health, 97);
    assert_eq!(tama.care_quality, 42);
    assert_eq!(event, Some(GameEvent::NeedsAttention));
}

#[test]
fn care_quality_floors_at_zero() {
    let mut tama = Tamagochi::new();
    tama.hunger = 90;
    tama.happiness = 10;
    tama.care_quality = 6;
    tama.update();
    assert_eq!(tama.care_quality, 0);
    tama.update();
    assert_eq!(tama.care_quality, 0);
}

#[test]
fn attention_thresholds_are_strict() {
    let mut tama = Tamagochi::new();
    tama.hunger = 79;
    tama.happiness = 21;
    tama.health = 30;
    assert_eq!(tama.update(), None);
    assert_eq!(tama.hunger, 80);
    assert_eq!(tama.happiness, 20);
    assert_eq!(tama.health, 30);

    let mut tama = Tamagochi::new();
    tama.health = 29;
    assert_eq!(tama.update(), Some(GameEvent::NeedsAttention));
    assert_eq!(tama.health, 29);
}

#[test]
fn death_sets_health_to_zero() {
    let mut tama = Tamagochi::new();
    tama.health = 1;
    tama.hunger = 90;
    let event = tama.update();
    assert_eq!(event, Some(GameEvent::Death));
    assert_eq!(tama.health, 0);
    assert_eq!(tama.hunger, 91);
    assert_eq!(tama.care_quality, 45);
    assert_eq!(tama.age, 1);
    assert!(!tama.alive);
}

#[test]
fn evolution_comes_before_death() {
    let mut tama = Tamagochi::new();
    tama.age = 3599;
    tama.health = 1;
    tama.hunger = 90;
    let event = tama.update();
    assert_eq!(event, Some(GameEvent::Evolution(LifeStage::Baby)));
    assert_eq!(tama.health, 0);
    assert!(tama.alive);
    let event = tama.update();
    assert_eq!(event, Some(GameEvent::Death));
    assert!(!tama.alive);
}

#[test]
fn dead_pet_is_frozen() {
    let mut tama = Tamagochi::new();
    tama.alive = false;
    tama.hunger = 90;
    tama.happiness = 5;
    tama.health = 0;
    tama.age = 3600;
    let before = tama;
    tama.feed();
    assert_eq!(tama, before);
    tama.play();
    assert_eq!(tama, before);
    tama.medicine();
    assert_eq!(tama, before);
    tama.clean();
    assert_eq!(tama, before);
    assert_eq!(tama.update(), None);
    assert_eq!(tama, before);
}

#[test]
fn each_stage_ends_at_its_age() {
    let mut tama = Tamagochi::new();
    tama.age = 3598;
    assert_eq!(tama.update(), None);
    assert_eq!(tama.stage, LifeStage::Egg);
    assert_eq!(tama.update(), Some(GameEvent::Evolution(LifeStage::Baby)));

    let mut tama = Tamagochi::new();
    tama.stage = LifeStage::Baby;
    tama.age = 86398;
    assert_eq!(tama.update(), None);
    assert_eq!(tama.update(), Some(GameEvent::Evolution(LifeStage::Child)));
    assert_eq!(tama.stage, LifeStage::Child);

    let mut tama = Tamagochi::new();
    tama.stage = LifeStage::Child;
    tama.age = 259198;
    assert_eq!(tama.update(), None);
    assert_eq!(tama.update(), Some(GameEvent::Evolution(LifeStage::Teenager)));
    assert_eq!(tama.stage, LifeStage::Teenager);

    let mut tama = Tamagochi::new();
    tama.stage = LifeStage::Teenager;
    tama.age = 604798;
    assert_eq!(tama.update(), None);
    assert_eq!(
        tama.update(),
        Some(GameEvent::Evolution(LifeStage::Adult(AdultForm::Normal)))
    );
}

#[test]
fn one_stage_per_tick() {
    let mut tama = Tamagochi::new();
    tama.age = 700000;
    assert_eq!(tama.update(), Some(GameEvent::Evolution(LifeStage::Baby)));
    assert_eq!(tama.update(), Some(GameEvent::Evolution(LifeStage::Child)));
    assert_eq!(tama.update(), Some(GameEvent::Evolution(LifeStage::Teenager)));
    assert_eq!(
        tama.update(),
        Some(GameEvent::Evolution(LifeStage::Adult(AdultForm::Normal)))
    );
    assert_eq!(tama.update(), None);
    assert_eq!(tama.stage, LifeStage::Adult(AdultForm::Normal));
}

fn adult_form_at(care_quality: u8) -> LifeStage {
    let mut tama = Tamagochi::new();
    tama.stage = LifeStage::Teenager;
    tama.age = 604799;
    tama.care_quality = care_quality;
    tama.update();
    tama.stage
}

#[test]
fn adult_form_follows_the_care_bands() {
    assert_eq!(adult_form_at(0), LifeStage::Adult(AdultForm::Neglected));
    assert_eq!(adult_form_at(30), LifeStage::Adult(AdultForm::Neglected));
    assert_eq!(adult_form_at(31), LifeStage::Adult(AdultForm::Normal));
    assert_eq!(adult_form_at(70), LifeStage::Adult(AdultForm::Normal));
    assert_eq!(adult_form_at(71), LifeStage::Adult(AdultForm::Premium));
    assert_eq!(adult_form_at(100), LifeStage::Adult(AdultForm::Premium));
}

#[test]
fn adult_form_uses_the_care_left_by_the_tick() {
    let mut tama = Tamagochi::new();
    tama.stage = LifeStage::Teenager;
    tama.age = 604799;
    tama.care_quality = 74;
    tama.hunger = 90;
    let event = tama.update();
    assert_eq!(tama.care_quality, 69);
    assert_eq!(event, Some(GameEvent::Evolution(LifeStage::Adult(AdultForm::Normal))));
}

#[test]
fn adult_form_never_changes() {
    let mut tama = Tamagochi::new();
    tama.stage = LifeStage::Adult(AdultForm::Premium);
    tama.age = 700000;
    tama.care_quality = 10;
    for _ in 0..200 {
        tama.update();
        tama.feed();
        assert_eq!(tama.stage, LifeStage::Adult(AdultForm::Premium));
    }
}

#[test]
fn birthday_on_whole_days() {
    let mut tama = Tamagochi::new();
    tama.stage = LifeStage::Child;
    tama.age = 86399;
    assert_eq!(tama.update(), Some(GameEvent::Birthday(1)));
    assert_eq!(tama.age, 86400);
    assert_eq!(tama.update(), None);

    let mut tama = Tamagochi::new();
    tama.stage = LifeStage::Adult(AdultForm::Normal);
    tama.age = 10 * 86400 - 1;
    assert_eq!(tama.update(), Some(GameEvent::Birthday(10)));
}

#[test]
fn attention_comes_before_birthday() {
    let mut tama = Tamagochi::new();
    tama.stage = LifeStage::Child;
    tama.age = 86399;
    tama.happiness = 10;
    assert_eq!(tama.update(), Some(GameEvent::NeedsAttention));
    assert_eq!(tama.age, 86400);
}

#[test]
fn age_saturates() {
    let mut tama = Tamagochi::new();
    tama.stage = LifeStage::Adult(AdultForm::Normal);
    tama.age = u32::MAX;
    tama.update();
    assert_eq!(tama.age, u32::MAX);
    assert!(tama.alive);
}

#[test]
fn stats_stay_in_bounds_and_stage_and_age_only_advance() {
    let mut tama = Tamagochi::new();
    tama.age = 3500;
    let mut rank = 0;
    let mut age = tama.age;
    for step in 0..5000u32 {
        match step % 7 {
            0 => tama.feed(),
            1 => tama.play(),
            2 => tama.medicine(),
            3 => tama.clean(),
            _ => {
                tama.update();
            }
        }
        assert!(tama.hunger <= 100);
        assert!(tama.happiness <= 100);
        assert!(tama.health <= 100);
        assert!(tama.care_quality <= 100);
        assert!(tama.age >= age);
        age = tama.age;
        let now = match tama.stage {
            LifeStage::Egg => 0,
            LifeStage::Baby => 1,
            LifeStage::Child => 2,
            LifeStage::Teenager => 3,
            LifeStage::Adult(_) => 4,
        };
        assert!(now >= rank);
        rank = now;
    }
    assert_eq!(tama.stage, LifeStage::Baby);
}

#[test]
fn a_neglected_pet_dies_and_stays_dead() {
    let mut tama = Tamagochi::new();
    let mut ticks = 0u32;
    let mut last = None;
    while tama.alive {
        last = tama.update();
        ticks += 1;
        assert!(ticks < 1000);
    }
    assert_eq!(last, Some(GameEvent::Death));
    assert_eq!(tama.health, 0);
    // Both needs turn critical on tick 31 and cost 3 of health a tick
    // from then on: 100 of health lasts 34 such ticks.
    assert_eq!(ticks, 64);
    let dead = tama;
    assert_eq!(tama.update(), None);
    assert_eq!(tama, dead);
    assert_eq!(tama.age, 64);
}
