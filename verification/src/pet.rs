//! The pet engine: its record, its life stages and the events of a tick.

use vstd::prelude::*;

verus! {

/// Ticks in one day of the pet's life.
pub const TICKS_PER_DAY: u32 = 86400;

/// The form an adult takes, fixed once at maturity by the care it received.
#[derive(Clone, Copy, Debug, PartialEq, Eq, Structural)]
pub enum AdultForm {
    /// Poor care.
    Neglected,
    /// Average care.
    Normal,
    /// Excellent care.
    Premium,
}

/// The stages of a pet's life, in the order in which they are lived.
#[derive(Clone, Copy, Debug, PartialEq, Eq, Structural)]
pub enum LifeStage {
    Egg,
    Baby,
    Child,
    Teenager,
    /// The last stage; its form never changes.
    Adult(AdultForm),
}

/// What a tick can report. At most one event is reported per tick.
#[derive(Clone, Copy, Debug, PartialEq, Eq, Structural)]
pub enum GameEvent {
    /// The pet moved on to the given stage.
    Evolution(LifeStage),
    /// The pet's health reached zero.
    Death,
    /// Hunger, happiness or health is critical.
    NeedsAttention,
    /// The pet has lived the given whole number of days.
    Birthday(u32),
}

/// One thing that can happen to a pet: a care action, or the passing of a
/// tick.
#[derive(Clone, Copy, Debug, PartialEq, Eq, Structural)]
pub enum Action {
    Feed,
    Play,
    Medicine,
    Clean,
    Tick,
}

/// The digital pet.
#[derive(Clone, Copy, Debug, PartialEq, Eq, Structural)]
pub struct Tamagochi {
    /// Hunger level (0 = starving, 100 = full).
    pub hunger: u8,
    /// Happiness level (0 = miserable, 100 = elated).
    pub happiness: u8,
    /// Health level (0 = dead, 100 = perfect health).
    pub health: u8,
    /// Age in ticks.
    pub age: u32,
    /// Current life stage.
    pub stage: LifeStage,
    /// Whether the pet is alive.
    pub alive: bool,
    /// Running score of the care received; it decides the adult form.
    pub care_quality: u8,
}

/// Which of the pet's needs are critical.
#[derive(Clone, Copy, Debug, PartialEq, Eq, Structural)]
pub struct NeedsStatus {
    pub hunger_critical: bool,
    pub happiness_critical: bool,
    pub health_critical: bool,
}

/// A flat snapshot of the pet, for display.
#[derive(Clone, Copy, Debug, PartialEq, Eq, Structural)]
pub struct StatusSummary {
    pub alive: bool,
    pub stage: LifeStage,
    pub age_days: u32,
    pub hunger_level: u8,
    pub happiness_level: u8,
    pub health_level: u8,
    pub care_rating: u8,
}

/// The pet as a mathematical record: the same seven fields, with unbounded
/// integers in place of machine integers.
pub struct PetState {
    pub hunger: int,
    pub happiness: int,
    pub health: int,
    pub age: int,
    pub stage: LifeStage,
    pub alive: bool,
    pub care_quality: int,
}

/// `value` raised by `amount`, capped at 100.
pub open spec fn raised(value: int, amount: int) -> int {
    if value + amount > 100 {
        100
    } else {
        value + amount
    }
}

/// `value` lowered by `amount`, floored at 0.
pub open spec fn lowered(value: int, amount: int) -> int {
    if value - amount < 0 {
        0
    } else {
        value - amount
    }
}

/// The care score `quality` after the signed adjustment `delta`, kept in
/// `0..=100`.
pub open spec fn adjusted_care(quality: int, delta: int) -> int {
    if quality + delta < 0 {
        0
    } else if quality + delta > 100 {
        100
    } else {
        quality + delta
    }
}

/// The adult form that a care score earns at maturity: up to 30 neglected,
/// up to 70 normal, above that premium.
pub open spec fn adult_form_for(care_quality: int) -> AdultForm {
    if care_quality <= 30 {
        AdultForm::Neglected
    } else if care_quality <= 70 {
        AdultForm::Normal
    } else {
        AdultForm::Premium
    }
}

impl LifeStage {
    /// The position of the stage in the order of life, 0 for the egg and 4
    /// for every adult.
    pub open spec fn rank(self) -> int {
        match self {
            LifeStage::Egg => 0,
            LifeStage::Baby => 1,
            LifeStage::Child => 2,
            LifeStage::Teenager => 3,
            LifeStage::Adult(_) => 4,
        }
    }

    /// The age in ticks at which the stage ends. An adult stays an adult.
    pub open spec fn leaving_age(self) -> Option<int> {
        match self {
            LifeStage::Egg => Some(3600),
            LifeStage::Baby => Some(86400),
            LifeStage::Child => Some(259200),
            LifeStage::Teenager => Some(604800),
            LifeStage::Adult(_) => None,
        }
    }

    /// The stage that follows this one when it is left with the given care
    /// score. The score matters only to a teenager, whose adult form it
    /// decides.
    pub open spec fn successor(self, care_quality: int) -> LifeStage {
        match self {
            LifeStage::Egg => LifeStage::Baby,
            LifeStage::Baby => LifeStage::Child,
            LifeStage::Child => LifeStage::Teenager,
            LifeStage::Teenager => LifeStage::Adult(adult_form_for(care_quality)),
            LifeStage::Adult(form) => LifeStage::Adult(form),
        }
    }
}

impl View for Tamagochi {
    type V = PetState;

    open spec fn view(&self) -> PetState {
        PetState {
            hunger: self.hunger as int,
            happiness: self.happiness as int,
            health: self.health as int,
            age: self.age as int,
            stage: self.stage,
            alive: self.alive,
            care_quality: self.care_quality as int,
        }
    }
}

impl PetState {
    /// The state in which every pet starts its life.
    pub open spec fn newborn() -> PetState {
        PetState {
            hunger: 50,
            happiness: 50,
            health: 100,
            age: 0,
            stage: LifeStage::Egg,
            alive: true,
            care_quality: 50,
        }
    }

    /// The four percentages lie in `0..=100` and the age fits its counter.
    pub open spec fn wf(self) -> bool {
        &&& 0 <= self.hunger <= 100
        &&& 0 <= self.happiness <= 100
        &&& 0 <= self.health <= 100
        &&& 0 <= self.care_quality <= 100
        &&& 0 <= self.age <= u32::MAX
    }

    /// Hunger is critical above 80.
    pub open spec fn hunger_critical(self) -> bool {
        self.hunger > 80
    }

    /// Happiness is critical below 20.
    pub open spec fn happiness_critical(self) -> bool {
        self.happiness < 20
    }

    /// Health is critical below 30.
    pub open spec fn health_critical(self) -> bool {
        self.health < 30
    }

    /// The three needs, each critical or not.
    pub open spec fn needs(self) -> NeedsStatus {
        NeedsStatus {
            hunger_critical: self.hunger_critical(),
            happiness_critical: self.happiness_critical(),
            health_critical: self.health_critical(),
        }
    }

    /// The pet after a meal. A hungry pet (hunger above 20) loses 20 of
    /// hunger, gains 5 of happiness and 2 of care score. A pet that was
    /// not hungry is overfed: its hunger drops to 0 and it loses 3 of
    /// happiness. A dead pet does not change.
    pub open spec fn fed(self) -> PetState {
        if !self.alive {
            self
        } else if self.hunger > 20 {
            PetState {
                hunger: lowered(self.hunger, 20),
                happiness: raised(self.happiness, 5),
                care_quality: adjusted_care(self.care_quality, 2),
                ..self
            }
        } else {
            PetState { hunger: 0, happiness: lowered(self.happiness, 3), ..self }
        }
    }

    /// The pet after play: 15 happier, 5 hungrier, 3 more of care score.
    /// A dead pet does not change.
    pub open spec fn played(self) -> PetState {
        if !self.alive {
            self
        } else {
            PetState {
                happiness: raised(self.happiness, 15),
                hunger: raised(self.hunger, 5),
                care_quality: adjusted_care(self.care_quality, 3),
                ..self
            }
        }
    }

    /// The pet after medicine: 30 healthier, 5 less happy, 1 more of care
    /// score. A dead pet does not change.
    pub open spec fn medicated(self) -> PetState {
        if !self.alive {
            self
        } else {
            PetState {
                health: raised(self.health, 30),
                happiness: lowered(self.happiness, 5),
                care_quality: adjusted_care(self.care_quality, 1),
                ..self
            }
        }
    }

    /// The pet after cleaning: 10 happier, 2 more of care score. A dead
    /// pet does not change.
    pub open spec fn cleaned(self) -> PetState {
        if !self.alive {
            self
        } else {
            PetState {
                happiness: raised(self.happiness, 10),
                care_quality: adjusted_care(self.care_quality, 2),
                ..self
            }
        }
    }

    /// The stage that the pet is due to enter, if its age has reached the
    /// end of its present stage.
    pub open spec fn due_stage(self) -> Option<LifeStage> {
        match self.stage.leaving_age() {
            Some(threshold) if self.age >= threshold => Some(
                self.stage.successor(self.care_quality),
            ),
            _ => None,
        }
    }

    /// The pet with `health_loss` taken from its health and `care_loss`
    /// from its care score.
    pub open spec fn penalised(self, health_loss: int, care_loss: int) -> PetState {
        PetState {
            health: lowered(self.health, health_loss),
            care_quality: adjusted_care(self.care_quality, -care_loss),
            ..self
        }
    }

    /// The pet one tick older, hungrier and less happy.
    pub open spec fn aged(self) -> PetState {
        PetState {
            age: if self.age < u32::MAX { self.age + 1 } else { self.age },
            hunger: raised(self.hunger, 1),
            happiness: lowered(self.happiness, 1),
            ..self
        }
    }

    /// One tick of wear on a living pet: it ages, and then pays in health
    /// and care score for critical hunger and for critical happiness, each
    /// on its own.
    pub open spec fn worn(self) -> PetState {
        let aged = self.aged();
        let after_hunger = if aged.hunger_critical() {
            aged.penalised(2, 5)
        } else {
            aged
        };
        if after_hunger.happiness_critical() {
            after_hunger.penalised(1, 3)
        } else {
            after_hunger
        }
    }

    /// The pet after one tick. A dead pet does not change. A living pet is
    /// worn by the tick; then it enters the stage it is due, or else dies
    /// if its health is gone.
    pub open spec fn ticked(self) -> PetState {
        if !self.alive {
            self
        } else {
            let worn = self.worn();
            match worn.due_stage() {
                Some(stage) => PetState { stage, ..worn },
                None => PetState { alive: worn.health != 0, ..worn },
            }
        }
    }

    /// The event of one tick, the first that applies of: evolution, death,
    /// a critical need, a birthday. A dead pet reports nothing.
    pub open spec fn tick_event(self) -> Option<GameEvent> {
        if !self.alive {
            None
        } else {
            let worn = self.worn();
            match worn.due_stage() {
                Some(stage) => Some(GameEvent::Evolution(stage)),
                None => if worn.health == 0 {
                    Some(GameEvent::Death)
                } else if worn.hunger_critical() || worn.happiness_critical()
                    || worn.health_critical() {
                    Some(GameEvent::NeedsAttention)
                } else if worn.age > 0 && worn.age % 86400 == 0 {
                    Some(GameEvent::Birthday((worn.age / 86400) as u32))
                } else {
                    None
                },
            }
        }
    }

    /// The pet after the given action.
    pub open spec fn after(self, action: Action) -> PetState {
        match action {
            Action::Feed => self.fed(),
            Action::Play => self.played(),
            Action::Medicine => self.medicated(),
            Action::Clean => self.cleaned(),
            Action::Tick => self.ticked(),
        }
    }

    /// The event that the given action reports. Only a tick reports any.
    pub open spec fn event_of(self, action: Action) -> Option<GameEvent> {
        match action {
            Action::Tick => self.tick_event(),
            _ => None,
        }
    }

    /// The pet after the given actions, taken in order.
    pub open spec fn after_all(self, actions: Seq<Action>) -> PetState
        decreases actions.len(),
    {
        if actions.len() == 0 {
            self
        } else {
            self.after_all(actions.drop_last()).after(actions.last())
        }
    }
}

/// `value + amount`, capped at 100.
fn clamp_add(value: u8, amount: u8) -> (result: u8)
    ensures
        result == raised(value as int, amount as int),
{
    let sum = value.saturating_add(amount);
    if sum > 100 {
        100
    } else {
        sum
    }
}

/// `value - amount`, floored at 0.
fn clamp_sub(value: u8, amount: u8) -> (result: u8)
    ensures
        result == lowered(value as int, amount as int),
{
    value.saturating_sub(amount)
}

impl Tamagochi {
    /// Creates a new pet in the egg stage.
    pub fn new() -> (pet: Self)
        ensures
            pet@ == PetState::newborn(),
    {
        Tamagochi {
            hunger: 50,
            happiness: 50,
            health: 100,
            age: 0,
            stage: LifeStage::Egg,
            alive: true,
            care_quality: 50,
        }
    }

    /// Tells whether the pet's fields are in range, as they are for every
    /// pet that only the engine has touched. The fields are public: a pet
    /// that was written to directly, or read back from storage, may have
    /// left the range.
    pub fn is_well_formed(&self) -> (ok: bool)
        ensures
            ok == self@.wf(),
    {
        self.hunger <= 100 && self.happiness <= 100 && self.health <= 100 && self.care_quality
            <= 100
    }

    /// Feeds the pet: see [`PetState::fed`]. A pet that was not hungry is
    /// overfed and likes it less.
    pub fn feed(&mut self)
        ensures
            final(self)@ == old(self)@.fed(),
    {
        if !self.alive {
            return;
        }
        if self.hunger > 20 {
            self.hunger = clamp_sub(self.hunger, 20);
            self.happiness = clamp_add(self.happiness, 5);
            self.update_care_quality(2);
        } else {
            self.hunger = 0;
            self.happiness = clamp_sub(self.happiness, 3);
        }
    }

    /// Plays with the pet, which cheers it and makes it hungry: see
    /// [`PetState::played`].
    pub fn play(&mut self)
        ensures
            final(self)@ == old(self)@.played(),
    {
        if !self.alive {
            return;
        }
        self.happiness = clamp_add(self.happiness, 15);
        self.hunger = clamp_add(self.hunger, 5);
        self.update_care_quality(3);
    }

    /// Gives the pet medicine, which heals it but is no fun: see
    /// [`PetState::medicated`].
    pub fn medicine(&mut self)
        ensures
            final(self)@ == old(self)@.medicated(),
    {
        if !self.alive {
            return;
        }
        self.health = clamp_add(self.health, 30);
        self.happiness = clamp_sub(self.happiness, 5);
        self.update_care_quality(1);
    }

    /// Cleans the pet, which cheers it a little: see
    /// [`PetState::cleaned`].
    pub fn clean(&mut self)
        ensures
            final(self)@ == old(self)@.cleaned(),
    {
        if !self.alive {
            return;
        }
        self.happiness = clamp_add(self.happiness, 10);
        self.update_care_quality(2);
    }

    /// Advances the pet by one tick and reports what happened, if
    /// anything: see [`PetState::ticked`] and [`PetState::tick_event`].
    ///
    /// The caller decides how long a tick is, and calls this once for
    /// each. A dead pet is left as it is and reports nothing.
    pub fn update(&mut self) -> (event: Option<GameEvent>)
        ensures
            final(self)@ == old(self)@.ticked(),
            event == old(self)@.tick_event(),
    {
        if !self.alive {
            return None;
        }
        self.age = self.age.saturating_add(1);

        self.hunger = clamp_add(self.hunger, 1);
        self.happiness = clamp_sub(self.happiness, 1);

        if self.hunger > 80 {
            self.health = clamp_sub(self.health, 2);
            self.update_care_quality(-5);
        }
        if self.happiness < 20 {
            self.health = clamp_sub(self.health, 1);
            self.update_care_quality(-3);
        }

        if let Some(new_stage) = self.check_evolution() {
            self.stage = new_stage;
            return Some(GameEvent::Evolution(new_stage));
        }
        if self.health == 0 {
            self.alive = false;
            return Some(GameEvent::Death);
        }
        if self.hunger > 80 || self.happiness < 20 || self.health < 30 {
            return Some(GameEvent::NeedsAttention);
        }
        if self.age > 0 && self.age % TICKS_PER_DAY == 0 {
            return Some(GameEvent::Birthday(self.age / TICKS_PER_DAY));
        }
        None
    }

    /// Performs the given action on the pet and hands on the event of a
    /// tick.
    pub fn apply(&mut self, action: Action) -> (event: Option<GameEvent>)
        ensures
            final(self)@ == old(self)@.after(action),
            event == old(self)@.event_of(action),
    {
        match action {
            Action::Feed => {
                self.feed();
                None
            },
            Action::Play => {
                self.play();
                None
            },
            Action::Medicine => {
                self.medicine();
                None
            },
            Action::Clean => {
                self.clean();
                None
            },
            Action::Tick => self.update(),
        }
    }

    /// Tells which of the pet's needs are critical.
    pub fn needs_status(&self) -> (needs: NeedsStatus)
        ensures
            needs == self@.needs(),
    {
        NeedsStatus {
            hunger_critical: self.hunger > 80,
            happiness_critical: self.happiness < 20,
            health_critical: self.health < 30,
        }
    }

    /// Takes a snapshot of the pet, with its age in whole days.
    pub fn status_summary(&self) -> (summary: StatusSummary)
        ensures
            summary.alive == self.alive,
            summary.stage == self.stage,
            summary.age_days == self@.age / 86400,
            summary.hunger_level == self.hunger,
            summary.happiness_level == self.happiness,
            summary.health_level == self.health,
            summary.care_rating == self.care_quality,
    {
        StatusSummary {
            alive: self.alive,
            stage: self.stage,
            age_days: self.age / TICKS_PER_DAY,
            hunger_level: self.hunger,
            happiness_level: self.happiness,
            health_level: self.health,
            care_rating: self.care_quality,
        }
    }

    /// The stage that the pet should enter now, if any.
    fn check_evolution(&self) -> (next: Option<LifeStage>)
        ensures
            next == self@.due_stage(),
    {
        match self.stage {
            LifeStage::Egg => if self.age >= 3600 {
                Some(LifeStage::Baby)
            } else {
                None
            },
            LifeStage::Baby => if self.age >= 86400 {
                Some(LifeStage::Child)
            } else {
                None
            },
            LifeStage::Child => if self.age >= 259200 {
                Some(LifeStage::Teenager)
            } else {
                None
            },
            LifeStage::Teenager => if self.age >= 604800 {
                let form = if self.care_quality <= 30 {
                    AdultForm::Neglected
                } else if self.care_quality <= 70 {
                    AdultForm::Normal
                } else {
                    AdultForm::Premium
                };
                Some(LifeStage::Adult(form))
            } else {
                None
            },
            LifeStage::Adult(_) => None,
        }
    }

    /// Adjusts the care score by `delta` and keeps it in `0..=100`.
    fn update_care_quality(&mut self, delta: i16)
        ensures
            final(self)@ == (PetState {
                care_quality: adjusted_care(old(self)@.care_quality, delta as int),
                ..old(self)@
            }),
    {
        let adjusted: i32 = self.care_quality as i32 + delta as i32;
        self.care_quality = if adjusted < 0 {
            0
        } else if adjusted > 100 {
            100
        } else {
            adjusted as u8
        };
    }
}

impl Default for Tamagochi {
    /// The same pet as [`Tamagochi::new`].
    fn default() -> (pet: Self)
        ensures
            pet@ == PetState::newborn(),
    {
        Tamagochi::new()
    }
}

} // verus!
