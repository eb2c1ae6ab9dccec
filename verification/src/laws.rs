//! What holds of every pet, whatever is done to it.
//!
//! Each law is stated over [`PetState`], the model in which the engine's
//! operations are specified, so it holds of every [`crate::Tamagochi`]
//! that the operations produce.

use crate::pet::{adult_form_for, Action, AdultForm, GameEvent, LifeStage, PetState, Tamagochi};
use vstd::prelude::*;

verus! {

/// A well-formed pet stays well-formed under any single action: hunger,
/// happiness, health and care score remain in `0..=100`.
pub proof fn bounds_kept_by_action(pet: PetState, action: Action)
    requires
        pet.wf(),
    ensures
        pet.after(action).wf(),
{
}

/// A well-formed pet stays well-formed under any sequence of actions and
/// ticks.
pub proof fn bounds_kept(pet: PetState, actions: Seq<Action>)
    requires
        pet.wf(),
    ensures
        pet.after_all(actions).wf(),
    decreases actions.len(),
{
    if actions.len() > 0 {
        bounds_kept(pet, actions.drop_last());
        bounds_kept_by_action(pet.after_all(actions.drop_last()), actions.last());
    }
}

/// A newly created pet is well-formed.
pub proof fn newborn_is_well_formed()
    ensures
        PetState::newborn().wf(),
{
}

/// No action makes a pet younger; a care action leaves its age alone, and a
/// tick adds at most one.
pub proof fn age_never_decreases_by_action(pet: PetState, action: Action)
    ensures
        pet.after(action).age >= pet.age,
        pet.after(action).age <= pet.age + 1,
        action != Action::Tick ==> pet.after(action).age == pet.age,
        !pet.alive ==> pet.after(action).age == pet.age,
{
}

/// Age never decreases over any sequence of actions and ticks.
pub proof fn age_never_decreases(pet: PetState, actions: Seq<Action>)
    ensures
        pet.after_all(actions).age >= pet.age,
    decreases actions.len(),
{
    if actions.len() > 0 {
        age_never_decreases(pet, actions.drop_last());
        age_never_decreases_by_action(pet.after_all(actions.drop_last()), actions.last());
    }
}

/// The stage never moves backwards, moves by at most one step per action,
/// and moves only on a tick. An adult keeps its stage, form included.
pub proof fn stage_only_advances_by_action(pet: PetState, action: Action)
    ensures
        pet.after(action).stage.rank() >= pet.stage.rank(),
        pet.after(action).stage.rank() <= pet.stage.rank() + 1,
        action != Action::Tick ==> pet.after(action).stage == pet.stage,
        pet.stage is Adult ==> pet.after(action).stage == pet.stage,
{
}

/// Over any sequence of actions and ticks the stage never moves backwards,
/// and a pet that is adult keeps its stage, form included.
pub proof fn stage_only_advances(pet: PetState, actions: Seq<Action>)
    ensures
        pet.after_all(actions).stage.rank() >= pet.stage.rank(),
        pet.stage is Adult ==> pet.after_all(actions).stage == pet.stage,
    decreases actions.len(),
{
    if actions.len() > 0 {
        stage_only_advances(pet, actions.drop_last());
        stage_only_advances_by_action(pet.after_all(actions.drop_last()), actions.last());
    }
}

/// A dead pet is frozen: no action changes any of its fields, and a tick
/// reports nothing.
pub proof fn dead_pet_is_frozen_by_action(pet: PetState, action: Action)
    requires
        !pet.alive,
    ensures
        pet.after(action) == pet,
        pet.event_of(action) is None,
{
}

/// A dead pet is the same pet after any sequence of actions and ticks.
pub proof fn dead_pet_is_frozen(pet: PetState, actions: Seq<Action>)
    requires
        !pet.alive,
    ensures
        pet.after_all(actions) == pet,
    decreases actions.len(),
{
    if actions.len() > 0 {
        dead_pet_is_frozen(pet, actions.drop_last());
        dead_pet_is_frozen_by_action(pet, actions.last());
    }
}

/// No action brings a dead pet back, and only a tick can kill: the tick
/// that reports the death.
pub proof fn death_is_final(pet: PetState, action: Action)
    ensures
        !pet.alive ==> !pet.after(action).alive,
        pet.alive && !pet.after(action).alive ==> action == Action::Tick && pet.event_of(action)
            == Some(GameEvent::Death),
        pet.event_of(action) == Some(GameEvent::Death) ==> pet.alive && !pet.after(action).alive
            && pet.after(action).health == 0,
{
}

/// A living pet that is not yet adult evolves on a tick exactly when the
/// tick brings its age to the end of its stage or beyond, that is when it
/// is at most one tick short of it. The tick then reports the evolution to
/// the stage that follows, and nothing else; the pet moves one step and
/// lives. A teenager's adult form is the one that its care score, as the
/// tick left it, earns. On every other tick the stage stays.
pub proof fn evolution_is_determined(pet: PetState)
    requires
        pet.alive,
    ensures
        match pet.stage.leaving_age() {
            Some(threshold) if pet.age + 1 >= threshold => {
                let next = pet.stage.successor(pet.ticked().care_quality);
                &&& pet.tick_event() == Some(GameEvent::Evolution(next))
                &&& pet.ticked().stage == next
                &&& next.rank() == pet.stage.rank() + 1
                &&& pet.ticked().alive
            },
            _ => {
                &&& !(pet.tick_event() matches Some(GameEvent::Evolution(_)))
                &&& pet.ticked().stage == pet.stage
            },
        },
{
}

/// A living pet whose age is exactly the age at which its stage ends
/// evolves on the next tick.
pub proof fn evolves_at_threshold(pet: PetState)
    requires
        pet.alive,
        pet.stage.leaving_age() == Some(pet.age),
    ensures
        pet.tick_event() == Some(
            GameEvent::Evolution(pet.stage.successor(pet.ticked().care_quality)),
        ),
        pet.ticked().stage == pet.stage.successor(pet.ticked().care_quality),
{
    evolution_is_determined(pet);
}

/// The adult form is a function of the care score alone, by three bands:
/// `0..=30` neglected, `31..=70` normal, `71..=100` premium.
pub proof fn adult_form_by_bands(care_quality: int)
    requires
        0 <= care_quality <= 100,
    ensures
        0 <= care_quality <= 30 <==> adult_form_for(care_quality) == AdultForm::Neglected,
        31 <= care_quality <= 70 <==> adult_form_for(care_quality) == AdultForm::Normal,
        71 <= care_quality <= 100 <==> adult_form_for(care_quality) == AdultForm::Premium,
{
}

/// A living teenager that a tick brings to the age of 604800 or beyond
/// becomes an adult on that tick, in the form that its care score earns.
pub proof fn teenager_matures(pet: PetState)
    requires
        pet.alive,
        pet.stage == LifeStage::Teenager,
        pet.age + 1 >= 604800,
    ensures
        pet.ticked().stage == LifeStage::Adult(adult_form_for(pet.ticked().care_quality)),
        pet.tick_event() == Some(GameEvent::Evolution(pet.ticked().stage)),
{
}

/// A tick reports at most what happened: an evolution only to the stage
/// the pet is then in, a birthday only on a whole number of days, and a
/// call for attention only if a need is critical after the tick.
pub proof fn events_tell_the_truth(pet: PetState)
    requires
        pet.wf(),
    ensures
        match pet.tick_event() {
            Some(GameEvent::Evolution(stage)) => pet.ticked().stage == stage && stage
                != pet.stage,
            Some(GameEvent::Death) => !pet.ticked().alive && pet.ticked().health == 0,
            Some(GameEvent::NeedsAttention) => pet.ticked().alive && (pet.ticked().hunger_critical()
                || pet.ticked().happiness_critical() || pet.ticked().health_critical()),
            Some(GameEvent::Birthday(days)) => pet.ticked().age == days * 86400 && days > 0,
            None => true,
        },
{
}

/// Two pets with the same model are the same pet: what is stated of the
/// model of a pet is stated of the pet.
pub proof fn view_is_faithful(a: Tamagochi, b: Tamagochi)
    requires
        a@ == b@,
    ensures
        a == b,
{
}

} // verus!
