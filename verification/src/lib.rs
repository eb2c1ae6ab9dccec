//! A virtual pet: bounded vital statistics that decay tick by tick, a one-way
//! growth through life stages, and a handful of care actions.
//!
//! The engine in [`pet`] is a pure state machine. It performs no I/O and
//! allocates nothing; every operation is total, and its effect is stated
//! over the mathematical model [`pet::PetState`]. What holds of every pet,
//! whatever is done to it, is proved in [`laws`].
//!
//! The other modules serve the two front ends and decide what they show,
//! without showing anything themselves: [`sprites`] and [`console`] for a
//! text console, [`canvas`], [`pixels`] and [`screen`] for a small pixel
//! display with four buttons.

pub mod canvas;
pub mod console;
pub mod laws;
pub mod pet;
pub mod pixels;
pub mod screen;
pub mod sprites;

pub use pet::{Action, AdultForm, GameEvent, LifeStage, NeedsStatus, StatusSummary, Tamagochi};
