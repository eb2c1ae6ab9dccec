//! What a text console needs besides the engine: the commands it reads,
//! the picture it shows, and gauges and warnings as text.

use crate::pet::{Action, NeedsStatus, PetState, Tamagochi};
use crate::sprites::{get_death_sprite, get_sprite, sprite_at, DEATH_SPRITE};
use vstd::prelude::*;
use vstd::string::StringExecFns;

verus! {

/// What the player asked for.
#[derive(Clone, Copy, Debug, PartialEq, Eq, Structural)]
pub enum Command {
    /// Do something to the pet.
    Act(Action),
    /// Show the status table.
    Status,
    /// Leave.
    Quit,
    /// Anything else.
    Unknown,
}

/// The command that a line of input stands for. Each command has a short
/// and a long spelling; a tick has only `tick`. The line is taken as it
/// is: letter case and surrounding blanks count.
pub open spec fn command_for(line: Seq<char>) -> Command {
    if line == "f"@ || line == "feed"@ {
        Command::Act(Action::Feed)
    } else if line == "p"@ || line == "play"@ {
        Command::Act(Action::Play)
    } else if line == "m"@ || line == "medicine"@ {
        Command::Act(Action::Medicine)
    } else if line == "c"@ || line == "clean"@ {
        Command::Act(Action::Clean)
    } else if line == "s"@ || line == "status"@ {
        Command::Status
    } else if line == "q"@ || line == "quit"@ {
        Command::Quit
    } else if line == "tick"@ {
        Command::Act(Action::Tick)
    } else {
        Command::Unknown
    }
}

/// Whether `line` reads exactly `word`.
fn reads(line: &String, word: &str) -> (same: bool)
    ensures
        same == (line@ == word@),
{
    *line == String::from_str(word)
}

/// Reads a line of input as a command.
pub fn parse_command(input: &str) -> (command: Command)
    ensures
        command == command_for(input@),
{
    let line = String::from_str(input);
    if reads(&line, "f") || reads(&line, "feed") {
        Command::Act(Action::Feed)
    } else if reads(&line, "p") || reads(&line, "play") {
        Command::Act(Action::Play)
    } else if reads(&line, "m") || reads(&line, "medicine") {
        Command::Act(Action::Medicine)
    } else if reads(&line, "c") || reads(&line, "clean") {
        Command::Act(Action::Clean)
    } else if reads(&line, "s") || reads(&line, "status") {
        Command::Status
    } else if reads(&line, "q") || reads(&line, "quit") {
        Command::Quit
    } else if reads(&line, "tick") {
        Command::Act(Action::Tick)
    } else {
        Command::Unknown
    }
}

/// The picture to show for a pet: the death picture once it has died, else
/// the picture of its stage at the given animation frame.
pub open spec fn picture_of(pet: PetState, frame: int) -> &'static str {
    if pet.alive {
        sprite_at(pet.stage, frame)
    } else {
        DEATH_SPRITE
    }
}

/// Chooses the picture to show for the pet.
pub fn picture_for(pet: &Tamagochi, frame: u8) -> (art: &'static str)
    ensures
        art == picture_of(pet@, frame as int),
{
    if pet.alive {
        get_sprite(pet.stage, frame)
    } else {
        get_death_sprite()
    }
}

/// Cells in a gauge.
pub const BAR_CELLS: u8 = 10;

/// How many cells of a gauge a value fills: one for every full ten, and no
/// more than the gauge has.
pub open spec fn filled_cells(value: int) -> int {
    if value / 10 > 10 {
        10
    } else {
        value / 10
    }
}

/// A gauge as text: a bracket, the filled cells, the empty cells, a
/// bracket.
pub open spec fn bar_text(value: int) -> Seq<char> {
    seq!['['] + Seq::new(filled_cells(value) as nat, |i: int| '█') + Seq::new(
        (10 - filled_cells(value)) as nat,
        |i: int| '░',
    ) + seq![']']
}

/// Draws a value as a gauge of ten cells.
pub fn bar(value: u8) -> (text: String)
    ensures
        text@ == bar_text(value as int),
{
    let tens = value / 10;
    let filled = if tens > BAR_CELLS {
        BAR_CELLS
    } else {
        tens
    };
    proof {
        reveal_strlit("[");
        reveal_strlit("]");
        reveal_strlit("█");
        reveal_strlit("░");
    }
    let mut text = String::from_str("[");
    let mut drawn: u8 = 0;
    while drawn < filled
        invariant
            drawn <= filled <= 10,
            "█"@ == seq!['█'],
            text@ == seq!['['] + Seq::new(drawn as nat, |i: int| '█'),
        decreases filled - drawn,
    {
        text.append("█");
        drawn = drawn + 1;
    }
    while drawn < BAR_CELLS
        invariant
            filled <= drawn <= 10,
            "░"@ == seq!['░'],
            text@ == seq!['['] + Seq::new(filled as nat, |i: int| '█') + Seq::new(
                (drawn - filled) as nat,
                |i: int| '░',
            ),
        decreases 10 - drawn,
    {
        text.append("░");
        drawn = drawn + 1;
    }
    text.append("]");
    text
}

/// The short warnings shown under the picture, one for each critical need,
/// hunger first, then happiness, then health.
pub open spec fn indicator_labels(needs: NeedsStatus) -> Seq<&'static str> {
    (if needs.hunger_critical {
        seq!["🍔 HUNGRY"]
    } else {
        seq![]
    }) + (if needs.happiness_critical {
        seq!["😢 SAD"]
    } else {
        seq![]
    }) + (if needs.health_critical {
        seq!["🤒 SICK"]
    } else {
        seq![]
    })
}

/// Lists the short warnings for the critical needs.
pub fn indicators(needs: NeedsStatus) -> (labels: Vec<&'static str>)
    ensures
        labels@ == indicator_labels(needs),
{
    let mut labels: Vec<&'static str> = Vec::new();
    if needs.hunger_critical {
        labels.push("🍔 HUNGRY");
    }
    if needs.happiness_critical {
        labels.push("😢 SAD");
    }
    if needs.health_critical {
        labels.push("🤒 SICK");
    }
    labels
}

/// The advice shown with the status table, one line for each critical
/// need, hunger first, then happiness, then health.
pub open spec fn advice_lines(needs: NeedsStatus) -> Seq<&'static str> {
    (if needs.hunger_critical {
        seq!["⚠️  HUNGRY! Feed your Tamagochi!"]
    } else {
        seq![]
    }) + (if needs.happiness_critical {
        seq!["⚠️  SAD! Play with your Tamagochi!"]
    } else {
        seq![]
    }) + (if needs.health_critical {
        seq!["⚠️  SICK! Give medicine!"]
    } else {
        seq![]
    })
}

/// Lists the advice for the critical needs.
pub fn advice(needs: NeedsStatus) -> (lines: Vec<&'static str>)
    ensures
        lines@ == advice_lines(needs),
{
    let mut lines: Vec<&'static str> = Vec::new();
    if needs.hunger_critical {
        lines.push("⚠️  HUNGRY! Feed your Tamagochi!");
    }
    if needs.happiness_critical {
        lines.push("⚠️  SAD! Play with your Tamagochi!");
    }
    if needs.health_critical {
        lines.push("⚠️  SICK! Give medicine!");
    }
    lines
}

} // verus!
