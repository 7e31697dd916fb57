//! The buttons of a game controller and their stable symbolic names.
//!
//! Bindings are stored as text, so every button has exactly one name, and a
//! name can be turned back into the button it denotes.

use vstd::prelude::*;

verus! {

/// A digital button of a game controller.
#[derive(Clone, Copy, Debug, PartialEq, Eq, Structural)]
pub enum Button {
    South,
    East,
    North,
    West,
    C,
    Z,
    LeftTrigger,
    LeftTrigger2,
    RightTrigger,
    RightTrigger2,
    Select,
    Start,
    Mode,
    LeftThumb,
    RightThumb,
    DPadUp,
    DPadDown,
    DPadLeft,
    DPadRight,
    Unknown,
}

impl Button {
    /// The symbolic name of the button.
    pub open spec fn name(self) -> Seq<char> {
        match self {
            Button::South => "South"@,
            Button::East => "East"@,
            Button::North => "North"@,
            Button::West => "West"@,
            Button::C => "C"@,
            Button::Z => "Z"@,
            Button::LeftTrigger => "LeftTrigger"@,
            Button::LeftTrigger2 => "LeftTrigger2"@,
            Button::RightTrigger => "RightTrigger"@,
            Button::RightTrigger2 => "RightTrigger2"@,
            Button::Select => "Select"@,
            Button::Start => "Start"@,
            Button::Mode => "Mode"@,
            Button::LeftThumb => "LeftThumb"@,
            Button::RightThumb => "RightThumb"@,
            Button::DPadUp => "DPadUp"@,
            Button::DPadDown => "DPadDown"@,
            Button::DPadLeft => "DPadLeft"@,
            Button::DPadRight => "DPadRight"@,
            Button::Unknown => "Unknown"@,
        }
    }
}

/// The button that a held-state query by `name` asks about. Only the nineteen
/// identified buttons can be queried: `"Unknown"` and any other text name no
/// button.
pub open spec fn button_named(name: Seq<char>) -> Option<Button> {
    if name == "South"@ {
        Some(Button::South)
    } else if name == "East"@ {
        Some(Button::East)
    } else if name == "North"@ {
        Some(Button::North)
    } else if name == "West"@ {
        Some(Button::West)
    } else if name == "C"@ {
        Some(Button::C)
    } else if name == "Z"@ {
        Some(Button::Z)
    } else if name == "LeftTrigger"@ {
        Some(Button::LeftTrigger)
    } else if name == "LeftTrigger2"@ {
        Some(Button::LeftTrigger2)
    } else if name == "RightTrigger"@ {
        Some(Button::RightTrigger)
    } else if name == "RightTrigger2"@ {
        Some(Button::RightTrigger2)
    } else if name == "Select"@ {
        Some(Button::Select)
    } else if name == "Start"@ {
        Some(Button::Start)
    } else if name == "Mode"@ {
        Some(Button::Mode)
    } else if name == "LeftThumb"@ {
        Some(Button::LeftThumb)
    } else if name == "RightThumb"@ {
        Some(Button::RightThumb)
    } else if name == "DPadUp"@ {
        Some(Button::DPadUp)
    } else if name == "DPadDown"@ {
        Some(Button::DPadDown)
    } else if name == "DPadLeft"@ {
        Some(Button::DPadLeft)
    } else if name == "DPadRight"@ {
        Some(Button::DPadRight)
    } else {
        None
    }
}

/// Whether two pieces of text are the same sequence of characters.
pub fn same_text(a: &str, b: &str) -> (same: bool)
    ensures
        same == (a@ == b@),
{
    let left = a.to_owned();
    let right = b.to_owned();
    left == right
}

/// The symbolic name of `button`, as bindings store it.
pub fn button_to_string(button: Button) -> (name: String)
    ensures
        name@ == button.name(),
{
    match button {
        Button::South => "South".to_owned(),
        Button::East => "East".to_owned(),
        Button::North => "North".to_owned(),
        Button::West => "West".to_owned(),
        Button::C => "C".to_owned(),
        Button::Z => "Z".to_owned(),
        Button::LeftTrigger => "LeftTrigger".to_owned(),
        Button::LeftTrigger2 => "LeftTrigger2".to_owned(),
        Button::RightTrigger => "RightTrigger".to_owned(),
        Button::RightTrigger2 => "RightTrigger2".to_owned(),
        Button::Select => "Select".to_owned(),
        Button::Start => "Start".to_owned(),
        Button::Mode => "Mode".to_owned(),
        Button::LeftThumb => "LeftThumb".to_owned(),
        Button::RightThumb => "RightThumb".to_owned(),
        Button::DPadUp => "DPadUp".to_owned(),
        Button::DPadDown => "DPadDown".to_owned(),
        Button::DPadLeft => "DPadLeft".to_owned(),
        Button::DPadRight => "DPadRight".to_owned(),
        Button::Unknown => "Unknown".to_owned(),
    }
}

/// The button that `name` denotes in a held-state query, if it denotes one.
pub fn button_from_name(name: &str) -> (button: Option<Button>)
    ensures
        button == button_named(name@),
{
    if same_text(name, "South") {
        Some(Button::South)
    } else if same_text(name, "East") {
        Some(Button::East)
    } else if same_text(name, "North") {
        Some(Button::North)
    } else if same_text(name, "West") {
        Some(Button::West)
    } else if same_text(name, "C") {
        Some(Button::C)
    } else if same_text(name, "Z") {
        Some(Button::Z)
    } else if same_text(name, "LeftTrigger") {
        Some(Button::LeftTrigger)
    } else if same_text(name, "LeftTrigger2") {
        Some(Button::LeftTrigger2)
    } else if same_text(name, "RightTrigger") {
        Some(Button::RightTrigger)
    } else if same_text(name, "RightTrigger2") {
        Some(Button::RightTrigger2)
    } else if same_text(name, "Select") {
        Some(Button::Select)
    } else if same_text(name, "Start") {
        Some(Button::Start)
    } else if same_text(name, "Mode") {
        Some(Button::Mode)
    } else if same_text(name, "LeftThumb") {
        Some(Button::LeftThumb)
    } else if same_text(name, "RightThumb") {
        Some(Button::RightThumb)
    } else if same_text(name, "DPadUp") {
        Some(Button::DPadUp)
    } else if same_text(name, "DPadDown") {
        Some(Button::DPadDown)
    } else if same_text(name, "DPadLeft") {
        Some(Button::DPadLeft)
    } else if same_text(name, "DPadRight") {
        Some(Button::DPadRight)
    } else {
        None
    }
}

/// Whether `held` lists `button`.
pub fn is_held(held: &Vec<Button>, button: Button) -> (found: bool)
    ensures
        found == held@.contains(button),
{
    let mut i: usize = 0;
    while i < held.len()
        invariant
            i <= held.len(),
            forall|j: int| 0 <= j < i ==> held@[j] != button,
        decreases held.len() - i,
    {
        if held[i] == button {
            return true;
        }
        i += 1;
    }
    false
}

/// Whether the button that `button_name` denotes is among the buttons that the
/// controller currently reports as held. A name that denotes no button is never
/// held.
pub fn button_matches(held: &Vec<Button>, button_name: &str) -> (pressed: bool)
    ensures
        pressed == match button_named(button_name@) {
            Some(button) => held@.contains(button),
            None => false,
        },
{
    match button_from_name(button_name) {
        Some(button) => is_held(held, button),
        None => false,
    }
}

/// The length of each name and the characters that tell names of one length
/// apart.
proof fn lemma_name_shapes()
    ensures
        "South"@.len() == 5 && "South"@[0] == 'S' && "South"@[1] == 'o',
        "East"@.len() == 4 && "East"@[0] == 'E',
        "North"@.len() == 5 && "North"@[0] == 'N',
        "West"@.len() == 4 && "West"@[0] == 'W',
        "C"@.len() == 1 && "C"@[0] == 'C',
        "Z"@.len() == 1 && "Z"@[0] == 'Z',
        "LeftTrigger"@.len() == 11,
        "LeftTrigger2"@.len() == 12 && "LeftTrigger2"@[0] == 'L',
        "RightTrigger"@.len() == 12 && "RightTrigger"@[0] == 'R',
        "RightTrigger2"@.len() == 13,
        "Select"@.len() == 6 && "Select"@[0] == 'S',
        "Start"@.len() == 5 && "Start"@[0] == 'S' && "Start"@[1] == 't',
        "Mode"@.len() == 4 && "Mode"@[0] == 'M',
        "LeftThumb"@.len() == 9 && "LeftThumb"@[0] == 'L',
        "RightThumb"@.len() == 10,
        "DPadUp"@.len() == 6 && "DPadUp"@[0] == 'D',
        "DPadDown"@.len() == 8 && "DPadDown"@[4] == 'D',
        "DPadLeft"@.len() == 8 && "DPadLeft"@[4] == 'L',
        "DPadRight"@.len() == 9 && "DPadRight"@[0] == 'D',
        "Unknown"@.len() == 7,
{
    reveal_strlit("South");
    reveal_strlit("East");
    reveal_strlit("North");
    reveal_strlit("West");
    reveal_strlit("C");
    reveal_strlit("Z");
    reveal_strlit("LeftTrigger");
    reveal_strlit("LeftTrigger2");
    reveal_strlit("RightTrigger");
    reveal_strlit("RightTrigger2");
    reveal_strlit("Select");
    reveal_strlit("Start");
    reveal_strlit("Mode");
    reveal_strlit("LeftThumb");
    reveal_strlit("RightThumb");
    reveal_strlit("DPadUp");
    reveal_strlit("DPadDown");
    reveal_strlit("DPadLeft");
    reveal_strlit("DPadRight");
    reveal_strlit("Unknown");
}

/// Every identified button is found again by its own name, and `Unknown` is
/// not: its name denotes no button in a held-state query.
pub proof fn lemma_name_round_trip(button: Button)
    ensures
        button_named(button.name()) == if button == Button::Unknown {
            None
        } else {
            Some(button)
        },
{
    lemma_name_shapes();
}

/// Two buttons have the same name only if they are the same button.
pub proof fn lemma_names_are_distinct(a: Button, b: Button)
    ensures
        a.name() == b.name() <==> a == b,
{
    lemma_name_shapes();
}

} // verus!
