use vstd::prelude::*;

use crate::lights::{all_lights, LightId, Lights, OnOff};
use crate::log::{level_label, LogLevel};
use crate::text::decimal;

verus! {

/// The colours the simulator draws with.
#[derive(Clone, Copy, PartialEq, Eq, Structural, Debug)]
pub enum DisplayColor {
    Green,
    DarkGray,
    Red,
    Yellow,
    Cyan,
    Blue,
    Magenta,
}

/// The colour of a light's box: green when on, dark gray when off.
pub open spec fn state_color(state: OnOff) -> DisplayColor {
    match state {
        OnOff::On => DisplayColor::Green,
        OnOff::Off => DisplayColor::DarkGray,
    }
}

/// The colour of a log entry's tag: red, yellow, cyan, blue and magenta from
/// the most severe level to the least.
pub open spec fn level_color(level: LogLevel) -> DisplayColor {
    match level {
        LogLevel::Error => DisplayColor::Red,
        LogLevel::Warn => DisplayColor::Yellow,
        LogLevel::Info => DisplayColor::Cyan,
        LogLevel::Debug => DisplayColor::Blue,
        LogLevel::Trace => DisplayColor::Magenta,
    }
}

impl LogLevel {
    /// The colour of the tag shown before a log entry of this level.
    pub fn color(&self) -> (c: DisplayColor)
        ensures
            c == level_color(*self),
    {
        match self {
            LogLevel::Error => DisplayColor::Red,
            LogLevel::Warn => DisplayColor::Yellow,
            LogLevel::Info => DisplayColor::Cyan,
            LogLevel::Debug => DisplayColor::Blue,
            LogLevel::Trace => DisplayColor::Magenta,
        }
    }
}

/// The caption shown for a light's state in its box.
pub open spec fn state_label(state: OnOff) -> Seq<char> {
    match state {
        OnOff::On => "  ON  "@,
        OnOff::Off => " OFF  "@,
    }
}

/// The name shown above a light's box.
pub open spec fn light_name(light_id: LightId) -> Seq<char> {
    match light_id {
        LightId::One => "Light 1"@,
        LightId::Two => "Light 2"@,
        LightId::Three => "Light 3"@,
        LightId::Four => "Light 4"@,
        LightId::Five => "Light 5"@,
    }
}

/// Each light is named `Light ` followed by its number, counting from one,
/// so no two lights share a name.
pub proof fn lemma_light_names_number_the_lights(a: LightId, b: LightId)
    ensures
        light_name(a) == "Light "@ + decimal(a.ordinal() + 1),
        a != b ==> light_name(a) != light_name(b),
{
    reveal_strlit("Light ");
    reveal_strlit("Light 1");
    reveal_strlit("Light 2");
    reveal_strlit("Light 3");
    reveal_strlit("Light 4");
    reveal_strlit("Light 5");
    assert(decimal(1) == seq!['1']);
    assert(decimal(2) == seq!['2']);
    assert(decimal(3) == seq!['3']);
    assert(decimal(4) == seq!['4']);
    assert(decimal(5) == seq!['5']);
    assert(light_name(a) =~= "Light "@ + decimal(a.ordinal() + 1));
    assert(light_name(b) =~= "Light "@ + decimal(b.ordinal() + 1));
    if a != b {
        assert(light_name(a)[6] != light_name(b)[6]);
    }
}

/// The two states are told apart on screen: their captions and colours
/// differ, each caption is six characters wide and names the state.
pub proof fn lemma_state_display_distinct()
    ensures
        state_label(OnOff::On) != state_label(OnOff::Off),
        state_color(OnOff::On) != state_color(OnOff::Off),
        state_label(OnOff::On).len() == 6,
        state_label(OnOff::Off).len() == 6,
        state_label(OnOff::On).subrange(2, 4) == "ON"@,
        state_label(OnOff::Off).subrange(1, 4) == "OFF"@,
{
    reveal_strlit("  ON  ");
    reveal_strlit(" OFF  ");
    reveal_strlit("ON");
    reveal_strlit("OFF");
    assert(state_label(OnOff::On).subrange(2, 4) =~= "ON"@);
    assert(state_label(OnOff::Off).subrange(1, 4) =~= "OFF"@);
    assert(state_label(OnOff::On)[1] != state_label(OnOff::Off)[1]);
}

/// The five log levels are told apart on screen: no two share a tag or a
/// colour, and every tag is five characters wide.
pub proof fn lemma_level_display_distinct(a: LogLevel, b: LogLevel)
    ensures
        level_label(a).len() == 5,
        a != b ==> level_label(a) != level_label(b),
        a != b ==> level_color(a) != level_color(b),
{
    reveal_strlit("ERROR");
    reveal_strlit("WARN ");
    reveal_strlit("INFO ");
    reveal_strlit("DEBUG");
    reveal_strlit("TRACE");
    if a != b {
        assert(level_label(a)[0] != level_label(b)[0] || level_label(a)[1] != level_label(b)[1]);
    }
}

impl OnOff {
    /// The colour of a light's box in this state.
    pub fn color(&self) -> (c: DisplayColor)
        ensures
            c == state_color(*self),
    {
        match self {
            OnOff::On => DisplayColor::Green,
            OnOff::Off => DisplayColor::DarkGray,
        }
    }

    /// The caption shown for this state in a light's box.
    pub fn label(&self) -> (s: &'static str)
        ensures
            s@ == state_label(*self),
    {
        match self {
            OnOff::On => "  ON  ",
            OnOff::Off => " OFF  ",
        }
    }
}

impl LightId {
    /// The name shown above this light's box.
    pub fn name(&self) -> (s: &'static str)
        ensures
            s@ == light_name(*self),
    {
        match self {
            LightId::One => "Light 1",
            LightId::Two => "Light 2",
            LightId::Three => "Light 3",
            LightId::Four => "Light 4",
            LightId::Five => "Light 5",
        }
    }
}

/// The states of all five lights, in the order of `LightId::all`, each read
/// once, from `One` to `Five`.
pub fn light_states<L: Lights>(lights: &L) -> (states: [OnOff; 5])
    ensures
        forall|i: int| 0 <= i < 5 ==> #[trigger] states@[i] == lights.light_state(all_lights()[i]),
{
    [
        lights.get_state(LightId::One),
        lights.get_state(LightId::Two),
        lights.get_state(LightId::Three),
        lights.get_state(LightId::Four),
        lights.get_state(LightId::Five),
    ]
}

} // verus!
