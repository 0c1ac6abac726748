use vstd::prelude::*;

verus! {

/// The key of a keyboard event, as far as the application tells keys apart.
#[derive(Clone, Copy, PartialEq, Eq, Structural, Debug)]
pub enum Key {
    /// A key that types a character.
    Char(char),
    /// The escape key.
    Esc,
    /// Any other key.
    Other,
}

/// A keyboard event.
#[derive(Clone, Copy, PartialEq, Eq, Structural, Debug)]
pub struct KeyInput {
    /// The key.
    pub key: Key,
    /// Whether the key went down (rather than repeating or going up).
    pub pressed: bool,
    /// Whether the control modifier was held.
    pub control: bool,
}

/// Whether `input` asks the application to quit: a press of `q`, of escape,
/// or of `c` with control held.
pub open spec fn asks_to_quit(input: KeyInput) -> bool {
    &&& input.pressed
    &&& match input.key {
        Key::Char(c) => c == 'q' || (c == 'c' && input.control),
        Key::Esc => true,
        Key::Other => false,
    }
}

/// Exactly three key presses quit: `q`, escape, and `c` with control held.
/// A key that is not pressed never quits, nor does any other key, whatever
/// the modifiers.
pub proof fn lemma_only_three_keys_quit(input: KeyInput)
    ensures
        asks_to_quit(input) <==> input.pressed && (input.key == Key::Char('q') || input.key
            == Key::Esc || (input.key == Key::Char('c') && input.control)),
        input.key == Key::Other ==> !asks_to_quit(input),
        !input.pressed ==> !asks_to_quit(input),
{
}

/// Whether `input` asks the application to quit.
pub fn should_quit(input: &KeyInput) -> (quit: bool)
    ensures
        quit == asks_to_quit(*input),
{
    if !input.pressed {
        return false;
    }
    match input.key {
        Key::Char(c) => c == 'q' || (c == 'c' && input.control),
        Key::Esc => true,
        Key::Other => false,
    }
}

} // verus!
