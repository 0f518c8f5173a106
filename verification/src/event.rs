use vstd::prelude::*;

verus! {

/// Modifier keys held together with a key press.
#[derive(Clone, Copy, PartialEq, Eq, Structural, Debug)]
pub struct KeyModifiers {
    pub ctrl: bool,
    pub alt: bool,
    pub shift: bool,
}

impl KeyModifiers {
    /// No modifier held.
    pub fn none() -> (r: KeyModifiers)
        ensures
            r == (KeyModifiers { ctrl: false, alt: false, shift: false }),
    {
        KeyModifiers { ctrl: false, alt: false, shift: false }
    }

    pub fn with_ctrl() -> (r: KeyModifiers)
        ensures
            r == (KeyModifiers { ctrl: true, alt: false, shift: false }),
    {
        KeyModifiers { ctrl: true, alt: false, shift: false }
    }
}

/// The key that a press names.
#[derive(Clone, Copy, PartialEq, Eq, Structural, Debug)]
pub enum KeyCode {
    Char(char),
    Enter,
    Esc,
    Backspace,
    /// Any key the shell does not name individually, carried by its raw code.
    Other(u16),
}

/// Raw terminal input, read-only once produced. Input is delivered only to
/// the single input-bearing region, never broadcast.
#[derive(Clone, Copy, PartialEq, Eq, Structural, Debug)]
pub enum Event {
    /// A key press together with the modifiers held.
    Key(KeyCode, KeyModifiers),
    /// The terminal was resized to the given width and height.
    Resize(u16, u16),
    /// Input the shell cannot interpret.
    Unknown,
}

} // verus!
