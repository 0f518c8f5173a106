use vstd::prelude::*;
use crate::area::Area;
use crate::component_name::ComponentName;
use crate::event::{KeyCode, KeyModifiers};

verus! {

/// An internal message describing a requested state change. Actions are
/// immutable and broadcast by value to every component, regardless of
/// relevance; a component ignores the ones it does not recognise.
#[derive(Clone, Copy, PartialEq, Eq, Structural, Debug)]
pub enum Action {
    /// Give input focus to the named component.
    FocusComponent(ComponentName),
    /// Clear input focus.
    UnfocusComponent,
    /// Record the latest known terminal area.
    UpdateArea(Area),
    /// A key press, as the event router turned it out of raw input.
    Key(KeyCode, KeyModifiers),
    /// Ask the driver to shut the application down.
    Quit,
}

} // verus!
