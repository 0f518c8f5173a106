use vstd::prelude::*;

verus! {

/// The identity of a screen region. The shell owns exactly one component per
/// identity, so every `ComponentName` is always a valid registry key.
#[derive(Clone, Copy, PartialEq, Eq, Structural, Debug, Hash, PartialOrd, Ord)]
pub enum ComponentName {
    /// The chrome row at the top of the screen.
    TitleBar,
    /// The interactive body of the dashboard; the only input-bearing region.
    CoreWindow,
    /// The chrome row at the bottom of the screen.
    StatusBar,
}

} // verus!
