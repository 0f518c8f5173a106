use vstd::prelude::*;

verus! {

/// The errors the shell can surface to its driver.
#[derive(Clone, Copy, PartialEq, Eq, Structural, Debug)]
pub enum AppError {
    /// The action channel's receiving end was already gone when a sender was
    /// registered: a fatal configuration error, surfaced at startup.
    ChannelClosed,
}

} // verus!
