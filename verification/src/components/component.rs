use vstd::prelude::*;
use tokio::sync::mpsc::UnboundedSender;
use crate::action::Action;
use crate::event::Event;

verus! {

/// The capability contract every screen region satisfies, so the shell can
/// treat title bar, core window and status bar uniformly. Each component
/// defines the spec functions that pin its behaviour down, and its
/// executable methods must match them exactly.
pub trait Component: Sized {
    /// The component after a broadcast action, paired with its optional
    /// follow-up action.
    spec fn spec_update(self, action: Action) -> (Self, Option<Action>);

    /// The component after a routed raw input event, paired with the action
    /// the event turns into.
    spec fn spec_handle_events(self, event: Option<Event>) -> (Self, Option<Action>);

    /// The component with its focus flag set as given.
    spec fn spec_with_focus(self, focused: bool) -> Self;

    /// The component with its small-area flag set as given.
    spec fn spec_with_small_area(self, small_area: bool) -> Self;

    /// Whether the component holds a sending handle into the action channel.
    spec fn has_action_handler(self) -> bool;

    /// Everything observable about the component except its sending handle.
    spec fn eq_except_sender(self, other: Self) -> bool;

    /// The component holding exactly the given handle, everything else as it
    /// was.
    spec fn spec_register(self, tx: UnboundedSender<Action>) -> Self;

    /// Keep the given handle for enqueueing actions from background work.
    /// Idempotent: a second handle replaces the first.
    fn register_action_handler(&mut self, tx: UnboundedSender<Action>)
        ensures
            *final(self) == old(self).spec_register(tx),
            final(self).has_action_handler(),
            old(self).eq_except_sender(*final(self)),
    ;

    /// Apply a broadcast action. Must be safe with any action, including
    /// ones the component does not recognise.
    fn update(&mut self, action: Action) -> (r: Option<Action>)
        ensures
            *final(self) == old(self).spec_update(action).0,
            r == old(self).spec_update(action).1,
    ;

    /// Take one routed raw input event. Only the shell's event router calls
    /// this, and only on the input-bearing component.
    fn handle_events(&mut self, event: Option<Event>) -> (r: Option<Action>)
        ensures
            *final(self) == old(self).spec_handle_events(event).0,
            r == old(self).spec_handle_events(event).1,
    ;

    /// Mark the component as the input target.
    fn focus(&mut self)
        ensures
            *final(self) == old(self).spec_with_focus(true),
    ;

    /// Clear the component's input-target mark.
    fn unfocus(&mut self)
        ensures
            *final(self) == old(self).spec_with_focus(false),
    ;

    /// Switch the component's condensed rendering on or off.
    fn with_small_area(&mut self, small_area: bool)
        ensures
            *final(self) == old(self).spec_with_small_area(small_area),
    ;
}

} // verus!
