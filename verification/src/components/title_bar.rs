use vstd::prelude::*;
use vstd::string::StringExecFns;
use tokio::sync::mpsc::UnboundedSender;
use crate::action::Action;
use crate::components::component::Component;
use crate::event::Event;

verus! {

/// The chrome row at the top of the screen. It renders a title, receives no
/// input, and reacts to no action: every update leaves it unchanged and
/// proposes nothing.
pub struct TitleBar {
    /// The title shown in the row.
    pub name: String,
    /// The component's handle for enqueueing actions from background work.
    pub command_tx: Option<UnboundedSender<Action>>,
    /// Whether the row renders condensed.
    pub small_area: bool,
    /// Whether the row is the current input target.
    pub focused: bool,
}

impl TitleBar {
    pub fn new() -> (r: TitleBar)
        ensures
            r.name@ == Seq::<char>::empty(),
            r.command_tx is None,
            !r.small_area,
            !r.focused,
    {
        TitleBar { name: String::new(), command_tx: None, small_area: false, focused: false }
    }

    pub fn with_name(self, name: &str) -> (r: TitleBar)
        ensures
            r.name@ == name@,
            r.command_tx == self.command_tx,
            r.small_area == self.small_area,
            r.focused == self.focused,
    {
        TitleBar { name: String::from_str(name), ..self }
    }
}

impl Component for TitleBar {
    /// The title bar recognises no action.
    open spec fn spec_update(self, action: Action) -> (TitleBar, Option<Action>) {
        (self, None)
    }

    /// The title bar receives no input.
    open spec fn spec_handle_events(self, event: Option<Event>) -> (TitleBar, Option<Action>) {
        (self, None)
    }

    open spec fn spec_with_focus(self, focused: bool) -> TitleBar {
        TitleBar { focused, ..self }
    }

    open spec fn spec_with_small_area(self, small_area: bool) -> TitleBar {
        TitleBar { small_area, ..self }
    }

    open spec fn has_action_handler(self) -> bool {
        self.command_tx is Some
    }

    open spec fn eq_except_sender(self, other: TitleBar) -> bool {
        self.name == other.name && self.small_area == other.small_area
            && self.focused == other.focused
    }

    open spec fn spec_register(self, tx: UnboundedSender<Action>) -> TitleBar {
        TitleBar { command_tx: Some(tx), ..self }
    }

    fn register_action_handler(&mut self, tx: UnboundedSender<Action>) {
        self.command_tx = Some(tx);
    }

    fn update(&mut self, action: Action) -> (r: Option<Action>) {
        None
    }

    fn handle_events(&mut self, event: Option<Event>) -> (r: Option<Action>) {
        None
    }

    fn focus(&mut self) {
        self.focused = true;
    }

    fn unfocus(&mut self) {
        self.focused = false;
    }

    fn with_small_area(&mut self, small_area: bool) {
        self.small_area = small_area;
    }
}

impl Default for TitleBar {
    fn default() -> (r: TitleBar)
        ensures
            r.name@ == Seq::<char>::empty(),
            r.command_tx is None,
            !r.small_area,
            !r.focused,
    {
        TitleBar::new()
    }
}

} // verus!
