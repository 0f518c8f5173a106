use vstd::prelude::*;
use vstd::string::StringExecFns;
use tokio::sync::mpsc::UnboundedSender;
use crate::action::Action;
use crate::area::Area;
use crate::components::component::Component;
use crate::event::Event;

verus! {

/// The chrome row at the bottom of the screen. It shows the terminal size
/// and the last key pressed, so it records both from broadcast actions.
pub struct StatusBar {
    /// The title shown on the row's border.
    pub name: String,
    /// The component's handle for enqueueing actions from background work.
    pub command_tx: Option<UnboundedSender<Action>>,
    /// Whether the row renders condensed.
    pub small_area: bool,
    /// Whether the row is the current input target.
    pub focused: bool,
    /// The terminal area whose size the row reports.
    pub terminal_area: Area,
    /// The last key press the row saw, rendered for the user.
    pub last_key: Event,
}

impl StatusBar {
    pub fn new() -> (r: StatusBar)
        ensures
            r.name@ == Seq::<char>::empty(),
            r.command_tx is None,
            !r.small_area,
            !r.focused,
            r.terminal_area == (Area { x: 0u16, y: 0u16, width: 0u16, height: 0u16 }),
            r.last_key == Event::Unknown,
    {
        StatusBar {
            name: String::new(),
            command_tx: None,
            small_area: false,
            focused: false,
            terminal_area: Area::zero(),
            last_key: Event::Unknown,
        }
    }

    pub fn with_name(self, name: &str) -> (r: StatusBar)
        ensures
            r.name@ == name@,
            r.command_tx == self.command_tx,
            r.small_area == self.small_area,
            r.focused == self.focused,
            r.terminal_area == self.terminal_area,
            r.last_key == self.last_key,
    {
        StatusBar { name: String::from_str(name), ..self }
    }
}

impl Component for StatusBar {
    /// The status bar records the terminal area and the last key press,
    /// ignores everything else, and never proposes a follow-up.
    open spec fn spec_update(self, action: Action) -> (StatusBar, Option<Action>) {
        match action {
            Action::UpdateArea(area) => (StatusBar { terminal_area: area, ..self }, None),
            Action::Key(code, mods) => (
                StatusBar { last_key: Event::Key(code, mods), ..self },
                None,
            ),
            _ => (self, None),
        }
    }

    /// The status bar receives no input.
    open spec fn spec_handle_events(self, event: Option<Event>) -> (StatusBar, Option<Action>) {
        (self, None)
    }

    open spec fn spec_with_focus(self, focused: bool) -> StatusBar {
        StatusBar { focused, ..self }
    }

    open spec fn spec_with_small_area(self, small_area: bool) -> StatusBar {
        StatusBar { small_area, ..self }
    }

    open spec fn has_action_handler(self) -> bool {
        self.command_tx is Some
    }

    open spec fn eq_except_sender(self, other: StatusBar) -> bool {
        self.name == other.name && self.small_area == other.small_area
            && self.focused == other.focused && self.terminal_area == other.terminal_area
            && self.last_key == other.last_key
    }

    open spec fn spec_register(self, tx: UnboundedSender<Action>) -> StatusBar {
        StatusBar { command_tx: Some(tx), ..self }
    }

    fn register_action_handler(&mut self, tx: UnboundedSender<Action>) {
        self.command_tx = Some(tx);
    }

    fn update(&mut self, action: Action) -> (r: Option<Action>) {
        match action {
            Action::UpdateArea(area) => {
                self.terminal_area = area;
            },
            Action::Key(code, mods) => {
                self.last_key = Event::Key(code, mods);
            },
            _ => {},
        }
        None
    }

    fn handle_events(&mut self, event: Option<Event>) -> (r: Option<Action>) {
        None
    }

    fn focus(&mut self) {
        self.focused = true;
    }

    fn unfocus(&mut self) {
        self.focused = false;
    }

    fn with_small_area(&mut self, small_area: bool) {
        self.small_area = small_area;
    }
}

impl Default for StatusBar {
    fn default() -> (r: StatusBar)
        ensures
            r.name@ == Seq::<char>::empty(),
            r.command_tx is None,
            !r.small_area,
            !r.focused,
            r.terminal_area == (Area { x: 0u16, y: 0u16, width: 0u16, height: 0u16 }),
            r.last_key == Event::Unknown,
    {
        StatusBar::new()
    }
}

} // verus!
