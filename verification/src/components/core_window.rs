use vstd::prelude::*;
use vstd::string::StringExecFns;
use tokio::sync::mpsc::UnboundedSender;
use crate::action::Action;
use crate::area::Area;
use crate::components::component::Component;
use crate::event::{Event, KeyCode, KeyModifiers};

verus! {

/// A key press that asks the application to quit: a bare `q`, or `c` with
/// only the control modifier held.
pub open spec fn spec_is_quit_key(code: KeyCode, mods: KeyModifiers) -> bool {
    match code {
        KeyCode::Char(c) => (c == 'q' && !mods.ctrl && !mods.alt && !mods.shift) || (c == 'c'
            && mods.ctrl && !mods.alt && !mods.shift),
        _ => false,
    }
}

pub fn is_quit_key(code: KeyCode, mods: KeyModifiers) -> (r: bool)
    ensures
        r == spec_is_quit_key(code, mods),
{
    let no_mods = !mods.ctrl && !mods.alt && !mods.shift;
    let ctrl_only = mods.ctrl && !mods.alt && !mods.shift;
    match code {
        KeyCode::Char(c) => (c == 'q' && no_mods) || (c == 'c' && ctrl_only),
        _ => false,
    }
}

/// The interactive body of the dashboard: the only region raw input reaches.
/// It turns events into actions and tracks its own layout inputs.
pub struct CoreWindow {
    /// The window's title.
    pub name: String,
    /// The component's handle for enqueueing actions from background work.
    pub command_tx: Option<UnboundedSender<Action>>,
    /// Whether the body renders condensed.
    pub small_area: bool,
    /// Whether the body is the current input target.
    pub focused: bool,
    /// The latest terminal area the body laid itself out for.
    pub area: Area,
    /// The last raw input routed to the body.
    pub last_event: Option<Event>,
}

impl CoreWindow {
    pub fn new() -> (r: CoreWindow)
        ensures
            r.name@ == Seq::<char>::empty(),
            r.command_tx is None,
            !r.small_area,
            !r.focused,
            r.area == (Area { x: 0u16, y: 0u16, width: 0u16, height: 0u16 }),
            r.last_event is None,
    {
        CoreWindow {
            name: String::new(),
            command_tx: None,
            small_area: false,
            focused: false,
            area: Area::zero(),
            last_event: None,
        }
    }

    pub fn with_name(self, name: &str) -> (r: CoreWindow)
        ensures
            r.name@ == name@,
            r.command_tx == self.command_tx,
            r.small_area == self.small_area,
            r.focused == self.focused,
            r.area == self.area,
            r.last_event == self.last_event,
    {
        CoreWindow { name: String::from_str(name), ..self }
    }
}

impl Component for CoreWindow {
    /// A new terminal area is recorded for the body's internal layout, a
    /// quit key press proposes `Quit`, anything else is ignored.
    open spec fn spec_update(self, action: Action) -> (CoreWindow, Option<Action>) {
        match action {
            Action::UpdateArea(area) => (CoreWindow { area, ..self }, None),
            Action::Key(code, mods) => if spec_is_quit_key(code, mods) {
                (self, Some(Action::Quit))
            } else {
                (self, None)
            },
            _ => (self, None),
        }
    }

    /// A key press becomes a key action, a resize becomes an area update,
    /// anything else produces nothing. The event is recorded either way.
    open spec fn spec_handle_events(self, event: Option<Event>) -> (CoreWindow, Option<Action>) {
        let next = CoreWindow { last_event: event, ..self };
        match event {
            Some(Event::Key(code, mods)) => (next, Some(Action::Key(code, mods))),
            Some(Event::Resize(width, height)) => (
                next,
                Some(Action::UpdateArea(Area { x: 0u16, y: 0u16, width, height })),
            ),
            _ => (next, None),
        }
    }

    open spec fn spec_with_focus(self, focused: bool) -> CoreWindow {
        CoreWindow { focused, ..self }
    }

    open spec fn spec_with_small_area(self, small_area: bool) -> CoreWindow {
        CoreWindow { small_area, ..self }
    }

    open spec fn has_action_handler(self) -> bool {
        self.command_tx is Some
    }

    open spec fn eq_except_sender(self, other: CoreWindow) -> bool {
        self.name == other.name && self.small_area == other.small_area
            && self.focused == other.focused && self.area == other.area
            && self.last_event == other.last_event
    }

    open spec fn spec_register(self, tx: UnboundedSender<Action>) -> CoreWindow {
        CoreWindow { command_tx: Some(tx), ..self }
    }

    fn register_action_handler(&mut self, tx: UnboundedSender<Action>) {
        self.command_tx = Some(tx);
    }

    fn update(&mut self, action: Action) -> (r: Option<Action>) {
        match action {
            Action::UpdateArea(area) => {
                self.area = area;
                None
            },
            Action::Key(code, mods) => {
                if is_quit_key(code, mods) {
                    Some(Action::Quit)
                } else {
                    None
                }
            },
            _ => None,
        }
    }

    fn handle_events(&mut self, event: Option<Event>) -> (r: Option<Action>) {
        self.last_event = event;
        match event {
            Some(Event::Key(code, mods)) => Some(Action::Key(code, mods)),
            Some(Event::Resize(width, height)) => Some(
                Action::UpdateArea(Area { x: 0, y: 0, width, height }),
            ),
            _ => None,
        }
    }

    fn focus(&mut self) {
        self.focused = true;
    }

    fn unfocus(&mut self) {
        self.focused = false;
    }

    fn with_small_area(&mut self, small_area: bool) {
        self.small_area = small_area;
    }
}

impl Default for CoreWindow {
    fn default() -> (r: CoreWindow)
        ensures
            r.name@ == Seq::<char>::empty(),
            r.command_tx is None,
            !r.small_area,
            !r.focused,
            r.area == (Area { x: 0u16, y: 0u16, width: 0u16, height: 0u16 }),
            r.last_event is None,
    {
        CoreWindow::new()
    }
}

} // verus!
