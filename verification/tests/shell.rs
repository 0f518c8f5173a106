use tgt::action::Action;
use tgt::app_error::AppError;
use tgt::area::Area;
use tgt::component_name::ComponentName;
use tgt::components::component::Component;
use tgt::config::AppConfig;
use tgt::event::{Event, KeyCode, KeyModifiers};
use tgt::tui::Tui;
use tokio::sync::mpsc::unbounded_channel;

fn shell() -> Tui {
    Tui::new(AppConfig::default())
}

#[test]
fn construction_populates_the_registry() {
    let t = shell();
    assert_eq!(t.registry.title_bar.name, "Tgt");
    assert_eq!(t.registry.core_window.name, "CoreWindow");
    assert_eq!(t.registry.status_bar.name, "Status Bar");
    assert!(t.focused.is_none());
    assert!(t.action_tx.is_none());
    assert!(t.registry.core_window.command_tx.is_none());
    assert_eq!(t.registry.status_bar.last_key, Event::Unknown);
}

#[test]
fn default_config_enables_everything() {
    let c = AppConfig::default();
    assert!(c.mouse_support);
    assert!(c.paste_support);
    assert!(c.show_title_bar);
    assert!(c.show_status_bar);
    let t = Tui::default();
    assert!(t.focused.is_none());
    assert!(t.app_config.show_title_bar);
}

#[test]
fn focus_then_unfocus_ends_unfocused() {
    for name in [
        ComponentName::TitleBar,
        ComponentName::CoreWindow,
        ComponentName::StatusBar,
    ] {
        let mut t = shell();
        let _ = t.update(Action::FocusComponent(name));
        assert_eq!(t.focused, Some(name));
        let _ = t.update(Action::UnfocusComponent);
        assert_eq!(t.focused, None);
    }
}

#[test]
fn broadcast_reaches_every_component() {
    let mut t = shell();
    let follow = t.update(Action::UpdateArea(Area::new(0, 0, 80, 25)));
    // Both the footer's recorded size and the body's internal layout moved.
    assert_eq!(t.registry.status_bar.terminal_area, Area::new(0, 0, 80, 25));
    assert_eq!(t.registry.core_window.area, Area::new(0, 0, 80, 25));
    assert_eq!(follow, None);
}

#[test]
fn dispatch_returns_the_producers_reply() {
    let mut t = shell();
    let quit_key = Action::Key(KeyCode::Char('q'), KeyModifiers::none());
    let follow = t.update(quit_key);
    // The core window proposed Quit, and the status bar still observed the key.
    assert_eq!(follow, Some(Action::Quit));
    assert_eq!(
        t.registry.status_bar.last_key,
        Event::Key(KeyCode::Char('q'), KeyModifiers::none())
    );
}

#[test]
fn ctrl_c_proposes_quit_and_plain_keys_do_not() {
    let mut t = shell();
    let ctrl_c = Action::Key(KeyCode::Char('c'), KeyModifiers::with_ctrl());
    assert_eq!(t.update(ctrl_c), Some(Action::Quit));
    let plain_c = Action::Key(KeyCode::Char('c'), KeyModifiers::none());
    assert_eq!(t.update(plain_c), None);
    let esc = Action::Key(KeyCode::Esc, KeyModifiers::none());
    assert_eq!(t.update(esc), None);
}

#[test]
fn events_reach_only_the_core_window() {
    let mut t = shell();
    let event = Event::Key(KeyCode::Char('x'), KeyModifiers::none());
    let action = t.handle_events(Some(event));
    assert_eq!(action, Some(Action::Key(KeyCode::Char('x'), KeyModifiers::none())));
    // The body recorded the event; no other component's state changed.
    assert_eq!(t.registry.core_window.last_event, Some(event));
    assert_eq!(t.registry.status_bar.last_key, Event::Unknown);
    assert_eq!(t.registry.status_bar.terminal_area, Area::new(0, 0, 0, 0));
    assert!(!t.registry.title_bar.focused);
    assert!(!t.registry.title_bar.small_area);
    assert_eq!(t.registry.title_bar.name, "Tgt");
    assert_eq!(t.focused, None);
}

#[test]
fn resize_event_becomes_an_area_action() {
    let mut t = shell();
    let action = t.handle_events(Some(Event::Resize(120, 40)));
    assert_eq!(action, Some(Action::UpdateArea(Area::new(0, 0, 120, 40))));
    let none = t.handle_events(None);
    assert_eq!(none, None);
    let unknown = t.handle_events(Some(Event::Unknown));
    assert_eq!(unknown, None);
}

#[test]
fn prepare_draw_updates_size_flag_and_regions() {
    let mut t = shell();
    let regions = t.prepare_draw(Area::new(0, 0, 100, 30));
    assert_eq!(regions.header, Area::new(0, 0, 100, 3));
    assert_eq!(regions.body, Area::new(0, 3, 100, 24));
    assert_eq!(regions.footer, Area::new(0, 27, 100, 3));
    assert_eq!(t.registry.status_bar.terminal_area, Area::new(0, 0, 100, 30));
    assert!(!t.registry.core_window.small_area);
}

#[test]
fn small_width_sets_the_small_area_flag() {
    let mut t = shell();
    let regions = t.prepare_draw(Area::new(0, 0, 40, 10));
    assert!(t.registry.core_window.small_area);
    assert_eq!(regions.header.height, 0);
    assert_eq!(regions.footer.height, 0);
    assert_eq!(regions.body, Area::new(0, 0, 40, 10));
    // One column below the threshold keeps the flag, the threshold clears it.
    let _ = t.prepare_draw(Area::new(0, 0, 59, 30));
    assert!(t.registry.core_window.small_area);
    let _ = t.prepare_draw(Area::new(0, 0, 60, 30));
    assert!(!t.registry.core_window.small_area);
}

#[test]
fn registering_on_a_closed_channel_fails() {
    let (tx, rx) = unbounded_channel::<Action>();
    drop(rx);
    let mut t = shell();
    let r = t.register_action_handler(tx);
    assert_eq!(r, Err(AppError::ChannelClosed));
    // The shell was left untouched.
    assert!(t.action_tx.is_none());
    assert!(t.registry.title_bar.command_tx.is_none());
    assert!(t.registry.core_window.command_tx.is_none());
    assert!(t.registry.status_bar.command_tx.is_none());
}

#[test]
fn registering_hands_every_component_a_live_sender() {
    let (tx, mut rx) = unbounded_channel::<Action>();
    let mut t = shell();
    let r = t.register_action_handler(tx);
    assert_eq!(r, Ok(()));
    assert!(t.action_tx.is_some());
    // Each component got a clone into the same channel: an action a
    // component enqueues from background work reaches the shell's receiver.
    t.registry
        .core_window
        .command_tx
        .as_ref()
        .unwrap()
        .send(Action::Quit)
        .unwrap();
    t.registry
        .status_bar
        .command_tx
        .as_ref()
        .unwrap()
        .send(Action::UnfocusComponent)
        .unwrap();
    assert_eq!(rx.try_recv(), Ok(Action::Quit));
    assert_eq!(rx.try_recv(), Ok(Action::UnfocusComponent));
    assert!(rx.try_recv().is_err());
}

#[test]
fn focus_capability_toggles_components() {
    let mut t = shell();
    t.registry.status_bar.focus();
    assert!(t.registry.status_bar.focused);
    t.registry.status_bar.unfocus();
    assert!(!t.registry.status_bar.focused);
    t.registry.core_window.with_small_area(true);
    assert!(t.registry.core_window.small_area);
    t.registry.core_window.with_small_area(false);
    assert!(!t.registry.core_window.small_area);
}

#[test]
fn event_to_action_pipeline_round_trip() {
    // One full tick: raw input, event routing, broadcast, follow-up.
    let mut t = shell();
    let event = Event::Key(KeyCode::Char('q'), KeyModifiers::none());
    let mut next = t.handle_events(Some(event));
    let mut last = None;
    while let Some(action) = next {
        last = Some(action);
        next = t.update(action);
    }
    assert_eq!(last, Some(Action::Quit));
    assert_eq!(
        t.registry.status_bar.last_key,
        Event::Key(KeyCode::Char('q'), KeyModifiers::none())
    );
}
