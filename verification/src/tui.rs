use vstd::prelude::*;
use tokio::sync::mpsc::UnboundedSender;
use crate::action::Action;
use crate::app_error::AppError;
use crate::area::Area;
use crate::channel::{clone_sender, sender_is_closed};
use crate::component_name::ComponentName;
use crate::components::component::Component;
use crate::components::core_window::CoreWindow;
use crate::components::status_bar::StatusBar;
use crate::components::title_bar::TitleBar;
use crate::config::AppConfig;
use crate::dispatch::fold_replies;
use crate::event::Event;
use crate::layout::{compute_regions, spec_regions, LayoutRegions, SMALL_AREA_WIDTH};

verus! {

/// The fixed component registry: exactly one component per identity, fully
/// populated at construction and never resized, so a missing component is
/// statically impossible. Broadcasts visit the fields in declaration order:
/// title bar, core window, status bar.
pub struct ComponentRegistry {
    pub title_bar: TitleBar,
    pub core_window: CoreWindow,
    pub status_bar: StatusBar,
}

/// How one action moves the focus state: a focus request always lands on its
/// target, an unfocus request always clears it, and no other action touches
/// focus. Every `ComponentName` names a live registry entry, so no focus
/// request can name a missing component.
pub open spec fn spec_focus_step(
    focused: Option<ComponentName>,
    action: Action,
) -> Option<ComponentName> {
    match action {
        Action::FocusComponent(name) => Some(name),
        Action::UnfocusComponent => None,
        _ => focused,
    }
}

/// Focusing any identity and then unfocusing ends with nothing focused,
/// whatever was focused before.
pub proof fn lemma_focus_unfocus_ends_unfocused(focused: Option<ComponentName>, x: ComponentName)
    ensures
        spec_focus_step(
            spec_focus_step(focused, Action::FocusComponent(x)),
            Action::UnfocusComponent,
        ) is None,
{
}

/// The orchestration shell: it owns the components, routes raw input to the
/// body only, broadcasts actions to every component, tracks focus, and
/// computes the frame layout.
pub struct Tui {
    /// The shell's own handle for enqueueing actions.
    pub action_tx: Option<UnboundedSender<Action>>,
    /// The components, one per identity.
    pub registry: ComponentRegistry,
    /// The configuration flags the shell reads.
    pub app_config: AppConfig,
    /// The identity that currently owns input focus, if any.
    pub focused: Option<ComponentName>,
}

impl Tui {
    /// Build the shell with its full component set and nothing focused.
    pub fn new(app_config: AppConfig) -> (r: Tui)
        ensures
            r.action_tx is None,
            r.focused is None,
            r.app_config == app_config,
            r.registry.title_bar.name@ == "Tgt"@,
            r.registry.title_bar.command_tx is None,
            !r.registry.title_bar.small_area,
            !r.registry.title_bar.focused,
            r.registry.core_window.name@ == "CoreWindow"@,
            r.registry.core_window.command_tx is None,
            !r.registry.core_window.small_area,
            !r.registry.core_window.focused,
            r.registry.core_window.area == (Area { x: 0u16, y: 0u16, width: 0u16, height: 0u16 }),
            r.registry.core_window.last_event is None,
            r.registry.status_bar.name@ == "Status Bar"@,
            r.registry.status_bar.command_tx is None,
            !r.registry.status_bar.small_area,
            !r.registry.status_bar.focused,
            r.registry.status_bar.terminal_area == (Area {
                x: 0u16,
                y: 0u16,
                width: 0u16,
                height: 0u16,
            }),
            r.registry.status_bar.last_key == Event::Unknown,
    {
        let registry = ComponentRegistry {
            title_bar: TitleBar::new().with_name("Tgt"),
            core_window: CoreWindow::new().with_name("CoreWindow"),
            status_bar: StatusBar::new().with_name("Status Bar"),
        };
        Tui { action_tx: None, registry, app_config, focused: None }
    }

    /// Hand every component, and the shell itself, a sending handle into the
    /// action channel. A channel whose receiving end is already gone is a
    /// fatal configuration error, surfaced at once and not retried; in that
    /// case the shell is left untouched.
    pub fn register_action_handler(&mut self, tx: UnboundedSender<Action>) -> (r: Result<
        (),
        AppError,
    >)
        ensures
            r is Err ==> *final(self) == *old(self) && r == Err::<(), AppError>(
                AppError::ChannelClosed,
            ),
            r is Ok ==> final(self).action_tx == Some(tx)
                && final(self).registry.title_bar.command_tx is Some
                && final(self).registry.core_window.command_tx is Some
                && final(self).registry.status_bar.command_tx is Some
                && old(self).registry.title_bar.eq_except_sender(final(self).registry.title_bar)
                && old(self).registry.core_window.eq_except_sender(
                final(self).registry.core_window,
            )
                && old(self).registry.status_bar.eq_except_sender(final(self).registry.status_bar)
                && final(self).focused == old(self).focused
                && final(self).app_config == old(self).app_config,
    {
        if sender_is_closed(&tx) {
            return Err(AppError::ChannelClosed);
        }
        let tx_title = clone_sender(&tx);
        let tx_core = clone_sender(&tx);
        let tx_status = clone_sender(&tx);
        self.registry.title_bar.register_action_handler(tx_title);
        self.registry.core_window.register_action_handler(tx_core);
        self.registry.status_bar.register_action_handler(tx_status);
        self.action_tx = Some(tx);
        Ok(())
    }

    /// Route one raw input event. Input is single-destination: only the body
    /// sees it, and no other component's state can change.
    pub fn handle_events(&mut self, event: Option<Event>) -> (r: Option<Action>)
        ensures
            final(self).registry.core_window == old(self).registry.core_window.spec_handle_events(
                event,
            ).0,
            r == old(self).registry.core_window.spec_handle_events(event).1,
            final(self).registry.title_bar == old(self).registry.title_bar,
            final(self).registry.status_bar == old(self).registry.status_bar,
            final(self).focused == old(self).focused,
            final(self).action_tx == old(self).action_tx,
            final(self).app_config == old(self).app_config,
    {
        self.registry.core_window.handle_events(event)
    }

    /// Broadcast one action to every component, in registry order, and fold
    /// the replies: every component observes the action, and the reply of
    /// the last producer is returned. Focus actions also move the shell's
    /// focus state first.
    pub fn update(&mut self, action: Action) -> (r: Option<Action>)
        ensures
            final(self).focused == spec_focus_step(old(self).focused, action),
            final(self).registry.title_bar == old(self).registry.title_bar.spec_update(action).0,
            final(self).registry.core_window == old(self).registry.core_window.spec_update(
                action,
            ).0,
            final(self).registry.status_bar == old(self).registry.status_bar.spec_update(action).0,
            r == fold_replies(
                seq![
                    old(self).registry.title_bar.spec_update(action).1,
                    old(self).registry.core_window.spec_update(action).1,
                    old(self).registry.status_bar.spec_update(action).1,
                ],
            ),
            final(self).action_tx == old(self).action_tx,
            final(self).app_config == old(self).app_config,
    {
        match action {
            Action::FocusComponent(name) => {
                self.focused = Some(name);
            },
            Action::UnfocusComponent => {
                self.focused = None;
            },
            _ => {},
        }
        let r1 = self.registry.title_bar.update(action);
        let r2 = self.registry.core_window.update(action);
        let r3 = self.registry.status_bar.update(action);
        let mut acc: Option<Action> = None;
        if r1.is_some() {
            acc = r1;
        }
        if r2.is_some() {
            acc = r2;
        }
        if r3.is_some() {
            acc = r3;
        }
        proof {
            crate::dispatch::lemma_fold_replies_three(
                old(self).registry.title_bar.spec_update(action).1,
                old(self).registry.core_window.spec_update(action).1,
                old(self).registry.status_bar.spec_update(action).1,
            );
        }
        acc
    }

    /// Prepare one frame: record the terminal area with the status bar,
    /// propagate the small-area flag to the body, and cut the area into the
    /// header, body and footer regions that the driver paints in that order.
    pub fn prepare_draw(&mut self, area: Area) -> (r: LayoutRegions)
        requires
            area.wf(),
        ensures
            r == spec_regions(
                area,
                old(self).app_config.show_title_bar,
                old(self).app_config.show_status_bar,
            ),
            final(self).registry.status_bar == old(self).registry.status_bar.spec_update(
                Action::UpdateArea(area),
            ).0,
            final(self).registry.core_window == (CoreWindow {
                small_area: area.width < SMALL_AREA_WIDTH,
                ..old(self).registry.core_window
            }),
            final(self).registry.title_bar == old(self).registry.title_bar,
            final(self).focused == old(self).focused,
            final(self).action_tx == old(self).action_tx,
            final(self).app_config == old(self).app_config,
    {
        let _ = self.registry.status_bar.update(Action::UpdateArea(area));
        self.registry.core_window.with_small_area(area.width < SMALL_AREA_WIDTH);
        compute_regions(area, self.app_config.show_title_bar, self.app_config.show_status_bar)
    }
}

impl Default for Tui {
    /// The shell under the default configuration, with nothing registered
    /// and nothing focused.
    fn default() -> (r: Tui)
        ensures
            r.action_tx is None,
            r.focused is None,
            r.app_config == (AppConfig {
                mouse_support: true,
                paste_support: true,
                show_title_bar: true,
                show_status_bar: true,
            }),
            r.registry.title_bar.name@ == "Tgt"@,
            r.registry.core_window.name@ == "CoreWindow"@,
            r.registry.status_bar.name@ == "Status Bar"@,
            r.registry.title_bar.command_tx is None,
            r.registry.core_window.command_tx is None,
            r.registry.status_bar.command_tx is None,
            !r.registry.core_window.small_area,
            r.registry.core_window.last_event is None,
            r.registry.status_bar.last_key == Event::Unknown,
    {
        Tui::new(AppConfig::default())
    }
}

} // verus!
