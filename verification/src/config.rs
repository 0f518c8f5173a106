use vstd::prelude::*;

verus! {

/// The configuration flags the shell reads. The chrome flags decide whether
/// the title bar and the status bar may take rows from the terminal area.
#[derive(Clone, Copy, PartialEq, Eq, Structural, Debug)]
pub struct AppConfig {
    /// Whether the terminal reports mouse input to the application.
    pub mouse_support: bool,
    /// Whether the terminal reports bracketed paste to the application.
    pub paste_support: bool,
    /// Whether the title bar may be shown.
    pub show_title_bar: bool,
    /// Whether the status bar may be shown.
    pub show_status_bar: bool,
}

impl Default for AppConfig {
    /// Every capability is switched on by default.
    fn default() -> (r: AppConfig)
        ensures
            r == (AppConfig {
                mouse_support: true,
                paste_support: true,
                show_title_bar: true,
                show_status_bar: true,
            }),
    {
        AppConfig { mouse_support: true, paste_support: true, show_title_bar: true, show_status_bar: true }
    }
}

} // verus!
