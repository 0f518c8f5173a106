pub mod component;
pub mod core_window;
pub mod status_bar;
pub mod title_bar;
