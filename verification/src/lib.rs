//! Orchestration shell for a terminal dashboard.
//!
//! The shell owns a fixed set of screen-region components (title bar, core
//! window, status bar), routes raw terminal input into an internal action
//! protocol, broadcasts state-changing actions to every component, tracks
//! which component holds input focus, and computes an adaptive vertical
//! layout from the terminal area and the configuration flags.

pub mod app_error;
pub mod area;
pub mod action;
pub mod channel;
pub mod component_name;
pub mod components;
pub mod config;
pub mod dispatch;
pub mod event;
pub mod layout;
pub mod tui;
