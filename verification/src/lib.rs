//! Core logic of the BetterPanely workbench: settings, localisation, the
//! thumbnail registry, drag-capture bookkeeping, window listing rules and
//! tray-menu decisions, each stated and proved with Verus.

pub mod text;
pub mod locales;
pub mod settings;
pub mod settings_flow;
pub mod hotkeys;
pub mod tools;
pub mod tray;
pub mod thumbnail;
pub mod windows_list;
pub mod workbench;
pub mod drag_monitor;
pub mod drag_hook;
pub mod layout;
pub mod panels;
pub mod embedder;

