//! Editor-shell logic of the SideX code editor: tab groups, command-line
//! parsing, clipboard history, menus, titles, translations, telemetry
//! policy, test-output parsing and related state machines.

use vstd::prelude::*;

pub mod paths;
pub mod clock;
pub mod text;
pub mod editor_group;
pub mod cli;
pub mod cli_laws;
pub mod clipboard;
pub mod title_bar;
pub mod window_manager;
pub mod status_bar_controller;
pub mod status_bar_laws;
pub mod app;
pub mod telemetry;
pub mod test_runner;
pub mod test_output_laws;
pub mod i18n;
pub mod quick_open;
pub mod command_palette;
pub mod symbol_navigation;
pub mod logging;
pub mod native;
pub mod platform;
pub mod product;
pub mod updater;
pub mod startup;
pub mod recent;
pub mod performance;
pub mod input;
pub mod backup;
pub mod crash_reporter;
pub mod session;
pub mod layout;
pub mod document_state;
pub mod event_bus;
pub mod tauri_bridge;
pub mod native_menu;
pub mod commands;
pub mod fuzzy;
pub mod navigation;
pub mod position;
pub mod editor_view;
