//! Core state-management engine for a multi-pane log viewer: record
//! collections with overlapping-page merge, pagination cursors, search
//! conditions, focus routing over a fixed pool of worker lanes, and the
//! decision logic of the background fetch and tail actors.

pub mod app;
pub mod clock;
pub mod event;
pub mod event_area;
pub mod handlers;
pub mod keymap;
pub mod loader;
pub mod logevents;
pub mod logevents_state;
pub mod loggroups;
pub mod loggroups_state;
pub mod records;
pub mod search_condition_dialog;
pub mod search_info;
pub mod search_state;
pub mod side_menu;
pub mod status_bar_state;
pub mod textbox;
pub mod utils;

pub use status_bar_state::StatusBarState;
