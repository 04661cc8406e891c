//! Window-lifecycle and tray-state coordination for a tray-resident desktop shell.
//!
//! Every decision the shell makes is taken here, on plain values: which window
//! to build or to bring forward, what a close request turns into, which icon and
//! tooltip a badge count shows, and what a menu entry does. The host toolkit
//! performs the effects that these functions ask for.

pub mod lifecycle;
pub mod menu;
pub mod script;
pub mod text;
pub mod tray;
pub mod window;

pub use lifecycle::{CloseDecision, OpenStep, Request, WindowRegistry, WindowState};
pub use menu::{menu_command, route, tray_click_action, Command, MenuAction};
pub use script::{
    backend_url, base_init, chat_init_script, init_script, settings_init_script,
    world_init_script, zen_init_script,
};
pub use tray::{badge_icon, tooltip, BadgeError, BadgeIcon, BadgeUpdate, TrayBadgeController};
pub use window::{window_spec, window_url, ContentSource, WindowName, WindowSpec};
