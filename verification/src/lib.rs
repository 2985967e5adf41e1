//! The logic of a terminal client: what it sends, what it shows, and what it
//! decides, as verified functions from plain values to plain values.

pub mod ci_bar;
pub mod clipboard_cleanup;
pub mod clipboard_dialog;
pub mod color;
pub mod command_palette;
pub mod config;
pub mod context_menu;
pub mod dial;
pub mod dialog;
pub mod dialog_grid;
pub mod disallowed_scheme_dialog;
pub mod divider;
pub mod fonts;
pub mod gpui_image_lifecycle;
pub mod gpui_image_spike;
pub mod hook_setup;
pub mod input;
pub mod ipc_bridge;
pub mod ipc_client;
pub mod keybindings;
pub mod lan;
pub mod lan_dial;
pub mod path;
pub mod protocol;
pub mod remote_link;
pub mod server_connect;
pub mod server_process;
pub mod text;
