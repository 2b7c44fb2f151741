//! The core of a live terminal viewer for link-layer frames: the log that the
//! capture side feeds through a channel, and the navigation state machine of
//! the display (selection, scroll offset, jump command).

pub mod app;
pub mod channel;
pub mod laws;
pub mod list;
pub mod sniffer;
pub mod state;
pub mod text;
pub mod ui;

pub use app::App;
pub use list::StateList;
pub use state::{Flow, InputMode, Key, NavState, Popup};
