//! Backend core of a remote-desktop-control service: decoding of mouse and
//! keyboard commands into host input events, the registry of remote-control
//! sessions, and the packaging of display snapshots.
//!
//! The library decides and computes; it performs no input injection and
//! acquires no pixels itself. An input command is turned into a
//! [`dispatch::Dispatch`]: the host events to perform and the answer to give.
//! A capture is handed in as raw pixels and handed back encoded.

pub mod capture;
pub mod dispatch;
pub mod error;
pub mod host;
pub mod input;
pub mod keyboard;
pub mod mouse;
pub mod session;
pub mod system;
pub mod text;

pub use crate::capture::{capture_screen, ScreenshotResponse};
pub use crate::keyboard::{execute_keyboard_command, KeyboardCommand};
pub use crate::mouse::{execute_mouse_command, MouseCommand};
pub use crate::session::{
    create_remote_session, end_remote_session, get_session_status, RemoteSession,
};
pub use crate::system::get_system_info;
