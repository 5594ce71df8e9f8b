//! Verified core of a native Ghostty terminal component and an embedded
//! Neovim editor: input encoding, key mapping, surface visibility decisions,
//! terminal and Neovim command construction, and the remote-request retry
//! policy.

pub mod input;
pub mod keymap;
pub mod neovim;
pub mod surface;
pub mod terminal;
pub mod text;
pub mod wakeup;

pub use input::{
    modifiers, scroll_flags, KeyAction, KeyModifiers, Modifiers, MouseButton, MouseState,
    PointerButton,
};
pub use keymap::mac_keycode;
pub use neovim::{
    error_detail, nvim_command, open_file_expression, remote_command, server_unavailable,
    shell_quote, socket_file_name, AfterAttempt, AttemptResult, BeforeAttempt, NvimOptions,
    NvimSession, RemoteCommand, RemoteRequest, RemoteRetry, StreamSetup,
};
pub use surface::{follow_focus, NativeFrame, NativeSurfaceState, SurfaceCommand, TerminalSurface};
pub use terminal::{
    key_dispatch, key_down, key_up, validate_spawn, ClipboardWrite, KeyDispatch, KeyEvent,
    Keystroke, TerminalColor, TerminalConfiguration, TerminalOptions, TerminalTheme,
};
pub use wakeup::NativeWakeup;
