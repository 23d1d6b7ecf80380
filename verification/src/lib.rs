//! Overlay and hotkey helper: the verified core.
//!
//! The library holds the logic of a desktop overlay tool: building the
//! key-event sequences that a synthetic-input injector submits, the table of
//! global hotkey bindings, the visibility state machine that ties the hotkey
//! thread to the UI thread, and the per-pixel geometry and color computation
//! of the animated rainbow border. The platform calls themselves (input
//! injection, window creation, the event loop) live outside the library and
//! hand it plain values.

pub mod border;
pub mod color;
pub mod hotkeys;
pub mod input;
pub mod visibility;
