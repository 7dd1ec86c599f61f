//! A text console over a window, as a pair of protocol endpoints.
//!
//! The console handle lives on the caller's thread and the render loop on a thread
//! of its own; the two talk only by values passed over channels. This crate holds
//! both endpoints as state machines: each takes what arrived and says what to send,
//! so that the whole protocol is checked, while the window, the channels and the
//! clock stay with the caller.

use vstd::prelude::*;

pub mod colors;
pub mod console;
pub mod console_laws;
pub mod input;
pub mod message;
pub mod render_loop;
pub mod render_laws;
pub mod ui;

pub use crate::console::Console;
pub use crate::input::{InputEvent, KeyCode, KeyState};
pub use crate::message::{ConsoleError, ConsoleInfo, InputSignal, RenderLoopMessage, Text};
pub use crate::render_loop::RenderLoop;

verus! {

/// Where the bundled typeface is kept.
pub const DEFAULT_FONT_PATH: &'static str = "fonts/MorePerfectDOSVGA.ttf";

/// Font size of a console made with the bundled typeface.
pub const DEFAULT_FONT_SIZE: u8 = 16;

/// Milliseconds that the render loop rests between two ticks.
pub const RENDER_LOOP_DELAY: u64 = 10;

/// Extra vertical space, in pixels, below each line of text.
pub const LINE_PADDING: u8 = 2;

} // verus!
