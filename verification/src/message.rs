//! What crosses between the console handle and the render loop.

use vstd::prelude::*;
use crate::colors::Color;
use crate::input::InputEvent;

verus! {

/// A piece of text to show on the console window.
#[derive(Clone, Debug)]
pub struct Text {
    pub content: String,
    pub pos_x: i32,
    pub pos_y: i32,
    pub color: Color,
}

/// What the console handle asks of the render loop. Messages are applied in the
/// order in which they were sent.
#[derive(Debug)]
pub enum RenderLoopMessage {
    /// Append a text to the draw buffer.
    Add { t: Text },
    /// Empty the draw buffer.
    Clear,
    /// Stop the loop.
    Quit,
    /// Say whether the loop is still going.
    LiveCheck,
}

/// What the render loop tells the console handle about input, once per tick.
#[derive(Debug)]
pub enum InputSignal {
    /// The events of one tick, none of them a close request, at least one of them.
    Batch(Vec<InputEvent>),
    /// Whatever input snapshot the handle holds is stale from this tick on.
    Invalidate,
}

/// Why a call on the console handle did not go through.
#[derive(Clone, Copy, Debug, PartialEq, Eq, Structural)]
pub enum ConsoleError {
    /// The call needs a running render loop and `init` has not been called.
    NotInitialized,
    /// `init` was called a second time.
    AlreadyInitialized,
    /// The render loop gave no answer: its thread is gone.
    RenderThreadUnavailable,
}

/// The settings of a console, as handed to the render loop when it starts.
#[derive(Clone, Copy, Debug)]
pub struct ConsoleInfo {
    pub width: u32,
    pub height: u32,
    pub title: &'static str,
    pub font_path: &'static str,
    pub font_size: u8,
}

} // verus!
