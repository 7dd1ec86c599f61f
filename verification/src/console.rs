//! The console handle's side of the protocol.
//!
//! The handle is what the caller's thread holds. It turns each call into the
//! message to send to the render loop, and keeps a snapshot of the latest input
//! that the loop forwarded. Whoever drives it owns the channels: it sends the
//! messages that the calls return, and hands over what arrived with `deliver`.

use vstd::prelude::*;
use vstd::string::*;
use crate::input::{holds_key_event, is_first_character, scan_for_character, scan_for_key};
use crate::input::{InputEvent, KeyCode, KeyState};
use crate::message::{ConsoleError, ConsoleInfo, InputSignal, RenderLoopMessage, Text};
use crate::{DEFAULT_FONT_PATH, DEFAULT_FONT_SIZE, LINE_PADDING};

verus! {

/// What a console handle is, to its contracts.
pub struct ConsoleState {
    /// The settings, as the render loop gets them when it starts.
    pub info: ConsoleInfo,
    /// Whether `init` has been called.
    pub started: bool,
    /// Whether an invalidate pulse has arrived since the last refresh.
    pub stale: bool,
    /// The batches that have arrived since the last refresh, oldest first.
    pub pending: Seq<Seq<InputEvent>>,
    /// The input snapshot that the queries read.
    pub cache: Seq<InputEvent>,
}

impl ConsoleState {
    /// A handle that has just been made with `info`.
    pub open spec fn created(info: ConsoleInfo) -> ConsoleState {
        ConsoleState {
            info,
            started: false,
            stale: false,
            pending: Seq::empty(),
            cache: Seq::empty(),
        }
    }

    /// The newest batch that has arrived since the last refresh; empty where
    /// none has.
    pub open spec fn newest(self) -> Seq<InputEvent> {
        if self.pending.len() == 0 {
            Seq::empty()
        } else {
            self.pending.last()
        }
    }

    /// The handle after a refresh of the input snapshot. Where a pulse is
    /// pending, the snapshot becomes the newest batch and older batches are
    /// dropped. Where none is, nothing changes.
    pub open spec fn refreshed(self) -> ConsoleState {
        if self.stale {
            ConsoleState { stale: false, pending: Seq::empty(), cache: self.newest(), ..self }
        } else {
            self
        }
    }

    /// The handle after a batch arrived.
    pub open spec fn with_batch(self, batch: Seq<InputEvent>) -> ConsoleState {
        ConsoleState { pending: self.pending.push(batch), ..self }
    }

    /// The handle after an invalidate pulse arrived.
    pub open spec fn with_pulse(self) -> ConsoleState {
        ConsoleState { stale: true, ..self }
    }

    /// The handle after `signal` arrived.
    pub open spec fn with_signal(self, signal: InputSignal) -> ConsoleState {
        match signal {
            InputSignal::Batch(batch) => self.with_batch(batch@),
            InputSignal::Invalidate => self.with_pulse(),
        }
    }
}

/// Height of a line of text at a font size: the size and the padding below it.
pub open spec fn line_height_of(font_size: u8) -> int {
    font_size + LINE_PADDING
}

/// A window onto which text can be drawn and through which input can be read.
pub struct Console {
    info: ConsoleInfo,
    started: bool,
    stale: bool,
    pending: Vec<Vec<InputEvent>>,
    input_cache: Vec<InputEvent>,
}

impl View for Console {
    type V = ConsoleState;

    closed spec fn view(&self) -> ConsoleState {
        ConsoleState {
            info: self.info,
            started: self.started,
            stale: self.stale,
            pending: self.pending@.map_values(|batch: Vec<InputEvent>| batch@),
            cache: self.input_cache@,
        }
    }
}

impl Console {
    /// Makes a handle with the bundled typeface at its usual size.
    pub fn new_with_default_typeface(width: u32, height: u32, title: &'static str) -> (console:
        Console)
        ensures
            console@ == ConsoleState::created(
                (ConsoleInfo {
                    width,
                    height,
                    title,
                    font_path: DEFAULT_FONT_PATH,
                    font_size: DEFAULT_FONT_SIZE,
                }),
            ),
    {
        Console::new(width, height, DEFAULT_FONT_PATH, title, DEFAULT_FONT_SIZE)
    }

    /// Makes a handle with a typeface and size of the caller's choice.
    pub fn new(
        width: u32,
        height: u32,
        font_path: &'static str,
        title: &'static str,
        font_size: u8,
    ) -> (console: Console)
        ensures
            console@ == ConsoleState::created(
                (ConsoleInfo { width, height, title, font_path, font_size }),
            ),
    {
        let console = Console {
            info: ConsoleInfo { width, height, title, font_path, font_size },
            started: false,
            stale: false,
            pending: Vec::new(),
            input_cache: Vec::new(),
        };
        assert(console@.pending =~= Seq::empty());
        console
    }

    /// Whether the handle is set to the bundled typeface, which has to be on
    /// disk at its usual path by the time the render loop starts.
    pub fn uses_default_typeface(&self) -> (bundled: bool)
        ensures
            bundled == (self@.info.font_path@ == DEFAULT_FONT_PATH@),
    {
        let chosen: String = String::from_str(self.info.font_path);
        let bundled: String = String::from_str(DEFAULT_FONT_PATH);
        chosen == bundled
    }

    /// Sets the font size. The render loop gets the size that is set when `init`
    /// is called.
    pub fn set_font_size(&mut self, font_size: u8)
        ensures
            final(self)@ == (ConsoleState {
                info: ConsoleInfo { font_size, ..old(self)@.info },
                ..old(self)@
            }),
    {
        self.info = ConsoleInfo {
            width: self.info.width,
            height: self.info.height,
            title: self.info.title,
            font_path: self.info.font_path,
            font_size,
        };
    }

    /// Height of a line of text: the font size and the padding below it.
    pub fn line_height(&self) -> (height: i32)
        ensures
            height == line_height_of(self@.info.font_size),
    {
        self.info.font_size as i32 + LINE_PADDING as i32
    }

    /// Marks the handle as started and gives the settings to start the render
    /// loop with. A handle starts once.
    pub fn init(&mut self) -> (snapshot: Result<ConsoleInfo, ConsoleError>)
        ensures
            old(self)@.started ==> snapshot == Err::<ConsoleInfo, ConsoleError>(
                ConsoleError::AlreadyInitialized,
            ) && final(self)@ == old(self)@,
            !old(self)@.started ==> snapshot == Ok::<ConsoleInfo, ConsoleError>(old(self)@.info)
                && final(self)@ == (ConsoleState { started: true, ..old(self)@ }),
    {
        if self.started {
            return Err(ConsoleError::AlreadyInitialized);
        }
        self.started = true;
        Ok(self.info)
    }

    /// The message to send to the render loop: `msg` itself once the handle has
    /// started, an error before.
    pub fn send_to_render_thread(&self, msg: RenderLoopMessage) -> (outgoing: Result<
        RenderLoopMessage,
        ConsoleError,
    >)
        ensures
            outgoing == if self@.started {
                Ok::<RenderLoopMessage, ConsoleError>(msg)
            } else {
                Err::<RenderLoopMessage, ConsoleError>(ConsoleError::NotInitialized)
            },
    {
        if self.started {
            Ok(msg)
        } else {
            Err(ConsoleError::NotInitialized)
        }
    }

    /// Draws `t` on the window: gives the message that adds it to the draw buffer.
    pub fn draw_text(&self, t: Text) -> (outgoing: Result<RenderLoopMessage, ConsoleError>)
        ensures
            outgoing == if self@.started {
                Ok::<RenderLoopMessage, ConsoleError>((RenderLoopMessage::Add { t }))
            } else {
                Err::<RenderLoopMessage, ConsoleError>(ConsoleError::NotInitialized)
            },
    {
        self.send_to_render_thread(RenderLoopMessage::Add { t })
    }

    /// Clears the window: gives the message that empties the draw buffer.
    pub fn clear(&self) -> (outgoing: Result<RenderLoopMessage, ConsoleError>)
        ensures
            outgoing == if self@.started {
                Ok::<RenderLoopMessage, ConsoleError>(RenderLoopMessage::Clear)
            } else {
                Err::<RenderLoopMessage, ConsoleError>(ConsoleError::NotInitialized)
            },
    {
        self.send_to_render_thread(RenderLoopMessage::Clear)
    }

    /// Ends the render loop: gives the message that stops it. Whether the message
    /// can still be sent does not matter to the caller.
    pub fn quit(&self) -> (outgoing: Result<RenderLoopMessage, ConsoleError>)
        ensures
            outgoing == if self@.started {
                Ok::<RenderLoopMessage, ConsoleError>(RenderLoopMessage::Quit)
            } else {
                Err::<RenderLoopMessage, ConsoleError>(ConsoleError::NotInitialized)
            },
    {
        self.send_to_render_thread(RenderLoopMessage::Quit)
    }

    /// Gives the message that asks the render loop whether it is still going.
    /// The answer goes to `is_alive`.
    pub fn live_check(&self) -> (outgoing: Result<RenderLoopMessage, ConsoleError>)
        ensures
            outgoing == if self@.started {
                Ok::<RenderLoopMessage, ConsoleError>(RenderLoopMessage::LiveCheck)
            } else {
                Err::<RenderLoopMessage, ConsoleError>(ConsoleError::NotInitialized)
            },
    {
        self.send_to_render_thread(RenderLoopMessage::LiveCheck)
    }

    /// Whether the render loop is still going, from its answer to a liveness
    /// check: `reply` is what came back, `None` where nothing did.
    pub fn is_alive(&self, reply: Option<bool>) -> (alive: Result<bool, ConsoleError>)
        ensures
            alive == if !self@.started {
                Err::<bool, ConsoleError>(ConsoleError::NotInitialized)
            } else {
                match reply {
                    Some(answer) => Ok::<bool, ConsoleError>(answer),
                    None => Err::<bool, ConsoleError>(ConsoleError::RenderThreadUnavailable),
                }
            },
    {
        self.check_render_thread_alive(reply)
    }

    /// Reads the render loop's answer to a liveness check.
    pub fn check_render_thread_alive(&self, reply: Option<bool>) -> (alive: Result<
        bool,
        ConsoleError,
    >)
        ensures
            alive == if !self@.started {
                Err::<bool, ConsoleError>(ConsoleError::NotInitialized)
            } else {
                match reply {
                    Some(answer) => Ok::<bool, ConsoleError>(answer),
                    None => Err::<bool, ConsoleError>(ConsoleError::RenderThreadUnavailable),
                }
            },
    {
        if !self.started {
            return Err(ConsoleError::NotInitialized);
        }
        match reply {
            Some(answer) => Ok(answer),
            None => Err(ConsoleError::RenderThreadUnavailable),
        }
    }

    /// Takes in what the render loop sent about input. Nothing can arrive before
    /// the handle has started.
    pub fn deliver(&mut self, signal: InputSignal) -> (taken: Result<(), ConsoleError>)
        ensures
            !old(self)@.started ==> taken == Err::<(), ConsoleError>(ConsoleError::NotInitialized)
                && final(self)@ == old(self)@,
            old(self)@.started ==> taken == Ok::<(), ConsoleError>(()) && final(self)@ == old(
                self,
            )@.with_signal(signal),
    {
        if !self.started {
            return Err(ConsoleError::NotInitialized);
        }
        match signal {
            InputSignal::Batch(batch) => {
                self.pending.push(batch);
                assert(self@.pending =~= old(self)@.pending.push(batch@));
            },
            InputSignal::Invalidate => {
                self.stale = true;
            },
        }
        Ok(())
    }

    /// Brings the input snapshot up to date. Where an invalidate pulse is
    /// pending, the snapshot is replaced by the newest batch that has arrived,
    /// or emptied where none has, and older batches are dropped. Where none is
    /// pending, the snapshot stays as it is.
    pub fn refresh_input_cache(&mut self)
        ensures
            final(self)@ == old(self)@.refreshed(),
    {
        if self.stale {
            self.stale = false;
            let newest: Option<Vec<InputEvent>> = self.pending.pop();
            self.pending.clear();
            self.input_cache = match newest {
                Some(batch) => batch,
                None => Vec::new(),
            };
            assert(self@.pending =~= Seq::empty());
        }
    }

    /// After a refresh of the input snapshot, tells whether it holds an event
    /// that reports that `key` went the way `state` says.
    pub fn check_keypress_input(&mut self, state: KeyState, key: KeyCode) -> (hit: Result<
        bool,
        ConsoleError,
    >)
        ensures
            !old(self)@.started ==> hit == Err::<bool, ConsoleError>(ConsoleError::NotInitialized)
                && final(self)@ == old(self)@,
            old(self)@.started ==> final(self)@ == old(self)@.refreshed() && hit == Ok::<
                bool,
                ConsoleError,
            >(holds_key_event(old(self)@.refreshed().cache, state, key)),
    {
        if !self.started {
            return Err(ConsoleError::NotInitialized);
        }
        self.refresh_input_cache();
        Ok(scan_for_key(&self.input_cache, state, key))
    }

    /// After a refresh of the input snapshot, gives the character of its first
    /// character-entry event.
    pub fn check_char_entered(&mut self) -> (entered: Result<Option<char>, ConsoleError>)
        ensures
            !old(self)@.started ==> entered == Err::<Option<char>, ConsoleError>(
                ConsoleError::NotInitialized,
            ) && final(self)@ == old(self)@,
            old(self)@.started ==> final(self)@ == old(self)@.refreshed() && (entered matches Ok(
                found,
            ) && is_first_character(old(self)@.refreshed().cache, found)),
    {
        if !self.started {
            return Err(ConsoleError::NotInitialized);
        }
        self.refresh_input_cache();
        Ok(scan_for_character(&self.input_cache))
    }

    /// Whether `key` is being pressed, by the newest input.
    pub fn key_pressed(&mut self, key: KeyCode) -> (hit: Result<bool, ConsoleError>)
        ensures
            !old(self)@.started ==> hit == Err::<bool, ConsoleError>(ConsoleError::NotInitialized)
                && final(self)@ == old(self)@,
            old(self)@.started ==> final(self)@ == old(self)@.refreshed() && hit == Ok::<
                bool,
                ConsoleError,
            >(holds_key_event(old(self)@.refreshed().cache, KeyState::Pressed, key)),
    {
        self.check_keypress_input(KeyState::Pressed, key)
    }

    /// Whether `key` is being released, by the newest input.
    pub fn key_released(&mut self, key: KeyCode) -> (hit: Result<bool, ConsoleError>)
        ensures
            !old(self)@.started ==> hit == Err::<bool, ConsoleError>(ConsoleError::NotInitialized)
                && final(self)@ == old(self)@,
            old(self)@.started ==> final(self)@ == old(self)@.refreshed() && hit == Ok::<
                bool,
                ConsoleError,
            >(holds_key_event(old(self)@.refreshed().cache, KeyState::Released, key)),
    {
        self.check_keypress_input(KeyState::Released, key)
    }

    /// The character that was typed, by the newest input, if one was.
    pub fn char_entered(&mut self) -> (entered: Result<Option<char>, ConsoleError>)
        ensures
            !old(self)@.started ==> entered == Err::<Option<char>, ConsoleError>(
                ConsoleError::NotInitialized,
            ) && final(self)@ == old(self)@,
            old(self)@.started ==> final(self)@ == old(self)@.refreshed() && (entered matches Ok(
                found,
            ) && is_first_character(old(self)@.refreshed().cache, found)),
    {
        self.check_char_entered()
    }
}

} // verus!
