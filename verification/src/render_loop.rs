//! The render loop's side of the protocol.
//!
//! The loop owns the draw buffer. Each tick it is handed what the window polled and
//! what the console handle sent, and says what to forward and what to answer. The
//! window, the channels and the clock belong to whoever drives it: poll, hand the
//! events to `poll_input` and send what it returns; drain the message channel, hand
//! the messages to `apply_messages` and send its replies; draw `text_buffer`; rest
//! for the tick delay; then call `finish_tick` and send the farewell if there is one.

use vstd::prelude::*;
use crate::input::InputEvent;
use crate::message::{ConsoleInfo, InputSignal, RenderLoopMessage, Text};

verus! {

/// Index of the first close request of `events` at or after `i`, or the length of
/// `events` where there is none.
pub open spec fn close_from(events: Seq<InputEvent>, i: int) -> int
    decreases events.len() - i,
{
    if i < 0 || i >= events.len() || events[i] is Closed {
        i
    } else {
        close_from(events, i + 1)
    }
}

/// Index of the first close request of `events`, or their number where there is none.
pub open spec fn close_index(events: Seq<InputEvent>) -> int {
    close_from(events, 0)
}

/// Whether `events` hold a close request.
pub open spec fn saw_close(events: Seq<InputEvent>) -> bool {
    close_index(events) < events.len()
}

/// The events of one tick that go to the console handle: those before the first
/// close request.
pub open spec fn forwarded(events: Seq<InputEvent>) -> Seq<InputEvent> {
    events.take(close_index(events))
}

/// Whether `signals` is what one tick sends about `batch`: the batch itself if it is
/// not empty, then one invalidate pulse.
pub open spec fn announces(signals: Seq<InputSignal>, batch: Seq<InputEvent>) -> bool {
    if batch.len() == 0 {
        signals.len() == 1 && signals[0] is Invalidate
    } else {
        &&& signals.len() == 2
        &&& signals[0] matches InputSignal::Batch(sent) && sent@ == batch
        &&& signals[1] is Invalidate
    }
}

/// What a render loop is, to its contracts.
pub struct LoopState {
    /// The texts that are drawn each tick, oldest first.
    pub buffer: Seq<Text>,
    /// Set by a quit message or a close request; never cleared.
    pub quit: bool,
    /// Set once the farewell has been handed out; a stopped loop does nothing.
    pub stopped: bool,
}

/// One thing that can happen to a render loop.
pub enum LoopInput {
    /// The window was polled and gave these events.
    Events(Seq<InputEvent>),
    /// The message channel was drained and gave these messages.
    Messages(Seq<RenderLoopMessage>),
    /// The tick is over.
    TickEnd,
}

impl LoopState {
    /// A loop that has just started.
    pub open spec fn fresh() -> LoopState {
        LoopState { buffer: Seq::empty(), quit: false, stopped: false }
    }

    /// The loop after one message.
    pub open spec fn apply(self, msg: RenderLoopMessage) -> LoopState {
        match msg {
            RenderLoopMessage::Add { t } => LoopState { buffer: self.buffer.push(t), ..self },
            RenderLoopMessage::Clear => LoopState { buffer: Seq::empty(), ..self },
            RenderLoopMessage::Quit => LoopState { quit: true, ..self },
            RenderLoopMessage::LiveCheck => self,
        }
    }

    /// The loop after `msgs`, applied in order.
    pub open spec fn replay(self, msgs: Seq<RenderLoopMessage>) -> LoopState
        decreases msgs.len(),
    {
        if msgs.len() == 0 {
            self
        } else {
            self.replay(msgs.drop_last()).apply(msgs.last())
        }
    }

    /// The liveness replies that `msgs` draw, in order: one for each liveness
    /// check, saying whether the loop was not yet asked to quit at that point.
    pub open spec fn replies(self, msgs: Seq<RenderLoopMessage>) -> Seq<bool>
        decreases msgs.len(),
    {
        if msgs.len() == 0 {
            Seq::empty()
        } else if msgs.last() is LiveCheck {
            self.replies(msgs.drop_last()).push(!self.replay(msgs.drop_last()).quit)
        } else {
            self.replies(msgs.drop_last())
        }
    }

    /// The loop after `input`.
    pub open spec fn step(self, input: LoopInput) -> LoopState {
        if self.stopped {
            self
        } else {
            match input {
                LoopInput::Events(events) => LoopState {
                    quit: self.quit || saw_close(events),
                    ..self
                },
                LoopInput::Messages(msgs) => self.replay(msgs),
                LoopInput::TickEnd => LoopState { stopped: self.quit, ..self },
            }
        }
    }

    /// The farewell that `input` draws: a last liveness reply of `false`, at the
    /// end of the tick in which the loop was asked to quit.
    pub open spec fn farewell(self, input: LoopInput) -> Option<bool> {
        if input is TickEnd && self.quit && !self.stopped {
            Some(false)
        } else {
            None
        }
    }

    /// The loop after `inputs`, in order.
    pub open spec fn run(self, inputs: Seq<LoopInput>) -> LoopState
        decreases inputs.len(),
    {
        if inputs.len() == 0 {
            self
        } else {
            self.run(inputs.drop_last()).step(inputs.last())
        }
    }

    /// How many farewells `inputs` draw.
    pub open spec fn farewells(self, inputs: Seq<LoopInput>) -> nat
        decreases inputs.len(),
    {
        if inputs.len() == 0 {
            0
        } else {
            let earlier = self.farewells(inputs.drop_last());
            if self.run(inputs.drop_last()).farewell(inputs.last()) is Some {
                earlier + 1
            } else {
                earlier
            }
        }
    }
}

/// The render loop: the draw buffer and the quit flag, with the settings it was
/// started with.
pub struct RenderLoop {
    info: ConsoleInfo,
    text_buffer: Vec<Text>,
    quit: bool,
    stopped: bool,
}

impl View for RenderLoop {
    type V = LoopState;

    closed spec fn view(&self) -> LoopState {
        LoopState { buffer: self.text_buffer@, quit: self.quit, stopped: self.stopped }
    }
}

/// Finds the first close request among `events`.
pub fn find_close(events: &Vec<InputEvent>) -> (n: usize)
    ensures
        n == close_index(events@),
        n <= events.len(),
{
    let mut i: usize = 0;
    while i < events.len()
        invariant
            i <= events.len(),
            close_index(events@) == close_from(events@, i as int),
        decreases events.len() - i,
    {
        if let InputEvent::Closed = events[i] {
            return i;
        }
        i += 1;
    }
    i
}

impl RenderLoop {
    /// The settings that the loop was started with.
    pub closed spec fn spec_info(&self) -> ConsoleInfo {
        self.info
    }

    /// Starts a loop with an empty draw buffer.
    pub fn new(info: ConsoleInfo) -> (render: RenderLoop)
        ensures
            render@ == LoopState::fresh(),
            render.spec_info() == info,
    {
        RenderLoop { info, text_buffer: Vec::new(), quit: false, stopped: false }
    }

    /// The settings that the loop was started with.
    pub fn info(&self) -> (info: ConsoleInfo)
        ensures
            info == self.spec_info(),
    {
        self.info
    }

    /// The texts to draw this tick, oldest first.
    pub fn text_buffer(&self) -> (buffer: &Vec<Text>)
        ensures
            buffer@ == self@.buffer,
    {
        &self.text_buffer
    }

    /// Whether the loop has been asked to quit.
    pub fn is_quitting(&self) -> (quit: bool)
        ensures
            quit == self@.quit,
    {
        self.quit
    }

    /// Whether the loop still takes ticks.
    pub fn is_running(&self) -> (running: bool)
        ensures
            running == !self@.stopped,
    {
        !self.stopped
    }

    /// Takes the events that the window gave this tick and says what to send to
    /// the console handle, in order. A close request sets the quit flag; it and
    /// the events behind it are not forwarded.
    pub fn poll_input(&mut self, events: Vec<InputEvent>) -> (signals: Vec<InputSignal>)
        ensures
            final(self)@ == old(self)@.step(LoopInput::Events(events@)),
            final(self).spec_info() == old(self).spec_info(),
            old(self)@.stopped ==> signals@.len() == 0,
            !old(self)@.stopped ==> announces(signals@, forwarded(events@)),
    {
        let mut signals: Vec<InputSignal> = Vec::new();
        if self.stopped {
            return signals;
        }
        let n: usize = find_close(&events);
        if n < events.len() {
            self.quit = true;
        }
        let mut batch: Vec<InputEvent> = events;
        batch.truncate(n);
        assert(batch@ == forwarded(events@));
        if batch.len() > 0 {
            signals.push(InputSignal::Batch(batch));
        }
        signals.push(InputSignal::Invalidate);
        signals
    }

    /// Applies the messages that the console handle sent, in order, and gives the
    /// liveness replies to send back, in order.
    pub fn apply_messages(&mut self, msgs: Vec<RenderLoopMessage>) -> (replies: Vec<bool>)
        ensures
            final(self)@ == old(self)@.step(LoopInput::Messages(msgs@)),
            final(self).spec_info() == old(self).spec_info(),
            old(self)@.stopped ==> replies@.len() == 0,
            !old(self)@.stopped ==> replies@ == old(self)@.replies(msgs@),
    {
        let mut replies: Vec<bool> = Vec::new();
        if self.stopped {
            return replies;
        }
        let ghost start = self@;
        let ghost all = msgs@;
        for msg in iter: msgs
            invariant
                iter.seq() == all,
                !self.stopped,
                self.info == old(self).info,
                self@ == start.replay(all.take(iter.index())),
                replies@ == start.replies(all.take(iter.index())),
        {
            proof {
                let k = iter.index();
                assert(all.take(k + 1).drop_last() == all.take(k));
                assert(all.take(k + 1).last() == msg);
            }
            match msg {
                RenderLoopMessage::Add { t } => self.text_buffer.push(t),
                RenderLoopMessage::Clear => self.text_buffer.clear(),
                RenderLoopMessage::Quit => self.quit = true,
                RenderLoopMessage::LiveCheck => replies.push(!self.quit),
            }
        }
        proof {
            assert(all.take(all.len() as int) == all);
        }
        replies
    }

    /// Ends the tick. Where the loop was asked to quit, this stops it and gives
    /// the farewell: a last liveness reply of `false`, for a check that may still
    /// be on its way.
    pub fn finish_tick(&mut self) -> (farewell: Option<bool>)
        ensures
            final(self)@ == old(self)@.step(LoopInput::TickEnd),
            final(self).spec_info() == old(self).spec_info(),
            farewell == old(self)@.farewell(LoopInput::TickEnd),
    {
        if self.quit && !self.stopped {
            self.stopped = true;
            Some(false)
        } else {
            None
        }
    }
}

} // verus!
