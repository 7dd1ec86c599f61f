//! What holds of every render loop, whatever it is sent.

use vstd::prelude::*;
use crate::input::InputEvent;
use crate::message::{RenderLoopMessage, Text};
use crate::render_loop::{close_from, close_index, forwarded, saw_close, LoopInput, LoopState};

verus! {

/// From any index on, the first close request lies within the events, nothing
/// before it is a close request, and it is one where it lies before their end.
pub proof fn law_close_from(events: Seq<InputEvent>, i: int)
    requires
        0 <= i <= events.len(),
    ensures
        i <= close_from(events, i) <= events.len(),
        forall|j: int| i <= j < close_from(events, i) ==> !(#[trigger] events[j] is Closed),
        close_from(events, i) < events.len() ==> events[close_from(events, i)] is Closed,
    decreases events.len() - i,
{
    if i < events.len() && !(events[i] is Closed) {
        law_close_from(events, i + 1);
    }
}

/// What is forwarded of a tick's events holds no close request, is all of them
/// where none asked to close, and stops short where one did.
pub proof fn law_forwarded_has_no_close(events: Seq<InputEvent>)
    ensures
        forall|j: int| 0 <= j < forwarded(events).len() ==> !(#[trigger] forwarded(events)[j]
            is Closed),
        saw_close(events) <==> exists|j: int| 0 <= j < events.len() && #[trigger] events[j]
            is Closed,
        !saw_close(events) ==> forwarded(events) == events,
        saw_close(events) ==> forwarded(events).len() < events.len(),
{
    law_close_from(events, 0);
    let n = close_index(events);
    if saw_close(events) {
        assert(events[n] is Closed);
    } else {
        assert(events.take(n) == events);
    }
}

/// The texts that `msgs` add, in order.
pub open spec fn added_texts(msgs: Seq<RenderLoopMessage>) -> Seq<Text>
    decreases msgs.len(),
{
    if msgs.len() == 0 {
        Seq::empty()
    } else {
        match msgs.last() {
            RenderLoopMessage::Add { t } => added_texts(msgs.drop_last()).push(t),
            _ => added_texts(msgs.drop_last()),
        }
    }
}

/// Index of the last clear message of `msgs`, or -1 where there is none.
pub open spec fn last_clear(msgs: Seq<RenderLoopMessage>) -> int
    decreases msgs.len(),
{
    if msgs.len() == 0 {
        -1
    } else if msgs.last() is Clear {
        msgs.len() - 1
    } else {
        last_clear(msgs.drop_last())
    }
}

/// Whether `msgs` hold a quit message.
pub open spec fn asks_to_quit(msgs: Seq<RenderLoopMessage>) -> bool {
    exists|i: int| 0 <= i < msgs.len() && #[trigger] msgs[i] is Quit
}

/// The last clear message of a sequence is one of its messages, and no clear
/// message comes after it.
pub proof fn law_last_clear(msgs: Seq<RenderLoopMessage>)
    ensures
        -1 <= last_clear(msgs) < msgs.len(),
        last_clear(msgs) >= 0 ==> msgs[last_clear(msgs)] is Clear,
        forall|i: int| last_clear(msgs) < i < msgs.len() ==> !(#[trigger] msgs[i] is Clear),
    decreases msgs.len(),
{
    if msgs.len() > 0 && !(msgs.last() is Clear) {
        law_last_clear(msgs.drop_last());
        assert forall|i: int| last_clear(msgs) < i < msgs.len() implies !(#[trigger] msgs[i]
            is Clear) by {
            if i < msgs.len() - 1 {
                assert(msgs.drop_last()[i] == msgs[i]);
            }
        }
    }
}

/// Replaying messages in two parts is replaying them in one: draining the channel
/// tick by tick loses and reorders nothing.
pub proof fn law_replay_in_parts(
    state: LoopState,
    first: Seq<RenderLoopMessage>,
    second: Seq<RenderLoopMessage>,
)
    ensures
        state.replay(first + second) == state.replay(first).replay(second),
    decreases second.len(),
{
    if second.len() == 0 {
        assert(first + second == first);
    } else {
        law_replay_in_parts(state, first, second.drop_last());
        assert((first + second).drop_last() == first + second.drop_last());
        assert((first + second).last() == second.last());
    }
}

/// After any messages the draw buffer holds the texts added since the last clear
/// message, in the order in which they were added, behind what it held before
/// where nothing cleared it. Nothing else of the loop changes but the quit flag.
pub proof fn law_buffer_is_replay(state: LoopState, msgs: Seq<RenderLoopMessage>)
    ensures
        last_clear(msgs) < 0 ==> state.replay(msgs).buffer == state.buffer + added_texts(msgs),
        last_clear(msgs) >= 0 ==> state.replay(msgs).buffer == added_texts(
            msgs.skip(last_clear(msgs) + 1),
        ),
        state.replay(msgs).stopped == state.stopped,
    decreases msgs.len(),
{
    if msgs.len() == 0 {
        assert(state.buffer + added_texts(msgs) == state.buffer);
    } else if msgs.last() is Clear {
        law_buffer_is_replay(state, msgs.drop_last());
        assert(msgs.skip(msgs.len() as int).len() == 0);
    } else {
        let earlier = msgs.drop_last();
        let c = last_clear(earlier);
        law_buffer_is_replay(state, earlier);
        law_last_clear(earlier);
        if c >= 0 {
            assert(msgs.skip(c + 1).drop_last() == earlier.skip(c + 1));
            assert(msgs.skip(c + 1).last() == msgs.last());
        } else {
            match msgs.last() {
                RenderLoopMessage::Add { t } => {
                    assert(state.buffer + added_texts(earlier).push(t) == (state.buffer
                        + added_texts(earlier)).push(t));
                },
                _ => {},
            }
        }
    }
}

/// The quit flag is set by a quit message and by nothing else among messages, and
/// no message clears it.
pub proof fn law_quit_is_kept(state: LoopState, msgs: Seq<RenderLoopMessage>)
    ensures
        state.replay(msgs).quit == (state.quit || asks_to_quit(msgs)),
    decreases msgs.len(),
{
    if msgs.len() > 0 {
        let earlier = msgs.drop_last();
        law_quit_is_kept(state, earlier);
        if asks_to_quit(earlier) {
            let i = choose|i: int| 0 <= i < earlier.len() && #[trigger] earlier[i] is Quit;
            assert(msgs[i] is Quit);
        }
        if msgs.last() is Quit {
            assert(msgs[msgs.len() - 1] is Quit);
        }
        if asks_to_quit(msgs) && !(msgs.last() is Quit) {
            let i = choose|i: int| 0 <= i < msgs.len() && #[trigger] msgs[i] is Quit;
            assert(earlier[i] is Quit);
        }
    }
}

/// A loop that was asked to quit answers every liveness check with `false`.
pub proof fn law_replies_after_quit(state: LoopState, msgs: Seq<RenderLoopMessage>)
    requires
        state.quit,
    ensures
        forall|i: int| 0 <= i < state.replies(msgs).len() ==> !(#[trigger] state.replies(msgs)[i]),
    decreases msgs.len(),
{
    if msgs.len() > 0 {
        let earlier = msgs.drop_last();
        law_replies_after_quit(state, earlier);
        law_quit_is_kept(state, earlier);
        assert forall|i: int| 0 <= i < state.replies(msgs).len() implies !(
        #[trigger] state.replies(msgs)[i]) by {
            if i < state.replies(earlier).len() {
                assert(state.replies(msgs)[i] == state.replies(earlier)[i]);
            }
        }
    }
}

/// A loop that was not asked to quit answers every liveness check that comes
/// before a quit message with `true`.
pub proof fn law_replies_before_quit(state: LoopState, msgs: Seq<RenderLoopMessage>)
    requires
        !state.quit,
        !asks_to_quit(msgs),
    ensures
        forall|i: int| 0 <= i < state.replies(msgs).len() ==> #[trigger] state.replies(msgs)[i],
    decreases msgs.len(),
{
    if msgs.len() > 0 {
        let earlier = msgs.drop_last();
        assert forall|i: int| 0 <= i < earlier.len() implies !(#[trigger] earlier[i] is Quit) by {
            assert(msgs[i] == earlier[i]);
        }
        law_replies_before_quit(state, earlier);
        law_quit_is_kept(state, earlier);
        assert forall|i: int| 0 <= i < state.replies(msgs).len() implies #[trigger] state.replies(
            msgs,
        )[i] by {
            if i < state.replies(earlier).len() {
                assert(state.replies(msgs)[i] == state.replies(earlier)[i]);
            }
        }
    }
}

/// The end of the tick in which a loop was asked to quit stops it and draws the
/// farewell, which is `false`.
pub proof fn law_quit_draws_farewell(state: LoopState)
    requires
        state.quit,
        !state.stopped,
    ensures
        state.farewell(LoopInput::TickEnd) == Some(false),
        state.step(LoopInput::TickEnd).stopped,
{
}

/// Nothing changes a stopped loop.
pub proof fn law_stopped_is_final(state: LoopState, inputs: Seq<LoopInput>)
    requires
        state.stopped,
    ensures
        state.run(inputs) == state,
        state.farewells(inputs) == 0,
    decreases inputs.len(),
{
    if inputs.len() > 0 {
        law_stopped_is_final(state, inputs.drop_last());
    }
}

/// Whatever a loop is handed, it is stopped only after it was asked to quit, and
/// it gives exactly one farewell if it ends stopped and none if it does not.
pub proof fn law_single_farewell(state: LoopState, inputs: Seq<LoopInput>)
    requires
        !state.stopped,
    ensures
        state.run(inputs).stopped ==> state.run(inputs).quit,
        state.farewells(inputs) == if state.run(inputs).stopped { 1nat } else { 0nat },
    decreases inputs.len(),
{
    if inputs.len() > 0 {
        let earlier = inputs.drop_last();
        law_single_farewell(state, earlier);
        let before = state.run(earlier);
        if !before.stopped {
            match inputs.last() {
                LoopInput::Messages(msgs) => {
                    law_buffer_is_replay(before, msgs);
                },
                _ => {},
            }
        }
    }
}

} // verus!
