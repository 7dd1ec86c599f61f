//! What holds of every console handle, whatever arrives.

use vstd::prelude::*;
use crate::console::ConsoleState;
use crate::input::{holds_key_event, InputEvent, KeyCode, KeyState};
use crate::message::InputSignal;
use crate::render_loop::announces;

verus! {

/// The handle after `batches` arrived, oldest first, and no pulse.
pub open spec fn with_batches(state: ConsoleState, batches: Seq<Seq<InputEvent>>) -> ConsoleState
    decreases batches.len(),
{
    if batches.len() == 0 {
        state
    } else {
        with_batches(state, batches.drop_last()).with_batch(batches.last())
    }
}

/// The handle after `signals` arrived, in order.
pub open spec fn with_signals(state: ConsoleState, signals: Seq<InputSignal>) -> ConsoleState
    decreases signals.len(),
{
    if signals.len() == 0 {
        state
    } else {
        with_signals(state, signals.drop_last()).with_signal(signals.last())
    }
}

/// A second refresh with nothing arrived in between changes nothing, so two
/// queries in a row, for a key or for another, read the same snapshot and a
/// repeated query gives the same answer.
pub proof fn law_refresh_is_idempotent(state: ConsoleState, key_state: KeyState, key: KeyCode)
    ensures
        state.refreshed().refreshed() == state.refreshed(),
        holds_key_event(state.refreshed().refreshed().cache, key_state, key) == holds_key_event(
            state.refreshed().cache,
            key_state,
            key,
        ),
{
}

/// Without a pending pulse a refresh leaves the handle as it is; with one, the
/// snapshot becomes the newest batch that arrived, nothing stays pending, and a
/// key query is answered by that batch alone.
pub proof fn law_query_reads_newest_batch(state: ConsoleState, key_state: KeyState, key: KeyCode)
    ensures
        !state.stale ==> state.refreshed() == state,
        state.stale ==> state.refreshed().cache == state.newest(),
        state.stale ==> state.refreshed().pending.len() == 0 && !state.refreshed().stale,
        state.stale ==> holds_key_event(state.refreshed().cache, key_state, key)
            == holds_key_event(state.newest(), key_state, key),
        state.refreshed().info == state.info,
        state.refreshed().started == state.started,
{
}

/// Batches alone do not reach the snapshot: as long as no pulse has arrived, a
/// handle with an empty snapshot answers every key query with `false`.
pub proof fn law_no_input_before_pulse(
    state: ConsoleState,
    batches: Seq<Seq<InputEvent>>,
    key_state: KeyState,
    key: KeyCode,
)
    requires
        !state.stale,
        state.cache.len() == 0,
    ensures
        !with_batches(state, batches).stale,
        with_batches(state, batches).cache == state.cache,
        with_batches(state, batches).refreshed().cache.len() == 0,
        !holds_key_event(with_batches(state, batches).refreshed().cache, key_state, key),
        with_batches(state, batches).pending == state.pending + batches,
    decreases batches.len(),
{
    if batches.len() > 0 {
        law_no_input_before_pulse(state, batches.drop_last(), key_state, key);
        assert(state.pending + batches == (state.pending + batches.drop_last()).push(
            batches.last(),
        ));
    } else {
        assert(state.pending + batches == state.pending);
    }
}

/// What the render loop sends about the events of one tick makes the handle's
/// next snapshot: that tick's batch where it sent one, else the newest batch that
/// was still pending.
pub proof fn law_tick_reaches_handle(
    state: ConsoleState,
    signals: Seq<InputSignal>,
    batch: Seq<InputEvent>,
)
    requires
        announces(signals, batch),
    ensures
        with_signals(state, signals).stale,
        with_signals(state, signals).refreshed().cache == if batch.len() > 0 {
            batch
        } else {
            state.newest()
        },
{
    let one = signals.drop_last();
    assert(with_signals(state, signals) == with_signals(state, one).with_signal(signals.last()));
    if batch.len() > 0 {
        assert(one.drop_last().len() == 0);
        assert(with_signals(state, one) == with_signals(state, one.drop_last()).with_signal(
            one.last(),
        ));
        assert(one.last() == signals[0]);
    } else {
        assert(one.len() == 0);
    }
}

} // verus!
