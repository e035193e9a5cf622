//! What the input thread hands to the rendering loop.

use vstd::prelude::*;

use super::key::Key;

verus! {

/// How long the input thread waits for a key before it reports a tick, in
/// milliseconds, unless told otherwise.
pub const DEFAULT_TICK_RATE_MS: u64 = 150;

/// An event for the rendering loop.
#[derive(Clone, Copy, Debug, PartialEq, Eq, Structural)]
pub enum IoEvent {
    /// The user pressed a key.
    Input(Key),
    /// A tick of the clock passed.
    Tick,
}

/// The events of one wait for input: the key read, if a key was pressed,
/// and then a tick.
pub open spec fn round_events(pressed: Option<Key>) -> Seq<IoEvent> {
    match pressed {
        Some(k) => seq![IoEvent::Input(k), IoEvent::Tick],
        None => seq![IoEvent::Tick],
    }
}

/// The events of successive waits for input, in the order they are sent;
/// `rounds[i]` is the key read in wait `i`, if any.
pub open spec fn event_stream(rounds: Seq<Option<Key>>) -> Seq<IoEvent>
    decreases rounds.len(),
{
    if rounds.len() == 0 {
        Seq::empty()
    } else {
        event_stream(rounds.drop_last()) + round_events(rounds.last())
    }
}

/// The events sent after one wait for input: the key read, if a key was
/// pressed, and then always a tick.
pub fn events_after_poll(pressed: Option<Key>) -> (events: Vec<IoEvent>)
    ensures
        events@ == round_events(pressed),
        pressed matches Some(k) ==> events@ == seq![IoEvent::Input(k), IoEvent::Tick],
        pressed is None ==> events@ == seq![IoEvent::Tick],
{
    let mut events: Vec<IoEvent> = Vec::new();
    if let Some(key) = pressed {
        events.push(IoEvent::Input(key));
    }
    events.push(IoEvent::Tick);
    assert(events@ =~= round_events(pressed));
    events
}

/// Over any number of waits for input, every key press sent is directly
/// followed by a tick, the stream ends with a tick, and it holds one tick per
/// wait.
pub proof fn lemma_input_followed_by_tick(rounds: Seq<Option<Key>>)
    ensures
        forall|i: int|
            0 <= i < event_stream(rounds).len() && (#[trigger] event_stream(rounds)[i]) is Input
                ==> i + 1 < event_stream(rounds).len() && event_stream(rounds)[i + 1] is Tick,
        rounds.len() > 0 ==> event_stream(rounds).last() is Tick,
        event_stream(rounds).filter(|e: IoEvent| e is Tick).len() == rounds.len(),
    decreases rounds.len(),
{
    if rounds.len() > 0 {
        let prefix = rounds.drop_last();
        lemma_input_followed_by_tick(prefix);
        let before = event_stream(prefix);
        let last = round_events(rounds.last());
        let all = event_stream(rounds);
        assert(all == before + last);
        assert forall|i: int| 0 <= i < all.len() && (#[trigger] all[i]) is Input implies i + 1
            < all.len() && all[i + 1] is Tick by {
            if i < before.len() {
                assert(all[i] == before[i]);
                if i + 1 < before.len() {
                    assert(all[i + 1] == before[i + 1]);
                } else {
                    assert(before.len() > 0 && before.last() is Tick);
                    assert(false);
                }
            } else {
                assert(all[i] == last[i - before.len()]);
                assert(all[i + 1] == last[i + 1 - before.len()]);
            }
        }
        assert(all.last() == last.last());
        let is_tick = |e: IoEvent| e is Tick;
        Seq::filter_distributes_over_add(before, last, is_tick);
        assert(last.filter(is_tick).len() == 1) by {
            reveal_with_fuel(Seq::filter, 3);
            if last.len() == 2 {
                assert(last.drop_last() =~= seq![last[0]]);
                assert(seq![last[0]].drop_last() =~= Seq::<IoEvent>::empty());
            } else {
                assert(last.drop_last() =~= Seq::<IoEvent>::empty());
            }
        }
    }
}

} // verus!
