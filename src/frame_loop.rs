use vstd::prelude::*;

verus! {

/// The keys that the loop tells apart.
#[derive(Clone, Copy, Debug, PartialEq, Eq, Structural)]
pub enum Key {
    Escape,
    Other,
}

/// An event from the window system.
#[derive(Clone, Copy, Debug, PartialEq, Eq, Structural)]
pub enum Event {
    Quit,
    KeyDown(Key),
    Other,
}

/// Whether the frame loop goes on.
#[derive(Clone, Copy, Debug, PartialEq, Eq, Structural)]
pub enum LoopState {
    Running,
    Stopped,
}

/// An event that ends the loop: a quit request or the escape key.
pub open spec fn is_stop(e: Event) -> bool {
    e == Event::Quit || e == Event::KeyDown(Key::Escape)
}

/// The state after one event.
pub fn next_state(s: LoopState, e: Event) -> (r: LoopState)
    ensures
        r == (if s == LoopState::Stopped || is_stop(e) {
            LoopState::Stopped
        } else {
            LoopState::Running
        }),
{
    match (s, e) {
        (LoopState::Stopped, _) => LoopState::Stopped,
        (_, Event::Quit) => LoopState::Stopped,
        (_, Event::KeyDown(Key::Escape)) => LoopState::Stopped,
        _ => LoopState::Running,
    }
}

/// The state after all pending events: stopped exactly when it was stopped
/// already or one of them is a stop signal.
pub fn drain(s: LoopState, events: &Vec<Event>) -> (r: LoopState)
    ensures
        r == LoopState::Stopped <==> (s == LoopState::Stopped || exists|k: int|
            0 <= k < events@.len() && is_stop(#[trigger] events@[k])),
{
    let mut cur = s;
    let mut k: usize = 0;
    while k < events.len()
        invariant
            k <= events@.len(),
            cur == LoopState::Stopped <==> (s == LoopState::Stopped || exists|j: int|
                0 <= j < k && is_stop(#[trigger] events@[j])),
        decreases events@.len() - k,
    {
        let e = events[k];
        cur = next_state(cur, e);
        proof {
            if is_stop(events@[k as int]) {
                assert(0 <= k < k + 1);
            }
        }
        k = k + 1;
    }
    cur
}

} // verus!
