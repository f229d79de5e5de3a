//! The event-loop decision: after the frame is presented, the program waits
//! for window events and stops exactly when the window is closed.

use vstd::prelude::*;

verus! {

/// What happened to the window, as the event loop sees it.
#[derive(Clone, Copy, Debug, PartialEq, Eq, Structural)]
pub enum WindowEvent {
    /// The user asked to close the window.
    Closed,
    /// The window was resized to the given size in pixels.
    Resized(u32, u32),
    /// The window was moved to the given position.
    Moved(i32, i32),
    /// The window gained or lost focus.
    Focused(bool),
    /// Any other window event; the loop ignores it.
    Other,
}

/// One event delivered to the event loop.
#[derive(Clone, Copy, Debug, PartialEq, Eq, Structural)]
pub enum Event {
    /// An event concerning the window.
    Window(WindowEvent),
    /// An event from an input device or the platform; the loop ignores it.
    Other,
}

/// What the event loop does after handling one event.
#[derive(Clone, Copy, Debug, PartialEq, Eq, Structural)]
pub enum ControlFlow {
    /// Keep waiting for the next event.
    Continue,
    /// Leave the loop.
    Break,
}

/// An event stops the loop exactly when it is a window-close event.
pub open spec fn is_close(e: Event) -> bool {
    e == Event::Window(WindowEvent::Closed)
}

/// Decide whether the loop keeps running after `e`: it breaks on a
/// window-close event and on nothing else.
pub fn control_flow_for(e: &Event) -> (cf: ControlFlow)
    ensures
        cf == ControlFlow::Break <==> is_close(*e),
{
    match e {
        Event::Window(WindowEvent::Closed) => ControlFlow::Break,
        _ => ControlFlow::Continue,
    }
}

/// Run the loop decision over a finite stream of events, in order.
///
/// Returns `Some(i)` when the loop breaks while handling `events[i]` —
/// exactly at the first window-close event — and `None` when the stream is
/// exhausted without a close event, in which case the loop is still waiting.
/// The caller blocks for events and hands them in as plain values.
pub fn run_loop(events: &Vec<Event>) -> (r: Option<usize>)
    ensures
        match r {
            Some(i) => i < events@.len() && is_close(events@[i as int])
                && forall|j: int| 0 <= j < i ==> !is_close(events@[j]),
            None => forall|j: int| 0 <= j < events@.len() ==> !is_close(events@[j]),
        },
{
    let mut i: usize = 0;
    while i < events.len()
        invariant
            i <= events@.len(),
            forall|j: int| 0 <= j < i ==> !is_close(events@[j]),
        decreases events@.len() - i,
    {
        match control_flow_for(&events[i]) {
            ControlFlow::Break => {
                return Some(i);
            },
            ControlFlow::Continue => {},
        }
        i = i + 1;
    }
    None
}

} // verus!
