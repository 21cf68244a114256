//! Input events, reduced to the plain values that the window's logic reads.

use vstd::prelude::*;

verus! {

/// Key code that the windowing layer reports for the Escape key.
pub const KEY_ESCAPE: i32 = 256;

/// What happened to a key.
#[derive(Clone, Copy, Debug, PartialEq, Eq, Structural)]
pub enum Action {
    Release,
    Press,
    Repeat,
}

/// One message from the window's event queue.
#[derive(Clone, Copy, Debug, PartialEq, Eq, Structural)]
pub enum WindowEvent {
    /// A keyboard event: key code, platform scancode, action and modifier bits.
    Key { key: i32, scancode: i32, action: Action, modifiers: i32 },
    /// Any event that is not a keyboard event.
    Other,
}

impl WindowEvent {
    /// An event asks for the window to close exactly when it is a press of
    /// the Escape key; scancode and modifiers play no part.
    pub open spec fn closes(self) -> bool {
        match self {
            WindowEvent::Key { key, action, .. } => key == KEY_ESCAPE && action == Action::Press,
            WindowEvent::Other => false,
        }
    }

    /// Whether this event asks for the window to close.
    pub fn requests_close(&self) -> (r: bool)
        ensures
            r == self.closes(),
    {
        match self {
            WindowEvent::Key { key, action, .. } => *key == KEY_ESCAPE && *action == Action::Press,
            WindowEvent::Other => false,
        }
    }
}

/// How many of `events` ask for the window to close.
pub open spec fn close_requests(events: Seq<WindowEvent>) -> nat {
    events.filter(|e: WindowEvent| e.closes()).len()
}

/// Whether some event of `events` asks for the window to close.
pub open spec fn close_requested(events: Seq<WindowEvent>) -> bool {
    exists|i: int| 0 <= i < events.len() && (#[trigger] events[i]).closes()
}

/// Some event asks for a close exactly when the count of close requests is
/// positive.
pub proof fn lemma_close_requested_iff_counted(events: Seq<WindowEvent>)
    ensures
        close_requested(events) <==> close_requests(events) > 0,
{
    let pred = |e: WindowEvent| e.closes();
    let kept = events.filter(pred);
    if kept.len() > 0 {
        let e = kept[0];
        events.lemma_filter_pred(pred, 0);
        assert(kept.contains(e));
        events.lemma_filter_contains_rev(pred, e);
        let j = choose|j: int| 0 <= j < events.len() && events[j] == e;
        assert(events[j].closes());
    }
    if close_requested(events) {
        let i = choose|i: int| 0 <= i < events.len() && (#[trigger] events[i]).closes();
        events.lemma_filter_contains(pred, i);
        assert(kept.contains(events[i]));
    }
}

/// No event, no close request.
pub proof fn lemma_close_requests_empty()
    ensures
        close_requests(Seq::empty()) == 0,
{
    reveal(Seq::filter);
}

/// Appending one event adds one to the count if it asks for a close, and
/// nothing otherwise.
pub proof fn lemma_close_requests_push(events: Seq<WindowEvent>, e: WindowEvent)
    ensures
        close_requests(events.push(e)) == close_requests(events) + (if e.closes() {
            1nat
        } else {
            0nat
        }),
{
    reveal(Seq::filter);
    assert(events.push(e).drop_last() =~= events);
}

} // verus!
