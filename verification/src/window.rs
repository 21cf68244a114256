//! The window: what it was created with, and whether it has been asked to
//! close.

use vstd::prelude::*;
use crate::command::WindowCommand;
use crate::event::{
    close_requested, close_requests, lemma_close_requested_iff_counted, lemma_close_requests_push,
    WindowEvent,
};

verus! {

/// The state of one window. The close flag starts cleared and, once an
/// Escape press has set it, stays set.
pub struct Window {
    width: u32,
    height: u32,
    title: String,
    should_close: bool,
}

/// The commands that a batch of events calls for: one request to set the
/// close flag for each event that asks for a close, and nothing else.
pub open spec fn close_commands(events: Seq<WindowEvent>) -> Seq<WindowCommand> {
    Seq::new(close_requests(events), |i: int| WindowCommand::SetShouldClose(true))
}

/// The commands that bring up the graphics API on a window.
pub open spec fn init_commands() -> Seq<WindowCommand> {
    seq![WindowCommand::MakeCurrent, WindowCommand::SetKeyPolling(true), WindowCommand::LoadGl]
}

/// The commands that end every frame, after the events have been handled.
pub open spec fn frame_commands() -> Seq<WindowCommand> {
    seq![WindowCommand::SwapBuffers, WindowCommand::PollEvents]
}

/// Handling two batches of events one after the other calls for the same
/// commands, and leaves the same close flag, as handling them as one batch.
pub proof fn lemma_batches_concat(first: Seq<WindowEvent>, second: Seq<WindowEvent>)
    ensures
        close_commands(first + second) == close_commands(first) + close_commands(second),
        close_requested(first + second) == (close_requested(first) || close_requested(second)),
{
    Seq::filter_distributes_over_add(first, second, |e: WindowEvent| e.closes());
    assert(close_commands(first + second) =~= close_commands(first) + close_commands(second));
    lemma_close_requested_iff_counted(first);
    lemma_close_requested_iff_counted(second);
    lemma_close_requested_iff_counted(first + second);
}

impl Window {
    /// Requested width in screen coordinates.
    pub closed spec fn spec_width(&self) -> u32 {
        self.width
    }

    /// Requested height in screen coordinates.
    pub closed spec fn spec_height(&self) -> u32 {
        self.height
    }

    /// The window's title.
    pub closed spec fn spec_title(&self) -> Seq<char> {
        self.title@
    }

    /// Whether the window has been asked to close.
    pub closed spec fn spec_should_close(&self) -> bool {
        self.should_close
    }

    /// `other` is this window but for its close flag.
    pub open spec fn same_window(&self, other: &Window) -> bool {
        &&& self.width() == other.width()
        &&& self.height() == other.height()
        &&& self.spec_title() == other.spec_title()
    }

    /// A window of the given size and title that has not been asked to close.
    pub fn new(width: u32, height: u32, title: &str) -> (w: Window)
        ensures
            w.width() == width,
            w.height() == height,
            w.spec_title() == title@,
            !w.should_close(),
    {
        Window { width, height, title: title.to_owned(), should_close: false }
    }

    /// Handles the events of one frame, in order. Every press of Escape sets
    /// the close flag and yields one command to set it on the real window;
    /// all other events are ignored.
    pub fn process_events(&mut self, events: &[WindowEvent]) -> (cmds: Vec<WindowCommand>)
        ensures
            cmds@ == close_commands(events@),
            final(self).should_close() == (old(self).should_close() || close_requested(events@)),
            final(self).same_window(old(self)),
    {
        let mut cmds: Vec<WindowCommand> = Vec::new();
        let mut i: usize = 0;
        while i < events.len()
            invariant
                i <= events@.len(),
                cmds@ =~= close_commands(events@.take(i as int)),
                self.should_close == (old(self).should_close || close_requests(
                    events@.take(i as int),
                ) > 0),
                self.same_window(old(self)),
            decreases events@.len() - i,
        {
            proof {
                lemma_close_requests_push(events@.take(i as int), events@[i as int]);
                assert(events@.take(i + 1) =~= events@.take(i as int).push(events@[i as int]));
            }
            if events[i].requests_close() {
                self.should_close = true;
                cmds.push(WindowCommand::SetShouldClose(true));
            }
            i += 1;
        }
        proof {
            assert(events@.take(i as int) =~= events@);
            lemma_close_requested_iff_counted(events@);
        }
        cmds
    }

    /// Ends a frame: handles the frame's events, then presents the back
    /// buffer and polls for new input.
    pub fn update(&mut self, events: &[WindowEvent]) -> (cmds: Vec<WindowCommand>)
        ensures
            cmds@ == close_commands(events@) + frame_commands(),
            final(self).should_close() == (old(self).should_close() || close_requested(events@)),
            final(self).same_window(old(self)),
    {
        let mut cmds = self.process_events(events);
        cmds.push(WindowCommand::SwapBuffers);
        cmds.push(WindowCommand::PollEvents);
        assert(cmds@ =~= close_commands(events@) + frame_commands());
        cmds
    }

    /// Brings up the graphics API: makes the window current, switches key
    /// events on and loads the API's functions. The window itself is left as
    /// it was.
    pub fn gl_init(&mut self) -> (cmds: Vec<WindowCommand>)
        ensures
            cmds@ == init_commands(),
            *final(self) == *old(self),
    {
        let mut cmds: Vec<WindowCommand> = Vec::new();
        cmds.push(WindowCommand::MakeCurrent);
        cmds.push(WindowCommand::SetKeyPolling(true));
        cmds.push(WindowCommand::LoadGl);
        assert(cmds@ =~= init_commands());
        cmds
    }

    /// Whether the window has been asked to close.
    #[verifier::when_used_as_spec(spec_should_close)]
    pub fn should_close(&self) -> (r: bool)
        ensures
            r == self.should_close(),
    {
        self.should_close
    }

    /// Requested width in screen coordinates.
    #[verifier::when_used_as_spec(spec_width)]
    pub fn width(&self) -> (r: u32)
        ensures
            r == self.width(),
    {
        self.width
    }

    /// Requested height in screen coordinates.
    #[verifier::when_used_as_spec(spec_height)]
    pub fn height(&self) -> (r: u32)
        ensures
            r == self.height(),
    {
        self.height
    }

    /// The window's title.
    pub fn title(&self) -> (r: &str)
        ensures
            r@ == self.spec_title(),
    {
        self.title.as_str()
    }
}

} // verus!
