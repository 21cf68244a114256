//! The commands that the model hands to whoever drives the window system and
//! the GPU. Each variant stands for one call, with the arguments of that call.

use vstd::prelude::*;

verus! {

/// One call into the windowing layer.
#[derive(Clone, Copy, Debug, PartialEq, Eq, Structural)]
pub enum WindowCommand {
    /// Make the window's context the current one.
    MakeCurrent,
    /// Switch the delivery of keyboard events on or off.
    SetKeyPolling(bool),
    /// Load the graphics API's function pointers through the window.
    LoadGl,
    /// Set the window's close flag.
    SetShouldClose(bool),
    /// Present the back buffer.
    SwapBuffers,
    /// Let the window system queue pending input.
    PollEvents,
}

/// One call into the graphics API.
#[derive(Clone, Copy, Debug, PartialEq, Eq, Structural)]
pub enum GlCommand {
    /// Bind buffer object `buffer` to `target`; `buffer` 0 unbinds.
    BindBuffer { target: u32, buffer: u32 },
    /// Upload `bytes` bytes, starting at the first element of the caller's
    /// data, to the buffer bound to `target`.
    BufferData { target: u32, bytes: isize, usage: u32 },
    /// Describe the layout of vertex attribute `index`.
    VertexAttribPointer {
        index: u32,
        size: i32,
        kind: u32,
        normalized: u8,
        stride: i32,
        offset: usize,
    },
    /// Enable vertex attribute `index`.
    EnableVertexAttribArray { index: u32 },
    /// Disable vertex attribute `index`.
    DisableVertexAttribArray { index: u32 },
}

} // verus!
