//! Vertex attribute slots.

use vstd::prelude::*;
use crate::command::GlCommand;

verus! {

/// One vertex attribute slot, known by its index.
#[derive(Clone, Copy, Debug, PartialEq, Eq, Structural)]
pub struct VertexAttribute {
    index: u32,
}

impl VertexAttribute {
    /// The slot's index.
    pub closed spec fn spec_index(&self) -> u32 {
        self.index
    }

    /// Describes attribute `index` as `size` components of type `kind`,
    /// `stride` bytes apart, starting `offset` bytes into the bound buffer.
    /// Returns the slot together with the call that configures it.
    pub fn new(
        index: u32,
        size: i32,
        kind: u32,
        normalized: u8,
        stride: i32,
        offset: usize,
    ) -> (r: (VertexAttribute, GlCommand))
        ensures
            r.0.index() == index,
            r.1 == (GlCommand::VertexAttribPointer {
                index,
                size,
                kind,
                normalized,
                stride,
                offset,
            }),
    {
        (
            VertexAttribute { index },
            GlCommand::VertexAttribPointer { index, size, kind, normalized, stride, offset },
        )
    }

    /// Enables this slot.
    pub fn enable(&self) -> (cmd: GlCommand)
        ensures
            cmd == (GlCommand::EnableVertexAttribArray { index: self.index() }),
    {
        GlCommand::EnableVertexAttribArray { index: self.index }
    }

    /// Disables this slot.
    pub fn disable(&self) -> (cmd: GlCommand)
        ensures
            cmd == (GlCommand::DisableVertexAttribArray { index: self.index() }),
    {
        GlCommand::DisableVertexAttribArray { index: self.index }
    }

    /// The slot's index.
    #[verifier::when_used_as_spec(spec_index)]
    pub fn index(&self) -> (r: u32)
        ensures
            r == self.index(),
    {
        self.index
    }
}

} // verus!
