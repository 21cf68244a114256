//! Vertex buffer objects.

use vstd::prelude::*;
use crate::command::GlCommand;

verus! {

/// Size in bytes of one `GLfloat`.
pub const FLOAT_BYTES: usize = 4;

/// Size in bytes of one `GLint`.
pub const INT_BYTES: usize = 4;

/// A vertex buffer object: the name the GPU gave it, the target it binds to
/// and the usage hint its uploads carry.
#[derive(Clone, Copy, Debug, PartialEq, Eq, Structural)]
pub struct VBO {
    index: u32,
    target: u32,
    usage: u32,
}

impl VBO {
    /// The buffer's name.
    pub closed spec fn spec_index(&self) -> u32 {
        self.index
    }

    /// The binding target.
    pub closed spec fn spec_target(&self) -> u32 {
        self.target
    }

    /// The usage hint.
    pub closed spec fn spec_usage(&self) -> u32 {
        self.usage
    }

    /// A buffer object for the freshly generated name `index`, with the
    /// given target and usage.
    pub fn new(index: u32, target: u32, usage: u32) -> (vbo: VBO)
        ensures
            vbo.index() == index,
            vbo.target() == target,
            vbo.usage() == usage,
    {
        VBO { index, target, usage }
    }

    /// Binds this buffer to its target.
    pub fn bind(&self) -> (cmd: GlCommand)
        ensures
            cmd == (GlCommand::BindBuffer { target: self.target(), buffer: self.index() }),
    {
        GlCommand::BindBuffer { target: self.target, buffer: self.index }
    }

    /// Unbinds whatever buffer is bound to this buffer's target.
    pub fn unbind(&self) -> (cmd: GlCommand)
        ensures
            cmd == (GlCommand::BindBuffer { target: self.target(), buffer: 0 }),
    {
        GlCommand::BindBuffer { target: self.target, buffer: 0 }
    }

    /// Uploads `len` floats. The data must hold at least one element, and
    /// its size in bytes must fit the graphics API's size type.
    pub fn store_data_f32(&self, len: usize) -> (cmd: GlCommand)
        requires
            0 < len,
            len * FLOAT_BYTES <= isize::MAX,
        ensures
            cmd == (GlCommand::BufferData {
                target: self.target(),
                bytes: (len * FLOAT_BYTES) as isize,
                usage: self.usage(),
            }),
    {
        GlCommand::BufferData {
            target: self.target,
            bytes: (len * FLOAT_BYTES) as isize,
            usage: self.usage,
        }
    }

    /// Uploads the integers of `data`. The data must hold at least one
    /// element, and its size in bytes must fit the graphics API's size type.
    pub fn store_data_i32(&self, data: &[i32]) -> (cmd: GlCommand)
        requires
            0 < data@.len(),
            data@.len() * INT_BYTES <= isize::MAX,
        ensures
            cmd == (GlCommand::BufferData {
                target: self.target(),
                bytes: (data@.len() * INT_BYTES) as isize,
                usage: self.usage(),
            }),
    {
        GlCommand::BufferData {
            target: self.target,
            bytes: (data.len() * INT_BYTES) as isize,
            usage: self.usage,
        }
    }

    /// The buffer's name.
    #[verifier::when_used_as_spec(spec_index)]
    pub fn index(&self) -> (r: u32)
        ensures
            r == self.index(),
    {
        self.index
    }

    /// The binding target.
    #[verifier::when_used_as_spec(spec_target)]
    pub fn target(&self) -> (r: u32)
        ensures
            r == self.target(),
    {
        self.target
    }

    /// The usage hint.
    #[verifier::when_used_as_spec(spec_usage)]
    pub fn usage(&self) -> (r: u32)
        ensures
            r == self.usage(),
    {
        self.usage
    }
}

} // verus!
