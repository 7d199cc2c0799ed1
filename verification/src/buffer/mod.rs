//! Vertex data and how a vertex buffer lays it out.

use crate::component::proxy::BufferSlice;
use crate::component::transform::{ONE, ZERO};
use vstd::prelude::*;

verus! {

/// The bit pattern of the number one half.
pub const HALF: u32 = 0x3f00_0000;

/// The bit pattern of the number minus one half.
pub const MINUS_HALF: u32 = 0xbf00_0000;

/// How often the buffer advances: once per vertex or once per instance.
#[derive(Debug, Clone, Copy, PartialEq, Eq, Structural)]
pub enum VertexStepMode {
    Vertex,
    Instance,
}

/// The format of one vertex attribute: single-precision numbers, one to four.
#[derive(Debug, Clone, Copy, PartialEq, Eq, Structural)]
pub enum VertexFormat {
    Float32,
    Float32x2,
    Float32x3,
    Float32x4,
}

impl VertexFormat {
    /// The number of bytes that an attribute of the format takes.
    pub open spec fn spec_size(&self) -> u64 {
        match self {
            VertexFormat::Float32 => 4,
            VertexFormat::Float32x2 => 8,
            VertexFormat::Float32x3 => 12,
            VertexFormat::Float32x4 => 16,
        }
    }

    #[verifier::when_used_as_spec(spec_size)]
    pub fn size(&self) -> (bytes: u64)
        ensures
            bytes == self.spec_size(),
    {
        match self {
            VertexFormat::Float32 => 4,
            VertexFormat::Float32x2 => 8,
            VertexFormat::Float32x3 => 12,
            VertexFormat::Float32x4 => 16,
        }
    }
}

/// One attribute of a vertex: where it starts within the vertex, and which
/// shader input it feeds.
#[derive(Debug, Clone, Copy, PartialEq, Eq, Structural)]
pub struct VertexAttribute {
    pub format: VertexFormat,
    pub offset: u64,
    pub shader_location: u32,
}

/// How the vertices lie in a vertex buffer.
#[derive(Debug)]
pub struct VertexBufferLayout {
    /// The number of bytes from one vertex to the next.
    pub array_stride: u64,
    pub step_mode: VertexStepMode,
    pub attributes: Vec<VertexAttribute>,
}

impl VertexBufferLayout {
    /// Whether the attributes follow one another without gap or overlap,
    /// from the start of the vertex to its end, each feeding the shader
    /// input of its own position.
    pub open spec fn packed(&self) -> bool {
        &&& self.attributes@.len() > 0
        &&& self.attributes@[0].offset == 0
        &&& forall|i: int|
            0 <= i < self.attributes@.len() ==> (#[trigger] self.attributes@[i]).shader_location
                == i
        &&& forall|i: int|
            0 <= i < self.attributes@.len() - 1 ==> (#[trigger] self.attributes@[i + 1]).offset
                == self.attributes@[i].offset + self.attributes@[i].format.spec_size()
        &&& self.array_stride == self.attributes@.last().offset
            + self.attributes@.last().format.spec_size()
    }
}

impl VertexBufferLayout {
    /// The number of whole vertices that lie in a range of bytes of the
    /// buffer, as far as a draw can count them.
    pub fn vertices_in(&self, slice: BufferSlice) -> (count: u32)
        requires
            self.array_stride > 0,
        ensures
            count == if slice.spec_len() / self.array_stride <= u32::MAX {
                slice.spec_len() / self.array_stride
            } else {
                u32::MAX as u64
            },
    {
        let whole = slice.len() / self.array_stride;
        if whole <= u32::MAX as u64 {
            whole as u32
        } else {
            u32::MAX
        }
    }
}

/// A vertex: a position and a color, three single-precision numbers each,
/// held as their IEEE 754 bit patterns.
#[derive(Debug, Clone, Copy, PartialEq, Eq)]
pub struct Vertex {
    pub position: [u32; 3],
    pub color: [u32; 3],
}

impl Vertex {
    /// The layout of a buffer of such vertices: 24 bytes per vertex, the
    /// position at byte 0 for shader input 0, the color at byte 12 for
    /// shader input 1.
    pub fn desc() -> (layout: VertexBufferLayout)
        ensures
            layout.array_stride == 24,
            layout.step_mode == VertexStepMode::Vertex,
            layout.attributes@ == seq![
                VertexAttribute { format: VertexFormat::Float32x3, offset: 0, shader_location: 0 },
                VertexAttribute { format: VertexFormat::Float32x3, offset: 12, shader_location: 1 },
            ],
            layout.packed(),
    {
        let position = VertexAttribute {
            format: VertexFormat::Float32x3,
            offset: 0,
            shader_location: 0,
        };
        let color = VertexAttribute {
            format: VertexFormat::Float32x3,
            offset: position.format.size(),
            shader_location: 1,
        };
        let mut attributes: Vec<VertexAttribute> = Vec::new();
        attributes.push(position);
        attributes.push(color);
        VertexBufferLayout {
            array_stride: color.offset + color.format.size(),
            step_mode: VertexStepMode::Vertex,
            attributes,
        }
    }
}

/// The three vertices of the sample triangle: the top in red, the lower left
/// in green, the lower right in blue.
pub fn triangle_vertices() -> (vertices: [Vertex; 3])
    ensures
        vertices@[0].position@ == seq![ZERO, HALF, ZERO],
        vertices@[0].color@ == seq![ONE, ZERO, ZERO],
        vertices@[1].position@ == seq![MINUS_HALF, MINUS_HALF, ZERO],
        vertices@[1].color@ == seq![ZERO, ONE, ZERO],
        vertices@[2].position@ == seq![HALF, MINUS_HALF, ZERO],
        vertices@[2].color@ == seq![ZERO, ZERO, ONE],
{
    [
        Vertex { position: [ZERO, HALF, ZERO], color: [ONE, ZERO, ZERO] },
        Vertex { position: [MINUS_HALF, MINUS_HALF, ZERO], color: [ZERO, ONE, ZERO] },
        Vertex { position: [HALF, MINUS_HALF, ZERO], color: [ZERO, ZERO, ONE] },
    ]
}

} // verus!
