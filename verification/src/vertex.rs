//! Vertex data bookkeeping: a vertex buffer with or without an index
//! list, the per-attribute layout descriptors derived from it, and the
//! GL-side record of the buffer objects a vertex set was uploaded into.
//! The uploads themselves are GL calls made by the embedding program;
//! the layout arithmetic is computed and proved here.

use vstd::layout::size_of;
use vstd::prelude::*;

verus! {

/// Vertex data as handed to the renderer: a plain array of vertices, or
/// an array paired with an index list.
#[derive(Debug)]
pub enum VertexBuffer<T> {
    Array(Vec<T>),
    Indexed(Vec<T>, Vec<u32>),
}

/// The layout of one vertex attribute inside a buffer: its name in the
/// shader, its component count, and the stride and byte offset it is
/// read with.
#[derive(Debug)]
pub struct VertexDesc {
    pub attribute: String,
    pub size: i32,
    pub stride: usize,
    pub offset: usize,
}

/// One attribute a linked shader program exposes: its name, component
/// count, GL component type, and the stride and byte offset it is read
/// with.
#[derive(Debug, Clone)]
pub struct VertexAttribute {
    pub name: String,
    pub size: i32,
    pub type_enum: u32,
    pub stride: usize,
    pub offset: usize,
}

/// A vertex buffer together with the layout descriptors of its
/// attributes.
pub struct Vertices<T> {
    pub buffer: VertexBuffer<T>,
    pub desc: Vec<VertexDesc>,
}

impl<T> Vertices<T> {
    /// Describe a buffer of vertices of type `T` whose attributes, one
    /// per name and all of component type `U`, are laid out back to
    /// back: attribute `i` sits at byte offset `i` times the vertex
    /// size, every attribute is read with a stride of the whole vertex
    /// row, and each holds as many components as fit a vertex (the
    /// quotient floored when the sizes do not divide evenly).
    pub fn new<U>(buffer: VertexBuffer<T>, attributes: Vec<String>) -> (r: Vertices<T>)
        requires
            size_of::<U>() > 0,
            size_of::<T>() / size_of::<U>() <= i32::MAX,
            attributes@.len() * size_of::<T>() <= usize::MAX,
        ensures
            r.buffer == buffer,
            r.desc@.len() == attributes@.len(),
            forall|i: int|
                0 <= i < attributes@.len() ==> {
                    &&& (#[trigger] r.desc@[i]).attribute == attributes@[i]
                    &&& r.desc@[i].size as int == size_of::<T>() / size_of::<U>()
                    &&& r.desc@[i].stride as int == attributes@.len() * size_of::<T>()
                    &&& r.desc@[i].offset as int == i * size_of::<T>()
                },
    {
        let elem_size: usize = core::mem::size_of::<T>();
        let component_size: usize = core::mem::size_of::<U>();
        let n = attributes.len();
        let stride_bytes: usize = n * elem_size;
        let component_count: i32 = (elem_size / component_size) as i32;

        let mut desc: Vec<VertexDesc> = Vec::new();
        let mut offset: usize = 0;
        let mut i: usize = 0;
        while i < n
            invariant
                i <= n,
                n == attributes@.len(),
                elem_size == size_of::<T>(),
                component_size == size_of::<U>(),
                size_of::<U>() > 0,
                size_of::<T>() / size_of::<U>() <= i32::MAX,
                n * elem_size <= usize::MAX,
                stride_bytes == n * elem_size,
                component_count as int == size_of::<T>() / size_of::<U>(),
                offset == i * elem_size,
                desc@.len() == i,
                forall|j: int|
                    0 <= j < i ==> {
                        &&& (#[trigger] desc@[j]).attribute == attributes@[j]
                        &&& desc@[j].size as int == size_of::<T>() / size_of::<U>()
                        &&& desc@[j].stride as int == attributes@.len() * size_of::<T>()
                        &&& desc@[j].offset as int == j * size_of::<T>()
                    },
            decreases n - i,
        {
            proof {
                assert((i + 1) * elem_size <= n * elem_size && i * elem_size + elem_size == (i + 1)
                    * elem_size) by (nonlinear_arith)
                    requires
                        i < n,
                        0 <= elem_size,
                ;
            }
            desc.push(
                VertexDesc {
                    attribute: attributes[i].clone(),
                    size: component_count,
                    stride: stride_bytes,
                    offset,
                },
            );
            offset = offset + elem_size;
            i += 1;
        }
        Vertices { buffer, desc }
    }
}

/// The GL-side record of one uploaded vertex set: the vertex array,
/// vertex buffer and element buffer object ids the embedding program
/// allocated for it, and how many indices were uploaded. An un-indexed
/// buffer uses no element buffer and draws by vertex count, recorded as
/// an index count of zero.
pub struct GlVertices {
    pub vao: u32,
    pub vbo: u32,
    pub ebo: u32,
    pub index_count: i32,
}

impl GlVertices {
    /// Record the upload of `vertices` into the vertex array object
    /// `vao` and vertex buffer `vbo`; an indexed buffer also fills the
    /// element buffer `ebo`, while a plain array leaves the element
    /// buffer id at zero and the index count at zero.
    pub fn new<T>(vertices: &Vertices<T>, vao: u32, vbo: u32, ebo: u32) -> (r: GlVertices)
        requires
            vertices.buffer matches VertexBuffer::Indexed(_, indices) ==> indices@.len()
                <= i32::MAX,
        ensures
            r.vao == vao,
            r.vbo == vbo,
            match vertices.buffer {
                VertexBuffer::Array(_) => r.ebo == 0 && r.index_count == 0,
                VertexBuffer::Indexed(_, indices) => r.ebo == ebo && r.index_count as int
                    == indices@.len(),
            },
    {
        match &vertices.buffer {
            VertexBuffer::Array(_) => GlVertices { vao, vbo, ebo: 0, index_count: 0 },
            VertexBuffer::Indexed(_, indices) => GlVertices {
                vao,
                vbo,
                ebo,
                index_count: indices.len() as i32,
            },
        }
    }

    /// How many indices the element buffer holds; zero for an
    /// un-indexed buffer.
    pub fn index_count(&self) -> (r: i32)
        ensures
            r == self.index_count,
    {
        self.index_count
    }
}

} // verus!
