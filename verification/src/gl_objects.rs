//! The drawing-mode vocabulary of the GL renderer: which primitive a
//! vertex stream is interpreted as, and the GL enumerant each mode is
//! issued under.

use vstd::prelude::*;

verus! {

/// The primitive a vertex stream is drawn as.
#[derive(Debug, Clone, Copy, PartialEq, Eq, Structural)]
pub enum GlDrawingMode {
    Points,
    Lines,
    LineLoop,
    LineStrip,
    Triangles,
    TriangleStrip,
    TriangleFan,
    LinesAdjacency,
    LineStripAdjacency,
    TrianglesAdjacency,
    TrianglesStripAdjacency,
}

impl GlDrawingMode {
    /// The GL enumerant of this drawing mode.
    pub fn gl_value(&self) -> (r: u32)
        ensures
            *self is Points ==> r == 0x0,
            *self is Lines ==> r == 0x1,
            *self is LineLoop ==> r == 0x2,
            *self is LineStrip ==> r == 0x3,
            *self is Triangles ==> r == 0x4,
            *self is TriangleStrip ==> r == 0x5,
            *self is TriangleFan ==> r == 0x6,
            *self is LinesAdjacency ==> r == 0xA,
            *self is LineStripAdjacency ==> r == 0xB,
            *self is TrianglesAdjacency ==> r == 0xC,
            *self is TrianglesStripAdjacency ==> r == 0xD,
    {
        match self {
            GlDrawingMode::Points => 0x0,
            GlDrawingMode::Lines => 0x1,
            GlDrawingMode::LineLoop => 0x2,
            GlDrawingMode::LineStrip => 0x3,
            GlDrawingMode::Triangles => 0x4,
            GlDrawingMode::TriangleStrip => 0x5,
            GlDrawingMode::TriangleFan => 0x6,
            GlDrawingMode::LinesAdjacency => 0xA,
            GlDrawingMode::LineStripAdjacency => 0xB,
            GlDrawingMode::TrianglesAdjacency => 0xC,
            GlDrawingMode::TrianglesStripAdjacency => 0xD,
        }
    }
}

} // verus!
