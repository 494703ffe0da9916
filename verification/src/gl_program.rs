//! The attribute-carrying revision of the shader-program bookkeeping:
//! alongside the GL object id and the link state it records the vertex
//! attributes the linked program exposes, so a renderer can bind vertex
//! data without re-querying the driver. The GL calls are made by the
//! embedding program, which reports each call's outcome.

use vstd::prelude::*;

use crate::program::ProgramError;
use crate::vertex::VertexAttribute;

verus! {

/// The kind of shader a source string is compiled as.
#[derive(Debug, Clone, Copy, PartialEq, Eq, Structural)]
pub enum GlShaderType {
    Vertex,
    Fragment,
    Geometry,
    Compute,
    TessEvaluation,
    TessControl,
}

impl GlShaderType {
    /// The GL enumerant of this shader kind.
    pub fn gl_value(&self) -> (r: u32)
        ensures
            *self is Vertex ==> r == 0x8B31,
            *self is Fragment ==> r == 0x8B30,
            *self is Geometry ==> r == 0x8DD9,
            *self is Compute ==> r == 0x91B9,
            *self is TessEvaluation ==> r == 0x8E87,
            *self is TessControl ==> r == 0x8E88,
    {
        match self {
            GlShaderType::Vertex => 0x8B31,
            GlShaderType::Fragment => 0x8B30,
            GlShaderType::Geometry => 0x8DD9,
            GlShaderType::Compute => 0x91B9,
            GlShaderType::TessEvaluation => 0x8E87,
            GlShaderType::TessControl => 0x8E88,
        }
    }
}

/// The component count, component type and byte size that a GL
/// attribute type enumerant stands for; an unknown enumerant maps to
/// zeroes.
pub open spec fn spec_components_type_size(type_enum: u32) -> (i32, u32, usize) {
    match type_enum {
        0x1406 => (1, 0x1406, 4),  // float
        0x8B50 => (2, 0x1406, 8),  // float vec2
        0x8B51 => (3, 0x1406, 12),  // float vec3
        0x8B52 => (4, 0x1406, 16),  // float vec4
        0x1404 => (1, 0x1404, 4),  // int
        0x8B53 => (2, 0x1404, 8),  // int vec2
        0x8B54 => (3, 0x1404, 12),  // int vec3
        0x8B55 => (4, 0x1404, 16),  // int vec4
        0x1405 => (1, 0x1405, 4),  // unsigned int
        0x8DC6 => (2, 0x1405, 8),  // unsigned int vec2
        0x8DC7 => (3, 0x1405, 12),  // unsigned int vec3
        0x8DC8 => (4, 0x1405, 16),  // unsigned int vec4
        0x140A => (1, 0x140A, 8),  // double
        0x8B56 => (1, 0x8B56, 1),  // bool
        _ => (0, 0, 0),
    }
}

/// How many components an attribute of the given GL type enumerant
/// holds, which component type they are, and how many bytes the whole
/// attribute takes.
pub fn components_type_size(type_enum: u32) -> (r: (i32, u32, usize))
    ensures
        r == spec_components_type_size(type_enum),
{
    match type_enum {
        0x1406 => (1, 0x1406, 4),
        0x8B50 => (2, 0x1406, 8),
        0x8B51 => (3, 0x1406, 12),
        0x8B52 => (4, 0x1406, 16),
        0x1404 => (1, 0x1404, 4),
        0x8B53 => (2, 0x1404, 8),
        0x8B54 => (3, 0x1404, 12),
        0x8B55 => (4, 0x1404, 16),
        0x1405 => (1, 0x1405, 4),
        0x8DC6 => (2, 0x1405, 8),
        0x8DC7 => (3, 0x1405, 12),
        0x8DC8 => (4, 0x1405, 16),
        0x140A => (1, 0x140A, 8),
        0x8B56 => (1, 0x8B56, 1),
        _ => (0, 0, 0),
    }
}

/// The byte offset of entry `i` in an attribute table: the sizes of all
/// entries before it, added up.
pub open spec fn attribute_offset(entries: Seq<(Seq<char>, u32)>, i: int) -> int
    decreases i,
{
    if i <= 0 {
        0
    } else {
        attribute_offset(entries, i - 1) + spec_components_type_size(entries[i - 1].1).2
    }
}

/// Lay out the attribute table a linked program reports: one entry per
/// enumerated attribute, in order, each at the byte offset the sizes of
/// the earlier attributes add up to, and every entry read with a stride
/// of the whole table's byte size.
pub fn attribute_table(entries: &Vec<(String, u32)>) -> (r: Vec<VertexAttribute>)
    requires
        attribute_offset(entries.deep_view(), entries@.len() as int) <= usize::MAX,
    ensures
        r@.len() == entries@.len(),
        forall|i: int|
            0 <= i < entries@.len() ==> {
                &&& (#[trigger] r@[i]).name == entries@[i].0
                &&& r@[i].size == spec_components_type_size(entries@[i].1).0
                &&& r@[i].type_enum == spec_components_type_size(entries@[i].1).1
                &&& r@[i].offset as int == attribute_offset(entries.deep_view(), i)
                &&& r@[i].stride as int == attribute_offset(
                    entries.deep_view(),
                    entries@.len() as int,
                )
            },
{
    let n = entries.len();
    let mut names_and_types: Vec<VertexAttribute> = Vec::new();
    let mut offset: usize = 0;
    let mut i: usize = 0;
    while i < n
        invariant
            i <= n,
            n == entries@.len(),
            entries.deep_view().len() == entries@.len(),
            forall|j: int|
                0 <= j < entries@.len() ==> (#[trigger] entries.deep_view()[j]).1 == entries@[j].1,
            attribute_offset(entries.deep_view(), n as int) <= usize::MAX,
            offset == attribute_offset(entries.deep_view(), i as int),
            names_and_types@.len() == i,
            forall|j: int|
                0 <= j < i ==> {
                    &&& (#[trigger] names_and_types@[j]).name == entries@[j].0
                    &&& names_and_types@[j].size == spec_components_type_size(entries@[j].1).0
                    &&& names_and_types@[j].type_enum == spec_components_type_size(
                        entries@[j].1,
                    ).1
                    &&& names_and_types@[j].offset as int == attribute_offset(
                        entries.deep_view(),
                        j,
                    )
                    &&& names_and_types@[j].stride == 0
                },
        decreases n - i,
    {
        proof {
            lemma_attribute_offset_monotonic(entries.deep_view(), i as int + 1, n as int);
        }
        let (num, gl_type, size) = components_type_size(entries[i].1);
        names_and_types.push(
            VertexAttribute {
                name: entries[i].0.clone(),
                size: num,
                type_enum: gl_type,
                stride: 0,
                offset,
            },
        );
        offset = offset + size;
        i += 1;
    }
    let mut table: Vec<VertexAttribute> = Vec::new();
    let mut k: usize = 0;
    while k < n
        invariant
            k <= n,
            n == entries@.len(),
            names_and_types@.len() == n,
            offset as int == attribute_offset(entries.deep_view(), n as int),
            forall|j: int|
                0 <= j < n ==> {
                    &&& (#[trigger] names_and_types@[j]).name == entries@[j].0
                    &&& names_and_types@[j].size == spec_components_type_size(entries@[j].1).0
                    &&& names_and_types@[j].type_enum == spec_components_type_size(
                        entries@[j].1,
                    ).1
                    &&& names_and_types@[j].offset as int == attribute_offset(
                        entries.deep_view(),
                        j,
                    )
                },
            table@.len() == k,
            forall|j: int|
                0 <= j < k ==> {
                    &&& (#[trigger] table@[j]).name == entries@[j].0
                    &&& table@[j].size == spec_components_type_size(entries@[j].1).0
                    &&& table@[j].type_enum == spec_components_type_size(entries@[j].1).1
                    &&& table@[j].offset as int == attribute_offset(entries.deep_view(), j)
                    &&& table@[j].stride == offset
                },
        decreases n - k,
    {
        let entry = &names_and_types[k];
        table.push(
            VertexAttribute {
                name: entry.name.clone(),
                size: entry.size,
                type_enum: entry.type_enum,
                stride: offset,
                offset: entry.offset,
            },
        );
        k += 1;
    }
    table
}

/// Attribute offsets never shrink as the table grows: the offset of an
/// earlier entry is at most the offset of a later one.
proof fn lemma_attribute_offset_monotonic(entries: Seq<(Seq<char>, u32)>, i: int, j: int)
    requires
        0 <= i <= j,
    ensures
        attribute_offset(entries, i) <= attribute_offset(entries, j),
    decreases j - i,
{
    if i < j {
        lemma_attribute_offset_monotonic(entries, i, j - 1);
    }
}

/// The state of one GL shader program, together with the attribute
/// table recorded for it after a successful link.
pub struct GlShaderProgram {
    pub id: u32,
    pub linked: bool,
    pub attributes: Vec<VertexAttribute>,
}

impl GlShaderProgram {
    /// The program object the embedding program allocated under `id`:
    /// not yet linked, with no attributes recorded.
    pub fn new(id: u32) -> (r: GlShaderProgram)
        ensures
            r.id == id,
            !r.linked,
            r.attributes@.len() == 0,
    {
        GlShaderProgram { id, linked: false, attributes: Vec::new() }
    }

    /// The GL object id of the program.
    pub fn id(&self) -> (r: u32)
        ensures
            r == self.id,
    {
        self.id
    }

    /// Whether the program has been linked.
    pub fn is_linked(&self) -> (r: bool)
        ensures
            r == self.linked,
    {
        self.linked
    }

    /// The attributes recorded for the linked program.
    pub fn get_attributes(&self) -> (r: &[VertexAttribute])
        ensures
            r@ == self.attributes@,
    {
        self.attributes.as_slice()
    }

    /// A program may only be activated once it is linked.
    pub fn activate(&self) -> (r: Result<(), ProgramError>)
        ensures
            self.linked ==> r is Ok,
            !self.linked ==> r == Err::<(), ProgramError>(ProgramError::NotLinked),
    {
        if !self.linked {
            Err(ProgramError::NotLinked)
        } else {
            Ok(())
        }
    }

    /// Record the outcome of compiling one shader source:
    /// `compile_status` is what the GL compile reported. This revision
    /// keeps no attachment count; a failed compile surfaces
    /// `ShaderCompilationFailed`.
    pub fn compile_source(&self, compile_status: bool) -> (r: Result<(), ProgramError>)
        ensures
            compile_status ==> r is Ok,
            !compile_status ==> r == Err::<(), ProgramError>(
                ProgramError::ShaderCompilationFailed,
            ),
    {
        if compile_status {
            Ok(())
        } else {
            Err(ProgramError::ShaderCompilationFailed)
        }
    }

    /// Record the outcome of compiling a shader read from a file: an
    /// unread source surfaces `ShaderReadingFailed`, a read one is
    /// compiled as `compile_source` records it.
    pub fn compile_file(&self, source_read: bool, compile_status: bool) -> (r: Result<
        (),
        ProgramError,
    >)
        ensures
            !source_read ==> r == Err::<(), ProgramError>(ProgramError::ShaderReadingFailed),
            source_read && compile_status ==> r is Ok,
            source_read && !compile_status ==> r == Err::<(), ProgramError>(
                ProgramError::ShaderCompilationFailed,
            ),
    {
        if source_read {
            self.compile_source(compile_status)
        } else {
            Err(ProgramError::ShaderReadingFailed)
        }
    }

    /// Record the outcome of linking, and, on a successful link, the
    /// attribute table enumerated from the linked program. Linking an
    /// already linked program changes nothing and succeeds; a failed
    /// link surfaces `LinkingFailed` and leaves the program unchanged.
    pub fn link(&mut self, link_status: bool, attributes: Vec<VertexAttribute>) -> (r: Result<
        (),
        ProgramError,
    >)
        ensures
            final(self).id == old(self).id,
            old(self).linked ==> r is Ok && final(self).linked && final(self).attributes@ == old(
                self,
            ).attributes@,
            !old(self).linked && link_status ==> r is Ok && final(self).linked
                && final(self).attributes@ == attributes@,
            !old(self).linked && !link_status ==> r == Err::<(), ProgramError>(
                ProgramError::LinkingFailed,
            ) && !final(self).linked && final(self).attributes@ == old(self).attributes@,
    {
        if self.linked {
            return Ok(());
        }
        if link_status {
            self.linked = true;
            self.attributes = attributes;
            Ok(())
        } else {
            Err(ProgramError::LinkingFailed)
        }
    }
}

} // verus!
