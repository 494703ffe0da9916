//! Shader-program bookkeeping: the lifecycle a GL shader program moves
//! through (shaders compiled and attached, program linked, program
//! activated) and the errors each step can surface. The GL calls
//! themselves are made by the embedding program, which reports each
//! call's outcome; every decision about state and errors is made and
//! proved here.

use vstd::prelude::*;

verus! {

/// The kind of shader a source string is compiled as.
#[derive(Debug, Clone, Copy, PartialEq, Eq, Structural)]
pub enum ShaderType {
    Vertex,
    Fragment,
    Geometry,
    Compute,
    TessEvaluation,
    TessControl,
}

impl ShaderType {
    /// The GL enumerant of this shader kind.
    pub fn gl_value(&self) -> (r: u32)
        ensures
            *self is Vertex ==> r == 0x8B31,
            *self is Fragment ==> r == 0x8B30,
            *self is Geometry ==> r == 0x8DD9,
            *self is Compute ==> r == 0x91B9,
            *self is TessEvaluation ==> r == 0x8E87,
            *self is TessControl ==> r == 0x8E88,
    {
        match self {
            ShaderType::Vertex => 0x8B31,
            ShaderType::Fragment => 0x8B30,
            ShaderType::Geometry => 0x8DD9,
            ShaderType::Compute => 0x91B9,
            ShaderType::TessEvaluation => 0x8E87,
            ShaderType::TessControl => 0x8E88,
        }
    }
}

/// A failure of the shader-program lifecycle: using a program that is
/// not linked, a link that failed, a shader source that did not
/// compile, or a shader source that could not be read at all.
#[derive(Debug, Clone, Copy, PartialEq, Eq, Structural)]
pub enum ProgramError {
    NotLinked,
    LinkingFailed,
    ShaderCompilationFailed,
    ShaderReadingFailed,
}

/// The state of one GL shader program: its GL object id, whether it has
/// been linked, and how many compiled shaders are currently attached.
/// The embedding program allocates the id, runs each GL call, and hands
/// the call's success back in; the state transitions are decided here.
pub struct ShaderProgram {
    pub id: u32,
    pub linked: bool,
    pub attached_shaders: u32,
}

impl ShaderProgram {
    /// The program object the embedding program allocated under
    /// `id`: not yet linked, with no shaders attached.
    pub fn new(id: u32) -> (r: ShaderProgram)
        ensures
            r.id == id,
            !r.linked,
            r.attached_shaders == 0,
    {
        ShaderProgram { id, linked: false, attached_shaders: 0 }
    }

    /// The GL object id of the program.
    pub fn id(&self) -> (r: u32)
        ensures
            r == self.id,
    {
        self.id
    }

    /// Whether the program has been linked.
    pub fn is_linked(&self) -> (r: bool)
        ensures
            r == self.linked,
    {
        self.linked
    }

    /// How many compiled shaders are attached and not yet released by a
    /// successful link.
    pub fn attached_shaders(&self) -> (r: u32)
        ensures
            r == self.attached_shaders,
    {
        self.attached_shaders
    }

    /// A program may only be activated once it is linked.
    pub fn activate(&self) -> (r: Result<(), ProgramError>)
        ensures
            self.linked ==> r is Ok,
            !self.linked ==> r == Err::<(), ProgramError>(ProgramError::NotLinked),
    {
        if !self.linked {
            Err(ProgramError::NotLinked)
        } else {
            Ok(())
        }
    }

    /// Record the outcome of compiling one shader source:
    /// `compile_status` is what the GL compile reported. A successful
    /// compile attaches the shader; a failed one leaves the program
    /// unchanged and surfaces `ShaderCompilationFailed`.
    pub fn compile_source(&mut self, compile_status: bool) -> (r: Result<(), ProgramError>)
        requires
            old(self).attached_shaders < u32::MAX,
        ensures
            final(self).id == old(self).id,
            final(self).linked == old(self).linked,
            compile_status ==> r is Ok && final(self).attached_shaders
                == old(self).attached_shaders + 1,
            !compile_status ==> r == Err::<(), ProgramError>(ProgramError::ShaderCompilationFailed)
                && final(self).attached_shaders == old(self).attached_shaders,
    {
        if compile_status {
            self.attached_shaders = self.attached_shaders + 1;
            Ok(())
        } else {
            Err(ProgramError::ShaderCompilationFailed)
        }
    }

    /// Record the outcome of compiling a shader read from a file:
    /// `source_read` says whether the source could be read,
    /// `compile_status` what the GL compile reported of it. An unread
    /// source surfaces `ShaderReadingFailed` without touching the
    /// program.
    pub fn compile_file(&mut self, source_read: bool, compile_status: bool) -> (r: Result<
        (),
        ProgramError,
    >)
        requires
            old(self).attached_shaders < u32::MAX,
        ensures
            final(self).id == old(self).id,
            final(self).linked == old(self).linked,
            !source_read ==> r == Err::<(), ProgramError>(ProgramError::ShaderReadingFailed)
                && final(self).attached_shaders == old(self).attached_shaders,
            source_read && compile_status ==> r is Ok && final(self).attached_shaders
                == old(self).attached_shaders + 1,
            source_read && !compile_status ==> r == Err::<(), ProgramError>(
                ProgramError::ShaderCompilationFailed,
            ) && final(self).attached_shaders == old(self).attached_shaders,
    {
        if source_read {
            self.compile_source(compile_status)
        } else {
            Err(ProgramError::ShaderReadingFailed)
        }
    }

    /// Record the outcome of linking: `link_status` is what the GL link
    /// reported. Linking an already linked program changes nothing and
    /// succeeds; a successful link marks the program linked and releases
    /// the attached shaders; a failed one surfaces `LinkingFailed`.
    pub fn link(&mut self, link_status: bool) -> (r: Result<(), ProgramError>)
        ensures
            final(self).id == old(self).id,
            old(self).linked ==> r is Ok && *final(self) == *old(self),
            !old(self).linked && link_status ==> r is Ok && final(self).linked
                && final(self).attached_shaders == 0,
            !old(self).linked && !link_status ==> r == Err::<(), ProgramError>(
                ProgramError::LinkingFailed,
            ) && *final(self) == *old(self),
    {
        if self.linked {
            return Ok(());
        }
        if link_status {
            self.linked = true;
            self.attached_shaders = 0;
            Ok(())
        } else {
            Err(ProgramError::LinkingFailed)
        }
    }
}

} // verus!
