use opal::gl_objects::GlDrawingMode;
use opal::gl_program::{attribute_table, components_type_size, GlShaderProgram, GlShaderType};
use opal::program::{ProgramError, ShaderProgram, ShaderType};
use opal::texture::{GlTexture, GlTextureType};
use opal::vertex::{GlVertices, VertexAttribute, VertexBuffer, Vertices};

#[test]
fn program_cannot_be_activated_before_linking() {
    let program = ShaderProgram::new(7);
    assert_eq!(program.id(), 7);
    assert!(!program.is_linked());
    assert_eq!(program.activate(), Err(ProgramError::NotLinked));
}

#[test]
fn program_lifecycle_compile_link_activate() {
    let mut program = ShaderProgram::new(1);
    assert_eq!(program.compile_file(true, true), Ok(()));
    assert_eq!(program.compile_file(true, true), Ok(()));
    assert_eq!(program.attached_shaders(), 2);
    assert_eq!(program.link(true), Ok(()));
    assert!(program.is_linked());
    // A successful link releases the attached shaders.
    assert_eq!(program.attached_shaders(), 0);
    assert_eq!(program.activate(), Ok(()));
}

#[test]
fn program_surfaces_each_failure_kind() {
    let mut program = ShaderProgram::new(1);
    assert_eq!(program.compile_file(false, true), Err(ProgramError::ShaderReadingFailed));
    assert_eq!(program.compile_file(true, false), Err(ProgramError::ShaderCompilationFailed));
    assert_eq!(program.compile_source(false), Err(ProgramError::ShaderCompilationFailed));
    assert_eq!(program.attached_shaders(), 0);
    assert_eq!(program.link(false), Err(ProgramError::LinkingFailed));
    assert!(!program.is_linked());
}

#[test]
fn program_link_is_idempotent() {
    let mut program = ShaderProgram::new(1);
    assert_eq!(program.link(true), Ok(()));
    // A second link reports success without consulting the GL status.
    assert_eq!(program.link(false), Ok(()));
    assert!(program.is_linked());
}

#[test]
fn gl_program_records_attributes_on_link() {
    let mut program = GlShaderProgram::new(4);
    assert_eq!(program.activate(), Err(ProgramError::NotLinked));
    assert_eq!(program.compile_file(true, true), Ok(()));
    let attributes = vec![VertexAttribute {
        name: "position".to_string(),
        size: 3,
        type_enum: 0x1406,
        stride: 12,
        offset: 0,
    }];
    assert_eq!(program.link(true, attributes), Ok(()));
    assert!(program.is_linked());
    let recorded = program.get_attributes();
    assert_eq!(recorded.len(), 1);
    assert_eq!(recorded[0].name, "position");
    assert_eq!(program.activate(), Ok(()));
}

#[test]
fn gl_program_failures_leave_it_unlinked() {
    let mut program = GlShaderProgram::new(4);
    assert_eq!(program.compile_file(false, true), Err(ProgramError::ShaderReadingFailed));
    assert_eq!(program.compile_source(false), Err(ProgramError::ShaderCompilationFailed));
    assert_eq!(program.link(false, Vec::new()), Err(ProgramError::LinkingFailed));
    assert!(!program.is_linked());
    assert_eq!(program.get_attributes().len(), 0);
}

#[test]
fn shader_types_map_to_gl_enumerants() {
    assert_eq!(ShaderType::Vertex.gl_value(), 0x8B31);
    assert_eq!(ShaderType::Fragment.gl_value(), 0x8B30);
    assert_eq!(GlShaderType::Geometry.gl_value(), 0x8DD9);
    assert_eq!(GlShaderType::Compute.gl_value(), 0x91B9);
    assert_eq!(GlShaderType::TessEvaluation.gl_value(), 0x8E87);
    assert_eq!(GlShaderType::TessControl.gl_value(), 0x8E88);
}

#[test]
fn drawing_modes_map_to_gl_enumerants() {
    assert_eq!(GlDrawingMode::Points.gl_value(), 0);
    assert_eq!(GlDrawingMode::Triangles.gl_value(), 4);
    assert_eq!(GlDrawingMode::TriangleStrip.gl_value(), 5);
    assert_eq!(GlDrawingMode::LinesAdjacency.gl_value(), 0xA);
}

#[test]
fn vertices_compute_the_attribute_layout() {
    let buffer: VertexBuffer<[f32; 3]> = VertexBuffer::Array(vec![[0.0, 0.0, 0.0], [1.0, 1.0, 1.0]]);
    let vertices = Vertices::new::<f32>(
        buffer,
        vec!["position".to_string(), "normal".to_string()],
    );
    assert_eq!(vertices.desc.len(), 2);
    assert_eq!(vertices.desc[0].attribute, "position");
    assert_eq!(vertices.desc[0].size, 3);
    assert_eq!(vertices.desc[0].stride, 24);
    assert_eq!(vertices.desc[0].offset, 0);
    assert_eq!(vertices.desc[1].attribute, "normal");
    assert_eq!(vertices.desc[1].size, 3);
    assert_eq!(vertices.desc[1].stride, 24);
    assert_eq!(vertices.desc[1].offset, 12);
}

#[test]
fn gl_vertices_record_the_index_count() {
    let indexed: Vertices<[f32; 3]> = Vertices {
        buffer: VertexBuffer::Indexed(vec![[0.0, 0.0, 0.0]], vec![0, 0, 0, 0]),
        desc: Vec::new(),
    };
    let uploaded = GlVertices::new(&indexed, 1, 2, 3);
    assert_eq!(uploaded.index_count(), 4);

    let plain: Vertices<[f32; 3]> = Vertices {
        buffer: VertexBuffer::Array(vec![[0.0, 0.0, 0.0]]),
        desc: Vec::new(),
    };
    let uploaded = GlVertices::new(&plain, 1, 2, 3);
    assert_eq!(uploaded.index_count(), 0);
    assert_eq!(uploaded.ebo, 0);
}

#[test]
fn component_layout_of_gl_attribute_types() {
    assert_eq!(components_type_size(0x1406), (1, 0x1406, 4)); // float
    assert_eq!(components_type_size(0x8B51), (3, 0x1406, 12)); // float vec3
    assert_eq!(components_type_size(0x8B55), (4, 0x1404, 16)); // int vec4
    assert_eq!(components_type_size(0x140A), (1, 0x140A, 8)); // double
    assert_eq!(components_type_size(0x8B56), (1, 0x8B56, 1)); // bool
    assert_eq!(components_type_size(0xFFFF), (0, 0, 0)); // unknown
}

#[test]
fn attribute_table_accumulates_offsets_and_shares_the_stride() {
    let entries = vec![
        ("position".to_string(), 0x8B51u32), // float vec3, 12 bytes
        ("uv".to_string(), 0x8B50u32),       // float vec2, 8 bytes
        ("flags".to_string(), 0x1405u32),    // unsigned int, 4 bytes
    ];
    let table = attribute_table(&entries);
    assert_eq!(table.len(), 3);
    assert_eq!(table[0].name, "position");
    assert_eq!(table[0].offset, 0);
    assert_eq!(table[1].name, "uv");
    assert_eq!(table[1].offset, 12);
    assert_eq!(table[2].name, "flags");
    assert_eq!(table[2].offset, 20);
    for attribute in &table {
        assert_eq!(attribute.stride, 24);
    }
    assert_eq!(table[0].size, 3);
    assert_eq!(table[0].type_enum, 0x1406);
    assert_eq!(table[2].size, 1);
    assert_eq!(table[2].type_enum, 0x1405);
}

#[test]
fn texture_keeps_its_id_and_role() {
    let texture = GlTexture::new(9, GlTextureType::Diffuse, "assets/crate.png".to_string());
    assert_eq!(texture.id(), 9);
    assert_eq!(texture.texture_type(), GlTextureType::Diffuse);
    assert_eq!(texture.path, "assets/crate.png");
    let specular = GlTexture::new(10, GlTextureType::Specular, "assets/crate_s.png".to_string());
    assert_eq!(specular.texture_type(), GlTextureType::Specular);
}
