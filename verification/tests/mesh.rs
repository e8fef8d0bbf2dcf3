use rps_simulator::{AttributeFormat, Mesh, StepMode, Vertex};

#[test]
fn rect_geometry() {
    let w = 60.0f32.to_bits();
    let h = 40.0f32.to_bits();
    let z = 0.0f32.to_bits();
    let one = 1.0f32.to_bits();

    let mesh = Mesh::rect(w, h);
    assert_eq!(mesh.num_indices(), 6);
    assert_eq!(mesh.indices, vec![0u16, 1, 2, 0, 2, 3]);
    assert_eq!(mesh.vertices.len(), 4);
    assert_eq!(mesh.vertices[0].position, [z, z]);
    assert_eq!(mesh.vertices[0].uv, [z, z]);
    assert_eq!(mesh.vertices[1].position, [z, h]);
    assert_eq!(mesh.vertices[1].uv, [z, one]);
    assert_eq!(mesh.vertices[2].position, [w, h]);
    assert_eq!(mesh.vertices[2].uv, [one, one]);
    assert_eq!(mesh.vertices[3].position, [w, z]);
    assert_eq!(mesh.vertices[3].uv, [one, z]);
}

#[test]
fn mesh_byte_layout() {
    let mesh = Mesh::rect(60.0f32.to_bits(), 60.0f32.to_bits());

    let vb = mesh.vertex_bytes();
    assert_eq!(vb.len(), 4 * 16);
    // vertex 0 is all zeroes: position (0,0), uv (0,0)
    assert_eq!(&vb[0..16], &[0u8; 16]);
    // vertex 2 holds position (60,60): 60.0f32 is 0x42700000, little-endian
    assert_eq!(&vb[32..36], &[0x00, 0x00, 0x70, 0x42]);
    assert_eq!(&vb[36..40], &[0x00, 0x00, 0x70, 0x42]);
    // and uv (1,1): 1.0f32 is 0x3f800000
    assert_eq!(&vb[40..44], &[0x00, 0x00, 0x80, 0x3f]);
    assert_eq!(&vb[44..48], &[0x00, 0x00, 0x80, 0x3f]);

    let ib = mesh.index_bytes();
    assert_eq!(ib, vec![0u8, 0, 1, 0, 2, 0, 0, 0, 2, 0, 3, 0]);
}

#[test]
fn vertex_layout_description() {
    let layout = Vertex::layout();
    assert_eq!(layout.array_stride, 16);
    assert_eq!(layout.step_mode, StepMode::Vertex);
    assert_eq!(layout.attributes.len(), 2);
    assert_eq!(layout.attributes[0].format, AttributeFormat::Float32x2);
    assert_eq!(layout.attributes[0].offset, 0);
    assert_eq!(layout.attributes[0].shader_location, 0);
    assert_eq!(layout.attributes[1].format, AttributeFormat::Float32x2);
    assert_eq!(layout.attributes[1].offset, 8);
    assert_eq!(layout.attributes[1].shader_location, 1);
}
